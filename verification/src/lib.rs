//! Configuration discovery and status reporting for an embedded source
//! formatter, with the strings of its foreign-call boundary.
//!
//! The library does no input or output of its own. Whatever touches the file
//! system or the formatter is asked of the host, one request at a time, and
//! the host's answers drive the next decision.
//!
//! - [`location`]: places in a file tree, as plain values.
//! - [`path_search`]: the upward search for the configuration file.
//! - [`resolver`]: which configuration applies, stated as a function of what
//!   the host's surroundings would answer.
//! - [`configuration`]: the settings of one call, and what is forced over them.
//! - [`outcome`]: what the formatter reported, and the status code for it.
//! - [`session`]: one formatting call, step by step.
//! - [`execution`]: what the steps of a call add up to, and the laws of it.
//! - [`foreign`]: the strings that cross the foreign-call boundary.
//! - [`failure`]: failures of the file system.

pub mod configuration;
pub mod execution;
pub mod failure;
pub mod foreign;
pub mod location;
pub mod outcome;
pub mod path_search;
pub mod resolver;
pub mod session;

pub use crate::outcome::{process_summary, Severity, Summary};
pub use crate::foreign::{free_c_char_mem, get_version};
pub use crate::session::execute;
