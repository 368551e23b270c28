//! The settings of one formatting call.
//!
//! What the options of a configuration file mean is the formatter's business:
//! the library carries them as a value of a type `C` that it never looks
//! into. Its own part is to say which options a call starts from, and which
//! operational settings are forced over them before the formatter runs.

use vstd::prelude::*;
use crate::location::{Location, LocationView};

verus! {

/// From where a formatting call was started.
#[derive(Clone, Copy, Debug, PartialEq, Eq)]
pub enum EntryPoint {
    /// Through the foreign-call boundary, inside a host process.
    Embedded,
    /// From a command line.
    CommandLine,
}

/// What is done to one operational setting before the formatter runs.
#[derive(Clone, Copy, Debug, PartialEq, Eq)]
pub enum Setting {
    /// The setting stays as the base has it.
    AsConfigured,
    /// The setting is switched off, whatever the base says.
    ForcedOff,
    /// The setting is switched on, whatever the base says.
    ForcedOn,
}

/// The options that a formatting call starts from.
#[derive(Clone, Debug, PartialEq, Eq)]
pub enum Base<C> {
    /// The formatter's defaults: no configuration file applies.
    Defaults,
    /// The options parsed from the configuration file at `file`.
    Parsed { file: Location, options: C },
}

/// The mathematical value of a [`Base`].
pub enum BaseView<C> {
    Defaults,
    Parsed { file: LocationView, options: C },
}

impl<C> View for Base<C> {
    type V = BaseView<C>;

    open spec fn view(&self) -> BaseView<C> {
        match self {
            Base::Defaults => BaseView::Defaults,
            Base::Parsed { file, options } => BaseView::Parsed { file: file@, options: *options },
        }
    }
}

/// The finished settings of one formatting call: a base, and what is forced
/// over it. A value of this type is made once, by [`finalize`], and used for
/// one call.
#[derive(Clone, Debug, PartialEq, Eq)]
pub struct Configuration<C> {
    pub base: Base<C>,
    /// Writing results to files. Always forced off: the formatted text goes
    /// back to the caller and no file is touched.
    pub write_files: Setting,
    /// Leaving child modules alone. Forced on where the caller asked for it.
    pub skip_children: Setting,
    /// Verbose output. Forced off for an embedded call.
    pub verbose: Setting,
}

/// The mathematical value of a [`Configuration`].
pub struct ConfigurationView<C> {
    pub base: BaseView<C>,
    pub write_files: Setting,
    pub skip_children: Setting,
    pub verbose: Setting,
}

impl<C> View for Configuration<C> {
    type V = ConfigurationView<C>;

    open spec fn view(&self) -> ConfigurationView<C> {
        ConfigurationView {
            base: self.base@,
            write_files: self.write_files,
            skip_children: self.skip_children,
            verbose: self.verbose,
        }
    }
}

/// The settings of a call that starts from `base`.
pub open spec fn spec_finalize<C>(
    base: BaseView<C>,
    entry: EntryPoint,
    skip_children: bool,
) -> ConfigurationView<C> {
    ConfigurationView {
        base,
        write_files: Setting::ForcedOff,
        skip_children: if skip_children {
            Setting::ForcedOn
        } else {
            Setting::AsConfigured
        },
        verbose: if entry == EntryPoint::Embedded {
            Setting::ForcedOff
        } else {
            Setting::AsConfigured
        },
    }
}

/// Forces the operational settings over `base`: writing to files is switched
/// off for every call; child modules are skipped exactly where
/// `skip_children` asks for it; verbose output is switched off for an
/// embedded call. Everything else stays as the base has it.
pub fn finalize<C>(base: Base<C>, entry: EntryPoint, skip_children: bool) -> (configuration:
    Configuration<C>)
    ensures
        configuration@ == spec_finalize(base@, entry, skip_children),
        configuration.write_files == Setting::ForcedOff,
{
    let skip = if skip_children {
        Setting::ForcedOn
    } else {
        Setting::AsConfigured
    };
    let verbose = match entry {
        EntryPoint::Embedded => Setting::ForcedOff,
        EntryPoint::CommandLine => Setting::AsConfigured,
    };
    Configuration { base, write_files: Setting::ForcedOff, skip_children: skip, verbose }
}

} // verus!
