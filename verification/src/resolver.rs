//! Which configuration applies to a call.
//!
//! A configuration is looked for in up to two places. Where the caller names
//! a path, the search starts there first (in its parent directory, where the
//! path names a file); a file found from there wins outright. Only where that
//! search finds nothing does a second search start in the working directory.
//! Where neither finds a file, the formatter's defaults apply, and that is no
//! error.
//!
//! This module states the resolution as a mathematical function of what the
//! host's surroundings would answer. The session of [`crate::session`] is the
//! step-by-step form of it, as [`crate::execution`] shows.

use vstd::prelude::*;
use crate::configuration::{BaseView, ConfigurationView};
use crate::failure::{IoFailure, IoFailureView};
use crate::location::{Location, LocationView};
use crate::outcome::{Severity, Summary};
use crate::path_search::{
    candidate, lemma_search_exhausts, lemma_search_finds_nearest, lemma_search_stops_at_failure,
    probe_at, search, ProbeView, SearchOutcomeView,
};

verus! {

/// Which of the two searches of a resolution is meant.
#[derive(Clone, Copy, Debug, PartialEq, Eq)]
pub enum Tier {
    /// The search from the path that the caller named.
    Explicit,
    /// The search from the working directory.
    Fallback,
}

/// Why no configuration could be resolved.
#[derive(Clone, Debug, PartialEq, Eq)]
pub enum ResolveError {
    /// The directory to start a search in could not be made canonical.
    Canonicalize { dir: Location, failure: IoFailure },
    /// A probe failed during a search.
    Probe { candidate: Location, failure: IoFailure },
    /// The configuration file was found and could not be read.
    Read { file: Location, failure: IoFailure },
    /// The configuration file was read and its content is malformed.
    Malformed { file: Location, message: String },
}

/// The mathematical value of a [`ResolveError`].
pub enum ResolveErrorView {
    Canonicalize { dir: LocationView, failure: IoFailureView },
    Probe { candidate: LocationView, failure: IoFailureView },
    Read { file: LocationView, failure: IoFailureView },
    Malformed { file: LocationView, message: Seq<char> },
}

impl View for ResolveError {
    type V = ResolveErrorView;

    open spec fn view(&self) -> ResolveErrorView {
        match self {
            ResolveError::Canonicalize { dir, failure } => ResolveErrorView::Canonicalize {
                dir: dir@,
                failure: failure@,
            },
            ResolveError::Probe { candidate, failure } => ResolveErrorView::Probe {
                candidate: candidate@,
                failure: failure@,
            },
            ResolveError::Read { file, failure } => ResolveErrorView::Read {
                file: file@,
                failure: failure@,
            },
            ResolveError::Malformed { file, message } => ResolveErrorView::Malformed {
                file: file@,
                message: message@,
            },
        }
    }
}

impl ResolveErrorView {
    /// The classification of the error: malformed content is a parsing error,
    /// every failure of the file system an operational one.
    pub open spec fn severity(self) -> Severity {
        match self {
            ResolveErrorView::Malformed { .. } => Severity::Parsing,
            _ => Severity::Operational,
        }
    }
}

impl ResolveError {
    /// The classification of the error: malformed content is a parsing error,
    /// every failure of the file system an operational one.
    pub fn severity(&self) -> (severity: Severity)
        ensures
            severity == self@.severity(),
    {
        match self {
            ResolveError::Malformed { .. } => Severity::Parsing,
            ResolveError::Canonicalize { .. } => Severity::Operational,
            ResolveError::Probe { .. } => Severity::Operational,
            ResolveError::Read { .. } => Severity::Operational,
        }
    }
}

/// How the host's surroundings answer: the file tree, the parser of
/// configuration files and the formatter, each as a function of what it is
/// asked. A world is a value of reasoning only; it says what a host that
/// answers faithfully would answer.
#[verifier::reject_recursive_types(C)]
pub struct World<C> {
    /// An explicit path as a location, and whether it names a regular file.
    pub inspect: spec_fn(Seq<char>) -> (LocationView, bool),
    /// The canonical form of a directory.
    pub canonicalize: spec_fn(LocationView) -> Result<LocationView, IoFailureView>,
    /// What is found at an entry.
    pub probe: spec_fn(LocationView) -> ProbeView,
    /// The text of a file.
    pub read: spec_fn(LocationView) -> Result<Seq<char>, IoFailureView>,
    /// The options that a configuration text stands for, or why it is
    /// malformed.
    pub parse: spec_fn(Seq<char>) -> Result<C, Seq<char>>,
    /// What the formatter reports of a buffer under given settings.
    pub format: spec_fn(Seq<char>, ConfigurationView<C>) -> Summary,
}

/// The directory in which the search for an explicit path starts: the
/// parent of a path that names a file, else the path itself. None where a
/// file has no parent.
pub open spec fn explicit_root<C>(world: World<C>, path: Seq<char>) -> Option<LocationView> {
    let (location, is_file) = (world.inspect)(path);
    if is_file {
        location.parent()
    } else {
        Some(location)
    }
}

/// One search with what follows it: the directory `start` is made canonical,
/// the configuration file is searched from there upwards and, where one is
/// found, read and parsed. `Ok(None)` says that no file was found.
pub open spec fn resolve_at<C>(world: World<C>, start: LocationView) -> Result<
    Option<(LocationView, C)>,
    ResolveErrorView,
> {
    match (world.canonicalize)(start) {
        Err(failure) => Err(ResolveErrorView::Canonicalize { dir: start, failure }),
        Ok(dir) => match search(world.probe, dir) {
            SearchOutcomeView::Failed { candidate, failure } => Err(
                ResolveErrorView::Probe { candidate, failure },
            ),
            SearchOutcomeView::NotFound => Ok(None),
            SearchOutcomeView::Found(file) => match (world.read)(file) {
                Err(failure) => Err(ResolveErrorView::Read { file, failure }),
                Ok(text) => match (world.parse)(text) {
                    Err(message) => Err(ResolveErrorView::Malformed { file, message }),
                    Ok(options) => Ok(Some((file, options))),
                },
            },
        },
    }
}

/// The base that one search gives where it is the last one tried.
pub open spec fn base_of<C>(found: Option<(LocationView, C)>) -> BaseView<C> {
    match found {
        Some((file, options)) => BaseView::Parsed { file, options },
        None => BaseView::Defaults,
    }
}

/// The search from the working directory alone.
pub open spec fn resolve_fallback<C>(world: World<C>, working_dir: LocationView) -> Result<
    BaseView<C>,
    ResolveErrorView,
> {
    match resolve_at(world, working_dir) {
        Err(error) => Err(error),
        Ok(found) => Ok(base_of(found)),
    }
}

/// The whole resolution. A relative explicit root is taken from the working
/// directory.
pub open spec fn resolve<C>(
    world: World<C>,
    explicit: Option<Seq<char>>,
    working_dir: LocationView,
) -> Result<BaseView<C>, ResolveErrorView> {
    match explicit {
        None => resolve_fallback(world, working_dir),
        Some(path) => match explicit_root(world, path) {
            None => resolve_fallback(world, working_dir),
            Some(root) => match resolve_at(world, working_dir.join(root)) {
                Err(error) => Err(error),
                Ok(Some((file, options))) => Ok(BaseView::Parsed { file, options }),
                Ok(None) => resolve_fallback(world, working_dir),
            },
        },
    }
}

/// The explicit place has priority. Where the search from the explicit root
/// finds a file that reads and parses, the resolution gives that file's
/// options, whatever the working directory holds.
pub proof fn lemma_explicit_wins<C>(
    world: World<C>,
    path: Seq<char>,
    working_dir: LocationView,
    root: LocationView,
    file: LocationView,
    options: C,
)
    requires
        explicit_root(world, path) == Some(root),
        resolve_at(world, working_dir.join(root)) == Ok::<
            Option<(LocationView, C)>,
            ResolveErrorView,
        >(Some((file, options))),
    ensures
        resolve(world, Some(path), working_dir) == Ok::<BaseView<C>, ResolveErrorView>(
            BaseView::Parsed { file, options },
        ),
{
}

/// The working directory is the default. Where the search from the explicit
/// root finds nothing, the resolution is the search from the working
/// directory.
pub proof fn lemma_explicit_empty_falls_back<C>(
    world: World<C>,
    path: Seq<char>,
    working_dir: LocationView,
    root: LocationView,
)
    requires
        explicit_root(world, path) == Some(root),
        resolve_at(world, working_dir.join(root)) == Ok::<
            Option<(LocationView, C)>,
            ResolveErrorView,
        >(None),
    ensures
        resolve(world, Some(path), working_dir) == resolve_fallback(world, working_dir),
{
}

/// An explicit path that names a file is searched from its parent directory.
pub proof fn lemma_explicit_file_starts_at_parent<C>(world: World<C>, path: Seq<char>)
    requires
        (world.inspect)(path).1,
    ensures
        explicit_root(world, path) == (world.inspect)(path).0.parent(),
{
}

/// Without a configuration file the defaults apply. Where no explicit path
/// is given and every level from the working directory up to the anchor is
/// passed by, the resolution gives the formatter's defaults, and no error.
pub proof fn lemma_no_file_gives_defaults<C>(
    world: World<C>,
    working_dir: LocationView,
    dir: LocationView,
)
    requires
        (world.canonicalize)(working_dir) == Ok::<LocationView, IoFailureView>(dir),
        forall|j: nat|
            j <= dir.depth() ==> (#[trigger] probe_at(world.probe, dir, j)).is_passed_by(),
    ensures
        resolve(world, None, working_dir) == Ok::<BaseView<C>, ResolveErrorView>(
            BaseView::Defaults,
        ),
{
    lemma_search_exhausts(world.probe, dir);
}

/// The search does not stop short of the file. Where no explicit path is
/// given, the configuration file stands `levels` levels above the working
/// directory, every level nearer is passed by, and the file reads and
/// parses, the resolution gives the options of that file.
pub proof fn lemma_file_above_is_used<C>(
    world: World<C>,
    working_dir: LocationView,
    dir: LocationView,
    levels: nat,
    text: Seq<char>,
    options: C,
)
    requires
        (world.canonicalize)(working_dir) == Ok::<LocationView, IoFailureView>(dir),
        levels <= dir.depth(),
        probe_at(world.probe, dir, levels).is_regular_file(),
        forall|j: nat| j < levels ==> (#[trigger] probe_at(world.probe, dir, j)).is_passed_by(),
        (world.read)(candidate(dir.ancestor(levels))) == Ok::<Seq<char>, IoFailureView>(text),
        (world.parse)(text) == Ok::<C, Seq<char>>(options),
    ensures
        resolve(world, None, working_dir) == Ok::<BaseView<C>, ResolveErrorView>(
            BaseView::Parsed { file: candidate(dir.ancestor(levels)), options },
        ),
{
    lemma_search_finds_nearest(world.probe, dir, levels);
}

/// A failed probe fails the resolution. Where no explicit path is given and
/// probing `levels` levels above the working directory fails with more than
/// "nothing there", every level nearer being passed by, the resolution ends
/// with that failure, an operational error, whatever stands further up.
pub proof fn lemma_failed_probe_fails_resolution<C>(
    world: World<C>,
    working_dir: LocationView,
    dir: LocationView,
    levels: nat,
)
    requires
        (world.canonicalize)(working_dir) == Ok::<LocationView, IoFailureView>(dir),
        levels <= dir.depth(),
        probe_at(world.probe, dir, levels).is_failure(),
        forall|j: nat| j < levels ==> (#[trigger] probe_at(world.probe, dir, j)).is_passed_by(),
    ensures
        resolve(world, None, working_dir) == Err::<BaseView<C>, ResolveErrorView>(
            ResolveErrorView::Probe {
                candidate: candidate(dir.ancestor(levels)),
                failure: probe_at(world.probe, dir, levels)->Failed_0,
            },
        ),
        resolve(world, None, working_dir)->Err_0.severity() == Severity::Operational,
{
    lemma_search_stops_at_failure(world.probe, dir, levels);
}

} // verus!
