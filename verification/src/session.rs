//! One formatting call, step by step.
//!
//! A [`Session`] holds what a call has decided so far and the one thing it
//! needs from the host next: its [`Pending`] request. The host does what is
//! asked (looks at a path, probes an entry, reads a file, parses a text, runs
//! the formatter) and hands the answer to [`Session::step`], which decides what
//! comes next. The call is over when the pending request is
//! [`Pending::Finish`]: the host then flushes its output and returns the
//! status.
//!
//! What the steps of a call add up to is the matter of
//! [`crate::execution`].

use vstd::prelude::*;
use crate::configuration::{
    finalize, spec_finalize, Base, BaseView, Configuration, ConfigurationView, EntryPoint,
};
use crate::failure::{IoFailure, IoFailureView};
use crate::location::{Location, LocationView};
use crate::outcome::{process_summary, spec_process_summary, Summary};
use crate::path_search::{
    spec_advance, PathSearch, Probe, ProbeView, SearchOutcome, SearchOutcomeView, SearchStep,
    SearchStepView,
};
use crate::resolver::{ResolveError, ResolveErrorView, Tier};

verus! {

/// What a session needs from the host next.
#[derive(Clone, Debug, PartialEq, Eq)]
pub enum Pending<C> {
    /// Turn the explicit path into a location and say whether it names a
    /// regular file.
    Inspect { path: String },
    /// Make the directory `start` canonical: absolute, with links and
    /// relative steps resolved.
    Canonicalize { tier: Tier, start: Location },
    /// Probe the entry that `search` stands at.
    Probe { tier: Tier, search: PathSearch },
    /// Read the whole of `file` as text.
    Read { file: Location },
    /// Parse `text`, the content of `file`, as a configuration.
    Parse { file: Location, text: String },
    /// Tell the maintainer of `error`; the call then goes on with the
    /// formatter's defaults.
    Report { error: ResolveError },
    /// Run the formatter on the session's buffer under `configuration`.
    Format { configuration: Configuration<C> },
    /// Nothing more: flush the output and return `status`.
    Finish { status: i32 },
}

/// The mathematical value of a [`Pending`].
pub enum PendingView<C> {
    Inspect { path: Seq<char> },
    Canonicalize { tier: Tier, start: LocationView },
    Probe { tier: Tier, dir: LocationView },
    Read { file: LocationView },
    Parse { file: LocationView, text: Seq<char> },
    Report { error: ResolveErrorView },
    Format { configuration: ConfigurationView<C> },
    Finish { status: i32 },
}

impl<C> View for Pending<C> {
    type V = PendingView<C>;

    open spec fn view(&self) -> PendingView<C> {
        match self {
            Pending::Inspect { path } => PendingView::Inspect { path: path@ },
            Pending::Canonicalize { tier, start } => PendingView::Canonicalize {
                tier: *tier,
                start: start@,
            },
            Pending::Probe { tier, search } => PendingView::Probe { tier: *tier, dir: search@ },
            Pending::Read { file } => PendingView::Read { file: file@ },
            Pending::Parse { file, text } => PendingView::Parse { file: file@, text: text@ },
            Pending::Report { error } => PendingView::Report { error: error@ },
            Pending::Format { configuration } => PendingView::Format {
                configuration: configuration@,
            },
            Pending::Finish { status } => PendingView::Finish { status: *status },
        }
    }
}

/// The host's answer to a pending request.
#[derive(Debug, PartialEq, Eq)]
pub enum Event<C> {
    /// Answers [`Pending::Inspect`].
    Inspected { location: Location, is_file: bool },
    /// Answers [`Pending::Canonicalize`].
    Canonicalized(Result<Location, IoFailure>),
    /// Answers [`Pending::Probe`].
    Probed(Probe),
    /// Answers [`Pending::Read`].
    Read(Result<String, IoFailure>),
    /// Answers [`Pending::Parse`]: the options, or why the text is malformed.
    Parsed(Result<C, String>),
    /// Answers [`Pending::Report`].
    Reported,
    /// Answers [`Pending::Format`].
    Formatted(Summary),
}

/// The mathematical value of an [`Event`].
pub enum EventView<C> {
    Inspected { location: LocationView, is_file: bool },
    Canonicalized(Result<LocationView, IoFailureView>),
    Probed(ProbeView),
    Read(Result<Seq<char>, IoFailureView>),
    Parsed(Result<C, Seq<char>>),
    Reported,
    Formatted(Summary),
}

impl<C> View for Event<C> {
    type V = EventView<C>;

    open spec fn view(&self) -> EventView<C> {
        match self {
            Event::Inspected { location, is_file } => EventView::Inspected {
                location: location@,
                is_file: *is_file,
            },
            Event::Canonicalized(Ok(dir)) => EventView::Canonicalized(Ok(dir@)),
            Event::Canonicalized(Err(failure)) => EventView::Canonicalized(Err(failure@)),
            Event::Probed(probe) => EventView::Probed(probe@),
            Event::Read(Ok(text)) => EventView::Read(Ok(text@)),
            Event::Read(Err(failure)) => EventView::Read(Err(failure@)),
            Event::Parsed(Ok(options)) => EventView::Parsed(Ok(*options)),
            Event::Parsed(Err(message)) => EventView::Parsed(Err(message@)),
            Event::Reported => EventView::Reported,
            Event::Formatted(summary) => EventView::Formatted(*summary),
        }
    }
}

/// One formatting call in progress.
#[derive(Clone, Debug, PartialEq, Eq)]
pub struct Session<C> {
    /// The text to format.
    pub buffer: String,
    /// The directory that relative paths are taken from, and in which the
    /// second search starts.
    pub working_dir: Location,
    /// From where the call was started.
    pub entry: EntryPoint,
    /// Whether the caller asked to leave child modules alone.
    pub skip_children: bool,
    /// What the host is asked to do next.
    pub pending: Pending<C>,
}

/// The mathematical value of a [`Session`].
pub struct SessionView<C> {
    pub buffer: Seq<char>,
    pub working_dir: LocationView,
    pub entry: EntryPoint,
    pub skip_children: bool,
    pub pending: PendingView<C>,
}

impl<C> View for Session<C> {
    type V = SessionView<C>;

    open spec fn view(&self) -> SessionView<C> {
        SessionView {
            buffer: self.buffer@,
            working_dir: self.working_dir@,
            entry: self.entry,
            skip_children: self.skip_children,
            pending: self.pending@,
        }
    }
}

/// What follows once the base of a call is known: the formatter runs under
/// the finished settings.
pub open spec fn spec_after_base<C>(
    base: BaseView<C>,
    entry: EntryPoint,
    skip_children: bool,
) -> PendingView<C> {
    PendingView::Format { configuration: spec_finalize(base, entry, skip_children) }
}

/// What follows a failed resolution. A call from the command line ends with
/// the status of the error's classification. An embedded call has the error
/// reported and then goes on with the defaults.
pub open spec fn spec_after_error<C>(error: ResolveErrorView, entry: EntryPoint) -> PendingView<
    C,
> {
    match entry {
        EntryPoint::Embedded => PendingView::Report { error },
        EntryPoint::CommandLine => PendingView::Finish {
            status: error.severity().spec_status_code(),
        },
    }
}

impl<C> SessionView<C> {
    /// The same call with another pending request.
    pub open spec fn with(self, pending: PendingView<C>) -> SessionView<C> {
        SessionView {
            buffer: self.buffer,
            working_dir: self.working_dir,
            entry: self.entry,
            skip_children: self.skip_children,
            pending,
        }
    }

    /// What follows once the base of the call is known.
    pub open spec fn after_base(self, base: BaseView<C>) -> PendingView<C> {
        spec_after_base(base, self.entry, self.skip_children)
    }

    /// What follows a failed resolution.
    pub open spec fn after_error(self, error: ResolveErrorView) -> PendingView<C> {
        spec_after_error(error, self.entry)
    }

    /// What follows the end of a search.
    pub open spec fn after_search(self, tier: Tier, outcome: SearchOutcomeView) -> PendingView<C> {
        match outcome {
            SearchOutcomeView::Found(file) => PendingView::Read { file },
            SearchOutcomeView::NotFound => match tier {
                Tier::Explicit => PendingView::Canonicalize {
                    tier: Tier::Fallback,
                    start: self.working_dir,
                },
                Tier::Fallback => self.after_base(BaseView::Defaults),
            },
            SearchOutcomeView::Failed { candidate, failure } => self.after_error(
                ResolveErrorView::Probe { candidate, failure },
            ),
        }
    }

    /// What follows a look at the explicit path.
    pub open spec fn after_inspection(self, location: LocationView, is_file: bool) -> PendingView<
        C,
    > {
        let root = if is_file {
            location.parent()
        } else {
            Some(location)
        };
        match root {
            Some(dir) => PendingView::Canonicalize {
                tier: Tier::Explicit,
                start: self.working_dir.join(dir),
            },
            None => PendingView::Canonicalize { tier: Tier::Fallback, start: self.working_dir },
        }
    }
}

/// The request that follows when `event` answers the pending one; none where
/// `event` is no answer to it, and none once the call is finished.
pub open spec fn spec_next<C>(session: SessionView<C>, event: EventView<C>) -> Option<
    PendingView<C>,
> {
    match (session.pending, event) {
        (PendingView::Inspect { .. }, EventView::Inspected { location, is_file }) => Some(
            session.after_inspection(location, is_file),
        ),
        (PendingView::Canonicalize { tier, .. }, EventView::Canonicalized(Ok(dir))) => Some(
            PendingView::Probe { tier, dir },
        ),
        (PendingView::Canonicalize { start, .. }, EventView::Canonicalized(Err(failure))) => Some(
            session.after_error(ResolveErrorView::Canonicalize { dir: start, failure }),
        ),
        (PendingView::Probe { tier, dir }, EventView::Probed(probe)) => Some(
            match spec_advance(dir, probe) {
                SearchStepView::Continue(up) => PendingView::Probe { tier, dir: up },
                SearchStepView::Done(outcome) => session.after_search(tier, outcome),
            },
        ),
        (PendingView::Read { file }, EventView::Read(Ok(text))) => Some(
            PendingView::Parse { file, text },
        ),
        (PendingView::Read { file }, EventView::Read(Err(failure))) => Some(
            session.after_error(ResolveErrorView::Read { file, failure }),
        ),
        (PendingView::Parse { file, .. }, EventView::Parsed(Ok(options))) => Some(
            session.after_base(BaseView::Parsed { file, options }),
        ),
        (PendingView::Parse { file, .. }, EventView::Parsed(Err(message))) => Some(
            session.after_error(ResolveErrorView::Malformed { file, message }),
        ),
        (PendingView::Report { .. }, EventView::Reported) => Some(
            session.after_base(BaseView::Defaults),
        ),
        (PendingView::Format { .. }, EventView::Formatted(summary)) => Some(
            PendingView::Finish { status: spec_process_summary(summary) },
        ),
        _ => None,
    }
}

/// The session that follows when `event` answers the pending request.
pub open spec fn spec_step<C>(session: SessionView<C>, event: EventView<C>) -> Option<
    SessionView<C>,
> {
    match spec_next(session, event) {
        Some(pending) => Some(session.with(pending)),
        None => None,
    }
}

/// The session at the start of a call. With an explicit path the path is
/// looked at first; without one the search starts in the working directory.
pub open spec fn spec_execute<C>(
    buffer: Seq<char>,
    cfg_path: Option<Seq<char>>,
    working_dir: LocationView,
    entry: EntryPoint,
    skip_children: bool,
) -> SessionView<C> {
    SessionView {
        buffer,
        working_dir,
        entry,
        skip_children,
        pending: match cfg_path {
            Some(path) => PendingView::Inspect { path },
            None => PendingView::Canonicalize { tier: Tier::Fallback, start: working_dir },
        },
    }
}

/// Starts a formatting call on `buffer`. `cfg_path`, where given, is the file
/// or directory from which the configuration is searched first;
/// `working_dir` is where relative paths are taken from and where the search
/// falls back to. The call has done nothing yet: the session that comes back
/// holds the first request to the host.
pub fn execute<C>(
    buffer: String,
    cfg_path: Option<String>,
    working_dir: Location,
    entry: EntryPoint,
    skip_children: bool,
) -> (session: Session<C>)
    ensures
        session@ == spec_execute::<C>(
            buffer@,
            cfg_path.deep_view(),
            working_dir@,
            entry,
            skip_children,
        ),
{
    let pending = match cfg_path {
        Some(path) => Pending::Inspect { path },
        None => Pending::Canonicalize { tier: Tier::Fallback, start: working_dir.duplicate() },
    };
    Session { buffer, working_dir, entry, skip_children, pending }
}

/// What follows once the base of the call is known.
fn after_base<C>(base: Base<C>, entry: EntryPoint, skip_children: bool) -> (pending: Pending<C>)
    ensures
        pending@ == spec_after_base(base@, entry, skip_children),
{
    Pending::Format { configuration: finalize(base, entry, skip_children) }
}

/// What follows a failed resolution.
fn after_error<C>(error: ResolveError, entry: EntryPoint) -> (pending: Pending<C>)
    ensures
        pending@ == spec_after_error::<C>(error@, entry),
{
    match entry {
        EntryPoint::Embedded => Pending::Report { error },
        EntryPoint::CommandLine => Pending::Finish { status: error.severity().status_code() },
    }
}

impl<C> Session<C> {
    /// What the host is asked to do next.
    pub fn pending(&self) -> (pending: &Pending<C>)
        ensures
            *pending == self.pending,
    {
        &self.pending
    }

    /// The status of the call once it is finished, none before.
    pub fn status(&self) -> (status: Option<i32>)
        ensures
            status == (match self@.pending {
                PendingView::Finish { status } => Some(status),
                _ => None,
            }),
    {
        match &self.pending {
            Pending::Finish { status } => Some(*status),
            _ => None,
        }
    }

    /// Takes the host's answer to the pending request and decides what comes
    /// next. Returns none, and the call is lost, where `event` does not
    /// answer the pending request or the call is finished already.
    pub fn step(self, event: Event<C>) -> (next: Option<Session<C>>)
        ensures
            next.is_some() == spec_step(self@, event@).is_some(),
            next.is_some() ==> next.unwrap()@ == spec_step(self@, event@).unwrap(),
    {
        let ghost before = self@;
        let Session { buffer, working_dir, entry, skip_children, pending } = self;
        let next: Option<Pending<C>> = match pending {
            Pending::Inspect { path } => match event {
                Event::Inspected { location, is_file } => {
                    let root = if is_file {
                        location.parent()
                    } else {
                        Some(location)
                    };
                    Some(
                        match root {
                            Some(dir) => Pending::Canonicalize {
                                tier: Tier::Explicit,
                                start: working_dir.join(dir),
                            },
                            None => Pending::Canonicalize {
                                tier: Tier::Fallback,
                                start: working_dir.duplicate(),
                            },
                        },
                    )
                },
                _ => None,
            },
            Pending::Canonicalize { tier, start } => match event {
                Event::Canonicalized(Ok(dir)) => Some(
                    Pending::Probe { tier, search: PathSearch::begin(dir) },
                ),
                Event::Canonicalized(Err(failure)) => Some(
                    after_error(ResolveError::Canonicalize { dir: start, failure }, entry),
                ),
                _ => None,
            },
            Pending::Probe { tier, search } => match event {
                Event::Probed(probe) => Some(
                    match search.advance(probe) {
                        SearchStep::Continue(up) => Pending::Probe { tier, search: up },
                        SearchStep::Done(SearchOutcome::Found(file)) => Pending::Read { file },
                        SearchStep::Done(SearchOutcome::NotFound) => match tier {
                            Tier::Explicit => Pending::Canonicalize {
                                tier: Tier::Fallback,
                                start: working_dir.duplicate(),
                            },
                            Tier::Fallback => after_base(Base::Defaults, entry, skip_children),
                        },
                        SearchStep::Done(SearchOutcome::Failed { candidate, failure }) => {
                            after_error(ResolveError::Probe { candidate, failure }, entry)
                        },
                    },
                ),
                _ => None,
            },
            Pending::Read { file } => match event {
                Event::Read(Ok(text)) => Some(Pending::Parse { file, text }),
                Event::Read(Err(failure)) => Some(
                    after_error(ResolveError::Read { file, failure }, entry),
                ),
                _ => None,
            },
            Pending::Parse { file, text } => match event {
                Event::Parsed(Ok(options)) => Some(
                    after_base(Base::Parsed { file, options }, entry, skip_children),
                ),
                Event::Parsed(Err(message)) => Some(
                    after_error(ResolveError::Malformed { file, message }, entry),
                ),
                _ => None,
            },
            Pending::Report { error } => match event {
                Event::Reported => Some(after_base(Base::Defaults, entry, skip_children)),
                _ => None,
            },
            Pending::Format { configuration } => match event {
                Event::Formatted(summary) => Some(
                    Pending::Finish { status: process_summary(summary) },
                ),
                _ => None,
            },
            Pending::Finish { status } => None,
        };
        match next {
            Some(pending) => Some(Session { buffer, working_dir, entry, skip_children, pending }),
            None => None,
        }
    }
}

} // verus!
