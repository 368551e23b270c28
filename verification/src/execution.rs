//! What the steps of a call add up to.
//!
//! [`run`] follows a session through a [`World`] that answers each request
//! faithfully, and [`requests`] lists what the session asks on the way.
//! [`lemma_run_is_execution`] shows that the status a call ends with is the
//! one that [`spec_status`] states directly: resolve the configuration, force
//! the operational settings, run the formatter, map what it reports. The
//! other laws say in which order a call asks for things, and that it ends.

use vstd::prelude::*;
use crate::configuration::{spec_finalize, BaseView, EntryPoint};
use crate::failure::IoFailureView;
use crate::location::LocationView;
use crate::outcome::spec_process_summary;
use crate::path_search::{
    candidate, probe_at, search, spec_advance, SearchOutcomeView, SearchStepView,
};
use crate::resolver::{
    explicit_root, lemma_failed_probe_fails_resolution, lemma_no_file_gives_defaults, resolve,
    resolve_at, ResolveErrorView, Tier, World,
};
use crate::session::{spec_execute, spec_next, EventView, PendingView, SessionView};

verus! {

/// How far a request stands from the end of the call: each kind of request
/// has its place in the order in which a call can meet them.
pub open spec fn rank<C>(pending: PendingView<C>) -> nat {
    match pending {
        PendingView::Inspect { .. } => 9,
        PendingView::Canonicalize { tier: Tier::Explicit, .. } => 8,
        PendingView::Probe { tier: Tier::Explicit, .. } => 7,
        PendingView::Canonicalize { tier: Tier::Fallback, .. } => 6,
        PendingView::Probe { tier: Tier::Fallback, .. } => 5,
        PendingView::Read { .. } => 4,
        PendingView::Parse { .. } => 3,
        PendingView::Report { .. } => 2,
        PendingView::Format { .. } => 1,
        PendingView::Finish { .. } => 0,
    }
}

/// The levels that a search in progress has left above it; 0 for every other
/// request.
pub open spec fn levels_left<C>(pending: PendingView<C>) -> nat {
    match pending {
        PendingView::Probe { dir, .. } => dir.depth(),
        _ => 0,
    }
}

/// Every step brings a call nearer to its end: the request that follows
/// stands later in the order of [`rank`], or it is a probe one level further
/// up in the same search. So a call never returns to a search that it has
/// left, and it ends after a number of steps that the depth of the
/// directories bounds.
pub proof fn lemma_step_descends<C>(session: SessionView<C>, event: EventView<C>)
    requires
        spec_next(session, event) is Some,
    ensures
        rank(spec_next(session, event).unwrap()) < rank(session.pending) || (rank(
            spec_next(session, event).unwrap(),
        ) == rank(session.pending) && levels_left(spec_next(session, event).unwrap())
            < levels_left(session.pending)),
{
}

/// No failure of the resolution goes unseen: it either ends the call with a
/// status that is not 0, or it is reported, as it is, before the call goes
/// on.
pub proof fn lemma_error_is_never_swallowed<C>(session: SessionView<C>, error: ResolveErrorView)
    ensures
        match session.after_error(error) {
            PendingView::Report { error: reported } => reported == error,
            PendingView::Finish { status } => status == error.severity().spec_status_code() && (
            status == 1 || status == 2),
            _ => false,
        },
{
}

/// The answer of a faithful host in `world` to the pending request of
/// `session`.
pub open spec fn answer<C>(world: World<C>, session: SessionView<C>) -> EventView<C> {
    match session.pending {
        PendingView::Inspect { path } => EventView::Inspected {
            location: (world.inspect)(path).0,
            is_file: (world.inspect)(path).1,
        },
        PendingView::Canonicalize { start, .. } => EventView::Canonicalized(
            (world.canonicalize)(start),
        ),
        PendingView::Probe { dir, .. } => EventView::Probed((world.probe)(candidate(dir))),
        PendingView::Read { file } => EventView::Read((world.read)(file)),
        PendingView::Parse { text, .. } => EventView::Parsed((world.parse)(text)),
        PendingView::Report { .. } => EventView::Reported,
        PendingView::Format { configuration } => EventView::Formatted(
            (world.format)(session.buffer, configuration),
        ),
        PendingView::Finish { .. } => EventView::Reported,
    }
}

/// The status with which `session` ends when a faithful host in `world`
/// answers each of its requests in turn.
pub open spec fn run<C>(world: World<C>, session: SessionView<C>) -> i32
    decreases rank(session.pending), levels_left(session.pending),
{
    match session.pending {
        PendingView::Finish { status } => status,
        _ => match spec_next(session, answer(world, session)) {
            Some(pending) => run(world, session.with(pending)),
            None => 0,
        },
    }
}

/// The requests that `session` makes of a faithful host in `world`, in
/// order, from the pending one to the last.
pub open spec fn requests<C>(world: World<C>, session: SessionView<C>) -> Seq<PendingView<C>>
    decreases rank(session.pending), levels_left(session.pending),
{
    match session.pending {
        PendingView::Finish { .. } => seq![session.pending],
        _ => match spec_next(session, answer(world, session)) {
            Some(pending) => seq![session.pending] + requests(world, session.with(pending)),
            None => seq![session.pending],
        },
    }
}

/// The status of a call whose formatter runs from `base`.
pub open spec fn status_from_base<C>(
    world: World<C>,
    buffer: Seq<char>,
    base: BaseView<C>,
    entry: EntryPoint,
    skip_children: bool,
) -> i32 {
    spec_process_summary((world.format)(buffer, spec_finalize(base, entry, skip_children)))
}

/// The status of a whole call, stated directly. The configuration is
/// resolved; the formatter runs from what was resolved, with the operational
/// settings forced; what it reports gives the status. Where the resolution
/// fails, a call from the command line ends with the status of the error,
/// and an embedded call runs the formatter from its defaults.
pub open spec fn spec_status<C>(
    world: World<C>,
    buffer: Seq<char>,
    cfg_path: Option<Seq<char>>,
    working_dir: LocationView,
    entry: EntryPoint,
    skip_children: bool,
) -> i32 {
    match resolve(world, cfg_path, working_dir) {
        Ok(base) => status_from_base(world, buffer, base, entry, skip_children),
        Err(error) => match entry {
            EntryPoint::CommandLine => error.severity().spec_status_code(),
            EntryPoint::Embedded => status_from_base(
                world,
                buffer,
                BaseView::Defaults,
                entry,
                skip_children,
            ),
        },
    }
}

/// The status of a session whose resolution has ended as `resolved` says.
pub open spec fn status_after<C>(
    world: World<C>,
    session: SessionView<C>,
    resolved: Result<BaseView<C>, ResolveErrorView>,
) -> i32 {
    match resolved {
        Ok(base) => status_from_base(
            world,
            session.buffer,
            base,
            session.entry,
            session.skip_children,
        ),
        Err(error) => match session.entry {
            EntryPoint::CommandLine => error.severity().spec_status_code(),
            EntryPoint::Embedded => status_from_base(
                world,
                session.buffer,
                BaseView::Defaults,
                session.entry,
                session.skip_children,
            ),
        },
    }
}

/// A session that is about to run the formatter ends with the status of what
/// the formatter reports.
proof fn lemma_run_from_base<C>(world: World<C>, session: SessionView<C>, base: BaseView<C>)
    requires
        session.pending == session.after_base(base),
    ensures
        run(world, session) == status_after(world, session, Ok(base)),
{
    let summary = (world.format)(
        session.buffer,
        spec_finalize(base, session.entry, session.skip_children),
    );
    let last = session.with(PendingView::Finish { status: spec_process_summary(summary) });
    assert(spec_next(session, answer(world, session)) == Some(last.pending));
    assert(run(world, last) == spec_process_summary(summary));
}

/// A session whose resolution has failed ends as the entry point's policy
/// says.
proof fn lemma_run_from_error<C>(
    world: World<C>,
    session: SessionView<C>,
    error: ResolveErrorView,
)
    requires
        session.pending == session.after_error(error),
    ensures
        run(world, session) == status_after(world, session, Err(error)),
{
    match session.entry {
        EntryPoint::CommandLine => {},
        EntryPoint::Embedded => {
            let next = session.with(session.after_base(BaseView::Defaults));
            assert(spec_next(session, answer(world, session)) == Some(next.pending));
            lemma_run_from_base(world, next, BaseView::Defaults);
        },
    }
}

/// What one search with what follows it makes of a resolution in the tier
/// `tier`: an error ends it, a file found settles it, and nothing found
/// settles it on the defaults in the second tier only.
pub open spec fn settled<C>(
    tier: Tier,
    found: Result<Option<(LocationView, C)>, ResolveErrorView>,
) -> Option<Result<BaseView<C>, ResolveErrorView>> {
    match found {
        Err(error) => Some(Err(error)),
        Ok(Some((file, options))) => Some(Ok(BaseView::Parsed { file, options })),
        Ok(None) => match tier {
            Tier::Explicit => None,
            Tier::Fallback => Some(Ok(BaseView::Defaults)),
        },
    }
}

/// What reading and parsing the file that a search found gives.
pub open spec fn load<C>(world: World<C>, file: LocationView) -> Result<
    BaseView<C>,
    ResolveErrorView,
> {
    match (world.read)(file) {
        Err(failure) => Err(ResolveErrorView::Read { file, failure }),
        Ok(text) => match (world.parse)(text) {
            Err(message) => Err(ResolveErrorView::Malformed { file, message }),
            Ok(options) => Ok(BaseView::Parsed { file, options }),
        },
    }
}

/// A session that is about to read the file it found ends with the status of
/// what reading and parsing give.
proof fn lemma_run_from_read<C>(world: World<C>, session: SessionView<C>, file: LocationView)
    requires
        session.pending == (PendingView::<C>::Read { file }),
    ensures
        run(world, session) == status_after(world, session, load(world, file)),
{
    match (world.read)(file) {
        Err(failure) => {
            let error = ResolveErrorView::Read { file, failure };
            let next = session.with(session.after_error(error));
            assert(spec_next(session, answer(world, session)) == Some(next.pending));
            lemma_run_from_error(world, next, error);
        },
        Ok(text) => {
            let parsing = session.with(PendingView::Parse { file, text });
            assert(spec_next(session, answer(world, session)) == Some(parsing.pending));
            assert(run(world, session) == run(world, parsing));
            match (world.parse)(text) {
                Err(message) => {
                    let error = ResolveErrorView::Malformed { file, message };
                    let next = parsing.with(parsing.after_error(error));
                    assert(spec_next(parsing, answer(world, parsing)) == Some(next.pending));
                    lemma_run_from_error(world, next, error);
                },
                Ok(options) => {
                    let base = BaseView::Parsed { file, options };
                    let next = parsing.with(parsing.after_base(base));
                    assert(spec_next(parsing, answer(world, parsing)) == Some(next.pending));
                    lemma_run_from_base(world, next, base);
                },
            }
        },
    }
}

/// A session in the middle of a search ends as the session that the end of
/// that search leads to.
proof fn lemma_run_through_search<C>(
    world: World<C>,
    session: SessionView<C>,
    tier: Tier,
    dir: LocationView,
)
    requires
        session.pending == (PendingView::<C>::Probe { tier, dir }),
    ensures
        run(world, session) == run(
            world,
            session.with(session.after_search(tier, search(world.probe, dir))),
        ),
    decreases dir.segments.len(),
{
    let probe = (world.probe)(candidate(dir));
    match spec_advance(dir, probe) {
        SearchStepView::Continue(up) => {
            let next = session.with(PendingView::Probe { tier, dir: up });
            assert(spec_next(session, answer(world, session)) == Some(next.pending));
            lemma_run_through_search(world, next, tier, up);
            assert(next.with(next.after_search(tier, search(world.probe, up))) == session.with(
                session.after_search(tier, search(world.probe, dir)),
            ));
        },
        SearchStepView::Done(outcome) => {
            assert(search(world.probe, dir) == outcome);
            assert(spec_next(session, answer(world, session)) == Some(
                session.after_search(tier, outcome),
            ));
        },
    }
}

/// A session that is about to start a search ends with the status of what
/// that search settles; where it settles nothing, the session goes on as
/// the one that starts the second search.
proof fn lemma_run_through_tier<C>(
    world: World<C>,
    session: SessionView<C>,
    tier: Tier,
    start: LocationView,
)
    requires
        session.pending == (PendingView::<C>::Canonicalize { tier, start }),
    ensures
        match settled(tier, resolve_at(world, start)) {
            Some(resolved) => run(world, session) == status_after(world, session, resolved),
            None => run(world, session) == run(
                world,
                session.with(
                    PendingView::Canonicalize { tier: Tier::Fallback, start: session.working_dir },
                ),
            ),
        },
{
    match (world.canonicalize)(start) {
        Err(failure) => {
            let error = ResolveErrorView::Canonicalize { dir: start, failure };
            let next = session.with(session.after_error(error));
            assert(spec_next(session, answer(world, session)) == Some(next.pending));
            lemma_run_from_error(world, next, error);
        },
        Ok(dir) => {
            let probing = session.with(PendingView::Probe { tier, dir });
            assert(spec_next(session, answer(world, session)) == Some(probing.pending));
            assert(run(world, session) == run(world, probing));
            lemma_run_through_search(world, probing, tier, dir);
            let outcome = search(world.probe, dir);
            let next = probing.with(probing.after_search(tier, outcome));
            match outcome {
                SearchOutcomeView::Found(file) => {
                    lemma_run_from_read(world, next, file);
                },
                SearchOutcomeView::NotFound => {
                    match tier {
                        Tier::Explicit => {},
                        Tier::Fallback => {
                            lemma_run_from_base(world, next, BaseView::Defaults);
                        },
                    }
                },
                SearchOutcomeView::Failed { candidate, failure } => {
                    lemma_run_from_error(
                        world,
                        next,
                        ResolveErrorView::Probe { candidate, failure },
                    );
                },
            }
        },
    }
}

/// The steps of a call add up to the call. A session started by
/// [`execute`] and answered faithfully ends with the status that
/// [`spec_status`] states for the same call.
pub proof fn lemma_run_is_execution<C>(
    world: World<C>,
    buffer: Seq<char>,
    cfg_path: Option<Seq<char>>,
    working_dir: LocationView,
    entry: EntryPoint,
    skip_children: bool,
)
    ensures
        run(world, spec_execute(buffer, cfg_path, working_dir, entry, skip_children))
            == spec_status(world, buffer, cfg_path, working_dir, entry, skip_children),
{
    let session = spec_execute::<C>(buffer, cfg_path, working_dir, entry, skip_children);
    let fallback = session.with(
        PendingView::Canonicalize { tier: Tier::Fallback, start: working_dir },
    );
    lemma_run_through_tier(world, fallback, Tier::Fallback, working_dir);
    match cfg_path {
        None => {
            assert(session == fallback);
        },
        Some(path) => {
            let first = session.with(
                session.after_inspection((world.inspect)(path).0, (world.inspect)(path).1),
            );
            assert(spec_next(session, answer(world, session)) == Some(first.pending));
            assert(run(world, session) == run(world, first));
            match explicit_root(world, path) {
                None => {
                    assert(first == fallback);
                },
                Some(root) => {
                    lemma_run_through_tier(world, first, Tier::Explicit, working_dir.join(root));
                    assert(first.with(
                        PendingView::Canonicalize { tier: Tier::Fallback, start: working_dir },
                    ) == fallback);
                },
            }
        },
    }
}

/// A faithful host is never turned away: its answer to a request that is
/// not the last one is taken.
pub proof fn lemma_faithful_answer_is_taken<C>(world: World<C>, session: SessionView<C>)
    requires
        !(session.pending is Finish),
    ensures
        spec_next(session, answer(world, session)) is Some,
{
}

/// Every call ends by handing out its status: the last request of a session
/// is the one to flush the output and return, and the status it names is
/// the one the session runs to. No request follows it.
pub proof fn lemma_requests_end_with_finish<C>(world: World<C>, session: SessionView<C>)
    ensures
        requests(world, session).len() >= 1,
        requests(world, session)[0] == session.pending,
        requests(world, session).last() == (PendingView::<C>::Finish {
            status: run(world, session),
        }),
        forall|i: int|
            0 <= i < requests(world, session).len() - 1 ==> !(#[trigger] requests(
                world,
                session,
            )[i] is Finish),
    decreases rank(session.pending), levels_left(session.pending),
{
    match session.pending {
        PendingView::Finish { .. } => {},
        _ => {
            let pending = spec_next(session, answer(world, session)).unwrap();
            let next = session.with(pending);
            lemma_step_descends(session, answer(world, session));
            lemma_requests_end_with_finish(world, next);
            let rest = requests(world, next);
            assert(requests(world, session) == seq![session.pending] + rest);
            assert forall|i: int| 0 <= i < requests(world, session).len() - 1 implies !(
            #[trigger] requests(world, session)[i] is Finish) by {
                if i > 0 {
                    assert(requests(world, session)[i] == rest[i - 1]);
                }
            }
        },
    }
}

/// The requests of a session come in the order of [`rank`]: none stands
/// earlier in that order than the request the session started from.
pub proof fn lemma_requests_descend<C>(world: World<C>, session: SessionView<C>)
    ensures
        forall|i: int|
            0 <= i < requests(world, session).len() ==> rank(
                #[trigger] requests(world, session)[i],
            ) <= rank(session.pending),
    decreases rank(session.pending), levels_left(session.pending),
{
    match session.pending {
        PendingView::Finish { .. } => {},
        _ => {
            let pending = spec_next(session, answer(world, session)).unwrap();
            let next = session.with(pending);
            lemma_step_descends(session, answer(world, session));
            lemma_requests_descend(world, next);
            let rest = requests(world, next);
            assert(requests(world, session) == seq![session.pending] + rest);
            assert forall|i: int| 0 <= i < requests(world, session).len() implies rank(
                #[trigger] requests(world, session)[i],
            ) <= rank(session.pending) by {
                if i > 0 {
                    assert(requests(world, session)[i] == rest[i - 1]);
                }
            }
        },
    }
}

/// True for the requests of the search from the working directory.
pub open spec fn in_fallback<C>(pending: PendingView<C>) -> bool {
    pending matches PendingView::Canonicalize { tier: Tier::Fallback, .. }
        || pending matches PendingView::Probe { tier: Tier::Fallback, .. }
}

/// A first search that finds a file makes no request of the second search.
proof fn lemma_find_skips_fallback<C>(world: World<C>, session: SessionView<C>, dir: LocationView)
    requires
        session.pending == (PendingView::<C>::Probe { tier: Tier::Explicit, dir }),
        search(world.probe, dir) is Found,
    ensures
        forall|i: int|
            0 <= i < requests(world, session).len() ==> !in_fallback(
                #[trigger] requests(world, session)[i],
            ),
    decreases dir.segments.len(),
{
    let pending = spec_next(session, answer(world, session)).unwrap();
    let next = session.with(pending);
    let rest = requests(world, next);
    assert(requests(world, session) == seq![session.pending] + rest);
    match spec_advance(dir, (world.probe)(candidate(dir))) {
        SearchStepView::Continue(up) => {
            lemma_find_skips_fallback(world, next, up);
        },
        SearchStepView::Done(outcome) => {
            assert(pending is Read);
            lemma_requests_descend(world, next);
        },
    }
    assert forall|i: int| 0 <= i < requests(world, session).len() implies !in_fallback(
        #[trigger] requests(world, session)[i],
    ) by {
        if i > 0 {
            assert(requests(world, session)[i] == rest[i - 1]);
        }
    }
}

/// The explicit place is searched first, and a find there ends the
/// searching. Where the explicit path stands for the root `root`, a session
/// asks for that root, taken from the working directory, to be made
/// canonical before it asks for any other directory; and where the search
/// from there finds a file, the session never asks anything of the search
/// from the working directory.
pub proof fn lemma_explicit_is_searched_first<C>(
    world: World<C>,
    buffer: Seq<char>,
    path: Seq<char>,
    working_dir: LocationView,
    entry: EntryPoint,
    skip_children: bool,
    root: LocationView,
)
    requires
        explicit_root(world, path) == Some(root),
    ensures
        ({
            let asked = requests(
                world,
                spec_execute::<C>(buffer, Some(path), working_dir, entry, skip_children),
            );
            &&& asked.len() >= 2
            &&& asked[0] == (PendingView::<C>::Inspect { path })
            &&& asked[1] == (PendingView::<C>::Canonicalize {
                tier: Tier::Explicit,
                start: working_dir.join(root),
            })
            &&& ((world.canonicalize)(working_dir.join(root)) matches Ok(dir) && search(
                world.probe,
                dir,
            ) is Found) ==> forall|i: int| 0 <= i < asked.len() ==> !in_fallback(#[trigger] asked[i])
        }),
{
    let session = spec_execute::<C>(buffer, Some(path), working_dir, entry, skip_children);
    let first = session.with(
        PendingView::Canonicalize { tier: Tier::Explicit, start: working_dir.join(root) },
    );
    assert(spec_next(session, answer(world, session)) == Some(first.pending));
    let asked = requests(world, session);
    let from_first = requests(world, first);
    assert(asked == seq![session.pending] + from_first);
    let second = session.with(spec_next(first, answer(world, first)).unwrap());
    let from_second = requests(world, second);
    assert(from_first == seq![first.pending] + from_second);
    assert(asked[1] == from_first[0]);
    match (world.canonicalize)(working_dir.join(root)) {
        Ok(dir) => {
            if search(world.probe, dir) is Found {
                lemma_find_skips_fallback(world, second, dir);
                assert forall|i: int| 0 <= i < asked.len() implies !in_fallback(
                    #[trigger] asked[i],
                ) by {
                    if i >= 2 {
                        assert(asked[i] == from_first[i - 1]);
                        assert(from_first[i - 1] == from_second[i - 2]);
                    } else if i == 1 {
                        assert(asked[1] == first.pending);
                    }
                }
            }
        },
        Err(_) => {},
    }
}

/// A call without a configuration file runs on the defaults. Where no
/// explicit path is given and every level from the working directory up to
/// the anchor is passed by, the session ends with the status of what the
/// formatter reports under the defaults: 0 where it reports no error.
pub proof fn lemma_call_without_file_runs_on_defaults<C>(
    world: World<C>,
    buffer: Seq<char>,
    working_dir: LocationView,
    dir: LocationView,
    entry: EntryPoint,
    skip_children: bool,
)
    requires
        (world.canonicalize)(working_dir) == Ok::<LocationView, IoFailureView>(dir),
        forall|j: nat|
            j <= dir.depth() ==> (#[trigger] probe_at(world.probe, dir, j)).is_passed_by(),
    ensures
        run(world, spec_execute(buffer, None, working_dir, entry, skip_children))
            == status_from_base(world, buffer, BaseView::Defaults, entry, skip_children),
        (world.format)(
            buffer,
            spec_finalize(BaseView::Defaults, entry, skip_children),
        ).spec_has_no_errors() ==> run(
            world,
            spec_execute(buffer, None, working_dir, entry, skip_children),
        ) == 0,
{
    lemma_no_file_gives_defaults(world, working_dir, dir);
    lemma_run_is_execution(world, buffer, None, working_dir, entry, skip_children);
}

/// A failed probe ends a call from the command line with the status of an
/// operational error.
pub proof fn lemma_failed_probe_ends_command_line_call<C>(
    world: World<C>,
    buffer: Seq<char>,
    working_dir: LocationView,
    dir: LocationView,
    levels: nat,
    skip_children: bool,
)
    requires
        (world.canonicalize)(working_dir) == Ok::<LocationView, IoFailureView>(dir),
        levels <= dir.depth(),
        probe_at(world.probe, dir, levels).is_failure(),
        forall|j: nat| j < levels ==> (#[trigger] probe_at(world.probe, dir, j)).is_passed_by(),
    ensures
        run(
            world,
            spec_execute(buffer, None, working_dir, EntryPoint::CommandLine, skip_children),
        ) == 1,
{
    lemma_failed_probe_fails_resolution(world, working_dir, dir, levels);
    lemma_run_is_execution(
        world,
        buffer,
        None,
        working_dir,
        EntryPoint::CommandLine,
        skip_children,
    );
}

} // verus!
