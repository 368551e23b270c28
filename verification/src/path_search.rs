//! The upward search for the configuration file.
//!
//! The search starts in a directory and asks, level by level towards the
//! anchor, whether the configuration file's name stands for a regular file
//! there. Asking is the host's work: [`PathSearch`] says which entry to probe
//! next and takes the answer. The first regular file ends the search, and so
//! does the first failure that is more than "nothing there".

use vstd::prelude::*;
use crate::failure::{IoFailure, IoFailureView};
use crate::location::{
    lemma_ancestor_of_parent, lemma_ancestor_zero, Location, LocationView,
};

verus! {

/// The name of the configuration file.
pub const CONFIG_FILE_NAME: &'static str = "rustfmt.toml";

/// What the host found when it looked at one entry.
#[derive(Clone, Debug, PartialEq, Eq)]
pub enum Probe {
    /// Something exists there; `is_file` says whether it is a regular file.
    Present { is_file: bool },
    /// Looking failed.
    Failed(IoFailure),
}

/// The mathematical value of a [`Probe`].
pub enum ProbeView {
    Present { is_file: bool },
    Failed(IoFailureView),
}

impl View for Probe {
    type V = ProbeView;

    open spec fn view(&self) -> ProbeView {
        match self {
            Probe::Present { is_file } => ProbeView::Present { is_file: *is_file },
            Probe::Failed(failure) => ProbeView::Failed(failure@),
        }
    }
}

impl ProbeView {
    /// True when a regular file is there.
    pub open spec fn is_regular_file(self) -> bool {
        self matches ProbeView::Present { is_file } && is_file
    }

    /// True when looking failed with more than "nothing there".
    pub open spec fn is_failure(self) -> bool {
        self matches ProbeView::Failed(failure) && !failure.is_not_found()
    }

    /// True when the search passes this level by: nothing is there, or what
    /// is there is no regular file.
    pub open spec fn is_passed_by(self) -> bool {
        !self.is_regular_file() && !self.is_failure()
    }
}

/// How a search ended.
#[derive(Clone, Debug, PartialEq, Eq)]
pub enum SearchOutcome {
    /// The configuration file, in the nearest directory that holds one.
    Found(Location),
    /// No directory up to the anchor holds one.
    NotFound,
    /// Probing `candidate` failed, and the search was given up there.
    Failed { candidate: Location, failure: IoFailure },
}

/// The mathematical value of a [`SearchOutcome`].
pub enum SearchOutcomeView {
    Found(LocationView),
    NotFound,
    Failed { candidate: LocationView, failure: IoFailureView },
}

impl View for SearchOutcome {
    type V = SearchOutcomeView;

    open spec fn view(&self) -> SearchOutcomeView {
        match self {
            SearchOutcome::Found(file) => SearchOutcomeView::Found(file@),
            SearchOutcome::NotFound => SearchOutcomeView::NotFound,
            SearchOutcome::Failed { candidate, failure } => SearchOutcomeView::Failed {
                candidate: candidate@,
                failure: failure@,
            },
        }
    }
}

/// A search that stands in one directory and waits for the probe of the
/// configuration file's name there.
#[derive(Clone, Debug, PartialEq, Eq)]
pub struct PathSearch {
    /// The directory whose entry is probed next.
    pub dir: Location,
}

impl View for PathSearch {
    type V = LocationView;

    open spec fn view(&self) -> LocationView {
        self.dir@
    }
}

/// What one answer makes of a search.
#[derive(Clone, Debug, PartialEq, Eq)]
pub enum SearchStep {
    /// The search moved one level up and waits for the next probe.
    Continue(PathSearch),
    /// The search is over.
    Done(SearchOutcome),
}

/// The mathematical value of a [`SearchStep`].
pub enum SearchStepView {
    Continue(LocationView),
    Done(SearchOutcomeView),
}

impl View for SearchStep {
    type V = SearchStepView;

    open spec fn view(&self) -> SearchStepView {
        match self {
            SearchStep::Continue(search) => SearchStepView::Continue(search@),
            SearchStep::Done(outcome) => SearchStepView::Done(outcome@),
        }
    }
}

/// The entry that a search standing in `dir` probes.
pub open spec fn candidate(dir: LocationView) -> LocationView {
    dir.child(CONFIG_FILE_NAME@)
}

/// What the answer `probe` makes of a search standing in `dir`.
pub open spec fn spec_advance(dir: LocationView, probe: ProbeView) -> SearchStepView {
    if probe.is_regular_file() {
        SearchStepView::Done(SearchOutcomeView::Found(candidate(dir)))
    } else if probe.is_failure() {
        SearchStepView::Done(
            SearchOutcomeView::Failed { candidate: candidate(dir), failure: probe->Failed_0 },
        )
    } else if dir.segments.len() == 0 {
        SearchStepView::Done(SearchOutcomeView::NotFound)
    } else {
        SearchStepView::Continue(dir.parent().unwrap())
    }
}

/// How the search from `dir` ends in a file tree that answers each probe as
/// `tree` says.
pub open spec fn search(tree: spec_fn(LocationView) -> ProbeView, dir: LocationView)
    -> SearchOutcomeView
    decreases dir.segments.len(),
{
    match spec_advance(dir, tree(candidate(dir))) {
        SearchStepView::Continue(up) => search(tree, up),
        SearchStepView::Done(outcome) => outcome,
    }
}

/// The entries that the search from `dir` probes in such a tree, in order.
pub open spec fn probes(tree: spec_fn(LocationView) -> ProbeView, dir: LocationView) -> Seq<
    LocationView,
>
    decreases dir.segments.len(),
{
    match spec_advance(dir, tree(candidate(dir))) {
        SearchStepView::Continue(up) => seq![candidate(dir)] + probes(tree, up),
        SearchStepView::Done(_) => seq![candidate(dir)],
    }
}

/// What probing the configuration file's name `levels` levels above `dir`
/// gives.
pub open spec fn probe_at(
    tree: spec_fn(LocationView) -> ProbeView,
    dir: LocationView,
    levels: nat,
) -> ProbeView {
    tree(candidate(dir.ancestor(levels)))
}

/// The first `count` entries on the way up from `dir`.
pub open spec fn candidates_up(dir: LocationView, count: nat) -> Seq<LocationView> {
    Seq::new(count, |j: int| candidate(dir.ancestor(j as nat)))
}

impl PathSearch {
    /// The search that starts in `dir`.
    pub fn begin(dir: Location) -> (start: PathSearch)
        ensures
            start@ == dir@,
    {
        PathSearch { dir }
    }

    /// The entry to probe next.
    pub fn candidate(&self) -> (entry: Location)
        ensures
            entry@ == candidate(self@),
    {
        self.dir.duplicate().child(CONFIG_FILE_NAME.to_owned())
    }

    /// Takes the answer to the probe of [`PathSearch::candidate`]. A regular
    /// file ends the search there; a failure other than "nothing there" ends
    /// it with that failure; anything else sends the search one level up, or
    /// ends it without a find where no level is left.
    pub fn advance(self, probe: Probe) -> (step: SearchStep)
        ensures
            step@ == spec_advance(self@, probe@),
    {
        match probe {
            Probe::Present { is_file: true } => SearchStep::Done(
                SearchOutcome::Found(self.dir.child(CONFIG_FILE_NAME.to_owned())),
            ),
            Probe::Present { is_file: false } => self.go_up(),
            Probe::Failed(failure) => {
                if failure.is_not_found() {
                    self.go_up()
                } else {
                    SearchStep::Done(
                        SearchOutcome::Failed {
                            candidate: self.dir.child(CONFIG_FILE_NAME.to_owned()),
                            failure,
                        },
                    )
                }
            },
        }
    }

    /// One level up, or the end of the search where no level is left.
    fn go_up(self) -> (step: SearchStep)
        ensures
            step@ == (if self@.segments.len() == 0 {
                SearchStepView::Done(SearchOutcomeView::NotFound)
            } else {
                SearchStepView::Continue(self@.parent().unwrap())
            }),
    {
        match self.dir.parent() {
            Some(dir) => SearchStep::Continue(PathSearch { dir }),
            None => SearchStep::Done(SearchOutcome::NotFound),
        }
    }
}

/// A search probes at most one entry for each level from its start up to the
/// anchor.
pub proof fn lemma_probes_bounded(tree: spec_fn(LocationView) -> ProbeView, dir: LocationView)
    ensures
        1 <= probes(tree, dir).len() <= dir.depth() + 1,
    decreases dir.segments.len(),
{
    match spec_advance(dir, tree(candidate(dir))) {
        SearchStepView::Continue(up) => lemma_probes_bounded(tree, up),
        SearchStepView::Done(_) => {},
    }
}

/// A search that passes by every level below `levels` probes exactly the
/// entries up to that level and ends as the probe there decides.
proof fn lemma_search_reaches(
    tree: spec_fn(LocationView) -> ProbeView,
    dir: LocationView,
    levels: nat,
)
    requires
        levels <= dir.depth(),
        forall|j: nat| j < levels ==> (#[trigger] probe_at(tree, dir, j)).is_passed_by(),
        !probe_at(tree, dir, levels).is_passed_by() || levels == dir.depth(),
    ensures
        search(tree, dir) == spec_advance(
            dir.ancestor(levels),
            probe_at(tree, dir, levels),
        )->Done_0,
        spec_advance(dir.ancestor(levels), probe_at(tree, dir, levels)) is Done,
        probes(tree, dir) == candidates_up(dir, levels + 1),
    decreases levels,
{
    lemma_ancestor_zero(dir);
    if levels == 0 {
        assert(probes(tree, dir) =~= candidates_up(dir, 1));
    } else {
        assert(probe_at(tree, dir, 0).is_passed_by());
        let parent = dir.parent().unwrap();
        let up = (levels - 1) as nat;
        lemma_ancestor_of_parent(dir, up);
        assert forall|j: nat| j < up implies (#[trigger] probe_at(tree, parent, j)).is_passed_by() by {
            lemma_ancestor_of_parent(dir, j);
            assert(probe_at(tree, dir, j + 1).is_passed_by());
        }
        lemma_search_reaches(tree, parent, up);
        assert forall|j: int| 0 <= j < levels + 1 implies (seq![candidate(dir)] + candidates_up(
            parent,
            levels,
        ))[j] == candidates_up(dir, levels + 1)[j] by {
            if j > 0 {
                lemma_ancestor_of_parent(dir, (j - 1) as nat);
            }
        }
        assert(probes(tree, dir) =~= candidates_up(dir, levels + 1));
    }
}

/// First match wins. Where the configuration file's name stands for a regular
/// file `levels` levels above `dir`, and every level nearer to `dir` is passed
/// by, the search finds that file, having probed the entries up to it and none
/// above it.
pub proof fn lemma_search_finds_nearest(
    tree: spec_fn(LocationView) -> ProbeView,
    dir: LocationView,
    levels: nat,
)
    requires
        levels <= dir.depth(),
        probe_at(tree, dir, levels).is_regular_file(),
        forall|j: nat| j < levels ==> (#[trigger] probe_at(tree, dir, j)).is_passed_by(),
    ensures
        search(tree, dir) == SearchOutcomeView::Found(candidate(dir.ancestor(levels))),
        probes(tree, dir) == candidates_up(dir, levels + 1),
{
    lemma_search_reaches(tree, dir, levels);
}

/// A search is given up where a probe fails. Where probing `levels` levels
/// above `dir` fails with more than "nothing there", and every level nearer to
/// `dir` is passed by, the search ends with that failure and probes nothing
/// above.
pub proof fn lemma_search_stops_at_failure(
    tree: spec_fn(LocationView) -> ProbeView,
    dir: LocationView,
    levels: nat,
)
    requires
        levels <= dir.depth(),
        probe_at(tree, dir, levels).is_failure(),
        forall|j: nat| j < levels ==> (#[trigger] probe_at(tree, dir, j)).is_passed_by(),
    ensures
        search(tree, dir) == (SearchOutcomeView::Failed {
            candidate: candidate(dir.ancestor(levels)),
            failure: probe_at(tree, dir, levels)->Failed_0,
        }),
        probes(tree, dir) == candidates_up(dir, levels + 1),
{
    lemma_search_reaches(tree, dir, levels);
}

/// Where every level from `dir` up to the anchor is passed by, the search
/// ends without a find, having probed each level once.
pub proof fn lemma_search_exhausts(tree: spec_fn(LocationView) -> ProbeView, dir: LocationView)
    requires
        forall|j: nat| j <= dir.depth() ==> (#[trigger] probe_at(tree, dir, j)).is_passed_by(),
    ensures
        search(tree, dir) == SearchOutcomeView::NotFound,
        probes(tree, dir) == candidates_up(dir, dir.depth() + 1),
{
    lemma_search_reaches(tree, dir, dir.depth());
    lemma_ancestor_top(dir);
}

/// A name taken by a directory is no find. Where the configuration file's
/// name stands for something that is no regular file at every level from
/// `dir` up to the anchor, the search ends without a find and without a
/// failure.
pub proof fn lemma_search_ignores_directories(
    tree: spec_fn(LocationView) -> ProbeView,
    dir: LocationView,
)
    requires
        forall|j: nat|
            j <= dir.depth() ==> #[trigger] probe_at(tree, dir, j) == (ProbeView::Present {
                is_file: false,
            }),
    ensures
        search(tree, dir) == SearchOutcomeView::NotFound,
{
    assert forall|j: nat| j <= dir.depth() implies (#[trigger] probe_at(
        tree,
        dir,
        j,
    )).is_passed_by() by {
        assert(probe_at(tree, dir, j) == ProbeView::Present { is_file: false });
    }
    lemma_search_exhausts(tree, dir);
}

/// The topmost ancestor has no name left below the anchor.
proof fn lemma_ancestor_top(dir: LocationView)
    ensures
        dir.ancestor(dir.depth()).segments.len() == 0,
{
}

} // verus!
