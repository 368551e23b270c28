use anaconda_rust::failure::{IoFailure, IoKind};
use anaconda_rust::location::Location;
use anaconda_rust::path_search::{
    PathSearch, Probe, SearchOutcome, SearchStep, CONFIG_FILE_NAME,
};

fn dir(segments: &[&str]) -> Location {
    Location::new(
        Some("/".to_string()),
        segments.iter().map(|name| name.to_string()).collect(),
    )
}

fn config_in(segments: &[&str]) -> Location {
    dir(segments).child("rustfmt.toml".to_string())
}

fn missing() -> Probe {
    Probe::Failed(IoFailure::new(IoKind::NotFound, "no such file".to_string()))
}

fn denied() -> Probe {
    Probe::Failed(IoFailure::new(IoKind::PermissionDenied, "permission denied".to_string()))
}

fn file() -> Probe {
    Probe::Present { is_file: true }
}

fn directory() -> Probe {
    Probe::Present { is_file: false }
}

/// Runs the search from `start`, answering the probe of each level in turn
/// from `answers`. Gives the entries probed and how the search ended.
fn search_with(start: Location, answers: Vec<Probe>) -> (Vec<Location>, SearchOutcome) {
    let mut probed = Vec::new();
    let mut search = PathSearch::begin(start);
    let mut answers = answers.into_iter();
    loop {
        probed.push(search.candidate());
        let answer = answers.next().expect("the search asked for more levels than were given");
        match search.advance(answer) {
            SearchStep::Continue(next) => search = next,
            SearchStep::Done(outcome) => return (probed, outcome),
        }
    }
}

#[test]
fn config_file_name_is_fixed() {
    assert_eq!(CONFIG_FILE_NAME, "rustfmt.toml");
}

#[test]
fn candidate_is_the_config_file_in_the_directory() {
    let search = PathSearch::begin(dir(&["a", "b"]));
    assert_eq!(search.candidate(), config_in(&["a", "b"]));
    assert_eq!(PathSearch::begin(dir(&[])).candidate(), config_in(&[]));
}

#[test]
fn file_in_the_start_directory_is_found_at_once() {
    let (probed, outcome) = search_with(dir(&["a", "b"]), vec![file()]);
    assert_eq!(outcome, SearchOutcome::Found(config_in(&["a", "b"])));
    assert_eq!(probed, vec![config_in(&["a", "b"])]);
}

#[test]
fn file_two_levels_up_is_found() {
    let (probed, outcome) =
        search_with(dir(&["a", "b", "c"]), vec![missing(), missing(), file()]);
    assert_eq!(outcome, SearchOutcome::Found(config_in(&["a"])));
    assert_eq!(
        probed,
        vec![config_in(&["a", "b", "c"]), config_in(&["a", "b"]), config_in(&["a"])]
    );
}

#[test]
fn nearest_file_wins_and_nothing_above_is_probed() {
    let (probed, outcome) =
        search_with(dir(&["a", "b", "c"]), vec![missing(), file(), file(), file()]);
    assert_eq!(outcome, SearchOutcome::Found(config_in(&["a", "b"])));
    assert_eq!(probed.len(), 2);
}

#[test]
fn file_at_the_anchor_is_found() {
    let (probed, outcome) = search_with(dir(&["a"]), vec![missing(), file()]);
    assert_eq!(outcome, SearchOutcome::Found(config_in(&[])));
    assert_eq!(probed, vec![config_in(&["a"]), config_in(&[])]);
}

#[test]
fn nothing_anywhere_is_not_found() {
    let (probed, outcome) = search_with(dir(&["a", "b"]), vec![missing(), missing(), missing()]);
    assert_eq!(outcome, SearchOutcome::NotFound);
    assert_eq!(probed.len(), 3);
}

#[test]
fn directories_of_that_name_are_not_found_and_no_error() {
    let (probed, outcome) =
        search_with(dir(&["a", "b"]), vec![directory(), directory(), directory()]);
    assert_eq!(outcome, SearchOutcome::NotFound);
    assert_eq!(probed, vec![config_in(&["a", "b"]), config_in(&["a"]), config_in(&[])]);
}

#[test]
fn directory_of_that_name_is_passed_by_for_a_file_above() {
    let (_, outcome) = search_with(dir(&["a", "b"]), vec![directory(), file()]);
    assert_eq!(outcome, SearchOutcome::Found(config_in(&["a"])));
}

#[test]
fn permission_denied_ends_the_search_there() {
    let (probed, outcome) =
        search_with(dir(&["a", "b", "c"]), vec![missing(), denied(), file()]);
    assert_eq!(
        outcome,
        SearchOutcome::Failed {
            candidate: config_in(&["a", "b"]),
            failure: IoFailure::new(IoKind::PermissionDenied, "permission denied".to_string()),
        }
    );
    assert_eq!(probed, vec![config_in(&["a", "b", "c"]), config_in(&["a", "b"])]);
}

#[test]
fn other_failure_ends_the_search_too() {
    let broken = IoFailure::new(IoKind::Other, "input/output error".to_string());
    let (_, outcome) = search_with(dir(&["a"]), vec![Probe::Failed(broken.clone())]);
    assert_eq!(
        outcome,
        SearchOutcome::Failed { candidate: config_in(&["a"]), failure: broken }
    );
}

#[test]
fn search_from_the_anchor_probes_once() {
    let (probed, outcome) = search_with(dir(&[]), vec![missing()]);
    assert_eq!(outcome, SearchOutcome::NotFound);
    assert_eq!(probed, vec![config_in(&[])]);
}

#[test]
fn search_probes_at_most_depth_plus_one_entries() {
    let start = dir(&["a", "b", "c", "d"]);
    let depth = start.depth();
    let answers = (0..10).map(|_| missing()).collect();
    let (probed, _) = search_with(start, answers);
    assert_eq!(probed.len(), depth + 1);
}

#[test]
fn advance_moves_one_level_up() {
    let search = PathSearch::begin(dir(&["a", "b"]));
    assert_eq!(
        search.advance(missing()),
        SearchStep::Continue(PathSearch::begin(dir(&["a"])))
    );
}

#[test]
fn not_found_failure_is_no_failure() {
    let failure = IoFailure::new(IoKind::NotFound, "gone".to_string());
    assert!(failure.is_not_found());
    assert!(!IoFailure::new(IoKind::PermissionDenied, "no".to_string()).is_not_found());
    assert!(!IoFailure::new(IoKind::Other, "no".to_string()).is_not_found());
}
