use anaconda_rust::location::Location;

fn at(anchor: Option<&str>, segments: &[&str]) -> Location {
    Location::new(
        anchor.map(|text| text.to_string()),
        segments.iter().map(|name| name.to_string()).collect(),
    )
}

#[test]
fn new_keeps_anchor_and_segments() {
    let location = at(Some("/"), &["home", "user"]);
    assert_eq!(location.anchor, Some("/".to_string()));
    assert_eq!(location.segments, vec!["home".to_string(), "user".to_string()]);
}

#[test]
fn anchored_location_is_not_relative() {
    assert!(!at(Some("/"), &["a"]).is_relative());
    assert!(at(None, &["a"]).is_relative());
    assert!(at(None, &[]).is_relative());
}

#[test]
fn depth_counts_the_names_below_the_anchor() {
    assert_eq!(at(Some("/"), &[]).depth(), 0);
    assert_eq!(at(Some("/"), &["a", "b", "c"]).depth(), 3);
}

#[test]
fn parent_drops_the_last_name() {
    assert_eq!(at(Some("/"), &["a", "b"]).parent(), Some(at(Some("/"), &["a"])));
    assert_eq!(at(Some("/"), &["a"]).parent(), Some(at(Some("/"), &[])));
    assert_eq!(at(None, &["file.toml"]).parent(), Some(at(None, &[])));
}

#[test]
fn anchor_has_no_parent() {
    assert_eq!(at(Some("/"), &[]).parent(), None);
    assert_eq!(at(None, &[]).parent(), None);
}

#[test]
fn child_appends_a_name() {
    assert_eq!(
        at(Some("/"), &["a"]).child("rustfmt.toml".to_string()),
        at(Some("/"), &["a", "rustfmt.toml"])
    );
    assert_eq!(at(Some("/"), &[]).child("x".to_string()), at(Some("/"), &["x"]));
}

#[test]
fn child_then_parent_is_the_start() {
    let start = at(Some("/"), &["a", "b"]);
    assert_eq!(start.duplicate().child("c".to_string()).parent(), Some(start));
}

#[test]
fn duplicate_is_equal_to_the_original() {
    let original = at(Some("C:\\"), &["Users", "me"]);
    assert_eq!(original.duplicate(), original);
    let relative = at(None, &[]);
    assert_eq!(relative.duplicate(), relative);
}

#[test]
fn join_of_a_relative_location_goes_below() {
    let base = at(Some("/"), &["work"]);
    assert_eq!(base.join(at(None, &["src", "lib"])), at(Some("/"), &["work", "src", "lib"]));
    assert_eq!(base.join(at(None, &[])), base);
}

#[test]
fn join_of_an_anchored_location_replaces() {
    let base = at(Some("/"), &["work"]);
    assert_eq!(base.join(at(Some("/"), &["etc"])), at(Some("/"), &["etc"]));
    assert_eq!(base.join(at(Some("/"), &[])), at(Some("/"), &[]));
}
