//! Locations in a file tree, held as plain values.
//!
//! A location is what it hangs from (a root or a drive, here its anchor) and
//! the names that lead down from there. The host turns its own paths into
//! locations and back; the library only ever takes them apart and puts them
//! together.

use vstd::prelude::*;

verus! {

/// A location in a file tree.
#[derive(Clone, Debug, PartialEq, Eq)]
pub struct Location {
    /// What the location hangs from; `None` for a relative location.
    pub anchor: Option<String>,
    /// The names below the anchor, outermost first.
    pub segments: Vec<String>,
}

/// The mathematical value of a [`Location`].
pub struct LocationView {
    pub anchor: Option<Seq<char>>,
    pub segments: Seq<Seq<char>>,
}

impl View for Location {
    type V = LocationView;

    open spec fn view(&self) -> LocationView {
        LocationView { anchor: self.anchor.deep_view(), segments: self.segments.deep_view() }
    }
}

impl LocationView {
    /// True when the location hangs from nothing.
    pub open spec fn is_relative(self) -> bool {
        self.anchor is None
    }

    /// The number of names below the anchor.
    pub open spec fn depth(self) -> nat {
        self.segments.len()
    }

    /// The location one level up; none at the anchor itself, and none for the
    /// empty relative location.
    pub open spec fn parent(self) -> Option<LocationView> {
        if self.segments.len() == 0 {
            None
        } else {
            Some(LocationView { anchor: self.anchor, segments: self.segments.drop_last() })
        }
    }

    /// The location `levels` levels up. Meant for `levels <= self.depth()`.
    pub open spec fn ancestor(self, levels: nat) -> LocationView {
        LocationView {
            anchor: self.anchor,
            segments: self.segments.take(self.segments.len() - levels),
        }
    }

    /// The entry called `name` directly inside this location.
    pub open spec fn child(self, name: Seq<char>) -> LocationView {
        LocationView { anchor: self.anchor, segments: self.segments.push(name) }
    }

    /// `other` as seen from this location: `other` itself where it is
    /// anchored, else `other`'s names below this location.
    pub open spec fn join(self, other: LocationView) -> LocationView {
        if other.anchor is Some {
            other
        } else {
            LocationView { anchor: self.anchor, segments: self.segments + other.segments }
        }
    }
}

/// Going up no level stays in place.
pub proof fn lemma_ancestor_zero(location: LocationView)
    ensures
        location.ancestor(0) == location,
{
    assert(location.segments.take(location.segments.len() as int) =~= location.segments);
}

/// Going up from the parent is going up one level more from the start.
pub proof fn lemma_ancestor_of_parent(location: LocationView, levels: nat)
    requires
        levels < location.depth(),
    ensures
        location.parent() is Some,
        location.parent().unwrap().ancestor(levels) == location.ancestor(levels + 1),
{
    let parent = location.parent().unwrap();
    assert(parent.segments.take(parent.segments.len() - levels) =~= location.segments.take(
        location.segments.len() - (levels + 1),
    ));
}

impl Location {
    /// The location with this anchor and these names below it.
    pub fn new(anchor: Option<String>, segments: Vec<String>) -> (location: Location)
        ensures
            location.anchor == anchor,
            location.segments == segments,
    {
        Location { anchor, segments }
    }

    /// True when the location hangs from nothing.
    pub fn is_relative(&self) -> (relative: bool)
        ensures
            relative == self@.is_relative(),
    {
        self.anchor.is_none()
    }

    /// The number of names below the anchor.
    pub fn depth(&self) -> (depth: usize)
        ensures
            depth == self@.depth(),
    {
        self.segments.len()
    }

    /// The location one level up; none at the anchor itself, and none for the
    /// empty relative location.
    pub fn parent(self) -> (parent: Option<Location>)
        ensures
            parent.deep_view() == self@.parent(),
    {
        let mut location = self;
        let ghost before = location.segments.deep_view();
        match location.segments.pop() {
            Some(_) => {
                assert(location.segments.deep_view() =~= before.drop_last());
                Some(location)
            },
            None => None,
        }
    }

    /// The entry called `name` directly inside this location.
    pub fn child(self, name: String) -> (child: Location)
        ensures
            child@ == self@.child(name@),
    {
        let mut location = self;
        let ghost before = location.segments.deep_view();
        location.segments.push(name);
        assert(location.segments.deep_view() =~= before.push(name@));
        location
    }

    /// A second copy of this location.
    pub fn duplicate(&self) -> (copy: Location)
        ensures
            copy@ == self@,
    {
        let anchor = match &self.anchor {
            Some(text) => Some(text.clone()),
            None => None,
        };
        let mut segments: Vec<String> = Vec::new();
        let mut i: usize = 0;
        while i < self.segments.len()
            invariant
                i <= self.segments.len(),
                segments@.len() == i,
                forall|j: int| 0 <= j < i ==> segments@[j] == self.segments@[j],
            decreases self.segments.len() - i,
        {
            segments.push(self.segments[i].clone());
            i = i + 1;
        }
        assert(segments.deep_view() =~= self.segments.deep_view());
        Location { anchor, segments }
    }

    /// `other` as seen from this location: `other` itself where it is
    /// anchored, else `other`'s names below this location.
    pub fn join(&self, other: Location) -> (joined: Location)
        ensures
            joined@ == self@.join(other@),
    {
        if other.anchor.is_some() {
            other
        } else {
            let mut joined = self.duplicate();
            let mut tail = other.segments;
            let ghost head = joined.segments.deep_view();
            let ghost rest = tail.deep_view();
            joined.segments.append(&mut tail);
            assert(joined.segments.deep_view() =~= head + rest);
            joined
        }
    }
}

impl DeepView for Location {
    type V = LocationView;

    open spec fn deep_view(&self) -> LocationView {
        self@
    }
}

} // verus!
