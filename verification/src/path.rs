//! Paths: the segments that name one child of a JSON value, and the routes
//! that slices of them spell out.

use vstd::prelude::*;
use vstd::std_specs::convert::FromSpecImpl;

verus! {

/// One step of a route, as contracts see it: the key of an object member or
/// the position of an array element.
pub enum Step {
    /// The member of an object that is stored under this key.
    Key(Seq<char>),
    /// The element of an array at this position, counted from zero.
    Index(nat),
}

/// One segment of a path: either of the two ways to select a child of a
/// JSON value.
#[derive(Debug)]
pub enum DigIndex<'a> {
    /// A string key, which selects a member of an object.
    String(&'a str),
    /// A position, which selects an element of an array.
    Index(usize),
}

impl<'a> View for DigIndex<'a> {
    type V = Step;

    open spec fn view(&self) -> Step {
        match *self {
            DigIndex::String(key) => Step::Key(key@),
            DigIndex::Index(index) => Step::Index(index as nat),
        }
    }
}

impl<'a> From<&'a str> for DigIndex<'a> {
    fn from(v: &'a str) -> (segment: Self) {
        DigIndex::String(v)
    }
}

impl<'a> FromSpecImpl<&'a str> for DigIndex<'a> {
    open spec fn obeys_from_spec() -> bool {
        true
    }

    open spec fn from_spec(v: &'a str) -> Self {
        DigIndex::String(v)
    }
}

impl<'a> From<usize> for DigIndex<'a> {
    fn from(v: usize) -> (segment: Self) {
        DigIndex::Index(v)
    }
}

impl<'a> FromSpecImpl<usize> for DigIndex<'a> {
    open spec fn obeys_from_spec() -> bool {
        true
    }

    open spec fn from_spec(v: usize) -> Self {
        DigIndex::Index(v)
    }
}

/// The route that a path of segments spells out: the view of each segment, in
/// the path's order.
pub open spec fn route(path: Seq<DigIndex>) -> Seq<Step> {
    path.map_values(|segment: DigIndex| segment@)
}

/// The route that a path of string keys spells out: one `Key` step for each.
pub open spec fn key_route(keys: Seq<&str>) -> Seq<Step> {
    keys.map_values(|key: &str| Step::Key(key@))
}

/// The route that a path of positions spells out: one `Index` step for each.
pub open spec fn index_route(indices: Seq<usize>) -> Seq<Step> {
    indices.map_values(|index: usize| Step::Index(index as nat))
}

} // verus!
