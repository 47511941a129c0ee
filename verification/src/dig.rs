//! Following a route through a JSON tree.

use crate::json::{children, object_get, Children};
use crate::path::{index_route, key_route, route, DigIndex, Step};
use serde_json::Value;
use vstd::prelude::*;

verus! {

/// The value that one step selects below `value`: the member under the key
/// where `value` is an object that has it, the element at the position where
/// `value` is an array that reaches that far, and nothing in every other case.
pub open spec fn child(value: &Value, step: Step) -> Option<&Value> {
    match (children(*value), step) {
        (Children::Members(members), Step::Key(key)) => if members.contains_key(key) {
            Some(&members[key])
        } else {
            None
        },
        (Children::Items(items), Step::Index(index)) => if index < items.len() {
            Some(&items[index as int])
        } else {
            None
        },
        _ => None,
    }
}

/// The value that `route` leads to from `value`: `value` itself for the empty
/// route, else what the rest of the route leads to from the child that the
/// first step selects. A step that selects nothing ends the walk with `None`.
pub open spec fn resolve(value: &Value, route: Seq<Step>) -> Option<&Value>
    decreases route.len(),
{
    if route.len() == 0 {
        Some(value)
    } else {
        match child(value, route[0]) {
            Some(below) => resolve(below, route.skip(1)),
            None => None,
        }
    }
}

/// The member of `value` under `key`.
fn member<'v>(value: &'v Value, key: &str) -> (found: Option<&'v Value>)
    ensures
        found == child(value, Step::Key(key@)),
{
    match value.as_object() {
        Some(object) => object_get(object, key),
        None => None,
    }
}

/// The element of `value` at `index`.
fn element<'v>(value: &'v Value, index: usize) -> (found: Option<&'v Value>)
    ensures
        found == child(value, Step::Index(index as nat)),
{
    match value.as_array() {
        Some(items) => if index < items.len() {
            Some(&items[index])
        } else {
            None
        },
        None => None,
    }
}

/// Getting a value from deep inside a JSON tree, one path segment per level.
pub trait Dig<T> {
    /// The value that `key` leads to from `self`, if every segment of it
    /// selects something.
    spec fn spec_get_deep(&self, key: Seq<T>) -> Option<&Value>;

    /// Attempt to find the value stored at the path that the slice
    /// represents. The empty path finds `self`.
    fn get_deep(&self, key: &[T]) -> (found: Option<&Value>)
        ensures
            found == self.spec_get_deep(key@),
    ;
}

impl<'a> Dig<&'a str> for Value {
    open spec fn spec_get_deep(&self, key: Seq<&'a str>) -> Option<&Value> {
        resolve(self, key_route(key))
    }

    /// Follows a path of object keys. Anything but an object on the way, and
    /// any key that an object lacks, gives `None`.
    fn get_deep(&self, key: &[&'a str]) -> (found: Option<&Value>)
        ensures
            found == resolve(self, key_route(key@)),
    {
        let ghost steps = key_route(key@);
        let mut current: &Value = self;
        let mut done: usize = 0;
        assert(steps.skip(0) == steps);
        while done < key.len()
            invariant
                done <= key.len(),
                steps == key_route(key@),
                resolve(self, steps) == resolve(current, steps.skip(done as int)),
            decreases key.len() - done,
        {
            assert(steps.skip(done as int)[0] == Step::Key(key@[done as int]@));
            assert(steps.skip(done as int).skip(1) == steps.skip(done + 1));
            match member(current, key[done]) {
                Some(below) => {
                    current = below;
                },
                None => {
                    return None;
                },
            }
            done += 1;
        }
        Some(current)
    }
}

impl Dig<usize> for Value {
    open spec fn spec_get_deep(&self, key: Seq<usize>) -> Option<&Value> {
        resolve(self, index_route(key))
    }

    /// Follows a path of array positions. Anything but an array on the way,
    /// and any position past an array's end, gives `None`.
    fn get_deep(&self, key: &[usize]) -> (found: Option<&Value>)
        ensures
            found == resolve(self, index_route(key@)),
    {
        let ghost steps = index_route(key@);
        let mut current: &Value = self;
        let mut done: usize = 0;
        assert(steps.skip(0) == steps);
        while done < key.len()
            invariant
                done <= key.len(),
                steps == index_route(key@),
                resolve(self, steps) == resolve(current, steps.skip(done as int)),
            decreases key.len() - done,
        {
            assert(steps.skip(done as int)[0] == Step::Index(key@[done as int] as nat));
            assert(steps.skip(done as int).skip(1) == steps.skip(done + 1));
            match element(current, key[done]) {
                Some(below) => {
                    current = below;
                },
                None => {
                    return None;
                },
            }
            done += 1;
        }
        Some(current)
    }
}

impl<'a> Dig<DigIndex<'a>> for Value {
    open spec fn spec_get_deep(&self, key: Seq<DigIndex<'a>>) -> Option<&Value> {
        resolve(self, route(key))
    }

    /// Follows a path that mixes object keys and array positions. A key met
    /// by anything but an object that has it, and a position met by anything
    /// but an array that reaches it, gives `None`.
    fn get_deep(&self, key: &[DigIndex<'a>]) -> (found: Option<&Value>)
        ensures
            found == resolve(self, route(key@)),
    {
        let ghost steps = route(key@);
        let mut current: &Value = self;
        let mut done: usize = 0;
        assert(steps.skip(0) == steps);
        while done < key.len()
            invariant
                done <= key.len(),
                steps == route(key@),
                resolve(self, steps) == resolve(current, steps.skip(done as int)),
            decreases key.len() - done,
        {
            assert(steps.skip(done as int)[0] == key@[done as int]@);
            assert(steps.skip(done as int).skip(1) == steps.skip(done + 1));
            let selected = match &key[done] {
                DigIndex::String(name) => member(current, name),
                DigIndex::Index(position) => element(current, *position),
            };
            match selected {
                Some(below) => {
                    current = below;
                },
                None => {
                    return None;
                },
            }
            done += 1;
        }
        Some(current)
    }
}

} // verus!
