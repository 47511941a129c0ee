//! What holds of digging on every value and every path.
//!
//! The laws are stated for paths of [`DigIndex`] segments, the general form.
//! Paths of string keys and paths of positions lead where the same path
//! written in segments leads, so the laws hold of them too.

use crate::dig::{child, resolve};
use crate::json::{children, Children};
use crate::path::{index_route, key_route, route, DigIndex, Step};
use serde_json::Value;
use vstd::prelude::*;

verus! {

/// A route that starts with `step` leads where the rest of it leads from the
/// child that `step` selects, and nowhere if `step` selects nothing.
pub proof fn lemma_first_step(value: &Value, step: Step, rest: Seq<Step>)
    ensures
        resolve(value, seq![step] + rest) == match child(value, step) {
            Some(below) => resolve(below, rest),
            None => None,
        },
{
    let whole = seq![step] + rest;
    assert(whole[0] == step);
    assert(whole.skip(1) == rest);
}

/// A route in two parts leads where the second part leads from the value
/// that the first part leads to, and nowhere if the first part leads nowhere.
pub proof fn lemma_routes_compose(value: &Value, first: Seq<Step>, second: Seq<Step>)
    ensures
        resolve(value, first + second) == match resolve(value, first) {
            Some(reached) => resolve(reached, second),
            None => None,
        },
    decreases first.len(),
{
    let whole = first + second;
    if first.len() == 0 {
        assert(whole == second);
    } else {
        assert(whole[0] == first[0]);
        assert(whole.skip(1) == first.skip(1) + second);
        match child(value, first[0]) {
            Some(below) => lemma_routes_compose(below, first.skip(1), second),
            None => {},
        }
    }
}

/// The route of a path that starts with `first` is the step that `first`
/// stands for, followed by the route of the rest.
pub proof fn lemma_route_of_first<'a>(first: DigIndex<'a>, rest: Seq<DigIndex<'a>>)
    ensures
        route(seq![first] + rest) == seq![first@] + route(rest),
{
    assert(route(seq![first] + rest) =~= seq![first@] + route(rest));
}

/// The empty path leads from every value, of whatever kind, to that value.
pub proof fn lemma_empty_path(value: &Value)
    ensures
        resolve(value, route(Seq::empty())) == Some(value),
        resolve(value, key_route(Seq::empty())) == Some(value),
        resolve(value, index_route(Seq::empty())) == Some(value),
{
}

/// Where an object holds `key`, a path that starts with that key leads where
/// the rest of the path leads from the member stored under it.
pub proof fn lemma_key_present<'a>(
    value: &Value,
    members: Map<Seq<char>, Value>,
    key: &'a str,
    rest: Seq<DigIndex<'a>>,
)
    requires
        children(*value) == Children::Members(members),
        members.contains_key(key@),
    ensures
        resolve(value, route(seq![DigIndex::String(key)] + rest)) == resolve(
            &members[key@],
            route(rest),
        ),
{
    lemma_route_of_first(DigIndex::String(key), rest);
    lemma_first_step(value, Step::Key(key@), route(rest));
}

/// Where an array reaches `index`, a path that starts with that position
/// leads where the rest of the path leads from the element at it.
pub proof fn lemma_index_in_bounds<'a>(
    value: &Value,
    items: Seq<Value>,
    index: usize,
    rest: Seq<DigIndex<'a>>,
)
    requires
        children(*value) == Children::Items(items),
        index < items.len(),
    ensures
        resolve(value, route(seq![DigIndex::Index(index)] + rest)) == resolve(
            &items[index as int],
            route(rest),
        ),
{
    lemma_route_of_first(DigIndex::Index(index), rest);
    lemma_first_step(value, Step::Index(index as nat), route(rest));
}

/// Where an object lacks `key`, a path that starts with that key leads
/// nowhere, whatever follows.
pub proof fn lemma_key_absent<'a>(
    value: &Value,
    members: Map<Seq<char>, Value>,
    key: &'a str,
    rest: Seq<DigIndex<'a>>,
)
    requires
        children(*value) == Children::Members(members),
        !members.contains_key(key@),
    ensures
        resolve(value, route(seq![DigIndex::String(key)] + rest)) is None,
{
    lemma_route_of_first(DigIndex::String(key), rest);
    lemma_first_step(value, Step::Key(key@), route(rest));
}

/// Where `index` lies at or past the end of an array, a path that starts
/// with that position leads nowhere, whatever follows.
pub proof fn lemma_index_out_of_bounds<'a>(
    value: &Value,
    items: Seq<Value>,
    index: usize,
    rest: Seq<DigIndex<'a>>,
)
    requires
        children(*value) == Children::Items(items),
        index >= items.len(),
    ensures
        resolve(value, route(seq![DigIndex::Index(index)] + rest)) is None,
{
    lemma_route_of_first(DigIndex::Index(index), rest);
    lemma_first_step(value, Step::Index(index as nat), route(rest));
}

/// A segment of the wrong kind leads nowhere, whatever follows: any segment
/// met by a null, a boolean, a number or a string, a position met by an
/// object, and a key met by an array.
pub proof fn lemma_kind_mismatch<'a>(value: &Value, first: DigIndex<'a>, rest: Seq<DigIndex<'a>>)
    requires
        children(*value) is Leaf || (children(*value) is Members && first is Index) || (children(
            *value,
        ) is Items && first is String),
    ensures
        resolve(value, route(seq![first] + rest)) is None,
{
    lemma_route_of_first(first, rest);
    lemma_first_step(value, first@, route(rest));
}

/// A path in two parts leads where the second part leads from the value that
/// the first part leads to, and nowhere if the first part leads nowhere.
pub proof fn lemma_paths_compose<'a>(
    value: &Value,
    first: Seq<DigIndex<'a>>,
    second: Seq<DigIndex<'a>>,
)
    ensures
        resolve(value, route(first + second)) == match resolve(value, route(first)) {
            Some(reached) => resolve(reached, route(second)),
            None => None,
        },
{
    assert(route(first + second) =~= route(first) + route(second));
    lemma_routes_compose(value, route(first), route(second));
}

/// A path of string keys leads where the same keys lead as segments.
pub proof fn lemma_keys_as_segments<'a>(value: &Value, keys: Seq<&'a str>)
    ensures
        resolve(value, key_route(keys)) == resolve(
            value,
            route(keys.map_values(|key: &'a str| DigIndex::String(key))),
        ),
{
    assert(key_route(keys) =~= route(keys.map_values(|key: &'a str| DigIndex::String(key))));
}

/// A path of positions leads where the same positions lead as segments.
pub proof fn lemma_indices_as_segments(value: &Value, indices: Seq<usize>)
    ensures
        resolve(value, index_route(indices)) == resolve(
            value,
            route(indices.map_values(|index: usize| DigIndex::Index(index))),
        ),
{
    assert(index_route(indices) =~= route(
        indices.map_values(|index: usize| DigIndex::Index(index)),
    ));
}

} // verus!
