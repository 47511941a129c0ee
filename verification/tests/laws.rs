use serde_dig::{Dig, DigIndex};
use serde_json::Value;

fn object_of(entries: Vec<(&str, Value)>) -> Value {
    let mut members = serde_json::Map::new();
    for (key, value) in entries {
        members.insert(key.to_string(), value);
    }
    Value::Object(members)
}

fn numbers(values: &[i64]) -> Value {
    Value::Array(values.iter().map(|n| Value::from(*n)).collect())
}

fn tree() -> Value {
    object_of(vec![
        ("list", numbers(&[10, 20, 30])),
        (
            "deep",
            object_of(vec![
                ("rows", Value::Array(vec![numbers(&[1, 2]), numbers(&[3])])),
                ("flag", Value::Bool(true)),
                ("none", Value::Null),
            ]),
        ),
        ("name", Value::from("dig")),
        ("", Value::from(0)),
    ])
}

fn every_kind() -> Vec<Value> {
    vec![
        Value::Null,
        Value::Bool(false),
        Value::from(12),
        Value::from("text"),
        numbers(&[1, 2, 3]),
        Value::Array(Vec::new()),
        tree(),
        Value::Object(serde_json::Map::new()),
    ]
}

#[test]
fn empty_path_finds_the_value_itself() {
    let no_keys: [&str; 0] = [];
    let no_indices: [usize; 0] = [];
    let no_segments: [DigIndex; 0] = [];
    for value in every_kind() {
        assert_eq!(value.get_deep(&no_keys), Some(&value));
        assert_eq!(value.get_deep(&no_indices), Some(&value));
        assert_eq!(value.get_deep(&no_segments), Some(&value));
    }
}

#[test]
fn present_key_leads_on_from_the_member() {
    let root = tree();
    let member = root.as_object().unwrap().get("deep").unwrap();
    assert_eq!(
        root.get_deep(&[DigIndex::String("deep"), DigIndex::String("rows"), DigIndex::Index(1)]),
        member.get_deep(&[DigIndex::String("rows"), DigIndex::Index(1)])
    );
    assert_eq!(
        root.get_deep(&[DigIndex::String("deep"), DigIndex::String("missing")]),
        member.get_deep(&[DigIndex::String("missing")])
    );
    assert_eq!(root.get_deep(&[DigIndex::String("deep")]), Some(member));
    assert_eq!(root.get_deep(&["deep", "flag"]), member.get_deep(&["flag"]));
    assert_eq!(root.get_deep(&["deep", "flag"]), Some(&Value::Bool(true)));
}

#[test]
fn index_in_bounds_leads_on_from_the_element() {
    let rows = Value::Array(vec![numbers(&[1, 2]), numbers(&[3]), tree()]);
    let element = &rows.as_array().unwrap()[2];
    assert_eq!(
        rows.get_deep(&[DigIndex::Index(2), DigIndex::String("list"), DigIndex::Index(0)]),
        element.get_deep(&[DigIndex::String("list"), DigIndex::Index(0)])
    );
    assert_eq!(rows.get_deep(&[DigIndex::Index(2)]), Some(element));
    assert_eq!(rows.get_deep(&[0usize, 1]), rows.as_array().unwrap()[0].get_deep(&[1usize]));
    assert_eq!(rows.get_deep(&[0usize, 1]), Some(&Value::from(2)));
    assert_eq!(rows.get_deep(&[1usize, 0]), Some(&Value::from(3)));
}

#[test]
fn absent_key_leads_nowhere() {
    let root = tree();
    assert_eq!(root.get_deep(&["missing"]), None);
    assert_eq!(root.get_deep(&["missing", "list"]), None);
    assert_eq!(root.get_deep(&["List"]), None);
    assert_eq!(root.get_deep(&["deep", "row"]), None);
    assert_eq!(root.get_deep(&[DigIndex::String("missing")]), None);
    assert_eq!(root.get_deep(&[DigIndex::String("missing"), DigIndex::Index(0)]), None);
    let empty = Value::Object(serde_json::Map::new());
    assert_eq!(empty.get_deep(&[""]), None);
}

#[test]
fn empty_key_is_a_key_like_any_other() {
    let root = tree();
    assert_eq!(root.get_deep(&[""]), Some(&Value::from(0)));
    assert_eq!(root.get_deep(&[DigIndex::String("")]), Some(&Value::from(0)));
}

#[test]
fn index_at_or_past_the_end_leads_nowhere() {
    let list = numbers(&[10, 20, 30]);
    assert_eq!(list.get_deep(&[2usize]), Some(&Value::from(30)));
    assert_eq!(list.get_deep(&[3usize]), None);
    assert_eq!(list.get_deep(&[usize::MAX]), None);
    assert_eq!(list.get_deep(&[3usize, 0]), None);
    assert_eq!(list.get_deep(&[DigIndex::Index(3)]), None);
    assert_eq!(list.get_deep(&[DigIndex::Index(3), DigIndex::String("x")]), None);
    let empty = Value::Array(Vec::new());
    assert_eq!(empty.get_deep(&[0usize]), None);
    assert_eq!(empty.get_deep(&[DigIndex::Index(0)]), None);
}

#[test]
fn any_segment_against_a_scalar_leads_nowhere() {
    let scalars = vec![Value::Null, Value::Bool(true), Value::from(7), Value::from("seven")];
    for scalar in scalars {
        assert_eq!(scalar.get_deep(&["a"]), None);
        assert_eq!(scalar.get_deep(&[0usize]), None);
        assert_eq!(scalar.get_deep(&[DigIndex::String("a")]), None);
        assert_eq!(scalar.get_deep(&[DigIndex::Index(0)]), None);
        assert_eq!(scalar.get_deep(&[DigIndex::Index(0), DigIndex::String("a")]), None);
    }
}

#[test]
fn segment_of_the_wrong_kind_leads_nowhere() {
    let root = tree();
    assert_eq!(root.get_deep(&[DigIndex::Index(0)]), None);
    assert_eq!(root.get_deep(&[DigIndex::Index(0), DigIndex::String("list")]), None);
    assert_eq!(root.get_deep(&[0usize]), None);
    let list = numbers(&[10, 20, 30]);
    assert_eq!(list.get_deep(&[DigIndex::String("0")]), None);
    assert_eq!(list.get_deep(&[DigIndex::String("0"), DigIndex::Index(0)]), None);
    assert_eq!(list.get_deep(&["0"]), None);
}

#[test]
fn failure_midway_does_not_skip_ahead() {
    let root = tree();
    assert_eq!(root.get_deep(&["name", "list"]), None);
    assert_eq!(root.get_deep(&["list", "deep"]), None);
    assert_eq!(
        root.get_deep(&[DigIndex::String("list"), DigIndex::String("deep"), DigIndex::Index(0)]),
        None
    );
    assert_eq!(
        root.get_deep(&[DigIndex::String("deep"), DigIndex::Index(0), DigIndex::String("rows")]),
        None
    );
    assert_eq!(root.get_deep(&["deep", "none", "x"]), None);
    assert_eq!(root.get_deep(&["deep", "none"]), Some(&Value::Null));
}

#[test]
fn keys_lead_where_the_same_keys_lead_as_segments() {
    let root = tree();
    let paths: Vec<Vec<&str>> = vec![
        vec![],
        vec!["deep"],
        vec!["deep", "rows"],
        vec!["deep", "flag"],
        vec!["list", "deep"],
        vec!["missing"],
    ];
    for path in paths {
        let segments: Vec<DigIndex> = path.iter().map(|key| DigIndex::String(key)).collect();
        assert_eq!(root.get_deep(&path[..]), root.get_deep(&segments[..]));
    }
}

#[test]
fn positions_lead_where_the_same_positions_lead_as_segments() {
    let rows = Value::Array(vec![numbers(&[1, 2]), numbers(&[3]), tree()]);
    let paths: Vec<Vec<usize>> =
        vec![vec![], vec![0], vec![0, 1], vec![1, 0], vec![1, 1], vec![2, 0], vec![3]];
    for path in paths {
        let segments: Vec<DigIndex> = path.iter().map(|index| DigIndex::Index(*index)).collect();
        assert_eq!(rows.get_deep(&path[..]), rows.get_deep(&segments[..]));
    }
}

#[test]
fn path_in_two_parts_leads_on_from_where_the_first_ends() {
    let root = tree();
    let whole = [DigIndex::String("deep"), DigIndex::String("rows"), DigIndex::Index(0), DigIndex::Index(1)];
    for cut in 0..=whole.len() {
        let reached = root.get_deep(&whole[..cut]).unwrap();
        assert_eq!(reached.get_deep(&whole[cut..]), root.get_deep(&whole));
    }
    assert_eq!(root.get_deep(&whole), Some(&Value::from(2)));
    let broken = [DigIndex::String("deep"), DigIndex::Index(0), DigIndex::String("rows")];
    assert_eq!(root.get_deep(&broken[..2]), None);
    assert_eq!(root.get_deep(&broken), None);
}

#[test]
fn digging_leaves_the_tree_as_it_was() {
    let root = tree();
    let before = root.clone();
    let _ = root.get_deep(&["deep", "rows"]);
    let _ = root.get_deep(&[DigIndex::String("list"), DigIndex::Index(9)]);
    assert_eq!(root, before);
}
