use ide_sync_pro::json::{find_key, JsonNumber, JsonValue};
use ide_sync_pro::jsonc::parse_config;
use ide_sync_pro::merge::{holds_equal, merge_json_values, merged_value};

fn object(entries: Vec<(&str, JsonValue)>) -> JsonValue {
    JsonValue::Object(entries.into_iter().map(|(k, v)| (k.to_string(), v)).collect())
}

fn number(n: u64) -> JsonValue {
    JsonValue::Number(JsonNumber::PosInt(n))
}

fn text(s: &str) -> JsonValue {
    JsonValue::String(s.to_string())
}

fn parsed(source: &str) -> JsonValue {
    parse_config(source).expect("valid text")
}

fn keys(value: &JsonValue) -> Vec<String> {
    match value {
        JsonValue::Object(entries) => entries.iter().map(|(k, _)| k.clone()).collect(),
        _ => panic!("not an object"),
    }
}

#[test]
fn merge_example_from_two_objects() {
    let source = parsed(r#"{"a":1,"b":{"x":1}}"#);
    let mut target = parsed(r#"{"b":{"y":2},"c":3}"#);
    merge_json_values(&mut target, &source);
    let expected = object(vec![
        ("a", number(1)),
        ("b", object(vec![("x", number(1)), ("y", number(2))])),
        ("c", number(3)),
    ]);
    assert!(target.equals(&expected));
    assert_eq!(keys(&target).len(), 3);
}

#[test]
fn merge_keeps_the_place_of_target_keys_and_appends_new_ones() {
    let mut target = object(vec![("z", number(1)), ("m", number(2))]);
    let source = object(vec![("m", number(5)), ("a", number(7))]);
    merge_json_values(&mut target, &source);
    assert_eq!(keys(&target), vec!["z".to_string(), "m".to_string(), "a".to_string()]);
    assert!(target.equals(&object(vec![("a", number(7)), ("m", number(5)), ("z", number(1))])));
}

#[test]
fn merge_source_wins_where_one_value_is_no_object() {
    let mut target = object(vec![("k", object(vec![("inner", number(1))])), ("n", number(1))]);
    let source = object(vec![("k", number(9)), ("n", object(vec![("deep", JsonValue::Null)]))]);
    merge_json_values(&mut target, &source);
    let expected = object(vec![("k", number(9)), ("n", object(vec![("deep", JsonValue::Null)]))]);
    assert!(target.equals(&expected));
}

#[test]
fn merge_of_different_kinds_replaces_the_target() {
    let mut target = JsonValue::Array(vec![number(1)]);
    merge_json_values(&mut target, &object(vec![("a", number(1))]));
    assert!(target.equals(&object(vec![("a", number(1))])));

    let mut scalar = number(3);
    merge_json_values(&mut scalar, &text("three"));
    assert!(scalar.equals(&text("three")));

    let mut into_null = object(vec![("a", number(1))]);
    merge_json_values(&mut into_null, &JsonValue::Null);
    assert!(into_null.equals(&JsonValue::Null));
}

#[test]
fn merge_arrays_appends_what_is_new_in_source_order() {
    let mut target = JsonValue::Array(vec![number(1), number(2)]);
    let source = JsonValue::Array(vec![number(2), number(3), number(3), text("x"), number(1)]);
    merge_json_values(&mut target, &source);
    match &target {
        JsonValue::Array(items) => {
            assert_eq!(items.len(), 4);
            assert!(items[0].equals(&number(1)));
            assert!(items[1].equals(&number(2)));
            assert!(items[2].equals(&number(3)));
            assert!(items[3].equals(&text("x")));
        }
        _ => panic!("not an array"),
    }
}

#[test]
fn merge_arrays_inside_objects_are_replaced_not_merged() {
    let mut target = parsed(r#"{"list":[1,2]}"#);
    let source = parsed(r#"{"list":[3]}"#);
    merge_json_values(&mut target, &source);
    assert!(target.equals(&parsed(r#"{"list":[3]}"#)));
}

#[test]
fn merge_arrays_compares_objects_whatever_the_order_of_their_keys() {
    let mut target = parsed(r#"[{"key":"ctrl+a","command":"x"}]"#);
    let source = parsed(r#"[{"command":"x","key":"ctrl+a"},{"command":"y","key":"ctrl+b"}]"#);
    merge_json_values(&mut target, &source);
    match &target {
        JsonValue::Array(items) => assert_eq!(items.len(), 2),
        _ => panic!("not an array"),
    }
}

#[test]
fn merge_into_itself_changes_nothing() {
    let source_text = r#"{"a":1,"b":{"x":[1,2,{"y":null}],"z":"s"},"c":[true,false],"d":-4,"e":1.5}"#;
    let tree = parsed(source_text);
    let mut target = parsed(source_text);
    merge_json_values(&mut target, &tree);
    assert!(target.equals(&tree));
    assert_eq!(keys(&target), keys(&tree));
}

#[test]
fn merge_twice_is_the_same_as_once() {
    let source = parsed(r#"{"a":{"p":[1,2]},"list":[1],"n":2}"#);
    let mut once = parsed(r#"{"a":{"q":1},"list":[7],"m":"keep"}"#);
    merge_json_values(&mut once, &source);
    let mut twice = once.duplicate();
    merge_json_values(&mut twice, &source);
    assert!(twice.equals(&once));

    let mut items = JsonValue::Array(vec![number(1)]);
    let more = JsonValue::Array(vec![number(2), number(1)]);
    merge_json_values(&mut items, &more);
    let again = merged_value(&items, &more);
    assert!(again.equals(&items));
}

#[test]
fn merge_every_source_key_is_present_afterwards() {
    let source = parsed(r#"{"a":1,"b":{"x":1},"c":[1],"d":{"only":"source"}}"#);
    let before = parsed(r#"{"b":{"y":2},"c":{"was":"object"},"e":5}"#);
    let after = merged_value(&before, &source);
    let entries = match &after {
        JsonValue::Object(entries) => entries,
        _ => panic!("not an object"),
    };
    let value_of = |key: &str| {
        let at = find_key(entries, &key.to_string()).expect("key is present");
        &entries[at].1
    };
    assert!(value_of("a").equals(&number(1)));
    assert!(value_of("b").equals(&parsed(r#"{"x":1,"y":2}"#)));
    assert!(value_of("c").equals(&parsed("[1]")));
    assert!(value_of("d").equals(&parsed(r#"{"only":"source"}"#)));
    assert!(value_of("e").equals(&number(5)));
    assert_eq!(entries.len(), 5);
}

#[test]
fn equality_of_numbers_follows_their_kind() {
    assert!(parsed("1").equals(&parsed("1")));
    assert!(!parsed("1").equals(&parsed("1.0")));
    assert!(!parsed("1").equals(&parsed("-1")));
    assert!(parsed("-7").equals(&parsed("-7")));
    assert!(parsed("1.50").equals(&parsed("1.5")));
    assert!(parsed("0.0").equals(&parsed("-0.0")));
    assert!(!parsed("0.0").equals(&parsed("0")));
    assert!(parsed("18446744073709551615").equals(&JsonValue::Number(JsonNumber::PosInt(u64::MAX))));
    assert!(parsed("-9223372036854775808").equals(&JsonValue::Number(JsonNumber::NegInt(i64::MIN))));
}

#[test]
fn equality_of_zeros_decides_what_an_array_takes() {
    let mut target = parsed("[0.0]");
    merge_json_values(&mut target, &parsed("[-0.0, 0]"));
    match &target {
        JsonValue::Array(items) => {
            assert_eq!(items.len(), 2);
            assert!(items[1].equals(&number(0)));
        }
        _ => panic!("not an array"),
    }
}

#[test]
fn holds_equal_finds_an_equal_item_only() {
    let items = vec![number(1), text("a"), parsed(r#"{"k":[1]}"#)];
    assert!(holds_equal(&items, &text("a")));
    assert!(holds_equal(&items, &parsed(r#"{"k":[1]}"#)));
    assert!(!holds_equal(&items, &parsed(r#"{"k":[1,2]}"#)));
    assert!(!holds_equal(&Vec::new(), &JsonValue::Null));
}

#[test]
fn find_key_gives_the_first_position() {
    let entries = vec![
        ("a".to_string(), number(1)),
        ("b".to_string(), number(2)),
        ("a".to_string(), number(3)),
    ];
    assert_eq!(find_key(&entries, &"a".to_string()), Some(0));
    assert_eq!(find_key(&entries, &"b".to_string()), Some(1));
    assert_eq!(find_key(&entries, &"c".to_string()), None);
}

#[test]
fn parse_accepts_comments_and_trailing_commas() {
    let tree = parsed("// settings\n{\n  \"a\": 1, /* one */\n  \"b\": [1, 2,],\n}\n");
    assert!(tree.equals(&object(vec![
        ("a", number(1)),
        ("b", JsonValue::Array(vec![number(1), number(2)])),
    ])));
}

#[test]
fn parse_of_an_empty_text_is_null() {
    assert!(parsed("").equals(&JsonValue::Null));
    assert!(parsed("  // nothing here\n").equals(&JsonValue::Null));
    assert!(parsed("null").equals(&JsonValue::Null));
}

#[test]
fn parse_refuses_what_is_no_document() {
    assert!(parse_config("{").is_none());
    assert!(parse_config("[][]").is_none());
    assert!(parse_config("{\"a\": }").is_none());
}

#[test]
fn duplicate_is_equal_to_the_tree() {
    let tree = parsed(r#"{"a":[1,{"b":"c"}],"d":2.5,"e":-3}"#);
    let copy = tree.duplicate();
    assert!(copy.equals(&tree));
    assert!(tree.is_object());
    assert!(!parsed("[]").is_object());
}

#[test]
fn parsed_trees_are_well_formed() {
    for source in [
        "null",
        "-1",
        "0",
        "-0",
        "[1,-2,3.5,{\"a\":{\"a\":[{\"b\":-9}]}}]",
        "{\"a\":1,\"a\":2,\"b\":{\"a\":1,\"a\":-1}}",
        "{\"x\": 9223372036854775808, \"y\": -9223372036854775808}",
    ] {
        assert!(parsed(source).is_well_formed(), "tree of {}", source);
    }
    assert!(parsed("{\"a\":1,\"a\":2}").equals(&object(vec![("a", number(2))])));
}

#[test]
fn well_formed_trees_name_no_key_twice() {
    assert!(object(vec![("a", number(1)), ("b", number(1))]).is_well_formed());
    assert!(!object(vec![("a", number(1)), ("a", number(1))]).is_well_formed());
    assert!(!JsonValue::Array(vec![object(vec![("k", JsonValue::Null), ("k", JsonValue::Null)])])
        .is_well_formed());
    assert!(!object(vec![("outer", object(vec![("k", number(1)), ("j", number(2)), ("k", number(3))]))])
        .is_well_formed());
    assert!(JsonValue::Number(JsonNumber::NegInt(-1)).is_well_formed());
    assert!(!JsonValue::Number(JsonNumber::NegInt(0)).is_well_formed());
    assert!(!JsonValue::Array(vec![JsonValue::Number(JsonNumber::NegInt(5))]).is_well_formed());
    assert!(JsonValue::Number(JsonNumber::Float("1.5".to_string())).is_well_formed());
}

#[test]
fn merged_trees_stay_well_formed() {
    let mut target = parsed(r#"{"a":{"x":[1]},"b":[{"k":1}],"c":-1}"#);
    let source = parsed(r#"{"a":{"x":[2],"y":{}},"b":[{"k":1},{"k":2}],"d":{"e":null}}"#);
    merge_json_values(&mut target, &source);
    assert!(target.is_well_formed());
}
