use live_replay::json::{
    get_in, json_bool_member, json_has_member, json_string_inner, json_string_list,
    json_string_member, json_u64_inner, json_u64_member, number_in, text_in, Json, JsonEntry,
};

#[test]
fn members_are_looked_up_by_key() {
    let text = r#"{"a":"x","n":7,"m":-7,"f":1.5,"b":true,"z":null,"in":{"a":"y","n":8}}"#;
    assert_eq!(json_string_member(text, "a").as_deref(), Some("x"));
    assert_eq!(json_string_member(text, "n"), None);
    assert_eq!(json_u64_member(text, "n"), Some(7));
    assert_eq!(json_u64_member(text, "m"), None);
    assert_eq!(json_u64_member(text, "f"), None);
    assert_eq!(json_bool_member(text, "b"), Some(true));
    assert_eq!(json_bool_member(text, "a"), None);
    assert!(json_has_member(text, "m"));
    assert!(!json_has_member(text, "z"));
    assert!(!json_has_member(text, "q"));
    assert_eq!(json_string_inner(text, "in", "a").as_deref(), Some("y"));
    assert_eq!(json_u64_inner(text, "in", "n"), Some(8));
    assert_eq!(json_string_inner(text, "a", "a"), None);
}

#[test]
fn nothing_is_found_in_what_is_no_object() {
    for text in ["", "{", "[1]", "\"a\"", "null"] {
        assert_eq!(json_string_member(text, "a"), None);
        assert_eq!(json_u64_member(text, "0"), None);
        assert!(!json_has_member(text, "a"));
    }
}

#[test]
fn the_last_of_two_equal_keys_counts() {
    assert_eq!(json_u64_member(r#"{"a":1,"a":2}"#, "a"), Some(2));
    let entry = |n| JsonEntry { key: "a".to_string(), value: Json::Number(Some(n)) };
    let object = Json::Object(vec![entry(1), entry(2)]);
    assert_eq!(number_in(object.get("a")), Some(2));
    assert_eq!(number_in(get_in(Some(&object), "b")), None);
    assert_eq!(number_in(get_in(None, "a")), None);
}

#[test]
fn lists_are_read_item_by_item() {
    let list = Json::List(vec![Json::Text("x".to_string()), Json::Null]);
    assert_eq!(text_in(list.item(0)).as_deref(), Some("x"));
    assert_eq!(text_in(list.item(1)), None);
    assert!(list.item(2).is_none());
    assert!(Json::Null.item(0).is_none());
    let texts = json_string_list(r#"["a","b"]"#).unwrap();
    assert_eq!(texts, ["a", "b"]);
    assert!(json_string_list(r#"["a",1]"#).is_none());
    assert!(json_string_list(r#"{"a":"b"}"#).is_none());
    assert!(json_string_list("[]").unwrap().is_empty());
}
