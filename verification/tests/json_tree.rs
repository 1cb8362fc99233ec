use graphcast_cli::json::{JsonMember, JsonValue};

fn member(name: &str, value: JsonValue) -> JsonMember {
    JsonMember { name: name.to_string(), value }
}

#[test]
fn get_finds_a_member_by_name() {
    let object = JsonValue::Object(vec![
        member("a", JsonValue::Bool(true)),
        member("b", JsonValue::Text("x".to_string())),
    ]);
    assert_eq!(object.get("a"), Some(&JsonValue::Bool(true)));
    assert_eq!(object.get("b"), Some(&JsonValue::Text("x".to_string())));
    assert_eq!(object.get("c"), None);
    assert_eq!(object.get(""), None);
}

#[test]
fn get_finds_the_first_of_two_members_with_one_name() {
    let object = JsonValue::Object(vec![
        member("a", JsonValue::Number("1".to_string())),
        member("a", JsonValue::Number("2".to_string())),
    ]);
    assert_eq!(object.get("a"), Some(&JsonValue::Number("1".to_string())));
}

#[test]
fn get_finds_nothing_in_what_is_no_object() {
    assert_eq!(JsonValue::Null.get("a"), None);
    assert_eq!(JsonValue::Text("a".to_string()).get("a"), None);
    assert_eq!(JsonValue::Array(vec![JsonValue::Null]).get("0"), None);
    assert_eq!(JsonValue::Object(vec![]).get("a"), None);
}

#[test]
fn at_gives_the_element_of_an_array() {
    let array = JsonValue::Array(vec![JsonValue::Bool(false), JsonValue::Null]);
    assert_eq!(array.at(0), Some(&JsonValue::Bool(false)));
    assert_eq!(array.at(1), Some(&JsonValue::Null));
    assert_eq!(array.at(2), None);
    assert_eq!(JsonValue::Array(vec![]).at(0), None);
    assert_eq!(JsonValue::Object(vec![member("0", JsonValue::Null)]).at(0), None);
}

#[test]
fn leaves_are_read_by_their_kind_only() {
    let text = JsonValue::Text("word".to_string());
    assert_eq!(text.as_text(), Some(&"word".to_string()));
    assert_eq!(text.as_bool(), None);
    assert_eq!(text.as_array(), None);
    assert_eq!(JsonValue::Bool(true).as_bool(), Some(true));
    assert_eq!(JsonValue::Bool(true).as_text(), None);
    assert_eq!(JsonValue::Number("1".to_string()).as_text(), None);
    assert_eq!(JsonValue::Null.as_bool(), None);
    let array = JsonValue::Array(vec![JsonValue::Null]);
    assert_eq!(array.as_array(), Some(&vec![JsonValue::Null]));
}

#[test]
fn builders_make_single_entry_values() {
    assert_eq!(JsonValue::text("abc"), JsonValue::Text("abc".to_string()));
    assert_eq!(
        JsonValue::object_of("k", JsonValue::Null),
        JsonValue::Object(vec![member("k", JsonValue::Null)])
    );
    assert_eq!(
        JsonValue::array_of(JsonValue::Bool(true)),
        JsonValue::Array(vec![JsonValue::Bool(true)])
    );
}
