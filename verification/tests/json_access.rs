use edu_ical::json::{Json, Member};

fn text(s: &str) -> Json {
    Json::Str(s.to_string())
}

fn object(members: Vec<(&str, Json)>) -> Json {
    Json::Object(
        members
            .into_iter()
            .map(|(key, value)| Member { key: key.to_string(), value })
            .collect(),
    )
}

#[test]
fn get_finds_first_member_of_that_name() {
    let value = object(vec![("a", text("1")), ("b", text("2")), ("a", text("3"))]);
    assert_eq!(value.get("a"), Some(&text("1")));
    assert_eq!(value.get("b"), Some(&text("2")));
    assert_eq!(value.get("c"), None);
}

#[test]
fn get_finds_nothing_in_what_is_no_object() {
    assert_eq!(Json::Null.get("a"), None);
    assert_eq!(text("a").get("a"), None);
    assert_eq!(Json::Array(vec![text("a")]).get("a"), None);
    assert_eq!(Json::Bool(true).get("a"), None);
    assert_eq!(Json::Number("1".to_string()).get("a"), None);
}

#[test]
fn at_reaches_the_elements_of_an_array_only() {
    let array = Json::Array(vec![text("x"), text("y")]);
    assert_eq!(array.at(0), Some(&text("x")));
    assert_eq!(array.at(1), Some(&text("y")));
    assert_eq!(array.at(2), None);
    assert_eq!(Json::Array(vec![]).at(0), None);
    assert_eq!(object(vec![("0", text("x"))]).at(0), None);
}

#[test]
fn as_str_is_for_strings_only() {
    assert_eq!(text("abc").as_str(), Some("abc"));
    assert_eq!(text("").as_str(), Some(""));
    assert_eq!(Json::Number("12".to_string()).as_str(), None);
    assert_eq!(Json::Null.as_str(), None);
    assert_eq!(Json::Array(vec![]).as_str(), None);
}

#[test]
fn as_array_is_for_arrays_only() {
    let items = vec![text("x"), Json::Null];
    assert_eq!(Json::Array(vec![text("x"), Json::Null]).as_array(), Some(&items));
    assert_eq!(text("x").as_array(), None);
    assert_eq!(object(vec![]).as_array(), None);
}

#[test]
fn str_at_wants_a_string_under_the_key() {
    let value = object(vec![("id", text("c1")), ("n", Json::Number("5".to_string()))]);
    assert_eq!(value.str_at("id"), Some("c1"));
    assert_eq!(value.str_at("n"), None);
    assert_eq!(value.str_at("missing"), None);
    // the first member of the name decides, whatever follows it
    let shadowed = object(vec![("id", Json::Null), ("id", text("late"))]);
    assert_eq!(shadowed.str_at("id"), None);
}
