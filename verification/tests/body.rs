use gvm_mcp::body::{opt_bool, opt_string, Body};
use gvm_mcp::json::JsonValue;

#[test]
fn later_set_overrides_earlier_one() {
    let value = Body::new()
        .set("name", JsonValue::Str("first".into()))
        .set("comment", JsonValue::Str("kept".into()))
        .set("name", JsonValue::Str("second".into()))
        .into_value();
    assert_eq!(value.get("name"), Some(&JsonValue::Str("second".into())));
    assert_eq!(value.get("comment"), Some(&JsonValue::Str("kept".into())));
    assert_eq!(value.get("missing"), None);
}

#[test]
fn absent_optionals_are_omitted() {
    let value = Body::new()
        .set_opt("comment", opt_string(None))
        .set_opt("active", opt_bool(Some(false)))
        .into_value();
    assert_eq!(
        value,
        JsonValue::Object(vec![("active".to_string(), JsonValue::Bool(false))])
    );
}
