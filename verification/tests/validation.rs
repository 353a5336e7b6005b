use market_api::{validate, Field, FieldValue, RawInput};

fn raw(
    name: FieldValue,
    description: FieldValue,
    enable: FieldValue,
    long_order: FieldValue,
    short_order: FieldValue,
) -> RawInput {
    RawInput { name, description, enable, long_order, short_order }
}

fn s(text: &str) -> FieldValue {
    FieldValue::Str(text.to_string())
}

#[test]
fn missing_name_fails_with_name_tag() {
    let r = validate(&raw(
        FieldValue::Absent,
        s("d"),
        FieldValue::Bool(true),
        FieldValue::Bool(true),
        FieldValue::Bool(false),
    ));
    assert_eq!(r.unwrap_err(), Field::Name);
}

#[test]
fn missing_name_wins_over_missing_enable() {
    // Everything else invalid too: the failure must still name `name`.
    let r = validate(&raw(
        FieldValue::Absent,
        FieldValue::Absent,
        FieldValue::Absent,
        FieldValue::Other,
        FieldValue::Other,
    ));
    assert_eq!(r.unwrap_err(), Field::Name);
}

#[test]
fn non_string_name_fails() {
    let r = validate(&raw(
        FieldValue::Bool(true),
        s("d"),
        FieldValue::Bool(true),
        FieldValue::Absent,
        FieldValue::Absent,
    ));
    assert_eq!(r.unwrap_err(), Field::Name);
}

#[test]
fn empty_name_fails() {
    let r = validate(&raw(
        s(""),
        s("d"),
        FieldValue::Bool(true),
        FieldValue::Absent,
        FieldValue::Absent,
    ));
    assert_eq!(r.unwrap_err(), Field::Name);
}

#[test]
fn missing_description_fails_with_description_tag() {
    let r = validate(&raw(
        s("n"),
        FieldValue::Absent,
        FieldValue::Bool(true),
        FieldValue::Absent,
        FieldValue::Absent,
    ));
    assert_eq!(r.unwrap_err(), Field::Description);
}

#[test]
fn empty_description_fails() {
    let r = validate(&raw(s("n"), s(""), FieldValue::Bool(true), FieldValue::Absent, FieldValue::Absent));
    assert_eq!(r.unwrap_err(), Field::Description);
}

#[test]
fn missing_enable_fails_with_enable_tag() {
    let r = validate(&raw(s("n"), s("d"), FieldValue::Absent, FieldValue::Bool(true), FieldValue::Absent));
    assert_eq!(r.unwrap_err(), Field::Enable);
}

#[test]
fn non_boolean_enable_fails_with_enable_tag() {
    let r = validate(&raw(s("n"), s("d"), s("true"), FieldValue::Absent, FieldValue::Absent));
    assert_eq!(r.unwrap_err(), Field::Enable);
}

#[test]
fn valid_input_normalizes() {
    let m = validate(&raw(
        s("Bot1"),
        s("test"),
        FieldValue::Bool(true),
        FieldValue::Bool(false),
        FieldValue::Absent,
    ))
    .unwrap();
    assert_eq!(m.name, "Bot1");
    assert_eq!(m.description, "test");
    assert!(m.enable);
    assert_eq!(m.long_order, Some(false));
    assert_eq!(m.short_order, None);
}

#[test]
fn wrong_typed_optional_fields_are_silently_dropped() {
    let m = validate(&raw(s("n"), s("d"), FieldValue::Bool(false), s("1"), FieldValue::Other)).unwrap();
    assert!(!m.enable);
    assert_eq!(m.long_order, None);
    assert_eq!(m.short_order, None);
}

#[test]
fn field_tags_match_input_keys() {
    assert_eq!(Field::Name.tag(), "name");
    assert_eq!(Field::Description.tag(), "description");
    assert_eq!(Field::Enable.tag(), "enable");
}
