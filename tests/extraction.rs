use health_crab::json::{field_at, to_display_text, to_json_text, Json};
use health_crab::text::{chars_of, push_decimal, replace_text, split_text};

fn string_of(v: &[char]) -> String {
    v.iter().collect()
}

fn s(x: &str) -> String {
    x.to_string()
}

fn object(members: Vec<(String, Json)>, text: &str) -> Json {
    Json::Object { members, text: s(text) }
}

fn auth_doc() -> Json {
    object(
        vec![(
            s("auth"),
            object(vec![(s("token"), Json::Str(s("abc123")))], "{\"token\":\"abc123\"}"),
        )],
        "{\"auth\":{\"token\":\"abc123\"}}",
    )
}

#[test]
fn nested_path_reaches_value() {
    let doc = auth_doc();
    match field_at(&doc, "auth.token") {
        Some(Json::Str(t)) => assert_eq!(t, "abc123"),
        other => panic!("unexpected {:?}", other),
    }
}

#[test]
fn single_segment_is_direct_lookup() {
    let doc = object(vec![(s("id"), Json::Number(s("42")))], "{\"id\":42}");
    match field_at(&doc, "id") {
        Some(Json::Number(n)) => assert_eq!(n, "42"),
        other => panic!("unexpected {:?}", other),
    }
}

#[test]
fn missing_intermediate_key_is_null() {
    let doc = auth_doc();
    assert!(field_at(&doc, "user.token").is_none());
    assert!(field_at(&doc, "auth.missing").is_none());
}

#[test]
fn non_object_intermediate_is_null() {
    let doc = object(vec![(s("auth"), Json::Str(s("plain")))], "{\"auth\":\"plain\"}");
    assert!(field_at(&doc, "auth.token").is_none());
    let arr = Json::Array { items: vec![Json::Null], text: s("[null]") };
    assert!(field_at(&arr, "0").is_none());
}

#[test]
fn explicit_null_is_found_as_null() {
    let doc = object(vec![(s("a"), Json::Null)], "{\"a\":null}");
    assert!(matches!(field_at(&doc, "a"), Some(Json::Null)));
}

#[test]
fn json_text_of_values() {
    assert_eq!(to_json_text(&Json::Null), "null");
    assert_eq!(to_json_text(&Json::Bool(true)), "true");
    assert_eq!(to_json_text(&Json::Bool(false)), "false");
    assert_eq!(to_json_text(&Json::Number(s("-1.5e3"))), "-1.5e3");
    assert_eq!(to_json_text(&auth_doc()), "{\"auth\":{\"token\":\"abc123\"}}");
}

#[test]
fn json_text_escapes_control_characters() {
    let v = Json::Str(s("a\u{1}\t\\"));
    assert_eq!(to_json_text(&v), "\"a\\u0001\\t\\\\\"");
    let w = Json::Str(s("\u{1f}\u{7f}\u{8}\u{c}\r"));
    assert_eq!(to_json_text(&w), "\"\\u001f\u{7f}\\b\\f\\r\"");
}

#[test]
fn json_text_escapes_strings() {
    let v = Json::Str(s("say \"hi\"\n"));
    assert_eq!(to_json_text(&v), "\"say \\\"hi\\\"\\n\"");
}

#[test]
fn display_text_drops_quotes_of_strings_only() {
    assert_eq!(to_display_text(&Json::Str(s("abc123"))), "abc123");
    assert_eq!(to_display_text(&Json::Number(s("7"))), "7");
    assert_eq!(to_display_text(&Json::Array { items: vec![], text: s("[]") }), "[]");
    assert_eq!(to_display_text(&object(vec![], "{}")), "{}");
}

#[test]
fn replace_all_replaces_every_occurrence() {
    let v = chars_of("a{x}b{x}c");
    let pat = chars_of("{x}");
    let rep = chars_of("Z");
    assert_eq!(string_of(&replace_text(&v, &pat, &rep)), "aZbZc");
    let overl = chars_of("aaa");
    let pat2 = chars_of("aa");
    assert_eq!(string_of(&replace_text(&overl, &pat2, &rep)), "Za");
}

#[test]
fn split_keeps_empty_pieces() {
    assert_eq!(split_text("a.b.c", '.'), vec![s("a"), s("b"), s("c")]);
    assert_eq!(split_text("", '.'), vec![s("")]);
    assert_eq!(split_text(".a.", '.'), vec![s(""), s("a"), s("")]);
}

#[test]
fn decimal_digits() {
    let mut out = Vec::new();
    push_decimal(503, &mut out);
    assert_eq!(string_of(&out), "503");
    let mut zero = chars_of("x=");
    push_decimal(0, &mut zero);
    assert_eq!(string_of(&zero), "x=0");
    let mut big = Vec::new();
    push_decimal(u64::MAX, &mut big);
    assert_eq!(string_of(&big), u64::MAX.to_string());
}

