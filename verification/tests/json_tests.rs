use blackroad::Json;

#[test]
fn scalars_render_as_json_text() {
    assert_eq!(Json::Null.to_text(), "null");
    assert_eq!(Json::Bool(true).to_text(), "true");
    assert_eq!(Json::Bool(false).to_text(), "false");
    assert_eq!(Json::Int(0).to_text(), "0");
    assert_eq!(Json::Int(42).to_text(), "42");
    assert_eq!(Json::Int(-42).to_text(), "-42");
    assert_eq!(Json::Int(i64::MAX).to_text(), "9223372036854775807");
    assert_eq!(Json::Int(i64::MIN).to_text(), "-9223372036854775808");
    assert_eq!(Json::Num(String::from("0.5")).to_text(), "0.5");
    assert_eq!(Json::Str(String::from("hi")).to_text(), "\"hi\"");
}

#[test]
fn strings_are_escaped() {
    let s = Json::Str(String::from("a\"b\\c\nd\re\tf"));
    assert_eq!(s.to_text(), "\"a\\\"b\\\\c\\nd\\re\\tf\"");
    let ctl = Json::Str(String::from("\u{1}"));
    assert_eq!(ctl.to_text(), "\"\\u0001\"");
    let ctl = Json::Str(String::from("\u{1f}"));
    assert_eq!(ctl.to_text(), "\"\\u001f\"");
}

#[test]
fn arrays_and_objects_render_in_order() {
    let arr = Json::Arr(vec![Json::Int(1), Json::Str(String::from("x")), Json::Null]);
    assert_eq!(arr.to_text(), "[1,\"x\",null]");
    let obj = Json::Obj(vec![
        (String::from("a"), Json::Int(1)),
        (String::from("b"), Json::Arr(vec![])),
        (String::from("c"), Json::Obj(vec![(String::from("d"), Json::Bool(false))])),
    ]);
    assert_eq!(obj.to_text(), "{\"a\":1,\"b\":[],\"c\":{\"d\":false}}");
}

#[test]
fn rendered_text_is_valid_json_for_a_real_parser() {
    let obj = Json::Obj(vec![
        (String::from("title"), Json::Str(String::from("quote \" and newline \n"))),
        (String::from("level"), Json::Int(-3)),
        (String::from("tags"), Json::Arr(vec![Json::Str(String::from("a,b"))])),
    ]);
    let parsed: serde_json::Value = serde_json::from_str(&obj.to_text()).unwrap();
    assert_eq!(
        parsed["title"],
        serde_json::Value::String(String::from("quote \" and newline \n"))
    );
    assert_eq!(parsed["level"], serde_json::Value::from(-3i64));
    assert_eq!(parsed["tags"][0], serde_json::Value::String(String::from("a,b")));
}
