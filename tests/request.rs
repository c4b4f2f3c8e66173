use responses_model::{DecodeError, Input, InputItem};
use serde_json::Value;

fn parse(text: &str) -> Value {
    serde_json::from_str(text).unwrap()
}

fn keys(v: &Value) -> Vec<String> {
    v.as_object().unwrap().keys().cloned().collect()
}

fn same_item(a: &InputItem, b: &InputItem) -> bool {
    a.item_type == b.item_type
        && a.content == b.content
        && a.call_id == b.call_id
        && a.output == b.output
        && a.image_url == b.image_url
        && a.detail == b.detail
        && a.role == b.role
        && a.text == b.text
}

#[test]
fn text_factory_fills_content_only() {
    let item = InputItem::text("hello");
    assert_eq!(item.item_type, "text");
    assert_eq!(item.content, Some(Value::String("hello".to_string())));
    assert!(item.call_id.is_none() && item.output.is_none() && item.image_url.is_none());
    assert!(item.detail.is_none() && item.role.is_none() && item.text.is_none());
}

#[test]
fn function_call_output_factory() {
    let item = InputItem::function_call_output("call_1", "42");
    assert_eq!(item.item_type, "function_call_output");
    assert_eq!(item.call_id.as_deref(), Some("call_1"));
    assert_eq!(item.output.as_deref(), Some("42"));
    assert!(item.content.is_none() && item.role.is_none());
}

#[test]
fn image_url_factory_uses_auto_detail() {
    let item = InputItem::image_url("https://example.com/a.png");
    assert_eq!(item.item_type, "input_image");
    assert_eq!(item.image_url.as_deref(), Some("https://example.com/a.png"));
    assert_eq!(item.detail.as_deref(), Some("auto"));
    assert!(item.content.is_none());
}

#[test]
fn message_factory_wraps_parts_in_array() {
    let parts = vec![InputItem::content_text("hi"), InputItem::content_image("u")];
    let item = InputItem::message("user", parts.clone());
    assert_eq!(item.item_type, "message");
    assert_eq!(item.role.as_deref(), Some("user"));
    assert_eq!(item.content, Some(Value::Array(parts)));
}

#[test]
fn content_parts_shape() {
    assert_eq!(
        InputItem::content_text("hi"),
        parse(r#"{"type":"input_text","text":"hi"}"#)
    );
    assert_eq!(
        InputItem::content_image("u"),
        parse(r#"{"type":"input_image","image_url":"u"}"#)
    );
}

#[test]
fn encoding_omits_absent_fields() {
    let v = InputItem::function_call_output("c", "o").to_json();
    let mut k = keys(&v);
    k.sort();
    assert_eq!(k, vec!["call_id", "output", "type"]);
    assert!(v.get("content").is_none());
    assert!(v.get("role").is_none());
    assert_eq!(v, parse(r#"{"type":"function_call_output","call_id":"c","output":"o"}"#));
}

#[test]
fn encoding_text_item() {
    let v = InputItem::text("hello").to_json();
    assert_eq!(v, parse(r#"{"type":"text","content":"hello"}"#));
}

#[test]
fn round_trip_every_factory() {
    let items = vec![
        InputItem::text("hello"),
        InputItem::function_call_output("c1", "done"),
        InputItem::image_url("https://x/y.png"),
        InputItem::message("user", vec![InputItem::content_text("hi")]),
    ];
    for item in &items {
        let back = InputItem::from_json(&item.to_json()).ok().unwrap();
        assert!(same_item(item, &back));
    }
}

#[test]
fn decoding_null_field_is_absent() {
    let item = InputItem::from_json(&parse(r#"{"type":"text","role":null,"extra":1}"#)).ok().unwrap();
    assert_eq!(item.item_type, "text");
    assert!(item.role.is_none());
}

#[test]
fn decoding_item_errors() {
    assert!(matches!(InputItem::from_json(&parse("3")), Err(DecodeError::WrongShape)));
    match InputItem::from_json(&parse(r#"{"role":"user"}"#)) {
        Err(DecodeError::MissingField(k)) => assert_eq!(k, "type"),
        _ => panic!("expected a missing type"),
    }
    match InputItem::from_json(&parse(r#"{"type":"text","call_id":5}"#)) {
        Err(DecodeError::InvalidField(k)) => assert_eq!(k, "call_id"),
        _ => panic!("expected an invalid call_id"),
    }
}

#[test]
fn input_text_is_bare_string() {
    let v = Input::Text("hello".to_string()).to_json();
    assert_eq!(v, Value::String("hello".to_string()));
    match Input::from_json(&v) {
        Ok(Input::Text(s)) => assert_eq!(s, "hello"),
        _ => panic!("expected text"),
    }
}

#[test]
fn input_items_is_array() {
    let input = Input::Items(vec![InputItem::text("a"), InputItem::function_call_output("c", "o")]);
    let v = input.to_json();
    assert!(v.is_array());
    assert_eq!(v.as_array().unwrap().len(), 2);
    match Input::from_json(&v) {
        Ok(Input::Items(items)) => {
            assert_eq!(items.len(), 2);
            assert_eq!(items[0].item_type, "text");
            assert_eq!(items[1].call_id.as_deref(), Some("c"));
        }
        _ => panic!("expected items"),
    }
}

#[test]
fn input_empty_items_round_trip() {
    let v = Input::Items(vec![]).to_json();
    assert_eq!(v, parse("[]"));
    assert!(matches!(Input::from_json(&v), Ok(Input::Items(items)) if items.is_empty()));
}

#[test]
fn input_other_shape_refused() {
    assert!(matches!(Input::from_json(&parse("{}")), Err(DecodeError::WrongShape)));
    assert!(matches!(Input::from_json(&parse("[1]")), Err(DecodeError::WrongShape)));
}
