use responses_model::{DecodeError, MessageContent, Response, ResponseItem, ToolCall};
use serde_json::Value;

fn parse(text: &str) -> Value {
    serde_json::from_str(text).unwrap()
}

fn message(text: &str) -> ResponseItem {
    ResponseItem::Message {
        id: "m".to_string(),
        content: vec![MessageContent::OutputText {
            text: text.to_string(),
            annotations: vec![],
            logprobs: None,
        }],
        role: "assistant".to_string(),
        status: None,
    }
}

fn response(output: Vec<ResponseItem>) -> Response {
    Response {
        id: "resp_1".to_string(),
        model: "m1".to_string(),
        output,
        previous_response_id: None,
        created_at: 1_700_000_000,
        metadata: None,
    }
}

#[test]
fn output_text_skips_reasoning() {
    let r = response(vec![
        message("A"),
        ResponseItem::Reasoning { id: "r".to_string(), summary: vec![], status: None },
        message("B"),
    ]);
    assert_eq!(r.output_text(), "AB");
}

#[test]
fn output_text_includes_legacy_text_and_all_parts() {
    let r = response(vec![
        ResponseItem::Text { content: "x".to_string(), index: 0 },
        ResponseItem::Message {
            id: "m".to_string(),
            content: vec![
                MessageContent::OutputText { text: "y".to_string(), annotations: vec![], logprobs: None },
                MessageContent::OutputText { text: "z".to_string(), annotations: vec![], logprobs: None },
            ],
            role: "assistant".to_string(),
            status: Some("completed".to_string()),
        },
        ResponseItem::WebSearchCall { id: "w".to_string(), status: "done".to_string() },
    ]);
    assert_eq!(r.output_text(), "xyz");
}

#[test]
fn tool_calls_in_order() {
    let r = response(vec![
        ResponseItem::FunctionCall {
            id: "fc".to_string(),
            arguments: "{}".to_string(),
            call_id: "c1".to_string(),
            name: "f1".to_string(),
            status: "completed".to_string(),
        },
        message("hi"),
        ResponseItem::ToolCall(ToolCall {
            id: "c2".to_string(),
            name: "f2".to_string(),
            arguments: parse(r#"{"x":1}"#),
            index: 0,
        }),
    ]);
    let calls = r.tool_calls();
    assert_eq!(calls.len(), 2);
    assert_eq!(calls[0].name, "f1");
    assert_eq!(calls[0].arguments, "{}");
    assert_eq!(calls[0].call_id, "c1");
    assert_eq!(calls[1].name, "f2");
    assert_eq!(calls[1].arguments, "{\"x\":1}");
    assert_eq!(calls[1].call_id, "c2");
}

#[test]
fn empty_output() {
    let r = response(vec![]);
    assert_eq!(r.output_text(), "");
    assert!(r.tool_calls().is_empty());
}

#[test]
fn id_getter() {
    assert_eq!(response(vec![]).id(), "resp_1");
}

#[test]
fn unknown_kind_refused() {
    let v = parse(r#"{"type":"unknown_kind","id":"x"}"#);
    match ResponseItem::from_json(&v) {
        Err(DecodeError::UnknownType(t)) => assert_eq!(t, "unknown_kind"),
        _ => panic!("expected an unknown kind"),
    }
}

#[test]
fn unknown_content_kind_refused() {
    let v = parse(r#"{"type":"message","id":"m","role":"assistant","content":[{"type":"input_image"}]}"#);
    match ResponseItem::from_json(&v) {
        Err(DecodeError::UnknownType(t)) => assert_eq!(t, "input_image"),
        _ => panic!("expected an unknown content kind"),
    }
}

#[test]
fn decode_each_kind() {
    let cases = [
        r#"{"type":"message","id":"m","role":"assistant","content":[{"type":"output_text","text":"hi","annotations":[]}]}"#,
        r#"{"type":"reasoning","id":"r","summary":[{"a":1}]}"#,
        r#"{"type":"web_search_call","id":"w","status":"completed"}"#,
        r#"{"type":"file_search_call","id":"f","status":"completed"}"#,
        r#"{"type":"image_generation_call","id":"i","result":"QUJD","status":"completed"}"#,
        r#"{"type":"function_call","id":"fc","arguments":"{}","call_id":"c","name":"n","status":"completed"}"#,
        r#"{"type":"text","content":"t","index":3}"#,
        r#"{"type":"tool_call","id":"c","name":"n","arguments":{"k":[1,2]},"index":1}"#,
    ];
    let items: Vec<ResponseItem> = cases.iter().map(|c| ResponseItem::from_json(&parse(c)).ok().unwrap()).collect();
    assert!(matches!(&items[0], ResponseItem::Message { content, status: None, .. } if content.len() == 1));
    assert!(matches!(&items[1], ResponseItem::Reasoning { summary, .. } if summary.len() == 1));
    assert!(matches!(&items[2], ResponseItem::WebSearchCall { id, .. } if id == "w"));
    assert!(matches!(&items[3], ResponseItem::FileSearchCall { id, .. } if id == "f"));
    assert!(matches!(&items[4], ResponseItem::ImageGenerationCall { result, .. } if result == "QUJD"));
    assert!(matches!(&items[5], ResponseItem::FunctionCall { name, .. } if name == "n"));
    assert!(matches!(&items[6], ResponseItem::Text { index: 3, .. }));
    assert!(matches!(&items[7], ResponseItem::ToolCall(t) if t.arguments == parse(r#"{"k":[1,2]}"#)));
}

#[test]
fn decode_missing_and_invalid_members() {
    match ResponseItem::from_json(&parse(r#"{"type":"web_search_call","id":"w"}"#)) {
        Err(DecodeError::MissingField(k)) => assert_eq!(k, "status"),
        _ => panic!("expected a missing status"),
    }
    match ResponseItem::from_json(&parse(r#"{"type":"text","content":"t","index":4294967296}"#)) {
        Err(DecodeError::InvalidField(k)) => assert_eq!(k, "index"),
        _ => panic!("expected an index out of range"),
    }
    match ResponseItem::from_json(&parse(r#"{"id":"x"}"#)) {
        Err(DecodeError::MissingField(k)) => assert_eq!(k, "type"),
        _ => panic!("expected a missing type"),
    }
    assert!(matches!(ResponseItem::from_json(&parse("[]")), Err(DecodeError::WrongShape)));
}

#[test]
fn decode_response_and_extract() {
    let v = parse(
        r#"{"id":"resp_9","model":"m","created_at":1700000000,"previous_response_id":null,
            "output":[
              {"type":"reasoning","id":"r","summary":[]},
              {"type":"message","id":"m","role":"assistant","status":"completed",
               "content":[{"type":"output_text","text":"Hello","annotations":[],"logprobs":null}]},
              {"type":"tool_call","id":"c9","name":"g","arguments":{"q":"s"},"index":0}
            ],
            "metadata":{"k":"v"}}"#,
    );
    let r = Response::from_json(&v).ok().unwrap();
    assert_eq!(r.id(), "resp_9");
    assert_eq!(r.created_at, 1_700_000_000);
    assert!(r.previous_response_id.is_none());
    assert_eq!(r.metadata, Some(parse(r#"{"k":"v"}"#)));
    assert_eq!(r.output.len(), 3);
    assert_eq!(r.output_text(), "Hello");
    let calls = r.tool_calls();
    assert_eq!(calls.len(), 1);
    assert_eq!(calls[0].arguments, "{\"q\":\"s\"}");
    assert_eq!(calls[0].call_id, "c9");
}

#[test]
fn decode_response_timestamp_out_of_range() {
    let v = parse(r#"{"id":"r","model":"m","output":[],"created_at":9223372036854775807}"#);
    match Response::from_json(&v) {
        Err(DecodeError::InvalidField(k)) => assert_eq!(k, "created_at"),
        _ => panic!("expected an invalid timestamp"),
    }
    let v = parse(r#"{"id":"r","model":"m","output":[],"created_at":1.5}"#);
    assert!(matches!(Response::from_json(&v), Err(DecodeError::InvalidField(k)) if k == "created_at"));
}

#[test]
fn decode_response_item_failure_propagates() {
    let v = parse(r#"{"id":"r","model":"m","output":[{"type":"nope"}],"created_at":0}"#);
    assert!(matches!(Response::from_json(&v), Err(DecodeError::UnknownType(t)) if t == "nope"));
}

#[test]
fn encode_item_omits_absent_status() {
    let v = message("hi").to_json();
    assert_eq!(
        v,
        parse(r#"{"type":"message","id":"m","role":"assistant","content":[{"type":"output_text","text":"hi","annotations":[]}]}"#)
    );
    assert!(v.get("status").is_none());
}

#[test]
fn encode_legacy_items() {
    let t = ResponseItem::Text { content: "x".to_string(), index: 7 }.to_json();
    assert_eq!(t, parse(r#"{"type":"text","content":"x","index":7}"#));
    let c = ResponseItem::ToolCall(ToolCall {
        id: "c".to_string(),
        name: "n".to_string(),
        arguments: parse(r#"{"a":true}"#),
        index: 2,
    })
    .to_json();
    assert_eq!(c, parse(r#"{"type":"tool_call","id":"c","name":"n","arguments":{"a":true},"index":2}"#));
}

#[test]
fn response_round_trip() {
    let mut r = response(vec![
        message("A"),
        ResponseItem::FunctionCall {
            id: "fc".to_string(),
            arguments: "{}".to_string(),
            call_id: "c1".to_string(),
            name: "f1".to_string(),
            status: "completed".to_string(),
        },
        ResponseItem::ImageGenerationCall {
            id: "i".to_string(),
            result: "QUJD".to_string(),
            status: "completed".to_string(),
        },
    ]);
    r.previous_response_id = Some("prev".to_string());
    let v = r.to_json();
    assert_eq!(v.get("created_at"), Some(&parse("1700000000")));
    assert!(v.get("metadata").is_none());
    let back = Response::from_json(&v).ok().unwrap();
    assert_eq!(back.id, "resp_1");
    assert_eq!(back.model, "m1");
    assert_eq!(back.previous_response_id.as_deref(), Some("prev"));
    assert_eq!(back.created_at, 1_700_000_000);
    assert_eq!(back.output.len(), 3);
    assert_eq!(back.output_text(), "A");
    assert_eq!(back.tool_calls()[0].call_id, "c1");
    assert_eq!(back.to_json(), v);
}
