//! The request items a client builds and the response items a server emits.
use crate::json::{
    array_value, json_array, json_field, json_is_null, json_is_object, json_str, new_object, object_insert,
    object_value, str_member, string_value,
};
use vstd::prelude::*;
use vstd::string::*;

verus! {

/// A request payload: one text, or an ordered list of items.
pub enum Input {
    Text(String),
    Items(Vec<InputItem>),
}

/// One request item. The record is flat: `item_type` tells which of the
/// optional fields are meaningful, and the factories fill only those.
pub struct InputItem {
    pub item_type: String,
    pub content: Option<serde_json::Value>,
    pub call_id: Option<String>,
    pub output: Option<String>,
    pub image_url: Option<String>,
    pub detail: Option<String>,
    pub role: Option<String>,
    pub text: Option<String>,
}

/// The mathematical value of an `InputItem`.
pub struct InputItemView {
    pub item_type: Seq<char>,
    pub content: Option<serde_json::Value>,
    pub call_id: Option<Seq<char>>,
    pub output: Option<Seq<char>>,
    pub image_url: Option<Seq<char>>,
    pub detail: Option<Seq<char>>,
    pub role: Option<Seq<char>>,
    pub text: Option<Seq<char>>,
}

/// The value of an optional string.
pub open spec fn opt_view(o: Option<String>) -> Option<Seq<char>> {
    match o {
        Some(s) => Some(s@),
        None => None,
    }
}

impl View for InputItem {
    type V = InputItemView;

    open spec fn view(&self) -> InputItemView {
        InputItemView {
            item_type: self.item_type@,
            content: self.content,
            call_id: opt_view(self.call_id),
            output: opt_view(self.output),
            image_url: opt_view(self.image_url),
            detail: opt_view(self.detail),
            role: opt_view(self.role),
            text: opt_view(self.text),
        }
    }
}

/// The mathematical value of an `Input`.
pub enum InputView {
    Text(Seq<char>),
    Items(Seq<InputItemView>),
}

/// The values of a sequence of request items.
pub open spec fn items_view(items: Seq<InputItem>) -> Seq<InputItemView> {
    items.map_values(|x: InputItem| x@)
}

impl View for Input {
    type V = InputView;

    open spec fn view(&self) -> InputView {
        match self {
            Input::Text(s) => InputView::Text(s@),
            Input::Items(items) => InputView::Items(items_view(items@)),
        }
    }
}

impl InputItem {
    /// A plain text item: `content` holds the text as a JSON string.
    pub fn text(content: &str) -> (r: InputItem)
        ensures
            r.item_type@ == "text"@,
            r.content matches Some(c) && json_str(c) == Some(content@) && !json_is_null(c),
            r.call_id is None,
            r.output is None,
            r.image_url is None,
            r.detail is None,
            r.role is None,
            r.text is None,
    {
        InputItem {
            item_type: String::from_str("text"),
            content: Some(string_value(String::from_str(content))),
            call_id: None,
            output: None,
            image_url: None,
            detail: None,
            role: None,
            text: None,
        }
    }

    /// The result of a tool invocation, sent back under the invocation's call id.
    pub fn function_call_output(call_id: &str, output: &str) -> (r: InputItem)
        ensures
            r.item_type@ == "function_call_output"@,
            r.content is None,
            opt_view(r.call_id) == Some(call_id@),
            opt_view(r.output) == Some(output@),
            r.image_url is None,
            r.detail is None,
            r.role is None,
            r.text is None,
    {
        InputItem {
            item_type: String::from_str("function_call_output"),
            content: None,
            call_id: Some(String::from_str(call_id)),
            output: Some(String::from_str(output)),
            image_url: None,
            detail: None,
            role: None,
            text: None,
        }
    }

    /// An image given by URL, at the automatic detail level.
    pub fn image_url(url: &str) -> (r: InputItem)
        ensures
            r.item_type@ == "input_image"@,
            r.content is None,
            r.call_id is None,
            r.output is None,
            opt_view(r.image_url) == Some(url@),
            opt_view(r.detail) == Some("auto"@),
            r.role is None,
            r.text is None,
    {
        InputItem {
            item_type: String::from_str("input_image"),
            content: None,
            call_id: None,
            output: None,
            image_url: Some(String::from_str(url)),
            detail: Some(String::from_str("auto")),
            role: None,
            text: None,
        }
    }

    /// A message from `role` whose content is the given parts, as a JSON array.
    pub fn message(role: &str, content: Vec<serde_json::Value>) -> (r: InputItem)
        ensures
            r.item_type@ == "message"@,
            r.content matches Some(c) && json_array(c) == Some(content@) && !json_is_null(c),
            r.call_id is None,
            r.output is None,
            r.image_url is None,
            r.detail is None,
            opt_view(r.role) == Some(role@),
            r.text is None,
    {
        InputItem {
            item_type: String::from_str("message"),
            content: Some(array_value(content)),
            call_id: None,
            output: None,
            image_url: None,
            detail: None,
            role: Some(String::from_str(role)),
            text: None,
        }
    }

    /// A message content part that shows an image: `{"type": "input_image", "image_url": url}`.
    pub fn content_image(url: &str) -> (r: serde_json::Value)
        ensures
            json_is_object(r),
            str_member(r, "type"@, "input_image"@),
            str_member(r, "image_url"@, url@),
            forall|k: Seq<char>| #[trigger]
                json_field(r, k) is Some ==> k == "type"@ || k == "image_url"@,
    {
        let mut m = new_object();
        object_insert(&mut m, String::from_str("type"), string_value(String::from_str("input_image")));
        object_insert(&mut m, String::from_str("image_url"), string_value(String::from_str(url)));
        proof {
            reveal_strlit("type");
            reveal_strlit("image_url");
            assert("type"@.len() != "image_url"@.len());
        }
        object_value(m)
    }

    /// A message content part that holds text: `{"type": "input_text", "text": text}`.
    pub fn content_text(text: &str) -> (r: serde_json::Value)
        ensures
            json_is_object(r),
            str_member(r, "type"@, "input_text"@),
            str_member(r, "text"@, text@),
            forall|k: Seq<char>| #[trigger]
                json_field(r, k) is Some ==> k == "type"@ || k == "text"@,
    {
        let mut m = new_object();
        object_insert(&mut m, String::from_str("type"), string_value(String::from_str("input_text")));
        object_insert(&mut m, String::from_str("text"), string_value(String::from_str(text)));
        proof {
            reveal_strlit("type");
            reveal_strlit("text");
            assert("type"@[1] != "text"@[1]);
        }
        object_value(m)
    }
}

/// One item a response emits. The set of kinds is closed: a payload whose
/// `type` is none of these does not decode.
#[allow(inconsistent_fields)]
pub enum ResponseItem {
    Message { id: String, content: Vec<MessageContent>, role: String, status: Option<String> },
    Reasoning { id: String, summary: Vec<serde_json::Value>, status: Option<String> },
    WebSearchCall { id: String, status: String },
    FileSearchCall { id: String, status: String },
    ImageGenerationCall { id: String, result: String, status: String },
    FunctionCall { id: String, arguments: String, call_id: String, name: String, status: String },
    /// A text item of the earlier API.
    Text { content: String, index: u32 },
    /// A tool invocation of the earlier API.
    ToolCall(ToolCall),
}

/// One content part of a message.
pub enum MessageContent {
    OutputText {
        text: String,
        annotations: Vec<serde_json::Value>,
        logprobs: Option<serde_json::Value>,
    },
}

/// A tool invocation in the earlier API's shape: its arguments are already
/// structured rather than raw text.
pub struct ToolCall {
    pub id: String,
    pub name: String,
    pub arguments: serde_json::Value,
    pub index: u32,
}

/// The result of running a tool, addressed to the invocation it answers.
pub struct ToolResult {
    pub tool_call_id: String,
    pub result: serde_json::Value,
}

/// One tool invocation in a single shape, whichever kind of item it came from.
pub struct FunctionCallInfo {
    pub name: String,
    pub arguments: String,
    pub call_id: String,
}

/// The mathematical value of a `MessageContent`.
pub enum MessageContentView {
    OutputText { text: Seq<char>, annotations: Seq<serde_json::Value>, logprobs: Option<serde_json::Value> },
}

impl View for MessageContent {
    type V = MessageContentView;

    open spec fn view(&self) -> MessageContentView {
        match self {
            MessageContent::OutputText { text, annotations, logprobs } => MessageContentView::OutputText {
                text: text@,
                annotations: annotations@,
                logprobs: *logprobs,
            },
        }
    }
}

/// The values of a sequence of content parts.
pub open spec fn contents_view(cs: Seq<MessageContent>) -> Seq<MessageContentView> {
    cs.map_values(|c: MessageContent| c@)
}

/// The mathematical value of a `ToolCall`.
pub struct ToolCallView {
    pub id: Seq<char>,
    pub name: Seq<char>,
    pub arguments: serde_json::Value,
    pub index: u32,
}

impl View for ToolCall {
    type V = ToolCallView;

    open spec fn view(&self) -> ToolCallView {
        ToolCallView { id: self.id@, name: self.name@, arguments: self.arguments, index: self.index }
    }
}

/// The mathematical value of a `ResponseItem`.
#[allow(inconsistent_fields)]
pub enum ResponseItemView {
    Message { id: Seq<char>, content: Seq<MessageContentView>, role: Seq<char>, status: Option<Seq<char>> },
    Reasoning { id: Seq<char>, summary: Seq<serde_json::Value>, status: Option<Seq<char>> },
    WebSearchCall { id: Seq<char>, status: Seq<char> },
    FileSearchCall { id: Seq<char>, status: Seq<char> },
    ImageGenerationCall { id: Seq<char>, result: Seq<char>, status: Seq<char> },
    FunctionCall { id: Seq<char>, arguments: Seq<char>, call_id: Seq<char>, name: Seq<char>, status: Seq<char> },
    Text { content: Seq<char>, index: u32 },
    ToolCall(ToolCallView),
}

impl View for ResponseItem {
    type V = ResponseItemView;

    open spec fn view(&self) -> ResponseItemView {
        match self {
            ResponseItem::Message { id, content, role, status } => ResponseItemView::Message {
                id: id@,
                content: contents_view(content@),
                role: role@,
                status: opt_view(*status),
            },
            ResponseItem::Reasoning { id, summary, status } => ResponseItemView::Reasoning {
                id: id@,
                summary: summary@,
                status: opt_view(*status),
            },
            ResponseItem::WebSearchCall { id, status } => ResponseItemView::WebSearchCall {
                id: id@,
                status: status@,
            },
            ResponseItem::FileSearchCall { id, status } => ResponseItemView::FileSearchCall {
                id: id@,
                status: status@,
            },
            ResponseItem::ImageGenerationCall { id, result, status } => ResponseItemView::ImageGenerationCall {
                id: id@,
                result: result@,
                status: status@,
            },
            ResponseItem::FunctionCall { id, arguments, call_id, name, status } => ResponseItemView::FunctionCall {
                id: id@,
                arguments: arguments@,
                call_id: call_id@,
                name: name@,
                status: status@,
            },
            ResponseItem::Text { content, index } => ResponseItemView::Text { content: content@, index: *index },
            ResponseItem::ToolCall(t) => ResponseItemView::ToolCall(t@),
        }
    }
}

/// The values of a sequence of response items.
pub open spec fn response_items_view(items: Seq<ResponseItem>) -> Seq<ResponseItemView> {
    items.map_values(|i: ResponseItem| i@)
}

/// The mathematical value of a `FunctionCallInfo`.
pub struct FunctionCallView {
    pub name: Seq<char>,
    pub arguments: Seq<char>,
    pub call_id: Seq<char>,
}

impl View for FunctionCallInfo {
    type V = FunctionCallView;

    open spec fn view(&self) -> FunctionCallView {
        FunctionCallView { name: self.name@, arguments: self.arguments@, call_id: self.call_id@ }
    }
}

} // verus!
