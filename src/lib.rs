//! Typed request and response items for a conversational model API, with a
//! verified wire codec over `serde_json::Value` and verified extraction of
//! the reply text and the tool invocations from a response.
pub mod item;
pub mod json;
pub mod request_wire;
pub mod response;
pub mod response_wire;
pub mod wire;

pub use item::{
    FunctionCallInfo, Input, InputItem, MessageContent, ResponseItem, ToolCall, ToolResult,
};
pub use response::Response;
pub use wire::DecodeError;
