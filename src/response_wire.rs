//! The response-side codec: response items are read from JSON objects by
//! their `type` discriminator, out of a closed set of kinds, and written back
//! the same way.
use crate::item::{
    contents_view, response_items_view, MessageContent, MessageContentView,
    ResponseItem, ResponseItemView, ToolCall, ToolCallView,
};
use crate::json::{
    array_value, as_array, clone_value, clone_values, get, i64_value, is_object, json_array,
    json_field, json_is_object, json_str, new_object, object_insert, object_value, str_member,
    string_value, u32_value,
};
use crate::response::{Response, ResponseView};
use crate::wire::{
    dec_opt_str, dec_opt_value, dec_req_str, dec_req_u32, dec_req_value, dec_timestamp,
    dec_values, lemma_prepend_done, lemma_prepend_empty, lemma_prepend_step, opt_not_null,
    prepend, read_opt_str, read_opt_value, read_req_str, read_req_u32, read_req_value,
    read_timestamp, read_values, tag_is, utc_seconds_valid, write_opt_str, write_opt_value,
    DecodeError, DecodeErrorView,
};
use vstd::prelude::*;
use vstd::string::*;

verus! {

/// What reading a message content part gives.
pub open spec fn decode_part(v: serde_json::Value) -> Result<MessageContentView, DecodeErrorView> {
    if !json_is_object(v) {
        Err(DecodeErrorView::WrongShape)
    } else {
        match dec_req_str(v, "type"@) {
            Err(e) => Err(e),
            Ok(t) => if t == "output_text"@ {
                match dec_req_str(v, "text"@) {
                    Err(e) => Err(e),
                    Ok(text) => match dec_values(v, "annotations"@) {
                        Err(e) => Err(e),
                        Ok(annotations) => Ok(
                            MessageContentView::OutputText {
                                text,
                                annotations,
                                logprobs: dec_opt_value(v, "logprobs"@),
                            },
                        ),
                    },
                }
            } else {
                Err(DecodeErrorView::UnknownType(t))
            },
        }
    }
}

/// What reading a list of content parts gives: the first failure, or every part.
pub open spec fn decode_parts(a: Seq<serde_json::Value>) -> Result<Seq<MessageContentView>, DecodeErrorView>
    decreases a.len(),
{
    if a.len() == 0 {
        Ok(Seq::empty())
    } else {
        match decode_part(a[0]) {
            Err(e) => Err(e),
            Ok(x) => match decode_parts(a.drop_first()) {
                Err(e) => Err(e),
                Ok(xs) => Ok(seq![x] + xs),
            },
        }
    }
}

/// A mandatory member that is an array of content parts.
pub open spec fn dec_parts(v: serde_json::Value, k: Seq<char>) -> Result<Seq<MessageContentView>, DecodeErrorView> {
    match json_field(v, k) {
        None => Err(DecodeErrorView::MissingField(k)),
        Some(x) => match json_array(x) {
            Some(a) => decode_parts(a),
            None => Err(DecodeErrorView::InvalidField(k)),
        },
    }
}

/// The members of a `message` item: `id`, `content` parts, `role`, optional `status`.
pub open spec fn decode_message(v: serde_json::Value) -> Result<ResponseItemView, DecodeErrorView> {
    match dec_req_str(v, "id"@) {
        Err(e) => Err(e),
        Ok(id) => match dec_parts(v, "content"@) {
            Err(e) => Err(e),
            Ok(content) => match dec_req_str(v, "role"@) {
                Err(e) => Err(e),
                Ok(role) => match dec_opt_str(v, "status"@) {
                    Err(e) => Err(e),
                    Ok(status) => Ok(ResponseItemView::Message { id, content, role, status }),
                },
            },
        },
    }
}

/// The members of a `reasoning` item: `id`, `summary` values, optional `status`.
pub open spec fn decode_reasoning(v: serde_json::Value) -> Result<ResponseItemView, DecodeErrorView> {
    match dec_req_str(v, "id"@) {
        Err(e) => Err(e),
        Ok(id) => match dec_values(v, "summary"@) {
            Err(e) => Err(e),
            Ok(summary) => match dec_opt_str(v, "status"@) {
                Err(e) => Err(e),
                Ok(status) => Ok(ResponseItemView::Reasoning { id, summary, status }),
            },
        },
    }
}

/// The `id` and `status` of a search call.
pub open spec fn decode_id_status(v: serde_json::Value) -> Result<(Seq<char>, Seq<char>), DecodeErrorView> {
    match dec_req_str(v, "id"@) {
        Err(e) => Err(e),
        Ok(id) => match dec_req_str(v, "status"@) {
            Err(e) => Err(e),
            Ok(status) => Ok((id, status)),
        },
    }
}

/// The members of an `image_generation_call` item: `id`, `result`, `status`.
pub open spec fn decode_image_generation(v: serde_json::Value) -> Result<ResponseItemView, DecodeErrorView> {
    match dec_req_str(v, "id"@) {
        Err(e) => Err(e),
        Ok(id) => match dec_req_str(v, "result"@) {
            Err(e) => Err(e),
            Ok(result) => match dec_req_str(v, "status"@) {
                Err(e) => Err(e),
                Ok(status) => Ok(ResponseItemView::ImageGenerationCall { id, result, status }),
            },
        },
    }
}

/// The members of a `function_call` item: `id`, `arguments`, `call_id`, `name`, `status`.
pub open spec fn decode_function_call(v: serde_json::Value) -> Result<ResponseItemView, DecodeErrorView> {
    match dec_req_str(v, "id"@) {
        Err(e) => Err(e),
        Ok(id) => match dec_req_str(v, "arguments"@) {
            Err(e) => Err(e),
            Ok(arguments) => match dec_req_str(v, "call_id"@) {
                Err(e) => Err(e),
                Ok(call_id) => match dec_req_str(v, "name"@) {
                    Err(e) => Err(e),
                    Ok(name) => match dec_req_str(v, "status"@) {
                        Err(e) => Err(e),
                        Ok(status) => Ok(ResponseItemView::FunctionCall { id, arguments, call_id, name, status }),
                    },
                },
            },
        },
    }
}

/// The members of a legacy `text` item: `content` and `index`.
pub open spec fn decode_text(v: serde_json::Value) -> Result<ResponseItemView, DecodeErrorView> {
    match dec_req_str(v, "content"@) {
        Err(e) => Err(e),
        Ok(content) => match dec_req_u32(v, "index"@) {
            Err(e) => Err(e),
            Ok(index) => Ok(ResponseItemView::Text { content, index }),
        },
    }
}

/// The members of a legacy `tool_call` item: `id`, `name`, `arguments`, `index`.
pub open spec fn decode_tool_call(v: serde_json::Value) -> Result<ToolCallView, DecodeErrorView> {
    match dec_req_str(v, "id"@) {
        Err(e) => Err(e),
        Ok(id) => match dec_req_str(v, "name"@) {
            Err(e) => Err(e),
            Ok(name) => match dec_req_value(v, "arguments"@) {
                Err(e) => Err(e),
                Ok(arguments) => match dec_req_u32(v, "index"@) {
                    Err(e) => Err(e),
                    Ok(index) => Ok(ToolCallView { id, name, arguments, index }),
                },
            },
        },
    }
}

/// The discriminators of the closed set of response item kinds.
pub open spec fn is_item_kind(t: Seq<char>) -> bool {
    t == "message"@ || t == "reasoning"@ || t == "web_search_call"@ || t == "file_search_call"@
        || t == "image_generation_call"@ || t == "function_call"@ || t == "text"@ || t == "tool_call"@
}

/// What reading a response item gives: its `type` selects the kind, whose
/// members are then read; a `type` outside the closed set is refused.
pub open spec fn decode_response_item(v: serde_json::Value) -> Result<ResponseItemView, DecodeErrorView> {
    if !json_is_object(v) {
        Err(DecodeErrorView::WrongShape)
    } else {
        match dec_req_str(v, "type"@) {
            Err(e) => Err(e),
            Ok(t) => if t == "message"@ {
                decode_message(v)
            } else if t == "reasoning"@ {
                decode_reasoning(v)
            } else if t == "web_search_call"@ {
                match decode_id_status(v) {
                    Err(e) => Err(e),
                    Ok((id, status)) => Ok(ResponseItemView::WebSearchCall { id, status }),
                }
            } else if t == "file_search_call"@ {
                match decode_id_status(v) {
                    Err(e) => Err(e),
                    Ok((id, status)) => Ok(ResponseItemView::FileSearchCall { id, status }),
                }
            } else if t == "image_generation_call"@ {
                decode_image_generation(v)
            } else if t == "function_call"@ {
                decode_function_call(v)
            } else if t == "text"@ {
                decode_text(v)
            } else if t == "tool_call"@ {
                match decode_tool_call(v) {
                    Err(e) => Err(e),
                    Ok(c) => Ok(ResponseItemView::ToolCall(c)),
                }
            } else {
                Err(DecodeErrorView::UnknownType(t))
            },
        }
    }
}

/// What reading a list of response items gives: the first failure, or every item.
pub open spec fn decode_response_items(a: Seq<serde_json::Value>) -> Result<Seq<ResponseItemView>, DecodeErrorView>
    decreases a.len(),
{
    if a.len() == 0 {
        Ok(Seq::empty())
    } else {
        match decode_response_item(a[0]) {
            Err(e) => Err(e),
            Ok(x) => match decode_response_items(a.drop_first()) {
                Err(e) => Err(e),
                Ok(xs) => Ok(seq![x] + xs),
            },
        }
    }
}

/// What reading a response gives.
pub open spec fn decode_response(v: serde_json::Value) -> Result<ResponseView, DecodeErrorView> {
    if !json_is_object(v) {
        Err(DecodeErrorView::WrongShape)
    } else {
        match dec_req_str(v, "id"@) {
            Err(e) => Err(e),
            Ok(id) => match dec_req_str(v, "model"@) {
                Err(e) => Err(e),
                Ok(model) => match json_field(v, "output"@) {
                    None => Err(DecodeErrorView::MissingField("output"@)),
                    Some(x) => match json_array(x) {
                        None => Err(DecodeErrorView::InvalidField("output"@)),
                        Some(a) => match decode_response_items(a) {
                            Err(e) => Err(e),
                            Ok(output) => match dec_opt_str(v, "previous_response_id"@) {
                                Err(e) => Err(e),
                                Ok(previous_response_id) => match dec_timestamp(v, "created_at"@) {
                                    Err(e) => Err(e),
                                    Ok(created_at) => Ok(
                                        ResponseView {
                                            id,
                                            model,
                                            output,
                                            previous_response_id,
                                            created_at,
                                            metadata: dec_opt_value(v, "metadata"@),
                                        },
                                    ),
                                },
                            },
                        },
                    },
                },
            },
        }
    }
}

/// A response item whose `type` names no kind of the closed set is refused
/// with that discriminator; no placeholder item is produced.
pub proof fn lemma_unknown_kind_refused(v: serde_json::Value, t: Seq<char>)
    requires
        json_is_object(v),
        str_member(v, "type"@, t),
        !is_item_kind(t),
    ensures
        decode_response_item(v) == Err::<ResponseItemView, DecodeErrorView>(DecodeErrorView::UnknownType(t)),
{
}

fn read_parts(v: &serde_json::Value, key: &str) -> (r: Result<Vec<MessageContent>, DecodeError>)
    ensures
        match r {
            Ok(x) => dec_parts(*v, key@) == Ok::<Seq<MessageContentView>, DecodeErrorView>(contents_view(x@)),
            Err(e) => dec_parts(*v, key@) == Err::<Seq<MessageContentView>, DecodeErrorView>(e@),
        },
{
    let a = match get(v, key) {
        None => return Err(DecodeError::MissingField(String::from_str(key))),
        Some(x) => match as_array(x) {
            Some(a) => a,
            None => return Err(DecodeError::InvalidField(String::from_str(key))),
        },
    };
    let mut out: Vec<MessageContent> = Vec::new();
    let mut i: usize = 0;
    proof {
        lemma_prepend_empty(decode_parts(a@));
        assert(a@.subrange(0, a@.len() as int) =~= a@);
        assert(contents_view(out@) =~= Seq::<MessageContentView>::empty());
    }
    while i < a.len()
        invariant
            i <= a@.len(),
            dec_parts(*v, key@) == decode_parts(a@),
            decode_parts(a@) == prepend(contents_view(out@), decode_parts(a@.subrange(i as int, a@.len() as int))),
        decreases a@.len() - i,
    {
        let ghost before = out@;
        let ghost rest = a@.subrange(i as int, a@.len() as int);
        proof {
            assert(rest.drop_first() =~= a@.subrange(i + 1, a@.len() as int));
            assert(rest[0] == a@[i as int]);
        }
        match MessageContent::from_json(&a[i]) {
            Ok(x) => {
                out.push(x);
                proof {
                    lemma_prepend_step(contents_view(before), out@.last()@, decode_parts(rest.drop_first()));
                    assert(contents_view(out@) =~= contents_view(before).push(out@.last()@));
                }
            },
            Err(e) => {
                return Err(e);
            },
        }
        i = i + 1;
    }
    proof {
        assert(a@.subrange(i as int, a@.len() as int) =~= Seq::<serde_json::Value>::empty());
        lemma_prepend_done(contents_view(out@));
    }
    Ok(out)
}

fn read_message(v: &serde_json::Value) -> (r: Result<ResponseItem, DecodeError>)
    ensures
        match r {
            Ok(x) => decode_message(*v) == Ok::<ResponseItemView, DecodeErrorView>(x@),
            Err(e) => decode_message(*v) == Err::<ResponseItemView, DecodeErrorView>(e@),
        },
{
    let id = match read_req_str(v, "id") {
        Ok(x) => x,
        Err(e) => return Err(e),
    };
    let content = match read_parts(v, "content") {
        Ok(x) => x,
        Err(e) => return Err(e),
    };
    let role = match read_req_str(v, "role") {
        Ok(x) => x,
        Err(e) => return Err(e),
    };
    let status = match read_opt_str(v, "status") {
        Ok(x) => x,
        Err(e) => return Err(e),
    };
    Ok(ResponseItem::Message { id, content, role, status })
}

fn read_reasoning(v: &serde_json::Value) -> (r: Result<ResponseItem, DecodeError>)
    ensures
        match r {
            Ok(x) => decode_reasoning(*v) == Ok::<ResponseItemView, DecodeErrorView>(x@),
            Err(e) => decode_reasoning(*v) == Err::<ResponseItemView, DecodeErrorView>(e@),
        },
{
    let id = match read_req_str(v, "id") {
        Ok(x) => x,
        Err(e) => return Err(e),
    };
    let summary = match read_values(v, "summary") {
        Ok(x) => x,
        Err(e) => return Err(e),
    };
    let status = match read_opt_str(v, "status") {
        Ok(x) => x,
        Err(e) => return Err(e),
    };
    Ok(ResponseItem::Reasoning { id, summary, status })
}

fn read_id_status(v: &serde_json::Value) -> (r: Result<(String, String), DecodeError>)
    ensures
        match r {
            Ok(x) => decode_id_status(*v) == Ok::<(Seq<char>, Seq<char>), DecodeErrorView>((x.0@, x.1@)),
            Err(e) => decode_id_status(*v) == Err::<(Seq<char>, Seq<char>), DecodeErrorView>(e@),
        },
{
    let id = match read_req_str(v, "id") {
        Ok(x) => x,
        Err(e) => return Err(e),
    };
    let status = match read_req_str(v, "status") {
        Ok(x) => x,
        Err(e) => return Err(e),
    };
    Ok((id, status))
}

fn read_image_generation(v: &serde_json::Value) -> (r: Result<ResponseItem, DecodeError>)
    ensures
        match r {
            Ok(x) => decode_image_generation(*v) == Ok::<ResponseItemView, DecodeErrorView>(x@),
            Err(e) => decode_image_generation(*v) == Err::<ResponseItemView, DecodeErrorView>(e@),
        },
{
    let id = match read_req_str(v, "id") {
        Ok(x) => x,
        Err(e) => return Err(e),
    };
    let result = match read_req_str(v, "result") {
        Ok(x) => x,
        Err(e) => return Err(e),
    };
    let status = match read_req_str(v, "status") {
        Ok(x) => x,
        Err(e) => return Err(e),
    };
    Ok(ResponseItem::ImageGenerationCall { id, result, status })
}

fn read_function_call(v: &serde_json::Value) -> (r: Result<ResponseItem, DecodeError>)
    ensures
        match r {
            Ok(x) => decode_function_call(*v) == Ok::<ResponseItemView, DecodeErrorView>(x@),
            Err(e) => decode_function_call(*v) == Err::<ResponseItemView, DecodeErrorView>(e@),
        },
{
    let id = match read_req_str(v, "id") {
        Ok(x) => x,
        Err(e) => return Err(e),
    };
    let arguments = match read_req_str(v, "arguments") {
        Ok(x) => x,
        Err(e) => return Err(e),
    };
    let call_id = match read_req_str(v, "call_id") {
        Ok(x) => x,
        Err(e) => return Err(e),
    };
    let name = match read_req_str(v, "name") {
        Ok(x) => x,
        Err(e) => return Err(e),
    };
    let status = match read_req_str(v, "status") {
        Ok(x) => x,
        Err(e) => return Err(e),
    };
    Ok(ResponseItem::FunctionCall { id, arguments, call_id, name, status })
}

fn read_text(v: &serde_json::Value) -> (r: Result<ResponseItem, DecodeError>)
    ensures
        match r {
            Ok(x) => decode_text(*v) == Ok::<ResponseItemView, DecodeErrorView>(x@),
            Err(e) => decode_text(*v) == Err::<ResponseItemView, DecodeErrorView>(e@),
        },
{
    let content = match read_req_str(v, "content") {
        Ok(x) => x,
        Err(e) => return Err(e),
    };
    let index = match read_req_u32(v, "index") {
        Ok(x) => x,
        Err(e) => return Err(e),
    };
    Ok(ResponseItem::Text { content, index })
}

fn read_tool_call(v: &serde_json::Value) -> (r: Result<ToolCall, DecodeError>)
    ensures
        match r {
            Ok(x) => decode_tool_call(*v) == Ok::<ToolCallView, DecodeErrorView>(x@),
            Err(e) => decode_tool_call(*v) == Err::<ToolCallView, DecodeErrorView>(e@),
        },
{
    let id = match read_req_str(v, "id") {
        Ok(x) => x,
        Err(e) => return Err(e),
    };
    let name = match read_req_str(v, "name") {
        Ok(x) => x,
        Err(e) => return Err(e),
    };
    let arguments = match read_req_value(v, "arguments") {
        Ok(x) => x,
        Err(e) => return Err(e),
    };
    let index = match read_req_u32(v, "index") {
        Ok(x) => x,
        Err(e) => return Err(e),
    };
    Ok(ToolCall { id, name, arguments, index })
}


impl MessageContent {
    /// Reads a content part from a JSON object by its `type`; only
    /// `output_text` is a known kind.
    pub fn from_json(v: &serde_json::Value) -> (r: Result<MessageContent, DecodeError>)
        ensures
            match r {
                Ok(x) => decode_part(*v) == Ok::<MessageContentView, DecodeErrorView>(x@),
                Err(e) => decode_part(*v) == Err::<MessageContentView, DecodeErrorView>(e@),
            },
    {
        if !is_object(v) {
            return Err(DecodeError::WrongShape);
        }
        let t = match read_req_str(v, "type") {
            Ok(x) => x,
            Err(e) => return Err(e),
        };
        if tag_is(&t, "output_text") {
            let text = match read_req_str(v, "text") {
                Ok(x) => x,
                Err(e) => return Err(e),
            };
            let annotations = match read_values(v, "annotations") {
                Ok(x) => x,
                Err(e) => return Err(e),
            };
            Ok(MessageContent::OutputText { text, annotations, logprobs: read_opt_value(v, "logprobs") })
        } else {
            Err(DecodeError::UnknownType(t))
        }
    }
}

impl ResponseItem {
    /// Reads a response item from a JSON object: its `type` selects one kind
    /// of the closed set, whose members are then read. A `type` outside the
    /// set is refused with `UnknownType`, never read as a placeholder.
    pub fn from_json(v: &serde_json::Value) -> (r: Result<ResponseItem, DecodeError>)
        ensures
            match r {
                Ok(x) => decode_response_item(*v) == Ok::<ResponseItemView, DecodeErrorView>(x@),
                Err(e) => decode_response_item(*v) == Err::<ResponseItemView, DecodeErrorView>(e@),
            },
    {
        if !is_object(v) {
            return Err(DecodeError::WrongShape);
        }
        let t = match read_req_str(v, "type") {
            Ok(x) => x,
            Err(e) => return Err(e),
        };
        if tag_is(&t, "message") {
            read_message(v)
        } else if tag_is(&t, "reasoning") {
            read_reasoning(v)
        } else if tag_is(&t, "web_search_call") {
            match read_id_status(v) {
                Ok((id, status)) => Ok(ResponseItem::WebSearchCall { id, status }),
                Err(e) => Err(e),
            }
        } else if tag_is(&t, "file_search_call") {
            match read_id_status(v) {
                Ok((id, status)) => Ok(ResponseItem::FileSearchCall { id, status }),
                Err(e) => Err(e),
            }
        } else if tag_is(&t, "image_generation_call") {
            read_image_generation(v)
        } else if tag_is(&t, "function_call") {
            read_function_call(v)
        } else if tag_is(&t, "text") {
            read_text(v)
        } else if tag_is(&t, "tool_call") {
            match read_tool_call(v) {
                Ok(c) => Ok(ResponseItem::ToolCall(c)),
                Err(e) => Err(e),
            }
        } else {
            Err(DecodeError::UnknownType(t))
        }
    }
}

impl Response {
    /// Reads a response from a JSON object: `id`, `model`, the `output`
    /// items in order (the first failing item gives the error), an optional
    /// `previous_response_id`, `created_at` in seconds since the epoch, and
    /// optional `metadata`.
    pub fn from_json(v: &serde_json::Value) -> (r: Result<Response, DecodeError>)
        ensures
            match r {
                Ok(x) => decode_response(*v) == Ok::<ResponseView, DecodeErrorView>(x@),
                Err(e) => decode_response(*v) == Err::<ResponseView, DecodeErrorView>(e@),
            },
    {
        if !is_object(v) {
            return Err(DecodeError::WrongShape);
        }
        let id = match read_req_str(v, "id") {
            Ok(x) => x,
            Err(e) => return Err(e),
        };
        let model = match read_req_str(v, "model") {
            Ok(x) => x,
            Err(e) => return Err(e),
        };
        let a = match get(v, "output") {
            None => return Err(DecodeError::MissingField(String::from_str("output"))),
            Some(x) => match as_array(x) {
                Some(a) => a,
                None => return Err(DecodeError::InvalidField(String::from_str("output"))),
            },
        };
        let mut output: Vec<ResponseItem> = Vec::new();
        let mut i: usize = 0;
        proof {
            lemma_prepend_empty(decode_response_items(a@));
            assert(a@.subrange(0, a@.len() as int) =~= a@);
            assert(response_items_view(output@) =~= Seq::<ResponseItemView>::empty());
        }
        while i < a.len()
            invariant
                i <= a@.len(),
                json_is_object(*v),
                dec_req_str(*v, "id"@) == Ok::<Seq<char>, DecodeErrorView>(id@),
                dec_req_str(*v, "model"@) == Ok::<Seq<char>, DecodeErrorView>(model@),
                json_field(*v, "output"@) matches Some(x) && json_array(x) == Some(a@),
                decode_response_items(a@) == prepend(
                    response_items_view(output@),
                    decode_response_items(a@.subrange(i as int, a@.len() as int)),
                ),
            decreases a@.len() - i,
        {
            let ghost before = output@;
            let ghost rest = a@.subrange(i as int, a@.len() as int);
            proof {
                assert(rest.drop_first() =~= a@.subrange(i + 1, a@.len() as int));
                assert(rest[0] == a@[i as int]);
            }
            match ResponseItem::from_json(&a[i]) {
                Ok(x) => {
                    output.push(x);
                    proof {
                        lemma_prepend_step(
                            response_items_view(before),
                            output@.last()@,
                            decode_response_items(rest.drop_first()),
                        );
                        assert(response_items_view(output@) =~= response_items_view(before).push(output@.last()@));
                    }
                },
                Err(e) => {
                    return Err(e);
                },
            }
            i = i + 1;
        }
        proof {
            assert(a@.subrange(i as int, a@.len() as int) =~= Seq::<serde_json::Value>::empty());
            lemma_prepend_done(response_items_view(output@));
        }
        let previous_response_id = match read_opt_str(v, "previous_response_id") {
            Ok(x) => x,
            Err(e) => return Err(e),
        };
        let created_at = match read_timestamp(v, "created_at") {
            Ok(x) => x,
            Err(e) => return Err(e),
        };
        Ok(
            Response {
                id,
                model,
                output,
                previous_response_id,
                created_at,
                metadata: read_opt_value(v, "metadata"),
            },
        )
    }
}



/// A content part whose encoding reads back as itself.
pub open spec fn part_writable(c: MessageContentView) -> bool {
    match c {
        MessageContentView::OutputText { logprobs, .. } => opt_not_null(logprobs),
    }
}

/// A response item whose encoding reads back as itself.
pub open spec fn item_writable(x: ResponseItemView) -> bool {
    match x {
        ResponseItemView::Message { content, .. } => forall|j: int|
            0 <= j < content.len() ==> part_writable(#[trigger] content[j]),
        _ => true,
    }
}

/// The discriminator under which a response item is written.
pub open spec fn kind_of(x: ResponseItemView) -> Seq<char> {
    match x {
        ResponseItemView::Message { .. } => "message"@,
        ResponseItemView::Reasoning { .. } => "reasoning"@,
        ResponseItemView::WebSearchCall { .. } => "web_search_call"@,
        ResponseItemView::FileSearchCall { .. } => "file_search_call"@,
        ResponseItemView::ImageGenerationCall { .. } => "image_generation_call"@,
        ResponseItemView::FunctionCall { .. } => "function_call"@,
        ResponseItemView::Text { .. } => "text"@,
        ResponseItemView::ToolCall(_) => "tool_call"@,
    }
}

proof fn lemma_parts_decode(a: Seq<serde_json::Value>, xs: Seq<MessageContentView>)
    requires
        a.len() == xs.len(),
        forall|j: int| 0 <= j < a.len() ==> decode_part(#[trigger] a[j]) == Ok::<MessageContentView, DecodeErrorView>(xs[j]),
    ensures
        decode_parts(a) == Ok::<Seq<MessageContentView>, DecodeErrorView>(xs),
    decreases a.len(),
{
    if a.len() == 0 {
        assert(xs =~= Seq::<MessageContentView>::empty());
    } else {
        assert forall|j: int| 0 <= j < a.drop_first().len() implies decode_part(#[trigger] a.drop_first()[j])
            == Ok::<MessageContentView, DecodeErrorView>(xs.drop_first()[j]) by {
            assert(a.drop_first()[j] == a[j + 1]);
        }
        lemma_parts_decode(a.drop_first(), xs.drop_first());
        assert(seq![xs[0]] + xs.drop_first() =~= xs);
    }
}

proof fn lemma_response_items_decode(a: Seq<serde_json::Value>, xs: Seq<ResponseItemView>)
    requires
        a.len() == xs.len(),
        forall|j: int| 0 <= j < a.len() ==> decode_response_item(#[trigger] a[j]) == Ok::<ResponseItemView, DecodeErrorView>(xs[j]),
    ensures
        decode_response_items(a) == Ok::<Seq<ResponseItemView>, DecodeErrorView>(xs),
    decreases a.len(),
{
    if a.len() == 0 {
        assert(xs =~= Seq::<ResponseItemView>::empty());
    } else {
        assert forall|j: int| 0 <= j < a.drop_first().len() implies decode_response_item(#[trigger] a.drop_first()[j])
            == Ok::<ResponseItemView, DecodeErrorView>(xs.drop_first()[j]) by {
            assert(a.drop_first()[j] == a[j + 1]);
        }
        lemma_response_items_decode(a.drop_first(), xs.drop_first());
        assert(seq![xs[0]] + xs.drop_first() =~= xs);
    }
}

fn write_parts(content: &Vec<MessageContent>) -> (r: serde_json::Value)
    ensures
        json_array(r) is Some,
        json_str(r) is None,
        (forall|j: int| 0 <= j < content@.len() ==> part_writable(#[trigger] content@[j]@))
            ==> decode_parts(json_array(r)->Some_0) == Ok::<Seq<MessageContentView>, DecodeErrorView>(contents_view(content@)),
{
    let mut out: Vec<serde_json::Value> = Vec::new();
    let mut i: usize = 0;
    while i < content.len()
        invariant
            i <= content@.len(),
            out@.len() == i,
            forall|j: int| 0 <= j < i ==> part_writable(content@[j]@)
                ==> decode_part(#[trigger] out@[j]) == Ok::<MessageContentView, DecodeErrorView>(content@[j]@),
        decreases content@.len() - i,
    {
        out.push(content[i].to_json());
        i = i + 1;
    }
    proof {
        if forall|j: int| 0 <= j < content@.len() ==> part_writable(#[trigger] content@[j]@) {
            lemma_parts_decode(out@, contents_view(content@));
        }
    }
    array_value(out)
}

/// A response whose encoding reads back as itself: every item is, its
/// metadata is not JSON `null`, and chrono can represent its creation time.
pub open spec fn response_writable(x: ResponseView) -> bool {
    &&& forall|j: int| 0 <= j < x.output.len() ==> item_writable(#[trigger] x.output[j])
    &&& opt_not_null(x.metadata)
    &&& utc_seconds_valid(x.created_at)
}

impl MessageContent {
    /// The part as a JSON object under `type` `output_text`; `logprobs` is
    /// left out when absent.
    pub fn to_json(&self) -> (r: serde_json::Value)
        ensures
            json_is_object(r),
            str_member(r, "type"@, "output_text"@),
            part_writable(self@) ==> decode_part(r) == Ok::<MessageContentView, DecodeErrorView>(self@),
    {
        match self {
            MessageContent::OutputText { text, annotations, logprobs } => {
                let mut m = new_object();
                object_insert(&mut m, String::from_str("type"), string_value(String::from_str("output_text")));
                object_insert(&mut m, String::from_str("text"), string_value(text.clone()));
                object_insert(&mut m, String::from_str("annotations"), array_value(clone_values(annotations)));
                write_opt_value(&mut m, "logprobs", logprobs);
                proof {
                    reveal_strlit("type");
                    reveal_strlit("text");
                    reveal_strlit("annotations");
                    reveal_strlit("logprobs");
                    assert("type"@[1] != "text"@[1]);
                    assert("annotations"@.len() != "logprobs"@.len());
                }
                object_value(m)
            },
        }
    }
}

impl ResponseItem {
    /// The item as a JSON object: its discriminator under `type`, then its
    /// members; an absent `status` is left out.
    pub fn to_json(&self) -> (r: serde_json::Value)
        ensures
            json_is_object(r),
            str_member(r, "type"@, kind_of(self@)),
            item_writable(self@) ==> decode_response_item(r) == Ok::<ResponseItemView, DecodeErrorView>(self@),
    {
        proof {
            reveal_strlit("type");
            assert("type"@.len() == 4);
            reveal_strlit("id");
            assert("id"@.len() == 2);
            reveal_strlit("content");
            assert("content"@.len() == 7);
            reveal_strlit("role");
            assert("role"@.len() == 4);
            reveal_strlit("status");
            assert("status"@.len() == 6);
            reveal_strlit("summary");
            assert("summary"@.len() == 7);
            reveal_strlit("result");
            assert("result"@.len() == 6);
            reveal_strlit("arguments");
            assert("arguments"@.len() == 9);
            reveal_strlit("call_id");
            assert("call_id"@.len() == 7);
            reveal_strlit("name");
            assert("name"@.len() == 4);
            reveal_strlit("text");
            assert("text"@.len() == 4);
            reveal_strlit("index");
            assert("index"@.len() == 5);
            assert("type"@[0] != "role"@[0]);
            assert("type"@[0] != "name"@[0]);
            assert("type"@[1] != "text"@[1]);
            assert("status"@[0] != "result"@[0]);
            assert("content"@[0] != "summary"@[0]);
            assert("content"@[1] != "call_id"@[1]);
            assert("summary"@[0] != "call_id"@[0]);
            assert("role"@[0] != "name"@[0]);
            reveal_strlit("message");
            assert("message"@.len() == 7);
            reveal_strlit("reasoning");
            assert("reasoning"@.len() == 9);
            reveal_strlit("web_search_call");
            assert("web_search_call"@.len() == 15);
            reveal_strlit("file_search_call");
            assert("file_search_call"@.len() == 16);
            reveal_strlit("image_generation_call");
            assert("image_generation_call"@.len() == 21);
            reveal_strlit("function_call");
            assert("function_call"@.len() == 13);
            reveal_strlit("tool_call");
            assert("tool_call"@.len() == 9);
            assert("reasoning"@[0] != "tool_call"@[0]);
        }
        let mut m = new_object();
        match self {
            ResponseItem::Message { id, content, role, status } => {
                proof {
                    if item_writable(self@) {
                        assert forall|j: int| 0 <= j < content@.len() implies part_writable(#[trigger] content@[j]@) by {
                            assert(self@ matches ResponseItemView::Message { content: cv, .. } && cv == contents_view(content@));
                            assert(contents_view(content@)[j] == content@[j]@);
                            assert(part_writable(contents_view(content@)[j]));
                        }
                    }
                }
                object_insert(&mut m, String::from_str("type"), string_value(String::from_str("message")));
                object_insert(&mut m, String::from_str("id"), string_value(id.clone()));
                object_insert(&mut m, String::from_str("content"), write_parts(content));
                object_insert(&mut m, String::from_str("role"), string_value(role.clone()));
                write_opt_str(&mut m, "status", status);
                object_value(m)
            },
            ResponseItem::Reasoning { id, summary, status } => {
                object_insert(&mut m, String::from_str("type"), string_value(String::from_str("reasoning")));
                object_insert(&mut m, String::from_str("id"), string_value(id.clone()));
                object_insert(&mut m, String::from_str("summary"), array_value(clone_values(summary)));
                write_opt_str(&mut m, "status", status);
                object_value(m)
            },
            ResponseItem::WebSearchCall { id, status } => {
                object_insert(&mut m, String::from_str("type"), string_value(String::from_str("web_search_call")));
                object_insert(&mut m, String::from_str("id"), string_value(id.clone()));
                object_insert(&mut m, String::from_str("status"), string_value(status.clone()));
                object_value(m)
            },
            ResponseItem::FileSearchCall { id, status } => {
                object_insert(&mut m, String::from_str("type"), string_value(String::from_str("file_search_call")));
                object_insert(&mut m, String::from_str("id"), string_value(id.clone()));
                object_insert(&mut m, String::from_str("status"), string_value(status.clone()));
                object_value(m)
            },
            ResponseItem::ImageGenerationCall { id, result, status } => {
                object_insert(&mut m, String::from_str("type"), string_value(String::from_str("image_generation_call")));
                object_insert(&mut m, String::from_str("id"), string_value(id.clone()));
                object_insert(&mut m, String::from_str("result"), string_value(result.clone()));
                object_insert(&mut m, String::from_str("status"), string_value(status.clone()));
                object_value(m)
            },
            ResponseItem::FunctionCall { id, arguments, call_id, name, status } => {
                object_insert(&mut m, String::from_str("type"), string_value(String::from_str("function_call")));
                object_insert(&mut m, String::from_str("id"), string_value(id.clone()));
                object_insert(&mut m, String::from_str("arguments"), string_value(arguments.clone()));
                object_insert(&mut m, String::from_str("call_id"), string_value(call_id.clone()));
                object_insert(&mut m, String::from_str("name"), string_value(name.clone()));
                object_insert(&mut m, String::from_str("status"), string_value(status.clone()));
                object_value(m)
            },
            ResponseItem::Text { content, index } => {
                object_insert(&mut m, String::from_str("type"), string_value(String::from_str("text")));
                object_insert(&mut m, String::from_str("content"), string_value(content.clone()));
                object_insert(&mut m, String::from_str("index"), u32_value(*index));
                object_value(m)
            },
            ResponseItem::ToolCall(t) => {
                object_insert(&mut m, String::from_str("type"), string_value(String::from_str("tool_call")));
                object_insert(&mut m, String::from_str("id"), string_value(t.id.clone()));
                object_insert(&mut m, String::from_str("name"), string_value(t.name.clone()));
                object_insert(&mut m, String::from_str("arguments"), clone_value(&t.arguments));
                object_insert(&mut m, String::from_str("index"), u32_value(t.index));
                object_value(m)
            },
        }
    }
}


impl Response {
    /// The response as a JSON object; `created_at` is written as seconds
    /// since the epoch, and absent optional members are left out.
    pub fn to_json(&self) -> (r: serde_json::Value)
        ensures
            json_is_object(r),
            response_writable(self@) ==> decode_response(r) == Ok::<ResponseView, DecodeErrorView>(self@),
    {
        let mut items: Vec<serde_json::Value> = Vec::new();
        let mut i: usize = 0;
        while i < self.output.len()
            invariant
                i <= self.output@.len(),
                items@.len() == i,
                forall|j: int| 0 <= j < i ==> item_writable(self.output@[j]@)
                    ==> decode_response_item(#[trigger] items@[j]) == Ok::<ResponseItemView, DecodeErrorView>(self.output@[j]@),
            decreases self.output@.len() - i,
        {
            items.push(self.output[i].to_json());
            i = i + 1;
        }
        proof {
            if response_writable(self@) {
                assert forall|j: int| 0 <= j < items@.len() implies decode_response_item(#[trigger] items@[j])
                    == Ok::<ResponseItemView, DecodeErrorView>(response_items_view(self.output@)[j]) by {
                    assert(response_items_view(self.output@)[j] == self.output@[j]@);
                    assert(item_writable(self@.output[j]));
                }
                lemma_response_items_decode(items@, response_items_view(self.output@));
            }
        }
        let mut m = new_object();
        object_insert(&mut m, String::from_str("id"), string_value(self.id.clone()));
        object_insert(&mut m, String::from_str("model"), string_value(self.model.clone()));
        object_insert(&mut m, String::from_str("output"), array_value(items));
        write_opt_str(&mut m, "previous_response_id", &self.previous_response_id);
        object_insert(&mut m, String::from_str("created_at"), i64_value(self.created_at));
        write_opt_value(&mut m, "metadata", &self.metadata);
        proof {
            reveal_strlit("id");
            assert("id"@.len() == 2);
            reveal_strlit("model");
            assert("model"@.len() == 5);
            reveal_strlit("output");
            assert("output"@.len() == 6);
            reveal_strlit("previous_response_id");
            assert("previous_response_id"@.len() == 20);
            reveal_strlit("created_at");
            assert("created_at"@.len() == 10);
            reveal_strlit("metadata");
            assert("metadata"@.len() == 8);
        }
        object_value(m)
    }
}

} // verus!
