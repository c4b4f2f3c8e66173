//! A response and the two views derived from its items: the reply text and
//! the tool invocations.
use crate::item::{
    opt_view, response_items_view, FunctionCallInfo, FunctionCallView, MessageContent, ResponseItem,
    ResponseItemView,
};
use crate::json::{json_text, to_json_text};
use vstd::prelude::*;
use vstd::string::*;

verus! {

/// A server response: its items in emission order, with identity and metadata.
pub struct Response {
    pub id: String,
    pub model: String,
    pub output: Vec<ResponseItem>,
    pub previous_response_id: Option<String>,
    /// Creation time, in seconds since the Unix epoch.
    pub created_at: i64,
    pub metadata: Option<serde_json::Value>,
}

/// The mathematical value of a `Response`.
pub struct ResponseView {
    pub id: Seq<char>,
    pub model: Seq<char>,
    pub output: Seq<ResponseItemView>,
    pub previous_response_id: Option<Seq<char>>,
    pub created_at: i64,
    pub metadata: Option<serde_json::Value>,
}

impl View for Response {
    type V = ResponseView;

    open spec fn view(&self) -> ResponseView {
        ResponseView {
            id: self.id@,
            model: self.model@,
            output: response_items_view(self.output@),
            previous_response_id: opt_view(self.previous_response_id),
            created_at: self.created_at,
            metadata: self.metadata,
        }
    }
}

/// The text a content part contributes.
pub open spec fn part_text(c: MessageContent) -> Seq<char> {
    match c {
        MessageContent::OutputText { text, .. } => text@,
    }
}

/// The texts of content parts, concatenated in order.
pub open spec fn parts_text(cs: Seq<MessageContent>) -> Seq<char>
    decreases cs.len(),
{
    if cs.len() == 0 {
        Seq::empty()
    } else {
        parts_text(cs.drop_last()) + part_text(cs.last())
    }
}

/// The text an item contributes: a message its parts, a legacy text item
/// its content, any other item nothing.
pub open spec fn item_text(i: ResponseItem) -> Seq<char> {
    match i {
        ResponseItem::Message { content, .. } => parts_text(content@),
        ResponseItem::Text { content, .. } => content@,
        _ => Seq::empty(),
    }
}

/// The reply text of a sequence of items: their contributions, in order,
/// with no separator.
pub open spec fn output_text_of(items: Seq<ResponseItem>) -> Seq<char>
    decreases items.len(),
{
    if items.len() == 0 {
        Seq::empty()
    } else {
        output_text_of(items.drop_last()) + item_text(items.last())
    }
}

/// The tool invocation an item stands for, if any. A legacy tool call's
/// arguments are given as their JSON text.
pub open spec fn item_call(i: ResponseItem) -> Option<FunctionCallView> {
    match i {
        ResponseItem::FunctionCall { name, arguments, call_id, .. } => Some(
            FunctionCallView { name: name@, arguments: arguments@, call_id: call_id@ },
        ),
        ResponseItem::ToolCall(t) => Some(
            FunctionCallView { name: t.name@, arguments: json_text(t.arguments), call_id: t.id@ },
        ),
        _ => None,
    }
}

/// The tool invocations of a sequence of items, in order.
pub open spec fn tool_calls_of(items: Seq<ResponseItem>) -> Seq<FunctionCallView>
    decreases items.len(),
{
    if items.len() == 0 {
        Seq::empty()
    } else {
        let rest = tool_calls_of(items.drop_last());
        match item_call(items.last()) {
            Some(c) => rest.push(c),
            None => rest,
        }
    }
}

/// The values of a sequence of tool invocations.
pub open spec fn calls_view(cs: Seq<FunctionCallInfo>) -> Seq<FunctionCallView> {
    cs.map_values(|c: FunctionCallInfo| c@)
}

/// Reply text is order-preserving: the text of two runs of items, one after
/// the other, is the text of the first run followed by that of the second.
pub proof fn lemma_output_text_append(a: Seq<ResponseItem>, b: Seq<ResponseItem>)
    ensures
        output_text_of(a + b) == output_text_of(a) + output_text_of(b),
    decreases b.len(),
{
    if b.len() == 0 {
        assert(a + b =~= a);
        assert(output_text_of(a) + output_text_of(b) =~= output_text_of(a));
    } else {
        lemma_output_text_append(a, b.drop_last());
        assert((a + b).drop_last() =~= a + b.drop_last());
        assert((a + b).last() == b.last());
        assert(output_text_of(a + b) =~= output_text_of(a) + output_text_of(b));
    }
}

/// Tool invocations keep emission order: the invocations of two runs of
/// items, one after the other, are those of the first run followed by those
/// of the second.
pub proof fn lemma_tool_calls_append(a: Seq<ResponseItem>, b: Seq<ResponseItem>)
    ensures
        tool_calls_of(a + b) == tool_calls_of(a) + tool_calls_of(b),
    decreases b.len(),
{
    if b.len() == 0 {
        assert(a + b =~= a);
        assert(tool_calls_of(a) + tool_calls_of(b) =~= tool_calls_of(a));
    } else {
        lemma_tool_calls_append(a, b.drop_last());
        assert((a + b).drop_last() =~= a + b.drop_last());
        assert((a + b).last() == b.last());
        assert(tool_calls_of(a + b) =~= tool_calls_of(a) + tool_calls_of(b));
    }
}

/// A response with no items has empty reply text and no tool invocations.
pub proof fn lemma_empty_output(r: Response)
    requires
        r.output@.len() == 0,
    ensures
        output_text_of(r.output@) == Seq::<char>::empty(),
        tool_calls_of(r.output@) == Seq::<FunctionCallView>::empty(),
{
}

fn message_text(content: &Vec<MessageContent>, out: &mut String)
    ensures
        final(out)@ == old(out)@ + parts_text(content@),
{
    let mut i: usize = 0;
    while i < content.len()
        invariant
            i <= content@.len(),
            out@ == old(out)@ + parts_text(content@.subrange(0, i as int)),
        decreases content@.len() - i,
    {
        assert(content@.subrange(0, i + 1).drop_last() =~= content@.subrange(0, i as int));
        match &content[i] {
            MessageContent::OutputText { text, .. } => {
                out.append(text.as_str());
            },
        }
        i = i + 1;
    }
    assert(content@.subrange(0, i as int) =~= content@);
}

impl Response {
    /// The response's identifier.
    pub fn id(&self) -> (r: &str)
        ensures
            r@ == self.id@,
    {
        self.id.as_str()
    }

    /// The reply text: every message's text parts and every legacy text item,
    /// concatenated in emission order; other items contribute nothing.
    pub fn output_text(&self) -> (r: String)
        ensures
            r@ == output_text_of(self.output@),
    {
        let mut out = String::new();
        let mut i: usize = 0;
        while i < self.output.len()
            invariant
                i <= self.output@.len(),
                out@ == output_text_of(self.output@.subrange(0, i as int)),
            decreases self.output@.len() - i,
        {
            assert(self.output@.subrange(0, i + 1).drop_last() =~= self.output@.subrange(0, i as int));
            match &self.output[i] {
                ResponseItem::Message { content, .. } => {
                    message_text(content, &mut out);
                },
                ResponseItem::Text { content, .. } => {
                    out.append(content.as_str());
                },
                _ => {},
            }
            i = i + 1;
        }
        assert(self.output@.subrange(0, i as int) =~= self.output@);
        out
    }

    /// The tool invocations, in emission order: each function call as it is,
    /// and each legacy tool call with its arguments written as JSON text and
    /// its id as the call id.
    pub fn tool_calls(&self) -> (r: Vec<FunctionCallInfo>)
        ensures
            calls_view(r@) == tool_calls_of(self.output@),
    {
        let mut out: Vec<FunctionCallInfo> = Vec::new();
        let mut i: usize = 0;
        while i < self.output.len()
            invariant
                i <= self.output@.len(),
                calls_view(out@) == tool_calls_of(self.output@.subrange(0, i as int)),
            decreases self.output@.len() - i,
        {
            assert(self.output@.subrange(0, i + 1).drop_last() =~= self.output@.subrange(0, i as int));
            let ghost before = out@;
            match &self.output[i] {
                ResponseItem::FunctionCall { name, arguments, call_id, .. } => {
                    out.push(
                        FunctionCallInfo {
                            name: name.clone(),
                            arguments: arguments.clone(),
                            call_id: call_id.clone(),
                        },
                    );
                    assert(calls_view(out@) =~= calls_view(before).push(out@.last()@));
                },
                ResponseItem::ToolCall(t) => {
                    out.push(
                        FunctionCallInfo {
                            name: t.name.clone(),
                            arguments: to_json_text(&t.arguments),
                            call_id: t.id.clone(),
                        },
                    );
                    assert(calls_view(out@) =~= calls_view(before).push(out@.last()@));
                },
                _ => {},
            }
            i = i + 1;
        }
        assert(self.output@.subrange(0, i as int) =~= self.output@);
        out
    }
}

} // verus!
