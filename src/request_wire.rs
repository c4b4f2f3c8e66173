//! The request-side codec: request items are written as JSON objects that
//! carry only their present fields, and a payload takes the minimal shape.
use crate::item::{items_view, Input, InputItem, InputItemView, InputView};
use crate::json::{
    array_value, as_array, as_str, clone_value, is_object, json_array, json_field, json_is_null,
    json_is_object, json_str, new_object, object_insert, object_value, str_member, string_value,
};
use crate::wire::{
    dec_opt_str, dec_opt_value, dec_req_str, read_opt_str, read_opt_value, read_req_str,
    str_member_opt, write_opt_str, DecodeError, DecodeErrorView,
};
use vstd::prelude::*;
use vstd::string::*;

verus! {

/// The members an encoded request item may carry.
pub open spec fn is_item_key(k: Seq<char>) -> bool {
    k == "type"@ || k == "content"@ || k == "call_id"@ || k == "output"@ || k == "image_url"@
        || k == "detail"@ || k == "role"@ || k == "text"@
}

/// `v` is the encoding of request item `i`: an object holding the
/// discriminator and exactly the fields present in `i`.
pub open spec fn encodes_item(i: InputItemView, v: serde_json::Value) -> bool {
    &&& json_is_object(v)
    &&& str_member(v, "type"@, i.item_type)
    &&& match i.content {
        None => json_field(v, "content"@) is None,
        Some(c) => json_field(v, "content"@) == Some(c),
    }
    &&& str_member_opt(v, "call_id"@, i.call_id)
    &&& str_member_opt(v, "output"@, i.output)
    &&& str_member_opt(v, "image_url"@, i.image_url)
    &&& str_member_opt(v, "detail"@, i.detail)
    &&& str_member_opt(v, "role"@, i.role)
    &&& str_member_opt(v, "text"@, i.text)
    &&& forall|k: Seq<char>| #[trigger] json_field(v, k) is Some ==> is_item_key(k)
}

/// `v` is the encoding of request payload `i`: a bare string for text, an
/// array of item encodings for a list.
pub open spec fn encodes_input(i: InputView, v: serde_json::Value) -> bool {
    match i {
        InputView::Text(s) => json_str(v) == Some(s) && json_array(v) is None,
        InputView::Items(items) => {
            &&& json_str(v) is None
            &&& json_array(v) matches Some(a)
            &&& a.len() == items.len()
            &&& forall|j: int| 0 <= j < a.len() ==> encodes_item(#[trigger] items[j], a[j])
        },
    }
}

/// What reading a request item from `v` gives.
pub open spec fn decode_item(v: serde_json::Value) -> Result<InputItemView, DecodeErrorView> {
    if !json_is_object(v) {
        Err(DecodeErrorView::WrongShape)
    } else {
        match dec_req_str(v, "type"@) {
            Err(e) => Err(e),
            Ok(item_type) => match dec_opt_str(v, "call_id"@) {
                Err(e) => Err(e),
                Ok(call_id) => match dec_opt_str(v, "output"@) {
                    Err(e) => Err(e),
                    Ok(output) => match dec_opt_str(v, "image_url"@) {
                        Err(e) => Err(e),
                        Ok(image_url) => match dec_opt_str(v, "detail"@) {
                            Err(e) => Err(e),
                            Ok(detail) => match dec_opt_str(v, "role"@) {
                                Err(e) => Err(e),
                                Ok(role) => match dec_opt_str(v, "text"@) {
                                    Err(e) => Err(e),
                                    Ok(text) => Ok(
                                        InputItemView {
                                            item_type,
                                            content: dec_opt_value(v, "content"@),
                                            call_id,
                                            output,
                                            image_url,
                                            detail,
                                            role,
                                            text,
                                        },
                                    ),
                                },
                            },
                        },
                    },
                },
            },
        }
    }
}

/// What reading a list of request items gives: the first failure, in order,
/// or every item.
pub open spec fn decode_items(a: Seq<serde_json::Value>) -> Result<Seq<InputItemView>, DecodeErrorView>
    decreases a.len(),
{
    if a.len() == 0 {
        Ok(Seq::empty())
    } else {
        match decode_items(a.drop_last()) {
            Err(e) => Err(e),
            Ok(xs) => match decode_item(a.last()) {
                Err(e) => Err(e),
                Ok(x) => Ok(xs.push(x)),
            },
        }
    }
}

/// What reading a request payload gives: a string is text, an array is a
/// list of items, anything else is refused.
pub open spec fn decode_input(v: serde_json::Value) -> Result<InputView, DecodeErrorView> {
    match json_str(v) {
        Some(s) => Ok(InputView::Text(s)),
        None => match json_array(v) {
            Some(a) => match decode_items(a) {
                Ok(xs) => Ok(InputView::Items(xs)),
                Err(e) => Err(e),
            },
            None => Err(DecodeErrorView::WrongShape),
        },
    }
}

/// The item's content, if any, is not JSON `null`.
pub open spec fn content_not_null(i: InputItemView) -> bool {
    i.content matches Some(c) ==> !json_is_null(c)
}

/// No member absent from a request item is written: the encoding of `i`
/// holds a member under a field's name exactly when `i` has that field.
pub proof fn lemma_item_omits_absent(i: InputItemView, v: serde_json::Value)
    requires
        encodes_item(i, v),
    ensures
        json_field(v, "content"@) is Some <==> i.content is Some,
        json_field(v, "call_id"@) is Some <==> i.call_id is Some,
        json_field(v, "output"@) is Some <==> i.output is Some,
        json_field(v, "image_url"@) is Some <==> i.image_url is Some,
        json_field(v, "detail"@) is Some <==> i.detail is Some,
        json_field(v, "role"@) is Some <==> i.role is Some,
        json_field(v, "text"@) is Some <==> i.text is Some,
{
}

/// Reading back the encoding of a request item gives the same item: the
/// same discriminator, the same present fields with equal values, and the
/// same absent fields. A content of JSON `null` is left out, as it reads
/// back as absent.
pub proof fn lemma_item_round_trip(i: InputItemView, v: serde_json::Value)
    requires
        encodes_item(i, v),
        content_not_null(i),
    ensures
        decode_item(v) == Ok::<InputItemView, DecodeErrorView>(i),
{
}

/// Reading back the encodings of a list of request items gives the list.
pub proof fn lemma_items_round_trip(items: Seq<InputItemView>, a: Seq<serde_json::Value>)
    requires
        a.len() == items.len(),
        forall|j: int| 0 <= j < a.len() ==> encodes_item(#[trigger] items[j], a[j]),
        forall|j: int| 0 <= j < items.len() ==> content_not_null(#[trigger] items[j]),
    ensures
        decode_items(a) == Ok::<Seq<InputItemView>, DecodeErrorView>(items),
    decreases a.len(),
{
    if a.len() > 0 {
        let n = a.len() - 1;
        lemma_items_round_trip(items.drop_last(), a.drop_last());
        lemma_item_round_trip(items[n], a[n]);
        assert(items.drop_last().push(items.last()) =~= items);
    } else {
        assert(items =~= Seq::<InputItemView>::empty());
    }
}

/// A request payload is written as a bare string when it is text and as an
/// array when it is a list, and reading the encoding back gives the payload.
pub proof fn lemma_input_round_trip(i: InputView, v: serde_json::Value)
    requires
        encodes_input(i, v),
        i matches InputView::Items(items) ==> forall|j: int|
            0 <= j < items.len() ==> content_not_null(#[trigger] items[j]),
    ensures
        decode_input(v) == Ok::<InputView, DecodeErrorView>(i),
        i is Text <==> json_str(v) is Some,
        i is Items <==> json_array(v) is Some,
{
    match i {
        InputView::Text(s) => {},
        InputView::Items(items) => {
            let a = json_array(v)->Some_0;
            lemma_items_round_trip(items, a);
        },
    }
}

/// Once a prefix of a list fails to read, every longer prefix fails with
/// the same error.
proof fn lemma_items_error_extends(a: Seq<serde_json::Value>, n: int, m: int)
    requires
        0 <= n <= m <= a.len(),
        decode_items(a.subrange(0, n)) is Err,
    ensures
        decode_items(a.subrange(0, m)) == decode_items(a.subrange(0, n)),
    decreases m - n,
{
    if m > n {
        lemma_items_error_extends(a, n, m - 1);
        assert(a.subrange(0, m).drop_last() =~= a.subrange(0, m - 1));
    }
}

impl InputItem {
    /// The item as a JSON object: the discriminator under `type`, then each
    /// present field under its own name; absent fields are left out.
    pub fn to_json(&self) -> (r: serde_json::Value)
        ensures
            encodes_item(self@, r),
    {
        let mut m = new_object();
        object_insert(&mut m, String::from_str("type"), string_value(self.item_type.clone()));
        match &self.content {
            None => {},
            Some(c) => {
                object_insert(&mut m, String::from_str("content"), clone_value(c));
            },
        }
        write_opt_str(&mut m, "call_id", &self.call_id);
        write_opt_str(&mut m, "output", &self.output);
        write_opt_str(&mut m, "image_url", &self.image_url);
        write_opt_str(&mut m, "detail", &self.detail);
        write_opt_str(&mut m, "role", &self.role);
        write_opt_str(&mut m, "text", &self.text);
        proof {
            reveal_strlit("type");
            reveal_strlit("content");
            reveal_strlit("call_id");
            reveal_strlit("output");
            reveal_strlit("image_url");
            reveal_strlit("detail");
            reveal_strlit("role");
            reveal_strlit("text");
            assert("type"@[1] != "text"@[1]);
            assert("type"@[0] != "role"@[0]);
            assert("text"@[0] != "role"@[0]);
            assert("output"@[0] != "detail"@[0]);
            assert("content"@[1] != "call_id"@[1]);
        }
        object_value(m)
    }

    /// Reads a request item from a JSON object. The `type` member is
    /// mandatory; every other field is absent when its member is absent or
    /// `null`, and members of other names are ignored.
    pub fn from_json(v: &serde_json::Value) -> (r: Result<InputItem, DecodeError>)
        ensures
            match r {
                Ok(x) => decode_item(*v) == Ok::<InputItemView, DecodeErrorView>(x@),
                Err(e) => decode_item(*v) == Err::<InputItemView, DecodeErrorView>(e@),
            },
    {
        if !is_object(v) {
            return Err(DecodeError::WrongShape);
        }
        let item_type = match read_req_str(v, "type") {
            Ok(s) => s,
            Err(e) => return Err(e),
        };
        let call_id = match read_opt_str(v, "call_id") {
            Ok(s) => s,
            Err(e) => return Err(e),
        };
        let output = match read_opt_str(v, "output") {
            Ok(s) => s,
            Err(e) => return Err(e),
        };
        let image_url = match read_opt_str(v, "image_url") {
            Ok(s) => s,
            Err(e) => return Err(e),
        };
        let detail = match read_opt_str(v, "detail") {
            Ok(s) => s,
            Err(e) => return Err(e),
        };
        let role = match read_opt_str(v, "role") {
            Ok(s) => s,
            Err(e) => return Err(e),
        };
        let text = match read_opt_str(v, "text") {
            Ok(s) => s,
            Err(e) => return Err(e),
        };
        Ok(
            InputItem {
                item_type,
                content: read_opt_value(v, "content"),
                call_id,
                output,
                image_url,
                detail,
                role,
                text,
            },
        )
    }
}

impl Input {
    /// The payload in its minimal shape: a bare string for text, an array of
    /// item objects for a list.
    pub fn to_json(&self) -> (r: serde_json::Value)
        ensures
            encodes_input(self@, r),
    {
        match self {
            Input::Text(s) => string_value(s.clone()),
            Input::Items(items) => {
                let mut out: Vec<serde_json::Value> = Vec::new();
                let mut i: usize = 0;
                while i < items.len()
                    invariant
                        i <= items@.len(),
                        out@.len() == i,
                        forall|j: int| 0 <= j < i ==> encodes_item(#[trigger] items@[j]@, out@[j]),
                    decreases items@.len() - i,
                {
                    out.push(items[i].to_json());
                    i = i + 1;
                }
                let r = array_value(out);
                assert(forall|j: int| 0 <= j < items@.len() ==> #[trigger] items_view(items@)[j] == items@[j]@);
                r
            },
        }
    }

    /// Reads a payload by its shape: a string is text, an array is a list of
    /// items read in order (the first failing item gives the error), and any
    /// other value is refused.
    pub fn from_json(v: &serde_json::Value) -> (r: Result<Input, DecodeError>)
        ensures
            match r {
                Ok(x) => decode_input(*v) == Ok::<InputView, DecodeErrorView>(x@),
                Err(e) => decode_input(*v) == Err::<InputView, DecodeErrorView>(e@),
            },
    {
        match as_str(v) {
            Some(s) => Ok(Input::Text(String::from_str(s))),
            None => match as_array(v) {
                None => Err(DecodeError::WrongShape),
                Some(a) => {
                    let mut out: Vec<InputItem> = Vec::new();
                    let mut i: usize = 0;
                    assert(a@.subrange(0, 0) =~= Seq::<serde_json::Value>::empty());
                    assert(items_view(out@) =~= Seq::<InputItemView>::empty());
                    while i < a.len()
                        invariant
                            i <= a@.len(),
                            json_str(*v) is None,
                            json_array(*v) == Some(a@),
                            decode_items(a@.subrange(0, i as int)) == Ok::<Seq<InputItemView>, DecodeErrorView>(items_view(out@)),
                        decreases a@.len() - i,
                    {
                        assert(a@.subrange(0, i + 1).drop_last() =~= a@.subrange(0, i as int));
                        let ghost before = out@;
                        match InputItem::from_json(&a[i]) {
                            Ok(x) => {
                                out.push(x);
                                assert(items_view(out@) =~= items_view(before).push(out@.last()@));
                            },
                            Err(e) => {
                                assert(decode_items(a@.subrange(0, i + 1)) == Err::<Seq<InputItemView>, DecodeErrorView>(e@));
                                proof {
                                    lemma_items_error_extends(a@, i as int + 1, a@.len() as int);
                                    assert(a@.subrange(0, a@.len() as int) =~= a@);
                                }
                                return Err(e);
                            },
                        }
                        i = i + 1;
                    }
                    assert(a@.subrange(0, i as int) =~= a@);
                    Ok(Input::Items(out))
                },
            },
        }
    }
}

} // verus!
