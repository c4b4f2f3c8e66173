//! Reading and writing single members of JSON objects, with the errors a
//! read can end in. The request and response codecs are built from these.
use crate::item::opt_view;
use crate::json::{
    as_array, as_i64, as_str, as_u64, clone_value, clone_values, get, is_null, json_array,
    json_field, json_i64, json_is_null, json_str, json_u64, object_entries, object_insert,
    string_value, str_member, JsonObject,
};
use vstd::prelude::*;
use vstd::string::*;

verus! {

/// Why a JSON value could not be read as one of the library's types.
pub enum DecodeError {
    /// The value is not of a shape accepted here (an object, or for an
    /// `Input` a string or an array).
    WrongShape,
    /// A mandatory member is absent.
    MissingField(String),
    /// A member holds a value of the wrong kind or out of range.
    InvalidField(String),
    /// The `type` discriminator names no kind of the closed set.
    UnknownType(String),
}

/// The mathematical value of a `DecodeError`.
pub enum DecodeErrorView {
    WrongShape,
    MissingField(Seq<char>),
    InvalidField(Seq<char>),
    UnknownType(Seq<char>),
}

impl View for DecodeError {
    type V = DecodeErrorView;

    open spec fn view(&self) -> DecodeErrorView {
        match self {
            DecodeError::WrongShape => DecodeErrorView::WrongShape,
            DecodeError::MissingField(k) => DecodeErrorView::MissingField(k@),
            DecodeError::InvalidField(k) => DecodeErrorView::InvalidField(k@),
            DecodeError::UnknownType(t) => DecodeErrorView::UnknownType(t@),
        }
    }
}

/// A mandatory string member.
pub open spec fn dec_req_str(v: serde_json::Value, k: Seq<char>) -> Result<Seq<char>, DecodeErrorView> {
    match json_field(v, k) {
        None => Err(DecodeErrorView::MissingField(k)),
        Some(x) => match json_str(x) {
            Some(s) => Ok(s),
            None => Err(DecodeErrorView::InvalidField(k)),
        },
    }
}

/// An optional string member: absent or `null` reads as `None`.
pub open spec fn dec_opt_str(v: serde_json::Value, k: Seq<char>) -> Result<Option<Seq<char>>, DecodeErrorView> {
    match json_field(v, k) {
        None => Ok(None),
        Some(x) => match json_str(x) {
            Some(s) => Ok(Some(s)),
            None => if json_is_null(x) {
                Ok(None)
            } else {
                Err(DecodeErrorView::InvalidField(k))
            },
        },
    }
}

/// An optional member of any kind: absent or `null` reads as `None`.
pub open spec fn dec_opt_value(v: serde_json::Value, k: Seq<char>) -> Option<serde_json::Value> {
    match json_field(v, k) {
        None => None,
        Some(x) => if json_is_null(x) {
            None
        } else {
            Some(x)
        },
    }
}

/// Whether `o`, present or absent, is the string member `k` of `v`.
pub open spec fn str_member_opt(v: serde_json::Value, k: Seq<char>, o: Option<Seq<char>>) -> bool {
    match o {
        None => json_field(v, k) is None,
        Some(s) => str_member(v, k, s),
    }
}

/// Whether `t` is the given tag.
pub(crate) fn tag_is(t: &String, tag: &str) -> (r: bool)
    ensures
        r == (t@ == tag@),
{
    let expected = String::from_str(tag);
    t.eq(&expected)
}

pub(crate) fn read_req_str(v: &serde_json::Value, key: &str) -> (r: Result<String, DecodeError>)
    ensures
        match r {
            Ok(s) => dec_req_str(*v, key@) == Ok::<Seq<char>, DecodeErrorView>(s@),
            Err(e) => dec_req_str(*v, key@) == Err::<Seq<char>, DecodeErrorView>(e@),
        },
{
    match get(v, key) {
        None => Err(DecodeError::MissingField(String::from_str(key))),
        Some(x) => match as_str(x) {
            Some(s) => Ok(String::from_str(s)),
            None => Err(DecodeError::InvalidField(String::from_str(key))),
        },
    }
}

pub(crate) fn read_opt_str(v: &serde_json::Value, key: &str) -> (r: Result<Option<String>, DecodeError>)
    ensures
        match r {
            Ok(o) => dec_opt_str(*v, key@) == Ok::<Option<Seq<char>>, DecodeErrorView>(opt_view(o)),
            Err(e) => dec_opt_str(*v, key@) == Err::<Option<Seq<char>>, DecodeErrorView>(e@),
        },
{
    match get(v, key) {
        None => Ok(None),
        Some(x) => match as_str(x) {
            Some(s) => Ok(Some(String::from_str(s))),
            None => if is_null(x) {
                Ok(None)
            } else {
                Err(DecodeError::InvalidField(String::from_str(key)))
            },
        },
    }
}

pub(crate) fn read_opt_value(v: &serde_json::Value, key: &str) -> (r: Option<serde_json::Value>)
    ensures
        r == dec_opt_value(*v, key@),
{
    match get(v, key) {
        None => None,
        Some(x) => if is_null(x) {
            None
        } else {
            Some(clone_value(x))
        },
    }
}

pub(crate) fn write_opt_str(m: &mut JsonObject, key: &str, o: &Option<String>)
    ensures
        match o {
            None => object_entries(*final(m)) == object_entries(*old(m)),
            Some(s) => {
                &&& object_entries(*final(m)) == object_entries(*old(m)).insert(key@, object_entries(*final(m))[key@])
                &&& json_str(object_entries(*final(m))[key@]) == Some(s@)
                &&& !json_is_null(object_entries(*final(m))[key@])
            },
        },
{
    match o {
        None => {},
        Some(s) => {
            let x = string_value(s.clone());
            object_insert(m, String::from_str(key), x);
        },
    }
}

/// Whether a count of seconds since the Unix epoch is a time that chrono can
/// represent (`DateTime::from_timestamp_secs`).
pub uninterp spec fn utc_seconds_valid(secs: i64) -> bool;

/// Relies on chrono's `DateTime::from_timestamp_secs`, which gives `None`
/// for a count of seconds outside the range of its UTC times.
#[verifier::external_body]
pub(crate) fn utc_seconds_in_range(secs: i64) -> (r: bool)
    ensures
        r == utc_seconds_valid(secs),
{
    chrono::DateTime::from_timestamp_secs(secs).is_some()
}

/// A mandatory member of any kind (`null` included).
pub open spec fn dec_req_value(v: serde_json::Value, k: Seq<char>) -> Result<serde_json::Value, DecodeErrorView> {
    match json_field(v, k) {
        None => Err(DecodeErrorView::MissingField(k)),
        Some(x) => Ok(x),
    }
}

/// A mandatory member that is an integer in the range of `u32`.
pub open spec fn dec_req_u32(v: serde_json::Value, k: Seq<char>) -> Result<u32, DecodeErrorView> {
    match json_field(v, k) {
        None => Err(DecodeErrorView::MissingField(k)),
        Some(x) => match json_u64(x) {
            Some(n) => if n <= 4294967295u64 {
                Ok(n as u32)
            } else {
                Err(DecodeErrorView::InvalidField(k))
            },
            None => Err(DecodeErrorView::InvalidField(k)),
        },
    }
}

/// A mandatory member that is an array, its elements taken as they are.
pub open spec fn dec_values(v: serde_json::Value, k: Seq<char>) -> Result<Seq<serde_json::Value>, DecodeErrorView> {
    match json_field(v, k) {
        None => Err(DecodeErrorView::MissingField(k)),
        Some(x) => match json_array(x) {
            Some(a) => Ok(a),
            None => Err(DecodeErrorView::InvalidField(k)),
        },
    }
}

/// A mandatory member that is a timestamp in seconds that chrono can represent.
pub open spec fn dec_timestamp(v: serde_json::Value, k: Seq<char>) -> Result<i64, DecodeErrorView> {
    match json_field(v, k) {
        None => Err(DecodeErrorView::MissingField(k)),
        Some(x) => match json_i64(x) {
            Some(n) => if utc_seconds_valid(n) {
                Ok(n)
            } else {
                Err(DecodeErrorView::InvalidField(k))
            },
            None => Err(DecodeErrorView::InvalidField(k)),
        },
    }
}

/// A successful read of the rest of a list, placed after the items read so far.
pub open spec fn prepend<T>(xs: Seq<T>, r: Result<Seq<T>, DecodeErrorView>) -> Result<Seq<T>, DecodeErrorView> {
    match r {
        Ok(ys) => Ok(xs + ys),
        Err(e) => Err(e),
    }
}

pub(crate) proof fn lemma_prepend_empty<T>(r: Result<Seq<T>, DecodeErrorView>)
    ensures
        prepend(Seq::<T>::empty(), r) == r,
{
    if let Ok(ys) = r {
        assert(Seq::<T>::empty() + ys =~= ys);
    }
}

pub(crate) proof fn lemma_prepend_step<T>(xs: Seq<T>, x: T, r: Result<Seq<T>, DecodeErrorView>)
    ensures
        prepend(
            xs,
            match r {
                Err(e) => Err(e),
                Ok(ys) => Ok(seq![x] + ys),
            },
        ) == prepend(xs.push(x), r),
{
    if let Ok(ys) = r {
        assert(xs + (seq![x] + ys) =~= xs.push(x) + ys);
    }
}

pub(crate) proof fn lemma_prepend_done<T>(xs: Seq<T>)
    ensures
        prepend(xs, Ok::<Seq<T>, DecodeErrorView>(Seq::empty())) == Ok::<Seq<T>, DecodeErrorView>(xs),
{
    assert(xs + Seq::<T>::empty() =~= xs);
}

pub(crate) fn read_req_value(v: &serde_json::Value, key: &str) -> (r: Result<serde_json::Value, DecodeError>)
    ensures
        match r {
            Ok(x) => dec_req_value(*v, key@) == Ok::<serde_json::Value, DecodeErrorView>(x),
            Err(e) => dec_req_value(*v, key@) == Err::<serde_json::Value, DecodeErrorView>(e@),
        },
{
    match get(v, key) {
        None => Err(DecodeError::MissingField(String::from_str(key))),
        Some(x) => Ok(clone_value(x)),
    }
}

pub(crate) fn read_req_u32(v: &serde_json::Value, key: &str) -> (r: Result<u32, DecodeError>)
    ensures
        match r {
            Ok(x) => dec_req_u32(*v, key@) == Ok::<u32, DecodeErrorView>(x),
            Err(e) => dec_req_u32(*v, key@) == Err::<u32, DecodeErrorView>(e@),
        },
{
    match get(v, key) {
        None => Err(DecodeError::MissingField(String::from_str(key))),
        Some(x) => match as_u64(x) {
            Some(n) => if n <= 4294967295u64 {
                Ok(n as u32)
            } else {
                Err(DecodeError::InvalidField(String::from_str(key)))
            },
            None => Err(DecodeError::InvalidField(String::from_str(key))),
        },
    }
}

pub(crate) fn read_values(v: &serde_json::Value, key: &str) -> (r: Result<Vec<serde_json::Value>, DecodeError>)
    ensures
        match r {
            Ok(x) => dec_values(*v, key@) == Ok::<Seq<serde_json::Value>, DecodeErrorView>(x@),
            Err(e) => dec_values(*v, key@) == Err::<Seq<serde_json::Value>, DecodeErrorView>(e@),
        },
{
    match get(v, key) {
        None => Err(DecodeError::MissingField(String::from_str(key))),
        Some(x) => match as_array(x) {
            Some(a) => Ok(clone_values(a)),
            None => Err(DecodeError::InvalidField(String::from_str(key))),
        },
    }
}

pub(crate) fn read_timestamp(v: &serde_json::Value, key: &str) -> (r: Result<i64, DecodeError>)
    ensures
        match r {
            Ok(x) => dec_timestamp(*v, key@) == Ok::<i64, DecodeErrorView>(x),
            Err(e) => dec_timestamp(*v, key@) == Err::<i64, DecodeErrorView>(e@),
        },
{
    match get(v, key) {
        None => Err(DecodeError::MissingField(String::from_str(key))),
        Some(x) => match as_i64(x) {
            Some(n) => if utc_seconds_in_range(n) {
                Ok(n)
            } else {
                Err(DecodeError::InvalidField(String::from_str(key)))
            },
            None => Err(DecodeError::InvalidField(String::from_str(key))),
        },
    }
}

/// An optional member value that is not JSON `null` (which would read back as absent).
pub open spec fn opt_not_null(o: Option<serde_json::Value>) -> bool {
    o matches Some(x) ==> !json_is_null(x)
}

pub(crate) fn write_opt_value(m: &mut JsonObject, key: &str, o: &Option<serde_json::Value>)
    ensures
        match o {
            None => object_entries(*final(m)) == object_entries(*old(m)),
            Some(x) => object_entries(*final(m)) == object_entries(*old(m)).insert(key@, *x),
        },
{
    match o {
        None => {},
        Some(x) => {
            object_insert(m, String::from_str(key), clone_value(x));
        },
    }
}

} // verus!
