//! The generic error taxonomy that every method's errors collapse into.
use vstd::prelude::*;
use crate::json::{Json, Members, field, text_of, json_str};

verus! {

/// Code of a request that could not be built from the caller's input.
pub const PARSE_ERROR_CODE: i64 = -32_700;
/// Code of an error that the node reports, and of a response that could not be decoded.
pub const SERVER_ERROR_CODE: i64 = -32_000;
/// Code of a call that got no response.
pub const TRANSPORT_ERROR_CODE: i64 = -32_001;

/// Name under which every internal error is tagged.
pub const INTERNAL_ERROR_NAME: &'static str = "INTERNAL_ERROR";

/// The class of an [`RpcError`], with its structured form where it has one.
pub enum RpcErrorKind {
    /// The request could not be built from what the caller gave; it was never sent.
    ParseError,
    /// The node understood the request and reports a condition of the method,
    /// tagged `{name, info}`.
    HandlerError(Json),
    /// A response came but could not be decoded, or an error could not be described:
    /// `{name: "INTERNAL_ERROR", info: {error_message}}`.
    InternalError(Json),
    /// No response came.
    TransportError,
}

/// An error of a call, in the generic form `{code, message, data}`.
pub struct RpcError {
    pub kind: RpcErrorKind,
    pub code: i64,
    pub message: String,
    pub data: Option<Json>,
}

/// A request that could not be built, with the reason.
pub struct RpcParseError(pub String);

impl RpcParseError {
    /// This failure in the generic form: a parse error carrying the reason.
    pub fn into_rpc_error(self) -> (r: RpcError)
        ensures
            r.kind is ParseError,
            r.code == PARSE_ERROR_CODE,
            r.message == self.0,
    {
        RpcError::parse_error(self.0)
    }
}

/// `j` is the object `{k: v}`.
pub open spec fn is_object1(j: Json, k: Seq<char>, v: Json) -> bool {
    match j {
        Json::Object(Members::Cons(a, x, rest)) => a@ == k && *x == v && *rest == Members::Nil,
        _ => false,
    }
}

/// `j` is the string `s`.
pub open spec fn is_text(j: Json, s: Seq<char>) -> bool {
    j matches Json::Str(t) && t@ == s
}

/// `j` is `{name: tag, info: i}` for some `i` that is `{error_message: message}`.
pub open spec fn is_tagged_message(j: Json, tag: Seq<char>, message: Seq<char>) -> bool {
    match j {
        Json::Object(Members::Cons(a, x, rest)) => a@ == "name"@ && is_text(*x, tag) && match *rest {
            Members::Cons(b, y, tail) => b@ == "info"@ && *tail == Members::Nil && match *y {
                Json::Object(Members::Cons(c, z, end)) => c@ == "error_message"@ && is_text(*z, message)
                    && *end == Members::Nil,
                _ => false,
            },
            _ => false,
        },
        _ => false,
    }
}

/// The tag of an error object: its `name`.
pub open spec fn tag_of(j: Json) -> Option<Seq<char>> {
    text_of(field(j, "name"@))
}

/// The `error_message` of an error object's `info`.
pub open spec fn info_message(j: Json) -> Option<Seq<char>> {
    match field(j, "info"@) {
        Some(info) => text_of(field(info, "error_message"@)),
        None => None,
    }
}

/// `{name: tag, info: {error_message: message}}`.
pub fn tagged_message(tag: &str, message: &str) -> (r: Json)
    ensures
        is_tagged_message(r, tag@, message@),
{
    let info = Json::Object(Members::Nil.with("error_message", json_str(message)));
    Json::Object(Members::Nil.with("info", info).with("name", json_str(tag)))
}

/// The `error_message` of the `info` of `j`, where it has one.
pub fn get_info_message(j: &Json) -> (r: Option<String>)
    ensures
        r is None <==> info_message(*j) is None,
        r matches Some(s) ==> info_message(*j) == Some(s@),
{
    match j.get("info") {
        Some(info) => match info.get("error_message") {
            Some(Json::Str(s)) => Some(s.clone()),
            _ => None,
        },
        None => None,
    }
}

/// The tag of `j`, where it has one.
pub fn get_tag(j: &Json) -> (r: Option<&String>)
    ensures
        r is None <==> tag_of(*j) is None,
        r matches Some(s) ==> tag_of(*j) == Some(s@),
{
    match j.get("name") {
        Some(Json::Str(s)) => Some(s),
        _ => None,
    }
}

/// The error object proper: the `cause` of `j` where it has one (the node's full form
/// `{name: "HANDLER_ERROR", cause: {name, info}}`), else `j` itself.
pub open spec fn error_body(j: Json) -> Json {
    match field(j, "cause"@) {
        Some(c) => c,
        None => j,
    }
}

/// The member `key` of the `info` of `j`.
pub open spec fn info_field(j: Json, key: Seq<char>) -> Option<Json> {
    match field(j, "info"@) {
        Some(info) => field(info, key),
        None => None,
    }
}

/// `j` is `{name: tag, info: {key: v}}`, or `{name: tag}` where there is no member.
pub open spec fn is_wire_error(j: Json, tag: Seq<char>, member: Option<(Seq<char>, Json)>) -> bool {
    match j {
        Json::Object(Members::Cons(a, x, rest)) => a@ == "name"@ && is_text(*x, tag) && match member {
            Some((key, v)) => match *rest {
                Members::Cons(b, y, tail) => b@ == "info"@ && *tail == Members::Nil
                    && is_object1(*y, key, v),
                _ => false,
            },
            None => *rest == Members::Nil,
        },
        _ => false,
    }
}

/// `j` is `{name: tag, info: {}}`: a tag whose payload is not written out.
pub open spec fn is_wire_error_bare(j: Json, tag: Seq<char>) -> bool {
    match j {
        Json::Object(Members::Cons(a, x, rest)) => a@ == "name"@ && is_text(*x, tag) && match *rest {
            Members::Cons(b, y, tail) => b@ == "info"@ && *tail == Members::Nil && *y == Json::Object(Members::Nil),
            _ => false,
        },
        _ => false,
    }
}

/// `{name: tag, info: {}}`.
pub fn wire_error_bare(tag: &str) -> (r: Json)
    ensures
        is_wire_error_bare(r, tag@),
{
    let rest = Members::Nil.with("info", Json::Object(Members::Nil));
    Json::Object(rest.with("name", json_str(tag)))
}

/// The error object of `j`.
pub fn get_error_body(j: &Json) -> (r: &Json)
    ensures
        *r == error_body(*j),
{
    match j.get("cause") {
        Some(c) => c,
        None => j,
    }
}

/// The string member `key` of the `info` of `j`.
pub fn get_info_text(j: &Json, key: &str) -> (r: Option<String>)
    ensures
        r matches Some(s) ==> info_field(*j, key@) == Some(Json::Str(s)),
        r is None ==> !(info_field(*j, key@) matches Some(Json::Str(_))),
{
    match j.get("info") {
        Some(info) => match info.get(key) {
            Some(Json::Str(s)) => Some(s.clone()),
            _ => None,
        },
        None => None,
    }
}

/// `{name: tag, info: {key: v}}`, or `{name: tag}` where `member` is `None`.
pub fn wire_error(tag: &str, member: Option<(&str, Json)>) -> (r: Json)
    ensures
        is_wire_error(r, tag@, match member {
            Some((k, v)) => Some((k@, v)),
            None => None,
        }),
{
    let rest = match member {
        Some((k, v)) => Members::Nil.with("info", Json::Object(Members::Nil.with(k, v))),
        None => Members::Nil,
    };
    Json::Object(rest.with("name", json_str(tag)))
}

impl RpcError {
    /// A request that could not be built, for the reason `e`.
    pub fn parse_error(e: String) -> (r: RpcError)
        ensures
            r.kind is ParseError,
            r.code == PARSE_ERROR_CODE,
            r.message == e,
            r.data matches Some(d) && d == Json::Str(e),
    {
        RpcError { kind: RpcErrorKind::ParseError, code: PARSE_ERROR_CODE, message: e.clone(), data: Some(Json::Str(e)) }
    }

    /// A call that got no response, for the reason `e`.
    pub fn transport_error(e: String) -> (r: RpcError)
        ensures
            r.kind is TransportError,
            r.code == TRANSPORT_ERROR_CODE,
            r.message == e,
            r.data is None,
    {
        RpcError { kind: RpcErrorKind::TransportError, code: TRANSPORT_ERROR_CODE, message: e, data: None }
    }

    /// An internal error described by `info`, with `data` attached.
    pub fn new_internal_error(data: Option<Json>, info: String) -> (r: RpcError)
        ensures
            r.kind matches RpcErrorKind::InternalError(s) && is_tagged_message(s, "INTERNAL_ERROR"@, info@),
            r.code == SERVER_ERROR_CODE,
            r.message == info,
            r.data == data,
    {
        let s = tagged_message(INTERNAL_ERROR_NAME, info.as_str());
        RpcError { kind: RpcErrorKind::InternalError(s), code: SERVER_ERROR_CODE, message: info, data }
    }

    /// An error that the node reports, tagged `error_struct`, shown as `message`.
    pub fn new_handler_error(data: Option<Json>, error_struct: Json, message: String) -> (r: RpcError)
        ensures
            r.kind == RpcErrorKind::HandlerError(error_struct),
            r.code == SERVER_ERROR_CODE,
            r.message == message,
            r.data == data,
    {
        RpcError { kind: RpcErrorKind::HandlerError(error_struct), code: SERVER_ERROR_CODE, message, data }
    }

    /// An internal error where `error_struct` is tagged `INTERNAL_ERROR`, taking its
    /// `error_message` (or a fixed text where it has none); else an error that the node reports.
    pub fn new_internal_or_handler_error(data: Option<Json>, error_struct: Json, message: String) -> (r: RpcError)
        ensures
            tag_of(error_struct) == Some("INTERNAL_ERROR"@) ==> r.kind is InternalError,
            tag_of(error_struct) == Some("INTERNAL_ERROR"@) && info_message(error_struct) is Some
                ==> r.message@ == info_message(error_struct)->0,
            tag_of(error_struct) != Some("INTERNAL_ERROR"@) ==> r.kind == RpcErrorKind::HandlerError(error_struct)
                && r.message == message,
            r.code == SERVER_ERROR_CODE,
            r.data == data,
    {
        let internal = match get_tag(&error_struct) {
            Some(t) => crate::json::str_eq(t.as_str(), INTERNAL_ERROR_NAME),
            None => false,
        };
        if internal {
            let info = match get_info_message(&error_struct) {
                Some(m) => m,
                None => "InternalError happened during serializing InternalError".to_owned(),
            };
            RpcError::new_internal_error(data, info)
        } else {
            RpcError::new_handler_error(data, error_struct, message)
        }
    }
}

} // verus!
