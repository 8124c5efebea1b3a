//! The JSON-RPC 2.0 envelope around each call.
use vstd::prelude::*;
use crate::json::{Json, Members, field, json_str};
use crate::errors::RpcError;
use crate::wire::{MAX_DEPTH, is_json_text, json_depth, json_document, read_json};

verus! {

/// The protocol version that every request carries.
pub const JSONRPC_VERSION: &'static str = "2.0";

/// A response envelope: the id it answers and its result or its error.
pub struct Response {
    pub id: Json,
    pub result: Result<Json, Json>,
}

/// The request object `{jsonrpc: "2.0", id, method, params}`; `params` is left out where absent.
pub fn build_request(method: &str, params: Option<Json>, id: Json) -> (r: Json)
    ensures
        field(r, "jsonrpc"@) matches Some(Json::Str(v)) && v@ == "2.0"@,
        field(r, "id"@) == Some(id),
        field(r, "method"@) matches Some(Json::Str(m)) && m@ == method@,
        field(r, "params"@) == params,
{
    proof {
        reveal_strlit("jsonrpc");
        reveal_strlit("id");
        reveal_strlit("method");
        reveal_strlit("params");
        reveal_with_fuel(crate::json::member, 5);
        assert("jsonrpc"@.len() == 7 && "id"@.len() == 2 && "method"@.len() == 6 && "params"@.len() == 6);
        assert("method"@[0] != "params"@[0]);
    }
    let tail = match params {
        Some(p) => Members::Nil.with("params", p),
        None => Members::Nil,
    };
    let m1 = tail.with("method", json_str(method));
    let m2 = m1.with("id", id);
    let m3 = m2.with("jsonrpc", json_str(JSONRPC_VERSION));
    Json::Object(m3)
}

/// `j` is a well-formed response envelope: an object with an id and exactly one of
/// a result and an error.
pub open spec fn is_envelope(j: Json) -> bool {
    &&& j is Object
    &&& field(j, "id"@) is Some
    &&& (field(j, "result"@) is Some) != (field(j, "error"@) is Some)
}

/// `resp` is the response that the envelope `j` holds: its id, and its result or its error.
pub open spec fn envelope_parts(j: Json, resp: Response) -> bool {
    &&& Some(resp.id) == field(j, "id"@)
    &&& match resp.result {
        Ok(x) => field(j, "result"@) == Some(x),
        Err(e) => field(j, "error"@) == Some(e),
    }
}

/// The response that the envelope `j` holds, or an internal error where it is malformed.
pub fn parse_response_json(j: &Json) -> (r: Result<Response, RpcError>)
    ensures
        r is Ok <==> is_envelope(*j),
        r matches Ok(resp) ==> envelope_parts(*j, resp),
        r matches Err(e) ==> e.kind is InternalError,
{
    let id = match j.get("id") {
        Some(id) => id.copy(),
        None => {
            return Err(RpcError::new_internal_error(None, "Response carries no id".to_owned()));
        },
    };
    match (j.get("result"), j.get("error")) {
        (Some(x), None) => Ok(Response { id, result: Ok(x.copy()) }),
        (None, Some(e)) => Ok(Response { id, result: Err(e.copy()) }),
        (Some(_), Some(_)) => Err(RpcError::new_internal_error(None, "Response carries both a result and an error".to_owned())),
        (None, None) => Err(RpcError::new_internal_error(None, "Response carries neither a result nor an error".to_owned())),
    }
}

/// The response that the bytes `b` hold; text that is not JSON, or not an envelope,
/// gives an internal error.
pub fn parse_response(b: &[u8]) -> (r: Result<Response, RpcError>)
    ensures
        r is Ok <==> is_json_text(b@) && json_depth(json_document(b@)) <= MAX_DEPTH
            && is_envelope(json_document(b@)),
        r matches Ok(resp) ==> envelope_parts(json_document(b@), resp),
        r matches Err(e) ==> e.kind is InternalError,
{
    match read_json(b) {
        Ok(j) => parse_response_json(&j),
        Err(reason) => Err(RpcError::new_internal_error(None, reason)),
    }
}

} // verus!
