//! The protocol configuration method: its request and its errors.
use vstd::prelude::*;
use crate::json::{Json, concat};
use crate::errors::{
    RpcError, RpcErrorKind, RpcParseError, SERVER_ERROR_CODE, error_body, get_error_body, get_info_text,
    get_tag, is_wire_error, is_wire_error_bare, tag_of, wire_error, wire_error_bare, is_tagged_message,
};
use crate::blocks::{MISSING_PARAMS, bad_params, info_text, unknown_tag_message, unknown_tag_text};
use crate::types::{BlockReference, block_reference_json, is_block_reference_json};

verus! {

/// A request for the protocol configuration in force at a block.
pub struct RpcProtocolConfigRequest {
    pub block_reference: BlockReference,
}

impl RpcProtocolConfigRequest {
    /// Reads the parameters: a named block reference.
    pub fn parse(value: Option<Json>) -> (r: Result<RpcProtocolConfigRequest, RpcParseError>)
        ensures
            r is Ok <==> (value matches Some(j) && is_block_reference_json(j)),
            r matches Ok(req) ==> block_reference_json(value->0, req.block_reference),
            r matches Err(e) ==> e.0@ == crate::blocks::block_request_error(value),
    {
        match value {
            Some(j) => match BlockReference::from_json(&j) {
                Ok(block_reference) => Ok(RpcProtocolConfigRequest { block_reference }),
                Err(e) => Err(bad_params(e.as_str())),
            },
            None => Err(RpcParseError(MISSING_PARAMS.to_owned())),
        }
    }
}

/// An error of the protocol configuration method.
pub enum RpcProtocolConfigError {
    UnknownBlock { error_message: String },
    InternalError { error_message: String },
}

/// The text that shows `e`.
pub open spec fn protocol_config_error_text(e: RpcProtocolConfigError) -> Seq<char> {
    match e {
        RpcProtocolConfigError::UnknownBlock { error_message } => "Block has never been observed: "@ + error_message@,
        RpcProtocolConfigError::InternalError { error_message } =>
            "The node reached its limits. Try again later. More details: "@ + error_message@,
    }
}

/// `j` is the wire form of `e`.
pub open spec fn protocol_config_error_wire(j: Json, e: RpcProtocolConfigError) -> bool {
    match e {
        RpcProtocolConfigError::UnknownBlock { .. } => is_wire_error_bare(j, "UNKNOWN_BLOCK"@),
        RpcProtocolConfigError::InternalError { error_message } =>
            is_wire_error(j, "INTERNAL_ERROR"@, Some(("error_message"@, Json::Str(error_message)))),
    }
}

/// `e` is what the node's error `j` decodes to.
pub open spec fn protocol_config_error_decoded(j: Json, e: RpcProtocolConfigError) -> bool {
    let b = error_body(j);
    let m = info_text(b, "error_message"@);
    if tag_of(b) == Some("UNKNOWN_BLOCK"@) && m is Some {
        e == RpcProtocolConfigError::UnknownBlock { error_message: m->0 }
    } else if tag_of(b) == Some("INTERNAL_ERROR"@) && m is Some {
        e == RpcProtocolConfigError::InternalError { error_message: m->0 }
    } else {
        e matches RpcProtocolConfigError::InternalError { error_message } && error_message@ == unknown_tag_message(tag_of(b))
    }
}

/// `r` is the generic form of `e`.
pub open spec fn protocol_config_rpc_form(e: RpcProtocolConfigError, r: RpcError) -> bool {
    &&& r.code == SERVER_ERROR_CODE
    &&& match e {
        RpcProtocolConfigError::InternalError { error_message } => match r.kind {
            RpcErrorKind::InternalError(s) => is_tagged_message(s, "INTERNAL_ERROR"@, error_message@)
                && r.message == error_message && (r.data matches Some(w) && protocol_config_error_wire(w, e)),
            _ => false,
        },
        _ => match r.kind {
            RpcErrorKind::HandlerError(w) => protocol_config_error_wire(w, e) && r.data == Some(w)
                && r.message@ == protocol_config_error_text(e),
            _ => false,
        },
    }
}

impl RpcProtocolConfigError {
    /// The wire form of this error.
    pub fn to_wire(&self) -> (r: Json)
        ensures
            protocol_config_error_wire(r, *self),
    {
        match self {
            RpcProtocolConfigError::UnknownBlock { .. } => wire_error_bare("UNKNOWN_BLOCK"),
            RpcProtocolConfigError::InternalError { error_message } =>
                wire_error("INTERNAL_ERROR", Some(("error_message", Json::Str(error_message.clone())))),
        }
    }

    /// The error that the node's error object `j` reports; never fails.
    pub fn from_wire(j: &Json) -> (r: RpcProtocolConfigError)
        ensures
            protocol_config_error_decoded(*j, r),
    {
        let b = get_error_body(j);
        let tag = get_tag(b);
        let named = |t: &str| -> (r: bool)
            ensures
                r == (tag matches Some(s) && s@ == t@),
            {
                match tag {
                    Some(s) => crate::json::str_eq(s.as_str(), t),
                    None => false,
                }
            };
        let m = get_info_text(b, "error_message");
        if named("UNKNOWN_BLOCK") && m.is_some() {
            RpcProtocolConfigError::UnknownBlock { error_message: m.unwrap() }
        } else if named("INTERNAL_ERROR") && m.is_some() {
            RpcProtocolConfigError::InternalError { error_message: m.unwrap() }
        } else {
            RpcProtocolConfigError::InternalError { error_message: unknown_tag_text(tag) }
        }
    }

    /// The text that shows this error.
    pub fn message(&self) -> (r: String)
        ensures
            r@ == protocol_config_error_text(*self),
    {
        match self {
            RpcProtocolConfigError::UnknownBlock { error_message } =>
                concat("Block has never been observed: ", error_message.as_str()),
            RpcProtocolConfigError::InternalError { error_message } => concat(
                "The node reached its limits. Try again later. More details: ",
                error_message.as_str(),
            ),
        }
    }

    /// This error in the generic form.
    pub fn into_rpc_error(self) -> (r: RpcError)
        ensures
            protocol_config_rpc_form(self, r),
    {
        let text = self.message();
        let wire = self.to_wire();
        match self {
            RpcProtocolConfigError::InternalError { error_message } =>
                RpcError::new_internal_error(Some(wire), error_message),
            _ => RpcError::new_handler_error(Some(wire.copy()), wire, text),
        }
    }
}

/// Every protocol configuration error collapses to the server error code, as a handler
/// error unless it is an internal one; a tag other than `UNKNOWN_BLOCK` decodes to an
/// internal error.
pub proof fn lemma_protocol_config_error_codes(j: Json, d: RpcProtocolConfigError, r: RpcError)
    requires
        protocol_config_error_decoded(j, d),
        protocol_config_rpc_form(d, r),
    ensures
        r.code == SERVER_ERROR_CODE,
        d is InternalError <==> r.kind is InternalError,
        !(d is InternalError) ==> r.kind is HandlerError,
        tag_of(error_body(j)) != Some("UNKNOWN_BLOCK"@) ==> d is InternalError,
{
}

/// Decoding the wire form of a protocol configuration error gives that error back, but for
/// an unknown block, whose message the wire form leaves out.
pub proof fn lemma_protocol_config_error_round_trip(e: RpcProtocolConfigError, j: Json, d: RpcProtocolConfigError)
    requires
        !(e is UnknownBlock),
        protocol_config_error_wire(j, e),
        protocol_config_error_decoded(j, d),
    ensures
        d == e,
{
    reveal_strlit("cause");
    reveal_strlit("name");
    reveal_strlit("info");
    reveal_strlit("error_message");
    reveal_strlit("UNKNOWN_BLOCK");
    reveal_strlit("INTERNAL_ERROR");
    reveal_with_fuel(crate::json::member, 4);
    assert("cause"@[0] != "name"@[0]);
    assert("cause"@[0] != "info"@[0]);
    assert("name"@[0] != "info"@[0]);
    assert("UNKNOWN_BLOCK"@[0] != "INTERNAL_ERROR"@[0]);
}

} // verus!
