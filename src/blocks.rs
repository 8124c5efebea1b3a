//! The `block` method: its request, its result and its errors.
use vstd::prelude::*;
use crate::json::{Json, Members, field, concat, text_of};
use crate::errors::{
    RpcError, RpcErrorKind, RpcParseError, SERVER_ERROR_CODE, error_body, get_error_body, get_info_text,
    get_tag, info_field, is_wire_error, is_wire_error_bare, tag_of, wire_error, wire_error_bare, is_tagged_message,
};
use crate::types::{
    BlockId, BlockReference, CryptoHash, base58_hash, block_id_json, block_reference_json,
    get_single_item, is_block_id_json, block_reference_error, is_block_reference_json, single_item,
};

verus! {

/// Reason given where a method that needs parameters got none.
pub const MISSING_PARAMS: &'static str = "Require at least one parameters";
/// Start of the reason given where parameters have the wrong shape.
pub const BAD_PARAMS: &'static str = "Failed parsing args: ";

/// The string member `key` of the `info` of `j`.
pub open spec fn info_text(j: Json, key: Seq<char>) -> Option<String> {
    match info_field(j, key) {
        Some(Json::Str(s)) => Some(s),
        _ => None,
    }
}

/// An error of the `block` method.
pub enum RpcBlockError {
    UnknownBlock { error_message: String },
    NotSyncedYet,
    InternalError { error_message: String },
}

/// The text that shows `e`.
pub open spec fn block_error_text(e: RpcBlockError) -> Seq<char> {
    match e {
        RpcBlockError::UnknownBlock { error_message } => "Block not found: "@ + error_message@,
        RpcBlockError::NotSyncedYet => "There are no fully synchronized blocks yet"@,
        RpcBlockError::InternalError { error_message } =>
            "The node reached its limits. Try again later. More details: "@ + error_message@,
    }
}

/// `j` is the wire form of `e`: `{name, info: {error_message}}`, or `{name}` where `e` has no payload.
pub open spec fn block_error_wire(j: Json, e: RpcBlockError) -> bool {
    match e {
        RpcBlockError::UnknownBlock { .. } => is_wire_error_bare(j, "UNKNOWN_BLOCK"@),
        RpcBlockError::NotSyncedYet => is_wire_error(j, "NOT_SYNCED_YET"@, None),
        RpcBlockError::InternalError { error_message } =>
            is_wire_error(j, "INTERNAL_ERROR"@, Some(("error_message"@, Json::Str(error_message)))),
    }
}

/// `e` is what the node's error `j` decodes to: a known tag with its payload gives
/// its variant, anything else an internal error.
pub open spec fn block_error_decoded(j: Json, e: RpcBlockError) -> bool {
    let b = error_body(j);
    let m = info_text(b, "error_message"@);
    if tag_of(b) == Some("UNKNOWN_BLOCK"@) && m is Some {
        e == RpcBlockError::UnknownBlock { error_message: m->0 }
    } else if tag_of(b) == Some("NOT_SYNCED_YET"@) {
        e == RpcBlockError::NotSyncedYet
    } else if tag_of(b) == Some("INTERNAL_ERROR"@) && m is Some {
        e == RpcBlockError::InternalError { error_message: m->0 }
    } else {
        e matches RpcBlockError::InternalError { error_message } && error_message@ == unknown_tag_message(tag_of(b))
    }
}

/// `r` is the generic form of `e`: an internal error keeps its message; any other is a
/// handler error tagged with its wire form and shown by its text. The data is the text,
/// and for an unknown block the node's account of the lookup.
pub open spec fn block_rpc_form(e: RpcBlockError, r: RpcError) -> bool {
    &&& r.code == SERVER_ERROR_CODE
    &&& match e {
        RpcBlockError::InternalError { error_message } => match r.kind {
            RpcErrorKind::InternalError(s) => is_tagged_message(s, "INTERNAL_ERROR"@, error_message@)
                && r.message == error_message && text_of(r.data) == Some(block_error_text(e)),
            _ => false,
        },
        RpcBlockError::UnknownBlock { error_message } => match r.kind {
            RpcErrorKind::HandlerError(w) => block_error_wire(w, e) && r.message@ == block_error_text(e)
                && text_of(r.data) == Some("DB Not Found Error: "@ + error_message@ + " \n Cause: Unknown"@),
            _ => false,
        },
        RpcBlockError::NotSyncedYet => match r.kind {
            RpcErrorKind::HandlerError(w) => block_error_wire(w, e) && r.message@ == block_error_text(e)
                && text_of(r.data) == Some(block_error_text(e)),
            _ => false,
        },
    }
}

/// Whether `a` holds the text `t`.
fn is_named(a: Option<&String>, t: &str) -> (r: bool)
    ensures
        r == (a matches Some(s) && s@ == t@),
{
    match a {
        Some(s) => crate::json::str_eq(s.as_str(), t),
        None => false,
    }
}

/// The text for the tag `tag` that no variant has.
pub open spec fn unknown_tag_message(tag: Option<Seq<char>>) -> Seq<char> {
    match tag {
        Some(t) => "Unrecognised error: "@ + t,
        None => "Unrecognised error without a name"@,
    }
}

/// The text for a tag that no variant has.
pub fn unknown_tag_text(tag: Option<&String>) -> (r: String)
    ensures
        r@ == unknown_tag_message(match tag {
            Some(t) => Some(t@),
            None => None,
        }),
{
    match tag {
        Some(t) => concat("Unrecognised error: ", t.as_str()),
        None => "Unrecognised error without a name".to_owned(),
    }
}

impl RpcBlockError {
    /// The wire form of this error.
    pub fn to_wire(&self) -> (r: Json)
        ensures
            block_error_wire(r, *self),
    {
        match self {
            RpcBlockError::UnknownBlock { .. } => wire_error_bare("UNKNOWN_BLOCK"),
            RpcBlockError::NotSyncedYet => wire_error("NOT_SYNCED_YET", None),
            RpcBlockError::InternalError { error_message } =>
                wire_error("INTERNAL_ERROR", Some(("error_message", Json::Str(error_message.clone())))),
        }
    }

    /// The error that the node's error object `j` reports. Never fails: what no variant
    /// matches becomes an internal error.
    pub fn from_wire(j: &Json) -> (r: RpcBlockError)
        ensures
            block_error_decoded(*j, r),
    {
        let b = get_error_body(j);
        let tag = get_tag(b);
        let m = get_info_text(b, "error_message");
        if is_named(tag, "UNKNOWN_BLOCK") && m.is_some() {
            RpcBlockError::UnknownBlock { error_message: m.unwrap() }
        } else if is_named(tag, "NOT_SYNCED_YET") {
            RpcBlockError::NotSyncedYet
        } else if is_named(tag, "INTERNAL_ERROR") && m.is_some() {
            RpcBlockError::InternalError { error_message: m.unwrap() }
        } else {
            RpcBlockError::InternalError { error_message: unknown_tag_text(tag) }
        }
    }

    /// The text that shows this error.
    pub fn message(&self) -> (r: String)
        ensures
            r@ == block_error_text(*self),
    {
        match self {
            RpcBlockError::UnknownBlock { error_message } => concat("Block not found: ", error_message.as_str()),
            RpcBlockError::NotSyncedYet => "There are no fully synchronized blocks yet".to_owned(),
            RpcBlockError::InternalError { error_message } => concat(
                "The node reached its limits. Try again later. More details: ",
                error_message.as_str(),
            ),
        }
    }

    /// This error in the generic form. An internal error keeps its message; any other
    /// is a handler error tagged with its wire form and shown by its text.
    pub fn into_rpc_error(self) -> (r: RpcError)
        ensures
            block_rpc_form(self, r),
    {
        let text = self.message();
        let wire = self.to_wire();
        match self {
            RpcBlockError::UnknownBlock { error_message } => {
                let d = concat(concat("DB Not Found Error: ", error_message.as_str()).as_str(), " \n Cause: Unknown");
                RpcError::new_handler_error(Some(Json::Str(d)), wire, text)
            },
            RpcBlockError::NotSyncedYet => {
                RpcError::new_handler_error(Some(Json::Str(text.clone())), wire, text)
            },
            RpcBlockError::InternalError { error_message } => RpcError::new_internal_error(Some(Json::Str(text)), error_message),
        }
    }
}

/// The reason for parameters of the wrong shape.
pub fn bad_params(reason: &str) -> (r: RpcParseError)
    ensures
        r.0@ == BAD_PARAMS@ + reason@,
{
    RpcParseError(concat(BAD_PARAMS, reason))
}

/// A request for one block.
pub struct RpcBlockRequest {
    pub block_reference: BlockReference,
}

/// `r` is what the parameters `value` of a block request give: a positional block id
/// `[id]` where they are one, else a named reference `{"block_id": id}` or `{"finality": f}`.
pub open spec fn block_request_parsed(value: Option<Json>, r: BlockReference) -> bool {
    match value {
        Some(j) => match single_item(j) {
            Some(x) => if is_block_id_json(x) {
                match r {
                    BlockReference::BlockId(b) => block_id_json(x, b),
                    _ => false,
                }
            } else {
                block_reference_json(j, r)
            },
            None => block_reference_json(j, r),
        },
        None => false,
    }
}

/// Why the parameters `value` give no block request: none given, or the named reference's reason.
pub open spec fn block_request_error(value: Option<Json>) -> Seq<char> {
    match value {
        Some(j) => BAD_PARAMS@ + block_reference_error(j),
        None => MISSING_PARAMS@,
    }
}

/// The parameters `value` of a block request have one of the accepted shapes.
pub open spec fn block_request_parses(value: Option<Json>) -> bool {
    match value {
        Some(j) => match single_item(j) {
            Some(x) => is_block_id_json(x) || is_block_reference_json(j),
            None => is_block_reference_json(j),
        },
        None => false,
    }
}

impl RpcBlockRequest {
    /// Reads the parameters of a block request, trying a positional block id first
    /// and a named block reference second.
    pub fn parse(value: Option<Json>) -> (r: Result<RpcBlockRequest, RpcParseError>)
        ensures
            r is Ok <==> block_request_parses(value),
            r matches Ok(req) ==> block_request_parsed(value, req.block_reference),
            r matches Err(e) ==> e.0@ == block_request_error(value),
    {
        let j = match value {
            Some(j) => j,
            None => {
                return Err(RpcParseError(MISSING_PARAMS.to_owned()));
            },
        };
        if let Some(x) = get_single_item(&j) {
            if let Ok(b) = BlockId::from_json(x) {
                return Ok(RpcBlockRequest { block_reference: BlockReference::BlockId(b) });
            }
        }
        match BlockReference::from_json(&j) {
            Ok(block_reference) => Ok(RpcBlockRequest { block_reference }),
            Err(e) => Err(bad_params(e.as_str())),
        }
    }
}

/// The header of a block, as far as this library reads it.
pub struct BlockHeaderView {
    pub hash: CryptoHash,
    pub height: Option<u64>,
}

/// A block, as far as this library reads it.
pub struct BlockView {
    pub header: BlockHeaderView,
}

/// `j` is the JSON form of the header `h`: its `hash` as base58 text, and its `height`
/// as a number where it has one.
pub open spec fn header_json(j: Json, h: BlockHeaderView) -> bool {
    &&& match field(j, "hash"@) {
        Some(Json::Str(s)) => base58_hash(s@) == Some(h.hash.0@),
        _ => false,
    }
    &&& match field(j, "height"@) {
        None => h.height is None,
        Some(Json::Int(n)) => 0 <= n <= u64::MAX && h.height == Some(n as u64),
        _ => false,
    }
}

/// `j` is the JSON form of some header.
pub open spec fn is_header_json(j: Json) -> bool {
    &&& match field(j, "hash"@) {
        Some(Json::Str(s)) => base58_hash(s@) is Some,
        _ => false,
    }
    &&& match field(j, "height"@) {
        None => true,
        Some(Json::Int(n)) => 0 <= n <= u64::MAX,
        _ => false,
    }
}

/// `j` is the JSON form of the block `v`.
pub open spec fn block_view_json(j: Json, v: BlockView) -> bool {
    match field(j, "header"@) {
        Some(h) => header_json(h, v.header),
        None => false,
    }
}

/// `j` is the JSON form of some block.
pub open spec fn is_block_view_json(j: Json) -> bool {
    match field(j, "header"@) {
        Some(h) => is_header_json(h),
        None => false,
    }
}

impl BlockView {
    /// The JSON form of this block: `{"header": {"hash": .., "height": ..}}`.
    pub fn to_json(&self) -> (r: Json)
        ensures
            block_view_json(r, *self),
    {
        proof {
            reveal_strlit("hash");
            reveal_strlit("height");
            assert("hash"@.len() != "height"@.len());
            reveal_with_fuel(crate::json::member, 3);
        }
        let tail = match self.header.height {
            Some(n) => Members::Nil.with("height", Json::Int(n as i128)),
            None => Members::Nil,
        };
        let header = Json::Object(tail.with("hash", Json::Str(self.header.hash.to_base58())));
        Json::Object(Members::Nil.with("header", header))
    }

    /// The block that the result `j` describes; an internal error where it has another shape.
    pub fn from_json(j: &Json) -> (r: Result<BlockView, RpcError>)
        ensures
            r is Ok <==> is_block_view_json(*j),
            r matches Ok(v) ==> block_view_json(*j, v),
            r matches Err(e) ==> e.kind is InternalError,
    {
        let h = match j.get("header") {
            Some(h) => h,
            None => {
                return Err(RpcError::new_internal_error(None, "Block has no header".to_owned()));
            },
        };
        let hash = match h.get("hash") {
            Some(Json::Str(s)) => match CryptoHash::from_base58(s.as_str()) {
                Ok(hash) => hash,
                Err(e) => {
                    return Err(RpcError::new_internal_error(None, e));
                },
            },
            _ => {
                return Err(RpcError::new_internal_error(None, "Block header has no hash".to_owned()));
            },
        };
        let height = match h.get("height") {
            None => None,
            Some(Json::Int(n)) => {
                if 0 <= *n && *n <= u64::MAX as i128 {
                    Some(*n as u64)
                } else {
                    return Err(RpcError::new_internal_error(None, "Block height out of range".to_owned()));
                }
            },
            Some(_) => {
                return Err(RpcError::new_internal_error(None, "Block height is not a number".to_owned()));
            },
        };
        Ok(BlockView { header: BlockHeaderView { hash, height } })
    }
}

/// The result of the `block` method.
pub struct RpcBlockResponse {
    pub block_view: BlockView,
}

impl RpcBlockResponse {
    /// The result that `j` holds: a block.
    pub fn from_json(j: &Json) -> (r: Result<RpcBlockResponse, RpcError>)
        ensures
            r is Ok <==> is_block_view_json(*j),
            r matches Ok(v) ==> block_view_json(*j, v.block_view),
            r matches Err(e) ==> e.kind is InternalError,
    {
        match BlockView::from_json(j) {
            Ok(block_view) => Ok(RpcBlockResponse { block_view }),
            Err(e) => Err(e),
        }
    }

    /// The JSON form: the block's own.
    pub fn to_json(&self) -> (r: Json)
        ensures
            block_view_json(r, self.block_view),
    {
        self.block_view.to_json()
    }
}

/// Decoding the JSON form of a block gives that block back.
pub proof fn lemma_block_view_round_trip(v: BlockView, j: Json, d: BlockView)
    requires
        block_view_json(j, v),
        block_view_json(j, d),
    ensures
        d == v,
{
    let h = field(j, "header"@)->0;
    crate::types::lemma_hash_bytes_equal(d.header.hash, v.header.hash);
}

/// A positional block id and the named reference `{"block_id": ..}` to the same id
/// parse to the same block reference.
pub proof fn lemma_block_request_shapes_agree(x: Json, positional: Json, named: Json, a: BlockReference, b: BlockReference)
    requires
        single_item(positional) == Some(x),
        named matches Json::Object(Members::Cons(k, v, rest)) && k@ == "block_id"@ && *v == x && *rest == Members::Nil,
        block_request_parsed(Some(positional), a),
        block_request_parsed(Some(named), b),
    ensures
        a == b,
{
    reveal_strlit("block_id");
    reveal_strlit("finality");
    assert("block_id"@[0] != "finality"@[0]);
    if let (BlockReference::BlockId(p), BlockReference::BlockId(q)) = (a, b) {
        crate::types::lemma_block_id_json_unique(x, p, q);
    }
}

/// Decoding the wire form of a block error gives that error back, but for an unknown
/// block, whose message the wire form leaves out.
pub proof fn lemma_block_error_round_trip(e: RpcBlockError, j: Json, d: RpcBlockError)
    requires
        !(e is UnknownBlock),
        block_error_wire(j, e),
        block_error_decoded(j, d),
    ensures
        d == e,
{
    reveal_strlit("cause");
    reveal_strlit("name");
    reveal_strlit("info");
    reveal_strlit("error_message");
    reveal_strlit("UNKNOWN_BLOCK");
    reveal_strlit("NOT_SYNCED_YET");
    reveal_strlit("INTERNAL_ERROR");
    reveal_with_fuel(crate::json::member, 4);
    assert("cause"@[0] != "name"@[0]);
    assert("cause"@[0] != "info"@[0]);
    assert("name"@[0] != "info"@[0]);
    assert("UNKNOWN_BLOCK"@[0] != "NOT_SYNCED_YET"@[0]);
    assert("UNKNOWN_BLOCK"@[0] != "INTERNAL_ERROR"@[0]);
    assert("INTERNAL_ERROR"@[0] != "NOT_SYNCED_YET"@[0]);
}

/// Every block error collapses to the server error code, as a handler error unless it is an
/// internal one; a tag that names no other variant decodes to an internal error.
pub proof fn lemma_block_error_codes(j: Json, d: RpcBlockError, r: RpcError)
    requires
        block_error_decoded(j, d),
        block_rpc_form(d, r),
    ensures
        r.code == SERVER_ERROR_CODE,
        d is InternalError <==> r.kind is InternalError,
        !(d is InternalError) ==> r.kind is HandlerError,
        tag_of(error_body(j)) != Some("UNKNOWN_BLOCK"@) && tag_of(error_body(j)) != Some("NOT_SYNCED_YET"@)
            ==> d is InternalError,
{
}

} // verus!
