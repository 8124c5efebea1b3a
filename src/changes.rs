//! State changes in a block: requests, results and errors.
use vstd::prelude::*;
use crate::json::{Json, Items, Members, concat, text_of, field, str_eq};
use crate::errors::{
    RpcError, RpcErrorKind, RpcParseError, SERVER_ERROR_CODE, error_body, get_error_body, get_info_text,
    get_tag, is_wire_error, is_wire_error_bare, tag_of, wire_error, wire_error_bare, is_tagged_message,
};
use crate::blocks::{MISSING_PARAMS, bad_params, info_text, unknown_tag_message, unknown_tag_text};
use crate::types::{
    AccountId, BlockReference, CryptoHash, base58_hash, block_reference_member, is_block_reference_member,
    is_valid_account_id,
};
use crate::provider::{
    AccessKeyWithPublicKey, ChangesKind, account_ids_json, changes_members, changes_type_name, has_account_ids, keys_json,
    names_reference,
};
use crate::transactions::{base64_decoded, decode_base64_text};

verus! {

/// An error of a state-changes method.
pub enum RpcStateChangesError {
    UnknownBlock { error_message: String },
    NotSyncedYet,
    InternalError { error_message: String },
}

/// The text that shows `e`.
pub open spec fn state_changes_error_text(e: RpcStateChangesError) -> Seq<char> {
    match e {
        RpcStateChangesError::UnknownBlock { error_message } => "Block not found: "@ + error_message@,
        RpcStateChangesError::NotSyncedYet => "There are no fully synchronized blocks yet"@,
        RpcStateChangesError::InternalError { error_message } =>
            "The node reached its limits. Try again later. More details: "@ + error_message@,
    }
}

/// `j` is the wire form of `e`.
pub open spec fn state_changes_error_wire(j: Json, e: RpcStateChangesError) -> bool {
    match e {
        RpcStateChangesError::UnknownBlock { .. } => is_wire_error_bare(j, "UNKNOWN_BLOCK"@),
        RpcStateChangesError::NotSyncedYet => is_wire_error(j, "NOT_SYNCED_YET"@, None),
        RpcStateChangesError::InternalError { error_message } =>
            is_wire_error(j, "INTERNAL_ERROR"@, Some(("error_message"@, Json::Str(error_message)))),
    }
}

/// `e` is what the node's error `j` decodes to.
pub open spec fn state_changes_error_decoded(j: Json, e: RpcStateChangesError) -> bool {
    let b = error_body(j);
    let m = info_text(b, "error_message"@);
    if tag_of(b) == Some("UNKNOWN_BLOCK"@) && m is Some {
        e == RpcStateChangesError::UnknownBlock { error_message: m->0 }
    } else if tag_of(b) == Some("NOT_SYNCED_YET"@) {
        e == RpcStateChangesError::NotSyncedYet
    } else if tag_of(b) == Some("INTERNAL_ERROR"@) && m is Some {
        e == RpcStateChangesError::InternalError { error_message: m->0 }
    } else {
        e matches RpcStateChangesError::InternalError { error_message } && error_message@ == unknown_tag_message(tag_of(b))
    }
}

/// `r` is the generic form of `e`: an internal error keeps its message, any other is a
/// handler error tagged with its wire form; the wire form or the message is the data.
pub open spec fn state_changes_rpc_form(e: RpcStateChangesError, r: RpcError) -> bool {
    &&& r.code == SERVER_ERROR_CODE
    &&& match e {
        RpcStateChangesError::InternalError { error_message } => match r.kind {
            RpcErrorKind::InternalError(s) => is_tagged_message(s, "INTERNAL_ERROR"@, error_message@)
                && r.message == error_message && (r.data matches Some(w) && state_changes_error_wire(w, e)),
            _ => false,
        },
        _ => match r.kind {
            RpcErrorKind::HandlerError(w) => state_changes_error_wire(w, e) && r.data == Some(w)
                && r.message@ == state_changes_error_text(e),
            _ => false,
        },
    }
}

impl RpcStateChangesError {
    /// The wire form of this error.
    pub fn to_wire(&self) -> (r: Json)
        ensures
            state_changes_error_wire(r, *self),
    {
        match self {
            RpcStateChangesError::UnknownBlock { .. } => wire_error_bare("UNKNOWN_BLOCK"),
            RpcStateChangesError::NotSyncedYet => wire_error("NOT_SYNCED_YET", None),
            RpcStateChangesError::InternalError { error_message } =>
                wire_error("INTERNAL_ERROR", Some(("error_message", Json::Str(error_message.clone())))),
        }
    }

    /// The error that the node's error object `j` reports; never fails.
    pub fn from_wire(j: &Json) -> (r: RpcStateChangesError)
        ensures
            state_changes_error_decoded(*j, r),
    {
        let b = get_error_body(j);
        let tag = get_tag(b);
        let named = |t: &str| -> (r: bool)
            ensures
                r == (tag matches Some(s) && s@ == t@),
            {
                match tag {
                    Some(s) => crate::json::str_eq(s.as_str(), t),
                    None => false,
                }
            };
        let m = get_info_text(b, "error_message");
        if named("UNKNOWN_BLOCK") && m.is_some() {
            RpcStateChangesError::UnknownBlock { error_message: m.unwrap() }
        } else if named("NOT_SYNCED_YET") {
            RpcStateChangesError::NotSyncedYet
        } else if named("INTERNAL_ERROR") && m.is_some() {
            RpcStateChangesError::InternalError { error_message: m.unwrap() }
        } else {
            RpcStateChangesError::InternalError { error_message: unknown_tag_text(tag) }
        }
    }

    /// The text that shows this error.
    pub fn message(&self) -> (r: String)
        ensures
            r@ == state_changes_error_text(*self),
    {
        match self {
            RpcStateChangesError::UnknownBlock { error_message } => concat("Block not found: ", error_message.as_str()),
            RpcStateChangesError::NotSyncedYet => "There are no fully synchronized blocks yet".to_owned(),
            RpcStateChangesError::InternalError { error_message } => concat(
                "The node reached its limits. Try again later. More details: ",
                error_message.as_str(),
            ),
        }
    }

    /// This error in the generic form; its wire form is kept both as its tag and as its data.
    pub fn into_rpc_error(self) -> (r: RpcError)
        ensures
            state_changes_rpc_form(self, r),
    {
        let text = self.message();
        let wire = self.to_wire();
        match self {
            RpcStateChangesError::InternalError { error_message } =>
                RpcError::new_internal_error(Some(wire), error_message),
            _ => RpcError::new_handler_error(Some(wire.copy()), wire, text),
        }
    }
}

/// The first member of `m` that names a block reference: `block_id` or `finality`.
pub open spec fn first_reference_member(m: Members) -> Option<(Seq<char>, Json)>
    decreases m,
{
    match m {
        Members::Nil => None,
        Members::Cons(k, v, rest) => if k@ == "block_id"@ || k@ == "finality"@ {
            Some((k@, *v))
        } else {
            first_reference_member(*rest)
        },
    }
}

/// `r` is the block reference that the object `j` names among its other members.
pub open spec fn embedded_reference(j: Json, r: BlockReference) -> bool {
    match j {
        Json::Object(m) => match first_reference_member(m) {
            Some((k, v)) => block_reference_member(k, v, r),
            None => false,
        },
        _ => false,
    }
}

/// The object `j` names some block reference among its other members.
pub open spec fn has_embedded_reference(j: Json) -> bool {
    match j {
        Json::Object(m) => match first_reference_member(m) {
            Some((k, v)) => is_block_reference_member(k, v),
            None => false,
        },
        _ => false,
    }
}

/// The first member of `m` that names a block reference.
fn find_reference_member(m: &Members) -> (r: Option<(&String, &Json)>)
    ensures
        r is None <==> first_reference_member(*m) is None,
        r matches Some(p) ==> first_reference_member(*m) == Some((p.0@, *p.1)),
    decreases m,
{
    match m {
        Members::Nil => None,
        Members::Cons(k, v, rest) => {
            if crate::json::str_eq(k.as_str(), "block_id") || crate::json::str_eq(k.as_str(), "finality") {
                Some((k, &**v))
            } else {
                find_reference_member(&**rest)
            }
        },
    }
}

/// The block reference that the object `j` names among its other members.
pub fn parse_embedded_reference(j: &Json) -> (r: Result<BlockReference, String>)
    ensures
        r is Ok <==> has_embedded_reference(*j),
        r matches Ok(b) ==> embedded_reference(*j, b),
{
    match j {
        Json::Object(m) => match find_reference_member(m) {
            Some((k, v)) => BlockReference::from_member(k.as_str(), v),
            None => Err("missing field `block_id` or `finality`".to_owned()),
        },
        _ => Err("expected an object".to_owned()),
    }
}

/// A request for all state changes in a block.
pub struct RpcStateChangesInBlockRequest {
    pub block_reference: BlockReference,
}

impl RpcStateChangesInBlockRequest {
    /// Reads the parameters: an object naming a block by `block_id` or `finality`.
    pub fn parse(value: Option<Json>) -> (r: Result<RpcStateChangesInBlockRequest, RpcParseError>)
        ensures
            r is Ok <==> (value matches Some(j) && has_embedded_reference(j)),
            r matches Ok(req) ==> embedded_reference(value->0, req.block_reference),
    {
        match value {
            Some(j) => match parse_embedded_reference(&j) {
                Ok(block_reference) => Ok(RpcStateChangesInBlockRequest { block_reference }),
                Err(e) => Err(bad_params(e.as_str())),
            },
            None => Err(RpcParseError(MISSING_PARAMS.to_owned())),
        }
    }
}

/// The items `items` are all valid account ids as strings.
pub open spec fn is_account_ids_json(items: Items) -> bool
    decreases items,
{
    match items {
        Items::Nil => true,
        Items::Cons(x, rest) => (*x matches Json::Str(s) && is_valid_account_id(s@)) && is_account_ids_json(*rest),
    }
}

/// The items `items` are all `{account_id, public_key}` objects with a valid account id.
pub open spec fn is_keys_json(items: Items) -> bool
    decreases items,
{
    match items {
        Items::Nil => true,
        Items::Cons(x, rest) => (text_of(field(*x, "account_id"@)) matches Some(a) && is_valid_account_id(a))
            && text_of(field(*x, "public_key"@)) is Some && is_keys_json(*rest),
    }
}

/// `p` lists valid account ids under `account_ids`.
pub open spec fn has_account_ids_json(p: Json) -> bool {
    field(p, "account_ids"@) matches Some(Json::Array(items)) && is_account_ids_json(items)
}

/// `k` is the kind of changes that the parameters `p` name, with what that kind asks for.
pub open spec fn changes_kind_parsed(p: Json, k: ChangesKind) -> bool {
    &&& text_of(field(p, "changes_type"@)) == Some(changes_type_name(k))
    &&& match k {
        ChangesKind::SingleAccessKeyChanges { keys } => field(p, "keys"@) matches Some(Json::Array(items))
            && keys_json(items, keys@),
        ChangesKind::DataChanges { account_ids, key_prefix } => has_account_ids(p, account_ids@)
            && (text_of(field(p, "key_prefix_base64"@)) matches Some(t) && base64_decoded(t) == Some(key_prefix@)),
        ChangesKind::AllAccessKeyChanges { account_ids } => has_account_ids(p, account_ids@),
        ChangesKind::AccountChanges { account_ids } => has_account_ids(p, account_ids@),
        ChangesKind::ContractCodeChanges { account_ids } => has_account_ids(p, account_ids@),
    }
}

/// The parameters `p` name a kind of changes, with what that kind asks for.
pub open spec fn is_changes_kind_json(p: Json) -> bool {
    match text_of(field(p, "changes_type"@)) {
        Some(t) => if t == "single_access_key_changes"@ {
            field(p, "keys"@) matches Some(Json::Array(items)) && is_keys_json(items)
        } else if t == "data_changes"@ {
            has_account_ids_json(p) && (text_of(field(p, "key_prefix_base64"@)) matches Some(x)
                && base64_decoded(x) is Some)
        } else {
            (t == "all_access_key_changes"@ || t == "account_changes"@ || t == "contract_code_changes"@)
                && has_account_ids_json(p)
        },
        None => false,
    }
}

/// The account ids that `items` list.
fn parse_account_ids(items: &Items) -> (r: Result<Vec<AccountId>, String>)
    ensures
        r is Ok <==> is_account_ids_json(*items),
        r matches Ok(ids) ==> account_ids_json(*items, ids@),
    decreases items,
{
    match items {
        Items::Nil => Ok(Vec::new()),
        Items::Cons(x, rest) => match &**x {
            Json::Str(s) => match AccountId::parse(s.as_str()) {
                Ok(a) => match parse_account_ids(&**rest) {
                    Ok(ids) => {
                        let mut out = ids;
                        let ghost tail = out@;
                        out.insert(0, a);
                        assert(out@.drop_first() =~= tail);
                        Ok(out)
                    },
                    Err(e) => Err(e),
                },
                Err(e) => Err(e),
            },
            _ => Err("an account id must be a string".to_owned()),
        },
    }
}

/// The access keys that `items` list.
fn parse_keys(items: &Items) -> (r: Result<Vec<AccessKeyWithPublicKey>, String>)
    ensures
        r is Ok <==> is_keys_json(*items),
        r matches Ok(keys) ==> keys_json(*items, keys@),
    decreases items,
{
    match items {
        Items::Nil => Ok(Vec::new()),
        Items::Cons(x, rest) => {
            let account_id = match x.get("account_id") {
                Some(Json::Str(a)) => match AccountId::parse(a.as_str()) {
                    Ok(a) => a,
                    Err(e) => {
                        return Err(e);
                    },
                },
                _ => {
                    return Err("missing field `account_id`".to_owned());
                },
            };
            let public_key = match x.get("public_key") {
                Some(Json::Str(k)) => k.clone(),
                _ => {
                    return Err("missing field `public_key`".to_owned());
                },
            };
            match parse_keys(&**rest) {
                Ok(keys) => {
                    let mut out = keys;
                    let ghost tail = out@;
                    out.insert(0, AccessKeyWithPublicKey { account_id, public_key });
                    assert(out@.drop_first() =~= tail);
                    Ok(out)
                },
                Err(e) => Err(e),
            }
        },
    }
}

/// The account ids listed under `account_ids` in `p`.
fn parse_account_ids_member(p: &Json) -> (r: Result<Vec<AccountId>, String>)
    ensures
        r is Ok <==> has_account_ids_json(*p),
        r matches Ok(ids) ==> has_account_ids(*p, ids@),
{
    match p.get("account_ids") {
        Some(Json::Array(items)) => parse_account_ids(items),
        _ => Err("missing field `account_ids`".to_owned()),
    }
}

/// The kind of changes that the parameters `p` name.
pub fn parse_changes_kind(p: &Json) -> (r: Result<ChangesKind, String>)
    ensures
        r is Ok <==> is_changes_kind_json(*p),
        r matches Ok(k) ==> changes_kind_parsed(*p, k),
{
    proof {
        reveal_strlit("single_access_key_changes");
        reveal_strlit("data_changes");
        reveal_strlit("all_access_key_changes");
        reveal_strlit("account_changes");
        reveal_strlit("contract_code_changes");
        assert("single_access_key_changes"@[0] != "data_changes"@[0]);
        assert("single_access_key_changes"@[0] != "all_access_key_changes"@[0]);
        assert("single_access_key_changes"@[0] != "account_changes"@[0]);
        assert("single_access_key_changes"@[0] != "contract_code_changes"@[0]);
        assert("data_changes"@[0] != "all_access_key_changes"@[0]);
        assert("data_changes"@[0] != "account_changes"@[0]);
        assert("data_changes"@[0] != "contract_code_changes"@[0]);
        assert("all_access_key_changes"@[1] != "account_changes"@[1]);
        assert("all_access_key_changes"@[0] != "contract_code_changes"@[0]);
        assert("account_changes"@[0] != "contract_code_changes"@[0]);
    }
    let t = match p.get("changes_type") {
        Some(Json::Str(t)) => t,
        _ => {
            return Err("missing field `changes_type`".to_owned());
        },
    };
    let name = t.as_str();
    if str_eq(name, "single_access_key_changes") {
        match p.get("keys") {
            Some(Json::Array(items)) => match parse_keys(items) {
                Ok(keys) => Ok(ChangesKind::SingleAccessKeyChanges { keys }),
                Err(e) => Err(e),
            },
            _ => Err("missing field `keys`".to_owned()),
        }
    } else if str_eq(name, "data_changes") {
        let account_ids = match parse_account_ids_member(p) {
            Ok(ids) => ids,
            Err(e) => {
                return Err(e);
            },
        };
        match p.get("key_prefix_base64") {
            Some(Json::Str(x)) => match decode_base64_text(x.as_str()) {
                Ok(key_prefix) => Ok(ChangesKind::DataChanges { account_ids, key_prefix }),
                Err(e) => Err(e),
            },
            _ => Err("missing field `key_prefix_base64`".to_owned()),
        }
    } else if str_eq(name, "all_access_key_changes") {
        match parse_account_ids_member(p) {
            Ok(account_ids) => Ok(ChangesKind::AllAccessKeyChanges { account_ids }),
            Err(e) => Err(e),
        }
    } else if str_eq(name, "account_changes") {
        match parse_account_ids_member(p) {
            Ok(account_ids) => Ok(ChangesKind::AccountChanges { account_ids }),
            Err(e) => Err(e),
        }
    } else if str_eq(name, "contract_code_changes") {
        match parse_account_ids_member(p) {
            Ok(account_ids) => Ok(ChangesKind::ContractCodeChanges { account_ids }),
            Err(e) => Err(e),
        }
    } else {
        Err("unknown variant of changes_type".to_owned())
    }
}

/// A request for the state changes of one kind in a block.
pub struct RpcStateChangesInBlockByTypeRequest {
    pub block_reference: BlockReference,
    pub state_changes_request: ChangesKind,
}

impl RpcStateChangesInBlockByTypeRequest {
    /// Reads the parameters: an object that names a kind of changes by `changes_type`, with
    /// what that kind asks for, and a block by `block_id` or `finality`.
    pub fn parse(value: Option<Json>) -> (r: Result<RpcStateChangesInBlockByTypeRequest, RpcParseError>)
        ensures
            r is Ok <==> (value matches Some(j) && has_embedded_reference(j) && is_changes_kind_json(j)),
            r matches Ok(req) ==> embedded_reference(value->0, req.block_reference)
                && changes_kind_parsed(value->0, req.state_changes_request),
    {
        match value {
            Some(j) => {
                let state_changes_request = match parse_changes_kind(&j) {
                    Ok(k) => k,
                    Err(e) => {
                        return Err(bad_params(e.as_str()));
                    },
                };
                match parse_embedded_reference(&j) {
                    Ok(block_reference) => Ok(RpcStateChangesInBlockByTypeRequest { block_reference, state_changes_request }),
                    Err(e) => Err(bad_params(e.as_str())),
                }
            },
            None => Err(RpcParseError(MISSING_PARAMS.to_owned())),
        }
    }
}

/// The state changes in a block: the block's hash and the changes.
pub struct RpcStateChangesInBlockResponse {
    pub block_hash: CryptoHash,
    pub changes: Json,
}

/// `j` is the JSON form of `r`: `{block_hash, changes}`.
pub open spec fn state_changes_json(j: Json, block_hash: CryptoHash, changes: Json) -> bool {
    &&& text_of(field(j, "block_hash"@)) matches Some(s) && base58_hash(s) == Some(block_hash.0@)
    &&& field(j, "changes"@) == Some(changes)
}

/// `j` is the JSON form of some state changes.
pub open spec fn is_state_changes_json(j: Json) -> bool {
    &&& text_of(field(j, "block_hash"@)) matches Some(s) && base58_hash(s) is Some
    &&& field(j, "changes"@) is Some
}

impl RpcStateChangesInBlockResponse {
    /// The JSON form: `{"block_hash": .., "changes": ..}`.
    pub fn to_json(&self) -> (r: Json)
        ensures
            state_changes_json(r, self.block_hash, self.changes),
    {
        proof {
            reveal_strlit("block_hash");
            reveal_strlit("changes");
            assert("block_hash"@[0] != "changes"@[0]);
            reveal_with_fuel(crate::json::member, 3);
        }
        let m = Members::Nil.with("changes", self.changes.copy());
        Json::Object(m.with("block_hash", Json::Str(self.block_hash.to_base58())))
    }

    /// The changes that the result `j` holds; an internal error where it has another shape.
    pub fn from_json(j: &Json) -> (r: Result<RpcStateChangesInBlockResponse, RpcError>)
        ensures
            r is Ok <==> is_state_changes_json(*j),
            r matches Ok(v) ==> state_changes_json(*j, v.block_hash, v.changes),
            r matches Err(e) ==> e.kind is InternalError,
    {
        let block_hash = match j.get("block_hash") {
            Some(Json::Str(s)) => match CryptoHash::from_base58(s.as_str()) {
                Ok(h) => h,
                Err(e) => {
                    return Err(RpcError::new_internal_error(None, e));
                },
            },
            _ => {
                return Err(RpcError::new_internal_error(None, "missing field `block_hash`".to_owned()));
            },
        };
        match j.get("changes") {
            Some(c) => Ok(RpcStateChangesInBlockResponse { block_hash, changes: c.copy() }),
            None => Err(RpcError::new_internal_error(None, "missing field `changes`".to_owned())),
        }
    }
}

/// The state changes of one kind in a block: the block's hash and the changes.
pub struct RpcStateChangesInBlockByTypeResponse {
    pub block_hash: CryptoHash,
    pub changes: Json,
}

impl RpcStateChangesInBlockByTypeResponse {
    /// The changes that the result `j` holds; an internal error where it has another shape.
    pub fn from_json(j: &Json) -> (r: Result<RpcStateChangesInBlockByTypeResponse, RpcError>)
        ensures
            r is Ok <==> is_state_changes_json(*j),
            r matches Ok(v) ==> state_changes_json(*j, v.block_hash, v.changes),
            r matches Err(e) ==> e.kind is InternalError,
    {
        match RpcStateChangesInBlockResponse::from_json(j) {
            Ok(v) => Ok(RpcStateChangesInBlockByTypeResponse { block_hash: v.block_hash, changes: v.changes }),
            Err(e) => Err(e),
        }
    }
}

/// Decoding the JSON form of state changes gives them back.
pub proof fn lemma_state_changes_round_trip(v: RpcStateChangesInBlockResponse, j: Json, d: RpcStateChangesInBlockResponse)
    requires
        state_changes_json(j, v.block_hash, v.changes),
        state_changes_json(j, d.block_hash, d.changes),
    ensures
        d == v,
{
    crate::types::lemma_hash_bytes_equal(d.block_hash, v.block_hash);
}

/// Every state-changes error collapses to the server error code, as a handler error unless
/// it is an internal one; a tag that names no other variant decodes to an internal error.
pub proof fn lemma_state_changes_error_codes(j: Json, d: RpcStateChangesError, r: RpcError)
    requires
        state_changes_error_decoded(j, d),
        state_changes_rpc_form(d, r),
    ensures
        r.code == SERVER_ERROR_CODE,
        d is InternalError <==> r.kind is InternalError,
        !(d is InternalError) ==> r.kind is HandlerError,
        tag_of(error_body(j)) != Some("UNKNOWN_BLOCK"@) && tag_of(error_body(j)) != Some("NOT_SYNCED_YET"@)
            ==> d is InternalError,
{
}

/// Decoding the wire form of a state-changes error gives that error back, but for an
/// unknown block, whose message the wire form leaves out.
pub proof fn lemma_state_changes_error_round_trip(e: RpcStateChangesError, j: Json, d: RpcStateChangesError)
    requires
        !(e is UnknownBlock),
        state_changes_error_wire(j, e),
        state_changes_error_decoded(j, d),
    ensures
        d == e,
{
    reveal_strlit("cause");
    reveal_strlit("name");
    reveal_strlit("info");
    reveal_strlit("error_message");
    reveal_strlit("UNKNOWN_BLOCK");
    reveal_strlit("NOT_SYNCED_YET");
    reveal_strlit("INTERNAL_ERROR");
    reveal_with_fuel(crate::json::member, 4);
    assert("cause"@[0] != "name"@[0]);
    assert("cause"@[0] != "info"@[0]);
    assert("name"@[0] != "info"@[0]);
    assert("UNKNOWN_BLOCK"@[0] != "NOT_SYNCED_YET"@[0]);
    assert("UNKNOWN_BLOCK"@[0] != "INTERNAL_ERROR"@[0]);
    assert("INTERNAL_ERROR"@[0] != "NOT_SYNCED_YET"@[0]);
}

/// Two lists of account ids hold the same ids, in order.
pub open spec fn same_ids(a: Seq<AccountId>, b: Seq<AccountId>) -> bool {
    a.len() == b.len() && forall|i: int| 0 <= i < a.len() ==> #[trigger] a[i]@ == b[i]@
}

/// Two lists of access keys hold the same keys, in order.
pub open spec fn same_keys(a: Seq<AccessKeyWithPublicKey>, b: Seq<AccessKeyWithPublicKey>) -> bool {
    a.len() == b.len() && forall|i: int| 0 <= i < a.len() ==> #[trigger] a[i].account_id@ == b[i].account_id@
        && a[i].public_key@ == b[i].public_key@
}

/// Two kinds of changes ask for the same thing.
pub open spec fn same_kind(a: ChangesKind, b: ChangesKind) -> bool {
    match (a, b) {
        (ChangesKind::AllAccessKeyChanges { account_ids: x }, ChangesKind::AllAccessKeyChanges { account_ids: y }) =>
            same_ids(x@, y@),
        (ChangesKind::SingleAccessKeyChanges { keys: x }, ChangesKind::SingleAccessKeyChanges { keys: y }) =>
            same_keys(x@, y@),
        (ChangesKind::AccountChanges { account_ids: x }, ChangesKind::AccountChanges { account_ids: y }) =>
            same_ids(x@, y@),
        (
            ChangesKind::DataChanges { account_ids: x, key_prefix: p },
            ChangesKind::DataChanges { account_ids: y, key_prefix: q },
        ) => same_ids(x@, y@) && p@ == q@,
        (ChangesKind::ContractCodeChanges { account_ids: x }, ChangesKind::ContractCodeChanges { account_ids: y }) =>
            same_ids(x@, y@),
        _ => false,
    }
}

proof fn lemma_ids_unique(items: Items, a: Seq<AccountId>, b: Seq<AccountId>)
    requires
        account_ids_json(items, a),
        account_ids_json(items, b),
    ensures
        same_ids(a, b),
    decreases a.len(),
{
    if let Items::Cons(_, rest) = items {
        lemma_ids_unique(*rest, a.drop_first(), b.drop_first());
        assert forall|i: int| 0 <= i < a.len() implies #[trigger] a[i]@ == b[i]@ by {
            if i > 0 {
                assert(a.drop_first()[i - 1] == a[i]);
                assert(b.drop_first()[i - 1] == b[i]);
            }
        }
    }
}

proof fn lemma_keys_unique(items: Items, a: Seq<AccessKeyWithPublicKey>, b: Seq<AccessKeyWithPublicKey>)
    requires
        keys_json(items, a),
        keys_json(items, b),
    ensures
        same_keys(a, b),
    decreases a.len(),
{
    if let Items::Cons(_, rest) = items {
        lemma_keys_unique(*rest, a.drop_first(), b.drop_first());
        assert forall|i: int| 0 <= i < a.len() implies #[trigger] a[i].account_id@ == b[i].account_id@
            && a[i].public_key@ == b[i].public_key@ by {
            if i > 0 {
                assert(a.drop_first()[i - 1] == a[i]);
                assert(b.drop_first()[i - 1] == b[i]);
            }
        }
    }
}

proof fn lemma_first_reference_member(m: Members)
    ensures
        first_reference_member(m) matches Some((k, v)) ==> (k == "block_id"@ || k == "finality"@)
            && crate::json::member(m, k) == Some(v),
    decreases m,
{
    reveal_strlit("block_id");
    reveal_strlit("finality");
    if let Members::Cons(k, v, rest) = m {
        lemma_first_reference_member(*rest);
    }
}

/// Reading back the parameters that `changes` writes for a kind and a block gives that
/// kind and that block.
pub proof fn lemma_changes_request_round_trip(
    k: ChangesKind,
    r: BlockReference,
    p: Json,
    k2: ChangesKind,
    r2: BlockReference,
)
    requires
        text_of(field(p, "changes_type"@)) == Some(changes_type_name(k)),
        changes_members(p, k),
        names_reference(p, r),
        embedded_reference(p, r2),
        changes_kind_parsed(p, k2),
    ensures
        same_kind(k, k2),
        r2 == r,
{
    reveal_strlit("single_access_key_changes");
    reveal_strlit("data_changes");
    reveal_strlit("all_access_key_changes");
    reveal_strlit("account_changes");
    reveal_strlit("contract_code_changes");
    assert("single_access_key_changes"@[0] != "data_changes"@[0]);
    assert("single_access_key_changes"@[0] != "all_access_key_changes"@[0]);
    assert("single_access_key_changes"@[0] != "account_changes"@[0]);
    assert("single_access_key_changes"@[0] != "contract_code_changes"@[0]);
    assert("data_changes"@[0] != "all_access_key_changes"@[0]);
    assert("data_changes"@[0] != "account_changes"@[0]);
    assert("data_changes"@[0] != "contract_code_changes"@[0]);
    assert("all_access_key_changes"@[1] != "account_changes"@[1]);
    assert("all_access_key_changes"@[0] != "contract_code_changes"@[0]);
    assert("account_changes"@[0] != "contract_code_changes"@[0]);
    match (k, k2) {
        (ChangesKind::AllAccessKeyChanges { account_ids: x }, ChangesKind::AllAccessKeyChanges { account_ids: y }) =>
            lemma_ids_unique(field(p, "account_ids"@)->0->Array_0, x@, y@),
        (ChangesKind::AccountChanges { account_ids: x }, ChangesKind::AccountChanges { account_ids: y }) =>
            lemma_ids_unique(field(p, "account_ids"@)->0->Array_0, x@, y@),
        (ChangesKind::ContractCodeChanges { account_ids: x }, ChangesKind::ContractCodeChanges { account_ids: y }) =>
            lemma_ids_unique(field(p, "account_ids"@)->0->Array_0, x@, y@),
        (ChangesKind::DataChanges { account_ids: x, .. }, ChangesKind::DataChanges { account_ids: y, .. }) =>
            lemma_ids_unique(field(p, "account_ids"@)->0->Array_0, x@, y@),
        (ChangesKind::SingleAccessKeyChanges { keys: x }, ChangesKind::SingleAccessKeyChanges { keys: y }) =>
            lemma_keys_unique(field(p, "keys"@)->0->Array_0, x@, y@),
        _ => {},
    }
    reveal_strlit("block_id");
    reveal_strlit("finality");
    reveal_strlit("optimistic");
    reveal_strlit("near-final");
    reveal_strlit("final");
    assert("block_id"@[0] != "finality"@[0]);
    assert("optimistic"@[0] != "near-final"@[0]);
    assert("final"@.len() != "near-final"@.len());
    let m = p->Object_0;
    lemma_first_reference_member(m);
    if let (BlockReference::BlockId(b), BlockReference::BlockId(b2)) = (r, r2) {
        let pair = first_reference_member(m)->0;
        crate::types::lemma_block_id_json_unique(pair.1, b, b2);
    }
}

} // verus!
