//! Transactions: submitting one, asking for its status, and the errors of both.
use vstd::prelude::*;
use crate::json::{Json, concat, text_of};
use crate::errors::{
    RpcError, RpcErrorKind, RpcParseError, SERVER_ERROR_CODE, error_body, get_error_body, get_info_text,
    get_tag, info_field, is_tagged_message, is_wire_error, tag_of, wire_error,
};
use crate::blocks::{BAD_PARAMS, MISSING_PARAMS, bad_params, info_text, unknown_tag_message, unknown_tag_text};
use crate::types::{
    AccountId, CryptoHash, base58_hash, hash_text, is_valid_account_id, single_item, two_items,
    get_single_item, get_two_items,
};

verus! {

/// What `s` decodes to in standard base64, where it is base64.
pub uninterp spec fn base64_decoded(s: Seq<char>) -> Option<Seq<u8>>;

/// The standard base64 text of `b`.
pub uninterp spec fn base64_text(b: Seq<u8>) -> Seq<char>;

/// The account that base64 gives of why `s` is no base64 text.
pub uninterp spec fn base64_error_text(s: Seq<char>) -> Seq<char>;

/// The account that borsh gives of why `b` encodes no signed transaction.
pub uninterp spec fn transaction_error_text_of(b: Seq<u8>) -> Seq<char>;

/// Whether `b` is the borsh encoding of a signed transaction.
pub uninterp spec fn is_signed_transaction(b: Seq<u8>) -> bool;

/// Relies on base64's `decode`, with its error's Display.
#[verifier::external_body]
fn decode_base64(s: &str) -> (r: Result<Vec<u8>, String>)
    ensures
        r is Ok <==> base64_decoded(s@) is Some,
        r matches Ok(b) ==> base64_decoded(s@) == Some(b@),
        r matches Err(e) ==> e@ == base64_error_text(s@),
{
    base64::decode(s).map_err(|e| e.to_string())
}

/// Relies on base64's `encode`, whose text `decode` reads back.
#[verifier::external_body]
fn encode_base64(b: &[u8]) -> (r: String)
    ensures
        r@ == base64_text(b@),
        base64_decoded(r@) == Some(b@),
{
    base64::encode(b)
}

/// Relies on borsh's `try_from_slice` for near_primitives' `SignedTransaction`.
#[verifier::external_body]
fn check_signed_transaction(b: &[u8]) -> (r: Result<(), String>)
    ensures
        r is Ok <==> is_signed_transaction(b@),
        r matches Err(e) ==> e@ == transaction_error_text_of(b@),
{
    <near_primitives::transaction::SignedTransaction as borsh::BorshDeserialize>::try_from_slice(b)
        .map(|_| ())
        .map_err(|e| e.to_string())
}

/// The bytes that the standard base64 text `s` holds.
pub fn decode_base64_text(s: &str) -> (r: Result<Vec<u8>, String>)
    ensures
        r is Ok <==> base64_decoded(s@) is Some,
        r matches Ok(b) ==> base64_decoded(s@) == Some(b@),
        r matches Err(e) ==> e@ == base64_error_text(s@),
{
    decode_base64(s)
}

/// The standard base64 text of `prefix`.
pub fn base64_of_bytes(prefix: &Vec<u8>) -> (r: String)
    ensures
        r@ == base64_text(prefix@),
        base64_decoded(r@) == Some(prefix@),
{
    encode_base64(prefix.as_slice())
}

/// A signed transaction, held as its borsh encoding.
pub struct SignedTransaction {
    bytes: Vec<u8>,
}

impl SignedTransaction {
    pub closed spec fn view(&self) -> Seq<u8> {
        self.bytes@
    }

    /// Every signed transaction held here decodes as one.
    #[verifier::type_invariant]
    spec fn valid(&self) -> bool {
        is_signed_transaction(self.bytes@)
    }

    /// The transaction that `bytes` encode, where they encode one.
    pub fn from_bytes(bytes: Vec<u8>) -> (r: Result<SignedTransaction, String>)
        ensures
            r is Ok <==> is_signed_transaction(bytes@),
            r matches Ok(t) ==> t@ == bytes@,
            r matches Err(e) ==> e@ == transaction_error_text_of(bytes@),
    {
        match check_signed_transaction(bytes.as_slice()) {
            Ok(()) => Ok(SignedTransaction { bytes }),
            Err(e) => Err(e),
        }
    }

    /// The borsh encoding of this transaction.
    pub fn bytes(&self) -> (r: &Vec<u8>)
        ensures
            r@ == self@,
            is_signed_transaction(r@),
    {
        proof {
            use_type_invariant(self);
        }
        &self.bytes
    }

    /// The base64 text of this transaction's encoding.
    pub fn to_base64(&self) -> (r: String)
        ensures
            r@ == base64_text(self@),
            base64_decoded(r@) == Some(self@),
            is_signed_transaction(self@),
    {
        proof {
            use_type_invariant(self);
        }
        encode_base64(self.bytes.as_slice())
    }
}

/// Start of the reason given where a transaction cannot be decoded.
pub const BAD_TRANSACTION: &'static str = "Failed to decode transaction: ";

/// `t` is what the parameters `value` give: `[text]`, where the text is base64 of a signed
/// transaction's encoding.
pub open spec fn signed_transaction_parsed(value: Option<Json>, t: Seq<u8>) -> bool {
    match value {
        Some(j) => match single_item(j) {
            Some(Json::Str(s)) => base64_decoded(s@) == Some(t) && is_signed_transaction(t),
            _ => false,
        },
        None => false,
    }
}

/// The parameters `value` hold a signed transaction.
pub open spec fn signed_transaction_parses(value: Option<Json>) -> bool {
    match value {
        Some(j) => match single_item(j) {
            Some(Json::Str(s)) => base64_decoded(s@) matches Some(b) && is_signed_transaction(b),
            _ => false,
        },
        None => false,
    }
}

/// Why the parameters `value` hold no signed transaction.
pub open spec fn signed_transaction_error(value: Option<Json>) -> Seq<char> {
    match value {
        Some(j) => match single_item(j) {
            Some(Json::Str(s)) => match base64_decoded(s@) {
                Some(b) => BAD_TRANSACTION@ + transaction_error_text_of(b),
                None => BAD_TRANSACTION@ + base64_error_text(s@),
            },
            _ => BAD_PARAMS@ + "expected a list holding one base64 string"@,
        },
        None => MISSING_PARAMS@,
    }
}

/// The signed transaction that the parameters `value` hold.
pub fn parse_signed_transaction(value: Option<Json>) -> (r: Result<SignedTransaction, RpcParseError>)
    ensures
        r is Ok <==> signed_transaction_parses(value),
        r matches Ok(t) ==> signed_transaction_parsed(value, t@),
        r matches Err(e) ==> e.0@ == signed_transaction_error(value),
{
    let j = match value {
        Some(j) => j,
        None => {
            return Err(RpcParseError(MISSING_PARAMS.to_owned()));
        },
    };
    let text = match get_single_item(&j) {
        Some(Json::Str(s)) => s,
        _ => {
            return Err(bad_params("expected a list holding one base64 string"));
        },
    };
    let bytes = match decode_base64(text.as_str()) {
        Ok(b) => b,
        Err(e) => {
            return Err(RpcParseError(concat(BAD_TRANSACTION, e.as_str())));
        },
    };
    match SignedTransaction::from_bytes(bytes) {
        Ok(t) => Ok(t),
        Err(e) => Err(RpcParseError(concat(BAD_TRANSACTION, e.as_str()))),
    }
}

/// A request to submit a signed transaction.
pub struct RpcBroadcastTransactionRequest {
    pub signed_transaction: SignedTransaction,
}

impl RpcBroadcastTransactionRequest {
    /// Reads the parameters of a submission: `[base64 of the transaction]`.
    pub fn parse(value: Option<Json>) -> (r: Result<RpcBroadcastTransactionRequest, RpcParseError>)
        ensures
            r is Ok <==> signed_transaction_parses(value),
            r matches Ok(req) ==> signed_transaction_parsed(value, req.signed_transaction@),
            r matches Err(e) ==> e.0@ == signed_transaction_error(value),
    {
        match parse_signed_transaction(value) {
            Ok(signed_transaction) => Ok(RpcBroadcastTransactionRequest { signed_transaction }),
            Err(e) => Err(e),
        }
    }
}

/// A transaction, by its signed form or by the hash and sender of an earlier submission.
pub enum TransactionInfo {
    Transaction(SignedTransaction),
    TransactionId { hash: CryptoHash, account_id: AccountId },
}

/// A request for the status of a transaction.
pub struct RpcTransactionStatusCommonRequest {
    pub transaction_info: TransactionInfo,
}

/// The parameters `value` are the positional pair `[hash, account id]`.
pub open spec fn is_transaction_id_json(value: Option<Json>) -> bool {
    match value {
        Some(j) => match two_items(j) {
            Some((Json::Str(h), Json::Str(a))) => base58_hash(h@) is Some && is_valid_account_id(a@),
            _ => false,
        },
        None => false,
    }
}

/// `i` is what the parameters `value` of a status request give: the pair `[hash, account id]`
/// where they are one, else a signed transaction.
pub open spec fn transaction_status_parsed(value: Option<Json>, i: TransactionInfo) -> bool {
    if is_transaction_id_json(value) {
        match (two_items(value->0)->0, i) {
            (
                (Json::Str(h), Json::Str(a)),
                TransactionInfo::TransactionId { hash, account_id },
            ) => base58_hash(h@) == Some(hash.0@) && account_id@ == a@,
            _ => false,
        }
    } else {
        match i {
            TransactionInfo::Transaction(t) => signed_transaction_parsed(value, t@),
            _ => false,
        }
    }
}

impl RpcTransactionStatusCommonRequest {
    /// Reads the parameters of a status request, trying the pair `[hash, account id]` first
    /// and a signed transaction second.
    pub fn parse(value: Option<Json>) -> (r: Result<RpcTransactionStatusCommonRequest, RpcParseError>)
        ensures
            r is Ok <==> is_transaction_id_json(value) || signed_transaction_parses(value),
            r matches Ok(req) ==> transaction_status_parsed(value, req.transaction_info),
            !is_transaction_id_json(value) ==> match r {
                Ok(req) => req.transaction_info matches TransactionInfo::Transaction(t)
                    && signed_transaction_parses(value) && signed_transaction_parsed(value, t@),
                Err(e) => !signed_transaction_parses(value) && e.0@ == signed_transaction_error(value),
            },
    {
        if let Some(j) = &value {
            if let Some((Json::Str(h), Json::Str(a))) = get_two_items(j) {
                if let (Ok(hash), Ok(account_id)) = (CryptoHash::from_base58(h.as_str()), AccountId::parse(a.as_str())) {
                    return Ok(RpcTransactionStatusCommonRequest {
                        transaction_info: TransactionInfo::TransactionId { hash, account_id },
                    });
                }
            }
        }
        match parse_signed_transaction(value) {
            Ok(t) => Ok(RpcTransactionStatusCommonRequest { transaction_info: TransactionInfo::Transaction(t) }),
            Err(e) => Err(e),
        }
    }
}

/// A status request's parameters give a transaction id exactly where they are the pair
/// `[hash, account id]`, and a signed transaction otherwise.
pub proof fn lemma_transaction_status_shapes(value: Option<Json>, i: TransactionInfo)
    requires
        transaction_status_parsed(value, i),
    ensures
        is_transaction_id_json(value) <==> i is TransactionId,
        signed_transaction_parses(value) && !is_transaction_id_json(value) ==> i is Transaction,
{
}

/// An error of submitting a transaction or of asking for its status.
pub enum RpcTransactionError {
    /// The transaction is invalid; `context` is the node's account of why.
    InvalidTransaction { context: Json },
    DoesNotTrackShard,
    RequestRouted { transaction_hash: CryptoHash },
    UnknownTransaction { requested_transaction_hash: CryptoHash },
    InternalError { debug_info: String },
    /// The node itself reports that it timed out; unlike a transport failure, a response came.
    TimeoutError,
}

/// The text that shows `e`.
pub open spec fn transaction_error_text(e: RpcTransactionError) -> Seq<char> {
    match e {
        RpcTransactionError::InvalidTransaction { .. } => "An error happened during transaction execution"@,
        RpcTransactionError::DoesNotTrackShard =>
            "Node doesn't track this shard. Cannot determine whether the transaction is valid"@,
        RpcTransactionError::RequestRouted { transaction_hash } =>
            "Transaction with hash "@ + hash_text(transaction_hash.0@) + " was routed"@,
        RpcTransactionError::UnknownTransaction { requested_transaction_hash } =>
            "Transaction "@ + hash_text(requested_transaction_hash.0@) + " doesn't exist"@,
        RpcTransactionError::InternalError { debug_info } =>
            "The node reached its limits. Try again later. More details: "@ + debug_info@,
        RpcTransactionError::TimeoutError => "Timeout"@,
    }
}

/// `j` is the wire form of `e`.
pub open spec fn transaction_error_wire(j: Json, e: RpcTransactionError) -> bool {
    match e {
        RpcTransactionError::InvalidTransaction { context } =>
            is_wire_error(j, "INVALID_TRANSACTION"@, Some(("context"@, context))),
        RpcTransactionError::DoesNotTrackShard => is_wire_error(j, "DOES_NOT_TRACK_SHARD"@, None),
        RpcTransactionError::RequestRouted { transaction_hash } => exists|t: String|
            base58_hash(t@) == Some(transaction_hash.0@) && #[trigger] is_wire_error(j, "REQUEST_ROUTED"@,
                Some(("transaction_hash"@, Json::Str(t)))),
        RpcTransactionError::UnknownTransaction { requested_transaction_hash } => exists|t: String|
            base58_hash(t@) == Some(requested_transaction_hash.0@) && #[trigger] is_wire_error(j, "UNKNOWN_TRANSACTION"@,
                Some(("requested_transaction_hash"@, Json::Str(t)))),
        RpcTransactionError::InternalError { debug_info } =>
            is_wire_error(j, "INTERNAL_ERROR"@, Some(("debug_info"@, Json::Str(debug_info)))),
        RpcTransactionError::TimeoutError => is_wire_error(j, "TIMEOUT_ERROR"@, None),
    }
}

/// `r` is the generic form of `e`: an internal error keeps its details as its message; any
/// other is a handler error tagged with its wire form and shown by its text, which is also
/// the data.
pub open spec fn transaction_rpc_form(e: RpcTransactionError, r: RpcError) -> bool {
    &&& r.code == SERVER_ERROR_CODE
    &&& text_of(r.data) == Some(transaction_error_text(e))
    &&& match e {
        RpcTransactionError::InternalError { debug_info } => match r.kind {
            RpcErrorKind::InternalError(s) => is_tagged_message(s, "INTERNAL_ERROR"@, debug_info@)
                && r.message == debug_info,
            _ => false,
        },
        _ => match r.kind {
            RpcErrorKind::HandlerError(w) => transaction_error_wire(w, e) && r.message@ == transaction_error_text(e),
            _ => false,
        },
    }
}

/// The hash held as base58 text in the member `key` of the `info` of `j`.
pub open spec fn info_hash(j: Json, key: Seq<char>) -> Option<Seq<u8>> {
    match info_text(j, key) {
        Some(s) => base58_hash(s@),
        None => None,
    }
}

/// `e` is what the node's error `j` decodes to: a known tag with its payload gives its
/// variant, anything else an internal error.
pub open spec fn transaction_error_decoded(j: Json, e: RpcTransactionError) -> bool {
    let b = error_body(j);
    let t = tag_of(b);
    if t == Some("INVALID_TRANSACTION"@) && info_field(b, "context"@) is Some {
        e == RpcTransactionError::InvalidTransaction { context: info_field(b, "context"@)->0 }
    } else if t == Some("DOES_NOT_TRACK_SHARD"@) {
        e == RpcTransactionError::DoesNotTrackShard
    } else if t == Some("REQUEST_ROUTED"@) && info_hash(b, "transaction_hash"@) is Some {
        e matches RpcTransactionError::RequestRouted { transaction_hash }
            && info_hash(b, "transaction_hash"@) == Some(transaction_hash.0@)
    } else if t == Some("UNKNOWN_TRANSACTION"@) && info_hash(b, "requested_transaction_hash"@) is Some {
        e matches RpcTransactionError::UnknownTransaction { requested_transaction_hash }
            && info_hash(b, "requested_transaction_hash"@) == Some(requested_transaction_hash.0@)
    } else if t == Some("INTERNAL_ERROR"@) && info_text(b, "debug_info"@) is Some {
        e == RpcTransactionError::InternalError { debug_info: info_text(b, "debug_info"@)->0 }
    } else if t == Some("TIMEOUT_ERROR"@) {
        e == RpcTransactionError::TimeoutError
    } else {
        e matches RpcTransactionError::InternalError { debug_info } && debug_info@ == unknown_tag_message(tag_of(b))
    }
}

/// The context member of the `info` of `j`.
fn get_info_member(j: &Json, key: &str) -> (r: Option<Json>)
    ensures
        r == info_field(*j, key@),
{
    match j.get("info") {
        Some(info) => match info.get(key) {
            Some(x) => Some(x.copy()),
            None => None,
        },
        None => None,
    }
}

/// The hash held as base58 text in the member `key` of the `info` of `j`.
fn get_info_hash(j: &Json, key: &str) -> (r: Option<CryptoHash>)
    ensures
        r is Some <==> info_hash(*j, key@) is Some,
        r matches Some(h) ==> info_hash(*j, key@) == Some(h.0@),
{
    match get_info_text(j, key) {
        Some(s) => match CryptoHash::from_base58(s.as_str()) {
            Ok(h) => Some(h),
            Err(_) => None,
        },
        None => None,
    }
}

impl RpcTransactionError {
    /// The wire form of this error.
    pub fn to_wire(&self) -> (r: Json)
        ensures
            transaction_error_wire(r, *self),
    {
        match self {
            RpcTransactionError::InvalidTransaction { context } =>
                wire_error("INVALID_TRANSACTION", Some(("context", context.copy()))),
            RpcTransactionError::DoesNotTrackShard => wire_error("DOES_NOT_TRACK_SHARD", None),
            RpcTransactionError::RequestRouted { transaction_hash } => {
                let t = transaction_hash.to_base58();
                let r = wire_error("REQUEST_ROUTED", Some(("transaction_hash", Json::Str(t))));
                assert(is_wire_error(r, "REQUEST_ROUTED"@, Some(("transaction_hash"@, Json::Str(t)))));
                r
            },
            RpcTransactionError::UnknownTransaction { requested_transaction_hash } => {
                let t = requested_transaction_hash.to_base58();
                let r = wire_error("UNKNOWN_TRANSACTION", Some(("requested_transaction_hash", Json::Str(t))));
                assert(is_wire_error(r, "UNKNOWN_TRANSACTION"@, Some(("requested_transaction_hash"@, Json::Str(t)))));
                r
            },
            RpcTransactionError::InternalError { debug_info } =>
                wire_error("INTERNAL_ERROR", Some(("debug_info", Json::Str(debug_info.clone())))),
            RpcTransactionError::TimeoutError => wire_error("TIMEOUT_ERROR", None),
        }
    }

    /// The error that the node's error object `j` reports. Never fails: what no variant
    /// matches becomes an internal error.
    pub fn from_wire(j: &Json) -> (r: RpcTransactionError)
        ensures
            transaction_error_decoded(*j, r),
    {
        let b = get_error_body(j);
        let tag = get_tag(b);
        let named = |t: &str| -> (r: bool)
            ensures
                r == (tag matches Some(s) && s@ == t@),
            {
                match tag {
                    Some(s) => crate::json::str_eq(s.as_str(), t),
                    None => false,
                }
            };
        let context = get_info_member(b, "context");
        let routed = get_info_hash(b, "transaction_hash");
        let unknown = get_info_hash(b, "requested_transaction_hash");
        let debug_info = get_info_text(b, "debug_info");
        if named("INVALID_TRANSACTION") && context.is_some() {
            RpcTransactionError::InvalidTransaction { context: context.unwrap() }
        } else if named("DOES_NOT_TRACK_SHARD") {
            RpcTransactionError::DoesNotTrackShard
        } else if named("REQUEST_ROUTED") && routed.is_some() {
            RpcTransactionError::RequestRouted { transaction_hash: routed.unwrap() }
        } else if named("UNKNOWN_TRANSACTION") && unknown.is_some() {
            RpcTransactionError::UnknownTransaction { requested_transaction_hash: unknown.unwrap() }
        } else if named("INTERNAL_ERROR") && debug_info.is_some() {
            RpcTransactionError::InternalError { debug_info: debug_info.unwrap() }
        } else if named("TIMEOUT_ERROR") {
            RpcTransactionError::TimeoutError
        } else {
            RpcTransactionError::InternalError { debug_info: unknown_tag_text(tag) }
        }
    }

    /// The text that shows this error.
    pub fn message(&self) -> (r: String)
        ensures
            r@ == transaction_error_text(*self),
    {
        match self {
            RpcTransactionError::InvalidTransaction { .. } => "An error happened during transaction execution".to_owned(),
            RpcTransactionError::DoesNotTrackShard =>
                "Node doesn't track this shard. Cannot determine whether the transaction is valid".to_owned(),
            RpcTransactionError::RequestRouted { transaction_hash } =>
                concat(concat("Transaction with hash ", transaction_hash.to_base58().as_str()).as_str(), " was routed"),
            RpcTransactionError::UnknownTransaction { requested_transaction_hash } =>
                concat(concat("Transaction ", requested_transaction_hash.to_base58().as_str()).as_str(), " doesn't exist"),
            RpcTransactionError::InternalError { debug_info } => concat(
                "The node reached its limits. Try again later. More details: ",
                debug_info.as_str(),
            ),
            RpcTransactionError::TimeoutError => "Timeout".to_owned(),
        }
    }

    /// This error in the generic form: an internal error keeps its details as its message;
    /// any other is a handler error tagged with its wire form and shown by its text.
    pub fn into_rpc_error(self) -> (r: RpcError)
        ensures
            transaction_rpc_form(self, r),
    {
        let text = self.message();
        let wire = self.to_wire();
        match self {
            RpcTransactionError::InternalError { debug_info } =>
                RpcError::new_internal_error(Some(Json::Str(text)), debug_info),
            _ => RpcError::new_handler_error(Some(Json::Str(text.clone())), wire, text),
        }
    }
}

/// Decoding the wire form of a transaction error gives that error back.
pub proof fn lemma_transaction_error_round_trip(e: RpcTransactionError, j: Json, d: RpcTransactionError)
    requires
        transaction_error_wire(j, e),
        transaction_error_decoded(j, d),
    ensures
        d == e,
{
    reveal_strlit("cause");
    reveal_strlit("name");
    reveal_strlit("info");
    reveal_strlit("context");
    reveal_strlit("transaction_hash");
    reveal_strlit("requested_transaction_hash");
    reveal_strlit("debug_info");
    reveal_strlit("INVALID_TRANSACTION");
    reveal_strlit("DOES_NOT_TRACK_SHARD");
    reveal_strlit("REQUEST_ROUTED");
    reveal_strlit("UNKNOWN_TRANSACTION");
    reveal_strlit("INTERNAL_ERROR");
    reveal_strlit("TIMEOUT_ERROR");
    reveal_with_fuel(crate::json::member, 4);
    assert("cause"@[0] != "name"@[0]);
    assert("cause"@[0] != "info"@[0]);
    assert("name"@[0] != "info"@[0]);
    assert("INVALID_TRANSACTION"@[0] != "DOES_NOT_TRACK_SHARD"@[0]);
    assert("INVALID_TRANSACTION"@[0] != "REQUEST_ROUTED"@[0]);
    assert("INVALID_TRANSACTION"@[0] != "UNKNOWN_TRANSACTION"@[0]);
    assert("INVALID_TRANSACTION"@[2] != "INTERNAL_ERROR"@[2]);
    assert("INVALID_TRANSACTION"@[0] != "TIMEOUT_ERROR"@[0]);
    assert("DOES_NOT_TRACK_SHARD"@[0] != "REQUEST_ROUTED"@[0]);
    assert("DOES_NOT_TRACK_SHARD"@[0] != "UNKNOWN_TRANSACTION"@[0]);
    assert("DOES_NOT_TRACK_SHARD"@[0] != "INTERNAL_ERROR"@[0]);
    assert("DOES_NOT_TRACK_SHARD"@[0] != "TIMEOUT_ERROR"@[0]);
    assert("REQUEST_ROUTED"@[0] != "UNKNOWN_TRANSACTION"@[0]);
    assert("REQUEST_ROUTED"@[0] != "INTERNAL_ERROR"@[0]);
    assert("REQUEST_ROUTED"@[0] != "TIMEOUT_ERROR"@[0]);
    assert("UNKNOWN_TRANSACTION"@[0] != "INTERNAL_ERROR"@[0]);
    assert("UNKNOWN_TRANSACTION"@[0] != "TIMEOUT_ERROR"@[0]);
    assert("INTERNAL_ERROR"@[0] != "TIMEOUT_ERROR"@[0]);
    match e {
        RpcTransactionError::RequestRouted { transaction_hash } => {
            let t = choose|t: String| base58_hash(t@) == Some(transaction_hash.0@) && #[trigger] is_wire_error(j,
                "REQUEST_ROUTED"@, Some(("transaction_hash"@, Json::Str(t))));
            assert(info_text(error_body(j), "transaction_hash"@) == Some(t));
            if let RpcTransactionError::RequestRouted { transaction_hash: h } = d {
                crate::types::lemma_hash_bytes_equal(h, transaction_hash);
            }
        },
        RpcTransactionError::UnknownTransaction { requested_transaction_hash } => {
            let t = choose|t: String| base58_hash(t@) == Some(requested_transaction_hash.0@) && #[trigger] is_wire_error(j,
                "UNKNOWN_TRANSACTION"@, Some(("requested_transaction_hash"@, Json::Str(t))));
            assert(info_text(error_body(j), "requested_transaction_hash"@) == Some(t));
            if let RpcTransactionError::UnknownTransaction { requested_transaction_hash: h } = d {
                crate::types::lemma_hash_bytes_equal(h, requested_transaction_hash);
            }
        },
        _ => {},
    }
}

/// Every transaction error collapses to the server error code, as a handler error unless it
/// is an internal one; a tag that names no other variant decodes to an internal error. The
/// node's own timeout stays a handler error, apart from a transport failure.
pub proof fn lemma_transaction_error_codes(j: Json, d: RpcTransactionError, r: RpcError)
    requires
        transaction_error_decoded(j, d),
        transaction_rpc_form(d, r),
    ensures
        r.code == SERVER_ERROR_CODE,
        d is InternalError <==> r.kind is InternalError,
        !(d is InternalError) ==> r.kind is HandlerError,
        d is TimeoutError ==> r.kind is HandlerError && !(r.kind is TransportError),
        ({
            let t = tag_of(error_body(j));
            t != Some("INVALID_TRANSACTION"@) && t != Some("DOES_NOT_TRACK_SHARD"@) && t != Some("REQUEST_ROUTED"@)
                && t != Some("UNKNOWN_TRANSACTION"@) && t != Some("TIMEOUT_ERROR"@)
        }) ==> d is InternalError,
{
}

/// The outcome of a transaction, as the node describes it.
pub struct RpcTransactionResponse {
    pub final_execution_outcome: Json,
}

impl RpcTransactionResponse {
    /// The response holding `final_execution_outcome`.
    pub fn from_outcome(final_execution_outcome: Json) -> (r: RpcTransactionResponse)
        ensures
            r.final_execution_outcome == final_execution_outcome,
    {
        RpcTransactionResponse { final_execution_outcome }
    }
}

/// The answer to an asynchronous submission: the hash of the transaction.
pub struct RpcBroadcastTxSyncResponse {
    pub transaction_hash: CryptoHash,
}

impl RpcBroadcastTxSyncResponse {
    /// The JSON form: the hash as base58 text.
    pub fn to_json(&self) -> (r: Json)
        ensures
            r matches Json::Str(s) && base58_hash(s@) == Some(self.transaction_hash.0@),
    {
        Json::Str(self.transaction_hash.to_base58())
    }

    /// The answer that the result `j` holds; an internal error where it is no hash.
    pub fn from_json(j: &Json) -> (r: Result<RpcBroadcastTxSyncResponse, RpcError>)
        ensures
            r is Ok <==> (j matches Json::Str(s) && base58_hash(s@) is Some),
            r matches Ok(v) ==> (j matches Json::Str(s) && base58_hash(s@) == Some(v.transaction_hash.0@)),
            r matches Err(e) ==> e.kind is InternalError,
    {
        match j {
            Json::Str(s) => match CryptoHash::from_base58(s.as_str()) {
                Ok(transaction_hash) => Ok(RpcBroadcastTxSyncResponse { transaction_hash }),
                Err(e) => Err(RpcError::new_internal_error(None, e)),
            },
            _ => Err(RpcError::new_internal_error(None, "Expected a transaction hash".to_owned())),
        }
    }
}

/// Decoding the JSON form of a submission's answer gives it back.
pub proof fn lemma_broadcast_answer_round_trip(v: RpcBroadcastTxSyncResponse, j: Json, d: RpcBroadcastTxSyncResponse)
    requires
        j matches Json::Str(s) && base58_hash(s@) == Some(v.transaction_hash.0@),
        j matches Json::Str(s) && base58_hash(s@) == Some(d.transaction_hash.0@),
    ensures
        d == v,
{
    crate::types::lemma_hash_bytes_equal(d.transaction_hash, v.transaction_hash);
}

} // verus!
