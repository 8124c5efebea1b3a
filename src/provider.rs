//! The client: for each method, the call to send and the decoding of what came back.
//!
//! Sending is left to the caller's transport; each method here is split into the call it
//! makes (`RpcCall`) and the decoding of the transport's outcome.
use vstd::prelude::*;
use crate::json::{Json, Members, Items, field, text_of, json_str};
use crate::errors::{RpcError, RpcErrorKind, SERVER_ERROR_CODE, TRANSPORT_ERROR_CODE, tag_of};
use crate::message::{Response, build_request, envelope_parts, is_envelope, parse_response};
use crate::wire::{MAX_DEPTH, document_of, is_json_text, json_depth, json_document, writable, written};
use crate::views::{ViewShape, check_shape, shape_fits, shaped};
use crate::connection::ConnectionInfo;
use crate::types::{
    AccountId, BlockId, BlockReference, CryptoHash, base58_hash, hash_text, is_valid_account_id, block_id_json, block_id_written, block_reference_json,
    single_item, two_items,
};
use crate::blocks::{BlockView, RpcBlockError, block_error_decoded, block_rpc_form, block_view_json, is_block_view_json};
use crate::changes::{
    RpcStateChangesError, RpcStateChangesInBlockResponse, is_state_changes_json, state_changes_error_decoded,
    state_changes_json, state_changes_rpc_form,
};
use crate::config::{RpcProtocolConfigError, protocol_config_error_decoded, protocol_config_rpc_form};
use crate::network_info::{RpcNetworkInfoError, RpcNetworkInfoResponse, is_network_info_json, network_info_json};
use crate::transactions::{
    base64_text,
    RpcBroadcastTxSyncResponse, RpcTransactionError, SignedTransaction, base64_decoded, transaction_error_decoded,
    transaction_rpc_form,
};

verus! {

/// A call to make: the method's wire name and its parameters.
pub struct RpcCall {
    pub method: String,
    pub params: Option<Json>,
}

/// An access key, by its account and its public key's text.
pub struct AccessKeyWithPublicKey {
    pub account_id: AccountId,
    pub public_key: String,
}

/// Which state changes to ask for.
pub enum ChangesKind {
    AllAccessKeyChanges { account_ids: Vec<AccountId> },
    SingleAccessKeyChanges { keys: Vec<AccessKeyWithPublicKey> },
    AccountChanges { account_ids: Vec<AccountId> },
    DataChanges { account_ids: Vec<AccountId>, key_prefix: Vec<u8> },
    ContractCodeChanges { account_ids: Vec<AccountId> },
}

/// A state query, by kind.
pub enum QueryRequest {
    ViewAccount { account_id: AccountId },
    ViewAccessKey { account_id: AccountId, public_key: String },
    ViewAccessKeyList { account_id: AccountId },
    ViewCode { account_id: AccountId },
    /// The contract state under keys that start with `prefix`.
    ViewState { account_id: AccountId, prefix: Vec<u8> },
    /// A view call of `method_name` with `args` as its raw arguments.
    CallFunction { account_id: AccountId, method_name: String, args: Vec<u8> },
}

/// The wire name of a kind of query.
pub open spec fn request_type_name(q: QueryRequest) -> Seq<char> {
    match q {
        QueryRequest::ViewAccount { .. } => "view_account"@,
        QueryRequest::ViewAccessKey { .. } => "view_access_key"@,
        QueryRequest::ViewAccessKeyList { .. } => "view_access_key_list"@,
        QueryRequest::ViewCode { .. } => "view_code"@,
        QueryRequest::ViewState { .. } => "view_state"@,
        QueryRequest::CallFunction { .. } => "call_function"@,
    }
}

/// The account that `q` is about.
pub open spec fn query_account(q: QueryRequest) -> Seq<char> {
    match q {
        QueryRequest::ViewAccount { account_id } => account_id@,
        QueryRequest::ViewAccessKey { account_id, .. } => account_id@,
        QueryRequest::ViewAccessKeyList { account_id } => account_id@,
        QueryRequest::ViewCode { account_id } => account_id@,
        QueryRequest::ViewState { account_id, .. } => account_id@,
        QueryRequest::CallFunction { account_id, .. } => account_id@,
    }
}

/// The one member that names `r`: `block_id` or `finality`.
pub open spec fn is_reference_member(k: Seq<char>, v: Json, r: BlockReference) -> bool {
    match r {
        BlockReference::BlockId(b) => k == "block_id"@ && block_id_written(v, b),
        BlockReference::Finality(f) => k == "finality"@ && crate::types::finality_json(v, f),
    }
}

/// The object `p` names the block `r` by exactly one member: `block_id` or `finality`.
pub open spec fn names_reference(p: Json, r: BlockReference) -> bool {
    match r {
        BlockReference::BlockId(b) => (field(p, "block_id"@) matches Some(x) && block_id_written(x, b))
            && field(p, "finality"@) is None,
        BlockReference::Finality(f) => (field(p, "finality"@) matches Some(x) && crate::types::finality_json(x, f))
            && field(p, "block_id"@) is None,
    }
}

/// The object `p` lists the accounts `ids` under `account_ids`.
pub open spec fn has_account_ids(p: Json, ids: Seq<AccountId>) -> bool {
    field(p, "account_ids"@) matches Some(Json::Array(items)) && account_ids_json(items, ids)
}

/// The object `p` holds the members that the kind `k` asks for.
pub open spec fn changes_members(p: Json, k: ChangesKind) -> bool {
    match k {
        ChangesKind::AllAccessKeyChanges { account_ids } => has_account_ids(p, account_ids@),
        ChangesKind::SingleAccessKeyChanges { keys } => field(p, "keys"@) matches Some(Json::Array(items))
            && keys_json(items, keys@),
        ChangesKind::AccountChanges { account_ids } => has_account_ids(p, account_ids@),
        ChangesKind::DataChanges { account_ids, key_prefix } => has_account_ids(p, account_ids@)
            && text_of(field(p, "key_prefix_base64"@)) == Some(base64_text(key_prefix@))
            && base64_decoded(base64_text(key_prefix@)) == Some(key_prefix@),
        ChangesKind::ContractCodeChanges { account_ids } => has_account_ids(p, account_ids@),
    }
}

/// The object `p` holds the members that the query `q` asks for.
pub open spec fn query_members(p: Json, q: QueryRequest) -> bool {
    match q {
        QueryRequest::ViewAccessKey { public_key, .. } => text_of(field(p, "public_key"@)) == Some(public_key@),
        QueryRequest::ViewState { prefix, .. } => text_of(field(p, "prefix_base64"@)) == Some(base64_text(prefix@)),
        QueryRequest::CallFunction { method_name, args, .. } => text_of(field(p, "method_name"@)) == Some(method_name@)
            && text_of(field(p, "args_base64"@)) == Some(base64_text(args@)),
        _ => true,
    }
}

/// The names of parameter members differ from one another.
proof fn lemma_member_names_differ()
    ensures
        "changes_type"@ != "account_ids"@, "changes_type"@ != "keys"@, "changes_type"@ != "key_prefix_base64"@,
        "changes_type"@ != "block_id"@, "changes_type"@ != "finality"@,
        "account_ids"@ != "key_prefix_base64"@, "account_ids"@ != "block_id"@, "account_ids"@ != "finality"@,
        "keys"@ != "block_id"@, "keys"@ != "finality"@, "key_prefix_base64"@ != "block_id"@,
        "key_prefix_base64"@ != "finality"@, "block_id"@ != "finality"@,
        "request_type"@ != "account_id"@, "request_type"@ != "public_key"@, "request_type"@ != "prefix_base64"@,
        "request_type"@ != "method_name"@, "request_type"@ != "args_base64"@, "request_type"@ != "block_id"@,
        "request_type"@ != "finality"@, "account_id"@ != "public_key"@, "account_id"@ != "prefix_base64"@,
        "account_id"@ != "method_name"@, "account_id"@ != "args_base64"@, "account_id"@ != "block_id"@,
        "account_id"@ != "finality"@, "public_key"@ != "block_id"@, "public_key"@ != "finality"@,
        "prefix_base64"@ != "block_id"@, "prefix_base64"@ != "finality"@, "method_name"@ != "args_base64"@,
        "method_name"@ != "block_id"@, "method_name"@ != "finality"@, "args_base64"@ != "block_id"@,
        "args_base64"@ != "finality"@,
{
    reveal_strlit("changes_type");
    reveal_strlit("account_ids");
    reveal_strlit("keys");
    reveal_strlit("key_prefix_base64");
    reveal_strlit("block_id");
    reveal_strlit("finality");
    reveal_strlit("request_type");
    reveal_strlit("account_id");
    reveal_strlit("public_key");
    reveal_strlit("prefix_base64");
    reveal_strlit("method_name");
    reveal_strlit("args_base64");
    assert("changes_type"@[0] != "account_ids"@[0]);
    assert("changes_type"@[0] != "keys"@[0]);
    assert("changes_type"@[0] != "key_prefix_base64"@[0]);
    assert("changes_type"@[0] != "block_id"@[0]);
    assert("changes_type"@[0] != "finality"@[0]);
    assert("account_ids"@[0] != "key_prefix_base64"@[0]);
    assert("account_ids"@[0] != "block_id"@[0]);
    assert("account_ids"@[0] != "finality"@[0]);
    assert("keys"@[0] != "block_id"@[0]);
    assert("keys"@[0] != "finality"@[0]);
    assert("key_prefix_base64"@[0] != "block_id"@[0]);
    assert("key_prefix_base64"@[0] != "finality"@[0]);
    assert("block_id"@[0] != "finality"@[0]);
    assert("request_type"@[0] != "account_id"@[0]);
    assert("request_type"@[0] != "public_key"@[0]);
    assert("request_type"@[0] != "prefix_base64"@[0]);
    assert("request_type"@[0] != "method_name"@[0]);
    assert("request_type"@[0] != "args_base64"@[0]);
    assert("request_type"@[0] != "block_id"@[0]);
    assert("request_type"@[0] != "finality"@[0]);
    assert("account_id"@[0] != "public_key"@[0]);
    assert("account_id"@[0] != "prefix_base64"@[0]);
    assert("account_id"@[0] != "method_name"@[0]);
    assert("account_id"@[1] != "args_base64"@[1]);
    assert("account_id"@[0] != "block_id"@[0]);
    assert("account_id"@[0] != "finality"@[0]);
    assert("public_key"@[0] != "block_id"@[0]);
    assert("public_key"@[0] != "finality"@[0]);
    assert("prefix_base64"@[0] != "block_id"@[0]);
    assert("prefix_base64"@[0] != "finality"@[0]);
    assert("method_name"@[0] != "args_base64"@[0]);
    assert("method_name"@[0] != "block_id"@[0]);
    assert("method_name"@[0] != "finality"@[0]);
    assert("args_base64"@[0] != "block_id"@[0]);
    assert("args_base64"@[0] != "finality"@[0]);
}

/// The members that name `r`: `block_id` or `finality`.
fn reference_members(r: &BlockReference) -> (m: Members)
    ensures
        m matches Members::Cons(k, v, rest) && *rest == Members::Nil && is_reference_member(k@, *v, *r),
{
    match r {
        BlockReference::BlockId(b) => Members::Nil.with("block_id", b.to_json()),
        BlockReference::Finality(f) => Members::Nil.with("finality", f.to_json()),
    }
}

impl QueryRequest {
    /// The parameters of `query` for this query at the block `r`: `request_type`, then
    /// `account_id`, then the fields of the kind, then the block reference's member.
    pub fn to_json(&self, r: &BlockReference) -> (j: Json)
        ensures
            text_of(field(j, "request_type"@)) == Some(request_type_name(*self)),
            text_of(field(j, "account_id"@)) == Some(query_account(*self)),
            query_members(j, *self),
            names_reference(j, *r),
    {
        proof {
            lemma_member_names_differ();
            reveal_with_fuel(crate::json::member, 6);
        }
        let tail = reference_members(r);
        let (name, account, m) = match self {
            QueryRequest::ViewAccount { account_id } => ("view_account", account_id, tail),
            QueryRequest::ViewAccessKey { account_id, public_key } =>
                ("view_access_key", account_id, tail.with("public_key", json_str(public_key.as_str()))),
            QueryRequest::ViewAccessKeyList { account_id } => ("view_access_key_list", account_id, tail),
            QueryRequest::ViewCode { account_id } => ("view_code", account_id, tail),
            QueryRequest::ViewState { account_id, prefix } => (
                "view_state",
                account_id,
                tail.with("prefix_base64", Json::Str(crate::transactions::base64_of_bytes(prefix))),
            ),
            QueryRequest::CallFunction { account_id, method_name, args } => (
                "call_function",
                account_id,
                tail.with("args_base64", Json::Str(crate::transactions::base64_of_bytes(args))).with(
                    "method_name",
                    json_str(method_name.as_str()),
                ),
            ),
        };
        Json::Object(m.with("account_id", json_str(account.as_str())).with("request_type", json_str(name)))
    }
}

/// The wire name of a kind of state changes.
pub open spec fn changes_type_name(k: ChangesKind) -> Seq<char> {
    match k {
        ChangesKind::AllAccessKeyChanges { .. } => "all_access_key_changes"@,
        ChangesKind::SingleAccessKeyChanges { .. } => "single_access_key_changes"@,
        ChangesKind::AccountChanges { .. } => "account_changes"@,
        ChangesKind::DataChanges { .. } => "data_changes"@,
        ChangesKind::ContractCodeChanges { .. } => "contract_code_changes"@,
    }
}

/// `items` are the account ids `ids`, as strings, in order.
pub open spec fn account_ids_json(items: Items, ids: Seq<AccountId>) -> bool
    decreases ids.len(),
{
    match items {
        Items::Nil => ids.len() == 0,
        Items::Cons(x, rest) => ids.len() > 0 && (*x matches Json::Str(s) && s@ == ids[0]@)
            && account_ids_json(*rest, ids.drop_first()),
    }
}

/// The account ids `ids` as a JSON array.
fn account_ids_array(ids: &Vec<AccountId>) -> (r: Json)
    ensures
        r matches Json::Array(items) && account_ids_json(items, ids@),
{
    let items = account_ids_items(ids, 0);
    assert(ids@.skip(0) =~= ids@);
    Json::Array(items)
}

/// `items` are the access keys `keys`, each `{account_id, public_key}`, in order.
pub open spec fn keys_json(items: Items, keys: Seq<AccessKeyWithPublicKey>) -> bool
    decreases keys.len(),
{
    match items {
        Items::Nil => keys.len() == 0,
        Items::Cons(x, rest) => keys.len() > 0 && text_of(field(*x, "account_id"@)) == Some(keys[0].account_id@)
            && text_of(field(*x, "public_key"@)) == Some(keys[0].public_key@)
            && keys_json(*rest, keys.drop_first()),
    }
}

/// The access keys `keys[from..]` as a JSON array.
fn keys_items(keys: &Vec<AccessKeyWithPublicKey>, from: usize) -> (r: Items)
    requires
        from <= keys@.len(),
    ensures
        keys_json(r, keys@.skip(from as int)),
    decreases keys@.len() - from,
{
    if from == keys.len() {
        assert(keys@.skip(from as int) =~= Seq::<AccessKeyWithPublicKey>::empty());
        Items::Nil
    } else {
        let rest = keys_items(keys, from + 1);
        assert(keys@.skip(from as int).drop_first() =~= keys@.skip(from + 1));
        proof {
            lemma_member_names_differ();
            reveal_with_fuel(crate::json::member, 3);
        }
        let m = Members::Nil.with("public_key", json_str(keys[from].public_key.as_str()))
            .with("account_id", json_str(keys[from].account_id.as_str()));
        Items::Cons(Box::new(Json::Object(m)), Box::new(rest))
    }
}

/// The account ids `ids[from..]` as a JSON array.
fn account_ids_items(ids: &Vec<AccountId>, from: usize) -> (r: Items)
    requires
        from <= ids@.len(),
    ensures
        account_ids_json(r, ids@.skip(from as int)),
    decreases ids@.len() - from,
{
    if from == ids.len() {
        assert(ids@.skip(from as int) =~= Seq::<AccountId>::empty());
        Items::Nil
    } else {
        let rest = account_ids_items(ids, from + 1);
        assert(ids@.skip(from as int).drop_first() =~= ids@.skip(from + 1));
        Items::Cons(Box::new(json_str(ids[from].as_str())), Box::new(rest))
    }
}

/// The one-element array `[x]`.
pub fn array1(x: Json) -> (r: Json)
    ensures
        single_item(r) == Some(x),
{
    Json::Array(Items::Cons(Box::new(x), Box::new(Items::Nil)))
}

/// The two-element array `[x, y]`.
pub fn array2(x: Json, y: Json) -> (r: Json)
    ensures
        two_items(r) == Some((x, y)),
{
    Json::Array(Items::Cons(Box::new(x), Box::new(Items::Cons(Box::new(y), Box::new(Items::Nil)))))
}

/// A call of `method` with `params`.
pub fn call(method: &str, params: Option<Json>) -> (r: RpcCall)
    ensures
        r.method@ == method@,
        r.params == params,
{
    RpcCall { method: method.to_owned(), params }
}

/// A client of one node.
pub struct JsonRpcProvider {
    connection_info: ConnectionInfo,
}

impl JsonRpcProvider {
    /// A client of the node that `connection_info` describes.
    pub fn new(connection_info: ConnectionInfo) -> (r: JsonRpcProvider)
        ensures
            r.url_view() == connection_info.url@,
    {
        JsonRpcProvider { connection_info }
    }

    pub closed spec fn url_view(&self) -> Seq<char> {
        self.connection_info.url@
    }

    /// How to reach the node.
    pub fn connection_info(&self) -> (r: &ConnectionInfo)
        ensures
            r.url@ == self.url_view(),
    {
        &self.connection_info
    }

    /// The node's endpoint.
    pub fn url(&self) -> (r: &str)
        ensures
            r@ == self.url_view(),
    {
        self.connection_info.url.as_str()
    }

    /// The envelope of `c`, answered under `id`.
    pub fn request_body(&self, c: RpcCall, id: Json) -> (r: Json)
        ensures
            field(r, "id"@) == Some(id),
            field(r, "method"@) matches Some(Json::Str(m)) && m@ == c.method@,
            field(r, "params"@) == c.params,
    {
        build_request(c.method.as_str(), c.params, id)
    }

    /// `status`: the node's status; no parameters.
    pub fn status(&self) -> (r: RpcCall)
        ensures
            r.method@ == "status"@,
            r.params is None,
    {
        call("status", None)
    }

    /// `broadcast_tx_commit`: submits `t` and waits for its outcome; `[base64 of t]`.
    pub fn send_transaction(&self, t: &SignedTransaction) -> (r: RpcCall)
        ensures
            r.method@ == "broadcast_tx_commit"@,
            r.params matches Some(p) && single_item(p) matches Some(Json::Str(s)) && base64_decoded(s@) == Some(t@)
                && s@ == base64_text(t@),
            crate::transactions::signed_transaction_parses(r.params),
    {
        call("broadcast_tx_commit", Some(array1(Json::Str(t.to_base64()))))
    }

    /// `broadcast_tx_async`: submits `t` and returns its hash at once; `[base64 of t]`.
    pub fn send_transaction_async(&self, t: &SignedTransaction) -> (r: RpcCall)
        ensures
            r.method@ == "broadcast_tx_async"@,
            r.params matches Some(p) && single_item(p) matches Some(Json::Str(s)) && base64_decoded(s@) == Some(t@)
                && s@ == base64_text(t@),
            crate::transactions::signed_transaction_parses(r.params),
    {
        call("broadcast_tx_async", Some(array1(Json::Str(t.to_base64()))))
    }

    /// The parameters `[hash, account id]`.
    fn transaction_id_params(tx_hash: &CryptoHash, account_id: &AccountId) -> (r: Json)
        ensures
            two_items(r) matches Some((Json::Str(h), Json::Str(a))) && base58_hash(h@) == Some(tx_hash.0@)
                && h@ == hash_text(tx_hash.0@) && a@ == account_id@ && is_valid_account_id(a@),
    {
        array2(Json::Str(tx_hash.to_base58()), json_str(account_id.as_str()))
    }

    /// `tx`: the status of the transaction `tx_hash` sent by `account_id`.
    pub fn tx_status(&self, tx_hash: &CryptoHash, account_id: &AccountId) -> (r: RpcCall)
        ensures
            r.method@ == "tx"@,
            r.params matches Some(p) && two_items(p) matches Some((Json::Str(h), Json::Str(a)))
                && base58_hash(h@) == Some(tx_hash.0@) && h@ == hash_text(tx_hash.0@) && a@ == account_id@,
            crate::transactions::is_transaction_id_json(r.params),
    {
        call("tx", Some(JsonRpcProvider::transaction_id_params(tx_hash, account_id)))
    }

    /// `EXPERIMENTAL_tx_status`: the status of a transaction, with its receipts.
    pub fn tx_status_receipts(&self, tx_hash: &CryptoHash, account_id: &AccountId) -> (r: RpcCall)
        ensures
            r.method@ == "EXPERIMENTAL_tx_status"@,
            r.params matches Some(p) && two_items(p) matches Some((Json::Str(h), Json::Str(a)))
                && base58_hash(h@) == Some(tx_hash.0@) && h@ == hash_text(tx_hash.0@) && a@ == account_id@,
            crate::transactions::is_transaction_id_json(r.params),
    {
        call("EXPERIMENTAL_tx_status", Some(JsonRpcProvider::transaction_id_params(tx_hash, account_id)))
    }

    /// `query`: the state query `q` at the block `block_reference`.
    pub fn query(&self, q: &QueryRequest, block_reference: &BlockReference) -> (r: RpcCall)
        ensures
            r.method@ == "query"@,
            r.params matches Some(p) && text_of(field(p, "request_type"@)) == Some(request_type_name(*q))
                && text_of(field(p, "account_id"@)) == Some(query_account(*q)) && query_members(p, *q)
                && names_reference(p, *block_reference),
    {
        call("query", Some(q.to_json(block_reference)))
    }

    /// `block`: one block, by the positional parameters `[id]`.
    pub fn block(&self, block_id: &BlockId) -> (r: RpcCall)
        ensures
            r.method@ == "block"@,
            r.params matches Some(p) && single_item(p) matches Some(x) && block_id_written(x, *block_id),
    {
        call("block", Some(array1(block_id.to_json())))
    }

    /// `EXPERIMENTAL_changes_in_block`: all state changes in a block, by a named reference.
    pub fn block_changes(&self, block_reference: &BlockReference) -> (r: RpcCall)
        ensures
            r.method@ == "EXPERIMENTAL_changes_in_block"@,
            r.params matches Some(p) && block_reference_json(p, *block_reference),
    {
        call("EXPERIMENTAL_changes_in_block", Some(block_reference.to_json()))
    }

    /// `chunk`: one chunk, by `{"chunk_id": hash}`.
    pub fn chunk(&self, chunk_id: &CryptoHash) -> (r: RpcCall)
        ensures
            r.method@ == "chunk"@,
            r.params matches Some(p) && text_of(field(p, "chunk_id"@)) matches Some(s)
                && base58_hash(s) == Some(chunk_id.0@),
    {
        call("chunk", Some(Json::Object(Members::Nil.with("chunk_id", Json::Str(chunk_id.to_base58())))))
    }

    /// `validators`: the validators of the epoch of a block, by `[id]`.
    pub fn validators(&self, block_id: &BlockId) -> (r: RpcCall)
        ensures
            r.method@ == "validators"@,
            r.params matches Some(p) && single_item(p) matches Some(x) && block_id_written(x, *block_id),
    {
        call("validators", Some(array1(block_id.to_json())))
    }

    /// `EXPERIMENTAL_protocol_config`: the protocol configuration at a block, by a named reference.
    pub fn experimental_protocol_config(&self, block_reference: &BlockReference) -> (r: RpcCall)
        ensures
            r.method@ == "EXPERIMENTAL_protocol_config"@,
            r.params matches Some(p) && block_reference_json(p, *block_reference),
    {
        call("EXPERIMENTAL_protocol_config", Some(block_reference.to_json()))
    }

    /// `EXPERIMENTAL_light_client_proof`: a proof of an outcome; `request` holds its fields.
    pub fn light_client_proof(&self, request: Json) -> (r: RpcCall)
        ensures
            r.method@ == "EXPERIMENTAL_light_client_proof"@,
            r.params == Some(request),
    {
        call("EXPERIMENTAL_light_client_proof", Some(request))
    }

    /// `gas_price`: the gas price at a block, by `[id]`.
    pub fn gas_price(&self, block_id: &BlockId) -> (r: RpcCall)
        ensures
            r.method@ == "gas_price"@,
            r.params matches Some(p) && single_item(p) matches Some(x) && block_id_written(x, *block_id),
    {
        call("gas_price", Some(array1(block_id.to_json())))
    }

    /// `network_info`: the node's peers; no parameters.
    pub fn network_info(&self) -> (r: RpcCall)
        ensures
            r.method@ == "network_info"@,
            r.params is None,
    {
        call("network_info", None)
    }

    /// `EXPERIMENTAL_changes`: the state changes of one kind in a block. The parameters hold
    /// `changes_type`, the accounts or keys, the key prefix in base64 for data changes, and
    /// the block reference's member.
    pub fn changes(&self, kind: ChangesKind, block_reference: &BlockReference) -> (r: RpcCall)
        ensures
            r.method@ == "EXPERIMENTAL_changes"@,
            r.params matches Some(p) && text_of(field(p, "changes_type"@)) == Some(changes_type_name(kind))
                && changes_members(p, kind) && names_reference(p, *block_reference),
    {
        proof {
            lemma_member_names_differ();
            reveal_with_fuel(crate::json::member, 5);
        }
        let reference = reference_members(block_reference);
        let (name, m) = match kind {
            ChangesKind::AllAccessKeyChanges { account_ids } => (
                "all_access_key_changes",
                reference.with("account_ids", account_ids_array(&account_ids)),
            ),
            ChangesKind::SingleAccessKeyChanges { keys } => {
                let items = keys_items(&keys, 0);
                assert(keys@.skip(0) =~= keys@);
                ("single_access_key_changes", reference.with("keys", Json::Array(items)))
            },
            ChangesKind::AccountChanges { account_ids } => (
                "account_changes",
                reference.with("account_ids", account_ids_array(&account_ids)),
            ),
            ChangesKind::DataChanges { account_ids, key_prefix } => {
                let prefix = crate::transactions::base64_of_bytes(&key_prefix);
                (
                    "data_changes",
                    reference.with("key_prefix_base64", Json::Str(prefix)).with(
                        "account_ids",
                        account_ids_array(&account_ids),
                    ),
                )
            },
            ChangesKind::ContractCodeChanges { account_ids } => (
                "contract_code_changes",
                reference.with("account_ids", account_ids_array(&account_ids)),
            ),
        };
        call("EXPERIMENTAL_changes", Some(Json::Object(m.with("changes_type", json_str(name)))))
    }
}

/// The bytes `b` are a response envelope that answers the request numbered `id`.
pub open spec fn answers(b: Seq<u8>, id: i128) -> bool {
    &&& is_json_text(b)
    &&& json_depth(json_document(b)) <= MAX_DEPTH
    &&& is_envelope(json_document(b))
    &&& field(json_document(b), "id"@) == Some(Json::Int(id))
}

/// The response to the request numbered `id` that the transport's outcome holds: a transport
/// failure is a transport error carrying its reason; bytes that are not a response envelope,
/// or that answer another request, give an internal error.
pub fn outcome_response(id: i128, outcome: Result<Vec<u8>, String>) -> (r: Result<Response, RpcError>)
    ensures
        outcome matches Err(m) ==> (r matches Err(e) && e.kind is TransportError && e.code == TRANSPORT_ERROR_CODE
            && e.message == m),
        outcome matches Ok(b) ==> (r is Ok <==> answers(b@, id)),
        outcome is Ok ==> (r matches Err(e) ==> e.kind is InternalError),
        r matches Ok(resp) ==> resp.id == Json::Int(id) && (outcome matches Ok(b)
            && envelope_parts(json_document(b@), resp)),
{
    match outcome {
        Ok(b) => match parse_response(b.as_slice()) {
            Ok(resp) => {
                let answers = match &resp.id {
                    Json::Int(n) => *n == id,
                    _ => false,
                };
                if answers {
                    Ok(resp)
                } else {
                    Err(RpcError::new_internal_error(None, "Response answers another request".to_owned()))
                }
            },
            Err(e) => Err(e),
        },
        Err(m) => Err(RpcError::transport_error(m)),
    }
}

/// The generic form of an error that the node reports for a method with no error type of
/// its own: tagged `INTERNAL_ERROR`, an internal error, else a handler error; the node's
/// object is kept as the data.
pub fn generic_error(e: Json) -> (r: RpcError)
    ensures
        r.code == SERVER_ERROR_CODE,
        tag_of(e) == Some("INTERNAL_ERROR"@) <==> r.kind is InternalError,
        tag_of(e) != Some("INTERNAL_ERROR"@) ==> r.kind == RpcErrorKind::HandlerError(e),
        r.data == Some(e),
{
    let message = match e.get("message") {
        Some(Json::Str(m)) => m.clone(),
        _ => "Server error".to_owned(),
    };
    RpcError::new_internal_or_handler_error(Some(e.copy()), e, message)
}

/// The result of a method whose result this library carries as JSON.
pub fn json_result(resp: Response) -> (r: Result<Json, RpcError>)
    ensures
        resp.result matches Ok(x) ==> r == Ok::<Json, RpcError>(x),
        resp.result matches Err(e) ==> (r matches Err(x) && x.code == SERVER_ERROR_CODE && x.data == Some(e)),
{
    match resp.result {
        Ok(x) => Ok(x),
        Err(e) => Err(generic_error(e)),
    }
}

/// `r` is what a result `x` that must read as the view `sh` gives: `x` itself where a
/// serde_json value written from it reads as that view, else an internal error. Success is
/// owed where every value written from `x` reads as that view.
pub open spec fn checked_result(sh: ViewShape, x: Json, r: Result<Json, RpcError>) -> bool {
    &&& (writable(x) && shaped(sh, x) ==> r is Ok)
    &&& (r matches Ok(y) ==> y == x && exists|v: serde_json::Value| written(document_of(v), x)
        && shape_fits(sh, document_of(v)))
    &&& (r matches Err(e) ==> e.kind is InternalError)
}

/// The result `x`, where it reads as the view `sh`.
fn checked(sh: &ViewShape, x: Json) -> (r: Result<Json, RpcError>)
    ensures
        checked_result(*sh, x, r),
{
    match check_shape(sh, &x) {
        Ok(()) => Ok(x),
        Err(e) => Err(e),
    }
}

/// The result of a method whose result must read as the node's view `sh` (`status`,
/// `chunk`, `validators`, `gas_price`), or the node's error in the generic form.
pub fn view_result(resp: Response, sh: ViewShape) -> (r: Result<Json, RpcError>)
    ensures
        resp.result matches Ok(x) ==> checked_result(sh, x, r),
        resp.result matches Err(e) ==> (r matches Err(x) && x.code == SERVER_ERROR_CODE && x.data == Some(e)),
{
    match resp.result {
        Ok(x) => checked(&sh, x),
        Err(e) => Err(generic_error(e)),
    }
}

/// The result of `block`: a block, or the method's error in the generic form.
pub fn block_result(resp: Response) -> (r: Result<BlockView, RpcError>)
    ensures
        resp.result matches Ok(x) ==> (r is Ok <==> is_block_view_json(x)),
        resp.result matches Ok(x) ==> (r matches Ok(v) ==> block_view_json(x, v)),
        resp.result matches Ok(x) ==> (r matches Err(e) ==> e.kind is InternalError),
        resp.result matches Err(e) ==> (r matches Err(x) && exists|d: RpcBlockError| block_error_decoded(e, d) && block_rpc_form(d, x)),
{
    match resp.result {
        Ok(x) => BlockView::from_json(&x),
        Err(e) => {
            let d = RpcBlockError::from_wire(&e);
            let ghost g = d;
            let x = d.into_rpc_error();
            assert(block_error_decoded(e, g) && block_rpc_form(g, x));
            Err(x)
        },
    }
}

/// The result of `EXPERIMENTAL_changes_in_block`: the block's hash and its changes, or the
/// method's error in the generic form.
pub fn block_changes_result(resp: Response) -> (r: Result<RpcStateChangesInBlockResponse, RpcError>)
    ensures
        resp.result matches Ok(x) ==> (!is_state_changes_json(x) ==> r is Err),
        resp.result matches Ok(x) ==> (r matches Ok(v) ==> state_changes_json(x, v.block_hash, v.changes)
            && exists|w: serde_json::Value| written(document_of(w), v.changes)
                && shape_fits(ViewShape::StateChangeKinds, document_of(w))),
        resp.result matches Ok(x) ==> (r matches Err(e) ==> e.kind is InternalError),
        resp.result matches Ok(x) ==> (is_state_changes_json(x) && writable(field(x, "changes"@)->0)
            && shaped(ViewShape::StateChangeKinds, field(x, "changes"@)->0) ==> r is Ok),
        resp.result matches Err(e) ==> (r matches Err(x) && exists|d: RpcStateChangesError|
            state_changes_error_decoded(e, d) && state_changes_rpc_form(d, x)),
{
    match resp.result {
        Ok(x) => match RpcStateChangesInBlockResponse::from_json(&x) {
            Ok(v) => match check_shape(&ViewShape::StateChangeKinds, &v.changes) {
                Ok(()) => Ok(v),
                Err(e) => Err(e),
            },
            Err(e) => Err(e),
        },
        Err(e) => {
            let d = RpcStateChangesError::from_wire(&e);
            let ghost g = d;
            let x = d.into_rpc_error();
            assert(state_changes_error_decoded(e, g) && state_changes_rpc_form(g, x));
            Err(x)
        },
    }
}

/// The result of `EXPERIMENTAL_changes`: the changes as JSON, or the error in the generic form.
pub fn changes_result(resp: Response) -> (r: Result<Json, RpcError>)
    ensures
        resp.result matches Ok(x) ==> checked_result(ViewShape::StateChanges, x, r),
        resp.result matches Err(e) ==> (r matches Err(x) && exists|d: RpcStateChangesError|
            state_changes_error_decoded(e, d) && state_changes_rpc_form(d, x)),
{
    match resp.result {
        Ok(x) => checked(&ViewShape::StateChanges, x),
        Err(e) => {
            let d = RpcStateChangesError::from_wire(&e);
            let ghost g = d;
            let x = d.into_rpc_error();
            assert(state_changes_error_decoded(e, g) && state_changes_rpc_form(g, x));
            Err(x)
        },
    }
}

/// The result of `EXPERIMENTAL_protocol_config`: the configuration as JSON, or the method's
/// error in the generic form.
pub fn protocol_config_result(resp: Response) -> (r: Result<Json, RpcError>)
    ensures
        resp.result matches Ok(x) ==> r == Ok::<Json, RpcError>(x),
        resp.result matches Err(e) ==> (r matches Err(x) && exists|d: RpcProtocolConfigError|
            protocol_config_error_decoded(e, d) && protocol_config_rpc_form(d, x)),
{
    match resp.result {
        Ok(x) => Ok(x),
        Err(e) => {
            let d = RpcProtocolConfigError::from_wire(&e);
            let ghost g = d;
            let x = d.into_rpc_error();
            assert(protocol_config_error_decoded(e, g) && protocol_config_rpc_form(g, x));
            Err(x)
        },
    }
}

/// The result of a transaction method whose outcome this library carries as JSON.
pub fn transaction_result(resp: Response) -> (r: Result<Json, RpcError>)
    ensures
        resp.result matches Ok(x) ==> checked_result(ViewShape::Outcome, x, r),
        resp.result matches Err(e) ==> (r matches Err(x) && exists|d: RpcTransactionError|
            transaction_error_decoded(e, d) && transaction_rpc_form(d, x)),
{
    match resp.result {
        Ok(x) => checked(&ViewShape::Outcome, x),
        Err(e) => {
            let d = RpcTransactionError::from_wire(&e);
            let ghost g = d;
            let x = d.into_rpc_error();
            assert(transaction_error_decoded(e, g) && transaction_rpc_form(g, x));
            Err(x)
        },
    }
}

/// The result of `broadcast_tx_async`: the transaction's hash, or the error in the generic form.
pub fn transaction_async_result(resp: Response) -> (r: Result<RpcBroadcastTxSyncResponse, RpcError>)
    ensures
        resp.result matches Ok(x) ==> (r is Ok <==> (x matches Json::Str(s) && base58_hash(s@) is Some)),
        resp.result matches Ok(x) ==> (r matches Ok(v) ==> (x matches Json::Str(s)
            && base58_hash(s@) == Some(v.transaction_hash.0@))),
        resp.result matches Err(e) ==> (r matches Err(x) && exists|d: RpcTransactionError|
            transaction_error_decoded(e, d) && transaction_rpc_form(d, x)),
{
    match resp.result {
        Ok(x) => RpcBroadcastTxSyncResponse::from_json(&x),
        Err(e) => {
            let d = RpcTransactionError::from_wire(&e);
            let ghost g = d;
            let x = d.into_rpc_error();
            assert(transaction_error_decoded(e, g) && transaction_rpc_form(g, x));
            Err(x)
        },
    }
}

/// The result of `network_info`: the summary of the node's peers, or the error in the generic form.
pub fn network_info_result(resp: Response) -> (r: Result<RpcNetworkInfoResponse, RpcError>)
    ensures
        resp.result matches Ok(x) ==> (r is Ok <==> is_network_info_json(x)),
        resp.result matches Ok(x) ==> (r matches Ok(v) ==> network_info_json(x, v)),
        resp.result matches Err(e) ==> (r matches Err(x) && x.code == SERVER_ERROR_CODE && x.kind is InternalError),
{
    match resp.result {
        Ok(x) => RpcNetworkInfoResponse::from_json(&x),
        Err(e) => Err(RpcNetworkInfoError::from_wire(&e).into_rpc_error()),
    }
}

} // verus!
