//! An account's access keys: the query that fetches one, and a cache of those already
//! fetched that the caller owns and passes in.
use vstd::prelude::*;
use crate::json::{Json, field, text_of};
use crate::errors::RpcError;
use crate::provider::{JsonRpcProvider, QueryRequest, RpcCall, names_reference};
use crate::types::{AccountId, BlockReference, Finality};

verus! {

/// An access key as the node describes it: the last nonce used with it, and what it may do.
pub struct AccessKeyView {
    pub nonce: u64,
    pub permission: Json,
}

impl AccessKeyView {
    pub fn copy(&self) -> (r: AccessKeyView)
        ensures
            r == *self,
    {
        AccessKeyView { nonce: self.nonce, permission: self.permission.copy() }
    }
}

/// `j` describes the access key `v`: its `nonce` as a number, and its `permission`.
pub open spec fn access_key_json(j: Json, v: AccessKeyView) -> bool {
    &&& field(j, "nonce"@) matches Some(Json::Int(n)) && n == v.nonce as int
    &&& field(j, "permission"@) == Some(v.permission)
}

/// `j` describes some access key.
pub open spec fn is_access_key_json(j: Json) -> bool {
    &&& field(j, "nonce"@) matches Some(Json::Int(n)) && 0 <= n <= u64::MAX
    &&& field(j, "permission"@) is Some
}

impl AccessKeyView {
    /// The access key that the query result `j` describes; an internal error where it
    /// describes none.
    pub fn from_json(j: &Json) -> (r: Result<AccessKeyView, RpcError>)
        ensures
            r is Ok <==> is_access_key_json(*j),
            r matches Ok(v) ==> access_key_json(*j, v),
            r matches Err(e) ==> e.kind is InternalError,
    {
        let nonce = match j.get("nonce") {
            Some(Json::Int(n)) => {
                if 0 <= *n && *n <= u64::MAX as i128 {
                    *n as u64
                } else {
                    return Err(RpcError::new_internal_error(None, "access key nonce out of range".to_owned()));
                }
            },
            _ => {
                return Err(RpcError::new_internal_error(None, "missing field `nonce`".to_owned()));
            },
        };
        match j.get("permission") {
            Some(p) => Ok(AccessKeyView { nonce, permission: p.copy() }),
            None => Err(RpcError::new_internal_error(None, "missing field `permission`".to_owned())),
        }
    }
}

/// Access keys already fetched, by public key.
#[verifier::external_body]
pub struct AccessKeyCache {
    keys: hashbrown::HashMap<String, AccessKeyView>,
}

/// The access keys that `c` holds, by public key.
pub uninterp spec fn cached_keys(c: AccessKeyCache) -> Map<Seq<char>, AccessKeyView>;

impl AccessKeyCache {
    /// Relies on hashbrown's `HashMap::new`: a map with no entries.
    #[verifier::external_body]
    pub fn new() -> (r: AccessKeyCache)
        ensures
            forall|k: Seq<char>| !#[trigger] cached_keys(r).contains_key(k),
    {
        AccessKeyCache { keys: hashbrown::HashMap::new() }
    }

    /// Relies on hashbrown's `HashMap::insert`: the entry for `public_key` becomes `view`.
    #[verifier::external_body]
    pub fn insert(&mut self, public_key: String, view: AccessKeyView)
        ensures
            cached_keys(*final(self)) == cached_keys(*old(self)).insert(public_key@, view),
    {
        self.keys.insert(public_key, view);
    }

    /// Relies on hashbrown's `HashMap::get`: the key cached under `public_key`, where there is one.
    #[verifier::external_body]
    pub fn get(&self, public_key: &str) -> (r: Option<&AccessKeyView>)
        ensures
            r is Some <==> cached_keys(*self).contains_key(public_key@),
            r matches Some(v) ==> cached_keys(*self)[public_key@] == *v,
    {
        self.keys.get(public_key)
    }
}

/// What finding an access key takes: it is cached already, or it must be queried.
pub enum FindAccessKey {
    Cached(AccessKeyView),
    Query(RpcCall),
}

/// The call that reads the state of `account_id`, at optimistic finality.
pub fn state(provider: &JsonRpcProvider, account_id: &AccountId) -> (r: RpcCall)
    ensures
        r.method@ == "query"@,
        r.params matches Some(p) && text_of(field(p, "request_type"@)) == Some("view_account"@)
            && text_of(field(p, "account_id"@)) == Some(account_id@)
            && names_reference(p, BlockReference::Finality(Finality::Optimistic)),
{
    provider.query(
        &QueryRequest::ViewAccount { account_id: account_id.copy() },
        &BlockReference::Finality(Finality::Optimistic),
    )
}

/// The access key `public_key` of `account_id`: from `cache` where it is there, else the
/// query that fetches it, at optimistic finality.
pub fn find_access_key(
    cache: &AccessKeyCache,
    provider: &JsonRpcProvider,
    account_id: &AccountId,
    public_key: &str,
) -> (r: FindAccessKey)
    ensures
        cached_keys(*cache).contains_key(public_key@) <==> r is Cached,
        r matches FindAccessKey::Cached(v) ==> v == cached_keys(*cache)[public_key@],
        r matches FindAccessKey::Query(c) ==> c.method@ == "query"@ && (c.params matches Some(p)
            && text_of(field(p, "request_type"@)) == Some("view_access_key"@)
            && text_of(field(p, "account_id"@)) == Some(account_id@)
            && text_of(field(p, "public_key"@)) == Some(public_key@)
            && names_reference(p, BlockReference::Finality(Finality::Optimistic))),
{
    match cache.get(public_key) {
        Some(v) => FindAccessKey::Cached(v.copy()),
        None => FindAccessKey::Query(provider.query(
            &QueryRequest::ViewAccessKey { account_id: account_id.copy(), public_key: public_key.to_owned() },
            &BlockReference::Finality(Finality::Optimistic),
        )),
    }
}

/// Takes the result of the query for the access key `public_key`: where it describes a key,
/// caches it and returns it; otherwise returns the error and leaves the cache as it was.
pub fn record_access_key(cache: &mut AccessKeyCache, public_key: &str, result: Result<Json, RpcError>) -> (r: Result<AccessKeyView, RpcError>)
    ensures
        result matches Err(e) ==> r == Err::<AccessKeyView, RpcError>(e),
        result matches Ok(j) ==> (r is Ok <==> is_access_key_json(j)),
        r matches Ok(v) ==> result matches Ok(j) && access_key_json(j, v)
            && cached_keys(*final(cache)) == cached_keys(*old(cache)).insert(public_key@, v),
        r is Err ==> cached_keys(*final(cache)) == cached_keys(*old(cache)),
{
    match result {
        Ok(j) => match AccessKeyView::from_json(&j) {
            Ok(v) => {
                cache.insert(public_key.to_owned(), v.copy());
                Ok(v)
            },
            Err(e) => Err(e),
        },
        Err(e) => Err(e),
    }
}

} // verus!
