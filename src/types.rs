//! Identifiers of blocks, transactions and accounts, and their JSON forms.
use vstd::prelude::*;
use crate::json::{Json, Members, Items};

verus! {

/// Whether `s` decodes, in base58, to a 32-byte hash, and to which.
pub uninterp spec fn base58_hash(s: Seq<char>) -> Option<Seq<u8>>;

/// The base58 text of the hash `b`.
pub uninterp spec fn hash_text(b: Seq<u8>) -> Seq<char>;

/// A character that separates the parts of an account id.
pub open spec fn is_separator(c: char) -> bool {
    c == '-' || c == '_' || c == '.'
}

/// Whether `s` is a valid account id: 2 to 64 characters, each a lowercase letter, a digit
/// or a separator, with no separator first, last, or next to another.
pub open spec fn is_valid_account_id(s: Seq<char>) -> bool {
    &&& 2 <= s.len() <= 64
    &&& forall|i: int| 0 <= i < s.len() ==> ('a' <= #[trigger] s[i] <= 'z') || ('0' <= s[i] <= '9') || is_separator(s[i])
    &&& !is_separator(s[0])
    &&& !is_separator(s[s.len() - 1])
    &&& forall|i: int| 0 <= i < s.len() - 1 ==> !(is_separator(#[trigger] s[i]) && is_separator(s[i + 1]))
}

/// The account that near_primitives gives of why `s` is no base58 hash.
pub uninterp spec fn hash_error_text(s: Seq<char>) -> Seq<char>;

/// Relies on near_primitives' `CryptoHash::from_str`: base58 text of exactly 32 bytes; its
/// error's Display depends on the text alone.
#[verifier::external_body]
fn decode_hash(s: &str) -> (r: Result<[u8; 32], String>)
    ensures
        r is Ok <==> base58_hash(s@) is Some,
        r matches Ok(b) ==> base58_hash(s@) == Some(b@),
        r matches Err(e) ==> e@ == hash_error_text(s@),
{
    s.parse::<near_primitives::hash::CryptoHash>().map(|h| h.0).map_err(|e| e.to_string())
}

/// Relies on near_primitives' Display of `CryptoHash`: the base58 text of the bytes, which
/// `CryptoHash::from_str` reads back.
#[verifier::external_body]
fn encode_hash(b: &[u8; 32]) -> (r: String)
    ensures
        r@ == hash_text(b@),
        base58_hash(r@) == Some(b@),
{
    near_primitives::hash::CryptoHash(*b).to_string()
}

/// Relies on near_account_id's `AccountId::validate`, with its error's Display: the length
/// check counts bytes, but every valid character is one byte.
#[verifier::external_body]
fn validate_account_id(s: &str) -> (r: Result<(), String>)
    ensures
        r is Ok <==> is_valid_account_id(s@),
{
    near_account_id::AccountId::validate(s).map_err(|e| e.to_string())
}

/// A 32-byte hash of a block, chunk or transaction.
pub struct CryptoHash(pub [u8; 32]);

impl CryptoHash {
    /// The hash that the base58 text `s` holds.
    pub fn from_base58(s: &str) -> (r: Result<CryptoHash, String>)
        ensures
            r is Ok <==> base58_hash(s@) is Some,
            r matches Ok(h) ==> base58_hash(s@) == Some(h.0@),
            r matches Err(e) ==> e@ == hash_error_text(s@),
    {
        match decode_hash(s) {
            Ok(b) => Ok(CryptoHash(b)),
            Err(e) => Err(e),
        }
    }

    /// The base58 text of this hash.
    pub fn to_base58(&self) -> (r: String)
        ensures
            r@ == hash_text(self.0@),
            base58_hash(r@) == Some(self.0@),
    {
        encode_hash(&self.0)
    }

    pub fn copy(&self) -> (r: CryptoHash)
        ensures
            r == *self,
    {
        CryptoHash(self.0)
    }
}

/// Two hashes with the same bytes are the same hash.
pub proof fn lemma_hash_bytes_equal(a: CryptoHash, b: CryptoHash)
    requires
        a.0@ == b.0@,
    ensures
        a == b,
{
    assert(a.0 =~= b.0);
}

/// The id of an account, valid by the network's rules.
pub struct AccountId {
    id: String,
}

impl AccountId {
    pub closed spec fn view(&self) -> Seq<char> {
        self.id@
    }

    /// Every account id is valid.
    #[verifier::type_invariant]
    spec fn valid(&self) -> bool {
        is_valid_account_id(self.id@)
    }

    /// The account id `s`, where it is valid.
    pub fn parse(s: &str) -> (r: Result<AccountId, String>)
        ensures
            r is Ok <==> is_valid_account_id(s@),
            r matches Ok(a) ==> a@ == s@,
    {
        match validate_account_id(s) {
            Ok(()) => Ok(AccountId { id: s.to_owned() }),
            Err(e) => Err(e),
        }
    }

    pub fn as_str(&self) -> (r: &str)
        ensures
            r@ == self@,
            is_valid_account_id(r@),
    {
        proof {
            use_type_invariant(self);
        }
        self.id.as_str()
    }

    pub fn copy(&self) -> (r: AccountId)
        ensures
            r == *self,
    {
        proof {
            use_type_invariant(self);
        }
        AccountId { id: self.id.clone() }
    }
}

/// A block, by height or by hash.
pub enum BlockId {
    Height(u64),
    Hash(CryptoHash),
}

/// How final a block the node is to answer from.
pub enum Finality {
    Optimistic,
    NearFinal,
    Final,
}

/// A block, by id or by finality.
pub enum BlockReference {
    BlockId(BlockId),
    Finality(Finality),
}

/// `j` is the JSON form of the block id `b`: a height as a number, a hash as base58 text.
pub open spec fn block_id_json(j: Json, b: BlockId) -> bool {
    match j {
        Json::Int(n) => 0 <= n <= u64::MAX && b == BlockId::Height(n as u64),
        Json::Str(s) => match b {
            BlockId::Hash(h) => base58_hash(s@) == Some(h.0@),
            _ => false,
        },
        _ => false,
    }
}

/// `j` is the JSON form of `b` as this library writes it: a hash as its own base58 text.
pub open spec fn block_id_written(j: Json, b: BlockId) -> bool {
    &&& block_id_json(j, b)
    &&& match b {
        BlockId::Hash(h) => j matches Json::Str(s) && s@ == hash_text(h.0@),
        BlockId::Height(_) => true,
    }
}

/// `j` is the JSON form of some block id.
pub open spec fn is_block_id_json(j: Json) -> bool {
    match j {
        Json::Int(n) => 0 <= n <= u64::MAX,
        Json::Str(s) => base58_hash(s@) is Some,
        _ => false,
    }
}

/// The wire name of `f`.
pub open spec fn finality_name(f: Finality) -> Seq<char> {
    match f {
        Finality::Optimistic => "optimistic"@,
        Finality::NearFinal => "near-final"@,
        Finality::Final => "final"@,
    }
}

/// `j` is the JSON form of the finality `f`.
pub open spec fn finality_json(j: Json, f: Finality) -> bool {
    j matches Json::Str(s) && s@ == finality_name(f)
}

/// `j` is the JSON form of some finality.
pub open spec fn is_finality_json(j: Json) -> bool {
    j matches Json::Str(s) && (s@ == "optimistic"@ || s@ == "near-final"@ || s@ == "final"@)
}

/// `k: v` is a member that gives the block reference `r`.
pub open spec fn block_reference_member(k: Seq<char>, v: Json, r: BlockReference) -> bool {
    match r {
        BlockReference::BlockId(b) => k == "block_id"@ && block_id_json(v, b),
        BlockReference::Finality(f) => k == "finality"@ && finality_json(v, f),
    }
}

/// `k: v` is a member that gives some block reference.
pub open spec fn is_block_reference_member(k: Seq<char>, v: Json) -> bool {
    ||| (k == "block_id"@ && is_block_id_json(v))
    ||| (k == "finality"@ && is_finality_json(v))
}

/// `j` is the JSON form of the block reference `r`: an object whose one member is
/// `block_id` or `finality`.
pub open spec fn block_reference_json(j: Json, r: BlockReference) -> bool {
    j matches Json::Object(Members::Cons(k, v, rest)) && *rest == Members::Nil
        && block_reference_member(k@, *v, r)
}

/// `j` is the JSON form of some block reference.
pub open spec fn is_block_reference_json(j: Json) -> bool {
    j matches Json::Object(Members::Cons(k, v, rest)) && *rest == Members::Nil
        && is_block_reference_member(k@, *v)
}

/// Why `j` gives no block id.
pub open spec fn block_id_error(j: Json) -> Seq<char> {
    match j {
        Json::Int(_) => "block height out of range"@,
        Json::Str(s) => hash_error_text(s@),
        _ => "data did not match any variant of untagged enum BlockId"@,
    }
}

/// Why `j` names no finality.
pub open spec fn finality_error(j: Json) -> Seq<char> {
    match j {
        Json::Str(_) => "unknown finality"@,
        _ => "finality must be a string"@,
    }
}

/// Why the member `k: v` gives no block reference.
pub open spec fn reference_member_error(k: Seq<char>, v: Json) -> Seq<char> {
    if k == "block_id"@ {
        block_id_error(v)
    } else if k == "finality"@ {
        finality_error(v)
    } else {
        "unknown variant of BlockReference"@
    }
}

/// Why `j` gives no block reference.
pub open spec fn block_reference_error(j: Json) -> Seq<char> {
    match j {
        Json::Object(Members::Cons(k, v, rest)) => if *rest == Members::Nil {
            reference_member_error(k@, *v)
        } else {
            "expected map with a single key"@
        },
        _ => "expected map with a single key"@,
    }
}

/// The one element of `j`, where it is an array of one element.
pub open spec fn single_item(j: Json) -> Option<Json> {
    match j {
        Json::Array(Items::Cons(x, rest)) => if *rest == Items::Nil {
            Some(*x)
        } else {
            None
        },
        _ => None,
    }
}

/// The two elements of `j`, where it is an array of two elements.
pub open spec fn two_items(j: Json) -> Option<(Json, Json)> {
    match j {
        Json::Array(Items::Cons(x, rest)) => match *rest {
            Items::Cons(y, tail) => if *tail == Items::Nil {
                Some((*x, *y))
            } else {
                None
            },
            _ => None,
        },
        _ => None,
    }
}

/// The one element of `j`, where it is an array of one element.
pub fn get_single_item(j: &Json) -> (r: Option<&Json>)
    ensures
        r is None <==> single_item(*j) is None,
        r matches Some(x) ==> single_item(*j) == Some(*x),
{
    match j {
        Json::Array(Items::Cons(x, rest)) => match &**rest {
            Items::Nil => Some(&**x),
            _ => None,
        },
        _ => None,
    }
}

/// The two elements of `j`, where it is an array of two elements.
pub fn get_two_items(j: &Json) -> (r: Option<(&Json, &Json)>)
    ensures
        r is None <==> two_items(*j) is None,
        r matches Some(p) ==> two_items(*j) == Some((*p.0, *p.1)),
{
    match j {
        Json::Array(Items::Cons(x, rest)) => match &**rest {
            Items::Cons(y, tail) => match &**tail {
                Items::Nil => Some((&**x, &**y)),
                _ => None,
            },
            _ => None,
        },
        _ => None,
    }
}

impl BlockId {
    /// The JSON form of this id.
    pub fn to_json(&self) -> (r: Json)
        ensures
            block_id_json(r, *self),
            block_id_written(r, *self),
    {
        match self {
            BlockId::Height(h) => Json::Int(*h as i128),
            BlockId::Hash(h) => Json::Str(h.to_base58()),
        }
    }

    /// The block id that `j` gives.
    pub fn from_json(j: &Json) -> (r: Result<BlockId, String>)
        ensures
            r is Ok <==> is_block_id_json(*j),
            r matches Ok(b) ==> block_id_json(*j, b),
            r matches Err(e) ==> e@ == block_id_error(*j),
    {
        match j {
            Json::Int(n) => {
                if 0 <= *n && *n <= u64::MAX as i128 {
                    Ok(BlockId::Height(*n as u64))
                } else {
                    Err("block height out of range".to_owned())
                }
            },
            Json::Str(s) => match CryptoHash::from_base58(s.as_str()) {
                Ok(h) => Ok(BlockId::Hash(h)),
                Err(e) => Err(e),
            },
            _ => Err("data did not match any variant of untagged enum BlockId".to_owned()),
        }
    }

    pub fn copy(&self) -> (r: BlockId)
        ensures
            r == *self,
    {
        match self {
            BlockId::Height(h) => BlockId::Height(*h),
            BlockId::Hash(h) => BlockId::Hash(h.copy()),
        }
    }
}

impl Finality {
    /// The wire name of this finality.
    pub fn name(&self) -> (r: &'static str)
        ensures
            r@ == finality_name(*self),
    {
        match self {
            Finality::Optimistic => "optimistic",
            Finality::NearFinal => "near-final",
            Finality::Final => "final",
        }
    }

    /// The JSON form of this finality.
    pub fn to_json(&self) -> (r: Json)
        ensures
            finality_json(r, *self),
    {
        crate::json::json_str(self.name())
    }

    /// The finality that `j` names.
    pub fn from_json(j: &Json) -> (r: Result<Finality, String>)
        ensures
            r is Ok <==> is_finality_json(*j),
            r matches Ok(f) ==> finality_json(*j, f),
            r matches Err(e) ==> e@ == finality_error(*j),
    {
        match j {
            Json::Str(s) => {
                if crate::json::str_eq(s.as_str(), "optimistic") {
                    Ok(Finality::Optimistic)
                } else if crate::json::str_eq(s.as_str(), "near-final") {
                    Ok(Finality::NearFinal)
                } else if crate::json::str_eq(s.as_str(), "final") {
                    Ok(Finality::Final)
                } else {
                    Err("unknown finality".to_owned())
                }
            },
            _ => Err("finality must be a string".to_owned()),
        }
    }
}

impl BlockReference {
    /// The JSON form of this reference: `{"block_id": ..}` or `{"finality": ..}`.
    pub fn to_json(&self) -> (r: Json)
        ensures
            block_reference_json(r, *self),
    {
        match self {
            BlockReference::BlockId(b) => Json::Object(Members::Nil.with("block_id", b.to_json())),
            BlockReference::Finality(f) => Json::Object(Members::Nil.with("finality", f.to_json())),
        }
    }

    /// The reference that the member `k: v` gives.
    pub fn from_member(k: &str, v: &Json) -> (r: Result<BlockReference, String>)
        ensures
            r is Ok <==> is_block_reference_member(k@, *v),
            r matches Ok(b) ==> block_reference_member(k@, *v, b),
            r matches Err(e) ==> e@ == reference_member_error(k@, *v),
    {
        proof {
            reveal_strlit("block_id");
            reveal_strlit("finality");
            assert("block_id"@[0] != "finality"@[0]);
        }
        if crate::json::str_eq(k, "block_id") {
            match BlockId::from_json(v) {
                Ok(b) => Ok(BlockReference::BlockId(b)),
                Err(e) => Err(e),
            }
        } else if crate::json::str_eq(k, "finality") {
            match Finality::from_json(v) {
                Ok(f) => Ok(BlockReference::Finality(f)),
                Err(e) => Err(e),
            }
        } else {
            Err("unknown variant of BlockReference".to_owned())
        }
    }

    /// The reference that `j` gives: an object with one member, `block_id` or `finality`.
    pub fn from_json(j: &Json) -> (r: Result<BlockReference, String>)
        ensures
            r is Ok <==> is_block_reference_json(*j),
            r matches Ok(b) ==> block_reference_json(*j, b),
            r matches Err(e) ==> e@ == block_reference_error(*j),
    {
        match j {
            Json::Object(Members::Cons(k, v, rest)) => match &**rest {
                Members::Nil => BlockReference::from_member(k.as_str(), &**v),
                _ => Err("expected map with a single key".to_owned()),
            },
            _ => Err("expected map with a single key".to_owned()),
        }
    }
}

/// Decoding the JSON form of a block id gives it back: a JSON form names one id only.
pub proof fn lemma_block_id_json_unique(j: Json, a: BlockId, b: BlockId)
    requires
        block_id_json(j, a),
        block_id_json(j, b),
    ensures
        a == b,
{
    if let (BlockId::Hash(x), BlockId::Hash(y)) = (a, b) {
        lemma_hash_bytes_equal(x, y);
    }
}

/// Decoding the JSON form of a block reference gives it back: a JSON form names one
/// reference only.
pub proof fn lemma_block_reference_json_unique(j: Json, a: BlockReference, b: BlockReference)
    requires
        block_reference_json(j, a),
        block_reference_json(j, b),
    ensures
        a == b,
{
    reveal_strlit("block_id");
    reveal_strlit("finality");
    assert("block_id"@[0] != "finality"@[0]);
    reveal_strlit("optimistic");
    reveal_strlit("near-final");
    reveal_strlit("final");
    assert("optimistic"@[0] != "near-final"@[0]);
    assert("final"@.len() != "near-final"@.len());
    if let (BlockReference::BlockId(x), BlockReference::BlockId(y)) = (a, b) {
        if let Json::Object(Members::Cons(_, v, _)) = j {
            lemma_block_id_json_unique(*v, x, y);
        }
    }
}

} // verus!
