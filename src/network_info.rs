//! The network information method: its result and its errors.
use vstd::prelude::*;
use crate::json::{Json, Items, Members, concat, field, text_of};
use crate::types::{AccountId, is_valid_account_id};
use crate::errors::{RpcError, SERVER_ERROR_CODE, error_body, get_error_body, get_info_text, get_tag, is_wire_error, tag_of, wire_error};
use crate::blocks::{info_text, unknown_tag_message, unknown_tag_text};

verus! {

/// A peer the node is connected to: its id's text, its address where known, and its
/// account where it has one.
pub struct RpcPeerInfo {
    pub id: String,
    pub addr: Option<String>,
    pub account_id: Option<AccountId>,
}

/// A known block or chunk producer: its account, its address where known, and its peer id's text.
pub struct RpcKnownProducer {
    pub account_id: AccountId,
    pub addr: Option<String>,
    pub peer_id: String,
}

/// `v` is the optional text `t`: absent or `null` for none, a string for some.
pub open spec fn opt_text_json(v: Option<Json>, t: Option<String>) -> bool {
    match v {
        None => t is None,
        Some(Json::Null) => t is None,
        Some(Json::Str(s)) => t matches Some(u) && u@ == s@,
        _ => false,
    }
}

/// `v` is some optional text.
pub open spec fn is_opt_text_json(v: Option<Json>) -> bool {
    match v {
        None => true,
        Some(Json::Null) => true,
        Some(Json::Str(_)) => true,
        _ => false,
    }
}

/// `v` is the optional account `a`.
pub open spec fn opt_account_json(v: Option<Json>, a: Option<AccountId>) -> bool {
    match v {
        None => a is None,
        Some(Json::Null) => a is None,
        Some(Json::Str(s)) => a matches Some(x) && x@ == s@,
        _ => false,
    }
}

/// `v` is some optional valid account id.
pub open spec fn is_opt_account_json(v: Option<Json>) -> bool {
    match v {
        None => true,
        Some(Json::Null) => true,
        Some(Json::Str(s)) => is_valid_account_id(s@),
        _ => false,
    }
}

/// `x` is the JSON form of the peer `p`.
pub open spec fn peer_json(x: Json, p: RpcPeerInfo) -> bool {
    &&& text_of(field(x, "id"@)) == Some(p.id@)
    &&& opt_text_json(field(x, "addr"@), p.addr)
    &&& opt_account_json(field(x, "account_id"@), p.account_id)
}

/// `x` is the JSON form of some peer.
pub open spec fn is_peer_json(x: Json) -> bool {
    &&& text_of(field(x, "id"@)) is Some
    &&& is_opt_text_json(field(x, "addr"@))
    &&& is_opt_account_json(field(x, "account_id"@))
}

/// `x` is the JSON form of the producer `p`.
pub open spec fn producer_json(x: Json, p: RpcKnownProducer) -> bool {
    &&& text_of(field(x, "account_id"@)) == Some(p.account_id@)
    &&& opt_text_json(field(x, "addr"@), p.addr)
    &&& text_of(field(x, "peer_id"@)) == Some(p.peer_id@)
}

/// `x` is the JSON form of some producer.
pub open spec fn is_producer_json(x: Json) -> bool {
    &&& text_of(field(x, "account_id"@)) matches Some(a) && is_valid_account_id(a)
    &&& is_opt_text_json(field(x, "addr"@))
    &&& text_of(field(x, "peer_id"@)) is Some
}

/// `items` are the peers `ps`, in order.
pub open spec fn peers_json(items: Items, ps: Seq<RpcPeerInfo>) -> bool
    decreases ps.len(),
{
    match items {
        Items::Nil => ps.len() == 0,
        Items::Cons(x, rest) => ps.len() > 0 && peer_json(*x, ps[0]) && peers_json(*rest, ps.drop_first()),
    }
}

/// `items` are all peers.
pub open spec fn is_peers_json(items: Items) -> bool
    decreases items,
{
    match items {
        Items::Nil => true,
        Items::Cons(x, rest) => is_peer_json(*x) && is_peers_json(*rest),
    }
}

/// `items` are the producers `ps`, in order.
pub open spec fn producers_json(items: Items, ps: Seq<RpcKnownProducer>) -> bool
    decreases ps.len(),
{
    match items {
        Items::Nil => ps.len() == 0,
        Items::Cons(x, rest) => ps.len() > 0 && producer_json(*x, ps[0]) && producers_json(*rest, ps.drop_first()),
    }
}

/// `items` are all producers.
pub open spec fn is_producers_json(items: Items) -> bool
    decreases items,
{
    match items {
        Items::Nil => true,
        Items::Cons(x, rest) => is_producer_json(*x) && is_producers_json(*rest),
    }
}

/// The optional text that `v` holds.
fn parse_opt_text(v: Option<&Json>) -> (r: Result<Option<String>, String>)
    ensures
        r is Ok <==> is_opt_text_json(match v {
            Some(x) => Some(*x),
            None => None,
        }),
        r matches Ok(t) ==> opt_text_json(match v {
            Some(x) => Some(*x),
            None => None,
        }, t),
{
    match v {
        None => Ok(None),
        Some(Json::Null) => Ok(None),
        Some(Json::Str(s)) => Ok(Some(s.clone())),
        _ => Err("expected a string or null".to_owned()),
    }
}

/// The optional account that `v` holds.
fn parse_opt_account(v: Option<&Json>) -> (r: Result<Option<AccountId>, String>)
    ensures
        r is Ok <==> is_opt_account_json(match v {
            Some(x) => Some(*x),
            None => None,
        }),
        r matches Ok(a) ==> opt_account_json(match v {
            Some(x) => Some(*x),
            None => None,
        }, a),
{
    match v {
        None => Ok(None),
        Some(Json::Null) => Ok(None),
        Some(Json::Str(s)) => match AccountId::parse(s.as_str()) {
            Ok(a) => Ok(Some(a)),
            Err(e) => Err(e),
        },
        _ => Err("expected an account id or null".to_owned()),
    }
}

/// The text member `key` of `x`.
fn get_text(x: &Json, key: &str) -> (r: Result<String, String>)
    ensures
        r is Ok <==> text_of(field(*x, key@)) is Some,
        r matches Ok(t) ==> text_of(field(*x, key@)) == Some(t@),
{
    match x.get(key) {
        Some(Json::Str(s)) => Ok(s.clone()),
        _ => Err("expected a string member".to_owned()),
    }
}

/// The peers that `items` list.
fn parse_peers(items: &Items) -> (r: Result<Vec<RpcPeerInfo>, String>)
    ensures
        r is Ok <==> is_peers_json(*items),
        r matches Ok(ps) ==> peers_json(*items, ps@),
    decreases items,
{
    match items {
        Items::Nil => Ok(Vec::new()),
        Items::Cons(x, rest) => {
            let id = get_text(x, "id")?;
            let addr = parse_opt_text(x.get("addr"))?;
            let account_id = parse_opt_account(x.get("account_id"))?;
            let mut out = parse_peers(&**rest)?;
            let ghost tail = out@;
            out.insert(0, RpcPeerInfo { id, addr, account_id });
            assert(out@.drop_first() =~= tail);
            Ok(out)
        },
    }
}

/// The producers that `items` list.
fn parse_producers(items: &Items) -> (r: Result<Vec<RpcKnownProducer>, String>)
    ensures
        r is Ok <==> is_producers_json(*items),
        r matches Ok(ps) ==> producers_json(*items, ps@),
    decreases items,
{
    match items {
        Items::Nil => Ok(Vec::new()),
        Items::Cons(x, rest) => {
            let a = get_text(x, "account_id")?;
            let account_id = AccountId::parse(a.as_str())?;
            let addr = parse_opt_text(x.get("addr"))?;
            let peer_id = get_text(x, "peer_id")?;
            let mut out = parse_producers(&**rest)?;
            let ghost tail = out@;
            out.insert(0, RpcKnownProducer { account_id, addr, peer_id });
            assert(out@.drop_first() =~= tail);
            Ok(out)
        },
    }
}

/// The JSON form of the optional text `t`: `null` for none.
fn opt_text_to_json(t: &Option<String>) -> (r: Json)
    ensures
        opt_text_json(Some(r), *t),
{
    match t {
        Some(s) => Json::Str(s.clone()),
        None => Json::Null,
    }
}

/// The names of peer members differ from one another.
proof fn lemma_peer_names_differ()
    ensures
        "id"@ != "addr"@, "id"@ != "account_id"@, "addr"@ != "account_id"@, "account_id"@ != "peer_id"@,
        "addr"@ != "peer_id"@,
{
    reveal_strlit("id");
    reveal_strlit("addr");
    reveal_strlit("account_id");
    reveal_strlit("peer_id");
    assert("id"@.len() != "addr"@.len());
    assert("id"@[0] != "account_id"@[0]);
    assert("addr"@[1] != "account_id"@[1]);
    assert("account_id"@[0] != "peer_id"@[0]);
    assert("addr"@[0] != "peer_id"@[0]);
}

/// The peers `ps[from..]` as JSON.
fn peers_items(ps: &Vec<RpcPeerInfo>, from: usize) -> (r: Items)
    requires
        from <= ps@.len(),
    ensures
        peers_json(r, ps@.skip(from as int)),
    decreases ps@.len() - from,
{
    if from == ps.len() {
        assert(ps@.skip(from as int) =~= Seq::<RpcPeerInfo>::empty());
        Items::Nil
    } else {
        let rest = peers_items(ps, from + 1);
        assert(ps@.skip(from as int).drop_first() =~= ps@.skip(from + 1));
        proof {
            lemma_peer_names_differ();
            reveal_with_fuel(crate::json::member, 4);
        }
        let p = &ps[from];
        let account = match &p.account_id {
            Some(a) => crate::json::json_str(a.as_str()),
            None => Json::Null,
        };
        let m = Members::Nil.with("account_id", account).with("addr", opt_text_to_json(&p.addr))
            .with("id", Json::Str(p.id.clone()));
        Items::Cons(Box::new(Json::Object(m)), Box::new(rest))
    }
}

/// The producers `ps[from..]` as JSON.
fn producers_items(ps: &Vec<RpcKnownProducer>, from: usize) -> (r: Items)
    requires
        from <= ps@.len(),
    ensures
        producers_json(r, ps@.skip(from as int)),
    decreases ps@.len() - from,
{
    if from == ps.len() {
        assert(ps@.skip(from as int) =~= Seq::<RpcKnownProducer>::empty());
        Items::Nil
    } else {
        let rest = producers_items(ps, from + 1);
        assert(ps@.skip(from as int).drop_first() =~= ps@.skip(from + 1));
        proof {
            lemma_peer_names_differ();
            reveal_with_fuel(crate::json::member, 4);
        }
        let p = &ps[from];
        let m = Members::Nil.with("peer_id", Json::Str(p.peer_id.clone())).with("addr", opt_text_to_json(&p.addr))
            .with("account_id", crate::json::json_str(p.account_id.as_str()));
        Items::Cons(Box::new(Json::Object(m)), Box::new(rest))
    }
}

/// Two lists of peers describe the same peers, in order.
pub open spec fn same_peers(a: Seq<RpcPeerInfo>, b: Seq<RpcPeerInfo>) -> bool {
    a.len() == b.len() && forall|i: int| 0 <= i < a.len() ==> #[trigger] a[i].id@ == b[i].id@
        && opt_view(a[i].addr) == opt_view(b[i].addr) && opt_account_view(a[i].account_id) == opt_account_view(b[i].account_id)
}

/// Two lists of producers describe the same producers, in order.
pub open spec fn same_producers(a: Seq<RpcKnownProducer>, b: Seq<RpcKnownProducer>) -> bool {
    a.len() == b.len() && forall|i: int| 0 <= i < a.len() ==> #[trigger] a[i].account_id@ == b[i].account_id@
        && opt_view(a[i].addr) == opt_view(b[i].addr) && a[i].peer_id@ == b[i].peer_id@
}

/// The characters of an optional text.
pub open spec fn opt_view(t: Option<String>) -> Option<Seq<char>> {
    match t {
        Some(s) => Some(s@),
        None => None,
    }
}

/// The characters of an optional account.
pub open spec fn opt_account_view(a: Option<AccountId>) -> Option<Seq<char>> {
    match a {
        Some(x) => Some(x@),
        None => None,
    }
}

proof fn lemma_peers_unique(items: Items, a: Seq<RpcPeerInfo>, b: Seq<RpcPeerInfo>)
    requires
        peers_json(items, a),
        peers_json(items, b),
    ensures
        same_peers(a, b),
    decreases a.len(),
{
    if let Items::Cons(_, rest) = items {
        lemma_peers_unique(*rest, a.drop_first(), b.drop_first());
        assert forall|i: int| 0 <= i < a.len() implies #[trigger] a[i].id@ == b[i].id@
            && opt_view(a[i].addr) == opt_view(b[i].addr)
            && opt_account_view(a[i].account_id) == opt_account_view(b[i].account_id) by {
            if i > 0 {
                assert(a.drop_first()[i - 1] == a[i]);
                assert(b.drop_first()[i - 1] == b[i]);
            }
        }
    }
}

proof fn lemma_producers_unique(items: Items, a: Seq<RpcKnownProducer>, b: Seq<RpcKnownProducer>)
    requires
        producers_json(items, a),
        producers_json(items, b),
    ensures
        same_producers(a, b),
    decreases a.len(),
{
    if let Items::Cons(_, rest) = items {
        lemma_producers_unique(*rest, a.drop_first(), b.drop_first());
        assert forall|i: int| 0 <= i < a.len() implies #[trigger] a[i].account_id@ == b[i].account_id@
            && opt_view(a[i].addr) == opt_view(b[i].addr) && a[i].peer_id@ == b[i].peer_id@ by {
            if i > 0 {
                assert(a.drop_first()[i - 1] == a[i]);
                assert(b.drop_first()[i - 1] == b[i]);
            }
        }
    }
}

/// A summary of the node's peers.
pub struct RpcNetworkInfoResponse {
    /// The peers the node is connected to.
    pub active_peers: Vec<RpcPeerInfo>,
    pub num_active_peers: u64,
    pub peer_max_count: u32,
    pub sent_bytes_per_sec: u64,
    pub received_bytes_per_sec: u64,
    /// Accounts of known block and chunk producers, from the routing table.
    pub known_producers: Vec<RpcKnownProducer>,
}

/// The member `key` of `j`, where it is a number in `0..=max`.
pub open spec fn count_field(j: Json, key: Seq<char>, max: int) -> Option<int> {
    match field(j, key) {
        Some(Json::Int(n)) => if 0 <= n <= max {
            Some(n as int)
        } else {
            None
        },
        _ => None,
    }
}

/// The member `key` of `j`, where it is a number in `0..=max`.
fn get_count(j: &Json, key: &str, max: u64) -> (r: Option<u64>)
    ensures
        r is Some <==> count_field(*j, key@, max as int) is Some,
        r matches Some(n) ==> count_field(*j, key@, max as int) == Some(n as int),
{
    match j.get(key) {
        Some(Json::Int(n)) => {
            if 0 <= *n && *n <= max as i128 {
                Some(*n as u64)
            } else {
                None
            }
        },
        _ => None,
    }
}

/// `j` is the JSON form of `r`.
pub open spec fn network_info_json(j: Json, r: RpcNetworkInfoResponse) -> bool {
    &&& field(j, "active_peers"@) matches Some(Json::Array(items)) && peers_json(items, r.active_peers@)
    &&& count_field(j, "num_active_peers"@, u64::MAX as int) == Some(r.num_active_peers as int)
    &&& count_field(j, "peer_max_count"@, u32::MAX as int) == Some(r.peer_max_count as int)
    &&& count_field(j, "sent_bytes_per_sec"@, u64::MAX as int) == Some(r.sent_bytes_per_sec as int)
    &&& count_field(j, "received_bytes_per_sec"@, u64::MAX as int) == Some(r.received_bytes_per_sec as int)
    &&& field(j, "known_producers"@) matches Some(Json::Array(items)) && producers_json(items, r.known_producers@)
}

/// `j` is the JSON form of some peer summary: all six members are there, the counts in range.
pub open spec fn is_network_info_json(j: Json) -> bool {
    &&& field(j, "active_peers"@) matches Some(Json::Array(items)) && is_peers_json(items)
    &&& count_field(j, "num_active_peers"@, u64::MAX as int) is Some
    &&& count_field(j, "peer_max_count"@, u32::MAX as int) is Some
    &&& count_field(j, "sent_bytes_per_sec"@, u64::MAX as int) is Some
    &&& count_field(j, "received_bytes_per_sec"@, u64::MAX as int) is Some
    &&& field(j, "known_producers"@) matches Some(Json::Array(items)) && is_producers_json(items)
}

impl RpcNetworkInfoResponse {
    /// The JSON form: an object with the six members.
    pub fn to_json(&self) -> (r: Json)
        ensures
            network_info_json(r, *self),
    {
        proof {
            reveal_strlit("active_peers");
            reveal_strlit("num_active_peers");
            reveal_strlit("peer_max_count");
            reveal_strlit("sent_bytes_per_sec");
            reveal_strlit("received_bytes_per_sec");
            reveal_strlit("known_producers");
            reveal_with_fuel(crate::json::member, 7);
            assert("active_peers"@[0] != "num_active_peers"@[0]);
            assert("active_peers"@[0] != "peer_max_count"@[0]);
            assert("active_peers"@[0] != "sent_bytes_per_sec"@[0]);
            assert("active_peers"@[0] != "received_bytes_per_sec"@[0]);
            assert("active_peers"@[0] != "known_producers"@[0]);
            assert("num_active_peers"@[0] != "peer_max_count"@[0]);
            assert("num_active_peers"@[0] != "sent_bytes_per_sec"@[0]);
            assert("num_active_peers"@[0] != "received_bytes_per_sec"@[0]);
            assert("num_active_peers"@[0] != "known_producers"@[0]);
            assert("peer_max_count"@[0] != "sent_bytes_per_sec"@[0]);
            assert("peer_max_count"@[0] != "received_bytes_per_sec"@[0]);
            assert("peer_max_count"@[0] != "known_producers"@[0]);
            assert("sent_bytes_per_sec"@[0] != "received_bytes_per_sec"@[0]);
            assert("sent_bytes_per_sec"@[0] != "known_producers"@[0]);
            assert("received_bytes_per_sec"@[0] != "known_producers"@[0]);
        }
        let peers = peers_items(&self.active_peers, 0);
        let producers = producers_items(&self.known_producers, 0);
        assert(self.active_peers@.skip(0) =~= self.active_peers@);
        assert(self.known_producers@.skip(0) =~= self.known_producers@);
        let m = Members::Nil.with("known_producers", Json::Array(producers))
            .with("received_bytes_per_sec", Json::Int(self.received_bytes_per_sec as i128))
            .with("sent_bytes_per_sec", Json::Int(self.sent_bytes_per_sec as i128))
            .with("peer_max_count", Json::Int(self.peer_max_count as i128))
            .with("num_active_peers", Json::Int(self.num_active_peers as i128))
            .with("active_peers", Json::Array(peers));
        Json::Object(m)
    }

    /// The summary that the result `j` holds; an internal error where a member is missing or
    /// out of range.
    pub fn from_json(j: &Json) -> (r: Result<RpcNetworkInfoResponse, RpcError>)
        ensures
            r is Ok <==> is_network_info_json(*j),
            r matches Ok(v) ==> network_info_json(*j, v),
            r matches Err(e) ==> e.kind is InternalError,
    {
        let active_peers = match j.get("active_peers") {
            Some(Json::Array(items)) => match parse_peers(items) {
                Ok(ps) => ps,
                Err(e) => {
                    return Err(RpcError::new_internal_error(None, e));
                },
            },
            _ => {
                return Err(RpcError::new_internal_error(None, "missing field `active_peers`".to_owned()));
            },
        };
        let known_producers = match j.get("known_producers") {
            Some(Json::Array(items)) => match parse_producers(items) {
                Ok(ps) => ps,
                Err(e) => {
                    return Err(RpcError::new_internal_error(None, e));
                },
            },
            _ => {
                return Err(RpcError::new_internal_error(None, "missing field `known_producers`".to_owned()));
            },
        };
        let counts = (
            get_count(j, "num_active_peers", u64::MAX),
            get_count(j, "peer_max_count", u32::MAX as u64),
            get_count(j, "sent_bytes_per_sec", u64::MAX),
            get_count(j, "received_bytes_per_sec", u64::MAX),
        );
        match counts {
            (Some(num_active_peers), Some(peer_max_count), Some(sent_bytes_per_sec), Some(received_bytes_per_sec)) =>
                Ok(RpcNetworkInfoResponse {
                    active_peers,
                    num_active_peers,
                    peer_max_count: peer_max_count as u32,
                    sent_bytes_per_sec,
                    received_bytes_per_sec,
                    known_producers,
                }),
            _ => Err(RpcError::new_internal_error(None, "a count is missing or out of range".to_owned())),
        }
    }
}

/// Decoding the JSON form of a peer summary gives it back.
pub proof fn lemma_network_info_round_trip(v: RpcNetworkInfoResponse, j: Json, d: RpcNetworkInfoResponse)
    requires
        network_info_json(j, v),
        network_info_json(j, d),
    ensures
        same_peers(d.active_peers@, v.active_peers@),
        same_producers(d.known_producers@, v.known_producers@),
        d.num_active_peers == v.num_active_peers,
        d.peer_max_count == v.peer_max_count,
        d.sent_bytes_per_sec == v.sent_bytes_per_sec,
        d.received_bytes_per_sec == v.received_bytes_per_sec,
{
    lemma_peers_unique(field(j, "active_peers"@)->0->Array_0, d.active_peers@, v.active_peers@);
    lemma_producers_unique(field(j, "known_producers"@)->0->Array_0, d.known_producers@, v.known_producers@);
}

/// An error of the network information method.
pub enum RpcNetworkInfoError {
    InternalError { error_message: String },
}

/// `j` is the wire form of `e`.
pub open spec fn network_info_error_wire(j: Json, e: RpcNetworkInfoError) -> bool {
    match e {
        RpcNetworkInfoError::InternalError { error_message } =>
            is_wire_error(j, "INTERNAL_ERROR"@, Some(("error_message"@, Json::Str(error_message)))),
    }
}

impl RpcNetworkInfoError {
    /// The error carrying `error_message`.
    pub fn from_message(error_message: String) -> (r: RpcNetworkInfoError)
        ensures
            r == (RpcNetworkInfoError::InternalError { error_message }),
    {
        RpcNetworkInfoError::InternalError { error_message }
    }

    /// The wire form of this error.
    pub fn to_wire(&self) -> (r: Json)
        ensures
            network_info_error_wire(r, *self),
    {
        match self {
            RpcNetworkInfoError::InternalError { error_message } =>
                wire_error("INTERNAL_ERROR", Some(("error_message", Json::Str(error_message.clone())))),
        }
    }

    /// The error that the node's error object `j` reports; never fails. Its message is the
    /// `error_message` where the error is tagged `INTERNAL_ERROR` and has one.
    pub fn from_wire(j: &Json) -> (r: RpcNetworkInfoError)
        ensures
            tag_of(error_body(*j)) == Some("INTERNAL_ERROR"@) && info_text(error_body(*j), "error_message"@) is Some
                ==> r == (RpcNetworkInfoError::InternalError {
                    error_message: info_text(error_body(*j), "error_message"@)->0,
                }),
            !(tag_of(error_body(*j)) == Some("INTERNAL_ERROR"@) && info_text(error_body(*j), "error_message"@) is Some)
                ==> (r matches RpcNetworkInfoError::InternalError { error_message }
                    && error_message@ == unknown_tag_message(tag_of(error_body(*j)))),
    {
        let b = get_error_body(j);
        let tag = get_tag(b);
        let internal = match tag {
            Some(s) => crate::json::str_eq(s.as_str(), "INTERNAL_ERROR"),
            None => false,
        };
        match get_info_text(b, "error_message") {
            Some(m) => {
                if internal {
                    return RpcNetworkInfoError::InternalError { error_message: m };
                }
            },
            None => {},
        }
        RpcNetworkInfoError::InternalError { error_message: unknown_tag_text(tag) }
    }

    /// The text that shows this error.
    pub fn message(&self) -> (r: String)
        ensures
            self matches RpcNetworkInfoError::InternalError { error_message } && r@ == "Internal error: "@ + error_message@,
    {
        match self {
            RpcNetworkInfoError::InternalError { error_message } => concat("Internal error: ", error_message.as_str()),
        }
    }

    /// This error in the generic form: an internal error with its message, and its wire form
    /// as the data.
    pub fn into_rpc_error(self) -> (r: RpcError)
        ensures
            r.code == SERVER_ERROR_CODE,
            r.kind is InternalError,
            self matches RpcNetworkInfoError::InternalError { error_message } && r.message == error_message,
            r.data matches Some(w) && network_info_error_wire(w, self),
    {
        let wire = self.to_wire();
        match self {
            RpcNetworkInfoError::InternalError { error_message } => RpcError::new_internal_error(Some(wire), error_message),
        }
    }
}

} // verus!
