//! JSON text: reading it into a [`Json`] and writing a [`Json`] out, through serde_json.
use vstd::prelude::*;
use crate::json::{Json, Items, Members, field, member};

verus! {

#[verifier::external_type_specification]
#[verifier::external_body]
pub struct ExValue(serde_json::Value);

#[verifier::external_type_specification]
#[verifier::external_body]
pub struct ExError(serde_json::Error);

/// Whether `b` is JSON text that serde_json reads.
pub uninterp spec fn is_json_text(b: Seq<u8>) -> bool;

/// The document that serde_json reads from the JSON text `b`.
pub uninterp spec fn json_document(b: Seq<u8>) -> Json;

/// The document that the serde_json value `v` holds.
pub uninterp spec fn document_of(v: serde_json::Value) -> Json;

/// The array whose elements are `s`, in order.
pub open spec fn items_of(s: Seq<Json>) -> Items
    decreases s.len(),
{
    if s.len() == 0 {
        Items::Nil
    } else {
        Items::Cons(Box::new(s[0]), Box::new(items_of(s.drop_first())))
    }
}

/// The object whose members are `s`, in order.
pub open spec fn members_of(s: Seq<(String, Json)>) -> Members
    decreases s.len(),
{
    if s.len() == 0 {
        Members::Nil
    } else {
        Members::Cons(s[0].0, Box::new(s[0].1), Box::new(members_of(s.drop_first())))
    }
}

/// The documents that the values `a` hold.
pub open spec fn documents(a: Seq<serde_json::Value>) -> Seq<Json> {
    a.map_values(|x: serde_json::Value| document_of(x))
}

/// The members `a`, with each value read as the document it holds.
pub open spec fn member_documents(a: Seq<(String, serde_json::Value)>) -> Seq<(String, Json)> {
    a.map_values(|p: (String, serde_json::Value)| (p.0, document_of(p.1)))
}

/// How deeply `j` nests: 1 for a scalar, one more than its deepest element for an array
/// or an object.
pub open spec fn json_depth(j: Json) -> nat
    decreases j,
{
    match j {
        Json::Array(items) => 1 + items_depth(items),
        Json::Object(m) => 1 + members_depth(m),
        _ => 1,
    }
}

/// The depth of the deepest of `items`, 0 where there is none.
pub open spec fn items_depth(items: Items) -> nat
    decreases items,
{
    match items {
        Items::Nil => 0,
        Items::Cons(x, rest) => {
            let a = json_depth(*x);
            let b = items_depth(*rest);
            if a >= b { a } else { b }
        },
    }
}

/// The depth of the deepest value of `m`, 0 where there is none.
pub open spec fn members_depth(m: Members) -> nat
    decreases m,
{
    match m {
        Members::Nil => 0,
        Members::Cons(_, x, rest) => {
            let a = json_depth(*x);
            let b = members_depth(*rest);
            if a >= b { a } else { b }
        },
    }
}

/// The array of `s` is as deep as its deepest element.
proof fn lemma_items_depth(s: Seq<Json>, k: int)
    requires
        0 <= k < s.len(),
    ensures
        items_depth(items_of(s)) >= json_depth(s[k]),
    decreases s.len(),
{
    if k > 0 {
        lemma_items_depth(s.drop_first(), k - 1);
    }
}

/// The object of `s` is as deep as its deepest value.
proof fn lemma_members_depth(s: Seq<(String, Json)>, k: int)
    requires
        0 <= k < s.len(),
    ensures
        members_depth(members_of(s)) >= json_depth(s[k].1),
    decreases s.len(),
{
    if k > 0 {
        lemma_members_depth(s.drop_first(), k - 1);
    }
}

/// The compact JSON text that serde_json writes for the value `v`.
pub uninterp spec fn compact_text(v: serde_json::Value) -> Seq<u8>;

/// The value of the last member of `s` named `k`.
pub open spec fn last_member(s: Seq<(String, Json)>, k: Seq<char>) -> Option<Json>
    decreases s.len(),
{
    if s.len() == 0 {
        None
    } else {
        let later = last_member(s.drop_first(), k);
        if later is Some {
            later
        } else if s[0].0@ == k {
            Some(s[0].1)
        } else {
            None
        }
    }
}

/// Every number of `j` can be written: none has a fraction, and every integer lies in
/// `i64::MIN..=u64::MAX`.
pub open spec fn writable(j: Json) -> bool
    decreases j,
{
    match j {
        Json::Float(_) => false,
        Json::Int(i) => i64::MIN <= i <= u64::MAX,
        Json::Array(items) => items_writable(items),
        Json::Object(m) => members_writable(m),
        _ => true,
    }
}

pub open spec fn items_writable(items: Items) -> bool
    decreases items,
{
    match items {
        Items::Nil => true,
        Items::Cons(x, rest) => writable(*x) && items_writable(*rest),
    }
}

pub open spec fn members_writable(m: Members) -> bool
    decreases m,
{
    match m {
        Members::Nil => true,
        Members::Cons(_, x, rest) => writable(*x) && members_writable(*rest),
    }
}

/// `d` is what writing `j` out gives: the same scalars, arrays element by element, and
/// objects with the same names, each holding what the last member of that name in `j`
/// gives. A number with a fraction may come back in another spelling.
pub open spec fn written(d: Json, j: Json) -> bool
    decreases j,
{
    match j {
        Json::Float(_) => true,
        Json::Array(items) => match d {
            Json::Array(ds) => items_written(ds, items),
            _ => false,
        },
        Json::Object(m) => match d {
            Json::Object(dm) => (forall|k: Seq<char>| #[trigger] member(dm, k) is Some <==> member(m, k) is Some)
                && members_written(dm, m),
            _ => false,
        },
        _ => d == j,
    }
}

pub open spec fn items_written(ds: Items, items: Items) -> bool
    decreases items,
{
    match items {
        Items::Nil => ds == Items::Nil,
        Items::Cons(x, rest) => match ds {
            Items::Cons(y, drest) => written(*y, *x) && items_written(*drest, *rest),
            Items::Nil => false,
        },
    }
}

/// Each member of `m` that no later member of the same name hides is written as the
/// member of that name in `dm`.
pub open spec fn members_written(dm: Members, m: Members) -> bool
    decreases m,
{
    match m {
        Members::Nil => true,
        Members::Cons(k, x, rest) => (member(*rest, k@) is None ==> match member(dm, k@) {
            Some(y) => written(y, *x),
            None => false,
        }) && members_written(dm, *rest),
    }
}

/// `members_written`, with the written object given by its last-member lookups `t`.
pub open spec fn members_written_seq(t: Seq<(String, Json)>, m: Members) -> bool
    decreases m,
{
    match m {
        Members::Nil => true,
        Members::Cons(k, x, rest) => (member(*rest, k@) is None ==> match last_member(t, k@) {
            Some(y) => written(y, *x),
            None => false,
        }) && members_written_seq(t, *rest),
    }
}

/// The pairs `s` are the members of `m`, in order, each value written from the member's.
pub open spec fn members_match(s: Seq<(String, serde_json::Value)>, m: Members) -> bool
    decreases m,
{
    match m {
        Members::Nil => s.len() == 0,
        Members::Cons(k, x, rest) => s.len() > 0 && s[0].0 == k && written(document_of(s[0].1), *x)
            && members_match(s.drop_first(), *rest),
    }
}

proof fn lemma_match_keys(s: Seq<(String, serde_json::Value)>, m: Members)
    requires
        members_match(s, m),
    ensures
        forall|k: Seq<char>| #[trigger] last_member(member_documents(s), k) is Some <==> member(m, k) is Some,
    decreases m,
{
    if let Members::Cons(k0, x0, rest) = m {
        lemma_match_keys(s.drop_first(), *rest);
        assert(member_documents(s).drop_first() =~= member_documents(s.drop_first()));
        assert(member_documents(s)[0] == (s[0].0, document_of(s[0].1)));
        assert forall|k: Seq<char>| #[trigger] last_member(member_documents(s), k) is Some <==> member(m, k) is Some by {
            assert(last_member(member_documents(s.drop_first()), k) is Some <==> member(*rest, k) is Some);
        }
    } else {
        assert(member_documents(s) =~= Seq::<(String, Json)>::empty());
    }
}

proof fn lemma_extend(t: Seq<(String, Json)>, t2: Seq<(String, Json)>, m: Members)
    requires
        members_written_seq(t2, m),
        forall|k: Seq<char>| #[trigger] last_member(t2, k) is Some ==> last_member(t, k) == last_member(t2, k),
    ensures
        members_written_seq(t, m),
    decreases m,
{
    if let Members::Cons(k0, x0, rest) = m {
        lemma_extend(t, t2, *rest);
    }
}

proof fn lemma_match_written(s: Seq<(String, serde_json::Value)>, m: Members)
    requires
        members_match(s, m),
    ensures
        members_written_seq(member_documents(s), m),
    decreases m,
{
    if let Members::Cons(k0, x0, rest) = m {
        let s2 = s.drop_first();
        lemma_match_written(s2, *rest);
        lemma_match_keys(s2, *rest);
        assert(member_documents(s).drop_first() =~= member_documents(s2));
        assert(forall|k: Seq<char>| #[trigger] last_member(member_documents(s2), k) is Some
            ==> last_member(member_documents(s), k) == last_member(member_documents(s2), k));
        lemma_extend(member_documents(s), member_documents(s2), *rest);
        if member(*rest, k0@) is None {
            assert(last_member(member_documents(s2), k0@) is None);
            assert(member_documents(s)[0] == (s[0].0, document_of(s[0].1)));
        }
    }
}

proof fn lemma_lookup(dm: Members, t: Seq<(String, Json)>, m: Members)
    requires
        forall|k: Seq<char>| #[trigger] member(dm, k) == last_member(t, k),
        members_written_seq(t, m),
    ensures
        members_written(dm, m),
    decreases m,
{
    if let Members::Cons(k0, x0, rest) = m {
        lemma_lookup(dm, t, *rest);
        assert(member(dm, k0@) == last_member(t, k0@));
    }
}

/// One level of a serde_json value: its kind, with its children left as they are.
pub enum Node {
    Null,
    Bool(bool),
    /// A number: its value where it is integral and fits an `i128`, and its text.
    Number(Option<i128>, String),
    Str(String),
    Array(Vec<serde_json::Value>),
    Object(Vec<(String, serde_json::Value)>),
}

/// Relies on serde_json::from_slice: it accepts exactly the JSON texts, and what it reads
/// depends on the bytes alone.
#[verifier::external_body]
fn read_value(b: &[u8]) -> (r: Result<serde_json::Value, serde_json::Error>)
    ensures
        r is Ok <==> is_json_text(b@),
        r matches Ok(v) ==> document_of(v) == json_document(b@),
{
    serde_json::from_slice::<serde_json::Value>(b)
}

/// Relies on serde_json::Error's Display, for the text of an error.
#[verifier::external_body]
fn error_text(e: &serde_json::Error) -> String {
    e.to_string()
}

/// Relies on serde_json::Value's variants, on Number::as_i128 and Number's Display, and on
/// the iteration of a Map: the document a value holds is read one level at a time.
#[verifier::external_body]
fn node_of(v: &serde_json::Value) -> (r: Node)
    ensures
        match r {
            Node::Null => document_of(*v) == Json::Null,
            Node::Bool(b) => document_of(*v) == Json::Bool(b),
            Node::Number(Some(i), _) => document_of(*v) == Json::Int(i),
            Node::Number(None, t) => document_of(*v) == Json::Float(t),
            Node::Str(s) => document_of(*v) == Json::Str(s),
            Node::Array(a) => document_of(*v) == Json::Array(items_of(documents(a@))),
            Node::Object(p) => document_of(*v) == Json::Object(members_of(member_documents(p@))),
        },
{
    match v {
        serde_json::Value::Null => Node::Null,
        serde_json::Value::Bool(b) => Node::Bool(*b),
        serde_json::Value::Number(n) => Node::Number(n.as_i128(), n.to_string()),
        serde_json::Value::String(s) => Node::Str(s.clone()),
        serde_json::Value::Array(a) => Node::Array(a.clone()),
        serde_json::Value::Object(m) => Node::Object(
            m.iter().map(|(k, x)| (k.clone(), x.clone())).collect(),
        ),
    }
}

/// Relies on serde_json::Value's variants, on Number::from_i128, on Number's FromStr
/// and on collecting pairs into a serde_json::Map; `None` where the number does not fit.
#[verifier::external_body]
fn value_of(n: Node) -> (r: Option<serde_json::Value>)
    ensures
        match n {
            Node::Null => r matches Some(v) && document_of(v) == Json::Null,
            Node::Bool(b) => r matches Some(v) && document_of(v) == Json::Bool(b),
            Node::Number(Some(i), _) => (r is Some <==> i64::MIN <= i <= u64::MAX)
                && (r matches Some(v) ==> document_of(v) == Json::Int(i)),
            Node::Number(None, _) => true,
            Node::Str(s) => r matches Some(v) && document_of(v) == Json::Str(s),
            Node::Array(a) => r matches Some(v) && document_of(v) == Json::Array(items_of(documents(a@))),
            Node::Object(p) => r matches Some(v) && document_of(v) is Object
                && forall|k: Seq<char>| #[trigger] field(document_of(v), k) == last_member(member_documents(p@), k),
        },
{
    match n {
        Node::Null => Some(serde_json::Value::Null),
        Node::Bool(b) => Some(serde_json::Value::Bool(b)),
        Node::Number(Some(i), _) => serde_json::Number::from_i128(i).map(serde_json::Value::Number),
        Node::Number(None, t) => t.parse::<serde_json::Number>().ok().map(serde_json::Value::Number),
        Node::Str(s) => Some(serde_json::Value::String(s)),
        Node::Array(a) => Some(serde_json::Value::Array(a)),
        Node::Object(m) => Some(serde_json::Value::Object(m.into_iter().collect())),
    }
}

/// Relies on serde_json::to_vec, which writes a value as compact JSON text and does not
/// fail on a `Value`. Where the value nests arrays and objects at most 127 deep, serde_json
/// reads that text back: integers, strings and the shape come back as they were, while a
/// number with a fraction may come back in another spelling, as its parser need not round-trip.
#[verifier::external_body]
fn value_bytes(v: &serde_json::Value) -> (r: Result<Vec<u8>, serde_json::Error>)
    ensures
        r is Ok,
        r matches Ok(b) ==> b@ == compact_text(*v) && (json_depth(document_of(*v)) <= READ_BACK_DEPTH
            ==> is_json_text(b@) && written(json_document(b@), document_of(*v))),
{
    serde_json::to_vec(v)
}

/// How deep a document read from text may nest. serde_json reads at most 127 nested arrays
/// and objects, which with the value innermost is a depth of 128 here.
pub const MAX_DEPTH: u32 = 128;

/// How deep a written document may nest and still be read back: at most 127 nested arrays
/// and objects, however they end.
pub const READ_BACK_DEPTH: u32 = 127;

/// The document `v` holds, where it nests no deeper than `depth`.
pub fn json_of_value(v: &serde_json::Value, depth: u32) -> (r: Option<Json>)
    ensures
        r is Some <==> json_depth(document_of(*v)) <= depth,
        r matches Some(j) ==> j == document_of(*v),
    decreases depth,
{
    if depth == 0 {
        return None;
    }
    match node_of(v) {
        Node::Null => Some(Json::Null),
        Node::Bool(b) => Some(Json::Bool(b)),
        Node::Number(Some(i), _) => Some(Json::Int(i)),
        Node::Number(None, t) => Some(Json::Float(t)),
        Node::Str(s) => Some(Json::Str(s)),
        Node::Array(vals) => {
            let ghost docs = documents(vals@);
            let mut items = Items::Nil;
            let mut i: usize = vals.len();
            assert(docs.skip(vals@.len() as int) =~= Seq::<Json>::empty());
            while i > 0
                invariant
                    i <= vals@.len(),
                    depth > 0,
                    docs == documents(vals@),
                    document_of(*v) == Json::Array(items_of(docs)),
                    items == items_of(docs.skip(i as int)),
                    items_depth(items) < depth,
                decreases i,
            {
                i = i - 1;
                match json_of_value(&vals[i], depth - 1) {
                    Some(x) => {
                        assert(docs.skip(i as int).drop_first() =~= docs.skip(i + 1));
                        assert(docs[i as int] == document_of(vals@[i as int]));
                        items = Items::Cons(Box::new(x), Box::new(items));
                    },
                    None => {
                        proof {
                            assert(docs[i as int] == document_of(vals@[i as int]));
                            lemma_items_depth(docs, i as int);
                        }
                        return None;
                    },
                }
            }
            assert(docs.skip(0) =~= docs);
            Some(Json::Array(items))
        },
        Node::Object(pairs) => {
            let ghost docs = member_documents(pairs@);
            let mut members = Members::Nil;
            let mut i: usize = pairs.len();
            assert(docs.skip(pairs@.len() as int) =~= Seq::<(String, Json)>::empty());
            while i > 0
                invariant
                    i <= pairs@.len(),
                    depth > 0,
                    docs == member_documents(pairs@),
                    document_of(*v) == Json::Object(members_of(docs)),
                    members == members_of(docs.skip(i as int)),
                    members_depth(members) < depth,
                decreases i,
            {
                i = i - 1;
                match json_of_value(&pairs[i].1, depth - 1) {
                    Some(x) => {
                        assert(docs.skip(i as int).drop_first() =~= docs.skip(i + 1));
                        assert(docs[i as int] == (pairs@[i as int].0, document_of(pairs@[i as int].1)));
                        members = Members::Cons(pairs[i].0.clone(), Box::new(x), Box::new(members));
                    },
                    None => {
                        proof {
                            assert(docs[i as int].1 == document_of(pairs@[i as int].1));
                            lemma_members_depth(docs, i as int);
                        }
                        return None;
                    },
                }
            }
            assert(docs.skip(0) =~= docs);
            Some(Json::Object(members))
        },
    }
}

/// The serde_json value for `j`; `None` where a number of `j` does not fit one.
pub fn value_of_json(j: &Json) -> (r: Option<serde_json::Value>)
    ensures
        writable(*j) ==> r is Some,
        r matches Some(v) ==> written(document_of(v), *j),
    decreases j,
{
    match j {
        Json::Null => value_of(Node::Null),
        Json::Bool(b) => value_of(Node::Bool(*b)),
        Json::Int(i) => value_of(Node::Number(Some(*i), String::new())),
        Json::Float(t) => value_of(Node::Number(None, t.clone())),
        Json::Str(s) => value_of(Node::Str(s.clone())),
        Json::Array(items) => {
            let mut out: Vec<serde_json::Value> = Vec::new();
            if push_items(items, &mut out) {
                assert(out@.skip(0) =~= out@);
                value_of(Node::Array(out))
            } else {
                None
            }
        },
        Json::Object(m) => {
            let mut out: Vec<(String, serde_json::Value)> = Vec::new();
            if push_members(m, &mut out) {
                assert(out@.skip(0) =~= out@);
                let ghost pairs = out@;
                let r = value_of(Node::Object(out));
                proof {
                    lemma_match_keys(pairs, *m);
                    lemma_match_written(pairs, *m);
                    if r is Some {
                        let v = r->0;
                        if document_of(v) is Object {
                            let dm = document_of(v)->Object_0;
                            assert(forall|k: Seq<char>| #[trigger] member(dm, k) == field(document_of(v), k));
                            lemma_lookup(dm, member_documents(pairs), *m);
                            assert(forall|k: Seq<char>| #[trigger] member(dm, k) is Some <==> member(*m, k) is Some) by {
                                assert forall|k: Seq<char>| #[trigger] member(dm, k) is Some <==> member(*m, k) is Some by {
                                    assert(member(dm, k) == field(document_of(v), k));
                                    assert(last_member(member_documents(pairs), k) is Some <==> member(*m, k) is Some);
                                }
                            }
                        }
                    }
                }
                r
            } else {
                None
            }
        },
    }
}

/// Appends the values of `items` to `out`; false where one cannot be made.
fn push_items(items: &Items, out: &mut Vec<serde_json::Value>) -> (ok: bool)
    ensures
        items_writable(*items) ==> ok,
        ok ==> final(out)@.len() >= old(out)@.len() && final(out)@.take(old(out)@.len() as int) == old(out)@
            && items_written(items_of(documents(final(out)@.skip(old(out)@.len() as int))), *items),
    decreases items,
{
    let ghost start = out@;
    match items {
        Items::Nil => {
            assert(out@.skip(start.len() as int) =~= Seq::<serde_json::Value>::empty());
            assert(documents(out@.skip(start.len() as int)) =~= Seq::<Json>::empty());
            assert(out@.take(start.len() as int) =~= start);
            true
        },
        Items::Cons(x, rest) => match value_of_json(&**x) {
            Some(v) => {
                out.push(v);
                let ghost mid = out@;
                let ok = push_items(&**rest, out);
                if ok {
                    proof {
                    let n = start.len() as int;
                    let s = out@.skip(n);
                    assert(out@.take(n) =~= start) by {
                        assert(out@.take(mid.len() as int) == mid);
                        assert forall|i: int| 0 <= i < n implies out@[i] == start[i] by {
                            assert(out@.take(mid.len() as int)[i] == mid[i]);
                        }
                    }
                    assert(out@[n] == v) by {
                        assert(out@.take(mid.len() as int)[n] == mid[n]);
                    }
                    assert(s.drop_first() =~= out@.skip(n + 1));
                    assert(documents(s).drop_first() =~= documents(out@.skip(n + 1)));
                    assert(documents(s)[0] == document_of(v));
                    }
                }
                ok
            },
            None => false,
        },
    }
}

/// Appends the members of `m` to `out`; false where one cannot be made.
fn push_members(m: &Members, out: &mut Vec<(String, serde_json::Value)>) -> (ok: bool)
    ensures
        members_writable(*m) ==> ok,
        ok ==> final(out)@.len() >= old(out)@.len() && final(out)@.take(old(out)@.len() as int) == old(out)@
            && members_match(final(out)@.skip(old(out)@.len() as int), *m),
    decreases m,
{
    let ghost start = out@;
    match m {
        Members::Nil => {
            assert(out@.skip(start.len() as int) =~= Seq::<(String, serde_json::Value)>::empty());
            assert(out@.take(start.len() as int) =~= start);
            true
        },
        Members::Cons(k, x, rest) => match value_of_json(&**x) {
            Some(v) => {
                out.push((k.clone(), v));
                let ghost mid = out@;
                let ok = push_members(&**rest, out);
                if ok {
                    proof {
                    let n = start.len() as int;
                    let s = out@.skip(n);
                    assert(out@.take(n) =~= start) by {
                        assert forall|i: int| 0 <= i < n implies out@[i] == start[i] by {
                            assert(out@.take(mid.len() as int)[i] == mid[i]);
                        }
                    }
                    assert(out@[n] == mid[n]) by {
                        assert(out@.take(mid.len() as int)[n] == mid[n]);
                    }
                    assert(s.drop_first() =~= out@.skip(n + 1));
                    }
                }
                ok
            },
            None => false,
        },
    }
}

/// Reads the JSON text `b`. Text that is not JSON gives `Err` with serde_json's account of it,
/// and so does a document deeper than `MAX_DEPTH`.
pub fn read_json(b: &[u8]) -> (r: Result<Json, String>)
    ensures
        r is Ok <==> is_json_text(b@) && json_depth(json_document(b@)) <= MAX_DEPTH,
        r matches Ok(j) ==> j == json_document(b@),
{
    match read_value(b) {
        Ok(v) => match json_of_value(&v, MAX_DEPTH) {
            Some(j) => Ok(j),
            None => Err("JSON nests too deeply".to_owned()),
        },
        Err(e) => Err(error_text(&e)),
    }
}

/// The compact JSON text that serde_json writes for `j`; `None` where a number of `j`
/// cannot be written, which never happens where all of them can.
pub fn write_json(j: &Json) -> (r: Option<Vec<u8>>)
    ensures
        writable(*j) ==> r is Some,
        r matches Some(b) ==> exists|v: serde_json::Value| b@ == compact_text(v) && written(document_of(v), *j)
            && (json_depth(document_of(v)) <= READ_BACK_DEPTH ==> is_json_text(b@)
                && written(json_document(b@), document_of(v))),
{
    match value_of_json(j) {
        Some(v) => match value_bytes(&v) {
            Ok(b) => Some(b),
            Err(_) => None,
        },
        None => None,
    }
}

} // verus!
