//! The JSON model that requests, responses and errors are built from.
//!
//! Arrays and objects are linked lists, so that two documents are equal
//! exactly when they are built alike.
use vstd::prelude::*;
use vstd::string::StringExecFns;

verus! {

/// A JSON document.
pub enum Json {
    Null,
    Bool(bool),
    /// An integral number.
    Int(i128),
    /// A number with a fraction or an exponent, kept as its text.
    Float(String),
    Str(String),
    Array(Items),
    /// An object's members, in the order they were written.
    Object(Members),
}

/// The elements of a JSON array.
pub enum Items {
    Nil,
    Cons(Box<Json>, Box<Items>),
}

/// The members of a JSON object: a name, its value, the members after it.
pub enum Members {
    Nil,
    Cons(String, Box<Json>, Box<Members>),
}

/// The value of the first member of `m` named `key`.
pub open spec fn member(m: Members, key: Seq<char>) -> Option<Json>
    decreases m,
{
    match m {
        Members::Nil => None,
        Members::Cons(k, v, rest) => if k@ == key {
            Some(*v)
        } else {
            member(*rest, key)
        },
    }
}

/// The member `key` of `v`, or `None` where `v` is no object or has no such member.
pub open spec fn field(v: Json, key: Seq<char>) -> Option<Json> {
    match v {
        Json::Object(m) => member(m, key),
        _ => None,
    }
}

/// The text of `v` where it is a string.
pub open spec fn text_of(v: Option<Json>) -> Option<Seq<char>> {
    match v {
        Some(Json::Str(s)) => Some(s@),
        _ => None,
    }
}

/// The value of the first member of `m` named `key`.
pub fn find_member<'a>(m: &'a Members, key: &str) -> (r: Option<&'a Json>)
    ensures
        r is None <==> member(*m, key@) is None,
        r matches Some(x) ==> member(*m, key@) == Some(*x),
    decreases m,
{
    match m {
        Members::Nil => None,
        Members::Cons(k, v, rest) => {
            if str_eq(k.as_str(), key) {
                Some(&**v)
            } else {
                find_member(&**rest, key)
            }
        },
    }
}

/// Whether `a` and `b` hold the same characters.
pub fn str_eq(a: &str, b: &str) -> (r: bool)
    ensures
        r == (a@ == b@),
{
    a.to_owned() == b.to_owned()
}

/// The text `a` followed by `b`.
pub fn concat(a: &str, b: &str) -> (r: String)
    ensures
        r@ == a@ + b@,
{
    let mut s = a.to_owned();
    s.append(b);
    s
}

/// A string value holding `s`.
pub fn json_str(s: &str) -> (r: Json)
    ensures
        r matches Json::Str(t) && t@ == s@,
{
    Json::Str(s.to_owned())
}

impl Json {
    /// The member `key` of this value, where it is an object that has one.
    pub fn get(&self, key: &str) -> (r: Option<&Json>)
        ensures
            r is None <==> field(*self, key@) is None,
            r matches Some(x) ==> field(*self, key@) == Some(*x),
    {
        match self {
            Json::Object(m) => find_member(m, key),
            _ => None,
        }
    }

    /// A copy of this value.
    pub fn copy(&self) -> (r: Json)
        ensures
            r == *self,
        decreases self,
    {
        match self {
            Json::Null => Json::Null,
            Json::Bool(b) => Json::Bool(*b),
            Json::Int(n) => Json::Int(*n),
            Json::Float(t) => Json::Float(t.clone()),
            Json::Str(s) => Json::Str(s.clone()),
            Json::Array(items) => Json::Array(items.copy()),
            Json::Object(m) => Json::Object(m.copy()),
        }
    }
}

impl Items {
    /// A copy of these elements.
    pub fn copy(&self) -> (r: Items)
        ensures
            r == *self,
        decreases self,
    {
        match self {
            Items::Nil => Items::Nil,
            Items::Cons(x, rest) => Items::Cons(Box::new((**x).copy()), Box::new((**rest).copy())),
        }
    }
}

impl Members {
    /// A copy of these members.
    pub fn copy(&self) -> (r: Members)
        ensures
            r == *self,
        decreases self,
    {
        match self {
            Members::Nil => Members::Nil,
            Members::Cons(k, v, rest) => Members::Cons(
                k.clone(),
                Box::new((**v).copy()),
                Box::new((**rest).copy()),
            ),
        }
    }

    /// These members with `key: value` put in front of them.
    pub fn with(self, key: &str, value: Json) -> (r: Members)
        ensures
            r matches Members::Cons(k, v, rest) && k@ == key@ && *v == value && *rest == self,
    {
        Members::Cons(key.to_owned(), Box::new(value), Box::new(self))
    }
}

} // verus!
