//! Key types, public keys and signatures as the client carries them.
use vstd::prelude::*;
use vstd::string::StrSliceExecFns;

verus! {

/// The curve of a key.
#[derive(PartialEq, Eq, Structural)]
pub enum KeyType {
    ED25519,
}

impl KeyType {
    /// The key type named `s`; only `ed25519` is known.
    pub fn from_str(s: &str) -> (r: Result<KeyType, String>)
        ensures
            r is Ok <==> s@ == "ed25519"@,
    {
        if crate::json::str_eq(s, "ed25519") {
            Ok(KeyType::ED25519)
        } else {
            Err("Unknown key type".to_owned())
        }
    }

    /// The name of this key type.
    pub fn to_string(&self) -> (r: String)
        ensures
            r@ == "ed25519"@,
    {
        "ed25519".to_owned()
    }
}

/// The borsh encoding of the text `s`.
pub uninterp spec fn borsh_of_text(s: Seq<char>) -> Seq<u8>;

/// The text whose borsh encoding `b` is, where it is one.
pub uninterp spec fn text_of_borsh(b: Seq<u8>) -> Option<Seq<char>>;

/// Relies on borsh's `BorshSerialize::try_to_vec` for `str`, whose bytes `String`'s
/// `try_from_slice` reads back. Writing into memory fails only where the UTF-8 length
/// (at most four bytes a character) does not fit the `u32` length prefix.
#[verifier::external_body]
fn encode_text(s: &str) -> (r: Result<Vec<u8>, String>)
    ensures
        4 * s@.len() <= u32::MAX ==> r is Ok,
        r matches Ok(b) ==> b@ == borsh_of_text(s@) && text_of_borsh(b@) == Some(s@),
{
    borsh::BorshSerialize::try_to_vec(s).map_err(|e| e.to_string())
}

/// Relies on borsh's `BorshDeserialize::try_from_slice` for `String`.
#[verifier::external_body]
fn decode_text(b: &[u8]) -> (r: Result<String, String>)
    ensures
        r is Ok <==> text_of_borsh(b@) is Some,
        r matches Ok(s) ==> text_of_borsh(b@) == Some(s@),
{
    <String as borsh::BorshDeserialize>::try_from_slice(b).map_err(|e| e.to_string())
}

/// A public key: its curve and its bytes.
pub struct PublicKey {
    pub key_type: KeyType,
    pub key_data: Vec<u8>,
}

/// The position of the first `:` in `s`, where it has one.
pub open spec fn first_colon(s: Seq<char>) -> Option<int> {
    if exists|i: int| 0 <= i < s.len() && s[i] == ':' {
        Some(choose|i: int| 0 <= i < s.len() && s[i] == ':' && forall|j: int| 0 <= j < i ==> s[j] != ':')
    } else {
        None
    }
}

/// `s` holds no `:`.
pub open spec fn colon_free(s: Seq<char>) -> bool {
    forall|i: int| 0 <= i < s.len() ==> s[i] != ':'
}

/// The text of the key that `s` writes: all of `s` where it has no `:`, else what follows
/// the `:` after a curve of `ed25519`, where no second `:` comes.
pub open spec fn key_text(s: Seq<char>) -> Option<Seq<char>> {
    if colon_free(s) {
        Some(s)
    } else {
        let i = first_colon(s)->0;
        if s.take(i) == "ed25519"@ && colon_free(s.skip(i + 1)) {
            Some(s.skip(i + 1))
        } else {
            None
        }
    }
}

/// The position of the first `:` in `s`, where it has one.
fn find_colon(s: &str) -> (r: Option<usize>)
    ensures
        r is None <==> colon_free(s@),
        r matches Some(i) ==> i < s@.len() && s@[i as int] == ':' && forall|j: int| 0 <= j < i ==> s@[j] != ':',
{
    let n = s.unicode_len();
    let mut i: usize = 0;
    while i < n
        invariant
            n == s@.len(),
            i <= n,
            forall|j: int| 0 <= j < i ==> s@[j] != ':',
        decreases n - i,
    {
        if s.get_char(i) == ':' {
            return Some(i);
        }
        i = i + 1;
    }
    None
}

impl PublicKey {
    /// The key written `<curve>:<data>`, or `<data>` alone for an ed25519 key. Its data is
    /// held as the borsh encoding of the data's text.
    pub fn from_str(s: &str) -> (r: Result<PublicKey, String>)
        ensures
            key_text(s@) is None ==> r is Err,
            key_text(s@) is Some && 4 * s@.len() <= u32::MAX ==> r is Ok,
            r matches Ok(k) ==> k.key_type == KeyType::ED25519,
            r matches Ok(k) ==> key_text(s@) matches Some(t) && k.key_data@ == borsh_of_text(t),
    {
        let data = match find_colon(s) {
            None => s,
            Some(i) => {
                let n = s.unicode_len();
                let curve = s.substring_char(0, i);
                let rest = s.substring_char(i + 1, n);
                proof {
                    let w = i as int;
                    assert(first_colon(s@) == Some(w)) by {
                        let c = choose|c: int| 0 <= c < s@.len() && s@[c] == ':' && forall|j: int| 0 <= j < c ==> s@[j] != ':';
                        assert(0 <= w < s@.len() && s@[w] == ':');
                        if c < w {
                        } else if c > w {
                        }
                    }
                    assert(s@.take(w) =~= s@.subrange(0, w));
                    assert(s@.skip(w + 1) =~= s@.subrange(w + 1, s@.len() as int));
                }
                if find_colon(rest).is_some() {
                    return Err("Invalid encoded key format, must be <curve>:<encoded key>".to_owned());
                }
                if KeyType::from_str(curve).is_err() {
                    return Err("Unknown key type".to_owned());
                }
                rest
            },
        };
        match encode_text(data) {
            Ok(key_data) => Ok(PublicKey { key_type: KeyType::ED25519, key_data }),
            Err(e) => Err(e),
        }
    }

    /// The key written `<curve>:<data>`; `None` where its data is no text.
    pub fn to_string(&self) -> (r: Option<String>)
        ensures
            r is Some <==> text_of_borsh(self.key_data@) is Some,
            r matches Some(t) ==> t@ == "ed25519:"@ + text_of_borsh(self.key_data@)->0,
    {
        match decode_text(self.key_data.as_slice()) {
            Ok(data) => {
                let tail = crate::json::concat(":", data.as_str());
                let t = crate::json::concat(self.key_type.to_string().as_str(), tail.as_str());
                proof {
                    reveal_strlit("ed25519");
                    reveal_strlit(":");
                    reveal_strlit("ed25519:");
                    assert(t@ =~= "ed25519:"@ + data@);
                }
                Some(t)
            },
            Err(_) => None,
        }
    }
}

/// A signature, with the public key that checks it.
pub struct Signature {
    pub signature: Vec<u8>,
    pub public_key: PublicKey,
}

} // verus!
