//! The per-call credential: a timestamp and a digest over
//! `timestamp || private_key || public_key`.

use vstd::prelude::*;
use vstd::string::*;
use crate::text::{i64_text, int_text};

verus! {

/// A digit `0`-`9` or a lowercase letter `a`-`f`.
pub open spec fn is_lower_hex(c: char) -> bool {
    ('0' <= c && c <= '9') || ('a' <= c && c <= 'f')
}

/// The lowercase hexadecimal MD5 digest of the UTF-8 bytes of `text`.
pub uninterp spec fn md5_hex_of(text: Seq<char>) -> Seq<char>;

/// Relies on `md5::compute` for the digest of the text's bytes, and on the
/// digest's `LowerHex` form: two lowercase hex digits for each of its 16 bytes.
#[verifier::external_body]
fn md5_hex(text: &str) -> (r: String)
    ensures
        r@ == md5_hex_of(text@),
        r@.len() == 32,
        forall|i: int| 0 <= i < r@.len() ==> is_lower_hex(#[trigger] r@[i]),
{
    format!("{:x}", md5::compute(text))
}

/// The text that is digested: the timestamp's decimal text, then the
/// private key, then the public key.
pub open spec fn signing_text(ts: i64, public_key: Seq<char>, private_key: Seq<char>) -> Seq<char> {
    int_text(ts as int) + private_key + public_key
}

/// The hash that the upstream API expects for a call made at `ts`.
pub open spec fn hash_of(ts: i64, public_key: Seq<char>, private_key: Seq<char>) -> Seq<char> {
    md5_hex_of(signing_text(ts, public_key, private_key))
}

/// The timestamp and hash sent with one call.
#[derive(Debug)]
pub struct Signature {
    pub timestamp: i64,
    pub hash: String,
}

/// Computes the hash for a call made at `ts` with the given keys.
pub fn build_hash(ts: i64, public_key: &str, private_key: &str) -> (r: String)
    ensures
        r@ == hash_of(ts, public_key@, private_key@),
        r@.len() == 32,
        forall|i: int| 0 <= i < r@.len() ==> is_lower_hex(#[trigger] r@[i]),
{
    let to_hash = i64_text(ts).concat(private_key).concat(public_key);
    md5_hex(to_hash.as_str())
}

/// Signs a call made at `now`: the same inputs always give the same signature.
pub fn sign(now: i64, public_key: &str, private_key: &str) -> (r: Signature)
    ensures
        r.timestamp == now,
        r.hash@ == hash_of(now, public_key@, private_key@),
        r.hash@.len() == 32,
        forall|i: int| 0 <= i < r.hash@.len() ==> is_lower_hex(#[trigger] r.hash@[i]),
{
    Signature { timestamp: now, hash: build_hash(now, public_key, private_key) }
}

/// Signing is a function of its inputs: two signatures made from the same
/// timestamp and keys carry the same timestamp and the same hash.
pub proof fn lemma_sign_deterministic(a: Signature, b: Signature, now: i64, public_key: Seq<char>, private_key: Seq<char>)
    requires
        a.timestamp == now,
        a.hash@ == hash_of(now, public_key, private_key),
        b.timestamp == now,
        b.hash@ == hash_of(now, public_key, private_key),
    ensures
        a.timestamp == b.timestamp,
        a.hash@ == b.hash@,
{
}

} // verus!
