//! The client: where calls go and with which keys they are signed.

use vstd::prelude::*;
use vstd::string::*;
use crate::endpoint::Request;
use crate::query::{pairs_view, value_of, Param, QueryParam};
use crate::response::ApiError;
use crate::signing::{build_hash, hash_of};
use crate::text::{i64_text, int_text};

verus! {

#[verifier::external_type_specification]
#[verifier::external_body]
pub struct ExParseError(url::ParseError);

/// The text of the absolute URL that `input` parses to, with `pairs`
/// appended to its query, form-urlencoded, in order; `None` where `input`
/// is not an absolute URL.
pub uninterp spec fn url_with_query(input: Seq<char>, pairs: Seq<(Seq<char>, Seq<char>)>) -> Option<Seq<char>>;

/// The pairs with each key written under its wire name.
pub open spec fn wire_pairs(s: Seq<(Param, Seq<char>)>) -> Seq<(Seq<char>, Seq<char>)> {
    s.map_values(|p: (Param, Seq<char>)| (p.0.wire_text(), p.1))
}

/// Relies on `url::Url::parse_with_params`: it parses `input` as an
/// absolute URL and appends the pairs to its query; it fails only when
/// `input` does not parse.
#[verifier::external_body]
fn parse_with_params(input: &str, params: &Vec<QueryParam>) -> (r: Result<String, url::ParseError>)
    ensures
        match url_with_query(input@, wire_pairs(pairs_view(params@))) {
            Some(text) => r matches Ok(u) && u@ == text,
            None => r is Err,
        },
{
    url::Url::parse_with_params(input, params.iter().map(|q| (q.key.wire(), q.value.as_str()))).map(String::from)
}

/// The pairs of a signed call: the request's own, then the public key, the
/// timestamp and the hash.
pub open spec fn signed_pairs(
    request_pairs: Seq<(Param, Seq<char>)>,
    ts: i64,
    public_key: Seq<char>,
    private_key: Seq<char>,
) -> Seq<(Param, Seq<char>)> {
    request_pairs + seq![
        (Param::ApiKey, public_key),
        (Param::Ts, int_text(ts as int)),
        (Param::Hash, hash_of(ts, public_key, private_key)),
    ]
}

/// Where calls go, and the keys they are signed with. It has no `Debug`, so
/// that the keys are never printed.
#[derive(Clone)]
pub struct Client {
    base_url: String,
    public_key: String,
    private_key: String,
}

impl Client {
    pub closed spec fn base_url_spec(&self) -> Seq<char> {
        self.base_url@
    }

    pub closed spec fn public_key_spec(&self) -> Seq<char> {
        self.public_key@
    }

    pub closed spec fn private_key_spec(&self) -> Seq<char> {
        self.private_key@
    }

    /// A client for the gateway at `base_url`, with empty keys.
    pub fn new(base_url: &str) -> (r: Result<Self, ApiError>)
        ensures
            r matches Ok(c) && c.base_url_spec() == base_url@ && c.public_key_spec().len() == 0
                && c.private_key_spec().len() == 0,
    {
        Ok(Client { base_url: String::from_str(base_url), public_key: String::new(), private_key: String::new() })
    }

    /// Sets the keys, and hands back a copy of the client that holds them.
    pub fn set_api_key(&mut self, public_key: &str, private_key: &str) -> (r: Result<Self, ApiError>)
        ensures
            final(self).base_url_spec() == old(self).base_url_spec(),
            final(self).public_key_spec() == public_key@,
            final(self).private_key_spec() == private_key@,
            r matches Ok(c) && c.base_url_spec() == old(self).base_url_spec() && c.public_key_spec() == public_key@
                && c.private_key_spec() == private_key@,
    {
        self.public_key = String::from_str(public_key);
        self.private_key = String::from_str(private_key);
        Ok(
            Client {
                base_url: self.base_url.clone(),
                public_key: self.public_key.clone(),
                private_key: self.private_key.clone(),
            },
        )
    }

    /// The base address of the gateway.
    pub fn base_url(&self) -> (r: String)
        ensures
            r@ == self.base_url_spec(),
    {
        self.base_url.clone()
    }

    /// The request's pairs followed by the three that sign it at `ts`.
    pub fn signed_params(&self, request: &Request, ts: i64) -> (r: Vec<QueryParam>)
        ensures
            pairs_view(r@) == signed_pairs(pairs_view(request.params@), ts, self.public_key_spec(), self.private_key_spec()),
    {
        let mut out: Vec<QueryParam> = Vec::new();
        let mut i: usize = 0;
        while i < request.params.len()
            invariant
                i <= request.params@.len(),
                pairs_view(out@) == pairs_view(request.params@.take(i as int)),
            decreases request.params@.len() - i,
        {
            let q = &request.params[i];
            let ghost before = out@;
            out.push(QueryParam { key: q.key, value: q.value.clone() });
            assert(pairs_view(out@) =~= pairs_view(before) + seq![(q.key, q.value@)]);
            assert(request.params@.take(i + 1) =~= request.params@.take(i as int).push(*q));
            assert(pairs_view(request.params@.take(i + 1)) =~= pairs_view(request.params@.take(i as int)) + seq![(q.key, q.value@)]);
            i = i + 1;
        }
        assert(request.params@.take(i as int) =~= request.params@);
        let ghost own = out@;
        out.push(QueryParam { key: Param::ApiKey, value: self.public_key.clone() });
        out.push(QueryParam { key: Param::Ts, value: i64_text(ts) });
        out.push(QueryParam { key: Param::Hash, value: build_hash(ts, self.public_key.as_str(), self.private_key.as_str()) });
        assert(pairs_view(out@) =~= signed_pairs(pairs_view(request.params@), ts, self.public_key_spec(), self.private_key_spec()));
        out
    }

    /// The full URL of a call made at `ts`: the gateway, the request's path,
    /// and the signed pairs. Fails, with `InvalidUrl`, exactly where the
    /// address does not parse.
    pub fn request_url(&self, request: &Request, ts: i64) -> (r: Result<String, ApiError>)
        ensures
            match url_with_query(
                self.base_url_spec() + request.path@,
                wire_pairs(signed_pairs(pairs_view(request.params@), ts, self.public_key_spec(), self.private_key_spec())),
            ) {
                Some(text) => r matches Ok(u) && u@ == text,
                None => r matches Err(ApiError::InvalidUrl),
            },
    {
        let address = self.base_url.clone().concat(request.path.as_str());
        let params = self.signed_params(request, ts);
        match parse_with_params(address.as_str(), &params) {
            Ok(u) => Ok(u),
            Err(_) => Err(ApiError::InvalidUrl),
        }
    }
}

/// The signature cannot be overridden: whatever pairs a request carries,
/// reading the signed query back gives the client's public key, the
/// timestamp and the hash.
pub proof fn lemma_signature_wins(request_pairs: Seq<(Param, Seq<char>)>, ts: i64, public_key: Seq<char>, private_key: Seq<char>)
    ensures
        value_of(signed_pairs(request_pairs, ts, public_key, private_key), Param::ApiKey) == Some(public_key),
        value_of(signed_pairs(request_pairs, ts, public_key, private_key), Param::Ts) == Some(int_text(ts as int)),
        value_of(signed_pairs(request_pairs, ts, public_key, private_key), Param::Hash) == Some(hash_of(ts, public_key, private_key)),
{
    let s = signed_pairs(request_pairs, ts, public_key, private_key);
    let s1 = s.drop_last();
    let s2 = s1.drop_last();
    assert(s.last() == (Param::Hash, hash_of(ts, public_key, private_key)));
    assert(s1.last() == (Param::Ts, int_text(ts as int)));
    assert(s2.last() == (Param::ApiKey, public_key));
    assert(value_of(s, Param::Ts) == value_of(s1, Param::Ts));
    assert(value_of(s, Param::ApiKey) == value_of(s1, Param::ApiKey));
    assert(value_of(s1, Param::ApiKey) == value_of(s2, Param::ApiKey));
}

} // verus!
