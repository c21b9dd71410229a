//! Endpoint descriptions: which path a call addresses, with which method,
//! and which query pairs its filter contributes.

use vstd::prelude::*;
use vstd::string::*;
use crate::filters::{filter_pairs, optional_params, Filter};
use crate::query::{pairs_view, Param, QueryParam};
use crate::text::{nat_text, u64_text};

verus! {

/// The HTTP method of a call. Every call of this API only reads.
#[derive(Clone, Copy, Debug, PartialEq, Eq, Structural)]
pub enum Method {
    Get,
}

/// The six kinds of resource that the API serves.
#[derive(Clone, Copy, Debug, PartialEq, Eq, Structural)]
pub enum Resource {
    Characters,
    Comics,
    Creators,
    Events,
    Series,
    Stories,
}

impl Resource {
    /// The path segment that names the kind.
    pub open spec fn segment_text(self) -> Seq<char> {
        match self {
            Resource::Characters => "characters"@,
            Resource::Comics => "comics"@,
            Resource::Creators => "creators"@,
            Resource::Events => "events"@,
            Resource::Series => "series"@,
            Resource::Stories => "stories"@,
        }
    }

    /// The path segment that names the kind.
    pub fn segment(&self) -> (r: &'static str)
        ensures
            r@ == self.segment_text(),
    {
        match self {
            Resource::Characters => "characters",
            Resource::Comics => "comics",
            Resource::Creators => "creators",
            Resource::Events => "events",
            Resource::Series => "series",
            Resource::Stories => "stories",
        }
    }
}

/// `/v1/public/{resource}`.
pub open spec fn collection_path(r: Resource) -> Seq<char> {
    "/v1/public/"@ + r.segment_text()
}

/// `/v1/public/{resource}/{id}`.
pub open spec fn item_path(r: Resource, id: u32) -> Seq<char> {
    collection_path(r) + "/"@ + nat_text(id as nat)
}

/// `/v1/public/{resource}/{id}/{related}`.
pub open spec fn relation_path(r: Resource, id: u32, related: Resource) -> Seq<char> {
    item_path(r, id) + "/"@ + related.segment_text()
}

/// One call, before it is signed: method, path and the filter's pairs.
#[derive(Debug)]
pub struct Request {
    pub method: Method,
    pub path: String,
    pub params: Vec<QueryParam>,
}

impl Request {
    /// The value that the request's query gives for `key`.
    pub fn param(&self, key: Param) -> (r: Option<String>)
        ensures
            match r {
                Some(v) => crate::query::value_of(pairs_view(self.params@), key) == Some(v@),
                None => crate::query::value_of(pairs_view(self.params@), key) is None,
            },
    {
        crate::query::param_value(&self.params, key)
    }
}

/// What any description of a call yields.
pub trait Endpoint {
    fn path(&self) -> String;

    fn method(&self) -> Method;

    fn params(&self) -> Vec<QueryParam>;
}

impl Endpoint for Request {
    fn path(&self) -> (r: String)
        ensures
            r@ == self.path@,
    {
        self.path.clone()
    }

    fn method(&self) -> (r: Method)
        ensures
            r == self.method,
    {
        self.method
    }

    fn params(&self) -> (r: Vec<QueryParam>)
        ensures
            pairs_view(r@) == pairs_view(self.params@),
    {
        let mut out: Vec<QueryParam> = Vec::new();
        let mut i: usize = 0;
        while i < self.params.len()
            invariant
                i <= self.params@.len(),
                pairs_view(out@) == pairs_view(self.params@.take(i as int)),
            decreases self.params@.len() - i,
        {
            let q = &self.params[i];
            let ghost before = out@;
            out.push(QueryParam { key: q.key, value: q.value.clone() });
            assert(pairs_view(out@) =~= pairs_view(before) + seq![(q.key, q.value@)]);
            assert(self.params@.take(i + 1) =~= self.params@.take(i as int).push(*q));
            assert(pairs_view(self.params@.take(i + 1)) =~= pairs_view(self.params@.take(i as int)) + seq![(q.key, q.value@)]);
            i = i + 1;
        }
        assert(self.params@.take(i as int) =~= self.params@);
        out
    }
}

fn collection_path_string(resource: Resource) -> (r: String)
    ensures
        r@ == collection_path(resource),
{
    String::from_str("/v1/public/").concat(resource.segment())
}

fn item_path_string(resource: Resource, id: u32) -> (r: String)
    ensures
        r@ == item_path(resource, id),
{
    let digits = u64_text(id as u64);
    let r = collection_path_string(resource).concat("/").concat(digits.as_str());
    r
}

/// The listing of a resource kind, narrowed by an optional filter.
pub fn list_request<F: Filter>(resource: Resource, filter: Option<F>) -> (r: Request)
    ensures
        r.method == Method::Get,
        r.path@ == collection_path(resource),
        pairs_view(r.params@) == filter_pairs(filter),
{
    Request { method: Method::Get, path: collection_path_string(resource), params: optional_params(&filter) }
}

/// A single resource, by id; no query pairs.
pub fn item_request(resource: Resource, id: u32) -> (r: Request)
    ensures
        r.method == Method::Get,
        r.path@ == item_path(resource, id),
        r.params@.len() == 0,
{
    Request { method: Method::Get, path: item_path_string(resource, id), params: Vec::new() }
}

/// The resources of kind `related` linked to one resource, narrowed by an
/// optional filter of the related kind.
pub fn relation_request<F: Filter>(resource: Resource, id: u32, related: Resource, filter: Option<F>) -> (r: Request)
    ensures
        r.method == Method::Get,
        r.path@ == relation_path(resource, id, related),
        pairs_view(r.params@) == filter_pairs(filter),
{
    let path = item_path_string(resource, id).concat("/").concat(related.segment());
    Request { method: Method::Get, path, params: optional_params(&filter) }
}

} // verus!
