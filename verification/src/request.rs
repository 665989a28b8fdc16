//! A description of one HTTPS request, for a driver to send.

use vstd::prelude::*;

verus! {

/// The HTTP method of a request.
#[derive(Clone, Copy, Debug, PartialEq, Eq, Structural)]
pub enum Method {
    Get,
    Patch,
}

/// One request, as plain data. The driver sends it over TLS and hands the
/// response body back as text.
#[derive(Debug, PartialEq, Eq)]
pub struct HttpRequest {
    pub method: Method,
    pub url: String,
    /// Query parameters, in order.
    pub query: Vec<(String, String)>,
    /// Request headers other than `Authorization`, in order.
    pub headers: Vec<(String, String)>,
    /// The bearer token of the `Authorization` header, if the request is
    /// authenticated.
    pub bearer: Option<String>,
    /// The members of the JSON object sent as the body, each a string, if
    /// the request has a body.
    pub json_body: Option<Vec<(String, String)>>,
}

/// What an [`HttpRequest`] says, over sequences of characters.
pub struct RequestModel {
    pub method: Method,
    pub url: Seq<char>,
    pub query: Seq<(Seq<char>, Seq<char>)>,
    pub headers: Seq<(Seq<char>, Seq<char>)>,
    pub bearer: Option<Seq<char>>,
    pub json_body: Option<Seq<(Seq<char>, Seq<char>)>>,
}

/// Whether `url` names a resource reached over TLS: it starts with
/// `https://`.
pub open spec fn is_https(url: Seq<char>) -> bool {
    "https://"@.is_prefix_of(url)
}

/// The pairs of `pairs`, each string by its characters.
pub open spec fn pairs_model(pairs: Seq<(String, String)>) -> Seq<(Seq<char>, Seq<char>)> {
    Seq::new(pairs.len(), |i: int| (pairs[i].0@, pairs[i].1@))
}

impl View for HttpRequest {
    type V = RequestModel;

    open spec fn view(&self) -> RequestModel {
        RequestModel {
            method: self.method,
            url: self.url@,
            query: pairs_model(self.query@),
            headers: pairs_model(self.headers@),
            bearer: match self.bearer {
                Some(t) => Some(t@),
                None => None,
            },
            json_body: match self.json_body {
                Some(members) => Some(pairs_model(members@)),
                None => None,
            },
        }
    }
}

} // verus!
