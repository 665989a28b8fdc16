//! The address that the domain currently resolves to, as a DNS-over-HTTPS
//! resolver reports it.

use vstd::prelude::*;
use crate::error::fails_with;
use crate::error::fails_with_prefix;
use crate::error::ErrorKind;
use crate::error::SyncError;
use crate::json::json_document;
use crate::json::parse;
use crate::json::Json;
use crate::request::pairs_model;
use crate::request::HttpRequest;
use crate::request::Method;
use crate::request::RequestModel;
use crate::text::trim;
use crate::text::trimmed;
use crate::text::Trim;

verus! {

/// The query for the A record of `domain`.
pub open spec fn dns_request_model(domain: Seq<char>) -> RequestModel {
    RequestModel {
        method: Method::Get,
        url: "https://1.1.1.1/dns-query"@,
        query: seq![("name"@, domain), ("type"@, "A"@)],
        headers: seq![("accept"@, "application/dns-json"@)],
        bearer: None,
        json_body: None,
    }
}

/// The query for the A record of `domain`.
pub fn dns_request(domain: &str) -> (r: HttpRequest)
    ensures
        r@ == dns_request_model(domain@),
{
    let query: Vec<(String, String)> = vec![
        ("name".to_owned(), domain.to_owned()),
        ("type".to_owned(), "A".to_owned()),
    ];
    let headers: Vec<(String, String)> = vec![
        ("accept".to_owned(), "application/dns-json".to_owned()),
    ];
    assert(pairs_model(query@) =~= dns_request_model(domain@).query);
    assert(pairs_model(headers@) =~= dns_request_model(domain@).headers);
    HttpRequest {
        method: Method::Get,
        url: "https://1.1.1.1/dns-query".to_owned(),
        query,
        headers,
        bearer: None,
        json_body: None,
    }
}

/// The address in a resolver's answer: the `data` string of the first
/// element of the `Answer` array, without surrounding double quotes. `None`
/// where `Answer` is missing, is no array or is empty, or where its first
/// element has no `data` string.
pub open spec fn first_answer(doc: Json) -> Option<Seq<char>> {
    match doc.spec_member("Answer"@) {
        Some(answers) => match answers.spec_items() {
            Some(items) => if items.len() > 0 {
                match items[0].spec_text_member("data"@) {
                    Some(data) => Some(trimmed(data, Trim::Quotes)),
                    None => None,
                }
            } else {
                None
            },
            None => None,
        },
        None => None,
    }
}

/// An answer whose `Answer` array is not empty gives the `data` string of
/// the first element without its surrounding quotes; an empty array gives
/// nothing.
pub proof fn lemma_first_answer(doc: Json, answers: Json, items: Seq<Json>)
    requires
        doc.spec_member("Answer"@) == Some(answers),
        answers.spec_items() == Some(items),
    ensures
        items.len() == 0 ==> first_answer(doc) is None && dns_address_of(doc) == Err::<
            Seq<char>,
            ErrorKind,
        >(ErrorKind::NotFound),
        items.len() > 0 ==> first_answer(doc) == match items[0].spec_text_member("data"@) {
            Some(data) => Some(trimmed(data, Trim::Quotes)),
            None => None,
        },
{
}

/// What an answer that has been read as JSON says of the domain.
pub open spec fn dns_address_of(doc: Json) -> Result<Seq<char>, ErrorKind> {
    match first_answer(doc) {
        Some(address) => Ok(address),
        None => Err(ErrorKind::NotFound),
    }
}

/// The message of the error for an answer without an address.
pub open spec fn dns_missing_message(domain: Seq<char>) -> Seq<char> {
    "No IP address found for the "@ + domain
}

/// The start of the message of the error for a body that is no JSON.
pub open spec fn dns_parse_prefix() -> Seq<char> {
    "Failed to parse DoH response JSON: "@
}

/// Extracts the published address from a resolver's answer that has been
/// read as JSON; a not-found error naming the domain where it holds none.
pub fn dns_address_in(doc: &Json, domain: &str) -> (r: Result<String, SyncError>)
    ensures
        match first_answer(*doc) {
            Some(address) => r is Ok && r->Ok_0@ == address,
            None => fails_with(r, ErrorKind::NotFound, dns_missing_message(domain@)),
        },
{
    let found: Option<&str> = match doc.member("Answer") {
        Some(answers) => match answers.items() {
            Some(items) => if items.len() > 0 {
                items[0].text_member("data")
            } else {
                None
            },
            None => None,
        },
        None => None,
    };
    match found {
        Some(data) => Ok(trim(data, Trim::Quotes)),
        None => Err(SyncError::NotFound("No IP address found for the ".to_owned().concat(domain))),
    }
}

/// What a resolver's response body says of the domain: the address, or the
/// kind of error that the body gives.
pub open spec fn dns_address(body: Seq<char>) -> Result<Seq<char>, ErrorKind> {
    match json_document(body) {
        None => Err(ErrorKind::Parse),
        Some(doc) => dns_address_of(doc),
    }
}

/// Extracts the published address of `domain` from a resolver's response
/// body: a parse error where the body is no JSON, a not-found error naming
/// the domain where the answer holds no address.
pub fn get_dns_address(domain: &str, body: &str) -> (r: Result<String, SyncError>)
    ensures
        match json_document(body@) {
            None => fails_with_prefix(r, ErrorKind::Parse, dns_parse_prefix()),
            Some(doc) => match first_answer(doc) {
                Some(address) => r is Ok && r->Ok_0@ == address,
                None => fails_with(r, ErrorKind::NotFound, dns_missing_message(domain@)),
            },
        },
{
    match parse(body) {
        Ok(doc) => dns_address_in(&doc, domain),
        Err(detail) => Err(
            SyncError::Parse("Failed to parse DoH response JSON: ".to_owned().concat(detail.as_str())),
        ),
    }
}

} // verus!
