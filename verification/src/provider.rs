//! The DNS provider's management API: finding the record of the domain and
//! setting its address.

use vstd::prelude::*;
use crate::error::fails_with;
use crate::error::fails_with_prefix;
use crate::error::ErrorKind;
use crate::error::SyncError;
use crate::json::json_document;
use crate::json::parse;
use crate::json::Json;
use crate::request::pairs_model;
use crate::request::HttpRequest;
use crate::request::Method;
use crate::request::RequestModel;

verus! {

/// What an update needs to know: the domain, its zone, the record to set and
/// the credential.
#[derive(Clone, Debug, PartialEq, Eq)]
pub struct CfApiClient {
    pub domain: String,
    pub zone_id: String,
    pub dns_record_id: String,
    pub token: String,
}

/// The address of the record list of a zone.
pub open spec fn zone_records_url(zone_id: Seq<char>) -> Seq<char> {
    "https://api.cloudflare.com/client/v4/zones/"@ + zone_id + "/dns_records"@
}

/// The address of one record of a zone.
pub open spec fn record_url(zone_id: Seq<char>, record_id: Seq<char>) -> Seq<char> {
    zone_records_url(zone_id) + "/"@ + record_id
}

/// The request that lists the records of a zone.
pub open spec fn list_request_model(zone_id: Seq<char>, token: Seq<char>) -> RequestModel {
    RequestModel {
        method: Method::Get,
        url: zone_records_url(zone_id),
        query: Seq::empty(),
        headers: Seq::empty(),
        bearer: Some(token),
        json_body: None,
    }
}

/// The request that lists the records of a zone.
pub fn list_request(zone_id: &str, token: &str) -> (r: HttpRequest)
    ensures
        r@ == list_request_model(zone_id@, token@),
{
    let url: String = "https://api.cloudflare.com/client/v4/zones/".to_owned().concat(
        zone_id,
    ).concat("/dns_records");
    let r = HttpRequest {
        method: Method::Get,
        url,
        query: Vec::new(),
        headers: Vec::new(),
        bearer: Some(token.to_owned()),
        json_body: None,
    };
    assert(r@.query =~= Seq::empty());
    assert(r@.headers =~= Seq::empty());
    r
}

/// The identifier of `item` where it is a record named `domain`: an object
/// whose `name` is the string `domain` and whose `id` is a string.
pub open spec fn id_if_named(item: Json, domain: Seq<char>) -> Option<Seq<char>> {
    if item.spec_text_member("name"@) == Some(domain) {
        item.spec_text_member("id"@)
    } else {
        None
    }
}

/// The identifier of the first record named `domain` among `items`, at or
/// after index `from`.
pub open spec fn record_id_from(items: Seq<Json>, domain: Seq<char>, from: int) -> Option<
    Seq<char>,
>
    decreases items.len() - from,
{
    if from < 0 || from >= items.len() {
        None
    } else if id_if_named(items[from], domain) is Some {
        id_if_named(items[from], domain)
    } else {
        record_id_from(items, domain, from + 1)
    }
}

/// The identifier of the first record named exactly `domain` in the `result`
/// array of a record list. Elements that are no such record are passed over.
pub open spec fn record_id(doc: Json, domain: Seq<char>) -> Option<Seq<char>> {
    match doc.spec_member("result"@) {
        Some(result) => match result.spec_items() {
            Some(items) => record_id_from(items, domain, 0),
            None => None,
        },
        None => None,
    }
}

/// The locator returns the identifier of the record named `domain` at index
/// `k`, where no record before it (at or after `from`) has that name.
pub proof fn lemma_first_named_record(items: Seq<Json>, domain: Seq<char>, from: int, k: int)
    requires
        0 <= from <= k < items.len(),
        id_if_named(items[k], domain) is Some,
        forall|j: int| from <= j < k ==> (#[trigger] id_if_named(items[j], domain)) is None,
    ensures
        record_id_from(items, domain, from) == id_if_named(items[k], domain),
    decreases k - from,
{
    if from < k {
        assert(id_if_named(items[from], domain) is None);
        lemma_first_named_record(items, domain, from + 1, k);
    }
}

/// The locator finds nothing where no element (at or after `from`) is a
/// record named `domain`.
pub proof fn lemma_no_named_record(items: Seq<Json>, domain: Seq<char>, from: int)
    requires
        0 <= from,
        forall|j: int| from <= j < items.len() ==> (#[trigger] id_if_named(items[j], domain)) is None,
    ensures
        record_id_from(items, domain, from) is None,
    decreases items.len() - from,
{
    if from < items.len() {
        assert(id_if_named(items[from], domain) is None);
        lemma_no_named_record(items, domain, from + 1);
    }
}

/// A list whose `result` array holds a record named `domain` at index `k`,
/// and none before it, gives that record's identifier.
pub proof fn lemma_listed_record_is_located(
    doc: Json,
    result: Json,
    items: Seq<Json>,
    domain: Seq<char>,
    k: int,
)
    requires
        doc.spec_member("result"@) == Some(result),
        result.spec_items() == Some(items),
        0 <= k < items.len(),
        id_if_named(items[k], domain) is Some,
        forall|j: int| 0 <= j < k ==> (#[trigger] id_if_named(items[j], domain)) is None,
    ensures
        record_id(doc, domain) == id_if_named(items[k], domain),
{
    lemma_first_named_record(items, domain, 0, k);
}

/// A list whose `result` array holds no record named `domain` gives
/// nothing.
pub proof fn lemma_unlisted_record_is_missing(
    doc: Json,
    result: Json,
    items: Seq<Json>,
    domain: Seq<char>,
)
    requires
        doc.spec_member("result"@) == Some(result),
        result.spec_items() == Some(items),
        forall|j: int| 0 <= j < items.len() ==> (#[trigger] id_if_named(items[j], domain)) is None,
    ensures
        record_id(doc, domain) is None,
{
    lemma_no_named_record(items, domain, 0);
}

/// The message of the error for a list without a record of the domain.
pub open spec fn record_missing_message(domain: Seq<char>) -> Seq<char> {
    "DNS record ID not found for "@ + domain
}

/// The start of the message of the error for a list that is no JSON.
pub open spec fn list_parse_prefix() -> Seq<char> {
    "Failed to parse DNS response JSON: "@
}

/// Finds the identifier of the record named `domain` in a record list that
/// has been read as JSON. Of several records with that name the first one
/// counts. A not-found error naming the domain where there is none.
pub fn locate_record(doc: &Json, domain: &str) -> (r: Result<String, SyncError>)
    ensures
        match record_id(*doc, domain@) {
            Some(id) => r is Ok && r->Ok_0@ == id,
            None => fails_with(r, ErrorKind::NotFound, record_missing_message(domain@)),
        },
{
    let wanted: String = domain.to_owned();
    let listed: Option<&Vec<Json>> = match doc.member("result") {
        Some(result) => result.items(),
        None => None,
    };
    if let Some(items) = listed {
        let mut i: usize = 0;
        while i < items.len()
            invariant
                i <= items@.len(),
                wanted@ == domain@,
                record_id(*doc, domain@) == record_id_from(items@, domain@, i as int),
            decreases items@.len() - i,
        {
            if let Some(name) = items[i].text_member("name") {
                let name: String = name.to_owned();
                if name == wanted {
                    if let Some(id) = items[i].text_member("id") {
                        return Ok(id.to_owned());
                    }
                }
            }
            i = i + 1;
        }
    }
    Err(SyncError::NotFound("DNS record ID not found for ".to_owned().concat(domain)))
}

/// Builds the update context from the provider's record list: a parse error
/// where the body is no JSON, a not-found error naming the domain where the
/// list holds no record of it.
pub fn build_cf_api_client(domain: &str, zone_id: &str, token: &str, body: &str) -> (r: Result<
    CfApiClient,
    SyncError,
>)
    ensures
        match json_document(body@) {
            None => fails_with_prefix(r, ErrorKind::Parse, list_parse_prefix()),
            Some(doc) => match record_id(doc, domain@) {
                Some(id) => r is Ok && r->Ok_0.domain@ == domain@ && r->Ok_0.zone_id@ == zone_id@
                    && r->Ok_0.token@ == token@ && r->Ok_0.dns_record_id@ == id,
                None => fails_with(r, ErrorKind::NotFound, record_missing_message(domain@)),
            },
        },
{
    match parse(body) {
        Ok(doc) => match locate_record(&doc, domain) {
            Ok(id) => Ok(
                CfApiClient {
                    domain: domain.to_owned(),
                    zone_id: zone_id.to_owned(),
                    dns_record_id: id,
                    token: token.to_owned(),
                },
            ),
            Err(e) => Err(e),
        },
        Err(detail) => Err(
            SyncError::Parse("Failed to parse DNS response JSON: ".to_owned().concat(detail.as_str())),
        ),
    }
}

/// Whether the provider's answer confirms the update: its `success` member
/// is the boolean `true`. A missing member and one of another type count as
/// a refusal.
pub open spec fn update_accepted(doc: Json) -> bool {
    match doc.spec_member("success"@) {
        Some(v) => v.spec_flag() == Some(true),
        None => false,
    }
}

/// The message of the error for a refused update: it ends with the
/// provider's raw response body.
pub open spec fn rejected_message(body: Seq<char>) -> Seq<char> {
    "DNS record update was not successful: "@ + body
}

/// The start of the message of the error for an answer that is no JSON.
pub open spec fn update_parse_prefix() -> Seq<char> {
    "Failed to parse DNS record update response JSON: "@
}

/// Judges the provider's answer to an update, read as JSON from `body`:
/// `true` where it confirms success, else the rejection with the raw body.
pub fn update_outcome(doc: &Json, body: &str) -> (r: Result<bool, SyncError>)
    ensures
        if update_accepted(*doc) {
            r == Ok::<bool, SyncError>(true)
        } else {
            fails_with(r, ErrorKind::UpdateRejected, rejected_message(body@))
        },
{
    let confirmed: bool = match doc.member("success") {
        Some(v) => match v.flag() {
            Some(b) => b,
            None => false,
        },
        None => false,
    };
    if confirmed {
        Ok(true)
    } else {
        Err(
            SyncError::UpdateRejected(
                "DNS record update was not successful: ".to_owned().concat(body),
            ),
        )
    }
}

/// What the provider's response body says of an update: success, or the kind
/// of error that the body gives.
pub open spec fn update_result(body: Seq<char>) -> Result<bool, ErrorKind> {
    match json_document(body) {
        None => Err(ErrorKind::Parse),
        Some(doc) => if update_accepted(doc) {
            Ok(true)
        } else {
            Err(ErrorKind::UpdateRejected)
        },
    }
}

/// What the provider's record list says of `domain`: the identifier of its
/// record, or the kind of error that the body gives.
pub open spec fn located(body: Seq<char>, domain: Seq<char>) -> Result<Seq<char>, ErrorKind> {
    match json_document(body) {
        None => Err(ErrorKind::Parse),
        Some(doc) => match record_id(doc, domain) {
            Some(id) => Ok(id),
            None => Err(ErrorKind::NotFound),
        },
    }
}

/// The request that sets the address of record `record_id` of zone
/// `zone_id`, named `domain`, to `ip`.
pub open spec fn patch_request_model(
    domain: Seq<char>,
    zone_id: Seq<char>,
    record_id: Seq<char>,
    token: Seq<char>,
    ip: Seq<char>,
) -> RequestModel {
    RequestModel {
        method: Method::Patch,
        url: record_url(zone_id, record_id),
        query: Seq::empty(),
        headers: Seq::empty(),
        bearer: Some(token),
        json_body: Some(seq![("content"@, ip), ("name"@, domain), ("type"@, "A"@)]),
    }
}

impl CfApiClient {
    /// The request that sets the record's address to `ip`.
    pub open spec fn update_request_model(&self, ip: Seq<char>) -> RequestModel {
        patch_request_model(self.domain@, self.zone_id@, self.dns_record_id@, self.token@, ip)
    }

    /// The request that sets the record's address to `ip`.
    pub fn update_request(&self, ip: &str) -> (r: HttpRequest)
        ensures
            r@ == self.update_request_model(ip@),
    {
        let url: String = "https://api.cloudflare.com/client/v4/zones/".to_owned().concat(
            self.zone_id.as_str(),
        ).concat("/dns_records").concat("/").concat(self.dns_record_id.as_str());
        let members: Vec<(String, String)> = vec![
            ("content".to_owned(), ip.to_owned()),
            ("name".to_owned(), self.domain.clone()),
            ("type".to_owned(), "A".to_owned()),
        ];
        assert(pairs_model(members@) =~= self.update_request_model(ip@).json_body->Some_0);
        let r = HttpRequest {
            method: Method::Patch,
            url,
            query: Vec::new(),
            headers: Vec::new(),
            bearer: Some(self.token.clone()),
            json_body: Some(members),
        };
        assert(r@.query =~= Seq::empty());
        assert(r@.headers =~= Seq::empty());
        r
    }

    /// Judges the provider's response body to the update of this record, as
    /// [`read_update_response`] does.
    pub fn update_dns_record(&self, body: &str) -> (r: Result<bool, SyncError>)
        ensures
            match json_document(body@) {
                None => fails_with_prefix(r, ErrorKind::Parse, update_parse_prefix()),
                Some(doc) => if update_accepted(doc) {
                    r == Ok::<bool, SyncError>(true)
                } else {
                    fails_with(r, ErrorKind::UpdateRejected, rejected_message(body@))
                },
            },
    {
        read_update_response(body)
    }
}

/// Judges the provider's response body to an update: `true` where it
/// confirms success, a parse error where it is no JSON, else the rejection,
/// which carries the raw body.
pub fn read_update_response(body: &str) -> (r: Result<bool, SyncError>)
    ensures
        match json_document(body@) {
            None => fails_with_prefix(r, ErrorKind::Parse, update_parse_prefix()),
            Some(doc) => if update_accepted(doc) {
                r == Ok::<bool, SyncError>(true)
            } else {
                fails_with(r, ErrorKind::UpdateRejected, rejected_message(body@))
            },
        },
{
    match parse(body) {
        Ok(doc) => update_outcome(&doc, body),
        Err(detail) => Err(
            SyncError::Parse(
                "Failed to parse DNS record update response JSON: ".to_owned().concat(
                    detail.as_str(),
                ),
            ),
        ),
    }
}

} // verus!
