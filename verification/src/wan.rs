//! The caller's public address, as an IP-reflection service reports it.

use vstd::prelude::*;
use crate::error::SyncError;
use crate::error::ErrorKind;
use crate::request::HttpRequest;
use crate::request::Method;
use crate::request::RequestModel;
use crate::text::find_trace_ip;
use crate::text::ip_line;
use crate::text::lemma_trace_ip_line;
use crate::text::trace_ip;
use crate::text::trim;
use crate::text::trimmed;
use crate::text::Trim;

verus! {

/// The shape of the reflection service's response body.
#[derive(Clone, Copy, Debug, PartialEq, Eq, Structural)]
pub enum WanFormat {
    /// The body is the address, possibly surrounded by whitespace.
    PlainText,
    /// The body is a key=value trace document; the address is the value of
    /// the line whose key is `ip`.
    Trace,
}

/// The request that asks the reflection service for the caller's address.
pub open spec fn wan_request_model() -> RequestModel {
    RequestModel {
        method: Method::Get,
        url: "https://1.1.1.1/cdn-cgi/trace"@,
        query: Seq::empty(),
        headers: Seq::empty(),
        bearer: None,
        json_body: None,
    }
}

/// The request that asks the reflection service for the caller's address.
pub fn wan_request() -> (r: HttpRequest)
    ensures
        r@ == wan_request_model(),
{
    let r = HttpRequest {
        method: Method::Get,
        url: "https://1.1.1.1/cdn-cgi/trace".to_owned(),
        query: Vec::new(),
        headers: Vec::new(),
        bearer: None,
        json_body: None,
    };
    assert(r@.query =~= Seq::empty());
    assert(r@.headers =~= Seq::empty());
    r
}

/// The address that a response body of the given shape holds.
pub open spec fn wan_address(format: WanFormat, body: Seq<char>) -> Option<Seq<char>> {
    match format {
        WanFormat::PlainText => Some(trimmed(body, Trim::Whitespace)),
        WanFormat::Trace => trace_ip(body),
    }
}

/// A trace document with the line `ip=x` holds the address `x`, whatever
/// other lines stand before and after that line.
///
/// The document is `pre`, the line and `rest`: `pre` is whole lines without
/// an `ip` line, `rest` is empty or begins with the line feed that ends the
/// line. The value holds no line feed and, where a line feed follows it,
/// does not end in a carriage return.
pub proof fn lemma_trace_address(pre: Seq<char>, x: Seq<char>, rest: Seq<char>)
    requires
        pre.len() == 0 || pre.last() == '\n',
        trace_ip(pre) is None,
        forall|i: int| 0 <= i < x.len() ==> x[i] != '\n',
        rest.len() == 0 || rest[0] == '\n',
        rest.len() > 0 && x.len() > 0 ==> x.last() != '\r',
    ensures
        wan_address(WanFormat::Trace, pre + ip_line(x) + rest) == Some(x),
{
    lemma_trace_ip_line(pre, x, rest, 0);
}

/// The message of the error for a trace document without an `ip` line.
pub open spec fn wan_missing_message() -> Seq<char> {
    "IP address not found in trace response"@
}

/// Extracts the caller's address from the reflection service's response
/// body. A plain-text body is trimmed and used verbatim. A trace document
/// gives the value of its first `ip` line, and a parse error where it has
/// none.
pub fn get_wan_address(format: WanFormat, body: &str) -> (r: Result<String, SyncError>)
    ensures
        match r {
            Ok(address) => wan_address(format, body@) == Some(address@),
            Err(e) => wan_address(format, body@) is None && e.spec_kind() == ErrorKind::Parse
                && e.spec_message() == wan_missing_message(),
        },
{
    match format {
        WanFormat::PlainText => Ok(trim(body, Trim::Whitespace)),
        WanFormat::Trace => match find_trace_ip(body) {
            Some(address) => Ok(address),
            None => Err(SyncError::Parse("IP address not found in trace response".to_owned())),
        },
    }
}

} // verus!
