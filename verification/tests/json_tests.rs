use cf_ddns::dns::{dns_address_in, dns_request, get_dns_address};
use cf_ddns::error::{ErrorKind, SyncError};
use cf_ddns::json::{parse, Json, Member};
use cf_ddns::request::Method;

fn member(key: &str, value: Json) -> Member {
    Member { key: key.to_string(), value }
}

fn text(s: &str) -> Json {
    Json::Text(s.to_string())
}

#[test]
fn parse_reads_every_kind_of_value() {
    let doc = parse("{\"n\": null, \"b\": true, \"i\": -12, \"s\": \"x\\ny\", \"a\": [1, \"two\", false], \"o\": {\"k\": []}}").unwrap();
    let expected = Json::Object(vec![
        member("a", Json::Array(vec![Json::Number("1".to_string()), text("two"), Json::Bool(false)])),
        member("b", Json::Bool(true)),
        member("i", Json::Number("-12".to_string())),
        member("n", Json::Null),
        member("o", Json::Object(vec![member("k", Json::Array(vec![]))])),
        member("s", text("x\ny")),
    ]);
    assert_eq!(doc, expected);
}

#[test]
fn parse_reads_scalars() {
    assert_eq!(parse("null"), Ok(Json::Null));
    assert_eq!(parse(" true "), Ok(Json::Bool(true)));
    assert_eq!(parse("\"203.0.113.9\""), Ok(text("203.0.113.9")));
    assert_eq!(parse("42"), Ok(Json::Number("42".to_string())));
    assert_eq!(parse("1.5"), Ok(Json::Number("1.5".to_string())));
}

#[test]
fn parse_keeps_the_last_of_a_repeated_key() {
    let doc = parse("{\"k\": 1, \"k\": 2}").unwrap();
    assert_eq!(doc, Json::Object(vec![member("k", Json::Number("2".to_string()))]));
}

#[test]
fn parse_rejects_what_is_no_json() {
    assert!(parse("").is_err());
    assert!(parse("{").is_err());
    assert!(parse("{\"a\": }").is_err());
    assert!(parse("[1, 2] tail").is_err());
    assert!(parse("ip=1.2.3.4").is_err());
    assert!(!parse("nope").unwrap_err().is_empty());
}

#[test]
fn member_finds_by_exact_key() {
    let doc = Json::Object(vec![member("Answer", Json::Null), member("answer", Json::Bool(true))]);
    assert_eq!(doc.member("Answer"), Some(&Json::Null));
    assert_eq!(doc.member("answer"), Some(&Json::Bool(true)));
    assert_eq!(doc.member("ANSWER"), None);
    assert_eq!(Json::Array(vec![]).member("Answer"), None);
    assert_eq!(text("Answer").member("Answer"), None);
}

#[test]
fn member_takes_the_first_of_equal_keys() {
    let doc = Json::Object(vec![member("k", text("one")), member("k", text("two"))]);
    assert_eq!(doc.member("k"), Some(&text("one")));
}

#[test]
fn accessors_tell_the_variants_apart() {
    assert_eq!(Json::Bool(false).flag(), Some(false));
    assert_eq!(Json::Bool(true).flag(), Some(true));
    assert_eq!(text("true").flag(), None);
    assert_eq!(Json::Null.flag(), None);
    assert_eq!(text("a").text(), Some("a"));
    assert_eq!(Json::Number("1".to_string()).text(), None);
    assert_eq!(Json::Array(vec![Json::Null]).items(), Some(&vec![Json::Null]));
    assert_eq!(Json::Object(vec![]).items(), None);
    let doc = Json::Object(vec![member("id", text("abc123")), member("n", Json::Number("1".to_string()))]);
    assert_eq!(doc.text_member("id"), Some("abc123"));
    assert_eq!(doc.text_member("n"), None);
    assert_eq!(doc.text_member("missing"), None);
}

#[test]
fn dns_request_asks_for_the_a_record() {
    let r = dns_request("home.example.com");
    assert_eq!(r.method, Method::Get);
    assert_eq!(r.url, "https://1.1.1.1/dns-query");
    assert_eq!(
        r.query,
        vec![
            ("name".to_string(), "home.example.com".to_string()),
            ("type".to_string(), "A".to_string()),
        ]
    );
    assert_eq!(r.headers, vec![("accept".to_string(), "application/dns-json".to_string())]);
    assert_eq!(r.bearer, None);
    assert_eq!(r.json_body, None);
}

#[test]
fn dns_address_is_the_first_answer() {
    let body = "{\"Status\":0,\"Answer\":[{\"name\":\"home.example.com\",\"type\":1,\"TTL\":300,\"data\":\"198.51.100.2\"},{\"name\":\"home.example.com\",\"type\":1,\"TTL\":300,\"data\":\"198.51.100.3\"}]}";
    assert_eq!(get_dns_address("home.example.com", body), Ok("198.51.100.2".to_string()));
}

#[test]
fn dns_address_loses_its_surrounding_quotes() {
    let body = "{\"Answer\":[{\"data\":\"\\\"198.51.100.2\\\"\"}]}";
    assert_eq!(get_dns_address("home.example.com", body), Ok("198.51.100.2".to_string()));
}

#[test]
fn dns_empty_answer_is_not_found() {
    let r = get_dns_address("home.example.com", "{\"Status\":3,\"Answer\":[]}");
    assert_eq!(r, Err(SyncError::NotFound("No IP address found for the home.example.com".to_string())));
}

#[test]
fn dns_missing_or_misshapen_answer_is_not_found() {
    for body in [
        "{\"Status\":3}",
        "{\"Answer\":{}}",
        "{\"Answer\":[{\"name\":\"x\"}]}",
        "{\"Answer\":[{\"data\":7},{\"data\":\"1.1.1.1\"}]}",
        "[]",
        "null",
    ] {
        let e = get_dns_address("d.example", body).unwrap_err();
        assert_eq!(e.kind(), ErrorKind::NotFound);
        assert_eq!(e.message(), "No IP address found for the d.example");
    }
}

#[test]
fn dns_body_that_is_no_json_is_a_parse_error() {
    let e = get_dns_address("d.example", "<html>").unwrap_err();
    assert_eq!(e.kind(), ErrorKind::Parse);
    assert!(e.message().starts_with("Failed to parse DoH response JSON: "));
    assert!(e.message().len() > "Failed to parse DoH response JSON: ".len());
}

#[test]
fn dns_address_in_a_document() {
    let doc = Json::Object(vec![member(
        "Answer",
        Json::Array(vec![Json::Object(vec![member("data", text("\"203.0.113.9\""))])]),
    )]);
    assert_eq!(dns_address_in(&doc, "d.example"), Ok("203.0.113.9".to_string()));
    let empty = Json::Object(vec![member("Answer", Json::Array(vec![]))]);
    assert_eq!(
        dns_address_in(&empty, "d.example"),
        Err(SyncError::NotFound("No IP address found for the d.example".to_string()))
    );
}
