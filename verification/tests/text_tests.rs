use cf_ddns::error::{ErrorKind, SyncError};
use cf_ddns::text::{find_trace_ip, trim, Trim};
use cf_ddns::wan::{get_wan_address, wan_request, WanFormat};
use cf_ddns::request::Method;

const TRACE: &str = "fl=123f45\nh=1.1.1.1\nip=203.0.113.9\nts=1700000000.123\nvisit_scheme=https\nuag=curl/8.0\ncolo=FRA\nsliver=none\nhttp=http/2\nloc=DE\ntls=TLSv1.3\nsni=off\nwarp=off\ngateway=off\nrbi=off\nkex=X25519\n";

#[test]
fn trace_document_gives_ip_value() {
    assert_eq!(find_trace_ip(TRACE), Some("203.0.113.9".to_string()));
}

#[test]
fn trace_ip_line_may_stand_anywhere() {
    assert_eq!(find_trace_ip("ip=198.51.100.2\nh=1.1.1.1\n"), Some("198.51.100.2".to_string()));
    assert_eq!(find_trace_ip("h=1.1.1.1\nloc=DE\nip=198.51.100.2"), Some("198.51.100.2".to_string()));
    assert_eq!(find_trace_ip("loc=DE\nip=2001:db8::1\nh=1.1.1.1"), Some("2001:db8::1".to_string()));
}

#[test]
fn trace_first_ip_line_wins() {
    assert_eq!(find_trace_ip("ip=1.1.1.1\nip=2.2.2.2\n"), Some("1.1.1.1".to_string()));
}

#[test]
fn trace_key_must_be_exactly_ip() {
    assert_eq!(find_trace_ip("ipx=1.1.1.1\nxip=2.2.2.2\n ip=3.3.3.3\nIP=4.4.4.4\n"), None);
    assert_eq!(find_trace_ip("ip\nip 5.5.5.5\n"), None);
    assert_eq!(find_trace_ip(""), None);
    assert_eq!(find_trace_ip("\n\n"), None);
}

#[test]
fn trace_value_keeps_later_equals_signs_and_spaces() {
    assert_eq!(find_trace_ip("ip=a=b\n"), Some("a=b".to_string()));
    assert_eq!(find_trace_ip("ip= 1.2.3.4 \n"), Some(" 1.2.3.4 ".to_string()));
    assert_eq!(find_trace_ip("ip=\nh=x"), Some(String::new()));
}

#[test]
fn trace_crlf_terminator_is_dropped() {
    assert_eq!(find_trace_ip("h=1.1.1.1\r\nip=203.0.113.9\r\nloc=DE\r\n"), Some("203.0.113.9".to_string()));
    // a carriage return that ends the document is no terminator
    assert_eq!(find_trace_ip("ip=203.0.113.9\r"), Some("203.0.113.9\r".to_string()));
    assert_eq!(find_trace_ip("ip=\r\n"), Some(String::new()));
}

#[test]
fn trace_scan_agrees_with_std_lines() {
    let docs = [
        TRACE,
        "a=b\r\nip=9.9.9.9\r\n",
        "ip=\u{e9}t\u{e9}\nq=1",
        "x\n\nip=1\n",
        "ip=1\r\r\nz",
        "no newline",
        "q=1\rip=2\n",
    ];
    for doc in docs {
        let expected = doc.lines().find_map(|line| {
            line.split_once('=').filter(|&(key, _)| key == "ip").map(|(_, value)| value.to_string())
        });
        assert_eq!(find_trace_ip(doc), expected);
    }
}

#[test]
fn trim_quotes_takes_all_surrounding_quotes() {
    assert_eq!(trim("\"203.0.113.9\"", Trim::Quotes), "203.0.113.9");
    assert_eq!(trim("\"\"a\"b\"\"\"", Trim::Quotes), "a\"b");
    assert_eq!(trim("plain", Trim::Quotes), "plain");
    assert_eq!(trim("\"\"\"", Trim::Quotes), "");
    assert_eq!(trim("", Trim::Quotes), "");
    assert_eq!(trim(" \"a\" ", Trim::Quotes), " \"a\" ");
}

#[test]
fn trim_whitespace_agrees_with_std() {
    let samples = [
        "  203.0.113.9\n",
        "\t\r\n 2001:db8::1 \u{a0}\u{3000}",
        "\u{2003}a b\u{2028}",
        "\u{85}x\u{1680}",
        "   ",
        "",
        "a",
        "\u{200b}a\u{200b}",
    ];
    for s in samples {
        assert_eq!(trim(s, Trim::Whitespace), s.trim());
    }
}

#[test]
fn removes_tells_the_two_kinds_apart() {
    assert!(Trim::Quotes.removes('"'));
    assert!(!Trim::Quotes.removes(' '));
    assert!(Trim::Whitespace.removes(' '));
    assert!(Trim::Whitespace.removes('\u{205f}'));
    assert!(!Trim::Whitespace.removes('"'));
    for c in ['\0', 'a', '\u{200b}', '\u{200a}', '\u{2000}', '\u{1fff}', '\u{e}', '\u{8}'] {
        assert_eq!(Trim::Whitespace.removes(c), c.is_whitespace());
    }
}

#[test]
fn wan_address_from_trace() {
    assert_eq!(get_wan_address(WanFormat::Trace, TRACE), Ok("203.0.113.9".to_string()));
}

#[test]
fn wan_address_from_plain_text() {
    assert_eq!(get_wan_address(WanFormat::PlainText, " 203.0.113.9\n"), Ok("203.0.113.9".to_string()));
    assert_eq!(get_wan_address(WanFormat::PlainText, "ip=1.2.3.4"), Ok("ip=1.2.3.4".to_string()));
}

#[test]
fn wan_trace_without_ip_is_a_parse_error() {
    let r = get_wan_address(WanFormat::Trace, "h=1.1.1.1\nloc=DE\n");
    assert_eq!(r, Err(SyncError::Parse("IP address not found in trace response".to_string())));
    let e = r.unwrap_err();
    assert_eq!(e.kind(), ErrorKind::Parse);
    assert_eq!(e.message(), "IP address not found in trace response");
}

#[test]
fn wan_request_is_a_plain_get() {
    let r = wan_request();
    assert_eq!(r.method, Method::Get);
    assert_eq!(r.url, "https://1.1.1.1/cdn-cgi/trace");
    assert!(r.query.is_empty());
    assert!(r.headers.is_empty());
    assert_eq!(r.bearer, None);
    assert_eq!(r.json_body, None);
}

#[test]
fn error_kind_and_message_of_each_variant() {
    let all = [
        (SyncError::ClientInit("a".to_string()), ErrorKind::ClientInit, "a"),
        (SyncError::Network("b".to_string()), ErrorKind::Network, "b"),
        (SyncError::Parse("c".to_string()), ErrorKind::Parse, "c"),
        (SyncError::NotFound("d".to_string()), ErrorKind::NotFound, "d"),
        (SyncError::UpdateRejected("e".to_string()), ErrorKind::UpdateRejected, "e"),
    ];
    for (e, kind, message) in all {
        assert_eq!(e.kind(), kind);
        assert_eq!(e.message(), message);
    }
}

#[test]
fn chars_of_lists_every_character() {
    assert_eq!(cf_ddns::text::chars_of(""), Vec::<char>::new());
    assert_eq!(cf_ddns::text::chars_of("ip=1"), vec!['i', 'p', '=', '1']);
    assert_eq!(cf_ddns::text::chars_of("a\u{e9}\u{3000}\n"), vec!['a', '\u{e9}', '\u{3000}', '\n']);
}
