use rust_http_server::request::{parse_request, parse_request_at, ParseError};

#[test]
fn three_fields_are_method_path_version() {
    let r = parse_request_at("GET /index.html HTTP/1.0\n", String::from("now")).unwrap();
    assert_eq!(r.method, "GET");
    assert_eq!(r.path, "/index.html");
    assert_eq!(r.http_version, "HTTP/1.0");
    assert_eq!(r.time, "now");
}

#[test]
fn fields_are_trimmed() {
    let r = parse_request_at("\tGET\t /x\r \u{a0}HTTP/1.0\r\n", String::new()).unwrap();
    assert_eq!(r.method, "GET");
    assert_eq!(r.path, "/x");
    assert_eq!(r.http_version, "HTTP/1.0");
}

#[test]
fn what_follows_the_third_field_is_ignored() {
    let r = parse_request_at("GET /x HTTP/1.0 Host: example\n", String::new()).unwrap();
    assert_eq!(r.method, "GET");
    assert_eq!(r.path, "/x");
    assert_eq!(r.http_version, "HTTP/1.0");
}

#[test]
fn a_missing_path_is_malformed() {
    assert_eq!(
        parse_request_at("GET  HTTP/1.0\n", String::new()).err(),
        Some(ParseError::Malformed)
    );
    assert_eq!(
        parse_request_at("GET  /x HTTP/1.0", String::new()).err(),
        Some(ParseError::Malformed)
    );
}

#[test]
fn a_missing_method_or_version_is_malformed() {
    for line in [" /x HTTP/1.0\n", "GET /x ", "GET /x \n", "GET /x  HTTP/1.0", "  ", "   "] {
        assert_eq!(
            parse_request_at(line, String::new()).err(),
            Some(ParseError::Malformed),
            "{:?}",
            line
        );
    }
}

#[test]
fn a_piece_of_whitespace_only_is_a_missing_token() {
    for line in ["GET \t HTTP/1.0\n", "\t /x HTTP/1.0\n", "GET /x \r\n", "GET \u{a0} HTTP/1.0"] {
        assert_eq!(
            parse_request_at(line, String::new()).err(),
            Some(ParseError::Malformed),
            "{:?}",
            line
        );
    }
}

#[test]
fn an_empty_piece_behind_the_version_does_no_harm() {
    let r = parse_request_at("GET /x HTTP/1.0  \n", String::new()).unwrap();
    assert_eq!(r.method, "GET");
    assert_eq!(r.path, "/x");
    assert_eq!(r.http_version, "HTTP/1.0");
}

#[test]
fn fewer_than_three_fields_are_malformed() {
    for line in ["", "\n", "GET", "BADLINE\n", "GET /x", "GET /x\n", "GET\t/x\tHTTP/1.0"] {
        assert_eq!(
            parse_request_at(line, String::new()).err(),
            Some(ParseError::Malformed),
            "{:?}",
            line
        );
    }
}

#[test]
fn parse_request_reads_the_clock() {
    let r = parse_request("GET /a.txt HTTP/1.0\n").unwrap();
    assert_eq!(r.method, "GET");
    assert_eq!(r.path, "/a.txt");
    assert_eq!(r.http_version, "HTTP/1.0");
    assert!(!r.time.is_empty());
    assert!(parse_request("BADLINE\n").is_err());
}
