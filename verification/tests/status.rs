use rust_http_server::status::Status;

#[test]
fn from_u16_takes_three_digit_codes_only() {
    assert!(Status::from_u16(0).is_none());
    assert!(Status::from_u16(99).is_none());
    assert_eq!(Status::from_u16(100).unwrap().as_u16(), 100);
    assert_eq!(Status::from_u16(999).unwrap().as_u16(), 999);
    assert!(Status::from_u16(1000).is_none());
    assert!(Status::from_u16(u16::MAX).is_none());
}

#[test]
fn named_statuses() {
    assert_eq!(Status::ok().as_u16(), 200);
    assert_eq!(Status::bad_request().as_u16(), 400);
    assert_eq!(Status::forbidden().as_u16(), 403);
    assert_eq!(Status::not_found().as_u16(), 404);
    assert_eq!(Status::method_not_allowed().as_u16(), 405);
    assert_eq!(Status::internal_server_error().as_u16(), 500);
}

#[test]
fn as_str_is_three_decimal_digits() {
    assert_eq!(Status::from_u16(100).unwrap().as_str(), "100");
    assert_eq!(Status::not_found().as_str(), "404");
    assert_eq!(Status::from_u16(999).unwrap().as_str(), "999");
    assert_eq!(Status::from_u16(570).unwrap().as_str(), "570");
}

#[test]
fn canonical_reasons() {
    assert_eq!(Status::ok().canonical_reason(), Some("OK"));
    assert_eq!(Status::bad_request().canonical_reason(), Some("Bad Request"));
    assert_eq!(Status::forbidden().canonical_reason(), Some("Forbidden"));
    assert_eq!(Status::not_found().canonical_reason(), Some("Not Found"));
    assert_eq!(Status::method_not_allowed().canonical_reason(), Some("Method Not Allowed"));
    assert_eq!(Status::internal_server_error().canonical_reason(), Some("Internal Server Error"));
    assert_eq!(Status::from_u16(299).unwrap().canonical_reason(), None);
}

#[test]
fn every_reason_phrase_is_printable_ascii() {
    let mut known = 0;
    let mut code: u16 = 100;
    while code <= 999 {
        if let Some(reason) = Status::from_u16(code).unwrap().canonical_reason() {
            known += 1;
            assert!(!reason.is_empty(), "{}", code);
            assert!(reason.chars().all(|c| (' '..='~').contains(&c)), "{}", code);
        }
        code += 1;
    }
    assert!(known >= 6);
}

#[test]
fn every_code_text_is_its_decimal_form() {
    let mut code: u16 = 100;
    while code <= 999 {
        assert_eq!(Status::from_u16(code).unwrap().as_str(), format!("{}", code));
        code += 1;
    }
}
