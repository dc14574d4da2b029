use rust_http_server::text::{
    char_is_whitespace, chars_of, find_after_last, find_from, same_text, slice_string, trim_range,
};

#[test]
fn whitespace_agrees_with_std_on_every_char() {
    let mut code: u32 = 0;
    while code <= 0x10FFFF {
        if let Some(c) = char::from_u32(code) {
            assert_eq!(char_is_whitespace(c), c.is_whitespace(), "U+{:04X}", code);
        }
        code += 1;
    }
}

#[test]
fn chars_of_keeps_order_and_multibyte_chars() {
    assert_eq!(chars_of("aé€b"), vec!['a', 'é', '€', 'b']);
    assert_eq!(chars_of(""), Vec::<char>::new());
}

#[test]
fn find_from_gives_first_match_or_length() {
    let v = chars_of("a b c");
    assert_eq!(find_from(&v, ' ', 0), 1);
    assert_eq!(find_from(&v, ' ', 1), 1);
    assert_eq!(find_from(&v, ' ', 2), 3);
    assert_eq!(find_from(&v, ' ', 4), 5);
    assert_eq!(find_from(&v, ' ', 5), 5);
}

#[test]
fn find_after_last_gives_zero_without_match() {
    assert_eq!(find_after_last(&chars_of("a.b.c"), '.'), 4);
    assert_eq!(find_after_last(&chars_of(".abc"), '.'), 1);
    assert_eq!(find_after_last(&chars_of("abc"), '.'), 0);
    assert_eq!(find_after_last(&chars_of(""), '.'), 0);
}

#[test]
fn trim_range_agrees_with_std_trim() {
    let samples = [
        "",
        " ",
        "abc",
        "  abc",
        "abc\r\n",
        "\t a b \u{a0}\u{3000}",
        "\u{2028}é\u{85}",
        " \n\t ",
    ];
    for s in samples {
        let v = chars_of(s);
        let (a, b) = trim_range(&v, 0, v.len());
        assert_eq!(slice_string(s, a, b), s.trim());
    }
}

#[test]
fn trim_range_stays_inside_the_range() {
    let v = chars_of("xx  ab  yy");
    assert_eq!(trim_range(&v, 2, 8), (4, 6));
    assert_eq!(trim_range(&v, 2, 4), (4, 4));
    assert_eq!(trim_range(&v, 0, 10), (0, 10));
}

#[test]
fn same_text_is_exact() {
    assert!(same_text("GET", "GET"));
    assert!(!same_text("GET", "get"));
    assert!(!same_text("GET", "GE"));
    assert!(!same_text("GET", "GETS"));
    assert!(same_text("", ""));
}

#[test]
fn slice_string_counts_chars_not_bytes() {
    assert_eq!(slice_string("aé€b", 1, 3), "é€");
    assert_eq!(slice_string("abc", 3, 3), "");
}
