//! HTTP status codes, with their digits and reason phrases as the `http`
//! crate gives them.

use crate::text::is_printable_ascii;
use vstd::prelude::*;

verus! {

/// The character for one decimal digit.
pub open spec fn digit_char(d: int) -> char
    recommends
        0 <= d <= 9,
{
    ((48 + d) as u8) as char
}

/// The three decimal digits of a status code, most significant first.
pub open spec fn decimal_digits(code: u16) -> Seq<char>
    recommends
        100 <= code <= 999,
{
    seq![digit_char(code as int / 100), digit_char(code as int / 10 % 10), digit_char(code as int % 10)]
}

/// The digits of a three-digit code are three, each from `0` to `9`.
pub proof fn lemma_decimal_digits(code: u16)
    requires
        100 <= code <= 999,
    ensures
        decimal_digits(code).len() == 3,
        forall|i: int| 0 <= i < 3 ==> '0' <= #[trigger] decimal_digits(code)[i] <= '9',
        is_printable_ascii(decimal_digits(code)),
{
    assert forall|d: int| 0 <= d <= 9 implies '0' <= #[trigger] digit_char(d) <= '9' by {
        assert(((48 + d) as u8) as int == 48 + d);
    }
    assert(0 <= code as int / 100 <= 9);
    assert(0 <= code as int / 10 % 10 <= 9);
    assert(0 <= code as int % 10 <= 9);
    assert(decimal_digits(code)[0] == digit_char(code as int / 100));
    assert(decimal_digits(code)[1] == digit_char(code as int / 10 % 10));
    assert(decimal_digits(code)[2] == digit_char(code as int % 10));
}

/// The reason phrase that `http::StatusCode::canonical_reason` gives for the
/// status with this code, or `None` where it knows none.
pub uninterp spec fn canonical_reason_of(code: u16) -> Option<Seq<char>>;

/// The reason phrase of `code` as it stands in a status line: the canonical
/// one, or nothing where the code has none. For the statuses that this
/// server answers with, the phrase is spelled out.
pub open spec fn reason_text(code: u16) -> Seq<char> {
    if code == 200 {
        "OK"@
    } else if code == 400 {
        "Bad Request"@
    } else if code == 403 {
        "Forbidden"@
    } else if code == 404 {
        "Not Found"@
    } else if code == 405 {
        "Method Not Allowed"@
    } else if code == 500 {
        "Internal Server Error"@
    } else {
        match canonical_reason_of(code) {
            Some(reason) => reason,
            None => Seq::empty(),
        }
    }
}

/// Calls `http::StatusCode::as_str` on the status made by
/// `http::StatusCode::from_u16`. Trusted: that the text is the code's three
/// decimal digits.
#[verifier::external_body]
fn http_code_text(code: u16) -> (r: String)
    requires
        100 <= code <= 999,
    ensures
        r@ == decimal_digits(code),
{
    match http::StatusCode::from_u16(code) {
        Ok(status) => status.as_str().to_string(),
        Err(_) => String::new(),
    }
}

/// Calls `http::StatusCode::canonical_reason` on the status made by
/// `http::StatusCode::from_u16`. Trusted: that the phrase depends on the code
/// alone, that every phrase is printable ASCII, and what the phrase is for the
/// six codes 200, 400, 403, 404, 405 and 500. Nothing more is claimed of what
/// it says for any other code.
#[verifier::external_body]
fn http_canonical_reason(code: u16) -> (r: Option<&'static str>)
    requires
        100 <= code <= 999,
    ensures
        r is Some == canonical_reason_of(code) is Some,
        r matches Some(reason) ==> Some(reason@) == canonical_reason_of(code),
        r matches Some(reason) ==> is_printable_ascii(reason@),
        code == 200 ==> r == Some("OK"),
        code == 400 ==> r == Some("Bad Request"),
        code == 403 ==> r == Some("Forbidden"),
        code == 404 ==> r == Some("Not Found"),
        code == 405 ==> r == Some("Method Not Allowed"),
        code == 500 ==> r == Some("Internal Server Error"),
{
    match http::StatusCode::from_u16(code) {
        Ok(status) => status.canonical_reason(),
        Err(_) => None,
    }
}

/// An HTTP status code: a number of three decimal digits.
#[derive(Clone, Copy, Debug)]
pub struct Status {
    code: u16,
}

impl View for Status {
    type V = u16;

    closed spec fn view(&self) -> u16 {
        self.code
    }
}

impl Status {
    #[verifier::type_invariant]
    spec fn in_range(self) -> bool {
        100 <= self.code <= 999
    }

    /// The status with this code, where the code has three digits.
    pub fn from_u16(code: u16) -> (r: Option<Status>)
        ensures
            r is Some <==> 100 <= code <= 999,
            r matches Some(status) ==> status@ == code,
    {
        if 100 <= code && code <= 999 {
            Some(Status { code })
        } else {
            None
        }
    }

    /// 200 OK
    pub fn ok() -> (r: Status)
        ensures
            r@ == 200,
    {
        Status { code: 200 }
    }

    /// 400 Bad Request
    pub fn bad_request() -> (r: Status)
        ensures
            r@ == 400,
    {
        Status { code: 400 }
    }

    /// 403 Forbidden
    pub fn forbidden() -> (r: Status)
        ensures
            r@ == 403,
    {
        Status { code: 403 }
    }

    /// 404 Not Found
    pub fn not_found() -> (r: Status)
        ensures
            r@ == 404,
    {
        Status { code: 404 }
    }

    /// 405 Method Not Allowed
    pub fn method_not_allowed() -> (r: Status)
        ensures
            r@ == 405,
    {
        Status { code: 405 }
    }

    /// 500 Internal Server Error
    pub fn internal_server_error() -> (r: Status)
        ensures
            r@ == 500,
    {
        Status { code: 500 }
    }

    /// The code as a number.
    pub fn as_u16(&self) -> (r: u16)
        ensures
            r == self@,
            100 <= r <= 999,
    {
        proof {
            use_type_invariant(self);
        }
        self.code
    }

    /// The code as text: its three decimal digits.
    pub fn as_str(&self) -> (r: String)
        ensures
            r@ == decimal_digits(self@),
            is_printable_ascii(r@),
    {
        proof {
            use_type_invariant(self);
            lemma_decimal_digits(self.code);
        }
        http_code_text(self.code)
    }

    /// The canonical reason phrase, where the code has one.
    pub fn canonical_reason(&self) -> (r: Option<&'static str>)
        ensures
            r is Some == canonical_reason_of(self@) is Some,
            r matches Some(reason) ==> Some(reason@) == canonical_reason_of(self@),
            r matches Some(reason) ==> reason@ == reason_text(self@),
            r is None ==> reason_text(self@) == Seq::<char>::empty(),
            is_printable_ascii(reason_text(self@)),
    {
        proof {
            use_type_invariant(self);
        }
        http_canonical_reason(self.code)
    }
}

} // verus!
