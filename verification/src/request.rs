//! The request line: `METHOD PATH VERSION`, separated by single spaces.

use crate::text::{
    chars_of, find_from, lemma_occurrences_step, lemma_position_from, occurrences_from,
    lemma_trim, position_from, slice_string, trim, trim_range,
};
use vstd::prelude::*;

verus! {

/// A parsed request line, with the moment it was parsed at.
#[derive(Debug)]
pub struct Request {
    pub http_version: String,
    pub method: String,
    pub path: String,
    /// The local wall-clock time of parsing, as text. It serves the log only.
    pub time: String,
}

/// Why a request line was refused.
#[derive(Clone, Copy, Debug, PartialEq, Eq, Structural)]
pub enum ParseError {
    /// The line has fewer than three fields.
    Malformed,
}

/// How many pieces the single spaces of `line` part it into. A line without a
/// space is one piece, and two spaces in a row enclose an empty one. A piece
/// counts here whatever it holds; whether it is a token is another matter
/// (see `has_request_tokens`).
pub open spec fn field_count(line: Seq<char>) -> nat {
    occurrences_from(line, ' ', 0) + 1
}

/// Where field `k` begins; `line.len() + 1` where the line has no such field.
pub open spec fn field_start(line: Seq<char>, k: nat) -> int
    decreases k,
{
    if k == 0 {
        0
    } else {
        position_from(line, ' ', field_start(line, (k - 1) as nat)) + 1
    }
}

/// Where field `k` ends: at the next space, or at the end of the line.
pub open spec fn field_end(line: Seq<char>, k: nat) -> int {
    position_from(line, ' ', field_start(line, k))
}

/// Field `k` of the line, counted from 0.
pub open spec fn field(line: Seq<char>, k: nat) -> Seq<char>
    recommends
        k < field_count(line),
{
    line.subrange(field_start(line, k), field_end(line, k))
}

/// Token `k` of the line: piece `k` without the whitespace around it.
pub open spec fn token(line: Seq<char>, k: nat) -> Seq<char>
    recommends
        k < field_count(line),
{
    trim(field(line, k))
}

/// Whether the line holds a method, a path and a version: it has three
/// pieces or more, and none of the first three is empty or whitespace only.
pub open spec fn has_request_tokens(line: Seq<char>) -> bool {
    &&& field_count(line) >= 3
    &&& token(line, 0).len() > 0
    &&& token(line, 1).len() > 0
    &&& token(line, 2).len() > 0
}

/// A line has a field `k` exactly where `field_start` stays inside it, and
/// then `k` spaces lie before that field.
pub proof fn lemma_field_start(line: Seq<char>, k: nat)
    ensures
        0 <= field_start(line, k) <= line.len() + 1,
        field_start(line, k) <= line.len() <==> k < field_count(line),
        field_start(line, k) <= line.len() ==> occurrences_from(line, ' ', field_start(line, k))
            + k == occurrences_from(line, ' ', 0),
        field_start(line, k) <= line.len() ==> field_start(line, k) <= field_end(line, k)
            <= line.len(),
    decreases k,
{
    if k > 0 {
        let before = field_start(line, (k - 1) as nat);
        lemma_field_start(line, (k - 1) as nat);
        if before <= line.len() {
            lemma_position_from(line, ' ', before);
            lemma_occurrences_step(line, ' ', before);
        }
    }
    if field_start(line, k) <= line.len() {
        lemma_position_from(line, ' ', field_start(line, k));
    }
}

/// A field that the line has lies inside it, holds no space, and is bounded
/// on each side by a space or by an end of the line.
pub proof fn lemma_field_is_maximal(line: Seq<char>, k: nat)
    requires
        k < field_count(line),
    ensures
        0 <= field_start(line, k) <= field_end(line, k) <= line.len(),
        forall|i: int| 0 <= i < field(line, k).len() ==> field(line, k)[i] != ' ',
        field_start(line, k) == 0 || line[field_start(line, k) - 1] == ' ',
        field_end(line, k) == line.len() || line[field_end(line, k)] == ' ',
        k == 0 <==> field_start(line, k) == 0,
{
    lemma_field_start(line, k);
    lemma_position_from(line, ' ', field_start(line, k));
    if k > 0 {
        let before = field_start(line, (k - 1) as nat);
        lemma_field_start(line, (k - 1) as nat);
        lemma_position_from(line, ' ', before);
    }
}

/// The current local time as `chrono::Local::now` reads it, in the form that
/// `chrono::DateTime` displays. Nothing is claimed of the text: it depends on
/// the clock and the time zone of the machine. The call takes no argument,
/// so nothing here can rule out that it panics on a machine whose clock
/// stands before 1970 or whose time zone data give no offset.
#[verifier::external_body]
pub(crate) fn local_time_text() -> (r: String) {
    chrono::Local::now().to_string()
}

/// Parses one request line, taking the time of parsing as given.
///
/// The line is accepted exactly where its first three pieces are there and
/// each holds more than whitespace. Without the whitespace around them they
/// are the method, the path and the version; what follows them is not looked
/// at. A line that lacks one of the three is malformed.
pub fn parse_request_at(line: &str, time: String) -> (r: Result<Request, ParseError>)
    ensures
        r is Ok <==> has_request_tokens(line@),
        r matches Ok(request) ==> {
            &&& request.method@ == token(line@, 0)
            &&& request.path@ == token(line@, 1)
            &&& request.http_version@ == token(line@, 2)
            &&& request.time == time
        },
        r matches Err(e) ==> e == ParseError::Malformed,
{
    proof {
        reveal_with_fuel(field_start, 3);
        lemma_field_start(line@, 0);
        lemma_field_start(line@, 1);
        lemma_field_start(line@, 2);
    }
    let chars = chars_of(line);
    let method_end = find_from(&chars, ' ', 0);
    if method_end >= chars.len() {
        return Err(ParseError::Malformed);
    }
    let path_end = find_from(&chars, ' ', method_end + 1);
    if path_end >= chars.len() {
        return Err(ParseError::Malformed);
    }
    let version_end = find_from(&chars, ' ', path_end + 1);
    let m = trim_range(&chars, 0, method_end);
    let p = trim_range(&chars, method_end + 1, path_end);
    let v = trim_range(&chars, path_end + 1, version_end);
    if m.0 == m.1 || p.0 == p.1 || v.0 == v.1 {
        return Err(ParseError::Malformed);
    }
    Ok(
        Request {
            http_version: slice_string(line, v.0, v.1),
            method: slice_string(line, m.0, m.1),
            path: slice_string(line, p.0, p.1),
            time,
        },
    )
}

/// Parses one request line and stamps it with the current local time.
///
/// Which line is accepted, and what the three tokens are, is as in
/// `parse_request_at`; the time is whatever the clock gave.
pub fn parse_request(line: &str) -> (r: Result<Request, ParseError>)
    ensures
        r is Ok <==> has_request_tokens(line@),
        r matches Ok(request) ==> {
            &&& request.method@ == token(line@, 0)
            &&& request.path@ == token(line@, 1)
            &&& request.http_version@ == token(line@, 2)
        },
        r matches Err(e) ==> e == ParseError::Malformed,
{
    parse_request_at(line, local_time_text())
}

/// A line with fewer than two spaces holds fewer than three tokens, and so
/// does a line whose method, path or version is missing between the spaces.
pub proof fn lemma_too_few_tokens(line: Seq<char>)
    ensures
        occurrences_from(line, ' ', 0) < 2 ==> !has_request_tokens(line),
        line.len() == 0 ==> !has_request_tokens(line),
        field_count(line) >= 3 && (field(line, 0).len() == 0 || field(line, 1).len() == 0
            || field(line, 2).len() == 0) ==> !has_request_tokens(line),
{
    if field_count(line) >= 3 {
        lemma_trim(field(line, 0));
        lemma_trim(field(line, 1));
        lemma_trim(field(line, 2));
    }
}

} // verus!
