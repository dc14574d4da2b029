//! What one connection is answered with: the bytes to send and the line to
//! log. Reading the request line, reading the file and sending are the
//! caller's.

use crate::request::{has_request_tokens, local_time_text, parse_request_at, token, Request};
use crate::response::{
    build_response, contents_view, create_bad_request_response, file_path, format_response,
    plan_response, spec_build, spec_format, wants_file, Plan, ReadError, Response, ResponseView,
};
use crate::status::decimal_digits;
use vstd::prelude::*;
use vstd::string::StringExecFns;

verus! {

/// The log line of an answered request: the time in square brackets, the
/// request in double quotes, the status.
pub open spec fn log_line(
    time: Seq<char>,
    method: Seq<char>,
    path: Seq<char>,
    http_version: Seq<char>,
    status: u16,
) -> Seq<char> {
    "["@ + time + "] \""@ + method + " "@ + path + " "@ + http_version + "\" "@ + decimal_digits(
        status,
    )
}

/// The log line of a line that was no request: it ends with the line as it
/// came.
pub open spec fn bad_request_line(raw: Seq<char>) -> Seq<char> {
    "Malformed request: "@ + raw
}

/// The log line for a request and the response it got.
pub fn log_request(request: &Request, response: &Response) -> (r: String)
    ensures
        r@ == log_line(
            request.time@,
            request.method@,
            request.path@,
            request.http_version@,
            response.status@,
        ),
{
    let mut line = String::from_str("[");
    line.append(request.time.as_str());
    line.append("] \"");
    line.append(request.method.as_str());
    line.append(" ");
    line.append(request.path.as_str());
    line.append(" ");
    line.append(request.http_version.as_str());
    line.append("\" ");
    line.append(response.status.as_str().as_str());
    line
}

/// The log line for a line that could not be parsed.
pub fn log_bad_request(raw: &str) -> (r: String)
    ensures
        r@ == bad_request_line(raw@),
{
    String::from_str("Malformed request: ").concat(raw)
}

/// What goes out for one connection.
#[derive(Debug)]
pub struct Reply {
    /// The line for the log.
    pub log: String,
    /// The bytes for the peer.
    pub bytes: Vec<u8>,
}

/// The reply to a line that could not be parsed: a bare 400, and the line
/// itself in the log.
pub fn reply_to_bad_request(raw: &str) -> (r: Reply)
    ensures
        r.log@ == bad_request_line(raw@),
        r.bytes@ == spec_format(ResponseView::bare(400)),
{
    Reply { log: log_bad_request(raw), bytes: format_response(create_bad_request_response()) }
}

/// The reply to a parsed request, once its response is built.
pub fn reply_to_request(request: &Request, response: Response) -> (r: Reply)
    ensures
        r.log@ == log_line(
            request.time@,
            request.method@,
            request.path@,
            request.http_version@,
            response.status@,
        ),
        r.bytes@ == spec_format(response@),
{
    let log = log_request(request, &response);
    Reply { log, bytes: format_response(response) }
}

/// Where a connection stands once its request line was looked at.
#[derive(Debug)]
pub enum Step {
    /// The reply is settled: no file is needed.
    Done(Reply),
    /// The file of this path is to be read for this request.
    Read(Request, String),
}

/// Looks at a request line, taking the time as given.
///
/// A line that is no request gets the bare 400 and is logged as it came. A
/// request that is no `GET` gets the bare 405. A `GET` asks for its file: the
/// root and the path joined.
pub fn begin_at(line: &str, time: String, static_root: &str) -> (r: Step)
    ensures
        !has_request_tokens(line@) ==> (r matches Step::Done(reply) && reply.log@
            == bad_request_line(line@) && reply.bytes@ == spec_format(ResponseView::bare(400))),
        has_request_tokens(line@) && !wants_file(token(line@, 0)) ==> (r matches Step::Done(reply)
            && reply.log@ == log_line(
            time@,
            token(line@, 0),
            token(line@, 1),
            token(line@, 2),
            405,
        ) && reply.bytes@ == spec_format(ResponseView::bare(405))),
        has_request_tokens(line@) && wants_file(token(line@, 0)) ==> (r matches Step::Read(
            request,
            file,
        ) && request.method@ == token(line@, 0) && request.path@ == token(line@, 1)
            && request.http_version@ == token(line@, 2) && request.time == time && file@
            == file_path(static_root@, token(line@, 1))),
{
    match parse_request_at(line, time) {
        Err(_) => Step::Done(reply_to_bad_request(line)),
        Ok(request) => match plan_response(&request, static_root) {
            Plan::Respond(response) => Step::Done(reply_to_request(&request, response)),
            Plan::ReadFile(file) => Step::Read(request, file),
        },
    }
}

/// Looks at a request line at the current local time. What is decided is as
/// in `begin_at`; the time in a log line is whatever the clock gave.
pub fn begin(line: &str, static_root: &str) -> (r: Step)
    ensures
        !has_request_tokens(line@) ==> (r matches Step::Done(reply) && reply.log@
            == bad_request_line(line@) && reply.bytes@ == spec_format(ResponseView::bare(400))),
        has_request_tokens(line@) && !wants_file(token(line@, 0)) ==> (r matches Step::Done(reply)
            && reply.bytes@ == spec_format(ResponseView::bare(405)) && exists|time: Seq<char>|
            reply.log@ == #[trigger] log_line(
                time,
                token(line@, 0),
                token(line@, 1),
                token(line@, 2),
                405,
            )),
        has_request_tokens(line@) && wants_file(token(line@, 0)) ==> (r matches Step::Read(
            request,
            file,
        ) && request.method@ == token(line@, 0) && request.path@ == token(line@, 1)
            && request.http_version@ == token(line@, 2) && file@ == file_path(
            static_root@,
            token(line@, 1),
        )),
{
    begin_at(line, local_time_text(), static_root)
}

/// Answers a request once its file was read, or could not be: the response
/// that `spec_build` gives, written out, and its line for the log.
pub fn finish(request: &Request, static_root: &str, contents: Result<Vec<u8>, ReadError>) -> (r:
    Reply)
    ensures
        r.bytes@ == spec_format(
            spec_build(request.method@, request.path@, static_root@, contents_view(contents)),
        ),
        r.log@ == log_line(
            request.time@,
            request.method@,
            request.path@,
            request.http_version@,
            spec_build(
                request.method@,
                request.path@,
                static_root@,
                contents_view(contents),
            ).status,
        ),
{
    let response = build_response(request, static_root, contents);
    reply_to_request(request, response)
}

} // verus!
