//! The response: how it is decided from a request and from what reading the
//! requested file gave, and how it is written out as bytes.

use crate::content_type::ContentType;
use crate::request::Request;
use crate::status::{decimal_digits, reason_text, Status};
use crate::text::{
    after_last, chars_of, find_after_last, is_ascii_lines, is_line_bytes, is_printable_ascii,
    lemma_lines_as_bytes, lemma_lines_concat, lemma_one_line, lemma_printable_concat, same_text,
    slice_string,
};
use vstd::prelude::*;
use vstd::string::StrSliceExecFns;
use vstd::string::StringExecFns;
use vstd::utf8::encode_utf8;

verus! {

/// The headers that a response can carry besides `Allow`.
#[derive(Debug)]
pub struct ResponseHeaders {
    pub content_type: Option<ContentType>,
}

/// A response before it is written out.
#[derive(Debug)]
pub struct Response {
    pub body: Option<Vec<u8>>,
    pub headers: ResponseHeaders,
    pub status: Status,
}

/// What a response holds, as plain values.
pub struct ResponseView {
    pub status: u16,
    pub content_type: Option<ContentType>,
    pub body: Option<Seq<u8>>,
}

impl View for Response {
    type V = ResponseView;

    open spec fn view(&self) -> ResponseView {
        ResponseView {
            status: self.status@,
            content_type: self.headers.content_type,
            body: match self.body {
                Some(bytes) => Some(bytes@),
                None => None,
            },
        }
    }
}

impl ResponseView {
    /// A response carries a body only with status 200, and a content type
    /// exactly where it carries a body.
    pub open spec fn well_formed(self) -> bool {
        &&& self.body is Some ==> self.status == 200
        &&& self.content_type is Some <==> self.body is Some
    }

    /// The response that every decision starts from.
    pub open spec fn fresh() -> ResponseView {
        ResponseView { status: 200, content_type: None, body: None }
    }

    /// A response of this status with nothing else in it.
    pub open spec fn bare(status: u16) -> ResponseView {
        ResponseView { status, content_type: None, body: None }
    }
}

/// Why a file could not be read.
#[derive(Clone, Copy, Debug, PartialEq, Eq, Structural)]
pub enum ReadError {
    NotFound,
    PermissionDenied,
    Other,
}

/// What reading a file gave: its bytes, or why there are none.
pub open spec fn contents_view(contents: Result<Vec<u8>, ReadError>) -> Result<
    Seq<u8>,
    ReadError,
> {
    match contents {
        Ok(bytes) => Ok(bytes@),
        Err(e) => Err(e),
    }
}

/// The status that answers a failed read.
pub open spec fn error_status(e: ReadError) -> u16 {
    match e {
        ReadError::NotFound => 404,
        ReadError::PermissionDenied => 403,
        ReadError::Other => 500,
    }
}

/// The file that a request path names under a root: the two joined as they
/// stand.
pub open spec fn file_path(static_root: Seq<char>, path: Seq<char>) -> Seq<char> {
    static_root + path
}

/// What follows the last `.` of a path; nothing where the path has none.
pub open spec fn extension(path: Seq<char>) -> Seq<char> {
    let start = after_last(path, '.', path.len() as int);
    if start == 0 {
        Seq::empty()
    } else {
        path.subrange(start, path.len() as int)
    }
}

/// A response after the file at `file` was read for it.
pub open spec fn spec_add_file(
    before: ResponseView,
    file: Seq<char>,
    contents: Result<Seq<u8>, ReadError>,
) -> ResponseView {
    match contents {
        Ok(bytes) => ResponseView {
            status: before.status,
            content_type: Some(ContentType::spec_from_file_ext(extension(file))),
            body: Some(bytes),
        },
        Err(e) => ResponseView {
            status: error_status(e),
            content_type: before.content_type,
            body: before.body,
        },
    }
}

/// Whether a request asks for a file at all: only `GET` does.
pub open spec fn wants_file(method: Seq<char>) -> bool {
    method == "GET"@
}

/// The response to a request, given what reading its file gave.
pub open spec fn spec_build(
    method: Seq<char>,
    path: Seq<char>,
    static_root: Seq<char>,
    contents: Result<Seq<u8>, ReadError>,
) -> ResponseView {
    if wants_file(method) {
        spec_add_file(ResponseView::fresh(), file_path(static_root, path), contents)
    } else {
        ResponseView::bare(405)
    }
}

/// The first line of a response.
pub open spec fn status_line(status: u16) -> Seq<char> {
    "HTTP/1.0 "@ + decimal_digits(status) + " "@ + reason_text(status) + "\n"@
}

/// The line that announces the content type, where there is one.
pub open spec fn content_type_line(content_type: Option<ContentType>) -> Seq<char> {
    match content_type {
        Some(t) => "Content-type: "@ + t.spec_value() + "\n"@,
        None => Seq::empty(),
    }
}

/// The header lines of a response, each ended by one line feed.
pub open spec fn head_text(r: ResponseView) -> Seq<char> {
    status_line(r.status) + "Allow: GET\n"@ + content_type_line(r.content_type)
}

/// What follows the header lines: one empty line and the body, or nothing.
pub open spec fn body_part(body: Option<Seq<u8>>) -> Seq<u8> {
    match body {
        Some(bytes) => seq![10u8] + bytes,
        None => Seq::empty(),
    }
}

/// The bytes of a response on the wire.
pub open spec fn spec_format(r: ResponseView) -> Seq<u8> {
    encode_utf8(head_text(r)) + body_part(r.body)
}

/// What to do about a request before any file is touched.
#[derive(Debug)]
pub enum Plan {
    /// The response is settled.
    Respond(Response),
    /// The file of this path is to be read.
    ReadFile(String),
}

impl ResponseHeaders {
    /// Headers with no content type set.
    pub fn new() -> (r: ResponseHeaders)
        ensures
            r.content_type is None,
    {
        ResponseHeaders { content_type: None }
    }
}

impl Response {
    /// The response that every decision starts from: 200, no content type,
    /// no body.
    pub fn new() -> (r: Response)
        ensures
            r@ == ResponseView::fresh(),
            r@.well_formed(),
    {
        Response { body: None, headers: ResponseHeaders::new(), status: Status::ok() }
    }
}

/// The response to a line that is no request.
pub fn create_bad_request_response() -> (r: Response)
    ensures
        r@ == ResponseView::bare(400),
        r@.well_formed(),
{
    let mut response = Response::new();
    response.status = Status::bad_request();
    response
}

/// Joins root and request path into the path of the file to read.
pub fn resolve_path(path: &str, static_root: &str) -> (r: String)
    ensures
        r@ == file_path(static_root@, path@),
{
    String::from_str(static_root).concat(path)
}

/// The extension of a path.
pub fn file_extension(path: &str) -> (r: String)
    ensures
        r@ == extension(path@),
{
    let chars = chars_of(path);
    let start = find_after_last(&chars, '.');
    if start == 0 {
        String::new()
    } else {
        slice_string(path, start, chars.len())
    }
}

/// Decides whether a request can be answered at once or needs its file.
pub fn plan_response(request: &Request, static_root: &str) -> (r: Plan)
    ensures
        wants_file(request.method@) ==> (r matches Plan::ReadFile(file) && file@ == file_path(
            static_root@,
            request.path@,
        )),
        !wants_file(request.method@) ==> (r matches Plan::Respond(response) && response@
            == ResponseView::bare(405)),
{
    if same_text(request.method.as_str(), "GET") {
        Plan::ReadFile(resolve_path(request.path.as_str(), static_root))
    } else {
        let mut response = Response::new();
        response.status = Status::method_not_allowed();
        Plan::Respond(response)
    }
}

/// Enters into a response what reading the file at `path` gave: the bytes
/// and the content type that goes with the path's extension, or the status
/// that answers the failure.
pub fn add_file_to_response(
    path: &str,
    response: &mut Response,
    contents: Result<Vec<u8>, ReadError>,
)
    ensures
        final(response)@ == spec_add_file(old(response)@, path@, contents_view(contents)),
        old(response)@ == ResponseView::fresh() ==> final(response)@.well_formed(),
{
    match contents {
        Ok(bytes) => {
            let ext = file_extension(path);
            response.body = Some(bytes);
            response.headers.content_type = Some(ContentType::from_file_ext(ext.as_str()));
        },
        Err(e) => {
            response.status = match e {
                ReadError::NotFound => Status::not_found(),
                ReadError::PermissionDenied => Status::forbidden(),
                ReadError::Other => Status::internal_server_error(),
            };
        },
    }
}

/// Builds the response to a request. `contents` is what reading the file
/// `file_path(static_root, request.path)` gave; a request that is no `GET`
/// is answered without a look at it.
pub fn build_response(
    request: &Request,
    static_root: &str,
    contents: Result<Vec<u8>, ReadError>,
) -> (r: Response)
    ensures
        r@ == spec_build(request.method@, request.path@, static_root@, contents_view(contents)),
        r@.well_formed(),
        request.method@ != "GET"@ ==> r@ == ResponseView::bare(405),
        request.method@ == "GET"@ ==> match contents {
            Ok(bytes) => {
                &&& r@.status == 200
                &&& r@.body == Some(bytes@)
                &&& r@.content_type == Some(
                    ContentType::spec_from_file_ext(extension(static_root@ + request.path@)),
                )
            },
            Err(e) => r@ == ResponseView::bare(error_status(e)),
        },
        request.method@ == "GET"@ && (contents matches Err(ReadError::NotFound)) ==> r@
            == ResponseView::bare(404),
{
    match plan_response(request, static_root) {
        Plan::Respond(response) => response,
        Plan::ReadFile(file) => {
            let mut response = Response::new();
            add_file_to_response(file.as_str(), &mut response, contents);
            response
        },
    }
}

/// The header lines are whole lines of printable ASCII, none of them empty,
/// where the digits and the reason phrase of the status are printable.
pub proof fn lemma_head_text_lines(r: ResponseView)
    requires
        is_printable_ascii(decimal_digits(r.status)),
        is_printable_ascii(reason_text(r.status)),
    ensures
        is_ascii_lines(head_text(r)),
{
    reveal_strlit("HTTP/1.0 ");
    reveal_strlit(" ");
    reveal_strlit("\n");
    reveal_strlit("Allow: GET\n");
    reveal_strlit("Allow: GET");
    reveal_strlit("Content-type: ");
    let feed = seq!['\n'];
    assert("\n"@ =~= feed);
    let first = "HTTP/1.0 "@ + decimal_digits(r.status) + " "@ + reason_text(r.status);
    lemma_printable_concat("HTTP/1.0 "@, decimal_digits(r.status));
    lemma_printable_concat("HTTP/1.0 "@ + decimal_digits(r.status), " "@);
    lemma_printable_concat("HTTP/1.0 "@ + decimal_digits(r.status) + " "@, reason_text(r.status));
    lemma_one_line(first);
    assert(status_line(r.status) =~= first + feed);
    lemma_one_line("Allow: GET"@);
    assert("Allow: GET\n"@ =~= "Allow: GET"@ + feed);
    lemma_lines_concat(status_line(r.status), "Allow: GET\n"@);
    match r.content_type {
        Some(t) => {
            reveal_strlit("text/css");
            reveal_strlit("image/gif");
            reveal_strlit("text/html");
            reveal_strlit("image/jpeg");
            reveal_strlit("image/png");
            reveal_strlit("image/svg+xml");
            reveal_strlit("text/plain");
            reveal_strlit("application/xml");
            assert(is_printable_ascii(t.spec_value()));
            lemma_printable_concat("Content-type: "@, t.spec_value());
            lemma_one_line("Content-type: "@ + t.spec_value());
            assert(content_type_line(r.content_type) =~= "Content-type: "@ + t.spec_value()
                + feed);
        },
        None => {},
    }
    lemma_lines_concat(
        status_line(r.status) + "Allow: GET\n"@,
        content_type_line(r.content_type),
    );
}

/// Writes a response out: the status line, `Allow: GET`, the content type
/// where one is set, and, where there is a body, one empty line and the
/// body's bytes.
///
/// The header lines hold no empty line. So without a body the bytes hold
/// none and end with the line feed of the last header line, and with a body
/// the first empty line is the one before the body.
pub fn format_response(response: Response) -> (r: Vec<u8>)
    ensures
        r@ == spec_format(response@),
        is_ascii_lines(head_text(response@)),
        is_line_bytes(encode_utf8(head_text(response@))),
        encode_utf8(head_text(response@)).len() == head_text(response@).len() > 0,
        response.body is None ==> r@ == encode_utf8(head_text(response@)) && is_line_bytes(r@),
        response.body matches Some(body) ==> r@ == encode_utf8(head_text(response@)) + seq![10u8]
            + body@,
{
    let reason = match response.status.canonical_reason() {
        Some(reason) => reason,
        None => "",
    };
    proof {
        reveal_strlit("");
        assert(reason@ =~= reason_text(response.status@));
    }
    let digits = response.status.as_str();
    proof {
        lemma_head_text_lines(response@);
        lemma_lines_as_bytes(head_text(response@));
        reveal_strlit("Allow: GET\n");
        assert(head_text(response@).len() >= "Allow: GET\n"@.len());
    }
    let mut result = String::from_str("HTTP/1.0 ");
    result.append(digits.as_str());
    result.append(" ");
    result.append(reason);
    result.append("\n");
    result.append("Allow: GET\n");
    match response.headers.content_type {
        Some(content_type) => {
            result.append("Content-type: ");
            result.append(content_type.value());
            result.append("\n");
        },
        None => {},
    }
    assert(result@ =~= head_text(response@));
    let mut bytes = result.as_str().as_bytes_vec();
    match response.body {
        Some(mut body) => {
            bytes.push(10u8);
            bytes.append(&mut body);
        },
        None => {},
    }
    assert(bytes@ =~= spec_format(response@));
    bytes
}

/// Writing out depends on what the response holds and on nothing else.
pub proof fn lemma_format_deterministic(a: Response, b: Response)
    requires
        a@ == b@,
    ensures
        spec_format(a@) == spec_format(b@),
{
}

/// A body adds to the bytes of the same response without it one line feed
/// and then its own bytes, whatever the status and the content type; without
/// a body the bytes end with the header lines.
pub proof fn lemma_format_body(r: ResponseView, body: Seq<u8>)
    ensures
        spec_format(ResponseView { body: None, ..r }) == encode_utf8(
            head_text(ResponseView { body: None, ..r }),
        ),
        spec_format(ResponseView { body: Some(body), ..r }) == spec_format(
            ResponseView { body: None, ..r },
        ) + seq![10u8] + body,
        spec_format(ResponseView { body: Some(body), ..r }).len() == spec_format(
            ResponseView { body: None, ..r },
        ).len() + 1 + body.len(),
{
    let without = ResponseView { body: None, ..r };
    let with = ResponseView { body: Some(body), ..r };
    assert(head_text(with) == head_text(without));
    assert(spec_format(without) =~= encode_utf8(head_text(without)));
    assert(spec_format(with) =~= spec_format(without) + seq![10u8] + body);
}

} // verus!
