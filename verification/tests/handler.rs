use rust_http_server::handler::{
    begin, begin_at, finish, log_bad_request, log_request, reply_to_bad_request, reply_to_request,
    Step,
};
use rust_http_server::request::Request;
use rust_http_server::response::{build_response, create_bad_request_response, ReadError};

fn answer(line: &str, root: &str, contents: Result<Vec<u8>, ReadError>) -> (String, Vec<u8>) {
    let time = String::from("2024-05-06 07:08:09.000000010 +02:00");
    let reply = match begin_at(line, time, root) {
        Step::Done(reply) => reply,
        Step::Read(request, _) => finish(&request, root, contents),
    };
    (reply.log, reply.bytes)
}

#[test]
fn log_line_of_a_request() {
    let request = Request {
        http_version: String::from("HTTP/1.0"),
        method: String::from("GET"),
        path: String::from("/a b"),
        time: String::from("T"),
    };
    let response = build_response(&request, "/r", Err(ReadError::PermissionDenied));
    assert_eq!(log_request(&request, &response), "[T] \"GET /a b HTTP/1.0\" 403");
}

#[test]
fn log_line_of_a_bad_request_holds_the_raw_text() {
    assert_eq!(log_bad_request("BADLINE\n"), "Malformed request: BADLINE\n");
    assert_eq!(log_bad_request(""), "Malformed request: ");
}

#[test]
fn served_file() {
    let (log, bytes) = answer("GET /index.html HTTP/1.0\n", "/static", Ok(b"hi".to_vec()));
    assert_eq!(
        bytes,
        b"HTTP/1.0 200 OK\nAllow: GET\nContent-type: text/html\n\nhi".to_vec()
    );
    assert_eq!(
        log,
        "[2024-05-06 07:08:09.000000010 +02:00] \"GET /index.html HTTP/1.0\" 200"
    );
}

#[test]
fn missing_file() {
    let (log, bytes) = answer("GET /missing.png HTTP/1.0\n", "/static", Err(ReadError::NotFound));
    assert_eq!(bytes, b"HTTP/1.0 404 Not Found\nAllow: GET\n".to_vec());
    assert!(log.ends_with("\"GET /missing.png HTTP/1.0\" 404"));
}

#[test]
fn method_not_allowed() {
    let (log, bytes) = answer("POST /x HTTP/1.0\n", "/static", Ok(b"never sent".to_vec()));
    assert_eq!(bytes, b"HTTP/1.0 405 Method Not Allowed\nAllow: GET\n".to_vec());
    assert!(log.ends_with("\"POST /x HTTP/1.0\" 405"));
}

#[test]
fn bad_line() {
    let (log, bytes) = answer("BADLINE\n", "/static", Ok(b"never sent".to_vec()));
    assert_eq!(bytes, b"HTTP/1.0 400 Bad Request\nAllow: GET\n".to_vec());
    assert!(log.contains("BADLINE"));
    let response = create_bad_request_response();
    assert_eq!(response.status.as_u16(), 400);
    assert!(response.body.is_none());
    assert!(response.headers.content_type.is_none());
}

#[test]
fn begin_asks_for_the_file_of_a_get() {
    match begin_at("GET /a.css HTTP/1.0\r\n", String::from("T"), "/root") {
        Step::Read(request, file) => {
            assert_eq!(file, "/root/a.css");
            assert_eq!(request.method, "GET");
            assert_eq!(request.path, "/a.css");
            assert_eq!(request.http_version, "HTTP/1.0");
            assert_eq!(request.time, "T");
        }
        Step::Done(_) => panic!("a GET needs its file"),
    }
}

#[test]
fn begin_settles_what_needs_no_file() {
    match begin_at("PUT /a.css HTTP/1.0\n", String::from("T"), "/root") {
        Step::Done(reply) => {
            assert_eq!(reply.log, "[T] \"PUT /a.css HTTP/1.0\" 405");
            assert_eq!(reply.bytes, b"HTTP/1.0 405 Method Not Allowed\nAllow: GET\n".to_vec());
        }
        Step::Read(_, _) => panic!("a PUT reads nothing"),
    }
    match begin_at("GET  HTTP/1.0\n", String::from("T"), "/root") {
        Step::Done(reply) => {
            assert_eq!(reply.log, "Malformed request: GET  HTTP/1.0\n");
            assert_eq!(reply.bytes, b"HTTP/1.0 400 Bad Request\nAllow: GET\n".to_vec());
        }
        Step::Read(_, _) => panic!("a line without a path reads nothing"),
    }
}

#[test]
fn begin_with_the_clock_decides_the_same() {
    match begin("GET /a.css HTTP/1.0\n", "/root") {
        Step::Read(request, file) => {
            assert_eq!(file, "/root/a.css");
            assert!(!request.time.is_empty());
        }
        Step::Done(_) => panic!("a GET needs its file"),
    }
    match begin("POST /x HTTP/1.0\n", "/root") {
        Step::Done(reply) => {
            assert!(reply.log.starts_with("["));
            assert!(reply.log.ends_with("] \"POST /x HTTP/1.0\" 405"));
        }
        Step::Read(_, _) => panic!("a POST reads nothing"),
    }
    match begin("BADLINE\n", "/root") {
        Step::Done(reply) => assert_eq!(reply.log, "Malformed request: BADLINE\n"),
        Step::Read(_, _) => panic!("a bad line reads nothing"),
    }
}

#[test]
fn finish_answers_by_what_the_read_gave() {
    let request = Request {
        http_version: String::from("HTTP/1.0"),
        method: String::from("GET"),
        path: String::from("/a.xml"),
        time: String::from("T"),
    };
    let reply = finish(&request, "/r", Ok(b"<a/>".to_vec()));
    assert_eq!(
        reply.bytes,
        b"HTTP/1.0 200 OK\nAllow: GET\nContent-type: application/xml\n\n<a/>".to_vec()
    );
    assert_eq!(reply.log, "[T] \"GET /a.xml HTTP/1.0\" 200");
    let reply = finish(&request, "/r", Err(ReadError::Other));
    assert_eq!(reply.bytes, b"HTTP/1.0 500 Internal Server Error\nAllow: GET\n".to_vec());
    assert_eq!(reply.log, "[T] \"GET /a.xml HTTP/1.0\" 500");
}

#[test]
fn replies_pair_the_log_line_with_the_bytes() {
    let reply = reply_to_bad_request("x y");
    assert_eq!(reply.log, "Malformed request: x y");
    assert_eq!(reply.bytes, b"HTTP/1.0 400 Bad Request\nAllow: GET\n".to_vec());
    let request = Request {
        http_version: String::from("HTTP/1.0"),
        method: String::from("GET"),
        path: String::from("/gone"),
        time: String::from("T"),
    };
    let response = build_response(&request, "/r", Err(ReadError::NotFound));
    let reply = reply_to_request(&request, response);
    assert_eq!(reply.log, "[T] \"GET /gone HTTP/1.0\" 404");
    assert_eq!(reply.bytes, b"HTTP/1.0 404 Not Found\nAllow: GET\n".to_vec());
}
