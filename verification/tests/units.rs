//! Unit tests for the pipeline's pieces: content-type inference, path
//! resolution, request parsing, and error-page naming.

use fileserver::content_type::get_content_type;
use fileserver::request::parse_request;
use fileserver::request::ParseError;
use fileserver::resolve::resolve_path;
use fileserver::resolve::Resolution;
use fileserver::response::error_page_name;
use fileserver::response::error_response;
use fileserver::response::Status;

fn bytes(s: &str) -> Vec<u8> {
    s.as_bytes().to_vec()
}

#[test]
fn content_type_table() {
    let cases = [
        ("index.html", "text/html"),
        ("style.css", "text/css"),
        ("app.js", "application/javascript"),
        ("logo.png", "image/png"),
        ("photo.jpg", "image/jpeg"),
        ("photo.jpeg", "image/jpeg"),
        ("anim.gif", "image/gif"),
        ("icon.svg", "image/svg+xml"),
        ("favicon.ico", "image/x-icon"),
        ("notes.txt", "text/plain"),
        ("paper.pdf", "application/pdf"),
        ("archive.tar.gz", "application/octet-stream"),
        ("noextension", "application/octet-stream"),
        ("", "application/octet-stream"),
    ];
    for (name, expected) in cases {
        assert_eq!(get_content_type(&bytes(name)), bytes(expected), "{}", name);
    }
}

#[test]
fn suffix_match_is_case_sensitive() {
    assert_eq!(
        get_content_type(&bytes("INDEX.HTML")),
        bytes("application/octet-stream")
    );
}

#[test]
fn resolve_strips_one_leading_slash() {
    match resolve_path(&bytes("/sub/dir/file.txt")) {
        Resolution::Target(f) => assert_eq!(f, bytes("sub/dir/file.txt")),
        Resolution::Traversal => panic!("clean path must resolve"),
    }
}

#[test]
fn resolve_substitutes_index_for_root() {
    match resolve_path(&bytes("/")) {
        Resolution::Target(f) => assert_eq!(f, bytes("index.html")),
        Resolution::Traversal => panic!("root must resolve"),
    }
}

#[test]
fn resolve_refuses_dotdot() {
    assert!(matches!(resolve_path(&bytes("/../etc/passwd")), Resolution::Traversal));
    assert!(matches!(resolve_path(&bytes("/a/../b")), Resolution::Traversal));
    assert!(matches!(resolve_path(&bytes("/a..")), Resolution::Traversal));
    assert!(matches!(resolve_path(&bytes("..")), Resolution::Traversal));
}

#[test]
fn resolve_keeps_single_dots() {
    match resolve_path(&bytes("/a.b/c.txt")) {
        Resolution::Target(f) => assert_eq!(f, bytes("a.b/c.txt")),
        Resolution::Traversal => panic!("single dots are not traversal"),
    }
}

#[test]
fn parse_splits_method_and_target() {
    let lines = vec![bytes("GET /x HTTP/1.1"), bytes("Host: h")];
    let req = match parse_request(&lines) {
        Ok(req) => req,
        Err(_) => panic!("well-formed request must parse"),
    };
    assert_eq!(req.method, bytes("GET"));
    assert_eq!(req.path, bytes("/x"));
    assert_eq!(req.headers, vec![bytes("Host: h")]);
}

#[test]
fn parse_rejects_short_request_line() {
    assert!(matches!(
        parse_request(&vec![bytes("GET")]),
        Err(ParseError::Malformed)
    ));
    assert!(matches!(
        parse_request(&vec![bytes("")]),
        Err(ParseError::Malformed)
    ));
}

#[test]
fn parse_reports_premature_close() {
    assert!(matches!(parse_request(&Vec::new()), Err(ParseError::IoFailure)));
}

#[test]
fn parse_tolerates_extra_spaces() {
    let req = match parse_request(&vec![bytes("  GET   /x   HTTP/1.1  ")]) {
        Ok(req) => req,
        Err(_) => panic!("well-formed request must parse"),
    };
    assert_eq!(req.method, bytes("GET"));
    assert_eq!(req.path, bytes("/x"));
}

#[test]
fn error_pages_are_named_by_code() {
    assert_eq!(error_page_name(Status::NotFound), bytes("404.html"));
    assert_eq!(error_page_name(Status::Forbidden), bytes("403.html"));
    assert_eq!(error_page_name(Status::BadRequest), bytes("400.html"));
    assert_eq!(error_page_name(Status::MethodNotAllowed), bytes("405.html"));
    assert_eq!(error_page_name(Status::InternalError), bytes("500.html"));
}

#[test]
fn error_response_default_bodies() {
    let cases = [
        (Status::BadRequest, "400 Bad Request", "Bad Request"),
        (Status::Forbidden, "403 Forbidden", "Directory traversal not allowed"),
        (Status::NotFound, "404 Not Found", "File Not Found"),
        (Status::MethodNotAllowed, "405 Method Not Allowed", "Method Not Allowed"),
        (Status::InternalError, "500 Internal Server Error", "Error reading file"),
    ];
    for (status, line, body) in cases {
        let expected = format!(
            "HTTP/1.1 {}\r\nContent-Type: text/plain\r\nContent-Length: {}\r\nConnection: close\r\n\r\n{}",
            line,
            body.len(),
            body
        );
        assert_eq!(error_response(status, None), bytes(&expected));
    }
}

#[test]
fn error_response_serves_custom_page_as_html() {
    let page = bytes("<h1>custom</h1>");
    let got = error_response(Status::Forbidden, Some(page.clone()));
    let expected = format!(
        "HTTP/1.1 403 Forbidden\r\nContent-Type: text/html\r\nContent-Length: {}\r\nConnection: close\r\n\r\n<h1>custom</h1>",
        page.len()
    );
    assert_eq!(got, bytes(&expected));
}
