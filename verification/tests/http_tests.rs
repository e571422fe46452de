//! Tests for the wire types, the request parser, and the serializer.

use aerielle::header::Header;
use aerielle::method::Method;
use aerielle::request::{NeedInput, ParseError, RequestParser};
use aerielle::response::Response;
use aerielle::serialize::serialize_response;
use aerielle::status::Status;

fn parse_simple(lines: &[&str], body: &[u8]) -> Result<aerielle::request::Request, ParseError> {
    let mut parser = RequestParser::new();
    for line in lines {
        parser = parser.feed_line(line.to_string())?;
    }
    parser = parser.feed_body(body.to_vec())?;
    Ok(parser.into_request())
}

#[test]
fn method_tokens_round_trip() {
    let tokens = [
        "GET", "HEAD", "POST", "PUT", "DELETE", "CONNECT", "OPTIONS", "TRACE", "PATCH",
    ];
    for t in tokens {
        let m = Method::parse(t).expect("known method token");
        assert_eq!(m.name(), *t);
    }
    assert!(Method::parse("BREW").is_none());
    assert!(Method::parse("get").is_none());
}

#[test]
fn status_codes_and_reasons() {
    assert_eq!(Status::OK.code(), 200);
    assert_eq!(Status::OK.reason(), "OK");
    assert_eq!(Status::NotFound.code(), 404);
    assert_eq!(Status::NotFound.reason(), "Not Found");
    assert_eq!(Status::InternalServerError.code(), 500);
    assert_eq!(Status::InternalServerError.reason(), "Internal Server Error");
    assert_eq!(Status::ImATeapot.code(), 418);
    assert_eq!(Status::ImATeapot.reason(), "I'm a teapot");
}

#[test]
fn header_parses_at_first_separator() {
    let h = Header::from_line("Content-Type: text/html\r\n").expect("well-formed header");
    assert_eq!(h.key(), "Content-Type");
    assert_eq!(h.value(), "text/html");

    let h = Header::from_line("X-Note: a: b\r\n").expect("well-formed header");
    assert_eq!(h.key(), "X-Note");
    assert_eq!(h.value(), "a: b");
}

#[test]
fn header_empty_line_gives_empty_header() {
    let h = Header::from_line("").expect("empty line yields the sentinel header");
    assert_eq!(h.key(), "");
    assert_eq!(h.value(), "");
}

#[test]
fn header_without_separator_is_malformed() {
    assert!(Header::from_line("no separator here\r\n").is_none());
    assert!(Header::from_line("\n").is_none());
}

#[test]
fn header_round_trip_preserves_key_and_value() {
    let original = Header::new("Accept".to_string(), "text/plain; q=0.5".to_string());
    let wire = original.line();
    assert_eq!(wire, "Accept: text/plain; q=0.5");
    let parsed = Header::from_line(&wire).expect("serialized header parses");
    assert_eq!(parsed.key(), original.key());
    assert_eq!(parsed.value(), original.value());
    assert_eq!(parsed.line(), wire);
}

#[test]
fn response_content_length_is_byte_length() {
    let r = Response::new(Status::OK, "hello".to_string());
    assert_eq!(r.headers.len(), 1);
    assert_eq!(r.headers[0].key(), "Content-Length");
    assert_eq!(r.headers[0].value(), "5");

    // Byte length, not character count.
    let r = Response::new(Status::OK, "héllo".to_string());
    assert_eq!(r.headers[0].value(), "6");
}

#[test]
fn response_content_length_survives_later_headers() {
    let mut r = Response::new(Status::OK, "hi".to_string());
    r.add_header(Header::new("X-Extra".to_string(), "yes".to_string()));
    assert_eq!(r.headers[0].key(), "Content-Length");
    assert_eq!(r.headers[0].value(), "2");
    assert_eq!(r.headers[1].key(), "X-Extra");
}

#[test]
fn bare_error_responses() {
    let r = Response::server_error();
    assert_eq!(r.status, Status::InternalServerError);
    assert_eq!(r.body, "");
    let r = Response::not_found();
    assert_eq!(r.status, Status::NotFound);
    assert_eq!(r.body, "");
}

#[test]
fn serializer_renders_exact_wire_text() {
    let r = Response::new(Status::OK, "hi".to_string());
    let text = serialize_response("1.1", &r);
    assert_eq!(text, "HTTP/1.1 200 OK\r\nContent-Length: 2\r\n\r\nhi");
}

#[test]
fn serializer_joins_headers_without_trailing_separator() {
    let mut r = Response::new(Status::NotFound, "gone".to_string());
    r.add_header(Header::new("X-Why".to_string(), "missing".to_string()));
    let text = serialize_response("1.1", &r);
    assert_eq!(
        text,
        "HTTP/1.1 404 Not Found\r\nContent-Length: 4\r\nX-Why: missing\r\n\r\ngone"
    );
}

#[test]
fn serializer_echoes_declared_version() {
    let r = Response::new(Status::OK, String::new());
    let text = serialize_response("1.0", &r);
    assert!(text.starts_with("HTTP/1.0 200 OK\r\n"));
    let text = serialize_response("2.0", &r);
    assert!(text.starts_with("HTTP/2.0 200 OK\r\n"));
}

#[test]
fn parser_reads_a_full_request() {
    let request = parse_simple(
        &[
            "POST /submit HTTP/1.1\r\n",
            "Content-Length: 5\r\n",
            "X-Note: hi\r\n",
            "\r\n",
        ],
        b"hello",
    )
    .expect("well-formed request");
    assert_eq!(request.method, Method::POST);
    assert_eq!(request.url, "/submit");
    assert_eq!(request.version, "1.1");
    assert_eq!(request.body, "hello");
    assert_eq!(request.headers.len(), 2);
    assert_eq!(request.headers[0].key(), "Content-Length");
    assert_eq!(request.headers[1].key(), "X-Note");
    assert_eq!(request.summary(), "POST /submit");
}

#[test]
fn parser_announces_what_it_needs() {
    let parser = RequestParser::new();
    assert_eq!(parser.need(), NeedInput::Line);
    let parser = parser.feed_line("GET / HTTP/1.1\r\n".to_string()).unwrap();
    assert_eq!(parser.need(), NeedInput::Line);
    let parser = parser.feed_line("Content-Length: 3\r\n".to_string()).unwrap();
    let parser = parser.feed_line("\r\n".to_string()).unwrap();
    assert_eq!(parser.need(), NeedInput::Body(3));
    let parser = parser.feed_body(b"abc".to_vec()).unwrap();
    assert_eq!(parser.need(), NeedInput::Done);
}

#[test]
fn parser_empty_first_read_gives_default_request() {
    let request = parse_simple(&["", "\r\n"], b"").expect("default request");
    assert_eq!(request.method, Method::GET);
    assert_eq!(request.url, "/");
    assert_eq!(request.version, "1.1");
    assert_eq!(request.body, "");
}

#[test]
fn parser_rejects_malformed_request_lines() {
    for line in [
        "FROB / HTTP/1.1\r\n",
        "get / HTTP/1.1\r\n",
        "GET a HTTP/1.1\r\n",
        "GET / HTTP/11\r\n",
        "GET / HTTP/1.1 extra\r\n",
        "GET  / HTTP/1.1\r\n",
        "GET /\r\n",
        "\r\n",
    ] {
        let r = RequestParser::new().feed_line(line.to_string());
        match r {
            Err(ParseError::MalformedRequestLine(l)) => assert_eq!(l, *line),
            _ => panic!("expected a malformed request line for {:?}", line),
        }
    }
}

#[test]
fn parser_accepts_every_line_terminator() {
    for line in ["GET / HTTP/1.1", "GET / HTTP/1.1\n", "GET / HTTP/1.1\r\n", "GET / HTTP/1.1\r"] {
        let r = RequestParser::new().feed_line(line.to_string());
        assert!(r.is_ok(), "terminator variant rejected: {:?}", line);
    }
}

#[test]
fn parser_rejects_malformed_headers() {
    let parser = RequestParser::new()
        .feed_line("GET / HTTP/1.1\r\n".to_string())
        .unwrap();
    match parser.feed_line("broken\r\n".to_string()) {
        Err(ParseError::MalformedHeader(l)) => assert_eq!(l, "broken\r\n"),
        _ => panic!("expected a malformed header"),
    }
}

#[test]
fn parser_defaults_bad_content_length_to_zero() {
    let parser = RequestParser::new()
        .feed_line("GET / HTTP/1.1\r\n".to_string())
        .unwrap()
        .feed_line("Content-Length: abc\r\n".to_string())
        .unwrap()
        .feed_line("\r\n".to_string())
        .unwrap();
    assert_eq!(parser.need(), NeedInput::Body(0));

    let parser = RequestParser::new()
        .feed_line("GET / HTTP/1.1\r\n".to_string())
        .unwrap()
        .feed_line("Content-Length: 99999999999999999999999999\r\n".to_string())
        .unwrap()
        .feed_line("\r\n".to_string())
        .unwrap();
    assert_eq!(parser.need(), NeedInput::Body(0));
}

#[test]
fn parser_takes_last_content_length() {
    let parser = RequestParser::new()
        .feed_line("GET / HTTP/1.1\r\n".to_string())
        .unwrap()
        .feed_line("Content-Length: 7\r\n".to_string())
        .unwrap()
        .feed_line("Content-Length: 2\r\n".to_string())
        .unwrap()
        .feed_line("\r\n".to_string())
        .unwrap();
    assert_eq!(parser.need(), NeedInput::Body(2));
}

#[test]
fn parser_decodes_utf8_bodies_and_rejects_others() {
    let request = parse_simple(
        &["POST / HTTP/1.1\r\n", "Content-Length: 6\r\n", "\r\n"],
        "héllo".as_bytes(),
    )
    .expect("valid UTF-8 body");
    assert_eq!(request.body, "héllo");

    let parser = RequestParser::new()
        .feed_line("POST / HTTP/1.1\r\n".to_string())
        .unwrap()
        .feed_line("Content-Length: 2\r\n".to_string())
        .unwrap()
        .feed_line("\r\n".to_string())
        .unwrap();
    assert!(matches!(
        parser.feed_body(vec![0xff, 0xfe]),
        Err(ParseError::BodyNotUtf8)
    ));
}

#[test]
fn parser_accepts_paths_with_query_and_fragment() {
    let request = parse_simple(
        &["GET /items?id=3&sort=asc#top HTTP/1.1\r\n", "\r\n"],
        b"",
    )
    .expect("path characters accepted");
    assert_eq!(request.url, "/items?id=3&sort=asc#top");
}
