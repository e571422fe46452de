//! Tests for routing, the dispatch pipeline with its status overrides,
//! static file resolution, and template rendering.

use aerielle::handler::FixedHandler;
use aerielle::method::Method;
use aerielle::request::Request;
use aerielle::response::Response;
use aerielle::serialize::serialize_response;
use aerielle::server::{HandleOutcome, RouteDecision, WebServer};
use aerielle::status::Status;

fn get(url: &str) -> Request {
    Request {
        method: Method::GET,
        url: url.to_string(),
        version: "1.1".to_string(),
        headers: Vec::new(),
        body: String::new(),
    }
}

fn fixed(status: Status, body: &str) -> FixedHandler {
    FixedHandler::new(status, body.to_string())
}

fn ready(out: HandleOutcome) -> Response {
    match out {
        HandleOutcome::Ready(r) => r,
        other => panic!("expected a finished response, got {:?}", other),
    }
}

#[test]
fn route_matching_is_order_deterministic() {
    let mut server: WebServer<FixedHandler> = WebServer::new();
    server.disable_static();
    server.add_path("/a.*", fixed(Status::OK, "first")).unwrap();
    server.add_path("/ab", fixed(Status::OK, "second")).unwrap();
    let resp = ready(server.handle(&get("/ab")));
    assert_eq!(resp.body, "first");
}

#[test]
fn route_patterns_are_anchored_regular_expressions() {
    let mut server: WebServer<FixedHandler> = WebServer::new();
    server.disable_static();
    server.add_path("/item/[0-9]+", fixed(Status::OK, "digits")).unwrap();
    assert_eq!(ready(server.handle(&get("/item/42"))).body, "digits");
    // Anchoring: a proper prefix or superstring of the path must not match.
    let resp = ready(server.handle(&get("/item/42/edit")));
    assert_eq!(resp.status, Status::NotFound);
    let resp = ready(server.handle(&get("/item/x")));
    assert_eq!(resp.status, Status::NotFound);
}

#[test]
fn malformed_patterns_are_refused_at_registration() {
    let mut server: WebServer<FixedHandler> = WebServer::new();
    assert!(server.add_path("(", fixed(Status::OK, "x")).is_err());
    assert!(server.add_path("/fine", fixed(Status::OK, "x")).is_ok());
}

#[test]
fn hello_scenario_end_to_end() {
    let mut server: WebServer<FixedHandler> = WebServer::new();
    server.disable_static();
    server.add_path("/hello", fixed(Status::OK, "hi")).unwrap();
    let request = get("/hello");
    let resp = ready(server.handle(&request));
    assert_eq!(resp.status, Status::OK);
    assert_eq!(resp.body, "hi");
    let text = serialize_response(&request.version, &resp);
    assert_eq!(text, "HTTP/1.1 200 OK\r\nContent-Length: 2\r\n\r\nhi");
}

#[test]
fn unregistered_path_yields_not_found_output() {
    let mut server: WebServer<FixedHandler> = WebServer::new();
    server.disable_static();
    server.add_path("/hello", fixed(Status::OK, "hi")).unwrap();
    let resp = ready(server.handle(&get("/missing")));
    assert_eq!(resp.status, Status::NotFound);
    assert_eq!(resp.body, "<h1>404 Not Found</h1>");

    server.set_not_found_error(fixed(Status::NotFound, "custom not found"));
    let resp = ready(server.handle(&get("/missing")));
    assert_eq!(resp.body, "custom not found");
}

#[test]
fn server_error_status_substitutes_configured_handler() {
    let mut server: WebServer<FixedHandler> = WebServer::new();
    server.disable_static();
    server.add_path("/boom", fixed(Status::InternalServerError, "handler body")).unwrap();

    // Built-in override first.
    let resp = ready(server.handle(&get("/boom")));
    assert_eq!(resp.status, Status::InternalServerError);
    assert_eq!(resp.body, "<h1>500 Server Error</h1>");

    // The currently configured override wins, whatever the handler's body.
    server.set_server_error(fixed(Status::ImATeapot, "custom error page"));
    let resp = ready(server.handle(&get("/boom")));
    assert_eq!(resp.status, Status::ImATeapot);
    assert_eq!(resp.body, "custom error page");
}

#[test]
fn not_found_status_substitutes_configured_handler() {
    let mut server: WebServer<FixedHandler> = WebServer::new();
    server.disable_static();
    server.add_path("/gone", fixed(Status::NotFound, "handler body")).unwrap();
    server.set_not_found_error(fixed(Status::NotFound, "the 404 page"));
    let resp = ready(server.handle(&get("/gone")));
    assert_eq!(resp.body, "the 404 page");
}

#[test]
fn other_statuses_pass_through_unchanged() {
    let mut server: WebServer<FixedHandler> = WebServer::new();
    server.disable_static();
    server.add_path("/made", fixed(Status::Created, "made it")).unwrap();
    server.set_server_error(fixed(Status::ImATeapot, "nope"));
    let resp = ready(server.handle(&get("/made")));
    assert_eq!(resp.status, Status::Created);
    assert_eq!(resp.body, "made it");
}

#[test]
fn static_urls_take_the_static_path() {
    let server: WebServer<FixedHandler> = WebServer::new();
    match server.route("/static/app.css") {
        RouteDecision::StaticFile(rel) => assert_eq!(rel, "app.css"),
        other => panic!("expected the static path, got {:?}", other),
    }
    match server.route("/static/css/app.css") {
        RouteDecision::StaticFile(rel) => assert_eq!(rel, "css/app.css"),
        other => panic!("expected the static path, got {:?}", other),
    }
}

#[test]
fn static_prefix_is_stripped_repeatedly() {
    let server: WebServer<FixedHandler> = WebServer::new();
    match server.route("/static/static/app.css") {
        RouteDecision::StaticFile(rel) => assert_eq!(rel, "app.css"),
        other => panic!("expected the static path, got {:?}", other),
    }
}

#[test]
fn static_paths_translate_separators() {
    let mut server: WebServer<FixedHandler> = WebServer::new();
    server.set_path_separator('\\');
    match server.route("/static/css/app.css") {
        RouteDecision::StaticFile(rel) => assert_eq!(rel, "css\\app.css"),
        other => panic!("expected the static path, got {:?}", other),
    }
}

#[test]
fn static_disabled_is_a_configuration_error() {
    let mut server: WebServer<FixedHandler> = WebServer::new();
    server.disable_static();
    server.set_static_url("/static".to_string());
    assert!(!server.static_enabled());
    assert!(matches!(
        server.handle(&get("/static/app.css")),
        HandleOutcome::StaticDisabled
    ));
    server.set_static_dir("assets".to_string());
    assert!(server.static_enabled());
    assert!(matches!(
        server.handle(&get("/static/app.css")),
        HandleOutcome::Static(_)
    ));
}

#[test]
fn static_css_file_is_served_as_css() {
    let server: WebServer<FixedHandler> = WebServer::new();
    let request = get("/static/app.css");
    let rel = match server.handle(&request) {
        HandleOutcome::Static(rel) => rel,
        other => panic!("expected the static path, got {:?}", other),
    };
    assert_eq!(rel, "app.css");
    let content = "body { color: red; }";
    let resp = server.static_response(&request, &rel, Some(content.to_string()));
    assert_eq!(resp.status, Status::OK);
    assert_eq!(resp.body, content);
    assert_eq!(resp.headers[0].key(), "Content-Type");
    assert_eq!(resp.headers[0].value(), "text/css");
    assert_eq!(resp.headers[1].key(), "Content-Length");
    assert_eq!(resp.headers[1].value(), "20");
}

#[test]
fn missing_static_file_hits_the_not_found_override() {
    let mut server: WebServer<FixedHandler> = WebServer::new();
    let request = get("/static/app.css");
    let resp = server.static_response(&request, "app.css", None);
    assert_eq!(resp.status, Status::NotFound);
    assert_eq!(resp.body, "<h1>404 Not Found</h1>");

    server.set_not_found_error(fixed(Status::NotFound, "no such asset"));
    let resp = server.static_response(&request, "app.css", None);
    assert_eq!(resp.body, "no such asset");
}

#[test]
fn static_content_types_follow_extensions() {
    let server: WebServer<FixedHandler> = WebServer::new();
    let request = get("/static/x");
    let cases = [
        ("app.css", "text/css"),
        ("app.js", "application/javascript"),
        ("app.ts", "application/javascript"),
        ("index.html", "text/html"),
        ("README", "text/html"),
        (".css", "text/html"),
        ("lib/archive.tar.css", "text/css"),
    ];
    for (rel, expected) in cases {
        let resp = server.static_response(&request, rel, Some("x".to_string()));
        assert_eq!(resp.headers[0].value(), expected, "for {:?}", rel);
    }
}

#[test]
fn render_serves_template_output_as_html() {
    let mut server: WebServer<FixedHandler> = WebServer::new();
    assert!(server.add_template_source(
        "index.html".to_string(),
        "Hello {{ name }}!".to_string()
    ));
    let context = vec![("name".to_string(), "world".to_string())];
    let resp = server.render("index.html", &context);
    assert_eq!(resp.status, Status::OK);
    assert_eq!(resp.body, "Hello world!");
    assert_eq!(resp.headers[0].key(), "Content-Length");
    assert_eq!(resp.headers[0].value(), "12");
    assert_eq!(resp.headers[1].key(), "Content-Type");
    assert_eq!(resp.headers[1].value(), "text/html");
}

#[test]
fn render_failure_becomes_server_error_response() {
    let server: WebServer<FixedHandler> = WebServer::new();
    let resp = server.render("missing.html", &Vec::new());
    assert_eq!(resp.status, Status::InternalServerError);
    assert_eq!(resp.body, "");
}

#[test]
fn bad_template_source_is_refused() {
    let mut server: WebServer<FixedHandler> = WebServer::new();
    assert!(!server.add_template_source("bad.html".to_string(), "{% if %}".to_string()));
}

#[test]
fn builtin_handlers_have_minimal_bodies() {
    let request = get("/");
    let resp = WebServer::<FixedHandler>::server_error(&request);
    assert_eq!(resp.status, Status::InternalServerError);
    assert_eq!(resp.body, "<h1>500 Server Error</h1>");
    let resp = WebServer::<FixedHandler>::not_found(&request);
    assert_eq!(resp.status, Status::NotFound);
    assert_eq!(resp.body, "<h1>404 Not Found</h1>");
}

#[test]
fn version_echo_across_dispatch() {
    let mut server: WebServer<FixedHandler> = WebServer::new();
    server.disable_static();
    server.add_path("/hello", fixed(Status::OK, "hi")).unwrap();
    let mut request = get("/hello");
    request.version = "1.0".to_string();
    let resp = ready(server.handle(&request));
    let text = serialize_response(&request.version, &resp);
    assert!(text.starts_with("HTTP/1.0 200 OK\r\n"));
}
