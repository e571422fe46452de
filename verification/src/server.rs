//! The server: an ordered route table of (pattern, handler) bindings, the
//! static-file fast path, the error-override bindings, and the dispatch
//! pipeline that turns a parsed request into the response to serialize.
//!
//! Patterns are regular expressions, matched anchored (`^pattern$`)
//! against the full request path; registration order is match priority.
//! Binding the listening socket, reading connections and reading static
//! files are I/O and stay with the caller.

use vstd::prelude::*;
use crate::handler::Handler;
use crate::request::{Request, RequestView};
use crate::response::{spec_new_response, Response, ResponseView};
use crate::static_files::{spec_static_rel, spec_static_response, static_rel_path};
use crate::status::Status;
use crate::template::{env_add_template, env_new, env_render, spec_render_response,
    render_response};
use crate::text::{is_prefix_of, push_char, str_starts_with};

verus! {

#[verifier::external_type_specification]
#[verifier::external_body]
pub struct ExRegex(regex::Regex);

/// The pattern a compiled regex was built from.
pub uninterp spec fn regex_source(r: regex::Regex) -> Seq<char>;

/// The regex compiler accepts `pattern`.
pub uninterp spec fn regex_compiles(pattern: Seq<char>) -> bool;

/// The regex compiled from `pattern` matches somewhere in `text`.
pub uninterp spec fn regex_match(pattern: Seq<char>, text: Seq<char>) -> bool;

/// Compiles a pattern.
///
/// Relies on `regex::Regex::new`: whether it succeeds is a function of the
/// pattern alone (the regex grammar plus the default size limits), and the
/// compiled regex keeps the pattern string it was built from
/// (`Regex::as_str` returns it).
#[verifier::external_body]
fn regex_new(pattern: &str) -> (r: Option<regex::Regex>)
    ensures
        r is Some <==> regex_compiles(pattern@),
        r matches Some(re) ==> regex_source(re) == pattern@,
{
    regex::Regex::new(pattern).ok()
}

/// Tests a compiled regex against a path.
///
/// Relies on `regex::Regex::is_match`: for a regex built by `Regex::new`,
/// whether it matches is a function of its pattern and the text alone.
#[verifier::external_body]
fn regex_is_match(re: &regex::Regex, text: &str) -> (b: bool)
    ensures
        b == regex_match(regex_source(*re), text@),
{
    re.is_match(text)
}

/// The anchored form of a route pattern: `^pattern$`, so that the pattern
/// must cover the whole path.
pub open spec fn spec_anchored(pattern: Seq<char>) -> Seq<char> {
    seq!['^'] + pattern + seq!['$']
}

fn anchored(pattern: &str) -> (r: String)
    ensures
        r@ == spec_anchored(pattern@),
{
    let mut out = String::new();
    push_char(&mut out, '^');
    out.append(pattern);
    push_char(&mut out, '$');
    proof {
        assert(out@ =~= spec_anchored(pattern@));
    }
    out
}

/// One registered route: a pattern, its compiled anchored form, and the
/// handler it binds.
pub struct Route<H> {
    pattern: String,
    regex: regex::Regex,
    handler: H,
}

impl<H> Route<H> {
    /// The compiled regex is the anchored form of the stored pattern.
    pub closed spec fn wf(&self) -> bool {
        regex_source(self.regex) == spec_anchored(self.pattern@)
    }
}

/// Everything about a server that routing and dispatch read.
#[verifier::ext_equal]
pub struct ServerSpec<H> {
    pub ip: Seq<char>,
    pub port: u16,
    pub static_url: Option<Seq<char>>,
    pub static_dir: Option<Seq<char>>,
    pub path_sep: char,
    pub patterns: Seq<Seq<char>>,
    pub handlers: Seq<H>,
    pub server_error_handler: Option<H>,
    pub not_found_handler: Option<H>,
}

/// The web server: listening address, static-serving configuration, the
/// ordered route table, the error-override handlers, and the template
/// environment.
pub struct WebServer<H: Handler> {
    ip: String,
    port: u16,
    static_url: Option<String>,
    static_dir: Option<String>,
    path_sep: char,
    routes: Vec<Route<H>>,
    server_error_handler: Option<H>,
    not_found_handler: Option<H>,
    env: minijinja::Environment<'static>,
}

impl<H: Handler> View for WebServer<H> {
    type V = ServerSpec<H>;

    closed spec fn view(&self) -> ServerSpec<H> {
        ServerSpec {
            ip: self.ip@,
            port: self.port,
            static_url: match self.static_url {
                Some(u) => Some(u@),
                None => None,
            },
            static_dir: match self.static_dir {
                Some(d) => Some(d@),
                None => None,
            },
            path_sep: self.path_sep,
            patterns: self.routes@.map_values(|r: Route<H>| r.pattern@),
            handlers: self.routes@.map_values(|r: Route<H>| r.handler),
            server_error_handler: self.server_error_handler,
            not_found_handler: self.not_found_handler,
        }
    }
}

/// `i` is the first registered pattern whose anchored form matches `path`.
pub open spec fn spec_first_match(patterns: Seq<Seq<char>>, path: Seq<char>, i: int) -> bool {
    &&& 0 <= i < patterns.len()
    &&& regex_match(spec_anchored(patterns[i]), path)
    &&& forall|j: int| 0 <= j < i ==> !regex_match(spec_anchored(patterns[j]), path)
}

/// The built-in server-error response, used when no server-error handler
/// is configured.
pub open spec fn spec_builtin_server_error() -> ResponseView {
    spec_new_response(Status::InternalServerError, "<h1>500 Server Error</h1>"@)
}

/// The built-in not-found response, used when no not-found handler is
/// configured.
pub open spec fn spec_builtin_not_found() -> ResponseView {
    spec_new_response(Status::NotFound, "<h1>404 Not Found</h1>"@)
}

/// Where a request path leads.
#[derive(Debug)]
pub enum RouteDecision {
    /// Serve a static file; holds its path relative to the static root.
    StaticFile(String),
    /// The path asks for a static file, but static serving is not fully
    /// configured: a fatal configuration error.
    StaticMisconfigured,
    /// Invoke the handler of the route at this position.
    Route(usize),
    /// No registered route matches.
    NoRoute,
}

/// What dispatch produced: a finished response, or the static file the
/// caller must read first.
#[derive(Debug)]
pub enum HandleOutcome {
    /// The response is ready.
    Ready(Response),
    /// The path names a static file: read it, relative to the static
    /// root, and finish with `static_response`.
    Static(String),
    /// Static serving was requested by the path but is not fully
    /// configured: a fatal configuration error.
    StaticDisabled,
}

impl<H: Handler> WebServer<H> {
    /// Every compiled route matches its stored pattern.
    pub closed spec fn wf(&self) -> bool {
        forall|i: int| 0 <= i < self.routes@.len() ==> (#[trigger] self.routes@[i]).wf()
    }

    /// The path lies under the configured static URL prefix.
    pub open spec fn spec_static_requested(&self, url: Seq<char>) -> bool {
        self@.static_url matches Some(p) && is_prefix_of(p, url)
    }

    /// The response of the configured server-error handler, or the
    /// built-in one when none is configured.
    pub open spec fn spec_server_error_response(&self, req: RequestView) -> ResponseView {
        match self@.server_error_handler {
            Some(h) => h.spec_handle(req),
            None => spec_builtin_server_error(),
        }
    }

    /// The response of the configured not-found handler, or the built-in
    /// one when none is configured.
    pub open spec fn spec_not_found_response(&self, req: RequestView) -> ResponseView {
        match self@.not_found_handler {
            Some(h) => h.spec_handle(req),
            None => spec_builtin_not_found(),
        }
    }

    /// The status-override substitution rule: a response with the
    /// server-error status is replaced by the server-error handler's
    /// response, one with the not-found status by the not-found handler's
    /// response, and every other response stands.
    pub open spec fn spec_substitute(&self, req: RequestView, raw: ResponseView) -> ResponseView {
        if raw.status == Status::InternalServerError {
            self.spec_server_error_response(req)
        } else if raw.status == Status::NotFound {
            self.spec_not_found_response(req)
        } else {
            raw
        }
    }

    /// The response the route table gives `req`: the first matching
    /// route's handler response under the override rule, or the not-found
    /// override when no route matches.
    pub open spec fn spec_dispatch(&self, req: RequestView) -> ResponseView {
        if exists|i: int| spec_first_match(self@.patterns, req.url, i) {
            let i = choose|i: int| spec_first_match(self@.patterns, req.url, i);
            self.spec_substitute(req, self@.handlers[i].spec_handle(req))
        } else {
            self.spec_not_found_response(req)
        }
    }

    /// A server with the default configuration: `localhost:8000`, static
    /// serving under `/static` out of the directory `static`, no routes,
    /// and the built-in error handlers.
    pub fn new() -> (s: WebServer<H>)
        ensures
            s.wf(),
            s@ == (ServerSpec::<H> {
                ip: "localhost"@,
                port: 8000,
                static_url: Some("/static"@),
                static_dir: Some("static"@),
                path_sep: '/',
                patterns: Seq::empty(),
                handlers: Seq::empty(),
                server_error_handler: None,
                not_found_handler: None,
            }),
    {
        let s = WebServer {
            ip: "localhost".to_owned(),
            port: 8000,
            static_url: Some("/static".to_owned()),
            static_dir: Some("static".to_owned()),
            path_sep: '/',
            routes: Vec::new(),
            server_error_handler: None,
            not_found_handler: None,
            env: env_new(),
        };
        proof {
            assert(s@ =~= (ServerSpec::<H> {
                ip: "localhost"@,
                port: 8000,
                static_url: Some("/static"@),
                static_dir: Some("static"@),
                path_sep: '/',
                patterns: Seq::empty(),
                handlers: Seq::empty(),
                server_error_handler: None,
                not_found_handler: None,
            }));
        }
        s
    }

    /// Sets the address to listen on.
    pub fn set_ip(&mut self, ip: String)
        ensures
            final(self)@ == (ServerSpec { ip: ip@, ..old(self)@ }),
            old(self).wf() ==> final(self).wf(),
    {
        self.ip = ip;
    }

    /// Sets the port to listen on.
    pub fn set_port(&mut self, port: u16)
        ensures
            final(self)@ == (ServerSpec { port, ..old(self)@ }),
            old(self).wf() ==> final(self).wf(),
    {
        self.port = port;
    }

    /// Sets the URL prefix under which static files are served.
    pub fn set_static_url(&mut self, url: String)
        ensures
            final(self)@ == (ServerSpec { static_url: Some(url@), ..old(self)@ }),
            old(self).wf() ==> final(self).wf(),
    {
        self.static_url = Some(url);
    }

    /// Sets the directory static files are read from.
    pub fn set_static_dir(&mut self, dir: String)
        ensures
            final(self)@ == (ServerSpec { static_dir: Some(dir@), ..old(self)@ }),
            old(self).wf() ==> final(self).wf(),
    {
        self.static_dir = Some(dir);
    }

    /// Switches static serving off.
    pub fn disable_static(&mut self)
        ensures
            final(self)@ == (ServerSpec { static_url: None, static_dir: None, ..old(self)@ }),
            old(self).wf() ==> final(self).wf(),
    {
        self.static_url = None;
        self.static_dir = None;
    }

    /// Sets the filesystem path separator used for static files.
    pub fn set_path_separator(&mut self, sep: char)
        ensures
            final(self)@ == (ServerSpec { path_sep: sep, ..old(self)@ }),
            old(self).wf() ==> final(self).wf(),
    {
        self.path_sep = sep;
    }

    /// The address the server is meant to listen on.
    pub fn ip(&self) -> (r: &String)
        ensures
            r@ == self@.ip,
    {
        &self.ip
    }

    /// The port the server is meant to listen on.
    pub fn port(&self) -> (r: u16)
        ensures
            r == self@.port,
    {
        self.port
    }

    /// The directory static files are read from, if one is configured.
    pub fn static_dir(&self) -> (r: &Option<String>)
        ensures
            r is Some <==> self@.static_dir is Some,
            r matches Some(d) ==> self@.static_dir matches Some(dv) && d@ == dv,
    {
        &self.static_dir
    }

    /// Whether static serving is fully configured: both a URL prefix and
    /// a backing directory.
    pub fn static_enabled(&self) -> (r: bool)
        ensures
            r == (self@.static_url is Some && self@.static_dir is Some),
    {
        match (&self.static_url, &self.static_dir) {
            (Some(_), Some(_)) => true,
            _ => false,
        }
    }

    /// Registers a route: the pattern, matched anchored against the whole
    /// path, and its handler. Routes match in registration order. A
    /// pattern the regex grammar rejects is refused here, before serving
    /// begins, and leaves the server unchanged.
    pub fn add_path(&mut self, pattern: &str, handler: H) -> (r: Result<(), PatternError>)
        ensures
            old(self).wf() ==> final(self).wf(),
            regex_compiles(spec_anchored(pattern@)) ==> r is Ok && final(self)@ == (ServerSpec {
                patterns: old(self)@.patterns.push(pattern@),
                handlers: old(self)@.handlers.push(handler),
                ..old(self)@
            }),
            !regex_compiles(spec_anchored(pattern@)) ==> r is Err && final(self)@ == old(self)@,
    {
        let a = anchored(pattern);
        match regex_new(a.as_str()) {
            Some(re) => {
                let ghost old_routes = self.routes@;
                self.routes.push(Route {
                    pattern: pattern.to_owned(),
                    regex: re,
                    handler,
                });
                proof {
                    assert(self.routes@.map_values(|r: Route<H>| r.pattern@) =~= old_routes
                        .map_values(|r: Route<H>| r.pattern@).push(pattern@));
                    assert(self.routes@.map_values(|r: Route<H>| r.handler) =~= old_routes
                        .map_values(|r: Route<H>| r.handler).push(handler));
                    assert(self@ =~= (ServerSpec {
                        patterns: old(self)@.patterns.push(pattern@),
                        handlers: old(self)@.handlers.push(handler),
                        ..old(self)@
                    }));
                }
                Ok(())
            },
            None => Err(PatternError),
        }
    }

    /// Configures the handler that answers in place of any server-error
    /// response.
    pub fn set_server_error(&mut self, handler: H)
        ensures
            final(self)@ == (ServerSpec { server_error_handler: Some(handler), ..old(self)@ }),
            old(self).wf() ==> final(self).wf(),
    {
        self.server_error_handler = Some(handler);
    }

    /// Configures the handler that answers in place of any not-found
    /// response.
    pub fn set_not_found_error(&mut self, handler: H)
        ensures
            final(self)@ == (ServerSpec { not_found_handler: Some(handler), ..old(self)@ }),
            old(self).wf() ==> final(self).wf(),
    {
        self.not_found_handler = Some(handler);
    }

    /// The built-in server-error handler.
    pub fn server_error(_request: &Request) -> (r: Response)
        ensures
            r@ == spec_builtin_server_error(),
    {
        Response::new(Status::InternalServerError, "<h1>500 Server Error</h1>".to_owned())
    }

    /// The built-in not-found handler.
    pub fn not_found(_request: &Request) -> (r: Response)
        ensures
            r@ == spec_builtin_not_found(),
    {
        Response::new(Status::NotFound, "<h1>404 Not Found</h1>".to_owned())
    }

    /// The server-error override response for `request`.
    fn server_error_response(&self, request: &Request) -> (r: Response)
        ensures
            r@ == self.spec_server_error_response(request@),
    {
        match &self.server_error_handler {
            Some(h) => h.handle(request),
            None => Self::server_error(request),
        }
    }

    /// The not-found override response for `request`.
    fn not_found_response(&self, request: &Request) -> (r: Response)
        ensures
            r@ == self.spec_not_found_response(request@),
    {
        match &self.not_found_handler {
            Some(h) => h.handle(request),
            None => Self::not_found(request),
        }
    }

    /// Applies the status-override substitution to a handler's response:
    /// server-error and not-found statuses are replaced by the configured
    /// override handlers' responses; anything else stands unchanged.
    pub fn finish(&self, request: &Request, raw: Response) -> (r: Response)
        ensures
            r@ == self.spec_substitute(request@, raw@),
    {
        if raw.status == Status::InternalServerError {
            self.server_error_response(request)
        } else if raw.status == Status::NotFound {
            self.not_found_response(request)
        } else {
            raw
        }
    }

    /// Decides where `url` leads: the static fast path when the URL lies
    /// under the static prefix, else the first route whose anchored
    /// pattern matches, in registration order.
    pub fn route(&self, url: &str) -> (d: RouteDecision)
        requires
            self.wf(),
        ensures
            match d {
                RouteDecision::StaticFile(rel) => self@.static_url matches Some(p) && is_prefix_of(
                    p,
                    url@,
                ) && self@.static_dir is Some && rel@ == spec_static_rel(url@, p, self@.path_sep),
                RouteDecision::StaticMisconfigured => self@.static_url matches Some(p)
                    && is_prefix_of(p, url@) && self@.static_dir is None,
                RouteDecision::Route(i) => !self.spec_static_requested(url@) && spec_first_match(
                    self@.patterns,
                    url@,
                    i as int,
                ),
                RouteDecision::NoRoute => !self.spec_static_requested(url@) && forall|j: int|
                    0 <= j < self@.patterns.len() ==> !regex_match(
                        spec_anchored(self@.patterns[j]),
                        url@,
                    ),
            },
    {
        match &self.static_url {
            Some(prefix) => {
                if str_starts_with(url, prefix.as_str()) {
                    return match &self.static_dir {
                        Some(_) => RouteDecision::StaticFile(static_rel_path(
                            url,
                            prefix.as_str(),
                            self.path_sep,
                        )),
                        None => RouteDecision::StaticMisconfigured,
                    };
                }
            },
            None => {},
        }
        let n = self.routes.len();
        let mut i: usize = 0;
        while i < n
            invariant
                i <= n,
                n == self.routes@.len(),
                self.wf(),
                !self.spec_static_requested(url@),
                self@.patterns == self.routes@.map_values(|r: Route<H>| r.pattern@),
                forall|j: int|
                    0 <= j < i ==> !regex_match(spec_anchored(self@.patterns[j]), url@),
            decreases n - i,
        {
            let matched = regex_is_match(&self.routes[i].regex, url);
            proof {
                assert(self.routes@[i as int].wf());
                assert(self@.patterns[i as int] == self.routes@[i as int].pattern@);
            }
            if matched {
                return RouteDecision::Route(i);
            }
            i += 1;
        }
        RouteDecision::NoRoute
    }

    /// Serves one parsed request up to the point where I/O would be
    /// needed: a finished response for routed and unrouted paths, or the
    /// static file left for the caller to read, or the fatal
    /// configuration error when the path asks for static serving while it
    /// is disabled.
    pub fn handle(&self, request: &Request) -> (out: HandleOutcome)
        requires
            self.wf(),
        ensures
            self.spec_static_requested(request@.url) && self@.static_dir is Some ==> (out matches
                HandleOutcome::Static(rel) && self@.static_url matches Some(p) && rel@
                == spec_static_rel(request@.url, p, self@.path_sep)),
            self.spec_static_requested(request@.url) && self@.static_dir is None ==> out
                is StaticDisabled,
            !self.spec_static_requested(request@.url) ==> (out matches HandleOutcome::Ready(resp)
                && resp@ == self.spec_dispatch(request@)),
    {
        let decision = self.route(request.url.as_str());
        match decision {
            RouteDecision::StaticFile(rel) => HandleOutcome::Static(rel),
            RouteDecision::StaticMisconfigured => HandleOutcome::StaticDisabled,
            RouteDecision::Route(i) => {
                let raw = self.routes[i].handler.handle(request);
                let resp = self.finish(request, raw);
                proof {
                    assert(spec_first_match(self@.patterns, request@.url, i as int));
                    let w = choose|w: int| spec_first_match(self@.patterns, request@.url, w);
                    if w < i as int {
                        assert(regex_match(spec_anchored(self@.patterns[w]), request@.url));
                    }
                    if (i as int) < w {
                        assert(regex_match(spec_anchored(self@.patterns[i as int]), request@.url));
                    }
                    assert(w == i as int);
                    assert(self@.handlers[i as int] == self.routes@[i as int].handler);
                }
                HandleOutcome::Ready(resp)
            },
            RouteDecision::NoRoute => {
                proof {
                    if exists|w: int| spec_first_match(self@.patterns, request@.url, w) {
                        let w = choose|w: int| spec_first_match(self@.patterns, request@.url, w);
                        assert(regex_match(spec_anchored(self@.patterns[w]), request@.url));
                    }
                }
                HandleOutcome::Ready(self.not_found_response(request))
            },
        }
    }

    /// Finishes a static-file request with the outcome of the caller's
    /// file read: the file response, routed through the same status
    /// override substitution as ordinary dispatch — so a missing static
    /// file still reaches the configured not-found handler.
    pub fn static_response(&self, request: &Request, rel: &str, content: Option<String>) -> (r:
        Response)
        ensures
            r@ == self.spec_substitute(
                request@,
                match content {
                    Some(text) => spec_static_response(rel@, self@.path_sep, text@),
                    None => spec_new_response(Status::NotFound, Seq::<char>::empty()),
                },
            ),
    {
        let raw = Response::read_in(rel, self.path_sep, content);
        self.finish(request, raw)
    }

    /// Renders the named template with a key-value context and serves the
    /// outcome: the rendered text as an OK response with content type
    /// `text/html`, or a bare server-error response when rendering
    /// failed. What each outcome becomes is `spec_render_response`'s
    /// contract; the outcome itself depends on the registered templates.
    pub fn render(&self, template: &str, context: &Vec<(String, String)>) -> (r: Response)
        ensures
            exists|o: Result<Seq<char>, Seq<char>>| r@ == spec_render_response(o),
    {
        let outcome = env_render(&self.env, template, context);
        let ghost o: Result<Seq<char>, Seq<char>> = match &outcome {
            Ok(body) => Ok(body@),
            Err(e) => Err(e@),
        };
        let r = render_response(outcome);
        proof {
            assert(r@ == spec_render_response(o));
        }
        r
    }

    /// Registers a template under a name; reports whether the engine
    /// accepted it. A refused template is a fatal error at startup, left
    /// to the caller.
    pub fn add_template_source(&mut self, name: String, source: String) -> (ok: bool)
        ensures
            final(self)@ == old(self)@,
            old(self).wf() ==> final(self).wf(),
    {
        env_add_template(&mut self.env, name, source)
    }

    /// The template environment.
    pub fn get_environment(&self) -> &minijinja::Environment<'static> {
        &self.env
    }
}

/// A route pattern that the regex grammar rejects.
#[derive(Debug)]
pub struct PatternError;

/// Status-substitution: whenever a handler's response carries the
/// server-error status, dispatch answers with the currently configured
/// server-error handler's response — whatever body the handler's own
/// response carried.
pub proof fn lemma_server_error_substitution<H: Handler>(
    server: &WebServer<H>,
    req: RequestView,
    raw: ResponseView,
)
    requires
        raw.status == Status::InternalServerError,
    ensures
        server.spec_substitute(req, raw) == server.spec_server_error_response(req),
{
}

/// The same, through the whole dispatch: when the first route matching a
/// request's path binds a handler whose response carries the server-error
/// status, dispatch answers with the configured server-error handler's
/// response.
pub proof fn lemma_dispatch_server_error<H: Handler>(
    server: &WebServer<H>,
    req: RequestView,
    i: int,
)
    requires
        spec_first_match(server@.patterns, req.url, i),
        server@.handlers[i].spec_handle(req).status == Status::InternalServerError,
    ensures
        server.spec_dispatch(req) == server.spec_server_error_response(req),
{
    let w = choose|w: int| spec_first_match(server@.patterns, req.url, w);
    if w < i {
        assert(regex_match(spec_anchored(server@.patterns[w]), req.url));
    }
    if i < w {
        assert(regex_match(spec_anchored(server@.patterns[i]), req.url));
    }
    assert(w == i);
}

} // verus!
