//! The templating collaborator, consumed through one contract: render a
//! named template with a key-value context, and get back body text or a
//! render failure. The engine itself is outside the library; what the
//! library owns is how a render outcome becomes a response.

use vstd::prelude::*;
use crate::header::HeaderView;
use crate::response::{content_length_header, spec_new_response, Response, ResponseView};
use crate::status::Status;
use crate::header::Header;

verus! {

#[verifier::external_type_specification]
#[verifier::external_body]
pub struct ExEnvironment<'a>(minijinja::Environment<'a>);

/// Creates an empty template environment.
///
/// Relies on `minijinja::Environment::new`.
#[verifier::external_body]
pub(crate) fn env_new() -> minijinja::Environment<'static> {
    minijinja::Environment::new()
}

/// Registers a template under a name; reports whether the engine accepted
/// it.
///
/// Relies on `minijinja::Environment::add_template_owned`: it fails
/// exactly when the template source has a syntax error.
#[verifier::external_body]
pub(crate) fn env_add_template(
    env: &mut minijinja::Environment<'static>,
    name: String,
    source: String,
) -> (ok: bool) {
    env.add_template_owned(name, source).is_ok()
}

/// Renders the named template with a key-value context, giving the
/// rendered text or the failure's description.
///
/// Relies on `minijinja::Environment::get_template` and
/// `minijinja::Template::render`. The outcome depends on the templates
/// registered in the environment, so nothing is promised of it beyond its
/// shape; `render_response` says what each outcome becomes.
#[verifier::external_body]
pub(crate) fn env_render(
    env: &minijinja::Environment<'static>,
    name: &str,
    context: &Vec<(String, String)>,
) -> (r: Result<String, String>) {
    let mut map = std::collections::BTreeMap::new();
    for (k, v) in context.iter() {
        map.insert(k.clone(), v.clone());
    }
    match env.get_template(name) {
        Ok(t) => match t.render(&map) {
            Ok(text) => Ok(text),
            Err(e) => Err(e.to_string()),
        },
        Err(e) => Err(e.to_string()),
    }
}

/// What a render outcome becomes: rendered text is served as an OK
/// response with content type `text/html`; a render failure becomes a
/// bare server-error response.
pub open spec fn spec_render_response(outcome: Result<Seq<char>, Seq<char>>) -> ResponseView {
    match outcome {
        Ok(body) => ResponseView {
            status: Status::OK,
            headers: seq![
                content_length_header(body),
                HeaderView { key: "Content-Type"@, value: "text/html"@ },
            ],
            body,
        },
        Err(_) => spec_new_response(Status::InternalServerError, Seq::<char>::empty()),
    }
}

/// Turns a render outcome into the response to serve.
pub fn render_response(outcome: Result<String, String>) -> (r: Response)
    ensures
        match outcome {
            Ok(body) => r@ == spec_render_response(Ok(body@)),
            Err(e) => r@ == spec_render_response(Err(e@)),
        },
{
    match outcome {
        Ok(body) => {
            let mut r = Response::new(Status::OK, body);
            r.add_header(Header::new("Content-Type".to_owned(), "text/html".to_owned()));
            proof {
                assert(r@.headers =~= spec_render_response(Ok(r.body@)).headers);
                assert(r@ =~= spec_render_response(Ok(r.body@)));
            }
            r
        },
        Err(_) => Response::server_error(),
    }
}

} // verus!
