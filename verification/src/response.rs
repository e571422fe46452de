//! HTTP responses: a status, an append-only header list, and a body. Every
//! response is constructed with a `Content-Length` header computed from the
//! body's byte length; further headers are appended afterward.

use vstd::prelude::*;
use vstd::utf8::encode_utf8;
use crate::header::{Header, HeaderView};
use crate::status::Status;
use crate::text::{spec_decimal, u64_to_string};

verus! {

/// The mathematical content of a response.
#[verifier::ext_equal]
pub struct ResponseView {
    pub status: Status,
    pub headers: Seq<HeaderView>,
    pub body: Seq<char>,
}

/// An HTTP response.
#[derive(Debug)]
pub struct Response {
    pub status: Status,
    pub headers: Vec<Header>,
    pub body: String,
}

impl View for Response {
    type V = ResponseView;

    open spec fn view(&self) -> ResponseView {
        ResponseView {
            status: self.status,
            headers: self.headers@.map_values(|h: Header| h@),
            body: self.body@,
        }
    }
}

/// The byte length of a body, that is, the length of its UTF-8 encoding.
pub open spec fn spec_byte_len(body: Seq<char>) -> nat {
    encode_utf8(body).len()
}

/// The `Content-Length` header computed for `body`: its byte length, as it
/// fits the machine word, rendered in decimal.
pub open spec fn content_length_header(body: Seq<char>) -> HeaderView {
    HeaderView { key: "Content-Length"@, value: spec_decimal((spec_byte_len(body) as usize) as nat) }
}

/// What `Response::new` builds: the given status and body, with the single
/// `Content-Length` header.
pub open spec fn spec_new_response(status: Status, body: Seq<char>) -> ResponseView {
    ResponseView { status, headers: seq![content_length_header(body)], body }
}

impl Response {
    /// Builds a response with the given status and body and a
    /// `Content-Length` header holding the body's byte length.
    pub fn new(status: Status, body: String) -> (r: Response)
        ensures
            r@ == spec_new_response(status, body@),
    {
        let len: usize = body.as_str().len();
        let header = Header::new("Content-Length".to_owned(), u64_to_string(len as u64));
        let mut headers: Vec<Header> = Vec::new();
        headers.push(header);
        let r = Response { status, headers, body };
        proof {
            assert(r@.headers =~= spec_new_response(status, r.body@).headers);
            assert(r@ =~= spec_new_response(status, r.body@));
        }
        r
    }

    /// Appends a header.
    pub fn add_header(&mut self, header: Header)
        ensures
            final(self)@ == (ResponseView {
                headers: old(self)@.headers.push(header@),
                ..old(self)@
            }),
    {
        self.headers.push(header);
        proof {
            assert(self@.headers =~= old(self)@.headers.push(header@));
            assert(self@ =~= (ResponseView { headers: old(self)@.headers.push(header@), ..old(
                self,
            )@ }));
        }
    }

    /// A bare internal-server-error response with an empty body.
    pub fn server_error() -> (r: Response)
        ensures
            r@ == spec_new_response(Status::InternalServerError, Seq::<char>::empty()),
    {
        let r = Response::new(Status::InternalServerError, String::new());
        proof {
            assert(r@ =~= spec_new_response(Status::InternalServerError, Seq::<char>::empty()));
        }
        r
    }

    /// A bare not-found response with an empty body.
    pub fn not_found() -> (r: Response)
        ensures
            r@ == spec_new_response(Status::NotFound, Seq::<char>::empty()),
    {
        let r = Response::new(Status::NotFound, String::new());
        proof {
            assert(r@ =~= spec_new_response(Status::NotFound, Seq::<char>::empty()));
        }
        r
    }
}

/// For every response built by `Response::new`, the value of its
/// `Content-Length` header is the byte length of the body, in decimal, as
/// of construction time — later header additions leave it in place.
pub proof fn lemma_content_length_invariant(status: Status, body: Seq<char>)
    requires
        spec_byte_len(body) <= usize::MAX,
    ensures
        spec_new_response(status, body).headers[0] == (HeaderView {
            key: "Content-Length"@,
            value: spec_decimal(spec_byte_len(body)),
        }),
{
    assert((spec_byte_len(body) as usize) as nat == spec_byte_len(body));
}

} // verus!
