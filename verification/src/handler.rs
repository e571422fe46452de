//! The handler interface: a route table entry owns a handler, and the
//! dispatch pipeline invokes it with the request.

use vstd::prelude::*;
use crate::header::{Header, HeaderView};
use crate::request::{Request, RequestView};
use crate::response::{content_length_header, Response, ResponseView};
use crate::status::Status;

verus! {

/// A request handler. `spec_handle` is the handler's contract with the
/// dispatch pipeline: `handle` returns exactly that response.
pub trait Handler: Sized {
    /// The response this handler gives to a request.
    spec fn spec_handle(&self, req: RequestView) -> ResponseView;

    /// Produces the response for a request.
    fn handle(&self, request: &Request) -> (r: Response)
        ensures
            r@ == self.spec_handle(request@),
    ;
}

/// A handler that answers every request with one fixed status and body,
/// under the standard `Content-Length` header, followed by any further
/// fixed headers.
#[derive(Debug)]
pub struct FixedHandler {
    pub status: Status,
    pub body: String,
    pub headers: Vec<Header>,
}

impl FixedHandler {
    /// Builds a handler answering with `status` and `body` and no headers
    /// beyond `Content-Length`.
    pub fn new(status: Status, body: String) -> (h: FixedHandler)
        ensures
            h.status == status,
            h.body@ == body@,
            h.headers@ == Seq::<Header>::empty(),
    {
        FixedHandler { status, body, headers: Vec::new() }
    }

    /// Appends a fixed header to every response this handler gives.
    pub fn add_header(&mut self, header: Header)
        ensures
            final(self).status == old(self).status,
            final(self).body == old(self).body,
            final(self).headers@ == old(self).headers@.push(header),
    {
        self.headers.push(header);
    }
}

impl Handler for FixedHandler {
    open spec fn spec_handle(&self, req: RequestView) -> ResponseView {
        ResponseView {
            status: self.status,
            headers: seq![content_length_header(self.body@)] + self.headers@.map_values(
                |h: Header| h@,
            ),
            body: self.body@,
        }
    }

    fn handle(&self, request: &Request) -> (r: Response) {
        let mut r = Response::new(self.status, self.body.clone());
        let n = self.headers.len();
        let mut i: usize = 0;
        while i < n
            invariant
                i <= n,
                n == self.headers@.len(),
                r@.status == self.status,
                r@.body == self.body@,
                r@.headers =~= seq![content_length_header(self.body@)] + self.headers@.map_values(
                    |h: Header| h@,
                ).subrange(0, i as int),
            decreases n - i,
        {
            let h = Header::new(self.headers[i].key().clone(), self.headers[i].value().clone());
            r.add_header(h);
            proof {
                let mapped = self.headers@.map_values(|h: Header| h@);
                assert(mapped[i as int] == self.headers@[i as int]@);
                assert(r@.headers =~= seq![content_length_header(self.body@)] + mapped.subrange(
                    0,
                    i + 1,
                ));
            }
            i += 1;
        }
        proof {
            let mapped = self.headers@.map_values(|h: Header| h@);
            assert(mapped.subrange(0, mapped.len() as int) =~= mapped);
            assert(r@ =~= self.spec_handle(request@));
        }
        r
    }
}

} // verus!
