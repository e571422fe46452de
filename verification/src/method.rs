//! The closed vocabulary of HTTP request methods.

use vstd::prelude::*;
use crate::text::str_eq;

verus! {

/// An HTTP request method.
#[derive(Clone, Copy, Debug, PartialEq, Eq, Structural)]
pub enum Method {
    GET,
    HEAD,
    POST,
    PUT,
    DELETE,
    CONNECT,
    OPTIONS,
    TRACE,
    PATCH,
}

impl Method {
    /// The token that names the method on the wire.
    pub open spec fn spec_name(self) -> Seq<char> {
        match self {
            Method::GET => "GET"@,
            Method::HEAD => "HEAD"@,
            Method::POST => "POST"@,
            Method::PUT => "PUT"@,
            Method::DELETE => "DELETE"@,
            Method::CONNECT => "CONNECT"@,
            Method::OPTIONS => "OPTIONS"@,
            Method::TRACE => "TRACE"@,
            Method::PATCH => "PATCH"@,
        }
    }

    /// `s` is the token of some method.
    pub open spec fn spec_token(s: Seq<char>) -> Option<Method> {
        if s == "GET"@ {
            Some(Method::GET)
        } else if s == "HEAD"@ {
            Some(Method::HEAD)
        } else if s == "POST"@ {
            Some(Method::POST)
        } else if s == "PUT"@ {
            Some(Method::PUT)
        } else if s == "DELETE"@ {
            Some(Method::DELETE)
        } else if s == "CONNECT"@ {
            Some(Method::CONNECT)
        } else if s == "OPTIONS"@ {
            Some(Method::OPTIONS)
        } else if s == "TRACE"@ {
            Some(Method::TRACE)
        } else if s == "PATCH"@ {
            Some(Method::PATCH)
        } else {
            None
        }
    }

    /// Returns the method named by `s`, or nothing when `s` is not a
    /// recognized method token.
    pub fn parse(s: &str) -> (r: Option<Method>)
        ensures
            r == Method::spec_token(s@),
    {
        if str_eq(s, "GET") {
            Some(Method::GET)
        } else if str_eq(s, "HEAD") {
            Some(Method::HEAD)
        } else if str_eq(s, "POST") {
            Some(Method::POST)
        } else if str_eq(s, "PUT") {
            Some(Method::PUT)
        } else if str_eq(s, "DELETE") {
            Some(Method::DELETE)
        } else if str_eq(s, "CONNECT") {
            Some(Method::CONNECT)
        } else if str_eq(s, "OPTIONS") {
            Some(Method::OPTIONS)
        } else if str_eq(s, "TRACE") {
            Some(Method::TRACE)
        } else if str_eq(s, "PATCH") {
            Some(Method::PATCH)
        } else {
            None
        }
    }

    /// Returns the wire token of the method.
    pub fn name(&self) -> (r: String)
        ensures
            r@ == self.spec_name(),
    {
        match self {
            Method::GET => "GET".to_owned(),
            Method::HEAD => "HEAD".to_owned(),
            Method::POST => "POST".to_owned(),
            Method::PUT => "PUT".to_owned(),
            Method::DELETE => "DELETE".to_owned(),
            Method::CONNECT => "CONNECT".to_owned(),
            Method::OPTIONS => "OPTIONS".to_owned(),
            Method::TRACE => "TRACE".to_owned(),
            Method::PATCH => "PATCH".to_owned(),
        }
    }
}

} // verus!
