//! Response serialization: renders a response, together with the protocol
//! version declared by the originating request, into the exact wire text
//! `HTTP/{version} {code} {reason}\r\n{header lines}\r\n\r\n{body}`. The
//! server always echoes the client's declared version.

use vstd::prelude::*;
use crate::header::{spec_header_line, HeaderView};
use crate::response::{Response, ResponseView};
use crate::status::Status;
use crate::text::u64_to_string;

verus! {

/// The status line, without its terminator:
/// `HTTP/{version} {code} {reason}`.
pub open spec fn spec_status_line(version: Seq<char>, status: Status) -> Seq<char> {
    "HTTP/"@ + version + " "@ + status.spec_code_chars() + " "@ + status.spec_reason()
}

/// The header lines from position `i` on, joined by `\r\n` with no
/// trailing separator.
pub open spec fn spec_join_headers(hs: Seq<HeaderView>, i: int) -> Seq<char>
    decreases hs.len() - i,
{
    if i < 0 || i >= hs.len() {
        Seq::empty()
    } else if i == hs.len() - 1 {
        spec_header_line(hs[i])
    } else {
        spec_header_line(hs[i]) + "\r\n"@ + spec_join_headers(hs, i + 1)
    }
}

/// The full wire text of a response under a given protocol version.
pub open spec fn spec_serialize_response(version: Seq<char>, r: ResponseView) -> Seq<char> {
    spec_status_line(version, r.status) + "\r\n"@ + spec_join_headers(r.headers, 0) + "\r\n\r\n"@
        + r.body
}

/// Renders `response` into its wire text, echoing `version` — the protocol
/// version declared by the request being answered.
pub fn serialize_response(version: &str, response: &Response) -> (r: String)
    ensures
        r@ == spec_serialize_response(version@, response@),
{
    let ghost full: Seq<char> = spec_serialize_response(version@, response@);
    let ghost prefix: Seq<char> = spec_status_line(version@, response@.status) + "\r\n"@
        + spec_join_headers(response@.headers, 0);
    let mut out = "HTTP/".to_owned();
    out.append(version);
    out.append(" ");
    let code = u64_to_string(response.status.code() as u64);
    out.append(code.as_str());
    out.append(" ");
    let reason = response.status.reason();
    out.append(reason.as_str());
    out.append("\r\n");
    proof {
        assert(out@ =~= spec_status_line(version@, response@.status) + "\r\n"@);
    }
    let n = response.headers.len();
    let mut i: usize = 0;
    while i < n
        invariant
            i <= n,
            n == response@.headers.len(),
            response@.headers =~= response.headers@.map_values(|h: crate::header::Header| h@),
            prefix == spec_status_line(version@, response@.status) + "\r\n"@ + spec_join_headers(
                response@.headers,
                0,
            ),
            i < n ==> out@ + spec_join_headers(response@.headers, i as int) == prefix,
            i == n ==> out@ == prefix,
        decreases n - i,
    {
        let line = response.headers[i].line();
        proof {
            assert(response.headers@.map_values(|h: crate::header::Header| h@)[i as int]
                == response.headers@[i as int]@);
        }
        out.append(line.as_str());
        if i + 1 < n {
            out.append("\r\n");
            proof {
                assert(spec_join_headers(response@.headers, i as int) == spec_header_line(
                    response@.headers[i as int],
                ) + "\r\n"@ + spec_join_headers(response@.headers, i + 1));
                assert(out@ + spec_join_headers(response@.headers, i + 1) =~= prefix);
            }
        } else {
            proof {
                assert(spec_join_headers(response@.headers, i as int) == spec_header_line(
                    response@.headers[i as int],
                ));
                assert(out@ =~= prefix);
            }
        }
        i += 1;
    }
    proof {
        if n == 0 {
            assert(spec_join_headers(response@.headers, 0) =~= Seq::<char>::empty());
            assert(out@ =~= prefix);
        }
    }
    out.append("\r\n\r\n");
    out.append(response.body.as_str());
    proof {
        assert(out@ =~= full);
    }
    out
}

/// Version echo: the wire text of every response begins with `HTTP/`
/// followed by exactly the protocol version that was passed in — the one
/// the request declared.
pub proof fn lemma_version_echo(version: Seq<char>, r: ResponseView)
    ensures
        spec_serialize_response(version, r).subrange(0, 5) == "HTTP/"@,
        spec_serialize_response(version, r).subrange(5, 5 + version.len() as int) == version,
{
    reveal_strlit("HTTP/");
    let s = spec_serialize_response(version, r);
    assert(s.subrange(0, 5) =~= "HTTP/"@);
    assert(s.subrange(5, 5 + version.len() as int) =~= version);
}

/// Version echo, end to end: for every well-formed request line, a
/// response serialized under the version that line declared echoes exactly
/// that version — whatever the response.
pub proof fn lemma_request_version_echo(
    line: Seq<char>,
    m: crate::method::Method,
    url: Seq<char>,
    version: Seq<char>,
    r: ResponseView,
)
    requires
        crate::request::matches_request_line(line, m, url, version),
    ensures
        spec_serialize_response(version, r).subrange(5, 5 + version.len() as int) == version,
{
    lemma_version_echo(version, r);
}

} // verus!
