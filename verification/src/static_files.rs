//! Static file serving, minus the file read itself: translating a URL
//! under the static prefix into a path relative to the static root,
//! classifying the content type by extension, and building the response
//! for what the caller's read produced. Reading the file is I/O and stays
//! with the caller.

use vstd::prelude::*;
use crate::header::{Header, HeaderView};
use crate::response::{content_length_header, spec_new_response, Response, ResponseView};
use crate::status::Status;
use crate::text::{
    find_last_char, is_prefix_of, last_at, push_char, str_eq, str_starts_with, u64_to_string,
};

verus! {

/// `prefix` stripped from the front of `s` as often as it stands there.
pub open spec fn strip_prefix_rec(s: Seq<char>, prefix: Seq<char>) -> Seq<char>
    decreases s.len(),
{
    if prefix.len() > 0 && is_prefix_of(prefix, s) {
        strip_prefix_rec(s.skip(prefix.len() as int), prefix)
    } else {
        s
    }
}

/// The filesystem path, relative to the static root, that a URL under the
/// static prefix names: the prefix stripped, URL separators translated to
/// the filesystem separator `sep`, and one leading separator dropped.
pub open spec fn spec_static_rel(url: Seq<char>, prefix: Seq<char>, sep: char) -> Seq<char> {
    let translated = strip_prefix_rec(url, prefix).map_values(
        |c: char| if c == '/' { sep } else { c },
    );
    if translated.len() > 0 && translated[0] == sep {
        translated.skip(1)
    } else {
        translated
    }
}

/// Translates a URL under the static prefix into the path of the file it
/// names, relative to the static root.
pub fn static_rel_path(url: &str, prefix: &str, sep: char) -> (r: String)
    ensures
        r@ == spec_static_rel(url@, prefix@, sep),
{
    let plen = prefix.unicode_len();
    let mut s: &str = url;
    while plen > 0 && str_starts_with(s, prefix)
        invariant
            plen == prefix@.len(),
            strip_prefix_rec(s@, prefix@) == strip_prefix_rec(url@, prefix@),
        decreases s@.len(),
    {
        let slen = s.unicode_len();
        s = s.substring_char(plen, slen);
    }
    let ghost stripped = strip_prefix_rec(url@, prefix@);
    proof {
        assert(s@ == stripped);
    }
    let ghost translated = stripped.map_values(|c: char| if c == '/' { sep } else { c });
    let slen = s.unicode_len();
    let mut start: usize = 0;
    if slen > 0 {
        let c0 = s.get_char(0);
        let t0 = if c0 == '/' {
            sep
        } else {
            c0
        };
        if t0 == sep {
            start = 1;
        }
    }
    let ghost target = spec_static_rel(url@, prefix@, sep);
    proof {
        assert(target =~= translated.skip(start as int));
    }
    let mut out = String::new();
    let mut k: usize = start;
    while k < slen
        invariant
            start <= k <= slen,
            slen == s@.len(),
            translated == s@.map_values(|c: char| if c == '/' { sep } else { c }),
            out@ =~= translated.subrange(start as int, k as int),
        decreases slen - k,
    {
        let c = s.get_char(k);
        let t = if c == '/' {
            sep
        } else {
            c
        };
        push_char(&mut out, t);
        proof {
            assert(out@ =~= translated.subrange(start as int, k + 1));
        }
        k += 1;
    }
    proof {
        assert(out@ =~= translated.skip(start as int));
    }
    out
}

/// The position of the last `c` in `s`, if any.
pub open spec fn spec_last_index(s: Seq<char>, c: char) -> Option<int> {
    if exists|i: int| last_at(s, c, i) {
        Some(choose|i: int| last_at(s, c, i))
    } else {
        None
    }
}

/// The final component of a path: what follows the last separator.
pub open spec fn spec_file_name(path: Seq<char>, sep: char) -> Seq<char> {
    match spec_last_index(path, sep) {
        Some(i) => path.skip(i + 1),
        None => path,
    }
}

/// The extension of a path's file name: what follows the last dot, unless
/// the only dot opens the name.
pub open spec fn spec_extension(path: Seq<char>, sep: char) -> Option<Seq<char>> {
    let name = spec_file_name(path, sep);
    match spec_last_index(name, '.') {
        Some(d) => if d == 0 {
            None
        } else {
            Some(name.skip(d + 1))
        },
        None => None,
    }
}

/// The content type a static file is served under, by its extension:
/// `css` is CSS, `js` and `ts` are JavaScript, anything else is HTML.
pub open spec fn spec_content_type(path: Seq<char>, sep: char) -> Seq<char> {
    match spec_extension(path, sep) {
        Some(e) => if e == "css"@ {
            "text/css"@
        } else if e == "js"@ || e == "ts"@ {
            "application/javascript"@
        } else {
            "text/html"@
        },
        None => "text/html"@,
    }
}

proof fn lemma_last_index_unique(s: Seq<char>, c: char, i: int)
    requires
        last_at(s, c, i),
    ensures
        spec_last_index(s, c) == Some(i),
{
    let w = choose|w: int| last_at(s, c, w);
    if w < i {
        assert(s[i] == c);
    }
    if i < w {
        assert(s[w] == c);
    }
}

fn last_index_of(s: &str, c: char) -> (r: Option<usize>)
    ensures
        match r {
            Some(i) => spec_last_index(s@, c) == Some(i as int),
            None => spec_last_index(s@, c) is None,
        },
{
    match find_last_char(s, c) {
        Some(i) => {
            proof {
                lemma_last_index_unique(s@, c, i as int);
            }
            Some(i)
        },
        None => {
            proof {
                if exists|i: int| last_at(s@, c, i) {
                    let i = choose|i: int| last_at(s@, c, i);
                    assert(s@[i] == c);
                }
            }
            None
        },
    }
}

/// Classifies the content type of the file at `path` by its extension.
pub fn content_type_for(path: &str, sep: char) -> (r: String)
    ensures
        r@ == spec_content_type(path@, sep),
{
    let len = path.unicode_len();
    let name = match last_index_of(path, sep) {
        Some(i) => path.substring_char(i + 1, len),
        None => path,
    };
    proof {
        assert(name@ == spec_file_name(path@, sep));
    }
    let name_len = name.unicode_len();
    let ext = match last_index_of(name, '.') {
        Some(d) => {
            if d == 0 {
                None
            } else {
                Some(name.substring_char(d + 1, name_len))
            }
        },
        None => None,
    };
    match ext {
        Some(e) => {
            if str_eq(e, "css") {
                "text/css".to_owned()
            } else if str_eq(e, "js") || str_eq(e, "ts") {
                "application/javascript".to_owned()
            } else {
                "text/html".to_owned()
            }
        },
        None => "text/html".to_owned(),
    }
}

/// The response for a static file that was read: OK, its text as the
/// body, its content type by extension, and the body's `Content-Length`.
pub open spec fn spec_static_response(path: Seq<char>, sep: char, text: Seq<char>) -> ResponseView {
    ResponseView {
        status: Status::OK,
        headers: seq![
            HeaderView { key: "Content-Type"@, value: spec_content_type(path, sep) },
            content_length_header(text),
        ],
        body: text,
    }
}

impl Response {
    /// Builds the response for the static file at `path` (relative to the
    /// static root, with separator `sep`). The caller reads the file and
    /// passes the outcome: the file's text, or nothing when there is no
    /// such file — which yields a bare not-found response. Any other read
    /// failure is fatal and never reaches here.
    pub fn read_in(path: &str, sep: char, content: Option<String>) -> (r: Response)
        ensures
            match content {
                Some(text) => r@ == spec_static_response(path@, sep, text@),
                None => r@ == spec_new_response(Status::NotFound, Seq::<char>::empty()),
            },
    {
        match content {
            Some(text) => {
                let content_type = Header::new("Content-Type".to_owned(), content_type_for(
                    path,
                    sep,
                ));
                let len: usize = text.as_str().len();
                let content_length = Header::new("Content-Length".to_owned(), u64_to_string(
                    len as u64,
                ));
                let mut headers: Vec<Header> = Vec::new();
                headers.push(content_type);
                headers.push(content_length);
                let r = Response { status: Status::OK, headers, body: text };
                proof {
                    assert(r@.headers =~= spec_static_response(path@, sep, r.body@).headers);
                    assert(r@ =~= spec_static_response(path@, sep, r.body@));
                }
                r
            },
            None => Response::not_found(),
        }
    }
}

} // verus!
