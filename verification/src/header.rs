//! HTTP headers: a key/value pair with a single-line wire codec. A raw line
//! of the form `"Key: Value"` splits at the first `": "`; an empty input
//! line yields an empty header, a sentinel that is never written back to
//! the wire.

use vstd::prelude::*;
use crate::text::{find_separator, is_ws_char, sep_at, trim_back, trim_front, trim_str, trimmed};

verus! {

/// The mathematical content of a header: its key and value as character
/// sequences.
#[verifier::ext_equal]
pub struct HeaderView {
    pub key: Seq<char>,
    pub value: Seq<char>,
}

/// A single HTTP header.
#[derive(Clone, Debug)]
pub struct Header {
    key: String,
    value: String,
}

impl View for Header {
    type V = HeaderView;

    closed spec fn view(&self) -> HeaderView {
        HeaderView { key: self.key@, value: self.value@ }
    }
}

/// The empty header, produced for an empty input line.
pub open spec fn empty_header() -> HeaderView {
    HeaderView { key: Seq::empty(), value: Seq::empty() }
}

/// What parsing a raw header line yields: the empty header for an empty
/// line; otherwise the line is trimmed and split at the first `": "`, and
/// a line without that separator is rejected.
pub open spec fn spec_parse_header(line: Seq<char>) -> Option<HeaderView> {
    if line.len() == 0 {
        Some(empty_header())
    } else {
        let t = trimmed(line);
        if exists|i: int| sep_at(t, i) {
            let i = choose|i: int| sep_at(t, i) && (forall|j: int| 0 <= j < i ==> !sep_at(t, j));
            Some(HeaderView { key: t.subrange(0, i), value: t.subrange(i + 2, t.len() as int) })
        } else {
            None
        }
    }
}

/// The wire form of a header: `Key: Value`.
pub open spec fn spec_header_line(h: HeaderView) -> Seq<char> {
    h.key + ": "@ + h.value
}

impl Header {
    /// Builds a header from its parts.
    pub fn new(key: String, value: String) -> (h: Header)
        ensures
            h@ == (HeaderView { key: key@, value: value@ }),
    {
        Header { key, value }
    }

    /// The header's key.
    pub fn key(&self) -> (k: &String)
        ensures
            k@ == self@.key,
    {
        &self.key
    }

    /// The header's value.
    pub fn value(&self) -> (v: &String)
        ensures
            v@ == self@.value,
    {
        &self.value
    }

    /// Parses one raw header line. An empty line yields the empty header;
    /// a non-empty line without the `": "` separator is malformed.
    pub fn from_line(line: &str) -> (r: Option<Header>)
        ensures
            match r {
                Some(h) => spec_parse_header(line@) == Some(h@),
                None => spec_parse_header(line@) is None,
            },
    {
        if line.is_empty() {
            return Some(Header { key: String::new(), value: String::new() });
        }
        let t = trim_str(line);
        match find_separator(t) {
            Some(i) => {
                let tlen = t.unicode_len();
                let key = t.substring_char(0, i).to_owned();
                let value = t.substring_char(i + 2, tlen).to_owned();
                proof {
                    let tv = trimmed(line@);
                    let ic = choose|ic: int|
                        sep_at(tv, ic) && (forall|j: int| 0 <= j < ic ==> !sep_at(tv, j));
                    assert(sep_at(tv, i as int));
                    if ic < i {
                        assert(!sep_at(tv, ic));
                    }
                    if i < ic {
                        assert(!sep_at(tv, i as int));
                    }
                    assert(ic == i as int);
                }
                Some(Header { key, value })
            },
            None => None,
        }
    }

    /// Renders the header in its wire form, `Key: Value`.
    pub fn line(&self) -> (r: String)
        ensures
            r@ == spec_header_line(self@),
    {
        let mut out = self.key.clone();
        out.append(": ");
        out.append(self.value.as_str());
        out
    }
}

/// Parsing the wire form of a header gives back exactly its key and value.
/// This holds for every header whose key is non-empty, does not start with
/// whitespace and contains no `": "` of its own, and whose value is
/// non-empty and does not end with whitespace.
pub proof fn lemma_header_round_trip(h: HeaderView)
    requires
        h.key.len() > 0,
        !is_ws_char(h.key[0]),
        forall|j: int| !sep_at(h.key, j),
        h.value.len() > 0,
        !is_ws_char(h.value[h.value.len() - 1]),
    ensures
        spec_parse_header(spec_header_line(h)) == Some(h),
{
    reveal_strlit(": ");
    let t = spec_header_line(h);
    assert(t.len() == h.key.len() + 2 + h.value.len());
    assert(t[0] == h.key[0]);
    assert(t[t.len() - 1] == h.value[h.value.len() - 1]);
    assert(trim_front(t) == t);
    assert(trim_back(t) == t);
    assert(trimmed(t) == t);
    let k = h.key.len() as int;
    assert(t[k] == ':');
    assert(t[k + 1] == ' ');
    assert(sep_at(t, k));
    assert forall|j: int| 0 <= j < k implies !sep_at(t, j) by {
        if j + 1 < k {
            assert(t[j] == h.key[j]);
            assert(t[j + 1] == h.key[j + 1]);
            assert(!sep_at(h.key, j));
        } else {
            assert(t[j + 1] == ':');
        }
    }
    let i = choose|i: int| sep_at(t, i) && (forall|j: int| 0 <= j < i ==> !sep_at(t, j));
    assert(sep_at(t, k) && (forall|j: int| 0 <= j < k ==> !sep_at(t, j)));
    if i < k {
        assert(!sep_at(t, i));
    }
    if k < i {
        assert(!sep_at(t, k));
    }
    assert(i == k);
    assert(t.subrange(0, k) =~= h.key);
    assert(t.subrange(k + 2, t.len() as int) =~= h.value);
}

} // verus!
