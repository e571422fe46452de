//! Structured HTTP requests and the wire-level request parser.
//!
//! A request arrives as a single request line, any number of header lines
//! terminated by a bare `\r\n`, and a body of exactly `Content-Length`
//! bytes. The parser is a state machine: the caller reads lines and byte
//! blocks from its connection and feeds them in; every decision about the
//! bytes is made here.

use vstd::prelude::*;
use vstd::utf8::{decode_utf8, valid_utf8};
use crate::header::{spec_parse_header, Header, HeaderView};
use crate::method::Method;
use crate::text::{all_digits, digits_value, find_first_char, is_digit_char, parse_usize, str_eq};

verus! {

/// The characters the request-line grammar accepts in a path.
pub open spec fn is_path_char(c: char) -> bool {
    ||| ('a' <= c && c <= 'z')
    ||| ('A' <= c && c <= 'Z')
    ||| ('0' <= c && c <= '9')
    ||| c == '/'
    ||| c == '%'
    ||| c == '.'
    ||| c == '~'
    ||| c == '_'
    ||| c == ':'
    ||| c == '?'
    ||| c == '#'
    ||| c == '['
    ||| c == ']'
    ||| c == '@'
    ||| c == '!'
    ||| c == '$'
    ||| c == '&'
    ||| c == '\''
    ||| c == '('
    ||| c == ')'
    ||| c == '*'
    ||| c == '+'
    ||| c == ','
    ||| c == ';'
    ||| c == '='
    ||| c == '-'
}

/// Executable form of `is_path_char`.
pub fn path_char(c: char) -> (r: bool)
    ensures
        r == is_path_char(c),
{
    ('a' <= c && c <= 'z') || ('A' <= c && c <= 'Z') || ('0' <= c && c <= '9') || c == '/'
        || c == '%' || c == '.' || c == '~' || c == '_' || c == ':' || c == '?' || c == '#'
        || c == '[' || c == ']' || c == '@' || c == '!' || c == '$' || c == '&' || c == '\''
        || c == '(' || c == ')' || c == '*' || c == '+' || c == ',' || c == ';' || c == '='
        || c == '-'
}

/// A path as the grammar admits it: non-empty, made of path characters,
/// and beginning with `/`.
pub open spec fn is_path_seq(s: Seq<char>) -> bool {
    s.len() > 0 && s[0] == '/' && forall|i: int| 0 <= i < s.len() ==> is_path_char(s[i])
}

/// A protocol version as the grammar admits it: digit, dot, digit.
pub open spec fn is_version_seq(s: Seq<char>) -> bool {
    s.len() == 3 && is_digit_char(s[0]) && s[1] == '.' && is_digit_char(s[2])
}

/// A raw line with one optional trailing `\n` removed, then one optional
/// trailing `\r`.
pub open spec fn strip_line_end(s: Seq<char>) -> Seq<char> {
    let a = if s.len() > 0 && s[s.len() - 1] == '\n' {
        s.take(s.len() - 1)
    } else {
        s
    };
    if a.len() > 0 && a[a.len() - 1] == '\r' {
        a.take(a.len() - 1)
    } else {
        a
    }
}

/// The request-line grammar: `METHOD SP PATH SP HTTP/VERSION`, optionally
/// terminated by `\r`, `\n` or `\r\n`, with the given decomposition.
pub open spec fn matches_request_line(
    s: Seq<char>,
    m: Method,
    url: Seq<char>,
    version: Seq<char>,
) -> bool {
    &&& strip_line_end(s) == m.spec_name() + seq![' '] + url + seq![' '] + "HTTP/"@ + version
    &&& is_path_seq(url)
    &&& is_version_seq(version)
}

/// `s` matches the request-line grammar under some decomposition.
pub open spec fn valid_request_line(s: Seq<char>) -> bool {
    exists|m: Method, url: Seq<char>, version: Seq<char>| matches_request_line(s, m, url, version)
}

/// `i` is the position of the first `c` in `s`.
spec fn least_char_at(s: Seq<char>, c: char, i: int) -> bool {
    0 <= i < s.len() && s[i] == c && forall|j: int| 0 <= j < i ==> s[j] != c
}

proof fn lemma_method_name_no_space(m: Method)
    ensures
        forall|j: int| 0 <= j < m.spec_name().len() ==> #[trigger] m.spec_name()[j] != ' ',
        3 <= m.spec_name().len() <= 7,
{
    reveal_strlit("GET");
    reveal_strlit("HEAD");
    reveal_strlit("POST");
    reveal_strlit("PUT");
    reveal_strlit("DELETE");
    reveal_strlit("CONNECT");
    reveal_strlit("OPTIONS");
    reveal_strlit("TRACE");
    reveal_strlit("PATCH");
}

proof fn lemma_token_of_name(m: Method)
    ensures
        Method::spec_token(m.spec_name()) == Some(m),
{
    reveal_strlit("GET");
    reveal_strlit("HEAD");
    reveal_strlit("POST");
    reveal_strlit("PUT");
    reveal_strlit("DELETE");
    reveal_strlit("CONNECT");
    reveal_strlit("OPTIONS");
    reveal_strlit("TRACE");
    reveal_strlit("PATCH");
    assert("GET"@.len() == 3 && "HEAD"@.len() == 4 && "POST"@.len() == 4 && "PUT"@.len() == 3
        && "DELETE"@.len() == 6 && "CONNECT"@.len() == 7 && "OPTIONS"@.len() == 7 && "TRACE"@.len()
        == 5 && "PATCH"@.len() == 5);
    match m {
        Method::POST => {
            assert("POST"@[0] != "HEAD"@[0]);
        },
        Method::PUT => {
            assert("PUT"@[0] != "GET"@[0]);
        },
        Method::OPTIONS => {
            assert("OPTIONS"@[0] != "CONNECT"@[0]);
        },
        Method::PATCH => {
            assert("PATCH"@[0] != "TRACE"@[0]);
        },
        _ => {},
    }
}

proof fn lemma_request_line_parts(s: Seq<char>, m: Method, url: Seq<char>, version: Seq<char>)
    requires
        matches_request_line(s, m, url, version),
    ensures
        ({
            let core = strip_line_end(s);
            let nl = m.spec_name().len() as int;
            let ul = url.len() as int;
            &&& core.len() == nl + ul + 10
            &&& least_char_at(core, ' ', nl)
            &&& core.subrange(0, nl) == m.spec_name()
            &&& core[nl + 1 + ul] == ' '
            &&& (forall|j: int| nl < j < nl + 1 + ul ==> core[j] != ' ')
            &&& core.subrange(nl + 1, nl + 1 + ul) == url
            &&& core.subrange(nl + 2 + ul, core.len() as int) == "HTTP/"@ + version
        }),
{
    lemma_method_name_no_space(m);
    reveal_strlit("HTTP/");
    let core = strip_line_end(s);
    let nl = m.spec_name().len() as int;
    let ul = url.len() as int;
    assert(core.len() == nl + ul + 10);
    assert forall|j: int| nl < j < nl + 1 + ul implies core[j] != ' ' by {
        assert(core[j] == url[j - nl - 1]);
        assert(is_path_char(url[j - nl - 1]));
    }
    assert(core.subrange(0, nl) =~= m.spec_name());
    assert(core.subrange(nl + 1, nl + 1 + ul) =~= url);
    assert(core.subrange(nl + 2 + ul, core.len() as int) =~= "HTTP/"@ + version);
}

proof fn lemma_valid_has_space(s: Seq<char>)
    requires
        valid_request_line(s),
    ensures
        exists|i: int| 0 <= i < strip_line_end(s).len() && strip_line_end(s)[i] == ' ',
{
    let (m, url, version) = choose|m: Method, url: Seq<char>, version: Seq<char>|
        matches_request_line(s, m, url, version);
    lemma_request_line_parts(s, m, url, version);
    let nl = m.spec_name().len() as int;
    assert(0 <= nl < strip_line_end(s).len() && strip_line_end(s)[nl] == ' ');
}

proof fn lemma_valid_method_token(s: Seq<char>, i: int)
    requires
        valid_request_line(s),
        least_char_at(strip_line_end(s), ' ', i),
    ensures
        Method::spec_token(strip_line_end(s).subrange(0, i)) is Some,
{
    let (m, url, version) = choose|m: Method, url: Seq<char>, version: Seq<char>|
        matches_request_line(s, m, url, version);
    lemma_request_line_parts(s, m, url, version);
    let nl = m.spec_name().len() as int;
    assert(i == nl);
    lemma_token_of_name(m);
}

proof fn lemma_valid_second_space(s: Seq<char>, i: int)
    requires
        valid_request_line(s),
        least_char_at(strip_line_end(s), ' ', i),
    ensures
        exists|j: int|
            0 <= j < strip_line_end(s).skip(i + 1).len() && #[trigger] strip_line_end(s).skip(
                i + 1,
            )[j] == ' ',
{
    let (m, url, version) = choose|m: Method, url: Seq<char>, version: Seq<char>|
        matches_request_line(s, m, url, version);
    lemma_request_line_parts(s, m, url, version);
    let core = strip_line_end(s);
    let nl = m.spec_name().len() as int;
    let ul = url.len() as int;
    assert(i == nl);
    let rest = core.skip(i + 1);
    assert(0 <= ul < rest.len() && rest[ul] == ' ');
}

proof fn lemma_valid_tail(s: Seq<char>, i: int, j: int)
    requires
        valid_request_line(s),
        least_char_at(strip_line_end(s), ' ', i),
        least_char_at(strip_line_end(s).skip(i + 1), ' ', j),
    ensures
        ({
            let rest = strip_line_end(s).skip(i + 1);
            let tail = rest.skip(j + 1);
            &&& is_path_seq(rest.subrange(0, j))
            &&& tail.len() == 8
            &&& tail.subrange(0, 5) == "HTTP/"@
            &&& is_version_seq(tail.subrange(5, 8))
        }),
{
    let (m, url, version) = choose|m: Method, url: Seq<char>, version: Seq<char>|
        matches_request_line(s, m, url, version);
    lemma_request_line_parts(s, m, url, version);
    reveal_strlit("HTTP/");
    let core = strip_line_end(s);
    let nl = m.spec_name().len() as int;
    let ul = url.len() as int;
    assert(i == nl);
    let rest = core.skip(i + 1);
    assert(forall|t: int| 0 <= t < rest.len() ==> rest[t] == core[nl + 1 + t]);
    assert forall|t: int| 0 <= t < ul implies rest[t] != ' ' by {
        assert(core[nl + 1 + t] == url[t]);
        assert(is_path_char(url[t]));
    }
    assert(rest[ul] == core[nl + 1 + ul]);
    assert(j == ul);
    assert(rest.subrange(0, j) =~= url);
    let tail = rest.skip(j + 1);
    assert(forall|t: int| 0 <= t < tail.len() ==> tail[t] == core[nl + 2 + ul + t]);
    assert(tail =~= core.subrange(nl + 2 + ul, core.len() as int));
    assert(tail.subrange(0, 5) =~= "HTTP/"@);
    assert(tail.subrange(5, 8) =~= version);
}

proof fn lemma_reassemble(core: Seq<char>, i: int, j: int, m: Method)
    requires
        0 <= i < core.len(),
        core[i] == ' ',
        0 <= j < core.skip(i + 1).len(),
        core.skip(i + 1)[j] == ' ',
        Method::spec_token(core.subrange(0, i)) == Some(m),
        core.skip(i + 1).skip(j + 1).len() == 8,
        core.skip(i + 1).skip(j + 1).subrange(0, 5) == "HTTP/"@,
    ensures
        core == m.spec_name() + seq![' '] + core.skip(i + 1).subrange(0, j) + seq![' ']
            + "HTTP/"@ + core.skip(i + 1).skip(j + 1).subrange(5, 8),
{
    reveal_strlit("HTTP/");
    let token = core.subrange(0, i);
    assert(token == m.spec_name());
    let rest = core.skip(i + 1);
    let url = rest.subrange(0, j);
    let tail = rest.skip(j + 1);
    let version = tail.subrange(5, 8);
    assert(forall|t: int| 0 <= t < rest.len() ==> rest[t] == core[i + 1 + t]);
    assert(forall|t: int| 0 <= t < tail.len() ==> tail[t] == rest[j + 1 + t]);
    assert(forall|t: int| 0 <= t < 5 ==> #[trigger] tail[t] == ("HTTP/"@)[t]) by {
        assert(forall|t: int| 0 <= t < 5 ==> #[trigger] tail.subrange(0, 5)[t] == tail[t]);
    }
    assert(core =~= m.spec_name() + seq![' '] + url + seq![' '] + "HTTP/"@ + version);
}

/// Parses the request line. Returns its decomposition exactly when the
/// line matches the grammar.
#[verifier::rlimit(100)]
pub fn parse_request_line(line: &str) -> (r: Option<(Method, String, String)>)
    ensures
        match r {
            Some(p) => matches_request_line(line@, p.0, p.1@, p.2@),
            None => !valid_request_line(line@),
        },
{
    let len = line.unicode_len();
    let mut end: usize = len;
    if end > 0 && line.get_char(end - 1) == '\n' {
        end = end - 1;
    }
    if end > 0 && line.get_char(end - 1) == '\r' {
        end = end - 1;
    }
    let core = line.substring_char(0, end);
    proof {
        assert(core@ =~= strip_line_end(line@));
    }
    let core_len = core.unicode_len();

    // Split off the method token at the first space.
    let i = match find_first_char(core, ' ') {
        Some(i) => i,
        None => {
            proof {
                if valid_request_line(line@) {
                    lemma_valid_has_space(line@);
                }
            }
            return None;
        },
    };
    proof {
        assert(least_char_at(core@, ' ', i as int));
    }
    let token = core.substring_char(0, i);
    let method = match Method::parse(token) {
        Some(m) => m,
        None => {
            proof {
                if valid_request_line(line@) {
                    lemma_valid_method_token(line@, i as int);
                }
            }
            return None;
        },
    };

    // Split off the path at the next space.
    let rest = core.substring_char(i + 1, core_len);
    let rest_len = core_len - (i + 1);
    proof {
        assert(rest@ =~= core@.skip(i + 1));
    }
    let j = match find_first_char(rest, ' ') {
        Some(j) => j,
        None => {
            proof {
                if valid_request_line(line@) {
                    lemma_valid_second_space(line@, i as int);
                }
            }
            return None;
        },
    };
    proof {
        assert(least_char_at(rest@, ' ', j as int));
    }
    let url = rest.substring_char(0, j);
    let url_len = j;

    // The path must be non-empty, begin with `/`, and hold only path
    // characters.
    let mut url_ok = url_len > 0 && url.get_char(0) == '/';
    let mut k: usize = 0;
    while url_ok && k < url_len
        invariant
            k <= url_len,
            url_len == url@.len(),
            url_ok ==> url_len > 0 && url@[0] == '/',
            url_ok ==> forall|t: int| 0 <= t < k ==> is_path_char(url@[t]),
            !url_ok ==> !is_path_seq(url@),
        decreases url_len - k,
    {
        if !path_char(url.get_char(k)) {
            url_ok = false;
        }
        k += 1;
    }

    // What remains must be `HTTP/` and a version of the form digit, dot,
    // digit.
    let tail = rest.substring_char(j + 1, rest_len);
    let tail_len = rest_len - (j + 1);
    proof {
        assert(tail@ =~= rest@.skip(j + 1));
    }
    let tail_ok = tail_len == 8 && str_eq(tail.substring_char(0, 5), "HTTP/");
    let mut version_ok = false;
    if tail_ok {
        let c0 = tail.get_char(5);
        let c1 = tail.get_char(6);
        let c2 = tail.get_char(7);
        version_ok = ('0' <= c0 && c0 <= '9') && c1 == '.' && ('0' <= c2 && c2 <= '9');
    }

    if url_ok && tail_ok && version_ok {
        let version = tail.substring_char(5, 8);
        proof {
            assert(is_path_seq(url@));
            assert(is_version_seq(version@));
            lemma_reassemble(core@, i as int, j as int, method);
        }
        Some((method, url.to_owned(), version.to_owned()))
    } else {
        proof {
            if valid_request_line(line@) {
                lemma_valid_tail(line@, i as int, j as int);
                assert(url@ =~= rest@.subrange(0, j as int));
                assert(is_path_seq(url@));
                assert(tail@.subrange(0, 5) == "HTTP/"@);
                assert(tail_ok);
                assert(is_version_seq(tail@.subrange(5, 8)));
                assert(tail@[5] == tail@.subrange(5, 8)[0]);
                assert(tail@[6] == tail@.subrange(5, 8)[1]);
                assert(tail@[7] == tail@.subrange(5, 8)[2]);
                assert(version_ok);
                assert(false);
            }
        }
        None
    }
}

/// The mathematical content of a request.
#[verifier::ext_equal]
pub struct RequestView {
    pub method: Method,
    pub url: Seq<char>,
    pub version: Seq<char>,
    pub headers: Seq<HeaderView>,
    pub body: Seq<char>,
}

/// A parsed HTTP request. The URL always begins with `/`.
#[derive(Debug)]
pub struct Request {
    pub method: Method,
    pub url: String,
    pub version: String,
    pub headers: Vec<Header>,
    pub body: String,
}

impl View for Request {
    type V = RequestView;

    open spec fn view(&self) -> RequestView {
        RequestView {
            method: self.method,
            url: self.url@,
            version: self.version@,
            headers: self.headers@.map_values(|h: Header| h@),
            body: self.body@,
        }
    }
}

impl Request {
    /// A one-line summary of the request: `METHOD url`.
    pub fn summary(&self) -> (r: String)
        ensures
            r@ == self@.method.spec_name() + seq![' '] + self@.url,
    {
        let mut out = self.method.name();
        proof {
            reveal_strlit(" ");
        }
        out.append(" ");
        out.append(self.url.as_str());
        proof {
            assert(out@ =~= self@.method.spec_name() + seq![' '] + self@.url);
        }
        out
    }
}

/// Why a connection's bytes could not be parsed into a request. Any of
/// these ends the connection; none of them is a server failure.
#[derive(Debug)]
pub enum ParseError {
    /// The request line did not match the grammar; carries the line.
    MalformedRequestLine(String),
    /// A header line was neither empty nor of the form `Key: Value`;
    /// carries the line.
    MalformedHeader(String),
    /// The body was not valid UTF-8.
    BodyNotUtf8,
}

/// What the parser needs next from the connection.
#[derive(Clone, Copy, Debug, PartialEq, Eq, Structural)]
pub enum NeedInput {
    /// One line, terminated by `\n`, or empty at end of input.
    Line,
    /// Exactly this many bytes.
    Body(usize),
    /// Nothing: the request is complete.
    Done,
}

/// The body length denoted by a `Content-Length` value: its decimal value
/// when it is a well-formed number that fits the machine word, and zero
/// otherwise.
pub open spec fn spec_content_length_value(v: Seq<char>) -> nat {
    if v.len() > 0 && all_digits(v) && digits_value(v) <= usize::MAX {
        digits_value(v)
    } else {
        0
    }
}

fn content_length_value(s: &str) -> (n: usize)
    ensures
        n as nat == spec_content_length_value(s@),
{
    match parse_usize(s) {
        Some(v) => v,
        None => 0,
    }
}

/// How one parsed header changes the expected body length: a
/// `Content-Length` header sets it, every other header leaves it.
pub open spec fn spec_header_step(h: HeaderView, cl: nat) -> nat {
    if h.key == "Content-Length"@ {
        spec_content_length_value(h.value)
    } else {
        cl
    }
}

/// The request parser's state, as it reads one request from a connection:
/// awaiting the request line, awaiting header lines, awaiting the body,
/// or holding the complete request.
pub enum RequestParser {
    Start,
    InHeaders {
        method: Method,
        url: String,
        version: String,
        headers: Vec<Header>,
        content_length: usize,
    },
    NeedBody {
        method: Method,
        url: String,
        version: String,
        headers: Vec<Header>,
        content_length: usize,
    },
    Complete { request: Request },
}

/// The mathematical content of a parser state.
#[verifier::ext_equal]
pub enum ParserView {
    Start,
    InHeaders {
        method: Method,
        url: Seq<char>,
        version: Seq<char>,
        headers: Seq<HeaderView>,
        content_length: nat,
    },
    NeedBody {
        method: Method,
        url: Seq<char>,
        version: Seq<char>,
        headers: Seq<HeaderView>,
        content_length: nat,
    },
    Complete { request: RequestView },
}

impl View for RequestParser {
    type V = ParserView;

    open spec fn view(&self) -> ParserView {
        match self {
            RequestParser::Start => ParserView::Start,
            RequestParser::InHeaders { method, url, version, headers, content_length } => {
                ParserView::InHeaders {
                    method: *method,
                    url: url@,
                    version: version@,
                    headers: headers@.map_values(|h: Header| h@),
                    content_length: *content_length as nat,
                }
            },
            RequestParser::NeedBody { method, url, version, headers, content_length } => {
                ParserView::NeedBody {
                    method: *method,
                    url: url@,
                    version: version@,
                    headers: headers@.map_values(|h: Header| h@),
                    content_length: *content_length as nat,
                }
            },
            RequestParser::Complete { request } => {
                ParserView::Complete { request: request@ }
            },
        }
    }
}

/// Turns body bytes into a string.
///
/// Relies on `String::from_utf8`: it succeeds exactly on the byte strings
/// that `vstd::utf8::valid_utf8` admits, and then decodes them as
/// `vstd::utf8::decode_utf8` describes.
#[verifier::external_body]
fn utf8_string(bytes: Vec<u8>) -> (r: Option<String>)
    ensures
        r is Some <==> valid_utf8(bytes@),
        r matches Some(s) ==> s@ == decode_utf8(bytes@),
{
    String::from_utf8(bytes).ok()
}

impl RequestParser {
    /// A parser awaiting the request line.
    pub fn new() -> (p: RequestParser)
        ensures
            p@ is Start,
    {
        RequestParser::Start
    }

    /// What the parser needs next.
    pub fn need(&self) -> (n: NeedInput)
        ensures
            self@ is Start || self@ is InHeaders ==> n is Line,
            self@ matches ParserView::NeedBody { content_length, .. } ==> n matches
                NeedInput::Body(b) && b as nat == content_length,
            self@ is Complete ==> n is Done,
    {
        match self {
            RequestParser::Start => NeedInput::Line,
            RequestParser::InHeaders { .. } => NeedInput::Line,
            RequestParser::NeedBody { content_length, .. } => NeedInput::Body(*content_length),
            RequestParser::Complete { .. } => NeedInput::Done,
        }
    }

    /// Feeds one line.
    ///
    /// At the start, an empty line (an empty first read) yields the
    /// default request `GET / HTTP/1.1`; otherwise the line must match the
    /// request-line grammar. Among the headers, a bare `\r\n` ends the
    /// header section; any other line is parsed as a header, and a
    /// `Content-Length` header sets the expected body length.
    #[verifier::rlimit(50)]
    pub fn feed_line(self, line: String) -> (r: Result<RequestParser, ParseError>)
        requires
            self@ is Start || self@ is InHeaders,
        ensures
            self@ is Start ==> (if line@.len() == 0 {
                r matches Ok(p) && p@ == (ParserView::InHeaders {
                    method: Method::GET,
                    url: "/"@,
                    version: "1.1"@,
                    headers: Seq::empty(),
                    content_length: 0,
                })
            } else if valid_request_line(line@) {
                r matches Ok(p) && (p@ matches ParserView::InHeaders {
                    method,
                    url,
                    version,
                    headers,
                    content_length,
                } && matches_request_line(line@, method, url, version) && headers
                    == Seq::<HeaderView>::empty() && content_length == 0)
            } else {
                r matches Err(ParseError::MalformedRequestLine(l)) && l@ == line@
            }),
            self@ matches ParserView::InHeaders {
                method,
                url,
                version,
                headers,
                content_length,
            } ==> (if line@ == "\r\n"@ {
                r matches Ok(p) && p@ == (ParserView::NeedBody {
                    method,
                    url,
                    version,
                    headers,
                    content_length,
                })
            } else {
                match spec_parse_header(line@) {
                    Some(h) => r matches Ok(p) && p@ == (ParserView::InHeaders {
                        method,
                        url,
                        version,
                        headers: headers.push(h),
                        content_length: spec_header_step(h, content_length),
                    }),
                    None => r matches Err(ParseError::MalformedHeader(l)) && l@ == line@,
                }
            }),
    {
        match self {
            RequestParser::Start => {
                if line.as_str().is_empty() {
                    let p = RequestParser::InHeaders {
                        method: Method::GET,
                        url: "/".to_owned(),
                        version: "1.1".to_owned(),
                        headers: Vec::new(),
                        content_length: 0,
                    };
                    proof {
                        assert(p@ =~= (ParserView::InHeaders {
                            method: Method::GET,
                            url: "/"@,
                            version: "1.1"@,
                            headers: Seq::empty(),
                            content_length: 0,
                        }));
                    }
                    Ok(p)
                } else {
                    match parse_request_line(line.as_str()) {
                        Some((method, url, version)) => {
                            let p = RequestParser::InHeaders {
                                method,
                                url,
                                version,
                                headers: Vec::new(),
                                content_length: 0,
                            };
                            proof {
                                assert(p@->InHeaders_headers =~= Seq::<HeaderView>::empty());
                            }
                            Ok(p)
                        },
                        None => Err(ParseError::MalformedRequestLine(line)),
                    }
                }
            },
            RequestParser::InHeaders { method, url, version, mut headers, content_length } => {
                if str_eq(line.as_str(), "\r\n") {
                    let p = RequestParser::NeedBody {
                        method,
                        url,
                        version,
                        headers,
                        content_length,
                    };
                    proof {
                        assert(p@ =~= (ParserView::NeedBody {
                            method,
                            url: url@,
                            version: version@,
                            headers: headers@.map_values(|h: Header| h@),
                            content_length: content_length as nat,
                        }));
                    }
                    Ok(p)
                } else {
                    match Header::from_line(line.as_str()) {
                        Some(h) => {
                            let cl: usize = if str_eq(h.key().as_str(), "Content-Length") {
                                content_length_value(h.value().as_str())
                            } else {
                                content_length
                            };
                            let ghost old_headers = headers@.map_values(|h: Header| h@);
                            let ghost hv = h@;
                            headers.push(h);
                            let p = RequestParser::InHeaders {
                                method,
                                url,
                                version,
                                headers,
                                content_length: cl,
                            };
                            proof {
                                assert(headers@.map_values(|h: Header| h@) =~= old_headers.push(
                                    hv,
                                ));
                            }
                            Ok(p)
                        },
                        None => Err(ParseError::MalformedHeader(line)),
                    }
                }
            },
            RequestParser::NeedBody { method, url, version, headers, content_length } => {
                proof {
                    assert(false);
                }
                Ok(RequestParser::NeedBody { method, url, version, headers, content_length })
            },
            RequestParser::Complete { request } => {
                proof {
                    assert(false);
                }
                Ok(RequestParser::Complete { request })
            },
        }
    }

    /// Feeds the body: exactly the announced number of bytes. The bytes
    /// must decode as UTF-8; anything else is a fatal parse error for the
    /// connection.
    pub fn feed_body(self, bytes: Vec<u8>) -> (r: Result<RequestParser, ParseError>)
        requires
            self@ matches ParserView::NeedBody { content_length, .. } && bytes@.len()
                == content_length,
        ensures
            self@ matches ParserView::NeedBody {
                method,
                url,
                version,
                headers,
                content_length,
            } ==> (if valid_utf8(bytes@) {
                r matches Ok(p) && p@ == (ParserView::Complete {
                    request: RequestView {
                        method,
                        url,
                        version,
                        headers,
                        body: decode_utf8(bytes@),
                    },
                })
            } else {
                r matches Err(e) && e is BodyNotUtf8
            }),
    {
        match self {
            RequestParser::NeedBody { method, url, version, headers, content_length: _ } => {
                match utf8_string(bytes) {
                    Some(body) => {
                        let p = RequestParser::Complete {
                            request: Request { method, url, version, headers, body },
                        };
                        Ok(p)
                    },
                    None => Err(ParseError::BodyNotUtf8),
                }
            },
            other => {
                proof {
                    assert(false);
                }
                Ok(other)
            },
        }
    }

    /// Hands out the complete request.
    pub fn into_request(self) -> (r: Request)
        requires
            self@ is Complete,
        ensures
            r@ == self@->request,
    {
        match self {
            RequestParser::Complete { request } => request,
            _ => {
                proof {
                    assert(false);
                }
                Request {
                    method: Method::GET,
                    url: String::new(),
                    version: String::new(),
                    headers: Vec::new(),
                    body: String::new(),
                }
            },
        }
    }
}

} // verus!
