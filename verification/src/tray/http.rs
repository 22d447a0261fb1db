//! The requests that the local control page accepts.

use crate::text;
use vstd::prelude::*;
use vstd::utf8::{encode_utf8, is_ascii_chars, valid_utf8};

verus! {

/// How much of a request is read, in bytes.
#[derive(Clone, Copy, PartialEq, Eq, Structural, Debug)]
pub struct HttpLimits {
    pub head: usize,
    pub body: usize,
}

/// What is wrong with a request.
#[derive(Debug)]
pub enum RequestFault {
    HeadTooLarge,
    ClosedInHead,
    HeadNotUtf8,
    HeadNotAscii,
    MalformedRequestLine,
    HttpVersion,
    Method,
    Target,
    QueryOrFragment,
    FoldedHeader,
    MalformedHeader,
    HeaderName,
    DuplicateHeader { name: String },
    TransferEncoding,
    ContentLength,
    BodyTooLarge,
    Pipelining,
    ClosedInBody,
}

impl RequestFault {
    /// The words in which the fault is reported.
    pub open spec fn text(self) -> Seq<char> {
        match self {
            RequestFault::HeadTooLarge => "request headers are too large"@,
            RequestFault::ClosedInHead => "connection closed before request headers"@,
            RequestFault::HeadNotUtf8 => "request headers are not valid UTF-8"@,
            RequestFault::HeadNotAscii => "request headers must be ASCII"@,
            RequestFault::MalformedRequestLine => "malformed request line"@,
            RequestFault::HttpVersion => "only HTTP/1.1 is supported"@,
            RequestFault::Method => "unsupported HTTP method"@,
            RequestFault::Target => "request target must be origin-form"@,
            RequestFault::QueryOrFragment => "query strings and fragments are not accepted"@,
            RequestFault::FoldedHeader => "folded headers are not accepted"@,
            RequestFault::MalformedHeader => "malformed request header"@,
            RequestFault::HeaderName => "invalid request header name"@,
            RequestFault::DuplicateHeader { name } => "duplicate request header: "@ + name@,
            RequestFault::TransferEncoding => "transfer encoding is not accepted"@,
            RequestFault::ContentLength => "invalid Content-Length"@,
            RequestFault::BodyTooLarge => "request body is too large"@,
            RequestFault::Pipelining => "HTTP pipelining is not accepted"@,
            RequestFault::ClosedInBody => "connection closed before request body"@,
        }
    }

    /// The words in which the fault is reported.
    pub fn message(&self) -> (r: String)
        ensures
            r@ == self.text(),
    {
        match self {
            RequestFault::HeadTooLarge => text::owned("request headers are too large"),
            RequestFault::ClosedInHead => text::owned("connection closed before request headers"),
            RequestFault::HeadNotUtf8 => text::owned("request headers are not valid UTF-8"),
            RequestFault::HeadNotAscii => text::owned("request headers must be ASCII"),
            RequestFault::MalformedRequestLine => text::owned("malformed request line"),
            RequestFault::HttpVersion => text::owned("only HTTP/1.1 is supported"),
            RequestFault::Method => text::owned("unsupported HTTP method"),
            RequestFault::Target => text::owned("request target must be origin-form"),
            RequestFault::QueryOrFragment => text::owned(
                "query strings and fragments are not accepted",
            ),
            RequestFault::FoldedHeader => text::owned("folded headers are not accepted"),
            RequestFault::MalformedHeader => text::owned("malformed request header"),
            RequestFault::HeaderName => text::owned("invalid request header name"),
            RequestFault::DuplicateHeader { name } => text::cat(
                "duplicate request header: ",
                name.as_str(),
            ),
            RequestFault::TransferEncoding => text::owned("transfer encoding is not accepted"),
            RequestFault::ContentLength => text::owned("invalid Content-Length"),
            RequestFault::BodyTooLarge => text::owned("request body is too large"),
            RequestFault::Pipelining => text::owned("HTTP pipelining is not accepted"),
            RequestFault::ClosedInBody => text::owned("connection closed before request body"),
        }
    }
}

// ---------------------------------------------------------------------------
// Finding the end of the head
// ---------------------------------------------------------------------------
/// `needle` stands in `haystack` at `at`.
pub open spec fn bytes_at(haystack: Seq<u8>, needle: Seq<u8>, at: int) -> bool {
    &&& 0 <= at
    &&& at + needle.len() <= haystack.len()
    &&& haystack.subrange(at, at + needle.len()) == needle
}

/// `at` is the first position of `needle` in `haystack`.
pub open spec fn first_bytes(haystack: Seq<u8>, needle: Seq<u8>, at: Option<int>) -> bool {
    match at {
        Some(i) => bytes_at(haystack, needle, i) && forall|j: int|
            0 <= j < i ==> !#[trigger] bytes_at(haystack, needle, j),
        None => forall|j: int| !#[trigger] bytes_at(haystack, needle, j),
    }
}

fn is_at(haystack: &Vec<u8>, needle: &Vec<u8>, at: usize) -> (r: bool)
    ensures
        r == bytes_at(haystack@, needle@, at as int),
{
    if needle.len() > haystack.len() || at > haystack.len() - needle.len() {
        return false;
    }
    let mut i: usize = 0;
    while i < needle.len()
        invariant
            i <= needle@.len(),
            at + needle@.len() <= haystack.len(),
            forall|j: int| 0 <= j < i ==> haystack@[at + j] == needle@[j],
        decreases needle@.len() - i,
    {
        if haystack[at + i] != needle[i] {
            assert(haystack@.subrange(at as int, at + needle@.len())[i as int] == haystack@[at
                + i]);
            return false;
        }
        i += 1;
    }
    assert(haystack@.subrange(at as int, at + needle@.len()) =~= needle@);
    true
}

/// The first position of `needle` in `haystack`.
pub fn find_bytes(haystack: &Vec<u8>, needle: &Vec<u8>) -> (r: Option<usize>)
    ensures
        match r {
            Some(i) => first_bytes(haystack@, needle@, Some(i as int)),
            None => first_bytes(haystack@, needle@, None),
        },
{
    let mut i: usize = 0;
    while i < haystack.len()
        invariant
            i <= haystack@.len(),
            forall|j: int| 0 <= j < i ==> !#[trigger] bytes_at(haystack@, needle@, j),
        decreases haystack@.len() - i,
    {
        if is_at(haystack, needle, i) {
            return Some(i);
        }
        i += 1;
    }
    if is_at(haystack, needle, i) {
        return Some(i);
    }
    None
}

/// The blank line that ends a head: two line ends in a row.
pub open spec fn head_end() -> Seq<u8> {
    seq![13u8, 10, 13, 10]
}

/// How long the head is, or `None` while more of it is to be read. A head that does not end
/// within the limit is refused.
pub fn head_length(received: &Vec<u8>, limits: HttpLimits) -> (r: Result<
    Option<usize>,
    RequestFault,
>)
    ensures
        match r {
            Ok(Some(length)) => length >= 4 && length <= limits.head && length <= received@.len()
                && first_bytes(received@, head_end(), Some(length - 4)),
            Ok(None) => first_bytes(received@, head_end(), None) && received@.len() < limits.head,
            Err(fault) => fault == RequestFault::HeadTooLarge && forall|at: int|
                #[trigger] bytes_at(received@, head_end(), at) && (forall|j: int|
                    0 <= j < at ==> !#[trigger] bytes_at(received@, head_end(), j)) ==> at + 4
                    > limits.head,
        },
        r is Err && first_bytes(received@, head_end(), None) ==> received@.len() >= limits.head,
{
    let mut end: Vec<u8> = Vec::new();
    end.push(13);
    end.push(10);
    end.push(13);
    end.push(10);
    assert(end@ == head_end());
    match find_bytes(received, &end) {
        Some(i) => {
            assert(bytes_at(received@, head_end(), i as int));
            assert(i + 4 <= received.len());
            let length: usize = i + 4;
            if length > limits.head {
                return Err(RequestFault::HeadTooLarge);
            }
            Ok(Some(length))
        },
        None => if received.len() < limits.head {
            Ok(None)
        } else {
            Err(RequestFault::HeadTooLarge)
        },
    }
}

// ---------------------------------------------------------------------------
// Lines and words
// ---------------------------------------------------------------------------
/// A line end stands at `at`.
pub open spec fn ends_line(s: Seq<char>, at: int) -> bool {
    0 <= at && at + 1 < s.len() && s[at] == '\r' && s[at + 1] == '\n'
}

/// The position of the first line end at or after `at`, or the length of `s`.
pub open spec fn line_end(s: Seq<char>, at: int) -> int
    decreases s.len() - at,
{
    if at >= s.len() {
        s.len() as int
    } else if ends_line(s, at) {
        at
    } else {
        line_end(s, at + 1)
    }
}

/// The lines of `s` from `at` on, without their ends; what follows the last end is a line too.
pub open spec fn lines_from(s: Seq<char>, at: int) -> Seq<Seq<char>>
    decreases s.len() + 1 - at,
{
    if at > s.len() || at < 0 {
        Seq::empty()
    } else {
        let end = line_end(s, at);
        if end >= s.len() || end < at {
            seq![s.subrange(at, s.len() as int)]
        } else {
            seq![s.subrange(at, end)] + lines_from(s, end + 2)
        }
    }
}

/// The lines of `chars`, without their ends.
pub fn split_lines(chars: &Vec<char>) -> (r: Vec<Vec<char>>)
    ensures
        text::char_views(r@) == lines_from(chars@, 0),
        r@.len() >= 1,
{
    let mut out: Vec<Vec<char>> = Vec::new();
    let mut from: usize = 0;
    let mut i: usize = 0;
    assert(text::char_views(out@) + lines_from(chars@, 0) == lines_from(chars@, 0));
    while i < chars.len()
        invariant
            from <= i <= chars@.len(),
            line_end(chars@, from as int) == line_end(chars@, i as int),
            text::char_views(out@) + lines_from(chars@, from as int) == lines_from(chars@, 0),
        decreases chars@.len() - i,
    {
        if chars[i] == '\r' && i + 1 < chars.len() && chars[i + 1] == '\n' {
            let ghost before = out@;
            let line = text::range_chars(chars, from, i);
            out.push(line);
            assert(text::char_views(out@) == text::char_views(before).push(line@));
            i = i + 2;
            assert(text::char_views(out@) + lines_from(chars@, i as int) == text::char_views(before)
                + lines_from(chars@, from as int));
            from = i;
        } else {
            i += 1;
        }
    }
    let ghost before = out@;
    let last = text::range_chars(chars, from, chars.len());
    out.push(last);
    assert(text::char_views(out@) == text::char_views(before).push(last@));
    assert(lines_from(chars@, from as int) == seq![last@]);
    assert(text::char_views(out@) == text::char_views(before) + seq![last@]);
    out
}

/// White space among the ASCII characters.
pub open spec fn is_blank(c: char) -> bool {
    c == ' ' || c == '\t' || c == '\n' || c == '\r' || c as u32 == 12
}

/// The words of `s` up to `n` and the unfinished one behind them.
pub open spec fn words_to(s: Seq<char>, n: int) -> (Seq<Seq<char>>, Seq<char>)
    decreases n,
{
    if n <= 0 {
        (Seq::empty(), Seq::empty())
    } else {
        let (done, word) = words_to(s, n - 1);
        if is_blank(s[n - 1]) {
            if word.len() > 0 {
                (done.push(word), Seq::empty())
            } else {
                (done, word)
            }
        } else {
            (done, word.push(s[n - 1]))
        }
    }
}

/// The words of `s`: the longest runs without white space.
pub open spec fn words(s: Seq<char>) -> Seq<Seq<char>> {
    let (done, word) = words_to(s, s.len() as int);
    if word.len() > 0 {
        done.push(word)
    } else {
        done
    }
}

/// The words of `chars`.
pub fn split_words(chars: &Vec<char>) -> (r: Vec<Vec<char>>)
    ensures
        text::char_views(r@) == words(chars@),
{
    let mut done: Vec<Vec<char>> = Vec::new();
    let mut word: Vec<char> = Vec::new();
    let mut i: usize = 0;
    assert(text::char_views(done@) == Seq::<Seq<char>>::empty());
    while i < chars.len()
        invariant
            i <= chars@.len(),
            text::char_views(done@) == words_to(chars@, i as int).0,
            word@ == words_to(chars@, i as int).1,
        decreases chars@.len() - i,
    {
        let c: char = chars[i];
        let ghost before = done@;
        let ghost unfinished = word@;
        if c == ' ' || c == '\t' || c == '\n' || c == '\r' || c as u32 == 12 {
            if word.len() > 0 {
                done.push(word);
                word = Vec::new();
                assert(text::char_views(done@) == text::char_views(before).push(unfinished));
                assert(word@ == Seq::<char>::empty());
            }
        } else {
            word.push(c);
        }
        i += 1;
    }
    if word.len() > 0 {
        let ghost before = done@;
        let ghost unfinished = word@;
        done.push(word);
        assert(text::char_views(done@) == text::char_views(before).push(unfinished));
    }
    done
}

// ---------------------------------------------------------------------------
// Headers
// ---------------------------------------------------------------------------
/// A header: its name in small letters, and its value without white space at its ends.
#[derive(Debug)]
pub struct Header {
    pub name: String,
    pub value: String,
}

/// `c` may stand in a header's name.
pub open spec fn is_token(c: char) -> bool {
    ||| '0' <= c && c <= '9'
    ||| 'a' <= c && c <= 'z'
    ||| 'A' <= c && c <= 'Z'
    ||| c == '!'
    ||| '#' <= c && c <= '\''
    ||| c == '*'
    ||| c == '+'
    ||| c == '-'
    ||| c == '.'
    ||| c == '^'
    ||| c == '_'
    ||| c == '`'
    ||| c == '|'
    ||| c == '~'
}

/// `s` may be a header's name.
pub open spec fn is_header_name(s: Seq<char>) -> bool {
    s.len() > 0 && forall|i: int| 0 <= i < s.len() ==> is_token(#[trigger] s[i])
}

fn header_name(chars: &Vec<char>) -> (r: bool)
    ensures
        r == is_header_name(chars@),
{
    if chars.len() == 0 {
        return false;
    }
    let mut i: usize = 0;
    while i < chars.len()
        invariant
            i <= chars@.len(),
            forall|j: int| 0 <= j < i ==> is_token(#[trigger] chars@[j]),
        decreases chars@.len() - i,
    {
        let c: char = chars[i];
        let token = ('0' <= c && c <= '9') || ('a' <= c && c <= 'z') || ('A' <= c && c <= 'Z') || c
            == '!' || ('#' <= c && c <= '\'') || c == '*' || c == '+' || c == '-' || c == '.' || c
            == '^' || c == '_' || c == '`' || c == '|' || c == '~';
        if !token {
            assert(!is_token(chars@[i as int]));
            return false;
        }
        i += 1;
    }
    true
}

/// A header by its characters.
pub type HeaderView = (Seq<char>, Seq<char>);

/// The characters of a header.
pub open spec fn header_view(h: Header) -> HeaderView {
    (h.name@, h.value@)
}

/// The characters of the headers.
pub open spec fn header_views(hs: Seq<Header>) -> Seq<HeaderView> {
    hs.map_values(|h: Header| header_view(h))
}

/// The fault of a header line, if it has one.
pub open spec fn line_fault(line: Seq<char>) -> Option<RequestFault> {
    let colon = text::first_index(line, ':');
    if line.len() > 0 && (line[0] == ' ' || line[0] == '\t') {
        Some(RequestFault::FoldedHeader)
    } else if !line.contains(':') {
        Some(RequestFault::MalformedHeader)
    } else if !is_header_name(line.take(colon)) {
        Some(RequestFault::HeaderName)
    } else {
        None
    }
}

/// What a header line says.
pub open spec fn line_header(line: Seq<char>) -> HeaderView {
    let colon = text::first_index(line, ':');
    (text::lowered(line.take(colon)), text::trimmed(line.skip(colon + 1)))
}

/// The value of the header `name`.
pub open spec fn value_of(headers: Seq<HeaderView>, name: Seq<char>) -> Option<Seq<char>>
    decreases headers.len(),
{
    if headers.len() == 0 {
        None
    } else if headers.last().0 == name {
        Some(headers.last().1)
    } else {
        value_of(headers.drop_last(), name)
    }
}

/// What the first `n` lines say as headers, or the fault of the first line that is at fault.
pub open spec fn headers_to(lines: Seq<Seq<char>>, n: int) -> Result<Seq<HeaderView>, HeadersFault>
    decreases n,
{
    if n <= 0 {
        Ok(Seq::empty())
    } else {
        match headers_to(lines, n - 1) {
            Err(fault) => Err(fault),
            Ok(headers) => match line_fault(lines[n - 1]) {
                Some(fault) => Err(HeadersFault::Line(fault)),
                None => {
                    let header = line_header(lines[n - 1]);
                    if value_of(headers, header.0) is Some {
                        Err(HeadersFault::Duplicate(header.0))
                    } else {
                        Ok(headers.push(header))
                    }
                },
            },
        }
    }
}

/// The fault of a block of headers.
pub enum HeadersFault {
    /// A line is at fault by itself.
    Line(RequestFault),
    /// This name occurs twice.
    Duplicate(Seq<char>),
}

impl HeadersFault {
    /// The fault as it is reported.
    pub open spec fn is(self, fault: RequestFault) -> bool {
        match self {
            HeadersFault::Line(line) => fault == line,
            HeadersFault::Duplicate(name) => fault matches RequestFault::DuplicateHeader {
                name: given,
            } && given@ == name,
        }
    }
}

/// The value of the header `name`.
pub fn find_header(headers: &Vec<Header>, name: &str) -> (r: Option<String>)
    ensures
        text::opt_view(r) == value_of(header_views(headers@), name@),
{
    let mut n: usize = headers.len();
    assert(header_views(headers@).take(n as int) == header_views(headers@));
    while n > 0
        invariant
            n <= headers@.len(),
            value_of(header_views(headers@), name@) == value_of(
                header_views(headers@).take(n as int),
                name@,
            ),
        decreases n,
    {
        let ghost shorter = header_views(headers@).take(n as int);
        assert(shorter.last() == header_view(headers@[n - 1]));
        assert(shorter.drop_last() == header_views(headers@).take(n - 1));
        if text::same(headers[n - 1].name.as_str(), name) {
            return Some(headers[n - 1].value.clone());
        }
        n -= 1;
    }
    None
}

/// The first position of `c`, or the length.
fn index_of(chars: &Vec<char>, c: char) -> (r: usize)
    ensures
        r == text::first_index(chars@, c),
        r <= chars@.len(),
        chars@.contains(c) <==> r < chars@.len(),
{
    let mut i: usize = 0;
    assert(chars@.skip(0) == chars@);
    while i < chars.len() && chars[i] != c
        invariant
            i <= chars@.len(),
            text::first_index(chars@, c) == i + text::first_index(chars@.skip(i as int), c),
            forall|j: int| 0 <= j < i ==> chars@[j] != c,
        decreases chars@.len() - i,
    {
        assert(chars@.skip(i as int).drop_first() == chars@.skip(i + 1));
        i += 1;
    }
    i
}

/// What a header line says.
fn read_header(line: &Vec<char>) -> (r: Result<Header, RequestFault>)
    ensures
        match line_fault(line@) {
            Some(fault) => r == Err::<Header, RequestFault>(fault),
            None => r matches Ok(header) && header_view(header) == line_header(line@),
        },
{
    if line.len() > 0 && (line[0] == ' ' || line[0] == '\t') {
        return Err(RequestFault::FoldedHeader);
    }
    let colon: usize = index_of(line, ':');
    if colon == line.len() {
        return Err(RequestFault::MalformedHeader);
    }
    let name = text::range_chars(line, 0, colon);
    assert(name@ == line@.take(colon as int));
    if !header_name(&name) {
        return Err(RequestFault::HeaderName);
    }
    let value = text::range_chars(line, colon + 1, line.len());
    assert(value@ == line@.skip(colon + 1));
    Ok(
        Header {
            name: text::lower(text::from_chars(&name).as_str()),
            value: text::from_chars(&text::trim_chars(&value)),
        },
    )
}

/// What the lines from the second on say as headers.
fn read_headers(lines: &Vec<Vec<char>>) -> (r: Result<Vec<Header>, RequestFault>)
    requires
        lines@.len() >= 1,
    ensures
        match headers_to(text::char_views(lines@).drop_first(), lines@.len() - 1) {
            Ok(headers) => r matches Ok(read) && header_views(read@) == headers,
            Err(fault) => r matches Err(given) && fault.is(given),
        },
{
    let ghost rest = text::char_views(lines@).drop_first();
    let mut headers: Vec<Header> = Vec::new();
    let mut i: usize = 1;
    assert(header_views(headers@) == Seq::<HeaderView>::empty());
    while i < lines.len()
        invariant
            1 <= i <= lines@.len(),
            rest == text::char_views(lines@).drop_first(),
            headers_to(rest, i - 1) == Ok::<Seq<HeaderView>, HeadersFault>(header_views(headers@)),
        decreases lines@.len() - i,
    {
        assert(rest[i - 1] == lines@[i as int]@);
        match read_header(&lines[i]) {
            Err(fault) => {
                proof {
                    lemma_fault_stays(rest, i as int, lines@.len() - 1);
                }
                return Err(fault);
            },
            Ok(header) => {
                if find_header(&headers, header.name.as_str()).is_some() {
                    proof {
                        lemma_fault_stays(rest, i as int, lines@.len() - 1);
                    }
                    return Err(RequestFault::DuplicateHeader { name: header.name });
                }
                let ghost before = headers@;
                headers.push(header);
                assert(header_views(headers@) == header_views(before).push(header_view(header)));
            },
        }
        i += 1;
    }
    Ok(headers)
}

/// The first fault among the headers is the fault of them all.
proof fn lemma_fault_stays(lines: Seq<Seq<char>>, n: int, m: int)
    requires
        0 <= n <= m,
        headers_to(lines, n) is Err,
    ensures
        headers_to(lines, m) == headers_to(lines, n),
    decreases m - n,
{
    if n < m {
        lemma_fault_stays(lines, n, m - 1);
    }
}

// ---------------------------------------------------------------------------
// The head of a request
// ---------------------------------------------------------------------------
/// The head of a request.
#[derive(Debug)]
pub struct RequestHead {
    pub method: String,
    pub target: String,
    pub headers: Vec<Header>,
    pub content_length: usize,
}

/// The fault of a request line, if it has one.
pub open spec fn request_line_fault(line: Seq<char>) -> Option<RequestFault> {
    let parts = words(line);
    if parts.len() != 3 {
        Some(RequestFault::MalformedRequestLine)
    } else if parts[2] != "HTTP/1.1"@ {
        Some(RequestFault::HttpVersion)
    } else if parts[0] != "GET"@ && parts[0] != "POST"@ {
        Some(RequestFault::Method)
    } else if parts[1][0] != '/' {
        Some(RequestFault::Target)
    } else if parts[1].contains('?') || parts[1].contains('#') {
        Some(RequestFault::QueryOrFragment)
    } else {
        None
    }
}

/// How long the body is that the headers announce, or what is wrong with what they say of it.
pub open spec fn announced_length(headers: Seq<HeaderView>, limits: HttpLimits) -> Result<
    nat,
    RequestFault,
> {
    if value_of(headers, "transfer-encoding"@) is Some {
        Err(RequestFault::TransferEncoding)
    } else {
        match value_of(headers, "content-length"@) {
            None => Ok(0),
            Some(value) => match text::unsigned_value(value) {
                Some(length) if length <= usize::MAX => if length <= limits.body {
                    Ok(length)
                } else {
                    Err(RequestFault::BodyTooLarge)
                },
                _ => Err(RequestFault::ContentLength),
            },
        }
    }
}

/// What the head says, given its characters without the blank line.
pub open spec fn head_verdict(
    head: Seq<char>,
    limits: HttpLimits,
    verdict: Result<RequestHead, RequestFault>,
) -> bool {
    let lines = lines_from(head, 0);
    let parts = words(lines[0]);
    match request_line_fault(lines[0]) {
        Some(fault) => verdict == Err::<RequestHead, RequestFault>(fault),
        None => match headers_to(lines.drop_first(), lines.len() - 1) {
            Err(fault) => verdict matches Err(given) && fault.is(given),
            Ok(headers) => match announced_length(headers, limits) {
                Err(fault) => verdict == Err::<RequestHead, RequestFault>(fault),
                Ok(length) => verdict matches Ok(read) && {
                    &&& read.method@ == parts[0]
                    &&& read.target@ == parts[1]
                    &&& header_views(read.headers@) == headers
                    &&& read.content_length == length
                },
            },
        },
    }
}

/// What the words of a request line leave open is never an empty word.
proof fn lemma_words_not_empty(s: Seq<char>, n: int)
    ensures
        forall|i: int|
            0 <= i < words_to(s, n).0.len() ==> (#[trigger] words_to(s, n).0[i]).len() > 0,
    decreases n,
{
    if n > 0 {
        lemma_words_not_empty(s, n - 1);
        let before = words_to(s, n - 1).0;
        let after = words_to(s, n).0;
        assert forall|i: int| 0 <= i < after.len() implies (#[trigger] after[i]).len() > 0 by {
            if i < before.len() {
                assert(after[i] == before[i]);
            }
        }
    }
}

/// Read the body's length out of the headers.
fn body_length(headers: &Vec<Header>, limits: HttpLimits) -> (r: Result<usize, RequestFault>)
    ensures
        match announced_length(header_views(headers@), limits) {
            Ok(length) => r matches Ok(read) && read == length,
            Err(fault) => r == Err::<usize, RequestFault>(fault),
        },
{
    if find_header(headers, "transfer-encoding").is_some() {
        return Err(RequestFault::TransferEncoding);
    }
    match find_header(headers, "content-length") {
        None => Ok(0),
        Some(value) => match text::parse_unsigned(
            &text::to_chars(value.as_str()),
            usize::MAX as u64,
        ) {
            None => Err(RequestFault::ContentLength),
            Some(length) => if length as usize <= limits.body {
                Ok(length as usize)
            } else {
                Err(RequestFault::BodyTooLarge)
            },
        },
    }
}

/// Read the head, given its characters without the blank line.
pub fn read_head(head: &Vec<char>, limits: HttpLimits) -> (r: Result<RequestHead, RequestFault>)
    ensures
        head_verdict(head@, limits, r),
{
    let lines = split_lines(head);
    let ghost views = text::char_views(lines@);
    assert(views[0] == lines@[0]@);
    let parts = split_words(&lines[0]);
    let ghost part_views = text::char_views(parts@);
    if parts.len() != 3 {
        assert(part_views.len() != 3);
        return Err(RequestFault::MalformedRequestLine);
    }
    assert(part_views[0] == parts@[0]@ && part_views[1] == parts@[1]@ && part_views[2]
        == parts@[2]@);
    let version = text::to_chars("HTTP/1.1");
    if !text::same_chars(&parts[2], &version) {
        return Err(RequestFault::HttpVersion);
    }
    let get = text::to_chars("GET");
    let post = text::to_chars("POST");
    if !text::same_chars(&parts[0], &get) && !text::same_chars(&parts[0], &post) {
        return Err(RequestFault::Method);
    }
    proof {
        lemma_words_not_empty(lines@[0]@, lines@[0]@.len() as int);
    }
    if parts[1][0] != '/' {
        return Err(RequestFault::Target);
    }
    if text::has_char(&parts[1], '?') || text::has_char(&parts[1], '#') {
        return Err(RequestFault::QueryOrFragment);
    }
    let headers = match read_headers(&lines) {
        Err(fault) => {
            return Err(fault);
        },
        Ok(headers) => headers,
    };
    match body_length(&headers, limits) {
        Err(fault) => Err(fault),
        Ok(content_length) => Ok(
            RequestHead {
                method: text::from_chars(&parts[0]),
                target: text::from_chars(&parts[1]),
                headers,
                content_length,
            },
        ),
    }
}

/// What the head of a request says, given what was received and how long the head is: the head
/// must be ASCII.
pub open spec fn received_verdict(
    received: Seq<u8>,
    head_length: int,
    limits: HttpLimits,
    verdict: Result<RequestHead, RequestFault>,
) -> bool {
    let bytes = received.take(head_length - 4);
    if !valid_utf8(bytes) {
        verdict == Err::<RequestHead, RequestFault>(RequestFault::HeadNotUtf8)
    } else {
        exists|head: Seq<char>| #[trigger]
            encode_utf8(head) == bytes && if !is_ascii_chars(head) {
                verdict == Err::<RequestHead, RequestFault>(RequestFault::HeadNotAscii)
            } else {
                head_verdict(head, limits, verdict)
            }
    }
}

/// Read the head of a request.
pub fn parse_head(received: &Vec<u8>, head_length: usize, limits: HttpLimits) -> (r: Result<
    RequestHead,
    RequestFault,
>)
    requires
        4 <= head_length <= received@.len(),
    ensures
        received_verdict(received@, head_length as int, limits, r),
{
    let bytes = text::range_bytes(received, 0, head_length - 4);
    assert(bytes@ == received@.take(head_length - 4));
    match text::read_utf8(&bytes) {
        None => Err(RequestFault::HeadNotUtf8),
        Some(head) => {
            assert(encode_utf8(head@) == bytes@);
            if !head.is_ascii() {
                return Err(RequestFault::HeadNotAscii);
            }
            read_head(&text::to_chars(head), limits)
        },
    }
}

// ---------------------------------------------------------------------------
// The body of a request
// ---------------------------------------------------------------------------
/// The most that is read at a time, in bytes.
pub const CHUNK_BYTES: usize = 2048;

/// A request.
#[derive(Debug)]
pub struct LocalHttpRequest {
    pub method: String,
    pub target: String,
    pub headers: Vec<Header>,
    pub body: Vec<u8>,
}

/// How many bytes of the body to ask for next: none when it is complete. More than the body is
/// refused.
pub fn next_body_read(received: usize, head_length: usize, content_length: usize) -> (r: Result<
    usize,
    RequestFault,
>)
    requires
        head_length + content_length <= usize::MAX,
    ensures
        received > head_length + content_length ==> r == Err::<usize, RequestFault>(
            RequestFault::Pipelining,
        ),
        received <= head_length + content_length ==> r == Ok::<usize, RequestFault>(
            if head_length + content_length - received <= CHUNK_BYTES {
                (head_length + content_length - received) as usize
            } else {
                CHUNK_BYTES
            },
        ),
{
    let expected: usize = head_length + content_length;
    if received > expected {
        return Err(RequestFault::Pipelining);
    }
    let remaining: usize = expected - received;
    if remaining <= CHUNK_BYTES {
        Ok(remaining)
    } else {
        Ok(CHUNK_BYTES)
    }
}

/// The request whose head and body were received.
pub fn complete_request(head: RequestHead, received: &Vec<u8>, head_length: usize) -> (r:
    LocalHttpRequest)
    requires
        head_length <= received@.len(),
    ensures
        r.method == head.method,
        r.target == head.target,
        r.headers == head.headers,
        r.body@ == received@.skip(head_length as int),
{
    LocalHttpRequest {
        method: head.method,
        target: head.target,
        headers: head.headers,
        body: text::range_bytes(received, head_length, received.len()),
    }
}

/// A request is accepted only with a line that names one of the two methods and a plain path,
/// with no header twice, and with a body that is announced and within its limit.
pub proof fn an_accepted_head_is_plain(head: Seq<char>, limits: HttpLimits, read: RequestHead)
    requires
        head_verdict(head, limits, Ok(read)),
    ensures
        read.method@ == "GET"@ || read.method@ == "POST"@,
        !read.target@.contains('?') && !read.target@.contains('#'),
        read.content_length <= limits.body,
        value_of(header_views(read.headers@), "transfer-encoding"@) is None,
        forall|i: int, j: int|
            0 <= i < j < read.headers@.len() ==> #[trigger] read.headers@[i].name@
                != #[trigger] read.headers@[j].name@,
{
    let lines = lines_from(head, 0);
    let views = header_views(read.headers@);
    lemma_names_differ(lines.drop_first(), lines.len() - 1);
    assert forall|i: int, j: int| 0 <= i < j < read.headers@.len() implies #[trigger]
        read.headers@[i].name@ != #[trigger] read.headers@[j].name@ by {
        assert(views[i].0 == read.headers@[i].name@ && views[j].0 == read.headers@[j].name@);
    }
}

/// A name that has no value does not occur.
proof fn lemma_absent(headers: Seq<HeaderView>, name: Seq<char>)
    requires
        value_of(headers, name) is None,
    ensures
        forall|i: int| 0 <= i < headers.len() ==> (#[trigger] headers[i]).0 != name,
    decreases headers.len(),
{
    if headers.len() > 0 {
        lemma_absent(headers.drop_last(), name);
        assert forall|i: int| 0 <= i < headers.len() implies (#[trigger] headers[i]).0 != name by {
            if i < headers.len() - 1 {
                assert(headers.drop_last()[i] == headers[i]);
            }
        }
    }
}

/// Headers that are read all have different names.
proof fn lemma_names_differ(lines: Seq<Seq<char>>, n: int)
    requires
        headers_to(lines, n) is Ok,
    ensures
        forall|i: int, j: int|
            0 <= i < j < headers_to(lines, n)->Ok_0.len() ==> (#[trigger] headers_to(
                lines,
                n,
            )->Ok_0[i]).0 != (#[trigger] headers_to(lines, n)->Ok_0[j]).0,
    decreases n,
{
    if n > 0 {
        lemma_names_differ(lines, n - 1);
        let before = headers_to(lines, n - 1)->Ok_0;
        let after = headers_to(lines, n)->Ok_0;
        lemma_absent(before, after.last().0);
        assert forall|i: int, j: int| 0 <= i < j < after.len() implies (#[trigger] after[i]).0 != (
        #[trigger] after[j]).0 by {
            assert(after[i] == before[i]);
            if j < before.len() {
                assert(after[j] == before[j]);
            }
        }
    }
}

// ---------------------------------------------------------------------------
// Responses
// ---------------------------------------------------------------------------
/// The head of a response: the page must not be cached, framed, sniffed or sent elsewhere.
pub open spec fn response_head(status: Seq<char>, content_type: Seq<char>, length: nat) -> Seq<char> {
    "HTTP/1.1 "@ + status + "\r\nContent-Type: "@ + content_type + "\r\nContent-Length: "@
        + text::decimal(length)
        + "\r\nConnection: close\r\nCache-Control: no-store, max-age=0\r\nPragma: no-cache\r\nReferrer-Policy: no-referrer\r\nX-Content-Type-Options: nosniff\r\nX-Frame-Options: DENY\r\nContent-Security-Policy: default-src 'none'; script-src 'self'; connect-src 'self'; style-src 'unsafe-inline'; form-action 'self'; base-uri 'none'; frame-ancestors 'none'\r\n\r\n"@
}

/// The head of a response.
pub fn render_response_head(status: &str, content_type: &str, length: usize) -> (r: String)
    ensures
        r@ == response_head(status@, content_type@, length as nat),
{
    let mut out = text::cat5(
        "HTTP/1.1 ",
        status,
        "\r\nContent-Type: ",
        content_type,
        "\r\nContent-Length: ",
    );
    out.append(text::decimal_text(length as u64).as_str());
    out.append(
        "\r\nConnection: close\r\nCache-Control: no-store, max-age=0\r\nPragma: no-cache\r\nReferrer-Policy: no-referrer\r\nX-Content-Type-Options: nosniff\r\nX-Frame-Options: DENY\r\nContent-Security-Policy: default-src 'none'; script-src 'self'; connect-src 'self'; style-src 'unsafe-inline'; form-action 'self'; base-uri 'none'; frame-ancestors 'none'\r\n\r\n",
    );
    out
}

/// The lines of a head, put together again with their ends, are the head; so nothing of it is lost
/// or added.
pub proof fn the_lines_make_up_the_head(s: Seq<char>, at: int)
    requires
        0 <= at <= s.len(),
    ensures
        lines_from(s, at).len() >= 1,
        text::joined(lines_from(s, at), seq!['\r', '\n']) == s.skip(at),
    decreases s.len() - at,
{
    lemma_line_end(s, at);
    let end = line_end(s, at);
    let sep = seq!['\r', '\n'];
    if end >= s.len() {
        let line = s.subrange(at, s.len() as int);
        assert(seq![line].drop_first() == Seq::<Seq<char>>::empty());
        lemma_joined_one(line, sep);
        assert(line == s.skip(at));
    } else {
        the_lines_make_up_the_head(s, end + 2);
        let line = s.subrange(at, end);
        let rest = lines_from(s, end + 2);
        lemma_joined_more(line, rest, sep);
        assert(s.skip(at) == line + sep + s.skip(end + 2));
    }
}

proof fn lemma_joined_one(line: Seq<char>, sep: Seq<char>)
    ensures
        text::joined(seq![line], sep) == line,
{
    reveal_with_fuel(text::joined, 2);
    assert(seq![line].drop_last() == Seq::<Seq<char>>::empty());
    assert(Seq::<char>::empty() + line == line);
}

proof fn lemma_joined_more(first: Seq<char>, rest: Seq<Seq<char>>, sep: Seq<char>)
    requires
        rest.len() >= 1,
    ensures
        text::joined(seq![first] + rest, sep) == first + sep + text::joined(rest, sep),
    decreases rest.len(),
{
    let all = seq![first] + rest;
    if rest.len() == 1 {
        assert(all.drop_last() == seq![first]);
        lemma_joined_one(first, sep);
        assert(rest == seq![rest[0]]);
        lemma_joined_one(rest[0], sep);
    } else {
        lemma_joined_more(first, rest.drop_last(), sep);
        assert(all.drop_last() == seq![first] + rest.drop_last());
    }
}

proof fn lemma_line_end(s: Seq<char>, at: int)
    requires
        0 <= at <= s.len(),
    ensures
        at <= line_end(s, at) <= s.len(),
        line_end(s, at) < s.len() ==> ends_line(s, line_end(s, at)),
        forall|i: int| at <= i < line_end(s, at) ==> !ends_line(s, i),
    decreases s.len() - at,
{
    if at < s.len() && !ends_line(s, at) {
        lemma_line_end(s, at + 1);
    }
}

/// The text is a word: there is something in it, and no blank.
pub open spec fn is_word(s: Seq<char>) -> bool {
    s.len() > 0 && forall|i: int| 0 <= i < s.len() ==> !is_blank(#[trigger] s[i])
}

proof fn lemma_word_run(s: Seq<char>, from: int, to: int)
    requires
        0 <= from <= to <= s.len(),
        forall|i: int| from <= i < to ==> !is_blank(#[trigger] s[i]),
    ensures
        words_to(s, to) == (words_to(s, from).0, words_to(s, from).1 + s.subrange(from, to)),
    decreases to - from,
{
    if from < to {
        lemma_word_run(s, from, to - 1);
        assert(s.subrange(from, to) == s.subrange(from, to - 1).push(s[to - 1]));
        assert(words_to(s, from).1 + s.subrange(from, to - 1).push(s[to - 1]) == (words_to(
            s,
            from,
        ).1 + s.subrange(from, to - 1)).push(s[to - 1]));
    } else {
        assert(s.subrange(from, to) == Seq::<char>::empty());
        assert(words_to(s, from).1 + Seq::<char>::empty() == words_to(s, from).1);
    }
}

/// A request line of three words falls into just these.
pub proof fn a_request_line_has_three_words(a: Seq<char>, b: Seq<char>, c: Seq<char>)
    requires
        is_word(a),
        is_word(b),
        is_word(c),
    ensures
        words(a + seq![' '] + b + seq![' '] + c) == seq![a, b, c],
{
    let s = a + seq![' '] + b + seq![' '] + c;
    let p = a.len() as int;
    let q = p + 1 + b.len();
    let n = s.len() as int;
    assert forall|i: int| 0 <= i < p implies !is_blank(#[trigger] s[i]) by {
        assert(s[i] == a[i]);
    }
    assert forall|i: int| p + 1 <= i < q implies !is_blank(#[trigger] s[i]) by {
        assert(s[i] == b[i - p - 1]);
    }
    assert forall|i: int| q + 1 <= i < n implies !is_blank(#[trigger] s[i]) by {
        assert(s[i] == c[i - q - 1]);
    }
    lemma_word_run(s, 0, p);
    assert(s.subrange(0, p) == a);
    assert(Seq::<char>::empty() + a == a);
    assert(s[p] == ' ' && s[q] == ' ');
    lemma_word_run(s, p + 1, q);
    assert(s.subrange(p + 1, q) == b);
    assert(Seq::<char>::empty() + b == b);
    lemma_word_run(s, q + 1, n);
    assert(s.subrange(q + 1, n) == c);
    assert(Seq::<char>::empty() + c == c);
    assert(words_to(s, p).0 == Seq::<Seq<char>>::empty());
    assert(words_to(s, p + 1).0 == Seq::<Seq<char>>::empty().push(a));
    assert(words_to(s, q + 1).0 == Seq::<Seq<char>>::empty().push(a).push(b));
    assert(words(s) == Seq::<Seq<char>>::empty().push(a).push(b).push(c));
    assert(Seq::<Seq<char>>::empty().push(a).push(b).push(c) == seq![a, b, c]);
}

/// Which request lines are accepted: those of the two methods, for a plain path, in this version of
/// the protocol.
pub proof fn which_request_lines_are_accepted(
    method: Seq<char>,
    target: Seq<char>,
    version: Seq<char>,
)
    requires
        is_word(method),
        is_word(target),
        is_word(version),
    ensures
        request_line_fault(method + seq![' '] + target + seq![' '] + version) is None <==> {
            &&& version == "HTTP/1.1"@
            &&& method == "GET"@ || method == "POST"@
            &&& target[0] == '/'
            &&& !target.contains('?')
            &&& !target.contains('#')
        },
{
    a_request_line_has_three_words(method, target, version);
}

/// Each line of headers that is accepted is one header: its name, in small letters, is what stands
/// before the first colon, and its value what stands behind it, without blanks around it; and no
/// name comes twice.
pub proof fn each_line_is_a_header(lines: Seq<Seq<char>>, n: int)
    requires
        0 <= n <= lines.len(),
        headers_to(lines, n) is Ok,
    ensures
        headers_to(lines, n)->Ok_0.len() == n,
        forall|i: int|
            0 <= i < n ==> {
                let line = #[trigger] lines[i];
                let colon = text::first_index(line, ':');
                &&& headers_to(lines, n)->Ok_0[i].0 == text::lowered(line.take(colon))
                &&& headers_to(lines, n)->Ok_0[i].1 == text::trimmed(line.skip(colon + 1))
                &&& line.contains(':')
                &&& is_header_name(line.take(colon))
                &&& line[0] != ' ' && line[0] != '\t'
            },
    decreases n,
{
    if n > 0 {
        each_line_is_a_header(lines, n - 1);
    }
}

/// A header is found by its name, whatever other headers there are.
pub proof fn a_header_is_found(headers: Seq<HeaderView>, i: int)
    requires
        0 <= i < headers.len(),
        forall|j: int| i < j < headers.len() ==> (#[trigger] headers[j]).0 != headers[i].0,
    ensures
        value_of(headers, headers[i].0) == Some(headers[i].1),
    decreases headers.len(),
{
    if i < headers.len() - 1 {
        assert(headers[headers.len() - 1].0 != headers[i].0);
        assert(headers.drop_last()[i] == headers[i]);
        a_header_is_found(headers.drop_last(), i);
    }
}

/// A header that is not there is not found.
pub proof fn no_header_is_made_up(headers: Seq<HeaderView>, name: Seq<char>)
    requires
        forall|i: int| 0 <= i < headers.len() ==> (#[trigger] headers[i]).0 != name,
    ensures
        value_of(headers, name) is None,
    decreases headers.len(),
{
    if headers.len() > 0 {
        assert(headers[headers.len() - 1].0 != name);
        assert forall|i: int| 0 <= i < headers.drop_last().len() implies (
        #[trigger] headers.drop_last()[i]).0 != name by {
            assert(headers.drop_last()[i] == headers[i]);
        }
        no_header_is_made_up(headers.drop_last(), name);
    }
}

/// The body is as long as it is announced, nothing where it is not, and within its limit; a body
/// that is sent in another way is refused.
pub proof fn how_long_a_body_may_be(headers: Seq<HeaderView>, limits: HttpLimits)
    ensures
        ({
            let length = announced_length(headers, limits);
            let given = value_of(headers, "content-length"@);
            &&& value_of(headers, "transfer-encoding"@) is Some ==> length == Err::<
                nat,
                RequestFault,
            >(RequestFault::TransferEncoding)
            &&& value_of(headers, "transfer-encoding"@) is None && given is None ==> length == Ok::<
                nat,
                RequestFault,
            >(0)
            &&& length matches Ok(n) ==> n <= limits.body || n == 0
            &&& length matches Ok(n) ==> given is None || text::unsigned_value(given->0) == Some(n)
            &&& value_of(headers, "transfer-encoding"@) is None && (given matches Some(value)
                && (text::unsigned_value(value) matches Some(n) && n <= limits.body))
                ==> length is Ok
        }),
{
}

/// A head is accepted exactly where its request line, its headers and its body's length are, and is
/// then read as they say.
pub proof fn which_heads_are_accepted(
    head: Seq<char>,
    limits: HttpLimits,
    verdict: Result<RequestHead, RequestFault>,
)
    requires
        head_verdict(head, limits, verdict),
    ensures
        ({
            let lines = lines_from(head, 0);
            let headers = headers_to(lines.drop_first(), lines.len() - 1);
            &&& verdict is Ok <==> request_line_fault(lines[0]) is None && headers is Ok
                && announced_length(headers->Ok_0, limits) is Ok
            &&& verdict matches Ok(read) ==> {
                &&& read.method@ == words(lines[0])[0]
                &&& read.target@ == words(lines[0])[1]
                &&& header_views(read.headers@) == headers->Ok_0
                &&& read.content_length == announced_length(headers->Ok_0, limits)->Ok_0
            }
        }),
{
}

/// The rest of a body is asked for in pieces; with nothing left, none is asked for, and more than
/// the body is refused.
pub proof fn how_much_of_a_body_is_asked_for(
    received: usize,
    head_length: usize,
    content_length: usize,
    r: Result<usize, RequestFault>,
)
    requires
        head_length + content_length <= usize::MAX,
        call_ensures(next_body_read, (received, head_length, content_length), r),
    ensures
        r is Err <==> received > head_length + content_length,
        r matches Ok(more) ==> {
            let left = head_length + content_length - received;
            &&& more <= left
            &&& more <= 2048
            &&& more == left || more == 2048
        },
        r matches Err(fault) ==> fault == RequestFault::Pipelining,
{
}

} // verus!
