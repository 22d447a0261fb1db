//! Addresses of servers: which ones reports and pairing requests may be sent to.

use crate::text;
use vstd::prelude::*;
use vstd::utf8::encode_utf8;

verus! {

/// What the rules on addresses look at in a parsed URL.
#[derive(Debug)]
pub struct UrlParts {
    pub scheme: String,
    pub username: String,
    /// There is a password, if only an empty one.
    pub password: bool,
    pub host: Option<String>,
    pub path: String,
    pub query: Option<String>,
    pub fragment: Option<String>,
    /// What stands behind the scheme does not begin with a slash, as in `mailto:a@b`.
    pub opaque: bool,
    /// The length of the URL's normal form in bytes.
    pub length: usize,
}

/// The contents of [`UrlParts`].
pub struct UrlView {
    pub scheme: Seq<char>,
    pub username: Seq<char>,
    pub password: bool,
    pub host: Option<Seq<char>>,
    pub path: Seq<char>,
    pub query: Option<Seq<char>>,
    pub fragment: Option<Seq<char>>,
    pub opaque: bool,
    pub length: usize,
}

impl View for UrlParts {
    type V = UrlView;

    open spec fn view(&self) -> UrlView {
        UrlView {
            scheme: self.scheme@,
            username: self.username@,
            password: self.password,
            host: text::opt_view(self.host),
            path: self.path@,
            query: text::opt_view(self.query),
            fragment: text::opt_view(self.fragment),
            opaque: self.opaque,
            length: self.length,
        }
    }
}

/// What `reqwest::Url::parse` and the accessors of the parsed URL say of a text; nothing where
/// the text is no URL.
pub uninterp spec fn url_read(text: Seq<char>) -> Option<UrlView>;

/// `reqwest::Url::parse`, then the parsed URL's scheme, user name, password, host, path, query
/// and fragment, whether it cannot be a base, and its length, as plain values.
#[verifier::external_body]
fn parse_url(text: &str) -> (r: Option<UrlParts>)
    ensures
        match r {
            Some(parts) => url_read(text@) == Some(parts@),
            None => url_read(text@) is None,
        },
{
    reqwest::Url::parse(text).ok().map(|url| UrlParts {
        scheme: url.scheme().to_string(),
        username: url.username().to_string(),
        password: url.password().is_some(),
        host: url.host_str().map(|host| host.to_string()),
        path: url.path().to_string(),
        query: url.query().map(|query| query.to_string()),
        fragment: url.fragment().map(|fragment| fragment.to_string()),
        opaque: url.cannot_be_a_base(),
        length: url.as_str().len(),
    })
}

/// A text that may be absent, by its characters.
pub open spec fn part_view(part: Option<&str>) -> Option<Seq<char>> {
    match part {
        Some(text) => Some(text@),
        None => None,
    }
}

// ---------------------------------------------------------------------------
// Rewriting
// ---------------------------------------------------------------------------
/// The bytes that a query or a fragment takes, with the character that leads it in.
pub open spec fn part_length(part: Option<Seq<char>>) -> nat {
    match part {
        Some(text) => 1 + encode_utf8(text).len(),
        None => 0,
    }
}

/// The most bytes that a new query or fragment takes: every byte of it may have to be escaped.
pub open spec fn part_room(part: Option<Seq<char>>) -> nat {
    match part {
        Some(text) => 1 + 3 * encode_utf8(text).len(),
        None => 0,
    }
}

/// A path that a URL takes as it is written: nothing in it has to be escaped or resolved.
pub open spec fn is_plain_path(path: Seq<char>) -> bool {
    &&& path.len() > 0
    &&& path[0] == '/'
    &&& forall|i: int| 0 <= i < path.len() ==> is_plain(#[trigger] path[i])
}

/// A small letter, a digit, a hyphen or a slash.
pub open spec fn is_plain(c: char) -> bool {
    'a' <= c <= 'z' || '0' <= c <= '9' || c == '-' || c == '/'
}

impl UrlView {
    /// Where the path ends, in bytes from the beginning of the URL's normal form.
    pub open spec fn path_end(self) -> int {
        self.length - part_length(self.query) - part_length(self.fragment)
    }

    /// Where a plain path of `n` characters would end, put in place of the path. The leading
    /// slash is escaped in a URL that is opaque.
    pub open spec fn new_path_end(self, n: int) -> int {
        self.path_end() - encode_utf8(self.path).len() + n + if self.opaque {
            2int
        } else {
            0
        }
    }

    /// The URL can be given a plain path of `n` characters, this query and this fragment: the
    /// offsets of its parts, of those that it has and of those that it is given, fit 32 bits.
    pub open spec fn takes(self, n: int, query: Option<Seq<char>>, fragment: Option<Seq<char>>) -> bool {
        &&& self.path_end() <= u32::MAX
        &&& self.new_path_end(n) + part_room(query) + part_room(fragment) <= u32::MAX
        &&& self.fragment is Some ==> self.new_path_end(n) + part_length(self.query) <= u32::MAX
    }
}

/// The bytes that a query or a fragment takes, with the character that leads it in.
fn length_of_part(part: &Option<String>) -> (r: u128)
    ensures
        r == part_length(text::opt_view(*part)),
        r <= 0x1_0000_0000_0000_0000,
{
    match part {
        Some(text) => 1 + (text::byte_length(text.as_str()) as u128),
        None => 0,
    }
}

/// Whether the URL can be given a plain path of `n` characters, no query and no fragment.
pub fn takes_path(url: &UrlParts, n: usize) -> (r: bool)
    ensures
        r == url@.takes(n as int, None, None),
{
    let query: u128 = length_of_part(&url.query);
    let fragment: u128 = length_of_part(&url.fragment);
    let path: u128 = text::byte_length(url.path.as_str()) as u128;
    let length: u128 = url.length as u128;
    let limit: u128 = u32::MAX as u128;
    let added: u128 = (n as u128) + if url.opaque {
        2u128
    } else {
        0u128
    };
    length <= limit + query + fragment && length + added <= limit + query + fragment + path && (
    url.fragment.is_none() || length + added <= limit + fragment + path)
}

/// What `reqwest::Url::parse`, `set_path`, `set_query` and `set_fragment` make of an address
/// that is to have this path, query and fragment.
pub uninterp spec fn url_at(
    text: Seq<char>,
    path: Seq<char>,
    query: Option<Seq<char>>,
    fragment: Option<Seq<char>>,
) -> Option<Seq<char>>;

/// `reqwest::Url::parse`, `set_path`, `set_query`, `set_fragment`, and the URL's text. It
/// succeeds on exactly the texts that parse. The setters panic where the offset of a part outgrows
/// 32 bits, which the first clause rules out.
#[verifier::external_body]
fn rewrite_url(text: &str, path: &str, query: Option<&str>, fragment: Option<&str>) -> (r: Option<
    String,
>)
    requires
        url_read(text@) matches Some(url) ==> url.takes(
            path@.len() as int,
            part_view(query),
            part_view(fragment),
        ),
        is_plain_path(path@),
    ensures
        text::opt_view(r) == url_at(text@, path@, part_view(query), part_view(fragment)),
        r is Some <==> url_read(text@) is Some,
{
    reqwest::Url::parse(text).ok().map(|mut url| {
        url.set_path(path);
        url.set_query(query);
        url.set_fragment(fragment);
        url.to_string()
    })
}

/// What `origin` and `ascii_serialization` make of the URL that `reqwest::Url::parse` reads in a
/// text.
pub uninterp spec fn url_origin(text: Seq<char>) -> Option<Seq<char>>;

/// `reqwest::Url::parse`, then `origin` and its `ascii_serialization`. Only the URLs of web
/// servers are taken: `origin` descends into a `blob` URL as deep as that is nested.
#[verifier::external_body]
fn origin_text(text: &str) -> (r: Option<String>)
    requires
        is_web(url_read(text@)),
    ensures
        text::opt_view(r) == url_origin(text@),
        r is Some,
{
    reqwest::Url::parse(text).ok().map(|url| url.origin().ascii_serialization())
}

/// The parts of the URL that `text` writes.
pub fn read_url(text: &str) -> (r: Option<UrlParts>)
    ensures
        match r {
            Some(parts) => url_read(text@) == Some(parts@),
            None => url_read(text@) is None,
        },
{
    parse_url(text)
}

/// `text` with this path, no query and no fragment.
pub fn url_with_path(text: &str, path: &str) -> (r: Option<String>)
    requires
        url_read(text@) matches Some(url) ==> url.takes(path@.len() as int, None, None),
        is_plain_path(path@),
    ensures
        text::opt_view(r) == url_at(text@, path@, None, None),
        r is Some <==> url_read(text@) is Some,
{
    rewrite_url(text, path, None, None)
}

/// What was read is the URL of a web server.
pub open spec fn is_web(read: Option<UrlView>) -> bool {
    read matches Some(url) && (url.scheme == "https"@ || url.scheme == "http"@)
}

/// The origin (scheme, host and port) of the web server that `text` names, in the form in which
/// origins are compared.
pub open spec fn web_origin(text: Seq<char>) -> Option<Seq<char>> {
    if is_web(url_read(text)) {
        url_origin(text)
    } else {
        None
    }
}

/// The origin of the web server that `text` names, if it names one.
pub fn origin_of(text: &str) -> (r: Option<String>)
    ensures
        text::opt_view(r) == web_origin(text@),
        r is Some <==> is_web(url_read(text@)),
{
    match read_url(text) {
        Some(url) => if text::same(url.scheme.as_str(), "https") || text::same(
            url.scheme.as_str(),
            "http",
        ) {
            origin_text(text)
        } else {
            None
        },
        None => None,
    }
}

// ---------------------------------------------------------------------------
// Loopback
// ---------------------------------------------------------------------------
/// `s` writes a number of at most 255 in up to three digits.
pub open spec fn is_octet(s: Seq<char>) -> bool {
    1 <= s.len() <= 3 && text::all_digits(s) && text::digits_value(s) <= 255
}

/// `host` is an IPv4 address of the loopback network 127.0.0.0/8.
pub open spec fn is_loopback_v4(host: Seq<char>) -> bool {
    let octets = text::pieces(host, '.');
    &&& octets.len() == 4
    &&& forall|i: int| 0 <= i < 4 ==> is_octet(#[trigger] octets[i])
    &&& octets[0] == "127"@
}

/// `host`, as it stands in a URL, is the machine itself.
pub open spec fn is_loopback(host: Option<Seq<char>>) -> bool {
    match host {
        None => false,
        Some(host) => host == "localhost"@ || host == "[::1]"@ || is_loopback_v4(host),
    }
}

/// Whether `piece` writes an octet.
fn octet(piece: &Vec<char>) -> (r: bool)
    ensures
        r == is_octet(piece@),
{
    if piece.len() == 0 || piece.len() > 3 || piece[0] == '+' {
        assert(piece@.len() > 0 && piece@[0] == '+' ==> !text::is_digit(piece@[0]));
        return false;
    }
    text::parse_unsigned(piece, 255).is_some()
}

/// Whether `host`, as it stands in a URL, is the machine itself.
pub fn is_loopback_host(host: Option<&str>) -> (r: bool)
    ensures
        r == is_loopback(
            match host {
                Some(name) => Some(name@),
                None => None,
            },
        ),
{
    let name = match host {
        None => {
            return false;
        },
        Some(name) => name,
    };
    if text::same(name, "localhost") || text::same(name, "[::1]") {
        return true;
    }
    let octets = text::split(&text::to_chars(name), '.');
    let ghost views = text::char_views(octets@);
    assert(views == text::pieces(name@, '.'));
    if octets.len() != 4 {
        assert(views.len() != 4);
        return false;
    }
    let mut i: usize = 0;
    while i < 4
        invariant
            i <= 4,
            host == Some(name),
            octets@.len() == 4,
            views == text::char_views(octets@),
            views == text::pieces(name@, '.'),
            name@ != "localhost"@,
            name@ != "[::1]"@,
            forall|j: int| 0 <= j < i ==> is_octet(#[trigger] views[j]),
        decreases 4 - i,
    {
        assert(views[i as int] == octets@[i as int]@);
        if !octet(&octets[i]) {
            return false;
        }
        i += 1;
    }
    assert(views[0] == octets@[0]@);
    let first = text::to_chars("127");
    text::same_chars(&octets[0], &first)
}

// ---------------------------------------------------------------------------
// Report endpoints
// ---------------------------------------------------------------------------
/// Why reports may not be sent to an address.
#[derive(Debug)]
pub enum EndpointFault {
    Invalid { endpoint: String },
    Credentials,
    RemotePlaintext,
    Scheme { scheme: String },
}

impl EndpointFault {
    /// The words in which the fault is reported.
    pub open spec fn text(self) -> Seq<char> {
        match self {
            EndpointFault::Invalid { endpoint } => "invalid telemetry endpoint "@ + endpoint@,
            EndpointFault::Credentials => "telemetry endpoint must not embed credentials"@,
            EndpointFault::RemotePlaintext =>
                "plain HTTP telemetry is allowed only for loopback; use HTTPS or explicitly set allow_insecure_http for an isolated trusted network"@,
            EndpointFault::Scheme { scheme } => "unsupported telemetry endpoint scheme: "@
                + scheme@,
        }
    }

    /// The words in which the fault is reported.
    pub fn message(&self) -> (r: String)
        ensures
            r@ == self.text(),
    {
        match self {
            EndpointFault::Invalid { endpoint } => text::cat(
                "invalid telemetry endpoint ",
                endpoint.as_str(),
            ),
            EndpointFault::Credentials => text::owned(
                "telemetry endpoint must not embed credentials",
            ),
            EndpointFault::RemotePlaintext => text::owned(
                "plain HTTP telemetry is allowed only for loopback; use HTTPS or explicitly set allow_insecure_http for an isolated trusted network",
            ),
            EndpointFault::Scheme { scheme } => text::cat(
                "unsupported telemetry endpoint scheme: ",
                scheme.as_str(),
            ),
        }
    }
}

/// The verdict on an address: it holds no credentials, and its scheme is HTTPS, or plain HTTP
/// to the machine itself or where the policy allows it.
pub open spec fn endpoint_verdict(
    read: Option<UrlView>,
    endpoint: Seq<char>,
    allow_insecure_http: bool,
    verdict: Result<(), EndpointFault>,
) -> bool {
    match read {
        None => verdict matches Err(EndpointFault::Invalid { endpoint: given }) && given@
            == endpoint,
        Some(url) => if url.username.len() > 0 || url.password {
            verdict == Err::<(), EndpointFault>(EndpointFault::Credentials)
        } else if url.scheme == "https"@ {
            verdict == Ok::<(), EndpointFault>(())
        } else if url.scheme == "http"@ {
            verdict == if allow_insecure_http || is_loopback(url.host) {
                Ok::<(), EndpointFault>(())
            } else {
                Err(EndpointFault::RemotePlaintext)
            }
        } else {
            verdict matches Err(EndpointFault::Scheme { scheme }) && scheme@ == url.scheme
        },
    }
}

/// Judge an address by what was read in it.
pub fn judge_endpoint(read: &Option<UrlParts>, endpoint: &str, allow_insecure_http: bool) -> (r:
    Result<(), EndpointFault>)
    ensures
        endpoint_verdict(
            match *read {
                Some(parts) => Some(parts@),
                None => None,
            },
            endpoint@,
            allow_insecure_http,
            r,
        ),
{
    match read {
        None => Err(EndpointFault::Invalid { endpoint: text::owned(endpoint) }),
        Some(url) => {
            if !url.username.as_str().is_empty() || url.password {
                return Err(EndpointFault::Credentials);
            }
            if text::same(url.scheme.as_str(), "https") {
                return Ok(());
            }
            if text::same(url.scheme.as_str(), "http") {
                if allow_insecure_http || host_is_loopback(&url.host) {
                    return Ok(());
                }
                return Err(EndpointFault::RemotePlaintext);
            }
            Err(EndpointFault::Scheme { scheme: url.scheme.clone() })
        },
    }
}

fn host_is_loopback(host: &Option<String>) -> (r: bool)
    ensures
        r == is_loopback(text::opt_view(*host)),
{
    match host {
        None => is_loopback_host(None),
        Some(name) => is_loopback_host(Some(name.as_str())),
    }
}

/// Whether reports may be sent to `endpoint`.
pub fn validate_endpoint(endpoint: &str, allow_insecure_http: bool) -> (r: Result<
    (),
    EndpointFault,
>)
    ensures
        endpoint_verdict(url_read(endpoint@), endpoint@, allow_insecure_http, r),
{
    let read = read_url(endpoint);
    judge_endpoint(&read, endpoint, allow_insecure_http)
}

/// An address that is accepted under the strict policy is accepted under the lenient one, and
/// the two differ only on plain HTTP to another machine.
pub proof fn the_lenient_policy_only_adds_remote_plaintext(
    read: Option<UrlView>,
    endpoint: Seq<char>,
    strict: Result<(), EndpointFault>,
    lenient: Result<(), EndpointFault>,
)
    requires
        endpoint_verdict(read, endpoint, false, strict),
        endpoint_verdict(read, endpoint, true, lenient),
    ensures
        strict is Ok ==> lenient is Ok,
        lenient is Ok && strict is Err ==> strict == Err::<(), EndpointFault>(
            EndpointFault::RemotePlaintext,
        ) && (read matches Some(url) && url.scheme == "http"@ && !is_loopback(url.host)),
{
}

// ---------------------------------------------------------------------------
// Endpoints that outlive the process
// ---------------------------------------------------------------------------
/// Why an address may not be stored as the host's report endpoint.
#[derive(Debug)]
pub enum TransportFault {
    Invalid { endpoint: String },
    RemotePlaintext,
}

impl TransportFault {
    /// The words in which the fault is reported.
    pub open spec fn text(self) -> Seq<char> {
        match self {
            TransportFault::Invalid { endpoint } => "invalid telemetry endpoint "@ + endpoint@,
            TransportFault::RemotePlaintext =>
                "pairing a remote plaintext report endpoint requires allow_insecure_http=true in the existing persistent config; a CLI or environment override cannot safely authorize a durable binding"@,
        }
    }

    /// The words in which the fault is reported.
    pub fn message(&self) -> (r: String)
        ensures
            r@ == self.text(),
    {
        match self {
            TransportFault::Invalid { endpoint } => text::cat(
                "invalid telemetry endpoint ",
                endpoint.as_str(),
            ),
            TransportFault::RemotePlaintext => text::owned(
                "pairing a remote plaintext report endpoint requires allow_insecure_http=true in the existing persistent config; a CLI or environment override cannot safely authorize a durable binding",
            ),
        }
    }
}

/// The verdict on a report endpoint that is to be stored: plain HTTP to another machine needs
/// the stored policy.
pub open spec fn transport_verdict(
    read: Option<UrlView>,
    endpoint: Seq<char>,
    persisted_allow_insecure_http: bool,
    verdict: Result<(), TransportFault>,
) -> bool {
    match read {
        None => verdict matches Err(TransportFault::Invalid { endpoint: given }) && given@
            == endpoint,
        Some(url) => verdict == if url.scheme == "http"@ && !is_loopback(url.host)
            && !persisted_allow_insecure_http {
            Err::<(), TransportFault>(TransportFault::RemotePlaintext)
        } else {
            Ok(())
        },
    }
}

/// Judge a report endpoint that is to be stored by what was read in it.
pub fn judge_transport(
    read: &Option<UrlParts>,
    endpoint: &str,
    persisted_allow_insecure_http: bool,
) -> (r: Result<(), TransportFault>)
    ensures
        transport_verdict(
            match *read {
                Some(parts) => Some(parts@),
                None => None,
            },
            endpoint@,
            persisted_allow_insecure_http,
            r,
        ),
{
    match read {
        None => Err(TransportFault::Invalid { endpoint: text::owned(endpoint) }),
        Some(url) => if text::same(url.scheme.as_str(), "http") && !host_is_loopback(&url.host)
            && !persisted_allow_insecure_http {
            Err(TransportFault::RemotePlaintext)
        } else {
            Ok(())
        },
    }
}

/// Whether `report_endpoint` may be stored under the stored policy.
pub fn validate_persisted_pairing_transport(
    report_endpoint: &str,
    persisted_allow_insecure_http: bool,
) -> (r: Result<(), TransportFault>)
    ensures
        transport_verdict(
            url_read(report_endpoint@),
            report_endpoint@,
            persisted_allow_insecure_http,
            r,
        ),
{
    let read = read_url(report_endpoint);
    judge_transport(&read, report_endpoint, persisted_allow_insecure_http)
}

// ---------------------------------------------------------------------------
// Pairing endpoints
// ---------------------------------------------------------------------------
/// Why pairing requests may not be sent to an address.
#[derive(Debug)]
pub enum PairingEndpointFault {
    Transport(EndpointFault),
    QueryOrFragment,
}

impl PairingEndpointFault {
    /// The words in which the fault is reported.
    pub open spec fn text(self) -> Seq<char> {
        match self {
            PairingEndpointFault::Transport(fault) =>
                "browser pairing requires HTTPS except when the endpoint is on the local loopback host: "@
                    + fault.text(),
            PairingEndpointFault::QueryOrFragment =>
                "pairing_endpoint must not contain a query or fragment because request-specific paths are appended while polling"@,
        }
    }

    /// The words in which the fault is reported.
    pub fn message(&self) -> (r: String)
        ensures
            r@ == self.text(),
    {
        match self {
            PairingEndpointFault::Transport(fault) => text::cat(
                "browser pairing requires HTTPS except when the endpoint is on the local loopback host: ",
                fault.message().as_str(),
            ),
            PairingEndpointFault::QueryOrFragment => text::owned(
                "pairing_endpoint must not contain a query or fragment because request-specific paths are appended while polling",
            ),
        }
    }
}

/// The verdict on a pairing endpoint: the strict rule on endpoints, and neither a query nor a
/// fragment.
pub open spec fn pairing_endpoint_verdict(
    read: Option<UrlView>,
    endpoint: Seq<char>,
    verdict: Result<(), PairingEndpointFault>,
) -> bool {
    match verdict {
        Err(PairingEndpointFault::Transport(fault)) => endpoint_verdict(
            read,
            endpoint,
            false,
            Err(fault),
        ),
        Err(PairingEndpointFault::QueryOrFragment) => endpoint_verdict(
            read,
            endpoint,
            false,
            Ok(()),
        ) && (read->0.query is Some || read->0.fragment is Some),
        Ok(()) => endpoint_verdict(read, endpoint, false, Ok(())) && read->0.query is None
            && read->0.fragment is None,
    }
}

/// Judge a pairing endpoint by what was read in it.
pub fn judge_pairing_endpoint(read: &Option<UrlParts>, endpoint: &str) -> (r: Result<
    (),
    PairingEndpointFault,
>)
    ensures
        pairing_endpoint_verdict(
            match *read {
                Some(parts) => Some(parts@),
                None => None,
            },
            endpoint@,
            r,
        ),
{
    match judge_endpoint(read, endpoint, false) {
        Err(fault) => Err(PairingEndpointFault::Transport(fault)),
        Ok(()) => match read {
            Some(url) => if url.query.is_some() || url.fragment.is_some() {
                Err(PairingEndpointFault::QueryOrFragment)
            } else {
                Ok(())
            },
            None => Ok(()),
        },
    }
}

/// Whether pairing requests may be sent to `endpoint`.
pub fn validate_pairing_endpoint(endpoint: &str) -> (r: Result<(), PairingEndpointFault>)
    ensures
        pairing_endpoint_verdict(url_read(endpoint@), endpoint@, r),
{
    let read = read_url(endpoint);
    judge_pairing_endpoint(&read, endpoint)
}

// ---------------------------------------------------------------------------
// Server origins
// ---------------------------------------------------------------------------
/// `s` without the slashes at its end.
pub open spec fn without_slashes(s: Seq<char>) -> Seq<char>
    decreases s.len(),
{
    if s.len() > 0 && s.last() == '/' {
        without_slashes(s.drop_last())
    } else {
        s
    }
}

/// `s` without the slashes at its end.
pub fn trim_slashes(s: &str) -> (r: String)
    ensures
        r@ == without_slashes(s@),
{
    let chars = text::to_chars(s);
    let mut to: usize = chars.len();
    assert(chars@.subrange(0, to as int) == s@);
    while to > 0 && chars[to - 1] == '/'
        invariant
            to <= chars@.len(),
            without_slashes(s@) == without_slashes(chars@.subrange(0, to as int)),
        decreases to,
    {
        assert(chars@.subrange(0, to as int).drop_last() == chars@.subrange(0, to - 1));
        to -= 1;
    }
    text::range_text(&chars, 0, to)
}

/// Why a text does not name a server.
#[derive(Clone, Copy, PartialEq, Eq, Structural, Debug)]
pub enum ServerFault {
    Invalid,
    Scheme,
    Credentials,
    Path,
}

impl ServerFault {
    /// The words in which the fault is reported.
    pub open spec fn text(self) -> Seq<char> {
        match self {
            ServerFault::Invalid => "the server must be an absolute http or https URL"@,
            ServerFault::Scheme => "the server URL must use http or https"@,
            ServerFault::Credentials => "the server URL must not embed credentials"@,
            ServerFault::Path =>
                "the server URL must be a root origin without a path, query or fragment"@,
        }
    }

    /// The words in which the fault is reported.
    pub fn message(&self) -> (r: String)
        ensures
            r@ == self.text(),
    {
        match self {
            ServerFault::Invalid => text::owned("the server must be an absolute http or https URL"),
            ServerFault::Scheme => text::owned("the server URL must use http or https"),
            ServerFault::Credentials => text::owned("the server URL must not embed credentials"),
            ServerFault::Path => text::owned(
                "the server URL must be a root origin without a path, query or fragment",
            ),
        }
    }
}

/// Why what was read does not name a server by nothing but scheme, host and port.
pub open spec fn server_fault(read: Option<UrlView>) -> Option<ServerFault> {
    match read {
        None => Some(ServerFault::Invalid),
        Some(url) => if url.scheme != "https"@ && url.scheme != "http"@ {
            Some(ServerFault::Scheme)
        } else if url.host is None {
            Some(ServerFault::Invalid)
        } else if url.username.len() > 0 || url.password {
            Some(ServerFault::Credentials)
        } else if url.path != "/"@ || url.query is Some || url.fragment is Some {
            Some(ServerFault::Path)
        } else {
            None
        },
    }
}

/// The server that `server` names: its origin, where it is named by nothing but scheme, host
/// and port.
pub open spec fn server_base(server: Seq<char>) -> Result<Seq<char>, ServerFault> {
    match server_fault(url_read(server)) {
        Some(fault) => Err(fault),
        None => Ok(url_origin(server)->0),
    }
}

/// A result with its text seen by its characters.
pub open spec fn seen<E>(r: Result<String, E>) -> Result<Seq<char>, E> {
    match r {
        Ok(text) => Ok(text@),
        Err(fault) => Err(fault),
    }
}

/// Judge a server by what was read in its name.
pub fn judge_server(read: &Option<UrlParts>) -> (r: Result<(), ServerFault>)
    ensures
        r == match server_fault(
            match *read {
                Some(parts) => Some(parts@),
                None => None,
            },
        ) {
            Some(fault) => Err::<(), ServerFault>(fault),
            None => Ok(()),
        },
{
    match read {
        None => Err(ServerFault::Invalid),
        Some(url) => if !text::same(url.scheme.as_str(), "https") && !text::same(
            url.scheme.as_str(),
            "http",
        ) {
            Err(ServerFault::Scheme)
        } else if url.host.is_none() {
            Err(ServerFault::Invalid)
        } else if !url.username.as_str().is_empty() || url.password {
            Err(ServerFault::Credentials)
        } else if !text::same(url.path.as_str(), "/") || url.query.is_some()
            || url.fragment.is_some() {
            Err(ServerFault::Path)
        } else {
            Ok(())
        },
    }
}

/// The origin of the server that `server` names.
pub fn validate_server_base(server: &str) -> (r: Result<String, ServerFault>)
    ensures
        seen(r) == server_base(server@),
{
    let read = read_url(server);
    if let Err(fault) = judge_server(&read) {
        return Err(fault);
    }
    match origin_of(server) {
        Some(origin) => Ok(origin),
        None => Err(ServerFault::Invalid),
    }
}

/// An endpoint is accepted where it carries no credentials and is encrypted, or plain to this
/// machine, or plain by leave; what is wrong first is told.
pub proof fn which_endpoints_pass(
    url: UrlParts,
    endpoint: &str,
    allow_insecure_http: bool,
    r: Result<(), EndpointFault>,
)
    requires
        call_ensures(judge_endpoint, (&Some(url), endpoint, allow_insecure_http), r),
    ensures
        ({
            let credentials = url.username@.len() > 0 || url.password;
            let local = is_loopback(text::opt_view(url.host));
            &&& r is Ok <==> !credentials && (url.scheme@ == "https"@ || url.scheme@ == "http"@ && (
            allow_insecure_http || local))
            &&& r == Err::<(), EndpointFault>(EndpointFault::Credentials) <==> credentials
            &&& r == Err::<(), EndpointFault>(EndpointFault::RemotePlaintext) <==> !credentials
                && url.scheme@ == "http"@ && !allow_insecure_http && !local
        }),
{
    reveal_strlit("https");
    reveal_strlit("http");
    assert("https"@.len() != "http"@.len());
}

/// A pairing keeps plain reports to another machine only where the file allows them.
pub proof fn which_transports_pass(
    url: UrlParts,
    endpoint: &str,
    persisted: bool,
    r: Result<(), TransportFault>,
)
    requires
        call_ensures(judge_transport, (&Some(url), endpoint, persisted), r),
    ensures
        r is Ok <==> url.scheme@ != "http"@ || is_loopback(text::opt_view(url.host)) || persisted,
        r is Err ==> r == Err::<(), TransportFault>(TransportFault::RemotePlaintext),
{
}

/// A server is a root origin: over the web, with a host, without credentials, path, query or
/// fragment.
pub proof fn which_servers_pass(read: Option<UrlParts>, r: Result<(), ServerFault>)
    requires
        call_ensures(judge_server, (&read,), r),
    ensures
        read is None ==> r == Err::<(), ServerFault>(ServerFault::Invalid),
        read matches Some(url) ==> {
            let web = url.scheme@ == "https"@ || url.scheme@ == "http"@;
            let credentials = url.username@.len() > 0 || url.password;
            let root = url.path@ == "/"@ && url.query is None && url.fragment is None;
            &&& r is Ok <==> web && url.host is Some && !credentials && root
            &&& r == Err::<(), ServerFault>(ServerFault::Scheme) <==> !web
            &&& r == Err::<(), ServerFault>(ServerFault::Invalid) <==> web && url.host is None
            &&& r == Err::<(), ServerFault>(ServerFault::Credentials) <==> web && url.host is Some
                && credentials
            &&& r == Err::<(), ServerFault>(ServerFault::Path) <==> web && url.host is Some
                && !credentials && !root
        },
{
}

/// This machine is known by its name, by its address of the newer kind, and by every address of the
/// older kind that begins with 127.
pub proof fn which_hosts_are_local(host: Option<&str>, r: bool)
    requires
        call_ensures(is_loopback_host, (host,), r),
    ensures
        host is None ==> !r,
        host matches Some(name) ==> {
            let octets = text::pieces(name@, '.');
            r <==> name@ == "localhost"@ || name@ == "[::1]"@ || octets.len() == 4 && octets[0]
                == "127"@ && forall|i: int|
                0 <= i < 4 ==> {
                    let octet = #[trigger] octets[i];
                    1 <= octet.len() <= 3 && text::all_digits(octet) && text::digits_value(octet)
                        <= 255
                }
        },
{
}

/// Slashes are taken off the end, all of them and nothing else.
pub proof fn only_slashes_are_taken_off(s: Seq<char>)
    ensures
        without_slashes(s).len() <= s.len(),
        without_slashes(s) == s.take(without_slashes(s).len() as int),
        without_slashes(s).len() > 0 ==> without_slashes(s).last() != '/',
        forall|i: int| without_slashes(s).len() <= i < s.len() ==> s[i] == '/',
    decreases s.len(),
{
    if s.len() > 0 && s.last() == '/' {
        let rest = s.drop_last();
        only_slashes_are_taken_off(rest);
        assert(without_slashes(s) =~= s.take(without_slashes(s).len() as int));
        assert forall|i: int| without_slashes(s).len() <= i < s.len() implies s[i] == '/' by {
            if i < rest.len() {
                assert(rest[i] == s[i]);
            }
        }
    } else {
        assert(s.take(s.len() as int) =~= s);
    }
}

/// Only an address of the web has an origin that counts.
pub proof fn which_addresses_have_an_origin(address: &str, r: Option<String>)
    requires
        call_ensures(origin_of, (address,), r),
    ensures
        r is Some <==> (url_read(address@) matches Some(url) && (url.scheme == "https"@
            || url.scheme == "http"@)),
        r matches Some(origin) ==> url_origin(address@) == Some(origin@),
{
}

/// A path takes the place of the old one: the rest of the address before it stays, and an address
/// without a slash behind its scheme gets two signs more.
pub proof fn how_far_a_new_path_reaches(url: UrlView, n: int)
    ensures
        url.new_path_end(n) - url.path_end() == n - vstd::utf8::encode_utf8(url.path).len() + (
        if url.opaque {
            2int
        } else {
            0
        }),
        url.takes(n, None, None) ==> url.path_end() <= u32::MAX && url.new_path_end(n) <= u32::MAX,
{
}

} // verus!
