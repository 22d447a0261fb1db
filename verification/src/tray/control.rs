//! What the local control page may ask for, and how it is answered.

use crate::text;
use crate::tray::http::{find_header, header_views, value_of, LocalHttpRequest};
use crate::tray::session::{
    admits, issue, issued, known, live, redeem, same_secret, Ticket, MAX_TICKETS,
    SESSION_LIFETIME,
};
use vstd::prelude::*;
use vstd::utf8::encode_utf8;

verus! {

/// What the page asks the tray to do.
#[derive(Clone, Copy, PartialEq, Eq, Structural, Debug)]
pub enum ControlAction {
    State,
    Connection,
    Pair,
    Service,
    Operation,
}

/// Where a request leads.
#[derive(Debug)]
pub enum Route {
    /// The page's script.
    Script,
    /// The page.
    Page,
    /// A new session for the browser that turns in its ticket.
    OpenSession { ticket: String },
    /// An action for a browser with a session; none is known for this target.
    Act { bearer: String, action: Option<ControlAction> },
}

/// Why a request is refused.
#[derive(Clone, Copy, PartialEq, Eq, Structural, Debug)]
pub enum ControlFault {
    Host,
    GetWithBody,
    Origin,
    ContentType,
    NoContentLength,
    Marker,
    SessionBody,
    Bearer,
    Capability,
    TooManySessions,
    NoSession,
    UnknownRoute,
}

impl ControlFault {
    /// The words in which the fault is reported.
    pub open spec fn text(self) -> Seq<char> {
        match self {
            ControlFault::Host => "Host header does not match the loopback listener"@,
            ControlFault::GetWithBody => "GET request must not have a body"@,
            ControlFault::Origin => "Origin header does not match the loopback listener"@,
            ControlFault::ContentType => "Content-Type must be application/json"@,
            ControlFault::NoContentLength => "Content-Length is required"@,
            ControlFault::Marker => "missing local-control request marker"@,
            ControlFault::SessionBody => "session request body must be empty JSON"@,
            ControlFault::Bearer => "missing or invalid bearer capability"@,
            ControlFault::Capability => "invalid or expired browser capability"@,
            ControlFault::TooManySessions => "too many active local browser sessions"@,
            ControlFault::NoSession => "browser session is missing or expired"@,
            ControlFault::UnknownRoute => "unknown local-control route"@,
        }
    }

    /// The words in which the fault is reported.
    pub fn message(&self) -> (r: String)
        ensures
            r@ == self.text(),
    {
        match self {
            ControlFault::Host => text::owned("Host header does not match the loopback listener"),
            ControlFault::GetWithBody => text::owned("GET request must not have a body"),
            ControlFault::Origin => text::owned(
                "Origin header does not match the loopback listener",
            ),
            ControlFault::ContentType => text::owned("Content-Type must be application/json"),
            ControlFault::NoContentLength => text::owned("Content-Length is required"),
            ControlFault::Marker => text::owned("missing local-control request marker"),
            ControlFault::SessionBody => text::owned("session request body must be empty JSON"),
            ControlFault::Bearer => text::owned("missing or invalid bearer capability"),
            ControlFault::Capability => text::owned("invalid or expired browser capability"),
            ControlFault::TooManySessions => text::owned("too many active local browser sessions"),
            ControlFault::NoSession => text::owned("browser session is missing or expired"),
            ControlFault::UnknownRoute => text::owned("unknown local-control route"),
        }
    }
}

impl LocalHttpRequest {
    /// The value of the header `name`.
    pub open spec fn header(self, name: Seq<char>) -> Option<Seq<char>> {
        value_of(header_views(self.headers@), name)
    }

    /// The first requirement on a request that changes something which this one misses: it comes
    /// from the page itself, as JSON of a known length, with the page's marker.
    pub open spec fn marks_fault(self, origin: Seq<char>) -> Option<ControlFault> {
        if self.header("origin"@) != Some(origin) {
            Some(ControlFault::Origin)
        } else if self.header("content-type"@) is None || text::lowered(
            self.header("content-type"@)->0,
        ) != text::lowered("application/json"@) {
            Some(ControlFault::ContentType)
        } else if self.header("content-length"@) is None {
            Some(ControlFault::NoContentLength)
        } else if self.header("x-unionc-tray"@) != Some("1"@) {
            Some(ControlFault::Marker)
        } else {
            None
        }
    }

    /// The secret that the request carries as its bearer: sixty-four bytes.
    pub open spec fn bearer_text(self) -> Option<Seq<char>> {
        match self.header("authorization"@) {
            Some(value) if text::begins(value, "Bearer "@) && encode_utf8(
                value.skip("Bearer "@.len() as int),
            ).len() == 64 => Some(value.skip("Bearer "@.len() as int)),
            _ => None,
        }
    }
}

/// `origin` without its scheme: what a request's `Host` must be.
pub open spec fn host_of(origin: Seq<char>) -> Seq<char>
    decreases origin.len(),
{
    if text::begins(origin, "http://"@) && "http://"@.len() == 7 {
        host_of(origin.skip(7))
    } else {
        origin
    }
}

/// What stands in a text at a place begins the rest of the text from there.
proof fn lemma_begins_at(chars: Seq<char>, part: Seq<char>, at: int)
    requires
        0 <= at <= chars.len(),
    ensures
        text::stands_at(chars, part, at) <==> text::begins(chars.skip(at), part),
{
    if at + part.len() <= chars.len() {
        assert(chars.skip(at).subrange(0, part.len() as int) == chars.subrange(
            at,
            at + part.len(),
        ));
    }
}

fn host_text(origin: &str) -> (r: String)
    ensures
        r@ == host_of(origin@),
{
    proof {
        reveal_strlit("http://");
    }
    let chars = text::to_chars(origin);
    let scheme = text::to_chars("http://");
    let n: usize = chars.len();
    let mut from: usize = 0;
    assert(chars@.skip(0) == origin@);
    while text::is_at(&chars, &scheme, from)
        invariant
            from <= n,
            n == chars@.len(),
            scheme@ == "http://"@,
            scheme@.len() == 7,
            host_of(origin@) == host_of(chars@.skip(from as int)),
        decreases n - from,
    {
        let ghost rest = chars@.skip(from as int);
        assert(text::begins(rest, "http://"@)) by {
            lemma_begins_at(chars@, scheme@, from as int);
        }
        assert(rest.skip(7) == chars@.skip(from + 7));
        from += 7;
    }
    proof {
        lemma_begins_at(chars@, scheme@, from as int);
        assert(chars@.subrange(from as int, n as int) == chars@.skip(from as int));
    }
    text::range_text(&chars, from, n)
}

/// The action at a target.
pub open spec fn action_at(target: Seq<char>) -> Option<ControlAction> {
    if target == "/state"@ {
        Some(ControlAction::State)
    } else if target == "/connection"@ {
        Some(ControlAction::Connection)
    } else if target == "/pair"@ {
        Some(ControlAction::Pair)
    } else if target == "/service"@ {
        Some(ControlAction::Service)
    } else if target == "/operation"@ {
        Some(ControlAction::Operation)
    } else {
        None
    }
}

fn find_action(target: &str) -> (r: Option<ControlAction>)
    ensures
        r == action_at(target@),
{
    if text::same(target, "/state") {
        Some(ControlAction::State)
    } else if text::same(target, "/connection") {
        Some(ControlAction::Connection)
    } else if text::same(target, "/pair") {
        Some(ControlAction::Pair)
    } else if text::same(target, "/service") {
        Some(ControlAction::Service)
    } else if text::same(target, "/operation") {
        Some(ControlAction::Operation)
    } else {
        None
    }
}

/// Where a request leads before any secret is looked at.
pub open spec fn route_verdict(
    request: LocalHttpRequest,
    origin: Seq<char>,
    verdict: Result<Route, ControlFault>,
) -> bool {
    let get = request.method@ == "GET"@;
    let post = request.method@ == "POST"@;
    if request.header("host"@) != Some(host_of(origin)) {
        verdict == Err::<Route, ControlFault>(ControlFault::Host)
    } else if get && (request.target@ == "/app.js"@ || request.target@ == "/"@) {
        if request.body@.len() > 0 {
            verdict == Err::<Route, ControlFault>(ControlFault::GetWithBody)
        } else if request.target@ == "/app.js"@ {
            verdict == Ok::<Route, ControlFault>(Route::Script)
        } else {
            verdict == Ok::<Route, ControlFault>(Route::Page)
        }
    } else if !post {
        verdict == Err::<Route, ControlFault>(ControlFault::UnknownRoute)
    } else if request.marks_fault(origin) is Some {
        verdict == Err::<Route, ControlFault>(request.marks_fault(origin)->0)
    } else if request.target@ == "/session"@ && request.body@ != encode_utf8("{}"@) {
        verdict == Err::<Route, ControlFault>(ControlFault::SessionBody)
    } else {
        match request.bearer_text() {
            None => verdict == Err::<Route, ControlFault>(ControlFault::Bearer),
            Some(bearer) => if request.target@ == "/session"@ {
                verdict matches Ok(Route::OpenSession { ticket }) && ticket@ == bearer
            } else {
                verdict matches Ok(Route::Act { bearer: given, action }) && given@ == bearer
                    && action == action_at(request.target@)
            },
        }
    }
}

/// Whether the header `name` has exactly this value.
fn header_is(request: &LocalHttpRequest, name: &str, value: &str) -> (r: bool)
    ensures
        r == (request.header(name@) == Some(value@)),
{
    match find_header(&request.headers, name) {
        Some(given) => same_secret(given.as_str(), value),
        None => false,
    }
}

/// The request comes from the page itself.
pub fn require_origin(request: &LocalHttpRequest, origin: &str) -> (r: Result<(), ControlFault>)
    ensures
        r == if request.header("origin"@) == Some(origin@) {
            Ok::<(), ControlFault>(())
        } else {
            Err(ControlFault::Origin)
        },
{
    if header_is(request, "origin", origin) {
        Ok(())
    } else {
        Err(ControlFault::Origin)
    }
}

/// The request is JSON of a known length.
pub fn require_json_request(request: &LocalHttpRequest) -> (r: Result<(), ControlFault>)
    ensures
        r == if request.header("content-type"@) is None || text::lowered(
            request.header("content-type"@)->0,
        ) != text::lowered("application/json"@) {
            Err::<(), ControlFault>(ControlFault::ContentType)
        } else if request.header("content-length"@) is None {
            Err(ControlFault::NoContentLength)
        } else {
            Ok(())
        },
{
    match find_header(&request.headers, "content-type") {
        None => {
            return Err(ControlFault::ContentType);
        },
        Some(value) => {
            if !text::same_ignoring_case(value.as_str(), "application/json") {
                return Err(ControlFault::ContentType);
            }
        },
    }
    if find_header(&request.headers, "content-length").is_none() {
        return Err(ControlFault::NoContentLength);
    }
    Ok(())
}

/// The request carries the page's marker.
pub fn require_control_marker(request: &LocalHttpRequest) -> (r: Result<(), ControlFault>)
    ensures
        r == if request.header("x-unionc-tray"@) == Some("1"@) {
            Ok::<(), ControlFault>(())
        } else {
            Err(ControlFault::Marker)
        },
{
    if header_is(request, "x-unionc-tray", "1") {
        Ok(())
    } else {
        Err(ControlFault::Marker)
    }
}

/// The secret that the request carries.
pub fn bearer(request: &LocalHttpRequest) -> (r: Result<String, ControlFault>)
    ensures
        match request.bearer_text() {
            Some(secret) => r matches Ok(given) && given@ == secret,
            None => r == Err::<String, ControlFault>(ControlFault::Bearer),
        },
{
    match find_header(&request.headers, "authorization") {
        None => Err(ControlFault::Bearer),
        Some(value) => match text::strip_prefix(value.as_str(), "Bearer ") {
            None => Err(ControlFault::Bearer),
            Some(secret) => if text::byte_length(secret.as_str()) == 64 {
                Ok(secret)
            } else {
                Err(ControlFault::Bearer)
            },
        },
    }
}

fn check_marks(request: &LocalHttpRequest, origin: &str) -> (r: Result<(), ControlFault>)
    ensures
        r == match request.marks_fault(origin@) {
            Some(fault) => Err::<(), ControlFault>(fault),
            None => Ok(()),
        },
{
    if let Err(fault) = require_origin(request, origin) {
        return Err(fault);
    }
    if let Err(fault) = require_json_request(request) {
        return Err(fault);
    }
    require_control_marker(request)
}

/// Where a request leads before any secret is looked at.
pub fn find_route(request: &LocalHttpRequest, origin: &str) -> (r: Result<Route, ControlFault>)
    ensures
        route_verdict(*request, origin@, r),
{
    if !header_is(request, "host", host_text(origin).as_str()) {
        return Err(ControlFault::Host);
    }
    let target = request.target.as_str();
    if text::same(request.method.as_str(), "GET") {
        let script = text::same(target, "/app.js");
        if script || text::same(target, "/") {
            if request.body.len() > 0 {
                return Err(ControlFault::GetWithBody);
            }
            if script {
                return Ok(Route::Script);
            }
            return Ok(Route::Page);
        }
    }
    if !text::same(request.method.as_str(), "POST") {
        return Err(ControlFault::UnknownRoute);
    }
    if let Err(fault) = check_marks(request, origin) {
        return Err(fault);
    }
    let opens = text::same(target, "/session");
    if opens && !text::same_bytes(&request.body, &text::to_bytes("{}")) {
        return Err(ControlFault::SessionBody);
    }
    match bearer(request) {
        Err(fault) => Err(fault),
        Ok(secret) => if opens {
            Ok(Route::OpenSession { ticket: secret })
        } else {
            Ok(Route::Act { bearer: secret, action: find_action(target) })
        },
    }
}

/// The secrets that the tray has handed out.
#[derive(Debug)]
pub struct ControlSecrets {
    /// For browsers that the tray opened and that have not called yet.
    pub bootstrap: Vec<Ticket>,
    /// For browsers that have.
    pub sessions: Vec<Ticket>,
}

/// What a request is answered with.
#[derive(Debug)]
pub enum Routed {
    Script,
    Page,
    /// The secret of the new session.
    Session { bearer: String },
    Act(ControlAction),
}

/// What becomes of the request of a browser that turns in its ticket.
pub open spec fn session_opened(
    before: ControlSecrets,
    ticket: Seq<char>,
    fresh: String,
    now: u64,
    after: ControlSecrets,
    outcome: Result<Routed, ControlFault>,
) -> bool {
    let tickets = live(before.bootstrap@, now);
    if !known(tickets, ticket) {
        &&& outcome == Err::<Routed, ControlFault>(ControlFault::Capability)
        &&& after.bootstrap@ == tickets
        &&& after.sessions@ == before.sessions@
    } else {
        &&& exists|at: int| #[trigger]
            crate::tray::session::first_known(tickets, ticket, at) && after.bootstrap@
                == tickets.remove(at)
        &&& issued(before.sessions@, fresh@, now, SESSION_LIFETIME, after.sessions@)
        &&& outcome == if live(before.sessions@, now).len() < MAX_TICKETS {
            Ok::<Routed, ControlFault>(Routed::Session { bearer: fresh })
        } else {
            Err(ControlFault::TooManySessions)
        }
    }
}

/// What becomes of a request: where it leads, and whether its secret is good.
pub open spec fn routed(
    request: LocalHttpRequest,
    origin: Seq<char>,
    before: ControlSecrets,
    fresh: String,
    now: u64,
    after: ControlSecrets,
    outcome: Result<Routed, ControlFault>,
) -> bool {
    exists|route: Result<Route, ControlFault>| #[trigger]
        route_verdict(request, origin, route) && match route {
            Err(fault) => after == before && outcome == Err::<Routed, ControlFault>(fault),
            Ok(Route::Script) => after == before && outcome == Ok::<Routed, ControlFault>(
                Routed::Script,
            ),
            Ok(Route::Page) => after == before && outcome == Ok::<Routed, ControlFault>(
                Routed::Page,
            ),
            Ok(Route::OpenSession { ticket }) => session_opened(
                before,
                ticket@,
                fresh,
                now,
                after,
                outcome,
            ),
            Ok(Route::Act { bearer, action }) => {
                &&& after.bootstrap@ == before.bootstrap@
                &&& after.sessions@ == live(before.sessions@, now)
                &&& outcome == if !known(after.sessions@, bearer@) {
                    Err::<Routed, ControlFault>(ControlFault::NoSession)
                } else {
                    match action {
                        Some(action) => Ok(Routed::Act(action)),
                        None => Err(ControlFault::UnknownRoute),
                    }
                }
            },
        }
}

/// Answer a request. `fresh` is the secret of a session that the request may open.
pub fn route_request(
    request: &LocalHttpRequest,
    origin: &str,
    secrets: &mut ControlSecrets,
    fresh: String,
    now: u64,
) -> (r: Result<Routed, ControlFault>)
    ensures
        routed(*request, origin@, *old(secrets), fresh, now, *final(secrets), r),
{
    let route = find_route(request, origin);
    assert(route_verdict(*request, origin@, route));
    match route {
        Err(fault) => Err(fault),
        Ok(Route::Script) => Ok(Routed::Script),
        Ok(Route::Page) => Ok(Routed::Page),
        Ok(Route::OpenSession { ticket }) => {
            if !redeem(&mut secrets.bootstrap, ticket.as_str(), now) {
                return Err(ControlFault::Capability);
            }
            let copy = fresh.clone();
            if !issue(&mut secrets.sessions, fresh, now, SESSION_LIFETIME) {
                return Err(ControlFault::TooManySessions);
            }
            Ok(Routed::Session { bearer: copy })
        },
        Ok(Route::Act { bearer, action }) => {
            if !admits(&mut secrets.sessions, bearer.as_str(), now) {
                return Err(ControlFault::NoSession);
            }
            match action {
                Some(action) => Ok(Routed::Act(action)),
                None => Err(ControlFault::UnknownRoute),
            }
        },
    }
}

/// Nothing is done for a browser without a session that is still good, nor for a request that
/// does not carry the page's marks.
pub proof fn no_action_without_a_session(
    request: LocalHttpRequest,
    origin: Seq<char>,
    before: ControlSecrets,
    fresh: String,
    now: u64,
    after: ControlSecrets,
    action: ControlAction,
)
    requires
        routed(request, origin, before, fresh, now, after, Ok(Routed::Act(action))),
    ensures
        request.header("host"@) == Some(host_of(origin)),
        request.marks_fault(origin) is None,
        request.bearer_text() is Some,
        known(live(before.sessions@, now), request.bearer_text()->0),
        action_at(request.target@) == Some(action),
{
}

/// A session is opened only for a ticket that is still good, and the ticket is then turned in.
pub proof fn a_session_needs_a_ticket(
    request: LocalHttpRequest,
    origin: Seq<char>,
    before: ControlSecrets,
    fresh: String,
    now: u64,
    after: ControlSecrets,
    bearer: String,
)
    requires
        routed(request, origin, before, fresh, now, after, Ok(Routed::Session { bearer })),
    ensures
        bearer == fresh,
        request.bearer_text() is Some,
        known(live(before.bootstrap@, now), request.bearer_text()->0),
        after.bootstrap@.len() == live(before.bootstrap@, now).len() - 1,
{
    let route = choose|route: Result<Route, ControlFault>| #[trigger]
        route_verdict(request, origin, route) && match route {
            Ok(Route::OpenSession { ticket }) => session_opened(
                before,
                ticket@,
                fresh,
                now,
                after,
                Ok(Routed::Session { bearer }),
            ),
            _ => false,
        };
    let tickets = live(before.bootstrap@, now);
    let at = choose|at: int| #[trigger]
        crate::tray::session::first_known(tickets, request.bearer_text()->0, at)
            && after.bootstrap@ == tickets.remove(at);
    assert(tickets.remove(at).len() == tickets.len() - 1);
}

// ---------------------------------------------------------------------------
// Errors on the page
// ---------------------------------------------------------------------------
/// How an error is shown to the page.
#[derive(Clone, Copy, PartialEq, Eq, Structural, Debug)]
pub enum ErrorClass {
    Session,
    Conflict,
    ServiceUnavailable,
    Invalid,
}

/// How an error is shown, by the words in its message.
pub open spec fn error_class(message: Seq<char>) -> ErrorClass {
    if text::holds(message, "session"@) || text::holds(message, "browser capability"@) {
        ErrorClass::Session
    } else if text::holds(message, "正在进行"@) || text::holds(message, "too many"@) {
        ErrorClass::Conflict
    } else if text::holds(message, "service is not installed"@) || text::holds(
        message,
        "Service Control Manager"@,
    ) {
        ErrorClass::ServiceUnavailable
    } else {
        ErrorClass::Invalid
    }
}

/// An error as the page is told of it.
#[derive(Debug)]
pub struct ApiError {
    pub status: String,
    pub code: String,
    pub message: String,
}

/// What the page is told of an error with this message. Only an invalid request is told its own
/// words.
pub open spec fn api_error(message: Seq<char>) -> (Seq<char>, Seq<char>, Seq<char>) {
    match error_class(message) {
        ErrorClass::Session => (
            "401 Unauthorized"@,
            "session_expired"@,
            "本地安全会话已失效，请从托盘菜单重新打开此页面"@,
        ),
        ErrorClass::Conflict => (
            "409 Conflict"@,
            "operation_conflict"@,
            "另一个操作正在进行，请等待其完成后再试"@,
        ),
        ErrorClass::ServiceUnavailable => (
            "503 Service Unavailable"@,
            "service_unavailable"@,
            "Windows Agent 服务不可用，请检查安装状态"@,
        ),
        ErrorClass::Invalid => ("400 Bad Request"@, "invalid_request"@, message),
    }
}

fn classify_error(message: &str) -> (r: ErrorClass)
    ensures
        r == error_class(message@),
{
    if text::contains(message, "session") || text::contains(message, "browser capability") {
        ErrorClass::Session
    } else if text::contains(message, "正在进行") || text::contains(message, "too many") {
        ErrorClass::Conflict
    } else if text::contains(message, "service is not installed") || text::contains(
        message,
        "Service Control Manager",
    ) {
        ErrorClass::ServiceUnavailable
    } else {
        ErrorClass::Invalid
    }
}

/// What the page is told of an error with this message.
pub fn local_api_error(message: &str) -> (r: ApiError)
    ensures
        (r.status@, r.code@, r.message@) == api_error(message@),
{
    match classify_error(message) {
        ErrorClass::Session => ApiError {
            status: text::owned("401 Unauthorized"),
            code: text::owned("session_expired"),
            message: text::owned("本地安全会话已失效，请从托盘菜单重新打开此页面"),
        },
        ErrorClass::Conflict => ApiError {
            status: text::owned("409 Conflict"),
            code: text::owned("operation_conflict"),
            message: text::owned("另一个操作正在进行，请等待其完成后再试"),
        },
        ErrorClass::ServiceUnavailable => ApiError {
            status: text::owned("503 Service Unavailable"),
            code: text::owned("service_unavailable"),
            message: text::owned("Windows Agent 服务不可用，请检查安装状态"),
        },
        ErrorClass::Invalid => ApiError {
            status: text::owned("400 Bad Request"),
            code: text::owned("invalid_request"),
            message: text::owned(message),
        },
    }
}

/// What the page is told while as many connections are served as may be.
pub fn busy_error() -> (r: ApiError)
    ensures
        r.status@ == "503 Service Unavailable"@,
        r.code@ == "local_control_busy"@,
        r.message@ == "本地控制服务繁忙，请稍后重试"@,
{
    ApiError {
        status: text::owned("503 Service Unavailable"),
        code: text::owned("local_control_busy"),
        message: text::owned("本地控制服务繁忙，请稍后重试"),
    }
}

/// What a request comes to. It must be for this listener. The page and its script are there for
/// every `GET` without a body; everything else is a `POST` that carries the page's marks and a
/// bearer: to `/session`, with an empty object, the bearer is a ticket, and to any other target it
/// is a session's secret.
pub proof fn what_a_request_comes_to(
    request: LocalHttpRequest,
    origin: Seq<char>,
    verdict: Result<Route, ControlFault>,
)
    requires
        route_verdict(request, origin, verdict),
    ensures
        ({
            let here = request.header("host"@) == Some(host_of(origin));
            let get = request.method@ == "GET"@;
            let page = get && request.target@ == "/"@;
            let script = get && request.target@ == "/app.js"@;
            let marked = request.header("origin"@) == Some(origin) && (
            request.header("content-type"@) matches Some(kind) && text::lowered(kind)
                == text::lowered("application/json"@)) && request.header("content-length"@) is Some
                && request.header("x-unionc-tray"@) == Some("1"@);
            let post = request.method@ == "POST"@ && marked && here;
            let session = request.target@ == "/session"@;
            &&& !here <==> verdict == Err::<Route, ControlFault>(ControlFault::Host)
            &&& verdict == Ok::<Route, ControlFault>(Route::Page) <==> here && page
                && request.body@.len() == 0
            &&& verdict == Ok::<Route, ControlFault>(Route::Script) <==> here && script
                && request.body@.len() == 0
            &&& verdict matches Ok(Route::OpenSession { ticket }) ==> post && session
                && request.body@ == encode_utf8("{}"@) && request.bearer_text() == Some(ticket@)
            &&& post && session && request.body@ == encode_utf8("{}"@) && request.bearer_text()
                is Some ==> (verdict matches Ok(Route::OpenSession { .. }))
            &&& verdict matches Ok(Route::Act { bearer, action }) ==> post && !session
                && request.bearer_text() == Some(bearer@) && action == action_at(request.target@)
            &&& post && !session && request.bearer_text() is Some ==> (verdict matches Ok(
                Route::Act { .. },
            ))
            &&& here && !get && request.method@ != "POST"@ ==> verdict == Err::<
                Route,
                ControlFault,
            >(ControlFault::UnknownRoute)
            &&& here && request.method@ == "POST"@ && !marked ==> (verdict matches Err(fault) && (
            fault == ControlFault::Origin || fault == ControlFault::ContentType || fault
                == ControlFault::NoContentLength || fault == ControlFault::Marker))
        }),
{
    reveal_strlit("GET");
    reveal_strlit("POST");
    reveal_strlit("/");
    reveal_strlit("/app.js");
    assert("GET"@.len() != "POST"@.len());
    assert("/"@.len() != "/app.js"@.len());
}

/// Which action each target asks for.
pub proof fn which_action_a_target_asks_for(target: Seq<char>)
    ensures
        action_at("/state"@) == Some(ControlAction::State),
        action_at("/connection"@) == Some(ControlAction::Connection),
        action_at("/pair"@) == Some(ControlAction::Pair),
        action_at("/service"@) == Some(ControlAction::Service),
        action_at("/operation"@) == Some(ControlAction::Operation),
        action_at(target) is Some ==> target == "/state"@ || target == "/connection"@ || target
            == "/pair"@ || target == "/service"@ || target == "/operation"@,
{
    reveal_strlit("/state");
    reveal_strlit("/connection");
    reveal_strlit("/pair");
    reveal_strlit("/service");
    reveal_strlit("/operation");
    assert("/state"@.len() == 6 && "/connection"@.len() == 11 && "/pair"@.len() == 5
        && "/service"@.len() == 8 && "/operation"@.len() == 10);
}

/// A bearer is what stands behind the word, of sixty-four bytes.
pub proof fn what_a_bearer_is(request: LocalHttpRequest, secret: Seq<char>)
    ensures
        request.header("authorization"@) == Some("Bearer "@ + secret) && encode_utf8(secret).len()
            == 64 ==> request.bearer_text() == Some(secret),
        request.bearer_text() matches Some(given) ==> request.header("authorization"@) == Some(
            "Bearer "@ + given,
        ) && encode_utf8(given).len() == 64,
{
    let whole = "Bearer "@ + secret;
    let n = "Bearer "@.len() as int;
    assert(whole.subrange(0, n) == "Bearer "@);
    assert(whole.skip(n) == secret);
    if let Some(value) = request.header("authorization"@) {
        if text::begins(value, "Bearer "@) {
            assert("Bearer "@ + value.skip(n) == value);
        }
    }
}

/// A browser with a good session gets the action that it asks for, and one without is told so; a
/// good ticket opens a session while there is room for one. A request that is refused for its form
/// changes nothing.
pub proof fn what_a_browser_gets(
    request: LocalHttpRequest,
    origin: Seq<char>,
    before: ControlSecrets,
    fresh: String,
    now: u64,
    after: ControlSecrets,
    outcome: Result<Routed, ControlFault>,
    route: Result<Route, ControlFault>,
)
    requires
        routed(request, origin, before, fresh, now, after, outcome),
        route_verdict(request, origin, route),
    ensures
        route matches Err(fault) ==> outcome == Err::<Routed, ControlFault>(fault) && after
            == before,
        route == Ok::<Route, ControlFault>(Route::Page) ==> outcome == Ok::<Routed, ControlFault>(
            Routed::Page,
        ) && after == before,
        route == Ok::<Route, ControlFault>(Route::Script) ==> outcome == Ok::<
            Routed,
            ControlFault,
        >(Routed::Script) && after == before,
        route matches Ok(Route::Act { bearer, action }) ==> {
            &&& after.bootstrap@ == before.bootstrap@
            &&& !known(live(before.sessions@, now), bearer@) ==> outcome == Err::<
                Routed,
                ControlFault,
            >(ControlFault::NoSession)
            &&& known(live(before.sessions@, now), bearer@) ==> outcome == match action {
                Some(action) => Ok::<Routed, ControlFault>(Routed::Act(action)),
                None => Err(ControlFault::UnknownRoute),
            }
        },
        route matches Ok(Route::OpenSession { ticket }) ==> {
            let good = known(live(before.bootstrap@, now), ticket@);
            let room = live(before.sessions@, now).len() < 32;
            &&& !good ==> outcome == Err::<Routed, ControlFault>(ControlFault::Capability)
                && after.sessions@ == before.sessions@
            &&& good && room ==> outcome == Ok::<Routed, ControlFault>(
                Routed::Session { bearer: fresh },
            ) && known(after.sessions@, fresh@)
            &&& good && !room ==> outcome == Err::<Routed, ControlFault>(
                ControlFault::TooManySessions,
            )
        },
{
    let chosen = choose|chosen: Result<Route, ControlFault>| #[trigger]
        route_verdict(request, origin, chosen) && match chosen {
            Err(fault) => after == before && outcome == Err::<Routed, ControlFault>(fault),
            Ok(Route::Script) => after == before && outcome == Ok::<Routed, ControlFault>(
                Routed::Script,
            ),
            Ok(Route::Page) => after == before && outcome == Ok::<Routed, ControlFault>(
                Routed::Page,
            ),
            Ok(Route::OpenSession { ticket }) => session_opened(
                before,
                ticket@,
                fresh,
                now,
                after,
                outcome,
            ),
            Ok(Route::Act { bearer, action }) => {
                &&& after.bootstrap@ == before.bootstrap@
                &&& after.sessions@ == live(before.sessions@, now)
                &&& outcome == if !known(after.sessions@, bearer@) {
                    Err::<Routed, ControlFault>(ControlFault::NoSession)
                } else {
                    match action {
                        Some(action) => Ok(Routed::Act(action)),
                        None => Err(ControlFault::UnknownRoute),
                    }
                }
            },
        };
    if let Ok(Route::OpenSession { ticket }) = route {
        if known(live(before.bootstrap@, now), ticket@) && live(before.sessions@, now).len() < 32 {
            crate::tray::session::how_a_ticket_is_issued(
                before.sessions@,
                fresh@,
                now,
                SESSION_LIFETIME,
                after.sessions@,
            );
        }
    }
}

/// The host of an origin is what stands behind its scheme.
pub proof fn what_the_host_of_an_origin_is(host: Seq<char>)
    requires
        host.len() > 0,
        host[0] != 'h',
    ensures
        host_of("http://"@ + host) == host,
        host_of(host) == host,
{
    reveal_strlit("http://");
    let origin = "http://"@ + host;
    assert(origin.subrange(0, 7) == "http://"@);
    assert(origin.skip(7) == host);
    assert(!text::begins(host, "http://"@)) by {
        if text::begins(host, "http://"@) {
            assert(host.subrange(0, 7)[0] == host[0]);
        }
    }
    reveal_with_fuel(host_of, 2);
}

/// How an error is told to the page: by what it is about.
pub proof fn how_an_error_is_told(message: Seq<char>)
    ensures
        ({
            let session = text::holds(message, "session"@) || text::holds(
                message,
                "browser capability"@,
            );
            let conflict = text::holds(message, "正在进行"@) || text::holds(message, "too many"@);
            let service = text::holds(message, "service is not installed"@) || text::holds(
                message,
                "Service Control Manager"@,
            );
            &&& session ==> api_error(message).0 == "401 Unauthorized"@
            &&& !session && conflict ==> api_error(message).0 == "409 Conflict"@
            &&& !session && !conflict && service ==> api_error(message).0
                == "503 Service Unavailable"@
            &&& !session && !conflict && !service ==> api_error(message) == (
                "400 Bad Request"@,
                "invalid_request"@,
                message,
            )
        }),
{
}

/// A request that changes something comes from the tray's own page: it names its origin, says that
/// it is from the tray, and carries JSON of a known length.
pub proof fn what_a_change_must_say(
    request: LocalHttpRequest,
    origin: &str,
    from: Result<(), ControlFault>,
    json: Result<(), ControlFault>,
    marked: Result<(), ControlFault>,
)
    requires
        call_ensures(require_origin, (&request, origin), from),
        call_ensures(require_json_request, (&request,), json),
        call_ensures(require_control_marker, (&request,), marked),
    ensures
        from is Ok <==> request.header("origin"@) == Some(origin@),
        from matches Err(fault) ==> fault == ControlFault::Origin,
        marked is Ok <==> request.header("x-unionc-tray"@) == Some("1"@),
        marked matches Err(fault) ==> fault == ControlFault::Marker,
        json is Ok <==> (request.header("content-type"@) matches Some(kind) && text::lowered(kind)
            == "application/json"@) && request.header("content-length"@) is Some,
{
    reveal_strlit("application/json");
    assert(text::lowered("application/json"@) =~= "application/json"@);
}

} // verus!
