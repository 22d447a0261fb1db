//! Whether the server can be reached from this desktop.
//!
//! The probe asks the server's public health page and nothing else; what it finds says nothing
//! of reports that were taken.

use crate::endpoint::{self, server_base, url_at, url_read};
use crate::platform::package_version;
use crate::text;
use vstd::prelude::*;
use vstd::utf8::encode_utf8;

verus! {

/// How the server was found.
#[derive(Clone, Copy, PartialEq, Eq, Structural, Debug)]
pub enum ConnectionState {
    Unconfigured,
    Offline,
    Online,
}

impl ConnectionState {
    /// The name under which the page knows the state.
    pub open spec fn named(self) -> Seq<char> {
        match self {
            ConnectionState::Unconfigured => "unconfigured"@,
            ConnectionState::Offline => "offline"@,
            ConnectionState::Online => "online"@,
        }
    }

    /// The name under which the page knows the state.
    pub fn name(&self) -> (r: &'static str)
        ensures
            r@ == self.named(),
    {
        match self {
            ConnectionState::Unconfigured => "unconfigured",
            ConnectionState::Offline => "offline",
            ConnectionState::Online => "online",
        }
    }
}

/// What a probe found.
#[derive(Debug)]
pub struct ServerConnectionStatus {
    pub status: ConnectionState,
    pub message: String,
    pub version: Option<String>,
    pub latency_ms: Option<u64>,
}

/// The contents of [`ServerConnectionStatus`].
pub struct ConnectionView {
    pub status: ConnectionState,
    pub message: Seq<char>,
    pub version: Option<Seq<char>>,
    pub latency_ms: Option<u64>,
}

impl View for ServerConnectionStatus {
    type V = ConnectionView;

    open spec fn view(&self) -> ConnectionView {
        ConnectionView {
            status: self.status,
            message: self.message@,
            version: text::opt_view(self.version),
            latency_ms: self.latency_ms,
        }
    }
}

/// A server that was not reached, or not taken for one.
pub open spec fn offline(message: Seq<char>, latency_ms: Option<u64>) -> ConnectionView {
    ConnectionView { status: ConnectionState::Offline, message, version: None, latency_ms }
}

fn report_offline(message: &str, latency_ms: Option<u64>) -> (r: ServerConnectionStatus)
    ensures
        r@ == offline(message@, latency_ms),
{
    ServerConnectionStatus {
        status: ConnectionState::Offline,
        message: text::owned(message),
        version: None,
        latency_ms,
    }
}

/// How a probe begins.
#[derive(Debug)]
pub enum ProbeStart {
    /// Nothing is asked: this is what was found.
    Settled(ServerConnectionStatus),
    /// Ask this address.
    Ask { url: String },
}

/// How the probe of `server` begins: the health page of the server's origin is asked, if there
/// is a server and its name is good.
pub open spec fn probe_start(server: Seq<char>, start: ProbeStart) -> bool {
    if text::trimmed(server).len() == 0 {
        start matches ProbeStart::Settled(found) && found@ == (ConnectionView {
            status: ConnectionState::Unconfigured,
            message: "尚未配置 Server 地址"@,
            version: None,
            latency_ms: None,
        })
    } else {
        match server_base(server) {
            Err(_) => start matches ProbeStart::Settled(found) && found@ == offline(
                "Server 地址无效"@,
                None,
            ),
            Ok(origin) => match url_read(origin) {
                Some(read) if read.takes("/api/health"@.len() as int, None, None) => start matches ProbeStart::Ask { url }
                    && Some(url@) == url_at(origin, "/api/health"@, None, None),
                _ => start matches ProbeStart::Settled(found) && found@ == offline(
                    "Server 地址无效"@,
                    None,
                ),
            },
        }
    }
}

/// Begin the probe of `server`.
pub fn start_probe(server: &str) -> (r: ProbeStart)
    ensures
        probe_start(server@, r),
{
    if text::trim(server).as_str().is_empty() {
        return ProbeStart::Settled(
            ServerConnectionStatus {
                status: ConnectionState::Unconfigured,
                message: text::owned("尚未配置 Server 地址"),
                version: None,
                latency_ms: None,
            },
        );
    }
    match endpoint::validate_server_base(server) {
        Err(_) => ProbeStart::Settled(report_offline("Server 地址无效", None)),
        Ok(origin) => {
            proof {
                reveal_strlit("/api/health");
            }
            let short = match endpoint::read_url(origin.as_str()) {
                Some(read) => endpoint::takes_path(&read, 11),
                None => false,
            };
            if !short {
                return ProbeStart::Settled(report_offline("Server 地址无效", None));
            }
            match endpoint::url_with_path(origin.as_str(), "/api/health") {
                Some(url) => ProbeStart::Ask { url },
                None => ProbeStart::Settled(report_offline("Server 地址无效", None)),
            }
        },
    }
}

/// Why no answer came.
#[derive(Clone, Copy, PartialEq, Eq, Structural, Debug)]
pub enum ProbeFailure {
    /// There is no client to ask with.
    NoClient,
    Timeout,
    Connect,
    Other,
}

impl ProbeFailure {
    /// What the page is told.
    pub open spec fn text(self) -> Seq<char> {
        match self {
            ProbeFailure::NoClient => "无法初始化 Server 连接检测"@,
            ProbeFailure::Timeout => "Server 连接超时"@,
            ProbeFailure::Connect => "无法连接 Server（请检查地址、端口、网络或 TLS）"@,
            ProbeFailure::Other => "Server 健康检查请求失败"@,
        }
    }
}

/// What was found where no answer came.
pub fn probe_failed(failure: ProbeFailure) -> (r: ServerConnectionStatus)
    ensures
        r@ == offline(failure.text(), None),
{
    match failure {
        ProbeFailure::NoClient => report_offline("无法初始化 Server 连接检测", None),
        ProbeFailure::Timeout => report_offline("Server 连接超时", None),
        ProbeFailure::Connect => report_offline(
            "无法连接 Server（请检查地址、端口、网络或 TLS）",
            None,
        ),
        ProbeFailure::Other => report_offline("Server 健康检查请求失败", None),
    }
}

/// The most of an answer that is read, in bytes.
pub const MAX_SERVER_HEALTH_BODY_BYTES: u64 = 16_384;

/// What the server says of its health.
#[derive(Debug)]
pub struct ServerHealth {
    pub status: String,
    pub version: String,
}

/// The server's answer.
#[derive(Debug)]
pub struct HealthAnswer {
    pub status: u16,
    pub content_type: Option<String>,
    /// How many bytes were read of the body, or nothing where reading failed.
    pub body_bytes: Option<u64>,
    /// What the body says, where it has the expected form.
    pub health: Option<ServerHealth>,
}

/// The media type in `value` is JSON, whatever parameters follow it.
pub open spec fn says_json(value: Seq<char>) -> bool {
    text::lowered(text::trimmed(value.take(text::first_index(value, ';')))) == text::lowered(
        "application/json"@,
    )
}

/// Whether the media type in `value` is JSON.
pub fn is_application_json(value: &str) -> (r: bool)
    ensures
        r == says_json(value@),
{
    let chars = text::to_chars(value);
    let mut end: usize = 0;
    assert(chars@.skip(0) == chars@);
    while end < chars.len() && chars[end] != ';'
        invariant
            end <= chars@.len(),
            text::first_index(chars@, ';') == end + text::first_index(chars@.skip(end as int), ';'),
        decreases chars@.len() - end,
    {
        assert(chars@.skip(end as int).drop_first() == chars@.skip(end + 1));
        end += 1;
    }
    let media_type = text::range_text(&chars, 0, end);
    assert(media_type@ == value@.take(end as int));
    text::same_ignoring_case(text::trim(media_type.as_str()).as_str(), "application/json")
}

/// A control character.
pub open spec fn is_control(c: char) -> bool {
    c as u32 <= 0x1f || 0x7f <= c as u32 <= 0x9f
}

/// `version` can be shown: not blank, at most 128 bytes, no control character.
pub open spec fn presentable(version: Seq<char>) -> bool {
    &&& text::trimmed(version).len() > 0
    &&& encode_utf8(version).len() <= 128
    &&& forall|i: int| 0 <= i < version.len() ==> !is_control(#[trigger] version[i])
}

fn can_be_shown(version: &str) -> (r: bool)
    ensures
        r == presentable(version@),
{
    if text::trim(version).as_str().is_empty() || text::byte_length(version) > 128 {
        return false;
    }
    let chars = text::to_chars(version);
    let mut i: usize = 0;
    while i < chars.len()
        invariant
            chars@ == version@,
            i <= chars@.len(),
            forall|j: int| 0 <= j < i ==> !is_control(#[trigger] version@[j]),
        decreases chars@.len() - i,
    {
        let v: u32 = chars[i] as u32;
        if v <= 0x1f || (0x7f <= v && v <= 0x9f) {
            assert(is_control(version@[i as int]));
            return false;
        }
        i += 1;
    }
    true
}

/// What an answer shows: a server of this package's version that is well, or why not.
pub open spec fn judged(answer: HealthAnswer, latency_ms: u64) -> ConnectionView {
    let late = Some(latency_ms);
    if answer.status != 200 {
        offline("Server 返回 HTTP "@ + text::decimal(answer.status as nat), late)
    } else if answer.content_type is None || !says_json(answer.content_type->0@) {
        offline("Server 健康响应的 Content-Type 不是 application/json"@, late)
    } else if answer.body_bytes is None || answer.body_bytes->0 > MAX_SERVER_HEALTH_BODY_BYTES {
        offline("Server 健康响应读取失败或过大"@, late)
    } else {
        match answer.health {
            None => offline(
                "Server 未返回可用的 UnionC 健康状态（格式或版本信息无效）"@,
                late,
            ),
            Some(health) => if health.status@ != "ok"@ {
                offline("Server 健康状态不可用"@, late)
            } else if !presentable(health.version@) {
                offline("Server 版本信息不可用"@, late)
            } else if health.version@ != "0.3.2"@ {
                ConnectionView {
                    version: Some(health.version@),
                    ..offline(
                        "Server 版本不匹配：需要 v"@ + "0.3.2"@ + "，实际 v"@ + health.version@,
                        late,
                    )
                }
            } else {
                ConnectionView {
                    status: ConnectionState::Online,
                    message: "连接正常 · Server v"@ + health.version@ + " · "@ + text::decimal(
                        latency_ms as nat,
                    ) + " ms"@,
                    version: Some(health.version@),
                    latency_ms: late,
                }
            },
        }
    }
}

fn judge_health(health: ServerHealth, latency_ms: u64) -> (r: ServerConnectionStatus)
    ensures
        forall|answer: HealthAnswer|
            answer.status == 200 && answer.content_type is Some && says_json(
                answer.content_type->0@,
            ) && answer.body_bytes is Some && answer.body_bytes->0 <= MAX_SERVER_HEALTH_BODY_BYTES
                && answer.health == Some(health) ==> r@ == #[trigger] judged(answer, latency_ms),
{
    if !text::same(health.status.as_str(), "ok") {
        return report_offline("Server 健康状态不可用", Some(latency_ms));
    }
    if !can_be_shown(health.version.as_str()) {
        return report_offline("Server 版本信息不可用", Some(latency_ms));
    }
    if !text::same(health.version.as_str(), package_version()) {
        return ServerConnectionStatus {
            status: ConnectionState::Offline,
            message: text::cat4(
                "Server 版本不匹配：需要 v",
                package_version(),
                "，实际 v",
                health.version.as_str(),
            ),
            version: Some(health.version),
            latency_ms: Some(latency_ms),
        };
    }
    ServerConnectionStatus {
        status: ConnectionState::Online,
        message: text::cat5(
            "连接正常 · Server v",
            health.version.as_str(),
            " · ",
            text::decimal_text(latency_ms).as_str(),
            " ms",
        ),
        version: Some(health.version),
        latency_ms: Some(latency_ms),
    }
}

/// What an answer shows.
pub fn judge_answer(answer: HealthAnswer, latency_ms: u64) -> (r: ServerConnectionStatus)
    ensures
        r@ == judged(answer, latency_ms),
{
    if answer.status != 200 {
        return report_offline(
            text::cat(
                "Server 返回 HTTP ",
                text::decimal_text(answer.status as u64).as_str(),
            ).as_str(),
            Some(latency_ms),
        );
    }
    let json = match &answer.content_type {
        Some(value) => is_application_json(value.as_str()),
        None => false,
    };
    if !json {
        return report_offline(
            "Server 健康响应的 Content-Type 不是 application/json",
            Some(latency_ms),
        );
    }
    let readable = match answer.body_bytes {
        Some(bytes) => bytes <= MAX_SERVER_HEALTH_BODY_BYTES,
        None => false,
    };
    if !readable {
        return report_offline("Server 健康响应读取失败或过大", Some(latency_ms));
    }
    match answer.health {
        None => report_offline(
            "Server 未返回可用的 UnionC 健康状态（格式或版本信息无效）",
            Some(latency_ms),
        ),
        Some(health) => judge_health(health, latency_ms),
    }
}

/// Nanoseconds as whole milliseconds, as many as the number can hold.
pub open spec fn milliseconds(nanoseconds: int) -> int {
    if nanoseconds / 1_000_000 <= u64::MAX {
        nanoseconds / 1_000_000
    } else {
        u64::MAX as int
    }
}

/// How long something took, in milliseconds.
pub fn elapsed_milliseconds(nanoseconds: u128) -> (r: u64)
    ensures
        r == milliseconds(nanoseconds as int),
{
    let millis: u128 = nanoseconds / 1_000_000;
    if millis <= u64::MAX as u128 {
        millis as u64
    } else {
        u64::MAX
    }
}

/// The server counts as online only with an answer that says so in JSON and names exactly this
/// package's version.
pub proof fn only_the_same_version_is_online(answer: HealthAnswer, latency_ms: u64)
    requires
        judged(answer, latency_ms).status == ConnectionState::Online,
    ensures
        answer.status == 200,
        answer.health matches Some(health) && health.status@ == "ok"@ && health.version@
            == "0.3.2"@,
        judged(answer, latency_ms).latency_ms == Some(latency_ms),
{
}

/// A server is online exactly where it answered with success, in JSON, briefly, that it is well and
/// of this package's version; every other answer is offline, and tells the version only where that
/// is what is wrong. How long it took is told of every answer.
pub proof fn when_a_server_is_online(answer: HealthAnswer, latency_ms: u64)
    ensures
        ({
            let found = judged(answer, latency_ms);
            let good = answer.status == 200 && (answer.content_type matches Some(kind)
                && says_json(kind@)) && (answer.body_bytes matches Some(bytes) && bytes <= 16_384)
                && (answer.health matches Some(health) && health.status@ == "ok"@ && presentable(
                health.version@,
            ));
            let same = good && answer.health->0.version@ == "0.3.2"@;
            &&& found.status == ConnectionState::Online <==> same
            &&& found.status == ConnectionState::Offline <==> !same
            &&& found.latency_ms == Some(latency_ms)
            &&& good ==> found.version == Some(answer.health->0.version@)
            &&& !good ==> found.version is None
        }),
{
}

/// How a probe begins: a blank address is not configured, one that names no server is offline, and
/// of every other the health page of that very server is asked, with nothing else in its address.
pub proof fn how_a_probe_begins(server: Seq<char>, start: ProbeStart)
    requires
        probe_start(server, start),
    ensures
        text::trimmed(server).len() == 0 ==> (start matches ProbeStart::Settled(found)
            && found.status == ConnectionState::Unconfigured && found.version is None
            && found.latency_ms is None),
        text::trimmed(server).len() > 0 && server_base(server) is Err ==> (start matches
            ProbeStart::Settled(found) && found.status == ConnectionState::Offline),
        start matches ProbeStart::Ask { url } ==> server_base(server) is Ok && url_at(
            server_base(server)->Ok_0,
            "/api/health"@,
            None,
            None,
        ) == Some(url@),
        text::trimmed(server).len() > 0 && server_base(server) is Ok && (url_read(
            server_base(server)->Ok_0,
        ) matches Some(read) && read.takes(11, None, None)) ==> start is Ask,
{
    reveal_strlit("/api/health");
}

/// An answer is JSON where its media type says so, whatever the size of its letters, its blanks and
/// its parameters.
pub proof fn what_counts_as_json(value: Seq<char>, parameters: Seq<char>)
    requires
        !value.contains(';'),
    ensures
        says_json(value) <==> text::lowered(text::trimmed(value)) == text::lowered(
            "application/json"@,
        ),
        says_json(value + ";"@ + parameters) <==> says_json(value),
{
    reveal_strlit(";");
    lemma_first_semicolon(value, Seq::empty());
    lemma_first_semicolon(value, ";"@ + parameters);
    assert(value + Seq::<char>::empty() == value);
    assert(value.take(value.len() as int) == value);
    assert(value + (";"@ + parameters) == value + ";"@ + parameters);
    assert((value + (";"@ + parameters)).take(value.len() as int) == value);
}

proof fn lemma_first_semicolon(value: Seq<char>, rest: Seq<char>)
    requires
        !value.contains(';'),
        rest.len() > 0 ==> rest[0] == ';',
    ensures
        text::first_index(value + rest, ';') == value.len(),
    decreases value.len(),
{
    if value.len() > 0 {
        assert(value.contains(value[0]));
        let shorter = value.drop_first();
        assert(!shorter.contains(';')) by {
            if shorter.contains(';') {
                let i = shorter.index_of(';');
                assert(value[i + 1] == ';');
            }
        }
        lemma_first_semicolon(shorter, rest);
        assert((value + rest).drop_first() == shorter + rest);
        assert((value + rest)[0] == value[0]);
    } else {
        assert(value + rest == rest);
    }
}

/// Time is told in whole milliseconds that have passed, and the longest that can be told stands for
/// all that is longer.
pub proof fn how_time_is_told(nanoseconds: u128, r: u64)
    requires
        call_ensures(elapsed_milliseconds, (nanoseconds,), r),
    ensures
        r * 1_000_000 <= nanoseconds,
        r < u64::MAX ==> nanoseconds < (r + 1) * 1_000_000,
{
}

} // verus!
