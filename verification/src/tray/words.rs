//! What the tray says: to the page while it works, and of what it refuses.

use crate::text;
use crate::tray::broker::{HelperAction, HelperPhase, Work};
use crate::tray::elevated::ElevatedAction;
use crate::tray::service::{HelperVerdict, ServiceAction};
use vstd::prelude::*;

verus! {

/// What the tray refuses.
#[derive(Clone, Copy, PartialEq, Eq, Structural, Debug)]
pub enum TrayFault {
    /// A page of the local site that there is not.
    Section,
    /// There are as many tickets as there may be.
    TooManyTickets,
    /// An action on the service that there is not.
    ServiceAction,
    /// The name of a pipe that no tray gave.
    Nonce,
    /// A frame that is too long to be told its length.
    FrameTooLarge,
    /// A frame that is longer than it may be.
    FrameOverLimit,
    PreferencesTooLarge,
    /// The service went on starting or stopping.
    NotStable,
    /// The process has no administrator's rights.
    NotElevated,
}

impl TrayFault {
    /// The words in which the fault is reported.
    pub open spec fn text(self) -> Seq<char> {
        match self {
            TrayFault::Section => "invalid local page section"@,
            TrayFault::TooManyTickets => "too many pending local browser sessions"@,
            TrayFault::ServiceAction => "service action must be start or stop"@,
            TrayFault::Nonce => "invalid pairing pipe nonce"@,
            TrayFault::FrameTooLarge => "pairing pipe frame is too large"@,
            TrayFault::FrameOverLimit => "pairing pipe frame exceeds its size limit"@,
            TrayFault::PreferencesTooLarge => "tray preferences file is too large"@,
            TrayFault::NotStable => "timed out waiting for the Agent service to become stable"@,
            TrayFault::NotElevated =>
                "this internal operation requires Windows administrator elevation"@,
        }
    }

    /// The words in which the fault is reported.
    pub fn message(&self) -> (r: &'static str)
        ensures
            r@ == self.text(),
    {
        match self {
            TrayFault::Section => "invalid local page section",
            TrayFault::TooManyTickets => "too many pending local browser sessions",
            TrayFault::ServiceAction => "service action must be start or stop",
            TrayFault::Nonce => "invalid pairing pipe nonce",
            TrayFault::FrameTooLarge => "pairing pipe frame is too large",
            TrayFault::FrameOverLimit => "pairing pipe frame exceeds its size limit",
            TrayFault::PreferencesTooLarge => "tray preferences file is too large",
            TrayFault::NotStable => "timed out waiting for the Agent service to become stable",
            TrayFault::NotElevated =>
                "this internal operation requires Windows administrator elevation",
        }
    }
}

// ---------------------------------------------------------------------------
// To the page
// ---------------------------------------------------------------------------
/// What an operation says while the user is asked for an administrator's rights.
pub fn awaiting_text() -> (r: &'static str)
    ensures
        r@ == "请确认 Windows 用户账户控制提示"@,
{
    "请确认 Windows 用户账户控制提示"
}

/// What an operation says while its helper works.
pub fn progress_text(work: Work) -> (r: &'static str)
    ensures
        r@ == match work {
            Work::Pair => "正在创建请求、提交授权并等待 Server 确认"@,
            Work::Service(ServiceAction::Start) => "正在启动 Agent 服务"@,
            Work::Service(ServiceAction::Stop) => "正在停止 Agent 服务"@,
        },
{
    match work {
        Work::Pair => "正在创建请求、提交授权并等待 Server 确认",
        Work::Service(action) => action.progress(),
    }
}

/// What the page is told once the helper was launched.
pub fn accepted_text(work: Work) -> (r: &'static str)
    ensures
        r@ == match work {
            Work::Pair =>
                "请确认 Windows 用户账户控制提示；授权密钥将由托盘直接提交，配对会自动完成。"@,
            Work::Service(_) => "请确认 Windows 用户账户控制提示。"@,
        },
{
    match work {
        Work::Pair =>
            "请确认 Windows 用户账户控制提示；授权密钥将由托盘直接提交，配对会自动完成。",
        Work::Service(_) => "请确认 Windows 用户账户控制提示。",
    }
}

/// What the user is shown of a pairing that failed.
pub fn pairing_failed_notice() -> (r: &'static str)
    ensures
        r@ == "UnionC Agent 配对失败；请在本地配置页面查看详情并重试。"@,
{
    "UnionC Agent 配对失败；请在本地配置页面查看详情并重试。"
}

/// What goes before the error where a pairing succeeded and could not be remembered.
pub fn not_saved_text() -> (r: &'static str)
    ensures
        r@ == "pairing succeeded but tray preferences could not be saved"@,
{
    "pairing succeeded but tray preferences could not be saved"
}

// ---------------------------------------------------------------------------
// Of the helpers
// ---------------------------------------------------------------------------
/// A number with its sign.
pub open spec fn signed_decimal(n: int) -> Seq<char> {
    if n < 0 {
        "-"@ + text::decimal((-n) as nat)
    } else {
        text::decimal(n as nat)
    }
}

fn signed_text(n: i32) -> (r: String)
    ensures
        r@ == signed_decimal(n as int),
{
    if n < 0 {
        let size: u64 = (-(n as i64)) as u64;
        text::cat("-", text::decimal_text(size).as_str())
    } else {
        text::decimal_text(n as u64)
    }
}

/// The error with which the pairing helper ends by itself; nothing for its other actions.
pub open spec fn helper_error(action: HelperAction) -> Option<Seq<char>> {
    match action {
        HelperAction::Busy => Some("another UnionC Agent pairing operation is already running"@),
        HelperAction::NoQuestion(result) => Some(
            "Windows could not display the pairing confirmation (result "@ + signed_decimal(
                result as int,
            ) + ")"@,
        ),
        HelperAction::Unsupported(state) => Some(
            "Agent service is in unsupported state "@ + state.labelled(),
        ),
        _ => None,
    }
}

/// The error with which the pairing helper ends by itself; nothing for its other actions.
pub fn helper_error_text(action: HelperAction) -> (r: Option<String>)
    ensures
        text::opt_view(r) == helper_error(action),
{
    match action {
        HelperAction::Busy => Some(
            text::owned("another UnionC Agent pairing operation is already running"),
        ),
        HelperAction::NoQuestion(result) => Some(
            text::cat3(
                "Windows could not display the pairing confirmation (result ",
                signed_text(result).as_str(),
                ")",
            ),
        ),
        HelperAction::Unsupported(state) => Some(
            text::cat("Agent service is in unsupported state ", state.label()),
        ),
        _ => None,
    }
}

/// What goes before the error of a step that failed after the pairing had succeeded.
pub fn helper_context(phase: HelperPhase) -> (r: Option<&'static str>)
    ensures
        match phase {
            HelperPhase::Stopping => r matches Some(said) && said@
                == "pairing succeeded but the Agent service could not be stopped"@,
            HelperPhase::Starting => r matches Some(said) && said@
                == "pairing succeeded but the Agent service could not be restarted"@,
            _ => r is None,
        },
{
    match phase {
        HelperPhase::Stopping => Some(
            "pairing succeeded but the Agent service could not be stopped",
        ),
        HelperPhase::Starting => Some(
            "pairing succeeded but the Agent service could not be restarted",
        ),
        _ => None,
    }
}

/// The error with which the helper that changes the service ends by itself.
pub fn elevated_error_text(action: ElevatedAction) -> (r: Option<&'static str>)
    ensures
        match action {
            ElevatedAction::Busy => r matches Some(said) && said@
                == "another UnionC Agent pairing or service operation is already running"@,
            ElevatedAction::NotStopped => r matches Some(said) && said@
                == "Agent service did not remain stopped"@,
            _ => r is None,
        },
{
    match action {
        ElevatedAction::Busy => Some(
            "another UnionC Agent pairing or service operation is already running",
        ),
        ElevatedAction::NotStopped => Some("Agent service did not remain stopped"),
        _ => None,
    }
}

/// The error that a helper's end shows, with the words for a wait that failed; nothing where the
/// helper did what it was to do.
pub open spec fn verdict_error(
    verdict: HelperVerdict,
    action: ServiceAction,
    wait: Seq<char>,
) -> Option<Seq<char>> {
    match verdict {
        HelperVerdict::Done => None,
        HelperVerdict::TimedOut => Some(
            "timed out or failed while waiting for the elevated stop operation ("@ + wait + ")"@,
        ),
        HelperVerdict::ExitCode(code) => Some(
            "elevated stop operation failed with exit code "@ + text::decimal(code as nat),
        ),
        HelperVerdict::NotReached => Some(
            "elevated service operation exited without reaching "@ + action.goal().labelled(),
        ),
    }
}

/// The error that a helper's end shows.
pub fn verdict_error_text(verdict: HelperVerdict, action: ServiceAction, wait: &str) -> (r: Option<
    String,
>)
    ensures
        text::opt_view(r) == verdict_error(verdict, action, wait@),
{
    match verdict {
        HelperVerdict::Done => None,
        HelperVerdict::TimedOut => Some(
            text::cat3(
                "timed out or failed while waiting for the elevated stop operation (",
                wait,
                ")",
            ),
        ),
        HelperVerdict::ExitCode(code) => Some(
            text::cat(
                "elevated stop operation failed with exit code ",
                text::decimal_text(code as u64).as_str(),
            ),
        ),
        HelperVerdict::NotReached => Some(
            text::cat(
                "elevated service operation exited without reaching ",
                action.target().label(),
            ),
        ),
    }
}

/// A number below zero is written with a minus before what stands for the number above it; no other
/// has a sign.
pub proof fn how_a_signed_number_is_written(n: int)
    ensures
        n > 0 ==> signed_decimal(-n) == "-"@ + signed_decimal(n),
        n >= 0 ==> signed_decimal(n) == text::decimal(n as nat),
{
}

/// The words for starting and stopping are not taken for one another, and a pairing has its own.
pub proof fn what_is_said_of_work(action: ServiceAction, progress: &'static str, pair: &'static str)
    requires
        call_ensures(progress_text, (Work::Service(action),), progress),
        call_ensures(progress_text, (Work::Pair,), pair),
    ensures
        action is Start ==> progress@ == "正在启动 Agent 服务"@,
        action is Stop ==> progress@ == "正在停止 Agent 服务"@,
        pair@ == "正在创建请求、提交授权并等待 Server 确认"@,
{
}

} // verus!
