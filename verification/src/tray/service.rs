//! The Windows service as the tray sees it and changes it.

use crate::text;
use vstd::prelude::*;

verus! {

/// The state of the agent's service.
#[derive(Clone, Copy, PartialEq, Eq, Structural, Debug)]
pub enum ServiceState {
    Stopped,
    StartPending,
    StopPending,
    Running,
    Other(u32),
}

impl ServiceState {
    /// The state that the service manager reports under this number.
    pub open spec fn numbered(number: u32) -> ServiceState {
        if number == 1 {
            ServiceState::Stopped
        } else if number == 2 {
            ServiceState::StartPending
        } else if number == 3 {
            ServiceState::StopPending
        } else if number == 4 {
            ServiceState::Running
        } else {
            ServiceState::Other(number)
        }
    }

    /// The state that the service manager reports under this number.
    pub fn from_number(number: u32) -> (r: Self)
        ensures
            r == ServiceState::numbered(number),
    {
        match number {
            1 => ServiceState::Stopped,
            2 => ServiceState::StartPending,
            3 => ServiceState::StopPending,
            4 => ServiceState::Running,
            _ => ServiceState::Other(number),
        }
    }

    /// What the user reads.
    pub open spec fn labelled(self) -> Seq<char> {
        match self {
            ServiceState::Stopped => "已停止"@,
            ServiceState::StartPending => "正在启动"@,
            ServiceState::StopPending => "正在停止"@,
            ServiceState::Running => "正在运行"@,
            ServiceState::Other(_) => "其他状态"@,
        }
    }

    /// What the user reads.
    pub fn label(self) -> (r: &'static str)
        ensures
            r@ == self.labelled(),
    {
        match self {
            ServiceState::Stopped => "已停止",
            ServiceState::StartPending => "正在启动",
            ServiceState::StopPending => "正在停止",
            ServiceState::Running => "正在运行",
            ServiceState::Other(_) => "其他状态",
        }
    }

    /// The name under which the page knows the state.
    pub open spec fn coded(self) -> Seq<char> {
        match self {
            ServiceState::Stopped => "stopped"@,
            ServiceState::StartPending => "starting"@,
            ServiceState::StopPending => "stopping"@,
            ServiceState::Running => "running"@,
            ServiceState::Other(_) => "unknown"@,
        }
    }

    /// The name under which the page knows the state.
    pub fn code(self) -> (r: &'static str)
        ensures
            r@ == self.coded(),
    {
        match self {
            ServiceState::Stopped => "stopped",
            ServiceState::StartPending => "starting",
            ServiceState::StopPending => "stopping",
            ServiceState::Running => "running",
            ServiceState::Other(_) => "unknown",
        }
    }

    /// The service is neither starting nor stopping.
    pub open spec fn is_stable(self) -> bool {
        self != ServiceState::StartPending && self != ServiceState::StopPending
    }
}

/// What may be done to the service.
#[derive(Clone, Copy, PartialEq, Eq, Structural, Debug)]
pub enum ServiceAction {
    Start,
    Stop,
}

impl ServiceAction {
    /// The state that the action leads to.
    pub open spec fn goal(self) -> ServiceState {
        match self {
            ServiceAction::Start => ServiceState::Running,
            ServiceAction::Stop => ServiceState::Stopped,
        }
    }

    /// The state that the action leads to.
    pub fn target(self) -> (r: ServiceState)
        ensures
            r == self.goal(),
    {
        match self {
            ServiceAction::Start => ServiceState::Running,
            ServiceAction::Stop => ServiceState::Stopped,
        }
    }

    /// The action that `name` asks for.
    pub fn named(name: &str) -> (r: Option<ServiceAction>)
        ensures
            r == if name@ == "start"@ {
                Some(ServiceAction::Start)
            } else if name@ == "stop"@ {
                Some(ServiceAction::Stop)
            } else {
                None
            },
    {
        if text::same(name, "start") {
            Some(ServiceAction::Start)
        } else if text::same(name, "stop") {
            Some(ServiceAction::Stop)
        } else {
            None
        }
    }

    /// The name of the action on a command line.
    pub fn argument(self) -> (r: &'static str)
        ensures
            r@ == match self {
                ServiceAction::Start => "start"@,
                ServiceAction::Stop => "stop"@,
            },
    {
        match self {
            ServiceAction::Start => "start",
            ServiceAction::Stop => "stop",
        }
    }

    /// What the page is told while the action is under way.
    pub fn progress(self) -> (r: &'static str)
        ensures
            r@ == match self {
                ServiceAction::Start => "正在启动 Agent 服务"@,
                ServiceAction::Stop => "正在停止 Agent 服务"@,
            },
    {
        match self {
            ServiceAction::Start => "正在启动 Agent 服务",
            ServiceAction::Stop => "正在停止 Agent 服务",
        }
    }

    /// What the page is told when the action is done.
    pub fn done(self) -> (r: &'static str)
        ensures
            r@ == match self {
                ServiceAction::Start => "Agent 服务已启动"@,
                ServiceAction::Stop => "Agent 服务已停止；下次开机仍会自动启动"@,
            },
    {
        match self {
            ServiceAction::Start => "Agent 服务已启动",
            ServiceAction::Stop => "Agent 服务已停止；下次开机仍会自动启动",
        }
    }
}

/// What has to be done to bring the service to a state.
#[derive(Clone, Copy, PartialEq, Eq, Structural, Debug)]
pub enum ServiceMove {
    /// Nothing: it is there.
    Done,
    /// Wait: it is on its way.
    Wait,
    /// Give the order, then wait.
    Order,
    /// It cannot be brought there from where it is.
    Refuse,
}

/// What `action` takes from `state`.
pub open spec fn moves(action: ServiceAction, state: ServiceState) -> ServiceMove {
    match (action, state) {
        (ServiceAction::Start, ServiceState::Running) => ServiceMove::Done,
        (ServiceAction::Start, ServiceState::StartPending) => ServiceMove::Wait,
        (ServiceAction::Start, ServiceState::Stopped) => ServiceMove::Order,
        (ServiceAction::Stop, ServiceState::Stopped) => ServiceMove::Done,
        (ServiceAction::Stop, ServiceState::StopPending) => ServiceMove::Wait,
        (ServiceAction::Stop, ServiceState::Running) => ServiceMove::Order,
        _ => ServiceMove::Refuse,
    }
}

/// What `action` takes from `state`.
pub fn plan_service(action: ServiceAction, state: ServiceState) -> (r: ServiceMove)
    ensures
        r == moves(action, state),
{
    match (action, state) {
        (ServiceAction::Start, ServiceState::Running) => ServiceMove::Done,
        (ServiceAction::Start, ServiceState::StartPending) => ServiceMove::Wait,
        (ServiceAction::Start, ServiceState::Stopped) => ServiceMove::Order,
        (ServiceAction::Stop, ServiceState::Stopped) => ServiceMove::Done,
        (ServiceAction::Stop, ServiceState::StopPending) => ServiceMove::Wait,
        (ServiceAction::Stop, ServiceState::Running) => ServiceMove::Order,
        _ => ServiceMove::Refuse,
    }
}

/// An action ends without an order only where its goal is reached or about to be; it is never
/// refused there, and an order is given only to a service in the opposite stable state.
pub proof fn orders_are_given_to_the_opposite_state(action: ServiceAction, state: ServiceState)
    ensures
        moves(action, state) == ServiceMove::Done <==> state == action.goal(),
        moves(action, state) == ServiceMove::Order ==> state.is_stable() && state != action.goal(),
{
}

/// What a wait for the service comes to at a look.
#[derive(Clone, Copy, PartialEq, Eq, Structural, Debug)]
pub enum WaitStep {
    Reached,
    /// Look again in a moment.
    Again,
    TimedOut,
}

/// What a wait for `expected` comes to.
pub fn await_state(state: ServiceState, expected: ServiceState, now: u64, deadline: u128) -> (r:
    WaitStep)
    ensures
        r == if state == expected {
            WaitStep::Reached
        } else if now < deadline {
            WaitStep::Again
        } else {
            WaitStep::TimedOut
        },
{
    if state == expected {
        WaitStep::Reached
    } else if (now as u128) < deadline {
        WaitStep::Again
    } else {
        WaitStep::TimedOut
    }
}

/// What a wait for the service to settle comes to.
pub fn await_stable(state: ServiceState, now: u64, deadline: u128) -> (r: WaitStep)
    ensures
        r == if state.is_stable() {
            WaitStep::Reached
        } else if now < deadline {
            WaitStep::Again
        } else {
            WaitStep::TimedOut
        },
{
    match state {
        ServiceState::StartPending | ServiceState::StopPending => if (now as u128) < deadline {
            WaitStep::Again
        } else {
            WaitStep::TimedOut
        },
        _ => WaitStep::Reached,
    }
}

/// What the tray's menu offers: to stop a service that runs or starts, to start any other; an
/// unknown state counts as not running.
pub fn offered_action(state: Option<ServiceState>) -> (r: ServiceAction)
    ensures
        r == if state == Some(ServiceState::Running) || state == Some(ServiceState::StartPending) {
            ServiceAction::Stop
        } else {
            ServiceAction::Start
        },
{
    match state {
        Some(ServiceState::Running) | Some(ServiceState::StartPending) => ServiceAction::Stop,
        _ => ServiceAction::Start,
    }
}

/// The words over the tray's icon.
pub fn tray_tooltip(state: Option<ServiceState>) -> (r: String)
    ensures
        r@ == match state {
            Some(state) => "UnionC Agent · "@ + state.labelled(),
            None => "UnionC Agent · 服务状态不可用"@,
        },
{
    match state {
        Some(state) => text::cat("UnionC Agent · ", state.label()),
        None => text::owned("UnionC Agent · 服务状态不可用"),
    }
}

/// What an elevated helper's end shows, given whether it ended in time, its exit code and the
/// service's state afterwards: the helper must report success and the service must be where it
/// was to be brought.
#[derive(Clone, Copy, PartialEq, Eq, Structural, Debug)]
pub enum HelperVerdict {
    Done,
    TimedOut,
    ExitCode(u32),
    NotReached,
}

/// What an elevated helper's end shows.
pub fn judge_helper(
    action: ServiceAction,
    ended: bool,
    exit_code: u32,
    state: ServiceState,
) -> (r: HelperVerdict)
    ensures
        r == if !ended {
            HelperVerdict::TimedOut
        } else if exit_code != 0 {
            HelperVerdict::ExitCode(exit_code)
        } else if state != action.goal() {
            HelperVerdict::NotReached
        } else {
            HelperVerdict::Done
        },
{
    if !ended {
        return HelperVerdict::TimedOut;
    }
    if exit_code != 0 {
        return HelperVerdict::ExitCode(exit_code);
    }
    if state != action.target() {
        return HelperVerdict::NotReached;
    }
    HelperVerdict::Done
}

/// Write the UTF-16 code units `units` to the front of a fixed field and leave room for the zero
/// that ends them.
pub fn copy_wide_fixed(field: &mut Vec<u16>, units: &Vec<u16>)
    ensures
        final(field)@.len() == old(field)@.len(),
        forall|i: int|
            0 <= i < old(field)@.len() ==> #[trigger] final(field)@[i] == if i < units@.len() && i
                < old(field)@.len() - 1 {
                units@[i]
            } else {
                old(field)@[i]
            },
{
    let n: usize = field.len();
    let mut i: usize = 0;
    while i < units.len() && n > 0 && i < n - 1
        invariant
            n == field@.len(),
            n == old(field)@.len(),
            i <= units@.len(),
            n > 0 ==> i <= n - 1,
            n == 0 ==> i == 0,
            forall|j: int|
                0 <= j < n ==> #[trigger] field@[j] == if j < i {
                    units@[j]
                } else {
                    old(field)@[j]
                },
        decreases units@.len() - i,
    {
        field.set(i, units[i]);
        i += 1;
    }
}

/// What brings a service to an action's goal: nothing where it is there, a wait where it is on its
/// way, an order where it stands at the other end; and from everywhere else, nothing does.
pub proof fn what_brings_a_service_to_its_goal(state: ServiceState)
    ensures
        moves(ServiceAction::Start, state) == match state {
            ServiceState::Running => ServiceMove::Done,
            ServiceState::StartPending => ServiceMove::Wait,
            ServiceState::Stopped => ServiceMove::Order,
            _ => ServiceMove::Refuse,
        },
        moves(ServiceAction::Stop, state) == match state {
            ServiceState::Stopped => ServiceMove::Done,
            ServiceState::StopPending => ServiceMove::Wait,
            ServiceState::Running => ServiceMove::Order,
            _ => ServiceMove::Refuse,
        },
        ServiceAction::Start.goal() == ServiceState::Running,
        ServiceAction::Stop.goal() == ServiceState::Stopped,
        state.is_stable() <==> state != ServiceState::StartPending && state
            != ServiceState::StopPending,
{
}

/// The numbers of the service manager name four states; every other number is kept as it is.
pub proof fn what_the_numbers_of_states_mean(number: u32)
    ensures
        ServiceState::numbered(1) == ServiceState::Stopped,
        ServiceState::numbered(2) == ServiceState::StartPending,
        ServiceState::numbered(3) == ServiceState::StopPending,
        ServiceState::numbered(4) == ServiceState::Running,
        number == 0 || number > 4 ==> ServiceState::numbered(number) == ServiceState::Other(number),
{
}

/// A running service, or one that starts, is offered to be stopped; any other to be started.
pub proof fn what_is_offered(state: Option<ServiceState>, r: ServiceAction)
    requires
        call_ensures(offered_action, (state,), r),
    ensures
        r is Stop <==> state == Some(ServiceState::Running) || state == Some(
            ServiceState::StartPending,
        ),
{
}

/// A helper has done its work where it ended in time, without an error, and left the service as it
/// was to be.
pub proof fn when_a_helper_has_done_its_work(
    action: ServiceAction,
    ended: bool,
    exit_code: u32,
    state: ServiceState,
    r: HelperVerdict,
)
    requires
        call_ensures(judge_helper, (action, ended, exit_code, state), r),
    ensures
        r is Done <==> ended && exit_code == 0 && (action is Start ==> state
            == ServiceState::Running) && (action is Stop ==> state == ServiceState::Stopped),
        r is TimedOut <==> !ended,
        r is ExitCode <==> ended && exit_code != 0,
        r matches HelperVerdict::ExitCode(code) ==> code == exit_code,
{
}

/// A state is waited for until it is there or the time is over; being there counts first.
pub proof fn how_a_state_is_waited_for(
    state: ServiceState,
    expected: ServiceState,
    now: u64,
    deadline: u128,
    r: WaitStep,
    stable: WaitStep,
)
    requires
        call_ensures(await_state, (state, expected, now, deadline), r),
        call_ensures(await_stable, (state, now, deadline), stable),
    ensures
        r is Reached <==> state == expected,
        r is Again <==> state != expected && now < deadline,
        r is TimedOut <==> state != expected && now >= deadline,
        stable is Reached <==> state.is_stable(),
        stable is Again <==> !state.is_stable() && now < deadline,
{
}

/// The word for an action is read back as the action, and no other word is one.
pub proof fn an_action_is_read_back(action: ServiceAction, word: &str, r: Option<ServiceAction>)
    requires
        call_ensures(ServiceAction::argument, (action,), word),
        call_ensures(ServiceAction::named, (word,), r),
    ensures
        r == Some(action),
{
    reveal_strlit("start");
    reveal_strlit("stop");
    assert("start"@.len() != "stop"@.len());
}

/// A text of fixed room keeps its last place free, and what does not fit is cut off.
pub proof fn a_fixed_text_ends_with_its_last_place()
    ensures
        forall|field: &mut Vec<u16>, units: &Vec<u16>| #[trigger]
            call_ensures(copy_wide_fixed, (field, units), ()) ==> {
                &&& (*final(field))@.len() == (*field)@.len()
                &&& (*field)@.len() > 0 ==> (*final(field))@.last() == (*field)@.last()
                &&& forall|i: int|
                    0 <= i < units@.len() && i < (*field)@.len() - 1 ==> (*final(field))@[i]
                        == #[trigger] units@[i]
            },
{
}

} // verus!
