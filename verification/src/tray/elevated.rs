//! What the tray does to the service with an administrator's rights.

use crate::schedule::SECOND;
use crate::text;
use crate::tray::service::{
    await_state, moves, plan_service, ServiceAction, ServiceMove, ServiceState, WaitStep,
};
use crate::tray::window::ExitFlow;
use vstd::prelude::*;

verus! {

// ---------------------------------------------------------------------------
// Command lines
// ---------------------------------------------------------------------------
/// The arguments of a helper that pairs. `server` and `name`, which the user chose, arrive here
/// already encoded in base64url.
pub open spec fn elevated_pair_text(
    server: Seq<char>,
    name: Option<Seq<char>>,
    callback_nonce: Seq<char>,
) -> Seq<Seq<char>> {
    let named = match name {
        Some(name) => seq!["--name-b64"@, name],
        None => Seq::empty(),
    };
    seq!["--elevated-pair"@, "--server-b64"@, server] + named + seq![
        "--callback-nonce"@,
        callback_nonce,
    ]
}

/// The arguments of a helper that pairs. `server` and `name`, which the user chose, arrive here
/// already encoded in base64url.
pub fn elevated_pair_arguments(server: &str, name: Option<&str>, callback_nonce: &str) -> (r: Vec<
    String,
>)
    ensures
        text::views(r@) == elevated_pair_text(
            server@,
            match name {
                Some(name) => Some(name@),
                None => None,
            },
            callback_nonce@,
        ),
{
    let mut out: Vec<String> = Vec::new();
    out.push(text::owned("--elevated-pair"));
    out.push(text::owned("--server-b64"));
    out.push(text::owned(server));
    if let Some(name) = name {
        out.push(text::owned("--name-b64"));
        out.push(text::owned(name));
    }
    out.push(text::owned("--callback-nonce"));
    out.push(text::owned(callback_nonce));
    assert(text::views(out@) =~= elevated_pair_text(
        server@,
        match name {
            Some(name) => Some(name@),
            None => None,
        },
        callback_nonce@,
    ));
    out
}

/// The arguments of a helper that changes the service; one that the page asked for tells the user
/// nothing by itself.
pub fn elevated_service_arguments(work: ElevatedWork) -> (r: Vec<String>)
    ensures
        text::views(r@) == match work {
            ElevatedWork::Service { action, notify } => seq![
                if notify {
                    "--elevated-service"@
                } else {
                    "--elevated-service-browser"@
                },
                match action {
                    ServiceAction::Start => "start"@,
                    ServiceAction::Stop => "stop"@,
                },
            ],
            ElevatedWork::StopForExit => seq!["--elevated-stop-for-exit"@],
        },
{
    let mut out: Vec<String> = Vec::new();
    match work {
        ElevatedWork::Service { action, notify } => {
            if notify {
                out.push(text::owned("--elevated-service"));
            } else {
                out.push(text::owned("--elevated-service-browser"));
            }
            out.push(text::owned(action.argument()));
        },
        ElevatedWork::StopForExit => {
            out.push(text::owned("--elevated-stop-for-exit"));
        },
    }
    assert(text::views(out@) =~= match work {
        ElevatedWork::Service { action, notify } => seq![
            if notify {
                "--elevated-service"@
            } else {
                "--elevated-service-browser"@
            },
            match action {
                ServiceAction::Start => "start"@,
                ServiceAction::Stop => "stop"@,
            },
        ],
        ElevatedWork::StopForExit => seq!["--elevated-stop-for-exit"@],
    });
    out
}

// ---------------------------------------------------------------------------
// Bringing the service to a state
// ---------------------------------------------------------------------------
/// How long the service may take to get where it was ordered, in seconds.
pub const SERVICE_CHANGE_SECONDS: u64 = 30;

/// Which part of a change is under way.
#[derive(Clone, Copy, PartialEq, Eq, Structural, Debug)]
pub enum ChangePhase {
    Looking,
    Commanding,
    Waiting { deadline: u128 },
    Finished,
}

/// What came of it.
#[derive(Clone, Copy, PartialEq, Eq, Structural, Debug)]
pub enum ChangeEvent {
    State(ServiceState),
    Ordered,
    Failed,
}

/// Why the service was not brought there.
#[derive(Clone, Copy, PartialEq, Eq, Structural, Debug)]
pub enum ChangeFault {
    Cannot { action: ServiceAction, state: ServiceState },
    TimedOut { expected: ServiceState, state: ServiceState },
}

impl ChangeFault {
    /// The words in which the fault is reported.
    pub open spec fn text(self) -> Seq<char> {
        match self {
            ChangeFault::Cannot { action: ServiceAction::Start, state } =>
                "cannot start the Agent service from state "@ + state.labelled(),
            ChangeFault::Cannot { action: ServiceAction::Stop, state } =>
                "cannot stop the Agent service from state "@ + state.labelled(),
            ChangeFault::TimedOut { expected, state } =>
                "timed out waiting for the Agent service to reach "@ + expected.labelled()
                    + " (currently "@ + state.labelled() + ")"@,
        }
    }

    /// The words in which the fault is reported.
    pub fn message(&self) -> (r: String)
        ensures
            r@ == self.text(),
    {
        match *self {
            ChangeFault::Cannot { action: ServiceAction::Start, state } => text::cat(
                "cannot start the Agent service from state ",
                state.label(),
            ),
            ChangeFault::Cannot { action: ServiceAction::Stop, state } => text::cat(
                "cannot stop the Agent service from state ",
                state.label(),
            ),
            ChangeFault::TimedOut { expected, state } => text::cat5(
                "timed out waiting for the Agent service to reach ",
                expected.label(),
                " (currently ",
                state.label(),
                ")",
            ),
        }
    }
}

/// What to do next.
#[derive(Clone, Copy, PartialEq, Eq, Structural, Debug)]
pub enum ChangeStep {
    /// Ask for the service's state.
    Query,
    Order(ServiceAction),
    /// Ask for the service's state again in a moment.
    Rest,
    Finish,
    Fail(ChangeFault),
    /// End with the error of the operation that failed.
    FailWithError,
}

/// A change of the service's state.
#[derive(Clone, Copy, PartialEq, Eq, Structural, Debug)]
pub struct ServiceChange {
    pub action: ServiceAction,
    pub phase: ChangePhase,
}

/// When a wait that begins now has taken too long.
pub open spec fn change_deadline(now: u64) -> u128 {
    (now + SERVICE_CHANGE_SECONDS * SECOND) as u128
}

impl ServiceChange {
    /// The event can come now.
    pub open spec fn awaits(self, event: ChangeEvent) -> bool {
        match self.phase {
            ChangePhase::Looking | ChangePhase::Waiting { .. } => event is State || event is Failed,
            ChangePhase::Commanding => event is Ordered || event is Failed,
            ChangePhase::Finished => false,
        }
    }

    /// The change in another phase, with what to do there.
    pub open spec fn to(self, phase: ChangePhase, step: ChangeStep) -> (ServiceChange, ChangeStep) {
        (ServiceChange { phase, ..self }, step)
    }

    /// The step that `event` leads to.
    pub open spec fn next(self, event: ChangeEvent, now: u64) -> (ServiceChange, ChangeStep) {
        let goal = self.action.goal();
        match (self.phase, event) {
            (ChangePhase::Looking, ChangeEvent::State(state)) => match moves(self.action, state) {
                ServiceMove::Done => self.to(ChangePhase::Finished, ChangeStep::Finish),
                ServiceMove::Wait => self.to(
                    ChangePhase::Waiting { deadline: change_deadline(now) },
                    ChangeStep::Query,
                ),
                ServiceMove::Order => self.to(
                    ChangePhase::Commanding,
                    ChangeStep::Order(self.action),
                ),
                ServiceMove::Refuse => self.to(
                    ChangePhase::Finished,
                    ChangeStep::Fail(ChangeFault::Cannot { action: self.action, state }),
                ),
            },
            (ChangePhase::Commanding, ChangeEvent::Ordered) => self.to(
                ChangePhase::Waiting { deadline: change_deadline(now) },
                ChangeStep::Query,
            ),
            (ChangePhase::Waiting { deadline }, ChangeEvent::State(state)) => if state == goal {
                self.to(ChangePhase::Finished, ChangeStep::Finish)
            } else if now < deadline {
                self.to(self.phase, ChangeStep::Rest)
            } else {
                self.to(
                    ChangePhase::Finished,
                    ChangeStep::Fail(ChangeFault::TimedOut { expected: goal, state }),
                )
            },
            _ => self.to(ChangePhase::Finished, ChangeStep::FailWithError),
        }
    }

    /// Begin to bring the service to where `action` leads.
    pub fn start(action: ServiceAction) -> (r: (ServiceChange, ChangeStep))
        ensures
            r.0 == (ServiceChange { action, phase: ChangePhase::Looking }),
            r.1 == ChangeStep::Query,
    {
        (ServiceChange { action, phase: ChangePhase::Looking }, ChangeStep::Query)
    }

    fn enter(&mut self, phase: ChangePhase, step: ChangeStep) -> (r: ChangeStep)
        ensures
            (*final(self), r) == old(self).to(phase, step),
    {
        self.phase = phase;
        step
    }

    /// Take what came of the last step and say what to do next.
    pub fn step(&mut self, event: ChangeEvent, now: u64) -> (r: ChangeStep)
        requires
            old(self).awaits(event),
        ensures
            (*final(self), r) == old(self).next(event, now),
    {
        let deadline: u128 = (now as u128) + ((SERVICE_CHANGE_SECONDS * SECOND) as u128);
        match (self.phase, event) {
            (ChangePhase::Looking, ChangeEvent::State(state)) => match plan_service(
                self.action,
                state,
            ) {
                ServiceMove::Done => self.enter(ChangePhase::Finished, ChangeStep::Finish),
                ServiceMove::Wait => self.enter(
                    ChangePhase::Waiting { deadline },
                    ChangeStep::Query,
                ),
                ServiceMove::Order => {
                    let order = ChangeStep::Order(self.action);
                    self.enter(ChangePhase::Commanding, order)
                },
                ServiceMove::Refuse => {
                    let fault = ChangeFault::Cannot { action: self.action, state };
                    self.enter(ChangePhase::Finished, ChangeStep::Fail(fault))
                },
            },
            (ChangePhase::Commanding, ChangeEvent::Ordered) => self.enter(
                ChangePhase::Waiting { deadline },
                ChangeStep::Query,
            ),
            (ChangePhase::Waiting { deadline }, ChangeEvent::State(state)) => {
                let goal = self.action.target();
                match await_state(state, goal, now, deadline) {
                    WaitStep::Reached => self.enter(ChangePhase::Finished, ChangeStep::Finish),
                    WaitStep::Again => ChangeStep::Rest,
                    WaitStep::TimedOut => self.enter(
                        ChangePhase::Finished,
                        ChangeStep::Fail(ChangeFault::TimedOut { expected: goal, state }),
                    ),
                }
            },
            _ => self.enter(ChangePhase::Finished, ChangeStep::FailWithError),
        }
    }
}

/// A change ends well only where the service was seen at its goal, and an order is given at most
/// once: only from the first look, and never again after it.
pub proof fn a_change_ends_at_its_goal(change: ServiceChange, event: ChangeEvent, now: u64)
    requires
        change.awaits(event),
    ensures
        change.next(event, now).1 == ChangeStep::Finish ==> event == ChangeEvent::State(
            change.action.goal(),
        ),
        change.next(event, now).1 is Order ==> change.phase == ChangePhase::Looking,
        change.next(event, now).0.phase != ChangePhase::Looking,
        change.next(event, now).0.action == change.action,
{
}

// ---------------------------------------------------------------------------
// The elevated helper
// ---------------------------------------------------------------------------
/// What the helper was started for.
#[derive(Clone, Copy, PartialEq, Eq, Structural, Debug)]
pub enum ElevatedWork {
    /// To change the service, and to tell the user where `notify` asks for it.
    Service { action: ServiceAction, notify: bool },
    /// To stop the service before the tray leaves.
    StopForExit,
}

impl ElevatedWork {
    /// What is done to the service.
    pub open spec fn act(self) -> ServiceAction {
        match self {
            ElevatedWork::Service { action, .. } => action,
            ElevatedWork::StopForExit => ServiceAction::Stop,
        }
    }

    fn action(self) -> (r: ServiceAction)
        ensures
            r == self.act(),
    {
        match self {
            ElevatedWork::Service { action, .. } => action,
            ElevatedWork::StopForExit => ServiceAction::Stop,
        }
    }
}

/// Which operation of the helper is under way.
#[derive(Clone, Copy, PartialEq, Eq, Structural, Debug)]
pub enum ElevatedPhase {
    CheckingRights,
    Claiming,
    Changing,
    /// Looking whether the service stayed stopped.
    Confirming,
    Telling,
    Finished,
}

/// What came of the operation under way.
#[derive(Clone, Copy, PartialEq, Eq, Structural, Debug)]
pub enum ElevatedEvent {
    Done,
    /// Whether no other elevated operation runs.
    Claimed(bool),
    State(ServiceState),
    Failed,
}

/// What to do next.
#[derive(Clone, Copy, PartialEq, Eq, Structural, Debug)]
pub enum ElevatedAction {
    CheckRights,
    Claim,
    Change(ServiceAction),
    Query,
    Tell(ServiceAction),
    Finish,
    /// Another elevated operation runs.
    Busy,
    /// The service did not stay stopped.
    NotStopped,
    /// End with the error of the operation that failed.
    FailWithError,
}

/// One run of the elevated helper that changes the service.
#[derive(Clone, Copy, PartialEq, Eq, Structural, Debug)]
pub struct ElevatedRun {
    pub work: ElevatedWork,
    pub phase: ElevatedPhase,
}

impl ElevatedRun {
    /// The user is told only of a change that was asked for.
    pub open spec fn valid(self) -> bool {
        self.phase == ElevatedPhase::Telling ==> self.work is Service
    }

    /// The event can come now.
    pub open spec fn awaits(self, event: ElevatedEvent) -> bool {
        match self.phase {
            ElevatedPhase::CheckingRights | ElevatedPhase::Changing => event is Done
                || event is Failed,
            ElevatedPhase::Claiming => event is Claimed || event is Failed,
            ElevatedPhase::Confirming => event is State || event is Failed,
            ElevatedPhase::Telling => event is Done,
            ElevatedPhase::Finished => false,
        }
    }

    /// The run in another phase, with what to do there.
    pub open spec fn to(self, phase: ElevatedPhase, action: ElevatedAction) -> (
        ElevatedRun,
        ElevatedAction,
    ) {
        (ElevatedRun { phase, ..self }, action)
    }

    /// The step that `event` leads to: rights first, then the claim, then the change.
    pub open spec fn next(self, event: ElevatedEvent) -> (ElevatedRun, ElevatedAction) {
        match (self.phase, event) {
            (ElevatedPhase::CheckingRights, ElevatedEvent::Done) => self.to(
                ElevatedPhase::Claiming,
                ElevatedAction::Claim,
            ),
            (ElevatedPhase::Claiming, ElevatedEvent::Claimed(free)) => if free {
                self.to(ElevatedPhase::Changing, ElevatedAction::Change(self.work.act()))
            } else {
                self.to(ElevatedPhase::Finished, ElevatedAction::Busy)
            },
            (ElevatedPhase::Changing, ElevatedEvent::Done) => match self.work {
                ElevatedWork::Service { action, notify: true } => self.to(
                    ElevatedPhase::Telling,
                    ElevatedAction::Tell(action),
                ),
                ElevatedWork::Service { .. } => self.to(
                    ElevatedPhase::Finished,
                    ElevatedAction::Finish,
                ),
                ElevatedWork::StopForExit => self.to(
                    ElevatedPhase::Confirming,
                    ElevatedAction::Query,
                ),
            },
            (ElevatedPhase::Confirming, ElevatedEvent::State(state)) => if state
                == ServiceState::Stopped {
                self.to(ElevatedPhase::Finished, ElevatedAction::Finish)
            } else {
                self.to(ElevatedPhase::Finished, ElevatedAction::NotStopped)
            },
            (ElevatedPhase::Telling, ElevatedEvent::Done) => self.to(
                ElevatedPhase::Finished,
                ElevatedAction::Finish,
            ),
            _ => self.to(ElevatedPhase::Finished, ElevatedAction::FailWithError),
        }
    }

    /// Begin: the helper's rights are checked first.
    pub fn start(work: ElevatedWork) -> (r: (ElevatedRun, ElevatedAction))
        ensures
            r.0 == (ElevatedRun { work, phase: ElevatedPhase::CheckingRights }),
            r.0.valid(),
            r.1 == ElevatedAction::CheckRights,
    {
        (ElevatedRun { work, phase: ElevatedPhase::CheckingRights }, ElevatedAction::CheckRights)
    }

    fn enter(&mut self, phase: ElevatedPhase, action: ElevatedAction) -> (r: ElevatedAction)
        ensures
            (*final(self), r) == old(self).to(phase, action),
    {
        self.phase = phase;
        action
    }

    /// Take the outcome of the operation under way and say what to do next.
    pub fn step(&mut self, event: ElevatedEvent) -> (r: ElevatedAction)
        requires
            old(self).awaits(event),
        ensures
            (*final(self), r) == old(self).next(event),
    {
        match (self.phase, event) {
            (ElevatedPhase::CheckingRights, ElevatedEvent::Done) => self.enter(
                ElevatedPhase::Claiming,
                ElevatedAction::Claim,
            ),
            (ElevatedPhase::Claiming, ElevatedEvent::Claimed(free)) => if free {
                let change = ElevatedAction::Change(self.work.action());
                self.enter(ElevatedPhase::Changing, change)
            } else {
                self.enter(ElevatedPhase::Finished, ElevatedAction::Busy)
            },
            (ElevatedPhase::Changing, ElevatedEvent::Done) => match self.work {
                ElevatedWork::Service { action, notify } => if notify {
                    self.enter(ElevatedPhase::Telling, ElevatedAction::Tell(action))
                } else {
                    self.enter(ElevatedPhase::Finished, ElevatedAction::Finish)
                },
                ElevatedWork::StopForExit => self.enter(
                    ElevatedPhase::Confirming,
                    ElevatedAction::Query,
                ),
            },
            (ElevatedPhase::Confirming, ElevatedEvent::State(state)) => if state
                == ServiceState::Stopped {
                self.enter(ElevatedPhase::Finished, ElevatedAction::Finish)
            } else {
                self.enter(ElevatedPhase::Finished, ElevatedAction::NotStopped)
            },
            (ElevatedPhase::Telling, ElevatedEvent::Done) => self.enter(
                ElevatedPhase::Finished,
                ElevatedAction::Finish,
            ),
            _ => self.enter(ElevatedPhase::Finished, ElevatedAction::FailWithError),
        }
    }
}

/// What the user is told once the service is changed.
pub fn changed_text(action: ServiceAction) -> (r: &'static str)
    ensures
        r@ == match action {
            ServiceAction::Start => "UnionC Agent 服务已启动。"@,
            ServiceAction::Stop => "UnionC Agent 服务已停止；Windows 下次启动时仍会自动运行。"@,
        },
{
    match action {
        ServiceAction::Start => "UnionC Agent 服务已启动。",
        ServiceAction::Stop => "UnionC Agent 服务已停止；Windows 下次启动时仍会自动运行。",
    }
}

/// The service is touched only by a helper with an administrator's rights that found no other at
/// work, and a stop for the tray's exit is confirmed before it counts.
pub proof fn the_service_is_changed_with_rights_and_alone(run: ElevatedRun, event: ElevatedEvent)
    requires
        run.valid(),
        run.awaits(event),
    ensures
        run.next(event).0.valid(),
        run.next(event).1 is Change ==> run.phase == ElevatedPhase::Claiming && event
            == ElevatedEvent::Claimed(true),
        run.next(event).0.phase == ElevatedPhase::Claiming ==> run.phase
            == ElevatedPhase::CheckingRights && event == ElevatedEvent::Done,
        run.work == ElevatedWork::StopForExit && run.next(event).1 == ElevatedAction::Finish
            ==> event == ElevatedEvent::State(ServiceState::Stopped),
{
}

// ---------------------------------------------------------------------------
// Leaving the tray
// ---------------------------------------------------------------------------
/// Which part of a stop before the exit is under way.
#[derive(Clone, Copy, PartialEq, Eq, Structural, Debug)]
pub enum StopPhase {
    Launching,
    Awaiting,
    Posting,
    Finished,
}

/// What to do next.
#[derive(Clone, Copy, PartialEq, Eq, Structural, Debug)]
pub enum StopAction {
    /// A stop is already under way.
    Refuse,
    Launch,
    AwaitHelper,
    /// Tell the tray's window that the service has stopped.
    Post,
    /// The window does the rest.
    Finish,
    /// End with the error of the launch.
    FailWithError,
    /// Show the user the error: the service did not stop.
    ShowNotStopped,
    /// Show the user that the window could not be told.
    ShowNotTold,
}

/// A stop of the service before the tray leaves.
#[derive(Clone, Copy, PartialEq, Eq, Structural, Debug)]
pub struct StopAndExit {
    pub phase: StopPhase,
}

impl StopAndExit {
    /// The step that an operation leads to which succeeded or did not.
    pub open spec fn next(self, succeeded: bool) -> (StopAndExit, StopAction) {
        let (phase, action) = match (self.phase, succeeded) {
            (StopPhase::Launching, true) => (StopPhase::Awaiting, StopAction::AwaitHelper),
            (StopPhase::Awaiting, true) => (StopPhase::Posting, StopAction::Post),
            (_, true) => (StopPhase::Finished, StopAction::Finish),
            (StopPhase::Launching, false) => (StopPhase::Finished, StopAction::FailWithError),
            (StopPhase::Awaiting, false) => (StopPhase::Finished, StopAction::ShowNotStopped),
            (_, false) => (StopPhase::Finished, StopAction::ShowNotTold),
        };
        (StopAndExit { phase }, action)
    }

    /// Begin, unless a stop is already under way.
    pub fn start(flow: &mut ExitFlow) -> (r: (StopAndExit, StopAction))
        ensures
            final(flow).pending,
            r == if old(flow).pending {
                (StopAndExit { phase: StopPhase::Finished }, StopAction::Refuse)
            } else {
                (StopAndExit { phase: StopPhase::Launching }, StopAction::Launch)
            },
    {
        if flow.request() {
            (StopAndExit { phase: StopPhase::Launching }, StopAction::Launch)
        } else {
            (StopAndExit { phase: StopPhase::Finished }, StopAction::Refuse)
        }
    }

    /// Take whether the last operation succeeded and say what to do next. The exit is called off
    /// as soon as one did not.
    pub fn step(&mut self, flow: &mut ExitFlow, succeeded: bool) -> (r: StopAction)
        requires
            old(self).phase != StopPhase::Finished,
        ensures
            (*final(self), r) == old(self).next(succeeded),
            final(flow).pending == (old(flow).pending && succeeded),
    {
        if !succeeded {
            flow.call_off();
        }
        let (phase, action) = match (self.phase, succeeded) {
            (StopPhase::Launching, true) => (StopPhase::Awaiting, StopAction::AwaitHelper),
            (StopPhase::Awaiting, true) => (StopPhase::Posting, StopAction::Post),
            (_, true) => (StopPhase::Finished, StopAction::Finish),
            (StopPhase::Launching, false) => (StopPhase::Finished, StopAction::FailWithError),
            (StopPhase::Awaiting, false) => (StopPhase::Finished, StopAction::ShowNotStopped),
            (_, false) => (StopPhase::Finished, StopAction::ShowNotTold),
        };
        self.phase = phase;
        action
    }
}

/// Why a stop is refused while another is under way.
pub fn exit_busy() -> (r: &'static str)
    ensures
        r@ == "服务停止和退出操作已经在进行中"@,
{
    "服务停止和退出操作已经在进行中"
}

/// What the user is shown where the window could not be told.
pub fn not_told_text() -> (r: &'static str)
    ensures
        r@ == "Agent 服务已停止，但无法通知托盘退出；托盘将继续运行。"@,
{
    "Agent 服务已停止，但无法通知托盘退出；托盘将继续运行。"
}

/// What the user is shown where the service did not stop.
pub fn not_stopped_text(error: &str) -> (r: String)
    ensures
        r@ == "Agent 服务未能停止，托盘将继续运行：\n\n"@ + error@,
{
    text::cat("Agent 服务未能停止，托盘将继续运行：\n\n", error)
}

/// The window is told of a stop only after the helper has ended well.
pub proof fn the_window_is_told_of_a_stop_that_happened(stop: StopAndExit, succeeded: bool)
    ensures
        stop.next(succeeded).1 == StopAction::Post ==> stop.phase == StopPhase::Awaiting
            && succeeded,
        !succeeded ==> stop.next(succeeded).0.phase == StopPhase::Finished,
{
}

/// A change looks at the service first: it is over where the service is at its goal, waits where it
/// is on its way, gives one order where it stands at the other end, and fails anywhere else. Then it
/// looks again until the service is at its goal, for thirty seconds.
pub proof fn how_a_change_goes(change: ServiceChange, state: ServiceState, now: u64)
    ensures
        ({
            let goal = if change.action == ServiceAction::Start {
                ServiceState::Running
            } else {
                ServiceState::Stopped
            };
            let coming = if change.action == ServiceAction::Start {
                ServiceState::StartPending
            } else {
                ServiceState::StopPending
            };
            let other = if change.action == ServiceAction::Start {
                ServiceState::Stopped
            } else {
                ServiceState::Running
            };
            let (after, step) = change.next(ChangeEvent::State(state), now);
            let limit = (now + 30 * 1_000_000_000) as u128;
            &&& change.phase == ChangePhase::Looking ==> {
                &&& state == goal ==> step == ChangeStep::Finish
                &&& state == coming ==> step == ChangeStep::Query && after.phase == (
                ChangePhase::Waiting { deadline: limit })
                &&& state == other ==> step == ChangeStep::Order(change.action) && after.phase
                    == ChangePhase::Commanding
                &&& state != goal && state != coming && state != other ==> step
                    == ChangeStep::Fail(ChangeFault::Cannot { action: change.action, state })
            }
            &&& change.phase == ChangePhase::Commanding ==> change.next(
                ChangeEvent::Ordered,
                now,
            ) == (
                ServiceChange { phase: ChangePhase::Waiting { deadline: limit }, ..change },
                ChangeStep::Query,
            )
            &&& change.phase matches ChangePhase::Waiting { deadline } ==> {
                &&& state == goal ==> step == ChangeStep::Finish
                &&& state != goal && now < deadline ==> step == ChangeStep::Rest && after == change
                &&& state != goal && now >= deadline ==> step == ChangeStep::Fail(
                    ChangeFault::TimedOut { expected: goal, state },
                )
            }
            &&& step == ChangeStep::Finish || step is Fail ==> after.phase == ChangePhase::Finished
            &&& change.next(ChangeEvent::Failed, now).1 == ChangeStep::FailWithError
        }),
{
}

/// The helper checks its rights, claims the machine, and changes the service as it was asked to; it
/// tells the user where that was asked for, and confirms a stop for the tray's exit by another look.
pub proof fn how_the_helper_changes_the_service(run: ElevatedRun, state: ServiceState)
    ensures
        run.phase == ElevatedPhase::CheckingRights ==> run.next(ElevatedEvent::Done) == (
            ElevatedRun { phase: ElevatedPhase::Claiming, ..run },
            ElevatedAction::Claim,
        ),
        run.phase == ElevatedPhase::Claiming ==> {
            &&& run.next(ElevatedEvent::Claimed(false)).1 == ElevatedAction::Busy
            &&& run.next(ElevatedEvent::Claimed(true)).0 == (ElevatedRun {
                phase: ElevatedPhase::Changing,
                ..run
            })
            &&& run.work matches ElevatedWork::Service { action, notify } ==> run.next(
                ElevatedEvent::Claimed(true),
            ).1 == ElevatedAction::Change(action)
            &&& run.work == ElevatedWork::StopForExit ==> run.next(ElevatedEvent::Claimed(true)).1
                == ElevatedAction::Change(ServiceAction::Stop)
        },
        run.phase == ElevatedPhase::Changing ==> {
            let (after, action) = run.next(ElevatedEvent::Done);
            &&& run.work matches ElevatedWork::Service { action: done, notify } ==> if notify {
                action == ElevatedAction::Tell(done) && after.next(ElevatedEvent::Done).1
                    == ElevatedAction::Finish
            } else {
                action == ElevatedAction::Finish
            }
            &&& run.work == ElevatedWork::StopForExit ==> action == ElevatedAction::Query
                && after.phase == ElevatedPhase::Confirming
        },
        run.phase == ElevatedPhase::Confirming ==> run.next(ElevatedEvent::State(state)).1 == (
        if state == ServiceState::Stopped {
            ElevatedAction::Finish
        } else {
            ElevatedAction::NotStopped
        }),
        run.next(ElevatedEvent::Failed).1 == ElevatedAction::FailWithError,
{
}

/// A stop before the exit is launched, waited for and told to the window, one after the other; the
/// first of these that fails ends it, and the user sees which.
pub proof fn how_the_tray_stops_and_leaves(stop: StopAndExit)
    ensures
        stop.phase == StopPhase::Launching ==> stop.next(true).1 == StopAction::AwaitHelper
            && stop.next(true).0.phase == StopPhase::Awaiting && stop.next(false).1
            == StopAction::FailWithError,
        stop.phase == StopPhase::Awaiting ==> stop.next(true).1 == StopAction::Post && stop.next(
            true,
        ).0.phase == StopPhase::Posting && stop.next(false).1 == StopAction::ShowNotStopped,
        stop.phase == StopPhase::Posting ==> stop.next(true).1 == StopAction::Finish && stop.next(
            false,
        ).1 == StopAction::ShowNotTold && stop.next(true).0.phase == StopPhase::Finished,
{
}

/// The helper that pairs is told the server, the name if there is one, and the pairing's own secret.
pub proof fn what_the_pairing_helper_is_told(
    server: Seq<char>,
    name: Seq<char>,
    callback_nonce: Seq<char>,
)
    ensures
        elevated_pair_text(server, None, callback_nonce) =~= seq![
            "--elevated-pair"@,
            "--server-b64"@,
            server,
            "--callback-nonce"@,
            callback_nonce,
        ],
        elevated_pair_text(server, Some(name), callback_nonce) =~= seq![
            "--elevated-pair"@,
            "--server-b64"@,
            server,
            "--name-b64"@,
            name,
            "--callback-nonce"@,
            callback_nonce,
        ],
{
}

} // verus!
