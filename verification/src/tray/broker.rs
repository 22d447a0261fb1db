//! A pairing between the tray and its elevated helper, from the click on the page to the end.

use crate::endpoint::{server_base, validate_server_base, ServerFault};
use crate::schedule::SECOND;
use crate::text;
use crate::tray::child::PAIR_OPERATION_SECONDS;
use crate::tray::operation::{OperationKind, OperationPhase};
use crate::tray::preferences::TrayPreferences;
use crate::tray::service::{ServiceAction, ServiceState};
use vstd::prelude::*;

verus! {

/// How long a helper may take beyond the pairing itself.
pub const PAIR_BROKER_EXIT_GRACE_SECONDS: u64 = 120;

/// How long the tray waits for the helper to ask for the key, in nanoseconds.
pub open spec fn patience() -> int {
    PAIR_OPERATION_SECONDS * SECOND
}

// ---------------------------------------------------------------------------
// Handing over the key
// ---------------------------------------------------------------------------
/// What a try to connect to the helper gave.
#[derive(Clone, Copy, PartialEq, Eq, Structural, Debug)]
pub enum ConnectLook {
    Connected,
    /// Nobody is there yet.
    Listening,
    Failed,
}

/// What a look at the helper's process, or the wait for its end, gave.
#[derive(Clone, Copy, PartialEq, Eq, Structural, Debug)]
pub enum BrokerLook {
    Running,
    Exited { code: u32 },
    Failed,
}

/// Which operation of the hand-over is under way.
#[derive(Clone, Copy, PartialEq, Eq, Structural, Debug)]
pub enum ServePhase {
    Connecting,
    LookingAtBroker,
    Resting,
    IdentifyingClient,
    ReadingMessage,
    SendingKey,
    AwaitingExit,
    Finished,
}

/// What came of the operation under way.
#[derive(Clone, Copy, PartialEq, Eq, Structural, Debug)]
pub enum ServeEvent {
    Connect(ConnectLook),
    Broker(BrokerLook),
    Rested,
    /// The process at the other end of the pipe.
    Client { pid: u32 },
    /// A message was read and is one for this pairing.
    Message,
    Sent,
    Failed,
}

/// Why a hand-over fails.
#[derive(Clone, Copy, PartialEq, Eq, Structural, Debug)]
pub enum ServeFault {
    NoBroker,
    Connection,
    ExitedEarly { code: u32 },
    Waiting,
    TimedOut,
    OtherClient,
    NoExit,
    ExitCode { code: u32 },
}

impl ServeFault {
    /// The words in which the fault is reported, with those of the system where it gave some.
    pub open spec fn text(self, detail: Seq<char>) -> Seq<char> {
        match self {
            ServeFault::NoBroker => "failed to identify the elevated pairing broker"@,
            ServeFault::Connection => "protected pairing pipe connection failed: "@ + detail,
            ServeFault::ExitedEarly { code } =>
                "the elevated pairing broker exited before requesting the authorization key (exit code "@
                    + text::decimal(code as nat) + ")"@,
            ServeFault::Waiting => "failed to wait for the elevated pairing broker: "@ + detail,
            ServeFault::TimedOut => "timed out waiting for the elevated pairing broker"@,
            ServeFault::OtherClient =>
                "pairing pipe client is not the broker launched by this tray"@,
            ServeFault::NoExit =>
                "timed out or failed while waiting for the elevated pairing broker ("@ + detail
                    + ")"@,
            ServeFault::ExitCode { code } =>
                "elevated pairing broker failed with exit code "@ + text::decimal(code as nat),
        }
    }

    /// The words in which the fault is reported, with those of the system where it gave some.
    pub fn message(&self, detail: &str) -> (r: String)
        ensures
            r@ == self.text(detail@),
    {
        match self {
            ServeFault::NoBroker => text::owned("failed to identify the elevated pairing broker"),
            ServeFault::Connection => text::cat(
                "protected pairing pipe connection failed: ",
                detail,
            ),
            ServeFault::ExitedEarly { code } => text::cat3(
                "the elevated pairing broker exited before requesting the authorization key (exit code ",
                text::decimal_text(*code as u64).as_str(),
                ")",
            ),
            ServeFault::Waiting => text::cat(
                "failed to wait for the elevated pairing broker: ",
                detail,
            ),
            ServeFault::TimedOut => text::owned(
                "timed out waiting for the elevated pairing broker",
            ),
            ServeFault::OtherClient => text::owned(
                "pairing pipe client is not the broker launched by this tray",
            ),
            ServeFault::NoExit => text::cat3(
                "timed out or failed while waiting for the elevated pairing broker (",
                detail,
                ")",
            ),
            ServeFault::ExitCode { code } => text::cat(
                "elevated pairing broker failed with exit code ",
                text::decimal_text(*code as u64).as_str(),
            ),
        }
    }
}

/// What to do next.
#[derive(Clone, Copy, PartialEq, Eq, Structural, Debug)]
pub enum ServeAction {
    Connect,
    LookAtBroker,
    /// Wait a little.
    Rest,
    IdentifyClient,
    ReadMessage,
    SendKey,
    /// Erase the key, and wait for the helper's end no longer than this, in milliseconds.
    EraseAndAwait { milliseconds: u64 },
    Finish,
    Fail(ServeFault),
    /// Fail with the error of the operation that failed.
    FailWithError,
}

/// The tray's side of a hand-over.
#[derive(Clone, Copy, PartialEq, Eq, Structural, Debug)]
pub struct ServeRun {
    /// The helper that this tray launched.
    pub broker: u32,
    pub deadline: u128,
    pub phase: ServePhase,
}

/// How long the helper is waited for, in milliseconds.
pub const BROKER_EXIT_MILLISECONDS: u64 = 1_320_000;

impl ServeRun {
    /// The event can come now.
    pub open spec fn awaits(self, event: ServeEvent) -> bool {
        match self.phase {
            ServePhase::Connecting => event is Connect,
            ServePhase::LookingAtBroker => event is Broker,
            ServePhase::Resting => event is Rested,
            ServePhase::IdentifyingClient => event is Client || event is Failed,
            ServePhase::ReadingMessage => event is Message || event is Failed,
            ServePhase::SendingKey => event is Sent || event is Failed,
            ServePhase::AwaitingExit => event is Broker,
            ServePhase::Finished => false,
        }
    }

    /// The run in another phase, with what to do there.
    pub open spec fn to(self, phase: ServePhase, action: ServeAction) -> (ServeRun, ServeAction) {
        (ServeRun { phase, ..self }, action)
    }

    /// The step that `event` leads to.
    pub open spec fn next(self, event: ServeEvent, now: u64) -> (ServeRun, ServeAction) {
        match event {
            ServeEvent::Connect(ConnectLook::Connected) => self.to(
                ServePhase::IdentifyingClient,
                ServeAction::IdentifyClient,
            ),
            ServeEvent::Connect(ConnectLook::Listening) => self.to(
                ServePhase::LookingAtBroker,
                ServeAction::LookAtBroker,
            ),
            ServeEvent::Connect(ConnectLook::Failed) => self.to(
                ServePhase::Finished,
                ServeAction::Fail(ServeFault::Connection),
            ),
            ServeEvent::Broker(look) => if self.phase == ServePhase::AwaitingExit {
                match look {
                    BrokerLook::Exited { code } => if code == 0 {
                        self.to(ServePhase::Finished, ServeAction::Finish)
                    } else {
                        self.to(
                            ServePhase::Finished,
                            ServeAction::Fail(ServeFault::ExitCode { code }),
                        )
                    },
                    _ => self.to(ServePhase::Finished, ServeAction::Fail(ServeFault::NoExit)),
                }
            } else {
                match look {
                    BrokerLook::Running => if now < self.deadline {
                        self.to(ServePhase::Resting, ServeAction::Rest)
                    } else {
                        self.to(ServePhase::Finished, ServeAction::Fail(ServeFault::TimedOut))
                    },
                    BrokerLook::Exited { code } => self.to(
                        ServePhase::Finished,
                        ServeAction::Fail(ServeFault::ExitedEarly { code }),
                    ),
                    BrokerLook::Failed => self.to(
                        ServePhase::Finished,
                        ServeAction::Fail(ServeFault::Waiting),
                    ),
                }
            },
            ServeEvent::Rested => self.to(ServePhase::Connecting, ServeAction::Connect),
            ServeEvent::Client { pid } => if pid == self.broker {
                self.to(ServePhase::ReadingMessage, ServeAction::ReadMessage)
            } else {
                self.to(ServePhase::Finished, ServeAction::Fail(ServeFault::OtherClient))
            },
            ServeEvent::Message => self.to(ServePhase::SendingKey, ServeAction::SendKey),
            ServeEvent::Sent => self.to(
                ServePhase::AwaitingExit,
                ServeAction::EraseAndAwait { milliseconds: BROKER_EXIT_MILLISECONDS },
            ),
            ServeEvent::Failed => self.to(ServePhase::Finished, ServeAction::FailWithError),
        }
    }

    /// Begin to wait for the helper, which is the process `broker`; zero stands for none.
    pub fn start(broker: u32, now: u64) -> (r: (ServeRun, ServeAction))
        ensures
            r.0.broker == broker,
            r.0.deadline == now + patience(),
            if broker == 0 {
                r.0.phase == ServePhase::Finished && r.1 == ServeAction::Fail(
                    ServeFault::NoBroker,
                )
            } else {
                r.0.phase == ServePhase::Connecting && r.1 == ServeAction::Connect
            },
    {
        let deadline: u128 = (now as u128) + ((PAIR_OPERATION_SECONDS * SECOND) as u128);
        if broker == 0 {
            return (
                ServeRun { broker, deadline, phase: ServePhase::Finished },
                ServeAction::Fail(ServeFault::NoBroker),
            );
        }
        (ServeRun { broker, deadline, phase: ServePhase::Connecting }, ServeAction::Connect)
    }

    fn enter(&mut self, phase: ServePhase, action: ServeAction) -> (r: ServeAction)
        ensures
            (*final(self), r) == old(self).to(phase, action),
    {
        self.phase = phase;
        action
    }

    /// Take the outcome of the operation under way and say what to do next.
    pub fn step(&mut self, event: ServeEvent, now: u64) -> (r: ServeAction)
        requires
            old(self).awaits(event),
        ensures
            (*final(self), r) == old(self).next(event, now),
    {
        match event {
            ServeEvent::Connect(ConnectLook::Connected) => self.enter(
                ServePhase::IdentifyingClient,
                ServeAction::IdentifyClient,
            ),
            ServeEvent::Connect(ConnectLook::Listening) => self.enter(
                ServePhase::LookingAtBroker,
                ServeAction::LookAtBroker,
            ),
            ServeEvent::Connect(ConnectLook::Failed) => self.enter(
                ServePhase::Finished,
                ServeAction::Fail(ServeFault::Connection),
            ),
            ServeEvent::Broker(look) => if self.phase == ServePhase::AwaitingExit {
                match look {
                    BrokerLook::Exited { code } => if code == 0 {
                        self.enter(ServePhase::Finished, ServeAction::Finish)
                    } else {
                        self.enter(
                            ServePhase::Finished,
                            ServeAction::Fail(ServeFault::ExitCode { code }),
                        )
                    },
                    _ => self.enter(ServePhase::Finished, ServeAction::Fail(ServeFault::NoExit)),
                }
            } else {
                match look {
                    BrokerLook::Running => if (now as u128) < self.deadline {
                        self.enter(ServePhase::Resting, ServeAction::Rest)
                    } else {
                        self.enter(ServePhase::Finished, ServeAction::Fail(ServeFault::TimedOut))
                    },
                    BrokerLook::Exited { code } => self.enter(
                        ServePhase::Finished,
                        ServeAction::Fail(ServeFault::ExitedEarly { code }),
                    ),
                    BrokerLook::Failed => self.enter(
                        ServePhase::Finished,
                        ServeAction::Fail(ServeFault::Waiting),
                    ),
                }
            },
            ServeEvent::Rested => self.enter(ServePhase::Connecting, ServeAction::Connect),
            ServeEvent::Client { pid } => if pid == self.broker {
                self.enter(ServePhase::ReadingMessage, ServeAction::ReadMessage)
            } else {
                self.enter(ServePhase::Finished, ServeAction::Fail(ServeFault::OtherClient))
            },
            ServeEvent::Message => self.enter(ServePhase::SendingKey, ServeAction::SendKey),
            ServeEvent::Sent => self.enter(
                ServePhase::AwaitingExit,
                ServeAction::EraseAndAwait { milliseconds: BROKER_EXIT_MILLISECONDS },
            ),
            ServeEvent::Failed => self.enter(ServePhase::Finished, ServeAction::FailWithError),
        }
    }
}

/// The key is sent only after a message for this pairing, and a message is read only from the
/// very process that this tray launched.
pub proof fn the_key_goes_to_the_launched_helper(run: ServeRun, event: ServeEvent, now: u64)
    requires
        run.awaits(event),
    ensures
        run.next(event, now).1 == ServeAction::SendKey ==> event == ServeEvent::Message,
        run.next(event, now).1 == ServeAction::ReadMessage ==> event == (ServeEvent::Client {
            pid: run.broker,
        }),
        run.next(event, now).0.broker == run.broker,
        BROKER_EXIT_MILLISECONDS == (PAIR_OPERATION_SECONDS + PAIR_BROKER_EXIT_GRACE_SECONDS)
            * 1000,
{
}

/// A helper that ends well before it asks for the key is known by its words as a pairing that the
/// user called off.
pub proof fn an_early_end_with_success_is_a_cancellation(detail: Seq<char>)
    ensures
        crate::tray::operation::called_off((ServeFault::ExitedEarly { code: 0 }).text(detail)),
{
    reveal_strlit(
        "the elevated pairing broker exited before requesting the authorization key (exit code ",
    );
    reveal_strlit("exited before requesting the authorization key (exit code 0)");
    reveal_strlit(")");
    let shown = (ServeFault::ExitedEarly { code: 0 }).text(detail);
    let sign = "exited before requesting the authorization key (exit code 0)"@;
    reveal_with_fuel(text::decimal, 2);
    assert(text::decimal(0) =~= seq!['0']);
    assert(shown.subrange(28, (28 + sign.len()) as int) =~= sign);
    assert(text::stands_at(shown, sign, 28));
}

// ---------------------------------------------------------------------------
// An operation of the page
// ---------------------------------------------------------------------------
/// What the page asks to pair with is good: with which server and under which name to pair, and
/// what is to be remembered if the pairing succeeds.
#[derive(Debug)]
pub struct AcceptedPairing {
    /// The origin of the server.
    pub server: String,
    pub name: Option<String>,
    pub preferences: TrayPreferences,
}

/// Why what the page asks to pair with is refused.
#[derive(Debug)]
pub enum PairRequestFault {
    Server(ServerFault),
    /// The name is none that a host may have; why.
    Name(String),
    /// The authorization key has not the form of one; why.
    Key(String),
}

impl PairRequestFault {
    /// The words in which the fault is reported.
    pub open spec fn text(self) -> Seq<char> {
        match self {
            PairRequestFault::Server(fault) => fault.text(),
            PairRequestFault::Name(why) => why@,
            PairRequestFault::Key(why) => why@,
        }
    }

    /// The words in which the fault is reported.
    pub fn message(&self) -> (r: String)
        ensures
            r@ == self.text(),
    {
        match self {
            PairRequestFault::Server(fault) => fault.message(),
            PairRequestFault::Name(why) => why.clone(),
            PairRequestFault::Key(why) => why.clone(),
        }
    }
}

/// Judge what the page asks to pair with, before any place is claimed: the server first, then
/// `name`, which is what came of the judgement of the name (none where it was left blank), then
/// `key`, which is what came of that of the authorization key. A success is remembered by the
/// very server and name that are paired with.
pub fn accept_pair_request(
    server: &str,
    name: Result<Option<String>, String>,
    key: Result<(), String>,
) -> (r: Result<AcceptedPairing, PairRequestFault>)
    ensures
        match (server_base(server@), name, key) {
            (Err(fault), _, _) => r == Err::<AcceptedPairing, PairRequestFault>(
                PairRequestFault::Server(fault),
            ),
            (Ok(_), Err(why), _) => r == Err::<AcceptedPairing, PairRequestFault>(
                PairRequestFault::Name(why),
            ),
            (Ok(_), Ok(_), Err(why)) => r == Err::<AcceptedPairing, PairRequestFault>(
                PairRequestFault::Key(why),
            ),
            (Ok(origin), Ok(name), Ok(())) => {
                &&& r matches Ok(accepted)
                &&& accepted.server@ == origin
                &&& accepted.name == name
                &&& accepted.preferences.server@ == origin
                &&& text::opt_view(accepted.preferences.name) == text::opt_view(name)
            },
        },
{
    let server = match validate_server_base(server) {
        Err(fault) => {
            return Err(PairRequestFault::Server(fault));
        },
        Ok(server) => server,
    };
    let name = match name {
        Err(why) => {
            return Err(PairRequestFault::Name(why));
        },
        Ok(name) => name,
    };
    if let Err(why) = key {
        return Err(PairRequestFault::Key(why));
    }
    let remembered = match &name {
        Some(name) => Some(name.clone()),
        None => None,
    };
    let preferences = TrayPreferences { server: server.clone(), name: remembered };
    Ok(AcceptedPairing { server, name, preferences })
}

/// What the page asks for.
#[derive(Clone, Copy, PartialEq, Eq, Structural, Debug)]
pub enum Work {
    Pair,
    Service(ServiceAction),
}

/// Which step of the operation is under way.
#[derive(Clone, Copy, PartialEq, Eq, Structural, Debug)]
pub enum WorkPhase {
    Claiming,
    /// Making the pipe over which the key is handed over.
    OpeningPipe,
    Launching,
    Remembering,
    Announcing,
    Working,
    Saving,
    /// Giving the place back, and whether the work succeeded.
    Releasing { worked: bool },
    /// Giving the place back after a step failed that the page is told of at once.
    GivingUp,
    Asking,
    Ending,
    Notifying,
    Finished,
}

/// What came of the step under way.
#[derive(Clone, Copy, PartialEq, Eq, Structural, Debug)]
pub enum WorkEvent {
    /// Whether the place was free.
    Claimed(bool),
    Done,
    Failed,
}

/// What to do next.
#[derive(Clone, Copy, PartialEq, Eq, Structural, Debug)]
pub enum WorkAction {
    Claim,
    OpenPipe,
    Launch,
    /// Remember the operation, which awaits the user's consent.
    Remember(OperationKind),
    /// Tell the page that the work has begun.
    Announce(OperationPhase),
    /// Hand over the key and wait for the helper.
    Serve,
    /// Wait for the helper that changes the service.
    AwaitHelper(ServiceAction),
    /// Keep what the pairing was made with.
    SavePreferences,
    Release,
    /// Ask for the state of the service.
    AskService,
    /// Tell the page that the operation has ended well.
    EndWell,
    /// Tell the page that it has failed, with the error of the work.
    EndBadly,
    /// Have the tray show the new state.
    Notify,
    Finish,
    /// Refuse: another operation is under way.
    Refuse,
    FailWithError,
}

/// An operation of the page.
#[derive(Clone, Copy, PartialEq, Eq, Structural, Debug)]
pub struct BrowserWork {
    pub work: Work,
    pub phase: WorkPhase,
    /// This operation holds the place of its kind.
    pub holds_slot: bool,
}

impl BrowserWork {
    /// The place is held while there is something to protect.
    pub open spec fn valid(self) -> bool {
        match self.phase {
            WorkPhase::Claiming
            | WorkPhase::Asking
            | WorkPhase::Ending
            | WorkPhase::Notifying
            | WorkPhase::Finished => !self.holds_slot,
            _ => self.holds_slot,
        }
    }

    /// The event can come now.
    pub open spec fn awaits(self, event: WorkEvent) -> bool {
        match self.phase {
            WorkPhase::Claiming => event is Claimed,
            WorkPhase::Announcing
            | WorkPhase::Remembering
            | WorkPhase::Releasing { .. }
            | WorkPhase::GivingUp
            | WorkPhase::Asking
            | WorkPhase::Ending
            | WorkPhase::Notifying => event is Done,
            WorkPhase::Finished => false,
            _ => event is Done || event is Failed,
        }
    }

    /// The operation in another phase, with what to do there.
    pub open spec fn to(self, phase: WorkPhase, action: WorkAction) -> (BrowserWork, WorkAction) {
        (BrowserWork { phase, ..self }, action)
    }

    /// The operation without its place, in another phase, with what to do there.
    pub open spec fn freed(self, phase: WorkPhase, action: WorkAction) -> (BrowserWork, WorkAction) {
        (BrowserWork { phase, holds_slot: false, ..self }, action)
    }

    /// The step that `event` leads to.
    pub open spec fn next(self, event: WorkEvent) -> (BrowserWork, WorkAction) {
        match self.phase {
            WorkPhase::Claiming => if event != WorkEvent::Claimed(true) {
                self.to(WorkPhase::Finished, WorkAction::Refuse)
            } else if self.work == Work::Pair {
                (
                    BrowserWork { phase: WorkPhase::OpeningPipe, holds_slot: true, ..self },
                    WorkAction::OpenPipe,
                )
            } else {
                (
                    BrowserWork { phase: WorkPhase::Launching, holds_slot: true, ..self },
                    WorkAction::Launch,
                )
            },
            WorkPhase::OpeningPipe => if event == WorkEvent::Failed {
                self.to(WorkPhase::GivingUp, WorkAction::Release)
            } else {
                self.to(WorkPhase::Launching, WorkAction::Launch)
            },
            WorkPhase::Launching => if event == WorkEvent::Failed {
                self.to(WorkPhase::GivingUp, WorkAction::Release)
            } else {
                self.to(
                    WorkPhase::Remembering,
                    WorkAction::Remember(
                        if self.work == Work::Pair {
                            OperationKind::Pair
                        } else {
                            OperationKind::Service
                        },
                    ),
                )
            },
            WorkPhase::Remembering => self.to(
                WorkPhase::Announcing,
                WorkAction::Announce(
                    if self.work == Work::Pair {
                        OperationPhase::Pairing
                    } else {
                        OperationPhase::ChangingService
                    },
                ),
            ),
            WorkPhase::Announcing => self.to(
                WorkPhase::Working,
                match self.work {
                    Work::Pair => WorkAction::Serve,
                    Work::Service(action) => WorkAction::AwaitHelper(action),
                },
            ),
            WorkPhase::Working => if event == WorkEvent::Failed {
                self.to(WorkPhase::Releasing { worked: false }, WorkAction::Release)
            } else if self.work == Work::Pair {
                self.to(WorkPhase::Saving, WorkAction::SavePreferences)
            } else {
                self.to(WorkPhase::Releasing { worked: true }, WorkAction::Release)
            },
            WorkPhase::Saving => self.to(
                WorkPhase::Releasing { worked: event != WorkEvent::Failed },
                WorkAction::Release,
            ),
            WorkPhase::Releasing { worked } => if !worked {
                self.freed(WorkPhase::Ending, WorkAction::EndBadly)
            } else if self.work == Work::Pair {
                self.freed(WorkPhase::Asking, WorkAction::AskService)
            } else {
                self.freed(WorkPhase::Ending, WorkAction::EndWell)
            },
            WorkPhase::GivingUp => self.freed(WorkPhase::Finished, WorkAction::FailWithError),
            WorkPhase::Asking => self.to(WorkPhase::Ending, WorkAction::EndWell),
            WorkPhase::Ending => self.to(WorkPhase::Notifying, WorkAction::Notify),
            WorkPhase::Notifying => self.to(WorkPhase::Finished, WorkAction::Finish),
            WorkPhase::Finished => self.to(WorkPhase::Finished, WorkAction::Finish),
        }
    }

    /// Begin an operation: its place is claimed first.
    pub fn start(work: Work) -> (r: (BrowserWork, WorkAction))
        ensures
            r == (
                BrowserWork { work, phase: WorkPhase::Claiming, holds_slot: false },
                WorkAction::Claim,
            ),
            r.0.valid(),
    {
        (
            BrowserWork { work, phase: WorkPhase::Claiming, holds_slot: false },
            WorkAction::Claim,
        )
    }

    fn enter(&mut self, phase: WorkPhase, action: WorkAction) -> (r: WorkAction)
        ensures
            (*final(self), r) == old(self).to(phase, action),
    {
        self.phase = phase;
        action
    }

    fn let_go(&mut self, phase: WorkPhase, action: WorkAction) -> (r: WorkAction)
        ensures
            (*final(self), r) == old(self).freed(phase, action),
    {
        self.phase = phase;
        self.holds_slot = false;
        action
    }

    fn is_pair(&self) -> (r: bool)
        ensures
            r == (self.work == Work::Pair),
    {
        match self.work {
            Work::Pair => true,
            Work::Service(_) => false,
        }
    }

    /// Take the outcome of the step under way and say what to do next.
    pub fn step(&mut self, event: WorkEvent) -> (r: WorkAction)
        requires
            old(self).valid(),
            old(self).awaits(event),
        ensures
            (*final(self), r) == old(self).next(event),
            final(self).valid(),
    {
        let pair = self.is_pair();
        match self.phase {
            WorkPhase::Claiming => {
                if event != WorkEvent::Claimed(true) {
                    return self.enter(WorkPhase::Finished, WorkAction::Refuse);
                }
                self.holds_slot = true;
                if pair {
                    self.enter(WorkPhase::OpeningPipe, WorkAction::OpenPipe)
                } else {
                    self.enter(WorkPhase::Launching, WorkAction::Launch)
                }
            },
            WorkPhase::OpeningPipe => if event == WorkEvent::Failed {
                self.enter(WorkPhase::GivingUp, WorkAction::Release)
            } else {
                self.enter(WorkPhase::Launching, WorkAction::Launch)
            },
            WorkPhase::Launching => if event == WorkEvent::Failed {
                self.enter(WorkPhase::GivingUp, WorkAction::Release)
            } else if pair {
                self.enter(WorkPhase::Remembering, WorkAction::Remember(OperationKind::Pair))
            } else {
                self.enter(WorkPhase::Remembering, WorkAction::Remember(OperationKind::Service))
            },
            WorkPhase::Remembering => if pair {
                self.enter(WorkPhase::Announcing, WorkAction::Announce(OperationPhase::Pairing))
            } else {
                self.enter(
                    WorkPhase::Announcing,
                    WorkAction::Announce(OperationPhase::ChangingService),
                )
            },
            WorkPhase::Announcing => match self.work {
                Work::Pair => self.enter(WorkPhase::Working, WorkAction::Serve),
                Work::Service(action) => self.enter(
                    WorkPhase::Working,
                    WorkAction::AwaitHelper(action),
                ),
            },
            WorkPhase::Working => if event == WorkEvent::Failed {
                self.enter(WorkPhase::Releasing { worked: false }, WorkAction::Release)
            } else if pair {
                self.enter(WorkPhase::Saving, WorkAction::SavePreferences)
            } else {
                self.enter(WorkPhase::Releasing { worked: true }, WorkAction::Release)
            },
            WorkPhase::Saving => {
                let worked = event != WorkEvent::Failed;
                self.enter(WorkPhase::Releasing { worked }, WorkAction::Release)
            },
            WorkPhase::Releasing { worked } => if !worked {
                self.let_go(WorkPhase::Ending, WorkAction::EndBadly)
            } else if pair {
                self.let_go(WorkPhase::Asking, WorkAction::AskService)
            } else {
                self.let_go(WorkPhase::Ending, WorkAction::EndWell)
            },
            WorkPhase::GivingUp => self.let_go(WorkPhase::Finished, WorkAction::FailWithError),
            WorkPhase::Asking => self.enter(WorkPhase::Ending, WorkAction::EndWell),
            WorkPhase::Ending => self.enter(WorkPhase::Notifying, WorkAction::Notify),
            WorkPhase::Notifying => self.enter(WorkPhase::Finished, WorkAction::Finish),
            WorkPhase::Finished => self.enter(WorkPhase::Finished, WorkAction::Finish),
        }
    }
}

/// The place is held from the claim to the end of the helper, whatever happens in between, and is
/// given back before anything is shown to the user.
pub proof fn the_slot_stays_taken_for_the_whole_work(work: BrowserWork, event: WorkEvent)
    requires
        work.valid(),
        work.awaits(event),
    ensures
        work.next(event).0.valid(),
        work.next(event).1 == WorkAction::Serve || work.next(event).1 is AwaitHelper || work.next(
            event,
        ).1 == WorkAction::SavePreferences ==> work.next(event).0.holds_slot,
        work.next(event).1 == WorkAction::EndWell || work.next(event).1 == WorkAction::EndBadly
            || work.next(event).1 == WorkAction::Refuse || work.next(event).1
            == WorkAction::FailWithError ==> !work.next(event).0.holds_slot,
        work.holds_slot && !work.next(event).0.holds_slot ==> work.phase is Releasing || work.phase
            == WorkPhase::GivingUp,
{
}

/// What a pairing was made with is kept only when it succeeded.
pub proof fn only_a_success_is_remembered(work: BrowserWork, event: WorkEvent)
    requires
        work.valid(),
        work.awaits(event),
        work.next(event).1 == WorkAction::SavePreferences,
    ensures
        work.work == Work::Pair,
        work.phase == WorkPhase::Working,
        event == WorkEvent::Done,
{
}

// ---------------------------------------------------------------------------
// The elevated helper
// ---------------------------------------------------------------------------
/// How the user answered the question whether to pair.
#[derive(Clone, Copy, PartialEq, Eq, Structural, Debug)]
pub enum Consent {
    Given,
    Refused,
    /// The question could not be shown.
    NotAsked(i32),
}

/// Which step of the helper is under way.
#[derive(Clone, Copy, PartialEq, Eq, Structural, Debug)]
pub enum HelperPhase {
    CheckingRights,
    Claiming,
    Validating,
    Asking,
    Settling,
    Pairing { was: ServiceState },
    Stopping,
    Starting,
    Finished,
}

/// What came of the step under way.
#[derive(Clone, Copy, PartialEq, Eq, Structural, Debug)]
pub enum HelperEvent {
    Done,
    Claimed(bool),
    Answered(Consent),
    Settled(ServiceState),
    Failed,
}

/// What to do next.
#[derive(Clone, Copy, PartialEq, Eq, Structural, Debug)]
pub enum HelperAction {
    CheckRights,
    /// Claim the machine for privileged operations.
    Claim,
    /// Check the server and the name.
    Validate,
    Ask,
    /// Wait until the service neither starts nor stops.
    Settle,
    Pair,
    StopService,
    StartService,
    Finish,
    /// Another privileged operation is under way.
    Busy,
    /// The question could not be shown.
    NoQuestion(i32),
    /// The service is in a state from which no pairing begins.
    Unsupported(ServiceState),
    /// The pairing failed; the service is as it was.
    NotPaired { was: ServiceState },
    FailWithError,
}

/// The helper.
#[derive(Clone, Copy, PartialEq, Eq, Structural, Debug)]
pub struct HelperRun {
    pub phase: HelperPhase,
}

impl HelperRun {
    /// The event can come now.
    pub open spec fn awaits(self, event: HelperEvent) -> bool {
        match self.phase {
            HelperPhase::Claiming => event is Claimed || event is Failed,
            HelperPhase::Asking => event is Answered,
            HelperPhase::Settling => event is Settled || event is Failed,
            HelperPhase::Finished => false,
            _ => event is Done || event is Failed,
        }
    }

    /// The helper in a phase, with what to do there.
    pub open spec fn to(phase: HelperPhase, action: HelperAction) -> (HelperRun, HelperAction) {
        (HelperRun { phase }, action)
    }

    /// The step that `event` leads to.
    pub open spec fn next(self, event: HelperEvent) -> (HelperRun, HelperAction) {
        match event {
            HelperEvent::Failed => match self.phase {
                HelperPhase::Pairing { was } => HelperRun::to(
                    HelperPhase::Finished,
                    HelperAction::NotPaired { was },
                ),
                _ => HelperRun::to(HelperPhase::Finished, HelperAction::FailWithError),
            },
            HelperEvent::Claimed(free) => if free {
                HelperRun::to(HelperPhase::Validating, HelperAction::Validate)
            } else {
                HelperRun::to(HelperPhase::Finished, HelperAction::Busy)
            },
            HelperEvent::Answered(Consent::Given) => HelperRun::to(
                HelperPhase::Settling,
                HelperAction::Settle,
            ),
            HelperEvent::Answered(Consent::Refused) => HelperRun::to(
                HelperPhase::Finished,
                HelperAction::Finish,
            ),
            HelperEvent::Answered(Consent::NotAsked(result)) => HelperRun::to(
                HelperPhase::Finished,
                HelperAction::NoQuestion(result),
            ),
            HelperEvent::Settled(state) => if state == ServiceState::Running || state
                == ServiceState::Stopped {
                HelperRun::to(HelperPhase::Pairing { was: state }, HelperAction::Pair)
            } else {
                HelperRun::to(HelperPhase::Finished, HelperAction::Unsupported(state))
            },
            HelperEvent::Done => match self.phase {
                HelperPhase::CheckingRights => HelperRun::to(
                    HelperPhase::Claiming,
                    HelperAction::Claim,
                ),
                HelperPhase::Validating => HelperRun::to(HelperPhase::Asking, HelperAction::Ask),
                HelperPhase::Pairing { was } => if was == ServiceState::Running {
                    HelperRun::to(HelperPhase::Stopping, HelperAction::StopService)
                } else {
                    HelperRun::to(HelperPhase::Finished, HelperAction::Finish)
                },
                HelperPhase::Stopping => HelperRun::to(
                    HelperPhase::Starting,
                    HelperAction::StartService,
                ),
                _ => HelperRun::to(HelperPhase::Finished, HelperAction::Finish),
            },
        }
    }

    /// Begin: the helper's rights are checked first.
    pub fn start() -> (r: (HelperRun, HelperAction))
        ensures
            r == HelperRun::to(HelperPhase::CheckingRights, HelperAction::CheckRights),
    {
        (HelperRun { phase: HelperPhase::CheckingRights }, HelperAction::CheckRights)
    }

    fn enter(&mut self, phase: HelperPhase, action: HelperAction) -> (r: HelperAction)
        ensures
            (*final(self), r) == HelperRun::to(phase, action),
    {
        self.phase = phase;
        action
    }

    /// Take the outcome of the step under way and say what to do next.
    pub fn step(&mut self, event: HelperEvent) -> (r: HelperAction)
        requires
            old(self).awaits(event),
        ensures
            (*final(self), r) == old(self).next(event),
    {
        match event {
            HelperEvent::Failed => match self.phase {
                HelperPhase::Pairing { was } => self.enter(
                    HelperPhase::Finished,
                    HelperAction::NotPaired { was },
                ),
                _ => self.enter(HelperPhase::Finished, HelperAction::FailWithError),
            },
            HelperEvent::Claimed(free) => if free {
                self.enter(HelperPhase::Validating, HelperAction::Validate)
            } else {
                self.enter(HelperPhase::Finished, HelperAction::Busy)
            },
            HelperEvent::Answered(Consent::Given) => self.enter(
                HelperPhase::Settling,
                HelperAction::Settle,
            ),
            HelperEvent::Answered(Consent::Refused) => self.enter(
                HelperPhase::Finished,
                HelperAction::Finish,
            ),
            HelperEvent::Answered(Consent::NotAsked(result)) => self.enter(
                HelperPhase::Finished,
                HelperAction::NoQuestion(result),
            ),
            HelperEvent::Settled(state) => if state == ServiceState::Running || state
                == ServiceState::Stopped {
                self.enter(HelperPhase::Pairing { was: state }, HelperAction::Pair)
            } else {
                self.enter(HelperPhase::Finished, HelperAction::Unsupported(state))
            },
            HelperEvent::Done => match self.phase {
                HelperPhase::CheckingRights => self.enter(
                    HelperPhase::Claiming,
                    HelperAction::Claim,
                ),
                HelperPhase::Validating => self.enter(HelperPhase::Asking, HelperAction::Ask),
                HelperPhase::Pairing { was } => if was == ServiceState::Running {
                    self.enter(HelperPhase::Stopping, HelperAction::StopService)
                } else {
                    self.enter(HelperPhase::Finished, HelperAction::Finish)
                },
                HelperPhase::Stopping => self.enter(
                    HelperPhase::Starting,
                    HelperAction::StartService,
                ),
                _ => self.enter(HelperPhase::Finished, HelperAction::Finish),
            },
        }
    }
}

/// Nothing is paired without the user's consent, and the service is stopped only where it ran and
/// the pairing succeeded.
pub proof fn the_user_decides_and_the_service_is_spared(run: HelperRun, event: HelperEvent)
    requires
        run.awaits(event),
    ensures
        run.next(event).1 == HelperAction::Settle ==> event == HelperEvent::Answered(
            Consent::Given,
        ),
        run.next(event).1 == HelperAction::Pair ==> run.phase == HelperPhase::Settling,
        run.next(event).1 == HelperAction::StopService ==> run.phase == (HelperPhase::Pairing {
            was: ServiceState::Running,
        }) && event == HelperEvent::Done,
{
}

/// The question whether to pair with a server.
pub fn confirmation_text(origin: &str, name: Option<&str>) -> (r: String)
    ensures
        r@ == "即将把此 Windows 设备配对到：\n\n"@ + origin@ + "\n\n"@ + (match name {
            Some(name) => "设备名称："@ + name@,
            None => "设备名称：使用本机名称"@,
        })
            + "\n\n重新配对成功会替换当前设备绑定。只有确认该地址属于你的 UnionC 服务器时才继续。"@,
{
    let named = match name {
        Some(name) => text::cat("设备名称：", name),
        None => text::owned("设备名称：使用本机名称"),
    };
    text::cat5(
        "即将把此 Windows 设备配对到：\n\n",
        origin,
        "\n\n",
        named.as_str(),
        "\n\n重新配对成功会替换当前设备绑定。只有确认该地址属于你的 UnionC 服务器时才继续。",
    )
}

/// What goes before the error of a pairing that failed.
pub fn not_paired_text(was: ServiceState) -> (r: String)
    ensures
        r@ == "配对未完成；Agent 服务保持操作前的状态（"@ + was.labelled() + "）"@,
{
    text::cat3("配对未完成；Agent 服务保持操作前的状态（", was.label(), "）")
}

/// The hand-over: once the launched helper is at the pipe its message is read, the key is sent and
/// erased, and the end of the helper is waited for twenty-two minutes; it is done exactly where the
/// helper ends with success. While nobody is there the helper is looked at and the pipe tried again,
/// until it has ended or its time has run out.
pub proof fn how_the_key_is_handed_over(run: ServeRun, pid: u32, look: BrokerLook, now: u64)
    ensures
        ({
            let (connected, identify) = run.next(ServeEvent::Connect(ConnectLook::Connected), now);
            let (client, read) = run.next(ServeEvent::Client { pid }, now);
            let (message, send) = run.next(ServeEvent::Message, now);
            let (sent, erase) = run.next(ServeEvent::Sent, now);
            let (waited, end) = sent.next(ServeEvent::Broker(look), now);
            let (alone, peek) = run.next(ServeEvent::Connect(ConnectLook::Listening), now);
            let (peeked, early) = alone.next(ServeEvent::Broker(look), now);
            &&& identify == ServeAction::IdentifyClient && connected.phase is IdentifyingClient
            &&& pid == run.broker ==> read == ServeAction::ReadMessage && client.phase
                is ReadingMessage
            &&& pid != run.broker ==> read == ServeAction::Fail(ServeFault::OtherClient)
            &&& send == ServeAction::SendKey && message.phase is SendingKey
            &&& erase == (ServeAction::EraseAndAwait { milliseconds: 1_320_000 }) && sent.phase
                is AwaitingExit
            &&& end == match look {
                BrokerLook::Exited { code: 0 } => ServeAction::Finish,
                BrokerLook::Exited { code } => ServeAction::Fail(ServeFault::ExitCode { code }),
                _ => ServeAction::Fail(ServeFault::NoExit),
            }
            &&& waited.phase is Finished
            &&& peek == ServeAction::LookAtBroker && alone.phase is LookingAtBroker
            &&& early == match look {
                BrokerLook::Exited { code } => ServeAction::Fail(ServeFault::ExitedEarly { code }),
                BrokerLook::Failed => ServeAction::Fail(ServeFault::Waiting),
                BrokerLook::Running => if now < run.deadline {
                    ServeAction::Rest
                } else {
                    ServeAction::Fail(ServeFault::TimedOut)
                },
            }
            &&& run.next(ServeEvent::Rested, now).1 == ServeAction::Connect
            &&& run.next(ServeEvent::Rested, now).0.phase is Connecting
            &&& run.next(ServeEvent::Connect(ConnectLook::Failed), now).1 == ServeAction::Fail(
                ServeFault::Connection,
            )
            &&& run.next(ServeEvent::Failed, now).1 == ServeAction::FailWithError
            &&& early is Rest <==> peeked.phase is Resting
            &&& early is Fail ==> peeked.phase is Finished
            &&& peeked.deadline == run.deadline
        }),
{
}

/// The work goes through those actions of the course, from the `i`th on, that are called for, and
/// through no others; every step succeeds.
pub open spec fn works_through(
    work: BrowserWork,
    course: Seq<(bool, WorkAction)>,
    i: int,
) -> bool
    decreases course.len() - i,
{
    if i < 0 || i >= course.len() {
        work.phase is Finished
    } else if !course[i].0 {
        works_through(work, course, i + 1)
    } else {
        let event = if work.phase == WorkPhase::Claiming {
            WorkEvent::Claimed(true)
        } else {
            WorkEvent::Done
        };
        let (after, action) = work.next(event);
        &&& work.awaits(event)
        &&& action == course[i].1
        &&& works_through(after, course, i + 1)
    }
}

/// The course of what the page asks for: its place is taken, a pairing opens its pipe, the helper is
/// launched, the operation is remembered and announced, and the work is done; a pairing that
/// succeeded is kept. The place is given back, the page is told, and the tray shows the new state.
pub proof fn the_course_of_the_work(work: Work)
    ensures
        ({
            let pair = work == Work::Pair;
            works_through(
                BrowserWork { work, phase: WorkPhase::Claiming, holds_slot: false },
                seq![
                    (pair, WorkAction::OpenPipe),
                    (true, WorkAction::Launch),
                    (pair, WorkAction::Remember(OperationKind::Pair)),
                    (!pair, WorkAction::Remember(OperationKind::Service)),
                    (pair, WorkAction::Announce(OperationPhase::Pairing)),
                    (!pair, WorkAction::Announce(OperationPhase::ChangingService)),
                    (pair, WorkAction::Serve),
                    (!pair, WorkAction::AwaitHelper(work->Service_0)),
                    (pair, WorkAction::SavePreferences),
                    (true, WorkAction::Release),
                    (pair, WorkAction::AskService),
                    (true, WorkAction::EndWell),
                    (true, WorkAction::Notify),
                    (true, WorkAction::Finish),
                ],
                0,
            )
        }),
{
    reveal_with_fuel(works_through, 15);
}

/// What cannot be claimed is refused. A step that fails before the page was answered gives the place
/// back and tells so at once; one that fails later gives it back and ends the operation badly.
pub proof fn what_failed_work_leads_to(work: BrowserWork)
    requires
        work.awaits(WorkEvent::Failed) || work.phase == WorkPhase::Claiming,
    ensures
        ({
            let (after, action) = work.next(WorkEvent::Failed);
            let (freed, told) = after.next(WorkEvent::Done);
            &&& work.phase == WorkPhase::Claiming ==> work.next(WorkEvent::Claimed(false)).1
                == WorkAction::Refuse && work.next(WorkEvent::Claimed(false)).0.phase is Finished
            &&& work.phase == WorkPhase::OpeningPipe || work.phase == WorkPhase::Launching
                ==> action == WorkAction::Release && told == WorkAction::FailWithError
                && freed.phase is Finished && !freed.holds_slot
            &&& work.phase == WorkPhase::Working || work.phase == WorkPhase::Saving ==> action
                == WorkAction::Release && told == WorkAction::EndBadly && !freed.holds_slot
                && freed.next(WorkEvent::Done).1 == WorkAction::Notify && freed.next(
                WorkEvent::Done,
            ).0.next(WorkEvent::Done).1 == WorkAction::Finish
        }),
{
}

/// The helper: it wants its rights, the machine to itself, a server and a name that are good, and
/// the user's consent; the service must have settled before it pairs, and one that ran is stopped
/// and started again behind a pairing that succeeded.
pub proof fn how_the_helper_pairs(run: HelperRun, state: ServiceState, result: i32)
    ensures
        run.phase == HelperPhase::CheckingRights ==> run.next(HelperEvent::Done) == (
            HelperRun { phase: HelperPhase::Claiming },
            HelperAction::Claim,
        ),
        run.next(HelperEvent::Claimed(true)) == (
            HelperRun { phase: HelperPhase::Validating },
            HelperAction::Validate,
        ),
        run.next(HelperEvent::Claimed(false)).1 == HelperAction::Busy,
        run.phase == HelperPhase::Validating ==> run.next(HelperEvent::Done) == (
            HelperRun { phase: HelperPhase::Asking },
            HelperAction::Ask,
        ),
        run.next(HelperEvent::Answered(Consent::Given)) == (
            HelperRun { phase: HelperPhase::Settling },
            HelperAction::Settle,
        ),
        run.next(HelperEvent::Answered(Consent::Refused)).1 == HelperAction::Finish,
        run.next(HelperEvent::Answered(Consent::NotAsked(result))).1 == HelperAction::NoQuestion(
            result,
        ),
        state == ServiceState::Running || state == ServiceState::Stopped ==> run.next(
            HelperEvent::Settled(state),
        ) == (HelperRun { phase: HelperPhase::Pairing { was: state } }, HelperAction::Pair),
        state != ServiceState::Running && state != ServiceState::Stopped ==> run.next(
            HelperEvent::Settled(state),
        ).1 == HelperAction::Unsupported(state),
        run.phase == (HelperPhase::Pairing { was: ServiceState::Running }) ==> {
            let (stopping, stop) = run.next(HelperEvent::Done);
            let (starting, start) = stopping.next(HelperEvent::Done);
            &&& stop == HelperAction::StopService
            &&& start == HelperAction::StartService
            &&& starting.next(HelperEvent::Done).1 == HelperAction::Finish
        },
        run.phase == (HelperPhase::Pairing { was: ServiceState::Stopped }) ==> run.next(
            HelperEvent::Done,
        ).1 == HelperAction::Finish,
        run.phase matches HelperPhase::Pairing { was } ==> run.next(HelperEvent::Failed).1 == (
        HelperAction::NotPaired { was }),
        !(run.phase is Pairing) ==> run.next(HelperEvent::Failed).1 == HelperAction::FailWithError,
        run.next(HelperEvent::Failed).0.phase == HelperPhase::Finished,
{
}

/// A request to pair is taken where its server is a root origin, its name is one a host may have
/// and its key has the form of one; it is then taken for the origin, and that is remembered.
pub proof fn which_pair_requests_are_taken(
    server: &str,
    name: Result<Option<String>, String>,
    key: Result<(), String>,
    r: Result<AcceptedPairing, PairRequestFault>,
)
    requires
        call_ensures(accept_pair_request, (server, name, key), r),
    ensures
        r is Ok <==> server_base(server@) is Ok && name is Ok && key is Ok,
        (r matches Err(PairRequestFault::Server(_))) <==> server_base(server@) is Err,
        (r matches Err(PairRequestFault::Name(_))) <==> server_base(server@) is Ok && name is Err,
        (r matches Err(PairRequestFault::Key(_))) <==> server_base(server@) is Ok && name is Ok
            && key is Err,
        r matches Ok(accepted) ==> {
            &&& Ok::<Option<String>, String>(accepted.name) == name
            &&& accepted.preferences.server@ == accepted.server@
            &&& Ok::<Seq<char>, crate::endpoint::ServerFault>(accepted.server@) == server_base(
                server@,
            )
            &&& text::opt_view(accepted.preferences.name) == text::opt_view(accepted.name)
        },
{
}

} // verus!
