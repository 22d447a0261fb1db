//! The operations that the control page starts, and what it is told of them.

use crate::arguments::{is_secret, secret};
use crate::text;
use crate::tray::service::ServiceAction;
use crate::tray::session::same_secret;
use vstd::prelude::*;

verus! {

/// What an operation does.
#[derive(Clone, Copy, PartialEq, Eq, Structural, Debug)]
pub enum OperationKind {
    Pair,
    Service,
}

impl OperationKind {
    /// The name under which the page knows the kind.
    pub open spec fn named(self) -> Seq<char> {
        match self {
            OperationKind::Pair => "pair"@,
            OperationKind::Service => "service"@,
        }
    }

    /// The name under which the page knows the kind.
    pub fn name(&self) -> (r: &'static str)
        ensures
            r@ == self.named(),
    {
        match self {
            OperationKind::Pair => "pair",
            OperationKind::Service => "service",
        }
    }
}

/// How far an operation has come.
#[derive(Clone, Copy, PartialEq, Eq, Structural, Debug)]
pub enum OperationPhase {
    AwaitingUac,
    Pairing,
    ChangingService,
    Completed,
    Cancelled,
    Failed,
}

impl OperationPhase {
    /// The name under which the page knows the phase.
    pub open spec fn named(self) -> Seq<char> {
        match self {
            OperationPhase::AwaitingUac => "awaiting_uac"@,
            OperationPhase::Pairing => "pairing"@,
            OperationPhase::ChangingService => "changing_service"@,
            OperationPhase::Completed => "completed"@,
            OperationPhase::Cancelled => "cancelled"@,
            OperationPhase::Failed => "failed"@,
        }
    }

    /// The name under which the page knows the phase.
    pub fn name(&self) -> (r: &'static str)
        ensures
            r@ == self.named(),
    {
        match self {
            OperationPhase::AwaitingUac => "awaiting_uac",
            OperationPhase::Pairing => "pairing",
            OperationPhase::ChangingService => "changing_service",
            OperationPhase::Completed => "completed",
            OperationPhase::Cancelled => "cancelled",
            OperationPhase::Failed => "failed",
        }
    }
}

/// An operation as the page sees it.
#[derive(Debug)]
pub struct BrowserOperation {
    pub id: String,
    pub kind: OperationKind,
    pub phase: OperationPhase,
    pub message: String,
    /// Whether it has ended.
    pub terminal: bool,
    /// Whether it ended well, once it has ended.
    pub success: Option<bool>,
}

/// How many operations are remembered.
pub const MAX_OPERATIONS: usize = 32;

/// Which operation makes room for a new one: the first that has ended, or else the first.
pub open spec fn makes_room(operations: Seq<BrowserOperation>, at: int) -> bool {
    if exists|i: int| 0 <= i < operations.len() && (#[trigger] operations[i]).terminal {
        &&& 0 <= at < operations.len()
        &&& operations[at].terminal
        &&& forall|i: int| 0 <= i < at ==> !(#[trigger] operations[i]).terminal
    } else {
        at == 0
    }
}

/// Some operation has this identifier.
pub open spec fn has_id(operations: Seq<BrowserOperation>, id: Seq<char>) -> bool {
    exists|i: int| 0 <= i < operations.len() && (#[trigger] operations[i]).id@ == id
}

/// The first operation with this identifier.
pub open spec fn first_with_id(operations: Seq<BrowserOperation>, id: Seq<char>, at: int) -> bool {
    &&& 0 <= at < operations.len()
    &&& operations[at].id@ == id
    &&& forall|i: int| 0 <= i < at ==> (#[trigger] operations[i]).id@ != id
}

/// Remember a new operation. Where as many are remembered as may be, one of them is forgotten:
/// the first that has ended, or else the oldest.
pub fn create_operation(
    operations: &mut Vec<BrowserOperation>,
    id: String,
    kind: OperationKind,
    phase: OperationPhase,
    message: String,
)
    ensures
        final(operations)@.len() >= 1,
        final(operations)@.last() == (BrowserOperation {
            id,
            kind,
            phase,
            message,
            terminal: false,
            success: None,
        }),
        old(operations)@.len() < MAX_OPERATIONS ==> final(operations)@.drop_last()
            == old(operations)@,
        old(operations)@.len() >= MAX_OPERATIONS ==> exists|at: int| #[trigger]
            makes_room(old(operations)@, at) && final(operations)@.drop_last()
                == old(operations)@.remove(at),
{
    let ghost before = operations@;
    if operations.len() >= MAX_OPERATIONS {
        let mut at: usize = 0;
        while at < operations.len() && !operations[at].terminal
            invariant
                at <= operations@.len(),
                operations@ == before,
                forall|i: int| 0 <= i < at ==> !(#[trigger] before[i]).terminal,
            decreases operations@.len() - at,
        {
            at += 1;
        }
        if at == operations.len() {
            at = 0;
        }
        assert(makes_room(before, at as int));
        let _ = operations.remove(at);
    }
    let ghost kept = operations@;
    operations.push(
        BrowserOperation { id, kind, phase, message, terminal: false, success: None },
    );
    assert(operations@.drop_last() == kept);
}

/// `after` is `before` with the news of this operation.
pub open spec fn updated(
    before: Seq<BrowserOperation>,
    id: Seq<char>,
    phase: OperationPhase,
    message: String,
    outcome: Option<bool>,
    after: Seq<BrowserOperation>,
) -> bool {
    if has_id(before, id) {
        exists|at: int| #[trigger]
            first_with_id(before, id, at) && after == before.update(
                at,
                BrowserOperation {
                    phase,
                    message,
                    terminal: outcome is Some,
                    success: outcome,
                    ..before[at]
                },
            )
    } else {
        after == before
    }
}

fn find_id(operations: &Vec<BrowserOperation>, id: &str) -> (r: Option<usize>)
    ensures
        match r {
            Some(at) => first_with_id(operations@, id@, at as int),
            None => !has_id(operations@, id@),
        },
{
    let mut i: usize = 0;
    while i < operations.len()
        invariant
            i <= operations@.len(),
            forall|j: int| 0 <= j < i ==> (#[trigger] operations@[j]).id@ != id@,
        decreases operations@.len() - i,
    {
        if same_secret(operations[i].id.as_str(), id) {
            return Some(i);
        }
        i += 1;
    }
    None
}

/// Note the news of an operation; an outcome ends it. One that was forgotten stays so.
pub fn update_operation(
    operations: &mut Vec<BrowserOperation>,
    id: &str,
    phase: OperationPhase,
    message: String,
    outcome: Option<bool>,
)
    ensures
        updated(old(operations)@, id@, phase, message, outcome, final(operations)@),
{
    match find_id(operations, id) {
        None => {},
        Some(at) => {
            let ghost before = operations@;
            let old_entry = operations.remove(at);
            let new_entry = BrowserOperation {
                id: old_entry.id,
                kind: old_entry.kind,
                phase,
                message,
                terminal: outcome.is_some(),
                success: outcome,
            };
            operations.insert(at, new_entry);
            assert(operations@ == before.update(at as int, new_entry));
            assert(first_with_id(before, id@, at as int));
            assert(has_id(before, id@)) by {
                assert(before[at as int].id@ == id@);
            }
        },
    }
}

/// Why there is nothing to tell of an operation.
#[derive(Clone, Copy, PartialEq, Eq, Structural, Debug)]
pub enum OperationFault {
    InvalidId,
    NotFound,
}

impl OperationFault {
    /// The words in which the fault is reported.
    pub open spec fn text(self) -> Seq<char> {
        match self {
            OperationFault::InvalidId => "operation id is invalid"@,
            OperationFault::NotFound => "operation was not found or has expired"@,
        }
    }

    /// The words in which the fault is reported.
    pub fn message(&self) -> (r: String)
        ensures
            r@ == self.text(),
    {
        match self {
            OperationFault::InvalidId => text::owned("operation id is invalid"),
            OperationFault::NotFound => text::owned("operation was not found or has expired"),
        }
    }
}

/// The place of the operation that the page asks for.
pub fn find_operation(operations: &Vec<BrowserOperation>, id: &str) -> (r: Result<
    usize,
    OperationFault,
>)
    ensures
        if !is_secret(id@) {
            r == Err::<usize, OperationFault>(OperationFault::InvalidId)
        } else {
            match r {
                Ok(at) => first_with_id(operations@, id@, at as int),
                Err(fault) => fault == OperationFault::NotFound && !has_id(operations@, id@),
            }
        },
{
    if !secret(&text::to_chars(id)) {
        return Err(OperationFault::InvalidId);
    }
    match find_id(operations, id) {
        Some(at) => Ok(at),
        None => Err(OperationFault::NotFound),
    }
}

/// The tray never remembers more operations than it may.
pub proof fn operations_stay_bounded(before: Seq<BrowserOperation>, after: Seq<BrowserOperation>)
    requires
        before.len() <= MAX_OPERATIONS,
        after.len() >= 1,
        before.len() < MAX_OPERATIONS ==> after.drop_last() == before,
        before.len() >= MAX_OPERATIONS ==> exists|at: int| #[trigger]
            makes_room(before, at) && after.drop_last() == before.remove(at),
    ensures
        after.len() <= MAX_OPERATIONS,
{
    if before.len() >= MAX_OPERATIONS {
        let at = choose|at: int| #[trigger]
            makes_room(before, at) && after.drop_last() == before.remove(at);
        assert(0 <= at < before.len());
        assert(before.remove(at).len() == before.len() - 1);
    }
    assert(after.len() == after.drop_last().len() + 1);
}

/// An operation under way is forgotten only where none has ended.
pub proof fn an_ended_operation_goes_first(before: Seq<BrowserOperation>, at: int)
    requires
        makes_room(before, at),
        exists|i: int| 0 <= i < before.len() && (#[trigger] before[i]).terminal,
    ensures
        before[at].terminal,
{
}

// ---------------------------------------------------------------------------
// One at a time
// ---------------------------------------------------------------------------
/// A place that one operation at a time may take.
#[derive(Clone, Copy, PartialEq, Eq, Structural, Debug)]
pub struct Slot {
    pub taken: bool,
}

impl Slot {
    /// Take the place, if it is free.
    pub fn claim(&mut self) -> (r: bool)
        ensures
            r == !old(self).taken,
            final(self).taken,
    {
        if self.taken {
            false
        } else {
            self.taken = true;
            true
        }
    }

    /// Give the place back.
    pub fn release(&mut self)
        ensures
            !final(self).taken,
    {
        self.taken = false;
    }
}

/// What the user is told where a pairing is under way.
pub fn pairing_busy() -> (r: &'static str)
    ensures
        r@ == "配对操作正在进行中，请等待其完成后再试"@,
{
    "配对操作正在进行中，请等待其完成后再试"
}

/// What the user is told where a service operation is under way.
pub fn service_busy() -> (r: &'static str)
    ensures
        r@ == "服务操作正在进行中，请等待其完成后再试"@,
{
    "服务操作正在进行中，请等待其完成后再试"
}

/// The news with which an operation ends, and whether the user is also shown an error.
#[derive(Debug)]
pub struct OperationEnd {
    pub phase: OperationPhase,
    pub message: String,
    pub success: bool,
    pub show_error: bool,
}

/// The words by which a pairing that the user called off is known.
pub open spec fn called_off(rendered: Seq<char>) -> bool {
    text::holds(
        rendered,
        "exited before requesting the authorization key (exit code 0)"@,
    )
}

/// How a pairing ends. On success `Ok` carries the service's label; on failure `Err` carries the
/// error with its causes and without.
pub fn pairing_end(outcome: &Result<String, (String, String)>) -> (r: OperationEnd)
    ensures
        match *outcome {
            Ok(service) => r.phase == OperationPhase::Completed && r.success && !r.show_error
                && r.message@ == "配对成功；当前 Agent 服务状态："@ + service@,
            Err((rendered, error)) => if called_off(rendered@) {
                r.phase == OperationPhase::Cancelled && !r.success && !r.show_error && r.message@
                    == "配对已由用户取消"@
            } else {
                r.phase == OperationPhase::Failed && !r.success && r.show_error && r.message@
                    == "配对失败："@ + error@
            },
        },
{
    match outcome {
        Ok(service) => OperationEnd {
            phase: OperationPhase::Completed,
            message: text::cat("配对成功；当前 Agent 服务状态：", service.as_str()),
            success: true,
            show_error: false,
        },
        Err((rendered, error)) => if text::contains(
            rendered.as_str(),
            "exited before requesting the authorization key (exit code 0)",
        ) {
            OperationEnd {
                phase: OperationPhase::Cancelled,
                message: text::owned("配对已由用户取消"),
                success: false,
                show_error: false,
            }
        } else {
            OperationEnd {
                phase: OperationPhase::Failed,
                message: text::cat("配对失败：", error.as_str()),
                success: false,
                show_error: true,
            }
        },
    }
}

/// How a change of the service ends.
pub fn service_end(action: ServiceAction, outcome: &Result<(), String>) -> (r: OperationEnd)
    ensures
        !r.show_error,
        match *outcome {
            Ok(_) => r.phase == OperationPhase::Completed && r.success && r.message@
                == match action {
                ServiceAction::Start => "Agent 服务已启动"@,
                ServiceAction::Stop => "Agent 服务已停止；下次开机仍会自动启动"@,
            },
            Err(error) => r.phase == OperationPhase::Failed && !r.success && r.message@
                == "服务操作失败："@ + error@,
        },
{
    match outcome {
        Ok(_) => OperationEnd {
            phase: OperationPhase::Completed,
            message: text::owned(action.done()),
            success: true,
            show_error: false,
        },
        Err(error) => OperationEnd {
            phase: OperationPhase::Failed,
            message: text::cat("服务操作失败：", error.as_str()),
            success: false,
            show_error: false,
        },
    }
}

/// An update changes the first operation of its id, and that alone: its phase and words are the new
/// ones, it has ended exactly where an outcome is given, and it keeps its id and its kind. Where no
/// operation has the id nothing changes.
pub proof fn what_an_update_changes(
    before: Seq<BrowserOperation>,
    id: Seq<char>,
    phase: OperationPhase,
    message: String,
    outcome: Option<bool>,
    after: Seq<BrowserOperation>,
    at: int,
)
    requires
        updated(before, id, phase, message, outcome, after),
        0 <= at < before.len(),
    ensures
        after.len() == before.len(),
        first_with_id(before, id, at) ==> {
            &&& after[at].phase == phase
            &&& after[at].message == message
            &&& after[at].success == outcome
            &&& after[at].terminal <==> outcome is Some
            &&& after[at].id == before[at].id
            &&& after[at].kind == before[at].kind
        },
        !first_with_id(before, id, at) ==> after[at] == before[at],
{
    if has_id(before, id) {
        let k = choose|k: int| #[trigger]
            first_with_id(before, id, k) && after == before.update(
                k,
                BrowserOperation {
                    phase,
                    message,
                    terminal: outcome is Some,
                    success: outcome,
                    ..before[k]
                },
            );
        if first_with_id(before, id, at) && k != at {
            if k < at {
                assert(before[k].id@ == id);
            } else {
                assert(before[at].id@ == id);
            }
        }
    } else {
        assert(!first_with_id(before, id, at)) by {
            if first_with_id(before, id, at) {
                assert(before[at].id@ == id);
            }
        }
    }
}

/// Room is made by the oldest operation that has ended, and by the oldest of all where none has.
pub proof fn which_operation_makes_room(operations: Seq<BrowserOperation>, at: int, other: int)
    requires
        makes_room(operations, at),
        0 <= other < operations.len(),
        operations[other].terminal,
    ensures
        operations[at].terminal,
        at <= other,
{
}

/// A new operation is the newest, runs, and displaces none where there is room; where there is
/// none, exactly one makes room for it.
pub proof fn a_new_operation_runs()
    ensures
        forall|
            operations: &mut Vec<BrowserOperation>,
            id: String,
            kind: OperationKind,
            phase: OperationPhase,
            message: String,
        | #[trigger]
            call_ensures(create_operation, (operations, id, kind, phase, message), ()) ==> {
                let before = (*operations)@;
                let after = (*final(operations))@;
                &&& after.len() > 0
                &&& after.last().id == id
                &&& after.last().kind == kind
                &&& after.last().phase == phase
                &&& after.last().message == message
                &&& !after.last().terminal
                &&& after.last().success is None
                &&& before.len() < MAX_OPERATIONS ==> after.len() == before.len() + 1
                    && forall|i: int| 0 <= i < before.len() ==> #[trigger] after[i] == before[i]
                &&& before.len() >= MAX_OPERATIONS ==> after.len() == before.len()
            },
{
    assert forall|
        operations: &mut Vec<BrowserOperation>,
        id: String,
        kind: OperationKind,
        phase: OperationPhase,
        message: String,
    | #[trigger]
        call_ensures(create_operation, (operations, id, kind, phase, message), ()) implies {
        let before = (*operations)@;
        let after = (*final(operations))@;
        &&& after.len() > 0
        &&& after.last().id == id
        &&& after.last().kind == kind
        &&& after.last().phase == phase
        &&& after.last().message == message
        &&& !after.last().terminal
        &&& after.last().success is None
        &&& before.len() < MAX_OPERATIONS ==> after.len() == before.len() + 1 && forall|i: int|
            0 <= i < before.len() ==> #[trigger] after[i] == before[i]
        &&& before.len() >= MAX_OPERATIONS ==> after.len() == before.len()
    } by {
        let before = (*operations)@;
        let after = (*final(operations))@;
        if before.len() < MAX_OPERATIONS {
            assert forall|i: int| 0 <= i < before.len() implies #[trigger] after[i]
                == before[i] by {
                assert(after.drop_last()[i] == after[i]);
            }
        } else {
            let at = choose|at: int| #[trigger]
                makes_room(before, at) && after.drop_last() == before.remove(at);
            assert(makes_room(before, at) && after.drop_last() == before.remove(at));
            assert(before.remove(at).len() == before.len() - 1);
        }
    }
}

/// A pairing that went well is completed and successful; one that was called off is cancelled
/// without an error, and any other failure is shown.
pub proof fn how_a_pairing_ends(outcome: Result<String, (String, String)>, r: OperationEnd)
    requires
        call_ensures(pairing_end, (&outcome,), r),
    ensures
        r.success <==> outcome is Ok,
        r.phase is Completed <==> outcome is Ok,
        outcome matches Err((rendered, error)) ==> {
            &&& r.phase is Cancelled <==> called_off(rendered@)
            &&& r.phase is Failed <==> !called_off(rendered@)
            &&& r.show_error <==> !called_off(rendered@)
        },
        outcome is Ok ==> !r.show_error,
{
}

/// A change of the service ends completed where it went well and failed where it did not, and says
/// so.
pub proof fn how_a_change_of_the_service_ends(
    action: ServiceAction,
    outcome: Result<(), String>,
    r: OperationEnd,
)
    requires
        call_ensures(service_end, (action, &outcome), r),
    ensures
        r.success <==> outcome is Ok,
        r.phase is Completed <==> outcome is Ok,
        r.phase is Failed <==> outcome is Err,
        !r.show_error,
        outcome matches Err(error) ==> r.message@ == "服务操作失败："@ + error@,
{
}

/// An operation is found by its identifier: the first that has it, and only a well-formed one is
/// looked for.
pub proof fn an_operation_is_found(
    operations: Vec<BrowserOperation>,
    id: &str,
    r: Result<usize, OperationFault>,
)
    requires
        call_ensures(find_operation, (&operations, id), r),
    ensures
        r matches Ok(at) ==> at < operations@.len() && operations@[at as int].id@ == id@
            && forall|i: int| 0 <= i < at ==> (#[trigger] operations@[i]).id@ != id@,
        r == Err::<usize, OperationFault>(OperationFault::InvalidId) <==> !is_secret(id@),
        r == Err::<usize, OperationFault>(OperationFault::NotFound) ==> forall|i: int|
            0 <= i < operations@.len() ==> (#[trigger] operations@[i]).id@ != id@,
{
}

} // verus!
