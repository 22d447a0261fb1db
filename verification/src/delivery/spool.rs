//! How long the agent bears with a failing spool.

use crate::text;
use vstd::prelude::*;

verus! {

/// The health of one kind of spool operation.
///
/// A single failure does not end a resident agent; only failures of the same kind in a row, up
/// to the limit, do. Reading, writing and flushing are counted apart, so that a success of one
/// does not hide the failures of another.
#[derive(Clone, Copy, PartialEq, Eq, Structural, Debug)]
pub struct SpoolHealth {
    pub consecutive_failures: u32,
}

/// The spool failed this many times in a row.
#[derive(Clone, Copy, PartialEq, Eq, Structural, Debug)]
pub struct SpoolFault {
    pub consecutive_failures: u32,
}

impl SpoolFault {
    /// The words in which the fault is reported.
    pub open spec fn text(self) -> Seq<char> {
        "spool 连续 "@ + text::decimal(self.consecutive_failures as nat)
            + " 次操作失败，判定为持续性故障；退出并交由服务管理器处理"@
    }

    /// The words in which the fault is reported.
    pub fn message(&self) -> (r: String)
        ensures
            r@ == self.text(),
    {
        text::cat3(
            "spool 连续 ",
            text::decimal_text(self.consecutive_failures as u64).as_str(),
            " 次操作失败，判定为持续性故障；退出并交由服务管理器处理",
        )
    }
}

impl Default for SpoolHealth {
    fn default() -> (r: Self)
        ensures
            r.consecutive_failures == 0,
    {
        SpoolHealth { consecutive_failures: 0 }
    }
}

impl SpoolHealth {
    /// After this many failures in a row the agent gives up.
    pub const MAX_CONSECUTIVE_FAILURES: u32 = 100;

    /// The health after a failure.
    pub open spec fn failed(self) -> SpoolHealth {
        SpoolHealth { consecutive_failures: (self.consecutive_failures + 1) as u32 }
    }

    /// The agent has given up.
    pub open spec fn given_up(self) -> bool {
        self.consecutive_failures >= SpoolHealth::MAX_CONSECUTIVE_FAILURES
    }

    /// An operation succeeded: the count starts anew.
    pub fn record_success(&mut self)
        ensures
            final(self).consecutive_failures == 0,
    {
        self.consecutive_failures = 0;
    }

    /// An operation failed. The fault comes once the limit is reached, and only then.
    pub fn record_failure(&mut self) -> (r: Result<(), SpoolFault>)
        requires
            old(self).consecutive_failures < u32::MAX,
        ensures
            *final(self) == old(self).failed(),
            r == if final(self).given_up() {
                Err::<(), SpoolFault>(
                    SpoolFault { consecutive_failures: final(self).consecutive_failures },
                )
            } else {
                Ok(())
            },
    {
        self.consecutive_failures = self.consecutive_failures + 1;
        if self.consecutive_failures >= Self::MAX_CONSECUTIVE_FAILURES {
            return Err(SpoolFault { consecutive_failures: self.consecutive_failures });
        }
        Ok(())
    }

    /// A report was to be stored. Where that failed the report is given up, not the agent,
    /// until the limit is reached.
    pub fn try_enqueue(&mut self, stored: bool) -> (r: Result<(), SpoolFault>)
        requires
            old(self).consecutive_failures < u32::MAX,
        ensures
            final(self).consecutive_failures == if stored {
                0
            } else {
                old(self).consecutive_failures + 1
            },
            r is Err <==> !stored && final(self).given_up(),
            r matches Err(fault) ==> fault.consecutive_failures
                == final(self).consecutive_failures,
    {
        if stored {
            self.record_success();
            Ok(())
        } else {
            self.record_failure()
        }
    }
}

/// The health after `n` failures in a row.
pub open spec fn after_failures(health: SpoolHealth, n: nat) -> SpoolHealth
    decreases n,
{
    if n == 0 {
        health
    } else {
        after_failures(health, (n - 1) as nat).failed()
    }
}

/// Any success buys a full run of failures: from a fresh count the agent bears every run of
/// failures shorter than the limit, and gives up at the limit and past it. The count is kept for
/// every run that it can hold.
pub proof fn only_an_unbroken_run_of_failures_ends_the_agent(n: nat)
    requires
        n <= u32::MAX,
    ensures
        after_failures(SpoolHealth { consecutive_failures: 0 }, n).given_up() <==> n
            >= SpoolHealth::MAX_CONSECUTIVE_FAILURES,
        after_failures(SpoolHealth { consecutive_failures: 0 }, n).consecutive_failures == n,
    decreases n,
{
    if n > 0 {
        only_an_unbroken_run_of_failures_ends_the_agent((n - 1) as nat);
    }
}

/// A report that was stored starts the count anew; one that was not adds one failure, and the
/// hundredth in a row is the end.
pub proof fn what_a_store_counts()
    ensures
        forall|health: &mut SpoolHealth, stored: bool, r: Result<(), SpoolFault>| #[trigger]
            call_ensures(SpoolHealth::try_enqueue, (health, stored), r) ==> {
                &&& stored ==> r is Ok && (*final(health)).consecutive_failures == 0
                &&& !stored ==> (*final(health)).consecutive_failures
                    == (*health).consecutive_failures + 1
                &&& !stored ==> (r is Err <==> (*health).consecutive_failures + 1 >= 100)
            },
{
}

} // verus!
