//! What the agent tells the Windows service control manager.

use vstd::prelude::*;

verus! {

/// How long a start or a stop may take before the manager asks again, in milliseconds.
pub const WAIT_HINT_MILLISECONDS: u32 = 30_000;

/// The agent's own code for a runtime that ended with an error.
pub const SERVICE_FAILURE_RUNTIME: u32 = 1;

/// The agent's own code for a panic.
pub const SERVICE_FAILURE_PANIC: u32 = 2;

/// The system's code for a service that ended well.
pub const NO_ERROR: u32 = 0;

/// The system's code for a service that ended with a code of its own.
pub const ERROR_SERVICE_SPECIFIC_ERROR: u32 = 1066;

/// The state that a service reports.
#[derive(Clone, Copy, PartialEq, Eq, Structural, Debug)]
pub enum HostState {
    Stopped,
    StartPending,
    StopPending,
    Running,
}

/// One report to the manager.
#[derive(Clone, Copy, PartialEq, Eq, Structural, Debug)]
pub struct HostReport {
    pub state: HostState,
    /// A stop and a shutdown are taken.
    pub accepts_stop: bool,
    pub exit_code: u32,
    pub service_exit_code: u32,
    pub checkpoint: u32,
    pub wait_hint: u32,
}

/// A report: stops are taken only while the service runs.
pub open spec fn report(
    state: HostState,
    service_exit_code: u32,
    checkpoint: u32,
    wait_hint: u32,
    exit_code: u32,
) -> HostReport {
    HostReport {
        state,
        accepts_stop: state == HostState::Running,
        exit_code,
        service_exit_code,
        checkpoint,
        wait_hint,
    }
}

/// The report of a stop under way.
pub open spec fn stop_pending(checkpoint: u32) -> HostReport {
    report(HostState::StopPending, 0, checkpoint, WAIT_HINT_MILLISECONDS, NO_ERROR)
}

/// What the manager asks of the service.
#[derive(Clone, Copy, PartialEq, Eq, Structural, Debug)]
pub enum HostControl {
    Stop,
    Shutdown,
    Interrogate,
    Other,
}

/// What to do about a control.
#[derive(Clone, Copy, PartialEq, Eq, Structural, Debug)]
pub struct HostOrder {
    /// What to report.
    pub report: Option<HostReport>,
    /// Request the agent's shutdown.
    pub request_shutdown: bool,
    /// Start to report the progress of the stop.
    pub start_progress: bool,
}

/// The service as the manager knows it, with what goes on besides.
#[derive(Clone, Copy, PartialEq, Eq, Structural, Debug)]
pub struct ServiceHost {
    /// The last report that the manager took.
    pub reported: HostReport,
    pub shutdown_requested: bool,
    /// The progress of a stop is being reported.
    pub progress_started: bool,
}

fn make_report(
    state: HostState,
    service_exit_code: u32,
    checkpoint: u32,
    wait_hint: u32,
    exit_code: u32,
) -> (r: HostReport)
    ensures
        r == report(state, service_exit_code, checkpoint, wait_hint, exit_code),
{
    HostReport {
        state,
        accepts_stop: state == HostState::Running,
        exit_code,
        service_exit_code,
        checkpoint,
        wait_hint,
    }
}

/// The report of a service that starts.
pub fn starting() -> (r: HostReport)
    ensures
        r == report(HostState::StartPending, 0, 1, WAIT_HINT_MILLISECONDS, NO_ERROR),
{
    make_report(HostState::StartPending, 0, 1, WAIT_HINT_MILLISECONDS, NO_ERROR)
}

/// The report of a service that has ended: the agent's own code counts where it is not zero.
pub fn report_stopped(service_exit_code: u32) -> (r: HostReport)
    ensures
        r == report(
            HostState::Stopped,
            service_exit_code,
            0,
            0,
            if service_exit_code == 0 {
                NO_ERROR
            } else {
                ERROR_SERVICE_SPECIFIC_ERROR
            },
        ),
{
    let exit_code: u32 = if service_exit_code == 0 {
        NO_ERROR
    } else {
        ERROR_SERVICE_SPECIFIC_ERROR
    };
    make_report(HostState::Stopped, service_exit_code, 0, 0, exit_code)
}

impl ServiceHost {
    /// The service as a report that the manager took leaves it.
    pub open spec fn after(self, taken: HostReport) -> ServiceHost {
        ServiceHost { reported: taken, ..self }
    }

    /// What a control asks for. A stop of a service that has ended asks for nothing; the
    /// progress of a stop is reported once, however often it is asked for.
    pub open spec fn ordered(self, control: HostControl) -> HostOrder {
        match control {
            HostControl::Stop | HostControl::Shutdown => if self.reported.state
                == HostState::Stopped {
                HostOrder { report: None, request_shutdown: false, start_progress: false }
            } else {
                HostOrder {
                    report: Some(stop_pending(1)),
                    request_shutdown: true,
                    start_progress: !self.progress_started,
                }
            },
            HostControl::Interrogate => HostOrder {
                report: Some(
                    report(
                        self.reported.state,
                        self.reported.service_exit_code,
                        self.reported.checkpoint,
                        self.reported.wait_hint,
                        self.reported.exit_code,
                    ),
                ),
                request_shutdown: false,
                start_progress: false,
            },
            HostControl::Other => HostOrder {
                report: None,
                request_shutdown: false,
                start_progress: false,
            },
        }
    }

    /// The manager took a report.
    pub fn taken(&mut self, given: HostReport)
        ensures
            *final(self) == old(self).after(given),
    {
        self.reported = given;
    }

    /// Answer a control.
    pub fn control(&mut self, control: HostControl) -> (r: HostOrder)
        ensures
            r == old(self).ordered(control),
            *final(self) == (ServiceHost {
                shutdown_requested: old(self).shutdown_requested || r.request_shutdown,
                progress_started: old(self).progress_started || r.start_progress,
                ..*old(self)
            }),
    {
        match control {
            HostControl::Stop | HostControl::Shutdown => {
                if self.reported.state == HostState::Stopped {
                    return HostOrder {
                        report: None,
                        request_shutdown: false,
                        start_progress: false,
                    };
                }
                let order = HostOrder {
                    report: Some(
                        make_report(
                            HostState::StopPending,
                            0,
                            1,
                            WAIT_HINT_MILLISECONDS,
                            NO_ERROR,
                        ),
                    ),
                    request_shutdown: true,
                    start_progress: !self.progress_started,
                };
                self.shutdown_requested = true;
                self.progress_started = true;
                order
            },
            HostControl::Interrogate => HostOrder {
                report: Some(
                    make_report(
                        self.reported.state,
                        self.reported.service_exit_code,
                        self.reported.checkpoint,
                        self.reported.wait_hint,
                        self.reported.exit_code,
                    ),
                ),
                request_shutdown: false,
                start_progress: false,
            },
            HostControl::Other => HostOrder {
                report: None,
                request_shutdown: false,
                start_progress: false,
            },
        }
    }

    /// The service is ready: it runs, unless its shutdown was requested meanwhile. The second
    /// result says whether the agent is to go on.
    pub fn report_running(&mut self) -> (r: (HostOrder, bool))
        ensures
            r.1 == !old(self).shutdown_requested,
            r.0 == if old(self).shutdown_requested {
                HostOrder {
                    report: Some(stop_pending(1)),
                    request_shutdown: false,
                    start_progress: !old(self).progress_started,
                }
            } else {
                HostOrder {
                    report: Some(report(HostState::Running, 0, 0, 0, NO_ERROR)),
                    request_shutdown: false,
                    start_progress: false,
                }
            },
            *final(self) == (ServiceHost {
                progress_started: old(self).progress_started || r.0.start_progress,
                ..*old(self)
            }),
    {
        if self.shutdown_requested {
            let order = HostOrder {
                report: Some(
                    make_report(HostState::StopPending, 0, 1, WAIT_HINT_MILLISECONDS, NO_ERROR),
                ),
                request_shutdown: false,
                start_progress: !self.progress_started,
            };
            self.progress_started = true;
            return (order, false);
        }
        (
            HostOrder {
                report: Some(make_report(HostState::Running, 0, 0, 0, NO_ERROR)),
                request_shutdown: false,
                start_progress: false,
            },
            true,
        )
    }

    /// The progress of a stop, with the checkpoint that follows; nothing once the stop is over.
    pub fn progress(&self, checkpoint: u32) -> (r: Option<(HostReport, u32)>)
        ensures
            r == if self.reported.state != HostState::StopPending {
                None
            } else {
                Some(
                    (
                        stop_pending(checkpoint),
                        if checkpoint == u32::MAX {
                            u32::MAX
                        } else {
                            (checkpoint + 1) as u32
                        },
                    ),
                )
            },
    {
        if self.reported.state != HostState::StopPending {
            return None;
        }
        let following: u32 = if checkpoint == u32::MAX {
            u32::MAX
        } else {
            checkpoint + 1
        };
        Some(
            (
                make_report(
                    HostState::StopPending,
                    0,
                    checkpoint,
                    WAIT_HINT_MILLISECONDS,
                    NO_ERROR,
                ),
                following,
            ),
        )
    }

    /// The last report of a service whose main function failed or panicked; nothing where its
    /// end was reported already.
    pub fn report_failure(&self, panicked: bool) -> (r: Option<HostReport>)
        ensures
            r == if self.reported.state == HostState::Stopped {
                None
            } else {
                Some(
                    report(
                        HostState::Stopped,
                        if panicked {
                            SERVICE_FAILURE_PANIC
                        } else {
                            SERVICE_FAILURE_RUNTIME
                        },
                        0,
                        0,
                        ERROR_SERVICE_SPECIFIC_ERROR,
                    ),
                )
            },
    {
        if self.reported.state == HostState::Stopped {
            return None;
        }
        let code: u32 = if panicked {
            SERVICE_FAILURE_PANIC
        } else {
            SERVICE_FAILURE_RUNTIME
        };
        Some(report_stopped(code))
    }
}

/// Once a stop is asked for the service never says that it runs, and nothing it reports then
/// takes another stop.
pub proof fn a_stopping_service_does_not_run_again(host: ServiceHost, control: HostControl)
    requires
        host.reported.state != HostState::Running,
    ensures
        host.ordered(control).report matches Some(given) ==> given.state != HostState::Running
            && !given.accepts_stop,
{
}

/// A stop or a shutdown is taken by a service that is not stopped: it says that it stops, asks the
/// agent to end, and starts to tell its progress if that has not begun. A question is answered with
/// the last report, and everything else is left alone.
pub proof fn what_the_manager_asks_for(host: ServiceHost, control: HostControl)
    ensures
        ({
            let order = host.ordered(control);
            let stops = (control == HostControl::Stop || control == HostControl::Shutdown)
                && host.reported.state != HostState::Stopped;
            &&& order.request_shutdown <==> stops
            &&& order.start_progress <==> stops && !host.progress_started
            &&& stops ==> (order.report matches Some(given) && given.state
                == HostState::StopPending && !given.accepts_stop && given.checkpoint == 1
                && given.wait_hint == 30_000 && given.exit_code == 0)
            &&& control == HostControl::Interrogate ==> (order.report matches Some(given)
                && given.state == host.reported.state && given.checkpoint
                == host.reported.checkpoint && given.exit_code == host.reported.exit_code
                && given.service_exit_code == host.reported.service_exit_code && given.wait_hint
                == host.reported.wait_hint && (given.accepts_stop <==> given.state
                == HostState::Running))
            &&& !stops && control != HostControl::Interrogate ==> order.report is None
        }),
{
}

/// A stop is reported with its code: none for an orderly end, and else the service's own under the
/// system's number for such. A stopped service takes no stop.
pub proof fn how_a_stop_is_reported(service_exit_code: u32, r: HostReport)
    requires
        call_ensures(report_stopped, (service_exit_code,), r),
    ensures
        r.state is Stopped,
        !r.accepts_stop,
        r.service_exit_code == service_exit_code,
        r.exit_code == 0 <==> service_exit_code == 0,
        service_exit_code != 0 ==> r.exit_code == 1066,
        r.checkpoint == 0 && r.wait_hint == 0,
{
}

/// Progress is reported only while a stop is under way, each time with the next number, which
/// never wraps.
pub proof fn how_progress_is_reported(
    host: ServiceHost,
    checkpoint: u32,
    r: Option<(HostReport, u32)>,
)
    requires
        call_ensures(ServiceHost::progress, (&host, checkpoint), r),
    ensures
        r is Some <==> host.reported.state is StopPending,
        r matches Some((told, next)) ==> {
            &&& told.state is StopPending
            &&& !told.accepts_stop
            &&& told.checkpoint == checkpoint
            &&& told.wait_hint == 30_000
            &&& told.exit_code == 0
            &&& checkpoint < u32::MAX ==> next == checkpoint + 1
            &&& checkpoint == u32::MAX ==> next == checkpoint
        },
{
}

/// A failure is reported once, unless the service is known to have stopped, and a panic apart from
/// any other failure.
pub proof fn how_a_failure_is_reported(host: ServiceHost, panicked: bool, r: Option<HostReport>)
    requires
        call_ensures(ServiceHost::report_failure, (&host, panicked), r),
    ensures
        r is None <==> host.reported.state is Stopped,
        r matches Some(told) ==> {
            &&& told.state is Stopped
            &&& told.exit_code == 1066
            &&& panicked ==> told.service_exit_code == 2
            &&& !panicked ==> told.service_exit_code == 1
        },
{
}

/// A service that was asked to stop before it ran reports the stop and does not run; any other
/// reports that it runs, and takes stops from then on.
pub proof fn how_running_is_reported()
    ensures
        forall|host: &mut ServiceHost, order: HostOrder, runs: bool| #[trigger]
            call_ensures(ServiceHost::report_running, (host,), (order, runs)) ==> {
                &&& runs <==> !(*host).shutdown_requested
                &&& order.report is Some
                &&& order.report->0.state is Running <==> runs
                &&& order.report->0.accepts_stop <==> runs
                &&& !runs ==> order.report->0.state is StopPending && order.report->0.checkpoint
                    == 1
                &&& order.start_progress <==> !runs && !(*host).progress_started
                &&& !order.request_shutdown
                &&& (*final(host)).shutdown_requested == (*host).shutdown_requested
            },
{
}

} // verus!
