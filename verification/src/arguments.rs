//! The command line.

use crate::config::{AgentCommand, OutputMode};
use crate::platform::{Build, Platform};
use crate::text;
use vstd::prelude::*;

verus! {

/// What an argument asks for.
#[derive(Clone, Copy, PartialEq, Eq, Structural, Debug)]
pub enum Argument {
    Command(AgentCommand),
    WindowsService,
    Config,
    Server,
    Endpoint,
    AllowInsecureHttp,
    TrayEvents,
    TrayCancelEvent,
    TrayDeadline,
    TrayActivationStdin,
    ReplacePendingPairing,
    Output,
    Json,
    Delivery,
    Version,
    Help,
}

impl Argument {
    /// How the argument is spelled; where there are two spellings, the long one.
    pub open spec fn spelled(self) -> Seq<char> {
        match self {
            Argument::Command(AgentCommand::Run) => "run"@,
            Argument::Command(AgentCommand::Once) => "once"@,
            Argument::Command(AgentCommand::Probe) => "probe"@,
            Argument::Command(AgentCommand::Pair) => "pair"@,
            Argument::Command(AgentCommand::Doctor) => "doctor"@,
            Argument::Command(AgentCommand::Status) => "status"@,
            Argument::WindowsService => "--windows-service"@,
            Argument::Config => "--config"@,
            Argument::Server => "--server"@,
            Argument::Endpoint => "--endpoint"@,
            Argument::AllowInsecureHttp => "--allow-insecure-http"@,
            Argument::TrayEvents => "--tray-events"@,
            Argument::TrayCancelEvent => "--tray-cancel-event"@,
            Argument::TrayDeadline => "--tray-deadline-seconds"@,
            Argument::TrayActivationStdin => "--tray-activation-stdin"@,
            Argument::ReplacePendingPairing => "--replace-pending-pairing"@,
            Argument::Output => "--output"@,
            Argument::Json => "--json"@,
            Argument::Delivery => "--delivery"@,
            Argument::Version => "--version"@,
            Argument::Help => "--help"@,
        }
    }

    /// How the argument is spelled; where there are two spellings, the long one.
    pub fn spelling(&self) -> (r: &'static str)
        ensures
            r@ == self.spelled(),
    {
        match self {
            Argument::Command(AgentCommand::Run) => "run",
            Argument::Command(AgentCommand::Once) => "once",
            Argument::Command(AgentCommand::Probe) => "probe",
            Argument::Command(AgentCommand::Pair) => "pair",
            Argument::Command(AgentCommand::Doctor) => "doctor",
            Argument::Command(AgentCommand::Status) => "status",
            Argument::WindowsService => "--windows-service",
            Argument::Config => "--config",
            Argument::Server => "--server",
            Argument::Endpoint => "--endpoint",
            Argument::AllowInsecureHttp => "--allow-insecure-http",
            Argument::TrayEvents => "--tray-events",
            Argument::TrayCancelEvent => "--tray-cancel-event",
            Argument::TrayDeadline => "--tray-deadline-seconds",
            Argument::TrayActivationStdin => "--tray-activation-stdin",
            Argument::ReplacePendingPairing => "--replace-pending-pairing",
            Argument::Output => "--output",
            Argument::Json => "--json",
            Argument::Delivery => "--delivery",
            Argument::Version => "--version",
            Argument::Help => "--help",
        }
    }

    /// What is missing when the argument's value is.
    pub open spec fn wants(self) -> Seq<char> {
        match self {
            Argument::Config => " requires a file path"@,
            Argument::Server => " requires a URL"@,
            Argument::Endpoint => " requires a report URL"@,
            Argument::TrayCancelEvent => " requires an event name"@,
            Argument::Output => " requires human or json"@,
            _ => " requires a value"@,
        }
    }

    fn wanted(&self) -> (r: &'static str)
        ensures
            r@ == self.wants(),
    {
        match self {
            Argument::Config => " requires a file path",
            Argument::Server => " requires a URL",
            Argument::Endpoint => " requires a report URL",
            Argument::TrayCancelEvent => " requires an event name",
            Argument::Output => " requires human or json",
            _ => " requires a value",
        }
    }
}

/// What a text asks for as an argument.
pub open spec fn meaning(given: Seq<char>) -> Option<Argument> {
    if given == "run"@ {
        Some(Argument::Command(AgentCommand::Run))
    } else if given == "once"@ {
        Some(Argument::Command(AgentCommand::Once))
    } else if given == "probe"@ {
        Some(Argument::Command(AgentCommand::Probe))
    } else if given == "pair"@ {
        Some(Argument::Command(AgentCommand::Pair))
    } else if given == "doctor"@ {
        Some(Argument::Command(AgentCommand::Doctor))
    } else if given == "status"@ {
        Some(Argument::Command(AgentCommand::Status))
    } else if given == "--windows-service"@ {
        Some(Argument::WindowsService)
    } else if given == "--config"@ {
        Some(Argument::Config)
    } else if given == "--server"@ {
        Some(Argument::Server)
    } else if given == "--endpoint"@ {
        Some(Argument::Endpoint)
    } else if given == "--allow-insecure-http"@ {
        Some(Argument::AllowInsecureHttp)
    } else if given == "--tray-events"@ {
        Some(Argument::TrayEvents)
    } else if given == "--tray-cancel-event"@ {
        Some(Argument::TrayCancelEvent)
    } else if given == "--tray-deadline-seconds"@ {
        Some(Argument::TrayDeadline)
    } else if given == "--tray-activation-stdin"@ {
        Some(Argument::TrayActivationStdin)
    } else if given == "--replace-pending-pairing"@ {
        Some(Argument::ReplacePendingPairing)
    } else if given == "--output"@ {
        Some(Argument::Output)
    } else if given == "--json"@ {
        Some(Argument::Json)
    } else if given == "--delivery"@ {
        Some(Argument::Delivery)
    } else if given == "-V"@ || given == "--version"@ {
        Some(Argument::Version)
    } else if given == "-h"@ || given == "--help"@ {
        Some(Argument::Help)
    } else {
        None
    }
}

/// What `given` asks for as an argument.
pub fn recognize(given: &str) -> (r: Option<Argument>)
    ensures
        r == meaning(given@),
{
    if text::same(given, "run") {
        Some(Argument::Command(AgentCommand::Run))
    } else if text::same(given, "once") {
        Some(Argument::Command(AgentCommand::Once))
    } else if text::same(given, "probe") {
        Some(Argument::Command(AgentCommand::Probe))
    } else if text::same(given, "pair") {
        Some(Argument::Command(AgentCommand::Pair))
    } else if text::same(given, "doctor") {
        Some(Argument::Command(AgentCommand::Doctor))
    } else if text::same(given, "status") {
        Some(Argument::Command(AgentCommand::Status))
    } else if text::same(given, "--windows-service") {
        Some(Argument::WindowsService)
    } else if text::same(given, "--config") {
        Some(Argument::Config)
    } else if text::same(given, "--server") {
        Some(Argument::Server)
    } else if text::same(given, "--endpoint") {
        Some(Argument::Endpoint)
    } else if text::same(given, "--allow-insecure-http") {
        Some(Argument::AllowInsecureHttp)
    } else if text::same(given, "--tray-events") {
        Some(Argument::TrayEvents)
    } else if text::same(given, "--tray-cancel-event") {
        Some(Argument::TrayCancelEvent)
    } else if text::same(given, "--tray-deadline-seconds") {
        Some(Argument::TrayDeadline)
    } else if text::same(given, "--tray-activation-stdin") {
        Some(Argument::TrayActivationStdin)
    } else if text::same(given, "--replace-pending-pairing") {
        Some(Argument::ReplacePendingPairing)
    } else if text::same(given, "--output") {
        Some(Argument::Output)
    } else if text::same(given, "--json") {
        Some(Argument::Json)
    } else if text::same(given, "--delivery") {
        Some(Argument::Delivery)
    } else if text::same(given, "-V") || text::same(given, "--version") {
        Some(Argument::Version)
    } else if text::same(given, "-h") || text::same(given, "--help") {
        Some(Argument::Help)
    } else {
        None
    }
}

/// What is wrong with a command line.
#[derive(Debug)]
pub enum ArgumentFault {
    MultipleCommands { selected: AgentCommand, spelling: String },
    ServiceNotFirst,
    Repeated(Argument),
    MissingValue(Argument),
    InvalidDeadline,
    OutputFormat { given: String },
    OutputConflict,
    HelpInService,
    Unknown { given: String },
    DeliveryNeedsDoctor,
    ServiceUnavailable,
    ServiceNeedsRun,
    TrayEventsNeedPair,
    TrayControlsNeedPair,
    ReplacementNeedsPair,
    DeadlineRange,
    CancelEventUnavailable,
    CancelEventName,
}

/// The name of a command.
pub open spec fn command_name(command: AgentCommand) -> Seq<char> {
    match command {
        AgentCommand::Run => "Run"@,
        AgentCommand::Once => "Once"@,
        AgentCommand::Probe => "Probe"@,
        AgentCommand::Pair => "Pair"@,
        AgentCommand::Doctor => "Doctor"@,
        AgentCommand::Status => "Status"@,
    }
}

fn name_of(command: AgentCommand) -> (r: &'static str)
    ensures
        r@ == command_name(command),
{
    match command {
        AgentCommand::Run => "Run",
        AgentCommand::Once => "Once",
        AgentCommand::Probe => "Probe",
        AgentCommand::Pair => "Pair",
        AgentCommand::Doctor => "Doctor",
        AgentCommand::Status => "Status",
    }
}

impl ArgumentFault {
    /// The words in which the fault is reported.
    pub open spec fn text(self) -> Seq<char> {
        match self {
            ArgumentFault::MultipleCommands { selected, spelling } =>
                "multiple commands are not allowed (selected "@ + command_name(selected)
                    + ", then "@ + spelling@ + ")"@,
            ArgumentFault::ServiceNotFirst => "--windows-service must be the first argument"@,
            ArgumentFault::Repeated(argument) => argument.spelled()
                + " may be specified only once"@,
            ArgumentFault::MissingValue(argument) => argument.spelled() + argument.wants(),
            ArgumentFault::InvalidDeadline => "invalid --tray-deadline-seconds value"@,
            ArgumentFault::OutputFormat { given } => "unsupported output format "@ + given@
                + "; use human or json"@,
            ArgumentFault::OutputConflict => "--json conflicts with an earlier output option"@,
            ArgumentFault::HelpInService => "--help is not available in Windows service mode"@,
            ArgumentFault::Unknown { given } => "unknown argument: "@ + given@,
            ArgumentFault::DeliveryNeedsDoctor => "--delivery may be used only with doctor"@,
            ArgumentFault::ServiceUnavailable =>
                "--windows-service is available only on Windows"@,
            ArgumentFault::ServiceNeedsRun =>
                "--windows-service may be used only with the run command"@,
            ArgumentFault::TrayEventsNeedPair =>
                "--tray-events may be used only with the pair command"@,
            ArgumentFault::TrayControlsNeedPair =>
                "internal tray pairing controls require pair --tray-events"@,
            ArgumentFault::ReplacementNeedsPair =>
                "--replace-pending-pairing may be used only with the pair command"@,
            ArgumentFault::DeadlineRange =>
                "--tray-deadline-seconds must be between 60 and 3600"@,
            ArgumentFault::CancelEventUnavailable =>
                "--tray-cancel-event is available only on Windows"@,
            ArgumentFault::CancelEventName => "invalid tray cancellation event name"@,
        }
    }

    /// The words in which the fault is reported.
    pub fn message(&self) -> (r: String)
        ensures
            r@ == self.text(),
    {
        match self {
            ArgumentFault::MultipleCommands { selected, spelling } => text::cat5(
                "multiple commands are not allowed (selected ",
                name_of(*selected),
                ", then ",
                spelling.as_str(),
                ")",
            ),
            ArgumentFault::ServiceNotFirst => text::owned(
                "--windows-service must be the first argument",
            ),
            ArgumentFault::Repeated(argument) => text::cat(
                argument.spelling(),
                " may be specified only once",
            ),
            ArgumentFault::MissingValue(argument) => text::cat(
                argument.spelling(),
                argument.wanted(),
            ),
            ArgumentFault::InvalidDeadline => text::owned("invalid --tray-deadline-seconds value"),
            ArgumentFault::OutputFormat { given } => text::cat3(
                "unsupported output format ",
                given.as_str(),
                "; use human or json",
            ),
            ArgumentFault::OutputConflict => text::owned(
                "--json conflicts with an earlier output option",
            ),
            ArgumentFault::HelpInService => text::owned(
                "--help is not available in Windows service mode",
            ),
            ArgumentFault::Unknown { given } => text::cat("unknown argument: ", given.as_str()),
            ArgumentFault::DeliveryNeedsDoctor => text::owned(
                "--delivery may be used only with doctor",
            ),
            ArgumentFault::ServiceUnavailable => text::owned(
                "--windows-service is available only on Windows",
            ),
            ArgumentFault::ServiceNeedsRun => text::owned(
                "--windows-service may be used only with the run command",
            ),
            ArgumentFault::TrayEventsNeedPair => text::owned(
                "--tray-events may be used only with the pair command",
            ),
            ArgumentFault::TrayControlsNeedPair => text::owned(
                "internal tray pairing controls require pair --tray-events",
            ),
            ArgumentFault::ReplacementNeedsPair => text::owned(
                "--replace-pending-pairing may be used only with the pair command",
            ),
            ArgumentFault::DeadlineRange => text::owned(
                "--tray-deadline-seconds must be between 60 and 3600",
            ),
            ArgumentFault::CancelEventUnavailable => text::owned(
                "--tray-cancel-event is available only on Windows",
            ),
            ArgumentFault::CancelEventName => text::owned("invalid tray cancellation event name"),
        }
    }
}

/// What the arguments read so far ask for.
#[derive(Debug)]
pub struct Scan {
    pub command: Option<AgentCommand>,
    pub windows_service: bool,
    pub config_path: Option<String>,
    pub server_override: Option<String>,
    pub endpoint_override: Option<String>,
    pub allow_insecure_http: bool,
    pub tray_events: bool,
    pub tray_cancel_event: Option<String>,
    pub tray_deadline_seconds: Option<u64>,
    pub tray_activation_stdin: bool,
    pub replace_pending_pairing: bool,
    /// The output format, where one was chosen.
    pub output_mode: Option<OutputMode>,
    pub doctor_delivery: bool,
}

/// What comes of one more argument.
#[derive(Debug)]
pub enum Taken {
    /// Read on; `value` tells whether the argument took the one behind it as its value.
    More { scan: Scan, value: bool },
    Version,
    Help,
}

/// A command line without arguments.
pub open spec fn empty_scan() -> Scan {
    Scan {
        command: None,
        windows_service: false,
        config_path: None,
        server_override: None,
        endpoint_override: None,
        allow_insecure_http: false,
        tray_events: false,
        tray_cancel_event: None,
        tray_deadline_seconds: None,
        tray_activation_stdin: false,
        replace_pending_pairing: false,
        output_mode: None,
        doctor_delivery: false,
    }
}

/// An output format by its name.
pub open spec fn output_named(name: Seq<char>) -> Option<OutputMode> {
    if name == "human"@ {
        Some(OutputMode::Human)
    } else if name == "json"@ {
        Some(OutputMode::Json)
    } else {
        None
    }
}

/// What comes of the argument `given`, with `next` behind it.
pub open spec fn taken(scan: Scan, given: String, first: bool, next: Option<String>) -> Result<
    Taken,
    ArgumentFault,
> {
    match meaning(given@) {
        None => Err(ArgumentFault::Unknown { given }),
        Some(argument) => match argument {
            Argument::Command(command) => match scan.command {
                Some(selected) => Err(
                    ArgumentFault::MultipleCommands { selected, spelling: given },
                ),
                None => Ok(
                    Taken::More { scan: Scan { command: Some(command), ..scan }, value: false },
                ),
            },
            Argument::WindowsService => if !first {
                Err(ArgumentFault::ServiceNotFirst)
            } else if scan.windows_service {
                Err(ArgumentFault::Repeated(argument))
            } else {
                Ok(Taken::More { scan: Scan { windows_service: true, ..scan }, value: false })
            },
            Argument::Config => match next {
                None => Err(ArgumentFault::MissingValue(argument)),
                Some(value) => Ok(
                    Taken::More { scan: Scan { config_path: Some(value), ..scan }, value: true },
                ),
            },
            Argument::Server => match next {
                None => Err(ArgumentFault::MissingValue(argument)),
                Some(value) => Ok(
                    Taken::More {
                        scan: Scan { server_override: Some(value), ..scan },
                        value: true,
                    },
                ),
            },
            Argument::Endpoint => match next {
                None => Err(ArgumentFault::MissingValue(argument)),
                Some(value) => Ok(
                    Taken::More {
                        scan: Scan { endpoint_override: Some(value), ..scan },
                        value: true,
                    },
                ),
            },
            Argument::AllowInsecureHttp => Ok(
                Taken::More { scan: Scan { allow_insecure_http: true, ..scan }, value: false },
            ),
            Argument::TrayEvents => if scan.tray_events {
                Err(ArgumentFault::Repeated(argument))
            } else {
                Ok(Taken::More { scan: Scan { tray_events: true, ..scan }, value: false })
            },
            Argument::TrayCancelEvent => if scan.tray_cancel_event is Some {
                Err(ArgumentFault::Repeated(argument))
            } else {
                match next {
                    None => Err(ArgumentFault::MissingValue(argument)),
                    Some(value) => Ok(
                        Taken::More {
                            scan: Scan { tray_cancel_event: Some(value), ..scan },
                            value: true,
                        },
                    ),
                }
            },
            Argument::TrayDeadline => if scan.tray_deadline_seconds is Some {
                Err(ArgumentFault::Repeated(argument))
            } else {
                match next {
                    None => Err(ArgumentFault::MissingValue(argument)),
                    Some(value) => match text::unsigned_value(value@) {
                        Some(seconds) if seconds <= u64::MAX => Ok(
                            Taken::More {
                                scan: Scan { tray_deadline_seconds: Some(seconds as u64), ..scan },
                                value: true,
                            },
                        ),
                        _ => Err(ArgumentFault::InvalidDeadline),
                    },
                }
            },
            Argument::TrayActivationStdin => if scan.tray_activation_stdin {
                Err(ArgumentFault::Repeated(argument))
            } else {
                Ok(Taken::More { scan: Scan { tray_activation_stdin: true, ..scan }, value: false })
            },
            Argument::ReplacePendingPairing => if scan.replace_pending_pairing {
                Err(ArgumentFault::Repeated(argument))
            } else {
                Ok(
                    Taken::More {
                        scan: Scan { replace_pending_pairing: true, ..scan },
                        value: false,
                    },
                )
            },
            Argument::Output => if scan.output_mode is Some {
                Err(ArgumentFault::Repeated(argument))
            } else {
                match next {
                    None => Err(ArgumentFault::MissingValue(argument)),
                    Some(value) => match output_named(value@) {
                        Some(mode) => Ok(
                            Taken::More {
                                scan: Scan { output_mode: Some(mode), ..scan },
                                value: true,
                            },
                        ),
                        None => Err(ArgumentFault::OutputFormat { given: value }),
                    },
                }
            },
            Argument::Json => if scan.output_mode is Some {
                Err(ArgumentFault::OutputConflict)
            } else {
                Ok(
                    Taken::More {
                        scan: Scan { output_mode: Some(OutputMode::Json), ..scan },
                        value: false,
                    },
                )
            },
            Argument::Delivery => if scan.doctor_delivery {
                Err(ArgumentFault::Repeated(argument))
            } else {
                Ok(Taken::More { scan: Scan { doctor_delivery: true, ..scan }, value: false })
            },
            Argument::Version => Ok(Taken::Version),
            Argument::Help => if scan.windows_service {
                Err(ArgumentFault::HelpInService)
            } else {
                Ok(Taken::Help)
            },
        },
    }
}

/// Choose `command`, unless one was chosen before.
pub fn select_command(
    selected: &mut Option<AgentCommand>,
    command: AgentCommand,
    spelling: &str,
) -> (r: Result<(), ArgumentFault>)
    ensures
        match *old(selected) {
            None => r is Ok && *final(selected) == Some(command),
            Some(previous) => *final(selected) == *old(selected) && (r matches Err(
                ArgumentFault::MultipleCommands { selected: first, spelling: then_given },
            ) && first == previous && then_given@ == spelling@),
        },
{
    match *selected {
        Some(previous) => Err(
            ArgumentFault::MultipleCommands { selected: previous, spelling: text::owned(spelling) },
        ),
        None => {
            *selected = Some(command);
            Ok(())
        },
    }
}

/// `--windows-service` must be the first argument.
pub fn validate_windows_service_position(argument_position: usize) -> (r: Result<
    (),
    ArgumentFault,
>)
    ensures
        r == if argument_position != 1 {
            Err::<(), ArgumentFault>(ArgumentFault::ServiceNotFirst)
        } else {
            Ok(())
        },
{
    if argument_position != 1 {
        return Err(ArgumentFault::ServiceNotFirst);
    }
    Ok(())
}

/// The value behind an argument that needs one.
fn required(argument: Argument, next: Option<&String>) -> (r: Result<String, ArgumentFault>)
    ensures
        r == match next {
            None => Err::<String, ArgumentFault>(ArgumentFault::MissingValue(argument)),
            Some(value) => Ok(*value),
        },
{
    match next {
        None => Err(ArgumentFault::MissingValue(argument)),
        Some(value) => Ok(value.clone()),
    }
}

/// Take one more argument.
fn take(scan: Scan, given: &String, first: bool, next: Option<&String>) -> (r: Result<
    Taken,
    ArgumentFault,
>)
    ensures
        r == taken(
            scan,
            *given,
            first,
            match next {
                Some(value) => Some(*value),
                None => None,
            },
        ),
{
    let argument = match recognize(given.as_str()) {
        None => {
            return Err(ArgumentFault::Unknown { given: given.clone() });
        },
        Some(argument) => argument,
    };
    match argument {
        Argument::Command(command) => match scan.command {
            Some(selected) => Err(
                ArgumentFault::MultipleCommands { selected, spelling: given.clone() },
            ),
            None => Ok(Taken::More { scan: Scan { command: Some(command), ..scan }, value: false }),
        },
        Argument::WindowsService => if !first {
            Err(ArgumentFault::ServiceNotFirst)
        } else if scan.windows_service {
            Err(ArgumentFault::Repeated(argument))
        } else {
            Ok(Taken::More { scan: Scan { windows_service: true, ..scan }, value: false })
        },
        Argument::Config => match required(argument, next) {
            Err(fault) => Err(fault),
            Ok(value) => Ok(
                Taken::More { scan: Scan { config_path: Some(value), ..scan }, value: true },
            ),
        },
        Argument::Server => match required(argument, next) {
            Err(fault) => Err(fault),
            Ok(value) => Ok(
                Taken::More { scan: Scan { server_override: Some(value), ..scan }, value: true },
            ),
        },
        Argument::Endpoint => match required(argument, next) {
            Err(fault) => Err(fault),
            Ok(value) => Ok(
                Taken::More { scan: Scan { endpoint_override: Some(value), ..scan }, value: true },
            ),
        },
        Argument::AllowInsecureHttp => Ok(
            Taken::More { scan: Scan { allow_insecure_http: true, ..scan }, value: false },
        ),
        Argument::TrayEvents => if scan.tray_events {
            Err(ArgumentFault::Repeated(argument))
        } else {
            Ok(Taken::More { scan: Scan { tray_events: true, ..scan }, value: false })
        },
        Argument::TrayCancelEvent => if scan.tray_cancel_event.is_some() {
            Err(ArgumentFault::Repeated(argument))
        } else {
            match required(argument, next) {
                Err(fault) => Err(fault),
                Ok(value) => Ok(
                    Taken::More {
                        scan: Scan { tray_cancel_event: Some(value), ..scan },
                        value: true,
                    },
                ),
            }
        },
        Argument::TrayDeadline => if scan.tray_deadline_seconds.is_some() {
            Err(ArgumentFault::Repeated(argument))
        } else {
            match required(argument, next) {
                Err(fault) => Err(fault),
                Ok(value) => match text::parse_unsigned(
                    &text::to_chars(value.as_str()),
                    u64::MAX,
                ) {
                    Some(seconds) => Ok(
                        Taken::More {
                            scan: Scan { tray_deadline_seconds: Some(seconds), ..scan },
                            value: true,
                        },
                    ),
                    None => Err(ArgumentFault::InvalidDeadline),
                },
            }
        },
        Argument::TrayActivationStdin => if scan.tray_activation_stdin {
            Err(ArgumentFault::Repeated(argument))
        } else {
            Ok(Taken::More { scan: Scan { tray_activation_stdin: true, ..scan }, value: false })
        },
        Argument::ReplacePendingPairing => if scan.replace_pending_pairing {
            Err(ArgumentFault::Repeated(argument))
        } else {
            Ok(Taken::More { scan: Scan { replace_pending_pairing: true, ..scan }, value: false })
        },
        Argument::Output => if scan.output_mode.is_some() {
            Err(ArgumentFault::Repeated(argument))
        } else {
            match required(argument, next) {
                Err(fault) => Err(fault),
                Ok(value) => if text::same(value.as_str(), "human") {
                    Ok(
                        Taken::More {
                            scan: Scan { output_mode: Some(OutputMode::Human), ..scan },
                            value: true,
                        },
                    )
                } else if text::same(value.as_str(), "json") {
                    Ok(
                        Taken::More {
                            scan: Scan { output_mode: Some(OutputMode::Json), ..scan },
                            value: true,
                        },
                    )
                } else {
                    Err(ArgumentFault::OutputFormat { given: value })
                },
            }
        },
        Argument::Json => if scan.output_mode.is_some() {
            Err(ArgumentFault::OutputConflict)
        } else {
            Ok(
                Taken::More {
                    scan: Scan { output_mode: Some(OutputMode::Json), ..scan },
                    value: false,
                },
            )
        },
        Argument::Delivery => if scan.doctor_delivery {
            Err(ArgumentFault::Repeated(argument))
        } else {
            Ok(Taken::More { scan: Scan { doctor_delivery: true, ..scan }, value: false })
        },
        Argument::Version => Ok(Taken::Version),
        Argument::Help => if scan.windows_service {
            Err(ArgumentFault::HelpInService)
        } else {
            Ok(Taken::Help)
        },
    }
}

/// What a command line asks for, before its parts are held against each other.
#[derive(Debug)]
pub enum Scanned {
    Arguments(Scan),
    /// Print the version and end.
    Version,
    /// Print the help text and end.
    Help,
}

/// What the arguments from `at` on add to `scan`. The first fault, or the first request for the
/// version or for help, ends the reading.
pub open spec fn scanned(args: Seq<String>, at: int, scan: Scan) -> Result<Scanned, ArgumentFault>
    decreases args.len() - at,
{
    if at >= args.len() {
        Ok(Scanned::Arguments(scan))
    } else {
        let next = if at + 1 < args.len() {
            Some(args[at + 1])
        } else {
            None
        };
        match taken(scan, args[at], at == 0, next) {
            Err(fault) => Err(fault),
            Ok(Taken::Version) => Ok(Scanned::Version),
            Ok(Taken::Help) => Ok(Scanned::Help),
            Ok(Taken::More { scan, value }) => scanned(
                args,
                if value {
                    at + 2
                } else {
                    at + 1
                },
                scan,
            ),
        }
    }
}

/// Read the arguments.
pub fn scan_arguments(args: &Vec<String>) -> (r: Result<Scanned, ArgumentFault>)
    ensures
        r == scanned(args@, 0, empty_scan()),
{
    let mut scan = Scan {
        command: None,
        windows_service: false,
        config_path: None,
        server_override: None,
        endpoint_override: None,
        allow_insecure_http: false,
        tray_events: false,
        tray_cancel_event: None,
        tray_deadline_seconds: None,
        tray_activation_stdin: false,
        replace_pending_pairing: false,
        output_mode: None,
        doctor_delivery: false,
    };
    let mut at: usize = 0;
    while at < args.len()
        invariant
            at <= args.len(),
            scanned(args@, 0, empty_scan()) == scanned(args@, at as int, scan),
        decreases args@.len() - at,
    {
        let next: Option<&String> = if at + 1 < args.len() {
            Some(&args[at + 1])
        } else {
            None
        };
        match take(scan, &args[at], at == 0, next) {
            Err(fault) => {
                return Err(fault);
            },
            Ok(Taken::Version) => {
                return Ok(Scanned::Version);
            },
            Ok(Taken::Help) => {
                return Ok(Scanned::Help);
            },
            Ok(Taken::More { scan: more, value }) => {
                scan = more;
                at = if value {
                    at + 2
                } else {
                    at + 1
                };
            },
        }
    }
    Ok(Scanned::Arguments(scan))
}

// ---------------------------------------------------------------------------
// The parts of a command line together
// ---------------------------------------------------------------------------
/// What a command line asks for.
#[derive(Debug)]
pub struct Invocation {
    pub command: AgentCommand,
    pub windows_service: bool,
    pub config_path: Option<String>,
    pub server_override: Option<String>,
    pub endpoint_override: Option<String>,
    pub allow_insecure_http: bool,
    pub tray_events: bool,
    pub tray_cancel_event: Option<String>,
    pub tray_deadline_seconds: Option<u64>,
    pub tray_activation_stdin: bool,
    pub replace_pending_pairing: bool,
    pub output_mode: OutputMode,
    pub doctor_delivery: bool,
}

/// `--windows-service` asks for the resident command, on Windows.
pub open spec fn service_verdict(requested: bool, command: AgentCommand, platform: Platform) -> Result<
    (),
    ArgumentFault,
> {
    if !requested {
        Ok(())
    } else if platform != Platform::Windows {
        Err(ArgumentFault::ServiceUnavailable)
    } else if command != AgentCommand::Run {
        Err(ArgumentFault::ServiceNeedsRun)
    } else {
        Ok(())
    }
}

/// Whether the service mode may be asked for.
pub fn validate_windows_service_invocation(
    requested: bool,
    command: AgentCommand,
    platform: Platform,
) -> (r: Result<(), ArgumentFault>)
    ensures
        r == service_verdict(requested, command, platform),
{
    if !requested {
        return Ok(());
    }
    if platform != Platform::Windows {
        return Err(ArgumentFault::ServiceUnavailable);
    }
    if command != AgentCommand::Run {
        return Err(ArgumentFault::ServiceNeedsRun);
    }
    Ok(())
}

/// The tray's controls and the replacement of a request belong to pairing.
pub open spec fn pairing_controls_verdict(
    command: AgentCommand,
    tray_events: bool,
    internal_control: bool,
    replace: bool,
) -> Result<(), ArgumentFault> {
    if tray_events && command != AgentCommand::Pair {
        Err(ArgumentFault::TrayEventsNeedPair)
    } else if internal_control && (!tray_events || command != AgentCommand::Pair) {
        Err(ArgumentFault::TrayControlsNeedPair)
    } else if replace && command != AgentCommand::Pair {
        Err(ArgumentFault::ReplacementNeedsPair)
    } else {
        Ok(())
    }
}

/// Whether the tray's controls and the replacement of a request may be asked for.
pub fn validate_pairing_control_invocation(
    command: AgentCommand,
    tray_events: bool,
    has_internal_tray_control: bool,
    replace_pending_pairing: bool,
) -> (r: Result<(), ArgumentFault>)
    ensures
        r == pairing_controls_verdict(
            command,
            tray_events,
            has_internal_tray_control,
            replace_pending_pairing,
        ),
{
    if tray_events && command != AgentCommand::Pair {
        return Err(ArgumentFault::TrayEventsNeedPair);
    }
    if has_internal_tray_control && (!tray_events || command != AgentCommand::Pair) {
        return Err(ArgumentFault::TrayControlsNeedPair);
    }
    if replace_pending_pairing && command != AgentCommand::Pair {
        return Err(ArgumentFault::ReplacementNeedsPair);
    }
    Ok(())
}

/// `s` holds sixty-four hexadecimal digits and nothing else.
pub open spec fn is_secret(s: Seq<char>) -> bool {
    s.len() == 64 && forall|i: int| 0 <= i < s.len() ==> text::is_hex(#[trigger] s[i])
}

/// Whether `chars` holds sixty-four hexadecimal digits and nothing else.
pub fn secret(chars: &Vec<char>) -> (r: bool)
    ensures
        r == is_secret(chars@),
{
    chars.len() == 64 && text::all_hex(chars)
}

/// The name of the event by which the tray cancels a pairing: a fixed beginning and a secret.
pub open spec fn cancel_event_verdict(name: Seq<char>, platform: Platform) -> Result<
    (),
    ArgumentFault,
> {
    let prefix = "Local\\UnionCAgentPairCancel-"@;
    if platform != Platform::Windows {
        Err(ArgumentFault::CancelEventUnavailable)
    } else if text::begins(name, prefix) && is_secret(name.skip(prefix.len() as int)) {
        Ok(())
    } else {
        Err(ArgumentFault::CancelEventName)
    }
}

/// Whether `name` is one by which the tray may cancel a pairing.
pub fn validate_tray_cancel_event(name: &str, platform: Platform) -> (r: Result<(), ArgumentFault>)
    ensures
        r == cancel_event_verdict(name@, platform),
{
    if platform != Platform::Windows {
        return Err(ArgumentFault::CancelEventUnavailable);
    }
    match text::strip_prefix(name, "Local\\UnionCAgentPairCancel-") {
        None => Err(ArgumentFault::CancelEventName),
        Some(suffix) => if secret(&text::to_chars(suffix.as_str())) {
            Ok(())
        } else {
            Err(ArgumentFault::CancelEventName)
        },
    }
}

/// The shortest and the longest deadline that the tray may set, in seconds.
pub const SHORTEST_TRAY_DEADLINE: u64 = 60;

pub const LONGEST_TRAY_DEADLINE: u64 = 3600;

/// What the arguments ask for together.
pub open spec fn combined(scan: Scan, build: Build) -> Result<Invocation, ArgumentFault> {
    let command = match scan.command {
        Some(command) => command,
        None => AgentCommand::Run,
    };
    let internal_control = scan.tray_cancel_event is Some || scan.tray_deadline_seconds is Some
        || scan.tray_activation_stdin;
    if scan.doctor_delivery && command != AgentCommand::Doctor {
        Err(ArgumentFault::DeliveryNeedsDoctor)
    } else if service_verdict(scan.windows_service, command, build.platform) is Err {
        Err(service_verdict(scan.windows_service, command, build.platform)->Err_0)
    } else if pairing_controls_verdict(
        command,
        scan.tray_events,
        internal_control,
        scan.replace_pending_pairing,
    ) is Err {
        Err(
            pairing_controls_verdict(
                command,
                scan.tray_events,
                internal_control,
                scan.replace_pending_pairing,
            )->Err_0,
        )
    } else if scan.tray_deadline_seconds is Some && !(SHORTEST_TRAY_DEADLINE
        <= scan.tray_deadline_seconds->0 <= LONGEST_TRAY_DEADLINE) {
        Err(ArgumentFault::DeadlineRange)
    } else if scan.tray_cancel_event is Some && cancel_event_verdict(
        scan.tray_cancel_event->0@,
        build.platform,
    ) is Err {
        Err(cancel_event_verdict(scan.tray_cancel_event->0@, build.platform)->Err_0)
    } else {
        Ok(
            Invocation {
                command,
                windows_service: scan.windows_service,
                config_path: scan.config_path,
                server_override: scan.server_override,
                endpoint_override: scan.endpoint_override,
                allow_insecure_http: scan.allow_insecure_http,
                tray_events: scan.tray_events,
                tray_cancel_event: scan.tray_cancel_event,
                tray_deadline_seconds: scan.tray_deadline_seconds,
                tray_activation_stdin: scan.tray_activation_stdin,
                replace_pending_pairing: scan.replace_pending_pairing,
                output_mode: match scan.output_mode {
                    Some(mode) => mode,
                    None => OutputMode::Human,
                },
                doctor_delivery: scan.doctor_delivery,
            },
        )
    }
}

/// Hold the parts of a command line against each other.
pub fn combine(scan: Scan, build: Build) -> (r: Result<Invocation, ArgumentFault>)
    ensures
        r == combined(scan, build),
{
    let command = match scan.command {
        Some(command) => command,
        None => AgentCommand::Run,
    };
    if scan.doctor_delivery && command != AgentCommand::Doctor {
        return Err(ArgumentFault::DeliveryNeedsDoctor);
    }
    if let Err(fault) = validate_windows_service_invocation(
        scan.windows_service,
        command,
        build.platform,
    ) {
        return Err(fault);
    }
    if let Err(fault) = validate_pairing_control_invocation(
        command,
        scan.tray_events,
        scan.tray_cancel_event.is_some() || scan.tray_deadline_seconds.is_some()
            || scan.tray_activation_stdin,
        scan.replace_pending_pairing,
    ) {
        return Err(fault);
    }
    if let Some(seconds) = scan.tray_deadline_seconds {
        if seconds < SHORTEST_TRAY_DEADLINE || seconds > LONGEST_TRAY_DEADLINE {
            return Err(ArgumentFault::DeadlineRange);
        }
    }
    if let Some(name) = &scan.tray_cancel_event {
        if let Err(fault) = validate_tray_cancel_event(name.as_str(), build.platform) {
            return Err(fault);
        }
    }
    Ok(
        Invocation {
            command,
            windows_service: scan.windows_service,
            config_path: scan.config_path,
            server_override: scan.server_override,
            endpoint_override: scan.endpoint_override,
            allow_insecure_http: scan.allow_insecure_http,
            tray_events: scan.tray_events,
            tray_cancel_event: scan.tray_cancel_event,
            tray_deadline_seconds: scan.tray_deadline_seconds,
            tray_activation_stdin: scan.tray_activation_stdin,
            replace_pending_pairing: scan.replace_pending_pairing,
            output_mode: match scan.output_mode {
                Some(mode) => mode,
                None => OutputMode::Human,
            },
            doctor_delivery: scan.doctor_delivery,
        },
    )
}

/// What a command line asks for.
#[derive(Debug)]
pub enum Request {
    Invoke(Invocation),
    /// Print the version and end.
    Version,
    /// Print the help text and end.
    Help,
}

/// What a command line asks for.
pub open spec fn requested(args: Seq<String>, build: Build) -> Result<Request, ArgumentFault> {
    match scanned(args, 0, empty_scan()) {
        Err(fault) => Err(fault),
        Ok(Scanned::Version) => Ok(Request::Version),
        Ok(Scanned::Help) => Ok(Request::Help),
        Ok(Scanned::Arguments(scan)) => match combined(scan, build) {
            Err(fault) => Err(fault),
            Ok(invocation) => Ok(Request::Invoke(invocation)),
        },
    }
}

/// Read a command line, without the program's own name.
pub fn parse_arguments(args: &Vec<String>, build: Build) -> (r: Result<Request, ArgumentFault>)
    ensures
        r == requested(args@, build),
{
    match scan_arguments(args) {
        Err(fault) => Err(fault),
        Ok(Scanned::Version) => Ok(Request::Version),
        Ok(Scanned::Help) => Ok(Request::Help),
        Ok(Scanned::Arguments(scan)) => match combine(scan, build) {
            Err(fault) => Err(fault),
            Ok(invocation) => Ok(Request::Invoke(invocation)),
        },
    }
}

/// The tray's controls never reach a command other than pairing, nor one that was not told to
/// send the tray its events; and the service mode never reaches another platform than Windows.
pub proof fn private_controls_stay_private(args: Seq<String>, build: Build)
    ensures
        requested(args, build) matches Ok(Request::Invoke(invocation)) ==> {
            &&& invocation.tray_events || invocation.replace_pending_pairing ==> invocation.command
                == AgentCommand::Pair
            &&& invocation.tray_cancel_event is Some || invocation.tray_deadline_seconds is Some
                || invocation.tray_activation_stdin ==> invocation.tray_events
            &&& invocation.windows_service ==> build.platform == Platform::Windows
                && invocation.command == AgentCommand::Run
            &&& invocation.doctor_delivery ==> invocation.command == AgentCommand::Doctor
        },
{
}

/// Without arguments the agent runs, and reports for human readers.
pub proof fn no_arguments_run_the_agent(build: Build)
    ensures
        requested(Seq::empty(), build) matches Ok(Request::Invoke(invocation)) && invocation.command
            == AgentCommand::Run && invocation.output_mode == OutputMode::Human,
{
}

/// What each word of the command line means; no other word means anything.
pub proof fn what_the_words_mean(given: Seq<char>)
    ensures
        meaning("run"@) == Some(Argument::Command(AgentCommand::Run)),
        meaning("once"@) == Some(Argument::Command(AgentCommand::Once)),
        meaning("probe"@) == Some(Argument::Command(AgentCommand::Probe)),
        meaning("pair"@) == Some(Argument::Command(AgentCommand::Pair)),
        meaning("doctor"@) == Some(Argument::Command(AgentCommand::Doctor)),
        meaning("status"@) == Some(Argument::Command(AgentCommand::Status)),
        meaning("--windows-service"@) == Some(Argument::WindowsService),
        meaning("--config"@) == Some(Argument::Config),
        meaning("--server"@) == Some(Argument::Server),
        meaning("--endpoint"@) == Some(Argument::Endpoint),
        meaning("--allow-insecure-http"@) == Some(Argument::AllowInsecureHttp),
        meaning("--tray-events"@) == Some(Argument::TrayEvents),
        meaning("--tray-cancel-event"@) == Some(Argument::TrayCancelEvent),
        meaning("--tray-deadline-seconds"@) == Some(Argument::TrayDeadline),
        meaning("--tray-activation-stdin"@) == Some(Argument::TrayActivationStdin),
        meaning("--replace-pending-pairing"@) == Some(Argument::ReplacePendingPairing),
        meaning("--output"@) == Some(Argument::Output),
        meaning("--json"@) == Some(Argument::Json),
        meaning("--delivery"@) == Some(Argument::Delivery),
        meaning("-V"@) == Some(Argument::Version),
        meaning("--version"@) == Some(Argument::Version),
        meaning("-h"@) == Some(Argument::Help),
        meaning("--help"@) == Some(Argument::Help),
        meaning(given) is Some ==> given == "run"@ || given == "once"@ || given == "probe"@ || given == "pair"@ || given == "doctor"@ || given == "status"@ || given == "--windows-service"@ || given == "--config"@ || given == "--server"@ || given == "--endpoint"@ || given == "--allow-insecure-http"@ || given == "--tray-events"@ || given == "--tray-cancel-event"@ || given == "--tray-deadline-seconds"@ || given == "--tray-activation-stdin"@ || given == "--replace-pending-pairing"@ || given == "--output"@ || given == "--json"@ || given == "--delivery"@ || given == "-V"@ || given == "--version"@ || given == "-h"@ || given == "--help"@,
{
    reveal_strlit("run");
    reveal_strlit("once");
    reveal_strlit("probe");
    reveal_strlit("pair");
    reveal_strlit("doctor");
    reveal_strlit("status");
    reveal_strlit("--windows-service");
    reveal_strlit("--config");
    reveal_strlit("--server");
    reveal_strlit("--endpoint");
    reveal_strlit("--allow-insecure-http");
    reveal_strlit("--tray-events");
    reveal_strlit("--tray-cancel-event");
    reveal_strlit("--tray-deadline-seconds");
    reveal_strlit("--tray-activation-stdin");
    reveal_strlit("--replace-pending-pairing");
    reveal_strlit("--output");
    reveal_strlit("--json");
    reveal_strlit("--delivery");
    reveal_strlit("-V");
    reveal_strlit("--version");
    reveal_strlit("-h");
    reveal_strlit("--help");
    assert("run"@.len() == 3);
    assert("once"@.len() == 4);
    assert("probe"@.len() == 5);
    assert("pair"@.len() == 4);
    assert("doctor"@.len() == 6);
    assert("status"@.len() == 6);
    assert("--windows-service"@.len() == 17);
    assert("--config"@.len() == 8);
    assert("--server"@.len() == 8);
    assert("--endpoint"@.len() == 10);
    assert("--allow-insecure-http"@.len() == 21);
    assert("--tray-events"@.len() == 13);
    assert("--tray-cancel-event"@.len() == 19);
    assert("--tray-deadline-seconds"@.len() == 23);
    assert("--tray-activation-stdin"@.len() == 23);
    assert("--replace-pending-pairing"@.len() == 25);
    assert("--output"@.len() == 8);
    assert("--json"@.len() == 6);
    assert("--delivery"@.len() == 10);
    assert("-V"@.len() == 2);
    assert("--version"@.len() == 9);
    assert("-h"@.len() == 2);
    assert("--help"@.len() == 6);
    assert("once"@[0] != "pair"@[0]);
    assert("doctor"@[0] != "status"@[0]);
    assert("--config"@[2] != "--server"@[2]);
    assert("--tray-deadline-seconds"@[7] != "--tray-activation-stdin"@[7]);
    assert("--config"@[2] != "--output"@[2]);
    assert("--server"@[2] != "--output"@[2]);
    assert("doctor"@[0] != "--json"@[0]);
    assert("status"@[0] != "--json"@[0]);
    assert("--endpoint"@[2] != "--delivery"@[2]);
    assert("-V"@[1] != "-h"@[1]);
    assert("doctor"@[0] != "--help"@[0]);
    assert("status"@[0] != "--help"@[0]);
    assert("--json"@[2] != "--help"@[2]);
}

/// An option sets its own setting and no other: a switch sets its flag, and an option with a value
/// takes the word behind it, as it stands, for its own setting; without one it is refused.
pub proof fn an_option_sets_its_own_setting(scan: Scan, given: String, first: bool, value: String)
    ensures
        ({
            let with = taken(scan, given, first, Some(value));
            let without = taken(scan, given, first, None);
            let kept = |after: Scan, took: bool|
                Ok::<Taken, ArgumentFault>(Taken::More { scan: after, value: took });
            &&& meaning(given@) == Some(Argument::Endpoint) ==> with == kept(
                Scan { endpoint_override: Some(value), ..scan },
                true,
            ) && without == Err::<Taken, ArgumentFault>(
                ArgumentFault::MissingValue(Argument::Endpoint),
            )
            &&& meaning(given@) == Some(Argument::Server) ==> with == kept(
                Scan { server_override: Some(value), ..scan },
                true,
            ) && without == Err::<Taken, ArgumentFault>(
                ArgumentFault::MissingValue(Argument::Server),
            )
            &&& meaning(given@) == Some(Argument::Config) ==> with == kept(
                Scan { config_path: Some(value), ..scan },
                true,
            ) && without == Err::<Taken, ArgumentFault>(
                ArgumentFault::MissingValue(Argument::Config),
            )
            &&& meaning(given@) == Some(Argument::TrayCancelEvent) && scan.tray_cancel_event is None
                ==> with == kept(Scan { tray_cancel_event: Some(value), ..scan }, true)
            &&& meaning(given@) == Some(Argument::TrayDeadline) && scan.tray_deadline_seconds is None
                && (text::unsigned_value(value@) matches Some(seconds) && seconds <= u64::MAX)
                ==> with == kept(
                Scan {
                    tray_deadline_seconds: Some(text::unsigned_value(value@)->0 as u64),
                    ..scan
                },
                true,
            )
            &&& meaning(given@) == Some(Argument::Output) && scan.output_mode is None && value@
                == "json"@ ==> with == kept(
                Scan { output_mode: Some(OutputMode::Json), ..scan },
                true,
            )
            &&& meaning(given@) == Some(Argument::Output) && scan.output_mode is None && value@
                == "human"@ ==> with == kept(
                Scan { output_mode: Some(OutputMode::Human), ..scan },
                true,
            )
            &&& meaning(given@) == Some(Argument::Output) && scan.output_mode is None && value@
                != "human"@ && value@ != "json"@ ==> with == Err::<Taken, ArgumentFault>(
                ArgumentFault::OutputFormat { given: value },
            )
            &&& meaning(given@) == Some(Argument::Json) && scan.output_mode is None ==> with == kept(
                Scan { output_mode: Some(OutputMode::Json), ..scan },
                false,
            )
            &&& meaning(given@) == Some(Argument::AllowInsecureHttp) ==> with == kept(
                Scan { allow_insecure_http: true, ..scan },
                false,
            )
            &&& meaning(given@) == Some(Argument::TrayEvents) && !scan.tray_events ==> with == kept(
                Scan { tray_events: true, ..scan },
                false,
            )
            &&& meaning(given@) == Some(Argument::TrayActivationStdin)
                && !scan.tray_activation_stdin ==> with == kept(
                Scan { tray_activation_stdin: true, ..scan },
                false,
            )
            &&& meaning(given@) == Some(Argument::ReplacePendingPairing)
                && !scan.replace_pending_pairing ==> with == kept(
                Scan { replace_pending_pairing: true, ..scan },
                false,
            )
            &&& meaning(given@) == Some(Argument::Delivery) && !scan.doctor_delivery ==> with
                == kept(Scan { doctor_delivery: true, ..scan }, false)
            &&& meaning(given@) == Some(Argument::WindowsService) && first && !scan.windows_service
                ==> with == kept(Scan { windows_service: true, ..scan }, false)
            &&& meaning(given@) == Some(Argument::WindowsService) && !first ==> with == Err::<
                Taken,
                ArgumentFault,
            >(ArgumentFault::ServiceNotFirst)
            &&& meaning(given@) matches Some(Argument::Command(command)) ==> with
                == match scan.command {
                None => kept(Scan { command: Some(command), ..scan }, false),
                Some(selected) => Err(
                    ArgumentFault::MultipleCommands { selected, spelling: given },
                ),
            }
            &&& meaning(given@) == Some(Argument::Version) ==> with == Ok::<Taken, ArgumentFault>(
                Taken::Version,
            )
            &&& meaning(given@) == Some(Argument::Help) && !scan.windows_service ==> with == Ok::<
                Taken,
                ArgumentFault,
            >(Taken::Help)
            &&& meaning(given@) is None ==> with == Err::<Taken, ArgumentFault>(
                ArgumentFault::Unknown { given },
            )
        }),
{
    reveal_strlit("json");
    reveal_strlit("human");
    assert("json"@.len() != "human"@.len());
}

/// What is given twice is refused, but for the options whose last value counts.
pub proof fn what_may_not_be_repeated(scan: Scan, given: String, next: Option<String>)
    ensures
        ({
            let refused = taken(scan, given, true, next) is Err;
            &&& meaning(given@) == Some(Argument::TrayEvents) && scan.tray_events ==> refused
            &&& meaning(given@) == Some(Argument::TrayCancelEvent) && scan.tray_cancel_event is Some
                ==> refused
            &&& meaning(given@) == Some(Argument::TrayDeadline) && scan.tray_deadline_seconds
                is Some ==> refused
            &&& meaning(given@) == Some(Argument::TrayActivationStdin)
                && scan.tray_activation_stdin ==> refused
            &&& meaning(given@) == Some(Argument::ReplacePendingPairing)
                && scan.replace_pending_pairing ==> refused
            &&& meaning(given@) == Some(Argument::Output) && scan.output_mode is Some ==> refused
            &&& meaning(given@) == Some(Argument::Json) && scan.output_mode is Some ==> refused
            &&& meaning(given@) == Some(Argument::Delivery) && scan.doctor_delivery ==> refused
            &&& meaning(given@) == Some(Argument::Help) && scan.windows_service ==> refused
        }),
{
}

/// The words are read one after the other to the end, each value with its option; the first that is
/// refused ends it, and so do the version and the help.
pub proof fn words_are_read_in_order(args: Seq<String>, at: int, scan: Scan)
    requires
        0 <= at,
    ensures
        at >= args.len() ==> scanned(args, at, scan) == Ok::<Scanned, ArgumentFault>(
            Scanned::Arguments(scan),
        ),
        at < args.len() ==> {
            let next = if at + 1 < args.len() {
                Some(args[at + 1])
            } else {
                None
            };
            match taken(scan, args[at], at == 0, next) {
                Err(fault) => scanned(args, at, scan) == Err::<Scanned, ArgumentFault>(fault),
                Ok(Taken::Version) => scanned(args, at, scan) == Ok::<Scanned, ArgumentFault>(
                    Scanned::Version,
                ),
                Ok(Taken::Help) => scanned(args, at, scan) == Ok::<Scanned, ArgumentFault>(
                    Scanned::Help,
                ),
                Ok(Taken::More { scan: after, value: true }) => scanned(args, at, scan) == scanned(
                    args,
                    at + 2,
                    after,
                ),
                Ok(Taken::More { scan: after, value: false }) => scanned(args, at, scan)
                    == scanned(args, at + 1, after),
            }
        },
{
}

/// What was read is an invocation exactly where its options go together, and it then says what was
/// read: the command is the one that was named, or the resident one, and the output is for people
/// where no other was chosen.
pub proof fn what_an_invocation_says(scan: Scan, build: Build)
    ensures
        ({
            let command = match scan.command {
                Some(command) => command,
                None => AgentCommand::Run,
            };
            let controls = scan.tray_cancel_event is Some || scan.tray_deadline_seconds is Some
                || scan.tray_activation_stdin;
            let pair = command == AgentCommand::Pair;
            let event_good = scan.tray_cancel_event matches Some(name) ==> build.platform
                == Platform::Windows && text::begins(name@, "Local\\UnionCAgentPairCancel-"@)
                && is_secret(name@.skip("Local\\UnionCAgentPairCancel-"@.len() as int));
            &&& combined(scan, build) is Ok <==> {
                &&& scan.doctor_delivery ==> command == AgentCommand::Doctor
                &&& scan.windows_service ==> build.platform == Platform::Windows && command
                    == AgentCommand::Run
                &&& scan.tray_events ==> pair
                &&& controls ==> scan.tray_events && pair
                &&& scan.replace_pending_pairing ==> pair
                &&& scan.tray_deadline_seconds matches Some(seconds) ==> 60 <= seconds <= 3600
                &&& event_good
            }
            &&& combined(scan, build) matches Ok(said) ==> {
                &&& said.command == command
                &&& said.windows_service == scan.windows_service
                &&& said.config_path == scan.config_path
                &&& said.server_override == scan.server_override
                &&& said.endpoint_override == scan.endpoint_override
                &&& said.allow_insecure_http == scan.allow_insecure_http
                &&& said.tray_events == scan.tray_events
                &&& said.tray_cancel_event == scan.tray_cancel_event
                &&& said.tray_deadline_seconds == scan.tray_deadline_seconds
                &&& said.tray_activation_stdin == scan.tray_activation_stdin
                &&& said.replace_pending_pairing == scan.replace_pending_pairing
                &&& scan.output_mode matches Some(mode) ==> said.output_mode == mode
                &&& scan.output_mode is None ==> said.output_mode == OutputMode::Human
                &&& said.doctor_delivery == scan.doctor_delivery
            }
        }),
{
}

/// A command line is what its words come to: an invocation where they go together, and else the
/// fault, the version or the help.
pub proof fn what_a_command_line_comes_to(args: Seq<String>, build: Build, scan: Scan)
    ensures
        scanned(args, 0, empty_scan()) == Ok::<Scanned, ArgumentFault>(Scanned::Arguments(scan))
            ==> match combined(scan, build) {
            Ok(said) => requested(args, build) == Ok::<Request, ArgumentFault>(
                Request::Invoke(said),
            ),
            Err(fault) => requested(args, build) == Err::<Request, ArgumentFault>(fault),
        },
        scanned(args, 0, empty_scan()) is Err ==> requested(args, build) is Err,
        scanned(args, 0, empty_scan()) == Ok::<Scanned, ArgumentFault>(Scanned::Version)
            ==> requested(args, build) == Ok::<Request, ArgumentFault>(Request::Version),
        scanned(args, 0, empty_scan()) == Ok::<Scanned, ArgumentFault>(Scanned::Help) ==> requested(
            args,
            build,
        ) == Ok::<Request, ArgumentFault>(Request::Help),
        empty_scan().command is None && empty_scan().endpoint_override is None
            && empty_scan().server_override is None && empty_scan().config_path is None
            && !empty_scan().allow_insecure_http && !empty_scan().tray_events
            && !empty_scan().windows_service && empty_scan().output_mode is None
            && !empty_scan().doctor_delivery && !empty_scan().replace_pending_pairing,
{
}

} // verus!
