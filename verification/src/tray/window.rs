//! The tray's window: its menu, its messages and its exit.

use crate::text;
use crate::tray::service::{ServiceAction, ServiceState};
use vstd::prelude::*;

verus! {

pub const COMMAND_OPEN_LOCAL: usize = 1001;

pub const COMMAND_PAIR: usize = 1003;

pub const COMMAND_STATUS: usize = 1004;

pub const COMMAND_SERVICE: usize = 1005;

pub const COMMAND_EXIT: usize = 1099;

/// What the service entry of the menu says.
pub fn service_label(action: ServiceAction) -> (r: &'static str)
    ensures
        r@ == match action {
            ServiceAction::Start => "启动 Agent 服务（需要管理员权限）"@,
            ServiceAction::Stop => "停止 Agent 服务（需要管理员权限）"@,
        },
{
    match action {
        ServiceAction::Start => "启动 Agent 服务（需要管理员权限）",
        ServiceAction::Stop => "停止 Agent 服务（需要管理员权限）",
    }
}

/// What a chosen entry of the menu does.
#[derive(Clone, Copy, PartialEq, Eq, Structural, Debug)]
pub enum MenuChoice {
    Nothing,
    /// Open the page at its status.
    OpenStatus,
    /// Open the page at the pairing.
    OpenPairing,
    ChangeService(ServiceAction),
    /// Ask whether to stop the service and leave.
    ConfirmExit,
}

/// What a chosen entry of the menu does; `offered` is the action that the menu offered.
pub fn handle_tray_command(command: usize, offered: ServiceAction) -> (r: MenuChoice)
    ensures
        r == if command == COMMAND_OPEN_LOCAL || command == COMMAND_STATUS {
            MenuChoice::OpenStatus
        } else if command == COMMAND_PAIR {
            MenuChoice::OpenPairing
        } else if command == COMMAND_SERVICE {
            MenuChoice::ChangeService(offered)
        } else if command == COMMAND_EXIT {
            MenuChoice::ConfirmExit
        } else {
            MenuChoice::Nothing
        },
{
    if command == COMMAND_OPEN_LOCAL || command == COMMAND_STATUS {
        MenuChoice::OpenStatus
    } else if command == COMMAND_PAIR {
        MenuChoice::OpenPairing
    } else if command == COMMAND_SERVICE {
        MenuChoice::ChangeService(offered)
    } else if command == COMMAND_EXIT {
        MenuChoice::ConfirmExit
    } else {
        MenuChoice::Nothing
    }
}

/// What came to the window.
#[derive(Clone, Copy, PartialEq, Eq, Structural, Debug)]
pub enum WindowEvent {
    /// The task bar was made anew.
    TaskbarCreated,
    OpenConfiguration,
    /// The helper has stopped the service so that the tray can leave.
    ServiceStopped,
    RefreshStatus,
    RightClick,
    DoubleClick,
    /// Another sign from the icon.
    OtherClick,
    Close,
    Destroy,
    Other,
}

/// What the window does.
#[derive(Clone, Copy, PartialEq, Eq, Structural, Debug)]
pub enum WindowAction {
    AddIcon,
    OpenConfiguration,
    /// Look whether the service has stopped, and leave if so.
    CheckExit,
    Nothing,
    UpdateTooltip,
    ShowMenu,
    DestroyWindow,
    /// Take the icon away and end the message loop.
    Quit,
    Default,
}

/// The tray's exit, which waits for the service to stop.
#[derive(Clone, Copy, PartialEq, Eq, Structural, Debug)]
pub struct ExitFlow {
    pub pending: bool,
}

/// What a tray that waits to leave does once it is told that the service has stopped.
#[derive(Clone, Copy, PartialEq, Eq, Structural, Debug)]
pub enum ExitCheck {
    Leave,
    /// The service still is in another state.
    Stay(ServiceState),
    /// Its state is not known.
    Unknown,
}

impl ExitFlow {
    /// The user wants to leave; whether nothing of the kind is under way yet.
    pub fn request(&mut self) -> (r: bool)
        ensures
            r == !old(self).pending,
            final(self).pending,
    {
        let free = !self.pending;
        self.pending = true;
        free
    }

    /// The exit is called off: the helper could not be started, it failed, or its news could not
    /// be passed on.
    pub fn call_off(&mut self)
        ensures
            !final(self).pending,
    {
        self.pending = false;
    }

    /// What the window does about an event.
    pub fn handle(&mut self, event: WindowEvent) -> (r: WindowAction)
        ensures
            r == match event {
                WindowEvent::TaskbarCreated => WindowAction::AddIcon,
                WindowEvent::OpenConfiguration | WindowEvent::DoubleClick =>
                    WindowAction::OpenConfiguration,
                WindowEvent::ServiceStopped => if old(self).pending {
                    WindowAction::CheckExit
                } else {
                    WindowAction::Nothing
                },
                WindowEvent::RefreshStatus => WindowAction::UpdateTooltip,
                WindowEvent::RightClick => WindowAction::ShowMenu,
                WindowEvent::OtherClick => WindowAction::Nothing,
                WindowEvent::Close => WindowAction::DestroyWindow,
                WindowEvent::Destroy => WindowAction::Quit,
                WindowEvent::Other => WindowAction::Default,
            },
            final(self).pending == (old(self).pending && event != WindowEvent::ServiceStopped),
    {
        match event {
            WindowEvent::TaskbarCreated => WindowAction::AddIcon,
            WindowEvent::OpenConfiguration | WindowEvent::DoubleClick =>
                WindowAction::OpenConfiguration,
            WindowEvent::ServiceStopped => {
                let waited = self.pending;
                self.pending = false;
                if waited {
                    WindowAction::CheckExit
                } else {
                    WindowAction::Nothing
                }
            },
            WindowEvent::RefreshStatus => WindowAction::UpdateTooltip,
            WindowEvent::RightClick => WindowAction::ShowMenu,
            WindowEvent::OtherClick => WindowAction::Nothing,
            WindowEvent::Close => WindowAction::DestroyWindow,
            WindowEvent::Destroy => WindowAction::Quit,
            WindowEvent::Other => WindowAction::Default,
        }
    }
}

/// Whether the tray leaves: only a service that is seen to be stopped lets it.
pub fn check_exit(state: Option<ServiceState>) -> (r: ExitCheck)
    ensures
        r == match state {
            Some(ServiceState::Stopped) => ExitCheck::Leave,
            Some(other) => ExitCheck::Stay(other),
            None => ExitCheck::Unknown,
        },
{
    match state {
        Some(ServiceState::Stopped) => ExitCheck::Leave,
        Some(other) => ExitCheck::Stay(other),
        None => ExitCheck::Unknown,
    }
}

/// What the user is told where the tray stays because of the state of the service.
pub fn still_running_text(state: ServiceState) -> (r: String)
    ensures
        r@ == "Agent 服务尚未停止（"@ + state.labelled() + "），托盘将继续运行。"@,
{
    text::cat3("Agent 服务尚未停止（", state.label(), "），托盘将继续运行。")
}

/// The address that opens the page at a section, with the ticket for a session.
pub fn configuration_address(origin: &str, ticket: &str, section: &str) -> (r: Option<String>)
    ensures
        match r {
            Some(address) => (section@ == "status"@ || section@ == "pair"@) && address@ == origin@
                + "/#"@ + ticket@ + ":"@ + section@,
            None => section@ != "status"@ && section@ != "pair"@,
        },
{
    if !text::same(section, "status") && !text::same(section, "pair") {
        return None;
    }
    Some(text::cat5(origin, "/#", ticket, ":", section))
}

/// How many requests are served at once.
pub const MAX_HTTP_CONNECTIONS: usize = 16;

/// Whether one request more is served while so many are.
pub fn admits_connection(active: usize) -> (r: bool)
    ensures
        r == (active < MAX_HTTP_CONNECTIONS),
{
    active < MAX_HTTP_CONNECTIONS
}

/// What each entry of the menu asks for; any other number asks for nothing.
pub proof fn what_the_menu_asks_for(command: usize, offered: ServiceAction, r: MenuChoice)
    requires
        call_ensures(handle_tray_command, (command, offered), r),
    ensures
        r is OpenPairing <==> command == 1003,
        r is ConfirmExit <==> command == 1099,
        r is ChangeService <==> command == 1005,
        r matches MenuChoice::ChangeService(action) ==> action == offered,
        r is OpenStatus <==> command == 1001 || command == 1004,
{
}

/// The tray leaves only when the service is known to have stopped.
pub proof fn when_the_tray_leaves(state: Option<ServiceState>, r: ExitCheck)
    requires
        call_ensures(check_exit, (state,), r),
    ensures
        r is Leave <==> state == Some(ServiceState::Stopped),
        r is Unknown <==> state is None,
        r matches ExitCheck::Stay(seen) ==> state == Some(seen) && seen != ServiceState::Stopped,
{
}

/// An exit that was asked for once is not asked for again before it was called off or done; when
/// the service has stopped, only a tray that is to leave looks whether it may.
pub proof fn an_exit_is_asked_for_once()
    ensures
        forall|flow: &mut ExitFlow, event: WindowEvent, r: WindowAction| #[trigger]
            call_ensures(ExitFlow::handle, (flow, event), r) ==> {
                &&& r is CheckExit <==> event is ServiceStopped && (*flow).pending
                &&& (*final(flow)).pending <==> (*flow).pending && !(event is ServiceStopped)
                &&& r is Quit <==> event is Destroy
                &&& r is DestroyWindow <==> event is Close
                &&& r is AddIcon <==> event is TaskbarCreated
                &&& r is ShowMenu <==> event is RightClick
                &&& r is UpdateTooltip <==> event is RefreshStatus
                &&& r is OpenConfiguration <==> event is OpenConfiguration || event is DoubleClick
            },
{
}

} // verus!
