use vstd::prelude::*;

use crate::config::{CliError, UiLanguage};
use crate::user_service::{current_manager, manager_of, TargetOs, UserServiceManager};

verus! {

/// What the serve screen offers.
#[derive(Debug, Clone, Copy, PartialEq, Eq, Structural)]
pub enum ServeAction {
    StartForeground,
    StopForeground,
    InstallUserService,
    StartUserService,
    StopUserService,
}

/// How the user service is named: by its manager, or generically where the
/// platform has none.
pub open spec fn service_name(os: TargetOs) -> Seq<char> {
    match manager_of(os) {
        Some(m) => m.display_name_spec(),
        None => "user service"@,
    }
}

/// The title of an action in the language.
pub open spec fn action_title(a: ServeAction, lang: UiLanguage, os: TargetOs) -> Seq<char> {
    let service = service_name(os);
    match (lang, a) {
        (UiLanguage::ZhCn, ServeAction::StartForeground) => "启动服务（本进程）"@,
        (UiLanguage::En, ServeAction::StartForeground) => "Start server (in-process)"@,
        (UiLanguage::ZhCn, ServeAction::StopForeground) => "停止服务（本进程）"@,
        (UiLanguage::En, ServeAction::StopForeground) => "Stop server (in-process)"@,
        (UiLanguage::ZhCn, ServeAction::InstallUserService) => "安装 "@ + service + "（并立即启动）"@,
        (UiLanguage::En, ServeAction::InstallUserService) => "Install "@ + service + " (and start now)"@,
        (UiLanguage::ZhCn, ServeAction::StartUserService) => "启动 "@ + service,
        (UiLanguage::En, ServeAction::StartUserService) => "Start "@ + service,
        (UiLanguage::ZhCn, ServeAction::StopUserService) => "停止 "@ + service,
        (UiLanguage::En, ServeAction::StopUserService) => "Stop "@ + service,
    }
}

fn service_name_exec(os: TargetOs) -> (s: &'static str)
    ensures
        s@ == service_name(os),
{
    match current_manager(os) {
        Some(m) => m.display_name(),
        None => "user service",
    }
}

fn joined(a: &str, b: &str, c: &str) -> (s: String)
    ensures
        s@ == a@ + b@ + c@,
{
    let mut s = a.to_string();
    s.append(b);
    s.append(c);
    s
}

fn joined2(a: &str, b: &str) -> (s: String)
    ensures
        s@ == a@ + b@,
{
    let mut s = a.to_string();
    s.append(b);
    s
}

impl ServeAction {
    pub fn title(self, lang: UiLanguage, os: TargetOs) -> (s: String)
        ensures
            s@ == action_title(self, lang, os),
    {
        let service = service_name_exec(os);
        match (lang, self) {
            (UiLanguage::ZhCn, ServeAction::StartForeground) => "启动服务（本进程）".to_string(),
            (UiLanguage::En, ServeAction::StartForeground) => "Start server (in-process)".to_string(),
            (UiLanguage::ZhCn, ServeAction::StopForeground) => "停止服务（本进程）".to_string(),
            (UiLanguage::En, ServeAction::StopForeground) => "Stop server (in-process)".to_string(),
            (UiLanguage::ZhCn, ServeAction::InstallUserService) => joined("安装 ", service, "（并立即启动）"),
            (UiLanguage::En, ServeAction::InstallUserService) => joined("Install ", service, " (and start now)"),
            (UiLanguage::ZhCn, ServeAction::StartUserService) => joined2("启动 ", service),
            (UiLanguage::En, ServeAction::StartUserService) => joined2("Start ", service),
            (UiLanguage::ZhCn, ServeAction::StopUserService) => joined2("停止 ", service),
            (UiLanguage::En, ServeAction::StopUserService) => joined2("Stop ", service),
        }
    }
}

/// The actions the serve screen lists: start or stop the in-process server;
/// then, where the platform has a user service manager, installing the
/// service and starting or stopping it as its known state calls for (both
/// when the state is unknown).
pub open spec fn serve_actions(os: TargetOs, foreground_running: bool, active: Option<bool>) -> Seq<
    ServeAction,
> {
    let first = if foreground_running {
        seq![ServeAction::StopForeground]
    } else {
        seq![ServeAction::StartForeground]
    };
    if manager_of(os) is Some {
        first + seq![ServeAction::InstallUserService] + match active {
            Some(true) => seq![ServeAction::StopUserService],
            Some(false) => seq![ServeAction::StartUserService],
            None => seq![ServeAction::StartUserService, ServeAction::StopUserService],
        }
    } else {
        first
    }
}

pub fn actions(os: TargetOs, foreground_running: bool, user_service_active: Option<bool>) -> (v: Vec<
    ServeAction,
>)
    ensures
        v@ == serve_actions(os, foreground_running, user_service_active),
{
    let mut out: Vec<ServeAction> = Vec::new();
    if foreground_running {
        out.push(ServeAction::StopForeground);
    } else {
        out.push(ServeAction::StartForeground);
    }
    if current_manager(os).is_some() {
        out.push(ServeAction::InstallUserService);
        match user_service_active {
            Some(true) => out.push(ServeAction::StopUserService),
            Some(false) => out.push(ServeAction::StartUserService),
            None => {
                out.push(ServeAction::StartUserService);
                out.push(ServeAction::StopUserService);
            },
        }
    }
    assert(out@ =~= serve_actions(os, foreground_running, user_service_active));
    out
}

/// The serve screen: the selected action, the last error, and what is known
/// of the user service.
#[derive(Debug, Clone)]
pub struct State {
    pub menu: Option<usize>,
    pub error: Option<String>,
    pub user_service_active: Option<bool>,
}

impl State {
    pub fn new() -> (s: Self)
        ensures
            s.menu == Some(0usize),
            s.error is None,
            s.user_service_active is None,
    {
        State { menu: Some(0), error: None, user_service_active: None }
    }

    /// Entering the screen clears the error and makes sure an action is
    /// selected.
    pub fn enter(&mut self)
        ensures
            final(self).error is None,
            final(self).menu == (match old(self).menu {
                Some(i) => Some(i),
                None => Some(0usize),
            }),
            final(self).user_service_active == old(self).user_service_active,
    {
        self.error = None;
        if self.menu.is_none() {
            self.menu = Some(0);
        }
    }

    /// Records what the manager reported: nothing is known without a manager;
    /// an error leaves the state as it was.
    pub fn refresh_user_service_status(&mut self, probe: Option<Result<bool, CliError>>) -> (r: Result<
        (),
        CliError,
    >)
        ensures
            final(self).menu == old(self).menu,
            match probe {
                None => r is Ok && final(self).user_service_active is None,
                Some(Ok(b)) => r is Ok && final(self).user_service_active == Some(b),
                Some(Err(e)) => r == Err::<(), CliError>(e) && final(self).user_service_active
                    == old(self).user_service_active,
            },
    {
        match probe {
            None => {
                self.user_service_active = None;
                Ok(())
            },
            Some(Ok(b)) => {
                self.user_service_active = Some(b);
                Ok(())
            },
            Some(Err(e)) => Err(e),
        }
    }
}

} // verus!
