use vstd::prelude::*;

use crate::config::CliError;

verus! {

/// The operating system the tool runs on.
#[derive(Debug, Clone, Copy, PartialEq, Eq, Structural)]
pub enum TargetOs {
    Linux,
    MacOs,
    Windows,
    Other,
}

/// A program to run, with its arguments.
#[derive(Debug, Clone)]
pub struct ServiceCommand {
    pub program: String,
    pub args: Vec<String>,
}

impl ServiceCommand {
    /// The program and the views of its arguments.
    pub open spec fn shape(&self) -> (Seq<char>, Seq<Seq<char>>) {
        (self.program@, self.args@.map_values(|a: String| a@))
    }
}

/// A command of `program` with these arguments.
pub fn service_command(program: &str, args: Vec<String>) -> (c: ServiceCommand)
    ensures
        c.program@ == program@,
        c.args@ == args@,
{
    ServiceCommand { program: program.to_string(), args }
}

/// Literal arguments, in order.
pub fn string_args(args: &[&str]) -> (v: Vec<String>)
    ensures
        v@.len() == args@.len(),
        forall|i: int| 0 <= i < args@.len() ==> #[trigger] v@[i]@ == args@[i]@,
{
    let mut v: Vec<String> = Vec::new();
    let mut i: usize = 0;
    while i < args.len()
        invariant
            i <= args@.len(),
            v@.len() == i,
            forall|j: int| 0 <= j < i ==> #[trigger] v@[j]@ == args@[j]@,
        decreases args@.len() - i,
    {
        v.push(args[i].to_string());
        i = i + 1;
    }
    v
}

/// The service manager that runs the server in the background for the user.
#[derive(Debug, Clone, Copy, PartialEq, Eq, Structural)]
pub enum UserServiceManager {
    SystemdUser,
    LaunchAgent,
    TaskScheduler,
}

impl UserServiceManager {
    pub open spec fn display_name_spec(self) -> Seq<char> {
        match self {
            UserServiceManager::SystemdUser => "systemd --user service"@,
            UserServiceManager::LaunchAgent => "LaunchAgent"@,
            UserServiceManager::TaskScheduler => "Task Scheduler (beta)"@,
        }
    }

    /// How the manager is named to the user.
    pub fn display_name(self) -> (s: &'static str)
        ensures
            s@ == self.display_name_spec(),
    {
        match self {
            UserServiceManager::SystemdUser => "systemd --user service",
            UserServiceManager::LaunchAgent => "LaunchAgent",
            UserServiceManager::TaskScheduler => "Task Scheduler (beta)",
        }
    }

    pub open spec fn status_hint_spec(self) -> Seq<char> {
        match self {
            UserServiceManager::SystemdUser => "systemctl --user status tt-sync.service"@,
            UserServiceManager::LaunchAgent => "launchctl print gui/$(id -u)/"@
                + crate::launch_agent::USER_SERVICE_LABEL@,
            UserServiceManager::TaskScheduler => "schtasks /Query /TN \""@
                + crate::windows_task_scheduler::USER_SERVICE_TASK_NAME@ + "\" /V /FO LIST"@,
        }
    }

    /// The command a user runs to see the service's status.
    pub fn status_hint(self) -> (s: String)
        ensures
            s@ == self.status_hint_spec(),
    {
        match self {
            UserServiceManager::SystemdUser => "systemctl --user status tt-sync.service".to_string(),
            UserServiceManager::LaunchAgent => {
                let mut s = "launchctl print gui/$(id -u)/".to_string();
                s.append(crate::launch_agent::USER_SERVICE_LABEL);
                s
            },
            UserServiceManager::TaskScheduler => {
                let mut s = "schtasks /Query /TN \"".to_string();
                s.append(crate::windows_task_scheduler::USER_SERVICE_TASK_NAME);
                s.append("\" /V /FO LIST");
                s
            },
        }
    }
}

/// The manager of each operating system: systemd on Linux, launchd on macOS,
/// the Task Scheduler on Windows, none elsewhere.
pub open spec fn manager_of(os: TargetOs) -> Option<UserServiceManager> {
    match os {
        TargetOs::Linux => Some(UserServiceManager::SystemdUser),
        TargetOs::MacOs => Some(UserServiceManager::LaunchAgent),
        TargetOs::Windows => Some(UserServiceManager::TaskScheduler),
        TargetOs::Other => None,
    }
}

pub fn current_manager(os: TargetOs) -> (m: Option<UserServiceManager>)
    ensures
        m == manager_of(os),
{
    match os {
        TargetOs::Linux => Some(UserServiceManager::SystemdUser),
        TargetOs::MacOs => Some(UserServiceManager::LaunchAgent),
        TargetOs::Windows => Some(UserServiceManager::TaskScheduler),
        TargetOs::Other => None,
    }
}

/// The error of a platform with no user service manager.
pub open spec fn unsupported_text() -> Seq<char> {
    "user service management is not supported on this platform"@
}

/// The manager that installs and enables the service, or the error of a
/// platform that has none.
pub fn install_enable_now(os: TargetOs) -> (r: Result<UserServiceManager, CliError>)
    ensures
        match manager_of(os) {
            Some(m) => r == Ok::<UserServiceManager, CliError>(m),
            None => r matches Err(e) && e.is_config(unsupported_text()),
        },
{
    manager_or_error(os)
}

/// The manager that starts the service, or the error of a platform that has
/// none.
pub fn start(os: TargetOs) -> (r: Result<UserServiceManager, CliError>)
    ensures
        match manager_of(os) {
            Some(m) => r == Ok::<UserServiceManager, CliError>(m),
            None => r matches Err(e) && e.is_config(unsupported_text()),
        },
{
    manager_or_error(os)
}

/// The manager that stops the service, or the error of a platform that has
/// none.
pub fn stop(os: TargetOs) -> (r: Result<UserServiceManager, CliError>)
    ensures
        match manager_of(os) {
            Some(m) => r == Ok::<UserServiceManager, CliError>(m),
            None => r matches Err(e) && e.is_config(unsupported_text()),
        },
{
    manager_or_error(os)
}

/// The manager that reports whether the service runs, or the error of a
/// platform that has none.
pub fn is_active(os: TargetOs) -> (r: Result<UserServiceManager, CliError>)
    ensures
        match manager_of(os) {
            Some(m) => r == Ok::<UserServiceManager, CliError>(m),
            None => r matches Err(e) && e.is_config(unsupported_text()),
        },
{
    manager_or_error(os)
}

fn manager_or_error(os: TargetOs) -> (r: Result<UserServiceManager, CliError>)
    ensures
        match manager_of(os) {
            Some(m) => r == Ok::<UserServiceManager, CliError>(m),
            None => r matches Err(e) && e.is_config(unsupported_text()),
        },
{
    match current_manager(os) {
        Some(m) => Ok(m),
        None => Err(
            CliError::Config("user service management is not supported on this platform".to_string()),
        ),
    }
}

/// The error of a service command that did not succeed: the tool, its exit
/// status, and what it wrote to standard output and standard error.
pub open spec fn command_failure_text(
    tool: Seq<char>,
    status: Seq<char>,
    stdout: Seq<char>,
    stderr: Seq<char>,
) -> Seq<char> {
    tool + " failed ("@ + status + "): "@ + stdout + "\n"@ + stderr
}

pub fn command_failure(tool: &str, status: &str, stdout: &str, stderr: &str) -> (e: CliError)
    ensures
        e matches CliError::Io(m) && m@ == command_failure_text(tool@, status@, stdout@, stderr@),
{
    let mut m = tool.to_string();
    m.append(" failed (");
    m.append(status);
    m.append("): ");
    m.append(stdout);
    m.append("\n");
    m.append(stderr);
    CliError::Io(m)
}

} // verus!
