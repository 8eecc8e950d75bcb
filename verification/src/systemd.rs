use vstd::prelude::*;

use crate::config::CliError;
use crate::text::{chars_of, replace_all, replace_str, trim, trim_str};
use crate::user_service::{command_failure, command_failure_text, service_command, string_args, ServiceCommand, TargetOs};

verus! {

pub const USER_SERVICE_UNIT: &'static str = "tt-sync.service";

/// The error on a platform other than Linux.
pub open spec fn unsupported_text() -> Seq<char> {
    "systemd user services (tt-sync.service) are only supported on Linux"@
}

fn unsupported() -> (e: CliError)
    ensures
        e.is_config(unsupported_text()),
{
    CliError::Config("systemd user services (tt-sync.service) are only supported on Linux".to_string())
}

/// A value quoted for a unit file: in double quotes, with backslashes and
/// double quotes escaped by a backslash.
pub open spec fn systemd_quoted(s: Seq<char>) -> Seq<char> {
    "\""@ + replace_all(replace_all(s, "\\"@, "\\\\"@), "\""@, "\\\""@) + "\""@
}

pub fn systemd_quote(s: &str) -> (r: String)
    ensures
        r@ == systemd_quoted(s@),
{
    proof {
        reveal_strlit("\\");
        reveal_strlit("\"");
    }
    let a = replace_str(s, "\\", "\\\\");
    let b = replace_str(a.as_str(), "\"", "\\\"");
    let mut r = "\"".to_string();
    r.append(b.as_str());
    r.append("\"");
    r
}

/// The unit file that runs `serve` with the given state directory.
pub open spec fn unit_file_text(exe: Seq<char>, state_dir: Seq<char>) -> Seq<char> {
    "[Unit]\nDescription=TT-Sync server\n\n[Service]\nExecStart="@ + systemd_quoted(exe)
        + " serve --state-dir "@ + systemd_quoted(state_dir)
        + "\nRestart=on-failure\nRestartSec=2\n\n[Install]\nWantedBy=default.target\n"@
}

pub fn render_unit_file(exe: &str, state_dir: &str) -> (r: String)
    ensures
        r@ == unit_file_text(exe@, state_dir@),
{
    let exe_arg = systemd_quote(exe);
    let state_arg = systemd_quote(state_dir);
    let mut r = "[Unit]\nDescription=TT-Sync server\n\n[Service]\nExecStart=".to_string();
    r.append(exe_arg.as_str());
    r.append(" serve --state-dir ");
    r.append(state_arg.as_str());
    r.append("\nRestart=on-failure\nRestartSec=2\n\n[Install]\nWantedBy=default.target\n");
    r
}

/// Where the unit file goes: `systemd/user/tt-sync.service` under the
/// user's config directory (the current directory where there is none).
pub fn user_unit_path(config_dir: Option<&str>) -> (r: String)
    ensures
        r@ == crate::config::join_path(
            crate::config::join_path(
                crate::config::join_path(
                    match config_dir {
                        Some(d) => d@,
                        None => "."@,
                    },
                    "systemd"@,
                ),
                "user"@,
            ),
            USER_SERVICE_UNIT@,
        ),
{
    let base = match config_dir {
        Some(d) => d.to_string(),
        None => ".".to_string(),
    };
    let a = crate::config::join_path_exec(base.as_str(), "systemd");
    let b = crate::config::join_path_exec(a.as_str(), "user");
    crate::config::join_path_exec(b.as_str(), USER_SERVICE_UNIT)
}

fn systemctl(args: &[&str]) -> (c: ServiceCommand)
    ensures
        c.program@ == "systemctl"@,
        c.args@.len() == args@.len(),
        forall|i: int| 0 <= i < args@.len() ==> #[trigger] c.args@[i]@ == args@[i]@,
{
    service_command("systemctl", string_args(args))
}

/// On Linux, the unit file to write for the executable and state directory,
/// then the two `systemctl` runs that reload the units and enable and start
/// the service; elsewhere, the error that says systemd is Linux only.
pub fn install_enable_now_user_service(os: TargetOs, exe: &str, state_dir: &str) -> (r: Result<
    (String, Vec<ServiceCommand>),
    CliError,
>)
    ensures
        os != TargetOs::Linux ==> (r matches Err(e) && e.is_config(unsupported_text())),
        os == TargetOs::Linux ==> (r matches Ok((unit, cmds)) && unit@ == unit_file_text(exe@, state_dir@)
            && cmds@.len() == 2 && cmds@[0].shape() == ("systemctl"@, seq!["--user"@, "daemon-reload"@])
            && cmds@[1].shape() == (
            "systemctl"@,
            seq!["--user"@, "enable"@, "--now"@, "tt-sync.service"@],
        )),
{
    if os != TargetOs::Linux {
        return Err(unsupported());
    }
    let unit = render_unit_file(exe, state_dir);
    let mut cmds: Vec<ServiceCommand> = Vec::new();
    let reload = systemctl(&["--user", "daemon-reload"]);
    let enable = systemctl(&["--user", "enable", "--now", USER_SERVICE_UNIT]);
    cmds.push(reload);
    cmds.push(enable);
    assert(cmds@[0].args@.map_values(|a: String| a@) =~= seq!["--user"@, "daemon-reload"@]);
    assert(cmds@[1].args@.map_values(|a: String| a@) =~= seq![
        "--user"@,
        "enable"@,
        "--now"@,
        "tt-sync.service"@,
    ]);
    Ok((unit, cmds))
}

/// On Linux, the `systemctl` run that starts the service.
pub fn start_user_service(os: TargetOs) -> (r: Result<ServiceCommand, CliError>)
    ensures
        os != TargetOs::Linux ==> (r matches Err(e) && e.is_config(unsupported_text())),
        os == TargetOs::Linux ==> (r matches Ok(c) && c.shape() == (
            "systemctl"@,
            seq!["--user"@, "start"@, "tt-sync.service"@],
        )),
{
    if os != TargetOs::Linux {
        return Err(unsupported());
    }
    let c = systemctl(&["--user", "start", USER_SERVICE_UNIT]);
    assert(c.args@.map_values(|a: String| a@) =~= seq!["--user"@, "start"@, "tt-sync.service"@]);
    Ok(c)
}

/// On Linux, the `systemctl` run that stops the service.
pub fn stop_user_service(os: TargetOs) -> (r: Result<ServiceCommand, CliError>)
    ensures
        os != TargetOs::Linux ==> (r matches Err(e) && e.is_config(unsupported_text())),
        os == TargetOs::Linux ==> (r matches Ok(c) && c.shape() == (
            "systemctl"@,
            seq!["--user"@, "stop"@, "tt-sync.service"@],
        )),
{
    if os != TargetOs::Linux {
        return Err(unsupported());
    }
    let c = systemctl(&["--user", "stop", USER_SERVICE_UNIT]);
    assert(c.args@.map_values(|a: String| a@) =~= seq!["--user"@, "stop"@, "tt-sync.service"@]);
    Ok(c)
}

/// On Linux, the `systemctl` run that asks whether the service is active.
pub fn is_user_service_active(os: TargetOs) -> (r: Result<ServiceCommand, CliError>)
    ensures
        os != TargetOs::Linux ==> (r matches Err(e) && e.is_config(unsupported_text())),
        os == TargetOs::Linux ==> (r matches Ok(c) && c.shape() == (
            "systemctl"@,
            seq!["--user"@, "is-active"@, "tt-sync.service"@],
        )),
{
    if os != TargetOs::Linux {
        return Err(unsupported());
    }
    let c = systemctl(&["--user", "is-active", USER_SERVICE_UNIT]);
    assert(c.args@.map_values(|a: String| a@) =~= seq!["--user"@, "is-active"@, "tt-sync.service"@]);
    Ok(c)
}

/// The states `systemctl is-active` reports for a service that is not running.
pub open spec fn is_inactive_state(s: Seq<char>) -> bool {
    s == "inactive"@ || s == "failed"@ || s == "activating"@ || s == "deactivating"@ || s == "unknown"@
}

fn str_is(a: &str, b: &str) -> (r: bool)
    ensures
        r == (a@ == b@),
{
    let x = chars_of(a);
    let y = chars_of(b);
    crate::text::chars_eq(x.as_slice(), y.as_slice())
}

/// Reads what `systemctl is-active` printed: `active` means running, the
/// states of a stopped service mean not running, and anything else is an
/// error that shows the exit status and both outputs.
pub fn is_active_from_output(status: &str, stdout: &str, stderr: &str) -> (r: Result<bool, CliError>)
    ensures
        trim(stdout@) == "active"@ ==> r == Ok::<bool, CliError>(true),
        is_inactive_state(trim(stdout@)) ==> r == Ok::<bool, CliError>(false),
        trim(stdout@) != "active"@ && !is_inactive_state(trim(stdout@)) ==> (r matches Err(
            CliError::Io(m),
        ) && m@ == "systemctl is-active returned unexpected output ("@ + status@ + "): "@ + stdout@
            + "\n"@ + stderr@),
{
    let state = trim_str(stdout);
    proof {
        reveal_strlit("active");
        reveal_strlit("inactive");
        reveal_strlit("failed");
        reveal_strlit("activating");
        reveal_strlit("deactivating");
        reveal_strlit("unknown");
    }
    if str_is(state.as_str(), "active") {
        assert(!is_inactive_state(state@)) by {
            assert("active"@[0] != "inactive"@[0]);
            assert("active"@[0] != "failed"@[0]);
            assert("active"@[0] != "deactivating"@[0]);
            assert("active"@.len() != "activating"@.len());
            assert("active"@.len() != "unknown"@.len());
        }
        return Ok(true);
    }
    if str_is(state.as_str(), "inactive") || str_is(state.as_str(), "failed") || str_is(
        state.as_str(),
        "activating",
    ) || str_is(state.as_str(), "deactivating") || str_is(state.as_str(), "unknown") {
        return Ok(false);
    }
    let mut m = "systemctl is-active returned unexpected output (".to_string();
    m.append(status);
    m.append("): ");
    m.append(stdout);
    m.append("\n");
    m.append(stderr);
    Err(CliError::Io(m))
}

/// The outcome of a `systemctl` run: nothing on success, otherwise the error
/// that shows its exit status and outputs.
pub fn systemctl_outcome(success: bool, status: &str, stdout: &str, stderr: &str) -> (r: Result<(), CliError>)
    ensures
        success ==> r is Ok,
        !success ==> (r matches Err(CliError::Io(m)) && m@ == command_failure_text(
            "systemctl"@,
            status@,
            stdout@,
            stderr@,
        )),
{
    if success {
        return Ok(());
    }
    Err(command_failure("systemctl", status, stdout, stderr))
}

} // verus!
