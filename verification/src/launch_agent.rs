use vstd::prelude::*;

use crate::config::CliError;
use crate::text::{replace_all, replace_str, trim, trim_str};
use crate::user_service::{command_failure, command_failure_text, service_command, ServiceCommand, TargetOs};

verus! {

pub const USER_SERVICE_LABEL: &'static str = "io.github.darkatse.tt-sync";

pub const USER_SERVICE_FILE: &'static str = "io.github.darkatse.tt-sync.plist";

/// The error on a platform other than macOS.
pub open spec fn unsupported_text() -> Seq<char> {
    "LaunchAgent user service (io.github.darkatse.tt-sync) is only supported on macOS"@
}

fn unsupported() -> (e: CliError)
    ensures
        e.is_config(unsupported_text()),
{
    CliError::Config(
        "LaunchAgent user service (io.github.darkatse.tt-sync) is only supported on macOS".to_string(),
    )
}

/// Text escaped for XML: `&`, `<`, `>`, `"` and `'` become entities, `&` first.
pub open spec fn xml_escaped(s: Seq<char>) -> Seq<char> {
    replace_all(
        replace_all(
            replace_all(replace_all(replace_all(s, "&"@, "&amp;"@), "<"@, "&lt;"@), ">"@, "&gt;"@),
            "\""@,
            "&quot;"@,
        ),
        "'"@,
        "&apos;"@,
    )
}

pub fn xml_escape(s: &str) -> (r: String)
    ensures
        r@ == xml_escaped(s@),
{
    proof {
        reveal_strlit("&");
        reveal_strlit("<");
        reveal_strlit(">");
        reveal_strlit("\"");
        reveal_strlit("'");
    }
    let a = replace_str(s, "&", "&amp;");
    let b = replace_str(a.as_str(), "<", "&lt;");
    let c = replace_str(b.as_str(), ">", "&gt;");
    let d = replace_str(c.as_str(), "\"", "&quot;");
    replace_str(d.as_str(), "'", "&apos;")
}

/// One program argument of the property list.
pub open spec fn plist_arg_line(arg: Seq<char>) -> Seq<char> {
    "        <string>"@ + xml_escaped(arg) + "</string>"@
}

/// The property list of the agent: it runs `serve` with the state directory,
/// at load, and keeps it alive.
pub open spec fn plist_text(exe: Seq<char>, state_dir: Seq<char>) -> Seq<char> {
    "<?xml version=\"1.0\" encoding=\"UTF-8\"?>\n<!DOCTYPE plist PUBLIC \"-//Apple//DTD PLIST 1.0//EN\" \"http://www.apple.com/DTDs/PropertyList-1.0.dtd\">\n<plist version=\"1.0\">\n<dict>\n    <key>Label</key>\n    <string>"@
        + USER_SERVICE_LABEL@ + "</string>\n    <key>ProgramArguments</key>\n    <array>\n"@
        + plist_arg_line(exe) + "\n"@ + plist_arg_line("serve"@) + "\n"@ + plist_arg_line(
        "--state-dir"@,
    ) + "\n"@ + plist_arg_line(state_dir)
        + "\n    </array>\n    <key>RunAtLoad</key>\n    <true/>\n    <key>KeepAlive</key>\n    <true/>\n</dict>\n</plist>\n"@
}

fn push_arg_line(out: &mut String, arg: &str)
    ensures
        final(out)@ == old(out)@ + plist_arg_line(arg@),
{
    let e = xml_escape(arg);
    out.append("        <string>");
    out.append(e.as_str());
    out.append("</string>");
}

pub fn render_launch_agent_plist(exe: &str, state_dir: &str) -> (r: String)
    ensures
        r@ == plist_text(exe@, state_dir@),
{
    let mut r = "<?xml version=\"1.0\" encoding=\"UTF-8\"?>\n<!DOCTYPE plist PUBLIC \"-//Apple//DTD PLIST 1.0//EN\" \"http://www.apple.com/DTDs/PropertyList-1.0.dtd\">\n<plist version=\"1.0\">\n<dict>\n    <key>Label</key>\n    <string>".to_string();
    r.append(USER_SERVICE_LABEL);
    r.append("</string>\n    <key>ProgramArguments</key>\n    <array>\n");
    push_arg_line(&mut r, exe);
    r.append("\n");
    push_arg_line(&mut r, "serve");
    r.append("\n");
    push_arg_line(&mut r, "--state-dir");
    r.append("\n");
    push_arg_line(&mut r, state_dir);
    r.append("\n    </array>\n    <key>RunAtLoad</key>\n    <true/>\n    <key>KeepAlive</key>\n    <true/>\n</dict>\n</plist>\n");
    r
}

/// Where the property list goes: `Library/LaunchAgents/<file>` under the home
/// directory; an error when there is no home directory.
pub fn launch_agent_path(home: Option<&str>) -> (r: Result<String, CliError>)
    ensures
        match home {
            Some(h) => r matches Ok(p) && p@ == crate::config::join_path(
                crate::config::join_path(crate::config::join_path(h@, "Library"@), "LaunchAgents"@),
                USER_SERVICE_FILE@,
            ),
            None => r matches Err(e) && e.is_config("home directory is unavailable"@),
        },
{
    match home {
        Some(h) => {
            let a = crate::config::join_path_exec(h, "Library");
            let b = crate::config::join_path_exec(a.as_str(), "LaunchAgents");
            Ok(crate::config::join_path_exec(b.as_str(), USER_SERVICE_FILE))
        },
        None => Err(CliError::Config("home directory is unavailable".to_string())),
    }
}

/// The launchd domain of the user with this id.
pub open spec fn gui_domain_text(uid: Seq<char>) -> Seq<char> {
    "gui/"@ + uid
}

pub fn gui_domain(uid: &str) -> (r: String)
    ensures
        r@ == gui_domain_text(uid@),
{
    let mut r = "gui/".to_string();
    r.append(uid);
    r
}

/// The launchd name of the service for the user with this id.
pub open spec fn service_target_text(uid: Seq<char>) -> Seq<char> {
    gui_domain_text(uid) + "/"@ + USER_SERVICE_LABEL@
}

pub fn service_target(uid: &str) -> (r: String)
    ensures
        r@ == service_target_text(uid@),
{
    let mut r = gui_domain(uid);
    r.append("/");
    r.append(USER_SERVICE_LABEL);
    r
}

/// The user id that `id -u` printed, or the error that shows how it failed.
pub fn uid_from_output(success: bool, status: &str, stdout: &str, stderr: &str) -> (r: Result<
    String,
    CliError,
>)
    ensures
        success ==> (r matches Ok(u) && u@ == trim(stdout@)),
        !success ==> (r matches Err(CliError::Io(m)) && m@ == command_failure_text(
            "id -u"@,
            status@,
            stdout@,
            stderr@,
        )),
{
    if !success {
        return Err(command_failure("id -u", status, stdout, stderr));
    }
    Ok(trim_str(stdout))
}

/// The shape of a `launchctl` run with these arguments.
pub open spec fn launchctl_shape(args: Seq<Seq<char>>) -> (Seq<char>, Seq<Seq<char>>) {
    ("launchctl"@, args)
}

fn launchctl(a: String, b: String, c: String) -> (r: ServiceCommand)
    ensures
        r.shape() == launchctl_shape(seq![a@, b@, c@]),
{
    let mut args: Vec<String> = Vec::new();
    args.push(a);
    args.push(b);
    args.push(c);
    let r = service_command("launchctl", args);
    assert(r.args@.map_values(|x: String| x@) =~= seq![a@, b@, c@]);
    r
}

fn launchctl2(a: String, b: String) -> (r: ServiceCommand)
    ensures
        r.shape() == launchctl_shape(seq![a@, b@]),
{
    let mut args: Vec<String> = Vec::new();
    args.push(a);
    args.push(b);
    let r = service_command("launchctl", args);
    assert(r.args@.map_values(|x: String| x@) =~= seq![a@, b@]);
    r
}

/// `launchctl bootstrap` of the property list into the user's domain.
pub open spec fn bootstrap_shape(uid: Seq<char>, plist_path: Seq<char>) -> (Seq<char>, Seq<Seq<char>>) {
    launchctl_shape(seq!["bootstrap"@, gui_domain_text(uid), plist_path])
}

/// `launchctl bootout` of the property list from the user's domain.
pub open spec fn bootout_shape(uid: Seq<char>, plist_path: Seq<char>) -> (Seq<char>, Seq<Seq<char>>) {
    launchctl_shape(seq!["bootout"@, gui_domain_text(uid), plist_path])
}

/// `launchctl kickstart -k` of the service.
pub open spec fn kickstart_shape(uid: Seq<char>) -> (Seq<char>, Seq<Seq<char>>) {
    launchctl_shape(seq!["kickstart"@, "-k"@, service_target_text(uid)])
}

fn bootstrap(uid: &str, plist_path: &str) -> (c: ServiceCommand)
    ensures
        c.shape() == bootstrap_shape(uid@, plist_path@),
{
    launchctl("bootstrap".to_string(), gui_domain(uid), plist_path.to_string())
}

fn bootout(uid: &str, plist_path: &str) -> (c: ServiceCommand)
    ensures
        c.shape() == bootout_shape(uid@, plist_path@),
{
    launchctl("bootout".to_string(), gui_domain(uid), plist_path.to_string())
}

fn kickstart(uid: &str) -> (c: ServiceCommand)
    ensures
        c.shape() == kickstart_shape(uid@),
{
    launchctl("kickstart".to_string(), "-k".to_string(), service_target(uid))
}

/// On macOS, the property list to write for the executable and state
/// directory; elsewhere, the error that says LaunchAgents are macOS only.
pub fn install_enable_now_user_service(os: TargetOs, exe: &str, state_dir: &str) -> (r: Result<
    String,
    CliError,
>)
    ensures
        os != TargetOs::MacOs ==> (r matches Err(e) && e.is_config(unsupported_text())),
        os == TargetOs::MacOs ==> (r matches Ok(p) && p@ == plist_text(exe@, state_dir@)),
{
    if os != TargetOs::MacOs {
        return Err(unsupported());
    }
    Ok(render_launch_agent_plist(exe, state_dir))
}

/// The runs that load a freshly written property list: a running service is
/// booted out first, then the list is bootstrapped and the service kickstarted.
pub fn reload_commands(uid: &str, plist_path: &str, active: bool) -> (r: Vec<ServiceCommand>)
    ensures
        active ==> r@.len() == 3 && r@[0].shape() == bootout_shape(uid@, plist_path@) && r@[1].shape()
            == bootstrap_shape(uid@, plist_path@) && r@[2].shape() == kickstart_shape(uid@),
        !active ==> r@.len() == 2 && r@[0].shape() == bootstrap_shape(uid@, plist_path@) && r@[1].shape()
            == kickstart_shape(uid@),
{
    let mut r: Vec<ServiceCommand> = Vec::new();
    if active {
        r.push(bootout(uid, plist_path));
    }
    r.push(bootstrap(uid, plist_path));
    r.push(kickstart(uid));
    r
}

/// On macOS, the runs that start the service: a running one is only
/// kickstarted, a stopped one is bootstrapped first.
pub fn start_user_service(os: TargetOs, uid: &str, plist_path: &str, active: bool) -> (r: Result<
    Vec<ServiceCommand>,
    CliError,
>)
    ensures
        os != TargetOs::MacOs ==> (r matches Err(e) && e.is_config(unsupported_text())),
        os == TargetOs::MacOs && active ==> (r matches Ok(v) && v@.len() == 1 && v@[0].shape()
            == kickstart_shape(uid@)),
        os == TargetOs::MacOs && !active ==> (r matches Ok(v) && v@.len() == 2 && v@[0].shape()
            == bootstrap_shape(uid@, plist_path@) && v@[1].shape() == kickstart_shape(uid@)),
{
    if os != TargetOs::MacOs {
        return Err(unsupported());
    }
    let mut r: Vec<ServiceCommand> = Vec::new();
    if !active {
        r.push(bootstrap(uid, plist_path));
    }
    r.push(kickstart(uid));
    Ok(r)
}

/// On macOS, the run that stops the service.
pub fn stop_user_service(os: TargetOs, uid: &str, plist_path: &str) -> (r: Result<ServiceCommand, CliError>)
    ensures
        os != TargetOs::MacOs ==> (r matches Err(e) && e.is_config(unsupported_text())),
        os == TargetOs::MacOs ==> (r matches Ok(c) && c.shape() == bootout_shape(uid@, plist_path@)),
{
    if os != TargetOs::MacOs {
        return Err(unsupported());
    }
    Ok(bootout(uid, plist_path))
}

/// On macOS, the run whose success says that the service is loaded.
pub fn is_user_service_active(os: TargetOs, uid: &str) -> (r: Result<ServiceCommand, CliError>)
    ensures
        os != TargetOs::MacOs ==> (r matches Err(e) && e.is_config(unsupported_text())),
        os == TargetOs::MacOs ==> (r matches Ok(c) && c.shape() == launchctl_shape(
            seq!["print"@, service_target_text(uid@)],
        )),
{
    if os != TargetOs::MacOs {
        return Err(unsupported());
    }
    Ok(launchctl2("print".to_string(), service_target(uid)))
}

/// The outcome of a `launchctl` run: nothing on success, otherwise the error
/// that shows its exit status and outputs.
pub fn launchctl_outcome(success: bool, status: &str, stdout: &str, stderr: &str) -> (r: Result<(), CliError>)
    ensures
        success ==> r is Ok,
        !success ==> (r matches Err(CliError::Io(m)) && m@ == command_failure_text(
            "launchctl"@,
            status@,
            stdout@,
            stderr@,
        )),
{
    if success {
        return Ok(());
    }
    Err(command_failure("launchctl", status, stdout, stderr))
}

} // verus!
