use vstd::prelude::*;

use crate::commands::{truncatable, truncate_id, truncated_id, yes_no};
use crate::config::{layout_debug_name, layout_debug_name_exec, CliError, LayoutMode, MountPaths};
use crate::output::{err_line, field_line, ok_line, styled_text, warn_line, Style};
use crate::peer::Permissions;
use crate::text::{decimal, decimal_chars, push_chars};

verus! {

/// The views of some lines of output.
pub open spec fn shown(v: Seq<String>) -> Seq<Seq<char>> {
    v.map_values(|s: String| s@)
}

pub open spec fn dim(c: bool, t: Seq<char>) -> Seq<char> {
    styled_text(t, "\x1b[2m"@, c)
}

pub open spec fn bold(c: bool, t: Seq<char>) -> Seq<char> {
    styled_text(t, "\x1b[1m"@, c)
}

pub open spec fn bold_green(c: bool, t: Seq<char>) -> Seq<char> {
    styled_text(t, "\x1b[1;32m"@, c)
}

/// A labeled value: two spaces, the label dimmed, two spaces, the value.
pub open spec fn field(c: bool, label: Seq<char>, value: Seq<char>) -> Seq<char> {
    "  "@ + dim(c, label) + "  "@ + value
}

pub open spec fn ok(c: bool, t: Seq<char>) -> Seq<char> {
    "  "@ + styled_text("✓"@, "\x1b[1;32m"@, c) + " "@ + t
}

pub open spec fn warn(c: bool, t: Seq<char>) -> Seq<char> {
    "  "@ + styled_text("!"@, "\x1b[1;33m"@, c) + " "@ + t
}

pub open spec fn err(c: bool, t: Seq<char>) -> Seq<char> {
    "  "@ + styled_text("✗"@, "\x1b[1;31m"@, c) + " "@ + t
}

/// The line a failed command ends with.
pub open spec fn error_text(c: bool, message: Seq<char>) -> Seq<char> {
    styled_text("error:"@, "\x1b[1;31m"@, c) + " "@ + message
}

pub fn error_report(style: &Style, message: &str) -> (s: String)
    ensures
        s@ == error_text(style.colored(), message@),
{
    let mut s = style.bold_red("error:").render();
    s.append(" ");
    s.append(message);
    s
}

fn joined(a: &str, b: &str) -> (s: String)
    ensures
        s@ == a@ + b@,
{
    let mut s = a.to_string();
    s.append(b);
    s
}

fn joined3(a: &str, b: &str, c: &str) -> (s: String)
    ensures
        s@ == a@ + b@ + c@,
{
    let mut s = a.to_string();
    s.append(b);
    s.append(c);
    s
}

/// The found folders, one field each.
pub open spec fn mount_fields(c: bool, m: MountPaths) -> Seq<Seq<char>> {
    seq![
        field(c, "Data root      "@, m.data_root@),
        field(c, "Default user   "@, m.default_user_root@),
        field(c, "Extensions root"@, m.extensions_root@),
    ]
}

fn push_mount_fields(out: &mut Vec<String>, style: &Style, m: &MountPaths)
    ensures
        shown(final(out)@) == shown(old(out)@) + mount_fields(style.colored(), *m),
{
    let ghost before = out@;
    out.push(field_line(style, "Data root      ", m.data_root.as_str()));
    out.push(field_line(style, "Default user   ", m.default_user_root.as_str()));
    out.push(field_line(style, "Extensions root", m.extensions_root.as_str()));
    assert(shown(out@) =~= shown(before) + mount_fields(style.colored(), *m));
}

/// The error of `init` when the config already exists.
pub fn already_initialized(config_path: &str) -> (e: CliError)
    ensures
        e.is_config(
            "already initialized (config exists at "@ + config_path@
                + "). Remove config.toml to re-initialize."@,
        ),
{
    CliError::Config(joined3("already initialized (config exists at ", config_path, "). Remove config.toml to re-initialize."))
}

/// The error of `init` when the folder is not a directory.
pub fn not_a_directory(path: &str) -> (e: CliError)
    ensures
        e.is_config("workspace path is not a directory: "@ + path@),
{
    CliError::Config(joined("workspace path is not a directory: ", path))
}

/// What `init` prints once the instance is set up.
pub open spec fn init_lines(
    c: bool,
    state_dir: Seq<char>,
    workspace_path: Seq<char>,
    layout: Seq<char>,
    mounts: MountPaths,
    public_url: Seq<char>,
    listen: Seq<char>,
    device_id: Seq<char>,
    spki: Seq<char>,
) -> Seq<Seq<char>> {
    seq![
        ""@,
        ok(c, "TT-Sync initialized"@),
        ""@,
        field(c, "State dir      "@, state_dir),
        field(c, "Workspace path "@, workspace_path),
        field(c, "Layout         "@, layout),
    ] + mount_fields(c, mounts) + seq![
        field(c, "Public URL     "@, public_url),
        field(c, "Listen         "@, listen),
        field(c, "Device ID      "@, device_id),
        field(c, "SPKI SHA-256   "@, spki),
        ""@,
        "  Next steps:"@,
        "    "@ + dim(c, "$"@) + " tt-sync serve"@,
        "    "@ + dim(c, "$"@) + " tt-sync pair open --rw"@,
        ""@,
    ]
}

pub fn init_report(
    style: &Style,
    state_dir: &str,
    workspace_path: &str,
    layout: &str,
    mounts: &MountPaths,
    public_url: &str,
    listen: &str,
    device_id: &str,
    spki: &str,
) -> (v: Vec<String>)
    ensures
        shown(v@) == init_lines(
            style.colored(),
            state_dir@,
            workspace_path@,
            layout@,
            *mounts,
            public_url@,
            listen@,
            device_id@,
            spki@,
        ),
{
    let ghost c = style.colored();
    let mut v: Vec<String> = Vec::new();
    v.push("".to_string());
    v.push(ok_line(style, "TT-Sync initialized"));
    v.push("".to_string());
    v.push(field_line(style, "State dir      ", state_dir));
    v.push(field_line(style, "Workspace path ", workspace_path));
    v.push(field_line(style, "Layout         ", layout));
    let ghost head = shown(v@);
    assert(head =~= seq![
        ""@,
        ok(c, "TT-Sync initialized"@),
        ""@,
        field(c, "State dir      "@, state_dir@),
        field(c, "Workspace path "@, workspace_path@),
        field(c, "Layout         "@, layout@),
    ]);
    push_mount_fields(&mut v, style, mounts);
    let ghost mid = shown(v@);
    let prompt = style.dim("$").render();
    v.push(field_line(style, "Public URL     ", public_url));
    v.push(field_line(style, "Listen         ", listen));
    v.push(field_line(style, "Device ID      ", device_id));
    v.push(field_line(style, "SPKI SHA-256   ", spki));
    v.push("".to_string());
    v.push("  Next steps:".to_string());
    v.push(joined3("    ", prompt.as_str(), " tt-sync serve"));
    v.push(joined3("    ", prompt.as_str(), " tt-sync pair open --rw"));
    v.push("".to_string());
    assert(shown(v@) =~= mid + seq![
        field(c, "Public URL     "@, public_url@),
        field(c, "Listen         "@, listen@),
        field(c, "Device ID      "@, device_id@),
        field(c, "SPKI SHA-256   "@, spki@),
        ""@,
        "  Next steps:"@,
        "    "@ + dim(c, "$"@) + " tt-sync serve"@,
        "    "@ + dim(c, "$"@) + " tt-sync pair open --rw"@,
        ""@,
    ]);
    v
}

/// What a running server is, as `serve` shows it.
#[derive(Debug, Clone)]
pub struct ServeFacts {
    pub listen: String,
    pub public_url: String,
    pub device_name: String,
    pub device_id: String,
    pub workspace_path: String,
    pub layout: LayoutMode,
    pub mounts: MountPaths,
    pub spki_sha256: String,
    pub state_dir: String,
}

pub open spec fn serve_lines(c: bool, f: ServeFacts) -> Seq<Seq<char>> {
    seq![
        ""@,
        "  "@ + bold_green(c, "▶"@) + " TT-Sync server running"@,
        ""@,
        field(c, "Listen         "@, f.listen@),
        field(c, "Public URL     "@, f.public_url@),
        field(c, "Device name    "@, f.device_name@),
        field(c, "Device ID      "@, f.device_id@),
        field(c, "Workspace path "@, f.workspace_path@),
        field(c, "Layout         "@, layout_debug_name(f.layout)),
    ] + mount_fields(c, f.mounts) + seq![
        field(c, "TLS            "@, "self-managed (SPKI pin)"@),
        field(c, "SPKI SHA-256   "@, f.spki_sha256@),
        field(c, "State dir      "@, f.state_dir@),
        ""@,
        "  Press "@ + dim(c, "Ctrl+C"@) + " to stop."@,
        ""@,
    ]
}

/// What `serve` prints once the server listens.
pub fn serve_report(style: &Style, f: &ServeFacts) -> (v: Vec<String>)
    ensures
        shown(v@) == serve_lines(style.colored(), *f),
{
    let ghost c = style.colored();
    let mut v: Vec<String> = Vec::new();
    v.push("".to_string());
    let mark = style.bold_green("▶").render();
    v.push(joined3("  ", mark.as_str(), " TT-Sync server running"));
    v.push("".to_string());
    v.push(field_line(style, "Listen         ", f.listen.as_str()));
    v.push(field_line(style, "Public URL     ", f.public_url.as_str()));
    v.push(field_line(style, "Device name    ", f.device_name.as_str()));
    v.push(field_line(style, "Device ID      ", f.device_id.as_str()));
    v.push(field_line(style, "Workspace path ", f.workspace_path.as_str()));
    v.push(field_line(style, "Layout         ", layout_debug_name_exec(f.layout)));
    let ghost head = shown(v@);
    assert(head =~= seq![
        ""@,
        "  "@ + bold_green(c, "▶"@) + " TT-Sync server running"@,
        ""@,
        field(c, "Listen         "@, f.listen@),
        field(c, "Public URL     "@, f.public_url@),
        field(c, "Device name    "@, f.device_name@),
        field(c, "Device ID      "@, f.device_id@),
        field(c, "Workspace path "@, f.workspace_path@),
        field(c, "Layout         "@, layout_debug_name(f.layout)),
    ]);
    push_mount_fields(&mut v, style, &f.mounts);
    let ghost mid = shown(v@);
    let key = style.dim("Ctrl+C").render();
    v.push(field_line(style, "TLS            ", "self-managed (SPKI pin)"));
    v.push(field_line(style, "SPKI SHA-256   ", f.spki_sha256.as_str()));
    v.push(field_line(style, "State dir      ", f.state_dir.as_str()));
    v.push("".to_string());
    v.push(joined3("  Press ", key.as_str(), " to stop."));
    v.push("".to_string());
    assert(shown(v@) =~= mid + seq![
        field(c, "TLS            "@, "self-managed (SPKI pin)"@),
        field(c, "SPKI SHA-256   "@, f.spki_sha256@),
        field(c, "State dir      "@, f.state_dir@),
        ""@,
        "  Press "@ + dim(c, "Ctrl+C"@) + " to stop."@,
        ""@,
    ]);
    v
}

/// What `serve` prints when it stops.
pub fn shutdown_report(style: &Style) -> (v: Vec<String>)
    ensures
        shown(v@) == seq![""@, "  "@ + dim(style.colored(), "•"@) + " Shutting down..."@],
{
    let mut v: Vec<String> = Vec::new();
    v.push("".to_string());
    let dot = style.dim("•").render();
    v.push(joined3("  ", dot.as_str(), " Shutting down..."));
    assert(shown(v@) =~= seq![""@, "  "@ + dim(style.colored(), "•"@) + " Shutting down..."@]);
    v
}

pub open spec fn yes_no_text(b: bool) -> Seq<char> {
    if b {
        "yes"@
    } else {
        "no"@
    }
}

pub open spec fn pair_open_lines(
    c: bool,
    uri: Seq<char>,
    expires: Seq<char>,
    p: Permissions,
    spki: Seq<char>,
) -> Seq<Seq<char>> {
    seq![
        ""@,
        ok(c, "Pairing session created"@),
        ""@,
        field(c, "Pair URI    "@, uri),
        field(c, "Expires     "@, expires),
        field(c, "Read        "@, yes_no_text(p.read)),
        field(c, "Write       "@, yes_no_text(p.write)),
        field(c, "Mirror del  "@, yes_no_text(p.mirror_delete)),
        field(c, "SPKI SHA-256"@, spki),
        ""@,
        "  Paste the Pair URI into TauriTavern to complete pairing."@,
        ""@,
    ]
}

/// The report of `pair open` shows each permission on its own line: line 5
/// says whether reading, line 6 whether writing and line 7 whether mirror
/// deletion is granted, each as `yes` or `no` of that permission alone.
/// Without color, the mirror line reads `  Mirror del    yes` or
/// `  Mirror del    no`.
pub proof fn lemma_pair_open_permission_lines(
    c: bool,
    uri: Seq<char>,
    expires: Seq<char>,
    p: Permissions,
    q: Permissions,
    spki: Seq<char>,
)
    ensures
        pair_open_lines(c, uri, expires, p, spki).len() == 12,
        pair_open_lines(c, uri, expires, p, spki)[5] == field(c, "Read        "@, if p.read { "yes"@ } else { "no"@ }),
        pair_open_lines(c, uri, expires, p, spki)[6] == field(c, "Write       "@, if p.write { "yes"@ } else { "no"@ }),
        pair_open_lines(c, uri, expires, p, spki)[7] == field(
            c,
            "Mirror del  "@,
            if p.mirror_delete { "yes"@ } else { "no"@ },
        ),
        pair_open_lines(false, uri, expires, p, spki)[7] == "  Mirror del    "@ + (if p.mirror_delete {
            "yes"@
        } else {
            "no"@
        }),
        q.mirror_delete == p.mirror_delete ==> pair_open_lines(c, uri, expires, p, spki)[7] == pair_open_lines(
            c,
            uri,
            expires,
            q,
            spki,
        )[7],
        q.write == p.write ==> pair_open_lines(c, uri, expires, p, spki)[6] == pair_open_lines(
            c,
            uri,
            expires,
            q,
            spki,
        )[6],
        q.read == p.read ==> pair_open_lines(c, uri, expires, p, spki)[5] == pair_open_lines(
            c,
            uri,
            expires,
            q,
            spki,
        )[5],
{
    assert("  "@ + "Mirror del  "@ + "  "@ =~= "  Mirror del    "@) by {
        reveal_strlit("  ");
        reveal_strlit("Mirror del  ");
        reveal_strlit("  Mirror del    ");
    }
    assert(("  "@ + "Mirror del  "@ + "  "@) + "yes"@ =~= "  "@ + "Mirror del  "@ + "  "@ + "yes"@);
    assert(("  "@ + "Mirror del  "@ + "  "@) + "no"@ =~= "  "@ + "Mirror del  "@ + "  "@ + "no"@);
}

/// What `pair open` prints for the session it created.
pub fn pair_open_report(style: &Style, uri: &str, expires: &str, p: Permissions, spki: &str) -> (v: Vec<String>)
    ensures
        shown(v@) == pair_open_lines(style.colored(), uri@, expires@, p, spki@),
{
    let mut v: Vec<String> = Vec::new();
    v.push("".to_string());
    v.push(ok_line(style, "Pairing session created"));
    v.push("".to_string());
    v.push(field_line(style, "Pair URI    ", uri));
    v.push(field_line(style, "Expires     ", expires));
    v.push(field_line(style, "Read        ", yes_no(p.read)));
    v.push(field_line(style, "Write       ", yes_no(p.write)));
    v.push(field_line(style, "Mirror del  ", yes_no(p.mirror_delete)));
    v.push(field_line(style, "SPKI SHA-256", spki));
    v.push("".to_string());
    v.push("  Paste the Pair URI into TauriTavern to complete pairing.".to_string());
    v.push("".to_string());
    assert(shown(v@) =~= pair_open_lines(style.colored(), uri@, expires@, p, spki@));
    v
}

/// The header of the `peers list` table.
pub open spec fn peers_table_header() -> Seq<Seq<char>> {
    seq!["Device ID"@, "Name"@, "Permissions"@, "Paired"@, "Last Sync"@]
}

pub fn peers_header() -> (v: Vec<&'static str>)
    ensures
        v@.map_values(|s: &str| s@) == peers_table_header(),
{
    let mut v: Vec<&'static str> = Vec::new();
    v.push("Device ID");
    v.push("Name");
    v.push("Permissions");
    v.push("Paired");
    v.push("Last Sync");
    assert(v@.map_values(|s: &str| s@) =~= peers_table_header());
    v
}

/// What `peers list` prints when no peer is paired.
pub fn no_peers_report(style: &Style) -> (v: Vec<String>)
    ensures
        shown(v@) == seq![""@, "  "@ + dim(style.colored(), "•"@) + " No paired peers."@, ""@],
{
    let mut v: Vec<String> = Vec::new();
    v.push("".to_string());
    let dot = style.dim("•").render();
    v.push(joined3("  ", dot.as_str(), " No paired peers."));
    v.push("".to_string());
    assert(shown(v@) =~= seq![""@, "  "@ + dim(style.colored(), "•"@) + " No paired peers."@, ""@]);
    v
}

/// What `peers revoke` prints: the name in bold and the shortened id.
pub fn revoke_report(style: &Style, device_name: &str, device_id: &str) -> (v: Vec<String>)
    requires
        truncatable(device_id@),
    ensures
        shown(v@) == seq![
            ""@,
            "  "@ + bold_green(style.colored(), "✓"@) + " Revoked peer "@ + bold(style.colored(), device_name@) + " ("@
                + truncated_id(device_id@) + ")"@,
            ""@,
        ],
{
    let mut v: Vec<String> = Vec::new();
    v.push("".to_string());
    let mark = style.bold_green("✓").render();
    let name = style.bold(device_name).render();
    let mut line = joined3("  ", mark.as_str(), " Revoked peer ");
    line.append(name.as_str());
    line.append(" (");
    let short = truncate_id(device_id);
    line.append(short.as_str());
    line.append(")");
    v.push(line);
    v.push("".to_string());
    assert(shown(v@) =~= seq![
        ""@,
        "  "@ + bold_green(style.colored(), "✓"@) + " Revoked peer "@ + bold(style.colored(), device_name@) + " ("@
            + truncated_id(device_id@) + ")"@,
        ""@,
    ]);
    v
}

/// What `cert show` prints.
pub fn cert_show_report(style: &Style, spki: &str, key_file: &str, cert_file: &str) -> (v: Vec<String>)
    ensures
        shown(v@) == seq![
            ""@,
            "  "@ + bold(style.colored(), "TLS Certificate"@),
            ""@,
            field(style.colored(), "SPKI SHA-256"@, spki@),
            field(style.colored(), "Key file    "@, key_file@),
            field(style.colored(), "Cert file   "@, cert_file@),
            field(style.colored(), "Mode        "@, "self-managed"@),
            ""@,
        ],
{
    let mut v: Vec<String> = Vec::new();
    v.push("".to_string());
    let title = style.bold("TLS Certificate").render();
    v.push(joined("  ", title.as_str()));
    v.push("".to_string());
    v.push(field_line(style, "SPKI SHA-256", spki));
    v.push(field_line(style, "Key file    ", key_file));
    v.push(field_line(style, "Cert file   ", cert_file));
    v.push(field_line(style, "Mode        ", "self-managed"));
    v.push("".to_string());
    let ghost c = style.colored();
    assert(shown(v@) =~= seq![
        ""@,
        "  "@ + bold(c, "TLS Certificate"@),
        ""@,
        field(c, "SPKI SHA-256"@, spki@),
        field(c, "Key file    "@, key_file@),
        field(c, "Cert file   "@, cert_file@),
        field(c, "Mode        "@, "self-managed"@),
        ""@,
    ]);
    v
}

/// The error of `cert rotate-leaf` without a key.
pub fn tls_key_missing() -> (e: CliError)
    ensures
        e.is_config("TLS key not found. Run `tt-sync init` first."@),
{
    CliError::Config("TLS key not found. Run `tt-sync init` first.".to_string())
}

/// What `cert rotate-leaf` prints: the pin it keeps.
pub fn rotate_report(style: &Style, spki: &str) -> (v: Vec<String>)
    ensures
        shown(v@) == seq![
            ""@,
            ok(style.colored(), "Leaf certificate rotated"@),
            ""@,
            field(style.colored(), "SPKI SHA-256"@, spki@),
            ""@,
            "  SPKI pin is "@ + bold_green(style.colored(), "unchanged"@) + " — existing paired clients remain valid."@,
            ""@,
        ],
{
    let mut v: Vec<String> = Vec::new();
    v.push("".to_string());
    v.push(ok_line(style, "Leaf certificate rotated"));
    v.push("".to_string());
    v.push(field_line(style, "SPKI SHA-256", spki));
    v.push("".to_string());
    let same = style.bold_green("unchanged").render();
    v.push(joined3("  SPKI pin is ", same.as_str(), " — existing paired clients remain valid."));
    v.push("".to_string());
    let ghost c = style.colored();
    assert(shown(v@) =~= seq![
        ""@,
        ok(c, "Leaf certificate rotated"@),
        ""@,
        field(c, "SPKI SHA-256"@, spki@),
        ""@,
        "  SPKI pin is "@ + bold_green(c, "unchanged"@) + " — existing paired clients remain valid."@,
        ""@,
    ]);
    v
}


/// What the doctor found of the config.
#[derive(Debug)]
pub struct ConfigFacts {
    pub layout: LayoutMode,
    pub workspace_path: String,
    /// The folders under the workspace, or why they could not be found.
    pub mounts: Result<MountPaths, String>,
    pub listen: String,
    /// Whether the listen address parses, or why not.
    pub listen_check: Result<(), String>,
}

/// What the doctor found of the TLS material: the pin and whether a server
/// configuration builds from it.
#[derive(Debug)]
pub struct TlsFacts {
    pub spki_sha256: String,
    pub server_config: Result<(), String>,
}

/// What the doctor found of `peers.json`.
#[derive(Debug)]
pub enum PeersFileFacts {
    Missing,
    Parsed(usize),
    ParseError(String),
    ReadError(String),
}

/// What the doctor found in a state directory that exists.
#[derive(Debug)]
pub struct DoctorFacts {
    pub config: Result<ConfigFacts, String>,
    /// The identity's name and id.
    pub identity: Result<(String, String), String>,
    pub tls: Result<TlsFacts, String>,
    pub peers: PeersFileFacts,
}

pub open spec fn config_lines(c: bool, f: Result<ConfigFacts, String>) -> Seq<Seq<char>> {
    match f {
        Ok(k) => seq![
            ok(c, "config.toml loaded"@),
            ok(c, "Layout: "@ + layout_debug_name(k.layout)),
            ok(c, "Workspace path: "@ + k.workspace_path@),
        ] + match k.mounts {
            Ok(m) => seq![
                ok(c, "Data root: "@ + m.data_root@),
                ok(c, "Default user: "@ + m.default_user_root@),
                ok(c, "Extensions root: "@ + m.extensions_root@),
            ],
            Err(e) => seq![err(c, "Mount derivation failed: "@ + e@)],
        } + match k.listen_check {
            Ok(()) => seq![ok(c, "Listen address valid: "@ + k.listen@)],
            Err(e) => seq![err(c, "Listen address invalid: "@ + e@)],
        },
        Err(e) => seq![err(c, "config.toml: "@ + e@)],
    }
}

pub open spec fn identity_lines(c: bool, f: Result<(String, String), String>) -> Seq<Seq<char>> {
    match f {
        Ok((name, id)) => seq![ok(c, "Identity: "@ + name@ + " ("@ + truncated_id(id@) + ")"@)],
        Err(e) => seq![err(c, "identity.json: "@ + e@)],
    }
}

pub open spec fn tls_lines(c: bool, f: Result<TlsFacts, String>) -> Seq<Seq<char>> {
    match f {
        Ok(t) => seq![ok(c, "TLS certificate loaded (SPKI: "@ + t.spki_sha256@ + ")"@)] + match t.server_config {
            Ok(()) => seq![ok(c, "TLS server config builds successfully"@)],
            Err(e) => seq![err(c, "TLS server config failed: "@ + e@)],
        },
        Err(e) => seq![err(c, "TLS: "@ + e@)],
    }
}

pub open spec fn peers_file_lines(c: bool, f: PeersFileFacts) -> Seq<Seq<char>> {
    match f {
        PeersFileFacts::Missing => seq![ok(c, "No peers.json (0 paired peers)"@)],
        PeersFileFacts::Parsed(n) => seq![ok(c, decimal(n as nat) + " paired peer(s)"@)],
        PeersFileFacts::ParseError(e) => seq![err(c, "peers.json parse error: "@ + e@)],
        PeersFileFacts::ReadError(e) => seq![err(c, "peers.json read error: "@ + e@)],
    }
}

/// What `doctor` prints: a title, then, when the state directory is
/// missing, only that and a hint; otherwise the config, identity, TLS and
/// peers checks in order.
pub open spec fn doctor_lines(c: bool, state_dir: Seq<char>, facts: Option<DoctorFacts>) -> Seq<Seq<char>> {
    seq![""@, "  "@ + bold(c, "TT-Sync Doctor"@), ""@] + match facts {
        None => seq![
            err(c, "State directory missing: "@ + state_dir),
            warn(c, "Run `tt-sync init` to initialize."@),
            ""@,
        ],
        Some(f) => seq![ok(c, "State directory exists: "@ + state_dir)] + config_lines(c, f.config)
            + identity_lines(c, f.identity) + tls_lines(c, f.tls) + peers_file_lines(c, f.peers) + seq![""@],
    }
}

/// The identity's id can be shortened where it is shown.
pub open spec fn identity_shortenable(facts: Option<DoctorFacts>) -> bool {
    facts matches Some(f) ==> (f.identity matches Ok((_, id)) ==> truncatable(id@))
}

fn push_config_lines(out: &mut Vec<String>, style: &Style, f: &Result<ConfigFacts, String>)
    ensures
        shown(final(out)@) == shown(old(out)@) + config_lines(style.colored(), *f),
{
    let ghost before = out@;
    let ghost c = style.colored();
    match f {
        Ok(k) => {
            out.push(ok_line(style, "config.toml loaded"));
            out.push(ok_line(style, joined("Layout: ", layout_debug_name_exec(k.layout)).as_str()));
            out.push(ok_line(style, joined("Workspace path: ", k.workspace_path.as_str()).as_str()));
            let ghost a = out@;
            assert(shown(a) =~= shown(before) + seq![
                ok(c, "config.toml loaded"@),
                ok(c, "Layout: "@ + layout_debug_name(k.layout)),
                ok(c, "Workspace path: "@ + k.workspace_path@),
            ]);
            match &k.mounts {
                Ok(m) => {
                    out.push(ok_line(style, joined("Data root: ", m.data_root.as_str()).as_str()));
                    out.push(ok_line(style, joined("Default user: ", m.default_user_root.as_str()).as_str()));
                    out.push(ok_line(style, joined("Extensions root: ", m.extensions_root.as_str()).as_str()));
                },
                Err(e) => {
                    out.push(err_line(style, joined("Mount derivation failed: ", e.as_str()).as_str()));
                },
            }
            let ghost b = out@;
            assert(shown(b) =~= shown(a) + match k.mounts {
                Ok(m) => seq![
                    ok(c, "Data root: "@ + m.data_root@),
                    ok(c, "Default user: "@ + m.default_user_root@),
                    ok(c, "Extensions root: "@ + m.extensions_root@),
                ],
                Err(e) => seq![err(c, "Mount derivation failed: "@ + e@)],
            });
            match &k.listen_check {
                Ok(()) => {
                    out.push(ok_line(style, joined("Listen address valid: ", k.listen.as_str()).as_str()));
                },
                Err(e) => {
                    out.push(err_line(style, joined("Listen address invalid: ", e.as_str()).as_str()));
                },
            }
        },
        Err(e) => {
            out.push(err_line(style, joined("config.toml: ", e.as_str()).as_str()));
        },
    }
    assert(shown(out@) =~= shown(before) + config_lines(c, *f));
}

fn push_identity_lines(out: &mut Vec<String>, style: &Style, f: &Result<(String, String), String>)
    requires
        f matches Ok((_, id)) ==> truncatable(id@),
    ensures
        shown(final(out)@) == shown(old(out)@) + identity_lines(style.colored(), *f),
{
    let ghost before = out@;
    match f {
        Ok((name, id)) => {
            let mut t = joined3("Identity: ", name.as_str(), " (");
            let short = truncate_id(id.as_str());
            t.append(short.as_str());
            t.append(")");
            out.push(ok_line(style, t.as_str()));
        },
        Err(e) => {
            out.push(err_line(style, joined("identity.json: ", e.as_str()).as_str()));
        },
    }
    assert(shown(out@) =~= shown(before) + identity_lines(style.colored(), *f));
}

fn push_tls_lines(out: &mut Vec<String>, style: &Style, f: &Result<TlsFacts, String>)
    ensures
        shown(final(out)@) == shown(old(out)@) + tls_lines(style.colored(), *f),
{
    let ghost before = out@;
    match f {
        Ok(t) => {
            out.push(ok_line(style, joined3("TLS certificate loaded (SPKI: ", t.spki_sha256.as_str(), ")").as_str()));
            match &t.server_config {
                Ok(()) => {
                    out.push(ok_line(style, "TLS server config builds successfully"));
                },
                Err(e) => {
                    out.push(err_line(style, joined("TLS server config failed: ", e.as_str()).as_str()));
                },
            }
        },
        Err(e) => {
            out.push(err_line(style, joined("TLS: ", e.as_str()).as_str()));
        },
    }
    assert(shown(out@) =~= shown(before) + tls_lines(style.colored(), *f));
}

fn push_peers_file_lines(out: &mut Vec<String>, style: &Style, f: &PeersFileFacts)
    ensures
        shown(final(out)@) == shown(old(out)@) + peers_file_lines(style.colored(), *f),
{
    let ghost before = out@;
    match f {
        PeersFileFacts::Missing => {
            out.push(ok_line(style, "No peers.json (0 paired peers)"));
        },
        PeersFileFacts::Parsed(n) => {
            let mut t = String::new();
            let digits = decimal_chars(*n as u64);
            push_chars(&mut t, digits.as_slice());
            t.append(" paired peer(s)");
            out.push(ok_line(style, t.as_str()));
        },
        PeersFileFacts::ParseError(e) => {
            out.push(err_line(style, joined("peers.json parse error: ", e.as_str()).as_str()));
        },
        PeersFileFacts::ReadError(e) => {
            out.push(err_line(style, joined("peers.json read error: ", e.as_str()).as_str()));
        },
    }
    assert(shown(out@) =~= shown(before) + peers_file_lines(style.colored(), *f));
}

/// The lines `doctor` prints for what it found; `facts` is `None` when the
/// state directory is missing.
pub fn doctor_report(style: &Style, state_dir: &str, facts: &Option<DoctorFacts>) -> (v: Vec<String>)
    requires
        identity_shortenable(*facts),
    ensures
        shown(v@) == doctor_lines(style.colored(), state_dir@, *facts),
{
    let ghost c = style.colored();
    let mut v: Vec<String> = Vec::new();
    v.push("".to_string());
    let title = style.bold("TT-Sync Doctor").render();
    v.push(joined("  ", title.as_str()));
    v.push("".to_string());
    let ghost head = shown(v@);
    assert(head =~= seq![""@, "  "@ + bold(c, "TT-Sync Doctor"@), ""@]);
    match facts {
        None => {
            v.push(err_line(style, joined("State directory missing: ", state_dir).as_str()));
            v.push(warn_line(style, "Run `tt-sync init` to initialize."));
            v.push("".to_string());
        },
        Some(f) => {
            v.push(ok_line(style, joined("State directory exists: ", state_dir).as_str()));
            let ghost s0 = shown(v@);
            push_config_lines(&mut v, style, &f.config);
            let ghost s1 = shown(v@);
            push_identity_lines(&mut v, style, &f.identity);
            let ghost s2 = shown(v@);
            push_tls_lines(&mut v, style, &f.tls);
            let ghost s3 = shown(v@);
            push_peers_file_lines(&mut v, style, &f.peers);
            let ghost s4 = shown(v@);
            v.push("".to_string());
            assert(shown(v@) =~= s4.push(""@));
            let ghost tail = seq![ok(c, "State directory exists: "@ + state_dir@)] + config_lines(c, f.config)
                + identity_lines(c, f.identity) + tls_lines(c, f.tls) + peers_file_lines(c, f.peers) + seq![""@];
            assert(s0 =~= head + seq![ok(c, "State directory exists: "@ + state_dir@)]);
            assert(s4 =~= head + (seq![ok(c, "State directory exists: "@ + state_dir@)] + config_lines(c, f.config)
                + identity_lines(c, f.identity) + tls_lines(c, f.tls) + peers_file_lines(c, f.peers)));
            assert(shown(v@) =~= head + tail);
        },
    }
    assert(shown(v@) =~= doctor_lines(c, state_dir@, *facts));
    v
}

} // verus!
