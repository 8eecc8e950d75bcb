use vstd::prelude::*;

use crate::config::UiLanguage;
use crate::text::decimal;
use crate::tui::i18n::{tr, tr_spec};

verus! {

/// How a check came out.
#[derive(Debug, Clone, Copy, PartialEq, Eq, Structural)]
pub enum CheckStatus {
    Pass,
    Warn,
    Fail,
}

/// One line of the doctor screen.
#[derive(Debug, Clone)]
pub struct CheckResult {
    pub label: &'static str,
    pub status: CheckStatus,
    pub detail: String,
}

/// What was found of a file that the doctor loads.
#[derive(Debug, Clone)]
pub enum FileProbe {
    /// The file does not exist.
    Missing,
    /// The file loaded; its path as shown.
    Loaded(String),
    /// The file did not load; the error as shown.
    Failed(String),
}

/// What was found of the list of paired peers.
#[derive(Debug, Clone)]
pub enum PeersProbe {
    /// `peers.json` does not exist.
    Missing,
    /// It holds this many peers.
    Counted(usize),
    /// It could not be read; the error as shown.
    Failed(String),
}

/// What was found of the synchronized folder.
#[derive(Debug, Clone)]
pub enum WorkspaceProbe {
    /// There is no config to name it.
    ConfigMissing,
    /// The config did not load; the error as shown.
    ConfigFailed(String),
    /// The folder does not exist; its path as shown.
    PathMissing(String),
    /// The mounts were derived; the data root as shown.
    Mounted(String),
    /// The mounts could not be derived; the error as shown.
    MountsFailed(String),
}

/// Everything the doctor looked at.
#[derive(Debug)]
pub struct DoctorProbes {
    pub state_dir_is_dir: bool,
    pub state_dir_display: String,
    pub config: FileProbe,
    pub identity: FileProbe,
    pub tls: Result<String, String>,
    pub peers: PeersProbe,
    pub workspace: WorkspaceProbe,
}

/// A check's label, status and detail.
pub open spec fn check_view(c: CheckResult) -> (Seq<char>, CheckStatus, Seq<char>) {
    (c.label@, c.status, c.detail@)
}

fn check(label: &'static str, status: CheckStatus, detail: String) -> (c: CheckResult)
    ensures
        check_view(c) == (label@, status, detail@),
{
    CheckResult { label, status, detail }
}

/// The state directory check: fine when it is a directory.
pub open spec fn state_dir_check(lang: UiLanguage, is_dir: bool, display: Seq<char>) -> (Seq<char>, CheckStatus, Seq<char>) {
    let label = tr_spec(lang, "状态目录"@, "State dir"@);
    if is_dir {
        (label, CheckStatus::Pass, display)
    } else {
        (
            label,
            CheckStatus::Fail,
            tr_spec(lang, "状态目录不存在，请先运行 Onboard"@, "State dir does not exist; run Onboard first"@),
        )
    }
}

pub fn check_state_dir(lang: UiLanguage, is_dir: bool, display: String) -> (c: CheckResult)
    ensures
        check_view(c) == state_dir_check(lang, is_dir, display@),
{
    let label = tr(lang, "状态目录", "State dir");
    if is_dir {
        check(label, CheckStatus::Pass, display)
    } else {
        check(
            label,
            CheckStatus::Fail,
            tr(lang, "状态目录不存在，请先运行 Onboard", "State dir does not exist; run Onboard first").to_string(),
        )
    }
}

/// The config check: a missing or broken config fails.
pub open spec fn config_check(lang: UiLanguage, probe: FileProbe) -> (Seq<char>, CheckStatus, Seq<char>) {
    let label = tr_spec(lang, "配置文件"@, "Config"@);
    match probe {
        FileProbe::Missing => (label, CheckStatus::Fail, tr_spec(lang, "config.toml 不存在"@, "config.toml not found"@)),
        FileProbe::Loaded(d) => (label, CheckStatus::Pass, d@),
        FileProbe::Failed(e) => (label, CheckStatus::Fail, e@),
    }
}

pub fn check_config(lang: UiLanguage, probe: FileProbe) -> (c: CheckResult)
    ensures
        check_view(c) == config_check(lang, probe),
{
    let label = tr(lang, "配置文件", "Config");
    match probe {
        FileProbe::Missing => check(
            label,
            CheckStatus::Fail,
            tr(lang, "config.toml 不存在", "config.toml not found").to_string(),
        ),
        FileProbe::Loaded(d) => check(label, CheckStatus::Pass, d),
        FileProbe::Failed(e) => check(label, CheckStatus::Fail, e),
    }
}

/// The identity check: a missing identity only warns, as onboarding makes one.
pub open spec fn identity_check(lang: UiLanguage, probe: FileProbe) -> (Seq<char>, CheckStatus, Seq<char>) {
    let label = tr_spec(lang, "身份密钥"@, "Identity"@);
    match probe {
        FileProbe::Missing => (
            label,
            CheckStatus::Warn,
            tr_spec(lang, "identity.json 不存在（Onboard 将自动创建）"@, "identity.json missing (Onboard will create it)"@),
        ),
        FileProbe::Loaded(d) => (label, CheckStatus::Pass, d@),
        FileProbe::Failed(e) => (label, CheckStatus::Fail, e@),
    }
}

pub fn check_identity(lang: UiLanguage, probe: FileProbe) -> (c: CheckResult)
    ensures
        check_view(c) == identity_check(lang, probe),
{
    let label = tr(lang, "身份密钥", "Identity");
    match probe {
        FileProbe::Missing => check(
            label,
            CheckStatus::Warn,
            tr(lang, "identity.json 不存在（Onboard 将自动创建）", "identity.json missing (Onboard will create it)").to_string(),
        ),
        FileProbe::Loaded(d) => check(label, CheckStatus::Pass, d),
        FileProbe::Failed(e) => check(label, CheckStatus::Fail, e),
    }
}

/// The TLS check: the certificate's SPKI pin, or the error.
pub open spec fn tls_check(lang: UiLanguage, probe: Result<String, String>) -> (Seq<char>, CheckStatus, Seq<char>) {
    let label = tr_spec(lang, "TLS 证书"@, "TLS cert"@);
    match probe {
        Ok(spki) => (label, CheckStatus::Pass, "spki: "@ + spki@),
        Err(e) => (label, CheckStatus::Fail, e@),
    }
}

pub fn check_tls(lang: UiLanguage, probe: Result<String, String>) -> (c: CheckResult)
    ensures
        check_view(c) == tls_check(lang, probe),
{
    let label = tr(lang, "TLS 证书", "TLS cert");
    match probe {
        Ok(spki) => {
            let mut d = "spki: ".to_string();
            d.append(spki.as_str());
            check(label, CheckStatus::Pass, d)
        },
        Err(e) => check(label, CheckStatus::Fail, e),
    }
}

/// The peers check: no list yet is fine, as is a list of any length.
pub open spec fn peers_check(lang: UiLanguage, probe: PeersProbe) -> (Seq<char>, CheckStatus, Seq<char>) {
    let label = tr_spec(lang, "已配对设备"@, "Peers"@);
    match probe {
        PeersProbe::Missing => (
            label,
            CheckStatus::Pass,
            tr_spec(lang, "暂无设备（peers.json 尚未创建）"@, "No peers yet (peers.json not created)"@),
        ),
        PeersProbe::Counted(n) => (label, CheckStatus::Pass, decimal(n as nat) + " "@ + tr_spec(lang, "台设备"@, "peer(s)"@)),
        PeersProbe::Failed(e) => (label, CheckStatus::Fail, e@),
    }
}

pub fn check_peers(lang: UiLanguage, probe: PeersProbe) -> (c: CheckResult)
    ensures
        check_view(c) == peers_check(lang, probe),
{
    let label = tr(lang, "已配对设备", "Peers");
    match probe {
        PeersProbe::Missing => check(
            label,
            CheckStatus::Pass,
            tr(lang, "暂无设备（peers.json 尚未创建）", "No peers yet (peers.json not created)").to_string(),
        ),
        PeersProbe::Counted(n) => {
            let digits = crate::text::decimal_chars(n as u64);
            let mut d = String::new();
            crate::text::push_chars(&mut d, digits.as_slice());
            d.append(" ");
            d.append(tr(lang, "台设备", "peer(s)"));
            check(label, CheckStatus::Pass, d)
        },
        PeersProbe::Failed(e) => check(label, CheckStatus::Fail, e),
    }
}

/// The folder check: skipped with a warning without config; fine when the
/// mounts derive.
pub open spec fn workspace_check(lang: UiLanguage, probe: WorkspaceProbe) -> (Seq<char>, CheckStatus, Seq<char>) {
    let label = tr_spec(lang, "同步文件夹"@, "Workspace"@);
    match probe {
        WorkspaceProbe::ConfigMissing => (label, CheckStatus::Warn, tr_spec(lang, "配置不存在，跳过检测"@, "Config missing, skipped"@)),
        WorkspaceProbe::ConfigFailed(e) => (label, CheckStatus::Fail, e@),
        WorkspaceProbe::PathMissing(p) => (
            label,
            CheckStatus::Fail,
            tr_spec(lang, "路径不存在"@, "Path does not exist"@) + ": "@ + p@,
        ),
        WorkspaceProbe::Mounted(d) => (label, CheckStatus::Pass, "data: "@ + d@),
        WorkspaceProbe::MountsFailed(e) => (label, CheckStatus::Fail, e@),
    }
}

pub fn check_workspace(lang: UiLanguage, probe: WorkspaceProbe) -> (c: CheckResult)
    ensures
        check_view(c) == workspace_check(lang, probe),
{
    let label = tr(lang, "同步文件夹", "Workspace");
    match probe {
        WorkspaceProbe::ConfigMissing => check(
            label,
            CheckStatus::Warn,
            tr(lang, "配置不存在，跳过检测", "Config missing, skipped").to_string(),
        ),
        WorkspaceProbe::ConfigFailed(e) => check(label, CheckStatus::Fail, e),
        WorkspaceProbe::PathMissing(p) => {
            let mut d = tr(lang, "路径不存在", "Path does not exist").to_string();
            d.append(": ");
            d.append(p.as_str());
            check(label, CheckStatus::Fail, d)
        },
        WorkspaceProbe::Mounted(m) => {
            let mut d = "data: ".to_string();
            d.append(m.as_str());
            check(label, CheckStatus::Pass, d)
        },
        WorkspaceProbe::MountsFailed(e) => check(label, CheckStatus::Fail, e),
    }
}

/// The doctor screen: the results of the last run, and its language.
#[derive(Debug, Clone)]
pub struct State {
    pub checks: Vec<CheckResult>,
    pub lang: UiLanguage,
}

impl State {
    pub fn new() -> (s: Self)
        ensures
            s.checks@.len() == 0,
            s.lang == UiLanguage::ZhCn,
    {
        State { checks: Vec::new(), lang: UiLanguage::ZhCn }
    }

    /// Runs the six checks on what was found, in order: state directory,
    /// config, identity, TLS, peers, synchronized folder.
    pub fn run(&mut self, lang: UiLanguage, probes: DoctorProbes)
        ensures
            final(self).lang == lang,
            final(self).checks@.map_values(|c: CheckResult| check_view(c)) == seq![
                state_dir_check(lang, probes.state_dir_is_dir, probes.state_dir_display@),
                config_check(lang, probes.config),
                identity_check(lang, probes.identity),
                tls_check(lang, probes.tls),
                peers_check(lang, probes.peers),
                workspace_check(lang, probes.workspace),
            ],
    {
        let ghost p = probes;
        self.lang = lang;
        let mut checks: Vec<CheckResult> = Vec::new();
        checks.push(check_state_dir(lang, probes.state_dir_is_dir, probes.state_dir_display));
        checks.push(check_config(lang, probes.config));
        checks.push(check_identity(lang, probes.identity));
        checks.push(check_tls(lang, probes.tls));
        checks.push(check_peers(lang, probes.peers));
        checks.push(check_workspace(lang, probes.workspace));
        assert(checks@.map_values(|c: CheckResult| check_view(c)) =~= seq![
            state_dir_check(lang, p.state_dir_is_dir, p.state_dir_display@),
            config_check(lang, p.config),
            identity_check(lang, p.identity),
            tls_check(lang, p.tls),
            peers_check(lang, p.peers),
            workspace_check(lang, p.workspace),
        ]);
        self.checks = checks;
    }
}

} // verus!
