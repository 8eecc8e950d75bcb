use vstd::prelude::*;

use crate::config::{Config, LayoutMode, UiConfig, UiLanguage};
use crate::text::{chars_of, decimal, decimal_chars, parse_u64, parse_u64_chars, push_chars, trim, trim_chars};
use crate::tui::i18n::{tr, tr_spec};
use crate::tui::keys::Key;
use crate::tui::text_input::{key_effect, TextInput};
use crate::user_service::{current_manager, manager_of, TargetOs};

verus! {

/// The steps of onboarding, in order.
#[derive(Debug, Clone, Copy, PartialEq, Eq, Structural)]
pub enum Step {
    WelcomeLanguage,
    ListenPort,
    PublicUrl,
    LayoutMode,
    WorkspacePath,
    PairNow,
    ServiceMode,
    Done,
}

/// The confirmation shown before the config is written.
#[derive(Debug, Clone, Copy, PartialEq, Eq, Structural)]
pub enum Overlay {
    ConfirmWriteConfig,
}

/// How the server is to run after onboarding.
#[derive(Debug, Clone, Copy, PartialEq, Eq, Structural)]
pub enum ServiceMode {
    Foreground,
    UserService,
}

/// The step after `s`; the last step stays.
pub open spec fn step_after(s: Step) -> Step {
    match s {
        Step::WelcomeLanguage => Step::ListenPort,
        Step::ListenPort => Step::PublicUrl,
        Step::PublicUrl => Step::LayoutMode,
        Step::LayoutMode => Step::WorkspacePath,
        Step::WorkspacePath => Step::PairNow,
        Step::PairNow => Step::ServiceMode,
        Step::ServiceMode => Step::Done,
        Step::Done => Step::Done,
    }
}

/// The step before `s`; the first step stays.
pub open spec fn step_before(s: Step) -> Step {
    match s {
        Step::WelcomeLanguage => Step::WelcomeLanguage,
        Step::ListenPort => Step::WelcomeLanguage,
        Step::PublicUrl => Step::ListenPort,
        Step::LayoutMode => Step::PublicUrl,
        Step::WorkspacePath => Step::LayoutMode,
        Step::PairNow => Step::WorkspacePath,
        Step::ServiceMode => Step::PairNow,
        Step::Done => Step::ServiceMode,
    }
}

/// Going back after going on returns to the step, except from the last one;
/// going on after going back returns to it, except from the first one.
pub proof fn lemma_steps_undo(s: Step)
    ensures
        s != Step::Done ==> step_before(step_after(s)) == s,
        s != Step::WelcomeLanguage ==> step_after(step_before(s)) == s,
{
}

/// The other language.
pub open spec fn other_language(l: UiLanguage) -> UiLanguage {
    match l {
        UiLanguage::ZhCn => UiLanguage::En,
        UiLanguage::En => UiLanguage::ZhCn,
    }
}

pub fn toggle_language(l: UiLanguage) -> (r: UiLanguage)
    ensures
        r == other_language(l),
{
    match l {
        UiLanguage::ZhCn => UiLanguage::En,
        UiLanguage::En => UiLanguage::ZhCn,
    }
}

/// What `u16::from_str` gives.
pub open spec fn parse_u16(s: Seq<char>) -> Option<u16> {
    match parse_u64(s) {
        Some(n) => if n <= 0xffff {
            Some(n as u16)
        } else {
            None
        },
        None => None,
    }
}

fn parse_u16_chars(s: &[char]) -> (r: Option<u16>)
    ensures
        r == parse_u16(s@),
{
    match parse_u64_chars(s) {
        Some(n) => if n <= 0xffff {
            Some(n as u16)
        } else {
            None
        },
        None => None,
    }
}

/// The layout of each position of the layout list.
pub open spec fn layout_at(i: int) -> LayoutMode {
    if i == 0 {
        LayoutMode::TauriTavern
    } else if i == 1 {
        LayoutMode::SillyTavern
    } else {
        LayoutMode::SillyTavernDocker
    }
}

/// The position of a layout in the list.
pub open spec fn layout_index(m: LayoutMode) -> int {
    match m {
        LayoutMode::TauriTavern => 0,
        LayoutMode::SillyTavern => 1,
        LayoutMode::SillyTavernDocker => 2,
    }
}

/// The index of the welcome phrase for a clock reading.
pub fn welcome_phrase_index(nanos: u128) -> (i: usize)
    ensures
        i == nanos % 1000,
{
    (nanos % 1000) as usize
}

/// What the interface does after an onboarding key, beyond the state change.
#[derive(Debug, Clone, Copy, PartialEq, Eq, Structural)]
pub enum OnboardAction {
    /// Nothing more.
    Stay,
    /// Leave the program.
    Quit,
    /// Back to the main menu.
    GoHome,
    /// The interface language changed to the onboarding's.
    LanguageChanged,
    /// The port is valid: detect the local address and propose a public URL.
    ConfirmPort,
    /// Check the folder and derive its mounts.
    DeriveMounts,
    /// The folder was edited: forget derived mounts.
    WorkspaceEdited,
    /// Write the config, identity and certificate, then go on.
    WriteConfig,
    /// Open pairing from onboarding.
    StartPairing,
    /// Install and enable the user service, then go on.
    InstallUserService,
    /// Start the in-process server, then go on.
    StartForeground,
}

/// The onboarding flow.
#[derive(Debug, Clone)]
pub struct State {
    pub step: Step,
    pub language: UiLanguage,
    pub welcome_phrase_idx: usize,
    /// The host the config listens on, as written before its port.
    pub listen_host: String,
    pub port: TextInput,
    pub public_url: TextInput,
    pub public_url_is_auto: bool,
    /// The selected position of the layout list, below three.
    pub layout_idx: usize,
    pub workspace_path: TextInput,
    pub overlay: Option<Overlay>,
    pub pair_now: bool,
    pub service_mode: ServiceMode,
    pub error: Option<String>,
    /// Whether the platform has a user service manager.
    pub has_manager: bool,
}

impl State {
    pub open spec fn wf(&self) -> bool {
        self.layout_idx < 3
    }

    /// A fresh flow: first step, Chinese, port 8443, no URL yet, first
    /// layout, pairing on, and the user service where the platform has one.
    pub fn new(os: TargetOs, welcome_phrase_idx: usize) -> (s: Self)
        ensures
            s.wf(),
            s.step == Step::WelcomeLanguage,
            s.language == UiLanguage::ZhCn,
            s.welcome_phrase_idx == welcome_phrase_idx,
            s.listen_host@ == "0.0.0.0"@,
            s.port@ == ("8443"@, 4nat),
            s.public_url@ == (Seq::<char>::empty(), 0nat),
            s.public_url_is_auto,
            s.layout_idx == 0,
            s.workspace_path@ == (Seq::<char>::empty(), 0nat),
            s.overlay is None,
            s.pair_now,
            s.service_mode == (if manager_of(os) is Some {
                ServiceMode::UserService
            } else {
                ServiceMode::Foreground
            }),
            s.has_manager == manager_of(os) is Some,
            s.error is None,
    {
        proof {
            reveal_strlit("8443");
        }
        let has_manager = current_manager(os).is_some();
        State {
            step: Step::WelcomeLanguage,
            language: UiLanguage::ZhCn,
            welcome_phrase_idx,
            listen_host: "0.0.0.0".to_string(),
            port: TextInput::new("8443".to_string()),
            public_url: TextInput::new(String::new()),
            public_url_is_auto: true,
            layout_idx: 0,
            workspace_path: TextInput::new(String::new()),
            overlay: None,
            pair_now: true,
            service_mode: if has_manager {
                ServiceMode::UserService
            } else {
                ServiceMode::Foreground
            },
            error: None,
            has_manager,
        }
    }

    /// Fills the fields from an existing config whose listen address has the
    /// given host, as written before its port, and port.
    pub fn prefill_from_config(&mut self, listen_host: String, listen_port: u16, cfg: &Config)
        ensures
            final(self).wf(),
            final(self).listen_host@ == listen_host@,
            final(self).port@ == (decimal(listen_port as nat), decimal(listen_port as nat).len()),
            final(self).public_url@ == (cfg.public_url@, cfg.public_url@.len()),
            !final(self).public_url_is_auto,
            final(self).layout_idx == layout_index(cfg.layout),
            final(self).workspace_path@ == (cfg.workspace_path@, cfg.workspace_path@.len()),
            final(self).step == old(self).step,
            final(self).language == old(self).language,
    {
        self.listen_host = listen_host;
        let digits = decimal_chars(listen_port as u64);
        let mut p = String::new();
        push_chars(&mut p, digits.as_slice());
        self.port.set(p);
        self.public_url.set(cfg.public_url.clone());
        self.public_url_is_auto = false;
        self.layout_idx = match cfg.layout {
            LayoutMode::TauriTavern => 0,
            LayoutMode::SillyTavern => 1,
            LayoutMode::SillyTavernDocker => 2,
        };
        self.workspace_path.set(cfg.workspace_path.clone());
    }

    /// The layout the list selects.
    pub fn layout_mode(&self) -> (m: LayoutMode)
        requires
            self.wf(),
        ensures
            m == layout_at(self.layout_idx as int),
    {
        if self.layout_idx == 0 {
            LayoutMode::TauriTavern
        } else if self.layout_idx == 1 {
            LayoutMode::SillyTavern
        } else {
            LayoutMode::SillyTavernDocker
        }
    }

    /// The flow moved to `step`, with the error and the overlay cleared.
    pub open spec fn moved_to(s: State, step: Step) -> State {
        State { step, error: None, overlay: None, ..s }
    }

    /// Goes to the next step, clearing the error and the overlay.
    pub fn next_step(&mut self)
        ensures
            *final(self) == Self::moved_to(*old(self), step_after(old(self).step)),
            final(self).step == step_after(old(self).step),
            final(self).error is None,
            final(self).overlay is None,
            final(self).layout_idx == old(self).layout_idx,
            final(self).language == old(self).language,
            final(self).pair_now == old(self).pair_now,
            final(self).service_mode == old(self).service_mode,
            final(self).has_manager == old(self).has_manager,
            final(self).port@ == old(self).port@,
            final(self).public_url@ == old(self).public_url@,
            final(self).workspace_path@ == old(self).workspace_path@,
    {
        self.error = None;
        self.overlay = None;
        self.step = match self.step {
            Step::WelcomeLanguage => Step::ListenPort,
            Step::ListenPort => Step::PublicUrl,
            Step::PublicUrl => Step::LayoutMode,
            Step::LayoutMode => Step::WorkspacePath,
            Step::WorkspacePath => Step::PairNow,
            Step::PairNow => Step::ServiceMode,
            Step::ServiceMode => Step::Done,
            Step::Done => Step::Done,
        };
    }

    /// Goes to the previous step, clearing the error and the overlay.
    pub fn prev_step(&mut self)
        ensures
            *final(self) == Self::moved_to(*old(self), step_before(old(self).step)),
            final(self).step == step_before(old(self).step),
            final(self).error is None,
            final(self).overlay is None,
            final(self).layout_idx == old(self).layout_idx,
            final(self).language == old(self).language,
            final(self).pair_now == old(self).pair_now,
            final(self).service_mode == old(self).service_mode,
            final(self).has_manager == old(self).has_manager,
            final(self).port@ == old(self).port@,
            final(self).public_url@ == old(self).public_url@,
            final(self).workspace_path@ == old(self).workspace_path@,
    {
        self.error = None;
        self.overlay = None;
        self.step = match self.step {
            Step::WelcomeLanguage => Step::WelcomeLanguage,
            Step::ListenPort => Step::WelcomeLanguage,
            Step::PublicUrl => Step::ListenPort,
            Step::LayoutMode => Step::PublicUrl,
            Step::WorkspacePath => Step::LayoutMode,
            Step::PairNow => Step::WorkspacePath,
            Step::ServiceMode => Step::PairNow,
            Step::Done => Step::ServiceMode,
        };
    }

    /// The port the field holds, once trimmed, if it is one.
    pub fn port_number(&self) -> (p: Option<u16>)
        ensures
            p == parse_u16(trim(self.port@.0)),
    {
        let cs = chars_of(self.port.value());
        let t = trim_chars(cs.as_slice());
        parse_u16_chars(t.as_slice())
    }

    /// Proposes a public URL: on the detected local host where there is one,
    /// on `127.0.0.1` otherwise; with the raw field text when it is no port.
    pub fn prepare_public_url(&mut self, detected_host: Option<String>)
        ensures
            final(self).public_url_is_auto,
            final(self).public_url@.0 == (match parse_u16(trim(old(self).port@.0)) {
                None => "https://127.0.0.1:"@ + trim(old(self).port@.0),
                Some(p) => match detected_host {
                    Some(h) => "https://"@ + h@ + ":"@ + decimal(p as nat),
                    None => "https://127.0.0.1:"@ + decimal(p as nat),
                },
            }),
            final(self).public_url@.1 == final(self).public_url@.0.len(),
            final(self).step == old(self).step,
            final(self).port@ == old(self).port@,
            final(self).layout_idx == old(self).layout_idx,
    {
        let cs = chars_of(self.port.value());
        let t = trim_chars(cs.as_slice());
        let url = match parse_u16_chars(t.as_slice()) {
            None => {
                let mut u = "https://127.0.0.1:".to_string();
                push_chars(&mut u, t.as_slice());
                u
            },
            Some(p) => {
                let digits = decimal_chars(p as u64);
                let mut u = match detected_host {
                    Some(h) => {
                        let mut u = "https://".to_string();
                        u.append(h.as_str());
                        u.append(":");
                        u
                    },
                    None => "https://127.0.0.1:".to_string(),
                };
                push_chars(&mut u, digits.as_slice());
                u
            },
        };
        self.public_url.set(url);
        self.public_url_is_auto = true;
    }

    /// The folder the user typed, trimmed, or the error that it is empty.
    pub fn workspace_input(&self) -> (r: Result<String, String>)
        ensures
            trim(self.workspace_path@.0).len() == 0 ==> (r matches Err(m) && m@ == "workspace path is empty"@),
            trim(self.workspace_path@.0).len() > 0 ==> (r matches Ok(p) && p@ == trim(self.workspace_path@.0)),
    {
        let cs = chars_of(self.workspace_path.value());
        let t = trim_chars(cs.as_slice());
        if t.len() == 0 {
            return Err("workspace path is empty".to_string());
        }
        Ok(crate::text::string_from_chars(t.as_slice()))
    }

    /// The config the flow describes, listening on the flow's host at the
    /// field's port, for the confirmed folder.
    pub fn build_config(&self, workspace_canonical: Option<String>) -> (r: Result<Config, String>)
        requires
            self.wf(),
        ensures
            parse_u16(trim(self.port@.0)) is None ==> (r matches Err(m) && m@ == "invalid port"@),
            parse_u16(trim(self.port@.0)) is Some && workspace_canonical is None ==> (r matches Err(m) && m@
                == "workspace path not confirmed"@),
            parse_u16(trim(self.port@.0)) is Some && workspace_canonical is Some && trim(self.public_url@.0).len()
                == 0 ==> (r matches Err(m) && m@ == "public url is empty"@),
            r matches Ok(c) ==> {
                &&& parse_u16(trim(self.port@.0)) matches Some(p)
                &&& workspace_canonical matches Some(w)
                &&& c.workspace_path@ == w@
                &&& c.layout == layout_at(self.layout_idx as int)
                &&& c.public_url@ == trim(self.public_url@.0)
                &&& c.public_url@.len() > 0
                &&& c.listen@ == self.listen_host@ + ":"@ + decimal(p as nat)
                &&& c.ui.language == self.language
            },
            parse_u16(trim(self.port@.0)) is Some && workspace_canonical is Some && trim(self.public_url@.0).len()
                > 0 ==> r is Ok,
    {
        let port = match self.port_number() {
            Some(p) => p,
            None => {
                return Err("invalid port".to_string());
            },
        };
        let workspace_path = match workspace_canonical {
            Some(w) => w,
            None => {
                return Err("workspace path not confirmed".to_string());
            },
        };
        let cs = chars_of(self.public_url.value());
        let t = trim_chars(cs.as_slice());
        if t.len() == 0 {
            return Err("public url is empty".to_string());
        }
        let public_url = crate::text::string_from_chars(t.as_slice());
        let mut listen = self.listen_host.clone();
        listen.append(":");
        let digits = decimal_chars(port as u64);
        push_chars(&mut listen, digits.as_slice());
        Ok(Config {
            workspace_path,
            layout: self.layout_mode(),
            public_url,
            listen,
            ui: UiConfig { language: self.language },
        })
    }

    /// Records how starting the chosen service went: on success the flow goes
    /// on to the next step; on failure it stays and shows the error.
    pub fn service_started(&mut self, result: Result<(), String>)
        ensures
            match result {
                Ok(()) => final(self).step == step_after(old(self).step) && final(self).error is None,
                Err(e) => final(self).step == old(self).step && final(self).error == Some(e),
            },
            final(self).layout_idx == old(self).layout_idx,
            final(self).language == old(self).language,
            final(self).service_mode == old(self).service_mode,
    {
        match result {
            Ok(()) => self.next_step(),
            Err(e) => self.error = Some(e),
        }
    }

    /// Records how checking the folder went: on success the write is asked
    /// for confirmation.
    pub fn mounts_derived(&mut self, result: Result<(), String>)
        ensures
            match result {
                Ok(()) => final(self).overlay == Some(Overlay::ConfirmWriteConfig) && final(self).error is None,
                Err(e) => final(self).error == Some(e) && final(self).overlay == old(self).overlay,
            },
            final(self).step == old(self).step,
            final(self).layout_idx == old(self).layout_idx,
    {
        match result {
            Ok(()) => {
                self.overlay = Some(Overlay::ConfirmWriteConfig);
                self.error = None;
            },
            Err(e) => {
                self.error = Some(e);
            },
        }
    }

    /// `after` is `before` but for the three text fields and the error.
    pub open spec fn keeps_fields(before: State, after: State) -> bool {
        &&& after.step == before.step
        &&& after.language == before.language
        &&& after.welcome_phrase_idx == before.welcome_phrase_idx
        &&& after.listen_host@ == before.listen_host@
        &&& after.public_url_is_auto == before.public_url_is_auto
        &&& after.layout_idx == before.layout_idx
        &&& after.overlay == before.overlay
        &&& after.pair_now == before.pair_now
        &&& after.service_mode == before.service_mode
        &&& after.has_manager == before.has_manager
    }

    /// `after` is `before` with a key typed into the port field.
    pub open spec fn port_typed(before: State, after: State, key: Key) -> bool {
        let e = key_effect(before.port@.0, before.port@.1, key);
        &&& Self::keeps_fields(before, after)
        &&& (after.port@.0, after.port@.1) == (e.0, e.1)
        &&& after.public_url@ == before.public_url@
        &&& after.workspace_path@ == before.workspace_path@
        &&& after.error == before.error
    }

    /// `after` is `before` with a key typed into the public URL field.
    pub open spec fn public_url_typed(before: State, after: State, key: Key) -> bool {
        let e = key_effect(before.public_url@.0, before.public_url@.1, key);
        &&& Self::keeps_fields(before, after)
        &&& (after.public_url@.0, after.public_url@.1) == (e.0, e.1)
        &&& after.port@ == before.port@
        &&& after.workspace_path@ == before.workspace_path@
        &&& after.error == before.error
    }

    /// `after` is `before` with a key typed into the folder field.
    pub open spec fn workspace_typed(before: State, after: State, key: Key) -> bool {
        let e = key_effect(before.workspace_path@.0, before.workspace_path@.1, key);
        &&& Self::keeps_fields(before, after)
        &&& (after.workspace_path@.0, after.workspace_path@.1) == (e.0, e.1)
        &&& after.port@ == before.port@
        &&& after.public_url@ == before.public_url@
        &&& after.error == before.error
    }

    /// `after` is `before` with only the error set to `message`.
    pub open spec fn only_error(before: State, after: State, message: Seq<char>) -> bool {
        &&& Self::keeps_fields(before, after)
        &&& after.port@ == before.port@
        &&& after.public_url@ == before.public_url@
        &&& after.workspace_path@ == before.workspace_path@
        &&& after.error matches Some(m) && m@ == message
    }

    /// What a key does to the flow, and the action it asks for: `after` is
    /// the flow after the key and `a` the action.
    pub open spec fn key_handled(before: State, after: State, key: Key, a: OnboardAction) -> bool {
        &&& after.wf()
        &&& if key == Key::Char('q') {
            a == OnboardAction::Quit && after == before
        } else {
            match before.step {
                Step::WelcomeLanguage => match key {
                    Key::Left | Key::Right => a == OnboardAction::LanguageChanged && after == (State {
                        language: other_language(before.language),
                        ..before
                    }),
                    Key::Enter => a == OnboardAction::Stay && after == Self::moved_to(before, Step::ListenPort),
                    Key::Esc => a == OnboardAction::GoHome && after == before,
                    _ => a == OnboardAction::Stay && after == before,
                },
                Step::ListenPort => match key {
                    Key::Enter => if parse_u16(trim(before.port@.0)) is None {
                        a == OnboardAction::Stay && Self::only_error(
                            before,
                            after,
                            tr_spec(before.language, "端口无效（请输入 1..65535）"@, "Invalid port (expected 1..65535)"@),
                        )
                    } else {
                        a == OnboardAction::ConfirmPort && after == before
                    },
                    Key::Esc => a == OnboardAction::Stay && after == Self::moved_to(before, Step::WelcomeLanguage),
                    _ => a == OnboardAction::Stay && Self::port_typed(before, after, key),
                },
                Step::PublicUrl => match key {
                    Key::Enter => if trim(before.public_url@.0).len() == 0 {
                        a == OnboardAction::Stay && Self::only_error(
                            before,
                            after,
                            tr_spec(before.language, "Public URL 不能为空"@, "Public URL cannot be empty"@),
                        )
                    } else {
                        a == OnboardAction::Stay && after == Self::moved_to(before, Step::LayoutMode)
                    },
                    Key::Esc => a == OnboardAction::Stay && after == Self::moved_to(before, Step::ListenPort),
                    _ => a == OnboardAction::Stay && Self::public_url_typed(before, after, key),
                },
                Step::LayoutMode => match key {
                    Key::Up => a == OnboardAction::Stay && after == (State {
                        layout_idx: ((before.layout_idx + 2) % 3) as usize,
                        ..before
                    }),
                    Key::Down => a == OnboardAction::Stay && after == (State {
                        layout_idx: ((before.layout_idx + 1) % 3) as usize,
                        ..before
                    }),
                    Key::Enter => a == OnboardAction::Stay && after == Self::moved_to(before, Step::WorkspacePath),
                    Key::Esc => a == OnboardAction::Stay && after == Self::moved_to(before, Step::PublicUrl),
                    _ => a == OnboardAction::Stay && after == before,
                },
                Step::WorkspacePath => if before.overlay is None {
                    match key {
                        Key::Enter => a == OnboardAction::DeriveMounts && after == before,
                        Key::Esc => a == OnboardAction::Stay && after == Self::moved_to(before, Step::LayoutMode),
                        _ => a == OnboardAction::WorkspaceEdited && Self::workspace_typed(before, after, key),
                    }
                } else {
                    match key {
                        Key::Enter => a == OnboardAction::WriteConfig && after == before,
                        Key::Esc => a == OnboardAction::Stay && after == (State { overlay: None, ..before }),
                        _ => a == OnboardAction::Stay && after == before,
                    }
                },
                Step::PairNow => match key {
                    Key::Left | Key::Right => a == OnboardAction::Stay && after == (State {
                        pair_now: !before.pair_now,
                        ..before
                    }),
                    Key::Enter => after == Self::moved_to(before, Step::ServiceMode) && a == (if before.pair_now {
                        OnboardAction::StartPairing
                    } else {
                        OnboardAction::Stay
                    }),
                    Key::Esc => a == OnboardAction::Stay && after == Self::moved_to(before, Step::WorkspacePath),
                    _ => a == OnboardAction::Stay && after == before,
                },
                Step::ServiceMode => match key {
                    Key::Left | Key::Right => a == OnboardAction::Stay && after == (State {
                        service_mode: if before.has_manager {
                            match before.service_mode {
                                ServiceMode::Foreground => ServiceMode::UserService,
                                ServiceMode::UserService => ServiceMode::Foreground,
                            }
                        } else {
                            before.service_mode
                        },
                        ..before
                    }),
                    Key::Enter => after == before && a == (match before.service_mode {
                        ServiceMode::UserService => OnboardAction::InstallUserService,
                        ServiceMode::Foreground => OnboardAction::StartForeground,
                    }),
                    Key::Esc => a == OnboardAction::Stay && after == Self::moved_to(before, Step::PairNow),
                    _ => a == OnboardAction::Stay && after == before,
                },
                Step::Done => match key {
                    Key::Enter => a == OnboardAction::GoHome && after == before,
                    Key::Esc => a == OnboardAction::Stay && after == Self::moved_to(before, Step::ServiceMode),
                    _ => a == OnboardAction::Stay && after == before,
                },
            }
        }
    }

    /// Applies a key to the flow and says what else the interface must do.
    pub fn handle_key(&mut self, key: Key) -> (a: OnboardAction)
        requires
            old(self).wf(),
            old(self).port@.0.len() < usize::MAX,
            old(self).public_url@.0.len() < usize::MAX,
            old(self).workspace_path@.0.len() < usize::MAX,
        ensures
            Self::key_handled(*old(self), *final(self), key, a),
    {
        if key == Key::Char('q') {
            return OnboardAction::Quit;
        }
        match self.step {
            Step::WelcomeLanguage => match key {
                Key::Left | Key::Right => {
                    self.language = toggle_language(self.language);
                    OnboardAction::LanguageChanged
                },
                Key::Enter => {
                    self.next_step();
                    OnboardAction::Stay
                },
                Key::Esc => OnboardAction::GoHome,
                _ => OnboardAction::Stay,
            },
            Step::ListenPort => match key {
                Key::Enter => {
                    if self.port_number().is_none() {
                        self.error = Some(
                            tr(self.language, "端口无效（请输入 1..65535）", "Invalid port (expected 1..65535)").to_string(),
                        );
                        return OnboardAction::Stay;
                    }
                    OnboardAction::ConfirmPort
                },
                Key::Esc => {
                    self.prev_step();
                    OnboardAction::Stay
                },
                _ => {
                    self.port.handle_key(key);
                    OnboardAction::Stay
                },
            },
            Step::PublicUrl => match key {
                Key::Enter => {
                    let cs = chars_of(self.public_url.value());
                    let t = trim_chars(cs.as_slice());
                    if t.len() == 0 {
                        self.error = Some(
                            tr(self.language, "Public URL 不能为空", "Public URL cannot be empty").to_string(),
                        );
                        return OnboardAction::Stay;
                    }
                    self.next_step();
                    OnboardAction::Stay
                },
                Key::Esc => {
                    self.prev_step();
                    OnboardAction::Stay
                },
                _ => {
                    self.public_url.handle_key(key);
                    OnboardAction::Stay
                },
            },
            Step::LayoutMode => match key {
                Key::Up => {
                    self.layout_idx = (self.layout_idx + 2) % 3;
                    OnboardAction::Stay
                },
                Key::Down => {
                    self.layout_idx = (self.layout_idx + 1) % 3;
                    OnboardAction::Stay
                },
                Key::Enter => {
                    self.next_step();
                    OnboardAction::Stay
                },
                Key::Esc => {
                    self.prev_step();
                    OnboardAction::Stay
                },
                _ => OnboardAction::Stay,
            },
            Step::WorkspacePath => {
                if self.overlay.is_none() {
                    match key {
                        Key::Enter => OnboardAction::DeriveMounts,
                        Key::Esc => {
                            self.prev_step();
                            OnboardAction::Stay
                        },
                        _ => {
                            self.workspace_path.handle_key(key);
                            OnboardAction::WorkspaceEdited
                        },
                    }
                } else {
                    match key {
                        Key::Enter => OnboardAction::WriteConfig,
                        Key::Esc => {
                            self.overlay = None;
                            OnboardAction::Stay
                        },
                        _ => OnboardAction::Stay,
                    }
                }
            },
            Step::PairNow => match key {
                Key::Left | Key::Right => {
                    self.pair_now = !self.pair_now;
                    OnboardAction::Stay
                },
                Key::Enter => {
                    self.next_step();
                    if self.pair_now {
                        OnboardAction::StartPairing
                    } else {
                        OnboardAction::Stay
                    }
                },
                Key::Esc => {
                    self.prev_step();
                    OnboardAction::Stay
                },
                _ => OnboardAction::Stay,
            },
            Step::ServiceMode => match key {
                Key::Left | Key::Right => {
                    if self.has_manager {
                        self.service_mode = match self.service_mode {
                            ServiceMode::Foreground => ServiceMode::UserService,
                            ServiceMode::UserService => ServiceMode::Foreground,
                        };
                    }
                    OnboardAction::Stay
                },
                Key::Enter => match self.service_mode {
                    ServiceMode::UserService => OnboardAction::InstallUserService,
                    ServiceMode::Foreground => OnboardAction::StartForeground,
                },
                Key::Esc => {
                    self.prev_step();
                    OnboardAction::Stay
                },
                _ => OnboardAction::Stay,
            },
            Step::Done => match key {
                Key::Enter => OnboardAction::GoHome,
                Key::Esc => {
                    self.prev_step();
                    OnboardAction::Stay
                },
                _ => OnboardAction::Stay,
            },
        }
    }
}

} // verus!
