use vstd::prelude::*;

use crate::config::UiLanguage;
use crate::tui::keys::{menu_after, menu_before, menu_next, menu_prev, Key};
use crate::tui::{doctor, help, onboard, pairing, peers, serve};
use crate::user_service::TargetOs;

verus! {

/// The entries of the main menu.
#[derive(Debug, Clone, Copy, PartialEq, Eq, Structural)]
pub enum MainMenuItem {
    Onboard,
    Pair,
    Peers,
    Serve,
    Doctor,
    Help,
    Exit,
}

/// The number of entries of the main menu.
pub const MAIN_MENU_LEN: usize = 7;

/// The entry at each position of the main menu.
pub open spec fn menu_item_at(i: int) -> MainMenuItem {
    if i == 0 {
        MainMenuItem::Onboard
    } else if i == 1 {
        MainMenuItem::Pair
    } else if i == 2 {
        MainMenuItem::Peers
    } else if i == 3 {
        MainMenuItem::Serve
    } else if i == 4 {
        MainMenuItem::Doctor
    } else if i == 5 {
        MainMenuItem::Help
    } else {
        MainMenuItem::Exit
    }
}

impl MainMenuItem {
    /// The entries, in menu order.
    pub fn all() -> (v: Vec<MainMenuItem>)
        ensures
            v@.len() == MAIN_MENU_LEN,
            forall|i: int| 0 <= i < MAIN_MENU_LEN ==> #[trigger] v@[i] == menu_item_at(i),
    {
        let mut v: Vec<MainMenuItem> = Vec::new();
        let mut i: usize = 0;
        while i < MAIN_MENU_LEN
            invariant
                i <= MAIN_MENU_LEN,
                v@.len() == i,
                forall|j: int| 0 <= j < i ==> #[trigger] v@[j] == menu_item_at(j),
            decreases MAIN_MENU_LEN - i,
        {
            v.push(MainMenuItem::at(i));
            i = i + 1;
        }
        v
    }

    /// The entry at a menu position.
    pub fn at(i: usize) -> (m: MainMenuItem)
        requires
            i < MAIN_MENU_LEN,
        ensures
            m == menu_item_at(i as int),
    {
        if i == 0 {
            MainMenuItem::Onboard
        } else if i == 1 {
            MainMenuItem::Pair
        } else if i == 2 {
            MainMenuItem::Peers
        } else if i == 3 {
            MainMenuItem::Serve
        } else if i == 4 {
            MainMenuItem::Doctor
        } else if i == 5 {
            MainMenuItem::Help
        } else {
            MainMenuItem::Exit
        }
    }

    pub open spec fn title_spec(self, lang: UiLanguage) -> Seq<char> {
        match (lang, self) {
            (UiLanguage::ZhCn, MainMenuItem::Onboard) => "Onboard（引导设置）"@,
            (UiLanguage::ZhCn, MainMenuItem::Pair) => "开始配对（生成二维码/链接）"@,
            (UiLanguage::ZhCn, MainMenuItem::Peers) => "已配对设备（列表/撤销）"@,
            (UiLanguage::ZhCn, MainMenuItem::Serve) => "启动/停止服务"@,
            (UiLanguage::ZhCn, MainMenuItem::Doctor) => "运行诊断"@,
            (UiLanguage::ZhCn, MainMenuItem::Help) => "帮助 / 关于"@,
            (UiLanguage::ZhCn, MainMenuItem::Exit) => "退出"@,
            (UiLanguage::En, MainMenuItem::Onboard) => "Onboard (Guided setup)"@,
            (UiLanguage::En, MainMenuItem::Pair) => "Pair (QR / link)"@,
            (UiLanguage::En, MainMenuItem::Peers) => "Peers (list / revoke)"@,
            (UiLanguage::En, MainMenuItem::Serve) => "Start/Stop service"@,
            (UiLanguage::En, MainMenuItem::Doctor) => "Doctor"@,
            (UiLanguage::En, MainMenuItem::Help) => "Help / About"@,
            (UiLanguage::En, MainMenuItem::Exit) => "Exit"@,
        }
    }

    pub fn title(self, lang: UiLanguage) -> (s: &'static str)
        ensures
            s@ == self.title_spec(lang),
    {
        match (lang, self) {
            (UiLanguage::ZhCn, MainMenuItem::Onboard) => "Onboard（引导设置）",
            (UiLanguage::ZhCn, MainMenuItem::Pair) => "开始配对（生成二维码/链接）",
            (UiLanguage::ZhCn, MainMenuItem::Peers) => "已配对设备（列表/撤销）",
            (UiLanguage::ZhCn, MainMenuItem::Serve) => "启动/停止服务",
            (UiLanguage::ZhCn, MainMenuItem::Doctor) => "运行诊断",
            (UiLanguage::ZhCn, MainMenuItem::Help) => "帮助 / 关于",
            (UiLanguage::ZhCn, MainMenuItem::Exit) => "退出",
            (UiLanguage::En, MainMenuItem::Onboard) => "Onboard (Guided setup)",
            (UiLanguage::En, MainMenuItem::Pair) => "Pair (QR / link)",
            (UiLanguage::En, MainMenuItem::Peers) => "Peers (list / revoke)",
            (UiLanguage::En, MainMenuItem::Serve) => "Start/Stop service",
            (UiLanguage::En, MainMenuItem::Doctor) => "Doctor",
            (UiLanguage::En, MainMenuItem::Help) => "Help / About",
            (UiLanguage::En, MainMenuItem::Exit) => "Exit",
        }
    }
}

/// The main menu: the selected position, always one of the entries.
#[derive(Debug, Clone, Copy)]
pub struct MainMenuState {
    selected: usize,
}

impl View for MainMenuState {
    type V = nat;

    closed spec fn view(&self) -> nat {
        self.selected as nat
    }
}

impl MainMenuState {
    #[verifier::type_invariant]
    closed spec fn inv(self) -> bool {
        self.selected < MAIN_MENU_LEN
    }

    pub fn new() -> (m: Self)
        ensures
            m@ == 0,
    {
        MainMenuState { selected: 0 }
    }

    pub fn selected(&self) -> (i: usize)
        ensures
            i == self@,
            i < MAIN_MENU_LEN,
    {
        proof {
            use_type_invariant(self);
        }
        self.selected
    }

    pub fn selected_item(&self) -> (m: MainMenuItem)
        ensures
            m == menu_item_at(self@ as int),
    {
        MainMenuItem::at(self.selected())
    }

    /// Selects the next entry, wrapping to the first.
    pub fn next(&mut self)
        ensures
            final(self)@ == menu_after(old(self)@ as int, MAIN_MENU_LEN as int),
    {
        let i = self.selected();
        *self = MainMenuState { selected: menu_next(i, MAIN_MENU_LEN) };
    }

    /// Selects the previous entry, wrapping to the last.
    pub fn prev(&mut self)
        ensures
            final(self)@ == menu_before(old(self)@ as int, MAIN_MENU_LEN as int),
    {
        let i = self.selected();
        *self = MainMenuState { selected: menu_prev(i, MAIN_MENU_LEN) };
    }
}

/// A screen that only shows a title and a text.
#[derive(Debug, Clone)]
pub struct PlaceholderState {
    pub title: String,
    pub body: String,
}

/// Where pairing was opened from, and where it returns.
#[derive(Debug, Clone, Copy, PartialEq, Eq, Structural)]
pub enum PairingFlow {
    MainMenu,
    Onboard,
}

/// The screens of the terminal interface.
#[derive(Debug, Clone, Copy, PartialEq, Eq, Structural)]
pub enum Screen {
    MainMenu,
    Onboard,
    Pairing,
    Peers,
    Serve,
    Doctor,
    Help,
    Placeholder,
}

/// What the main menu asks the interface to do beyond the state change.
#[derive(Debug, Clone, Copy, PartialEq, Eq, Structural)]
pub enum MenuAction {
    /// Nothing more.
    Stay,
    /// Load the pairing session.
    EnterPairing,
    /// Load the peers.
    EnterPeers,
    /// Run the doctor's checks.
    RunDoctor,
}

/// What a pairing key asks the interface to do beyond the state change.
#[derive(Debug, Clone, Copy, PartialEq, Eq, Structural)]
pub enum PairingKeyAction {
    /// Nothing more.
    Stay,
    /// Make a new pairing token.
    RefreshToken,
    /// Save the permissions chosen for the new device.
    ApplyPermissions,
    /// Make a new pairing token, then close the question.
    RefreshAndClose,
}

/// The terminal interface: the screen shown, each screen's state, and the
/// running server of type `S`, if any.
#[derive(Debug)]
pub struct App<S> {
    pub os: TargetOs,
    pub screen: Screen,
    pub language: UiLanguage,
    pub main_menu: MainMenuState,
    pub onboard: onboard::State,
    pub pairing: pairing::State,
    pub pairing_flow: PairingFlow,
    pub peers: peers::State,
    pub serve: serve::State,
    pub doctor: doctor::State,
    pub help: help::State,
    pub server: Option<S>,
    pub placeholder: Option<PlaceholderState>,
    pub should_quit: bool,
}

/// Moving up or down from a selection past the end moves as from its
/// remainder.
proof fn lemma_wrap_before(i: int, len: int)
    requires
        0 <= i,
        0 < len,
    ensures
        menu_before(i % len, len) == menu_before(i, len),
{
    vstd::arithmetic::div_mod::lemma_add_mod_noop(i, len - 1, len);
    vstd::arithmetic::div_mod::lemma_small_mod((len - 1) as nat, len as nat);
    vstd::arithmetic::div_mod::lemma_mod_bound(i, len);
    vstd::arithmetic::div_mod::lemma_small_mod((i % len) as nat, len as nat);
    vstd::arithmetic::div_mod::lemma_add_mod_noop(i % len, len - 1, len);
}

proof fn lemma_wrap_after(i: int, len: int)
    requires
        0 <= i,
        0 < len,
    ensures
        menu_after(i % len, len) == menu_after(i, len),
{
    vstd::arithmetic::div_mod::lemma_add_mod_noop(i, 1, len);
    vstd::arithmetic::div_mod::lemma_mod_bound(i, len);
    vstd::arithmetic::div_mod::lemma_small_mod((i % len) as nat, len as nat);
    vstd::arithmetic::div_mod::lemma_add_mod_noop(i % len, 1, len);
}

impl<S> App<S> {
    pub fn new(os: TargetOs, welcome_phrase_idx: usize) -> (a: Self)
        ensures
            a.os == os,
            a.screen == Screen::MainMenu,
            a.language == UiLanguage::ZhCn,
            a.main_menu@ == 0,
            a.onboard.wf(),
            a.onboard.step == onboard::Step::WelcomeLanguage,
            a.pairing_flow == PairingFlow::MainMenu,
            a.peers.wf(),
            a.server is None,
            a.placeholder is None,
            !a.should_quit,
    {
        App {
            os,
            screen: Screen::MainMenu,
            language: UiLanguage::ZhCn,
            main_menu: MainMenuState::new(),
            onboard: onboard::State::new(os, welcome_phrase_idx),
            pairing: pairing::State::new(),
            pairing_flow: PairingFlow::MainMenu,
            peers: peers::State::new(),
            serve: serve::State::new(),
            doctor: doctor::State::new(),
            help: help::State::new(),
            server: None,
            placeholder: None,
            should_quit: false,
        }
    }

    /// Shows a placeholder screen.
    pub fn open_placeholder(&mut self, title: String, body: String)
        ensures
            final(self).screen == Screen::Placeholder,
            final(self).placeholder matches Some(p) && p.title@ == title@ && p.body@ == body@,
    {
        self.placeholder = Some(PlaceholderState { title, body });
        self.screen = Screen::Placeholder;
    }

    /// Back to the main menu, dropping any placeholder.
    pub fn go_home(&mut self)
        ensures
            final(self).screen == Screen::MainMenu,
            final(self).placeholder is None,
            final(self).language == old(self).language,
            final(self).should_quit == old(self).should_quit,
            final(self).main_menu@ == old(self).main_menu@,
            final(self).onboard == old(self).onboard,
            final(self).pairing == old(self).pairing,
            final(self).pairing_flow == old(self).pairing_flow,
            final(self).os == old(self).os,
            final(self).server == old(self).server,
            final(self).serve == old(self).serve,
    {
        self.screen = Screen::MainMenu;
        self.placeholder = None;
    }

    /// Starts onboarding afresh, in the interface's language.
    pub fn start_onboard(&mut self, welcome_phrase_idx: usize)
        ensures
            final(self).screen == Screen::Onboard,
            final(self).onboard.wf(),
            final(self).onboard.step == onboard::Step::WelcomeLanguage,
            final(self).onboard.language == old(self).language,
            final(self).language == old(self).language,
            final(self).should_quit == old(self).should_quit,
    {
        self.onboard = onboard::State::new(self.os, welcome_phrase_idx);
        self.onboard.language = self.language;
        self.screen = Screen::Onboard;
    }

    /// Opens pairing afresh, from the given flow.
    pub fn start_pairing(&mut self, flow: PairingFlow)
        ensures
            final(self).screen == Screen::Pairing,
            final(self).pairing_flow == flow,
            final(self).pairing.overlay is Closed,
            final(self).language == old(self).language,
            final(self).should_quit == old(self).should_quit,
            final(self).onboard.wf() == old(self).onboard.wf(),
    {
        self.pairing = pairing::State::new();
        self.pairing_flow = flow;
        self.screen = Screen::Pairing;
    }

    /// Opens the peers screen afresh.
    pub fn start_peers(&mut self)
        ensures
            final(self).screen == Screen::Peers,
            final(self).peers.wf(),
            final(self).peers.peers@.len() == 0,
            final(self).language == old(self).language,
            final(self).should_quit == old(self).should_quit,
    {
        self.peers = peers::State::new();
        self.screen = Screen::Peers;
    }

    /// Opens the serve screen afresh.
    pub fn start_serve(&mut self)
        ensures
            final(self).screen == Screen::Serve,
            final(self).serve.menu == Some(0usize),
            final(self).language == old(self).language,
            final(self).should_quit == old(self).should_quit,
    {
        self.serve = serve::State::new();
        self.screen = Screen::Serve;
    }

    /// Opens the doctor screen afresh.
    pub fn start_doctor(&mut self)
        ensures
            final(self).screen == Screen::Doctor,
            final(self).doctor.checks@.len() == 0,
            final(self).language == old(self).language,
            final(self).should_quit == old(self).should_quit,
    {
        self.doctor = doctor::State::new();
        self.screen = Screen::Doctor;
    }

    /// Opens the help screen on its first tab, in the interface's language.
    pub fn start_help(&mut self)
        ensures
            final(self).screen == Screen::Help,
            final(self).help.tab == help::HelpTab::About,
            final(self).help.lang == old(self).language,
            final(self).language == old(self).language,
            final(self).should_quit == old(self).should_quit,
    {
        self.help = help::State::new();
        self.help.lang = self.language;
        self.screen = Screen::Help;
    }

    /// A key on the main menu: the arrows move the selection, Enter opens the
    /// selected entry, Esc and `q` quit.
    pub fn handle_key_main_menu(&mut self, key: Key, welcome_phrase_idx: usize) -> (a: MenuAction)
        ensures
            key == Key::Up ==> final(self).main_menu@ == menu_before(old(self).main_menu@ as int, MAIN_MENU_LEN as int)
                && a == MenuAction::Stay,
            key == Key::Down ==> final(self).main_menu@ == menu_after(old(self).main_menu@ as int, MAIN_MENU_LEN as int)
                && a == MenuAction::Stay,
            key == Key::Esc || key == Key::Char('q') ==> final(self).should_quit && a == MenuAction::Stay,
            key == Key::Enter ==> match menu_item_at(old(self).main_menu@ as int) {
                MainMenuItem::Exit => final(self).should_quit && a == MenuAction::Stay,
                MainMenuItem::Onboard => final(self).screen == Screen::Onboard && a == MenuAction::Stay,
                MainMenuItem::Pair => final(self).screen == Screen::Pairing && final(self).pairing_flow
                    == PairingFlow::MainMenu && a == MenuAction::EnterPairing,
                MainMenuItem::Peers => final(self).screen == Screen::Peers && a == MenuAction::EnterPeers,
                MainMenuItem::Serve => final(self).screen == Screen::Serve && final(self).serve.error is None
                    && a == MenuAction::Stay,
                MainMenuItem::Doctor => final(self).screen == Screen::Doctor && a == MenuAction::RunDoctor,
                MainMenuItem::Help => final(self).screen == Screen::Help && a == MenuAction::Stay,
            },
    {
        match key {
            Key::Up => {
                self.main_menu.prev();
                MenuAction::Stay
            },
            Key::Down => {
                self.main_menu.next();
                MenuAction::Stay
            },
            Key::Enter => match self.main_menu.selected_item() {
                MainMenuItem::Exit => {
                    self.should_quit = true;
                    MenuAction::Stay
                },
                MainMenuItem::Onboard => {
                    self.start_onboard(welcome_phrase_idx);
                    MenuAction::Stay
                },
                MainMenuItem::Pair => {
                    self.start_pairing(PairingFlow::MainMenu);
                    MenuAction::EnterPairing
                },
                MainMenuItem::Peers => {
                    self.start_peers();
                    MenuAction::EnterPeers
                },
                MainMenuItem::Serve => {
                    self.start_serve();
                    self.serve.enter();
                    MenuAction::Stay
                },
                MainMenuItem::Doctor => {
                    self.start_doctor();
                    MenuAction::RunDoctor
                },
                MainMenuItem::Help => {
                    self.start_help();
                    MenuAction::Stay
                },
            },
            Key::Esc | Key::Char('q') => {
                self.should_quit = true;
                MenuAction::Stay
            },
            _ => MenuAction::Stay,
        }
    }

    /// A key on a placeholder: Esc or Enter go home, `q` quits.
    pub fn handle_key_placeholder(&mut self, key: Key)
        ensures
            key == Key::Esc || key == Key::Enter ==> final(self).screen == Screen::MainMenu
                && final(self).placeholder is None,
            key == Key::Char('q') ==> final(self).should_quit,
    {
        match key {
            Key::Esc | Key::Enter => self.go_home(),
            Key::Char('q') => self.should_quit = true,
            _ => {},
        }
    }

    /// A key on the doctor screen: Esc goes home, `q` quits.
    pub fn handle_key_doctor(&mut self, key: Key)
        ensures
            key == Key::Esc ==> final(self).screen == Screen::MainMenu,
            key == Key::Char('q') ==> final(self).should_quit,
    {
        match key {
            Key::Esc => self.go_home(),
            Key::Char('q') => self.should_quit = true,
            _ => {},
        }
    }

    /// A key on the help screen: Tab and Right go to the next tab, BackTab and
    /// Left to the previous one, Esc goes home, `q` quits.
    pub fn handle_key_help(&mut self, key: Key)
        ensures
            key == Key::Esc ==> final(self).screen == Screen::MainMenu,
            key == Key::Char('q') ==> final(self).should_quit,
            key == Key::Tab || key == Key::Right ==> final(self).help.tab == help::tab_after(old(self).help.tab),
            key == Key::BackTab || key == Key::Left ==> final(self).help.tab == help::tab_before(
                old(self).help.tab,
            ),
    {
        match key {
            Key::Esc => self.go_home(),
            Key::Char('q') => self.should_quit = true,
            Key::Tab | Key::Right => self.help.next_tab(),
            Key::BackTab | Key::Left => self.help.prev_tab(),
            _ => {},
        }
    }

    /// A key on the serve screen: the arrows move through the listed actions,
    /// Enter gives the selected one to run and selects the first again, Esc
    /// goes home, `q` quits.
    pub fn handle_key_serve(&mut self, key: Key) -> (run: Option<serve::ServeAction>)
        ensures
            key == Key::Char('q') ==> final(self).should_quit && run is None,
            key == Key::Esc ==> final(self).screen == Screen::MainMenu && run is None,
            key == Key::Enter ==> ({
                let list = serve::serve_actions(
                    old(self).os,
                    old(self).server is Some,
                    old(self).serve.user_service_active,
                );
                let sel = match old(self).serve.menu {
                    Some(i) => i as int,
                    None => 0,
                };
                let idx = if sel < list.len() - 1 {
                    sel
                } else {
                    list.len() - 1
                };
                run == Some(list[idx]) && final(self).serve.menu == Some(0usize)
            }),
            key != Key::Enter ==> run is None,
            ({
                let len = serve::serve_actions(
                    old(self).os,
                    old(self).server is Some,
                    old(self).serve.user_service_active,
                ).len() as int;
                let sel = match old(self).serve.menu {
                    Some(i) => i as int,
                    None => 0,
                };
                &&& key == Key::Up ==> final(self).serve.menu == Some(menu_before(sel, len) as usize)
                &&& key == Key::Down ==> final(self).serve.menu == Some(menu_after(sel, len) as usize)
                &&& key != Key::Up && key != Key::Down && key != Key::Enter && key != Key::Char('q')
                    ==> final(self).serve.menu == Some(sel as usize)
            }),
            key != Key::Esc && key != Key::Char('q') ==> final(self).screen == old(self).screen,
            final(self).should_quit == (old(self).should_quit || key == Key::Char('q')),
            final(self).serve.error == old(self).serve.error,
            final(self).serve.user_service_active == old(self).serve.user_service_active,
            final(self).server == old(self).server,
            final(self).os == old(self).os,
    {
        if key == Key::Char('q') {
            self.should_quit = true;
            return None;
        }
        let list = serve::actions(self.os, self.server.is_some(), self.serve.user_service_active);
        let len = list.len();
        let sel = match self.serve.menu {
            Some(i) => i,
            None => 0,
        };
        self.serve.menu = Some(sel);
        match key {
            Key::Esc => {
                self.go_home();
                None
            },
            Key::Up => {
                proof {
                    lemma_wrap_before(sel as int, len as int);
                }
                self.serve.menu = Some(menu_prev(sel % len, len));
                None
            },
            Key::Down => {
                proof {
                    lemma_wrap_after(sel as int, len as int);
                }
                self.serve.menu = Some(menu_next(sel % len, len));
                None
            },
            Key::Enter => {
                let idx = if sel < len - 1 {
                    sel
                } else {
                    len - 1
                };
                let action = list[idx];
                self.serve.menu = Some(0);
                Some(action)
            },
            _ => None,
        }
    }

    /// A key on the pairing screen.
    pub fn handle_key_pairing(&mut self, key: Key) -> (a: PairingKeyAction)
        ensures
            key == Key::Char('q') ==> final(self).should_quit && a == PairingKeyAction::Stay,
            key != Key::Char('q') ==> match old(self).pairing.overlay {
                pairing::Overlay::Closed => match key {
                    Key::Esc => a == PairingKeyAction::Stay && final(self).screen == (match old(
                        self,
                    ).pairing_flow {
                        PairingFlow::MainMenu => Screen::MainMenu,
                        PairingFlow::Onboard => Screen::Onboard,
                    }),
                    Key::Char('r') => a == PairingKeyAction::RefreshToken,
                    _ => a == PairingKeyAction::Stay,
                },
                pairing::Overlay::Permissions { .. } => match key {
                    Key::Esc => a == PairingKeyAction::Stay && final(self).pairing.overlay is Closed,
                    Key::Enter => a == PairingKeyAction::ApplyPermissions,
                    _ => a == PairingKeyAction::Stay,
                },
                pairing::Overlay::Continue { menu } => match key {
                    Key::Esc => a == PairingKeyAction::Stay && final(self).pairing.overlay is Closed,
                    Key::Enter => if menu == 0 {
                        a == PairingKeyAction::RefreshAndClose
                    } else {
                        a == PairingKeyAction::Stay && final(self).pairing.overlay is Closed
                            && final(self).screen == (match old(self).pairing_flow {
                            PairingFlow::MainMenu => Screen::MainMenu,
                            PairingFlow::Onboard => Screen::Onboard,
                        })
                    },
                    _ => a == PairingKeyAction::Stay,
                },
            },
    {
        if key == Key::Char('q') {
            self.should_quit = true;
            return PairingKeyAction::Stay;
        }
        match self.pairing.overlay {
            pairing::Overlay::Closed => match key {
                Key::Esc => {
                    self.leave_pairing();
                    PairingKeyAction::Stay
                },
                Key::Char('r') => PairingKeyAction::RefreshToken,
                _ => PairingKeyAction::Stay,
            },
            pairing::Overlay::Permissions { .. } => match key {
                Key::Esc => {
                    self.pairing.close_overlay();
                    PairingKeyAction::Stay
                },
                Key::Enter => PairingKeyAction::ApplyPermissions,
                _ => {
                    self.pairing.move_in_overlay(key);
                    PairingKeyAction::Stay
                },
            },
            pairing::Overlay::Continue { menu } => match key {
                Key::Esc => {
                    self.pairing.close_overlay();
                    PairingKeyAction::Stay
                },
                Key::Enter => {
                    if menu == 0 {
                        PairingKeyAction::RefreshAndClose
                    } else {
                        self.pairing.close_overlay();
                        self.leave_pairing();
                        PairingKeyAction::Stay
                    }
                },
                _ => {
                    self.pairing.move_in_overlay(key);
                    PairingKeyAction::Stay
                },
            },
        }
    }

    /// A key on the onboarding screen: the flow decides; leaving, quitting
    /// and a change of language are applied here, and the rest is handed on.
    pub fn handle_key_onboard(&mut self, key: Key) -> (a: onboard::OnboardAction)
        requires
            old(self).onboard.wf(),
            old(self).onboard.port@.0.len() < usize::MAX,
            old(self).onboard.public_url@.0.len() < usize::MAX,
            old(self).onboard.workspace_path@.0.len() < usize::MAX,
        ensures
            onboard::State::key_handled(old(self).onboard, final(self).onboard, key, a),
            final(self).should_quit == (old(self).should_quit || a == onboard::OnboardAction::Quit),
            final(self).screen == (if a == onboard::OnboardAction::GoHome {
                Screen::MainMenu
            } else {
                old(self).screen
            }),
            a == onboard::OnboardAction::GoHome ==> final(self).placeholder is None,
            final(self).language == (if a == onboard::OnboardAction::LanguageChanged {
                final(self).onboard.language
            } else {
                old(self).language
            }),
            final(self).main_menu@ == old(self).main_menu@,
            final(self).pairing == old(self).pairing,
            final(self).pairing_flow == old(self).pairing_flow,
    {
        let a = self.onboard.handle_key(key);
        match a {
            onboard::OnboardAction::Quit => self.should_quit = true,
            onboard::OnboardAction::GoHome => self.go_home(),
            onboard::OnboardAction::LanguageChanged => self.language = self.onboard.language,
            _ => {},
        }
        a
    }

    /// Where Esc leads from pairing: home, or back to onboarding.
    pub fn leave_pairing(&mut self)
        ensures
            final(self).screen == (match old(self).pairing_flow {
                PairingFlow::MainMenu => Screen::MainMenu,
                PairingFlow::Onboard => Screen::Onboard,
            }),
            final(self).pairing == old(self).pairing,
            final(self).onboard == old(self).onboard,
    {
        match self.pairing_flow {
            PairingFlow::MainMenu => self.go_home(),
            PairingFlow::Onboard => self.screen = Screen::Onboard,
        }
    }
}

} // verus!
