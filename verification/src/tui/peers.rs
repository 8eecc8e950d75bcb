use vstd::prelude::*;

use crate::peer::{DeviceId, PeerGrant};
use crate::text::{chars_eq, chars_of, trim, trim_chars, string_from_chars};
use crate::tui::keys::{menu_next, menu_prev, menu_after, menu_before, Key};
use crate::tui::peer_permissions::{preset_at, preset_index, preset_permissions, PermissionPreset};
use crate::tui::text_input::TextInput;

verus! {

/// The overlay of the peers screen.
#[derive(Debug, Clone)]
pub enum Overlay {
    Closed,
    /// The actions on the selected peer: permissions, revoke, cancel.
    Actions { menu: usize },
    /// A new name for a peer.
    Rename { device_id: DeviceId, input: TextInput },
    /// New permissions for a peer.
    Permissions { device_id: DeviceId, menu: usize },
    /// Whether to revoke a peer: no, yes.
    RevokeConfirm { device_id: DeviceId, menu: usize },
}

/// The peers screen: the list, its selection, the overlay and the last error.
#[derive(Debug)]
pub struct State {
    pub peers: Vec<PeerGrant>,
    pub selected: Option<usize>,
    pub overlay: Overlay,
    pub error: Option<String>,
}

/// The position of the first peer with this id.
pub open spec fn index_of_peer(peers: Seq<PeerGrant>, id: Seq<char>) -> Option<int> {
    if exists|i: int| 0 <= i < peers.len() && peers[i].device_id@ == id {
        let i = choose|i: int|
            0 <= i < peers.len() && peers[i].device_id@ == id && forall|j: int|
                0 <= j < i ==> peers[j].device_id@ != id;
        Some(i)
    } else {
        None
    }
}

/// The overlay asks for the permissions of the peer with this id, proposing
/// the preset that matches the permissions of the first peer listed with it.
pub open spec fn asks_permissions_of(peers: Seq<PeerGrant>, id: Seq<char>, o: Overlay) -> bool {
    o matches Overlay::Permissions { device_id: d, menu } && d@ == id && (index_of_peer(peers, id) matches Some(
        k,
    ) && menu == preset_index(crate::tui::peer_permissions::suggested_preset(peers[k].permissions)))
}

/// What a peers key asks the interface to do beyond the state change.
#[derive(Debug, Clone, Copy, PartialEq, Eq, Structural)]
pub enum PeersKeyAction {
    /// Nothing more.
    Stay,
    /// Leave the program.
    Quit,
    /// Back to the main menu.
    GoHome,
    /// Reload the list.
    Refresh,
    /// Save the permissions chosen in the overlay.
    ApplyPermissions,
    /// Revoke the peer the overlay names.
    Revoke,
}

fn find_peer(peers: &Vec<PeerGrant>, id: &DeviceId) -> (r: Option<usize>)
    ensures
        match r {
            Some(k) => k < peers@.len() && peers@[k as int].device_id@ == id@ && forall|j: int|
                0 <= j < k ==> peers@[j].device_id@ != id@,
            None => forall|j: int| 0 <= j < peers@.len() ==> peers@[j].device_id@ != id@,
        },
{
    let want = chars_of(id.as_str());
    let mut i: usize = 0;
    while i < peers.len()
        invariant
            i <= peers@.len(),
            want@ == id@,
            forall|j: int| 0 <= j < i ==> peers@[j].device_id@ != id@,
        decreases peers@.len() - i,
    {
        let have = chars_of(peers[i].device_id.as_str());
        if chars_eq(have.as_slice(), want.as_slice()) {
            return Some(i);
        }
        i = i + 1;
    }
    None
}

proof fn lemma_index_of_peer(peers: Seq<PeerGrant>, id: Seq<char>, k: int)
    requires
        0 <= k < peers.len(),
        peers[k].device_id@ == id,
        forall|j: int| 0 <= j < k ==> peers[j].device_id@ != id,
    ensures
        index_of_peer(peers, id) == Some(k),
{
    let i = choose|i: int|
        0 <= i < peers.len() && peers[i].device_id@ == id && forall|j: int|
            0 <= j < i ==> peers[j].device_id@ != id;
    if i < k {
        assert(peers[i].device_id@ != id);
    } else if i > k {
        assert(peers[k].device_id@ != id);
    }
}

impl State {
    /// The selection names a listed peer, if any.
    pub open spec fn wf(&self) -> bool {
        self.selected matches Some(i) ==> i < self.peers@.len()
    }

    /// The id of the selected peer, if one is selected.
    pub open spec fn selected_id(&self) -> Option<Seq<char>> {
        match self.selected {
            Some(i) => if i < self.peers@.len() {
                Some(self.peers@[i as int].device_id@)
            } else {
                None
            },
            None => None,
        }
    }

    pub fn new() -> (s: Self)
        ensures
            s.wf(),
            s.peers@.len() == 0,
            s.selected is None,
            s.overlay is Closed,
            s.error is None,
    {
        State { peers: Vec::new(), selected: None, overlay: Overlay::Closed, error: None }
    }

    /// Entering the screen clears the error and closes the overlay; the list
    /// is then reloaded.
    pub fn enter(&mut self)
        ensures
            final(self).error is None,
            final(self).overlay is Closed,
            final(self).peers@ == old(self).peers@,
            final(self).selected == old(self).selected,
    {
        self.error = None;
        self.overlay = Overlay::Closed;
    }

    /// Takes a reloaded list, keeping the selected peer selected where it is
    /// still listed, the first one otherwise, nothing when the list is empty.
    pub fn refresh_with(&mut self, peers: Vec<PeerGrant>)
        requires
            old(self).wf(),
        ensures
            final(self).wf(),
            final(self).peers@ == peers@,
            final(self).overlay == old(self).overlay,
            peers@.len() == 0 ==> final(self).selected is None,
            peers@.len() > 0 ==> final(self).selected == Some(
                match old(self).selected {
                    Some(i) => match index_of_peer(peers@, old(self).peers@[i as int].device_id@) {
                        Some(k) => k as usize,
                        None => 0usize,
                    },
                    None => 0usize,
                },
            ),
    {
        let selected_id = self.selected_device_id();
        self.peers = peers;
        self.restore_selection(selected_id);
    }

    fn restore_selection(&mut self, selected_id: Option<DeviceId>)
        ensures
            final(self).wf(),
            final(self).peers@ == old(self).peers@,
            final(self).overlay == old(self).overlay,
            old(self).peers@.len() == 0 ==> final(self).selected is None,
            old(self).peers@.len() > 0 ==> final(self).selected == Some(
                match selected_id {
                    Some(id) => match index_of_peer(old(self).peers@, id@) {
                        Some(k) => k as usize,
                        None => 0usize,
                    },
                    None => 0usize,
                },
            ),
    {
        if self.peers.len() == 0 {
            self.selected = None;
            return;
        }
        let idx = match selected_id {
            Some(id) => match find_peer(&self.peers, &id) {
                Some(k) => {
                    proof {
                        lemma_index_of_peer(self.peers@, id@, k as int);
                    }
                    k
                },
                None => 0,
            },
            None => 0,
        };
        self.selected = Some(idx);
    }

    /// Moves the selection down, wrapping; from no selection to the second
    /// peer, as from the first.
    pub fn next_peer(&mut self)
        requires
            old(self).wf(),
        ensures
            final(self).wf(),
            final(self).peers@ == old(self).peers@,
            final(self).overlay == old(self).overlay,
            final(self).error == old(self).error,
            final(self).selected == (if old(self).peers@.len() == 0 {
                None
            } else {
                Some(
                    menu_after(
                        match old(self).selected {
                            Some(i) => i as int,
                            None => 0,
                        },
                        old(self).peers@.len() as int,
                    ) as usize,
                )
            }),
    {
        if self.peers.len() == 0 {
            self.selected = None;
            return;
        }
        let i = match self.selected {
            Some(i) => i,
            None => 0,
        };
        self.selected = Some(menu_next(i, self.peers.len()));
    }

    /// Moves the selection up, wrapping; from no selection to the last peer,
    /// as from the first.
    pub fn prev_peer(&mut self)
        requires
            old(self).wf(),
        ensures
            final(self).wf(),
            final(self).peers@ == old(self).peers@,
            final(self).overlay == old(self).overlay,
            final(self).error == old(self).error,
            final(self).selected == (if old(self).peers@.len() == 0 {
                None
            } else {
                Some(
                    menu_before(
                        match old(self).selected {
                            Some(i) => i as int,
                            None => 0,
                        },
                        old(self).peers@.len() as int,
                    ) as usize,
                )
            }),
    {
        if self.peers.len() == 0 {
            self.selected = None;
            return;
        }
        let i = match self.selected {
            Some(i) => i,
            None => 0,
        };
        self.selected = Some(menu_prev(i, self.peers.len()));
    }

    /// The selected peer.
    pub fn selected_peer(&self) -> (p: Option<&PeerGrant>)
        ensures
            match self.selected {
                Some(i) => if i < self.peers@.len() {
                    p == Some(&self.peers@[i as int])
                } else {
                    p is None
                },
                None => p is None,
            },
    {
        match self.selected {
            Some(i) => if i < self.peers.len() {
                Some(&self.peers[i])
            } else {
                None
            },
            None => None,
        }
    }

    /// The id of the selected peer.
    pub fn selected_device_id(&self) -> (id: Option<DeviceId>)
        ensures
            match self.selected {
                Some(i) => if i < self.peers@.len() {
                    id matches Some(d) && d@ == self.peers@[i as int].device_id@
                } else {
                    id is None
                },
                None => id is None,
            },
    {
        match self.selected_peer() {
            Some(p) => Some(p.device_id.clone()),
            None => None,
        }
    }

    /// Opens the actions of the selected peer, if one is selected.
    pub fn open_actions_overlay(&mut self)
        ensures
            final(self).peers@ == old(self).peers@,
            final(self).error == old(self).error,
            final(self).selected == old(self).selected,
            (old(self).selected matches Some(i) && i < old(self).peers@.len()) ==> final(self).overlay == (
            Overlay::Actions { menu: 0 }),
            !(old(self).selected matches Some(i) && i < old(self).peers@.len()) ==> final(self).overlay
                == old(self).overlay,
    {
        if self.selected_peer().is_none() {
            return;
        }
        self.overlay = Overlay::Actions { menu: 0 };
    }

    /// Opens the permissions of a listed peer, proposing the preset that
    /// matches its permissions.
    pub fn open_permissions_overlay(&mut self, device_id: DeviceId)
        requires
            exists|i: int| 0 <= i < old(self).peers@.len() && old(self).peers@[i].device_id@ == device_id@,
        ensures
            final(self).peers@ == old(self).peers@,
            final(self).error == old(self).error,
            final(self).selected == old(self).selected,
            final(self).overlay matches Overlay::Permissions { device_id: d, menu } && d@ == device_id@
                && (index_of_peer(old(self).peers@, device_id@) matches Some(k) && menu == preset_index(
                crate::tui::peer_permissions::suggested_preset(old(self).peers@[k].permissions),
            )),
    {
        let k = match find_peer(&self.peers, &device_id) {
            Some(k) => k,
            None => {
                return;
            },
        };
        proof {
            lemma_index_of_peer(self.peers@, device_id@, k as int);
        }
        let preset = PermissionPreset::suggest_for(self.peers[k].permissions);
        let idx = preset.index();
        self.overlay = Overlay::Permissions { device_id, menu: idx };
    }

    /// Opens the renaming of a listed peer, starting from its current name.
    pub fn open_rename_overlay(&mut self, device_id: DeviceId)
        requires
            exists|i: int| 0 <= i < old(self).peers@.len() && old(self).peers@[i].device_id@ == device_id@,
        ensures
            final(self).peers@ == old(self).peers@,
            final(self).selected == old(self).selected,
            final(self).overlay matches Overlay::Rename { device_id: d, input } && d@ == device_id@
                && (index_of_peer(old(self).peers@, device_id@) matches Some(k) && input@ == (
                old(self).peers@[k].device_name@,
                old(self).peers@[k].device_name@.len(),
            )),
    {
        let k = match find_peer(&self.peers, &device_id) {
            Some(k) => k,
            None => {
                return;
            },
        };
        proof {
            lemma_index_of_peer(self.peers@, device_id@, k as int);
        }
        let input = TextInput::new(self.peers[k].device_name.clone());
        self.overlay = Overlay::Rename { device_id, input };
    }

    /// Asks whether to revoke a peer, "no" proposed.
    pub fn open_revoke_overlay(&mut self, device_id: DeviceId)
        ensures
            final(self).peers@ == old(self).peers@,
            final(self).error == old(self).error,
            final(self).selected == old(self).selected,
            final(self).overlay matches Overlay::RevokeConfirm { device_id: d, menu } && d@ == device_id@ && menu
                == 0,
    {
        self.overlay = Overlay::RevokeConfirm { device_id, menu: 0 };
    }

    pub fn close_overlay(&mut self)
        ensures
            final(self).peers@ == old(self).peers@,
            final(self).error == old(self).error,
            final(self).selected == old(self).selected,
            final(self).overlay is Closed,
    {
        self.overlay = Overlay::Closed;
    }

    /// The chosen action, when the actions are open.
    pub fn overlay_selected_action(&self) -> (r: Option<usize>)
        ensures
            r == (match self.overlay {
                Overlay::Actions { menu } => Some(menu),
                _ => None,
            }),
    {
        match &self.overlay {
            Overlay::Actions { menu } => Some(*menu),
            _ => None,
        }
    }

    /// Whether "yes" is chosen, when the revocation question is open.
    pub fn overlay_selected_revoke(&self) -> (r: Option<bool>)
        ensures
            r == (match self.overlay {
                Overlay::RevokeConfirm { menu, .. } => Some(menu == 1),
                _ => None,
            }),
    {
        match &self.overlay {
            Overlay::RevokeConfirm { menu, .. } => Some(*menu == 1),
            _ => None,
        }
    }

    /// The grant to save for the rename overlay: the peer with the trimmed
    /// new name; `None` when no rename is open or the peer is not listed.
    #[verifier::loop_isolation(false)]
    pub fn renamed_grant(&self) -> (r: Option<PeerGrant>)
        ensures
            match self.overlay {
                Overlay::Rename { device_id, input } => match index_of_peer(self.peers@, device_id@) {
                    Some(k) => r matches Some(g) && g.device_name@ == trim(input@.0) && (
                    g.fields().0,
                    g.fields().2,
                    g.fields().3,
                    g.fields().4,
                    g.fields().5,
                ) == (
                        self.peers@[k].fields().0,
                        self.peers@[k].fields().2,
                        self.peers@[k].fields().3,
                        self.peers@[k].fields().4,
                        self.peers@[k].fields().5,
                    ),
                    None => r is None,
                },
                _ => r is None,
            },
    {
        match &self.overlay {
            Overlay::Rename { device_id, input } => {
                let cs = chars_of(input.value());
                let name = string_from_chars(trim_chars(cs.as_slice()).as_slice());
                match find_peer(&self.peers, device_id) {
                    Some(k) => {
                        proof {
                            lemma_index_of_peer(self.peers@, device_id@, k as int);
                        }
                        let mut g = self.peers[k].clone_grant();
                        g.device_name = name;
                        Some(g)
                    },
                    None => None,
                }
            },
            _ => None,
        }
    }

    /// The grant to save for the permissions overlay: the peer with the
    /// chosen preset's permissions; `None` when no such overlay is open or
    /// the peer is not listed.
    #[verifier::loop_isolation(false)]
    pub fn regranted_permissions(&self) -> (r: Option<PeerGrant>)
        ensures
            match self.overlay {
                Overlay::Permissions { device_id, menu } => match index_of_peer(self.peers@, device_id@) {
                    Some(k) => menu < 3 ==> (r matches Some(g) && g.permissions == preset_permissions(
                        preset_at(menu as int),
                    ) && (g.fields().0, g.fields().1, g.fields().2, g.fields().4, g.fields().5) == (
                        self.peers@[k].fields().0,
                        self.peers@[k].fields().1,
                        self.peers@[k].fields().2,
                        self.peers@[k].fields().4,
                        self.peers@[k].fields().5,
                    )),
                    None => r is None,
                },
                _ => r is None,
            },
    {
        match &self.overlay {
            Overlay::Permissions { device_id, menu } => {
                let m: usize = *menu;
                match find_peer(&self.peers, device_id) {
                    Some(k) => {
                        proof {
                            lemma_index_of_peer(self.peers@, device_id@, k as int);
                        }
                        if m >= 3 {
                            return None;
                        }
                        let mut g = self.peers[k].clone_grant();
                        g.permissions = PermissionPreset::at(m).permissions();
                        Some(g)
                    },
                    None => None,
                }
            },
            _ => None,
        }
    }

    /// The peer to revoke, when the revocation question is open.
    pub fn revocation_target(&self) -> (r: Option<DeviceId>)
        ensures
            match self.overlay {
                Overlay::RevokeConfirm { device_id, .. } => r matches Some(d) && d@ == device_id@,
                _ => r is None,
            },
    {
        match &self.overlay {
            Overlay::RevokeConfirm { device_id, .. } => Some(device_id.clone()),
            _ => None,
        }
    }

    /// Applies a key to the peers screen and says what else the interface
    /// must do.
    pub fn handle_key(&mut self, key: Key) -> (a: PeersKeyAction)
        requires
            old(self).wf(),
        ensures
            final(self).wf(),
            final(self).peers@ == old(self).peers@,
            final(self).error == old(self).error,
            !(old(self).overlay is Closed && (key == Key::Up || key == Key::Down)) ==> final(self).selected == old(
                self,
            ).selected,
            key == Key::Char('q') ==> a is Quit,
            key != Key::Char('q') ==> match old(self).overlay {
                Overlay::Closed => match key {
                    Key::Esc => a is GoHome,
                    Key::Char('r') => a is Refresh,
                    Key::Up => a is Stay && final(self).overlay == old(self).overlay && final(self).selected == (if old(self).peers@.len() == 0 {
                        None
                    } else {
                        Some(
                            menu_before(
                                match old(self).selected {
                                    Some(i) => i as int,
                                    None => 0,
                                },
                                old(self).peers@.len() as int,
                            ) as usize,
                        )
                    }),
                    Key::Down => a is Stay && final(self).overlay == old(self).overlay && final(self).selected == (if old(self).peers@.len() == 0 {
                        None
                    } else {
                        Some(
                            menu_after(
                                match old(self).selected {
                                    Some(i) => i as int,
                                    None => 0,
                                },
                                old(self).peers@.len() as int,
                            ) as usize,
                        )
                    }),
                    Key::Enter => a is Stay && ((old(self).selected matches Some(i) && i < old(self).peers@.len())
                        ==> final(self).overlay == (Overlay::Actions { menu: 0 })),
                    Key::Char('p') => a is Stay && match old(self).selected_id() {
                        Some(id) => asks_permissions_of(old(self).peers@, id, final(self).overlay),
                        None => final(self).overlay == old(self).overlay,
                    },
                    Key::Char('d') => a is Stay && (old(self).selected_id() matches Some(id) ==> (
                    final(self).overlay matches Overlay::RevokeConfirm { device_id: d, menu: m } && m == 0 && d@
                        == id)),
                    _ => a is Stay,
                },
                Overlay::Actions { menu } => match key {
                    Key::Esc => a is Stay && final(self).overlay is Closed,
                    Key::Up => a is Stay && (menu < 3 ==> final(self).overlay == (Overlay::Actions {
                        menu: menu_before(menu as int, 3) as usize,
                    })),
                    Key::Down => a is Stay && (menu < 3 ==> final(self).overlay == (Overlay::Actions {
                        menu: menu_after(menu as int, 3) as usize,
                    })),
                    Key::Enter => a is Stay && (menu == 2 ==> final(self).overlay is Closed) && (menu == 1 ==> (
                    old(self).selected_id() matches Some(id) ==> (final(self).overlay matches Overlay::RevokeConfirm {
                        device_id: d,
                        menu: m,
                    } && m == 0 && d@ == id))) && (menu == 0 ==> match old(self).selected_id() {
                        Some(id) => asks_permissions_of(old(self).peers@, id, final(self).overlay),
                        None => final(self).overlay == old(self).overlay,
                    }),
                    _ => a is Stay,
                },
                Overlay::Permissions { menu, .. } => match key {
                    Key::Esc => a is Stay && final(self).overlay is Closed,
                    Key::Enter => a is ApplyPermissions,
                    Key::Up => a is Stay && (menu < 3 ==> (final(self).overlay matches Overlay::Permissions {
                        menu: m,
                        ..
                    } && m == menu_before(menu as int, 3))),
                    Key::Down => a is Stay && (menu < 3 ==> (final(self).overlay matches Overlay::Permissions {
                        menu: m,
                        ..
                    } && m == menu_after(menu as int, 3))),
                    _ => a is Stay,
                },
                Overlay::RevokeConfirm { menu, .. } => match key {
                    Key::Esc => a is Stay && final(self).overlay is Closed,
                    Key::Enter => if menu == 1 {
                        a is Revoke
                    } else {
                        a is Stay && final(self).overlay is Closed
                    },
                    Key::Left | Key::Up => a is Stay && (menu < 2 ==> (final(self).overlay matches Overlay::RevokeConfirm {
                        menu: m,
                        ..
                    } && m == menu_before(menu as int, 2))),
                    Key::Right | Key::Down => a is Stay && (menu < 2 ==> (final(self).overlay matches Overlay::RevokeConfirm {
                        menu: m,
                        ..
                    } && m == menu_after(menu as int, 2))),
                    _ => a is Stay,
                },
                Overlay::Rename { .. } => a is Stay,
            },
    {
        if key == Key::Char('q') {
            return PeersKeyAction::Quit;
        }
        match &mut self.overlay {
            Overlay::Closed => match key {
                Key::Esc => PeersKeyAction::GoHome,
                Key::Up => {
                    self.prev_peer();
                    PeersKeyAction::Stay
                },
                Key::Down => {
                    self.next_peer();
                    PeersKeyAction::Stay
                },
                Key::Char('r') => PeersKeyAction::Refresh,
                Key::Enter => {
                    self.open_actions_overlay();
                    PeersKeyAction::Stay
                },
                Key::Char('p') => {
                    if let Some(device_id) = self.selected_device_id() {
                        self.open_permissions_overlay(device_id);
                    }
                    PeersKeyAction::Stay
                },
                Key::Char('d') => {
                    if let Some(device_id) = self.selected_device_id() {
                        self.open_revoke_overlay(device_id);
                    }
                    PeersKeyAction::Stay
                },
                _ => PeersKeyAction::Stay,
            },
            Overlay::Actions { menu } => {
                let m: usize = *menu;
                match key {
                    Key::Esc => {
                        self.close_overlay();
                        PeersKeyAction::Stay
                    },
                    Key::Up => {
                        if m < 3 {
                            self.overlay = Overlay::Actions { menu: menu_prev(m, 3) };
                        }
                        PeersKeyAction::Stay
                    },
                    Key::Down => {
                        if m < 3 {
                            self.overlay = Overlay::Actions { menu: menu_next(m, 3) };
                        }
                        PeersKeyAction::Stay
                    },
                    Key::Enter => {
                        if m == 0 {
                            if let Some(device_id) = self.selected_device_id() {
                                self.open_permissions_overlay(device_id);
                            }
                        } else if m == 1 {
                            if let Some(device_id) = self.selected_device_id() {
                                self.open_revoke_overlay(device_id);
                            }
                        } else if m == 2 {
                            self.close_overlay();
                        }
                        PeersKeyAction::Stay
                    },
                    _ => PeersKeyAction::Stay,
                }
            },
            Overlay::Permissions { menu, .. } => {
                let m: usize = *menu;
                match key {
                    Key::Esc => {
                        self.close_overlay();
                        PeersKeyAction::Stay
                    },
                    Key::Up => {
                        if m < 3 {
                            *menu = menu_prev(m, 3);
                        }
                        PeersKeyAction::Stay
                    },
                    Key::Down => {
                        if m < 3 {
                            *menu = menu_next(m, 3);
                        }
                        PeersKeyAction::Stay
                    },
                    Key::Enter => PeersKeyAction::ApplyPermissions,
                    _ => PeersKeyAction::Stay,
                }
            },
            Overlay::RevokeConfirm { menu, .. } => {
                let m: usize = *menu;
                match key {
                    Key::Esc => {
                        self.close_overlay();
                        PeersKeyAction::Stay
                    },
                    Key::Left | Key::Up => {
                        if m < 2 {
                            *menu = menu_prev(m, 2);
                        }
                        PeersKeyAction::Stay
                    },
                    Key::Right | Key::Down => {
                        if m < 2 {
                            *menu = menu_next(m, 2);
                        }
                        PeersKeyAction::Stay
                    },
                    Key::Enter => {
                        if m == 1 {
                            PeersKeyAction::Revoke
                        } else {
                            self.close_overlay();
                            PeersKeyAction::Stay
                        }
                    },
                    _ => PeersKeyAction::Stay,
                }
            },
            Overlay::Rename { .. } => PeersKeyAction::Stay,
        }
    }
}

} // verus!
