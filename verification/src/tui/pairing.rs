use vstd::prelude::*;

use crate::peer::{DeviceId, PeerGrant};
use crate::text::{chars_eq, chars_of};
use crate::tui::keys::{menu_after, menu_before, menu_next, menu_prev, Key};
use crate::tui::peer_permissions::{preset_at, preset_permissions, PermissionPreset};

verus! {

/// `a` comes before `b` in the order of `str::cmp`: character by character,
/// a proper prefix first.
pub open spec fn lex_lt(a: Seq<char>, b: Seq<char>) -> bool
    decreases a.len(),
{
    if a.len() == 0 {
        b.len() > 0
    } else if b.len() == 0 {
        false
    } else if a[0] != b[0] {
        a[0] < b[0]
    } else {
        lex_lt(a.drop_first(), b.drop_first())
    }
}

/// `a` does not come after `b`.
pub open spec fn lex_le(a: Seq<char>, b: Seq<char>) -> bool {
    a == b || lex_lt(a, b)
}

proof fn lemma_lex_irreflexive(a: Seq<char>)
    ensures
        !lex_lt(a, a),
    decreases a.len(),
{
    if a.len() > 0 {
        lemma_lex_irreflexive(a.drop_first());
    }
}

proof fn lemma_lex_total(a: Seq<char>, b: Seq<char>)
    ensures
        a != b ==> (lex_lt(a, b) || lex_lt(b, a)),
        !(lex_lt(a, b) && lex_lt(b, a)),
    decreases a.len(),
{
    if a.len() > 0 && b.len() > 0 && a[0] == b[0] {
        lemma_lex_total(a.drop_first(), b.drop_first());
        if a != b {
            assert(a.drop_first() != b.drop_first()) by {
                if a.drop_first() == b.drop_first() {
                    assert(a =~= seq![a[0]] + a.drop_first());
                    assert(b =~= seq![b[0]] + b.drop_first());
                }
            }
        }
    } else if a.len() == 0 && b.len() == 0 {
        assert(a =~= b);
    }
}

proof fn lemma_lex_transitive(a: Seq<char>, b: Seq<char>, c: Seq<char>)
    requires
        lex_lt(a, b),
        lex_lt(b, c),
    ensures
        lex_lt(a, c),
    decreases a.len(),
{
    if a.len() > 0 && b.len() > 0 && c.len() > 0 && a[0] == b[0] && b[0] == c[0] {
        lemma_lex_transitive(a.drop_first(), b.drop_first(), c.drop_first());
    }
}

/// The texts are in the order of `str::cmp`.
pub open spec fn sorted_texts(v: Seq<Seq<char>>) -> bool {
    forall|i: int, j: int| 0 <= i < j < v.len() ==> lex_le(#[trigger] v[i], #[trigger] v[j])
}

/// The texts of device ids.
pub open spec fn id_views(v: Seq<DeviceId>) -> Seq<Seq<char>> {
    v.map_values(|d: DeviceId| d@)
}

/// The ids of peers.
pub open spec fn peer_ids(v: Seq<PeerGrant>) -> Seq<Seq<char>> {
    v.map_values(|p: PeerGrant| p.device_id@)
}

fn lex_lt_exec(a: &[char], b: &[char]) -> (r: bool)
    ensures
        r == lex_lt(a@, b@),
{
    let mut i: usize = 0;
    assert(a@.skip(0) =~= a@);
    assert(b@.skip(0) =~= b@);
    while i < a.len() && i < b.len() && a[i] == b[i]
        invariant
            i <= a@.len(),
            i <= b@.len(),
            lex_lt(a@, b@) == lex_lt(a@.skip(i as int), b@.skip(i as int)),
        decreases a@.len() - i,
    {
        assert(a@.skip(i as int).drop_first() =~= a@.skip(i + 1));
        assert(b@.skip(i as int).drop_first() =~= b@.skip(i + 1));
        i = i + 1;
    }
    assert(a@.skip(i as int).len() == a@.len() - i);
    assert(b@.skip(i as int).len() == b@.len() - i);
    if i == a.len() {
        i < b.len()
    } else if i == b.len() {
        false
    } else {
        assert(a@.skip(i as int)[0] == a@[i as int]);
        assert(b@.skip(i as int)[0] == b@[i as int]);
        a[i] < b[i]
    }
}

/// The ids of the peers, in the order of `str::cmp`.
pub fn sorted_peer_ids(peers: &Vec<PeerGrant>) -> (ids: Vec<DeviceId>)
    ensures
        sorted_texts(id_views(ids@)),
        id_views(ids@).to_multiset() == peer_ids(peers@).to_multiset(),
{
    let mut out: Vec<DeviceId> = Vec::new();
    let mut k: usize = 0;
    assert(peer_ids(peers@).take(0) =~= Seq::<Seq<char>>::empty());
    assert(id_views(out@) =~= Seq::<Seq<char>>::empty());
    while k < peers.len()
        invariant
            k <= peers@.len(),
            sorted_texts(id_views(out@)),
            id_views(out@).to_multiset() == peer_ids(peers@).take(k as int).to_multiset(),
        decreases peers@.len() - k,
    {
        let id = peers[k].device_id.clone();
        assert(peer_ids(peers@)[k as int] == id@);
        let x = chars_of(id.as_str());
        let mut p: usize = 0;
        while p < out.len() && !lex_lt_exec(x.as_slice(), chars_of(out[p].as_str()).as_slice())
            invariant
                p <= out@.len(),
                x@ == id@,
                forall|j: int| 0 <= j < p ==> lex_le(#[trigger] id_views(out@)[j], id@),
            decreases out@.len() - p,
        {
            proof {
                lemma_lex_total(id@, out@[p as int]@);
            }
            assert(lex_le(id_views(out@)[p as int], id@));
            p = p + 1;
        }
        let ghost before = out@;
        proof {
            if p < out@.len() {
                assert(lex_lt(id@, before[p as int]@));
            }
        }
        let ghost idv = id@;
        out.insert(p, id);
        assert(id_views(out@) =~= id_views(before).insert(p as int, idv));
        proof {
            vstd::seq_lib::to_multiset_insert(id_views(before), p as int, idv);
            vstd::seq_lib::to_multiset_build(peer_ids(peers@).take(k as int), idv);
        }
        assert(sorted_texts(id_views(out@))) by {
            let v = id_views(out@);
            let w = id_views(before);
            assert forall|i: int, j: int| 0 <= i < j < v.len() implies lex_le(#[trigger] v[i], #[trigger] v[j]) by {
                if j < p {
                    assert(v[i] == w[i] && v[j] == w[j]);
                } else if j == p {
                    assert(v[i] == w[i]);
                } else if i == p {
                    assert(v[j] == w[j - 1]);
                    if j - 1 > p {
                        assert(lex_le(w[p as int], w[j - 1]));
                        if w[p as int] != w[j - 1] {
                            lemma_lex_transitive(id@, w[p as int], w[j - 1]);
                        }
                    }
                } else if i < p {
                    assert(v[i] == w[i] && v[j] == w[j - 1]);
                    assert(lex_le(w[i], id@));
                    assert(lex_lt(id@, w[p as int]));
                    if p < j - 1 {
                        assert(lex_le(w[p as int], w[j - 1]));
                    }
                    if w[i] == w[j - 1] {
                    } else {
                        if i < j - 1 {
                            assert(lex_le(w[i], w[j - 1]));
                        }
                    }
                } else {
                    assert(v[i] == w[i - 1] && v[j] == w[j - 1]);
                }
            }
        }
        assert(peer_ids(peers@).take(k + 1) =~= peer_ids(peers@).take(k as int).push(id@));
        k = k + 1;
    }
    assert(peer_ids(peers@).take(peers@.len() as int) =~= peer_ids(peers@));
    out
}

fn same_ids(a: &Vec<DeviceId>, b: &Vec<DeviceId>) -> (r: bool)
    ensures
        r == (id_views(a@) == id_views(b@)),
{
    if a.len() != b.len() {
        assert(id_views(a@).len() != id_views(b@).len());
        return false;
    }
    let mut i: usize = 0;
    while i < a.len()
        invariant
            i <= a@.len(),
            a@.len() == b@.len(),
            forall|j: int| 0 <= j < i ==> a@[j]@ == b@[j]@,
        decreases a@.len() - i,
    {
        let x = chars_of(a[i].as_str());
        let y = chars_of(b[i].as_str());
        if !chars_eq(x.as_slice(), y.as_slice()) {
            assert(id_views(a@)[i as int] != id_views(b@)[i as int]);
            return false;
        }
        i = i + 1;
    }
    assert(id_views(a@) =~= id_views(b@));
    true
}

fn contains_id(v: &Vec<DeviceId>, id: &DeviceId) -> (r: bool)
    ensures
        r == id_views(v@).contains(id@),
{
    let x = chars_of(id.as_str());
    let mut i: usize = 0;
    while i < v.len()
        invariant
            i <= v@.len(),
            x@ == id@,
            forall|j: int| 0 <= j < i ==> v@[j]@ != id@,
        decreases v@.len() - i,
    {
        let y = chars_of(v[i].as_str());
        if chars_eq(y.as_slice(), x.as_slice()) {
            assert(id_views(v@)[i as int] == id@);
            return true;
        }
        i = i + 1;
    }
    assert forall|j: int| 0 <= j < id_views(v@).len() implies id_views(v@)[j] != id@ by {
        assert(id_views(v@)[j] == v@[j]@);
    }
    false
}

/// The ids of `ids` that `known` does not hold, in order.
pub open spec fn unseen(ids: Seq<Seq<char>>, known: Seq<Seq<char>>) -> Seq<Seq<char>> {
    ids.filter(|x: Seq<char>| !known.contains(x))
}

/// The text that the `qrcode` crate draws for these bytes: the code that
/// `QrCode::new` builds, rendered with `unicode::Dense1x2` and no quiet
/// zone; `None` where `QrCode::new` reports that the bytes do not fit.
pub uninterp spec fn qr_dense_text(data: Seq<u8>) -> Option<Seq<char>>;

/// Calls `qrcode::QrCode::new` on the bytes and renders the code it builds
/// with `render::<unicode::Dense1x2>().quiet_zone(false).build()`. The text,
/// or `None` where `QrCode::new` fails, is named by `qr_dense_text`.
#[verifier::external_body]
fn qr_dense(data: &[u8]) -> (r: Option<String>)
    ensures
        match r {
            Some(t) => qr_dense_text(data@) == Some(t@),
            None => qr_dense_text(data@) is None,
        },
{
    match qrcode::QrCode::new(data) {
        Ok(code) => Some(code.render::<qrcode::render::unicode::Dense1x2>().quiet_zone(false).build()),
        Err(_) => None,
    }
}

/// The QR code of a text, drawn with half-height blocks; `None` where the
/// text is too long for a QR code.
pub fn try_render_qr(data: &str) -> (r: Option<String>)
    ensures
        match r {
            Some(t) => qr_dense_text(vstd::utf8::encode_utf8(data@)) == Some(t@),
            None => qr_dense_text(vstd::utf8::encode_utf8(data@)) is None,
        },
{
    match qr_dense(data.as_bytes()) {
        Some(_) => Some(render_qr(data)),
        None => None,
    }
}

/// The QR code of a text that fits in one.
pub fn render_qr(data: &str) -> (t: String)
    requires
        qr_dense_text(vstd::utf8::encode_utf8(data@)) is Some,
    ensures
        qr_dense_text(vstd::utf8::encode_utf8(data@)) == Some(t@),
{
    match qr_dense(data.as_bytes()) {
        Some(t) => t,
        None => String::new(),
    }
}

/// The overlay of the pairing screen.
#[derive(Debug, Clone)]
pub enum Overlay {
    Closed,
    /// Choosing the permissions of a newly paired device.
    Permissions { device_id: DeviceId, menu: usize },
    /// Asking whether to pair another device.
    Continue { menu: usize },
}

/// Where a key moves an overlay's menu: up and down in the permissions
/// menu of three entries, and also left and right in the yes/no menu, each
/// wrapping; `None` when the key does not move it.
pub open spec fn overlay_moved(o: Overlay, key: Key) -> Option<Overlay> {
    match o {
        Overlay::Permissions { device_id, menu } => if menu < 3 {
            match key {
                Key::Up => Some(Overlay::Permissions { device_id, menu: menu_before(menu as int, 3) as usize }),
                Key::Down => Some(Overlay::Permissions { device_id, menu: menu_after(menu as int, 3) as usize }),
                _ => None,
            }
        } else {
            None
        },
        Overlay::Continue { menu } => if menu < 2 {
            match key {
                Key::Up | Key::Left => Some(Overlay::Continue { menu: menu_before(menu as int, 2) as usize }),
                Key::Down | Key::Right => Some(Overlay::Continue { menu: menu_after(menu as int, 2) as usize }),
                _ => None,
            }
        } else {
            None
        },
        Overlay::Closed => None,
    }
}

/// The pairing screen.
#[derive(Debug)]
pub struct State {
    pub pair_uri: Option<String>,
    pub qr: Option<String>,
    pub token: Option<String>,
    pub error: Option<String>,
    pub peers: Vec<PeerGrant>,
    /// The ids already seen, in the order of `str::cmp`.
    pub known_peer_ids: Vec<DeviceId>,
    /// The new devices waiting for their permissions, first to come first.
    pub new_peers: Vec<DeviceId>,
    pub overlay: Overlay,
}

impl State {
    /// The ids already seen, in order.
    pub open spec fn known(&self) -> Seq<Seq<char>> {
        id_views(self.known_peer_ids@)
    }

    /// The new devices waiting for their permissions, first to come first.
    pub open spec fn queue(&self) -> Seq<Seq<char>> {
        id_views(self.new_peers@)
    }

    pub fn new() -> (s: Self)
        ensures
            s.pair_uri is None,
            s.qr is None,
            s.token is None,
            s.error is None,
            s.peers@.len() == 0,
            s.known().len() == 0,
            s.queue().len() == 0,
            s.overlay is Closed,
    {
        State {
            pair_uri: None,
            qr: None,
            token: None,
            error: None,
            peers: Vec::new(),
            known_peer_ids: Vec::new(),
            new_peers: Vec::new(),
            overlay: Overlay::Closed,
        }
    }

    /// Records a new pairing token, its URI and QR code, clearing the error;
    /// gives back the token it replaces, which is to be removed.
    pub fn token_refreshed(&mut self, token: String, pair_uri: String, qr: String) -> (old_token: Option<String>)
        ensures
            old_token == old(self).token,
            final(self).token == Some(token),
            final(self).pair_uri == Some(pair_uri),
            final(self).qr == Some(qr),
            final(self).error is None,
            final(self).overlay == old(self).overlay,
            final(self).known() == old(self).known(),
            final(self).queue() == old(self).queue(),
    {
        let old_token = self.token.take();
        self.token = Some(token);
        self.pair_uri = Some(pair_uri);
        self.qr = Some(qr);
        self.error = None;
        old_token
    }

    /// Asks for the permissions of a new device, read-write proposed.
    pub fn open_permissions_overlay(&mut self, device_id: DeviceId)
        ensures
            final(self).overlay matches Overlay::Permissions { device_id: d, menu } && d@ == device_id@ && menu
                == 1,
            final(self).known() == old(self).known(),
            final(self).queue() == old(self).queue(),
            final(self).peers@ == old(self).peers@,
    {
        self.overlay = Overlay::Permissions { device_id, menu: 1 };
    }

    /// Asks whether to pair another device, yes proposed.
    pub fn open_continue_overlay(&mut self)
        ensures
            final(self).overlay == (Overlay::Continue { menu: 0 }),
            final(self).known() == old(self).known(),
            final(self).queue() == old(self).queue(),
            final(self).peers@ == old(self).peers@,
    {
        self.overlay = Overlay::Continue { menu: 0 };
    }

    pub fn close_overlay(&mut self)
        ensures
            final(self).overlay is Closed,
            final(self).known() == old(self).known(),
            final(self).queue() == old(self).queue(),
            final(self).peers@ == old(self).peers@,
    {
        self.overlay = Overlay::Closed;
    }

    /// Whether "continue" is chosen, when that question is open.
    pub fn overlay_selected_continue(&self) -> (r: Option<bool>)
        ensures
            r == (match self.overlay {
                Overlay::Continue { menu } => Some(menu == 0),
                _ => None,
            }),
    {
        match &self.overlay {
            Overlay::Continue { menu } => Some(*menu == 0),
            _ => None,
        }
    }

    /// The grant to save when the permissions are chosen: the device's grant
    /// with the chosen preset's permissions; `None` when no such question is
    /// open or the device is not listed.
    #[verifier::loop_isolation(false)]
    pub fn permissions_grant_for_overlay(&self) -> (r: Option<PeerGrant>)
        ensures
            match self.overlay {
                Overlay::Permissions { device_id, menu } => menu < 3 && (exists|i: int|
                    0 <= i < self.peers@.len() && self.peers@[i].device_id@ == device_id@) ==> (r matches Some(g)
                    && g.device_id@ == device_id@ && g.permissions == preset_permissions(preset_at(menu as int))
                    && exists|i: int| 0 <= i < self.peers@.len() && self.peers@[i].device_id@ == device_id@ && (
                    g.fields().1, g.fields().2, g.fields().4, g.fields().5) == (
                    self.peers@[i].fields().1,
                    self.peers@[i].fields().2,
                    self.peers@[i].fields().4,
                    self.peers@[i].fields().5,
                )),
                _ => r is None,
            },
    {
        match &self.overlay {
            Overlay::Permissions { device_id, menu } => {
                let m: usize = *menu;
                if m >= 3 {
                    return None;
                }
                let want = chars_of(device_id.as_str());
                let mut i: usize = 0;
                while i < self.peers.len()
                    invariant
                        i <= self.peers@.len(),
                        want@ == device_id@,
                        m < 3,
                        forall|j: int| 0 <= j < i ==> self.peers@[j].device_id@ != device_id@,
                    decreases self.peers@.len() - i,
                {
                    let have = chars_of(self.peers[i].device_id.as_str());
                    if chars_eq(have.as_slice(), want.as_slice()) {
                        let mut g = self.peers[i].clone_grant();
                        g.permissions = PermissionPreset::at(m).permissions();
                        assert(self.peers@[i as int].device_id@ == device_id@);
                        assert((g.fields().1, g.fields().2, g.fields().4, g.fields().5) == (
                            self.peers@[i as int].fields().1,
                            self.peers@[i as int].fields().2,
                            self.peers@[i as int].fields().4,
                            self.peers@[i as int].fields().5,
                        ));
                        return Some(g);
                    }
                    i = i + 1;
                }
                None
            },
            _ => None,
        }
    }

    /// With no overlay open, asks for the permissions of the next new device.
    pub fn maybe_open_next_new_peer(&mut self)
        ensures
            final(self).known() == old(self).known(),
            final(self).peers@ == old(self).peers@,
            (old(self).overlay is Closed && old(self).queue().len() > 0) ==> (final(self).overlay matches Overlay::Permissions { device_id: d, menu }
                && d@ == old(self).queue()[0] && menu == 1 && final(self).queue() == old(self).queue().drop_first()),
            !(old(self).overlay is Closed && old(self).queue().len() > 0) ==> final(self).overlay == old(self).overlay
                && final(self).queue() == old(self).queue(),
    {
        if !matches!(self.overlay, Overlay::Closed) {
            return;
        }
        if self.new_peers.len() > 0 {
            let ghost q = self.new_peers@;
            let device_id = self.new_peers.remove(0);
            assert(id_views(self.new_peers@) =~= id_views(q).drop_first());
            self.open_permissions_overlay(device_id);
        }
    }

    /// Takes the current list of peers without asking about any of them.
    pub fn snapshot_peers(&mut self, peers: Vec<PeerGrant>)
        ensures
            final(self).peers@ == peers@,
            sorted_texts(final(self).known()),
            final(self).known().to_multiset() == peer_ids(peers@).to_multiset(),
            final(self).queue().len() == 0,
            final(self).overlay == old(self).overlay,
    {
        let ids = sorted_peer_ids(&peers);
        self.peers = peers;
        self.known_peer_ids = ids;
        self.new_peers = Vec::new();
    }

    /// Takes the current list of peers: every id not seen before joins the
    /// queue in order, and the next new device is asked about when nothing
    /// else is open.
    pub fn poll_peers(&mut self, peers: Vec<PeerGrant>)
        ensures
            final(self).peers@ == peers@,
            sorted_texts(final(self).known()),
            final(self).known().to_multiset() == peer_ids(peers@).to_multiset(),
            ({
                let ids = final(self).known();
                let added = if ids == old(self).known() {
                    Seq::<Seq<char>>::empty()
                } else {
                    unseen(ids, old(self).known())
                };
                let q = old(self).queue() + added;
                if old(self).overlay is Closed && q.len() > 0 {
                    final(self).overlay matches Overlay::Permissions { device_id: d, menu } && d@ == q[0] && menu
                        == 1 && final(self).queue() == q.drop_first()
                } else {
                    final(self).overlay == old(self).overlay && final(self).queue() == q
                }
            }),
    {
        let ghost old_known = self.known();
        let ghost old_queue = self.queue();
        let ids = sorted_peer_ids(&peers);
        let ghost idv = id_views(ids@);
        if !same_ids(&ids, &self.known_peer_ids) {
            let mut i: usize = 0;
            proof {
                reveal(Seq::filter);
            }
            assert(unseen(idv.take(0), old_known) =~= Seq::<Seq<char>>::empty());
            assert(id_views(self.new_peers@) =~= old_queue + unseen(idv.take(0), old_known));
            while i < ids.len()
                invariant
                    i <= ids@.len(),
                    idv == id_views(ids@),
                    old_known == id_views(self.known_peer_ids@),
                    self.overlay == old(self).overlay,
                    id_views(self.new_peers@) == old_queue + unseen(idv.take(i as int), old_known),
                decreases ids@.len() - i,
            {
                let ghost prev = self.new_peers@;
                assert(idv.take(i + 1) =~= idv.take(i as int).push(idv[i as int]));
                proof {
                    reveal(Seq::filter);
                    assert(idv.take(i + 1).drop_last() =~= idv.take(i as int));
                }
                if !contains_id(&self.known_peer_ids, &ids[i]) {
                    self.new_peers.push(ids[i].clone());
                    assert(id_views(self.new_peers@) =~= id_views(prev).push(ids@[i as int]@));
                }
                i = i + 1;
            }
            assert(idv.take(ids@.len() as int) =~= idv);
            self.known_peer_ids = ids;
        } else {
            assert(old_queue + Seq::<Seq<char>>::empty() =~= old_queue);
        }
        assert(self.known() == idv);
        assert(self.queue() == old_queue + (if idv == old_known {
            Seq::<Seq<char>>::empty()
        } else {
            unseen(idv, old_known)
        }));
        self.peers = peers;
        self.maybe_open_next_new_peer();
    }

    /// Applies a key in an overlay's menu; says whether the key moved it.
    pub fn move_in_overlay(&mut self, key: Key) -> (moved: bool)
        ensures
            final(self).known() == old(self).known(),
            final(self).queue() == old(self).queue(),
            final(self).peers@ == old(self).peers@,
            match overlay_moved(old(self).overlay, key) {
                Some(o) => moved && final(self).overlay == o,
                None => !moved && final(self).overlay == old(self).overlay,
            },
    {
        match &mut self.overlay {
            Overlay::Permissions { menu, .. } => {
                if *menu < 3 {
                    match key {
                        Key::Up => {
                            *menu = menu_prev(*menu, 3);
                            true
                        },
                        Key::Down => {
                            *menu = menu_next(*menu, 3);
                            true
                        },
                        _ => false,
                    }
                } else {
                    false
                }
            },
            Overlay::Continue { menu } => {
                if *menu < 2 {
                    match key {
                        Key::Up | Key::Left => {
                            *menu = menu_prev(*menu, 2);
                            true
                        },
                        Key::Down | Key::Right => {
                            *menu = menu_next(*menu, 2);
                            true
                        },
                        _ => false,
                    }
                } else {
                    false
                }
            },
            Overlay::Closed => false,
        }
    }
}

} // verus!
