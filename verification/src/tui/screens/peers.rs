use vstd::prelude::*;

use crate::commands::{
    format_timestamp_ms, shows_timestamp, lemma_ascii_truncatable, lemma_uuid_ascii, permissions_label,
    permissions_letters, truncate_id, truncated_id,
};
use crate::config::UiLanguage;
use crate::peer::PeerGrant;
use crate::tui::i18n::{tr, tr_spec};
use crate::tui::peer_permissions::{preset_at, PermissionPreset};
use crate::tui::peers::{Overlay, State};
use crate::tui::screens::{page_header, page_header_spans, path_lines, push_paths};
use crate::tui::text_input::visual;
use crate::tui::view::{
    blank, blank_line, choice_lines, choice_list, concat, error_lines, labeled, labeled_line, line_of,
    line_view, lines_view, one, panel, panel_view, plain, popup_view, push_error, span, span_view, text_line,
    texts_view, LinesView, Line, Panel, PanelView, Popup, PopupView, Span, Tone,
};

verus! {

/// The list of peers: a note when there are none, else a table.
#[derive(Debug, Clone)]
pub enum PeerList {
    Empty(Panel),
    Table { title: String, header: Vec<String>, rows: Vec<Vec<String>>, selected: Option<usize> },
}

/// What the peers screen shows.
#[derive(Debug, Clone)]
pub struct PeersView {
    pub header: Line,
    pub list: PeerList,
    pub detail: Panel,
    pub hint: &'static str,
    pub overlay: Option<Popup>,
}

/// A time as shown: local time to the minute, or the raw milliseconds where
/// there is no such time.
pub open spec fn shows_time(ms: u64, t: Seq<char>) -> bool {
    shows_timestamp(ms, t)
}

/// The last sync as shown: the time, or "never".
pub open spec fn shows_last_sync(lang: UiLanguage, last: Option<u64>, t: Seq<char>) -> bool {
    match last {
        Some(ms) => shows_time(ms, t),
        None => t == tr_spec(lang, "从未"@, "never"@),
    }
}

fn last_sync_text(lang: UiLanguage, last: Option<u64>) -> (s: String)
    ensures
        shows_last_sync(lang, last, s@),
{
    match last {
        Some(ms) => format_timestamp_ms(ms),
        None => tr(lang, "从未", "never").to_string(),
    }
}

/// A row of the table, but for its last sync: name, shortened id, permissions.
pub open spec fn row_head(p: PeerGrant) -> Seq<Seq<char>> {
    seq![p.device_name@, truncated_id(p.device_id@), permissions_letters(p.permissions)]
}

pub open spec fn table_header(lang: UiLanguage) -> Seq<Seq<char>> {
    seq![
        tr_spec(lang, "名称"@, "Name"@),
        tr_spec(lang, "设备 ID"@, "Device ID"@),
        tr_spec(lang, "权限"@, "Perms"@),
        tr_spec(lang, "最近同步"@, "Last Sync"@),
    ]
}

pub open spec fn empty_list_lines(lang: UiLanguage) -> Seq<Seq<(Seq<char>, Tone)>> {
    seq![
        plain(tr_spec(lang, "暂无已配对设备。"@, "No paired peers yet."@)),
        blank(),
        plain(tr_spec(lang, "你可以返回主菜单 →「开始配对」。"@, "Return to main menu → Pair."@)),
    ]
}

/// The table's rows match the peers: one row each, in order.
pub open spec fn rows_match(lang: UiLanguage, peers: Seq<PeerGrant>, rows: Seq<Seq<Seq<char>>>) -> bool {
    &&& rows.len() == peers.len()
    &&& forall|i: int|
        0 <= i < peers.len() ==> #[trigger] rows[i].len() == 4 && rows[i].take(3) == row_head(peers[i])
            && shows_last_sync(lang, peers[i].last_sync_ms, rows[i][3])
}

pub open spec fn rows_view(rows: Seq<Vec<String>>) -> Seq<Seq<Seq<char>>> {
    rows.map_values(|r: Vec<String>| texts_view(r@))
}

fn table_row(lang: UiLanguage, p: &PeerGrant) -> (r: Vec<String>)
    ensures
        texts_view(r@).len() == 4,
        texts_view(r@).take(3) == row_head(*p),
        shows_last_sync(lang, p.last_sync_ms, r@[3]@),
{
    let id = p.device_id.as_str();
    proof {
        lemma_uuid_ascii(id@);
        lemma_ascii_truncatable(id@);
    }
    let mut r: Vec<String> = Vec::new();
    r.push(p.device_name.clone());
    r.push(truncate_id(id));
    r.push(permissions_label(p.permissions));
    r.push(last_sync_text(lang, p.last_sync_ms));
    assert(texts_view(r@).take(3) =~= row_head(*p));
    r
}

/// The list: a note when no peer is paired, else a row per peer with the
/// selection kept.
pub fn render_table(state: &State, lang: UiLanguage) -> (l: PeerList)
    ensures
        state.peers@.len() == 0 ==> (l matches PeerList::Empty(p) && panel_view(p) == (
            tr_spec(lang, "列表"@, "List"@),
            empty_list_lines(lang),
        )),
        state.peers@.len() > 0 ==> (l matches PeerList::Table { title, header, rows, selected } && title@
            == tr_spec(lang, "列表（Enter 操作）"@, "List (Enter actions)"@) && texts_view(header@) == table_header(
            lang,
        ) && rows_match(lang, state.peers@, rows_view(rows@)) && selected == state.selected),
{
    if state.peers.len() == 0 {
        let mut lines: Vec<Line> = Vec::new();
        lines.push(text_line(tr(lang, "暂无已配对设备。", "No paired peers yet."), Tone::Plain));
        lines.push(blank_line());
        lines.push(text_line(tr(lang, "你可以返回主菜单 →「开始配对」。", "Return to main menu → Pair."), Tone::Plain));
        assert(lines_view(lines@) =~= empty_list_lines(lang));
        return PeerList::Empty(panel(tr(lang, "列表", "List").to_string(), lines));
    }
    let mut header: Vec<String> = Vec::new();
    header.push(tr(lang, "名称", "Name").to_string());
    header.push(tr(lang, "设备 ID", "Device ID").to_string());
    header.push(tr(lang, "权限", "Perms").to_string());
    header.push(tr(lang, "最近同步", "Last Sync").to_string());
    assert(texts_view(header@) =~= table_header(lang));
    let mut rows: Vec<Vec<String>> = Vec::new();
    let mut i: usize = 0;
    while i < state.peers.len()
        invariant
            i <= state.peers@.len(),
            rows@.len() == i,
            rows_match(lang, state.peers@.take(i as int), rows_view(rows@)),
        decreases state.peers@.len() - i,
    {
        let r = table_row(lang, &state.peers[i]);
        let ghost prev = rows@;
        let ghost rv = texts_view(r@);
        rows.push(r);
        assert forall|j: int| 0 <= j < i + 1 implies #[trigger] rows_view(rows@)[j].len() == 4 && rows_view(
            rows@,
        )[j].take(3) == row_head(state.peers@.take(i + 1)[j]) && shows_last_sync(
            lang,
            state.peers@.take(i + 1)[j].last_sync_ms,
            rows_view(rows@)[j][3],
        ) by {
            if j < i {
                assert(rows_view(rows@)[j] == rows_view(prev)[j]);
                assert(state.peers@.take(i + 1)[j] == state.peers@.take(i as int)[j]);
                assert(rows_view(prev)[j].len() == 4);
            } else {
                assert(rows_view(rows@)[j] == rv);
            }
        }
        assert(rows_view(rows@).len() == state.peers@.take(i + 1).len());
        assert(rows_match(lang, state.peers@.take(i + 1), rows_view(rows@)));
        i = i + 1;
    }
    assert(state.peers@.take(state.peers@.len() as int) =~= state.peers@);
    PeerList::Table {
        title: tr(lang, "列表（Enter 操作）", "List (Enter actions)").to_string(),
        header,
        rows,
        selected: state.selected,
    }
}


/// The selected peer, when the selection names one.
pub open spec fn selected_grant(peers: Seq<PeerGrant>, selected: Option<usize>) -> Option<PeerGrant> {
    match selected {
        Some(i) => if i < peers.len() {
            Some(peers[i as int])
        } else {
            None
        },
        None => None,
    }
}

/// The details of the selected peer, its times as given, then where things
/// are and the last error.
pub open spec fn detail_lines(
    lang: UiLanguage,
    peer: Option<PeerGrant>,
    paired: Seq<char>,
    last: Seq<char>,
    sync_folder: Seq<char>,
    config_path: Seq<char>,
    error: Option<String>,
) -> LinesView {
    seq![one(tr_spec(lang, "信息"@, "Info"@), Tone::Title)] + match peer {
        Some(p) => seq![
            blank(),
            labeled(tr_spec(lang, "名称"@, "Name"@), p.device_name@),
            labeled(tr_spec(lang, "设备 ID"@, "Device ID"@), p.device_id@),
            labeled(tr_spec(lang, "权限"@, "Perms"@), permissions_letters(p.permissions)),
            labeled(tr_spec(lang, "配对时间"@, "Paired"@), paired),
            labeled(tr_spec(lang, "最近同步"@, "Last sync"@), last),
        ],
        None => seq![blank(), plain(tr_spec(lang, "未选择设备。"@, "No peer selected."@))],
    } + seq![blank(), one(tr_spec(lang, "路径"@, "Paths"@), Tone::Title)] + path_lines(lang, sync_folder, config_path)
        + error_lines(error)
}

/// The times shown for a peer, if one is selected.
pub open spec fn shows_peer_times(lang: UiLanguage, peer: Option<PeerGrant>, paired: Seq<char>, last: Seq<char>) -> bool {
    match peer {
        Some(p) => shows_time(p.paired_at_ms, paired) && shows_last_sync(lang, p.last_sync_ms, last),
        None => true,
    }
}

/// The details of the selected peer.
pub fn render_detail(state: &State, lang: UiLanguage, sync_folder: &str, config_path: &str) -> (p: Panel)
    ensures
        exists|paired: Seq<char>, last: Seq<char>|
            shows_peer_times(lang, selected_grant(state.peers@, state.selected), paired, last) && #[trigger] panel_view(p)
                == (
                tr_spec(lang, "详情"@, "Details"@),
                detail_lines(
                    lang,
                    selected_grant(state.peers@, state.selected),
                    paired,
                    last,
                    sync_folder@,
                    config_path@,
                    state.error,
                ),
            ),
{
    let ghost grant = selected_grant(state.peers@, state.selected);
    let mut lines: Vec<Line> = Vec::new();
    lines.push(text_line(tr(lang, "信息", "Info"), Tone::Title));
    let mut paired = String::new();
    let mut last = String::new();
    match state.selected_peer() {
        Some(peer) => {
            paired = format_timestamp_ms(peer.paired_at_ms);
            last = last_sync_text(lang, peer.last_sync_ms);
            let perms = permissions_label(peer.permissions);
            lines.push(blank_line());
            lines.push(labeled_line(tr(lang, "名称", "Name"), peer.device_name.as_str()));
            lines.push(labeled_line(tr(lang, "设备 ID", "Device ID"), peer.device_id.as_str()));
            lines.push(labeled_line(tr(lang, "权限", "Perms"), perms.as_str()));
            lines.push(labeled_line(tr(lang, "配对时间", "Paired"), paired.as_str()));
            lines.push(labeled_line(tr(lang, "最近同步", "Last sync"), last.as_str()));
        },
        None => {
            lines.push(blank_line());
            lines.push(text_line(tr(lang, "未选择设备。", "No peer selected."), Tone::Plain));
        },
    }
    let ghost head = lines_view(lines@);
    lines.push(blank_line());
    lines.push(text_line(tr(lang, "路径", "Paths"), Tone::Title));
    assert(lines_view(lines@) =~= head + seq![blank(), one(tr_spec(lang, "路径"@, "Paths"@), Tone::Title)]);
    push_paths(&mut lines, lang, sync_folder, config_path);
    push_error(&mut lines, &state.error);
    assert(lines_view(lines@) =~= detail_lines(lang, grant, paired@, last@, sync_folder@, config_path@, state.error));
    let p = panel(tr(lang, "详情", "Details").to_string(), lines);
    assert(shows_peer_times(lang, grant, paired@, last@));
    assert(panel_view(p) == (
        tr_spec(lang, "详情"@, "Details"@),
        detail_lines(lang, grant, paired@, last@, sync_folder@, config_path@, state.error),
    ));
    p
}

/// The keys of the screen or of the open overlay.
pub open spec fn peers_hint(lang: UiLanguage, o: Overlay) -> Seq<char> {
    match o {
        Overlay::Closed => tr_spec(
            lang,
            "↑↓ 选择  Enter 操作  p 权限  d 撤销  r 刷新  Esc 返回  q 退出"@,
            "↑↓ select  Enter actions  p perms  d revoke  r refresh  Esc back  q quit"@,
        ),
        Overlay::Actions { .. } => tr_spec(lang, "↑↓ 选择操作  Enter 确认  Esc 取消"@, "↑↓ choose  Enter confirm  Esc cancel"@),
        Overlay::Rename { .. } => tr_spec(lang, "输入名称  Enter 确认  Esc 取消"@, "type name  Enter confirm  Esc cancel"@),
        Overlay::Permissions { .. } => tr_spec(lang, "↑↓ 选择权限  Enter 确认  Esc 取消"@, "↑↓ choose  Enter confirm  Esc cancel"@),
        Overlay::RevokeConfirm { .. } => tr_spec(lang, "←→ 选择  Enter 确认  Esc 取消"@, "←→ choose  Enter confirm  Esc cancel"@),
    }
}

pub fn render_footer(state: &State, lang: UiLanguage) -> (s: &'static str)
    ensures
        s@ == peers_hint(lang, state.overlay),
{
    match &state.overlay {
        Overlay::Closed => tr(
            lang,
            "↑↓ 选择  Enter 操作  p 权限  d 撤销  r 刷新  Esc 返回  q 退出",
            "↑↓ select  Enter actions  p perms  d revoke  r refresh  Esc back  q quit",
        ),
        Overlay::Actions { .. } => tr(lang, "↑↓ 选择操作  Enter 确认  Esc 取消", "↑↓ choose  Enter confirm  Esc cancel"),
        Overlay::Rename { .. } => tr(lang, "输入名称  Enter 确认  Esc 取消", "type name  Enter confirm  Esc cancel"),
        Overlay::Permissions { .. } => tr(lang, "↑↓ 选择权限  Enter 确认  Esc 取消", "↑↓ choose  Enter confirm  Esc cancel"),
        Overlay::RevokeConfirm { .. } => tr(lang, "←→ 选择  Enter 确认  Esc 取消", "←→ choose  Enter confirm  Esc cancel"),
    }
}

/// The entries of the actions menu.
pub open spec fn action_labels(lang: UiLanguage) -> Seq<Seq<char>> {
    seq![
        tr_spec(lang, "调整权限"@, "Edit permissions"@),
        tr_spec(lang, "撤销设备"@, "Revoke peer"@),
        tr_spec(lang, "关闭"@, "Close"@),
    ]
}

/// The titles of the permission presets, in menu order.
pub open spec fn preset_titles(lang: UiLanguage) -> Seq<Seq<char>> {
    seq![preset_at(0).title_spec(lang), preset_at(1).title_spec(lang), preset_at(2).title_spec(lang)]
}

/// The entries of the revocation question.
pub open spec fn revoke_labels(lang: UiLanguage) -> Seq<Seq<char>> {
    seq![tr_spec(lang, "取消"@, "Cancel"@), tr_spec(lang, "撤销（不可撤销）"@, "Revoke (irreversible)"@)]
}

/// The popup of each overlay.
pub open spec fn peers_popup(lang: UiLanguage, o: Overlay) -> Option<PopupView> {
    match o {
        Overlay::Closed => None,
        Overlay::Actions { menu } => Some(
            (
                (60, 40, false),
                (tr_spec(lang, "操作"@, "Actions"@), choice_lines(action_labels(lang), menu as int)),
                menu,
                Tone::Selected,
                None,
                0,
            ),
        ),
        Overlay::Rename { input, .. } => Some(
            (
                (60, 30, false),
                (tr_spec(lang, "重命名设备"@, "Rename peer"@), seq![plain(visual(input@))]),
                0,
                Tone::Selected,
                None,
                0,
            ),
        ),
        Overlay::Permissions { device_id, menu } => Some(
            (
                (80, 70, false),
                (tr_spec(lang, "调整权限"@, "Edit permissions"@), choice_lines(preset_titles(lang), menu as int)),
                menu,
                Tone::Selected,
                Some(
                    (
                        tr_spec(lang, "说明"@, "Notes"@),
                        seq![
                            labeled(tr_spec(lang, "设备"@, "Device"@), device_id@),
                            plain(
                                tr_spec(
                                    lang,
                                    "修改后立即生效（影响后续 session）。"@,
                                    "Takes effect immediately (future sessions)."@,
                                ),
                            ),
                        ],
                    ),
                ),
                6,
            ),
        ),
        Overlay::RevokeConfirm { device_id, menu } => Some(
            (
                (70, 30, false),
                (
                    tr_spec(lang, "确认撤销？"@, "Confirm revoke?"@) + " "@ + truncated_id(device_id@),
                    choice_lines(revoke_labels(lang), menu as int),
                ),
                menu,
                Tone::Error,
                None,
                0,
            ),
        ),
    }
}

fn strings3(a: &str, b: &str, c: &str) -> (v: Vec<String>)
    ensures
        texts_view(v@) == seq![a@, b@, c@],
{
    let mut v: Vec<String> = Vec::new();
    v.push(a.to_string());
    v.push(b.to_string());
    v.push(c.to_string());
    assert(texts_view(v@) =~= seq![a@, b@, c@]);
    v
}

fn strings2(a: &str, b: &str) -> (v: Vec<String>)
    ensures
        texts_view(v@) == seq![a@, b@],
{
    let mut v: Vec<String> = Vec::new();
    v.push(a.to_string());
    v.push(b.to_string());
    assert(texts_view(v@) =~= seq![a@, b@]);
    v
}

/// The titles of the permission presets, in menu order.
pub fn preset_title_list(lang: UiLanguage) -> (v: Vec<String>)
    ensures
        texts_view(v@) == preset_titles(lang),
{
    strings3(PermissionPreset::at(0).title(lang), PermissionPreset::at(1).title(lang), PermissionPreset::at(2).title(lang))
}

fn popup(
    width_percent: u16,
    height_percent: u16,
    menu: Panel,
    selected: usize,
    highlight: Tone,
    note: Option<Panel>,
    note_height: u16,
) -> (p: Popup)
    ensures
        p.width_percent == width_percent,
        p.height_percent == height_percent,
        !p.backdrop,
        p.menu == menu,
        p.selected == selected,
        p.highlight == highlight,
        p.note == note,
        p.note_height == note_height,
{
    Popup { width_percent, height_percent, backdrop: false, menu, selected, highlight, note, note_height }
}

/// The popup of the open overlay, if any.
pub fn render_overlay(state: &State, lang: UiLanguage) -> (o: Option<Popup>)
    ensures
        match o {
            Some(p) => peers_popup(lang, state.overlay) == Some(popup_view(p)),
            None => peers_popup(lang, state.overlay) is None,
        },
{
    match &state.overlay {
        Overlay::Closed => None,
        Overlay::Actions { menu } => {
            let labels = strings3(
                tr(lang, "调整权限", "Edit permissions"),
                tr(lang, "撤销设备", "Revoke peer"),
                tr(lang, "关闭", "Close"),
            );
            let items = choice_list(&labels, *menu);
            Some(popup(60, 40, panel(tr(lang, "操作", "Actions").to_string(), items), *menu, Tone::Selected, None, 0))
        },
        Overlay::Rename { input, .. } => {
            let mut lines: Vec<Line> = Vec::new();
            lines.push(line_of(input.visualize(), Tone::Plain));
            assert(lines_view(lines@) =~= seq![plain(visual(input@))]);
            Some(popup(60, 30, panel(tr(lang, "重命名设备", "Rename peer").to_string(), lines), 0, Tone::Selected, None, 0))
        },
        Overlay::Permissions { device_id, menu } => {
            let titles = preset_title_list(lang);
            let items = choice_list(&titles, *menu);
            let mut note: Vec<Line> = Vec::new();
            note.push(labeled_line(tr(lang, "设备", "Device"), device_id.as_str()));
            note.push(
                text_line(
                    tr(lang, "修改后立即生效（影响后续 session）。", "Takes effect immediately (future sessions)."),
                    Tone::Plain,
                ),
            );
            let ghost expected_note = seq![
                labeled(tr_spec(lang, "设备"@, "Device"@), device_id@),
                plain(tr_spec(lang, "修改后立即生效（影响后续 session）。"@, "Takes effect immediately (future sessions)."@)),
            ];
            assert(lines_view(note@) =~= expected_note);
            Some(
                popup(
                    80,
                    70,
                    panel(tr(lang, "调整权限", "Edit permissions").to_string(), items),
                    *menu,
                    Tone::Selected,
                    Some(panel(tr(lang, "说明", "Notes").to_string(), note)),
                    6,
                ),
            )
        },
        Overlay::RevokeConfirm { device_id, menu } => {
            let labels = strings2(tr(lang, "取消", "Cancel"), tr(lang, "撤销（不可撤销）", "Revoke (irreversible)"));
            let items = choice_list(&labels, *menu);
            let id = device_id.as_str();
            proof {
                lemma_uuid_ascii(id@);
                lemma_ascii_truncatable(id@);
            }
            let mut title = concat(tr(lang, "确认撤销？", "Confirm revoke?"), " ");
            let short = truncate_id(id);
            title.append(short.as_str());
            Some(popup(70, 30, panel(title, items), *menu, Tone::Error, None, 0))
        },
    }
}

/// The peers screen: the list, the selected peer's details, the keys, and the
/// open overlay.
pub fn render(state: &State, lang: UiLanguage, sync_folder: &str, config_path: &str) -> (v: PeersView)
    ensures
        line_view(v.header) == page_header_spans(seq![(tr_spec(lang, "已配对设备（Peers）"@, "Peers"@), Tone::Title)]),
        v.hint@ == peers_hint(lang, state.overlay),
        match v.overlay {
            Some(p) => peers_popup(lang, state.overlay) == Some(popup_view(p)),
            None => peers_popup(lang, state.overlay) is None,
        },
        state.peers@.len() == 0 ==> (v.list matches PeerList::Empty(p) && panel_view(p) == (
            tr_spec(lang, "列表"@, "List"@),
            empty_list_lines(lang),
        )),
        state.peers@.len() > 0 ==> (v.list matches PeerList::Table { title, header, rows, selected } && title@
            == tr_spec(lang, "列表（Enter 操作）"@, "List (Enter actions)"@) && texts_view(header@) == table_header(
            lang,
        ) && rows_match(lang, state.peers@, rows_view(rows@)) && selected == state.selected),
        exists|paired: Seq<char>, last: Seq<char>|
            shows_peer_times(lang, selected_grant(state.peers@, state.selected), paired, last) && #[trigger] panel_view(
                v.detail,
            ) == (
                tr_spec(lang, "详情"@, "Details"@),
                detail_lines(
                    lang,
                    selected_grant(state.peers@, state.selected),
                    paired,
                    last,
                    sync_folder@,
                    config_path@,
                    state.error,
                ),
            ),
{
    let mut extra: Vec<Span> = Vec::new();
    extra.push(span(tr(lang, "已配对设备（Peers）", "Peers").to_string(), Tone::Title));
    assert(extra@.map_values(|s: Span| span_view(s)) =~= seq![(tr_spec(lang, "已配对设备（Peers）"@, "Peers"@), Tone::Title)]);
    PeersView {
        header: page_header(extra),
        list: render_table(state, lang),
        detail: render_detail(state, lang, sync_folder, config_path),
        hint: render_footer(state, lang),
        overlay: render_overlay(state, lang),
    }
}

} // verus!
