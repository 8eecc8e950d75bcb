use vstd::prelude::*;

use crate::commands::{permissions_label, permissions_letters};
use crate::config::UiLanguage;
use crate::peer::PeerGrant;
use crate::tui::app::PairingFlow;
use crate::tui::i18n::{tr, tr_spec};
use crate::tui::pairing::{Overlay, State};
use crate::tui::screens::peers::{preset_title_list, preset_titles};
use crate::tui::screens::{page_header, page_header_spans, qr_fits_in_block, text_size, text_size_of, TextSize};
use crate::tui::view::{
    blank, blank_line, choice_lines, choice_list, concat, error_lines, labeled, line_of, line_view, lines_view, one,
    panel, panel_view, plain, popup_view, push_error, span, span_view, text_line, texts_view, Line, LinesView, Panel,
    PanelView, Popup, PopupView, Span, Tone,
};

verus! {

/// Whether the pair link went to the clipboard.
#[derive(Debug, Clone)]
pub enum ClipboardStatus {
    Copied,
    Failed(String),
}

/// How the pairing card uses its room: the link only while there is no QR
/// code, the code above the link when both fit, the code alone when only it
/// fits, and otherwise a note with the link.
#[derive(Debug, Clone, Copy, PartialEq, Eq, Structural)]
pub enum CardPlan {
    InfoOnly,
    QrWithInfo { qr_height: u16 },
    QrOnly,
    Fallback,
}

pub open spec fn saturating_sub(a: u16, b: u16) -> u16 {
    if a >= b {
        (a - b) as u16
    } else {
        0
    }
}

pub open spec fn saturating_add(a: u16, b: u16) -> u16 {
    if a + b <= u16::MAX {
        (a + b) as u16
    } else {
        u16::MAX
    }
}

/// A text fits in a bordered block of this size.
pub open spec fn fits(size: TextSize, width: u16, height: u16) -> bool {
    size.width <= saturating_sub(width, 2) && size.height <= saturating_sub(height, 2)
}

pub open spec fn card_plan(qr: Option<String>, width: u16, height: u16) -> CardPlan {
    match qr {
        Some(q) if q@.len() > 0 => {
            let size = text_size_of(q@);
            if fits(size, width, saturating_sub(height, 7)) {
                CardPlan::QrWithInfo { qr_height: saturating_add(size.height, 2) }
            } else if fits(size, width, height) {
                CardPlan::QrOnly
            } else {
                CardPlan::Fallback
            }
        },
        _ => CardPlan::InfoOnly,
    }
}

/// How the card of this size shows the state's QR code.
pub fn pair_card_plan(state: &State, width: u16, height: u16) -> (p: CardPlan)
    ensures
        p == card_plan(state.qr, width, height),
{
    match &state.qr {
        Some(q) => {
            if crate::text::chars_of(q.as_str()).len() == 0 {
                return CardPlan::InfoOnly;
            }
            let size = text_size(q.as_str());
            let below = if height >= 7 {
                height - 7
            } else {
                0
            };
            if qr_fits_in_block(size, width, below) {
                let h = if size.height <= u16::MAX - 2 {
                    size.height + 2
                } else {
                    u16::MAX
                };
                CardPlan::QrWithInfo { qr_height: h }
            } else if qr_fits_in_block(size, width, height) {
                CardPlan::QrOnly
            } else {
                CardPlan::Fallback
            }
        },
        None => CardPlan::InfoOnly,
    }
}

pub open spec fn pairing_header_spans(lang: UiLanguage, flow: PairingFlow) -> Seq<(Seq<char>, Tone)> {
    page_header_spans(
        match flow {
            PairingFlow::MainMenu => seq![(tr_spec(lang, "配对（Pairing）"@, "Pairing"@), Tone::Title)],
            PairingFlow::Onboard => seq![
                (tr_spec(lang, "Onboard：配对"@, "Onboard: Pairing"@), Tone::Title),
                ("  "@, Tone::Plain),
                ("Step 7/10"@, Tone::Hint),
            ],
        },
    )
}

/// The header: the screen's name, and the step when onboarding.
pub fn render_header(lang: UiLanguage, flow: PairingFlow) -> (l: Line)
    ensures
        line_view(l) == pairing_header_spans(lang, flow),
{
    let mut extra: Vec<Span> = Vec::new();
    match flow {
        PairingFlow::MainMenu => {
            extra.push(span(tr(lang, "配对（Pairing）", "Pairing").to_string(), Tone::Title));
        },
        PairingFlow::Onboard => {
            extra.push(span(tr(lang, "Onboard：配对", "Onboard: Pairing").to_string(), Tone::Title));
            extra.push(span("  ".to_string(), Tone::Plain));
            extra.push(span("Step 7/10".to_string(), Tone::Hint));
        },
    }
    assert(extra@.map_values(|s: Span| span_view(s)) =~= match flow {
        PairingFlow::MainMenu => seq![(tr_spec(lang, "配对（Pairing）"@, "Pairing"@), Tone::Title)],
        PairingFlow::Onboard => seq![
            (tr_spec(lang, "Onboard：配对"@, "Onboard: Pairing"@), Tone::Title),
            ("  "@, Tone::Plain),
            ("Step 7/10"@, Tone::Hint),
        ],
    });
    page_header(extra)
}

/// The link, or a note that there is none yet.
pub open spec fn shown_uri(lang: UiLanguage, uri: Option<String>) -> Seq<char> {
    match uri {
        Some(u) => u@,
        None => tr_spec(lang, "（尚未生成）"@, "(not generated yet)"@),
    }
}

fn shown_uri_exec(lang: UiLanguage, uri: &Option<String>) -> (s: String)
    ensures
        s@ == shown_uri(lang, *uri),
{
    match uri {
        Some(u) => u.clone(),
        None => tr(lang, "（尚未生成）", "(not generated yet)").to_string(),
    }
}

/// The title of the QR code's block, with what became of the copy.
pub open spec fn qr_title_text(clipboard: Option<ClipboardStatus>, lang: UiLanguage) -> Seq<char> {
    match clipboard {
        Some(ClipboardStatus::Copied) => tr_spec(lang, "二维码 · 链接已复制"@, "QR · link copied"@),
        Some(ClipboardStatus::Failed(_)) => tr_spec(lang, "二维码 · 复制失败"@, "QR · copy failed"@),
        None => tr_spec(lang, "二维码"@, "QR"@),
    }
}

pub fn qr_title(clipboard: &Option<ClipboardStatus>, lang: UiLanguage) -> (s: &'static str)
    ensures
        s@ == qr_title_text(*clipboard, lang),
{
    match clipboard {
        Some(ClipboardStatus::Copied) => tr(lang, "二维码 · 链接已复制", "QR · link copied"),
        Some(ClipboardStatus::Failed(_)) => tr(lang, "二维码 · 复制失败", "QR · copy failed"),
        None => tr(lang, "二维码", "QR"),
    }
}

/// The line on the clipboard: copied, failed with the reason, or to come.
pub open spec fn clipboard_line(clipboard: Option<ClipboardStatus>, lang: UiLanguage) -> Seq<(Seq<char>, Tone)> {
    match clipboard {
        Some(ClipboardStatus::Copied) => one(
            tr_spec(
                lang,
                "✓ 已经将配对链接复制到剪切板中，可直接粘贴到客户端。"@,
                "✓ Pair link copied to clipboard; paste it into the client."@,
            ),
            Tone::Success,
        ),
        Some(ClipboardStatus::Failed(e)) => one(
            tr_spec(
                lang,
                "! 无法写入剪切板，请手动复制下方链接。"@,
                "! Could not write to clipboard; copy the link below manually."@,
            ) + " ("@ + e@ + ")"@,
            Tone::Warning,
        ),
        None => one(
            tr_spec(
                lang,
                "生成配对链接后会自动复制到剪切板。"@,
                "The pair link will be copied to clipboard after generation."@,
            ),
            Tone::Hint,
        ),
    }
}

pub fn clipboard_status_line(clipboard: &Option<ClipboardStatus>, lang: UiLanguage) -> (l: Line)
    ensures
        line_view(l) == clipboard_line(*clipboard, lang),
{
    match clipboard {
        Some(ClipboardStatus::Copied) => text_line(
            tr(
                lang,
                "✓ 已经将配对链接复制到剪切板中，可直接粘贴到客户端。",
                "✓ Pair link copied to clipboard; paste it into the client.",
            ),
            Tone::Success,
        ),
        Some(ClipboardStatus::Failed(e)) => {
            let mut m = concat(
                tr(lang, "! 无法写入剪切板，请手动复制下方链接。", "! Could not write to clipboard; copy the link below manually."),
                " (",
            );
            m.append(e.as_str());
            m.append(")");
            line_of(m, Tone::Warning)
        },
        None => text_line(
            tr(lang, "生成配对链接后会自动复制到剪切板。", "The pair link will be copied to clipboard after generation."),
            Tone::Hint,
        ),
    }
}

/// The advice under the clipboard line.
pub open spec fn pair_tip_text(lang: UiLanguage, flow: PairingFlow) -> Seq<char> {
    match flow {
        PairingFlow::MainMenu => tr_spec(
            lang,
            "提示：确保 `tt-sync serve` 正在运行，然后在客户端扫码/粘贴完成配对。"@,
            "Tip: Ensure `tt-sync serve` is running, then scan/paste in the client to pair."@,
        ),
        PairingFlow::Onboard => tr_spec(
            lang,
            "提示：Onboard 已自动启动服务。请在客户端扫码/粘贴完成配对。"@,
            "Tip: Onboard has started the server. Scan/paste in the client to pair."@,
        ),
    }
}

pub fn pair_tip(lang: UiLanguage, flow: PairingFlow) -> (s: &'static str)
    ensures
        s@ == pair_tip_text(lang, flow),
{
    match flow {
        PairingFlow::MainMenu => tr(
            lang,
            "提示：确保 `tt-sync serve` 正在运行，然后在客户端扫码/粘贴完成配对。",
            "Tip: Ensure `tt-sync serve` is running, then scan/paste in the client to pair.",
        ),
        PairingFlow::Onboard => tr(
            lang,
            "提示：Onboard 已自动启动服务。请在客户端扫码/粘贴完成配对。",
            "Tip: Onboard has started the server. Scan/paste in the client to pair.",
        ),
    }
}

pub open spec fn pair_info_lines(
    lang: UiLanguage,
    flow: PairingFlow,
    clipboard: Option<ClipboardStatus>,
    uri: Option<String>,
    error: Option<String>,
) -> LinesView {
    seq![
        clipboard_line(clipboard, lang),
        one(pair_tip_text(lang, flow), Tone::Hint),
        blank(),
        one(tr_spec(lang, "配对链接"@, "Pair URI"@), Tone::Title),
        plain(shown_uri(lang, uri)),
    ] + error_lines(error)
}

/// The link panel: the clipboard line, the advice, and the link.
pub fn render_pair_info(
    state: &State,
    lang: UiLanguage,
    flow: PairingFlow,
    clipboard: &Option<ClipboardStatus>,
) -> (p: Panel)
    ensures
        panel_view(p) == (
            tr_spec(lang, "链接"@, "Link"@),
            pair_info_lines(lang, flow, *clipboard, state.pair_uri, state.error),
        ),
{
    let mut info: Vec<Line> = Vec::new();
    info.push(clipboard_status_line(clipboard, lang));
    info.push(text_line(pair_tip(lang, flow), Tone::Hint));
    info.push(blank_line());
    info.push(text_line(tr(lang, "配对链接", "Pair URI"), Tone::Title));
    info.push(line_of(shown_uri_exec(lang, &state.pair_uri), Tone::Plain));
    assert(lines_view(info@) =~= pair_info_lines(lang, flow, *clipboard, state.pair_uri, None));
    push_error(&mut info, &state.error);
    assert(lines_view(info@) =~= pair_info_lines(lang, flow, *clipboard, state.pair_uri, state.error));
    panel(tr(lang, "链接", "Link").to_string(), info)
}

pub open spec fn fallback_lines(lang: UiLanguage, clipboard: Option<ClipboardStatus>, uri: Option<String>) -> LinesView {
    seq![
        one(
            tr_spec(lang, "终端空间不足，无法完整显示二维码。"@, "Terminal is too small to show the full QR code."@),
            Tone::Warning,
        ),
        clipboard_line(clipboard, lang),
        blank(),
        one(tr_spec(lang, "配对链接"@, "Pair URI"@), Tone::Title),
        plain(shown_uri(lang, uri)),
    ]
}

/// What is shown when the code does not fit: a note and the link.
pub fn render_pair_fallback(state: &State, lang: UiLanguage, clipboard: &Option<ClipboardStatus>) -> (p: Panel)
    ensures
        panel_view(p) == (tr_spec(lang, "配对"@, "Pairing"@), fallback_lines(lang, *clipboard, state.pair_uri)),
{
    let mut lines: Vec<Line> = Vec::new();
    lines.push(
        text_line(
            tr(lang, "终端空间不足，无法完整显示二维码。", "Terminal is too small to show the full QR code."),
            Tone::Warning,
        ),
    );
    lines.push(clipboard_status_line(clipboard, lang));
    lines.push(blank_line());
    lines.push(text_line(tr(lang, "配对链接", "Pair URI"), Tone::Title));
    lines.push(line_of(shown_uri_exec(lang, &state.pair_uri), Tone::Plain));
    assert(lines_view(lines@) =~= fallback_lines(lang, *clipboard, state.pair_uri));
    panel(tr(lang, "配对", "Pairing").to_string(), lines)
}

/// The table of paired devices: its title, header and rows.
#[derive(Debug, Clone)]
pub struct PeersTable {
    pub title: String,
    pub header: Vec<String>,
    pub rows: Vec<Vec<String>>,
}

/// A row: name, full id, permissions.
pub open spec fn peer_cells(p: PeerGrant) -> Seq<Seq<char>> {
    seq![p.device_name@, p.device_id@, permissions_letters(p.permissions)]
}

pub open spec fn rows_view(rows: Seq<Vec<String>>) -> Seq<Seq<Seq<char>>> {
    rows.map_values(|r: Vec<String>| texts_view(r@))
}

/// The devices paired so far.
pub fn render_peers(state: &State, lang: UiLanguage) -> (t: PeersTable)
    ensures
        t.title@ == tr_spec(lang, "已配对设备"@, "Peers"@),
        texts_view(t.header@) == seq![
            tr_spec(lang, "名称"@, "Name"@),
            tr_spec(lang, "设备 ID"@, "Device ID"@),
            tr_spec(lang, "权限"@, "Perms"@),
        ],
        rows_view(t.rows@) == state.peers@.map_values(|p: PeerGrant| peer_cells(p)),
{
    let mut header: Vec<String> = Vec::new();
    header.push(tr(lang, "名称", "Name").to_string());
    header.push(tr(lang, "设备 ID", "Device ID").to_string());
    header.push(tr(lang, "权限", "Perms").to_string());
    assert(texts_view(header@) =~= seq![
        tr_spec(lang, "名称"@, "Name"@),
        tr_spec(lang, "设备 ID"@, "Device ID"@),
        tr_spec(lang, "权限"@, "Perms"@),
    ]);
    let mut rows: Vec<Vec<String>> = Vec::new();
    let mut i: usize = 0;
    while i < state.peers.len()
        invariant
            i <= state.peers@.len(),
            rows@.len() == i,
            rows_view(rows@) == state.peers@.take(i as int).map_values(|p: PeerGrant| peer_cells(p)),
        decreases state.peers@.len() - i,
    {
        let p = &state.peers[i];
        let mut r: Vec<String> = Vec::new();
        r.push(p.device_name.clone());
        r.push(p.device_id.as_str().to_string());
        r.push(permissions_label(p.permissions));
        assert(texts_view(r@) =~= peer_cells(*p));
        let ghost prev = rows@;
        let ghost rv = texts_view(r@);
        rows.push(r);
        assert(rows_view(rows@) =~= state.peers@.take(i + 1).map_values(|p: PeerGrant| peer_cells(p))) by {
            assert forall|j: int| 0 <= j < i + 1 implies #[trigger] rows_view(rows@)[j] == peer_cells(
                state.peers@.take(i + 1)[j],
            ) by {
                if j < i {
                    assert(rows_view(rows@)[j] == rows_view(prev)[j]);
                    assert(state.peers@.take(i + 1)[j] == state.peers@.take(i as int)[j]);
                } else {
                    assert(rows_view(rows@)[j] == rv);
                }
            }
        }
        i = i + 1;
    }
    assert(state.peers@.take(state.peers@.len() as int) =~= state.peers@);
    PeersTable { title: tr(lang, "已配对设备", "Peers").to_string(), header, rows }
}

/// The keys of the screen or of the open overlay.
pub open spec fn pairing_hint(lang: UiLanguage, o: Overlay, flow: PairingFlow) -> Seq<char> {
    match o {
        Overlay::Closed => match flow {
            PairingFlow::MainMenu => tr_spec(lang, "r 刷新二维码  Esc 返回  q 退出"@, "r refresh  Esc back  q quit"@),
            PairingFlow::Onboard => tr_spec(lang, "r 刷新二维码  Esc 下一步  q 退出"@, "r refresh  Esc next  q quit"@),
        },
        Overlay::Permissions { .. } => tr_spec(lang, "↑↓ 选择权限  Enter 确认  Esc 取消"@, "↑↓ choose  Enter confirm  Esc cancel"@),
        Overlay::Continue { .. } => tr_spec(lang, "←→ 选择  Enter 确认"@, "←→ choose  Enter confirm"@),
    }
}

pub fn render_footer(state: &State, lang: UiLanguage, flow: PairingFlow) -> (s: &'static str)
    ensures
        s@ == pairing_hint(lang, state.overlay, flow),
{
    match &state.overlay {
        Overlay::Closed => match flow {
            PairingFlow::MainMenu => tr(lang, "r 刷新二维码  Esc 返回  q 退出", "r refresh  Esc back  q quit"),
            PairingFlow::Onboard => tr(lang, "r 刷新二维码  Esc 下一步  q 退出", "r refresh  Esc next  q quit"),
        },
        Overlay::Permissions { .. } => tr(lang, "↑↓ 选择权限  Enter 确认  Esc 取消", "↑↓ choose  Enter confirm  Esc cancel"),
        Overlay::Continue { .. } => tr(lang, "←→ 选择  Enter 确认", "←→ choose  Enter confirm"),
    }
}

/// The name of a listed device, or "unknown".
pub open spec fn device_name_of(lang: UiLanguage, peers: Seq<PeerGrant>, id: Seq<char>) -> Seq<char> {
    if exists|i: int| 0 <= i < peers.len() && peers[i].device_id@ == id {
        peers[first_with_id(peers, id)].device_name@
    } else {
        tr_spec(lang, "（未知）"@, "(unknown)"@)
    }
}

/// The first position of a device in the list.
pub open spec fn first_with_id(peers: Seq<PeerGrant>, id: Seq<char>) -> int
    recommends
        exists|i: int| 0 <= i < peers.len() && peers[i].device_id@ == id,
    decreases peers.len(),
{
    if peers.len() == 0 {
        0
    } else if peers[0].device_id@ == id {
        0
    } else {
        1 + first_with_id(peers.drop_first(), id)
    }
}

fn find_name(lang: UiLanguage, peers: &Vec<PeerGrant>, id: &str) -> (s: String)
    ensures
        s@ == device_name_of(lang, peers@, id@),
{
    let mut i: usize = 0;
    while i < peers.len()
        invariant
            i <= peers@.len(),
            forall|j: int| 0 <= j < i ==> #[trigger] peers@[j].device_id@ != id@,
        decreases peers@.len() - i,
    {
        let a = crate::text::chars_of(peers[i].device_id.as_str());
        let b = crate::text::chars_of(id);
        if crate::text::chars_eq(a.as_slice(), b.as_slice()) {
            proof {
                lemma_first_with_id(peers@, id@, i as int);
            }
            return peers[i].device_name.clone();
        }
        i = i + 1;
    }
    tr(lang, "（未知）", "(unknown)").to_string()
}

proof fn lemma_first_with_id(peers: Seq<PeerGrant>, id: Seq<char>, i: int)
    requires
        0 <= i < peers.len(),
        peers[i].device_id@ == id,
        forall|j: int| 0 <= j < i ==> #[trigger] peers[j].device_id@ != id,
    ensures
        first_with_id(peers, id) == i,
    decreases i,
{
    if i > 0 {
        assert(peers[0].device_id@ != id);
        let rest = peers.drop_first();
        assert forall|j: int| 0 <= j < i - 1 implies #[trigger] rest[j].device_id@ != id by {
            assert(rest[j] == peers[j + 1]);
        }
        lemma_first_with_id(rest, id, i - 1);
    }
}

/// The entries of the question that follows a pairing.
pub open spec fn continue_labels(lang: UiLanguage, flow: PairingFlow) -> Seq<Seq<char>> {
    seq![
        tr_spec(lang, "继续配对更多设备（推荐）"@, "Pair another device (recommended)"@),
        match flow {
            PairingFlow::MainMenu => tr_spec(lang, "返回主菜单"@, "Back to menu"@),
            PairingFlow::Onboard => tr_spec(lang, "下一步"@, "Next step"@),
        },
    ]
}

/// The popup of each overlay: both dim the screen behind them.
pub open spec fn pairing_popup(lang: UiLanguage, o: Overlay, flow: PairingFlow, peers: Seq<PeerGrant>) -> Option<
    PopupView,
> {
    match o {
        Overlay::Closed => None,
        Overlay::Permissions { device_id, menu } => Some(
            (
                (80, 70, true),
                (tr_spec(lang, "为新设备选择权限"@, "Set permissions"@), choice_lines(preset_titles(lang), menu as int)),
                menu,
                Tone::Selected,
                Some(
                    (
                        tr_spec(lang, "说明"@, "Notes"@),
                        seq![
                            plain(
                                tr_spec(lang, "设备"@, "Device"@) + ": "@ + device_name_of(lang, peers, device_id@)
                                    + " ("@ + device_id@ + ")"@,
                            ),
                            labeled(
                                tr_spec(lang, "权限"@, "Permissions"@),
                                tr_spec(
                                    lang,
                                    "将立即生效（影响后续通信）。"@,
                                    "Takes effect immediately (future sessions)."@,
                                ),
                            ),
                            plain(
                                tr_spec(
                                    lang,
                                    "默认已配对为 读写（不允许镜像模式）。你可以在此调整。"@,
                                    "Default is paired as Read+Write (no mirror delete). You can adjust it here."@,
                                ),
                            ),
                        ],
                    ),
                ),
                7,
            ),
        ),
        Overlay::Continue { menu } => Some(
            (
                (70, 30, true),
                (tr_spec(lang, "继续？"@, "Continue?"@), choice_lines(continue_labels(lang, flow), menu as int)),
                menu,
                Tone::Selected,
                None,
                0,
            ),
        ),
    }
}

/// The popup of the open overlay, if any.
pub fn render_overlay(state: &State, lang: UiLanguage, flow: PairingFlow) -> (o: Option<Popup>)
    ensures
        match o {
            Some(p) => pairing_popup(lang, state.overlay, flow, state.peers@) == Some(popup_view(p)),
            None => pairing_popup(lang, state.overlay, flow, state.peers@) is None,
        },
{
    match &state.overlay {
        Overlay::Closed => None,
        Overlay::Permissions { device_id, menu } => {
            let titles = preset_title_list(lang);
            let items = choice_list(&titles, *menu);
            let id = device_id.as_str();
            let name = find_name(lang, &state.peers, id);
            let mut first = concat(tr(lang, "设备", "Device"), ": ");
            first.append(name.as_str());
            first.append(" (");
            first.append(id);
            first.append(")");
            let mut second = concat(tr(lang, "权限", "Permissions"), ": ");
            second.append(tr(lang, "将立即生效（影响后续通信）。", "Takes effect immediately (future sessions)."));
            let mut note: Vec<Line> = Vec::new();
            note.push(line_of(first, Tone::Plain));
            note.push(line_of(second, Tone::Plain));
            note.push(
                text_line(
                    tr(
                        lang,
                        "默认已配对为 读写（不允许镜像模式）。你可以在此调整。",
                        "Default is paired as Read+Write (no mirror delete). You can adjust it here.",
                    ),
                    Tone::Plain,
                ),
            );
            let ghost expected = seq![
                plain(
                    tr_spec(lang, "设备"@, "Device"@) + ": "@ + device_name_of(lang, state.peers@, device_id@) + " ("@
                        + device_id@ + ")"@,
                ),
                labeled(
                    tr_spec(lang, "权限"@, "Permissions"@),
                    tr_spec(lang, "将立即生效（影响后续通信）。"@, "Takes effect immediately (future sessions)."@),
                ),
                plain(
                    tr_spec(
                        lang,
                        "默认已配对为 读写（不允许镜像模式）。你可以在此调整。"@,
                        "Default is paired as Read+Write (no mirror delete). You can adjust it here."@,
                    ),
                ),
            ];
            assert(lines_view(note@) =~= expected);
            Some(
                Popup {
                    width_percent: 80,
                    height_percent: 70,
                    backdrop: true,
                    menu: panel(tr(lang, "为新设备选择权限", "Set permissions").to_string(), items),
                    selected: *menu,
                    highlight: Tone::Selected,
                    note: Some(panel(tr(lang, "说明", "Notes").to_string(), note)),
                    note_height: 7,
                },
            )
        },
        Overlay::Continue { menu } => {
            let mut labels: Vec<String> = Vec::new();
            labels.push(tr(lang, "继续配对更多设备（推荐）", "Pair another device (recommended)").to_string());
            labels.push(
                match flow {
                    PairingFlow::MainMenu => tr(lang, "返回主菜单", "Back to menu"),
                    PairingFlow::Onboard => tr(lang, "下一步", "Next step"),
                }.to_string(),
            );
            assert(texts_view(labels@) =~= continue_labels(lang, flow));
            let items = choice_list(&labels, *menu);
            Some(
                Popup {
                    width_percent: 70,
                    height_percent: 30,
                    backdrop: true,
                    menu: panel(tr(lang, "继续？", "Continue?").to_string(), items),
                    selected: *menu,
                    highlight: Tone::Selected,
                    note: None,
                    note_height: 0,
                },
            )
        },
    }
}

} // verus!
