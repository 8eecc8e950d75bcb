use vstd::prelude::*;

use crate::config::UiLanguage;
use crate::tui::app::{menu_item_at, MainMenuItem, MainMenuState, MAIN_MENU_LEN};
use crate::tui::i18n::{tr, tr_spec};
use crate::tui::screens::{page_header, page_header_spans, path_lines, push_paths};
use crate::tui::view::{
    blank, blank_line, choice_lines, choice_list, labeled, labeled_line, line_view, lines_view, one,
    panel, panel_view, plain, span, span_view, text_line, texts_view, Line, Panel, Span, Tone,
};

verus! {

/// What the main menu shows.
#[derive(Debug, Clone)]
pub struct MainMenuView {
    pub header: Line,
    pub menu: Panel,
    pub selected: usize,
    pub info: Panel,
    pub hint: &'static str,
}

/// The state word of the header: serving, set up, or not set up.
pub open spec fn status_word(running: bool, initialized: bool) -> Seq<char> {
    if running {
        "Serving"@
    } else if initialized {
        "Initialized"@
    } else {
        "Not initialized"@
    }
}

/// The tone of the status dot: success when serving, a warning when set up
/// but stopped, an error otherwise.
pub open spec fn status_tone(running: bool, initialized: bool) -> Tone {
    if running {
        Tone::Success
    } else if initialized {
        Tone::Warning
    } else {
        Tone::Error
    }
}

pub open spec fn main_header_spans(running: bool, initialized: bool) -> Seq<(Seq<char>, Tone)> {
    page_header_spans(
        seq![
            ("●"@, status_tone(running, initialized)),
            (" "@, Tone::Plain),
            (status_word(running, initialized), Tone::Title),
        ],
    )
}

/// The titles of the menu's entries, in order.
pub open spec fn menu_titles(lang: UiLanguage) -> Seq<Seq<char>> {
    Seq::new(MAIN_MENU_LEN as nat, |i: int| menu_item_at(i).title_spec(lang))
}

pub open spec fn main_info_lines(
    lang: UiLanguage,
    running: bool,
    sync_folder: Seq<char>,
    config_path: Seq<char>,
) -> Seq<Seq<(Seq<char>, Tone)>> {
    seq![
        one(tr_spec(lang, "提示"@, "Hints"@), Tone::Title),
        blank(),
        plain(tr_spec(lang, "Enter 进入  ·  q 退出  ·  Esc 返回"@, "Enter select  ·  q quit  ·  Esc back"@)),
        blank(),
        one(tr_spec(lang, "当前状态"@, "Status"@), Tone::Title),
        labeled(
            tr_spec(lang, "服务"@, "Server"@),
            if running {
                tr_spec(lang, "运行中"@, "running"@)
            } else {
                tr_spec(lang, "未运行"@, "stopped"@)
            },
        ),
    ] + path_lines(lang, sync_folder, config_path)
}

fn menu_titles_exec(lang: UiLanguage) -> (v: Vec<String>)
    ensures
        texts_view(v@) == menu_titles(lang),
{
    let mut v: Vec<String> = Vec::new();
    let mut i: usize = 0;
    while i < MAIN_MENU_LEN
        invariant
            i <= MAIN_MENU_LEN,
            v@.len() == i,
            texts_view(v@) == menu_titles(lang).take(i as int),
        decreases MAIN_MENU_LEN - i,
    {
        let t = MainMenuItem::at(i).title(lang).to_string();
        v.push(t);
        assert(texts_view(v@) =~= menu_titles(lang).take(i + 1));
        i = i + 1;
    }
    assert(menu_titles(lang).take(MAIN_MENU_LEN as int) =~= menu_titles(lang));
    v
}

/// The main menu: the state of the server in the header, the entries with
/// the selected one marked, and where things are.
pub fn render(
    lang: UiLanguage,
    menu: &MainMenuState,
    server_running: bool,
    initialized: bool,
    sync_folder: &str,
    config_path: &str,
) -> (v: MainMenuView)
    ensures
        line_view(v.header) == main_header_spans(server_running, initialized),
        panel_view(v.menu) == (tr_spec(lang, "菜单"@, "Menu"@), choice_lines(menu_titles(lang), menu@ as int)),
        v.selected == menu@,
        panel_view(v.info) == (
            tr_spec(lang, "信息"@, "Info"@),
            main_info_lines(lang, server_running, sync_folder@, config_path@),
        ),
        v.hint@ == tr_spec(lang, "↑↓ 选择  Enter 确认  Esc 返回  q 退出"@, "↑↓ select  Enter confirm  Esc back  q quit"@),
{
    let tone = if server_running {
        Tone::Success
    } else if initialized {
        Tone::Warning
    } else {
        Tone::Error
    };
    let word = if server_running {
        "Serving"
    } else if initialized {
        "Initialized"
    } else {
        "Not initialized"
    };
    let mut extra: Vec<Span> = Vec::new();
    extra.push(span("●".to_string(), tone));
    extra.push(span(" ".to_string(), Tone::Plain));
    extra.push(span(word.to_string(), Tone::Title));
    assert(extra@.map_values(|s: Span| span_view(s)) =~= seq![
        ("●"@, status_tone(server_running, initialized)),
        (" "@, Tone::Plain),
        (status_word(server_running, initialized), Tone::Title),
    ]);
    let header = page_header(extra);
    let selected = menu.selected();
    let titles = menu_titles_exec(lang);
    let items = choice_list(&titles, selected);
    let mut info: Vec<Line> = Vec::new();
    info.push(text_line(tr(lang, "提示", "Hints"), Tone::Title));
    info.push(blank_line());
    info.push(
        text_line(tr(lang, "Enter 进入  ·  q 退出  ·  Esc 返回", "Enter select  ·  q quit  ·  Esc back"), Tone::Plain),
    );
    info.push(blank_line());
    info.push(text_line(tr(lang, "当前状态", "Status"), Tone::Title));
    let state = if server_running {
        tr(lang, "运行中", "running")
    } else {
        tr(lang, "未运行", "stopped")
    };
    info.push(labeled_line(tr(lang, "服务", "Server"), state));
    push_paths(&mut info, lang, sync_folder, config_path);
    assert(lines_view(info@) =~= main_info_lines(lang, server_running, sync_folder@, config_path@));
    MainMenuView {
        header,
        menu: panel(tr(lang, "菜单", "Menu").to_string(), items),
        selected,
        info: panel(tr(lang, "信息", "Info").to_string(), info),
        hint: tr(lang, "↑↓ 选择  Enter 确认  Esc 返回  q 退出", "↑↓ select  Enter confirm  Esc back  q quit"),
    }
}

} // verus!
