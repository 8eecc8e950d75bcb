use vstd::prelude::*;

use crate::config::UiLanguage;
use crate::tui::help::{about_lines, about_text, keys_lines, keys_text, line_views, tips_lines, tips_text, HelpTab, State};
use crate::tui::i18n::{tr, tr_spec};
use crate::tui::screens::{page_header, page_header_spans};
use crate::tui::view::{line_view, lines_view, one, panel, panel_view, plain, span, span_view, text_line, Line, Panel, Span, Tone};

verus! {

/// What the help screen shows.
#[derive(Debug, Clone)]
pub struct HelpView {
    pub header: Line,
    pub tabs: Vec<&'static str>,
    pub selected: usize,
    pub content: Panel,
    pub hint: &'static str,
}

/// Where a tab stands among the tabs.
pub open spec fn tab_index(t: HelpTab) -> int {
    match t {
        HelpTab::About => 0,
        HelpTab::Keys => 1,
        HelpTab::Tips => 2,
    }
}

/// The text of a tab.
pub open spec fn tab_text(lang: UiLanguage, t: HelpTab) -> Seq<Seq<char>> {
    match t {
        HelpTab::About => about_lines(lang),
        HelpTab::Keys => keys_lines(lang),
        HelpTab::Tips => tips_lines(lang),
    }
}

fn plain_lines(texts: &Vec<&'static str>) -> (v: Vec<Line>)
    ensures
        lines_view(v@) == line_views(texts@).map_values(|t: Seq<char>| plain(t)),
{
    let mut v: Vec<Line> = Vec::new();
    let mut i: usize = 0;
    while i < texts.len()
        invariant
            i <= texts@.len(),
            v@.len() == i,
            lines_view(v@) == line_views(texts@).map_values(|t: Seq<char>| plain(t)).take(i as int),
        decreases texts@.len() - i,
    {
        v.push(text_line(texts[i], Tone::Plain));
        assert(lines_view(v@) =~= line_views(texts@).map_values(|t: Seq<char>| plain(t)).take(i + 1));
        i = i + 1;
    }
    assert(line_views(texts@).map_values(|t: Seq<char>| plain(t)).take(texts@.len() as int) =~= line_views(
        texts@,
    ).map_values(|t: Seq<char>| plain(t)));
    v
}

/// The help screen: the tabs with the current one selected, and its text.
pub fn render(state: &State, lang: UiLanguage) -> (v: HelpView)
    ensures
        line_view(v.header) == page_header_spans(seq![(tr_spec(lang, "帮助 / 关于"@, "Help / About"@), Tone::Title)]),
        line_views(v.tabs@) == seq![
            HelpTab::About.title_spec(lang),
            HelpTab::Keys.title_spec(lang),
            HelpTab::Tips.title_spec(lang),
        ],
        v.selected == tab_index(state.tab),
        panel_view(v.content) == (
            state.tab.title_spec(lang),
            tab_text(lang, state.tab).map_values(|t: Seq<char>| plain(t)),
        ),
        v.hint@ == tr_spec(lang, "Tab/←→ 切换标签  Esc 返回  q 退出"@, "Tab/←→ switch tab  Esc back  q quit"@),
{
    let mut extra: Vec<Span> = Vec::new();
    extra.push(span(tr(lang, "帮助 / 关于", "Help / About").to_string(), Tone::Title));
    assert(extra@.map_values(|s: Span| span_view(s)) =~= seq![(tr_spec(lang, "帮助 / 关于"@, "Help / About"@), Tone::Title)]);
    let mut tabs: Vec<&'static str> = Vec::new();
    tabs.push(HelpTab::About.title(lang));
    tabs.push(HelpTab::Keys.title(lang));
    tabs.push(HelpTab::Tips.title(lang));
    assert(line_views(tabs@) =~= seq![
        HelpTab::About.title_spec(lang),
        HelpTab::Keys.title_spec(lang),
        HelpTab::Tips.title_spec(lang),
    ]);
    let selected: usize = match state.tab {
        HelpTab::About => 0,
        HelpTab::Keys => 1,
        HelpTab::Tips => 2,
    };
    let text = match state.tab {
        HelpTab::About => about_text(lang),
        HelpTab::Keys => keys_text(lang),
        HelpTab::Tips => tips_text(lang),
    };
    HelpView {
        header: page_header(extra),
        tabs,
        selected,
        content: panel(state.tab.title(lang).to_string(), plain_lines(&text)),
        hint: tr(lang, "Tab/←→ 切换标签  Esc 返回  q 退出", "Tab/←→ switch tab  Esc back  q quit"),
    }
}

} // verus!
