use vstd::prelude::*;

use crate::config::UiLanguage;
use crate::tui::doctor::{check_view, CheckResult, CheckStatus, State};
use crate::tui::i18n::{tr, tr_spec};
use crate::tui::screens::{page_header, page_header_spans};
use crate::tui::view::{
    blank, blank_line, concat, line_of, line_view, lines_view, one, panel, panel_view, plain, span, span_view,
    text_line, two_spans, Line, Panel, Span, Tone,
};

verus! {

/// What the doctor screen shows.
#[derive(Debug, Clone)]
pub struct DoctorView {
    pub header: Line,
    pub body: Panel,
    pub hint: &'static str,
}

/// The mark of a check's outcome.
pub open spec fn status_icon(s: CheckStatus) -> Seq<char> {
    match s {
        CheckStatus::Pass => "✓"@,
        CheckStatus::Warn => "!"@,
        CheckStatus::Fail => "✗"@,
    }
}

pub open spec fn status_tone(s: CheckStatus) -> Tone {
    match s {
        CheckStatus::Pass => Tone::Success,
        CheckStatus::Warn => Tone::Warning,
        CheckStatus::Fail => Tone::Error,
    }
}

/// The three lines of a check: its mark and label, its detail indented, and
/// a blank line.
pub open spec fn check_block(c: (Seq<char>, CheckStatus, Seq<char>)) -> Seq<Seq<(Seq<char>, Tone)>> {
    seq![
        seq![(" "@ + status_icon(c.1) + " "@, status_tone(c.1)), (c.0, Tone::Title)],
        plain("     "@ + c.2),
        blank(),
    ]
}

/// The lines of the results: a loading note before any check has run.
pub open spec fn checks_lines(lang: UiLanguage, checks: Seq<(Seq<char>, CheckStatus, Seq<char>)>) -> Seq<
    Seq<(Seq<char>, Tone)>,
> {
    if checks.len() == 0 {
        seq![plain(tr_spec(lang, "正在加载…"@, "Loading…"@))]
    } else {
        checks.map_values(|c: (Seq<char>, CheckStatus, Seq<char>)| check_block(c)).flatten_alt()
    }
}

pub open spec fn check_views(v: Seq<CheckResult>) -> Seq<(Seq<char>, CheckStatus, Seq<char>)> {
    v.map_values(|c: CheckResult| check_view(c))
}

fn push_check(lines: &mut Vec<Line>, c: &CheckResult)
    ensures
        lines_view(final(lines)@) == lines_view(old(lines)@) + check_block(check_view(*c)),
{
    let ghost before = lines@;
    let (icon, tone) = match c.status {
        CheckStatus::Pass => ("✓", Tone::Success),
        CheckStatus::Warn => ("!", Tone::Warning),
        CheckStatus::Fail => ("✗", Tone::Error),
    };
    let mut mark = concat(" ", icon);
    mark.append(" ");
    lines.push(two_spans(mark, tone, c.label.to_string(), Tone::Title));
    lines.push(line_of(concat("     ", c.detail.as_str()), Tone::Plain));
    lines.push(blank_line());
    assert(lines_view(lines@) =~= lines_view(before) + check_block(check_view(*c)));
}

/// The results of the checks.
pub fn render_checks(state: &State, lang: UiLanguage) -> (p: Panel)
    ensures
        panel_view(p) == (tr_spec(lang, "诊断结果"@, "Diagnostics"@), checks_lines(lang, check_views(state.checks@))),
{
    let mut lines: Vec<Line> = Vec::new();
    if state.checks.len() == 0 {
        lines.push(text_line(tr(lang, "正在加载…", "Loading…"), Tone::Plain));
        assert(lines_view(lines@) =~= checks_lines(lang, check_views(state.checks@)));
    } else {
        let ghost cv = check_views(state.checks@);
        let mut i: usize = 0;
        while i < state.checks.len()
            invariant
                i <= state.checks@.len(),
                cv == check_views(state.checks@),
                lines_view(lines@) == cv.take(i as int).map_values(
                    |c: (Seq<char>, CheckStatus, Seq<char>)| check_block(c),
                ).flatten_alt(),
            decreases state.checks@.len() - i,
        {
            let ghost prev = cv.take(i as int).map_values(|c: (Seq<char>, CheckStatus, Seq<char>)| check_block(c));
            push_check(&mut lines, &state.checks[i]);
            let ghost next = cv.take(i + 1).map_values(|c: (Seq<char>, CheckStatus, Seq<char>)| check_block(c));
            assert(next.drop_last() =~= prev);
            assert(next.last() == check_block(check_view(state.checks@[i as int])));
            i = i + 1;
        }
        assert(cv.take(state.checks@.len() as int) =~= cv);
    }
    panel(tr(lang, "诊断结果", "Diagnostics").to_string(), lines)
}

/// The doctor screen.
pub fn render(state: &State, lang: UiLanguage) -> (v: DoctorView)
    ensures
        line_view(v.header) == page_header_spans(seq![(tr_spec(lang, "运行诊断"@, "Doctor"@), Tone::Title)]),
        panel_view(v.body) == (tr_spec(lang, "诊断结果"@, "Diagnostics"@), checks_lines(lang, check_views(state.checks@))),
        v.hint@ == tr_spec(lang, "Esc 返回  q 退出"@, "Esc back  q quit"@),
{
    let mut extra: Vec<Span> = Vec::new();
    extra.push(span(tr(lang, "运行诊断", "Doctor").to_string(), Tone::Title));
    assert(extra@.map_values(|s: Span| span_view(s)) =~= seq![(tr_spec(lang, "运行诊断"@, "Doctor"@), Tone::Title)]);
    DoctorView {
        header: page_header(extra),
        body: render_checks(state, lang),
        hint: tr(lang, "Esc 返回  q 退出", "Esc back  q quit"),
    }
}

} // verus!
