use vstd::prelude::*;

verus! {

/// How a run of text is shown; the terminal front end gives each tone its
/// colors.
#[derive(Debug, Clone, Copy, PartialEq, Eq, Structural)]
pub enum Tone {
    Plain,
    Brand,
    Title,
    Selected,
    Hint,
    Success,
    Warning,
    Error,
}

/// A run of text in one tone.
#[derive(Debug, Clone)]
pub struct Span {
    pub text: String,
    pub tone: Tone,
}

/// One line of text; a line without spans is blank.
#[derive(Debug, Clone)]
pub struct Line {
    pub spans: Vec<Span>,
}

/// A bordered block of lines under a title.
#[derive(Debug, Clone)]
pub struct Panel {
    pub title: String,
    pub lines: Vec<Line>,
}

/// The view of a list of lines.
pub type LinesView = Seq<Seq<(Seq<char>, Tone)>>;

/// The view of a panel: its title and lines.
pub type PanelView = (Seq<char>, Seq<Seq<(Seq<char>, Tone)>>);

/// The view of a popup.
pub type PopupView = ((u16, u16, bool), PanelView, usize, Tone, Option<PanelView>, u16);

pub open spec fn span_view(s: Span) -> (Seq<char>, Tone) {
    (s.text@, s.tone)
}

pub open spec fn line_view(l: Line) -> Seq<(Seq<char>, Tone)> {
    l.spans@.map_values(|s: Span| span_view(s))
}

pub open spec fn lines_view(v: Seq<Line>) -> Seq<Seq<(Seq<char>, Tone)>> {
    v.map_values(|l: Line| line_view(l))
}

pub open spec fn panel_view(p: Panel) -> (Seq<char>, Seq<Seq<(Seq<char>, Tone)>>) {
    (p.title@, lines_view(p.lines@))
}

/// A line of a single run.
pub open spec fn one(text: Seq<char>, tone: Tone) -> Seq<(Seq<char>, Tone)> {
    seq![(text, tone)]
}

/// A line of plain text.
pub open spec fn plain(text: Seq<char>) -> Seq<(Seq<char>, Tone)> {
    one(text, Tone::Plain)
}

/// A blank line.
pub open spec fn blank() -> Seq<(Seq<char>, Tone)> {
    Seq::empty()
}

/// A plain `label: value` line.
pub open spec fn labeled(label: Seq<char>, value: Seq<char>) -> Seq<(Seq<char>, Tone)> {
    plain(label + ": "@ + value)
}

/// A menu entry: a filled dot when selected, a hollow one otherwise, then a
/// space and the text.
pub open spec fn choice(selected: bool, text: Seq<char>) -> Seq<char> {
    (if selected {
        "●"@
    } else {
        "○"@
    }) + " "@ + text
}

pub fn span(text: String, tone: Tone) -> (s: Span)
    ensures
        span_view(s) == (text@, tone),
{
    Span { text, tone }
}

/// A line of a single run.
pub fn line_of(text: String, tone: Tone) -> (l: Line)
    ensures
        line_view(l) == one(text@, tone),
{
    let mut spans: Vec<Span> = Vec::new();
    spans.push(span(text, tone));
    let l = Line { spans };
    assert(line_view(l) =~= one(text@, tone));
    l
}

/// A line of a single run of a borrowed text.
pub fn text_line(text: &str, tone: Tone) -> (l: Line)
    ensures
        line_view(l) == one(text@, tone),
{
    line_of(text.to_string(), tone)
}

/// A blank line.
pub fn blank_line() -> (l: Line)
    ensures
        line_view(l) == blank(),
{
    let l = Line { spans: Vec::new() };
    assert(line_view(l) =~= blank());
    l
}

/// A line of two runs.
pub fn two_spans(a: String, a_tone: Tone, b: String, b_tone: Tone) -> (l: Line)
    ensures
        line_view(l) == seq![(a@, a_tone), (b@, b_tone)],
{
    let mut spans: Vec<Span> = Vec::new();
    spans.push(span(a, a_tone));
    spans.push(span(b, b_tone));
    let l = Line { spans };
    assert(line_view(l) =~= seq![(a@, a_tone), (b@, b_tone)]);
    l
}

/// `a` followed by `b`.
pub fn concat(a: &str, b: &str) -> (s: String)
    ensures
        s@ == a@ + b@,
{
    let mut s = a.to_string();
    s.append(b);
    s
}

/// A plain `label: value` line.
pub fn labeled_line(label: &str, value: &str) -> (l: Line)
    ensures
        line_view(l) == labeled(label@, value@),
{
    let mut s = label.to_string();
    s.append(": ");
    s.append(value);
    line_of(s, Tone::Plain)
}

/// A menu entry with its selection dot.
pub fn choice_text(selected: bool, text: &str) -> (s: String)
    ensures
        s@ == choice(selected, text@),
{
    let mut s = if selected {
        "●".to_string()
    } else {
        "○".to_string()
    };
    s.append(" ");
    s.append(text);
    s
}

/// A panel of these lines.
pub fn panel(title: String, lines: Vec<Line>) -> (p: Panel)
    ensures
        p.title@ == title@,
        p.lines@ == lines@,
{
    Panel { title, lines }
}

/// Appends a blank line and then the error, when there is one.
pub fn push_error(lines: &mut Vec<Line>, error: &Option<String>)
    ensures
        lines_view(final(lines)@) == lines_view(old(lines)@) + error_lines(*error),
{
    let ghost before = lines@;
    match error {
        Some(e) => {
            lines.push(blank_line());
            lines.push(line_of(e.clone(), Tone::Error));
            assert(lines_view(lines@) =~= lines_view(before) + error_lines(*error));
        },
        None => {
            assert(lines_view(lines@) =~= lines_view(before) + error_lines(*error));
        },
    }
}

/// A blank line and the error in the error tone; nothing without one.
pub open spec fn error_lines(error: Option<String>) -> Seq<Seq<(Seq<char>, Tone)>> {
    match error {
        Some(e) => seq![blank(), one(e@, Tone::Error)],
        None => Seq::empty(),
    }
}


/// The entries of a menu, each a line with its selection dot.
pub open spec fn choice_lines(titles: Seq<Seq<char>>, selected: int) -> Seq<Seq<(Seq<char>, Tone)>> {
    Seq::new(titles.len(), |i: int| plain(choice(i == selected, titles[i])))
}

/// The lines of a menu whose entry `selected` is marked.
pub fn choice_list(titles: &Vec<String>, selected: usize) -> (v: Vec<Line>)
    ensures
        lines_view(v@) == choice_lines(titles@.map_values(|t: String| t@), selected as int),
{
    let ghost tv = titles@.map_values(|t: String| t@);
    let mut v: Vec<Line> = Vec::new();
    let mut i: usize = 0;
    while i < titles.len()
        invariant
            i <= titles@.len(),
            tv == titles@.map_values(|t: String| t@),
            v@.len() == i,
            lines_view(v@) == choice_lines(tv, selected as int).take(i as int),
        decreases titles@.len() - i,
    {
        let ghost prev = v@;
        assert(tv[i as int] == titles@[i as int]@);
        v.push(line_of(choice_text(i == selected, titles[i].as_str()), Tone::Plain));
        assert(lines_view(v@) =~= choice_lines(tv, selected as int).take(i + 1)) by {
            assert(lines_view(prev) =~= choice_lines(tv, selected as int).take(i as int));
        }
        i = i + 1;
    }
    assert(choice_lines(tv, selected as int).take(titles@.len() as int) =~= choice_lines(tv, selected as int));
    v
}

/// The views of some texts.
pub open spec fn texts_view(v: Seq<String>) -> Seq<Seq<char>> {
    v.map_values(|t: String| t@)
}


/// A menu drawn over the screen, centered in the given share of it, with an
/// optional note under it.
#[derive(Debug, Clone)]
pub struct Popup {
    pub width_percent: u16,
    pub height_percent: u16,
    /// Whether the screen behind is dimmed.
    pub backdrop: bool,
    pub menu: Panel,
    pub selected: usize,
    /// The tone of the selected entry.
    pub highlight: Tone,
    pub note: Option<Panel>,
    /// The rows the note takes.
    pub note_height: u16,
}

pub open spec fn option_panel_view(p: Option<Panel>) -> Option<(Seq<char>, Seq<Seq<(Seq<char>, Tone)>>)> {
    match p {
        Some(q) => Some(panel_view(q)),
        None => None,
    }
}

/// A popup's geometry, menu, selection, highlight, note and note height.
pub open spec fn popup_view(p: Popup) -> (
    (u16, u16, bool),
    (Seq<char>, Seq<Seq<(Seq<char>, Tone)>>),
    usize,
    Tone,
    Option<(Seq<char>, Seq<Seq<(Seq<char>, Tone)>>)>,
    u16,
) {
    (
        (p.width_percent, p.height_percent, p.backdrop),
        panel_view(p.menu),
        p.selected,
        p.highlight,
        option_panel_view(p.note),
        p.note_height,
    )
}

} // verus!
