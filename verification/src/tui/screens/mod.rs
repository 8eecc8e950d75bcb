pub mod main_menu;
pub mod pairing;
pub mod peers;
pub mod help;
pub mod doctor;
pub mod serve;
pub mod onboard;
pub mod layout;

use vstd::prelude::*;

use crate::config::UiLanguage;
use crate::text::chars_of;
use crate::tui::i18n::{tr, tr_spec};
use crate::tui::view::{labeled, labeled_line, lines_view, span, span_view, Line, Span, Tone};

verus! {

/// The header of every page: the name of the program, a bar, and `extra`.
pub open spec fn page_header_spans(extra: Seq<(Seq<char>, Tone)>) -> Seq<(Seq<char>, Tone)> {
    seq![("TT-Sync"@, Tone::Brand), ("  │  "@, Tone::Plain)] + extra
}

/// The header line of a page.
pub fn page_header(extra: Vec<Span>) -> (l: Line)
    ensures
        l.spans@.map_values(|s: Span| span_view(s)) == page_header_spans(extra@.map_values(|s: Span| span_view(s))),
{
    let mut spans: Vec<Span> = Vec::new();
    spans.push(span("TT-Sync".to_string(), Tone::Brand));
    spans.push(span("  │  ".to_string(), Tone::Plain));
    let ghost head = spans@;
    let mut rest = extra;
    spans.append(&mut rest);
    assert(spans@.map_values(|s: Span| span_view(s)) =~= page_header_spans(extra@.map_values(|s: Span| span_view(s))));
    Line { spans }
}

/// What was found of the config when the synchronized folder is shown.
#[derive(Debug, Clone)]
pub enum ConfigRead {
    /// There is no config file.
    Missing,
    /// The config loaded; its folder as shown.
    Loaded(String),
    /// The config did not load.
    Failed,
}

/// How the synchronized folder is shown.
pub open spec fn sync_folder_text(lang: UiLanguage, read: ConfigRead) -> Seq<char> {
    match read {
        ConfigRead::Missing => tr_spec(lang, "未指定"@, "unspecified"@),
        ConfigRead::Loaded(p) => p@,
        ConfigRead::Failed => tr_spec(lang, "读取失败（运行 Doctor 查看）"@, "load failed (run Doctor)"@),
    }
}

pub fn sync_folder_display(lang: UiLanguage, read: ConfigRead) -> (s: String)
    ensures
        s@ == sync_folder_text(lang, read),
{
    match read {
        ConfigRead::Missing => tr(lang, "未指定", "unspecified").to_string(),
        ConfigRead::Loaded(p) => p,
        ConfigRead::Failed => tr(lang, "读取失败（运行 Doctor 查看）", "load failed (run Doctor)").to_string(),
    }
}

/// The size of a block of text, in columns and lines.
#[derive(Debug, Clone, Copy, PartialEq, Eq, Structural)]
pub struct TextSize {
    pub width: u16,
    pub height: u16,
}

/// The lines of a text as `str::lines` gives them: split at `\n`, a `\r`
/// before the `\n` dropped, and no line after a final `\n`.
pub open spec fn text_lines(s: Seq<char>) -> Seq<Seq<char>>
    decreases s.len(),
{
    if s.len() == 0 {
        Seq::empty()
    } else {
        let k = first_newline(s);
        proof {
            lemma_first_newline(s);
        }
        if k < s.len() {
            let line = s.take(k);
            let line = if line.len() > 0 && line.last() == '\r' {
                line.drop_last()
            } else {
                line
            };
            seq![line] + text_lines(s.skip(k + 1))
        } else {
            seq![s]
        }
    }
}

/// The position of the first `\n` of `s`, or its length.
pub open spec fn first_newline(s: Seq<char>) -> int
    decreases s.len(),
{
    if s.len() == 0 {
        0
    } else if s[0] == '\n' {
        0
    } else {
        1 + first_newline(s.drop_first())
    }
}

/// The longest line's length, or zero.
pub open spec fn max_line_len(lines: Seq<Seq<char>>) -> nat
    decreases lines.len(),
{
    if lines.len() == 0 {
        0
    } else {
        let rest = max_line_len(lines.drop_first());
        if lines[0].len() > rest {
            lines[0].len()
        } else {
            rest
        }
    }
}

/// A count cut at the largest `u16`.
pub open spec fn saturate_u16(n: nat) -> u16 {
    if n > 0xffff {
        0xffff
    } else {
        n as u16
    }
}

/// The size of a text: its longest line and its number of lines, each cut at
/// the largest `u16`.
pub open spec fn text_size_of(s: Seq<char>) -> TextSize {
    TextSize {
        width: saturate_u16(max_line_len(text_lines(s))),
        height: saturate_u16(text_lines(s).len()),
    }
}

pub proof fn lemma_first_newline(s: Seq<char>)
    ensures
        0 <= first_newline(s) <= s.len(),
        forall|i: int| 0 <= i < first_newline(s) ==> s[i] != '\n',
        first_newline(s) < s.len() ==> s[first_newline(s)] == '\n',
    decreases s.len(),
{
    if s.len() > 0 && s[0] != '\n' {
        lemma_first_newline(s.drop_first());
        assert forall|i: int| 0 <= i < first_newline(s) implies s[i] != '\n' by {
            if i > 0 {
                assert(s[i] == s.drop_first()[i - 1]);
            }
        }
    }
}

proof fn lemma_first_newline_at(s: Seq<char>, k: int)
    requires
        0 <= k <= s.len(),
        forall|i: int| 0 <= i < k ==> s[i] != '\n',
        k < s.len() ==> s[k] == '\n',
    ensures
        first_newline(s) == k,
    decreases s.len(),
{
    if s.len() > 0 && s[0] != '\n' {
        lemma_first_newline_at(s.drop_first(), k - 1);
    }
}

proof fn lemma_max_line_len_push(lines: Seq<Seq<char>>, line: Seq<char>)
    ensures
        max_line_len(lines.push(line)) == (if line.len() > max_line_len(lines) {
            line.len()
        } else {
            max_line_len(lines)
        }),
    decreases lines.len(),
{
    reveal_with_fuel(max_line_len, 2);
    if lines.len() > 0 {
        lemma_max_line_len_push(lines.drop_first(), line);
        assert(lines.push(line).drop_first() =~= lines.drop_first().push(line));
        assert(lines.push(line)[0] == lines[0]);
    } else {
        assert(lines.push(line).drop_first() =~= Seq::<Seq<char>>::empty());
    }
}

proof fn lemma_text_lines_step(s: Seq<char>, k: int)
    requires
        0 <= k < s.len(),
        forall|i: int| 0 <= i < k ==> s[i] != '\n',
        s[k] == '\n',
    ensures
        text_lines(s) == seq![
            if k > 0 && s[k - 1] == '\r' {
                s.take(k - 1)
            } else {
                s.take(k)
            },
        ] + text_lines(s.skip(k + 1)),
{
    lemma_first_newline_at(s, k);
    if k > 0 && s[k - 1] == '\r' {
        assert(s.take(k).drop_last() =~= s.take(k - 1));
    }
}

/// Measures a text the way the pairing screen sizes its QR code.
pub fn text_size(text: &str) -> (t: TextSize)
    ensures
        t == text_size_of(text@),
{
    let cs = chars_of(text);
    let n = cs.len();
    let ghost s = cs@;
    let mut start: usize = 0;
    let mut width: usize = 0;
    let mut height: usize = 0;
    let ghost mut done: Seq<Seq<char>> = Seq::empty();
    assert(s.skip(0) =~= s);
    while start < n
        invariant
            start <= n,
            n == s.len(),
            s == cs@,
            s == text@,
            text_lines(s) == done + text_lines(s.skip(start as int)),
            width == max_line_len(done),
            height == done.len(),
            height <= start,
            width <= start,
        decreases n - start,
    {
        let mut k: usize = start;
        while k < n && cs[k] != '\n'
            invariant
                start <= k <= n,
                n == s.len(),
                s == cs@,
                forall|i: int| start <= i < k ==> s[i] != '\n',
            decreases n - k,
        {
            k = k + 1;
        }
        let ghost rest = s.skip(start as int);
        if k < n {
            let len: usize = if k > start && cs[k - 1] == '\r' {
                k - 1 - start
            } else {
                k - start
            };
            proof {
                lemma_text_lines_step(rest, k - start);
                assert(rest.skip(k - start + 1) =~= s.skip(k + 1));
                let line = if k - start > 0 && rest[k - start - 1] == '\r' {
                    rest.take(k - start - 1)
                } else {
                    rest.take(k - start)
                };
                assert(line.len() == len);
                lemma_max_line_len_push(done, line);
                assert(done + text_lines(rest) =~= done.push(line) + text_lines(s.skip(k + 1)));
                done = done.push(line);
            }
            if len > width {
                width = len;
            }
            height = height + 1;
            start = k + 1;
        } else {
            let len: usize = k - start;
            proof {
                lemma_first_newline_at(rest, k - start);
                assert(rest.len() > 0);
                assert(text_lines(rest) == seq![rest]);
                lemma_max_line_len_push(done, rest);
                assert(done + text_lines(rest) =~= done.push(rest) + text_lines(s.skip(n as int)));
                assert(s.skip(n as int) =~= Seq::<char>::empty());
                done = done.push(rest);
            }
            if len > width {
                width = len;
            }
            height = height + 1;
            start = n;
        }
    }
    assert(s.skip(n as int) =~= Seq::<char>::empty());
    assert(done + Seq::<Seq<char>>::empty() =~= done);
    let w: u16 = if width > 0xffff {
        0xffff
    } else {
        width as u16
    };
    let h: u16 = if height > 0xffff {
        0xffff
    } else {
        height as u16
    };
    TextSize { width: w, height: h }
}

/// A text fits in a bordered block when it fits inside the borders.
pub fn qr_fits_in_block(qr_size: TextSize, area_width: u16, area_height: u16) -> (b: bool)
    ensures
        b == (qr_size.width <= (if area_width >= 2 {
            area_width - 2
        } else {
            0
        }) && qr_size.height <= (if area_height >= 2 {
            area_height - 2
        } else {
            0
        })),
{
    let w = if area_width >= 2 {
        area_width - 2
    } else {
        0
    };
    let h = if area_height >= 2 {
        area_height - 2
    } else {
        0
    };
    qr_size.width <= w && qr_size.height <= h
}

/// How the pairing screen arranges its body.
#[derive(Debug, Clone, Copy, PartialEq, Eq, Structural)]
pub enum PairingBodyKind {
    /// Pairing card and peers side by side.
    Wide,
    /// Pairing card above the peers.
    Stacked,
    /// The pairing card alone.
    PairOnly,
}

/// Wide from 104 columns, stacked from 34 lines, the card alone otherwise.
pub fn pairing_body_kind(width: u16, height: u16) -> (k: PairingBodyKind)
    ensures
        k == (if width >= 104 {
            PairingBodyKind::Wide
        } else if height >= 34 {
            PairingBodyKind::Stacked
        } else {
            PairingBodyKind::PairOnly
        }),
{
    if width >= 104 {
        PairingBodyKind::Wide
    } else if height >= 34 {
        PairingBodyKind::Stacked
    } else {
        PairingBodyKind::PairOnly
    }
}

/// The height of the peers panel when stacked: eight lines, at most a third
/// of the body.
pub fn peers_panel_height(height: u16) -> (h: u16)
    ensures
        h == (if 8 <= height / 3 {
            8
        } else {
            height / 3
        }),
{
    if 8 <= height / 3 {
        8
    } else {
        height / 3
    }
}

/// The color of the status dot.
#[derive(Debug, Clone, Copy, PartialEq, Eq, Structural)]
pub enum StatusDot {
    Success,
    Warning,
    Error,
}

/// Running shows success; initialized but stopped a warning; otherwise an error.
pub fn status_dot(running: bool, initialized: bool) -> (d: StatusDot)
    ensures
        d == (if running {
            StatusDot::Success
        } else if initialized {
            StatusDot::Warning
        } else {
            StatusDot::Error
        }),
{
    if running {
        StatusDot::Success
    } else if initialized {
        StatusDot::Warning
    } else {
        StatusDot::Error
    }
}

/// The two lines that show where the synchronized folder and the config are.
pub open spec fn path_lines(lang: UiLanguage, sync_folder: Seq<char>, config_path: Seq<char>) -> Seq<
    Seq<(Seq<char>, Tone)>,
> {
    seq![
        labeled(tr_spec(lang, "同步文件夹"@, "Sync folder"@), sync_folder),
        labeled(tr_spec(lang, "配置文件"@, "Config"@), config_path),
    ]
}

/// Appends the two lines of `path_lines`.
pub fn push_paths(lines: &mut Vec<Line>, lang: UiLanguage, sync_folder: &str, config_path: &str)
    ensures
        lines_view(final(lines)@) == lines_view(old(lines)@) + path_lines(lang, sync_folder@, config_path@),
{
    let ghost before = lines@;
    lines.push(labeled_line(tr(lang, "同步文件夹", "Sync folder"), sync_folder));
    lines.push(labeled_line(tr(lang, "配置文件", "Config"), config_path));
    assert(lines_view(lines@) =~= lines_view(before) + path_lines(lang, sync_folder@, config_path@));
}

} // verus!
