use vstd::prelude::*;

use crate::config::{layout_debug_name, layout_debug_name_exec, LayoutMode, MountPaths, UiLanguage};
use crate::text::{decimal, decimal_chars, push_chars};
use crate::tui::i18n::{tr, tr_spec};
use crate::tui::onboard::{layout_at, ServiceMode, State, Step};
use crate::tui::screens::{page_header, page_header_spans, path_lines, push_paths};
use crate::tui::text_input::visual;
use crate::tui::view::{
    blank, blank_line, choice, choice_text, concat, error_lines, labeled, labeled_line, line_of,
    line_view, lines_view, one, panel, panel_view, plain, push_error, span, span_view, text_line,
    two_spans, Line, Panel, Span, Tone,
};
use crate::user_service::UserServiceManager;

verus! {

/// The place of each step on the progress bar; the pairing screen, reached
/// from the pairing step, is the seventh.
pub open spec fn step_number(step: Step) -> nat {
    match step {
        Step::WelcomeLanguage => 1,
        Step::ListenPort => 2,
        Step::PublicUrl => 3,
        Step::LayoutMode => 4,
        Step::WorkspacePath => 5,
        Step::PairNow => 6,
        Step::ServiceMode => 9,
        Step::Done => 10,
    }
}

fn step_number_exec(step: Step) -> (n: u64)
    ensures
        n == step_number(step),
{
    match step {
        Step::WelcomeLanguage => 1,
        Step::ListenPort => 2,
        Step::PublicUrl => 3,
        Step::LayoutMode => 4,
        Step::WorkspacePath => 5,
        Step::PairNow => 6,
        Step::ServiceMode => 9,
        Step::Done => 10,
    }
}

/// The mark at position `i` (from one) of the bar when step `n` is shown:
/// the current one, those done, those to come.
pub open spec fn bar_char(i: int, n: int) -> char {
    if i == n {
        '●'
    } else if i < n {
        '━'
    } else {
        '─'
    }
}

/// The ten marks of the progress bar at step `n`.
pub open spec fn progress_bar(n: nat) -> Seq<char> {
    Seq::new(10, |j: int| bar_char(j + 1, n as int))
}

/// The header of the flow: its name, the progress bar and `n/10`.
pub open spec fn header_spans(lang: UiLanguage, step: Step) -> Seq<(Seq<char>, Tone)> {
    page_header_spans(
        seq![
            (tr_spec(lang, "Onboard（引导设置）"@, "Onboard"@), Tone::Title),
            ("  "@, Tone::Plain),
            (progress_bar(step_number(step)), Tone::Selected),
            ("  "@, Tone::Plain),
            (decimal(step_number(step)) + "/10"@, Tone::Hint),
        ],
    )
}

fn progress_bar_exec(n: u64) -> (s: String)
    ensures
        s@ == progress_bar(n as nat),
{
    let mut s = String::new();
    let mut i: u64 = 1;
    while i <= 10
        invariant
            1 <= i <= 11,
            s@ == Seq::new((i - 1) as nat, |j: int| bar_char(j + 1, n as int)),
        decreases 11 - i,
    {
        let c = if i == n {
            '●'
        } else if i < n {
            '━'
        } else {
            '─'
        };
        s.push(c);
        assert(s@ =~= Seq::new(i as nat, |j: int| bar_char(j + 1, n as int)));
        i = i + 1;
    }
    assert(s@ =~= progress_bar(n as nat));
    s
}

/// The header line of the flow.
pub fn render_header(lang: UiLanguage, step: Step) -> (l: Line)
    ensures
        line_view(l) == header_spans(lang, step),
{
    let n = step_number_exec(step);
    let mut count = String::new();
    let digits = decimal_chars(n);
    push_chars(&mut count, digits.as_slice());
    count.append("/10");
    let mut extra: Vec<Span> = Vec::new();
    extra.push(span(tr(lang, "Onboard（引导设置）", "Onboard").to_string(), Tone::Title));
    extra.push(span("  ".to_string(), Tone::Plain));
    extra.push(span(progress_bar_exec(n), Tone::Selected));
    extra.push(span("  ".to_string(), Tone::Plain));
    extra.push(span(count, Tone::Hint));
    let ghost expected = seq![
        (tr_spec(lang, "Onboard（引导设置）"@, "Onboard"@), Tone::Title),
        ("  "@, Tone::Plain),
        (progress_bar(step_number(step)), Tone::Selected),
        ("  "@, Tone::Plain),
        (decimal(step_number(step)) + "/10"@, Tone::Hint),
    ];
    assert(extra@.map_values(|s: Span| span_view(s)) =~= expected);
    page_header(extra)
}

/// The lines of the logo.
pub open spec fn logo_lines() -> Seq<Seq<(Seq<char>, Tone)>> {
    seq![
        one("████████╗████████╗      ███████╗██╗   ██╗███╗   ██╗ ██████╗"@, Tone::Brand),
        one("╚══██╔══╝╚══██╔══╝      ██╔════╝╚██╗ ██╔╝████╗  ██║██╔════╝"@, Tone::Brand),
        one("   ██║      ██║   █████╗███████╗ ╚████╔╝ ██╔██╗ ██║██║     "@, Tone::Brand),
        one("   ██║      ██║   ╚════╝╚════██║  ╚██╔╝  ██║╚██╗██║██║     "@, Tone::Brand),
        one("   ██║      ██║         ███████║   ██║   ██║ ╚████║╚██████╗"@, Tone::Brand),
        one("   ╚═╝      ╚═╝         ╚══════╝   ╚═╝   ╚═╝  ╚═══╝ ╚═════╝"@, Tone::Brand),
    ]
}

fn logo() -> (v: Vec<Line>)
    ensures
        lines_view(v@) == logo_lines(),
{
    let mut v: Vec<Line> = Vec::new();
    v.push(text_line("████████╗████████╗      ███████╗██╗   ██╗███╗   ██╗ ██████╗", Tone::Brand));
    v.push(text_line("╚══██╔══╝╚══██╔══╝      ██╔════╝╚██╗ ██╔╝████╗  ██║██╔════╝", Tone::Brand));
    v.push(text_line("   ██║      ██║   █████╗███████╗ ╚████╔╝ ██╔██╗ ██║██║     ", Tone::Brand));
    v.push(text_line("   ██║      ██║   ╚════╝╚════██║  ╚██╔╝  ██║╚██╗██║██║     ", Tone::Brand));
    v.push(text_line("   ██║      ██║         ███████║   ██║   ██║ ╚████║╚██████╗", Tone::Brand));
    v.push(text_line("   ╚═╝      ╚═╝         ╚══════╝   ╚═╝   ╚═╝  ╚═══╝ ╚═════╝", Tone::Brand));
    assert(lines_view(v@) =~= logo_lines());
    v
}

/// The welcome phrases, each in both languages.
pub open spec fn phrase_zh(k: nat) -> Seq<char> {
    if k == 0 {
        "我要给我的角色们一个更大的家！"@
    } else if k == 1 {
        "App已在身后，服务器尽在眼前。"@
    } else if k == 2 {
        "TT-Sync正在运行。请坐和放宽。"@
    } else if k == 3 {
        "你在这里很安全。我会照顾好你的数据。——Seraphina"@
    } else if k == 4 {
        "人生苦短，我用TT。"@
    } else if k == 5 {
        "请问您今天要来点TauriTavern吗？"@
    } else {
        "准备好了吗？让我们开始吧。"@
    }
}

pub open spec fn phrase_en(k: nat) -> Seq<char> {
    if k == 0 {
        "I wanna give my characters a bigger home!"@
    } else if k == 1 {
        "App is behind, Server is ahead."@
    } else if k == 2 {
        "TT-Sync is running. Please sit tight."@
    } else if k == 3 {
        "You're safe here. I'll look after you. --Seraphina"@
    } else if k == 4 {
        "Life is short. I use TT."@
    } else if k == 5 {
        "Would you like to try our TauriTavern today?"@
    } else {
        "Ready? Let’s begin."@
    }
}

/// The welcome phrase picked by `idx`, out of seven.
pub open spec fn welcome_phrase(lang: UiLanguage, idx: nat) -> Seq<char> {
    tr_spec(lang, phrase_zh(idx % 7), phrase_en(idx % 7))
}

fn phrase(lang: UiLanguage, idx: usize) -> (s: &'static str)
    ensures
        s@ == welcome_phrase(lang, idx as nat),
{
    let k = idx % 7;
    if k == 0 {
        tr(lang, "我要给我的角色们一个更大的家！", "I wanna give my characters a bigger home!")
    } else if k == 1 {
        tr(lang, "App已在身后，服务器尽在眼前。", "App is behind, Server is ahead.")
    } else if k == 2 {
        tr(lang, "TT-Sync正在运行。请坐和放宽。", "TT-Sync is running. Please sit tight.")
    } else if k == 3 {
        tr(
            lang,
            "你在这里很安全。我会照顾好你的数据。——Seraphina",
            "You're safe here. I'll look after you. --Seraphina",
        )
    } else if k == 4 {
        tr(lang, "人生苦短，我用TT。", "Life is short. I use TT.")
    } else if k == 5 {
        tr(lang, "请问您今天要来点TauriTavern吗？", "Would you like to try our TauriTavern today?")
    } else {
        tr(lang, "准备好了吗？让我们开始吧。", "Ready? Let’s begin.")
    }
}

/// The first step: the logo, a welcome phrase, and the language choice.
#[derive(Debug, Clone)]
pub struct LanguageStep {
    pub logo: Vec<Line>,
    pub intro: Vec<Line>,
    pub languages: Panel,
}

pub open spec fn intro_lines(lang: UiLanguage, idx: nat) -> Seq<Seq<(Seq<char>, Tone)>> {
    seq![
        blank(),
        one(welcome_phrase(lang, idx), Tone::Title),
        blank(),
        plain(
            tr_spec(
                lang,
                "请选择语言（可随时在配置中修改）："@,
                "Choose your language (can be changed later):"@,
            ),
        ),
    ]
}

/// Both languages, the current one marked.
pub open spec fn language_choices(lang: UiLanguage) -> Seq<char> {
    (match lang {
        UiLanguage::ZhCn => "● 中文"@,
        UiLanguage::En => "○ 中文"@,
    }) + "    "@ + (match lang {
        UiLanguage::ZhCn => "○ English"@,
        UiLanguage::En => "● English"@,
    })
}

pub fn render_step_language(state: &State) -> (v: LanguageStep)
    ensures
        lines_view(v.logo@) == logo_lines(),
        lines_view(v.intro@) == intro_lines(state.language, state.welcome_phrase_idx as nat),
        panel_view(v.languages) == (
            tr_spec(state.language, "语言"@, "Language"@),
            seq![plain(language_choices(state.language))],
        ),
{
    let lang = state.language;
    let mut intro: Vec<Line> = Vec::new();
    intro.push(blank_line());
    intro.push(text_line(phrase(lang, state.welcome_phrase_idx), Tone::Title));
    intro.push(blank_line());
    intro.push(
        text_line(
            tr(lang, "请选择语言（可随时在配置中修改）：", "Choose your language (can be changed later):"),
            Tone::Plain,
        ),
    );
    assert(lines_view(intro@) =~= intro_lines(lang, state.welcome_phrase_idx as nat));
    let zh = match lang {
        UiLanguage::ZhCn => "● 中文",
        UiLanguage::En => "○ 中文",
    };
    let en = match lang {
        UiLanguage::ZhCn => "○ English",
        UiLanguage::En => "● English",
    };
    let mut both = concat(zh, "    ");
    both.append(en);
    let mut choices: Vec<Line> = Vec::new();
    choices.push(line_of(both, Tone::Plain));
    assert(lines_view(choices@) =~= seq![plain(language_choices(lang))]);
    LanguageStep { logo: logo(), intro, languages: panel(tr(lang, "语言", "Language").to_string(), choices) }
}

/// An input panel: its title and the field with the cursor shown.
#[derive(Debug, Clone)]
pub struct InputStep {
    pub input: Panel,
    pub help: Panel,
}

pub open spec fn port_help_lines(lang: UiLanguage, error: Option<String>) -> Seq<Seq<(Seq<char>, Tone)>> {
    seq![
        one(tr_spec(lang, "说明"@, "Notes"@), Tone::Title),
        blank(),
        plain(tr_spec(lang, "建议默认 8443（无需管理员权限）。"@, "Recommended: 8443 (no admin/root required)."@)),
        plain(tr_spec(lang, "低端口（<1024）在 Linux 上可能需要 root。"@, "Ports <1024 may require root on Linux."@)),
    ] + error_lines(error)
}

/// The port step: the field, and notes on which port to pick.
pub fn render_step_port(state: &State) -> (v: InputStep)
    ensures
        panel_view(v.input) == (
            tr_spec(state.language, "监听端口（Enter 下一步）"@, "Listen Port (Enter to continue)"@),
            seq![plain(visual(state.port@))],
        ),
        panel_view(v.help) == (tr_spec(state.language, "提示"@, "Help"@), port_help_lines(state.language, state.error)),
{
    let lang = state.language;
    let mut field: Vec<Line> = Vec::new();
    field.push(line_of(state.port.visualize(), Tone::Plain));
    assert(lines_view(field@) =~= seq![plain(visual(state.port@))]);
    let mut help: Vec<Line> = Vec::new();
    help.push(text_line(tr(lang, "说明", "Notes"), Tone::Title));
    help.push(blank_line());
    help.push(text_line(tr(lang, "建议默认 8443（无需管理员权限）。", "Recommended: 8443 (no admin/root required)."), Tone::Plain));
    help.push(text_line(tr(lang, "低端口（<1024）在 Linux 上可能需要 root。", "Ports <1024 may require root on Linux."), Tone::Plain));
    assert(lines_view(help@) =~= port_help_lines(lang, None));
    push_error(&mut help, &state.error);
    assert(lines_view(help@) =~= port_help_lines(lang, state.error));
    InputStep {
        input: panel(tr(lang, "监听端口（Enter 下一步）", "Listen Port (Enter to continue)").to_string(), field),
        help: panel(tr(lang, "提示", "Help").to_string(), help),
    }
}

/// The public URL step: a prompt above the field and the notes.
#[derive(Debug, Clone)]
pub struct PublicUrlStep {
    pub prompt: String,
    pub input: Panel,
    pub info: Panel,
}

pub open spec fn public_url_prompt(lang: UiLanguage) -> Seq<char> {
    tr_spec(
        lang,
        "确认 Public URL（用于配对二维码/链接，可编辑后 Enter 下一步）"@,
        "Confirm Public URL (used in pair links/QR; edit and press Enter)"@,
    )
}

pub open spec fn public_url_info_lines(lang: UiLanguage, error: Option<String>) -> Seq<Seq<(Seq<char>, Tone)>> {
    seq![
        one(tr_spec(lang, "说明"@, "Notes"@), Tone::Title),
        blank(),
        plain(tr_spec(lang, "默认根据本机 IP + 端口生成。"@, "Default is derived from a local IP + port."@)),
        plain(
            tr_spec(
                lang,
                "如果你使用域名/反代，请在此改为你的外网地址。"@,
                "If you use a domain/reverse proxy, replace it with your public endpoint."@,
            ),
        ),
        plain(tr_spec(lang, "不会自动联网查询公网 IP。"@, "No online public-IP lookup is performed."@)),
    ] + error_lines(error)
}

pub fn render_step_public_url(state: &State) -> (v: PublicUrlStep)
    ensures
        v.prompt@ == public_url_prompt(state.language),
        panel_view(v.input) == ("Public URL"@, seq![plain(visual(state.public_url@))]),
        panel_view(v.info) == (
            tr_spec(state.language, "提示"@, "Help"@),
            public_url_info_lines(state.language, state.error),
        ),
{
    let lang = state.language;
    let mut field: Vec<Line> = Vec::new();
    field.push(line_of(state.public_url.visualize(), Tone::Plain));
    assert(lines_view(field@) =~= seq![plain(visual(state.public_url@))]);
    let mut info: Vec<Line> = Vec::new();
    info.push(text_line(tr(lang, "说明", "Notes"), Tone::Title));
    info.push(blank_line());
    info.push(text_line(tr(lang, "默认根据本机 IP + 端口生成。", "Default is derived from a local IP + port."), Tone::Plain));
    info.push(
        text_line(
            tr(
                lang,
                "如果你使用域名/反代，请在此改为你的外网地址。",
                "If you use a domain/reverse proxy, replace it with your public endpoint.",
            ),
            Tone::Plain,
        ),
    );
    info.push(text_line(tr(lang, "不会自动联网查询公网 IP。", "No online public-IP lookup is performed."), Tone::Plain));
    assert(lines_view(info@) =~= public_url_info_lines(lang, None));
    push_error(&mut info, &state.error);
    assert(lines_view(info@) =~= public_url_info_lines(lang, state.error));
    PublicUrlStep {
        prompt: tr(
            lang,
            "确认 Public URL（用于配对二维码/链接，可编辑后 Enter 下一步）",
            "Confirm Public URL (used in pair links/QR; edit and press Enter)",
        ).to_string(),
        input: panel("Public URL".to_string(), field),
        info: panel(tr(lang, "提示", "Help").to_string(), info),
    }
}


/// The list entry of each layout: its word and what it is.
pub open spec fn layout_entry(lang: UiLanguage, i: int) -> Seq<char> {
    if i == 0 {
        "tauritavern"@ + " — "@ + tr_spec(lang, "TauriTavern 数据目录"@, "TauriTavern data/"@)
    } else if i == 1 {
        "sillytavern"@ + " — "@ + tr_spec(lang, "SillyTavern 仓库布局"@, "SillyTavern repo layout"@)
    } else {
        "sillytavern-docker"@ + " — "@ + tr_spec(lang, "SillyTavern Docker 卷布局"@, "SillyTavern docker volume"@)
    }
}

fn layout_entry_exec(lang: UiLanguage, i: usize) -> (s: String)
    ensures
        s@ == layout_entry(lang, i as int),
{
    if i == 0 {
        let mut s = concat("tauritavern", " — ");
        s.append(tr(lang, "TauriTavern 数据目录", "TauriTavern data/"));
        s
    } else if i == 1 {
        let mut s = concat("sillytavern", " — ");
        s.append(tr(lang, "SillyTavern 仓库布局", "SillyTavern repo layout"));
        s
    } else {
        let mut s = concat("sillytavern-docker", " — ");
        s.append(tr(lang, "SillyTavern Docker 卷布局", "SillyTavern docker volume"));
        s
    }
}

/// What the detail panel says of a layout.
pub open spec fn layout_detail_lines(lang: UiLanguage, mode: LayoutMode) -> Seq<Seq<(Seq<char>, Tone)>> {
    match mode {
        LayoutMode::TauriTavern => seq![
            one("tauritavern"@, Tone::Title),
            blank(),
            plain(tr_spec(lang, "适用：TauriTavern 的 data/ 目录结构。"@, "For: TauriTavern data/ layout."@)),
            plain(
                tr_spec(
                    lang,
                    "workspace 建议指向：data/ 或 data/default-user/。"@,
                    "workspace should point to: data/ or data/default-user/."@,
                ),
            ),
            blank(),
            plain("data/"@),
            plain("  default-user/"@),
            plain("  extensions/third-party/"@),
            plain("  _tauritavern/"@),
        ],
        LayoutMode::SillyTavern => seq![
            one("sillytavern"@, Tone::Title),
            blank(),
            plain(tr_spec(lang, "适用：SillyTavern 仓库布局（非 Docker）。"@, "For: SillyTavern repo layout (non-docker)."@)),
            plain(
                tr_spec(
                    lang,
                    "workspace 可指向：repo root / data / data/default-user/。"@,
                    "workspace can be: repo root / data / data/default-user/."@,
                ),
            ),
            blank(),
            plain("repo/"@),
            plain("  data/default-user/"@),
            plain("  public/scripts/extensions/third-party/"@),
        ],
        LayoutMode::SillyTavernDocker => seq![
            one("sillytavern-docker"@, Tone::Title),
            blank(),
            plain(tr_spec(lang, "适用：SillyTavern Docker 卷布局。"@, "For: SillyTavern docker volume layout."@)),
            plain(
                tr_spec(
                    lang,
                    "workspace 可指向：docker root / data / data/default-user/。"@,
                    "workspace can be: docker root / data / data/default-user/."@,
                ),
            ),
            blank(),
            plain("docker/"@),
            plain("  data/default-user/"@),
            plain("  extensions/"@),
        ],
    }
}

/// The lines that describe a layout.
pub fn layout_detail(lang: UiLanguage, mode: LayoutMode) -> (v: Vec<Line>)
    ensures
        lines_view(v@) == layout_detail_lines(lang, mode),
{
    let mut v: Vec<Line> = Vec::new();
    match mode {
        LayoutMode::TauriTavern => {
            v.push(text_line("tauritavern", Tone::Title));
            v.push(blank_line());
            v.push(text_line(tr(lang, "适用：TauriTavern 的 data/ 目录结构。", "For: TauriTavern data/ layout."), Tone::Plain));
            v.push(
                text_line(
                    tr(
                        lang,
                        "workspace 建议指向：data/ 或 data/default-user/。",
                        "workspace should point to: data/ or data/default-user/.",
                    ),
                    Tone::Plain,
                ),
            );
            v.push(blank_line());
            v.push(text_line("data/", Tone::Plain));
            v.push(text_line("  default-user/", Tone::Plain));
            v.push(text_line("  extensions/third-party/", Tone::Plain));
            v.push(text_line("  _tauritavern/", Tone::Plain));
        },
        LayoutMode::SillyTavern => {
            v.push(text_line("sillytavern", Tone::Title));
            v.push(blank_line());
            v.push(
                text_line(
                    tr(lang, "适用：SillyTavern 仓库布局（非 Docker）。", "For: SillyTavern repo layout (non-docker)."),
                    Tone::Plain,
                ),
            );
            v.push(
                text_line(
                    tr(
                        lang,
                        "workspace 可指向：repo root / data / data/default-user/。",
                        "workspace can be: repo root / data / data/default-user/.",
                    ),
                    Tone::Plain,
                ),
            );
            v.push(blank_line());
            v.push(text_line("repo/", Tone::Plain));
            v.push(text_line("  data/default-user/", Tone::Plain));
            v.push(text_line("  public/scripts/extensions/third-party/", Tone::Plain));
        },
        LayoutMode::SillyTavernDocker => {
            v.push(text_line("sillytavern-docker", Tone::Title));
            v.push(blank_line());
            v.push(
                text_line(
                    tr(lang, "适用：SillyTavern Docker 卷布局。", "For: SillyTavern docker volume layout."),
                    Tone::Plain,
                ),
            );
            v.push(
                text_line(
                    tr(
                        lang,
                        "workspace 可指向：docker root / data / data/default-user/。",
                        "workspace can be: docker root / data / data/default-user/.",
                    ),
                    Tone::Plain,
                ),
            );
            v.push(blank_line());
            v.push(text_line("docker/", Tone::Plain));
            v.push(text_line("  data/default-user/", Tone::Plain));
            v.push(text_line("  extensions/", Tone::Plain));
        },
    }
    assert(lines_view(v@) =~= layout_detail_lines(lang, mode));
    v
}

/// The layout step: the three layouts, the selected one marked, and the
/// description of the selected one.
#[derive(Debug, Clone)]
pub struct LayoutStep {
    pub list: Panel,
    pub selected: usize,
    pub detail: Panel,
}

pub open spec fn layout_list_lines(lang: UiLanguage, idx: int) -> Seq<Seq<(Seq<char>, Tone)>> {
    seq![
        plain(choice(idx == 0, layout_entry(lang, 0))),
        plain(choice(idx == 1, layout_entry(lang, 1))),
        plain(choice(idx == 2, layout_entry(lang, 2))),
    ]
}

pub fn render_step_layout(state: &State) -> (v: LayoutStep)
    requires
        state.wf(),
    ensures
        panel_view(v.list) == (
            tr_spec(state.language, "Layout 模式（Enter 下一步）"@, "Layout Mode (Enter to continue)"@),
            layout_list_lines(state.language, state.layout_idx as int),
        ),
        v.selected == state.layout_idx,
        panel_view(v.detail) == (
            tr_spec(state.language, "对比"@, "Details"@),
            layout_detail_lines(state.language, layout_at(state.layout_idx as int)),
        ),
{
    let lang = state.language;
    let idx = state.layout_idx;
    let mut items: Vec<Line> = Vec::new();
    let e0 = layout_entry_exec(lang, 0);
    let e1 = layout_entry_exec(lang, 1);
    let e2 = layout_entry_exec(lang, 2);
    items.push(line_of(choice_text(idx == 0, e0.as_str()), Tone::Plain));
    items.push(line_of(choice_text(idx == 1, e1.as_str()), Tone::Plain));
    items.push(line_of(choice_text(idx == 2, e2.as_str()), Tone::Plain));
    assert(lines_view(items@) =~= layout_list_lines(lang, idx as int));
    LayoutStep {
        list: panel(tr(lang, "Layout 模式（Enter 下一步）", "Layout Mode (Enter to continue)").to_string(), items),
        selected: idx,
        detail: panel(tr(lang, "对比", "Details").to_string(), layout_detail(lang, state.layout_mode())),
    }
}

/// The title of the folder field: Enter checks the folder, then writes the
/// config once the write awaits confirmation.
pub open spec fn workspace_title(lang: UiLanguage, confirming: bool) -> Seq<char> {
    if confirming {
        tr_spec(lang, "同步文件夹路径（Enter 写入配置）"@, "Workspace Path (Enter to write config)"@)
    } else {
        tr_spec(lang, "同步文件夹路径（Enter 检测）"@, "Workspace Path (Enter to detect)"@)
    }
}

/// A found folder: a check mark, then its name and path.
pub open spec fn mount_line(name: Seq<char>, path: Seq<char>) -> Seq<(Seq<char>, Tone)> {
    seq![("✓ "@, Tone::Success), (name + path, Tone::Plain)]
}

pub open spec fn workspace_info_lines(
    lang: UiLanguage,
    mode: LayoutMode,
    mounts: Option<MountPaths>,
    config_path: Seq<char>,
    error: Option<String>,
) -> Seq<Seq<(Seq<char>, Tone)>> {
    seq![one(tr_spec(lang, "检测结果"@, "Detection"@), Tone::Title), blank(), plain("layout: "@ + layout_debug_name(mode))]
        + match mounts {
        Some(m) => seq![
            blank(),
            mount_line("data root      : "@, m.data_root@),
            mount_line("default user   : "@, m.default_user_root@),
            mount_line("extensions root: "@, m.extensions_root@),
            blank(),
            one(tr_spec(lang, "将写入配置到："@, "Config will be written to:"@), Tone::Title),
            plain(config_path),
        ],
        None => seq![
            blank(),
            plain(tr_spec(lang, "尚未检测。输入路径后按 Enter。"@, "Not detected yet. Enter a path and press Enter."@)),
        ],
    } + error_lines(error)
}

fn mount_line_exec(name: &str, path: &str) -> (l: Line)
    ensures
        line_view(l) == mount_line(name@, path@),
{
    two_spans("✓ ".to_string(), Tone::Success, concat(name, path), Tone::Plain)
}

/// The folder step: the field, and what checking the folder found.
pub fn render_step_workspace(state: &State, mounts: &Option<MountPaths>, config_path: &str) -> (v: InputStep)
    requires
        state.wf(),
    ensures
        panel_view(v.input) == (
            workspace_title(state.language, state.overlay is Some),
            seq![plain(visual(state.workspace_path@))],
        ),
        panel_view(v.help) == (
            tr_spec(state.language, "信息"@, "Info"@),
            workspace_info_lines(
                state.language,
                layout_at(state.layout_idx as int),
                *mounts,
                config_path@,
                state.error,
            ),
        ),
{
    let lang = state.language;
    let title = if state.overlay.is_some() {
        tr(lang, "同步文件夹路径（Enter 写入配置）", "Workspace Path (Enter to write config)")
    } else {
        tr(lang, "同步文件夹路径（Enter 检测）", "Workspace Path (Enter to detect)")
    };
    let mut field: Vec<Line> = Vec::new();
    field.push(line_of(state.workspace_path.visualize(), Tone::Plain));
    assert(lines_view(field@) =~= seq![plain(visual(state.workspace_path@))]);
    let mode = state.layout_mode();
    let mut info: Vec<Line> = Vec::new();
    info.push(text_line(tr(lang, "检测结果", "Detection"), Tone::Title));
    info.push(blank_line());
    info.push(line_of(concat("layout: ", layout_debug_name_exec(mode)), Tone::Plain));
    let ghost head = lines_view(info@);
    match mounts {
        Some(m) => {
            info.push(blank_line());
            info.push(mount_line_exec("data root      : ", m.data_root.as_str()));
            info.push(mount_line_exec("default user   : ", m.default_user_root.as_str()));
            info.push(mount_line_exec("extensions root: ", m.extensions_root.as_str()));
            info.push(blank_line());
            info.push(text_line(tr(lang, "将写入配置到：", "Config will be written to:"), Tone::Title));
            info.push(text_line(config_path, Tone::Plain));
        },
        None => {
            info.push(blank_line());
            info.push(
                text_line(
                    tr(lang, "尚未检测。输入路径后按 Enter。", "Not detected yet. Enter a path and press Enter."),
                    Tone::Plain,
                ),
            );
        },
    }
    assert(lines_view(info@) =~= workspace_info_lines(lang, mode, *mounts, config_path@, None));
    push_error(&mut info, &state.error);
    assert(lines_view(info@) =~= workspace_info_lines(lang, mode, *mounts, config_path@, state.error));
    InputStep { input: panel(title.to_string(), field), help: panel(tr(lang, "信息", "Info").to_string(), info) }
}

/// Two panels side by side: what is chosen, and notes.
#[derive(Debug, Clone)]
pub struct ChoiceStep {
    pub choice: Panel,
    pub notes: Panel,
}

pub open spec fn pair_now_choice_lines(lang: UiLanguage, pair_now: bool) -> Seq<Seq<(Seq<char>, Tone)>> {
    seq![
        one(tr_spec(lang, "现在进行配对？"@, "Pair now?"@), Tone::Title),
        blank(),
        plain(
            tr_spec(
                lang,
                "你将获得一个二维码/链接，用于在 TauriTavern 客户端完成配对。"@,
                "You'll get a QR/link to complete pairing in the TauriTavern client."@,
            ),
        ),
        blank(),
        plain(
            (if pair_now {
                tr_spec(lang, "● 现在配对（推荐）"@, "● Pair now (recommended)"@)
            } else {
                tr_spec(lang, "○ 现在配对（推荐）"@, "○ Pair now (recommended)"@)
            }) + "    "@ + (if pair_now {
                tr_spec(lang, "○ 稍后再说"@, "○ Not now"@)
            } else {
                tr_spec(lang, "● 稍后再说"@, "● Not now"@)
            }),
        ),
    ]
}

pub open spec fn pair_now_notes_lines(lang: UiLanguage) -> Seq<Seq<(Seq<char>, Tone)>> {
    seq![
        one(tr_spec(lang, "说明"@, "Notes"@), Tone::Title),
        blank(),
        plain(
            tr_spec(
                lang,
                "配对需要服务端可被客户端访问（端口/反代/域名）。"@,
                "Pairing requires the server to be reachable by the client (port/proxy/domain)."@,
            ),
        ),
        plain(
            tr_spec(
                lang,
                "配对成功后会弹出权限确认（默认：读写，不允许 mirror delete）。"@,
                "After pairing, you'll confirm permissions (default: read+write, no mirror delete)."@,
            ),
        ),
        plain(
            tr_spec(
                lang,
                "你也可以稍后在主菜单选择「开始配对」。"@,
                "You can also do this later from the main menu."@,
            ),
        ),
    ]
}

/// The pairing step: pair now or later, and notes on pairing.
pub fn render_step_pair_now(state: &State) -> (v: ChoiceStep)
    ensures
        panel_view(v.choice) == (
            tr_spec(state.language, "配对"@, "Pairing"@),
            pair_now_choice_lines(state.language, state.pair_now),
        ),
        panel_view(v.notes) == (tr_spec(state.language, "提示"@, "Help"@), pair_now_notes_lines(state.language)),
{
    let lang = state.language;
    let yes = if state.pair_now {
        tr(lang, "● 现在配对（推荐）", "● Pair now (recommended)")
    } else {
        tr(lang, "○ 现在配对（推荐）", "○ Pair now (recommended)")
    };
    let no = if state.pair_now {
        tr(lang, "○ 稍后再说", "○ Not now")
    } else {
        tr(lang, "● 稍后再说", "● Not now")
    };
    let mut both = concat(yes, "    ");
    both.append(no);
    let mut content: Vec<Line> = Vec::new();
    content.push(text_line(tr(lang, "现在进行配对？", "Pair now?"), Tone::Title));
    content.push(blank_line());
    content.push(
        text_line(
            tr(
                lang,
                "你将获得一个二维码/链接，用于在 TauriTavern 客户端完成配对。",
                "You'll get a QR/link to complete pairing in the TauriTavern client.",
            ),
            Tone::Plain,
        ),
    );
    content.push(blank_line());
    content.push(line_of(both, Tone::Plain));
    assert(lines_view(content@) =~= pair_now_choice_lines(lang, state.pair_now));
    let mut notes: Vec<Line> = Vec::new();
    notes.push(text_line(tr(lang, "说明", "Notes"), Tone::Title));
    notes.push(blank_line());
    notes.push(
        text_line(
            tr(
                lang,
                "配对需要服务端可被客户端访问（端口/反代/域名）。",
                "Pairing requires the server to be reachable by the client (port/proxy/domain).",
            ),
            Tone::Plain,
        ),
    );
    notes.push(
        text_line(
            tr(
                lang,
                "配对成功后会弹出权限确认（默认：读写，不允许 mirror delete）。",
                "After pairing, you'll confirm permissions (default: read+write, no mirror delete).",
            ),
            Tone::Plain,
        ),
    );
    notes.push(
        text_line(
            tr(lang, "你也可以稍后在主菜单选择「开始配对」。", "You can also do this later from the main menu."),
            Tone::Plain,
        ),
    );
    assert(lines_view(notes@) =~= pair_now_notes_lines(lang));
    ChoiceStep {
        choice: panel(tr(lang, "配对", "Pairing").to_string(), content),
        notes: panel(tr(lang, "提示", "Help").to_string(), notes),
    }
}


/// How the flow names a service manager.
pub open spec fn service_name(manager: Option<UserServiceManager>) -> Seq<char> {
    match manager {
        Some(UserServiceManager::SystemdUser) => "systemd user service"@,
        Some(m) => m.display_name_spec(),
        None => "user service"@,
    }
}

fn service_name_exec(manager: Option<UserServiceManager>) -> (s: &'static str)
    ensures
        s@ == service_name(manager),
{
    match manager {
        Some(UserServiceManager::SystemdUser) => "systemd user service",
        Some(m) => m.display_name(),
        None => "user service",
    }
}

/// The offer to install the service.
pub open spec fn install_offer(lang: UiLanguage, name: Seq<char>) -> Seq<char> {
    tr_spec(lang, "安装为 "@ + name + "（推荐）"@, "Install as "@ + name + " (recommended)"@)
}

fn install_offer_exec(lang: UiLanguage, name: &str) -> (s: String)
    ensures
        s@ == install_offer(lang, name@),
{
    match lang {
        UiLanguage::ZhCn => {
            let mut s = concat("安装为 ", name);
            s.append("（推荐）");
            s
        },
        UiLanguage::En => {
            let mut s = concat("Install as ", name);
            s.append(" (recommended)");
            s
        },
    }
}

/// The choice of how the server keeps running: with a service manager, the
/// service or this terminal; without one, this terminal only.
pub open spec fn service_mode_choice_lines(
    lang: UiLanguage,
    manager: Option<UserServiceManager>,
    mode: ServiceMode,
) -> Seq<Seq<(Seq<char>, Tone)>> {
    seq![
        one(tr_spec(lang, "服务管理"@, "Service management"@), Tone::Title),
        blank(),
        plain(tr_spec(lang, "最后一步：选择如何让 TT-Sync 长期运行。"@, "Final step: choose how TT-Sync keeps running."@)),
        blank(),
    ] + match manager {
        Some(_) => seq![
            plain(choice(mode == ServiceMode::UserService, install_offer(lang, service_name(manager)))),
            blank(),
            plain(
                choice(
                    mode == ServiceMode::Foreground,
                    tr_spec(lang, "不安装，直接在本终端运行"@, "Run in this terminal (no service)"@),
                ),
            ),
        ],
        None => seq![
            plain(
                choice(
                    true,
                    tr_spec(
                        lang,
                        "在本终端运行（当前系统不支持 systemd）"@,
                        "Run in this terminal (systemd not supported)"@,
                    ),
                ),
            ),
        ],
    }
}

pub open spec fn service_mode_notes_lines(
    lang: UiLanguage,
    sync_folder: Seq<char>,
    config_path: Seq<char>,
    error: Option<String>,
) -> Seq<Seq<(Seq<char>, Tone)>> {
    seq![
        one(tr_spec(lang, "说明"@, "Notes"@), Tone::Title),
        blank(),
        plain(tr_spec(lang, "Onboard 完成后将自动启动服务。"@, "Onboard will auto-start the server."@)),
        plain(tr_spec(lang, "Windows 默认采用「本终端运行」。"@, "Windows defaults to in-terminal run."@)),
        blank(),
        one(tr_spec(lang, "路径"@, "Paths"@), Tone::Title),
    ] + path_lines(lang, sync_folder, config_path) + error_lines(error)
}

/// The service step; `manager` is the platform's service manager.
pub fn render_step_service_mode(
    state: &State,
    manager: Option<UserServiceManager>,
    sync_folder: &str,
    config_path: &str,
) -> (v: ChoiceStep)
    ensures
        panel_view(v.choice) == (
            tr_spec(state.language, "选择"@, "Choose"@),
            service_mode_choice_lines(state.language, manager, state.service_mode),
        ),
        panel_view(v.notes) == (
            tr_spec(state.language, "提示"@, "Help"@),
            service_mode_notes_lines(state.language, sync_folder@, config_path@, state.error),
        ),
{
    let lang = state.language;
    let mut content: Vec<Line> = Vec::new();
    content.push(text_line(tr(lang, "服务管理", "Service management"), Tone::Title));
    content.push(blank_line());
    content.push(
        text_line(
            tr(lang, "最后一步：选择如何让 TT-Sync 长期运行。", "Final step: choose how TT-Sync keeps running."),
            Tone::Plain,
        ),
    );
    content.push(blank_line());
    let ghost head = lines_view(content@);
    match manager {
        Some(_) => {
            let offer = install_offer_exec(lang, service_name_exec(manager));
            content.push(
                line_of(choice_text(state.service_mode == ServiceMode::UserService, offer.as_str()), Tone::Plain),
            );
            content.push(blank_line());
            content.push(
                line_of(
                    choice_text(
                        state.service_mode == ServiceMode::Foreground,
                        tr(lang, "不安装，直接在本终端运行", "Run in this terminal (no service)"),
                    ),
                    Tone::Plain,
                ),
            );
        },
        None => {
            content.push(
                line_of(
                    choice_text(
                        true,
                        tr(lang, "在本终端运行（当前系统不支持 systemd）", "Run in this terminal (systemd not supported)"),
                    ),
                    Tone::Plain,
                ),
            );
        },
    }
    assert(lines_view(content@) =~= service_mode_choice_lines(lang, manager, state.service_mode));
    let mut notes: Vec<Line> = Vec::new();
    notes.push(text_line(tr(lang, "说明", "Notes"), Tone::Title));
    notes.push(blank_line());
    notes.push(text_line(tr(lang, "Onboard 完成后将自动启动服务。", "Onboard will auto-start the server."), Tone::Plain));
    notes.push(text_line(tr(lang, "Windows 默认采用「本终端运行」。", "Windows defaults to in-terminal run."), Tone::Plain));
    notes.push(blank_line());
    notes.push(text_line(tr(lang, "路径", "Paths"), Tone::Title));
    push_paths(&mut notes, lang, sync_folder, config_path);
    assert(lines_view(notes@) =~= service_mode_notes_lines(lang, sync_folder@, config_path@, None));
    push_error(&mut notes, &state.error);
    assert(lines_view(notes@) =~= service_mode_notes_lines(lang, sync_folder@, config_path@, state.error));
    ChoiceStep {
        choice: panel(tr(lang, "选择", "Choose").to_string(), content),
        notes: panel(tr(lang, "提示", "Help").to_string(), notes),
    }
}

/// How the summary names the way the server runs.
pub open spec fn mode_label(lang: UiLanguage, manager: Option<UserServiceManager>, mode: ServiceMode) -> Seq<char> {
    match mode {
        ServiceMode::Foreground => tr_spec(lang, "本进程运行"@, "In-process"@),
        ServiceMode::UserService => service_name(manager),
    }
}

pub open spec fn done_lines(
    lang: UiLanguage,
    manager: Option<UserServiceManager>,
    mode: ServiceMode,
    sync_folder: Seq<char>,
    config_path: Seq<char>,
) -> Seq<Seq<(Seq<char>, Tone)>> {
    seq![
        one(tr_spec(lang, "完成！"@, "Done!"@), Tone::Success),
        blank(),
        plain(tr_spec(lang, "云端就绪。去把你的角色们接回来吧！"@, "Cloud-ready. Go bring your characters back!"@)),
        blank(),
        one(tr_spec(lang, "摘要"@, "Summary"@), Tone::Title),
        plain("mode  : "@ + mode_label(lang, manager, mode)),
    ] + path_lines(lang, sync_folder, config_path) + seq![
        blank(),
        plain(
            tr_spec(
                lang,
                "提示：你可以返回主菜单进行配对/管理设备/启停服务。"@,
                "Tip: Return to the main menu to pair/manage peers/start-stop the server."@,
            ),
        ),
    ]
}

/// The last step: a summary of what was set up.
pub fn render_step_done(
    state: &State,
    manager: Option<UserServiceManager>,
    sync_folder: &str,
    config_path: &str,
) -> (p: Panel)
    ensures
        panel_view(p) == (
            tr_spec(state.language, "Onboard 完成"@, "Onboard completed"@),
            done_lines(state.language, manager, state.service_mode, sync_folder@, config_path@),
        ),
{
    let lang = state.language;
    let mode = match state.service_mode {
        ServiceMode::Foreground => tr(lang, "本进程运行", "In-process"),
        ServiceMode::UserService => service_name_exec(manager),
    };
    let mut body: Vec<Line> = Vec::new();
    body.push(text_line(tr(lang, "完成！", "Done!"), Tone::Success));
    body.push(blank_line());
    body.push(
        text_line(tr(lang, "云端就绪。去把你的角色们接回来吧！", "Cloud-ready. Go bring your characters back!"), Tone::Plain),
    );
    body.push(blank_line());
    body.push(text_line(tr(lang, "摘要", "Summary"), Tone::Title));
    body.push(line_of(concat("mode  : ", mode), Tone::Plain));
    let ghost head = seq![
        one(tr_spec(lang, "完成！"@, "Done!"@), Tone::Success),
        blank(),
        plain(tr_spec(lang, "云端就绪。去把你的角色们接回来吧！"@, "Cloud-ready. Go bring your characters back!"@)),
        blank(),
        one(tr_spec(lang, "摘要"@, "Summary"@), Tone::Title),
        plain("mode  : "@ + mode_label(lang, manager, state.service_mode)),
    ];
    assert(lines_view(body@) =~= head);
    push_paths(&mut body, lang, sync_folder, config_path);
    let ghost mid = body@;
    body.push(blank_line());
    body.push(
        text_line(
            tr(
                lang,
                "提示：你可以返回主菜单进行配对/管理设备/启停服务。",
                "Tip: Return to the main menu to pair/manage peers/start-stop the server.",
            ),
            Tone::Plain,
        ),
    );
    assert(lines_view(body@) =~= done_lines(lang, manager, state.service_mode, sync_folder@, config_path@));
    panel(tr(lang, "Onboard 完成", "Onboard completed").to_string(), body)
}

/// The keys of each step, shown at the bottom.
pub open spec fn footer_hint(lang: UiLanguage, step: Step, confirming: bool) -> Seq<char> {
    match step {
        Step::WelcomeLanguage => tr_spec(lang, "←→ 选择  Enter 下一步  q 退出"@, "←→ select  Enter next  q quit"@),
        Step::ListenPort => tr_spec(
            lang,
            "输入端口  Enter 下一步  Esc 返回  q 退出"@,
            "type port  Enter next  Esc back  q quit"@,
        ),
        Step::PublicUrl => tr_spec(
            lang,
            "编辑 URL  Enter 下一步  Esc 返回  q 退出"@,
            "edit URL  Enter next  Esc back  q quit"@,
        ),
        Step::LayoutMode => tr_spec(lang, "↑↓ 选择  Enter 下一步  Esc 返回  q 退出"@, "↑↓ select  Enter next  Esc back  q quit"@),
        Step::WorkspacePath => if confirming {
            tr_spec(lang, "Enter 写入配置  Esc 修改路径  q 退出"@, "Enter write  Esc edit  q quit"@)
        } else {
            tr_spec(lang, "输入路径  Enter 检测  Esc 返回  q 退出"@, "type path  Enter detect  Esc back  q quit"@)
        },
        Step::PairNow => tr_spec(lang, "←→ 选择  Enter 下一步  Esc 返回  q 退出"@, "←→ select  Enter next  Esc back  q quit"@),
        Step::ServiceMode => tr_spec(
            lang,
            "←→ 选择  Enter 启动服务  Esc 返回  q 退出"@,
            "←→ select  Enter start  Esc back  q quit"@,
        ),
        Step::Done => tr_spec(lang, "Enter 返回主菜单  Esc 返回  q 退出"@, "Enter back to menu  Esc back  q quit"@),
    }
}

/// The key hints of the current step; the folder step's change once the
/// write awaits confirmation.
pub fn render_footer(lang: UiLanguage, step: Step, confirming: bool) -> (s: &'static str)
    ensures
        s@ == footer_hint(lang, step, confirming),
{
    match step {
        Step::WelcomeLanguage => tr(lang, "←→ 选择  Enter 下一步  q 退出", "←→ select  Enter next  q quit"),
        Step::ListenPort => tr(lang, "输入端口  Enter 下一步  Esc 返回  q 退出", "type port  Enter next  Esc back  q quit"),
        Step::PublicUrl => tr(lang, "编辑 URL  Enter 下一步  Esc 返回  q 退出", "edit URL  Enter next  Esc back  q quit"),
        Step::LayoutMode => tr(lang, "↑↓ 选择  Enter 下一步  Esc 返回  q 退出", "↑↓ select  Enter next  Esc back  q quit"),
        Step::WorkspacePath => if confirming {
            tr(lang, "Enter 写入配置  Esc 修改路径  q 退出", "Enter write  Esc edit  q quit")
        } else {
            tr(lang, "输入路径  Enter 检测  Esc 返回  q 退出", "type path  Enter detect  Esc back  q quit")
        },
        Step::PairNow => tr(lang, "←→ 选择  Enter 下一步  Esc 返回  q 退出", "←→ select  Enter next  Esc back  q quit"),
        Step::ServiceMode => tr(lang, "←→ 选择  Enter 启动服务  Esc 返回  q 退出", "←→ select  Enter start  Esc back  q quit"),
        Step::Done => tr(lang, "Enter 返回主菜单  Esc 返回  q 退出", "Enter back to menu  Esc back  q quit"),
    }
}

} // verus!
