use vstd::prelude::*;

use crate::config::UiLanguage;
use crate::tui::i18n::{tr, tr_spec};
use crate::tui::screens::{page_header, page_header_spans, path_lines, push_paths};
use crate::tui::serve::{action_title, actions, serve_actions, ServeAction, State};
use crate::tui::view::{
    blank, blank_line, choice_lines, choice_list, concat, error_lines, line_of, line_view, lines_view, one,
    panel, panel_view, plain, push_error, span, span_view, text_line, texts_view, two_spans, Line, Panel,
    Span, Tone,
};
use crate::user_service::{current_manager, manager_of, TargetOs, UserServiceManager};

verus! {

/// What is known of the server running in this process.
#[derive(Debug, Clone)]
pub struct RunningInfo {
    pub listen: String,
    pub public_url: String,
    pub device_name: String,
    pub device_id: String,
    pub spki_sha256: String,
}

/// What the serve screen shows.
#[derive(Debug, Clone)]
pub struct ServeView {
    pub header: Line,
    pub actions: Panel,
    pub selected: usize,
    pub info: Panel,
    pub hint: &'static str,
}

/// The server runs when it runs in this process or as the user service.
pub open spec fn server_running(foreground_running: bool, active: Option<bool>) -> bool {
    foreground_running || active == Some(true)
}

pub open spec fn serve_header_spans(lang: UiLanguage, running: bool) -> Seq<(Seq<char>, Tone)> {
    page_header_spans(
        seq![
            (tr_spec(lang, "服务管理（Serve）"@, "Serve"@), Tone::Title),
            ("  │  "@, Tone::Plain),
            (
                if running {
                    tr_spec(lang, "运行中"@, "Running"@)
                } else {
                    tr_spec(lang, "未运行"@, "Stopped"@)
                },
                if running {
                    Tone::Success
                } else {
                    Tone::Warning
                },
            ),
        ],
    )
}

/// The selected action: the one remembered, else the first, and never past
/// the last.
pub open spec fn clamped_selection(menu: Option<usize>, len: nat) -> int {
    let sel = match menu {
        Some(i) => i as int,
        None => 0,
    };
    if sel < len - 1 {
        sel
    } else {
        len - 1
    }
}

pub open spec fn action_titles(lang: UiLanguage, os: TargetOs, list: Seq<ServeAction>) -> Seq<Seq<char>> {
    list.map_values(|a: ServeAction| action_title(a, lang, os))
}

/// How the screen names the service manager.
pub open spec fn manager_heading(m: UserServiceManager) -> Seq<char> {
    match m {
        UserServiceManager::SystemdUser => "systemd"@,
        _ => m.display_name_spec(),
    }
}

/// The state of the service as the screen says it.
pub open spec fn service_state_text(lang: UiLanguage, active: Option<bool>) -> Seq<char> {
    match active {
        Some(true) => tr_spec(lang, "状态: active"@, "status: active"@),
        Some(false) => tr_spec(lang, "状态: inactive"@, "status: inactive"@),
        None => tr_spec(lang, "状态: unknown"@, "status: unknown"@),
    }
}

/// Where to look at the service once installed.
pub open spec fn status_hint_text(lang: UiLanguage, hint: Seq<char>) -> Seq<char> {
    tr_spec(lang, "安装后可用 `"@ + hint + "` 查看状态。"@, "After install, check status with `"@ + hint + "`."@)
}

pub open spec fn running_lines(server: Option<RunningInfo>) -> Seq<Seq<(Seq<char>, Tone)>> {
    match server {
        Some(s) => seq![
            blank(),
            plain("listen: "@ + s.listen@),
            plain("public: "@ + s.public_url@),
            plain("device: "@ + s.device_name@),
            plain("id    : "@ + s.device_id@),
            plain("spki  : "@ + s.spki_sha256@),
        ],
        None => Seq::empty(),
    }
}

pub open spec fn manager_lines(lang: UiLanguage, os: TargetOs, active: Option<bool>) -> Seq<
    Seq<(Seq<char>, Tone)>,
> {
    match manager_of(os) {
        Some(m) => seq![
            blank(),
            one(manager_heading(m), Tone::Title),
            plain(service_state_text(lang, active)),
            plain(status_hint_text(lang, m.status_hint_spec())),
        ],
        None => Seq::empty(),
    }
}

pub open spec fn serve_info_lines(
    lang: UiLanguage,
    os: TargetOs,
    initialized: bool,
    running: bool,
    active: Option<bool>,
    server: Option<RunningInfo>,
    sync_folder: Seq<char>,
    config_path: Seq<char>,
    error: Option<String>,
) -> Seq<Seq<(Seq<char>, Tone)>> {
    seq![
        one(tr_spec(lang, "信息"@, "Info"@), Tone::Title),
        blank(),
        if !initialized {
            plain(
                tr_spec(
                    lang,
                    "尚未初始化（找不到 config.toml）。请先运行 Onboard。"@,
                    "Not initialized (config.toml not found). Run Onboard first."@,
                ),
            )
        } else if running {
            seq![("● "@, Tone::Success), (tr_spec(lang, "服务已启动。"@, "Server started."@), Tone::Plain)]
        } else {
            plain(tr_spec(lang, "服务未运行。你可以在左侧启动。"@, "Server is stopped. Start it from the left."@))
        },
    ] + running_lines(server) + seq![blank(), one(tr_spec(lang, "路径"@, "Paths"@), Tone::Title)] + path_lines(
        lang,
        sync_folder,
        config_path,
    ) + manager_lines(lang, os, active) + error_lines(error)
}

fn action_titles_exec(lang: UiLanguage, os: TargetOs, list: &Vec<ServeAction>) -> (v: Vec<String>)
    ensures
        texts_view(v@) == action_titles(lang, os, list@),
{
    let mut v: Vec<String> = Vec::new();
    let mut i: usize = 0;
    while i < list.len()
        invariant
            i <= list@.len(),
            v@.len() == i,
            texts_view(v@) == action_titles(lang, os, list@).take(i as int),
        decreases list@.len() - i,
    {
        v.push(list[i].title(lang, os));
        assert(texts_view(v@) =~= action_titles(lang, os, list@).take(i + 1));
        i = i + 1;
    }
    assert(action_titles(lang, os, list@).take(list@.len() as int) =~= action_titles(lang, os, list@));
    v
}

fn push_running(lines: &mut Vec<Line>, server: &Option<RunningInfo>)
    ensures
        lines_view(final(lines)@) == lines_view(old(lines)@) + running_lines(*server),
{
    let ghost before = lines@;
    match server {
        Some(s) => {
            lines.push(blank_line());
            lines.push(line_of(concat("listen: ", s.listen.as_str()), Tone::Plain));
            lines.push(line_of(concat("public: ", s.public_url.as_str()), Tone::Plain));
            lines.push(line_of(concat("device: ", s.device_name.as_str()), Tone::Plain));
            lines.push(line_of(concat("id    : ", s.device_id.as_str()), Tone::Plain));
            lines.push(line_of(concat("spki  : ", s.spki_sha256.as_str()), Tone::Plain));
        },
        None => {},
    }
    assert(lines_view(lines@) =~= lines_view(before) + running_lines(*server));
}

fn push_manager(lines: &mut Vec<Line>, lang: UiLanguage, os: TargetOs, active: Option<bool>)
    ensures
        lines_view(final(lines)@) == lines_view(old(lines)@) + manager_lines(lang, os, active),
{
    let ghost before = lines@;
    match current_manager(os) {
        Some(m) => {
            let heading = match m {
                UserServiceManager::SystemdUser => "systemd",
                _ => m.display_name(),
            };
            let state = match active {
                Some(true) => tr(lang, "状态: active", "status: active"),
                Some(false) => tr(lang, "状态: inactive", "status: inactive"),
                None => tr(lang, "状态: unknown", "status: unknown"),
            };
            let hint = m.status_hint();
            let mut text = match lang {
                UiLanguage::ZhCn => concat("安装后可用 `", hint.as_str()),
                UiLanguage::En => concat("After install, check status with `", hint.as_str()),
            };
            match lang {
                UiLanguage::ZhCn => text.append("` 查看状态。"),
                UiLanguage::En => text.append("`."),
            }
            lines.push(blank_line());
            lines.push(text_line(heading, Tone::Title));
            lines.push(text_line(state, Tone::Plain));
            lines.push(line_of(text, Tone::Plain));
        },
        None => {},
    }
    assert(lines_view(lines@) =~= lines_view(before) + manager_lines(lang, os, active));
}

/// The serve screen: whether the server runs, the actions on hand with the
/// selection kept within them, and the details. `initialized` says whether
/// the config exists; `server` is the server running in this process.
pub fn render(
    state: &mut State,
    lang: UiLanguage,
    os: TargetOs,
    server: &Option<RunningInfo>,
    initialized: bool,
    sync_folder: &str,
    config_path: &str,
) -> (v: ServeView)
    ensures
        line_view(v.header) == serve_header_spans(
            lang,
            server_running(server is Some, old(state).user_service_active),
        ),
        v.selected == clamped_selection(
            old(state).menu,
            serve_actions(os, server is Some, old(state).user_service_active).len(),
        ),
        final(state).menu == Some(v.selected),
        final(state).error == old(state).error,
        final(state).user_service_active == old(state).user_service_active,
        panel_view(v.actions) == (
            tr_spec(lang, "操作（Enter 执行）"@, "Actions (Enter)"@),
            choice_lines(
                action_titles(lang, os, serve_actions(os, server is Some, old(state).user_service_active)),
                v.selected as int,
            ),
        ),
        panel_view(v.info) == (
            tr_spec(lang, "详情"@, "Details"@),
            serve_info_lines(
                lang,
                os,
                initialized,
                server_running(server is Some, old(state).user_service_active),
                old(state).user_service_active,
                *server,
                sync_folder@,
                config_path@,
                old(state).error,
            ),
        ),
        v.hint@ == tr_spec(lang, "↑↓ 选择  Enter 执行  Esc 返回  q 退出"@, "↑↓ select  Enter run  Esc back  q quit"@),
{
    let foreground = server.is_some();
    let active = state.user_service_active;
    let running = foreground || active == Some(true);
    let status = if running {
        tr(lang, "运行中", "Running")
    } else {
        tr(lang, "未运行", "Stopped")
    };
    let mut extra: Vec<Span> = Vec::new();
    extra.push(span(tr(lang, "服务管理（Serve）", "Serve").to_string(), Tone::Title));
    extra.push(span("  │  ".to_string(), Tone::Plain));
    extra.push(
        span(
            status.to_string(),
            if running {
                Tone::Success
            } else {
                Tone::Warning
            },
        ),
    );
    assert(extra@.map_values(|s: Span| span_view(s)) =~= seq![
        (tr_spec(lang, "服务管理（Serve）"@, "Serve"@), Tone::Title),
        ("  │  "@, Tone::Plain),
        (
            if running {
                tr_spec(lang, "运行中"@, "Running"@)
            } else {
                tr_spec(lang, "未运行"@, "Stopped"@)
            },
            if running {
                Tone::Success
            } else {
                Tone::Warning
            },
        ),
    ]);
    let header = page_header(extra);

    let list = actions(os, foreground, active);
    let len = list.len();
    let sel = match state.menu {
        Some(i) => i,
        None => 0,
    };
    let selected = if sel < len - 1 {
        sel
    } else {
        len - 1
    };
    state.menu = Some(selected);
    let titles = action_titles_exec(lang, os, &list);
    let items = choice_list(&titles, selected);

    let mut info: Vec<Line> = Vec::new();
    info.push(text_line(tr(lang, "信息", "Info"), Tone::Title));
    info.push(blank_line());
    if !initialized {
        info.push(
            text_line(
                tr(
                    lang,
                    "尚未初始化（找不到 config.toml）。请先运行 Onboard。",
                    "Not initialized (config.toml not found). Run Onboard first.",
                ),
                Tone::Plain,
            ),
        );
    } else if running {
        info.push(
            two_spans("● ".to_string(), Tone::Success, tr(lang, "服务已启动。", "Server started.").to_string(), Tone::Plain),
        );
    } else {
        info.push(
            text_line(tr(lang, "服务未运行。你可以在左侧启动。", "Server is stopped. Start it from the left."), Tone::Plain),
        );
    }
    let ghost head = lines_view(info@);
    assert(head =~= seq![
        one(tr_spec(lang, "信息"@, "Info"@), Tone::Title),
        blank(),
        if !initialized {
            plain(
                tr_spec(
                    lang,
                    "尚未初始化（找不到 config.toml）。请先运行 Onboard。"@,
                    "Not initialized (config.toml not found). Run Onboard first."@,
                ),
            )
        } else if running {
            seq![("● "@, Tone::Success), (tr_spec(lang, "服务已启动。"@, "Server started."@), Tone::Plain)]
        } else {
            plain(tr_spec(lang, "服务未运行。你可以在左侧启动。"@, "Server is stopped. Start it from the left."@))
        },
    ]);
    push_running(&mut info, server);
    let ghost with_running = lines_view(info@);
    info.push(blank_line());
    info.push(text_line(tr(lang, "路径", "Paths"), Tone::Title));
    assert(lines_view(info@) =~= with_running + seq![blank(), one(tr_spec(lang, "路径"@, "Paths"@), Tone::Title)]);
    push_paths(&mut info, lang, sync_folder, config_path);
    push_manager(&mut info, lang, os, active);
    push_error(&mut info, &state.error);
    assert(lines_view(info@) =~= serve_info_lines(
        lang,
        os,
        initialized,
        running,
        active,
        *server,
        sync_folder@,
        config_path@,
        state.error,
    ));
    ServeView {
        header,
        actions: panel(tr(lang, "操作（Enter 执行）", "Actions (Enter)").to_string(), items),
        selected,
        info: panel(tr(lang, "详情", "Details").to_string(), info),
        hint: tr(lang, "↑↓ 选择  Enter 执行  Esc 返回  q 退出", "↑↓ select  Enter run  Esc back  q quit"),
    }
}

} // verus!
