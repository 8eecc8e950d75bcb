use vstd::prelude::*;

use crate::config::UiLanguage;

verus! {

/// A tab of the help screen.
#[derive(Debug, Clone, Copy, PartialEq, Eq, Structural)]
pub enum HelpTab {
    About,
    Keys,
    Tips,
}

impl HelpTab {
    /// The tabs, in order.
    pub fn all() -> (v: Vec<HelpTab>)
        ensures
            v@ == seq![HelpTab::About, HelpTab::Keys, HelpTab::Tips],
    {
        let mut v: Vec<HelpTab> = Vec::new();
        v.push(HelpTab::About);
        v.push(HelpTab::Keys);
        v.push(HelpTab::Tips);
        assert(v@ =~= seq![HelpTab::About, HelpTab::Keys, HelpTab::Tips]);
        v
    }

    pub open spec fn title_spec(self, lang: UiLanguage) -> Seq<char> {
        match (lang, self) {
            (UiLanguage::ZhCn, HelpTab::About) => "关于"@,
            (UiLanguage::En, HelpTab::About) => "About"@,
            (UiLanguage::ZhCn, HelpTab::Keys) => "快捷键"@,
            (UiLanguage::En, HelpTab::Keys) => "Keys"@,
            (UiLanguage::ZhCn, HelpTab::Tips) => "部署提示"@,
            (UiLanguage::En, HelpTab::Tips) => "Deploy Tips"@,
        }
    }

    /// The tab's title in the language.
    pub fn title(self, lang: UiLanguage) -> (s: &'static str)
        ensures
            s@ == self.title_spec(lang),
    {
        match (lang, self) {
            (UiLanguage::ZhCn, HelpTab::About) => "关于",
            (UiLanguage::En, HelpTab::About) => "About",
            (UiLanguage::ZhCn, HelpTab::Keys) => "快捷键",
            (UiLanguage::En, HelpTab::Keys) => "Keys",
            (UiLanguage::ZhCn, HelpTab::Tips) => "部署提示",
            (UiLanguage::En, HelpTab::Tips) => "Deploy Tips",
        }
    }
}

/// The tab after `t`, wrapping.
pub open spec fn tab_after(t: HelpTab) -> HelpTab {
    match t {
        HelpTab::About => HelpTab::Keys,
        HelpTab::Keys => HelpTab::Tips,
        HelpTab::Tips => HelpTab::About,
    }
}

/// The tab before `t`, wrapping.
pub open spec fn tab_before(t: HelpTab) -> HelpTab {
    match t {
        HelpTab::About => HelpTab::Tips,
        HelpTab::Keys => HelpTab::About,
        HelpTab::Tips => HelpTab::Keys,
    }
}

/// The help screen: the open tab and the language.
#[derive(Debug, Clone, Copy, PartialEq, Eq, Structural)]
pub struct State {
    pub tab: HelpTab,
    pub lang: UiLanguage,
}

impl State {
    pub fn new() -> (s: Self)
        ensures
            s.tab == HelpTab::About,
            s.lang == UiLanguage::ZhCn,
    {
        State { tab: HelpTab::About, lang: UiLanguage::ZhCn }
    }

    pub fn next_tab(&mut self)
        ensures
            final(self).tab == tab_after(old(self).tab),
            final(self).lang == old(self).lang,
    {
        self.tab = match self.tab {
            HelpTab::About => HelpTab::Keys,
            HelpTab::Keys => HelpTab::Tips,
            HelpTab::Tips => HelpTab::About,
        };
    }

    pub fn prev_tab(&mut self)
        ensures
            final(self).tab == tab_before(old(self).tab),
            final(self).lang == old(self).lang,
    {
        self.tab = match self.tab {
            HelpTab::About => HelpTab::Tips,
            HelpTab::Keys => HelpTab::About,
            HelpTab::Tips => HelpTab::Keys,
        };
    }
}

/// Going to the next tab and back, or back and then on, returns to the same
/// tab; three steps forward go all the way round.
pub proof fn lemma_tabs_cycle(t: HelpTab)
    ensures
        tab_before(tab_after(t)) == t,
        tab_after(tab_before(t)) == t,
        tab_after(tab_after(tab_after(t))) == t,
{
}

/// The views of a list of texts.
pub open spec fn line_views(v: Seq<&str>) -> Seq<Seq<char>> {
    v.map_values(|s: &str| s@)
}

/// The lines of the About tab.
pub open spec fn about_lines(lang: UiLanguage) -> Seq<Seq<char>> {
    match lang {
        UiLanguage::ZhCn => seq![
            "TT-Sync — TauriTavern 远程同步服务端"@,
            ""@,
            "开源项目，MIT 协议"@,
            "GitHub: https://github.com/Darkatse/TT-Sync"@,
            ""@,
            "TT-Sync 让你在 VPS / NAS / 家庭服务器上运行一个"@,
            "安全的同步端点，与 TauriTavern 或 SillyTavern 进行"@,
            "双向同步角色数据、扩展和配置。"@,
            ""@,
            "核心特性："@,
            "  • TLS 1.3 + SPKI 证书绑定"@,
            "  • Ed25519 认证 + 短期 Session Token"@,
            "  • 增量同步 / 完全镜像模式"@,
            "  • 跨平台支持 (Linux / macOS / Windows)"@,
        ],
        UiLanguage::En => seq![
            "TT-Sync — Remote sync server for TauriTavern"@,
            ""@,
            "Open source, MIT licensed"@,
            "GitHub: https://github.com/Darkatse/TT-Sync"@,
            ""@,
            "TT-Sync lets you host a secure sync endpoint on a"@,
            "VPS, NAS, or home server, and bidirectionally sync"@,
            "character data, extensions, and config with TauriTavern"@,
            "or SillyTavern."@,
            ""@,
            "Key features:"@,
            "  • TLS 1.3 + SPKI certificate pinning"@,
            "  • Ed25519 authentication + short-lived sessions"@,
            "  • Incremental sync / full mirror mode"@,
            "  • Cross-platform (Linux / macOS / Windows)"@,
        ],
    }
}

pub fn about_text(lang: UiLanguage) -> (v: Vec<&'static str>)
    ensures
        line_views(v@) == about_lines(lang),
{
    let mut v: Vec<&'static str> = Vec::new();
    match lang {
        UiLanguage::ZhCn => {
            v.push("TT-Sync — TauriTavern 远程同步服务端");
            v.push("");
            v.push("开源项目，MIT 协议");
            v.push("GitHub: https://github.com/Darkatse/TT-Sync");
            v.push("");
            v.push("TT-Sync 让你在 VPS / NAS / 家庭服务器上运行一个");
            v.push("安全的同步端点，与 TauriTavern 或 SillyTavern 进行");
            v.push("双向同步角色数据、扩展和配置。");
            v.push("");
            v.push("核心特性：");
            v.push("  • TLS 1.3 + SPKI 证书绑定");
            v.push("  • Ed25519 认证 + 短期 Session Token");
            v.push("  • 增量同步 / 完全镜像模式");
            v.push("  • 跨平台支持 (Linux / macOS / Windows)");
        },
        UiLanguage::En => {
            v.push("TT-Sync — Remote sync server for TauriTavern");
            v.push("");
            v.push("Open source, MIT licensed");
            v.push("GitHub: https://github.com/Darkatse/TT-Sync");
            v.push("");
            v.push("TT-Sync lets you host a secure sync endpoint on a");
            v.push("VPS, NAS, or home server, and bidirectionally sync");
            v.push("character data, extensions, and config with TauriTavern");
            v.push("or SillyTavern.");
            v.push("");
            v.push("Key features:");
            v.push("  • TLS 1.3 + SPKI certificate pinning");
            v.push("  • Ed25519 authentication + short-lived sessions");
            v.push("  • Incremental sync / full mirror mode");
            v.push("  • Cross-platform (Linux / macOS / Windows)");
        },
    }
    assert(line_views(v@) =~= about_lines(lang));
    v
}

/// The lines of the Keys tab.
pub open spec fn keys_lines(lang: UiLanguage) -> Seq<Seq<char>> {
    match lang {
        UiLanguage::ZhCn => seq![
            "全局"@,
            "  q           退出"@,
            "  Esc         返回上一级"@,
            "  ↑↓          移动焦点"@,
            "  Enter       确认"@,
            ""@,
            "主菜单"@,
            "  ↑↓          选择菜单项"@,
            "  Enter       进入选中项"@,
            ""@,
            "Onboard（引导设置）"@,
            "  ←→          切换选项（语言/是否配对/服务模式）"@,
            "  Enter       下一步"@,
            "  Esc         上一步"@,
            ""@,
            "配对（Pairing）"@,
            "  r           刷新二维码 / 重新生成 Token"@,
            "  ↑↓          权限 / 继续操作选择"@,
            ""@,
            "已配对设备（Peers）"@,
            "  ↑↓          选择设备"@,
            "  Enter       打开操作菜单"@,
            "  p           直接调整权限"@,
            "  d           直接撤销设备"@,
            "  r           刷新列表"@,
            ""@,
            "服务管理（Serve）"@,
            "  ↑↓          选择操作"@,
            "  Enter       执行"@,
            ""@,
            "帮助 / 关于"@,
            "  Tab / ←→    切换标签页"@,
        ],
        UiLanguage::En => seq![
            "Global"@,
            "  q           Quit"@,
            "  Esc         Go back"@,
            "  ↑↓          Move focus"@,
            "  Enter       Confirm"@,
            ""@,
            "Main Menu"@,
            "  ↑↓          Select item"@,
            "  Enter       Enter selected"@,
            ""@,
            "Onboard"@,
            "  ←→          Toggle option (language/pair/service)"@,
            "  Enter       Next step"@,
            "  Esc         Previous step"@,
            ""@,
            "Pairing"@,
            "  r           Refresh QR / regenerate token"@,
            "  ↑↓          Permission / continue selection"@,
            ""@,
            "Peers"@,
            "  ↑↓          Select peer"@,
            "  Enter       Open actions"@,
            "  p           Edit permissions"@,
            "  d           Revoke peer"@,
            "  r           Refresh list"@,
            ""@,
            "Serve"@,
            "  ↑↓          Select action"@,
            "  Enter       Execute"@,
            ""@,
            "Help / About"@,
            "  Tab / ←→    Switch tabs"@,
        ],
    }
}

/// A line of the keys tab that lists a key: it is indented by two spaces.
pub open spec fn is_key_line(s: Seq<char>) -> bool {
    s.len() >= 2 && s[0] == ' ' && s[1] == ' '
}

/// Two lines of the keys tab line up: both blank or neither, both key lines
/// or neither, and key lines name the same key in their first fourteen columns.
pub open spec fn lines_align(a: Seq<char>, b: Seq<char>) -> bool {
    &&& (a.len() == 0) == (b.len() == 0)
    &&& is_key_line(a) == is_key_line(b)
    &&& is_key_line(a) ==> a.take(14) == b.take(14)
}

/// The Chinese and English keys tabs line up line for line.
pub proof fn lemma_keys_tabs_align()
    ensures
        keys_lines(UiLanguage::ZhCn).len() == keys_lines(UiLanguage::En).len(),
        forall|i: int|
            0 <= i < keys_lines(UiLanguage::ZhCn).len() ==> lines_align(
                #[trigger] keys_lines(UiLanguage::ZhCn)[i],
                keys_lines(UiLanguage::En)[i],
            ),
{
    reveal_strlit("");
    reveal_strlit("  Enter       Confirm");
    reveal_strlit("  Enter       Enter selected");
    reveal_strlit("  Enter       Execute");
    reveal_strlit("  Enter       Next step");
    reveal_strlit("  Enter       Open actions");
    reveal_strlit("  Enter       下一步");
    reveal_strlit("  Enter       打开操作菜单");
    reveal_strlit("  Enter       执行");
    reveal_strlit("  Enter       确认");
    reveal_strlit("  Enter       进入选中项");
    reveal_strlit("  Esc         Go back");
    reveal_strlit("  Esc         Previous step");
    reveal_strlit("  Esc         上一步");
    reveal_strlit("  Esc         返回上一级");
    reveal_strlit("  Tab / ←→    Switch tabs");
    reveal_strlit("  Tab / ←→    切换标签页");
    reveal_strlit("  d           Revoke peer");
    reveal_strlit("  d           直接撤销设备");
    reveal_strlit("  p           Edit permissions");
    reveal_strlit("  p           直接调整权限");
    reveal_strlit("  q           Quit");
    reveal_strlit("  q           退出");
    reveal_strlit("  r           Refresh QR / regenerate token");
    reveal_strlit("  r           Refresh list");
    reveal_strlit("  r           刷新二维码 / 重新生成 Token");
    reveal_strlit("  r           刷新列表");
    reveal_strlit("  ←→          Toggle option (language/pair/service)");
    reveal_strlit("  ←→          切换选项（语言/是否配对/服务模式）");
    reveal_strlit("  ↑↓          Move focus");
    reveal_strlit("  ↑↓          Permission / continue selection");
    reveal_strlit("  ↑↓          Select action");
    reveal_strlit("  ↑↓          Select item");
    reveal_strlit("  ↑↓          Select peer");
    reveal_strlit("  ↑↓          权限 / 继续操作选择");
    reveal_strlit("  ↑↓          移动焦点");
    reveal_strlit("  ↑↓          选择操作");
    reveal_strlit("  ↑↓          选择菜单项");
    reveal_strlit("  ↑↓          选择设备");
    reveal_strlit("Global");
    reveal_strlit("Help / About");
    reveal_strlit("Main Menu");
    reveal_strlit("Onboard");
    reveal_strlit("Onboard（引导设置）");
    reveal_strlit("Pairing");
    reveal_strlit("Peers");
    reveal_strlit("Serve");
    reveal_strlit("主菜单");
    reveal_strlit("全局");
    reveal_strlit("已配对设备（Peers）");
    reveal_strlit("帮助 / 关于");
    reveal_strlit("服务管理（Serve）");
    reveal_strlit("配对（Pairing）");
    let z = keys_lines(UiLanguage::ZhCn);
    let e = keys_lines(UiLanguage::En);
    assert(lines_align(z[0], e[0]));
    assert(z[1].take(14) =~= e[1].take(14));
    assert(lines_align(z[1], e[1]));
    assert(z[2].take(14) =~= e[2].take(14));
    assert(lines_align(z[2], e[2]));
    assert(z[3].take(14) =~= e[3].take(14));
    assert(lines_align(z[3], e[3]));
    assert(z[4].take(14) =~= e[4].take(14));
    assert(lines_align(z[4], e[4]));
    assert(lines_align(z[5], e[5]));
    assert(lines_align(z[6], e[6]));
    assert(z[7].take(14) =~= e[7].take(14));
    assert(lines_align(z[7], e[7]));
    assert(z[8].take(14) =~= e[8].take(14));
    assert(lines_align(z[8], e[8]));
    assert(lines_align(z[9], e[9]));
    assert(lines_align(z[10], e[10]));
    assert(z[11].take(14) =~= e[11].take(14));
    assert(lines_align(z[11], e[11]));
    assert(z[12].take(14) =~= e[12].take(14));
    assert(lines_align(z[12], e[12]));
    assert(z[13].take(14) =~= e[13].take(14));
    assert(lines_align(z[13], e[13]));
    assert(lines_align(z[14], e[14]));
    assert(lines_align(z[15], e[15]));
    assert(z[16].take(14) =~= e[16].take(14));
    assert(lines_align(z[16], e[16]));
    assert(z[17].take(14) =~= e[17].take(14));
    assert(lines_align(z[17], e[17]));
    assert(lines_align(z[18], e[18]));
    assert(lines_align(z[19], e[19]));
    assert(z[20].take(14) =~= e[20].take(14));
    assert(lines_align(z[20], e[20]));
    assert(z[21].take(14) =~= e[21].take(14));
    assert(lines_align(z[21], e[21]));
    assert(z[22].take(14) =~= e[22].take(14));
    assert(lines_align(z[22], e[22]));
    assert(z[23].take(14) =~= e[23].take(14));
    assert(lines_align(z[23], e[23]));
    assert(z[24].take(14) =~= e[24].take(14));
    assert(lines_align(z[24], e[24]));
    assert(lines_align(z[25], e[25]));
    assert(lines_align(z[26], e[26]));
    assert(z[27].take(14) =~= e[27].take(14));
    assert(lines_align(z[27], e[27]));
    assert(z[28].take(14) =~= e[28].take(14));
    assert(lines_align(z[28], e[28]));
    assert(lines_align(z[29], e[29]));
    assert(lines_align(z[30], e[30]));
    assert(z[31].take(14) =~= e[31].take(14));
    assert(lines_align(z[31], e[31]));
}

pub fn keys_text(lang: UiLanguage) -> (v: Vec<&'static str>)
    ensures
        line_views(v@) == keys_lines(lang),
{
    let mut v: Vec<&'static str> = Vec::new();
    match lang {
        UiLanguage::ZhCn => {
            v.push("全局");
            v.push("  q           退出");
            v.push("  Esc         返回上一级");
            v.push("  ↑↓          移动焦点");
            v.push("  Enter       确认");
            v.push("");
            v.push("主菜单");
            v.push("  ↑↓          选择菜单项");
            v.push("  Enter       进入选中项");
            v.push("");
            v.push("Onboard（引导设置）");
            v.push("  ←→          切换选项（语言/是否配对/服务模式）");
            v.push("  Enter       下一步");
            v.push("  Esc         上一步");
            v.push("");
            v.push("配对（Pairing）");
            v.push("  r           刷新二维码 / 重新生成 Token");
            v.push("  ↑↓          权限 / 继续操作选择");
            v.push("");
            v.push("已配对设备（Peers）");
            v.push("  ↑↓          选择设备");
            v.push("  Enter       打开操作菜单");
            v.push("  p           直接调整权限");
            v.push("  d           直接撤销设备");
            v.push("  r           刷新列表");
            v.push("");
            v.push("服务管理（Serve）");
            v.push("  ↑↓          选择操作");
            v.push("  Enter       执行");
            v.push("");
            v.push("帮助 / 关于");
            v.push("  Tab / ←→    切换标签页");
        },
        UiLanguage::En => {
            v.push("Global");
            v.push("  q           Quit");
            v.push("  Esc         Go back");
            v.push("  ↑↓          Move focus");
            v.push("  Enter       Confirm");
            v.push("");
            v.push("Main Menu");
            v.push("  ↑↓          Select item");
            v.push("  Enter       Enter selected");
            v.push("");
            v.push("Onboard");
            v.push("  ←→          Toggle option (language/pair/service)");
            v.push("  Enter       Next step");
            v.push("  Esc         Previous step");
            v.push("");
            v.push("Pairing");
            v.push("  r           Refresh QR / regenerate token");
            v.push("  ↑↓          Permission / continue selection");
            v.push("");
            v.push("Peers");
            v.push("  ↑↓          Select peer");
            v.push("  Enter       Open actions");
            v.push("  p           Edit permissions");
            v.push("  d           Revoke peer");
            v.push("  r           Refresh list");
            v.push("");
            v.push("Serve");
            v.push("  ↑↓          Select action");
            v.push("  Enter       Execute");
            v.push("");
            v.push("Help / About");
            v.push("  Tab / ←→    Switch tabs");
        },
    }
    assert(line_views(v@) =~= keys_lines(lang));
    v
}

/// The lines of the Deploy Tips tab.
pub open spec fn tips_lines(lang: UiLanguage) -> Seq<Seq<char>> {
    match lang {
        UiLanguage::ZhCn => seq![
            "VPS 部署"@,
            "  1. 上传 tt-sync 二进制到 VPS"@,
            "  2. 运行 tt-sync onboard 完成初始化"@,
            "  3. 确保防火墙已放行选定端口"@,
            "  4. 建议使用 systemd 管理服务"@,
            ""@,
            "NAS 部署"@,
            "  1. 在 NAS 上部署 tt-sync（或 Docker 容器）"@,
            "  2. 确保端口映射/端口转发已配置"@,
            "  3. 使用内网 IP 或 DDNS 域名作为 Public URL"@,
            ""@,
            "反向代理（Nginx / Caddy）"@,
            "  • 将域名反代到 tt-sync 的监听端口"@,
            "  • Public URL 设置为你的域名 URL"@,
            "  • TT-Sync 自带 TLS，反代可选择 pass-through"@,
            ""@,
            "Docker"@,
            "  • 使用 sillytavern-docker 布局模式"@,
            "  • 挂载数据卷到容器内的 workspace 路径"@,
            "  • 持久化配对与证书数据（Docker 挂载）"@,
        ],
        UiLanguage::En => seq![
            "VPS Deployment"@,
            "  1. Upload tt-sync binary to your VPS"@,
            "  2. Run tt-sync onboard to initialize"@,
            "  3. Ensure firewall allows the chosen port"@,
            "  4. Recommended: manage with systemd"@,
            ""@,
            "NAS Deployment"@,
            "  1. Deploy tt-sync on NAS (or Docker container)"@,
            "  2. Ensure port forwarding is configured"@,
            "  3. Use LAN IP or DDNS domain as Public URL"@,
            ""@,
            "Reverse Proxy (Nginx / Caddy)"@,
            "  • Proxy your domain to tt-sync's listen port"@,
            "  • Set Public URL to your domain URL"@,
            "  • TT-Sync has built-in TLS; proxy can pass-through"@,
            ""@,
            "Docker"@,
            "  • Use sillytavern-docker layout mode"@,
            "  • Mount data volumes to the workspace path"@,
            "  • Persist pairing & cert data (docker volume)"@,
        ],
    }
}

pub fn tips_text(lang: UiLanguage) -> (v: Vec<&'static str>)
    ensures
        line_views(v@) == tips_lines(lang),
{
    let mut v: Vec<&'static str> = Vec::new();
    match lang {
        UiLanguage::ZhCn => {
            v.push("VPS 部署");
            v.push("  1. 上传 tt-sync 二进制到 VPS");
            v.push("  2. 运行 tt-sync onboard 完成初始化");
            v.push("  3. 确保防火墙已放行选定端口");
            v.push("  4. 建议使用 systemd 管理服务");
            v.push("");
            v.push("NAS 部署");
            v.push("  1. 在 NAS 上部署 tt-sync（或 Docker 容器）");
            v.push("  2. 确保端口映射/端口转发已配置");
            v.push("  3. 使用内网 IP 或 DDNS 域名作为 Public URL");
            v.push("");
            v.push("反向代理（Nginx / Caddy）");
            v.push("  • 将域名反代到 tt-sync 的监听端口");
            v.push("  • Public URL 设置为你的域名 URL");
            v.push("  • TT-Sync 自带 TLS，反代可选择 pass-through");
            v.push("");
            v.push("Docker");
            v.push("  • 使用 sillytavern-docker 布局模式");
            v.push("  • 挂载数据卷到容器内的 workspace 路径");
            v.push("  • 持久化配对与证书数据（Docker 挂载）");
        },
        UiLanguage::En => {
            v.push("VPS Deployment");
            v.push("  1. Upload tt-sync binary to your VPS");
            v.push("  2. Run tt-sync onboard to initialize");
            v.push("  3. Ensure firewall allows the chosen port");
            v.push("  4. Recommended: manage with systemd");
            v.push("");
            v.push("NAS Deployment");
            v.push("  1. Deploy tt-sync on NAS (or Docker container)");
            v.push("  2. Ensure port forwarding is configured");
            v.push("  3. Use LAN IP or DDNS domain as Public URL");
            v.push("");
            v.push("Reverse Proxy (Nginx / Caddy)");
            v.push("  • Proxy your domain to tt-sync's listen port");
            v.push("  • Set Public URL to your domain URL");
            v.push("  • TT-Sync has built-in TLS; proxy can pass-through");
            v.push("");
            v.push("Docker");
            v.push("  • Use sillytavern-docker layout mode");
            v.push("  • Mount data volumes to the workspace path");
            v.push("  • Persist pairing & cert data (docker volume)");
        },
    }
    assert(line_views(v@) =~= tips_lines(lang));
    v
}

} // verus!
