//! Which pages the settings have.

use vstd::prelude::*;

use crate::settings::nav;
use crate::settings::nav::{
    agent_setup_nav, nav_contains, settings_nav, NavIcon, SectionView,
    SettingsCategoryId, SettingsNavCategory, SettingsScope, SettingsSection,
};
use crate::settings::plugins::InstalledPlugin;
use crate::text;

verus! {

/// The category has this name, is found under these words, is open, and has so many pages.
pub open spec fn is_category(
    category: SettingsNavCategory,
    id: SettingsCategoryId,
    title: Seq<char>,
    keywords: Seq<Seq<char>>,
    pages: int,
) -> bool {
    &&& category.id == id
    &&& category.title@ == title
    &&& text::texts(category.keywords@) == keywords
    &&& category.default_open
    &&& category.children@.len() == pages
}

/// The page of the category at a place has this title and icon, shows this section, and is found
/// under these words.
pub open spec fn is_page(
    category: SettingsNavCategory,
    at: int,
    title: Seq<char>,
    icon: NavIcon,
    section: SectionView,
    keywords: Seq<Seq<char>>,
) -> bool {
    &&& 0 <= at < category.children@.len()
    &&& category.children@[at].title@ == title
    &&& category.children@[at].icon == icon
    &&& category.children@[at].section.view() == section
    &&& text::texts(category.children@[at].keywords@) == keywords
}

proof fn lemma_views(nav: Seq<SettingsNavCategory>, c: int)
    requires
        0 <= c < nav.len(),
    ensures
        nav::nav_views(nav).len() == nav.len(),
        nav::nav_views(nav)[c] == nav[c].view(),
        nav::nav_views(nav)[c].children.len() == nav[c].children@.len(),
        forall|l: int|
            0 <= l < nav[c].children@.len() ==> nav::nav_views(nav)[c].children[l] == (
            #[trigger] nav[c].children@[l]).view(),
{
}

/// The pages on the look and on the keyboard.
pub proof fn general_pages(plugins: &Vec<InstalledPlugin>, agent: &str, r: Vec<SettingsNavCategory>)
    requires
        call_ensures(settings_nav, (plugins, agent), r),
    ensures
        r@.len() == 5,
        is_category(r@[0], SettingsCategoryId::General, "通用"@, seq!["常规"@, "偏好设置"@], 4),
        is_page(r@[0], 0, "主题与界面"@, NavIcon::Palette, SectionView::AppearanceTheme, seq!["外观"@, "主题"@, "颜色模式"@, "深色"@, "暗色"@, "夜间"@, "浅色"@, "亮色"@, "界面字号"@, "UI 字号"@, "界面字体"@, "字体大小"@, "调整字号"@, "缩放"@]),
        is_page(r@[0], 1, "终端"@, NavIcon::SquareTerminal, SectionView::AppearanceTerminal, seq!["外观"@, "terminal"@, "终端字号"@, "代码字体"@, "等宽字体"@, "字体"@, "字体大小"@, "调整字号"@, "输出"@]),
        is_page(r@[0], 2, "窗口与背景"@, NavIcon::GalleryVerticalEnd, SectionView::AppearanceWindow, seq!["外观"@, "窗口"@, "背景"@, "背景图"@, "背景图片"@, "壁纸"@, "透明"@, "透明度"@, "不透明度"@, "背景透明"@, "标题栏玻璃"@, "玻璃"@, "液态玻璃"@]),
        is_page(r@[0], 3, "键盘快捷键"@, NavIcon::Asterisk, SectionView::Shortcuts, seq!["快捷键"@, "键盘"@, "按键"@, "组合键"@, "shortcut"@, "keymap"@, "cmd"@, "command"@]),
{
    assert(nav::nav_views(r@) == nav::main_nav(plugins@, agent@));
    assert(nav::nav_views(r@).len() == r@.len());
    lemma_views(r@, 0);
    let category = nav::nav_views(r@)[0];
    assert(category == nav::general_branch());
    assert(category.children.len() == 4);
    assert(category.children[0] == r@[0].children@[0].view());
    assert(category.children[1] == r@[0].children@[1].view());
    assert(category.children[2] == r@[0].children@[2].view());
    assert(category.children[3] == r@[0].children@[3].view());
}

/// The pages on models and agents.
pub proof fn agent_pages(plugins: &Vec<InstalledPlugin>, agent: &str, r: Vec<SettingsNavCategory>)
    requires
        call_ensures(settings_nav, (plugins, agent), r),
    ensures
        r@.len() == 5,
        is_category(r@[1], SettingsCategoryId::Agent, "模型与 Agent"@, seq!["Agent"@, "智能体"@, "AI"@], 6),
        is_page(r@[1], 0, "DeepSeek Harness"@, NavIcon::Cpu, SectionView::DshModel, seq!["DeepSeek"@, "DSH"@, "Harness"@, "模型"@, "model"@, "凭据"@, "API"@, "API key"@, "API 密钥"@, "API 地址"@, "密钥"@, "token"@, "provider"@, "供应商"@, "网关"@, "endpoint"@, "base url"@, "插件"@]),
        is_page(r@[1], 1, "Agent 运行环境"@, NavIcon::Bot, SectionView::AgentRuntime, seq!["Agent"@, "会话"@, "cli"@, "安装"@, "版本"@, "检测"@, "路径"@, agent@, "codex"@, "copilot"@, "grok"@, "cursor"@, "opencode"@, "kiro"@, "pi"@]),
        is_page(r@[1], 2, "新建与启动"@, NavIcon::Play, SectionView::AgentLaunch, seq!["快捷启动项"@, "启动"@, "launch"@, "命令"@, "+"@, "加号"@, "新建菜单"@, "项目菜单"@, "终端"@]),
        is_page(r@[1], 3, "对话与工作区"@, NavIcon::Settings2, SectionView::AgentWorkspace, seq!["Agent 对话"@, "会话"@, "adapter"@, "适配器"@, "workspace"@, "工作区"@, "启动命令"@, "参数"@, "智能体"@, "预设"@, "prompt"@, "persona"@, "跨 agent"@, "跨agent"@, "mcp"@, "通讯"@, "通信"@, "消息"@]),
        is_page(r@[1], 4, "通知"@, NavIcon::Bell, SectionView::AgentNotify, seq!["Agent"@, "Agent通知"@, "提醒"@, "notification"@, "等待批准通知"@, "等待输入通知"@, "任务完成通知"@, "任务失败通知"@, "终端响铃通知"@, "审批"@, "批准"@, "输入"@, "完成"@, "失败"@, "响铃"@, "bell"@]),
        is_page(r@[1], 5, "Agent Hooks"@, NavIcon::Network, SectionView::AgentHooks, seq!["hook"@, "hooks"@, "通知接入"@, "权限接入"@, "配置文件"@]),
{
    assert(nav::nav_views(r@) == nav::main_nav(plugins@, agent@));
    assert(nav::nav_views(r@).len() == r@.len());
    lemma_views(r@, 1);
    let category = nav::nav_views(r@)[1];
    assert(category == nav::agent_branch(agent@));
    assert(category.children.len() == 6);
    assert(category.children[0] == r@[1].children@[0].view());
    assert(category.children[1] == r@[1].children@[1].view());
    assert(category.children[2] == r@[1].children@[2].view());
    assert(category.children[3] == r@[1].children@[3].view());
    assert(category.children[4] == r@[1].children@[4].view());
    assert(category.children[5] == r@[1].children@[5].view());
}

/// The pages on worktrees and remote access.
pub proof fn workspace_pages(plugins: &Vec<InstalledPlugin>, agent: &str, r: Vec<SettingsNavCategory>)
    requires
        call_ensures(settings_nav, (plugins, agent), r),
    ensures
        r@.len() == 5,
        is_category(r@[2], SettingsCategoryId::Workspace, "工作区与远程"@, seq!["项目"@], 2),
        is_page(r@[2], 0, "Worktree 文件继承"@, NavIcon::FolderOpen, SectionView::Worktree, seq!["worktree"@, "工作区"@, "文件继承"@, "继承主仓库未跟踪文件"@, "继承"@, "未跟踪"@, "gitignore"@, ".env"@, "软链"@, "跳过"@, "排除"@]),
        is_page(r@[2], 1, "手机远程"@, NavIcon::Globe, SectionView::CollaborationRemote, seq!["远程访问"@, "开启远程"@, "Relay 地址"@, "允许远程写入"@, "远程"@, "手机"@, "移动端"@, "配对"@, "二维码"@, "token"@, "iroh"@, "relay"@, "分享"@, "只读"@, "写入"@]),
{
    assert(nav::nav_views(r@) == nav::main_nav(plugins@, agent@));
    assert(nav::nav_views(r@).len() == r@.len());
    lemma_views(r@, 2);
    let category = nav::nav_views(r@)[2];
    assert(category == nav::workspace_branch());
    assert(category.children.len() == 2);
    assert(category.children[0] == r@[2].children@[0].view());
    assert(category.children[1] == r@[2].children@[1].view());
}

/// The pages on updates, the service and storage.
pub proof fn system_pages(plugins: &Vec<InstalledPlugin>, agent: &str, r: Vec<SettingsNavCategory>)
    requires
        call_ensures(settings_nav, (plugins, agent), r),
    ensures
        r@.len() == 5,
        is_category(r@[4], SettingsCategoryId::System, "系统"@, seq!["维护"@, "高级"@], 3),
        is_page(r@[4], 0, "应用更新"@, NavIcon::Redo, SectionView::MaintenanceUpdate, seq!["软件版本"@, "应用版本"@, "版本"@, "更新"@, "检查更新"@, "更新通道"@, "自动下载安装"@, "升级"@, "下载"@, "通道"@, "生产版"@, "内测版"@, "自动更新"@]),
        is_page(r@[4], 1, "后台服务"@, NavIcon::Cpu, SectionView::MaintenanceDaemon, seq!["smeltd"@, "守护进程"@, "守护"@, "后台"@, "服务"@, "进程"@, "重启"@, "重启守护进程"@, "无缝升级"@, "会话服务"@, "卡死"@]),
        is_page(r@[4], 2, "存储清理"@, NavIcon::HardDrive, SectionView::MaintenanceStorage, seq!["残留数据清理"@, "清理"@, "残留"@, "存储"@, "空间"@, "缓存"@, "清缓存"@, "磁盘"@, "旧数据"@, "历史"@, "~/.smelt"@]),
{
    assert(nav::nav_views(r@) == nav::main_nav(plugins@, agent@));
    assert(nav::nav_views(r@).len() == r@.len());
    lemma_views(r@, 4);
    let category = nav::nav_views(r@)[4];
    assert(category == nav::system_branch());
    assert(category.children.len() == 3);
    assert(category.children[0] == r@[4].children@[0].view());
    assert(category.children[1] == r@[4].children@[1].view());
    assert(category.children[2] == r@[4].children@[2].view());
}

/// The pages that an agent needs before it can run.
pub proof fn setup_pages(r: Vec<SettingsNavCategory>)
    requires
        call_ensures(agent_setup_nav, (), r),
    ensures
        r@.len() == 1,
        is_category(r@[0], SettingsCategoryId::Agent, "智能体"@, seq!["Agent"@, "智能体"@, "AI"@], 2),
        is_page(r@[0], 0, "模型"@, NavIcon::Bot, SectionView::PiModel, seq!["Pi"@, "pi"@, "智能体"@, "模型"@, "model"@, "凭据"@, "API"@, "API key"@, "API 密钥"@, "API 地址"@, "密钥"@, "token"@, "provider"@, "供应商"@, "网关"@, "endpoint"@, "base url"@]),
        is_page(r@[0], 1, "插件"@, NavIcon::LayoutDashboard, SectionView::PiPlugins, seq!["插件"@, "plugin"@, "技能"@, "skill"@, "扩展"@, "extension"@, "能力"@, "工具"@, "Pi"@, "pi"@, "智能体"@]),
{
    assert(nav::nav_views(r@) == nav::setup_nav());
    assert(nav::nav_views(r@).len() == r@.len());
    lemma_views(r@, 0);
    let category = nav::nav_views(r@)[0];
    assert(category == nav::setup_agent_branch());
    assert(category.children.len() == 2);
    assert(category.children[0] == r@[0].children@[0].view());
    assert(category.children[1] == r@[0].children@[1].view());
}

/// The category of plugins begins with the page for installing one; then every plugin has a page,
/// in the order given, under its name and found by its name and its identifier.
pub proof fn every_plugin_has_a_page(
    plugins: &Vec<InstalledPlugin>,
    agent: &str,
    r: Vec<SettingsNavCategory>,
    i: int,
)
    requires
        call_ensures(settings_nav, (plugins, agent), r),
    ensures
        r@.len() == 5,
        is_category(
            r@[3],
            SettingsCategoryId::Plugins,
            "插件"@,
            seq!["扩展"@, "plugin"@],
            plugins@.len() as int + 1,
        ),
        is_page(
            r@[3],
            0,
            "安装插件"@,
            NavIcon::Plus,
            SectionView::Plugin(seq![]),
            seq!["安装"@, "插件"@, "install"@],
        ),
        0 <= i < plugins@.len() ==> is_page(
            r@[3],
            i + 1,
            plugins@[i].name@,
            NavIcon::Frame,
            SectionView::Plugin(plugins@[i].id@),
            seq![plugins@[i].name@, plugins@[i].id@, "插件"@, "plugin"@],
        ),
{
    assert(nav::nav_views(r@) == nav::main_nav(plugins@, agent@));
    assert(nav::nav_views(r@).len() == r@.len());
    lemma_views(r@, 3);
    let category = nav::nav_views(r@)[3];
    assert(category == nav::plugins_branch(plugins@));
    assert(category.children.len() == plugins@.len() + 1);
    assert(category.children[0] == r@[3].children@[0].view());
    if 0 <= i < plugins@.len() {
        assert(category.children[i + 1] == r@[3].children@[i + 1].view());
        assert(category.children[i + 1] == nav::plugin_entry(plugins@[i]));
    }
}

/// Each page and each category has a key of its own.
pub proof fn pages_have_keys(
    section: &SettingsSection,
    key: String,
    category: SettingsCategoryId,
    name: &'static str,
)
    requires
        call_ensures(SettingsSection::element_key, (section,), key),
        call_ensures(SettingsCategoryId::as_str, (category,), name),
    ensures
        key@ == match *section {
            SettingsSection::AppearanceTheme => "appearance-theme"@,
            SettingsSection::AppearanceTerminal => "appearance-terminal"@,
            SettingsSection::AppearanceWindow => "appearance-window"@,
            SettingsSection::DshModel => "dsh-model"@,
            SettingsSection::PiModel => "pi-model"@,
            SettingsSection::PiPlugins => "pi-plugins"@,
            SettingsSection::AgentRuntime => "agent-runtime"@,
            SettingsSection::AgentLaunch => "agent-launch"@,
            SettingsSection::AgentWorkspace => "agent-workspace"@,
            SettingsSection::AgentNotify => "agent-notify"@,
            SettingsSection::AgentHooks => "agent-hooks"@,
            SettingsSection::Worktree => "worktree"@,
            SettingsSection::CollaborationRemote => "collaboration-remote"@,
            SettingsSection::Plugin { id } => "plugin:"@ + id@,
            SettingsSection::MaintenanceUpdate => "maintenance-update"@,
            SettingsSection::MaintenanceDaemon => "maintenance-daemon"@,
            SettingsSection::MaintenanceStorage => "maintenance-storage"@,
            SettingsSection::Shortcuts => "shortcuts"@,
        },
        category is General ==> name@ == "general"@,
        category is Agent ==> name@ == "agent"@,
        category is Workspace ==> name@ == "workspace"@,
        category is Plugins ==> name@ == "plugins"@,
        category is System ==> name@ == "system"@,
{
}

/// Pages with the same key are the same page, and a copy is the same page.
pub proof fn keys_tell_pages_apart(
    one: &SettingsSection,
    two: &SettingsSection,
    a: String,
    b: String,
    same: bool,
    copy: SettingsSection,
    again: bool,
)
    requires
        call_ensures(SettingsSection::element_key, (one,), a),
        call_ensures(SettingsSection::element_key, (two,), b),
        call_ensures(SettingsSection::is_same, (one, two), same),
        call_ensures(SettingsSection::copied, (one,), copy),
        call_ensures(SettingsSection::is_same, (one, &copy), again),
    ensures
        same <==> a@ == b@,
        again,
{
    if a@ == b@ {
        nav::keys_identify_pages(one.view(), two.view());
    }
}

/// The settings open with the look, the update page is that of updates, the window of an agent's
/// setup opens with its model, and both windows have a name.
pub proof fn windows_open_with_their_page(
    look: SettingsSection,
    update: SettingsSection,
    scope: SettingsScope,
    title: &'static str,
    first: SettingsSection,
    belongs: bool,
)
    requires
        call_ensures(SettingsSection::appearance, (), look),
        call_ensures(SettingsSection::maintenance_update, (), update),
        call_ensures(SettingsScope::window_title, (scope,), title),
        call_ensures(SettingsScope::default_section, (scope,), first),
        call_ensures(SettingsScope::contains, (scope, &first), belongs),
    ensures
        look is AppearanceTheme,
        update is MaintenanceUpdate,
        scope is All ==> title@ == "设置"@ && first is AppearanceTheme,
        scope is AgentSetup ==> title@ == "智能体设置"@ && first is PiModel,
        belongs,
{
    assert(first.view() == nav::fallback_of(scope));
    match scope {
        SettingsScope::All => {
            let all = nav::nav_of(scope, seq![], seq![]);
            assert(all == nav::main_nav(seq![], seq![]));
            assert(nav::is_page_at(all, first.view(), 0, 0));
        },
        SettingsScope::AgentSetup => {
            let all = nav::nav_of(scope, seq![], seq![]);
            assert(nav::is_page_at(all, first.view(), 0, 0));
        },
    }
}

/// Each window has its own pages: all settings, or those of an agent's setup.
pub proof fn windows_have_their_pages(
    plugins: &Vec<InstalledPlugin>,
    agent: &str,
    whole: Vec<SettingsNavCategory>,
    setup: Vec<SettingsNavCategory>,
    all: Vec<SettingsNavCategory>,
    few: Vec<SettingsNavCategory>,
)
    requires
        call_ensures(SettingsScope::nav, (SettingsScope::All, plugins, agent), whole),
        call_ensures(SettingsScope::nav, (SettingsScope::AgentSetup, plugins, agent), setup),
        call_ensures(settings_nav, (plugins, agent), all),
        call_ensures(agent_setup_nav, (), few),
    ensures
        nav::nav_views(whole@) == nav::nav_views(all@),
        nav::nav_views(setup@) == nav::nav_views(few@),
{
}

/// A page is in the sidebar where one of its categories lists it.
pub proof fn listed_pages_are_contained(
    nav: &Vec<SettingsNavCategory>,
    section: &SettingsSection,
    r: bool,
    c: int,
    l: int,
)
    requires
        call_ensures(nav_contains, (nav, section), r),
    ensures
        0 <= c < nav@.len() && 0 <= l < nav@[c].children@.len()
            && nav@[c].children@[l].section.view() == section.view() ==> r,
        r ==> exists|i: int, j: int|
            0 <= i < nav@.len() && 0 <= j < nav@[i].children@.len() && (
            #[trigger] nav@[i].children@[j]).section.view() == section.view(),
{
    let views = nav::nav_views(nav@);
    if 0 <= c < nav@.len() && 0 <= l < nav@[c].children@.len() {
        lemma_views(nav@, c);
        assert(views[c].children[l] == nav@[c].children@[l].view());
        if nav@[c].children@[l].section.view() == section.view() {
            assert(nav::is_page_at(views, section.view(), c, l));
        }
    }
    if r {
        let (i, j) = choose|i: int, j: int| nav::is_page_at(views, section.view(), i, j);
        assert(views.len() == nav@.len());
        lemma_views(nav@, i);
        assert(views[i].children[j] == nav@[i].children@[j].view());
        assert(nav@[i].children@[j].section.view() == section.view());
    }
}

/// The window of all settings has every page but those of an agent's setup, and those of plugins
/// only where they are installed; the other window has just those.
pub proof fn windows_share_no_page(section: &SettingsSection, scope: SettingsScope, r: bool)
    requires
        call_ensures(SettingsScope::contains, (scope, section), r),
    ensures
        scope is AgentSetup ==> (r <==> section is PiModel || section is PiPlugins),
        scope is All && (section is PiModel || section is PiPlugins) ==> !r,
        scope is All && !(section is PiModel || section is PiPlugins || section is Plugin) ==> r,
{
    let all = nav::nav_of(scope, seq![], seq![]);
    let wanted = section.view();
    match scope {
        SettingsScope::AgentSetup => {
            assert(all == nav::setup_nav());
            assert(all.len() == 1);
            assert(all[0].children.len() == 2);
            if section is PiModel {
                assert(nav::is_page_at(all, wanted, 0, 0));
            }
            if section is PiPlugins {
                assert(nav::is_page_at(all, wanted, 0, 1));
            }
            if r {
                let (i, j) = choose|i: int, j: int| nav::is_page_at(all, wanted, i, j);
                assert(i == 0 && (j == 0 || j == 1));
            }
        },
        SettingsScope::All => {
            assert(all == nav::main_nav(seq![], seq![]));
            assert(all.len() == 5);
            if section is AppearanceTheme {
                assert(nav::is_page_at(all, wanted, 0, 0));
            }
            if section is AppearanceTerminal {
                assert(nav::is_page_at(all, wanted, 0, 1));
            }
            if section is AppearanceWindow {
                assert(nav::is_page_at(all, wanted, 0, 2));
            }
            if section is Shortcuts {
                assert(nav::is_page_at(all, wanted, 0, 3));
            }
            if section is DshModel {
                assert(nav::is_page_at(all, wanted, 1, 0));
            }
            if section is AgentRuntime {
                assert(nav::is_page_at(all, wanted, 1, 1));
            }
            if section is AgentLaunch {
                assert(nav::is_page_at(all, wanted, 1, 2));
            }
            if section is AgentWorkspace {
                assert(nav::is_page_at(all, wanted, 1, 3));
            }
            if section is AgentNotify {
                assert(nav::is_page_at(all, wanted, 1, 4));
            }
            if section is AgentHooks {
                assert(nav::is_page_at(all, wanted, 1, 5));
            }
            if section is Worktree {
                assert(nav::is_page_at(all, wanted, 2, 0));
            }
            if section is CollaborationRemote {
                assert(nav::is_page_at(all, wanted, 2, 1));
            }
            if section is MaintenanceUpdate {
                assert(nav::is_page_at(all, wanted, 4, 0));
            }
            if section is MaintenanceDaemon {
                assert(nav::is_page_at(all, wanted, 4, 1));
            }
            if section is MaintenanceStorage {
                assert(nav::is_page_at(all, wanted, 4, 2));
            }
            if r && (section is PiModel || section is PiPlugins) {
                let (i, j) = choose|i: int, j: int| nav::is_page_at(all, wanted, i, j);
                assert(i == 0 || i == 1 || i == 2 || i == 3 || i == 4);
            }
        },
    }
}

} // verus!
