//! The structure of the settings windows: a sidebar of two levels, where every entry has a
//! page of its own.

use vstd::prelude::*;

use crate::settings::plugins::InstalledPlugin;
use crate::settings::search;
use crate::settings::search::{folded, matches_any_term, matches_query, query_terms};
use crate::text;
use crate::text::{same_text, trim};

verus! {

/// A page of the settings.
#[derive(Clone, Debug, Default, PartialEq, Eq)]
pub enum SettingsSection {
    #[default]
    AppearanceTheme,
    AppearanceTerminal,
    AppearanceWindow,
    DshModel,
    PiModel,
    PiPlugins,
    AgentRuntime,
    AgentLaunch,
    AgentWorkspace,
    AgentNotify,
    AgentHooks,
    Worktree,
    CollaborationRemote,
    /// A plugin; without an id, the page for installing one.
    Plugin {
        id: String,
    },
    MaintenanceUpdate,
    MaintenanceDaemon,
    MaintenanceStorage,
    Shortcuts,
}

/// A page of the settings, by the characters of its parts.
pub enum SectionView {
    AppearanceTheme,
    AppearanceTerminal,
    AppearanceWindow,
    DshModel,
    PiModel,
    PiPlugins,
    AgentRuntime,
    AgentLaunch,
    AgentWorkspace,
    AgentNotify,
    AgentHooks,
    Worktree,
    CollaborationRemote,
    Plugin(Seq<char>),
    MaintenanceUpdate,
    MaintenanceDaemon,
    MaintenanceStorage,
    Shortcuts,
}

impl SettingsSection {
    /// The page, by the characters of its parts.
    pub open spec fn view(&self) -> SectionView {
        match *self {
            SettingsSection::AppearanceTheme => SectionView::AppearanceTheme,
            SettingsSection::AppearanceTerminal => SectionView::AppearanceTerminal,
            SettingsSection::AppearanceWindow => SectionView::AppearanceWindow,
            SettingsSection::DshModel => SectionView::DshModel,
            SettingsSection::PiModel => SectionView::PiModel,
            SettingsSection::PiPlugins => SectionView::PiPlugins,
            SettingsSection::AgentRuntime => SectionView::AgentRuntime,
            SettingsSection::AgentLaunch => SectionView::AgentLaunch,
            SettingsSection::AgentWorkspace => SectionView::AgentWorkspace,
            SettingsSection::AgentNotify => SectionView::AgentNotify,
            SettingsSection::AgentHooks => SectionView::AgentHooks,
            SettingsSection::Worktree => SectionView::Worktree,
            SettingsSection::CollaborationRemote => SectionView::CollaborationRemote,
            SettingsSection::Plugin { id } => SectionView::Plugin(id@),
            SettingsSection::MaintenanceUpdate => SectionView::MaintenanceUpdate,
            SettingsSection::MaintenanceDaemon => SectionView::MaintenanceDaemon,
            SettingsSection::MaintenanceStorage => SectionView::MaintenanceStorage,
            SettingsSection::Shortcuts => SectionView::Shortcuts,
        }
    }
}

spec fn page_number(section: SectionView) -> int {
    match section {
        SectionView::AppearanceTheme => 0,
        SectionView::AppearanceTerminal => 1,
        SectionView::AppearanceWindow => 2,
        SectionView::DshModel => 3,
        SectionView::PiModel => 4,
        SectionView::PiPlugins => 5,
        SectionView::AgentRuntime => 6,
        SectionView::AgentLaunch => 7,
        SectionView::AgentWorkspace => 8,
        SectionView::AgentNotify => 9,
        SectionView::AgentHooks => 10,
        SectionView::Worktree => 11,
        SectionView::CollaborationRemote => 12,
        SectionView::Plugin(_) => 13,
        SectionView::MaintenanceUpdate => 14,
        SectionView::MaintenanceDaemon => 15,
        SectionView::MaintenanceStorage => 16,
        SectionView::Shortcuts => 17,
    }
}

/// What identifies a page in the window.
pub open spec fn key_of(section: SectionView) -> Seq<char> {
    match section {
        SectionView::AppearanceTheme => "appearance-theme"@,
        SectionView::AppearanceTerminal => "appearance-terminal"@,
        SectionView::AppearanceWindow => "appearance-window"@,
        SectionView::DshModel => "dsh-model"@,
        SectionView::PiModel => "pi-model"@,
        SectionView::PiPlugins => "pi-plugins"@,
        SectionView::AgentRuntime => "agent-runtime"@,
        SectionView::AgentLaunch => "agent-launch"@,
        SectionView::AgentWorkspace => "agent-workspace"@,
        SectionView::AgentNotify => "agent-notify"@,
        SectionView::AgentHooks => "agent-hooks"@,
        SectionView::Worktree => "worktree"@,
        SectionView::CollaborationRemote => "collaboration-remote"@,
        SectionView::Plugin(id) => "plugin:"@ + id,
        SectionView::MaintenanceUpdate => "maintenance-update"@,
        SectionView::MaintenanceDaemon => "maintenance-daemon"@,
        SectionView::MaintenanceStorage => "maintenance-storage"@,
        SectionView::Shortcuts => "shortcuts"@,
    }
}

impl SettingsSection {
    /// The page that looks are set on first.
    pub fn appearance() -> (r: SettingsSection)
        ensures
            r.view() == SectionView::AppearanceTheme,
    {
        SettingsSection::AppearanceTheme
    }

    /// The page where updates are looked for.
    pub fn maintenance_update() -> (r: SettingsSection)
        ensures
            r.view() == SectionView::MaintenanceUpdate,
    {
        SettingsSection::MaintenanceUpdate
    }

    /// What identifies the page in the window.
    pub fn element_key(&self) -> (r: String)
        ensures
            r@ == key_of(self.view()),
    {
        match self {
            SettingsSection::AppearanceTheme => "appearance-theme".to_owned(),
            SettingsSection::AppearanceTerminal => "appearance-terminal".to_owned(),
            SettingsSection::AppearanceWindow => "appearance-window".to_owned(),
            SettingsSection::DshModel => "dsh-model".to_owned(),
            SettingsSection::PiModel => "pi-model".to_owned(),
            SettingsSection::PiPlugins => "pi-plugins".to_owned(),
            SettingsSection::AgentRuntime => "agent-runtime".to_owned(),
            SettingsSection::AgentLaunch => "agent-launch".to_owned(),
            SettingsSection::AgentWorkspace => "agent-workspace".to_owned(),
            SettingsSection::AgentNotify => "agent-notify".to_owned(),
            SettingsSection::AgentHooks => "agent-hooks".to_owned(),
            SettingsSection::Worktree => "worktree".to_owned(),
            SettingsSection::CollaborationRemote => "collaboration-remote".to_owned(),
            SettingsSection::Plugin { id } => {
                let mut key: String = "plugin:".to_owned();
                key.append(id.as_str());
                key
            },
            SettingsSection::MaintenanceUpdate => "maintenance-update".to_owned(),
            SettingsSection::MaintenanceDaemon => "maintenance-daemon".to_owned(),
            SettingsSection::MaintenanceStorage => "maintenance-storage".to_owned(),
            SettingsSection::Shortcuts => "shortcuts".to_owned(),
        }
    }

    fn number(&self) -> (r: u8)
        ensures
            r as int == page_number(self.view()),
    {
        match self {
            SettingsSection::AppearanceTheme => 0,
            SettingsSection::AppearanceTerminal => 1,
            SettingsSection::AppearanceWindow => 2,
            SettingsSection::DshModel => 3,
            SettingsSection::PiModel => 4,
            SettingsSection::PiPlugins => 5,
            SettingsSection::AgentRuntime => 6,
            SettingsSection::AgentLaunch => 7,
            SettingsSection::AgentWorkspace => 8,
            SettingsSection::AgentNotify => 9,
            SettingsSection::AgentHooks => 10,
            SettingsSection::Worktree => 11,
            SettingsSection::CollaborationRemote => 12,
            SettingsSection::Plugin { .. } => 13,
            SettingsSection::MaintenanceUpdate => 14,
            SettingsSection::MaintenanceDaemon => 15,
            SettingsSection::MaintenanceStorage => 16,
            SettingsSection::Shortcuts => 17,
        }
    }

    /// Whether two pages are the same.
    pub fn is_same(&self, other: &SettingsSection) -> (r: bool)
        ensures
            r == (self.view() == other.view()),
    {
        match (self, other) {
            (SettingsSection::Plugin { id }, SettingsSection::Plugin { id: other_id }) => same_text(
                id.as_str(),
                other_id.as_str(),
            ),
            _ => self.number() == other.number(),
        }
    }

    /// A copy of the page.
    pub fn copied(&self) -> (r: SettingsSection)
        ensures
            r.view() == self.view(),
    {
        match self {
            SettingsSection::AppearanceTheme => SettingsSection::AppearanceTheme,
            SettingsSection::AppearanceTerminal => SettingsSection::AppearanceTerminal,
            SettingsSection::AppearanceWindow => SettingsSection::AppearanceWindow,
            SettingsSection::DshModel => SettingsSection::DshModel,
            SettingsSection::PiModel => SettingsSection::PiModel,
            SettingsSection::PiPlugins => SettingsSection::PiPlugins,
            SettingsSection::AgentRuntime => SettingsSection::AgentRuntime,
            SettingsSection::AgentLaunch => SettingsSection::AgentLaunch,
            SettingsSection::AgentWorkspace => SettingsSection::AgentWorkspace,
            SettingsSection::AgentNotify => SettingsSection::AgentNotify,
            SettingsSection::AgentHooks => SettingsSection::AgentHooks,
            SettingsSection::Worktree => SettingsSection::Worktree,
            SettingsSection::CollaborationRemote => SettingsSection::CollaborationRemote,
            SettingsSection::Plugin { id } => SettingsSection::Plugin { id: id.clone() },
            SettingsSection::MaintenanceUpdate => SettingsSection::MaintenanceUpdate,
            SettingsSection::MaintenanceDaemon => SettingsSection::MaintenanceDaemon,
            SettingsSection::MaintenanceStorage => SettingsSection::MaintenanceStorage,
            SettingsSection::Shortcuts => SettingsSection::Shortcuts,
        }
    }
}

/// A group of pages.
#[derive(Clone, Copy, Debug, PartialEq, Eq, Structural)]
pub enum SettingsCategoryId {
    General,
    Agent,
    Workspace,
    Plugins,
    System,
}

impl SettingsCategoryId {
    /// The name of the group in the window's state.
    pub fn as_str(self) -> (r: &'static str)
        ensures
            r@ == match self {
                SettingsCategoryId::General => "general"@,
                SettingsCategoryId::Agent => "agent"@,
                SettingsCategoryId::Workspace => "workspace"@,
                SettingsCategoryId::Plugins => "plugins"@,
                SettingsCategoryId::System => "system"@,
            },
    {
        match self {
            SettingsCategoryId::General => "general",
            SettingsCategoryId::Agent => "agent",
            SettingsCategoryId::Workspace => "workspace",
            SettingsCategoryId::Plugins => "plugins",
            SettingsCategoryId::System => "system",
        }
    }
}

/// The picture beside an entry.
#[derive(Clone, Copy, Debug, PartialEq, Eq, Structural)]
pub enum NavIcon {
    Bot,
    LayoutDashboard,
    Palette,
    SquareTerminal,
    GalleryVerticalEnd,
    Asterisk,
    Cpu,
    Play,
    Settings2,
    Bell,
    Network,
    FolderOpen,
    Globe,
    Redo,
    HardDrive,
    Plus,
    Frame,
}

/// An entry of the sidebar.
#[derive(Debug, PartialEq, Eq)]
pub struct SettingsNavLeaf {
    pub title: String,
    pub icon: NavIcon,
    pub section: SettingsSection,
    pub keywords: Vec<String>,
}

/// An entry of the sidebar, by the characters of its parts.
pub struct LeafView {
    pub title: Seq<char>,
    pub icon: NavIcon,
    pub section: SectionView,
    pub keywords: Seq<Seq<char>>,
}

impl SettingsNavLeaf {
    /// The entry, by the characters of its parts.
    pub open spec fn view(&self) -> LeafView {
        LeafView {
            title: self.title@,
            icon: self.icon,
            section: self.section.view(),
            keywords: text::texts(self.keywords@),
        }
    }
}

/// A group of entries.
#[derive(Debug, PartialEq, Eq)]
pub struct SettingsNavCategory {
    pub id: SettingsCategoryId,
    pub title: String,
    pub keywords: Vec<String>,
    pub default_open: bool,
    pub children: Vec<SettingsNavLeaf>,
}

/// A group of entries, by the characters of its parts.
pub struct CategoryView {
    pub id: SettingsCategoryId,
    pub title: Seq<char>,
    pub keywords: Seq<Seq<char>>,
    pub default_open: bool,
    pub children: Seq<LeafView>,
}

impl SettingsNavCategory {
    /// The group, by the characters of its parts.
    pub open spec fn view(&self) -> CategoryView {
        CategoryView {
            id: self.id,
            title: self.title@,
            keywords: text::texts(self.keywords@),
            default_open: self.default_open,
            children: leaf_views(self.children@),
        }
    }
}

/// A list of entries, by the characters of their parts.
pub open spec fn leaf_views(leaves: Seq<SettingsNavLeaf>) -> Seq<LeafView> {
    leaves.map_values(|leaf: SettingsNavLeaf| leaf.view())
}

/// A sidebar, by the characters of its parts.
pub open spec fn nav_views(nav: Seq<SettingsNavCategory>) -> Seq<CategoryView> {
    nav.map_values(|category: SettingsNavCategory| category.view())
}

fn copied_texts(list: &Vec<String>) -> (r: Vec<String>)
    ensures
        text::texts(r@) == text::texts(list@),
{
    let mut out: Vec<String> = Vec::new();
    let mut i: usize = 0;
    while i < list.len()
        invariant
            i <= list.len(),
            out@.len() == i,
            forall|k: int| 0 <= k < i ==> (#[trigger] out@[k])@ == list@[k]@,
        decreases list.len() - i,
    {
        out.push(list[i].clone());
        i = i + 1;
    }
    assert(text::texts(out@) =~= text::texts(list@));
    out
}

impl Clone for SettingsNavLeaf {
    fn clone(&self) -> (r: SettingsNavLeaf)
        ensures
            r.view() == self.view(),
    {
        SettingsNavLeaf {
            title: self.title.clone(),
            icon: self.icon,
            section: self.section.copied(),
            keywords: copied_texts(&self.keywords),
        }
    }
}

impl Clone for SettingsNavCategory {
    fn clone(&self) -> (r: SettingsNavCategory)
        ensures
            r.view() == self.view(),
    {
        let mut children: Vec<SettingsNavLeaf> = Vec::new();
        let mut i: usize = 0;
        while i < self.children.len()
            invariant
                i <= self.children.len(),
                children@.len() == i,
                forall|k: int|
                    0 <= k < i ==> (#[trigger] children@[k]).view() == self.children@[k].view(),
            decreases self.children.len() - i,
        {
            children.push(self.children[i].clone());
            i = i + 1;
        }
        assert(leaf_views(children@) =~= leaf_views(self.children@));
        SettingsNavCategory {
            id: self.id,
            title: self.title.clone(),
            keywords: copied_texts(&self.keywords),
            default_open: self.default_open,
            children,
        }
    }
}

fn words(list: &[&str]) -> (r: Vec<String>)
    ensures
        text::texts(r@) == Seq::new(list@.len(), |i: int| list@[i]@),
{
    let mut out: Vec<String> = Vec::new();
    let mut i: usize = 0;
    while i < list.len()
        invariant
            i <= list@.len(),
            out@.len() == i,
            forall|k: int| 0 <= k < i ==> (#[trigger] out@[k])@ == list@[k]@,
        decreases list@.len() - i,
    {
        out.push(list[i].to_owned());
        i = i + 1;
    }
    assert(text::texts(out@) =~= Seq::new(list@.len(), |i: int| list@[i]@));
    out
}

fn leaf(title: &str, icon: NavIcon, section: SettingsSection, keywords: &[&str]) -> (r:
    SettingsNavLeaf)
    ensures
        r.view() == (LeafView {
            title: title@,
            icon,
            section: section.view(),
            keywords: Seq::new(keywords@.len(), |i: int| keywords@[i]@),
        }),
{
    SettingsNavLeaf { title: title.to_owned(), icon, section, keywords: words(keywords) }
}

fn category(
    id: SettingsCategoryId,
    title: &str,
    keywords: &[&str],
    children: Vec<SettingsNavLeaf>,
) -> (r: SettingsNavCategory)
    ensures
        r.view() == (CategoryView {
            id,
            title: title@,
            keywords: Seq::new(keywords@.len(), |i: int| keywords@[i]@),
            default_open: true,
            children: leaf_views(children@),
        }),
{
    SettingsNavCategory {
        id,
        title: title.to_owned(),
        keywords: words(keywords),
        default_open: true,
        children,
    }
}

/// The entry of this page.
pub open spec fn setup_pi_model_entry() -> LeafView {
    LeafView {
        title: "模型"@,
        icon: NavIcon::Bot,
        section: SectionView::PiModel,
        keywords: seq!["Pi"@, "pi"@, "智能体"@, "模型"@, "model"@, "凭据"@, "API"@, "API key"@, "API 密钥"@, "API 地址"@, "密钥"@, "token"@, "provider"@, "供应商"@, "网关"@, "endpoint"@, "base url"@],
    }
}

fn setup_pi_model_leaf() -> (r: SettingsNavLeaf)
    ensures
        r.view() == setup_pi_model_entry(),
{
    let entry: SettingsNavLeaf = leaf(
        "模型",
        NavIcon::Bot,
        SettingsSection::PiModel,
        &["Pi", "pi", "智能体", "模型", "model", "凭据", "API", "API key", "API 密钥", "API 地址", "密钥", "token", "provider", "供应商", "网关", "endpoint", "base url"],
    );
    assert(entry.view().keywords =~= setup_pi_model_entry().keywords);
    entry
}

/// The entry of this page.
pub open spec fn setup_pi_plugins_entry() -> LeafView {
    LeafView {
        title: "插件"@,
        icon: NavIcon::LayoutDashboard,
        section: SectionView::PiPlugins,
        keywords: seq!["插件"@, "plugin"@, "技能"@, "skill"@, "扩展"@, "extension"@, "能力"@, "工具"@, "Pi"@, "pi"@, "智能体"@],
    }
}

fn setup_pi_plugins_leaf() -> (r: SettingsNavLeaf)
    ensures
        r.view() == setup_pi_plugins_entry(),
{
    let entry: SettingsNavLeaf = leaf(
        "插件",
        NavIcon::LayoutDashboard,
        SettingsSection::PiPlugins,
        &["插件", "plugin", "技能", "skill", "扩展", "extension", "能力", "工具", "Pi", "pi", "智能体"],
    );
    assert(entry.view().keywords =~= setup_pi_plugins_entry().keywords);
    entry
}

/// The category `Agent`.
pub open spec fn setup_agent_branch() -> CategoryView {
    CategoryView {
        id: SettingsCategoryId::Agent,
        title: "智能体"@,
        keywords: seq!["Agent"@, "智能体"@, "AI"@],
        default_open: true,
        children: seq![setup_pi_model_entry(), setup_pi_plugins_entry()],
    }
}

fn setup_agent_category() -> (r: SettingsNavCategory)
    ensures
        r.view() == setup_agent_branch(),
{
    let mut children: Vec<SettingsNavLeaf> = Vec::new();
    children.push(setup_pi_model_leaf());
    children.push(setup_pi_plugins_leaf());
    let branch: SettingsNavCategory = category(
        SettingsCategoryId::Agent,
        "智能体",
        &["Agent", "智能体", "AI"],
        children,
    );
    assert(branch.view().keywords =~= setup_agent_branch().keywords);
    assert(branch.view().children =~= setup_agent_branch().children);
    branch
}

/// The entry of this page.
pub open spec fn appearance_theme_entry() -> LeafView {
    LeafView {
        title: "主题与界面"@,
        icon: NavIcon::Palette,
        section: SectionView::AppearanceTheme,
        keywords: seq!["外观"@, "主题"@, "颜色模式"@, "深色"@, "暗色"@, "夜间"@, "浅色"@, "亮色"@, "界面字号"@, "UI 字号"@, "界面字体"@, "字体大小"@, "调整字号"@, "缩放"@],
    }
}

fn appearance_theme_leaf() -> (r: SettingsNavLeaf)
    ensures
        r.view() == appearance_theme_entry(),
{
    let entry: SettingsNavLeaf = leaf(
        "主题与界面",
        NavIcon::Palette,
        SettingsSection::AppearanceTheme,
        &["外观", "主题", "颜色模式", "深色", "暗色", "夜间", "浅色", "亮色", "界面字号", "UI 字号", "界面字体", "字体大小", "调整字号", "缩放"],
    );
    assert(entry.view().keywords =~= appearance_theme_entry().keywords);
    entry
}

/// The entry of this page.
pub open spec fn appearance_terminal_entry() -> LeafView {
    LeafView {
        title: "终端"@,
        icon: NavIcon::SquareTerminal,
        section: SectionView::AppearanceTerminal,
        keywords: seq!["外观"@, "terminal"@, "终端字号"@, "代码字体"@, "等宽字体"@, "字体"@, "字体大小"@, "调整字号"@, "输出"@],
    }
}

fn appearance_terminal_leaf() -> (r: SettingsNavLeaf)
    ensures
        r.view() == appearance_terminal_entry(),
{
    let entry: SettingsNavLeaf = leaf(
        "终端",
        NavIcon::SquareTerminal,
        SettingsSection::AppearanceTerminal,
        &["外观", "terminal", "终端字号", "代码字体", "等宽字体", "字体", "字体大小", "调整字号", "输出"],
    );
    assert(entry.view().keywords =~= appearance_terminal_entry().keywords);
    entry
}

/// The entry of this page.
pub open spec fn appearance_window_entry() -> LeafView {
    LeafView {
        title: "窗口与背景"@,
        icon: NavIcon::GalleryVerticalEnd,
        section: SectionView::AppearanceWindow,
        keywords: seq!["外观"@, "窗口"@, "背景"@, "背景图"@, "背景图片"@, "壁纸"@, "透明"@, "透明度"@, "不透明度"@, "背景透明"@, "标题栏玻璃"@, "玻璃"@, "液态玻璃"@],
    }
}

fn appearance_window_leaf() -> (r: SettingsNavLeaf)
    ensures
        r.view() == appearance_window_entry(),
{
    let entry: SettingsNavLeaf = leaf(
        "窗口与背景",
        NavIcon::GalleryVerticalEnd,
        SettingsSection::AppearanceWindow,
        &["外观", "窗口", "背景", "背景图", "背景图片", "壁纸", "透明", "透明度", "不透明度", "背景透明", "标题栏玻璃", "玻璃", "液态玻璃"],
    );
    assert(entry.view().keywords =~= appearance_window_entry().keywords);
    entry
}

/// The entry of this page.
pub open spec fn shortcuts_entry() -> LeafView {
    LeafView {
        title: "键盘快捷键"@,
        icon: NavIcon::Asterisk,
        section: SectionView::Shortcuts,
        keywords: seq!["快捷键"@, "键盘"@, "按键"@, "组合键"@, "shortcut"@, "keymap"@, "cmd"@, "command"@],
    }
}

fn shortcuts_leaf() -> (r: SettingsNavLeaf)
    ensures
        r.view() == shortcuts_entry(),
{
    let entry: SettingsNavLeaf = leaf(
        "键盘快捷键",
        NavIcon::Asterisk,
        SettingsSection::Shortcuts,
        &["快捷键", "键盘", "按键", "组合键", "shortcut", "keymap", "cmd", "command"],
    );
    assert(entry.view().keywords =~= shortcuts_entry().keywords);
    entry
}

/// The category `General`.
pub open spec fn general_branch() -> CategoryView {
    CategoryView {
        id: SettingsCategoryId::General,
        title: "通用"@,
        keywords: seq!["常规"@, "偏好设置"@],
        default_open: true,
        children: seq![appearance_theme_entry(), appearance_terminal_entry(), appearance_window_entry(), shortcuts_entry()],
    }
}

fn general_category() -> (r: SettingsNavCategory)
    ensures
        r.view() == general_branch(),
{
    let mut children: Vec<SettingsNavLeaf> = Vec::new();
    children.push(appearance_theme_leaf());
    children.push(appearance_terminal_leaf());
    children.push(appearance_window_leaf());
    children.push(shortcuts_leaf());
    let branch: SettingsNavCategory = category(
        SettingsCategoryId::General,
        "通用",
        &["常规", "偏好设置"],
        children,
    );
    assert(branch.view().keywords =~= general_branch().keywords);
    assert(branch.view().children =~= general_branch().children);
    branch
}

/// The entry of this page.
pub open spec fn dsh_model_entry() -> LeafView {
    LeafView {
        title: "DeepSeek Harness"@,
        icon: NavIcon::Cpu,
        section: SectionView::DshModel,
        keywords: seq!["DeepSeek"@, "DSH"@, "Harness"@, "模型"@, "model"@, "凭据"@, "API"@, "API key"@, "API 密钥"@, "API 地址"@, "密钥"@, "token"@, "provider"@, "供应商"@, "网关"@, "endpoint"@, "base url"@, "插件"@],
    }
}

fn dsh_model_leaf() -> (r: SettingsNavLeaf)
    ensures
        r.view() == dsh_model_entry(),
{
    let entry: SettingsNavLeaf = leaf(
        "DeepSeek Harness",
        NavIcon::Cpu,
        SettingsSection::DshModel,
        &["DeepSeek", "DSH", "Harness", "模型", "model", "凭据", "API", "API key", "API 密钥", "API 地址", "密钥", "token", "provider", "供应商", "网关", "endpoint", "base url", "插件"],
    );
    assert(entry.view().keywords =~= dsh_model_entry().keywords);
    entry
}

/// The entry of this page.
pub open spec fn agent_runtime_entry(agent: Seq<char>) -> LeafView {
    LeafView {
        title: "Agent 运行环境"@,
        icon: NavIcon::Bot,
        section: SectionView::AgentRuntime,
        keywords: seq!["Agent"@, "会话"@, "cli"@, "安装"@, "版本"@, "检测"@, "路径"@, agent, "codex"@, "copilot"@, "grok"@, "cursor"@, "opencode"@, "kiro"@, "pi"@],
    }
}

fn agent_runtime_leaf(agent: &str) -> (r: SettingsNavLeaf)
    ensures
        r.view() == agent_runtime_entry(agent@),
{
    let entry: SettingsNavLeaf = leaf(
        "Agent 运行环境",
        NavIcon::Bot,
        SettingsSection::AgentRuntime,
        &["Agent", "会话", "cli", "安装", "版本", "检测", "路径", agent, "codex", "copilot", "grok", "cursor", "opencode", "kiro", "pi"],
    );
    assert(entry.view().keywords =~= agent_runtime_entry(agent@).keywords);
    entry
}

/// The entry of this page.
pub open spec fn agent_launch_entry() -> LeafView {
    LeafView {
        title: "新建与启动"@,
        icon: NavIcon::Play,
        section: SectionView::AgentLaunch,
        keywords: seq!["快捷启动项"@, "启动"@, "launch"@, "命令"@, "+"@, "加号"@, "新建菜单"@, "项目菜单"@, "终端"@],
    }
}

fn agent_launch_leaf() -> (r: SettingsNavLeaf)
    ensures
        r.view() == agent_launch_entry(),
{
    let entry: SettingsNavLeaf = leaf(
        "新建与启动",
        NavIcon::Play,
        SettingsSection::AgentLaunch,
        &["快捷启动项", "启动", "launch", "命令", "+", "加号", "新建菜单", "项目菜单", "终端"],
    );
    assert(entry.view().keywords =~= agent_launch_entry().keywords);
    entry
}

/// The entry of this page.
pub open spec fn agent_workspace_entry() -> LeafView {
    LeafView {
        title: "对话与工作区"@,
        icon: NavIcon::Settings2,
        section: SectionView::AgentWorkspace,
        keywords: seq!["Agent 对话"@, "会话"@, "adapter"@, "适配器"@, "workspace"@, "工作区"@, "启动命令"@, "参数"@, "智能体"@, "预设"@, "prompt"@, "persona"@, "跨 agent"@, "跨agent"@, "mcp"@, "通讯"@, "通信"@, "消息"@],
    }
}

fn agent_workspace_leaf() -> (r: SettingsNavLeaf)
    ensures
        r.view() == agent_workspace_entry(),
{
    let entry: SettingsNavLeaf = leaf(
        "对话与工作区",
        NavIcon::Settings2,
        SettingsSection::AgentWorkspace,
        &["Agent 对话", "会话", "adapter", "适配器", "workspace", "工作区", "启动命令", "参数", "智能体", "预设", "prompt", "persona", "跨 agent", "跨agent", "mcp", "通讯", "通信", "消息"],
    );
    assert(entry.view().keywords =~= agent_workspace_entry().keywords);
    entry
}

/// The entry of this page.
pub open spec fn agent_notify_entry() -> LeafView {
    LeafView {
        title: "通知"@,
        icon: NavIcon::Bell,
        section: SectionView::AgentNotify,
        keywords: seq!["Agent"@, "Agent通知"@, "提醒"@, "notification"@, "等待批准通知"@, "等待输入通知"@, "任务完成通知"@, "任务失败通知"@, "终端响铃通知"@, "审批"@, "批准"@, "输入"@, "完成"@, "失败"@, "响铃"@, "bell"@],
    }
}

fn agent_notify_leaf() -> (r: SettingsNavLeaf)
    ensures
        r.view() == agent_notify_entry(),
{
    let entry: SettingsNavLeaf = leaf(
        "通知",
        NavIcon::Bell,
        SettingsSection::AgentNotify,
        &["Agent", "Agent通知", "提醒", "notification", "等待批准通知", "等待输入通知", "任务完成通知", "任务失败通知", "终端响铃通知", "审批", "批准", "输入", "完成", "失败", "响铃", "bell"],
    );
    assert(entry.view().keywords =~= agent_notify_entry().keywords);
    entry
}

/// The entry of this page.
pub open spec fn agent_hooks_entry() -> LeafView {
    LeafView {
        title: "Agent Hooks"@,
        icon: NavIcon::Network,
        section: SectionView::AgentHooks,
        keywords: seq!["hook"@, "hooks"@, "通知接入"@, "权限接入"@, "配置文件"@],
    }
}

fn agent_hooks_leaf() -> (r: SettingsNavLeaf)
    ensures
        r.view() == agent_hooks_entry(),
{
    let entry: SettingsNavLeaf = leaf(
        "Agent Hooks",
        NavIcon::Network,
        SettingsSection::AgentHooks,
        &["hook", "hooks", "通知接入", "权限接入", "配置文件"],
    );
    assert(entry.view().keywords =~= agent_hooks_entry().keywords);
    entry
}

/// The category `Agent`.
pub open spec fn agent_branch(agent: Seq<char>) -> CategoryView {
    CategoryView {
        id: SettingsCategoryId::Agent,
        title: "模型与 Agent"@,
        keywords: seq!["Agent"@, "智能体"@, "AI"@],
        default_open: true,
        children: seq![dsh_model_entry(), agent_runtime_entry(agent), agent_launch_entry(), agent_workspace_entry(), agent_notify_entry(), agent_hooks_entry()],
    }
}

fn agent_category(agent: &str) -> (r: SettingsNavCategory)
    ensures
        r.view() == agent_branch(agent@),
{
    let mut children: Vec<SettingsNavLeaf> = Vec::new();
    children.push(dsh_model_leaf());
    children.push(agent_runtime_leaf(agent));
    children.push(agent_launch_leaf());
    children.push(agent_workspace_leaf());
    children.push(agent_notify_leaf());
    children.push(agent_hooks_leaf());
    let branch: SettingsNavCategory = category(
        SettingsCategoryId::Agent,
        "模型与 Agent",
        &["Agent", "智能体", "AI"],
        children,
    );
    assert(branch.view().keywords =~= agent_branch(agent@).keywords);
    assert(branch.view().children =~= agent_branch(agent@).children);
    branch
}

/// The entry of this page.
pub open spec fn worktree_entry() -> LeafView {
    LeafView {
        title: "Worktree 文件继承"@,
        icon: NavIcon::FolderOpen,
        section: SectionView::Worktree,
        keywords: seq!["worktree"@, "工作区"@, "文件继承"@, "继承主仓库未跟踪文件"@, "继承"@, "未跟踪"@, "gitignore"@, ".env"@, "软链"@, "跳过"@, "排除"@],
    }
}

fn worktree_leaf() -> (r: SettingsNavLeaf)
    ensures
        r.view() == worktree_entry(),
{
    let entry: SettingsNavLeaf = leaf(
        "Worktree 文件继承",
        NavIcon::FolderOpen,
        SettingsSection::Worktree,
        &["worktree", "工作区", "文件继承", "继承主仓库未跟踪文件", "继承", "未跟踪", "gitignore", ".env", "软链", "跳过", "排除"],
    );
    assert(entry.view().keywords =~= worktree_entry().keywords);
    entry
}

/// The entry of this page.
pub open spec fn collaboration_remote_entry() -> LeafView {
    LeafView {
        title: "手机远程"@,
        icon: NavIcon::Globe,
        section: SectionView::CollaborationRemote,
        keywords: seq!["远程访问"@, "开启远程"@, "Relay 地址"@, "允许远程写入"@, "远程"@, "手机"@, "移动端"@, "配对"@, "二维码"@, "token"@, "iroh"@, "relay"@, "分享"@, "只读"@, "写入"@],
    }
}

fn collaboration_remote_leaf() -> (r: SettingsNavLeaf)
    ensures
        r.view() == collaboration_remote_entry(),
{
    let entry: SettingsNavLeaf = leaf(
        "手机远程",
        NavIcon::Globe,
        SettingsSection::CollaborationRemote,
        &["远程访问", "开启远程", "Relay 地址", "允许远程写入", "远程", "手机", "移动端", "配对", "二维码", "token", "iroh", "relay", "分享", "只读", "写入"],
    );
    assert(entry.view().keywords =~= collaboration_remote_entry().keywords);
    entry
}

/// The category `Workspace`.
pub open spec fn workspace_branch() -> CategoryView {
    CategoryView {
        id: SettingsCategoryId::Workspace,
        title: "工作区与远程"@,
        keywords: seq!["项目"@],
        default_open: true,
        children: seq![worktree_entry(), collaboration_remote_entry()],
    }
}

fn workspace_category() -> (r: SettingsNavCategory)
    ensures
        r.view() == workspace_branch(),
{
    let mut children: Vec<SettingsNavLeaf> = Vec::new();
    children.push(worktree_leaf());
    children.push(collaboration_remote_leaf());
    let branch: SettingsNavCategory = category(
        SettingsCategoryId::Workspace,
        "工作区与远程",
        &["项目"],
        children,
    );
    assert(branch.view().keywords =~= workspace_branch().keywords);
    assert(branch.view().children =~= workspace_branch().children);
    branch
}

/// The entry of this page.
pub open spec fn maintenance_update_entry() -> LeafView {
    LeafView {
        title: "应用更新"@,
        icon: NavIcon::Redo,
        section: SectionView::MaintenanceUpdate,
        keywords: seq!["软件版本"@, "应用版本"@, "版本"@, "更新"@, "检查更新"@, "更新通道"@, "自动下载安装"@, "升级"@, "下载"@, "通道"@, "生产版"@, "内测版"@, "自动更新"@],
    }
}

fn maintenance_update_leaf() -> (r: SettingsNavLeaf)
    ensures
        r.view() == maintenance_update_entry(),
{
    let entry: SettingsNavLeaf = leaf(
        "应用更新",
        NavIcon::Redo,
        SettingsSection::MaintenanceUpdate,
        &["软件版本", "应用版本", "版本", "更新", "检查更新", "更新通道", "自动下载安装", "升级", "下载", "通道", "生产版", "内测版", "自动更新"],
    );
    assert(entry.view().keywords =~= maintenance_update_entry().keywords);
    entry
}

/// The entry of this page.
pub open spec fn maintenance_daemon_entry() -> LeafView {
    LeafView {
        title: "后台服务"@,
        icon: NavIcon::Cpu,
        section: SectionView::MaintenanceDaemon,
        keywords: seq!["smeltd"@, "守护进程"@, "守护"@, "后台"@, "服务"@, "进程"@, "重启"@, "重启守护进程"@, "无缝升级"@, "会话服务"@, "卡死"@],
    }
}

fn maintenance_daemon_leaf() -> (r: SettingsNavLeaf)
    ensures
        r.view() == maintenance_daemon_entry(),
{
    let entry: SettingsNavLeaf = leaf(
        "后台服务",
        NavIcon::Cpu,
        SettingsSection::MaintenanceDaemon,
        &["smeltd", "守护进程", "守护", "后台", "服务", "进程", "重启", "重启守护进程", "无缝升级", "会话服务", "卡死"],
    );
    assert(entry.view().keywords =~= maintenance_daemon_entry().keywords);
    entry
}

/// The entry of this page.
pub open spec fn maintenance_storage_entry() -> LeafView {
    LeafView {
        title: "存储清理"@,
        icon: NavIcon::HardDrive,
        section: SectionView::MaintenanceStorage,
        keywords: seq!["残留数据清理"@, "清理"@, "残留"@, "存储"@, "空间"@, "缓存"@, "清缓存"@, "磁盘"@, "旧数据"@, "历史"@, "~/.smelt"@],
    }
}

fn maintenance_storage_leaf() -> (r: SettingsNavLeaf)
    ensures
        r.view() == maintenance_storage_entry(),
{
    let entry: SettingsNavLeaf = leaf(
        "存储清理",
        NavIcon::HardDrive,
        SettingsSection::MaintenanceStorage,
        &["残留数据清理", "清理", "残留", "存储", "空间", "缓存", "清缓存", "磁盘", "旧数据", "历史", "~/.smelt"],
    );
    assert(entry.view().keywords =~= maintenance_storage_entry().keywords);
    entry
}

/// The category `System`.
pub open spec fn system_branch() -> CategoryView {
    CategoryView {
        id: SettingsCategoryId::System,
        title: "系统"@,
        keywords: seq!["维护"@, "高级"@],
        default_open: true,
        children: seq![maintenance_update_entry(), maintenance_daemon_entry(), maintenance_storage_entry()],
    }
}

fn system_category() -> (r: SettingsNavCategory)
    ensures
        r.view() == system_branch(),
{
    let mut children: Vec<SettingsNavLeaf> = Vec::new();
    children.push(maintenance_update_leaf());
    children.push(maintenance_daemon_leaf());
    children.push(maintenance_storage_leaf());
    let branch: SettingsNavCategory = category(
        SettingsCategoryId::System,
        "系统",
        &["维护", "高级"],
        children,
    );
    assert(branch.view().keywords =~= system_branch().keywords);
    assert(branch.view().children =~= system_branch().children);
    branch
}


/// The entry of the page for installing a plugin.
pub open spec fn install_entry() -> LeafView {
    LeafView {
        title: "安装插件"@,
        icon: NavIcon::Plus,
        section: SectionView::Plugin(seq![]),
        keywords: seq!["安装"@, "插件"@, "install"@],
    }
}

/// The entry of an installed plugin.
pub open spec fn plugin_entry(plugin: InstalledPlugin) -> LeafView {
    LeafView {
        title: plugin.name@,
        icon: NavIcon::Frame,
        section: SectionView::Plugin(plugin.id@),
        keywords: seq![plugin.name@, plugin.id@, "插件"@, "plugin"@],
    }
}

/// The category of plugins: the page for installing one, then those that are installed.
pub open spec fn plugins_branch(plugins: Seq<InstalledPlugin>) -> CategoryView {
    CategoryView {
        id: SettingsCategoryId::Plugins,
        title: "插件"@,
        keywords: seq!["扩展"@, "plugin"@],
        default_open: true,
        children: seq![install_entry()] + plugins.map_values(
            |plugin: InstalledPlugin| plugin_entry(plugin),
        ),
    }
}

/// The sidebar of the settings window. `agent` is the name of the first agent.
pub open spec fn main_nav(plugins: Seq<InstalledPlugin>, agent: Seq<char>) -> Seq<CategoryView> {
    seq![
        general_branch(),
        agent_branch(agent),
        workspace_branch(),
        plugins_branch(plugins),
        system_branch(),
    ]
}

/// The sidebar of the agent's settings window.
pub open spec fn setup_nav() -> Seq<CategoryView> {
    seq![setup_agent_branch()]
}

/// The sidebar has an entry for the page.
pub open spec fn has_page(nav: Seq<CategoryView>, section: SectionView) -> bool {
    exists|i: int, j: int| is_page_at(nav, section, i, j)
}

/// The entry `j` of the category `i` is for the page.
pub open spec fn is_page_at(
    nav: Seq<CategoryView>,
    section: SectionView,
    i: int,
    j: int,
) -> bool {
    0 <= i < nav.len() && 0 <= j < nav[i].children.len() && nav[i].children[j].section == section
}

fn plugin_leaf(plugin: &InstalledPlugin) -> (r: SettingsNavLeaf)
    ensures
        r.view() == plugin_entry(*plugin),
{
    let mut keywords: Vec<String> = Vec::new();
    keywords.push(plugin.name.clone());
    keywords.push(plugin.id.clone());
    keywords.push("插件".to_owned());
    keywords.push("plugin".to_owned());
    assert(text::texts(keywords@) =~= plugin_entry(*plugin).keywords);
    SettingsNavLeaf {
        title: plugin.name.clone(),
        icon: NavIcon::Frame,
        section: SettingsSection::Plugin { id: plugin.id.clone() },
        keywords,
    }
}

fn plugin_category(plugins: &Vec<InstalledPlugin>) -> (r: SettingsNavCategory)
    ensures
        r.view() == plugins_branch(plugins@),
{
    let ghost entries = plugins_branch(plugins@).children;
    let mut children: Vec<SettingsNavLeaf> = Vec::new();
    let first: SettingsNavLeaf = leaf(
        "安装插件",
        NavIcon::Plus,
        SettingsSection::Plugin { id: String::new() },
        &["安装", "插件", "install"],
    );
    assert(first.view().keywords =~= install_entry().keywords);
    children.push(first);
    let mut i: usize = 0;
    while i < plugins.len()
        invariant
            entries == plugins_branch(plugins@).children,
            i <= plugins.len(),
            children@.len() == i + 1,
            forall|k: int| 0 <= k <= i ==> (#[trigger] children@[k]).view() == entries[k],
        decreases plugins.len() - i,
    {
        children.push(plugin_leaf(&plugins[i]));
        i = i + 1;
    }
    let branch: SettingsNavCategory = category(
        SettingsCategoryId::Plugins,
        "插件",
        &["扩展", "plugin"],
        children,
    );
    assert(branch.view().keywords =~= plugins_branch(plugins@).keywords);
    assert(branch.view().children =~= entries);
    branch
}

/// The sidebar of the settings window. Its plugins are the installed ones, and `agent` is the
/// name of the first agent.
pub fn settings_nav(plugins: &Vec<InstalledPlugin>, agent: &str) -> (r: Vec<SettingsNavCategory>)
    ensures
        nav_views(r@) == main_nav(plugins@, agent@),
{
    let mut nav: Vec<SettingsNavCategory> = Vec::new();
    nav.push(general_category());
    nav.push(agent_category(agent));
    nav.push(workspace_category());
    nav.push(plugin_category(plugins));
    nav.push(system_category());
    assert(nav_views(nav@) =~= main_nav(plugins@, agent@));
    nav
}

/// The sidebar of the agent's settings window: what has to be set up before it can run.
pub fn agent_setup_nav() -> (r: Vec<SettingsNavCategory>)
    ensures
        nav_views(r@) == setup_nav(),
{
    let mut nav: Vec<SettingsNavCategory> = Vec::new();
    nav.push(setup_agent_category());
    assert(nav_views(nav@) =~= setup_nav());
    nav
}

/// Whether the sidebar has an entry for the page.
pub fn nav_contains(nav: &Vec<SettingsNavCategory>, section: &SettingsSection) -> (r: bool)
    ensures
        r == has_page(nav_views(nav@), section.view()),
{
    let ghost all = nav_views(nav@);
    let ghost wanted = section.view();
    let mut i: usize = 0;
    while i < nav.len()
        invariant
            all == nav_views(nav@),
            wanted == section.view(),
            i <= nav.len(),
            forall|a: int, b: int| 0 <= a < i ==> !is_page_at(all, wanted, a, b),
        decreases nav.len() - i,
    {
        let mut j: usize = 0;
        while j < nav[i].children.len()
            invariant
                all == nav_views(nav@),
                wanted == section.view(),
                i < nav.len(),
                j <= nav@[i as int].children@.len(),
                forall|b: int| 0 <= b < j ==> !is_page_at(all, wanted, i as int, b),
            decreases nav@[i as int].children@.len() - j,
        {
            assert(all[i as int].children[j as int] == nav@[i as int].children@[j as int].view());
            if nav[i].children[j].section.is_same(section) {
                assert(is_page_at(all, wanted, i as int, j as int));
                return true;
            }
            j = j + 1;
        }
        i = i + 1;
    }
    false
}

/// Which pages a settings window is for.
#[derive(Clone, Copy, Debug, PartialEq, Eq, Hash, Default, Structural)]
pub enum SettingsScope {
    /// All settings.
    #[default]
    All,
    /// What an agent needs before it can run.
    AgentSetup,
}

/// The sidebar of a window. `agent` is the name of the first agent.
pub open spec fn nav_of(
    scope: SettingsScope,
    plugins: Seq<InstalledPlugin>,
    agent: Seq<char>,
) -> Seq<CategoryView> {
    match scope {
        SettingsScope::All => main_nav(plugins, agent),
        SettingsScope::AgentSetup => setup_nav(),
    }
}

/// The page that a window falls back to.
pub open spec fn fallback_of(scope: SettingsScope) -> SectionView {
    match scope {
        SettingsScope::All => SectionView::AppearanceTheme,
        SettingsScope::AgentSetup => SectionView::PiModel,
    }
}

impl SettingsScope {
    /// The title of the window.
    pub fn window_title(self) -> (r: &'static str)
        ensures
            r@ == match self {
                SettingsScope::All => "设置"@,
                SettingsScope::AgentSetup => "智能体设置"@,
            },
    {
        match self {
            SettingsScope::All => "设置",
            SettingsScope::AgentSetup => "智能体设置",
        }
    }

    /// The page to show where the wanted one does not belong to the window. The window has it.
    pub fn default_section(self) -> (r: SettingsSection)
        ensures
            r.view() == fallback_of(self),
            has_page(nav_of(self, seq![], seq![]), r.view()),
    {
        proof {
            fallback_belongs_to_the_window(self, seq![], seq![]);
        }
        match self {
            SettingsScope::All => SettingsSection::AppearanceTheme,
            SettingsScope::AgentSetup => SettingsSection::PiModel,
        }
    }

    /// The sidebar of the window.
    pub fn nav(self, plugins: &Vec<InstalledPlugin>, agent: &str) -> (r: Vec<SettingsNavCategory>)
        ensures
            nav_views(r@) == nav_of(self, plugins@, agent@),
    {
        match self {
            SettingsScope::All => settings_nav(plugins, agent),
            SettingsScope::AgentSetup => agent_setup_nav(),
        }
    }

    /// Whether the page belongs to the window, whatever plugins are installed. Which pages there
    /// are does not depend on the name of the first agent.
    pub fn contains(self, section: &SettingsSection) -> (r: bool)
        ensures
            r == has_page(nav_of(self, seq![], seq![]), section.view()),
    {
        let none: Vec<InstalledPlugin> = Vec::new();
        assert(none@ =~= seq![]);
        proof {
            reveal_strlit("");
            assert(""@ =~= seq![]);
        }
        let nav: Vec<SettingsNavCategory> = self.nav(&none, "");
        nav_contains(&nav, section)
    }
}

/// Every window has the page that it falls back to.
pub proof fn fallback_belongs_to_the_window(
    scope: SettingsScope,
    plugins: Seq<InstalledPlugin>,
    agent: Seq<char>,
)
    ensures
        has_page(nav_of(scope, plugins, agent), fallback_of(scope)),
{
    match scope {
        SettingsScope::All => {
            assert(is_page_at(main_nav(plugins, agent), SectionView::AppearanceTheme, 0, 0));
        },
        SettingsScope::AgentSetup => {
            assert(is_page_at(setup_nav(), SectionView::PiModel, 0, 0));
        },
    }
}

/// The pages for setting an agent up are in its own window alone.
pub proof fn setup_pages_are_not_shown_twice(plugins: Seq<InstalledPlugin>, agent: Seq<char>)
    ensures
        !has_page(main_nav(plugins, agent), SectionView::PiModel),
        !has_page(main_nav(plugins, agent), SectionView::PiPlugins),
        has_page(setup_nav(), SectionView::PiModel),
        has_page(setup_nav(), SectionView::PiPlugins),
{
    let nav = main_nav(plugins, agent);
    assert(is_page_at(setup_nav(), SectionView::PiModel, 0, 0));
    assert(is_page_at(setup_nav(), SectionView::PiPlugins, 0, 1));
    assert forall|i: int, j: int| !is_page_at(nav, SectionView::PiModel, i, j) && !is_page_at(
        nav,
        SectionView::PiPlugins,
        i,
        j,
    ) by {
        if i == 3 && 0 < j < nav[3].children.len() {
            assert(nav[3].children[j] == plugin_entry(plugins[j - 1]));
        }
    }
}

/// Every category of every window is open and has entries.
pub proof fn categories_are_open_branches(
    scope: SettingsScope,
    plugins: Seq<InstalledPlugin>,
    agent: Seq<char>,
    i: int,
)
    requires
        0 <= i < nav_of(scope, plugins, agent).len(),
    ensures
        nav_of(scope, plugins, agent)[i].default_open,
        nav_of(scope, plugins, agent)[i].children.len() > 0,
{
}

/// A title or a keyword of the category is the query, whatever the case.
pub open spec fn names_category(category: CategoryView, query: Seq<char>) -> bool {
    search::lowercase(category.title) == search::lowercase(query) || exists|i: int|
        0 <= i < category.keywords.len() && search::lowercase(#[trigger] category.keywords[i])
            == search::lowercase(query)
}

/// The title and the keywords of an entry.
pub open spec fn leaf_values(leaf: LeafView) -> Seq<Seq<char>> {
    seq![leaf.title] + leaf.keywords
}

/// The title and the keywords of a category.
pub open spec fn category_values(category: CategoryView) -> Seq<Seq<char>> {
    seq![category.title] + category.keywords
}

/// The entry is found: every word of the query in its category or itself, and some word in
/// itself. All entries of a category that the query names are found.
pub open spec fn leaf_found(category: CategoryView, leaf: LeafView, query: Seq<char>) -> bool {
    names_category(category, query) || (search::query_found(
        category_values(category) + leaf_values(leaf),
        search::terms(query),
    ) && search::any_found(leaf_values(leaf), search::terms(query)))
}

/// The category with the entries that are found.
pub open spec fn narrowed(category: CategoryView, query: Seq<char>) -> CategoryView {
    CategoryView {
        children: category.children.filter(
            |leaf: LeafView| leaf_found(category, leaf, query),
        ),
        ..category
    }
}

/// The sidebar with the entries that are found, and the categories that have some.
pub open spec fn filtered(nav: Seq<CategoryView>, query: Seq<char>) -> Seq<CategoryView> {
    if text::trimmed(query).len() == 0 {
        nav
    } else {
        nav.map_values(|category: CategoryView| narrowed(category, text::trimmed(query))).filter(
            |category: CategoryView| category.children.len() > 0,
        )
    }
}

fn category_matches_exact(category: &SettingsNavCategory, query: &str) -> (r: bool)
    ensures
        r == names_category(category.view(), query@),
{
    let wanted: String = folded(query);
    if same_text(folded(category.title.as_str()).as_str(), wanted.as_str()) {
        return true;
    }
    let ghost keywords = category.view().keywords;
    let mut i: usize = 0;
    while i < category.keywords.len()
        invariant
            keywords == category.view().keywords,
            wanted@ == search::lowercase(query@),
            search::lowercase(category.view().title) != search::lowercase(query@),
            i <= category.keywords.len(),
            forall|k: int|
                0 <= k < i ==> search::lowercase(#[trigger] keywords[k]) != search::lowercase(
                    query@,
                ),
        decreases category.keywords.len() - i,
    {
        assert(keywords[i as int] == category.keywords@[i as int]@);
        if same_text(folded(category.keywords[i].as_str()).as_str(), wanted.as_str()) {
            return true;
        }
        i = i + 1;
    }
    false
}

fn with_keywords(title: &String, keywords: &Vec<String>) -> (r: Vec<String>)
    ensures
        text::texts(r@) == seq![title@] + text::texts(keywords@),
{
    let mut out: Vec<String> = Vec::new();
    out.push(title.clone());
    let mut rest: Vec<String> = copied_texts(keywords);
    let ghost before = rest@;
    out.append(&mut rest);
    assert(text::texts(out@) =~= seq![title@] + text::texts(before));
    out
}

fn is_leaf_found(
    category: &SettingsNavCategory,
    leaf: &SettingsNavLeaf,
    terms: &Vec<String>,
) -> (r: bool)
    ensures
        r == (search::query_found(
            category_values(category.view()) + leaf_values(leaf.view()),
            text::texts(terms@),
        ) && search::any_found(leaf_values(leaf.view()), text::texts(terms@))),
{
    let own: Vec<String> = with_keywords(&leaf.title, &leaf.keywords);
    let mut all: Vec<String> = with_keywords(&category.title, &category.keywords);
    let mut more: Vec<String> = copied_texts(&own);
    let ghost before = all@;
    let ghost behind = more@;
    all.append(&mut more);
    assert(text::texts(all@) =~= text::texts(before) + text::texts(behind));
    matches_query(&all, terms) && matches_any_term(&own, terms)
}

fn narrow(category: &SettingsNavCategory, query: &str, terms: &Vec<String>) -> (r:
    SettingsNavCategory)
    requires
        text::texts(terms@) == search::terms(query@),
    ensures
        r.view() == narrowed(category.view(), query@),
{
    let whole: bool = category_matches_exact(category, query);
    let ghost view = category.view();
    let ghost all = leaf_views(category.children@);
    let ghost keep = |leaf: LeafView| leaf_found(view, leaf, query@);
    let mut children: Vec<SettingsNavLeaf> = Vec::new();
    let mut i: usize = 0;
    proof {
        reveal(Seq::filter);
        assert(all.take(0) =~= seq![]);
        assert(leaf_views(children@) =~= seq![]);
    }
    while i < category.children.len()
        invariant
            text::texts(terms@) == search::terms(query@),
            view == category.view(),
            whole == names_category(view, query@),
            all == leaf_views(category.children@),
            keep == (|leaf: LeafView| leaf_found(view, leaf, query@)),
            i <= category.children.len(),
            leaf_views(children@) == all.take(i as int).filter(keep),
        decreases category.children.len() - i,
    {
        proof {
            reveal(Seq::filter);
            assert(all.take(i + 1).drop_last() =~= all.take(i as int));
            assert(all[i as int] == category.children@[i as int].view());
        }
        if whole || is_leaf_found(category, &category.children[i], terms) {
            let ghost before = children@;
            let copy: SettingsNavLeaf = category.children[i].clone();
            children.push(copy);
            assert(leaf_views(children@) =~= leaf_views(before).push(copy.view()));
        }
        i = i + 1;
    }
    assert(all.take(i as int) =~= all);
    SettingsNavCategory {
        id: category.id,
        title: category.title.clone(),
        keywords: copied_texts(&category.keywords),
        default_open: category.default_open,
        children,
    }
}

/// The sidebar with the entries that a query finds. A blank query finds everything.
pub fn filter_settings_nav(nav: &Vec<SettingsNavCategory>, query: &str) -> (r: Vec<
    SettingsNavCategory,
>)
    ensures
        nav_views(r@) == filtered(nav_views(nav@), query@),
{
    let wanted: String = trim(query);
    let ghost all = nav_views(nav@);
    let mut out: Vec<SettingsNavCategory> = Vec::new();
    let mut i: usize = 0;
    if wanted.as_str().is_empty() {
        while i < nav.len()
            invariant
                all == nav_views(nav@),
                i <= nav.len(),
                out@.len() == i,
                forall|k: int| 0 <= k < i ==> (#[trigger] out@[k]).view() == nav@[k].view(),
            decreases nav.len() - i,
        {
            out.push(nav[i].clone());
            i = i + 1;
        }
        assert(nav_views(out@) =~= all);
        return out;
    }
    let terms: Vec<String> = query_terms(wanted.as_str());
    let ghost shrink = |category: CategoryView| narrowed(category, wanted@);
    let ghost keep = |category: CategoryView| category.children.len() > 0;
    let ghost narrow_all = all.map_values(shrink);
    proof {
        reveal(Seq::filter);
        assert(narrow_all.take(0) =~= seq![]);
        assert(nav_views(out@) =~= seq![]);
    }
    while i < nav.len()
        invariant
            text::texts(terms@) == search::terms(wanted@),
            all == nav_views(nav@),
            shrink == (|category: CategoryView| narrowed(category, wanted@)),
            keep == (|category: CategoryView| category.children.len() > 0),
            narrow_all == all.map_values(shrink),
            i <= nav.len(),
            nav_views(out@) == narrow_all.take(i as int).filter(keep),
        decreases nav.len() - i,
    {
        let found: SettingsNavCategory = narrow(&nav[i], wanted.as_str(), &terms);
        proof {
            reveal(Seq::filter);
            assert(narrow_all.take(i + 1).drop_last() =~= narrow_all.take(i as int));
            assert(narrow_all[i as int] == found.view());
            assert(found.view().children.len() == found.children@.len());
        }
        if found.children.len() > 0 {
            let ghost before = out@;
            out.push(found);
            assert(nav_views(out@) =~= nav_views(before).push(found.view()));
        }
        i = i + 1;
    }
    assert(narrow_all.take(i as int) =~= narrow_all);
    out
}

/// A search shows no category without entries, and no entry that the sidebar does not have.
pub proof fn search_only_narrows(
    nav: Seq<CategoryView>,
    query: Seq<char>,
    section: SectionView,
)
    ensures
        has_page(filtered(nav, query), section) ==> has_page(nav, section),
        text::trimmed(query).len() > 0 ==> forall|i: int|
            0 <= i < filtered(nav, query).len() ==> (#[trigger] filtered(
                nav,
                query,
            )[i]).children.len() > 0,
{
    if text::trimmed(query).len() > 0 {
        let wanted = text::trimmed(query);
        let narrow_all = nav.map_values(|category: CategoryView| narrowed(category, wanted));
        let keep = |category: CategoryView| category.children.len() > 0;
        let out = filtered(nav, query);
        assert forall|i: int| 0 <= i < out.len() implies keep(#[trigger] out[i])
            && narrow_all.contains(out[i]) by {
            lemma_filtered_element(narrow_all, keep, i);
        }
        if has_page(out, section) {
            let (i, j) = choose|i: int, j: int| is_page_at(out, section, i, j);
            assert(narrow_all.contains(out[i]));
            let at = choose|k: int| 0 <= k < narrow_all.len() && narrow_all[k] == out[i];
            let found = |leaf: LeafView| leaf_found(nav[at], leaf, wanted);
            lemma_filtered_leaf(nav[at].children, found, j);
            let b = choose|b: int|
                0 <= b < nav[at].children.len() && nav[at].children[b] == out[i].children[j];
            assert(is_page_at(nav, section, at, b));
        }
    }
}

proof fn lemma_filtered_element(
    items: Seq<CategoryView>,
    keep: spec_fn(CategoryView) -> bool,
    i: int,
)
    requires
        0 <= i < items.filter(keep).len(),
    ensures
        keep(items.filter(keep)[i]),
        items.contains(items.filter(keep)[i]),
    decreases items.len(),
{
    reveal(Seq::filter);
    if items.len() > 0 {
        let init = items.drop_last();
        if i < init.filter(keep).len() {
            lemma_filtered_element(init, keep, i);
            let k = choose|k: int| 0 <= k < init.len() && init[k] == init.filter(keep)[i];
            assert(items[k] == items.filter(keep)[i]);
        } else {
            assert(items[items.len() - 1] == items.filter(keep)[i]);
        }
    }
}

proof fn lemma_filtered_leaf(items: Seq<LeafView>, keep: spec_fn(LeafView) -> bool, i: int)
    requires
        0 <= i < items.filter(keep).len(),
    ensures
        keep(items.filter(keep)[i]),
        items.contains(items.filter(keep)[i]),
    decreases items.len(),
{
    reveal(Seq::filter);
    if items.len() > 0 {
        let init = items.drop_last();
        if i < init.filter(keep).len() {
            lemma_filtered_leaf(init, keep, i);
            let k = choose|k: int| 0 <= k < init.len() && init[k] == init.filter(keep)[i];
            assert(items[k] == items.filter(keep)[i]);
        } else {
            assert(items[items.len() - 1] == items.filter(keep)[i]);
        }
    }
}

spec fn mark(key: Seq<char>) -> (nat, char, char, char) {
    (key.len(), key[0], key[1], key[key.len() - 1])
}

/// Different pages have different keys.
pub proof fn keys_identify_pages(one: SectionView, two: SectionView)
    requires
        key_of(one) == key_of(two),
    ensures
        one == two,
{
    reveal_strlit("plugin:");
    reveal_strlit("appearance-theme");
    reveal_strlit("appearance-terminal");
    reveal_strlit("appearance-window");
    reveal_strlit("dsh-model");
    reveal_strlit("pi-model");
    reveal_strlit("pi-plugins");
    reveal_strlit("agent-runtime");
    reveal_strlit("agent-launch");
    reveal_strlit("agent-workspace");
    reveal_strlit("agent-notify");
    reveal_strlit("agent-hooks");
    reveal_strlit("worktree");
    reveal_strlit("collaboration-remote");
    reveal_strlit("maintenance-update");
    reveal_strlit("maintenance-daemon");
    reveal_strlit("maintenance-storage");
    reveal_strlit("shortcuts");
    assert(mark("appearance-theme"@) == (16nat, 'a', 'p', 'e'));
    assert(mark("appearance-terminal"@) == (19nat, 'a', 'p', 'l'));
    assert(mark("appearance-window"@) == (17nat, 'a', 'p', 'w'));
    assert(mark("dsh-model"@) == (9nat, 'd', 's', 'l'));
    assert(mark("pi-model"@) == (8nat, 'p', 'i', 'l'));
    assert(mark("pi-plugins"@) == (10nat, 'p', 'i', 's'));
    assert(mark("agent-runtime"@) == (13nat, 'a', 'g', 'e'));
    assert(mark("agent-launch"@) == (12nat, 'a', 'g', 'h'));
    assert(mark("agent-workspace"@) == (15nat, 'a', 'g', 'e'));
    assert(mark("agent-notify"@) == (12nat, 'a', 'g', 'y'));
    assert(mark("agent-hooks"@) == (11nat, 'a', 'g', 's'));
    assert(mark("worktree"@) == (8nat, 'w', 'o', 'e'));
    assert(mark("collaboration-remote"@) == (20nat, 'c', 'o', 'e'));
    assert(mark("maintenance-update"@) == (18nat, 'm', 'a', 'e'));
    assert(mark("maintenance-daemon"@) == (18nat, 'm', 'a', 'n'));
    assert(mark("maintenance-storage"@) == (19nat, 'm', 'a', 'e'));
    assert(mark("shortcuts"@) == (9nat, 's', 'h', 's'));
    if one is Plugin {
        assert(key_of(one)[0] == 'p' && key_of(one)[1] == 'l');
    }
    if two is Plugin {
        assert(key_of(two)[0] == 'p' && key_of(two)[1] == 'l');
    }
    if one is Plugin && two is Plugin {
        let a = one->Plugin_0;
        let b = two->Plugin_0;
        assert(key_of(one).skip(7) =~= a);
        assert(key_of(two).skip(7) =~= b);
    }
}

} // verus!
