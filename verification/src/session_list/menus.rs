//! The menus of the list.

use vstd::prelude::*;

use crate::session_list::quota::QuotaColor;
use crate::session_list::row::{plugin_session_action_icon, RowIcon, SessionActionIcon};
use crate::session_list::sidebar::{SidebarGrouping, SidebarState};
use crate::text;
use crate::text::{concat, decimal_text, trim};

verus! {

/// What an entry of a menu does. Actions and accounts are told by their positions.
#[derive(Clone, Copy, Debug, PartialEq, Eq, Structural)]
pub enum MenuCommand {
    RunAction(usize),
    CopyPath,
    CopyBranch,
    ListWorktrees,
    NewWorktree,
    TogglePinned,
    ToggleFileTree,
    CloseProject,
    DeleteWorktree,
    Rename,
    CopySessionId,
    ForceRestart,
    CloseSession,
    GroupBy(SidebarGrouping),
    OpenHelp,
    OpenFeedback,
    CheckForUpdates,
    RunAccountAction(usize, usize),
    OpenAccountSettings(usize),
    OpenSettings,
}

/// What opens beside an entry of a menu.
#[derive(Clone, Copy, Debug, PartialEq, Eq, Structural)]
pub enum Submenu {
    OpenWith,
    Worktrees,
}

/// An entry of a menu.
#[derive(Debug, PartialEq, Eq)]
pub enum MenuEntry {
    Item { label: String, icon: Option<RowIcon>, command: MenuCommand },
    Heading(String),
    Separator,
    Submenu { label: String, icon: RowIcon, submenu: Submenu },
}

/// An entry of a menu, as characters.
pub enum EntryView {
    Item { label: Seq<char>, icon: Option<RowIcon>, command: MenuCommand },
    Heading(Seq<char>),
    Separator,
    Submenu { label: Seq<char>, icon: RowIcon, submenu: Submenu },
}

impl MenuEntry {
    pub open spec fn view(&self) -> EntryView {
        match *self {
            MenuEntry::Item { label, icon, command } => EntryView::Item {
                label: label@,
                icon,
                command,
            },
            MenuEntry::Heading(label) => EntryView::Heading(label@),
            MenuEntry::Separator => EntryView::Separator,
            MenuEntry::Submenu { label, icon, submenu } => EntryView::Submenu {
                label: label@,
                icon,
                submenu,
            },
        }
    }
}

/// The entries of a menu, as characters.
pub open spec fn entry_views(entries: Seq<MenuEntry>) -> Seq<EntryView> {
    entries.map_values(|entry: MenuEntry| entry.view())
}

/// An entry that does something.
pub open spec fn item(label: Seq<char>, icon: Option<RowIcon>, command: MenuCommand) -> EntryView {
    EntryView::Item { label, icon, command }
}

fn push_entry(menu: &mut Vec<MenuEntry>, entry: MenuEntry)
    ensures
        entry_views(final(menu)@) == entry_views(old(menu)@).push(entry.view()),
{
    menu.push(entry);
    assert(entry_views(menu@) =~= entry_views(old(menu)@).push(entry.view()));
}

fn push_item(menu: &mut Vec<MenuEntry>, label: &str, icon: Option<RowIcon>, command: MenuCommand)
    ensures
        entry_views(final(menu)@) == entry_views(old(menu)@).push(item(label@, icon, command)),
{
    push_entry(menu, MenuEntry::Item { label: label.to_owned(), icon, command });
}

/// An action that a plugin brings.
#[derive(Debug, PartialEq, Eq)]
pub struct PluginAction {
    pub title: String,
    pub icon: Option<SessionActionIcon>,
}

/// The picture beside an action of a plugin.
pub open spec fn action_icon(icon: Option<SessionActionIcon>) -> Option<RowIcon> {
    match icon {
        Some(SessionActionIcon::Check) => Some(RowIcon::Check),
        Some(SessionActionIcon::ExternalLink) => Some(RowIcon::ExternalLink),
        None => None,
    }
}

/// The entries for actions of plugins.
pub open spec fn action_entries(actions: Seq<PluginAction>) -> Seq<EntryView> {
    Seq::new(
        actions.len(),
        |i: int|
            item(actions[i].title@, action_icon(actions[i].icon), MenuCommand::RunAction(i as usize)),
    )
}

fn push_actions(menu: &mut Vec<MenuEntry>, actions: &Vec<PluginAction>)
    ensures
        entry_views(final(menu)@) == entry_views(old(menu)@) + action_entries(actions@),
{
    let ghost before = entry_views(menu@);
    let ghost all = action_entries(actions@);
    let mut i: usize = 0;
    assert(before + all.take(0) =~= before);
    while i < actions.len()
        invariant
            all == action_entries(actions@),
            i <= actions.len(),
            entry_views(menu@) == before + all.take(i as int),
        decreases actions.len() - i,
    {
        let icon: Option<RowIcon> = plugin_session_action_icon(actions[i].icon);
        push_item(menu, actions[i].title.as_str(), icon, MenuCommand::RunAction(i));
        i = i + 1;
        assert(entry_views(menu@) =~= before + all.take(i as int));
    }
    assert(all.take(i as int) =~= all);
}

/// What the menu of a project depends on. Without something to run actions on, there are no
/// actions.
#[derive(Debug, PartialEq, Eq)]
pub struct ProjectMenu {
    pub actions: Option<Vec<PluginAction>>,
    pub has_branch: bool,
    pub pinned: bool,
    pub in_file_tree: bool,
    pub session_count: usize,
    pub is_worktree: bool,
}

/// What closing a project is called. It says how many sessions are closed with it.
pub open spec fn close_text(session_count: nat) -> Seq<char> {
    if session_count > 0 {
        "关闭项目（含 "@ + text::decimal(session_count) + " 个会话）"@
    } else {
        "关闭项目"@
    }
}

/// The entries for actions of plugins at the top of the menu of a project.
pub open spec fn leading_actions(actions: Option<Vec<PluginAction>>) -> Seq<EntryView> {
    match actions {
        Some(actions) if actions@.len() > 0 => action_entries(actions@).push(EntryView::Separator),
        _ => seq![],
    }
}

/// The entries of the menu of a project for opening it elsewhere and copying its names.
pub open spec fn copy_entries(has_branch: bool) -> Seq<EntryView> {
    let entries = seq![
        EntryView::Submenu {
            label: "用其他应用打开"@,
            icon: RowIcon::ExternalLink,
            submenu: Submenu::OpenWith,
        },
        item("复制项目路径"@, Some(RowIcon::Copy), MenuCommand::CopyPath),
    ];
    if has_branch {
        entries.push(item("复制分支名"@, Some(RowIcon::Copy), MenuCommand::CopyBranch))
    } else {
        entries
    }
}

/// The entries of the menu of a project for what it has of its own.
pub open spec fn project_entries(pinned: bool, in_file_tree: bool, session_count: nat) -> Seq<
    EntryView,
> {
    seq![
        EntryView::Separator,
        EntryView::Submenu {
            label: "Worktree"@,
            icon: RowIcon::HardDrive,
            submenu: Submenu::Worktrees,
        },
        EntryView::Separator,
        item(
            if pinned {
                "取消置顶"@
            } else {
                "置顶"@
            },
            Some(RowIcon::Star),
            MenuCommand::TogglePinned,
        ),
        item(
            if in_file_tree {
                "从文件树移除"@
            } else {
                "加到文件树"@
            },
            Some(RowIcon::Folder),
            MenuCommand::ToggleFileTree,
        ),
        EntryView::Separator,
        item(close_text(session_count), Some(RowIcon::CircleX), MenuCommand::CloseProject),
    ]
}

/// The entries of the menu of a worktree for deleting it.
pub open spec fn delete_entries(is_worktree: bool) -> Seq<EntryView> {
    if is_worktree {
        seq![
            EntryView::Separator,
            item("删除 Worktree"@, Some(RowIcon::Delete), MenuCommand::DeleteWorktree),
        ]
    } else {
        seq![]
    }
}

/// The menu of a project.
pub open spec fn project_menu_of(menu: ProjectMenu) -> Seq<EntryView> {
    leading_actions(menu.actions) + copy_entries(menu.has_branch) + project_entries(
        menu.pinned,
        menu.in_file_tree,
        menu.session_count as nat,
    ) + delete_entries(menu.is_worktree)
}

fn push_leading_actions(menu: &mut Vec<MenuEntry>, actions: &Option<Vec<PluginAction>>)
    ensures
        entry_views(final(menu)@) == entry_views(old(menu)@) + leading_actions(*actions),
{
    let ghost before = entry_views(menu@);
    if let Some(actions) = actions {
        push_actions(menu, actions);
        if actions.len() > 0 {
            push_entry(menu, MenuEntry::Separator);
        }
    }
    assert(entry_views(menu@) =~= before + leading_actions(*actions));
}

fn push_copy_entries(menu: &mut Vec<MenuEntry>, has_branch: bool)
    ensures
        entry_views(final(menu)@) == entry_views(old(menu)@) + copy_entries(has_branch),
{
    let ghost before = entry_views(menu@);
    push_entry(
        menu,
        MenuEntry::Submenu {
            label: "用其他应用打开".to_owned(),
            icon: RowIcon::ExternalLink,
            submenu: Submenu::OpenWith,
        },
    );
    push_item(menu, "复制项目路径", Some(RowIcon::Copy), MenuCommand::CopyPath);
    if has_branch {
        push_item(menu, "复制分支名", Some(RowIcon::Copy), MenuCommand::CopyBranch);
    }
    assert(entry_views(menu@) =~= before + copy_entries(has_branch));
}

fn push_project_entries(
    menu: &mut Vec<MenuEntry>,
    pinned: bool,
    in_file_tree: bool,
    session_count: usize,
)
    ensures
        entry_views(final(menu)@) == entry_views(old(menu)@) + project_entries(
            pinned,
            in_file_tree,
            session_count as nat,
        ),
{
    let ghost before = entry_views(menu@);
    push_entry(menu, MenuEntry::Separator);
    push_entry(
        menu,
        MenuEntry::Submenu {
            label: "Worktree".to_owned(),
            icon: RowIcon::HardDrive,
            submenu: Submenu::Worktrees,
        },
    );
    push_entry(menu, MenuEntry::Separator);
    let pin_label: &str = if pinned {
        "取消置顶"
    } else {
        "置顶"
    };
    push_item(menu, pin_label, Some(RowIcon::Star), MenuCommand::TogglePinned);
    let tree_label: &str = if in_file_tree {
        "从文件树移除"
    } else {
        "加到文件树"
    };
    push_item(menu, tree_label, Some(RowIcon::Folder), MenuCommand::ToggleFileTree);
    push_entry(menu, MenuEntry::Separator);
    let close_label: String = close_project_label(session_count);
    push_item(menu, close_label.as_str(), Some(RowIcon::CircleX), MenuCommand::CloseProject);
    assert(entry_views(menu@) =~= before + project_entries(
        pinned,
        in_file_tree,
        session_count as nat,
    ));
}

/// The menu of a project.
pub fn project_menu(project: &ProjectMenu) -> (r: Vec<MenuEntry>)
    ensures
        entry_views(r@) == project_menu_of(*project),
{
    let mut menu: Vec<MenuEntry> = Vec::new();
    assert(entry_views(menu@) =~= seq![]);
    push_leading_actions(&mut menu, &project.actions);
    assert(entry_views(menu@) =~= leading_actions(project.actions));
    push_copy_entries(&mut menu, project.has_branch);
    push_project_entries(
        &mut menu,
        project.pinned,
        project.in_file_tree,
        project.session_count,
    );
    let ghost closing = entry_views(menu@);
    if project.is_worktree {
        push_entry(&mut menu, MenuEntry::Separator);
        push_item(&mut menu, "删除 Worktree", Some(RowIcon::Delete), MenuCommand::DeleteWorktree);
    }
    assert(entry_views(menu@) =~= closing + delete_entries(project.is_worktree));
    menu
}

/// The menu of the header of a group. Only where the list is grouped by project does a header
/// stand for one; any other has an empty menu.
pub fn header_menu(state: &SidebarState, project: &ProjectMenu) -> (r: Vec<MenuEntry>)
    ensures
        entry_views(r@) == if state.grouping is Project {
            project_menu_of(*project)
        } else {
            seq![]
        },
{
    match state.grouping {
        SidebarGrouping::Project => project_menu(project),
        _ => {
            let menu: Vec<MenuEntry> = Vec::new();
            assert(entry_views(menu@) =~= seq![]);
            menu
        },
    }
}

/// What closing a project is called.
pub fn close_project_label(session_count: usize) -> (r: String)
    ensures
        r@ == close_text(session_count as nat),
{
    if session_count > 0 {
        let mut out: String = concat("关闭项目（含 ", decimal_text(session_count as u64).as_str());
        out.append(" 个会话）");
        out
    } else {
        "关闭项目".to_owned()
    }
}

/// The menu for the worktrees of a project.
pub fn worktree_menu() -> (r: Vec<MenuEntry>)
    ensures
        entry_views(r@) == seq![
            item("查看关联的 Worktree..."@, Some(RowIcon::HardDrive), MenuCommand::ListWorktrees),
            item("新建 Worktree..."@, Some(RowIcon::Plus), MenuCommand::NewWorktree),
        ],
{
    let mut menu: Vec<MenuEntry> = Vec::new();
    push_item(
        &mut menu,
        "查看关联的 Worktree...",
        Some(RowIcon::HardDrive),
        MenuCommand::ListWorktrees,
    );
    push_item(&mut menu, "新建 Worktree...", Some(RowIcon::Plus), MenuCommand::NewWorktree);
    assert(entry_views(menu@) =~= seq![
        item("查看关联的 Worktree..."@, Some(RowIcon::HardDrive), MenuCommand::ListWorktrees),
        item("新建 Worktree..."@, Some(RowIcon::Plus), MenuCommand::NewWorktree),
    ]);
    menu
}

/// The menu of a session. Only a conversation can be restarted by force.
pub open spec fn session_menu_of(
    is_conversation: bool,
    actions: Option<Vec<PluginAction>>,
) -> Seq<EntryView> {
    let names = seq![
        item("重命名"@, None, MenuCommand::Rename),
        item("复制会话 ID"@, Some(RowIcon::Copy), MenuCommand::CopySessionId),
    ];
    let own = if is_conversation {
        names.push(item("强制重启"@, None, MenuCommand::ForceRestart))
    } else {
        names
    };
    match actions {
        Some(actions) if actions@.len() > 0 => own.push(EntryView::Separator) + action_entries(
            actions@,
        ),
        _ => own,
    }
}

/// The menu of a session.
pub fn session_menu(is_conversation: bool, actions: &Option<Vec<PluginAction>>) -> (r: Vec<
    MenuEntry,
>)
    ensures
        entry_views(r@) == session_menu_of(is_conversation, *actions),
{
    let mut menu: Vec<MenuEntry> = Vec::new();
    push_item(&mut menu, "重命名", None, MenuCommand::Rename);
    push_item(&mut menu, "复制会话 ID", Some(RowIcon::Copy), MenuCommand::CopySessionId);
    if is_conversation {
        push_item(&mut menu, "强制重启", None, MenuCommand::ForceRestart);
    }
    assert(entry_views(menu@) =~= session_menu_of(is_conversation, None));
    if let Some(actions) = actions {
        if actions.len() > 0 {
            push_entry(&mut menu, MenuEntry::Separator);
        }
        push_actions(&mut menu, actions);
        if actions.len() == 0 {
            assert(entry_views(menu@) =~= session_menu_of(is_conversation, None));
        }
    }
    menu
}

/// The menu of a pane. The cross beside a pane closes the pane alone; the whole session is
/// closed from here.
pub fn pane_menu() -> (r: Vec<MenuEntry>)
    ensures
        entry_views(r@) == seq![
            item("重命名"@, None, MenuCommand::Rename),
            item("复制会话 ID"@, Some(RowIcon::Copy), MenuCommand::CopySessionId),
            item("关闭整个会话（含全部分屏）"@, None, MenuCommand::CloseSession),
        ],
{
    let mut menu: Vec<MenuEntry> = Vec::new();
    push_item(&mut menu, "重命名", None, MenuCommand::Rename);
    push_item(&mut menu, "复制会话 ID", Some(RowIcon::Copy), MenuCommand::CopySessionId);
    push_item(&mut menu, "关闭整个会话（含全部分屏）", None, MenuCommand::CloseSession);
    assert(entry_views(menu@) =~= seq![
        item("重命名"@, None, MenuCommand::Rename),
        item("复制会话 ID"@, Some(RowIcon::Copy), MenuCommand::CopySessionId),
        item("关闭整个会话（含全部分屏）"@, None, MenuCommand::CloseSession),
    ]);
    menu
}

/// The entry for a way of grouping, with a mark beside the one in use.
pub open spec fn grouping_entry(
    label: Seq<char>,
    mode: SidebarGrouping,
    current: SidebarGrouping,
) -> EntryView {
    item(
        label,
        if mode == current {
            Some(RowIcon::Check)
        } else {
            None
        },
        MenuCommand::GroupBy(mode),
    )
}

fn push_grouping(
    menu: &mut Vec<MenuEntry>,
    label: &str,
    mode: SidebarGrouping,
    current: SidebarGrouping,
)
    ensures
        entry_views(final(menu)@) == entry_views(old(menu)@).push(
            grouping_entry(label@, mode, current),
        ),
{
    let icon: Option<RowIcon> = if mode == current {
        Some(RowIcon::Check)
    } else {
        None
    };
    push_item(menu, label, icon, MenuCommand::GroupBy(mode));
}

/// The menu in which one chooses what the list is grouped by.
pub fn grouping_menu(current: SidebarGrouping) -> (r: Vec<MenuEntry>)
    ensures
        entry_views(r@) == seq![
            EntryView::Heading("分组依据"@),
            grouping_entry("项目"@, SidebarGrouping::Project, current),
            grouping_entry("状态"@, SidebarGrouping::Status, current),
            grouping_entry("时间"@, SidebarGrouping::LastUpdated, current),
        ],
{
    let mut menu: Vec<MenuEntry> = Vec::new();
    push_entry(&mut menu, MenuEntry::Heading("分组依据".to_owned()));
    push_grouping(&mut menu, "项目", SidebarGrouping::Project, current);
    push_grouping(&mut menu, "状态", SidebarGrouping::Status, current);
    push_grouping(&mut menu, "时间", SidebarGrouping::LastUpdated, current);
    assert(entry_views(menu@) =~= seq![
        EntryView::Heading("分组依据"@),
        grouping_entry("项目"@, SidebarGrouping::Project, current),
        grouping_entry("状态"@, SidebarGrouping::Status, current),
        grouping_entry("时间"@, SidebarGrouping::LastUpdated, current),
    ]);
    menu
}

/// An action on an account that a plugin brings.
#[derive(Debug, PartialEq, Eq)]
pub struct AccountAction {
    pub label: String,
    pub disabled: bool,
}

/// An account that a plugin brings.
#[derive(Debug, PartialEq, Eq)]
pub struct SidebarAccountMenuEntry {
    pub plugin_id: String,
    pub settings_section_id: String,
    pub settings_title: String,
    pub actions: Vec<AccountAction>,
}

/// What an action on an account is called. Among several accounts it says which one.
pub open spec fn account_action_text(
    account: SidebarAccountMenuEntry,
    action: AccountAction,
    several: bool,
) -> Seq<char> {
    if several {
        account.settings_title@ + "："@ + action.label@
    } else {
        action.label@
    }
}

/// The entries for the first actions on an account, without those that are disabled.
pub open spec fn account_action_entries(
    account: SidebarAccountMenuEntry,
    at: usize,
    several: bool,
    count: int,
) -> Seq<EntryView>
    decreases count,
{
    if count <= 0 {
        seq![]
    } else {
        let before = account_action_entries(account, at, several, count - 1);
        let action = account.actions@[count - 1];
        if action.disabled {
            before
        } else {
            before.push(
                item(
                    account_action_text(account, action, several),
                    Some(RowIcon::User),
                    MenuCommand::RunAccountAction(at, (count - 1) as usize),
                ),
            )
        }
    }
}

/// What the settings of an account are called.
pub open spec fn account_settings_text(title: Seq<char>) -> Seq<char> {
    if text::trimmed(title).len() == 0 {
        "插件设置"@
    } else {
        title + " 设置"@
    }
}

/// The entries for an account: its actions, then its settings.
pub open spec fn account_entries(account: SidebarAccountMenuEntry, at: usize, several: bool) -> Seq<
    EntryView,
> {
    account_action_entries(account, at, several, account.actions@.len() as int).push(
        item(
            account_settings_text(account.settings_title@),
            Some(RowIcon::Settings),
            MenuCommand::OpenAccountSettings(at),
        ),
    )
}

/// The entries for the first accounts.
pub open spec fn accounts_entries(
    accounts: Seq<SidebarAccountMenuEntry>,
    several: bool,
    count: int,
) -> Seq<EntryView>
    decreases count,
{
    if count <= 0 {
        seq![]
    } else {
        accounts_entries(accounts, several, count - 1) + account_entries(
            accounts[count - 1],
            (count - 1) as usize,
            several,
        )
    }
}

/// The entries at the top of the menu behind the settings.
pub open spec fn help_entries() -> Seq<EntryView> {
    seq![
        item("帮助文档"@, Some(RowIcon::BookOpen), MenuCommand::OpenHelp),
        item("反馈问题"@, Some(RowIcon::Info), MenuCommand::OpenFeedback),
        item("检查更新..."@, Some(RowIcon::LoaderCircle), MenuCommand::CheckForUpdates),
        EntryView::Separator,
    ]
}

/// The menu behind the settings.
pub open spec fn settings_menu_of(accounts: Seq<SidebarAccountMenuEntry>) -> Seq<EntryView> {
    let listed = help_entries() + accounts_entries(
        accounts,
        accounts.len() > 1,
        accounts.len() as int,
    );
    let divided = if accounts.len() > 0 {
        listed.push(EntryView::Separator)
    } else {
        listed
    };
    divided.push(item("设置..."@, Some(RowIcon::Settings), MenuCommand::OpenSettings))
}

fn push_account(
    menu: &mut Vec<MenuEntry>,
    account: &SidebarAccountMenuEntry,
    at: usize,
    several: bool,
)
    ensures
        entry_views(final(menu)@) == entry_views(old(menu)@) + account_entries(
            *account,
            at,
            several,
        ),
{
    let ghost before = entry_views(menu@);
    let mut i: usize = 0;
    assert(before + account_action_entries(*account, at, several, 0) =~= before);
    while i < account.actions.len()
        invariant
            i <= account.actions.len(),
            entry_views(menu@) == before + account_action_entries(
                *account,
                at,
                several,
                i as int,
            ),
        decreases account.actions.len() - i,
    {
        let action: &AccountAction = &account.actions[i];
        if !action.disabled {
            let label: String = if several {
                let mut out: String = concat(account.settings_title.as_str(), "：");
                out.append(action.label.as_str());
                out
            } else {
                action.label.clone()
            };
            push_item(
                menu,
                label.as_str(),
                Some(RowIcon::User),
                MenuCommand::RunAccountAction(at, i),
            );
            assert(entry_views(menu@) =~= before + account_action_entries(
                *account,
                at,
                several,
                i + 1,
            ));
        }
        i = i + 1;
    }
    let title: String = account_settings_label(account.settings_title.as_str());
    push_item(
        menu,
        title.as_str(),
        Some(RowIcon::Settings),
        MenuCommand::OpenAccountSettings(at),
    );
    assert(entry_views(menu@) =~= before + account_entries(*account, at, several));
}

/// What the settings of an account are called.
pub fn account_settings_label(title: &str) -> (r: String)
    ensures
        r@ == account_settings_text(title@),
{
    let trimmed: String = trim(title);
    if text::chars_of(trimmed.as_str()).len() == 0 {
        "插件设置".to_owned()
    } else {
        concat(title, " 设置")
    }
}

/// The menu behind the settings.
pub fn settings_menu(accounts: &Vec<SidebarAccountMenuEntry>) -> (r: Vec<MenuEntry>)
    ensures
        entry_views(r@) == settings_menu_of(accounts@),
{
    let mut menu: Vec<MenuEntry> = Vec::new();
    push_item(&mut menu, "帮助文档", Some(RowIcon::BookOpen), MenuCommand::OpenHelp);
    push_item(&mut menu, "反馈问题", Some(RowIcon::Info), MenuCommand::OpenFeedback);
    push_item(&mut menu, "检查更新...", Some(RowIcon::LoaderCircle), MenuCommand::CheckForUpdates);
    push_entry(&mut menu, MenuEntry::Separator);
    assert(entry_views(menu@) =~= help_entries());
    let several: bool = accounts.len() > 1;
    let mut i: usize = 0;
    assert(help_entries() + accounts_entries(accounts@, several, 0) =~= help_entries());
    while i < accounts.len()
        invariant
            i <= accounts.len(),
            entry_views(menu@) == help_entries() + accounts_entries(accounts@, several, i as int),
        decreases accounts.len() - i,
    {
        push_account(&mut menu, &accounts[i], i, several);
        i = i + 1;
        assert(entry_views(menu@) =~= help_entries() + accounts_entries(
            accounts@,
            several,
            i as int,
        ));
    }
    if accounts.len() > 0 {
        push_entry(&mut menu, MenuEntry::Separator);
    }
    push_item(&mut menu, "设置...", Some(RowIcon::Settings), MenuCommand::OpenSettings);
    menu
}

/// What is said below the list of what accounts have used: nothing where nothing is known and
/// nothing is asked for.
pub fn quota_footer_text(rows: usize, refreshing: bool) -> (r: Option<&'static str>)
    ensures
        r is Some <==> rows == 0 && refreshing,
        r matches Some(text) ==> text@ == "额度查询中…"@,
{
    if rows == 0 && refreshing {
        Some("额度查询中…")
    } else {
        None
    }
}

/// The colour that what an account has used is shown in.
#[derive(Clone, Copy, Debug, PartialEq, Eq, Structural)]
pub enum QuotaTextColor {
    Green,
    Risk(QuotaColor),
}

/// The colour that what an account has used is shown in: green while the user has it looked up
/// anew, else by how alarming it is.
pub fn quota_text_color(color: QuotaColor, refreshing: bool) -> (r: QuotaTextColor)
    ensures
        r == if refreshing {
            QuotaTextColor::Green
        } else {
            QuotaTextColor::Risk(color)
        },
{
    if refreshing {
        QuotaTextColor::Green
    } else {
        QuotaTextColor::Risk(color)
    }
}

/// What is said of what an account has used, and what a click on it does.
pub fn quota_tip(hint: &str, refreshing: bool) -> (r: String)
    ensures
        r@ == hint@ + if refreshing {
            " 正在刷新…"@
        } else {
            " 点击刷新。"@
        },
{
    if refreshing {
        concat(hint, " 正在刷新…")
    } else {
        concat(hint, " 点击刷新。")
    }
}

proof fn lemma_no_disabled(
    account: SidebarAccountMenuEntry,
    at: usize,
    several: bool,
    count: int,
    i: int,
)
    requires
        0 <= count <= account.actions@.len(),
        0 <= i < account_action_entries(account, at, several, count).len(),
    ensures
        account_action_entries(account, at, several, count)[i] matches EntryView::Item {
            command: MenuCommand::RunAccountAction(one, action),
            ..
        } && one == at && action < account.actions@.len()
            && !account.actions@[action as int].disabled,
    decreases count,
{
    assert(account.actions.len() == account.actions@.len());
    let before = account_action_entries(account, at, several, count - 1);
    if i < before.len() {
        lemma_no_disabled(account, at, several, count - 1, i);
    }
}

/// An action that is disabled is in no menu.
pub proof fn disabled_actions_are_not_offered(
    account: SidebarAccountMenuEntry,
    at: usize,
    several: bool,
    i: int,
)
    requires
        0 <= i < account_entries(account, at, several).len(),
    ensures
        account_entries(account, at, several)[i] matches EntryView::Item {
            command: MenuCommand::RunAccountAction(_, action),
            ..
        } ==> action < account.actions@.len() && !account.actions@[action as int].disabled,
{
    let actions = account_action_entries(account, at, several, account.actions@.len() as int);
    if i < actions.len() {
        lemma_no_disabled(account, at, several, account.actions@.len() as int, i);
    }
}

} // verus!
