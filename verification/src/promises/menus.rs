//! What menus promise.

use vstd::prelude::*;

use crate::session_list::menus;
use crate::session_list::menus::{
    account_settings_label, close_project_label, grouping_menu, header_menu, pane_menu,
    project_menu, quota_footer_text, quota_text_color, quota_tip, session_menu, settings_menu,
    worktree_menu, AccountAction, EntryView, MenuCommand, MenuEntry, PluginAction, ProjectMenu, QuotaTextColor,
    SidebarAccountMenuEntry, Submenu,
};
use crate::session_list::quota::QuotaColor;
use crate::session_list::row::{RowIcon, SessionActionIcon};
use crate::session_list::sidebar::{SidebarGrouping, SidebarState};
use crate::text;

verus! {

/// The entry stands at the place, under this label, and does this.
pub open spec fn does(
    entries: Seq<MenuEntry>,
    at: int,
    label: Seq<char>,
    icon: Option<RowIcon>,
    command: MenuCommand,
) -> bool {
    0 <= at < entries.len() && entries[at].view() == (EntryView::Item { label, icon, command })
}

/// A line stands at the place.
pub open spec fn is_line(entries: Seq<MenuEntry>, at: int) -> bool {
    0 <= at < entries.len() && entries[at].view() == EntryView::Separator
}

/// The entries that plugins bring stand from a place on, in their order, each running its own
/// action.
pub open spec fn runs_actions(
    entries: Seq<MenuEntry>,
    actions: Seq<PluginAction>,
    from: int,
) -> bool {
    forall|i: int|
        0 <= i < actions.len() ==> does(
            entries,
            from + i,
            (#[trigger] actions[i]).title@,
            match actions[i].icon {
                Some(SessionActionIcon::Check) => Some(RowIcon::Check),
                Some(SessionActionIcon::ExternalLink) => Some(RowIcon::ExternalLink),
                None => None,
            },
            MenuCommand::RunAction(i as usize),
        )
}

/// How many entries stand before those of the project itself.
pub open spec fn brought(actions: Option<Vec<PluginAction>>) -> int {
    match actions {
        Some(actions) => if actions@.len() > 0 {
            actions@.len() as int + 1
        } else {
            0
        },
        None => 0,
    }
}

/// The menu of a project has what plugins bring, then what can be done with any project: a branch
/// can be copied where there is one, pinning and the file tree are turned on or off, closing tells
/// of the sessions that end with it, and a worktree can be deleted where it is one.
pub proof fn project_menus_fit_their_project(project: &ProjectMenu, r: Vec<MenuEntry>)
    requires
        call_ensures(project_menu, (project,), r),
    ensures
        ({
            let n = brought(project.actions);
            let b: int = if project.has_branch {
                1
            } else {
                0
            };
            &&& project.actions matches Some(actions) ==> runs_actions(r@, actions@, 0)
            &&& n > 0 ==> is_line(r@, n - 1)
            &&& r@[n].view() == (EntryView::Submenu {
                label: "用其他应用打开"@,
                icon: RowIcon::ExternalLink,
                submenu: Submenu::OpenWith,
            })
            &&& does(r@, n + 1, "复制项目路径"@, Some(RowIcon::Copy), MenuCommand::CopyPath)
            &&& project.has_branch ==> does(
                r@,
                n + 2,
                "复制分支名"@,
                Some(RowIcon::Copy),
                MenuCommand::CopyBranch,
            )
            &&& is_line(r@, n + b + 2)
            &&& r@[n + b + 3].view() == (EntryView::Submenu {
                label: "Worktree"@,
                icon: RowIcon::HardDrive,
                submenu: Submenu::Worktrees,
            })
            &&& is_line(r@, n + b + 4)
            &&& does(
                r@,
                n + b + 5,
                if project.pinned {
                    "取消置顶"@
                } else {
                    "置顶"@
                },
                Some(RowIcon::Star),
                MenuCommand::TogglePinned,
            )
            &&& does(
                r@,
                n + b + 6,
                if project.in_file_tree {
                    "从文件树移除"@
                } else {
                    "加到文件树"@
                },
                Some(RowIcon::Folder),
                MenuCommand::ToggleFileTree,
            )
            &&& is_line(r@, n + b + 7)
            &&& does(
                r@,
                n + b + 8,
                if project.session_count == 0 {
                    "关闭项目"@
                } else {
                    "关闭项目（含 "@ + text::decimal(project.session_count as nat) + " 个会话）"@
                },
                Some(RowIcon::CircleX),
                MenuCommand::CloseProject,
            )
            &&& project.is_worktree ==> r@.len() == n + b + 11 && is_line(r@, n + b + 9) && does(
                r@,
                n + b + 10,
                "删除 Worktree"@,
                Some(RowIcon::Delete),
                MenuCommand::DeleteWorktree,
            )
            &&& !project.is_worktree ==> r@.len() == n + b + 9
        }),
{
    let out = menus::entry_views(r@);
    assert(out == menus::project_menu_of(*project));
    assert(out.len() == r@.len());
    assert forall|k: int| 0 <= k < r@.len() implies out[k] == (#[trigger] r@[k]).view() by {
    }
    let lead = menus::leading_actions(project.actions);
    assert(lead.len() == brought(project.actions));
    if project.actions is Some && (project.actions->0)@.len() > 0 {
        let actions = (project.actions->0)@;
        let all = menus::action_entries(actions);
        assert(lead == all.push(EntryView::Separator));
        assert(out[lead.len() - 1] == EntryView::Separator);
        assert forall|i: int| 0 <= i < actions.len() implies does(
            r@,
            0 + i,
            (#[trigger] actions[i]).title@,
            match actions[i].icon {
                Some(SessionActionIcon::Check) => Some(RowIcon::Check),
                Some(SessionActionIcon::ExternalLink) => Some(RowIcon::ExternalLink),
                None => None,
            },
            MenuCommand::RunAction(i as usize),
        ) by {
            assert(out[i] == all[i]);
        }
    }
}

/// Only the list of projects has a menu on its headers, and it is the project's.
pub proof fn only_projects_have_header_menus(
    state: &SidebarState,
    project: &ProjectMenu,
    r: Vec<MenuEntry>,
    own: Vec<MenuEntry>,
)
    requires
        call_ensures(header_menu, (state, project), r),
        call_ensures(project_menu, (project,), own),
    ensures
        state.grouping != SidebarGrouping::Project ==> r@.len() == 0,
        state.grouping == SidebarGrouping::Project ==> r@.len() == own@.len() && forall|k: int|
            0 <= k < r@.len() ==> (#[trigger] r@[k]).view() == own@[k].view(),
{
    let one = menus::entry_views(r@);
    let two = menus::entry_views(own@);
    assert(one.len() == r@.len());
    assert(two.len() == own@.len());
    if state.grouping == SidebarGrouping::Project {
        assert(one == two);
        assert forall|k: int| 0 <= k < r@.len() implies (#[trigger] r@[k]).view()
            == own@[k].view() by {
            assert(one[k] == r@[k].view());
            assert(two[k] == own@[k].view());
        }
    }
}

/// The label tells how many sessions closing a project would end.
pub proof fn closing_tells_the_sessions(session_count: usize, r: String)
    requires
        call_ensures(close_project_label, (session_count,), r),
    ensures
        session_count == 0 ==> r@ == "关闭项目"@,
        session_count > 0 ==> r@ == "关闭项目（含 "@ + text::decimal(session_count as nat)
            + " 个会话）"@,
{
}

/// The menus of worktrees and panes list what can be done with them.
pub proof fn small_menus_are_complete(worktrees: Vec<MenuEntry>, pane: Vec<MenuEntry>)
    requires
        call_ensures(worktree_menu, (), worktrees),
        call_ensures(pane_menu, (), pane),
    ensures
        worktrees@.len() == 2,
        does(
            worktrees@,
            0,
            "查看关联的 Worktree..."@,
            Some(RowIcon::HardDrive),
            MenuCommand::ListWorktrees,
        ),
        does(worktrees@, 1, "新建 Worktree..."@, Some(RowIcon::Plus), MenuCommand::NewWorktree),
        pane@.len() == 3,
        does(pane@, 0, "重命名"@, None, MenuCommand::Rename),
        does(pane@, 1, "复制会话 ID"@, Some(RowIcon::Copy), MenuCommand::CopySessionId),
        does(pane@, 2, "关闭整个会话（含全部分屏）"@, None, MenuCommand::CloseSession),
{
    let one = menus::entry_views(worktrees@);
    let two = menus::entry_views(pane@);
    assert(one.len() == worktrees@.len());
    assert(two.len() == pane@.len());
    assert(one[0] == worktrees@[0].view() && one[1] == worktrees@[1].view());
    assert(two[0] == pane@[0].view() && two[1] == pane@[1].view() && two[2] == pane@[2].view());
}

/// A session can be renamed and its identifier copied; a conversation can be restarted by force;
/// then comes what plugins bring, behind a line.
pub proof fn session_menus_fit_their_session(
    is_conversation: bool,
    actions: &Option<Vec<PluginAction>>,
    r: Vec<MenuEntry>,
)
    requires
        call_ensures(session_menu, (is_conversation, actions), r),
    ensures
        does(r@, 0, "重命名"@, None, MenuCommand::Rename),
        does(r@, 1, "复制会话 ID"@, Some(RowIcon::Copy), MenuCommand::CopySessionId),
        is_conversation ==> does(r@, 2, "强制重启"@, None, MenuCommand::ForceRestart),
        ({
            let own: int = if is_conversation {
                3
            } else {
                2
            };
            &&& r@.len() == own + brought(*actions)
            &&& brought(*actions) > 0 ==> is_line(r@, own) && runs_actions(
                r@,
                (actions->0)@,
                own + 1,
            )
        }),
{
    let out = menus::entry_views(r@);
    assert(out == menus::session_menu_of(is_conversation, *actions));
    assert(out.len() == r@.len());
    assert forall|k: int| 0 <= k < r@.len() implies out[k] == (#[trigger] r@[k]).view() by {
    }
    if brought(*actions) > 0 {
        let own: int = if is_conversation {
            3
        } else {
            2
        };
        let brings = (actions->0)@;
        let all = menus::action_entries(brings);
        assert forall|i: int| 0 <= i < brings.len() implies does(
            r@,
            own + 1 + i,
            (#[trigger] brings[i]).title@,
            match brings[i].icon {
                Some(SessionActionIcon::Check) => Some(RowIcon::Check),
                Some(SessionActionIcon::ExternalLink) => Some(RowIcon::ExternalLink),
                None => None,
            },
            MenuCommand::RunAction(i as usize),
        ) by {
            assert(out[own + 1 + i] == all[i]);
        }
    }
}

/// Lists are grouped by project, state or time, and the way in force is checked.
pub proof fn the_grouping_in_force_is_checked(current: SidebarGrouping, r: Vec<MenuEntry>)
    requires
        call_ensures(grouping_menu, (current,), r),
    ensures
        r@.len() == 4,
        r@[0].view() == EntryView::Heading("分组依据"@),
        does(
            r@,
            1,
            "项目"@,
            if current == SidebarGrouping::Project {
                Some(RowIcon::Check)
            } else {
                None
            },
            MenuCommand::GroupBy(SidebarGrouping::Project),
        ),
        does(
            r@,
            2,
            "状态"@,
            if current == SidebarGrouping::Status {
                Some(RowIcon::Check)
            } else {
                None
            },
            MenuCommand::GroupBy(SidebarGrouping::Status),
        ),
        does(
            r@,
            3,
            "时间"@,
            if current == SidebarGrouping::LastUpdated {
                Some(RowIcon::Check)
            } else {
                None
            },
            MenuCommand::GroupBy(SidebarGrouping::LastUpdated),
        ),
{
    let out = menus::entry_views(r@);
    assert(out.len() == r@.len());
    assert(out[0] == r@[0].view() && out[1] == r@[1].view() && out[2] == r@[2].view() && out[3]
        == r@[3].view());
}

/// The entry of an account that runs one of its actions.
pub open spec fn runs_account_action(
    entries: Seq<MenuEntry>,
    label: Seq<char>,
    account: usize,
    action: usize,
) -> bool {
    exists|k: int|
        does(
            entries,
            k,
            label,
            Some(RowIcon::User),
            MenuCommand::RunAccountAction(account, action),
        )
}

/// The entry of an account that leads to its settings.
pub open spec fn opens_account_settings(
    entries: Seq<MenuEntry>,
    label: Seq<char>,
    account: usize,
) -> bool {
    exists|k: int|
        does(
            entries,
            k,
            label,
            Some(RowIcon::Settings),
            MenuCommand::OpenAccountSettings(account),
        )
}

proof fn lemma_action_entry(
    account: SidebarAccountMenuEntry,
    at: usize,
    several: bool,
    count: int,
    i: int,
)
    requires
        0 <= i < count <= account.actions@.len(),
        !account.actions@[i].disabled,
    ensures
        menus::account_action_entries(account, at, several, count).contains(
            EntryView::Item {
                label: if several {
                    account.settings_title@ + "："@ + account.actions@[i].label@
                } else {
                    account.actions@[i].label@
                },
                icon: Some(RowIcon::User),
                command: MenuCommand::RunAccountAction(at, i as usize),
            },
        ),
    decreases count,
{
    let wanted = EntryView::Item {
        label: if several {
            account.settings_title@ + "："@ + account.actions@[i].label@
        } else {
            account.actions@[i].label@
        },
        icon: Some(RowIcon::User),
        command: MenuCommand::RunAccountAction(at, i as usize),
    };
    let before = menus::account_action_entries(account, at, several, count - 1);
    let after = menus::account_action_entries(account, at, several, count);
    if i < count - 1 {
        lemma_action_entry(account, at, several, count - 1, i);
        let k = choose|k: int| 0 <= k < before.len() && before[k] == wanted;
        assert(after[k] == wanted);
    } else {
        assert(after[after.len() - 1] == wanted);
    }
}

proof fn lemma_account_entry(
    accounts: Seq<SidebarAccountMenuEntry>,
    several: bool,
    count: int,
    a: int,
    wanted: EntryView,
)
    requires
        0 <= a < count <= accounts.len(),
        menus::account_entries(accounts[a], a as usize, several).contains(wanted),
    ensures
        menus::accounts_entries(accounts, several, count).contains(wanted),
    decreases count,
{
    let before = menus::accounts_entries(accounts, several, count - 1);
    let own = menus::account_entries(accounts[count - 1], (count - 1) as usize, several);
    let after = menus::accounts_entries(accounts, several, count);
    assert(after == before + own);
    if a < count - 1 {
        lemma_account_entry(accounts, several, count - 1, a, wanted);
        let k = choose|k: int| 0 <= k < before.len() && before[k] == wanted;
        assert(after[k] == wanted);
    } else {
        let k = choose|k: int| 0 <= k < own.len() && own[k] == wanted;
        assert(after[before.len() + k] == wanted);
    }
}

/// Every action of an account that is not disabled is offered, with the account's name before it
/// where there are several accounts.
pub proof fn account_actions_are_offered(
    accounts: &Vec<SidebarAccountMenuEntry>,
    r: Vec<MenuEntry>,
    a: int,
    i: int,
)
    requires
        call_ensures(settings_menu, (accounts,), r),
        0 <= a < accounts@.len(),
        0 <= i < accounts@[a].actions@.len(),
        !accounts@[a].actions@[i].disabled,
    ensures
        accounts@.len() == 1 ==> runs_account_action(
            r@,
            accounts@[a].actions@[i].label@,
            a as usize,
            i as usize,
        ),
        accounts@.len() > 1 ==> runs_account_action(
            r@,
            accounts@[a].settings_title@ + "："@ + accounts@[a].actions@[i].label@,
            a as usize,
            i as usize,
        ),
{
    let several = accounts@.len() > 1;
    let account = accounts@[a];
    let count = account.actions@.len() as int;
    lemma_action_entry(account, a as usize, several, count, i);
    let label = if several {
        account.settings_title@ + "："@ + account.actions@[i].label@
    } else {
        account.actions@[i].label@
    };
    let wanted = EntryView::Item {
        label,
        icon: Some(RowIcon::User),
        command: MenuCommand::RunAccountAction(a as usize, i as usize),
    };
    let own = menus::account_action_entries(account, a as usize, several, count);
    let all = menus::account_entries(account, a as usize, several);
    let k = choose|k: int| 0 <= k < own.len() && own[k] == wanted;
    assert(all[k] == wanted);
    lemma_account_entry(accounts@, several, accounts@.len() as int, a, wanted);
    let listed = menus::accounts_entries(accounts@, several, accounts@.len() as int);
    let m = choose|m: int| 0 <= m < listed.len() && listed[m] == wanted;
    let out = menus::entry_views(r@);
    assert(out == menus::settings_menu_of(accounts@));
    assert(out.len() == r@.len());
    assert(4 + m < out.len());
    assert(out[4 + m] == wanted);
    assert(out[4 + m] == r@[4 + m].view());
    assert(does(
        r@,
        4 + m,
        label,
        Some(RowIcon::User),
        MenuCommand::RunAccountAction(a as usize, i as usize),
    ));
}

/// The menu begins with help, feedback and updates, and ends with the settings; every account
/// leads to its own settings.
pub proof fn the_settings_menu_ends_with_settings(
    accounts: &Vec<SidebarAccountMenuEntry>,
    r: Vec<MenuEntry>,
    a: int,
)
    requires
        call_ensures(settings_menu, (accounts,), r),
    ensures
        does(r@, 0, "帮助文档"@, Some(RowIcon::BookOpen), MenuCommand::OpenHelp),
        does(r@, 1, "反馈问题"@, Some(RowIcon::Info), MenuCommand::OpenFeedback),
        does(r@, 2, "检查更新..."@, Some(RowIcon::LoaderCircle), MenuCommand::CheckForUpdates),
        is_line(r@, 3),
        does(r@, r@.len() - 1, "设置..."@, Some(RowIcon::Settings), MenuCommand::OpenSettings),
        accounts@.len() == 0 ==> r@.len() == 5,
        accounts@.len() > 0 ==> is_line(r@, r@.len() - 2),
        0 <= a < accounts@.len() ==> opens_account_settings(
            r@,
            if text::trimmed(accounts@[a].settings_title@).len() == 0 {
                "插件设置"@
            } else {
                accounts@[a].settings_title@ + " 设置"@
            },
            a as usize,
        ),
{
    let out = menus::entry_views(r@);
    assert(out == menus::settings_menu_of(accounts@));
    assert(out.len() == r@.len());
    assert forall|k: int| 0 <= k < r@.len() implies out[k] == (#[trigger] r@[k]).view() by {
    }
    if 0 <= a < accounts@.len() {
        let several = accounts@.len() > 1;
        let label = if text::trimmed(accounts@[a].settings_title@).len() == 0 {
            "插件设置"@
        } else {
            accounts@[a].settings_title@ + " 设置"@
        };
        let wanted = EntryView::Item {
            label,
            icon: Some(RowIcon::Settings),
            command: MenuCommand::OpenAccountSettings(a as usize),
        };
        let all = menus::account_entries(accounts@[a], a as usize, several);
        assert(all[all.len() - 1] == wanted);
        lemma_account_entry(accounts@, several, accounts@.len() as int, a, wanted);
        let listed = menus::accounts_entries(accounts@, several, accounts@.len() as int);
        let m = choose|m: int| 0 <= m < listed.len() && listed[m] == wanted;
        assert(out[4 + m] == wanted);
        assert(does(
            r@,
            4 + m,
            label,
            Some(RowIcon::Settings),
            MenuCommand::OpenAccountSettings(a as usize),
        ));
    }
}

/// An account's settings are named after it, and after plugins where it has no name.
pub proof fn account_settings_are_named(title: &str, r: String)
    requires
        call_ensures(account_settings_label, (title,), r),
    ensures
        text::trimmed(title@).len() > 0 ==> r@ == title@ + " 设置"@,
        text::trimmed(title@).len() == 0 ==> r@ == "插件设置"@,
{
}

/// While quotas are looked up the footer says so where it has nothing to show, what is shown turns
/// green, and the tip tells it.
pub proof fn looking_up_quotas_is_told(
    rows: usize,
    refreshing: bool,
    footer: Option<&'static str>,
    color: QuotaColor,
    shown: QuotaTextColor,
    hint: &str,
    tip: String,
)
    requires
        call_ensures(quota_footer_text, (rows, refreshing), footer),
        call_ensures(quota_text_color, (color, refreshing), shown),
        call_ensures(quota_tip, (hint, refreshing), tip),
    ensures
        footer is Some <==> refreshing && rows == 0,
        footer matches Some(text) ==> text@ == "额度查询中…"@,
        refreshing ==> shown is Green && tip@ == hint@ + " 正在刷新…"@,
        !refreshing ==> shown == QuotaTextColor::Risk(color) && tip@ == hint@ + " 点击刷新。"@,
{
}

/// How many entries the first accounts have: one for each action that is not disabled, and one for
/// the settings of each.
pub open spec fn account_entry_count(accounts: Seq<SidebarAccountMenuEntry>) -> nat
    decreases accounts.len(),
{
    if accounts.len() == 0 {
        0
    } else {
        account_entry_count(accounts.drop_last()) + accounts.last().actions@.filter(
            |action: AccountAction| !action.disabled,
        ).len() + 1
    }
}

proof fn lemma_action_count(
    account: SidebarAccountMenuEntry,
    at: usize,
    several: bool,
    count: int,
)
    requires
        0 <= count <= account.actions@.len(),
    ensures
        menus::account_action_entries(account, at, several, count).len()
            == account.actions@.take(count).filter(
            |action: AccountAction| !action.disabled,
        ).len(),
    decreases count,
{
    reveal(Seq::filter);
    if count > 0 {
        lemma_action_count(account, at, several, count - 1);
        assert(account.actions@.take(count).drop_last() =~= account.actions@.take(count - 1));
        assert(account.actions@.take(count).last() == account.actions@[count - 1]);
    }
}

proof fn lemma_entry_count(accounts: Seq<SidebarAccountMenuEntry>, several: bool, count: int)
    requires
        0 <= count <= accounts.len(),
    ensures
        menus::accounts_entries(accounts, several, count).len() == account_entry_count(
            accounts.take(count),
        ),
    decreases count,
{
    if count > 0 {
        lemma_entry_count(accounts, several, count - 1);
        let account = accounts[count - 1];
        assert(accounts.take(count).drop_last() =~= accounts.take(count - 1));
        assert(accounts.take(count).last() == account);
        let all = account.actions@.len() as int;
        lemma_action_count(account, (count - 1) as usize, several, all);
        assert(account.actions@.take(all) =~= account.actions@);
    } else {
        assert(accounts.take(0) =~= Seq::<SidebarAccountMenuEntry>::empty());
    }
}

/// The menu offers nothing twice: it has as many entries as there are actions and accounts, beside
/// its own.
pub proof fn the_settings_menu_has_no_more(
    accounts: &Vec<SidebarAccountMenuEntry>,
    r: Vec<MenuEntry>,
)
    requires
        call_ensures(settings_menu, (accounts,), r),
    ensures
        r@.len() == account_entry_count(accounts@) + if accounts@.len() > 0 {
            6nat
        } else {
            5
        },
{
    let out = menus::entry_views(r@);
    assert(out == menus::settings_menu_of(accounts@));
    assert(out.len() == r@.len());
    lemma_entry_count(accounts@, accounts@.len() > 1, accounts@.len() as int);
    assert(accounts@.take(accounts@.len() as int) =~= accounts@);
}

} // verus!
