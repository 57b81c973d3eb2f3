//! What the session list promises.

use vstd::prelude::*;

use crate::promises::lists;
use crate::session_list::drag;
use crate::session_list::drag::SidebarDrag;
use crate::session_list::row::{AgentStatus, RowIcon};
use crate::session_list::sidebar;
use crate::session_list::sidebar::{
    active_project_root, agent_conversation_workspace_is_open, aggregate_status, empty_filters,
    group_agent, group_header, group_is_shown, group_rows_are_shown, hidden_projects_text,
    initial_of, pane_rows, pane_titles, pane_tooltip, project_header_click, session_groups,
    session_project, session_row, set_hide_empty, settings_need_attention, surface_click_renames,
    surface_initial, tool_panel_context_root, workspace_surface_row, workspace_surface_rows,
    EmptyFilter, GroupHeader, GroupView, HeaderClick, PaneRow, SessionInfo, SessionRow,
    SidebarGroup, SidebarGrouping, SidebarState, SurfaceRow,
};
use crate::text;

verus! {

proof fn lemma_listed(state: SidebarState, groups: Seq<SidebarGroup>, count: int)
    requires
        0 <= count <= groups.len() <= usize::MAX,
    ensures
        forall|i: int|
            0 <= i < sidebar::listed_positions(state, groups, count).len() ==> {
                &&& (#[trigger] sidebar::listed_positions(state, groups, count)[i]) < count
                &&& sidebar::is_listed(
                    state,
                    groups[sidebar::listed_positions(state, groups, count)[i] as int],
                )
            },
        forall|i: int, j: int|
            0 <= i < j < sidebar::listed_positions(state, groups, count).len() ==> (
            #[trigger] sidebar::listed_positions(state, groups, count)[i]) < (
            #[trigger] sidebar::listed_positions(state, groups, count)[j]),
        forall|g: int|
            0 <= g < count && sidebar::is_listed(state, #[trigger] groups[g])
                ==> sidebar::listed_positions(state, groups, count).contains(g as usize),
    decreases count,
{
    if count > 0 {
        lemma_listed(state, groups, count - 1);
        let before = sidebar::listed_positions(state, groups, count - 1);
        let after = sidebar::listed_positions(state, groups, count);
        assert forall|g: int|
            0 <= g < count && sidebar::is_listed(state, #[trigger] groups[g]) implies after.contains(
            g as usize,
        ) by {
            if g < count - 1 {
                let k = choose|k: int| 0 <= k < before.len() && before[k] == g as usize;
                assert(after[k] == g as usize);
            } else {
                assert(after[after.len() - 1] == g as usize);
            }
        }
    }
}

/// A folded group shows none of its sessions; one that is not folded shows each of them once, in
/// order.
pub proof fn folding_hides_exactly_the_rows(
    state: &SidebarState,
    groups: &Vec<SidebarGroup>,
    sessions: &Vec<SessionInfo>,
    statuses: &Vec<AgentStatus>,
    animate_running: bool,
    r: Vec<GroupView>,
    v: int,
)
    requires
        call_ensures(session_groups, (state, groups, sessions, statuses, animate_running), r),
        0 <= v < r@.len(),
    ensures
        r@[v].group < groups@.len(),
        groups@[r@[v].group as int].collapsed ==> r@[v].rows@.len() == 0,
        !groups@[r@[v].group as int].collapsed ==> r@[v].rows@.len()
            == groups@[r@[v].group as int].sessions@.len(),
        forall|i: int|
            0 <= i < r@[v].rows@.len() ==> {
                let info = sessions@[groups@[r@[v].group as int].sessions@[i] as int];
                &&& (#[trigger] r@[v].rows@[i]).title == info.title
                &&& r@[v].rows@[i].updated_at == info.updated_at
            },
{
    assert(groups@.len() == groups.len());
    lemma_listed(*state, groups@, groups@.len() as int);
    let at = sidebar::listed_positions(*state, groups@, groups@.len() as int)[v];
    assert(r@[v].group == at);
}

/// Groups come in their own order, none twice, and a group is left out only where it is an empty
/// project that nobody pinned or is in while empty projects are hidden, or where it is folded and
/// has no header.
pub proof fn groups_come_in_order(
    state: &SidebarState,
    groups: &Vec<SidebarGroup>,
    sessions: &Vec<SessionInfo>,
    statuses: &Vec<AgentStatus>,
    animate_running: bool,
    r: Vec<GroupView>,
    g: int,
)
    requires
        call_ensures(session_groups, (state, groups, sessions, statuses, animate_running), r),
        0 <= g < groups@.len(),
    ensures
        forall|i: int, j: int|
            0 <= i < j < r@.len() ==> (#[trigger] r@[i]).group < (#[trigger] r@[j]).group,
        (exists|v: int| 0 <= v < r@.len() && (#[trigger] r@[v]).group == g) <==> !(groups@[g].collapsed
            && state.grouping == SidebarGrouping::Ungrouped) && !(groups@[g].sessions@.len() == 0
            && !groups@[g].pinned && !groups@[g].active && state.hide_empty && state.grouping
            == SidebarGrouping::Project),
{
    assert(groups@.len() == groups.len());
    lemma_listed(*state, groups@, groups@.len() as int);
    let order = sidebar::listed_positions(*state, groups@, groups@.len() as int);
    if sidebar::is_listed(*state, groups@[g]) {
        assert(order.contains(g as usize));
        let v = choose|v: int| 0 <= v < order.len() && order[v] == g as usize;
        assert(r@[v].group == g);
    }
    if exists|v: int| 0 <= v < r@.len() && (#[trigger] r@[v]).group == g {
        let v = choose|v: int| 0 <= v < r@.len() && (#[trigger] r@[v]).group == g;
        assert(order[v] == g);
    }
}

/// A group is left out for being empty: empty projects are hidden, and nobody pinned it or is in
/// it.
pub open spec fn is_hidden_project(state: SidebarState, group: SidebarGroup) -> bool {
    state.grouping == SidebarGrouping::Project && state.hide_empty && group.sessions@.len() == 0
        && !group.pinned && !group.active
}

/// A group is shown unless it is an empty project that is hidden.
pub proof fn only_empty_projects_are_hidden(state: &SidebarState, group: &SidebarGroup, r: bool)
    requires
        call_ensures(group_is_shown, (state, group), r),
    ensures
        r == !is_hidden_project(*state, *group),
{
}

proof fn lemma_hidden(state: SidebarState, groups: Seq<SidebarGroup>)
    ensures
        sidebar::hidden(state, groups) == groups.filter(
            |group: SidebarGroup| is_hidden_project(state, group),
        ).len(),
    decreases groups.len(),
{
    reveal(Seq::filter);
    if groups.len() > 0 {
        lemma_hidden(state, groups.drop_last());
    }
}

/// The note under the list counts the projects that are hidden, and is there only where some are.
pub proof fn the_note_counts_the_hidden_projects(
    state: &SidebarState,
    groups: &Vec<SidebarGroup>,
    r: Option<String>,
)
    requires
        call_ensures(hidden_projects_text, (state, groups), r),
    ensures
        ({
            let hidden = groups@.filter(|group: SidebarGroup| is_hidden_project(*state, group));
            &&& r is Some <==> hidden.len() > 0
            &&& r matches Some(note) ==> note@ == "已隐藏 "@ + text::decimal(hidden.len())
                + " 个无会话项目"@
        }),
        (exists|g: int| 0 <= g < groups@.len() && is_hidden_project(*state, #[trigger] groups@[g]))
            ==> r is Some,
{
    lemma_hidden(*state, groups@);
    let keep = |group: SidebarGroup| is_hidden_project(*state, group);
    if exists|g: int| 0 <= g < groups@.len() && is_hidden_project(*state, #[trigger] groups@[g]) {
        let g = choose|g: int|
            0 <= g < groups@.len() && is_hidden_project(*state, #[trigger] groups@[g]);
        lists::passing_items_are_picked(groups@, keep, g);
    }
}

/// One of the sessions has the state.
pub open spec fn one_is(
    sessions: Seq<usize>,
    statuses: Seq<AgentStatus>,
    status: AgentStatus,
) -> bool {
    exists|i: int|
        0 <= i < sessions.len() && (#[trigger] sessions[i]) < statuses.len()
            && statuses[sessions[i] as int] == status
}

/// A group needs you where one of its sessions does; it runs where one runs and none needs you.
pub proof fn groups_take_the_most_urgent_state(
    sessions: &Vec<usize>,
    statuses: &Vec<AgentStatus>,
    r: AgentStatus,
)
    requires
        call_ensures(aggregate_status, (sessions, statuses), r),
    ensures
        r is NeedsYou <==> one_is(sessions@, statuses@, AgentStatus::NeedsYou),
        r is Running <==> one_is(sessions@, statuses@, AgentStatus::Running) && !one_is(
            sessions@,
            statuses@,
            AgentStatus::NeedsYou,
        ),
{
    assert(sidebar::some_session_is(sessions@, statuses@, AgentStatus::NeedsYou) == one_is(
        sessions@,
        statuses@,
        AgentStatus::NeedsYou,
    ));
    assert(sidebar::some_session_is(sessions@, statuses@, AgentStatus::Running) == one_is(
        sessions@,
        statuses@,
        AgentStatus::Running,
    ));
}

/// Every list but the ungrouped one has headers. A header counts the sessions of its group, is
/// open exactly where rows are shown under it, has a dot where one of the sessions runs or needs
/// you, and is selected where its project is and the session in view is not in sight under it.
pub proof fn headers_tell_their_group(
    state: &SidebarState,
    group: &SidebarGroup,
    statuses: &Vec<AgentStatus>,
    r: Option<GroupHeader>,
)
    requires
        call_ensures(group_header, (state, group, statuses), r),
    ensures
        r is None <==> state.grouping == SidebarGrouping::Ungrouped,
        r matches Some(header) ==> {
            &&& header.count@ == text::decimal(group.sessions@.len())
            &&& header.disclosure == if group.collapsed || group.sessions@.len() == 0 {
                RowIcon::Folder
            } else {
                RowIcon::FolderOpen
            }
            &&& header.dot == if one_is(group.sessions@, statuses@, AgentStatus::NeedsYou) {
                Some(AgentStatus::NeedsYou)
            } else if one_is(group.sessions@, statuses@, AgentStatus::Running) {
                Some(AgentStatus::Running)
            } else {
                None
            }
            &&& header.selected == (state.session_route_active && group.active && (group.collapsed
                || !group.sessions@.contains(state.active_session)))
            &&& header.tone is Bright <==> group.active
            &&& header.tone is Faint <==> !group.active && group.sessions@.len() == 0
            &&& header.faded == group.dragged
        },
        r matches Some(header) ==> if state.grouping == SidebarGrouping::Project {
            &&& header.star == group.pinned
            &&& header.new_session
            &&& header.draggable
            &&& header.accepts_drops == (state.drag.drag is Some)
            &&& header.hint_before == (!group.dragged && state.drag.proj_drop_hint is Some
                && (state.drag.proj_drop_hint->0).0@ == group.root@ && (state.drag.proj_drop_hint->0).1)
            &&& header.hint_after == (!group.dragged && state.drag.proj_drop_hint is Some
                && (state.drag.proj_drop_hint->0).0@ == group.root@
                && !(state.drag.proj_drop_hint->0).1)
        } else {
            !header.star && !header.new_session && !header.draggable && !header.accepts_drops
                && !header.hint_before && !header.hint_after
        },
{
    assert(sidebar::some_session_is(group.sessions@, statuses@, AgentStatus::NeedsYou) == one_is(
        group.sessions@,
        statuses@,
        AgentStatus::NeedsYou,
    ));
    assert(sidebar::some_session_is(group.sessions@, statuses@, AgentStatus::Running) == one_is(
        group.sessions@,
        statuses@,
        AgentStatus::Running,
    ));
}

/// Rows are shown under a group that is not folded and has sessions.
pub proof fn rows_need_sessions(group: &SidebarGroup, r: bool)
    requires
        call_ensures(group_rows_are_shown, (group,), r),
    ensures
        r <==> !group.collapsed && group.sessions@.len() != 0,
{
}

/// A row carries its session's title and time; it is selected where its session is the one in
/// view, glows where it runs and is animated, and says so where it needs you. It names its project
/// in every list that is not grouped by project, and can be moved in that one alone.
pub proof fn rows_tell_their_session(
    state: &SidebarState,
    group: &SidebarGroup,
    ix: usize,
    info: &SessionInfo,
    animate_running: bool,
    row: SessionRow,
)
    requires
        call_ensures(session_row, (state, group, ix, info, animate_running), row),
    ensures
        row.title@ == info.title@,
        row.updated_at == info.updated_at,
        info.identity.is_pictured_by(row.icon),
        row.selected == (state.session_route_active && state.active_session == ix && (group.active
            || state.grouping != SidebarGrouping::Project)),
        row.glows == (animate_running && info.status == AgentStatus::Running),
        row.status_label is Some <==> info.status == AgentStatus::NeedsYou,
        row.status_label matches Some(label) ==> label@ == "需要你"@,
        state.grouping == SidebarGrouping::Project ==> row.project is None && row.draggable
            && row.accepts_drops == (state.drag.drag is Some),
        state.grouping != SidebarGrouping::Project ==> row.project == info.project && !row.draggable
            && !row.accepts_drops && !row.hint_before && !row.hint_after,
        row.faded == (state.drag.drag == Some(SidebarDrag::Session(info.ui_id))),
        row.hint_before ==> state.drag.sess_drop_hint == Some((info.ui_id, true)) && !row.faded,
        row.hint_after ==> state.drag.sess_drop_hint == Some((info.ui_id, false)) && !row.faded,
        state.grouping == SidebarGrouping::Project && !row.faded && state.drag.sess_drop_hint
            == Some((info.ui_id, true)) ==> row.hint_before,
        state.grouping == SidebarGrouping::Project && !row.faded && state.drag.sess_drop_hint
            == Some((info.ui_id, false)) ==> row.hint_after,
        row.subtitle is Some <==> !info.is_conversation && info.panes@.len() > 1,
        row.subtitle matches Some(split) ==> split@ == "⑂"@ + text::decimal(info.panes@.len()),
        row.panes@.len() == if info.panes@.len() > 1 {
            info.panes@.len()
        } else {
            0
        },
        info.identity.plugin_agent matches Some(agent) ==> row.tooltip@ == agent.name@,
        info.identity.plugin_agent is None && info.identity.conversation is Some ==> row.tooltip@
            == ((info.identity.conversation->0).1)@,
        info.identity.plugin_agent is None && info.identity.conversation is None
            && info.identity.terminal is Some ==> row.tooltip@ == ((info.identity.terminal->0).1)@,
        info.identity.plugin_agent is None && info.identity.conversation is None
            && info.identity.terminal is None ==> row.tooltip@ == "终端"@ && row.icon
            is SquareTerminal,
{
}

/// Panes come in order, each with its own state; the one in front is selected where its session
/// is, a pane without a time of its own has its session's, and a session is dropped before its
/// first or after its last pane.
pub proof fn panes_tell_themselves(
    state: &SidebarState,
    info: &SessionInfo,
    selected: bool,
    animate_running: bool,
    r: Vec<PaneRow>,
    at: int,
)
    requires
        call_ensures(pane_rows, (state, info, selected, animate_running), r),
        0 <= at < r@.len(),
    ensures
        r@.len() == info.panes@.len(),
        r@.len() > 1,
        r@[at].selected == (selected && info.panes@[at].id == info.active_pane),
        r@[at].glows == (animate_running && info.panes@[at].status == AgentStatus::Running),
        r@[at].updated_at == if info.panes@[at].updated_at == 0 {
            info.updated_at
        } else {
            info.panes@[at].updated_at
        },
        r@[at].hint_before ==> at == 0 && state.drag.sess_drop_hint == Some((info.ui_id, true)),
        r@[at].hint_after ==> at == r@.len() - 1 && state.drag.sess_drop_hint == Some(
            (info.ui_id, false),
        ),
        r@[at].draggable == (state.grouping == SidebarGrouping::Project),
        r@[at].faded == (state.drag.drag == Some(SidebarDrag::Session(info.ui_id))),
        r@[at].accepts_drops == (state.grouping == SidebarGrouping::Project && state.drag.drag
            is Some),
        info.panes@[at].agent is None ==> r@[at].icon is SquareTerminal,
        info.panes@[at].agent matches Some(agent) ==> (r@[at].icon matches RowIcon::Asset(path)
            && path@ == "smelt-icons/agent-"@ + agent.0@ + ".svg"@),
        (forall|other: int|
            0 <= other < info.panes@.len() && other != at ==> (
            #[trigger] info.panes@[other]).title@ != info.panes@[at].title@) ==> r@[at].title@
            == info.panes@[at].title@,
        (exists|other: int|
            0 <= other < info.panes@.len() && other != at && (
            #[trigger] info.panes@[other]).title@ == info.panes@[at].title@) ==> r@[at].title@
            == info.panes@[at].title@ + " · "@ + text::decimal((at + 1) as nat),
        r@[at].tooltip@ == (match info.panes@[at].agent {
            Some(agent) => agent.1@,
            None => "终端"@,
        }) + " · "@ + (match info.panes@[at].status {
            AgentStatus::NeedsYou => "需要你"@,
            AgentStatus::Running => "运行中"@,
            AgentStatus::Idle => "空闲"@,
        }),
{
    let all = sidebar::own_titles(info.panes@);
    assert(all.len() == info.panes@.len());
    assert(all[at] == info.panes@[at].title@);
    if exists|other: int|
        0 <= other < info.panes@.len() && other != at && (#[trigger] info.panes@[other]).title@
            == info.panes@[at].title@ {
        let other = choose|other: int|
            0 <= other < info.panes@.len() && other != at && (
            #[trigger] info.panes@[other]).title@ == info.panes@[at].title@;
        assert(all[other] == info.panes@[other].title@);
        if other < at {
            sidebar::lemma_occurs_twice(all, other, at);
        } else {
            sidebar::lemma_occurs_twice(all, at, other);
        }
    }
    if forall|other: int|
        0 <= other < info.panes@.len() && other != at ==> (#[trigger] info.panes@[other]).title@
            != info.panes@[at].title@ {
        assert forall|other: int| 0 <= other < all.len() && other != at implies #[trigger] all[other]
            != all[at] by {
            assert(all[other] == info.panes@[other].title@);
        }
        lemma_alone(all, at, all.len() as int);
    }
}

/// A title that no other pane has stays; one that another has is followed by its place.
pub proof fn shared_titles_are_numbered(titles: &Vec<String>, r: Vec<String>, at: int)
    requires
        call_ensures(pane_titles, (titles,), r),
        0 <= at < titles@.len(),
    ensures
        r@.len() == titles@.len(),
        (exists|other: int|
            0 <= other < titles@.len() && other != at && (#[trigger] titles@[other])@
                == titles@[at]@) ==> r@[at]@ == titles@[at]@ + " · "@ + text::decimal(
            (at + 1) as nat,
        ),
        (forall|other: int|
            0 <= other < titles@.len() && other != at ==> (#[trigger] titles@[other])@
                != titles@[at]@) ==> r@[at]@ == titles@[at]@,
{
    let all = text::texts(titles@);
    let out = text::texts(r@);
    assert(out == sidebar::pane_titles_of(all));
    assert(out.len() == r@.len());
    assert(out[at] == r@[at]@);
    assert(all[at] == titles@[at]@);
    if exists|other: int|
        0 <= other < titles@.len() && other != at && (#[trigger] titles@[other])@ == titles@[at]@ {
        let other = choose|other: int|
            0 <= other < titles@.len() && other != at && (#[trigger] titles@[other])@
                == titles@[at]@;
        assert(all[other] == titles@[other]@);
        if other < at {
            sidebar::lemma_occurs_twice(all, other, at);
        } else {
            sidebar::lemma_occurs_twice(all, at, other);
        }
    }
    if forall|other: int|
        0 <= other < titles@.len() && other != at ==> (#[trigger] titles@[other])@ != titles@[at]@ {
        assert forall|other: int| 0 <= other < all.len() && other != at implies #[trigger] all[other]
            != all[at] by {
            assert(all[other] == titles@[other]@);
        }
        lemma_alone(all, at, all.len() as int);
    }
}

proof fn lemma_alone(titles: Seq<Seq<char>>, at: int, count: int)
    requires
        0 <= at < titles.len(),
        0 <= count <= titles.len(),
        forall|other: int| 0 <= other < titles.len() && other != at ==> #[trigger] titles[other]
            != titles[at],
    ensures
        sidebar::occurrences(titles.take(count), titles[at]) <= 1,
        count <= at ==> sidebar::occurrences(titles.take(count), titles[at]) == 0,
        count == titles.len() ==> titles.take(count) == titles,
    decreases count,
{
    if count > 0 {
        lemma_alone(titles, at, count - 1);
        assert(titles.take(count).drop_last() =~= titles.take(count - 1));
        assert(titles.take(count).last() == titles[count - 1]);
        lemma_none_before(titles, at, count - 1);
    }
    if count == titles.len() {
        assert(titles.take(count) =~= titles);
    }
}

proof fn lemma_none_before(titles: Seq<Seq<char>>, at: int, count: int)
    requires
        0 <= at < titles.len(),
        0 <= count <= titles.len(),
        forall|other: int| 0 <= other < titles.len() && other != at ==> #[trigger] titles[other]
            != titles[at],
    ensures
        count <= at ==> sidebar::occurrences(titles.take(count), titles[at]) == 0,
    decreases count,
{
    if count > 0 {
        lemma_none_before(titles, at, count - 1);
        assert(titles.take(count).drop_last() =~= titles.take(count - 1));
        assert(titles.take(count).last() == titles[count - 1]);
    }
}

/// A pane is described by its agent, or as a terminal, and by its state.
pub proof fn tooltips_name_agent_and_state(agent: Option<&str>, status: AgentStatus, r: String)
    requires
        call_ensures(pane_tooltip, (agent, status), r),
    ensures
        r@ == (match agent {
            Some(label) => label@,
            None => "终端"@,
        }) + " · "@ + (match status {
            AgentStatus::NeedsYou => "需要你"@,
            AgentStatus::Running => "运行中"@,
            AgentStatus::Idle => "空闲"@,
        }),
{
}

proof fn lemma_first_marked(marks: Seq<bool>, from: int)
    requires
        0 <= from <= marks.len(),
    ensures
        match sidebar::first_marked(marks, from) {
            Some(at) => from <= at < marks.len() && marks[at] && forall|i: int|
                from <= i < at ==> !(#[trigger] marks[i]),
            None => forall|i: int| from <= i < marks.len() ==> !(#[trigger] marks[i]),
        },
    decreases marks.len() - from,
{
    if from < marks.len() && !marks[from] {
        lemma_first_marked(marks, from + 1);
    }
}

/// The project in view is the first active one; else the open conversation's; else the first that
/// holds the session in view; else the first of all.
pub proof fn the_active_project_wins(
    groups: &Vec<SidebarGroup>,
    selected: Option<&str>,
    conversation_is_open: bool,
    active_session: usize,
    r: Option<String>,
    g: int,
)
    requires
        call_ensures(
            active_project_root,
            (groups, selected, conversation_is_open, active_session),
            r,
        ),
    ensures
        r is None ==> groups@.len() == 0 && !(conversation_is_open && selected is Some),
        0 <= g < groups@.len() && groups@[g].active && (forall|i: int|
            0 <= i < g ==> !(#[trigger] groups@[i]).active) ==> r is Some && r->0@
            == groups@[g].root@,
        (forall|i: int| 0 <= i < groups@.len() ==> !(#[trigger] groups@[i]).active)
            && conversation_is_open && selected is Some ==> r is Some && r->0@ == selected->0@,
        (forall|i: int| 0 <= i < groups@.len() ==> !(#[trigger] groups@[i]).active) && !(
        conversation_is_open && selected is Some) && 0 <= g < groups@.len()
            && groups@[g].sessions@.contains(active_session) && (forall|i: int|
            0 <= i < g ==> !(#[trigger] groups@[i]).sessions@.contains(active_session)) ==> r is Some
            && r->0@ == groups@[g].root@,
        (forall|i: int|
            0 <= i < groups@.len() ==> !(#[trigger] groups@[i]).active && !groups@[i].sessions@.contains(
                active_session,
            )) && !(conversation_is_open && selected is Some) && groups@.len() > 0 ==> r is Some
            && r->0@ == groups@[0].root@,
{
    let actives = sidebar::active_marks(groups@);
    let holders = sidebar::session_marks(groups@, active_session);
    lemma_first_marked(actives, 0);
    lemma_first_marked(holders, 0);
    assert forall|i: int| 0 <= i < groups@.len() implies actives[i] == (
    #[trigger] groups@[i]).active && holders[i] == groups@[i].sessions@.contains(
        active_session,
    ) by {
    }
    if 0 <= g < groups@.len() {
        assert(actives[g] == groups@[g].active);
        assert(holders[g] == groups@[g].sessions@.contains(active_session));
    }
    if sidebar::first_marked(actives, 0) is Some {
        let at = sidebar::first_marked(actives, 0)->0;
        assert(groups@[at].active);
    }
    if sidebar::first_marked(holders, 0) is Some {
        let at = sidebar::first_marked(holders, 0)->0;
        assert(groups@[at].sessions@.contains(active_session));
    }
}

/// The tool panel shows the selected group; else the open conversation; else the active session's
/// group; else the first.
pub proof fn the_panel_prefers_what_is_selected(
    selected: Option<&str>,
    selected_group_root: Option<&str>,
    selected_is_open_conversation: bool,
    active_session_group_root: Option<&str>,
    first_group_root: Option<&str>,
    r: Option<String>,
)
    requires
        call_ensures(
            tool_panel_context_root,
            (
                selected,
                selected_group_root,
                selected_is_open_conversation,
                active_session_group_root,
                first_group_root,
            ),
            r,
        ),
    ensures
        selected_group_root matches Some(root) ==> r is Some && r->0@ == root@,
        selected_group_root is None && selected_is_open_conversation ==> (selected matches Some(
            root,
        ) ==> r is Some && r->0@ == root@),
        selected_group_root is None && !(selected_is_open_conversation && selected is Some) ==> (
        active_session_group_root matches Some(root) ==> r is Some && r->0@ == root@),
        selected_group_root is None && !(selected_is_open_conversation && selected is Some)
            && active_session_group_root is None ==> (first_group_root matches Some(root) ==> r
            is Some && r->0@ == root@),
        selected_group_root is None && !(selected_is_open_conversation && selected is Some)
            && active_session_group_root is None && first_group_root is None ==> r is None,
{
}

/// A conversation's workspace is open where one session is a conversation in it.
pub proof fn open_workspaces_hold_a_conversation(
    conversation_root: bool,
    sessions: &Vec<(bool, bool)>,
    r: bool,
    i: int,
)
    requires
        call_ensures(agent_conversation_workspace_is_open, (conversation_root, sessions), r),
    ensures
        !conversation_root ==> !r,
        conversation_root && 0 <= i < sessions@.len() && sessions@[i].0 && sessions@[i].1 ==> r,
        (forall|k: int|
            0 <= k < sessions@.len() ==> !((#[trigger] sessions@[k]).0 && sessions@[k].1)) ==> !r,
{
    assert(r == (conversation_root && sidebar::some_is_open_here(sessions@)));
    if 0 <= i < sessions@.len() {
        let pair = sessions@[i];
    }
}

proof fn lemma_project_of(
    groups: Seq<SidebarGroup>,
    branches: Seq<Option<String>>,
    ix: usize,
    count: int,
)
    requires
        0 <= count <= groups.len(),
    ensures
        match sidebar::project_of(groups, branches, ix, count) {
            Some(project) => exists|g: int|
                0 <= g < count && (#[trigger] groups[g]).sessions@.contains(ix) && project == (
                    groups[g].label,
                    branches[g],
                ) && (forall|k: int|
                    g < k < count ==> !(#[trigger] groups[k]).sessions@.contains(ix)),
            None => forall|k: int| 0 <= k < count ==> !(#[trigger] groups[k]).sessions@.contains(ix),
        },
    decreases count,
{
    if count > 0 && !groups[count - 1].sessions@.contains(ix) {
        lemma_project_of(groups, branches, ix, count - 1);
    }
}

/// A session is in the last group that lists it, under that group's name and branch.
pub proof fn sessions_name_the_group_that_lists_them(
    groups: &Vec<SidebarGroup>,
    branches: &Vec<Option<String>>,
    ix: usize,
    r: Option<(String, Option<String>)>,
)
    requires
        branches@.len() == groups@.len(),
        call_ensures(session_project, (groups, branches, ix), r),
    ensures
        r is None <==> forall|k: int|
            0 <= k < groups@.len() ==> !(#[trigger] groups@[k]).sessions@.contains(ix),
        r matches Some(project) ==> exists|g: int|
            0 <= g < groups@.len() && (#[trigger] groups@[g]).sessions@.contains(ix) && project == (
                groups@[g].label,
                branches@[g],
            ) && (forall|k: int|
                g < k < groups@.len() ==> !(#[trigger] groups@[k]).sessions@.contains(ix)),
{
    lemma_project_of(groups@, branches@, ix, groups@.len() as int);
}

proof fn lemma_plugin_agent(group: Seq<usize>, sessions: Seq<SessionInfo>, from: int)
    requires
        0 <= from <= group.len(),
    ensures
        match sidebar::plugin_agent_from(group, sessions, from) {
            Some(agent) => exists|i: int|
                from <= i < group.len() && sessions[(#[trigger] group[i]) as int].identity.plugin_agent
                    == Some(agent) && (forall|k: int|
                    from <= k < i ==> sessions[(
                    #[trigger] group[k]) as int].identity.plugin_agent is None),
            None => forall|i: int|
                from <= i < group.len() ==> sessions[(
                #[trigger] group[i]) as int].identity.plugin_agent is None,
        },
    decreases group.len() - from,
{
    if from < group.len() && sessions[group[from] as int].identity.plugin_agent is None {
        lemma_plugin_agent(group, sessions, from + 1);
    }
}

/// A project shows the agent of the first of its sessions that a plugin brought; other groups show
/// none.
pub proof fn projects_show_the_first_plugin_agent(
    state: &SidebarState,
    group: &SidebarGroup,
    sessions: &Vec<SessionInfo>,
    r: Option<(RowIcon, String)>,
)
    requires
        call_ensures(group_agent, (state, group, sessions), r),
    ensures
        state.grouping != SidebarGrouping::Project ==> r is None,
        state.grouping == SidebarGrouping::Project && r is None ==> forall|i: int|
            0 <= i < group.sessions@.len() ==> sessions@[(
            #[trigger] group.sessions@[i]) as int].identity.plugin_agent is None,
        r matches Some(shown) ==> exists|i: int|
            0 <= i < group.sessions@.len() && (sessions@[(
            #[trigger] group.sessions@[i]) as int].identity.plugin_agent matches Some(agent)
                && agent.name == shown.1) && (forall|k: int|
                0 <= k < i ==> sessions@[(
                #[trigger] group.sessions@[k]) as int].identity.plugin_agent is None),
{
    lemma_plugin_agent(group.sessions@, sessions@, 0);
}

/// The filters offer all projects and those with sessions, and the one in force is marked.
pub proof fn the_filter_in_force_is_marked(state: &SidebarState, r: Vec<EmptyFilter>, i: int)
    requires
        call_ensures(empty_filters, (state,), r),
        0 <= i < r@.len(),
    ensures
        r@.len() == 2,
        r@[i].selected <==> r@[i].hide_empty == state.hide_empty,
        r@[i].hide_empty == (i == 1),
        r@[i].label@ == if r@[i].hide_empty {
            "有会话"@
        } else {
            "全部"@
        },
{
}

/// Hiding empty projects changes that alone, and tells whether it did.
pub proof fn hiding_changes_nothing_else(state: &mut SidebarState, hide: bool, r: bool)
    requires
        call_ensures(set_hide_empty, (state, hide), r),
    ensures
        final(state).hide_empty == hide,
        final(state).grouping == old(state).grouping,
        final(state).session_route_active == old(state).session_route_active,
        final(state).active_session == old(state).active_session,
        final(state).drag == old(state).drag,
        r <==> final(state).hide_empty != old(state).hide_empty,
{
}

/// Settings ask for attention for an update and for an outdated service, and for nothing else.
pub proof fn updates_ask_for_attention(
    update_available: bool,
    daemon_outdated: Option<bool>,
    r: bool,
)
    requires
        call_ensures(settings_need_attention, (update_available, daemon_outdated), r),
    ensures
        update_available ==> r,
        daemon_outdated == Some(true) ==> r,
        !update_available && daemon_outdated != Some(true) ==> !r,
{
}

/// A click that ends a drag does nothing; another selects the project, and folds or unfolds it
/// where it has sessions.
pub proof fn clicks_select_projects(state: &SidebarState, group: &SidebarGroup, r: HeaderClick)
    requires
        call_ensures(project_header_click, (state, group), r),
    ensures
        r is Nothing <==> state.drag.drag is Some,
        r is SelectAndToggle <==> state.drag.drag is None && group.sessions@.len() != 0,
        r is Select <==> state.drag.drag is None && group.sessions@.len() == 0,
{
}

/// Surfaces keep their order, keys and titles, show the first letter of their title, and the open
/// one is marked; without surfaces there is no list.
pub proof fn surfaces_are_listed_in_order(
    surfaces: Vec<(String, String)>,
    active: &Option<String>,
    r: Option<Vec<SurfaceRow>>,
    i: int,
)
    requires
        call_ensures(workspace_surface_rows, (surfaces, active), r),
    ensures
        r is None <==> surfaces@.len() == 0,
        r matches Some(rows) ==> rows@.len() == surfaces@.len() && (0 <= i < rows@.len() ==> {
            &&& rows@[i].key@ == (surfaces@[i].0)@
            &&& rows@[i].title@ == (surfaces@[i].1)@
            &&& rows@[i].selected == (active is Some && active->0@ == rows@[i].key@)
            &&& rows@[i].title@.len() > 0 ==> rows@[i].initial@ == sidebar::capitals(
                rows@[i].title@[0],
            )
            &&& rows@[i].title@.len() == 0 ==> rows@[i].initial@ == sidebar::capitals('P')
        }),
{
}

/// One surface is listed as it is in a list of several.
pub proof fn one_surface_is_listed_alike(
    key: String,
    title: String,
    active: &Option<String>,
    row: SurfaceRow,
    initial: String,
    first: char,
    text: &str,
    renames: bool,
    clicks: usize,
)
    requires
        call_ensures(workspace_surface_row, (key, title, active), row),
        call_ensures(surface_initial, (text,), initial),
        call_ensures(initial_of, (text,), first),
        call_ensures(surface_click_renames, (clicks,), renames),
    ensures
        row.key@ == key@,
        row.title@ == title@,
        row.selected == (active is Some && active->0@ == key@),
        text@.len() > 0 ==> first == text@[0],
        text@.len() == 0 ==> first == 'P',
        initial@ == sidebar::capitals(first),
        text@ == title@ ==> row.initial@ == initial@,
        renames <==> clicks > 1,
{
}

/// The list is made of headers and rows as they are made one by one.
pub proof fn lists_are_made_of_headers_and_rows(
    state: &SidebarState,
    groups: &Vec<SidebarGroup>,
    sessions: &Vec<SessionInfo>,
    statuses: &Vec<AgentStatus>,
    animate_running: bool,
    r: Vec<GroupView>,
    v: int,
    i: int,
)
    requires
        call_ensures(session_groups, (state, groups, sessions, statuses, animate_running), r),
        0 <= v < r@.len(),
    ensures
        ({
            let group = groups@[r@[v].group as int];
            &&& r@[v].header is None <==> state.grouping == SidebarGrouping::Ungrouped
            &&& sidebar::is_header_of(r@[v].header, *state, group, statuses@)
            &&& r@[v].header matches Some(header) ==> header.count@ == text::decimal(
                group.sessions@.len(),
            )
            &&& 0 <= i < r@[v].rows@.len() ==> sidebar::is_row_of(
                r@[v].rows@[i],
                *state,
                group,
                group.sessions@[i],
                sessions@[group.sessions@[i] as int],
                animate_running,
            )
            &&& 0 <= i < r@[v].rows@.len() && r@[v].rows@[i].selected ==> group.sessions@[i]
                == state.active_session
        }),
{
    let at = sidebar::listed_positions(*state, groups@, groups@.len() as int)[v];
    assert(r@[v].group == at);
}

} // verus!
