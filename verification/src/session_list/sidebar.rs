//! What the list shows: which groups, how their headers look, and the rows below them.

use vstd::prelude::*;

use crate::session_list::drag;
use crate::session_list::drag::{project_disclosure_icon, SidebarDrag, SidebarDragState};
use crate::session_list::row;
use crate::session_list::row::{
    effective_pane_updated_at, plugin_agent_icon, project_header_is_selected, provider_icon,
    session_row_is_selected, session_row_status_label, status_text, AgentStatus,
    PluginAgentPresentation, RowIcon, SessionIdentity,
};
use crate::text;
use crate::text::{chars_of, concat, decimal_text, same_text};

verus! {

/// What the list groups its sessions by.
#[derive(Clone, Copy, Debug, PartialEq, Eq, Structural)]
pub enum SidebarGrouping {
    Project,
    Status,
    LastUpdated,
    Ungrouped,
}

/// A group of sessions. `active` says whether it is the project at hand, and `dragged` whether
/// it is the project that is being dragged.
#[derive(Debug, PartialEq, Eq)]
pub struct SidebarGroup {
    pub root: String,
    pub label: String,
    pub sessions: Vec<usize>,
    pub collapsed: bool,
    pub active: bool,
    pub pinned: bool,
    pub dragged: bool,
}

/// How the list is set up, and what goes on in it.
#[derive(Debug, PartialEq, Eq)]
pub struct SidebarState {
    pub grouping: SidebarGrouping,
    pub hide_empty: bool,
    pub session_route_active: bool,
    pub active_session: usize,
    pub drag: SidebarDragState,
}

/// The first of the roots that there are.
pub open spec fn first_root(first: Option<&str>, second: Option<&str>) -> Option<Seq<char>> {
    match first {
        Some(root) => Some(root@),
        None => match second {
            Some(root) => Some(root@),
            None => None,
        },
    }
}

/// The root that the tool panels work on. What was selected last counts as long as it is there,
/// as a project or as the directory of a conversation that is open; then the project of the
/// active session; then the first project.
pub fn tool_panel_context_root(
    selected: Option<&str>,
    selected_group_root: Option<&str>,
    selected_is_open_conversation: bool,
    active_session_group_root: Option<&str>,
    first_group_root: Option<&str>,
) -> (r: Option<String>)
    ensures
        (match r {
            Some(root) => Some(root@),
            None => None,
        }) == if selected_group_root is Some {
            first_root(selected_group_root, None)
        } else if selected_is_open_conversation && selected is Some {
            first_root(selected, None)
        } else {
            first_root(active_session_group_root, first_group_root)
        },
{
    if let Some(root) = selected_group_root {
        return Some(root.to_owned());
    }
    if selected_is_open_conversation {
        if let Some(root) = selected {
            return Some(root.to_owned());
        }
    }
    match active_session_group_root {
        Some(root) => Some(root.to_owned()),
        None => match first_group_root {
            Some(root) => Some(root.to_owned()),
            None => None,
        },
    }
}

/// One of the sessions is a conversation in the directory.
pub open spec fn some_is_open_here(sessions: Seq<(bool, bool)>) -> bool {
    exists|i: int| 0 <= i < sessions.len() && (#[trigger] sessions[i]).0 && sessions[i].1
}

/// Whether a directory is that of a conversation which is open. `conversation_root` says whether
/// it is a directory for conversations at all; of each session it is known whether it is a
/// conversation, and whether it is in that directory.
pub fn agent_conversation_workspace_is_open(
    conversation_root: bool,
    sessions: &Vec<(bool, bool)>,
) -> (r: bool)
    ensures
        r == (conversation_root && some_is_open_here(sessions@)),
{
    if !conversation_root {
        return false;
    }
    let mut i: usize = 0;
    while i < sessions.len()
        invariant
            conversation_root,
            i <= sessions.len(),
            forall|k: int| 0 <= k < i ==> !((#[trigger] sessions@[k]).0 && sessions@[k].1),
        decreases sessions.len() - i,
    {
        if sessions[i].0 && sessions[i].1 {
            assert(sessions@[i as int].0);
            return true;
        }
        i = i + 1;
    }
    false
}

/// The session is in the group.
pub open spec fn has_session(sessions: Seq<usize>, ix: usize) -> bool {
    sessions.contains(ix)
}

fn contains_session(sessions: &Vec<usize>, ix: usize) -> (r: bool)
    ensures
        r == has_session(sessions@, ix),
{
    let mut i: usize = 0;
    while i < sessions.len()
        invariant
            i <= sessions.len(),
            forall|k: int| 0 <= k < i ==> sessions@[k] != ix,
        decreases sessions.len() - i,
    {
        if sessions[i] == ix {
            assert(sessions@[i as int] == ix);
            return true;
        }
        i = i + 1;
    }
    false
}

/// The first group for which a mark is set.
pub open spec fn first_marked(marks: Seq<bool>, from: int) -> Option<int>
    decreases marks.len() - from,
{
    if from >= marks.len() {
        None
    } else if marks[from] {
        Some(from)
    } else {
        first_marked(marks, from + 1)
    }
}

/// Which groups are the project at hand.
pub open spec fn active_marks(groups: Seq<SidebarGroup>) -> Seq<bool> {
    groups.map_values(|group: SidebarGroup| group.active)
}

/// Which groups have the session.
pub open spec fn session_marks(groups: Seq<SidebarGroup>, ix: usize) -> Seq<bool> {
    groups.map_values(|group: SidebarGroup| has_session(group.sessions@, ix))
}

/// The root of the group at a position.
pub open spec fn root_at(groups: Seq<SidebarGroup>, at: Option<int>) -> Option<Seq<char>> {
    match at {
        Some(i) => Some(groups[i].root@),
        None => None,
    }
}

/// The root that is at hand: the one selected, where it is a group or the directory of an open
/// conversation; else that of the group with the active session; else that of the first group.
pub open spec fn active_root(
    groups: Seq<SidebarGroup>,
    selected: Option<Seq<char>>,
    conversation_is_open: bool,
    active_session: usize,
) -> Option<Seq<char>> {
    let chosen = root_at(groups, first_marked(active_marks(groups), 0));
    let active = root_at(groups, first_marked(session_marks(groups, active_session), 0));
    if chosen is Some {
        chosen
    } else if conversation_is_open && selected is Some {
        selected
    } else if active is Some {
        active
    } else if groups.len() > 0 {
        Some(groups[0].root@)
    } else {
        None
    }
}

/// The root that is at hand. Here `active` marks the groups that are the project which the user
/// has selected.
pub fn active_project_root(
    groups: &Vec<SidebarGroup>,
    selected: Option<&str>,
    conversation_is_open: bool,
    active_session: usize,
) -> (r: Option<String>)
    ensures
        (match r {
            Some(root) => Some(root@),
            None => None,
        }) == active_root(
            groups@,
            (match selected {
                Some(root) => Some(root@),
                None => None,
            }),
            conversation_is_open,
            active_session,
        ),
{
    let ghost chosen = active_marks(groups@);
    let ghost holding = session_marks(groups@, active_session);
    let mut i: usize = 0;
    while i < groups.len()
        invariant
            i <= groups.len(),
            chosen == active_marks(groups@),
            first_marked(chosen, 0) == first_marked(chosen, i as int),
        decreases groups.len() - i,
    {
        assert(chosen[i as int] == groups@[i as int].active);
        if groups[i].active {
            return tool_panel_context_root(
                selected,
                Some(groups[i].root.as_str()),
                conversation_is_open,
                None,
                None,
            );
        }
        i = i + 1;
    }
    let first: Option<&str> = if groups.len() > 0 {
        Some(groups[0].root.as_str())
    } else {
        None
    };
    i = 0;
    while i < groups.len()
        invariant
            i <= groups.len(),
            chosen == active_marks(groups@),
            first_marked(chosen, 0) is None,
            holding == session_marks(groups@, active_session),
            first_marked(holding, 0) == first_marked(holding, i as int),
        decreases groups.len() - i,
    {
        assert(holding[i as int] == has_session(groups@[i as int].sessions@, active_session));
        if contains_session(&groups[i].sessions, active_session) {
            return tool_panel_context_root(
                selected,
                None,
                conversation_is_open,
                Some(groups[i].root.as_str()),
                None,
            );
        }
        i = i + 1;
    }
    tool_panel_context_root(selected, None, conversation_is_open, None, first)
}

/// Some session of the group has the state.
pub open spec fn some_session_is(
    sessions: Seq<usize>,
    statuses: Seq<AgentStatus>,
    status: AgentStatus,
) -> bool {
    exists|i: int|
        0 <= i < sessions.len() && (#[trigger] sessions[i]) < statuses.len()
            && statuses[sessions[i] as int] == status
}

/// The most urgent state of the sessions of a group. A group without sessions is idle.
pub open spec fn most_urgent(sessions: Seq<usize>, statuses: Seq<AgentStatus>) -> AgentStatus {
    if some_session_is(sessions, statuses, AgentStatus::NeedsYou) {
        AgentStatus::NeedsYou
    } else if some_session_is(sessions, statuses, AgentStatus::Running) {
        AgentStatus::Running
    } else {
        AgentStatus::Idle
    }
}

/// The most urgent state of the sessions of a group.
pub fn aggregate_status(sessions: &Vec<usize>, statuses: &Vec<AgentStatus>) -> (r: AgentStatus)
    ensures
        r == most_urgent(sessions@, statuses@),
{
    let mut urgent: AgentStatus = AgentStatus::Idle;
    let mut i: usize = 0;
    while i < sessions.len()
        invariant
            i <= sessions.len(),
            !(urgent is NeedsYou),
            urgent is Running <==> some_session_is(
                sessions@.take(i as int),
                statuses@,
                AgentStatus::Running,
            ),
            forall|k: int|
                0 <= k < i && (#[trigger] sessions@[k]) < statuses@.len()
                    ==> statuses@[sessions@[k] as int] != AgentStatus::NeedsYou,
        decreases sessions.len() - i,
    {
        let ghost taken = sessions@.take(i as int);
        let ghost more = sessions@.take(i + 1);
        proof {
            assert(more =~= taken.push(sessions@[i as int]));
            if some_session_is(taken, statuses@, AgentStatus::Running) {
                let k = choose|k: int|
                    0 <= k < taken.len() && (#[trigger] taken[k]) < statuses@.len()
                        && statuses@[taken[k] as int] == AgentStatus::Running;
                assert(more[k] == taken[k]);
            }
            if some_session_is(more, statuses@, AgentStatus::Running) {
                let k = choose|k: int|
                    0 <= k < more.len() && (#[trigger] more[k]) < statuses@.len()
                        && statuses@[more[k] as int] == AgentStatus::Running;
                if k < i {
                    assert(taken[k] == more[k]);
                }
            }
        }
        let ix: usize = sessions[i];
        if ix < statuses.len() {
            match statuses[ix] {
                AgentStatus::NeedsYou => {
                    assert(sessions@[i as int] < statuses@.len());
                    return AgentStatus::NeedsYou;
                },
                AgentStatus::Running => {
                    urgent = AgentStatus::Running;
                    assert(more[i as int] == ix);
                },
                AgentStatus::Idle => {},
            }
        }
        i = i + 1;
    }
    assert(sessions@.take(i as int) =~= sessions@);
    urgent
}

/// A group is shown. Projects without sessions can be hidden, but not those that are pinned, nor
/// the one at hand.
pub open spec fn is_shown(state: SidebarState, group: SidebarGroup) -> bool {
    ||| !(state.grouping is Project)
    ||| !state.hide_empty
    ||| group.sessions@.len() > 0
    ||| group.pinned
    ||| group.active
}

/// Whether a group is shown.
pub fn group_is_shown(state: &SidebarState, group: &SidebarGroup) -> (r: bool)
    ensures
        r == is_shown(*state, *group),
{
    let by_project: bool = match state.grouping {
        SidebarGrouping::Project => true,
        _ => false,
    };
    !by_project || !state.hide_empty || group.sessions.len() > 0 || group.pinned || group.active
}

/// How many groups are hidden.
pub open spec fn hidden(state: SidebarState, groups: Seq<SidebarGroup>) -> nat
    decreases groups.len(),
{
    if groups.len() == 0 {
        0
    } else {
        hidden(state, groups.drop_last()) + if is_shown(state, groups.last()) {
            0nat
        } else {
            1
        }
    }
}

/// What is said of projects that are hidden, where there are any.
pub fn hidden_projects_text(state: &SidebarState, groups: &Vec<SidebarGroup>) -> (r: Option<
    String,
>)
    ensures
        match r {
            Some(text) => hidden(*state, groups@) > 0 && text@ == "已隐藏 "@ + text::decimal(
                hidden(*state, groups@),
            ) + " 个无会话项目"@,
            None => hidden(*state, groups@) == 0,
        },
{
    let mut count: usize = 0;
    let mut i: usize = 0;
    while i < groups.len()
        invariant
            i <= groups.len(),
            count <= i,
            count == hidden(*state, groups@.take(i as int)),
        decreases groups.len() - i,
    {
        assert(groups@.take(i + 1).drop_last() =~= groups@.take(i as int));
        if !group_is_shown(state, &groups[i]) {
            count = count + 1;
        }
        i = i + 1;
    }
    assert(groups@.take(i as int) =~= groups@);
    if count == 0 {
        return None;
    }
    let mut out: String = concat("已隐藏 ", decimal_text(count as u64).as_str());
    out.append(" 个无会话项目");
    Some(out)
}

/// How bright the name of a project is.
#[derive(Clone, Copy, Debug, PartialEq, Eq, Structural)]
pub enum HeaderTone {
    Bright,
    Mid,
    Faint,
}

/// The header of a group.
#[derive(Debug, PartialEq, Eq)]
pub struct GroupHeader {
    pub selected: bool,
    pub disclosure: RowIcon,
    pub tone: HeaderTone,
    pub star: bool,
    pub dot: Option<AgentStatus>,
    pub count: String,
    pub new_session: bool,
    pub draggable: bool,
    pub accepts_drops: bool,
    pub faded: bool,
    pub hint_before: bool,
    pub hint_after: bool,
}

/// Something is dragged that can land beside the rows.
pub open spec fn drops_are_open(state: SidebarState) -> bool {
    state.grouping is Project && state.drag.drag is Some
}

fn accepts_drops(state: &SidebarState) -> (r: bool)
    ensures
        r == drops_are_open(*state),
{
    let by_project: bool = match state.grouping {
        SidebarGrouping::Project => true,
        _ => false,
    };
    by_project && state.drag.drag.is_some()
}

/// The active session can be seen in the group.
pub open spec fn shows_active_session(state: SidebarState, group: SidebarGroup) -> bool {
    state.session_route_active && !group.collapsed && has_session(
        group.sessions@,
        state.active_session,
    )
}

/// What is dragged would land beside the group, in front of it or behind it.
pub open spec fn project_hinted(state: SidebarState, group: SidebarGroup, before: bool) -> bool {
    state.grouping is Project && !group.dragged && drag::project_hint(state.drag.proj_drop_hint)
        == Some((group.root@, before))
}

fn project_hint_is(state: &SidebarState, group: &SidebarGroup, before: bool) -> (r: bool)
    ensures
        r == project_hinted(*state, *group, before),
{
    let by_project: bool = match state.grouping {
        SidebarGrouping::Project => true,
        _ => false,
    };
    by_project && !group.dragged && match &state.drag.proj_drop_hint {
        Some(hint) => same_text(hint.0.as_str(), group.root.as_str()) && hint.1 == before,
        None => false,
    }
}

/// A header is that of a group. Where sessions are not grouped there is none.
pub open spec fn is_header_of(
    header: Option<GroupHeader>,
    state: SidebarState,
    group: SidebarGroup,
    statuses: Seq<AgentStatus>,
) -> bool {
    let empty = group.sessions@.len() == 0;
    let by_project = state.grouping is Project;
    let urgent = most_urgent(group.sessions@, statuses);
    &&& header is Some <==> !(state.grouping is Ungrouped)
    &&& header matches Some(header) ==> {
        &&& header.selected == row::header_selected(
            state.session_route_active,
            group.active,
            shows_active_session(state, group),
        )
        &&& header.disclosure == drag::disclosure(group.collapsed || empty)
        &&& header.tone == if group.active {
            HeaderTone::Bright
        } else if empty {
            HeaderTone::Faint
        } else {
            HeaderTone::Mid
        }
        &&& header.star == (by_project && group.pinned)
        &&& header.dot == if urgent is Idle {
            None
        } else {
            Some(urgent)
        }
        &&& header.count@ == text::decimal(group.sessions@.len())
        &&& header.new_session == by_project
        &&& header.draggable == by_project
        &&& header.accepts_drops == drops_are_open(state)
        &&& header.faded == group.dragged
        &&& header.hint_before == project_hinted(state, group, true)
        &&& header.hint_after == project_hinted(state, group, false)
    }
}

/// The header of a group.
pub fn group_header(state: &SidebarState, group: &SidebarGroup, statuses: &Vec<AgentStatus>) -> (r:
    Option<GroupHeader>)
    ensures
        is_header_of(r, *state, *group, statuses@),
{
    if let SidebarGrouping::Ungrouped = state.grouping {
        return None;
    }
    let by_project: bool = match state.grouping {
        SidebarGrouping::Project => true,
        _ => false,
    };
    let empty: bool = group.sessions.len() == 0;
    let visible: bool = state.session_route_active && !group.collapsed && contains_session(
        &group.sessions,
        state.active_session,
    );
    let urgent: AgentStatus = aggregate_status(&group.sessions, statuses);
    let tone: HeaderTone = if group.active {
        HeaderTone::Bright
    } else if empty {
        HeaderTone::Faint
    } else {
        HeaderTone::Mid
    };
    Some(
        GroupHeader {
            selected: project_header_is_selected(
                state.session_route_active,
                group.active,
                visible,
            ),
            disclosure: project_disclosure_icon(group.collapsed || empty),
            tone,
            star: by_project && group.pinned,
            dot: match urgent {
                AgentStatus::Idle => None,
                _ => Some(urgent),
            },
            count: decimal_text(group.sessions.len() as u64),
            new_session: by_project,
            draggable: by_project,
            accepts_drops: accepts_drops(state),
            faded: group.dragged,
            hint_before: project_hint_is(state, group, true),
            hint_after: project_hint_is(state, group, false),
        },
    )
}

/// The first agent of a plugin that is at work in a session of a group, from `from` on.
pub open spec fn plugin_agent_from(
    group: Seq<usize>,
    sessions: Seq<SessionInfo>,
    from: int,
) -> Option<PluginAgentPresentation>
    decreases group.len() - from,
{
    if from >= group.len() {
        None
    } else if sessions[group[from] as int].identity.plugin_agent is Some {
        sessions[group[from] as int].identity.plugin_agent
    } else {
        plugin_agent_from(group, sessions, from + 1)
    }
}

/// The picture beside the name of a project, and what is said of it: those of the first agent of
/// a plugin that is at work in it. Only projects have one.
pub fn group_agent(state: &SidebarState, group: &SidebarGroup, sessions: &Vec<SessionInfo>) -> (r:
    Option<(RowIcon, String)>)
    requires
        forall|i: int|
            0 <= i < group.sessions@.len() ==> #[trigger] group.sessions@[i] < sessions@.len(),
    ensures
        match plugin_agent_from(group.sessions@, sessions@, 0) {
            Some(agent) if state.grouping is Project => r matches Some((icon, name)) && name
                == agent.name && icon == match agent.icon_asset {
                Some(path) => RowIcon::Asset(path),
                None => RowIcon::Bot,
            },
            _ => r is None,
        },
{
    let by_project: bool = match state.grouping {
        SidebarGrouping::Project => true,
        _ => false,
    };
    if !by_project {
        return None;
    }
    let mut i: usize = 0;
    while i < group.sessions.len()
        invariant
            state.grouping is Project,
            i <= group.sessions.len(),
            forall|k: int|
                0 <= k < group.sessions@.len() ==> #[trigger] group.sessions@[k] < sessions@.len(),
            plugin_agent_from(group.sessions@, sessions@, 0) == plugin_agent_from(
                group.sessions@,
                sessions@,
                i as int,
            ),
        decreases group.sessions.len() - i,
    {
        let ix: usize = group.sessions[i];
        if let Some(agent) = &sessions[ix].identity.plugin_agent {
            return Some((plugin_agent_icon(agent), agent.name.clone()));
        }
        i = i + 1;
    }
    None
}

/// A choice of which projects the list shows.
#[derive(Debug, PartialEq, Eq)]
pub struct EmptyFilter {
    pub label: &'static str,
    pub hide_empty: bool,
    pub selected: bool,
}

/// The choices of which projects the list shows: all, or those with sessions.
pub fn empty_filters(state: &SidebarState) -> (r: Vec<EmptyFilter>)
    ensures
        r@.len() == 2,
        r@[0].label@ == "全部"@ && !r@[0].hide_empty && r@[0].selected == !state.hide_empty,
        r@[1].label@ == "有会话"@ && r@[1].hide_empty && r@[1].selected == state.hide_empty,
{
    let mut filters: Vec<EmptyFilter> = Vec::new();
    filters.push(
        EmptyFilter { label: "全部", hide_empty: false, selected: !state.hide_empty },
    );
    filters.push(
        EmptyFilter { label: "有会话", hide_empty: true, selected: state.hide_empty },
    );
    filters
}

/// Whether the button for the settings asks for attention: an update is ready to be had, or the
/// background service is older than the program.
pub fn settings_need_attention(update_available: bool, daemon_outdated: Option<bool>) -> (r: bool)
    ensures
        r == (update_available || daemon_outdated == Some(true)),
{
    update_available || match daemon_outdated {
        Some(outdated) => outdated,
        None => false,
    }
}

/// The project that a session belongs to, with its branch: the last of the first projects that
/// have the session.
pub open spec fn project_of(
    groups: Seq<SidebarGroup>,
    branches: Seq<Option<String>>,
    ix: usize,
    count: int,
) -> Option<(String, Option<String>)>
    decreases count,
{
    if count <= 0 {
        None
    } else if has_session(groups[count - 1].sessions@, ix) {
        Some((groups[count - 1].label, branches[count - 1]))
    } else {
        project_of(groups, branches, ix, count - 1)
    }
}

/// The project that a session belongs to, with its branch, for rows that do not stand below the
/// name of their project.
pub fn session_project(
    groups: &Vec<SidebarGroup>,
    branches: &Vec<Option<String>>,
    ix: usize,
) -> (r: Option<(String, Option<String>)>)
    requires
        branches@.len() == groups@.len(),
    ensures
        r == project_of(groups@, branches@, ix, groups@.len() as int),
{
    let mut left: usize = groups.len();
    while left > 0
        invariant
            branches@.len() == groups@.len(),
            left <= groups.len(),
            project_of(groups@, branches@, ix, groups@.len() as int) == project_of(
                groups@,
                branches@,
                ix,
                left as int,
            ),
        decreases left,
    {
        left = left - 1;
        if contains_session(&groups[left].sessions, ix) {
            let branch: Option<String> = match &branches[left] {
                Some(branch) => Some(branch.clone()),
                None => None,
            };
            return Some((groups[left].label.clone(), branch));
        }
    }
    None
}

/// Whether the rows of a group are shown below its header.
pub fn group_rows_are_shown(group: &SidebarGroup) -> (r: bool)
    ensures
        r == (!group.collapsed && group.sessions@.len() > 0),
{
    !group.collapsed && group.sessions.len() > 0
}

/// What a click on the header of a project does.
#[derive(Clone, Copy, Debug, PartialEq, Eq, Structural)]
pub enum HeaderClick {
    /// The click was the end of a drag.
    Nothing,
    Select,
    SelectAndToggle,
}

/// What a click on the header of a project does: it selects the project, and opens or closes one
/// that has sessions.
pub fn project_header_click(state: &SidebarState, group: &SidebarGroup) -> (r: HeaderClick)
    ensures
        r == if state.drag.drag is Some {
            HeaderClick::Nothing
        } else if group.sessions@.len() > 0 {
            HeaderClick::SelectAndToggle
        } else {
            HeaderClick::Select
        },
{
    if state.drag.drag.is_some() {
        HeaderClick::Nothing
    } else if group.sessions.len() > 0 {
        HeaderClick::SelectAndToggle
    } else {
        HeaderClick::Select
    }
}

/// A pane of a terminal that is split. `agent` is who is at work in it, by id and label.
#[derive(Debug, PartialEq, Eq)]
pub struct PaneInfo {
    pub id: u64,
    pub title: String,
    pub status: AgentStatus,
    pub agent: Option<(String, String)>,
    pub updated_at: u64,
}

/// A session, as far as its row shows it. `project` is the project it belongs to, and the branch
/// of that. Times are in seconds.
#[derive(Debug, PartialEq, Eq)]
pub struct SessionInfo {
    pub title: String,
    pub ui_id: u64,
    pub status: AgentStatus,
    pub identity: SessionIdentity,
    pub is_conversation: bool,
    pub panes: Vec<PaneInfo>,
    pub active_pane: u64,
    pub project: Option<(String, Option<String>)>,
    pub updated_at: u64,
}

/// The row of a pane.
#[derive(Debug, PartialEq, Eq)]
pub struct PaneRow {
    pub title: String,
    pub icon: RowIcon,
    pub tooltip: String,
    pub selected: bool,
    pub glows: bool,
    pub updated_at: u64,
    pub draggable: bool,
    pub accepts_drops: bool,
    pub faded: bool,
    pub hint_before: bool,
    pub hint_after: bool,
}

/// The row of a session. Where there are panes, their rows stand in its place.
#[derive(Debug, PartialEq, Eq)]
pub struct SessionRow {
    pub title: String,
    pub icon: RowIcon,
    pub tooltip: String,
    pub selected: bool,
    pub glows: bool,
    pub subtitle: Option<String>,
    pub status_label: Option<&'static str>,
    pub project: Option<(String, Option<String>)>,
    pub updated_at: u64,
    pub draggable: bool,
    pub accepts_drops: bool,
    pub faded: bool,
    pub hint_before: bool,
    pub hint_after: bool,
    pub panes: Vec<PaneRow>,
}

/// The session is being dragged.
pub open spec fn is_dragged_session(state: SidebarState, ui_id: u64) -> bool {
    state.drag.drag == Some(SidebarDrag::Session(ui_id))
}

/// What is dragged would land beside the session, in front of it or behind it.
pub open spec fn session_hinted(state: SidebarState, ui_id: u64, before: bool) -> bool {
    state.grouping is Project && !is_dragged_session(state, ui_id) && state.drag.sess_drop_hint
        == Some((ui_id, before))
}

fn session_hint_is(state: &SidebarState, ui_id: u64, before: bool) -> (r: bool)
    ensures
        r == session_hinted(*state, ui_id, before),
{
    let by_project: bool = match state.grouping {
        SidebarGrouping::Project => true,
        _ => false,
    };
    by_project && !session_is_dragged(state, ui_id) && match state.drag.sess_drop_hint {
        Some(hint) => hint.0 == ui_id && hint.1 == before,
        None => false,
    }
}

fn session_is_dragged(state: &SidebarState, ui_id: u64) -> (r: bool)
    ensures
        r == is_dragged_session(*state, ui_id),
{
    match &state.drag.drag {
        Some(SidebarDrag::Session(id)) => *id == ui_id,
        _ => false,
    }
}

/// How many panes a terminal is split into, where it is split.
pub open spec fn split_text(info: SessionInfo) -> Option<Seq<char>> {
    if !info.is_conversation && info.panes@.len() > 1 {
        Some("⑂"@ + text::decimal(info.panes@.len()))
    } else {
        None
    }
}

fn split_label(info: &SessionInfo) -> (r: Option<String>)
    ensures
        match r {
            Some(label) => split_text(*info) == Some(label@),
            None => split_text(*info) is None,
        },
{
    if !info.is_conversation && info.panes.len() > 1 {
        Some(concat("⑂", decimal_text(info.panes.len() as u64).as_str()))
    } else {
        None
    }
}

fn copied_project(project: &Option<(String, Option<String>)>) -> (r: Option<
    (String, Option<String>),
>)
    ensures
        r == *project,
{
    match project {
        None => None,
        Some((label, branch)) => {
            let copied: Option<String> = match branch {
                Some(branch) => Some(branch.clone()),
                None => None,
            };
            Some((label.clone(), copied))
        },
    }
}

/// How often a text stands in a list.
pub open spec fn occurrences(titles: Seq<Seq<char>>, title: Seq<char>) -> nat
    decreases titles.len(),
{
    if titles.len() == 0 {
        0
    } else {
        occurrences(titles.drop_last(), title) + if titles.last() == title {
            1nat
        } else {
            0
        }
    }
}

/// The title of a pane. One that others beside it have too gets the number of the pane.
pub open spec fn pane_title(titles: Seq<Seq<char>>, at: int) -> Seq<char> {
    if occurrences(titles, titles[at]) > 1 {
        titles[at] + " · "@ + text::decimal((at + 1) as nat)
    } else {
        titles[at]
    }
}

/// The titles of panes.
pub open spec fn pane_titles_of(titles: Seq<Seq<char>>) -> Seq<Seq<char>> {
    Seq::new(titles.len(), |at: int| pane_title(titles, at))
}

fn count_title(titles: &Vec<String>, title: &str) -> (r: usize)
    ensures
        r == occurrences(text::texts(titles@), title@),
        r <= titles@.len(),
{
    let ghost all = text::texts(titles@);
    let mut count: usize = 0;
    let mut i: usize = 0;
    while i < titles.len()
        invariant
            all == text::texts(titles@),
            i <= titles.len(),
            count <= i,
            count == occurrences(all.take(i as int), title@),
        decreases titles.len() - i,
    {
        assert(all.take(i + 1).drop_last() =~= all.take(i as int));
        if same_text(titles[i].as_str(), title) {
            count = count + 1;
        }
        i = i + 1;
    }
    assert(all.take(i as int) =~= all);
    count
}

/// The titles of the panes of a session. Those that are the same are told apart by number.
pub fn pane_titles(titles: &Vec<String>) -> (r: Vec<String>)
    ensures
        text::texts(r@) == pane_titles_of(text::texts(titles@)),
{
    let ghost all = text::texts(titles@);
    let mut out: Vec<String> = Vec::new();
    let mut i: usize = 0;
    while i < titles.len()
        invariant
            all == text::texts(titles@),
            i <= titles.len(),
            text::texts(out@) == pane_titles_of(all).take(i as int),
        decreases titles.len() - i,
    {
        let count: usize = count_title(titles, titles[i].as_str());
        let mut title: String = titles[i].clone();
        assert(title@ == all[i as int]);
        if count > 1 {
            title.append(" · ");
            title.append(decimal_text(i as u64 + 1).as_str());
        }
        let ghost before = out@;
        out.push(title);
        assert(text::texts(out@) =~= text::texts(before).push(title@));
        i = i + 1;
        assert(text::texts(out@) =~= pane_titles_of(all).take(i as int));
    }
    assert(pane_titles_of(all).take(i as int) =~= pane_titles_of(all));
    out
}

/// What is said of a pane: who is at work in it, by the agent's label, and how it stands.
pub fn pane_tooltip(agent: Option<&str>, status: AgentStatus) -> (r: String)
    ensures
        r@ == pane_words(
            match agent {
                Some(label) => Some(label@),
                None => None,
            },
            status,
        ),
{
    let name: &str = match agent {
        Some(label) => label,
        None => "终端",
    };
    let mut out: String = concat(name, " · ");
    out.append(status_text(status));
    out
}

/// The titles that panes have of their own.
pub open spec fn own_titles(panes: Seq<PaneInfo>) -> Seq<Seq<char>> {
    panes.map_values(|pane: PaneInfo| pane.title@)
}

/// What is said of a pane.
pub open spec fn pane_words(agent: Option<Seq<char>>, status: AgentStatus) -> Seq<char> {
    (match agent {
        Some(label) => label,
        None => "终端"@,
    }) + " · "@ + row::words(status)
}

/// A row is that of the pane at `at`. `selected` says whether its session is. What is dragged
/// would land beside the whole session, so only the first and the last pane show that.
pub open spec fn is_pane_of(
    pane: PaneRow,
    at: int,
    state: SidebarState,
    info: SessionInfo,
    selected: bool,
    animate_running: bool,
) -> bool {
    let known = info.panes@[at];
    &&& pane.title@ == pane_title(own_titles(info.panes@), at)
    &&& match known.agent {
        Some(agent) => row::is_asset(pane.icon, row::agent_asset(agent.0@)),
        None => pane.icon is SquareTerminal,
    }
    &&& pane.tooltip@ == pane_words(
        match known.agent {
            Some(agent) => Some(agent.1@),
            None => None,
        },
        known.status,
    )
    &&& pane.selected == (selected && known.id == info.active_pane)
    &&& pane.glows == (animate_running && known.status is Running)
    &&& pane.updated_at == if known.updated_at > 0 {
        known.updated_at
    } else {
        info.updated_at
    }
    &&& pane.draggable == (state.grouping is Project)
    &&& pane.accepts_drops == drops_are_open(state)
    &&& pane.faded == is_dragged_session(state, info.ui_id)
    &&& pane.hint_before == (session_hinted(state, info.ui_id, true) && at == 0)
    &&& pane.hint_after == (session_hinted(state, info.ui_id, false) && at + 1
        == info.panes@.len())
}

/// Rows are those of the panes of a session. One that is not split has none.
pub open spec fn are_panes_of(
    rows: Seq<PaneRow>,
    state: SidebarState,
    info: SessionInfo,
    selected: bool,
    animate_running: bool,
) -> bool {
    if info.panes@.len() <= 1 {
        rows.len() == 0
    } else {
        &&& rows.len() == info.panes@.len()
        &&& forall|at: int|
            0 <= at < rows.len() ==> is_pane_of(
                #[trigger] rows[at],
                at,
                state,
                info,
                selected,
                animate_running,
            )
    }
}

fn titles_of(panes: &Vec<PaneInfo>) -> (r: Vec<String>)
    ensures
        text::texts(r@) == own_titles(panes@),
{
    let mut out: Vec<String> = Vec::new();
    let mut i: usize = 0;
    while i < panes.len()
        invariant
            i <= panes.len(),
            text::texts(out@) == own_titles(panes@).take(i as int),
        decreases panes.len() - i,
    {
        let ghost before = out@;
        let title: String = panes[i].title.clone();
        out.push(title);
        assert(text::texts(out@) =~= text::texts(before).push(title@));
        i = i + 1;
        assert(text::texts(out@) =~= own_titles(panes@).take(i as int));
    }
    assert(own_titles(panes@).take(i as int) =~= own_titles(panes@));
    out
}

fn pane_row(
    state: &SidebarState,
    info: &SessionInfo,
    at: usize,
    title: String,
    selected: bool,
    animate_running: bool,
) -> (r: PaneRow)
    requires
        at < info.panes@.len(),
        title@ == pane_title(own_titles(info.panes@), at as int),
    ensures
        is_pane_of(r, at as int, *state, *info, selected, animate_running),
{
    let known: &PaneInfo = &info.panes[at];
    let by_project: bool = match state.grouping {
        SidebarGrouping::Project => true,
        _ => false,
    };
    let running: bool = match known.status {
        AgentStatus::Running => true,
        _ => false,
    };
    let (icon, tooltip): (RowIcon, String) = match &known.agent {
        Some(agent) => (
            provider_icon(Some(agent.0.as_str())),
            pane_tooltip(Some(agent.1.as_str()), known.status),
        ),
        None => (provider_icon(None), pane_tooltip(None, known.status)),
    };
    PaneRow {
        title,
        icon,
        tooltip,
        selected: selected && known.id == info.active_pane,
        glows: animate_running && running,
        updated_at: effective_pane_updated_at(known.updated_at, info.updated_at),
        draggable: by_project,
        accepts_drops: accepts_drops(state),
        faded: session_is_dragged(state, info.ui_id),
        hint_before: session_hint_is(state, info.ui_id, true) && at == 0,
        hint_after: session_hint_is(state, info.ui_id, false) && at == info.panes.len() - 1,
    }
}

/// The rows of the panes of a session. `selected` says whether the session is selected.
pub fn pane_rows(
    state: &SidebarState,
    info: &SessionInfo,
    selected: bool,
    animate_running: bool,
) -> (r: Vec<PaneRow>)
    ensures
        are_panes_of(r@, *state, *info, selected, animate_running),
{
    let mut rows: Vec<PaneRow> = Vec::new();
    if info.panes.len() <= 1 {
        return rows;
    }
    let own: Vec<String> = titles_of(&info.panes);
    let titles: Vec<String> = pane_titles(&own);
    let ghost shown = pane_titles_of(own_titles(info.panes@));
    assert(shown == text::texts(titles@));
    let mut at: usize = 0;
    while at < info.panes.len()
        invariant
            at <= info.panes.len(),
            shown == pane_titles_of(own_titles(info.panes@)),
            shown == text::texts(titles@),
            titles@.len() == info.panes@.len(),
            rows@.len() == at,
            forall|k: int|
                0 <= k < at ==> is_pane_of(
                    #[trigger] rows@[k],
                    k,
                    *state,
                    *info,
                    selected,
                    animate_running,
                ),
        decreases info.panes.len() - at,
    {
        let title: String = titles[at].clone();
        assert(title@ == shown[at as int]);
        rows.push(pane_row(state, info, at, title, selected, animate_running));
        at = at + 1;
    }
    rows
}

/// A row is that of a session in a group.
pub open spec fn is_row_of(
    row: SessionRow,
    state: SidebarState,
    group: SidebarGroup,
    ix: usize,
    info: SessionInfo,
    animate_running: bool,
) -> bool {
    &&& row.title == info.title
    &&& info.identity.is_pictured_by(row.icon)
    &&& row.tooltip@ == info.identity.name()
    &&& row.selected == row::row_selected(
        state.session_route_active,
        !(state.grouping is Project) || group.active,
        ix,
        state.active_session,
    )
    &&& row.glows == (animate_running && info.status is Running)
    &&& (match row.subtitle {
        Some(subtitle) => Some(subtitle@),
        None => None,
    }) == split_text(info)
    &&& row.status_label is Some <==> info.status is NeedsYou
    &&& row.status_label matches Some(label) ==> label@ == row::words(info.status)
    &&& row.project == if state.grouping is Project {
        None
    } else {
        info.project
    }
    &&& row.updated_at == info.updated_at
    &&& row.draggable == (state.grouping is Project)
    &&& row.accepts_drops == drops_are_open(state)
    &&& row.faded == is_dragged_session(state, info.ui_id)
    &&& row.hint_before == session_hinted(state, info.ui_id, true)
    &&& row.hint_after == session_hinted(state, info.ui_id, false)
    &&& are_panes_of(row.panes@, state, info, row.selected, animate_running)
}

/// The row of a session in a group.
pub fn session_row(
    state: &SidebarState,
    group: &SidebarGroup,
    ix: usize,
    info: &SessionInfo,
    animate_running: bool,
) -> (r: SessionRow)
    ensures
        is_row_of(r, *state, *group, ix, *info, animate_running),
{
    let by_project: bool = match state.grouping {
        SidebarGrouping::Project => true,
        _ => false,
    };
    let running: bool = match info.status {
        AgentStatus::Running => true,
        _ => false,
    };
    let selected: bool = session_row_is_selected(
        state.session_route_active,
        !by_project || group.active,
        ix,
        state.active_session,
    );
    SessionRow {
        title: info.title.clone(),
        icon: info.identity.icon(),
        tooltip: info.identity.label(),
        selected,
        glows: animate_running && running,
        subtitle: split_label(info),
        status_label: session_row_status_label(info.status),
        project: if by_project {
            None
        } else {
            copied_project(&info.project)
        },
        updated_at: info.updated_at,
        draggable: by_project,
        accepts_drops: accepts_drops(state),
        faded: session_is_dragged(state, info.ui_id),
        hint_before: session_hint_is(state, info.ui_id, true),
        hint_after: session_hint_is(state, info.ui_id, false),
        panes: pane_rows(state, info, selected, animate_running),
    }
}

/// A group as the list shows it: which one it is, its header and its rows.
#[derive(Debug, PartialEq, Eq)]
pub struct GroupView {
    pub group: usize,
    pub header: Option<GroupHeader>,
    pub rows: Vec<SessionRow>,
}

/// A group has a place in the list. Of one that is closed there is only the header.
pub open spec fn is_listed(state: SidebarState, group: SidebarGroup) -> bool {
    is_shown(state, group) && !(state.grouping is Ungrouped && group.collapsed)
}

/// The positions of the first groups that have a place in the list.
pub open spec fn listed_positions(
    state: SidebarState,
    groups: Seq<SidebarGroup>,
    count: int,
) -> Seq<usize>
    decreases count,
{
    if count <= 0 {
        seq![]
    } else {
        let before = listed_positions(state, groups, count - 1);
        if is_listed(state, groups[count - 1]) {
            before.push((count - 1) as usize)
        } else {
            before
        }
    }
}

/// The sessions of which a group shows rows.
pub open spec fn rowed_sessions(group: SidebarGroup) -> Seq<usize> {
    if group.collapsed {
        seq![]
    } else {
        group.sessions@
    }
}

/// Rows are those of a group.
pub open spec fn are_rows_of(
    rows: Seq<SessionRow>,
    state: SidebarState,
    group: SidebarGroup,
    sessions: Seq<SessionInfo>,
    animate_running: bool,
) -> bool {
    &&& rows.len() == rowed_sessions(group).len()
    &&& forall|i: int|
        0 <= i < rows.len() ==> is_row_of(
            #[trigger] rows[i],
            state,
            group,
            group.sessions@[i],
            sessions[group.sessions@[i] as int],
            animate_running,
        )
}

/// The sessions of the groups are all there.
pub open spec fn sessions_exist(groups: Seq<SidebarGroup>, count: nat) -> bool {
    forall|g: int, i: int|
        0 <= g < groups.len() && 0 <= i < groups[g].sessions@.len()
            ==> #[trigger] groups[g].sessions@[i] < count
}

fn group_rows(
    state: &SidebarState,
    group: &SidebarGroup,
    sessions: &Vec<SessionInfo>,
    animate_running: bool,
) -> (r: Vec<SessionRow>)
    requires
        forall|i: int|
            0 <= i < group.sessions@.len() ==> #[trigger] group.sessions@[i] < sessions@.len(),
    ensures
        are_rows_of(r@, *state, *group, sessions@, animate_running),
{
    let mut rows: Vec<SessionRow> = Vec::new();
    if group.collapsed {
        return rows;
    }
    let mut i: usize = 0;
    while i < group.sessions.len()
        invariant
            i <= group.sessions.len(),
            rows@.len() == i,
            forall|k: int|
                0 <= k < group.sessions@.len() ==> #[trigger] group.sessions@[k] < sessions@.len(),
            forall|k: int|
                0 <= k < i ==> is_row_of(
                    #[trigger] rows@[k],
                    *state,
                    *group,
                    group.sessions@[k],
                    sessions@[group.sessions@[k] as int],
                    animate_running,
                ),
        decreases group.sessions.len() - i,
    {
        let ix: usize = group.sessions[i];
        rows.push(session_row(state, group, ix, &sessions[ix], animate_running));
        i = i + 1;
    }
    rows
}

/// What the list shows, from top to bottom: each group that has a place in it, with its header
/// and its rows.
pub fn session_groups(
    state: &SidebarState,
    groups: &Vec<SidebarGroup>,
    sessions: &Vec<SessionInfo>,
    statuses: &Vec<AgentStatus>,
    animate_running: bool,
) -> (r: Vec<GroupView>)
    requires
        sessions_exist(groups@, sessions@.len()),
    ensures
        r@.len() == listed_positions(*state, groups@, groups@.len() as int).len(),
        forall|i: int|
            0 <= i < r@.len() ==> {
                let at = listed_positions(*state, groups@, groups@.len() as int)[i];
                &&& (#[trigger] r@[i]).group == at
                &&& is_header_of(r@[i].header, *state, groups@[at as int], statuses@)
                &&& are_rows_of(
                    r@[i].rows@,
                    *state,
                    groups@[at as int],
                    sessions@,
                    animate_running,
                )
            },
{
    let mut out: Vec<GroupView> = Vec::new();
    let mut g: usize = 0;
    while g < groups.len()
        invariant
            sessions_exist(groups@, sessions@.len()),
            g <= groups.len(),
            out@.len() == listed_positions(*state, groups@, g as int).len(),
            forall|i: int|
                0 <= i < out@.len() ==> {
                    let at = listed_positions(*state, groups@, g as int)[i];
                    &&& (#[trigger] out@[i]).group == at
                    &&& is_header_of(out@[i].header, *state, groups@[at as int], statuses@)
                    &&& are_rows_of(
                        out@[i].rows@,
                        *state,
                        groups@[at as int],
                        sessions@,
                        animate_running,
                    )
                },
        decreases groups.len() - g,
    {
        let group: &SidebarGroup = &groups[g];
        let flat: bool = match state.grouping {
            SidebarGrouping::Ungrouped => true,
            _ => false,
        };
        if group_is_shown(state, group) && !(flat && group.collapsed) {
            let ghost before = listed_positions(*state, groups@, g as int);
            let ghost shown = out@;
            assert forall|i: int| 0 <= i < group.sessions@.len() implies #[trigger] group.sessions@[i]
                < sessions@.len() by {
                assert(groups@[g as int].sessions@[i] < sessions@.len());
            }
            let header: Option<GroupHeader> = group_header(state, group, statuses);
            let rows: Vec<SessionRow> = group_rows(state, group, sessions, animate_running);
            out.push(GroupView { group: g, header, rows });
            proof {
                let after = listed_positions(*state, groups@, g + 1);
                assert(after == before.push(g));
                assert forall|i: int| 0 <= i < out@.len() implies {
                    let at = after[i];
                    &&& (#[trigger] out@[i]).group == at
                    &&& is_header_of(out@[i].header, *state, groups@[at as int], statuses@)
                    &&& are_rows_of(
                        out@[i].rows@,
                        *state,
                        groups@[at as int],
                        sessions@,
                        animate_running,
                    )
                } by {
                    if i < shown.len() {
                        assert(out@[i] == shown[i]);
                        assert(after[i] == before[i]);
                    }
                }
            }
        }
        g = g + 1;
    }
    out
}

/// The first character of a title in capitals, as `char::to_uppercase` gives them.
pub uninterp spec fn capitals(c: char) -> Seq<char>;

/// `char::to_uppercase`: what is a capital letter depends on the character alone.
#[verifier::external_body]
fn to_uppercase(c: char) -> (r: String)
    ensures
        r@ == capitals(c),
{
    c.to_uppercase().to_string()
}

/// The first character of a title. An empty one is taken for a plugin's.
pub open spec fn first_letter(title: Seq<char>) -> char {
    if title.len() > 0 {
        title[0]
    } else {
        'P'
    }
}

/// The letter that stands for the page of a plugin.
pub fn surface_initial(title: &str) -> (r: String)
    ensures
        r@ == capitals(first_letter(title@)),
{
    to_uppercase(initial_of(title))
}

/// The character that the letter for the page of a plugin comes from.
pub fn initial_of(title: &str) -> (r: char)
    ensures
        r == first_letter(title@),
{
    let all: Vec<char> = chars_of(title);
    if all.len() > 0 {
        all[0]
    } else {
        'P'
    }
}

/// A page that a plugin brings, and whether it is the one that is open.
#[derive(Debug, PartialEq, Eq)]
pub struct SurfaceRow {
    pub key: String,
    pub title: String,
    pub initial: String,
    pub selected: bool,
}

/// The row of a page that a plugin brings.
pub fn workspace_surface_row(key: String, title: String, active: &Option<String>) -> (r: SurfaceRow)
    ensures
        r.key == key,
        r.title == title,
        r.initial@ == capitals(first_letter(title@)),
        r.selected == (*active matches Some(active) && active@ == key@),
{
    let selected: bool = match active {
        Some(active) => same_text(active.as_str(), key.as_str()),
        None => false,
    };
    let initial: String = surface_initial(title.as_str());
    SurfaceRow { key, title, initial, selected }
}

/// The rows of the pages that plugins bring, by their keys and titles. Without any there is no
/// section for them.
pub fn workspace_surface_rows(surfaces: Vec<(String, String)>, active: &Option<String>) -> (r:
    Option<Vec<SurfaceRow>>)
    ensures
        r is None <==> surfaces@.len() == 0,
        r matches Some(rows) ==> rows@.len() == surfaces@.len() && forall|i: int|
            0 <= i < rows@.len() ==> {
                &&& (#[trigger] rows@[i]).key == surfaces@[i].0
                &&& rows@[i].title == surfaces@[i].1
                &&& rows@[i].initial@ == capitals(first_letter(surfaces@[i].1@))
                &&& rows@[i].selected == (*active matches Some(active) && active@
                    == surfaces@[i].0@)
            },
{
    if surfaces.len() == 0 {
        return None;
    }
    let mut rows: Vec<SurfaceRow> = Vec::new();
    let mut i: usize = 0;
    while i < surfaces.len()
        invariant
            i <= surfaces.len(),
            rows@.len() == i,
            forall|k: int|
                0 <= k < i ==> {
                    &&& (#[trigger] rows@[k]).key == surfaces@[k].0
                    &&& rows@[k].title == surfaces@[k].1
                    &&& rows@[k].initial@ == capitals(first_letter(surfaces@[k].1@))
                    &&& rows@[k].selected == (*active matches Some(active) && active@
                        == surfaces@[k].0@)
                },
        decreases surfaces.len() - i,
    {
        rows.push(workspace_surface_row(surfaces[i].0.clone(), surfaces[i].1.clone(), active));
        i = i + 1;
    }
    Some(rows)
}

/// Whether a click on the page of a plugin renames it: the second of two does, the first opens
/// it.
pub fn surface_click_renames(click_count: usize) -> (r: bool)
    ensures
        r == (click_count >= 2),
{
    click_count >= 2
}

/// Sets whether projects without sessions are hidden. Says whether there is something to save.
pub fn set_hide_empty(state: &mut SidebarState, hide: bool) -> (r: bool)
    ensures
        *final(state) == (SidebarState { hide_empty: hide, ..*old(state) }),
        r == (old(state).hide_empty != hide),
{
    let changed: bool = state.hide_empty != hide;
    state.hide_empty = hide;
    changed
}

/// The project at hand is never hidden, nor is one that has sessions or is pinned.
pub proof fn what_matters_is_never_hidden(state: SidebarState, group: SidebarGroup)
    requires
        group.active || group.pinned || group.sessions@.len() > 0,
    ensures
        is_shown(state, group),
{
}

/// No session of a group is more urgent than what its header shows.
pub proof fn headers_show_the_most_urgent_state(
    sessions: Seq<usize>,
    statuses: Seq<AgentStatus>,
    i: int,
)
    requires
        0 <= i < sessions.len(),
        sessions[i] < statuses.len(),
    ensures
        row::rank(most_urgent(sessions, statuses)) <= row::rank(statuses[sessions[i] as int]),
{
    let status = statuses[sessions[i] as int];
    assert(some_session_is(sessions, statuses, status));
}

pub proof fn lemma_occurs_twice(titles: Seq<Seq<char>>, i: int, j: int)
    requires
        0 <= i < j < titles.len(),
        titles[i] == titles[j],
    ensures
        occurrences(titles, titles[i]) > 1,
    decreases titles.len(),
{
    if j < titles.len() - 1 {
        lemma_occurs_twice(titles.drop_last(), i, j);
    } else {
        lemma_occurs_once(titles.drop_last(), i);
    }
}

proof fn lemma_occurs_once(titles: Seq<Seq<char>>, i: int)
    requires
        0 <= i < titles.len(),
    ensures
        occurrences(titles, titles[i]) > 0,
    decreases titles.len(),
{
    if i < titles.len() - 1 {
        lemma_occurs_once(titles.drop_last(), i);
    }
}

/// Two panes whose titles are the same are shown under different titles.
pub proof fn same_titles_are_told_apart(titles: Seq<Seq<char>>, i: int, j: int)
    requires
        0 <= i < j < titles.len(),
        titles[i] == titles[j],
    ensures
        pane_title(titles, i) != pane_title(titles, j),
{
    lemma_occurs_twice(titles, i, j);
    text::decimals_differ((i + 1) as nat, (j + 1) as nat);
    let front = titles[i] + " · "@;
    let one = text::decimal((i + 1) as nat);
    let two = text::decimal((j + 1) as nat);
    assert((front + one).skip(front.len() as int) =~= one);
    assert((front + two).skip(front.len() as int) =~= two);
}

} // verus!
