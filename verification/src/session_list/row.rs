//! What a row of the list shows: its picture, its state and whether it is selected.

use vstd::prelude::*;

use crate::settings::pi_auth::Workspace;
use crate::text::concat;

verus! {

/// How a session stands. What comes first matters most.
#[derive(Clone, Copy, Debug, PartialEq, Eq, Structural)]
pub enum AgentStatus {
    NeedsYou,
    Running,
    Idle,
}

/// How urgent a state is. The lowest rank is the most urgent.
pub open spec fn rank(status: AgentStatus) -> int {
    match status {
        AgentStatus::NeedsYou => 0,
        AgentStatus::Running => 1,
        AgentStatus::Idle => 2,
    }
}

/// The picture of a row or of an entry in a menu.
#[derive(Clone, Debug, PartialEq, Eq)]
pub enum RowIcon {
    /// A picture that comes with the program, by its path.
    Asset(String),
    SquareTerminal,
    Bot,
    Folder,
    FolderOpen,
    Check,
    ExternalLink,
    Copy,
    HardDrive,
    Plus,
    Star,
    CircleX,
    Delete,
    BookOpen,
    Info,
    LoaderCircle,
    User,
    Settings,
}

/// The path of the picture of an agent.
pub open spec fn agent_asset(id: Seq<char>) -> Seq<char> {
    "smelt-icons/agent-"@ + id + ".svg"@
}

/// The path of the picture of an agent.
pub fn agent_icon_asset(id: &str) -> (r: String)
    ensures
        r@ == agent_asset(id@),
{
    let mut out: String = concat("smelt-icons/agent-", id);
    out.append(".svg");
    out
}

/// An icon is the picture at the given path.
pub open spec fn is_asset(icon: RowIcon, path: Seq<char>) -> bool {
    icon matches RowIcon::Asset(asset) && asset@ == path
}

/// The picture of a terminal: that of the agent in it, by its id, or a plain one.
pub fn provider_icon(agent: Option<&str>) -> (r: RowIcon)
    ensures
        match agent {
            Some(id) => is_asset(r, agent_asset(id@)),
            None => r is SquareTerminal,
        },
{
    match agent {
        Some(id) => RowIcon::Asset(agent_icon_asset(id)),
        None => RowIcon::SquareTerminal,
    }
}

/// The picture of an agent that one talks to, by its id.
pub fn acp_provider_icon(id: &str) -> (r: RowIcon)
    ensures
        is_asset(r, agent_asset(id@)),
{
    RowIcon::Asset(agent_icon_asset(id))
}

/// An agent that a plugin brings.
#[derive(Debug, PartialEq, Eq)]
pub struct PluginAgentPresentation {
    pub name: String,
    pub icon_asset: Option<String>,
}

/// The picture of an agent that a plugin brings.
pub fn plugin_agent_icon(agent: &PluginAgentPresentation) -> (r: RowIcon)
    ensures
        match agent.icon_asset {
            Some(path) => r == RowIcon::Asset(path),
            None => r is Bot,
        },
{
    match &agent.icon_asset {
        Some(path) => RowIcon::Asset(path.clone()),
        None => RowIcon::Bot,
    }
}

/// The picture that a plugin asks for beside an action.
#[derive(Clone, Copy, Debug, PartialEq, Eq, Structural)]
pub enum SessionActionIcon {
    Check,
    ExternalLink,
}

/// The picture beside an action of a plugin.
pub fn plugin_session_action_icon(icon: Option<SessionActionIcon>) -> (r: Option<RowIcon>)
    ensures
        r == match icon {
            Some(SessionActionIcon::Check) => Some(RowIcon::Check),
            Some(SessionActionIcon::ExternalLink) => Some(RowIcon::ExternalLink),
            None => None,
        },
{
    match icon {
        Some(SessionActionIcon::Check) => Some(RowIcon::Check),
        Some(SessionActionIcon::ExternalLink) => Some(RowIcon::ExternalLink),
        None => None,
    }
}

/// Who is at work in a session, as far as its row tells: an agent of a plugin, an agent that one
/// talks to, or one in a terminal, these two by id and label.
#[derive(Debug, PartialEq, Eq)]
pub struct SessionIdentity {
    pub plugin_agent: Option<PluginAgentPresentation>,
    pub conversation: Option<(String, String)>,
    pub terminal: Option<(String, String)>,
}

impl SessionIdentity {
    /// An icon is the picture of the session: a plugin's agent comes first, then one that one
    /// talks to, then the one in the terminal.
    pub open spec fn is_pictured_by(self, icon: RowIcon) -> bool {
        match self.plugin_agent {
            Some(agent) => match agent.icon_asset {
                Some(path) => icon == RowIcon::Asset(path),
                None => icon is Bot,
            },
            None => match self.conversation {
                Some(agent) => is_asset(icon, agent_asset(agent.0@)),
                None => match self.terminal {
                    Some(agent) => is_asset(icon, agent_asset(agent.0@)),
                    None => icon is SquareTerminal,
                },
            },
        }
    }

    /// The picture of the session.
    pub fn icon(&self) -> (r: RowIcon)
        ensures
            self.is_pictured_by(r),
    {
        match &self.plugin_agent {
            Some(agent) => plugin_agent_icon(agent),
            None => match &self.conversation {
                Some(agent) => acp_provider_icon(agent.0.as_str()),
                None => match &self.terminal {
                    Some(agent) => provider_icon(Some(agent.0.as_str())),
                    None => provider_icon(None),
                },
            },
        }
    }

    /// The name of who is at work.
    pub open spec fn name(self) -> Seq<char> {
        match self.plugin_agent {
            Some(agent) => agent.name@,
            None => match self.conversation {
                Some(agent) => agent.1@,
                None => match self.terminal {
                    Some(agent) => agent.1@,
                    None => "终端"@,
                },
            },
        }
    }

    /// The name of who is at work, in the same order of precedence as the picture.
    pub fn label(&self) -> (r: String)
        ensures
            r@ == self.name(),
    {
        match &self.plugin_agent {
            Some(agent) => agent.name.clone(),
            None => match &self.conversation {
                Some(agent) => agent.1.clone(),
                None => match &self.terminal {
                    Some(agent) => agent.1.clone(),
                    None => "终端".to_owned(),
                },
            },
        }
    }
}

/// The row of a session is selected.
pub open spec fn row_selected(
    session_route_active: bool,
    project_context_matches: bool,
    ix: usize,
    active: usize,
) -> bool {
    session_route_active && project_context_matches && ix == active
}

/// The header of a project is selected.
pub open spec fn header_selected(
    session_route_active: bool,
    is_active_project: bool,
    active_session_is_visible: bool,
) -> bool {
    session_route_active && is_active_project && !active_session_is_visible
}

/// Whether the row of a session is selected. A page of tasks remembers the last session, but
/// does not select it.
pub fn session_row_is_selected(
    session_route_active: bool,
    project_context_matches: bool,
    ix: usize,
    active: usize,
) -> (r: bool)
    ensures
        r == row_selected(session_route_active, project_context_matches, ix, active),
{
    session_route_active && project_context_matches && ix == active
}

/// Whether the header of a project is selected: only where its session is not there to be.
pub fn project_header_is_selected(
    session_route_active: bool,
    is_active_project: bool,
    active_session_is_visible: bool,
) -> (r: bool)
    ensures
        r == header_selected(session_route_active, is_active_project, active_session_is_visible),
{
    session_route_active && is_active_project && !active_session_is_visible
}

/// A state in words.
pub open spec fn words(status: AgentStatus) -> Seq<char> {
    match status {
        AgentStatus::NeedsYou => "需要你"@,
        AgentStatus::Running => "运行中"@,
        AgentStatus::Idle => "空闲"@,
    }
}

/// A state in words.
pub fn status_text(status: AgentStatus) -> (r: &'static str)
    ensures
        r@ == words(status),
{
    match status {
        AgentStatus::NeedsYou => "需要你",
        AgentStatus::Running => "运行中",
        AgentStatus::Idle => "空闲",
    }
}

/// The state that a row writes out: only what wants attention. What runs shows by its colour.
pub fn session_row_status_label(status: AgentStatus) -> (r: Option<&'static str>)
    ensures
        r is Some <==> status is NeedsYou,
        r matches Some(label) ==> label@ == words(status),
{
    match status {
        AgentStatus::NeedsYou => Some(status_text(status)),
        _ => None,
    }
}

/// When a pane was last active: its own time, or that of its session where it has none yet.
pub fn effective_pane_updated_at(pane_updated_at: u64, session_updated_at: u64) -> (r: u64)
    ensures
        r == if pane_updated_at == 0 {
            session_updated_at
        } else {
            pane_updated_at
        },
{
    if pane_updated_at == 0 {
        session_updated_at
    } else {
        pane_updated_at
    }
}

/// The colour of the picture of a session: that of its state, or, while a session that has just
/// begun to run lights up, a glow at some phase (in thousandths).
#[derive(Clone, Copy, Debug, PartialEq, Eq, Structural)]
pub enum IconColor {
    Glow(u32),
    State(AgentStatus),
}

impl Workspace {
    /// The colour of the picture of a session. Only what runs glows.
    pub fn session_icon_color(status: AgentStatus, breath_phase: Option<u32>) -> (r: IconColor)
        ensures
            r == match breath_phase {
                Some(phase) if status is Running => IconColor::Glow(phase),
                _ => IconColor::State(status),
            },
    {
        match (status, breath_phase) {
            (AgentStatus::Running, Some(phase)) => IconColor::Glow(phase),
            _ => IconColor::State(status),
        }
    }
}

/// Within the active project one thing is selected and no more: the row of the active session
/// where it can be seen, else the header.
pub proof fn one_selection_within_a_project(session_route_active: bool, active_is_visible: bool, ix: usize, active: usize)
    ensures
        header_selected(session_route_active, true, active_is_visible) ==> !(active_is_visible
            && row_selected(session_route_active, true, ix, active)),
        session_route_active ==> header_selected(session_route_active, true, active_is_visible) != (
        active_is_visible && row_selected(session_route_active, true, active, active)),
{
}

} // verus!
