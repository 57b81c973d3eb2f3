//! Dragging rows of the list: where they would land, and how the list scrolls under them.

use vstd::prelude::*;

use crate::session_list::row::{
    plugin_agent_icon, AgentStatus, PluginAgentPresentation, RowIcon, SessionIdentity,
};
use crate::text;
use crate::text::{decimal_text, same_text};

verus! {

/// How far beside the list the pointer still scrolls it.
pub const DRAG_X_SLACK: i64 = 24;

/// How far to scroll for a pointer at `pointer_x`, given what its height alone asks for. A
/// pointer that has left the list sideways scrolls nothing. Positive is down.
pub fn sidebar_drag_scroll_delta(
    pointer_x: i64,
    left: i64,
    right: i64,
    edge_delta: Option<i64>,
) -> (r: Option<i64>)
    ensures
        r == if pointer_x < left - DRAG_X_SLACK || pointer_x > right + DRAG_X_SLACK {
            None
        } else {
            edge_delta
        },
{
    let x: i128 = pointer_x as i128;
    if x < left as i128 - DRAG_X_SLACK as i128 || x > right as i128 + DRAG_X_SLACK as i128 {
        None
    } else {
        edge_delta
    }
}

/// Where the list stands after a scroll. It stands at zero at its top and goes down from there,
/// to `-max_y` at most.
pub open spec fn scrolled(offset_y: int, delta: int, max_y: int) -> int {
    let lowest = if max_y > 0 {
        -max_y
    } else {
        0
    };
    let wanted = offset_y - delta;
    if wanted < lowest {
        lowest
    } else if wanted > 0 {
        0
    } else {
        wanted
    }
}

/// Where the list stands after a scroll.
pub fn apply_sidebar_scroll_delta(offset_y: i64, delta: i64, max_y: i64) -> (r: i64)
    ensures
        r == scrolled(offset_y as int, delta as int, max_y as int),
{
    let lowest: i128 = if max_y > 0 {
        -(max_y as i128)
    } else {
        0
    };
    let wanted: i128 = offset_y as i128 - delta as i128;
    if wanted < lowest {
        lowest as i64
    } else if wanted > 0 {
        0
    } else {
        wanted as i64
    }
}

/// What is dragged: a session by its number, or a project by its root.
#[derive(Debug, PartialEq, Eq)]
pub enum SidebarDrag {
    Session(u64),
    Project(String),
}

/// What the list knows of a drag: what is dragged, and beside which row it would land. The
/// second part of a hint says whether that is in front of the row.
#[derive(Debug, PartialEq, Eq)]
pub struct SidebarDragState {
    pub drag: Option<SidebarDrag>,
    pub sess_drop_hint: Option<(u64, bool)>,
    pub proj_drop_hint: Option<(String, bool)>,
}

/// A hint at a project, as characters.
pub open spec fn project_hint(hint: Option<(String, bool)>) -> Option<(Seq<char>, bool)> {
    match hint {
        Some((root, before)) => Some((root@, before)),
        None => None,
    }
}

/// What a pointer over a zone, or beside it, makes of a hint.
pub open spec fn hint_after<T>(hint: Option<T>, zone: T, inside: bool) -> Option<T> {
    if inside {
        Some(zone)
    } else if hint == Some(zone) {
        None
    } else {
        hint
    }
}

impl SidebarDragState {
    /// Nothing is dragged.
    pub fn new() -> (r: Self)
        ensures
            r.drag is None,
            r.sess_drop_hint is None,
            r.proj_drop_hint is None,
    {
        SidebarDragState { drag: None, sess_drop_hint: None, proj_drop_hint: None }
    }

    /// Begins to drag a session.
    pub fn start_session_drag(&mut self, ui_id: u64)
        ensures
            final(self).drag == Some(SidebarDrag::Session(ui_id)),
            final(self).sess_drop_hint is None,
            final(self).proj_drop_hint is None,
    {
        self.sess_drop_hint = None;
        self.proj_drop_hint = None;
        self.drag = Some(SidebarDrag::Session(ui_id));
    }

    /// Begins to drag a project.
    pub fn start_project_drag(&mut self, root: String)
        ensures
            final(self).drag == Some(SidebarDrag::Project(root)),
            final(self).sess_drop_hint is None,
            final(self).proj_drop_hint is None,
    {
        self.sess_drop_hint = None;
        self.proj_drop_hint = None;
        self.drag = Some(SidebarDrag::Project(root));
    }

    /// Takes in where the pointer is with regard to one half of the row of a session. Says
    /// whether the hint changed.
    pub fn update_sess_drop_hint(&mut self, ui_id: u64, before: bool, inside: bool) -> (r: bool)
        ensures
            final(self).sess_drop_hint == hint_after(
                old(self).sess_drop_hint,
                (ui_id, before),
                inside,
            ),
            final(self).drag == old(self).drag,
            final(self).proj_drop_hint == old(self).proj_drop_hint,
            r == (final(self).sess_drop_hint != old(self).sess_drop_hint),
    {
        let here: bool = match self.sess_drop_hint {
            Some(hint) => hint.0 == ui_id && hint.1 == before,
            None => false,
        };
        if inside && !here {
            self.sess_drop_hint = Some((ui_id, before));
            true
        } else if !inside && here {
            self.sess_drop_hint = None;
            true
        } else {
            false
        }
    }

    /// Takes in where the pointer is with regard to one half of the row of a project. Says
    /// whether the hint changed.
    pub fn update_proj_drop_hint(&mut self, root: String, before: bool, inside: bool) -> (r: bool)
        ensures
            project_hint(final(self).proj_drop_hint) == hint_after(
                project_hint(old(self).proj_drop_hint),
                (root@, before),
                inside,
            ),
            final(self).drag == old(self).drag,
            final(self).sess_drop_hint == old(self).sess_drop_hint,
            r == (project_hint(final(self).proj_drop_hint) != project_hint(
                old(self).proj_drop_hint,
            )),
    {
        let here: bool = match &self.proj_drop_hint {
            Some(hint) => same_text(hint.0.as_str(), root.as_str()) && hint.1 == before,
            None => false,
        };
        if inside && !here {
            self.proj_drop_hint = Some((root, before));
            true
        } else if !inside && here {
            self.proj_drop_hint = None;
            true
        } else {
            false
        }
    }

    /// How far the list scrolls under the pointer: not at all where nothing is dragged or the
    /// list has no height.
    pub fn update_sidebar_drag_scroll(
        &self,
        pointer_x: i64,
        left: i64,
        right: i64,
        height: i64,
        edge_delta: Option<i64>,
    ) -> (r: Option<i64>)
        ensures
            r == if self.drag is None || height <= 0 || pointer_x < left - DRAG_X_SLACK || pointer_x
                > right + DRAG_X_SLACK {
                None
            } else {
                edge_delta
            },
    {
        if self.drag.is_none() || height <= 0 {
            return None;
        }
        sidebar_drag_scroll_delta(pointer_x, left, right, edge_delta)
    }
}

/// The picture of a project that is closed or has nothing in it, or of one that is open.
pub open spec fn disclosure(collapsed_or_empty: bool) -> RowIcon {
    if collapsed_or_empty {
        RowIcon::Folder
    } else {
        RowIcon::FolderOpen
    }
}

/// The picture of a project that is closed or has nothing in it, or of one that is open.
pub fn project_disclosure_icon(collapsed_or_empty: bool) -> (r: RowIcon)
    ensures
        r == disclosure(collapsed_or_empty),
{
    if collapsed_or_empty {
        RowIcon::Folder
    } else {
        RowIcon::FolderOpen
    }
}

/// A session that is dragged.
#[derive(Debug, PartialEq, Eq)]
pub struct SessionDrag {
    pub id: u64,
    pub title: String,
    pub identity: SessionIdentity,
    pub status: AgentStatus,
    pub subtitle: Option<String>,
    pub status_label: Option<String>,
}

/// What is shown under the pointer while a session is dragged.
#[derive(Debug, PartialEq, Eq)]
pub struct SessionPreview {
    pub icon: RowIcon,
    pub title: String,
    pub status: AgentStatus,
    pub subtitle: Option<String>,
    pub status_label: Option<String>,
}

fn copied(text: &Option<String>) -> (r: Option<String>)
    ensures
        r == *text,
{
    match text {
        Some(text) => Some(text.clone()),
        None => None,
    }
}

/// What is shown under the pointer while a session is dragged: the row of the session.
pub fn session_drag_preview(drag: &SessionDrag) -> (r: SessionPreview)
    ensures
        drag.identity.is_pictured_by(r.icon),
        r.title == drag.title,
        r.status == drag.status,
        r.subtitle == drag.subtitle,
        r.status_label == drag.status_label,
{
    SessionPreview {
        icon: drag.identity.icon(),
        title: drag.title.clone(),
        status: drag.status,
        subtitle: copied(&drag.subtitle),
        status_label: copied(&drag.status_label),
    }
}

/// A project that is dragged.
#[derive(Debug, PartialEq, Eq)]
pub struct ProjectDrag {
    pub root: String,
    pub label: String,
    pub collapsed: bool,
    pub empty: bool,
    pub branch: Option<String>,
    pub agg: AgentStatus,
    pub plugin_agent: Option<PluginAgentPresentation>,
    pub session_count: usize,
}

/// What is shown under the pointer while a project is dragged.
#[derive(Debug, PartialEq, Eq)]
pub struct ProjectPreview {
    pub disclosure: RowIcon,
    pub label: String,
    pub faint: bool,
    pub dot: Option<AgentStatus>,
    pub agent_icon: Option<RowIcon>,
    pub branch: Option<String>,
    pub count: String,
}

/// What is shown under the pointer while a project is dragged: the header of the project.
pub fn project_drag_preview(drag: &ProjectDrag) -> (r: ProjectPreview)
    ensures
        r.disclosure == disclosure(drag.collapsed || drag.empty),
        r.label == drag.label,
        r.faint == drag.empty,
        r.dot == if drag.agg is Idle {
            None
        } else {
            Some(drag.agg)
        },
        r.agent_icon == match drag.plugin_agent {
            Some(agent) => Some(
                match agent.icon_asset {
                    Some(path) => RowIcon::Asset(path),
                    None => RowIcon::Bot,
                },
            ),
            None => None,
        },
        r.branch == drag.branch,
        r.count@ == text::decimal(drag.session_count as nat),
{
    let agent_icon: Option<RowIcon> = match &drag.plugin_agent {
        Some(agent) => Some(plugin_agent_icon(agent)),
        None => None,
    };
    ProjectPreview {
        disclosure: project_disclosure_icon(drag.collapsed || drag.empty),
        label: drag.label.clone(),
        faint: drag.empty,
        dot: match drag.agg {
            AgentStatus::Idle => None,
            _ => Some(drag.agg),
        },
        agent_icon,
        branch: copied(&drag.branch),
        count: decimal_text(drag.session_count as u64),
    }
}

/// The list never scrolls past its ends.
pub proof fn scrolling_stays_within_the_list(offset_y: int, delta: int, max_y: int)
    requires
        max_y >= 0,
    ensures
        -max_y <= scrolled(offset_y, delta, max_y) <= 0,
{
}

/// A pointer that leaves the zone it was over leaves no hint behind.
pub proof fn leaving_a_zone_clears_its_hint<T>(hint: Option<T>, zone: T)
    ensures
        hint_after(hint_after(hint, zone, true), zone, false) is None,
{
}

/// A pointer that leaves a zone does not touch the hint at another one, so that it does not
/// matter which of two zones hears first that the pointer went from one to the other.
pub proof fn zones_do_not_disturb_each_other<T>(hint: Option<T>, from: T, to: T)
    requires
        from != to,
    ensures
        hint_after(hint_after(hint, from, false), to, true) == Some(to),
        hint_after(hint_after(hint, to, true), from, false) == Some(to),
{
}

} // verus!
