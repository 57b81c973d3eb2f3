//! What icons, dragging, dates and marks on rows promise.

use vstd::prelude::*;

use crate::session_list::clock;
use crate::session_list::clock::{updated_at_text, LocalMoment};
use crate::session_list::decoration;
use crate::session_list::decoration::{
    entity_decoration_chip, entity_decoration_color, opens_in_a_browser, row_decorations,
    shared_project_action_payload, DecorationChip, EntityDecorationTone, PluginEntityDecoration,
    SessionActionInvocationPayload, ThemeColor,
};
use crate::session_list::drag::{
    apply_sidebar_scroll_delta, project_disclosure_icon, project_drag_preview,
    session_drag_preview, sidebar_drag_scroll_delta, ProjectDrag, ProjectPreview, SessionDrag,
    SessionPreview, SidebarDrag, SidebarDragState,
};
use crate::session_list::row::{
    acp_provider_icon, agent_icon_asset, effective_pane_updated_at, plugin_agent_icon,
    plugin_session_action_icon, project_header_is_selected, provider_icon, session_row_is_selected,
    session_row_status_label, status_text, AgentStatus, IconColor, PluginAgentPresentation,
    RowIcon, SessionActionIcon, SessionIdentity,
};
use crate::settings::pi_auth::Workspace;
use crate::text;

verus! {

/// The picture of an agent lies under its name, everywhere the same.
pub proof fn agents_have_one_picture(
    id: &str,
    asset: String,
    shown: RowIcon,
    known: RowIcon,
    plain: RowIcon,
)
    requires
        call_ensures(agent_icon_asset, (id,), asset),
        call_ensures(acp_provider_icon, (id,), shown),
        call_ensures(provider_icon, (Some(id),), known),
        call_ensures(provider_icon, (None,), plain),
    ensures
        asset@ == "smelt-icons/agent-"@ + id@ + ".svg"@,
        shown matches RowIcon::Asset(path) && path@ == asset@,
        known matches RowIcon::Asset(path) && path@ == asset@,
        plain is SquareTerminal,
{
}

/// A plugin's agent shows the picture that it brings, and a robot without one; an action shows the
/// icon that it asks for.
pub proof fn plugins_bring_their_pictures(
    agent: &PluginAgentPresentation,
    shown: RowIcon,
    icon: Option<SessionActionIcon>,
    action: Option<RowIcon>,
)
    requires
        call_ensures(plugin_agent_icon, (agent,), shown),
        call_ensures(plugin_session_action_icon, (icon,), action),
    ensures
        agent.icon_asset matches Some(path) ==> shown == RowIcon::Asset(path),
        agent.icon_asset is None ==> shown is Bot,
        action is Some <==> icon is Some,
        icon == Some(SessionActionIcon::Check) <==> action == Some(RowIcon::Check),
        icon == Some(SessionActionIcon::ExternalLink) <==> action == Some(RowIcon::ExternalLink),
{
}

/// A session is known by its plugin's agent first, then by its conversation's, then by its
/// terminal's; its icon and its name are those of the same one.
pub proof fn sessions_are_known_by_one_agent(
    identity: &SessionIdentity,
    icon: RowIcon,
    name: String,
)
    requires
        call_ensures(SessionIdentity::icon, (identity,), icon),
        call_ensures(SessionIdentity::label, (identity,), name),
    ensures
        identity.plugin_agent matches Some(agent) ==> name@ == agent.name@ && match agent.icon_asset {
            Some(path) => icon == RowIcon::Asset(path),
            None => icon is Bot,
        },
        identity.plugin_agent is None ==> (identity.conversation matches Some(agent) ==> name@
            == agent.1@ && (icon matches RowIcon::Asset(path) && path@ == "smelt-icons/agent-"@
            + agent.0@ + ".svg"@)),
        identity.plugin_agent is None && identity.conversation is None ==> (
        identity.terminal matches Some(agent) ==> name@ == agent.1@ && (icon matches RowIcon::Asset(
            path,
        ) && path@ == "smelt-icons/agent-"@ + agent.0@ + ".svg"@)),
        identity.plugin_agent is None && identity.conversation is None && identity.terminal is None
            ==> name@ == "终端"@ && icon is SquareTerminal,
{
}

/// The row of the session in view is selected, in its own project; the project is where its row is
/// not in sight. Never both of one project.
pub proof fn one_of_row_and_header_is_selected(
    route_active: bool,
    in_project: bool,
    ix: usize,
    active: usize,
    visible: bool,
    row: bool,
    header: bool,
)
    requires
        call_ensures(session_row_is_selected, (route_active, in_project, ix, active), row),
        call_ensures(project_header_is_selected, (route_active, in_project, visible), header),
    ensures
        row <==> route_active && in_project && ix == active,
        header <==> route_active && in_project && !visible,
        visible ==> !(row && header),
{
}

/// Each state has a name of its own; only a session that needs you says so in its row.
pub proof fn states_have_names(
    status: AgentStatus,
    name: &'static str,
    label: Option<&'static str>,
    pane: u64,
    session: u64,
    at: u64,
)
    requires
        call_ensures(status_text, (status,), name),
        call_ensures(session_row_status_label, (status,), label),
        call_ensures(effective_pane_updated_at, (pane, session), at),
    ensures
        status is NeedsYou ==> name@ == "需要你"@,
        status is Running ==> name@ == "运行中"@,
        status is Idle ==> name@ == "空闲"@,
        label is Some <==> status is NeedsYou,
        label matches Some(shown) ==> shown@ == name@,
        pane > 0 ==> at == pane,
        pane == 0 ==> at == session,
{
}

/// Only a running session breathes, and only while there is a breath.
pub proof fn running_sessions_breathe(
    status: AgentStatus,
    breath_phase: Option<u32>,
    r: IconColor,
)
    requires
        call_ensures(Workspace::session_icon_color, (status, breath_phase), r),
    ensures
        status is Running && breath_phase is Some ==> r == IconColor::Glow(breath_phase->0),
        !(status is Running && breath_phase is Some) ==> r == IconColor::State(status),
{
}

/// The list scrolls only while the pointer is beside it, within twenty-four pixels.
pub proof fn scrolling_needs_the_pointer_nearby(
    pointer_x: i64,
    left: i64,
    right: i64,
    edge_delta: Option<i64>,
    r: Option<i64>,
)
    requires
        call_ensures(sidebar_drag_scroll_delta, (pointer_x, left, right, edge_delta), r),
    ensures
        left - 24 <= pointer_x <= right + 24 ==> r == edge_delta,
        !(left - 24 <= pointer_x <= right + 24) ==> r is None,
{
}

/// Nothing scrolls while nothing is dragged or the list has no height.
pub proof fn scrolling_needs_a_drag(
    state: &SidebarDragState,
    pointer_x: i64,
    left: i64,
    right: i64,
    height: i64,
    edge_delta: Option<i64>,
    r: Option<i64>,
)
    requires
        call_ensures(
            SidebarDragState::update_sidebar_drag_scroll,
            (state, pointer_x, left, right, height, edge_delta),
            r,
        ),
    ensures
        state.drag is Some && height > 0 && left - 24 <= pointer_x <= right + 24 ==> r
            == edge_delta,
        state.drag is None || height <= 0 || pointer_x < left - 24 || pointer_x > right + 24 ==> r
            is None,
{
}

/// Scrolling moves the list by the distance asked for, as far as it reaches: never above its
/// beginning, never below its end.
pub proof fn scrolling_stops_at_the_ends(offset_y: i64, delta: i64, max_y: i64, r: i64)
    requires
        call_ensures(apply_sidebar_scroll_delta, (offset_y, delta, max_y), r),
    ensures
        r <= 0,
        max_y >= 0 ==> r >= -max_y,
        max_y < 0 ==> r == 0,
        max_y >= 0 && -max_y <= offset_y - delta <= 0 ==> r == offset_y - delta,
        offset_y - delta > 0 ==> r == 0,
        max_y >= 0 && offset_y - delta < -max_y ==> r == -max_y,
{
}

/// A drag takes up one thing and forgets where the last one would have gone.
pub proof fn drags_start_afresh(
    one: &mut SidebarDragState,
    two: &mut SidebarDragState,
    three: SidebarDragState,
    ui_id: u64,
    root: String,
)
    requires
        call_ensures(SidebarDragState::start_session_drag, (one, ui_id), ()),
        call_ensures(SidebarDragState::start_project_drag, (two, root), ()),
        call_ensures(SidebarDragState::new, (), three),
    ensures
        final(one).drag == Some(SidebarDrag::Session(ui_id)),
        final(two).drag == Some(SidebarDrag::Project(root)),
        final(one).sess_drop_hint is None && final(one).proj_drop_hint is None,
        final(two).sess_drop_hint is None && final(two).proj_drop_hint is None,
        three.drag is None && three.sess_drop_hint is None && three.proj_drop_hint is None,
{
}

/// The hint is at the zone that the pointer is in; leaving a zone takes away its own hint and no
/// other. Whether anything changed is told.
pub proof fn hints_follow_the_pointer(
    state: &mut SidebarDragState,
    ui_id: u64,
    before: bool,
    inside: bool,
    r: bool,
)
    requires
        call_ensures(SidebarDragState::update_sess_drop_hint, (state, ui_id, before, inside), r),
    ensures
        inside ==> final(state).sess_drop_hint == Some((ui_id, before)),
        !inside && old(state).sess_drop_hint == Some((ui_id, before)) ==> final(state).sess_drop_hint is None,
        !inside && old(state).sess_drop_hint != Some((ui_id, before)) ==> final(state).sess_drop_hint == old(state).sess_drop_hint,
        final(state).drag == old(state).drag,
        final(state).proj_drop_hint == old(state).proj_drop_hint,
        !r <==> final(state).sess_drop_hint == old(state).sess_drop_hint,
{
}

/// The hint is at a place before or after a project.
pub open spec fn hints_at(hint: Option<(String, bool)>, root: Seq<char>, before: bool) -> bool {
    hint matches Some(place) && place.0@ == root && place.1 == before
}

/// The same holds of projects.
pub proof fn project_hints_follow_the_pointer(
    state: &mut SidebarDragState,
    root: String,
    before: bool,
    inside: bool,
    r: bool,
)
    requires
        call_ensures(SidebarDragState::update_proj_drop_hint, (state, root, before, inside), r),
    ensures
        inside ==> hints_at(final(state).proj_drop_hint, root@, before),
        !inside && hints_at(old(state).proj_drop_hint, root@, before) ==> final(state).proj_drop_hint is None,
        !inside && !hints_at(old(state).proj_drop_hint, root@, before) ==> (old(state).proj_drop_hint is Some <==> final(state).proj_drop_hint is Some) && (old(state).proj_drop_hint matches Some(place) ==> hints_at(
            final(state).proj_drop_hint,
            place.0@,
            place.1,
        )),
        final(state).drag == old(state).drag,
        final(state).sess_drop_hint == old(state).sess_drop_hint,
        inside ==> r == !hints_at(old(state).proj_drop_hint, root@, before),
        !inside ==> r == hints_at(old(state).proj_drop_hint, root@, before),
{
}

/// What is dragged looks as it does in the list.
pub proof fn previews_look_like_the_list(
    session: &SessionDrag,
    shown: SessionPreview,
    project: &ProjectDrag,
    seen: ProjectPreview,
    folded: bool,
    icon: RowIcon,
)
    requires
        call_ensures(session_drag_preview, (session,), shown),
        call_ensures(project_drag_preview, (project,), seen),
        call_ensures(project_disclosure_icon, (folded,), icon),
    ensures
        shown.title == session.title && shown.status == session.status,
        shown.subtitle == session.subtitle && shown.status_label == session.status_label,
        session.identity.is_pictured_by(shown.icon),
        icon == if folded {
            RowIcon::Folder
        } else {
            RowIcon::FolderOpen
        },
        seen.disclosure == RowIcon::FolderOpen <==> !project.collapsed && !project.empty,
        seen.disclosure == RowIcon::Folder <==> project.collapsed || project.empty,
        seen.label == project.label && seen.branch == project.branch,
        seen.faint == project.empty,
        seen.dot is None <==> project.agg is Idle,
        seen.dot matches Some(status) ==> status == project.agg,
        seen.agent_icon is Some <==> project.plugin_agent is Some,
        project.plugin_agent matches Some(agent) ==> match agent.icon_asset {
            Some(path) => seen.agent_icon == Some(RowIcon::Asset(path)),
            None => seen.agent_icon == Some(RowIcon::Bot),
        },
        seen.count@ == text::decimal(project.session_count as nat),
{
}

/// Each tone has a color of its own.
pub proof fn tones_have_their_colors(tone: EntityDecorationTone, color: ThemeColor)
    requires
        call_ensures(entity_decoration_color, (tone,), color),
    ensures
        tone is Neutral <==> color is MutedForeground,
        tone is Accent <==> color is Accent,
        tone is Positive <==> color is Green,
        tone is Warning <==> color is Warning,
        tone is Negative <==> color is Danger,
{
}

/// A mark opens only addresses of the web, carries its own text, and shows an icon only where
/// icons are shown: its own, or an arrow where it leads somewhere.
pub proof fn marks_open_only_the_web(
    decoration: &PluginEntityDecoration,
    show_icon: bool,
    chip: DecorationChip,
)
    requires
        call_ensures(entity_decoration_chip, (decoration, show_icon), chip),
    ensures
        chip.badge == decoration.badge && chip.tooltip == decoration.tooltip,
        chip.link matches Some(link) ==> decoration.external_url == Some(link) && (
        decoration::parsed_scheme(link@) == Some("http"@) || decoration::parsed_scheme(link@)
            == Some("https"@)),
        decoration.external_url matches Some(link) ==> (decoration::parsed_scheme(link@) == Some(
            "https"@,
        ) || decoration::parsed_scheme(link@) == Some("http"@) ==> chip.link == Some(link)),
        !show_icon ==> chip.icon is None,
        show_icon ==> (decoration.icon_asset matches Some(path) ==> chip.icon == Some(
            RowIcon::Asset(path),
        )),
        show_icon && decoration.icon_asset is None ==> (chip.icon == Some(RowIcon::ExternalLink)
            <==> decoration.external_url is Some),
        decoration.tone is Negative <==> chip.color is Danger,
        decoration.tone is Warning <==> chip.color is Warning,
        decoration.tone is Positive <==> chip.color is Green,
        decoration.tone is Accent <==> chip.color is Accent,
{
}

/// A browser opens http and https, and nothing else.
pub proof fn browsers_open_the_web(scheme: &Option<String>, r: bool)
    requires
        call_ensures(opens_in_a_browser, (scheme,), r),
    ensures
        r <==> scheme is Some && (scheme->0@ == "https"@ || scheme->0@ == "http"@),
{
}

/// A row shows the first two of its marks, in order; their icons make room for a plugin's agent.
pub proof fn rows_show_two_marks(
    decorations: &Vec<PluginEntityDecoration>,
    has_plugin_agent: bool,
    r: Vec<DecorationChip>,
    i: int,
)
    requires
        call_ensures(row_decorations, (decorations, has_plugin_agent), r),
    ensures
        r@.len() <= 2,
        decorations@.len() <= 2 ==> r@.len() == decorations@.len(),
        decorations@.len() >= 2 ==> r@.len() == 2,
        0 <= i < r@.len() ==> {
            &&& r@[i].badge == decorations@[i].badge
            &&& r@[i].tooltip == decorations@[i].tooltip
            &&& has_plugin_agent ==> r@[i].icon is None
            &&& !has_plugin_agent && decorations@[i].icon_asset is Some ==> r@[i].icon == Some(
                RowIcon::Asset(decorations@[i].icon_asset->0),
            )
        },
{
}

/// A project offers an action only where all its sessions would run it on the same target.
pub proof fn projects_share_one_target(
    payloads: &Vec<SessionActionInvocationPayload>,
    r: Option<&SessionActionInvocationPayload>,
    i: int,
)
    requires
        call_ensures(shared_project_action_payload, (payloads,), r),
    ensures
        payloads@.len() == 0 ==> r is None,
        r is Some && 0 <= i < payloads@.len() ==> {
            let (a, b) = (payloads@[i], *r->0);
            &&& a.agent.plugin_id@ == b.agent.plugin_id@
            &&& a.agent.contribution_id@ == b.agent.contribution_id@
            &&& a.controller.plugin_id@ == b.controller.plugin_id@
            &&& a.controller.contribution_id@ == b.controller.contribution_id@
            &&& a.instance.plugin_id@ == b.instance.plugin_id@
            &&& a.instance.resource_type@ == b.instance.resource_type@
            &&& a.instance.resource_id@ == b.instance.resource_id@
            &&& a.context@ == b.context@
        },
        payloads@.len() > 0 && (forall|k: int|
            0 <= k < payloads@.len() ==> #[trigger] payloads@[k] == payloads@[0]) ==> r == Some(
            &payloads@[0],
        ),
{
    if r is Some && 0 <= i < payloads@.len() {
        assert(decoration::same_target(payloads@[i], payloads@[0]));
    }
}

/// A moment of today is shown as a time, one of yesterday with that word, one of this year as a
/// day and a time, and an older one as a date; one that is not known says so.
pub proof fn moments_are_told_by_their_distance(
    timestamp: u64,
    moment: LocalMoment,
    now: &LocalMoment,
    r: String,
    unknown: String,
    time: String,
    day: String,
    date: String,
)
    requires
        call_ensures(updated_at_text, (timestamp, Some(moment), now), r),
        call_ensures(updated_at_text, (timestamp, None, now), unknown),
        call_ensures(LocalMoment::time, (&moment,), time),
        call_ensures(LocalMoment::day_and_time, (&moment,), day),
        call_ensures(LocalMoment::date, (&moment,), date),
    ensures
        unknown@ == "时间未知"@,
        timestamp == 0 ==> r@ == unknown@,
        timestamp != 0 && moment.day_number >= now.day_number ==> r@ == "今天 "@ + time@,
        timestamp != 0 && moment.day_number + 1 == now.day_number ==> r@ == "昨天 "@ + time@,
        timestamp != 0 && moment.day_number + 1 < now.day_number && moment.year == now.year ==> r@
            == day@,
        timestamp != 0 && moment.day_number + 1 < now.day_number && moment.year != now.year ==> r@
            == date@,
{
}

/// The two digits of a number below a hundred.
pub open spec fn two_digits(n: nat) -> Seq<char> {
    seq![text::digit(n / 10), text::digit(n % 10)]
}

proof fn lemma_two_digits(n: nat)
    requires
        n < 100,
    ensures
        clock::padded(n, 2) == two_digits(n),
{
    if n < 10 {
        assert(clock::padded(n, 2) =~= two_digits(n));
    } else {
        assert(text::decimal(n / 10) == seq![text::digit(n / 10)]);
        assert(text::decimal(n) =~= two_digits(n));
    }
}

/// Hours, minutes, months and days have two digits each, and come in this order.
pub proof fn dates_have_two_digits(moment: &LocalMoment, time: String, day: String, both: String)
    requires
        call_ensures(LocalMoment::time, (moment,), time),
        call_ensures(LocalMoment::day_of_year, (moment,), day),
        call_ensures(LocalMoment::day_and_time, (moment,), both),
        moment.hour < 24,
        moment.minute < 60,
        moment.month <= 12,
        moment.day <= 31,
    ensures
        time@ == two_digits(moment.hour as nat) + ":"@ + two_digits(moment.minute as nat),
        day@ == two_digits(moment.month as nat) + "-"@ + two_digits(moment.day as nat),
        both@ == day@ + " "@ + time@,
{
    lemma_two_digits(moment.hour as nat);
    lemma_two_digits(moment.minute as nat);
    lemma_two_digits(moment.month as nat);
    lemma_two_digits(moment.day as nat);
}

/// A date is the year, a hyphen, and the day of the year.
pub proof fn dates_begin_with_the_year(moment: &LocalMoment, day: String, date: String)
    requires
        call_ensures(LocalMoment::day_of_year, (moment,), day),
        call_ensures(LocalMoment::date, (moment,), date),
    ensures
        1000 <= moment.year <= 9999 ==> date@ == text::decimal(moment.year as nat) + "-"@ + day@,
        0 <= moment.year < 1000 ==> date@.len() == day@.len() + 5 && date@[0] == '0',
{
    reveal_strlit("-");
    if 0 <= moment.year <= 9999 {
        let y = moment.year as nat;
        lemma_length(y);
        if y < 1000 {
            assert(clock::padded(y, 4)[0] == '0');
        }
    }
}

proof fn lemma_length(n: nat)
    requires
        n <= 9999,
    ensures
        n >= 1000 ==> text::decimal(n).len() == 4,
        n < 1000 ==> text::decimal(n).len() < 4,
{
    reveal_with_fuel(text::decimal, 5);
}

/// A year of more than four digits has a plus before it, and one before the first a minus.
pub proof fn distant_years_have_a_sign(moment: &LocalMoment, day: String, date: String)
    requires
        call_ensures(LocalMoment::day_of_year, (moment,), day),
        call_ensures(LocalMoment::date, (moment,), date),
    ensures
        moment.year > 9999 ==> date@ == "+"@ + text::decimal(moment.year as nat) + "-"@ + day@,
        moment.year <= -1000 ==> date@ == "-"@ + text::decimal((0 - moment.year) as nat) + "-"@
            + day@,
{
    if moment.year > 9999 {
        lemma_long(moment.year as nat);
    }
    if moment.year <= -1000 {
        lemma_long((0 - moment.year) as nat);
    }
}

proof fn lemma_long(n: nat)
    requires
        n >= 1000,
    ensures
        text::decimal(n).len() >= 4,
{
    reveal_with_fuel(text::decimal, 4);
    lemma_not_empty(n / 1000);
}

proof fn lemma_not_empty(n: nat)
    ensures
        text::decimal(n).len() >= 1,
{
}

/// The year has a day more than others.
pub open spec fn has_leap_day(year: int) -> bool {
    year % 400 == 0 || (year % 4 == 0 && year % 100 != 0)
}

/// How many days a month has.
pub open spec fn month_length(year: int, month: int) -> int {
    if month == 2 {
        if has_leap_day(year) {
            29
        } else {
            28
        }
    } else if month == 4 || month == 6 || month == 9 || month == 11 {
        30
    } else {
        31
    }
}

/// Days are counted without gaps: each follows the one before it, from month to month and from
/// year to year, and the count begins with the first day of the first year.
pub proof fn days_are_counted_without_gaps(year: int, month: int, day: int)
    requires
        1 <= month <= 12,
    ensures
        clock::day_number_of(year, month, day + 1) == clock::day_number_of(year, month, day) + 1,
        month < 12 ==> clock::day_number_of(year, month + 1, 1) == clock::day_number_of(
            year,
            month,
            month_length(year, month),
        ) + 1,
        clock::day_number_of(year + 1, 1, 1) == clock::day_number_of(year, 12, 31) + 1,
        clock::day_number_of(1, 1, 1) == 1,
{
}

} // verus!
