use chrono::{Local, TimeZone};
use smelt::session_list::clock::{session_updated_at_text, updated_at_text, LocalMoment};
use smelt::session_list::decoration::{
    entity_decoration_chip, opens_in_a_browser, row_decorations, shared_project_action_payload,
    ContributionRef,
    EntityDecorationTone, PluginEntityDecoration, ResourceRef, SessionActionInvocationPayload,
    ThemeColor,
};
use smelt::session_list::drag::{
    apply_sidebar_scroll_delta, project_disclosure_icon, project_drag_preview,
    session_drag_preview, sidebar_drag_scroll_delta, ProjectDrag, SessionDrag, SidebarDrag,
    SidebarDragState,
};
use smelt::session_list::quota::{
    provider_quota_row, quota_color, quota_reset_text, quota_row, quota_until_text, quota_used,
    window_reset_text, AmountTexts, CopilotQuota, ProviderQuotaData, ProviderQuotaRow,
    ProviderQuotaWindow, QuotaColor, QuotaStatus,
};
use smelt::session_list::row::{
    acp_provider_icon, effective_pane_updated_at, plugin_agent_icon, plugin_session_action_icon,
    project_header_is_selected, provider_icon, session_row_is_selected, session_row_status_label,
    status_text, AgentStatus, IconColor, PluginAgentPresentation, RowIcon, SessionActionIcon,
    SessionIdentity,
};
use smelt::settings::launch::TerminalAgentKind;
use smelt::settings::pi_auth::Workspace;

const STATUSES: [AgentStatus; 3] =
    [AgentStatus::NeedsYou, AgentStatus::Running, AgentStatus::Idle];

#[test]
fn project_and_agent_icons_are_visually_distinct() {
    assert!(matches!(project_disclosure_icon(true), RowIcon::Folder));
    assert!(matches!(project_disclosure_icon(false), RowIcon::FolderOpen));
}

#[test]
fn task_panel_does_not_select_the_last_active_session() {
    assert!(session_row_is_selected(true, true, 2, 2));
    assert!(!session_row_is_selected(false, true, 2, 2));
    assert!(!session_row_is_selected(true, true, 1, 2));
    assert!(!session_row_is_selected(true, false, 2, 2));
}

#[test]
fn active_session_is_the_only_selected_row_inside_its_project() {
    assert!(!project_header_is_selected(true, true, true));
    assert!(session_row_is_selected(true, true, 2, 2));
    assert!(project_header_is_selected(true, true, false));
}

#[test]
fn running_sessions_color_the_icon_instead_of_writing_running() {
    assert_eq!(session_row_status_label(AgentStatus::Running), None);
    assert_eq!(status_text(AgentStatus::Running), "运行中");
}

#[test]
fn idle_sessions_do_not_show_status_chrome() {
    assert_eq!(session_row_status_label(AgentStatus::Idle), None);
}

#[test]
fn agent_conversation_rows_reuse_the_project_session_status_contract() {
    for status in STATUSES {
        assert_eq!(
            smelt::session_list::row::session_row_status_label(status),
            session_row_status_label(status),
            "对话行与会话行的状态文案必须同源"
        );
    }
    assert_ne!(
        Workspace::session_icon_color(AgentStatus::Running, None),
        Workspace::session_icon_color(AgentStatus::Idle, None)
    );
}

#[test]
fn attention_sessions_keep_their_labels() {
    assert_eq!(session_row_status_label(AgentStatus::NeedsYou), Some("需要你"));
}

fn payload(issue_id: &str) -> SessionActionInvocationPayload {
    SessionActionInvocationPayload {
        agent: ContributionRef {
            plugin_id: "com.example.issues".to_string(),
            contribution_id: "issue-agent".to_string(),
        },
        controller: ContributionRef {
            plugin_id: "com.example.issues".to_string(),
            contribution_id: "issue-session".to_string(),
        },
        instance: ResourceRef {
            plugin_id: "com.example.issues".to_string(),
            resource_type: "issue".to_string(),
            resource_id: "shared-instance".to_string(),
        },
        context: format!("{{\"issue_id\":\"{issue_id}\"}}"),
    }
}

#[test]
fn project_action_requires_every_session_to_target_the_same_context() {
    assert!(shared_project_action_payload(&vec![payload("issue-1"), payload("issue-2")]).is_none());
}

#[test]
fn project_actions_run_on_what_all_sessions_share() {
    let same = vec![payload("issue-1"), payload("issue-1")];
    assert_eq!(shared_project_action_payload(&same), Some(&payload("issue-1")));
    assert!(shared_project_action_payload(&Vec::new()).is_none());
}

/// What the edges of a list of the given height ask for: up near its top, down near its bottom.
fn edge_delta(pointer_y: i64, height: i64) -> Option<i64> {
    if pointer_y < 24 {
        Some(-12)
    } else if pointer_y > height - 24 {
        Some(12)
    } else {
        None
    }
}

#[test]
fn drag_scroll_triggers_at_the_top_edge_and_stops_in_the_middle() {
    let top = sidebar_drag_scroll_delta(140, 0, 280, edge_delta(4, 400)).unwrap();
    let bottom = sidebar_drag_scroll_delta(140, 0, 280, edge_delta(396, 400)).unwrap();
    assert!(top < 0);
    assert!(bottom > 0);
    assert_eq!(sidebar_drag_scroll_delta(140, 0, 280, edge_delta(200, 400)), None);
}

#[test]
fn drag_scroll_ignores_pointer_far_from_the_sidebar() {
    assert_eq!(sidebar_drag_scroll_delta(400, 0, 280, edge_delta(4, 400)), None);
}

#[test]
fn drag_scroll_has_slack_beside_the_sidebar() {
    assert_eq!(sidebar_drag_scroll_delta(304, 0, 280, Some(3)), Some(3));
    assert_eq!(sidebar_drag_scroll_delta(305, 0, 280, Some(3)), None);
    assert_eq!(sidebar_drag_scroll_delta(-24, 0, 280, Some(3)), Some(3));
    assert_eq!(sidebar_drag_scroll_delta(-25, 0, 280, Some(3)), None);
    let mut state = SidebarDragState::new();
    assert_eq!(state.update_sidebar_drag_scroll(10, 0, 280, 400, Some(3)), None);
    state.start_session_drag(1);
    assert_eq!(state.update_sidebar_drag_scroll(10, 0, 280, 400, Some(3)), Some(3));
    assert_eq!(state.update_sidebar_drag_scroll(10, 0, 280, 0, Some(3)), None);
}

#[test]
fn scroll_delta_clamps_to_the_content_range() {
    assert_eq!(apply_sidebar_scroll_delta(0, -12, 200), 0);
    assert_eq!(apply_sidebar_scroll_delta(0, 12, 200), -12);
    assert_eq!(apply_sidebar_scroll_delta(-200, 12, 200), -200);
}

#[test]
fn scrolling_stays_within_the_list_at_extremes() {
    assert_eq!(apply_sidebar_scroll_delta(i64::MIN, i64::MAX, 200), -200);
    assert_eq!(apply_sidebar_scroll_delta(i64::MAX, i64::MIN, 200), 0);
    assert_eq!(apply_sidebar_scroll_delta(-5, 1, -3), 0);
}

#[test]
fn drop_hints_follow_the_pointer() {
    let mut state = SidebarDragState::new();
    state.start_session_drag(7);
    assert_eq!(state.drag, Some(SidebarDrag::Session(7)));
    assert!(state.update_sess_drop_hint(1, true, true));
    assert!(!state.update_sess_drop_hint(1, true, true));
    assert!(state.update_sess_drop_hint(2, false, true));
    assert!(!state.update_sess_drop_hint(1, true, false));
    assert_eq!(state.sess_drop_hint, Some((2, false)));
    assert!(state.update_sess_drop_hint(2, false, false));
    assert_eq!(state.sess_drop_hint, None);

    assert!(state.update_proj_drop_hint("/a".to_string(), true, true));
    assert!(!state.update_proj_drop_hint("/a".to_string(), false, false));
    assert_eq!(state.proj_drop_hint, Some(("/a".to_string(), true)));
    state.start_project_drag("/a".to_string());
    assert_eq!(state.drag, Some(SidebarDrag::Project("/a".to_string())));
    assert_eq!(state.proj_drop_hint, None);
}

#[test]
fn dragged_projects_look_like_their_headers() {
    let preview = project_drag_preview(&ProjectDrag {
        root: "/a".to_string(),
        label: "a".to_string(),
        collapsed: false,
        empty: true,
        branch: Some("main".to_string()),
        agg: AgentStatus::Running,
        plugin_agent: Some(PluginAgentPresentation { name: "x".to_string(), icon_asset: None }),
        session_count: 12,
    });
    assert_eq!(preview.disclosure, RowIcon::Folder);
    assert!(preview.faint);
    assert_eq!(preview.dot, Some(AgentStatus::Running));
    assert_eq!(preview.agent_icon, Some(RowIcon::Bot));
    assert_eq!(preview.branch.as_deref(), Some("main"));
    assert_eq!(preview.count, "12");
}

#[test]
fn dragged_sessions_look_like_their_rows() {
    let preview = session_drag_preview(&SessionDrag {
        id: 3,
        title: "one".to_string(),
        identity: SessionIdentity {
            plugin_agent: None,
            conversation: Some(("codex".to_string(), "Codex".to_string())),
            terminal: None,
        },
        status: AgentStatus::NeedsYou,
        subtitle: None,
        status_label: Some("需要你".to_string()),
    });
    assert_eq!(preview.icon, RowIcon::Asset("smelt-icons/agent-codex.svg".to_string()));
    assert_eq!(preview.title, "one");
    assert_eq!(preview.status, AgentStatus::NeedsYou);
    assert_eq!(preview.status_label.as_deref(), Some("需要你"));
}

fn window(label: &str, percent: i64, after: Option<u64>) -> ProviderQuotaWindow {
    ProviderQuotaWindow {
        label: label.to_string(),
        used_percent: percent * 1_000_000,
        resets_at_ms: None,
        reset_after_seconds: after,
    }
}

fn amounts(used: &str, limit: &str, remaining: &str) -> AmountTexts {
    AmountTexts {
        used: used.to_string(),
        limit: limit.to_string(),
        remaining: remaining.to_string(),
    }
}

#[test]
fn window_quota_row_keeps_the_worst_window_summary() {
    let status = QuotaStatus {
        quota: Some(ProviderQuotaData::Windows(vec![
            window("5h", 76, Some(3_600)),
            window("7d", 91, None),
        ])),
        error: Some("offline".to_string()),
    };
    let label = format!("{:?}", TerminalAgentKind::Claude);
    let row = provider_quota_row(&label, &status, &amounts("", "", ""), 0).unwrap();
    assert_eq!(row.text, "91%");
    assert_eq!(row.color, QuotaColor::Red);
    assert!(row.hint.contains(&format!("{label} 5h 窗口已用 76%")));
    assert!(row.hint.contains("仍显示上次成功结果：offline"));
    assert_eq!(
        row.hint,
        format!(
            "{label} 5h 窗口已用 76%，约 1小时 后重置。 {label} 7d 窗口已用 91%，重置时间未知。 \
             {label} 额度刷新失败，仍显示上次成功结果：offline。"
        )
    );
}

#[test]
fn copilot_quota_row_keeps_its_amount_semantics() {
    let status = QuotaStatus {
        quota: Some(ProviderQuotaData::Copilot(CopilotQuota {
            unit: "premium requests".to_string(),
            remaining: 75_000_000,
            limit: Some(100_000_000),
            used: Some(25_000_000),
        })),
        error: None,
    };
    let row =
        provider_quota_row("Copilot", &status, &amounts("25", "100", "75"), 0).unwrap();
    assert_eq!(row.text, "25%");
    assert_eq!(row.color, QuotaColor::Muted);
    assert!(row.hint.contains("25 / 100 premium requests（25%）"));
}

fn copilot(remaining: i64, limit: Option<i64>, used: Option<i64>) -> QuotaStatus {
    QuotaStatus {
        quota: Some(ProviderQuotaData::Copilot(CopilotQuota {
            unit: "AI credits".to_string(),
            remaining,
            limit,
            used,
        })),
        error: None,
    }
}

fn amount_row(label: &str, status: &QuotaStatus, texts: &AmountTexts) -> ProviderQuotaRow {
    quota_row(label, status, &Vec::new(), texts).unwrap()
}

#[test]
fn quotas_without_a_limit_show_what_remains() {
    let left = amounts("0", "0", "1.25");
    let row = amount_row("Copilot", &copilot(1_250_000, None, None), &left);
    assert_eq!(row.text, "1.25");
    assert_eq!(row.hint, "Copilot 本周期剩余 1.25 AI credits。");
    assert_eq!(row.color, QuotaColor::Muted);
}

#[test]
fn quota_shares_stay_between_none_and_all() {
    let texts = amounts("30", "40", "10");
    let over = copilot(0, Some(1_000_000), Some(5_000_000));
    assert_eq!(amount_row("C", &over, &texts).text, "100%");
    let none = copilot(9_000_000, Some(1_000_000), None);
    assert_eq!(amount_row("C", &none, &texts).text, "0%");
    let missing = copilot(10_000_000, Some(40_000_000), None);
    let row = amount_row("C", &missing, &texts);
    assert_eq!(row.text, "75%");
    assert_eq!(row.color, QuotaColor::Yellow);
    assert_eq!(row.hint, "C 本周期已用 30 / 40 AI credits（75%）。");
    let unknown = QuotaStatus { quota: None, error: Some("x".to_string()) };
    assert_eq!(quota_row("C", &unknown, &Vec::new(), &texts), None);
    assert_eq!(quota_color(89_999_999), QuotaColor::Yellow);
    assert_eq!(quota_color(90_000_000), QuotaColor::Red);
}

#[test]
fn what_is_used_is_what_is_missing_from_the_limit() {
    let used = |remaining: i64, limit: Option<i64>, used: Option<i64>| {
        let Some(ProviderQuotaData::Copilot(quota)) = copilot(remaining, limit, used).quota else {
            unreachable!()
        };
        quota_used(&quota)
    };
    assert_eq!(used(10, Some(40), None), 30);
    assert_eq!(used(50, Some(40), None), 0);
    assert_eq!(used(10, Some(40), Some(7)), 7);
    assert_eq!(used(10, None, None), 0);
}

#[test]
fn spans_of_time_are_told_in_two_units() {
    assert_eq!(quota_until_text(59), None);
    assert_eq!(quota_until_text(-1), None);
    assert_eq!(quota_until_text(60).unwrap(), "1分");
    assert_eq!(quota_until_text(3_600).unwrap(), "1小时");
    assert_eq!(quota_until_text(3_660).unwrap(), "1小时1分");
    assert_eq!(quota_until_text(86_400).unwrap(), "1天");
    assert_eq!(quota_until_text(2 * 86_400 + 3 * 3_600 + 59).unwrap(), "2天3小时");
}

#[test]
fn windows_say_when_they_start_anew() {
    let noon = LocalMoment { year: 2026, month: 8, day: 4, hour: 12, minute: 5, day_number: 9 };
    let mut known = window("5h", 1, None);
    known.resets_at_ms = Some(7_200_000);
    assert_eq!(window_reset_text(&known, Some(noon), 0), "重置 08-04 12:05（还有 2小时）");
    assert_eq!(window_reset_text(&known, Some(noon), 7_200_000), "重置 08-04 12:05");
    assert_eq!(window_reset_text(&known, None, 0), "重置时间未知");
    assert_eq!(quota_reset_text(&window("x", 1, Some(30)), 0), "即将重置");
    let shown = |seconds: i64| {
        Local.timestamp_opt(seconds, 0).single().unwrap().format("%m-%d %H:%M").to_string()
    };
    assert_eq!(quota_reset_text(&known, 0), format!("重置 {}（还有 2小时）", shown(7_200)));
    let august = Local.with_ymd_and_hms(2026, 8, 9, 14, 0, 0).single().unwrap().timestamp();
    known.resets_at_ms = Some(august as u64 * 1000 + 999);
    known.reset_after_seconds = Some(30);
    assert_eq!(
        quota_reset_text(&known, (august - 2 * 86_400 - 5 * 3_600) * 1000),
        "重置 08-09 14:00（还有 2天5小时）"
    );
    assert_eq!(quota_reset_text(&known, (august + 1) * 1000), "重置 08-09 14:00");
}

#[test]
fn session_time_uses_compact_local_calendar_labels() {
    let now = Local.with_ymd_and_hms(2026, 8, 24, 15, 30, 0).single().unwrap();
    let today = Local.with_ymd_and_hms(2026, 8, 24, 14, 5, 0).single().unwrap();
    let yesterday = Local.with_ymd_and_hms(2026, 8, 23, 23, 15, 0).single().unwrap();
    let earlier = Local.with_ymd_and_hms(2026, 8, 1, 9, 30, 0).single().unwrap();
    let previous_year = Local.with_ymd_and_hms(2025, 12, 31, 9, 30, 0).single().unwrap();
    let now = LocalMoment::at(now.timestamp()).unwrap();

    assert_eq!(session_updated_at_text(today.timestamp() as u64, &now), "今天 14:05");
    assert_eq!(session_updated_at_text(yesterday.timestamp() as u64, &now), "昨天 23:15");
    assert_eq!(session_updated_at_text(earlier.timestamp() as u64, &now), "08-01 09:30");
    assert_eq!(session_updated_at_text(previous_year.timestamp() as u64, &now), "2025-12-31");
    assert_eq!(session_updated_at_text(0, &now), "时间未知");
}

#[test]
fn yesterday_reaches_over_the_turn_of_the_year() {
    let now = LocalMoment { year: 2026, month: 1, day: 1, hour: 0, minute: 0, day_number: 100 };
    let eve = LocalMoment { year: 2025, month: 12, day: 31, hour: 9, minute: 7, day_number: 99 };
    assert_eq!(updated_at_text(5, Some(eve), &now), "昨天 09:07");
    assert_eq!(updated_at_text(5, None, &now), "时间未知");
    assert_eq!(eve.date(), "2025-12-31");
    assert_eq!(eve.time(), "09:07");
    assert_eq!(LocalMoment::at(i64::MAX), None);
}

#[test]
fn pane_time_prefers_its_own_activity_and_falls_back_to_the_session() {
    assert_eq!(effective_pane_updated_at(120, 240), 120);
    assert_eq!(effective_pane_updated_at(0, 240), 240);
}

#[test]
fn sessions_are_pictured_by_who_works_in_them() {
    let asset = |path: &str| RowIcon::Asset(path.to_string());
    assert_eq!(provider_icon(Some("pi")), asset("smelt-icons/agent-pi.svg"));
    assert_eq!(provider_icon(None), RowIcon::SquareTerminal);
    assert_eq!(acp_provider_icon("codex"), asset("smelt-icons/agent-codex.svg"));
    let presented =
        PluginAgentPresentation { name: "Issues".to_string(), icon_asset: Some("i.svg".to_string()) };
    assert_eq!(plugin_agent_icon(&presented), asset("i.svg"));
    assert_eq!(
        plugin_session_action_icon(Some(SessionActionIcon::ExternalLink)),
        Some(RowIcon::ExternalLink)
    );
    assert_eq!(plugin_session_action_icon(None), None);

    let pi = Some(("pi".to_string(), "Pi".to_string()));
    let codex = Some(("codex".to_string(), "Codex".to_string()));
    let mut identity = SessionIdentity {
        plugin_agent: Some(presented),
        conversation: codex,
        terminal: pi,
    };
    assert_eq!((identity.icon(), identity.label()), (asset("i.svg"), "Issues".to_string()));
    identity.plugin_agent = None;
    assert_eq!(identity.label(), "Codex");
    identity.conversation = None;
    assert_eq!(identity.icon(), asset("smelt-icons/agent-pi.svg"));
    identity.terminal = None;
    assert_eq!((identity.icon(), identity.label()), (RowIcon::SquareTerminal, "终端".to_string()));
}

#[test]
fn only_running_sessions_glow() {
    assert_eq!(
        Workspace::session_icon_color(AgentStatus::Running, Some(3)),
        IconColor::Glow(3)
    );
    assert_eq!(
        Workspace::session_icon_color(AgentStatus::Idle, Some(3)),
        IconColor::State(AgentStatus::Idle)
    );
}

fn decoration(url: Option<&str>) -> PluginEntityDecoration {
    PluginEntityDecoration {
        tone: EntityDecorationTone::Warning,
        icon_asset: None,
        badge: Some("3".to_string()),
        tooltip: None,
        external_url: url.map(str::to_string),
    }
}

#[test]
fn only_web_addresses_become_links() {
    let chip = entity_decoration_chip(&decoration(Some("HTTPS://example.test/x")), true);
    assert_eq!(chip.color, ThemeColor::Warning);
    assert_eq!(chip.icon, Some(RowIcon::ExternalLink));
    assert_eq!(chip.badge.as_deref(), Some("3"));
    assert_eq!(chip.link.as_deref(), Some("HTTPS://example.test/x"));
    assert_eq!(entity_decoration_chip(&decoration(Some("file:///etc")), true).link, None);
    assert_eq!(entity_decoration_chip(&decoration(Some("not an address")), false).link, None);
    assert_eq!(entity_decoration_chip(&decoration(None), true).icon, None);
    assert!(opens_in_a_browser(&Some("http".to_string())));
    assert!(!opens_in_a_browser(&Some("javascript".to_string())));
    assert!(!opens_in_a_browser(&None));
}

#[test]
fn rows_show_two_decorations() {
    let many = vec![decoration(Some("https://a")), decoration(None), decoration(None)];
    let chips = row_decorations(&many, false);
    assert_eq!(chips.len(), 2);
    assert_eq!(chips[0].icon, Some(RowIcon::ExternalLink));
    assert_eq!(row_decorations(&many, true)[0].icon, None);
    assert!(row_decorations(&Vec::new(), false).is_empty());
}
