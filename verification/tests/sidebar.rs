use smelt::session_list::conversation::{
    acp_cmd_for, conversation_launch, conversation_options, initial_acp_config_for,
    initial_agent_conversation_config_for, AgentDefinition, AgentHost, AgentProfile,
    ConversationAgentKind, ConversationLaunch,
};
use smelt::session_list::drag::SidebarDragState;
use smelt::session_list::menus::{
    account_settings_label, close_project_label, grouping_menu, header_menu, pane_menu,
    project_menu, quota_footer_text, quota_text_color, quota_tip, session_menu, settings_menu,
    worktree_menu, AccountAction, MenuCommand, MenuEntry, PluginAction, ProjectMenu,
    QuotaTextColor, SidebarAccountMenuEntry, Submenu,
};
use smelt::session_list::new_session::{
    picker_item_icon, picker_key, picker_pin_tip, picker_row_label, IndexPath, NewSessionAction,
    NewSessionKind, NewSessionPickerState, NewSessionRequest, NewSessionTarget, PickerRow,
};
use smelt::session_list::quota::QuotaColor;
use smelt::session_list::row::{
    AgentStatus, PluginAgentPresentation, RowIcon, SessionActionIcon, SessionIdentity,
};
use smelt::session_list::sidebar::{
    active_project_root, agent_conversation_workspace_is_open, aggregate_status, group_header, group_is_shown, group_rows_are_shown,
    empty_filters, group_agent, hidden_projects_text, pane_titles, pane_tooltip,
    project_header_click, session_groups, session_project, set_hide_empty,
    settings_need_attention, surface_click_renames, surface_initial,
    tool_panel_context_root, workspace_surface_rows, HeaderClick, HeaderTone, PaneInfo, SessionInfo,
    SidebarGroup, SidebarGrouping, SidebarState,
};
use smelt::settings::launch::{terminal_agents, LaunchEntry, TerminalAgent};

fn state(grouping: SidebarGrouping) -> SidebarState {
    SidebarState {
        grouping,
        hide_empty: true,
        session_route_active: true,
        active_session: 1,
        drag: SidebarDragState::new(),
    }
}

fn group(root: &str, sessions: Vec<usize>) -> SidebarGroup {
    SidebarGroup {
        root: root.to_string(),
        label: root.to_string(),
        sessions,
        collapsed: false,
        active: false,
        pinned: false,
        dragged: false,
    }
}

fn session(title: &str, ui_id: u64, status: AgentStatus) -> SessionInfo {
    SessionInfo {
        title: title.to_string(),
        ui_id,
        status,
        identity: SessionIdentity { plugin_agent: None, conversation: None, terminal: None },
        is_conversation: false,
        panes: vec![pane(1, title)],
        active_pane: 1,
        project: Some(("p".to_string(), None)),
        updated_at: 50,
    }
}

fn pane(id: u64, title: &str) -> PaneInfo {
    PaneInfo {
        id,
        title: title.to_string(),
        status: AgentStatus::Idle,
        agent: None,
        updated_at: 0,
    }
}

#[test]
fn tool_panels_follow_what_was_selected() {
    let root = |selected, group, open, active, first| {
        tool_panel_context_root(selected, group, open, active, first)
    };
    assert_eq!(root(Some("/s"), Some("/g"), true, Some("/a"), None).as_deref(), Some("/g"));
    assert_eq!(root(Some("/s"), None, true, Some("/a"), None).as_deref(), Some("/s"));
    assert_eq!(root(Some("/s"), None, false, Some("/a"), Some("/f")).as_deref(), Some("/a"));
    assert_eq!(root(None, None, true, None, Some("/f")).as_deref(), Some("/f"));
    assert_eq!(root(None, None, true, None, None), None);
}

#[test]
fn the_project_at_hand_is_found_among_the_groups() {
    let mut groups = vec![group("/a", vec![0]), group("/b", vec![1]), group("/c", vec![])];
    assert_eq!(active_project_root(&groups, None, false, 1).as_deref(), Some("/b"));
    assert_eq!(active_project_root(&groups, None, false, 9).as_deref(), Some("/a"));
    assert_eq!(active_project_root(&groups, Some("/x"), true, 1).as_deref(), Some("/x"));
    groups[2].active = true;
    assert_eq!(active_project_root(&groups, Some("/c"), true, 1).as_deref(), Some("/c"));
    assert_eq!(active_project_root(&Vec::new(), None, false, 0), None);
}

#[test]
fn open_conversations_keep_their_directory() {
    let sessions = vec![(true, false), (false, true)];
    assert!(!agent_conversation_workspace_is_open(true, &sessions));
    let sessions = vec![(false, true), (true, true)];
    assert!(agent_conversation_workspace_is_open(true, &sessions));
    assert!(!agent_conversation_workspace_is_open(false, &sessions));
}

#[test]
fn headers_tell_the_most_urgent_state() {
    let statuses = vec![AgentStatus::Idle, AgentStatus::Running, AgentStatus::NeedsYou];
    assert_eq!(aggregate_status(&vec![0, 1], &statuses), AgentStatus::Running);
    assert_eq!(aggregate_status(&vec![0, 1, 2], &statuses), AgentStatus::NeedsYou);
    assert_eq!(aggregate_status(&vec![0], &statuses), AgentStatus::Idle);
    assert_eq!(aggregate_status(&Vec::new(), &statuses), AgentStatus::Idle);
}

#[test]
fn empty_projects_can_be_hidden() {
    let mut list = state(SidebarGrouping::Project);
    let mut pinned = group("/c", vec![]);
    pinned.pinned = true;
    let mut active = group("/d", vec![]);
    active.active = true;
    let groups = vec![group("/a", vec![0]), group("/b", vec![]), pinned, active];
    let shown: Vec<bool> = groups.iter().map(|group| group_is_shown(&list, group)).collect();
    assert_eq!(shown, [true, false, true, true]);
    assert_eq!(hidden_projects_text(&list, &groups).unwrap(), "已隐藏 1 个无会话项目");
    assert!(set_hide_empty(&mut list, false));
    assert!(!set_hide_empty(&mut list, false));
    assert_eq!(hidden_projects_text(&list, &groups), None);
    assert!(group_is_shown(&state(SidebarGrouping::Status), &group("/b", vec![])));
}

#[test]
fn headers_stand_over_their_groups() {
    let statuses = vec![AgentStatus::Idle, AgentStatus::Running];
    let mut list = state(SidebarGrouping::Project);
    let mut project = group("/a", vec![0, 1]);
    project.active = true;
    project.pinned = true;
    list.drag.proj_drop_hint = Some(("/a".to_string(), false));
    let header = group_header(&list, &project, &statuses).unwrap();
    assert!(!header.selected);
    assert_eq!(header.disclosure, RowIcon::FolderOpen);
    assert_eq!(header.tone, HeaderTone::Bright);
    assert_eq!(header.dot, Some(AgentStatus::Running));
    assert_eq!(header.count, "2");
    assert!(header.star && header.new_session && header.draggable);
    assert!(!header.hint_before && header.hint_after);
    assert_eq!(project_header_click(&list, &project), HeaderClick::SelectAndToggle);

    project.collapsed = true;
    let header = group_header(&list, &project, &statuses).unwrap();
    assert!(header.selected);
    assert_eq!(header.disclosure, RowIcon::Folder);
    assert!(!group_rows_are_shown(&project));
    assert!(group_header(&state(SidebarGrouping::Ungrouped), &project, &statuses).is_none());

    let empty = group("/b", vec![]);
    assert_eq!(group_header(&list, &empty, &statuses).unwrap().tone, HeaderTone::Faint);
    assert_eq!(project_header_click(&list, &empty), HeaderClick::Select);
    list.drag.start_session_drag(1);
    assert_eq!(project_header_click(&list, &empty), HeaderClick::Nothing);
}

#[test]
fn the_list_shows_groups_with_their_rows() {
    let statuses = vec![AgentStatus::Idle, AgentStatus::NeedsYou, AgentStatus::Running];
    let mut sessions = vec![
        session("one", 10, AgentStatus::Idle),
        session("two", 11, AgentStatus::NeedsYou),
        session("three", 12, AgentStatus::Running),
    ];
    sessions[0].panes = vec![pane(1, "zsh"), pane(2, "vim"), pane(3, "zsh")];
    sessions[2].is_conversation = true;
    sessions[2].panes = Vec::new();
    let mut list = state(SidebarGrouping::Project);
    list.drag.sess_drop_hint = Some((10, true));
    let mut first = group("/a", vec![0, 1]);
    first.active = true;
    let groups = vec![first, group("/b", vec![]), group("/c", vec![2])];
    let shown = session_groups(&list, &groups, &sessions, &statuses, true);
    assert_eq!(shown.len(), 2);
    assert_eq!((shown[0].group, shown[1].group), (0, 2));
    let rows = &shown[0].rows;
    assert_eq!(rows[0].title, "one");
    assert_eq!(rows[0].subtitle.as_deref(), Some("⑂3"));
    assert!(rows[0].hint_before && !rows[0].hint_after);
    assert!(rows[1].selected && !rows[0].selected);
    assert_eq!(rows[1].status_label, Some("需要你"));
    assert!(rows[1].draggable && rows[1].project.is_none());
    assert_eq!(shown[1].rows[0].subtitle, None);
    assert!(shown[1].rows[0].glows);
    assert_eq!(shown[1].rows[0].tooltip, "终端");

    let flat = state(SidebarGrouping::Ungrouped);
    let shown = session_groups(&flat, &groups, &sessions, &statuses, false);
    assert_eq!(shown.len(), 3);
    assert!(shown[0].header.is_none());
    assert!(!shown[2].rows[0].glows);
    assert_eq!(shown[0].rows[0].project, Some(("p".to_string(), None)));
}

#[test]
fn panes_with_the_same_title_are_told_apart() {
    let titles: Vec<String> = ["zsh", "vim", "zsh"].iter().map(|t| t.to_string()).collect();
    assert_eq!(pane_titles(&titles), ["zsh · 1", "vim", "zsh · 3"]);
    assert_eq!(pane_tooltip(Some("Pi"), AgentStatus::Running), "Pi · 运行中");
    assert_eq!(pane_tooltip(None, AgentStatus::NeedsYou), "终端 · 需要你");
}

#[test]
fn split_sessions_show_their_panes() {
    let mut list = state(SidebarGrouping::Project);
    list.drag.start_session_drag(99);
    list.drag.sess_drop_hint = Some((11, false));
    list.active_session = 0;
    let mut first = group("/a", vec![0]);
    first.active = true;
    let mut one = session("one", 11, AgentStatus::Idle);
    one.panes = vec![pane(4, "zsh"), pane(5, "zsh")];
    one.panes[0].status = AgentStatus::Running;
    one.panes[0].agent = Some(("pi".to_string(), "Pi".to_string()));
    one.panes[0].updated_at = 70;
    one.active_pane = 5;
    let shown = session_groups(&list, &vec![first], &vec![one], &vec![AgentStatus::Idle], true);
    let row = &shown[0].rows[0];
    assert!(row.accepts_drops && row.hint_after && row.selected);
    let panes = &row.panes;
    assert_eq!(panes.len(), 2);
    assert_eq!((panes[0].title.as_str(), panes[1].title.as_str()), ("zsh · 1", "zsh · 2"));
    assert_eq!(panes[0].tooltip, "Pi · 运行中");
    assert_eq!(panes[0].icon, RowIcon::Asset("smelt-icons/agent-pi.svg".to_string()));
    assert_eq!(panes[1].icon, RowIcon::SquareTerminal);
    assert!(panes[0].glows && !panes[1].glows);
    assert!(!panes[0].selected && panes[1].selected);
    assert_eq!((panes[0].updated_at, panes[1].updated_at), (70, 50));
    assert!(!panes[0].hint_after && panes[1].hint_after);
    assert!(!panes[0].hint_before && panes[0].draggable);
}

#[test]
fn sessions_that_are_not_split_have_no_panes() {
    let list = state(SidebarGrouping::Project);
    let sessions = vec![session("one", 11, AgentStatus::Idle)];
    let groups = vec![group("/a", vec![0])];
    let shown = session_groups(&list, &groups, &sessions, &Vec::new(), false);
    assert!(shown[0].rows[0].panes.is_empty());
    assert_eq!(shown[0].rows[0].subtitle, None);
    assert_eq!(shown[0].rows[0].updated_at, 50);
    assert!(!shown[0].rows[0].accepts_drops);
}

#[test]
fn projects_show_the_agent_of_a_plugin() {
    let mut sessions = vec![
        session("one", 1, AgentStatus::Idle),
        session("two", 2, AgentStatus::Idle),
    ];
    sessions[1].identity.plugin_agent =
        Some(PluginAgentPresentation { name: "Issues".to_string(), icon_asset: None });
    let project = group("/a", vec![0, 1]);
    let list = state(SidebarGrouping::Project);
    assert_eq!(
        group_agent(&list, &project, &sessions),
        Some((RowIcon::Bot, "Issues".to_string()))
    );
    assert_eq!(group_agent(&list, &group("/b", vec![0]), &sessions), None);
    let by_status = state(SidebarGrouping::Status);
    assert_eq!(group_agent(&by_status, &project, &sessions), None);
}

#[test]
fn sessions_know_their_project() {
    let groups = vec![group("a", vec![0, 2]), group("b", vec![1])];
    let branches = vec![None, Some("main".to_string())];
    assert_eq!(session_project(&groups, &branches, 2), Some(("a".to_string(), None)));
    assert_eq!(
        session_project(&groups, &branches, 1),
        Some(("b".to_string(), Some("main".to_string())))
    );
    assert_eq!(session_project(&groups, &branches, 7), None);
}

#[test]
fn the_list_says_what_it_is_narrowed_to() {
    let filters = empty_filters(&state(SidebarGrouping::Project));
    assert_eq!((filters[0].label, filters[0].selected), ("全部", false));
    assert_eq!((filters[1].label, filters[1].selected), ("有会话", true));
    assert!(settings_need_attention(true, None));
    assert!(settings_need_attention(false, Some(true)));
    assert!(!settings_need_attention(false, Some(false)));
    assert!(!settings_need_attention(false, None));
}

#[test]
fn pages_of_plugins_get_a_letter() {
    assert_eq!(surface_initial("notes"), "N");
    assert_eq!(surface_initial("ß"), "SS");
    assert_eq!(surface_initial(""), "P");
    assert_eq!(workspace_surface_rows(Vec::new(), &None), None);
    let rows = workspace_surface_rows(
        vec![("k1".to_string(), "abc".to_string()), ("k2".to_string(), "x".to_string())],
        &Some("k2".to_string()),
    )
    .unwrap();
    assert_eq!((rows[0].initial.as_str(), rows[0].selected), ("A", false));
    assert_eq!((rows[1].title.as_str(), rows[1].selected), ("x", true));
    assert!(surface_click_renames(2));
    assert!(!surface_click_renames(1));
}

fn labels(menu: &[MenuEntry]) -> Vec<String> {
    menu.iter()
        .map(|entry| match entry {
            MenuEntry::Item { label, .. } => label.clone(),
            MenuEntry::Heading(label) => format!("[{label}]"),
            MenuEntry::Separator => "-".to_string(),
            MenuEntry::Submenu { label, .. } => format!("{label} >"),
        })
        .collect()
}

#[test]
fn projects_have_a_menu() {
    let mut project = ProjectMenu {
        actions: None,
        has_branch: true,
        pinned: false,
        in_file_tree: false,
        session_count: 2,
        is_worktree: false,
    };
    assert_eq!(
        labels(&project_menu(&project)),
        [
            "用其他应用打开 >",
            "复制项目路径",
            "复制分支名",
            "-",
            "Worktree >",
            "-",
            "置顶",
            "加到文件树",
            "-",
            "关闭项目（含 2 个会话）"
        ]
    );
    project.actions = Some(vec![PluginAction {
        title: "开工".to_string(),
        icon: Some(SessionActionIcon::Check),
    }]);
    project.has_branch = false;
    project.pinned = true;
    project.in_file_tree = true;
    project.session_count = 0;
    project.is_worktree = true;
    let menu = project_menu(&project);
    assert_eq!(
        menu[0],
        MenuEntry::Item {
            label: "开工".to_string(),
            icon: Some(RowIcon::Check),
            command: MenuCommand::RunAction(0)
        }
    );
    assert_eq!(
        menu[2],
        MenuEntry::Submenu {
            label: "用其他应用打开".to_string(),
            icon: RowIcon::ExternalLink,
            submenu: Submenu::OpenWith
        }
    );
    assert_eq!(
        labels(&menu)[4..],
        ["-", "Worktree >", "-", "取消置顶", "从文件树移除", "-", "关闭项目", "-", "删除 Worktree"]
    );
    assert_eq!(close_project_label(0), "关闭项目");
    assert_eq!(labels(&worktree_menu()), ["查看关联的 Worktree...", "新建 Worktree..."]);
}

#[test]
fn sessions_have_a_menu() {
    assert_eq!(labels(&session_menu(false, &None)), ["重命名", "复制会话 ID"]);
    let actions = Some(vec![PluginAction { title: "x".to_string(), icon: None }]);
    assert_eq!(
        labels(&session_menu(true, &actions)),
        ["重命名", "复制会话 ID", "强制重启", "-", "x"]
    );
    assert_eq!(
        labels(&pane_menu()),
        ["重命名", "复制会话 ID", "关闭整个会话（含全部分屏）"]
    );
    let grouping = grouping_menu(SidebarGrouping::Status);
    assert_eq!(labels(&grouping), ["[分组依据]", "项目", "状态", "时间"]);
    assert!(matches!(&grouping[2], MenuEntry::Item { icon: Some(RowIcon::Check), .. }));
    assert!(matches!(&grouping[1], MenuEntry::Item { icon: None, .. }));
}

fn account(title: &str) -> SidebarAccountMenuEntry {
    SidebarAccountMenuEntry {
        plugin_id: "p".to_string(),
        settings_section_id: "s".to_string(),
        settings_title: title.to_string(),
        actions: vec![
            AccountAction { label: "登录".to_string(), disabled: true },
            AccountAction { label: "退出".to_string(), disabled: false },
        ],
    }
}

#[test]
fn accounts_stand_in_the_settings_menu() {
    let head = ["帮助文档", "反馈问题", "检查更新...", "-"];
    assert_eq!(labels(&settings_menu(&Vec::new()))[..4], head);
    assert_eq!(labels(&settings_menu(&Vec::new()))[4..], ["设置..."]);
    assert_eq!(
        labels(&settings_menu(&vec![account("GitHub")]))[4..],
        ["退出", "GitHub 设置", "-", "设置..."]
    );
    let two = settings_menu(&vec![account("A"), account(" ")]);
    assert_eq!(
        labels(&two)[4..],
        ["A：退出", "A 设置", " ：退出", "插件设置", "-", "设置..."]
    );
    assert!(matches!(
        &two[6],
        MenuEntry::Item { command: MenuCommand::RunAccountAction(1, 1), .. }
    ));
    assert_eq!(account_settings_label("\t"), "插件设置");
    assert_eq!(quota_footer_text(0, true), Some("额度查询中…"));
    assert_eq!(quota_footer_text(1, true), None);
    assert_eq!(quota_tip("x。", false), "x。 点击刷新。");
    assert_eq!(quota_tip("x。", true), "x。 正在刷新…");
    assert_eq!(quota_text_color(QuotaColor::Red, true), QuotaTextColor::Green);
    assert_eq!(
        quota_text_color(QuotaColor::Red, false),
        QuotaTextColor::Risk(QuotaColor::Red)
    );
}

fn action(key: &str) -> NewSessionAction {
    NewSessionAction {
        key: key.to_string(),
        label: key.to_string(),
        kind: NewSessionKind::Terminal,
        target: NewSessionTarget::Terminal { command: key.to_string(), provider: None },
        pinned: false,
    }
}

fn at(section: usize, row: usize) -> Option<IndexPath> {
    Some(IndexPath { section, row })
}

#[test]
fn the_selection_walks_through_the_menu() {
    let mut picker = NewSessionPickerState::new(String::new());
    assert_eq!(picker.cwd, None);
    picker.select_next();
    assert_eq!(picker.selected_index, None);
    assert_eq!(picker.list_height(), 56);

    picker.sync_sections(vec![vec![], vec![action("a"), action("b")], vec![action("c")]]);
    assert_eq!(picker.selected_index, at(1, 0));
    picker.select_next();
    picker.select_next();
    assert_eq!(picker.selected_index, at(2, 0));
    picker.select_next();
    assert_eq!(picker.selected_index, at(1, 0));
    picker.select_previous();
    assert_eq!(picker.selected_index, at(2, 0));
    let started = |cwd: Option<&str>| NewSessionRequest::Terminal {
        cwd: cwd.map(str::to_string),
        entry: LaunchEntry { label: String::new(), command: "c".to_string(), provider: None },
    };
    assert_eq!(picker.confirm(&host()), Some(started(None)));
    assert_eq!(picker.list_height(), 3 * 32 + 2 * 21);
    assert_eq!(picker.indices().len(), 3);

    picker.sync_sections(vec![vec![action("c")], vec![action("a")]]);
    assert_eq!(picker.selected_index, at(0, 0));
    picker.sync_sections(vec![vec![action("x"), action("y")]]);
    assert_eq!(picker.selected_index, at(0, 0));
    assert_eq!(picker.index_for_key("y"), at(0, 1));
    assert!(picker.set_selected_index(at(9, 9)));
    assert!(!picker.set_selected_index(at(9, 9)));
    assert_eq!(picker.confirm(&host()), None);
    assert!(!picker.confirming_closes());
    let many: Vec<NewSessionAction> = (0..20).map(|i| action(&i.to_string())).collect();
    picker.sync_sections(vec![many]);
    assert_eq!(picker.list_height(), 7 * 32 + 21);
}

#[test]
fn menus_are_drawn_anew_when_something_changed() {
    let mut picker = NewSessionPickerState::new("/a".to_string());
    let list = || vec![action("a"), action("b")];
    assert!(picker.sync_picker_state(list(), vec![list()]));
    assert!(!picker.sync_picker_state(list(), vec![list()]));
    let mut renamed = list();
    renamed[1].label = "c".to_string();
    assert!(picker.sync_picker_state(list(), vec![renamed]));
    assert_eq!(picker.source_actions.len(), 2);
    assert!(picker.sync_picker_state(vec![action("a")], vec![vec![action("a")]]));
    assert!(picker.sync_picker_state(Vec::new(), Vec::new()));
    assert_eq!(picker.selected_index, None);
    let mut empty = NewSessionPickerState::new("/a".to_string());
    assert!(!empty.sync_picker_state(Vec::new(), vec![vec![], vec![], vec![]]));
}

fn agents() -> Vec<TerminalAgent> {
    terminal_agents("first", "First")
}

#[test]
fn entries_of_the_menu_are_pictured() {
    let icon = |command: &str, provider: Option<&str>| {
        let target = NewSessionTarget::Terminal {
            command: command.to_string(),
            provider: provider.map(str::to_string),
        };
        picker_item_icon(&agents(), &target, false)
    };
    let asset = |id: &str| RowIcon::Asset(format!("smelt-icons/agent-{id}.svg"));
    assert_eq!(icon("zsh", Some("pi")), asset("pi"));
    assert_eq!(icon("grok --x", Some("gone")), asset("grok"));
    assert_eq!(icon("zsh", None), RowIcon::SquareTerminal);
    let blank = NewSessionTarget::BlankTerminal;
    assert_eq!(picker_item_icon(&agents(), &blank, false), RowIcon::SquareTerminal);
    let conversation = NewSessionTarget::Conversation {
        agent_option_id: "agent:1".to_string(),
        agent_kind: "codex".to_string(),
    };
    assert_eq!(picker_item_icon(&agents(), &conversation, true), asset("codex"));
    assert_eq!(picker_item_icon(&agents(), &conversation, false), RowIcon::Bot);
    assert_eq!(picker_key(&None), "new-session-picker:default");
    assert_eq!(picker_key(&Some("/a".to_string())), "new-session-picker:/a");
    assert_eq!(picker_row_label(&action("a")), "a · 终端");
    assert_eq!(picker_pin_tip(true), "取消常用");
}

fn host() -> AgentHost {
    let definition = |id: &str, ready: bool, engine: Option<&str>| AgentDefinition {
        id: id.to_string(),
        name: format!(" {id} "),
        ready,
        engine: engine.map(str::to_string),
        launchable: true,
    };
    AgentHost {
        agents: vec![
            definition("d1", true, Some("codex")),
            definition("d2", false, Some("codex")),
            definition("d3", true, None),
        ],
        kinds: vec![
            ConversationAgentKind { id: "codex".to_string(), label: "Codex".to_string(), bare: true },
            ConversationAgentKind { id: "pi".to_string(), label: "Pi".to_string(), bare: false },
        ],
        profiles: vec![
            AgentProfile {
                id: "p1".to_string(),
                label: "Work".to_string(),
                kind: Some("codex".to_string()),
                launchable: true,
            },
            AgentProfile {
                id: "p2".to_string(),
                label: "Gone".to_string(),
                kind: None,
                launchable: true,
            },
        ],
    }
}

#[test]
fn options_start_what_they_stand_for() {
    let host = host();
    let options = conversation_options(&host);
    let ids: Vec<&str> = options.iter().map(|option| option.id.as_str()).collect();
    assert_eq!(ids, ["agent:d1", "codex", "profile:p1"]);
    assert_eq!(options[0].label, "d1");
    assert_eq!(options[0].agent_definition_id.as_deref(), Some("d1"));
    assert!(options[2].profile);
    let starts: Vec<Option<ConversationLaunch>> =
        ids.iter().map(|id| conversation_launch(id, &host)).collect();
    assert_eq!(
        starts,
        [
            Some(ConversationLaunch::Agent(0)),
            Some(ConversationLaunch::Bare(0)),
            Some(ConversationLaunch::Profile(0))
        ]
    );
    assert_eq!(conversation_launch("agent:nobody", &host), None);
    assert_eq!(conversation_launch("profile:p2", &host), None);
    assert_eq!(conversation_launch("nothing", &host), None);
}

#[test]
fn the_selection_stays_on_its_entry() {
    let mut picker = NewSessionPickerState::new("/a".to_string());
    picker.sync_sections(vec![vec![action("a"), action("b")], vec![action("c")]]);
    picker.select_next();
    assert_eq!(picker.selected_index, at(0, 1));
    picker.sync_sections(vec![vec![action("c")], vec![], vec![action("a"), action("b")]]);
    assert_eq!(picker.selected_index, at(2, 1));
}

#[test]
fn conversations_begin_with_what_is_known() {
    let pair = |key: &str, value: &str| (key.to_string(), value.to_string());
    assert_eq!(acp_cmd_for(Some("mine --acp".to_string()), "own"), "mine --acp");
    assert_eq!(acp_cmd_for(None, "own"), "own");
    let stored = || vec![pair("model", "small")];
    let merged = || vec![pair("model", "large"), pair("mode", "ask")];
    assert_eq!(initial_acp_config_for(Some(merged()), stored()), merged());
    assert_eq!(initial_acp_config_for(None, stored()), stored());
    assert_eq!(initial_agent_conversation_config_for(Some(merged()), Some("full")), merged());
    assert_eq!(
        initial_agent_conversation_config_for(None, Some("full")),
        vec![pair("mode", "full")]
    );
    assert!(initial_agent_conversation_config_for(None, None).is_empty());
}

fn targeting(key: &str, target: NewSessionTarget) -> NewSessionAction {
    NewSessionAction { target, kind: NewSessionKind::Conversation, ..action(key) }
}

#[test]
fn sessions_start_in_the_directory_of_their_menu() {
    let conversation = |option: &str| NewSessionTarget::Conversation {
        agent_option_id: option.to_string(),
        agent_kind: "codex".to_string(),
    };
    let started = |target: NewSessionTarget| {
        let mut picker = NewSessionPickerState::new("/a".to_string());
        picker.sync_sections(vec![vec![targeting("k", target)]]);
        assert!(picker.confirming_closes());
        picker.confirm(&host())
    };
    let cwd = || Some("/a".to_string());
    assert_eq!(
        started(conversation("profile:p1")),
        Some(NewSessionRequest::Conversation {
            launch: ConversationLaunch::Profile(0),
            cwd: cwd()
        })
    );
    assert_eq!(started(conversation("agent:nobody")), None);
    assert_eq!(
        started(NewSessionTarget::BlankTerminal),
        Some(NewSessionRequest::Blank { cwd: cwd() })
    );
    assert_eq!(
        started(NewSessionTarget::Terminal {
            command: "run".to_string(),
            provider: Some("codex".to_string())
        }),
        Some(NewSessionRequest::Terminal {
            cwd: cwd(),
            entry: LaunchEntry {
                label: String::new(),
                command: "run".to_string(),
                provider: Some("codex".to_string())
            }
        })
    );
}

#[test]
fn menus_have_a_row_for_every_entry() {
    let headings = vec!["常用".to_string(), "终端".to_string()];
    let mut picker = NewSessionPickerState::new("/a".to_string());
    assert_eq!(
        picker.picker_rows(&headings),
        [PickerRow::Empty("没有可用的启动项".to_string())]
    );
    let starred = NewSessionAction { pinned: true, ..action("b") };
    picker.sync_sections(vec![vec![], vec![action("a"), starred], vec![action("c")]]);
    picker.select_next();
    let entry = |row: usize, key: &str, selected: bool, starred: bool| PickerRow::Entry {
        index: IndexPath { section: 1, row },
        key: key.to_string(),
        label: format!("{key} · 终端"),
        selected,
        starred,
        tip: if starred { "取消常用" } else { "加入常用" }.to_string(),
    };
    assert_eq!(
        picker.picker_rows(&headings),
        [
            PickerRow::Heading("终端".to_string()),
            entry(0, "a", false, false),
            entry(1, "b", true, true)
        ]
    );
}

#[test]
fn only_projects_have_a_menu_at_their_header() {
    let project = ProjectMenu {
        actions: None,
        has_branch: false,
        pinned: false,
        in_file_tree: false,
        session_count: 0,
        is_worktree: false,
    };
    assert_eq!(
        header_menu(&state(SidebarGrouping::Project), &project),
        project_menu(&project)
    );
    assert!(header_menu(&state(SidebarGrouping::Status), &project).is_empty());
    assert!(header_menu(&state(SidebarGrouping::Ungrouped), &project).is_empty());
}
