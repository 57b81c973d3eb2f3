use smelt::settings::launch::TerminalAgentKind;
use smelt::settings::nav::{
    agent_setup_nav, filter_settings_nav, nav_contains, settings_nav, SettingsCategoryId,
    SettingsNavCategory, SettingsScope, SettingsSection,
};
use smelt::settings::plugins::InstalledPlugin;
use smelt::settings::search::{folded, matches_any_term, matches_query, query_terms, split_terms};

fn agent() -> String {
    format!("{:?}", TerminalAgentKind::Claude).to_lowercase()
}

fn titles(nav: &[SettingsNavCategory]) -> Vec<String> {
    nav.iter().map(|category| category.title.clone()).collect()
}

fn child_titles(nav: &[SettingsNavCategory], id: SettingsCategoryId) -> Vec<String> {
    nav.iter()
        .find(|category| category.id == id)
        .map(|category| category.children.iter().map(|child| child.title.clone()).collect())
        .unwrap_or_default()
}

fn matching_sections(nav: &Vec<SettingsNavCategory>, query: &str) -> Vec<SettingsSection> {
    filter_settings_nav(nav, query)
        .into_iter()
        .flat_map(|category| category.children)
        .map(|child| child.section)
        .collect()
}

fn no_plugins() -> Vec<InstalledPlugin> {
    Vec::new()
}

#[test]
fn nav_exposes_task_oriented_groups_as_independent_sections() {
    let nav = settings_nav(&no_plugins(), &agent());
    assert_eq!(titles(&nav), ["通用", "模型与 Agent", "工作区与远程", "插件", "系统"]);
    assert_eq!(
        child_titles(&nav, SettingsCategoryId::General),
        ["主题与界面", "终端", "窗口与背景", "键盘快捷键"]
    );
    assert_eq!(
        child_titles(&nav, SettingsCategoryId::Agent),
        [
            "DeepSeek Harness",
            "Agent 运行环境",
            "新建与启动",
            "对话与工作区",
            "通知",
            "Agent Hooks"
        ]
    );
    assert_eq!(
        child_titles(&nav, SettingsCategoryId::Workspace),
        ["Worktree 文件继承", "手机远程"]
    );
    assert_eq!(
        child_titles(&nav, SettingsCategoryId::System),
        ["应用更新", "后台服务", "存储清理"]
    );

    let general = nav
        .iter()
        .find(|category| category.id == SettingsCategoryId::General)
        .unwrap();
    let sections: Vec<SettingsSection> =
        general.children.iter().map(|child| child.section.clone()).collect();
    assert_eq!(
        sections,
        [
            SettingsSection::AppearanceTheme,
            SettingsSection::AppearanceTerminal,
            SettingsSection::AppearanceWindow,
            SettingsSection::Shortcuts,
        ]
    );
    assert_ne!(sections[0], sections[1]);
}

#[test]
fn nav_categories_are_default_open_two_level_branches() {
    for nav in [settings_nav(&no_plugins(), &agent()), agent_setup_nav()] {
        assert!(nav.iter().all(|category| !category.children.is_empty()));
        assert!(nav.iter().all(|category| category.default_open));
    }
}

#[test]
fn plugin_children_come_from_catalog() {
    let empty = settings_nav(&no_plugins(), &agent());
    let plugins = empty
        .iter()
        .find(|category| category.id == SettingsCategoryId::Plugins)
        .unwrap();
    assert_eq!(plugins.children[0].title, "安装插件");

    let catalog = vec![
        InstalledPlugin {
            id: "com.example.account".into(),
            name: "Account".into(),
            version: "1.0.0".into(),
            user_installed: false,
            load_error: None,
        },
        InstalledPlugin {
            id: "com.example.other".into(),
            name: "Other".into(),
            version: "0.1.0".into(),
            user_installed: true,
            load_error: None,
        },
    ];
    let nav = settings_nav(&catalog, &agent());
    assert_eq!(
        child_titles(&nav, SettingsCategoryId::Plugins),
        ["安装插件", "Account", "Other"]
    );
    let plugins = nav
        .iter()
        .find(|category| category.id == SettingsCategoryId::Plugins)
        .unwrap();
    assert_eq!(
        plugins.children[1].section,
        SettingsSection::Plugin { id: "com.example.account".into() }
    );
}

#[test]
fn search_filters_visible_entries_without_changing_page_structure() {
    let nav = settings_nav(&no_plugins(), &agent());
    let filtered = filter_settings_nav(&nav, "守护");
    assert_ne!(filtered[0].id, nav[0].id);
    assert_eq!(filtered[0].id, SettingsCategoryId::System);
    assert_eq!(titles(&filtered), ["系统"]);
    assert_eq!(child_titles(&filtered, SettingsCategoryId::System), ["后台服务"]);

    let by_category = filter_settings_nav(&nav, "通用");
    assert_eq!(child_titles(&by_category, SettingsCategoryId::General).len(), 4);
}

#[test]
fn search_understands_user_tasks_and_multiple_terms() {
    let nav = settings_nav(&no_plugins(), &agent());
    let found = |query: &str, id: SettingsCategoryId| {
        child_titles(&filter_settings_nav(&nav, query), id)
    };
    assert_eq!(found("模型", SettingsCategoryId::Agent), ["DeepSeek Harness"]);
    assert_eq!(titles(&filter_settings_nav(&nav, "API key")), ["模型与 Agent"]);
    assert_eq!(found("API key", SettingsCategoryId::Agent), ["DeepSeek Harness"]);
    assert_eq!(found("agent 通知", SettingsCategoryId::Agent), ["通知", "Agent Hooks"]);
    assert_eq!(found("agent通知", SettingsCategoryId::Agent), ["通知"]);
    assert_eq!(found("后台服务", SettingsCategoryId::System), ["后台服务"]);
    assert_eq!(found("清缓存", SettingsCategoryId::System), ["存储清理"]);
    assert_eq!(found("预设 prompt", SettingsCategoryId::Agent), ["对话与工作区"]);

    for (query, expected) in [
        ("任务完成通知", SettingsSection::AgentNotify),
        ("继承主仓库未跟踪文件", SettingsSection::Worktree),
        ("Relay 地址", SettingsSection::CollaborationRemote),
        ("自动下载安装", SettingsSection::MaintenanceUpdate),
    ] {
        assert_eq!(matching_sections(&nav, query), [expected], "query: {query}");
    }
}

#[test]
fn agent_scope_owns_the_pi_pages_and_the_main_window_does_not_show_them_twice() {
    let agent_titles = child_titles(&agent_setup_nav(), SettingsCategoryId::Agent);
    assert_eq!(agent_titles, ["模型", "插件"]);

    let main_sections: Vec<SettingsSection> = settings_nav(&no_plugins(), &agent())
        .iter()
        .flat_map(|category| category.children.iter())
        .map(|child| child.section.clone())
        .collect();
    assert!(!main_sections.contains(&SettingsSection::PiModel));
    assert!(!main_sections.contains(&SettingsSection::PiPlugins));

    assert!(SettingsScope::AgentSetup.contains(&SettingsSection::PiModel));
    assert!(SettingsScope::AgentSetup.contains(&SettingsSection::PiPlugins));
    assert!(!SettingsScope::AgentSetup.contains(&SettingsSection::AppearanceTheme));
    assert!(SettingsScope::All.contains(&SettingsSection::AppearanceTheme));
    assert!(!SettingsScope::All.contains(&SettingsSection::PiModel));

    for scope in [SettingsScope::All, SettingsScope::AgentSetup] {
        assert!(scope.contains(&scope.default_section()), "{scope:?}");
    }
}

#[test]
fn every_destination_is_a_second_level_leaf() {
    let nav = settings_nav(&no_plugins(), &agent());
    assert!(nav.iter().all(|category| !category.children.is_empty()));
    let destinations: Vec<SettingsSection> = nav
        .iter()
        .flat_map(|category| category.children.iter())
        .map(|child| child.section.clone())
        .collect();
    assert_eq!(destinations.len(), 16);
    assert!(destinations.contains(&SettingsSection::DshModel));
    assert!(destinations.contains(&SettingsSection::Shortcuts));
    assert!(destinations.contains(&SettingsSection::Worktree));
}

#[test]
fn deep_links_point_at_content_sections() {
    assert_eq!(SettingsSection::appearance(), SettingsSection::AppearanceTheme);
    assert_eq!(SettingsSection::maintenance_update(), SettingsSection::MaintenanceUpdate);
}

#[test]
fn a_search_for_nothing_leaves_everything() {
    let nav = settings_nav(&no_plugins(), &agent());
    assert_eq!(titles(&filter_settings_nav(&nav, "  ")), titles(&nav));
    assert!(filter_settings_nav(&nav, "qwertzuiop").is_empty());
}

#[test]
fn pages_are_found_in_the_window_that_has_them() {
    let nav = settings_nav(&no_plugins(), &agent());
    assert!(nav_contains(&nav, &SettingsSection::Worktree));
    assert!(!nav_contains(&nav, &SettingsSection::PiModel));
    assert_ne!(
        SettingsSection::Worktree.element_key(),
        SettingsSection::Shortcuts.element_key()
    );
    assert_eq!(SettingsScope::All.window_title(), "设置");
}

#[test]
fn search_terms_are_words_in_lower_case() {
    assert_eq!(query_terms("API-Key  x"), ["api", "key", "x"]);
    assert_eq!(query_terms("--"), ["--"]);
    assert_eq!(folded("A-b C"), "a-b c");
    assert_eq!(
        split_terms("a-b".to_string(), &vec![true, false, true]),
        ["a", "b"]
    );
    let values = vec!["Model".to_string(), "API key".to_string()];
    assert!(matches_query(&values, &query_terms("apikey MODEL")));
    assert!(!matches_query(&values, &query_terms("model mouse")));
    assert!(matches_any_term(&values, &query_terms("mouse model")));
    assert!(!matches_any_term(&values, &query_terms("mouse")));
}
