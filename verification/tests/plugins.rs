use smelt::settings::plugins::{
    describe_plugin_status, discover_installed_plugins, forget_plugin_statuses,
    refresh_plugin_statuses, refresh_plugin_statuses_throttled, InstalledPlugin,
    PluginEnablementState, PluginLifecycleState, PluginRuntimeStatuses, PluginStatus,
    PluginStatusThrottle,
};

fn status(state: PluginLifecycleState, last_error: Option<&str>) -> PluginStatus {
    PluginStatus {
        plugin_id: "com.example".to_string(),
        name: "Example".to_string(),
        version: "1.0.0".to_string(),
        state,
        last_error: last_error.map(str::to_owned),
    }
}

#[test]
fn a_running_plugin_reports_its_pid() {
    let text =
        describe_plugin_status(Some(&status(PluginLifecycleState::Ready { pid: 42 }, None)));
    assert!(text.contains("运行中") && text.contains("42"));
}

#[test]
fn a_failed_plugin_carries_the_reason() {
    let text = describe_plugin_status(Some(&status(
        PluginLifecycleState::Failed,
        Some("signature mismatch"),
    )));
    assert!(text.contains("启动失败"));
    assert!(text.contains("signature mismatch"));
}

#[test]
fn a_running_plugin_does_not_show_a_stale_error() {
    let text = describe_plugin_status(Some(&status(
        PluginLifecycleState::Ready { pid: 7 },
        Some("上一轮的崩溃"),
    )));
    assert!(!text.contains("上一轮的崩溃"));
}

#[test]
fn an_unregistered_plugin_points_at_the_daemon() {
    let text = describe_plugin_status(None);
    assert!(text.contains("守护"));
}

#[test]
fn every_state_has_words() {
    let text = |state| describe_plugin_status(Some(&status(state, None)));
    assert_eq!(text(PluginLifecycleState::Ready { pid: 42 }), "运行中（pid 42）");
    assert_eq!(text(PluginLifecycleState::Discovered), "已发现，尚未启动");
    assert_eq!(text(PluginLifecycleState::Starting), "正在启动");
    assert_eq!(
        text(PluginLifecycleState::Backoff { attempt: 3 }),
        "启动失败，正在重试（第 3 次）"
    );
    assert_eq!(text(PluginLifecycleState::Stopped), "已停止");
    assert_eq!(text(PluginLifecycleState::Disabled), "已停用");
}

fn plugin(id: &str, name: &str, user_installed: bool) -> InstalledPlugin {
    InstalledPlugin {
        id: id.to_string(),
        name: name.to_string(),
        version: "1".to_string(),
        user_installed,
        load_error: None,
    }
}

#[test]
fn plugins_are_listed_by_name() {
    let found = discover_installed_plugins(
        vec![plugin("b", "Zed", false), plugin("c", "Amp", false)],
        vec![plugin("b", "Broken", true), plugin("a", "Amp", true)],
    );
    let ids: Vec<(&str, bool)> =
        found.iter().map(|plugin| (plugin.id.as_str(), plugin.user_installed)).collect();
    assert_eq!(ids, [("a", true), ("c", false), ("b", false)]);
    let mut state = PluginEnablementState { catalog: Vec::new() };
    state.refresh_catalog(vec![plugin("x", "X", false)], Vec::new());
    assert_eq!(state.catalog, [plugin("x", "X", false)]);
}

#[test]
fn permissions_have_names() {
    assert_eq!(
        PluginEnablementState::describe_capability("session.read"),
        ("读取会话", "读取本机终端会话及其状态")
    );
    assert_eq!(
        PluginEnablementState::describe_capability("web.browse").0,
        "浏览网页"
    );
    let unknown = PluginEnablementState::describe_capability("nothing.like.it");
    assert!(!unknown.0.is_empty());
}

#[test]
fn statuses_are_looked_up_by_plugin() {
    let mut second = status(PluginLifecycleState::Failed, None);
    second.version = "2".to_string();
    let mut statuses = refresh_plugin_statuses(Ok(vec![
        status(PluginLifecycleState::Starting, None),
        second,
    ]));
    assert_eq!(statuses.get("com.example").unwrap().version, "2");
    assert_eq!(statuses.get("com.other"), None);
    let failed = refresh_plugin_statuses(Err("down".to_string()));
    assert_eq!(failed.error.as_deref(), Some("down"));
    assert!(failed.statuses.is_empty());
    forget_plugin_statuses(&mut statuses);
    assert_eq!(statuses, PluginRuntimeStatuses::new());
}

#[test]
fn statuses_are_asked_for_every_two_seconds() {
    let mut throttle = PluginStatusThrottle { last: None };
    assert!(refresh_plugin_statuses_throttled(&mut throttle, 100));
    assert!(!refresh_plugin_statuses_throttled(&mut throttle, 2099));
    assert!(refresh_plugin_statuses_throttled(&mut throttle, 2100));
}
