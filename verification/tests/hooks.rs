use smelt::agent_hooks::antigravity::{
    antigravity_event_installed, antigravity_hooks_installed, install_antigravity_hooks,
    merge_antigravity_hooks, uninstall_antigravity_hooks,
};
use smelt::agent_hooks::claude::{
    claude_hooks_installed, codex_hooks_installed, codex_trust_outcome, install_claude_hooks,
    install_codex_hooks, uninstall_claude_hooks, uninstall_codex_hooks, TrustAttempt,
};
use smelt::agent_hooks::copilot::{
    copilot_hooks_installed, install_copilot_hooks, merge_copilot_hooks, uninstall_copilot_hooks,
};
use smelt::agent_hooks::cursor::{
    cursor_event_installed, cursor_hooks_installed, install_cursor_hooks, merge_cursor_hooks,
    remove_cursor_hooks, uninstall_cursor_hooks,
};
use smelt::agent_hooks::document::HookFile;
use smelt::agent_hooks::events::{
    antigravity_hook_events, codex_hook_events, copilot_hook_events, cursor_hook_events,
    kiro_hook_events, smelt_hook_events,
};
use smelt::agent_hooks::hook_file::{
    document_installed, hook_file_installed, install_hook_file, merge_hook_file,
    uninstall_hook_file,
};
use smelt::agent_hooks::kiro::{
    install_kiro_hooks, kiro_event_installed, kiro_hooks_installed, merge_kiro_hooks,
    remove_kiro_hooks, uninstall_kiro_hooks,
};
use smelt::agent_hooks::locations::{config_root, opencode_plugin_components, HookLocation};
use smelt::agent_hooks::opencode::{
    install_opencode_plugin, install_opencode_plugin_at, opencode_plugin_installed,
    opencode_plugin_source, uninstall_opencode_plugin, OPENCODE_PLUGIN_MARKER,
};
use smelt::agent_hooks::registry::{
    hook_integrations, hooks_installed_status, install_agent_hooks, integrations_to_install,
    invalidate_hooks_cache, run_all_hook_operations, uninstall_agent_hooks, HookContents, HookStatusCache,
};
use smelt::json::Json;
use smelt::settings::launch::TerminalAgentKind;
use smelt::shell::{
    command_uses_current_smelt_hook, command_uses_smelt_notify, path_file_name,
    provider_hook_command, words_use_smelt_notify,
};

const NOTIFY: &str = "/Users/test/.smelt/bin/smelt-notify";

fn title() -> String {
    format!("{:?}", TerminalAgentKind::Claude)
}

fn name() -> String {
    title().to_lowercase()
}

fn json(text: &str) -> Json {
    Json::parse(text).unwrap()
}

fn file(text: &str) -> HookFile {
    HookFile::Text(text.to_string())
}

fn command(handler: &Json) -> &str {
    handler.text_at("command").map(|text| text.as_str()).unwrap_or("")
}

fn own_handlers(handlers: &[Json]) -> usize {
    handlers
        .iter()
        .filter(|handler| command_uses_smelt_notify(command(handler)))
        .count()
}

fn antigravity_handlers(definition: &Json, event: &str) -> usize {
    match definition.list_at(event) {
        None => 0,
        Some(list) => {
            if event == "PostToolUse" {
                list.iter()
                    .map(|group| group.list_at("hooks").map(|hooks| own_handlers(hooks)).unwrap_or(0))
                    .sum()
            } else {
                own_handlers(list)
            }
        }
    }
}

#[test]
fn hook_registry_covers_every_terminal_agent_with_an_official_event_surface() {
    let labels: Vec<String> = hook_integrations()
        .iter()
        .map(|integration| integration.label(&title()))
        .collect();
    assert_eq!(
        labels,
        [&format!("{} / Grok", title()), "Copilot", "Codex", "Antigravity", "Cursor", "OpenCode", "Kiro v3"]
    );
    assert!(smelt_hook_events().contains(&"Stop".to_string()));
    assert!(smelt_hook_events().contains(&"StopCancelled".to_string()));
    assert!(smelt_hook_events().contains(&"TeammateIdle".to_string()));
    assert!(codex_hook_events().contains(&"Stop".to_string()));
    assert!(codex_hook_events().contains(&"SessionStop".to_string()));
    assert!(cursor_hook_events().contains(&"stop".to_string()));
    assert!(copilot_hook_events().contains(&"agentStop".to_string()));
    assert!(kiro_hook_events().contains(&"Stop".to_string()));
    assert_eq!(
        HookLocation::GrokHooks.components(&name()).last().map(|name| name.as_str()),
        Some("smelt-notifications.json")
    );
}

#[test]
fn cursor_hook_merge_is_idempotent_and_preserves_other_handlers() {
    let mut root = json(
        r#"{"version":1,"hooks":{"stop":[{"command":"/tmp/other-cursor-hook"}]}}"#,
    );
    merge_cursor_hooks(&mut root, NOTIFY).unwrap();
    merge_cursor_hooks(&mut root, NOTIFY).unwrap();

    for event in cursor_hook_events() {
        assert!(cursor_event_installed(&root, &event));
    }
    let stop = root.get("hooks").unwrap().list_at("stop").unwrap();
    assert_eq!(own_handlers(stop), 1);
    assert!(stop.iter().any(|handler| command(handler) == "/tmp/other-cursor-hook"));

    remove_cursor_hooks(&mut root);
    let stop = root.get("hooks").unwrap().list_at("stop").unwrap();
    assert_eq!(own_handlers(stop), 0);
    assert!(stop.iter().any(|handler| command(handler) == "/tmp/other-cursor-hook"));
}

#[test]
fn kiro_hook_merge_is_idempotent_and_preserves_other_hooks() {
    let mut root = json(
        r#"{"version":"v1","hooks":[{"name":"other-hook","trigger":"Stop",
            "action":{"type":"command","command":"/tmp/other-kiro-hook"}}]}"#,
    );
    merge_kiro_hooks(&mut root, NOTIFY).unwrap();
    merge_kiro_hooks(&mut root, NOTIFY).unwrap();

    for event in kiro_hook_events() {
        assert!(kiro_event_installed(&root, &event));
    }
    let hooks = root.list_at("hooks").unwrap();
    assert_eq!(
        hooks
            .iter()
            .filter(|hook| {
                hook.get("action")
                    .is_some_and(|action| command_uses_smelt_notify(command(action)))
            })
            .count(),
        kiro_hook_events().len()
    );

    remove_kiro_hooks(&mut root);
    let hooks = root.list_at("hooks").unwrap();
    assert_eq!(hooks.len(), 1);
    assert_eq!(hooks[0].text_at("name").unwrap(), "other-hook");
}

#[test]
fn opencode_plugin_is_owned_and_forwards_structured_events() {
    let source = opencode_plugin_source("/tmp/Smelt App/smelt-notify");
    assert!(source.starts_with(OPENCODE_PLUGIN_MARKER));
    assert!(source.contains(r#"const SMELT_NOTIFY = "/tmp/Smelt App/smelt-notify";"#));
    assert!(source.contains("tool.execute.before"));
    assert!(source.contains("permission.updated"));
    assert!(source.contains("permission.asked"));
    assert!(source.contains("permission.v2.asked"));
    assert!(source.contains("question.asked"));
    assert!(source.contains("session.status"));
}

#[test]
fn opencode_plugin_forwards_session_titles_without_changing_turn_phase() {
    let source = opencode_plugin_source("/tmp/smelt-notify");
    assert!(source.contains(r#"case "session.updated""#));
    assert!(source.contains(r#"forward("SessionTitleChanged""#));
    assert!(source.contains("properties.info?.title"));
}

#[test]
fn opencode_plugin_aggregates_child_sessions_into_the_root_turn() {
    let source = opencode_plugin_source("/tmp/smelt-notify");
    assert!(source.contains("parentID"));
    assert!(source.contains("activeSubagents"));
    assert!(source.contains("rootIdlePending"));
    assert!(source.contains(r#"forward("SubagentStart""#));
    assert!(source.contains(r#"forward("SubagentStop""#));
    assert!(source.contains("adoptRootSession"));
}

#[test]
fn opencode_install_never_overwrites_an_unowned_plugin() {
    let unowned = file("export const UserPlugin = async () => ({});\n");
    let path = "/home/u/.config/opencode/plugins/smelt-notifications.js";
    let refused = install_opencode_plugin_at(path, &unowned, "/tmp/smelt-notify");
    assert_eq!(
        refused.unwrap_err(),
        format!("{path} 已存在且不是 Smelt 管理的插件，请先改名后重试")
    );
    assert!(!uninstall_opencode_plugin(Some(path), &unowned));

    let written =
        install_opencode_plugin_at(path, &HookFile::Absent, "/tmp/smelt-notify").unwrap();
    assert!(written.starts_with(OPENCODE_PLUGIN_MARKER));
    assert!(uninstall_opencode_plugin(Some(path), &file(&written)));
}

#[test]
fn antigravity_hook_merge_is_idempotent_and_preserves_other_hooks() {
    let mut root = json(
        r#"{"third-party":{"Stop":[{"type":"command","command":"/tmp/other-stop-hook"}]},
            "smelt-status-notifications":{"PostInvocation":[
                {"type":"command","command":"/tmp/other-invocation-hook"}]}}"#,
    );
    merge_antigravity_hooks(&mut root, NOTIFY).unwrap();
    merge_antigravity_hooks(&mut root, NOTIFY).unwrap();

    let definition = root.get("smelt-status-notifications").unwrap();
    for event in antigravity_hook_events() {
        assert!(antigravity_event_installed(definition, &event));
        assert_eq!(antigravity_handlers(definition, &event), 1);
    }
    assert_eq!(
        command(&definition.list_at("PostInvocation").unwrap()[0]),
        "/tmp/other-invocation-hook"
    );
    assert_eq!(
        command(&root.get("third-party").unwrap().list_at("Stop").unwrap()[0]),
        "/tmp/other-stop-hook"
    );
}

#[test]
fn antigravity_hook_uninstall_removes_only_smelt_handlers() {
    let mut root = json(
        r#"{"third-party":{"Stop":[{"type":"command","command":"/tmp/other-stop-hook"}]},
            "smelt-status-notifications":{"PostInvocation":[
                {"type":"command","command":"/tmp/other-invocation-hook"}]}}"#,
    );
    merge_antigravity_hooks(&mut root, NOTIFY).unwrap();
    let stored = root.pretty().unwrap();

    let written = uninstall_antigravity_hooks(Some("/h/hooks.json"), &file(&stored))
        .unwrap()
        .unwrap();
    let value = json(&written);
    let definition = value.get("smelt-status-notifications").unwrap();
    for event in antigravity_hook_events() {
        assert_eq!(antigravity_handlers(definition, &event), 0);
    }
    assert_eq!(
        command(&definition.list_at("PostInvocation").unwrap()[0]),
        "/tmp/other-invocation-hook"
    );
    assert_eq!(
        command(&value.get("third-party").unwrap().list_at("Stop").unwrap()[0]),
        "/tmp/other-stop-hook"
    );
}

fn check_ownership() {
    assert!(command_uses_smelt_notify(
        "SMELT_HOOK_PROVIDER=copilot /Users/test/.smelt/bin/smelt-notify"
    ));
    assert!(command_uses_smelt_notify("'/Applications/Smelt App/smelt-notify'"));
    assert!(!command_uses_smelt_notify("echo smelt-notify"));
    assert!(!command_uses_smelt_notify(
        "if test -x /tmp/smelt-notify; then /tmp/other-hook; fi"
    ));
}

#[test]
fn tests_hook_ownership_requires_smelt_notify_as_the_executable() {
    check_ownership();
}

#[test]
fn settings_hook_ownership_requires_smelt_notify_as_the_executable() {
    check_ownership();
}

fn check_third_party_handlers() {
    let stored = r#"{"hooks":{"PreToolUse":[{"matcher":"*","hooks":[
        {"type":"command","command":"/tmp/smelt-notify"},
        {"type":"command","command":"/tmp/orca-hook"}]}]}}"#;
    let events = vec!["PreToolUse".to_string()];
    let written = uninstall_hook_file(&file(stored), &events).unwrap().unwrap();
    let value = json(&written);
    let groups = value.get("hooks").unwrap().list_at("PreToolUse").unwrap();
    let handlers = groups[0].list_at("hooks").unwrap();
    assert_eq!(handlers.len(), 1);
    assert_eq!(command(&handlers[0]), "/tmp/orca-hook");
}

#[test]
fn tests_removing_smelt_hook_preserves_third_party_handlers() {
    check_third_party_handlers();
}

#[test]
fn settings_removing_smelt_hook_preserves_third_party_handlers() {
    check_third_party_handlers();
}

#[test]
fn hook_commands_name_provider_event_and_helper() {
    assert_eq!(
        provider_hook_command("/opt/smelt-notify", "codex", "Stop"),
        "SMELT_HOOK_PROVIDER=codex SMELT_HOOK_EVENT=Stop /opt/smelt-notify"
    );
    let quoted = provider_hook_command("/Smelt App/smelt-notify", "codex", "Stop");
    assert_eq!(
        quoted,
        "SMELT_HOOK_PROVIDER=codex SMELT_HOOK_EVENT=Stop '/Smelt App/smelt-notify'"
    );
    assert!(command_uses_current_smelt_hook(&quoted, "Stop"));
    assert!(!command_uses_current_smelt_hook(&quoted, "Start"));
    assert!(!command_uses_smelt_notify("'unterminated /x/smelt-notify"));
}

#[test]
fn the_first_word_that_is_no_assignment_is_the_program() {
    let words = |list: &[&str]| list.iter().map(|word| word.to_string()).collect::<Vec<_>>();
    assert!(words_use_smelt_notify(&words(&["A=1", "B_2=x", "/x/smelt-notify", "arg"])));
    assert!(!words_use_smelt_notify(&words(&["A=1", "sh", "/x/smelt-notify"])));
    assert!(!words_use_smelt_notify(&words(&["A=/x/smelt-notify"])));
    assert!(words_use_smelt_notify(&words(&["=x/smelt-notify"])));
    assert!(!words_use_smelt_notify(&words(&[])));
}

#[test]
fn file_names_follow_the_rules_of_paths() {
    assert_eq!(path_file_name("/a/b").as_deref(), Some("b"));
    assert_eq!(path_file_name("b").as_deref(), Some("b"));
    assert_eq!(path_file_name("/a/b/").as_deref(), Some("b"));
    assert_eq!(path_file_name("/a/b/.").as_deref(), Some("b"));
    assert_eq!(path_file_name("/a/.."), None);
    assert_eq!(path_file_name("/"), None);
    assert_eq!(path_file_name(""), None);
}

#[test]
fn hook_files_take_hooks_and_give_them_back() {
    let events = smelt_hook_events();
    let stored = r#"{"theme":"dark","hooks":{"Stop":[{"hooks":[
        {"type":"command","command":"/tmp/mine"}]}]}}"#;
    let first =
        install_hook_file(NOTIFY, true, "/h/settings.json", &file(stored), &events, &name())
            .unwrap();
    assert!(hook_file_installed(true, Some(&first), &events));
    assert!(!hook_file_installed(false, Some(&first), &events));
    assert!(!hook_file_installed(true, None, &events));

    let second =
        install_hook_file(NOTIFY, true, "/h/settings.json", &file(&first), &events, &name())
            .unwrap();
    assert_eq!(first, second);

    let removed = uninstall_hook_file(&file(&first), &events).unwrap().unwrap();
    assert!(!hook_file_installed(true, Some(&removed), &events));
    let value = json(&removed);
    assert_eq!(value.text_at("theme").unwrap(), "dark");
    let stop = value.get("hooks").unwrap().list_at("Stop").unwrap();
    assert_eq!(command(&stop[0].list_at("hooks").unwrap()[0]), "/tmp/mine");
}

#[test]
fn merging_a_document_twice_changes_nothing_more() {
    let events = smelt_hook_events();
    let mut root = json("{}");
    merge_hook_file(&mut root, "/h/s.json", &events, NOTIFY, &name(), false).unwrap();
    let once = root.pretty().unwrap();
    assert!(document_installed(&root, &events));
    merge_hook_file(&mut root, "/h/s.json", &events, NOTIFY, &name(), false).unwrap();
    assert_eq!(root.pretty().unwrap(), once);
}

#[test]
fn hooks_are_refused_where_they_cannot_be_put() {
    let events = smelt_hook_events();
    let missing = install_hook_file(NOTIFY, false, "/h/s.json", &HookFile::Absent, &events, "x");
    assert_eq!(
        missing.unwrap_err(),
        format!("找不到 {NOTIFY}，请先编译安装 smelt-notify")
    );
    let unreadable = HookFile::Unreadable("denied".to_string());
    let denied = install_hook_file(NOTIFY, true, "/h/s.json", &unreadable, &events, "x");
    assert_eq!(denied.unwrap_err(), "denied");
    assert!(install_hook_file(NOTIFY, true, "/h/s.json", &file("{"), &events, "x").is_err());
    assert!(install_hook_file(NOTIFY, true, "/h/s.json", &file("[]"), &events, "x").is_err());
    assert!(
        install_hook_file(NOTIFY, true, "/h/s.json", &file(r#"{"hooks":1}"#), &events, "x")
            .is_err()
    );
    assert!(
        install_hook_file(NOTIFY, true, "/h/s.json", &file(r#"{"hooks":{"Stop":1}}"#), &events, "x")
            .is_err()
    );
    assert_eq!(uninstall_hook_file(&HookFile::Absent, &events).unwrap(), None);
    assert_eq!(uninstall_hook_file(&unreadable, &events).unwrap_err(), "denied");
    assert!(uninstall_hook_file(&file("{"), &events).is_err());
}

#[test]
fn claude_and_grok_are_installed_and_removed_together() {
    let paths = Some(("/h/first.json", "/h/grok.json"));
    let plan = install_claude_hooks(&name(), NOTIFY, true, paths, &HookFile::Absent, &file("{}"));
    assert!(plan.outcome.is_ok());
    assert_eq!(plan.edits.len(), 2);
    assert_eq!(plan.edits[0].path, "/h/first.json");
    assert_eq!(plan.edits[1].path, "/h/grok.json");
    let claude = &plan.edits[0].content;
    let grok = &plan.edits[1].content;
    assert!(claude_hooks_installed(true, Some(claude), Some(grok)));
    assert!(!claude_hooks_installed(true, Some(claude), None));
    assert!(claude.contains(&format!("SMELT_HOOK_PROVIDER={}", name())));
    assert!(grok.contains("SMELT_HOOK_PROVIDER=grok"));

    let removal = uninstall_claude_hooks(paths, &file(claude), &file(grok));
    assert!(removal.outcome.is_ok());
    assert_eq!(removal.edits.len(), 2);
    assert!(!removal.edits[0].content.contains("smelt-notify"));

    let half = install_claude_hooks(&name(), NOTIFY, true, paths, &HookFile::Absent, &file("{"));
    assert!(half.outcome.is_err());
    assert_eq!(half.edits.len(), 1);
    let homeless =
        install_claude_hooks(&name(), NOTIFY, true, None, &HookFile::Absent, &HookFile::Absent);
    assert_eq!(homeless.outcome.unwrap_err(), "无 home 目录");
    assert!(uninstall_claude_hooks(None, &HookFile::Absent, &HookFile::Absent).outcome.is_ok());
}

#[test]
fn codex_hooks_come_with_the_commands_to_trust() {
    let installation =
        install_codex_hooks(NOTIFY, true, Some("/h/hooks.json"), &HookFile::Absent).unwrap();
    assert!(codex_hooks_installed(true, Some(&installation.content)));
    assert_eq!(installation.commands.len(), codex_hook_events().len());
    assert_eq!(
        installation.commands[0],
        provider_hook_command(NOTIFY, "codex", &codex_hook_events()[0])
    );
    assert_eq!(codex_trust_outcome(TrustAttempt::Granted), Ok(()));
    assert_eq!(
        codex_trust_outcome(TrustAttempt::NoDirectory("gone".to_string())).unwrap_err(),
        "读取当前目录失败：gone"
    );
    assert_eq!(
        codex_trust_outcome(TrustAttempt::Refused("no".to_string())).unwrap_err(),
        "Codex hooks 已安装，但自动信任失败：no"
    );
    let removed = uninstall_codex_hooks(&file(&installation.content)).unwrap().unwrap();
    assert!(!codex_hooks_installed(true, Some(&removed)));
    match install_codex_hooks(NOTIFY, true, None, &HookFile::Absent) {
        Ok(_) => panic!("there is no home directory"),
        Err(message) => assert_eq!(message, "无 home 目录"),
    }
}

#[test]
fn copilot_hooks_can_be_installed_and_removed() {
    let legacy = r#"{"hooks":{"SessionStart":[{"type":"command","bash":"/x/smelt-notify"}],
        "sessionStart":[{"type":"command","bash":"/x/other"}]}}"#;
    let written =
        install_copilot_hooks(NOTIFY, true, Some("/h/smelt.json"), &file(legacy)).unwrap();
    assert!(copilot_hooks_installed(true, Some(&written)));
    assert!(written.contains("/x/other"));
    assert!(!written.contains("/x/smelt-notify"));
    let mut root = json(&written);
    let before = root.pretty().unwrap();
    merge_copilot_hooks(&mut root, NOTIFY).unwrap();
    assert_eq!(root.pretty().unwrap(), before);
    let removed = uninstall_copilot_hooks(&file(&written)).unwrap().unwrap();
    assert!(!copilot_hooks_installed(true, Some(&removed)));
    assert!(removed.contains("/x/other"));
    assert_eq!(
        install_copilot_hooks(NOTIFY, true, None, &HookFile::Absent).unwrap_err(),
        "无 home 目录"
    );
}

#[test]
fn other_agents_take_hooks_and_give_them_back() {
    let path = Some("/h/hooks.json");
    let antigravity = install_antigravity_hooks(NOTIFY, true, path, &HookFile::Absent).unwrap();
    assert!(antigravity_hooks_installed(true, Some(&antigravity)));
    let removed = uninstall_antigravity_hooks(path, &file(&antigravity)).unwrap().unwrap();
    assert!(!antigravity_hooks_installed(true, Some(&removed)));

    let cursor = install_cursor_hooks(NOTIFY, true, path, &HookFile::Absent).unwrap();
    assert!(cursor_hooks_installed(true, Some(&cursor)));
    let removed = uninstall_cursor_hooks(path, &file(&cursor)).unwrap().unwrap();
    assert!(!cursor_hooks_installed(true, Some(&removed)));

    let kiro = install_kiro_hooks(NOTIFY, true, path, &HookFile::Absent).unwrap();
    assert!(kiro_hooks_installed(true, Some(&kiro)));
    let removed = uninstall_kiro_hooks(path, &file(&kiro)).unwrap().unwrap();
    assert!(!kiro_hooks_installed(true, Some(&removed)));

    let plugin = install_opencode_plugin(NOTIFY, true, path, &HookFile::Absent).unwrap();
    assert!(opencode_plugin_installed(true, Some(&plugin), NOTIFY));
    assert!(!opencode_plugin_installed(true, Some(&plugin), "/other/smelt-notify"));
    assert_eq!(
        install_opencode_plugin(NOTIFY, true, None, &HookFile::Absent).unwrap_err(),
        "无 home/config 目录"
    );
}

#[test]
fn statuses_are_kept_for_five_seconds() {
    let found = HookContents {
        title: title(),
        notify: NOTIFY.to_string(),
        notify_available: true,
        claude: None,
        grok: None,
        copilot: None,
        codex: None,
        antigravity: None,
        cursor: None,
        opencode: Some(opencode_plugin_source(NOTIFY)),
        kiro: None,
    };
    let mut cache = HookStatusCache::new();
    assert_eq!(hooks_installed_status(&mut cache, 1000, None), None);
    let status = hooks_installed_status(&mut cache, 1000, Some(&found)).unwrap();
    assert_eq!(status.len(), 7);
    assert_eq!(status[5].label, "OpenCode");
    assert!(status[5].installed);
    assert!(!status[0].installed);
    assert_eq!(hooks_installed_status(&mut cache, 5999, None), Some(status));
    assert_eq!(hooks_installed_status(&mut cache, 6000, None), None);
    assert!(hooks_installed_status(&mut cache, 6000, Some(&found)).is_some());
    invalidate_hooks_cache(&mut cache);
    assert_eq!(hooks_installed_status(&mut cache, 6001, None), None);
}

#[test]
fn failures_of_several_agents_are_told_together() {
    let mut results: Vec<Result<(), String>> = vec![Ok(()); 7];
    assert_eq!(run_all_hook_operations(&title(), &results), Ok(()));
    results[1] = Err("a".to_string());
    results[6] = Err("b".to_string());
    assert_eq!(
        uninstall_agent_hooks(&title(), &results).unwrap_err(),
        "Copilot: a；Kiro v3: b"
    );
    assert_eq!(
        install_agent_hooks(&title(), false, Err("disk".to_string()), &Vec::new()).unwrap_err(),
        "准备 smelt-notify 失败：disk"
    );
    assert!(integrations_to_install(false, &Err("disk".to_string())).is_empty());
    assert_eq!(integrations_to_install(false, &Ok(())), hook_integrations());
    assert_eq!(integrations_to_install(true, &Err("disk".to_string())), hook_integrations());
    assert_eq!(
        install_agent_hooks(&title(), true, Err("disk".to_string()), &results).unwrap_err(),
        "Copilot: a；Kiro v3: b"
    );
}

#[test]
fn hook_files_stand_where_agents_look_for_them() {
    let joined = |location: HookLocation| location.components(&name()).join("/");
    assert_eq!(
        joined(HookLocation::ClaudeSettings),
        format!(".{}/settings.json", name())
    );
    assert_eq!(joined(HookLocation::GrokHooks), ".grok/hooks/smelt-notifications.json");
    assert_eq!(joined(HookLocation::CopilotHooks), ".copilot/hooks/smelt.json");
    assert_eq!(joined(HookLocation::CodexHooks), ".codex/hooks.json");
    assert_eq!(joined(HookLocation::AntigravityHooks), ".gemini/config/hooks.json");
    assert_eq!(joined(HookLocation::CursorHooks), ".cursor/hooks.json");
    assert_eq!(joined(HookLocation::KiroHooks), ".kiro/hooks/smelt-notifications.json");
    assert_eq!(
        opencode_plugin_components().join("/"),
        "opencode/plugins/smelt-notifications.js"
    );
    assert_eq!(config_root(Some("/c".to_string())).as_deref(), Some("/c"));
    assert_eq!(config_root(Some(String::new())), None);
    assert_eq!(config_root(None), None);
}

#[test]
fn documents_are_written_as_they_are_read() {
    let text = "{\n  \"a\": [\n    1,\n    true,\n    null,\n    \"x\\n\"\n  ],\n  \"b\": {}\n}";
    let value = json(text);
    assert_eq!(value.pretty().unwrap(), text);
    assert_eq!(value.get("a").map(|_| ()), Some(()));
    assert_eq!(value.flag_at("a"), None);
    assert!(Json::parse("{\"a\":").is_err());
    assert_eq!(Json::integer(10).pretty().unwrap(), "10");
}

#[test]
fn files_with_fractions_take_hooks_and_give_them_back() {
    let events = vec!["Stop".to_string(), "SessionStart".to_string()];
    let stored = r#"{"scale":1.7976931348623157e308,"share":0.1,"hooks":{"Stop":[
        {"matcher":"","hooks":[{"type":"command","command":"/tmp/other","timeout":2.5}]}]}}"#;
    let install = |found: &str| {
        install_hook_file(NOTIFY, true, "/h/s.json", &file(found), &events, &name()).unwrap()
    };
    let first = install(stored);
    assert!(hook_file_installed(true, Some(&first), &events));
    assert_eq!(install(&first), first);
    assert!(first.contains("/tmp/other"));
    let removed = uninstall_hook_file(&file(&first), &events).unwrap().unwrap();
    assert!(!hook_file_installed(true, Some(&removed), &events));
    assert!(removed.contains("/tmp/other") && removed.contains("2.5"));
}

#[test]
fn repeated_events_get_one_hook() {
    let once = vec!["Stop".to_string()];
    let twice = vec!["Stop".to_string(), "Stop".to_string()];
    let install = |events: &Vec<String>| {
        install_hook_file(NOTIFY, true, "/h/s.json", &HookFile::Absent, events, &name()).unwrap()
    };
    assert_eq!(install(&once), install(&twice));
    let installed = install(&once);
    assert_eq!(
        uninstall_hook_file(&file(&installed), &twice),
        uninstall_hook_file(&file(&installed), &once)
    );
}

#[test]
fn deep_files_are_refused() {
    let nested = |depth: usize| format!("{}{}", "[".repeat(depth), "]".repeat(depth));
    assert!(Json::parse(&nested(127)).is_ok());
    assert!(Json::parse(&nested(128)).is_err());
    let written = Json::parse(&nested(127)).unwrap().pretty().unwrap();
    assert!(Json::parse(&format!("{written}\n")).is_ok());
}

#[test]
fn removed_hooks_are_not_found_again() {
    let copilot = install_copilot_hooks(NOTIFY, true, Some("/h/c.json"), &file("{}")).unwrap();
    let left = uninstall_copilot_hooks(&file(&copilot)).unwrap().unwrap();
    assert!(copilot_hooks_installed(true, Some(&copilot)));
    assert!(!copilot_hooks_installed(true, Some(&left)));
    let cursor = install_cursor_hooks(NOTIFY, true, Some("/h/u.json"), &file("{}")).unwrap();
    let left = uninstall_cursor_hooks(Some("/h/u.json"), &file(&cursor)).unwrap().unwrap();
    assert!(cursor_hooks_installed(true, Some(&cursor)));
    assert!(!cursor_hooks_installed(true, Some(&left)));
    let kiro = install_kiro_hooks(NOTIFY, true, Some("/h/k.json"), &file("{}")).unwrap();
    let left = uninstall_kiro_hooks(Some("/h/k.json"), &file(&kiro)).unwrap().unwrap();
    assert!(kiro_hooks_installed(true, Some(&kiro)));
    assert!(!kiro_hooks_installed(true, Some(&left)));
    let place = Some("/h/a.json");
    let gravity = install_antigravity_hooks(NOTIFY, true, place, &file("{}")).unwrap();
    let left = uninstall_antigravity_hooks(place, &file(&gravity)).unwrap().unwrap();
    assert!(antigravity_hooks_installed(true, Some(&gravity)));
    assert!(!antigravity_hooks_installed(true, Some(&left)));
}

#[test]
fn positions_count_as_events_in_a_list_of_lists() {
    let own = provider_hook_command(NOTIFY, "cursor", "1");
    let root = json(&format!(r#"{{"hooks":[[],[{{"command":"{own}"}}]]}}"#));
    assert!(cursor_event_installed(&root, "1"));
    assert!(!cursor_event_installed(&root, "0"));
    assert!(!cursor_event_installed(&root, "01"));
    assert!(!cursor_event_installed(&root, "stop"));
}
