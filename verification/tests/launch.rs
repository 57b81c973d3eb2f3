use smelt::settings::editors::{add_launch_entry, set_launch_command, set_launch_label};
use smelt::settings::launch::{
    active_launch_entries, agent_from_command_prefix, agent_from_id, default_launch_entries,
    icon_for_launch_command, launch_entry_is_builtin, load_launch_config, remove_launch_entry_at,
    terminal_agents, LaunchConfig, LaunchEntry, LaunchIcon, TerminalAgent, TerminalAgentKind,
    LAUNCH_CONFIG_VERSION,
};

fn title() -> String {
    format!("{:?}", TerminalAgentKind::Claude)
}

fn name() -> String {
    title().to_lowercase()
}

fn agents() -> Vec<TerminalAgent> {
    terminal_agents(&name(), &title())
}

fn first_entry() -> LaunchEntry {
    entry(&format!("{} Code", title()), &first_command(), None)
}

fn first_command() -> String {
    format!("{} --dangerously-skip-permissions", name())
}

fn entry(label: &str, command: &str, provider: Option<&str>) -> LaunchEntry {
    LaunchEntry {
        label: label.to_string(),
        command: command.to_string(),
        provider: provider.map(str::to_string),
    }
}

fn load(version: u32, entries: Vec<LaunchEntry>) -> LaunchConfig {
    load_launch_config(&agents(), Some(LaunchConfig { version, entries })).0
}

fn of_provider<'a>(entries: &'a [LaunchEntry], id: &str) -> Vec<&'a LaunchEntry> {
    entries.iter().filter(|entry| entry.provider.as_deref() == Some(id)).collect()
}

fn released_entries() -> Vec<LaunchEntry> {
    vec![
        first_entry(),
        entry("GitHub Copilot", "copilot --allow-all", None),
        entry("Codex", "codex --dangerously-bypass-approvals-and-sandbox", None),
        entry("Grok", "grok --always-approve", None),
    ]
}

#[test]
fn default_terminal_entries_include_registered_full_permission_launches() {
    let entries = default_launch_entries(&agents());
    let find = |id: &str| of_provider(&entries, id)[0].clone();
    assert_eq!(find("antigravity").label, "Antigravity");
    assert_eq!(find("antigravity").command, "agy --dangerously-skip-permissions");
    assert_eq!(find("grok").command, "grok --always-approve");
    assert_eq!(find("cursor").label, "Cursor Agent");
    assert_eq!(find("cursor").command, "cursor-agent --force");
    assert_eq!(find("opencode").label, "OpenCode");
    assert_eq!(find("opencode").command, "opencode --auto");
    assert_eq!(find("kiro").label, "Kiro");
    assert_eq!(find("kiro").command, "kiro-cli chat --v3 --trust-all-tools");
    assert_eq!(find("pi").label, "Pi");
    assert_eq!(find("pi").command, "pi --approve");
    assert_eq!(find("crush").label, "Crush");
    assert_eq!(find("crush").command, "crush --yolo");
}

#[test]
fn current_launch_config_gains_the_registered_crush_entry() {
    let stored =
        LaunchConfig { version: LAUNCH_CONFIG_VERSION, entries: vec![entry("My shell", "zsh", None)] };
    let (config, persist) = load_launch_config(&agents(), Some(stored));
    assert_eq!(of_provider(&config.entries, "crush")[0].command, "crush --yolo");
    assert!(persist);
}

#[test]
fn released_pi_command_upgrades_to_full_project_trust() {
    let config = load(
        13,
        vec![entry("Pi", "pi", Some("pi")), entry("My Pi", "pi --model custom", None)],
    );
    assert_eq!(of_provider(&config.entries, "pi")[0].command, "pi --approve");
    assert!(config
        .entries
        .iter()
        .any(|entry| entry.label == "My Pi" && entry.command == "pi --model custom"));
}

#[test]
fn builtin_launch_entries_are_fixed_but_custom_entries_can_be_removed() {
    let mut config = LaunchConfig::with_defaults(&agents());
    let builtin_count = config.entries.len();
    config.entries.push(entry("My command", &first_command(), None));

    assert!(!remove_launch_entry_at(&agents(), &mut config, 0));
    assert_eq!(config.entries.len(), builtin_count + 1);
    assert!(remove_launch_entry_at(&agents(), &mut config, builtin_count));
    assert_eq!(config.entries.len(), builtin_count);
}

#[test]
fn released_kiro_v2_default_moves_to_v3_without_touching_custom_agents() {
    let config = load(
        10,
        vec![
            entry("Kiro", "kiro-cli chat --trust-all-tools", Some("kiro")),
            entry("My Kiro", "kiro-cli chat --agent personal", Some("kiro")),
        ],
    );
    assert_eq!(config.version, LAUNCH_CONFIG_VERSION);
    assert_eq!(config.entries[0].command, "kiro-cli chat --v3 --trust-all-tools");
    assert_eq!(config.entries[1].command, "kiro-cli chat --agent personal");
}

fn check_restored(mut config: LaunchConfig, id: &str) {
    config.entries.retain(|entry| entry.provider.as_deref() != Some(id));
    let (reloaded, _) = load_launch_config(&agents(), Some(config));
    assert_eq!(of_provider(&reloaded.entries, id).len(), 1);
}

#[test]
fn old_default_launch_config_keeps_one_fixed_antigravity_entry() {
    let config = load(
        0,
        vec![
            first_entry(),
            entry("Copilot", "copilot --allow-all", None),
            entry("Codex", "codex --dangerously-bypass-approvals-and-sandbox", None),
            entry("Grok", "grok", None),
        ],
    );
    assert_eq!(config.version, LAUNCH_CONFIG_VERSION);
    assert_eq!(of_provider(&config.entries, "antigravity").len(), 1);
    check_restored(config, "antigravity");
}

#[test]
fn old_antigravity_default_command_is_upgraded_to_full_permissions() {
    let config = load(
        2,
        vec![
            first_entry(),
            entry("Copilot", "copilot --allow-all", None),
            entry("Codex", "codex --dangerously-bypass-approvals-and-sandbox", None),
            entry("Grok", "grok", None),
            entry("Antigravity", "agy", Some("antigravity")),
        ],
    );
    assert_eq!(config.version, LAUNCH_CONFIG_VERSION);
    assert_eq!(
        of_provider(&config.entries, "antigravity")[0].command,
        "agy --dangerously-skip-permissions"
    );
}

#[test]
fn customized_antigravity_command_survives_migration() {
    let config = load(2, vec![entry("Antigravity", "agy --mode plan", Some("antigravity"))]);
    assert_eq!(of_provider(&config.entries, "antigravity")[0].command, "agy --mode plan");
}

#[test]
fn old_grok_default_command_is_upgraded_to_full_permissions() {
    let config = load(2, vec![entry("Grok", "grok", None)]);
    assert_eq!(config.version, LAUNCH_CONFIG_VERSION);
    let grok = config.entries.iter().find(|entry| entry.command.starts_with("grok")).unwrap();
    assert_eq!(grok.command, "grok --always-approve");
}

#[test]
fn forced_codex_thread_title_command_returns_to_the_cli_default() {
    let forced = "codex --dangerously-bypass-approvals-and-sandbox \
                  -c 'tui.terminal_title=[\"thread-title\"]'";
    let config = load(
        12,
        vec![
            entry("Codex", forced, Some("codex")),
            entry("My Codex", "codex --model custom", None),
        ],
    );
    assert_eq!(
        of_provider(&config.entries, "codex")[0].command,
        "codex --dangerously-bypass-approvals-and-sandbox"
    );
    assert!(config
        .entries
        .iter()
        .any(|entry| entry.label == "My Codex" && entry.command == "codex --model custom"));
}

#[test]
fn old_launch_config_keeps_one_fixed_cursor_entry() {
    let mut entries = released_entries();
    entries[1].label = "Copilot".to_string();
    let config = load(4, entries);
    assert_eq!(config.version, LAUNCH_CONFIG_VERSION);
    assert_eq!(
        config
            .entries
            .iter()
            .find(|entry| entry.command.contains("copilot"))
            .map(|entry| entry.label.as_str()),
        Some("GitHub Copilot")
    );
    assert_eq!(
        config
            .entries
            .iter()
            .filter(|entry| entry.provider.as_deref() == Some("cursor")
                || entry.command.contains("cursor-agent"))
            .count(),
        1
    );
    check_restored(config, "cursor");
}

#[test]
fn old_launch_config_keeps_one_fixed_opencode_entry() {
    let mut entries = released_entries();
    entries.push(entry("Antigravity", "agy --dangerously-skip-permissions", Some("antigravity")));
    entries.push(entry("Cursor Agent", "cursor-agent --force", Some("cursor")));
    let config = load(6, entries);
    assert_eq!(config.version, LAUNCH_CONFIG_VERSION);
    assert_eq!(
        config
            .entries
            .iter()
            .filter(|entry| entry.provider.as_deref() == Some("opencode")
                || entry.command.contains("opencode"))
            .count(),
        1
    );
    check_restored(config, "opencode");
}

#[test]
fn old_launch_config_keeps_one_fixed_kiro_entry() {
    let mut entries = released_entries();
    entries.push(entry("Antigravity", "agy --dangerously-skip-permissions", Some("antigravity")));
    entries.push(entry("Cursor Agent", "cursor-agent --force", Some("cursor")));
    entries.push(entry("OpenCode", "opencode --auto", Some("opencode")));
    let config = load(7, entries);
    assert_eq!(config.version, LAUNCH_CONFIG_VERSION);
    assert_eq!(
        config
            .entries
            .iter()
            .filter(|entry| entry.provider.as_deref() == Some("kiro")
                || entry.command.contains("kiro-cli"))
            .count(),
        1
    );
    check_restored(config, "kiro");
}

#[test]
fn customized_copilot_label_survives_rename_migration() {
    let config = load(5, vec![entry("家里的 Copilot", "copilot --allow-all", Some("copilot"))]);
    let copilot = config.entries.iter().find(|entry| entry.command.contains("copilot")).unwrap();
    assert_eq!(copilot.label, "家里的 Copilot");
}

#[test]
fn customized_grok_command_survives_migration() {
    let config = load(2, vec![entry("Grok", "grok --model xyz", None)]);
    let grok = config.entries.iter().find(|entry| entry.command.starts_with("grok")).unwrap();
    assert_eq!(grok.command, "grok --model xyz");
}

#[test]
fn loading_twice_changes_nothing_more() {
    let (once, persist) = load_launch_config(
        &agents(),
        Some(LaunchConfig { version: 2, entries: vec![entry("Grok", "grok", None)] }),
    );
    assert!(persist);
    let (twice, again) = load_launch_config(&agents(), Some(once.clone()));
    assert_eq!(twice, once);
    assert!(!again);
    let (fresh, _) = load_launch_config(&agents(), None);
    assert_eq!(fresh, LaunchConfig::with_defaults(&agents()));
}

#[test]
fn agents_are_told_by_id_and_by_command() {
    let known = agents();
    assert_eq!(known.len(), 10);
    for agent in &known {
        assert_eq!(agent_from_id(&known, &agent.id), Some(agent));
    }
    assert_eq!(agent_from_id(&known, "nobody"), None);
    let with_argument = format!(" {} --x", name());
    assert_eq!(agent_from_command_prefix(&known, &with_argument), Some(&known[0]));
    assert_eq!(known[0].kind, TerminalAgentKind::Claude);
    assert_eq!(agent_from_command_prefix(&known, "kiro-cli chat").unwrap().id, "kiro");
    assert_eq!(agent_from_command_prefix(&known, "zsh"), None);
    assert_eq!(icon_for_launch_command(&agents(), &name()), LaunchIcon::Asterisk);
    assert_eq!(icon_for_launch_command(&agents(), "copilot"), LaunchIcon::Github);
    assert_eq!(icon_for_launch_command(&agents(), "zsh"), LaunchIcon::SquareTerminal);
    assert!(launch_entry_is_builtin(&agents(), &entry("x", "y", Some("pi"))));
    assert!(!launch_entry_is_builtin(&agents(), &entry("x", "y", None)));
}

#[test]
fn entries_without_a_name_or_a_command_are_not_shown() {
    let config = LaunchConfig {
        version: LAUNCH_CONFIG_VERSION,
        entries: vec![entry(" ", "x", None), entry("x", "\t", None), entry("a", "b", None)],
    };
    assert_eq!(active_launch_entries(&config), [entry("a", "b", None)]);
}

#[test]
fn entries_can_be_added_and_edited() {
    let mut config = LaunchConfig { version: 14, entries: Vec::new() };
    add_launch_entry(&mut config);
    assert_eq!(config.entries, [entry("新启动项", "", None)]);
    set_launch_label(&mut config, 0, "a".to_string());
    set_launch_command(&mut config, 0, "b".to_string());
    set_launch_command(&mut config, 1, "c".to_string());
    assert_eq!(config.entries, [entry("a", "b", None)]);
}
