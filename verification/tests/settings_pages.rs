use smelt::session_list::clock::LocalMoment;
use smelt::settings::appearance::{
    appearance_controls, appearance_from_snapshot, current_terminal_theme, font_options,
    packed_color, resolved_ui_font_family, snapshot_from_appearance, theme_fonts, Appearance,
    DEFAULT_UI_FONT_PX, GlassStyle, SETTINGS_WINDOW_OPACITY_PERCENT, SliderSpec, TerminalColors,
    ThemeMode, WindowBackgroundAppearance,
};
use smelt::settings::editors::{
    acp_cmd_description, acp_cmd_entered, acp_cmd_setting_value, acp_cmd_title, add_profile,
    add_profile_with_id, init_launch_inputs, init_llm_inputs, init_profile_inputs,
    inputs_are_stale, remove_profile, saves_on,
    set_profile_dir, set_profile_kind, set_profile_label, AcpProfile, InputEvent, LlmConfig,
    LlmField,
};
use smelt::settings::launch::{LaunchConfig, LaunchEntry};
use smelt::settings::maintenance::{
    cleanup_is_offered, cleanup_message, cleanup_summary, daemon_info_line, daemon_info_text,
    daemon_line, daemon_status_text, daemon_upgrade_button, fmt_uptime, hooks_message,
    hooks_status_line, install_hooks_label, runtime_checked_at_text, CleanupScan, CopyFlash,
    DaemonInfo,
};
use smelt::settings::models::{
    render_dsh_effort_section, render_dsh_model_choices_section, render_model_discovery_section,
    Choice, DshEffortView, DshModelChoicesView, ModelDiscoveryState,
};
use smelt::settings::notifications::{notifies, AgentUiConfig, NotificationKind};
use smelt::settings::pi_auth::Workspace;
use smelt::settings::qr::{gray_to_rgb, qr_png_for_url};
use smelt::settings::refresh::{RefreshStep, SettingsRefresh};
use smelt::settings::shortcuts::shortcut_sections;
use smelt::settings::update::{
    apply_auto_install, apply_update_channel, download_is_sized, load_update_settings,
    settings_from_snapshot, snapshot_from_settings, DownloadProgress, ProgressBar, UpdateChannel,
    UpdateSettings, UpdateSettingsSnapshot, UpdateStatus,
};
use smelt::settings::window::{HudStep, SettingsWindow};

#[test]
fn window_opacity_clamps_invalid_persisted_values() {
    let mut appearance = Appearance::default();
    assert_eq!(appearance.window_opacity(), 950);
    appearance.opacity = Some(200);
    assert_eq!(appearance.window_opacity(), 300);
    appearance.opacity = Some(600);
    assert_eq!(appearance.window_opacity(), 600);
    appearance.opacity = Some(1200);
    assert_eq!(appearance.window_opacity(), 1000);
    appearance.opacity = None;
    assert_eq!(appearance.window_opacity(), 1000);
}

#[test]
fn liquid_glass_keeps_a_stable_blurred_window_backdrop() {
    assert_eq!(Appearance::default().window_bg(), WindowBackgroundAppearance::Blurred);
}

#[test]
fn settings_window_stays_opaque_for_readability() {
    assert_eq!(SETTINGS_WINDOW_OPACITY_PERCENT as f32 / 100.0, 1.0);
}

#[test]
fn appearances_are_read_back_as_they_were_stored() {
    let mut appearance = Appearance::default();
    assert_eq!(resolved_ui_font_family(&appearance), ".SystemUIFont");
    assert_eq!(theme_fonts(None), (DEFAULT_UI_FONT_PX, ".SystemUIFont".to_string()));
    appearance.set_opacity_percent(40);
    appearance.set_font_px(99, 8, 32);
    appearance.set_font_family("  Menlo ");
    appearance.set_dark(false);
    appearance.set_bg_image(Some("/pictures/sea.png".to_string()));
    appearance.glass_style = GlassStyle::Clear;
    appearance.ui_font_family = " Inter ".to_string();
    appearance.bg_color = packed_color(0x12, 0x34, 0x56);
    assert_eq!(appearance.opacity, Some(400));
    assert_eq!(appearance.font_px, 32);
    assert_eq!(appearance.font_family, "Menlo");
    assert_eq!(appearance.theme_mode, ThemeMode::Light);
    assert_eq!(appearance.bg_image_name(), "sea.png");
    assert_eq!(appearance.bg_override(), Some(0x123456));
    assert_eq!(theme_fonts(Some(&appearance)), (DEFAULT_UI_FONT_PX, "Inter".to_string()));
    let snapshot = snapshot_from_appearance(&appearance);
    assert_eq!(snapshot.theme_mode, "light");
    assert_eq!(snapshot.glass_style, "clear");
    assert_eq!(appearance_from_snapshot(snapshot), appearance);
    appearance.set_opacity_percent(5);
    assert_eq!(appearance.opacity, Some(300));
}

#[test]
fn nothing_is_overridden_by_default() {
    let appearance = Appearance::default();
    assert!(appearance.bg_color_is_default());
    assert_eq!(appearance.bg_override(), None);
    assert_eq!(appearance.bg_image_name(), "无");
}

#[test]
fn snapshot_follows_theme_mode_and_user_background() {
    let colors = |dark: bool| TerminalColors {
        dark,
        background: if dark { 0x1e1e1e } else { 0xffffff },
        foreground: if dark { 0xeeeeee } else { 0x111111 },
        selection: 2,
        palette: if dark { vec![7, 8] } else { vec![3, 4] },
        search_hit: 5,
        search_hit_current: 6,
    };
    let light = current_terminal_theme(1, colors(false), None);
    assert!(!light.dark);
    assert_eq!(light.background, colors(false).background);
    assert_ne!(light.palette, current_terminal_theme(1, colors(true), None).palette);
    assert_eq!(light.cursor, 0x111111);
    assert_eq!((light.search_hit, light.search_hit_current, light.selection), (5, 6, 2));

    assert_eq!(current_terminal_theme(1, colors(false), Some(0x00123456)).background, 0x00123456);
}

#[test]
fn controls_stand_where_the_appearance_is() {
    let mut appearance = Appearance::default();
    appearance.set_opacity_percent(85);
    appearance.set_font_px(15, 9, 24);
    let controls = appearance_controls(&appearance, 9, 24);
    assert_eq!(
        controls.opacity,
        SliderSpec { min: 600, max: 1000, step: 50, start: Some(850) }
    );
    assert_eq!(controls.font_size, SliderSpec { min: 9, max: 24, step: 1, start: Some(15) });
    assert_eq!(controls.background, appearance.bg_color);
}

#[test]
fn fonts_are_offered_with_the_default_first() {
    let names = vec!["Menlo".to_string(), "Inter".to_string()];
    let options = font_options(&names, "Menlo");
    assert_eq!(options.len(), 3);
    assert_eq!(options[0].0, "");
    assert!(options[0].1.contains("Menlo"));
    assert_eq!(options[1], ("Inter".to_string(), "Inter".to_string()));
    assert_eq!(options[2], ("Menlo".to_string(), "Menlo".to_string()));
}

#[test]
fn update_settings_are_read_back_as_they_were_stored() {
    let mut settings = load_update_settings(&None);
    assert!(settings.auto_install);
    assert_eq!(settings.channel, UpdateChannel::Prod);
    apply_update_channel(&mut settings, UpdateChannel::Dev);
    apply_auto_install(&mut settings, false);
    let expected = UpdateSettings { channel: UpdateChannel::Dev, auto_install: false };
    assert_eq!(settings, expected);
    let snapshot = snapshot_from_settings(&settings);
    assert_eq!(snapshot.channel, "dev");
    assert_eq!(settings_from_snapshot(&snapshot), settings);
    let unknown = UpdateSettingsSnapshot { channel: "beta".to_string(), auto_install: true };
    assert_eq!(load_update_settings(&Some(unknown)).channel, UpdateChannel::Prod);
}

#[test]
fn updates_say_how_far_they_are() {
    let sized = UpdateStatus::Downloading {
        version: "1.2".to_string(),
        progress: DownloadProgress::Sized {
            percent: "50".to_string(),
            received: "5.0".to_string(),
            total: "10.0".to_string(),
        },
    };
    assert_eq!(sized.text(), "正在下载 v1.2… 50%（5.0 / 10.0 MB）");
    assert_eq!(sized.progress_bar(), Some(ProgressBar::Share));
    assert_eq!(sized.check_label(), "下载中…");
    assert!(sized.is_busy() && !sized.is_ready());
    let endless = UpdateStatus::Downloading {
        version: "1.2".to_string(),
        progress: DownloadProgress::Unsized { received: "5.0".to_string() },
    };
    assert_eq!(endless.text(), "正在下载 v1.2…（已下载 5.0 MB）");
    assert_eq!(endless.progress_bar(), Some(ProgressBar::Endless));
    let ready = UpdateStatus::ReadyToInstall { version: "2".to_string() };
    assert_eq!(ready.text(), "新版本 v2 已就绪，下次启动生效");
    assert!(ready.is_ready() && !ready.is_busy());
    assert_eq!(UpdateStatus::Failed("x".to_string()).text(), "检查失败：x");
    assert_eq!(UpdateStatus::Idle.text(), "");
    assert_eq!(UpdateStatus::Idle.check_label(), "检查更新");
    assert!(download_is_sized(Some(1)));
    assert!(!download_is_sized(Some(0)));
    assert!(!download_is_sized(None));
}

fn check_pairing_uri() {
    let uri = format!(
        "smelt://pair?endpoint={}&token={}&relay=https://relay.example.test",
        "a".repeat(64),
        "b".repeat(32)
    );
    let png = qr_png_for_url(&uri).expect("配对码必须能生成二维码");
    assert!(!png.is_empty());
    assert_eq!(&png[1..4], b"PNG", "应当是 PNG 字节流");
}

#[test]
fn tests_pairing_uri_renders_to_a_qr() {
    check_pairing_uri();
}

#[test]
fn settings_pairing_uri_renders_to_a_qr() {
    check_pairing_uri();
}

#[test]
fn texts_that_are_too_long_have_no_code() {
    assert_eq!(qr_png_for_url(&"x".repeat(5000)), None);
    let short = qr_png_for_url("a").unwrap();
    let other = qr_png_for_url("b").unwrap();
    assert_ne!(short, other);
    assert_eq!(gray_to_rgb(&vec![0, 255]), [0, 0, 0, 255, 255, 255]);
}

const CODEX_COMMAND: &str = "codex-acp";

fn check_builtin_command() {
    assert!(acp_cmd_setting_value(CODEX_COMMAND, CODEX_COMMAND.to_string()).is_empty());
}

#[test]
fn tests_builtin_agent_command_is_hidden_in_settings() {
    check_builtin_command();
}

#[test]
fn settings_builtin_agent_command_is_hidden_in_settings() {
    check_builtin_command();
}

fn check_custom_command() {
    assert_eq!(
        acp_cmd_setting_value(CODEX_COMMAND, "codex-acp --custom".to_string()),
        "codex-acp --custom"
    );
}

#[test]
fn tests_custom_agent_command_remains_visible_in_settings() {
    check_custom_command();
}

#[test]
fn settings_custom_agent_command_remains_visible_in_settings() {
    check_custom_command();
}

#[test]
fn entering_what_is_shown_changes_nothing() {
    for command in [CODEX_COMMAND, "codex-acp --custom"] {
        let shown = acp_cmd_setting_value(CODEX_COMMAND, command.to_string());
        assert_eq!(acp_cmd_entered(CODEX_COMMAND, &shown), command);
    }
    assert_eq!(acp_cmd_entered(CODEX_COMMAND, "  x  "), "x");
    assert_eq!(acp_cmd_title("Codex"), "Codex 自定义启动命令");
    assert!(acp_cmd_description("Codex").ends_with("「Codex」对话会话。"));
}

fn check_uptime() {
    assert_eq!(fmt_uptime(45), "45 秒");
    assert_eq!(fmt_uptime(600), "10 分钟");
    assert_eq!(fmt_uptime(3600 * 3 + 60 * 12), "3 小时 12 分");
    assert_eq!(fmt_uptime(86400 * 2 + 3600 * 5), "2 天 5 小时");
}

#[test]
fn tests_fmt_uptime_picks_two_units() {
    check_uptime();
}

#[test]
fn settings_fmt_uptime_picks_two_units() {
    check_uptime();
}

fn no_info() -> DaemonInfo {
    DaemonInfo { version: None, pid: None, started_at: None, session_count: None }
}

fn check_old_daemon() {
    let info = DaemonInfo { version: Some("0.5.4".to_string()), ..no_info() };
    assert_eq!(daemon_info_line(&info, 2_000_000), "v0.5.4");
}

#[test]
fn tests_old_daemon_without_new_fields_shows_only_version() {
    check_old_daemon();
}

#[test]
fn settings_old_daemon_without_new_fields_shows_only_version() {
    check_old_daemon();
}

fn check_full_info() {
    let info = DaemonInfo {
        version: Some("0.5.4".to_string()),
        pid: Some(64954),
        started_at: Some(1_000_000),
        session_count: Some(5),
    };
    let line = daemon_info_line(&info, 2_000_000);
    assert!(line.starts_with("v0.5.4 · PID 64954 · 启动于 "), "got {line}");
    assert!(line.contains("已运行 "), "got {line}");
    assert!(line.ends_with("· 5 个会话"), "got {line}");
}

#[test]
fn tests_full_info_joins_all_parts() {
    check_full_info();
}

#[test]
fn settings_full_info_joins_all_parts() {
    check_full_info();
}

fn check_future_start() {
    let now = std::time::SystemTime::now()
        .duration_since(std::time::UNIX_EPOCH)
        .unwrap()
        .as_secs();
    let info = DaemonInfo { started_at: Some(now + 9999), ..no_info() };
    assert!(daemon_info_line(&info, now).contains("已运行 0 秒"));
}

#[test]
fn tests_future_started_at_does_not_underflow() {
    check_future_start();
}

#[test]
fn settings_future_started_at_does_not_underflow() {
    check_future_start();
}

#[test]
fn the_background_service_is_described() {
    let moment = LocalMoment { year: 2026, month: 3, day: 4, hour: 5, minute: 6, day_number: 7 };
    let info = DaemonInfo { started_at: Some(100), session_count: Some(0), ..no_info() };
    assert_eq!(
        daemon_line(&info, Some(moment), 160),
        "启动于 03-04 05:06（已运行 1 分钟） · 0 个会话"
    );
    assert_eq!(daemon_line(&info, None, 160), "启动于 ?（已运行 1 分钟） · 0 个会话");
    assert_eq!(daemon_line(&no_info(), None, 0), "");
    assert_eq!(daemon_status_text(Some(false)), "已是最新。");
    assert_eq!(daemon_status_text(None), "检测中…");
    assert_eq!(
        daemon_info_text(None, Some(false)).as_deref(),
        Some("未在运行（新建终端时会自动拉起）")
    );
    assert_eq!(daemon_info_text(None, None), None);
    assert_eq!(daemon_upgrade_button(Some(true), false), Some(("无缝升级", true)));
    assert_eq!(daemon_upgrade_button(Some(true), true), Some(("升级中…", false)));
    assert_eq!(daemon_upgrade_button(Some(false), false), None);
}

#[test]
fn leftovers_are_counted() {
    let scan = Some(CleanupScan {
        legacy_prompts: 1,
        legacy_task_files: 2,
        legacy_worktree_dirs: u32::MAX,
    });
    assert_eq!(
        cleanup_summary(&scan),
        "发现 4294967298 处残留：遗留 prompt 文件 1 个、旧版任务文件 2 个、\
         旧版 worktree 目录 4294967295 个"
    );
    assert!(cleanup_is_offered(&scan));
    assert_eq!(cleanup_summary(&None), "还没扫描");
    assert!(!cleanup_is_offered(&None));
    assert_eq!(cleanup_message(3), "已清理 3 项");
    assert_eq!(runtime_checked_at_text(None), "尚未检测");
    assert_eq!(runtime_checked_at_text(Some(4)), "刚刚检测");
    assert_eq!(runtime_checked_at_text(Some(59)), "59 秒前检测");
    assert_eq!(runtime_checked_at_text(Some(3599)), "59 分钟前检测");
    assert_eq!(runtime_checked_at_text(Some(7200)), "2 小时前检测");
}

#[test]
fn buttons_say_for_a_while_what_they_did() {
    let mut flash = CopyFlash::new();
    assert_eq!(flash.flash_btn_label("a", "复制", 0), "复制");
    flash.flash_button("a".to_string(), String::new(), 100);
    assert_eq!(flash.flash_btn_label("a", "复制", 2099), "已复制 ✓");
    assert_eq!(flash.flash_btn_label("a", "复制", 2100), "复制");
    assert_eq!(flash.flash_btn_label("b", "复制", 100), "复制");
    flash.flash_button("b".to_string(), "好了".to_string(), 200);
    assert_eq!(flash.flash_btn_label("b", "复制", 300), "好了");
    assert!(!flash.flash_is_over("a"));
    assert!(flash.flash_is_over("b"));
    assert_eq!(flash.until, None);
}

#[test]
fn hooks_are_described() {
    assert_eq!(
        hooks_status_line("First", true, false, true),
        "First 已接入  ·  Copilot 未接入  ·  Codex 已接入  ·  Grok 已接入"
    );
    assert_eq!(install_hooks_label(true), "重新安装 hooks");
    assert_ne!(install_hooks_label(false), install_hooks_label(true));
    assert!(hooks_message(true, &Err("denied".to_string())).contains("denied"));
    assert_ne!(hooks_message(true, &Ok(())), hooks_message(false, &Ok(())));
}

fn choices() -> Vec<Choice> {
    [("low", "低"), ("high", "高")]
        .iter()
        .map(|(id, label)| Choice { id: id.to_string(), label: label.to_string() })
        .collect()
}

#[test]
fn efforts_come_from_the_model() {
    let view = DshEffortView::Choices {
        efforts: choices(),
        default_effort: Some("low".to_string()),
    };
    let section = render_dsh_effort_section(&view, "high");
    assert_eq!(section.buttons[0].label, "低（默认）");
    assert!(!section.buttons[0].marked && section.buttons[1].marked);
    assert_eq!(section.note, None);
    let stale = render_dsh_effort_section(&view, "max");
    assert!(stale.alarming);
    assert_eq!(
        stale.note.as_deref(),
        Some("已保存的「max」不在该模型支持的档位内，请重新选择。")
    );
    assert!(!render_dsh_effort_section(&view, "").alarming);
    for view in [
        DshEffortView::Loading,
        DshEffortView::Unavailable,
        DshEffortView::Unknown("x".to_string()),
    ] {
        let section = render_dsh_effort_section(&view, "high");
        assert!(section.buttons.is_empty() && section.note.is_some());
    }
}

#[test]
fn models_are_offered_where_they_are_known() {
    let section =
        render_dsh_model_choices_section(&DshModelChoicesView::Choices(choices()), "low");
    assert!(section.buttons[0].marked && !section.buttons[1].marked);
    let unknown = DshModelChoicesView::Unknown("x".to_string());
    assert_eq!(
        render_dsh_model_choices_section(&unknown, "").note.as_deref(),
        Some("未能读取可选模型（x）；请直接填写模型 ID。")
    );
    let ready = Some(ModelDiscoveryState::Ready(choices()));
    let found = render_model_discovery_section(&ready, &vec!["high".to_string()], 0);
    assert!(!found.buttons[0].marked && found.buttons[1].marked);
    assert_eq!(
        found.note.as_deref(),
        Some("该端点提供 2 个模型，点击添加到下方列表：")
    );
    let failed = Some(ModelDiscoveryState::Failed("x".to_string()));
    assert!(render_model_discovery_section(&failed, &Vec::new(), 0).alarming);
    assert_ne!(
        render_model_discovery_section(&None, &Vec::new(), 0),
        render_model_discovery_section(&None, &Vec::new(), 1)
    );
}

#[test]
fn changes_are_drawn_together() {
    let mut refresh = SettingsRefresh::new();
    assert_eq!(refresh.request_refresh(false, 1000), RefreshStep::Refresh);
    let step = refresh.request_refresh(false, 1100);
    assert_eq!(step, RefreshStep::Wait { delay: 150, generation: 1 });
    assert_eq!(refresh.request_refresh(false, 1120), RefreshStep::Nothing);
    assert!(refresh.wait_is_over(1, 1250));
    assert!(!refresh.wait_is_over(1, 1250));
    assert_eq!(
        refresh.request_refresh(false, 1300),
        RefreshStep::Wait { delay: 200, generation: 2 }
    );
    assert_eq!(refresh.request_refresh(true, 1310), RefreshStep::Refresh);
    assert!(!refresh.wait_is_over(2, 1500));
    assert_eq!(refresh.request_refresh(false, 1560), RefreshStep::Refresh);
}

#[test]
fn language_models_are_set_up_in_fields() {
    let mut config = LlmConfig {
        enabled: true,
        base_url: "u".to_string(),
        api_key: "k".to_string(),
        model: "m".to_string(),
        persona: "p".to_string(),
    };
    let inputs = init_llm_inputs(&config);
    let values: Vec<&str> = inputs.iter().map(|input| input.value.as_str()).collect();
    assert_eq!(values, ["u", "k", "m", "p"]);
    assert!(inputs[1].masked && !inputs[0].masked);
    assert!(inputs[3].multi_line);
    assert_eq!(inputs[2].placeholder, "deepseek-chat");
    config.update_llm_config(LlmField::Model, "n".to_string());
    assert_eq!((config.model.as_str(), config.base_url.as_str()), ("n", "u"));
    config.set_enabled(false);
    assert!(!config.enabled);
    assert!(saves_on(InputEvent::Change) && saves_on(InputEvent::Blur));
    assert!(!saves_on(InputEvent::Focus) && !saves_on(InputEvent::PressEnter));
    assert!(inputs_are_stale(None, 0));
    assert!(inputs_are_stale(Some(1), 2));
    assert!(!inputs_are_stale(Some(2), 2));
}

#[test]
fn lists_are_edited_in_rows_of_fields() {
    let config = LaunchConfig {
        version: 14,
        entries: vec![LaunchEntry {
            label: "Pi".to_string(),
            command: "pi --approve".to_string(),
            provider: None,
        }],
    };
    let rows = init_launch_inputs(&config, "first");
    assert_eq!(rows.len(), 1);
    assert_eq!(rows[0].first_placeholder, "显示名称");
    assert_eq!(rows[0].first_value, "Pi");
    assert_eq!(rows[0].second_placeholder, "启动命令，如 first");
    assert_eq!(rows[0].second_value, "pi --approve");
    let mut profiles = Vec::new();
    add_profile_with_id(&mut profiles, "x".to_string(), "pi");
    set_profile_dir(&mut profiles, "x", "/w".to_string());
    let rows = init_profile_inputs(&profiles, "first");
    assert_eq!(rows[0].first_value, "新 workspace");
    assert_eq!(rows[0].second_placeholder, "workspace 目录，如 ~/.first-quant");
    assert_eq!(rows[0].second_value, "/w");
}

#[test]
fn windows_take_on_only_what_changed() {
    let mut window = SettingsWindow::new();
    let mut looks = Appearance::default();
    let first = window.take_on(&looks);
    assert_eq!(first.ui_font_px, Some(DEFAULT_UI_FONT_PX));
    assert_eq!(
        first.background,
        Some((WindowBackgroundAppearance::Blurred, GlassStyle::Regular))
    );
    assert_eq!(first.opacity_percent, Some(100));
    let second = window.take_on(&looks);
    assert_eq!((second.ui_font_px, second.background, second.opacity_percent), (None, None, None));
    looks.glass_style = GlassStyle::Clear;
    let third = window.take_on(&looks);
    assert_eq!(third.background, Some((WindowBackgroundAppearance::Blurred, GlassStyle::Clear)));
    assert_eq!(third.ui_font_px, None);
}

#[test]
fn figures_are_measured_while_they_are_shown() {
    let mut window = SettingsWindow::new();
    let nothing = HudStep { frame_time: None, sample_memory: false };
    assert_eq!(window.update_debug_hud(10), nothing);
    window.toggle_debug_hud();
    assert_eq!(
        window.update_debug_hud(1000),
        HudStep { frame_time: None, sample_memory: true }
    );
    window.memory_sampled(Some(7));
    assert_eq!(
        window.update_debug_hud(1016),
        HudStep { frame_time: Some(16), sample_memory: false }
    );
    assert_eq!(
        window.update_debug_hud(2000),
        HudStep { frame_time: Some(984), sample_memory: true }
    );
    assert_eq!(window.memory, Some(7));
    window.toggle_debug_hud();
    assert_eq!(window.memory, None);
}

#[test]
fn variants_of_agents_are_edited() {
    let mut profiles: Vec<AcpProfile> = Vec::new();
    add_profile(&mut profiles, "pi");
    add_profile(&mut profiles, "pi");
    assert_eq!(profiles[0].id.len(), 36);
    assert_ne!(profiles[0].id, profiles[1].id);
    assert_eq!(profiles[0].label, "新 workspace");
    remove_profile(&mut profiles, 5);
    remove_profile(&mut profiles, 1);
    assert_eq!(profiles.len(), 1);
    add_profile_with_id(&mut profiles, "x".to_string(), "pi");
    set_profile_label(&mut profiles, "x", "Work".to_string());
    set_profile_dir(&mut profiles, "x", "/w".to_string());
    set_profile_kind(&mut profiles, 1, "codex".to_string());
    set_profile_label(&mut profiles, "gone", "y".to_string());
    let expected = AcpProfile {
        id: "x".to_string(),
        kind_id: "codex".to_string(),
        label: "Work".to_string(),
        workspace_dir: "/w".to_string(),
    };
    assert_eq!(profiles[1], expected);
    assert_eq!(profiles[0].label, "新 workspace");
}

#[test]
fn shortcuts_are_listed() {
    let sections = shortcut_sections();
    let titles: Vec<&str> = sections.iter().map(|section| section.title).collect();
    assert_eq!(titles, ["全局", "会话与面板", "编辑与导航"]);
    assert_eq!(sections[0].shortcuts[0].keys, ["⌘,"]);
    assert_eq!(sections[1].shortcuts[1].keys, ["⌘↑", "⌘↓"]);
}

#[test]
fn strips_the_range_without_tripping_over_the_scope() {
    assert_eq!(
        Workspace::plugin_name_of("@smelt-ai/dsh-acp-rich@^0.1.7"),
        "@smelt-ai/dsh-acp-rich"
    );
    assert_eq!(Workspace::plugin_name_of("@smelt-ai/dsh-acp-rich"), "@smelt-ai/dsh-acp-rich");
    assert_eq!(Workspace::plugin_name_of("yaml@latest"), "yaml");
}

#[test]
fn derives_a_name_that_says_which_provider_it_belongs_to() {
    assert_eq!(
        Workspace::custom_provider_credential_ref("", "acme-gateway", true),
        "ACME_GATEWAY_API_KEY"
    );
    assert_eq!(
        Workspace::custom_provider_credential_ref("", "modelsight", true),
        "MODELSIGHT_API_KEY"
    );
}

#[test]
fn keeps_the_name_a_configured_provider_already_uses() {
    assert_eq!(
        Workspace::custom_provider_credential_ref("OPEN_API_KEY", "modelsight", true),
        "OPEN_API_KEY"
    );
    assert_eq!(
        Workspace::custom_provider_credential_ref("OPEN_API_KEY", "renamed", false),
        "OPEN_API_KEY"
    );
}

#[test]
fn leaves_an_unauthenticated_endpoint_without_a_reference() {
    assert_eq!(Workspace::custom_provider_credential_ref("", "local-llama", false), "");
}

#[test]
fn notifications_are_switched_one_by_one() {
    let mut config = AgentUiConfig {
        notify_approval: true,
        notify_input: true,
        notify_success: true,
        notify_failure: true,
        notify_terminal_bell: true,
        agent_hooks_enabled: false,
    };
    config.set_notify(NotificationKind::Success, false);
    assert!(!notifies(Some(&config), NotificationKind::Success));
    for kind in [
        NotificationKind::Approval,
        NotificationKind::Input,
        NotificationKind::Failure,
        NotificationKind::TerminalBell,
    ] {
        assert!(notifies(Some(&config), kind));
        config.set_notify(kind, false);
        assert!(!notifies(Some(&config), kind));
        config.set_notify(kind, true);
    }
    assert!(notifies(None, NotificationKind::Success));
    config.hooks_requested(true);
    assert!(config.agent_hooks_enabled);
    assert!(!notifies(Some(&config), NotificationKind::Success));
}

#[test]
fn providers_share_no_credential_by_accident() {
    let name = |id: &str| Workspace::custom_provider_credential_ref("", id, true);
    assert_ne!(name("acme"), name("acme2"));
    assert_ne!(name("acme-a"), name("acme-b"));
    assert_eq!(name("acme-gateway"), name("Acme_Gateway"));
}
