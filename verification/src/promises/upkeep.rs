//! What the pages for updates, the service, storage and the window itself promise.

use vstd::prelude::*;

use crate::settings::appearance::{Appearance, WindowBackgroundAppearance};
use crate::session_list::clock::LocalMoment;
use crate::settings::maintenance;
use crate::settings::maintenance::{
    cleanup_is_offered, cleanup_message, cleanup_summary, daemon_info_text, daemon_line,
    daemon_status_text, daemon_upgrade_button, fmt_uptime, hooks_message, hooks_status_line,
    install_hooks_label, runtime_checked_at_text, CleanupScan, CopyFlash, DaemonInfo,
};
use crate::settings::refresh::{RefreshStep, SettingsRefresh};
use crate::settings::shortcuts;
use crate::settings::shortcuts::{shortcut_sections, ShortcutSection};
use crate::settings::update::{
    apply_auto_install, apply_update_channel, download_is_sized, load_update_settings,
    settings_from_snapshot, snapshot_from_settings, DownloadProgress, ProgressBar, UpdateChannel,
    UpdateSettings, UpdateSettingsSnapshot, UpdateStatus,
};
use crate::settings::window::{HudStep, SettingsWindow, WindowChanges};
use crate::text;

verus! {

/// A time is told in its two greatest units from an hour on, in minutes from a minute on, and in
/// seconds below.
pub proof fn uptimes_are_told_in_two_units(
    secs: u64,
    r: String,
    days: nat,
    hours: nat,
    minutes: nat,
    rest: nat,
)
    requires
        call_ensures(fmt_uptime, (secs,), r),
        secs == days * 86400 + hours * 3600 + minutes * 60 + rest,
        hours < 24,
        minutes < 60,
        rest < 60,
    ensures
        days > 0 ==> r@ == text::decimal(days) + " 天 "@ + text::decimal(hours) + " 小时"@,
        days == 0 && hours > 0 ==> r@ == text::decimal(hours) + " 小时 "@ + text::decimal(minutes)
            + " 分"@,
        days == 0 && hours == 0 && minutes > 0 ==> r@ == text::decimal(minutes) + " 分钟"@,
        days == 0 && hours == 0 && minutes == 0 ==> r@ == text::decimal(rest) + " 秒"@,
{
    let s = secs as int;
    assert(s / 86400 == days) by (nonlinear_arith)
        requires
            s == days * 86400 + hours * 3600 + minutes * 60 + rest,
            hours < 24,
            minutes < 60,
            rest < 60,
    ;
    assert(s % 86400 == hours * 3600 + minutes * 60 + rest);
    assert((hours * 3600 + minutes * 60 + rest) / 3600 == hours);
    assert(s % 3600 == minutes * 60 + rest);
    assert((minutes * 60 + rest) / 60 == minutes);
}

/// A service that tells all of itself is described by its version, its process, its start and how
/// long ago that was, and its sessions, in this order.
pub proof fn services_are_described_in_full(
    info: &DaemonInfo,
    moment: LocalMoment,
    now: u64,
    r: String,
    day: String,
    ago: u64,
    run: String,
)
    requires
        call_ensures(daemon_line, (info, Some(moment), now), r),
        info.version is Some,
        info.pid is Some,
        info.started_at is Some,
        info.session_count is Some,
        call_ensures(LocalMoment::day_and_time, (&moment,), day),
        now >= info.started_at->0,
        ago == now - info.started_at->0,
        call_ensures(fmt_uptime, (ago,), run),
    ensures
        r@ == "v"@ + (info.version->0)@ + " · "@ + ("PID "@ + text::decimal(info.pid->0 as nat))
            + " · "@ + ("启动于 "@ + day@ + "（已运行 "@ + run@ + "）"@) + " · "@ + (text::decimal(
            info.session_count->0 as nat,
        ) + " 个会话"@),
{
    reveal_with_fuel(text::joined, 5);
    let parts = maintenance::info_parts(*info, Some(moment), now);
    assert(parts.len() == 4);
    assert(parts.drop_last().len() == 3);
    assert(parts.drop_last().drop_last().len() == 2);
    assert(parts.drop_last().drop_last().drop_last().len() == 1);
}

/// A service that tells nothing is described by nothing, and one that tells one thing by that.
pub proof fn services_tell_what_they_know(info: &DaemonInfo, now: u64, r: String)
    requires
        call_ensures(daemon_line, (info, None, now), r),
        info.started_at is None,
    ensures
        info.version is None && info.pid is None && info.session_count is None ==> r@.len() == 0,
        info.version is Some && info.pid is None && info.session_count is None ==> r@ == "v"@ + (
        info.version->0)@,
        info.version is None && info.pid is Some && info.session_count is None ==> r@ == "PID "@
            + text::decimal(info.pid->0 as nat),
        info.version is None && info.pid is None && info.session_count is Some ==> r@
            == text::decimal(info.session_count->0 as nat) + " 个会话"@,
{
    reveal_with_fuel(text::joined, 3);
}

/// Only an outdated service is offered an upgrade, once at a time; what is not known yet is said
/// to be looked up.
pub proof fn outdated_services_are_upgraded(
    outdated: Option<bool>,
    status: &'static str,
    line: Option<String>,
    info: Option<String>,
    upgrading: bool,
    button: Option<(&'static str, bool)>,
)
    requires
        call_ensures(daemon_status_text, (outdated,), status),
        call_ensures(daemon_info_text, (line, outdated), info),
        call_ensures(daemon_upgrade_button, (outdated, upgrading), button),
    ensures
        outdated == Some(true) ==> status@
            == "版本落后于当前安装包，升级守护后新功能/修复才生效。"@,
        outdated == Some(false) ==> status@ == "已是最新。"@,
        outdated is None ==> status@ == "检测中…"@,
        line is Some ==> info is Some && (info->0)@ == (line->0)@,
        line is None && outdated is None ==> info is None,
        line is None && outdated is Some ==> info is Some && (info->0)@
            == "未在运行（新建终端时会自动拉起）"@,
        button is Some <==> outdated == Some(true),
        button matches Some(shown) ==> (shown.1 <==> !upgrading) && (upgrading ==> shown.0@
            == "升级中…"@) && (!upgrading ==> shown.0@ == "无缝升级"@),
{
}

/// The summary counts what is left over, each kind and all together; cleaning up is offered where
/// there is anything, and tells how much it removed.
pub proof fn leftovers_are_counted(
    scan: CleanupScan,
    total: u64,
    summary: String,
    unknown: String,
    offered: bool,
    unscanned: bool,
    removed: u64,
    message: String,
)
    requires
        call_ensures(CleanupScan::total_items, (&scan,), total),
        call_ensures(cleanup_summary, (&Some(scan),), summary),
        call_ensures(cleanup_summary, (&None,), unknown),
        call_ensures(cleanup_is_offered, (&Some(scan),), offered),
        call_ensures(cleanup_is_offered, (&None,), unscanned),
        call_ensures(cleanup_message, (removed,), message),
    ensures
        total == scan.legacy_prompts + scan.legacy_task_files + scan.legacy_worktree_dirs,
        offered <==> total > 0,
        !unscanned,
        unknown@ == "还没扫描"@,
        total == 0 ==> summary@ == "没有发现残留数据"@,
        total > 0 ==> summary@ == "发现 "@ + text::decimal(total as nat)
            + " 处残留：遗留 prompt 文件 "@ + text::decimal(scan.legacy_prompts as nat)
            + " 个、旧版任务文件 "@ + text::decimal(scan.legacy_task_files as nat)
            + " 个、旧版 worktree 目录 "@ + text::decimal(scan.legacy_worktree_dirs as nat)
            + " 个"@,
        message@ == "已清理 "@ + text::decimal(removed as nat) + " 项"@,
{
}

/// How long ago something was checked is told in seconds, minutes or hours, whichever fits.
pub proof fn checks_are_told_by_their_age(elapsed: Option<u64>, r: String)
    requires
        call_ensures(runtime_checked_at_text, (elapsed,), r),
    ensures
        elapsed is None ==> r@ == "尚未检测"@,
        elapsed matches Some(s) ==> (s < 5 ==> r@ == "刚刚检测"@),
        elapsed matches Some(s) ==> (5 <= s < 60 ==> r@ == text::decimal(s as nat)
            + " 秒前检测"@),
        forall|m: nat|
            #![trigger text::decimal(m)]
            (elapsed matches Some(s) && 60 <= s < 3600 && m * 60 <= s < m * 60 + 60) ==> r@
                == text::decimal(m) + " 分钟前检测"@,
        forall|h: nat|
            #![trigger text::decimal(h)]
            (elapsed matches Some(s) && s >= 3600 && h * 3600 <= s < h * 3600 + 3600) ==> r@
                == text::decimal(h) + " 小时前检测"@,
{
}

/// A button that was pressed says so for two seconds, and then what it said before; other buttons
/// say what they always do.
pub proof fn pressed_buttons_say_so_for_two_seconds(
    flash: &mut CopyFlash,
    id: String,
    label: String,
    now: u64,
    later: u64,
    after: &CopyFlash,
    other: &str,
    idle: &str,
    shown: String,
)
    requires
        now + 2000 <= u64::MAX,
        call_ensures(CopyFlash::flash_button, (flash, id, label, now), ()),
        *after == *final(flash),
        call_ensures(CopyFlash::flash_btn_label, (after, other, idle, later), shown),
    ensures
        other@ != id@ ==> shown@ == idle@,
        other@ == id@ && later >= now + 2000 ==> shown@ == idle@,
        other@ == id@ && later < now + 2000 && label@.len() > 0 ==> shown@ == label@,
        other@ == id@ && later < now + 2000 && label@.len() == 0 ==> shown@ == "已复制 ✓"@,
{
}

/// A flash that is over is forgotten, unless another button was pressed since.
pub proof fn only_their_own_end_ends_flashes(flash: &mut CopyFlash, id: &str, r: bool)
    requires
        call_ensures(CopyFlash::flash_is_over, (flash, id), r),
    ensures
        r <==> old(flash).id@ == id@,
        r ==> final(flash).until is None && final(flash).id@.len() == 0 && final(flash).label@.len() == 0,
        !r ==> *final(flash) == *old(flash),
{
}

/// The line on hooks says of each agent whether it is connected; two agents share one answer.
pub proof fn the_hooks_line_names_every_agent(
    title: &str,
    first: bool,
    copilot: bool,
    codex: bool,
    r: String,
    label: &'static str,
)
    requires
        call_ensures(hooks_status_line, (title, first, copilot, codex), r),
        call_ensures(install_hooks_label, (first,), label),
    ensures
        ({
            let word = |on: bool| {
                if on {
                    "已接入"@
                } else {
                    "未接入"@
                }
            };
            r@ == title@ + " "@ + word(first) + "  ·  Copilot "@ + word(copilot) + "  ·  Codex "@
                + word(codex) + "  ·  Grok "@ + word(first)
        }),
        first ==> label@ == "重新安装 hooks"@,
        !first ==> label@ == "安装 hooks"@,
{
}

/// What became of installing or removing hooks is told, with the reason where it failed.
pub proof fn hooks_outcomes_are_told(install: bool, result: &Result<(), String>, r: String)
    requires
        call_ensures(hooks_message, (install, result), r),
    ensures
        result is Ok && install ==> r@ == "Agent hooks 已安装"@,
        result is Ok && !install ==> r@ == "Smelt hooks 已移除"@,
        *result matches Err(error) ==> (install ==> r@ == "安装失败："@ + error@) && (!install ==> r@
            == "移除失败："@ + error@),
{
}

/// Settings that are stored and read back are the same; without stored ones updates are those
/// that were released, and install themselves.
pub proof fn update_settings_survive_storing(
    settings: &UpdateSettings,
    stored: UpdateSettingsSnapshot,
    read: UpdateSettings,
    loaded: UpdateSettings,
    fresh: UpdateSettings,
)
    requires
        call_ensures(snapshot_from_settings, (settings,), stored),
        call_ensures(settings_from_snapshot, (&stored,), read),
        call_ensures(load_update_settings, (&Some(stored),), loaded),
        call_ensures(load_update_settings, (&None,), fresh),
    ensures
        read == *settings,
        loaded == *settings,
        stored.channel@ == if settings.channel is Dev {
            "dev"@
        } else {
            "prod"@
        },
        fresh.channel is Prod && fresh.auto_install,
{
    reveal_strlit("dev");
    reveal_strlit("prod");
    assert("dev"@.len() != "prod"@.len());
}

/// A channel that is not known is the one of releases.
pub proof fn unknown_channels_are_released(stored: &UpdateSettingsSnapshot, r: UpdateSettings)
    requires
        call_ensures(settings_from_snapshot, (stored,), r),
    ensures
        r.channel is Dev <==> stored.channel@ == "dev"@,
        r.auto_install == stored.auto_install,
{
}

/// Each switch changes its own setting.
pub proof fn update_switches_change_one_thing(
    one: &mut UpdateSettings,
    two: &mut UpdateSettings,
    channel: UpdateChannel,
    auto_install: bool,
    total: Option<u64>,
    sized: bool,
)
    requires
        call_ensures(apply_update_channel, (one, channel), ()),
        call_ensures(apply_auto_install, (two, auto_install), ()),
        call_ensures(download_is_sized, (total,), sized),
    ensures
        final(one).channel == channel && final(one).auto_install == old(one).auto_install,
        final(two).auto_install == auto_install && final(two).channel == old(two).channel,
        sized <==> total is Some && total->0 != 0,
{
}

/// While an update is looked for, loaded or installed nothing else can be started, and the button
/// says what goes on; only then is there anything to wait for, and a bar where its end is known or
/// not.
pub proof fn updates_say_what_goes_on(
    status: &UpdateStatus,
    words: String,
    busy: bool,
    ready: bool,
    label: &'static str,
    bar: Option<ProgressBar>,
)
    requires
        call_ensures(UpdateStatus::text, (status,), words),
        call_ensures(UpdateStatus::is_busy, (status,), busy),
        call_ensures(UpdateStatus::is_ready, (status,), ready),
        call_ensures(UpdateStatus::check_label, (status,), label),
        call_ensures(UpdateStatus::progress_bar, (status,), bar),
    ensures
        busy <==> !(status is Idle || status is UpToDate || status is ReadyToInstall
            || status is Failed),
        ready <==> status is ReadyToInstall,
        bar is Some <==> status is Downloading || status is Installing,
        bar == Some(ProgressBar::Share) <==> (*status matches UpdateStatus::Downloading {
            progress,
            ..
        } && progress is Sized),
        status is Checking ==> label@ == "检查中…"@ && words@ == "检查中…"@,
        status is Downloading ==> label@ == "下载中…"@,
        status is Installing ==> label@ == "安装中…"@,
        !busy ==> label@ == "检查更新"@,
        status is Idle ==> words@.len() == 0,
        status is UpToDate ==> words@ == "已是最新版本"@,
        *status matches UpdateStatus::Failed(error) ==> words@ == "检查失败："@ + error@,
        *status matches UpdateStatus::Installing { version } ==> words@ == "正在安装 v"@ + version@
            + "…"@,
        *status matches UpdateStatus::ReadyToInstall { version } ==> words@ == "新版本 v"@ + version@
            + " 已就绪，下次启动生效"@,
        *status matches UpdateStatus::Downloading { version, progress } ==> match progress {
            DownloadProgress::Sized { percent, received, total } => words@ == "正在下载 v"@ + version@
                + "… "@ + percent@ + "%（"@ + received@ + " / "@ + total@ + " MB）"@,
            DownloadProgress::Unsized { received } => words@ == "正在下载 v"@ + version@
                + "…（已下载 "@ + received@ + " MB）"@,
        },
{
}

/// A change is drawn at once on another page and at the first time, and otherwise a quarter of a
/// second after the last drawing at the earliest; one waiting is enough.
pub proof fn drawings_keep_their_distance(
    state: &mut SettingsRefresh,
    section_changed: bool,
    now: u64,
    step: RefreshStep,
)
    requires
        call_ensures(SettingsRefresh::request_refresh, (state, section_changed, now), step),
    ensures
        section_changed || old(state).last_refresh is None ==> step is Refresh,
        !section_changed ==> (old(state).last_refresh matches Some(last) ==> {
            &&& old(state).refresh_pending ==> step is Nothing
            &&& !old(state).refresh_pending && now >= last + 250 ==> step is Refresh
            &&& !old(state).refresh_pending && last <= now < last + 250 ==> (
            step matches RefreshStep::Wait { delay, generation } && now + delay == last + 250
                && generation == old(state).refresh_generation)
        }),
        step is Refresh ==> final(state).last_refresh == Some(now) && !final(state).refresh_pending && final(state).refresh_generation != old(state).refresh_generation,
        step is Wait ==> final(state).refresh_pending && final(state).last_refresh == old(state).last_refresh && final(state).refresh_generation == old(state).refresh_generation,
        step is Nothing ==> *final(state) == *old(state),
{
}

/// A wait that is over draws, unless a drawing overtook it.
pub proof fn waits_draw_unless_overtaken(
    state: &mut SettingsRefresh,
    generation: u64,
    now: u64,
    draws: bool,
    drawn: &mut SettingsRefresh,
    fresh: SettingsRefresh,
)
    requires
        call_ensures(SettingsRefresh::wait_is_over, (state, generation, now), draws),
        call_ensures(SettingsRefresh::refresh_snapshot, (drawn, now), ()),
        call_ensures(SettingsRefresh::new, (), fresh),
    ensures
        draws <==> old(state).refresh_pending && old(state).refresh_generation == generation,
        draws ==> final(state).last_refresh == Some(now) && !final(state).refresh_pending,
        !draws ==> *final(state) == *old(state),
        final(drawn).last_refresh == Some(now) && !final(drawn).refresh_pending,
        old(drawn).refresh_generation < u64::MAX ==> final(drawn).refresh_generation == old(drawn).refresh_generation + 1,
        old(drawn).refresh_generation == u64::MAX ==> final(drawn).refresh_generation == 0,
        fresh.last_refresh is None && !fresh.refresh_pending,
{
}

/// A window takes on what it does not have yet, and nothing that it has; it is wholly opaque and
/// blurred behind.
pub proof fn windows_take_on_what_is_new(
    window: &mut SettingsWindow,
    looks: &Appearance,
    r: WindowChanges,
)
    requires
        call_ensures(SettingsWindow::take_on, (window, looks), r),
    ensures
        r.ui_font_px == if old(window).applied_ui_font_px == Some(looks.ui_font_px) {
            None
        } else {
            Some(looks.ui_font_px)
        },
        r.background is None <==> old(window).applied_window_bg == Some(
            WindowBackgroundAppearance::Blurred,
        ) && old(window).applied_glass_style == Some(looks.glass_style),
        r.background matches Some(shown) ==> shown.0 is Blurred && shown.1 == looks.glass_style,
        r.opacity_percent == if old(window).applied_window_opacity == Some(100u32) {
            None
        } else {
            Some(100u32)
        },
        final(window).applied_ui_font_px == Some(looks.ui_font_px),
        final(window).applied_glass_style == Some(looks.glass_style),
        final(window).applied_window_opacity == Some(100u32),
        final(window).applied_window_bg == Some(WindowBackgroundAppearance::Blurred),
        final(window).debug_hud == old(window).debug_hud,
{
}

/// The display for developers measures frames and, once a second, memory; turned off or on it
/// forgets what it measured.
pub proof fn the_display_measures_while_it_is_on(
    window: &mut SettingsWindow,
    now: u64,
    step: HudStep,
    turned: &mut SettingsWindow,
    told: &mut SettingsWindow,
    memory: Option<u64>,
)
    requires
        call_ensures(SettingsWindow::update_debug_hud, (window, now), step),
        call_ensures(SettingsWindow::toggle_debug_hud, (turned,), ()),
        call_ensures(SettingsWindow::memory_sampled, (told, memory), ()),
    ensures
        !old(window).debug_hud ==> step.frame_time is None && !step.sample_memory && final(window).memory is None,
        old(window).debug_hud ==> {
            &&& step.frame_time is Some <==> old(window).last_frame is Some
            &&& old(window).last_frame matches Some(last) ==> (now >= last ==> step.frame_time
                == Some((now - last) as u64))
            &&& old(window).memory_sampled_at is None ==> step.sample_memory
            &&& old(window).memory_sampled_at matches Some(at) ==> (now >= at ==> (
            step.sample_memory <==> now - at >= 1000))
            &&& final(window).last_frame == Some(now)
            &&& step.sample_memory ==> final(window).memory_sampled_at == Some(now)
            &&& !step.sample_memory ==> final(window).memory_sampled_at == old(window).memory_sampled_at
        },
        final(turned).debug_hud == !old(turned).debug_hud,
        final(turned).memory is None && final(turned).last_frame is None,
        final(told).memory == memory && final(told).debug_hud == old(told).debug_hud,
{
}

/// The shortcut stands at the place of the section, with these keys.
pub open spec fn has_shortcut(
    section: ShortcutSection,
    at: int,
    label: Seq<char>,
    keys: Seq<Seq<char>>,
) -> bool {
    0 <= at < section.shortcuts@.len() && section.shortcuts@[at].label@ == label && text::texts(
        section.shortcuts@[at].keys@,
    ) == keys
}

/// The shortcuts are listed in three sections.
pub proof fn shortcuts_are_listed(r: Vec<ShortcutSection>)
    requires
        call_ensures(shortcut_sections, (), r),
    ensures
        r@.len() == 3,
        r@[0].title@ == "全局"@ && r@[0].shortcuts@.len() == 4,
        has_shortcut(r@[0], 0, "打开设置"@, seq!["⌘,"@]),
        has_shortcut(r@[0], 1, "打开命令面板"@, seq!["⌘K"@]),
        has_shortcut(r@[0], 2, "新建任务"@, seq!["⇧⌘N"@]),
        has_shortcut(r@[0], 3, "退出 Smelt"@, seq!["⌘Q"@]),
        r@[1].title@ == "会话与面板"@ && r@[1].shortcuts@.len() == 6,
        has_shortcut(r@[1], 0, "切换右侧面板"@, seq!["⌘B"@]),
        has_shortcut(r@[1], 1, "上一个 / 下一个会话"@, seq!["⌘↑"@, "⌘↓"@]),
        has_shortcut(r@[1], 2, "切换到第 1–9 个会话"@, seq!["⌘1…9"@]),
        has_shortcut(r@[1], 3, "上一个 / 下一个分屏"@, seq!["⌘["@, "⌘]"@]),
        has_shortcut(r@[1], 4, "左右分屏 / 上下分屏"@, seq!["⌘D"@, "⇧⌘D"@]),
        has_shortcut(r@[1], 5, "关闭当前分屏或会话"@, seq!["⌘W"@]),
        r@[2].title@ == "编辑与导航"@ && r@[2].shortcuts@.len() == 4,
        has_shortcut(r@[2], 0, "保存当前文件"@, seq!["⌘S"@]),
        has_shortcut(r@[2], 1, "上一个 / 下一个差异"@, seq!["⇧F7"@, "F7"@]),
        has_shortcut(r@[2], 2, "关闭预览或返回"@, seq!["Esc"@]),
        has_shortcut(r@[2], 3, "终端补全 / 反向补全"@, seq!["Tab"@, "⇧Tab"@]),
{
    assert forall|s: int| 0 <= s < 3 implies {
        &&& shortcuts::shortcut_views(r@[s].shortcuts@).len() == (
        #[trigger] r@[s]).shortcuts@.len()
        &&& forall|k: int|
            0 <= k < r@[s].shortcuts@.len() ==> shortcuts::shortcut_views(r@[s].shortcuts@)[k]
                == shortcuts::shortcut_view(#[trigger] r@[s].shortcuts@[k])
    } by {
    }
    let one = shortcuts::shortcut_views(r@[0].shortcuts@);
    let two = shortcuts::shortcut_views(r@[1].shortcuts@);
    let three = shortcuts::shortcut_views(r@[2].shortcuts@);
    assert(one == shortcuts::global_table());
    assert(two == shortcuts::session_table());
    assert(three == shortcuts::navigation_table());
}

/// Measuring leaves alone what the window has taken on, and a display that is off keeps nothing.
pub proof fn measuring_leaves_the_window_alone(
    window: &mut SettingsWindow,
    now: u64,
    step: HudStep,
    turned: &mut SettingsWindow,
    told: &mut SettingsWindow,
    memory: Option<u64>,
    fresh: SettingsWindow,
    flash: CopyFlash,
)
    requires
        call_ensures(SettingsWindow::update_debug_hud, (window, now), step),
        call_ensures(SettingsWindow::toggle_debug_hud, (turned,), ()),
        call_ensures(SettingsWindow::memory_sampled, (told, memory), ()),
        call_ensures(SettingsWindow::new, (), fresh),
        call_ensures(CopyFlash::new, (), flash),
    ensures
        final(window).applied_window_bg == old(window).applied_window_bg && final(window).applied_window_opacity == old(window).applied_window_opacity && final(window).applied_glass_style == old(window).applied_glass_style && final(window).applied_ui_font_px == old(window).applied_ui_font_px && final(window).debug_hud == old(window).debug_hud,
        old(window).debug_hud ==> final(window).memory == old(window).memory,
        !old(window).debug_hud ==> final(window).last_frame is None && final(window).memory_sampled_at is None,
        final(turned).memory_sampled_at is None && final(turned).applied_ui_font_px == old(turned).applied_ui_font_px && final(turned).applied_window_bg == old(turned).applied_window_bg
            && final(turned).applied_glass_style == old(turned).applied_glass_style && final(turned).applied_window_opacity == old(turned).applied_window_opacity,
        final(told).last_frame == old(told).last_frame && final(told).memory_sampled_at == old(told).memory_sampled_at && final(told).applied_ui_font_px == old(told).applied_ui_font_px,
        fresh.applied_window_bg is None && fresh.applied_window_opacity is None
            && fresh.applied_glass_style is None && fresh.applied_ui_font_px is None
            && !fresh.debug_hud,
        flash.until is None && flash.id@.len() == 0 && flash.label@.len() == 0,
{
}

} // verus!
