//! What the settings say of the background service, of leftovers, of agents and of hooks.

use vstd::prelude::*;

use crate::session_list::clock;
use crate::session_list::clock::LocalMoment;
use crate::text;
use crate::text::{chars_of, concat, decimal_text, join, same_text};

verus! {

/// A span of time in its two largest units.
pub open spec fn uptime(seconds: nat) -> Seq<char> {
    let days = seconds / 86400;
    let hours = seconds % 86400 / 3600;
    let minutes = seconds % 3600 / 60;
    if days > 0 {
        text::decimal(days) + " 天 "@ + text::decimal(hours) + " 小时"@
    } else if hours > 0 {
        text::decimal(hours) + " 小时 "@ + text::decimal(minutes) + " 分"@
    } else if minutes > 0 {
        text::decimal(minutes) + " 分钟"@
    } else {
        text::decimal(seconds) + " 秒"@
    }
}

/// A span of time in its two largest units.
pub fn fmt_uptime(secs: u64) -> (r: String)
    ensures
        r@ == uptime(secs as nat),
{
    let days: u64 = secs / 86400;
    let hours: u64 = secs % 86400 / 3600;
    let minutes: u64 = secs % 3600 / 60;
    if days > 0 {
        let mut out: String = concat(decimal_text(days).as_str(), " 天 ");
        out.append(decimal_text(hours).as_str());
        out.append(" 小时");
        out
    } else if hours > 0 {
        let mut out: String = concat(decimal_text(hours).as_str(), " 小时 ");
        out.append(decimal_text(minutes).as_str());
        out.append(" 分");
        out
    } else if minutes > 0 {
        concat(decimal_text(minutes).as_str(), " 分钟")
    } else {
        concat(decimal_text(secs).as_str(), " 秒")
    }
}

/// What the background service says of itself. An old one says less.
#[derive(Debug, PartialEq, Eq)]
pub struct DaemonInfo {
    pub version: Option<String>,
    pub pid: Option<u32>,
    pub started_at: Option<u64>,
    pub session_count: Option<u64>,
}

/// A list with one more text, where there is one.
pub open spec fn with_part(parts: Seq<Seq<char>>, part: Option<Seq<char>>) -> Seq<Seq<char>> {
    match part {
        Some(part) => parts.push(part),
        None => parts,
    }
}

/// When the background service was started, and for how long it has run.
pub open spec fn started_text(started: u64, moment: Option<LocalMoment>, now: u64) -> Seq<char> {
    let at = match moment {
        Some(moment) => clock::day_time_text(moment),
        None => "?"@,
    };
    let run: nat = if now > started {
        (now - started) as nat
    } else {
        0
    };
    "启动于 "@ + at + "（已运行 "@ + uptime(run) + "）"@
}

/// What is said of the background service, part by part. What it does not say of itself is left
/// out.
pub open spec fn info_parts(info: DaemonInfo, moment: Option<LocalMoment>, now: u64) -> Seq<
    Seq<char>,
> {
    let version = match info.version {
        Some(version) => Some("v"@ + version@),
        None => None,
    };
    let pid = match info.pid {
        Some(pid) => Some("PID "@ + text::decimal(pid as nat)),
        None => None,
    };
    let started = match info.started_at {
        Some(started) => Some(started_text(started, moment, now)),
        None => None,
    };
    let sessions = match info.session_count {
        Some(count) => Some(text::decimal(count as nat) + " 个会话"@),
        None => None,
    };
    with_part(with_part(with_part(with_part(seq![], version), pid), started), sessions)
}

fn push_part(parts: &mut Vec<String>, part: String)
    ensures
        text::texts(final(parts)@) == text::texts(old(parts)@).push(part@),
{
    parts.push(part);
    assert(text::texts(parts@) =~= text::texts(old(parts)@).push(part@));
}

/// What is said of the background service, where it is known when it was started by the clock at
/// hand. Times are in seconds.
pub fn daemon_line(info: &DaemonInfo, moment: Option<LocalMoment>, now: u64) -> (r: String)
    ensures
        r@ == text::joined(info_parts(*info, moment, now), " · "@),
{
    let mut parts: Vec<String> = Vec::new();
    assert(text::texts(parts@) =~= seq![]);
    if let Some(version) = &info.version {
        push_part(&mut parts, concat("v", version.as_str()));
    }
    if let Some(pid) = info.pid {
        push_part(&mut parts, concat("PID ", decimal_text(pid as u64).as_str()));
    }
    if let Some(started) = info.started_at {
        let at: String = match moment {
            Some(moment) => moment.day_and_time(),
            None => "?".to_owned(),
        };
        let run: u64 = if now > started {
            now - started
        } else {
            0
        };
        let mut part: String = concat("启动于 ", at.as_str());
        part.append("（已运行 ");
        part.append(fmt_uptime(run).as_str());
        part.append("）");
        push_part(&mut parts, part);
    }
    if let Some(count) = info.session_count {
        push_part(&mut parts, concat(decimal_text(count).as_str(), " 个会话"));
    }
    join(&parts, " · ")
}

/// What is said of the background service. When it was started is told in the time zone of the
/// machine.
pub fn daemon_info_line(info: &DaemonInfo, now: u64) -> (r: String)
    ensures
        exists|moment: Option<LocalMoment>|
            r@ == text::joined(#[trigger] info_parts(*info, moment, now), " · "@)
                && match info.started_at {
                Some(started) => clock::may_be_at(moment, started as i64 as int),
                None => moment is None,
            },
{
    let moment: Option<LocalMoment> = match info.started_at {
        Some(started) => {
            let seconds: i64 = #[verifier::truncate] (started as i64);
            LocalMoment::at(seconds)
        },
        None => None,
    };
    let r: String = daemon_line(info, moment, now);
    assert(r@ == text::joined(info_parts(*info, moment, now), " · "@));
    r
}

/// What is said of the version of the background service. `None` says that it is not known yet.
pub fn daemon_status_text(outdated: Option<bool>) -> (r: &'static str)
    ensures
        r@ == match outdated {
            Some(true) => "版本落后于当前安装包，升级守护后新功能/修复才生效。"@,
            Some(false) => "已是最新。"@,
            None => "检测中…"@,
        },
{
    match outdated {
        Some(true) => "版本落后于当前安装包，升级守护后新功能/修复才生效。",
        Some(false) => "已是最新。",
        None => "检测中…",
    }
}

/// What is said of the background service where it may not run. Once one has looked for it and
/// found nothing, that is said too.
pub fn daemon_info_text(line: Option<String>, outdated: Option<bool>) -> (r: Option<String>)
    ensures
        match line {
            Some(line) => r == Some(line),
            None => match outdated {
                Some(_) => r matches Some(text) && text@ == "未在运行（新建终端时会自动拉起）"@,
                None => r is None,
            },
        },
{
    match line {
        Some(line) => Some(line),
        None => match outdated {
            Some(_) => Some("未在运行（新建终端时会自动拉起）".to_owned()),
            None => None,
        },
    }
}

/// The button for an upgrade of the background service: what it is called and whether it can be
/// pressed. There is none where there is nothing to upgrade.
pub fn daemon_upgrade_button(outdated: Option<bool>, upgrading: bool) -> (r: Option<
    (&'static str, bool),
>)
    ensures
        r is Some <==> outdated == Some(true),
        r matches Some(button) ==> button.0@ == (if upgrading {
            "升级中…"@
        } else {
            "无缝升级"@
        }) && button.1 == !upgrading,
{
    match outdated {
        Some(true) => if upgrading {
            Some(("升级中…", false))
        } else {
            Some(("无缝升级", true))
        },
        _ => None,
    }
}

/// What was left behind by older versions.
#[derive(Clone, Copy, Debug, PartialEq, Eq, Structural)]
pub struct CleanupScan {
    pub legacy_prompts: u32,
    pub legacy_task_files: u32,
    pub legacy_worktree_dirs: u32,
}

impl CleanupScan {
    /// How much was left behind.
    pub open spec fn total(self) -> nat {
        (self.legacy_prompts + self.legacy_task_files + self.legacy_worktree_dirs) as nat
    }

    /// How much was left behind.
    pub fn total_items(&self) -> (r: u64)
        ensures
            r == self.total(),
    {
        self.legacy_prompts as u64 + self.legacy_task_files as u64
            + self.legacy_worktree_dirs as u64
    }
}

/// What is said of what was left behind.
pub open spec fn cleanup_words(scan: Option<CleanupScan>) -> Seq<char> {
    match scan {
        None => "还没扫描"@,
        Some(found) => if found.total() == 0 {
            "没有发现残留数据"@
        } else {
            "发现 "@ + text::decimal(found.total()) + " 处残留：遗留 prompt 文件 "@ + text::decimal(
                found.legacy_prompts as nat,
            ) + " 个、旧版任务文件 "@ + text::decimal(found.legacy_task_files as nat)
                + " 个、旧版 worktree 目录 "@ + text::decimal(found.legacy_worktree_dirs as nat)
                + " 个"@
        },
    }
}

/// What is said of what was left behind.
pub fn cleanup_summary(scan: &Option<CleanupScan>) -> (r: String)
    ensures
        r@ == cleanup_words(*scan),
{
    match scan {
        None => "还没扫描".to_owned(),
        Some(found) => if found.total_items() == 0 {
            "没有发现残留数据".to_owned()
        } else {
            let mut out: String = concat("发现 ", decimal_text(found.total_items()).as_str());
            out.append(" 处残留：遗留 prompt 文件 ");
            out.append(decimal_text(found.legacy_prompts as u64).as_str());
            out.append(" 个、旧版任务文件 ");
            out.append(decimal_text(found.legacy_task_files as u64).as_str());
            out.append(" 个、旧版 worktree 目录 ");
            out.append(decimal_text(found.legacy_worktree_dirs as u64).as_str());
            out.append(" 个");
            out
        },
    }
}

/// Whether there is something to clean up.
pub fn cleanup_is_offered(scan: &Option<CleanupScan>) -> (r: bool)
    ensures
        r == (*scan matches Some(found) && found.total() > 0),
{
    match scan {
        Some(found) => found.total_items() > 0,
        None => false,
    }
}

/// What is said after cleaning up.
pub fn cleanup_message(removed: u64) -> (r: String)
    ensures
        r@ == "已清理 "@ + text::decimal(removed as nat) + " 项"@,
{
    let mut out: String = concat("已清理 ", decimal_text(removed).as_str());
    out.append(" 项");
    out
}

/// When agents were last looked for, in words.
pub open spec fn checked_words(elapsed: Option<u64>) -> Seq<char> {
    match elapsed {
        None => "尚未检测"@,
        Some(seconds) => if seconds < 5 {
            "刚刚检测"@
        } else if seconds < 60 {
            text::decimal(seconds as nat) + " 秒前检测"@
        } else if seconds < 3600 {
            text::decimal((seconds / 60) as nat) + " 分钟前检测"@
        } else {
            text::decimal((seconds / 3600) as nat) + " 小时前检测"@
        },
    }
}

/// When agents were last looked for, in words. The time since is in seconds.
pub fn runtime_checked_at_text(elapsed: Option<u64>) -> (r: String)
    ensures
        r@ == checked_words(elapsed),
{
    match elapsed {
        None => "尚未检测".to_owned(),
        Some(seconds) => if seconds < 5 {
            "刚刚检测".to_owned()
        } else if seconds < 60 {
            concat(decimal_text(seconds).as_str(), " 秒前检测")
        } else if seconds < 3600 {
            concat(decimal_text(seconds / 60).as_str(), " 分钟前检测")
        } else {
            concat(decimal_text(seconds / 3600).as_str(), " 小时前检测")
        },
    }
}

/// How long, in milliseconds, a button says what it has done.
pub const FLASH_TIME: u64 = 2000;

/// A button that says for a while what it has done. Times are in milliseconds.
#[derive(Debug, PartialEq, Eq)]
pub struct CopyFlash {
    pub id: String,
    pub label: String,
    pub until: Option<u64>,
}

/// What a button is called: what it has done, for a while, else what it does.
pub open spec fn flash_words(flash: CopyFlash, id: Seq<char>, idle: Seq<char>, now: u64) -> Seq<
    char,
> {
    if flash.id@ == id && (flash.until matches Some(until) && now < until) {
        if flash.label@.len() == 0 {
            "已复制 ✓"@
        } else {
            flash.label@
        }
    } else {
        idle
    }
}

impl CopyFlash {
    /// No button says anything.
    pub fn new() -> (r: Self)
        ensures
            r.id@.len() == 0,
            r.label@.len() == 0,
            r.until is None,
    {
        CopyFlash { id: String::new(), label: String::new(), until: None }
    }

    /// Lets a button say what it has done.
    pub fn flash_button(&mut self, id: String, label: String, now: u64)
        requires
            now + FLASH_TIME <= u64::MAX,
        ensures
            final(self).id == id,
            final(self).label == label,
            final(self).until == Some((now + FLASH_TIME) as u64),
    {
        self.id = id;
        self.label = label;
        self.until = Some(now + FLASH_TIME);
    }

    /// Lets a button say again what it does, unless another one has begun to say something.
    pub fn flash_is_over(&mut self, id: &str) -> (r: bool)
        ensures
            r == (old(self).id@ == id@),
            if r {
                &&& final(self).id@.len() == 0
                &&& final(self).label@.len() == 0
                &&& final(self).until is None
            } else {
                *final(self) == *old(self)
            },
    {
        if same_text(self.id.as_str(), id) {
            *self = CopyFlash::new();
            true
        } else {
            false
        }
    }

    /// What a button is called.
    pub fn flash_btn_label(&self, id: &str, idle: &str, now: u64) -> (r: String)
        ensures
            r@ == flash_words(*self, id@, idle@, now),
    {
        let shown: bool = same_text(self.id.as_str(), id) && match self.until {
            Some(until) => now < until,
            None => false,
        };
        if !shown {
            idle.to_owned()
        } else if chars_of(self.label.as_str()).len() == 0 {
            "已复制 ✓".to_owned()
        } else {
            self.label.clone()
        }
    }
}

/// Whether an agent reports to Smelt, in words.
pub open spec fn joined_words(installed: bool) -> Seq<char> {
    if installed {
        "已接入"@
    } else {
        "未接入"@
    }
}

fn joined_text(installed: bool) -> (r: &'static str)
    ensures
        r@ == joined_words(installed),
{
    if installed {
        "已接入"
    } else {
        "未接入"
    }
}

/// Which agents report to Smelt. Grok reads the hooks of the first one, whose name is `title`.
pub fn hooks_status_line(title: &str, claude: bool, copilot: bool, codex: bool) -> (r: String)
    ensures
        r@ == title@ + " "@ + joined_words(claude) + "  ·  Copilot "@ + joined_words(copilot)
            + "  ·  Codex "@ + joined_words(codex) + "  ·  Grok "@ + joined_words(claude),
{
    let mut out: String = concat(title, " ");
    out.append(joined_text(claude));
    out.append("  ·  Copilot ");
    out.append(joined_text(copilot));
    out.append("  ·  Codex ");
    out.append(joined_text(codex));
    out.append("  ·  Grok ");
    out.append(joined_text(claude));
    out
}

/// What the button that installs hooks is called.
pub fn install_hooks_label(installed: bool) -> (r: &'static str)
    ensures
        r@ == if installed {
            "重新安装 hooks"@
        } else {
            "安装 hooks"@
        },
{
    if installed {
        "重新安装 hooks"
    } else {
        "安装 hooks"
    }
}

/// What is said after hooks were installed, or removed: that they were, or why not.
pub fn hooks_message(install: bool, result: &Result<(), String>) -> (r: String)
    ensures
        r@ == match *result {
            Ok(_) => if install {
                "Agent hooks 已安装"@
            } else {
                "Smelt hooks 已移除"@
            },
            Err(error) => (if install {
                "安装失败："@
            } else {
                "移除失败："@
            }) + error@,
        },
{
    match result {
        Ok(_) => if install {
            "Agent hooks 已安装".to_owned()
        } else {
            "Smelt hooks 已移除".to_owned()
        },
        Err(error) => if install {
            concat("安装失败：", error.as_str())
        } else {
            concat("移除失败：", error.as_str())
        },
    }
}

/// A service whose clock runs ahead has run for no time yet.
pub proof fn clocks_that_run_ahead_do_no_harm(started: u64, moment: Option<LocalMoment>, now: u64)
    requires
        started >= now,
    ensures
        started_text(started, moment, now) == started_text(started, moment, started),
{
}

/// A button that was pressed says so right away, and says what it does again when the time is
/// over.
pub proof fn flashes_end(flash: CopyFlash, idle: Seq<char>, now: u64, later: u64)
    requires
        now + FLASH_TIME <= u64::MAX,
        flash.until == Some((now + FLASH_TIME) as u64),
        flash.label@.len() > 0,
    ensures
        flash_words(flash, flash.id@, idle, now) == flash.label@,
        later >= now + FLASH_TIME ==> flash_words(flash, flash.id@, idle, later) == idle,
{
}

} // verus!
