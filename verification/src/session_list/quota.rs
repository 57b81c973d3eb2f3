//! How much of their quotas the accounts at providers have used.

use vstd::prelude::*;

use crate::session_list::clock;
use crate::session_list::clock::LocalMoment;
use crate::text;
use crate::text::{concat, decimal_text, join};

verus! {

/// One of the windows of time that a quota is counted in. The share that is used is in
/// millionths of a percent.
#[derive(Debug, PartialEq, Eq)]
pub struct ProviderQuotaWindow {
    pub label: String,
    pub used_percent: i64,
    pub resets_at_ms: Option<u64>,
    pub reset_after_seconds: Option<u64>,
}

/// A quota of so much a period. Amounts are in millionths of the unit.
#[derive(Debug, PartialEq, Eq)]
pub struct CopilotQuota {
    pub unit: String,
    pub remaining: i64,
    pub limit: Option<i64>,
    pub used: Option<i64>,
}

/// The amounts of a quota of so much a period in words: how much of it is used, its limit where
/// it has one, and what remains.
#[derive(Debug, PartialEq, Eq)]
pub struct AmountTexts {
    pub used: String,
    pub limit: String,
    pub remaining: String,
}

/// What is known of a quota.
#[derive(Debug, PartialEq, Eq)]
pub enum ProviderQuotaData {
    Windows(Vec<ProviderQuotaWindow>),
    Copilot(CopilotQuota),
}

/// What is known of a quota, and why the last attempt to learn more failed.
#[derive(Debug, PartialEq, Eq)]
pub struct QuotaStatus {
    pub quota: Option<ProviderQuotaData>,
    pub error: Option<String>,
}

/// How alarming a quota is.
#[derive(Clone, Copy, Debug, PartialEq, Eq, Structural)]
pub enum QuotaColor {
    Red,
    Yellow,
    Muted,
}

/// The row of a quota.
#[derive(Debug, PartialEq, Eq)]
pub struct ProviderQuotaRow {
    pub text: String,
    pub color: QuotaColor,
    pub hint: String,
}

/// The colour of a quota by the share that is used.
pub open spec fn color_of(used_percent: int) -> QuotaColor {
    if used_percent >= 90000000 {
        QuotaColor::Red
    } else if used_percent >= 75000000 {
        QuotaColor::Yellow
    } else {
        QuotaColor::Muted
    }
}

/// The colour of a quota by the share that is used.
pub fn quota_color(used_percent: i64) -> (r: QuotaColor)
    ensures
        r == color_of(used_percent as int),
{
    if used_percent >= 90000000 {
        QuotaColor::Red
    } else if used_percent >= 75000000 {
        QuotaColor::Yellow
    } else {
        QuotaColor::Muted
    }
}

/// A span of time in its two largest units. What is less than a minute has no words.
pub open spec fn until_text(seconds: int) -> Option<Seq<char>> {
    let days = seconds / 86400;
    let hours = seconds % 86400 / 3600;
    let minutes = seconds % 3600 / 60;
    if seconds < 60 {
        None
    } else if days > 0 {
        Some(
            text::decimal(days as nat) + "天"@ + if hours > 0 {
                text::decimal(hours as nat) + "小时"@
            } else {
                seq![]
            },
        )
    } else if hours > 0 {
        Some(
            text::decimal(hours as nat) + "小时"@ + if minutes > 0 {
                text::decimal(minutes as nat) + "分"@
            } else {
                seq![]
            },
        )
    } else {
        Some(text::decimal(minutes as nat) + "分"@)
    }
}

/// A text that may be there, as characters.
pub open spec fn characters(text: Option<String>) -> Option<Seq<char>> {
    match text {
        Some(text) => Some(text@),
        None => None,
    }
}

/// A span of time in its two largest units. What is over, or less than a minute away, has no
/// words.
pub fn quota_until_text(seconds: i64) -> (r: Option<String>)
    ensures
        characters(r) == until_text(seconds as int),
{
    if seconds < 60 {
        return None;
    }
    let days: i64 = seconds / 86400;
    let hours: i64 = seconds % 86400 / 3600;
    let minutes: i64 = seconds % 3600 / 60;
    if days > 0 {
        let mut out: String = concat(decimal_text(days as u64).as_str(), "天");
        let ghost first = out@;
        if hours > 0 {
            out.append(decimal_text(hours as u64).as_str());
            out.append("小时");
            assert(out@ =~= first + (text::decimal(hours as nat) + "小时"@));
        } else {
            assert(out@ =~= first + Seq::<char>::empty());
        }
        Some(out)
    } else if hours > 0 {
        let mut out: String = concat(decimal_text(hours as u64).as_str(), "小时");
        let ghost first = out@;
        if minutes > 0 {
            out.append(decimal_text(minutes as u64).as_str());
            out.append("分");
            assert(out@ =~= first + (text::decimal(minutes as nat) + "分"@));
        } else {
            assert(out@ =~= first + Seq::<char>::empty());
        }
        Some(out)
    } else {
        Some(concat(decimal_text(minutes as u64).as_str(), "分"))
    }
}

/// How many whole seconds lie ahead until a time, both in milliseconds; none where it is past.
pub open spec fn seconds_ahead(at_ms: int, now_ms: int) -> int {
    if at_ms > now_ms {
        (at_ms - now_ms) / 1000
    } else {
        0
    }
}

/// When a window starts anew: at a moment that is known, else after a time that is known.
pub open spec fn reset_text(
    window: ProviderQuotaWindow,
    moment: Option<LocalMoment>,
    now_ms: int,
) -> Seq<char> {
    if window.resets_at_ms is Some && moment is Some {
        let at = "重置 "@ + clock::day_time_text(moment->0);
        match until_text(seconds_ahead(window.resets_at_ms->0 as i64 as int, now_ms)) {
            Some(until) => at + "（还有 "@ + until + "）"@,
            None => at,
        }
    } else if window.reset_after_seconds is Some {
        match until_text(window.reset_after_seconds->0 as i64 as int) {
            Some(until) => "约 "@ + until + " 后重置"@,
            None => "即将重置"@,
        }
    } else {
        "重置时间未知"@
    }
}

/// When a window starts anew, where the moment is known already.
pub fn window_reset_text(
    window: &ProviderQuotaWindow,
    moment: Option<LocalMoment>,
    now_ms: i64,
) -> (r: String)
    ensures
        r@ == reset_text(*window, moment, now_ms as int),
{
    if let (Some(millis), Some(moment)) = (window.resets_at_ms, moment) {
        let at_ms: i64 = #[verifier::truncate] (millis as i64);
        let ahead: i64 = if at_ms > now_ms {
            ((at_ms as i128 - now_ms as i128) / 1000) as i64
        } else {
            0
        };
        let mut out: String = concat("重置 ", moment.day_and_time().as_str());
        if let Some(until) = quota_until_text(ahead) {
            out.append("（还有 ");
            out.append(until.as_str());
            out.append("）");
        }
        return out;
    }
    if let Some(seconds) = window.reset_after_seconds {
        let ahead: i64 = #[verifier::truncate] (seconds as i64);
        return match quota_until_text(ahead) {
            Some(until) => {
                let mut out: String = concat("约 ", until.as_str());
                out.append(" 后重置");
                out
            },
            None => "即将重置".to_owned(),
        };
    }
    "重置时间未知".to_owned()
}

/// The whole seconds in a number of milliseconds, rounded down.
fn whole_seconds(millis: i64) -> (r: i64)
    ensures
        r == (millis as int) / 1000,
{
    if millis >= 0 {
        millis / 1000
    } else {
        let r: i64 = -((-(millis + 1)) / 1000) - 1;
        assert(1000 * r <= millis < 1000 * r + 1000);
        r
    }
}

/// The moment may be the one at which a window starts anew, in some time zone. There is none
/// where that is not reported.
pub open spec fn is_reset_moment(window: ProviderQuotaWindow, moment: Option<LocalMoment>) -> bool {
    match window.resets_at_ms {
        Some(millis) => clock::may_be_at(moment, (millis as i64 as int) / 1000),
        None => moment is None,
    }
}

/// A text says when a window starts anew, in some time zone.
pub open spec fn is_reset_text(window: ProviderQuotaWindow, reset: Seq<char>, now_ms: int) -> bool {
    exists|moment: Option<LocalMoment>|
        reset == #[trigger] reset_text(window, moment, now_ms) && is_reset_moment(window, moment)
}

/// Texts say when windows start anew.
pub open spec fn are_reset_texts(
    windows: Seq<ProviderQuotaWindow>,
    resets: Seq<String>,
    now_ms: int,
) -> bool {
    &&& resets.len() == windows.len()
    &&& forall|i: int|
        0 <= i < windows.len() ==> is_reset_text(windows[i], (#[trigger] resets[i])@, now_ms)
}

/// When a window starts anew. The moment is told in the time zone of the machine.
pub fn quota_reset_text(window: &ProviderQuotaWindow, now_ms: i64) -> (r: String)
    ensures
        is_reset_text(*window, r@, now_ms as int),
{
    let moment: Option<LocalMoment> = match window.resets_at_ms {
        Some(millis) => {
            let at_ms: i64 = #[verifier::truncate] (millis as i64);
            LocalMoment::at(whole_seconds(at_ms))
        },
        None => None,
    };
    let r: String = window_reset_text(window, moment, now_ms);
    assert(r@ == reset_text(*window, moment, now_ms as int));
    r
}

/// A share in millionths of a percent as a whole percentage, rounded to the nearest one.
pub open spec fn rounded(used_percent: int) -> nat {
    if used_percent <= 0 {
        0
    } else if (used_percent + 500000) / 1000000 > u32::MAX {
        u32::MAX as nat
    } else {
        ((used_percent + 500000) / 1000000) as nat
    }
}

fn round_percent(used_percent: i64) -> (r: u64)
    ensures
        r == rounded(used_percent as int),
{
    if used_percent <= 0 {
        return 0;
    }
    let whole: i128 = (used_percent as i128 + 500000) / 1000000;
    if whole > 4294967295 {
        4294967295
    } else {
        whole as u64
    }
}

/// The largest share that any window has used.
pub open spec fn worst(windows: Seq<ProviderQuotaWindow>) -> int
    decreases windows.len(),
{
    if windows.len() == 0 {
        0
    } else {
        let before = worst(windows.drop_last());
        if windows.last().used_percent > before {
            windows.last().used_percent as int
        } else {
            before
        }
    }
}

/// What is said of a window.
pub open spec fn window_hint(label: Seq<char>, window: ProviderQuotaWindow, reset: Seq<char>) -> Seq<
    char,
> {
    label + " "@ + window.label@ + " 窗口已用 "@ + text::decimal(
        rounded(window.used_percent as int),
    ) + "%，"@ + reset + "。"@
}

/// What is said of each window.
pub open spec fn window_hints(
    label: Seq<char>,
    windows: Seq<ProviderQuotaWindow>,
    resets: Seq<String>,
) -> Seq<Seq<char>> {
    Seq::new(windows.len(), |i: int| window_hint(label, windows[i], resets[i]@))
}

/// What is said of an attempt to learn more that failed.
pub open spec fn stale_hint(label: Seq<char>, error: Option<String>) -> Seq<char> {
    match error {
        Some(error) => " "@ + label + " 额度刷新失败，仍显示上次成功结果："@ + error@ + "。"@,
        None => seq![],
    }
}

/// How much of a quota is used: what is reported, else what is missing from the limit.
pub open spec fn used_amount(quota: CopilotQuota) -> int {
    match quota.used {
        Some(used) => used as int,
        None => if quota.limit is Some && quota.limit->0 > quota.remaining {
            quota.limit->0 - quota.remaining
        } else {
            0
        },
    }
}

/// How much of a quota is used, in millionths of its unit.
pub fn quota_used(quota: &CopilotQuota) -> (r: i128)
    ensures
        r == used_amount(*quota),
        -18446744073709551615 <= r <= 18446744073709551615,
{
    match quota.used {
        Some(used) => used as i128,
        None => match quota.limit {
            Some(limit) if limit > quota.remaining => limit as i128 - quota.remaining as i128,
            _ => 0,
        },
    }
}

/// The share of a limit that is used, in millionths of a percent. It is nothing at least and
/// everything at most.
pub open spec fn used_share(used: int, limit: int) -> int {
    let whole = if limit < 1000000 {
        1000000
    } else {
        limit
    };
    if used <= 0 {
        0
    } else if used >= whole {
        100000000
    } else {
        used * 100000000 / whole
    }
}

/// The texts and the colour of the row of a quota.
pub open spec fn row_of(
    label: Seq<char>,
    status: QuotaStatus,
    resets: Seq<String>,
    amounts: AmountTexts,
) -> Option<(Seq<char>, QuotaColor, Seq<char>)> {
    match status.quota {
        None => None,
        Some(ProviderQuotaData::Windows(windows)) => Some(
            (
                text::decimal(rounded(worst(windows@))) + "%"@,
                color_of(worst(windows@)),
                text::joined(window_hints(label, windows@, resets), " "@) + stale_hint(
                    label,
                    status.error,
                ),
            ),
        ),
        Some(ProviderQuotaData::Copilot(quota)) => match quota.limit {
            Some(limit) => {
                let share = used_share(used_amount(quota), limit as int);
                Some(
                    (
                        text::decimal(rounded(share)) + "%"@,
                        color_of(share),
                        label + " 本周期已用 "@ + amounts.used@ + " / "@ + amounts.limit@ + " "@ + quota.unit@ + "（"@ + text::decimal(rounded(share)) + "%）。"@
                            + stale_hint(label, status.error),
                    ),
                )
            },
            None => Some(
                (
                    amounts.remaining@,
                    QuotaColor::Muted,
                    label + " 本周期剩余 "@ + amounts.remaining@ + " "@ + quota.unit@
                        + "。"@ + stale_hint(label, status.error),
                ),
            ),
        },
    }
}

fn worst_share(windows: &Vec<ProviderQuotaWindow>) -> (r: i64)
    ensures
        r == worst(windows@),
{
    let mut worst_yet: i64 = 0;
    let mut i: usize = 0;
    while i < windows.len()
        invariant
            i <= windows.len(),
            worst_yet == worst(windows@.take(i as int)),
        decreases windows.len() - i,
    {
        assert(windows@.take(i + 1).drop_last() =~= windows@.take(i as int));
        if windows[i].used_percent > worst_yet {
            worst_yet = windows[i].used_percent;
        }
        i = i + 1;
    }
    assert(windows@.take(i as int) =~= windows@);
    worst_yet
}

fn append_stale_hint(hint: &mut String, label: &str, error: &Option<String>)
    ensures
        final(hint)@ == old(hint)@ + stale_hint(label@, *error),
{
    match error {
        Some(error) => {
            hint.append(" ");
            hint.append(label);
            hint.append(" 额度刷新失败，仍显示上次成功结果：");
            hint.append(error.as_str());
            hint.append("。");
            assert(hint@ =~= old(hint)@ + stale_hint(label@, Some(*error)));
        },
        None => {
            assert(hint@ =~= old(hint)@ + Seq::<char>::empty());
        },
    }
}

fn share_of(used: i128, limit: i64) -> (r: i64)
    requires
        -18446744073709551615 <= used <= 18446744073709551615,
    ensures
        r == used_share(used as int, limit as int),
        0 <= r <= 100000000,
{
    let whole: i128 = if limit < 1000000 {
        1000000
    } else {
        limit as i128
    };
    if used <= 0 {
        0
    } else if used >= whole {
        100000000
    } else {
        assert(0 <= used * 100000000 / whole as int <= 100000000) by (nonlinear_arith)
            requires
                0 < used < whole,
        ;
        (used * 100000000 / whole) as i64
    }
}

/// The row of a quota, where it is known when each window starts anew and how the amounts are
/// written.
pub fn quota_row(
    label: &str,
    status: &QuotaStatus,
    resets: &Vec<String>,
    amounts: &AmountTexts,
) -> (r: Option<ProviderQuotaRow>)
    requires
        status.quota matches Some(ProviderQuotaData::Windows(windows)) ==> windows@.len()
            == resets@.len(),
    ensures
        match r {
            Some(row) => row_of(label@, *status, resets@, *amounts) == Some(
                (row.text@, row.color, row.hint@),
            ),
            None => row_of(label@, *status, resets@, *amounts) is None,
        },
{
    match &status.quota {
        None => None,
        Some(ProviderQuotaData::Windows(windows)) => {
            let worst_used: i64 = worst_share(windows);
            let mut hints: Vec<String> = Vec::new();
            let mut i: usize = 0;
            while i < windows.len()
                invariant
                    windows@.len() == resets@.len(),
                    i <= windows.len(),
                    text::texts(hints@) == window_hints(label@, windows@, resets@).take(i as int),
                decreases windows.len() - i,
            {
                let mut hint: String = concat(label, " ");
                hint.append(windows[i].label.as_str());
                hint.append(" 窗口已用 ");
                hint.append(decimal_text(round_percent(windows[i].used_percent)).as_str());
                hint.append("%，");
                hint.append(resets[i].as_str());
                hint.append("。");
                assert(hint@ == window_hint(label@, windows@[i as int], resets@[i as int]@));
                let ghost before = hints@;
                hints.push(hint);
                assert(text::texts(hints@) =~= text::texts(before).push(hint@));
                i = i + 1;
                assert(text::texts(hints@) =~= window_hints(label@, windows@, resets@).take(
                    i as int,
                ));
            }
            assert(window_hints(label@, windows@, resets@).take(i as int) =~= window_hints(
                label@,
                windows@,
                resets@,
            ));
            let mut hint: String = join(&hints, " ");
            append_stale_hint(&mut hint, label, &status.error);
            let text: String = concat(decimal_text(round_percent(worst_used)).as_str(), "%");
            Some(ProviderQuotaRow { text, color: quota_color(worst_used), hint })
        },
        Some(ProviderQuotaData::Copilot(quota)) => match quota.limit {
            Some(limit) => {
                let used: i128 = quota_used(quota);
                let share: i64 = share_of(used, limit);
                let percent: String = decimal_text(round_percent(share));
                let mut hint: String = concat(label, " 本周期已用 ");
                hint.append(amounts.used.as_str());
                hint.append(" / ");
                hint.append(amounts.limit.as_str());
                hint.append(" ");
                hint.append(quota.unit.as_str());
                hint.append("（");
                hint.append(percent.as_str());
                hint.append("%）。");
                append_stale_hint(&mut hint, label, &status.error);
                Some(
                    ProviderQuotaRow {
                        text: concat(percent.as_str(), "%"),
                        color: quota_color(share),
                        hint,
                    },
                )
            },
            None => {
                let mut hint: String = concat(label, " 本周期剩余 ");
                hint.append(amounts.remaining.as_str());
                hint.append(" ");
                hint.append(quota.unit.as_str());
                hint.append("。");
                append_stale_hint(&mut hint, label, &status.error);
                Some(
                    ProviderQuotaRow {
                        text: amounts.remaining.clone(),
                        color: QuotaColor::Muted,
                        hint,
                    },
                )
            },
        },
    }
}

/// The row of a quota. Nothing is shown of a quota that is not known.
pub fn provider_quota_row(
    label: &str,
    status: &QuotaStatus,
    amounts: &AmountTexts,
    now_ms: i64,
) -> (r: Option<ProviderQuotaRow>)
    ensures
        r is Some <==> status.quota is Some,
        r matches Some(row) ==> exists|resets: Seq<String>|
            #[trigger] row_of(label@, *status, resets, *amounts) == Some(
                (row.text@, row.color, row.hint@),
            )
                && (status.quota->0 matches ProviderQuotaData::Windows(windows)
                ==> are_reset_texts(windows@, resets, now_ms as int)),
{
    let mut resets: Vec<String> = Vec::new();
    if let Some(ProviderQuotaData::Windows(windows)) = &status.quota {
        let mut i: usize = 0;
        while i < windows.len()
            invariant
                i <= windows.len(),
                resets@.len() == i,
                forall|k: int|
                    0 <= k < i ==> is_reset_text(
                        windows@[k],
                        (#[trigger] resets@[k])@,
                        now_ms as int,
                    ),
            decreases windows.len() - i,
        {
            resets.push(quota_reset_text(&windows[i], now_ms));
            i = i + 1;
        }
    }
    quota_row(label, status, &resets, amounts)
}

/// Where it is reported when a window starts anew, within the years of four digits, the row tells
/// that moment, and not the time after which the window starts anew.
pub proof fn known_resets_are_told(window: ProviderQuotaWindow, reset: Seq<char>, now_ms: int)
    requires
        window.resets_at_ms matches Some(millis) && clock::in_four_digit_years(
            (millis as i64 as int) / 1000,
        ),
        is_reset_text(window, reset, now_ms),
    ensures
        exists|moment: LocalMoment| #[trigger]
            is_reset_moment(window, Some(moment)) && text::has_prefix(
                reset,
                "重置 "@ + clock::day_time_text(moment),
            ),
{
    let moment = choose|moment: Option<LocalMoment>|
        reset == #[trigger] reset_text(window, moment, now_ms) && is_reset_moment(window, moment);
    let known = moment->0;
    let at = "重置 "@ + clock::day_time_text(known);
    assert(is_reset_moment(window, Some(known)));
    match until_text(seconds_ahead(window.resets_at_ms->0 as i64 as int, now_ms)) {
        Some(until) => {
            assert(reset.take(at.len() as int) =~= at);
        },
        None => {
            assert(reset.take(at.len() as int) =~= at);
        },
    }
}

proof fn lemma_worst(windows: Seq<ProviderQuotaWindow>, i: int)
    requires
        0 <= i < windows.len(),
    ensures
        worst(windows) >= windows[i].used_percent,
    decreases windows.len(),
{
    if i < windows.len() - 1 {
        lemma_worst(windows.drop_last(), i);
    }
}

/// No window has used more than the share that the row shows and is coloured by.
pub proof fn rows_show_the_worst_window(windows: Seq<ProviderQuotaWindow>, i: int)
    requires
        0 <= i < windows.len(),
    ensures
        worst(windows) >= windows[i].used_percent,
        color_of(worst(windows)) is Muted ==> color_of(windows[i].used_percent as int) is Muted,
        color_of(windows[i].used_percent as int) is Red ==> color_of(worst(windows)) is Red,
{
    lemma_worst(windows, i);
}

/// A quota is shown as used by nothing less than none and nothing more than all of it.
pub proof fn shares_stay_within_the_limit(used: int, limit: int)
    ensures
        0 <= used_share(used, limit) <= 100000000,
        rounded(used_share(used, limit)) <= 100,
{
    let whole = if limit < 1000000 {
        1000000
    } else {
        limit
    };
    if 0 < used < whole {
        assert(0 <= used * 100000000 / whole <= 100000000) by (nonlinear_arith)
            requires
                0 < used < whole,
        ;
    }
}

} // verus!
