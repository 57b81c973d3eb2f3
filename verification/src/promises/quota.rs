//! What the display of quotas promises.

use vstd::prelude::*;

use crate::session_list::clock::LocalMoment;
use crate::session_list::quota;
use crate::session_list::quota::{
    quota_color, quota_row, quota_until_text, quota_used, window_reset_text, AmountTexts,
    CopilotQuota, ProviderQuotaData, ProviderQuotaRow, ProviderQuotaWindow, QuotaColor,
    QuotaStatus,
};
use crate::text;

verus! {

/// From nine tenths on a quota is red, from three quarters on yellow, and quiet below.
pub proof fn colors_warn_in_time(used_percent: i64, r: QuotaColor)
    requires
        call_ensures(quota_color, (used_percent,), r),
    ensures
        r is Red <==> used_percent >= 90000000,
        r is Yellow <==> 75000000 <= used_percent < 90000000,
        r is Muted <==> used_percent < 75000000,
{
}

/// A time is told in days and hours, in hours and minutes, or in minutes, with what is left over
/// below the smaller unit left out; less than a minute is not told.
pub proof fn times_are_told_in_two_units(
    seconds: i64,
    r: Option<String>,
    days: nat,
    hours: nat,
    minutes: nat,
    rest: nat,
)
    requires
        call_ensures(quota_until_text, (seconds,), r),
        seconds == days * 86400 + hours * 3600 + minutes * 60 + rest,
        hours < 24,
        minutes < 60,
        rest < 60,
    ensures
        r is None <==> days == 0 && hours == 0 && minutes == 0,
        days > 0 && hours > 0 ==> r->0@ == text::decimal(days) + "天"@ + (text::decimal(hours)
            + "小时"@),
        days > 0 && hours == 0 ==> r->0@ == text::decimal(days) + "天"@,
        days == 0 && hours > 0 && minutes > 0 ==> r->0@ == text::decimal(hours) + "小时"@ + (
        text::decimal(minutes) + "分"@),
        days == 0 && hours > 0 && minutes == 0 ==> r->0@ == text::decimal(hours) + "小时"@,
        days == 0 && hours == 0 && minutes > 0 ==> r->0@ == text::decimal(minutes) + "分"@,
{
    let s = seconds as int;
    assert(s / 86400 == days) by (nonlinear_arith)
        requires
            s == days * 86400 + hours * 3600 + minutes * 60 + rest,
            hours < 24,
            minutes < 60,
            rest < 60,
    ;
    assert(s % 86400 == hours * 3600 + minutes * 60 + rest);
    assert((hours * 3600 + minutes * 60 + rest) / 3600 == hours);
    assert(s % 3600 == minutes * 60 + rest);
    assert((minutes * 60 + rest) / 60 == minutes);
    assert(quota::characters(r) is Some <==> r is Some);
}

/// A time before now, and one within the next minute, is not told.
pub proof fn short_times_are_not_told(seconds: i64, r: Option<String>)
    requires
        call_ensures(quota_until_text, (seconds,), r),
    ensures
        r is None <==> seconds < 60,
{
    assert(quota::characters(r) is Some <==> r is Some);
}

/// What was used is what was reported, or what is missing from the limit; without either, nothing.
pub proof fn use_is_what_is_missing(quota: &CopilotQuota, r: i128)
    requires
        call_ensures(quota_used, (quota,), r),
    ensures
        quota.used matches Some(used) ==> r == used,
        quota.used is None ==> (quota.limit matches Some(limit) ==> r == if limit
            > quota.remaining {
            limit - quota.remaining
        } else {
            0
        }),
        quota.used is None && quota.limit is None ==> r == 0,
{
}

proof fn lemma_worst(windows: Seq<ProviderQuotaWindow>, i: int)
    requires
        0 <= i < windows.len(),
    ensures
        windows[i].used_percent <= quota::worst(windows),
        quota::worst(windows) >= 0,
    decreases windows.len(),
{
    if i < windows.len() - 1 {
        lemma_worst(windows.drop_last(), i);
    } else if windows.len() > 1 {
        lemma_worst(windows.drop_last(), 0);
    }
}

proof fn lemma_worst_is_one(windows: Seq<ProviderQuotaWindow>)
    ensures
        quota::worst(windows) == 0 || exists|i: int|
            0 <= i < windows.len() && (#[trigger] windows[i]).used_percent == quota::worst(windows),
    decreases windows.len(),
{
    if windows.len() > 0 {
        lemma_worst_is_one(windows.drop_last());
        if windows.last().used_percent > quota::worst(windows.drop_last()) {
            assert(windows[windows.len() - 1].used_percent == quota::worst(windows));
        } else if quota::worst(windows) != 0 {
            let i = choose|i: int|
                0 <= i < windows.drop_last().len() && (
                #[trigger] windows.drop_last()[i]).used_percent == quota::worst(
                    windows.drop_last(),
                );
            assert(windows[i].used_percent == quota::worst(windows));
        }
    }
}

/// Of several windows the row shows the one that is used the most, in whole percent, and in its
/// color.
pub proof fn rows_show_the_fullest_window(
    label: &str,
    status: &QuotaStatus,
    windows: Vec<ProviderQuotaWindow>,
    resets: &Vec<String>,
    amounts: &AmountTexts,
    r: Option<ProviderQuotaRow>,
    i: int,
)
    requires
        status.quota == Some(ProviderQuotaData::Windows(windows)),
        windows@.len() == resets@.len(),
        call_ensures(quota_row, (label, status, resets, amounts), r),
        0 <= i < windows@.len(),
        forall|k: int|
            0 <= k < windows@.len() ==> (#[trigger] windows@[k]).used_percent
                <= windows@[i].used_percent,
        windows@[i].used_percent >= 0,
    ensures
        r is Some,
        (r->0).color is Red <==> windows@[i].used_percent >= 90000000,
        (r->0).color is Yellow <==> 75000000 <= windows@[i].used_percent < 90000000,
        forall|whole: nat|
            #![trigger text::decimal(whole)]
            whole <= u32::MAX && whole * 1000000 - 500000 <= windows@[i].used_percent < whole * 1000000
                + 500000 ==> (r->0).text@ == text::decimal(whole) + "%"@,
{
    lemma_worst(windows@, i);
    lemma_worst_is_one(windows@);
    assert(quota::worst(windows@) == windows@[i].used_percent);
}

/// A share of a limit is shown in whole percent, never above a hundred and never below nothing.
pub proof fn shares_are_shown_in_percent(
    label: &str,
    status: &QuotaStatus,
    quota: CopilotQuota,
    limit: i64,
    resets: &Vec<String>,
    amounts: &AmountTexts,
    r: Option<ProviderQuotaRow>,
    used: i128,
)
    requires
        status.quota == Some(ProviderQuotaData::Copilot(quota)),
        quota.limit == Some(limit),
        call_ensures(quota_row, (label, status, resets, amounts), r),
        call_ensures(quota_used, (&quota,), used),
    ensures
        r is Some,
        used <= 0 ==> (r->0).text@ == text::decimal(0) + "%"@ && (r->0).color is Muted,
        limit >= 1000000 && used >= limit ==> (r->0).text@ == text::decimal(100) + "%"@
            && (r->0).color is Red,
        limit >= 1000000 && used * 10 >= limit * 9 ==> (r->0).color is Red,
        limit >= 1000000 && used * 4 >= limit * 3 && used * 10 < limit * 9 ==> (r->0).color
            is Yellow,
        limit >= 1000000 && used * 4 < limit * 3 ==> (r->0).color is Muted,
{
    let u = used as int;
    let l = limit as int;
    if l >= 1000000 && 0 < u < l {
        let share = u * 100000000 / l;
        lemma_share(u, l, share);
    }
}

proof fn lemma_share(used: int, limit: int, share: int)
    by (nonlinear_arith)
    requires
        0 < used < limit,
        limit >= 1000000,
        share == used * 100000000 / limit,
    ensures
        used * 10 >= limit * 9 <==> share >= 90000000,
        used * 4 >= limit * 3 <==> share >= 75000000,
        share >= 0,
{
}

/// Without a limit what remains is shown, quietly; without a quota nothing is.
pub proof fn without_a_limit_the_rest_is_shown(
    label: &str,
    status: &QuotaStatus,
    resets: &Vec<String>,
    amounts: &AmountTexts,
    r: Option<ProviderQuotaRow>,
)
    requires
        call_ensures(quota_row, (label, status, resets, amounts), r),
        status.quota matches Some(ProviderQuotaData::Windows(windows)) ==> windows@.len()
            == resets@.len(),
    ensures
        r is None <==> status.quota is None,
        status.quota matches Some(ProviderQuotaData::Copilot(quota)) ==> (quota.limit is None
            && status.error is None ==> r is Some && (r->0).text@ == amounts.remaining@
            && (r->0).color is Muted && (r->0).hint@ == label@ + " 本周期剩余 "@ + amounts.remaining@
            + " "@ + quota.unit@ + "。"@),
        status.quota is Some && status.error is Some ==> r is Some && ends_with(
            (r->0).hint@,
            " "@ + label@ + " 额度刷新失败，仍显示上次成功结果："@ + (status.error->0)@ + "。"@,
        ),
{
    if status.quota is Some && status.error is Some {
        let stale = " "@ + label@ + " 额度刷新失败，仍显示上次成功结果："@ + (status.error->0)@ + "。"@;
        assert(quota::stale_hint(label@, status.error) == stale);
        let hint = (r->0).hint@;
        match status.quota->0 {
            ProviderQuotaData::Windows(windows) => {
                let front = text::joined(quota::window_hints(label@, windows@, resets@), " "@);
                assert(hint == front + stale);
                assert(hint.skip(hint.len() - stale.len()) =~= stale);
            },
            ProviderQuotaData::Copilot(quota) => {
                assert(hint.skip(hint.len() - stale.len()) =~= stale);
            },
        }
    } else {
        match status.quota {
            Some(ProviderQuotaData::Copilot(known)) => {
                let front = label@ + " 本周期剩余 "@ + amounts.remaining@ + " "@ + known.unit@
                    + "。"@;
                assert(front + Seq::<char>::empty() =~= front);
            },
            _ => {},
        }
    }
}

/// The text ends with the other one.
pub open spec fn ends_with(text: Seq<char>, end: Seq<char>) -> bool {
    end.len() <= text.len() && text.skip(text.len() - end.len()) == end
}

/// A reset whose moment is known is told with its time, and with how far off it is where that is
/// a minute or more; otherwise it is told by the time left, and where neither is known that is
/// said.
pub proof fn resets_are_told(
    window: &ProviderQuotaWindow,
    moment: Option<LocalMoment>,
    now_ms: i64,
    r: String,
    left: Option<String>,
    day: String,
)
    requires
        call_ensures(window_reset_text, (window, moment, now_ms), r),
        window.reset_after_seconds matches Some(seconds) ==> seconds <= i64::MAX,
        call_ensures(
            quota_until_text,
            (match window.reset_after_seconds {
                Some(seconds) => seconds as i64,
                None => 0,
            },),
            left,
        ),
        moment matches Some(known) ==> call_ensures(LocalMoment::day_and_time, (&known,), day),
    ensures
        window.resets_at_ms is None && window.reset_after_seconds is None ==> r@
            == "重置时间未知"@,
        !(window.resets_at_ms is Some && moment is Some) && window.reset_after_seconds is Some
            && left is Some ==> r@ == "约 "@ + (left->0)@ + " 后重置"@,
        !(window.resets_at_ms is Some && moment is Some) && window.reset_after_seconds is Some
            && left is None ==> r@ == "即将重置"@,
        moment is Some ==> (window.resets_at_ms matches Some(at) ==> (at <= i64::MAX && at < now_ms
            + 60000 ==> r@ == "重置 "@ + day@)),
{
    assert(quota::characters(left) is Some <==> left is Some);
    if moment is Some && window.resets_at_ms is Some {
        let at = window.resets_at_ms->0;
        if at <= i64::MAX {
            assert(at as i64 as int == at);
        }
    }
}

/// The hint of one window tells how much of it is used, and when it is reset; those of several
/// follow each other.
pub proof fn hints_tell_every_window(
    label: &str,
    status: &QuotaStatus,
    windows: Vec<ProviderQuotaWindow>,
    resets: &Vec<String>,
    amounts: &AmountTexts,
    r: Option<ProviderQuotaRow>,
    whole: nat,
)
    requires
        status.quota == Some(ProviderQuotaData::Windows(windows)),
        windows@.len() == resets@.len(),
        call_ensures(quota_row, (label, status, resets, amounts), r),
        status.error is None,
        windows@.len() == 1,
        whole <= u32::MAX,
        whole * 1000000 - 500000 <= windows@[0].used_percent < whole * 1000000 + 500000,
    ensures
        r is Some && (r->0).hint@ == label@ + " "@ + windows@[0].label@ + " 窗口已用 "@
            + text::decimal(whole) + "%，"@ + resets@[0]@ + "。"@,
{
    let hints = quota::window_hints(label@, windows@, resets@);
    assert(hints.len() == 1);
    assert(text::joined(hints, " "@) == hints[0]);
    assert(hints[0] + Seq::<char>::empty() =~= hints[0]);
    assert(quota::rounded(windows@[0].used_percent as int) == whole);
}

/// A use beyond all measure is shown as the greatest number there is.
pub proof fn great_uses_are_cut(
    label: &str,
    status: &QuotaStatus,
    windows: Vec<ProviderQuotaWindow>,
    resets: &Vec<String>,
    amounts: &AmountTexts,
    r: Option<ProviderQuotaRow>,
)
    requires
        status.quota == Some(ProviderQuotaData::Windows(windows)),
        windows@.len() == resets@.len(),
        call_ensures(quota_row, (label, status, resets, amounts), r),
        windows@.len() == 1,
        windows@[0].used_percent >= 4294967295499999,
    ensures
        r is Some && (r->0).text@ == text::decimal(4294967295) + "%"@,
{
    lemma_worst(windows@, 0);
    lemma_worst_is_one(windows@);
    assert(quota::worst(windows@) == windows@[0].used_percent);
}

/// The hint of a limit tells what was used of it, and its share.
pub proof fn hints_tell_the_share(
    label: &str,
    status: &QuotaStatus,
    known: CopilotQuota,
    limit: i64,
    resets: &Vec<String>,
    amounts: &AmountTexts,
    r: Option<ProviderQuotaRow>,
    used: i128,
    whole: nat,
)
    requires
        status.quota == Some(ProviderQuotaData::Copilot(known)),
        known.limit == Some(limit),
        status.error is None,
        call_ensures(quota_row, (label, status, resets, amounts), r),
        call_ensures(quota_used, (&known,), used),
        limit >= 1000000,
        0 < used < limit,
        whole * 1000000 - 500000 <= used * 100000000 / (limit as int) < whole * 1000000 + 500000,
        whole <= 100,
    ensures
        r is Some && (r->0).text@ == text::decimal(whole) + "%"@ && (r->0).hint@ == label@
            + " 本周期已用 "@ + amounts.used@ + " / "@ + amounts.limit@ + " "@ + known.unit@ + "（"@
            + text::decimal(whole) + "%）。"@,
{
    let share = used as int * 100000000 / (limit as int);
    assert(quota::used_share(used as int, limit as int) == share);
    lemma_share(used as int, limit as int, share);
    assert(quota::rounded(share) == whole);
    let front = label@ + " 本周期已用 "@ + amounts.used@ + " / "@ + amounts.limit@ + " "@ + known.unit@
        + "（"@ + text::decimal(whole) + "%）。"@;
    assert(front + Seq::<char>::empty() =~= front);
}

/// A reset that is a minute off or more tells how far.
pub proof fn distant_resets_tell_how_far(
    window: &ProviderQuotaWindow,
    moment: LocalMoment,
    now_ms: i64,
    r: String,
    at: u64,
    seconds: i64,
    left: Option<String>,
    day: String,
)
    requires
        call_ensures(window_reset_text, (window, Some(moment), now_ms), r),
        window.resets_at_ms == Some(at),
        at <= i64::MAX,
        at >= now_ms + 60000,
        seconds == (at - now_ms) / 1000,
        call_ensures(quota_until_text, (seconds,), left),
        call_ensures(LocalMoment::day_and_time, (&moment,), day),
    ensures
        left is Some,
        r@ == "重置 "@ + day@ + "（还有 "@ + (left->0)@ + "）"@,
{
    assert(at as i64 as int == at);
    assert(seconds >= 60);
    assert(quota::characters(left) is Some <==> left is Some);
}

} // verus!
