//! What changing the files of hooks leaves as it was, and what it refuses.

use vstd::prelude::*;

use crate::agent_hooks::antigravity;
use crate::agent_hooks::antigravity::{merge_antigravity_hooks, remove_antigravity_hooks};
use crate::agent_hooks::copilot;
use crate::agent_hooks::copilot::{merge_copilot_hooks, remove_copilot_hooks};
use crate::agent_hooks::cursor;
use crate::agent_hooks::cursor::{merge_cursor_hooks, remove_cursor_hooks};
use crate::agent_hooks::dialect;
use crate::agent_hooks::dialect::{Dialect, HookLists};
use crate::agent_hooks::document;
use crate::agent_hooks::events;
use crate::agent_hooks::handlers;
use crate::agent_hooks::handlers::{
    any_own, foreign_handlers, handler_is_own, handler_reports, CommandKey,
};
use crate::agent_hooks::hook_file;
use crate::agent_hooks::hook_file::{merge_hook_file, remove_hooks};
use crate::agent_hooks::kiro;
use crate::agent_hooks::kiro::{merge_kiro_hooks, remove_kiro_hooks};
use crate::agent_hooks::list_laws;
use crate::json;
use crate::json::{Json, JsonView};
use crate::promises::lists;
use crate::shell;
use crate::text;

verus! {

/// The text under the key runs Smelt's helper.
pub open spec fn runs_smelt(handler: JsonView, key: Seq<char>) -> bool {
    json::text_under(handler, key) matches Some(command) && shell::runs_notify(command)
}

/// The handler is not Smelt's, where handlers are written as in this file.
pub open spec fn is_others(handler: JsonView, dialect: Dialect) -> bool {
    match dialect {
        Dialect::Groups => !runs_smelt(handler, "command"@) && !runs_smelt(handler, "bash"@),
        Dialect::BashGroups => !runs_smelt(handler, "command"@) && !runs_smelt(handler, "bash"@),
        Dialect::Copilot => !runs_smelt(handler, "bash"@),
        Dialect::Antigravity => !runs_smelt(handler, "command"@),
        Dialect::Cursor => !runs_smelt(handler, "command"@),
    }
}

/// Whether the handlers of an event stand in groups.
pub open spec fn in_groups(dialect: Dialect, event: Seq<char>) -> bool {
    dialect is Groups || dialect is BashGroups || (dialect is Antigravity && event
        == "PostToolUse"@)
}

/// The handler is among the items, or in one of the groups that they are.
pub open spec fn is_among(items: Seq<JsonView>, grouped: bool, handler: JsonView) -> bool {
    if grouped {
        exists|i: int|
            0 <= i < items.len() && (json::list_under(#[trigger] items[i], "hooks"@) matches Some(
                inner,
            ) && inner.contains(handler))
    } else {
        items.contains(handler)
    }
}

/// The handler is listed for the event in a section.
pub open spec fn is_listed(
    section: JsonView,
    event: Seq<char>,
    grouped: bool,
    handler: JsonView,
) -> bool {
    json::list_under(section, event) matches Some(items) && is_among(items, grouped, handler)
}

/// One of the handlers for the event in a section is Smelt's.
pub open spec fn has_smelts(section: JsonView, event: Seq<char>, dialect: Dialect) -> bool {
    exists|handler: JsonView|
        !is_others(handler, dialect) && #[trigger] is_listed(
            section,
            event,
            in_groups(dialect, event),
            handler,
        )
}

/// Where a command stands in a handler of the file.
pub open spec fn place_of(dialect: Dialect) -> CommandKey {
    match dialect {
        Dialect::Groups => CommandKey::CommandOrBash,
        Dialect::BashGroups => CommandKey::CommandOrBash,
        Dialect::Copilot => CommandKey::Bash,
        Dialect::Antigravity => CommandKey::Command,
        Dialect::Cursor => CommandKey::Command,
    }
}

proof fn lemma_foreign(items: Seq<JsonView>, dialect: Dialect, handler: JsonView)
    ensures
        handlers::foreign(items, place_of(dialect)).contains(handler) <==> items.contains(handler)
            && is_others(handler, dialect),
{
    let keep = |handler: JsonView| !handlers::is_own(handler, place_of(dialect));
    let out = handlers::foreign(items, place_of(dialect));
    assert(out == items.filter(keep));
    if out.contains(handler) {
        let i = choose|i: int| 0 <= i < out.len() && out[i] == handler;
        lists::picked_items_pass(items, keep, i);
    }
    if items.contains(handler) && is_others(handler, dialect) {
        let k = choose|k: int| 0 <= k < items.len() && items[k] == handler;
        lists::passing_items_are_picked(items, keep, k);
    }
}

pub proof fn lemma_groups(
    groups: Seq<JsonView>,
    dialect: Dialect,
    drop_empty: bool,
    handler: JsonView,
)
    ensures
        is_among(handlers::foreign_groups(groups, place_of(dialect), drop_empty), true, handler)
            <==> is_among(groups, true, handler) && is_others(handler, dialect),
{
    let place = place_of(dialect);
    let stays = |group: JsonView| handlers::group_stays(group, place, drop_empty);
    let kept = groups.filter(stays);
    let out = handlers::foreign_groups(groups, place, drop_empty);
    assert(out.len() == kept.len());
    assert forall|j: int| 0 <= j < out.len() implies #[trigger] out[j] == handlers::foreign_group(
        kept[j],
        place,
    ) by {
    }
    if is_among(groups, true, handler) && is_others(handler, dialect) {
        let i = choose|i: int|
            0 <= i < groups.len() && (json::list_under(#[trigger] groups[i], "hooks"@) matches Some(
                inner,
            ) && inner.contains(handler));
        let inner = json::list_under(groups[i], "hooks"@)->0;
        lemma_foreign(inner, dialect, handler);
        let rest = handlers::foreign(inner, place);
        assert(rest.contains(handler));
        assert(rest.len() > 0);
        lists::passing_items_are_picked(groups, stays, i);
        let j = choose|j: int| 0 <= j < kept.len() && kept[j] == groups[i];
        assert(out[j] == handlers::foreign_group(groups[i], place));
        assert(json::list_under(out[j], "hooks"@) == Some(rest));
    }
    if is_among(out, true, handler) {
        let j = choose|j: int|
            0 <= j < out.len() && (json::list_under(#[trigger] out[j], "hooks"@) matches Some(
                inner,
            ) && inner.contains(handler));
        assert(out[j] == handlers::foreign_group(kept[j], place));
        lists::picked_items_pass(groups, stays, j);
        let i = choose|i: int| 0 <= i < groups.len() && groups[i] == kept[j];
        let inner = json::list_under(groups[i], "hooks"@)->0;
        lemma_foreign(inner, dialect, handler);
        assert(json::list_under(groups[i], "hooks"@) == Some(inner));
    }
}

proof fn lemma_foreign_list(
    items: Seq<JsonView>,
    dialect: Dialect,
    event: Seq<char>,
    handler: JsonView,
)
    ensures
        is_among(
            dialect::foreign_list(items, dialect, event),
            in_groups(dialect, event),
            handler,
        ) <==> is_among(items, in_groups(dialect, event), handler) && is_others(handler, dialect),
{
    lemma_groups(items, dialect, true, handler);
    lemma_foreign(items, dialect, handler);
}

proof fn lemma_prepared(
    items: Seq<JsonView>,
    dialect: Dialect,
    event: Seq<char>,
    handler: JsonView,
    hook: JsonView,
)
    requires
        is_among(items, in_groups(dialect, event), handler),
        is_others(handler, dialect),
    ensures
        is_among(
            dialect::prepared_list(items, dialect).push(hook),
            in_groups(dialect, event),
            handler,
        ),
{
    lemma_groups(items, dialect, false, handler);
    lemma_foreign(items, dialect, handler);
    let ready = dialect::prepared_list(items, dialect);
    let out = ready.push(hook);
    if in_groups(dialect, event) {
        let i = choose|i: int|
            0 <= i < ready.len() && (json::list_under(#[trigger] ready[i], "hooks"@) matches Some(
                inner,
            ) && inner.contains(handler));
        assert(out[i] == ready[i]);
    } else {
        let i = choose|i: int| 0 <= i < ready.len() && ready[i] == handler;
        assert(out[i] == handler);
    }
}

pub proof fn lemma_in_turn(
    hooks: HookLists,
    names: Seq<Seq<char>>,
    dialect: Dialect,
    notify: Seq<char>,
    provider: Seq<char>,
    event: Seq<char>,
    handler: JsonView,
)
    requires
        is_listed(JsonView::Object(hooks), event, in_groups(dialect, event), handler),
        is_others(handler, dialect),
    ensures
        is_listed(
            JsonView::Object(
                dialect::enlisted_in_turn(hooks, names, dialect, notify, provider),
            ),
            event,
            in_groups(dialect, event),
            handler,
        ),
    decreases names.len(),
{
    if names.len() > 0 {
        lemma_in_turn(hooks, names.drop_last(), dialect, notify, provider, event, handler);
        let before = dialect::enlisted_in_turn(
            hooks,
            names.drop_last(),
            dialect,
            notify,
            provider,
        );
        if names.last() == event {
            lemma_prepared(
                dialect::list_of(before, event),
                dialect,
                event,
                handler,
                dialect::own_hook(dialect, shell::hook_command(notify, provider, event), event),
            );
        }
    }
}

pub proof fn lemma_cleared(
    hooks: HookLists,
    chosen: spec_fn(Seq<char>) -> bool,
    dialect: Dialect,
    event: Seq<char>,
    handler: JsonView,
)
    ensures
        chosen(event) ==> (is_listed(
            JsonView::Object(dialect::cleared(hooks, chosen, dialect)),
            event,
            in_groups(dialect, event),
            handler,
        ) <==> is_listed(JsonView::Object(hooks), event, in_groups(dialect, event), handler)
            && is_others(handler, dialect)),
        !chosen(event) ==> json::member(
            JsonView::Object(dialect::cleared(hooks, chosen, dialect)),
            event,
        ) == json::member(JsonView::Object(hooks), event),
{
    let items = dialect::list_of(hooks, event);
    lemma_foreign_list(items, dialect, event, handler);
    if hooks.contains_key(event) && hooks[event] is Array {
        let rest = dialect::foreign_list(items, dialect, event);
        if is_among(rest, in_groups(dialect, event), handler) {
            assert(rest.len() > 0);
        }
    }
}

/// A handler of others stays listed for its event when Smelt's hooks are added to a file of
/// groups, and lists of other events and all other settings stay as they were.
pub proof fn adding_keeps_what_others_have(
    root: &mut Json,
    path: &str,
    names: &Vec<String>,
    notify: &str,
    provider: &str,
    r: Result<(), String>,
    event: Seq<char>,
    handler: JsonView,
    other: Seq<char>,
)
    requires
        call_ensures(merge_hook_file, (root, path, names, notify, provider, false), r),
        r is Ok,
    ensures
        final(root).view() is Object,
        json::member(final(root).view(), "hooks"@) is Some,
        json::member(old(root).view(), "hooks"@) matches Some(before) ==> {
            let after = json::member(final(root).view(), "hooks"@)->0;
            &&& is_others(handler, Dialect::Groups) && is_listed(before, event, true, handler)
                ==> is_listed(after, event, true, handler)
            &&& !text::texts(names@).contains(event) ==> json::member(after, event)
                == json::member(before, event)
        },
        other != "hooks"@ ==> json::member(final(root).view(), other) == json::member(
            old(root).view(),
            other,
        ),
{
    let all = text::texts(names@);
    assert(document::failure(r) is None);
    if other != "hooks"@ {
        hook_file::other_settings_stay(old(root).view(), path@, all, notify@, provider@, other);
    }
    let hooks = document::section_of(old(root).view()->Object_0, "hooks"@)->0;
    if json::member(old(root).view(), "hooks"@) is Some {
        if is_others(handler, Dialect::Groups) && is_listed(
            JsonView::Object(hooks),
            event,
            true,
            handler,
        ) {
            lemma_in_turn(hooks, all, Dialect::Groups, notify@, provider@, event, handler);
        }
        if !all.contains(event) {
            list_laws::in_turn_leaves_others(
                hooks,
                all,
                Dialect::Groups,
                notify@,
                provider@,
                event,
            );
        }
    }
}

/// The lists of hooks can be added to: what is there under the events are lists.
pub open spec fn can_be_added_to(section: JsonView, names: Seq<Seq<char>>) -> bool {
    section is Object && forall|i: int|
        0 <= i < names.len() ==> (json::member(section, #[trigger] names[i]) matches Some(found)
            ==> found is Array)
}

pub proof fn lemma_blocked(hooks: HookLists, names: Seq<Seq<char>>)
    ensures
        (exists|at: int| dialect::blocked_at(hooks, names, at)) <==> !can_be_added_to(
            JsonView::Object(hooks),
            names,
        ),
{
    let section = JsonView::Object(hooks);
    if exists|at: int| dialect::blocked_at(hooks, names, at) {
        let at = choose|at: int| dialect::blocked_at(hooks, names, at);
        assert(!dialect::listable(hooks, names[at]));
        assert(!(json::member(section, names[at]) matches Some(found) ==> found is Array));
    } else {
        assert forall|i: int| 0 <= i < names.len() implies (json::member(
            section,
            #[trigger] names[i],
        ) matches Some(found) ==> found is Array) by {
            hook_file::lemma_nothing_blocked(hooks, names, i);
        }
    }
}

/// Hooks are added to a file of groups where it is an object, its hooks are one or missing, and
/// what is under the events are lists; otherwise it is said what is wrong, and a file that is no
/// object stays as it is.
pub proof fn adding_needs_lists(
    root: &mut Json,
    path: &str,
    names: &Vec<String>,
    notify: &str,
    provider: &str,
    r: Result<(), String>,
)
    requires
        call_ensures(merge_hook_file, (root, path, names, notify, provider, false), r),
    ensures
        r is Ok <==> old(root).view() is Object && (json::member(old(root).view(), "hooks"@) matches Some(
            section,
        ) ==> can_be_added_to(section, text::texts(names@))),
        !(old(root).view() is Object) ==> (r matches Err(message) && message@ == path@
            + " 根不是对象"@) && final(root).view() == old(root).view(),
        old(root).view() is Object ==> (json::member(old(root).view(), "hooks"@) matches Some(
            section,
        ) ==> (!(section is Object) ==> (r matches Err(message) && message@ == "hooks 不是对象"@))),
        r matches Err(message) ==> (json::member(old(root).view(), "hooks"@) matches Some(section)
            ==> (section is Object ==> exists|i: int|
            0 <= i < names@.len() && message@ == "hooks."@ + (#[trigger] names@[i])@
                + " 不是数组"@)),
{
    let all = text::texts(names@);
    assert(document::failure(r) is None <==> r is Ok);
    if old(root).view() is Object {
        let entries = old(root).view()->Object_0;
        if document::section_of(entries, "hooks"@) is Some {
            let hooks = document::section_of(entries, "hooks"@)->0;
            lemma_blocked(hooks, all);
            if !entries.contains_key("hooks"@) {
                assert(can_be_added_to(JsonView::Object(hooks), all));
            }
            if exists|at: int| dialect::blocked_at(hooks, all, at) {
                let at = choose|at: int| dialect::blocked_at(hooks, all, at);
                assert(all[at] == names@[at]@);
            }
        }
    }
}

/// Removing Smelt's hooks from a file of groups leaves none of them under the events, and every
/// handler of others; other lists and all other settings stay. Without hooks there is nothing to
/// remove.
pub proof fn removing_keeps_what_others_have(
    root: &mut Json,
    names: &Vec<String>,
    r: bool,
    event: Seq<char>,
    handler: JsonView,
    other: Seq<char>,
)
    requires
        call_ensures(remove_hooks, (root, names), r),
    ensures
        r <==> (json::member(old(root).view(), "hooks"@) matches Some(section) && section is Object),
        !r ==> final(root).view() == old(root).view(),
        other != "hooks"@ ==> json::member(final(root).view(), other) == json::member(
            old(root).view(),
            other,
        ),
        r ==> {
            let before = json::member(old(root).view(), "hooks"@)->0;
            let after = json::member(final(root).view(), "hooks"@)->0;
            &&& json::member(final(root).view(), "hooks"@) is Some
            &&& is_others(handler, Dialect::Groups) && is_listed(before, event, true, handler)
                ==> is_listed(after, event, true, handler)
            &&& text::texts(names@).contains(event) ==> !has_smelts(after, event, Dialect::Groups)
            &&& !text::texts(names@).contains(event) ==> json::member(after, event)
                == json::member(before, event)
        },
{
    let all = text::texts(names@);
    if r {
        let hooks = json::member(old(root).view(), "hooks"@)->0->Object_0;
        let chosen = dialect::among(all);
        lemma_cleared(hooks, chosen, Dialect::Groups, event, handler);
        let after = JsonView::Object(dialect::cleared(hooks, chosen, Dialect::Groups));
        if all.contains(event) && has_smelts(after, event, Dialect::Groups) {
            let found = choose|found: JsonView|
                !is_others(found, Dialect::Groups) && #[trigger] is_listed(
                    after,
                    event,
                    in_groups(Dialect::Groups, event),
                    found,
                );
            lemma_cleared(hooks, chosen, Dialect::Groups, event, found);
        }
    }
}

/// The same holds of Copilot's file, which says its version and loses Smelt's hooks under older
/// names as well.
pub proof fn copilot_keeps_what_others_have(
    root: &mut Json,
    notify: &str,
    r: Result<(), String>,
    event: Seq<char>,
    handler: JsonView,
    other: Seq<char>,
)
    requires
        call_ensures(merge_copilot_hooks, (root, notify), r),
    ensures
        r is Ok ==> old(root).view() is Object,
        !(old(root).view() is Object) ==> (r matches Err(message) && message@
            == "hooks 文件根不是对象"@) && final(root).view() == old(root).view(),
        old(root).view() is Object ==> (json::member(old(root).view(), "hooks"@) matches Some(
            section,
        ) ==> (!(section is Object) ==> (r matches Err(message) && message@ == "hooks 不是对象"@))),
        old(root).view() is Object && json::member(old(root).view(), "hooks"@) is None ==> r is Ok,
        r is Ok && other != "hooks"@ && other != "version"@ ==> json::member(
            final(root).view(),
            other,
        ) == json::member(old(root).view(), other),
        r is Ok ==> (json::member(old(root).view(), "hooks"@) matches Some(before) ==> {
            let after = json::member(final(root).view(), "hooks"@)->0;
            &&& is_others(handler, Dialect::Copilot) && is_listed(before, event, false, handler)
                ==> is_listed(after, event, false, handler)
            &&& !events::copilot_events().contains(event)
                && !events::copilot_legacy_events().contains(event) ==> json::member(after, event)
                == json::member(before, event)
        }),
{
    assert(document::failure(r) is None <==> r is Ok);
    lemma_names();
    let names = events::copilot_events();
    let older = dialect::among(events::copilot_legacy_events());
    if old(root).view() is Object {
        let entries = copilot::versioned(old(root).view()->Object_0);
        if document::section_of(entries, "hooks"@) is Some {
            let hooks = document::section_of(entries, "hooks"@)->0;
            let rest = copilot::without_legacy(hooks);
            lemma_cleared(hooks, older, Dialect::Copilot, event, handler);
            if json::member(old(root).view(), "hooks"@) is None {
                assert(rest =~= Map::<Seq<char>, JsonView>::empty());
                assert(can_be_added_to(JsonView::Object(rest), names));
                lemma_blocked(rest, names);
            }
            if r is Ok {
                if is_others(handler, Dialect::Copilot) && is_listed(
                    JsonView::Object(hooks),
                    event,
                    false,
                    handler,
                ) {
                    lemma_in_turn(
                        rest,
                        names,
                        Dialect::Copilot,
                        notify@,
                        "copilot"@,
                        event,
                        handler,
                    );
                }
                if !names.contains(event) {
                    list_laws::in_turn_leaves_others(
                        rest,
                        names,
                        Dialect::Copilot,
                        notify@,
                        "copilot"@,
                        event,
                    );
                }
            }
        }
    }
}

proof fn lemma_names()
    ensures
        "hooks"@ != "version"@,
        "hooks"@ != "smelt-status-notifications"@,
{
    reveal_strlit("hooks");
    reveal_strlit("version");
    reveal_strlit("smelt-status-notifications");
    assert("hooks"@.len() == 5);
    assert("version"@.len() == 7);
    assert("smelt-status-notifications"@.len() == 26);
}

/// Removing Smelt's hooks from Copilot's file leaves none of them under its events or their older
/// names, and every handler of others.
pub proof fn copilot_loses_only_smelts(
    root: &mut Json,
    r: bool,
    event: Seq<char>,
    handler: JsonView,
    other: Seq<char>,
)
    requires
        call_ensures(remove_copilot_hooks, (root,), r),
    ensures
        r <==> (json::member(old(root).view(), "hooks"@) matches Some(section) && section is Object),
        !r ==> final(root).view() == old(root).view(),
        other != "hooks"@ ==> json::member(final(root).view(), other) == json::member(
            old(root).view(),
            other,
        ),
        r ==> {
            let before = json::member(old(root).view(), "hooks"@)->0;
            let after = json::member(final(root).view(), "hooks"@)->0;
            &&& is_others(handler, Dialect::Copilot) && is_listed(before, event, false, handler)
                ==> is_listed(after, event, false, handler)
            &&& events::copilot_events().contains(event)
                || events::copilot_legacy_events().contains(event) ==> !has_smelts(
                after,
                event,
                Dialect::Copilot,
            )
        },
{
    if r {
        let hooks = json::member(old(root).view(), "hooks"@)->0->Object_0;
        let names = dialect::among(events::copilot_events());
        let older = dialect::among(events::copilot_legacy_events());
        let once = dialect::cleared(hooks, names, Dialect::Copilot);
        let after = JsonView::Object(copilot::without_own(hooks));
        lemma_cleared(hooks, names, Dialect::Copilot, event, handler);
        lemma_cleared(once, older, Dialect::Copilot, event, handler);
        if (events::copilot_events().contains(event) || events::copilot_legacy_events().contains(
            event,
        )) && has_smelts(after, event, Dialect::Copilot) {
            let found = choose|found: JsonView|
                !is_others(found, Dialect::Copilot) && #[trigger] is_listed(
                    after,
                    event,
                    in_groups(Dialect::Copilot, event),
                    found,
                );
            lemma_cleared(hooks, names, Dialect::Copilot, event, found);
            lemma_cleared(once, older, Dialect::Copilot, event, found);
        }
    }
}

/// Cursor's file keeps every command of others, for every event, when Smelt's are added or
/// removed; removed, none of Smelt's is left for any event.
pub proof fn cursor_keeps_what_others_have(
    added: &mut Json,
    notify: &str,
    r: Result<(), String>,
    cut: &mut Json,
    event: Seq<char>,
    handler: JsonView,
    other: Seq<char>,
)
    requires
        call_ensures(merge_cursor_hooks, (added, notify), r),
        call_ensures(remove_cursor_hooks, (cut,), ()),
    ensures
        r is Ok ==> old(added).view() is Object,
        !(old(added).view() is Object) ==> (r matches Err(message) && message@
            == "Cursor hooks 文件根不是对象"@),
        old(added).view() is Object ==> (json::member(old(added).view(), "hooks"@) matches Some(
            section,
        ) ==> (!(section is Object) ==> (r matches Err(message) && message@
            == "Cursor hooks 不是对象"@))),
        old(added).view() is Object && json::member(old(added).view(), "hooks"@) is None ==> r is Ok,
        r is Ok && other != "hooks"@ && other != "version"@ ==> json::member(
            final(added).view(),
            other,
        ) == json::member(old(added).view(), other),
        r is Ok ==> (json::member(old(added).view(), "hooks"@) matches Some(before) ==> is_others(
            handler,
            Dialect::Cursor,
        ) && is_listed(before, event, false, handler) ==> is_listed(
            json::member(final(added).view(), "hooks"@)->0,
            event,
            false,
            handler,
        )),
        other != "hooks"@ ==> json::member(final(cut).view(), other) == json::member(
            old(cut).view(),
            other,
        ),
        json::member(old(cut).view(), "hooks"@) matches Some(JsonView::Object(before)) ==> {
            let after = json::member(final(cut).view(), "hooks"@)->0;
            &&& json::member(final(cut).view(), "hooks"@) is Some
            &&& is_others(handler, Dialect::Cursor) && is_listed(
                JsonView::Object(before),
                event,
                false,
                handler,
            ) ==> is_listed(after, event, false, handler)
            &&& !has_smelts(after, event, Dialect::Cursor)
        },
{
    assert(document::failure(r) is None <==> r is Ok);
    lemma_names();
    let names = events::cursor_events();
    let any = cursor::any_event();
    let before = cursor::removed(old(added).view());
    if old(added).view() is Object {
        let entries = cursor::versioned(before->Object_0);
        if document::section_of(entries, "hooks"@) is Some {
            let hooks = document::section_of(entries, "hooks"@)->0;
            if json::member(old(added).view(), "hooks"@) is None {
                assert(can_be_added_to(JsonView::Object(hooks), names));
                lemma_blocked(hooks, names);
            } else {
                let whole = json::member(old(added).view(), "hooks"@)->0->Object_0;
                lemma_cleared(whole, any, Dialect::Cursor, event, handler);
                if r is Ok && is_others(handler, Dialect::Cursor) && is_listed(
                    JsonView::Object(whole),
                    event,
                    false,
                    handler,
                ) {
                    lemma_in_turn(
                        hooks,
                        names,
                        Dialect::Cursor,
                        notify@,
                        "cursor"@,
                        event,
                        handler,
                    );
                }
            }
        }
    }
    match json::member(old(cut).view(), "hooks"@) {
        Some(JsonView::Object(hooks)) => {
            lemma_cleared(hooks, any, Dialect::Cursor, event, handler);
            let after = JsonView::Object(cursor::without_own(hooks));
            if has_smelts(after, event, Dialect::Cursor) {
                let found = choose|found: JsonView|
                    !is_others(found, Dialect::Cursor) && #[trigger] is_listed(
                        after,
                        event,
                        in_groups(Dialect::Cursor, event),
                        found,
                    );
                lemma_cleared(hooks, any, Dialect::Cursor, event, found);
            }
        },
        _ => {},
    }
}

/// Antigravity's file keeps all other definitions, and in Smelt's every handler of others.
pub proof fn antigravity_keeps_what_others_have(
    root: &mut Json,
    notify: &str,
    r: Result<(), String>,
    event: Seq<char>,
    handler: JsonView,
    other: Seq<char>,
)
    requires
        call_ensures(merge_antigravity_hooks, (root, notify), r),
    ensures
        r is Ok ==> old(root).view() is Object,
        !(old(root).view() is Object) ==> (r matches Err(message) && message@
            == "Antigravity hooks 文件根不是对象"@) && final(root).view() == old(root).view(),
        old(root).view() is Object ==> (json::member(
            old(root).view(),
            "smelt-status-notifications"@,
        ) matches Some(section) ==> (!(section is Object) ==> (r matches Err(message) && message@
            == "Antigravity hook smelt-status-notifications 不是对象"@) && final(root).view() == old(root).view())),
        other != "smelt-status-notifications"@ ==> json::member(final(root).view(), other)
            == json::member(old(root).view(), other),
        r is Ok ==> (json::member(old(root).view(), "smelt-status-notifications"@) matches Some(
            before,
        ) ==> event != "enabled"@ && is_others(handler, Dialect::Antigravity) && is_listed(
            before,
            event,
            in_groups(Dialect::Antigravity, event),
            handler,
        ) ==> is_listed(
            json::member(final(root).view(), "smelt-status-notifications"@)->0,
            event,
            in_groups(Dialect::Antigravity, event),
            handler,
        )),
{
    assert(document::failure(r) is None <==> r is Ok);
    let names = events::antigravity_events();
    let key = antigravity::definition_name();
    if r is Ok && json::member(old(root).view(), key) is Some {
        let definition = json::member(old(root).view(), key)->0->Object_0;
        lemma_cleared(definition, dialect::among(names), Dialect::Antigravity, event, handler);
        let on = antigravity::switched_on(definition);
        if event != "enabled"@ && is_others(handler, Dialect::Antigravity) && is_listed(
            JsonView::Object(definition),
            event,
            in_groups(Dialect::Antigravity, event),
            handler,
        ) {
            assert(json::member(JsonView::Object(on), event) == json::member(
                JsonView::Object(antigravity::without_own(definition)),
                event,
            ));
            lemma_in_turn(
                on,
                names,
                Dialect::Antigravity,
                notify@,
                "antigravity"@,
                event,
                handler,
            );
        }
    }
}

/// Removed from Antigravity's file, none of Smelt's handlers is left under its events; what others
/// put into its definition stays, and a definition in which nothing is left goes.
pub proof fn antigravity_loses_only_smelts(
    root: &mut Json,
    r: bool,
    event: Seq<char>,
    handler: JsonView,
    other: Seq<char>,
)
    requires
        call_ensures(remove_antigravity_hooks, (root,), r),
    ensures
        r <==> old(root).view() is Object,
        !r ==> final(root).view() == old(root).view(),
        other != "smelt-status-notifications"@ ==> json::member(final(root).view(), other)
            == json::member(old(root).view(), other),
        json::member(old(root).view(), "smelt-status-notifications"@) matches Some(
            JsonView::Object(before),
        ) ==> {
            let after = json::member(final(root).view(), "smelt-status-notifications"@);
            &&& event != "enabled"@ && is_others(handler, Dialect::Antigravity) && is_listed(
                JsonView::Object(before),
                event,
                in_groups(Dialect::Antigravity, event),
                handler,
            ) ==> after is Some && is_listed(
                after->0,
                event,
                in_groups(Dialect::Antigravity, event),
                handler,
            )
            &&& events::antigravity_events().contains(event) && after is Some ==> !has_smelts(
                after->0,
                event,
                Dialect::Antigravity,
            )
            &&& after matches Some(JsonView::Object(left)) ==> exists|key: Seq<char>|
                key != "enabled"@ && #[trigger] left.contains_key(key)
        },
{
    let key = antigravity::definition_name();
    let names = dialect::among(events::antigravity_events());
    match json::member(old(root).view(), key) {
        Some(JsonView::Object(before)) => {
            let left = antigravity::without_own(before);
            lemma_cleared(before, names, Dialect::Antigravity, event, handler);
            if event != "enabled"@ && is_others(handler, Dialect::Antigravity) && is_listed(
                JsonView::Object(before),
                event,
                in_groups(Dialect::Antigravity, event),
                handler,
            ) {
                assert(left.contains_key(event));
                assert(!antigravity::is_spent(left));
            }
            let after = JsonView::Object(left);
            if events::antigravity_events().contains(event) && has_smelts(
                after,
                event,
                Dialect::Antigravity,
            ) {
                let found = choose|found: JsonView|
                    !is_others(found, Dialect::Antigravity) && #[trigger] is_listed(
                        after,
                        event,
                        in_groups(Dialect::Antigravity, event),
                        found,
                    );
                lemma_cleared(before, names, Dialect::Antigravity, event, found);
            }
        },
        _ => {},
    }
}

/// The hook is Smelt's, in Kiro's file.
pub open spec fn is_smelts_kiro_hook(hook: JsonView) -> bool {
    json::member(hook, "action"@) matches Some(action) && runs_smelt(action, "command"@)
}

proof fn lemma_kiro(hooks: Seq<JsonView>, hook: JsonView)
    ensures
        kiro::foreign(hooks).contains(hook) <==> hooks.contains(hook) && !is_smelts_kiro_hook(hook),
{
    let keep = |handler: JsonView| !handlers::is_own(handler, CommandKey::ActionCommand);
    let out = kiro::foreign(hooks);
    assert(out == hooks.filter(keep));
    if out.contains(hook) {
        let i = choose|i: int| 0 <= i < out.len() && out[i] == hook;
        lists::picked_items_pass(hooks, keep, i);
    }
    if hooks.contains(hook) && !is_smelts_kiro_hook(hook) {
        let k = choose|k: int| 0 <= k < hooks.len() && hooks[k] == hook;
        lists::passing_items_are_picked(hooks, keep, k);
    }
}

/// Kiro's file keeps every hook of others when Smelt's are added or removed; removed, none of
/// Smelt's is left.
pub proof fn kiro_keeps_what_others_have(
    added: &mut Json,
    notify: &str,
    r: Result<(), String>,
    cut: &mut Json,
    hook: JsonView,
    other: Seq<char>,
)
    requires
        call_ensures(merge_kiro_hooks, (added, notify), r),
        call_ensures(remove_kiro_hooks, (cut,), ()),
    ensures
        r is Ok <==> old(added).view() is Object && (json::member(old(added).view(), "hooks"@) matches Some(
            section,
        ) ==> section is Array),
        !(old(added).view() is Object) ==> (r matches Err(message) && message@
            == "Kiro hooks 文件根不是对象"@),
        old(added).view() is Object && r is Err ==> (r matches Err(message) && message@
            == "Kiro hooks 不是数组"@),
        r is Ok && other != "hooks"@ && other != "version"@ ==> json::member(
            final(added).view(),
            other,
        ) == json::member(old(added).view(), other),
        r is Ok ==> (json::list_under(old(added).view(), "hooks"@) matches Some(before) ==> (
        before.contains(hook) && !is_smelts_kiro_hook(hook) ==> json::list_under(
            final(added).view(),
            "hooks"@,
        ) is Some && (json::list_under(final(added).view(), "hooks"@)->0).contains(hook))),
        other != "hooks"@ ==> json::member(final(cut).view(), other) == json::member(
            old(cut).view(),
            other,
        ),
        json::list_under(old(cut).view(), "hooks"@) matches Some(before) ==> {
            let after = json::list_under(final(cut).view(), "hooks"@);
            &&& after is Some
            &&& (after->0).contains(hook) <==> before.contains(hook) && !is_smelts_kiro_hook(hook)
        },
        json::list_under(old(cut).view(), "hooks"@) is None ==> final(cut).view() == old(cut).view(),
{
    assert(document::failure(r) is None <==> r is Ok);
    lemma_names();
    if json::list_under(old(added).view(), "hooks"@) is Some {
        let before = json::list_under(old(added).view(), "hooks"@)->0;
        lemma_kiro(before, hook);
        if r is Ok && before.contains(hook) && !is_smelts_kiro_hook(hook) {
            let rest = kiro::foreign(before);
            let i = choose|i: int| 0 <= i < rest.len() && rest[i] == hook;
            let after = json::list_under(final(added).view(), "hooks"@)->0;
            assert(after[i] == hook);
        }
    }
    if json::list_under(old(cut).view(), "hooks"@) is Some {
        lemma_kiro(json::list_under(old(cut).view(), "hooks"@)->0, hook);
    }
}

/// A handler is Smelt's where its command runs the helper, under the keys that count; it reports
/// an event where its command also names it.
pub proof fn handlers_are_smelts_by_their_command(
    handler: &Json,
    event: &str,
    both: bool,
    bash: bool,
    plain: bool,
    action: bool,
    reports: bool,
)
    requires
        call_ensures(handler_is_own, (handler, CommandKey::CommandOrBash), both),
        call_ensures(handler_is_own, (handler, CommandKey::Bash), bash),
        call_ensures(handler_is_own, (handler, CommandKey::Command), plain),
        call_ensures(handler_is_own, (handler, CommandKey::ActionCommand), action),
        call_ensures(handler_reports, (handler, CommandKey::CommandOrBash, event), reports),
    ensures
        plain <==> runs_smelt(handler.view(), "command"@),
        bash <==> runs_smelt(handler.view(), "bash"@),
        both <==> plain || bash,
        action <==> is_smelts_kiro_hook(handler.view()),
        reports ==> both,
        reports <==> (json::text_under(handler.view(), "command"@) matches Some(command)
            && shell::runs_notify(command) && text::contains_text(
            command,
            "SMELT_HOOK_EVENT="@ + event@,
        )) || (json::text_under(handler.view(), "bash"@) matches Some(command)
            && shell::runs_notify(command) && text::contains_text(
            command,
            "SMELT_HOOK_EVENT="@ + event@,
        )),
{
}

/// What is left of a list without Smelt's handlers are the others, all of them.
pub proof fn others_are_left(
    all: Vec<Json>,
    place: CommandKey,
    r: Vec<Json>,
    some: bool,
    handler: JsonView,
)
    requires
        call_ensures(foreign_handlers, (all, place), r),
        call_ensures(any_own, (&all, place), some),
    ensures
        place is Bash ==> (json::documents(r@).contains(handler) <==> json::documents(
            all@,
        ).contains(handler) && !runs_smelt(handler, "bash"@)),
        place is Command ==> (json::documents(r@).contains(handler) <==> json::documents(
            all@,
        ).contains(handler) && !runs_smelt(handler, "command"@)),
        r@.len() <= all@.len(),
        !some ==> r@.len() == all@.len(),
        some ==> r@.len() < all@.len(),
{
    let items = json::documents(all@);
    let keep = |handler: JsonView| !handlers::is_own(handler, place);
    let out = json::documents(r@);
    assert(out == items.filter(keep));
    assert(out.len() == r@.len());
    assert(items.len() == all@.len());
    items.lemma_filter_len(keep);
    if place is Bash {
        lemma_foreign(items, Dialect::Copilot, handler);
    }
    if place is Command {
        lemma_foreign(items, Dialect::Cursor, handler);
    }
    if !some {
        assert forall|i: int| 0 <= i < items.len() implies keep(#[trigger] items[i]) by {
        }
        lists::all_passing_items_stay(items, keep);
    } else {
        let i = choose|i: int| 0 <= i < items.len() && handlers::is_own(#[trigger] items[i], place);
        lemma_some_dropped(items, keep, i);
    }
}

proof fn lemma_some_dropped(items: Seq<JsonView>, keep: spec_fn(JsonView) -> bool, i: int)
    requires
        0 <= i < items.len(),
        !keep(items[i]),
    ensures
        items.filter(keep).len() < items.len(),
    decreases items.len(),
{
    reveal(Seq::filter);
    let init = items.drop_last();
    init.lemma_filter_len(keep);
    if i < init.len() {
        lemma_some_dropped(init, keep, i);
    }
}

/// All handlers in the list but the last item are of others.
pub open spec fn only_the_last_is_smelts(
    section: JsonView,
    event: Seq<char>,
    dialect: Dialect,
    handler: JsonView,
) -> bool {
    json::list_under(section, event) matches Some(items) && items.len() > 0 && (is_among(
        items.drop_last(),
        in_groups(dialect, event),
        handler,
    ) ==> is_others(handler, dialect))
}

proof fn lemma_only_the_last(
    hooks: HookLists,
    names: Seq<Seq<char>>,
    dialect: Dialect,
    notify: Seq<char>,
    provider: Seq<char>,
    event: Seq<char>,
    handler: JsonView,
)
    requires
        names.no_duplicates(),
        names.contains(event),
        dialect is Antigravity || dialect is Cursor ==> (is_listed(
            JsonView::Object(hooks),
            event,
            in_groups(dialect, event),
            handler,
        ) ==> is_others(handler, dialect)),
    ensures
        only_the_last_is_smelts(
            JsonView::Object(dialect::enlisted_in_turn(hooks, names, dialect, notify, provider)),
            event,
            dialect,
            handler,
        ),
{
    list_laws::in_turn_is_at_once(hooks, names, dialect, notify, provider);
    let after = dialect::enlisted(hooks, names, dialect, notify, provider);
    let items = dialect::list_of(hooks, event);
    let ready = dialect::prepared_list(items, dialect);
    let out = json::list_under(JsonView::Object(after), event)->0;
    assert(out.drop_last() =~= ready);
    lemma_groups(items, dialect, false, handler);
    lemma_foreign(items, dialect, handler);
}

/// After hooks were added there is one of Smelt for each event, the last: those of an earlier
/// installation are gone.
pub proof fn earlier_hooks_are_replaced(
    groups: &mut Json,
    path: &str,
    names: &Vec<String>,
    notify: &str,
    provider: &str,
    a: Result<(), String>,
    copilot: &mut Json,
    b: Result<(), String>,
    cursor: &mut Json,
    c: Result<(), String>,
    antigravity: &mut Json,
    d: Result<(), String>,
    event: Seq<char>,
    handler: JsonView,
)
    requires
        call_ensures(merge_hook_file, (groups, path, names, notify, provider, false), a),
        call_ensures(merge_copilot_hooks, (copilot, notify), b),
        call_ensures(merge_cursor_hooks, (cursor, notify), c),
        call_ensures(merge_antigravity_hooks, (antigravity, notify), d),
        text::texts(names@).no_duplicates(),
    ensures
        a is Ok && text::texts(names@).contains(event) ==> only_the_last_is_smelts(
            json::member(final(groups).view(), "hooks"@)->0,
            event,
            Dialect::Groups,
            handler,
        ),
        b is Ok && events::copilot_events().contains(event) ==> only_the_last_is_smelts(
            json::member(final(copilot).view(), "hooks"@)->0,
            event,
            Dialect::Copilot,
            handler,
        ),
        c is Ok && events::cursor_events().contains(event) ==> only_the_last_is_smelts(
            json::member(final(cursor).view(), "hooks"@)->0,
            event,
            Dialect::Cursor,
            handler,
        ),
        d is Ok && events::antigravity_events().contains(event) ==> only_the_last_is_smelts(
            json::member(final(antigravity).view(), "smelt-status-notifications"@)->0,
            event,
            Dialect::Antigravity,
            handler,
        ),
{
    lemma_names();
    assert(document::failure(a) is None <==> a is Ok);
    assert(document::failure(b) is None <==> b is Ok);
    assert(document::failure(c) is None <==> c is Ok);
    assert(document::failure(d) is None <==> d is Ok);
    let all = text::texts(names@);
    if a is Ok && all.contains(event) {
        let hooks = document::section_of(old(groups).view()->Object_0, "hooks"@)->0;
        lemma_only_the_last(hooks, all, Dialect::Groups, notify@, provider@, event, handler);
    }
    if b is Ok && events::copilot_events().contains(event) {
        events::lemma_copilot_events();
        let entries = copilot::versioned(old(copilot).view()->Object_0);
        let hooks = document::section_of(entries, "hooks"@)->0;
        lemma_only_the_last(
            copilot::without_legacy(hooks),
            events::copilot_events(),
            Dialect::Copilot,
            notify@,
            "copilot"@,
            event,
            handler,
        );
    }
    if c is Ok && events::cursor_events().contains(event) {
        events::lemma_cursor_events();
        let before = cursor::removed(old(cursor).view());
        let entries = cursor::versioned(before->Object_0);
        let hooks = document::section_of(entries, "hooks"@)->0;
        if json::member(old(cursor).view(), "hooks"@) is Some {
            let whole = json::member(old(cursor).view(), "hooks"@)->0->Object_0;
            lemma_cleared(whole, cursor::any_event(), Dialect::Cursor, event, handler);
        }
        lemma_only_the_last(
            hooks,
            events::cursor_events(),
            Dialect::Cursor,
            notify@,
            "cursor"@,
            event,
            handler,
        );
    }
    if d is Ok && events::antigravity_events().contains(event) {
        events::lemma_antigravity_events();
        let key = antigravity::definition_name();
        let definition = document::section_of(old(antigravity).view()->Object_0, key)->0;
        let own = events::antigravity_events();
        lemma_cleared(definition, dialect::among(own), Dialect::Antigravity, event, handler);
        let on = antigravity::switched_on(definition);
        reveal_strlit("enabled");
        reveal_strlit("PreInvocation");
        reveal_strlit("PostInvocation");
        reveal_strlit("PostToolUse");
        reveal_strlit("Stop");
        let k = choose|k: int| 0 <= k < own.len() && own[k] == event;
        assert(event.len() != 7);
        assert("enabled"@.len() == 7);
        assert(json::member(JsonView::Object(on), event) == json::member(
            JsonView::Object(antigravity::without_own(definition)),
            event,
        ));
        lemma_only_the_last(
            on,
            own,
            Dialect::Antigravity,
            notify@,
            "antigravity"@,
            event,
            handler,
        );
    }
}

proof fn lemma_refused(
    hooks: HookLists,
    names: Seq<Seq<char>>,
    dialect: Dialect,
    notify: Seq<char>,
    provider: Seq<char>,
)
    ensures
        document::merged_lists(hooks, names, dialect, notify, provider).1 matches Some(message)
            ==> exists|i: int|
            0 <= i < names.len() && message == dialect::refusal(dialect, #[trigger] names[i]),
{
    if exists|at: int| dialect::blocked_at(hooks, names, at) {
        let at = choose|at: int| dialect::blocked_at(hooks, names, at);
        assert(dialect::blocked_at(hooks, names, at));
    }
}

/// Where something else than a list stands under an event, it is said under which.
pub proof fn what_is_no_list_is_named(
    copilot: &mut Json,
    b: Result<(), String>,
    cursor: &mut Json,
    c: Result<(), String>,
    antigravity: &mut Json,
    d: Result<(), String>,
    notify: &str,
)
    requires
        call_ensures(merge_copilot_hooks, (copilot, notify), b),
        call_ensures(merge_cursor_hooks, (cursor, notify), c),
        call_ensures(merge_antigravity_hooks, (antigravity, notify), d),
        json::member(old(copilot).view(), "hooks"@) matches Some(section) && section is Object,
        json::member(old(cursor).view(), "hooks"@) matches Some(section) && section is Object,
        json::member(
            old(antigravity).view(),
            "smelt-status-notifications"@,
        ) matches Some(section) && section is Object,
    ensures
        b matches Err(message) ==> exists|i: int|
            0 <= i < events::copilot_events().len() && message@ == "hooks."@ + (
            #[trigger] events::copilot_events()[i]) + " 不是数组"@,
        c matches Err(message) ==> exists|i: int|
            0 <= i < events::cursor_events().len() && message@ == "Cursor hooks."@ + (
            #[trigger] events::cursor_events()[i]) + " 不是数组"@,
        d matches Err(message) ==> exists|i: int|
            0 <= i < events::antigravity_events().len() && message@
                == "smelt-status-notifications."@ + (#[trigger] events::antigravity_events()[i])
                + " 不是数组"@,
{
    lemma_names();
    let one = copilot::versioned(old(copilot).view()->Object_0);
    lemma_refused(
        copilot::without_legacy(document::section_of(one, "hooks"@)->0),
        events::copilot_events(),
        Dialect::Copilot,
        notify@,
        "copilot"@,
    );
    let two = cursor::versioned(cursor::removed(old(cursor).view())->Object_0);
    lemma_refused(
        document::section_of(two, "hooks"@)->0,
        events::cursor_events(),
        Dialect::Cursor,
        notify@,
        "cursor"@,
    );
    let three = document::section_of(
        old(antigravity).view()->Object_0,
        antigravity::definition_name(),
    )->0;
    lemma_refused(
        antigravity::switched_on(three),
        events::antigravity_events(),
        Dialect::Antigravity,
        notify@,
        "antigravity"@,
    );
    assert(document::failure(b) is None <==> b is Ok);
    assert(document::failure(c) is None <==> c is Ok);
    assert(document::failure(d) is None <==> d is Ok);
}

} // verus!
