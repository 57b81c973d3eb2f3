//! What the pieces that hooks are installed with promise.

use vstd::prelude::*;

use crate::agent_hooks::antigravity;
use crate::agent_hooks::antigravity::{
    antigravity_event_installed, antigravity_hooks_installed, install_antigravity_hooks,
    merge_antigravity_hooks, remove_antigravity_hooks, remove_smelt_antigravity_handlers,
    uninstall_antigravity_hooks,
};
use crate::agent_hooks::claude::{install_claude_hooks, uninstall_claude_hooks, HookPlan};
use crate::agent_hooks::copilot::{
    copilot_hooks_installed, install_copilot_hooks, merge_copilot_hooks, remove_copilot_hooks,
    uninstall_copilot_hooks,
};
use crate::agent_hooks::cursor::{
    cursor_event_installed, cursor_hooks_installed, install_cursor_hooks, merge_cursor_hooks,
    remove_cursor_hooks, uninstall_cursor_hooks,
};
use crate::agent_hooks::dialect;
use crate::agent_hooks::dialect::{clear_events, enlist_events, list_has_hook, Dialect};
use crate::agent_hooks::document;
use crate::agent_hooks::document::{open_section, read_document, render_document, HookFile};
use crate::agent_hooks::events;
use crate::agent_hooks::handlers;
use crate::agent_hooks::handlers::{
    any_group_reports, any_reports, strip_groups, CommandKey,
};
use crate::agent_hooks::hook_file;
use crate::agent_hooks::hook_file::{
    document_installed, install_hook_file, merge_hook_file, remove_hooks, uninstall_hook_file,
};
use crate::agent_hooks::kiro;
use crate::agent_hooks::kiro::{
    install_kiro_hooks, kiro_event_installed, kiro_hooks_installed, merge_kiro_hooks,
    remove_kiro_hooks, uninstall_kiro_hooks,
};
use crate::agent_hooks::list_laws;
use crate::json;
use crate::json::{Json, JsonObject, JsonView};
use crate::promises::hook_edits::{
    can_be_added_to, in_groups, is_among, is_listed, is_others, lemma_blocked, lemma_cleared, lemma_groups,
    lemma_in_turn,
};
use crate::promises::hook_outcomes::{
    lemma_one_group_reports, lemma_one_reports, one_group_reports, one_reports,
};
use crate::shell;
use crate::text;

verus! {

/// The list has a handler that runs the helper for the event, where handlers are written so.
pub open spec fn reports_in(items: Seq<JsonView>, dialect: Dialect, event: Seq<char>) -> bool {
    match dialect {
        Dialect::Groups => one_group_reports(items, event, true),
        Dialect::BashGroups => one_group_reports(items, event, true),
        Dialect::Copilot => one_reports(items, "bash"@, event),
        Dialect::Cursor => one_reports(items, "command"@, event),
        Dialect::Antigravity => if event == "PostToolUse"@ {
            one_group_reports(items, event, false)
        } else {
            one_reports(items, "command"@, event)
        },
    }
}

pub proof fn lemma_reports_in(items: Seq<JsonView>, dialect: Dialect, event: Seq<char>)
    ensures
        dialect::list_reports(items, dialect, event) <==> reports_in(items, dialect, event),
{
    lemma_one_reports(items, event);
    lemma_one_group_reports(items, event);
}

/// A list has a hook for an event where one of its handlers runs the helper for it.
pub proof fn lists_have_hooks_by_their_handlers(
    items: &Vec<Json>,
    dialect: Dialect,
    event: &str,
    r: bool,
    plain: bool,
    grouped: bool,
)
    requires
        call_ensures(list_has_hook, (items, dialect, event), r),
        call_ensures(any_reports, (items, CommandKey::Command, event), plain),
        call_ensures(any_group_reports, (items, CommandKey::CommandOrBash, event), grouped),
    ensures
        r <==> reports_in(json::documents(items@), dialect, event@),
        plain <==> one_reports(json::documents(items@), "command"@, event@),
        grouped <==> one_group_reports(json::documents(items@), event@, true),
{
    lemma_reports_in(json::documents(items@), dialect, event@);
    lemma_one_reports(json::documents(items@), event@);
    lemma_one_group_reports(json::documents(items@), event@);
}

/// Clearing events takes Smelt's handlers from their lists and no others; all else stays.
pub proof fn clearing_takes_only_smelts(
    hooks: JsonObject,
    names: &Vec<String>,
    dialect: Dialect,
    r: JsonObject,
    event: Seq<char>,
    handler: JsonView,
)
    requires
        call_ensures(clear_events, (hooks, names, dialect), r),
    ensures
        ({
            let before = JsonView::Object(hooks.view());
            let after = JsonView::Object(r.view());
            let grouped = in_groups(dialect, event);
            &&& text::texts(names@).contains(event) ==> (is_listed(after, event, grouped, handler)
                <==> is_listed(before, event, grouped, handler) && is_others(handler, dialect))
            &&& !text::texts(names@).contains(event) ==> json::member(after, event)
                == json::member(before, event)
            &&& json::list_under(after, event) matches Some(items) ==> (text::texts(
                names@,
            ).contains(event) ==> items.len() > 0)
        }),
{
    lemma_cleared(
        hooks.view(),
        dialect::among(text::texts(names@)),
        dialect,
        event,
        handler,
    );
}

/// Smelt's definition for Antigravity loses Smelt's handlers under its events, and no others.
pub proof fn definitions_lose_only_smelts(
    definition: JsonObject,
    r: JsonObject,
    event: Seq<char>,
    handler: JsonView,
)
    requires
        call_ensures(remove_smelt_antigravity_handlers, (definition,), r),
    ensures
        ({
            let before = JsonView::Object(definition.view());
            let after = JsonView::Object(r.view());
            let grouped = in_groups(Dialect::Antigravity, event);
            let own = seq!["PreInvocation"@, "PostInvocation"@, "PostToolUse"@, "Stop"@].contains(
                event,
            );
            &&& own ==> (is_listed(after, event, grouped, handler) <==> is_listed(
                before,
                event,
                grouped,
                handler,
            ) && is_others(handler, Dialect::Antigravity))
            &&& !own ==> json::member(after, event) == json::member(before, event)
        }),
{
    lemma_cleared(
        definition.view(),
        dialect::among(events::antigravity_events()),
        Dialect::Antigravity,
        event,
        handler,
    );
}

/// Adding hooks for events keeps the handlers of others and the lists of other events.
pub proof fn enlisting_keeps_others(
    hooks: JsonObject,
    names: &Vec<String>,
    dialect: Dialect,
    notify: &str,
    provider: &str,
    r: (JsonObject, Result<(), String>),
    event: Seq<char>,
    handler: JsonView,
)
    requires
        call_ensures(enlist_events, (hooks, names, dialect, notify, provider), r),
        r.1 is Ok,
    ensures
        ({
            let before = JsonView::Object(hooks.view());
            let after = JsonView::Object(r.0.view());
            let grouped = in_groups(dialect, event);
            &&& is_listed(before, event, grouped, handler) && is_others(handler, dialect)
                ==> is_listed(after, event, grouped, handler)
            &&& !text::texts(names@).contains(event) ==> json::member(after, event)
                == json::member(before, event)
        }),
{
    let all = text::texts(names@);
    if is_listed(JsonView::Object(hooks.view()), event, in_groups(dialect, event), handler)
        && is_others(handler, dialect) {
        lemma_in_turn(hooks.view(), all, dialect, notify@, provider@, event, handler);
    }
    if !all.contains(event) {
        list_laws::in_turn_leaves_others(
            hooks.view(),
            all,
            dialect,
            notify@,
            provider@,
            event,
        );
    }
}

/// A group keeps the handlers of others; one without handlers of its own stays whatever it is, and
/// one that had only Smelt's goes.
pub proof fn groups_keep_the_handlers_of_others(
    groups: Vec<Json>,
    drop_empty: bool,
    r: Vec<Json>,
    handler: JsonView,
    i: int,
)
    requires
        call_ensures(strip_groups, (groups, CommandKey::CommandOrBash, drop_empty), r),
    ensures
        is_among(json::documents(r@), true, handler) <==> is_among(
            json::documents(groups@),
            true,
            handler,
        ) && is_others(handler, Dialect::Groups),
        0 <= i < groups@.len() && json::list_under(groups@[i].view(), "hooks"@) is None
            ==> json::documents(r@).contains(groups@[i].view()),
        !drop_empty && 0 <= i < groups@.len() && json::list_under(groups@[i].view(), "hooks"@)
            == Some(Seq::<JsonView>::empty()) ==> json::documents(r@).len() > 0,
        r@.len() <= groups@.len(),
        drop_empty && 0 <= i < r@.len() ==> (json::list_under(r@[i].view(), "hooks"@) matches Some(
            inner,
        ) ==> inner.len() > 0),
{
    let all = json::documents(groups@);
    let place = CommandKey::CommandOrBash;
    lemma_groups(all, Dialect::Groups, drop_empty, handler);
    let stays = |group: JsonView| handlers::group_stays(group, place, drop_empty);
    let kept = all.filter(stays);
    let out = json::documents(r@);
    assert(out == handlers::foreign_groups(all, place, drop_empty));
    assert(out.len() == r@.len());
    assert(all.len() == groups@.len());
    all.lemma_filter_len(stays);
    if 0 <= i < groups@.len() {
        assert(all[i] == groups@[i].view());
        let empty = Seq::<JsonView>::empty();
        if json::list_under(all[i], "hooks"@) is None || (!drop_empty && json::list_under(
            all[i],
            "hooks"@,
        ) == Some(empty)) {
            assert(!handlers::some_own(empty, place));
            crate::promises::lists::passing_items_are_picked(all, stays, i);
            let j = choose|j: int| 0 <= j < kept.len() && kept[j] == all[i];
            assert(out[j] == handlers::foreign_group(all[i], place));
        }
    }
    if drop_empty && 0 <= i < r@.len() {
        assert(out[i] == r@[i].view());
        crate::promises::lists::picked_items_pass(all, stays, i);
        assert(out[i] == handlers::foreign_group(kept[i], place));
    }
}

/// The events of an agent are reported in a section, each by one handler at least.
pub open spec fn all_reported(section: JsonView, names: Seq<Seq<char>>, dialect: Dialect) -> bool {
    forall|i: int|
        0 <= i < names.len() ==> (json::list_under(section, #[trigger] names[i]) matches Some(items)
            && reports_in(items, dialect, names[i]))
}

proof fn lemma_all_reported(
    hooks: dialect::HookLists,
    names: Seq<Seq<char>>,
    dialect: Dialect,
)
    ensures
        dialect::all_reported(hooks, names, dialect) <==> all_reported(
            JsonView::Object(hooks),
            names,
            dialect,
        ),
{
    let section = JsonView::Object(hooks);
    assert forall|i: int| 0 <= i < names.len() implies (dialect::list_reports(
        dialect::list_of(hooks, #[trigger] names[i]),
        dialect,
        names[i],
    ) <==> (json::list_under(section, names[i]) matches Some(items) && reports_in(
        items,
        dialect,
        names[i],
    ))) by {
        lemma_reports_in(dialect::list_of(hooks, names[i]), dialect, names[i]);
    }
    if dialect::all_reported(hooks, names, dialect) {
        assert forall|i: int| 0 <= i < names.len() implies (json::list_under(
            section,
            #[trigger] names[i],
        ) matches Some(items) && reports_in(items, dialect, names[i])) by {
            assert(dialect::list_reports(
                dialect::list_of(hooks, names[i]),
                dialect,
                names[i],
            ));
        }
    }
    if all_reported(section, names, dialect) {
        assert forall|i: int| 0 <= i < names.len() implies dialect::list_reports(
            dialect::list_of(hooks, #[trigger] names[i]),
            dialect,
            names[i],
        ) by {
            assert(json::list_under(section, names[i]) is Some);
        }
    }
}

/// A readable file whose every event is reported counts as installed where the helper is there,
/// and no other does.
pub proof fn reported_files_are_installed(
    content: &str,
    copilot: bool,
    cursor: bool,
    antigravity: bool,
    root: &Json,
    names: &Vec<String>,
    whole: bool,
)
    requires
        call_ensures(copilot_hooks_installed, (true, Some(content)), copilot),
        call_ensures(cursor_hooks_installed, (true, Some(content)), cursor),
        call_ensures(antigravity_hooks_installed, (true, Some(content)), antigravity),
        call_ensures(document_installed, (root, names), whole),
        json::parse_outcome(content@) is Ok,
    ensures
        ({
            let read = json::parse_outcome(content@)->Ok_0;
            let hooks = json::member(read, "hooks"@);
            let definition = json::member(read, "smelt-status-notifications"@);
            &&& copilot <==> hooks is Some && hooks->0 is Object && all_reported(
                hooks->0,
                seq![
                    "sessionStart"@,
                    "sessionEnd"@,
                    "userPromptSubmitted"@,
                    "preToolUse"@,
                    "postToolUse"@,
                    "postToolUseFailure"@,
                    "subagentStart"@,
                    "subagentStop"@,
                    "preCompact"@,
                    "agentStop"@,
                    "errorOccurred"@,
                    "permissionRequest"@,
                    "notification"@,
                ],
                Dialect::Copilot,
            )
            &&& cursor <==> hooks is Some && hooks->0 is Object && all_reported(
                hooks->0,
                seq![
                    "sessionStart"@,
                    "sessionEnd"@,
                    "preToolUse"@,
                    "postToolUse"@,
                    "postToolUseFailure"@,
                    "subagentStart"@,
                    "subagentStop"@,
                    "beforeSubmitPrompt"@,
                    "stop"@,
                ],
                Dialect::Cursor,
            )
            &&& antigravity <==> definition is Some && json::flag_under(
                definition->0,
                "enabled"@,
            ) != Some(false) && all_reported(
                definition->0,
                seq!["PreInvocation"@, "PostInvocation"@, "PostToolUse"@, "Stop"@],
                Dialect::Antigravity,
            )
        }),
        whole <==> (json::member(root.view(), "hooks"@) matches Some(section) && section is Object
            && all_reported(section, text::texts(names@), Dialect::Groups)),
{
    let read = json::parse_outcome(content@)->Ok_0;
    match json::member(read, "hooks"@) {
        Some(JsonView::Object(hooks)) => {
            lemma_all_reported(hooks, events::copilot_events(), Dialect::Copilot);
            lemma_all_reported(hooks, events::cursor_events(), Dialect::Cursor);
        },
        _ => {},
    }
    match json::member(root.view(), "hooks"@) {
        Some(JsonView::Object(hooks)) => {
            lemma_all_reported(hooks, text::texts(names@), Dialect::Groups);
        },
        _ => {},
    }
    match json::member(read, antigravity::definition_name()) {
        Some(definition) => {
            let own = events::antigravity_events();
            assert forall|i: int| 0 <= i < own.len() implies (antigravity::event_installed(
                definition,
                #[trigger] own[i],
            ) <==> (json::list_under(definition, own[i]) matches Some(items) && reports_in(
                items,
                Dialect::Antigravity,
                own[i],
            ))) by {
                match json::list_under(definition, own[i]) {
                    Some(items) => lemma_reports_in(items, Dialect::Antigravity, own[i]),
                    None => {},
                }
            }
            if all_reported(definition, own, Dialect::Antigravity) {
                assert forall|i: int| 0 <= i < own.len() implies antigravity::event_installed(
                    definition,
                    #[trigger] own[i],
                ) by {
                }
            }
            if forall|i: int|
                0 <= i < own.len() ==> antigravity::event_installed(definition, #[trigger] own[i]) {
                assert(all_reported(definition, own, Dialect::Antigravity));
            }
        },
        None => {},
    }
}

/// The hook is triggered by the event, is not switched off, and runs the helper for it.
pub open spec fn kiro_reports(hook: JsonView, event: Seq<char>) -> bool {
    &&& json::text_under(hook, "trigger"@) == Some(event)
    &&& json::flag_under(hook, "enabled"@) != Some(false)
    &&& json::member(hook, "action"@) matches Some(action)
    &&& json::text_under(action, "command"@) matches Some(command)
    &&& shell::runs_notify(command)
    &&& text::contains_text(command, "SMELT_HOOK_EVENT="@ + event)
}

/// One of the hooks in Kiro's file reports the event.
pub open spec fn kiro_has(root: JsonView, event: Seq<char>) -> bool {
    json::list_under(root, "hooks"@) matches Some(items) && exists|k: int|
        0 <= k < items.len() && kiro_reports(#[trigger] items[k], event)
}

proof fn lemma_kiro_has(root: JsonView, event: Seq<char>)
    ensures
        kiro::event_installed(root, event) <==> kiro_has(root, event),
{
    match json::list_under(root, "hooks"@) {
        Some(items) => {
            assert forall|k: int| 0 <= k < items.len() implies (kiro::hook_reports(
                #[trigger] items[k],
                event,
            ) <==> kiro_reports(items[k], event)) by {
            }
            if kiro::some_reports(items, event) {
                let k = choose|k: int| 0 <= k < items.len() && kiro::hook_reports(
                    #[trigger] items[k],
                    event,
                );
                assert(kiro_reports(items[k], event));
            }
            if kiro_has(root, event) {
                let k = choose|k: int| 0 <= k < items.len() && kiro_reports(
                    #[trigger] items[k],
                    event,
                );
                assert(kiro::hook_reports(items[k], event));
            }
        },
        None => {},
    }
}

/// An event is installed where it is reported, agent by agent; Kiro's file is where all its events
/// are.
pub proof fn events_are_installed_where_reported(
    root: &Json,
    event: &str,
    kiro: bool,
    cursor: bool,
    antigravity: bool,
    content: &str,
    whole: bool,
)
    requires
        call_ensures(kiro_event_installed, (root, event), kiro),
        !event@.contains('/'),
        !event@.contains('~'),
        call_ensures(cursor_event_installed, (root, event), cursor),
        call_ensures(antigravity_event_installed, (root, event), antigravity),
        call_ensures(kiro_hooks_installed, (true, Some(content)), whole),
        json::parse_outcome(content@) is Ok,
    ensures
        kiro <==> kiro_has(root.view(), event@),
        antigravity <==> (json::list_under(root.view(), event@) matches Some(items) && reports_in(
            items,
            Dialect::Antigravity,
            event@,
        )),
        json::member(root.view(), "hooks"@) matches Some(section) ==> (section is Object ==> (cursor
            <==> (json::list_under(section, event@) matches Some(items) && one_reports(
            items,
            "command"@,
            event@,
        )))),
        json::member(root.view(), "hooks"@) is None ==> !cursor && !kiro,
        ({
            let read = json::parse_outcome(content@)->Ok_0;
            whole <==> kiro_has(read, "SessionStart"@) && kiro_has(read, "UserPromptSubmit"@)
                && kiro_has(read, "PreToolUse"@) && kiro_has(read, "PostToolUse"@) && kiro_has(
                read,
                "Stop"@,
            )
        }),
{
    lemma_kiro_has(root.view(), event@);
    match json::list_under(root.view(), event@) {
        Some(items) => lemma_reports_in(items, Dialect::Antigravity, event@),
        None => {},
    }
    match json::member(root.view(), "hooks"@) {
        Some(JsonView::Object(hooks)) => {
            lemma_reports_in(dialect::list_of(hooks, event@), Dialect::Cursor, event@);
        },
        _ => {},
    }
    let read = json::parse_outcome(content@)->Ok_0;
    let own = events::kiro_events();
    assert(own.len() == 5);
    assert(own[0] == "SessionStart"@ && own[1] == "UserPromptSubmit"@ && own[2] == "PreToolUse"@
        && own[3] == "PostToolUse"@ && own[4] == "Stop"@);
    lemma_kiro_has(read, own[0]);
    lemma_kiro_has(read, own[1]);
    lemma_kiro_has(read, own[2]);
    lemma_kiro_has(read, own[3]);
    lemma_kiro_has(read, own[4]);
}

/// A missing file is read as an empty object; one that cannot be read or is not valid is told.
/// What is written is what is read, laid out for people, with a line end.
pub proof fn documents_are_read_and_written(
    file: &HookFile,
    complaint: &str,
    r: Result<Json, String>,
    document: &Json,
    written: Result<String, String>,
)
    requires
        call_ensures(read_document, (file, complaint), r),
        call_ensures(render_document, (document,), written),
    ensures
        file is Absent ==> (r matches Ok(read) && read.view() == JsonView::Object(Map::empty())),
        *file matches HookFile::Unreadable(reason) ==> (r matches Err(message) && message@
            == reason@),
        *file matches HookFile::Text(content) ==> match json::parse_outcome(content@) {
            Ok(found) => r matches Ok(read) && read.view() == found,
            Err(error) => r matches Err(message) && message@ == complaint@ + error,
        },
        written matches Ok(content) && content@ == json::pretty_text(document.view()) + "\n"@,
{
}

/// A section that is an object is taken out; one that is missing is empty; anything else stays.
pub proof fn sections_are_objects(
    entries: JsonObject,
    key: &str,
    r: (JsonObject, Option<JsonObject>),
    other: Seq<char>,
)
    requires
        call_ensures(open_section, (entries, key), r),
    ensures
        !entries.view().contains_key(key@) ==> (r.1 matches Some(section) && section.view()
            == Map::<Seq<char>, JsonView>::empty()),
        entries.view().contains_key(key@) ==> match entries.view()[key@] {
            JsonView::Object(found) => r.1 matches Some(section) && section.view() == found,
            _ => r.1 is None && r.0.view() == entries.view(),
        },
        other != key@ ==> (r.0.view().contains_key(other) <==> entries.view().contains_key(other)),
        other != key@ && entries.view().contains_key(other) ==> r.0.view()[other]
            == entries.view()[other],
{
}

/// Installing the first agent's hooks writes its own file and then Grok's; where the first fails
/// nothing is written, and where the second does only the first is.
pub proof fn both_files_are_written_in_turn(
    name: &str,
    notify: &str,
    available: bool,
    places: (&str, &str),
    first: &HookFile,
    grok: &HookFile,
    r: HookPlan,
    lost: HookPlan,
    names: &Vec<String>,
    a: Result<String, String>,
    b: Result<String, String>,
)
    requires
        call_ensures(
            install_claude_hooks,
            (name, notify, available, Some(places), first, grok),
            r,
        ),
        call_ensures(install_claude_hooks, (name, notify, available, None, first, grok), lost),
        text::texts(names@) == events::smelt_events(),
        call_ensures(install_hook_file, (notify, available, places.0, first, names, name), a),
        call_ensures(install_hook_file, (notify, available, places.1, grok, names, "grok"), b),
    ensures
        lost.edits@.len() == 0 && (lost.outcome matches Err(message) && message@
            == "无 home 目录"@),
        a matches Err(reason) ==> r.edits@.len() == 0 && (r.outcome matches Err(message)
            && message@ == reason@),
        a matches Ok(one) ==> r.edits@.len() > 0 && r.edits@[0].path@ == places.0@
            && r.edits@[0].content@ == one@,
        a is Ok ==> (b matches Err(reason) ==> r.edits@.len() == 1 && (r.outcome matches Err(
            message,
        ) && message@ == reason@)),
        a is Ok ==> (b matches Ok(two) ==> r.edits@.len() == 2 && r.outcome is Ok
            && r.edits@[1].path@ == places.1@ && r.edits@[1].content@ == two@),
{
    let out = r.view().edits;
    assert(out.len() == r.edits@.len());
    assert(lost.view().edits.len() == lost.edits@.len());
    assert forall|k: int| 0 <= k < r.edits@.len() implies out[k] == (
        (#[trigger] r.edits@[k]).path@,
        r.edits@[k].content@,
    ) by {
    }
    assert(document::failure(r.outcome) is None <==> r.outcome is Ok);
    if r.edits@.len() > 0 {
        assert(out[0] == (r.edits@[0].path@, r.edits@[0].content@));
    }
    if r.edits@.len() > 1 {
        assert(out[1] == (r.edits@[1].path@, r.edits@[1].content@));
    }
}

/// Removing them changes each file that has any, the first agent's before Grok's, and stops at the
/// first failure.
pub proof fn both_files_are_cleaned_in_turn(
    places: (&str, &str),
    first: &HookFile,
    grok: &HookFile,
    r: HookPlan,
    lost: HookPlan,
    names: &Vec<String>,
    a: Result<Option<String>, String>,
    b: Result<Option<String>, String>,
)
    requires
        call_ensures(uninstall_claude_hooks, (Some(places), first, grok), r),
        call_ensures(uninstall_claude_hooks, (None, first, grok), lost),
        text::texts(names@) == events::smelt_events(),
        call_ensures(uninstall_hook_file, (first, names), a),
        call_ensures(uninstall_hook_file, (grok, names), b),
    ensures
        lost.edits@.len() == 0 && lost.outcome is Ok,
        a matches Err(reason) ==> r.edits@.len() == 0 && (r.outcome matches Err(message)
            && message@ == reason@),
        a matches Ok(Some(one)) ==> r.edits@.len() > 0 && r.edits@[0].path@ == places.0@
            && r.edits@[0].content@ == one@,
        a is Ok ==> (b matches Err(reason) ==> (r.outcome matches Err(message) && message@
            == reason@)),
        a is Ok && b is Ok ==> r.outcome is Ok && r.edits@.len() == (if a->Ok_0 is Some {
            1int
        } else {
            0
        }) + (if b->Ok_0 is Some {
            1int
        } else {
            0
        }),
        a is Ok ==> (b matches Ok(Some(two)) ==> r.edits@.last().path@ == places.1@
            && r.edits@.last().content@ == two@),
{
    let out = r.view().edits;
    assert(out.len() == r.edits@.len());
    assert(lost.view().edits.len() == lost.edits@.len());
    assert forall|k: int| 0 <= k < r.edits@.len() implies out[k] == (
        (#[trigger] r.edits@[k]).path@,
        r.edits@[k].content@,
    ) by {
    }
    assert(document::failure(r.outcome) is None <==> r.outcome is Ok);
    assert(document::failure(lost.outcome) is None <==> lost.outcome is Ok);
    if r.edits@.len() > 0 {
        assert(out[0] == (r.edits@[0].path@, r.edits@[0].content@));
        assert(out.last() == (r.edits@.last().path@, r.edits@.last().content@));
    }
}

/// In the format with versions an empty document becomes an object that says its version, and
/// groups run their command with bash.
pub proof fn versioned_files_say_their_version(
    root: &mut Json,
    path: &str,
    names: &Vec<String>,
    notify: &str,
    provider: &str,
    r: Result<(), String>,
    event: Seq<char>,
)
    requires
        call_ensures(merge_hook_file, (root, path, names, notify, provider, true), r),
        old(root).view() is Null || old(root).view() is Object,
        text::texts(names@).contains(event),
        r is Ok,
    ensures
        json::member(final(root).view(), "version"@) == Some(JsonView::Number(text::decimal(1))),
        json::member(final(root).view(), "hooks"@) matches Some(section) && (json::list_under(
            section,
            event,
        ) matches Some(groups) && groups.len() > 0 && json::text_under(
            groups.last(),
            "matcher"@,
        ) == Some(""@) && (json::list_under(groups.last(), "hooks"@) matches Some(inner)
            && inner.len() == 1 && json::text_under(inner[0], "bash"@) == Some(
            shell::hook_command(notify@, provider@, event),
        ))),
{
    let all = text::texts(names@);
    assert(document::failure(r) is None);
    reveal_strlit("hooks");
    reveal_strlit("version");
    assert("hooks"@.len() == 5 && "version"@.len() == 7);
    dialect::lemma_keys_differ();
    let opened = if old(root).view() is Null {
        Map::<Seq<char>, JsonView>::empty()
    } else {
        old(root).view()->Object_0
    };
    let entries = hook_file::versioned(opened, true);
    let hooks = document::section_of(entries, "hooks"@)->0;
    list_laws::lists_end_in_own_hooks(
        hooks,
        all,
        Dialect::BashGroups,
        notify@,
        provider@,
        event,
    );
}

/// What is written when hooks are installed is the changed document, laid out for people, with a
/// line end; where it cannot be changed its complaint is handed on.
pub proof fn what_is_added_is_written(
    notify: &str,
    place: &str,
    content: String,
    names: &Vec<String>,
    provider: &str,
    groups: &mut Json,
    a: Result<(), String>,
    file: Result<String, String>,
    copilot: &mut Json,
    b: Result<(), String>,
    copilot_file: Result<String, String>,
    cursor: &mut Json,
    c: Result<(), String>,
    cursor_file: Result<String, String>,
    kiro: &mut Json,
    d: Result<(), String>,
    kiro_file: Result<String, String>,
    antigravity: &mut Json,
    e: Result<(), String>,
    antigravity_file: Result<String, String>,
)
    requires
        json::parse_outcome(content@) == Ok::<JsonView, Seq<char>>(old(groups).view()),
        old(copilot).view() == old(groups).view(),
        old(cursor).view() == old(groups).view(),
        old(kiro).view() == old(groups).view(),
        old(antigravity).view() == old(groups).view(),
        call_ensures(merge_hook_file, (groups, place, names, notify, provider, false), a),
        call_ensures(
            install_hook_file,
            (notify, true, place, &HookFile::Text(content), names, provider),
            file,
        ),
        call_ensures(merge_copilot_hooks, (copilot, notify), b),
        call_ensures(
            install_copilot_hooks,
            (notify, true, Some(place), &HookFile::Text(content)),
            copilot_file,
        ),
        call_ensures(merge_cursor_hooks, (cursor, notify), c),
        call_ensures(
            install_cursor_hooks,
            (notify, true, Some(place), &HookFile::Text(content)),
            cursor_file,
        ),
        call_ensures(merge_kiro_hooks, (kiro, notify), d),
        call_ensures(
            install_kiro_hooks,
            (notify, true, Some(place), &HookFile::Text(content)),
            kiro_file,
        ),
        call_ensures(merge_antigravity_hooks, (antigravity, notify), e),
        call_ensures(
            install_antigravity_hooks,
            (notify, true, Some(place), &HookFile::Text(content)),
            antigravity_file,
        ),
    ensures
        hands_on(a, final(groups).view(), file),
        hands_on(b, final(copilot).view(), copilot_file),
        hands_on(c, final(cursor).view(), cursor_file),
        hands_on(d, final(kiro).view(), kiro_file),
        hands_on(e, final(antigravity).view(), antigravity_file),
{
    assert(document::failure(a) is None <==> a is Ok);
    assert(document::failure(b) is None <==> b is Ok);
    assert(document::failure(c) is None <==> c is Ok);
    assert(document::failure(d) is None <==> d is Ok);
    assert(document::failure(e) is None <==> e is Ok);
}

/// The document is written where it was changed, and the complaint is handed on where it was not.
pub open spec fn hands_on(
    change: Result<(), String>,
    document: JsonView,
    written: Result<String, String>,
) -> bool {
    match change {
        Ok(_) => written matches Ok(content) && content@ == json::pretty_text(document) + "\n"@,
        Err(reason) => written matches Err(message) && message@ == reason@,
    }
}

/// What is written when hooks are removed is the document without them, laid out for people, with
/// a line end; where nothing can be removed nothing is written.
pub proof fn what_is_left_is_written(
    place: &str,
    content: String,
    names: &Vec<String>,
    groups: &mut Json,
    a: bool,
    file: Result<Option<String>, String>,
    copilot: &mut Json,
    b: bool,
    copilot_file: Result<Option<String>, String>,
    cursor: &mut Json,
    cursor_file: Result<Option<String>, String>,
    kiro: &mut Json,
    kiro_file: Result<Option<String>, String>,
    antigravity: &mut Json,
    e: bool,
    antigravity_file: Result<Option<String>, String>,
)
    requires
        json::parse_outcome(content@) == Ok::<JsonView, Seq<char>>(old(groups).view()),
        old(copilot).view() == old(groups).view(),
        old(cursor).view() == old(groups).view(),
        old(kiro).view() == old(groups).view(),
        old(antigravity).view() == old(groups).view(),
        call_ensures(remove_hooks, (groups, names), a),
        call_ensures(uninstall_hook_file, (&HookFile::Text(content), names), file),
        call_ensures(remove_copilot_hooks, (copilot,), b),
        call_ensures(uninstall_copilot_hooks, (&HookFile::Text(content),), copilot_file),
        call_ensures(remove_cursor_hooks, (cursor,), ()),
        call_ensures(uninstall_cursor_hooks, (Some(place), &HookFile::Text(content)), cursor_file),
        call_ensures(remove_kiro_hooks, (kiro,), ()),
        call_ensures(uninstall_kiro_hooks, (Some(place), &HookFile::Text(content)), kiro_file),
        call_ensures(remove_antigravity_hooks, (antigravity,), e),
        call_ensures(
            uninstall_antigravity_hooks,
            (Some(place), &HookFile::Text(content)),
            antigravity_file,
        ),
    ensures
        leaves(a, final(groups).view(), file),
        leaves(b, final(copilot).view(), copilot_file),
        leaves(true, final(cursor).view(), cursor_file),
        leaves(true, final(kiro).view(), kiro_file),
        leaves(e, final(antigravity).view(), antigravity_file),
{
}

/// The document is written where something could be removed, and nothing is where not.
pub open spec fn leaves(
    changed: bool,
    document: JsonView,
    written: Result<Option<String>, String>,
) -> bool {
    written matches Ok(change) && if changed {
        change is Some && (change->0)@ == json::pretty_text(document) + "\n"@
    } else {
        change is None
    }
}

/// Hooks cannot be added where something else than a list stands under one of the events; the
/// first of them is named.
pub proof fn enlisting_names_what_is_no_list(
    hooks: JsonObject,
    names: &Vec<String>,
    dialect: Dialect,
    notify: &str,
    provider: &str,
    r: (JsonObject, Result<(), String>),
)
    requires
        call_ensures(enlist_events, (hooks, names, dialect, notify, provider), r),
    ensures
        r.1 is Ok <==> can_be_added_to(JsonView::Object(hooks.view()), text::texts(names@)),
        r.1 matches Err(message) ==> exists|i: int|
            0 <= i < names@.len() && message@ == (match dialect {
                Dialect::Cursor => "Cursor hooks."@,
                Dialect::Antigravity => "smelt-status-notifications."@,
                _ => "hooks."@,
            }) + (#[trigger] names@[i])@ + " 不是数组"@,
{
    let all = text::texts(names@);
    let section = JsonView::Object(hooks.view());
    lemma_blocked(hooks.view(), all);
    match r.1 {
        Ok(_) => {
            assert forall|i: int| 0 <= i < all.len() implies (json::member(
                section,
                #[trigger] all[i],
            ) matches Some(found) ==> found is Array) by {
                assert(dialect::listable(hooks.view(), all[i]));
            }
        },
        Err(message) => {
            let at = choose|at: int| #[trigger]
                dialect::blocked_at(hooks.view(), all, at) && message@ == dialect::refusal(
                    dialect,
                    all[at],
                );
            assert(all[at] == names@[at]@);
        },
    }
}

} // verus!
