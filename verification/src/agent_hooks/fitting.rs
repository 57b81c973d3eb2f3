//! Adding Smelt's hooks to a document that can be written and read again gives another one.

use vstd::prelude::*;

use crate::agent_hooks::dialect;
use crate::agent_hooks::dialect::{Dialect, HookLists};
use crate::agent_hooks::document;
use crate::agent_hooks::handlers;
use crate::agent_hooks::handlers::CommandKey;
use crate::json;
use crate::json::JsonView;
use crate::shell;

verus! {

/// Room for deeper documents is room for this one.
pub proof fn lemma_deeper(document: JsonView, less: nat, more: nat)
    requires
        json::fits(document, less),
        less <= more,
    ensures
        json::fits(document, more),
    decreases less,
{
    match document {
        JsonView::Array(items) => {
            assert forall|i: int| 0 <= i < items.len() implies json::fits(
                #[trigger] items[i],
                (more - 1) as nat,
            ) by {
                lemma_deeper(items[i], (less - 1) as nat, (more - 1) as nat);
            }
        },
        JsonView::Object(entries) => {
            assert forall|key: Seq<char>|
                #![trigger entries[key]]
                entries.contains_key(key) implies json::fits(entries[key], (more - 1) as nat) by {
                lemma_deeper(entries[key], (less - 1) as nat, (more - 1) as nat);
            }
        },
        _ => {},
    }
}

/// The value under a key fits one level below its object.
pub proof fn lemma_entry_fits(entries: Map<Seq<char>, JsonView>, key: Seq<char>, depth: nat)
    requires
        json::fits(JsonView::Object(entries), depth),
        entries.contains_key(key),
    ensures
        depth > 0,
        json::fits(entries[key], (depth - 1) as nat),
{
    let document = JsonView::Object(entries);
    match document {
        JsonView::Object(inner) => {
            assert(depth > 0);
            assert(inner.contains_key(key));
            assert(json::fits(inner[key], (depth - 1) as nat));
        },
        _ => {},
    }
}

/// Every document of the list fits.
pub open spec fn all_fit(items: Seq<JsonView>, depth: nat) -> bool {
    forall|i: int| 0 <= i < items.len() ==> json::fits(#[trigger] items[i], depth)
}

pub proof fn lemma_filter_fits(
    items: Seq<JsonView>,
    keep: spec_fn(JsonView) -> bool,
    depth: nat,
)
    requires
        all_fit(items, depth),
    ensures
        all_fit(items.filter(keep), depth),
    decreases items.len(),
{
    reveal(Seq::filter);
    if items.len() > 0 {
        let init = items.drop_last();
        assert forall|i: int| 0 <= i < init.len() implies json::fits(#[trigger] init[i], depth) by {
            assert(init[i] == items[i]);
        }
        lemma_filter_fits(init, keep, depth);
        let kept = init.filter(keep);
        assert forall|i: int| 0 <= i < items.filter(keep).len() implies json::fits(
            #[trigger] items.filter(keep)[i],
            depth,
        ) by {
            if i < kept.len() {
                assert(items.filter(keep)[i] == kept[i]);
            } else {
                assert(items.filter(keep)[i] == items[items.len() - 1]);
            }
        }
    }
}

proof fn lemma_group_fits(group: JsonView, place: CommandKey, depth: nat)
    requires
        json::fits(group, depth),
    ensures
        json::fits(handlers::foreign_group(group, place), depth),
{
    match handlers::nested(group) {
        Some(items) => {
            let entries = group->Object_0;
            lemma_entry_fits(entries, "hooks"@, depth);
            lemma_filter_fits(
                items,
                |handler: JsonView| !handlers::is_own(handler, place),
                (depth - 2) as nat,
            );
            lemma_insert_fits(
                entries,
                "hooks"@,
                JsonView::Array(handlers::foreign(items, place)),
                depth,
            );
        },
        None => {},
    }
}

proof fn lemma_groups_fit(groups: Seq<JsonView>, place: CommandKey, drop_empty: bool, depth: nat)
    requires
        all_fit(groups, depth),
    ensures
        all_fit(handlers::foreign_groups(groups, place, drop_empty), depth),
{
    let keep = |group: JsonView| handlers::group_stays(group, place, drop_empty);
    lemma_filter_fits(groups, keep, depth);
    let kept = groups.filter(keep);
    let out = handlers::foreign_groups(groups, place, drop_empty);
    assert forall|i: int| 0 <= i < out.len() implies json::fits(#[trigger] out[i], depth) by {
        lemma_group_fits(kept[i], place, depth);
    }
}

/// A list that Smelt prepares for its hook fits where the list fitted.
pub proof fn lemma_prepared_fits(items: Seq<JsonView>, dialect: Dialect, depth: nat)
    requires
        all_fit(items, depth),
    ensures
        all_fit(dialect::prepared_list(items, dialect), depth),
{
    lemma_groups_fit(items, CommandKey::CommandOrBash, false, depth);
    lemma_filter_fits(
        items,
        |handler: JsonView| !handlers::is_own(handler, CommandKey::Bash),
        depth,
    );
}

/// A list from which Smelt takes its hooks fits where the list fitted.
pub proof fn lemma_foreign_fits(
    items: Seq<JsonView>,
    dialect: Dialect,
    event: Seq<char>,
    depth: nat,
)
    requires
        all_fit(items, depth),
    ensures
        all_fit(dialect::foreign_list(items, dialect, event), depth),
{
    lemma_groups_fit(items, CommandKey::CommandOrBash, true, depth);
    lemma_groups_fit(items, CommandKey::Command, true, depth);
    lemma_filter_fits(
        items,
        |handler: JsonView| !handlers::is_own(handler, CommandKey::Bash),
        depth,
    );
    lemma_filter_fits(
        items,
        |handler: JsonView| !handlers::is_own(handler, CommandKey::Command),
        depth,
    );
}

proof fn lemma_hook_fits(dialect: Dialect, command: Seq<char>, event: Seq<char>)
    ensures
        json::fits(dialect::own_hook(dialect, command, event), 3),
{
    dialect::lemma_keys_differ();
    reveal_with_fuel(json::fits, 4);
    let shell = dialect::shell_handler(command);
    let bash = dialect::bash_handler(command);
    assert(json::fits(shell, 1));
    assert(json::fits(bash, 1));
    assert(json::fits(dialect::bare_command(command), 1));
    lemma_deeper(shell, 1, 3);
    lemma_deeper(bash, 1, 3);
    lemma_deeper(dialect::bare_command(command), 1, 3);
    assert(json::fits(dialect::group_of(shell), 3));
    assert(json::fits(dialect::group_of(bash), 3));
}

/// The lists with Smelt's hooks fit where the lists fitted.
pub proof fn lemma_enlisted_fits(
    hooks: HookLists,
    events: Seq<Seq<char>>,
    dialect: Dialect,
    notify: Seq<char>,
    provider: Seq<char>,
    depth: nat,
)
    requires
        json::fits(JsonView::Object(hooks), depth),
        depth >= 5,
    ensures
        json::fits(
            JsonView::Object(dialect::enlisted_in_turn(hooks, events, dialect, notify, provider)),
            depth,
        ),
    decreases events.len(),
{
    if events.len() > 0 {
        let init = events.drop_last();
        let event = events.last();
        let before = dialect::enlisted_in_turn(hooks, init, dialect, notify, provider);
        lemma_enlisted_fits(hooks, init, dialect, notify, provider, depth);
        let items = dialect::list_of(before, event);
        if before.contains_key(event) {
            lemma_entry_fits(before, event, depth);
        }
        assert(all_fit(items, (depth - 2) as nat));
        lemma_prepared_fits(items, dialect, (depth - 2) as nat);
        let command = shell::hook_command(notify, provider, event);
        let hook = dialect::own_hook(dialect, command, event);
        lemma_hook_fits(dialect, command, event);
        lemma_deeper(hook, 3, (depth - 2) as nat);
        let list = dialect::prepared_list(items, dialect).push(hook);
        assert(all_fit(list, (depth - 2) as nat));
        lemma_insert_fits(before, event, JsonView::Array(list), depth);
    }
}

/// The lists without Smelt's hooks fit where the lists fitted.
pub proof fn lemma_cleared_fits(
    hooks: HookLists,
    chosen: spec_fn(Seq<char>) -> bool,
    dialect: Dialect,
    depth: nat,
)
    requires
        json::fits(JsonView::Object(hooks), depth),
    ensures
        json::fits(JsonView::Object(dialect::cleared(hooks, chosen, dialect)), depth),
{
    let out = dialect::cleared(hooks, chosen, dialect);
    assert forall|event: Seq<char>|
        #![trigger out[event]]
        out.contains_key(event) implies json::fits(out[event], (depth - 1) as nat) by {
        lemma_entry_fits(hooks, event, depth);
        if chosen(event) && hooks[event] is Array {
            lemma_foreign_fits(
                dialect::list_of(hooks, event),
                dialect,
                event,
                (depth - 2) as nat,
            );
        }
    }
}

/// A document fits with another entry that fits.
pub proof fn lemma_insert_fits(
    entries: Map<Seq<char>, JsonView>,
    key: Seq<char>,
    value: JsonView,
    depth: nat,
)
    requires
        json::fits(JsonView::Object(entries), depth),
        depth > 0,
        json::fits(value, (depth - 1) as nat),
    ensures
        json::fits(JsonView::Object(entries.insert(key, value)), depth),
{
    let out = entries.insert(key, value);
    assert forall|other: Seq<char>|
        #![trigger out[other]]
        out.contains_key(other) implies json::fits(out[other], (depth - 1) as nat) by {
        if other != key {
            lemma_entry_fits(entries, other, depth);
        }
    }
}

/// A section fits one level below its document.
pub proof fn lemma_section_fits(
    entries: Map<Seq<char>, JsonView>,
    key: Seq<char>,
    depth: nat,
)
    requires
        json::fits(JsonView::Object(entries), depth),
        depth > 1,
    ensures
        document::section_of(entries, key) matches Some(section) ==> json::fits(
            JsonView::Object(section),
            (depth - 1) as nat,
        ),
{
    if entries.contains_key(key) {
        lemma_entry_fits(entries, key, depth);
    }
}

} // verus!
