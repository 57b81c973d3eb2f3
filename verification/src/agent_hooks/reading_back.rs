//! What is written to a file and read again says the same of Smelt's hooks, although reading may
//! round numbers with a fraction.

use vstd::prelude::*;

use crate::agent_hooks::dialect;
use crate::agent_hooks::dialect::{Dialect, HookLists};
use crate::agent_hooks::handlers;
use crate::agent_hooks::handlers::CommandKey;
use crate::json;
use crate::json::JsonView;
use crate::text;

verus! {

/// The documents of two lists differ at most in numbers that are not whole.
pub open spec fn all_alike(one: Seq<JsonView>, other: Seq<JsonView>, depth: nat) -> bool {
    one.len() == other.len() && forall|i: int|
        0 <= i < one.len() ==> json::alike(#[trigger] one[i], other[i], depth)
}

/// Every number of the document is a whole one, and the document is at most `depth` deep.
pub open spec fn only_whole(document: JsonView, depth: nat) -> bool
    decreases depth,
{
    match document {
        JsonView::Number(number) => json::is_whole(number),
        JsonView::Array(items) => depth > 0 && forall|i: int|
            0 <= i < items.len() ==> only_whole(#[trigger] items[i], (depth - 1) as nat),
        JsonView::Object(entries) => depth > 0 && forall|key: Seq<char>|
            #![trigger entries[key]]
            entries.contains_key(key) ==> only_whole(entries[key], (depth - 1) as nat),
        _ => true,
    }
}

/// A document of whole numbers comes back as it was.
pub proof fn whole_documents_come_back(one: JsonView, other: JsonView, whole: nat, depth: nat)
    requires
        only_whole(one, whole),
        json::alike(one, other, depth),
    ensures
        one == other,
    decreases depth,
{
    match (one, other) {
        (JsonView::Array(a), JsonView::Array(b)) => {
            assert forall|i: int| 0 <= i < a.len() implies a[i] == b[i] by {
                assert(json::alike(a[i], b[i], (depth - 1) as nat));
                whole_documents_come_back(a[i], b[i], (whole - 1) as nat, (depth - 1) as nat);
            }
            assert(a =~= b);
        },
        (JsonView::Object(a), JsonView::Object(b)) => {
            assert forall|key: Seq<char>| a.contains_key(key) implies #[trigger] a[key]
                == b[key] by {
                assert(json::alike(a[key], b[key], (depth - 1) as nat));
                whole_documents_come_back(a[key], b[key], (whole - 1) as nat, (depth - 1) as nat);
            }
            assert forall|key: Seq<char>| #[trigger] a.dom().contains(key) <==> b.dom().contains(
                key,
            ) by {
                assert(a.contains_key(key) <==> b.contains_key(key));
            }
            assert(a =~= b);
        },
        _ => {},
    }
}

/// What stands under a key is alike where the documents are.
pub proof fn lemma_member(one: JsonView, other: JsonView, key: Seq<char>, depth: nat)
    requires
        json::alike(one, other, depth),
    ensures
        match (json::member(one, key), json::member(other, key)) {
            (Some(a), Some(b)) => depth > 0 && json::alike(a, b, (depth - 1) as nat),
            (None, None) => true,
            _ => false,
        },
        json::text_under(one, key) == json::text_under(other, key),
        json::flag_under(one, key) == json::flag_under(other, key),
        match (json::list_under(one, key), json::list_under(other, key)) {
            (Some(a), Some(b)) => depth > 1 && all_alike(a, b, (depth - 2) as nat),
            (None, None) => true,
            _ => false,
        },
{
    match (one, other) {
        (JsonView::Object(a), JsonView::Object(b)) => {
            assert(a.contains_key(key) <==> b.contains_key(key));
            if a.contains_key(key) {
                assert(json::alike(a[key], b[key], (depth - 1) as nat));
                match (a[key], b[key]) {
                    (JsonView::Array(x), JsonView::Array(y)) => {
                        assert forall|i: int| 0 <= i < x.len() implies json::alike(
                            #[trigger] x[i],
                            y[i],
                            (depth - 2) as nat,
                        ) by {}
                    },
                    _ => {},
                }
            }
        },
        _ => {},
    }
}

/// Whether a handler is Smelt's, and what it reports, shows in the file that is read again.
pub proof fn lemma_handler(
    one: JsonView,
    other: JsonView,
    place: CommandKey,
    event: Seq<char>,
    depth: nat,
)
    requires
        json::alike(one, other, depth),
    ensures
        handlers::is_own(one, place) == handlers::is_own(other, place),
        handlers::reports(one, place, event) == handlers::reports(other, place, event),
{
    lemma_member(one, other, "command"@, depth);
    lemma_member(one, other, "bash"@, depth);
    lemma_member(one, other, "action"@, depth);
    match (json::member(one, "action"@), json::member(other, "action"@)) {
        (Some(a), Some(b)) => lemma_member(a, b, "command"@, (depth - 1) as nat),
        _ => {},
    }
}

/// As for a handler, so for a list of them.
pub proof fn lemma_handlers(
    one: Seq<JsonView>,
    other: Seq<JsonView>,
    place: CommandKey,
    event: Seq<char>,
    depth: nat,
)
    requires
        all_alike(one, other, depth),
    ensures
        handlers::some_own(one, place) == handlers::some_own(other, place),
        handlers::some_reports(one, place, event) == handlers::some_reports(other, place, event),
{
    assert forall|i: int| 0 <= i < one.len() implies handlers::is_own(#[trigger] one[i], place)
        == handlers::is_own(other[i], place) && handlers::reports(one[i], place, event)
        == handlers::reports(other[i], place, event) by {
        lemma_handler(one[i], other[i], place, event, depth);
    }
    if handlers::some_own(one, place) {
        let i = choose|i: int| 0 <= i < one.len() && handlers::is_own(#[trigger] one[i], place);
        assert(handlers::is_own(other[i], place));
    }
    if handlers::some_own(other, place) {
        let i = choose|i: int| 0 <= i < other.len() && handlers::is_own(#[trigger] other[i], place);
        assert(handlers::is_own(one[i], place));
    }
    if handlers::some_reports(one, place, event) {
        let i = choose|i: int|
            0 <= i < one.len() && handlers::reports(#[trigger] one[i], place, event);
        assert(handlers::reports(other[i], place, event));
    }
    if handlers::some_reports(other, place, event) {
        let i = choose|i: int|
            0 <= i < other.len() && handlers::reports(#[trigger] other[i], place, event);
        assert(handlers::reports(one[i], place, event));
    }
}

spec fn group_reports(group: JsonView, place: CommandKey, event: Seq<char>) -> bool {
    handlers::nested(group) matches Some(items) && handlers::some_reports(items, place, event)
}

proof fn lemma_group(
    one: JsonView,
    other: JsonView,
    place: CommandKey,
    event: Seq<char>,
    depth: nat,
)
    requires
        json::alike(one, other, depth),
    ensures
        group_reports(one, place, event) == group_reports(other, place, event),
{
    lemma_member(one, other, "hooks"@, depth);
    match (handlers::nested(one), handlers::nested(other)) {
        (Some(a), Some(b)) => lemma_handlers(a, b, place, event, (depth - 2) as nat),
        _ => {},
    }
}

proof fn lemma_groups(
    one: Seq<JsonView>,
    other: Seq<JsonView>,
    place: CommandKey,
    event: Seq<char>,
    depth: nat,
)
    requires
        all_alike(one, other, depth),
    ensures
        handlers::some_group_reports(one, place, event) == handlers::some_group_reports(
            other,
            place,
            event,
        ),
{
    assert forall|i: int| 0 <= i < one.len() implies group_reports(#[trigger] one[i], place, event)
        == group_reports(other[i], place, event) by {
        lemma_group(one[i], other[i], place, event, depth);
    }
    if handlers::some_group_reports(one, place, event) {
        let i = choose|i: int|
            0 <= i < one.len() && (handlers::nested(#[trigger] one[i]) matches Some(items)
                && handlers::some_reports(items, place, event));
        assert(group_reports(one[i], place, event));
        assert(group_reports(other[i], place, event));
    }
    if handlers::some_group_reports(other, place, event) {
        let i = choose|i: int|
            0 <= i < other.len() && (handlers::nested(#[trigger] other[i]) matches Some(items)
                && handlers::some_reports(items, place, event));
        assert(group_reports(other[i], place, event));
        assert(one[i] == one[i]);
        assert(group_reports(one[i], place, event));
    }
}

/// Whether a list reports an event shows in the file that is read again.
pub proof fn lemma_list(
    one: Seq<JsonView>,
    other: Seq<JsonView>,
    dialect: Dialect,
    event: Seq<char>,
    depth: nat,
)
    requires
        all_alike(one, other, depth),
    ensures
        dialect::list_reports(one, dialect, event) == dialect::list_reports(other, dialect, event),
{
    lemma_groups(one, other, CommandKey::CommandOrBash, event, depth);
    lemma_groups(one, other, CommandKey::Command, event, depth);
    lemma_handlers(one, other, CommandKey::Bash, event, depth);
    lemma_handlers(one, other, CommandKey::Command, event, depth);
}

/// Whether an event is reported shows in the file that is read again.
pub proof fn lemma_event(
    one: HookLists,
    other: HookLists,
    dialect: Dialect,
    event: Seq<char>,
    depth: nat,
)
    requires
        json::alike(JsonView::Object(one), JsonView::Object(other), depth),
    ensures
        dialect::list_reports(dialect::list_of(one, event), dialect, event)
            == dialect::list_reports(dialect::list_of(other, event), dialect, event),
{
    lemma_member(JsonView::Object(one), JsonView::Object(other), event, depth);
    match (
        json::list_under(JsonView::Object(one), event),
        json::list_under(JsonView::Object(other), event),
    ) {
        (Some(a), Some(b)) => lemma_list(a, b, dialect, event, (depth - 2) as nat),
        _ => {
            assert(dialect::list_of(one, event) =~= dialect::list_of(other, event));
        },
    }
}

/// Whether every event is reported shows in the file that is read again.
pub proof fn lemma_events(
    one: HookLists,
    other: HookLists,
    dialect: Dialect,
    events: Seq<Seq<char>>,
    depth: nat,
)
    requires
        json::alike(JsonView::Object(one), JsonView::Object(other), depth),
    ensures
        dialect::all_reported(one, events, dialect) == dialect::all_reported(
            other,
            events,
            dialect,
        ),
{
    assert forall|i: int| 0 <= i < events.len() implies dialect::list_reports(
        dialect::list_of(one, #[trigger] events[i]),
        dialect,
        events[i],
    ) == dialect::list_reports(dialect::list_of(other, events[i]), dialect, events[i]) by {
        lemma_event(one, other, dialect, events[i], depth);
    }
}

/// The same for the lists under a key of a document.
pub proof fn lemma_section(
    one: JsonView,
    other: JsonView,
    key: Seq<char>,
    dialect: Dialect,
    events: Seq<Seq<char>>,
    depth: nat,
)
    requires
        json::alike(one, other, depth),
    ensures
        (json::member(one, key) matches Some(JsonView::Object(hooks)) && dialect::all_reported(
            hooks,
            events,
            dialect,
        )) == (json::member(other, key) matches Some(JsonView::Object(hooks))
            && dialect::all_reported(hooks, events, dialect)),
{
    lemma_member(one, other, key, depth);
    match (json::member(one, key), json::member(other, key)) {
        (Some(JsonView::Object(a)), Some(JsonView::Object(b))) => lemma_events(
            a,
            b,
            dialect,
            events,
            (depth - 1) as nat,
        ),
        _ => {},
    }
}

/// The hooks that Smelt writes hold whole numbers only.
pub proof fn lemma_own_hook_is_whole(dialect: Dialect, command: Seq<char>, event: Seq<char>)
    ensures
        only_whole(dialect::own_hook(dialect, command, event), 4),
{
    assert(text::decimal(3) == text::decimal(3u64 as nat));
    assert(json::is_whole(text::decimal(3)));
    dialect::lemma_keys_differ();
    reveal_with_fuel(only_whole, 5);
    assert(only_whole(dialect::shell_handler(command), 4));
    assert(only_whole(dialect::bash_handler(command), 4));
    assert(only_whole(dialect::bare_command(command), 4));
    assert(only_whole(dialect::shell_handler(command), 2));
    assert(only_whole(dialect::bash_handler(command), 2));
}

/// A list that ends in a hook that Smelt wrote ends in it when it is read again.
pub proof fn lemma_last_hook(
    one: Seq<JsonView>,
    other: Seq<JsonView>,
    dialect: Dialect,
    command: Seq<char>,
    event: Seq<char>,
    depth: nat,
)
    requires
        all_alike(one, other, depth),
        one.len() > 0,
        one.last() == dialect::own_hook(dialect, command, event),
    ensures
        other.len() > 0,
        other.last() == one.last(),
{
    let at = one.len() - 1;
    assert(json::alike(one[at], other[at], depth));
    lemma_own_hook_is_whole(dialect, command, event);
    whole_documents_come_back(one[at], other[at], 4, depth);
}

} // verus!
