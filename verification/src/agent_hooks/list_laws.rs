//! What holds of hook lists whatever agent they belong to.

use vstd::prelude::*;

use crate::agent_hooks::dialect;
use crate::agent_hooks::dialect::{Dialect, HookLists};
use crate::agent_hooks::handlers;
use crate::agent_hooks::handlers::CommandKey;
use crate::json::JsonView;
use crate::shell;

verus! {

proof fn lemma_filter_push(items: Seq<JsonView>, last: JsonView, keep: spec_fn(JsonView) -> bool)
    ensures
        items.push(last).filter(keep) == if keep(last) {
            items.filter(keep).push(last)
        } else {
            items.filter(keep)
        },
{
    reveal(Seq::filter);
    assert(items.push(last).drop_last() =~= items);
}

proof fn lemma_filter_empty(keep: spec_fn(JsonView) -> bool)
    ensures
        Seq::<JsonView>::empty().filter(keep) == Seq::<JsonView>::empty(),
{
    reveal(Seq::filter);
}

/// A list without Smelt's handlers has none of Smelt's handlers, and is left as it is when
/// they are removed once more.
pub proof fn foreign_has_no_own(items: Seq<JsonView>, place: CommandKey)
    ensures
        !handlers::some_own(handlers::foreign(items, place), place),
        handlers::foreign(handlers::foreign(items, place), place) == handlers::foreign(
            items,
            place,
        ),
    decreases items.len(),
{
    let keep = |handler: JsonView| !handlers::is_own(handler, place);
    lemma_filter_empty(keep);
    if items.len() == 0 {
        assert(items =~= Seq::<JsonView>::empty());
    } else {
        let init = items.drop_last();
        let last = items.last();
        assert(items =~= init.push(last));
        foreign_has_no_own(init, place);
        lemma_filter_push(init, last, keep);
        lemma_filter_push(init.filter(keep), last, keep);
        let kept = handlers::foreign(init, place);
        assert forall|i: int| 0 <= i < items.filter(keep).len() implies !handlers::is_own(
            #[trigger] items.filter(keep)[i],
            place,
        ) by {
            if i < kept.len() {
                assert(items.filter(keep)[i] == kept[i]);
            }
        }
    }
}

/// Every handler that is not Smelt's is still in the list once Smelt's are removed.
pub proof fn foreign_keeps_others(items: Seq<JsonView>, place: CommandKey, handler: JsonView)
    requires
        items.contains(handler),
        !handlers::is_own(handler, place),
    ensures
        handlers::foreign(items, place).contains(handler),
    decreases items.len(),
{
    let keep = |handler: JsonView| !handlers::is_own(handler, place);
    let at = choose|i: int| 0 <= i < items.len() && items[i] == handler;
    let init = items.drop_last();
    let last = items.last();
    assert(items =~= init.push(last));
    lemma_filter_push(init, last, keep);
    let all = items.filter(keep);
    if at == items.len() - 1 {
        assert(all[all.len() - 1] == handler);
    } else {
        assert(init[at] == handler);
        foreign_keeps_others(init, place, handler);
        let j = choose|j: int| 0 <= j < init.filter(keep).len() && init.filter(keep)[j] == handler;
        assert(all[j] == handler);
    }
}

proof fn lemma_groups_push(groups: Seq<JsonView>, last: JsonView, place: CommandKey, drop_empty: bool)
    ensures
        handlers::foreign_groups(groups.push(last), place, drop_empty) == if handlers::group_stays(
            last,
            place,
            drop_empty,
        ) {
            handlers::foreign_groups(groups, place, drop_empty).push(
                handlers::foreign_group(last, place),
            )
        } else {
            handlers::foreign_groups(groups, place, drop_empty)
        },
{
    let keep = |group: JsonView| handlers::group_stays(group, place, drop_empty);
    let strip = |group: JsonView| handlers::foreign_group(group, place);
    lemma_filter_push(groups, last, keep);
    if keep(last) {
        assert(groups.filter(keep).push(last).map_values(strip) =~= groups.filter(keep).map_values(
            strip,
        ).push(strip(last)));
    }
}

proof fn lemma_groups_empty(place: CommandKey, drop_empty: bool)
    ensures
        handlers::foreign_groups(Seq::<JsonView>::empty(), place, drop_empty) == Seq::<
            JsonView,
        >::empty(),
{
    let keep = |group: JsonView| handlers::group_stays(group, place, drop_empty);
    let strip = |group: JsonView| handlers::foreign_group(group, place);
    lemma_filter_empty(keep);
    assert(Seq::<JsonView>::empty().map_values(strip) =~= Seq::<JsonView>::empty());
}

proof fn lemma_group_again(group: JsonView, place: CommandKey)
    ensures
        handlers::foreign_group(handlers::foreign_group(group, place), place)
            == handlers::foreign_group(group, place),
        match handlers::nested(group) {
            Some(items) => handlers::nested(handlers::foreign_group(group, place)) == Some(
                handlers::foreign(items, place),
            ),
            None => handlers::foreign_group(group, place) == group,
        },
{
    match handlers::nested(group) {
        Some(items) => {
            foreign_has_no_own(items, place);
            let kept = handlers::foreign(items, place);
            let entries = group->Object_0;
            assert(entries.insert("hooks"@, JsonView::Array(kept)).insert(
                "hooks"@,
                JsonView::Array(kept),
            ) =~= entries.insert("hooks"@, JsonView::Array(kept)));
        },
        None => {},
    }
}

/// Removing Smelt's handlers from groups a second time changes nothing, and dropping empty
/// groups may as well wait for the second time.
pub proof fn foreign_groups_again(
    groups: Seq<JsonView>,
    place: CommandKey,
    first: bool,
    second: bool,
)
    requires
        first ==> second,
    ensures
        handlers::foreign_groups(
            handlers::foreign_groups(groups, place, first),
            place,
            second,
        ) == handlers::foreign_groups(groups, place, second),
    decreases groups.len(),
{
    lemma_groups_empty(place, first);
    lemma_groups_empty(place, second);
    if groups.len() == 0 {
        assert(groups =~= Seq::<JsonView>::empty());
    } else {
        let init = groups.drop_last();
        let last = groups.last();
        assert(groups =~= init.push(last));
        foreign_groups_again(init, place, first, second);
        lemma_groups_push(init, last, place, first);
        lemma_groups_push(init, last, place, second);
        lemma_group_again(last, place);
        let stripped = handlers::foreign_group(last, place);
        lemma_groups_push(handlers::foreign_groups(init, place, first), stripped, place, second);
        match handlers::nested(last) {
            Some(items) => {
                foreign_has_no_own(items, place);
            },
            None => {},
        }
    }
}

proof fn lemma_foreign_reports_nothing(items: Seq<JsonView>, place: CommandKey, event: Seq<char>)
    ensures
        !handlers::some_reports(handlers::foreign(items, place), place, event),
{
    foreign_has_no_own(items, place);
    let kept = handlers::foreign(items, place);
    assert forall|i: int| 0 <= i < kept.len() implies !handlers::reports(
        #[trigger] kept[i],
        place,
        event,
    ) by {
        assert(!handlers::is_own(kept[i], place));
    }
}

proof fn lemma_foreign_groups_report_nothing(
    groups: Seq<JsonView>,
    place: CommandKey,
    drop_empty: bool,
    event: Seq<char>,
)
    ensures
        !handlers::some_group_reports(
            handlers::foreign_groups(groups, place, drop_empty),
            place,
            event,
        ),
    decreases groups.len(),
{
    lemma_groups_empty(place, drop_empty);
    if groups.len() == 0 {
        assert(groups =~= Seq::<JsonView>::empty());
    } else {
        let init = groups.drop_last();
        let last = groups.last();
        assert(groups =~= init.push(last));
        lemma_foreign_groups_report_nothing(init, place, drop_empty, event);
        lemma_groups_push(init, last, place, drop_empty);
        lemma_group_again(last, place);
        match handlers::nested(last) {
            Some(items) => lemma_foreign_reports_nothing(items, place, event),
            None => {},
        }
        let before = handlers::foreign_groups(init, place, drop_empty);
        let after = handlers::foreign_groups(groups, place, drop_empty);
        assert forall|i: int| 0 <= i < after.len() implies !(handlers::nested(
            #[trigger] after[i],
        ) matches Some(items) && handlers::some_reports(items, place, event)) by {
            if i < before.len() {
                assert(after[i] == before[i]);
            }
        }
    }
}

/// Once Smelt's hooks are removed from a list, no hook of the list reports the event.
pub proof fn foreign_list_reports_nothing(
    items: Seq<JsonView>,
    dialect: Dialect,
    event: Seq<char>,
)
    ensures
        !dialect::list_reports(dialect::foreign_list(items, dialect, event), dialect, event),
{
    match dialect {
        Dialect::Groups | Dialect::BashGroups => lemma_foreign_groups_report_nothing(
            items,
            CommandKey::CommandOrBash,
            true,
            event,
        ),
        Dialect::Copilot => lemma_foreign_reports_nothing(items, CommandKey::Bash, event),
        Dialect::Antigravity => {
            lemma_foreign_groups_report_nothing(items, CommandKey::Command, true, event);
            lemma_foreign_reports_nothing(items, CommandKey::Command, event);
        },
        Dialect::Cursor => lemma_foreign_reports_nothing(items, CommandKey::Command, event),
    }
}

/// Removing Smelt's hooks from a list a second time changes nothing.
pub proof fn foreign_list_again(items: Seq<JsonView>, dialect: Dialect, event: Seq<char>)
    ensures
        dialect::foreign_list(dialect::foreign_list(items, dialect, event), dialect, event)
            == dialect::foreign_list(items, dialect, event),
{
    match dialect {
        Dialect::Groups | Dialect::BashGroups => foreign_groups_again(
            items,
            CommandKey::CommandOrBash,
            true,
            true,
        ),
        Dialect::Copilot => foreign_has_no_own(items, CommandKey::Bash),
        Dialect::Antigravity => {
            foreign_groups_again(items, CommandKey::Command, true, true);
            foreign_has_no_own(items, CommandKey::Command);
        },
        Dialect::Cursor => foreign_has_no_own(items, CommandKey::Command),
    }
}

proof fn lemma_own_handlers(command: Seq<char>, event: Seq<char>)
    ensures
        shell::runs_notify(command) ==> {
            &&& handlers::is_own(dialect::shell_handler(command), CommandKey::CommandOrBash)
            &&& handlers::is_own(dialect::shell_handler(command), CommandKey::Command)
            &&& handlers::is_own(dialect::bash_handler(command), CommandKey::CommandOrBash)
            &&& handlers::is_own(dialect::bash_handler(command), CommandKey::Bash)
            &&& handlers::is_own(dialect::bare_command(command), CommandKey::Command)
        },
        shell::runs_notify_for(command, event) ==> {
            &&& handlers::reports(
                dialect::shell_handler(command),
                CommandKey::CommandOrBash,
                event,
            )
            &&& handlers::reports(dialect::shell_handler(command), CommandKey::Command, event)
            &&& handlers::reports(
                dialect::bash_handler(command),
                CommandKey::CommandOrBash,
                event,
            )
            &&& handlers::reports(dialect::bash_handler(command), CommandKey::Bash, event)
            &&& handlers::reports(dialect::bare_command(command), CommandKey::Command, event)
        },
{
    dialect::lemma_keys_differ();
    let shell_entries = dialect::shell_handler(command)->Object_0;
    let bash_entries = dialect::bash_handler(command)->Object_0;
    let bare_entries = dialect::bare_command(command)->Object_0;
    assert(shell_entries["command"@] == JsonView::String(command));
    assert(bash_entries["bash"@] == JsonView::String(command));
    assert(bare_entries["command"@] == JsonView::String(command));
}

proof fn lemma_own_group(handler: JsonView, place: CommandKey)
    requires
        handlers::is_own(handler, place),
    ensures
        !handlers::group_stays(dialect::group_of(handler), place, true),
        !handlers::group_stays(dialect::group_of(handler), place, false),
        handlers::nested(dialect::group_of(handler)) == Some(seq![handler]),
{
    dialect::lemma_keys_differ();
    let keep = |handler: JsonView| !handlers::is_own(handler, place);
    let items = seq![handler];
    assert(items =~= Seq::<JsonView>::empty().push(handler));
    lemma_filter_empty(keep);
    lemma_filter_push(Seq::<JsonView>::empty(), handler, keep);
    assert(items[0] == handler);
    assert(dialect::group_of(handler)->Object_0["hooks"@] == JsonView::Array(items));
}

/// A hook that Smelt writes is the first thing that removing Smelt's hooks removes.
pub proof fn own_hook_is_removed(
    items: Seq<JsonView>,
    dialect: Dialect,
    command: Seq<char>,
    event: Seq<char>,
)
    requires
        shell::runs_notify(command),
    ensures
        dialect::foreign_list(
            items.push(dialect::own_hook(dialect, command, event)),
            dialect,
            event,
        ) == dialect::foreign_list(items, dialect, event),
        dialect is Groups || dialect is BashGroups || dialect is Copilot ==> dialect::prepared_list(
            items.push(dialect::own_hook(dialect, command, event)),
            dialect,
        ) == dialect::prepared_list(items, dialect),
{
    lemma_own_handlers(command, event);
    let hook = dialect::own_hook(dialect, command, event);
    match dialect {
        Dialect::Groups => {
            lemma_own_group(dialect::shell_handler(command), CommandKey::CommandOrBash);
            lemma_groups_push(items, hook, CommandKey::CommandOrBash, true);
            lemma_groups_push(items, hook, CommandKey::CommandOrBash, false);
        },
        Dialect::BashGroups => {
            lemma_own_group(dialect::bash_handler(command), CommandKey::CommandOrBash);
            lemma_groups_push(items, hook, CommandKey::CommandOrBash, true);
            lemma_groups_push(items, hook, CommandKey::CommandOrBash, false);
        },
        Dialect::Copilot => {
            lemma_filter_push(
                items,
                hook,
                |handler: JsonView| !handlers::is_own(handler, CommandKey::Bash),
            );
        },
        Dialect::Antigravity => {
            lemma_own_group(dialect::shell_handler(command), CommandKey::Command);
            lemma_groups_push(items, hook, CommandKey::Command, true);
            lemma_filter_push(
                items,
                hook,
                |handler: JsonView| !handlers::is_own(handler, CommandKey::Command),
            );
        },
        Dialect::Cursor => {
            lemma_filter_push(
                items,
                hook,
                |handler: JsonView| !handlers::is_own(handler, CommandKey::Command),
            );
        },
    }
}

/// A list to which Smelt appends its hook reports the event.
pub proof fn own_hook_reports(
    items: Seq<JsonView>,
    dialect: Dialect,
    command: Seq<char>,
    event: Seq<char>,
)
    requires
        shell::runs_notify_for(command, event),
    ensures
        dialect::list_reports(
            items.push(dialect::own_hook(dialect, command, event)),
            dialect,
            event,
        ),
{
    lemma_own_handlers(command, event);
    let hook = dialect::own_hook(dialect, command, event);
    let all = items.push(hook);
    assert(all[items.len() as int] == hook);
    match dialect {
        Dialect::Groups => {
            lemma_own_group(dialect::shell_handler(command), CommandKey::CommandOrBash);
            assert(seq![dialect::shell_handler(command)][0] == dialect::shell_handler(command));
        },
        Dialect::BashGroups => {
            lemma_own_group(dialect::bash_handler(command), CommandKey::CommandOrBash);
            assert(seq![dialect::bash_handler(command)][0] == dialect::bash_handler(command));
        },
        Dialect::Antigravity => {
            lemma_own_group(dialect::shell_handler(command), CommandKey::Command);
            assert(seq![dialect::shell_handler(command)][0] == dialect::shell_handler(command));
        },
        Dialect::Copilot | Dialect::Cursor => {},
    }
}

/// After Smelt's hooks are added, every event is reported.
pub proof fn enlisted_reports(
    hooks: HookLists,
    events: Seq<Seq<char>>,
    dialect: Dialect,
    notify: Seq<char>,
    provider: Seq<char>,
)
    requires
        dialect::recognised(notify, provider, events),
    ensures
        dialect::all_reported(
            dialect::enlisted(hooks, events, dialect, notify, provider),
            events,
            dialect,
        ),
{
    let after = dialect::enlisted(hooks, events, dialect, notify, provider);
    assert forall|i: int| 0 <= i < events.len() implies dialect::list_reports(
        dialect::list_of(after, #[trigger] events[i]),
        dialect,
        events[i],
    ) by {
        let event = events[i];
        assert(events.contains(event));
        own_hook_reports(
            dialect::prepared_list(dialect::list_of(hooks, event), dialect),
            dialect,
            shell::hook_command(notify, provider, event),
            event,
        );
    }
}

/// Adding Smelt's hooks a second time changes nothing, where adding them first takes out
/// those that are there.
pub proof fn enlisted_again(
    hooks: HookLists,
    events: Seq<Seq<char>>,
    dialect: Dialect,
    notify: Seq<char>,
    provider: Seq<char>,
)
    requires
        dialect::recognised(notify, provider, events),
        dialect is Groups || dialect is BashGroups || dialect is Copilot,
    ensures
        dialect::enlisted(
            dialect::enlisted(hooks, events, dialect, notify, provider),
            events,
            dialect,
            notify,
            provider,
        ) == dialect::enlisted(hooks, events, dialect, notify, provider),
{
    let once = dialect::enlisted(hooks, events, dialect, notify, provider);
    let twice = dialect::enlisted(once, events, dialect, notify, provider);
    assert forall|event: Seq<char>| #[trigger] twice.dom().contains(event) implies twice[event]
        == once[event] by {
        if events.contains(event) {
            let at = choose|i: int| 0 <= i < events.len() && events[i] == event;
            let command = shell::hook_command(notify, provider, events[at]);
            let before = dialect::list_of(hooks, event);
            let prepared = dialect::prepared_list(before, dialect);
            own_hook_is_removed(prepared, dialect, command, event);
            match dialect {
                Dialect::Groups | Dialect::BashGroups => foreign_groups_again(
                    before,
                    CommandKey::CommandOrBash,
                    false,
                    false,
                ),
                _ => foreign_has_no_own(before, CommandKey::Bash),
            }
            assert(dialect::list_of(once, event) == prepared.push(
                dialect::own_hook(dialect, command, event),
            ));
        }
    }
    assert(twice =~= once);
}

/// Adding Smelt's hooks event by event is adding them at once: where no event occurs twice, or
/// where adding a hook takes out the one that is there.
pub proof fn in_turn_is_at_once(
    hooks: HookLists,
    events: Seq<Seq<char>>,
    dialect: Dialect,
    notify: Seq<char>,
    provider: Seq<char>,
)
    requires
        events.no_duplicates() || (dialect::recognised(notify, provider, events) && (
        dialect is Groups || dialect is BashGroups || dialect is Copilot)),
    ensures
        dialect::enlisted_in_turn(hooks, events, dialect, notify, provider) == dialect::enlisted(
            hooks,
            events,
            dialect,
            notify,
            provider,
        ),
    decreases events.len(),
{
    let at_once = dialect::enlisted(hooks, events, dialect, notify, provider);
    if events.len() == 0 {
        assert(at_once =~= hooks);
    } else {
        let init = events.drop_last();
        let event = events.last();
        assert forall|i: int| 0 <= i < init.len() implies #[trigger] init[i] == events[i] by {}
        if dialect::recognised(notify, provider, events) {
            assert forall|i: int| 0 <= i < init.len() implies shell::runs_notify_for(
                shell::hook_command(notify, provider, #[trigger] init[i]),
                init[i],
            ) by {
                assert(init[i] == events[i]);
            }
        }
        in_turn_is_at_once(hooks, init, dialect, notify, provider);
        assert forall|k: Seq<char>| #[trigger] events.contains(k) <==> init.contains(k) || k
            == event by {
            if events.contains(k) {
                let i = choose|i: int| 0 <= i < events.len() && events[i] == k;
                if i < init.len() {
                    assert(init[i] == k);
                }
            }
            if init.contains(k) {
                let i = choose|i: int| 0 <= i < init.len() && init[i] == k;
                assert(events[i] == k);
            }
            assert(events[events.len() - 1] == event);
        }
        let before = dialect::enlisted(hooks, init, dialect, notify, provider);
        let command = shell::hook_command(notify, provider, event);
        let old = dialect::list_of(hooks, event);
        if init.contains(event) {
            let i = choose|i: int| 0 <= i < init.len() && init[i] == event;
            assert(events[i] == events[events.len() - 1]);
            assert(shell::runs_notify_for(command, events[events.len() - 1]));
            let prepared = dialect::prepared_list(old, dialect);
            own_hook_is_removed(prepared, dialect, command, event);
            match dialect {
                Dialect::Groups | Dialect::BashGroups => foreign_groups_again(
                    old,
                    CommandKey::CommandOrBash,
                    false,
                    false,
                ),
                _ => foreign_has_no_own(old, CommandKey::Bash),
            }
            assert(dialect::list_of(before, event) == prepared.push(
                dialect::own_hook(dialect, command, event),
            ));
        } else {
            assert(dialect::list_of(before, event) == old);
        }
        assert(dialect::enlisted_in_turn(hooks, events, dialect, notify, provider) =~= at_once);
    }
}

/// After Smelt's hooks were added event by event, the list of each of the events ends in the
/// hook of Smelt for that event.
pub proof fn lists_end_in_own_hooks(
    hooks: HookLists,
    events: Seq<Seq<char>>,
    dialect: Dialect,
    notify: Seq<char>,
    provider: Seq<char>,
    event: Seq<char>,
)
    requires
        events.contains(event),
    ensures
        ({
            let after = dialect::enlisted_in_turn(hooks, events, dialect, notify, provider);
            &&& after.contains_key(event)
            &&& after[event] matches JsonView::Array(items)
            &&& items.len() > 0
            &&& items.last() == dialect::own_hook(
                dialect,
                shell::hook_command(notify, provider, event),
                event,
            )
        }),
    decreases events.len(),
{
    let at = choose|i: int| 0 <= i < events.len() && events[i] == event;
    if events.last() != event {
        assert(events.drop_last()[at] == event);
        lists_end_in_own_hooks(hooks, events.drop_last(), dialect, notify, provider, event);
    }
}

/// Adding Smelt's hooks event by event leaves every other event alone.
pub proof fn in_turn_leaves_others(
    hooks: HookLists,
    events: Seq<Seq<char>>,
    dialect: Dialect,
    notify: Seq<char>,
    provider: Seq<char>,
    other: Seq<char>,
)
    requires
        !events.contains(other),
    ensures
        ({
            let after = dialect::enlisted_in_turn(hooks, events, dialect, notify, provider);
            &&& after.contains_key(other) <==> hooks.contains_key(other)
            &&& hooks.contains_key(other) ==> after[other] == hooks[other]
        }),
    decreases events.len(),
{
    if events.len() > 0 {
        assert(events[events.len() - 1] != other);
        assert forall|i: int| 0 <= i < events.drop_last().len() implies events.drop_last()[i]
            != other by {
            assert(events[i] != other);
        }
        in_turn_leaves_others(hooks, events.drop_last(), dialect, notify, provider, other);
    }
}

proof fn lemma_nothing_own(items: Seq<JsonView>, place: CommandKey)
    requires
        !handlers::some_own(items, place),
    ensures
        handlers::foreign(items, place) == items,
    decreases items.len(),
{
    let keep = |handler: JsonView| !handlers::is_own(handler, place);
    lemma_filter_empty(keep);
    if items.len() == 0 {
        assert(items =~= Seq::<JsonView>::empty());
    } else {
        let init = items.drop_last();
        let last = items.last();
        assert(items =~= init.push(last));
        assert forall|i: int| 0 <= i < init.len() implies !handlers::is_own(
            #[trigger] init[i],
            place,
        ) by {
            assert(init[i] == items[i]);
        }
        assert(!handlers::is_own(items[items.len() - 1], place));
        lemma_nothing_own(init, place);
        lemma_filter_push(init, last, keep);
    }
}

/// None of the groups has a handler of Smelt.
pub open spec fn groups_are_foreign(groups: Seq<JsonView>, place: CommandKey) -> bool {
    forall|i: int|
        0 <= i < groups.len() ==> (handlers::nested(#[trigger] groups[i]) matches Some(items)
            ==> !handlers::some_own(items, place))
}

/// Groups without Smelt's handlers have none of them.
pub proof fn foreign_groups_are_foreign(
    groups: Seq<JsonView>,
    place: CommandKey,
    drop_empty: bool,
)
    ensures
        groups_are_foreign(handlers::foreign_groups(groups, place, drop_empty), place),
    decreases groups.len(),
{
    lemma_groups_empty(place, drop_empty);
    if groups.len() == 0 {
        assert(groups =~= Seq::<JsonView>::empty());
    } else {
        let init = groups.drop_last();
        let last = groups.last();
        assert(groups =~= init.push(last));
        foreign_groups_are_foreign(init, place, drop_empty);
        lemma_groups_push(init, last, place, drop_empty);
        lemma_group_again(last, place);
        match handlers::nested(last) {
            Some(items) => foreign_has_no_own(items, place),
            None => {},
        }
        let before = handlers::foreign_groups(init, place, drop_empty);
        let after = handlers::foreign_groups(groups, place, drop_empty);
        assert forall|i: int| 0 <= i < after.len() implies (handlers::nested(
            #[trigger] after[i],
        ) matches Some(items) ==> !handlers::some_own(items, place)) by {
            if i < before.len() {
                assert(after[i] == before[i]);
            }
        }
    }
}

/// Groups that have no handler of Smelt are left as they are.
pub proof fn foreign_groups_stay(groups: Seq<JsonView>, place: CommandKey)
    requires
        groups_are_foreign(groups, place),
    ensures
        handlers::foreign_groups(groups, place, false) == groups,
    decreases groups.len(),
{
    lemma_groups_empty(place, false);
    if groups.len() == 0 {
        assert(groups =~= Seq::<JsonView>::empty());
    } else {
        let init = groups.drop_last();
        let last = groups.last();
        assert(groups =~= init.push(last));
        assert forall|i: int| 0 <= i < init.len() implies (handlers::nested(
            #[trigger] init[i],
        ) matches Some(items) ==> !handlers::some_own(items, place)) by {
            assert(init[i] == groups[i]);
        }
        foreign_groups_stay(init, place);
        lemma_groups_push(init, last, place, false);
        assert(last == groups[groups.len() - 1]);
        match handlers::nested(last) {
            Some(items) => {
                lemma_nothing_own(items, place);
                let entries = last->Object_0;
                assert(entries.insert("hooks"@, JsonView::Array(items)) =~= entries);
            },
            None => {},
        }
    }
}

/// Removing Smelt's hooks takes back what adding them did: what is left is what removing
/// them right away would have left.
pub proof fn removing_undoes_adding(
    hooks: HookLists,
    events: Seq<Seq<char>>,
    chosen: spec_fn(Seq<char>) -> bool,
    dialect: Dialect,
    notify: Seq<char>,
    provider: Seq<char>,
)
    requires
        dialect::recognised(notify, provider, events),
        forall|i: int| 0 <= i < events.len() ==> dialect::listable(hooks, #[trigger] events[i]),
        forall|i: int| 0 <= i < events.len() ==> chosen(#[trigger] events[i]),
    ensures
        dialect::cleared(
            dialect::enlisted(hooks, events, dialect, notify, provider),
            chosen,
            dialect,
        ) == dialect::cleared(hooks, chosen, dialect),
{
    let added = dialect::enlisted(hooks, events, dialect, notify, provider);
    let left = dialect::cleared(added, chosen, dialect);
    let right = dialect::cleared(hooks, chosen, dialect);
    assert forall|event: Seq<char>|
        #![trigger left.dom().contains(event)]
        #![trigger right.dom().contains(event)]
        (left.dom().contains(event) <==> right.dom().contains(event)) && (left.dom().contains(event)
            ==> left[event] == right[event]) by {
        if events.contains(event) {
            let at = choose|i: int| 0 <= i < events.len() && events[i] == event;
            assert(chosen(events[at]));
            assert(dialect::listable(hooks, events[at]));
            let command = shell::hook_command(notify, provider, events[at]);
            assert(shell::runs_notify_for(command, events[at]));
            let before = dialect::list_of(hooks, event);
            let prepared = dialect::prepared_list(before, dialect);
            own_hook_is_removed(prepared, dialect, command, event);
            match dialect {
                Dialect::Groups | Dialect::BashGroups => foreign_groups_again(
                    before,
                    CommandKey::CommandOrBash,
                    false,
                    true,
                ),
                Dialect::Copilot => foreign_has_no_own(before, CommandKey::Bash),
                _ => {},
            }
            assert(dialect::list_of(added, event) == prepared.push(
                dialect::own_hook(dialect, command, event),
            ));
            assert(dialect::foreign_list(dialect::list_of(added, event), dialect, event)
                == dialect::foreign_list(before, dialect, event));
            if !hooks.contains_key(event) {
                lemma_foreign_of_nothing(dialect, event);
            }
        }
    }
    assert(left =~= right);
}

proof fn lemma_foreign_of_nothing(dialect: Dialect, event: Seq<char>)
    ensures
        dialect::foreign_list(Seq::<JsonView>::empty(), dialect, event) == Seq::<JsonView>::empty(),
{
    lemma_groups_empty(CommandKey::CommandOrBash, true);
    lemma_groups_empty(CommandKey::Command, true);
    lemma_filter_empty(|handler: JsonView| !handlers::is_own(handler, CommandKey::Bash));
    lemma_filter_empty(|handler: JsonView| !handlers::is_own(handler, CommandKey::Command));
}

/// Removing Smelt's hooks a second time changes nothing.
pub proof fn cleared_again(
    hooks: HookLists,
    chosen: spec_fn(Seq<char>) -> bool,
    dialect: Dialect,
)
    ensures
        dialect::cleared(dialect::cleared(hooks, chosen, dialect), chosen, dialect)
            == dialect::cleared(hooks, chosen, dialect),
{
    let once = dialect::cleared(hooks, chosen, dialect);
    let twice = dialect::cleared(once, chosen, dialect);
    assert forall|event: Seq<char>|
        #![trigger twice.dom().contains(event)]
        #![trigger once.dom().contains(event)]
        (twice.dom().contains(event) <==> once.dom().contains(event)) && (twice.dom().contains(
            event,
        ) ==> twice[event] == once[event]) by {
        foreign_list_again(dialect::list_of(hooks, event), dialect, event);
    }
    assert(twice =~= once);
}

/// After Smelt's hooks are removed from an event, nothing reports it.
pub proof fn cleared_reports_nothing(
    hooks: HookLists,
    chosen: spec_fn(Seq<char>) -> bool,
    dialect: Dialect,
    event: Seq<char>,
)
    requires
        chosen(event),
    ensures
        !dialect::list_reports(
            dialect::list_of(dialect::cleared(hooks, chosen, dialect), event),
            dialect,
            event,
        ),
{
    foreign_list_reports_nothing(dialect::list_of(hooks, event), dialect, event);
    lemma_foreign_of_nothing(dialect, event);
    foreign_list_reports_nothing(Seq::<JsonView>::empty(), dialect, event);
}

/// The lists of other events are not touched, neither by adding nor by removing.
pub proof fn other_events_stay(
    hooks: HookLists,
    events: Seq<Seq<char>>,
    dialect: Dialect,
    notify: Seq<char>,
    provider: Seq<char>,
    other: Seq<char>,
)
    requires
        hooks.contains_key(other),
        !events.contains(other),
    ensures
        dialect::enlisted(hooks, events, dialect, notify, provider).contains_key(other),
        dialect::enlisted(hooks, events, dialect, notify, provider)[other] == hooks[other],
        dialect::cleared(hooks, dialect::among(events), dialect).contains_key(other),
        dialect::cleared(hooks, dialect::among(events), dialect)[other] == hooks[other],
{
}

/// The events of either choice.
pub open spec fn either(
    one: spec_fn(Seq<char>) -> bool,
    two: spec_fn(Seq<char>) -> bool,
) -> spec_fn(Seq<char>) -> bool {
    |event: Seq<char>| one(event) || two(event)
}

/// Removing Smelt's hooks from some events and then from others removes them from both.
pub proof fn cleared_in_turn(
    hooks: HookLists,
    one: spec_fn(Seq<char>) -> bool,
    two: spec_fn(Seq<char>) -> bool,
    dialect: Dialect,
)
    ensures
        dialect::cleared(dialect::cleared(hooks, one, dialect), two, dialect) == dialect::cleared(
            hooks,
            either(one, two),
            dialect,
        ),
{
    let middle = dialect::cleared(hooks, one, dialect);
    let left = dialect::cleared(middle, two, dialect);
    let right = dialect::cleared(hooks, either(one, two), dialect);
    assert forall|event: Seq<char>|
        #![trigger left.dom().contains(event)]
        #![trigger right.dom().contains(event)]
        (left.dom().contains(event) <==> right.dom().contains(event)) && (left.dom().contains(event)
            ==> left[event] == right[event]) by {
        foreign_list_again(dialect::list_of(hooks, event), dialect, event);
    }
    assert(left =~= right);
}

} // verus!
