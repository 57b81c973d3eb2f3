//! Hook lists by event: how each agent writes them, and what installing and removing
//! Smelt's hooks makes of them.

use vstd::prelude::*;

use crate::agent_hooks::handlers;
use crate::agent_hooks::handlers::{
    any_group_reports, any_reports, foreign_handlers, strip_groups, CommandKey,
};
use crate::agent_hooks::list_laws;
use crate::json;
use crate::json::{Json, JsonObject, JsonView};
use crate::shell;
use crate::shell::provider_hook_command;
use crate::text;
use crate::text::same_text;

verus! {

/// How an agent lists the hooks of an event.
#[derive(Clone, Copy, PartialEq, Eq, Structural)]
pub enum Dialect {
    /// Groups of shell handlers, with the command under `command`.
    Groups,
    /// Groups of shell handlers, with the command under `bash`.
    BashGroups,
    /// Shell handlers with the command under `bash`.
    Copilot,
    /// Shell handlers, in groups for the event `PostToolUse` alone.
    Antigravity,
    /// Bare commands.
    Cursor,
}

/// Hook lists by event.
pub type HookLists = Map<Seq<char>, JsonView>;

/// The list without Smelt's hooks.
pub open spec fn foreign_list(
    items: Seq<JsonView>,
    dialect: Dialect,
    event: Seq<char>,
) -> Seq<JsonView> {
    match dialect {
        Dialect::Groups | Dialect::BashGroups => handlers::foreign_groups(
            items,
            CommandKey::CommandOrBash,
            true,
        ),
        Dialect::Copilot => handlers::foreign(items, CommandKey::Bash),
        Dialect::Antigravity => if event == "PostToolUse"@ {
            handlers::foreign_groups(items, CommandKey::Command, true)
        } else {
            handlers::foreign(items, CommandKey::Command)
        },
        Dialect::Cursor => handlers::foreign(items, CommandKey::Command),
    }
}

/// The list to which a new hook is appended.
pub open spec fn prepared_list(items: Seq<JsonView>, dialect: Dialect) -> Seq<JsonView> {
    match dialect {
        Dialect::Groups | Dialect::BashGroups => handlers::foreign_groups(
            items,
            CommandKey::CommandOrBash,
            false,
        ),
        Dialect::Copilot => handlers::foreign(items, CommandKey::Bash),
        Dialect::Antigravity | Dialect::Cursor => items,
    }
}

/// The list has a hook of Smelt that reports `event`.
pub open spec fn list_reports(items: Seq<JsonView>, dialect: Dialect, event: Seq<char>) -> bool {
    match dialect {
        Dialect::Groups | Dialect::BashGroups => handlers::some_group_reports(
            items,
            CommandKey::CommandOrBash,
            event,
        ),
        Dialect::Copilot => handlers::some_reports(items, CommandKey::Bash, event),
        Dialect::Antigravity => if event == "PostToolUse"@ {
            handlers::some_group_reports(items, CommandKey::Command, event)
        } else {
            handlers::some_reports(items, CommandKey::Command, event)
        },
        Dialect::Cursor => handlers::some_reports(items, CommandKey::Command, event),
    }
}

/// The number of seconds that a hook may take.
pub open spec fn hook_timeout() -> JsonView {
    JsonView::Number(text::decimal(3))
}

/// A shell handler that runs `command`.
pub open spec fn shell_handler(command: Seq<char>) -> JsonView {
    JsonView::Object(
        map![
            "type"@ => JsonView::String("command"@),
            "command"@ => JsonView::String(command),
            "timeout"@ => hook_timeout(),
        ],
    )
}

/// A shell handler that runs `command` with bash.
pub open spec fn bash_handler(command: Seq<char>) -> JsonView {
    JsonView::Object(
        map![
            "type"@ => JsonView::String("command"@),
            "bash"@ => JsonView::String(command),
            "timeoutSec"@ => hook_timeout(),
        ],
    )
}

/// A group of one handler that no matcher narrows.
pub open spec fn group_of(handler: JsonView) -> JsonView {
    JsonView::Object(
        map![
            "matcher"@ => JsonView::String(""@),
            "hooks"@ => JsonView::Array(seq![handler]),
        ],
    )
}

/// A bare command.
pub open spec fn bare_command(command: Seq<char>) -> JsonView {
    JsonView::Object(
        map![
            "command"@ => JsonView::String(command),
            "timeout"@ => hook_timeout(),
        ],
    )
}

/// The hook of Smelt that runs `command` on `event`.
pub open spec fn own_hook(dialect: Dialect, command: Seq<char>, event: Seq<char>) -> JsonView {
    match dialect {
        Dialect::Groups => group_of(shell_handler(command)),
        Dialect::BashGroups => group_of(bash_handler(command)),
        Dialect::Copilot => bash_handler(command),
        Dialect::Antigravity => if event == "PostToolUse"@ {
            group_of(shell_handler(command))
        } else {
            shell_handler(command)
        },
        Dialect::Cursor => bare_command(command),
    }
}

/// The hooks of `event`; none where it has no list.
pub open spec fn list_of(hooks: HookLists, event: Seq<char>) -> Seq<JsonView> {
    if hooks.contains_key(event) {
        match hooks[event] {
            JsonView::Array(items) => items,
            _ => seq![],
        }
    } else {
        seq![]
    }
}

/// `event` has a list, or can get one.
pub open spec fn listable(hooks: HookLists, event: Seq<char>) -> bool {
    hooks.contains_key(event) ==> hooks[event] is Array
}

/// The lists of some events without Smelt's hooks. A list that this empties goes.
pub open spec fn cleared(
    hooks: HookLists,
    chosen: spec_fn(Seq<char>) -> bool,
    dialect: Dialect,
) -> HookLists {
    Map::new(
        |event: Seq<char>|
            hooks.contains_key(event) && !(chosen(event) && hooks[event] is Array && foreign_list(
                list_of(hooks, event),
                dialect,
                event,
            ).len() == 0),
        |event: Seq<char>|
            if chosen(event) && hooks[event] is Array {
                JsonView::Array(foreign_list(list_of(hooks, event), dialect, event))
            } else {
                hooks[event]
            },
    )
}

/// Some events, as a choice for `cleared`.
pub open spec fn among(events: Seq<Seq<char>>) -> spec_fn(Seq<char>) -> bool {
    |event: Seq<char>| events.contains(event)
}

/// The lists with Smelt's hook for each of the events.
pub open spec fn enlisted(
    hooks: HookLists,
    events: Seq<Seq<char>>,
    dialect: Dialect,
    notify: Seq<char>,
    provider: Seq<char>,
) -> HookLists {
    Map::new(
        |event: Seq<char>| hooks.contains_key(event) || events.contains(event),
        |event: Seq<char>|
            if events.contains(event) {
                JsonView::Array(
                    prepared_list(list_of(hooks, event), dialect).push(
                        own_hook(dialect, shell::hook_command(notify, provider, event), event),
                    ),
                )
            } else {
                hooks[event]
            },
    )
}

/// The lists after Smelt's hook was added for each of the events in turn. An event that occurs
/// again makes place for its hook again.
pub open spec fn enlisted_in_turn(
    hooks: HookLists,
    events: Seq<Seq<char>>,
    dialect: Dialect,
    notify: Seq<char>,
    provider: Seq<char>,
) -> HookLists
    decreases events.len(),
{
    if events.len() == 0 {
        hooks
    } else {
        let before = enlisted_in_turn(hooks, events.drop_last(), dialect, notify, provider);
        let event = events.last();
        before.insert(
            event,
            JsonView::Array(
                prepared_list(list_of(before, event), dialect).push(
                    own_hook(dialect, shell::hook_command(notify, provider, event), event),
                ),
            ),
        )
    }
}

/// The first event that cannot get a list is the one at `at`.
pub open spec fn blocked_at(hooks: HookLists, events: Seq<Seq<char>>, at: int) -> bool {
    &&& 0 <= at < events.len()
    &&& !listable(hooks, events[at])
    &&& forall|i: int| 0 <= i < at ==> listable(hooks, #[trigger] events[i])
}

/// Every event of the list has a hook of Smelt that reports it.
pub open spec fn all_reported(
    hooks: HookLists,
    events: Seq<Seq<char>>,
    dialect: Dialect,
) -> bool {
    forall|i: int|
        0 <= i < events.len() ==> list_reports(
            list_of(hooks, #[trigger] events[i]),
            dialect,
            events[i],
        )
}

fn strip_list(items: Vec<Json>, dialect: Dialect, event: &str) -> (r: Vec<Json>)
    ensures
        json::documents(r@) == foreign_list(json::documents(items@), dialect, event@),
{
    match dialect {
        Dialect::Groups | Dialect::BashGroups => strip_groups(
            items,
            CommandKey::CommandOrBash,
            true,
        ),
        Dialect::Copilot => foreign_handlers(items, CommandKey::Bash),
        Dialect::Antigravity => if same_text(event, "PostToolUse") {
            strip_groups(items, CommandKey::Command, true)
        } else {
            foreign_handlers(items, CommandKey::Command)
        },
        Dialect::Cursor => foreign_handlers(items, CommandKey::Command),
    }
}

fn prepare_list(items: Vec<Json>, dialect: Dialect) -> (r: Vec<Json>)
    ensures
        json::documents(r@) == prepared_list(json::documents(items@), dialect),
{
    match dialect {
        Dialect::Groups | Dialect::BashGroups => strip_groups(
            items,
            CommandKey::CommandOrBash,
            false,
        ),
        Dialect::Copilot => foreign_handlers(items, CommandKey::Bash),
        Dialect::Antigravity | Dialect::Cursor => items,
    }
}

/// Whether the list has a hook of Smelt that reports `event`.
pub fn list_has_hook(items: &Vec<Json>, dialect: Dialect, event: &str) -> (r: bool)
    ensures
        r == list_reports(json::documents(items@), dialect, event@),
{
    match dialect {
        Dialect::Groups | Dialect::BashGroups => any_group_reports(
            items,
            CommandKey::CommandOrBash,
            event,
        ),
        Dialect::Copilot => any_reports(items, CommandKey::Bash, event),
        Dialect::Antigravity => if same_text(event, "PostToolUse") {
            any_group_reports(items, CommandKey::Command, event)
        } else {
            any_reports(items, CommandKey::Command, event)
        },
        Dialect::Cursor => any_reports(items, CommandKey::Command, event),
    }
}

/// The keys of the hooks that Smelt writes differ.
pub proof fn lemma_keys_differ()
    ensures
        "type"@ != "command"@,
        "type"@ != "timeout"@,
        "type"@ != "bash"@,
        "type"@ != "timeoutSec"@,
        "command"@ != "timeout"@,
        "bash"@ != "timeoutSec"@,
        "matcher"@ != "hooks"@,
{
    reveal_strlit("type");
    reveal_strlit("command");
    reveal_strlit("timeout");
    reveal_strlit("timeoutSec");
    reveal_strlit("bash");
    reveal_strlit("matcher");
    reveal_strlit("hooks");
    assert("type"@.len() == 4 && "matcher"@.len() == 7 && "hooks"@.len() == 5);
    assert("timeout"@[0] == 't' && "command"@[0] == 'c');
    assert("type"@[0] == 't');
    assert("bash"@[0] == 'b');
}

fn make_handler(key: &str, command: String, timeout_key: &str) -> (r: Json)
    requires
        "type"@ != key@,
        "type"@ != timeout_key@,
        key@ != timeout_key@,
    ensures
        r.view() == JsonView::Object(
            map![
                "type"@ => JsonView::String("command"@),
                key@ => JsonView::String(command@),
                timeout_key@ => hook_timeout(),
            ],
        ),
{
    let object = JsonObject::new().insert("type", Json::String("command".to_owned())).insert(
        key,
        Json::String(command),
    ).insert(timeout_key, Json::integer(3));
    Json::Object(object)
}

fn make_group(handler: Json) -> (r: Json)
    ensures
        r.view() == group_of(handler.view()),
{
    let mut list: Vec<Json> = Vec::new();
    list.push(handler);
    assert(json::documents(list@) =~= seq![handler.view()]);
    let object = JsonObject::new().insert("matcher", Json::String("".to_owned())).insert(
        "hooks",
        Json::Array(list),
    );
    Json::Object(object)
}

fn make_hook(dialect: Dialect, command: String, event: &str) -> (r: Json)
    ensures
        r.view() == own_hook(dialect, command@, event@),
{
    proof {
        lemma_keys_differ();
    }
    match dialect {
        Dialect::Groups => make_group(make_handler("command", command, "timeout")),
        Dialect::BashGroups => make_group(make_handler("bash", command, "timeoutSec")),
        Dialect::Copilot => make_handler("bash", command, "timeoutSec"),
        Dialect::Antigravity => {
            let handler = make_handler("command", command, "timeout");
            if same_text(event, "PostToolUse") {
                make_group(handler)
            } else {
                handler
            }
        },
        Dialect::Cursor => Json::Object(
            JsonObject::new().insert("command", Json::String(command)).insert(
                "timeout",
                Json::integer(3),
            ),
        ),
    }
}

fn clear_event(hooks: JsonObject, event: &str, dialect: Dialect) -> (r: JsonObject)
    ensures
        r.view() == cleared(hooks.view(), among(seq![event@]), dialect),
{
    let ghost before = hooks.view();
    let ghost goal = cleared(before, among(seq![event@]), dialect);
    assert(forall|k: Seq<char>| seq![event@].contains(k) <==> k == event@) by {
        assert(seq![event@][0] == event@);
    }
    let (rest, taken) = hooks.take_list(event);
    match taken {
        None => {
            assert(goal =~= before);
            rest
        },
        Some(items) => {
            let kept: Vec<Json> = strip_list(items, dialect, event);
            assert(json::documents(kept@).len() == kept@.len());
            if kept.len() == 0 {
                assert(goal =~= before.remove(event@));
                rest
            } else {
                assert(goal =~= before.remove(event@).insert(
                    event@,
                    JsonView::Array(json::documents(kept@)),
                ));
                rest.insert(event, Json::Array(kept))
            }
        },
    }
}

/// The lists of the given events without Smelt's hooks.
pub fn clear_events(hooks: JsonObject, events: &Vec<String>, dialect: Dialect) -> (r: JsonObject)
    ensures
        r.view() == cleared(hooks.view(), among(text::texts(events@)), dialect),
{
    let ghost all = text::texts(events@);
    let ghost before = hooks.view();
    let mut out: JsonObject = hooks;
    let mut i: usize = 0;
    assert(out.view() =~= cleared(before, among(all.take(0)), dialect));
    while i < events.len()
        invariant
            all == text::texts(events@),
            i <= events.len(),
            out.view() == cleared(before, among(all.take(i as int)), dialect),
        decreases events.len() - i,
    {
        let ghost middle = out.view();
        out = clear_event(out, events[i].as_str(), dialect);
        proof {
            lemma_cleared_step(before, all, i as int, dialect);
        }
        i = i + 1;
    }
    assert(all.take(i as int) =~= all);
    out
}

proof fn lemma_take_contains(events: Seq<Seq<char>>, at: int)
    requires
        0 <= at < events.len(),
    ensures
        forall|k: Seq<char>| #[trigger]
            events.take(at + 1).contains(k) <==> events.take(at).contains(k) || k == events[at],
        forall|k: Seq<char>| seq![events[at]].contains(k) <==> k == events[at],
{
    let longer = events.take(at + 1);
    let shorter = events.take(at);
    assert(seq![events[at]][0] == events[at]);
    assert(longer[at] == events[at]);
    assert forall|k: Seq<char>| #[trigger] longer.contains(k) <==> shorter.contains(k) || k
        == events[at] by {
        if longer.contains(k) {
            let i = choose|i: int| 0 <= i < longer.len() && longer[i] == k;
            if i < at {
                assert(shorter[i] == k);
            }
        }
        if shorter.contains(k) {
            let i = choose|i: int| 0 <= i < shorter.len() && shorter[i] == k;
            assert(longer[i] == k);
        }
    }
}

proof fn lemma_cleared_step(hooks: HookLists, events: Seq<Seq<char>>, at: int, dialect: Dialect)
    requires
        0 <= at < events.len(),
    ensures
        cleared(cleared(hooks, among(events.take(at)), dialect), among(seq![events[at]]), dialect)
            == cleared(hooks, among(events.take(at + 1)), dialect),
{
    lemma_take_contains(events, at);
    let one = among(events.take(at));
    let two = among(seq![events[at]]);
    list_laws::cleared_in_turn(hooks, one, two, dialect);
    assert(cleared(hooks, list_laws::either(one, two), dialect) =~= cleared(
        hooks,
        among(events.take(at + 1)),
        dialect,
    ));
}

/// What the lists of a dialect are called in messages.
pub open spec fn list_name(dialect: Dialect) -> Seq<char> {
    match dialect {
        Dialect::Groups | Dialect::BashGroups | Dialect::Copilot => "hooks."@,
        Dialect::Antigravity => "smelt-status-notifications."@,
        Dialect::Cursor => "Cursor hooks."@,
    }
}

/// Why `event` cannot get a hook.
pub open spec fn refusal(dialect: Dialect, event: Seq<char>) -> Seq<char> {
    list_name(dialect) + event + " 不是数组"@
}

/// The command for each of the events is recognised as Smelt's own.
pub open spec fn recognised(
    notify: Seq<char>,
    provider: Seq<char>,
    events: Seq<Seq<char>>,
) -> bool {
    forall|i: int|
        0 <= i < events.len() ==> shell::runs_notify_for(
            shell::hook_command(notify, provider, #[trigger] events[i]),
            events[i],
        )
}

/// Names that need no quotes in a command.
pub open spec fn plain_names(provider: Seq<char>, events: Seq<Seq<char>>) -> bool {
    shell::all_plain(provider) && forall|i: int|
        0 <= i < events.len() ==> shell::all_plain(#[trigger] events[i])
}

fn refuse(dialect: Dialect, event: &str) -> (r: String)
    ensures
        r@ == refusal(dialect, event@),
{
    let mut message: String = match dialect {
        Dialect::Groups | Dialect::BashGroups | Dialect::Copilot => "hooks.".to_owned(),
        Dialect::Antigravity => "smelt-status-notifications.".to_owned(),
        Dialect::Cursor => "Cursor hooks.".to_owned(),
    };
    message.append(event);
    message.append(" 不是数组");
    message
}

fn can_list(hooks: &JsonObject, event: &str) -> (r: bool)
    ensures
        r == listable(hooks.view(), event@),
{
    match hooks.get(event) {
        Some(Json::Array(_)) => true,
        Some(_) => false,
        None => true,
    }
}

fn enlist_event(hooks: JsonObject, event: &str, dialect: Dialect, command: String) -> (r: JsonObject)
    requires
        listable(hooks.view(), event@),
    ensures
        r.view() == hooks.view().insert(
            event@,
            JsonView::Array(
                prepared_list(list_of(hooks.view(), event@), dialect).push(
                    own_hook(dialect, command@, event@),
                ),
            ),
        ),
{
    let ghost before = hooks.view();
    let (rest, taken) = hooks.take_list(event);
    let items: Vec<Json> = match taken {
        Some(items) => items,
        None => Vec::new(),
    };
    assert(json::documents(items@) =~= list_of(before, event@));
    let mut list: Vec<Json> = prepare_list(items, dialect);
    let ghost prepared = list@;
    list.push(make_hook(dialect, command, event));
    assert(json::documents(list@) =~= json::documents(prepared).push(
        own_hook(dialect, command@, event@),
    ));
    assert(before.remove(event@).insert(event@, JsonView::Array(json::documents(list@)))
        =~= before.insert(event@, JsonView::Array(json::documents(list@))));
    rest.insert(event, Json::Array(list))
}

proof fn lemma_in_turn_listable(
    hooks: HookLists,
    events: Seq<Seq<char>>,
    dialect: Dialect,
    notify: Seq<char>,
    provider: Seq<char>,
)
    requires
        forall|i: int| 0 <= i < events.len() ==> listable(hooks, #[trigger] events[i]),
    ensures
        forall|event: Seq<char>|
            listable(enlisted_in_turn(hooks, events, dialect, notify, provider), event)
                <==> #[trigger] listable(hooks, event),
    decreases events.len(),
{
    if events.len() > 0 {
        let init = events.drop_last();
        assert forall|i: int| 0 <= i < init.len() implies listable(hooks, #[trigger] init[i]) by {
            assert(init[i] == events[i]);
        }
        lemma_in_turn_listable(hooks, init, dialect, notify, provider);
        assert(listable(hooks, events[events.len() - 1]));
    }
}

/// Adds Smelt's hook to the list of each event, in order, up to the first that cannot get one.
pub fn enlist_events(
    hooks: JsonObject,
    events: &Vec<String>,
    dialect: Dialect,
    notify: &str,
    provider: &str,
) -> (r: (JsonObject, Result<(), String>))
    ensures
        match r.1 {
            Ok(_) => {
                &&& forall|i: int|
                    0 <= i < events@.len() ==> listable(hooks.view(), #[trigger] text::texts(events@)[i])
                &&& r.0.view() == enlisted_in_turn(
                    hooks.view(),
                    text::texts(events@),
                    dialect,
                    notify@,
                    provider@,
                )
            },
            Err(message) => exists|at: int| #[trigger]
                blocked_at(hooks.view(), text::texts(events@), at) && message@ == refusal(
                    dialect,
                    text::texts(events@)[at],
                ) && r.0.view() == enlisted_in_turn(
                    hooks.view(),
                    text::texts(events@).take(at),
                    dialect,
                    notify@,
                    provider@,
                ),
        },
        r.1 is Ok && shell::names_notify(notify@) && plain_names(provider@, text::texts(events@))
            ==> recognised(notify@, provider@, text::texts(events@)),
{
    let ghost all = text::texts(events@);
    let ghost before = hooks.view();
    let mut out: JsonObject = hooks;
    let mut i: usize = 0;
    assert(out.view() =~= enlisted_in_turn(before, all.take(0), dialect, notify@, provider@));
    while i < events.len()
        invariant
            all == text::texts(events@),
            before == hooks.view(),
            i <= events.len(),
            out.view() == enlisted_in_turn(before, all.take(i as int), dialect, notify@, provider@),
            forall|k: int| 0 <= k < i ==> listable(before, #[trigger] all[k]),
            shell::names_notify(notify@) && plain_names(provider@, all) ==> recognised(
                notify@,
                provider@,
                all.take(i as int),
            ),
        decreases events.len() - i,
    {
        proof {
            lemma_in_turn_listable(before, all.take(i as int), dialect, notify@, provider@);
        }
        let ghost middle = out.view();
        if !can_list(&out, events[i].as_str()) {
            assert(!listable(before, all[i as int]));
            assert(blocked_at(before, all, i as int));
            return (out, Err(refuse(dialect, events[i].as_str())));
        }
        assert(listable(before, all[i as int]));
        let command: String = provider_hook_command(notify, provider, events[i].as_str());
        out = enlist_event(out, events[i].as_str(), dialect, command);
        assert(all.take(i + 1) =~= all.take(i as int).push(all[i as int]));
        assert(all.take(i + 1).drop_last() =~= all.take(i as int));
        i = i + 1;
    }
    assert(all.take(i as int) =~= all);
    (out, Ok(()))
}

} // verus!
