//! Handlers in hook files: which belong to Smelt, and lists without those.

use vstd::prelude::*;

use crate::json;
use crate::json::{Json, JsonView};
use crate::shell;
use crate::shell::{command_uses_current_smelt_hook, command_uses_smelt_notify};

verus! {

/// Where a handler keeps its command.
#[derive(Clone, Copy, PartialEq, Eq, Structural)]
pub enum CommandKey {
    /// Under `command` or `bash`.
    CommandOrBash,
    /// Under `bash`.
    Bash,
    /// Under `command`.
    Command,
    /// Under `command` of the object under `action`.
    ActionCommand,
}

/// The command under `key` runs `smelt-notify`.
pub open spec fn runs_under(handler: JsonView, key: Seq<char>) -> bool {
    json::text_under(handler, key) matches Some(command) && shell::runs_notify(command)
}

/// The command under `key` runs `smelt-notify` for `event`.
pub open spec fn runs_for_under(handler: JsonView, key: Seq<char>, event: Seq<char>) -> bool {
    json::text_under(handler, key) matches Some(command) && shell::runs_notify_for(command, event)
}

/// The handler is Smelt's.
pub open spec fn is_own(handler: JsonView, place: CommandKey) -> bool {
    match place {
        CommandKey::CommandOrBash => runs_under(handler, "command"@) || runs_under(
            handler,
            "bash"@,
        ),
        CommandKey::Bash => runs_under(handler, "bash"@),
        CommandKey::Command => runs_under(handler, "command"@),
        CommandKey::ActionCommand => json::member(handler, "action"@) matches Some(action)
            && runs_under(action, "command"@),
    }
}

/// The handler is Smelt's and reports `event`.
pub open spec fn reports(handler: JsonView, place: CommandKey, event: Seq<char>) -> bool {
    match place {
        CommandKey::CommandOrBash => runs_for_under(handler, "command"@, event) || runs_for_under(
            handler,
            "bash"@,
            event,
        ),
        CommandKey::Bash => runs_for_under(handler, "bash"@, event),
        CommandKey::Command => runs_for_under(handler, "command"@, event),
        CommandKey::ActionCommand => json::member(handler, "action"@) matches Some(action)
            && runs_for_under(action, "command"@, event),
    }
}

/// Some handler of the list reports `event`.
pub open spec fn some_reports(
    handlers: Seq<JsonView>,
    place: CommandKey,
    event: Seq<char>,
) -> bool {
    exists|i: int| 0 <= i < handlers.len() && reports(#[trigger] handlers[i], place, event)
}

/// Some handler of the list is Smelt's.
pub open spec fn some_own(handlers: Seq<JsonView>, place: CommandKey) -> bool {
    exists|i: int| 0 <= i < handlers.len() && is_own(#[trigger] handlers[i], place)
}

/// The handlers that are not Smelt's, in order.
pub open spec fn foreign(handlers: Seq<JsonView>, place: CommandKey) -> Seq<JsonView> {
    handlers.filter(|handler: JsonView| !is_own(handler, place))
}

/// The handlers of a group.
pub open spec fn nested(group: JsonView) -> Option<Seq<JsonView>> {
    json::list_under(group, "hooks"@)
}

/// The group with other handlers.
pub open spec fn with_nested(group: JsonView, handlers: Seq<JsonView>) -> JsonView {
    match group {
        JsonView::Object(entries) => JsonView::Object(
            entries.insert("hooks"@, JsonView::Array(handlers)),
        ),
        _ => group,
    }
}

/// Some group of the list has a handler that reports `event`.
pub open spec fn some_group_reports(
    groups: Seq<JsonView>,
    place: CommandKey,
    event: Seq<char>,
) -> bool {
    exists|i: int|
        0 <= i < groups.len() && (nested(#[trigger] groups[i]) matches Some(handlers)
            && some_reports(handlers, place, event))
}

/// The group stays once Smelt's handlers are gone. With `drop_empty` a group without
/// handlers goes; otherwise it goes only where Smelt's handlers were all it had.
pub open spec fn group_stays(group: JsonView, place: CommandKey, drop_empty: bool) -> bool {
    nested(group) matches Some(handlers) ==> foreign(handlers, place).len() > 0 || (!drop_empty
        && !some_own(handlers, place))
}

/// The group without Smelt's handlers.
pub open spec fn foreign_group(group: JsonView, place: CommandKey) -> JsonView {
    match nested(group) {
        Some(handlers) => with_nested(group, foreign(handlers, place)),
        None => group,
    }
}

/// The groups without Smelt's handlers, in order.
pub open spec fn foreign_groups(
    groups: Seq<JsonView>,
    place: CommandKey,
    drop_empty: bool,
) -> Seq<JsonView> {
    groups.filter(|group: JsonView| group_stays(group, place, drop_empty)).map_values(
        |group: JsonView| foreign_group(group, place),
    )
}

fn command_under(handler: &Json, key: &str) -> (r: bool)
    ensures
        r == runs_under(handler.view(), key@),
{
    match handler.text_at(key) {
        Some(command) => command_uses_smelt_notify(command.as_str()),
        None => false,
    }
}

fn command_for_under(handler: &Json, key: &str, event: &str) -> (r: bool)
    ensures
        r == runs_for_under(handler.view(), key@, event@),
{
    match handler.text_at(key) {
        Some(command) => command_uses_current_smelt_hook(command.as_str(), event),
        None => false,
    }
}

/// Whether the handler is Smelt's.
pub fn handler_is_own(handler: &Json, place: CommandKey) -> (r: bool)
    ensures
        r == is_own(handler.view(), place),
{
    match place {
        CommandKey::CommandOrBash => command_under(handler, "command") || command_under(
            handler,
            "bash",
        ),
        CommandKey::Bash => command_under(handler, "bash"),
        CommandKey::Command => command_under(handler, "command"),
        CommandKey::ActionCommand => match handler.get("action") {
            Some(action) => command_under(action, "command"),
            None => false,
        },
    }
}

/// Whether the handler is Smelt's and reports `event`.
pub fn handler_reports(handler: &Json, place: CommandKey, event: &str) -> (r: bool)
    ensures
        r == reports(handler.view(), place, event@),
{
    match place {
        CommandKey::CommandOrBash => command_for_under(handler, "command", event)
            || command_for_under(handler, "bash", event),
        CommandKey::Bash => command_for_under(handler, "bash", event),
        CommandKey::Command => command_for_under(handler, "command", event),
        CommandKey::ActionCommand => match handler.get("action") {
            Some(action) => command_for_under(action, "command", event),
            None => false,
        },
    }
}

/// Whether some handler of the list reports `event`.
pub fn any_reports(handlers: &Vec<Json>, place: CommandKey, event: &str) -> (r: bool)
    ensures
        r == some_reports(json::documents(handlers@), place, event@),
{
    let ghost all = json::documents(handlers@);
    let mut i: usize = 0;
    while i < handlers.len()
        invariant
            all == json::documents(handlers@),
            i <= handlers.len(),
            forall|k: int| 0 <= k < i ==> !reports(#[trigger] all[k], place, event@),
        decreases handlers.len() - i,
    {
        assert(all[i as int] == handlers@[i as int].view());
        if handler_reports(&handlers[i], place, event) {
            return true;
        }
        i = i + 1;
    }
    false
}

/// Whether some group of the list has a handler that reports `event`.
pub fn any_group_reports(groups: &Vec<Json>, place: CommandKey, event: &str) -> (r: bool)
    ensures
        r == some_group_reports(json::documents(groups@), place, event@),
{
    let ghost all = json::documents(groups@);
    let mut i: usize = 0;
    while i < groups.len()
        invariant
            all == json::documents(groups@),
            i <= groups.len(),
            forall|k: int|
                0 <= k < i ==> !(nested(#[trigger] all[k]) matches Some(handlers) && some_reports(
                    handlers,
                    place,
                    event@,
                )),
        decreases groups.len() - i,
    {
        assert(all[i as int] == groups@[i as int].view());
        match groups[i].list_at("hooks") {
            Some(handlers) => {
                if any_reports(handlers, place, event) {
                    return true;
                }
            },
            None => {},
        }
        i = i + 1;
    }
    false
}

/// The list without Smelt's handlers.
pub fn foreign_handlers(handlers: Vec<Json>, place: CommandKey) -> (r: Vec<Json>)
    ensures
        json::documents(r@) == foreign(json::documents(handlers@), place),
{
    let ghost all = json::documents(handlers@);
    let ghost keep = |handler: JsonView| !is_own(handler, place);
    let mut rest: Vec<Json> = handlers;
    let mut out: Vec<Json> = Vec::new();
    let ghost mut done: int = 0;
    proof {
        reveal(Seq::filter);
        assert(all.take(0) =~= seq![]);
        assert(rest@ =~= handlers@.skip(0));
        assert(json::documents(out@) =~= seq![]);
    }
    while rest.len() > 0
        invariant
            all == json::documents(handlers@),
            keep == (|handler: JsonView| !is_own(handler, place)),
            0 <= done <= handlers@.len(),
            rest@ == handlers@.skip(done),
            json::documents(out@) == all.take(done).filter(keep),
        decreases rest.len(),
    {
        let handler = rest.remove(0);
        proof {
            assert(all[done] == handler.view());
            lemma_filter_step(all, done, keep);
            assert(rest@ =~= handlers@.skip(done + 1));
        }
        let ghost before = out@;
        if !handler_is_own(&handler, place) {
            out.push(handler);
            assert(json::documents(out@) =~= json::documents(before).push(handler.view()));
        }
        proof {
            done = done + 1;
        }
    }
    assert(all.take(done) =~= all);
    out
}

/// Whether some handler of the list is Smelt's.
pub fn any_own(handlers: &Vec<Json>, place: CommandKey) -> (r: bool)
    ensures
        r == some_own(json::documents(handlers@), place),
{
    let ghost all = json::documents(handlers@);
    let mut i: usize = 0;
    while i < handlers.len()
        invariant
            all == json::documents(handlers@),
            i <= handlers.len(),
            forall|k: int| 0 <= k < i ==> !is_own(#[trigger] all[k], place),
        decreases handlers.len() - i,
    {
        assert(all[i as int] == handlers@[i as int].view());
        if handler_is_own(&handlers[i], place) {
            return true;
        }
        i = i + 1;
    }
    false
}

fn strip_group(group: Json, place: CommandKey, drop_empty: bool) -> (r: Option<Json>)
    ensures
        match r {
            Some(rest) => group_stays(group.view(), place, drop_empty) && rest.view()
                == foreign_group(group.view(), place),
            None => !group_stays(group.view(), place, drop_empty),
        },
{
    match group {
        Json::Object(object) => {
            let ghost entries = object.view();
            let (rest, taken) = object.take_list("hooks");
            match taken {
                Some(handlers) => {
                    let contained: bool = any_own(&handlers, place);
                    let kept: Vec<Json> = foreign_handlers(handlers, place);
                    assert(json::documents(kept@).len() == kept@.len());
                    if kept.len() > 0 || (!drop_empty && !contained) {
                        assert(entries.remove("hooks"@).insert(
                            "hooks"@,
                            JsonView::Array(json::documents(kept@)),
                        ) =~= entries.insert("hooks"@, JsonView::Array(json::documents(kept@))));
                        Some(Json::Object(rest.insert("hooks", Json::Array(kept))))
                    } else {
                        None
                    }
                },
                None => Some(Json::Object(rest)),
            }
        },
        other => Some(other),
    }
}

/// The groups without Smelt's handlers.
pub fn strip_groups(groups: Vec<Json>, place: CommandKey, drop_empty: bool) -> (r: Vec<Json>)
    ensures
        json::documents(r@) == foreign_groups(json::documents(groups@), place, drop_empty),
{
    let ghost all = json::documents(groups@);
    let ghost keep = |group: JsonView| group_stays(group, place, drop_empty);
    let ghost strip = |group: JsonView| foreign_group(group, place);
    let mut rest: Vec<Json> = groups;
    let mut out: Vec<Json> = Vec::new();
    let ghost mut done: int = 0;
    proof {
        reveal(Seq::filter);
        assert(all.take(0) =~= seq![]);
        assert(rest@ =~= groups@.skip(0));
        assert(json::documents(out@) =~= all.take(0).filter(keep).map_values(strip));
    }
    while rest.len() > 0
        invariant
            all == json::documents(groups@),
            keep == (|group: JsonView| group_stays(group, place, drop_empty)),
            strip == (|group: JsonView| foreign_group(group, place)),
            0 <= done <= groups@.len(),
            rest@ == groups@.skip(done),
            json::documents(out@) == all.take(done).filter(keep).map_values(strip),
        decreases rest.len(),
    {
        let group = rest.remove(0);
        proof {
            assert(all[done] == group.view());
            lemma_filter_step(all, done, keep);
            assert(rest@ =~= groups@.skip(done + 1));
        }
        let ghost before = out@;
        match strip_group(group, place, drop_empty) {
            Some(kept) => {
                out.push(kept);
                assert(json::documents(out@) =~= json::documents(before).push(kept.view()));
                assert(json::documents(out@) =~= all.take(done + 1).filter(keep).map_values(strip));
            },
            None => {},
        }
        proof {
            done = done + 1;
        }
    }
    assert(all.take(done) =~= all);
    out
}

pub proof fn lemma_filter_step(items: Seq<JsonView>, at: int, keep: spec_fn(JsonView) -> bool)
    requires
        0 <= at < items.len(),
    ensures
        items.take(at + 1).filter(keep) == if keep(items[at]) {
            items.take(at).filter(keep).push(items[at])
        } else {
            items.take(at).filter(keep)
        },
{
    reveal(Seq::filter);
    assert(items.take(at + 1).drop_last() =~= items.take(at));
}

} // verus!
