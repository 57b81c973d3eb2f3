//! Hook files that list groups of shell handlers by event: those of the first agent, Grok and Codex.

use vstd::prelude::*;

use crate::agent_hooks::dialect;
use crate::agent_hooks::dialect::{clear_events, Dialect};
use crate::agent_hooks::document;
use crate::agent_hooks::document::{
    invalid_json_message, lists_report, merge_lists, missing_notify_message, open_section,
    read_document, render_document, HookFile, HookFileView,
};
use crate::agent_hooks::fitting;
use crate::agent_hooks::handlers;
use crate::agent_hooks::handlers::CommandKey;
use crate::agent_hooks::list_laws;
use crate::agent_hooks::reading_back;
use crate::json;
use crate::json::{Json, JsonObject, JsonView};
use crate::shell;
use crate::text;
use crate::text::concat;

verus! {

/// The dialect of a hook file.
pub open spec fn group_dialect(copilot_format: bool) -> Dialect {
    if copilot_format {
        Dialect::BashGroups
    } else {
        Dialect::Groups
    }
}

/// The entries of a hook file, marked with its version where the format has one.
pub open spec fn versioned(
    entries: Map<Seq<char>, JsonView>,
    copilot_format: bool,
) -> Map<Seq<char>, JsonView> {
    if copilot_format {
        entries.insert("version"@, JsonView::Number(text::decimal(1)))
    } else {
        entries
    }
}

/// The document with Smelt's hooks, and the reason where they could not all be added.
pub open spec fn merged(
    root: JsonView,
    path: Seq<char>,
    events: Seq<Seq<char>>,
    notify: Seq<char>,
    provider: Seq<char>,
    copilot_format: bool,
) -> (JsonView, Option<Seq<char>>) {
    let opened = if copilot_format && root is Null {
        JsonView::Object(Map::empty())
    } else {
        root
    };
    match opened {
        JsonView::Object(old) => {
            let entries = versioned(old, copilot_format);
            match document::section_of(entries, "hooks"@) {
                Some(hooks) => {
                    let lists = document::merged_lists(
                        hooks,
                        events,
                        group_dialect(copilot_format),
                        notify,
                        provider,
                    );
                    (
                        JsonView::Object(entries.insert("hooks"@, JsonView::Object(lists.0))),
                        lists.1,
                    )
                },
                None => (JsonView::Object(entries), Some("hooks 不是对象"@)),
            }
        },
        _ => (opened, Some(path + " 根不是对象"@)),
    }
}

/// Every event has a hook of Smelt that reports it.
pub open spec fn installed(root: JsonView, events: Seq<Seq<char>>) -> bool {
    json::member(root, "hooks"@) matches Some(JsonView::Object(hooks)) && dialect::all_reported(
        hooks,
        events,
        Dialect::Groups,
    )
}

/// The document without Smelt's hooks; nothing where it has no hooks to look through.
pub open spec fn removed(root: JsonView, events: Seq<Seq<char>>) -> Option<JsonView> {
    match json::member(root, "hooks"@) {
        Some(JsonView::Object(hooks)) => Some(
            JsonView::Object(
                root->Object_0.insert(
                    "hooks"@,
                    JsonView::Object(
                        dialect::cleared(hooks, dialect::among(events), Dialect::Groups),
                    ),
                ),
            ),
        ),
        _ => None,
    }
}

/// The text to write so that Smelt's hooks are installed, or why they cannot be.
pub open spec fn installation(
    notify: Seq<char>,
    available: bool,
    path: Seq<char>,
    file: HookFileView,
    events: Seq<Seq<char>>,
    provider: Seq<char>,
) -> Result<Seq<char>, Seq<char>> {
    if !available {
        Err(document::missing_notify(notify))
    } else {
        match document::document_in(file, document::invalid_json(path)) {
            Err(message) => Err(message),
            Ok(root) => {
                let change = merged(root, path, events, notify, provider, false);
                match change.1 {
                    Some(message) => Err(message),
                    None => Ok(document::rendered(change.0)),
                }
            },
        }
    }
}

/// The text to write so that Smelt's hooks are gone, if any, or why they cannot be removed.
pub open spec fn removal(
    file: HookFileView,
    events: Seq<Seq<char>>,
) -> Result<Option<Seq<char>>, Seq<char>> {
    match file {
        HookFileView::Absent => Ok(None),
        HookFileView::Unreadable(reason) => Err(reason),
        HookFileView::Text(content) => match json::parse_outcome(content) {
            Err(message) => Err(message),
            Ok(root) => match removed(root, events) {
                None => Ok(None),
                Some(rest) => Ok(Some(document::rendered(rest))),
            },
        },
    }
}

/// Adding Smelt's hooks to a file of this text changes nothing in its document.
pub open spec fn is_settled(
    content: Seq<char>,
    path: Seq<char>,
    events: Seq<Seq<char>>,
    notify: Seq<char>,
    provider: Seq<char>,
) -> bool {
    json::parse_outcome(content) matches Ok(root) && merged(
        root,
        path,
        events,
        notify,
        provider,
        false,
    ) == (root, None::<Seq<char>>)
}

fn merge_entries(
    old: JsonObject,
    events: &Vec<String>,
    notify: &str,
    provider: &str,
    copilot_format: bool,
) -> (r: (Json, Result<(), String>))
    ensures
        forall|path: Seq<char>|
            (r.0.view(), document::failure(r.1)) == #[trigger] merged(
                JsonView::Object(old.view()),
                path,
                text::texts(events@),
                notify@,
                provider@,
                copilot_format,
            ),
        r.1 is Ok && shell::names_notify(notify@) && dialect::plain_names(
            provider@,
            text::texts(events@),
        ) ==> dialect::recognised(notify@, provider@, text::texts(events@)),
{
    let entries: JsonObject = if copilot_format {
        old.insert("version", Json::integer(1))
    } else {
        old
    };
    let ghost before = entries.view();
    let (rest, section) = open_section(entries, "hooks");
    match section {
        None => (Json::Object(rest), Err("hooks 不是对象".to_owned())),
        Some(hooks) => {
            let dialect: Dialect = if copilot_format {
                Dialect::BashGroups
            } else {
                Dialect::Groups
            };
            let (lists, result) = merge_lists(hooks, events, dialect, notify, provider);
            assert(before.remove("hooks"@).insert("hooks"@, JsonView::Object(lists.view()))
                =~= before.insert("hooks"@, JsonView::Object(lists.view())));
            (Json::Object(rest.insert("hooks", Json::Object(lists))), result)
        },
    }
}

/// Adds Smelt's hooks for the given events, up to the first that cannot get one. Smelt's
/// earlier hooks make place for the new ones; those of others stay.
pub fn merge_hook_file(
    root: &mut Json,
    path: &str,
    events: &Vec<String>,
    notify: &str,
    provider: &str,
    copilot_format: bool,
) -> (r: Result<(), String>)
    requires
        copilot_format ==> old(root).view() is Object || old(root).view() is Null,
    ensures
        (final(root).view(), document::failure(r)) == merged(
            old(root).view(),
            path@,
            text::texts(events@),
            notify@,
            provider@,
            copilot_format,
        ),
        r is Ok && !copilot_format && shell::names_notify(notify@) && dialect::plain_names(
            provider@,
            text::texts(events@),
        ) ==> installed(final(root).view(), text::texts(events@)),
        r is Ok && shell::names_notify(notify@) && dialect::plain_names(
            provider@,
            text::texts(events@),
        ) ==> dialect::recognised(notify@, provider@, text::texts(events@)),
{
    let ghost before = root.view();
    let mut document: Json = Json::Null;
    core::mem::swap(root, &mut document);
    let (changed, result): (Json, Result<(), String>) = match document {
        Json::Object(entries) => merge_entries(entries, events, notify, provider, copilot_format),
        Json::Null if copilot_format => merge_entries(
            JsonObject::new(),
            events,
            notify,
            provider,
            copilot_format,
        ),
        other => (other, Err(concat(path, " 根不是对象"))),
    };
    *root = changed;
    proof {
        assert(before is Null && copilot_format ==> merged(
            before,
            path@,
            text::texts(events@),
            notify@,
            provider@,
            copilot_format,
        ) == merged(
            JsonView::Object(Map::empty()),
            path@,
            text::texts(events@),
            notify@,
            provider@,
            copilot_format,
        ));
        if result is Ok && dialect::recognised(notify@, provider@, text::texts(events@))
            && !copilot_format {
            merging_installs(before, path@, text::texts(events@), notify@, provider@);
        }
    }
    result
}

/// Adding Smelt's hooks installs them.
pub proof fn merging_installs(
    root: JsonView,
    path: Seq<char>,
    events: Seq<Seq<char>>,
    notify: Seq<char>,
    provider: Seq<char>,
)
    requires
        merged(root, path, events, notify, provider, false).1 is None,
        dialect::recognised(notify, provider, events),
    ensures
        installed(merged(root, path, events, notify, provider, false).0, events),
{
    let hooks = document::section_of(root->Object_0, "hooks"@)->0;
    list_laws::in_turn_is_at_once(hooks, events, Dialect::Groups, notify, provider);
    list_laws::enlisted_reports(hooks, events, Dialect::Groups, notify, provider);
}

/// Adding Smelt's hooks a second time changes nothing.
pub proof fn merging_twice(
    root: JsonView,
    path: Seq<char>,
    events: Seq<Seq<char>>,
    notify: Seq<char>,
    provider: Seq<char>,
)
    requires
        merged(root, path, events, notify, provider, false).1 is None,
        dialect::recognised(notify, provider, events),
    ensures
        merged(
            merged(root, path, events, notify, provider, false).0,
            path,
            events,
            notify,
            provider,
            false,
        ) == merged(root, path, events, notify, provider, false),
{
    let entries = root->Object_0;
    let hooks = document::section_of(entries, "hooks"@)->0;
    let once = dialect::enlisted(hooks, events, Dialect::Groups, notify, provider);
    list_laws::in_turn_is_at_once(hooks, events, Dialect::Groups, notify, provider);
    list_laws::in_turn_is_at_once(once, events, Dialect::Groups, notify, provider);
    list_laws::enlisted_again(hooks, events, Dialect::Groups, notify, provider);
    assert forall|at: int| !dialect::blocked_at(once, events, at) by {
        if 0 <= at < events.len() {
            assert(events.contains(events[at]));
        }
    }
    assert(entries.insert("hooks"@, JsonView::Object(once)).insert("hooks"@, JsonView::Object(once))
        =~= entries.insert("hooks"@, JsonView::Object(once)));
}

/// After Smelt's hooks are added, the list of an event ends in one hook of Smelt and has no other.
pub proof fn events_have_one_hook(
    root: JsonView,
    path: Seq<char>,
    events: Seq<Seq<char>>,
    notify: Seq<char>,
    provider: Seq<char>,
    event: Seq<char>,
)
    requires
        merged(root, path, events, notify, provider, false).1 is None,
        dialect::recognised(notify, provider, events),
        events.contains(event),
    ensures
        ({
            let hooks = document::section_of(root->Object_0, "hooks"@)->0;
            let others = dialect::prepared_list(dialect::list_of(hooks, event), Dialect::Groups);
            &&& json::member(merged(root, path, events, notify, provider, false).0, "hooks"@)
                matches Some(lists)
            &&& json::list_under(lists, event) == Some(
                others.push(
                    dialect::own_hook(
                        Dialect::Groups,
                        shell::hook_command(notify, provider, event),
                        event,
                    ),
                ),
            )
            &&& list_laws::groups_are_foreign(others, CommandKey::CommandOrBash)
        }),
{
    let hooks = document::section_of(root->Object_0, "hooks"@)->0;
    list_laws::in_turn_is_at_once(hooks, events, Dialect::Groups, notify, provider);
    list_laws::foreign_groups_are_foreign(
        dialect::list_of(hooks, event),
        CommandKey::CommandOrBash,
        false,
    );
}

/// Removing Smelt's hooks takes back what adding them did: the document is left as removing
/// them right away leaves it, with an empty set of hooks where it had none.
pub proof fn removing_undoes_merging(
    root: JsonView,
    path: Seq<char>,
    events: Seq<Seq<char>>,
    notify: Seq<char>,
    provider: Seq<char>,
)
    requires
        merged(root, path, events, notify, provider, false).1 is None,
        dialect::recognised(notify, provider, events),
    ensures
        json::member(root, "hooks"@) is Some ==> removed(
            merged(root, path, events, notify, provider, false).0,
            events,
        ) == removed(root, events),
        json::member(root, "hooks"@) is None ==> removed(
            merged(root, path, events, notify, provider, false).0,
            events,
        ) == Some(
            JsonView::Object(root->Object_0.insert("hooks"@, JsonView::Object(Map::empty()))),
        ),
{
    let entries = root->Object_0;
    let hooks = document::section_of(entries, "hooks"@)->0;
    let once = dialect::enlisted(hooks, events, Dialect::Groups, notify, provider);
    list_laws::in_turn_is_at_once(hooks, events, Dialect::Groups, notify, provider);
    assert forall|i: int| 0 <= i < events.len() implies dialect::listable(
        hooks,
        #[trigger] events[i],
    ) by {
        lemma_nothing_blocked(hooks, events, i);
    }
    assert forall|i: int| 0 <= i < events.len() implies dialect::among(events)(
        #[trigger] events[i],
    ) by {
        assert(events.contains(events[i]));
    }
    list_laws::removing_undoes_adding(
        hooks,
        events,
        dialect::among(events),
        Dialect::Groups,
        notify,
        provider,
    );
    let left = dialect::cleared(hooks, dialect::among(events), Dialect::Groups);
    if json::member(root, "hooks"@) is None {
        assert(left =~= Map::<Seq<char>, JsonView>::empty());
    }
    assert(entries.insert("hooks"@, JsonView::Object(once)).insert("hooks"@, JsonView::Object(left))
        =~= entries.insert("hooks"@, JsonView::Object(left)));
}

/// Where no event is the first that cannot get a list, every event can.
pub proof fn lemma_nothing_blocked(hooks: dialect::HookLists, events: Seq<Seq<char>>, at: int)
    requires
        forall|i: int| !dialect::blocked_at(hooks, events, i),
        0 <= at < events.len(),
    ensures
        dialect::listable(hooks, events[at]),
    decreases at,
{
    assert forall|i: int| 0 <= i < at implies dialect::listable(hooks, #[trigger] events[i]) by {
        lemma_nothing_blocked(hooks, events, i);
    }
    assert(!dialect::blocked_at(hooks, events, at));
}

/// After Smelt's hooks are removed, none of the events is reported.
pub proof fn removing_uninstalls(root: JsonView, events: Seq<Seq<char>>)
    requires
        removed(root, events) is Some,
        events.len() > 0,
    ensures
        !installed(removed(root, events)->0, events),
{
    let hooks = json::member(root, "hooks"@)->0->Object_0;
    assert(events.contains(events[0]));
    list_laws::cleared_reports_nothing(hooks, dialect::among(events), Dialect::Groups, events[0]);
}

/// Whatever else a hook file holds stays as it is, both when hooks are added and when they
/// are removed.
pub proof fn other_settings_stay(
    root: JsonView,
    path: Seq<char>,
    events: Seq<Seq<char>>,
    notify: Seq<char>,
    provider: Seq<char>,
    other: Seq<char>,
)
    requires
        other != "hooks"@,
    ensures
        json::member(merged(root, path, events, notify, provider, false).0, other) == json::member(
            root,
            other,
        ),
        removed(root, events) is Some ==> json::member(removed(root, events)->0, other)
            == json::member(root, other),
{
}

/// Whether Smelt's hooks are installed shows in the file that is read again.
pub proof fn installed_in_both(one: JsonView, other: JsonView, events: Seq<Seq<char>>)
    requires
        json::alike(one, other, 127),
    ensures
        installed(one, events) == installed(other, events),
{
    reading_back::lemma_section(one, other, "hooks"@, Dialect::Groups, events, 127);
}

proof fn lemma_list_settled(
    old: Seq<JsonView>,
    back: Seq<JsonView>,
    command: Seq<char>,
    event: Seq<char>,
    depth: nat,
)
    requires
        shell::runs_notify(command),
        reading_back::all_alike(
            dialect::prepared_list(old, Dialect::Groups).push(
                dialect::own_hook(Dialect::Groups, command, event),
            ),
            back,
            depth,
        ),
    ensures
        dialect::prepared_list(back, Dialect::Groups).push(
            dialect::own_hook(Dialect::Groups, command, event),
        ) == back,
{
    let place = CommandKey::CommandOrBash;
    let prepared = dialect::prepared_list(old, Dialect::Groups);
    let hook = dialect::own_hook(Dialect::Groups, command, event);
    let written = prepared.push(hook);
    let rest = back.drop_last();
    assert(json::alike(written[prepared.len() as int], back[prepared.len() as int], depth));
    reading_back::lemma_own_hook_is_whole(Dialect::Groups, command, event);
    reading_back::whole_documents_come_back(hook, back[prepared.len() as int], 4, depth);
    assert(back =~= rest.push(hook));
    list_laws::foreign_groups_are_foreign(old, place, false);
    assert forall|i: int| 0 <= i < rest.len() implies (handlers::nested(
        #[trigger] rest[i],
    ) matches Some(items) ==> !handlers::some_own(items, place)) by {
        assert(json::alike(written[i], back[i], depth));
        assert(written[i] == prepared[i]);
        reading_back::lemma_member(prepared[i], rest[i], "hooks"@, depth);
        match (handlers::nested(prepared[i]), handlers::nested(rest[i])) {
            (Some(a), Some(b)) => reading_back::lemma_handlers(
                a,
                b,
                place,
                event,
                (depth - 2) as nat,
            ),
            _ => {},
        }
    }
    list_laws::foreign_groups_stay(rest, place);
    list_laws::own_hook_is_removed(rest, Dialect::Groups, command, event);
}

/// A file to which Smelt's hooks were added is left as it is when they are added once more:
/// `back` is the document that the written file holds.
pub proof fn adding_settles(
    root: JsonView,
    back: JsonView,
    path: Seq<char>,
    events: Seq<Seq<char>>,
    notify: Seq<char>,
    provider: Seq<char>,
)
    requires
        merged(root, path, events, notify, provider, false).1 is None,
        dialect::recognised(notify, provider, events),
        json::alike(merged(root, path, events, notify, provider, false).0, back, 127),
    ensures
        merged(back, path, events, notify, provider, false) == (back, None::<Seq<char>>),
{
    let first = merged(root, path, events, notify, provider, false).0;
    let hooks = document::section_of(root->Object_0, "hooks"@)->0;
    let once = dialect::enlisted(hooks, events, Dialect::Groups, notify, provider);
    list_laws::in_turn_is_at_once(hooks, events, Dialect::Groups, notify, provider);
    reading_back::lemma_member(first, back, "hooks"@, 127);
    let entries = back->Object_0;
    let found = entries["hooks"@]->Object_0;
    assert(json::member(first, "hooks"@) == Some(JsonView::Object(once)));
    assert(json::member(back, "hooks"@) == Some(JsonView::Object(found)));
    let twice = dialect::enlisted(found, events, Dialect::Groups, notify, provider);
    list_laws::in_turn_is_at_once(found, events, Dialect::Groups, notify, provider);
    assert forall|event: Seq<char>| events.contains(event) implies found.contains_key(event)
        && found[event] is Array && twice[event] == #[trigger] found[event] by {
        reading_back::lemma_member(
            JsonView::Object(once),
            JsonView::Object(found),
            event,
            126,
        );
        let at = choose|i: int| 0 <= i < events.len() && events[i] == event;
        let command = shell::hook_command(notify, provider, events[at]);
        assert(shell::runs_notify_for(command, events[at]));
        assert(json::list_under(JsonView::Object(once), event) is Some);
        lemma_list_settled(
            dialect::list_of(hooks, event),
            dialect::list_of(found, event),
            command,
            event,
            124,
        );
    }
    assert forall|at: int| !dialect::blocked_at(found, events, at) by {
        if 0 <= at < events.len() {
            assert(events.contains(events[at]));
            assert(found[events[at]] is Array);
        }
    }
    assert(twice =~= found);
    assert(entries.insert("hooks"@, JsonView::Object(found)) =~= entries);
}

proof fn lemma_merged_readable(
    root: JsonView,
    path: Seq<char>,
    events: Seq<Seq<char>>,
    notify: Seq<char>,
    provider: Seq<char>,
)
    requires
        json::readable(root),
        merged(root, path, events, notify, provider, false).1 is None,
    ensures
        json::readable(merged(root, path, events, notify, provider, false).0),
{
    let entries = root->Object_0;
    let hooks = document::section_of(entries, "hooks"@)->0;
    fitting::lemma_section_fits(entries, "hooks"@, 127);
    fitting::lemma_enlisted_fits(hooks, events, Dialect::Groups, notify, provider, 126);
    fitting::lemma_insert_fits(
        entries,
        "hooks"@,
        JsonView::Object(
            dialect::enlisted_in_turn(hooks, events, Dialect::Groups, notify, provider),
        ),
        127,
    );
}

proof fn lemma_removed_readable(root: JsonView, events: Seq<Seq<char>>)
    requires
        json::readable(root),
        removed(root, events) is Some,
    ensures
        json::readable(removed(root, events)->0),
{
    let entries = root->Object_0;
    let hooks = json::member(root, "hooks"@)->0->Object_0;
    fitting::lemma_entry_fits(entries, "hooks"@, 127);
    fitting::lemma_cleared_fits(hooks, dialect::among(events), Dialect::Groups, 126);
    fitting::lemma_insert_fits(
        entries,
        "hooks"@,
        JsonView::Object(dialect::cleared(hooks, dialect::among(events), Dialect::Groups)),
        127,
    );
}

/// Takes Smelt's hooks out of the given events. Nothing is done where the document has no
/// hooks to look through, and the result says so.
pub fn remove_hooks(root: &mut Json, events: &Vec<String>) -> (r: bool)
    ensures
        match removed(old(root).view(), text::texts(events@)) {
            Some(rest) => r && final(root).view() == rest,
            None => !r && final(root).view() == old(root).view(),
        },
{
    let ghost before = root.view();
    let mut document: Json = Json::Null;
    core::mem::swap(root, &mut document);
    match document {
        Json::Object(entries) => {
            let (rest, section) = entries.take_object("hooks");
            match section {
                Some(hooks) => {
                    let left: JsonObject = clear_events(hooks, events, Dialect::Groups);
                    assert(before->Object_0.remove("hooks"@).insert(
                        "hooks"@,
                        JsonView::Object(left.view()),
                    ) =~= before->Object_0.insert("hooks"@, JsonView::Object(left.view())));
                    *root = Json::Object(rest.insert("hooks", Json::Object(left)));
                    true
                },
                None => {
                    *root = Json::Object(rest);
                    false
                },
            }
        },
        other => {
            *root = other;
            false
        },
    }
}

/// Whether the document has a hook of Smelt for every event.
pub fn document_installed(root: &Json, events: &Vec<String>) -> (r: bool)
    ensures
        r == installed(root.view(), text::texts(events@)),
{
    match root.get("hooks") {
        Some(Json::Object(hooks)) => lists_report(hooks, events, Dialect::Groups),
        _ => false,
    }
}

/// The text of a file has Smelt's hooks for every event, and the helper is there to run.
pub open spec fn file_installed(
    available: bool,
    content: Option<Seq<char>>,
    events: Seq<Seq<char>>,
) -> bool {
    available && (content matches Some(read) && (json::parse_outcome(read) matches Ok(root)
        && installed(root, events)))
}

/// Whether a hook file, given by its text where it could be read, has Smelt's hooks for
/// every event. They are of no use without the helper.
pub fn hook_file_installed(
    notify_available: bool,
    content: Option<&str>,
    events: &Vec<String>,
) -> (r: bool)
    ensures
        r == file_installed(notify_available, document::maybe_text(content), text::texts(events@)),
{
    if !notify_available {
        return false;
    }
    match content {
        None => false,
        Some(read) => match Json::parse(read) {
            Ok(root) => document_installed(&root, events),
            Err(_) => false,
        },
    }
}

/// The text to write so that a hook file has Smelt's hooks.
pub fn install_hook_file(
    notify: &str,
    notify_available: bool,
    path: &str,
    file: &HookFile,
    events: &Vec<String>,
    provider: &str,
) -> (r: Result<String, String>)
    ensures
        document::outcome(r) == installation(
            notify@,
            notify_available,
            path@,
            file.view(),
            text::texts(events@),
            provider@,
        ),
        r matches Ok(written) ==> (document::document_in(
            file.view(),
            document::invalid_json(path@),
        ) matches Ok(root) && merged(
            root,
            path@,
            text::texts(events@),
            notify@,
            provider@,
            false,
        ).1 is None && json::reads_as(
            written@,
            merged(root, path@, text::texts(events@), notify@, provider@, false).0,
        )),
        r is Ok && shell::names_notify(notify@) && dialect::plain_names(
            provider@,
            text::texts(events@),
        ) ==> file_installed(notify_available, Some(r->Ok_0@), text::texts(events@)) && is_settled(
            r->Ok_0@,
            path@,
            text::texts(events@),
            notify@,
            provider@,
        ),
{
    if !notify_available {
        return Err(missing_notify_message(notify));
    }
    let complaint: String = invalid_json_message(path);
    match read_document(file, complaint.as_str()) {
        Err(message) => Err(message),
        Ok(document) => {
            let mut root: Json = document;
            match merge_hook_file(&mut root, path, events, notify, provider, false) {
                Err(message) => Err(message),
                Ok(_) => {
                    let written: Result<String, String> = render_document(&root);
                    proof {
                        let all = text::texts(events@);
                        lemma_merged_readable(document.view(), path@, all, notify@, provider@);
                        let back = json::parse_outcome(written->Ok_0@)->Ok_0;
                        installed_in_both(root.view(), back, all);
                        if dialect::recognised(notify@, provider@, all) {
                            adding_settles(document.view(), back, path@, all, notify@, provider@);
                        }
                    }
                    written
                },
            }
        },
    }
}

/// The text to write so that a hook file has none of Smelt's hooks, if it has to change.
pub fn uninstall_hook_file(file: &HookFile, events: &Vec<String>) -> (r: Result<
    Option<String>,
    String,
>)
    ensures
        document::edit(r) == removal(file.view(), text::texts(events@)),
        r matches Ok(Some(written)) ==> (json::parse_outcome(document::text_in(file.view())->0)
            matches Ok(root) && json::reads_as(
            written@,
            removed(root, text::texts(events@))->0,
        )),
        events@.len() > 0 ==> (document::edit(r) matches Ok(change) ==> !file_installed(
            true,
            document::text_after(file.view(), change),
            text::texts(events@),
        )),
{
    match file {
        HookFile::Absent => Ok(None),
        HookFile::Unreadable(reason) => Err(reason.clone()),
        HookFile::Text(content) => match Json::parse(content.as_str()) {
            Err(message) => Err(message),
            Ok(document) => {
                let mut root: Json = document;
                if remove_hooks(&mut root, events) {
                    match render_document(&root) {
                        Ok(written) => {
                            proof {
                                let all = text::texts(events@);
                                lemma_removed_readable(document.view(), all);
                                let back = json::parse_outcome(written@)->Ok_0;
                                installed_in_both(root.view(), back, all);
                                if events@.len() > 0 {
                                    removing_uninstalls(document.view(), all);
                                }
                            }
                            Ok(Some(written))
                        },
                        Err(message) => Err(message),
                    }
                } else {
                    Ok(None)
                }
            },
        },
    }
}

} // verus!
