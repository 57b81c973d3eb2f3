//! The hook file of Copilot.

use vstd::prelude::*;

use crate::agent_hooks::dialect;
use crate::agent_hooks::dialect::{clear_events, Dialect, HookLists};
use crate::agent_hooks::document;
use crate::agent_hooks::document::{
    invalid_json_message, lists_report, merge_lists, missing_notify_message, open_section,
    read_document, render_document, HookFile, HookFileView,
};
use crate::agent_hooks::events;
use crate::agent_hooks::events::{copilot_hook_events, copilot_legacy_hook_events};
use crate::agent_hooks::fitting;
use crate::agent_hooks::handlers::CommandKey;
use crate::agent_hooks::list_laws;
use crate::agent_hooks::reading_back;
use crate::json;
use crate::json::{Json, JsonObject, JsonView};
use crate::shell;
use crate::text;

verus! {

/// The lists without Smelt's hooks under the names of earlier releases.
pub open spec fn without_legacy(hooks: HookLists) -> HookLists {
    dialect::cleared(hooks, dialect::among(events::copilot_legacy_events()), Dialect::Copilot)
}

/// The lists without any of Smelt's hooks.
pub open spec fn without_own(hooks: HookLists) -> HookLists {
    without_legacy(
        dialect::cleared(hooks, dialect::among(events::copilot_events()), Dialect::Copilot),
    )
}

/// The entries, marked with the version of the format.
pub open spec fn versioned(entries: Map<Seq<char>, JsonView>) -> Map<Seq<char>, JsonView> {
    entries.insert("version"@, JsonView::Number(text::decimal(1)))
}

/// The document with Smelt's hooks, and the reason where they could not all be added.
pub open spec fn merged(root: JsonView, notify: Seq<char>) -> (JsonView, Option<Seq<char>>) {
    match root {
        JsonView::Object(old) => {
            let entries = versioned(old);
            match document::section_of(entries, "hooks"@) {
                Some(hooks) => {
                    let lists = document::merged_lists(
                        without_legacy(hooks),
                        events::copilot_events(),
                        Dialect::Copilot,
                        notify,
                        "copilot"@,
                    );
                    (
                        JsonView::Object(entries.insert("hooks"@, JsonView::Object(lists.0))),
                        lists.1,
                    )
                },
                None => (JsonView::Object(entries), Some("hooks 不是对象"@)),
            }
        },
        _ => (root, Some("hooks 文件根不是对象"@)),
    }
}

/// Every event has a hook of Smelt that reports it.
pub open spec fn installed(root: JsonView) -> bool {
    json::member(root, "hooks"@) matches Some(JsonView::Object(hooks)) && dialect::all_reported(
        hooks,
        events::copilot_events(),
        Dialect::Copilot,
    )
}

/// The document without Smelt's hooks; nothing where it has no hooks to look through.
pub open spec fn removed(root: JsonView) -> Option<JsonView> {
    match json::member(root, "hooks"@) {
        Some(JsonView::Object(hooks)) => Some(
            JsonView::Object(
                root->Object_0.insert("hooks"@, JsonView::Object(without_own(hooks))),
            ),
        ),
        _ => None,
    }
}

/// The text of the file has Smelt's hooks, and the helper is there to run.
pub open spec fn file_installed(available: bool, content: Option<Seq<char>>) -> bool {
    available && (content matches Some(read) && (json::parse_outcome(read) matches Ok(root)
        && installed(root)))
}

/// The text to write so that Smelt's hooks are installed, or why they cannot be.
pub open spec fn installation(
    notify: Seq<char>,
    available: bool,
    path: Option<Seq<char>>,
    file: HookFileView,
) -> Result<Seq<char>, Seq<char>> {
    match path {
        None => Err(document::no_home()),
        Some(place) => if !available {
            Err(document::missing_notify(notify))
        } else {
            match document::document_in(file, document::invalid_json(place)) {
                Err(message) => Err(message),
                Ok(root) => match merged(root, notify).1 {
                    Some(message) => Err(message),
                    None => Ok(document::rendered(merged(root, notify).0)),
                },
            }
        },
    }
}

/// The text to write so that Smelt's hooks are gone, if any, or why they cannot be removed.
pub open spec fn removal(file: HookFileView) -> Result<Option<Seq<char>>, Seq<char>> {
    match file {
        HookFileView::Absent => Ok(None),
        HookFileView::Unreadable(reason) => Err(reason),
        HookFileView::Text(content) => match json::parse_outcome(content) {
            Err(message) => Err(message),
            Ok(root) => match removed(root) {
                None => Ok(None),
                Some(rest) => Ok(Some(document::rendered(rest))),
            },
        },
    }
}

/// Adds Smelt's hooks, up to the first event that cannot get one. Smelt's earlier hooks
/// make place, also those under the names of earlier releases; those of others stay.
pub fn merge_copilot_hooks(root: &mut Json, notify: &str) -> (r: Result<(), String>)
    ensures
        (final(root).view(), document::failure(r)) == merged(old(root).view(), notify@),
        r is Ok && shell::names_notify(notify@) ==> installed(final(root).view()),
{
    let ghost before = root.view();
    let mut document: Json = Json::Null;
    core::mem::swap(root, &mut document);
    match document {
        Json::Object(old) => {
            let entries: JsonObject = old.insert("version", Json::integer(1));
            let ghost marked = entries.view();
            let (rest, section) = open_section(entries, "hooks");
            match section {
                None => {
                    *root = Json::Object(rest);
                    Err("hooks 不是对象".to_owned())
                },
                Some(hooks) => {
                    proof {
                        events::lemma_copilot_events();
                        events::lemma_copilot_legacy_events();
                        reveal_strlit("copilot");
                        assert(dialect::plain_names("copilot"@, events::copilot_events()));
                    }
                    let legacy: Vec<String> = copilot_legacy_hook_events();
                    let current: Vec<String> = copilot_hook_events();
                    let clean: JsonObject = clear_events(hooks, &legacy, Dialect::Copilot);
                    let (lists, result) = merge_lists(
                        clean,
                        &current,
                        Dialect::Copilot,
                        notify,
                        "copilot",
                    );
                    assert(marked.remove("hooks"@).insert("hooks"@, JsonView::Object(lists.view()))
                        =~= marked.insert("hooks"@, JsonView::Object(lists.view())));
                    *root = Json::Object(rest.insert("hooks", Json::Object(lists)));
                    proof {
                        if result is Ok && shell::names_notify(notify@) {
                            merging_installs(before, notify@);
                        }
                    }
                    result
                },
            }
        },
        other => {
            *root = other;
            Err("hooks 文件根不是对象".to_owned())
        },
    }
}

/// Adding Smelt's hooks installs them.
pub proof fn merging_installs(root: JsonView, notify: Seq<char>)
    requires
        merged(root, notify).1 is None,
        dialect::recognised(notify, "copilot"@, events::copilot_events()),
    ensures
        installed(merged(root, notify).0),
{
    let hooks = document::section_of(versioned(root->Object_0), "hooks"@)->0;
    events::lemma_copilot_events();
    list_laws::in_turn_is_at_once(
        without_legacy(hooks),
        events::copilot_events(),
        Dialect::Copilot,
        notify,
        "copilot"@,
    );
    list_laws::enlisted_reports(
        without_legacy(hooks),
        events::copilot_events(),
        Dialect::Copilot,
        notify,
        "copilot"@,
    );
}

/// Adding Smelt's hooks a second time changes nothing.
pub proof fn merging_twice(root: JsonView, notify: Seq<char>)
    requires
        merged(root, notify).1 is None,
        dialect::recognised(notify, "copilot"@, events::copilot_events()),
    ensures
        merged(merged(root, notify).0, notify) == merged(root, notify),
{
    let names = events::copilot_events();
    let legacy = dialect::among(events::copilot_legacy_events());
    let entries = versioned(root->Object_0);
    let hooks = document::section_of(entries, "hooks"@)->0;
    let base = without_legacy(hooks);
    let once = dialect::enlisted(base, names, Dialect::Copilot, notify, "copilot"@);
    let again = without_legacy(once);
    let twice = dialect::enlisted(again, names, Dialect::Copilot, notify, "copilot"@);
    events::lemma_copilot_events();
    list_laws::in_turn_is_at_once(
        base,
        events::copilot_events(),
        Dialect::Copilot,
        notify,
        "copilot"@,
    );
    list_laws::in_turn_is_at_once(
        again,
        events::copilot_events(),
        Dialect::Copilot,
        notify,
        "copilot"@,
    );
    list_laws::cleared_again(hooks, legacy, Dialect::Copilot);
    assert forall|at: int| !dialect::blocked_at(again, names, at) by {
        if 0 <= at < names.len() {
            assert(names.contains(names[at]));
        }
    }
    assert forall|event: Seq<char>|
        #![trigger twice.dom().contains(event)]
        #![trigger once.dom().contains(event)]
        (twice.dom().contains(event) <==> once.dom().contains(event)) && (twice.dom().contains(
            event,
        ) ==> twice[event] == once[event]) by {
        if names.contains(event) {
            let at = choose|i: int| 0 <= i < names.len() && names[i] == event;
            let command = shell::hook_command(notify, "copilot"@, names[at]);
            assert(shell::runs_notify_for(command, names[at]));
            let before = dialect::list_of(base, event);
            let prepared = dialect::prepared_list(before, Dialect::Copilot);
            list_laws::foreign_has_no_own(before, CommandKey::Bash);
            list_laws::own_hook_is_removed(prepared, Dialect::Copilot, command, event);
            let written = dialect::list_of(once, event);
            assert(written == prepared.push(
                dialect::own_hook(Dialect::Copilot, command, event),
            ));
            assert(dialect::list_of(again, event) =~= if legacy(event) {
                dialect::foreign_list(written, Dialect::Copilot, event)
            } else {
                written
            });
        } else {
            assert(dialect::cleared(base, legacy, Dialect::Copilot) == base);
            assert(again.dom().contains(event) <==> dialect::cleared(
                base,
                legacy,
                Dialect::Copilot,
            ).dom().contains(event));
        }
    }
    assert(twice =~= once);
    let first = entries.insert("hooks"@, JsonView::Object(once));
    lemma_version_is_no_hook();
    assert(versioned(first) =~= first);
    assert(first.insert("hooks"@, JsonView::Object(once)) =~= first);
}

proof fn lemma_version_is_no_hook()
    ensures
        "version"@ != "hooks"@,
{
    reveal_strlit("version");
    reveal_strlit("hooks");
    assert("version"@.len() != "hooks"@.len());
}

/// Removing Smelt's hooks takes back what adding them did: the lists are left as removing
/// them right away leaves them.
pub proof fn removing_undoes_merging(root: JsonView, notify: Seq<char>)
    requires
        merged(root, notify).1 is None,
        dialect::recognised(notify, "copilot"@, events::copilot_events()),
    ensures
        removed(merged(root, notify).0) == Some(
            JsonView::Object(
                versioned(root->Object_0).insert(
                    "hooks"@,
                    JsonView::Object(
                        without_own(document::section_of(root->Object_0, "hooks"@)->0),
                    ),
                ),
            ),
        ),
{
    let names = events::copilot_events();
    let current = dialect::among(names);
    let legacy = dialect::among(events::copilot_legacy_events());
    lemma_version_is_no_hook();
    let entries = versioned(root->Object_0);
    let hooks = document::section_of(entries, "hooks"@)->0;
    let base = without_legacy(hooks);
    let once = dialect::enlisted(base, names, Dialect::Copilot, notify, "copilot"@);
    assert forall|i: int| 0 <= i < names.len() implies dialect::listable(
        base,
        #[trigger] names[i],
    ) by {
        crate::agent_hooks::hook_file::lemma_nothing_blocked(base, names, i);
    }
    assert forall|i: int| 0 <= i < names.len() implies current(#[trigger] names[i]) by {
        assert(names.contains(names[i]));
    }
    events::lemma_copilot_events();
    list_laws::in_turn_is_at_once(
        base,
        events::copilot_events(),
        Dialect::Copilot,
        notify,
        "copilot"@,
    );
    list_laws::removing_undoes_adding(base, names, current, Dialect::Copilot, notify, "copilot"@);
    list_laws::cleared_in_turn(hooks, legacy, current, Dialect::Copilot);
    list_laws::cleared_in_turn(hooks, list_laws::either(legacy, current), legacy, Dialect::Copilot);
    list_laws::cleared_in_turn(hooks, current, legacy, Dialect::Copilot);
    let one = dialect::cleared(
        hooks,
        list_laws::either(list_laws::either(legacy, current), legacy),
        Dialect::Copilot,
    );
    let two = dialect::cleared(hooks, list_laws::either(current, legacy), Dialect::Copilot);
    assert(one =~= two);
    assert(entries.insert("hooks"@, JsonView::Object(once)).insert(
        "hooks"@,
        JsonView::Object(without_own(once)),
    ) =~= entries.insert("hooks"@, JsonView::Object(without_own(hooks))));
}

/// After Smelt's hooks are removed, they are not installed.
pub proof fn removing_uninstalls(root: JsonView)
    requires
        removed(root) is Some,
    ensures
        !installed(removed(root)->0),
{
    let names = events::copilot_events();
    let current = dialect::among(names);
    let legacy = dialect::among(events::copilot_legacy_events());
    let hooks = json::member(root, "hooks"@)->0->Object_0;
    list_laws::cleared_in_turn(hooks, current, legacy, Dialect::Copilot);
    assert(names.contains(names[0]));
    list_laws::cleared_reports_nothing(
        hooks,
        list_laws::either(current, legacy),
        Dialect::Copilot,
        names[0],
    );
}

/// Takes all of Smelt's hooks out. Nothing is done where the document has no hooks to look
/// through, and the result says so.
pub fn remove_copilot_hooks(root: &mut Json) -> (r: bool)
    ensures
        match removed(old(root).view()) {
            Some(rest) => r && final(root).view() == rest,
            None => !r && final(root).view() == old(root).view(),
        },
{
    let ghost before = root.view();
    let mut document: Json = Json::Null;
    core::mem::swap(root, &mut document);
    match document {
        Json::Object(entries) => {
            let (rest, section) = entries.take_object("hooks");
            match section {
                Some(hooks) => {
                    proof {
                        events::lemma_copilot_events();
                        events::lemma_copilot_legacy_events();
                    }
                    let current: Vec<String> = copilot_hook_events();
                    let legacy: Vec<String> = copilot_legacy_hook_events();
                    let first: JsonObject = clear_events(hooks, &current, Dialect::Copilot);
                    let left: JsonObject = clear_events(first, &legacy, Dialect::Copilot);
                    assert(before->Object_0.remove("hooks"@).insert(
                        "hooks"@,
                        JsonView::Object(left.view()),
                    ) =~= before->Object_0.insert("hooks"@, JsonView::Object(left.view())));
                    *root = Json::Object(rest.insert("hooks", Json::Object(left)));
                    true
                },
                None => {
                    *root = Json::Object(rest);
                    false
                },
            }
        },
        other => {
            *root = other;
            false
        },
    }
}

/// Whether the hook file, given by its text where it could be read, has Smelt's hooks for
/// every event. They are of no use without the helper.
pub fn copilot_hooks_installed(notify_available: bool, content: Option<&str>) -> (r: bool)
    ensures
        r == file_installed(notify_available, document::maybe_text(content)),
{
    if !notify_available {
        return false;
    }
    match content {
        None => false,
        Some(read) => match Json::parse(read) {
            Ok(root) => match root.get("hooks") {
                Some(Json::Object(hooks)) => {
                    let current: Vec<String> = copilot_hook_events();
                    lists_report(hooks, &current, Dialect::Copilot)
                },
                _ => false,
            },
            Err(_) => false,
        },
    }
}

/// The text to write so that the hook file has Smelt's hooks.
pub fn install_copilot_hooks(
    notify: &str,
    notify_available: bool,
    path: Option<&str>,
    file: &HookFile,
) -> (r: Result<String, String>)
    ensures
        document::outcome(r) == installation(
            notify@,
            notify_available,
            document::maybe_text(path),
            file.view(),
        ),
        r is Ok && shell::names_notify(notify@) ==> file_installed(
            notify_available,
            Some(r->Ok_0@),
        ),
        r matches Ok(written) ==> (document::maybe_text(path) matches Some(place)
            && (document::document_in(file.view(), document::invalid_json(place)) matches Ok(root)
            && merged(root, notify@).1 is None && json::reads_as(
            written@,
            merged(root, notify@).0,
        ))),
{
    match path {
        None => Err("无 home 目录".to_owned()),
        Some(place) => {
            if !notify_available {
                return Err(missing_notify_message(notify));
            }
            let complaint: String = invalid_json_message(place);
            match read_document(file, complaint.as_str()) {
                Err(message) => Err(message),
                Ok(document) => {
                    let mut root: Json = document;
                    match merge_copilot_hooks(&mut root, notify) {
                        Err(message) => Err(message),
                        Ok(_) => {
                            let written: Result<String, String> = render_document(&root);
                            proof {
                                lemma_merged_readable(document.view(), notify@);
                                let back = json::parse_outcome(written->Ok_0@)->Ok_0;
                                installed_in_both(root.view(), back);
                            }
                            written
                        },
                    }
                },
            }
        },
    }
}

/// The text to write so that the hook file has none of Smelt's hooks, if it has to change.
pub fn uninstall_copilot_hooks(file: &HookFile) -> (r: Result<Option<String>, String>)
    ensures
        document::edit(r) == removal(file.view()),
        document::edit(r) matches Ok(change) ==> !file_installed(
            true,
            document::text_after(file.view(), change),
        ),
{
    match file {
        HookFile::Absent => Ok(None),
        HookFile::Unreadable(reason) => Err(reason.clone()),
        HookFile::Text(content) => match Json::parse(content.as_str()) {
            Err(message) => Err(message),
            Ok(document) => {
                let mut root: Json = document;
                if remove_copilot_hooks(&mut root) {
                    match render_document(&root) {
                        Ok(written) => {
                            proof {
                                lemma_removed_readable(document.view());
                                let back = json::parse_outcome(written@)->Ok_0;
                                installed_in_both(root.view(), back);
                                removing_uninstalls(document.view());
                            }
                            Ok(Some(written))
                        },
                        Err(message) => Err(message),
                    }
                } else {
                    Ok(None)
                }
            },
        },
    }
}

/// Whether Smelt's hooks are installed shows in the file that is read again.
pub proof fn installed_in_both(one: JsonView, other: JsonView)
    requires
        json::alike(one, other, 127),
    ensures
        installed(one) == installed(other),
{
    reading_back::lemma_section(
        one,
        other,
        "hooks"@,
        Dialect::Copilot,
        events::copilot_events(),
        127,
    );
}

proof fn lemma_removed_readable(root: JsonView)
    requires
        json::readable(root),
        removed(root) is Some,
    ensures
        json::readable(removed(root)->0),
{
    let entries = root->Object_0;
    let hooks = json::member(root, "hooks"@)->0->Object_0;
    let current = dialect::among(events::copilot_events());
    fitting::lemma_entry_fits(entries, "hooks"@, 127);
    fitting::lemma_cleared_fits(hooks, current, Dialect::Copilot, 126);
    fitting::lemma_cleared_fits(
        dialect::cleared(hooks, current, Dialect::Copilot),
        dialect::among(events::copilot_legacy_events()),
        Dialect::Copilot,
        126,
    );
    fitting::lemma_insert_fits(entries, "hooks"@, JsonView::Object(without_own(hooks)), 127);
}

proof fn lemma_merged_readable(root: JsonView, notify: Seq<char>)
    requires
        json::readable(root),
        merged(root, notify).1 is None,
    ensures
        json::readable(merged(root, notify).0),
{
    let entries = versioned(root->Object_0);
    fitting::lemma_insert_fits(
        root->Object_0,
        "version"@,
        JsonView::Number(text::decimal(1)),
        127,
    );
    let hooks = document::section_of(entries, "hooks"@)->0;
    fitting::lemma_section_fits(entries, "hooks"@, 127);
    fitting::lemma_cleared_fits(
        hooks,
        dialect::among(events::copilot_legacy_events()),
        Dialect::Copilot,
        126,
    );
    let lists = dialect::enlisted_in_turn(
        without_legacy(hooks),
        events::copilot_events(),
        Dialect::Copilot,
        notify,
        "copilot"@,
    );
    fitting::lemma_enlisted_fits(
        without_legacy(hooks),
        events::copilot_events(),
        Dialect::Copilot,
        notify,
        "copilot"@,
        126,
    );
    fitting::lemma_insert_fits(entries, "hooks"@, JsonView::Object(lists), 127);
}

} // verus!
