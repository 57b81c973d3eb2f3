//! The hook file of Antigravity: hooks by event, inside a definition of Smelt's own.

use vstd::prelude::*;

use crate::agent_hooks::dialect;
use crate::agent_hooks::dialect::{clear_events, list_has_hook, Dialect, HookLists};
use crate::agent_hooks::document;
use crate::agent_hooks::document::{
    invalid_json_message, merge_lists, missing_notify_message, open_section, read_document,
    render_document, HookFile, HookFileView,
};
use crate::agent_hooks::events;
use crate::agent_hooks::events::antigravity_hook_events;
use crate::agent_hooks::fitting;
use crate::agent_hooks::hook_file;
use crate::agent_hooks::list_laws;
use crate::agent_hooks::reading_back;
use crate::json;
use crate::json::{Json, JsonObject, JsonView};
use crate::shell;
use crate::text;

verus! {

/// The name of Smelt's definition.
pub open spec fn definition_name() -> Seq<char> {
    "smelt-status-notifications"@
}

/// The definition without Smelt's handlers.
pub open spec fn without_own(definition: HookLists) -> HookLists {
    dialect::cleared(
        definition,
        dialect::among(events::antigravity_events()),
        Dialect::Antigravity,
    )
}

/// The definition, switched on, without Smelt's handlers.
pub open spec fn switched_on(definition: HookLists) -> HookLists {
    without_own(definition).insert("enabled"@, JsonView::Bool(true))
}

/// The document with Smelt's hooks, and the reason where they could not all be added.
pub open spec fn merged(root: JsonView, notify: Seq<char>) -> (JsonView, Option<Seq<char>>) {
    match root {
        JsonView::Object(entries) => match document::section_of(entries, definition_name()) {
            Some(definition) => {
                let lists = document::merged_lists(
                    switched_on(definition),
                    events::antigravity_events(),
                    Dialect::Antigravity,
                    notify,
                    "antigravity"@,
                );
                (
                    JsonView::Object(entries.insert(definition_name(), JsonView::Object(lists.0))),
                    lists.1,
                )
            },
            None => (root, Some("Antigravity hook smelt-status-notifications 不是对象"@)),
        },
        _ => (root, Some("Antigravity hooks 文件根不是对象"@)),
    }
}

/// The definition has a hook of Smelt that reports `event`.
pub open spec fn event_installed(definition: JsonView, event: Seq<char>) -> bool {
    json::list_under(definition, event) matches Some(items) && dialect::list_reports(
        items,
        Dialect::Antigravity,
        event,
    )
}

/// The definition is not switched off, and every event has a hook of Smelt that reports it.
pub open spec fn installed(root: JsonView) -> bool {
    json::member(root, definition_name()) matches Some(definition) && json::flag_under(
        definition,
        "enabled"@,
    ) != Some(false) && forall|i: int|
        0 <= i < events::antigravity_events().len() ==> event_installed(
            definition,
            #[trigger] events::antigravity_events()[i],
        )
}

/// Nothing is left in a definition but, possibly, its switch.
pub open spec fn is_spent(definition: HookLists) -> bool {
    forall|key: Seq<char>| definition.contains_key(key) ==> key == "enabled"@
}

/// The document without Smelt's hooks; nothing where it is no object. A definition that
/// this leaves without hooks goes.
pub open spec fn removed(root: JsonView) -> Option<JsonView> {
    match root {
        JsonView::Object(entries) => Some(
            match json::member(root, definition_name()) {
                Some(JsonView::Object(definition)) => if is_spent(without_own(definition)) {
                    JsonView::Object(entries.remove(definition_name()))
                } else {
                    JsonView::Object(
                        entries.insert(
                            definition_name(),
                            JsonView::Object(without_own(definition)),
                        ),
                    )
                },
                _ => root,
            },
        ),
        _ => None,
    }
}

/// The text of the file has Smelt's hooks, and the helper is there to run.
pub open spec fn file_installed(available: bool, content: Option<Seq<char>>) -> bool {
    available && (content matches Some(read) && (json::parse_outcome(read) matches Ok(root)
        && installed(root)))
}

/// The text to write so that Smelt's hooks are installed, or why they cannot be.
pub open spec fn installation(
    notify: Seq<char>,
    available: bool,
    path: Option<Seq<char>>,
    file: HookFileView,
) -> Result<Seq<char>, Seq<char>> {
    if !available {
        Err(document::missing_notify(notify))
    } else {
        match path {
            None => Err(document::no_home()),
            Some(place) => match document::document_in(file, document::invalid_json(place)) {
                Err(message) => Err(message),
                Ok(root) => match merged(root, notify).1 {
                    Some(message) => Err(message),
                    None => Ok(document::rendered(merged(root, notify).0)),
                },
            },
        }
    }
}

/// The text to write so that Smelt's hooks are gone, if any, or why they cannot be removed.
pub open spec fn removal(
    path: Option<Seq<char>>,
    file: HookFileView,
) -> Result<Option<Seq<char>>, Seq<char>> {
    match path {
        None => Ok(None),
        Some(place) => match file {
            HookFileView::Absent => Ok(None),
            HookFileView::Unreadable(reason) => Err(reason),
            HookFileView::Text(content) => match json::parse_outcome(content) {
                Err(message) => Err(document::invalid_json(place) + message),
                Ok(root) => match removed(root) {
                    None => Ok(None),
                    Some(rest) => Ok(Some(document::rendered(rest))),
                },
            },
        },
    }
}

/// Takes Smelt's handlers out of the definition. A list that this empties goes.
pub fn remove_smelt_antigravity_handlers(definition: JsonObject) -> (r: JsonObject)
    ensures
        r.view() == without_own(definition.view()),
{
    proof {
        events::lemma_antigravity_events();
    }
    let names: Vec<String> = antigravity_hook_events();
    clear_events(definition, &names, Dialect::Antigravity)
}

/// Adds Smelt's hooks, up to the first event that cannot get one. Smelt's earlier hooks make
/// place; those of others stay.
pub fn merge_antigravity_hooks(root: &mut Json, notify: &str) -> (r: Result<(), String>)
    ensures
        (final(root).view(), document::failure(r)) == merged(old(root).view(), notify@),
        r is Ok && shell::names_notify(notify@) ==> installed(final(root).view()),
{
    let ghost before = root.view();
    let mut document: Json = Json::Null;
    core::mem::swap(root, &mut document);
    match document {
        Json::Object(entries) => {
            let ghost old = entries.view();
            let (rest, section) = open_section(entries, "smelt-status-notifications");
            match section {
                None => {
                    *root = Json::Object(rest);
                    Err("Antigravity hook smelt-status-notifications 不是对象".to_owned())
                },
                Some(definition) => {
                    proof {
                        events::lemma_antigravity_events();
                        reveal_strlit("antigravity");
                        assert(dialect::plain_names("antigravity"@, events::antigravity_events()));
                    }
                    let clean: JsonObject = remove_smelt_antigravity_handlers(definition).insert(
                        "enabled",
                        Json::Bool(true),
                    );
                    let names: Vec<String> = antigravity_hook_events();
                    let (lists, result) = merge_lists(
                        clean,
                        &names,
                        Dialect::Antigravity,
                        notify,
                        "antigravity",
                    );
                    assert(old.remove(definition_name()).insert(
                        definition_name(),
                        JsonView::Object(lists.view()),
                    ) =~= old.insert(definition_name(), JsonView::Object(lists.view())));
                    *root = Json::Object(
                        rest.insert("smelt-status-notifications", Json::Object(lists)),
                    );
                    proof {
                        if result is Ok && shell::names_notify(notify@) {
                            merging_installs(before, notify@);
                        }
                    }
                    result
                },
            }
        },
        other => {
            *root = other;
            Err("Antigravity hooks 文件根不是对象".to_owned())
        },
    }
}

/// Takes all of Smelt's hooks out. Nothing is done where the document is no object, and the
/// result says so.
pub fn remove_antigravity_hooks(root: &mut Json) -> (r: bool)
    ensures
        match removed(old(root).view()) {
            Some(rest) => r && final(root).view() == rest,
            None => !r && final(root).view() == old(root).view(),
        },
{
    let mut document: Json = Json::Null;
    core::mem::swap(root, &mut document);
    match document {
        Json::Object(entries) => {
            let ghost old = entries.view();
            let (rest, section) = entries.take_object("smelt-status-notifications");
            match section {
                Some(definition) => {
                    let left: JsonObject = remove_smelt_antigravity_handlers(definition);
                    if left.has_only("enabled") {
                        *root = Json::Object(rest);
                    } else {
                        assert(old.remove(definition_name()).insert(
                            definition_name(),
                            JsonView::Object(left.view()),
                        ) =~= old.insert(definition_name(), JsonView::Object(left.view())));
                        *root = Json::Object(
                            rest.insert("smelt-status-notifications", Json::Object(left)),
                        );
                    }
                },
                None => {
                    *root = Json::Object(rest);
                },
            }
            true
        },
        other => {
            *root = other;
            false
        },
    }
}

/// Whether the definition has a hook of Smelt that reports `event`.
pub fn antigravity_event_installed(definition: &Json, event: &str) -> (r: bool)
    ensures
        r == event_installed(definition.view(), event@),
{
    match definition.list_at(event) {
        Some(items) => list_has_hook(items, Dialect::Antigravity, event),
        None => false,
    }
}

fn document_installed(root: &Json) -> (r: bool)
    ensures
        r == installed(root.view()),
{
    match root.get("smelt-status-notifications") {
        None => false,
        Some(definition) => {
            match definition.flag_at("enabled") {
                Some(false) => {
                    return false;
                },
                _ => {},
            }
            let names: Vec<String> = antigravity_hook_events();
            let ghost all = text::texts(names@);
            let mut i: usize = 0;
            while i < names.len()
                invariant
                    all == text::texts(names@),
                    all == events::antigravity_events(),
                    json::member(root.view(), definition_name()) == Some(definition.view()),
                    i <= names.len(),
                    forall|k: int|
                        0 <= k < i ==> event_installed(definition.view(), #[trigger] all[k]),
                decreases names.len() - i,
            {
                if !antigravity_event_installed(definition, names[i].as_str()) {
                    assert(!event_installed(definition.view(), all[i as int]));
                    return false;
                }
                i = i + 1;
            }
            true
        },
    }
}

/// Whether the hook file, given by its text where it could be read, has Smelt's hooks for
/// every event. They are of no use without the helper.
pub fn antigravity_hooks_installed(notify_available: bool, content: Option<&str>) -> (r: bool)
    ensures
        r == file_installed(notify_available, document::maybe_text(content)),
{
    if !notify_available {
        return false;
    }
    match content {
        None => false,
        Some(read) => match Json::parse(read) {
            Ok(root) => document_installed(&root),
            Err(_) => false,
        },
    }
}

/// The text to write so that the hook file has Smelt's hooks.
pub fn install_antigravity_hooks(
    notify: &str,
    notify_available: bool,
    path: Option<&str>,
    file: &HookFile,
) -> (r: Result<String, String>)
    ensures
        document::outcome(r) == installation(
            notify@,
            notify_available,
            document::maybe_text(path),
            file.view(),
        ),
        r is Ok && shell::names_notify(notify@) ==> file_installed(
            notify_available,
            Some(r->Ok_0@),
        ),
        r matches Ok(written) ==> (document::maybe_text(path) matches Some(place)
            && (document::document_in(file.view(), document::invalid_json(place)) matches Ok(root)
            && merged(root, notify@).1 is None && json::reads_as(
            written@,
            merged(root, notify@).0,
        ))),
{
    if !notify_available {
        return Err(missing_notify_message(notify));
    }
    match path {
        None => Err("无 home 目录".to_owned()),
        Some(place) => {
            let complaint: String = invalid_json_message(place);
            match read_document(file, complaint.as_str()) {
                Err(message) => Err(message),
                Ok(document) => {
                    let mut root: Json = document;
                    match merge_antigravity_hooks(&mut root, notify) {
                        Err(message) => Err(message),
                        Ok(_) => {
                            let written: Result<String, String> = render_document(&root);
                            proof {
                                lemma_merged_readable(document.view(), notify@);
                                let back = json::parse_outcome(written->Ok_0@)->Ok_0;
                                installed_in_both(root.view(), back);
                            }
                            written
                        },
                    }
                },
            }
        },
    }
}

/// The text to write so that the hook file has none of Smelt's hooks, if it has to change.
pub fn uninstall_antigravity_hooks(path: Option<&str>, file: &HookFile) -> (r: Result<
    Option<String>,
    String,
>)
    ensures
        document::edit(r) == removal(document::maybe_text(path), file.view()),
        path is Some ==> (document::edit(r) matches Ok(change) ==> !file_installed(
            true,
            document::text_after(file.view(), change),
        )),
{
    match path {
        None => Ok(None),
        Some(place) => match file {
            HookFile::Absent => Ok(None),
            HookFile::Unreadable(reason) => Err(reason.clone()),
            HookFile::Text(content) => match Json::parse(content.as_str()) {
                Err(message) => {
                    let complaint: String = invalid_json_message(place);
                    Err(text::concat(complaint.as_str(), message.as_str()))
                },
                Ok(document) => {
                    let mut root: Json = document;
                    if remove_antigravity_hooks(&mut root) {
                        match render_document(&root) {
                            Ok(written) => {
                                proof {
                                    lemma_removed_readable(document.view());
                                    let back = json::parse_outcome(written@)->Ok_0;
                                    installed_in_both(root.view(), back);
                                    removing_uninstalls(document.view());
                                }
                                Ok(Some(written))
                            },
                            Err(message) => Err(message),
                        }
                    } else {
                        Ok(None)
                    }
                },
            },
        },
    }
}

proof fn lemma_switch_is_no_event()
    ensures
        !events::antigravity_events().contains("enabled"@),
{
    reveal_strlit("enabled");
    reveal_strlit("PreInvocation");
    reveal_strlit("PostInvocation");
    reveal_strlit("PostToolUse");
    reveal_strlit("Stop");
    let names = events::antigravity_events();
    assert("enabled"@.len() == 7);
    assert(forall|i: int| 0 <= i < names.len() ==> (#[trigger] names[i]).len() != 7);
}

/// Adding Smelt's hooks installs them.
pub proof fn merging_installs(root: JsonView, notify: Seq<char>)
    requires
        merged(root, notify).1 is None,
        dialect::recognised(notify, "antigravity"@, events::antigravity_events()),
    ensures
        installed(merged(root, notify).0),
{
    let names = events::antigravity_events();
    let definition = document::section_of(root->Object_0, definition_name())->0;
    let after = dialect::enlisted(
        switched_on(definition),
        names,
        Dialect::Antigravity,
        notify,
        "antigravity"@,
    );
    lemma_switch_is_no_event();
    events::lemma_antigravity_events();
    list_laws::in_turn_is_at_once(
        switched_on(definition),
        names,
        Dialect::Antigravity,
        notify,
        "antigravity"@,
    );
    list_laws::enlisted_reports(
        switched_on(definition),
        names,
        Dialect::Antigravity,
        notify,
        "antigravity"@,
    );
    assert forall|i: int| 0 <= i < names.len() implies event_installed(
        JsonView::Object(after),
        #[trigger] names[i],
    ) by {
        assert(names.contains(names[i]));
        assert(dialect::list_reports(
            dialect::list_of(after, names[i]),
            Dialect::Antigravity,
            names[i],
        ));
    }
}

proof fn lemma_clean_again(definition: HookLists, notify: Seq<char>)
    requires
        forall|at: int|
            !dialect::blocked_at(switched_on(definition), events::antigravity_events(), at),
        dialect::recognised(notify, "antigravity"@, events::antigravity_events()),
    ensures
        without_own(
            dialect::enlisted(
                switched_on(definition),
                events::antigravity_events(),
                Dialect::Antigravity,
                notify,
                "antigravity"@,
            ),
        ) == switched_on(definition),
{
    let names = events::antigravity_events();
    let chosen = dialect::among(names);
    let on = switched_on(definition);
    lemma_switch_is_no_event();
    assert forall|i: int| 0 <= i < names.len() implies dialect::listable(on, #[trigger] names[i]) by {
        hook_file::lemma_nothing_blocked(on, names, i);
    }
    assert forall|i: int| 0 <= i < names.len() implies chosen(#[trigger] names[i]) by {
        assert(names.contains(names[i]));
    }
    list_laws::removing_undoes_adding(
        on,
        names,
        chosen,
        Dialect::Antigravity,
        notify,
        "antigravity"@,
    );
    list_laws::cleared_again(definition, chosen, Dialect::Antigravity);
    let clean = without_own(definition);
    let again = without_own(on);
    assert forall|key: Seq<char>|
        #![trigger again.dom().contains(key)]
        #![trigger on.dom().contains(key)]
        (again.dom().contains(key) <==> on.dom().contains(key)) && (again.dom().contains(key)
            ==> again[key] == on[key]) by {
        assert(without_own(clean) == clean);
        assert(without_own(clean).dom().contains(key) <==> clean.dom().contains(key));
        if key != "enabled"@ {
            assert(dialect::list_of(on, key) == dialect::list_of(clean, key));
        }
    }
    assert(again =~= on);
}

/// Adding Smelt's hooks a second time changes nothing.
pub proof fn merging_twice(root: JsonView, notify: Seq<char>)
    requires
        merged(root, notify).1 is None,
        dialect::recognised(notify, "antigravity"@, events::antigravity_events()),
    ensures
        merged(merged(root, notify).0, notify) == merged(root, notify),
{
    let names = events::antigravity_events();
    let entries = root->Object_0;
    let definition = document::section_of(entries, definition_name())->0;
    let on = switched_on(definition);
    let once = dialect::enlisted(on, names, Dialect::Antigravity, notify, "antigravity"@);
    events::lemma_antigravity_events();
    list_laws::in_turn_is_at_once(
        on,
        names,
        Dialect::Antigravity,
        notify,
        "antigravity"@,
    );
    lemma_clean_again(definition, notify);
    assert(switched_on(once) =~= on);
    let first = entries.insert(definition_name(), JsonView::Object(once));
    assert(first.insert(definition_name(), JsonView::Object(once)) =~= first);
}

/// Removing Smelt's hooks takes back what adding them did: what is left of the definition is
/// what removing them right away would have left, switched on, and a definition of Smelt's
/// hooks alone goes.
pub proof fn removing_undoes_merging(root: JsonView, notify: Seq<char>)
    requires
        merged(root, notify).1 is None,
        dialect::recognised(notify, "antigravity"@, events::antigravity_events()),
    ensures
        ({
            let entries = root->Object_0;
            let left = without_own(document::section_of(entries, definition_name())->0);
            removed(merged(root, notify).0) == Some(
                JsonView::Object(
                    if is_spent(left) {
                        entries.remove(definition_name())
                    } else {
                        entries.insert(
                            definition_name(),
                            JsonView::Object(left.insert("enabled"@, JsonView::Bool(true))),
                        )
                    },
                ),
            )
        }),
{
    let names = events::antigravity_events();
    let entries = root->Object_0;
    let definition = document::section_of(entries, definition_name())->0;
    let left = without_own(definition);
    let on = switched_on(definition);
    let once = dialect::enlisted(on, names, Dialect::Antigravity, notify, "antigravity"@);
    events::lemma_antigravity_events();
    list_laws::in_turn_is_at_once(
        on,
        names,
        Dialect::Antigravity,
        notify,
        "antigravity"@,
    );
    lemma_clean_again(definition, notify);
    assert(is_spent(on) <==> is_spent(left)) by {
        assert(forall|key: Seq<char>|
            key != "enabled"@ ==> (on.contains_key(key) <==> left.contains_key(key)));
        assert(on.contains_key("enabled"@));
    }
    let first = entries.insert(definition_name(), JsonView::Object(once));
    assert(first.remove(definition_name()) =~= entries.remove(definition_name()));
    assert(first.insert(definition_name(), JsonView::Object(on)) =~= entries.insert(
        definition_name(),
        JsonView::Object(on),
    ));
}

/// After Smelt's hooks are removed, they are not installed.
pub proof fn removing_uninstalls(root: JsonView)
    requires
        removed(root) is Some,
    ensures
        !installed(removed(root)->0),
{
    let names = events::antigravity_events();
    let rest = removed(root)->0;
    assert(names.contains(names[0]));
    match json::member(root, definition_name()) {
        Some(JsonView::Object(definition)) => {
            list_laws::cleared_reports_nothing(
                definition,
                dialect::among(names),
                Dialect::Antigravity,
                names[0],
            );
            if installed(rest) {
                assert(event_installed(json::member(rest, definition_name())->0, names[0]));
            }
        },
        Some(other) => {
            if installed(rest) {
                assert(event_installed(other, names[0]));
            }
        },
        None => {},
    }
}

/// Whether Smelt's hooks are installed shows in the file that is read again.
pub proof fn installed_in_both(one: JsonView, other: JsonView)
    requires
        json::alike(one, other, 127),
    ensures
        installed(one) == installed(other),
{
    let names = events::antigravity_events();
    reading_back::lemma_member(one, other, definition_name(), 127);
    match (json::member(one, definition_name()), json::member(other, definition_name())) {
        (Some(a), Some(b)) => {
            reading_back::lemma_member(a, b, "enabled"@, 126);
            assert forall|i: int| 0 <= i < names.len() implies event_installed(
                a,
                #[trigger] names[i],
            ) == event_installed(b, names[i]) by {
                reading_back::lemma_member(a, b, names[i], 126);
                match (json::list_under(a, names[i]), json::list_under(b, names[i])) {
                    (Some(x), Some(y)) => reading_back::lemma_list(
                        x,
                        y,
                        Dialect::Antigravity,
                        names[i],
                        124,
                    ),
                    _ => {},
                }
            }
        },
        _ => {},
    }
}

proof fn lemma_removed_readable(root: JsonView)
    requires
        json::readable(root),
        removed(root) is Some,
    ensures
        json::readable(removed(root)->0),
{
    let names = events::antigravity_events();
    let entries = root->Object_0;
    match json::member(root, definition_name()) {
        Some(JsonView::Object(definition)) => {
            fitting::lemma_entry_fits(entries, definition_name(), 127);
            fitting::lemma_cleared_fits(
                definition,
                dialect::among(names),
                Dialect::Antigravity,
                126,
            );
            fitting::lemma_insert_fits(
                entries,
                definition_name(),
                JsonView::Object(without_own(definition)),
                127,
            );
            let left = entries.remove(definition_name());
            assert forall|key: Seq<char>|
                #![trigger left[key]]
                left.contains_key(key) implies json::fits(left[key], 126) by {
                fitting::lemma_entry_fits(entries, key, 127);
            }
        },
        _ => {},
    }
}

proof fn lemma_merged_readable(root: JsonView, notify: Seq<char>)
    requires
        json::readable(root),
        merged(root, notify).1 is None,
    ensures
        json::readable(merged(root, notify).0),
{
    let names = events::antigravity_events();
    let entries = root->Object_0;
    let definition = document::section_of(entries, definition_name())->0;
    fitting::lemma_section_fits(entries, definition_name(), 127);
    fitting::lemma_cleared_fits(definition, dialect::among(names), Dialect::Antigravity, 126);
    fitting::lemma_insert_fits(
        without_own(definition),
        "enabled"@,
        JsonView::Bool(true),
        126,
    );
    let lists = dialect::enlisted_in_turn(
        switched_on(definition),
        names,
        Dialect::Antigravity,
        notify,
        "antigravity"@,
    );
    fitting::lemma_enlisted_fits(
        switched_on(definition),
        names,
        Dialect::Antigravity,
        notify,
        "antigravity"@,
        126,
    );
    fitting::lemma_insert_fits(entries, definition_name(), JsonView::Object(lists), 127);
}

} // verus!
