//! The hook file of Cursor: bare commands by event.

use vstd::prelude::*;

use crate::agent_hooks::dialect;
use crate::agent_hooks::dialect::{clear_events, list_has_hook, Dialect, HookLists};
use crate::agent_hooks::document;
use crate::agent_hooks::document::{
    invalid_provider_json_message, lists_report, merge_lists, missing_notify_message, open_section,
    read_document, render_document, HookFile, HookFileView,
};
use crate::agent_hooks::events;
use crate::agent_hooks::events::cursor_hook_events;
use crate::agent_hooks::fitting;
use crate::agent_hooks::hook_file;
use crate::agent_hooks::list_laws;
use crate::agent_hooks::reading_back;
use crate::json;
use crate::json::{Json, JsonObject, JsonView};
use crate::shell;
use crate::text;
use crate::text::{decimal_text, same_text};

verus! {

/// Every event.
pub open spec fn any_event() -> spec_fn(Seq<char>) -> bool {
    |event: Seq<char>| true
}

/// The lists without Smelt's hooks, whatever the event.
pub open spec fn without_own(hooks: HookLists) -> HookLists {
    dialect::cleared(hooks, any_event(), Dialect::Cursor)
}

/// The document without Smelt's hooks.
pub open spec fn removed(root: JsonView) -> JsonView {
    match json::member(root, "hooks"@) {
        Some(JsonView::Object(hooks)) => JsonView::Object(
            root->Object_0.insert("hooks"@, JsonView::Object(without_own(hooks))),
        ),
        _ => root,
    }
}

/// The entries, marked with the version of the format.
pub open spec fn versioned(entries: Map<Seq<char>, JsonView>) -> Map<Seq<char>, JsonView> {
    entries.insert("version"@, JsonView::Number(text::decimal(1)))
}

/// The document with Smelt's hooks, and the reason where they could not all be added.
pub open spec fn merged(root: JsonView, notify: Seq<char>) -> (JsonView, Option<Seq<char>>) {
    match removed(root) {
        JsonView::Object(old) => {
            let entries = versioned(old);
            match document::section_of(entries, "hooks"@) {
                Some(hooks) => {
                    let lists = document::merged_lists(
                        hooks,
                        events::cursor_events(),
                        Dialect::Cursor,
                        notify,
                        "cursor"@,
                    );
                    (
                        JsonView::Object(entries.insert("hooks"@, JsonView::Object(lists.0))),
                        lists.1,
                    )
                },
                None => (JsonView::Object(entries), Some("Cursor hooks 不是对象"@)),
            }
        },
        other => (other, Some("Cursor hooks 文件根不是对象"@)),
    }
}

/// The document has a hook of Smelt that reports `event`. In a list of lists, the position of
/// one counts as its event.
pub open spec fn event_installed(root: JsonView, event: Seq<char>) -> bool {
    match json::member(root, "hooks"@) {
        Some(JsonView::Object(hooks)) => dialect::list_reports(
            dialect::list_of(hooks, event),
            Dialect::Cursor,
            event,
        ),
        Some(JsonView::Array(lists)) => some_list_reports(lists, event),
        _ => false,
    }
}

/// The document is a list with a hook of Smelt that reports `event`.
pub open spec fn list_at_reports(list: JsonView, event: Seq<char>) -> bool {
    list matches JsonView::Array(items) && dialect::list_reports(items, Dialect::Cursor, event)
}

/// The list at the position that `event` names has a hook of Smelt that reports it.
pub open spec fn some_list_reports(lists: Seq<JsonView>, event: Seq<char>) -> bool {
    exists|i: int|
        0 <= i < lists.len() && event == text::decimal(i as nat) && list_at_reports(
            #[trigger] lists[i],
            event,
        )
}

/// Every event has a hook of Smelt that reports it.
pub open spec fn installed(root: JsonView) -> bool {
    json::member(root, "hooks"@) matches Some(JsonView::Object(hooks)) && dialect::all_reported(
        hooks,
        events::cursor_events(),
        Dialect::Cursor,
    )
}

/// The text of the file has Smelt's hooks, and the helper is there to run.
pub open spec fn file_installed(available: bool, content: Option<Seq<char>>) -> bool {
    available && (content matches Some(read) && (json::parse_outcome(read) matches Ok(root)
        && installed(root)))
}

/// The text to write so that Smelt's hooks are installed, or why they cannot be.
pub open spec fn installation(
    notify: Seq<char>,
    available: bool,
    path: Option<Seq<char>>,
    file: HookFileView,
) -> Result<Seq<char>, Seq<char>> {
    if !available {
        Err(document::missing_notify(notify))
    } else {
        match path {
            None => Err(document::no_home()),
            Some(place) => match document::document_in(
                file,
                document::invalid_provider_json(place, "Cursor"@),
            ) {
                Err(message) => Err(message),
                Ok(root) => match merged(root, notify).1 {
                    Some(message) => Err(message),
                    None => Ok(document::rendered(merged(root, notify).0)),
                },
            },
        }
    }
}

/// The text to write so that Smelt's hooks are gone, if any, or why they cannot be removed.
pub open spec fn removal(
    path: Option<Seq<char>>,
    file: HookFileView,
) -> Result<Option<Seq<char>>, Seq<char>> {
    match path {
        None => Ok(None),
        Some(place) => match file {
            HookFileView::Absent => Ok(None),
            _ => match document::document_in(
                file,
                document::invalid_provider_json(place, "Cursor"@),
            ) {
                Err(message) => Err(message),
                Ok(root) => Ok(Some(document::rendered(removed(root)))),
            },
        },
    }
}

/// Takes Smelt's hooks out of the list of every event. A list that this empties goes.
pub fn remove_cursor_hooks(root: &mut Json)
    ensures
        final(root).view() == removed(old(root).view()),
{
    let ghost before = root.view();
    let mut document: Json = Json::Null;
    core::mem::swap(root, &mut document);
    match document {
        Json::Object(entries) => {
            let (rest, section) = entries.take_object("hooks");
            match section {
                Some(hooks) => {
                    let names: Vec<String> = hooks.keys();
                    let ghost old = hooks.view();
                    let left: JsonObject = clear_events(hooks, &names, Dialect::Cursor);
                    assert(left.view() =~= without_own(old));
                    assert(before->Object_0.remove("hooks"@).insert(
                        "hooks"@,
                        JsonView::Object(left.view()),
                    ) =~= before->Object_0.insert("hooks"@, JsonView::Object(left.view())));
                    *root = Json::Object(rest.insert("hooks", Json::Object(left)));
                },
                None => {
                    *root = Json::Object(rest);
                },
            }
        },
        other => {
            *root = other;
        },
    }
}

/// Adds Smelt's hooks, up to the first event that cannot get one. Smelt's earlier hooks make
/// place; those of others stay.
pub fn merge_cursor_hooks(root: &mut Json, notify: &str) -> (r: Result<(), String>)
    ensures
        (final(root).view(), document::failure(r)) == merged(old(root).view(), notify@),
        r is Ok && shell::names_notify(notify@) ==> installed(final(root).view()),
{
    let ghost before = root.view();
    remove_cursor_hooks(root);
    let mut document: Json = Json::Null;
    core::mem::swap(root, &mut document);
    match document {
        Json::Object(old) => {
            let entries: JsonObject = old.insert("version", Json::integer(1));
            let ghost marked = entries.view();
            let (rest, section) = open_section(entries, "hooks");
            match section {
                None => {
                    *root = Json::Object(rest);
                    Err("Cursor hooks 不是对象".to_owned())
                },
                Some(hooks) => {
                    proof {
                        events::lemma_cursor_events();
                        reveal_strlit("cursor");
                        assert(dialect::plain_names("cursor"@, events::cursor_events()));
                    }
                    let names: Vec<String> = cursor_hook_events();
                    let (lists, result) = merge_lists(
                        hooks,
                        &names,
                        Dialect::Cursor,
                        notify,
                        "cursor",
                    );
                    assert(marked.remove("hooks"@).insert("hooks"@, JsonView::Object(lists.view()))
                        =~= marked.insert("hooks"@, JsonView::Object(lists.view())));
                    *root = Json::Object(rest.insert("hooks", Json::Object(lists)));
                    proof {
                        if result is Ok && shell::names_notify(notify@) {
                            merging_installs(before, notify@);
                        }
                    }
                    result
                },
            }
        },
        other => {
            *root = other;
            Err("Cursor hooks 文件根不是对象".to_owned())
        },
    }
}

/// Whether the document has a hook of Smelt that reports `event`. The event is one step of a
/// path into the document, so it has none of the characters that paths are made with.
pub fn cursor_event_installed(root: &Json, event: &str) -> (r: bool)
    requires
        !event@.contains('/'),
        !event@.contains('~'),
    ensures
        r == event_installed(root.view(), event@),
{
    match root.get("hooks") {
        Some(Json::Object(hooks)) => {
            let mut one: Vec<String> = Vec::new();
            one.push(event.to_owned());
            let found: bool = lists_report(hooks, &one, Dialect::Cursor);
            assert(text::texts(one@)[0] == event@);
            assert(text::texts(one@).len() == 1);
            found
        },
        Some(Json::Array(lists)) => {
            let ghost all = json::documents(lists@);
            let mut i: usize = 0;
            while i < lists.len()
                invariant
                    all == json::documents(lists@),
                    json::member(root.view(), "hooks"@) == Some(JsonView::Array(all)),
                    i <= lists.len(),
                    forall|k: int|
                        0 <= k < i ==> !(event@ == text::decimal(k as nat) && list_at_reports(
                            #[trigger] all[k],
                            event@,
                        )),
                decreases lists.len() - i,
            {
                assert(all[i as int] == lists@[i as int].view());
                if same_text(decimal_text(i as u64).as_str(), event) {
                    let found: bool = match &lists[i] {
                        Json::Array(items) => list_has_hook(items, Dialect::Cursor, event),
                        _ => false,
                    };
                    if found {
                        assert(list_at_reports(all[i as int], event@));
                        assert(some_list_reports(all, event@));
                        return true;
                    }
                }
                i = i + 1;
            }
            false
        },
        _ => false,
    }
}

/// Whether the hook file, given by its text where it could be read, has Smelt's hooks for
/// every event. They are of no use without the helper.
pub fn cursor_hooks_installed(notify_available: bool, content: Option<&str>) -> (r: bool)
    ensures
        r == file_installed(notify_available, document::maybe_text(content)),
{
    if !notify_available {
        return false;
    }
    match content {
        None => false,
        Some(read) => match Json::parse(read) {
            Ok(root) => match root.get("hooks") {
                Some(Json::Object(hooks)) => {
                    let names: Vec<String> = cursor_hook_events();
                    lists_report(hooks, &names, Dialect::Cursor)
                },
                _ => false,
            },
            Err(_) => false,
        },
    }
}

/// The text to write so that the hook file has Smelt's hooks.
pub fn install_cursor_hooks(
    notify: &str,
    notify_available: bool,
    path: Option<&str>,
    file: &HookFile,
) -> (r: Result<String, String>)
    ensures
        document::outcome(r) == installation(
            notify@,
            notify_available,
            document::maybe_text(path),
            file.view(),
        ),
        r is Ok && shell::names_notify(notify@) ==> file_installed(
            notify_available,
            Some(r->Ok_0@),
        ),
        r matches Ok(written) ==> (document::maybe_text(path) matches Some(place)
            && (document::document_in(file.view(), document::invalid_provider_json(place, "Cursor"@)) matches Ok(root)
            && merged(root, notify@).1 is None && json::reads_as(
            written@,
            merged(root, notify@).0,
        ))),
{
    if !notify_available {
        return Err(missing_notify_message(notify));
    }
    match path {
        None => Err("无 home 目录".to_owned()),
        Some(place) => {
            let complaint: String = invalid_provider_json_message(place, "Cursor");
            match read_document(file, complaint.as_str()) {
                Err(message) => Err(message),
                Ok(document) => {
                    let mut root: Json = document;
                    match merge_cursor_hooks(&mut root, notify) {
                        Err(message) => Err(message),
                        Ok(_) => {
                            let written: Result<String, String> = render_document(&root);
                            proof {
                                lemma_merged_readable(document.view(), notify@);
                                let back = json::parse_outcome(written->Ok_0@)->Ok_0;
                                installed_in_both(root.view(), back);
                            }
                            written
                        },
                    }
                },
            }
        },
    }
}

/// The text to write so that the hook file has none of Smelt's hooks, if there is a file.
pub fn uninstall_cursor_hooks(path: Option<&str>, file: &HookFile) -> (r: Result<
    Option<String>,
    String,
>)
    ensures
        document::edit(r) == removal(document::maybe_text(path), file.view()),
        path is Some ==> (document::edit(r) matches Ok(change) ==> !file_installed(
            true,
            document::text_after(file.view(), change),
        )),
{
    match path {
        None => Ok(None),
        Some(place) => match file {
            HookFile::Absent => Ok(None),
            _ => {
                let complaint: String = invalid_provider_json_message(place, "Cursor");
                match read_document(file, complaint.as_str()) {
                    Err(message) => Err(message),
                    Ok(document) => {
                        let mut root: Json = document;
                        remove_cursor_hooks(&mut root);
                        match render_document(&root) {
                            Ok(written) => {
                                proof {
                                    lemma_removed_readable(document.view());
                                    let back = json::parse_outcome(written@)->Ok_0;
                                    installed_in_both(root.view(), back);
                                    removing_uninstalls(document.view(), Seq::empty());
                                }
                                Ok(Some(written))
                            },
                            Err(message) => Err(message),
                        }
                    },
                }
            },
        },
    }
}

proof fn lemma_version_is_no_hook()
    ensures
        "version"@ != "hooks"@,
{
    reveal_strlit("version");
    reveal_strlit("hooks");
    assert("version"@.len() != "hooks"@.len());
}

/// Adding Smelt's hooks installs them.
pub proof fn merging_installs(root: JsonView, notify: Seq<char>)
    requires
        merged(root, notify).1 is None,
        dialect::recognised(notify, "cursor"@, events::cursor_events()),
    ensures
        installed(merged(root, notify).0),
{
    let entries = versioned(removed(root)->Object_0);
    let hooks = document::section_of(entries, "hooks"@)->0;
    events::lemma_cursor_events();
    list_laws::in_turn_is_at_once(
        hooks,
        events::cursor_events(),
        Dialect::Cursor,
        notify,
        "cursor"@,
    );
    list_laws::enlisted_reports(
        hooks,
        events::cursor_events(),
        Dialect::Cursor,
        notify,
        "cursor"@,
    );
}

proof fn lemma_back_to_clean(root: JsonView, notify: Seq<char>)
    requires
        merged(root, notify).1 is None,
        dialect::recognised(notify, "cursor"@, events::cursor_events()),
    ensures
        ({
            let entries = versioned(removed(root)->Object_0);
            let hooks = document::section_of(entries, "hooks"@)->0;
            removed(merged(root, notify).0) == JsonView::Object(
                entries.insert("hooks"@, JsonView::Object(hooks)),
            )
        }),
{
    let names = events::cursor_events();
    let entries = versioned(removed(root)->Object_0);
    let hooks = document::section_of(entries, "hooks"@)->0;
    lemma_version_is_no_hook();
    let once = dialect::enlisted(hooks, names, Dialect::Cursor, notify, "cursor"@);
    assert forall|i: int| 0 <= i < names.len() implies dialect::listable(
        hooks,
        #[trigger] names[i],
    ) by {
        hook_file::lemma_nothing_blocked(hooks, names, i);
    }
    events::lemma_cursor_events();
    list_laws::in_turn_is_at_once(
        hooks,
        events::cursor_events(),
        Dialect::Cursor,
        notify,
        "cursor"@,
    );
    list_laws::removing_undoes_adding(
        hooks,
        names,
        any_event(),
        Dialect::Cursor,
        notify,
        "cursor"@,
    );
    match json::member(root, "hooks"@) {
        Some(JsonView::Object(old)) => {
            list_laws::cleared_again(old, any_event(), Dialect::Cursor);
            assert(hooks == without_own(old));
        },
        _ => {
            assert(without_own(hooks) =~= hooks);
        },
    }
    assert(entries.insert("hooks"@, JsonView::Object(once)).insert("hooks"@, JsonView::Object(hooks))
        =~= entries.insert("hooks"@, JsonView::Object(hooks)));
}

/// Adding Smelt's hooks a second time changes nothing.
pub proof fn merging_twice(root: JsonView, notify: Seq<char>)
    requires
        merged(root, notify).1 is None,
        dialect::recognised(notify, "cursor"@, events::cursor_events()),
    ensures
        merged(merged(root, notify).0, notify) == merged(root, notify),
{
    let names = events::cursor_events();
    let entries = versioned(removed(root)->Object_0);
    let hooks = document::section_of(entries, "hooks"@)->0;
    let once = dialect::enlisted(hooks, names, Dialect::Cursor, notify, "cursor"@);
    events::lemma_cursor_events();
    list_laws::in_turn_is_at_once(
        hooks,
        events::cursor_events(),
        Dialect::Cursor,
        notify,
        "cursor"@,
    );
    lemma_back_to_clean(root, notify);
    lemma_version_is_no_hook();
    let clean = entries.insert("hooks"@, JsonView::Object(hooks));
    assert(versioned(clean) =~= clean);
    assert(clean.insert("hooks"@, JsonView::Object(once)) =~= entries.insert(
        "hooks"@,
        JsonView::Object(once),
    ));
}

/// Removing Smelt's hooks takes back what adding them did: the lists are left as removing
/// them right away leaves them.
pub proof fn removing_undoes_merging(root: JsonView, notify: Seq<char>)
    requires
        merged(root, notify).1 is None,
        dialect::recognised(notify, "cursor"@, events::cursor_events()),
    ensures
        removed(merged(root, notify).0) == JsonView::Object(
            versioned(root->Object_0).insert(
                "hooks"@,
                JsonView::Object(without_own(document::section_of(root->Object_0, "hooks"@)->0)),
            ),
        ),
{
    lemma_back_to_clean(root, notify);
    lemma_version_is_no_hook();
    let entries = versioned(removed(root)->Object_0);
    let hooks = document::section_of(entries, "hooks"@)->0;
    let old = document::section_of(root->Object_0, "hooks"@)->0;
    match json::member(root, "hooks"@) {
        Some(JsonView::Object(found)) => {
            assert(hooks == without_own(old));
        },
        _ => {
            assert(without_own(old) =~= hooks);
        },
    }
    assert(entries.insert("hooks"@, JsonView::Object(hooks)) =~= versioned(root->Object_0).insert(
        "hooks"@,
        JsonView::Object(hooks),
    ));
}

/// Cursor's hooks are installed exactly where each of its events has a hook that reports it.
pub proof fn installed_is_every_event(root: JsonView)
    ensures
        installed(root) <==> (forall|i: int|
            0 <= i < events::cursor_events().len() ==> event_installed(
                root,
                #[trigger] events::cursor_events()[i],
            )),
{
    let names = events::cursor_events();
    match json::member(root, "hooks"@) {
        Some(JsonView::Array(lists)) => {
            reveal_strlit("sessionStart");
            assert(names[0] == "sessionStart"@);
            assert forall|i: int| 0 <= i < lists.len() implies names[0] != #[trigger] text::decimal(
                i as nat,
            ) by {
                text::decimals_begin_with_digits(i as nat);
            }
            assert(!event_installed(root, names[0]));
        },
        Some(JsonView::Object(hooks)) => {
            if installed(root) {
                assert forall|i: int| 0 <= i < names.len() implies event_installed(
                    root,
                    #[trigger] names[i],
                ) by {}
            }
            if forall|i: int| 0 <= i < names.len() ==> event_installed(root, #[trigger] names[i]) {
                assert forall|i: int| 0 <= i < names.len() implies dialect::list_reports(
                    dialect::list_of(hooks, #[trigger] names[i]),
                    Dialect::Cursor,
                    names[i],
                ) by {
                    assert(event_installed(root, names[i]));
                }
            }
        },
        _ => {
            assert(!event_installed(root, names[0]));
        },
    }
}

/// After Smelt's hooks are removed, no event is reported, unless the hooks are a list of lists,
/// which is left alone.
pub proof fn removing_uninstalls(root: JsonView, event: Seq<char>)
    ensures
        !(json::member(root, "hooks"@) matches Some(JsonView::Array(_))) ==> !event_installed(
            removed(root),
            event,
        ),
        !installed(removed(root)),
{
    let names = events::cursor_events();
    match json::member(root, "hooks"@) {
        Some(JsonView::Object(hooks)) => {
            list_laws::cleared_reports_nothing(hooks, any_event(), Dialect::Cursor, event);
            list_laws::cleared_reports_nothing(hooks, any_event(), Dialect::Cursor, names[0]);
        },
        _ => {},
    }
}

/// Whether Smelt's hooks are installed shows in the file that is read again.
pub proof fn installed_in_both(one: JsonView, other: JsonView)
    requires
        json::alike(one, other, 127),
    ensures
        installed(one) == installed(other),
{
    reading_back::lemma_section(
        one,
        other,
        "hooks"@,
        Dialect::Cursor,
        events::cursor_events(),
        127,
    );
}

proof fn lemma_removed_readable(root: JsonView)
    requires
        json::readable(root),
    ensures
        json::readable(removed(root)),
{
    match json::member(root, "hooks"@) {
        Some(JsonView::Object(found)) => {
            fitting::lemma_entry_fits(root->Object_0, "hooks"@, 127);
            fitting::lemma_cleared_fits(found, any_event(), Dialect::Cursor, 126);
            fitting::lemma_insert_fits(
                root->Object_0,
                "hooks"@,
                JsonView::Object(without_own(found)),
                127,
            );
        },
        _ => {},
    }
}

proof fn lemma_merged_readable(root: JsonView, notify: Seq<char>)
    requires
        json::readable(root),
        merged(root, notify).1 is None,
    ensures
        json::readable(merged(root, notify).0),
{
    let names = events::cursor_events();
    lemma_removed_readable(root);
    let old = removed(root)->Object_0;
    assert(removed(root) == JsonView::Object(old));
    fitting::lemma_insert_fits(old, "version"@, JsonView::Number(text::decimal(1)), 127);
    let entries = versioned(old);
    let hooks = document::section_of(entries, "hooks"@)->0;
    fitting::lemma_section_fits(entries, "hooks"@, 127);
    fitting::lemma_enlisted_fits(hooks, names, Dialect::Cursor, notify, "cursor"@, 126);
    fitting::lemma_insert_fits(
        entries,
        "hooks"@,
        JsonView::Object(
            dialect::enlisted_in_turn(hooks, names, Dialect::Cursor, notify, "cursor"@),
        ),
        127,
    );
}

} // verus!
