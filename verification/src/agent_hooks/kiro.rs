//! The hook file of Kiro: a list of hooks, each with its trigger.

use vstd::prelude::*;

use crate::agent_hooks::dialect;
use crate::agent_hooks::document;
use crate::agent_hooks::document::{
    invalid_provider_json_message, missing_notify_message, read_document, render_document,
    HookFile, HookFileView,
};
use crate::agent_hooks::events;
use crate::agent_hooks::events::kiro_hook_events;
use crate::agent_hooks::fitting;
use crate::agent_hooks::handlers;
use crate::agent_hooks::handlers::{foreign_handlers, handler_reports, CommandKey};
use crate::agent_hooks::list_laws;
use crate::agent_hooks::reading_back;
use crate::json;
use crate::json::{Json, JsonObject, JsonView};
use crate::shell;
use crate::shell::provider_hook_command;
use crate::text;
use crate::text::{concat, same_text};

verus! {

/// The action of Smelt's hook.
pub open spec fn own_action(command: Seq<char>) -> JsonView {
    JsonView::Object(
        map![
            "type"@ => JsonView::String("command"@),
            "command"@ => JsonView::String(command),
        ],
    )
}

/// Smelt's hook for `event`.
pub open spec fn own_hook(command: Seq<char>, event: Seq<char>) -> JsonView {
    JsonView::Object(
        map![
            "name"@ => JsonView::String("Smelt status · "@ + event),
            "description"@ => JsonView::String("向 Smelt 上报 agent 状态；不参与工具权限决策"@),
            "trigger"@ => JsonView::String(event),
            "action"@ => own_action(command),
            "timeout"@ => dialect::hook_timeout(),
            "enabled"@ => JsonView::Bool(true),
        ],
    )
}

/// Smelt's hooks for the given events, in order.
pub open spec fn own_hooks(notify: Seq<char>, names: Seq<Seq<char>>) -> Seq<JsonView> {
    names.map_values(
        |event: Seq<char>| own_hook(shell::hook_command(notify, "kiro"@, event), event),
    )
}

/// The hooks that are not Smelt's, in order.
pub open spec fn foreign(hooks: Seq<JsonView>) -> Seq<JsonView> {
    handlers::foreign(hooks, CommandKey::ActionCommand)
}

/// The document without Smelt's hooks.
pub open spec fn removed(root: JsonView) -> JsonView {
    match json::list_under(root, "hooks"@) {
        Some(hooks) => JsonView::Object(
            root->Object_0.insert("hooks"@, JsonView::Array(foreign(hooks))),
        ),
        None => root,
    }
}

/// The entries, marked with the version of the format.
pub open spec fn versioned(entries: Map<Seq<char>, JsonView>) -> Map<Seq<char>, JsonView> {
    entries.insert("version"@, JsonView::String("v1"@))
}

/// The list of hooks; a missing one counts as empty.
pub open spec fn hook_list(entries: Map<Seq<char>, JsonView>) -> Option<Seq<JsonView>> {
    if entries.contains_key("hooks"@) {
        match entries["hooks"@] {
            JsonView::Array(hooks) => Some(hooks),
            _ => None,
        }
    } else {
        Some(Seq::empty())
    }
}

/// The document with Smelt's hooks behind those of others, or the reason why it cannot
/// have them.
pub open spec fn merged(root: JsonView, notify: Seq<char>) -> (JsonView, Option<Seq<char>>) {
    match removed(root) {
        JsonView::Object(old) => {
            let entries = versioned(old);
            match hook_list(entries) {
                Some(hooks) => (
                    JsonView::Object(
                        entries.insert(
                            "hooks"@,
                            JsonView::Array(hooks + own_hooks(notify, events::kiro_events())),
                        ),
                    ),
                    None,
                ),
                None => (JsonView::Object(entries), Some("Kiro hooks 不是数组"@)),
            }
        },
        other => (other, Some("Kiro hooks 文件根不是对象"@)),
    }
}

/// The hook is Smelt's, is not switched off, and reports `event`.
pub open spec fn hook_reports(hook: JsonView, event: Seq<char>) -> bool {
    json::text_under(hook, "trigger"@) == Some(event) && json::flag_under(hook, "enabled"@) != Some(
        false,
    ) && handlers::reports(hook, CommandKey::ActionCommand, event)
}

/// Some hook of the list reports `event`.
pub open spec fn some_reports(hooks: Seq<JsonView>, event: Seq<char>) -> bool {
    exists|i: int| 0 <= i < hooks.len() && hook_reports(#[trigger] hooks[i], event)
}

/// The document has a hook of Smelt that reports `event`.
pub open spec fn event_installed(root: JsonView, event: Seq<char>) -> bool {
    json::list_under(root, "hooks"@) matches Some(hooks) && some_reports(hooks, event)
}

/// Every event has a hook of Smelt that reports it.
pub open spec fn installed(root: JsonView) -> bool {
    forall|i: int|
        0 <= i < events::kiro_events().len() ==> event_installed(
            root,
            #[trigger] events::kiro_events()[i],
        )
}

/// The text of the file has Smelt's hooks, and the helper is there to run.
pub open spec fn file_installed(available: bool, content: Option<Seq<char>>) -> bool {
    available && (content matches Some(read) && (json::parse_outcome(read) matches Ok(root)
        && installed(root)))
}

/// The text to write so that Smelt's hooks are installed, or why they cannot be.
pub open spec fn installation(
    notify: Seq<char>,
    available: bool,
    path: Option<Seq<char>>,
    file: HookFileView,
) -> Result<Seq<char>, Seq<char>> {
    if !available {
        Err(document::missing_notify(notify))
    } else {
        match path {
            None => Err(document::no_home()),
            Some(place) => match document::document_in(
                file,
                document::invalid_provider_json(place, "Kiro"@),
            ) {
                Err(message) => Err(message),
                Ok(root) => match merged(root, notify).1 {
                    Some(message) => Err(message),
                    None => Ok(document::rendered(merged(root, notify).0)),
                },
            },
        }
    }
}

/// The text to write so that Smelt's hooks are gone, if any, or why they cannot be removed.
pub open spec fn removal(
    path: Option<Seq<char>>,
    file: HookFileView,
) -> Result<Option<Seq<char>>, Seq<char>> {
    match path {
        None => Ok(None),
        Some(place) => match file {
            HookFileView::Absent => Ok(None),
            _ => match document::document_in(
                file,
                document::invalid_provider_json(place, "Kiro"@),
            ) {
                Err(message) => Err(message),
                Ok(root) => Ok(Some(document::rendered(removed(root)))),
            },
        },
    }
}

pub proof fn lemma_keys_differ()
    ensures
        "type"@ != "command"@,
        "name"@ != "description"@,
        "name"@ != "trigger"@,
        "name"@ != "action"@,
        "name"@ != "timeout"@,
        "name"@ != "enabled"@,
        "description"@ != "trigger"@,
        "description"@ != "action"@,
        "description"@ != "timeout"@,
        "description"@ != "enabled"@,
        "trigger"@ != "action"@,
        "trigger"@ != "timeout"@,
        "trigger"@ != "enabled"@,
        "action"@ != "timeout"@,
        "action"@ != "enabled"@,
        "timeout"@ != "enabled"@,
        "version"@ != "hooks"@,
{
    reveal_strlit("type");
    reveal_strlit("command");
    reveal_strlit("name");
    reveal_strlit("description");
    reveal_strlit("trigger");
    reveal_strlit("action");
    reveal_strlit("timeout");
    reveal_strlit("enabled");
    reveal_strlit("version");
    reveal_strlit("hooks");
    assert("name"@.len() == 4 && "description"@.len() == 11 && "action"@.len() == 6);
    assert("trigger"@.len() == 7 && "timeout"@.len() == 7 && "enabled"@.len() == 7);
    assert("trigger"@[1] == 'r' && "timeout"@[1] == 'i' && "enabled"@[1] == 'n');
    assert("version"@.len() == 7 && "hooks"@.len() == 5 && "type"@.len() == 4);
    assert("command"@.len() == 7);
}

/// Takes Smelt's hooks out of the list.
pub fn remove_kiro_hooks(root: &mut Json)
    ensures
        final(root).view() == removed(old(root).view()),
{
    let ghost before = root.view();
    let mut document: Json = Json::Null;
    core::mem::swap(root, &mut document);
    match document {
        Json::Object(entries) => {
            let (rest, list) = entries.take_list("hooks");
            match list {
                Some(hooks) => {
                    let left: Vec<Json> = foreign_handlers(hooks, CommandKey::ActionCommand);
                    assert(before->Object_0.remove("hooks"@).insert(
                        "hooks"@,
                        JsonView::Array(json::documents(left@)),
                    ) =~= before->Object_0.insert(
                        "hooks"@,
                        JsonView::Array(json::documents(left@)),
                    ));
                    *root = Json::Object(rest.insert("hooks", Json::Array(left)));
                },
                None => {
                    *root = Json::Object(rest);
                },
            }
        },
        other => {
            *root = other;
        },
    }
}

fn make_hook(command: String, event: &str) -> (r: Json)
    ensures
        r.view() == own_hook(command@, event@),
{
    proof {
        lemma_keys_differ();
    }
    let name: String = concat("Smelt status · ", event);
    let action = JsonObject::new().insert("type", Json::String("command".to_owned())).insert(
        "command",
        Json::String(command),
    );
    let hook = JsonObject::new().insert("name", Json::String(name)).insert(
        "description",
        Json::String("向 Smelt 上报 agent 状态；不参与工具权限决策".to_owned()),
    ).insert("trigger", Json::String(event.to_owned())).insert("action", Json::Object(action)).insert(
        "timeout",
        Json::integer(3),
    ).insert("enabled", Json::Bool(true));
    Json::Object(hook)
}

/// Adds Smelt's hooks behind those of others. Smelt's earlier hooks make place.
pub fn merge_kiro_hooks(root: &mut Json, notify: &str) -> (r: Result<(), String>)
    ensures
        (final(root).view(), document::failure(r)) == merged(old(root).view(), notify@),
        r is Ok && shell::names_notify(notify@) ==> installed(final(root).view()),
{
    let ghost before = root.view();
    remove_kiro_hooks(root);
    let mut document: Json = Json::Null;
    core::mem::swap(root, &mut document);
    match document {
        Json::Object(old) => {
            let entries: JsonObject = old.insert("version", Json::String("v1".to_owned()));
            let ghost marked = entries.view();
            let (rest, taken) = entries.take_list("hooks");
            let list: Vec<Json> = match taken {
                Some(hooks) => hooks,
                None => {
                    match rest.get("hooks") {
                        Some(_) => {
                            *root = Json::Object(rest);
                            return Err("Kiro hooks 不是数组".to_owned());
                        },
                        None => Vec::new(),
                    }
                },
            };
            assert(json::documents(list@) =~= hook_list(marked)->0);
            proof {
                events::lemma_kiro_events();
                reveal_strlit("kiro");
            }
            let names: Vec<String> = kiro_hook_events();
            let all: Vec<Json> = append_hooks(list, &names, notify);
            assert(marked.remove("hooks"@).insert("hooks"@, JsonView::Array(json::documents(all@)))
                =~= marked.insert("hooks"@, JsonView::Array(json::documents(all@))));
            *root = Json::Object(rest.insert("hooks", Json::Array(all)));
            proof {
                if shell::names_notify(notify@) {
                    merging_installs(before, notify@);
                }
            }
            Ok(())
        },
        other => {
            *root = other;
            Err("Kiro hooks 文件根不是对象".to_owned())
        },
    }
}

fn append_hooks(list: Vec<Json>, names: &Vec<String>, notify: &str) -> (r: Vec<Json>)
    ensures
        json::documents(r@) == json::documents(list@) + own_hooks(notify@, text::texts(names@)),
        shell::names_notify(notify@) && dialect::plain_names("kiro"@, text::texts(names@))
            ==> dialect::recognised(notify@, "kiro"@, text::texts(names@)),
{
    let ghost all = text::texts(names@);
    let ghost before = json::documents(list@);
    let mut out: Vec<Json> = list;
    let mut i: usize = 0;
    assert(before + own_hooks(notify@, all.take(0)) =~= before);
    while i < names.len()
        invariant
            all == text::texts(names@),
            i <= names.len(),
            json::documents(out@) == before + own_hooks(notify@, all.take(i as int)),
            shell::names_notify(notify@) && dialect::plain_names("kiro"@, all)
                ==> dialect::recognised(notify@, "kiro"@, all.take(i as int)),
        decreases names.len() - i,
    {
        let ghost so_far = out@;
        let command: String = provider_hook_command(notify, "kiro", names[i].as_str());
        let hook: Json = make_hook(command, names[i].as_str());
        out.push(hook);
        assert(json::documents(out@) =~= json::documents(so_far).push(hook.view()));
        assert(all.take(i + 1) =~= all.take(i as int).push(all[i as int]));
        assert(own_hooks(notify@, all.take(i + 1)) =~= own_hooks(notify@, all.take(i as int)).push(
            hook.view(),
        ));
        i = i + 1;
    }
    assert(all.take(i as int) =~= all);
    out
}

/// Whether the document has a hook of Smelt that reports `event`.
pub fn kiro_event_installed(root: &Json, event: &str) -> (r: bool)
    ensures
        r == event_installed(root.view(), event@),
{
    match root.list_at("hooks") {
        None => false,
        Some(hooks) => {
            let ghost all = json::documents(hooks@);
            let mut i: usize = 0;
            while i < hooks.len()
                invariant
                    all == json::documents(hooks@),
                    json::list_under(root.view(), "hooks"@) == Some(all),
                    i <= hooks.len(),
                    forall|k: int| 0 <= k < i ==> !hook_reports(#[trigger] all[k], event@),
                decreases hooks.len() - i,
            {
                assert(all[i as int] == hooks@[i as int].view());
                let triggered: bool = match hooks[i].text_at("trigger") {
                    Some(trigger) => same_text(trigger.as_str(), event),
                    None => false,
                };
                let enabled: bool = match hooks[i].flag_at("enabled") {
                    Some(flag) => flag,
                    None => true,
                };
                if triggered && enabled && handler_reports(
                    &hooks[i],
                    CommandKey::ActionCommand,
                    event,
                ) {
                    assert(hook_reports(all[i as int], event@));
                    return true;
                }
                i = i + 1;
            }
            false
        },
    }
}

fn document_installed(root: &Json) -> (r: bool)
    ensures
        r == installed(root.view()),
{
    let names: Vec<String> = kiro_hook_events();
    let ghost all = text::texts(names@);
    let mut i: usize = 0;
    while i < names.len()
        invariant
            all == text::texts(names@),
            all == events::kiro_events(),
            i <= names.len(),
            forall|k: int| 0 <= k < i ==> event_installed(root.view(), #[trigger] all[k]),
        decreases names.len() - i,
    {
        if !kiro_event_installed(root, names[i].as_str()) {
            assert(!event_installed(root.view(), all[i as int]));
            return false;
        }
        i = i + 1;
    }
    true
}

/// Whether the hook file, given by its text where it could be read, has Smelt's hooks for
/// every event. They are of no use without the helper.
pub fn kiro_hooks_installed(notify_available: bool, content: Option<&str>) -> (r: bool)
    ensures
        r == file_installed(notify_available, document::maybe_text(content)),
{
    if !notify_available {
        return false;
    }
    match content {
        None => false,
        Some(read) => match Json::parse(read) {
            Ok(root) => document_installed(&root),
            Err(_) => false,
        },
    }
}

/// The text to write so that the hook file has Smelt's hooks.
pub fn install_kiro_hooks(
    notify: &str,
    notify_available: bool,
    path: Option<&str>,
    file: &HookFile,
) -> (r: Result<String, String>)
    ensures
        document::outcome(r) == installation(
            notify@,
            notify_available,
            document::maybe_text(path),
            file.view(),
        ),
        r is Ok && shell::names_notify(notify@) ==> file_installed(
            notify_available,
            Some(r->Ok_0@),
        ),
        r matches Ok(written) ==> (document::maybe_text(path) matches Some(place)
            && (document::document_in(file.view(), document::invalid_provider_json(place, "Kiro"@)) matches Ok(root)
            && merged(root, notify@).1 is None && json::reads_as(
            written@,
            merged(root, notify@).0,
        ))),
{
    if !notify_available {
        return Err(missing_notify_message(notify));
    }
    match path {
        None => Err("无 home 目录".to_owned()),
        Some(place) => {
            let complaint: String = invalid_provider_json_message(place, "Kiro");
            match read_document(file, complaint.as_str()) {
                Err(message) => Err(message),
                Ok(document) => {
                    let mut root: Json = document;
                    match merge_kiro_hooks(&mut root, notify) {
                        Err(message) => Err(message),
                        Ok(_) => {
                            let written: Result<String, String> = render_document(&root);
                            proof {
                                lemma_merged_readable(document.view(), notify@);
                                let back = json::parse_outcome(written->Ok_0@)->Ok_0;
                                installed_in_both(root.view(), back);
                            }
                            written
                        },
                    }
                },
            }
        },
    }
}

/// The text to write so that the hook file has none of Smelt's hooks, if there is a file.
pub fn uninstall_kiro_hooks(path: Option<&str>, file: &HookFile) -> (r: Result<
    Option<String>,
    String,
>)
    ensures
        document::edit(r) == removal(document::maybe_text(path), file.view()),
        path is Some ==> (document::edit(r) matches Ok(change) ==> !file_installed(
            true,
            document::text_after(file.view(), change),
        )),
{
    match path {
        None => Ok(None),
        Some(place) => match file {
            HookFile::Absent => Ok(None),
            _ => {
                let complaint: String = invalid_provider_json_message(place, "Kiro");
                match read_document(file, complaint.as_str()) {
                    Err(message) => Err(message),
                    Ok(document) => {
                        let mut root: Json = document;
                        remove_kiro_hooks(&mut root);
                        match render_document(&root) {
                            Ok(written) => {
                                proof {
                                    lemma_removed_readable(document.view());
                                    let back = json::parse_outcome(written@)->Ok_0;
                                    installed_in_both(root.view(), back);
                                    removing_uninstalls(document.view(), Seq::empty());
                                }
                                Ok(Some(written))
                            },
                            Err(message) => Err(message),
                        }
                    },
                }
            },
        },
    }
}

proof fn lemma_own_hook(command: Seq<char>, event: Seq<char>)
    ensures
        shell::runs_notify(command) ==> handlers::is_own(
            own_hook(command, event),
            CommandKey::ActionCommand,
        ),
        shell::runs_notify_for(command, event) ==> hook_reports(own_hook(command, event), event),
{
    lemma_keys_differ();
    let entries = own_hook(command, event)->Object_0;
    assert(entries["action"@] == own_action(command));
    assert(entries["trigger"@] == JsonView::String(event));
    assert(entries["enabled"@] == JsonView::Bool(true));
    assert(own_action(command)->Object_0["command"@] == JsonView::String(command));
}

/// Adding Smelt's hooks installs them.
pub proof fn merging_installs(root: JsonView, notify: Seq<char>)
    requires
        merged(root, notify).1 is None,
        dialect::recognised(notify, "kiro"@, events::kiro_events()),
    ensures
        installed(merged(root, notify).0),
{
    let names = events::kiro_events();
    let hooks = hook_list(versioned(removed(root)->Object_0))->0;
    let all = hooks + own_hooks(notify, names);
    assert forall|i: int| 0 <= i < names.len() implies event_installed(
        merged(root, notify).0,
        #[trigger] names[i],
    ) by {
        let command = shell::hook_command(notify, "kiro"@, names[i]);
        lemma_own_hook(command, names[i]);
        assert(all[hooks.len() + i] == own_hook(command, names[i]));
        assert(hook_reports(all[hooks.len() + i], names[i]));
    }
}

proof fn lemma_foreign_append(hooks: Seq<JsonView>, notify: Seq<char>, names: Seq<Seq<char>>)
    requires
        dialect::recognised(notify, "kiro"@, names),
    ensures
        foreign(hooks + own_hooks(notify, names)) == foreign(hooks),
    decreases names.len(),
{
    if names.len() == 0 {
        assert(hooks + own_hooks(notify, names) =~= hooks);
    } else {
        let init = names.drop_last();
        let last = names[names.len() - 1];
        let command = shell::hook_command(notify, "kiro"@, last);
        assert forall|i: int| 0 <= i < init.len() implies shell::runs_notify_for(
            shell::hook_command(notify, "kiro"@, #[trigger] init[i]),
            init[i],
        ) by {
            assert(init[i] == names[i]);
        }
        lemma_foreign_append(hooks, notify, init);
        lemma_own_hook(command, last);
        let longer = hooks + own_hooks(notify, names);
        let shorter = hooks + own_hooks(notify, init);
        assert(own_hooks(notify, names) =~= own_hooks(notify, init).push(own_hook(command, last)));
        assert(longer =~= shorter.push(own_hook(command, last)));
        assert(longer.take(longer.len() as int) =~= longer);
        assert(longer.take(longer.len() - 1) =~= shorter);
        handlers::lemma_filter_step(
            longer,
            longer.len() - 1,
            |handler: JsonView| !handlers::is_own(handler, CommandKey::ActionCommand),
        );
    }
}

proof fn lemma_back_to_clean(root: JsonView, notify: Seq<char>)
    requires
        merged(root, notify).1 is None,
        dialect::recognised(notify, "kiro"@, events::kiro_events()),
    ensures
        ({
            let entries = versioned(removed(root)->Object_0);
            removed(merged(root, notify).0) == JsonView::Object(
                entries.insert("hooks"@, JsonView::Array(hook_list(entries)->0)),
            ) && foreign(hook_list(entries)->0) == hook_list(entries)->0
        }),
{
    let names = events::kiro_events();
    let entries = versioned(removed(root)->Object_0);
    let hooks = hook_list(entries)->0;
    lemma_keys_differ();
    lemma_foreign_append(hooks, notify, names);
    match json::list_under(root, "hooks"@) {
        Some(old) => {
            list_laws::foreign_has_no_own(old, CommandKey::ActionCommand);
            assert(hooks == foreign(old));
        },
        None => {
            list_laws::foreign_has_no_own(hooks, CommandKey::ActionCommand);
            reveal(Seq::filter);
        },
    }
    let once = JsonView::Array(hooks + own_hooks(notify, names));
    assert(entries.insert("hooks"@, once).insert("hooks"@, JsonView::Array(hooks))
        =~= entries.insert("hooks"@, JsonView::Array(hooks)));
}

/// Adding Smelt's hooks a second time changes nothing.
pub proof fn merging_twice(root: JsonView, notify: Seq<char>)
    requires
        merged(root, notify).1 is None,
        dialect::recognised(notify, "kiro"@, events::kiro_events()),
    ensures
        merged(merged(root, notify).0, notify) == merged(root, notify),
{
    let entries = versioned(removed(root)->Object_0);
    let hooks = hook_list(entries)->0;
    let once = JsonView::Array(hooks + own_hooks(notify, events::kiro_events()));
    lemma_back_to_clean(root, notify);
    lemma_keys_differ();
    let clean = entries.insert("hooks"@, JsonView::Array(hooks));
    assert(versioned(clean) =~= clean);
    assert(clean.insert("hooks"@, once) =~= entries.insert("hooks"@, once));
}

/// Removing Smelt's hooks takes back what adding them did: the hooks of others are left, as
/// removing Smelt's right away leaves them.
pub proof fn removing_undoes_merging(root: JsonView, notify: Seq<char>)
    requires
        merged(root, notify).1 is None,
        dialect::recognised(notify, "kiro"@, events::kiro_events()),
    ensures
        removed(merged(root, notify).0) == JsonView::Object(
            versioned(root->Object_0).insert(
                "hooks"@,
                JsonView::Array(foreign(hook_list(root->Object_0)->0)),
            ),
        ),
{
    lemma_back_to_clean(root, notify);
    lemma_keys_differ();
    let entries = versioned(removed(root)->Object_0);
    let hooks = hook_list(entries)->0;
    let old = hook_list(root->Object_0)->0;
    match json::list_under(root, "hooks"@) {
        Some(found) => {
            assert(hooks == foreign(old));
        },
        None => {
            assert(foreign(old) == hooks);
        },
    }
    assert(entries.insert("hooks"@, JsonView::Array(hooks)) =~= versioned(root->Object_0).insert(
        "hooks"@,
        JsonView::Array(hooks),
    ));
}

/// After Smelt's hooks are removed, no event is reported.
pub proof fn removing_uninstalls(root: JsonView, event: Seq<char>)
    ensures
        !event_installed(removed(root), event),
        !installed(removed(root)),
{
    match json::list_under(root, "hooks"@) {
        Some(hooks) => {
            list_laws::foreign_has_no_own(hooks, CommandKey::ActionCommand);
            let left = foreign(hooks);
            assert forall|i: int, name: Seq<char>| 0 <= i < left.len() implies !(#[trigger]
            hook_reports(left[i], name)) by {
                assert(!handlers::is_own(left[i], CommandKey::ActionCommand));
            }
        },
        None => {},
    }
    assert(!event_installed(removed(root), events::kiro_events()[0]));
}

proof fn lemma_hook_in_both(one: JsonView, other: JsonView, event: Seq<char>, depth: nat)
    requires
        json::alike(one, other, depth),
    ensures
        hook_reports(one, event) == hook_reports(other, event),
{
    reading_back::lemma_member(one, other, "trigger"@, depth);
    reading_back::lemma_member(one, other, "enabled"@, depth);
    reading_back::lemma_handler(one, other, CommandKey::ActionCommand, event, depth);
}

proof fn lemma_event_in_both(one: JsonView, other: JsonView, event: Seq<char>)
    requires
        json::alike(one, other, 127),
    ensures
        event_installed(one, event) == event_installed(other, event),
{
    reading_back::lemma_member(one, other, "hooks"@, 127);
    match (json::list_under(one, "hooks"@), json::list_under(other, "hooks"@)) {
        (Some(a), Some(b)) => {
            assert forall|i: int| 0 <= i < a.len() implies hook_reports(#[trigger] a[i], event)
                == hook_reports(b[i], event) by {
                lemma_hook_in_both(a[i], b[i], event, 125);
            }
            if some_reports(a, event) {
                let i = choose|i: int| 0 <= i < a.len() && hook_reports(#[trigger] a[i], event);
                assert(hook_reports(b[i], event));
            }
            if some_reports(b, event) {
                let i = choose|i: int| 0 <= i < b.len() && hook_reports(#[trigger] b[i], event);
                assert(hook_reports(a[i], event));
            }
        },
        _ => {},
    }
}

/// Whether Smelt's hooks are installed shows in the file that is read again.
pub proof fn installed_in_both(one: JsonView, other: JsonView)
    requires
        json::alike(one, other, 127),
    ensures
        installed(one) == installed(other),
{
    let names = events::kiro_events();
    assert forall|i: int| 0 <= i < names.len() implies event_installed(one, #[trigger] names[i])
        == event_installed(other, names[i]) by {
        lemma_event_in_both(one, other, names[i]);
    }
}

proof fn lemma_removed_readable(root: JsonView)
    requires
        json::readable(root),
    ensures
        json::readable(removed(root)),
{
    match json::list_under(root, "hooks"@) {
        Some(found) => {
            fitting::lemma_entry_fits(root->Object_0, "hooks"@, 127);
            fitting::lemma_filter_fits(
                found,
                |handler: JsonView| !handlers::is_own(handler, CommandKey::ActionCommand),
                125,
            );
            fitting::lemma_insert_fits(
                root->Object_0,
                "hooks"@,
                JsonView::Array(foreign(found)),
                127,
            );
        },
        None => {},
    }
}

proof fn lemma_merged_readable(root: JsonView, notify: Seq<char>)
    requires
        json::readable(root),
        merged(root, notify).1 is None,
    ensures
        json::readable(merged(root, notify).0),
{
    let names = events::kiro_events();
    lemma_removed_readable(root);
    let old = removed(root)->Object_0;
    assert(removed(root) == JsonView::Object(old));
    fitting::lemma_insert_fits(old, "version"@, JsonView::String("v1"@), 127);
    let entries = versioned(old);
    let hooks = hook_list(entries)->0;
    if entries.contains_key("hooks"@) {
        fitting::lemma_entry_fits(entries, "hooks"@, 127);
    }
    let own = own_hooks(notify, names);
    let all = hooks + own;
    assert forall|i: int| 0 <= i < all.len() implies json::fits(#[trigger] all[i], 125) by {
        if i < hooks.len() {
            assert(all[i] == hooks[i]);
        } else {
            let event = names[i - hooks.len()];
            lemma_own_hook_fits(shell::hook_command(notify, "kiro"@, event), event);
            fitting::lemma_deeper(all[i], 2, 125);
        }
    }
    fitting::lemma_insert_fits(entries, "hooks"@, JsonView::Array(all), 127);
}

proof fn lemma_own_hook_fits(command: Seq<char>, event: Seq<char>)
    ensures
        json::fits(own_hook(command, event), 2),
{
    lemma_keys_differ();
    reveal_with_fuel(json::fits, 3);
    assert(json::fits(own_action(command), 1));
    let hook = own_hook(command, event);
    let entries = hook->Object_0;
    assert forall|key: Seq<char>|
        #![trigger entries[key]]
        entries.contains_key(key) implies json::fits(entries[key], 1) by {}
}

} // verus!
