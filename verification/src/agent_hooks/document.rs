//! What hook files of every agent have in common: reading, writing and their sections.

use vstd::prelude::*;

use crate::agent_hooks::dialect;
use crate::agent_hooks::dialect::{enlist_events, list_has_hook, Dialect, HookLists};
use crate::json;
use crate::json::{Json, JsonObject, JsonView};
use crate::shell;
use crate::text;
use crate::text::concat;

verus! {

/// A configuration file as it was found.
pub enum HookFile {
    /// There is no such file.
    Absent,
    /// The file or its directory cannot be used, for the given reason.
    Unreadable(String),
    /// The file holds this text.
    Text(String),
}

/// A configuration file, by its characters.
pub enum HookFileView {
    Absent,
    Unreadable(Seq<char>),
    Text(Seq<char>),
}

impl HookFile {
    /// The file, by its characters.
    pub open spec fn view(&self) -> HookFileView {
        match *self {
            HookFile::Absent => HookFileView::Absent,
            HookFile::Unreadable(reason) => HookFileView::Unreadable(reason@),
            HookFile::Text(content) => HookFileView::Text(content@),
        }
    }
}

/// The message of a failed operation.
pub open spec fn failure(result: Result<(), String>) -> Option<Seq<char>> {
    match result {
        Ok(_) => None,
        Err(message) => Some(message@),
    }
}

/// A text or the message of a failure, by their characters.
pub open spec fn outcome(result: Result<String, String>) -> Result<Seq<char>, Seq<char>> {
    match result {
        Ok(content) => Ok(content@),
        Err(message) => Err(message@),
    }
}

/// A text to write, if any, or the message of a failure, by their characters.
pub open spec fn edit(
    result: Result<Option<String>, String>,
) -> Result<Option<Seq<char>>, Seq<char>> {
    match result {
        Ok(Some(content)) => Ok(Some(content@)),
        Ok(None) => Ok(None),
        Err(message) => Err(message@),
    }
}

/// A text that may be missing, by its characters.
pub open spec fn maybe_text(content: Option<&str>) -> Option<Seq<char>> {
    match content {
        Some(read) => Some(read@),
        None => None,
    }
}

/// The object under `key`; a missing one counts as empty.
pub open spec fn section_of(
    entries: Map<Seq<char>, JsonView>,
    key: Seq<char>,
) -> Option<Map<Seq<char>, JsonView>> {
    if entries.contains_key(key) {
        match entries[key] {
            JsonView::Object(section) => Some(section),
            _ => None,
        }
    } else {
        Some(Map::empty())
    }
}

/// Adds Smelt's hooks: the lists, and the reason where an event could not get one. The
/// lists before that event have their hooks then.
pub open spec fn merged_lists(
    hooks: HookLists,
    events: Seq<Seq<char>>,
    dialect: Dialect,
    notify: Seq<char>,
    provider: Seq<char>,
) -> (HookLists, Option<Seq<char>>) {
    if exists|at: int| dialect::blocked_at(hooks, events, at) {
        let at = choose|at: int| dialect::blocked_at(hooks, events, at);
        (
            dialect::enlisted_in_turn(hooks, events.take(at), dialect, notify, provider),
            Some(dialect::refusal(dialect, events[at])),
        )
    } else {
        (dialect::enlisted_in_turn(hooks, events, dialect, notify, provider), None)
    }
}

/// The text of a file that holds `document`.
pub open spec fn rendered(document: JsonView) -> Seq<char> {
    json::pretty_text(document) + "\n"@
}

/// The document in a file, where one is to be changed. A missing file counts as an empty
/// object; `complaint` stands before the parser's message.
pub open spec fn document_in(
    file: HookFileView,
    complaint: Seq<char>,
) -> Result<JsonView, Seq<char>> {
    match file {
        HookFileView::Absent => Ok(JsonView::Object(Map::empty())),
        HookFileView::Unreadable(reason) => Err(reason),
        HookFileView::Text(content) => match json::parse_outcome(content) {
            Ok(document) => Ok(document),
            Err(message) => Err(complaint + message),
        },
    }
}

/// The text of a file, where it has any.
pub open spec fn text_in(file: HookFileView) -> Option<Seq<char>> {
    match file {
        HookFileView::Text(content) => Some(content),
        _ => None,
    }
}

/// The text of a file once it was changed, where it has any.
pub open spec fn text_after(file: HookFileView, change: Option<Seq<char>>) -> Option<Seq<char>> {
    match change {
        Some(written) => Some(written),
        None => text_in(file),
    }
}

/// That the helper is missing.
pub open spec fn missing_notify(notify: Seq<char>) -> Seq<char> {
    "找不到 "@ + notify + "，请先编译安装 smelt-notify"@
}

/// What is wrong with the text of a file, up to the parser's message.
pub open spec fn invalid_json(path: Seq<char>) -> Seq<char> {
    path + " 不是有效 JSON："@
}

/// What is wrong with the text of a file of `provider`, up to the parser's message.
pub open spec fn invalid_provider_json(path: Seq<char>, provider: Seq<char>) -> Seq<char> {
    path + " 的 "@ + provider + " 配置不是有效 JSON："@
}

/// That there is no home directory to look for configuration in.
pub open spec fn no_home() -> Seq<char> {
    "无 home 目录"@
}

/// The message that the helper is missing.
pub fn missing_notify_message(notify: &str) -> (r: String)
    ensures
        r@ == missing_notify(notify@),
{
    let mut out: String = concat("找不到 ", notify);
    out.append("，请先编译安装 smelt-notify");
    out
}

pub(crate) fn invalid_json_message(path: &str) -> (r: String)
    ensures
        r@ == invalid_json(path@),
{
    concat(path, " 不是有效 JSON：")
}

pub(crate) fn invalid_provider_json_message(path: &str, provider: &str) -> (r: String)
    ensures
        r@ == invalid_provider_json(path@, provider@),
{
    let mut out: String = concat(path, " 的 ");
    out.append(provider);
    out.append(" 配置不是有效 JSON：");
    out
}

/// The document in a file, where one is to be changed.
pub fn read_document(file: &HookFile, complaint: &str) -> (r: Result<Json, String>)
    ensures
        match r {
            Ok(document) => document_in(file.view(), complaint@) == Ok::<JsonView, Seq<char>>(
                document.view(),
            ) && json::readable(document.view()),
            Err(message) => document_in(file.view(), complaint@) == Err::<JsonView, Seq<char>>(
                message@,
            ),
        },
{
    match file {
        HookFile::Absent => {
            let empty = JsonObject::new();
            Ok(Json::Object(empty))
        },
        HookFile::Unreadable(reason) => Err(reason.clone()),
        HookFile::Text(content) => match Json::parse(content.as_str()) {
            Ok(document) => Ok(document),
            Err(message) => Err(concat(complaint, message.as_str())),
        },
    }
}

/// The text of a file that holds `document`.
pub fn render_document(document: &Json) -> (r: Result<String, String>)
    ensures
        r matches Ok(content) && content@ == rendered(document.view()) && (json::readable(
            document.view(),
        ) ==> json::reads_as(content@, document.view())),
{
    match document.pretty() {
        Ok(content) => Ok(concat(content.as_str(), "\n")),
        Err(message) => Err(message),
    }
}

/// Takes the object under `key` out, or a new one where there is none.
pub fn open_section(entries: JsonObject, key: &str) -> (r: (JsonObject, Option<JsonObject>))
    ensures
        match r.1 {
            Some(section) => section_of(entries.view(), key@) == Some(section.view())
                && r.0.view() == entries.view().remove(key@),
            None => section_of(entries.view(), key@) is None && r.0.view() == entries.view(),
        },
{
    let ghost before = entries.view();
    let (rest, found) = entries.take_object(key);
    match found {
        Some(section) => (rest, Some(section)),
        None => {
            match rest.get(key) {
                Some(_) => (rest, None),
                None => {
                    assert(before.remove(key@) =~= before);
                    (rest, Some(JsonObject::new()))
                },
            }
        },
    }
}

/// Adds Smelt's hooks, up to the first event that cannot get one.
pub fn merge_lists(
    hooks: JsonObject,
    events: &Vec<String>,
    dialect: Dialect,
    notify: &str,
    provider: &str,
) -> (r: (JsonObject, Result<(), String>))
    ensures
        (r.0.view(), failure(r.1)) == merged_lists(
            hooks.view(),
            text::texts(events@),
            dialect,
            notify@,
            provider@,
        ),
        r.1 is Ok && shell::names_notify(notify@) && dialect::plain_names(
            provider@,
            text::texts(events@),
        ) ==> dialect::recognised(notify@, provider@, text::texts(events@)),
{
    let ghost before = hooks.view();
    let ghost all = text::texts(events@);
    let (out, result) = enlist_events(hooks, events, dialect, notify, provider);
    proof {
        match result {
            Ok(_) => {
                assert forall|at: int| !dialect::blocked_at(before, all, at) by {
                    if 0 <= at < all.len() {
                        assert(dialect::listable(before, all[at]));
                    }
                }
            },
            Err(_) => {
                let at = choose|at: int| dialect::blocked_at(before, all, at);
                assert forall|other: int| dialect::blocked_at(before, all, other) implies other
                    == at by {
                    if other < at {
                        assert(dialect::listable(before, all[other]));
                    }
                    if at < other {
                        assert(dialect::listable(before, all[at]));
                    }
                }
            },
        }
    }
    (out, result)
}

/// Whether every event has a hook of Smelt that reports it.
pub fn lists_report(hooks: &JsonObject, events: &Vec<String>, dialect: Dialect) -> (r: bool)
    ensures
        r == dialect::all_reported(hooks.view(), text::texts(events@), dialect),
{
    let ghost all = text::texts(events@);
    let mut i: usize = 0;
    while i < events.len()
        invariant
            all == text::texts(events@),
            i <= events.len(),
            forall|k: int|
                0 <= k < i ==> dialect::list_reports(
                    dialect::list_of(hooks.view(), #[trigger] all[k]),
                    dialect,
                    all[k],
                ),
        decreases events.len() - i,
    {
        let found: bool = match hooks.get(events[i].as_str()) {
            Some(Json::Array(items)) => list_has_hook(items, dialect, events[i].as_str()),
            _ => {
                let none: Vec<Json> = Vec::new();
                assert(json::documents(none@) =~= dialect::list_of(hooks.view(), all[i as int]));
                list_has_hook(&none, dialect, events[i].as_str())
            },
        };
        if !found {
            assert(!dialect::list_reports(
                dialect::list_of(hooks.view(), all[i as int]),
                dialect,
                all[i as int],
            ));
            return false;
        }
        i = i + 1;
    }
    true
}

} // verus!
