//! What becomes of installing and removing hooks.

use vstd::prelude::*;

use crate::agent_hooks::antigravity;
use crate::agent_hooks::antigravity::{
    antigravity_hooks_installed, install_antigravity_hooks, uninstall_antigravity_hooks,
};
use crate::agent_hooks::claude;
use crate::agent_hooks::claude::{
    claude_hooks_installed, codex_hooks_installed, codex_trust_outcome, install_codex_hooks,
    uninstall_codex_hooks, CodexInstallation, TrustAttempt,
};
use crate::agent_hooks::copilot;
use crate::agent_hooks::copilot::{
    copilot_hooks_installed, install_copilot_hooks, uninstall_copilot_hooks,
};
use crate::agent_hooks::cursor;
use crate::agent_hooks::cursor::{
    cursor_hooks_installed, install_cursor_hooks, uninstall_cursor_hooks,
};
use crate::agent_hooks::dialect;
use crate::agent_hooks::dialect::Dialect;
use crate::agent_hooks::document;
use crate::agent_hooks::document::{missing_notify_message, HookFile};
use crate::agent_hooks::events;
use crate::agent_hooks::events::{
    antigravity_hook_events, codex_hook_events, copilot_hook_events, copilot_legacy_hook_events,
    cursor_hook_events, kiro_hook_events, smelt_hook_events,
};
use crate::agent_hooks::handlers;
use crate::agent_hooks::hook_file::{hook_file_installed, install_hook_file, uninstall_hook_file};
use crate::agent_hooks::kiro;
use crate::agent_hooks::kiro::{install_kiro_hooks, kiro_hooks_installed, uninstall_kiro_hooks};
use crate::agent_hooks::locations::{config_root, opencode_plugin_components, HookLocation};
use crate::agent_hooks::opencode;
use crate::agent_hooks::opencode::{
    install_opencode_plugin, install_opencode_plugin_at, opencode_plugin_installed,
    opencode_plugin_source, uninstall_opencode_plugin,
};
use crate::agent_hooks::reading_back;
use crate::agent_hooks::registry;
use crate::agent_hooks::registry::{
    current_hooks_status, hook_integrations, hooks_installed_status, install_agent_hooks,
    integrations_to_install, invalidate_hooks_cache, run_all_hook_operations,
    uninstall_agent_hooks, HookContents, HookIntegration, HookProviderStatus, HookStatusCache,
};
use crate::json;
use crate::json::JsonView;
use crate::promises::hooks::{lemma_command, lemma_three, reports_by};
use crate::shell;
use crate::text;

verus! {

/// The events that each agent reports.
pub proof fn agents_report_these_events(
    smelt: Vec<String>,
    codex: Vec<String>,
    copilot: Vec<String>,
    copilot_legacy: Vec<String>,
    antigravity: Vec<String>,
    cursor: Vec<String>,
    kiro: Vec<String>,
)
    requires
        call_ensures(smelt_hook_events, (), smelt),
        call_ensures(codex_hook_events, (), codex),
        call_ensures(copilot_hook_events, (), copilot),
        call_ensures(copilot_legacy_hook_events, (), copilot_legacy),
        call_ensures(antigravity_hook_events, (), antigravity),
        call_ensures(cursor_hook_events, (), cursor),
        call_ensures(kiro_hook_events, (), kiro),
    ensures
        text::texts(smelt@) == seq![
            "SessionStart"@,
            "PreToolUse"@,
            "PostToolUse"@,
            "PostToolUseFailure"@,
            "PermissionRequest"@,
            "Notification"@,
            "UserPromptSubmit"@,
            "SubagentStart"@,
            "SubagentStop"@,
            "Stop"@,
            "StopFailure"@,
            "StopCancelled"@,
            "TeammateIdle"@,
            "SessionEnd"@,
        ],
        text::texts(codex@) == seq![
            "SessionStart"@,
            "PreToolUse"@,
            "PostToolUse"@,
            "PermissionRequest"@,
            "UserPromptSubmit"@,
            "SubagentStart"@,
            "SubagentStop"@,
            "Stop"@,
            "SessionStop"@,
            "Notification"@,
            "SessionEnd"@,
        ],
        text::texts(copilot@) == seq![
            "sessionStart"@,
            "sessionEnd"@,
            "userPromptSubmitted"@,
            "preToolUse"@,
            "postToolUse"@,
            "postToolUseFailure"@,
            "subagentStart"@,
            "subagentStop"@,
            "preCompact"@,
            "agentStop"@,
            "errorOccurred"@,
            "permissionRequest"@,
            "notification"@,
        ],
        text::texts(copilot_legacy@) == seq![
            "SessionStart"@,
            "SessionEnd"@,
            "UserPromptSubmit"@,
            "PreToolUse"@,
            "PostToolUse"@,
            "PostToolUseFailure"@,
            "SubagentStart"@,
            "subagentStart"@,
            "SubagentStop"@,
            "PreCompact"@,
            "Stop"@,
            "ErrorOccurred"@,
            "PermissionRequest"@,
            "Notification"@,
        ],
        text::texts(antigravity@) == seq![
            "PreInvocation"@,
            "PostInvocation"@,
            "PostToolUse"@,
            "Stop"@,
        ],
        text::texts(cursor@) == seq![
            "sessionStart"@,
            "sessionEnd"@,
            "preToolUse"@,
            "postToolUse"@,
            "postToolUseFailure"@,
            "subagentStart"@,
            "subagentStop"@,
            "beforeSubmitPrompt"@,
            "stop"@,
        ],
        text::texts(kiro@) == seq![
            "SessionStart"@,
            "UserPromptSubmit"@,
            "PreToolUse"@,
            "PostToolUse"@,
            "Stop"@,
        ],
{
}

/// Nothing is installed without the helper, into a file that cannot be read, or into one that is
/// not valid, and each time it is said why.
pub proof fn installing_needs_helper_and_file(
    notify: &str,
    available: bool,
    path: &str,
    file: &HookFile,
    names: &Vec<String>,
    provider: &str,
    r: Result<String, String>,
    missing: String,
)
    requires
        call_ensures(install_hook_file, (notify, available, path, file, names, provider), r),
        call_ensures(missing_notify_message, (notify,), missing),
    ensures
        missing@ == "找不到 "@ + notify@ + "，请先编译安装 smelt-notify"@,
        !available ==> (r matches Err(message) && message@ == missing@),
        available ==> (*file matches HookFile::Unreadable(reason) ==> (r matches Err(message)
            && message@ == reason@)),
        available ==> (*file matches HookFile::Text(content) ==> (json::parse_outcome(
            content@,
        ) matches Err(error) ==> (r matches Err(message) && message@ == path@
            + " 不是有效 JSON："@ + error))),
        available && file is Absent ==> r is Ok,
{
    if available && file is Absent {
        let root = JsonView::Object(Map::empty());
        let hooks = Map::<Seq<char>, JsonView>::empty();
        let all = text::texts(names@);
        assert(document::section_of(root->Object_0, "hooks"@) == Some(hooks));
        assert forall|at: int| !dialect::blocked_at(hooks, all, at) by {
        }
    }
}

/// Removing from a file that is not there changes nothing; from one that cannot be read or is not
/// valid it fails, and says why.
pub proof fn removing_needs_a_file(
    file: &HookFile,
    names: &Vec<String>,
    r: Result<Option<String>, String>,
    codex: Result<Option<String>, String>,
    copilot: Result<Option<String>, String>,
)
    requires
        call_ensures(uninstall_hook_file, (file, names), r),
        call_ensures(uninstall_codex_hooks, (file,), codex),
        call_ensures(uninstall_copilot_hooks, (file,), copilot),
    ensures
        file is Absent ==> (r matches Ok(change) && change is None) && (codex matches Ok(change)
            && change is None) && (copilot matches Ok(change) && change is None),
        *file matches HookFile::Unreadable(reason) ==> (r matches Err(message) && message@
            == reason@) && (codex matches Err(message) && message@ == reason@) && (
        copilot matches Err(message) && message@ == reason@),
        *file matches HookFile::Text(content) ==> (json::parse_outcome(content@) matches Err(error)
            ==> (r matches Err(message) && message@ == error) && (codex matches Err(message)
            && message@ == error) && (copilot matches Err(message) && message@ == error)),
        *file matches HookFile::Text(content) ==> (json::parse_outcome(content@) is Ok ==> r is Ok
            && codex is Ok && copilot is Ok),
{
}

/// The agents whose files lie under the home directory need one, need the helper, and tell a
/// broken file by its path.
pub proof fn agents_need_a_home(
    notify: &str,
    available: bool,
    place: &str,
    file: &HookFile,
    copilot: Result<String, String>,
    antigravity: Result<String, String>,
    cursor: Result<String, String>,
    kiro: Result<String, String>,
    lost: Result<String, String>,
)
    requires
        call_ensures(install_copilot_hooks, (notify, available, Some(place), file), copilot),
        call_ensures(install_antigravity_hooks, (notify, available, Some(place), file), antigravity),
        call_ensures(install_cursor_hooks, (notify, available, Some(place), file), cursor),
        call_ensures(install_kiro_hooks, (notify, available, Some(place), file), kiro),
        call_ensures(install_copilot_hooks, (notify, available, None, file), lost),
    ensures
        lost matches Err(message) && message@ == "无 home 目录"@,
        !available ==> (copilot matches Err(message) && message@ == "找不到 "@ + notify@
            + "，请先编译安装 smelt-notify"@) && (antigravity matches Err(message) && message@
            == "找不到 "@ + notify@ + "，请先编译安装 smelt-notify"@) && (cursor matches Err(message)
            && message@ == "找不到 "@ + notify@ + "，请先编译安装 smelt-notify"@) && (
        kiro matches Err(message) && message@ == "找不到 "@ + notify@
            + "，请先编译安装 smelt-notify"@),
        available ==> (*file matches HookFile::Unreadable(reason) ==> (copilot matches Err(message)
            && message@ == reason@) && (antigravity matches Err(message) && message@ == reason@) && (
        cursor matches Err(message) && message@ == reason@) && (kiro matches Err(message)
            && message@ == reason@)),
        available ==> (*file matches HookFile::Text(content) ==> (json::parse_outcome(
            content@,
        ) matches Err(error) ==> (copilot matches Err(message) && message@ == place@
            + " 不是有效 JSON："@ + error) && (antigravity matches Err(message) && message@ == place@
            + " 不是有效 JSON："@ + error) && (cursor matches Err(message) && message@ == place@
            + " 的 "@ + "Cursor"@ + " 配置不是有效 JSON："@ + error) && (kiro matches Err(message)
            && message@ == place@ + " 的 "@ + "Kiro"@ + " 配置不是有效 JSON："@ + error))),
{
}

/// Without a home directory the other installations fail too, and removing has nothing to do.
pub proof fn removing_needs_no_home(
    notify: &str,
    available: bool,
    file: &HookFile,
    antigravity: Result<String, String>,
    cursor: Result<String, String>,
    kiro: Result<String, String>,
    codex: Result<CodexInstallation, String>,
    a: Result<Option<String>, String>,
    b: Result<Option<String>, String>,
    c: Result<Option<String>, String>,
)
    requires
        call_ensures(install_antigravity_hooks, (notify, available, None, file), antigravity),
        call_ensures(install_cursor_hooks, (notify, available, None, file), cursor),
        call_ensures(install_kiro_hooks, (notify, available, None, file), kiro),
        call_ensures(install_codex_hooks, (notify, available, None, file), codex),
        call_ensures(uninstall_antigravity_hooks, (None, file), a),
        call_ensures(uninstall_cursor_hooks, (None, file), b),
        call_ensures(uninstall_kiro_hooks, (None, file), c),
    ensures
        available ==> (antigravity matches Err(message) && message@ == "无 home 目录"@) && (
        cursor matches Err(message) && message@ == "无 home 目录"@) && (kiro matches Err(message)
            && message@ == "无 home 目录"@),
        !available ==> antigravity is Err && cursor is Err && kiro is Err,
        codex matches Err(message) && message@ == "无 home 目录"@,
        a matches Ok(change) && change is None,
        b matches Ok(change) && change is None,
        c matches Ok(change) && change is None,
{
}

/// Where their file is not there these agents have nothing to remove either; one that cannot be
/// read or is not valid is told.
pub proof fn removing_tells_broken_files(
    place: &str,
    file: &HookFile,
    antigravity: Result<Option<String>, String>,
    cursor: Result<Option<String>, String>,
    kiro: Result<Option<String>, String>,
)
    requires
        call_ensures(uninstall_antigravity_hooks, (Some(place), file), antigravity),
        call_ensures(uninstall_cursor_hooks, (Some(place), file), cursor),
        call_ensures(uninstall_kiro_hooks, (Some(place), file), kiro),
    ensures
        file is Absent ==> (antigravity matches Ok(change) && change is None) && (
        cursor matches Ok(change) && change is None) && (kiro matches Ok(change) && change is None),
        *file matches HookFile::Unreadable(reason) ==> (antigravity matches Err(message) && message@
            == reason@) && (cursor matches Err(message) && message@ == reason@) && (
        kiro matches Err(message) && message@ == reason@),
        *file matches HookFile::Text(content) ==> (json::parse_outcome(content@) matches Err(error)
            ==> (antigravity matches Err(message) && message@ == place@ + " 不是有效 JSON："@
            + error) && (cursor matches Err(message) && message@ == place@ + " 的 "@ + "Cursor"@
            + " 配置不是有效 JSON："@ + error) && (kiro matches Err(message) && message@ == place@
            + " 的 "@ + "Kiro"@ + " 配置不是有效 JSON："@ + error)),
{
}

/// One of the handlers has a command under the key that runs the helper and names the event.
pub open spec fn one_reports(
    items: Seq<JsonView>,
    key: Seq<char>,
    event: Seq<char>,
) -> bool {
    exists|i: int|
        0 <= i < items.len() && (json::text_under(#[trigger] items[i], key) matches Some(command)
            && shell::runs_notify(command) && text::contains_text(
            command,
            "SMELT_HOOK_EVENT="@ + event,
        ))
}

/// One of the groups has such a handler.
pub open spec fn one_group_reports(
    groups: Seq<JsonView>,
    event: Seq<char>,
    bash_too: bool,
) -> bool {
    exists|i: int|
        0 <= i < groups.len() && (json::list_under(#[trigger] groups[i], "hooks"@) matches Some(
            inner,
        ) && (one_reports(inner, "command"@, event) || (bash_too && one_reports(
            inner,
            "bash"@,
            event,
        ))))
}

pub proof fn lemma_one_reports(items: Seq<JsonView>, event: Seq<char>)
    ensures
        handlers::some_reports(items, handlers::CommandKey::Command, event) <==> one_reports(
            items,
            "command"@,
            event,
        ),
        handlers::some_reports(items, handlers::CommandKey::Bash, event) <==> one_reports(
            items,
            "bash"@,
            event,
        ),
        handlers::some_reports(items, handlers::CommandKey::CommandOrBash, event) <==> one_reports(
            items,
            "command"@,
            event,
        ) || one_reports(items, "bash"@, event),
{
    let key = handlers::CommandKey::CommandOrBash;
    if handlers::some_reports(items, key, event) {
        let i = choose|i: int| 0 <= i < items.len() && handlers::reports(
            #[trigger] items[i],
            key,
            event,
        );
        assert(handlers::reports(items[i], key, event));
    }
    if one_reports(items, "command"@, event) {
        let i = choose|i: int|
            0 <= i < items.len() && (json::text_under(
                #[trigger] items[i],
                "command"@,
            ) matches Some(command) && shell::runs_notify(command) && text::contains_text(
                command,
                "SMELT_HOOK_EVENT="@ + event,
            ));
        assert(handlers::reports(items[i], key, event));
        assert(handlers::reports(items[i], handlers::CommandKey::Command, event));
    }
    if one_reports(items, "bash"@, event) {
        let i = choose|i: int|
            0 <= i < items.len() && (json::text_under(#[trigger] items[i], "bash"@) matches Some(
                command,
            ) && shell::runs_notify(command) && text::contains_text(
                command,
                "SMELT_HOOK_EVENT="@ + event,
            ));
        assert(handlers::reports(items[i], key, event));
        assert(handlers::reports(items[i], handlers::CommandKey::Bash, event));
    }
    if handlers::some_reports(items, handlers::CommandKey::Command, event) {
        let i = choose|i: int| 0 <= i < items.len() && handlers::reports(
            #[trigger] items[i],
            handlers::CommandKey::Command,
            event,
        );
        assert(items[i] == items[i]);
    }
    if handlers::some_reports(items, handlers::CommandKey::Bash, event) {
        let i = choose|i: int| 0 <= i < items.len() && handlers::reports(
            #[trigger] items[i],
            handlers::CommandKey::Bash,
            event,
        );
        assert(items[i] == items[i]);
    }
}

pub proof fn lemma_one_group_reports(groups: Seq<JsonView>, event: Seq<char>)
    ensures
        handlers::some_group_reports(groups, handlers::CommandKey::CommandOrBash, event)
            <==> one_group_reports(groups, event, true),
        handlers::some_group_reports(groups, handlers::CommandKey::Command, event)
            <==> one_group_reports(groups, event, false),
{
    assert forall|i: int| 0 <= i < groups.len() implies (handlers::nested(
        #[trigger] groups[i],
    ) matches Some(inner) ==> (handlers::some_reports(
        inner,
        handlers::CommandKey::CommandOrBash,
        event,
    ) <==> one_reports(inner, "command"@, event) || one_reports(inner, "bash"@, event)) && (
    handlers::some_reports(inner, handlers::CommandKey::Command, event) <==> one_reports(
        inner,
        "command"@,
        event,
    ))) by {
        match handlers::nested(groups[i]) {
            Some(inner) => lemma_one_reports(inner, event),
            None => {},
        }
    }
    if handlers::some_group_reports(groups, handlers::CommandKey::CommandOrBash, event) {
        let i = choose|i: int|
            0 <= i < groups.len() && (handlers::nested(#[trigger] groups[i]) matches Some(found)
                && handlers::some_reports(found, handlers::CommandKey::CommandOrBash, event));
        assert(json::list_under(groups[i], "hooks"@) is Some);
    }
    if handlers::some_group_reports(groups, handlers::CommandKey::Command, event) {
        let i = choose|i: int|
            0 <= i < groups.len() && (handlers::nested(#[trigger] groups[i]) matches Some(found)
                && handlers::some_reports(found, handlers::CommandKey::Command, event));
        assert(json::list_under(groups[i], "hooks"@) is Some);
    }
    if one_group_reports(groups, event, true) {
        let i = choose|i: int|
            0 <= i < groups.len() && (json::list_under(#[trigger] groups[i], "hooks"@) matches Some(
                inner,
            ) && (one_reports(inner, "command"@, event) || (true && one_reports(
                inner,
                "bash"@,
                event,
            ))));
        assert(handlers::nested(groups[i]) is Some);
    }
    if one_group_reports(groups, event, false) {
        let i = choose|i: int|
            0 <= i < groups.len() && (json::list_under(#[trigger] groups[i], "hooks"@) matches Some(
                inner,
            ) && (one_reports(inner, "command"@, event) || (false && one_reports(
                inner,
                "bash"@,
                event,
            ))));
        assert(handlers::nested(groups[i]) is Some);
    }
}

/// A file of groups counts as installed where the helper is there, the file can be read, and every
/// event has a group with a handler that runs the helper for it; and only there.
pub proof fn files_are_installed_event_by_event(
    available: bool,
    content: Option<&str>,
    names: &Vec<String>,
    r: bool,
)
    requires
        call_ensures(hook_file_installed, (available, content, names), r),
    ensures
        r ==> available && content is Some && json::parse_outcome(content->0@) is Ok,
        r <==> available && content is Some && (json::parse_outcome(content->0@) matches Ok(root)
            && json::member(root, "hooks"@) is Some && json::member(root, "hooks"@)->0 is Object
            && forall|i: int|
            0 <= i < names@.len() ==> (json::list_under(
                json::member(root, "hooks"@)->0,
                (#[trigger] names@[i])@,
            ) matches Some(groups) && one_group_reports(groups, names@[i]@, true))),
{
    let all = text::texts(names@);
    if available && content is Some && json::parse_outcome(content->0@) is Ok {
        let root = json::parse_outcome(content->0@)->Ok_0;
        match json::member(root, "hooks"@) {
            Some(JsonView::Object(hooks)) => {
                assert forall|i: int| 0 <= i < names@.len() implies (dialect::list_reports(
                    dialect::list_of(hooks, all[i]),
                    Dialect::Groups,
                    all[i],
                ) <==> (json::list_under(
                    JsonView::Object(hooks),
                    (#[trigger] names@[i])@,
                ) matches Some(groups) && one_group_reports(groups, names@[i]@, true))) by {
                    assert(all[i] == names@[i]@);
                    lemma_one_group_reports(dialect::list_of(hooks, all[i]), all[i]);
                }
                if dialect::all_reported(hooks, all, Dialect::Groups) {
                    assert forall|i: int| 0 <= i < names@.len() implies (json::list_under(
                        JsonView::Object(hooks),
                        (#[trigger] names@[i])@,
                    ) matches Some(groups) && one_group_reports(groups, names@[i]@, true)) by {
                        assert(all[i] == names@[i]@);
                    }
                }
                if forall|i: int|
                    0 <= i < names@.len() ==> (json::list_under(
                        JsonView::Object(hooks),
                        (#[trigger] names@[i])@,
                    ) matches Some(groups) && one_group_reports(groups, names@[i]@, true)) {
                    assert forall|i: int| 0 <= i < all.len() implies dialect::list_reports(
                        dialect::list_of(hooks, #[trigger] all[i]),
                        Dialect::Groups,
                        all[i],
                    ) by {
                        assert(all[i] == names@[i]@);
                    }
                }
            },
            _ => {},
        }
    }
}

/// The first agent is installed where its own file and Grok's are; Codex where its file is.
pub proof fn agents_are_installed_by_their_files(
    available: bool,
    first: Option<&str>,
    grok: Option<&str>,
    names: &Vec<String>,
    a: bool,
    b: bool,
    both: bool,
    codex: bool,
    few: &Vec<String>,
    c: bool,
)
    requires
        call_ensures(claude_hooks_installed, (available, first, grok), both),
        call_ensures(smelt_hook_events, (), *names),
        call_ensures(hook_file_installed, (available, first, names), a),
        call_ensures(hook_file_installed, (available, grok, names), b),
        call_ensures(codex_hooks_installed, (available, first), codex),
        call_ensures(codex_hook_events, (), *few),
        call_ensures(hook_file_installed, (available, first, few), c),
    ensures
        both <==> a && b,
        codex <==> c,
        !available ==> !both && !codex,
{
}

/// Copilot's, Cursor's and Antigravity's files count as installed where the helper is there and
/// every event has a handler that runs it; Antigravity's not where its definition is switched off.
pub proof fn other_files_are_installed_event_by_event(
    available: bool,
    content: Option<&str>,
    copilot: bool,
    cursor: bool,
    antigravity: bool,
    i: int,
)
    requires
        call_ensures(copilot_hooks_installed, (available, content), copilot),
        call_ensures(cursor_hooks_installed, (available, content), cursor),
        call_ensures(antigravity_hooks_installed, (available, content), antigravity),
    ensures
        !available || content is None ==> !copilot && !cursor && !antigravity,
        content matches Some(text) ==> (json::parse_outcome(text@) is Err ==> !copilot && !cursor
            && !antigravity),
        copilot && 0 <= i < events::copilot_events().len() ==> {
            let hooks = json::member(json::parse_outcome(content->0@)->Ok_0, "hooks"@);
            let event = events::copilot_events()[i];
            hooks is Some && (json::list_under(hooks->0, event) matches Some(items) && one_reports(
                items,
                "bash"@,
                event,
            ))
        },
        cursor && 0 <= i < events::cursor_events().len() ==> {
            let hooks = json::member(json::parse_outcome(content->0@)->Ok_0, "hooks"@);
            let event = events::cursor_events()[i];
            hooks is Some && (json::list_under(hooks->0, event) matches Some(items) && one_reports(
                items,
                "command"@,
                event,
            ))
        },
        antigravity ==> {
            let definition = json::member(
                json::parse_outcome(content->0@)->Ok_0,
                "smelt-status-notifications"@,
            );
            definition is Some && json::flag_under(definition->0, "enabled"@) != Some(false)
        },
        antigravity && 0 <= i < events::antigravity_events().len() ==> {
            let definition = json::member(
                json::parse_outcome(content->0@)->Ok_0,
                "smelt-status-notifications"@,
            );
            let event = events::antigravity_events()[i];
            json::list_under(definition->0, event) matches Some(items) && if event
                == "PostToolUse"@ {
                one_group_reports(items, event, false)
            } else {
                one_reports(items, "command"@, event)
            }
        },
{
    if available && content is Some && json::parse_outcome(content->0@) is Ok {
        let root = json::parse_outcome(content->0@)->Ok_0;
        if copilot && 0 <= i < events::copilot_events().len() {
            let event = events::copilot_events()[i];
            let hooks = json::member(root, "hooks"@)->0->Object_0;
            lemma_one_reports(dialect::list_of(hooks, event), event);
            assert(dialect::list_reports(
                dialect::list_of(hooks, event),
                Dialect::Copilot,
                event,
            ));
            assert(dialect::list_of(hooks, event).len() > 0);
        }
        if cursor && 0 <= i < events::cursor_events().len() {
            let event = events::cursor_events()[i];
            let hooks = json::member(root, "hooks"@)->0->Object_0;
            lemma_one_reports(dialect::list_of(hooks, event), event);
            assert(dialect::list_reports(dialect::list_of(hooks, event), Dialect::Cursor, event));
            assert(dialect::list_of(hooks, event).len() > 0);
        }
        if antigravity && 0 <= i < events::antigravity_events().len() {
            let event = events::antigravity_events()[i];
            let definition = json::member(root, antigravity::definition_name())->0;
            assert(antigravity::event_installed(definition, event));
            let items = json::list_under(definition, event)->0;
            lemma_one_reports(items, event);
            lemma_one_group_reports(items, event);
        }
    }
}

/// Kiro's file counts as installed where every event has a hook that is triggered by it, is not
/// switched off, and runs the helper for it.
pub proof fn kiro_is_installed_event_by_event(
    available: bool,
    content: Option<&str>,
    r: bool,
    i: int,
)
    requires
        call_ensures(kiro_hooks_installed, (available, content), r),
    ensures
        !available || content is None ==> !r,
        r && 0 <= i < events::kiro_events().len() ==> {
            let event = events::kiro_events()[i];
            json::list_under(json::parse_outcome(content->0@)->Ok_0, "hooks"@) matches Some(items)
                && exists|k: int|
                0 <= k < items.len() && json::text_under(#[trigger] items[k], "trigger"@) == Some(
                    event,
                ) && json::flag_under(items[k], "enabled"@) != Some(false) && (json::member(
                    items[k],
                    "action"@,
                ) matches Some(action) && (json::text_under(action, "command"@) matches Some(
                    command,
                ) && shell::runs_notify(command) && text::contains_text(
                    command,
                    "SMELT_HOOK_EVENT="@ + event,
                )))
        },
{
    if r && 0 <= i < events::kiro_events().len() {
        let root = json::parse_outcome(content->0@)->Ok_0;
        let event = events::kiro_events()[i];
        assert(kiro::event_installed(root, event));
        let items = json::list_under(root, "hooks"@)->0;
        let k = choose|k: int| 0 <= k < items.len() && kiro::hook_reports(
            #[trigger] items[k],
            event,
        );
        assert(json::text_under(items[k], "trigger"@) == Some(event));
    }
}

/// The hook is triggered by the event, is switched on, and runs the helper for it within three
/// seconds.
pub open spec fn is_kiro_hook(hook: JsonView, notify: Seq<char>, event: Seq<char>) -> bool {
    &&& json::text_under(hook, "trigger"@) == Some(event)
    &&& json::flag_under(hook, "enabled"@) == Some(true)
    &&& json::text_under(hook, "name"@) == Some("Smelt status · "@ + event)
    &&& json::text_under(hook, "description"@) == Some(
        "向 Smelt 上报 agent 状态；不参与工具权限决策"@,
    )
    &&& json::member(hook, "timeout"@) == Some(JsonView::Number("3"@))
    &&& json::member(hook, "action"@) matches Some(action)
    &&& json::text_under(action, "type"@) == Some("command"@)
    &&& json::text_under(action, "command"@) matches Some(command)
    &&& reports_by(command, notify, "kiro"@, event)
}

/// Where Kiro's hooks are installed, every event has one, and the file says which version of the
/// format it has.
pub proof fn kiro_reports_every_event(
    notify: &str,
    available: bool,
    path: Option<&str>,
    file: &HookFile,
    r: Result<String, String>,
    event: Seq<char>,
)
    requires
        call_ensures(install_kiro_hooks, (notify, available, path, file), r),
        r is Ok,
        seq!["SessionStart"@, "UserPromptSubmit"@, "PreToolUse"@, "PostToolUse"@, "Stop"@].contains(
            event,
        ),
    ensures
        available,
        json::parse_outcome(r->Ok_0@) is Ok,
        json::text_under(json::parse_outcome(r->Ok_0@)->Ok_0, "version"@) == Some("v1"@),
        json::list_under(json::parse_outcome(r->Ok_0@)->Ok_0, "hooks"@) matches Some(items)
            && exists|k: int|
            0 <= k < items.len() && is_kiro_hook(#[trigger] items[k], notify@, event),
{
    let names = events::kiro_events();
    let i = choose|i: int| 0 <= i < names.len() && names[i] == event;
    let place = path->0@;
    let before = document::document_in(
        file.view(),
        document::invalid_provider_json(place, "Kiro"@),
    )->Ok_0;
    let root = kiro::merged(before, notify@).0;
    let back = json::parse_outcome(r->Ok_0@)->Ok_0;
    reveal_strlit("hooks");
    reveal_strlit("version");
    assert("hooks"@.len() == 5 && "version"@.len() == 7);
    let entries = kiro::versioned(kiro::removed(before)->Object_0);
    let others = kiro::hook_list(entries)->0;
    let written = json::list_under(root, "hooks"@)->0;
    let command = shell::hook_command(notify@, "kiro"@, event);
    let k = others.len() + i;
    assert(written[k] == kiro::own_hook(command, event));
    reading_back::lemma_member(root, back, "version"@, 127);
    reading_back::lemma_member(root, back, "hooks"@, 127);
    let items = json::list_under(back, "hooks"@)->0;
    let (one, other) = (written[k], items[k]);
    assert(json::alike(one, other, 125));
    kiro::lemma_keys_differ();
    reading_back::lemma_member(one, other, "trigger"@, 125);
    reading_back::lemma_member(one, other, "enabled"@, 125);
    reading_back::lemma_member(one, other, "name"@, 125);
    reading_back::lemma_member(one, other, "description"@, 125);
    reading_back::lemma_member(one, other, "timeout"@, 125);
    reading_back::lemma_member(one, other, "action"@, 125);
    lemma_three();
    assert(dialect::hook_timeout() == JsonView::Number(text::decimal(3u64 as nat)));
    let action = json::member(one, "action"@)->0;
    let read = json::member(other, "action"@)->0;
    reading_back::lemma_member(action, read, "type"@, 124);
    reading_back::lemma_member(action, read, "command"@, 124);
    lemma_command(notify@, "kiro"@, event);
    assert(is_kiro_hook(items[k], notify@, event));
}

/// The plugin for OpenCode begins with Smelt's mark, and holds the path of the helper.
pub proof fn the_plugin_is_marked(notify: &str, r: String)
    requires
        call_ensures(opencode_plugin_source, (notify,), r),
    ensures
        "// Managed by Smelt agent notifications v1."@.len() <= r@.len(),
        r@.take("// Managed by Smelt agent notifications v1."@.len() as int)
            == "// Managed by Smelt agent notifications v1."@,
        text::contains_text(r@, json::pretty_text(JsonView::String(notify@))),
{
    let marker = "// Managed by Smelt agent notifications v1."@;
    let front = marker + "\nconst SMELT_NOTIFY = "@;
    let literal = json::pretty_text(JsonView::String(notify@));
    let at = front.len() as int;
    assert(r@.subrange(at, at + literal.len()) =~= literal);
    assert(text::stands_at(r@, literal, at));
    assert(r@.take(marker.len() as int) =~= marker);
}

/// The text begins with Smelt's mark.
pub open spec fn is_marked(content: Seq<char>) -> bool {
    let marker = "// Managed by Smelt agent notifications v1."@;
    marker.len() <= content.len() && content.take(marker.len() as int) == marker
}

/// A plugin of others under the same name is neither overwritten nor removed; Smelt's own is
/// replaced by the current one, and removed.
pub proof fn plugins_of_others_stay(
    path: &str,
    file: &HookFile,
    notify: &str,
    r: Result<String, String>,
    removes: bool,
    source: String,
)
    requires
        call_ensures(install_opencode_plugin_at, (path, file, notify), r),
        call_ensures(uninstall_opencode_plugin, (Some(path), file), removes),
        call_ensures(opencode_plugin_source, (notify,), source),
    ensures
        *file matches HookFile::Text(content) ==> (!is_marked(content@) ==> (r matches Err(message)
            && message@ == path@ + " 已存在且不是 Smelt 管理的插件，请先改名后重试"@)),
        *file matches HookFile::Unreadable(reason) ==> (r matches Err(message) && message@
            == reason@),
        file is Absent ==> (r matches Ok(written) && written@ == source@),
        *file matches HookFile::Text(content) ==> (is_marked(content@) ==> (r matches Ok(written)
            && written@ == source@)),
        removes <==> (*file matches HookFile::Text(content) && is_marked(content@)),
{
}

/// The plugin is installed with the helper and a directory to put it in; it counts as installed
/// where the file is the current one.
pub proof fn the_plugin_needs_helper_and_directory(
    notify: &str,
    available: bool,
    path: &str,
    file: &HookFile,
    r: Result<String, String>,
    lost: Result<String, String>,
    at: Result<String, String>,
    content: Option<&str>,
    installed: bool,
    source: String,
    nothing: bool,
)
    requires
        call_ensures(install_opencode_plugin, (notify, available, Some(path), file), r),
        call_ensures(install_opencode_plugin, (notify, available, None, file), lost),
        call_ensures(install_opencode_plugin_at, (path, file, notify), at),
        call_ensures(opencode_plugin_installed, (available, content, notify), installed),
        call_ensures(opencode_plugin_source, (notify,), source),
        call_ensures(uninstall_opencode_plugin, (None, file), nothing),
    ensures
        !available ==> (r matches Err(message) && message@ == "找不到 "@ + notify@
            + "，请先编译安装 smelt-notify"@),
        available ==> (lost matches Err(message) && message@ == "无 home/config 目录"@),
        available ==> document::outcome(r) == document::outcome(at),
        installed <==> available && content is Some && content->0@ == source@,
        !nothing,
{
}

/// The status lists the seven integrations in order, under their names; none is installed without
/// the helper, and each is where its own check says so.
pub proof fn the_status_lists_every_integration(
    found: &HookContents,
    r: Vec<HookProviderStatus>,
    all: Vec<HookIntegration>,
    i: int,
)
    requires
        call_ensures(current_hooks_status, (found,), r),
        call_ensures(hook_integrations, (), all),
        0 <= i < r@.len(),
    ensures
        r@.len() == 7 && all@.len() == 7,
        all@ == seq![
            HookIntegration::ClaudeAndGrok,
            HookIntegration::Copilot,
            HookIntegration::Codex,
            HookIntegration::Antigravity,
            HookIntegration::Cursor,
            HookIntegration::OpenCode,
            HookIntegration::Kiro,
        ],
        r@[0].label@ == found.title@ + " / Grok"@,
        r@[1].label@ == "Copilot"@,
        r@[2].label@ == "Codex"@,
        r@[3].label@ == "Antigravity"@,
        r@[4].label@ == "Cursor"@,
        r@[5].label@ == "OpenCode"@,
        r@[6].label@ == "Kiro v3"@,
        !found.notify_available ==> !r@[i].installed,
        found.claude is None || found.grok is None ==> !r@[0].installed,
        found.copilot is None ==> !r@[1].installed,
        found.codex is None ==> !r@[2].installed,
        found.antigravity is None ==> !r@[3].installed,
        found.cursor is None ==> !r@[4].installed,
        found.opencode is None ==> !r@[5].installed,
        found.kiro is None ==> !r@[6].installed,
{
    let out = registry::status_views(r@);
    assert(out == registry::statuses(*found));
    assert(out.len() == r@.len());
    assert forall|k: int| 0 <= k < r@.len() implies #[trigger] out[k] == (
        r@[k].label@,
        r@[k].installed,
    ) by {
    }
    assert(out[0] == out[0] && out[1] == out[1] && out[2] == out[2] && out[3] == out[3] && out[4]
        == out[4] && out[5] == out[5] && out[6] == out[6]);
    assert(out[i] == (r@[i].label@, r@[i].installed));
}

/// The status agrees with the checks of the agents.
pub proof fn the_status_agrees_with_the_checks(
    found: &HookContents,
    r: Vec<HookProviderStatus>,
    first: &str,
    second: &str,
    a: bool,
    b: bool,
    c: bool,
    d: bool,
    e: bool,
    g: bool,
)
    requires
        call_ensures(current_hooks_status, (found,), r),
        call_ensures(claude_hooks_installed, (found.notify_available, Some(first), Some(second)), a),
        call_ensures(copilot_hooks_installed, (found.notify_available, Some(first)), b),
        call_ensures(codex_hooks_installed, (found.notify_available, Some(first)), c),
        call_ensures(antigravity_hooks_installed, (found.notify_available, Some(first)), d),
        call_ensures(cursor_hooks_installed, (found.notify_available, Some(first)), e),
        call_ensures(kiro_hooks_installed, (found.notify_available, Some(first)), g),
    ensures
        r@.len() == 7,
        found.claude is Some && (found.claude->0)@ == first@ && found.grok is Some && (
        found.grok->0)@ == second@ ==> r@[0].installed == a,
        found.copilot is Some && (found.copilot->0)@ == first@ ==> r@[1].installed == b,
        found.codex is Some && (found.codex->0)@ == first@ ==> r@[2].installed == c,
        found.antigravity is Some && (found.antigravity->0)@ == first@ ==> r@[3].installed == d,
        found.cursor is Some && (found.cursor->0)@ == first@ ==> r@[4].installed == e,
        found.kiro is Some && (found.kiro->0)@ == first@ ==> r@[6].installed == g,
{
    let out = registry::status_views(r@);
    assert(out == registry::statuses(*found));
    assert(out.len() == r@.len());
    assert forall|k: int| 0 <= k < r@.len() implies #[trigger] out[k] == (
        r@[k].label@,
        r@[k].installed,
    ) by {
    }
    assert(out[0] == out[0] && out[1] == out[1] && out[2] == out[2] && out[3] == out[3] && out[4]
        == out[4] && out[6] == out[6]);
}

/// A status is remembered for five seconds: within them it is given again and nothing is looked
/// at; after them, and once it is forgotten, a look is needed.
pub proof fn statuses_last_five_seconds(
    cache: &mut HookStatusCache,
    now: u64,
    scanned: Option<&HookContents>,
    r: Option<Vec<HookProviderStatus>>,
    forgotten: &mut HookStatusCache,
)
    requires
        call_ensures(hooks_installed_status, (cache, now, scanned), r),
        call_ensures(invalidate_hooks_cache, (forgotten,), ()),
    ensures
        old(cache).seen matches Some(seen) ==> (now < seen.0 + 5000 ==> *final(cache) == *old(cache)
            && r is Some && (r->0)@ == seen.1@),
        old(cache).seen matches Some(seen) ==> (now >= seen.0 + 5000 ==> (r is Some <==> scanned
            is Some)),
        old(cache).seen is None ==> (r is Some <==> scanned is Some),
        (old(cache).seen is None || (old(cache).seen matches Some(seen) && now >= seen.0 + 5000))
            && scanned is Some ==> final(cache).seen is Some && (final(cache).seen->0).0 == now && (
        final(cache).seen->0).1@ == (r->0)@ && (r->0)@.len() == 7,
        r is None ==> *final(cache) == *old(cache),
        final(forgotten).seen is None,
{
    if r is Some {
        assert(registry::status_views((r->0)@).len() == (r->0)@.len());
    }
}

proof fn lemma_complaints(
    title: Seq<char>,
    results: Seq<Result<(), String>>,
    count: nat,
    i: int,
)
    requires
        0 <= i < count <= results.len(),
    ensures
        results[i] matches Err(error) ==> registry::complaints(title, results, count).contains(
            registry::label_of(registry::integrations()[i], title) + ": "@ + error@,
        ),
    decreases count,
{
    let before = registry::complaints(title, results, (count - 1) as nat);
    let all = registry::complaints(title, results, count);
    if i < count - 1 {
        lemma_complaints(title, results, (count - 1) as nat, i);
        match results[i] {
            Err(error) => {
                let wanted = registry::label_of(registry::integrations()[i], title) + ": "@
                    + error@;
                let k = choose|k: int| 0 <= k < before.len() && before[k] == wanted;
                assert(all[k] == wanted);
            },
            _ => {},
        }
    } else {
        match results[i] {
            Err(error) => {
                assert(all[all.len() - 1] == registry::label_of(
                    registry::integrations()[i],
                    title,
                ) + ": "@ + error@);
            },
            _ => {},
        }
    }
}

proof fn lemma_no_complaints(title: Seq<char>, results: Seq<Result<(), String>>, count: nat)
    requires
        count <= results.len(),
        forall|i: int| 0 <= i < count ==> (#[trigger] results[i]) is Ok,
    ensures
        registry::complaints(title, results, count).len() == 0,
    decreases count,
{
    if count > 0 {
        lemma_no_complaints(title, results, (count - 1) as nat);
    }
}

proof fn lemma_part_of_joined(items: Seq<Seq<char>>, separator: Seq<char>, i: int)
    requires
        0 <= i < items.len(),
    ensures
        text::contains_text(text::joined(items, separator), items[i]),
    decreases items.len(),
{
    let all = text::joined(items, separator);
    if items.len() == 1 {
        assert(all.subrange(0, items[0].len() as int) =~= items[0]);
        assert(text::stands_at(all, items[i], 0));
    } else {
        let front = text::joined(items.drop_last(), separator);
        if i < items.len() - 1 {
            lemma_part_of_joined(items.drop_last(), separator, i);
            let at = choose|at: int| text::stands_at(front, items[i], at);
            assert(all.subrange(at, at + items[i].len()) =~= front.subrange(
                at,
                at + items[i].len(),
            ));
            assert(text::stands_at(all, items[i], at));
        } else {
            let at = (front + separator).len() as int;
            assert(all.subrange(at, at + items[i].len()) =~= items[i]);
            assert(text::stands_at(all, items[i], at));
        }
    }
}

/// All went well where each did; otherwise every one that failed is named, with its reason.
pub proof fn every_failure_is_named(
    title: &str,
    results: &Vec<Result<(), String>>,
    r: Result<(), String>,
    removed: Result<(), String>,
    i: int,
)
    requires
        results@.len() == 7,
        call_ensures(run_all_hook_operations, (title, results), r),
        call_ensures(uninstall_agent_hooks, (title, results), removed),
        0 <= i < 7,
    ensures
        r is Ok <==> (forall|k: int| 0 <= k < 7 ==> (#[trigger] results@[k]) is Ok),
        results@[i] matches Err(error) ==> (r matches Err(message) && text::contains_text(
            message@,
            (if i == 0 {
                title@ + " / Grok"@
            } else if i == 1 {
                "Copilot"@
            } else if i == 2 {
                "Codex"@
            } else if i == 3 {
                "Antigravity"@
            } else if i == 4 {
                "Cursor"@
            } else if i == 5 {
                "OpenCode"@
            } else {
                "Kiro v3"@
            }) + ": "@ + error@,
        )),
        document::failure(removed) == document::failure(r),
{
    assert(registry::integrations().len() == 7);
    let all = registry::complaints(title@, results@, 7);
    assert(document::failure(r) is None <==> r is Ok);
    if forall|k: int| 0 <= k < 7 ==> (#[trigger] results@[k]) is Ok {
        lemma_no_complaints(title@, results@, 7);
    } else {
        let k = choose|k: int| 0 <= k < 7 && !((#[trigger] results@[k]) is Ok);
        lemma_complaints(title@, results@, 7, k);
        assert(all.len() > 0);
    }
    match results@[i] {
        Err(error) => {
            lemma_complaints(title@, results@, 7, i);
            let wanted = registry::label_of(registry::integrations()[i], title@) + ": "@ + error@;
            let k = choose|k: int| 0 <= k < all.len() && all[k] == wanted;
            lemma_part_of_joined(all, "；"@, k);
        },
        _ => {},
    }
}

/// Where the helper is missing and could not be brought, nothing is installed and that is said;
/// otherwise all integrations are worked on, and their failures are told.
pub proof fn installing_starts_with_the_helper(
    title: &str,
    available: bool,
    synced: Result<(), String>,
    list: Vec<HookIntegration>,
    results: &Vec<Result<(), String>>,
    r: Result<(), String>,
    all: Result<(), String>,
)
    requires
        call_ensures(integrations_to_install, (available, &synced), list),
        results@.len() == list@.len(),
        call_ensures(install_agent_hooks, (title, available, synced, results), r),
        results@.len() == 7 ==> call_ensures(run_all_hook_operations, (title, results), all),
    ensures
        !available && synced is Err ==> list@.len() == 0 && (r matches Err(message) && message@
            == "准备 smelt-notify 失败："@ + (synced->Err_0)@),
        available || synced is Ok ==> list@.len() == 7 && document::failure(r)
            == document::failure(all),
{
}

/// Whether Codex trusts its hooks decides whether their installation went well, and a refusal is
/// told.
pub proof fn trust_decides(attempt: TrustAttempt, r: Result<(), String>)
    requires
        call_ensures(codex_trust_outcome, (attempt,), r),
    ensures
        r is Ok <==> attempt is Granted,
        attempt matches TrustAttempt::NoDirectory(reason) ==> (r matches Err(message) && message@
            == "读取当前目录失败："@ + reason@),
        attempt matches TrustAttempt::Refused(reason) ==> (r matches Err(message) && message@
            == "Codex hooks 已安装，但自动信任失败："@ + reason@),
{
}

/// Where the files of the agents lie.
pub proof fn files_lie_in_their_places(
    location: HookLocation,
    name: &str,
    r: Vec<String>,
    plugin: Vec<String>,
    set: Option<String>,
    root: Option<String>,
)
    requires
        call_ensures(HookLocation::components, (location, name), r),
        call_ensures(opencode_plugin_components, (), plugin),
        call_ensures(config_root, (set,), root),
    ensures
        text::texts(r@) == match location {
            HookLocation::ClaudeSettings => seq!["."@ + name@, "settings.json"@],
            HookLocation::GrokHooks => seq![".grok"@, "hooks"@, "smelt-notifications.json"@],
            HookLocation::CopilotHooks => seq![".copilot"@, "hooks"@, "smelt.json"@],
            HookLocation::CodexHooks => seq![".codex"@, "hooks.json"@],
            HookLocation::AntigravityHooks => seq![".gemini"@, "config"@, "hooks.json"@],
            HookLocation::CursorHooks => seq![".cursor"@, "hooks.json"@],
            HookLocation::KiroHooks => seq![".kiro"@, "hooks"@, "smelt-notifications.json"@],
        },
        text::texts(plugin@) == seq!["opencode"@, "plugins"@, "smelt-notifications.js"@],
        set matches Some(given) ==> (given@.len() > 0 ==> root is Some && (root->0)@ == given@),
        set is None || (set->0)@.len() == 0 ==> root is None,
{
}

} // verus!
