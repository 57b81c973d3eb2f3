//! What installing and removing hooks promises.

use vstd::prelude::*;

use crate::agent_hooks::antigravity;
use crate::agent_hooks::antigravity::install_antigravity_hooks;
use crate::agent_hooks::claude::{
    install_claude_hooks, install_codex_hooks, CodexInstallation, HookPlan,
};
use crate::agent_hooks::copilot;
use crate::agent_hooks::copilot::install_copilot_hooks;
use crate::agent_hooks::cursor;
use crate::agent_hooks::cursor::install_cursor_hooks;
use crate::agent_hooks::dialect;
use crate::agent_hooks::dialect::Dialect;
use crate::agent_hooks::document;
use crate::agent_hooks::document::HookFile;
use crate::agent_hooks::events;
use crate::agent_hooks::hook_file;
use crate::agent_hooks::hook_file::install_hook_file;
use crate::agent_hooks::list_laws;
use crate::agent_hooks::reading_back;
use crate::json;
use crate::json::JsonView;
use crate::shell;
use crate::text;

verus! {

/// A command that sets the provider and the event, and then runs the helper.
pub open spec fn reports_by(
    command: Seq<char>,
    notify: Seq<char>,
    provider: Seq<char>,
    event: Seq<char>,
) -> bool {
    command == "SMELT_HOOK_PROVIDER="@ + provider + " SMELT_HOOK_EVENT="@ + event + " "@
        + shell::quoted(notify)
}

/// The object has these keys and no others.
pub open spec fn has_keys(document: JsonView, keys: Set<Seq<char>>) -> bool {
    document matches JsonView::Object(entries) && entries.dom() =~= keys
}

/// A shell handler that runs a command for three seconds at most.
pub open spec fn runs_command(
    handler: JsonView,
    key: Seq<char>,
    limit: Seq<char>,
    command: Seq<char>,
) -> bool {
    &&& has_keys(handler, set!["type"@, key, limit])
    &&& json::text_under(handler, "type"@) == Some("command"@)
    &&& json::text_under(handler, key) == Some(command)
    &&& json::member(handler, limit) == Some(JsonView::Number("3"@))
}

/// A group of one handler, whose empty matcher lets it run for every tool.
pub open spec fn is_open_group(group: JsonView, handler: JsonView) -> bool {
    &&& has_keys(group, set!["matcher"@, "hooks"@])
    &&& json::text_under(group, "matcher"@) == Some(""@)
    &&& json::list_under(group, "hooks"@) == Some(seq![handler])
}

pub proof fn lemma_command(notify: Seq<char>, provider: Seq<char>, event: Seq<char>)
    ensures
        reports_by(shell::hook_command(notify, provider, event), notify, provider, event),
{
    reveal_strlit(" SMELT_HOOK_EVENT=");
    reveal_strlit("SMELT_HOOK_EVENT=");
    reveal_strlit(" ");
    assert(" SMELT_HOOK_EVENT="@ =~= seq![' '] + "SMELT_HOOK_EVENT="@);
    assert(" "@ =~= seq![' ']);
    let line = "SMELT_HOOK_PROVIDER="@ + provider + " SMELT_HOOK_EVENT="@ + event + " "@
        + shell::quoted(notify);
    assert(line =~= shell::hook_command(notify, provider, event));
}

pub proof fn lemma_three()
    ensures
        dialect::hook_timeout() == JsonView::Number("3"@),
{
    reveal_strlit("3");
    assert(text::decimal(3) =~= "3"@);
}

proof fn lemma_shapes(command: Seq<char>)
    ensures
        runs_command(dialect::shell_handler(command), "command"@, "timeout"@, command),
        runs_command(dialect::bash_handler(command), "bash"@, "timeoutSec"@, command),
        is_open_group(
            dialect::group_of(dialect::shell_handler(command)),
            dialect::shell_handler(command),
        ),
        has_keys(dialect::bare_command(command), set!["command"@, "timeout"@]),
        json::text_under(dialect::bare_command(command), "command"@) == Some(command),
        json::member(dialect::bare_command(command), "timeout"@) == Some(
            JsonView::Number("3"@),
        ),
{
    dialect::lemma_keys_differ();
    lemma_three();
    let handler = dialect::shell_handler(command);
    let bash = dialect::bash_handler(command);
    let group = dialect::group_of(handler);
    let bare = dialect::bare_command(command);
    assert(handler->Object_0.dom() =~= set!["type"@, "command"@, "timeout"@]);
    assert(bash->Object_0.dom() =~= set!["type"@, "bash"@, "timeoutSec"@]);
    assert(group->Object_0.dom() =~= set!["matcher"@, "hooks"@]);
    assert(bare->Object_0.dom() =~= set!["command"@, "timeout"@]);
    assert(group->Object_0["hooks"@] == JsonView::Array(seq![handler]));
}

/// The groups end in one of Smelt: it runs for every tool, and runs the helper for the event.
pub open spec fn ends_in_open_group(
    groups: Seq<JsonView>,
    notify: Seq<char>,
    provider: Seq<char>,
    event: Seq<char>,
) -> bool {
    &&& groups.len() > 0
    &&& json::list_under(groups.last(), "hooks"@) matches Some(handlers)
    &&& handlers.len() == 1
    &&& is_open_group(groups.last(), handlers[0])
    &&& json::text_under(handlers[0], "command"@) matches Some(command)
    &&& reports_by(command, notify, provider, event)
    &&& runs_command(handlers[0], "command"@, "timeout"@, command)
}

/// After a successful installation into a file of groups, the list of every event ends in a group
/// that nothing narrows, whose one handler runs the helper for that event.
pub proof fn every_event_is_reported_for_every_tool(
    notify: &str,
    available: bool,
    path: &str,
    file: &HookFile,
    events: &Vec<String>,
    provider: &str,
    r: Result<String, String>,
    event: Seq<char>,
)
    requires
        call_ensures(install_hook_file, (notify, available, path, file, events, provider), r),
        r is Ok,
        text::texts(events@).contains(event),
    ensures
        json::parse_outcome(r->Ok_0@) matches Ok(root) && json::member(root, "hooks"@) matches Some(
            lists,
        ) && json::list_under(lists, event) matches Some(groups) && ends_in_open_group(
            groups,
            notify@,
            provider@,
            event,
        ),
{
    let all = text::texts(events@);
    let before = document::document_in(file.view(), document::invalid_json(path@))->Ok_0;
    let root = hook_file::merged(before, path@, all, notify@, provider@, false).0;
    let back = json::parse_outcome(r->Ok_0@)->Ok_0;
    lemma_groups_in_both(before, root, back, path@, all, notify@, provider@, event);
}

proof fn lemma_groups_in_both(
    before: JsonView,
    root: JsonView,
    back: JsonView,
    path: Seq<char>,
    all: Seq<Seq<char>>,
    notify: Seq<char>,
    provider: Seq<char>,
    event: Seq<char>,
)
    requires
        hook_file::merged(before, path, all, notify, provider, false) == (root, None::<Seq<char>>),
        json::alike(root, back, 127),
        all.contains(event),
    ensures
        json::member(back, "hooks"@) matches Some(lists) && json::list_under(lists, event) matches Some(
            groups,
        ) && ends_in_open_group(groups, notify, provider, event),
{
    let hooks = document::section_of(before->Object_0, "hooks"@)->0;
    let command = shell::hook_command(notify, provider, event);
    list_laws::lists_end_in_own_hooks(hooks, all, Dialect::Groups, notify, provider, event);
    reading_back::lemma_member(root, back, "hooks"@, 127);
    let one = json::member(root, "hooks"@)->0;
    let other = json::member(back, "hooks"@)->0;
    reading_back::lemma_member(one, other, event, 126);
    let written = json::list_under(one, event)->0;
    let groups = json::list_under(other, event)->0;
    reading_back::lemma_last_hook(written, groups, Dialect::Groups, command, event, 124);
    lemma_shapes(command);
    lemma_command(notify, provider, event);
}

/// The text holds groups for an event that end in one of Smelt.
pub open spec fn text_reports(
    content: Seq<char>,
    notify: Seq<char>,
    provider: Seq<char>,
    event: Seq<char>,
) -> bool {
    json::parse_outcome(content) matches Ok(root) && json::member(root, "hooks"@) matches Some(lists)
        && json::list_under(lists, event) matches Some(groups) && ends_in_open_group(
        groups,
        notify,
        provider,
        event,
    )
}

/// Where the hooks of the first agent and of Grok are installed, both files are written, each for
/// its own agent, and every event is reported for every tool.
pub proof fn both_agents_report_every_event(
    name: &str,
    notify: &str,
    available: bool,
    paths: (&str, &str),
    first: &HookFile,
    grok: &HookFile,
    r: HookPlan,
    event: Seq<char>,
)
    requires
        call_ensures(
            install_claude_hooks,
            (name, notify, available, Some(paths), first, grok),
            r,
        ),
        r.outcome is Ok,
        seq![
            "SessionStart"@,
            "PreToolUse"@,
            "PostToolUse"@,
            "PostToolUseFailure"@,
            "PermissionRequest"@,
            "Notification"@,
            "UserPromptSubmit"@,
            "SubagentStart"@,
            "SubagentStop"@,
            "Stop"@,
            "StopFailure"@,
            "StopCancelled"@,
            "TeammateIdle"@,
            "SessionEnd"@,
        ].contains(event),
    ensures
        available,
        r.edits@.len() == 2,
        r.edits@[0].path@ == paths.0@,
        r.edits@[1].path@ == paths.1@,
        text_reports(r.edits@[0].content@, notify@, name@, event),
        text_reports(r.edits@[1].content@, notify@, "grok"@, event),
{
    let all = events::smelt_events();
    assert(all.contains(event));
    let one = document::document_in(first.view(), document::invalid_json(paths.0@))->Ok_0;
    let two = document::document_in(grok.view(), document::invalid_json(paths.1@))->Ok_0;
    lemma_groups_in_both(
        one,
        hook_file::merged(one, paths.0@, all, notify@, name@, false).0,
        json::parse_outcome(r.edits@[0].content@)->Ok_0,
        paths.0@,
        all,
        notify@,
        name@,
        event,
    );
    lemma_groups_in_both(
        two,
        hook_file::merged(two, paths.1@, all, notify@, "grok"@, false).0,
        json::parse_outcome(r.edits@[1].content@)->Ok_0,
        paths.1@,
        all,
        notify@,
        "grok"@,
        event,
    );
}

/// Where Codex's hooks are installed, every event is reported for every tool, and Codex is asked
/// to trust the command of each.
pub proof fn codex_reports_every_event(
    notify: &str,
    available: bool,
    path: Option<&str>,
    file: &HookFile,
    r: Result<CodexInstallation, String>,
    event: Seq<char>,
)
    requires
        call_ensures(install_codex_hooks, (notify, available, path, file), r),
        r is Ok,
        seq![
            "SessionStart"@,
            "PreToolUse"@,
            "PostToolUse"@,
            "PermissionRequest"@,
            "UserPromptSubmit"@,
            "SubagentStart"@,
            "SubagentStop"@,
            "Stop"@,
            "SessionStop"@,
            "Notification"@,
            "SessionEnd"@,
        ].contains(event),
    ensures
        available,
        text_reports((r->Ok_0).content@, notify@, "codex"@, event),
        (r->Ok_0).commands@.len() == 11,
        exists|i: int|
            0 <= i < (r->Ok_0).commands@.len() && reports_by(
                (#[trigger] (r->Ok_0).commands@[i])@,
                notify@,
                "codex"@,
                event,
            ),
{
    let all = events::codex_events();
    assert(all.contains(event));
    let place = path->0@;
    let before = document::document_in(file.view(), document::invalid_json(place))->Ok_0;
    lemma_groups_in_both(
        before,
        hook_file::merged(before, place, all, notify@, "codex"@, false).0,
        json::parse_outcome((r->Ok_0).content@)->Ok_0,
        place,
        all,
        notify@,
        "codex"@,
        event,
    );
    lemma_command(notify@, "codex"@, event);
    let i = choose|i: int| 0 <= i < all.len() && all[i] == event;
    let commands = (r->Ok_0).commands@;
    assert(text::texts(commands).len() == commands.len());
    assert(text::texts(commands)[i] == commands[i]@);
    assert(commands[i]@ == shell::hook_command(notify@, "codex"@, event));
}

/// Where Copilot's hooks are installed, the list of every event ends in a handler that runs the
/// helper with bash, and the file says which version of the format it has.
pub proof fn copilot_reports_every_event(
    notify: &str,
    available: bool,
    path: Option<&str>,
    file: &HookFile,
    r: Result<String, String>,
    event: Seq<char>,
)
    requires
        call_ensures(install_copilot_hooks, (notify, available, path, file), r),
        r is Ok,
        seq![
            "sessionStart"@,
            "sessionEnd"@,
            "userPromptSubmitted"@,
            "preToolUse"@,
            "postToolUse"@,
            "postToolUseFailure"@,
            "subagentStart"@,
            "subagentStop"@,
            "preCompact"@,
            "agentStop"@,
            "errorOccurred"@,
            "permissionRequest"@,
            "notification"@,
        ].contains(event),
    ensures
        available,
        ({
            &&& json::parse_outcome(r->Ok_0@) matches Ok(root)
            &&& json::member(root, "version"@) == Some(JsonView::Number("1"@))
            &&& json::member(root, "hooks"@) matches Some(lists)
            &&& json::list_under(lists, event) matches Some(handlers)
            &&& handlers.len() > 0
            &&& json::text_under(handlers.last(), "bash"@) matches Some(command)
            &&& reports_by(command, notify@, "copilot"@, event)
            &&& runs_command(handlers.last(), "bash"@, "timeoutSec"@, command)
        }),
{
    let all = events::copilot_events();
    assert(all.contains(event));
    let place = path->0@;
    let before = document::document_in(file.view(), document::invalid_json(place))->Ok_0;
    let root = copilot::merged(before, notify@).0;
    let back = json::parse_outcome(r->Ok_0@)->Ok_0;
    let entries = copilot::versioned(before->Object_0);
    let hooks = copilot::without_legacy(document::section_of(entries, "hooks"@)->0);
    let command = shell::hook_command(notify@, "copilot"@, event);
    list_laws::lists_end_in_own_hooks(hooks, all, Dialect::Copilot, notify@, "copilot"@, event);
    lemma_last_in_both(root, back, Dialect::Copilot, command, event);
    lemma_version(root, back);
    lemma_shapes(command);
    lemma_command(notify@, "copilot"@, event);
}

proof fn lemma_last_in_both(
    root: JsonView,
    back: JsonView,
    dialect: Dialect,
    command: Seq<char>,
    event: Seq<char>,
)
    requires
        json::alike(root, back, 127),
        json::member(root, "hooks"@) matches Some(lists) && json::list_under(lists, event) matches Some(
            items,
        ) && items.len() > 0 && items.last() == dialect::own_hook(dialect, command, event),
    ensures
        json::member(back, "hooks"@) matches Some(lists) && json::list_under(lists, event) matches Some(
            items,
        ) && items.len() > 0 && items.last() == dialect::own_hook(dialect, command, event),
{
    reading_back::lemma_member(root, back, "hooks"@, 127);
    let one = json::member(root, "hooks"@)->0;
    let other = json::member(back, "hooks"@)->0;
    reading_back::lemma_member(one, other, event, 126);
    reading_back::lemma_last_hook(
        json::list_under(one, event)->0,
        json::list_under(other, event)->0,
        dialect,
        command,
        event,
        124,
    );
}

proof fn lemma_version(root: JsonView, back: JsonView)
    requires
        json::alike(root, back, 127),
        json::member(root, "version"@) == Some(JsonView::Number(text::decimal(1))),
    ensures
        json::member(back, "version"@) == Some(JsonView::Number("1"@)),
{
    reveal_strlit("1");
    assert(text::decimal(1) =~= "1"@);
    assert(text::decimal(1) == text::decimal(1u64 as nat));
    reading_back::lemma_member(root, back, "version"@, 127);
}

proof fn lemma_hooks_is_no_version()
    ensures
        "hooks"@ != "version"@,
{
    reveal_strlit("hooks");
    reveal_strlit("version");
    assert("hooks"@.len() != "version"@.len());
}

/// Where Cursor's hooks are installed, the list of every event ends in the command that runs the
/// helper, and the file says which version of the format it has.
pub proof fn cursor_reports_every_event(
    notify: &str,
    available: bool,
    path: Option<&str>,
    file: &HookFile,
    r: Result<String, String>,
    event: Seq<char>,
)
    requires
        call_ensures(install_cursor_hooks, (notify, available, path, file), r),
        r is Ok,
        seq![
            "sessionStart"@,
            "sessionEnd"@,
            "preToolUse"@,
            "postToolUse"@,
            "postToolUseFailure"@,
            "subagentStart"@,
            "subagentStop"@,
            "beforeSubmitPrompt"@,
            "stop"@,
        ].contains(event),
    ensures
        available,
        ({
            &&& json::parse_outcome(r->Ok_0@) matches Ok(root)
            &&& json::member(root, "version"@) == Some(JsonView::Number("1"@))
            &&& json::member(root, "hooks"@) matches Some(lists)
            &&& json::list_under(lists, event) matches Some(commands)
            &&& commands.len() > 0
            &&& has_keys(commands.last(), set!["command"@, "timeout"@])
            &&& json::text_under(commands.last(), "command"@) matches Some(command)
            &&& reports_by(command, notify@, "cursor"@, event)
            &&& json::member(commands.last(), "timeout"@) == Some(JsonView::Number("3"@))
        }),
{
    let all = events::cursor_events();
    assert(all.contains(event));
    lemma_hooks_is_no_version();
    let place = path->0@;
    let before = document::document_in(
        file.view(),
        document::invalid_provider_json(place, "Cursor"@),
    )->Ok_0;
    let root = cursor::merged(before, notify@).0;
    let back = json::parse_outcome(r->Ok_0@)->Ok_0;
    let entries = cursor::versioned(cursor::removed(before)->Object_0);
    let hooks = document::section_of(entries, "hooks"@)->0;
    let command = shell::hook_command(notify@, "cursor"@, event);
    list_laws::lists_end_in_own_hooks(hooks, all, Dialect::Cursor, notify@, "cursor"@, event);
    lemma_last_in_both(root, back, Dialect::Cursor, command, event);
    lemma_version(root, back);
    lemma_shapes(command);
    lemma_command(notify@, "cursor"@, event);
}

/// Where Antigravity's hooks are installed, Smelt's definition is switched on, and the list of
/// every event ends in a handler that runs the helper: in a group that nothing narrows after a
/// tool was used, by itself otherwise.
pub proof fn antigravity_reports_every_event(
    notify: &str,
    available: bool,
    path: Option<&str>,
    file: &HookFile,
    r: Result<String, String>,
    event: Seq<char>,
)
    requires
        call_ensures(install_antigravity_hooks, (notify, available, path, file), r),
        r is Ok,
        seq!["PreInvocation"@, "PostInvocation"@, "PostToolUse"@, "Stop"@].contains(event),
    ensures
        available,
        ({
            &&& json::parse_outcome(r->Ok_0@) matches Ok(root)
            &&& json::member(root, "smelt-status-notifications"@) matches Some(definition)
            &&& json::flag_under(definition, "enabled"@) == Some(true)
            &&& json::list_under(definition, event) matches Some(items)
            &&& items.len() > 0
            &&& if event == "PostToolUse"@ {
                ends_in_open_group(items, notify@, "antigravity"@, event)
            } else {
                json::text_under(items.last(), "command"@) matches Some(command) && reports_by(
                    command,
                    notify@,
                    "antigravity"@,
                    event,
                ) && runs_command(items.last(), "command"@, "timeout"@, command)
            }
        }),
{
    let all = events::antigravity_events();
    assert(all.contains(event));
    let key = antigravity::definition_name();
    let place = path->0@;
    let before = document::document_in(file.view(), document::invalid_json(place))->Ok_0;
    let root = antigravity::merged(before, notify@).0;
    let back = json::parse_outcome(r->Ok_0@)->Ok_0;
    let hooks = antigravity::switched_on(document::section_of(before->Object_0, key)->0);
    let command = shell::hook_command(notify@, "antigravity"@, event);
    list_laws::lists_end_in_own_hooks(
        hooks,
        all,
        Dialect::Antigravity,
        notify@,
        "antigravity"@,
        event,
    );
    reveal_strlit("enabled");
    reveal_strlit("PreInvocation");
    reveal_strlit("PostInvocation");
    reveal_strlit("PostToolUse");
    reveal_strlit("Stop");
    assert("enabled"@.len() == 7);
    assert forall|i: int| 0 <= i < all.len() implies all[i] != "enabled"@ by {
        assert(all[i].len() != 7);
    }
    list_laws::in_turn_leaves_others(
        hooks,
        all,
        Dialect::Antigravity,
        notify@,
        "antigravity"@,
        "enabled"@,
    );
    reading_back::lemma_member(root, back, key, 127);
    let one = json::member(root, key)->0;
    let other = json::member(back, key)->0;
    reading_back::lemma_member(one, other, "enabled"@, 126);
    reading_back::lemma_member(one, other, event, 126);
    reading_back::lemma_last_hook(
        json::list_under(one, event)->0,
        json::list_under(other, event)->0,
        Dialect::Antigravity,
        command,
        event,
        124,
    );
    lemma_shapes(command);
    lemma_command(notify@, "antigravity"@, event);
}

} // verus!
