//! The events that Smelt subscribes to, by agent.

use vstd::prelude::*;

use crate::shell;
use crate::text;

verus! {

/// What tells the names of one table apart.
spec fn mark(name: Seq<char>) -> (nat, char, char) {
    (name.len(), name[0], name[name.len() - 1])
}

proof fn lemma_marked(names: Seq<Seq<char>>)
    requires
        forall|i: int, j: int|
            0 <= i < j < names.len() ==> mark(#[trigger] names[i]) != mark(#[trigger] names[j]),
    ensures
        names.no_duplicates(),
{
    assert forall|i: int, j: int|
        0 <= i < names.len() && 0 <= j < names.len() && i != j implies names[i] != names[j] by {
        if i < j {
            assert(mark(names[i]) != mark(names[j]));
        } else {
            assert(mark(names[j]) != mark(names[i]));
        }
    }
}

fn owned(names: &[&str]) -> (r: Vec<String>)
    ensures
        r@.len() == names@.len(),
        forall|i: int| 0 <= i < names@.len() ==> (#[trigger] r@[i])@ == names@[i]@,
{
    let mut out: Vec<String> = Vec::new();
    let mut i: usize = 0;
    while i < names.len()
        invariant
            i <= names@.len(),
            out@.len() == i,
            forall|k: int| 0 <= k < i ==> (#[trigger] out@[k])@ == names@[k]@,
        decreases names@.len() - i,
    {
        out.push(names[i].to_owned());
        i = i + 1;
    }
    out
}

/// The events of the first agent and Grok.
pub open spec fn smelt_events() -> Seq<Seq<char>> {
    seq![
        "SessionStart"@,
        "PreToolUse"@,
        "PostToolUse"@,
        "PostToolUseFailure"@,
        "PermissionRequest"@,
        "Notification"@,
        "UserPromptSubmit"@,
        "SubagentStart"@,
        "SubagentStop"@,
        "Stop"@,
        "StopFailure"@,
        "StopCancelled"@,
        "TeammateIdle"@,
        "SessionEnd"@,
    ]
}

/// The events of the first agent and Grok.
pub fn smelt_hook_events() -> (r: Vec<String>)
    ensures
        text::texts(r@) == smelt_events(),
{
    let names: Vec<String> = owned(&[
        "SessionStart",
        "PreToolUse",
        "PostToolUse",
        "PostToolUseFailure",
        "PermissionRequest",
        "Notification",
        "UserPromptSubmit",
        "SubagentStart",
        "SubagentStop",
        "Stop",
        "StopFailure",
        "StopCancelled",
        "TeammateIdle",
        "SessionEnd",
    ]);
    assert(text::texts(names@) =~= smelt_events());
    names
}

/// The names of the table differ and need no quotes in a command.
pub proof fn lemma_smelt_events()
    ensures
        smelt_events().no_duplicates(),
        forall|i: int|
            0 <= i < smelt_events().len() ==> shell::all_plain(#[trigger] smelt_events()[i]),
{
    reveal_strlit("SessionStart");
    reveal_strlit("PreToolUse");
    reveal_strlit("PostToolUse");
    reveal_strlit("PostToolUseFailure");
    reveal_strlit("PermissionRequest");
    reveal_strlit("Notification");
    reveal_strlit("UserPromptSubmit");
    reveal_strlit("SubagentStart");
    reveal_strlit("SubagentStop");
    reveal_strlit("Stop");
    reveal_strlit("StopFailure");
    reveal_strlit("StopCancelled");
    reveal_strlit("TeammateIdle");
    reveal_strlit("SessionEnd");
    assert(mark("SessionStart"@) == (12nat, 'S', 't'));
    assert(mark("PreToolUse"@) == (10nat, 'P', 'e'));
    assert(mark("PostToolUse"@) == (11nat, 'P', 'e'));
    assert(mark("PostToolUseFailure"@) == (18nat, 'P', 'e'));
    assert(mark("PermissionRequest"@) == (17nat, 'P', 't'));
    assert(mark("Notification"@) == (12nat, 'N', 'n'));
    assert(mark("UserPromptSubmit"@) == (16nat, 'U', 't'));
    assert(mark("SubagentStart"@) == (13nat, 'S', 't'));
    assert(mark("SubagentStop"@) == (12nat, 'S', 'p'));
    assert(mark("Stop"@) == (4nat, 'S', 'p'));
    assert(mark("StopFailure"@) == (11nat, 'S', 'e'));
    assert(mark("StopCancelled"@) == (13nat, 'S', 'd'));
    assert(mark("TeammateIdle"@) == (12nat, 'T', 'e'));
    assert(mark("SessionEnd"@) == (10nat, 'S', 'd'));
    assert(shell::all_plain("SessionStart"@));
    assert(shell::all_plain("PreToolUse"@));
    assert(shell::all_plain("PostToolUse"@));
    assert(shell::all_plain("PostToolUseFailure"@));
    assert(shell::all_plain("PermissionRequest"@));
    assert(shell::all_plain("Notification"@));
    assert(shell::all_plain("UserPromptSubmit"@));
    assert(shell::all_plain("SubagentStart"@));
    assert(shell::all_plain("SubagentStop"@));
    assert(shell::all_plain("Stop"@));
    assert(shell::all_plain("StopFailure"@));
    assert(shell::all_plain("StopCancelled"@));
    assert(shell::all_plain("TeammateIdle"@));
    assert(shell::all_plain("SessionEnd"@));
    lemma_marked(smelt_events());
}

/// The events of Codex.
pub open spec fn codex_events() -> Seq<Seq<char>> {
    seq![
        "SessionStart"@,
        "PreToolUse"@,
        "PostToolUse"@,
        "PermissionRequest"@,
        "UserPromptSubmit"@,
        "SubagentStart"@,
        "SubagentStop"@,
        "Stop"@,
        "SessionStop"@,
        "Notification"@,
        "SessionEnd"@,
    ]
}

/// The events of Codex.
pub fn codex_hook_events() -> (r: Vec<String>)
    ensures
        text::texts(r@) == codex_events(),
{
    let names: Vec<String> = owned(&[
        "SessionStart",
        "PreToolUse",
        "PostToolUse",
        "PermissionRequest",
        "UserPromptSubmit",
        "SubagentStart",
        "SubagentStop",
        "Stop",
        "SessionStop",
        "Notification",
        "SessionEnd",
    ]);
    assert(text::texts(names@) =~= codex_events());
    names
}

/// The names of the table differ and need no quotes in a command.
pub proof fn lemma_codex_events()
    ensures
        codex_events().no_duplicates(),
        forall|i: int|
            0 <= i < codex_events().len() ==> shell::all_plain(#[trigger] codex_events()[i]),
{
    reveal_strlit("SessionStart");
    reveal_strlit("PreToolUse");
    reveal_strlit("PostToolUse");
    reveal_strlit("PermissionRequest");
    reveal_strlit("UserPromptSubmit");
    reveal_strlit("SubagentStart");
    reveal_strlit("SubagentStop");
    reveal_strlit("Stop");
    reveal_strlit("SessionStop");
    reveal_strlit("Notification");
    reveal_strlit("SessionEnd");
    assert(mark("SessionStart"@) == (12nat, 'S', 't'));
    assert(mark("PreToolUse"@) == (10nat, 'P', 'e'));
    assert(mark("PostToolUse"@) == (11nat, 'P', 'e'));
    assert(mark("PermissionRequest"@) == (17nat, 'P', 't'));
    assert(mark("UserPromptSubmit"@) == (16nat, 'U', 't'));
    assert(mark("SubagentStart"@) == (13nat, 'S', 't'));
    assert(mark("SubagentStop"@) == (12nat, 'S', 'p'));
    assert(mark("Stop"@) == (4nat, 'S', 'p'));
    assert(mark("SessionStop"@) == (11nat, 'S', 'p'));
    assert(mark("Notification"@) == (12nat, 'N', 'n'));
    assert(mark("SessionEnd"@) == (10nat, 'S', 'd'));
    assert(shell::all_plain("SessionStart"@));
    assert(shell::all_plain("PreToolUse"@));
    assert(shell::all_plain("PostToolUse"@));
    assert(shell::all_plain("PermissionRequest"@));
    assert(shell::all_plain("UserPromptSubmit"@));
    assert(shell::all_plain("SubagentStart"@));
    assert(shell::all_plain("SubagentStop"@));
    assert(shell::all_plain("Stop"@));
    assert(shell::all_plain("SessionStop"@));
    assert(shell::all_plain("Notification"@));
    assert(shell::all_plain("SessionEnd"@));
    lemma_marked(codex_events());
}

/// The events of Copilot.
pub open spec fn copilot_events() -> Seq<Seq<char>> {
    seq![
        "sessionStart"@,
        "sessionEnd"@,
        "userPromptSubmitted"@,
        "preToolUse"@,
        "postToolUse"@,
        "postToolUseFailure"@,
        "subagentStart"@,
        "subagentStop"@,
        "preCompact"@,
        "agentStop"@,
        "errorOccurred"@,
        "permissionRequest"@,
        "notification"@,
    ]
}

/// The events of Copilot.
pub fn copilot_hook_events() -> (r: Vec<String>)
    ensures
        text::texts(r@) == copilot_events(),
{
    let names: Vec<String> = owned(&[
        "sessionStart",
        "sessionEnd",
        "userPromptSubmitted",
        "preToolUse",
        "postToolUse",
        "postToolUseFailure",
        "subagentStart",
        "subagentStop",
        "preCompact",
        "agentStop",
        "errorOccurred",
        "permissionRequest",
        "notification",
    ]);
    assert(text::texts(names@) =~= copilot_events());
    names
}

/// The names of the table differ and need no quotes in a command.
pub proof fn lemma_copilot_events()
    ensures
        copilot_events().no_duplicates(),
        forall|i: int|
            0 <= i < copilot_events().len() ==> shell::all_plain(#[trigger] copilot_events()[i]),
{
    reveal_strlit("sessionStart");
    reveal_strlit("sessionEnd");
    reveal_strlit("userPromptSubmitted");
    reveal_strlit("preToolUse");
    reveal_strlit("postToolUse");
    reveal_strlit("postToolUseFailure");
    reveal_strlit("subagentStart");
    reveal_strlit("subagentStop");
    reveal_strlit("preCompact");
    reveal_strlit("agentStop");
    reveal_strlit("errorOccurred");
    reveal_strlit("permissionRequest");
    reveal_strlit("notification");
    assert(mark("sessionStart"@) == (12nat, 's', 't'));
    assert(mark("sessionEnd"@) == (10nat, 's', 'd'));
    assert(mark("userPromptSubmitted"@) == (19nat, 'u', 'd'));
    assert(mark("preToolUse"@) == (10nat, 'p', 'e'));
    assert(mark("postToolUse"@) == (11nat, 'p', 'e'));
    assert(mark("postToolUseFailure"@) == (18nat, 'p', 'e'));
    assert(mark("subagentStart"@) == (13nat, 's', 't'));
    assert(mark("subagentStop"@) == (12nat, 's', 'p'));
    assert(mark("preCompact"@) == (10nat, 'p', 't'));
    assert(mark("agentStop"@) == (9nat, 'a', 'p'));
    assert(mark("errorOccurred"@) == (13nat, 'e', 'd'));
    assert(mark("permissionRequest"@) == (17nat, 'p', 't'));
    assert(mark("notification"@) == (12nat, 'n', 'n'));
    assert(shell::all_plain("sessionStart"@));
    assert(shell::all_plain("sessionEnd"@));
    assert(shell::all_plain("userPromptSubmitted"@));
    assert(shell::all_plain("preToolUse"@));
    assert(shell::all_plain("postToolUse"@));
    assert(shell::all_plain("postToolUseFailure"@));
    assert(shell::all_plain("subagentStart"@));
    assert(shell::all_plain("subagentStop"@));
    assert(shell::all_plain("preCompact"@));
    assert(shell::all_plain("agentStop"@));
    assert(shell::all_plain("errorOccurred"@));
    assert(shell::all_plain("permissionRequest"@));
    assert(shell::all_plain("notification"@));
    lemma_marked(copilot_events());
}

/// The events of earlier releases of Copilot.
pub open spec fn copilot_legacy_events() -> Seq<Seq<char>> {
    seq![
        "SessionStart"@,
        "SessionEnd"@,
        "UserPromptSubmit"@,
        "PreToolUse"@,
        "PostToolUse"@,
        "PostToolUseFailure"@,
        "SubagentStart"@,
        "subagentStart"@,
        "SubagentStop"@,
        "PreCompact"@,
        "Stop"@,
        "ErrorOccurred"@,
        "PermissionRequest"@,
        "Notification"@,
    ]
}

/// The events of earlier releases of Copilot.
pub fn copilot_legacy_hook_events() -> (r: Vec<String>)
    ensures
        text::texts(r@) == copilot_legacy_events(),
{
    let names: Vec<String> = owned(&[
        "SessionStart",
        "SessionEnd",
        "UserPromptSubmit",
        "PreToolUse",
        "PostToolUse",
        "PostToolUseFailure",
        "SubagentStart",
        "subagentStart",
        "SubagentStop",
        "PreCompact",
        "Stop",
        "ErrorOccurred",
        "PermissionRequest",
        "Notification",
    ]);
    assert(text::texts(names@) =~= copilot_legacy_events());
    names
}

/// The names of the table differ and need no quotes in a command.
pub proof fn lemma_copilot_legacy_events()
    ensures
        copilot_legacy_events().no_duplicates(),
        forall|i: int|
            0 <= i < copilot_legacy_events().len() ==> shell::all_plain(#[trigger] copilot_legacy_events()[i]),
{
    reveal_strlit("SessionStart");
    reveal_strlit("SessionEnd");
    reveal_strlit("UserPromptSubmit");
    reveal_strlit("PreToolUse");
    reveal_strlit("PostToolUse");
    reveal_strlit("PostToolUseFailure");
    reveal_strlit("SubagentStart");
    reveal_strlit("subagentStart");
    reveal_strlit("SubagentStop");
    reveal_strlit("PreCompact");
    reveal_strlit("Stop");
    reveal_strlit("ErrorOccurred");
    reveal_strlit("PermissionRequest");
    reveal_strlit("Notification");
    assert(mark("SessionStart"@) == (12nat, 'S', 't'));
    assert(mark("SessionEnd"@) == (10nat, 'S', 'd'));
    assert(mark("UserPromptSubmit"@) == (16nat, 'U', 't'));
    assert(mark("PreToolUse"@) == (10nat, 'P', 'e'));
    assert(mark("PostToolUse"@) == (11nat, 'P', 'e'));
    assert(mark("PostToolUseFailure"@) == (18nat, 'P', 'e'));
    assert(mark("SubagentStart"@) == (13nat, 'S', 't'));
    assert(mark("subagentStart"@) == (13nat, 's', 't'));
    assert(mark("SubagentStop"@) == (12nat, 'S', 'p'));
    assert(mark("PreCompact"@) == (10nat, 'P', 't'));
    assert(mark("Stop"@) == (4nat, 'S', 'p'));
    assert(mark("ErrorOccurred"@) == (13nat, 'E', 'd'));
    assert(mark("PermissionRequest"@) == (17nat, 'P', 't'));
    assert(mark("Notification"@) == (12nat, 'N', 'n'));
    assert(shell::all_plain("SessionStart"@));
    assert(shell::all_plain("SessionEnd"@));
    assert(shell::all_plain("UserPromptSubmit"@));
    assert(shell::all_plain("PreToolUse"@));
    assert(shell::all_plain("PostToolUse"@));
    assert(shell::all_plain("PostToolUseFailure"@));
    assert(shell::all_plain("SubagentStart"@));
    assert(shell::all_plain("subagentStart"@));
    assert(shell::all_plain("SubagentStop"@));
    assert(shell::all_plain("PreCompact"@));
    assert(shell::all_plain("Stop"@));
    assert(shell::all_plain("ErrorOccurred"@));
    assert(shell::all_plain("PermissionRequest"@));
    assert(shell::all_plain("Notification"@));
    lemma_marked(copilot_legacy_events());
}

/// The events of Antigravity; none of them takes part in permission decisions.
pub open spec fn antigravity_events() -> Seq<Seq<char>> {
    seq![
        "PreInvocation"@,
        "PostInvocation"@,
        "PostToolUse"@,
        "Stop"@,
    ]
}

/// The events of Antigravity; none of them takes part in permission decisions.
pub fn antigravity_hook_events() -> (r: Vec<String>)
    ensures
        text::texts(r@) == antigravity_events(),
{
    let names: Vec<String> = owned(&[
        "PreInvocation",
        "PostInvocation",
        "PostToolUse",
        "Stop",
    ]);
    assert(text::texts(names@) =~= antigravity_events());
    names
}

/// The names of the table differ and need no quotes in a command.
pub proof fn lemma_antigravity_events()
    ensures
        antigravity_events().no_duplicates(),
        forall|i: int|
            0 <= i < antigravity_events().len() ==> shell::all_plain(#[trigger] antigravity_events()[i]),
{
    reveal_strlit("PreInvocation");
    reveal_strlit("PostInvocation");
    reveal_strlit("PostToolUse");
    reveal_strlit("Stop");
    assert(mark("PreInvocation"@) == (13nat, 'P', 'n'));
    assert(mark("PostInvocation"@) == (14nat, 'P', 'n'));
    assert(mark("PostToolUse"@) == (11nat, 'P', 'e'));
    assert(mark("Stop"@) == (4nat, 'S', 'p'));
    assert(shell::all_plain("PreInvocation"@));
    assert(shell::all_plain("PostInvocation"@));
    assert(shell::all_plain("PostToolUse"@));
    assert(shell::all_plain("Stop"@));
    lemma_marked(antigravity_events());
}

/// The events of Cursor.
pub open spec fn cursor_events() -> Seq<Seq<char>> {
    seq![
        "sessionStart"@,
        "sessionEnd"@,
        "preToolUse"@,
        "postToolUse"@,
        "postToolUseFailure"@,
        "subagentStart"@,
        "subagentStop"@,
        "beforeSubmitPrompt"@,
        "stop"@,
    ]
}

/// The events of Cursor.
pub fn cursor_hook_events() -> (r: Vec<String>)
    ensures
        text::texts(r@) == cursor_events(),
{
    let names: Vec<String> = owned(&[
        "sessionStart",
        "sessionEnd",
        "preToolUse",
        "postToolUse",
        "postToolUseFailure",
        "subagentStart",
        "subagentStop",
        "beforeSubmitPrompt",
        "stop",
    ]);
    assert(text::texts(names@) =~= cursor_events());
    names
}

/// The names of the table differ and need no quotes in a command.
pub proof fn lemma_cursor_events()
    ensures
        cursor_events().no_duplicates(),
        forall|i: int|
            0 <= i < cursor_events().len() ==> shell::all_plain(#[trigger] cursor_events()[i]),
{
    reveal_strlit("sessionStart");
    reveal_strlit("sessionEnd");
    reveal_strlit("preToolUse");
    reveal_strlit("postToolUse");
    reveal_strlit("postToolUseFailure");
    reveal_strlit("subagentStart");
    reveal_strlit("subagentStop");
    reveal_strlit("beforeSubmitPrompt");
    reveal_strlit("stop");
    assert(mark("sessionStart"@) == (12nat, 's', 't'));
    assert(mark("sessionEnd"@) == (10nat, 's', 'd'));
    assert(mark("preToolUse"@) == (10nat, 'p', 'e'));
    assert(mark("postToolUse"@) == (11nat, 'p', 'e'));
    assert(mark("postToolUseFailure"@) == (18nat, 'p', 'e'));
    assert(mark("subagentStart"@) == (13nat, 's', 't'));
    assert(mark("subagentStop"@) == (12nat, 's', 'p'));
    assert(mark("beforeSubmitPrompt"@) == (18nat, 'b', 't'));
    assert(mark("stop"@) == (4nat, 's', 'p'));
    assert(shell::all_plain("sessionStart"@));
    assert(shell::all_plain("sessionEnd"@));
    assert(shell::all_plain("preToolUse"@));
    assert(shell::all_plain("postToolUse"@));
    assert(shell::all_plain("postToolUseFailure"@));
    assert(shell::all_plain("subagentStart"@));
    assert(shell::all_plain("subagentStop"@));
    assert(shell::all_plain("beforeSubmitPrompt"@));
    assert(shell::all_plain("stop"@));
    lemma_marked(cursor_events());
}

/// The events of Kiro.
pub open spec fn kiro_events() -> Seq<Seq<char>> {
    seq![
        "SessionStart"@,
        "UserPromptSubmit"@,
        "PreToolUse"@,
        "PostToolUse"@,
        "Stop"@,
    ]
}

/// The events of Kiro.
pub fn kiro_hook_events() -> (r: Vec<String>)
    ensures
        text::texts(r@) == kiro_events(),
{
    let names: Vec<String> = owned(&[
        "SessionStart",
        "UserPromptSubmit",
        "PreToolUse",
        "PostToolUse",
        "Stop",
    ]);
    assert(text::texts(names@) =~= kiro_events());
    names
}

/// The names of the table differ and need no quotes in a command.
pub proof fn lemma_kiro_events()
    ensures
        kiro_events().no_duplicates(),
        forall|i: int|
            0 <= i < kiro_events().len() ==> shell::all_plain(#[trigger] kiro_events()[i]),
{
    reveal_strlit("SessionStart");
    reveal_strlit("UserPromptSubmit");
    reveal_strlit("PreToolUse");
    reveal_strlit("PostToolUse");
    reveal_strlit("Stop");
    assert(mark("SessionStart"@) == (12nat, 'S', 't'));
    assert(mark("UserPromptSubmit"@) == (16nat, 'U', 't'));
    assert(mark("PreToolUse"@) == (10nat, 'P', 'e'));
    assert(mark("PostToolUse"@) == (11nat, 'P', 'e'));
    assert(mark("Stop"@) == (4nat, 'S', 'p'));
    assert(shell::all_plain("SessionStart"@));
    assert(shell::all_plain("UserPromptSubmit"@));
    assert(shell::all_plain("PreToolUse"@));
    assert(shell::all_plain("PostToolUse"@));
    assert(shell::all_plain("Stop"@));
    lemma_marked(kiro_events());
}

} // verus!
