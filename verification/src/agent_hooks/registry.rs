//! The agents whose hooks Smelt manages: their status, and operations on all of them.

use vstd::prelude::*;

use crate::agent_hooks::antigravity;
use crate::agent_hooks::antigravity::antigravity_hooks_installed;
use crate::agent_hooks::claude::{claude_hooks_installed, codex_hooks_installed};
use crate::agent_hooks::copilot;
use crate::agent_hooks::copilot::copilot_hooks_installed;
use crate::agent_hooks::cursor;
use crate::agent_hooks::cursor::cursor_hooks_installed;
use crate::agent_hooks::document;
use crate::agent_hooks::events;
use crate::agent_hooks::hook_file;
use crate::agent_hooks::kiro;
use crate::agent_hooks::kiro::kiro_hooks_installed;
use crate::agent_hooks::opencode;
use crate::agent_hooks::opencode::opencode_plugin_installed;
use crate::text;
use crate::text::{concat, join};

verus! {

/// Whether an agent has Smelt's hooks.
#[derive(Clone, Debug, PartialEq, Eq)]
pub struct HookProviderStatus {
    pub label: String,
    pub installed: bool,
}

/// An agent whose hooks Smelt manages. Grok comes with the first one.
#[derive(Clone, Copy, Debug, PartialEq, Eq, Structural)]
pub enum HookIntegration {
    ClaudeAndGrok,
    Copilot,
    Codex,
    Antigravity,
    Cursor,
    OpenCode,
    Kiro,
}

/// All agents, in the order in which they are shown and worked through.
pub open spec fn integrations() -> Seq<HookIntegration> {
    seq![
        HookIntegration::ClaudeAndGrok,
        HookIntegration::Copilot,
        HookIntegration::Codex,
        HookIntegration::Antigravity,
        HookIntegration::Cursor,
        HookIntegration::OpenCode,
        HookIntegration::Kiro,
    ]
}

/// The name under which an agent is shown. `title` is how the first one writes its own.
pub open spec fn label_of(integration: HookIntegration, title: Seq<char>) -> Seq<char> {
    match integration {
        HookIntegration::ClaudeAndGrok => title + " / Grok"@,
        HookIntegration::Copilot => "Copilot"@,
        HookIntegration::Codex => "Codex"@,
        HookIntegration::Antigravity => "Antigravity"@,
        HookIntegration::Cursor => "Cursor"@,
        HookIntegration::OpenCode => "OpenCode"@,
        HookIntegration::Kiro => "Kiro v3"@,
    }
}

/// All agents, in the order in which they are shown and worked through.
pub fn hook_integrations() -> (r: Vec<HookIntegration>)
    ensures
        r@ == integrations(),
{
    let all: Vec<HookIntegration> =
        vec![
        HookIntegration::ClaudeAndGrok,
        HookIntegration::Copilot,
        HookIntegration::Codex,
        HookIntegration::Antigravity,
        HookIntegration::Cursor,
        HookIntegration::OpenCode,
        HookIntegration::Kiro,
    ];
    assert(all@ =~= integrations());
    all
}

impl HookIntegration {
    /// The name under which the agent is shown. `title` is how the first one writes its own.
    pub fn label(self, title: &str) -> (r: String)
        ensures
            r@ == label_of(self, title@),
    {
        match self {
            HookIntegration::ClaudeAndGrok => concat(title, " / Grok"),
            HookIntegration::Copilot => "Copilot".to_owned(),
            HookIntegration::Codex => "Codex".to_owned(),
            HookIntegration::Antigravity => "Antigravity".to_owned(),
            HookIntegration::Cursor => "Cursor".to_owned(),
            HookIntegration::OpenCode => "OpenCode".to_owned(),
            HookIntegration::Kiro => "Kiro v3".to_owned(),
        }
    }
}

/// How the first agent writes its name, the helper, and the text of every configuration file
/// that could be read.
pub struct HookContents {
    pub title: String,
    pub notify: String,
    pub notify_available: bool,
    pub claude: Option<String>,
    pub grok: Option<String>,
    pub copilot: Option<String>,
    pub codex: Option<String>,
    pub antigravity: Option<String>,
    pub cursor: Option<String>,
    pub opencode: Option<String>,
    pub kiro: Option<String>,
}

/// A text that may be missing, by its characters.
pub open spec fn content_of(content: Option<String>) -> Option<Seq<char>> {
    match content {
        Some(read) => Some(read@),
        None => None,
    }
}

/// The agent has Smelt's hooks.
pub open spec fn is_installed(integration: HookIntegration, found: HookContents) -> bool {
    let available = found.notify_available;
    match integration {
        HookIntegration::ClaudeAndGrok => hook_file::file_installed(
            available,
            content_of(found.claude),
            events::smelt_events(),
        ) && hook_file::file_installed(
            available,
            content_of(found.grok),
            events::smelt_events(),
        ),
        HookIntegration::Copilot => copilot::file_installed(available, content_of(found.copilot)),
        HookIntegration::Codex => hook_file::file_installed(
            available,
            content_of(found.codex),
            events::codex_events(),
        ),
        HookIntegration::Antigravity => antigravity::file_installed(
            available,
            content_of(found.antigravity),
        ),
        HookIntegration::Cursor => cursor::file_installed(available, content_of(found.cursor)),
        HookIntegration::OpenCode => available && content_of(found.opencode) == Some(
            opencode::plugin_source(found.notify@),
        ),
        HookIntegration::Kiro => kiro::file_installed(available, content_of(found.kiro)),
    }
}

/// The status of every agent: its label, and whether it has Smelt's hooks.
pub open spec fn statuses(found: HookContents) -> Seq<(Seq<char>, bool)> {
    integrations().map_values(
        |integration: HookIntegration| (
            label_of(integration, found.title@),
            is_installed(integration, found),
        ),
    )
}

/// A list of statuses, by the characters of the labels.
pub open spec fn status_views(list: Seq<HookProviderStatus>) -> Seq<(Seq<char>, bool)> {
    list.map_values(|status: HookProviderStatus| (status.label@, status.installed))
}

fn borrowed(content: &Option<String>) -> (r: Option<&str>)
    ensures
        document::maybe_text(r) == content_of(*content),
{
    match content {
        Some(read) => Some(read.as_str()),
        None => None,
    }
}

fn integration_installed(integration: HookIntegration, found: &HookContents) -> (r: bool)
    ensures
        r == is_installed(integration, *found),
{
    let available: bool = found.notify_available;
    match integration {
        HookIntegration::ClaudeAndGrok => claude_hooks_installed(
            available,
            borrowed(&found.claude),
            borrowed(&found.grok),
        ),
        HookIntegration::Copilot => copilot_hooks_installed(available, borrowed(&found.copilot)),
        HookIntegration::Codex => codex_hooks_installed(available, borrowed(&found.codex)),
        HookIntegration::Antigravity => antigravity_hooks_installed(
            available,
            borrowed(&found.antigravity),
        ),
        HookIntegration::Cursor => cursor_hooks_installed(available, borrowed(&found.cursor)),
        HookIntegration::OpenCode => opencode_plugin_installed(
            available,
            borrowed(&found.opencode),
            found.notify.as_str(),
        ),
        HookIntegration::Kiro => kiro_hooks_installed(available, borrowed(&found.kiro)),
    }
}

/// The status of every agent, in order.
pub fn current_hooks_status(found: &HookContents) -> (r: Vec<HookProviderStatus>)
    ensures
        status_views(r@) == statuses(*found),
{
    let all: Vec<HookIntegration> = hook_integrations();
    let mut out: Vec<HookProviderStatus> = Vec::new();
    let mut i: usize = 0;
    while i < all.len()
        invariant
            all@ == integrations(),
            i <= all.len(),
            status_views(out@) == statuses(*found).take(i as int),
        decreases all.len() - i,
    {
        let integration: HookIntegration = all[i];
        let ghost before = out@;
        out.push(
            HookProviderStatus {
                label: integration.label(found.title.as_str()),
                installed: integration_installed(integration, found),
            },
        );
        assert(status_views(out@) =~= status_views(before).push(statuses(*found)[i as int]));
        assert(statuses(*found).take(i + 1) =~= statuses(*found).take(i as int).push(
            statuses(*found)[i as int],
        ));
        i = i + 1;
    }
    assert(statuses(*found).take(i as int) =~= statuses(*found));
    out
}

fn copied_statuses(list: &Vec<HookProviderStatus>) -> (r: Vec<HookProviderStatus>)
    ensures
        r@ == list@,
{
    let mut out: Vec<HookProviderStatus> = Vec::new();
    let mut i: usize = 0;
    while i < list.len()
        invariant
            i <= list.len(),
            out@ == list@.take(i as int),
        decreases list.len() - i,
    {
        out.push(
            HookProviderStatus { label: list[i].label.clone(), installed: list[i].installed },
        );
        assert(out@ =~= list@.take(i + 1));
        i = i + 1;
    }
    assert(list@.take(i as int) =~= list@);
    out
}

/// The status of the agents as last seen, with the time in milliseconds.
pub struct HookStatusCache {
    pub seen: Option<(u64, Vec<HookProviderStatus>)>,
}

/// How long, in milliseconds, a status stays good unless it is dropped.
pub const HOOK_STATUS_LIFETIME: u64 = 5000;

/// The status that is still good at `now`.
pub open spec fn fresh(cache: HookStatusCache, now: u64) -> Option<Seq<HookProviderStatus>> {
    match cache.seen {
        Some(seen) => if now - seen.0 < HOOK_STATUS_LIFETIME {
            Some(seen.1@)
        } else {
            None
        },
        None => None,
    }
}

impl HookStatusCache {
    /// A cache that has seen nothing.
    pub fn new() -> (r: HookStatusCache)
        ensures
            r.seen is None,
    {
        HookStatusCache { seen: None }
    }
}

/// The status of every agent. One that is still good is given again; otherwise it is taken
/// from the files in `scanned` and kept. Nothing is returned where the files have to be
/// read first.
pub fn hooks_installed_status(
    cache: &mut HookStatusCache,
    now: u64,
    scanned: Option<&HookContents>,
) -> (r: Option<Vec<HookProviderStatus>>)
    ensures
        match fresh(*old(cache), now) {
            Some(status) => *final(cache) == *old(cache) && (r matches Some(list) && list@
                == status),
            None => match scanned {
                Some(found) => {
                    &&& r is Some
                    &&& status_views((r->0)@) == statuses(*found)
                    &&& final(cache).seen matches Some(seen) && seen.0 == now && seen.1@ == (r->0)@
                },
                None => r is None && *final(cache) == *old(cache),
            },
        },
{
    match &cache.seen {
        Some((at, status)) => {
            if now < *at || now - *at < HOOK_STATUS_LIFETIME {
                let copy: Vec<HookProviderStatus> = copied_statuses(status);
                return Some(copy);
            }
        },
        None => {},
    }
    match scanned {
        None => None,
        Some(found) => {
            let status: Vec<HookProviderStatus> = current_hooks_status(found);
            let copy: Vec<HookProviderStatus> = copied_statuses(&status);
            cache.seen = Some((now, copy));
            Some(status)
        },
    }
}

/// Drops the status that was seen, so that the files are read next time.
pub fn invalidate_hooks_cache(cache: &mut HookStatusCache)
    ensures
        final(cache).seen is None,
        forall|now: u64| fresh(*final(cache), now) is None,
{
    cache.seen = None;
}

/// What went wrong with the first agents, each failure behind the label of its agent.
pub open spec fn complaints(
    title: Seq<char>,
    results: Seq<Result<(), String>>,
    count: nat,
) -> Seq<Seq<char>>
    decreases count,
{
    if count == 0 {
        seq![]
    } else {
        let before = complaints(title, results, (count - 1) as nat);
        match results[count - 1] {
            Ok(_) => before,
            Err(error) => before.push(
                label_of(integrations()[count - 1], title) + ": "@ + error@,
            ),
        }
    }
}

/// How an operation on all agents ends: well where it went well for each of them.
pub open spec fn overall(title: Seq<char>, results: Seq<Result<(), String>>) -> Option<Seq<char>> {
    let all = complaints(title, results, integrations().len());
    if all.len() == 0 {
        None
    } else {
        Some(text::joined(all, "；"@))
    }
}

/// How an operation on all agents ends, from how it ended for each of them. A failure at one
/// does not keep the others from being worked on.
pub fn run_all_hook_operations(title: &str, results: &Vec<Result<(), String>>) -> (r: Result<
    (),
    String,
>)
    requires
        results@.len() == integrations().len(),
    ensures
        document::failure(r) == overall(title@, results@),
{
    let all: Vec<HookIntegration> = hook_integrations();
    let mut errors: Vec<String> = Vec::new();
    let mut i: usize = 0;
    assert(text::texts(errors@) =~= complaints(title@, results@, 0));
    while i < results.len()
        invariant
            all@ == integrations(),
            results@.len() == integrations().len(),
            i <= results.len(),
            text::texts(errors@) == complaints(title@, results@, i as nat),
        decreases results.len() - i,
    {
        match &results[i] {
            Ok(_) => {},
            Err(error) => {
                let ghost before = errors@;
                let mut line: String = all[i].label(title);
                line.append(": ");
                line.append(error.as_str());
                errors.push(line);
                assert(text::texts(errors@) =~= text::texts(before).push(line@));
            },
        }
        i = i + 1;
    }
    assert(text::texts(errors@).len() == errors@.len());
    if errors.len() == 0 {
        Ok(())
    } else {
        Err(join(&errors, "；"))
    }
}

/// The agents to install hooks for: none where the helper was missing and could not be put in
/// place, else all of them.
pub open spec fn worked_on(available: bool, synced: Result<(), String>) -> Seq<HookIntegration> {
    if !available && synced is Err {
        seq![]
    } else {
        integrations()
    }
}

/// The agents to install hooks for, in order. `synced` is how putting the helper in place ended,
/// where it was missing. Without it no agent is worked on.
pub fn integrations_to_install(available: bool, synced: &Result<(), String>) -> (r: Vec<
    HookIntegration,
>)
    ensures
        r@ == worked_on(available, *synced),
{
    match synced {
        Err(_) if !available => Vec::new(),
        _ => hook_integrations(),
    }
}

/// How installing the hooks of all agents ends, from how it ended for each that was worked on.
pub fn install_agent_hooks(
    title: &str,
    notify_available: bool,
    synced: Result<(), String>,
    results: &Vec<Result<(), String>>,
) -> (r: Result<(), String>)
    requires
        results@.len() == worked_on(notify_available, synced).len(),
    ensures
        document::failure(r) == if !notify_available && synced is Err {
            Some("准备 smelt-notify 失败："@ + synced->Err_0@)
        } else {
            overall(title@, results@)
        },
{
    if !notify_available {
        match synced {
            Err(error) => {
                return Err(concat("准备 smelt-notify 失败：", error.as_str()));
            },
            Ok(_) => {},
        }
    }
    run_all_hook_operations(title, results)
}

/// How removing the hooks of all agents ends.
pub fn uninstall_agent_hooks(title: &str, results: &Vec<Result<(), String>>) -> (r: Result<
    (),
    String,
>)
    requires
        results@.len() == integrations().len(),
    ensures
        document::failure(r) == overall(title@, results@),
{
    run_all_hook_operations(title, results)
}

/// An operation on all agents ends well exactly where it went well for each of them.
pub proof fn overall_succeeds_iff_all_do(
    title: Seq<char>,
    results: Seq<Result<(), String>>,
    count: nat,
)
    requires
        results.len() == integrations().len(),
        count <= results.len(),
    ensures
        complaints(title, results, count).len() == 0 <==> (forall|i: int|
            0 <= i < count ==> (#[trigger] results[i]) is Ok),
        overall(title, results) is None <==> complaints(title, results, integrations().len()).len() == 0,
    decreases count,
{
    if count > 0 {
        overall_succeeds_iff_all_do(title, results, (count - 1) as nat);
        if forall|i: int| 0 <= i < count - 1 ==> (#[trigger] results[i]) is Ok {
            assert(results[count - 1] is Ok ==> forall|i: int|
                0 <= i < count ==> (#[trigger] results[i]) is Ok);
        }
    }
}

} // verus!
