//! The launch menu: entries for the agents that Smelt knows, and those of the user.

use vstd::prelude::*;

use crate::text;
use crate::text::{concat, same_text, starts_with, trim};

verus! {

/// An agent that runs in a terminal.
#[derive(Clone, Copy, Debug, PartialEq, Eq, Structural)]
pub enum TerminalAgentKind {
    Claude,
    Codex,
    Copilot,
    Grok,
    Antigravity,
    Cursor,
    OpenCode,
    Kiro,
    Pi,
    Crush,
}

/// The picture of an entry.
#[derive(Clone, Copy, Debug, PartialEq, Eq, Structural)]
pub enum LaunchIcon {
    Asterisk,
    Bot,
    Github,
    SquareTerminal,
}

/// What is known of an agent that runs in a terminal: what it is stored under, what it is called
/// in the menu, the command that starts it with full permissions, what every command of it
/// begins with, and the command that earlier releases gave it, where it was another one.
#[derive(Clone, Debug, PartialEq, Eq)]
pub struct TerminalAgent {
    pub kind: TerminalAgentKind,
    pub id: String,
    pub label: String,
    pub command: String,
    pub prefix: String,
    pub released: Option<String>,
}

/// What is known of an agent, by its characters.
pub struct AgentView {
    pub kind: TerminalAgentKind,
    pub id: Seq<char>,
    pub label: Seq<char>,
    pub command: Seq<char>,
    pub prefix: Seq<char>,
    pub released: Option<Seq<char>>,
}

impl TerminalAgent {
    /// What is known of the agent, by its characters.
    pub open spec fn view(&self) -> AgentView {
        AgentView {
            kind: self.kind,
            id: self.id@,
            label: self.label@,
            command: self.command@,
            prefix: self.prefix@,
            released: match self.released {
                Some(command) => Some(command@),
                None => None,
            },
        }
    }
}

/// What is known of agents, by its characters.
pub open spec fn agent_views(agents: Seq<TerminalAgent>) -> Seq<AgentView> {
    agents.map_values(|agent: TerminalAgent| agent.view())
}

/// No two agents are stored under the same id.
pub open spec fn ids_differ(agents: Seq<AgentView>) -> bool {
    forall|i: int, j: int|
        0 <= i < j < agents.len() ==> (#[trigger] agents[i]).id != (#[trigger] agents[j]).id
}

/// The agents that Smelt knows, in the order of the menu. The first one is called by its own
/// name: `name` is the program, and `title` how it is written.
pub open spec fn known_agents(name: Seq<char>, title: Seq<char>) -> Seq<AgentView> {
    seq![
        AgentView {
            kind: TerminalAgentKind::Claude,
            id: name,
            label: title + " Code"@,
            command: name + " --dangerously-skip-permissions"@,
            prefix: name,
            released: None,
        },
        AgentView {
            kind: TerminalAgentKind::Codex,
            id: "codex"@,
            label: "Codex"@,
            command: "codex --dangerously-bypass-approvals-and-sandbox"@,
            prefix: "codex"@,
            released: Some("codex --dangerously-bypass-approvals-and-sandbox -c 'tui.terminal_title=[\"thread-title\"]'"@),
        },
        AgentView {
            kind: TerminalAgentKind::Copilot,
            id: "copilot"@,
            label: "GitHub Copilot"@,
            command: "copilot --allow-all"@,
            prefix: "copilot"@,
            released: None,
        },
        AgentView {
            kind: TerminalAgentKind::Grok,
            id: "grok"@,
            label: "Grok"@,
            command: "grok --always-approve"@,
            prefix: "grok"@,
            released: Some("grok"@),
        },
        AgentView {
            kind: TerminalAgentKind::Antigravity,
            id: "antigravity"@,
            label: "Antigravity"@,
            command: "agy --dangerously-skip-permissions"@,
            prefix: "agy"@,
            released: Some("agy"@),
        },
        AgentView {
            kind: TerminalAgentKind::Cursor,
            id: "cursor"@,
            label: "Cursor Agent"@,
            command: "cursor-agent --force"@,
            prefix: "cursor-agent"@,
            released: None,
        },
        AgentView {
            kind: TerminalAgentKind::OpenCode,
            id: "opencode"@,
            label: "OpenCode"@,
            command: "opencode --auto"@,
            prefix: "opencode"@,
            released: None,
        },
        AgentView {
            kind: TerminalAgentKind::Kiro,
            id: "kiro"@,
            label: "Kiro"@,
            command: "kiro-cli chat --v3 --trust-all-tools"@,
            prefix: "kiro-cli"@,
            released: Some("kiro-cli chat --trust-all-tools"@),
        },
        AgentView {
            kind: TerminalAgentKind::Pi,
            id: "pi"@,
            label: "Pi"@,
            command: "pi --approve"@,
            prefix: "pi"@,
            released: Some("pi"@),
        },
        AgentView {
            kind: TerminalAgentKind::Crush,
            id: "crush"@,
            label: "Crush"@,
            command: "crush --yolo"@,
            prefix: "crush"@,
            released: None,
        },
    ]
}

fn known_agent(
    kind: TerminalAgentKind,
    id: &str,
    label: &str,
    command: &str,
    prefix: &str,
    released: Option<&str>,
) -> (r: TerminalAgent)
    ensures
        r.view() == (AgentView {
            kind,
            id: id@,
            label: label@,
            command: command@,
            prefix: prefix@,
            released: match released {
                Some(command) => Some(command@),
                None => None,
            },
        }),
{
    TerminalAgent {
        kind,
        id: id.to_owned(),
        label: label.to_owned(),
        command: command.to_owned(),
        prefix: prefix.to_owned(),
        released: match released {
            Some(command) => Some(command.to_owned()),
            None => None,
        },
    }
}

/// The agents that Smelt knows, in the order of the menu.
pub fn terminal_agents(name: &str, title: &str) -> (r: Vec<TerminalAgent>)
    ensures
        agent_views(r@) == known_agents(name@, title@),
{
    let label: String = concat(title, " Code");
    let command: String = concat(name, " --dangerously-skip-permissions");
    let mut all: Vec<TerminalAgent> = Vec::new();
    all.push(
        known_agent(
            TerminalAgentKind::Claude,
            name,
            label.as_str(),
            command.as_str(),
            name,
            None,
        ),
    );
    all.push(
        known_agent(
            TerminalAgentKind::Codex,
            "codex",
            "Codex",
            "codex --dangerously-bypass-approvals-and-sandbox",
            "codex",
            Some("codex --dangerously-bypass-approvals-and-sandbox -c 'tui.terminal_title=[\"thread-title\"]'"),
        ),
    );
    all.push(
        known_agent(
            TerminalAgentKind::Copilot,
            "copilot",
            "GitHub Copilot",
            "copilot --allow-all",
            "copilot",
            None,
        ),
    );
    all.push(
        known_agent(
            TerminalAgentKind::Grok,
            "grok",
            "Grok",
            "grok --always-approve",
            "grok",
            Some("grok"),
        ),
    );
    all.push(
        known_agent(
            TerminalAgentKind::Antigravity,
            "antigravity",
            "Antigravity",
            "agy --dangerously-skip-permissions",
            "agy",
            Some("agy"),
        ),
    );
    all.push(
        known_agent(
            TerminalAgentKind::Cursor,
            "cursor",
            "Cursor Agent",
            "cursor-agent --force",
            "cursor-agent",
            None,
        ),
    );
    all.push(
        known_agent(
            TerminalAgentKind::OpenCode,
            "opencode",
            "OpenCode",
            "opencode --auto",
            "opencode",
            None,
        ),
    );
    all.push(
        known_agent(
            TerminalAgentKind::Kiro,
            "kiro",
            "Kiro",
            "kiro-cli chat --v3 --trust-all-tools",
            "kiro-cli",
            Some("kiro-cli chat --trust-all-tools"),
        ),
    );
    all.push(
        known_agent(
            TerminalAgentKind::Pi,
            "pi",
            "Pi",
            "pi --approve",
            "pi",
            Some("pi"),
        ),
    );
    all.push(
        known_agent(
            TerminalAgentKind::Crush,
            "crush",
            "Crush",
            "crush --yolo",
            "crush",
            None,
        ),
    );
    assert(agent_views(all@) =~= known_agents(name@, title@));
    all
}

spec fn id_mark(id: Seq<char>) -> (nat, char, char) {
    (id.len(), id[0], id[1])
}

/// The agents that Smelt knows are stored under different ids, unless the first one is called
/// like another.
pub proof fn known_ids_differ(name: Seq<char>, title: Seq<char>)
    requires
        forall|i: int| 1 <= i < known_agents(name, title).len() ==> (#[trigger] known_agents(
            name,
            title,
        )[i]).id != name,
    ensures
        ids_differ(known_agents(name, title)),
{
    reveal_strlit("codex");
    reveal_strlit("copilot");
    reveal_strlit("grok");
    reveal_strlit("antigravity");
    reveal_strlit("cursor");
    reveal_strlit("opencode");
    reveal_strlit("kiro");
    reveal_strlit("pi");
    reveal_strlit("crush");
    assert(id_mark("codex"@) == (5nat, 'c', 'o'));
    assert(id_mark("copilot"@) == (7nat, 'c', 'o'));
    assert(id_mark("grok"@) == (4nat, 'g', 'r'));
    assert(id_mark("antigravity"@) == (11nat, 'a', 'n'));
    assert(id_mark("cursor"@) == (6nat, 'c', 'u'));
    assert(id_mark("opencode"@) == (8nat, 'o', 'p'));
    assert(id_mark("kiro"@) == (4nat, 'k', 'i'));
    assert(id_mark("pi"@) == (2nat, 'p', 'i'));
    assert(id_mark("crush"@) == (5nat, 'c', 'r'));
    let all = known_agents(name, title);
    assert forall|i: int, j: int| 0 <= i < j < all.len() implies (#[trigger] all[i]).id != (
    #[trigger] all[j]).id by {
        if i > 0 {
            assert(id_mark(all[i].id) != id_mark(all[j].id));
        }
    }
}

/// An entry of the launch menu.
#[derive(Clone, Debug, PartialEq, Eq)]
pub struct LaunchEntry {
    pub label: String,
    pub command: String,
    pub provider: Option<String>,
}

/// An entry of the launch menu, by its characters.
pub struct EntryView {
    pub label: Seq<char>,
    pub command: Seq<char>,
    pub provider: Option<Seq<char>>,
}

impl LaunchEntry {
    /// The entry, by its characters.
    pub open spec fn view(&self) -> EntryView {
        EntryView {
            label: self.label@,
            command: self.command@,
            provider: match self.provider {
                Some(provider) => Some(provider@),
                None => None,
            },
        }
    }
}

/// A list of entries, by their characters.
pub open spec fn entry_views(entries: Seq<LaunchEntry>) -> Seq<EntryView> {
    entries.map_values(|entry: LaunchEntry| entry.view())
}

/// The launch menu as it is stored.
#[derive(Clone, Debug, PartialEq, Eq)]
pub struct LaunchConfig {
    pub version: u32,
    pub entries: Vec<LaunchEntry>,
}

/// The version of the stored menu that is current.
pub const LAUNCH_CONFIG_VERSION: u32 = 14;

/// The entry of an agent as it comes with Smelt.
pub open spec fn builtin_entry(agent: AgentView) -> EntryView {
    EntryView {
        label: agent.label,
        command: agent.command,
        provider: Some(agent.id),
    }
}

/// The menu as it comes with Smelt.
pub open spec fn default_entries(agents: Seq<AgentView>) -> Seq<EntryView> {
    agents.map_values(|agent: AgentView| builtin_entry(agent))
}

/// The command is one that an earlier release gave the agent.
pub open spec fn is_released(command: Seq<char>, agent: AgentView) -> bool {
    agent.released == Some(text::trimmed(command))
}

/// The entry is the one of the agent: it is stored under the agent's id, or without an id and
/// with a command that Smelt gave the agent, word for word.
pub open spec fn is_entry_of(entry: EntryView, agent: AgentView) -> bool {
    entry.provider == Some(agent.id) || (entry.provider is None && (text::trimmed(
        entry.command,
    ) == agent.command || is_released(entry.command, agent)))
}

/// The first entry of the agent stands at `at`.
pub open spec fn first_entry_at(
    entries: Seq<EntryView>,
    agent: AgentView,
    at: int,
) -> bool {
    &&& 0 <= at < entries.len()
    &&& is_entry_of(entries[at], agent)
    &&& forall|i: int| 0 <= i < at ==> !is_entry_of(#[trigger] entries[i], agent)
}

/// The agent has an entry.
pub open spec fn has_entry(entries: Seq<EntryView>, agent: AgentView) -> bool {
    exists|i: int| 0 <= i < entries.len() && is_entry_of(#[trigger] entries[i], agent)
}

/// The menu with an entry for the agent: its first one, with its id, or a new one at the end.
pub open spec fn aligned_for(entries: Seq<EntryView>, agent: AgentView) -> Seq<EntryView> {
    if has_entry(entries, agent) {
        let at = choose|at: int| first_entry_at(entries, agent, at);
        entries.update(at, EntryView { provider: Some(agent.id), ..entries[at] })
    } else {
        entries.push(builtin_entry(agent))
    }
}

/// The menu with an entry for each of the first agents.
pub open spec fn aligned_up_to(agents: Seq<AgentView>, entries: Seq<EntryView>, count: int) -> Seq<EntryView>
    decreases count,
{
    if count <= 0 {
        entries
    } else {
        aligned_for(aligned_up_to(agents, entries, count - 1), agents[count - 1])
    }
}

/// The menu with an entry for every agent.
pub open spec fn aligned(agents: Seq<AgentView>, entries: Seq<EntryView>) -> Seq<EntryView> {
    aligned_up_to(agents, entries, agents.len() as int)
}

/// The agent's first entry is stored under its id.
pub open spec fn is_settled(entries: Seq<EntryView>, agent: AgentView) -> bool {
    exists|at: int| #[trigger]
        first_entry_at(entries, agent, at) && entries[at].provider == Some(agent.id)
}

proof fn lemma_first_is_unique(
    entries: Seq<EntryView>,
    agent: AgentView,
    one: int,
    two: int,
)
    requires
        first_entry_at(entries, agent, one),
        first_entry_at(entries, agent, two),
    ensures
        one == two,
{
    if one < two {
        assert(!is_entry_of(entries[one], agent));
    }
    if two < one {
        assert(!is_entry_of(entries[two], agent));
    }
}

pub proof fn lemma_first_exists(entries: Seq<EntryView>, agent: AgentView, at: int)
    requires
        0 <= at < entries.len(),
        is_entry_of(entries[at], agent),
    ensures
        exists|i: int| first_entry_at(entries, agent, i),
    decreases at,
{
    if exists|i: int| 0 <= i < at && is_entry_of(#[trigger] entries[i], agent) {
        let i = choose|i: int| 0 <= i < at && is_entry_of(#[trigger] entries[i], agent);
        lemma_first_exists(entries, agent, i);
    } else {
        assert(first_entry_at(entries, agent, at));
    }
}

proof fn lemma_aligned_for(entries: Seq<EntryView>, agent: AgentView)
    ensures
        is_settled(aligned_for(entries, agent), agent),
        is_settled(entries, agent) ==> aligned_for(entries, agent) == entries,
        !is_settled(entries, agent) ==> aligned_for(entries, agent) != entries,
{
    let after = aligned_for(entries, agent);
    if has_entry(entries, agent) {
        let found = choose|i: int| 0 <= i < entries.len() && is_entry_of(#[trigger] entries[i], agent);
        lemma_first_exists(entries, agent, found);
        let at = choose|at: int| first_entry_at(entries, agent, at);
        assert(first_entry_at(after, agent, at)) by {
            assert forall|i: int| 0 <= i < at implies !is_entry_of(#[trigger] after[i], agent) by {
                assert(after[i] == entries[i]);
            }
        }
        if is_settled(entries, agent) {
            let other = choose|other: int| #[trigger]
                first_entry_at(entries, agent, other) && entries[other].provider == Some(
                    agent.id,
                );
            lemma_first_is_unique(entries, agent, at, other);
            assert(after =~= entries);
        } else {
            assert(entries[at].provider != Some(agent.id));
            assert(after[at] != entries[at]);
        }
    } else {
        let at = entries.len() as int;
        assert(first_entry_at(after, agent, at)) by {
            assert forall|i: int| 0 <= i < at implies !is_entry_of(#[trigger] after[i], agent) by {
                assert(after[i] == entries[i]);
            }
        }
        assert(after.len() != entries.len());
        if is_settled(entries, agent) {
            let other = choose|other: int| #[trigger] first_entry_at(entries, agent, other);
            assert(is_entry_of(entries[other], agent));
        }
    }
}

proof fn lemma_settled_stays(
    entries: Seq<EntryView>,
    agent: AgentView,
    other: AgentView,
)
    requires
        is_settled(entries, agent),
        agent.id != other.id,
    ensures
        is_settled(aligned_for(entries, other), agent),
{
    let at = choose|at: int| #[trigger]
        first_entry_at(entries, agent, at) && entries[at].provider == Some(agent.id);
    let after = aligned_for(entries, other);
    if has_entry(entries, other) {
        let found = choose|i: int| 0 <= i < entries.len() && is_entry_of(#[trigger] entries[i], other);
        lemma_first_exists(entries, other, found);
        let changed = choose|at: int| first_entry_at(entries, other, at);
        assert(changed != at);
        assert forall|i: int| 0 <= i < at implies !is_entry_of(#[trigger] after[i], agent) by {
            assert(!is_entry_of(entries[i], agent));
            if i == changed {
                assert(after[i].provider == Some(other.id));
            }
        }
        assert(after[at] == entries[at]);
    } else {
        assert forall|i: int| 0 <= i < at implies !is_entry_of(#[trigger] after[i], agent) by {
            assert(after[i] == entries[i]);
        }
        assert(after[at] == entries[at]);
    }
    assert(first_entry_at(after, agent, at));
}

pub proof fn lemma_aligned_up_to(agents: Seq<AgentView>, entries: Seq<EntryView>, count: int)
    requires
        ids_differ(agents),
        0 <= count <= agents.len(),
    ensures
        forall|i: int|
            0 <= i < count ==> is_settled(
                aligned_up_to(agents, entries, count),
                #[trigger] agents[i],
            ),
    decreases count,
{
    if count > 0 {
        lemma_aligned_up_to(agents, entries, count - 1);
        let before = aligned_up_to(agents, entries, count - 1);
        let last = agents[count - 1];
        lemma_aligned_for(before, last);
        assert forall|i: int| 0 <= i < count implies is_settled(
            aligned_up_to(agents, entries, count),
            #[trigger] agents[i],
        ) by {
            if i < count - 1 {
                assert(agents[i].id != last.id);
                lemma_settled_stays(before, agents[i], last);
            }
        }
    }
}

proof fn lemma_settled_is_kept(agents: Seq<AgentView>, entries: Seq<EntryView>, count: int)
    requires
        0 <= count <= agents.len(),
        forall|i: int|
            0 <= i < agents.len() ==> is_settled(entries, #[trigger] agents[i]),
    ensures
        aligned_up_to(agents, entries, count) == entries,
    decreases count,
{
    if count > 0 {
        lemma_settled_is_kept(agents, entries, count - 1);
        lemma_aligned_for(entries, agents[count - 1]);
    }
}

/// A menu that has an entry for every agent is left as it is.
pub proof fn aligning_twice(agents: Seq<AgentView>, entries: Seq<EntryView>)
    requires
        ids_differ(agents),
    ensures
        aligned(agents, aligned(agents, entries)) == aligned(agents, entries),
{
    let count = agents.len() as int;
    lemma_aligned_up_to(agents, entries, count);
    lemma_settled_is_kept(agents, aligned(agents, entries), count);
}

/// Every agent has an entry under its id once the menu is aligned.
pub proof fn aligning_gives_every_agent_an_entry(
    agents: Seq<AgentView>,
    entries: Seq<EntryView>,
    agent: int,
)
    requires
        ids_differ(agents),
        0 <= agent < agents.len(),
    ensures
        exists|i: int|
            0 <= i < aligned(agents, entries).len() && (#[trigger] aligned(
                agents,
                entries,
            )[i]).provider == Some(agents[agent].id),
{
    lemma_aligned_up_to(agents, entries, agents.len() as int);
    let all = aligned(agents, entries);
    let at = choose|at: int| #[trigger]
        first_entry_at(all, agents[agent], at) && all[at].provider == Some(agents[agent].id);
    assert(all[at].provider == Some(agents[agent].id));
}

proof fn lemma_only_providers_change(agents: Seq<AgentView>, entries: Seq<EntryView>, count: int)
    requires
        0 <= count <= agents.len(),
    ensures
        entries.len() <= aligned_up_to(agents, entries, count).len(),
        forall|i: int|
            0 <= i < entries.len() ==> {
                let after = #[trigger] aligned_up_to(agents, entries, count)[i];
                &&& after.label == entries[i].label
                &&& after.command == entries[i].command
                &&& entries[i].provider is Some ==> after.provider == entries[i].provider
            },
    decreases count,
{
    if count > 0 {
        lemma_only_providers_change(agents, entries, count - 1);
        let before = aligned_up_to(agents, entries, count - 1);
        let agent = agents[count - 1];
        if has_entry(before, agent) {
            let found = choose|i: int|
                0 <= i < before.len() && is_entry_of(#[trigger] before[i], agent);
            lemma_first_exists(before, agent, found);
        }
        assert forall|i: int| 0 <= i < entries.len() implies {
            let after = #[trigger] aligned_up_to(agents, entries, count)[i];
            &&& after.label == entries[i].label
            &&& after.command == entries[i].command
            &&& entries[i].provider is Some ==> after.provider == entries[i].provider
        } by {
            assert(before[i].label == entries[i].label);
        }
    }
}

/// Aligning keeps every entry at its place, with its label and its command.
pub proof fn aligning_keeps_labels_and_commands(agents: Seq<AgentView>, entries: Seq<EntryView>, i: int)
    requires
        0 <= i < entries.len(),
    ensures
        i < aligned(agents, entries).len(),
        aligned(agents, entries)[i].label == entries[i].label,
        aligned(agents, entries)[i].command == entries[i].command,
        entries[i].provider is Some ==> aligned(agents, entries)[i].provider == entries[i].provider,
{
    lemma_only_providers_change(agents, entries, agents.len() as int);
    assert(aligned_up_to(agents, entries, agents.len() as int)[i].label == entries[i].label);
}

fn provider_is(provider: &Option<String>, id: &str) -> (r: bool)
    ensures
        r == (match *provider {
            Some(name) => name@ == id@,
            None => false,
        }),
{
    match provider {
        Some(name) => same_text(name.as_str(), id),
        None => false,
    }
}

/// The command that replaces one of an earlier release.
pub fn upgrade_released_quick_terminal_command(agent: &TerminalAgent, command: &str) -> (r: Option<
    String,
>)
    ensures
        match r {
            Some(current) => is_released(command@, agent.view()) && current@
                == agent.command@,
            None => !is_released(command@, agent.view()),
        },
{
    let bare: String = trim(command);
    match &agent.released {
        Some(released) => if same_text(bare.as_str(), released.as_str()) {
            Some(agent.command.clone())
        } else {
            None
        },
        None => None,
    }
}

/// Whether the entry is the one of the agent.
pub fn launch_entry_matches_builtin(entry: &LaunchEntry, agent: &TerminalAgent) -> (r: bool)
    ensures
        r == is_entry_of(entry.view(), agent.view()),
{
    if provider_is(&entry.provider, agent.id.as_str()) {
        return true;
    }
    match &entry.provider {
        Some(_) => false,
        None => {
            let bare: String = trim(entry.command.as_str());
            same_text(bare.as_str(), agent.command.as_str())
                || upgrade_released_quick_terminal_command(
                agent,
                entry.command.as_str(),
            ).is_some()
        },
    }
}

/// The first agent from `at` on that is stored under an id.
pub open spec fn agent_with_id_from(agents: Seq<AgentView>, id: Seq<char>, at: int) -> Option<
    AgentView,
>
    decreases agents.len() - at,
{
    if 0 <= at < agents.len() {
        if agents[at].id == id {
            Some(agents[at])
        } else {
            agent_with_id_from(agents, id, at + 1)
        }
    } else {
        None
    }
}

/// The agent that is stored under an id.
pub open spec fn agent_with_id(agents: Seq<AgentView>, id: Seq<char>) -> Option<AgentView> {
    agent_with_id_from(agents, id, 0)
}

/// The entry is stored under the id of some agent.
pub open spec fn is_builtin(agents: Seq<AgentView>, entry: EntryView) -> bool {
    exists|i: int| 0 <= i < agents.len() && entry.provider == Some((#[trigger] agents[i]).id)
}

proof fn lemma_agent_with_id(agents: Seq<AgentView>, id: Seq<char>, at: int)
    requires
        0 <= at,
    ensures
        agent_with_id_from(agents, id, at) is Some <==> exists|i: int|
            at <= i < agents.len() && (#[trigger] agents[i]).id == id,
    decreases agents.len() - at,
{
    if at < agents.len() {
        lemma_agent_with_id(agents, id, at + 1);
    }
}

/// The agent that is stored under an id.
pub fn agent_from_id<'a>(agents: &'a Vec<TerminalAgent>, id: &str) -> (r: Option<&'a TerminalAgent>)
    ensures
        match r {
            Some(agent) => agent_with_id(agent_views(agents@), id@) == Some(agent.view()),
            None => agent_with_id(agent_views(agents@), id@) is None,
        },
{
    let ghost known = agent_views(agents@);
    let mut i: usize = 0;
    while i < agents.len()
        invariant
            known == agent_views(agents@),
            i <= agents.len(),
            agent_with_id(known, id@) == agent_with_id_from(known, id@, i as int),
        decreases agents.len() - i,
    {
        assert(known[i as int] == agents@[i as int].view());
        if same_text(agents[i].id.as_str(), id) {
            return Some(&agents[i]);
        }
        i = i + 1;
    }
    None
}

/// Whether the entry is one that comes with Smelt and cannot be removed.
pub fn launch_entry_is_builtin(agents: &Vec<TerminalAgent>, entry: &LaunchEntry) -> (r: bool)
    ensures
        r == is_builtin(agent_views(agents@), entry.view()),
{
    match &entry.provider {
        Some(provider) => {
            proof {
                lemma_agent_with_id(agent_views(agents@), provider@, 0);
            }
            agent_from_id(agents, provider.as_str()).is_some()
        },
        None => false,
    }
}

fn find_entry(entries: &Vec<LaunchEntry>, agent: &TerminalAgent) -> (r: Option<usize>)
    ensures
        match r {
            Some(at) => first_entry_at(entry_views(entries@), agent.view(), at as int),
            None => !has_entry(entry_views(entries@), agent.view()),
        },
{
    let ghost all = entry_views(entries@);
    let mut i: usize = 0;
    while i < entries.len()
        invariant
            all == entry_views(entries@),
            i <= entries.len(),
            forall|k: int| 0 <= k < i ==> !is_entry_of(#[trigger] all[k], agent.view()),
        decreases entries.len() - i,
    {
        assert(all[i as int] == entries@[i as int].view());
        if launch_entry_matches_builtin(&entries[i], agent) {
            return Some(i);
        }
        i = i + 1;
    }
    None
}

fn new_entry(agent: &TerminalAgent) -> (r: LaunchEntry)
    ensures
        r.view() == builtin_entry(agent.view()),
{
    LaunchEntry {
        label: agent.label.clone(),
        command: agent.command.clone(),
        provider: Some(agent.id.clone()),
    }
}

/// Gives every agent an entry, under its id. The result says whether the menu changed.
pub fn ensure_builtin_launch_entries(agents: &Vec<TerminalAgent>, config: &mut LaunchConfig) -> (r: bool)
    ensures
        entry_views(final(config).entries@) == aligned(agent_views(agents@), entry_views(old(config).entries@)),
        final(config).version == old(config).version,
        r == (aligned(agent_views(agents@), entry_views(old(config).entries@)) != entry_views(old(config).entries@)),
{
    let ghost known = agent_views(agents@);
    let ghost before = entry_views(config.entries@);
    let ghost version = config.version;
    let mut changed: bool = false;
    let mut i: usize = 0;
    while i < agents.len()
        invariant
            known == agent_views(agents@),
            i <= agents.len(),
            config.version == version,
            entry_views(config.entries@) == aligned_up_to(known, before, i as int),
            changed == (aligned_up_to(known, before, i as int) != before),
        decreases agents.len() - i,
    {
        let agent: &TerminalAgent = &agents[i];
        assert(known[i as int] == agent.view());
        let ghost entries = config.entries@;
        let ghost views = entry_views(entries);
        proof {
            lemma_aligned_for(views, agent.view());
            lemma_only_providers_change(known, before, i as int);
            lemma_only_providers_change(known, before, i + 1);
        }
        match find_entry(&config.entries, agent) {
            Some(at) => {
                proof {
                    let other = choose|at: int| first_entry_at(views, agent.view(), at);
                    lemma_first_is_unique(views, agent.view(), at as int, other);
                }
                if config.entries[at].provider.is_none() {
                    let entry: LaunchEntry = LaunchEntry {
                        label: config.entries[at].label.clone(),
                        command: config.entries[at].command.clone(),
                        provider: Some(agent.id.clone()),
                    };
                    config.entries.set(at, entry);
                    assert(entry_views(config.entries@) =~= aligned_up_to(known, before, i + 1));
                    proof {
                        assert(aligned_up_to(known, before, i + 1)[at as int].provider is Some);
                        assert(views[at as int].provider is None);
                        if (at as int) < before.len() {
                            assert(aligned_up_to(known, before, i as int)[at as int].command
                                == before[at as int].command);
                            assert(before[at as int].provider is None);
                        } else {
                            assert(aligned_up_to(known, before, i + 1).len() > before.len());
                        }
                        assert(aligned_up_to(known, before, i + 1) != before);
                    }
                    changed = true;
                } else {
                    assert(entry_views(config.entries@) =~= aligned_up_to(known, before, i + 1));
                }
            },
            None => {
                config.entries.push(new_entry(agent));
                assert(entry_views(config.entries@) =~= aligned_up_to(known, before, i + 1));
                assert(aligned_up_to(known, before, i + 1).len() > before.len());
                changed = true;
            },
        }
        i = i + 1;
    }
    changed
}

/// Removes an entry of the user. Those that come with Smelt stay. The result says whether an
/// entry was removed.
pub fn remove_launch_entry_at(
    agents: &Vec<TerminalAgent>,
    config: &mut LaunchConfig,
    index: usize,
) -> (r: bool)
    ensures
        r == (index < old(config).entries@.len() && !is_builtin(
            agent_views(agents@),
            entry_views(old(config).entries@)[index as int],
        )),
        final(config).version == old(config).version,
        final(config).entries@ == if r {
            old(config).entries@.remove(index as int)
        } else {
            old(config).entries@
        },
{
    if index >= config.entries.len() {
        return false;
    }
    if launch_entry_is_builtin(agents, &config.entries[index]) {
        return false;
    }
    config.entries.remove(index);
    true
}

/// The agent whose prefix a command begins with, the first in order.
pub open spec fn agent_of_command(agents: Seq<AgentView>, command: Seq<char>) -> Option<
    AgentView,
> {
    agent_of_command_from(agents, text::trimmed(command), 0)
}

/// The first agent from `at` on whose prefix a command begins with.
pub open spec fn agent_of_command_from(agents: Seq<AgentView>, command: Seq<char>, at: int) -> Option<
    AgentView,
>
    decreases agents.len() - at,
{
    if 0 <= at < agents.len() {
        if text::has_prefix(command, agents[at].prefix) {
            Some(agents[at])
        } else {
            agent_of_command_from(agents, command, at + 1)
        }
    } else {
        None
    }
}

/// The agent whose prefix a command begins with.
pub fn agent_from_command_prefix<'a>(agents: &'a Vec<TerminalAgent>, command: &str) -> (r: Option<
    &'a TerminalAgent,
>)
    ensures
        match r {
            Some(agent) => agent_of_command(agent_views(agents@), command@) == Some(agent.view()),
            None => agent_of_command(agent_views(agents@), command@) is None,
        },
{
    let bare: String = trim(command);
    let ghost known = agent_views(agents@);
    let mut i: usize = 0;
    while i < agents.len()
        invariant
            known == agent_views(agents@),
            i <= agents.len(),
            bare@ == text::trimmed(command@),
            agent_of_command(known, command@) == agent_of_command_from(known, bare@, i as int),
        decreases agents.len() - i,
    {
        assert(known[i as int] == agents@[i as int].view());
        if starts_with(bare.as_str(), agents[i].prefix.as_str()) {
            return Some(&agents[i]);
        }
        i = i + 1;
    }
    None
}

/// The picture of an agent.
pub open spec fn icon_of(agent: TerminalAgentKind) -> LaunchIcon {
    match agent {
        TerminalAgentKind::Claude => LaunchIcon::Asterisk,
        TerminalAgentKind::Copilot => LaunchIcon::Github,
        _ => LaunchIcon::Bot,
    }
}

/// The picture of an agent.
pub fn icon_for_agent_kind(agent: TerminalAgentKind) -> (r: LaunchIcon)
    ensures
        r == icon_of(agent),
{
    match agent {
        TerminalAgentKind::Claude => LaunchIcon::Asterisk,
        TerminalAgentKind::Copilot => LaunchIcon::Github,
        _ => LaunchIcon::Bot,
    }
}

/// The picture of a command: that of its agent, or a terminal.
pub fn icon_for_launch_command(agents: &Vec<TerminalAgent>, command: &str) -> (r: LaunchIcon)
    ensures
        r == match agent_of_command(agent_views(agents@), command@) {
            Some(agent) => icon_of(agent.kind),
            None => LaunchIcon::SquareTerminal,
        },
{
    match agent_from_command_prefix(agents, command) {
        Some(agent) => icon_for_agent_kind(agent.kind),
        None => LaunchIcon::SquareTerminal,
    }
}

/// The menu as it comes with Smelt.
pub fn default_launch_entries(agents: &Vec<TerminalAgent>) -> (r: Vec<LaunchEntry>)
    ensures
        entry_views(r@) == default_entries(agent_views(agents@)),
{
    let mut out: Vec<LaunchEntry> = Vec::new();
    let mut i: usize = 0;
    while i < agents.len()
        invariant
            i <= agents.len(),
            out@.len() == i,
            forall|k: int|
                0 <= k < i ==> (#[trigger] out@[k]).view() == builtin_entry(agents@[k].view()),
        decreases agents.len() - i,
    {
        out.push(new_entry(&agents[i]));
        i = i + 1;
    }
    assert(entry_views(out@) =~= default_entries(agent_views(agents@)));
    out
}

impl LaunchConfig {
    /// The menu as it comes with Smelt, in the current version.
    pub fn with_defaults(agents: &Vec<TerminalAgent>) -> (r: LaunchConfig)
        ensures
            r.version == LAUNCH_CONFIG_VERSION,
            entry_views(r.entries@) == default_entries(agent_views(agents@)),
    {
        LaunchConfig { version: LAUNCH_CONFIG_VERSION, entries: default_launch_entries(agents) }
    }
}

/// The entry has a label and a command to show.
pub open spec fn is_active(entry: EntryView) -> bool {
    text::trimmed(entry.label).len() > 0 && text::trimmed(entry.command).len() > 0
}

fn copied_entry(entry: &LaunchEntry) -> (r: LaunchEntry)
    ensures
        r.view() == entry.view(),
{
    let provider: Option<String> = match &entry.provider {
        Some(name) => Some(name.clone()),
        None => None,
    };
    LaunchEntry { label: entry.label.clone(), command: entry.command.clone(), provider }
}

/// The entries of the menu that have a label and a command.
pub fn active_launch_entries(config: &LaunchConfig) -> (r: Vec<LaunchEntry>)
    ensures
        entry_views(r@) == entry_views(config.entries@).filter(
            |entry: EntryView| is_active(entry),
        ),
{
    let ghost all = entry_views(config.entries@);
    let ghost keep = |entry: EntryView| is_active(entry);
    let mut out: Vec<LaunchEntry> = Vec::new();
    let mut i: usize = 0;
    proof {
        reveal(Seq::filter);
        assert(all.take(0) =~= seq![]);
        assert(entry_views(out@) =~= seq![]);
    }
    while i < config.entries.len()
        invariant
            all == entry_views(config.entries@),
            keep == (|entry: EntryView| is_active(entry)),
            i <= config.entries.len(),
            entry_views(out@) == all.take(i as int).filter(keep),
        decreases config.entries.len() - i,
    {
        proof {
            reveal(Seq::filter);
            assert(all.take(i + 1).drop_last() =~= all.take(i as int));
            assert(all[i as int] == config.entries@[i as int].view());
        }
        let label: String = trim(config.entries[i].label.as_str());
        let command: String = trim(config.entries[i].command.as_str());
        if !label.as_str().is_empty() && !command.as_str().is_empty() {
            let ghost before = out@;
            let copy: LaunchEntry = copied_entry(&config.entries[i]);
            out.push(copy);
            assert(entry_views(out@) =~= entry_views(before).push(copy.view()));
        }
        i = i + 1;
    }
    assert(all.take(i as int) =~= all);
    out
}

/// The current command where a command is one of an earlier release, looked up from the agent
/// at `at` on.
pub open spec fn current_command_from(agents: Seq<AgentView>, command: Seq<char>, at: int) -> Seq<char>
    decreases agents.len() - at,
{
    if 0 <= at < agents.len() {
        if is_released(command, agents[at]) {
            agents[at].command
        } else {
            current_command_from(agents, command, at + 1)
        }
    } else {
        command
    }
}

/// The current command where a command is one of an earlier release.
pub open spec fn current_command(agents: Seq<AgentView>, command: Seq<char>) -> Seq<char> {
    current_command_from(agents, command, 0)
}

/// The entry under its current command and label.
pub open spec fn upgraded(agents: Seq<AgentView>, entry: EntryView) -> EntryView {
    let command = current_command(agents, entry.command);
    let renamed = text::trimmed(entry.label) == "Copilot"@ && (entry.provider == Some(
        "copilot"@,
    ) || (match agent_of_command(agents, command) {
        Some(agent) => agent.kind == TerminalAgentKind::Copilot,
        None => false,
    }));
    EntryView {
        label: if renamed {
            "GitHub Copilot"@
        } else {
            entry.label
        },
        command,
        provider: entry.provider,
    }
}

/// The entries of a stored menu under their current commands and labels, where it is older.
pub open spec fn upgraded_entries(agents: Seq<AgentView>, version: u32, entries: Seq<EntryView>) -> Seq<EntryView> {
    if version < LAUNCH_CONFIG_VERSION {
        entries.map_values(|entry: EntryView| upgraded(agents, entry))
    } else {
        entries
    }
}

/// The entries of a stored menu as they are used.
pub open spec fn loaded_entries(agents: Seq<AgentView>, version: u32, entries: Seq<EntryView>) -> Seq<EntryView> {
    aligned(agents, upgraded_entries(agents, version, entries))
}

/// A stored menu is not current: it is older, or lacks something.
pub open spec fn is_outdated(agents: Seq<AgentView>, version: u32, entries: Seq<EntryView>) -> bool {
    version < LAUNCH_CONFIG_VERSION || aligned(agents, entries) != entries
}

fn current_command_text(agents: &Vec<TerminalAgent>, command: &str) -> (r: String)
    ensures
        r@ == current_command(agent_views(agents@), command@),
{
    let ghost known = agent_views(agents@);
    let mut i: usize = 0;
    while i < agents.len()
        invariant
            known == agent_views(agents@),
            i <= agents.len(),
            current_command(known, command@) == current_command_from(known, command@, i as int),
        decreases agents.len() - i,
    {
        assert(known[i as int] == agents@[i as int].view());
        match upgrade_released_quick_terminal_command(&agents[i], command) {
            Some(current) => {
                return current;
            },
            None => {},
        }
        i = i + 1;
    }
    command.to_owned()
}

fn upgrade_entry(agents: &Vec<TerminalAgent>, entry: &LaunchEntry) -> (r: LaunchEntry)
    ensures
        r.view() == upgraded(agent_views(agents@), entry.view()),
{
    let command: String = current_command_text(agents, entry.command.as_str());
    let bare: String = trim(entry.label.as_str());
    let of_copilot: bool = provider_is(&entry.provider, "copilot") || (
    match agent_from_command_prefix(agents, command.as_str()) {
        Some(agent) => agent.kind == TerminalAgentKind::Copilot,
        None => false,
    });
    let label: String = if same_text(bare.as_str(), "Copilot") && of_copilot {
        "GitHub Copilot".to_owned()
    } else {
        entry.label.clone()
    };
    let provider: Option<String> = match &entry.provider {
        Some(name) => Some(name.clone()),
        None => None,
    };
    LaunchEntry { label, command, provider }
}

/// The menu to use, from the stored one where there is one, and whether it has to be stored
/// again. One of an earlier version gets current commands and labels; every one gets an
/// entry for every agent.
pub fn load_launch_config(
    agents: &Vec<TerminalAgent>,
    stored: Option<LaunchConfig>,
) -> (r: (LaunchConfig, bool))
    ensures
        match stored {
            Some(config) => {
                let entries = entry_views(config.entries@);
                &&& entry_views(r.0.entries@) == loaded_entries(
                    agent_views(agents@),
                    config.version,
                    entries,
                )
                &&& r.1 == is_outdated(agent_views(agents@), config.version, entries)
                &&& r.0.version == if r.1 {
                    LAUNCH_CONFIG_VERSION
                } else {
                    config.version
                }
            },
            None => {
                &&& entry_views(r.0.entries@) == default_entries(agent_views(agents@))
                &&& r.0.version == LAUNCH_CONFIG_VERSION
                &&& !r.1
            },
        },
{
    match stored {
        None => (LaunchConfig::with_defaults(agents), false),
        Some(found) => {
            let ghost known = agent_views(agents@);
            let ghost before = entry_views(found.entries@);
            let mut config: LaunchConfig = found;
            let old: bool = config.version < LAUNCH_CONFIG_VERSION;
            if old {
                let mut entries: Vec<LaunchEntry> = Vec::new();
                let mut i: usize = 0;
                while i < config.entries.len()
                    invariant
                        known == agent_views(agents@),
                        before == entry_views(config.entries@),
                        i <= config.entries.len(),
                        entries@.len() == i,
                        forall|k: int|
                            0 <= k < i ==> (#[trigger] entries@[k]).view() == upgraded(
                                known,
                                before[k],
                            ),
                    decreases config.entries.len() - i,
                {
                    let entry: LaunchEntry = upgrade_entry(agents, &config.entries[i]);
                    entries.push(entry);
                    i = i + 1;
                }
                config.entries = entries;
            }
            assert(entry_views(config.entries@) =~= upgraded_entries(
                known,
                found.version, before));
            let aligned_now: bool = ensure_builtin_launch_entries(agents, &mut config);
            if old || aligned_now {
                config.version = LAUNCH_CONFIG_VERSION;
                (config, true)
            } else {
                (config, false)
            }
        },
    }
}

/// A menu that was loaded and stored is loaded as it is.
pub proof fn loading_twice(agents: Seq<AgentView>, version: u32, entries: Seq<EntryView>)
    requires
        ids_differ(agents),
    ensures
        loaded_entries(agents, LAUNCH_CONFIG_VERSION, loaded_entries(agents, version, entries)) == loaded_entries(
            agents, version,
            entries,
        ),
        !is_outdated(agents, LAUNCH_CONFIG_VERSION, loaded_entries(agents, version, entries)),
{
    aligning_twice(agents, upgraded_entries(agents, version, entries));
}

/// A command that no release gave an agent is kept, whatever the version.
pub proof fn own_commands_survive(agents: Seq<AgentView>, version: u32, entries: Seq<EntryView>, i: int)
    requires
        0 <= i < entries.len(),
        forall|agent: int|
            0 <= agent < agents.len() ==> !is_released(
                entries[i].command,
                #[trigger] agents[agent],
            ),
    ensures
        i < loaded_entries(agents, version, entries).len(),
        loaded_entries(agents, version, entries)[i].command == entries[i].command,
{
    lemma_unreleased(agents, entries[i].command, 0);
    aligning_keeps_labels_and_commands(agents, upgraded_entries(agents, version, entries), i);
}

proof fn lemma_unreleased(agents: Seq<AgentView>, command: Seq<char>, at: int)
    requires
        forall|agent: int|
            0 <= agent < agents.len() ==> !is_released(command, #[trigger] agents[agent]),
    ensures
        current_command_from(agents, command, at) == command,
    decreases agents.len() - at,
{
    if 0 <= at < agents.len() {
        lemma_unreleased(agents, command, at + 1);
    }
}

} // verus!

