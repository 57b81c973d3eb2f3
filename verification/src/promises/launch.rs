//! What the launch menu promises.

use vstd::prelude::*;

use crate::promises::lists;
use crate::settings::launch;
use crate::settings::launch::{
    active_launch_entries, agent_from_command_prefix, agent_from_id, default_launch_entries,
    ensure_builtin_launch_entries, icon_for_launch_command, launch_entry_is_builtin,
    launch_entry_matches_builtin, load_launch_config, remove_launch_entry_at, terminal_agents,
    upgrade_released_quick_terminal_command, EntryView, LaunchConfig, LaunchEntry, LaunchIcon,
    TerminalAgent, TerminalAgentKind,
};
use crate::text;

verus! {

/// The text begins with the other one.
pub open spec fn begins_with(text: Seq<char>, start: Seq<char>) -> bool {
    start.len() <= text.len() && text.subrange(0, start.len() as int) == start
}

/// The command, without the spaces around it, begins as those of the agent at a position do, and
/// as those of no agent before it.
pub open spec fn runs_agent(agents: Seq<TerminalAgent>, command: Seq<char>, at: int) -> bool {
    &&& 0 <= at < agents.len()
    &&& begins_with(text::trimmed(command), agents[at].prefix@)
    &&& forall|i: int|
        0 <= i < at ==> !begins_with(text::trimmed(command), (#[trigger] agents[i]).prefix@)
}

/// The command runs Copilot.
pub open spec fn runs_copilot(agents: Seq<TerminalAgent>, command: Seq<char>) -> bool {
    exists|at: int| #[trigger]
        runs_agent(agents, command, at) && agents[at].kind == TerminalAgentKind::Copilot
}

pub proof fn lemma_agent_of_command(agents: Seq<TerminalAgent>, command: Seq<char>, from: int)
    requires
        0 <= from <= agents.len(),
        forall|i: int|
            0 <= i < from ==> !begins_with(text::trimmed(command), (#[trigger] agents[i]).prefix@),
    ensures
        match launch::agent_of_command_from(
            launch::agent_views(agents),
            text::trimmed(command),
            from,
        ) {
            Some(agent) => exists|at: int| #[trigger]
                runs_agent(agents, command, at) && agents[at].view() == agent,
            None => forall|at: int| !(#[trigger] runs_agent(agents, command, at)),
        },
    decreases agents.len() - from,
{
    if from < agents.len() {
        let bare = text::trimmed(command);
        let prefix = agents[from].prefix@;
        assert(launch::agent_views(agents)[from].prefix == prefix);
        if prefix.len() <= bare.len() {
            assert(bare.take(prefix.len() as int) =~= bare.subrange(0, prefix.len() as int));
        }
        if text::has_prefix(bare, prefix) {
            assert(runs_agent(agents, command, from));
        } else {
            lemma_agent_of_command(agents, command, from + 1);
        }
    }
}

pub proof fn lemma_one_agent(agents: Seq<TerminalAgent>, command: Seq<char>, a: int, b: int)
    requires
        runs_agent(agents, command, a),
        runs_agent(agents, command, b),
    ensures
        a == b,
{
}

/// A stored label stays as it is, in menus of every version, unless it is the old name of
/// Copilot on an entry of Copilot in a menu of an earlier version.
pub proof fn labels_stay(
    agents: &Vec<TerminalAgent>,
    stored: LaunchConfig,
    loaded: (LaunchConfig, bool),
    i: int,
)
    requires
        call_ensures(load_launch_config, (agents, Some(stored)), loaded),
        0 <= i < stored.entries@.len(),
    ensures
        i < loaded.0.entries@.len(),
        loaded.0.entries@[i].label@ == if stored.version < 14 && text::trimmed(
            stored.entries@[i].label@,
        ) == "Copilot"@ && ((stored.entries@[i].provider is Some
            && stored.entries@[i].provider->0@ == "copilot"@) || runs_copilot(
            agents@,
            loaded.0.entries@[i].command@,
        )) {
            "GitHub Copilot"@
        } else {
            stored.entries@[i].label@
        },
{
    let views = launch::agent_views(agents@);
    let entries = launch::entry_views(stored.entries@);
    let upgraded = launch::upgraded_entries(views, stored.version, entries);
    assert(entries[i] == stored.entries@[i].view());
    launch::aligning_keeps_labels_and_commands(views, upgraded, i);
    let out = launch::entry_views(loaded.0.entries@);
    assert(out == launch::aligned(views, upgraded));
    assert(out[i] == loaded.0.entries@[i].view());
    let command = loaded.0.entries@[i].command@;
    lemma_agent_of_command(agents@, command, 0);
    match launch::agent_of_command(views, command) {
        Some(agent) => {
            let at = choose|at: int| #[trigger]
                runs_agent(agents@, command, at) && agents@[at].view() == agent;
            if runs_copilot(agents@, command) {
                let other = choose|at: int| #[trigger]
                    runs_agent(agents@, command, at) && agents@[at].kind
                        == TerminalAgentKind::Copilot;
                lemma_one_agent(agents@, command, at, other);
            }
        },
        None => {},
    }
}

/// A command is one that an earlier release had for an agent.
pub open spec fn was_released(agent: TerminalAgent, command: Seq<char>) -> bool {
    agent.released is Some && agent.released->0@ == text::trimmed(command)
}

/// The first agent that had the command in an earlier release stands at a position.
pub open spec fn first_released_at(
    agents: Seq<TerminalAgent>,
    command: Seq<char>,
    at: int,
) -> bool {
    &&& 0 <= at < agents.len()
    &&& was_released(agents[at], command)
    &&& forall|j: int| 0 <= j < at ==> !was_released(#[trigger] agents[j], command)
}

proof fn lemma_current_command(
    agents: Seq<TerminalAgent>,
    command: Seq<char>,
    from: int,
    at: int,
)
    requires
        0 <= from <= at,
        first_released_at(agents, command, at),
    ensures
        launch::current_command_from(launch::agent_views(agents), command, from)
            == agents[at].command@,
    decreases at - from,
{
    assert(launch::agent_views(agents)[from] == agents[from].view());
    if from < at {
        assert(!was_released(agents[from], command));
        lemma_current_command(agents, command, from + 1, at);
    }
}

proof fn lemma_kept_command(agents: Seq<TerminalAgent>, command: Seq<char>, from: int)
    requires
        0 <= from,
        forall|j: int| 0 <= j < agents.len() ==> !was_released(#[trigger] agents[j], command),
    ensures
        launch::current_command_from(launch::agent_views(agents), command, from) == command,
    decreases agents.len() - from,
{
    if from < agents.len() {
        assert(launch::agent_views(agents)[from] == agents[from].view());
        assert(!was_released(agents[from], command));
        lemma_kept_command(agents, command, from + 1);
    }
}

/// A stored command stays as it is, except that in a menu of an earlier version a command that an
/// earlier release had for an agent becomes the agent's command of today.
pub proof fn commands_stay_unless_released(
    agents: &Vec<TerminalAgent>,
    stored: LaunchConfig,
    loaded: (LaunchConfig, bool),
    i: int,
)
    requires
        call_ensures(load_launch_config, (agents, Some(stored)), loaded),
        0 <= i < stored.entries@.len(),
    ensures
        i < loaded.0.entries@.len(),
        stored.version >= 14 ==> loaded.0.entries@[i].command@ == stored.entries@[i].command@,
        (forall|j: int|
            0 <= j < agents@.len() ==> !was_released(
                #[trigger] agents@[j],
                stored.entries@[i].command@,
            )) ==> loaded.0.entries@[i].command@ == stored.entries@[i].command@,
        forall|at: int|
            stored.version < 14 && #[trigger] first_released_at(
                agents@,
                stored.entries@[i].command@,
                at,
            ) ==> loaded.0.entries@[i].command@ == agents@[at].command@,
{
    let views = launch::agent_views(agents@);
    let entries = launch::entry_views(stored.entries@);
    let upgraded = launch::upgraded_entries(views, stored.version, entries);
    let command = stored.entries@[i].command@;
    assert(entries[i] == stored.entries@[i].view());
    launch::aligning_keeps_labels_and_commands(views, upgraded, i);
    let out = launch::entry_views(loaded.0.entries@);
    assert(out == launch::aligned(views, upgraded));
    assert(out[i] == loaded.0.entries@[i].view());
    if forall|j: int| 0 <= j < agents@.len() ==> !was_released(#[trigger] agents@[j], command) {
        lemma_kept_command(agents@, command, 0);
    }
    assert forall|at: int|
        stored.version < 14 && #[trigger] first_released_at(
            agents@,
            command,
            at,
        ) implies loaded.0.entries@[i].command@ == agents@[at].command@ by {
        lemma_current_command(agents@, command, 0, at);
    }
}

/// A stored provider stays, every agent has an entry in the loaded menu, and entries that are
/// added stand behind the stored ones.
pub proof fn every_agent_is_on_the_menu(
    agents: &Vec<TerminalAgent>,
    stored: Option<LaunchConfig>,
    loaded: (LaunchConfig, bool),
    a: int,
)
    requires
        call_ensures(load_launch_config, (agents, stored), loaded),
        forall|i: int, j: int|
            0 <= i < j < agents@.len() ==> (#[trigger] agents@[i]).id@ != (
            #[trigger] agents@[j]).id@,
        0 <= a < agents@.len(),
    ensures
        exists|k: int|
            0 <= k < loaded.0.entries@.len() && (#[trigger] loaded.0.entries@[k]).provider is Some
                && loaded.0.entries@[k].provider->0@ == agents@[a].id@,
        stored matches Some(config) ==> forall|i: int|
            0 <= i < config.entries@.len() && (#[trigger] config.entries@[i]).provider is Some ==> {
                &&& loaded.0.entries@[i].provider is Some
                &&& loaded.0.entries@[i].provider->0@ == config.entries@[i].provider->0@
            },
        loaded.0.version >= 14,
{
    let views = launch::agent_views(agents@);
    assert(views.len() == agents@.len());
    assert(views[a] == agents@[a].view());
    let out = launch::entry_views(loaded.0.entries@);
    assert(out.len() == loaded.0.entries@.len());
    match stored {
        Some(config) => {
            let entries = launch::entry_views(config.entries@);
            let upgraded = launch::upgraded_entries(views, config.version, entries);
            assert forall|i: int, j: int| 0 <= i < j < views.len() implies (
            #[trigger] views[i]).id != (#[trigger] views[j]).id by {
                assert(views[i] == agents@[i].view());
                assert(views[j] == agents@[j].view());
            }
            launch::aligning_gives_every_agent_an_entry(views, upgraded, a);
            assert(out == launch::aligned(views, upgraded));
            let at = choose|at: int|
                0 <= at < out.len() && (#[trigger] out[at]).provider == Some(views[a].id);
            assert(out[at] == loaded.0.entries@[at].view());
            assert(loaded.0.entries@[at].provider is Some);
            assert forall|i: int|
                0 <= i < config.entries@.len() && (
                #[trigger] config.entries@[i]).provider is Some implies {
                &&& loaded.0.entries@[i].provider is Some
                &&& loaded.0.entries@[i].provider->0@ == config.entries@[i].provider->0@
            } by {
                launch::aligning_keeps_labels_and_commands(views, upgraded, i);
                assert(entries[i] == config.entries@[i].view());
                assert(out[i] == loaded.0.entries@[i].view());
            }
        },
        None => {
            assert(out == launch::default_entries(views));
            assert(out.len() == views.len());
            assert(out[a] == loaded.0.entries@[a].view());
            assert(loaded.0.entries@[a].provider is Some);
        },
    }
}

/// The menu of a first start has one entry for each agent, in order, with its own label and
/// command.
pub proof fn first_menu_lists_the_agents(
    agents: &Vec<TerminalAgent>,
    loaded: (LaunchConfig, bool),
    entries: Vec<LaunchEntry>,
    a: int,
)
    requires
        call_ensures(load_launch_config, (agents, None), loaded),
        call_ensures(default_launch_entries, (agents,), entries),
    ensures
        loaded.0.entries@.len() == agents@.len(),
        entries@.len() == agents@.len(),
        !loaded.1,
        loaded.0.version == 14,
        0 <= a < agents@.len() ==> {
            &&& loaded.0.entries@[a].label@ == agents@[a].label@
            &&& loaded.0.entries@[a].command@ == agents@[a].command@
            &&& loaded.0.entries@[a].provider is Some
            &&& loaded.0.entries@[a].provider->0@ == agents@[a].id@
            &&& entries@[a].label@ == agents@[a].label@
            &&& entries@[a].command@ == agents@[a].command@
            &&& entries@[a].provider is Some
            &&& entries@[a].provider->0@ == agents@[a].id@
        },
{
    let views = launch::agent_views(agents@);
    let one = launch::entry_views(loaded.0.entries@);
    let other = launch::entry_views(entries@);
    assert(one == launch::default_entries(views));
    assert(other == launch::default_entries(views));
    assert(one.len() == loaded.0.entries@.len());
    assert(other.len() == entries@.len());
    if 0 <= a < agents@.len() {
        assert(views[a] == agents@[a].view());
        assert(one[a] == loaded.0.entries@[a].view());
        assert(other[a] == entries@[a].view());
    }
}

/// The menu is saved again where its version is old or an agent had no entry of its own, and
/// only there.
pub proof fn menus_are_saved_when_they_change(
    agents: &Vec<TerminalAgent>,
    stored: LaunchConfig,
    loaded: (LaunchConfig, bool),
)
    requires
        call_ensures(load_launch_config, (agents, Some(stored)), loaded),
    ensures
        stored.version < 14 ==> loaded.1 && loaded.0.version == 14,
        !loaded.1 ==> loaded.0.version == stored.version && loaded.0.entries@.len()
            == stored.entries@.len(),
        !loaded.1 ==> forall|i: int|
            0 <= i < stored.entries@.len() ==> (#[trigger] loaded.0.entries@[i]).view()
                == stored.entries@[i].view(),
{
    let out = launch::entry_views(loaded.0.entries@);
    let entries = launch::entry_views(stored.entries@);
    assert(out.len() == loaded.0.entries@.len());
    assert(entries.len() == stored.entries@.len());
    if !loaded.1 {
        assert(out == entries);
        assert forall|i: int| 0 <= i < stored.entries@.len() implies (
        #[trigger] loaded.0.entries@[i]).view() == stored.entries@[i].view() by {
            assert(out[i] == loaded.0.entries@[i].view());
            assert(entries[i] == stored.entries@[i].view());
        }
    }
}

/// An entry is an agent's where it names the agent, or names none and has one of its commands.
pub proof fn entries_belong_by_provider_or_command(
    entry: &LaunchEntry,
    agent: &TerminalAgent,
    r: bool,
)
    requires
        call_ensures(launch_entry_matches_builtin, (entry, agent), r),
    ensures
        entry.provider matches Some(provider) ==> r == (provider@ == agent.id@),
        entry.provider is None ==> r == (text::trimmed(entry.command@) == agent.command@
            || was_released(*agent, entry.command@)),
{
}

/// Only a command of an earlier release is replaced, and by the agent's command of today.
pub proof fn released_commands_are_replaced(
    agent: &TerminalAgent,
    command: &str,
    r: Option<String>,
)
    requires
        call_ensures(upgrade_released_quick_terminal_command, (agent, command), r),
    ensures
        r is Some <==> was_released(*agent, command@),
        r matches Some(current) ==> current@ == agent.command@,
{
}

/// Entries of agents stay when they are asked to go; others go, and nothing else changes.
pub proof fn only_own_entries_are_removed(
    agents: &Vec<TerminalAgent>,
    config: &mut LaunchConfig,
    index: usize,
    r: bool,
)
    requires
        call_ensures(remove_launch_entry_at, (agents, config, index), r),
    ensures
        r ==> index < old(config).entries@.len() && final(config).entries@.len() + 1 == old(config).entries@.len(),
        r ==> forall|i: int|
            0 <= i < final(config).entries@.len() ==> #[trigger] final(config).entries@[i] == old(config).entries@[if i < index {
                i
            } else {
                i + 1
            }],
        !r ==> final(config).entries@ == old(config).entries@,
        index >= old(config).entries@.len() ==> !r,
        index < old(config).entries@.len() ==> r == !(exists|a: int|
            0 <= a < agents@.len() && old(config).entries@[index as int].provider is Some && (
            #[trigger] agents@[a]).id@ == old(config).entries@[index as int].provider->0@),
        final(config).version == old(config).version,
{
    let views = launch::agent_views(agents@);
    let before = launch::entry_views(old(config).entries@);
    if index < old(config).entries@.len() {
        let entry = old(config).entries@[index as int];
        assert(before[index as int] == entry.view());
        if launch::is_builtin(views, entry.view()) {
            let a = choose|a: int|
                0 <= a < views.len() && entry.view().provider == Some((#[trigger] views[a]).id);
            assert(views[a] == agents@[a].view());
            assert(agents@[a].id@ == entry.provider->0@);
        }
        if exists|a: int|
            0 <= a < agents@.len() && entry.provider is Some && (#[trigger] agents@[a]).id@
                == entry.provider->0@ {
            let a = choose|a: int|
                0 <= a < agents@.len() && entry.provider is Some && (#[trigger] agents@[a]).id@
                    == entry.provider->0@;
            assert(views[a] == agents@[a].view());
        }
    }
}

/// The icon of a command is that of the agent that it runs, and a terminal's where it runs none.
pub proof fn icons_show_the_agent(
    agents: &Vec<TerminalAgent>,
    command: &str,
    r: LaunchIcon,
    at: int,
)
    requires
        call_ensures(icon_for_launch_command, (agents, command), r),
    ensures
        runs_agent(agents@, command@, at) ==> r == match agents@[at].kind {
            TerminalAgentKind::Claude => LaunchIcon::Asterisk,
            TerminalAgentKind::Copilot => LaunchIcon::Github,
            _ => LaunchIcon::Bot,
        },
        (forall|k: int| !#[trigger] runs_agent(agents@, command@, k)) ==> r
            == LaunchIcon::SquareTerminal,
{
    lemma_agent_of_command(agents@, command@, 0);
    match launch::agent_of_command(launch::agent_views(agents@), command@) {
        Some(agent) => {
            let other = choose|k: int| #[trigger]
                runs_agent(agents@, command@, k) && agents@[k].view() == agent;
            if runs_agent(agents@, command@, at) {
                lemma_one_agent(agents@, command@, at, other);
            }
        },
        None => {},
    }
}

/// The agent that a command runs is the first whose commands begin so.
pub proof fn commands_lead_to_agents(
    agents: &Vec<TerminalAgent>,
    command: &str,
    r: Option<&TerminalAgent>,
)
    requires
        call_ensures(agent_from_command_prefix, (agents, command), r),
    ensures
        match r {
            Some(agent) => exists|at: int| #[trigger]
                runs_agent(agents@, command@, at) && agents@[at].view() == agent.view(),
            None => forall|at: int|
                0 <= at < agents@.len() ==> !begins_with(
                    text::trimmed(command@),
                    (#[trigger] agents@[at]).prefix@,
                ),
        },
{
    lemma_agent_of_command(agents@, command@, 0);
    if r is None {
        assert forall|at: int| 0 <= at < agents@.len() implies !begins_with(
            text::trimmed(command@),
            (#[trigger] agents@[at]).prefix@,
        ) by {
            lemma_some_agent(agents@, command@, at);
        }
    }
}

proof fn lemma_some_agent(agents: Seq<TerminalAgent>, command: Seq<char>, at: int)
    requires
        0 <= at < agents.len(),
    ensures
        begins_with(text::trimmed(command), agents[at].prefix@) ==> exists|k: int| #[trigger]
            runs_agent(agents, command, k),
    decreases at,
{
    if begins_with(text::trimmed(command), agents[at].prefix@) {
        if exists|i: int|
            0 <= i < at && begins_with(text::trimmed(command), (#[trigger] agents[i]).prefix@) {
            let i = choose|i: int|
                0 <= i < at && begins_with(text::trimmed(command), (#[trigger] agents[i]).prefix@);
            lemma_some_agent(agents, command, i);
        } else {
            assert(runs_agent(agents, command, at));
        }
    }
}

pub proof fn lemma_agent_with_id(agents: Seq<TerminalAgent>, id: Seq<char>, from: int)
    requires
        0 <= from <= agents.len(),
    ensures
        match launch::agent_with_id_from(launch::agent_views(agents), id, from) {
            Some(agent) => agent.id == id && exists|at: int|
                from <= at < agents.len() && (#[trigger] agents[at]).view() == agent,
            None => forall|at: int| from <= at < agents.len() ==> (#[trigger] agents[at]).id@ != id,
        },
    decreases agents.len() - from,
{
    if from < agents.len() {
        assert(launch::agent_views(agents)[from] == agents[from].view());
        if agents[from].id@ != id {
            lemma_agent_with_id(agents, id, from + 1);
        }
    }
}

/// An agent is found by its own identifier, and by no other.
pub proof fn agents_are_found_by_their_identifiers(
    agents: &Vec<TerminalAgent>,
    id: &str,
    r: Option<&TerminalAgent>,
)
    requires
        call_ensures(agent_from_id, (agents, id), r),
    ensures
        match r {
            Some(agent) => agent.id@ == id@ && exists|at: int|
                0 <= at < agents@.len() && (#[trigger] agents@[at]).view() == agent.view(),
            None => forall|at: int| 0 <= at < agents@.len() ==> (#[trigger] agents@[at]).id@ != id@,
        },
{
    lemma_agent_with_id(agents@, id@, 0);
}

/// An entry is an agent's own where it names one of the agents.
pub proof fn own_entries_name_an_agent(
    agents: &Vec<TerminalAgent>,
    entry: &LaunchEntry,
    r: bool,
    a: int,
)
    requires
        call_ensures(launch_entry_is_builtin, (agents, entry), r),
    ensures
        entry.provider is None ==> !r,
        0 <= a < agents@.len() && entry.provider is Some && entry.provider->0@ == agents@[a].id@
            ==> r,
        r ==> exists|k: int| 0 <= k < agents@.len() && (#[trigger] agents@[k]).id@
            == entry.provider->0@,
{
    let views = launch::agent_views(agents@);
    if 0 <= a < agents@.len() {
        assert(views[a] == agents@[a].view());
    }
    if r {
        let k = choose|k: int|
            0 <= k < views.len() && entry.view().provider == Some((#[trigger] views[k]).id);
        assert(views[k] == agents@[k].view());
    }
}

/// The entries that are offered are those with a label and a command, all of them.
pub proof fn offered_entries_are_complete(config: &LaunchConfig, r: Vec<LaunchEntry>, i: int, k: int)
    requires
        call_ensures(active_launch_entries, (config,), r),
    ensures
        r@.len() <= config.entries@.len(),
        0 <= k < r@.len() ==> text::trimmed(r@[k].label@).len() > 0 && text::trimmed(
            r@[k].command@,
        ).len() > 0,
        0 <= i < config.entries@.len() && text::trimmed(config.entries@[i].label@).len() > 0
            && text::trimmed(config.entries@[i].command@).len() > 0 ==> exists|m: int|
            0 <= m < r@.len() && (#[trigger] r@[m]).view() == config.entries@[i].view(),
{
    let all = launch::entry_views(config.entries@);
    let keep = |entry: EntryView| launch::is_active(entry);
    let out = launch::entry_views(r@);
    assert(out == all.filter(keep));
    assert(out.len() == r@.len());
    all.lemma_filter_len(keep);
    if 0 <= k < r@.len() {
        assert(out[k] == r@[k].view());
        lists::picked_items_pass(all, keep, k);
    }
    if 0 <= i < config.entries@.len() && launch::is_active(config.entries@[i].view()) {
        assert(all[i] == config.entries@[i].view());
        lists::passing_items_are_picked(all, keep, i);
        let m = choose|m: int| 0 <= m < out.len() && out[m] == all[i];
        assert(out[m] == r@[m].view());
    }
}

/// Giving agents their entries changes no label and no command of what was there, keeps its
/// order, and tells whether anything changed.
pub proof fn aligning_only_adds(
    agents: &Vec<TerminalAgent>,
    config: &mut LaunchConfig,
    r: bool,
    i: int,
)
    requires
        call_ensures(ensure_builtin_launch_entries, (agents, config), r),
        0 <= i < old(config).entries@.len(),
    ensures
        i < final(config).entries@.len(),
        final(config).entries@[i].label@ == old(config).entries@[i].label@,
        final(config).entries@[i].command@ == old(config).entries@[i].command@,
        final(config).version == old(config).version,
        final(config).entries@.len() > old(config).entries@.len() ==> r,
        old(config).entries@[i].provider is Some ==> final(config).entries@[i].provider is Some
            && final(config).entries@[i].provider->0@ == old(config).entries@[i].provider->0@,
{
    let views = launch::agent_views(agents@);
    let before = launch::entry_views(old(config).entries@);
    let after = launch::entry_views(final(config).entries@);
    launch::aligning_keeps_labels_and_commands(views, before, i);
    assert(after == launch::aligned(views, before));
    assert(before[i] == old(config).entries@[i].view());
    assert(after[i] == final(config).entries@[i].view());
    assert(after.len() == final(config).entries@.len());
    assert(before.len() == old(config).entries@.len());
}

/// The agents that a menu is made of have distinct identifiers, and each is told from its
/// commands.
pub proof fn known_agents_are_told_apart(
    name: &str,
    title: &str,
    r: Vec<TerminalAgent>,
    i: int,
)
    requires
        call_ensures(terminal_agents, (name, title), r),
        0 <= i < r@.len(),
    ensures
        r@.len() == 10,
        i > 0 ==> begins_with(r@[i].command@, r@[i].prefix@),
        r@[0].id@ == name@ && r@[0].prefix@ == name@ && begins_with(r@[0].command@, name@),
        begins_with(r@[0].label@, title@),
        seq![
            "codex"@,
            "copilot"@,
            "grok"@,
            "antigravity"@,
            "cursor"@,
            "opencode"@,
            "kiro"@,
            "pi"@,
            "crush"@,
        ][i - 1] == r@[i].id@ || i == 0,
        r@[i].kind == seq![
            TerminalAgentKind::Claude,
            TerminalAgentKind::Codex,
            TerminalAgentKind::Copilot,
            TerminalAgentKind::Grok,
            TerminalAgentKind::Antigravity,
            TerminalAgentKind::Cursor,
            TerminalAgentKind::OpenCode,
            TerminalAgentKind::Kiro,
            TerminalAgentKind::Pi,
            TerminalAgentKind::Crush,
        ][i],
{
    let views = launch::agent_views(r@);
    assert(views == launch::known_agents(name@, title@));
    assert(views.len() == r@.len());
    assert(views[i] == r@[i].view());
    assert(views[0] == r@[0].view());
    reveal_strlit("codex");
    reveal_strlit("copilot");
    reveal_strlit("grok");
    reveal_strlit("agy");
    reveal_strlit("cursor-agent");
    reveal_strlit("opencode");
    reveal_strlit("kiro-cli");
    reveal_strlit("pi");
    reveal_strlit("crush");
    reveal_strlit("codex --dangerously-bypass-approvals-and-sandbox");
    reveal_strlit("copilot --allow-all");
    reveal_strlit("grok --always-approve");
    reveal_strlit("agy --dangerously-skip-permissions");
    reveal_strlit("cursor-agent --force");
    reveal_strlit("opencode --auto");
    reveal_strlit("kiro-cli chat --v3 --trust-all-tools");
    reveal_strlit("pi --approve");
    reveal_strlit("crush --yolo");
    assert(r@[0].command@.subrange(0, name@.len() as int) =~= name@);
    assert(r@[0].label@.subrange(0, title@.len() as int) =~= title@);
    if i > 0 {
        assert(r@[i].command@.subrange(0, r@[i].prefix@.len() as int) =~= r@[i].prefix@);
    }
}

/// Entries that are offered come in the order of the menu.
pub proof fn offered_entries_keep_their_order(
    config: &LaunchConfig,
    r: Vec<LaunchEntry>,
    i: int,
    j: int,
)
    requires
        call_ensures(active_launch_entries, (config,), r),
        0 <= i < j < r@.len(),
    ensures
        exists|a: int, b: int|
            0 <= a < b < config.entries@.len() && (#[trigger] config.entries@[a]).view()
                == r@[i].view() && (#[trigger] config.entries@[b]).view() == r@[j].view(),
{
    let all = launch::entry_views(config.entries@);
    let keep = |entry: EntryView| launch::is_active(entry);
    let out = launch::entry_views(r@);
    assert(out == all.filter(keep));
    assert(out[i] == r@[i].view() && out[j] == r@[j].view());
    lists::picked_items_keep_their_order(all, keep, i, j);
    let (a, b) = choose|a: int, b: int|
        0 <= a < b < all.len() && #[trigger] all[a] == out[i] && #[trigger] all[b] == out[j];
    assert(config.entries@[a].view() == all[a] && config.entries@[b].view() == all[b]);
}

/// The entry is the agent's own.
pub open spec fn is_entry_for(entry: EntryView, agent: TerminalAgent) -> bool {
    entry.label == agent.label@ && entry.command == agent.command@ && entry.provider == Some(
        agent.id@,
    )
}

/// The entry had no provider and one of the agent's commands, and now has its provider.
pub open spec fn is_claimed_for(
    before: EntryView,
    after: EntryView,
    agent: TerminalAgent,
) -> bool {
    before.provider is None && after.provider == Some(agent.id@) && (text::trimmed(before.command)
        == agent.command@ || was_released(agent, before.command))
}

proof fn lemma_aligned(agents: Seq<TerminalAgent>, entries: Seq<EntryView>, count: int)
    requires
        0 <= count <= agents.len(),
    ensures
        ({
            let out = launch::aligned_up_to(launch::agent_views(agents), entries, count);
            &&& entries.len() <= out.len() <= entries.len() + count
            &&& forall|i: int|
                entries.len() <= i < out.len() ==> exists|a: int|
                    0 <= a < count && is_entry_for(#[trigger] out[i], #[trigger] agents[a])
            &&& forall|i: int|
                0 <= i < entries.len() ==> (#[trigger] out[i]).command == entries[i].command && (
                out[i].provider == entries[i].provider || exists|a: int|
                    0 <= a < count && is_claimed_for(entries[i], out[i], #[trigger] agents[a]))
        }),
    decreases count,
{
    if count > 0 {
        lemma_aligned(agents, entries, count - 1);
        let views = launch::agent_views(agents);
        let agent = agents[count - 1];
        assert(views[count - 1] == agent.view());
        let before = launch::aligned_up_to(views, entries, count - 1);
        let out = launch::aligned_up_to(views, entries, count);
        assert(out == launch::aligned_for(before, agent.view()));
        if launch::has_entry(before, agent.view()) {
            let found = choose|i: int|
                0 <= i < before.len() && launch::is_entry_of(#[trigger] before[i], agent.view());
            launch::lemma_first_exists(before, agent.view(), found);
            let at = choose|at: int| launch::first_entry_at(before, agent.view(), at);
            assert(launch::first_entry_at(before, agent.view(), at));
            assert(out =~= before.update(
                at,
                EntryView { provider: Some(agent.id@), ..before[at] },
            ));
            assert forall|i: int| entries.len() <= i < out.len() implies exists|a: int|
                0 <= a < count && is_entry_for(#[trigger] out[i], #[trigger] agents[a]) by {
                let a = choose|a: int|
                    0 <= a < count - 1 && is_entry_for(before[i], #[trigger] agents[a]);
                assert(is_entry_for(before[i], agents[a]));
                if i == at {
                    assert(before[i].provider == Some(agent.id@));
                }
                assert(is_entry_for(out[i], agents[a]));
            }
            assert forall|i: int| 0 <= i < entries.len() implies (
            #[trigger] out[i]).command == entries[i].command && (out[i].provider
                == entries[i].provider || exists|a: int|
                0 <= a < count && is_claimed_for(entries[i], out[i], #[trigger] agents[a])) by {
                assert(before[i].command == entries[i].command);
                if i == at {
                    if before[i].provider is None {
                        if before[i].provider == entries[i].provider {
                            assert(is_claimed_for(entries[i], out[i], agents[count - 1]));
                        }
                    } else if before[i].provider != entries[i].provider {
                        let a = choose|a: int|
                            0 <= a < count - 1 && is_claimed_for(
                                entries[i],
                                before[i],
                                #[trigger] agents[a],
                            );
                        assert(out[i] == before[i]);
                        assert(is_claimed_for(entries[i], out[i], agents[a]));
                    }
                } else {
                    assert(out[i] == before[i]);
                    if before[i].provider != entries[i].provider {
                        let a = choose|a: int|
                            0 <= a < count - 1 && is_claimed_for(
                                entries[i],
                                before[i],
                                #[trigger] agents[a],
                            );
                        assert(is_claimed_for(entries[i], out[i], agents[a]));
                    }
                }
            }
        } else {
            assert(out =~= before.push(launch::builtin_entry(agent.view())));
            assert forall|i: int| entries.len() <= i < out.len() implies exists|a: int|
                0 <= a < count && is_entry_for(#[trigger] out[i], #[trigger] agents[a]) by {
                if i < before.len() {
                    let a = choose|a: int|
                        0 <= a < count - 1 && is_entry_for(before[i], #[trigger] agents[a]);
                    assert(is_entry_for(out[i], agents[a]));
                } else {
                    assert(is_entry_for(out[i], agents[count - 1]));
                }
            }
            assert forall|i: int| 0 <= i < entries.len() implies (
            #[trigger] out[i]).command == entries[i].command && (out[i].provider
                == entries[i].provider || exists|a: int|
                0 <= a < count && is_claimed_for(entries[i], out[i], #[trigger] agents[a])) by {
                assert(out[i] == before[i]);
                if before[i].provider != entries[i].provider {
                    let a = choose|a: int|
                        0 <= a < count - 1 && is_claimed_for(
                            entries[i],
                            before[i],
                            #[trigger] agents[a],
                        );
                    assert(is_claimed_for(entries[i], out[i], agents[a]));
                }
            }
        }
    }
}

/// What is added behind the stored entries are agents' own entries; a stored entry without a
/// provider gets that of an agent only where it has one of its commands.
pub proof fn aligning_adds_agents_entries(
    agents: &Vec<TerminalAgent>,
    config: &mut LaunchConfig,
    r: bool,
    i: int,
)
    requires
        call_ensures(ensure_builtin_launch_entries, (agents, config), r),
        0 <= i < final(config).entries@.len(),
    ensures
        final(config).entries@.len() <= old(config).entries@.len() + agents@.len(),
        i >= old(config).entries@.len() ==> exists|a: int|
            0 <= a < agents@.len() && is_entry_for(
                final(config).entries@[i].view(),
                #[trigger] agents@[a],
            ),
        i < old(config).entries@.len() ==> final(config).entries@[i].view().provider == old(config).entries@[i].view().provider || exists|a: int|
            0 <= a < agents@.len() && is_claimed_for(
                old(config).entries@[i].view(),
                final(config).entries@[i].view(),
                #[trigger] agents@[a],
            ),
        !r ==> final(config).entries@.len() == old(config).entries@.len(),
        !r && i < old(config).entries@.len() ==> final(config).entries@[i].view() == old(config).entries@[i].view(),
{
    let before = launch::entry_views(old(config).entries@);
    let after = launch::entry_views(final(config).entries@);
    lemma_aligned(agents@, before, agents@.len() as int);
    assert(launch::agent_views(agents@).len() == agents@.len());
    assert(after == launch::aligned_up_to(
        launch::agent_views(agents@),
        before,
        agents@.len() as int,
    ));
    assert(after.len() == final(config).entries@.len());
    assert(before.len() == old(config).entries@.len());
    assert(after[i] == final(config).entries@[i].view());
    if i < before.len() {
        assert(before[i] == old(config).entries@[i].view());
    }
}

/// The agent has this label, this command, commands that begin so, and this command of an earlier
/// release.
pub open spec fn is_agent(
    agent: TerminalAgent,
    label: Seq<char>,
    command: Seq<char>,
    prefix: Seq<char>,
    released: Option<Seq<char>>,
) -> bool {
    &&& agent.label@ == label
    &&& agent.command@ == command
    &&& agent.prefix@ == prefix
    &&& agent.released is Some <==> released is Some
    &&& agent.released is Some ==> (agent.released->0)@ == released->0
}

/// What the agents are called and started with.
pub proof fn agents_are_started_so(name: &str, title: &str, r: Vec<TerminalAgent>)
    requires
        call_ensures(terminal_agents, (name, title), r),
    ensures
        r@.len() == 10,
        is_agent(
            r@[0],
            title@ + " Code"@,
            name@ + " --dangerously-skip-permissions"@,
            name@,
            None,
        ),
        is_agent(r@[1], "Codex"@, "codex --dangerously-bypass-approvals-and-sandbox"@, "codex"@, Some("codex --dangerously-bypass-approvals-and-sandbox -c 'tui.terminal_title=[\"thread-title\"]'"@)),
        is_agent(r@[2], "GitHub Copilot"@, "copilot --allow-all"@, "copilot"@, None),
        is_agent(r@[3], "Grok"@, "grok --always-approve"@, "grok"@, Some("grok"@)),
        is_agent(r@[4], "Antigravity"@, "agy --dangerously-skip-permissions"@, "agy"@, Some("agy"@)),
        is_agent(r@[5], "Cursor Agent"@, "cursor-agent --force"@, "cursor-agent"@, None),
        is_agent(r@[6], "OpenCode"@, "opencode --auto"@, "opencode"@, None),
        is_agent(r@[7], "Kiro"@, "kiro-cli chat --v3 --trust-all-tools"@, "kiro-cli"@, Some("kiro-cli chat --trust-all-tools"@)),
        is_agent(r@[8], "Pi"@, "pi --approve"@, "pi"@, Some("pi"@)),
        is_agent(r@[9], "Crush"@, "crush --yolo"@, "crush"@, None),
{
    let views = launch::agent_views(r@);
    assert(views == launch::known_agents(name@, title@));
    assert(views.len() == r@.len());
    assert(views[0] == r@[0].view());
    assert(views[1] == r@[1].view());
    assert(views[2] == r@[2].view());
    assert(views[3] == r@[3].view());
    assert(views[4] == r@[4].view());
    assert(views[5] == r@[5].view());
    assert(views[6] == r@[6].view());
    assert(views[7] == r@[7].view());
    assert(views[8] == r@[8].view());
    assert(views[9] == r@[9].view());
}

/// The entry names the agent, or names none and has one of its commands.
pub open spec fn belongs_to(entry: EntryView, agent: TerminalAgent) -> bool {
    entry.provider == Some(agent.id@) || (entry.provider is None && (text::trimmed(entry.command)
        == agent.command@ || was_released(agent, entry.command)))
}

/// In an aligned menu the first entry that belongs to an agent names it.
pub proof fn first_entries_name_their_agent(
    agents: &Vec<TerminalAgent>,
    config: &mut LaunchConfig,
    r: bool,
    a: int,
    i: int,
)
    requires
        call_ensures(ensure_builtin_launch_entries, (agents, config), r),
        forall|x: int, y: int|
            0 <= x < y < agents@.len() ==> (#[trigger] agents@[x]).id@ != (
            #[trigger] agents@[y]).id@,
        0 <= a < agents@.len(),
        0 <= i < final(config).entries@.len(),
        belongs_to(final(config).entries@[i].view(), agents@[a]),
        forall|k: int|
            0 <= k < i ==> !belongs_to((#[trigger] final(config).entries@[k]).view(), agents@[a]),
    ensures
        final(config).entries@[i].provider is Some,
        (final(config).entries@[i].provider->0)@ == agents@[a].id@,
{
    let views = launch::agent_views(agents@);
    let before = launch::entry_views(old(config).entries@);
    let all = launch::entry_views(final(config).entries@);
    assert(views.len() == agents@.len());
    assert(all.len() == final(config).entries@.len());
    assert(views[a] == agents@[a].view());
    assert forall|x: int, y: int| 0 <= x < y < views.len() implies (#[trigger] views[x]).id != (
    #[trigger] views[y]).id by {
        assert(views[x] == agents@[x].view());
        assert(views[y] == agents@[y].view());
    }
    launch::lemma_aligned_up_to(views, before, views.len() as int);
    assert(all == launch::aligned(views, before));
    let at = choose|at: int| #[trigger]
        launch::first_entry_at(all, views[a], at) && all[at].provider == Some(views[a].id);
    assert(all[at] == final(config).entries@[at].view());
    assert(all[i] == final(config).entries@[i].view());
    if at < i {
        assert(belongs_to(final(config).entries@[at].view(), agents@[a]));
    }
    if i < at {
        assert(!launch::is_entry_of(all[i], views[a]));
    }
}

} // verus!
