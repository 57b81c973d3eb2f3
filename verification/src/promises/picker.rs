//! What starting a session promises.

use vstd::prelude::*;

use crate::promises::launch::{
    lemma_agent_of_command, lemma_agent_with_id, lemma_one_agent, runs_agent,
};
use crate::session_list::conversation;
use crate::session_list::conversation::{
    acp_cmd_for, conversation_launch, conversation_options, initial_acp_config_for,
    initial_agent_conversation_config_for, AcpAgentOption, AgentDefinition, AgentHost,
    AgentProfile, ConversationAgentKind, ConversationLaunch, OptionView,
};
use crate::session_list::new_session;
use crate::session_list::new_session::{
    picker_item_icon, picker_key, picker_pin_tip, picker_row_label, IndexPath, NewSessionAction, NewSessionKind,
    NewSessionPickerState, NewSessionRequest, NewSessionTarget, PickerRow, PickerRowView,
};
use crate::session_list::row::RowIcon;
use crate::settings::launch;
use crate::settings::launch::TerminalAgent;
use crate::text;

verus! {

/// One of the options is this one.
pub open spec fn offers(
    options: Seq<AcpAgentOption>,
    id: Seq<char>,
    kind: Seq<char>,
    label: Seq<char>,
    profile: bool,
    definition: Option<Seq<char>>,
) -> bool {
    exists|k: int|
        0 <= k < options.len() && (#[trigger] options[k]).view() == (OptionView {
            id,
            kind,
            label,
            profile,
            agent_definition_id: definition,
        })
}

proof fn lemma_definition(agents: Seq<AgentDefinition>, i: int)
    requires
        0 <= i < agents.len(),
        conversation::definition_option(agents[i]) is Some,
    ensures
        conversation::definition_options(agents).contains(
            conversation::definition_option(agents[i])->0,
        ),
    decreases agents.len(),
{
    let wanted = conversation::definition_option(agents[i])->0;
    let before = conversation::definition_options(agents.drop_last());
    let after = conversation::definition_options(agents);
    if i < agents.len() - 1 {
        lemma_definition(agents.drop_last(), i);
        let k = choose|k: int| 0 <= k < before.len() && before[k] == wanted;
        assert(after[k] == wanted);
    } else {
        assert(after[after.len() - 1] == wanted);
    }
}

proof fn lemma_kind(kinds: Seq<ConversationAgentKind>, i: int)
    requires
        0 <= i < kinds.len(),
        conversation::kind_option(kinds[i]) is Some,
    ensures
        conversation::kind_options(kinds).contains(conversation::kind_option(kinds[i])->0),
    decreases kinds.len(),
{
    let wanted = conversation::kind_option(kinds[i])->0;
    let before = conversation::kind_options(kinds.drop_last());
    let after = conversation::kind_options(kinds);
    if i < kinds.len() - 1 {
        lemma_kind(kinds.drop_last(), i);
        let k = choose|k: int| 0 <= k < before.len() && before[k] == wanted;
        assert(after[k] == wanted);
    } else {
        assert(after[after.len() - 1] == wanted);
    }
}

proof fn lemma_profile(profiles: Seq<AgentProfile>, i: int)
    requires
        0 <= i < profiles.len(),
        conversation::profile_option(profiles[i]) is Some,
    ensures
        conversation::profile_options(profiles).contains(
            conversation::profile_option(profiles[i])->0,
        ),
    decreases profiles.len(),
{
    let wanted = conversation::profile_option(profiles[i])->0;
    let before = conversation::profile_options(profiles.drop_last());
    let after = conversation::profile_options(profiles);
    if i < profiles.len() - 1 {
        lemma_profile(profiles.drop_last(), i);
        let k = choose|k: int| 0 <= k < before.len() && before[k] == wanted;
        assert(after[k] == wanted);
    } else {
        assert(after[after.len() - 1] == wanted);
    }
}

/// Every agent that is ready and has an engine, every kind that starts by itself, and every profile
/// that can be launched is offered, under its own name and for its own engine.
pub proof fn all_that_can_start_is_offered(host: &AgentHost, r: Vec<AcpAgentOption>, i: int)
    requires
        call_ensures(conversation_options, (host,), r),
    ensures
        0 <= i < host.agents@.len() && host.agents@[i].ready ==> (
        host.agents@[i].engine matches Some(engine) ==> offers(
            r@,
            "agent:"@ + host.agents@[i].id@,
            engine@,
            text::trimmed(host.agents@[i].name@),
            false,
            Some(host.agents@[i].id@),
        )),
        0 <= i < host.kinds@.len() && host.kinds@[i].bare ==> offers(
            r@,
            host.kinds@[i].id@,
            host.kinds@[i].id@,
            host.kinds@[i].label@,
            false,
            None,
        ),
        0 <= i < host.profiles@.len() && host.profiles@[i].launchable ==> (
        host.profiles@[i].kind matches Some(kind) ==> offers(
            r@,
            "profile:"@ + host.profiles@[i].id@,
            kind@,
            host.profiles@[i].label@,
            true,
            None,
        )),
{
    let out = conversation::option_views(r@);
    let a = conversation::definition_options(host.agents@);
    let b = conversation::kind_options(host.kinds@);
    let c = conversation::profile_options(host.profiles@);
    assert(out == a + b + c);
    assert(out.len() == r@.len());
    assert forall|k: int| 0 <= k < r@.len() implies out[k] == (#[trigger] r@[k]).view() by {
    }
    if 0 <= i < host.agents@.len() && conversation::definition_option(host.agents@[i]) is Some {
        lemma_definition(host.agents@, i);
        let wanted = conversation::definition_option(host.agents@[i])->0;
        let k = choose|k: int| 0 <= k < a.len() && a[k] == wanted;
        assert(out[k] == wanted);
        assert(r@[k].view() == wanted);
    }
    if 0 <= i < host.kinds@.len() && host.kinds@[i].bare {
        lemma_kind(host.kinds@, i);
        let wanted = conversation::kind_option(host.kinds@[i])->0;
        let k = choose|k: int| 0 <= k < b.len() && b[k] == wanted;
        assert(out[a.len() + k] == wanted);
        assert(r@[a.len() + k].view() == wanted);
    }
    if 0 <= i < host.profiles@.len() && conversation::profile_option(
        host.profiles@[i],
    ) is Some {
        lemma_profile(host.profiles@, i);
        let wanted = conversation::profile_option(host.profiles@[i])->0;
        let k = choose|k: int| 0 <= k < c.len() && c[k] == wanted;
        assert(out[a.len() + b.len() + k] == wanted);
        assert(r@[a.len() + b.len() + k].view() == wanted);
    }
}

proof fn lemma_definition_count(agents: Seq<AgentDefinition>)
    ensures
        conversation::definition_options(agents).len() <= agents.len(),
    decreases agents.len(),
{
    if agents.len() > 0 {
        lemma_definition_count(agents.drop_last());
    }
}

proof fn lemma_kind_count(kinds: Seq<ConversationAgentKind>)
    ensures
        conversation::kind_options(kinds).len() <= kinds.len(),
    decreases kinds.len(),
{
    if kinds.len() > 0 {
        lemma_kind_count(kinds.drop_last());
    }
}

proof fn lemma_profile_count(profiles: Seq<AgentProfile>)
    ensures
        conversation::profile_options(profiles).len() <= profiles.len(),
    decreases profiles.len(),
{
    if profiles.len() > 0 {
        lemma_profile_count(profiles.drop_last());
    }
}

/// Nothing is offered beyond what the host has.
pub proof fn nothing_is_offered_twice(host: &AgentHost, r: Vec<AcpAgentOption>)
    requires
        call_ensures(conversation_options, (host,), r),
    ensures
        r@.len() <= host.agents@.len() + host.kinds@.len() + host.profiles@.len(),
{
    lemma_definition_count(host.agents@);
    lemma_kind_count(host.kinds@);
    lemma_profile_count(host.profiles@);
    assert(conversation::option_views(r@).len() == r@.len());
}

proof fn lemma_first_at(ids: Seq<Seq<char>>, id: Seq<char>, from: int)
    requires
        0 <= from <= ids.len(),
    ensures
        match conversation::first_at(ids, id, from) {
            Some(at) => from <= at < ids.len() && ids[at] == id && forall|i: int|
                from <= i < at ==> #[trigger] ids[i] != id,
            None => forall|i: int| from <= i < ids.len() ==> #[trigger] ids[i] != id,
        },
    decreases ids.len() - from,
{
    if from < ids.len() && ids[from] != id {
        lemma_first_at(ids, id, from + 1);
    }
}

/// What is started is the agent, profile or kind that the option names, and it can be started.
pub proof fn options_start_what_they_name(
    option_id: &str,
    host: &AgentHost,
    r: Option<ConversationLaunch>,
)
    requires
        call_ensures(conversation_launch, (option_id, host), r),
    ensures
        r matches Some(ConversationLaunch::Agent(at)) ==> at < host.agents@.len() && option_id@
            == "agent:"@ + host.agents@[at as int].id@ && host.agents@[at as int].launchable,
        r matches Some(ConversationLaunch::Profile(at)) ==> at < host.profiles@.len() && option_id@
            == "profile:"@ + host.profiles@[at as int].id@ && host.profiles@[at as int].launchable
            && host.profiles@[at as int].kind is Some,
        r matches Some(ConversationLaunch::Bare(at)) ==> at < host.kinds@.len() && option_id@
            == host.kinds@[at as int].id@,
{
    let option = option_id@;
    let agents = conversation::definition_ids(host.agents@);
    let profiles = conversation::profile_ids(host.profiles@);
    let kinds = conversation::kind_ids(host.kinds@);
    assert(host.agents@.len() == host.agents.len());
    assert(host.profiles@.len() == host.profiles.len());
    assert(host.kinds@.len() == host.kinds.len());
    if text::has_prefix(option, "agent:"@) {
        let name = option.skip("agent:"@.len() as int);
        lemma_first_at(agents, name, 0);
        assert(option =~= "agent:"@ + name);
    } else if text::has_prefix(option, "profile:"@) {
        let name = option.skip("profile:"@.len() as int);
        lemma_first_at(profiles, name, 0);
        assert(option =~= "profile:"@ + name);
    } else {
        lemma_first_at(kinds, option, 0);
    }
}

/// A configured command or configuration is used as it is; else the default, or full access where
/// the agent has a mode for it.
pub proof fn configurations_come_first(
    command: Option<String>,
    default: &str,
    run: String,
    configured: Option<Vec<(String, String)>>,
    session: Vec<(String, String)>,
    values: Vec<(String, String)>,
    mode: Option<&str>,
    begins: Vec<(String, String)>,
)
    requires
        call_ensures(acp_cmd_for, (command, default), run),
        call_ensures(initial_acp_config_for, (configured, session), values),
        call_ensures(initial_agent_conversation_config_for, (configured, mode), begins),
    ensures
        command matches Some(own) ==> run@ == own@,
        command is None ==> run@ == default@,
        configured matches Some(own) ==> values@ == own@ && begins@ == own@,
        configured is None ==> values@ == session@,
        configured is None && mode is None ==> begins@.len() == 0,
        configured is None ==> (mode matches Some(wanted) ==> begins@.len() == 1 && (
        begins@[0].0)@ == "mode"@ && (begins@[0].1)@ == wanted@),
{
}

/// The place holds an entry.
pub open spec fn holds_entry(state: NewSessionPickerState, at: IndexPath) -> bool {
    at.section < state.sections@.len() && at.row < state.sections@[at.section as int]@.len()
}

/// Nothing is started where nothing is selected; a terminal gets the command of the entry that is
/// selected, a blank one gets none, and both start in the folder of the picker.
pub proof fn what_is_selected_starts(
    state: &NewSessionPickerState,
    host: &AgentHost,
    r: Option<NewSessionRequest>,
    closes: bool,
)
    requires
        call_ensures(NewSessionPickerState::confirm, (state, host), r),
        call_ensures(NewSessionPickerState::confirming_closes, (state,), closes),
    ensures
        closes <==> state.selected_index is Some && holds_entry(*state, state.selected_index->0),
        !closes ==> r is None,
        closes ==> {
            let at = state.selected_index->0;
            let action = state.sections@[at.section as int]@[at.row as int];
            match action.target {
                NewSessionTarget::BlankTerminal => r matches Some(NewSessionRequest::Blank { cwd })
                    && new_session::maybe_text(cwd) == new_session::maybe_text(state.cwd),
                NewSessionTarget::Terminal { command, provider } => r matches Some(
                    NewSessionRequest::Terminal { cwd, entry },
                ) && entry.command@ == command@ && entry.label@.len() == 0 && new_session::maybe_text(
                    entry.provider,
                )
                    == new_session::maybe_text(provider) && new_session::maybe_text(cwd)
                    == new_session::maybe_text(state.cwd),
                NewSessionTarget::Conversation { .. } => r is None || (r matches Some(
                    NewSessionRequest::Conversation { cwd, .. },
                ) && new_session::maybe_text(cwd) == new_session::maybe_text(state.cwd)),
            }
        },
{
    assert(new_session::maybe_request(r) is Some <==> r is Some);
}

/// A conversation is started as its option says.
pub proof fn conversations_start_by_their_option(
    state: &NewSessionPickerState,
    host: &AgentHost,
    r: Option<NewSessionRequest>,
    option: &str,
    launch: Option<ConversationLaunch>,
)
    requires
        call_ensures(NewSessionPickerState::confirm, (state, host), r),
        call_ensures(conversation_launch, (option, host), launch),
        state.selected_index is Some,
        holds_entry(*state, state.selected_index->0),
        state.sections@[(state.selected_index->0).section as int]@[(
        state.selected_index->0).row as int].target matches NewSessionTarget::Conversation {
            agent_option_id,
            ..
        } && agent_option_id@ == option@,
    ensures
        launch is None ==> r is None,
        launch matches Some(start) ==> (r matches Some(NewSessionRequest::Conversation {
            launch: started,
            ..
        }) && started == start),
{
    assert(new_session::maybe_request(r) is Some <==> r is Some);
}

/// Selecting a place changes that alone, and tells whether it did; entries are found at their
/// places.
pub proof fn selections_change_nothing_else(
    state: &mut NewSessionPickerState,
    index: Option<IndexPath>,
    changed: bool,
    still: &NewSessionPickerState,
    at: IndexPath,
    found: Option<&NewSessionAction>,
)
    requires
        call_ensures(NewSessionPickerState::set_selected_index, (state, index), changed),
        call_ensures(NewSessionPickerState::item_at, (still, at), found),
    ensures
        final(state).selected_index == index,
        final(state).sections == old(state).sections,
        final(state).cwd == old(state).cwd,
        final(state).source_actions == old(state).source_actions,
        !changed <==> old(state).selected_index == index,
        found is Some <==> holds_entry(*still, at),
        found matches Some(action) ==> *action == still.sections@[at.section as int]@[at.row as int],
{
}

proof fn lemma_places(sections: Seq<Vec<NewSessionAction>>, k: int)
    requires
        0 <= k < new_session::places(sections).len(),
        sections.len() <= usize::MAX,
    ensures
        new_session::is_place(sections, new_session::places(sections)[k]),
    decreases sections.len(),
{
    if sections.len() > 0 {
        let before = new_session::places(sections.drop_last());
        assert(sections.last()@.len() == sections.last().len());
        if k < before.len() {
            lemma_places(sections.drop_last(), k);
        }
    }
}

proof fn lemma_every_place(sections: Seq<Vec<NewSessionAction>>, at: IndexPath)
    requires
        new_session::is_place(sections, at),
        sections.len() <= usize::MAX,
    ensures
        new_session::places(sections).contains(at),
    decreases sections.len(),
{
    let before = new_session::places(sections.drop_last());
    let all = new_session::places(sections);
    if at.section < sections.len() - 1 {
        lemma_every_place(sections.drop_last(), at);
        let k = choose|k: int| 0 <= k < before.len() && before[k] == at;
        assert(all[k] == at);
    } else {
        assert(all[before.len() + at.row] == at);
    }
}

/// One place comes before another in the list.
pub open spec fn comes_before(a: IndexPath, b: IndexPath) -> bool {
    a.section < b.section || (a.section == b.section && a.row < b.row)
}

proof fn lemma_places_in_order(sections: Seq<Vec<NewSessionAction>>, i: int, j: int)
    requires
        0 <= i < j < new_session::places(sections).len(),
        sections.len() <= usize::MAX,
    ensures
        comes_before(new_session::places(sections)[i], new_session::places(sections)[j]),
    decreases sections.len(),
{
    if sections.len() > 0 {
        let before = new_session::places(sections.drop_last());
        assert(sections.last()@.len() == sections.last().len());
        if j < before.len() {
            lemma_places_in_order(sections.drop_last(), i, j);
        } else if i < before.len() {
            lemma_places(sections.drop_last(), i);
        }
    }
}

/// The list goes through every entry once, section by section and row by row.
pub proof fn lists_go_through_every_entry(
    state: &NewSessionPickerState,
    r: Vec<IndexPath>,
    at: IndexPath,
    i: int,
    j: int,
)
    requires
        call_ensures(NewSessionPickerState::indices, (state,), r),
    ensures
        0 <= i < r@.len() ==> holds_entry(*state, r@[i]),
        0 <= i < j < r@.len() ==> comes_before(r@[i], r@[j]),
        holds_entry(*state, at) ==> exists|k: int| 0 <= k < r@.len() && #[trigger] r@[k] == at,
{
    assert(state.sections@.len() == state.sections.len());
    if 0 <= i < r@.len() {
        lemma_places(state.sections@, i);
    }
    if 0 <= i < j < r@.len() {
        lemma_places_in_order(state.sections@, i, j);
    }
    if holds_entry(*state, at) {
        lemma_every_place(state.sections@, at);
        let k = choose|k: int|
            0 <= k < new_session::places(state.sections@).len() && new_session::places(
                state.sections@,
            )[k] == at;
        assert(r@[k] == at);
    }
}

proof fn lemma_position(all: Seq<IndexPath>, at: IndexPath, from: int)
    requires
        0 <= from <= all.len(),
    ensures
        match new_session::position(all, at, from) {
            Some(k) => from <= k < all.len() && all[k] == at && forall|i: int|
                from <= i < k ==> #[trigger] all[i] != at,
            None => forall|i: int| from <= i < all.len() ==> #[trigger] all[i] != at,
        },
    decreases all.len() - from,
{
    if from < all.len() && all[from] != at {
        lemma_position(all, at, from + 1);
    }
}

/// Down goes to the next entry of the list and from the last to the first; up goes back, and from
/// the first to the last. Where nothing is selected both select the first.
pub proof fn arrows_go_round_the_list(
    down: &mut NewSessionPickerState,
    up: &mut NewSessionPickerState,
    still: &NewSessionPickerState,
    list: Vec<IndexPath>,
    i: int,
)
    requires
        call_ensures(NewSessionPickerState::select_next, (down,), ()),
        call_ensures(NewSessionPickerState::select_previous, (up,), ()),
        call_ensures(NewSessionPickerState::indices, (still,), list),
        *old(down) == *still,
        *old(up) == *still,
    ensures
        final(down).sections == old(down).sections && final(up).sections == old(up).sections,
        final(down).cwd == old(down).cwd && final(up).cwd == old(up).cwd,
        list@.len() == 0 ==> final(down).selected_index is None && final(up).selected_index is None,
        list@.len() > 0 && still.selected_index is None ==> final(down).selected_index == Some(
            list@[0],
        ) && final(up).selected_index == Some(list@[0]),
        0 <= i < list@.len() && still.selected_index == Some(list@[i]) ==> final(down).selected_index == Some(list@[if i == list@.len() - 1 {
            0
        } else {
            i + 1
        }]),
        0 <= i < list@.len() && still.selected_index == Some(list@[i]) ==> final(up).selected_index == Some(list@[if i == 0 {
            list@.len() - 1
        } else {
            i - 1
        }]),
{
    let all = new_session::places(still.sections@);
    assert(still.sections@.len() == still.sections.len());
    if 0 <= i < list@.len() && still.selected_index == Some(list@[i]) {
        lemma_position(all, list@[i], 0);
        let k = new_session::position(all, list@[i], 0)->0;
        if k < i {
            lemma_places_in_order(still.sections@, k, i);
        }
    }
}

proof fn lemma_first_place(sections: Seq<Vec<NewSessionAction>>, from: int)
    requires
        0 <= from <= sections.len() <= usize::MAX,
    ensures
        match new_session::first_place(sections, from) {
            Some(at) => from <= at.section < sections.len() && at.row == 0
                && sections[at.section as int]@.len() > 0 && forall|i: int|
                from <= i < at.section ==> (#[trigger] sections[i])@.len() == 0,
            None => forall|i: int| from <= i < sections.len() ==> (#[trigger] sections[i])@.len()
                == 0,
        },
    decreases sections.len() - from,
{
    if from < sections.len() && sections[from]@.len() == 0 {
        lemma_first_place(sections, from + 1);
    }
}

/// The first entry is the first row of the first section that has any.
pub proof fn the_first_entry_leads_its_section(
    state: &NewSessionPickerState,
    r: Option<IndexPath>,
)
    requires
        call_ensures(NewSessionPickerState::first_index, (state,), r),
    ensures
        r is None <==> forall|i: int|
            0 <= i < state.sections@.len() ==> (#[trigger] state.sections@[i])@.len() == 0,
        r matches Some(at) ==> at.row == 0 && holds_entry(*state, at) && forall|i: int|
            0 <= i < at.section ==> (#[trigger] state.sections@[i])@.len() == 0,
{
    assert(state.sections@.len() == state.sections.len());
    lemma_first_place(state.sections@, 0);
}

proof fn lemma_place_of(
    sections: Seq<Vec<NewSessionAction>>,
    key: Seq<char>,
    section: int,
    row: int,
)
    requires
        0 <= section,
        0 <= row,
        section < sections.len() ==> row <= sections[section]@.len(),
        sections.len() <= usize::MAX,
    ensures
        match new_session::place_of(sections, key, section, row) {
            Some(at) => new_session::is_place(sections, at)
                && sections[at.section as int]@[at.row as int].key@ == key,
            None => forall|s: int, k: int|
                section <= s < sections.len() && 0 <= k < sections[s]@.len() && (s > section || k
                    >= row) ==> (#[trigger] sections[s]@[k]).key@ != key,
        },
    decreases
            sections.len() - section,
            (if section < sections.len() {
                sections[section]@.len() - row
            } else {
                0
            }),
{
    if section < sections.len() {
        assert(sections[section]@.len() == sections[section].len());
        if row < sections[section]@.len() {
            if sections[section]@[row].key@ != key {
                lemma_place_of(sections, key, section, row + 1);
            }
        } else {
            lemma_place_of(sections, key, section + 1, 0);
        }
    }
}

/// An entry is found by its key, and none is where no entry has it.
pub proof fn entries_are_found_by_key(
    state: &NewSessionPickerState,
    key: &str,
    r: Option<IndexPath>,
)
    requires
        call_ensures(NewSessionPickerState::index_for_key, (state, key), r),
    ensures
        match r {
            Some(at) => holds_entry(*state, at)
                && state.sections@[at.section as int]@[at.row as int].key@ == key@,
            None => forall|s: int, k: int|
                0 <= s < state.sections@.len() && 0 <= k < state.sections@[s]@.len() ==> (
                #[trigger] state.sections@[s]@[k]).key@ != key@,
        },
{
    assert(state.sections@.len() == state.sections.len());
    lemma_place_of(state.sections@, key@, 0, 0);
}

/// When the entries change, the selection stays on the entry with the same key; where that is gone,
/// or nothing was selected, the first entry is selected.
pub proof fn selections_stay_on_their_entry(
    state: &mut NewSessionPickerState,
    sections: Vec<Vec<NewSessionAction>>,
    first: Option<IndexPath>,
    fresh: &NewSessionPickerState,
)
    requires
        call_ensures(NewSessionPickerState::sync_sections, (state, sections), ()),
        call_ensures(NewSessionPickerState::first_index, (fresh,), first),
        fresh.sections@ == sections@,
    ensures
        final(state).sections@ == sections@,
        final(state).cwd == old(state).cwd,
        old(state).selected_index is None ==> final(state).selected_index == first,
        old(state).selected_index matches Some(at) ==> (holds_entry(*old(state), at) ==> {
            let key = old(state).sections@[at.section as int]@[at.row as int].key@;
            let gone = forall|s: int, k: int|
                0 <= s < sections@.len() && 0 <= k < sections@[s]@.len() ==> (
                #[trigger] sections@[s]@[k]).key@ != key;
            &&& gone ==> final(state).selected_index == first
            &&& !gone ==> final(state).selected_index is Some && holds_entry(
                *final(state),
                final(state).selected_index->0,
            ) && sections@[(final(state).selected_index->0).section as int]@[(final(state).selected_index->0).row as int].key@ == key
        }),
{
    assert(sections@.len() == sections.len());
    if old(state).selected_index is Some {
        let at = old(state).selected_index->0;
        if holds_entry(*old(state), at) {
            let key = old(state).sections@[at.section as int]@[at.row as int].key@;
            lemma_place_of(sections@, key, 0, 0);
            match new_session::place_of(sections@, key, 0, 0) {
                Some(found) => {
                    assert(sections@[found.section as int]@[found.row as int].key@ == key);
                },
                None => {},
            }
        }
    }
}

/// An entry is labelled with its name and its kind, and its star says what it does.
pub proof fn entries_are_labelled(
    item: &NewSessionAction,
    label: String,
    pinned: bool,
    tip: &'static str,
    cwd: &Option<String>,
    key: String,
)
    requires
        call_ensures(picker_row_label, (item,), label),
        call_ensures(picker_pin_tip, (pinned,), tip),
        call_ensures(picker_key, (cwd,), key),
    ensures
        item.kind is Terminal ==> label@ == item.label@ + " · "@ + "终端"@,
        item.kind is Conversation ==> label@ == item.label@ + " · "@ + "对话"@,
        pinned ==> tip@ == "取消常用"@,
        !pinned ==> tip@ == "加入常用"@,
        cwd matches Some(folder) ==> key@ == "new-session-picker:"@ + folder@,
        cwd is None ==> key@ == "new-session-picker:"@ + "default"@,
{
}

/// The row shows this entry.
pub open spec fn shows_entry(
    row: PickerRow,
    at: IndexPath,
    action: NewSessionAction,
    selected: bool,
) -> bool {
    row matches PickerRow::Entry { index, key, label, selected: marked, starred, tip } && index == at
        && key@ == action.key@ && marked == selected && starred == action.pinned && label@
        == action.label@ + " · "@ + (match action.kind {
        NewSessionKind::Terminal => "终端"@,
        NewSessionKind::Conversation => "对话"@,
    }) && tip@ == if action.pinned {
        "取消常用"@
    } else {
        "加入常用"@
    }
}

proof fn lemma_entry_row(
    sections: Seq<Vec<NewSessionAction>>,
    labels: Seq<Seq<char>>,
    selected: Option<IndexPath>,
    at: IndexPath,
)
    requires
        new_session::is_place(sections, at),
        at.section < labels.len(),
        sections.len() <= usize::MAX,
    ensures
        exists|k: int|
            0 <= k < new_session::section_rows(sections, labels, selected).len()
                && #[trigger] new_session::section_rows(sections, labels, selected)[k]
                == new_session::entry_rows(
                at.section,
                sections[at.section as int]@,
                selected,
            )[at.row as int],
    decreases sections.len(),
{
    let rows = new_session::section_rows(sections, labels, selected);
    let before = new_session::section_rows(sections.drop_last(), labels, selected);
    let wanted = new_session::entry_rows(
        at.section,
        sections[at.section as int]@,
        selected,
    )[at.row as int];
    if at.section < sections.len() - 1 {
        lemma_entry_row(sections.drop_last(), labels, selected, at);
        let k = choose|k: int| 0 <= k < before.len() && #[trigger] before[k] == wanted;
        assert(rows[k] == wanted);
    } else {
        assert(rows[before.len() + 1 + at.row] == wanted);
    }
}

/// Every entry of a section with a heading has a row, which shows its name and its star, and is
/// marked where it is the one selected.
pub proof fn every_entry_has_a_row(
    state: &NewSessionPickerState,
    labels: &Vec<String>,
    r: Vec<PickerRow>,
    at: IndexPath,
)
    requires
        call_ensures(NewSessionPickerState::picker_rows, (state, labels), r),
        holds_entry(*state, at),
        at.section < labels@.len(),
    ensures
        exists|k: int|
            0 <= k < r@.len() && shows_entry(
                #[trigger] r@[k],
                at,
                state.sections@[at.section as int]@[at.row as int],
                state.selected_index == Some(at),
            ),
{
    assert(state.sections@.len() == state.sections.len());
    let out = new_session::row_views(r@);
    let names = text::texts(labels@);
    let rows = new_session::section_rows(state.sections@, names, state.selected_index);
    lemma_entry_row(state.sections@, names, state.selected_index, at);
    let wanted = new_session::entry_rows(
        at.section,
        state.sections@[at.section as int]@,
        state.selected_index,
    )[at.row as int];
    let k = choose|k: int| 0 <= k < rows.len() && #[trigger] rows[k] == wanted;
    assert(out == new_session::rows_of(state.sections@, names, state.selected_index));
    assert(out.len() == r@.len());
    assert(out[k] == wanted);
    assert(out[k] == r@[k].view());
    assert(shows_entry(
        r@[k],
        at,
        state.sections@[at.section as int]@[at.row as int],
        state.selected_index == Some(at),
    ));
}

/// A picker starts with three empty sections and nothing selected; without a folder it has none.
pub proof fn pickers_start_empty(cwd: String, r: NewSessionPickerState)
    requires
        call_ensures(NewSessionPickerState::new, (cwd,), r),
    ensures
        r.cwd is None <==> cwd@.len() == 0,
        r.cwd matches Some(folder) ==> folder@ == cwd@,
        r.selected_index is None,
        r.source_actions@.len() == 0,
        r.sections@.len() == 3,
        forall|i: int| 0 <= i < 3 ==> (#[trigger] r.sections@[i])@.len() == 0,
{
    let views = new_session::section_views(r.sections@);
    assert(views.len() == r.sections@.len());
    assert forall|i: int| 0 <= i < 3 implies (#[trigger] r.sections@[i])@.len() == 0 by {
        assert(views[i] == new_session::action_views(r.sections@[i]@));
        assert(views[i].len() == r.sections@[i]@.len());
    }
}

/// The icon is the picture of the agent.
pub open spec fn pictures(icon: RowIcon, id: Seq<char>) -> bool {
    icon matches RowIcon::Asset(path) && path@ == "smelt-icons/agent-"@ + id + ".svg"@
}

/// A terminal shows the agent that its entry names; where it names none that is known, the one that
/// its command runs; where it runs none, a terminal. A conversation shows its agent where that is
/// known.
pub proof fn entries_show_their_agent(
    agents: &Vec<TerminalAgent>,
    target: &NewSessionTarget,
    known: bool,
    r: RowIcon,
    a: int,
)
    requires
        call_ensures(picker_item_icon, (agents, target, known), r),
    ensures
        target is BlankTerminal ==> r is SquareTerminal,
        *target matches NewSessionTarget::Conversation { agent_kind, .. } ==> (known ==> pictures(
            r,
            agent_kind@,
        )) && (!known ==> r is Bot),
        *target matches NewSessionTarget::Terminal { command, provider } ==> {
            let named = provider is Some && exists|k: int|
                0 <= k < agents@.len() && (#[trigger] agents@[k]).id@ == (provider->0)@;
            &&& named ==> pictures(r, (provider->0)@)
            &&& !named && runs_agent(agents@, command@, a) ==> pictures(r, agents@[a].id@)
            &&& !named && (forall|k: int| !(#[trigger] runs_agent(agents@, command@, k))) ==> r
                is SquareTerminal
        },
{
    match *target {
        NewSessionTarget::Terminal { command, provider } => {
            if provider is Some {
                lemma_agent_with_id(agents@, (provider->0)@, 0);
            }
            lemma_agent_of_command(agents@, command@, 0);
            match launch::agent_of_command(launch::agent_views(agents@), command@) {
                Some(agent) => {
                    let other = choose|k: int| #[trigger]
                        runs_agent(agents@, command@, k) && agents@[k].view() == agent;
                    if runs_agent(agents@, command@, a) {
                        lemma_one_agent(agents@, command@, a, other);
                    }
                },
                None => {},
            }
        },
        _ => {},
    }
}

proof fn lemma_filled(sections: Seq<Vec<NewSessionAction>>)
    ensures
        new_session::filled(sections) == sections.filter(
            |section: Vec<NewSessionAction>| section@.len() > 0,
        ).len(),
    decreases sections.len(),
{
    reveal(Seq::filter);
    if sections.len() > 0 {
        lemma_filled(sections.drop_last());
    }
}

/// The list is as high as its rows, seven at most, and the headings of the sections that have
/// entries; an empty list has a height of its own.
pub proof fn heights_fit_the_rows(
    state: &NewSessionPickerState,
    list: Vec<IndexPath>,
    r: u128,
)
    requires
        call_ensures(NewSessionPickerState::list_height, (state,), r),
        call_ensures(NewSessionPickerState::indices, (state,), list),
    ensures
        ({
            let headings = state.sections@.filter(
                |section: Vec<NewSessionAction>| section@.len() > 0,
            ).len();
            &&& list@.len() == 0 ==> r == 56
            &&& 0 < list@.len() <= 7 ==> r == 32 * list@.len() + 21 * headings
            &&& list@.len() > 7 ==> r == 224 + 21 * headings
        }),
{
    lemma_filled(state.sections@);
}

/// New entries take the place of the old ones, and it is told where that changes anything that is
/// seen.
pub proof fn new_entries_replace_the_old(
    state: &mut NewSessionPickerState,
    actions: Vec<NewSessionAction>,
    sections: Vec<Vec<NewSessionAction>>,
    r: bool,
)
    requires
        call_ensures(NewSessionPickerState::sync_picker_state, (state, actions, sections), r),
    ensures
        final(state).sections@ == sections@,
        final(state).source_actions@ == actions@,
        final(state).cwd == old(state).cwd,
        sections@.len() != old(state).sections@.len() ==> r,
        actions@.len() != old(state).source_actions@.len() ==> r,
        final(state).selected_index != old(state).selected_index ==> r,
        actions@ == old(state).source_actions@ && sections@ == old(state).sections@ && final(state).selected_index == old(state).selected_index ==> !r,
{
    assert(new_session::section_views(sections@).len() == sections@.len());
    assert(new_session::section_views(old(state).sections@).len() == old(state).sections@.len());
    assert(new_session::action_views(actions@).len() == actions@.len());
    assert(new_session::action_views(old(state).source_actions@).len() == old(state).source_actions@.len());
}

proof fn lemma_only_definitions(agents: Seq<AgentDefinition>, k: int)
    requires
        0 <= k < conversation::definition_options(agents).len(),
    ensures
        exists|i: int|
            0 <= i < agents.len() && conversation::definition_option(#[trigger] agents[i]) == Some(
                conversation::definition_options(agents)[k],
            ),
    decreases agents.len(),
{
    let before = conversation::definition_options(agents.drop_last());
    let all = conversation::definition_options(agents);
    if agents.len() > 0 {
        if k < before.len() {
            lemma_only_definitions(agents.drop_last(), k);
            let i = choose|i: int|
                0 <= i < agents.drop_last().len() && conversation::definition_option(
                    #[trigger] agents.drop_last()[i],
                ) == Some(before[k]);
            assert(agents[i] == agents.drop_last()[i]);
        } else {
            assert(conversation::definition_option(agents[agents.len() - 1]) == Some(all[k]));
        }
    }
}

proof fn lemma_only_kinds(kinds: Seq<ConversationAgentKind>, k: int)
    requires
        0 <= k < conversation::kind_options(kinds).len(),
    ensures
        exists|i: int|
            0 <= i < kinds.len() && conversation::kind_option(#[trigger] kinds[i]) == Some(
                conversation::kind_options(kinds)[k],
            ),
    decreases kinds.len(),
{
    let before = conversation::kind_options(kinds.drop_last());
    let all = conversation::kind_options(kinds);
    if kinds.len() > 0 {
        if k < before.len() {
            lemma_only_kinds(kinds.drop_last(), k);
            let i = choose|i: int|
                0 <= i < kinds.drop_last().len() && conversation::kind_option(
                    #[trigger] kinds.drop_last()[i],
                ) == Some(before[k]);
            assert(kinds[i] == kinds.drop_last()[i]);
        } else {
            assert(conversation::kind_option(kinds[kinds.len() - 1]) == Some(all[k]));
        }
    }
}

proof fn lemma_only_profiles(profiles: Seq<AgentProfile>, k: int)
    requires
        0 <= k < conversation::profile_options(profiles).len(),
    ensures
        exists|i: int|
            0 <= i < profiles.len() && conversation::profile_option(#[trigger] profiles[i]) == Some(
                conversation::profile_options(profiles)[k],
            ),
    decreases profiles.len(),
{
    let before = conversation::profile_options(profiles.drop_last());
    let all = conversation::profile_options(profiles);
    if profiles.len() > 0 {
        if k < before.len() {
            lemma_only_profiles(profiles.drop_last(), k);
            let i = choose|i: int|
                0 <= i < profiles.drop_last().len() && conversation::profile_option(
                    #[trigger] profiles.drop_last()[i],
                ) == Some(before[k]);
            assert(profiles[i] == profiles.drop_last()[i]);
        } else {
            assert(conversation::profile_option(profiles[profiles.len() - 1]) == Some(all[k]));
        }
    }
}

/// Nothing is offered but agents that are ready, kinds that start by themselves and profiles that
/// can be launched; agents come first, then kinds, then profiles.
pub proof fn only_what_can_start_is_offered(host: &AgentHost, r: Vec<AcpAgentOption>, k: int)
    requires
        call_ensures(conversation_options, (host,), r),
        0 <= k < r@.len(),
    ensures
        r@[k].agent_definition_id is Some ==> exists|i: int|
            0 <= i < host.agents@.len() && (#[trigger] host.agents@[i]).ready
                && host.agents@[i].engine is Some && r@[k].id@ == "agent:"@ + host.agents@[i].id@
                && (r@[k].agent_definition_id->0)@ == host.agents@[i].id@,
        r@[k].agent_definition_id is None && !r@[k].profile ==> exists|i: int|
            0 <= i < host.kinds@.len() && (#[trigger] host.kinds@[i]).bare && r@[k].id@
                == host.kinds@[i].id@,
        r@[k].profile ==> exists|i: int|
            0 <= i < host.profiles@.len() && (#[trigger] host.profiles@[i]).launchable
                && host.profiles@[i].kind is Some && r@[k].id@ == "profile:"@
                + host.profiles@[i].id@,
        forall|m: int|
            0 <= m < k && (#[trigger] r@[m]).profile ==> r@[k].profile,
        forall|m: int|
            0 <= m < k && r@[k].agent_definition_id is Some ==> (
            #[trigger] r@[m]).agent_definition_id is Some,
{
    let out = conversation::option_views(r@);
    let a = conversation::definition_options(host.agents@);
    let b = conversation::kind_options(host.kinds@);
    let c = conversation::profile_options(host.profiles@);
    assert(out == a + b + c);
    assert(out.len() == r@.len());
    assert forall|m: int| 0 <= m < r@.len() implies {
        &&& out[m] == (#[trigger] r@[m]).view()
        &&& m < a.len() <==> r@[m].agent_definition_id is Some
        &&& m >= a.len() + b.len() <==> r@[m].profile
    } by {
        assert(out[m] == r@[m].view());
        if m < a.len() {
            assert(out[m] == a[m]);
            lemma_only_definitions(host.agents@, m);
        } else if m < a.len() + b.len() {
            assert(out[m] == b[m - a.len()]);
            lemma_only_kinds(host.kinds@, m - a.len());
        } else {
            assert(out[m] == c[m - a.len() - b.len()]);
            lemma_only_profiles(host.profiles@, m - a.len() - b.len());
        }
    }
    assert(out[k] == r@[k].view());
    if k < a.len() {
        assert(out[k] == a[k]);
        lemma_only_definitions(host.agents@, k);
        let i = choose|i: int|
            0 <= i < host.agents@.len() && conversation::definition_option(
                #[trigger] host.agents@[i],
            ) == Some(a[k]);
        assert(host.agents@[i].ready);
    } else if k < a.len() + b.len() {
        assert(out[k] == b[k - a.len()]);
        lemma_only_kinds(host.kinds@, k - a.len());
        let i = choose|i: int|
            0 <= i < host.kinds@.len() && conversation::kind_option(#[trigger] host.kinds@[i])
                == Some(b[k - a.len()]);
        assert(host.kinds@[i].bare);
    } else {
        assert(out[k] == c[k - a.len() - b.len()]);
        lemma_only_profiles(host.profiles@, k - a.len() - b.len());
        let i = choose|i: int|
            0 <= i < host.profiles@.len() && conversation::profile_option(
                #[trigger] host.profiles@[i],
            ) == Some(c[k - a.len() - b.len()]);
        assert(host.profiles@[i].launchable);
    }
}

proof fn lemma_row_count(
    sections: Seq<Vec<NewSessionAction>>,
    labels: Seq<Seq<char>>,
    selected: Option<IndexPath>,
)
    requires
        sections.len() <= labels.len(),
    ensures
        new_session::section_rows(sections, labels, selected).len() == new_session::places(
            sections,
        ).len() + new_session::filled(sections),
        new_session::filled(sections) >= 0,
    decreases sections.len(),
{
    if sections.len() > 0 {
        lemma_row_count(sections.drop_last(), labels, selected);
    }
}

proof fn lemma_heading(
    sections: Seq<Vec<NewSessionAction>>,
    labels: Seq<Seq<char>>,
    selected: Option<IndexPath>,
    s: int,
)
    requires
        0 <= s < sections.len(),
        s < labels.len(),
        sections[s]@.len() > 0,
    ensures
        new_session::section_rows(sections, labels, selected).contains(
            PickerRowView::Heading(labels[s]),
        ),
    decreases sections.len(),
{
    let rows = new_session::section_rows(sections, labels, selected);
    let before = new_session::section_rows(sections.drop_last(), labels, selected);
    if s < sections.len() - 1 {
        lemma_heading(sections.drop_last(), labels, selected, s);
        let k = choose|k: int|
            0 <= k < before.len() && before[k] == PickerRowView::Heading(labels[s]);
        assert(rows[k] == before[k]);
    } else {
        assert(rows[before.len() as int] == PickerRowView::Heading(labels[s]));
    }
}

/// A list has one row for each entry and one heading for each section that has any, and nothing
/// else; one without entries says that there is nothing to start.
pub proof fn lists_have_entries_and_headings(
    state: &NewSessionPickerState,
    labels: &Vec<String>,
    r: Vec<PickerRow>,
    entries: Vec<IndexPath>,
    s: int,
)
    requires
        call_ensures(NewSessionPickerState::picker_rows, (state, labels), r),
        call_ensures(NewSessionPickerState::indices, (state,), entries),
        state.sections@.len() <= labels@.len(),
    ensures
        entries@.len() > 0 ==> r@.len() == entries@.len() + state.sections@.filter(
            |section: Vec<NewSessionAction>| section@.len() > 0,
        ).len(),
        entries@.len() == 0 ==> r@.len() >= 1 && (r@.last() matches PickerRow::Empty(message)
            && message@ == "没有可用的启动项"@),
        0 <= s < state.sections@.len() && state.sections@[s]@.len() > 0 ==> exists|k: int|
            0 <= k < r@.len() && ((#[trigger] r@[k]) matches PickerRow::Heading(label) && label@
                == labels@[s]@),
{
    let names = text::texts(labels@);
    assert(names.len() == labels@.len());
    lemma_row_count(state.sections@, names, state.selected_index);
    lemma_filled(state.sections@);
    let out = new_session::row_views(r@);
    assert(out == new_session::rows_of(state.sections@, names, state.selected_index));
    assert(out.len() == r@.len());
    if entries@.len() == 0 {
        assert(out.last() == r@.last().view());
    }
    if 0 <= s < state.sections@.len() && state.sections@[s]@.len() > 0 {
        lemma_heading(state.sections@, names, state.selected_index, s);
        let rows = new_session::section_rows(state.sections@, names, state.selected_index);
        let k = choose|k: int|
            0 <= k < rows.len() && rows[k] == PickerRowView::Heading(names[s]);
        assert(out[k] == rows[k]);
        assert(out[k] == r@[k].view());
        assert(names[s] == labels@[s]@);
    }
}

/// An option that is a kind's identifier starts that kind, the first that has it; one that names
/// nothing starts nothing.
pub proof fn kinds_start_by_their_identifier(
    option_id: &str,
    host: &AgentHost,
    r: Option<ConversationLaunch>,
    at: int,
)
    requires
        call_ensures(conversation_launch, (option_id, host), r),
        !text::has_prefix(option_id@, "agent:"@),
        !text::has_prefix(option_id@, "profile:"@),
    ensures
        0 <= at < host.kinds@.len() && host.kinds@[at].id@ == option_id@ && (forall|k: int|
            0 <= k < at ==> (#[trigger] host.kinds@[k]).id@ != option_id@) ==> r == Some(
            ConversationLaunch::Bare(at as usize),
        ),
        (forall|k: int| 0 <= k < host.kinds@.len() ==> (#[trigger] host.kinds@[k]).id@
            != option_id@) ==> r is None,
{
    let ids = conversation::kind_ids(host.kinds@);
    lemma_first_at(ids, option_id@, 0);
    assert(ids.len() == host.kinds@.len());
    assert forall|k: int| 0 <= k < ids.len() implies #[trigger] ids[k] == host.kinds@[k].id@ by {
    }
    if 0 <= at < host.kinds@.len() {
        assert(ids[at] == host.kinds@[at].id@);
    }
    match conversation::first_at(ids, option_id@, 0) {
        Some(found) => {
            assert(host.kinds@[found].id@ == option_id@);
        },
        None => {},
    }
}

/// New entries and new sections keep the selection in the same way.
pub proof fn both_ways_keep_the_selection(
    one: &mut NewSessionPickerState,
    two: &mut NewSessionPickerState,
    actions: Vec<NewSessionAction>,
    sections: Vec<Vec<NewSessionAction>>,
    r: bool,
)
    requires
        call_ensures(NewSessionPickerState::sync_picker_state, (one, actions, sections), r),
        call_ensures(NewSessionPickerState::sync_sections, (two, sections), ()),
        *old(one) == *old(two),
    ensures
        final(one).selected_index == final(two).selected_index,
        final(two).source_actions == old(two).source_actions,
{
}

/// The row shows the entry at a place.
pub open spec fn is_row_at(row: PickerRow, at: IndexPath) -> bool {
    row matches PickerRow::Entry { index, .. } && index == at
}

proof fn lemma_entry_rows_in_order(
    sections: Seq<Vec<NewSessionAction>>,
    labels: Seq<Seq<char>>,
    selected: Option<IndexPath>,
    i: int,
    j: int,
)
    requires
        sections.len() <= usize::MAX,
        0 <= i < j < new_session::section_rows(sections, labels, selected).len(),
    ensures
        ({
            let rows = new_session::section_rows(sections, labels, selected);
            &&& rows[i] matches PickerRowView::Entry { index: a, .. } ==> (
            rows[j] matches PickerRowView::Entry { index: b, .. } ==> comes_before(a, b))
        }),
    decreases sections.len(),
{
    if sections.len() > 0 {
        let before = new_session::section_rows(sections.drop_last(), labels, selected);
        let rows = new_session::section_rows(sections, labels, selected);
        assert(sections.last()@.len() == sections.last().len());
        if j < before.len() {
            lemma_entry_rows_in_order(sections.drop_last(), labels, selected, i, j);
            assert(rows[i] == before[i] && rows[j] == before[j]);
        } else if i < before.len() {
            assert(rows[i] == before[i]);
            lemma_rows_of_sections(sections.drop_last(), labels, selected, i);
        }
    }
}

proof fn lemma_rows_of_sections(
    sections: Seq<Vec<NewSessionAction>>,
    labels: Seq<Seq<char>>,
    selected: Option<IndexPath>,
    i: int,
)
    requires
        sections.len() <= usize::MAX,
        0 <= i < new_session::section_rows(sections, labels, selected).len(),
    ensures
        new_session::section_rows(sections, labels, selected)[i] matches PickerRowView::Entry {
            index,
            ..
        } ==> index.section < sections.len(),
    decreases sections.len(),
{
    if sections.len() > 0 {
        let before = new_session::section_rows(sections.drop_last(), labels, selected);
        if i < before.len() {
            lemma_rows_of_sections(sections.drop_last(), labels, selected, i);
        }
    }
}

/// Rows come in the order of their entries.
pub proof fn rows_come_in_order(
    state: &NewSessionPickerState,
    labels: &Vec<String>,
    r: Vec<PickerRow>,
    i: int,
    j: int,
    a: IndexPath,
    b: IndexPath,
)
    requires
        call_ensures(NewSessionPickerState::picker_rows, (state, labels), r),
        0 <= i < j < r@.len(),
        is_row_at(r@[i], a),
        is_row_at(r@[j], b),
    ensures
        comes_before(a, b),
{
    assert(state.sections@.len() == state.sections.len());
    let names = text::texts(labels@);
    let rows = new_session::section_rows(state.sections@, names, state.selected_index);
    let out = new_session::row_views(r@);
    assert(out == new_session::rows_of(state.sections@, names, state.selected_index));
    assert(out.len() == r@.len());
    assert(out[i] == r@[i].view() && out[j] == r@[j].view());
    if j < rows.len() {
        assert(out[i] == rows[i] && out[j] == rows[j]);
        lemma_entry_rows_in_order(state.sections@, names, state.selected_index, i, j);
    }
}

} // verus!
