//! Which agents one can begin a conversation with, and how.

use vstd::prelude::*;

use crate::text;
use crate::text::{chars_of, concat, same_text, starts_with, trim};

verus! {

/// An agent that the user has set up. `engine` is what drives it, where that is known, and
/// `launchable` says whether it can be started as it is set up.
#[derive(Debug, PartialEq, Eq)]
pub struct AgentDefinition {
    pub id: String,
    pub name: String,
    pub ready: bool,
    pub engine: Option<String>,
    pub launchable: bool,
}

/// What can drive a conversation. `bare` says whether it is offered by itself.
#[derive(Debug, PartialEq, Eq)]
pub struct ConversationAgentKind {
    pub id: String,
    pub label: String,
    pub bare: bool,
}

/// A variant of an agent that the user has set up.
#[derive(Debug, PartialEq, Eq)]
pub struct AgentProfile {
    pub id: String,
    pub label: String,
    pub kind: Option<String>,
    pub launchable: bool,
}

/// The agents of the host.
#[derive(Debug, PartialEq, Eq)]
pub struct AgentHost {
    pub agents: Vec<AgentDefinition>,
    pub kinds: Vec<ConversationAgentKind>,
    pub profiles: Vec<AgentProfile>,
}

/// One of the agents to choose from.
#[derive(Debug, PartialEq, Eq)]
pub struct AcpAgentOption {
    pub id: String,
    pub kind: String,
    pub label: String,
    pub profile: bool,
    pub agent_definition_id: Option<String>,
}

/// One of the agents to choose from, as characters.
pub struct OptionView {
    pub id: Seq<char>,
    pub kind: Seq<char>,
    pub label: Seq<char>,
    pub profile: bool,
    pub agent_definition_id: Option<Seq<char>>,
}

impl AcpAgentOption {
    pub open spec fn view(&self) -> OptionView {
        OptionView {
            id: self.id@,
            kind: self.kind@,
            label: self.label@,
            profile: self.profile,
            agent_definition_id: match self.agent_definition_id {
                Some(id) => Some(id@),
                None => None,
            },
        }
    }
}

/// The options, as characters.
pub open spec fn option_views(options: Seq<AcpAgentOption>) -> Seq<OptionView> {
    options.map_values(|option: AcpAgentOption| option.view())
}

/// The option for an agent that the user has set up: one that is ready and whose engine is
/// known.
pub open spec fn definition_option(definition: AgentDefinition) -> Option<OptionView> {
    match definition.engine {
        Some(engine) if definition.ready => Some(
            OptionView {
                id: "agent:"@ + definition.id@,
                kind: engine@,
                label: text::trimmed(definition.name@),
                profile: false,
                agent_definition_id: Some(definition.id@),
            },
        ),
        _ => None,
    }
}

/// The option for what drives a conversation by itself.
pub open spec fn kind_option(kind: ConversationAgentKind) -> Option<OptionView> {
    if kind.bare {
        Some(
            OptionView {
                id: kind.id@,
                kind: kind.id@,
                label: kind.label@,
                profile: false,
                agent_definition_id: None,
            },
        )
    } else {
        None
    }
}

/// The option for a variant: one that can be started.
pub open spec fn profile_option(profile: AgentProfile) -> Option<OptionView> {
    match profile.kind {
        Some(kind) if profile.launchable => Some(
            OptionView {
                id: "profile:"@ + profile.id@,
                kind: kind@,
                label: profile.label@,
                profile: true,
                agent_definition_id: None,
            },
        ),
        _ => None,
    }
}

/// A list with one more option, where there is one.
pub open spec fn with_option(options: Seq<OptionView>, option: Option<OptionView>) -> Seq<
    OptionView,
> {
    match option {
        Some(option) => options.push(option),
        None => options,
    }
}

/// The options for agents that the user has set up.
pub open spec fn definition_options(agents: Seq<AgentDefinition>) -> Seq<OptionView>
    decreases agents.len(),
{
    if agents.len() == 0 {
        seq![]
    } else {
        with_option(definition_options(agents.drop_last()), definition_option(agents.last()))
    }
}

/// The options for what drives a conversation by itself, behind others.
pub open spec fn kind_options(kinds: Seq<ConversationAgentKind>) -> Seq<OptionView>
    decreases kinds.len(),
{
    if kinds.len() == 0 {
        seq![]
    } else {
        with_option(kind_options(kinds.drop_last()), kind_option(kinds.last()))
    }
}

/// The options for variants.
pub open spec fn profile_options(profiles: Seq<AgentProfile>) -> Seq<OptionView>
    decreases profiles.len(),
{
    if profiles.len() == 0 {
        seq![]
    } else {
        with_option(profile_options(profiles.drop_last()), profile_option(profiles.last()))
    }
}

/// The agents to choose from: those that the user has set up, then those that come by
/// themselves, then the variants.
pub fn conversation_options(host: &AgentHost) -> (r: Vec<AcpAgentOption>)
    ensures
        option_views(r@) == definition_options(host.agents@) + kind_options(host.kinds@)
            + profile_options(host.profiles@),
{
    let mut options: Vec<AcpAgentOption> = Vec::new();
    let mut i: usize = 0;
    assert(option_views(options@) =~= definition_options(host.agents@.take(0)));
    while i < host.agents.len()
        invariant
            i <= host.agents.len(),
            option_views(options@) == definition_options(host.agents@.take(i as int)),
        decreases host.agents.len() - i,
    {
        let definition: &AgentDefinition = &host.agents[i];
        let ghost before = options@;
        assert(host.agents@.take(i + 1).drop_last() =~= host.agents@.take(i as int));
        if definition.ready {
            if let Some(engine) = &definition.engine {
                let option: AcpAgentOption = AcpAgentOption {
                    id: concat("agent:", definition.id.as_str()),
                    kind: engine.clone(),
                    label: trim(definition.name.as_str()),
                    profile: false,
                    agent_definition_id: Some(definition.id.clone()),
                };
                options.push(option);
                assert(option_views(options@) =~= option_views(before).push(option.view()));
            }
        }
        i = i + 1;
    }
    assert(host.agents@.take(i as int) =~= host.agents@);
    let ghost defined = definition_options(host.agents@);
    i = 0;
    assert(option_views(options@) =~= defined + kind_options(host.kinds@.take(0)));
    while i < host.kinds.len()
        invariant
            i <= host.kinds.len(),
            option_views(options@) == defined + kind_options(host.kinds@.take(i as int)),
        decreases host.kinds.len() - i,
    {
        let kind: &ConversationAgentKind = &host.kinds[i];
        let ghost before = options@;
        assert(host.kinds@.take(i + 1).drop_last() =~= host.kinds@.take(i as int));
        if kind.bare {
            let option: AcpAgentOption = AcpAgentOption {
                id: kind.id.clone(),
                kind: kind.id.clone(),
                label: kind.label.clone(),
                profile: false,
                agent_definition_id: None,
            };
            options.push(option);
            assert(option_views(options@) =~= option_views(before).push(option.view()));
            assert(option_views(options@) =~= defined + kind_options(host.kinds@.take(i + 1)));
        }
        i = i + 1;
    }
    assert(host.kinds@.take(i as int) =~= host.kinds@);
    let ghost offered = defined + kind_options(host.kinds@);
    i = 0;
    assert(option_views(options@) =~= offered + profile_options(host.profiles@.take(0)));
    while i < host.profiles.len()
        invariant
            i <= host.profiles.len(),
            option_views(options@) == offered + profile_options(host.profiles@.take(i as int)),
        decreases host.profiles.len() - i,
    {
        let profile: &AgentProfile = &host.profiles[i];
        let ghost before = options@;
        assert(host.profiles@.take(i + 1).drop_last() =~= host.profiles@.take(i as int));
        if profile.launchable {
            if let Some(kind) = &profile.kind {
                let option: AcpAgentOption = AcpAgentOption {
                    id: concat("profile:", profile.id.as_str()),
                    kind: kind.clone(),
                    label: profile.label.clone(),
                    profile: true,
                    agent_definition_id: None,
                };
                options.push(option);
                assert(option_views(options@) =~= option_views(before).push(option.view()));
                assert(option_views(options@) =~= offered + profile_options(
                    host.profiles@.take(i + 1),
                ));
            }
        }
        i = i + 1;
    }
    assert(host.profiles@.take(i as int) =~= host.profiles@);
    options
}

/// How a conversation starts: with an agent that the user has set up, a variant, or what drives
/// it by itself. The number is the position in the list that it stands in.
#[derive(Clone, Copy, Debug, PartialEq, Eq, Structural)]
pub enum ConversationLaunch {
    Agent(usize),
    Profile(usize),
    Bare(usize),
}

/// The first position at which a text stands in a list.
pub open spec fn first_at(ids: Seq<Seq<char>>, id: Seq<char>, from: int) -> Option<int>
    decreases ids.len() - from,
{
    if from >= ids.len() {
        None
    } else if ids[from] == id {
        Some(from)
    } else {
        first_at(ids, id, from + 1)
    }
}

/// The ids of agents that the user has set up.
pub open spec fn definition_ids(agents: Seq<AgentDefinition>) -> Seq<Seq<char>> {
    agents.map_values(|agent: AgentDefinition| agent.id@)
}

/// The ids of what can drive a conversation.
pub open spec fn kind_ids(kinds: Seq<ConversationAgentKind>) -> Seq<Seq<char>> {
    kinds.map_values(|kind: ConversationAgentKind| kind.id@)
}

/// The ids of variants.
pub open spec fn profile_ids(profiles: Seq<AgentProfile>) -> Seq<Seq<char>> {
    profiles.map_values(|profile: AgentProfile| profile.id@)
}

/// How the conversation behind an option starts. An option whose agent is gone, or can no longer
/// be started, starts nothing.
pub open spec fn launch_of(option: Seq<char>, host: AgentHost) -> Option<ConversationLaunch> {
    if text::has_prefix(option, "agent:"@) {
        match first_at(definition_ids(host.agents@), option.skip("agent:"@.len() as int), 0) {
            Some(at) if host.agents@[at].launchable => Some(
                ConversationLaunch::Agent(at as usize),
            ),
            _ => None,
        }
    } else if text::has_prefix(option, "profile:"@) {
        match first_at(profile_ids(host.profiles@), option.skip("profile:"@.len() as int), 0) {
            Some(at) if host.profiles@[at].launchable && host.profiles@[at].kind is Some => Some(
                ConversationLaunch::Profile(at as usize),
            ),
            _ => None,
        }
    } else {
        match first_at(kind_ids(host.kinds@), option, 0) {
            Some(at) => Some(ConversationLaunch::Bare(at as usize)),
            None => None,
        }
    }
}

fn after_prefix(text: &str, prefix: &str) -> (r: Option<String>)
    ensures
        match r {
            Some(rest) => text::has_prefix(text@, prefix@) && rest@ == text@.skip(
                prefix@.len() as int,
            ),
            None => !text::has_prefix(text@, prefix@),
        },
{
    if !starts_with(text, prefix) {
        return None;
    }
    let start: usize = chars_of(prefix).len();
    let end: usize = chars_of(text).len();
    assert(text@.subrange(start as int, end as int) =~= text@.skip(start as int));
    Some(text.substring_char(start, end).to_owned())
}

/// How the conversation behind an option starts.
pub fn conversation_launch(option_id: &str, host: &AgentHost) -> (r: Option<ConversationLaunch>)
    ensures
        r == launch_of(option_id@, *host),
{
    if let Some(id) = after_prefix(option_id, "agent:") {
        let mut i: usize = 0;
        let ghost ids = definition_ids(host.agents@);
        while i < host.agents.len()
            invariant
                i <= host.agents.len(),
                ids == definition_ids(host.agents@),
                first_at(ids, id@, 0) == first_at(ids, id@, i as int),
                text::has_prefix(option_id@, "agent:"@),
                id@ == option_id@.skip("agent:"@.len() as int),
            decreases host.agents.len() - i,
        {
            assert(ids[i as int] == host.agents@[i as int].id@);
            if same_text(host.agents[i].id.as_str(), id.as_str()) {
                return if host.agents[i].launchable {
                    Some(ConversationLaunch::Agent(i))
                } else {
                    None
                };
            }
            i = i + 1;
        }
        return None;
    }
    if let Some(id) = after_prefix(option_id, "profile:") {
        let mut i: usize = 0;
        let ghost ids = profile_ids(host.profiles@);
        while i < host.profiles.len()
            invariant
                i <= host.profiles.len(),
                ids == profile_ids(host.profiles@),
                first_at(ids, id@, 0) == first_at(ids, id@, i as int),
                !text::has_prefix(option_id@, "agent:"@),
                text::has_prefix(option_id@, "profile:"@),
                id@ == option_id@.skip("profile:"@.len() as int),
            decreases host.profiles.len() - i,
        {
            assert(ids[i as int] == host.profiles@[i as int].id@);
            if same_text(host.profiles[i].id.as_str(), id.as_str()) {
                return if host.profiles[i].launchable && host.profiles[i].kind.is_some() {
                    Some(ConversationLaunch::Profile(i))
                } else {
                    None
                };
            }
            i = i + 1;
        }
        return None;
    }
    let mut i: usize = 0;
    let ghost ids = kind_ids(host.kinds@);
    while i < host.kinds.len()
        invariant
            i <= host.kinds.len(),
            ids == kind_ids(host.kinds@),
            first_at(ids, option_id@, 0) == first_at(ids, option_id@, i as int),
            !text::has_prefix(option_id@, "agent:"@),
            !text::has_prefix(option_id@, "profile:"@),
        decreases host.kinds.len() - i,
    {
        assert(ids[i as int] == host.kinds@[i as int].id@);
        if same_text(host.kinds[i].id.as_str(), option_id) {
            return Some(ConversationLaunch::Bare(i));
        }
        i = i + 1;
    }
    None
}

proof fn lemma_first_at(ids: Seq<Seq<char>>, at: int, from: int)
    requires
        0 <= from <= at < ids.len(),
        forall|j: int| from <= j < at ==> ids[j] != ids[at],
    ensures
        first_at(ids, ids[at], from) == Some(at),
    decreases at - from,
{
    if from < at {
        lemma_first_at(ids, at, from + 1);
    }
}

/// The option for an agent that the user has set up starts that agent, where it can be started
/// and no other one before it has its id.
pub proof fn agent_options_start_their_agents(host: AgentHost, at: int)
    requires
        0 <= at < host.agents@.len(),
        host.agents@[at].launchable,
        definition_option(host.agents@[at]) is Some,
        forall|j: int| 0 <= j < at ==> (#[trigger] host.agents@[j]).id@ != host.agents@[at].id@,
    ensures
        launch_of(definition_option(host.agents@[at])->0.id, host) == Some(
            ConversationLaunch::Agent(at as usize),
        ),
{
    let id = host.agents@[at].id@;
    let option = definition_option(host.agents@[at])->0.id;
    let ids = definition_ids(host.agents@);
    assert(option.take("agent:"@.len() as int) =~= "agent:"@);
    assert(option.skip("agent:"@.len() as int) =~= id);
    assert forall|j: int| 0 <= j < at implies ids[j] != ids[at] by {
        assert(ids[j] == host.agents@[j].id@);
    }
    assert(ids[at] == id);
    lemma_first_at(ids, at, 0);
}

/// The option for a variant starts that variant, where no other one before it has its id.
pub proof fn profile_options_start_their_profiles(host: AgentHost, at: int)
    requires
        0 <= at < host.profiles@.len(),
        profile_option(host.profiles@[at]) is Some,
        forall|j: int| 0 <= j < at ==> (#[trigger] host.profiles@[j]).id@ != host.profiles@[at].id@,
    ensures
        launch_of(profile_option(host.profiles@[at])->0.id, host) == Some(
            ConversationLaunch::Profile(at as usize),
        ),
{
    let id = host.profiles@[at].id@;
    let option = profile_option(host.profiles@[at])->0.id;
    let ids = profile_ids(host.profiles@);
    reveal_strlit("agent:");
    reveal_strlit("profile:");
    assert(option[0] == 'p');
    assert(option.take("agent:"@.len() as int)[0] != "agent:"@[0]);
    assert(option.take("profile:"@.len() as int) =~= "profile:"@);
    assert(option.skip("profile:"@.len() as int) =~= id);
    assert forall|j: int| 0 <= j < at implies ids[j] != ids[at] by {
        assert(ids[j] == host.profiles@[j].id@);
    }
    assert(ids[at] == id);
    lemma_first_at(ids, at, 0);
}

/// The command that starts an agent: the one of the host, or the agent's own before the host is
/// known.
pub fn acp_cmd_for(configured: Option<String>, default: &str) -> (r: String)
    ensures
        r@ == (match configured {
            Some(command) => command@,
            None => default@,
        }),
{
    match configured {
        Some(command) => command,
        None => default.to_owned(),
    }
}

/// What a conversation is set to when it begins, as pairs of a setting and its value: what the
/// host makes of it, or what the session has stored before the host is known.
pub fn initial_acp_config_for(
    configured: Option<Vec<(String, String)>>,
    session_values: Vec<(String, String)>,
) -> (r: Vec<(String, String)>)
    ensures
        r@ == (match configured {
            Some(values) => values@,
            None => session_values@,
        }),
{
    match configured {
        Some(values) => values,
        None => session_values,
    }
}

/// What a conversation with an agent of the user is set to when it begins: what the host makes
/// of it. Before the host is known that is the mode in which the engine may do everything, where
/// it has one.
pub fn initial_agent_conversation_config_for(
    configured: Option<Vec<(String, String)>>,
    full_access_mode: Option<&str>,
) -> (r: Vec<(String, String)>)
    ensures
        match configured {
            Some(values) => r@ == values@,
            None => match full_access_mode {
                Some(mode) => r@.len() == 1 && (r@[0].0)@ == "mode"@ && (r@[0].1)@ == mode@,
                None => r@.len() == 0,
            },
        },
{
    match configured {
        Some(values) => values,
        None => {
            let mut values: Vec<(String, String)> = Vec::new();
            if let Some(mode) = full_access_mode {
                values.push(("mode".to_owned(), mode.to_owned()));
            }
            values
        },
    }
}

} // verus!
