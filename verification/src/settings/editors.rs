//! The lists and fields that one edits in the settings.

use vstd::prelude::*;

use crate::settings::launch::{LaunchConfig, LaunchEntry};
use crate::text;
use crate::text::{chars_of, concat, same_text, trim};

verus! {

/// The command of an agent as the settings show it. The one that comes with Smelt is not shown:
/// nobody has to know it.
pub open spec fn shown_command(default: Seq<char>, command: Seq<char>) -> Seq<char> {
    if command == default {
        seq![]
    } else {
        command
    }
}

/// The command of an agent that was entered. Nothing stands for the one that comes with Smelt.
pub open spec fn entered_command(default: Seq<char>, entered: Seq<char>) -> Seq<char> {
    if text::trimmed(entered).len() == 0 {
        default
    } else {
        text::trimmed(entered)
    }
}

/// The command of an agent as the settings show it.
pub fn acp_cmd_setting_value(default: &str, command: String) -> (r: String)
    ensures
        r@ == shown_command(default@, command@),
{
    if same_text(command.as_str(), default) {
        String::new()
    } else {
        command
    }
}

/// The command of an agent that was entered.
pub fn acp_cmd_entered(default: &str, entered: &str) -> (r: String)
    ensures
        r@ == entered_command(default@, entered@),
{
    let command: String = trim(entered);
    if chars_of(command.as_str()).len() == 0 {
        default.to_owned()
    } else {
        command
    }
}

/// Entering what the settings show changes nothing, as long as the command has no space around
/// it and is not empty.
pub proof fn shown_commands_are_kept(default: Seq<char>, command: Seq<char>)
    requires
        text::trimmed(command) == command,
        command.len() > 0,
    ensures
        entered_command(default, shown_command(default, command)) == command,
{
    reveal_with_fuel(text::trimmed, 2);
}

/// What a field for the command of an agent is called.
pub fn acp_cmd_title(label: &str) -> (r: String)
    ensures
        r@ == label@ + " 自定义启动命令"@,
{
    concat(label, " 自定义启动命令")
}

/// What is said below a field for the command of an agent.
pub fn acp_cmd_description(label: &str) -> (r: String)
    ensures
        r@ == "留空使用内置适配器；仅在需要替换适配器或追加参数时填写。改动只影响之后新建的「"@ + label@
            + "」对话会话。"@,
{
    let mut out: String = concat(
        "留空使用内置适配器；仅在需要替换适配器或追加参数时填写。改动只影响之后新建的「",
        label,
    );
    out.append("」对话会话。");
    out
}

/// What happens in a field.
#[derive(Clone, Copy, Debug, PartialEq, Eq, Structural)]
pub enum InputEvent {
    Change,
    Blur,
    Focus,
    PressEnter,
}

/// Whether what stands in a field is saved.
pub fn saves_on(event: InputEvent) -> (r: bool)
    ensures
        r == (event is Change || event is Blur),
{
    match event {
        InputEvent::Change | InputEvent::Blur => true,
        _ => false,
    }
}

/// How a language model is reached.
#[derive(Debug, PartialEq, Eq)]
pub struct LlmConfig {
    pub enabled: bool,
    pub base_url: String,
    pub api_key: String,
    pub model: String,
    pub persona: String,
}

/// A field of how a language model is reached.
#[derive(Clone, Copy, Debug, PartialEq, Eq, Structural)]
pub enum LlmField {
    BaseUrl,
    ApiKey,
    Model,
    Persona,
}

/// A field: what it says while it is empty, what it holds, and how it shows that.
#[derive(Debug, PartialEq, Eq)]
pub struct InputSpec {
    pub field: LlmField,
    pub placeholder: &'static str,
    pub value: String,
    pub masked: bool,
    pub multi_line: bool,
}

/// What a field says while it is empty.
pub open spec fn placeholder_of(field: LlmField) -> Seq<char> {
    match field {
        LlmField::BaseUrl => "https://api.deepseek.com/chat/completions"@,
        LlmField::ApiKey => "sk-...（留空则用 config.toml/env）"@,
        LlmField::Model => "deepseek-chat"@,
        LlmField::Persona => "人设 / system prompt"@,
    }
}

/// What a field holds.
pub open spec fn value_of(config: LlmConfig, field: LlmField) -> Seq<char> {
    match field {
        LlmField::BaseUrl => config.base_url@,
        LlmField::ApiKey => config.api_key@,
        LlmField::Model => config.model@,
        LlmField::Persona => config.persona@,
    }
}

fn input_spec(config: &LlmConfig, field: LlmField) -> (r: InputSpec)
    ensures
        r.field == field,
        r.placeholder@ == placeholder_of(field),
        r.value@ == value_of(*config, field),
        r.masked == (field is ApiKey),
        r.multi_line == (field is Persona),
{
    match field {
        LlmField::BaseUrl => InputSpec {
            field,
            placeholder: "https://api.deepseek.com/chat/completions",
            value: config.base_url.clone(),
            masked: false,
            multi_line: false,
        },
        LlmField::ApiKey => InputSpec {
            field,
            placeholder: "sk-...（留空则用 config.toml/env）",
            value: config.api_key.clone(),
            masked: true,
            multi_line: false,
        },
        LlmField::Model => InputSpec {
            field,
            placeholder: "deepseek-chat",
            value: config.model.clone(),
            masked: false,
            multi_line: false,
        },
        LlmField::Persona => InputSpec {
            field,
            placeholder: "人设 / system prompt",
            value: config.persona.clone(),
            masked: false,
            multi_line: true,
        },
    }
}

/// The fields, from top to bottom.
pub open spec fn llm_fields() -> Seq<LlmField> {
    seq![LlmField::BaseUrl, LlmField::ApiKey, LlmField::Model, LlmField::Persona]
}

/// The fields for how a language model is reached, filled with what is set. The key is hidden.
pub fn init_llm_inputs(config: &LlmConfig) -> (r: Vec<InputSpec>)
    ensures
        r@.len() == 4,
        forall|i: int|
            0 <= i < 4 ==> {
                let field = llm_fields()[i];
                &&& (#[trigger] r@[i]).field == field
                &&& r@[i].placeholder@ == placeholder_of(field)
                &&& r@[i].value@ == value_of(*config, field)
                &&& r@[i].masked == (field is ApiKey)
                &&& r@[i].multi_line == (field is Persona)
            },
{
    let mut inputs: Vec<InputSpec> = Vec::new();
    inputs.push(input_spec(config, LlmField::BaseUrl));
    inputs.push(input_spec(config, LlmField::ApiKey));
    inputs.push(input_spec(config, LlmField::Model));
    inputs.push(input_spec(config, LlmField::Persona));
    inputs
}

impl LlmConfig {
    /// Switches the language model on or off.
    pub fn set_enabled(&mut self, enabled: bool)
        ensures
            *final(self) == (LlmConfig { enabled, ..*old(self) }),
    {
        self.enabled = enabled;
    }

    /// Saves what stands in a field.
    pub fn update_llm_config(&mut self, field: LlmField, value: String)
        ensures
            *final(self) == match field {
                LlmField::BaseUrl => LlmConfig { base_url: value, ..*old(self) },
                LlmField::ApiKey => LlmConfig { api_key: value, ..*old(self) },
                LlmField::Model => LlmConfig { model: value, ..*old(self) },
                LlmField::Persona => LlmConfig { persona: value, ..*old(self) },
            },
    {
        match field {
            LlmField::BaseUrl => {
                self.base_url = value;
            },
            LlmField::ApiKey => {
                self.api_key = value;
            },
            LlmField::Model => {
                self.model = value;
            },
            LlmField::Persona => {
                self.persona = value;
            },
        }
    }
}

/// Whether the fields of a list have to be made anew: where there are none yet, or not as many as
/// entries.
pub fn inputs_are_stale(rows: Option<usize>, entries: usize) -> (r: bool)
    ensures
        r == (rows != Some(entries)),
{
    match rows {
        Some(rows) => rows != entries,
        None => true,
    }
}

/// The two fields of a row in a list: what each says while it is empty, and what it holds.
#[derive(Debug, PartialEq, Eq)]
pub struct InputRow {
    pub first_placeholder: String,
    pub first_value: String,
    pub second_placeholder: String,
    pub second_value: String,
}

/// The fields of a row, as characters: what each says while it is empty, and what it holds.
pub open spec fn row_view(row: InputRow) -> ((Seq<char>, Seq<char>), (Seq<char>, Seq<char>)) {
    (
        (row.first_placeholder@, row.first_value@),
        (row.second_placeholder@, row.second_value@),
    )
}

/// The fields for the launch menu, a row for each entry. `agent` is the program of the first
/// agent, as an example of a command.
pub fn init_launch_inputs(config: &LaunchConfig, agent: &str) -> (r: Vec<InputRow>)
    ensures
        r@.len() == config.entries@.len(),
        forall|i: int|
            0 <= i < r@.len() ==> row_view(#[trigger] r@[i]) == (
                ("显示名称"@, config.entries@[i].label@),
                ("启动命令，如 "@ + agent@, config.entries@[i].command@),
            ),
{
    let mut rows: Vec<InputRow> = Vec::new();
    let mut i: usize = 0;
    while i < config.entries.len()
        invariant
            i <= config.entries.len(),
            rows@.len() == i,
            forall|k: int|
                0 <= k < i ==> row_view(#[trigger] rows@[k]) == (
                    ("显示名称"@, config.entries@[k].label@),
                    ("启动命令，如 "@ + agent@, config.entries@[k].command@),
                ),
        decreases config.entries.len() - i,
    {
        rows.push(
            InputRow {
                first_placeholder: "显示名称".to_owned(),
                first_value: config.entries[i].label.clone(),
                second_placeholder: concat("启动命令，如 ", agent),
                second_value: config.entries[i].command.clone(),
            },
        );
        i = i + 1;
    }
    rows
}

/// Adds an entry without a command to the launch menu.
pub fn add_launch_entry(config: &mut LaunchConfig)
    ensures
        final(config).version == old(config).version,
        final(config).entries@.len() == old(config).entries@.len() + 1,
        final(config).entries@.drop_last() == old(config).entries@,
        final(config).entries@.last().label@ == "新启动项"@,
        final(config).entries@.last().command@.len() == 0,
        final(config).entries@.last().provider is None,
{
    config.entries.push(
        LaunchEntry { label: "新启动项".to_owned(), command: String::new(), provider: None },
    );
    assert(config.entries@.drop_last() =~= old(config).entries@);
}

/// Gives an entry of the launch menu another name. Where there is no such entry nothing changes.
pub fn set_launch_label(config: &mut LaunchConfig, index: usize, label: String)
    ensures
        final(config).version == old(config).version,
        final(config).entries@ == if index < old(config).entries@.len() {
            old(config).entries@.update(
                index as int,
                LaunchEntry { label, ..old(config).entries@[index as int] },
            )
        } else {
            old(config).entries@
        },
{
    if index < config.entries.len() {
        let entry: LaunchEntry = config.entries.remove(index);
        config.entries.insert(
            index,
            LaunchEntry { label, command: entry.command, provider: entry.provider },
        );
        assert(config.entries@ =~= old(config).entries@.update(
            index as int,
            LaunchEntry { label, ..old(config).entries@[index as int] },
        ));
    }
}

/// Gives an entry of the launch menu another command. Where there is no such entry nothing
/// changes.
pub fn set_launch_command(config: &mut LaunchConfig, index: usize, command: String)
    ensures
        final(config).version == old(config).version,
        final(config).entries@ == if index < old(config).entries@.len() {
            old(config).entries@.update(
                index as int,
                LaunchEntry { command, ..old(config).entries@[index as int] },
            )
        } else {
            old(config).entries@
        },
{
    if index < config.entries.len() {
        let entry: LaunchEntry = config.entries.remove(index);
        config.entries.insert(
            index,
            LaunchEntry { label: entry.label, command, provider: entry.provider },
        );
        assert(config.entries@ =~= old(config).entries@.update(
            index as int,
            LaunchEntry { command, ..old(config).entries@[index as int] },
        ));
    }
}

/// A variant of an agent with a directory of its own.
#[derive(Debug, PartialEq, Eq)]
pub struct AcpProfile {
    pub id: String,
    pub kind_id: String,
    pub label: String,
    pub workspace_dir: String,
}

/// The fields for variants of agents, a row for each. `agent` is the program of the first agent,
/// as an example of a directory.
pub fn init_profile_inputs(profiles: &Vec<AcpProfile>, agent: &str) -> (r: Vec<InputRow>)
    ensures
        r@.len() == profiles@.len(),
        forall|i: int|
            0 <= i < r@.len() ==> row_view(#[trigger] r@[i]) == (
                ("显示名称"@, profiles@[i].label@),
                (
                    "workspace 目录，如 ~/."@ + agent@ + "-quant"@,
                    profiles@[i].workspace_dir@,
                ),
            ),
{
    let mut rows: Vec<InputRow> = Vec::new();
    let mut i: usize = 0;
    while i < profiles.len()
        invariant
            i <= profiles.len(),
            rows@.len() == i,
            forall|k: int|
                0 <= k < i ==> row_view(#[trigger] rows@[k]) == (
                    ("显示名称"@, profiles@[k].label@),
                    (
                        "workspace 目录，如 ~/."@ + agent@ + "-quant"@,
                        profiles@[k].workspace_dir@,
                    ),
                ),
        decreases profiles.len() - i,
    {
        let mut example: String = concat("workspace 目录，如 ~/.", agent);
        example.append("-quant");
        rows.push(
            InputRow {
                first_placeholder: "显示名称".to_owned(),
                first_value: profiles[i].label.clone(),
                second_placeholder: example,
                second_value: profiles[i].workspace_dir.clone(),
            },
        );
        i = i + 1;
    }
    rows
}

/// A new id that no other one has.
///
/// Calls `uuid::Uuid::new_v4`. What comes back is random. The contract claims that it has the
/// length of such an id in writing; that it is new is left unsaid.
#[verifier::external_body]
fn random_id() -> (r: String)
    ensures
        r@.len() == 36,
{
    uuid::Uuid::new_v4().to_string()
}

/// Adds a variant of an agent without a directory, under an id of its own.
pub fn add_profile_with_id(profiles: &mut Vec<AcpProfile>, id: String, kind_id: &str)
    ensures
        final(profiles)@.len() == old(profiles)@.len() + 1,
        final(profiles)@.drop_last() == old(profiles)@,
        final(profiles)@.last().id == id,
        final(profiles)@.last().kind_id@ == kind_id@,
        final(profiles)@.last().label@ == "新 workspace"@,
        final(profiles)@.last().workspace_dir@.len() == 0,
{
    profiles.push(
        AcpProfile {
            id,
            kind_id: kind_id.to_owned(),
            label: "新 workspace".to_owned(),
            workspace_dir: String::new(),
        },
    );
    assert(profiles@.drop_last() =~= old(profiles)@);
}

/// Adds a variant of an agent without a directory.
pub fn add_profile(profiles: &mut Vec<AcpProfile>, kind_id: &str)
    ensures
        final(profiles)@.len() == old(profiles)@.len() + 1,
        final(profiles)@.drop_last() == old(profiles)@,
        final(profiles)@.last().id@.len() == 36,
        final(profiles)@.last().kind_id@ == kind_id@,
        final(profiles)@.last().label@ == "新 workspace"@,
        final(profiles)@.last().workspace_dir@.len() == 0,
{
    let id: String = random_id();
    add_profile_with_id(profiles, id, kind_id);
}

/// Takes a variant away. Where there is no such variant nothing changes.
pub fn remove_profile(profiles: &mut Vec<AcpProfile>, index: usize)
    ensures
        final(profiles)@ == if index < old(profiles)@.len() {
            old(profiles)@.remove(index as int)
        } else {
            old(profiles)@
        },
{
    if index < profiles.len() {
        let removed: AcpProfile = profiles.remove(index);
    }
}

/// Gives a variant another agent. Where there is no such variant nothing changes.
pub fn set_profile_kind(profiles: &mut Vec<AcpProfile>, index: usize, kind_id: String)
    ensures
        final(profiles)@ == if index < old(profiles)@.len() {
            old(profiles)@.update(
                index as int,
                AcpProfile { kind_id, ..old(profiles)@[index as int] },
            )
        } else {
            old(profiles)@
        },
{
    if index < profiles.len() {
        let profile: AcpProfile = profiles.remove(index);
        profiles.insert(
            index,
            AcpProfile {
                id: profile.id,
                kind_id,
                label: profile.label,
                workspace_dir: profile.workspace_dir,
            },
        );
        assert(profiles@ =~= old(profiles)@.update(
            index as int,
            AcpProfile { kind_id, ..old(profiles)@[index as int] },
        ));
    }
}

/// The position of the first variant with the given id.
pub open spec fn profile_at(profiles: Seq<AcpProfile>, id: Seq<char>, from: int) -> Option<int>
    decreases profiles.len() - from,
{
    if from >= profiles.len() {
        None
    } else if profiles[from].id@ == id {
        Some(from)
    } else {
        profile_at(profiles, id, from + 1)
    }
}

fn find_profile(profiles: &Vec<AcpProfile>, id: &str) -> (r: Option<usize>)
    ensures
        match r {
            Some(at) => profile_at(profiles@, id@, 0) == Some(at as int) && at < profiles@.len(),
            None => profile_at(profiles@, id@, 0) is None,
        },
{
    let mut i: usize = 0;
    while i < profiles.len()
        invariant
            i <= profiles.len(),
            profile_at(profiles@, id@, 0) == profile_at(profiles@, id@, i as int),
        decreases profiles.len() - i,
    {
        if same_text(profiles[i].id.as_str(), id) {
            return Some(i);
        }
        i = i + 1;
    }
    None
}

/// Gives the variant with the given id another name. The list may have changed since the field
/// was made, so the id counts and not the position.
pub fn set_profile_label(profiles: &mut Vec<AcpProfile>, id: &str, label: String)
    ensures
        final(profiles)@ == match profile_at(old(profiles)@, id@, 0) {
            Some(at) => old(profiles)@.update(at, AcpProfile { label, ..old(profiles)@[at] }),
            None => old(profiles)@,
        },
{
    if let Some(at) = find_profile(profiles, id) {
        let profile: AcpProfile = profiles.remove(at);
        profiles.insert(
            at,
            AcpProfile {
                id: profile.id,
                kind_id: profile.kind_id,
                label,
                workspace_dir: profile.workspace_dir,
            },
        );
        assert(profiles@ =~= old(profiles)@.update(
            at as int,
            AcpProfile { label, ..old(profiles)@[at as int] },
        ));
    }
}

/// Gives the variant with the given id another directory.
pub fn set_profile_dir(profiles: &mut Vec<AcpProfile>, id: &str, workspace_dir: String)
    ensures
        final(profiles)@ == match profile_at(old(profiles)@, id@, 0) {
            Some(at) => old(profiles)@.update(
                at,
                AcpProfile { workspace_dir, ..old(profiles)@[at] },
            ),
            None => old(profiles)@,
        },
{
    if let Some(at) = find_profile(profiles, id) {
        let profile: AcpProfile = profiles.remove(at);
        profiles.insert(
            at,
            AcpProfile {
                id: profile.id,
                kind_id: profile.kind_id,
                label: profile.label,
                workspace_dir,
            },
        );
        assert(profiles@ =~= old(profiles)@.update(
            at as int,
            AcpProfile { workspace_dir, ..old(profiles)@[at as int] },
        ));
    }
}

} // verus!
