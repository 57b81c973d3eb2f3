//! Where the files stand that agents read their hooks from.

use vstd::prelude::*;

use crate::text;
use crate::text::{chars_of, concat};

verus! {

/// A file that an agent reads its hooks from.
#[derive(Clone, Copy, Debug, PartialEq, Eq, Structural)]
pub enum HookLocation {
    ClaudeSettings,
    GrokHooks,
    CopilotHooks,
    CodexHooks,
    AntigravityHooks,
    CursorHooks,
    KiroHooks,
}

/// The names, from the home directory down to the file. The directory of the first agent has
/// its `name`.
pub open spec fn path_names(location: HookLocation, name: Seq<char>) -> Seq<Seq<char>> {
    match location {
        HookLocation::ClaudeSettings => seq!["."@ + name, "settings.json"@],
        HookLocation::GrokHooks => seq![".grok"@, "hooks"@, "smelt-notifications.json"@],
        HookLocation::CopilotHooks => seq![".copilot"@, "hooks"@, "smelt.json"@],
        HookLocation::CodexHooks => seq![".codex"@, "hooks.json"@],
        HookLocation::AntigravityHooks => seq![".gemini"@, "config"@, "hooks.json"@],
        HookLocation::CursorHooks => seq![".cursor"@, "hooks.json"@],
        HookLocation::KiroHooks => seq![".kiro"@, "hooks"@, "smelt-notifications.json"@],
    }
}

fn names(first: &str, second: &str, third: Option<&str>) -> (r: Vec<String>)
    ensures
        text::texts(r@) == match third {
            Some(third) => seq![first@, second@, third@],
            None => seq![first@, second@],
        },
{
    let mut out: Vec<String> = Vec::new();
    out.push(first.to_owned());
    out.push(second.to_owned());
    if let Some(third) = third {
        out.push(third.to_owned());
        assert(text::texts(out@) =~= seq![first@, second@, third@]);
    } else {
        assert(text::texts(out@) =~= seq![first@, second@]);
    }
    out
}

impl HookLocation {
    /// The names, from the home directory down to the file. The directory of the first agent has
    /// its `name`.
    pub fn components(self, name: &str) -> (r: Vec<String>)
        ensures
            text::texts(r@) == path_names(self, name@),
    {
        match self {
            HookLocation::ClaudeSettings => {
                let directory: String = concat(".", name);
                names(directory.as_str(), "settings.json", None)
            },
            HookLocation::GrokHooks => names(".grok", "hooks", Some("smelt-notifications.json")),
            HookLocation::CopilotHooks => names(".copilot", "hooks", Some("smelt.json")),
            HookLocation::CodexHooks => names(".codex", "hooks.json", None),
            HookLocation::AntigravityHooks => names(".gemini", "config", Some("hooks.json")),
            HookLocation::CursorHooks => names(".cursor", "hooks.json", None),
            HookLocation::KiroHooks => names(".kiro", "hooks", Some("smelt-notifications.json")),
        }
    }
}

/// The names, from the configuration directory down to the plugin of OpenCode.
pub fn opencode_plugin_components() -> (r: Vec<String>)
    ensures
        text::texts(r@) == seq!["opencode"@, "plugins"@, "smelt-notifications.js"@],
{
    names("opencode", "plugins", Some("smelt-notifications.js"))
}

/// The configuration directory: the one that is set, unless it is set to nothing. Without it,
/// the one in the home directory counts.
pub fn config_root(set: Option<String>) -> (r: Option<String>)
    ensures
        r == match set {
            Some(root) if root@.len() > 0 => Some(root),
            _ => None,
        },
{
    match set {
        Some(root) => if chars_of(root.as_str()).len() > 0 {
            Some(root)
        } else {
            None
        },
        None => None,
    }
}

} // verus!
