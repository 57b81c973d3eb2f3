//! What plugins add to rows: badges, links and actions.

use vstd::prelude::*;

use crate::session_list::row::RowIcon;
use crate::text::same_text;

verus! {

/// The tone of a decoration.
#[derive(Clone, Copy, Debug, PartialEq, Eq, Structural)]
pub enum EntityDecorationTone {
    Neutral,
    Accent,
    Positive,
    Warning,
    Negative,
}

/// A colour of the theme.
#[derive(Clone, Copy, Debug, PartialEq, Eq, Structural)]
pub enum ThemeColor {
    MutedForeground,
    Accent,
    Green,
    Warning,
    Danger,
}

/// The colour of a tone.
pub open spec fn tone_color(tone: EntityDecorationTone) -> ThemeColor {
    match tone {
        EntityDecorationTone::Neutral => ThemeColor::MutedForeground,
        EntityDecorationTone::Accent => ThemeColor::Accent,
        EntityDecorationTone::Positive => ThemeColor::Green,
        EntityDecorationTone::Warning => ThemeColor::Warning,
        EntityDecorationTone::Negative => ThemeColor::Danger,
    }
}

/// The colour of a tone.
pub fn entity_decoration_color(tone: EntityDecorationTone) -> (r: ThemeColor)
    ensures
        r == tone_color(tone),
{
    match tone {
        EntityDecorationTone::Neutral => ThemeColor::MutedForeground,
        EntityDecorationTone::Accent => ThemeColor::Accent,
        EntityDecorationTone::Positive => ThemeColor::Green,
        EntityDecorationTone::Warning => ThemeColor::Warning,
        EntityDecorationTone::Negative => ThemeColor::Danger,
    }
}

/// What a plugin adds to a row.
#[derive(Debug, PartialEq, Eq)]
pub struct PluginEntityDecoration {
    pub tone: EntityDecorationTone,
    pub icon_asset: Option<String>,
    pub badge: Option<String>,
    pub tooltip: Option<String>,
    pub external_url: Option<String>,
}

/// What is drawn of what a plugin adds to a row. `link` is what a click opens.
#[derive(Debug, PartialEq, Eq)]
pub struct DecorationChip {
    pub color: ThemeColor,
    pub icon: Option<RowIcon>,
    pub badge: Option<String>,
    pub tooltip: Option<String>,
    pub link: Option<String>,
}

/// The scheme of an address, where `url::Url::parse` takes the address.
pub uninterp spec fn parsed_scheme(address: Seq<char>) -> Option<Seq<char>>;

/// The scheme of an address.
///
/// Calls `url::Url::parse` and `url::Url::scheme`. The contract claims that both what is taken
/// for an address and its scheme depend on the text alone.
#[verifier::external_body]
fn url_scheme(address: &str) -> (r: Option<String>)
    ensures
        match r {
            Some(scheme) => parsed_scheme(address@) == Some(scheme@),
            None => parsed_scheme(address@) is None,
        },
{
    match url::Url::parse(address) {
        Ok(url) => Some(url.scheme().to_owned()),
        Err(_) => None,
    }
}

/// The scheme is one that a browser opens.
pub open spec fn is_web_scheme(scheme: Option<Seq<char>>) -> bool {
    scheme == Some("http"@) || scheme == Some("https"@)
}

/// Whether a scheme is one that a browser opens.
pub fn opens_in_a_browser(scheme: &Option<String>) -> (r: bool)
    ensures
        r == is_web_scheme(
            match *scheme {
                Some(scheme) => Some(scheme@),
                None => None,
            },
        ),
{
    match scheme {
        Some(scheme) => same_text(scheme.as_str(), "http") || same_text(scheme.as_str(), "https"),
        None => false,
    }
}

fn copied(text: &Option<String>) -> (r: Option<String>)
    ensures
        r == *text,
{
    match text {
        Some(text) => Some(text.clone()),
        None => None,
    }
}

/// What is drawn of what a plugin adds to a row. Only an address that a browser opens becomes a
/// link.
pub open spec fn chip_of(decoration: PluginEntityDecoration, show_icon: bool) -> DecorationChip {
    DecorationChip {
        color: tone_color(decoration.tone),
        icon: if !show_icon {
            None
        } else if decoration.icon_asset is Some {
            Some(RowIcon::Asset(decoration.icon_asset->0))
        } else if decoration.external_url is Some {
            Some(RowIcon::ExternalLink)
        } else {
            None
        },
        badge: decoration.badge,
        tooltip: decoration.tooltip,
        link: match decoration.external_url {
            Some(address) if is_web_scheme(parsed_scheme(address@)) => Some(address),
            _ => None,
        },
    }
}

/// What is drawn of what a plugin adds to a row.
pub fn entity_decoration_chip(decoration: &PluginEntityDecoration, show_icon: bool) -> (r:
    DecorationChip)
    ensures
        r == chip_of(*decoration, show_icon),
{
    let icon: Option<RowIcon> = if !show_icon {
        None
    } else {
        match &decoration.icon_asset {
            Some(path) => Some(RowIcon::Asset(path.clone())),
            None => match &decoration.external_url {
                Some(_) => Some(RowIcon::ExternalLink),
                None => None,
            },
        }
    };
    let link: Option<String> = match &decoration.external_url {
        Some(address) => if opens_in_a_browser(&url_scheme(address.as_str())) {
            Some(address.clone())
        } else {
            None
        },
        None => None,
    };
    DecorationChip {
        color: entity_decoration_color(decoration.tone),
        icon,
        badge: copied(&decoration.badge),
        tooltip: copied(&decoration.tooltip),
        link,
    }
}

/// How much of what plugins add a row shows.
pub const DECORATIONS_SHOWN: usize = 2;

/// What is drawn of all that plugins add to a row: the first two. Where the agent of a plugin has
/// its picture in the row, they have none.
pub fn row_decorations(decorations: &Vec<PluginEntityDecoration>, has_plugin_agent: bool) -> (r: Vec<
    DecorationChip,
>)
    ensures
        r@.len() == if decorations@.len() < DECORATIONS_SHOWN {
            decorations@.len() as int
        } else {
            DECORATIONS_SHOWN as int
        },
        forall|i: int|
            0 <= i < r@.len() ==> #[trigger] r@[i] == chip_of(decorations@[i], !has_plugin_agent),
{
    let mut chips: Vec<DecorationChip> = Vec::new();
    let mut i: usize = 0;
    while i < decorations.len() && i < DECORATIONS_SHOWN
        invariant
            i <= decorations.len(),
            i <= DECORATIONS_SHOWN,
            chips@.len() == i,
            forall|k: int|
                0 <= k < i ==> #[trigger] chips@[k] == chip_of(decorations@[k], !has_plugin_agent),
        decreases decorations.len() - i,
    {
        chips.push(entity_decoration_chip(&decorations[i], !has_plugin_agent));
        i = i + 1;
    }
    chips
}

/// Something that a plugin brings, by the plugin and its name there.
#[derive(Debug, PartialEq, Eq)]
pub struct ContributionRef {
    pub plugin_id: String,
    pub contribution_id: String,
}

/// Something that a plugin keeps, by the plugin, its type and its name there.
#[derive(Debug, PartialEq, Eq)]
pub struct ResourceRef {
    pub plugin_id: String,
    pub resource_type: String,
    pub resource_id: String,
}

/// What an action of a plugin is run on. The context is a JSON text in which the keys of each
/// object are sorted.
#[derive(Debug, PartialEq, Eq)]
pub struct SessionActionInvocationPayload {
    pub agent: ContributionRef,
    pub controller: ContributionRef,
    pub instance: ResourceRef,
    pub context: String,
}

/// Two actions would be run on the same thing.
pub open spec fn same_target(
    a: SessionActionInvocationPayload,
    b: SessionActionInvocationPayload,
) -> bool {
    &&& a.agent.plugin_id@ == b.agent.plugin_id@
    &&& a.agent.contribution_id@ == b.agent.contribution_id@
    &&& a.controller.plugin_id@ == b.controller.plugin_id@
    &&& a.controller.contribution_id@ == b.controller.contribution_id@
    &&& a.instance.plugin_id@ == b.instance.plugin_id@
    &&& a.instance.resource_type@ == b.instance.resource_type@
    &&& a.instance.resource_id@ == b.instance.resource_id@
    &&& a.context@ == b.context@
}

fn targets_match(
    a: &SessionActionInvocationPayload,
    b: &SessionActionInvocationPayload,
) -> (r: bool)
    ensures
        r == same_target(*a, *b),
{
    same_text(a.agent.plugin_id.as_str(), b.agent.plugin_id.as_str()) && same_text(
        a.agent.contribution_id.as_str(),
        b.agent.contribution_id.as_str(),
    ) && same_text(a.controller.plugin_id.as_str(), b.controller.plugin_id.as_str()) && same_text(
        a.controller.contribution_id.as_str(),
        b.controller.contribution_id.as_str(),
    ) && same_text(a.instance.plugin_id.as_str(), b.instance.plugin_id.as_str()) && same_text(
        a.instance.resource_type.as_str(),
        b.instance.resource_type.as_str(),
    ) && same_text(a.instance.resource_id.as_str(), b.instance.resource_id.as_str()) && same_text(
        a.context.as_str(),
        b.context.as_str(),
    )
}

/// All of the payloads are the same.
pub open spec fn all_alike(payloads: Seq<SessionActionInvocationPayload>) -> bool {
    forall|i: int| 0 <= i < payloads.len() ==> same_target(#[trigger] payloads[i], payloads[0])
}

/// What an action on a whole project is run on: what each of its sessions would run it on, where
/// that is the same for all.
pub fn shared_project_action_payload(payloads: &Vec<SessionActionInvocationPayload>) -> (r: Option<
    &SessionActionInvocationPayload,
>)
    ensures
        match r {
            Some(payload) => payloads@.len() > 0 && all_alike(payloads@) && *payload == payloads@[0],
            None => payloads@.len() == 0 || !all_alike(payloads@),
        },
{
    if payloads.len() == 0 {
        return None;
    }
    let mut i: usize = 0;
    while i < payloads.len()
        invariant
            0 < payloads@.len(),
            i <= payloads.len(),
            forall|k: int| 0 <= k < i ==> same_target(#[trigger] payloads@[k], payloads@[0]),
        decreases payloads.len() - i,
    {
        if !targets_match(&payloads[i], &payloads[0]) {
            assert(!same_target(payloads@[i as int], payloads@[0]));
            return None;
        }
        i = i + 1;
    }
    Some(&payloads[0])
}

/// An action on a whole project would be run on the same thing by any two of its sessions.
pub proof fn shared_targets_are_shared_by_all(
    payloads: Seq<SessionActionInvocationPayload>,
    i: int,
    j: int,
)
    requires
        all_alike(payloads),
        0 <= i < payloads.len(),
        0 <= j < payloads.len(),
    ensures
        same_target(payloads[i], payloads[j]),
{
    assert(same_target(payloads[i], payloads[0]) && same_target(payloads[j], payloads[0]));
}

} // verus!
