//! What the pages for the look, for commands and for profiles promise.

use vstd::prelude::*;

use crate::settings::appearance;
use crate::settings::appearance::{
    appearance_controls, appearance_from_snapshot, current_terminal_theme, font_options,
    packed_color, resolved_ui_font_family, snapshot_from_appearance, theme_fonts, Appearance,
    AppearanceControls, AppearanceSnapshot, TerminalColors, TerminalThemeSnapshot, ThemeMode,
    WindowBackgroundAppearance,
};
use crate::settings::editors;
use crate::settings::editors::{
    acp_cmd_description, acp_cmd_entered, acp_cmd_setting_value, acp_cmd_title, add_launch_entry,
    add_profile, add_profile_with_id, init_launch_inputs, init_llm_inputs, init_profile_inputs,
    inputs_are_stale, remove_profile, saves_on, set_launch_command, set_launch_label,
    set_profile_dir, set_profile_kind, set_profile_label, AcpProfile, InputEvent, InputRow,
    InputSpec, LlmConfig, LlmField,
};
use crate::settings::launch::LaunchConfig;
use crate::text;

verus! {

/// A window is between three tenths and wholly opaque, and wholly opaque where nothing was chosen;
/// what was chosen within that is what it has.
pub proof fn windows_stay_visible(look: &Appearance, r: i64)
    requires
        call_ensures(Appearance::window_opacity, (look,), r),
    ensures
        300 <= r <= 1000,
        look.opacity is None ==> r == 1000,
        look.opacity matches Some(chosen) ==> (300 <= chosen <= 1000 ==> r == chosen) && (chosen
            < 300 ==> r == 300) && (chosen > 1000 ==> r == 1000),
{
}

/// What is behind a window is blurred; the default color is none of one's own, and any other is.
pub proof fn only_other_colors_are_chosen(
    look: &Appearance,
    behind: WindowBackgroundAppearance,
    default: bool,
    chosen: Option<u32>,
)
    requires
        call_ensures(Appearance::window_bg, (look,), behind),
        call_ensures(Appearance::bg_color_is_default, (look,), default),
        call_ensures(Appearance::bg_override, (look,), chosen),
    ensures
        behind is Blurred,
        default <==> look.bg_color == 0x1a1b26,
        chosen is None <==> default,
        chosen matches Some(color) ==> color == look.bg_color,
{
}

proof fn lemma_last_part(path: Seq<char>)
    ensures
        ({
            let name = appearance::last_part(path);
            &&& name.len() <= path.len()
            &&& path.skip(path.len() - name.len()) == name
            &&& name.len() < path.len() ==> path[path.len() - name.len() - 1] == '/'
            &&& !name.contains('/')
        }),
    decreases path.len(),
{
    if path.len() == 0 || path.last() == '/' {
        assert(path.skip(path.len() as int) =~= Seq::<char>::empty());
    } else {
        lemma_last_part(path.drop_last());
        let shorter = appearance::last_part(path.drop_last());
        let name = shorter.push(path.last());
        assert(path.skip(path.len() - name.len()) =~= path.drop_last().skip(
            path.drop_last().len() - shorter.len(),
        ).push(path.last()));
        assert(!name.contains('/')) by {
            if name.contains('/') {
                let k = choose|k: int| 0 <= k < name.len() && name[k] == '/';
                if k < shorter.len() {
                    assert(shorter[k] == '/');
                }
            }
        }
    }
}

/// A picture is named by the last part of its path: all that follows the last slash.
pub proof fn pictures_are_named_by_their_file(look: &Appearance, r: String)
    requires
        call_ensures(Appearance::bg_image_name, (look,), r),
    ensures
        look.bg_image is None ==> r@ == "无"@,
        look.bg_image matches Some(path) ==> r@.len() <= path@.len() && path@.skip(
            path@.len() - r@.len(),
        ) == r@ && !r@.contains('/') && (r@.len() < path@.len() ==> path@[path@.len() - r@.len()
            - 1] == '/'),
{
    if look.bg_image is Some {
        lemma_last_part((look.bg_image->0)@);
    }
}

/// The two looks have the same background, glass and interface font.
pub open spec fn same_surroundings(a: Appearance, b: Appearance) -> bool {
    &&& a.bg_color == b.bg_color
    &&& a.bg_image == b.bg_image
    &&& a.bg_image_opacity == b.bg_image_opacity
    &&& a.blur == b.blur
    &&& a.glass_style == b.glass_style
    &&& a.ui_font_px == b.ui_font_px
    &&& a.ui_font_family == b.ui_font_family
}

/// Each control changes its own setting and no other, within its limits.
pub proof fn controls_change_one_thing(
    one: &mut Appearance,
    two: &mut Appearance,
    three: &mut Appearance,
    four: &mut Appearance,
    percent: i64,
    size: i64,
    smallest: u32,
    largest: u32,
    name: &str,
    dark: bool,
)
    requires
        call_ensures(Appearance::set_opacity_percent, (one, percent), ()),
        smallest <= largest,
        call_ensures(Appearance::set_font_px, (two, size, smallest, largest), ()),
        call_ensures(Appearance::set_font_family, (three, name), ()),
        call_ensures(Appearance::set_dark, (four, dark), ()),
    ensures
        30 <= percent <= 100 ==> final(one).opacity == Some((percent * 10) as i64),
        percent < 30 ==> final(one).opacity == Some(300i64),
        percent > 100 ==> final(one).opacity == Some(1000i64),
        same_surroundings(*final(one), *old(one)),
        final(one).font_px == old(one).font_px && final(one).theme_mode == old(one).theme_mode,
        smallest <= size <= largest ==> final(two).font_px == size,
        size < smallest ==> final(two).font_px == smallest,
        size > largest ==> final(two).font_px == largest,
        same_surroundings(*final(two), *old(two)),
        final(two).opacity == old(two).opacity && final(two).theme_mode == old(two).theme_mode,
        final(three).font_family@ == text::trimmed(name@),
        same_surroundings(*final(three), *old(three)),
        final(three).opacity == old(three).opacity && final(three).font_px == old(three).font_px,
        final(four).theme_mode == if dark {
            ThemeMode::Dark
        } else {
            ThemeMode::Light
        },
        same_surroundings(*final(four), *old(four)),
        final(four).opacity == old(four).opacity && final(four).font_px == old(four).font_px,
{
}

/// A new picture changes that alone.
pub proof fn a_new_picture_changes_nothing_else(look: &mut Appearance, path: Option<String>)
    requires
        call_ensures(Appearance::set_bg_image, (look, path), ()),
    ensures
        final(look).bg_image == path,
        final(look).bg_color == old(look).bg_color,
        final(look).opacity == old(look).opacity,
        final(look).theme_mode == old(look).theme_mode,
        final(look).font_px == old(look).font_px,
        final(look).blur == old(look).blur,
{
}

/// The interface has the font that was chosen, and the system's where none was; without a look the
/// font has sixteen pixels.
pub proof fn blank_fonts_are_the_systems(
    look: &Appearance,
    family: String,
    known: (u32, String),
    unknown: (u32, String),
)
    requires
        call_ensures(resolved_ui_font_family, (look,), family),
        call_ensures(theme_fonts, (Some(look),), known),
        call_ensures(theme_fonts, (None,), unknown),
    ensures
        text::trimmed(look.ui_font_family@).len() == 0 ==> family@ == ".SystemUIFont"@,
        text::trimmed(look.ui_font_family@).len() > 0 ==> family@ == text::trimmed(
            look.ui_font_family@,
        ),
        known.0 == look.ui_font_px && known.1@ == family@,
        unknown.0 == 16 && unknown.1@ == ".SystemUIFont"@,
{
}

/// The three parts of a color can be read back from it.
pub proof fn colors_hold_their_parts(red: u8, green: u8, blue: u8, r: u32)
    requires
        call_ensures(packed_color, (red, green, blue), r),
    ensures
        r / 65536 == red,
        r / 256 % 256 == green,
        r % 256 == blue,
{
}

/// The sliders reach from six tenths to all, in steps of a twentieth, and over the sizes allowed,
/// one by one; they begin at what is set.
pub proof fn sliders_begin_at_what_is_set(
    look: &Appearance,
    smallest: u32,
    largest: u32,
    r: AppearanceControls,
)
    requires
        call_ensures(appearance_controls, (look, smallest, largest), r),
    ensures
        r.opacity.min == 600 && r.opacity.max == 1000 && r.opacity.step == 50,
        r.opacity.start == look.opacity,
        r.font_size.min == smallest && r.font_size.max == largest && r.font_size.step == 1,
        r.font_size.start == Some(look.font_px as i64),
        r.background == look.bg_color,
{
}

/// A terminal has the colors of its theme, with a background of one's own where there is one; the
/// cursor has the color of the text.
pub proof fn terminals_have_their_colors(
    version: u32,
    colors: TerminalColors,
    chosen: Option<u32>,
    r: TerminalThemeSnapshot,
)
    requires
        call_ensures(current_terminal_theme, (version, colors, chosen), r),
    ensures
        r.version == version && r.dark == colors.dark,
        chosen is None ==> r.background == colors.background,
        chosen matches Some(color) ==> r.background == color,
        r.foreground == colors.foreground && r.cursor == r.foreground,
        r.selection == colors.selection && r.palette@ == colors.palette@,
        r.search_hit == colors.search_hit && r.search_hit_current == colors.search_hit_current,
{
}

/// A look that is stored and read back is the same.
pub proof fn looks_survive_storing(
    look: &Appearance,
    stored: AppearanceSnapshot,
    read: Appearance,
)
    requires
        call_ensures(snapshot_from_appearance, (look,), stored),
        call_ensures(appearance_from_snapshot, (stored,), read),
    ensures
        read == *look,
        stored.theme_mode@ == if look.theme_mode is Dark {
            "dark"@
        } else {
            "light"@
        },
        stored.glass_style@ == if look.glass_style is Clear {
            "clear"@
        } else {
            "regular"@
        },
{
    appearance::stored_appearances_are_read_back(stored, *look);
}

/// An unknown theme is read as dark, and an unknown glass as regular.
pub proof fn unknown_names_have_a_meaning(stored: AppearanceSnapshot, read: Appearance)
    requires
        call_ensures(appearance_from_snapshot, (stored,), read),
    ensures
        read.theme_mode is Light <==> stored.theme_mode@ == "light"@,
        read.glass_style is Clear <==> stored.glass_style@ == "clear"@,
        read.bg_color == stored.bg_color && read.opacity == stored.opacity,
        read.font_px == stored.font_px && read.font_family == stored.font_family,
        read.ui_font_px == stored.ui_font_px && read.ui_font_family == stored.ui_font_family,
        read.bg_image == stored.bg_image && read.bg_image_opacity == stored.bg_image_opacity,
        read.blur == stored.blur,
{
}

/// Every font is offered once, in order, behind the default one.
pub proof fn fonts_are_offered_in_order(
    names: &Vec<String>,
    default_family: &str,
    r: Vec<(String, String)>,
    i: int,
    j: int,
)
    requires
        call_ensures(font_options, (names, default_family), r),
    ensures
        r@.len() >= 1,
        (r@[0].0)@.len() == 0,
        1 <= i < j < r@.len() ==> text::text_before((r@[i].0)@, (r@[j].0)@),
        1 <= i < r@.len() ==> (r@[i].1)@ == (r@[i].0)@ && exists|k: int|
            0 <= k < names@.len() && (#[trigger] names@[k])@ == (r@[i].0)@,
        0 <= i < names@.len() ==> exists|k: int|
            1 <= k < r@.len() && (#[trigger] r@[k]).0@ == names@[i]@,
{
    let listed = appearance::option_names(r@);
    let all = text::texts(names@);
    assert(listed.len() == r@.len() - 1);
    if 1 <= i < r@.len() {
        assert(listed[i - 1] == (r@[i].0)@);
        assert(listed.contains((r@[i].0)@));
        assert(all.contains((r@[i].0)@));
        let k = choose|k: int| 0 <= k < all.len() && all[k] == (r@[i].0)@;
        assert(names@[k]@ == (r@[i].0)@);
        if i < j < r@.len() {
            assert(listed[j - 1] == (r@[j].0)@);
        }
    }
    if 0 <= i < names@.len() {
        assert(all[i] == names@[i]@);
        assert(all.contains(names@[i]@));
        assert(listed.contains(names@[i]@));
        let k = choose|k: int| 0 <= k < listed.len() && listed[k] == names@[i]@;
        assert((r@[k + 1]).0@ == names@[i]@);
    }
}

/// The default command is shown as nothing, and nothing is stored as the default; any other
/// command is shown and stored as it is, without the spaces around it.
pub proof fn default_commands_are_left_out(
    default: &str,
    command: String,
    shown: String,
    entered: &str,
    stored: String,
)
    requires
        call_ensures(acp_cmd_setting_value, (default, command), shown),
        call_ensures(acp_cmd_entered, (default, entered), stored),
    ensures
        command@ == default@ ==> shown@.len() == 0,
        command@ != default@ ==> shown@ == command@,
        text::trimmed(entered@).len() == 0 ==> stored@ == default@,
        text::trimmed(entered@).len() > 0 ==> stored@ == text::trimmed(entered@),
{
}

/// The page of a command names the agent that it starts.
pub proof fn command_pages_name_their_agent(label: &str, title: String, description: String)
    requires
        call_ensures(acp_cmd_title, (label,), title),
        call_ensures(acp_cmd_description, (label,), description),
    ensures
        title@ == label@ + " 自定义启动命令"@,
        description@ == "留空使用内置适配器；仅在需要替换适配器或追加参数时填写。改动只影响之后新建的「"@
            + label@ + "」对话会话。"@,
{
}

/// An input is stored when it changes and when it is left.
pub proof fn inputs_are_stored_at_once(event: InputEvent, r: bool, rows: Option<usize>, n: usize, stale: bool)
    requires
        call_ensures(saves_on, (event,), r),
        call_ensures(inputs_are_stale, (rows, n), stale),
    ensures
        event is Change || event is Blur <==> r,
        event is Focus || event is PressEnter ==> !r,
        rows is None ==> stale,
        rows matches Some(have) ==> (stale <==> have != n),
{
}

/// The inputs of the model hold what is stored; the key is masked, and the persona has several
/// lines.
pub proof fn model_inputs_hold_what_is_stored(config: &LlmConfig, r: Vec<InputSpec>, i: int)
    requires
        call_ensures(init_llm_inputs, (config,), r),
        0 <= i < r@.len(),
    ensures
        r@.len() == 4,
        r@[i].field == seq![LlmField::BaseUrl, LlmField::ApiKey, LlmField::Model, LlmField::Persona][i],
        r@[i].field is BaseUrl ==> r@[i].value@ == config.base_url@,
        r@[i].field is ApiKey ==> r@[i].value@ == config.api_key@,
        r@[i].field is Model ==> r@[i].value@ == config.model@,
        r@[i].field is Persona ==> r@[i].value@ == config.persona@,
        r@[i].masked <==> r@[i].field is ApiKey,
        r@[i].multi_line <==> r@[i].field is Persona,
        r@[i].field is BaseUrl ==> r@[i].placeholder@
            == "https://api.deepseek.com/chat/completions"@,
        r@[i].field is Model ==> r@[i].placeholder@ == "deepseek-chat"@,
        r@[i].field is ApiKey ==> r@[i].placeholder@ == "sk-...（留空则用 config.toml/env）"@,
        r@[i].field is Persona ==> r@[i].placeholder@ == "人设 / system prompt"@,
{
}

/// Each input changes its own field, and the switch none of them.
pub proof fn model_inputs_change_their_field(
    one: &mut LlmConfig,
    two: &mut LlmConfig,
    enabled: bool,
    field: LlmField,
    value: String,
)
    requires
        call_ensures(LlmConfig::set_enabled, (one, enabled), ()),
        call_ensures(LlmConfig::update_llm_config, (two, field, value), ()),
    ensures
        final(one).enabled == enabled,
        final(one).base_url == old(one).base_url && final(one).api_key == old(one).api_key,
        final(one).model == old(one).model && final(one).persona == old(one).persona,
        final(two).enabled == old(two).enabled,
        field is BaseUrl ==> final(two).base_url == value,
        field !is BaseUrl ==> final(two).base_url == old(two).base_url,
        field is ApiKey ==> final(two).api_key == value,
        field !is ApiKey ==> final(two).api_key == old(two).api_key,
        field is Model ==> final(two).model == value,
        field !is Model ==> final(two).model == old(two).model,
        field is Persona ==> final(two).persona == value,
        field !is Persona ==> final(two).persona == old(two).persona,
{
}

/// Every launch entry has a row with its name and its command.
pub proof fn launch_inputs_hold_the_entries(
    config: &LaunchConfig,
    agent: &str,
    r: Vec<InputRow>,
    i: int,
)
    requires
        call_ensures(init_launch_inputs, (config, agent), r),
    ensures
        r@.len() == config.entries@.len(),
        0 <= i < r@.len() ==> {
            &&& r@[i].first_value@ == config.entries@[i].label@
            &&& r@[i].second_value@ == config.entries@[i].command@
            &&& r@[i].first_placeholder@ == "显示名称"@
            &&& r@[i].second_placeholder@ == "启动命令，如 "@ + agent@
        },
{
    if 0 <= i < r@.len() {
        let row = editors::row_view(r@[i]);
    }
}

/// A new launch entry stands behind the others, has a name and no command, and is no agent's.
pub proof fn new_entries_stand_last(config: &mut LaunchConfig, i: int)
    requires
        call_ensures(add_launch_entry, (config,), ()),
    ensures
        final(config).entries@.len() == old(config).entries@.len() + 1,
        0 <= i < old(config).entries@.len() ==> final(config).entries@[i] == old(config).entries@[i],
        ({
            let entry = final(config).entries@[old(config).entries@.len() as int];
            entry.label@ == "新启动项"@ && entry.command@.len() == 0 && entry.provider is None
        }),
        final(config).version == old(config).version,
{
    if 0 <= i < old(config).entries@.len() {
        assert(final(config).entries@.drop_last()[i] == final(config).entries@[i]);
    }
}

/// A new name or command changes that of its entry alone.
pub proof fn inputs_change_their_entry(
    one: &mut LaunchConfig,
    two: &mut LaunchConfig,
    index: usize,
    content: String,
    i: int,
)
    requires
        call_ensures(set_launch_label, (one, index, content), ()),
        call_ensures(set_launch_command, (two, index, content), ()),
    ensures
        final(one).entries@.len() == old(one).entries@.len(),
        final(two).entries@.len() == old(two).entries@.len(),
        0 <= i < old(one).entries@.len() ==> final(one).entries@[i].command == old(one).entries@[i].command && final(one).entries@[i].provider == old(one).entries@[i].provider
            && final(one).entries@[i].label == if i == index {
            content
        } else {
            old(one).entries@[i].label
        },
        0 <= i < old(two).entries@.len() ==> final(two).entries@[i].label == old(two).entries@[i].label && final(two).entries@[i].provider == old(two).entries@[i].provider
            && final(two).entries@[i].command == if i == index {
            content
        } else {
            old(two).entries@[i].command
        },
        final(one).version == old(one).version && final(two).version == old(two).version,
{
}

/// Every profile has a row with its name and its folder.
pub proof fn profile_inputs_hold_the_profiles(
    profiles: &Vec<AcpProfile>,
    agent: &str,
    r: Vec<InputRow>,
    i: int,
)
    requires
        call_ensures(init_profile_inputs, (profiles, agent), r),
    ensures
        r@.len() == profiles@.len(),
        0 <= i < r@.len() ==> {
            &&& r@[i].first_value@ == profiles@[i].label@
            &&& r@[i].second_value@ == profiles@[i].workspace_dir@
            &&& r@[i].first_placeholder@ == "显示名称"@
            &&& r@[i].second_placeholder@ == "workspace 目录，如 ~/."@ + agent@ + "-quant"@
        },
{
    if 0 <= i < r@.len() {
        let row = editors::row_view(r@[i]);
    }
}

/// A new profile stands behind the others, under its identifier and of its kind, with a name and
/// no folder.
pub proof fn new_profiles_stand_last(
    one: &mut Vec<AcpProfile>,
    two: &mut Vec<AcpProfile>,
    id: String,
    kind_id: &str,
    i: int,
)
    requires
        call_ensures(add_profile_with_id, (one, id, kind_id), ()),
        call_ensures(add_profile, (two, kind_id), ()),
    ensures
        final(one)@.len() == old(one)@.len() + 1 && final(two)@.len() == old(two)@.len() + 1,
        0 <= i < old(one)@.len() ==> final(one)@[i] == old(one)@[i],
        0 <= i < old(two)@.len() ==> final(two)@[i] == old(two)@[i],
        ({
            let profile = final(one)@[old(one)@.len() as int];
            profile.id@ == id@ && profile.kind_id@ == kind_id@ && profile.label@
                == "新 workspace"@ && profile.workspace_dir@.len() == 0
        }),
        ({
            let profile = final(two)@[old(two)@.len() as int];
            profile.id@.len() == 36 && profile.kind_id@ == kind_id@ && profile.label@
                == "新 workspace"@ && profile.workspace_dir@.len() == 0
        }),
{
    if 0 <= i < old(one)@.len() {
        assert(final(one)@.drop_last()[i] == final(one)@[i]);
    }
    if 0 <= i < old(two)@.len() {
        assert(final(two)@.drop_last()[i] == final(two)@[i]);
    }
}

/// The profile at a place goes, and the others stay in order; without one nothing changes. A new
/// kind changes that of its profile alone.
pub proof fn profiles_go_one_by_one(
    one: &mut Vec<AcpProfile>,
    two: &mut Vec<AcpProfile>,
    index: usize,
    kind_id: String,
    i: int,
)
    requires
        call_ensures(remove_profile, (one, index), ()),
        call_ensures(set_profile_kind, (two, index, kind_id), ()),
    ensures
        index < old(one)@.len() ==> final(one)@.len() + 1 == old(one)@.len(),
        index >= old(one)@.len() ==> final(one)@ == old(one)@,
        0 <= i < final(one)@.len() ==> final(one)@[i] == old(one)@[if i < index {
            i
        } else {
            i + 1
        }],
        final(two)@.len() == old(two)@.len(),
        0 <= i < old(two)@.len() ==> final(two)@[i].id == old(two)@[i].id && final(two)@[i].label
            == old(two)@[i].label && final(two)@[i].workspace_dir == old(two)@[i].workspace_dir
            && final(two)@[i].kind_id == if i == index {
            kind_id
        } else {
            old(two)@[i].kind_id
        },
{
}

proof fn lemma_profile_at(profiles: Seq<AcpProfile>, id: Seq<char>, from: int)
    requires
        0 <= from <= profiles.len(),
    ensures
        match editors::profile_at(profiles, id, from) {
            Some(at) => from <= at < profiles.len() && profiles[at].id@ == id && forall|k: int|
                from <= k < at ==> (#[trigger] profiles[k]).id@ != id,
            None => forall|k: int| from <= k < profiles.len() ==> (#[trigger] profiles[k]).id@ != id,
        },
    decreases profiles.len() - from,
{
    if from < profiles.len() && profiles[from].id@ != id {
        lemma_profile_at(profiles, id, from + 1);
    }
}

/// A new name or folder is that of the profile with the identifier, the first where several have
/// it, and of no other.
pub proof fn inputs_change_their_profile(
    one: &mut Vec<AcpProfile>,
    two: &mut Vec<AcpProfile>,
    id: &str,
    content: String,
    i: int,
)
    requires
        call_ensures(set_profile_label, (one, id, content), ()),
        call_ensures(set_profile_dir, (two, id, content), ()),
    ensures
        final(one)@.len() == old(one)@.len() && final(two)@.len() == old(two)@.len(),
        0 <= i < old(one)@.len() ==> {
            let own = old(one)@[i].id@ == id@ && forall|k: int|
                0 <= k < i ==> (#[trigger] old(one)@[k]).id@ != id@;
            &&& own ==> final(one)@[i].label == content
            &&& !own ==> final(one)@[i].label == old(one)@[i].label
            &&& final(one)@[i].id == old(one)@[i].id
            &&& final(one)@[i].kind_id == old(one)@[i].kind_id
            &&& final(one)@[i].workspace_dir == old(one)@[i].workspace_dir
        },
        0 <= i < old(two)@.len() ==> {
            let own = old(two)@[i].id@ == id@ && forall|k: int|
                0 <= k < i ==> (#[trigger] old(two)@[k]).id@ != id@;
            &&& own ==> final(two)@[i].workspace_dir == content
            &&& !own ==> final(two)@[i].workspace_dir == old(two)@[i].workspace_dir
            &&& final(two)@[i].id == old(two)@[i].id
            &&& final(two)@[i].kind_id == old(two)@[i].kind_id
            &&& final(two)@[i].label == old(two)@[i].label
        },
{
    lemma_profile_at(old(one)@, id@, 0);
    lemma_profile_at(old(two)@, id@, 0);
}

proof fn lemma_spaces_until(name: Seq<char>, from: int, start: int)
    requires
        0 <= from <= start <= name.len(),
        forall|i: int| from <= i < start ==> text::is_space(#[trigger] name[i]),
        start < name.len() ==> !text::is_space(name[start]),
    ensures
        appearance::spaces_until(name, from) == start,
    decreases start - from,
{
    if from < start {
        assert(text::is_space(name[from]));
        lemma_spaces_until(name, from + 1, start);
    }
}

proof fn lemma_letters_until(name: Seq<char>, from: int, end: int)
    requires
        0 <= from <= end <= name.len(),
        forall|i: int| from <= i < end ==> !text::is_space(#[trigger] name[i]),
        end < name.len() ==> text::is_space(name[end]),
    ensures
        appearance::letters_until(name, from) == end,
    decreases end - from,
{
    if from < end {
        assert(!text::is_space(name[from]));
        lemma_letters_until(name, from + 1, end);
    }
}

/// The default font is named by the first word of its family.
pub proof fn default_fonts_are_named_by_their_first_word(
    names: &Vec<String>,
    default_family: &str,
    r: Vec<(String, String)>,
    before: Seq<char>,
    word: Seq<char>,
    after: Seq<char>,
)
    requires
        call_ensures(font_options, (names, default_family), r),
        default_family@ == before + word + after,
        word.len() > 0,
        forall|i: int| 0 <= i < before.len() ==> text::is_space(#[trigger] before[i]),
        forall|i: int| 0 <= i < word.len() ==> !text::is_space(#[trigger] word[i]),
        after.len() > 0 ==> text::is_space(after[0]),
    ensures
        (r@[0].1)@ == "默认（"@ + word + "）"@,
{
    let name = default_family@;
    let start = before.len() as int;
    let end = start + word.len();
    assert forall|i: int| 0 <= i < start implies text::is_space(#[trigger] name[i]) by {
        assert(name[i] == before[i]);
    }
    assert(name[start] == word[0]);
    assert forall|i: int| start <= i < end implies !text::is_space(#[trigger] name[i]) by {
        assert(name[i] == word[i - start]);
    }
    if end < name.len() {
        assert(name[end] == after[0]);
    }
    lemma_spaces_until(name, 0, start);
    lemma_letters_until(name, start, end);
    assert(name.subrange(start, end) =~= word);
}

/// The controls leave the fonts and the theme alone that are not their own.
pub proof fn controls_leave_the_rest_alone(
    one: &mut Appearance,
    two: &mut Appearance,
    three: &mut Appearance,
    four: &mut Appearance,
    five: &mut Appearance,
    percent: i64,
    size: i64,
    smallest: u32,
    largest: u32,
    name: &str,
    dark: bool,
    path: Option<String>,
)
    requires
        call_ensures(Appearance::set_opacity_percent, (one, percent), ()),
        smallest <= largest,
        call_ensures(Appearance::set_font_px, (two, size, smallest, largest), ()),
        call_ensures(Appearance::set_font_family, (three, name), ()),
        call_ensures(Appearance::set_dark, (four, dark), ()),
        call_ensures(Appearance::set_bg_image, (five, path), ()),
    ensures
        final(one).font_family == old(one).font_family,
        final(two).font_family == old(two).font_family,
        final(three).theme_mode == old(three).theme_mode,
        final(four).font_family == old(four).font_family,
        final(five).font_family == old(five).font_family,
        final(five).bg_image_opacity == old(five).bg_image_opacity,
        final(five).glass_style == old(five).glass_style,
        final(five).ui_font_px == old(five).ui_font_px,
        final(five).ui_font_family == old(five).ui_font_family,
{
}

} // verus!
