//! How windows and terminals look.
//!
//! Shares of one, such as opacities, are held in thousandths.

use vstd::prelude::*;

use crate::text;
use crate::text::{chars_of, concat, is_text_before, same_text, trim};

verus! {

pub const DEFAULT_UI_FONT_PX: u32 = 16;

pub const MIN_UI_FONT_PX: u32 = 14;

pub const MAX_UI_FONT_PX: u32 = 26;

/// The size of the font in terminals where none was chosen.
pub const DEFAULT_FONT_PX: u32 = 13;

/// The background of terminals where none was chosen.
pub const DEFAULT_BG_COLOR: u32 = 0x1a1b26;

/// The opacity of the settings windows, in percent. One must be able to read them while one
/// sets the opacity of the others.
pub const SETTINGS_WINDOW_OPACITY_PERCENT: u32 = 100;

/// The font of the system.
pub const SYSTEM_UI_FONT: &'static str = ".SystemUIFont";

/// Whether the theme is dark.
#[derive(Clone, Copy, Debug, PartialEq, Eq, Structural)]
pub enum ThemeMode {
    Light,
    Dark,
}

/// How strong the glass of windows is.
#[derive(Clone, Copy, Debug, PartialEq, Eq, Structural)]
pub enum GlassStyle {
    Regular,
    Clear,
}

/// What the background of a window is made of.
#[derive(Clone, Copy, Debug, PartialEq, Eq, Structural)]
pub enum WindowBackgroundAppearance {
    Blurred,
}

/// How windows and terminals look. An opacity that is no number is missing.
#[derive(Debug, PartialEq, Eq)]
pub struct Appearance {
    pub bg_color: u32,
    pub bg_image: Option<String>,
    pub bg_image_opacity: Option<i64>,
    pub opacity: Option<i64>,
    pub blur: bool,
    pub glass_style: GlassStyle,
    pub theme_mode: ThemeMode,
    pub ui_font_px: u32,
    pub ui_font_family: String,
    pub font_px: u32,
    pub font_family: String,
}

/// A share, brought between two others.
pub open spec fn clamped(value: int, low: int, high: int) -> int {
    if value < low {
        low
    } else if value > high {
        high
    } else {
        value
    }
}

fn clamp(value: i64, low: i64, high: i64) -> (r: i64)
    ensures
        r == clamped(value as int, low as int, high as int),
{
    if value < low {
        low
    } else if value > high {
        high
    } else {
        value
    }
}

impl Default for Appearance {
    fn default() -> (r: Self)
        ensures
            r.bg_color == DEFAULT_BG_COLOR,
            r.bg_image is None,
            r.bg_image_opacity == Some(250i64),
            r.opacity == Some(950i64),
            r.blur,
            r.glass_style is Regular,
            r.theme_mode is Dark,
            r.ui_font_px == DEFAULT_UI_FONT_PX,
            r.ui_font_family@.len() == 0,
            r.font_px == DEFAULT_FONT_PX,
            r.font_family@.len() == 0,
    {
        Appearance {
            bg_color: DEFAULT_BG_COLOR,
            bg_image: None,
            bg_image_opacity: Some(250),
            opacity: Some(950),
            blur: true,
            glass_style: GlassStyle::Regular,
            theme_mode: ThemeMode::Dark,
            ui_font_px: DEFAULT_UI_FONT_PX,
            ui_font_family: String::new(),
            font_px: DEFAULT_FONT_PX,
            font_family: String::new(),
        }
    }
}

impl Appearance {
    /// The opacity of windows. What was stored may be anything; a window can be seen through by
    /// seven tenths at most.
    pub fn window_opacity(&self) -> (r: i64)
        ensures
            r == match self.opacity {
                Some(opacity) => clamped(opacity as int, 300, 1000),
                None => 1000,
            },
            300 <= r <= 1000,
    {
        match self.opacity {
            Some(opacity) => clamp(opacity, 300, 1000),
            None => 1000,
        }
    }

    /// What the background of windows is made of.
    pub fn window_bg(&self) -> (r: WindowBackgroundAppearance)
        ensures
            r is Blurred,
    {
        WindowBackgroundAppearance::Blurred
    }

    /// Whether the background of terminals was never chosen, and follows the theme.
    pub fn bg_color_is_default(&self) -> (r: bool)
        ensures
            r == (self.bg_color == DEFAULT_BG_COLOR),
    {
        self.bg_color == DEFAULT_BG_COLOR
    }

    /// The background of terminals where it does not follow the theme.
    pub fn bg_override(&self) -> (r: Option<u32>)
        ensures
            r == if self.bg_color == DEFAULT_BG_COLOR {
                None
            } else {
                Some(self.bg_color)
            },
    {
        if self.bg_color_is_default() {
            None
        } else {
            Some(self.bg_color)
        }
    }

    /// The name of the picture behind terminals: what stands behind the last slash of its path.
    pub fn bg_image_name(&self) -> (r: String)
        ensures
            r@ == match self.bg_image {
                Some(path) => last_part(path@),
                None => "无"@,
            },
    {
        match &self.bg_image {
            Some(path) => after_last_slash(path.as_str()),
            None => "无".to_owned(),
        }
    }

    /// Sets the opacity from a slider that counts in percent.
    pub fn set_opacity_percent(&mut self, percent: i64)
        ensures
            *final(self) == (Appearance {
                opacity: Some(clamped(percent * 10, 300, 1000) as i64),
                ..*old(self)
            }),
    {
        self.opacity = Some(clamp(percent, 30, 100) * 10);
    }

    /// Sets the size of the font in terminals, between the smallest and the largest one.
    pub fn set_font_px(&mut self, size: i64, smallest: u32, largest: u32)
        requires
            smallest <= largest,
        ensures
            *final(self) == (Appearance {
                font_px: clamped(size as int, smallest as int, largest as int) as u32,
                ..*old(self)
            }),
    {
        self.font_px = clamp(size, smallest as i64, largest as i64) as u32;
    }

    /// Sets the font in terminals. Space around its name does not count.
    pub fn set_font_family(&mut self, name: &str)
        ensures
            *final(self) == (Appearance { font_family: final(self).font_family, ..*old(self) }),
            final(self).font_family@ == text::trimmed(name@),
    {
        self.font_family = trim(name);
    }

    /// Sets whether the theme is dark.
    pub fn set_dark(&mut self, dark: bool)
        ensures
            *final(self) == (Appearance {
                theme_mode: if dark {
                    ThemeMode::Dark
                } else {
                    ThemeMode::Light
                },
                ..*old(self)
            }),
    {
        self.theme_mode = if dark {
            ThemeMode::Dark
        } else {
            ThemeMode::Light
        };
    }

    /// Sets the picture behind terminals, or takes it away.
    pub fn set_bg_image(&mut self, path: Option<String>)
        ensures
            *final(self) == (Appearance { bg_image: path, ..*old(self) }),
    {
        self.bg_image = path;
    }
}

/// What stands behind the last slash of a text.
pub open spec fn last_part(path: Seq<char>) -> Seq<char>
    decreases path.len(),
{
    if path.len() == 0 || path.last() == '/' {
        seq![]
    } else {
        last_part(path.drop_last()).push(path.last())
    }
}

fn after_last_slash(path: &str) -> (r: String)
    ensures
        r@ == last_part(path@),
{
    let all: Vec<char> = chars_of(path);
    let mut start: usize = all.len();
    assert(path@.take(start as int) =~= path@);
    assert(path@.skip(start as int) =~= seq![]);
    assert(last_part(path@) =~= last_part(path@.take(start as int)) + path@.skip(start as int));
    while start > 0 && all[start - 1] != '/'
        invariant
            all@ == path@,
            start <= all.len(),
            last_part(path@) == last_part(path@.take(start as int)) + path@.skip(start as int),
        decreases start,
    {
        proof {
            let front = path@.take(start as int);
            assert(front.drop_last() =~= path@.take(start - 1));
            assert(last_part(front) + path@.skip(start as int) =~= last_part(
                path@.take(start - 1),
            ) + path@.skip(start - 1));
        }
        start = start - 1;
    }
    assert(last_part(path@) =~= path@.skip(start as int));
    assert(path@.subrange(start as int, all@.len() as int) =~= path@.skip(start as int));
    path.substring_char(start, all.len()).to_owned()
}

/// The font of the interface: what was chosen, or that of the system.
pub open spec fn ui_font(family: Seq<char>) -> Seq<char> {
    if text::trimmed(family).len() == 0 {
        SYSTEM_UI_FONT@
    } else {
        text::trimmed(family)
    }
}

/// The font of the interface.
pub fn resolved_ui_font_family(appearance: &Appearance) -> (r: String)
    ensures
        r@ == ui_font(appearance.ui_font_family@),
{
    let name: String = trim(appearance.ui_font_family.as_str());
    if chars_of(name.as_str()).len() == 0 {
        SYSTEM_UI_FONT.to_owned()
    } else {
        name
    }
}

/// The size and the font of the interface, also before anything was loaded.
pub fn theme_fonts(appearance: Option<&Appearance>) -> (r: (u32, String))
    ensures
        match appearance {
            Some(known) => r.0 == known.ui_font_px && r.1@ == ui_font(known.ui_font_family@),
            None => r.0 == DEFAULT_UI_FONT_PX && r.1@ == SYSTEM_UI_FONT@,
        },
{
    match appearance {
        Some(known) => (known.ui_font_px, resolved_ui_font_family(known)),
        None => (DEFAULT_UI_FONT_PX, SYSTEM_UI_FONT.to_owned()),
    }
}

/// A colour out of its parts, as it is stored: red, green and blue, eight bits each.
pub fn packed_color(red: u8, green: u8, blue: u8) -> (r: u32)
    ensures
        r == red * 65536 + green * 256 + blue,
        r <= 0xffffff,
{
    red as u32 * 65536 + green as u32 * 256 + blue as u32
}

/// A slider: its bounds, its step, and where it stands at first, unless that is no number.
#[derive(Clone, Copy, Debug, PartialEq, Eq)]
pub struct SliderSpec {
    pub min: i64,
    pub max: i64,
    pub step: i64,
    pub start: Option<i64>,
}

/// The controls for how windows and terminals look. The slider for the opacity counts in tenths
/// of a percent, and the one for the font in pixels.
#[derive(Clone, Copy, Debug, PartialEq, Eq)]
pub struct AppearanceControls {
    pub opacity: SliderSpec,
    pub font_size: SliderSpec,
    pub background: u32,
}

/// The controls for how windows and terminals look, set to how they look now: the opacity from
/// 60 to 100 percent in steps of 5, the font by pixels from the smallest to the largest one.
pub fn appearance_controls(appearance: &Appearance, smallest: u32, largest: u32) -> (r:
    AppearanceControls)
    ensures
        r.opacity == (SliderSpec { min: 600, max: 1000, step: 50, start: appearance.opacity }),
        r.font_size == (SliderSpec {
            min: smallest as i64,
            max: largest as i64,
            step: 1,
            start: Some(appearance.font_px as i64),
        }),
        r.background == appearance.bg_color,
{
    AppearanceControls {
        opacity: SliderSpec { min: 600, max: 1000, step: 50, start: appearance.opacity },
        font_size: SliderSpec {
            min: smallest as i64,
            max: largest as i64,
            step: 1,
            start: Some(appearance.font_px as i64),
        },
        background: appearance.bg_color,
    }
}

/// The colours that terminals are drawn in.
#[derive(Debug, PartialEq, Eq)]
pub struct TerminalColors {
    pub dark: bool,
    pub background: u32,
    pub foreground: u32,
    pub selection: u32,
    pub palette: Vec<u32>,
    pub search_hit: u32,
    pub search_hit_current: u32,
}

/// The colours of terminals as they are handed to the background service, which answers programs
/// that ask for them.
#[derive(Debug, PartialEq, Eq)]
pub struct TerminalThemeSnapshot {
    pub version: u32,
    pub dark: bool,
    pub background: u32,
    pub foreground: u32,
    pub cursor: u32,
    pub selection: u32,
    pub palette: Vec<u32>,
    pub search_hit: u32,
    pub search_hit_current: u32,
}

/// The colours of terminals as they are handed out. The cursor is a block in the colour of the
/// text; a background that the user chose goes before that of the theme.
pub fn current_terminal_theme(
    version: u32,
    colors: TerminalColors,
    bg_override: Option<u32>,
) -> (r: TerminalThemeSnapshot)
    ensures
        r == (TerminalThemeSnapshot {
            version,
            dark: colors.dark,
            background: match bg_override {
                Some(chosen) => chosen,
                None => colors.background,
            },
            foreground: colors.foreground,
            cursor: colors.foreground,
            selection: colors.selection,
            palette: colors.palette,
            search_hit: colors.search_hit,
            search_hit_current: colors.search_hit_current,
        }),
{
    TerminalThemeSnapshot {
        version,
        dark: colors.dark,
        background: match bg_override {
            Some(chosen) => chosen,
            None => colors.background,
        },
        foreground: colors.foreground,
        cursor: colors.foreground,
        selection: colors.selection,
        palette: colors.palette,
        search_hit: colors.search_hit,
        search_hit_current: colors.search_hit_current,
    }
}

/// How windows and terminals look, as it is stored.
#[derive(Debug, PartialEq, Eq)]
pub struct AppearanceSnapshot {
    pub bg_color: u32,
    pub bg_image: Option<String>,
    pub bg_image_opacity: Option<i64>,
    pub opacity: Option<i64>,
    pub blur: bool,
    pub glass_style: String,
    pub theme_mode: String,
    pub ui_font_px: u32,
    pub ui_font_family: String,
    pub font_px: u32,
    pub font_family: String,
}

/// The name that a kind of glass is stored under.
pub open spec fn glass_name(style: GlassStyle) -> Seq<char> {
    match style {
        GlassStyle::Regular => "regular"@,
        GlassStyle::Clear => "clear"@,
    }
}

/// The kind of glass that is stored under a name. What is unknown is regular.
pub open spec fn glass_named(name: Seq<char>) -> GlassStyle {
    if name == "clear"@ {
        GlassStyle::Clear
    } else {
        GlassStyle::Regular
    }
}

/// The name that a theme is stored under.
pub open spec fn theme_name(mode: ThemeMode) -> Seq<char> {
    match mode {
        ThemeMode::Light => "light"@,
        ThemeMode::Dark => "dark"@,
    }
}

/// The theme that is stored under a name. What is unknown is dark.
pub open spec fn theme_named(name: Seq<char>) -> ThemeMode {
    if name == "light"@ {
        ThemeMode::Light
    } else {
        ThemeMode::Dark
    }
}

/// A snapshot holds an appearance.
pub open spec fn holds(snapshot: AppearanceSnapshot, appearance: Appearance) -> bool {
    &&& snapshot.bg_color == appearance.bg_color
    &&& snapshot.bg_image == appearance.bg_image
    &&& snapshot.bg_image_opacity == appearance.bg_image_opacity
    &&& snapshot.opacity == appearance.opacity
    &&& snapshot.blur == appearance.blur
    &&& snapshot.glass_style@ == glass_name(appearance.glass_style)
    &&& snapshot.theme_mode@ == theme_name(appearance.theme_mode)
    &&& snapshot.ui_font_px == appearance.ui_font_px
    &&& snapshot.ui_font_family == appearance.ui_font_family
    &&& snapshot.font_px == appearance.font_px
    &&& snapshot.font_family == appearance.font_family
}

/// The appearance in a snapshot.
pub open spec fn held(snapshot: AppearanceSnapshot) -> Appearance {
    Appearance {
        bg_color: snapshot.bg_color,
        bg_image: snapshot.bg_image,
        bg_image_opacity: snapshot.bg_image_opacity,
        opacity: snapshot.opacity,
        blur: snapshot.blur,
        glass_style: glass_named(snapshot.glass_style@),
        theme_mode: theme_named(snapshot.theme_mode@),
        ui_font_px: snapshot.ui_font_px,
        ui_font_family: snapshot.ui_font_family,
        font_px: snapshot.font_px,
        font_family: snapshot.font_family,
    }
}

/// An appearance as it is stored.
pub fn snapshot_from_appearance(appearance: &Appearance) -> (r: AppearanceSnapshot)
    ensures
        holds(r, *appearance),
{
    let bg_image: Option<String> = match &appearance.bg_image {
        Some(path) => Some(path.clone()),
        None => None,
    };
    AppearanceSnapshot {
        bg_color: appearance.bg_color,
        bg_image,
        bg_image_opacity: appearance.bg_image_opacity,
        opacity: appearance.opacity,
        blur: appearance.blur,
        glass_style: match appearance.glass_style {
            GlassStyle::Regular => "regular".to_owned(),
            GlassStyle::Clear => "clear".to_owned(),
        },
        theme_mode: match appearance.theme_mode {
            ThemeMode::Light => "light".to_owned(),
            ThemeMode::Dark => "dark".to_owned(),
        },
        ui_font_px: appearance.ui_font_px,
        ui_font_family: appearance.ui_font_family.clone(),
        font_px: appearance.font_px,
        font_family: appearance.font_family.clone(),
    }
}

/// The appearance that is stored.
pub fn appearance_from_snapshot(snapshot: AppearanceSnapshot) -> (r: Appearance)
    ensures
        r == held(snapshot),
{
    let glass_style: GlassStyle = if same_text(snapshot.glass_style.as_str(), "clear") {
        GlassStyle::Clear
    } else {
        GlassStyle::Regular
    };
    let theme_mode: ThemeMode = if same_text(snapshot.theme_mode.as_str(), "light") {
        ThemeMode::Light
    } else {
        ThemeMode::Dark
    };
    Appearance {
        bg_color: snapshot.bg_color,
        bg_image: snapshot.bg_image,
        bg_image_opacity: snapshot.bg_image_opacity,
        opacity: snapshot.opacity,
        blur: snapshot.blur,
        glass_style,
        theme_mode,
        ui_font_px: snapshot.ui_font_px,
        ui_font_family: snapshot.ui_font_family,
        font_px: snapshot.font_px,
        font_family: snapshot.font_family,
    }
}

/// What is read back is what was stored.
pub proof fn stored_appearances_are_read_back(snapshot: AppearanceSnapshot, appearance: Appearance)
    requires
        holds(snapshot, appearance),
    ensures
        held(snapshot) == appearance,
{
    reveal_strlit("regular");
    reveal_strlit("clear");
    reveal_strlit("light");
    reveal_strlit("dark");
    assert("regular"@.len() != "clear"@.len());
    assert("light"@.len() != "dark"@.len());
}

/// The texts are in order, and none is there twice.
pub open spec fn is_strictly_ordered(texts: Seq<Seq<char>>) -> bool {
    forall|i: int, j: int|
        0 <= i < j < texts.len() ==> text::text_before(#[trigger] texts[i], #[trigger] texts[j])
}

/// Puts a text into a list in order, unless it is there.
fn insert_text(list: &mut Vec<String>, text: String)
    requires
        is_strictly_ordered(text::texts(old(list)@)),
    ensures
        is_strictly_ordered(text::texts(final(list)@)),
        forall|t: Seq<char>|
            #[trigger] text::texts(final(list)@).contains(t) <==> text::texts(old(list)@).contains(t)
                || t == text@,
{
    let ghost before = text::texts(list@);
    let mut at: usize = 0;
    while at < list.len() && is_text_before(list[at].as_str(), text.as_str())
        invariant
            at <= list.len(),
            before == text::texts(list@),
            forall|k: int| 0 <= k < at ==> text::text_before(#[trigger] before[k], text@),
        decreases list.len() - at,
    {
        assert(before[at as int] == list@[at as int]@);
        at = at + 1;
    }
    if at < list.len() && same_text(list[at].as_str(), text.as_str()) {
        assert(before[at as int] == text@);
        return;
    }
    list.insert(at, text);
    let ghost after = text::texts(list@);
    proof {
        assert(after =~= before.insert(at as int, text@));
        if at < before.len() {
            text::order_is_total(before[at as int], text@);
        }
        assert forall|k: int| at <= k < before.len() implies text::text_before(
            text@,
            #[trigger] before[k],
        ) by {
            if k > at {
                text::order_is_transitive(text@, before[at as int], before[k]);
            }
        }
        assert forall|i: int, j: int| 0 <= i < j < after.len() implies text::text_before(
            #[trigger] after[i],
            #[trigger] after[j],
        ) by {
            if i < at {
                assert(after[i] == before[i]);
                if j > at {
                    assert(after[j] == before[j - 1]);
                } else if j < at {
                    assert(after[j] == before[j]);
                }
            } else if i == at {
                assert(after[j] == before[j - 1]);
            } else {
                assert(after[i] == before[i - 1]);
                assert(after[j] == before[j - 1]);
            }
        }
        assert forall|t: Seq<char>| #[trigger] after.contains(t) <==> before.contains(t) || t
            == text@ by {
            if after.contains(t) {
                let k = choose|k: int| 0 <= k < after.len() && after[k] == t;
                if k < at {
                    assert(before[k] == t);
                } else if k > at {
                    assert(before[k - 1] == t);
                }
            }
            if before.contains(t) {
                let k = choose|k: int| 0 <= k < before.len() && before[k] == t;
                if k < at {
                    assert(after[k] == t);
                } else {
                    assert(after[k + 1] == t);
                }
            }
            if t == text@ {
                assert(after[at as int] == t);
            }
        }
    }
}

/// The first word of a text, or the text where it has none.
pub open spec fn first_word(name: Seq<char>) -> Seq<char> {
    let start = spaces_until(name, 0);
    if start >= name.len() {
        name
    } else {
        name.subrange(start, letters_until(name, start))
    }
}

/// Where the space that begins at a position ends.
pub open spec fn spaces_until(name: Seq<char>, from: int) -> int
    decreases name.len() - from,
{
    if from < name.len() && text::is_space(name[from]) {
        spaces_until(name, from + 1)
    } else {
        from
    }
}

/// Where the word that begins at a position ends.
pub open spec fn letters_until(name: Seq<char>, from: int) -> int
    decreases name.len() - from,
{
    if from < name.len() && !text::is_space(name[from]) {
        letters_until(name, from + 1)
    } else {
        from
    }
}

fn word_of(name: &str) -> (r: String)
    ensures
        r@ == first_word(name@),
{
    let all: Vec<char> = chars_of(name);
    let mut start: usize = 0;
    while start < all.len() && text::is_space_char(all[start])
        invariant
            all@ == name@,
            start <= all.len(),
            spaces_until(name@, 0) == spaces_until(name@, start as int),
        decreases all.len() - start,
    {
        start = start + 1;
    }
    if start >= all.len() {
        return name.to_owned();
    }
    let mut end: usize = start;
    while end < all.len() && !text::is_space_char(all[end])
        invariant
            all@ == name@,
            start <= end <= all.len(),
            letters_until(name@, start as int) == letters_until(name@, end as int),
        decreases all.len() - end,
    {
        end = end + 1;
    }
    name.substring_char(start, end).to_owned()
}

/// The fonts to choose from: first the default, under no name, then those of the system in
/// order, each once. Each comes with what it is called.
pub fn font_options(names: &Vec<String>, default_family: &str) -> (r: Vec<(String, String)>)
    ensures
        r@.len() >= 1,
        r@[0].0@.len() == 0,
        r@[0].1@ == "默认（"@ + first_word(default_family@) + "）"@,
        forall|i: int| 1 <= i < r@.len() ==> (#[trigger] r@[i]).0@ == r@[i].1@,
        is_strictly_ordered(option_names(r@)),
        forall|t: Seq<char>|
            #[trigger] option_names(r@).contains(t) <==> text::texts(names@).contains(t),
{
    let ghost all = text::texts(names@);
    let mut sorted: Vec<String> = Vec::new();
    let mut i: usize = 0;
    while i < names.len()
        invariant
            all == text::texts(names@),
            i <= names.len(),
            is_strictly_ordered(text::texts(sorted@)),
            forall|t: Seq<char>|
                #[trigger] text::texts(sorted@).contains(t) <==> all.take(i as int).contains(t),
        decreases names.len() - i,
    {
        let ghost before = text::texts(sorted@);
        insert_text(&mut sorted, names[i].clone());
        proof {
            let taken = all.take(i as int);
            let more = all.take(i + 1);
            assert(more =~= taken.push(all[i as int]));
            assert forall|t: Seq<char>| #[trigger] text::texts(sorted@).contains(t)
                <==> more.contains(t) by {
                assert(before.contains(t) <==> taken.contains(t));
                if more.contains(t) {
                    let k = choose|k: int| 0 <= k < more.len() && more[k] == t;
                    if k < i {
                        assert(taken[k] == t);
                    }
                }
                if taken.contains(t) {
                    let k = choose|k: int| 0 <= k < taken.len() && taken[k] == t;
                    assert(more[k] == t);
                }
                if t == all[i as int] {
                    assert(more[i as int] == t);
                }
            }
        }
        i = i + 1;
    }
    assert(all.take(i as int) =~= all);
    let mut label: String = concat("默认（", word_of(default_family).as_str());
    label.append("）");
    let mut out: Vec<(String, String)> = Vec::new();
    out.push((String::new(), label));
    let ghost fonts = text::texts(sorted@);
    i = 0;
    while i < sorted.len()
        invariant
            fonts == text::texts(sorted@),
            i <= sorted.len(),
            out@.len() == i + 1,
            out@[0].0@.len() == 0,
            out@[0].1@ == label@,
            forall|k: int| 1 <= k < out@.len() ==> (#[trigger] out@[k]).0@ == out@[k].1@,
            option_names(out@) == fonts.take(i as int),
        decreases sorted.len() - i,
    {
        let ghost before = out@;
        let name: String = sorted[i].clone();
        out.push((name.clone(), name));
        assert(option_names(out@) =~= option_names(before).push(name@));
        i = i + 1;
        assert(option_names(out@) =~= fonts.take(i as int));
    }
    assert(fonts.take(i as int) =~= fonts);
    out
}

/// The names of the fonts to choose from, without the default.
pub open spec fn option_names(options: Seq<(String, String)>) -> Seq<Seq<char>> {
    options.skip(1).map_values(|option: (String, String)| option.0@)
}

} // verus!
