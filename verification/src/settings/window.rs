//! The settings window: what of its looks has been applied, and the figures it can show.

use vstd::prelude::*;

use crate::settings::appearance;
use crate::settings::appearance::{Appearance, GlassStyle, WindowBackgroundAppearance};

verus! {

/// How often, in milliseconds, the memory in use is measured.
pub const MEMORY_SAMPLE_INTERVAL: u64 = 1000;

/// What of its looks the window has taken on, and what it knows for the figures it can show.
/// Times are in milliseconds.
#[derive(Clone, Copy, Debug, PartialEq, Eq, Structural)]
pub struct SettingsWindow {
    pub applied_window_bg: Option<WindowBackgroundAppearance>,
    pub applied_window_opacity: Option<u32>,
    pub applied_glass_style: Option<GlassStyle>,
    pub applied_ui_font_px: Option<u32>,
    pub debug_hud: bool,
    pub last_frame: Option<u64>,
    pub memory: Option<u64>,
    pub memory_sampled_at: Option<u64>,
}

/// What a window has to take on before it is drawn: the size of its font, its background with the
/// kind of glass, its opacity in percent.
#[derive(Clone, Copy, Debug, PartialEq, Eq)]
pub struct WindowChanges {
    pub ui_font_px: Option<u32>,
    pub background: Option<(WindowBackgroundAppearance, GlassStyle)>,
    pub opacity_percent: Option<u32>,
}

/// What is needed for the figures of a drawing: the time since the one before, where there was
/// one, and whether to measure the memory in use.
#[derive(Clone, Copy, Debug, PartialEq, Eq, Structural)]
pub struct HudStep {
    pub frame_time: Option<u64>,
    pub sample_memory: bool,
}

/// What a window has to take on. What it has taken on already is left alone.
pub open spec fn changes_for(
    window: SettingsWindow,
    ui_font_px: u32,
    glass_style: GlassStyle,
) -> WindowChanges {
    WindowChanges {
        ui_font_px: if window.applied_ui_font_px != Some(ui_font_px) {
            Some(ui_font_px)
        } else {
            None
        },
        background: if window.applied_window_bg != Some(WindowBackgroundAppearance::Blurred)
            || window.applied_glass_style != Some(glass_style) {
            Some((WindowBackgroundAppearance::Blurred, glass_style))
        } else {
            None
        },
        opacity_percent: if window.applied_window_opacity != Some(
            appearance::SETTINGS_WINDOW_OPACITY_PERCENT,
        ) {
            Some(appearance::SETTINGS_WINDOW_OPACITY_PERCENT)
        } else {
            None
        },
    }
}

/// The window once it has taken on an appearance.
pub open spec fn dressed(
    window: SettingsWindow,
    ui_font_px: u32,
    glass_style: GlassStyle,
) -> SettingsWindow {
    SettingsWindow {
        applied_window_bg: Some(WindowBackgroundAppearance::Blurred),
        applied_window_opacity: Some(appearance::SETTINGS_WINDOW_OPACITY_PERCENT),
        applied_glass_style: Some(glass_style),
        applied_ui_font_px: Some(ui_font_px),
        ..window
    }
}

/// How long ago something was. A clock that went back counts as no time.
pub open spec fn since(now: u64, then_at: u64) -> u64 {
    if now > then_at {
        (now - then_at) as u64
    } else {
        0
    }
}

/// What is needed for the figures of a drawing at `now`. Where they are not shown, nothing is.
pub open spec fn hud_step(window: SettingsWindow, now: u64) -> HudStep {
    if !window.debug_hud {
        HudStep { frame_time: None, sample_memory: false }
    } else {
        HudStep {
            frame_time: match window.last_frame {
                Some(last) => Some(since(now, last)),
                None => None,
            },
            sample_memory: match window.memory_sampled_at {
                Some(at) => since(now, at) >= MEMORY_SAMPLE_INTERVAL,
                None => true,
            },
        }
    }
}

fn elapsed(now: u64, then_at: u64) -> (r: u64)
    ensures
        r == since(now, then_at),
{
    if now > then_at {
        now - then_at
    } else {
        0
    }
}

impl SettingsWindow {
    /// A window that has taken nothing on and shows no figures.
    pub fn new() -> (r: Self)
        ensures
            r == (SettingsWindow {
                applied_window_bg: None,
                applied_window_opacity: None,
                applied_glass_style: None,
                applied_ui_font_px: None,
                debug_hud: false,
                last_frame: None,
                memory: None,
                memory_sampled_at: None,
            }),
    {
        SettingsWindow {
            applied_window_bg: None,
            applied_window_opacity: None,
            applied_glass_style: None,
            applied_ui_font_px: None,
            debug_hud: false,
            last_frame: None,
            memory: None,
            memory_sampled_at: None,
        }
    }

    /// What the window has to take on before it is drawn. It counts as taken on.
    pub fn take_on(&mut self, looks: &Appearance) -> (r: WindowChanges)
        ensures
            r == changes_for(*old(self), looks.ui_font_px, looks.glass_style),
            *final(self) == dressed(*old(self), looks.ui_font_px, looks.glass_style),
    {
        let background: WindowBackgroundAppearance = looks.window_bg();
        let opacity: u32 = appearance::SETTINGS_WINDOW_OPACITY_PERCENT;
        let font_is_old: bool = match self.applied_ui_font_px {
            Some(size) => size != looks.ui_font_px,
            None => true,
        };
        let background_is_old: bool = match (self.applied_window_bg, self.applied_glass_style) {
            (Some(shown), Some(style)) => shown != background || style != looks.glass_style,
            _ => true,
        };
        let opacity_is_old: bool = match self.applied_window_opacity {
            Some(percent) => percent != opacity,
            None => true,
        };
        self.applied_ui_font_px = Some(looks.ui_font_px);
        self.applied_window_bg = Some(background);
        self.applied_glass_style = Some(looks.glass_style);
        self.applied_window_opacity = Some(opacity);
        WindowChanges {
            ui_font_px: if font_is_old {
                Some(looks.ui_font_px)
            } else {
                None
            },
            background: if background_is_old {
                Some((background, looks.glass_style))
            } else {
                None
            },
            opacity_percent: if opacity_is_old {
                Some(opacity)
            } else {
                None
            },
        }
    }

    /// Shows the figures, or hides them. They start anew.
    pub fn toggle_debug_hud(&mut self)
        ensures
            *final(self) == (SettingsWindow {
                debug_hud: !old(self).debug_hud,
                last_frame: None,
                memory: None,
                memory_sampled_at: None,
                ..*old(self)
            }),
    {
        self.debug_hud = !self.debug_hud;
        self.last_frame = None;
        self.memory = None;
        self.memory_sampled_at = None;
    }

    /// Takes in that the window is drawn at `now`. Says what is needed for the figures.
    pub fn update_debug_hud(&mut self, now: u64) -> (r: HudStep)
        ensures
            r == hud_step(*old(self), now),
            *final(self) == if old(self).debug_hud {
                SettingsWindow {
                    last_frame: Some(now),
                    memory_sampled_at: if r.sample_memory {
                        Some(now)
                    } else {
                        old(self).memory_sampled_at
                    },
                    ..*old(self)
                }
            } else {
                SettingsWindow {
                    last_frame: None,
                    memory: None,
                    memory_sampled_at: None,
                    ..*old(self)
                }
            },
    {
        if !self.debug_hud {
            self.last_frame = None;
            self.memory = None;
            self.memory_sampled_at = None;
            return HudStep { frame_time: None, sample_memory: false };
        }
        let frame_time: Option<u64> = match self.last_frame {
            Some(last) => Some(elapsed(now, last)),
            None => None,
        };
        self.last_frame = Some(now);
        let sample_memory: bool = match self.memory_sampled_at {
            Some(at) => elapsed(now, at) >= MEMORY_SAMPLE_INTERVAL,
            None => true,
        };
        if sample_memory {
            self.memory_sampled_at = Some(now);
        }
        HudStep { frame_time, sample_memory }
    }

    /// Takes in how much memory was in use, where it could be measured.
    pub fn memory_sampled(&mut self, memory: Option<u64>)
        ensures
            *final(self) == (SettingsWindow { memory, ..*old(self) }),
    {
        self.memory = memory;
    }
}

/// A window that has taken an appearance on has nothing more to take on until it changes.
pub proof fn nothing_is_applied_twice(
    window: SettingsWindow,
    ui_font_px: u32,
    glass_style: GlassStyle,
)
    ensures
        changes_for(dressed(window, ui_font_px, glass_style), ui_font_px, glass_style) == (
        WindowChanges { ui_font_px: None, background: None, opacity_percent: None }),
{
}

} // verus!
