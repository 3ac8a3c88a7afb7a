//! One transient indicator: what it shows, where it sits, and when it goes.

use crate::components::app::DisplayMode;
use vstd::prelude::*;

verus! {

/// Whether the touchpad is left to the system or forced off.
#[derive(Clone, Copy, Debug, PartialEq, Eq, Structural)]
pub enum TouchpadOverride {
    Unset,
    ForceDisable,
}

/// What an indicator shows.
#[derive(Clone, Copy, Debug, PartialEq, Eq, Structural)]
pub enum Params {
    /// Display brightness in rungs of a twentieth.
    DisplayBrightness(i32),
    /// Display brightness as the raw level and the largest level.
    DisplayBrightnessExact(i32, i32),
    DisplayToggle(DisplayMode),
    /// The number that identifies a display.
    DisplayNumber(u32),
    /// Keyboard brightness as the raw level and the largest level.
    KeyboardBrightness(i32, i32),
    /// Output volume in percent, and whether output is muted.
    SinkVolume(u32, bool),
    /// Input volume in percent, and whether input is muted.
    SourceVolume(u32, bool),
    AirplaneMode(bool),
    TouchpadEnabled(TouchpadOverride),
}

/// The quantity an indicator's bar stands for.
#[derive(Clone, Copy, Debug, PartialEq, Eq, Structural)]
pub enum Level {
    /// So many percent.
    Percent(u32),
    /// So many rungs of a twentieth; shown in steps of five percent.
    Rung(i32),
    /// A level out of a largest level, shown rounded and never as zero.
    Exact(i32, i32),
    /// A level out of a largest level, shown cut off to whole percents.
    Fraction(i32, i32),
}

/// The icon for a volume: muted at zero or when muted, then low, medium and
/// high in thirds; `over` names the icon beyond a hundred percent.
pub open spec fn volume_band(volume: u32, muted: bool) -> int {
    if volume == 0 || muted {
        0
    } else if volume < 33 {
        1
    } else if volume < 66 {
        2
    } else if volume <= 100 {
        3
    } else {
        4
    }
}

/// The name of the icon that goes with `params`. Display numbers are drawn
/// without an icon.
pub open spec fn icon_of(params: Params) -> Seq<char> {
    match params {
        Params::DisplayBrightness(_) | Params::DisplayBrightnessExact(_, _) => "display-brightness-symbolic"@,
        Params::DisplayToggle(DisplayMode::All) => "laptop-symbolic"@,
        Params::DisplayToggle(DisplayMode::External) => "display-symbolic"@,
        Params::DisplayNumber(_) => Seq::empty(),
        Params::KeyboardBrightness(_, _) => "keyboard-brightness-symbolic"@,
        Params::AirplaneMode(true) => "airplane-mode-symbolic"@,
        Params::AirplaneMode(false) => "airplane-mode-disabled-symbolic"@,
        Params::SinkVolume(volume, muted) => {
            let band = volume_band(volume, muted);
            if band == 0 {
                "audio-volume-muted-symbolic"@
            } else if band == 1 {
                "audio-volume-low-symbolic"@
            } else if band == 2 {
                "audio-volume-medium-symbolic"@
            } else if band == 3 {
                "audio-volume-high-symbolic"@
            } else {
                "audio-volume-overamplified-symbolic"@
            }
        },
        Params::SourceVolume(volume, muted) => {
            let band = volume_band(volume, muted);
            if band == 0 {
                "microphone-sensitivity-muted-symbolic"@
            } else if band == 1 {
                "microphone-sensitivity-low-symbolic"@
            } else if band == 2 {
                "microphone-sensitivity-medium-symbolic"@
            } else {
                "microphone-sensitivity-high-symbolic"@
            }
        },
        Params::TouchpadEnabled(TouchpadOverride::Unset) => "input-touchpad-symbolic"@,
        Params::TouchpadEnabled(TouchpadOverride::ForceDisable) => "touchpad-disabled-symbolic"@,
    }
}

/// What the bar of an indicator stands for; `None` for an indicator that is
/// an icon or a number only. A muted volume shows as zero.
pub open spec fn level_of(params: Params) -> Option<Level> {
    match params {
        Params::DisplayBrightness(rung) => Some(Level::Rung(rung)),
        Params::DisplayBrightnessExact(raw, max) => Some(Level::Exact(raw, max)),
        Params::KeyboardBrightness(raw, max) => Some(Level::Fraction(raw, max)),
        Params::SinkVolume(_, true) => Some(Level::Percent(0)),
        Params::SourceVolume(_, true) => Some(Level::Percent(0)),
        Params::SinkVolume(volume, false) => Some(Level::Percent(volume)),
        Params::SourceVolume(volume, false) => Some(Level::Percent(volume)),
        Params::AirplaneMode(_) => None,
        Params::TouchpadEnabled(_) => None,
        Params::DisplayToggle(_) => None,
        Params::DisplayNumber(_) => None,
    }
}

impl Params {
    /// The name of the icon to show.
    pub fn icon_name(&self) -> (name: &'static str)
        requires
            !(self is DisplayNumber),
        ensures
            name@ == icon_of(*self),
    {
        match self {
            Params::DisplayBrightness(_) | Params::DisplayBrightnessExact(_, _) => "display-brightness-symbolic",
            Params::DisplayToggle(DisplayMode::All) => "laptop-symbolic",
            Params::DisplayToggle(DisplayMode::External) => "display-symbolic",
            Params::DisplayNumber(_) => "",
            Params::KeyboardBrightness(_, _) => "keyboard-brightness-symbolic",
            Params::AirplaneMode(true) => "airplane-mode-symbolic",
            Params::AirplaneMode(false) => "airplane-mode-disabled-symbolic",
            Params::SinkVolume(volume, muted) => {
                if *volume == 0 || *muted {
                    "audio-volume-muted-symbolic"
                } else if *volume < 33 {
                    "audio-volume-low-symbolic"
                } else if *volume < 66 {
                    "audio-volume-medium-symbolic"
                } else if *volume <= 100 {
                    "audio-volume-high-symbolic"
                } else {
                    "audio-volume-overamplified-symbolic"
                }
            },
            Params::SourceVolume(volume, muted) => {
                if *volume == 0 || *muted {
                    "microphone-sensitivity-muted-symbolic"
                } else if *volume < 33 {
                    "microphone-sensitivity-low-symbolic"
                } else if *volume < 66 {
                    "microphone-sensitivity-medium-symbolic"
                } else {
                    "microphone-sensitivity-high-symbolic"
                }
            },
            Params::TouchpadEnabled(TouchpadOverride::Unset) => "input-touchpad-symbolic",
            Params::TouchpadEnabled(TouchpadOverride::ForceDisable) => "touchpad-disabled-symbolic",
        }
    }

    /// What the indicator's bar stands for, if it has a bar.
    pub fn value(&self) -> (level: Option<Level>)
        ensures
            level == level_of(*self),
    {
        match self {
            Params::DisplayBrightness(rung) => Some(Level::Rung(*rung)),
            Params::DisplayBrightnessExact(raw, max) => Some(Level::Exact(*raw, *max)),
            Params::KeyboardBrightness(raw, max) => Some(Level::Fraction(*raw, *max)),
            Params::SinkVolume(_, true) => Some(Level::Percent(0)),
            Params::SourceVolume(_, true) => Some(Level::Percent(0)),
            Params::SinkVolume(volume, false) => Some(Level::Percent(*volume)),
            Params::SourceVolume(volume, false) => Some(Level::Percent(*volume)),
            Params::AirplaneMode(_) => None,
            Params::TouchpadEnabled(_) => None,
            Params::DisplayToggle(_) => None,
            Params::DisplayNumber(_) => None,
        }
    }

    /// Whether this is the number that identifies a display.
    pub fn is_display_number(&self) -> (yes: bool)
        ensures
            yes == (*self is DisplayNumber),
    {
        matches!(self, Params::DisplayNumber(_))
    }
}

/// What reaches an indicator from its timer.
#[derive(Clone, Copy, Debug, PartialEq, Eq, Structural)]
pub enum Msg {
    /// The timer was replaced before it ran out.
    Ignore,
    /// The timer ran out.
    Close,
}

/// The edge of the screen an indicator is anchored to.
#[derive(Clone, Copy, Debug, PartialEq, Eq, Structural)]
pub enum Anchor {
    Top,
    Bottom,
}

/// How the surface of an indicator is to be made.
#[derive(Clone, Copy, Debug, PartialEq, Eq, Structural)]
pub struct SurfaceSettings {
    pub id: u64,
    pub anchor: Anchor,
    /// -1 lets input pass the surface's transparent parts.
    pub exclusive_zone: i32,
    pub margin_top: i32,
    /// Seconds until the indicator closes by itself.
    pub timeout_secs: u64,
}

/// Seconds an indicator stays: a display number one second, all else three.
pub open spec fn timeout_of(params: Params) -> u64 {
    if params is DisplayNumber {
        1
    } else {
        3
    }
}

/// The margins, as top, right, bottom and left, that an indicator starts
/// with: display numbers keep off the top, all else off the bottom.
pub open spec fn margin_of(params: Params) -> (i32, i32, i32, i32) {
    if params is DisplayNumber {
        (48, 0, 0, 0)
    } else {
        (0, 0, 48, 0)
    }
}

/// The surface for an indicator of `params`: display numbers sit at the top,
/// off the edge and out of the way of input; all else sits at the bottom.
pub open spec fn settings_of(id: u64, params: Params) -> SurfaceSettings {
    if params is DisplayNumber {
        SurfaceSettings {
            id,
            anchor: Anchor::Top,
            exclusive_zone: -1i32,
            margin_top: margin_of(params).0,
            timeout_secs: timeout_of(params),
        }
    } else {
        SurfaceSettings {
            id,
            anchor: Anchor::Bottom,
            exclusive_zone: 0,
            margin_top: 0,
            timeout_secs: timeout_of(params),
        }
    }
}

/// One indicator on its surface.
#[derive(Clone, Copy, Debug, PartialEq, Eq)]
pub struct State {
    pub id: u64,
    pub params: Params,
    pub margin: (i32, i32, i32, i32),
    pub amplification_sink: bool,
    pub amplification_source: bool,
}

impl State {
    /// Makes an indicator and says how to make its surface.
    pub fn new(
        id: u64,
        params: Params,
        amplification_sink: bool,
        amplification_source: bool,
    ) -> (made: (State, SurfaceSettings))
        ensures
            made.0 == (State {
                id,
                params,
                margin: margin_of(params),
                amplification_sink,
                amplification_source,
            }),
            made.1 == settings_of(id, params),
    {
        let number = params.is_display_number();
        let settings = if number {
            SurfaceSettings { id, anchor: Anchor::Top, exclusive_zone: -1, margin_top: 48, timeout_secs: 1 }
        } else {
            SurfaceSettings { id, anchor: Anchor::Bottom, exclusive_zone: 0, margin_top: 0, timeout_secs: 3 }
        };
        let margin = if number {
            (48, 0, 0, 0)
        } else {
            (0, 0, 48, 0)
        };
        (State { id, params, margin, amplification_sink, amplification_source }, settings)
    }

    pub fn params(&self) -> (params: &Params)
        ensures
            *params == self.params,
    {
        &self.params
    }

    /// Shows something else on the same surface. The returned number is the
    /// seconds of the fresh timer that replaces the running one.
    pub fn replace_params(&mut self, params: Params) -> (timeout_secs: u64)
        ensures
            *final(self) == (State { params, ..*old(self) }),
            timeout_secs == 3,
    {
        self.params = params;
        3
    }

    /// Keeps a display number up: the seconds of the fresh timer that
    /// replaces the running one. Any other indicator keeps its timer.
    pub fn reset_display_identifier_timer(&self) -> (timeout_secs: Option<u64>)
        ensures
            timeout_secs == (if self.params is DisplayNumber {
                Some(1u64)
            } else {
                None
            }),
    {
        if self.params.is_display_number() {
            Some(1)
        } else {
            None
        }
    }

    /// The top of the bar, in percent: a volume may go to a hundred and
    /// fifty where amplification is allowed for it, all else to a hundred.
    pub fn max_value(&self) -> (max: u32)
        ensures
            max == self.spec_max_value(),
    {
        match self.params {
            Params::SinkVolume(_, _) => if self.amplification_sink {
                150
            } else {
                100
            },
            Params::SourceVolume(_, _) => if self.amplification_source {
                150
            } else {
                100
            },
            _ => 100,
        }
    }

    /// Takes the timer's message: the indicator stays on `Ignore` and goes,
    /// its surface to be destroyed, on `Close`.
    pub fn update(self, msg: Msg) -> (next: (Option<State>, Option<u64>))
        ensures
            msg == Msg::Ignore ==> next == (Some(self), None::<u64>),
            msg == Msg::Close ==> next == (None::<State>, Some(self.id)),
    {
        match msg {
            Msg::Ignore => (Some(self), None),
            Msg::Close => (None, Some(self.id)),
        }
    }
}

/// What an indicator shows.
#[derive(Clone, Copy, Debug, PartialEq, Eq)]
pub enum Shown {
    /// Nothing but the number of a display.
    Number(u32),
    /// An icon alone.
    Icon(&'static str),
    /// An icon, and a bar for a level that goes up to `max`; where `max` is
    /// beyond a hundred the bar has a second part for what lies beyond.
    Bar { icon: &'static str, level: Level, max: u32, amplified: bool },
}

/// `shown` is what the indicator `state` shows.
pub open spec fn shows(state: State, shown: Shown) -> bool {
    match state.params {
        Params::DisplayNumber(number) => shown == Shown::Number(number),
        params => match level_of(params) {
            Some(wanted) => shown matches Shown::Bar { icon, level, max, amplified } && icon@
                == icon_of(params) && level == wanted && max == state.spec_max_value() && amplified
                == (max > 100),
            None => shown matches Shown::Icon(icon) && icon@ == icon_of(params),
        },
    }
}

impl State {
    /// The top of the bar, in percent.
    pub open spec fn spec_max_value(self) -> u32 {
        match self.params {
            Params::SinkVolume(_, _) => if self.amplification_sink {
                150u32
            } else {
                100u32
            },
            Params::SourceVolume(_, _) => if self.amplification_source {
                150u32
            } else {
                100u32
            },
            _ => 100u32,
        }
    }

    /// Says what the indicator shows.
    pub fn shown(&self) -> (shown: Shown)
        ensures
            shows(*self, shown),
    {
        match self.params {
            Params::DisplayNumber(number) => Shown::Number(number),
            params => {
                let icon = params.icon_name();
                match params.value() {
                    Some(level) => {
                        let max = self.max_value();
                        Shown::Bar { icon, level, max, amplified: max > 100 }
                    },
                    None => Shown::Icon(icon),
                }
            },
        }
    }
}

} // verus!
