//! The daemon's own state: what it was asked to do and is waiting to have
//! confirmed, and what it last heard of each thing it shows an indicator for.

use crate::components::osd_indicator;
use crate::components::osd_indicator::{Params, SurfaceSettings, TouchpadOverride};
use crate::components::dialogs::{
    after_message, consistent, has_cookie, has_id, id_of_cookie, Dialogs,
};
use crate::components::identifiers::{numbering, sweep, Identifiers};
use crate::components::polkit_dialog;
use crate::components::polkit_dialog::{
    initial, law_no_dialog_without_responder, run, step, Denial, Effect, EffectView, Verdict,
};
use crate::subscriptions::{dbus, polkit_agent, pulse, settings_daemon};
use vstd::prelude::*;

verus! {

/// Seconds a confirmation waits before it goes ahead by itself.
pub const COUNTDOWN_LENGTH: u8 = 60;

/// What the daemon can be asked to do.
#[derive(Clone, Debug, PartialEq, Eq)]
pub enum OsdTask {
    Display,
    IdentifyDisplays,
    DismissDisplayIdentifiers,
    LogOut,
    Restart,
    Shutdown,
    Touchpad,
    EnterBios,
    ConfirmHeadphones {
        card_name: String,
        headphone_profile: String,
        headset_profile: String,
        headset_port_name: String,
        selected_headset: bool,
    },
}

/// The command line: at most one task.
#[derive(Clone, Debug, PartialEq, Eq)]
pub struct Args {
    pub subcommand: Option<OsdTask>,
}

impl Args {
    /// The task given on the command line, if any.
    pub fn action(&self) -> (task: Option<&OsdTask>)
        ensures
            task == (match self.subcommand {
                Some(t) => Some(&t),
                None => None,
            }),
    {
        self.subcommand.as_ref()
    }
}

/// Which displays are on after a display toggle.
#[derive(Clone, Copy, Debug, PartialEq, Eq, Structural)]
pub enum DisplayMode {
    All,
    External,
}

/// What the caller is to do after a message has been taken.
#[derive(Clone, Debug, PartialEq, Eq)]
pub enum Command {
    /// Make the surface of an indicator and start its timer.
    GetLayerSurface(SurfaceSettings),
    /// Make the surface of a display number on the output with this handle,
    /// or on the active output, and start its timer.
    GetIdentifierSurface(SurfaceSettings, Option<u64>),
    /// Make a surface that takes the keyboard: for a confirmation, or for
    /// the dialog of a request whose helper runs.
    GetDialogSurface(u64),
    DestroyLayerSurface(u64),
    /// Replace the running timer of a surface by one of so many seconds.
    RestartTimer(u64, u64),
    /// Forget what overlaps the indicator.
    ClearOverlap,
    /// Carry the task out.
    Perform(OsdTask),
    /// List the displays, then report them for numbering.
    IdentifyDisplays,
    PlayVolumeSound,
    /// Ask for an activation token on behalf of a surface.
    RequestToken(u64),
    /// Open the sound settings, with the token if there is one.
    SpawnSoundSettings(Option<String>),
    ToggleTouchpad,
    ToggleDisplays,
    /// Start the helper of the request entered under this surface number.
    StartHelper(u64),
    /// Write an answer to the helper of the dialog on a surface.
    Respond(u64, String),
    /// Put the keyboard focus on the input of the dialog on a surface.
    Focus(u64),
    /// End the helper of a request, answer the request, and destroy its
    /// surface if the dialog was opened.
    Finish(u64, Verdict),
    /// Answer the request of this cookie at once; it gets no dialog.
    Reject(String, Denial),
}

/// The first value heard is only remembered; a later one that differs is
/// remembered and shown.
pub open spec fn is_news<T>(known: Option<T>, value: T) -> bool {
    known is Some && known != Some(value)
}

/// What the daemon knows and shows, but for the authentication dialogs.
#[derive(Debug)]
pub struct Osd {
    pub next_id: u64,
    pub indicator: Option<osd_indicator::State>,
    pub amplification_sink: bool,
    pub amplification_source: bool,
    pub max_display_brightness: Option<i32>,
    pub display_brightness: Option<i32>,
    pub max_keyboard_brightness: Option<i32>,
    pub keyboard_brightness: Option<i32>,
    /// When the volume sound was last played, in milliseconds.
    pub sink_last_playback: u64,
    pub sink_mute: Option<bool>,
    pub sink_volume: Option<u32>,
    pub source_mute: Option<bool>,
    pub source_volume: Option<u32>,
    pub airplane_mode: Option<bool>,
    pub action_to_confirm: Option<(u64, OsdTask, u8)>,
}

/// The indicator shown after `params` was asked for: the one on screen
/// takes the new content, or a fresh one is made.
pub open spec fn indicator_after(osd: Osd, params: Params) -> Osd {
    match osd.indicator {
        Some(shown) => Osd {
            indicator: Some(osd_indicator::State { params, ..shown }),
            ..osd
        },
        None => if osd.next_id < u64::MAX {
            Osd {
                next_id: (osd.next_id + 1) as u64,
                indicator: Some(
                    osd_indicator::State {
                        id: osd.next_id,
                        params,
                        margin: osd_indicator::margin_of(params),
                        amplification_sink: osd.amplification_sink,
                        amplification_source: osd.amplification_source,
                    },
                ),
                ..osd
            }
        } else {
            osd
        },
    }
}

/// What showing `params` asks of the caller: a fresh timer for the
/// indicator on screen, or a surface for a new one.
pub open spec fn indicator_commands(osd: Osd, params: Params) -> Seq<Command> {
    match osd.indicator {
        Some(shown) => seq![Command::RestartTimer(shown.id, 3)],
        None => if osd.next_id < u64::MAX {
            seq![
                Command::ClearOverlap,
                Command::GetLayerSurface(osd_indicator::settings_of(osd.next_id, params)),
            ]
        } else {
            Seq::empty()
        },
    }
}

/// A fresh indicator replaces whatever is on screen.
pub open spec fn fresh_indicator(osd: Osd, params: Params) -> (Osd, Seq<Command>) {
    if osd.next_id < u64::MAX {
        (
            Osd {
                next_id: (osd.next_id + 1) as u64,
                indicator: Some(
                    osd_indicator::State {
                        id: osd.next_id,
                        params,
                        margin: osd_indicator::margin_of(params),
                        amplification_sink: osd.amplification_sink,
                        amplification_source: osd.amplification_source,
                    },
                ),
                ..osd
            },
            seq![Command::GetLayerSurface(osd_indicator::settings_of(osd.next_id, params))],
        )
    } else {
        (osd, Seq::empty())
    }
}

/// Shows `params` if `news`, else nothing.
pub open spec fn shown_if(news: bool, osd: Osd, params: Params) -> (Osd, Seq<Command>) {
    if news {
        (indicator_after(osd, params), indicator_commands(osd, params))
    } else {
        (osd, Seq::empty())
    }
}

/// One more than `level`, as long as that can be held.
pub open spec fn rung_above(level: i32) -> i32 {
    if level < i32::MAX {
        (level + 1) as i32
    } else {
        level
    }
}

/// How a display brightness is shown: in rungs where the display has
/// twenty levels or fewer, exactly otherwise.
pub open spec fn brightness_params(level: i32, max: i32) -> Params {
    if max <= 20 {
        Params::DisplayBrightness(rung_above(level))
    } else {
        Params::DisplayBrightnessExact(level, max)
    }
}

pub open spec fn display_brightness_next(osd: Osd, level: i32) -> (Osd, Seq<Command>) {
    let heard = Osd { display_brightness: Some(level), ..osd };
    match osd.max_display_brightness {
        Some(max) => shown_if(
            is_news(osd.display_brightness, level),
            heard,
            brightness_params(level, max),
        ),
        None => (heard, Seq::empty()),
    }
}

pub open spec fn keyboard_brightness_next(osd: Osd, level: i32) -> (Osd, Seq<Command>) {
    let heard = Osd { keyboard_brightness: Some(level), ..osd };
    match osd.max_keyboard_brightness {
        Some(max) => shown_if(
            is_news(osd.keyboard_brightness, level),
            heard,
            Params::KeyboardBrightness(level, max),
        ),
        None => (heard, Seq::empty()),
    }
}

pub open spec fn sink_mute_next(osd: Osd, mute: bool) -> (Osd, Seq<Command>) {
    let heard = Osd { sink_mute: Some(mute), ..osd };
    match osd.sink_volume {
        Some(volume) => shown_if(is_news(osd.sink_mute, mute), heard, Params::SinkVolume(volume, mute)),
        None => (heard, Seq::empty()),
    }
}

pub open spec fn source_mute_next(osd: Osd, mute: bool) -> (Osd, Seq<Command>) {
    let heard = Osd { source_mute: Some(mute), ..osd };
    match osd.source_volume {
        Some(volume) => shown_if(
            is_news(osd.source_mute, mute),
            heard,
            Params::SourceVolume(volume, mute),
        ),
        None => (heard, Seq::empty()),
    }
}

pub open spec fn source_volume_next(osd: Osd, volume: u32) -> (Osd, Seq<Command>) {
    let heard = Osd { source_volume: Some(volume), ..osd };
    match osd.source_mute {
        Some(mute) => shown_if(
            is_news(osd.source_volume, volume),
            heard,
            Params::SourceVolume(volume, mute),
        ),
        None => (heard, Seq::empty()),
    }
}

/// Whether the volume sound is due at `now`: more than an eighth of a
/// second after it was last played.
pub open spec fn sound_due(last: u64, now: u64) -> bool {
    now > last && now - last > 125
}

/// An output volume is played if the sound is due, and shown if it is news.
pub open spec fn sink_volume_next(osd: Osd, volume: u32, now: u64) -> (Osd, Seq<Command>) {
    let due = sound_due(osd.sink_last_playback, now);
    let heard = Osd {
        sink_volume: Some(volume),
        sink_last_playback: if due {
            now
        } else {
            osd.sink_last_playback
        },
        ..osd
    };
    let sound = if due {
        seq![Command::PlayVolumeSound]
    } else {
        Seq::empty()
    };
    match osd.sink_mute {
        Some(mute) => {
            let shown = shown_if(is_news(osd.sink_volume, volume), heard, Params::SinkVolume(volume, mute));
            (shown.0, sound + shown.1)
        },
        None => (heard, sound),
    }
}

pub open spec fn airplane_mode_next(osd: Osd, on: bool) -> (Osd, Seq<Command>) {
    shown_if(
        is_news(osd.airplane_mode, on),
        Osd { airplane_mode: Some(on), ..osd },
        Params::AirplaneMode(on),
    )
}

/// The indicator takes its timer's message: it stays, or it goes and its
/// surface with it.
pub open spec fn indicator_msg_next(osd: Osd, msg: osd_indicator::Msg) -> (Osd, Seq<Command>) {
    match (osd.indicator, msg) {
        (Some(shown), osd_indicator::Msg::Close) => (
            Osd { indicator: None, ..osd },
            seq![Command::DestroyLayerSurface(shown.id)],
        ),
        _ => (osd, Seq::empty()),
    }
}

/// Nothing heard, nothing shown, nothing waiting.
pub open spec fn initial_osd(amplification_sink: bool, amplification_source: bool, now: u64) -> Osd {
    Osd {
        next_id: 1,
        indicator: None,
        amplification_sink,
        amplification_source,
        max_display_brightness: None,
        display_brightness: None,
        max_keyboard_brightness: None,
        keyboard_brightness: None,
        sink_last_playback: now,
        sink_mute: None,
        sink_volume: None,
        source_mute: None,
        source_volume: None,
        airplane_mode: None,
        action_to_confirm: None,
    }
}

impl Osd {
    /// Nothing heard, nothing shown.
    pub fn new(amplification_sink: bool, amplification_source: bool, now: u64) -> (osd: Osd)
        ensures
            osd == initial_osd(amplification_sink, amplification_source, now),
    {
        Osd {
            next_id: 1,
            indicator: None,
            amplification_sink,
            amplification_source,
            max_display_brightness: None,
            display_brightness: None,
            max_keyboard_brightness: None,
            keyboard_brightness: None,
            sink_last_playback: now,
            sink_mute: None,
            sink_volume: None,
            source_mute: None,
            source_volume: None,
            airplane_mode: None,
            action_to_confirm: None,
        }
    }

    /// A surface number not given out before, unless they have run out.
    pub fn fresh_id(&mut self) -> (id: Option<u64>)
        ensures
            old(self).next_id < u64::MAX ==> id == Some(old(self).next_id) && *final(self) == (Osd {
                next_id: (old(self).next_id + 1) as u64,
                ..*old(self)
            }),
            old(self).next_id == u64::MAX ==> id.is_none() && *final(self) == *old(self),
    {
        if self.next_id < u64::MAX {
            let id = self.next_id;
            self.next_id = id + 1;
            Some(id)
        } else {
            None
        }
    }

    /// Shows `params`: on the indicator on screen if there is one, whose
    /// timer starts anew, else on a fresh one.
    pub fn create_indicator(&mut self, params: Params) -> (commands: Vec<Command>)
        ensures
            *final(self) == indicator_after(*old(self), params),
            commands@ == indicator_commands(*old(self), params),
    {
        let mut commands: Vec<Command> = Vec::new();
        match self.indicator {
            Some(mut shown) => {
                let secs = shown.replace_params(params);
                commands.push(Command::RestartTimer(shown.id, secs));
                self.indicator = Some(shown);
            },
            None => {
                match self.fresh_id() {
                    Some(id) => {
                        let (state, settings) = osd_indicator::State::new(
                            id,
                            params,
                            self.amplification_sink,
                            self.amplification_source,
                        );
                        self.indicator = Some(state);
                        commands.push(Command::ClearOverlap);
                        commands.push(Command::GetLayerSurface(settings));
                    },
                    None => {},
                }
            },
        }
        assert(commands@ =~= indicator_commands(*old(self), params));
        commands
    }

    /// Shows `params` on a fresh indicator, whatever is on screen.
    pub fn replace_indicator(&mut self, params: Params) -> (commands: Vec<Command>)
        ensures
            (*final(self), commands@) == fresh_indicator(*old(self), params),
    {
        let mut commands: Vec<Command> = Vec::new();
        match self.fresh_id() {
            Some(id) => {
                let (state, settings) = osd_indicator::State::new(
                    id,
                    params,
                    self.amplification_sink,
                    self.amplification_source,
                );
                self.indicator = Some(state);
                commands.push(Command::GetLayerSurface(settings));
            },
            None => {},
        }
        assert(commands@ =~= fresh_indicator(*old(self), params).1);
        commands
    }

    fn show_if(&mut self, news: bool, params: Params) -> (commands: Vec<Command>)
        ensures
            (*final(self), commands@) == shown_if(news, *old(self), params),
    {
        if news {
            self.create_indicator(params)
        } else {
            Vec::new()
        }
    }

    pub fn display_brightness(&mut self, level: i32) -> (commands: Vec<Command>)
        ensures
            (*final(self), commands@) == display_brightness_next(*old(self), level),
    {
        let news = match self.display_brightness {
            Some(known) => known != level,
            None => false,
        };
        self.display_brightness = Some(level);
        match self.max_display_brightness {
            Some(max) => {
                let params = if max <= 20 {
                    Params::DisplayBrightness(if level < i32::MAX {
                        level + 1
                    } else {
                        level
                    })
                } else {
                    Params::DisplayBrightnessExact(level, max)
                };
                self.show_if(news, params)
            },
            None => Vec::new(),
        }
    }

    pub fn keyboard_brightness(&mut self, level: i32) -> (commands: Vec<Command>)
        ensures
            (*final(self), commands@) == keyboard_brightness_next(*old(self), level),
    {
        let news = match self.keyboard_brightness {
            Some(known) => known != level,
            None => false,
        };
        self.keyboard_brightness = Some(level);
        match self.max_keyboard_brightness {
            Some(max) => self.show_if(news, Params::KeyboardBrightness(level, max)),
            None => Vec::new(),
        }
    }

    pub fn sink_mute(&mut self, mute: bool) -> (commands: Vec<Command>)
        ensures
            (*final(self), commands@) == sink_mute_next(*old(self), mute),
    {
        let news = match self.sink_mute {
            Some(known) => known != mute,
            None => false,
        };
        self.sink_mute = Some(mute);
        match self.sink_volume {
            Some(volume) => self.show_if(news, Params::SinkVolume(volume, mute)),
            None => Vec::new(),
        }
    }

    pub fn source_mute(&mut self, mute: bool) -> (commands: Vec<Command>)
        ensures
            (*final(self), commands@) == source_mute_next(*old(self), mute),
    {
        let news = match self.source_mute {
            Some(known) => known != mute,
            None => false,
        };
        self.source_mute = Some(mute);
        match self.source_volume {
            Some(volume) => self.show_if(news, Params::SourceVolume(volume, mute)),
            None => Vec::new(),
        }
    }

    pub fn source_volume(&mut self, volume: u32) -> (commands: Vec<Command>)
        ensures
            (*final(self), commands@) == source_volume_next(*old(self), volume),
    {
        let news = match self.source_volume {
            Some(known) => known != volume,
            None => false,
        };
        self.source_volume = Some(volume);
        match self.source_mute {
            Some(mute) => self.show_if(news, Params::SourceVolume(volume, mute)),
            None => Vec::new(),
        }
    }

    pub fn sink_volume(&mut self, volume: u32, now: u64) -> (commands: Vec<Command>)
        ensures
            (*final(self), commands@) == sink_volume_next(*old(self), volume, now),
    {
        let mut commands: Vec<Command> = Vec::new();
        if now > self.sink_last_playback && now - self.sink_last_playback > 125 {
            self.sink_last_playback = now;
            commands.push(Command::PlayVolumeSound);
        }
        let news = match self.sink_volume {
            Some(known) => known != volume,
            None => false,
        };
        self.sink_volume = Some(volume);
        match self.sink_mute {
            Some(mute) => {
                let ghost sound = commands@;
                let mut shown = self.show_if(news, Params::SinkVolume(volume, mute));
                let ghost shown_seq = shown@;
                commands.append(&mut shown);
                assert(commands@ =~= sound + shown_seq);
            },
            None => {},
        }
        commands
    }

    pub fn airplane_mode(&mut self, on: bool) -> (commands: Vec<Command>)
        ensures
            (*final(self), commands@) == airplane_mode_next(*old(self), on),
    {
        let news = match self.airplane_mode {
            Some(known) => known != on,
            None => false,
        };
        self.airplane_mode = Some(on);
        self.show_if(news, Params::AirplaneMode(on))
    }

    pub fn indicator_msg(&mut self, msg: osd_indicator::Msg) -> (commands: Vec<Command>)
        ensures
            (*final(self), commands@) == indicator_msg_next(*old(self), msg),
    {
        let mut commands: Vec<Command> = Vec::new();
        match self.indicator {
            Some(shown) => {
                let (next, closed) = shown.update(msg);
                self.indicator = next;
                match closed {
                    Some(id) => {
                        commands.push(Command::DestroyLayerSurface(id));
                    },
                    None => {},
                }
            },
            None => {},
        }
        assert(commands@ =~= indicator_msg_next(*old(self), msg).1);
        commands
    }
}

/// The task with the choice between headphones and headset set to
/// `selected`; any other task is as it was.
pub open spec fn with_headset(task: OsdTask, selected: bool) -> OsdTask {
    match task {
        OsdTask::ConfirmHeadphones {
            card_name,
            headphone_profile,
            headset_profile,
            headset_port_name,
            selected_headset,
        } => OsdTask::ConfirmHeadphones {
            card_name,
            headphone_profile,
            headset_profile,
            headset_port_name,
            selected_headset: selected,
        },
        other => other,
    }
}

/// A task is put up for confirmation on a fresh surface, with the full
/// countdown ahead of it.
pub open spec fn ask_next(osd: Osd, task: OsdTask) -> (Osd, Seq<Command>) {
    if osd.next_id < u64::MAX {
        (
            Osd {
                next_id: (osd.next_id + 1) as u64,
                action_to_confirm: Some((osd.next_id, task, COUNTDOWN_LENGTH)),
                ..osd
            },
            seq![Command::GetDialogSurface(osd.next_id)],
        )
    } else {
        (osd, Seq::empty())
    }
}

/// A task that needs confirming: a restart asked for while a shutdown
/// waits goes ahead at once; any other is put up for confirmation.
pub open spec fn action_next(osd: Osd, task: OsdTask) -> (Osd, Seq<Command>) {
    if task is Restart && (osd.action_to_confirm matches Some((_, pending, _)) && pending is Shutdown) {
        (osd, seq![Command::Perform(task)])
    } else {
        ask_next(osd, task)
    }
}

/// A task named on activation takes the place of one that waits, on the
/// same surface and with the countdown started over; else it is put up.
pub open spec fn activate_next(osd: Osd, task: OsdTask) -> (Osd, Seq<Command>) {
    match osd.action_to_confirm {
        Some((id, _, _)) => (
            Osd { action_to_confirm: Some((id, task, COUNTDOWN_LENGTH)), ..osd },
            Seq::empty(),
        ),
        None => ask_next(osd, task),
    }
}

/// The waiting task is confirmed: its surface goes and it is carried out.
pub open spec fn confirm_next(osd: Osd) -> (Osd, Seq<Command>) {
    match osd.action_to_confirm {
        Some((id, task, _)) => (
            Osd { action_to_confirm: None, ..osd },
            seq![Command::DestroyLayerSurface(id), Command::Perform(task)],
        ),
        None => (osd, Seq::empty()),
    }
}

/// The waiting task is dropped and its surface goes.
pub open spec fn cancel_next(osd: Osd) -> (Osd, Seq<Command>) {
    match osd.action_to_confirm {
        Some((id, _, _)) => (
            Osd { action_to_confirm: None, ..osd },
            seq![Command::DestroyLayerSurface(id)],
        ),
        None => (osd, Seq::empty()),
    }
}

/// One second passes: the countdown goes down by one, and at its end the
/// waiting task counts as confirmed.
pub open spec fn countdown_next(osd: Osd) -> (Osd, Seq<Command>) {
    match osd.action_to_confirm {
        Some((id, task, left)) => if left <= 1 {
            confirm_next(osd)
        } else {
            (Osd { action_to_confirm: Some((id, task, (left - 1) as u8)), ..osd }, Seq::empty())
        },
        None => (osd, Seq::empty()),
    }
}

pub open spec fn headphones_next(osd: Osd, selected: bool) -> Osd {
    match osd.action_to_confirm {
        Some((id, task, left)) => Osd {
            action_to_confirm: Some((id, with_headset(task, selected), left)),
            ..osd
        },
        None => osd,
    }
}

pub open spec fn sound_settings_commands(osd: Osd) -> Seq<Command> {
    match osd.action_to_confirm {
        Some((id, _, _)) => seq![Command::RequestToken(id)],
        None => Seq::empty(),
    }
}

impl Osd {
    fn ask(&mut self, task: OsdTask) -> (commands: Vec<Command>)
        ensures
            (*final(self), commands@) == ask_next(*old(self), task),
    {
        let mut commands: Vec<Command> = Vec::new();
        match self.fresh_id() {
            Some(id) => {
                self.action_to_confirm = Some((id, task, COUNTDOWN_LENGTH));
                commands.push(Command::GetDialogSurface(id));
            },
            None => {},
        }
        assert(commands@ =~= ask_next(*old(self), task).1);
        commands
    }

    /// Takes a task that needs confirming.
    pub fn action(&mut self, task: OsdTask) -> (commands: Vec<Command>)
        ensures
            (*final(self), commands@) == action_next(*old(self), task),
    {
        let shutdown_waits = match &self.action_to_confirm {
            Some((_, OsdTask::Shutdown, _)) => true,
            _ => false,
        };
        if matches!(task, OsdTask::Restart) && shutdown_waits {
            let mut commands: Vec<Command> = Vec::new();
            commands.push(Command::Perform(task));
            assert(commands@ =~= seq![Command::Perform(task)]);
            commands
        } else {
            self.ask(task)
        }
    }

    /// Takes a task named on activation.
    pub fn activate(&mut self, task: OsdTask) -> (commands: Vec<Command>)
        ensures
            (*final(self), commands@) == activate_next(*old(self), task),
    {
        match self.action_to_confirm.take() {
            Some((id, _, _)) => {
                self.action_to_confirm = Some((id, task, COUNTDOWN_LENGTH));
                Vec::new()
            },
            None => self.ask(task),
        }
    }

    pub fn confirm(&mut self) -> (commands: Vec<Command>)
        ensures
            (*final(self), commands@) == confirm_next(*old(self)),
    {
        let mut commands: Vec<Command> = Vec::new();
        match self.action_to_confirm.take() {
            Some((id, task, _)) => {
                commands.push(Command::DestroyLayerSurface(id));
                commands.push(Command::Perform(task));
            },
            None => {},
        }
        assert(commands@ =~= confirm_next(*old(self)).1);
        commands
    }

    pub fn cancel(&mut self) -> (commands: Vec<Command>)
        ensures
            (*final(self), commands@) == cancel_next(*old(self)),
    {
        let mut commands: Vec<Command> = Vec::new();
        match self.action_to_confirm.take() {
            Some((id, _, _)) => {
                commands.push(Command::DestroyLayerSurface(id));
            },
            None => {},
        }
        assert(commands@ =~= cancel_next(*old(self)).1);
        commands
    }

    pub fn countdown(&mut self) -> (commands: Vec<Command>)
        ensures
            (*final(self), commands@) == countdown_next(*old(self)),
    {
        match self.action_to_confirm.take() {
            Some((id, task, left)) => {
                if left <= 1 {
                    self.action_to_confirm = Some((id, task, left));
                    self.confirm()
                } else {
                    self.action_to_confirm = Some((id, task, left - 1));
                    Vec::new()
                }
            },
            None => Vec::new(),
        }
    }

    /// Records the choice between headphones and headset on the waiting
    /// task, if it is that question which waits.
    pub fn headphones(&mut self, selected: bool)
        ensures
            *final(self) == headphones_next(*old(self), selected),
    {
        match self.action_to_confirm.take() {
            Some((id, task, left)) => {
                let task = match task {
                    OsdTask::ConfirmHeadphones {
                        card_name,
                        headphone_profile,
                        headset_profile,
                        headset_port_name,
                        selected_headset: _,
                    } => OsdTask::ConfirmHeadphones {
                        card_name,
                        headphone_profile,
                        headset_profile,
                        headset_port_name,
                        selected_headset: selected,
                    },
                    other => other,
                };
                self.action_to_confirm = Some((id, task, left));
            },
            None => {},
        }
    }

    /// The sound settings were asked for from the waiting question.
    pub fn sound_settings(&self) -> (commands: Vec<Command>)
        ensures
            commands@ == sound_settings_commands(*self),
    {
        let mut commands: Vec<Command> = Vec::new();
        match &self.action_to_confirm {
            Some((id, _, _)) => {
                commands.push(Command::RequestToken(*id));
            },
            None => {},
        }
        assert(commands@ =~= sound_settings_commands(*self));
        commands
    }
}

/// While a task waits, its countdown is never at zero after a tick, and a
/// task put up waits exactly the full countdown of ticks before it is
/// carried out by itself.
pub proof fn law_countdown_runs_down(osd: Osd)
    requires
        osd.action_to_confirm matches Some((_, _, left)) && left >= 1,
    ensures
        countdown_next(osd).0.action_to_confirm matches Some((id, task, left)) ==> left >= 1
            && osd.action_to_confirm == Some((id, task, (left + 1) as u8)),
        countdown_next(osd).0.action_to_confirm is None <==> (osd.action_to_confirm matches Some(
            (_, _, left),
        ) && left == 1),
        countdown_next(osd).0.action_to_confirm is None ==> countdown_next(osd) == confirm_next(osd),
{
}

/// What the keyboard backlight reports.
#[derive(Clone, Copy, Debug, PartialEq, Eq, Structural)]
pub enum KeyboardBacklightUpdate {
    MaxBrightness(i32),
    Brightness(i32),
}

/// Everything the daemon reacts to.
#[derive(Clone, Debug)]
pub enum Msg {
    Action(OsdTask),
    Confirm,
    Cancel,
    Countdown,
    DBus(dbus::Event),
    Display(Option<DisplayMode>),
    Headphones(bool),
    PolkitAgent(polkit_agent::Event),
    PolkitDialog(u64, polkit_dialog::Msg),
    SettingsDaemon(settings_daemon::Event),
    Pulse(pulse::Event),
    OsdIndicator(osd_indicator::Msg),
    AirplaneMode(bool),
    KeyboardBacklight(KeyboardBacklightUpdate),
    SoundSettings,
    TouchpadEnabled(Option<TouchpadOverride>),
    ActivationToken(Option<String>),
    DisplayIdentifierSurface(u64, osd_indicator::Msg),
    ResetDisplayIdentifierTimer(u64),
    CreateDisplayIdentifiers(Vec<(String, u32)>),
    DismissDisplayIdentifiers,
    /// An output, by its handle, was announced under a name.
    OutputInfo(u64, String),
    /// The output with this handle went away.
    OutputRemoved(u64),
}

/// Whether a message is about the authentication dialogs.
pub open spec fn for_dialogs(msg: Msg) -> bool {
    msg is PolkitAgent || msg is PolkitDialog
}

/// Whether a message is about the display numbers or the outputs.
pub open spec fn for_identifiers(msg: Msg) -> bool {
    ||| msg is DisplayIdentifierSurface
    ||| msg is ResetDisplayIdentifierTimer
    ||| msg is CreateDisplayIdentifiers
    ||| msg is DismissDisplayIdentifiers
    ||| msg is OutputInfo
    ||| msg is OutputRemoved
    ||| (msg matches Msg::Action(task) && (task is IdentifyDisplays || task is DismissDisplayIdentifiers))
}

/// What a message that is neither about the dialogs nor about the display
/// numbers does to what the daemon knows and shows, and what it asks of the
/// caller, at time `now`.
pub open spec fn osd_next(osd: Osd, msg: Msg, now: u64) -> (Osd, Seq<Command>) {
    match msg {
        Msg::Action(task) => action_next(osd, task),
        Msg::Confirm => confirm_next(osd),
        Msg::Cancel => cancel_next(osd),
        Msg::Countdown => countdown_next(osd),
        Msg::Headphones(selected) => (headphones_next(osd, selected), Seq::empty()),
        Msg::SettingsDaemon(settings_daemon::Event::MaxDisplayBrightness(max)) => (
            Osd { max_display_brightness: Some(max), ..osd },
            Seq::empty(),
        ),
        Msg::SettingsDaemon(settings_daemon::Event::DisplayBrightness(level)) => display_brightness_next(
            osd,
            level,
        ),
        Msg::SettingsDaemon(settings_daemon::Event::KeyboardBrightness(level)) => keyboard_brightness_next(
            osd,
            level,
        ),
        Msg::KeyboardBacklight(KeyboardBacklightUpdate::MaxBrightness(max)) => (
            Osd { max_keyboard_brightness: Some(max), ..osd },
            Seq::empty(),
        ),
        Msg::KeyboardBacklight(KeyboardBacklightUpdate::Brightness(level)) => keyboard_brightness_next(
            osd,
            level,
        ),
        Msg::Pulse(pulse::Event::SinkMute(mute)) => sink_mute_next(osd, mute),
        Msg::Pulse(pulse::Event::SinkVolume(volume)) => sink_volume_next(osd, volume, now),
        Msg::Pulse(pulse::Event::SourceMute(mute)) => source_mute_next(osd, mute),
        Msg::Pulse(pulse::Event::SourceVolume(volume)) => source_volume_next(osd, volume),
        Msg::OsdIndicator(m) => indicator_msg_next(osd, m),
        Msg::AirplaneMode(on) => airplane_mode_next(osd, on),
        Msg::SoundSettings => (osd, sound_settings_commands(osd)),
        Msg::TouchpadEnabled(Some(enabled)) => fresh_indicator(osd, Params::TouchpadEnabled(enabled)),
        Msg::Display(Some(mode)) => fresh_indicator(osd, Params::DisplayToggle(mode)),
        Msg::ActivationToken(token) => (osd, seq![Command::SpawnSoundSettings(token)]),
        _ => (osd, Seq::empty()),
    }
}

/// `commands` is what the effect of a step of the dialog on surface `id`
/// asks of the caller.
pub open spec fn carries(commands: Seq<Command>, id: u64, effect: EffectView) -> bool {
    match effect {
        EffectView::Idle => commands.len() == 0,
        EffectView::Show => commands == seq![Command::GetDialogSurface(id)],
        EffectView::Focus => commands == seq![Command::Focus(id)],
        EffectView::Respond(text) => commands.len() == 1 && (commands[0] matches Command::Respond(
            surface,
            answer,
        ) && surface == id && answer@ == text),
        EffectView::Finish(verdict) => commands == seq![Command::Finish(id, verdict)],
    }
}

/// Every dialog in flight is filed under a surface number that the
/// counter of surfaces has passed: the next number is always free.
pub open spec fn numbered(app: App) -> bool {
    forall|id: u64| #[trigger] app.dialogs@.dom().contains(id) ==> id < app.osd.next_id
}

/// `after` differs from `before` in the dialogs at most.
pub open spec fn only_dialogs_changed(before: App, after: App) -> bool {
    &&& after.osd == before.osd
    &&& after.identifiers == before.identifiers
    &&& after.connection == before.connection
    &&& after.system_connection == before.system_connection
}

/// `after` and `commands` are what a request with `params` gives: a
/// refusal for a cookie in flight or when the surfaces have run out, else
/// the request is entered under a fresh surface number and its helper is
/// to be started. No surface is asked for yet: the dialog opens once the
/// helper runs.
pub open spec fn session_begun(
    before: App,
    params: polkit_dialog::Params,
    after: App,
    commands: Seq<Command>,
) -> bool {
    &&& after.identifiers == before.identifiers
    &&& after.connection == before.connection
    &&& after.system_connection == before.system_connection
    &&& if has_cookie(before.dialogs@, params@.cookie) {
        &&& after.dialogs@ == before.dialogs@
        &&& after.osd == before.osd
        &&& commands == seq![Command::Reject(params.cookie, Denial::DuplicateCookie)]
    } else if before.osd.next_id == u64::MAX {
        &&& after.dialogs@ == before.dialogs@
        &&& after.osd == before.osd
        &&& commands == seq![Command::Reject(params.cookie, Denial::Failed)]
    } else {
        &&& after.osd == (Osd { next_id: (before.osd.next_id + 1) as u64, ..before.osd })
        &&& if has_id(before.dialogs@, before.osd.next_id) {
            &&& after.dialogs@ == before.dialogs@
            &&& commands == seq![Command::Reject(params.cookie, Denial::Failed)]
        } else {
            &&& after.dialogs@ == before.dialogs@.insert(
                before.osd.next_id,
                initial(before.osd.next_id, params@),
            )
            &&& commands == seq![Command::StartHelper(before.osd.next_id)]
        }
    }
}

/// `after` and `commands` are what cancelling the request of `cookie`
/// gives: its dialog, if in flight, ends as cancelled; else nothing.
pub open spec fn dialog_cancelled(
    before: App,
    cookie: Seq<char>,
    after: App,
    commands: Seq<Command>,
) -> bool {
    &&& only_dialogs_changed(before, after)
    &&& !has_cookie(after.dialogs@, cookie)
    &&& if has_cookie(before.dialogs@, cookie) {
        let id = id_of_cookie(before.dialogs@, cookie);
        &&& after.dialogs@ == before.dialogs@.remove(id)
        &&& commands == seq![Command::Finish(id, Verdict::Cancelled)]
    } else {
        &&& after.dialogs@ == before.dialogs@
        &&& commands.len() == 0
    }
}

/// `after` and `commands` are what a message to the dialog on surface `id`
/// gives: that dialog takes its step, no other is touched.
pub open spec fn dialog_messaged(
    before: App,
    id: u64,
    msg: polkit_dialog::MsgView,
    after: App,
    commands: Seq<Command>,
) -> bool {
    &&& only_dialogs_changed(before, after)
    &&& if has_id(before.dialogs@, id) {
        &&& after.dialogs@ == after_message(before.dialogs@, id, msg)
        &&& carries(commands, id, step(before.dialogs@[id], msg).1)
    } else {
        &&& after.dialogs@ == before.dialogs@
        &&& commands.len() == 0
    }
}

/// The daemon's whole state.
#[derive(Debug)]
pub struct App {
    pub dialogs: Dialogs,
    pub osd: Osd,
    pub identifiers: Identifiers,
    /// Whether the session bus is connected.
    pub connection: bool,
    /// Whether the system bus is connected; the agent registers once it is.
    pub system_connection: bool,
}

fn effect_commands(id: u64, effect: Effect) -> (commands: Vec<Command>)
    ensures
        carries(commands@, id, effect@),
{
    let mut commands: Vec<Command> = Vec::new();
    match effect {
        Effect::Idle => {},
        Effect::Show => {
            commands.push(Command::GetDialogSurface(id));
            assert(commands@ =~= seq![Command::GetDialogSurface(id)]);
        },
        Effect::Focus => {
            commands.push(Command::Focus(id));
            assert(commands@ =~= seq![Command::Focus(id)]);
        },
        Effect::Respond(text) => {
            commands.push(Command::Respond(id, text));
        },
        Effect::Finish(verdict) => {
            commands.push(Command::Finish(id, verdict));
            assert(commands@ =~= seq![Command::Finish(id, verdict)]);
        },
    }
    commands
}

fn reject(cookie: String, denial: Denial) -> (commands: Vec<Command>)
    ensures
        commands@ == seq![Command::Reject(cookie, denial)],
{
    let mut commands: Vec<Command> = Vec::new();
    commands.push(Command::Reject(cookie, denial));
    assert(commands@ =~= seq![Command::Reject(cookie, denial)]);
    commands
}

impl App {
    /// The daemon as it starts: nothing connected, heard or shown.
    pub fn init(amplification_sink: bool, amplification_source: bool, now: u64) -> (app: App)
        ensures
            app.dialogs@ == Map::<u64, polkit_dialog::StateView>::empty(),
            consistent(app.dialogs@),
            numbered(app),
            app.osd == initial_osd(amplification_sink, amplification_source, now),
            app.identifiers.shown@.len() == 0,
            app.identifiers.wayland_outputs@.len() == 0,
            !app.identifiers.identifiers_dismissed,
            !app.connection,
            !app.system_connection,
    {
        App {
            dialogs: Dialogs::new(),
            osd: Osd::new(amplification_sink, amplification_source, now),
            identifiers: Identifiers::new(),
            connection: false,
            system_connection: false,
        }
    }

    /// A request comes in. A cookie already in flight is refused; so is a
    /// request when the surfaces have run out. Else the request is entered
    /// and its helper is to be started; the dialog opens, on the surface
    /// reserved here, when the helper reports that it runs.
    pub fn begin_session(&mut self, params: polkit_dialog::Params) -> (commands: Vec<Command>)
        ensures
            consistent(final(self).dialogs@),
            session_begun(*old(self), params, *final(self), commands@),
            numbered(*old(self)) ==> numbered(*final(self)),
    {
        self.dialogs.check();
        let cookie = params.cookie.clone();
        if self.dialogs.contains_cookie(&cookie) {
            return reject(cookie, Denial::DuplicateCookie);
        }
        match self.osd.fresh_id() {
            None => reject(cookie, Denial::Failed),
            Some(id) => match self.dialogs.create(id, params) {
                Ok(()) => {
                    let mut commands: Vec<Command> = Vec::new();
                    commands.push(Command::StartHelper(id));
                    assert(commands@ =~= seq![Command::StartHelper(id)]);
                    commands
                },
                Err(denial) => reject(cookie, denial),
            },
        }
    }

    /// The authority cancels a request. The dialog of that cookie, if one
    /// is in flight, ends as cancelled; for any other cookie nothing happens.
    pub fn cancel_dialog(&mut self, cookie: &String) -> (commands: Vec<Command>)
        ensures
            consistent(final(self).dialogs@),
            dialog_cancelled(*old(self), cookie@, *final(self), commands@),
            numbered(*old(self)) ==> numbered(*final(self)),
    {
        match self.dialogs.cancel(cookie) {
            Some((id, effect)) => effect_commands(id, effect),
            None => Vec::new(),
        }
    }

    /// A message reaches the dialog on surface `id`.
    pub fn dialog_msg(&mut self, id: u64, msg: polkit_dialog::Msg) -> (commands: Vec<Command>)
        ensures
            consistent(final(self).dialogs@),
            dialog_messaged(*old(self), id, msg@, *final(self), commands@),
            numbered(*old(self)) ==> numbered(*final(self)),
    {
        let effect = self.dialogs.message(id, msg);
        effect_commands(id, effect)
    }
}

/// `after` differs from `before` in the display numbers and the surface
/// counter at most.
pub open spec fn only_identifiers_changed(before: App, after: App) -> bool {
    &&& after.dialogs == before.dialogs
    &&& after.connection == before.connection
    &&& after.system_connection == before.system_connection
    &&& after.osd == (Osd { next_id: after.osd.next_id, ..before.osd })
}

/// What `update` owes for each message. A message about the dialogs moves
/// the dialogs only, one about the display numbers or the outputs moves
/// those only, a report of a connection is noted, and every other message
/// is taken as `osd_next` says.
pub open spec fn updated(before: App, msg: Msg, now: u64, after: App, commands: Seq<Command>) -> bool {
    match msg {
        Msg::PolkitAgent(polkit_agent::Event::BeginSession(params)) => session_begun(
            before,
            params,
            after,
            commands,
        ),
        Msg::PolkitAgent(polkit_agent::Event::CancelDialog { cookie }) => dialog_cancelled(
            before,
            cookie@,
            after,
            commands,
        ),
        Msg::PolkitDialog(id, m) => dialog_messaged(before, id, m@, after, commands),
        Msg::DBus(event) => {
            &&& after.dialogs == before.dialogs
            &&& after.osd == before.osd
            &&& after.identifiers == before.identifiers
            &&& after.connection == (before.connection || event == dbus::Event::Connection)
            &&& after.system_connection == (before.system_connection || event
                == dbus::Event::SystemConnection)
            &&& commands.len() == 0
        },
        Msg::Action(OsdTask::IdentifyDisplays) => {
            &&& only_identifiers_changed(before, after)
            &&& after.osd == before.osd
            &&& after.identifiers.shown == before.identifiers.shown
            &&& after.identifiers.wayland_outputs == before.identifiers.wayland_outputs
            &&& !after.identifiers.identifiers_dismissed
            &&& commands == seq![Command::IdentifyDisplays]
        },
        Msg::Action(OsdTask::DismissDisplayIdentifiers) | Msg::DismissDisplayIdentifiers => {
            &&& only_identifiers_changed(before, after)
            &&& after.osd == before.osd
            &&& crate::components::identifiers::dismissed(
                before.identifiers,
                after.identifiers,
                commands,
            )
        },
        Msg::CreateDisplayIdentifiers(displays) => {
            &&& only_identifiers_changed(before, after)
            &&& crate::components::identifiers::created(
                before.identifiers,
                before.osd.next_id,
                before.osd.amplification_sink,
                before.osd.amplification_source,
                displays@,
                after.identifiers,
                after.osd.next_id,
                commands,
            )
        },
        Msg::ResetDisplayIdentifierTimer(id) => {
            &&& after == before
            &&& commands == crate::components::identifiers::reset_commands(before.identifiers.shown@, id)
        },
        Msg::DisplayIdentifierSurface(id, m) => {
            &&& only_identifiers_changed(before, after)
            &&& after.osd == before.osd
            &&& crate::components::identifiers::messaged(
                before.identifiers,
                id,
                m,
                after.identifiers,
                commands,
            )
        },
        Msg::OutputInfo(output, name) => {
            &&& only_identifiers_changed(before, after)
            &&& after.osd == before.osd
            &&& crate::components::identifiers::announced(
                before.identifiers,
                output,
                name,
                after.identifiers,
            )
            &&& commands.len() == 0
        },
        Msg::OutputRemoved(output) => {
            &&& only_identifiers_changed(before, after)
            &&& after.osd == before.osd
            &&& exists|known: bool|
                #![trigger crate::components::identifiers::removed(before.identifiers, output, after.identifiers, known)]
                crate::components::identifiers::removed(
                    before.identifiers,
                    output,
                    after.identifiers,
                    known,
                ) && commands == (if known {
                    seq![Command::IdentifyDisplays]
                } else {
                    Seq::empty()
                })
        },
        _ => {
            &&& after.dialogs == before.dialogs
            &&& after.identifiers == before.identifiers
            &&& after.connection == before.connection
            &&& after.system_connection == before.system_connection
            &&& (after.osd, commands) == osd_next(before.osd, msg, now)
        },
    }
}

impl App {
    fn osd_update(&mut self, message: Msg, now: u64) -> (commands: Vec<Command>)
        requires
            !for_dialogs(message),
            !for_identifiers(message),
            !(message is DBus),
        ensures
            final(self).dialogs == old(self).dialogs,
            final(self).identifiers == old(self).identifiers,
            final(self).connection == old(self).connection,
            final(self).system_connection == old(self).system_connection,
            (final(self).osd, commands@) == osd_next(old(self).osd, message, now),
    {
        match message {
            Msg::Action(task) => self.osd.action(task),
            Msg::Confirm => self.osd.confirm(),
            Msg::Cancel => self.osd.cancel(),
            Msg::Countdown => self.osd.countdown(),
            Msg::Headphones(selected) => {
                self.osd.headphones(selected);
                Vec::new()
            },
            Msg::SettingsDaemon(settings_daemon::Event::MaxDisplayBrightness(max)) => {
                self.osd.max_display_brightness = Some(max);
                Vec::new()
            },
            Msg::SettingsDaemon(settings_daemon::Event::DisplayBrightness(level)) => self.osd.display_brightness(
                level,
            ),
            Msg::SettingsDaemon(settings_daemon::Event::KeyboardBrightness(level)) => self.osd.keyboard_brightness(
                level,
            ),
            Msg::KeyboardBacklight(KeyboardBacklightUpdate::MaxBrightness(max)) => {
                self.osd.max_keyboard_brightness = Some(max);
                Vec::new()
            },
            Msg::KeyboardBacklight(KeyboardBacklightUpdate::Brightness(level)) => self.osd.keyboard_brightness(
                level,
            ),
            Msg::Pulse(pulse::Event::SinkMute(mute)) => self.osd.sink_mute(mute),
            Msg::Pulse(pulse::Event::SinkVolume(volume)) => self.osd.sink_volume(volume, now),
            Msg::Pulse(pulse::Event::SourceMute(mute)) => self.osd.source_mute(mute),
            Msg::Pulse(pulse::Event::SourceVolume(volume)) => self.osd.source_volume(volume),
            Msg::OsdIndicator(m) => self.osd.indicator_msg(m),
            Msg::AirplaneMode(on) => self.osd.airplane_mode(on),
            Msg::SoundSettings => self.osd.sound_settings(),
            Msg::TouchpadEnabled(Some(enabled)) => self.osd.replace_indicator(
                Params::TouchpadEnabled(enabled),
            ),
            Msg::Display(Some(mode)) => self.osd.replace_indicator(Params::DisplayToggle(mode)),
            Msg::ActivationToken(token) => {
                let mut commands: Vec<Command> = Vec::new();
                commands.push(Command::SpawnSoundSettings(token));
                assert(commands@ =~= seq![Command::SpawnSoundSettings(token)]);
                commands
            },
            _ => Vec::new(),
        }
    }

    /// Asks for the displays to be numbered, dismissed or not.
    pub fn identify_displays(&mut self) -> (commands: Vec<Command>)
        ensures
            updated(*old(self), Msg::Action(OsdTask::IdentifyDisplays), 0, *final(self), commands@),
    {
        self.identifiers.identifiers_dismissed = false;
        let mut commands: Vec<Command> = Vec::new();
        commands.push(Command::IdentifyDisplays);
        assert(commands@ =~= seq![Command::IdentifyDisplays]);
        commands
    }

    /// Takes one message at time `now`, in milliseconds, and says what the
    /// caller is to do.
    pub fn update(&mut self, message: Msg, now: u64) -> (commands: Vec<Command>)
        ensures
            consistent(final(self).dialogs@),
            updated(*old(self), message, now, *final(self), commands@),
            numbered(*old(self)) ==> numbered(*final(self)),
    {
        self.dialogs.check();
        proof {
            lemma_counter_counts_up(old(self).osd, message, now);
        }
        match message {
            Msg::PolkitAgent(polkit_agent::Event::BeginSession(params)) => self.begin_session(params),
            Msg::PolkitAgent(polkit_agent::Event::CancelDialog { cookie }) => self.cancel_dialog(
                &cookie,
            ),
            Msg::PolkitDialog(id, m) => self.dialog_msg(id, m),
            Msg::DBus(event) => {
                match event {
                    dbus::Event::Connection => {
                        self.connection = true;
                    },
                    dbus::Event::SystemConnection => {
                        self.system_connection = true;
                    },
                    dbus::Event::Error(_) => {},
                }
                Vec::new()
            },
            Msg::Action(OsdTask::IdentifyDisplays) => self.identify_displays(),
            Msg::Action(OsdTask::DismissDisplayIdentifiers) => self.identifiers.dismiss(),
            Msg::DismissDisplayIdentifiers => self.identifiers.dismiss(),
            Msg::CreateDisplayIdentifiers(displays) => {
                proof {
                    crate::components::identifiers::law_numbering_counts_up(
                        crate::components::identifiers::Plan {
                            left: self.identifiers.shown@,
                            built: Seq::empty(),
                            next_id: self.osd.next_id,
                            commands: Seq::empty(),
                        },
                        self.identifiers.wayland_outputs@,
                        self.osd.amplification_sink,
                        self.osd.amplification_source,
                        displays@,
                    );
                }
                let sink = self.osd.amplification_sink;
                let source = self.osd.amplification_source;
                let mut next_id = self.osd.next_id;
                let commands = self.identifiers.create(&displays, &mut next_id, sink, source);
                self.osd.next_id = next_id;
                commands
            },
            Msg::ResetDisplayIdentifierTimer(id) => self.identifiers.reset_timer(id),
            Msg::DisplayIdentifierSurface(id, m) => self.identifiers.surface_msg(id, m),
            Msg::OutputInfo(output, name) => {
                self.identifiers.output_info(output, name);
                Vec::new()
            },
            Msg::OutputRemoved(output) => {
                let known = self.identifiers.output_removed(output);
                let mut commands: Vec<Command> = Vec::new();
                if known {
                    commands.push(Command::IdentifyDisplays);
                    assert(commands@ =~= seq![Command::IdentifyDisplays]);
                }
                assert(crate::components::identifiers::removed(
                    old(self).identifiers,
                    output,
                    self.identifiers,
                    known,
                ));
                commands
            },
            other => self.osd_update(other, now),
        }
    }
}

/// How the daemon was activated over the bus.
#[derive(Clone, Debug, PartialEq, Eq)]
pub enum Details {
    Activate,
    /// An action was named; `None` where the name is no task.
    ActivateAction(Option<OsdTask>),
    Open,
}

/// What an activation owes. The touchpad and display toggles are handed to
/// the caller, the display numbers are asked for or dismissed, any other
/// task is put up for confirmation, and an activation that names no task
/// does nothing.
pub open spec fn activated(before: App, details: Details, after: App, commands: Seq<Command>) -> bool {
    match details {
        Details::ActivateAction(Some(OsdTask::Touchpad)) => after == before && commands == seq![
            Command::ToggleTouchpad,
        ],
        Details::ActivateAction(Some(OsdTask::Display)) => after == before && commands == seq![
            Command::ToggleDisplays,
        ],
        Details::ActivateAction(Some(OsdTask::IdentifyDisplays)) => updated(
            before,
            Msg::Action(OsdTask::IdentifyDisplays),
            0,
            after,
            commands,
        ),
        Details::ActivateAction(Some(OsdTask::DismissDisplayIdentifiers)) => updated(
            before,
            Msg::DismissDisplayIdentifiers,
            0,
            after,
            commands,
        ),
        Details::ActivateAction(Some(task)) => {
            &&& after.dialogs == before.dialogs
            &&& after.identifiers == before.identifiers
            &&& after.connection == before.connection
            &&& after.system_connection == before.system_connection
            &&& (after.osd, commands) == activate_next(before.osd, task)
        },
        _ => after == before && commands.len() == 0,
    }
}

impl App {
    /// Takes an activation over the bus.
    pub fn dbus_activation(&mut self, details: Details) -> (commands: Vec<Command>)
        ensures
            activated(*old(self), details, *final(self), commands@),
            numbered(*old(self)) ==> numbered(*final(self)),
    {
        let mut commands: Vec<Command> = Vec::new();
        match details {
            Details::ActivateAction(Some(task)) => match task {
                OsdTask::Touchpad => {
                    commands.push(Command::ToggleTouchpad);
                    assert(commands@ =~= seq![Command::ToggleTouchpad]);
                    commands
                },
                OsdTask::Display => {
                    commands.push(Command::ToggleDisplays);
                    assert(commands@ =~= seq![Command::ToggleDisplays]);
                    commands
                },
                OsdTask::IdentifyDisplays => self.identify_displays(),
                OsdTask::DismissDisplayIdentifiers => self.identifiers.dismiss(),
                other => self.osd.activate(other),
            },
            _ => commands,
        }
    }
}

/// What carrying a task out comes to.
#[derive(Clone, Debug, PartialEq, Eq)]
pub enum Perform {
    /// Restart the machine, into its firmware setup if the flag is set.
    Restart(bool),
    Shutdown,
    LogOut,
    /// Switch the sound card to a profile and, for a headset, the default
    /// input to the headset's port.
    ConfirmHeadphones {
        card_name: String,
        headphone_profile: String,
        headset_profile: String,
        headset_port_name: String,
        selected_headset: bool,
    },
    /// The task shows something and does nothing else.
    Nothing,
}

impl OsdTask {
    /// What is to be done to carry the task out.
    pub fn perform(self) -> (work: Perform)
        ensures
            work == (match self {
                OsdTask::EnterBios => Perform::Restart(true),
                OsdTask::LogOut => Perform::LogOut,
                OsdTask::Restart => Perform::Restart(false),
                OsdTask::Shutdown => Perform::Shutdown,
                OsdTask::ConfirmHeadphones {
                    card_name,
                    headphone_profile,
                    headset_profile,
                    headset_port_name,
                    selected_headset,
                } => Perform::ConfirmHeadphones {
                    card_name,
                    headphone_profile,
                    headset_profile,
                    headset_port_name,
                    selected_headset,
                },
                OsdTask::Touchpad => Perform::Nothing,
                OsdTask::Display => Perform::Nothing,
                OsdTask::IdentifyDisplays => Perform::Nothing,
                OsdTask::DismissDisplayIdentifiers => Perform::Nothing,
            }),
    {
        match self {
            OsdTask::EnterBios => Perform::Restart(true),
            OsdTask::LogOut => Perform::LogOut,
            OsdTask::Restart => Perform::Restart(false),
            OsdTask::Shutdown => Perform::Shutdown,
            OsdTask::ConfirmHeadphones {
                card_name,
                headphone_profile,
                headset_profile,
                headset_port_name,
                selected_headset,
            } => Perform::ConfirmHeadphones {
                card_name,
                headphone_profile,
                headset_profile,
                headset_port_name,
                selected_headset,
            },
            OsdTask::Touchpad => Perform::Nothing,
            OsdTask::Display => Perform::Nothing,
            OsdTask::IdentifyDisplays => Perform::Nothing,
            OsdTask::DismissDisplayIdentifiers => Perform::Nothing,
        }
    }

    /// The name of the task in the texts of its confirmation.
    pub fn action_name(&self) -> (name: &'static str)
        ensures
            name@ == (match *self {
                OsdTask::EnterBios => "enter-bios"@,
                OsdTask::LogOut => "log-out"@,
                OsdTask::Restart => "restart"@,
                OsdTask::Shutdown => "shutdown"@,
                OsdTask::ConfirmHeadphones { .. } => "confirm-device-type"@,
                OsdTask::Touchpad => "touchpad"@,
                OsdTask::Display => "external-display"@,
                OsdTask::IdentifyDisplays => "identify-displays"@,
                OsdTask::DismissDisplayIdentifiers => "dismiss-display-identifiers"@,
            }),
    {
        match self {
            OsdTask::EnterBios => "enter-bios",
            OsdTask::LogOut => "log-out",
            OsdTask::Restart => "restart",
            OsdTask::Shutdown => "shutdown",
            OsdTask::ConfirmHeadphones { .. } => "confirm-device-type",
            OsdTask::Touchpad => "touchpad",
            OsdTask::Display => "external-display",
            OsdTask::IdentifyDisplays => "identify-displays",
            OsdTask::DismissDisplayIdentifiers => "dismiss-display-identifiers",
        }
    }

    /// The icon of the task's confirmation; only the four tasks that end
    /// the session have one.
    pub fn confirm_icon(&self) -> (name: Option<&'static str>)
        ensures
            match *self {
                OsdTask::LogOut => name matches Some(n) && n@ == "system-log-out-symbolic"@,
                OsdTask::Restart | OsdTask::EnterBios => name matches Some(n) && n@
                    == "system-restart-symbolic"@,
                OsdTask::Shutdown => name matches Some(n) && n@ == "system-shutdown-symbolic"@,
                _ => name is None,
            },
    {
        match self {
            OsdTask::LogOut => Some("system-log-out-symbolic"),
            OsdTask::Restart | OsdTask::EnterBios => Some("system-restart-symbolic"),
            OsdTask::Shutdown => Some("system-shutdown-symbolic"),
            _ => None,
        }
    }
}

/// The touchpad override after a toggle: a touchpad left to the system
/// counts as on and is forced off; a touchpad forced off is let go.
pub fn toggle_touchpad(current: TouchpadOverride) -> (next: TouchpadOverride)
    ensures
        next == (match current {
            TouchpadOverride::Unset => TouchpadOverride::ForceDisable,
            TouchpadOverride::ForceDisable => TouchpadOverride::Unset,
        }),
{
    match current {
        TouchpadOverride::Unset => TouchpadOverride::ForceDisable,
        TouchpadOverride::ForceDisable => TouchpadOverride::Unset,
    }
}

/// What is drawn on a surface.
#[derive(Clone, Copy, Debug, PartialEq, Eq, Structural)]
pub enum Window {
    PolkitDialog,
    DisplayIdentifier,
    Indicator,
    Confirmation,
    Empty,
}

/// What is drawn on surface `id`: the dialog that is open there, and
/// nothing for a request whose dialog is not open yet; else a display
/// number that sits there; failing those, and only if there is an
/// indicator, the indicator
/// if it is the indicator's surface; failing an indicator, the
/// confirmation if it is the confirmation's surface; else nothing.
pub open spec fn window_of(app: App, id: u64) -> Window {
    if has_id(app.dialogs@, id) {
        if app.dialogs@[id].responder {
            Window::PolkitDialog
        } else {
            Window::Empty
        }
    } else if crate::components::identifiers::find_surface(app.identifiers.shown@, id) is Some {
        Window::DisplayIdentifier
    } else if app.osd.indicator is Some {
        if app.osd.indicator.unwrap().id == id {
            Window::Indicator
        } else {
            Window::Empty
        }
    } else if app.osd.action_to_confirm matches Some((surface, _, _)) && surface == id {
        Window::Confirmation
    } else {
        Window::Empty
    }
}

/// Which timers and listeners the daemon needs.
#[derive(Clone, Copy, Debug, PartialEq, Eq, Structural)]
pub struct Subscriptions {
    /// The agent: once the system bus is connected.
    pub polkit_agent: bool,
    /// The settings daemon: once the session bus is connected.
    pub settings_daemon: bool,
    /// The tick of the countdown: while a task waits.
    pub countdown: bool,
    /// One helper per dialog in flight.
    pub helpers: usize,
}

impl App {
    /// Says what is drawn on surface `id`.
    pub fn view_window(&self, id: u64) -> (window: Window)
        ensures
            window == window_of(*self, id),
    {
        if let Some(dialog) = self.dialogs.get(id) {
            if dialog.is_open() {
                Window::PolkitDialog
            } else {
                Window::Empty
            }
        } else if self.identifiers.has_surface(id) {
            Window::DisplayIdentifier
        } else if self.osd.indicator.is_some() {
            match self.osd.indicator {
                Some(shown) => if shown.id == id {
                    Window::Indicator
                } else {
                    Window::Empty
                },
                None => Window::Empty,
            }
        } else {
            match &self.osd.action_to_confirm {
                Some((surface, _, _)) => if *surface == id {
                    Window::Confirmation
                } else {
                    Window::Empty
                },
                None => Window::Empty,
            }
        }
    }

    /// Says which timers and listeners are needed now.
    pub fn subscription(&self) -> (needed: Subscriptions)
        ensures
            needed == (Subscriptions {
                polkit_agent: self.system_connection,
                settings_daemon: self.connection,
                countdown: self.osd.action_to_confirm is Some,
                helpers: self.dialogs@.dom().len() as usize,
            }),
    {
        Subscriptions {
            polkit_agent: self.system_connection,
            settings_daemon: self.connection,
            countdown: self.osd.action_to_confirm.is_some(),
            helpers: self.dialogs.len(),
        }
    }
}

/// What a confirmation shows.
#[derive(Clone, Copy, Debug, PartialEq, Eq)]
pub struct Confirmation {
    /// The name of the task in the texts.
    pub action: &'static str,
    /// The icon; none for the choice between headphones and headset.
    pub icon: Option<&'static str>,
    /// Seconds until the task goes ahead by itself.
    pub countdown: u8,
    /// Whether restarting is offered as well: beside a shutdown.
    pub offers_restart: bool,
    /// For the choice between headphones and headset: whether the headset
    /// is chosen.
    pub selected_headset: Option<bool>,
}

/// `shown` is what the confirmation of `task`, with `countdown` seconds
/// to go, shows.
pub open spec fn confirms(task: OsdTask, countdown: u8, shown: Confirmation) -> bool {
    &&& shown.countdown == countdown
    &&& shown.offers_restart == (task is Shutdown)
    &&& shown.selected_headset == (match task {
        OsdTask::ConfirmHeadphones { selected_headset, .. } => Some(selected_headset),
        _ => None,
    })
    &&& shown.action@ == (match task {
        OsdTask::EnterBios => "enter-bios"@,
        OsdTask::LogOut => "log-out"@,
        OsdTask::Restart => "restart"@,
        OsdTask::Shutdown => "shutdown"@,
        OsdTask::ConfirmHeadphones { .. } => "confirm-device-type"@,
        OsdTask::Touchpad => "touchpad"@,
        OsdTask::Display => "external-display"@,
        OsdTask::IdentifyDisplays => "identify-displays"@,
        OsdTask::DismissDisplayIdentifiers => "dismiss-display-identifiers"@,
    })
    &&& match task {
        OsdTask::LogOut => shown.icon matches Some(n) && n@ == "system-log-out-symbolic"@,
        OsdTask::Restart | OsdTask::EnterBios => shown.icon matches Some(n) && n@
            == "system-restart-symbolic"@,
        OsdTask::Shutdown => shown.icon matches Some(n) && n@ == "system-shutdown-symbolic"@,
        _ => shown.icon is None,
    }
}

impl Osd {
    /// Says what the confirmation shows, if a task waits.
    pub fn confirmation(&self) -> (shown: Option<Confirmation>)
        ensures
            match self.action_to_confirm {
                Some((_, task, countdown)) => shown matches Some(c) && confirms(task, countdown, c),
                None => shown is None,
            },
    {
        match &self.action_to_confirm {
            Some((_, task, countdown)) => Some(
                Confirmation {
                    action: task.action_name(),
                    icon: task.confirm_icon(),
                    countdown: *countdown,
                    offers_restart: matches!(task, OsdTask::Shutdown),
                    selected_headset: match task {
                        OsdTask::ConfirmHeadphones { selected_headset, .. } => Some(*selected_headset),
                        _ => None,
                    },
                },
            ),
            None => None,
        }
    }
}

/// A surface is asked for on behalf of a dialog only when the dialog
/// opens: whatever else a step of a dialog asks of the caller, it is no
/// surface.
pub proof fn law_surface_needs_show(commands: Seq<Command>, id: u64, effect: EffectView)
    requires
        carries(commands, id, effect),
    ensures
        (exists|k: int| 0 <= k < commands.len() && #[trigger] commands[k] is GetDialogSurface)
            <==> effect is Show,
        effect is Show ==> commands == seq![Command::GetDialogSurface(id)],
{
    if effect is Show {
        assert(commands[0] is GetDialogSurface);
    }
}

/// A request that comes in asks for no surface, whatever its cookie: at
/// most its helper is to be started.
pub proof fn law_request_asks_for_no_surface(
    before: App,
    params: polkit_dialog::Params,
    after: App,
    commands: Seq<Command>,
)
    requires
        session_begun(before, params, after, commands),
    ensures
        forall|k: int| 0 <= k < commands.len() ==> !(#[trigger] commands[k] is GetDialogSurface),
        commands.len() == 1,
        commands[0] is StartHelper || commands[0] is Reject,
{
}

/// A request opens no dialog before its helper runs. Over every run of
/// messages to a request just entered that holds no report of a running
/// helper, no step asks for a surface: where the helper cannot be run, the
/// request ends as denied and the user is never shown a dialog.
pub proof fn law_no_surface_without_responder(
    id: u64,
    params: polkit_dialog::ParamsView,
    msgs: Seq<polkit_dialog::MsgView>,
    k: int,
    commands: Seq<Command>,
)
    requires
        forall|i: int|
            0 <= i < msgs.len() ==> msgs[i] != polkit_dialog::MsgView::Agent(
                crate::subscriptions::polkit_agent_helper::EventView::Responder,
            ),
        0 <= k < msgs.len(),
        carries(commands, id, step(run(initial(id, params), msgs.subrange(0, k)), msgs[k]).1),
    ensures
        forall|j: int| 0 <= j < commands.len() ==> !(#[trigger] commands[j] is GetDialogSurface),
{
    law_no_dialog_without_responder(initial(id, params), msgs);
    let effect = step(run(initial(id, params), msgs.subrange(0, k)), msgs[k]).1;
    assert(!(effect is Show));
    law_surface_needs_show(commands, id, effect);
}

proof fn lemma_counter_counts_up(osd: Osd, msg: Msg, now: u64)
    ensures
        osd_next(osd, msg, now).0.next_id >= osd.next_id,
{
}

/// While every dialog's number lies below the counter, a request with a
/// free cookie is refused only when the surfaces have run out: else it is
/// entered, under the next number, and its helper is to be started.
pub proof fn law_free_cookie_is_entered(
    before: App,
    params: polkit_dialog::Params,
    after: App,
    commands: Seq<Command>,
)
    requires
        numbered(before),
        session_begun(before, params, after, commands),
        !has_cookie(before.dialogs@, params@.cookie),
        before.osd.next_id < u64::MAX,
    ensures
        commands == seq![Command::StartHelper(before.osd.next_id)],
        after.dialogs@ == before.dialogs@.insert(
            before.osd.next_id,
            initial(before.osd.next_id, params@),
        ),
        numbered(after),
{
}

} // verus!
