//! The media keys the daemon listens for.

use vstd::prelude::*;

verus! {

#[derive(Clone, Copy, Debug, PartialEq, Eq, Structural)]
pub enum Msg {
    BrightnessDown,
    BrightnessUp,
    AudioVolumeDown,
    AudioVolumeUp,
    AudioVolumeMute,
}

/// A named key as it was pressed.
#[derive(Clone, Copy, Debug, PartialEq, Eq, Structural)]
pub enum Named {
    BrightnessDown,
    BrightnessUp,
    AudioVolumeDown,
    AudioVolumeUp,
    AudioVolumeMute,
    /// Any other named key.
    Other,
}

/// The message for a pressed key. A press that some widget has captured,
/// and any key but the five media keys, gives none.
pub fn subscription(key: Named, captured: bool) -> (msg: Option<Msg>)
    ensures
        msg == (if captured {
            None
        } else {
            match key {
                Named::BrightnessDown => Some(Msg::BrightnessDown),
                Named::BrightnessUp => Some(Msg::BrightnessUp),
                Named::AudioVolumeDown => Some(Msg::AudioVolumeDown),
                Named::AudioVolumeUp => Some(Msg::AudioVolumeUp),
                Named::AudioVolumeMute => Some(Msg::AudioVolumeMute),
                Named::Other => None,
            }
        }),
{
    if captured {
        return None;
    }
    match key {
        Named::BrightnessDown => Some(Msg::BrightnessDown),
        Named::BrightnessUp => Some(Msg::BrightnessUp),
        Named::AudioVolumeDown => Some(Msg::AudioVolumeDown),
        Named::AudioVolumeUp => Some(Msg::AudioVolumeUp),
        Named::AudioVolumeMute => Some(Msg::AudioVolumeMute),
        Named::Other => None,
    }
}

} // verus!
