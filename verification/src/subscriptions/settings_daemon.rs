//! What the settings daemon reports.

use vstd::prelude::*;

verus! {

#[derive(Clone, Copy, Debug, PartialEq, Eq, Structural)]
pub enum Event {
    DisplayBrightness(i32),
    KeyboardBrightness(i32),
    MaxDisplayBrightness(i32),
}

/// What a changed property of the settings daemon is reported as; a
/// property that could not be read is not reported.
pub fn subscription(display: bool, value: Option<i32>) -> (event: Option<Event>)
    ensures
        event == (match value {
            Some(level) => Some(
                if display {
                    Event::DisplayBrightness(level)
                } else {
                    Event::KeyboardBrightness(level)
                },
            ),
            None => None,
        }),
{
    match value {
        Some(level) => Some(
            if display {
                Event::DisplayBrightness(level)
            } else {
                Event::KeyboardBrightness(level)
            },
        ),
        None => None,
    }
}

} // verus!
