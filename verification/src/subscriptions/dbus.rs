//! The two bus connections the daemon opens, one after the other.

use vstd::prelude::*;

verus! {

/// What opening the connections reports.
#[derive(Clone, Copy, Debug, PartialEq, Eq, Structural)]
pub enum Event {
    /// The session bus is connected, under the daemon's name.
    Connection,
    /// The system bus is connected.
    SystemConnection,
    /// Connecting failed.
    Error(Stage),
}

/// Which connection an attempt was for.
#[derive(Clone, Copy, Debug, PartialEq, Eq, Structural)]
pub enum Stage {
    SessionConnection,
    SystemConnection,
}

/// How far the connecting has come.
#[derive(Clone, Copy, Debug, PartialEq, Eq, Structural)]
pub enum State {
    Start,
    CreatedConnection,
    CreatedSystemConnection,
}

/// What is to be attempted in a state: nothing once both were tried.
pub open spec fn stage_of(state: State) -> Option<Stage> {
    match state {
        State::Start => Some(Stage::SessionConnection),
        State::CreatedConnection => Some(Stage::SystemConnection),
        State::CreatedSystemConnection => None,
    }
}

/// The event for the outcome of an attempt.
pub open spec fn event_of(stage: Stage, connected: bool) -> Event {
    if !connected {
        Event::Error(stage)
    } else {
        match stage {
            Stage::SessionConnection => Event::Connection,
            Stage::SystemConnection => Event::SystemConnection,
        }
    }
}

/// What is said of a failed attempt.
pub fn context(stage: Stage) -> (text: &'static str)
    ensures
        text@ == (match stage {
            Stage::SessionConnection => "create session connection"@,
            Stage::SystemConnection => "create system connection"@,
        }),
{
    match stage {
        Stage::SessionConnection => "create session connection",
        Stage::SystemConnection => "create system connection",
    }
}

/// Which connection to attempt next, if any is left.
pub fn attempt(state: State) -> (stage: Option<Stage>)
    ensures
        stage == stage_of(state),
{
    match state {
        State::Start => Some(Stage::SessionConnection),
        State::CreatedConnection => Some(Stage::SystemConnection),
        State::CreatedSystemConnection => None,
    }
}

/// Turns the outcome of an attempt into its event.
pub fn result_to_event(connected: bool, stage: Stage) -> (event: Event)
    ensures
        event == event_of(stage, connected),
{
    if !connected {
        Event::Error(stage)
    } else {
        match stage {
            Stage::SessionConnection => Event::Connection,
            Stage::SystemConnection => Event::SystemConnection,
        }
    }
}

/// One step of connecting: the event for the attempt that was due in
/// `state` and went as `connected` says, and the state after it. Each
/// connection is tried once, failed or not; after both nothing is reported.
pub fn subscription(state: State, connected: bool) -> (next: (Option<Event>, State))
    ensures
        next.0 == (match stage_of(state) {
            Some(stage) => Some(event_of(stage, connected)),
            None => None,
        }),
        next.1 == (match state {
            State::Start => State::CreatedConnection,
            _ => State::CreatedSystemConnection,
        }),
{
    match attempt(state) {
        Some(stage) => {
            let after = match state {
                State::Start => State::CreatedConnection,
                _ => State::CreatedSystemConnection,
            };
            (Some(result_to_event(connected, stage)), after)
        },
        None => (None, State::CreatedSystemConnection),
    }
}

} // verus!
