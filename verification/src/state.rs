use vstd::prelude::*;
use vstd::string::StringExecFns;

use crate::text::{debug_quoted, str_debug_repr};

verus! {

/// The daemon's recording state.
#[derive(Debug, Clone, Copy, PartialEq, Eq, Structural)]
pub enum AppState {
    Idle,
    Recording,
    Transcribing,
}

/// What can happen to the daemon.
#[derive(Debug, Clone, PartialEq)]
pub enum AppEvent {
    ToggleRecording,
    TranscriptionComplete(String),
    TranscriptionFailed(String),
}

/// Whether two events are the same event: the same kind with the same text.
pub open spec fn same_event(a: AppEvent, b: AppEvent) -> bool {
    match (a, b) {
        (AppEvent::ToggleRecording, AppEvent::ToggleRecording) => true,
        (AppEvent::TranscriptionComplete(x), AppEvent::TranscriptionComplete(y)) => x@ == y@,
        (AppEvent::TranscriptionFailed(x), AppEvent::TranscriptionFailed(y)) => x@ == y@,
        _ => false,
    }
}

impl AppEvent {
    /// A copy of the event.
    pub fn duplicate(&self) -> (r: AppEvent)
        ensures
            same_event(r, *self),
    {
        match self {
            AppEvent::ToggleRecording => AppEvent::ToggleRecording,
            AppEvent::TranscriptionComplete(t) => AppEvent::TranscriptionComplete(t.clone()),
            AppEvent::TranscriptionFailed(t) => AppEvent::TranscriptionFailed(t.clone()),
        }
    }
}

/// The state machine: `Idle -> Recording -> Transcribing -> Idle`.
/// `None` marks a pair that has no transition.
pub open spec fn next_state(state: AppState, event: AppEvent) -> Option<AppState> {
    match state {
        AppState::Idle => match event {
            AppEvent::ToggleRecording => Some(AppState::Recording),
            _ => None,
        },
        AppState::Recording => match event {
            AppEvent::ToggleRecording => Some(AppState::Transcribing),
            _ => None,
        },
        AppState::Transcribing => match event {
            AppEvent::ToggleRecording => None,
            _ => Some(AppState::Idle),
        },
    }
}

/// The `Debug` rendering of a state.
pub open spec fn state_debug(state: AppState) -> Seq<char> {
    match state {
        AppState::Idle => "Idle"@,
        AppState::Recording => "Recording"@,
        AppState::Transcribing => "Transcribing"@,
    }
}

/// The `Debug` rendering of an event.
pub open spec fn event_debug(event: AppEvent) -> Seq<char> {
    match event {
        AppEvent::ToggleRecording => "ToggleRecording"@,
        AppEvent::TranscriptionComplete(t) => "TranscriptionComplete("@ + str_debug_repr(t@) + ")"@,
        AppEvent::TranscriptionFailed(t) => "TranscriptionFailed("@ + str_debug_repr(t@) + ")"@,
    }
}

/// The error text for a refused transition.
pub open spec fn invalid_transition_text(state: AppState, event: AppEvent) -> Seq<char> {
    "Invalid transition: "@ + state_debug(state) + " + "@ + event_debug(event)
}

/// `Debug` name of a state.
pub fn state_name(state: &AppState) -> (r: &'static str)
    ensures
        r@ == state_debug(*state),
{
    match state {
        AppState::Idle => "Idle",
        AppState::Recording => "Recording",
        AppState::Transcribing => "Transcribing",
    }
}

/// `Debug` rendering of an event.
pub fn event_text(event: &AppEvent) -> (r: String)
    ensures
        r@ == event_debug(*event),
{
    match event {
        AppEvent::ToggleRecording => String::from_str("ToggleRecording"),
        AppEvent::TranscriptionComplete(t) => {
            let mut r = String::from_str("TranscriptionComplete(");
            r.append(debug_quoted(t.as_str()).as_str());
            r.append(")");
            r
        },
        AppEvent::TranscriptionFailed(t) => {
            let mut r = String::from_str("TranscriptionFailed(");
            r.append(debug_quoted(t.as_str()).as_str());
            r.append(")");
            r
        },
    }
}

/// Applies `event` to `state`. Refused pairs give an error that names both.
pub fn transition(state: AppState, event: AppEvent) -> (r: Result<AppState, String>)
    ensures
        match next_state(state, event) {
            Some(s) => r == Ok::<AppState, String>(s),
            None => r matches Err(msg) && msg@ == invalid_transition_text(state, event),
        },
{
    match (state, &event) {
        (AppState::Idle, AppEvent::ToggleRecording) => Ok(AppState::Recording),
        (AppState::Recording, AppEvent::ToggleRecording) => Ok(AppState::Transcribing),
        (AppState::Transcribing, AppEvent::TranscriptionComplete(_)) => Ok(AppState::Idle),
        (AppState::Transcribing, AppEvent::TranscriptionFailed(_)) => Ok(AppState::Idle),
        _ => {
            let mut msg = String::from_str("Invalid transition: ");
            msg.append(state_name(&state));
            msg.append(" + ");
            msg.append(event_text(&event).as_str());
            Err(msg)
        },
    }
}

/// The state that follows `state` in the cycle `Idle -> Recording -> Transcribing -> Idle`.
pub open spec fn cycle_successor(state: AppState) -> AppState {
    match state {
        AppState::Idle => AppState::Recording,
        AppState::Recording => AppState::Transcribing,
        AppState::Transcribing => AppState::Idle,
    }
}

/// Every accepted transition moves one step along the cycle
/// `Idle -> Recording -> Transcribing -> Idle`; toggling advances from
/// `Idle` and `Recording`, and only a recognition outcome (completed or
/// failed) leaves `Transcribing`.
pub proof fn lemma_transitions_follow_cycle(state: AppState, event: AppEvent)
    ensures
        next_state(state, event) matches Some(t) ==> t == cycle_successor(state),
        next_state(state, event) is Some <==> (match event {
            AppEvent::ToggleRecording => state != AppState::Transcribing,
            _ => state == AppState::Transcribing,
        }),
{
}

/// Two toggles and a recognition outcome bring the machine from `Idle`
/// back to `Idle`, passing through `Recording` and `Transcribing`.
pub proof fn lemma_full_cycle_returns_to_idle(outcome: AppEvent)
    requires
        !(outcome is ToggleRecording),
    ensures
        next_state(AppState::Idle, AppEvent::ToggleRecording) == Some(AppState::Recording),
        next_state(AppState::Recording, AppEvent::ToggleRecording) == Some(AppState::Transcribing),
        next_state(AppState::Transcribing, outcome) == Some(AppState::Idle),
{
}

} // verus!
