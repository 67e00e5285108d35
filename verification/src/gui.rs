use vstd::prelude::*;
use vstd::string::StringExecFns;

use crate::state::AppState;

verus! {

/// The window's properties, as the view shows them.
pub struct VoiceInputApp {
    current_state: String,
    result_text: String,
    error_message: String,
    recording_seconds: i32,
    visible: bool,
}

/// The window's properties as plain values.
pub struct GuiModel {
    pub current_state: Seq<char>,
    pub result_text: Seq<char>,
    pub error_message: Seq<char>,
    pub recording_seconds: i32,
    pub visible: bool,
}

impl View for VoiceInputApp {
    type V = GuiModel;

    closed spec fn view(&self) -> GuiModel {
        GuiModel {
            current_state: self.current_state@,
            result_text: self.result_text@,
            error_message: self.error_message@,
            recording_seconds: self.recording_seconds,
            visible: self.visible,
        }
    }
}

impl VoiceInputApp {
    /// The state shown.
    pub fn get_current_state(&self) -> (r: String)
        ensures
            r@ == self@.current_state,
    {
        self.current_state.clone()
    }

    /// The recognised text shown.
    pub fn get_result_text(&self) -> (r: String)
        ensures
            r@ == self@.result_text,
    {
        self.result_text.clone()
    }

    /// The error message shown.
    pub fn get_error_message(&self) -> (r: String)
        ensures
            r@ == self@.error_message,
    {
        self.error_message.clone()
    }

    /// The recording time shown, in seconds.
    pub fn get_recording_seconds(&self) -> (r: i32)
        ensures
            r == self@.recording_seconds,
    {
        self.recording_seconds
    }

    /// Whether the window is shown.
    pub fn is_visible(&self) -> (r: bool)
        ensures
            r == self@.visible,
    {
        self.visible
    }
}

/// The name under which the view shows a state.
pub open spec fn state_label(state: AppState) -> Seq<char> {
    match state {
        AppState::Idle => "idle"@,
        AppState::Recording => "recording"@,
        AppState::Transcribing => "transcribing"@,
    }
}

/// The voice input window.
pub struct VoiceInputGui {
    app: VoiceInputApp,
}

impl VoiceInputGui {
    /// The window's properties.
    pub closed spec fn model(&self) -> GuiModel {
        self.app@
    }

    /// A hidden window showing nothing yet.
    pub fn new() -> (r: Result<Self, String>)
        ensures
            r matches Ok(g) && g.model() == (GuiModel {
                current_state: Seq::empty(),
                result_text: Seq::empty(),
                error_message: Seq::empty(),
                recording_seconds: 0,
                visible: false,
            }),
    {
        Ok(VoiceInputGui {
            app: VoiceInputApp {
                current_state: String::new(),
                result_text: String::new(),
                error_message: String::new(),
                recording_seconds: 0,
                visible: false,
            },
        })
    }

    /// Shows the window. Where the toolkit places it on screen is its own
    /// (floating-point) affair and is not part of the view model.
    pub fn show(&mut self) -> (r: Result<(), String>)
        ensures
            r is Ok,
            final(self).model() == (GuiModel { visible: true, ..old(self).model() }),
    {
        self.app.visible = true;
        Ok(())
    }

    /// Hides the window.
    pub fn hide_window(&mut self)
        ensures
            final(self).model() == (GuiModel { visible: false, ..old(self).model() }),
    {
        self.app.visible = false;
    }

    /// Shows `state`.
    pub fn update_state(&mut self, state: &AppState)
        ensures
            final(self).model() == (GuiModel { current_state: state_label(*state), ..old(self).model() }),
    {
        let label = match state {
            AppState::Idle => "idle",
            AppState::Recording => "recording",
            AppState::Transcribing => "transcribing",
        };
        self.app.current_state = String::from_str(label);
    }

    /// Shows the recognised text.
    pub fn set_result_text(&mut self, text: &str)
        ensures
            final(self).model() == (GuiModel { result_text: text@, ..old(self).model() }),
    {
        self.app.result_text = String::from_str(text);
    }

    /// Shows an error message.
    pub fn set_error_message(&mut self, msg: &str)
        ensures
            final(self).model() == (GuiModel { error_message: msg@, ..old(self).model() }),
    {
        self.app.error_message = String::from_str(msg);
    }

    /// Shows the recording time; the view holds it as an `i32`, so the
    /// count is truncated to 32 bits.
    pub fn set_recording_duration(&mut self, seconds: u64)
        ensures
            final(self).model() == (GuiModel { recording_seconds: seconds as i32, ..old(self).model() }),
    {
        self.app.recording_seconds = seconds as i32;
    }

    /// The window's properties.
    pub fn app(&self) -> (r: &VoiceInputApp)
        ensures
            r@ == self.model(),
    {
        &self.app
    }
}

} // verus!
