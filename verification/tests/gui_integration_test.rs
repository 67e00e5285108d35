use vollminputd::gui::VoiceInputGui;
use vollminputd::state::AppState;

#[test]
fn test_gui_creation_and_state_display() {
    let mut gui = VoiceInputGui::new().unwrap();

    gui.update_state(&AppState::Idle);
    assert_eq!(gui.app().get_current_state(), "idle");

    gui.update_state(&AppState::Recording);
    assert_eq!(gui.app().get_current_state(), "recording");

    gui.update_state(&AppState::Transcribing);
    assert_eq!(gui.app().get_current_state(), "transcribing");
}

#[test]
fn test_gui_result_text() {
    let mut gui = VoiceInputGui::new().unwrap();

    gui.set_result_text("你好世界");
    assert_eq!(gui.app().get_result_text(), "你好世界");
}

#[test]
fn test_gui_error_message() {
    let mut gui = VoiceInputGui::new().unwrap();

    gui.set_error_message("网络超时");
    assert_eq!(gui.app().get_error_message(), "网络超时");
}

#[test]
fn test_gui_recording_duration() {
    let mut gui = VoiceInputGui::new().unwrap();

    gui.set_recording_duration(42);
    assert_eq!(gui.app().get_recording_seconds(), 42);
}

#[test]
fn gui_duration_truncates_and_hide_keeps_text() {
    let mut gui = VoiceInputGui::new().unwrap();
    gui.set_recording_duration(u32::MAX as u64 + 6);
    assert_eq!(gui.app().get_recording_seconds(), 5);
    gui.set_result_text("x");
    gui.show().unwrap();
    assert!(gui.app().is_visible());
    gui.hide_window();
    assert!(!gui.app().is_visible());
    assert_eq!(gui.app().get_result_text(), "x");
}
