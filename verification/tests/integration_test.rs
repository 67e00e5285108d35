use vollminputd::app::{clipboard_effects, recognition_event, SideEffect, Step, VollminputdApp};
use vollminputd::state::{AppEvent, AppState};

/// Stand-ins for the audio device, the clipboard and the recogniser.
struct Outside {
    start: Result<(), String>,
    stop: Result<Vec<u8>, String>,
    copy: Result<(), String>,
    recognised: Result<String, String>,
    copied: Vec<String>,
    now_ns: u64,
}

impl Outside {
    fn new() -> Self {
        Outside {
            start: Ok(()),
            stop: Ok(vec![1u8; 100]),
            copy: Ok(()),
            recognised: Ok("你好".to_string()),
            copied: Vec::new(),
            now_ns: 0,
        }
    }
}

fn handle(app: &mut VollminputdApp, event: AppEvent, out: &mut Outside) -> Vec<SideEffect> {
    match app.handle_event(event) {
        Step::Done(effects) => effects,
        Step::Refused(_) => Vec::new(),
        Step::StartCapture => {
            let outcome = out.start.clone().map(|_| None);
            app.capture_started(outcome, out.now_ns)
        }
        Step::StopCapture => app.capture_stopped(out.stop.clone()),
        Step::CopyText(text) => {
            out.copied.push(text.clone());
            clipboard_effects(text, out.copy.clone())
        }
    }
}

fn process_asr_request(app: &mut VollminputdApp, effects: &[SideEffect], out: &mut Outside) -> Vec<SideEffect> {
    for effect in effects {
        if let SideEffect::RequestAsr { .. } = effect {
            let event = recognition_event(out.recognised.clone());
            return handle(app, event, out);
        }
    }
    vec![]
}

fn has_notify(effects: &[SideEffect], wanted: &str) -> bool {
    effects.iter().any(|e| matches!(e, SideEffect::Notify { title, .. } if title == wanted))
}

#[test]
fn test_full_flow_toggle_toggle_complete() {
    let mut out = Outside::new();
    let mut app = VollminputdApp::new();

    let effects = handle(&mut app, AppEvent::ToggleRecording, &mut out);
    assert!(effects.contains(&SideEffect::StartAudio));
    assert!(has_notify(&effects, "开始录音"));
    assert_eq!(app.state, AppState::Recording);

    let effects = handle(&mut app, AppEvent::ToggleRecording, &mut out);
    assert!(effects.contains(&SideEffect::StopAudio));
    assert!(has_notify(&effects, "开始识别"));
    assert_eq!(app.state, AppState::Transcribing);
    assert!(effects.contains(&SideEffect::RequestAsr { pcm_data: vec![1u8; 100] }));

    let effects = process_asr_request(&mut app, &effects, &mut out);
    assert!(has_notify(&effects, "识别完成"));
    assert_eq!(app.state, AppState::Idle);
    assert_eq!(out.copied, vec!["你好".to_string()]);
}

#[test]
fn test_transcription_failed() {
    let mut out = Outside::new();
    out.recognised = Err("网络超时".to_string());
    let mut app = VollminputdApp::new();

    handle(&mut app, AppEvent::ToggleRecording, &mut out);
    let effects = handle(&mut app, AppEvent::ToggleRecording, &mut out);
    let effects = process_asr_request(&mut app, &effects, &mut out);

    assert_eq!(app.state, AppState::Idle);
    assert!(has_notify(&effects, "识别失败"));
    assert_eq!(
        effects,
        vec![SideEffect::Notify {
            title: "识别失败".to_string(),
            body: "识别失败: 网络超时".to_string(),
            timeout_secs: 5,
        }]
    );
}

#[test]
fn test_audio_start_failure() {
    let mut out = Outside::new();
    out.start = Err("设备被占用".to_string());
    let mut app = VollminputdApp::new();

    let effects = handle(&mut app, AppEvent::ToggleRecording, &mut out);
    assert_eq!(app.state, AppState::Idle);
    assert!(has_notify(&effects, "录音失败"));
}

#[test]
fn test_audio_stop_failure() {
    let mut out = Outside::new();
    out.stop = Err("设备断开".to_string());
    let mut app = VollminputdApp::new();

    handle(&mut app, AppEvent::ToggleRecording, &mut out);
    let effects = handle(&mut app, AppEvent::ToggleRecording, &mut out);

    assert_eq!(app.state, AppState::Idle);
    assert!(has_notify(&effects, "录音失败"));
}

#[test]
fn integration_test_test_empty_recognition_result() {
    let mut out = Outside::new();
    out.recognised = Ok(String::new());
    let mut app = VollminputdApp::new();

    handle(&mut app, AppEvent::ToggleRecording, &mut out);
    let effects = handle(&mut app, AppEvent::ToggleRecording, &mut out);
    let effects = process_asr_request(&mut app, &effects, &mut out);

    assert_eq!(app.state, AppState::Idle);
    assert!(has_notify(&effects, "识别失败"));
    assert!(out.copied.is_empty());
}

#[test]
fn test_poll_recording_max_seconds_zero_triggers_timeout() {
    let mut out = Outside::new();
    let mut app = VollminputdApp::new();

    handle(&mut app, AppEvent::ToggleRecording, &mut out);
    assert_eq!(app.state, AppState::Recording);

    let (effects, timeout) = app.poll_recording(out.now_ns, 0, None);
    assert!(timeout, "max_seconds=0 应立即触发超时");
    assert!(has_notify(&effects, "录音中"));

    let effects = handle(&mut app, AppEvent::ToggleRecording, &mut out);
    assert_eq!(app.state, AppState::Transcribing);
    assert!(effects.contains(&SideEffect::StopAudio));
    assert!(effects.iter().any(|e| matches!(e, SideEffect::RequestAsr { .. })));
}

#[test]
fn test_poll_recording_no_timeout_right_after_start() {
    let mut out = Outside::new();
    let mut app = VollminputdApp::new();

    handle(&mut app, AppEvent::ToggleRecording, &mut out);

    let (effects, timeout) = app.poll_recording(out.now_ns, 60, None);
    assert!(!timeout, "刚录音 0 秒不应超时");
    assert!(has_notify(&effects, "录音中"));
}

#[test]
fn test_poll_recording_ignores_when_not_recording() {
    let mut app = VollminputdApp::new();

    let (effects, timeout) = app.poll_recording(5_000, 60, None);
    assert!(!timeout);
    assert!(effects.is_empty());
}

#[test]
fn poll_reports_each_second_once_with_exact_text() {
    let mut out = Outside::new();
    out.now_ns = 1_000_000_000;
    let mut app = VollminputdApp::new();
    handle(&mut app, AppEvent::ToggleRecording, &mut out);

    let (effects, timeout) = app.poll_recording(3_500_000_000, 60, Some("USB Mic".to_string()));
    assert!(!timeout);
    assert_eq!(
        effects,
        vec![SideEffect::Notify {
            title: "录音中".to_string(),
            body: "已录制 2 秒 (USB Mic)".to_string(),
            timeout_secs: 1,
        }]
    );
    let (effects, timeout) = app.poll_recording(3_900_000_000, 60, Some("USB Mic".to_string()));
    assert!(effects.is_empty());
    assert!(!timeout);
    let (effects, timeout) = app.poll_recording(61_000_000_000, 60, None);
    assert!(timeout);
    assert_eq!(
        effects,
        vec![SideEffect::Notify {
            title: "录音中".to_string(),
            body: "已录制 60 秒 (未知设备)".to_string(),
            timeout_secs: 1,
        }]
    );
    // A clock that reads earlier than the start counts as zero seconds.
    let (effects, _) = app.poll_recording(0, 60, None);
    assert_eq!(effects.len(), 1);
}

#[test]
fn start_notification_names_the_device() {
    let mut app = VollminputdApp::new();
    assert!(matches!(app.handle_event(AppEvent::ToggleRecording), Step::StartCapture));
    let effects = app.capture_started(Ok(Some("Mic".to_string())), 0);
    assert_eq!(
        effects,
        vec![
            SideEffect::StartAudio,
            SideEffect::Notify {
                title: "开始录音".to_string(),
                body: "正在使用 Mic 录音，请说话...".to_string(),
                timeout_secs: 5,
            },
        ]
    );
}

#[test]
fn refused_event_has_no_effects() {
    let mut app = VollminputdApp::new();
    match app.handle_event(AppEvent::TranscriptionComplete("x".to_string())) {
        Step::Refused(why) => assert_eq!(why, "Invalid transition: Idle + TranscriptionComplete(\"x\")"),
        _ => panic!("expected a refusal"),
    }
    assert_eq!(app.state, AppState::Idle);
}

#[test]
fn clipboard_failure_is_reported() {
    let effects = clipboard_effects("hi".to_string(), Err("wl-copy not found".to_string()));
    assert_eq!(
        effects,
        vec![SideEffect::Notify {
            title: "剪贴板错误".to_string(),
            body: "无法复制: wl-copy not found".to_string(),
            timeout_secs: 5,
        }]
    );
    let effects = clipboard_effects("hi".to_string(), Ok(()));
    assert_eq!(
        effects,
        vec![SideEffect::Notify { title: "识别完成".to_string(), body: "hi".to_string(), timeout_secs: 10 }]
    );
}

#[test]
fn recognition_results_become_events() {
    assert_eq!(recognition_event(Ok("好".to_string())), AppEvent::TranscriptionComplete("好".to_string()));
    assert_eq!(recognition_event(Ok(String::new())), AppEvent::TranscriptionFailed("未检测到语音".to_string()));
    assert_eq!(
        recognition_event(Err("timeout".to_string())),
        AppEvent::TranscriptionFailed("识别失败: timeout".to_string())
    );
}

#[test]
fn tick_after_failed_stop_does_nothing() {
    let mut out = Outside::new();
    out.stop = Err("设备断开".to_string());
    let mut app = VollminputdApp::new();
    handle(&mut app, AppEvent::ToggleRecording, &mut out);
    handle(&mut app, AppEvent::ToggleRecording, &mut out);
    assert_eq!(app.state, AppState::Idle);
    assert!(!app.will_report(100_000_000_000));
    let (effects, event) = app.poll_event(100_000_000_000, 0, None);
    assert!(effects.is_empty());
    assert_eq!(event, None);
    assert_eq!(app.state, AppState::Idle);
}

#[test]
fn poll_after_failed_stop_keeps_the_start_time() {
    let mut out = Outside::new();
    out.stop = Err("设备断开".to_string());
    let mut app = VollminputdApp::new();
    handle(&mut app, AppEvent::ToggleRecording, &mut out);
    handle(&mut app, AppEvent::ToggleRecording, &mut out);
    assert_eq!(app.state, AppState::Idle);
    let (effects, timeout) = app.poll_recording(100_000_000_000, 60, None);
    assert!(timeout);
    assert_eq!(
        effects,
        vec![SideEffect::Notify { title: "录音中".to_string(), body: "已录制 100 秒 (未知设备)".to_string(), timeout_secs: 1 }]
    );
}

#[test]
fn poll_event_turns_timeout_into_toggle() {
    let mut out = Outside::new();
    let mut app = VollminputdApp::new();
    handle(&mut app, AppEvent::ToggleRecording, &mut out);
    assert_eq!(app.current_state(), AppState::Recording);
    assert!(app.will_report(0));
    let (effects, event) = app.poll_event(0, 60, None);
    assert_eq!(effects.len(), 1);
    assert_eq!(event, None);
    assert!(!app.will_report(500_000_000));
    let (effects, event) = app.poll_event(60_000_000_000, 60, Some("Mic".to_string()));
    assert_eq!(event, Some(AppEvent::ToggleRecording));
    assert_eq!(
        effects,
        vec![SideEffect::Notify { title: "录音中".to_string(), body: "已录制 60 秒 (Mic)".to_string(), timeout_secs: 1 }]
    );
}

fn starts_audio(effects: &[SideEffect]) -> bool {
    effects.iter().any(|e| matches!(e, SideEffect::StartAudio))
}

fn requests_recognition(effects: &[SideEffect]) -> bool {
    effects.iter().any(|e| matches!(e, SideEffect::RequestAsr { .. }))
}

#[test]
fn event_round_follows_the_table_or_falls_back_to_idle() {
    // Idle + toggle: Recording when the device starts, Idle when it fails.
    for start_ok in [true, false] {
        let mut out = Outside::new();
        if !start_ok {
            out.start = Err("busy".to_string());
        }
        let mut app = VollminputdApp::new();
        let effects = handle(&mut app, AppEvent::ToggleRecording, &mut out);
        let expected = if start_ok { AppState::Recording } else { AppState::Idle };
        assert_eq!(app.state, expected);
        assert_eq!(starts_audio(&effects), start_ok);
        assert!(!requests_recognition(&effects));
    }
    // Recording + toggle: Transcribing when the device stops, Idle when it fails;
    // the audio handed over is the one the device gave.
    for stop_ok in [true, false] {
        let mut out = Outside::new();
        if !stop_ok {
            out.stop = Err("gone".to_string());
        }
        let mut app = VollminputdApp::new();
        handle(&mut app, AppEvent::ToggleRecording, &mut out);
        let effects = handle(&mut app, AppEvent::ToggleRecording, &mut out);
        let expected = if stop_ok { AppState::Transcribing } else { AppState::Idle };
        assert_eq!(app.state, expected);
        assert!(!starts_audio(&effects));
        assert_eq!(requests_recognition(&effects), stop_ok);
        if stop_ok {
            assert_eq!(effects.last(), Some(&SideEffect::RequestAsr { pcm_data: vec![1u8; 100] }));
        }
    }
    // A refused event: nothing changes and nothing is done.
    let mut out = Outside::new();
    let mut app = VollminputdApp::new();
    let effects = handle(&mut app, AppEvent::TranscriptionComplete("x".to_string()), &mut out);
    assert_eq!(app.state, AppState::Idle);
    assert!(effects.is_empty());
}
