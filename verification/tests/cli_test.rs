use vollminputd::audio::InputDeviceInfo;
use vollminputd::cli::{device_listing, help_text, parse_startup_action, StartupAction};

fn args(list: &[&str]) -> Vec<String> {
    list.iter().map(|s| s.to_string()).collect()
}

#[test]
fn no_arguments_prints_input_device_listing_help() {
    match parse_startup_action(&[]) {
        StartupAction::Exit { code, error, show_help } => {
            assert_eq!(code, 1);
            assert!(error.is_none());
            assert!(show_help);
        }
        _ => panic!("expected exit"),
    }
    let stderr = help_text("vollminputd");
    assert!(stderr.contains("--instance <NAME>"));
    assert!(stderr.contains("--list-input-devices"));
    assert!(stderr.contains("列出可选的音频输入设备"));
}

#[test]
fn help_flag_prints_help_successfully() {
    for flag in ["--help", "-h"] {
        match parse_startup_action(&args(&[flag])) {
            StartupAction::Exit { code, error, show_help } => {
                assert_eq!(code, 0);
                assert!(error.is_none());
                assert!(show_help);
            }
            _ => panic!("expected exit"),
        }
    }
    assert!(help_text("p").contains("--list-input-devices"));
    assert!(help_text("p").starts_with("Usage:\n  p --instance <NAME>\n  p --list-input-devices\n"));
}

#[test]
fn startup_actions() {
    assert!(matches!(parse_startup_action(&args(&["--list-input-devices"])), StartupAction::ListInputDevices));
    assert!(matches!(parse_startup_action(&args(&["--instance", "a"])), StartupAction::Run(n) if n == "a"));
    assert!(matches!(parse_startup_action(&args(&["x", "--instance", "b", "--instance", "c"])), StartupAction::Run(n) if n == "b"));
    assert!(matches!(
        parse_startup_action(&args(&["--instance"])),
        StartupAction::Exit { code: 1, error: Some(e), show_help: true } if e == "[ERROR] --instance 缺少值"
    ));
    assert!(matches!(
        parse_startup_action(&args(&["--instance", "a/b"])),
        StartupAction::Exit { code: 1, error: Some(e), show_help: false } if e == "[ERROR] 实例名不能包含 '/'"
    ));
    assert!(matches!(
        parse_startup_action(&args(&["other"])),
        StartupAction::Exit { code: 1, error: None, show_help: true }
    ));
    assert!(matches!(parse_startup_action(&args(&["x", "--help"])), StartupAction::Exit { code: 1, .. }));
}

#[test]
fn device_listing_text() {
    assert_eq!(device_listing(&[]), "没有发现音频输入设备\n");
    let devices = vec![
        InputDeviceInfo { id: Some("hw:0".to_string()), name: "Mic".to_string(), is_default: true },
        InputDeviceInfo { id: None, name: "Other".to_string(), is_default: false },
    ];
    assert_eq!(
        device_listing(&devices),
        "可用的音频输入设备：\n- Mic [默认]\n  ID: hw:0\n- Other\n  ID: 不可用\n\n通过 VOLLMINPUTD_AUDIO_DEVICE=<设备 ID 或完整名称> 选择麦克风。\n"
    );
}
