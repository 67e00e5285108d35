use vollminputd::asr::native::{DEFAULT_ASR_ENDPOINT, DEFAULT_ASR_MODEL};
use vollminputd::config::{Config, EnvValues};

fn values(key: Option<&str>) -> EnvValues {
    EnvValues {
        dashscope_api_key: key.map(str::to_string),
        max_recording_seconds: None,
        audio_sample_rate: None,
        audio_channels: None,
        asr_endpoint: None,
        asr_model: None,
    }
}

#[test]
fn test_load_full_config() {
    let mut v = values(Some("test-key"));
    v.max_recording_seconds = Some("120".to_string());
    v.audio_sample_rate = Some("44100".to_string());
    v.audio_channels = Some("2".to_string());
    v.asr_endpoint = Some("http://127.0.0.1:18903/generation".to_string());
    v.asr_model = Some("custom-asr-model".to_string());

    let config = Config::from_values(&v).unwrap();
    assert_eq!(config.dashscope_api_key, "test-key");
    assert_eq!(config.max_recording_seconds, 120);
    assert_eq!(config.audio_sample_rate, 44100);
    assert_eq!(config.audio_channels, 2);
    assert_eq!(config.asr_endpoint, "http://127.0.0.1:18903/generation");
    assert_eq!(config.asr_model, "custom-asr-model");
}

#[test]
fn test_load_minimal_config() {
    let config = Config::from_values(&values(Some("minimal-key"))).unwrap();
    assert_eq!(config.dashscope_api_key, "minimal-key");
    assert_eq!(config.max_recording_seconds, 60);
    assert_eq!(config.audio_sample_rate, 16000);
    assert_eq!(config.audio_channels, 1);
    assert_eq!(config.asr_endpoint, DEFAULT_ASR_ENDPOINT);
    assert_eq!(config.asr_model, DEFAULT_ASR_MODEL);
}

#[test]
fn test_missing_api_key_returns_error() {
    let result = Config::from_values(&values(None));
    assert!(result.is_err());
    let err_msg = result.unwrap_err().to_string();
    assert!(err_msg.contains("VOLLMINPUTD_DASHSCOPE_API_KEY"));
}

#[test]
fn test_partial_config_with_defaults() {
    let mut v = values(Some("partial-key"));
    v.max_recording_seconds = Some("90".to_string());

    let config = Config::from_values(&v).unwrap();
    assert_eq!(config.dashscope_api_key, "partial-key");
    assert_eq!(config.max_recording_seconds, 90);
    assert_eq!(config.audio_sample_rate, 16000);
    assert_eq!(config.audio_channels, 1);
    assert_eq!(config.asr_endpoint, DEFAULT_ASR_ENDPOINT);
    assert_eq!(config.asr_model, DEFAULT_ASR_MODEL);
}

#[test]
fn test_asr_endpoint_blank_falls_back_to_default() {
    let mut v = values(Some("test-key"));
    v.asr_endpoint = Some("   ".to_string());

    let config = Config::from_values(&v).unwrap();
    assert_eq!(config.asr_endpoint, DEFAULT_ASR_ENDPOINT);
}

#[test]
fn test_asr_model_blank_falls_back_to_default() {
    let mut v = values(Some("test-key"));
    v.asr_model = Some("  ".to_string());

    let config = Config::from_values(&v).unwrap();
    assert_eq!(config.asr_model, DEFAULT_ASR_MODEL);
}

#[test]
fn test_default_constants_match_verified_service() {
    assert_eq!(DEFAULT_ASR_ENDPOINT, "https://llm-y3exskfcgxgxzn23.cn-beijing.maas.aliyuncs.com/api/v1/services/aigc/multimodal-generation/generation");
    assert_eq!(DEFAULT_ASR_MODEL, "qwen-audio-3.0-asr-flash");
}

#[test]
fn numbers_that_do_not_parse_fall_back() {
    let mut v = values(Some("k"));
    v.max_recording_seconds = Some("-5".to_string());
    v.audio_sample_rate = Some("4294967296".to_string());
    v.audio_channels = Some("+2".to_string());
    let config = Config::from_values(&v).unwrap();
    assert_eq!(config.max_recording_seconds, 60);
    assert_eq!(config.audio_sample_rate, 16000);
    assert_eq!(config.audio_channels, 2);

    v.audio_channels = Some("65536".to_string());
    v.max_recording_seconds = Some(" 7".to_string());
    let config = Config::from_values(&v).unwrap();
    assert_eq!(config.audio_channels, 1);
    assert_eq!(config.max_recording_seconds, 60);
}

#[test]
fn text_settings_are_trimmed() {
    let mut v = values(Some(" key "));
    v.asr_model = Some("  my-model\n".to_string());
    let config = Config::from_values(&v).unwrap();
    assert_eq!(config.asr_model, "my-model");
    assert_eq!(config.dashscope_api_key, " key ");
}
