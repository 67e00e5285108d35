use base64::{engine::general_purpose::STANDARD as BASE64, Engine};

use vollminputd::asr::native::{
    bearer_token, build_request_body, recognition_outcome, select_transcript, status_is_success, AsrReply,
    ReplyPayload,
};

const OFFLINE_KEY: &str = "offline-test-key";

fn test_pcm() -> Vec<u8> {
    (0..160u32).map(|i| (i * 7 % 251) as u8).collect()
}

fn assert_wav_contains_pcm(wav: &[u8], pcm: &[u8]) {
    assert_eq!(&wav[0..4], b"RIFF");
    assert_eq!(&wav[8..12], b"WAVE");
    assert_eq!(&wav[12..16], b"fmt ");
    assert_eq!(u16::from_le_bytes(wav[20..22].try_into().unwrap()), 1, "PCM 格式");
    assert_eq!(u16::from_le_bytes(wav[22..24].try_into().unwrap()), 1, "单声道");
    assert_eq!(u32::from_le_bytes(wav[24..28].try_into().unwrap()), 16000, "采样率");
    assert_eq!(u16::from_le_bytes(wav[34..36].try_into().unwrap()), 16, "位深");
    assert_eq!(&wav[36..40], b"data");
    let data_len = u32::from_le_bytes(wav[40..44].try_into().unwrap()) as usize;
    assert_eq!(data_len, pcm.len());
    assert_eq!(&wav[44..44 + pcm.len()], pcm, "WAV 载荷应与原始 PCM 一致");
}

fn reply(text: Option<&str>, output_text: Option<&str>, rendered: &str) -> AsrReply {
    AsrReply {
        text: text.map(str::to_string),
        output_text: output_text.map(str::to_string),
        rendered: rendered.to_string(),
    }
}

#[test]
fn test_native_posts_wav_and_returns_top_level_text() {
    let pcm = test_pcm();
    let body = build_request_body("qwen-audio-3.0-asr-flash", &pcm);
    let body_json: serde_json::Value = serde_json::from_str(&body).expect("请求体应为 JSON");
    assert_eq!(body_json["model"], "qwen-audio-3.0-asr-flash");
    assert_eq!(body_json["parameters"]["format"], "wav");
    assert_eq!(body_json["parameters"]["sample_rate"], "16000");
    assert_eq!(body_json["input"]["messages"][0]["role"], "user");
    let content = body_json["input"]["messages"][0]["content"].as_array().expect("content 应为数组");
    assert_eq!(content.len(), 1, "应只有音频内容块");
    assert_eq!(content[0]["type"], "input_audio");
    let data_url = content[0]["input_audio"]["data"].as_str().expect("data url");
    let b64 = data_url.strip_prefix("data:audio/wav;base64,").expect("data url 前缀");
    let wav = BASE64.decode(b64).expect("合法 base64");
    assert_wav_contains_pcm(&wav, &pcm);
    assert_eq!(bearer_token(OFFLINE_KEY), format!("Bearer {OFFLINE_KEY}"));

    let result = recognition_outcome(ReplyPayload::Decoded(reply(
        Some("明天天气很好。"),
        Some("明天天气很好。"),
        "{}",
    )));
    assert_eq!(result, Ok("明天天气很好。".to_string()));
}

#[test]
fn request_body_is_compact_sorted_json() {
    let body = build_request_body("m\"1", &[]);
    let wav = vollminputd::audio::pcm_to_wav(&[], 16000, 1);
    let expected = format!(
        "{{\"input\":{{\"messages\":[{{\"content\":[{{\"input_audio\":{{\"data\":\"data:audio/wav;base64,{}\"}},\"type\":\"input_audio\"}}],\"role\":\"user\"}}]}},\"model\":\"m\\\"1\",\"parameters\":{{\"format\":\"wav\",\"sample_rate\":\"16000\"}}}}",
        BASE64.encode(&wav)
    );
    assert_eq!(body, expected);
}

#[test]
fn test_native_output_text_fallback() {
    let r = select_transcript(reply(None, Some("回退文本"), "{}"));
    assert_eq!(r, Ok("回退文本".to_string()));
}

#[test]
fn test_native_empty_text_is_empty_success() {
    let result = recognition_outcome(ReplyPayload::Decoded(reply(Some(""), Some(""), "{}")));
    assert!(result.unwrap().is_empty(), "空转录应返回 Ok(\"\") 以与应用失败路径一致");
}

#[test]
fn test_native_http_401_is_error() {
    assert!(!status_is_success(401));
    let err = recognition_outcome(ReplyPayload::Failure {
        status: "401 Unauthorized".to_string(),
        body: r#"{"error":{"message":"invalid key"}}"#.to_string(),
    })
    .expect_err("401 应返回错误");
    assert!(err.contains("401"), "错误应包含状态码: {err}");
    assert!(err.contains("invalid key"), "错误应包含响应体: {err}");
}

#[test]
fn test_native_http_rate_limit_and_unavailable_are_errors() {
    for (code, status, body) in [
        (429u16, "429 Too Many Requests", "rate limited"),
        (503u16, "503 Service Unavailable", "server busy"),
    ] {
        assert!(!status_is_success(code));
        let payload = format!(r#"{{"error":{{"message":"{body}"}}}}"#);
        let err = recognition_outcome(ReplyPayload::Failure { status: status.to_string(), body: payload })
            .expect_err("非 2xx 应返回错误");
        assert!(err.contains(&code.to_string()), "错误应包含状态码: {err}");
        assert!(err.contains(body), "错误应包含响应体: {err}");
    }
    assert!(status_is_success(200));
    assert!(status_is_success(299));
    assert!(!status_is_success(300));
    assert!(!status_is_success(199));
}

#[test]
fn test_native_malformed_json_response_is_error() {
    let err = recognition_outcome(ReplyPayload::Malformed("error decoding response body".to_string()))
        .expect_err("畸形响应应返回错误");
    assert!(err.contains("解析"), "错误应说明解析失败: {}", err);
}

#[test]
fn test_native_missing_text_schema_is_error() {
    let err = recognition_outcome(ReplyPayload::Decoded(reply(None, None, "{}"))).expect_err("缺少文本字段的响应应返回错误");
    assert!(err.contains("文本字段"), "{}", err);
    assert_eq!(err, "响应缺少识别文本字段: {}");
}
