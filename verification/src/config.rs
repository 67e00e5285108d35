use vstd::prelude::*;
use vstd::string::StringExecFns;

use crate::asr::native::{DEFAULT_ASR_ENDPOINT, DEFAULT_ASR_MODEL};
use crate::text::{opt_chars, parse_unsigned, parse_unsigned_text, trim_text, trimmed};

verus! {

/// The daemon's settings.
#[derive(Debug, Clone, PartialEq)]
pub struct Config {
    pub dashscope_api_key: String,
    pub max_recording_seconds: u64,
    pub audio_sample_rate: u32,
    pub audio_channels: u16,
    /// The recognition service's full endpoint URL.
    pub asr_endpoint: String,
    /// The recognition model's name.
    pub asr_model: String,
}

/// The raw values of the settings' environment variables; `None` where a
/// variable is unset.
pub struct EnvValues {
    pub dashscope_api_key: Option<String>,
    pub max_recording_seconds: Option<String>,
    pub audio_sample_rate: Option<String>,
    pub audio_channels: Option<String>,
    pub asr_endpoint: Option<String>,
    pub asr_model: Option<String>,
}

/// A number setting: the value when it parses as a number of at most `max`,
/// else `default`.
pub open spec fn number_setting(v: Option<Seq<char>>, max: int, default: int) -> int {
    match v {
        Some(s) => match parse_unsigned(s, max) {
            Some(x) => x,
            None => default,
        },
        None => default,
    }
}

/// A text setting: the value without surrounding whitespace, else `default`
/// when that is empty or the variable is unset.
pub open spec fn text_setting(v: Option<Seq<char>>, default: Seq<char>) -> Seq<char> {
    match v {
        Some(s) => if trimmed(s).len() > 0 {
            trimmed(s)
        } else {
            default
        },
        None => default,
    }
}

/// The error when the API key is unset.
pub open spec fn missing_key_text() -> Seq<char> {
    "环境变量 VOLLMINPUTD_DASHSCOPE_API_KEY 未设置"@
}

fn number_or(v: &Option<String>, max: u64, default: u64) -> (r: u64)
    requires
        default <= max,
    ensures
        r == number_setting(opt_chars(*v), max as int, default as int),
        r <= max,
{
    match v {
        Some(s) => match parse_unsigned_text(s.as_str(), max) {
            Some(x) => x,
            None => default,
        },
        None => default,
    }
}

fn text_or(v: &Option<String>, default: &str) -> (r: String)
    ensures
        r@ == text_setting(opt_chars(*v), default@),
{
    match v {
        Some(s) => {
            let t = trim_text(s.as_str());
            if t.as_str().unicode_len() > 0 {
                t
            } else {
                String::from_str(default)
            }
        },
        None => String::from_str(default),
    }
}

impl Config {
    /// The settings from the environment's values: the API key is required;
    /// the recording limit (default 60 s), sample rate (default 16000) and
    /// channel count (default 1) fall back to their defaults when unset or
    /// not a number of their type; the endpoint and model are trimmed and
    /// fall back to their defaults when unset or blank.
    pub fn from_values(values: &EnvValues) -> (r: Result<Config, String>)
        ensures
            match r {
                Ok(c) => {
                    &&& values.dashscope_api_key matches Some(k) && c.dashscope_api_key@ == k@
                    &&& c.max_recording_seconds == number_setting(opt_chars(values.max_recording_seconds), u64::MAX as int, 60)
                    &&& c.audio_sample_rate == number_setting(opt_chars(values.audio_sample_rate), u32::MAX as int, 16000)
                    &&& c.audio_channels == number_setting(opt_chars(values.audio_channels), u16::MAX as int, 1)
                    &&& c.asr_endpoint@ == text_setting(opt_chars(values.asr_endpoint), DEFAULT_ASR_ENDPOINT@)
                    &&& c.asr_model@ == text_setting(opt_chars(values.asr_model), DEFAULT_ASR_MODEL@)
                },
                Err(msg) => values.dashscope_api_key is None && msg@ == missing_key_text(),
            },
    {
        let key = match &values.dashscope_api_key {
            Some(k) => k.clone(),
            None => {
                return Err(String::from_str("环境变量 VOLLMINPUTD_DASHSCOPE_API_KEY 未设置"));
            },
        };
        let max_recording_seconds = number_or(&values.max_recording_seconds, u64::MAX, 60);
        let audio_sample_rate = number_or(&values.audio_sample_rate, 4294967295, 16000) as u32;
        let audio_channels = number_or(&values.audio_channels, 65535, 1) as u16;
        let asr_endpoint = text_or(&values.asr_endpoint, DEFAULT_ASR_ENDPOINT);
        let asr_model = text_or(&values.asr_model, DEFAULT_ASR_MODEL);
        Ok(Config {
            dashscope_api_key: key,
            max_recording_seconds,
            audio_sample_rate,
            audio_channels,
            asr_endpoint,
            asr_model,
        })
    }
}

/// A blank endpoint or model setting counts as unset: the default is used.
/// A setting with text keeps that text without its surrounding whitespace.
pub proof fn lemma_text_setting_fallback(v: Seq<char>, default: Seq<char>)
    ensures
        trimmed(v).len() == 0 ==> text_setting(Some(v), default) == default,
        trimmed(v).len() > 0 ==> text_setting(Some(v), default) == trimmed(v),
        text_setting(None, default) == default,
{
}

/// Unset or unreadable numbers fall back to their defaults; readable ones
/// are used as they are.
pub proof fn lemma_number_setting_fallback(v: Option<Seq<char>>, max: int, default: int)
    ensures
        parse_unsigned_or_none(v, max) is None ==> number_setting(v, max, default) == default,
        parse_unsigned_or_none(v, max) matches Some(x) ==> number_setting(v, max, default) == x,
{
}

/// The number a setting's text spells, if any.
pub open spec fn parse_unsigned_or_none(v: Option<Seq<char>>, max: int) -> Option<int> {
    match v {
        Some(s) => parse_unsigned(s, max),
        None => None,
    }
}

} // verus!
