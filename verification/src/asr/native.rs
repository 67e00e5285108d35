use base64::Engine;
use vstd::prelude::*;
use vstd::string::StringExecFns;

use crate::audio::{pcm_to_wav, wav_header};
use crate::text::{opt_chars, result_chars};

verus! {

/// The recognition service used when none is configured.
pub const DEFAULT_ASR_ENDPOINT: &'static str = "https://llm-y3exskfcgxgxzn23.cn-beijing.maas.aliyuncs.com/api/v1/services/aigc/multimodal-generation/generation";

/// The recognition model used when none is configured.
pub const DEFAULT_ASR_MODEL: &'static str = "qwen-audio-3.0-asr-flash";

// ---------------------------------------------------------------------------
// Base64 (standard alphabet, padded)
// ---------------------------------------------------------------------------

/// The standard Base64 alphabet: `A-Z`, `a-z`, `0-9`, `+`, `/`.
pub open spec fn b64_char(v: int) -> char {
    if v < 26 {
        (65 + v) as char
    } else if v < 52 {
        (71 + v) as char
    } else if v < 62 {
        (v - 4) as char
    } else if v == 62 {
        '+'
    } else {
        '/'
    }
}

/// Standard Base64 with `=` padding: each group of three bytes becomes four
/// characters of six bits each; a last group of one or two bytes is padded.
pub open spec fn base64_standard(b: Seq<u8>) -> Seq<char>
    decreases b.len(),
{
    let x0 = if b.len() > 0 { b[0] as int } else { 0 };
    let x1 = if b.len() > 1 { b[1] as int } else { 0 };
    let x2 = if b.len() > 2 { b[2] as int } else { 0 };
    if b.len() == 0 {
        Seq::empty()
    } else if b.len() == 1 {
        seq![b64_char(x0 / 4), b64_char((x0 % 4) * 16), '=', '=']
    } else if b.len() == 2 {
        seq![b64_char(x0 / 4), b64_char((x0 % 4) * 16 + x1 / 16), b64_char((x1 % 16) * 4), '=']
    } else {
        seq![
            b64_char(x0 / 4),
            b64_char((x0 % 4) * 16 + x1 / 16),
            b64_char((x1 % 16) * 4 + x2 / 64),
            b64_char(x2 % 64),
        ] + base64_standard(b.skip(3))
    }
}

/// Encodes `bytes` in standard padded Base64.
///
/// Trusted: calls `base64::engine::general_purpose::STANDARD.encode`, which
/// maps each three-byte group to four alphabet characters and pads the last
/// group with `=`; it panics when the output length overflows `usize`,
/// which `requires` rules out.
#[verifier::external_body]
pub(crate) fn base64_encode(bytes: &[u8]) -> (r: String)
    requires
        (bytes@.len() + 2) / 3 * 4 <= usize::MAX,
    ensures
        r@ == base64_standard(bytes@),
{
    base64::engine::general_purpose::STANDARD.encode(bytes)
}

// ---------------------------------------------------------------------------
// JSON string literals
// ---------------------------------------------------------------------------

/// A lower-case hexadecimal digit.
pub open spec fn hex_digit(v: int) -> char {
    if v < 10 {
        (48 + v) as char
    } else {
        (87 + v) as char
    }
}

/// How a character appears inside a JSON string: `"` and `\` are escaped,
/// as are the control characters below U+0020 (by name where JSON has one,
/// else as `\u00XX`); all others stand as they are.
pub open spec fn json_escaped_char(c: char) -> Seq<char> {
    let u = c as u32;
    if c == '"' {
        seq!['\\', '"']
    } else if c == '\\' {
        seq!['\\', '\\']
    } else if u == 8 {
        seq!['\\', 'b']
    } else if u == 9 {
        seq!['\\', 't']
    } else if u == 10 {
        seq!['\\', 'n']
    } else if u == 12 {
        seq!['\\', 'f']
    } else if u == 13 {
        seq!['\\', 'r']
    } else if u < 32 {
        seq!['\\', 'u', '0', '0', hex_digit((u / 16) as int), hex_digit((u % 16) as int)]
    } else {
        seq![c]
    }
}

/// The escaped contents of a JSON string.
pub open spec fn json_escaped(s: Seq<char>) -> Seq<char>
    decreases s.len(),
{
    if s.len() == 0 {
        Seq::empty()
    } else {
        json_escaped(s.drop_last()) + json_escaped_char(s.last())
    }
}

/// `s` as a JSON string literal.
pub open spec fn json_string(s: Seq<char>) -> Seq<char> {
    seq!['"'] + json_escaped(s) + seq!['"']
}

#[verifier::external_type_specification]
#[verifier::external_body]
pub struct ExJsonError(serde_json::Error);

/// Serialises `s` as a JSON string literal.
///
/// Trusted: calls `serde_json::to_string` on a `str`, which writes `s`
/// between quotes with serde_json's escape table (the one `json_escaped_char`
/// states) into a `Vec`; writing to a `Vec` cannot fail, so the result is
/// always `Ok`.
#[verifier::external_body]
fn json_quote(s: &str) -> (r: Result<String, serde_json::Error>)
    ensures
        r is Ok,
        r is Ok ==> r->Ok_0@ == json_string(s@),
{
    serde_json::to_string(s)
}

pub(crate) fn json_text(s: &str) -> (r: String)
    ensures
        r@ == json_string(s@),
{
    match json_quote(s) {
        Ok(t) => t,
        Err(_) => {
            proof {
                assert(false);
            }
            String::new()
        },
    }
}

// ---------------------------------------------------------------------------
// The recognition request
// ---------------------------------------------------------------------------

/// The audio as a `data:` URL: the PCM framed as 16 kHz mono WAV, in Base64.
pub open spec fn audio_data_url(pcm: Seq<u8>) -> Seq<char> {
    "data:audio/wav;base64,"@ + base64_standard(wav_header(pcm.len() as u32, 16000, 1) + pcm)
}

/// The JSON body of a recognition request: one user message holding the
/// audio, the model, and the audio's format (keys in sorted order, as
/// serde_json writes an object).
pub open spec fn request_body(model: Seq<char>, pcm: Seq<u8>) -> Seq<char> {
    "{\"input\":{\"messages\":[{\"content\":[{\"input_audio\":{\"data\":"@ + json_string(
        audio_data_url(pcm),
    ) + "},\"type\":\"input_audio\"}],\"role\":\"user\"}]},\"model\":"@ + json_string(model)
        + ",\"parameters\":{\"format\":\"wav\",\"sample_rate\":\"16000\"}}"@
}

/// Whether `pcm` is small enough to be framed and encoded.
pub open spec fn pcm_fits(pcm: Seq<u8>) -> bool {
    &&& (pcm.len() as u32) + 36 <= u32::MAX
    &&& (pcm.len() + 46) / 3 * 4 <= usize::MAX
}

/// The body of the recognition request for 16-bit, 16 kHz mono `pcm`.
pub fn build_request_body(model: &str, pcm: &[u8]) -> (body: String)
    requires
        pcm_fits(pcm@),
    ensures
        body@ == request_body(model@, pcm@),
{
    let wav = pcm_to_wav(pcm, 16000, 1);
    let mut url = String::from_str("data:audio/wav;base64,");
    url.append(base64_encode(wav.as_slice()).as_str());
    let mut body = String::from_str("{\"input\":{\"messages\":[{\"content\":[{\"input_audio\":{\"data\":");
    body.append(json_text(url.as_str()).as_str());
    body.append("},\"type\":\"input_audio\"}],\"role\":\"user\"}]},\"model\":");
    body.append(json_text(model).as_str());
    body.append(",\"parameters\":{\"format\":\"wav\",\"sample_rate\":\"16000\"}}");
    body
}

/// The `Authorization` header value for an API key.
pub fn bearer_token(api_key: &str) -> (r: String)
    ensures
        r@ == "Bearer "@ + api_key@,
{
    let mut r = String::from_str("Bearer ");
    r.append(api_key);
    r
}

// ---------------------------------------------------------------------------
// The recognition reply
// ---------------------------------------------------------------------------

/// What the logic reads of a decoded reply: the top-level `text` and the
/// `output.text` where each is a string, and the reply rendered as JSON.
pub struct AsrReply {
    pub text: Option<String>,
    pub output_text: Option<String>,
    pub rendered: String,
}

/// What came back from the service.
pub enum ReplyPayload {
    /// A status outside 2xx, with the status line's text and the body.
    Failure { status: String, body: String },
    /// A 2xx reply whose body is not JSON, with the decoder's message.
    Malformed(String),
    /// A 2xx reply decoded as JSON.
    Decoded(AsrReply),
}

/// Whether an HTTP status code means success (2xx).
pub open spec fn is_success_code(code: u16) -> bool {
    200 <= code <= 299
}

/// Whether the service's status code means success (2xx).
pub fn status_is_success(code: u16) -> (r: bool)
    ensures
        r == is_success_code(code),
{
    200 <= code && code <= 299
}

/// The recognised text of a decoded reply: the top-level `text`, else
/// `output.text`; a reply with neither is an error that shows the reply.
pub open spec fn transcript_of(text: Option<Seq<char>>, output_text: Option<Seq<char>>, rendered: Seq<char>) -> Result<Seq<char>, Seq<char>> {
    match text {
        Some(t) => Ok(t),
        None => match output_text {
            Some(t) => Ok(t),
            None => Err("响应缺少识别文本字段: "@ + rendered),
        },
    }
}

/// What the recognition gives for a reply: a non-2xx status is an error
/// with the status and the body, an undecodable body an error with the
/// decoder's message, and a decoded reply its transcript.
pub open spec fn outcome_of(payload: ReplyPayload) -> Result<Seq<char>, Seq<char>> {
    match payload {
        ReplyPayload::Failure { status, body } => Err("ASR API 错误 ["@ + status@ + "]: "@ + body@),
        ReplyPayload::Malformed(e) => Err("解析响应失败: "@ + e@),
        ReplyPayload::Decoded(reply) => transcript_of(opt_chars(reply.text), opt_chars(reply.output_text), reply.rendered@),
    }
}

/// The recognised text in a decoded reply.
pub fn select_transcript(reply: AsrReply) -> (r: Result<String, String>)
    ensures
        result_chars(r) == transcript_of(opt_chars(reply.text), opt_chars(reply.output_text), reply.rendered@),
{
    match reply.text {
        Some(t) => Ok(t),
        None => match reply.output_text {
            Some(t) => Ok(t),
            None => {
                let mut msg = String::from_str("响应缺少识别文本字段: ");
                msg.append(reply.rendered.as_str());
                Err(msg)
            },
        },
    }
}

/// The outcome of a recognition request from what the service replied.
pub fn recognition_outcome(payload: ReplyPayload) -> (r: Result<String, String>)
    ensures
        result_chars(r) == outcome_of(payload),
{
    match payload {
        ReplyPayload::Failure { status, body } => {
            let mut msg = String::from_str("ASR API 错误 [");
            msg.append(status.as_str());
            msg.append("]: ");
            msg.append(body.as_str());
            Err(msg)
        },
        ReplyPayload::Malformed(e) => {
            let mut msg = String::from_str("解析响应失败: ");
            msg.append(e.as_str());
            Err(msg)
        },
        ReplyPayload::Decoded(reply) => select_transcript(reply),
    }
}


/// The top-level text wins: whenever a decoded reply has a top-level text
/// `t`, the outcome is `Ok(t)` whatever `output.text` holds; `output.text`
/// is taken only when the top-level text is absent, and a reply with
/// neither is an error.
pub proof fn lemma_top_level_text_wins(reply: AsrReply)
    ensures
        opt_chars(reply.text) matches Some(t) ==> outcome_of(ReplyPayload::Decoded(reply)) == Ok::<
            Seq<char>,
            Seq<char>,
        >(t),
        reply.text is None ==> (opt_chars(reply.output_text) matches Some(o) ==> outcome_of(
            ReplyPayload::Decoded(reply),
        ) == Ok::<Seq<char>, Seq<char>>(o)),
        reply.text is None && reply.output_text is None ==> outcome_of(
            ReplyPayload::Decoded(reply),
        ) is Err,
{
}

} // verus!
