use vstd::prelude::*;
use vstd::string::{StrSliceExecFns, StringExecFns};

use crate::asr::native::{json_string, json_text};
use crate::text::{trim_text, trimmed};

verus! {

/// Settings of the two-step engine: transcription, then polishing of the
/// text by a chat model.
#[derive(Debug, Clone)]
pub struct OmniPlusConfig {
    pub api_key: String,
    pub base_url: String,
    pub model: String,
    pub prompt: String,
}

/// The default polishing instruction.
pub open spec fn default_prompt() -> Seq<char> {
    "请对以下文本进行润色。注意理解原意，不是机械地逐字修改，而是在不改变原意的情况下让表达更自然流畅。只输出润色后的文本，不要添加任何解释："@
}

impl Default for OmniPlusConfig {
    /// No API key, DashScope's OpenAI-compatible endpoint, the `qwen-plus`
    /// model, and the default polishing instruction.
    fn default() -> (c: OmniPlusConfig)
        ensures
            c.api_key@ == ""@,
            c.base_url@ == "https://dashscope.aliyuncs.com/compatible-mode/v1"@,
            c.model@ == "qwen-plus"@,
            c.prompt@ == default_prompt(),
    {
        OmniPlusConfig {
            api_key: String::from_str(""),
            base_url: String::from_str("https://dashscope.aliyuncs.com/compatible-mode/v1"),
            model: String::from_str("qwen-plus"),
            prompt: String::from_str(
                "请对以下文本进行润色。注意理解原意，不是机械地逐字修改，而是在不改变原意的情况下让表达更自然流畅。只输出润色后的文本，不要添加任何解释：",
            ),
        }
    }
}

/// Whether a transcript is worth polishing: it holds more than whitespace.
pub fn needs_polish(raw: &str) -> (r: bool)
    ensures
        r == (trimmed(raw@).len() > 0),
{
    trim_text(raw).as_str().unicode_len() > 0
}

/// The chat completions URL under the configured base URL.
pub fn completions_url(config: &OmniPlusConfig) -> (r: String)
    ensures
        r@ == config.base_url@ + "/chat/completions"@,
{
    let mut r = config.base_url.clone();
    r.append("/chat/completions");
    r
}

/// The polishing request: the instruction as the system message, the
/// transcript as the user message, no streaming (keys in sorted order, as
/// serde_json writes an object).
pub open spec fn polish_body_spec(model: Seq<char>, prompt: Seq<char>, raw: Seq<char>) -> Seq<char> {
    "{\"messages\":[{\"content\":"@ + json_string(prompt) + ",\"role\":\"system\"},{\"content\":"@
        + json_string(raw) + ",\"role\":\"user\"}],\"model\":"@ + json_string(model)
        + ",\"stream\":false}"@
}

/// The body of the polishing request for `raw`.
pub fn polish_request_body(config: &OmniPlusConfig, raw: &str) -> (r: String)
    ensures
        r@ == polish_body_spec(config.model@, config.prompt@, raw@),
{
    let mut r = String::from_str("{\"messages\":[{\"content\":");
    r.append(json_text(config.prompt.as_str()).as_str());
    r.append(",\"role\":\"system\"},{\"content\":");
    r.append(json_text(raw).as_str());
    r.append(",\"role\":\"user\"}],\"model\":");
    r.append(json_text(config.model.as_str()).as_str());
    r.append(",\"stream\":false}");
    r
}

/// What came back from the chat model.
pub enum PolishPayload {
    /// A status outside 2xx.
    Failure,
    /// A 2xx reply whose body is not JSON, with the decoder's message.
    Malformed(String),
    /// A 2xx reply decoded as JSON, with the first choice's message content
    /// where it is a string.
    Decoded(Option<String>),
}

/// The polished text: the chat model's answer; the transcript itself when
/// the service refuses or the answer holds no text; an error when the reply
/// cannot be decoded.
pub open spec fn polish_spec(raw: Seq<char>, payload: PolishPayload) -> Result<Seq<char>, Seq<char>> {
    match payload {
        PolishPayload::Failure => Ok(raw),
        PolishPayload::Malformed(e) => Err(e@),
        PolishPayload::Decoded(content) => match content {
            Some(c) => Ok(c@),
            None => Ok(raw),
        },
    }
}

/// The polished text for `raw` from what the chat model replied.
pub fn polish_result(raw: String, payload: PolishPayload) -> (r: Result<String, String>)
    ensures
        match r {
            Ok(t) => polish_spec(raw@, payload) == Ok::<Seq<char>, Seq<char>>(t@),
            Err(e) => polish_spec(raw@, payload) == Err::<Seq<char>, Seq<char>>(e@),
        },
{
    match payload {
        PolishPayload::Failure => Ok(raw),
        PolishPayload::Malformed(e) => Err(e),
        PolishPayload::Decoded(content) => match content {
            Some(c) => Ok(c),
            None => Ok(raw),
        },
    }
}


/// The chat model's answer is the polished text: whenever the decoded reply
/// carries message content `c`, the result is `Ok(c)`, whatever the raw
/// transcript was. The raw transcript comes back only when the service
/// refuses or the content is absent, and an undecodable reply is an error
/// with the decoder's message.
pub proof fn lemma_polished_answer_wins(raw: Seq<char>, c: String, e: String)
    ensures
        polish_spec(raw, PolishPayload::Decoded(Some(c))) == Ok::<Seq<char>, Seq<char>>(c@),
        polish_spec(raw, PolishPayload::Decoded(None)) == Ok::<Seq<char>, Seq<char>>(raw),
        polish_spec(raw, PolishPayload::Failure) == Ok::<Seq<char>, Seq<char>>(raw),
        polish_spec(raw, PolishPayload::Malformed(e)) == Err::<Seq<char>, Seq<char>>(e@),
{
}

} // verus!
