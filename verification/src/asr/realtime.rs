use vstd::prelude::*;
use vstd::string::{StrSliceExecFns, StringExecFns};

use crate::asr::native::{base64_standard, json_string, json_text};
use crate::text::{contains_text, decimal, decimal_text, has_substring, opt_chars, text_eq};

use crate::asr::native::base64_encode;

verus! {

/// Settings of the real-time (WebSocket) recognition service.
pub struct AsrConfig {
    pub api_key: String,
    pub model: String,
    pub base_url: String,
}

impl Default for AsrConfig {
    /// No API key, the `qwen3-asr-flash-realtime` model, DashScope's
    /// real-time endpoint.
    fn default() -> (c: AsrConfig)
        ensures
            c.api_key@ == ""@,
            c.model@ == "qwen3-asr-flash-realtime"@,
            c.base_url@ == "wss://dashscope.aliyuncs.com/api-ws/v1/realtime"@,
    {
        AsrConfig {
            api_key: String::from_str(""),
            model: String::from_str("qwen3-asr-flash-realtime"),
            base_url: String::from_str("wss://dashscope.aliyuncs.com/api-ws/v1/realtime"),
        }
    }
}

/// Client of the real-time recognition service.
pub struct DashScopeAsrEngine {
    config: AsrConfig,
}

impl DashScopeAsrEngine {
    /// The text settings of the engine: its API key, model and endpoint.
    pub closed spec fn settings(&self) -> (Seq<char>, Seq<char>, Seq<char>) {
        (self.config.api_key@, self.config.model@, self.config.base_url@)
    }

    /// A client with these settings.
    pub fn new(config: AsrConfig) -> (e: Self)
        ensures
            e.settings() == (config.api_key@, config.model@, config.base_url@),
    {
        DashScopeAsrEngine { config }
    }

    /// The URL to connect to: the endpoint with the model as query.
    pub fn connection_url(&self) -> (r: String)
        ensures
            r@ == self.settings().2 + "?model="@ + self.settings().1,
    {
        let mut r = self.config.base_url.clone();
        r.append("?model=");
        r.append(self.config.model.as_str());
        r
    }

    /// The `Authorization` header value.
    pub fn authorization(&self) -> (r: String)
        ensures
            r@ == "Bearer "@ + self.settings().0,
    {
        let mut r = String::from_str("Bearer ");
        r.append(self.config.api_key.as_str());
        r
    }
}

/// What `url::Url::parse` makes of a text: on success the URL's serialised
/// form and its host, if it has one; on failure the parse error's message.
pub uninterp spec fn parsed_url(s: Seq<char>) -> Result<(Seq<char>, Option<Seq<char>>), Seq<char>>;

/// Parses a URL and reads back its serialised form and host.
///
/// Trusted: calls `url::Url::parse`, which never panics, then `Url::as_str`
/// and `Url::host_str` on the result, or the error's `Display`. All of it is
/// a function of the text, named `parsed_url`.
#[verifier::external_body]
fn parse_url_parts(s: &str) -> (r: Result<(String, Option<String>), String>)
    ensures
        match r {
            Ok((uri, host)) => parsed_url(s@) == Ok::<(Seq<char>, Option<Seq<char>>), Seq<char>>(
                (uri@, opt_chars(host)),
            ),
            Err(e) => parsed_url(s@) == Err::<(Seq<char>, Option<Seq<char>>), Seq<char>>(e@),
        },
{
    match url::Url::parse(s) {
        Ok(u) => Ok((u.as_str().to_string(), u.host_str().map(str::to_string))),
        Err(e) => Err(e.to_string()),
    }
}

/// Where to open the WebSocket: the request URI and the `Host` header.
pub struct HandshakeTarget {
    pub uri: String,
    pub host: String,
}

/// Where to connect, from what parsing a URL gave: its serialised form and
/// host; a parse error gives its message, a URL without a host an error
/// saying so.
pub open spec fn target_of(parts: Result<(Seq<char>, Option<Seq<char>>), Seq<char>>) -> Result<(Seq<char>, Seq<char>), Seq<char>> {
    match parts {
        Err(e) => Err(e),
        Ok((uri, Some(host))) => Ok((uri, host)),
        Ok((_, None)) => Err("Invalid URL: missing host"@),
    }
}

/// Where to connect for the URL text `url`.
pub open spec fn handshake_spec(url: Seq<char>) -> Result<(Seq<char>, Seq<char>), Seq<char>> {
    target_of(parsed_url(url))
}

/// Where to connect, from what parsing the URL gave.
pub fn target_from_parts(parts: Result<(String, Option<String>), String>) -> (r: Result<HandshakeTarget, String>)
    ensures
        match r {
            Ok(t) => target_of(
                match parts {
                    Ok((u, h)) => Ok((u@, opt_chars(h))),
                    Err(e) => Err(e@),
                },
            ) == Ok::<(Seq<char>, Seq<char>), Seq<char>>((t.uri@, t.host@)),
            Err(e) => target_of(
                match parts {
                    Ok((u, h)) => Ok((u@, opt_chars(h))),
                    Err(e) => Err(e@),
                },
            ) == Err::<(Seq<char>, Seq<char>), Seq<char>>(e@),
        },
{
    match parts {
        Err(e) => Err(e),
        Ok((uri, host)) => match host {
            Some(host) => Ok(HandshakeTarget { uri, host }),
            None => Err(String::from_str("Invalid URL: missing host")),
        },
    }
}

impl DashScopeAsrEngine {
    /// The URL to connect to, parsed: an error when it does not parse, or
    /// when it has no host.
    pub fn handshake_target(&self) -> (r: Result<HandshakeTarget, String>)
        ensures
            match r {
                Ok(t) => handshake_spec(self.settings().2 + "?model="@ + self.settings().1) == Ok::<
                    (Seq<char>, Seq<char>),
                    Seq<char>,
                >((t.uri@, t.host@)),
                Err(e) => handshake_spec(self.settings().2 + "?model="@ + self.settings().1) == Err::<
                    (Seq<char>, Seq<char>),
                    Seq<char>,
                >(e@),
            },
    {
        let s = self.connection_url();
        target_from_parts(parse_url_parts(s.as_str()))
    }
}

/// Seconds to wait for the result of `audio_bytes` bytes of 16 kHz 16-bit
/// mono audio (32000 bytes a second): three times the audio's duration,
/// rounded up to whole seconds, kept within 20 to 300.
pub open spec fn timeout_spec(audio_bytes: int) -> int {
    let t = (3 * audio_bytes + 31999) / 32000;
    if t < 20 {
        20
    } else if t > 300 {
        300
    } else {
        t
    }
}

/// Seconds to wait for the recognition result of `audio_bytes` bytes.
pub fn calculate_timeout(audio_bytes: usize) -> (r: u64)
    ensures
        r == timeout_spec(audio_bytes as int),
{
    let t: u128 = ((audio_bytes as u128) * 3 + 31999) / 32000;
    if t < 20 {
        20
    } else if t > 300 {
        300
    } else {
        t as u64
    }
}

/// The wait is never under 20 nor over 300 seconds, and longer audio never
/// waits less.
pub proof fn lemma_timeout_bounds(a: int, b: int)
    requires
        0 <= a <= b,
    ensures
        20 <= timeout_spec(a) <= 300,
        timeout_spec(a) <= timeout_spec(b),
{
    assert((3 * a + 31999) / 32000 <= (3 * b + 31999) / 32000) by (nonlinear_arith)
        requires
            0 <= a <= b,
    ;
}

/// The session configuration message sent first on a connection: text
/// output, 16 kHz PCM input, Chinese transcription, and server-side voice
/// activity detection (threshold 0.2, 800 ms of silence).
pub open spec fn session_update_text() -> Seq<char> {
    "{\"event_id\":\"event_init\",\"type\":\"session.update\",\"session\":{\"modalities\":[\"text\"],\"input_audio_format\":\"pcm\",\"sample_rate\":16000,\"input_audio_transcription\":{\"language\":\"zh\"},\"turn_detection\":{\"type\":\"server_vad\",\"threshold\":0.2,\"silence_duration_ms\":800}}}"@
}

/// The session configuration message.
pub fn session_update_event() -> (r: String)
    ensures
        r@ == session_update_text(),
{
    String::from_str(
        "{\"event_id\":\"event_init\",\"type\":\"session.update\",\"session\":{\"modalities\":[\"text\"],\"input_audio_format\":\"pcm\",\"sample_rate\":16000,\"input_audio_transcription\":{\"language\":\"zh\"},\"turn_detection\":{\"type\":\"server_vad\",\"threshold\":0.2,\"silence_duration_ms\":800}}}",
    )
}

/// The message that appends `chunk` to the service's audio buffer, as the
/// `counter`-th such message.
pub open spec fn audio_append_text(counter: nat, chunk: Seq<u8>) -> Seq<char> {
    "{\"event_id\":"@ + json_string("event_"@ + decimal(counter))
        + ",\"type\":\"input_audio_buffer.append\",\"audio\":"@ + json_string(base64_standard(chunk))
        + "}"@
}

/// The message that sends `chunk`, or none for an empty chunk.
pub fn audio_append_event(counter: u64, chunk: &[u8]) -> (r: Option<String>)
    requires
        (chunk@.len() + 2) / 3 * 4 <= usize::MAX,
    ensures
        chunk@.len() == 0 ==> r is None,
        chunk@.len() > 0 ==> (r matches Some(t) && t@ == audio_append_text(counter as nat, chunk@)),
{
    if chunk.len() == 0 {
        return None;
    }
    let mut id = String::from_str("event_");
    id.append(decimal_text(counter).as_str());
    let mut r = String::from_str("{\"event_id\":");
    r.append(json_text(id.as_str()).as_str());
    r.append(",\"type\":\"input_audio_buffer.append\",\"audio\":");
    r.append(json_text(base64_encode(chunk).as_str()).as_str());
    r.append("}");
    Some(r)
}

/// The numbering of a session's audio messages: the number the next sent
/// chunk gets.
pub struct ChunkNumbering {
    next: u64,
}

impl View for ChunkNumbering {
    type V = u64;

    closed spec fn view(&self) -> u64 {
        self.next
    }
}

impl ChunkNumbering {
    /// A new session: the first chunk is numbered 0.
    pub fn new() -> (c: Self)
        ensures
            c@ == 0,
    {
        ChunkNumbering { next: 0 }
    }

    /// The message that sends `chunk` as the next chunk, or none for an
    /// empty chunk; the numbering moves on only once the message is sent.
    pub fn message(&self, chunk: &[u8]) -> (r: Option<String>)
        requires
            (chunk@.len() + 2) / 3 * 4 <= usize::MAX,
        ensures
            chunk@.len() == 0 ==> r is None,
            chunk@.len() > 0 ==> (r matches Some(t) && t@ == audio_append_text(self@ as nat, chunk@)),
    {
        audio_append_event(self.next, chunk)
    }

    /// Records that a chunk's message was sent: the next chunk gets the
    /// next number.
    pub fn sent(&mut self)
        requires
            old(self)@ < u64::MAX,
        ensures
            final(self)@ == old(self)@ + 1,
    {
        self.next = self.next + 1;
    }
}

// ---------------------------------------------------------------------------
// Collecting the transcript
// ---------------------------------------------------------------------------

/// The event type of an intermediate transcription result.
pub open spec fn transcription_event_type() -> Seq<char> {
    "conversation.item.input_audio_transcription.text"@
}

/// Whether an event type marks the end of recognition.
pub open spec fn is_final_event(event_type: Seq<char>) -> bool {
    has_substring(event_type, "completed"@) || has_substring(event_type, "finished"@)
        || has_substring(event_type, "done"@)
}

/// The text of an optional field, empty when absent.
pub open spec fn or_empty(o: Option<Seq<char>>) -> Seq<char> {
    match o {
        Some(s) => s,
        None => Seq::empty(),
    }
}

/// The collector's state: the best transcript so far and when it last
/// changed (nanoseconds on the driver's clock).
pub struct CollectorModel {
    pub text: Seq<char>,
    pub updated_at: u64,
}

/// What a server event does: a transcription event whose text and stash
/// together are new and non-empty replaces the transcript; the returned flag
/// says whether the event ends the recognition.
pub open spec fn server_event_spec(
    m: CollectorModel,
    event_type: Seq<char>,
    text: Option<Seq<char>>,
    stash: Option<Seq<char>>,
    now_ns: u64,
) -> (CollectorModel, bool) {
    let full = or_empty(text) + or_empty(stash);
    let m2 = if event_type == transcription_event_type() && full.len() > 0 && full != m.text {
        CollectorModel { text: full, updated_at: now_ns }
    } else {
        m
    };
    (m2, is_final_event(event_type))
}

/// Whether the transcript has stood unchanged for three seconds or more.
pub open spec fn settled_spec(m: CollectorModel, now_ns: u64) -> bool {
    m.text.len() > 0 && now_ns >= m.updated_at && (now_ns - m.updated_at) / 1_000_000_000 >= 3
}

/// Gathers the transcript from the service's events.
pub struct TranscriptCollector {
    text: String,
    updated_at: u64,
}

impl View for TranscriptCollector {
    type V = CollectorModel;

    closed spec fn view(&self) -> CollectorModel {
        CollectorModel { text: self.text@, updated_at: self.updated_at }
    }
}

impl TranscriptCollector {
    /// An empty transcript at `now_ns`.
    pub fn new(now_ns: u64) -> (c: Self)
        ensures
            c@ == (CollectorModel { text: Seq::empty(), updated_at: now_ns }),
    {
        TranscriptCollector { text: String::new(), updated_at: now_ns }
    }

    /// Takes a server event in; returns whether it ends the recognition.
    pub fn on_server_event(
        &mut self,
        event_type: &str,
        text: Option<String>,
        stash: Option<String>,
        now_ns: u64,
    ) -> (done: bool)
        ensures
            (final(self)@, done) == server_event_spec(
                old(self)@,
                event_type@,
                opt_chars(text),
                opt_chars(stash),
                now_ns,
            ),
    {
        if text_eq(event_type, "conversation.item.input_audio_transcription.text") {
            let mut full = match text {
                Some(t) => t,
                None => String::new(),
            };
            match stash {
                Some(s) => full.append(s.as_str()),
                None => {},
            }
            assert(full@ =~= or_empty(opt_chars(text)) + or_empty(opt_chars(stash)));
            if full.as_str().unicode_len() > 0 && !text_eq(full.as_str(), self.text.as_str()) {
                self.text = full;
                self.updated_at = now_ns;
            }
        }
        contains_text(event_type, "completed") || contains_text(event_type, "finished")
            || contains_text(event_type, "done")
    }

    /// Whether the transcript has settled by `now_ns`, which ends the wait.
    pub fn settled(&self, now_ns: u64) -> (r: bool)
        ensures
            r == settled_spec(self@, now_ns),
    {
        self.text.as_str().unicode_len() > 0 && now_ns >= self.updated_at && (now_ns
            - self.updated_at) / 1_000_000_000 >= 3
    }

    /// The transcript.
    pub fn into_text(self) -> (r: String)
        ensures
            r@ == self@.text,
    {
        self.text
    }
}


/// The latest intermediate result replaces any earlier one: after a
/// transcription event whose text followed by its stash is non-empty, the
/// transcript is exactly that text followed by that stash, whatever the
/// transcript was before. Of two such events in a row, the second one's
/// text is what stays.
pub proof fn lemma_latest_transcript_wins(
    m: CollectorModel,
    text: Option<Seq<char>>,
    stash: Option<Seq<char>>,
    now_ns: u64,
    text2: Option<Seq<char>>,
    stash2: Option<Seq<char>>,
    later_ns: u64,
)
    requires
        or_empty(text) + or_empty(stash) != Seq::<char>::empty(),
        or_empty(text2) + or_empty(stash2) != Seq::<char>::empty(),
    ensures
        server_event_spec(m, transcription_event_type(), text, stash, now_ns).0.text == or_empty(text)
            + or_empty(stash),
        ({
            let m1 = server_event_spec(m, transcription_event_type(), text, stash, now_ns).0;
            server_event_spec(m1, transcription_event_type(), text2, stash2, later_ns).0.text
                == or_empty(text2) + or_empty(stash2)
        }),
{
    let full = or_empty(text) + or_empty(stash);
    assert(full.len() > 0) by {
        if full.len() == 0 {
            assert(full =~= Seq::<char>::empty());
        }
    }
    let full2 = or_empty(text2) + or_empty(stash2);
    assert(full2.len() > 0) by {
        if full2.len() == 0 {
            assert(full2 =~= Seq::<char>::empty());
        }
    }
}

/// Only transcription events touch the transcript: any other event leaves
/// it, and the time it last changed, as they were.
pub proof fn lemma_other_events_keep_transcript(
    m: CollectorModel,
    event_type: Seq<char>,
    text: Option<Seq<char>>,
    stash: Option<Seq<char>>,
    now_ns: u64,
)
    requires
        event_type != transcription_event_type(),
    ensures
        server_event_spec(m, event_type, text, stash, now_ns).0 == m,
{
}

} // verus!
