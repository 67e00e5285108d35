use vstd::prelude::*;
use vstd::string::{StrSliceExecFns, StringExecFns};

use crate::state::{invalid_transition_text, next_state, transition, AppEvent, AppState};
use crate::text::{decimal, decimal_text, opt_chars, result_chars};

verus! {

// ---------------------------------------------------------------------------
// Side effects and their model
// ---------------------------------------------------------------------------

/// Work that the daemon asks its driver to carry out.
#[derive(Debug, PartialEq)]
pub enum SideEffect {
    StartAudio,
    StopAudio,
    RequestAsr { pcm_data: Vec<u8> },
    Notify { title: String, body: String, timeout_secs: u32 },
    CopyToClipboard(String),
}

/// A side effect as plain values.
pub enum EffectSpec {
    StartAudio,
    StopAudio,
    RequestAsr(Seq<u8>),
    Notify(Seq<char>, Seq<char>, u32),
    CopyToClipboard(Seq<char>),
}

impl View for SideEffect {
    type V = EffectSpec;

    open spec fn view(&self) -> EffectSpec {
        match self {
            SideEffect::StartAudio => EffectSpec::StartAudio,
            SideEffect::StopAudio => EffectSpec::StopAudio,
            SideEffect::RequestAsr { pcm_data } => EffectSpec::RequestAsr(pcm_data@),
            SideEffect::Notify { title, body, timeout_secs } => EffectSpec::Notify(
                title@,
                body@,
                *timeout_secs,
            ),
            SideEffect::CopyToClipboard(t) => EffectSpec::CopyToClipboard(t@),
        }
    }
}

/// A list of side effects as plain values.
pub open spec fn effects_view(v: Seq<SideEffect>) -> Seq<EffectSpec> {
    v.map_values(|e: SideEffect| e@)
}

/// A notification effect.
pub open spec fn notify(title: Seq<char>, body: Seq<char>, timeout_secs: u32) -> EffectSpec {
    EffectSpec::Notify(title, body, timeout_secs)
}

fn notify_effect(title: &str, body: String, timeout_secs: u32) -> (e: SideEffect)
    ensures
        e@ == notify(title@, body@, timeout_secs),
{
    SideEffect::Notify { title: String::from_str(title), body, timeout_secs }
}

// ---------------------------------------------------------------------------
// The daemon core
// ---------------------------------------------------------------------------

/// The daemon's state as plain values: the state machine's state, when the
/// current recording started (nanoseconds on the driver's monotonic clock),
/// and the last whole second reported while recording.
pub struct AppModel {
    pub state: AppState,
    pub started_at: Option<u64>,
    pub last_reported: Option<u64>,
}

/// The outside work that an event needs before the daemon can finish it.
pub enum Step {
    /// Nothing to wait for: these are the effects.
    Done(Vec<SideEffect>),
    /// The state machine refused the event, for this reason; nothing
    /// changed.
    Refused(String),
    /// Start the audio capture, then call `capture_started`.
    StartCapture,
    /// Stop the audio capture, then call `capture_stopped`.
    StopCapture,
    /// Copy this text to the clipboard, then call `clipboard_effects`.
    CopyText(String),
}

/// A step as plain values.
pub enum StepSpec {
    Done(Seq<EffectSpec>),
    Refused(Seq<char>),
    StartCapture,
    StopCapture,
    CopyText(Seq<char>),
}

impl View for Step {
    type V = StepSpec;

    open spec fn view(&self) -> StepSpec {
        match self {
            Step::Done(v) => StepSpec::Done(effects_view(v@)),
            Step::Refused(why) => StepSpec::Refused(why@),
            Step::StartCapture => StepSpec::StartCapture,
            Step::StopCapture => StepSpec::StopCapture,
            Step::CopyText(t) => StepSpec::CopyText(t@),
        }
    }
}

/// The daemon: a state machine driven by events, whose outside work (audio,
/// clipboard, clock) is done by a driver that reports the outcome back.
pub struct VollminputdApp {
    pub state: AppState,
    recording_start: Option<u64>,
    last_reported_seconds: Option<u64>,
}

impl View for VollminputdApp {
    type V = AppModel;

    closed spec fn view(&self) -> AppModel {
        AppModel {
            state: self.state,
            started_at: self.recording_start,
            last_reported: self.last_reported_seconds,
        }
    }
}

/// The name shown for the capture device.
pub open spec fn device_label(name: Option<Seq<char>>) -> Seq<char> {
    match name {
        Some(n) => n,
        None => "未知设备"@,
    }
}

/// Whole seconds between `start` and `now` (nanoseconds), zero when the
/// clock reads earlier than `start`.
pub open spec fn elapsed_seconds(start: u64, now_ns: u64) -> nat {
    if now_ns >= start {
        ((now_ns - start) / 1_000_000_000) as nat
    } else {
        0
    }
}

/// What `handle_event` does to the model, and the step it asks for.
pub open spec fn handle_spec(m: AppModel, event: AppEvent) -> (AppModel, StepSpec) {
    match next_state(m.state, event) {
        None => (m, StepSpec::Refused(invalid_transition_text(m.state, event))),
        Some(AppState::Recording) => (AppModel { state: AppState::Recording, ..m }, StepSpec::StartCapture),
        Some(AppState::Transcribing) => (
            AppModel { state: AppState::Transcribing, last_reported: None, ..m },
            StepSpec::StopCapture,
        ),
        Some(AppState::Idle) => {
            let m2 = AppModel { state: AppState::Idle, started_at: None, last_reported: None };
            match event {
                AppEvent::TranscriptionComplete(t) => (m2, StepSpec::CopyText(t@)),
                AppEvent::TranscriptionFailed(msg) => (
                    m2,
                    StepSpec::Done(seq![notify("识别失败"@, msg@, 5)]),
                ),
                AppEvent::ToggleRecording => (m2, StepSpec::Done(Seq::empty())),
            }
        },
    }
}

/// What the outcome of starting the capture does to the model, and the
/// effects: the device name on success, the error text on failure.
pub open spec fn capture_started_spec(
    m: AppModel,
    outcome: Result<Option<Seq<char>>, Seq<char>>,
    now_ns: u64,
) -> (AppModel, Seq<EffectSpec>) {
    match outcome {
        Ok(name) => (
            AppModel { started_at: Some(now_ns), last_reported: None, ..m },
            seq![
                EffectSpec::StartAudio,
                notify("开始录音"@, "正在使用 "@ + device_label(name) + " 录音，请说话..."@, 5),
            ],
        ),
        Err(e) => (
            AppModel { state: AppState::Idle, ..m },
            seq![notify("录音失败"@, "无法访问音频设备: "@ + e, 5)],
        ),
    }
}

/// What the outcome of stopping the capture does to the model, and the
/// effects: the recorded bytes on success, the error text on failure.
pub open spec fn capture_stopped_spec(m: AppModel, outcome: Result<Seq<u8>, Seq<char>>) -> (
    AppModel,
    Seq<EffectSpec>,
) {
    match outcome {
        Ok(data) => (
            AppModel { started_at: None, ..m },
            seq![
                EffectSpec::StopAudio,
                notify("开始识别"@, "正在处理录音..."@, 5),
                EffectSpec::RequestAsr(data),
            ],
        ),
        Err(e) => (
            AppModel { state: AppState::Idle, ..m },
            seq![notify("录音失败"@, "音频采集失败: "@ + e, 5)],
        ),
    }
}

/// The effects once the recognised text went to the clipboard, or failed to.
pub open spec fn clipboard_spec(text: Seq<char>, outcome: Result<(), Seq<char>>) -> Seq<EffectSpec> {
    match outcome {
        Ok(_) => seq![notify("识别完成"@, text, 10)],
        Err(e) => seq![notify("剪贴板错误"@, "无法复制: "@ + e, 5)],
    }
}

/// What a poll does: the model, the effects, and whether the recording has
/// run for `max_seconds` or more. It goes by the recording's start time
/// alone, which a failed stop leaves in place; the main loop polls only
/// while recording (see `tick_spec`).
pub open spec fn poll_spec(
    m: AppModel,
    now_ns: u64,
    max_seconds: u64,
    device_name: Option<Seq<char>>,
) -> (AppModel, Seq<EffectSpec>, bool) {
    match m.started_at {
        None => (m, Seq::empty(), false),
        Some(start) => {
            let el = elapsed_seconds(start, now_ns);
            let timeout = el >= max_seconds;
            if m.last_reported == Some(el as u64) {
                (m, Seq::empty(), timeout)
            } else {
                (
                    AppModel { last_reported: Some(el as u64), ..m },
                    seq![
                        notify(
                            "录音中"@,
                            "已录制 "@ + decimal(el) + " 秒 ("@ + device_label(device_name) + ")"@,
                            1,
                        ),
                    ],
                    timeout,
                )
            }
        },
    }
}

/// One tick of the main loop: while recording, a poll, with a reached time
/// limit turned into the event that stops the recording; in any other state
/// nothing.
pub open spec fn tick_spec(
    m: AppModel,
    now_ns: u64,
    max_seconds: u64,
    device_name: Option<Seq<char>>,
) -> (AppModel, Seq<EffectSpec>, Option<AppEvent>) {
    if m.state != AppState::Recording {
        (m, Seq::empty(), None)
    } else {
        let (m2, effects, timeout) = poll_spec(m, now_ns, max_seconds, device_name);
        (m2, effects, if timeout {
            Some(AppEvent::ToggleRecording)
        } else {
            None
        })
    }
}

fn label_text(name: Option<String>) -> (r: String)
    ensures
        r@ == device_label(opt_chars(name)),
{
    match name {
        Some(n) => n,
        None => String::from_str("未知设备"),
    }
}

impl VollminputdApp {
    /// A daemon at rest.
    pub fn new() -> (app: Self)
        ensures
            app@ == (AppModel { state: AppState::Idle, started_at: None, last_reported: None }),
    {
        VollminputdApp { state: AppState::Idle, recording_start: None, last_reported_seconds: None }
    }

    /// Applies an event. A refused event changes nothing and has no effects.
    pub fn handle_event(&mut self, event: AppEvent) -> (step: Step)
        ensures
            (final(self)@, step@) == handle_spec(old(self)@, event),
    {
        let copy = event.duplicate();
        assert(next_state(self.state, copy) == next_state(self.state, event));
        let new_state = match transition(self.state, copy) {
            Ok(s) => s,
            Err(why) => {
                assert(invalid_transition_text(self.state, copy) == invalid_transition_text(
                    self.state,
                    event,
                ));
                return Step::Refused(why);
            },
        };
        self.state = new_state;
        match new_state {
            AppState::Recording => Step::StartCapture,
            AppState::Transcribing => {
                self.last_reported_seconds = None;
                Step::StopCapture
            },
            AppState::Idle => {
                self.recording_start = None;
                self.last_reported_seconds = None;
                match event {
                    AppEvent::TranscriptionComplete(text) => Step::CopyText(text),
                    AppEvent::TranscriptionFailed(msg) => {
                        let mut effects = Vec::new();
                        effects.push(notify_effect("识别失败", msg, 5));
                        assert(effects_view(effects@) =~= seq![notify("识别失败"@, msg@, 5)]);
                        Step::Done(effects)
                    },
                    AppEvent::ToggleRecording => {
                        let effects: Vec<SideEffect> = Vec::new();
                        assert(effects_view(effects@) =~= Seq::<EffectSpec>::empty());
                        Step::Done(effects)
                    },
                }
            },
        }
    }

    /// Finishes a `StartCapture` step: `outcome` is the device's name when
    /// the capture started, or the error's text; `now_ns` is the clock.
    pub fn capture_started(&mut self, outcome: Result<Option<String>, String>, now_ns: u64) -> (effects: Vec<SideEffect>)
        ensures
            (final(self)@, effects_view(effects@)) == capture_started_spec(
                old(self)@,
                match outcome {
                    Ok(n) => Ok(opt_chars(n)),
                    Err(e) => Err(e@),
                },
                now_ns,
            ),
    {
        let mut effects = Vec::new();
        match outcome {
            Err(e) => {
                let mut body = String::from_str("无法访问音频设备: ");
                body.append(e.as_str());
                effects.push(notify_effect("录音失败", body, 5));
                self.state = AppState::Idle;
            },
            Ok(name) => {
                self.recording_start = Some(now_ns);
                self.last_reported_seconds = None;
                let mut body = String::from_str("正在使用 ");
                body.append(label_text(name).as_str());
                body.append(" 录音，请说话...");
                effects.push(SideEffect::StartAudio);
                effects.push(notify_effect("开始录音", body, 5));
            },
        }
        assert(effects_view(effects@) =~= capture_started_spec(
            old(self)@,
            match outcome {
                Ok(n) => Ok(opt_chars(n)),
                Err(e) => Err(e@),
            },
            now_ns,
        ).1);
        effects
    }

    /// Finishes a `StopCapture` step: `outcome` is the recorded PCM bytes,
    /// or the error's text.
    pub fn capture_stopped(&mut self, outcome: Result<Vec<u8>, String>) -> (effects: Vec<SideEffect>)
        ensures
            (final(self)@, effects_view(effects@)) == capture_stopped_spec(
                old(self)@,
                match outcome {
                    Ok(d) => Ok(d@),
                    Err(e) => Err(e@),
                },
            ),
    {
        let mut effects = Vec::new();
        match outcome {
            Ok(data) => {
                self.recording_start = None;
                effects.push(SideEffect::StopAudio);
                effects.push(notify_effect("开始识别", String::from_str("正在处理录音..."), 5));
                effects.push(SideEffect::RequestAsr { pcm_data: data });
            },
            Err(e) => {
                let mut body = String::from_str("音频采集失败: ");
                body.append(e.as_str());
                effects.push(notify_effect("录音失败", body, 5));
                self.state = AppState::Idle;
            },
        }
        assert(effects_view(effects@) =~= capture_stopped_spec(
            old(self)@,
            match outcome {
                Ok(d) => Ok(d@),
                Err(e) => Err(e@),
            },
        ).1);
        effects
    }

    /// Reports the recording time once per second, and whether the
    /// recording has reached `max_seconds`. `now_ns` is the driver's clock,
    /// `device_name` the capture device's name.
    pub fn poll_recording(&mut self, now_ns: u64, max_seconds: u64, device_name: Option<String>) -> (r: (Vec<SideEffect>, bool))
        ensures
            (final(self)@, effects_view(r.0@), r.1) == poll_spec(
                old(self)@,
                now_ns,
                max_seconds,
                opt_chars(device_name),
            ),
    {
        match self.recording_start {
            None => {
                let effects: Vec<SideEffect> = Vec::new();
                assert(effects_view(effects@) =~= Seq::<EffectSpec>::empty());
                (effects, false)
            },
            Some(start) => {
                let elapsed: u64 = now_ns.saturating_sub(start) / 1_000_000_000;
                let timeout = elapsed >= max_seconds;
                let same = match self.last_reported_seconds {
                    Some(s) => s == elapsed,
                    None => false,
                };
                if same {
                    let effects: Vec<SideEffect> = Vec::new();
                    assert(effects_view(effects@) =~= Seq::<EffectSpec>::empty());
                    (effects, timeout)
                } else {
                    self.last_reported_seconds = Some(elapsed);
                    let mut body = String::from_str("已录制 ");
                    body.append(decimal_text(elapsed).as_str());
                    body.append(" 秒 (");
                    body.append(label_text(device_name).as_str());
                    body.append(")");
                    let mut effects = Vec::new();
                    effects.push(notify_effect("录音中", body, 1));
                    assert(effects_view(effects@) =~= poll_spec(
                        old(self)@,
                        now_ns,
                        max_seconds,
                        opt_chars(device_name),
                    ).1);
                    (effects, timeout)
                }
            },
        }
    }
}

impl VollminputdApp {
    /// The state machine's state (the public `state` field), as the model
    /// holds it.
    pub fn current_state(&self) -> (s: AppState)
        ensures
            s == self@.state,
    {
        self.state
    }

    /// Whether a tick at `now_ns` would report the recording time, so that
    /// the driver asks the device for its name only then.
    pub fn will_report(&self, now_ns: u64) -> (r: bool)
        ensures
            r == (tick_spec(self@, now_ns, 0, None).1.len() > 0),
    {
        if self.state != AppState::Recording {
            return false;
        }
        match self.recording_start {
            None => false,
            Some(start) => {
                let elapsed: u64 = now_ns.saturating_sub(start) / 1_000_000_000;
                match self.last_reported_seconds {
                    Some(s) => s != elapsed,
                    None => true,
                }
            },
        }
    }

    /// One tick of the main loop: while recording, polls the recording and
    /// turns a reached time limit into the event that stops the recording;
    /// in any other state it does nothing.
    pub fn poll_event(&mut self, now_ns: u64, max_seconds: u64, device_name: Option<String>) -> (r: (
        Vec<SideEffect>,
        Option<AppEvent>,
    ))
        ensures
            (final(self)@, effects_view(r.0@), r.1) == tick_spec(
                old(self)@,
                now_ns,
                max_seconds,
                opt_chars(device_name),
            ),
    {
        if self.state != AppState::Recording {
            let effects: Vec<SideEffect> = Vec::new();
            assert(effects_view(effects@) =~= Seq::<EffectSpec>::empty());
            return (effects, None);
        }
        let (effects, timeout) = self.poll_recording(now_ns, max_seconds, device_name);
        if timeout {
            (effects, Some(AppEvent::ToggleRecording))
        } else {
            (effects, None)
        }
    }
}

/// Finishes a `CopyText` step: the effects once `text` went to the
/// clipboard (`Ok`) or failed to (the error's text).
pub fn clipboard_effects(text: String, outcome: Result<(), String>) -> (effects: Vec<SideEffect>)
    ensures
        effects_view(effects@) == clipboard_spec(
            text@,
            match outcome {
                Ok(_) => Ok(()),
                Err(e) => Err(e@),
            },
        ),
{
    let mut effects = Vec::new();
    match outcome {
        Err(e) => {
            let mut body = String::from_str("无法复制: ");
            body.append(e.as_str());
            effects.push(notify_effect("剪贴板错误", body, 5));
        },
        Ok(_) => {
            effects.push(notify_effect("识别完成", text, 10));
        },
    }
    assert(effects_view(effects@) =~= clipboard_spec(
        text@,
        match outcome {
            Ok(_) => Ok(()),
            Err(e) => Err(e@),
        },
    ));
    effects
}

/// The event that a recognition's result becomes: a non-empty text
/// completes the round, an empty one fails it as "no speech", and an error
/// fails it with the error's text.
pub open spec fn recognition_event_spec(result: Result<Seq<char>, Seq<char>>) -> (bool, Seq<char>) {
    match result {
        Ok(t) => if t.len() > 0 {
            (true, t)
        } else {
            (false, "未检测到语音"@)
        },
        Err(e) => (false, "识别失败: "@ + e),
    }
}

/// The event for a recognition's result (see `recognition_event_spec`:
/// `true` marks a completed recognition, `false` a failed one).
pub fn recognition_event(result: Result<String, String>) -> (event: AppEvent)
    ensures
        ({
            let (done, text) = recognition_event_spec(result_chars(result));
            if done {
                event matches AppEvent::TranscriptionComplete(t) && t@ == text
            } else {
                event matches AppEvent::TranscriptionFailed(t) && t@ == text
            }
        }),
{
    match result {
        Ok(text) => {
            if text.as_str().unicode_len() > 0 {
                AppEvent::TranscriptionComplete(text)
            } else {
                AppEvent::TranscriptionFailed(String::from_str("未检测到语音"))
            }
        },
        Err(e) => {
            let mut msg = String::from_str("识别失败: ");
            msg.append(e.as_str());
            AppEvent::TranscriptionFailed(msg)
        },
    }
}

// ---------------------------------------------------------------------------
// Laws
// ---------------------------------------------------------------------------

/// An event that the state machine refuses changes nothing, has no
/// effects, and is answered with the reason.
pub proof fn lemma_refused_event_changes_nothing(m: AppModel, event: AppEvent)
    requires
        next_state(m.state, event) is None,
    ensures
        handle_spec(m, event) == (m, StepSpec::Refused(invalid_transition_text(m.state, event))),
{
}

/// A complete round: toggle, capture starts, toggle, capture stops with
/// `data`, recognition gives `text`, the clipboard takes it. The recorded
/// bytes are handed to recognition unchanged, the recognised text is what
/// goes to the clipboard and to the final notification, and the daemon ends
/// at rest.
pub proof fn lemma_successful_round(
    m0: AppModel,
    name: Option<Seq<char>>,
    t0: u64,
    data: Seq<u8>,
    text: String,
)
    requires
        m0.state == AppState::Idle,
    ensures
        ({
            let (m1, s1) = handle_spec(m0, AppEvent::ToggleRecording);
            let (m2, e2) = capture_started_spec(m1, Ok(name), t0);
            let (m3, s3) = handle_spec(m2, AppEvent::ToggleRecording);
            let (m4, e4) = capture_stopped_spec(m3, Ok(data));
            let (m5, s5) = handle_spec(m4, AppEvent::TranscriptionComplete(text));
            let e6 = clipboard_spec(text@, Ok(()));
            &&& s1 == StepSpec::StartCapture && m1.state == AppState::Recording
            &&& m2.state == AppState::Recording && m2.started_at == Some(t0)
            &&& e2[0] == EffectSpec::StartAudio
            &&& s3 == StepSpec::StopCapture && m3.state == AppState::Transcribing
            &&& m4.state == AppState::Transcribing && m4.started_at is None
            &&& e4[0] == EffectSpec::StopAudio && e4[2] == EffectSpec::RequestAsr(data)
            &&& s5 == StepSpec::CopyText(text@)
            &&& m5 == (AppModel { state: AppState::Idle, started_at: None, last_reported: None })
            &&& e6 == seq![notify("识别完成"@, text@, 10)]
        }),
{
}

/// A failure of the audio device, when starting or when stopping, puts the
/// daemon back at rest with a "录音失败" notification.
pub proof fn lemma_capture_failure_returns_to_idle(m: AppModel, e: Seq<char>, now_ns: u64)
    ensures
        capture_started_spec(m, Err(e), now_ns).0.state == AppState::Idle,
        capture_started_spec(m, Err(e), now_ns).1 == seq![notify("录音失败"@, "无法访问音频设备: "@ + e, 5)],
        capture_stopped_spec(m, Err(e)).0.state == AppState::Idle,
        capture_stopped_spec(m, Err(e)).1 == seq![notify("录音失败"@, "音频采集失败: "@ + e, 5)],
{
}

/// A failed recognition ends the round at rest with a "识别失败"
/// notification that carries the failure's text.
pub proof fn lemma_failed_recognition(m: AppModel, msg: String)
    requires
        m.state == AppState::Transcribing,
    ensures
        handle_spec(m, AppEvent::TranscriptionFailed(msg)) == (
            AppModel { state: AppState::Idle, started_at: None, last_reported: None },
            StepSpec::Done(seq![notify("识别失败"@, msg@, 5)]),
        ),
{
}

/// Polling reports each recording second once: a second poll within the
/// same second changes nothing and reports nothing, and gives the same
/// timeout answer.
pub proof fn lemma_poll_reports_each_second_once(
    m: AppModel,
    t1: u64,
    t2: u64,
    max_seconds: u64,
    n1: Option<Seq<char>>,
    n2: Option<Seq<char>>,
)
    requires
        m.started_at matches Some(s) && elapsed_seconds(s, t1) == elapsed_seconds(s, t2),
    ensures
        ({
            let (m1, _, to1) = poll_spec(m, t1, max_seconds, n1);
            let (m2, e2, to2) = poll_spec(m1, t2, max_seconds, n2);
            m2 == m1 && e2.len() == 0 && to1 == to2
        }),
{
    let s = m.started_at->0;
    assert(elapsed_seconds(s, t1) <= u64::MAX) by {
        if t1 >= s {
            assert((t1 - s) / 1_000_000_000 <= t1 - s);
        }
    }
}

/// Polling times out exactly when the recording has lasted `max_seconds`
/// whole seconds or more; with no recording started it never times out and
/// reports nothing. The main loop's tick does nothing outside a recording,
/// and while recording stops it exactly when the poll times out.
pub proof fn lemma_poll_timeout(m: AppModel, now_ns: u64, max_seconds: u64, n: Option<Seq<char>>)
    ensures
        m.started_at is None ==> poll_spec(m, now_ns, max_seconds, n) == (m, Seq::<EffectSpec>::empty(), false),
        m.started_at is Some ==> poll_spec(m, now_ns, max_seconds, n).2 == (elapsed_seconds(m.started_at->0, now_ns) >= max_seconds),
        m.started_at is Some && max_seconds == 0 ==> poll_spec(m, now_ns, max_seconds, n).2,
        m.state != AppState::Recording ==> tick_spec(m, now_ns, max_seconds, n) == (m, Seq::<EffectSpec>::empty(), None::<AppEvent>),
        m.state == AppState::Recording ==> (tick_spec(m, now_ns, max_seconds, n).2 is Some <==> poll_spec(m, now_ns, max_seconds, n).2),
{
}

/// One event carried through to its end: the step `handle_event` asks for,
/// finished with the given outcomes of the outside work (the capture start,
/// at `now_ns`; the capture stop; the clipboard copy).
pub open spec fn event_round_spec(
    m: AppModel,
    event: AppEvent,
    started: Result<Option<Seq<char>>, Seq<char>>,
    now_ns: u64,
    stopped: Result<Seq<u8>, Seq<char>>,
    copied: Result<(), Seq<char>>,
) -> (AppModel, Seq<EffectSpec>) {
    let (m1, step) = handle_spec(m, event);
    match step {
        StepSpec::Done(effects) => (m1, effects),
        StepSpec::Refused(_) => (m1, Seq::empty()),
        StepSpec::StartCapture => capture_started_spec(m1, started, now_ns),
        StepSpec::StopCapture => capture_stopped_spec(m1, stopped),
        StepSpec::CopyText(t) => (m1, clipboard_spec(t, copied)),
    }
}

/// The effects hold the start of the audio capture.
pub open spec fn starts_audio(effects: Seq<EffectSpec>) -> bool {
    exists|i: int| 0 <= i < effects.len() && #[trigger] effects[i] is StartAudio
}

/// The effects hand recorded audio to recognition.
pub open spec fn requests_recognition(effects: Seq<EffectSpec>) -> bool {
    exists|i: int| 0 <= i < effects.len() && #[trigger] effects[i] is RequestAsr
}

/// Whatever the audio device and the clipboard do, an event carried through
/// leaves the state as the transition table says, except that a failed
/// start or stop of the capture falls back to `Idle`; a refused event
/// leaves the state as it was and has no effects. The capture is started
/// exactly when the daemon went from `Idle` to `Recording`, and audio is
/// handed to recognition exactly when it went from `Recording` to
/// `Transcribing`: then it is the audio that the stopped capture gave.
pub proof fn lemma_event_round(
    m: AppModel,
    event: AppEvent,
    started: Result<Option<Seq<char>>, Seq<char>>,
    now_ns: u64,
    stopped: Result<Seq<u8>, Seq<char>>,
    copied: Result<(), Seq<char>>,
)
    ensures
        ({
            let (m2, effects) = event_round_spec(m, event, started, now_ns, stopped, copied);
            &&& next_state(m.state, event) is None ==> m2.state == m.state && effects.len() == 0
            &&& next_state(m.state, event) == Some(AppState::Recording) ==> m2.state == (if started is Ok {
                AppState::Recording
            } else {
                AppState::Idle
            })
            &&& next_state(m.state, event) == Some(AppState::Transcribing) ==> m2.state == (if stopped is Ok {
                AppState::Transcribing
            } else {
                AppState::Idle
            })
            &&& next_state(m.state, event) == Some(AppState::Idle) ==> m2.state == AppState::Idle
            &&& starts_audio(effects) <==> (m.state == AppState::Idle && m2.state == AppState::Recording)
            &&& requests_recognition(effects) <==> (m.state == AppState::Recording
                && m2.state == AppState::Transcribing)
            &&& (m.state == AppState::Recording && m2.state == AppState::Transcribing) ==> (
            stopped matches Ok(d) && effects.last() == EffectSpec::RequestAsr(d))
        }),
{
    let (m2, effects) = event_round_spec(m, event, started, now_ns, stopped, copied);
    match m.state {
        AppState::Idle => {
            match event {
                AppEvent::ToggleRecording => {
                    assert(m2.state == AppState::Recording ==> started is Ok);
                    if started is Ok {
                        assert(effects[0] is StartAudio);
                        assert(effects.len() == 2);
                        assert(!(effects[1] is RequestAsr));
                    } else {
                        assert(effects.len() == 1);
                        assert(!(effects[0] is StartAudio));
                        assert(!(effects[0] is RequestAsr));
                    }
                },
                _ => {},
            }
        },
        AppState::Recording => {
            match event {
                AppEvent::ToggleRecording => {
                    if stopped is Ok {
                        assert(effects.len() == 3);
                        assert(effects[2] is RequestAsr);
                        assert(!(effects[0] is StartAudio));
                        assert(!(effects[1] is StartAudio));
                        assert(!(effects[2] is StartAudio));
                    } else {
                        assert(effects.len() == 1);
                        assert(!(effects[0] is StartAudio));
                        assert(!(effects[0] is RequestAsr));
                    }
                },
                _ => {},
            }
        },
        AppState::Transcribing => {
            match event {
                AppEvent::ToggleRecording => {},
                AppEvent::TranscriptionComplete(t) => {
                    assert(effects.len() == 1);
                    assert(!(effects[0] is StartAudio));
                    assert(!(effects[0] is RequestAsr));
                },
                AppEvent::TranscriptionFailed(msg) => {
                    assert(effects.len() == 1);
                    assert(!(effects[0] is StartAudio));
                    assert(!(effects[0] is RequestAsr));
                },
            }
        },
    }
}

/// Every new second is reported: while a recording runs, a poll whose
/// whole elapsed second differs from the last one reported gives exactly
/// one "录音中" notification with that many seconds and the device's name,
/// and remembers that second as reported. In `Recording` the main loop's
/// tick does the same, and `will_report` then answers yes.
pub proof fn lemma_each_new_second_is_reported(
    m: AppModel,
    now_ns: u64,
    max_seconds: u64,
    n: Option<Seq<char>>,
)
    requires
        m.started_at is Some,
        m.last_reported != Some(elapsed_seconds(m.started_at->0, now_ns) as u64),
    ensures
        ({
            let el = elapsed_seconds(m.started_at->0, now_ns);
            let (m2, effects, _) = poll_spec(m, now_ns, max_seconds, n);
            &&& effects == seq![
                notify("录音中"@, "已录制 "@ + decimal(el) + " 秒 ("@ + device_label(n) + ")"@, 1),
            ]
            &&& m2 == (AppModel { last_reported: Some(el as u64), ..m })
            &&& m.state == AppState::Recording ==> tick_spec(m, now_ns, max_seconds, n).1 == effects
            &&& m.state == AppState::Recording ==> tick_spec(m, now_ns, 0, None).1.len() > 0
        }),
{
}

} // verus!
