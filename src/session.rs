//! The recording session: the single session slot with its start, stop
//! and engine-switch rules, the routing of each captured block to the
//! persistence and transcription paths, and the stop-time final pass of
//! the windowed-batch engine.
use crate::denoise::{feed, leftover, Denoiser};
use crate::transcript::{cleaned, clean_transcript, chars_of, string_of};
use crate::types::{ASREngine, AppState, GpuBackend};
use crate::vad::{detected, merged, well_formed, SpeechSegment, VADManager};
use vstd::prelude::*;

verus! {

/// Why a session command was refused.
#[derive(Debug, Clone, PartialEq, Eq)]
pub enum SessionError {
    /// The configured input device is not present.
    DeviceNotFound(String),
    /// A model or engine switch was attempted while a session is open.
    EngineBusy,
    /// Transcription was attempted before any model was loaded.
    EngineNotInitialized,
    /// Every acceleration tier failed to load the model.
    AccelerationFallbackExhausted(String),
    /// A worker thread panicked; the session still returns what it has.
    WorkerPanic,
    /// One window failed to decode; it is skipped.
    DecodeFailure(String),
    /// A session is already open.
    AlreadyRecording,
    /// No session is open.
    NotRecording,
}

/// The input device a session captures from.
#[derive(Debug, Clone, PartialEq, Eq)]
pub enum DeviceChoice {
    /// The system default input device.
    Default,
    /// The configured device of this name.
    Named(String),
}

/// What an open session was started with.
#[derive(Debug, Clone, Copy, PartialEq, Eq, Structural)]
pub struct SessionInfo {
    pub engine: ASREngine,
    pub sample_rate: u32,
    pub channels: u16,
    pub denoise: bool,
}

/// Steps the caller takes after a session is admitted.
#[derive(Debug, Clone, Copy, PartialEq, Eq, Structural)]
pub struct StartPlan {
    /// The engine whose context is reset and which transcribes the session.
    pub engine: ASREngine,
    /// Whether a fresh denoiser is created for the transcription path.
    pub create_denoiser: bool,
    /// Silent samples sent first on the transcription path (half a second).
    pub lead_in_samples: usize,
}

/// Steps the caller takes to close a session.
#[derive(Debug, Clone, Copy, PartialEq, Eq, Structural)]
pub struct StopPlan {
    /// The engine of the closed session, which decides the final text.
    pub engine: ASREngine,
    /// Silent samples sent on the transcription path only, after the
    /// persistence path is closed (one second).
    pub tail_silence_samples: usize,
}

/// Decision state shared by the session commands: the active engine, the
/// loaded models, the selected input device and the session slot.
pub struct AudioState {
    active_engine: ASREngine,
    whisper_model: Option<String>,
    parakeet_model: Option<String>,
    selected_input_device: Option<String>,
    recording: Option<SessionInfo>,
    app_state: AppState,
}

impl AudioState {
    pub closed spec fn active_engine(&self) -> ASREngine {
        self.active_engine
    }

    /// The model loaded for `engine`, by id.
    pub closed spec fn model(&self, engine: ASREngine) -> Option<Seq<char>> {
        match engine {
            ASREngine::Whisper => match self.whisper_model {
                Some(m) => Some(m@),
                None => None,
            },
            ASREngine::Parakeet => match self.parakeet_model {
                Some(m) => Some(m@),
                None => None,
            },
        }
    }

    pub closed spec fn input_device(&self) -> Option<Seq<char>> {
        match self.selected_input_device {
            Some(d) => Some(d@),
            None => None,
        }
    }

    /// The open session, if any.
    pub closed spec fn session(&self) -> Option<SessionInfo> {
        self.recording
    }

    pub closed spec fn status(&self) -> AppState {
        self.app_state
    }

    /// No session, the windowed-batch engine active, no model loaded, the
    /// default input device.
    pub fn new() -> (r: AudioState)
        ensures
            r.session() is None,
            r.active_engine() == ASREngine::Whisper,
            r.model(ASREngine::Whisper) is None,
            r.model(ASREngine::Parakeet) is None,
            r.input_device() is None,
            r.status() == AppState::Ready,
    {
        AudioState {
            active_engine: ASREngine::Whisper,
            whisper_model: None,
            parakeet_model: None,
            selected_input_device: None,
            recording: None,
            app_state: AppState::Ready,
        }
    }

    /// Whether a session is open.
    pub fn is_recording(&self) -> (r: bool)
        ensures
            r == self.session() is Some,
    {
        self.recording.is_some()
    }

    pub fn get_active_engine(&self) -> (r: ASREngine)
        ensures
            r == self.active_engine(),
    {
        self.active_engine
    }

    /// Choose the input device by name, or the system default with `None`.
    pub fn set_input_device(&mut self, name: Option<String>)
        ensures
            final(self).input_device() == (match name {
                Some(d) => Some(d@),
                None => None::<Seq<char>>,
            }),
            final(self).session() == old(self).session(),
            final(self).active_engine() == old(self).active_engine(),
            forall|e: ASREngine| final(self).model(e) == old(self).model(e),
    {
        self.selected_input_device = name;
    }

    /// Set the status shown to the user.
    pub fn set_status(&mut self, s: AppState)
        ensures
            final(self).status() == s,
            final(self).session() == old(self).session(),
            final(self).active_engine() == old(self).active_engine(),
            final(self).input_device() == old(self).input_device(),
            forall|e: ASREngine| final(self).model(e) == old(self).model(e),
    {
        self.app_state = s;
    }

    /// Pick the capture device among the names of the devices present:
    /// the configured one if it is present, the default when none is
    /// configured, `DeviceNotFound` when the configured one is missing.
    pub fn resolve_device(&self, available: &Vec<String>) -> (r: Result<DeviceChoice, SessionError>)
        ensures
            self.input_device() is None ==> r == Ok::<DeviceChoice, SessionError>(DeviceChoice::Default),
            self.input_device() matches Some(d) ==> ((exists|i: int| 0 <= i < available@.len() && #[trigger] available@[i]@ == d) ==> (
            r matches Ok(DeviceChoice::Named(n)) && n@ == d)),
            self.input_device() matches Some(d) ==> (!(exists|i: int| 0 <= i < available@.len() && #[trigger] available@[i]@ == d)
                ==> (r matches Err(SessionError::DeviceNotFound(n)) && n@ == d)),
    {
        match self.selected_input_device.as_ref() {
            None => Ok(DeviceChoice::Default),
            Some(name) => {
                assert(self.input_device() == Some(name@));
                let mut i: usize = 0;
                while i < available.len()
                    invariant
                        i <= available@.len(),
                        self.input_device() == Some(name@),
                        forall|j: int| 0 <= j < i ==> #[trigger] available@[j]@ != name@,
                    decreases available@.len() - i,
                {
                    if available[i].eq(name) {
                        let n = name.clone();
                        assert(available@[i as int]@ == name@);
                        return Ok(DeviceChoice::Named(n));
                    }
                    i = i + 1;
                }
                Err(SessionError::DeviceNotFound(name.clone()))
            },
        }
    }

    /// Open a session on audio of `sample_rate` and `channels`. Refused
    /// with `AlreadyRecording`, changing nothing, while one is open.
    pub fn start(&mut self, denoise: bool, sample_rate: u32, channels: u16) -> (r: Result<
        StartPlan,
        SessionError,
    >)
        ensures
            old(self).session() is Some ==> r == Err::<StartPlan, SessionError>(SessionError::AlreadyRecording)
                && *final(self) == *old(self),
            old(self).session() is None ==> r == Ok::<StartPlan, SessionError>(
                StartPlan {
                    engine: old(self).active_engine(),
                    create_denoiser: denoise,
                    lead_in_samples: (sample_rate / 2) as usize,
                },
            ) && final(self).session() == Some(
                SessionInfo { engine: old(self).active_engine(), sample_rate, channels, denoise },
            ) && final(self).status() == AppState::Recording,
            final(self).active_engine() == old(self).active_engine(),
            final(self).input_device() == old(self).input_device(),
            forall|e: ASREngine| final(self).model(e) == old(self).model(e),
    {
        if self.recording.is_some() {
            return Err(SessionError::AlreadyRecording);
        }
        let info = SessionInfo { engine: self.active_engine, sample_rate, channels, denoise };
        self.recording = Some(info);
        self.app_state = AppState::Recording;
        Ok(StartPlan { engine: self.active_engine, create_denoiser: denoise, lead_in_samples: (sample_rate / 2) as usize })
    }

    /// Close the open session, emptying the slot. Refused with
    /// `NotRecording` when there is none.
    pub fn stop(&mut self) -> (r: Result<StopPlan, SessionError>)
        ensures
            old(self).session() is None ==> r == Err::<StopPlan, SessionError>(SessionError::NotRecording)
                && *final(self) == *old(self),
            old(self).session() matches Some(info) ==> r == Ok::<StopPlan, SessionError>(
                StopPlan { engine: info.engine, tail_silence_samples: info.sample_rate as usize },
            ) && final(self).session() is None && final(self).status() == AppState::Processing,
            final(self).active_engine() == old(self).active_engine(),
            final(self).input_device() == old(self).input_device(),
            forall|e: ASREngine| final(self).model(e) == old(self).model(e),
    {
        match self.recording {
            None => Err(SessionError::NotRecording),
            Some(info) => {
                self.recording = None;
                self.app_state = AppState::Processing;
                Ok(StopPlan { engine: info.engine, tail_silence_samples: info.sample_rate as usize })
            },
        }
    }

    /// Whether a model or engine switch may go ahead: refused with
    /// `EngineBusy` while a session is open.
    pub fn check_switch(&self) -> (r: Result<(), SessionError>)
        ensures
            self.session() is Some <==> r == Err::<(), SessionError>(SessionError::EngineBusy),
            self.session() is None <==> r is Ok,
    {
        if self.recording.is_some() {
            Err(SessionError::EngineBusy)
        } else {
            Ok(())
        }
    }

    /// Record that `model_id` is now loaded for `engine`. While a session is
    /// open this is refused with `EngineBusy` and the loaded models stay as
    /// they were.
    pub fn switch_model(&mut self, engine: ASREngine, model_id: String) -> (r: Result<(), SessionError>)
        ensures
            old(self).session() is Some ==> r == Err::<(), SessionError>(SessionError::EngineBusy) && *final(self)
                == *old(self),
            old(self).session() is None ==> r is Ok && final(self).model(engine) == Some(model_id@) && (forall|
                e: ASREngine,
            | e != engine ==> final(self).model(e) == old(self).model(e)),
            final(self).session() == old(self).session(),
            final(self).active_engine() == old(self).active_engine(),
            final(self).input_device() == old(self).input_device(),
    {
        if self.recording.is_some() {
            return Err(SessionError::EngineBusy);
        }
        match engine {
            ASREngine::Whisper => {
                self.whisper_model = Some(model_id);
            },
            ASREngine::Parakeet => {
                self.parakeet_model = Some(model_id);
            },
        }
        Ok(())
    }

    /// Select the engine for the next session; refused with `EngineBusy`,
    /// changing nothing, while a session is open.
    pub fn set_active_engine(&mut self, engine: ASREngine) -> (r: Result<(), SessionError>)
        ensures
            old(self).session() is Some ==> r == Err::<(), SessionError>(SessionError::EngineBusy) && *final(self)
                == *old(self),
            old(self).session() is None ==> r is Ok && final(self).active_engine() == engine,
            final(self).session() == old(self).session(),
            forall|e: ASREngine| final(self).model(e) == old(self).model(e),
    {
        if self.recording.is_some() {
            return Err(SessionError::EngineBusy);
        }
        self.active_engine = engine;
        Ok(())
    }

    /// The id of the model loaded for `engine`, or `EngineNotInitialized`.
    pub fn loaded_model(&self, engine: ASREngine) -> (r: Result<String, SessionError>)
        ensures
            self.model(engine) is None ==> r == Err::<String, SessionError>(SessionError::EngineNotInitialized),
            self.model(engine) matches Some(m) ==> (r matches Ok(s) && s@ == m),
    {
        let m = match engine {
            ASREngine::Whisper => &self.whisper_model,
            ASREngine::Parakeet => &self.parakeet_model,
        };
        match m {
            Some(s) => Ok(s.clone()),
            None => Err(SessionError::EngineNotInitialized),
        }
    }
}

/// Sum of the samples of `s`.
pub open spec fn sample_sum(s: Seq<i16>) -> int
    decreases s.len(),
{
    if s.len() == 0 {
        0
    } else {
        sample_sum(s.drop_last()) + s.last() as int
    }
}

/// `a / b` rounded toward zero.
pub open spec fn div_toward_zero(a: int, b: int) -> int {
    if a >= 0 {
        a / b
    } else {
        -((-a) / b)
    }
}

/// Samples of interleaved frame `k` of `s` with `ch` channels (fewer in a
/// trailing partial frame).
pub open spec fn channel_frame(s: Seq<i16>, ch: int, k: int) -> Seq<i16> {
    let lo = k * ch;
    let hi = if lo + ch <= s.len() {
        lo + ch
    } else {
        s.len() as int
    };
    s.subrange(lo, hi)
}

/// Number of interleaved frames of `ch` channels in `len` samples.
pub open spec fn channel_frames(len: int, ch: int) -> int {
    if len <= 0 {
        0
    } else {
        (len - 1) / ch + 1
    }
}

/// Mono mix of interleaved `s`: each frame's sum divided by the channel
/// count, rounded toward zero.
pub open spec fn mono_mix(s: Seq<i16>, ch: int) -> Seq<i16> {
    Seq::new(
        channel_frames(s.len() as int, ch) as nat,
        |k: int| div_toward_zero(sample_sum(channel_frame(s, ch, k)), ch) as i16,
    )
}

proof fn lemma_mean_fits(sum: int, n: int, ch: int)
    requires
        1 <= ch,
        0 <= n <= ch,
        -32768 * n <= sum <= 32767 * n,
    ensures
        -32768 <= div_toward_zero(sum, ch) <= 32767,
{
    if sum >= 0 {
        assert(sum <= 32767 * ch) by (nonlinear_arith)
            requires
                sum <= 32767 * n,
                n <= ch,
        ;
        assert(sum / ch <= 32767) by (nonlinear_arith)
            requires
                0 <= sum <= 32767 * ch,
                ch >= 1,
        ;
        assert(sum / ch >= 0) by (nonlinear_arith)
            requires
                0 <= sum,
                ch >= 1,
        ;
    } else {
        assert(-sum <= 32768 * ch) by (nonlinear_arith)
            requires
                -sum <= 32768 * n,
                n <= ch,
        ;
        assert((-sum) / ch <= 32768) by (nonlinear_arith)
            requires
                0 <= -sum <= 32768 * ch,
                ch >= 1,
        ;
        assert((-sum) / ch >= 0) by (nonlinear_arith)
            requires
                0 <= -sum,
                ch >= 1,
        ;
    }
}

/// Mix interleaved samples of `channels` channels down to mono.
pub fn downmix(block: &[i16], channels: u16) -> (r: Vec<i16>)
    requires
        channels >= 1,
    ensures
        r@ == mono_mix(block@, channels as int),
{
    let ch = channels as usize;
    let len = block.len();
    let ghost s = block@;
    let mut out: Vec<i16> = Vec::new();
    let mut lo: usize = 0;
    let mut k: usize = 0;
    while lo < len
        invariant
            s == block@,
            len == s.len(),
            ch == channels as int,
            ch >= 1,
            (lo == k * ch && lo <= len) || (lo == len && k > 0 && (k - 1) * ch < len < k * ch),
            k == 0 || (k - 1) * ch < len,
            out@.len() == k,
            forall|j: int| 0 <= j < k ==> #[trigger] out@[j] == div_toward_zero(sample_sum(channel_frame(s, ch as int, j)), ch as int) as i16,
        decreases len - lo,
    {
        let hi = if len - lo >= ch {
            lo + ch
        } else {
            len
        };
        assert(channel_frame(s, ch as int, k as int) == s.subrange(lo as int, hi as int));
        let mut sum: i64 = 0;
        let mut i: usize = lo;
        while i < hi
            invariant
                s == block@,
                len == s.len(),
                lo <= i <= hi <= len,
                hi - lo <= ch,
                ch <= 65535,
                sum == sample_sum(s.subrange(lo as int, i as int)),
                -32768 * (i - lo) <= sum <= 32767 * (i - lo),
            decreases hi - i,
        {
            proof {
                assert(s.subrange(lo as int, i + 1).drop_last() =~= s.subrange(lo as int, i as int));
            }
            sum = sum + block[i] as i64;
            i = i + 1;
        }
        proof {
            lemma_mean_fits(sum as int, (hi - lo) as int, ch as int);
        }
        let m: i64 = if sum >= 0 {
            sum / (ch as i64)
        } else {
            -((-sum) / (ch as i64))
        };
        out.push(m as i16);
        assert(k <= lo) by (nonlinear_arith)
            requires
                lo == k * ch,
                ch >= 1,
        ;
        assert((k + 1) * ch == k * ch + ch) by (nonlinear_arith);
        k = k + 1;
        lo = hi;
    }
    proof {
        if len > 0 {
            assert((k - 1) * ch <= len - 1 < k * ch);
            assert(k * ch == (k - 1) * ch + ch) by (nonlinear_arith);
            vstd::arithmetic::div_mod::lemma_fundamental_div_mod_converse(
                len - 1,
                ch as int,
                k - 1,
                len - 1 - (k - 1) * ch,
            );
        }
        assert(k == channel_frames(len as int, ch as int));
        assert(out@ =~= mono_mix(s, ch as int));
    }
    out
}

/// `n` silent samples.
pub fn silence(n: usize) -> (r: Vec<i16>)
    ensures
        r@ == Seq::new(n as nat, |i: int| 0i16),
{
    let mut v: Vec<i16> = Vec::new();
    let mut i: usize = 0;
    while i < n
        invariant
            i <= n,
            v@ == Seq::new(i as nat, |j: int| 0i16),
        decreases n - i,
    {
        v.push(0);
        i = i + 1;
        assert(v@ =~= Seq::new(i as nat, |j: int| 0i16));
    }
    v
}

/// The two copies of one captured block.
pub struct Routed {
    /// The block as captured, for the recording file.
    pub persist: Vec<i16>,
    /// The block mixed to mono and, when enabled, denoised, for recognition.
    pub transcribe: Vec<i16>,
}

/// Routing of captured blocks during one session: every block goes
/// unchanged to persistence, and mixed (and maybe denoised) to
/// transcription.
pub struct CaptureRouter {
    channels: u16,
    sample_rate: u32,
    denoiser: Option<Denoiser>,
    open: bool,
    /// Samples delivered by the capture callback.
    delivered: Ghost<Seq<i16>>,
    /// Samples handed to persistence.
    persisted: Ghost<Seq<i16>>,
}

impl CaptureRouter {
    pub closed spec fn delivered(&self) -> Seq<i16> {
        self.delivered@
    }

    pub closed spec fn persisted(&self) -> Seq<i16> {
        self.persisted@
    }

    pub closed spec fn is_open(&self) -> bool {
        self.open
    }

    pub closed spec fn channel_count(&self) -> int {
        self.channels as int
    }

    pub closed spec fn rate(&self) -> int {
        self.sample_rate as int
    }

    pub closed spec fn denoiser(&self) -> Option<Denoiser> {
        self.denoiser
    }

    /// Persistence has received exactly what was delivered; a denoiser
    /// present is well formed.
    pub closed spec fn wf(&self) -> bool {
        &&& self.channels >= 1
        &&& self.persisted@ == self.delivered@
        &&& (self.denoiser matches Some(d) ==> d.wf())
    }

    /// A router for a session on `channels` channels at `sample_rate`,
    /// with a fresh denoiser when `denoise` is set.
    pub fn new(channels: u16, sample_rate: u32, denoise: bool) -> (r: CaptureRouter)
        requires
            channels >= 1,
        ensures
            r.wf(),
            r.is_open(),
            r.delivered() == Seq::<i16>::empty(),
            r.channel_count() == channels,
            r.rate() == sample_rate,
            denoise <==> r.denoiser() is Some,
            r.denoiser() matches Some(d) ==> d.pending() == Seq::<i16>::empty(),
    {
        let denoiser = if denoise {
            Some(Denoiser::new())
        } else {
            None
        };
        CaptureRouter {
            channels,
            sample_rate,
            denoiser,
            open: true,
            delivered: Ghost(Seq::empty()),
            persisted: Ghost(Seq::empty()),
        }
    }

    /// Whether blocks are still accepted (persistence not closed yet).
    pub fn accepting(&self) -> (r: bool)
        ensures
            r == self.is_open(),
    {
        self.open
    }

    /// Silence that opens the transcription path: half a second.
    pub fn lead_in(&self) -> (r: Vec<i16>)
        ensures
            r@ == Seq::new((self.rate() / 2) as nat, |i: int| 0i16),
    {
        silence((self.sample_rate / 2) as usize)
    }

    /// Route one captured block.
    pub fn route(&mut self, block: &[i16]) -> (r: Routed)
        requires
            old(self).wf(),
            old(self).is_open(),
        ensures
            final(self).wf(),
            final(self).is_open(),
            final(self).rate() == old(self).rate(),
            final(self).channel_count() == old(self).channel_count(),
            r.persist@ == block@,
            final(self).delivered() == old(self).delivered() + block@,
            final(self).persisted() == old(self).persisted() + r.persist@,
            old(self).denoiser() is None ==> final(self).denoiser() is None && r.transcribe@ == mono_mix(
                block@,
                old(self).channel_count(),
            ),
            old(self).denoiser() matches Some(d) ==> ({
                let pending = d.pending() + mono_mix(block@, old(self).channel_count());
                final(self).denoiser() matches Some(d2) && r.transcribe@ == feed(d.rnn(), pending).0
                    && d2.rnn() == feed(d.rnn(), pending).1 && d2.pending() == leftover(pending)
            }),
    {
        let mut persist: Vec<i16> = Vec::new();
        persist.extend_from_slice(block);
        assert(persist@ =~= block@);
        let mono = downmix(block, self.channels);
        let transcribe = match &mut self.denoiser {
            Some(d) => d.process(mono.as_slice()),
            None => mono,
        };
        proof {
            self.delivered = Ghost(self.delivered@ + block@);
            self.persisted = Ghost(self.persisted@ + block@);
        }
        Routed { persist, transcribe }
    }

    /// End of capture: persistence is closed first and receives nothing
    /// more; the denoiser is released; one second of silence is returned
    /// for the transcription path alone.
    pub fn close(&mut self) -> (r: Vec<i16>)
        requires
            old(self).wf(),
        ensures
            final(self).wf(),
            !final(self).is_open(),
            final(self).denoiser() is None,
            final(self).delivered() == old(self).delivered(),
            final(self).persisted() == old(self).persisted(),
            r@ == Seq::new(old(self).rate() as nat, |i: int| 0i16),
    {
        self.open = false;
        let tail = silence(self.sample_rate as usize);
        self.denoiser = None;
        tail
    }
}

/// Everything delivered by the capture callback reaches persistence, in
/// order, and nothing else does: the recording holds exactly as many
/// samples as the delivered blocks together.
pub proof fn persisted_is_delivered(r: CaptureRouter)
    requires
        r.wf(),
    ensures
        r.persisted() == r.delivered(),
        r.persisted().len() == r.delivered().len(),
{
}

/// The audio of segments `segs` of `a`, in order, each clipped to `a`.
pub open spec fn spliced(a: Seq<i16>, segs: Seq<SpeechSegment>) -> Seq<i16>
    decreases segs.len(),
{
    if segs.len() == 0 {
        Seq::empty()
    } else {
        let g = segs.last();
        let lo = if g.start <= a.len() {
            g.start as int
        } else {
            a.len() as int
        };
        let hi = if g.end <= a.len() {
            g.end as int
        } else {
            a.len() as int
        };
        spliced(a, segs.drop_last()) + a.subrange(lo, hi)
    }
}

/// Join the audio of the speech segments, dropping the gaps.
pub fn splice_speech(audio: &[i16], segments: &Vec<SpeechSegment>) -> (r: Vec<i16>)
    requires
        well_formed(segments@),
    ensures
        r@ == spliced(audio@, segments@),
{
    let len = audio.len();
    let mut out: Vec<i16> = Vec::new();
    let mut i: usize = 0;
    while i < segments.len()
        invariant
            len == audio@.len(),
            well_formed(segments@),
            i <= segments@.len(),
            out@ == spliced(audio@, segments@.take(i as int)),
        decreases segments@.len() - i,
    {
        let g = segments[i];
        let lo = if g.start <= len {
            g.start
        } else {
            len
        };
        let hi = if g.end <= len {
            g.end
        } else {
            len
        };
        assert(segments@[i as int].start <= segments@[i as int].end);
        let ghost before = out@;
        let mut j: usize = lo;
        while j < hi
            invariant
                len == audio@.len(),
                lo <= j <= hi <= len,
                out@ == before + audio@.subrange(lo as int, j as int),
            decreases hi - j,
        {
            out.push(audio[j]);
            proof {
                assert(before + audio@.subrange(lo as int, j + 1) =~= (before + audio@.subrange(lo as int, j as int)).push(
                    audio@[j as int],
                ));
            }
            j = j + 1;
        }
        proof {
            assert(segments@.take(i + 1).drop_last() =~= segments@.take(i as int));
        }
        i = i + 1;
    }
    assert(segments@.take(segments@.len() as int) =~= segments@);
    out
}

/// Padding around speech for the final pass, in milliseconds.
pub const FINAL_PASS_PADDING_MS: usize = 500;

/// Input of the windowed-batch engine's final pass over a whole 16 kHz
/// recording: the speech segments found with 500 ms padding, joined;
/// `None` when no speech was found.
pub fn final_pass_audio(vad: &VADManager, audio: &[i16]) -> (r: Option<Vec<i16>>)
    ensures
        ({
            let segs = merged(detected(audio@, vad.threshold as int, 15));
            &&& segs.len() == 0 ==> r is None
            &&& segs.len() > 0 ==> (r matches Some(v) && v@ == spliced(audio@, segs))
        }),
{
    let segs = vad.get_speech_timestamps(audio, FINAL_PASS_PADDING_MS);
    if segs.len() == 0 {
        None
    } else {
        Some(splice_speech(audio, &segs))
    }
}

/// What a session with no speech returns.
pub fn silence_marker() -> (r: String)
    ensures
        r@ == "[silence]"@,
{
    "[silence]".to_owned()
}

/// The final text of a windowed-batch session from the engine's result on
/// the joined speech: the cleaned text, or a note that the recording was
/// saved but not transcribed.
pub fn whisper_final_text(result: Result<String, String>) -> (r: String)
    ensures
        result matches Ok(t) ==> r@ == cleaned(t@),
        result matches Err(e) ==> r@ == "Recording saved, but transcription failed: "@ + e@,
{
    match result {
        Ok(t) => clean_transcript(t.as_str()),
        Err(e) => {
            let mut c = chars_of("Recording saved, but transcription failed: ");
            let ec = chars_of(e.as_str());
            c.extend_from_slice(ec.as_slice());
            string_of(c.as_slice())
        },
    }
}

} // verus!
