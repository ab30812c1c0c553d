//! Decisions of the transcriber worker: how incoming audio is cut into
//! recognition windows for each engine, which windows reach the engine,
//! which decoded texts are emitted, and the running session transcript
//! of the streaming engine. The worker thread feeds blocks in and calls
//! the engine on the windows handed back.
use crate::transcript::{chars_of, cleaned, clean_transcript, string_of, trimmed, trim_chars};
use crate::types::{ASREngine, TranscriptionChunk};
use crate::vad::{frame_is_speech, VADManager};
use vstd::prelude::*;

verus! {

/// Window length in samples: 6 s for the windowed-batch engine, 1.12 s
/// (rounded down) for the streaming engine.
pub open spec fn window_len(engine: ASREngine, rate: int) -> int {
    match engine {
        ASREngine::Whisper => rate * 6,
        ASREngine::Parakeet => rate * 112 / 100,
    }
}

/// Cut `buf` into windows of `w` samples. Whenever more than two windows
/// are waiting, the oldest is dropped first. Returns the windows and the
/// samples left over (fewer than `w`).
pub open spec fn take_windows(buf: Seq<i16>, w: int) -> (Seq<Seq<i16>>, Seq<i16>)
    decreases buf.len(),
{
    if w <= 0 || buf.len() < w {
        (Seq::empty(), buf)
    } else {
        let b = if buf.len() > 2 * w {
            buf.skip(w)
        } else {
            buf
        };
        let rest = take_windows(b.skip(w), w);
        (seq![b.take(w)] + rest.0, rest.1)
    }
}

/// The windows of `ws` that count as speech under threshold `t`.
pub open spec fn speech_windows(ws: Seq<Seq<i16>>, t: int) -> Seq<Seq<i16>>
    decreases ws.len(),
{
    if ws.len() == 0 {
        ws
    } else if frame_is_speech(ws.last(), t) {
        speech_windows(ws.drop_last(), t).push(ws.last())
    } else {
        speech_windows(ws.drop_last(), t)
    }
}

/// The texts of `s`, concatenated in order.
pub open spec fn joined(s: Seq<Seq<char>>) -> Seq<char>
    decreases s.len(),
{
    if s.len() == 0 {
        Seq::empty()
    } else {
        joined(s.drop_last()) + s.last()
    }
}

/// Whether a decoded text is emitted: the windowed-batch engine emits text
/// that is not blank, the streaming engine any text that is not empty.
pub open spec fn emits(engine: ASREngine, text: Seq<char>) -> bool {
    match engine {
        ASREngine::Whisper => trimmed(text).len() > 0,
        ASREngine::Parakeet => text.len() > 0,
    }
}

proof fn lemma_samples_deep_view(v: Vec<i16>)
    ensures
        v.deep_view() == v@,
{
    assert(v.deep_view() =~= v@);
}

/// State of the transcriber worker for one session.
pub struct Transcriber {
    engine: ASREngine,
    sample_rate: u32,
    window: usize,
    /// Samples received that do not fill a window yet.
    buffer: Vec<i16>,
    /// Running transcript of the streaming engine.
    transcript: Vec<char>,
    /// Texts emitted so far.
    emitted: Ghost<Seq<Seq<char>>>,
}

impl Transcriber {
    pub closed spec fn engine(&self) -> ASREngine {
        self.engine
    }

    pub closed spec fn rate(&self) -> int {
        self.sample_rate as int
    }

    pub closed spec fn pending(&self) -> Seq<i16> {
        self.buffer@
    }

    pub closed spec fn transcript(&self) -> Seq<char> {
        self.transcript@
    }

    pub closed spec fn emitted(&self) -> Seq<Seq<char>> {
        self.emitted@
    }

    /// The window is positive, fewer samples than a window wait, and the
    /// running transcript is the emitted texts of the streaming engine.
    pub closed spec fn wf(&self) -> bool {
        &&& self.window as int == window_len(self.engine, self.sample_rate as int)
        &&& self.window > 0
        &&& self.sample_rate as int * 120 <= usize::MAX
        &&& self.buffer@.len() < self.window
        &&& self.transcript@ == (if self.engine == ASREngine::Parakeet {
            joined(self.emitted@)
        } else {
            Seq::empty()
        })
    }

    /// A worker for `engine` on audio at `sample_rate` samples per second,
    /// with nothing buffered and nothing emitted.
    pub fn new(engine: ASREngine, sample_rate: u32) -> (r: Transcriber)
        requires
            sample_rate >= 1,
            sample_rate as int * 120 <= usize::MAX,
        ensures
            r.wf(),
            r.engine() == engine,
            r.rate() == sample_rate,
            r.pending() == Seq::<i16>::empty(),
            r.emitted() == Seq::<Seq<char>>::empty(),
    {
        let window = match engine {
            ASREngine::Whisper => (sample_rate as usize) * 6,
            ASREngine::Parakeet => (sample_rate as usize) * 112 / 100,
        };
        Transcriber {
            engine,
            sample_rate,
            window,
            buffer: Vec::new(),
            transcript: Vec::new(),
            emitted: Ghost(Seq::empty()),
        }
    }

    /// Window length in samples.
    pub fn window_len(&self) -> (r: usize)
        requires
            self.wf(),
        ensures
            r == window_len(self.engine(), self.rate()),
    {
        self.window
    }

    /// Take in a block. The buffered samples and the block are cut into
    /// windows (dropping the oldest window while more than two wait); the
    /// windows to decode are returned in order: all of them for the
    /// streaming engine, those that count as speech for the windowed-batch
    /// engine.
    pub fn push(&mut self, samples: &[i16], vad: &VADManager) -> (r: Vec<Vec<i16>>)
        requires
            old(self).wf(),
        ensures
            final(self).wf(),
            final(self).engine() == old(self).engine(),
            final(self).rate() == old(self).rate(),
            final(self).emitted() == old(self).emitted(),
            final(self).transcript() == old(self).transcript(),
            final(self).pending() == take_windows(
                old(self).pending() + samples@,
                window_len(old(self).engine(), old(self).rate()),
            ).1,
            r.deep_view() == ({
                let ws = take_windows(
                    old(self).pending() + samples@,
                    window_len(old(self).engine(), old(self).rate()),
                ).0;
                if old(self).engine() == ASREngine::Whisper {
                    speech_windows(ws, vad.threshold as int)
                } else {
                    ws
                }
            }),
    {
        let ghost all = self.buffer@ + samples@;
        let ghost wl = self.window as int;
        let ghost t = vad.threshold as int;
        let w = self.window;
        let mut buf: Vec<i16> = Vec::new();
        buf.extend_from_slice(self.buffer.as_slice());
        buf.extend_from_slice(samples);
        assert(buf@ =~= all);
        let len = buf.len();
        let mut pos: usize = 0;
        let mut out: Vec<Vec<i16>> = Vec::new();
        let ghost mut taken: Seq<Seq<i16>> = Seq::empty();
        assert(all.skip(0) =~= all);
        assert(taken + take_windows(all, wl).0 =~= take_windows(all, wl).0);
        assert(out.deep_view() =~= Seq::<Seq<i16>>::empty());
        while len - pos >= w
            invariant
                buf@ == all,
                len == all.len(),
                w as int == wl,
                wl > 0,
                pos <= len,
                t == vad.threshold as int,
                self.engine == old(self).engine,
                take_windows(all, wl) == (taken + take_windows(all.skip(pos as int), wl).0, take_windows(
                    all.skip(pos as int),
                    wl,
                ).1),
                out.deep_view() == (if self.engine == ASREngine::Whisper {
                    speech_windows(taken, t)
                } else {
                    taken
                }),
            decreases len - pos,
        {
            let ghost rest = all.skip(pos as int);
            if len - pos - w > w {
                pos = pos + w;
            }
            let ghost b = all.skip(pos as int);
            assert(b =~= (if rest.len() > 2 * wl { rest.skip(wl) } else { rest }));
            let mut win: Vec<i16> = Vec::new();
            let mut k: usize = 0;
            while k < w
                invariant
                    buf@ == all,
                    len == all.len(),
                    w as int == wl,
                    pos + w <= len,
                    k <= w,
                    win@ == all.subrange(pos as int, pos + k),
                decreases w - k,
            {
                win.push(buf[pos + k]);
                proof {
                    assert(all.subrange(pos as int, pos + k + 1) =~= all.subrange(pos as int, pos + k).push(all[pos + k]));
                }
                k = k + 1;
            }
            assert(win@ =~= b.take(wl));
            proof {
                lemma_samples_deep_view(win);
            }
            assert(b.skip(wl) =~= all.skip(pos + w));
            let ghost old_taken = taken;
            proof {
                taken = taken.push(win@);
                assert(old_taken + (seq![b.take(wl)] + take_windows(b.skip(wl), wl).0) =~= taken + take_windows(
                    b.skip(wl),
                    wl,
                ).0);
            }
            match self.engine {
                ASREngine::Whisper => {
                    let sp = vad.is_speech_block(win.as_slice());
                    proof {
                        assert(taken.drop_last() =~= old_taken);
                    }
                    if sp {
                        let ghost before = out.deep_view();
                        out.push(win);
                        assert(out.deep_view() =~= before.push(taken.last()));
                    }
                },
                ASREngine::Parakeet => {
                    let ghost before = out.deep_view();
                    out.push(win);
                    assert(out.deep_view() =~= before.push(taken.last()));
                },
            }
            pos = pos + w;
        }
        let mut rest: Vec<i16> = Vec::new();
        let mut j: usize = pos;
        while j < len
            invariant
                buf@ == all,
                len == all.len(),
                pos <= j <= len,
                rest@ == all.subrange(pos as int, j as int),
            decreases len - j,
        {
            rest.push(buf[j]);
            proof {
                assert(all.subrange(pos as int, j + 1) =~= all.subrange(pos as int, j as int).push(all[j as int]));
            }
            j = j + 1;
        }
        proof {
            assert(rest@ =~= all.skip(pos as int));
            assert(taken + Seq::<Seq<i16>>::empty() =~= taken);
        }
        self.buffer = rest;
        out
    }

    /// At the end of the audio: the buffered samples form one last window
    /// when they last longer than a tenth of a second; the buffer is
    /// emptied.
    pub fn finish(&mut self) -> (r: Vec<Vec<i16>>)
        requires
            old(self).wf(),
        ensures
            final(self).wf(),
            final(self).engine() == old(self).engine(),
            final(self).rate() == old(self).rate(),
            final(self).emitted() == old(self).emitted(),
            final(self).transcript() == old(self).transcript(),
            final(self).pending() == Seq::<i16>::empty(),
            r.deep_view() == (if 10 * old(self).pending().len() > old(self).rate() {
                seq![old(self).pending()]
            } else {
                Seq::<Seq<i16>>::empty()
            }),
    {
        let mut out: Vec<Vec<i16>> = Vec::new();
        let rate = self.sample_rate as usize;
        let mut b: Vec<i16> = Vec::new();
        std::mem::swap(&mut b, &mut self.buffer);
        proof {
            lemma_samples_deep_view(b);
        }
        assert(b@.len() <= 6 * rate);
        if 10 * b.len() > rate {
            let ghost bv = b@;
            out.push(b);
            assert(out.deep_view()[0] == out@[0].deep_view());
            assert(out.deep_view() =~= seq![bv]);
        } else {
            assert(out.deep_view() =~= Seq::<Seq<i16>>::empty());
        }
        out
    }

    /// Record a decoded text. It is emitted as a chunk when `emits` says
    /// so; the streaming engine's emitted text is also appended to the
    /// running transcript.
    pub fn accept(&mut self, text: String, elapsed_ms: u32) -> (r: Option<TranscriptionChunk>)
        requires
            old(self).wf(),
        ensures
            final(self).wf(),
            final(self).engine() == old(self).engine(),
            final(self).rate() == old(self).rate(),
            final(self).pending() == old(self).pending(),
            emits(old(self).engine(), text@) ==> (r matches Some(c) && c.text@ == text@ && c.processing_time_ms
                == elapsed_ms && c.method@ == old(self).engine().spec_label() && final(self).emitted()
                == old(self).emitted().push(text@)),
            !emits(old(self).engine(), text@) ==> r is None && final(self).emitted() == old(self).emitted(),
    {
        let cs = chars_of(text.as_str());
        let emit = match self.engine {
            ASREngine::Whisper => trim_chars(&cs).len() > 0,
            ASREngine::Parakeet => cs.len() > 0,
        };
        if !emit {
            return None;
        }
        proof {
            let old_e = self.emitted@;
            self.emitted = Ghost(old_e.push(text@));
            assert(self.emitted@.drop_last() =~= old_e);
        }
        match self.engine {
            ASREngine::Parakeet => {
                self.transcript.extend_from_slice(cs.as_slice());
                assert(self.transcript@ =~= old(self).transcript@ + text@);
                assert(joined(self.emitted@) == joined(old(self).emitted@) + text@);
            },
            ASREngine::Whisper => {},
        }
        let method = self.engine.label();
        Some(TranscriptionChunk { text, processing_time_ms: elapsed_ms, method })
    }

    /// The session transcript, cleaned: what stopping a streaming-engine
    /// session returns.
    pub fn session_text(&self) -> (r: String)
        requires
            self.wf(),
        ensures
            r@ == cleaned(self.transcript()),
    {
        let s = string_of(self.transcript.as_slice());
        clean_transcript(s.as_str())
    }
}

/// For the streaming engine, the running transcript is exactly the emitted
/// chunk texts concatenated, so the text returned at stop is their
/// concatenation, cleaned.
pub proof fn streaming_text_is_emitted_texts(w: Transcriber)
    requires
        w.wf(),
        w.engine() == ASREngine::Parakeet,
    ensures
        cleaned(w.transcript()) == cleaned(joined(w.emitted())),
{
}

} // verus!
