//! Model loading across acceleration tiers: the order in which tiers are
//! tried, and what follows each attempt. The caller performs each attempt
//! (a model load) and reports its outcome.
use crate::session::SessionError;
use crate::transcript::{chars_of, string_of, trim_chars, trimmed};
use crate::types::{ASREngine, GpuBackend};
use vstd::prelude::*;

verus! {

/// The tiers tried, in order, for `engine` on the given platform.
pub open spec fn tier_order(engine: ASREngine, macos: bool, windows: bool, cuda_found: bool) -> Seq<GpuBackend> {
    match engine {
        ASREngine::Whisper => seq![
            if cuda_found {
                GpuBackend::Cuda
            } else {
                GpuBackend::Vulkan
            },
            GpuBackend::Cpu,
        ],
        ASREngine::Parakeet => if macos {
            seq![GpuBackend::Cpu]
        } else if windows {
            seq![GpuBackend::Cuda, GpuBackend::DirectML, GpuBackend::Cpu]
        } else {
            seq![GpuBackend::Cuda, GpuBackend::Cpu]
        },
    }
}

/// Acceleration tiers to try, in order, ending with the CPU. The
/// windowed-batch engine tries its GPU build first (reported as CUDA when
/// an NVIDIA driver was found, else Vulkan); the streaming engine tries
/// CUDA, then DirectML on Windows, and only the CPU on macOS.
pub fn acceleration_order(engine: ASREngine, macos: bool, windows: bool, cuda_found: bool) -> (r: Vec<
    GpuBackend,
>)
    ensures
        r@ == tier_order(engine, macos, windows, cuda_found),
        r@.len() > 0,
        r@.last() == GpuBackend::Cpu,
{
    let mut r: Vec<GpuBackend> = Vec::new();
    match engine {
        ASREngine::Whisper => {
            if cuda_found {
                r.push(GpuBackend::Cuda);
            } else {
                r.push(GpuBackend::Vulkan);
            }
        },
        ASREngine::Parakeet => {
            if !macos {
                r.push(GpuBackend::Cuda);
                if windows {
                    r.push(GpuBackend::DirectML);
                }
            }
        },
    }
    r.push(GpuBackend::Cpu);
    assert(r@ =~= tier_order(engine, macos, windows, cuda_found));
    r
}

/// What follows a load attempt.
#[derive(Debug, Clone, PartialEq, Eq)]
pub enum LoadStep {
    /// The model is loaded on this tier.
    Loaded(GpuBackend),
    /// Try the tier at this index next.
    TryNext(usize),
}

/// After the attempt on tier `index` of `tiers`: loaded on that tier when
/// it succeeded; otherwise the next tier, and when none is left the last
/// failure as `AccelerationFallbackExhausted`. Earlier failures are
/// dropped.
pub fn after_attempt(tiers: &Vec<GpuBackend>, index: usize, outcome: Result<(), String>) -> (r: Result<
    LoadStep,
    SessionError,
>)
    requires
        index < tiers@.len(),
    ensures
        outcome is Ok ==> r == Ok::<LoadStep, SessionError>(LoadStep::Loaded(tiers@[index as int])),
        outcome is Err && index + 1 < tiers@.len() ==> r == Ok::<LoadStep, SessionError>(
            LoadStep::TryNext((index + 1) as usize),
        ),
        outcome matches Err(e) ==> (index + 1 == tiers@.len() ==> (r matches Err(
            SessionError::AccelerationFallbackExhausted(m),
        ) && m@ == e@)),
{
    match outcome {
        Ok(()) => Ok(LoadStep::Loaded(tiers[index])),
        Err(e) => {
            if index < tiers.len() - 1 {
                Ok(LoadStep::TryNext(index + 1))
            } else {
                Err(SessionError::AccelerationFallbackExhausted(e))
            }
        },
    }
}

/// The rolling context after a decode whose trimmed text is `t`: text is
/// appended, separated by one space; empty text changes nothing.
pub open spec fn context_after(ctx: Seq<char>, t: Seq<char>) -> Seq<char> {
    if t.len() == 0 {
        ctx
    } else if ctx.len() == 0 {
        t
    } else {
        ctx.push(' ') + t
    }
}

/// Text decoded so far in a session by the windowed-batch engine, fed back
/// as the prompt of the next decode.
pub struct RollingContext {
    text: Vec<char>,
}

impl RollingContext {
    pub closed spec fn text(&self) -> Seq<char> {
        self.text@
    }

    /// An empty context.
    pub fn new() -> (r: RollingContext)
        ensures
            r.text() == Seq::<char>::empty(),
    {
        RollingContext { text: Vec::new() }
    }

    /// Forget the context, at the start of a session.
    pub fn clear(&mut self)
        ensures
            final(self).text() == Seq::<char>::empty(),
    {
        self.text = Vec::new();
    }

    /// The prompt for the next decode: none while the context is empty.
    pub fn prompt(&self) -> (r: Option<String>)
        ensures
            self.text().len() == 0 ==> r is None,
            self.text().len() > 0 ==> (r matches Some(p) && p@ == self.text()),
    {
        if self.text.len() == 0 {
            None
        } else {
            Some(string_of(self.text.as_slice()))
        }
    }

    /// Take in a decoded text: returns it trimmed, and appends it to the
    /// context unless it is empty.
    pub fn record(&mut self, decoded: &str) -> (r: String)
        ensures
            r@ == trimmed(decoded@),
            final(self).text() == context_after(old(self).text(), trimmed(decoded@)),
    {
        let c = chars_of(decoded);
        let t = trim_chars(&c);
        if t.len() > 0 {
            if self.text.len() > 0 {
                self.text.push(' ');
            }
            self.text.extend_from_slice(t.as_slice());
        }
        string_of(t.as_slice())
    }
}

/// The decoded segment texts of a final pass, each followed by a space,
/// then trimmed.
pub open spec fn joined_segments(segs: Seq<Seq<char>>, sep: bool) -> Seq<char>
    decreases segs.len(),
{
    if segs.len() == 0 {
        Seq::empty()
    } else if sep {
        joined_segments(segs.drop_last(), sep) + segs.last().push(' ')
    } else {
        joined_segments(segs.drop_last(), sep) + segs.last()
    }
}

/// Join the segment texts of one decode, with a space after each segment
/// when `spaced`, and trim the result.
pub fn join_segments(segs: &Vec<String>, spaced: bool) -> (r: String)
    ensures
        r@ == trimmed(joined_segments(segs.deep_view(), spaced)),
{
    let mut out: Vec<char> = Vec::new();
    let mut i: usize = 0;
    while i < segs.len()
        invariant
            i <= segs@.len(),
            out@ == joined_segments(segs.deep_view().take(i as int), spaced),
        decreases segs@.len() - i,
    {
        let c = chars_of(segs[i].as_str());
        out.extend_from_slice(c.as_slice());
        if spaced {
            out.push(' ');
        }
        proof {
            assert(segs.deep_view().take(i + 1).drop_last() =~= segs.deep_view().take(i as int));
            assert(segs.deep_view()[i as int] == segs@[i as int]@);
        }
        i = i + 1;
    }
    assert(segs.deep_view().take(segs@.len() as int) =~= segs.deep_view());
    let t = trim_chars(&out);
    string_of(t.as_slice())
}

/// `audio` cut into consecutive pieces of `size` samples; when `pad` is
/// set the last piece is filled up with zeros to `size`.
pub open spec fn pieces(audio: Seq<i16>, size: int, pad: bool) -> Seq<Seq<i16>>
    decreases audio.len(),
{
    if size <= 0 || audio.len() == 0 {
        Seq::empty()
    } else if audio.len() <= size {
        if pad {
            seq![audio + Seq::new((size - audio.len()) as nat, |i: int| 0i16)]
        } else {
            seq![audio]
        }
    } else {
        seq![audio.take(size)] + pieces(audio.skip(size), size, pad)
    }
}

/// Cut 16 kHz audio into the fixed pieces a streaming model consumes
/// (8960 samples, zero-padded, for the cache-aware model; 2560 samples
/// for the end-of-utterance model).
pub fn split_pieces(audio: &[i16], size: usize, pad: bool) -> (r: Vec<Vec<i16>>)
    requires
        size > 0,
    ensures
        r.deep_view() == pieces(audio@, size as int, pad),
{
    let len = audio.len();
    let mut out: Vec<Vec<i16>> = Vec::new();
    let mut lo: usize = 0;
    let ghost mut done: Seq<Seq<i16>> = Seq::empty();
    assert(audio@.skip(0) =~= audio@);
    assert(done + pieces(audio@, size as int, pad) =~= pieces(audio@, size as int, pad));
    while lo < len
        invariant
            len == audio@.len(),
            lo <= len,
            size > 0,
            pieces(audio@, size as int, pad) == done + pieces(audio@.skip(lo as int), size as int, pad),
            out.deep_view() == done,
        decreases len - lo,
    {
        let hi = if len - lo > size {
            lo + size
        } else {
            len
        };
        let mut piece: Vec<i16> = Vec::new();
        let mut j: usize = lo;
        while j < hi
            invariant
                len == audio@.len(),
                lo <= j <= hi <= len,
                piece@ == audio@.subrange(lo as int, j as int),
            decreases hi - j,
        {
            piece.push(audio[j]);
            proof {
                assert(audio@.subrange(lo as int, j + 1) =~= audio@.subrange(lo as int, j as int).push(audio@[j as int]));
            }
            j = j + 1;
        }
        let ghost rest = audio@.skip(lo as int);
        if hi == len && pad {
            let ghost before = piece@;
            let mut k: usize = len - lo;
            while k < size
                invariant
                    len - lo <= k <= size,
                    piece@ == before + Seq::new((k - (len - lo)) as nat, |i: int| 0i16),
                decreases size - k,
            {
                piece.push(0);
                k = k + 1;
                assert(piece@ =~= before + Seq::new((k - (len - lo)) as nat, |i: int| 0i16));
            }
        }
        proof {
            if hi < len {
                assert(rest.take(size as int) =~= piece@);
                assert(rest.skip(size as int) =~= audio@.skip(hi as int));
            } else {
                assert(rest =~= audio@.subrange(lo as int, len as int));
                assert(audio@.skip(hi as int) =~= Seq::<i16>::empty());
            }
            let p = piece@;
            assert(piece.deep_view() =~= p);
            let old_done = done;
            done = done.push(p);
            assert(old_done + (seq![p] + pieces(audio@.skip(hi as int), size as int, pad)) =~= done + pieces(
                audio@.skip(hi as int),
                size as int,
                pad,
            ));
        }
        let ghost before_out = out.deep_view();
        out.push(piece);
        assert(out.deep_view() =~= before_out.push(done.last()));
        lo = hi;
    }
    assert(audio@.skip(lo as int) =~= Seq::<i16>::empty());
    assert(done + Seq::<Seq<i16>>::empty() =~= done);
    out
}

} // verus!
