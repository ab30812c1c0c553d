//! Energy-based voice-activity detection over 16 kHz mono 16-bit PCM.
//!
//! A block's speech probability is given in thousandths (`0..=1000`).
//! Speech segments are reported as half-open sample ranges at 16 kHz.
use vstd::prelude::*;

verus! {

/// Samples per second of the audio the detector works on.
pub const SAMPLE_RATE: usize = 16000;

/// Samples per analysis frame (32 ms at 16 kHz).
pub const FRAME_SIZE: usize = 512;

/// Milliseconds per analysis frame.
pub const FRAME_MS: usize = 32;

/// Consecutive speech frames needed before a run counts as a segment.
pub const MIN_SPEECH_FRAMES: usize = 5;

/// Probability scale: `PROB_ONE` stands for certainty.
pub const PROB_ONE: u64 = 1000;

/// A frame counts as speech when its probability is above this value.
pub const PROB_HALF: u64 = 500;

/// Default RMS threshold in PCM units (about 0.005 of full scale).
pub const DEFAULT_THRESHOLD: u16 = 164;

/// Sum of the squared samples of `s`.
pub open spec fn energy(s: Seq<i16>) -> int
    decreases s.len(),
{
    if s.len() == 0 {
        0
    } else {
        energy(s.drop_last()) + (s.last() as int) * (s.last() as int)
    }
}

/// `t + 4t * p / 1000 <= rms(s)`, stated without a square root:
/// the level `p` (in thousandths) is reached by the block.
pub open spec fn level_reached(e: int, n: int, t: int, p: int) -> bool {
    t * t * (1000 + 4 * p) * (1000 + 4 * p) * n <= 1000000 * e
}

/// RMS below the threshold: `e / n < t * t`.
pub open spec fn below_threshold(e: int, n: int, t: int) -> bool {
    e < t * t * n
}

/// RMS above five times the threshold: `e / n > 25 * t * t`.
pub open spec fn above_ceiling(e: int, n: int, t: int) -> bool {
    e > 25 * t * t * n
}

/// The speech probability (thousandths) of block `s` under threshold `t`:
/// 0 below `t`, 1000 above `5t`, and in between the largest `p` with
/// `t + 4t * p / 1000 <= rms`, i.e. the linear map rounded down.
/// An empty block carries no energy and is silence.
pub open spec fn speech_prob(s: Seq<i16>, t: int, p: int) -> bool {
    let e = energy(s);
    let n = s.len() as int;
    if n == 0 || below_threshold(e, n, t) {
        p == 0
    } else if above_ceiling(e, n, t) {
        p == 1000
    } else {
        0 <= p <= 1000 && level_reached(e, n, t, p) && (p == 1000 || !level_reached(e, n, t, p + 1))
    }
}

/// Whether a frame counts as speech: its probability is above one half.
pub open spec fn frame_is_speech(s: Seq<i16>, t: int) -> bool {
    exists|p: int| speech_prob(s, t, p) && p > PROB_HALF
}

proof fn lemma_energy_nonneg_bounded(s: Seq<i16>)
    ensures
        0 <= energy(s) <= s.len() * 1073741824,
    decreases s.len(),
{
    if s.len() > 0 {
        lemma_energy_nonneg_bounded(s.drop_last());
        let x = s.last() as int;
        assert(0 <= x * x <= 1073741824) by (nonlinear_arith)
            requires
                -32768 <= x <= 32767,
        ;
    }
}

proof fn lemma_level_monotone(e: int, n: int, t: int, p: int, q: int)
    requires
        0 <= p <= q,
        0 <= n,
        level_reached(e, n, t, q),
    ensures
        level_reached(e, n, t, p),
{
    let a = 1000 + 4 * p;
    let b = 1000 + 4 * q;
    let tt = t * t;
    assert(0 <= t * t) by (nonlinear_arith);
    assert(tt * a * a * n <= tt * b * b * n) by (nonlinear_arith)
        requires
            0 < a <= b,
            0 <= tt,
            0 <= n,
    ;
}

/// The probability is unique where it exists.
proof fn lemma_speech_prob_unique(s: Seq<i16>, t: int, p: int, q: int)
    requires
        speech_prob(s, t, p),
        speech_prob(s, t, q),
    ensures
        p == q,
{
    let e = energy(s);
    let n = s.len() as int;
    if !(n == 0 || below_threshold(e, n, t)) && !above_ceiling(e, n, t) {
        if p < q {
            lemma_level_monotone(e, n, t, p + 1, q);
        } else if q < p {
            lemma_level_monotone(e, n, t, q + 1, p);
        }
    }
}

proof fn lemma_energy_zero(s: Seq<i16>)
    requires
        forall|i: int| 0 <= i < s.len() ==> s[i] == 0,
    ensures
        energy(s) == 0,
    decreases s.len(),
{
    if s.len() > 0 {
        lemma_energy_zero(s.drop_last());
    }
}

/// With a positive threshold, a block of zero samples has probability 0,
/// and a non-empty block whose RMS is at least five times the threshold
/// has probability 1.
pub proof fn speech_prob_extremes(s: Seq<i16>, t: int, p: int)
    requires
        t > 0,
        speech_prob(s, t, p),
    ensures
        (forall|i: int| 0 <= i < s.len() ==> s[i] == 0) ==> p == 0,
        s.len() > 0 && energy(s) >= 25 * t * t * s.len() ==> p == 1000,
{
    let n = s.len() as int;
    let e = energy(s);
    assert(t * t > 0) by (nonlinear_arith)
        requires
            t > 0,
    ;
    if forall|i: int| 0 <= i < s.len() ==> s[i] == 0 {
        lemma_energy_zero(s);
        if n > 0 {
            assert(t * t * n > 0) by (nonlinear_arith)
                requires
                    t * t > 0,
                    n > 0,
            ;
        }
    }
    if n > 0 && e >= 25 * t * t * n {
        assert(t * t * n <= 25 * t * t * n) by (nonlinear_arith)
            requires
                t * t > 0,
                n > 0,
        ;
        if !above_ceiling(e, n, t) {
            assert(level_reached(e, n, t, 1000)) by (nonlinear_arith)
                requires
                    e >= 25 * t * t * n,
            ;
            if p < 1000 {
                lemma_level_monotone(e, n, t, p + 1, 1000);
            }
        }
    }
}

/// Energy of `audio[lo..hi]`, with its bound.
fn range_energy(audio: &[i16], lo: usize, hi: usize) -> (r: u128)
    requires
        lo <= hi <= audio@.len(),
    ensures
        r as int == energy(audio@.subrange(lo as int, hi as int)),
        r as int <= (hi - lo) * 1073741824,
{
    let mut acc: u128 = 0;
    let mut i: usize = lo;
    while i < hi
        invariant
            lo <= i <= hi <= audio@.len(),
            acc as int == energy(audio@.subrange(lo as int, i as int)),
            acc as int <= (i - lo) * 1073741824,
        decreases hi - i,
    {
        let x = audio[i] as i128;
        proof {
            assert(0 <= x * x <= 1073741824) by (nonlinear_arith)
                requires
                    -32768 <= x <= 32767,
            ;
            let s = audio@.subrange(lo as int, i as int + 1);
            assert(s.drop_last() =~= audio@.subrange(lo as int, i as int));
        }
        acc = acc + (x * x) as u128;
        i = i + 1;
    }
    acc
}

/// Speech probability of `audio[lo..hi]` under threshold `t`.
fn range_prob(audio: &[i16], lo: usize, hi: usize, t: u16) -> (p: u64)
    requires
        lo <= hi <= audio@.len(),
    ensures
        speech_prob(audio@.subrange(lo as int, hi as int), t as int, p as int),
        p <= PROB_ONE,
{
    let ghost s = audio@.subrange(lo as int, hi as int);
    let e = range_energy(audio, lo, hi);
    let n = (hi - lo) as u128;
    proof {
        assert(0 <= (t as int) * (t as int) <= 4294836225) by (nonlinear_arith)
            requires
                0 <= t <= 65535,
        ;
    }
    let tt = (t as u128) * (t as u128);
    proof {
        assert(tt * n <= 4294836225 * 18446744073709551615) by (nonlinear_arith)
            requires
                0 <= tt <= 4294836225,
                0 <= n <= 18446744073709551615,
        ;
    }
    let tn = tt * n;
    assert(tn == t as int * t as int * n);
    assert(25 * tn == 25 * (t as int) * (t as int) * (n as int)) by (nonlinear_arith)
        requires
            tn == t as int * t as int * n,
    ;
    if n == 0 || e < tn {
        return 0;
    }
    assert(!below_threshold(e as int, s.len() as int, t as int));
    if e > 25 * tn {
        assert(above_ceiling(e as int, s.len() as int, t as int));
        return 1000;
    }
    assert(!above_ceiling(e as int, s.len() as int, t as int));
    proof {
        lemma_energy_nonneg_bounded(s);
        assert(level_reached(e as int, n as int, t as int, 0)) by (nonlinear_arith)
            requires
                tn == t as int * t as int * n,
                e >= tn,
        ;
    }
    let big = 1000000 * e;
    let mut p: u64 = 0;
    while p < 1000
        invariant
            p <= 1000,
            n == s.len(),
            tn == t as int * t as int * n,
            tn <= 4294836225 * 18446744073709551615,
            big == 1000000 * e,
            level_reached(e as int, n as int, t as int, p as int),
        ensures
            p <= 1000,
            level_reached(e as int, n as int, t as int, p as int),
            p == 1000 || !level_reached(e as int, n as int, t as int, p + 1),
        decreases 1000 - p,
    {
        let k = 1000 + 4 * (p as u128 + 1);
        proof {
            assert(tn * k * k <= 4294836225 * 18446744073709551615 * 5000 * 5000) by (nonlinear_arith)
                requires
                    0 <= tn <= 4294836225 * 18446744073709551615,
                    0 < k <= 5000,
            ;
            assert(tn * k <= tn * k * k) by (nonlinear_arith)
                requires
                    0 <= tn,
                    0 < k,
            ;
            assert(tn * k * k == t as int * t as int * (1000 + 4 * (p + 1)) * (1000 + 4 * (p + 1)) * n) by (nonlinear_arith)
                requires
                    tn == t as int * t as int * n,
                    k == 1000 + 4 * (p + 1),
            ;
        }
        if tn * k * k <= big {
            p = p + 1;
        } else {
            break;
        }
    }
    p
}

/// A stretch of speech: samples `start..end` at 16 kHz.
#[derive(Clone, Copy, Debug, PartialEq, Eq, Structural)]
pub struct SpeechSegment {
    pub start: usize,
    pub end: usize,
}

/// Segments are time-ordered and neither overlap nor touch.
pub open spec fn separated(s: Seq<SpeechSegment>) -> bool {
    forall|i: int| 0 < i < s.len() ==> #[trigger] s[i - 1].end < s[i].start
}

/// Every segment starts no later than it ends.
pub open spec fn well_formed(s: Seq<SpeechSegment>) -> bool {
    forall|i: int| 0 <= i < s.len() ==> #[trigger] s[i].start <= s[i].end
}

/// Left-to-right merge: a segment that starts at or before the end of the
/// last kept segment extends it; any other segment is kept as it is.
pub open spec fn merged(s: Seq<SpeechSegment>) -> Seq<SpeechSegment>
    decreases s.len(),
{
    if s.len() == 0 {
        s
    } else {
        let m = merged(s.drop_last());
        let x = s.last();
        if m.len() > 0 && x.start <= m.last().end {
            let e = if x.end > m.last().end {
                x.end
            } else {
                m.last().end
            };
            m.update(m.len() - 1, SpeechSegment { start: m.last().start, end: e })
        } else {
            m.push(x)
        }
    }
}

proof fn lemma_merged_shape(s: Seq<SpeechSegment>)
    ensures
        separated(merged(s)),
        well_formed(s) ==> well_formed(merged(s)),
    decreases s.len(),
{
    if s.len() > 0 {
        lemma_merged_shape(s.drop_last());
        if well_formed(s) {
            assert(well_formed(s.drop_last()));
        }
        let m = merged(s.drop_last());
        let r = merged(s);
        if m.len() > 0 && s.last().start <= m.last().end {
            assert forall|i: int| 0 < i < r.len() implies #[trigger] r[i - 1].end < r[i].start by {
                assert(m[i - 1].end < m[i].start);
            }
        } else {
            assert forall|i: int| 0 < i < r.len() implies #[trigger] r[i - 1].end < r[i].start by {
                if i < m.len() {
                    assert(m[i - 1].end < m[i].start);
                }
            }
        }
    }
}

proof fn lemma_merged_separated_fixed(s: Seq<SpeechSegment>)
    requires
        separated(s),
    ensures
        merged(s) == s,
    decreases s.len(),
{
    if s.len() > 0 {
        let d = s.drop_last();
        assert(separated(d)) by {
            assert forall|i: int| 0 < i < d.len() implies #[trigger] d[i - 1].end < d[i].start by {
                assert(s[i - 1].end < s[i].start);
            }
        }
        lemma_merged_separated_fixed(d);
        if d.len() > 0 {
            assert(s[s.len() - 2].end < s[s.len() - 1].start);
        }
        assert(d.push(s.last()) =~= s);
    }
}

/// Merging is idempotent: merging the output of a merge changes nothing.
pub proof fn merge_idempotent(s: Seq<SpeechSegment>)
    ensures
        merged(merged(s)) == merged(s),
{
    lemma_merged_shape(s);
    lemma_merged_separated_fixed(merged(s));
}

/// Merge overlapping or touching segments, left to right.
pub fn merge_segments(segments: &Vec<SpeechSegment>) -> (r: Vec<SpeechSegment>)
    ensures
        r@ == merged(segments@),
        separated(r@),
        well_formed(segments@) ==> well_formed(r@),
{
    let mut out: Vec<SpeechSegment> = Vec::new();
    let mut i: usize = 0;
    while i < segments.len()
        invariant
            i <= segments@.len(),
            out@ == merged(segments@.take(i as int)),
        decreases segments@.len() - i,
    {
        let seg = segments[i];
        proof {
            assert(segments@.take(i as int + 1).drop_last() =~= segments@.take(i as int));
        }
        let k = out.len();
        if k > 0 && seg.start <= out[k - 1].end {
            let last = out[k - 1];
            let e = if seg.end > last.end {
                seg.end
            } else {
                last.end
            };
            out.set(k - 1, SpeechSegment { start: last.start, end: e });
        } else {
            out.push(seg);
        }
        i = i + 1;
    }
    proof {
        assert(segments@.take(segments@.len() as int) =~= segments@);
        lemma_merged_shape(segments@);
    }
    out
}

/// Samples of frame `k` of `a`: `FRAME_SIZE` samples, fewer for the last one.
pub open spec fn frame_of(a: Seq<i16>, k: int) -> Seq<i16> {
    let lo = k * 512;
    let hi = if lo + 512 <= a.len() {
        lo + 512
    } else {
        a.len() as int
    };
    a.subrange(lo, hi)
}

/// Number of frames that cover `len` samples.
pub open spec fn frame_count(len: int) -> int {
    if len <= 0 {
        0
    } else {
        (len - 1) / 512 + 1
    }
}

/// A segment of whole frames `first..last`, at sample resolution.
pub open spec fn frame_segment(first: int, end_sample: int) -> SpeechSegment {
    SpeechSegment { start: (first * 512) as usize, end: end_sample as usize }
}

/// First frame of a detected run once `pad` frames of lead-in are added.
pub open spec fn padded_start(s: int, pad: int) -> int {
    if s >= pad {
        s - pad
    } else {
        0
    }
}

/// Run tracker after the first `k` frames: the open run's first frame, the
/// speech frames in it, the silent frames since its last speech frame, and
/// the segments closed so far. A run closes after more than `pad` silent
/// frames, and is kept only if it held at least `MIN_SPEECH_FRAMES` speech
/// frames; its start moves back by `pad` frames.
pub open spec fn scan(a: Seq<i16>, t: int, pad: int, k: int) -> (
    Option<int>,
    int,
    int,
    Seq<SpeechSegment>,
)
    decreases k,
{
    if k <= 0 {
        (None, 0, 0, Seq::empty())
    } else {
        let prev = scan(a, t, pad, k - 1);
        let i = k - 1;
        let sp = frame_is_speech(frame_of(a, i), t);
        match prev.0 {
            None => if sp {
                (Some(i), 1, 0, prev.3)
            } else {
                prev
            },
            Some(s) => if sp {
                (Some(s), prev.1 + 1, 0, prev.3)
            } else if prev.2 + 1 > pad {
                let segs = if prev.1 >= 5 {
                    prev.3.push(frame_segment(padded_start(s, pad), i * 512))
                } else {
                    prev.3
                };
                (None, 0, 0, segs)
            } else {
                (Some(s), prev.1, prev.2 + 1, prev.3)
            },
        }
    }
}

/// The segments found before merging: those closed during the scan, and
/// a run still open at the end of the audio, which ends there.
pub open spec fn detected(a: Seq<i16>, t: int, pad: int) -> Seq<SpeechSegment> {
    let st = scan(a, t, pad, frame_count(a.len() as int));
    match st.0 {
        Some(s) => if st.1 >= 5 {
            st.3.push(frame_segment(padded_start(s, pad), a.len() as int))
        } else {
            st.3
        },
        None => st.3,
    }
}

/// Energy-based voice-activity detector.
pub struct VADManager {
    /// RMS threshold in PCM units at which a block starts to count as speech.
    pub threshold: u16,
}

impl VADManager {
    /// A detector with the default threshold.
    pub fn new() -> (r: Result<VADManager, String>)
        ensures
            r matches Ok(v) && v.threshold == DEFAULT_THRESHOLD,
    {
        Ok(VADManager { threshold: DEFAULT_THRESHOLD })
    }

    /// A detector with the given threshold.
    pub fn with_threshold(threshold: u16) -> (r: VADManager)
        ensures
            r.threshold == threshold,
    {
        VADManager { threshold }
    }

    /// Speech probability of a block, in thousandths: 0 when the RMS is below
    /// the threshold, 1000 when it is above five times the threshold, and
    /// linear (rounded down) in between.
    pub fn is_speech(&self, audio: &[i16]) -> (p: u64)
        ensures
            speech_prob(audio@, self.threshold as int, p as int),
            p <= PROB_ONE,
    {
        let p = range_prob(audio, 0, audio.len(), self.threshold);
        proof {
            assert(audio@.subrange(0, audio@.len() as int) =~= audio@);
        }
        p
    }

    /// Whether a block counts as speech: its probability is above one half.
    pub fn is_speech_block(&self, audio: &[i16]) -> (r: bool)
        ensures
            r == frame_is_speech(audio@, self.threshold as int),
    {
        let r = self.frame_speech(audio, 0, audio.len());
        proof {
            assert(audio@.subrange(0, audio@.len() as int) =~= audio@);
        }
        r
    }

    /// Whether `audio[lo..hi]` counts as speech.
    fn frame_speech(&self, audio: &[i16], lo: usize, hi: usize) -> (r: bool)
        requires
            lo <= hi <= audio@.len(),
        ensures
            r == frame_is_speech(audio@.subrange(lo as int, hi as int), self.threshold as int),
    {
        let p = range_prob(audio, lo, hi, self.threshold);
        let ghost s = audio@.subrange(lo as int, hi as int);
        let ghost t = self.threshold as int;
        if p > PROB_HALF {
            true
        } else {
            proof {
                assert forall|q: int| speech_prob(s, t, q) implies !(q > PROB_HALF) by {
                    lemma_speech_prob_unique(s, t, p as int, q);
                }
            }
            false
        }
    }

    /// Speech segments of a whole 16 kHz recording. The audio is cut into
    /// 32 ms frames; a run of speech frames becomes a segment once followed
    /// by more than `padding_ms` of silence (or by the end of the audio),
    /// if it held at least `MIN_SPEECH_FRAMES` speech frames; each segment
    /// starts `padding_ms` early, and overlapping or touching segments are
    /// merged.
    pub fn get_speech_timestamps(&self, audio: &[i16], padding_ms: usize) -> (r: Vec<SpeechSegment>)
        ensures
            r@ == merged(detected(audio@, self.threshold as int, (padding_ms / FRAME_MS) as int)),
            separated(r@),
            well_formed(r@),
    {
        let pad = padding_ms / FRAME_MS;
        let ghost a = audio@;
        let ghost t = self.threshold as int;
        let len = audio.len();
        let mut segments: Vec<SpeechSegment> = Vec::new();
        let mut start: Option<usize> = None;
        let mut consec: usize = 0;
        let mut silence: usize = 0;
        let mut i: usize = 0;
        let mut lo: usize = 0;
        while lo < len
            invariant
                len == a.len(),
                a == audio@,
                t == self.threshold as int,
                (lo == i * 512 && lo <= len) || (lo == len && i > 0 && (i - 1) * 512 < len < i * 512),
                i == 0 || (i - 1) * 512 < len,
                (start, consec as int, silence as int, segments@) matches (st, c, sl, sg) && (
                scan(a, t, pad as int, i as int) == (
                match st {
                    Some(s) => Some(s as int),
                    None => None::<int>,
                },
                c,
                sl,
                sg,
                )),
                start matches Some(s) ==> s < i,
                consec <= i,
                silence <= i,
                well_formed(segments@),
                forall|j: int| 0 <= j < segments@.len() ==> #[trigger] segments@[j].end <= lo,
            decreases len - lo,
        {
            let hi = if len - lo >= 512 {
                lo + 512
            } else {
                len
            };
            assert(frame_of(a, i as int) == a.subrange(lo as int, hi as int));
            let sp = self.frame_speech(audio, lo, hi);
            match start {
                None => {
                    if sp {
                        start = Some(i);
                        consec = 1;
                        silence = 0;
                    }
                },
                Some(s) => {
                    if sp {
                        consec = consec + 1;
                        silence = 0;
                    } else if silence + 1 > pad {
                        if consec >= MIN_SPEECH_FRAMES {
                            let first = if s >= pad {
                                s - pad
                            } else {
                                0
                            };
                            let seg = SpeechSegment { start: first * 512, end: lo };
                            segments.push(seg);
                        }
                        start = None;
                        consec = 0;
                        silence = 0;
                    } else {
                        silence = silence + 1;
                    }
                },
            }
            i = i + 1;
            lo = hi;
        }
        assert(i as int == frame_count(len as int));
        match start {
            Some(s) => {
                if consec >= MIN_SPEECH_FRAMES {
                    let first = if s >= pad {
                        s - pad
                    } else {
                        0
                    };
                    segments.push(SpeechSegment { start: first * 512, end: len });
                }
            },
            None => {},
        }
        merge_segments(&segments)
    }
}

} // verus!
