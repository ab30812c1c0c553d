//! Frame-buffered noise suppression over RNNoise (nnnoiseless).
//!
//! RNNoise consumes fixed frames of `FRAME_SIZE` samples and carries a
//! recurrent state from frame to frame. `Denoiser` accepts blocks of any
//! size, keeps the samples that do not fill a frame for the next call, and
//! hands RNNoise the stream cut into consecutive frames.
use nnnoiseless::DenoiseState;
use vstd::prelude::*;

verus! {

/// Samples per RNNoise frame.
pub const FRAME_SIZE: usize = 480;

/// nnnoiseless's RNNoise state, opaque to Verus.
#[verifier::external_type_specification]
#[verifier::external_body]
pub struct ExDenoiseState<'a>(DenoiseState<'a>);

/// The frame RNNoise emits for `frame` when its state is `s`.
pub uninterp spec fn rnnoise_output(s: DenoiseState<'static>, frame: Seq<i16>) -> Seq<i16>;

/// The state RNNoise is left in after processing `frame` in state `s`.
pub uninterp spec fn rnnoise_after(s: DenoiseState<'static>, frame: Seq<i16>) -> DenoiseState<'static>;

/// Relies on nnnoiseless's `DenoiseState::new`: a fresh RNNoise state.
#[verifier::external_body]
fn fresh_state() -> (r: Box<DenoiseState<'static>>) {
    DenoiseState::new()
}

/// Relies on nnnoiseless's `DenoiseState::process_frame`: it takes one
/// frame of 16-bit PCM (as floats in the 16-bit range), writes one frame
/// of the same length, and its output and the state it leaves depend on
/// the state before and the frame alone.
#[verifier::external_body]
fn rnnoise_frame(state: &mut Box<DenoiseState<'static>>, frame: &[i16]) -> (r: Vec<i16>)
    requires
        frame@.len() == FRAME_SIZE,
    ensures
        r@ == rnnoise_output(**old(state), frame@),
        r@.len() == FRAME_SIZE,
        **final(state) == rnnoise_after(**old(state), frame@),
{
    let input: Vec<_> = frame.iter().map(|&x| x.into()).collect();
    let mut output = vec![Default::default(); frame.len()];
    state.process_frame(output.as_mut_slice(), input.as_slice());
    output.iter().map(|&y| y as i16).collect()
}

/// Output and final state when RNNoise in state `s` is fed the whole
/// frames of `pending`, in order; a trailing partial frame is not fed.
pub open spec fn feed(s: DenoiseState<'static>, pending: Seq<i16>) -> (Seq<i16>, DenoiseState<'static>)
    decreases pending.len(),
{
    if pending.len() < 480 {
        (Seq::empty(), s)
    } else {
        let f = pending.take(480);
        let rest = feed(rnnoise_after(s, f), pending.skip(480));
        (rnnoise_output(s, f) + rest.0, rest.1)
    }
}

/// Samples of `pending` past its last whole frame.
pub open spec fn leftover(pending: Seq<i16>) -> Seq<i16> {
    pending.skip(480 * (pending.len() as int / 480))
}

/// Feeding whole frames `y` and then `z` is feeding `y + z`.
pub proof fn lemma_feed_concat(s: DenoiseState<'static>, y: Seq<i16>, z: Seq<i16>)
    requires
        y.len() % 480 == 0,
    ensures
        feed(s, y + z) == (feed(s, y).0 + feed(feed(s, y).1, z).0, feed(feed(s, y).1, z).1),
    decreases y.len(),
{
    if y.len() == 0 {
        assert(y + z =~= z);
        assert(Seq::<i16>::empty() + feed(s, z).0 =~= feed(s, z).0);
    } else {
        let f = y.take(480);
        assert((y + z).take(480) =~= f);
        assert((y + z).skip(480) =~= y.skip(480) + z);
        let s1 = rnnoise_after(s, f);
        lemma_feed_concat(s1, y.skip(480), z);
        let a = rnnoise_output(s, f);
        let b = feed(s1, y.skip(480)).0;
        let c = feed(feed(s1, y.skip(480)).1, z).0;
        assert(a + (b + c) =~= (a + b) + c);
    }
}

/// Feeding a sequence shorter than a frame changes nothing.
proof fn lemma_feed_short(s: DenoiseState<'static>, x: Seq<i16>)
    requires
        x.len() < 480,
    ensures
        feed(s, x) == (Seq::<i16>::empty(), s),
{
}

/// A noise suppressor that accepts blocks of any length.
pub struct Denoiser {
    state: Box<DenoiseState<'static>>,
    /// Samples received that do not fill a frame yet.
    remainder: Vec<i16>,
    /// Frames handed to RNNoise so far.
    frames_processed: u64,
}

impl Denoiser {
    /// The samples held back for the next call.
    pub closed spec fn pending(&self) -> Seq<i16> {
        self.remainder@
    }

    /// The RNNoise state.
    pub closed spec fn rnn(&self) -> DenoiseState<'static> {
        *self.state
    }

    /// Less than a frame is ever held back.
    pub closed spec fn wf(&self) -> bool {
        self.remainder@.len() < FRAME_SIZE
    }

    /// A denoiser with a fresh RNNoise state and nothing held back.
    pub fn new() -> (r: Denoiser)
        ensures
            r.wf(),
            r.pending() == Seq::<i16>::empty(),
    {
        Denoiser { state: fresh_state(), remainder: Vec::new(), frames_processed: 0 }
    }

    /// Denoise a block: the samples held back followed by `input` are cut
    /// into whole frames, which RNNoise processes in order; their output
    /// is returned and the samples past the last whole frame are held back.
    pub fn process(&mut self, input: &[i16]) -> (r: Vec<i16>)
        requires
            old(self).wf(),
        ensures
            final(self).wf(),
            r@ == feed(old(self).rnn(), old(self).pending() + input@).0,
            final(self).rnn() == feed(old(self).rnn(), old(self).pending() + input@).1,
            final(self).pending() == leftover(old(self).pending() + input@),
    {
        let ghost s0 = *self.state;
        let ghost all = self.remainder@ + input@;
        let mut frame: Vec<i16> = Vec::new();
        let mut k: usize = 0;
        while k < self.remainder.len()
            invariant
                k <= self.remainder@.len() < FRAME_SIZE,
                frame@ == self.remainder@.take(k as int),
            decreases self.remainder@.len() - k,
        {
            frame.push(self.remainder[k]);
            proof {
                assert(self.remainder@.take(k as int + 1) =~= self.remainder@.take(k as int).push(self.remainder@[k as int]));
            }
            k = k + 1;
        }
        assert(frame@ =~= self.remainder@);
        let ghost r0 = self.remainder@.len();
        let mut output: Vec<i16> = Vec::new();
        let mut done: usize = 0;
        let mut i: usize = 0;
        while i < input.len()
            invariant
                all == old(self).remainder@ + input@,
                s0 == *old(self).state,
                r0 == old(self).remainder@.len(),
                r0 < 480,
                i <= input@.len(),
                frame@.len() < FRAME_SIZE,
                480 * done + frame@.len() == r0 + i,
                all.take(r0 + i) == all.take(480 * done) + frame@,
                (output@, *self.state) == feed(s0, all.take(480 * done)),
                self.remainder@ == old(self).remainder@,
            decreases input@.len() - i,
        {
            frame.push(input[i]);
            proof {
                assert(all[r0 + i] == input@[i as int]);
                assert(all.take(r0 + i + 1) =~= all.take(r0 + i).push(input@[i as int]));
                assert(all.take(r0 + i + 1) =~= all.take(480 * done) + frame@);
            }
            i = i + 1;
            if frame.len() == FRAME_SIZE {
                let ghost y = all.take(480 * done);
                let out = rnnoise_frame(&mut self.state, frame.as_slice());
                proof {
                    lemma_feed_concat(s0, y, frame@);
                    assert(frame@.take(480) =~= frame@);
                    assert(frame@.skip(480).len() == 0);
                    lemma_feed_short(rnnoise_after(feed(s0, y).1, frame@), frame@.skip(480));
                    assert(rnnoise_output(feed(s0, y).1, frame@) + Seq::<i16>::empty() =~= rnnoise_output(feed(s0, y).1, frame@));
                }
                output.extend_from_slice(out.as_slice());
                frame = Vec::new();
                assert(480 * (done + 1) == r0 + i);
                assert(i <= usize::MAX && r0 < 480);
                assert(done + 1 < usize::MAX);
                done = done + 1;
                proof {
                    assert(all.take(480 * done) =~= y + all.take(480 * done).skip(480 * (done - 1)));
                    assert(all.take(r0 + i) =~= all.take(480 * done) + frame@);
                }
            }
        }
        proof {
            assert(all.take(r0 + i) =~= all);
            let y = all.take(480 * done);
            lemma_feed_concat(s0, y, frame@);
            lemma_feed_short(feed(s0, y).1, frame@);
            assert(output@ + Seq::<i16>::empty() =~= output@);
            assert(all.len() / 480 == done);
            assert(frame@ =~= all.skip(480 * done));
        }
        self.remainder = frame;
        if self.frames_processed < u64::MAX - (done as u64) {
            self.frames_processed = self.frames_processed + done as u64;
        }
        output
    }

    /// Process the held-back samples as one frame padded with zeros and
    /// return as many output samples as were held back.
    pub fn flush(&mut self) -> (r: Vec<i16>)
        requires
            old(self).wf(),
        ensures
            final(self).wf(),
            final(self).pending() == Seq::<i16>::empty(),
            old(self).pending().len() == 0 ==> r@ == Seq::<i16>::empty() && final(self).rnn() == old(self).rnn(),
            old(self).pending().len() > 0 ==> r@ == rnnoise_output(old(self).rnn(), zero_padded(old(self).pending())).take(
                old(self).pending().len() as int,
            ) && final(self).rnn() == rnnoise_after(old(self).rnn(), zero_padded(old(self).pending())),
    {
        if self.remainder.len() == 0 {
            return Vec::new();
        }
        let valid = self.remainder.len();
        let mut frame: Vec<i16> = Vec::new();
        let mut k: usize = 0;
        while k < FRAME_SIZE
            invariant
                valid == self.remainder@.len() < FRAME_SIZE,
                k <= FRAME_SIZE,
                frame@ == zero_padded(self.remainder@).take(k as int),
            decreases FRAME_SIZE - k,
        {
            let x = if k < valid {
                self.remainder[k]
            } else {
                0
            };
            frame.push(x);
            proof {
                assert(zero_padded(self.remainder@).take(k as int + 1) =~= zero_padded(self.remainder@).take(k as int).push(x));
            }
            k = k + 1;
        }
        assert(frame@ =~= zero_padded(self.remainder@));
        let out = rnnoise_frame(&mut self.state, frame.as_slice());
        self.remainder = Vec::new();
        if self.frames_processed < u64::MAX {
            self.frames_processed = self.frames_processed + 1;
        }
        let mut r: Vec<i16> = Vec::new();
        let mut j: usize = 0;
        while j < valid
            invariant
                valid < FRAME_SIZE,
                out@.len() == FRAME_SIZE,
                j <= valid,
                r@ == out@.take(j as int),
            decreases valid - j,
        {
            r.push(out[j]);
            proof {
                assert(out@.take(j as int + 1) =~= out@.take(j as int).push(out@[j as int]));
            }
            j = j + 1;
        }
        r
    }
}

/// `pending` followed by zeros up to a whole frame.
pub open spec fn zero_padded(pending: Seq<i16>) -> Seq<i16> {
    Seq::new(480, |i: int| if i < pending.len() { pending[i] } else { 0i16 })
}

/// Splitting a block of whole frames into two calls gives the same
/// output, and leaves the same state, as one call: for a denoiser with
/// nothing held back, feeding `x[..n]` and then `x[n..]` equals feeding `x`.
pub proof fn split_input_same_output(s: DenoiseState<'static>, x: Seq<i16>, n: int)
    requires
        0 <= n <= x.len(),
        x.len() % 480 == 0,
    ensures
        ({
            let first = feed(s, Seq::<i16>::empty() + x.take(n));
            let rest = feed(first.1, leftover(Seq::<i16>::empty() + x.take(n)) + x.skip(n));
            first.0 + rest.0 == feed(s, Seq::<i16>::empty() + x).0 && rest.1 == feed(s, Seq::<i16>::empty() + x).1
                && leftover(leftover(Seq::<i16>::empty() + x.take(n)) + x.skip(n)) == leftover(Seq::<i16>::empty() + x)
        }),
{
    let e = Seq::<i16>::empty();
    assert(e + x.take(n) =~= x.take(n));
    assert(e + x =~= x);
    let q = n / 480;
    let y = x.take(480 * q);
    let p = x.take(n);
    assert(p =~= y + p.skip(480 * q));
    lemma_feed_concat(s, y, p.skip(480 * q));
    lemma_feed_short(feed(s, y).1, p.skip(480 * q));
    assert(feed(s, y).0 + Seq::<i16>::empty() =~= feed(s, y).0);
    assert(leftover(p) =~= p.skip(480 * q));
    assert(leftover(p) + x.skip(n) =~= x.skip(480 * q));
    assert(x =~= y + x.skip(480 * q));
    lemma_feed_concat(s, y, x.skip(480 * q));
    let z = x.skip(480 * q);
    assert(z.len() % 480 == 0);
    assert(leftover(z) =~= Seq::<i16>::empty());
    assert(leftover(x) =~= Seq::<i16>::empty());
}

} // verus!
