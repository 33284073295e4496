//! The audio-rate side: the sliding-window state machine of the filter.
//!
//! Samples are carried as opaque 32-bit patterns (`u32`); the engine never
//! interprets them as numbers. For every block and every channel the window
//! is reset, seeded from the channel's first sample, and then shifted once
//! per further sample; the engine reports, for each sample after the first,
//! the full window that the averaging step reads. The host adapter turns
//! each reported window back into audio samples, sums it, and applies the
//! gain formula `(1 + 0.01 * n) * sum / n`; the first sample of a channel
//! is owed no output at all, and its output slot is left untouched.

use vstd::prelude::*;

verus! {

/// The input index that slot `j` of the window reads after sample `i` of
/// a channel has been consumed: the window holds the last `n` samples,
/// back-filled with the channel's first sample while fewer than `n`
/// samples have arrived.
pub open spec fn source_index(n: int, i: int, j: int) -> int {
    if i + j < n - 1 {
        0
    } else {
        i + j - (n - 1)
    }
}

/// The window contents after sample `i` of the channel input `x` has been
/// consumed, for a window length `n`: slot `n - 1` holds the newest
/// sample, slot 0 the oldest retained one.
pub open spec fn window_at(x: Seq<u32>, n: int, i: int) -> Seq<u32> {
    Seq::new(n as nat, |j: int| x[source_index(n, i, j)])
}

/// What one processed channel owes: one output slot per input sample,
/// none for the first sample, and for every later sample `i` the window
/// `window_at(x, n, i)` that the averaging step reads.
pub open spec fn channel_output_ok(x: Seq<u32>, n: int, out: Seq<Option<Vec<u32>>>) -> bool {
    &&& out.len() == x.len()
    &&& forall|i: int| 0 <= i < out.len() ==> ((#[trigger] out[i]) is Some <==> i >= 1)
    &&& forall|i: int|
        1 <= i < out.len() ==> ((#[trigger] out[i])->0)@ == window_at(x, n, i)
}

/// The filter's working state. It is reset at the start of every channel
/// of every block, so it carries no information between channels or
/// blocks; it exists to let one allocation serve the whole run.
pub struct FilterState {
    /// True once the window has been seeded within the current channel.
    pub started: bool,
    /// The sliding window, oldest retained sample first.
    pub recent_samples: Vec<u32>,
    /// Pre-shift snapshot of the window, so the shift reads unaliased.
    pub recent_samples_copy: Vec<u32>,
}

impl FilterState {
    pub fn new() -> (s: Self)
        ensures
            !s.started,
            s.recent_samples@ == Seq::<u32>::empty(),
            s.recent_samples_copy@ == Seq::<u32>::empty(),
    {
        FilterState { started: false, recent_samples: Vec::new(), recent_samples_copy: Vec::new() }
    }

    /// Processes one channel of one block: resets the window to `n`
    /// zeroed slots, then consumes `input` in order. The result depends
    /// on `n` and `input` alone — nothing of the state the engine was
    /// left in by earlier blocks or channels reaches it.
    pub fn process_channel(&mut self, n: usize, input: &Vec<u32>) -> (out: Vec<
        Option<Vec<u32>>,
    >)
        requires
            1 <= n <= 100,
        ensures
            channel_output_ok(input@, n as int, out@),
            final(self).recent_samples@.len() == n,
            final(self).started == (input@.len() > 0),
    {
        self.started = false;
        self.recent_samples.truncate(0);
        while self.recent_samples.len() < n
            invariant
                !self.started,
                self.recent_samples@.len() <= n,
            decreases n - self.recent_samples@.len(),
        {
            self.recent_samples.push(0u32);
        }

        let mut out: Vec<Option<Vec<u32>>> = Vec::new();
        let mut k: usize = 0;
        while k < input.len()
            invariant
                1 <= n <= 100,
                k <= input@.len(),
                self.recent_samples@.len() == n,
                out@.len() == k,
                self.started == (k >= 1),
                k >= 1 ==> self.recent_samples@ == window_at(input@, n as int, k - 1),
                forall|i: int| 0 <= i < k ==> ((#[trigger] out@[i]) is Some <==> i >= 1),
                forall|i: int|
                    1 <= i < k ==> ((#[trigger] out@[i])->0)@ == window_at(input@, n as int, i),
            decreases input@.len() - k,
        {
            let x = input[k];
            if !self.started {
                self.started = true;
                let mut j: usize = 0;
                while j < n
                    invariant
                        j <= n,
                        self.started,
                        self.recent_samples@.len() == n,
                        forall|t: int| 0 <= t < j ==> self.recent_samples@[t] == x,
                    decreases n - j,
                {
                    self.recent_samples.set(j, x);
                    j += 1;
                }
                proof {
                    assert(self.recent_samples@ =~= window_at(input@, n as int, 0));
                }
                out.push(None);
            } else {
                self.recent_samples_copy = clone_samples(&self.recent_samples);
                let mut j: usize = 0;
                while j < n
                    invariant
                        j <= n,
                        1 <= n,
                        1 <= k < input@.len(),
                        x == input@[k as int],
                        self.started,
                        self.recent_samples@.len() == n,
                        self.recent_samples_copy@.len() == n,
                        self.recent_samples_copy@ == window_at(input@, n as int, k - 1),
                        forall|t: int|
                            j <= t < n ==> self.recent_samples@[t]
                                == self.recent_samples_copy@[t],
                        forall|t: int|
                            0 <= t < j && t < n - 1 ==> self.recent_samples@[t]
                                == self.recent_samples_copy@[t + 1],
                        forall|t: int|
                            0 <= t < j && t == n - 1 ==> self.recent_samples@[t] == x,
                    decreases n - j,
                {
                    if j == n - 1 {
                        self.recent_samples.set(j, x);
                    } else {
                        let v = self.recent_samples_copy[j + 1];
                        self.recent_samples.set(j, v);
                    }
                    j += 1;
                }
                proof {
                    assert forall|t: int| 0 <= t < n implies self.recent_samples@[t] == window_at(
                        input@,
                        n as int,
                        k as int,
                    )[t] by {
                        let prev = window_at(input@, n as int, k - 1);
                        if t < n - 1 {
                            assert(self.recent_samples@[t] == prev[t + 1]);
                        }
                    }
                    assert(self.recent_samples@ =~= window_at(input@, n as int, k as int));
                }
                let w = clone_samples(&self.recent_samples);
                out.push(Some(w));
            }
            k += 1;
        }
        out
    }

    /// Processes one block: every channel independently, each with a
    /// fresh window.
    pub fn process_block(&mut self, n: usize, channels: &Vec<Vec<u32>>) -> (out: Vec<
        Vec<Option<Vec<u32>>>,
    >)
        requires
            1 <= n <= 100,
        ensures
            out@.len() == channels@.len(),
            forall|c: int|
                0 <= c < channels@.len() ==> channel_output_ok(
                    channels@[c]@,
                    n as int,
                    ((#[trigger] out@[c])@),
                ),
    {
        let mut out: Vec<Vec<Option<Vec<u32>>>> = Vec::new();
        let mut c: usize = 0;
        while c < channels.len()
            invariant
                1 <= n <= 100,
                c <= channels@.len(),
                out@.len() == c,
                forall|i: int|
                    0 <= i < c ==> channel_output_ok(
                        channels@[i]@,
                        n as int,
                        ((#[trigger] out@[i])@),
                    ),
            decreases channels@.len() - c,
        {
            let windows = self.process_channel(n, &channels[c]);
            out.push(windows);
            c += 1;
        }
        out
    }
}

/// Feeding a channel a constant sequence converges immediately: after the
/// first (unwritten) sample, every window the engine reports holds `n`
/// copies of that constant, so the averaging step reads a fully uniform
/// window at every output sample.
pub proof fn lemma_constant_input_window(x: Seq<u32>, n: int, i: int)
    requires
        1 <= n,
        1 <= i < x.len(),
        forall|k: int| 0 <= k < x.len() ==> #[trigger] x[k] == x[0],
    ensures
        window_at(x, n, i) == Seq::new(n as nat, |j: int| x[0]),
{
    assert(window_at(x, n, i) =~= Seq::new(n as nat, |j: int| x[0]));
}

/// Processing never blends data across a block boundary: the window after
/// sample `i` of a channel depends only on that channel's own samples up
/// to `i`, so two blocks that agree up to `i` report the same window
/// there, whatever either block was preceded by.
pub proof fn lemma_no_cross_block_blend(x: Seq<u32>, y: Seq<u32>, n: int, i: int)
    requires
        1 <= n,
        0 <= i < x.len(),
        i < y.len(),
        forall|k: int| 0 <= k <= i ==> #[trigger] x[k] == y[k],
    ensures
        window_at(x, n, i) == window_at(y, n, i),
{
    assert(window_at(x, n, i) =~= window_at(y, n, i));
}

/// An element-for-element copy of a sample buffer.
fn clone_samples(v: &Vec<u32>) -> (r: Vec<u32>)
    ensures
        r@ == v@,
{
    let mut r: Vec<u32> = Vec::new();
    let mut j: usize = 0;
    while j < v.len()
        invariant
            j <= v@.len(),
            r@ == v@.subrange(0, j as int),
        decreases v@.len() - j,
    {
        r.push(v[j]);
        j += 1;
    }
    proof {
        assert(r@ =~= v@);
    }
    r
}

} // verus!
