//! Delay of the dry signal by the latency of the wet chain.
//!
//! Bypassed and processed signal then stand for the same instant of the input, and the
//! latency that is declared to the host holds while the plug-in is bypassed, too.

use vstd::prelude::*;

verus! {

/// Room for delay beyond the host block: the resampler at its worst ratio and the
/// oversampling filters. The cab-sim partition is one host block.
pub const DRY_DELAY_MAX_EXTRA: usize = 3200;

/// A ring that gives back each sample after a settable delay.
pub struct DelayLine<T> {
    /// One slot more than the longest delay.
    ring: Vec<T>,
    /// Where the next sample goes.
    head: usize,
    delay: usize,
    /// Every sample ever written.
    history: Ghost<Seq<T>>,
    silence: T,
}

/// The sample `back` steps before the end of `history`; silence before its beginning.
pub open spec fn sample_back<T>(history: Seq<T>, silence: T, back: int) -> T {
    if 0 <= back < history.len() {
        history[history.len() - 1 - back]
    } else {
        silence
    }
}

impl<T: Copy> DelayLine<T> {
    /// The ring holds the last samples of the history, the latest just behind `head`.
    pub closed spec fn wf(&self) -> bool {
        &&& self.ring@.len() >= 1
        &&& self.ring@.len() <= usize::MAX / 2
        &&& self.head < self.ring@.len()
        &&& self.delay < self.ring@.len()
        &&& forall|back: int|
            0 <= back < self.ring@.len() ==> #[trigger] self.slot(back) == sample_back(
                self.history@,
                self.silence,
                back,
            )
    }

    /// Content of the slot `back` steps behind the latest sample.
    closed spec fn slot(&self, back: int) -> T {
        let len = self.ring@.len() as int;
        let at = self.head - 1 - back;
        if at < 0 {
            self.ring@[at + len]
        } else {
            self.ring@[at]
        }
    }

    /// Every sample written since the line was made or reset.
    pub closed spec fn history(&self) -> Seq<T> {
        self.history@
    }

    /// What comes out before anything was written.
    pub closed spec fn silence(&self) -> T {
        self.silence
    }

    /// The delay in samples.
    pub closed spec fn delay(&self) -> nat {
        self.delay as nat
    }

    /// The longest delay.
    pub closed spec fn capacity(&self) -> nat {
        (self.ring@.len() - 1) as nat
    }

    /// A silent line for delays up to `capacity`; a longer `delay` is cut to it.
    pub fn with_capacity(capacity: usize, delay: usize, silence: T) -> (line: Self)
        requires
            capacity < usize::MAX / 2,
        ensures
            line.wf(),
            line.history() == Seq::<T>::empty(),
            line.silence() == silence,
            line.capacity() == capacity,
            line.delay() == (if delay <= capacity {
                delay
            } else {
                capacity
            }),
    {
        let mut ring: Vec<T> = Vec::new();
        while ring.len() < capacity + 1
            invariant
                capacity < usize::MAX / 2,
                ring@.len() <= capacity + 1,
                forall|i: int| 0 <= i < ring@.len() ==> ring@[i] == silence,
            decreases capacity + 1 - ring.len(),
        {
            ring.push(silence);
        }
        let delay: usize = if delay <= capacity { delay } else { capacity };
        DelayLine { ring, head: 0, delay, history: Ghost(Seq::empty()), silence }
    }

    /// Changes the delay, cut to the capacity. What was written stays.
    pub fn set_delay(&mut self, delay: usize)
        requires
            old(self).wf(),
        ensures
            final(self).wf(),
            final(self).history() == old(self).history(),
            final(self).silence() == old(self).silence(),
            final(self).capacity() == old(self).capacity(),
            final(self).delay() == (if delay <= old(self).capacity() {
                delay as nat
            } else {
                old(self).capacity()
            }),
    {
        let capacity: usize = self.ring.len() - 1;
        self.delay = if delay <= capacity { delay } else { capacity };
        assert forall|back: int| 0 <= back < self.ring@.len() implies #[trigger] self.slot(back)
            == sample_back(
                self.history@,
                self.silence,
                back,
            ) by {
            assert(old(self).slot(back) == sample_back(old(self).history@, self.silence, back));
        }
    }

    /// Forgets what was written. The delay stays.
    pub fn reset(&mut self)
        requires
            old(self).wf(),
        ensures
            final(self).wf(),
            final(self).history() == Seq::<T>::empty(),
            final(self).silence() == old(self).silence(),
            final(self).capacity() == old(self).capacity(),
            final(self).delay() == old(self).delay(),
    {
        let mut i: usize = 0;
        while i < self.ring.len()
            invariant
                i <= self.ring@.len(),
                self.ring@.len() == old(self).ring@.len(),
                self.delay == old(self).delay,
                forall|k: int| 0 <= k < i ==> self.ring@[k] == self.silence,
                self.silence == old(self).silence,
            decreases self.ring@.len() - i,
        {
            self.ring.set(i, self.silence);
            i = i + 1;
        }
        self.head = 0;
        self.history = Ghost(Seq::empty());
    }

    /// Writes a sample.
    pub fn push(&mut self, sample: T)
        requires
            old(self).wf(),
        ensures
            final(self).wf(),
            final(self).history() == old(self).history().push(sample),
            final(self).silence() == old(self).silence(),
            final(self).capacity() == old(self).capacity(),
            final(self).delay() == old(self).delay(),
    {
        let head: usize = self.head;
        self.ring.set(head, sample);
        self.head = if head + 1 < self.ring.len() { head + 1 } else { 0 };
        self.history = Ghost(self.history@.push(sample));
        assert forall|back: int| 0 <= back < self.ring@.len() implies #[trigger] self.slot(back)
            == sample_back(
                self.history@,
                self.silence,
                back,
            ) by {
            if back > 0 {
                assert(old(self).slot(back - 1) == sample_back(old(self).history@, self.silence, back - 1));
            }
        }
    }

    /// Reads the sample that was written `delay` samples before the latest one.
    pub fn pop(&self) -> (sample: T)
        requires
            self.wf(),
        ensures
            sample == sample_back(self.history(), self.silence(), self.delay() as int),
    {
        let len: usize = self.ring.len();
        let behind: usize = self.delay + 1;
        let at: usize = if behind <= self.head { self.head - behind } else {
            self.head + len - behind
        };
        proof {
            assert(self.slot(self.delay as int) == sample_back(self.history@, self.silence, self.delay as int));
        }
        self.ring[at]
    }
}

/// The sample of `input` `delay` steps before position `i`, where `past` came before `input`.
pub open spec fn delayed<T>(past: Seq<T>, silence: T, input: Seq<T>, i: int, delay: int) -> T {
    if i >= delay {
        input[i - delay]
    } else {
        sample_back(past, silence, delay - i - 1)
    }
}

/// Delay of both channels, each by its own line.
pub struct DryDelayLine<T> {
    line_l: DelayLine<T>,
    line_r: DelayLine<T>,
}

/// Shortest of `n` and four lengths.
pub open spec fn clamp_len(n: int, a: int, b: int, c: int, d: int) -> int {
    let m = if n < a { n } else { a };
    let m = if m < b { m } else { b };
    let m = if m < c { m } else { c };
    if m < d { m } else { d }
}

impl<T: Copy> DryDelayLine<T> {
    pub closed spec fn wf(&self) -> bool {
        &&& self.line_l.wf()
        &&& self.line_r.wf()
        &&& self.line_l.delay() == self.line_r.delay()
        &&& self.line_l.capacity() == self.line_r.capacity()
        &&& self.line_l.silence() == self.line_r.silence()
    }

    /// What the left line has been fed.
    pub closed spec fn history_l(&self) -> Seq<T> {
        self.line_l.history()
    }

    /// What the right line has been fed.
    pub closed spec fn history_r(&self) -> Seq<T> {
        self.line_r.history()
    }

    /// What comes out before anything was fed.
    pub closed spec fn silence(&self) -> T {
        self.line_l.silence()
    }

    /// The delay of both channels.
    pub closed spec fn delay(&self) -> nat {
        self.line_l.delay()
    }

    /// The longest delay.
    pub closed spec fn capacity(&self) -> nat {
        self.line_l.capacity()
    }

    /// `delay`, cut to the capacity.
    pub open spec fn cut(&self, delay: int) -> nat {
        if delay <= self.capacity() {
            delay as nat
        } else {
            self.capacity()
        }
    }

    /// Two silent lines for delays up to `capacity`; a longer `delay` is cut to it.
    pub fn new(capacity: usize, delay: usize, silence: T) -> (line: Self)
        requires
            capacity < usize::MAX / 2,
        ensures
            line.wf(),
            line.capacity() == capacity,
            line.delay() == line.cut(delay as int),
            line.silence() == silence,
            line.history_l() == Seq::<T>::empty(),
            line.history_r() == Seq::<T>::empty(),
    {
        DryDelayLine {
            line_l: DelayLine::with_capacity(capacity, delay, silence),
            line_r: DelayLine::with_capacity(capacity, delay, silence),
        }
    }

    /// Changes the delay of both channels, cut to the capacity. What they were fed stays.
    pub fn set_delay(&mut self, delay: usize)
        requires
            old(self).wf(),
        ensures
            final(self).wf(),
            final(self).delay() == old(self).cut(delay as int),
            final(self).capacity() == old(self).capacity(),
            final(self).silence() == old(self).silence(),
            final(self).history_l() == old(self).history_l(),
            final(self).history_r() == old(self).history_r(),
    {
        self.line_l.set_delay(delay);
        self.line_r.set_delay(delay);
    }

    /// Forgets what both channels were fed.
    pub fn reset(&mut self)
        requires
            old(self).wf(),
        ensures
            final(self).wf(),
            final(self).delay() == old(self).delay(),
            final(self).capacity() == old(self).capacity(),
            final(self).silence() == old(self).silence(),
            final(self).history_l() == Seq::<T>::empty(),
            final(self).history_r() == Seq::<T>::empty(),
    {
        self.line_l.reset();
        self.line_r.reset();
    }

    /// Feeds `n` samples to each channel and writes the delayed ones out. `n` is cut to the
    /// shortest slice; what lies behind it in the outputs stays.
    pub fn process_block(
        &mut self,
        in_l: &[T],
        in_r: &[T],
        out_l: &mut [T],
        out_r: &mut [T],
        n: usize,
    )
        requires
            old(self).wf(),
        ensures
            final(self).wf(),
            final(self).delay() == old(self).delay(),
            final(self).capacity() == old(self).capacity(),
            final(self).silence() == old(self).silence(),
            final(out_l)@.len() == old(out_l)@.len(),
            final(out_r)@.len() == old(out_r)@.len(),
            ({
                let m = clamp_len(
                    n as int,
                    in_l@.len() as int,
                    in_r@.len() as int,
                    old(out_l)@.len() as int,
                    old(out_r)@.len() as int,
                );
                let d = old(self).delay() as int;
                &&& final(self).history_l() == old(self).history_l() + in_l@.subrange(0, m)
                &&& final(self).history_r() == old(self).history_r() + in_r@.subrange(0, m)
                &&& forall|i: int|
                    0 <= i < m ==> #[trigger] final(out_l)@[i] == delayed(
                        old(self).history_l(),
                        old(self).silence(),
                        in_l@,
                        i,
                        d,
                    )
                &&& forall|i: int|
                    0 <= i < m ==> #[trigger] final(out_r)@[i] == delayed(
                        old(self).history_r(),
                        old(self).silence(),
                        in_r@,
                        i,
                        d,
                    )
                &&& forall|i: int|
                    m <= i < old(out_l)@.len() ==> #[trigger] final(out_l)@[i] == old(out_l)@[i]
                &&& forall|i: int|
                    m <= i < old(out_r)@.len() ==> #[trigger] final(out_r)@[i] == old(out_r)@[i]
            }),
    {
        let mut m: usize = if n < in_l.len() { n } else { in_l.len() };
        m = if m < in_r.len() { m } else { in_r.len() };
        m = if m < out_l.len() { m } else { out_l.len() };
        m = if m < out_r.len() { m } else { out_r.len() };
        let ghost past_l = self.history_l();
        let ghost past_r = self.history_r();
        let ghost d = self.delay() as int;
        let ghost quiet = self.silence();
        let mut i: usize = 0;
        while i < m
            invariant
                self.wf(),
                i <= m,
                m <= in_l@.len(),
                m <= in_r@.len(),
                m <= out_l@.len(),
                m <= out_r@.len(),
                out_l@.len() == old(out_l)@.len(),
                out_r@.len() == old(out_r)@.len(),
                past_l == old(self).history_l(),
                past_r == old(self).history_r(),
                d == old(self).delay(),
                quiet == old(self).silence(),
                self.silence() == quiet,
                self.delay() == d,
                self.capacity() == old(self).capacity(),
                self.history_l() == past_l + in_l@.subrange(0, i as int),
                self.history_r() == past_r + in_r@.subrange(0, i as int),
                forall|k: int| 0 <= k < i ==> #[trigger] out_l@[k] == delayed(past_l, quiet, in_l@, k, d),
                forall|k: int| 0 <= k < i ==> #[trigger] out_r@[k] == delayed(past_r, quiet, in_r@, k, d),
                forall|k: int| i <= k < out_l@.len() ==> #[trigger] out_l@[k] == old(out_l)@[k],
                forall|k: int| i <= k < out_r@.len() ==> #[trigger] out_r@[k] == old(out_r)@[k],
            decreases m - i,
        {
            self.line_l.push(in_l[i]);
            self.line_r.push(in_r[i]);
            out_l[i] = self.line_l.pop();
            out_r[i] = self.line_r.pop();
            proof {
                assert(in_l@.subrange(0, i as int).push(in_l@[i as int]) =~= in_l@.subrange(
                    0,
                    i + 1,
                ));
                assert(in_r@.subrange(0, i as int).push(in_r@[i as int]) =~= in_r@.subrange(
                    0,
                    i + 1,
                ));
                assert((past_l + in_l@.subrange(0, i as int)).push(in_l@[i as int]) =~= past_l
                    + in_l@.subrange(0, i + 1));
                assert((past_r + in_r@.subrange(0, i as int)).push(in_r@[i as int]) =~= past_r
                    + in_r@.subrange(0, i + 1));
            }
            i = i + 1;
        }
    }
}

/// From a silent line, each output sample is the input sample `delay` steps earlier, and
/// silence before there is one.
pub proof fn law_exact_shift<T>(silence: T, input: Seq<T>, i: int, delay: int)
    requires
        0 <= delay,
        0 <= i < input.len(),
    ensures
        i >= delay ==> delayed(Seq::empty(), silence, input, i, delay) == input[i - delay],
        i < delay ==> delayed(Seq::empty(), silence, input, i, delay) == silence,
{
}

/// Where a block is cut in two makes no difference to what comes out.
pub proof fn law_block_size_is_irrelevant<T>(
    past: Seq<T>,
    silence: T,
    first: Seq<T>,
    second: Seq<T>,
    i: int,
    delay: int,
)
    requires
        0 <= delay,
        0 <= i < second.len(),
    ensures
        delayed(past + first, silence, second, i, delay) == delayed(
            past,
            silence,
            first + second,
            first.len() + i,
            delay,
        ),
{
}

/// With no delay the line passes its input through.
pub proof fn law_no_delay_is_identity<T>(past: Seq<T>, silence: T, input: Seq<T>, i: int)
    requires
        0 <= i < input.len(),
    ensures
        delayed(past, silence, input, i, 0) == input[i],
{
}

} // verus!
