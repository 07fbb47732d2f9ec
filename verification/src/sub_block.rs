//! The samples of one part of a block: where they come from and what reaches the host.

use vstd::prelude::*;
use vstd::slice::slice_subrange;
use crate::channels::{copied, copy_delayed_dry_to_output, copy_output_from_sub_block};
use crate::crossfade::{BypassCrossfader, SampleSource};
use crate::dry_delay::{delayed, DRY_DELAY_MAX_EXTRA};
use crate::orchestrator::{wet_spec, Route, WetStep};
use crate::processor::{cabsim_latency, DspChain, NamClapProcessor};

verus! {

/// Samples that a rendered part delivers, where the model gave `n_out` for `n`.
pub open spec fn wet_len(step: WetStep, n: int, n_out: int) -> int {
    match step {
        WetStep::Infer => n_out,
        WetStep::DrainTail { .. } => n,
        WetStep::Silence => n,
    }
}

/// Sample `i` of a rendered part whose working buffer is `buf`: silence follows the end of the
/// cab-sim's tail.
pub open spec fn rendered<T>(step: WetStep, buf: Seq<T>, silence: T, i: int) -> T {
    match step {
        WetStep::Infer => buf[i],
        WetStep::DrainTail { drain } => if i < drain {
            buf[i]
        } else {
            silence
        },
        WetStep::Silence => silence,
    }
}

/// `after` is `before` with the first `len` samples as rendered.
pub open spec fn is_rendered<T>(
    step: WetStep,
    before: Seq<T>,
    after: Seq<T>,
    silence: T,
    len: int,
) -> bool {
    &&& after.len() == before.len()
    &&& forall|i: int| 0 <= i < len ==> #[trigger] after[i] == rendered(step, before, silence, i)
    &&& forall|i: int| len <= i < before.len() ==> #[trigger] after[i] == before[i]
}

/// What a crossfade makes of a dry and a wet sample. `blend` gives
/// `dry + (wet - dry) * mix / 64`.
pub open spec fn crossfaded<T, B: Fn(T, T, i32) -> T>(
    source: SampleSource,
    blend: B,
    dry: T,
    wet: T,
    silence: T,
    sent: T,
) -> bool {
    match source {
        SampleSource::Blend { mix } => blend.ensures((dry, wet, mix), sent),
        SampleSource::ScaledWet { mix } => blend.ensures((silence, wet, mix), sent),
        SampleSource::Dry => sent == dry,
        SampleSource::Wet => sent == wet,
        SampleSource::Silence => sent == silence,
    }
}

/// `after` is the crossfade of the dry samples `dry` and the wet samples `before`, over `len`
/// samples of which the dry signal covers `dry_n`.
pub open spec fn is_crossfaded<T, B: Fn(T, T, i32) -> T>(
    xfade: BypassCrossfader,
    blend: B,
    dry: Seq<T>,
    before: Seq<T>,
    after: Seq<T>,
    silence: T,
    len: int,
    dry_n: int,
) -> bool {
    &&& after.len() == before.len()
    &&& forall|i: int|
        0 <= i < len ==> crossfaded(
            xfade.source_spec(i, len, dry_n),
            blend,
            dry[i],
            before[i],
            silence,
            #[trigger] after[i],
        )
    &&& forall|i: int| len <= i < before.len() ==> #[trigger] after[i] == before[i]
}

fn fill_rendered<T: Copy>(buf: &mut [T], step: WetStep, n: usize, len: usize, silence: T)
    requires
        n <= old(buf)@.len(),
        len == wet_len(step, n as int, len as int),
        step is DrainTail ==> step->drain <= n,
    ensures
        is_rendered(step, old(buf)@, final(buf)@, silence, len as int),
{
    let from: usize = match step {
        WetStep::Infer => {
            return;
        },
        WetStep::DrainTail { drain } => drain,
        WetStep::Silence => 0,
    };
    let mut i: usize = from;
    while i < n
        invariant
            from <= i <= n,
            n <= buf@.len(),
            buf@.len() == old(buf)@.len(),
            forall|k: int| from <= k < i ==> #[trigger] buf@[k] == silence,
            forall|k: int|
                0 <= k < buf@.len() && !(from <= k < i) ==> #[trigger] buf@[k] == old(buf)@[k],
        decreases n - i,
    {
        buf[i] = silence;
        i = i + 1;
    }
}

fn mix_sample<T: Copy, B: Fn(T, T, i32) -> T>(
    source: SampleSource,
    blend: &B,
    dry: T,
    wet: T,
    silence: T,
) -> (sent: T)
    requires
        forall|d: T, w: T, mix: i32| blend.requires((d, w, mix)),
    ensures
        crossfaded(source, *blend, dry, wet, silence, sent),
{
    match source {
        SampleSource::Blend { mix } => blend(dry, wet, mix),
        SampleSource::ScaledWet { mix } => blend(silence, wet, mix),
        SampleSource::Dry => dry,
        SampleSource::Wet => wet,
        SampleSource::Silence => silence,
    }
}

fn crossfade_channel<T: Copy, B: Fn(T, T, i32) -> T>(
    xfade: &BypassCrossfader,
    blend: &B,
    dry: &[T],
    buf: &mut [T],
    len: usize,
    dry_n: usize,
    silence: T,
)
    requires
        xfade.wf(),
        len <= old(buf)@.len(),
        dry_n <= dry@.len(),
        forall|d: T, w: T, mix: i32| blend.requires((d, w, mix)),
    ensures
        is_crossfaded(
            *xfade,
            *blend,
            dry@,
            old(buf)@,
            final(buf)@,
            silence,
            len as int,
            dry_n as int,
        ),
{
    let mut i: usize = 0;
    while i < len
        invariant
            i <= len,
            xfade.wf(),
            len <= buf@.len(),
            buf@.len() == old(buf)@.len(),
            dry_n <= dry@.len(),
            forall|d: T, w: T, mix: i32| blend.requires((d, w, mix)),
            forall|k: int|
                0 <= k < i ==> crossfaded(
                    xfade.source_spec(k, len as int, dry_n as int),
                    *blend,
                    dry@[k],
                    old(buf)@[k],
                    silence,
                    #[trigger] buf@[k],
                ),
            forall|k: int| i <= k < buf@.len() ==> #[trigger] buf@[k] == old(buf)@[k],
        decreases len - i,
    {
        let source = xfade.source(i, len, dry_n);
        let d: T = if i < dry_n { dry[i] } else { silence };
        let sent = mix_sample(source, blend, d, buf[i], silence);
        buf[i] = sent;
        i = i + 1;
    }
}

impl<T: Copy> NamClapProcessor<T> {
    /// Starts on `n` samples of the block from `offset` on. The dry signal is delayed by the
    /// latency of the chain into `dry_l` and `dry_r`, whichever way the part goes. Returns the
    /// way.
    pub fn start_sub_block(
        &mut self,
        buf_host_l: &[T],
        buf_host_r: &[T],
        offset: usize,
        n: usize,
        dry_l: &mut [T],
        dry_r: &mut [T],
    ) -> (route: Route)
        requires
            old(self).wf(),
            offset + n <= buf_host_l@.len(),
            offset + n <= buf_host_r@.len(),
            n <= old(dry_l)@.len(),
            n <= old(dry_r)@.len(),
        ensures
            final(self).wf(),
            route == old(self).route_spec(),
            *final(self) == (NamClapProcessor { dry_delay: final(self).dry_delay, ..*old(self) }),
            ({
                let in_l = buf_host_l@.subrange(offset as int, offset + n);
                let in_r = buf_host_r@.subrange(offset as int, offset + n);
                let line = old(self).dry_delay;
                &&& final(self).dry_delay.history_l() == line.history_l() + in_l
                &&& final(self).dry_delay.history_r() == line.history_r() + in_r
                &&& final(self).dry_delay.delay() == line.delay()
                &&& final(self).dry_delay.capacity() == line.capacity()
                &&& final(self).dry_delay.silence() == line.silence()
                &&& final(dry_l)@.len() == old(dry_l)@.len()
                &&& final(dry_r)@.len() == old(dry_r)@.len()
                &&& forall|i: int|
                    0 <= i < n ==> #[trigger] final(dry_l)@[i] == delayed(
                        line.history_l(),
                        line.silence(),
                        in_l,
                        i,
                        line.delay() as int,
                    )
                &&& forall|i: int|
                    0 <= i < n ==> #[trigger] final(dry_r)@[i] == delayed(
                        line.history_r(),
                        line.silence(),
                        in_r,
                        i,
                        line.delay() as int,
                    )
            }),
    {
        let room: usize = buf_host_l.len();
        assert(offset + n <= room);
        let in_l = slice_subrange(buf_host_l, offset, offset + n);
        let in_r = slice_subrange(buf_host_r, offset, offset + n);
        self.dry_delay.process_block(in_l, in_r, dry_l, dry_r, n);
        assert(in_l@.subrange(0, n as int) =~= in_l@);
        assert(in_r@.subrange(0, n as int) =~= in_r@);
        self.route()
    }
}

/// Ends a bypassed part: the delayed dry signal goes to the host. Returns how many samples the
/// part has delivered.
pub fn finish_bypass<T: Copy, F: Fn(T) -> bool>(
    out_l: Option<&mut [T]>,
    out_r: Option<&mut [T]>,
    dry_l: &[T],
    dry_r: &[T],
    n: usize,
    output_offset: usize,
    process_mono: bool,
    finite: F,
    silence: T,
) -> (delivered: usize)
    requires
        n <= dry_l@.len(),
        n <= dry_r@.len(),
        forall|s: T| finite.requires((s,)),
    ensures
        delivered == n,
        out_l is Some ==> copied(
            (*old(out_l->Some_0))@,
            (*final(out_l->Some_0))@,
            dry_l@,
            n as int,
            output_offset as int,
            finite,
            silence,
        ),
        out_r is Some ==> copied(
            (*old(out_r->Some_0))@,
            (*final(out_r->Some_0))@,
            if process_mono {
                dry_l@
            } else {
                dry_r@
            },
            n as int,
            output_offset as int,
            finite,
            silence,
        ),
{
    let head_l = slice_subrange(dry_l, 0, n);
    let head_r = slice_subrange(dry_r, 0, n);
    copy_delayed_dry_to_output(
        out_l,
        out_r,
        head_l,
        head_r,
        output_offset,
        process_mono,
        finite,
        silence,
    );
    n
}

/// Ends a part that was rendered into the working buffers. What the step leaves open there is
/// silenced first, so that nothing stale reaches the host. Returns how many samples the part
/// has delivered.
pub fn finish_wet<T: Copy, F: Fn(T) -> bool>(
    step: WetStep,
    out_l: Option<&mut [T]>,
    out_r: Option<&mut [T]>,
    buf_out_l: &mut [T],
    buf_out_r: &mut [T],
    n: usize,
    n_out: usize,
    output_offset: usize,
    process_mono: bool,
    finite: F,
    silence: T,
) -> (delivered: usize)
    requires
        n <= old(buf_out_l)@.len(),
        n <= old(buf_out_r)@.len(),
        n_out <= old(buf_out_l)@.len(),
        n_out <= old(buf_out_r)@.len(),
        step is DrainTail ==> step->drain <= n,
        forall|s: T| finite.requires((s,)),
    ensures
        delivered == wet_len(step, n as int, n_out as int),
        is_rendered(step, old(buf_out_l)@, final(buf_out_l)@, silence, delivered as int),
        is_rendered(step, old(buf_out_r)@, final(buf_out_r)@, silence, delivered as int),
        out_l is Some ==> copied(
            (*old(out_l->Some_0))@,
            (*final(out_l->Some_0))@,
            final(buf_out_l)@,
            delivered as int,
            output_offset as int,
            finite,
            silence,
        ),
        out_r is Some ==> copied(
            (*old(out_r->Some_0))@,
            (*final(out_r->Some_0))@,
            if process_mono {
                final(buf_out_l)@
            } else {
                final(buf_out_r)@
            },
            delivered as int,
            output_offset as int,
            finite,
            silence,
        ),
{
    let delivered: usize = match step {
        WetStep::Infer => n_out,
        _ => n,
    };
    fill_rendered(buf_out_l, step, n, delivered, silence);
    fill_rendered(buf_out_r, step, n, delivered, silence);
    copy_output_from_sub_block(
        out_l,
        out_r,
        buf_out_l,
        buf_out_r,
        delivered,
        output_offset,
        process_mono,
        finite,
        silence,
    );
    delivered
}

impl<T: Copy> NamClapProcessor<T> {
    /// Ends a part of a crossfade: the rendered signal is blended with the delayed dry one, the
    /// ramp moves on, and the result goes to the host. Returns how many samples the part has
    /// delivered.
    pub fn finish_crossfade<F: Fn(T) -> bool, B: Fn(T, T, i32) -> T>(
        &mut self,
        step: WetStep,
        out_l: Option<&mut [T]>,
        out_r: Option<&mut [T]>,
        buf_out_l: &mut [T],
        buf_out_r: &mut [T],
        dry_l: &[T],
        dry_r: &[T],
        n: usize,
        n_out: usize,
        output_offset: usize,
        process_mono: bool,
        finite: F,
        blend: B,
        silence: T,
    ) -> (delivered: usize)
        requires
            old(self).wf(),
            old(self).bypass_xfade.active,
            n <= old(buf_out_l)@.len(),
            n <= old(buf_out_r)@.len(),
            n_out <= old(buf_out_l)@.len(),
            n_out <= old(buf_out_r)@.len(),
            n <= dry_l@.len(),
            n <= dry_r@.len(),
            step is DrainTail ==> step->drain <= n,
            forall|s: T| finite.requires((s,)),
            forall|d: T, w: T, mix: i32| blend.requires((d, w, mix)),
        ensures
            final(self).wf(),
            delivered == wet_len(step, n as int, n_out as int),
            *final(self) == (NamClapProcessor {
                bypass_xfade: old(self).bypass_xfade.advanced(delivered as int),
                ..*old(self)
            }),
            exists|wet_l: Seq<T>|
                {
                    &&& #[trigger] is_rendered(
                        step,
                        old(buf_out_l)@,
                        wet_l,
                        silence,
                        delivered as int,
                    )
                    &&& is_crossfaded(
                        old(self).bypass_xfade,
                        blend,
                        dry_l@,
                        wet_l,
                        final(buf_out_l)@,
                        silence,
                        delivered as int,
                        n as int,
                    )
                },
            exists|wet_r: Seq<T>|
                {
                    &&& #[trigger] is_rendered(
                        step,
                        old(buf_out_r)@,
                        wet_r,
                        silence,
                        delivered as int,
                    )
                    &&& is_crossfaded(
                        old(self).bypass_xfade,
                        blend,
                        dry_r@,
                        wet_r,
                        final(buf_out_r)@,
                        silence,
                        delivered as int,
                        n as int,
                    )
                },
            out_l is Some ==> copied(
                (*old(out_l->Some_0))@,
                (*final(out_l->Some_0))@,
                final(buf_out_l)@,
                delivered as int,
                output_offset as int,
                finite,
                silence,
            ),
            out_r is Some ==> copied(
                (*old(out_r->Some_0))@,
                (*final(out_r->Some_0))@,
                if process_mono {
                    final(buf_out_l)@
                } else {
                    final(buf_out_r)@
                },
                delivered as int,
                output_offset as int,
                finite,
                silence,
            ),
    {
        let delivered: usize = match step {
            WetStep::Infer => n_out,
            _ => n,
        };
        fill_rendered(buf_out_l, step, n, delivered, silence);
        fill_rendered(buf_out_r, step, n, delivered, silence);
        let ghost wet_l = buf_out_l@;
        let ghost wet_r = buf_out_r@;
        crossfade_channel(&self.bypass_xfade, &blend, dry_l, buf_out_l, delivered, n, silence);
        crossfade_channel(&self.bypass_xfade, &blend, dry_r, buf_out_r, delivered, n, silence);
        self.bypass_xfade.advance(delivered);
        proof {
            assert(is_rendered(step, old(buf_out_l)@, wet_l, silence, delivered as int));
            assert(is_rendered(step, old(buf_out_r)@, wet_r, silence, delivered as int));
        }
        copy_output_from_sub_block(
            out_l,
            out_r,
            buf_out_l,
            buf_out_r,
            delivered,
            output_offset,
            process_mono,
            finite,
            silence,
        );
        delivered
    }
}

/// Whatever the model would have delivered, a part behind a closed noise gate delivers exactly
/// as many samples as were asked for: what is left of the tail, and silence.
pub proof fn law_closed_gate_delivers_all<T>(
    chain: DspChain,
    conv_active: bool,
    n: int,
    n_out: int,
    buf: Seq<T>,
    silence: T,
    i: int,
)
    requires
        0 <= i < n <= usize::MAX,
    ensures
        ({
            let step = wet_spec(chain, true, conv_active, n).0;
            &&& wet_len(step, n, n_out) == n
            &&& rendered(step, buf, silence, i) == (if i < chain.cabsim_tail_remaining {
                buf[i]
            } else {
                silence
            })
        }),
{
}

/// Dry and wet stand for the same instant: as long as resampler and engines together stay within
/// the extra room of the delay line, and the cab-sim within one block of the host, the dry signal
/// is delayed by exactly the latency of the chain.
pub proof fn law_dry_is_aligned_with_wet<T: Copy>(processor: &NamClapProcessor<T>)
    requires
        processor.wf(),
        processor.dry_delay.capacity() == processor.max_frames_count + DRY_DELAY_MAX_EXTRA,
        processor.chain.stream.latency_samples + processor.chain.os_l.latency_samples
            <= DRY_DELAY_MAX_EXTRA,
        cabsim_latency(processor.chain.cabsim_adapter) <= processor.max_frames_count,
        processor.max_frames_count + DRY_DELAY_MAX_EXTRA <= u32::MAX,
    ensures
        processor.dry_delay.delay() == processor.chain.stream.latency_samples
            + processor.chain.os_l.latency_samples + cabsim_latency(
            processor.chain.cabsim_adapter,
        ),
{
}

} // verus!
