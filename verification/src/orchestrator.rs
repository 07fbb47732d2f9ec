//! How a block of audio is led through the processor: what is checked before it, which way
//! each part of it goes, and what is decided after it.

use vstd::prelude::*;
use crate::channels::{fitting, has_non_finite, starts_filled};
use crate::crossfade::{end_mix, BypassCrossfader, BYPASS_XFADE_SAMPLES};
use crate::processor::{DspChain, NamClapProcessor, RtEffect};
use crate::schedule::{same_event_shared, SubBlock};
use crate::shared::{ColdShared, GuiSharedState, PendingRestartOs};
use crate::status::{
    raised, RtStatusFlags, RT_STATUS_HOST_CONTRACT_VIOLATION, RT_STATUS_MODEL_LOAD_FAILED,
    RT_STATUS_NON_FINITE_INPUT_DETECTED,
};

verus! {

/// Text of the error for a block that is larger than the host has announced.
pub const BLOCK_TOO_LARGE: &'static str = "Host block size exceeds maximum configured capacity";

/// What becomes of a block.
#[derive(Clone, Copy, Debug, PartialEq, Eq, Structural)]
pub enum BlockCheck {
    /// Larger than announced: the outputs are silenced and the call fails.
    TooLarge,
    /// Nothing to do.
    Empty,
    Run,
}

/// What is due at the start of a callback.
#[derive(Clone, Copy, Debug, PartialEq, Eq, Structural)]
pub struct BlockTick {
    /// Measure the time that this callback takes: every 16th does.
    pub measure: bool,
    /// First callback: look up the priority of the thread.
    pub first: bool,
    /// Switch denormals off again: every 1024 callbacks.
    pub reapply_denormals: bool,
}

/// Status with a flag raised or lowered.
pub open spec fn flag_as(status: RtStatusFlags, flag: u64, up: bool) -> RtStatusFlags {
    if raised(status.flags, flag) == up {
        status
    } else if up {
        status.with_flag(flag)
    } else {
        status.without_flag(flag)
    }
}

/// `shared` with another status.
pub open spec fn with_status(shared: GuiSharedState, status: RtStatusFlags) -> GuiSharedState {
    GuiSharedState { cold: ColdShared { rt_status: status, ..shared.cold }, ..shared }
}

/// The crossfade towards `bypass`.
pub open spec fn triggered(xfade: BypassCrossfader, bypass: bool) -> BypassCrossfader {
    if xfade.target == bypass {
        xfade
    } else {
        BypassCrossfader {
            target: bypass,
            active: true,
            mix: xfade.mix,
            step: if bypass {
                -1i32
            } else {
                1i32
            },
            remaining: BYPASS_XFADE_SAMPLES,
        }
    }
}

impl<T: Copy> NamClapProcessor<T> {
    /// Counts a callback and tells what is due.
    pub fn tick(&mut self) -> (tick: BlockTick)
        ensures
            tick.measure == (old(self).cycles_since_telemetry % 16 == 0),
            tick.first == !old(self).prio_checked,
            tick.reapply_denormals == (final(self).cycles_since_telemetry % 1024 == 0),
            *final(self) == (NamClapProcessor {
                cycles_since_telemetry: ((old(self).cycles_since_telemetry + 1) % 0x1_0000_0000) as u32,
                prio_checked: true,
                ..*old(self)
            }),
    {
        let cycles: u32 = self.cycles_since_telemetry;
        let measure: bool = cycles & 0xF == 0;
        assert(cycles & 0xF == cycles % 16) by (bit_vector);
        let next: u32 = cycles.wrapping_add(1);
        self.cycles_since_telemetry = next;
        let first: bool = !self.prio_checked;
        self.prio_checked = true;
        assert(next & 0x3FF == next % 1024) by (bit_vector);
        BlockTick { measure, first, reapply_denormals: next & 0x3FF == 0 }
    }

    /// Checks the size of a block and records it.
    pub fn begin_block(&self, shared: &mut GuiSharedState, n_samples: usize) -> (check: BlockCheck)
        ensures
            check == (if n_samples > self.max_frames_count {
                BlockCheck::TooLarge
            } else if n_samples == 0 {
                BlockCheck::Empty
            } else {
                BlockCheck::Run
            }),
            *final(shared) == with_status(
                *old(shared),
                match check {
                    BlockCheck::TooLarge => old(shared).cold.rt_status.with_flag(
                        RT_STATUS_HOST_CONTRACT_VIOLATION,
                    ),
                    BlockCheck::Empty => old(shared).cold.rt_status,
                    BlockCheck::Run => RtStatusFlags {
                        last_n_samples: n_samples as u32,
                        ..old(shared).cold.rt_status
                    },
                },
            ),
    {
        if n_samples > self.max_frames_count {
            shared.cold.rt_status.set_flag(RT_STATUS_HOST_CONTRACT_VIOLATION);
            return BlockCheck::TooLarge;
        }
        if n_samples == 0 {
            return BlockCheck::Empty;
        }
        let n: u32 = n_samples as u32;
        if shared.cold.rt_status.last_n_samples != n {
            shared.cold.rt_status.last_n_samples = n;
        }
        BlockCheck::Run
    }

    /// Keeps samples that `finite` rejects away from the chain: a block that holds one is
    /// silenced, the dry signal forgets its past, and the fault is flagged. Returns whether
    /// that was so; the model and the smoothers are then to be reset.
    pub fn contain_non_finite<F: Fn(T) -> bool>(
        &mut self,
        shared: &mut GuiSharedState,
        buf_host_l: &mut [T],
        buf_host_r: &mut [T],
        n_samples: usize,
        finite: F,
        silence: T,
    ) -> (found: bool)
        requires
            old(self).wf(),
            n_samples <= old(buf_host_l)@.len(),
            n_samples <= old(buf_host_r)@.len(),
            forall|s: T| finite.requires((s,)),
        ensures
            final(self).wf(),
            found ==> {
                ||| exists|i: int|
                    0 <= i < n_samples && finite.ensures((#[trigger] old(buf_host_l)@[i],), false)
                ||| !old(self).process_mono && exists|i: int|
                    0 <= i < n_samples && finite.ensures((#[trigger] old(buf_host_r)@[i],), false)
            },
            found ==> {
                &&& starts_filled(
                    old(buf_host_l)@,
                    final(buf_host_l)@,
                    silence,
                    n_samples as int,
                )
                &&& starts_filled(
                    old(buf_host_r)@,
                    final(buf_host_r)@,
                    silence,
                    n_samples as int,
                )
                &&& final(self).dry_delay.history_l() == Seq::<T>::empty()
                &&& final(self).dry_delay.history_r() == Seq::<T>::empty()
                &&& final(self).dry_delay.delay() == old(self).dry_delay.delay()
                &&& final(self).dry_delay.capacity() == old(self).dry_delay.capacity()
                &&& final(self).dry_delay.silence() == old(self).dry_delay.silence()
                &&& *final(self) == (NamClapProcessor {
                    dry_delay: final(self).dry_delay,
                    ..*old(self)
                })
                &&& *final(shared) == with_status(
                    *old(shared),
                    old(shared).cold.rt_status.with_flag(RT_STATUS_NON_FINITE_INPUT_DETECTED),
                )
            },
            !found ==> {
                &&& forall|i: int|
                    0 <= i < n_samples ==> finite.ensures((#[trigger] old(buf_host_l)@[i],), true)
                &&& old(self).process_mono || forall|i: int|
                    0 <= i < n_samples ==> finite.ensures((#[trigger] old(buf_host_r)@[i],), true)
                &&& final(buf_host_l)@ == old(buf_host_l)@
                &&& final(buf_host_r)@ == old(buf_host_r)@
                &&& *final(self) == *old(self)
                &&& *final(shared) == *old(shared)
            },
    {
        if has_non_finite(buf_host_l, buf_host_r, n_samples, self.process_mono, finite) {
            shared.cold.rt_status.set_flag(RT_STATUS_NON_FINITE_INPUT_DETECTED);
            crate::channels::fill_head(buf_host_l, silence, n_samples);
            crate::channels::fill_head(buf_host_r, silence, n_samples);
            self.dry_delay.reset();
            true
        } else {
            false
        }
    }

    /// Gets ready for the first part of a block: a right channel that the host has switched
    /// off makes the block mono, a missing model is flagged unless the plug-in is bypassed,
    /// and a change of the bypass since the last block starts a crossfade.
    pub fn prepare_block(&mut self, shared: &mut GuiSharedState)
        requires
            old(self).wf(),
        ensures
            final(self).wf(),
            *final(self) == (NamClapProcessor {
                process_mono: old(self).process_mono || old(shared).ui_to_rt.host_r_deactivated,
                bypass_xfade: triggered(old(self).bypass_xfade, old(self).params.bypass),
                ..*old(self)
            }),
            *final(shared) == with_status(
                *old(shared),
                flag_as(
                    old(shared).cold.rt_status,
                    RT_STATUS_MODEL_LOAD_FAILED,
                    old(self).chain.model_l is None && !old(self).params.bypass,
                ),
            ),
    {
        if shared.ui_to_rt.host_r_deactivated {
            self.process_mono = true;
        }
        let missing: bool = self.chain.model_l.is_none() && !self.params.bypass;
        if missing != shared.cold.rt_status.check_flag(RT_STATUS_MODEL_LOAD_FAILED) {
            if missing {
                shared.cold.rt_status.set_flag(RT_STATUS_MODEL_LOAD_FAILED);
            } else {
                shared.cold.rt_status.clear_flag(RT_STATUS_MODEL_LOAD_FAILED);
            }
        }
        self.bypass_xfade.trigger(self.params.bypass);
    }

    /// Whether the thresholds of the noise gate must be computed anew; asking settles it.
    pub fn take_gate_dirty(&mut self) -> (dirty: bool)
        ensures
            dirty == old(self).gate_dirty,
            *final(self) == (NamClapProcessor { gate_dirty: false, ..*old(self) }),
    {
        let dirty: bool = self.gate_dirty;
        self.gate_dirty = false;
        dirty
    }

    /// Asks the host for a restart where the block has changed the oversampling factor that
    /// waits for one. Returns whether it does.
    pub fn end_block(&mut self, shared: &GuiSharedState, pending_before: PendingRestartOs) -> (restart:
        bool)
        ensures
            ({
                let pending = PendingRestartOs::decoded(shared.cold.pending_restart_os_factor);
                restart == (pending != pending_before && pending != PendingRestartOs::NotPending)
            }),
            final(self).effects@ == (if restart {
                old(self).effects@.push(RtEffect::RequestRestart)
            } else {
                old(self).effects@
            }),
            *final(self) == (NamClapProcessor { effects: final(self).effects, ..*old(self) }),
    {
        let pending = PendingRestartOs::load(&shared.cold.pending_restart_os_factor);
        if pending != pending_before && pending != PendingRestartOs::NotPending {
            self.effects.push(RtEffect::RequestRestart);
            true
        } else {
            false
        }
    }
}

/// Which way a part of a block goes.
#[derive(Clone, Copy, Debug, PartialEq, Eq, Structural)]
pub enum Route {
    /// Rendered and blended with the dry signal.
    Crossfade,
    /// The delayed dry signal alone.
    Bypass,
    /// Rendered.
    Wet,
}

/// What rendering a part of a block amounts to, once the noise gate is known.
#[derive(Clone, Copy, Debug, PartialEq, Eq, Structural)]
pub enum WetStep {
    /// The noise gate is open: the model runs.
    Infer,
    /// The noise gate is closed and the cab-sim rings on for `drain` samples; silence follows.
    DrainTail { drain: usize },
    /// The noise gate is closed and the tail is over.
    Silence,
}

/// Samples from `start` on whose peaks are shown: as many of the `n_out` that were delivered as
/// every output holds. Nothing is shown without a left output.
pub fn peak_span(left: Option<usize>, right: Option<usize>, start: usize, n_out: usize) -> (span:
    usize)
    ensures
        span == (match (left, right) {
            (Some(l), Some(r)) => fitting(
                n_out as int,
                if l < r {
                    l as int
                } else {
                    r as int
                },
                start as int,
            ),
            (Some(l), None) => fitting(n_out as int, l as int, start as int),
            (None, _) => 0,
        }),
{
    let len: usize = match (left, right) {
        (Some(l), Some(r)) => if l < r {
            l
        } else {
            r
        },
        (Some(l), None) => l,
        (None, _) => 0,
    };
    let room: usize = if start < len { len - start } else { 0 };
    if n_out < room {
        n_out
    } else {
        room
    }
}

/// Length of the next piece of what is `remaining`, at most `max_chunk`.
pub open spec fn chunk_spec(remaining: int, max_chunk: int) -> int {
    if remaining < max_chunk {
        remaining
    } else {
        max_chunk
    }
}

/// Lengths of the pieces that `n` samples are processed in.
pub open spec fn chunks(n: int, max_chunk: int) -> Seq<int>
    decreases n,
{
    if n <= 0 || max_chunk <= 0 {
        Seq::empty()
    } else {
        seq![chunk_spec(n, max_chunk)] + chunks(n - chunk_spec(n, max_chunk), max_chunk)
    }
}

pub open spec fn total(lengths: Seq<int>) -> int
    decreases lengths.len(),
{
    if lengths.len() == 0 {
        0
    } else {
        lengths[0] + total(lengths.skip(1))
    }
}

/// The pieces of a part make up the part, and none is longer than allowed.
pub proof fn law_chunks_make_up_the_whole(n: int, max_chunk: int)
    requires
        n >= 0,
        max_chunk > 0,
    ensures
        total(chunks(n, max_chunk)) == n,
        forall|i: int|
            0 <= i < chunks(n, max_chunk).len() ==> 0 < #[trigger] chunks(n, max_chunk)[i]
                <= max_chunk,
    decreases n,
{
    if n > 0 {
        let c = chunk_spec(n, max_chunk);
        law_chunks_make_up_the_whole(n - c, max_chunk);
        assert(chunks(n, max_chunk).skip(1) =~= chunks(n - c, max_chunk));
        assert forall|i: int| 0 <= i < chunks(n, max_chunk).len() implies 0 < #[trigger] chunks(
            n,
            max_chunk,
        )[i] <= max_chunk by {
            if i > 0 {
                assert(chunks(n, max_chunk)[i] == chunks(n - c, max_chunk)[i - 1]);
            }
        }
    }
}

/// Length of the next piece of a part that is too long for the working buffers.
pub fn chunk_len(remaining: usize, max_chunk: usize) -> (len: usize)
    ensures
        len == chunk_spec(remaining as int, max_chunk as int),
{
    if remaining < max_chunk {
        remaining
    } else {
        max_chunk
    }
}

/// The tail that is left after a step, and the step.
pub open spec fn wet_spec(chain: DspChain, gate_closed: bool, conv_active: bool, n: int) -> (
    WetStep,
    u32,
) {
    if gate_closed {
        if chain.cabsim_tail_remaining > 0 {
            let drain = chunk_spec(n, chain.cabsim_tail_remaining as int);
            (
                WetStep::DrainTail { drain: drain as usize },
                (chain.cabsim_tail_remaining - drain) as u32,
            )
        } else {
            (WetStep::Silence, 0)
        }
    } else {
        (
            WetStep::Infer,
            if conv_active && chain.cabsim_adapter is Some {
                chain.cabsim_adapter->Some_0.tail_samples
            } else {
                chain.cabsim_tail_remaining
            },
        )
    }
}

impl<T: Copy> NamClapProcessor<T> {
    /// Which way the next part of the block goes: a crossfade in progress comes first.
    pub open spec fn route_spec(&self) -> Route {
        if self.bypass_xfade.active {
            Route::Crossfade
        } else if self.params.bypass {
            Route::Bypass
        } else {
            Route::Wet
        }
    }

    /// Tells which way the next part of the block goes.
    pub fn route(&self) -> (route: Route)
        ensures
            route == self.route_spec(),
    {
        if self.bypass_xfade.active {
            Route::Crossfade
        } else if self.params.bypass {
            Route::Bypass
        } else {
            Route::Wet
        }
    }

    /// Decides on `n_samples` to be rendered. A closed gate lets the cab-sim ring out and then
    /// leaves silence; audio that reaches an active cab-sim gives it its full tail back.
    pub fn wet_step(&mut self, gate_closed: bool, conv_active: bool, n_samples: usize) -> (step:
        WetStep)
        ensures
            step == wet_spec(old(self).chain, gate_closed, conv_active, n_samples as int).0,
            *final(self) == (NamClapProcessor {
                chain: DspChain {
                    cabsim_tail_remaining: wet_spec(
                        old(self).chain,
                        gate_closed,
                        conv_active,
                        n_samples as int,
                    ).1,
                    ..old(self).chain
                },
                ..*old(self)
            }),
            old(self).wf() ==> final(self).wf(),
    {
        if gate_closed {
            let left: u32 = self.chain.cabsim_tail_remaining;
            if left > 0 {
                let drain: u32 = if n_samples < left as usize { n_samples as u32 } else { left };
                self.chain.cabsim_tail_remaining = left - drain;
                WetStep::DrainTail { drain: drain as usize }
            } else {
                WetStep::Silence
            }
        } else {
            if conv_active {
                if let Some(adapter) = self.chain.cabsim_adapter {
                    self.chain.cabsim_tail_remaining = adapter.tail_samples;
                }
            }
            WetStep::Infer
        }
    }

    /// Brings the events of a step into force, and starts a crossfade where one of them has
    /// changed the bypass.
    pub fn finish_sub_block(&mut self, shared: &mut GuiSharedState, step: SubBlock)
        requires
            old(self).wf(),
            step.first_event <= step.end_event <= old(self).scheduled_events@.len(),
        ensures
            final(self).wf(),
            final(self).event_state(final(shared)) == old(self).event_state(
                old(shared),
            ).apply_events(
                old(self).scheduled_events@,
                step.first_event as int,
                step.end_event as int,
            ),
            final(self).bypass_xfade == triggered(
                old(self).bypass_xfade,
                final(self).params.bypass,
            ),
            (NamClapProcessor {
                bypass_xfade: old(self).bypass_xfade,
                ..*final(self)
            }).same_beyond_events(old(self)),
            same_event_shared(old(shared), final(shared)),
    {
        let mut i: usize = step.first_event;
        proof {
            reveal(NamClapProcessor::same_beyond_events);
            reveal(same_event_shared);
        }
        while i < step.end_event
            invariant
                step.first_event <= i <= step.end_event,
                step.end_event <= self.scheduled_events@.len(),
                self.wf(),
                self.scheduled_events == old(self).scheduled_events,
                self.bypass_xfade == old(self).bypass_xfade,
                self.same_beyond_events(old(self)),
                same_event_shared(old(shared), shared),
                self.event_state(shared) == old(self).event_state(old(shared)).apply_events(
                    old(self).scheduled_events@,
                    step.first_event as int,
                    i as int,
                ),
            decreases step.end_event - i,
        {
            let event = self.scheduled_events[i];
            let ghost before = *self;
            let ghost shared_before = *shared;
            self.apply_scheduled_event(shared, event);
            proof {
                Self::lemma_events_trans(old(self), &before, self);
                lemma_event_shared_trans(old(shared), &shared_before, shared);
            }
            i = i + 1;
        }
        self.bypass_xfade.trigger(self.params.bypass);
        proof {
            reveal(NamClapProcessor::same_beyond_events);
        }
    }

    proof fn lemma_events_trans(a: &Self, b: &Self, c: &Self)
        requires
            b.same_beyond_events(a),
            c.same_beyond_events(b),
        ensures
            c.same_beyond_events(a),
            c.scheduled_events == b.scheduled_events,
            c.bypass_xfade == b.bypass_xfade,
    {
        reveal(NamClapProcessor::same_beyond_events);
    }
}

proof fn lemma_event_shared_trans(a: &GuiSharedState, b: &GuiSharedState, c: &GuiSharedState)
    requires
        same_event_shared(a, b),
        same_event_shared(b, c),
    ensures
        same_event_shared(a, c),
{
    reveal(same_event_shared);
}

/// While the noise gate stays closed the tail shrinks with every sample and ends: after `first` and
/// `second` samples as much is left as after both at once.
pub proof fn law_tail_drains(chain: DspChain, first: int, second: int)
    requires
        0 <= first,
        0 <= second,
        first + second <= usize::MAX,
    ensures
        ({
            let once = DspChain {
                cabsim_tail_remaining: wet_spec(chain, true, true, first).1,
                ..chain
            };
            &&& wet_spec(once, true, true, second).1 == wet_spec(
                chain,
                true,
                true,
                first + second,
            ).1
            &&& first >= chain.cabsim_tail_remaining ==> wet_spec(once, true, true, second).0
                == WetStep::Silence
        }),
{
}

/// Audio that reaches an active cab-sim brings the full tail back, so that every note rings
/// out.
pub proof fn law_tail_is_rearmed(chain: DspChain, n: int)
    requires
        chain.cabsim_adapter is Some,
    ensures
        wet_spec(chain, false, true, n).1 == chain.cabsim_adapter->Some_0.tail_samples,
{
}

impl<T: Copy> NamClapProcessor<T> {
    /// Forgets the past of the audio, as after a jump in time. What is installed and set stays;
    /// nothing changes in the latency, and no restart is asked for.
    pub fn reset(&mut self)
        requires
            old(self).wf(),
        ensures
            final(self).wf(),
            final(self).dry_delay.history_l() == Seq::<T>::empty(),
            final(self).dry_delay.history_r() == Seq::<T>::empty(),
            final(self).dry_delay.delay() == old(self).dry_delay.delay(),
            final(self).dry_delay.capacity() == old(self).dry_delay.capacity(),
            final(self).dry_delay.silence() == old(self).dry_delay.silence(),
            final(self).effects@ == old(self).effects@.push(RtEffect::ResetDsp),
            *final(self) == (NamClapProcessor {
                dry_delay: final(self).dry_delay,
                effects: final(self).effects,
                chain: DspChain {
                    cabsim_tail_remaining: match old(self).chain.cabsim_adapter {
                        Some(a) => a.tail_samples,
                        None => 0,
                    },
                    ..old(self).chain
                },
                bypass_xfade: BypassCrossfader {
                    target: old(self).params.bypass,
                    active: false,
                    mix: end_mix(old(self).params.bypass),
                    step: 0,
                    remaining: 0,
                },
                ..*old(self)
            }),
    {
        self.dry_delay.reset();
        self.bypass_xfade = BypassCrossfader::new(self.params.bypass);
        self.chain.cabsim_tail_remaining = match self.chain.cabsim_adapter {
            Some(a) => a.tail_samples,
            None => 0,
        };
        self.effects.push(RtEffect::ResetDsp);
    }
}

} // verus!
