//! The rest of what the audio thread does at the start of a callback, after the commands have
//! been drained.

use vstd::prelude::*;
use crate::command_scheduler::CommandConsumer;
use crate::events::{lemma_apply_keeps_ack, next_count, DrainReport};
use crate::gestures::{gui_events_written, waiting, GuiEventQueue};
use crate::params::{
    ActivationPrecision, AdaptiveComputeMode, OversampleFactor, RtProcessingParams, SlimOverride,
};
use crate::payload::{ClapParamPayload, GcItem, SlimmableRebuild};
use crate::processor::{
    cells_of, same_shared, with_cells, DspChain, NamClapProcessor, RtCells, RtEffect, RtState,
};
use crate::ring::{pop_rebuild, rebuild_at, rebuild_read_end, ReadEnd};
use crate::shared::{ColdShared, GuiSharedState, RtToUi, UiToRt, RENDER_MODE_OFFLINE};
use crate::status::{
    RtStatusFlags, RT_STATUS_GUI_EVENT_BACKPRESSURE, RT_STATUS_NEEDS_SLIMMABLE_REBUILD,
};

verus! {

/// The parameters that the GUI has stored.
pub open spec fn gui_params(ui: UiToRt) -> RtProcessingParams {
    RtProcessingParams {
        input_gain_db: ui.param_input_gain,
        output_gain_db: ui.param_output_gain,
        gate_threshold_db: ui.param_gate_thresh,
        bypass: ui.param_bypass != 0,
        adaptive_compute: AdaptiveComputeMode::of_code(ui.param_adaptive_compute),
        slim_override: SlimOverride::of_code(ui.param_slim_override),
        oversample: OversampleFactor::of_code(ui.param_oversample),
        activation_precision: ActivationPrecision::of_code(ui.param_activation),
    }
}

/// Reads the parameters that the GUI has stored.
pub fn read_gui_params(ui: &UiToRt) -> (params: RtProcessingParams)
    ensures
        params == gui_params(*ui),
{
    RtProcessingParams {
        input_gain_db: ui.param_input_gain,
        output_gain_db: ui.param_output_gain,
        gate_threshold_db: ui.param_gate_thresh,
        bypass: ui.param_bypass != 0,
        adaptive_compute: AdaptiveComputeMode::decode(ui.param_adaptive_compute),
        slim_override: SlimOverride::decode(ui.param_slim_override),
        oversample: OversampleFactor::decode(ui.param_oversample),
        activation_precision: ActivationPrecision::decode(ui.param_activation),
    }
}

/// Everything that a callback changes before it processes audio.
#[verifier::ext_equal]
pub ghost struct CallbackState {
    pub rt: RtState,
    pub last_seen_generation: u32,
    pub last_render_mode: u32,
    pub realtime_activation: ActivationPrecision,
    pub current_latency: u32,
    pub requested_slimmable_generation: u64,
    pub slimmable_stale_discarded_total: u32,
}

impl CallbackState {
    /// A shortage of room in the host's queue is flagged.
    #[verifier::opaque]
    pub open spec fn flag_backpressure(self, short: bool) -> CallbackState {
        if short {
            CallbackState {
                rt: RtState {
                    cells: RtCells {
                        rt_status: self.rt.cells.rt_status.with_flag(
                            RT_STATUS_GUI_EVENT_BACKPRESSURE,
                        ),
                        ..self.rt.cells
                    },
                    ..self.rt
                },
                ..self
            }
        } else {
            self
        }
    }

    /// The commands of the main thread are drained.
    pub open spec fn drain(
        self,
        deferred: Option<ClapParamPayload>,
        consumer: &CommandConsumer,
        report: DrainReport,
    ) -> CallbackState {
        CallbackState { rt: self.rt.drained(deferred, consumer, report), ..self }
    }

    /// Changes of the GUI are taken over where there are any.
    #[verifier::opaque]
    pub open spec fn sync_gui(self, ui: UiToRt) -> CallbackState {
        if ui.gui_param_generation == self.last_seen_generation {
            self
        } else {
            CallbackState {
                last_seen_generation: ui.gui_param_generation,
                rt: self.rt.apply_params(gui_params(ui)),
                ..self
            }
        }
    }

    /// The latency of the chain is published.
    #[verifier::opaque]
    pub open spec fn publish_latency(self) -> CallbackState {
        CallbackState { current_latency: self.rt.chain.cached_effective_latency, ..self }
    }

    /// The adaptive compute unit changes its mode.
    #[verifier::opaque]
    pub open spec fn set_mode(self, mode: AdaptiveComputeMode) -> CallbackState {
        CallbackState {
            rt: RtState {
                adaptive_mode: mode,
                effects: self.rt.effects.push(RtEffect::SetAdaptiveMode(mode)),
                ..self.rt
            },
            ..self
        }
    }

    /// The precision of the activation functions changes.
    #[verifier::opaque]
    pub open spec fn set_precision(self, precision: ActivationPrecision) -> CallbackState {
        CallbackState {
            rt: RtState {
                params: RtProcessingParams { activation_precision: precision, ..self.rt.params },
                effects: self.rt.effects.push(RtEffect::SetActivation(precision)),
                ..self.rt
            },
            ..self
        }
    }

    /// Another render mode is noted, with the precision to return to.
    #[verifier::opaque]
    pub open spec fn turn_to(self, render_mode: u32, precision: ActivationPrecision) -> CallbackState {
        CallbackState { last_render_mode: render_mode, realtime_activation: precision, ..self }
    }

    /// Offline rendering runs at full quality. What the user had chosen comes back with real
    /// time.
    #[verifier::opaque]
    pub open spec fn follow_render_mode(self, ui: UiToRt, render_mode: u32) -> CallbackState {
        let turned = if render_mode == self.last_render_mode {
            self
        } else if render_mode == RENDER_MODE_OFFLINE {
            self.turn_to(render_mode, self.rt.params.activation_precision).set_mode(
                AdaptiveComputeMode::Off,
            ).set_precision(ActivationPrecision::Standard)
        } else {
            self.turn_to(render_mode, self.realtime_activation).set_mode(
                gui_params(ui).adaptive_compute,
            ).set_precision(self.realtime_activation)
        };
        if render_mode == RENDER_MODE_OFFLINE && turned.rt.adaptive_mode
            != AdaptiveComputeMode::Off {
            turned.set_mode(AdaptiveComputeMode::Off)
        } else {
            turned
        }
    }

    /// The main thread is asked for a model with another number of channels.
    #[verifier::opaque]
    pub open spec fn signal_rebuild(self, target: Option<u32>) -> CallbackState {
        match target {
            None => self,
            Some(channels) => CallbackState {
                rt: RtState {
                    cells: RtCells {
                        rt_status: RtStatusFlags {
                            requested_slimmable_ch: channels,
                            ..self.rt.cells.rt_status
                        }.with_flag(RT_STATUS_NEEDS_SLIMMABLE_REBUILD),
                        ..self.rt.cells
                    },
                    ..self.rt
                },
                requested_slimmable_generation: self.rt.chain.model_generation,
                ..self
            },
        }
    }

    /// A rebuilt model arrives. It is installed only where it was made from the active model.
    pub open spec fn install_rebuild(self, rebuild: SlimmableRebuild) -> CallbackState {
        if rebuild.generation != self.rt.chain.model_generation {
            CallbackState {
                rt: RtState {
                    effects: self.rt.effects.push(RtEffect::Retire(GcItem::Model(rebuild.model))),
                    ..self.rt
                },
                slimmable_stale_discarded_total: next_count(self.slimmable_stale_discarded_total),
                ..self
            }
        } else {
            CallbackState {
                rt: RtState {
                    chain: DspChain { model_l: Some(rebuild.model), ..self.rt.chain },
                    effects: match self.rt.chain.model_l {
                        Some(model) => self.rt.effects.push(
                            RtEffect::Retire(GcItem::Model(model)),
                        ),
                        None => self.rt.effects,
                    },
                    ..self.rt
                },
                ..self
            }
        }
    }

    /// Rebuilt models arrive one after the other.
    pub open spec fn install_all(self, rebuilds: Seq<SlimmableRebuild>) -> CallbackState
        decreases rebuilds.len(),
    {
        if rebuilds.len() == 0 {
            self
        } else {
            self.install_all(rebuilds.drop_last()).install_rebuild(rebuilds.last())
        }
    }
}

/// What follows the drain in a callback leaves the acknowledgment alone.
proof fn lemma_rest_keeps_ack(
    state: CallbackState,
    ui: UiToRt,
    render_mode: u32,
    target: Option<u32>,
    rebuilds: Seq<SlimmableRebuild>,
)
    ensures
        state.sync_gui(ui).publish_latency().follow_render_mode(ui, render_mode).signal_rebuild(
            target,
        ).install_all(rebuilds).rt.cells.cmd_last_ack == state.rt.cells.cmd_last_ack,
    decreases rebuilds.len(),
{
    if rebuilds.len() > 0 {
        lemma_rest_keeps_ack(state, ui, render_mode, target, rebuilds.drop_last());
    } else {
        lemma_apply_keeps_ack(state.rt, ClapParamPayload::Params(gui_params(ui)));
        reveal(CallbackState::sync_gui);
        reveal(CallbackState::publish_latency);
        reveal(CallbackState::turn_to);
        reveal(CallbackState::set_mode);
        reveal(CallbackState::set_precision);
        reveal(CallbackState::follow_render_mode);
        reveal(CallbackState::signal_rebuild);
    }
}

/// The first `n` rebuilt models that `rx` hands out.
pub open spec fn upcoming_rebuilds(rx: rtrb::Consumer<SlimmableRebuild>, n: nat) -> Seq<
    SlimmableRebuild,
> {
    Seq::new(
        n,
        |i: int| rebuild_at(rebuild_read_end(rx).ring, (rebuild_read_end(rx).popped + i) as nat),
    )
}

/// How often taking `count` rebuilt models finds the ring empty: once, at the end, unless the
/// count is at its limit.
pub open spec fn rebuild_misses(count: u64) -> nat {
    if count < u64::MAX {
        1
    } else {
        0
    }
}

/// `after` differs from `before` only in the cells that a callback writes.
#[verifier::opaque]
pub open spec fn same_callback_shared(before: &GuiSharedState, after: &GuiSharedState) -> bool {
    let cells = with_cells(*before, cells_of(*after));
    *after == (GuiSharedState {
        rt_to_ui: RtToUi { current_latency: after.rt_to_ui.current_latency, ..cells.rt_to_ui },
        ui_to_rt: UiToRt { gesture_flags: after.ui_to_rt.gesture_flags, ..before.ui_to_rt },
        cold: ColdShared {
            requested_slimmable_generation: after.cold.requested_slimmable_generation,
            slimmable_stale_discarded_total: after.cold.slimmable_stale_discarded_total,
            ..cells.cold
        },
    })
}

proof fn lemma_callback_shared_trans(a: &GuiSharedState, b: &GuiSharedState, c: &GuiSharedState)
    requires
        same_callback_shared(a, b),
        same_callback_shared(b, c),
    ensures
        same_callback_shared(a, c),
{
    reveal(same_callback_shared);
}

proof fn lemma_callback_shared_from_cells(a: &GuiSharedState, b: &GuiSharedState)
    requires
        same_shared(a, b),
    ensures
        same_callback_shared(a, b),
        b.ui_to_rt == a.ui_to_rt,
        b.cold.render_mode == a.cold.render_mode,
{
    reveal(same_callback_shared);
    reveal(same_shared);
}

impl<T: Copy> NamClapProcessor<T> {
    /// What a callback changes before it processes audio.
    pub open spec fn callback(&self, shared: &GuiSharedState) -> CallbackState {
        CallbackState {
            rt: self.rt(shared),
            last_seen_generation: self.last_seen_generation,
            last_render_mode: self.last_render_mode,
            realtime_activation: self.realtime_activation,
            current_latency: shared.rt_to_ui.current_latency,
            requested_slimmable_generation: shared.cold.requested_slimmable_generation,
            slimmable_stale_discarded_total: shared.cold.slimmable_stale_discarded_total,
        }
    }

    /// `self` differs from `before` only in what a callback changes before it processes
    /// audio.
    #[verifier::opaque]
    pub open spec fn same_beyond_callback(&self, before: &Self) -> bool {
        &&& *self == (NamClapProcessor {
            chain: self.chain,
            params: self.params,
            adaptive_mode: self.adaptive_mode,
            gate_dirty: self.gate_dirty,
            effects: self.effects,
            dry_delay: self.dry_delay,
            cmd_consumer: self.cmd_consumer,
            deferred_structural: self.deferred_structural,
            slimmable_rx: self.slimmable_rx,
            last_seen_generation: self.last_seen_generation,
            last_render_mode: self.last_render_mode,
            realtime_activation: self.realtime_activation,
            ..*before
        })
        &&& self.dry_delay.history_l() == before.dry_delay.history_l()
        &&& self.dry_delay.history_r() == before.dry_delay.history_r()
        &&& self.dry_delay.capacity() == before.dry_delay.capacity()
        &&& self.dry_delay.silence() == before.dry_delay.silence()
    }

    proof fn lemma_beyond_callback_trans(a: &Self, b: &Self, c: &Self)
        requires
            b.same_beyond_callback(a),
            c.same_beyond_callback(b),
        ensures
            c.same_beyond_callback(a),
    {
        reveal(NamClapProcessor::same_beyond_callback);
    }

    proof fn lemma_beyond_callback_refl(a: &Self)
        ensures
            a.same_beyond_callback(a),
    {
        reveal(NamClapProcessor::same_beyond_callback);
    }

    /// Takes over what the GUI has changed since the last callback.
    fn sync_from_gui(&mut self, shared: &mut GuiSharedState)
        requires
            old(self).wf(),
        ensures
            final(self).wf(),
            final(self).same_beyond_callback(old(self)),
            same_shared(old(shared), final(shared)),
            final(self).callback(final(shared)) == old(self).callback(old(shared)).sync_gui(
                old(shared).ui_to_rt,
            ),
            final(self).same_ends(old(self)),
    {
        proof {
            reveal(CallbackState::sync_gui);
            reveal(NamClapProcessor::same_beyond_callback);
            reveal(NamClapProcessor::same_rest);
            reveal(same_shared);
        }
        let generation: u32 = shared.ui_to_rt.gui_param_generation;
        if generation != self.last_seen_generation {
            self.last_seen_generation = generation;
            let params = read_gui_params(&shared.ui_to_rt);
            self.apply_params_from_spsc(shared, params);
        }
    }

    fn set_adaptive_mode(&mut self, Ghost(shared): Ghost<&GuiSharedState>, mode: AdaptiveComputeMode)
        requires
            old(self).wf(),
        ensures
            final(self).wf(),
            final(self).same_beyond_callback(old(self)),
            final(self).callback(shared) == old(self).callback(shared).set_mode(mode),
            final(self).adaptive_mode == mode,
            final(self).same_ends(old(self)),
    {
        proof {
            reveal(CallbackState::set_mode);
            reveal(NamClapProcessor::same_beyond_callback);
        }
        self.adaptive_mode = mode;
        self.effects.push(RtEffect::SetAdaptiveMode(mode));
    }

    fn set_activation(
        &mut self,
        Ghost(shared): Ghost<&GuiSharedState>,
        precision: ActivationPrecision,
    )
        requires
            old(self).wf(),
        ensures
            final(self).wf(),
            final(self).same_beyond_callback(old(self)),
            final(self).callback(shared) == old(self).callback(shared).set_precision(precision),
            final(self).adaptive_mode == old(self).adaptive_mode,
            final(self).same_ends(old(self)),
    {
        proof {
            reveal(CallbackState::set_precision);
            reveal(NamClapProcessor::same_beyond_callback);
        }
        self.params.activation_precision = precision;
        self.effects.push(RtEffect::SetActivation(precision));
    }

    fn turn_to(
        &mut self,
        Ghost(shared): Ghost<&GuiSharedState>,
        render_mode: u32,
        precision: ActivationPrecision,
    )
        requires
            old(self).wf(),
        ensures
            final(self).wf(),
            final(self).same_beyond_callback(old(self)),
            final(self).callback(shared) == old(self).callback(shared).turn_to(
                render_mode,
                precision,
            ),
            final(self).adaptive_mode == old(self).adaptive_mode,
            final(self).same_ends(old(self)),
    {
        proof {
            reveal(CallbackState::turn_to);
            reveal(NamClapProcessor::same_beyond_callback);
        }
        self.last_render_mode = render_mode;
        self.realtime_activation = precision;
    }

    /// The ends of the rings and the deferred command are the same.
    pub open spec fn same_ends(&self, before: &Self) -> bool {
        &&& self.slimmable_rx == before.slimmable_rx
        &&& self.cmd_consumer == before.cmd_consumer
        &&& self.deferred_structural == before.deferred_structural
    }

    /// Follows the host between real time and offline rendering.
    fn follow_render_mode(&mut self, shared: &GuiSharedState)
        requires
            old(self).wf(),
        ensures
            final(self).wf(),
            final(self).same_beyond_callback(old(self)),
            final(self).callback(shared) == old(self).callback(shared).follow_render_mode(
                shared.ui_to_rt,
                shared.cold.render_mode,
            ),
            final(self).same_ends(old(self)),
    {
        proof {
            reveal(CallbackState::follow_render_mode);
            Self::lemma_beyond_callback_refl(self);
        }
        let render_mode: u32 = shared.cold.render_mode;
        if render_mode != self.last_render_mode {
            let (precision, mode, kept) = if render_mode == RENDER_MODE_OFFLINE {
                (
                    ActivationPrecision::Standard,
                    AdaptiveComputeMode::Off,
                    self.params.activation_precision,
                )
            } else {
                (
                    self.realtime_activation,
                    read_gui_params(&shared.ui_to_rt).adaptive_compute,
                    self.realtime_activation,
                )
            };
            self.turn_to(Ghost(shared), render_mode, kept);
            let ghost p1 = *self;
            self.set_adaptive_mode(Ghost(shared), mode);
            let ghost p2 = *self;
            self.set_activation(Ghost(shared), precision);
            proof {
                Self::lemma_beyond_callback_trans(old(self), &p1, &p2);
                Self::lemma_beyond_callback_trans(old(self), &p2, self);
            }
        }
        if render_mode == RENDER_MODE_OFFLINE && self.adaptive_mode != AdaptiveComputeMode::Off {
            let ghost p3 = *self;
            self.set_adaptive_mode(Ghost(shared), AdaptiveComputeMode::Off);
            proof {
                Self::lemma_beyond_callback_trans(old(self), &p3, self);
            }
        }
    }

    /// Publishes the latency of the chain.
    fn publish_latency(&self, shared: &mut GuiSharedState)
        ensures
            same_callback_shared(old(shared), final(shared)),
            final(shared).ui_to_rt == old(shared).ui_to_rt,
            final(shared).cold == old(shared).cold,
            self.callback(final(shared)) == self.callback(old(shared)).publish_latency(),
    {
        proof {
            reveal(CallbackState::publish_latency);
            reveal(same_callback_shared);
        }
        if self.chain.cached_effective_latency != shared.rt_to_ui.current_latency {
            shared.rt_to_ui.current_latency = self.chain.cached_effective_latency;
        }
    }

    /// Passes a wish of the adaptive compute unit for another number of channels on to the
    /// main thread, tagged with the model that it was made for.
    pub fn signal_slimmable_rebuild(&self, shared: &mut GuiSharedState, target: Option<u32>)
        ensures
            same_callback_shared(old(shared), final(shared)),
            final(shared).ui_to_rt == old(shared).ui_to_rt,
            self.callback(final(shared)) == self.callback(old(shared)).signal_rebuild(target),
    {
        proof {
            reveal(CallbackState::signal_rebuild);
            reveal(same_callback_shared);
        }
        if let Some(channels) = target {
            shared.cold.rt_status.requested_slimmable_ch = channels;
            shared.cold.requested_slimmable_generation = self.chain.model_generation;
            shared.cold.rt_status.set_flag(RT_STATUS_NEEDS_SLIMMABLE_REBUILD);
        }
    }
}

proof fn lemma_install_all_push(
    state: CallbackState,
    rebuilds: Seq<SlimmableRebuild>,
    rebuild: SlimmableRebuild,
)
    ensures
        state.install_all(rebuilds.push(rebuild)) == state.install_all(rebuilds).install_rebuild(
            rebuild,
        ),
{
    assert(rebuilds.push(rebuild).drop_last() =~= rebuilds);
}

impl<T: Copy> NamClapProcessor<T> {
    /// Deals with one rebuilt model: it replaces the active model that it was made from; one
    /// that was made from another model is retired.
    pub fn install_rebuild(&mut self, shared: &mut GuiSharedState, rebuild: SlimmableRebuild)
        requires
            old(self).wf(),
        ensures
            final(self).wf(),
            final(self).same_beyond_callback(old(self)),
            same_callback_shared(old(shared), final(shared)),
            final(shared).ui_to_rt == old(shared).ui_to_rt,
            final(self).callback(final(shared)) == old(self).callback(old(shared)).install_rebuild(
                rebuild,
            ),
            final(self).same_ends(old(self)),
    {
        proof {
            reveal(NamClapProcessor::same_beyond_callback);
            reveal(same_callback_shared);
        }
        if rebuild.generation != self.chain.model_generation {
            self.effects.push(RtEffect::Retire(GcItem::Model(rebuild.model)));
            shared.cold.slimmable_stale_discarded_total =
            shared.cold.slimmable_stale_discarded_total.wrapping_add(1);
        } else {
            if let Some(old_model) = self.chain.model_l {
                self.effects.push(RtEffect::Retire(GcItem::Model(old_model)));
            }
            self.chain.model_l = Some(rebuild.model);
        }
    }

    /// Takes every rebuilt model that has arrived, until the ring is found empty. Returns how many
    /// there were.
    pub fn drain_slimmable_models(&mut self, shared: &mut GuiSharedState) -> (count: u64)
        requires
            old(self).wf(),
        ensures
            final(self).wf(),
            final(self).same_beyond_callback(old(self)),
            same_callback_shared(old(shared), final(shared)),
            final(shared).ui_to_rt == old(shared).ui_to_rt,
            final(self).callback(final(shared)) == old(self).callback(old(shared)).install_all(
                upcoming_rebuilds(old(self).slimmable_rx, count as nat),
            ),
            rebuild_read_end(final(self).slimmable_rx) == (ReadEnd {
                popped: rebuild_read_end(old(self).slimmable_rx).popped + count as nat,
                misses: rebuild_read_end(old(self).slimmable_rx).misses + rebuild_misses(count),
                ..rebuild_read_end(old(self).slimmable_rx)
            }),
            final(self).cmd_consumer == old(self).cmd_consumer,
            final(self).deferred_structural == old(self).deferred_structural,
    {
        let mut count: u64 = 0;
        let ghost rx = self.slimmable_rx;
        proof {
            Self::lemma_beyond_callback_refl(self);
            assert(same_callback_shared(shared, shared)) by {
                reveal(same_callback_shared);
            }
            assert(upcoming_rebuilds(rx, 0) =~= Seq::<SlimmableRebuild>::empty());
        }
        while count < u64::MAX
            invariant_except_break
                rebuild_read_end(self.slimmable_rx).misses == rebuild_read_end(rx).misses,
            invariant
                self.wf(),
                self.same_beyond_callback(old(self)),
                same_callback_shared(old(shared), shared),
                shared.ui_to_rt == old(shared).ui_to_rt,
                rx == old(self).slimmable_rx,
                self.callback(shared) == old(self).callback(old(shared)).install_all(
                    upcoming_rebuilds(rx, count as nat),
                ),
                rebuild_read_end(self.slimmable_rx) == (ReadEnd {
                    popped: rebuild_read_end(rx).popped + count as nat,
                    misses: rebuild_read_end(self.slimmable_rx).misses,
                    ..rebuild_read_end(rx)
                }),
                self.cmd_consumer == old(self).cmd_consumer,
                self.deferred_structural == old(self).deferred_structural,
            ensures
                rebuild_read_end(self.slimmable_rx).misses == rebuild_read_end(rx).misses
                    + rebuild_misses(count),
            decreases u64::MAX - count,
        {
            let ghost before = *self;
            let ghost shared_before = *shared;
            let next = pop_rebuild(&mut self.slimmable_rx);
            proof {
                assert(self.same_beyond_callback(&before)) by {
                    reveal(NamClapProcessor::same_beyond_callback);
                }
                Self::lemma_beyond_callback_trans(old(self), &before, self);
            }
            match next {
                None => {
                    break;
                },
                Some(rebuild) => {
                    let ghost popped = *self;
                    self.install_rebuild(shared, rebuild);
                    proof {
                        Self::lemma_beyond_callback_trans(old(self), &popped, self);
                        lemma_callback_shared_trans(old(shared), &shared_before, shared);
                        lemma_install_all_push(
                            old(self).callback(old(shared)),
                            upcoming_rebuilds(rx, count as nat),
                            rebuild,
                        );
                        assert(upcoming_rebuilds(rx, (count + 1) as nat) =~= upcoming_rebuilds(
                            rx,
                            count as nat,
                        ).push(rebuild));
                    }
                    count = count + 1;
                },
            }
        }
        count
    }
}

/// What a callback did before it processed audio.
#[derive(Clone, Copy, Debug, PartialEq, Eq, Structural)]
pub struct CallbackReport {
    pub drain: DrainReport,
    /// Rebuilt models that had arrived.
    pub rebuilds: u64,
}

impl<T: Copy> NamClapProcessor<T> {
    /// Delivers the events of the GUI to the host.
    fn deliver_gui_events(&self, shared: &mut GuiSharedState, output: &mut GuiEventQueue)
        ensures
            same_callback_shared(old(shared), final(shared)),
            self.callback(final(shared)) == self.callback(old(shared)).flag_backpressure(
                waiting(final(shared).ui_to_rt).len() > 0,
            ),
            gui_events_written(
                *old(output),
                old(shared).ui_to_rt,
                *final(output),
                final(shared).ui_to_rt,
            ),
    {
        shared.write_gui_events(output);
        proof {
            reveal(same_callback_shared);
            reveal(CallbackState::flag_backpressure);
        }
    }

    /// Starts a callback: events of the GUI go to the host, commands of the main thread are
    /// drained, changes of the GUI are taken over, the latency is published, the render mode
    /// followed, a wish for another number of channels passed on, and rebuilt models are
    /// taken. `slimmable_target` is the wish of the adaptive compute unit, if it has one.
    pub fn process_events(
        &mut self,
        shared: &mut GuiSharedState,
        output: &mut GuiEventQueue,
        slimmable_target: Option<u32>,
    ) -> (report: CallbackReport)
        requires
            old(self).wf(),
        ensures
            final(self).wf(),
            final(self).same_beyond_callback(old(self)),
            same_callback_shared(old(shared), final(shared)),
            gui_events_written(
                *old(output),
                old(shared).ui_to_rt,
                *final(output),
                final(shared).ui_to_rt,
            ),
            report.drain.fits(
                old(self).deferred_structural,
                &old(self).cmd_consumer,
                final(self).deferred_structural,
                &final(self).cmd_consumer,
            ),
            final(shared).cold.cmd_last_ack == report.drain.acknowledged(
                old(self).deferred_structural,
                &old(self).cmd_consumer,
                old(shared).cold.cmd_last_ack,
            ),
            rebuild_read_end(final(self).slimmable_rx) == (ReadEnd {
                popped: rebuild_read_end(old(self).slimmable_rx).popped + report.rebuilds as nat,
                misses: rebuild_read_end(old(self).slimmable_rx).misses + rebuild_misses(
                    report.rebuilds,
                ),
                ..rebuild_read_end(old(self).slimmable_rx)
            }),
            final(self).callback(final(shared)) == old(self).callback(
                old(shared),
            ).flag_backpressure(waiting(final(shared).ui_to_rt).len() > 0).drain(
                old(self).deferred_structural,
                &old(self).cmd_consumer,
                report.drain,
            ).sync_gui(final(shared).ui_to_rt).publish_latency().follow_render_mode(
                final(shared).ui_to_rt,
                final(shared).cold.render_mode,
            ).signal_rebuild(slimmable_target).install_all(
                upcoming_rebuilds(old(self).slimmable_rx, report.rebuilds as nat),
            ),
    {
        self.deliver_gui_events(shared, output);
        let ghost s1 = *shared;
        let drain = self.drain_commands(shared);
        let ghost p2 = *self;
        let ghost s2 = *shared;
        proof {
            lemma_callback_shared_from_cells(&s1, &s2);
            lemma_callback_shared_trans(old(shared), &s1, &s2);
            Self::lemma_callback_after_commands(old(self), &p2, &s1, &s2);
        }
        self.sync_from_gui(shared);
        let ghost p3 = *self;
        let ghost s3 = *shared;
        proof {
            lemma_callback_shared_from_cells(&s2, &s3);
            lemma_callback_shared_trans(old(shared), &s2, &s3);
            Self::lemma_beyond_callback_trans(old(self), &p2, &p3);
        }
        self.publish_latency(shared);
        let ghost s4 = *shared;
        self.follow_render_mode(shared);
        let ghost p5 = *self;
        proof {
            lemma_callback_shared_trans(old(shared), &s3, &s4);
            Self::lemma_beyond_callback_trans(old(self), &p3, &p5);
        }
        self.signal_slimmable_rebuild(shared, slimmable_target);
        let ghost s6 = *shared;
        let rebuilds: u64 = self.drain_slimmable_models(shared);
        proof {
            lemma_callback_shared_trans(old(shared), &s4, &s6);
            lemma_callback_shared_trans(old(shared), &s6, shared);
            Self::lemma_beyond_callback_trans(old(self), &p5, self);
            reveal(same_callback_shared);
            reveal(CallbackState::flag_backpressure);
            lemma_rest_keeps_ack(
                p2.callback(&s2),
                shared.ui_to_rt,
                shared.cold.render_mode,
                slimmable_target,
                upcoming_rebuilds(old(self).slimmable_rx, rebuilds as nat),
            );
        }
        CallbackReport { drain, rebuilds }
    }

    /// Draining commands leaves alone what only the rest of a callback changes.
    proof fn lemma_callback_after_commands(
        before: &Self,
        after: &Self,
        shared_before: &GuiSharedState,
        shared_after: &GuiSharedState,
    )
        requires
            after.same_beyond_commands(before),
            same_shared(shared_before, shared_after),
        ensures
            after.same_beyond_callback(before),
            after.callback(shared_after) == (CallbackState {
                rt: after.rt(shared_after),
                ..before.callback(shared_before)
            }),
            after.slimmable_rx == before.slimmable_rx,
    {
        reveal(NamClapProcessor::same_beyond_commands);
        reveal(NamClapProcessor::same_beyond_callback);
        reveal(same_shared);
    }
}

} // verus!
