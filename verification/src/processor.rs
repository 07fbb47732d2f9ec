//! The audio-thread processor: what it holds and how a command changes it.

use vstd::prelude::*;
use crate::command_scheduler::CommandConsumer;
use crate::crossfade::BypassCrossfader;
use crate::dry_delay::DryDelayLine;
use crate::params::{
    ActivationPrecision, AdaptiveComputeMode, OversampleFactor, RtProcessingParams, SlimOverride,
};
use crate::payload::{
    CabSimHandle, ClapParamPayload, GcItem, LoadModelPayload, ModelHandle, OversampleHandle,
    ResamplerHandle, RestoreTxn, SlimmableRebuild, StreamHandle, WaveNetShape,
};
use crate::shared::{ColdShared, GuiSharedState, PendingRestartOs, RtToUi};
use crate::status::{RtStatusFlags, RT_STATUS_NEEDS_OS_REBUILD};

verus! {

/// Structural commands applied in one callback at most.
pub const MAX_STRUCTURAL_COMMANDS_PER_CALLBACK: u32 = 1;

/// The resources that are installed on the audio thread.
#[derive(Clone, Copy, Debug, PartialEq, Eq, Structural)]
pub struct DspChain {
    /// `None` without a model.
    pub model_l: Option<ModelHandle>,
    /// Generation of the active model, as its load carried it.
    pub model_generation: u64,
    /// `None` without a cab-sim.
    pub cabsim_adapter: Option<CabSimHandle>,
    pub resampler: ResamplerHandle,
    pub stream: StreamHandle,
    pub os_l: OversampleHandle,
    pub os_r: OversampleHandle,
    /// Factor of the engines that are installed; the requested one may be ahead of it.
    pub applied_os_factor: OversampleFactor,
    pub model_input_mult_adj: u32,
    pub model_output_mult_adj: u32,
    /// Samples of the cab-sim tail still to be played once the noise gate has closed.
    pub cabsim_tail_remaining: u32,
    /// Latency of the whole chain in samples.
    pub cached_effective_latency: u32,
}

/// Something for the audio engine or the host to do, in the order in which it was decided.
#[derive(Clone, Copy, Debug, PartialEq, Eq, Structural)]
pub enum RtEffect {
    /// Hand a resource over for disposal on the main thread.
    Retire(GcItem),
    /// Connect a new model to the status flags.
    InjectRtStatus(ModelHandle),
    /// Tell the adaptive compute unit about the channels of the new model.
    SetWaveNetChannels(WaveNetShape),
    /// Tell the host that the tail has changed.
    TailChanged,
    /// Adopt a parameter snapshot.
    ApplyParams(RtProcessingParams),
    SetAdaptiveMode(AdaptiveComputeMode),
    SetSlimOverride(SlimOverride),
    SetActivation(ActivationPrecision),
    /// Aim the input smoother at the sum of two levels in dB (bit patterns).
    SetInputGain { db: u32, modulation: u32 },
    /// Aim the output smoother at the sum of two levels in dB (bit patterns).
    SetOutputGain { db: u32, modulation: u32 },
    /// Ask the host to restart the plug-in.
    RequestRestart,
    /// Forget the past of the model, the resamplers, the engines and the cab-sim.
    ResetDsp,
}

/// A parameter change of the host, due at a sample of the block.
#[derive(Clone, Copy, Debug, PartialEq, Eq, Structural)]
pub struct ScheduledEvent {
    pub time: usize,
    pub param_id: u32,
    pub value: EventValue,
    /// Whether the value is a modulation on top of the parameter.
    pub is_mod: bool,
}

/// The value of a parameter event: its bit pattern, and what it means for each parameter
/// that is a choice.
#[derive(Clone, Copy, Debug, PartialEq, Eq, Structural)]
pub struct EventValue {
    pub bits: u32,
    pub bypass: bool,
    pub adaptive_compute: AdaptiveComputeMode,
    pub slim_override: SlimOverride,
    pub oversample: OversampleFactor,
    pub activation_precision: ActivationPrecision,
}

/// The audio-thread processor.
pub struct NamClapProcessor<T> {
    pub chain: DspChain,
    /// Parameters in force; the oversampling factor is the requested one.
    pub params: RtProcessingParams,
    /// Mode that the adaptive compute unit is in.
    pub adaptive_mode: AdaptiveComputeMode,
    pub process_mono: bool,
    pub scheduled_events: Vec<ScheduledEvent>,
    pub bypass_xfade: BypassCrossfader,
    pub dry_delay: DryDelayLine<T>,
    pub cmd_consumer: CommandConsumer,
    /// A structural command that waits for the next callback.
    pub deferred_structural: Option<ClapParamPayload>,
    pub slimmable_rx: rtrb::Consumer<SlimmableRebuild>,
    pub gc_tx: rtrb::Producer<GcItem>,
    /// Modulation of the input gain (bit pattern).
    pub mod_input_gain: u32,
    /// Modulation of the output gain (bit pattern).
    pub mod_output_gain: u32,
    /// Modulation of the noise gate threshold (bit pattern).
    pub mod_gate_thresh: u32,
    /// Whether the thresholds of the noise gate must be computed anew.
    pub gate_dirty: bool,
    pub cycles_since_telemetry: u32,
    pub prio_checked: bool,
    /// Generation of the GUI changes that have been taken over.
    pub last_seen_generation: u32,
    pub max_frames_count: usize,
    pub last_render_mode: u32,
    /// Precision to return to after an offline rendering.
    pub realtime_activation: ActivationPrecision,
    /// What is to be done outside, in order.
    pub effects: Vec<RtEffect>,
}

/// Sum of the latencies of a chain; the largest `u32` where it does not fit.
pub open spec fn effective_latency(chain: DspChain) -> u32 {
    let sum = chain.stream.latency_samples + chain.os_l.latency_samples + cabsim_latency(
        chain.cabsim_adapter,
    );
    if sum <= u32::MAX {
        sum as u32
    } else {
        u32::MAX
    }
}

/// Latency of a cab-sim; 0 without one.
pub open spec fn cabsim_latency(adapter: Option<CabSimHandle>) -> u32 {
    match adapter {
        Some(a) => a.latency_samples,
        None => 0,
    }
}

/// Length of the tail of a cab-sim as the GUI is told; 0 without one.
pub open spec fn cabsim_tail(adapter: Option<CabSimHandle>) -> u32 {
    match adapter {
        Some(a) => ((a.num_partitions * a.latency_samples) % 0x1_0000_0000) as u32,
        None => 0,
    }
}

/// The shared cells that draining commands writes.
pub ghost struct RtCells {
    pub current_stream_latency: u32,
    pub current_cabsim_latency: u32,
    pub cabsim_tail_samples: u32,
    pub cmd_last_ack: u64,
    pub last_applied_generation: u64,
    pub pending_restart_os_factor: u32,
    pub rt_status: RtStatusFlags,
}

pub open spec fn cells_of(shared: GuiSharedState) -> RtCells {
    RtCells {
        current_stream_latency: shared.cold.current_stream_latency,
        current_cabsim_latency: shared.cold.current_cabsim_latency,
        cabsim_tail_samples: shared.rt_to_ui.cabsim_tail_samples,
        cmd_last_ack: shared.cold.cmd_last_ack,
        last_applied_generation: shared.cold.last_applied_generation,
        pending_restart_os_factor: shared.cold.pending_restart_os_factor,
        rt_status: shared.cold.rt_status,
    }
}

/// `shared` with other values in those cells.
pub open spec fn with_cells(shared: GuiSharedState, cells: RtCells) -> GuiSharedState {
    GuiSharedState {
        rt_to_ui: RtToUi { cabsim_tail_samples: cells.cabsim_tail_samples, ..shared.rt_to_ui },
        cold: ColdShared {
            current_stream_latency: cells.current_stream_latency,
            current_cabsim_latency: cells.current_cabsim_latency,
            cmd_last_ack: cells.cmd_last_ack,
            last_applied_generation: cells.last_applied_generation,
            pending_restart_os_factor: cells.pending_restart_os_factor,
            rt_status: cells.rt_status,
            ..shared.cold
        },
        ..shared
    }
}

/// Everything that applying a command reads or changes.
#[verifier::ext_equal]
pub ghost struct RtState {
    pub chain: DspChain,
    pub params: RtProcessingParams,
    pub adaptive_mode: AdaptiveComputeMode,
    pub gate_dirty: bool,
    pub effects: Seq<RtEffect>,
    pub cells: RtCells,
    /// Whether the plug-in is active, that is, its block size is known.
    pub active: bool,
}

pub open spec fn with_latency(chain: DspChain) -> DspChain {
    DspChain { cached_effective_latency: effective_latency(chain), ..chain }
}

/// Effects of letting go of an old model.
pub open spec fn retire_model(model: Option<ModelHandle>) -> Seq<RtEffect> {
    match model {
        Some(m) => seq![RtEffect::Retire(GcItem::Model(m))],
        None => Seq::empty(),
    }
}

/// Effects of connecting a new model.
pub open spec fn inject_model(model: Option<ModelHandle>) -> Seq<RtEffect> {
    match model {
        Some(m) => seq![RtEffect::InjectRtStatus(m)],
        None => Seq::empty(),
    }
}

/// Effects of announcing the channels of a new model.
pub open spec fn announce_channels(model: Option<ModelHandle>) -> Seq<RtEffect> {
    match model {
        Some(ModelHandle { wavenet: Some(shape), .. }) => seq![RtEffect::SetWaveNetChannels(shape)],
        _ => Seq::empty(),
    }
}

/// Effects of letting go of an old cab-sim.
pub open spec fn retire_cabsim(adapter: Option<CabSimHandle>) -> Seq<RtEffect> {
    match adapter {
        Some(a) => seq![RtEffect::Retire(GcItem::CabConvAdapter(a))],
        None => Seq::empty(),
    }
}

impl RtState {
    /// A model takes the place of the active one, together with its resampler and stream.
    #[verifier::opaque]
    pub open spec fn load_model(self, p: LoadModelPayload) -> RtState {
        RtState {
            chain: with_latency(
                DspChain {
                    model_l: p.model_l,
                    model_generation: p.generation,
                    resampler: p.new_resampler,
                    stream: p.new_stream,
                    model_input_mult_adj: p.input_mult_adj,
                    model_output_mult_adj: p.output_mult_adj,
                    ..self.chain
                },
            ),
            effects: self.effects + retire_model(self.chain.model_l) + inject_model(p.model_l)
                + seq![
                RtEffect::Retire(GcItem::Resampler(self.chain.resampler)),
                RtEffect::Retire(GcItem::Streaming(self.chain.stream)),
            ] + announce_channels(p.model_l),
            cells: RtCells { current_stream_latency: p.new_stream.latency_samples, ..self.cells },
            ..self
        }
    }

    /// A cab-sim takes the place of the active one.
    #[verifier::opaque]
    pub open spec fn load_cabsim(self, adapter: Option<CabSimHandle>) -> RtState {
        RtState {
            chain: with_latency(
                DspChain {
                    cabsim_adapter: adapter,
                    cabsim_tail_remaining: match adapter {
                        Some(a) => a.tail_samples,
                        None => 0,
                    },
                    ..self.chain
                },
            ),
            effects: self.effects + retire_cabsim(self.chain.cabsim_adapter) + seq![
                RtEffect::TailChanged,
            ],
            cells: RtCells {
                current_cabsim_latency: cabsim_latency(adapter),
                cabsim_tail_samples: cabsim_tail(adapter),
                ..self.cells
            },
            ..self
        }
    }

    /// Oversampling engines take the place of the active ones.
    #[verifier::opaque]
    pub open spec fn load_os(self, os_l: OversampleHandle, os_r: OversampleHandle) -> RtState {
        RtState {
            chain: with_latency(
                DspChain { os_l, os_r, applied_os_factor: os_l.factor, ..self.chain },
            ),
            effects: self.effects + seq![
                RtEffect::Retire(GcItem::Oversample(self.chain.os_l)),
                RtEffect::Retire(GcItem::Oversample(self.chain.os_r)),
            ],
            ..self
        }
    }

    /// Another oversampling factor is asked for. It changes the latency, so that an active
    /// plug-in must be restarted for it; otherwise the main thread rebuilds the engines.
    #[verifier::opaque]
    pub open spec fn request_oversample(self, factor: OversampleFactor) -> RtState {
        if factor == self.params.oversample {
            self
        } else {
            RtState {
                params: RtProcessingParams { oversample: factor, ..self.params },
                cells: if self.active {
                    RtCells {
                        pending_restart_os_factor: PendingRestartOs::Pending(factor).encoded(),
                        ..self.cells
                    }
                } else {
                    RtCells {
                        rt_status: RtStatusFlags {
                            requested_os_factor: factor.code_spec(),
                            ..self.cells.rt_status
                        }.with_flag(RT_STATUS_NEEDS_OS_REBUILD),
                        ..self.cells
                    }
                },
                ..self
            }
        }
    }

    /// A parameter snapshot comes into force.
    #[verifier::opaque]
    pub open spec fn apply_params(self, params: RtProcessingParams) -> RtState {
        let asked = self.request_oversample(params.oversample);
        RtState {
            gate_dirty: self.gate_dirty || params.gate_threshold_db
                != self.params.gate_threshold_db,
            adaptive_mode: params.adaptive_compute,
            params,
            effects: self.effects.push(RtEffect::ApplyParams(params)),
            ..asked
        }
    }

    /// The model of a restore, if it has one, takes the place of the active one.
    pub open spec fn restore_model(self, model: Option<LoadModelPayload>) -> RtState {
        match model {
            Some(model) => self.load_model(model),
            None => self,
        }
    }

    /// The cab-sim of a restore, if it speaks of one, takes the place of the active one.
    pub open spec fn restore_ir(self, ir: Option<Option<CabSimHandle>>) -> RtState {
        match ir {
            Some(ir) => self.load_cabsim(ir),
            None => self,
        }
    }

    /// A restore is recorded as applied.
    #[verifier::opaque]
    pub open spec fn generation_applied(self, generation: u64) -> RtState {
        RtState { cells: RtCells { last_applied_generation: generation, ..self.cells }, ..self }
    }

    /// All components of a restore come into force.
    pub open spec fn apply_restore(self, txn: RestoreTxn) -> RtState {
        self.restore_model(txn.model).restore_ir(txn.ir).apply_params(
            txn.params,
        ).generation_applied(txn.generation)
    }

    /// A command comes into force.
    pub open spec fn apply(self, cmd: ClapParamPayload) -> RtState {
        match cmd {
            ClapParamPayload::Params(params) => self.apply_params(params),
            ClapParamPayload::LoadModel {
                generation,
                model_l,
                new_resampler,
                new_stream,
                input_mult_adj,
                output_mult_adj,
            } => self.load_model(
                LoadModelPayload {
                    generation,
                    model_l,
                    new_resampler,
                    new_stream,
                    input_mult_adj,
                    output_mult_adj,
                },
            ),
            ClapParamPayload::LoadCabIr { adapter } => self.load_cabsim(adapter),
            ClapParamPayload::SetOversample { os_l, os_r } => self.load_os(os_l, os_r),
            ClapParamPayload::RestoreTxn(txn) => self.apply_restore(txn),
        }
    }

    /// Commands come into force one after the other.
    pub open spec fn apply_all(self, cmds: Seq<ClapParamPayload>) -> RtState
        decreases cmds.len(),
    {
        if cmds.len() == 0 {
            self
        } else {
            self.apply_all(cmds.drop_last()).apply(cmds.last())
        }
    }
}

impl<T: Copy> NamClapProcessor<T> {
    /// The dry signal is delayed by exactly the latency of the chain, as far as the line
    /// reaches.
    pub open spec fn wf(&self) -> bool {
        &&& self.dry_delay.wf()
        &&& self.chain.cached_effective_latency == effective_latency(self.chain)
        &&& self.dry_delay.delay() == self.dry_delay.cut(self.chain.cached_effective_latency as int)
        &&& self.bypass_xfade.wf()
        &&& self.deferred_structural is Some ==> self.deferred_structural->Some_0.kind() is Some
    }

    /// What applying a command reads and changes.
    pub open spec fn rt(&self, shared: &GuiSharedState) -> RtState {
        RtState {
            chain: self.chain,
            params: self.params,
            adaptive_mode: self.adaptive_mode,
            gate_dirty: self.gate_dirty,
            effects: self.effects@,
            cells: cells_of(*shared),
            active: shared.cold.buffer_size > 0,
        }
    }

    /// `self` differs from `before` only in what applying a command changes, and the dry
    /// signal keeps its history.
    #[verifier::opaque]
    pub open spec fn same_rest(&self, before: &Self) -> bool {
        &&& *self == (NamClapProcessor {
            chain: self.chain,
            params: self.params,
            adaptive_mode: self.adaptive_mode,
            gate_dirty: self.gate_dirty,
            effects: self.effects,
            dry_delay: self.dry_delay,
            ..*before
        })
        &&& self.dry_delay.history_l() == before.dry_delay.history_l()
        &&& self.dry_delay.history_r() == before.dry_delay.history_r()
        &&& self.dry_delay.capacity() == before.dry_delay.capacity()
        &&& self.dry_delay.silence() == before.dry_delay.silence()
    }

    /// Records a resource for disposal.
    fn push_to_gc(&mut self, item: GcItem)
        ensures
            final(self).effects@ == old(self).effects@.push(RtEffect::Retire(item)),
            *final(self) == (NamClapProcessor { effects: final(self).effects, ..*old(self) }),
    {
        self.effects.push(RtEffect::Retire(item));
    }

    /// Brings the cached latency and the delay of the dry signal up to date.
    pub fn recompute_effective_latency(&mut self)
        requires
            old(self).dry_delay.wf(),
            old(self).bypass_xfade.wf(),
            old(self).deferred_structural is Some
                ==> old(self).deferred_structural->Some_0.kind() is Some,
        ensures
            final(self).wf(),
            final(self).same_rest(old(self)),
            final(self).chain == with_latency(old(self).chain),
            final(self).chain.cached_effective_latency == effective_latency(old(self).chain),
            final(self).dry_delay.delay() == final(self).dry_delay.cut(
                effective_latency(old(self).chain) as int,
            ),
            final(self).params == old(self).params,
            final(self).adaptive_mode == old(self).adaptive_mode,
            final(self).gate_dirty == old(self).gate_dirty,
            final(self).effects == old(self).effects,
    {
        proof {
            reveal(NamClapProcessor::same_rest);
        }
        let mut latency: u32 = self.chain.stream.latency_samples.saturating_add(
            self.chain.os_l.latency_samples,
        );
        if let Some(adapter) = self.chain.cabsim_adapter {
            latency = latency.saturating_add(adapter.latency_samples);
        }
        self.chain.cached_effective_latency = latency;
        self.dry_delay.set_delay(latency as usize);
    }
}

/// `after` differs from `before` only in the cells that applying a command writes.
#[verifier::opaque]
pub open spec fn same_shared(before: &GuiSharedState, after: &GuiSharedState) -> bool {
    *after == with_cells(*before, cells_of(*after))
}

pub proof fn lemma_same_shared_trans(a: &GuiSharedState, b: &GuiSharedState, c: &GuiSharedState)
    requires
        same_shared(a, b),
        same_shared(b, c),
    ensures
        same_shared(a, c),
{
    reveal(same_shared);
}

impl<T: Copy> NamClapProcessor<T> {
    pub proof fn lemma_same_rest_trans(a: &Self, b: &Self, c: &Self)
        requires
            b.same_rest(a),
            c.same_rest(b),
        ensures
            c.same_rest(a),
    {
        reveal(NamClapProcessor::same_rest);
    }

    pub proof fn lemma_same_refl(a: &Self, shared: &GuiSharedState)
        ensures
            a.same_rest(a),
            same_shared(shared, shared),
    {
        reveal(NamClapProcessor::same_rest);
        reveal(same_shared);
    }

    /// Installs a model with its resampler and stream.
    fn cold_load_model(&mut self, shared: &mut GuiSharedState, p: LoadModelPayload)
        requires
            old(self).wf(),
        ensures
            final(self).wf(),
            final(self).same_rest(old(self)),
            same_shared(old(shared), final(shared)),
            final(self).rt(final(shared)) == old(self).rt(old(shared)).load_model(p),
    {
        proof {
            reveal(NamClapProcessor::same_rest);
            reveal(same_shared);
            reveal(RtState::load_model);
        }
        self.chain.model_generation = p.generation;
        if let Some(old_l) = self.chain.model_l {
            self.push_to_gc(GcItem::Model(old_l));
        }
        self.chain.model_l = p.model_l;
        if let Some(model) = p.model_l {
            self.effects.push(RtEffect::InjectRtStatus(model));
        }
        let old_resampler = self.chain.resampler;
        self.chain.resampler = p.new_resampler;
        self.push_to_gc(GcItem::Resampler(old_resampler));
        let old_stream = self.chain.stream;
        self.chain.stream = p.new_stream;
        self.push_to_gc(GcItem::Streaming(old_stream));
        shared.cold.current_stream_latency = self.chain.stream.latency_samples;
        self.chain.model_input_mult_adj = p.input_mult_adj;
        self.chain.model_output_mult_adj = p.output_mult_adj;
        if let Some(model) = p.model_l {
            if let Some(shape) = model.wavenet {
                self.effects.push(RtEffect::SetWaveNetChannels(shape));
            }
        }
        self.recompute_effective_latency();
        assert(self.effects@ =~= old(self).rt(old(shared)).load_model(p).effects);
    }

    /// Installs a cab-sim, or removes it.
    fn cold_load_cabsim(&mut self, shared: &mut GuiSharedState, adapter: Option<CabSimHandle>)
        requires
            old(self).wf(),
        ensures
            final(self).wf(),
            final(self).same_rest(old(self)),
            same_shared(old(shared), final(shared)),
            final(self).rt(final(shared)) == old(self).rt(old(shared)).load_cabsim(adapter),
    {
        proof {
            reveal(NamClapProcessor::same_rest);
            reveal(same_shared);
            reveal(RtState::load_cabsim);
        }
        if let Some(old_adapter) = self.chain.cabsim_adapter {
            self.push_to_gc(GcItem::CabConvAdapter(old_adapter));
        }
        self.chain.cabsim_adapter = adapter;
        match adapter {
            Some(a) => {
                shared.cold.current_cabsim_latency = a.latency_samples;
                shared.rt_to_ui.cabsim_tail_samples =
                a.num_partitions.wrapping_mul(a.latency_samples);
                self.chain.cabsim_tail_remaining = a.tail_samples;
            },
            None => {
                shared.cold.current_cabsim_latency = 0;
                shared.rt_to_ui.cabsim_tail_samples = 0;
                self.chain.cabsim_tail_remaining = 0;
            },
        }
        self.recompute_effective_latency();
        self.effects.push(RtEffect::TailChanged);
        assert(self.effects@ =~= old(self).rt(old(shared)).load_cabsim(adapter).effects);
    }

    /// Installs oversampling engines.
    fn cold_load_os(
        &mut self,
        shared: &mut GuiSharedState,
        os_l: OversampleHandle,
        os_r: OversampleHandle,
    )
        requires
            old(self).wf(),
        ensures
            final(self).wf(),
            final(self).same_rest(old(self)),
            same_shared(old(shared), final(shared)),
            final(self).rt(final(shared)) == old(self).rt(old(shared)).load_os(os_l, os_r),
    {
        proof {
            reveal(NamClapProcessor::same_rest);
            reveal(same_shared);
            reveal(RtState::load_os);
        }
        self.chain.applied_os_factor = os_l.factor;
        let old_l = self.chain.os_l;
        self.chain.os_l = os_l;
        let old_r = self.chain.os_r;
        self.chain.os_r = os_r;
        self.push_to_gc(GcItem::Oversample(old_l));
        self.push_to_gc(GcItem::Oversample(old_r));
        self.recompute_effective_latency();
        assert(self.effects@ =~= old(self).rt(old(shared)).load_os(os_l, os_r).effects);
    }

    /// Asks for another oversampling factor.
    pub fn request_oversample(&mut self, shared: &mut GuiSharedState, factor: OversampleFactor)
        requires
            old(self).wf(),
        ensures
            final(self).wf(),
            final(self).same_rest(old(self)),
            *final(self) == (NamClapProcessor { params: final(self).params, ..*old(self) }),
            same_shared(old(shared), final(shared)),
            final(self).rt(final(shared)) == old(self).rt(old(shared)).request_oversample(factor),
    {
        proof {
            reveal(NamClapProcessor::same_rest);
            reveal(same_shared);
            reveal(RtState::request_oversample);
        }
        if factor != self.params.oversample {
            self.params.oversample = factor;
            if shared.cold.buffer_size > 0 {
                PendingRestartOs::Pending(factor).store(&mut shared.cold.pending_restart_os_factor);
            } else {
                shared.cold.rt_status.requested_os_factor = factor.code();
                shared.cold.rt_status.set_flag(RT_STATUS_NEEDS_OS_REBUILD);
            }
        }
    }

    /// Takes over a parameter snapshot.
    pub fn apply_params_from_spsc(&mut self, shared: &mut GuiSharedState, params: RtProcessingParams)
        requires
            old(self).wf(),
        ensures
            final(self).wf(),
            final(self).same_rest(old(self)),
            same_shared(old(shared), final(shared)),
            final(self).rt(final(shared)) == old(self).rt(old(shared)).apply_params(params),
    {
        proof {
            reveal(NamClapProcessor::same_rest);
            reveal(same_shared);
            reveal(RtState::apply_params);
            reveal(RtState::request_oversample);
        }
        if params.gate_threshold_db != self.params.gate_threshold_db {
            self.gate_dirty = true;
        }
        self.request_oversample(shared, params.oversample);
        self.params = params;
        self.adaptive_mode = params.adaptive_compute;
        self.effects.push(RtEffect::ApplyParams(params));
    }

    /// Installs the model of a restore, if it has one.
    fn load_restored_model(&mut self, shared: &mut GuiSharedState, model: Option<LoadModelPayload>)
        requires
            old(self).wf(),
        ensures
            final(self).wf(),
            final(self).same_rest(old(self)),
            same_shared(old(shared), final(shared)),
            final(self).rt(final(shared)) == old(self).rt(old(shared)).restore_model(model),
    {
        match model {
            Some(model) => self.cold_load_model(shared, model),
            None => {
                proof {
                    Self::lemma_same_refl(self, shared);
                }
            },
        }
    }

    /// Installs or removes the cab-sim as a restore says, if it says so.
    fn load_restored_ir(&mut self, shared: &mut GuiSharedState, ir: Option<Option<CabSimHandle>>)
        requires
            old(self).wf(),
        ensures
            final(self).wf(),
            final(self).same_rest(old(self)),
            same_shared(old(shared), final(shared)),
            final(self).rt(final(shared)) == old(self).rt(old(shared)).restore_ir(ir),
    {
        match ir {
            Some(ir) => self.cold_load_cabsim(shared, ir),
            None => {
                proof {
                    Self::lemma_same_refl(self, shared);
                }
            },
        }
    }

    /// Records the generation of a restore that has been applied.
    fn record_generation(&mut self, shared: &mut GuiSharedState, generation: u64)
        requires
            old(self).wf(),
        ensures
            *final(self) == *old(self),
            same_shared(old(shared), final(shared)),
            final(self).rt(final(shared)) == old(self).rt(old(shared)).generation_applied(generation),
    {
        proof {
            reveal(same_shared);
            reveal(RtState::generation_applied);
        }
        shared.cold.last_applied_generation = generation;
    }

    /// Applies all components of a restore, and then records its generation.
    fn cold_apply_restore_txn(&mut self, shared: &mut GuiSharedState, txn: RestoreTxn)
        requires
            old(self).wf(),
        ensures
            final(self).wf(),
            final(self).same_rest(old(self)),
            same_shared(old(shared), final(shared)),
            final(self).rt(final(shared)) == old(self).rt(old(shared)).apply_restore(txn),
    {
        self.load_restored_model(shared, txn.model);
        let ghost p1 = *self;
        let ghost s1 = *shared;
        self.load_restored_ir(shared, txn.ir);
        let ghost p2 = *self;
        let ghost s2 = *shared;
        self.apply_params_from_spsc(shared, txn.params);
        let ghost p3 = *self;
        let ghost s3 = *shared;
        self.record_generation(shared, txn.generation);
        proof {
            Self::lemma_same_rest_trans(old(self), &p1, &p2);
            Self::lemma_same_rest_trans(old(self), &p2, &p3);
            lemma_same_shared_trans(old(shared), &s1, &s2);
            lemma_same_shared_trans(old(shared), &s2, &s3);
            lemma_same_shared_trans(old(shared), &s3, shared);
        }
    }

    /// Applies a command.
    pub fn apply_structural(&mut self, shared: &mut GuiSharedState, cmd: ClapParamPayload)
        requires
            old(self).wf(),
        ensures
            final(self).wf(),
            final(self).same_rest(old(self)),
            same_shared(old(shared), final(shared)),
            final(self).rt(final(shared)) == old(self).rt(old(shared)).apply(cmd),
    {
        match cmd {
            ClapParamPayload::Params(params) => self.apply_params_from_spsc(shared, params),
            ClapParamPayload::LoadModel {
                generation,
                model_l,
                new_resampler,
                new_stream,
                input_mult_adj,
                output_mult_adj,
            } => self.cold_load_model(
                shared,
                LoadModelPayload {
                    generation,
                    model_l,
                    new_resampler,
                    new_stream,
                    input_mult_adj,
                    output_mult_adj,
                },
            ),
            ClapParamPayload::LoadCabIr { adapter } => self.cold_load_cabsim(shared, adapter),
            ClapParamPayload::SetOversample { os_l, os_r } => self.cold_load_os(
                shared,
                os_l,
                os_r,
            ),
            ClapParamPayload::RestoreTxn(txn) => self.cold_apply_restore_txn(shared, txn),
        }
    }

    /// Hands the resources of a command that will never be applied over for disposal.
    pub fn discard_structural_payload(&mut self, cmd: ClapParamPayload)
        requires
            cmd.kind() is Some ==> cmd.kind()->Some_0.coalescible(),
        ensures
            *final(self) == (NamClapProcessor { effects: final(self).effects, ..*old(self) }),
            final(self).effects@ == old(self).effects@ + retire_all(cmd.resources()),
    {
        match cmd {
            ClapParamPayload::LoadModel { model_l, new_resampler, new_stream, .. } => {
                if let Some(old_l) = model_l {
                    self.push_to_gc(GcItem::Model(old_l));
                }
                self.push_to_gc(GcItem::Resampler(new_resampler));
                self.push_to_gc(GcItem::Streaming(new_stream));
            },
            ClapParamPayload::LoadCabIr { adapter } => {
                if let Some(old) = adapter {
                    self.push_to_gc(GcItem::CabConvAdapter(old));
                }
            },
            ClapParamPayload::SetOversample { os_l, os_r } => {
                self.push_to_gc(GcItem::Oversample(os_l));
                self.push_to_gc(GcItem::Oversample(os_r));
            },
            _ => {},
        }
        assert(self.effects@ =~= old(self).effects@ + retire_all(cmd.resources()));
    }
}

/// The effects of retiring resources.
pub open spec fn retire_all(items: Seq<GcItem>) -> Seq<RtEffect> {
    items.map_values(|item: GcItem| RtEffect::Retire(item))
}

} // verus!
