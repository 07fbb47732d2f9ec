//! What an activation starts with, what it publishes, and what a deactivation leaves for the next.

use vstd::prelude::*;
use crate::activation::{
    activation_plan, missing, resolve_factor, ActivateRollbackGuard, ActivationPlan, AudioConfig,
    BuiltResources, Parts, Staged, GC_TX_MISSING, PARAM_RX_MISSING, SLIMMABLE_RX_MISSING,
};
use crate::command_scheduler::CommandScheduler;
use crate::errors::activation::{
    CABSIM_UNAVAILABLE_FRESH, CABSIM_UNAVAILABLE_STAGED, OVERSAMPLER_UNAVAILABLE_FRESH,
    OVERSAMPLER_UNAVAILABLE_STAGED, RESAMPLER_UNAVAILABLE_FRESH, RESAMPLER_UNAVAILABLE_STAGED,
    STREAM_UNAVAILABLE_FRESH, STREAM_UNAVAILABLE_STAGED,
};
use crate::params::{
    ActivationPrecision, AdaptiveComputeMode, OversampleFactor, RtProcessingParams, SlimOverride,
};
use crate::payload::{GcItem, LoadModelPayload};
use crate::processor::{DspChain, NamClapProcessor, RtEffect};
use crate::ring::{command_read_end, command_write_end};
use crate::shared::{
    ColdShared, DeactivatedDspState, GuiSharedState, PendingRestartOs, RtToUi, UiToRt,
};

verus! {

/// Without a restore a processor starts with the levels that the GUI shows, each in its place, and
/// with the factor of its engines; everything else is as in a new instance. A restore that has
/// waited brings all of its values, and they go to the engine.
pub proof fn law_activation_starts_with_the_users_settings<T: Copy>(
    shared: &GuiSharedState,
    guard: ActivateRollbackGuard,
    plan: ActivationPlan,
    built: BuiltResources,
    staged: Staged,
    config: AudioConfig,
    silence: T,
    after: &GuiSharedState,
    p: NamClapProcessor<T>,
)
    requires
        NamClapProcessor::activated(
            shared,
            guard,
            plan,
            built,
            staged,
            config,
            silence,
            after,
            Ok::<NamClapProcessor<T>, &'static str>(p),
        ),
    ensures
        p.params.oversample == plan.os_factor,
        staged.restore is None ==> {
            &&& p.params.input_gain_db == shared.ui_to_rt.param_input_gain
            &&& p.params.output_gain_db == shared.ui_to_rt.param_output_gain
            &&& p.params.gate_threshold_db == 0xc2b4_0000
            &&& !p.params.bypass
            &&& p.params.adaptive_compute == AdaptiveComputeMode::Conservative
            &&& p.params.slim_override == SlimOverride::Auto
            &&& p.params.activation_precision == ActivationPrecision::Standard
            &&& p.adaptive_mode == AdaptiveComputeMode::Conservative
            &&& p.effects@.len() == 0
        },
        staged.restore is Some ==> {
            let wanted = staged.restore->Some_0.1;
            &&& p.params.input_gain_db == wanted.input_gain_db
            &&& p.params.output_gain_db == wanted.output_gain_db
            &&& p.params.gate_threshold_db == wanted.gate_threshold_db
            &&& p.params.bypass == wanted.bypass
            &&& p.params.adaptive_compute == wanted.adaptive_compute
            &&& p.params.slim_override == wanted.slim_override
            &&& p.params.activation_precision == wanted.activation_precision
            &&& p.adaptive_mode == wanted.adaptive_compute
            &&& p.effects@ == seq![RtEffect::ApplyParams(p.params)]
        },
{
}

/// A processor starts at rest and with no past: no crossfade, no event, no modulation, a silent
/// delay line, nothing deferred, and changes of the GUI still to be taken over.
pub proof fn law_activation_starts_at_rest<T: Copy>(
    shared: &GuiSharedState,
    guard: ActivateRollbackGuard,
    plan: ActivationPlan,
    built: BuiltResources,
    staged: Staged,
    config: AudioConfig,
    silence: T,
    after: &GuiSharedState,
    p: NamClapProcessor<T>,
)
    requires
        NamClapProcessor::activated(
            shared,
            guard,
            plan,
            built,
            staged,
            config,
            silence,
            after,
            Ok::<NamClapProcessor<T>, &'static str>(p),
        ),
    ensures
        p.wf(),
        !p.bypass_xfade.active,
        p.bypass_xfade.target == p.params.bypass,
        p.bypass_xfade.mix == (if p.params.bypass {
            0i32
        } else {
            64i32
        }),
        p.scheduled_events@.len() == 0,
        p.deferred_structural is None,
        p.process_mono,
        p.cycles_since_telemetry == 0,
        !p.prio_checked,
        p.cmd_consumer.end() == command_read_end(guard.param_rx->Some_0),
        p.dry_delay.capacity() == plan.dry_capacity,
        p.dry_delay.silence() == silence,
        p.dry_delay.history_l().len() == 0,
        p.dry_delay.history_r().len() == 0,
        p.mod_input_gain == 0,
        p.mod_output_gain == 0,
        p.mod_gate_thresh == 0,
        p.gate_dirty,
        p.last_seen_generation == 0,
        p.last_render_mode == 0,
        p.realtime_activation == p.params.activation_precision,
        p.max_frames_count == config.max_frames_count,
        p.cmd_consumer.processed() == shared.cold.cmd_last_ack,
        guard.slimmable_rx == Some(p.slimmable_rx),
        guard.gc_tx == Some(p.gc_tx),
{
}

/// Each part of the chain comes from where it belongs: what was staged comes first, then what is
/// taken over, then what was built. The calibration comes with the model.
pub proof fn law_activation_installs_each_resource<T: Copy>(
    shared: &GuiSharedState,
    guard: ActivateRollbackGuard,
    plan: ActivationPlan,
    built: BuiltResources,
    staged: Staged,
    config: AudioConfig,
    silence: T,
    after: &GuiSharedState,
    p: NamClapProcessor<T>,
)
    requires
        NamClapProcessor::activated(
            shared,
            guard,
            plan,
            built,
            staged,
            config,
            silence,
            after,
            Ok::<NamClapProcessor<T>, &'static str>(p),
        ),
    ensures
        ({
            let kept = guard.deactivated;
            &&& staged.model is Some ==> {
                let swap = staged.model->Some_0;
                &&& p.chain.model_l == swap.model_l
                &&& p.chain.model_generation == swap.generation
                &&& p.chain.resampler == swap.new_resampler
                &&& p.chain.stream == swap.new_stream
                &&& p.chain.model_input_mult_adj == swap.input_mult_adj
                &&& p.chain.model_output_mult_adj == swap.output_mult_adj
            }
            &&& staged.model is None && kept is Some ==> {
                &&& p.chain.model_l == kept->Some_0.model_l
                &&& p.chain.model_generation == kept->Some_0.model_generation
                &&& p.chain.model_input_mult_adj == kept->Some_0.model_input_mult_adj
                &&& p.chain.model_output_mult_adj == kept->Some_0.model_output_mult_adj
            }
            &&& staged.model is None && kept is None ==> {
                &&& p.chain.model_l is None
                &&& p.chain.model_generation == 0
                &&& p.chain.model_input_mult_adj == 0x3f80_0000
                &&& p.chain.model_output_mult_adj == 0x3f80_0000
            }
            &&& staged.model is None ==> p.chain.resampler == (if plan.reuse_resampler {
                kept->Some_0.resampler
            } else {
                built.resampler->Some_0
            })
            &&& staged.model is None ==> p.chain.stream == (if plan.reuse_stream {
                kept->Some_0.stream
            } else {
                built.stream->Some_0
            })
            &&& staged.ir is Some ==> p.chain.cabsim_adapter == staged.ir->Some_0
            &&& staged.ir is None && plan.reuse_cabsim ==> p.chain.cabsim_adapter
                == kept->Some_0.cabsim_adapter
            &&& staged.ir is None && !plan.reuse_cabsim ==> p.chain.cabsim_adapter == built.cabsim
            &&& plan.reuse_os ==> p.chain.os_l == kept->Some_0.os_l && p.chain.os_r
                == kept->Some_0.os_r
            &&& !plan.reuse_os ==> p.chain.os_l == built.os->Some_0.0 && p.chain.os_r
                == built.os->Some_0.1
            &&& p.chain.applied_os_factor == plan.os_factor
            &&& p.chain.cabsim_adapter is Some ==> p.chain.cabsim_tail_remaining
                == p.chain.cabsim_adapter->Some_0.tail_samples
            &&& p.chain.cabsim_adapter is None ==> p.chain.cabsim_tail_remaining == 0
        }),
{
    reveal(crate::activation::assembled);
}

/// An activation publishes the rate and the block size of the host and the latencies and the tail of
/// what it has installed, each in its own cell. A restore that has waited is shown, value by value,
/// and recorded as applied. Nothing else changes.
pub proof fn law_activation_publishes_what_it_has_installed<T: Copy>(
    shared: &GuiSharedState,
    guard: ActivateRollbackGuard,
    plan: ActivationPlan,
    built: BuiltResources,
    staged: Staged,
    config: AudioConfig,
    silence: T,
    after: &GuiSharedState,
    p: NamClapProcessor<T>,
)
    requires
        NamClapProcessor::activated(
            shared,
            guard,
            plan,
            built,
            staged,
            config,
            silence,
            after,
            Ok::<NamClapProcessor<T>, &'static str>(p),
        ),
    ensures
        after.cold.sample_rate == config.sample_rate,
        after.cold.buffer_size == config.max_frames_count,
        after.cold.current_stream_latency == p.chain.stream.latency_samples,
        p.chain.cabsim_adapter is Some ==> {
            let a = p.chain.cabsim_adapter->Some_0;
            &&& after.cold.current_cabsim_latency == a.latency_samples
            &&& after.rt_to_ui.cabsim_tail_samples == ((a.num_partitions * a.latency_samples)
                % 0x1_0000_0000) as u32
            &&& p.chain.stream.latency_samples + p.chain.os_l.latency_samples + a.latency_samples
                <= u32::MAX ==> after.rt_to_ui.current_latency == p.chain.stream.latency_samples
                + p.chain.os_l.latency_samples + a.latency_samples
        },
        p.chain.cabsim_adapter is None ==> {
            &&& after.cold.current_cabsim_latency == 0
            &&& after.rt_to_ui.cabsim_tail_samples == 0
            &&& p.chain.stream.latency_samples + p.chain.os_l.latency_samples <= u32::MAX
                ==> after.rt_to_ui.current_latency == p.chain.stream.latency_samples
                + p.chain.os_l.latency_samples
        },
        after.rt_to_ui == (RtToUi {
            current_latency: after.rt_to_ui.current_latency,
            cabsim_tail_samples: after.rt_to_ui.cabsim_tail_samples,
            ..shared.rt_to_ui
        }),
        after.cold == (ColdShared {
            sample_rate: after.cold.sample_rate,
            buffer_size: after.cold.buffer_size,
            current_stream_latency: after.cold.current_stream_latency,
            current_cabsim_latency: after.cold.current_cabsim_latency,
            last_applied_generation: after.cold.last_applied_generation,
            ..shared.cold
        }),
        staged.restore is None ==> after.ui_to_rt == shared.ui_to_rt
            && after.cold.last_applied_generation == shared.cold.last_applied_generation,
        staged.restore is Some ==> {
            let (generation, wanted) = staged.restore->Some_0;
            &&& after.cold.last_applied_generation == generation
            &&& after.ui_to_rt.param_input_gain == wanted.input_gain_db
            &&& after.ui_to_rt.param_output_gain == wanted.output_gain_db
            &&& after.ui_to_rt.param_gate_thresh == wanted.gate_threshold_db
            &&& after.ui_to_rt.param_bypass == (if wanted.bypass {
                1u32
            } else {
                0u32
            })
            &&& crate::callback::gui_params(after.ui_to_rt) == wanted
            &&& shows(after.ui_to_rt, wanted)
            &&& after.ui_to_rt.gesture_flags == shared.ui_to_rt.gesture_flags
            &&& after.ui_to_rt.gui_param_generation == shared.ui_to_rt.gui_param_generation
            &&& after.ui_to_rt.host_r_deactivated == shared.ui_to_rt.host_r_deactivated
        },
{
    reveal(crate::activation::assembled);
}

/// Every cell of the GUI shows the value that stands for it: gains and threshold as they are, the
/// switch as 0 or 1, the choices by their numbers.
pub open spec fn shows(ui: UiToRt, params: RtProcessingParams) -> bool {
    &&& ui.param_input_gain == params.input_gain_db
    &&& ui.param_output_gain == params.output_gain_db
    &&& ui.param_gate_thresh == params.gate_threshold_db
    &&& ui.param_bypass == (if params.bypass {
        1u32
    } else {
        0u32
    })
    &&& ui.param_adaptive_compute == (match params.adaptive_compute {
        AdaptiveComputeMode::Off => 0u32,
        AdaptiveComputeMode::Conservative => 1u32,
        AdaptiveComputeMode::Aggressive => 2u32,
    })
    &&& ui.param_slim_override == (match params.slim_override {
        SlimOverride::Auto => 0u32,
        SlimOverride::ForceFull => 1u32,
        SlimOverride::ForceLite => 2u32,
    })
    &&& ui.param_oversample == (match params.oversample {
        OversampleFactor::Off => 0u32,
        OversampleFactor::X2 => 1u32,
        OversampleFactor::X4 => 2u32,
    })
    &&& ui.param_activation == (match params.activation_precision {
        ActivationPrecision::Fast => 0u32,
        ActivationPrecision::Standard => 1u32,
    })
}

/// Two sets of parameters that are shown alike are the same: what is shown tells everything.
pub proof fn law_shown_parameters_tell_everything(
    ui: UiToRt,
    params: RtProcessingParams,
    other: RtProcessingParams,
)
    requires
        shows(ui, params),
        shows(ui, other),
    ensures
        params == other,
        crate::callback::gui_params(ui) == params,
{
}

/// An activation that fails gives back what it has taken, each to its place; what it has not taken
/// stays where it is.
pub proof fn law_failed_activation_gives_back<T: Copy>(
    shared: &GuiSharedState,
    guard: ActivateRollbackGuard,
    plan: ActivationPlan,
    built: BuiltResources,
    staged: Staged,
    config: AudioConfig,
    silence: T,
    after: &GuiSharedState,
    e: &'static str,
)
    requires
        NamClapProcessor::activated(
            shared,
            guard,
            plan,
            built,
            staged,
            config,
            silence,
            after,
            Err::<NamClapProcessor<T>, &'static str>(e),
        ),
    ensures
        guard.param_rx is Some ==> after.cold.param_rx == guard.param_rx,
        guard.param_rx is None ==> after.cold.param_rx == shared.cold.param_rx,
        guard.gc_tx is Some ==> after.cold.gc_tx == guard.gc_tx,
        guard.gc_tx is None ==> after.cold.gc_tx == shared.cold.gc_tx,
        guard.slimmable_rx is Some ==> after.cold.slimmable_rx == guard.slimmable_rx,
        guard.slimmable_rx is None ==> after.cold.slimmable_rx == shared.cold.slimmable_rx,
        guard.deactivated is Some ==> after.cold.deactivated_dsp == guard.deactivated,
        guard.deactivated is None ==> after.cold.deactivated_dsp == shared.cold.deactivated_dsp,
        guard.pending_restart_os_factor is None ==> after.cold.pending_restart_os_factor
            == shared.cold.pending_restart_os_factor,
        guard.pending_restart_os_factor is Some ==> PendingRestartOs::decoded(
            after.cold.pending_restart_os_factor,
        ) == guard.pending_restart_os_factor->Some_0,
        after.rt_to_ui == shared.rt_to_ui,
        after.ui_to_rt == shared.ui_to_rt,
        after.cold == (ColdShared {
            param_rx: after.cold.param_rx,
            gc_tx: after.cold.gc_tx,
            slimmable_rx: after.cold.slimmable_rx,
            deactivated_dsp: after.cold.deactivated_dsp,
            pending_restart_os_factor: after.cold.pending_restart_os_factor,
            ..shared.cold
        }),
        guard.param_rx is None || guard.gc_tx is None || guard.slimmable_rx is None,
        guard.param_rx is None ==> e@ == PARAM_RX_MISSING@,
        guard.param_rx is Some && guard.gc_tx is None ==> e@ == GC_TX_MISSING@,
        guard.param_rx is Some && guard.gc_tx is Some ==> e@ == SLIMMABLE_RX_MISSING@,
{
}

/// An activation fails exactly where an end of a ring is missing.
pub proof fn law_activation_succeeds_with_all_ends<T: Copy>(
    shared: &GuiSharedState,
    guard: ActivateRollbackGuard,
    plan: ActivationPlan,
    built: BuiltResources,
    staged: Staged,
    config: AudioConfig,
    silence: T,
    after: &GuiSharedState,
    processor: Result<NamClapProcessor<T>, &'static str>,
)
    requires
        NamClapProcessor::activated(
            shared,
            guard,
            plan,
            built,
            staged,
            config,
            silence,
            after,
            processor,
        ),
    ensures
        processor is Ok <==> guard.param_rx is Some && guard.gc_tx is Some && guard.slimmable_rx
            is Some,
{
}

/// What can be taken over: the resampler at the same rate, the stream and the cab-sim with the same
/// block size as well, the engines at the same factor. The buffers hold the longest block, and the
/// delay line the longest latency beside it.
pub proof fn law_plan_takes_over_what_fits(
    kept: Option<DeactivatedDspState>,
    pending: Option<PendingRestartOs>,
    model_sample_rate: u32,
    ui: UiToRt,
    config: AudioConfig,
    max_resamp_buf: usize,
)
    requires
        max_resamp_buf * 4 <= usize::MAX,
        config.max_frames_count * 2 + 2 * 3200 + 2 <= usize::MAX,
    ensures
        ({
            let plan = activation_plan(
                kept,
                pending,
                model_sample_rate,
                ui,
                config,
                max_resamp_buf,
            );
            let rate = kept is Some && kept->Some_0.sample_rate == config.sample_rate;
            let block = kept is Some && kept->Some_0.buffer_size == config.max_frames_count;
            &&& plan.reuse_resampler <==> rate
            &&& plan.reuse_stream <==> rate && block
            &&& plan.reuse_cabsim <==> rate && block && kept->Some_0.cabsim_adapter is Some
            &&& plan.reuse_os <==> kept is Some && kept->Some_0.os_factor == plan.os_factor
            &&& plan.model_rate == (if model_sample_rate == 0 {
                48000u32
            } else {
                model_sample_rate
            })
            &&& plan.buf_capacity >= 2 * config.max_frames_count
            &&& plan.buf_capacity >= 2 * max_resamp_buf
            &&& plan.buf_capacity >= 2048
            &&& plan.buf_capacity == 2 * config.max_frames_count || plan.buf_capacity == 2
                * max_resamp_buf || plan.buf_capacity == 2048
            &&& plan.os_capacity == max_resamp_buf * 4
            &&& plan.xfade_capacity == config.max_frames_count
            &&& plan.dry_capacity == config.max_frames_count + 3200
            &&& plan.os_factor == resolve_factor(pending, ui)
        }),
{
}

/// A request that waits for the restart decides on the factor; without one it is the factor that the
/// GUI shows.
pub proof fn law_pending_request_decides_on_the_factor(ui: UiToRt, wanted: OversampleFactor)
    ensures
        resolve_factor(Some(PendingRestartOs::Pending(wanted)), ui) == wanted,
        resolve_factor(Some(PendingRestartOs::NotPending), ui) == crate::callback::gui_params(
            ui,
        ).oversample,
        resolve_factor(None, ui) == crate::callback::gui_params(ui).oversample,
{
}

/// An activation goes on exactly where each resource that it does not take over has been built, the
/// engines at the factor of the plan, and the cab-sim where there is a response for it. Otherwise
/// the host hears what is missing first, in words that tell whether a restore was under way.
pub proof fn law_activation_names_what_is_missing(
    plan: ActivationPlan,
    kept: DeactivatedDspState,
    built: BuiltResources,
    expected: bool,
    restoring: bool,
)
    ensures
        ({
            let gone = missing(plan, Some(kept), built, expected, restoring);
            let resampler = plan.reuse_resampler || built.resampler is Some;
            let stream = plan.reuse_stream || built.stream is Some;
            let cabsim = plan.reuse_cabsim || !expected || built.cabsim is Some;
            let engines = if plan.reuse_os {
                kept.os_l.factor == plan.os_factor
            } else {
                built.os is Some && built.os->Some_0.0.factor == plan.os_factor
            };
            &&& gone is None <==> resampler && stream && cabsim && engines
            &&& gone is None ==> plan.covered(Some(kept), built)
            &&& !resampler ==> gone == Some(
                if restoring {
                    RESAMPLER_UNAVAILABLE_STAGED@
                } else {
                    RESAMPLER_UNAVAILABLE_FRESH@
                },
            )
            &&& resampler && !stream ==> gone == Some(
                if restoring {
                    STREAM_UNAVAILABLE_STAGED@
                } else {
                    STREAM_UNAVAILABLE_FRESH@
                },
            )
            &&& resampler && stream && !cabsim ==> gone == Some(
                if restoring {
                    CABSIM_UNAVAILABLE_STAGED@
                } else {
                    CABSIM_UNAVAILABLE_FRESH@
                },
            )
            &&& resampler && stream && cabsim && !engines ==> gone == Some(
                if restoring {
                    OVERSAMPLER_UNAVAILABLE_STAGED@
                } else {
                    OVERSAMPLER_UNAVAILABLE_FRESH@
                },
            )
        }),
        missing(plan, None, built, expected, restoring) is None ==> {
            &&& built.resampler is Some
            &&& built.stream is Some
            &&& built.os is Some && built.os->Some_0.0.factor == plan.os_factor
            &&& expected ==> built.cabsim is Some
            &&& !plan.reuse_resampler && !plan.reuse_stream && !plan.reuse_cabsim && !plan.reuse_os
        },
{
}

/// A deactivation keeps every resource of the chain, its calibration and what it was built for, and
/// gives the ends of the rings back. A command that was still deferred is acknowledged, and its
/// resources are left over.
pub proof fn law_deactivation_keeps_everything<T: Copy>(
    p: NamClapProcessor<T>,
    shared: &GuiSharedState,
    after: &GuiSharedState,
    dropped: Vec<GcItem>,
)
    requires
        p.deactivated(shared, after, dropped),
    ensures
        after.cold.deactivated_dsp is Some,
        ({
            let kept = after.cold.deactivated_dsp->Some_0;
            &&& kept.model_l == p.chain.model_l
            &&& kept.model_generation == p.chain.model_generation
            &&& kept.cabsim_adapter == p.chain.cabsim_adapter
            &&& kept.resampler == p.chain.resampler
            &&& kept.stream == p.chain.stream
            &&& kept.os_l == p.chain.os_l
            &&& kept.os_r == p.chain.os_r
            &&& kept.os_factor == p.chain.applied_os_factor
            &&& kept.sample_rate == shared.cold.sample_rate
            &&& kept.buffer_size == shared.cold.buffer_size
            &&& kept.model_input_mult_adj == p.chain.model_input_mult_adj
            &&& kept.model_output_mult_adj == p.chain.model_output_mult_adj
        }),
        after.cold.param_rx is Some,
        command_read_end(after.cold.param_rx->Some_0) == p.cmd_consumer.end(),
        after.cold.gc_tx == Some(p.gc_tx),
        after.cold.slimmable_rx == Some(p.slimmable_rx),
        p.deferred_structural is None ==> dropped@.len() == 0 && after.cold.cmd_last_ack
            == p.cmd_consumer.processed(),
        p.deferred_structural is Some ==> dropped@ == p.deferred_structural->Some_0.resources(),
        p.deferred_structural is Some && p.cmd_consumer.processed() < u64::MAX
            ==> after.cold.cmd_last_ack == p.cmd_consumer.processed() + 1,
        after.rt_to_ui == shared.rt_to_ui,
        after.ui_to_rt == shared.ui_to_rt,
        after.cold == (ColdShared {
            param_rx: after.cold.param_rx,
            gc_tx: after.cold.gc_tx,
            slimmable_rx: after.cold.slimmable_rx,
            deactivated_dsp: after.cold.deactivated_dsp,
            cmd_last_ack: after.cold.cmd_last_ack,
            ..shared.cold
        }),
{
}

/// The lists of resources name each one that is there, in its place.
pub proof fn law_parts_name_every_resource(
    chain: DspChain,
    kept: DeactivatedDspState,
    built: BuiltResources,
    staged: Staged,
    swap: LoadModelPayload,
)
    requires
        staged.model == Some(swap),
    ensures
        ({
            let parts = Parts::of_chain(chain);
            &&& chain.model_l is Some ==> parts.model == Some(GcItem::Model(chain.model_l->Some_0))
            &&& chain.model_l is None ==> parts.model is None
            &&& parts.resampler == Some(GcItem::Resampler(chain.resampler))
            &&& parts.stream == Some(GcItem::Streaming(chain.stream))
            &&& chain.cabsim_adapter is Some ==> parts.cabsim == Some(
                GcItem::CabConvAdapter(chain.cabsim_adapter->Some_0),
            )
            &&& chain.cabsim_adapter is None ==> parts.cabsim is None
            &&& parts.os_l == Some(GcItem::Oversample(chain.os_l))
            &&& parts.os_r == Some(GcItem::Oversample(chain.os_r))
        }),
        ({
            let parts = Parts::of_kept(Some(kept));
            &&& kept.model_l is Some ==> parts.model == Some(GcItem::Model(kept.model_l->Some_0))
            &&& kept.model_l is None ==> parts.model is None
            &&& parts.resampler == Some(GcItem::Resampler(kept.resampler))
            &&& parts.stream == Some(GcItem::Streaming(kept.stream))
            &&& kept.cabsim_adapter is Some ==> parts.cabsim == Some(
                GcItem::CabConvAdapter(kept.cabsim_adapter->Some_0),
            )
            &&& kept.cabsim_adapter is None ==> parts.cabsim is None
            &&& parts.os_l == Some(GcItem::Oversample(kept.os_l))
            &&& parts.os_r == Some(GcItem::Oversample(kept.os_r))
        }),
        ({
            let parts = Parts::of_built(built);
            &&& parts.model is None
            &&& built.resampler is Some ==> parts.resampler == Some(
                GcItem::Resampler(built.resampler->Some_0),
            )
            &&& built.stream is Some ==> parts.stream == Some(
                GcItem::Streaming(built.stream->Some_0),
            )
            &&& built.cabsim is Some ==> parts.cabsim == Some(
                GcItem::CabConvAdapter(built.cabsim->Some_0),
            )
            &&& built.os is Some ==> parts.os_l == Some(GcItem::Oversample(built.os->Some_0.0))
            &&& built.os is Some ==> parts.os_r == Some(GcItem::Oversample(built.os->Some_0.1))
            &&& parts.resampler is None <==> built.resampler is None
            &&& parts.stream is None <==> built.stream is None
            &&& parts.cabsim is None <==> built.cabsim is None
            &&& parts.os_l is None <==> built.os is None
            &&& parts.os_r is None <==> built.os is None
        }),
        ({
            let parts = Parts::of_staged(staged);
            &&& swap.model_l is Some ==> parts.model == Some(GcItem::Model(swap.model_l->Some_0))
            &&& swap.model_l is None ==> parts.model is None
            &&& parts.resampler == Some(GcItem::Resampler(swap.new_resampler))
            &&& parts.stream == Some(GcItem::Streaming(swap.new_stream))
            &&& staged.ir is Some && staged.ir->Some_0 is Some ==> parts.cabsim == Some(
                GcItem::CabConvAdapter(staged.ir->Some_0->Some_0),
            )
            &&& staged.ir is None || staged.ir->Some_0 is None ==> parts.cabsim is None
            &&& parts.os_l is None && parts.os_r is None
        }),
{
}

/// Every resource of a list counts, and each as often as it is named.
pub proof fn law_every_part_counts(parts: Parts, x: GcItem)
    ensures
        parts.set().count(x) == (if parts.model == Some(x) {
            1nat
        } else {
            0
        }) + (if parts.resampler == Some(x) {
            1nat
        } else {
            0
        }) + (if parts.stream == Some(x) {
            1nat
        } else {
            0
        }) + (if parts.cabsim == Some(x) {
            1nat
        } else {
            0
        }) + (if parts.os_l == Some(x) {
            1nat
        } else {
            0
        }) + (if parts.os_r == Some(x) {
            1nat
        } else {
            0
        }),
{
    broadcast use vstd::multiset::group_multiset_axioms;
}

/// A new instance has nothing loaded, nothing on its way and nothing to tell. It holds both ends of
/// each of its rings, through which nothing has passed, and no command has a number yet.
pub proof fn law_new_instance_has_nothing(state: GuiSharedState, instance_id: u64, slots: usize)
    requires
        state.is_fresh(instance_id, slots),
    ensures
        state.cold.instance_id == instance_id,
        state.ui_to_rt.param_input_gain == 0,
        state.ui_to_rt.param_output_gain == 0,
        state.ui_to_rt.param_gate_thresh == 0xc2b4_0000,
        state.ui_to_rt.param_bypass == 0,
        state.ui_to_rt.param_oversample == 0,
        state.ui_to_rt.gesture_flags == 0,
        state.ui_to_rt.gui_param_generation == 0,
        !state.ui_to_rt.host_r_deactivated,
        state.rt_to_ui.current_latency == 0,
        state.rt_to_ui.cabsim_tail_samples == 0,
        state.cold.param_tx is Some && state.cold.param_rx is Some,
        state.cold.gc_tx is Some && state.cold.gc_rx is Some,
        state.cold.slimmable_tx is Some && state.cold.slimmable_rx is Some,
        ({
            let (tx, rx) = (
                command_write_end(state.cold.param_tx->Some_0),
                command_read_end(state.cold.param_rx->Some_0),
            );
            tx.ring == rx.ring && tx.pushed == 0 && rx.popped == 0 && tx.capacity == slots
        }),
        state.cold.cmd_next_seq == 0,
        state.cold.cmd_last_ack == 0,
        state.cold.rt_status.flags == 0,
        state.cold.rt_status.flags_seen == 0,
        state.cold.rt_status.drains == 0,
        state.cold.rt_status.requested_slimmable_ch == 0,
        state.cold.rt_status.requested_os_factor == 0,
        state.cold.model_sample_rate == 48000,
        state.cold.buffer_size == 0,
        state.cold.current_stream_latency == 0,
        state.cold.current_cabsim_latency == 0,
        state.cold.model_generation == 0,
        state.cold.model_load_counter == 0,
        state.cold.ui_model_name@.len() == 0,
        state.cold.full_wavenet_model is None,
        state.cold.pending_model is None,
        state.cold.deactivated_dsp is None,
        state.cold.in_flight_params is None,
        state.cold.pending_preset_load@.len() == 0,
        state.cold.pending_restart_os_factor == 0,
        state.cold.last_applied_generation == 0,
        state.cold.ir_path is None && state.cold.ir_hash is None && state.cold.ir_raw_samples
            is None,
        !state.cold.ui_loading && !state.cold.ui_load_error && !state.cold.ui_clear_model,
        !state.cold.ui_ir_loading && !state.cold.ui_ir_load_error && !state.cold.ui_clear_ir,
        state.cold.alive_fence && !state.cold.gui_user_closed,
        state.cold.render_mode == 0,
{
}

/// A new scheduler holds both ends of one empty ring, and no command has a number yet.
pub proof fn law_new_scheduler_is_empty(scheduler: &CommandScheduler, capacity: nat)
    requires
        scheduler.fresh(capacity),
    ensures
        scheduler.cmd_tx is Some && scheduler.cmd_rx is Some,
        ({
            let (tx, rx) = (
                command_write_end(scheduler.cmd_tx->Some_0),
                command_read_end(scheduler.cmd_rx->Some_0),
            );
            tx.ring == rx.ring && tx.pushed == 0 && rx.popped == 0 && tx.capacity == capacity
        }),
        scheduler.cmd_next_seq == 0,
        scheduler.cmd_last_ack == 0,
{
}

} // verus!
