//! What each command of the main thread, and a drain of them, does to the audio thread.

use vstd::prelude::*;
use crate::callback::{
    gui_params, rebuild_misses, same_callback_shared, upcoming_rebuilds, CallbackState,
};
use crate::command_scheduler::{
    seq_after, with_params_first, CommandConsumer, CommandProducer, PushError,
};
use crate::events::{structural_count, upcoming, yields, DrainReport};
use crate::params::{ActivationPrecision, AdaptiveComputeMode, OversampleFactor, RtProcessingParams};
use crate::payload::{
    CabSimHandle, ClapParamPayload, GcItem, ModelHandle, OversampleHandle, ResamplerHandle,
    RestoreTxn, SlimmableRebuild, StreamHandle,
};
use crate::processor::{
    cells_of, same_shared, with_cells, NamClapProcessor, RtCells, RtEffect, RtState,
};
use crate::ring::{command_at, rebuild_at, rebuild_read_end};
use crate::schedule::same_event_shared;
use crate::shared::{ColdShared, GuiSharedState, RtToUi, UiToRt};
use crate::status::RtStatusFlags;

verus! {

/// What the laws of the audio thread speak of is what the processor and the shared state hold, each
/// value under its own name.
pub proof fn law_views_show_what_is_there<T: Copy>(
    processor: &NamClapProcessor<T>,
    shared: &GuiSharedState,
)
    ensures
        ({
            let rt = processor.rt(shared);
            &&& rt.chain == processor.chain
            &&& rt.params == processor.params
            &&& rt.adaptive_mode == processor.adaptive_mode
            &&& rt.gate_dirty == processor.gate_dirty
            &&& rt.effects == processor.effects@
            &&& rt.active == (shared.cold.buffer_size > 0)
            &&& rt.cells.current_stream_latency == shared.cold.current_stream_latency
            &&& rt.cells.current_cabsim_latency == shared.cold.current_cabsim_latency
            &&& rt.cells.cabsim_tail_samples == shared.rt_to_ui.cabsim_tail_samples
            &&& rt.cells.cmd_last_ack == shared.cold.cmd_last_ack
            &&& rt.cells.last_applied_generation == shared.cold.last_applied_generation
            &&& rt.cells.pending_restart_os_factor == shared.cold.pending_restart_os_factor
            &&& rt.cells.rt_status == shared.cold.rt_status
            &&& rt.cells == cells_of(*shared)
        }),
        ({
            let state = processor.callback(shared);
            &&& state.rt == processor.rt(shared)
            &&& state.last_seen_generation == processor.last_seen_generation
            &&& state.last_render_mode == processor.last_render_mode
            &&& state.realtime_activation == processor.realtime_activation
            &&& state.current_latency == shared.rt_to_ui.current_latency
            &&& state.requested_slimmable_generation == shared.cold.requested_slimmable_generation
            &&& state.slimmable_stale_discarded_total
                == shared.cold.slimmable_stale_discarded_total
        }),
        ({
            let state = processor.event_state(shared);
            &&& state.rt == processor.rt(shared)
            &&& state.ui == shared.ui_to_rt
            &&& state.mod_input_gain == processor.mod_input_gain
            &&& state.mod_output_gain == processor.mod_output_gain
            &&& state.mod_gate_thresh == processor.mod_gate_thresh
        }),
{
}

/// The cells that draining commands writes can be exchanged without touching anything else.
pub proof fn law_other_cells_stay(shared: GuiSharedState, cells: RtCells)
    ensures
        cells_of(with_cells(shared, cells)) == cells,
        with_cells(shared, cells_of(shared)) == shared,
        with_cells(shared, cells).ui_to_rt == shared.ui_to_rt,
        with_cells(shared, cells).rt_to_ui == (RtToUi {
            cabsim_tail_samples: cells.cabsim_tail_samples,
            ..shared.rt_to_ui
        }),
        (ColdShared {
            current_stream_latency: shared.cold.current_stream_latency,
            current_cabsim_latency: shared.cold.current_cabsim_latency,
            cmd_last_ack: shared.cold.cmd_last_ack,
            last_applied_generation: shared.cold.last_applied_generation,
            pending_restart_os_factor: shared.cold.pending_restart_os_factor,
            rt_status: shared.cold.rt_status,
            ..with_cells(shared, cells).cold
        }) == shared.cold,
{
}

/// A model command installs the model with its resampler, its stream and its own calibration, and
/// publishes the latency of the stream. The old model, resampler and stream are handed over; the
/// engines, the cab-sim and every parameter stay.
pub proof fn law_model_command_installs_the_model(
    state: RtState,
    generation: u64,
    model_l: Option<ModelHandle>,
    new_resampler: ResamplerHandle,
    new_stream: StreamHandle,
    input_mult_adj: u32,
    output_mult_adj: u32,
)
    ensures
        ({
            let after = state.apply(
                ClapParamPayload::LoadModel {
                    generation,
                    model_l,
                    new_resampler,
                    new_stream,
                    input_mult_adj,
                    output_mult_adj,
                },
            );
            &&& after.chain.model_l == model_l
            &&& after.chain.model_generation == generation
            &&& after.chain.resampler == new_resampler
            &&& after.chain.stream == new_stream
            &&& after.chain.model_input_mult_adj == input_mult_adj
            &&& after.chain.model_output_mult_adj == output_mult_adj
            &&& after.chain.cabsim_adapter == state.chain.cabsim_adapter
            &&& after.chain.cabsim_tail_remaining == state.chain.cabsim_tail_remaining
            &&& after.chain.os_l == state.chain.os_l
            &&& after.chain.os_r == state.chain.os_r
            &&& after.chain.applied_os_factor == state.chain.applied_os_factor
            &&& after.params == state.params
            &&& after.adaptive_mode == state.adaptive_mode
            &&& after.gate_dirty == state.gate_dirty
            &&& after.active == state.active
            &&& after.cells == (RtCells {
                current_stream_latency: new_stream.latency_samples,
                ..state.cells
            })
            &&& after.effects == state.effects + (match state.chain.model_l {
                Some(old) => seq![RtEffect::Retire(GcItem::Model(old))],
                None => Seq::empty(),
            }) + (match model_l {
                Some(new) => seq![RtEffect::InjectRtStatus(new)],
                None => Seq::empty(),
            }) + seq![
                RtEffect::Retire(GcItem::Resampler(state.chain.resampler)),
                RtEffect::Retire(GcItem::Streaming(state.chain.stream)),
            ] + (match model_l {
                Some(ModelHandle { wavenet: Some(shape), .. }) => seq![
                    RtEffect::SetWaveNetChannels(shape),
                ],
                _ => Seq::empty(),
            })
        }),
{
    reveal(RtState::load_model);
}

/// A cab-sim command installs the cab-sim, or removes the one that is there. Its latency and the
/// length of its tail are published, its full tail is ahead, and the old one is handed over. The
/// model, the engines and every parameter stay.
pub proof fn law_cabsim_command_installs_the_cabsim(state: RtState, adapter: Option<CabSimHandle>)
    ensures
        ({
            let after = state.apply(ClapParamPayload::LoadCabIr { adapter });
            &&& after.chain.cabsim_adapter == adapter
            &&& after.chain.model_l == state.chain.model_l
            &&& after.chain.model_generation == state.chain.model_generation
            &&& after.chain.resampler == state.chain.resampler
            &&& after.chain.stream == state.chain.stream
            &&& after.chain.model_input_mult_adj == state.chain.model_input_mult_adj
            &&& after.chain.model_output_mult_adj == state.chain.model_output_mult_adj
            &&& after.chain.os_l == state.chain.os_l
            &&& after.chain.os_r == state.chain.os_r
            &&& after.chain.applied_os_factor == state.chain.applied_os_factor
            &&& after.params == state.params
            &&& after.adaptive_mode == state.adaptive_mode
            &&& after.gate_dirty == state.gate_dirty
            &&& after.active == state.active
            &&& adapter is Some ==> {
                &&& after.chain.cabsim_tail_remaining == adapter->Some_0.tail_samples
                &&& after.cells == (RtCells {
                    current_cabsim_latency: adapter->Some_0.latency_samples,
                    cabsim_tail_samples: ((adapter->Some_0.num_partitions
                        * adapter->Some_0.latency_samples) % 0x1_0000_0000) as u32,
                    ..state.cells
                })
            }
            &&& adapter is None ==> {
                &&& after.chain.cabsim_tail_remaining == 0
                &&& after.cells == (RtCells {
                    current_cabsim_latency: 0,
                    cabsim_tail_samples: 0,
                    ..state.cells
                })
            }
            &&& after.effects == state.effects + (match state.chain.cabsim_adapter {
                Some(old) => seq![RtEffect::Retire(GcItem::CabConvAdapter(old))],
                None => Seq::empty(),
            }) + seq![RtEffect::TailChanged]
        }),
{
    reveal(RtState::load_cabsim);
}

/// A command with engines installs them, each on its side, and hands the old ones over. The factor
/// in force is that of the new engines. The model, the cab-sim, every parameter and every shared
/// cell stay.
pub proof fn law_engine_command_installs_the_engines(
    state: RtState,
    os_l: OversampleHandle,
    os_r: OversampleHandle,
)
    ensures
        ({
            let after = state.apply(ClapParamPayload::SetOversample { os_l, os_r });
            &&& after.chain.os_l == os_l
            &&& after.chain.os_r == os_r
            &&& after.chain.applied_os_factor == os_l.factor
            &&& after.chain.model_l == state.chain.model_l
            &&& after.chain.model_generation == state.chain.model_generation
            &&& after.chain.resampler == state.chain.resampler
            &&& after.chain.stream == state.chain.stream
            &&& after.chain.model_input_mult_adj == state.chain.model_input_mult_adj
            &&& after.chain.model_output_mult_adj == state.chain.model_output_mult_adj
            &&& after.chain.cabsim_adapter == state.chain.cabsim_adapter
            &&& after.chain.cabsim_tail_remaining == state.chain.cabsim_tail_remaining
            &&& after.params == state.params
            &&& after.adaptive_mode == state.adaptive_mode
            &&& after.gate_dirty == state.gate_dirty
            &&& after.active == state.active
            &&& after.cells == state.cells
            &&& after.effects == state.effects + seq![
                RtEffect::Retire(GcItem::Oversample(state.chain.os_l)),
                RtEffect::Retire(GcItem::Oversample(state.chain.os_r)),
            ]
        }),
{
    reveal(RtState::load_os);
}

/// Whatever is swapped, the latency that the processor keeps is the sum of those of the stream, the
/// engines and the cab-sim that are installed then.
pub proof fn law_cached_latency_is_the_sum(
    state: RtState,
    generation: u64,
    model_l: Option<ModelHandle>,
    new_resampler: ResamplerHandle,
    new_stream: StreamHandle,
    adj: (u32, u32),
    adapter: CabSimHandle,
    engines: (OversampleHandle, OversampleHandle),
)
    requires
        new_stream.latency_samples + engines.0.latency_samples + adapter.latency_samples
            <= u32::MAX,
    ensures
        ({
            let model = ClapParamPayload::LoadModel {
                generation,
                model_l,
                new_resampler,
                new_stream,
                input_mult_adj: adj.0,
                output_mult_adj: adj.1,
            };
            let cabsim = ClapParamPayload::LoadCabIr { adapter: Some(adapter) };
            let none = ClapParamPayload::LoadCabIr { adapter: None };
            let os = ClapParamPayload::SetOversample { os_l: engines.0, os_r: engines.1 };
            let sum = new_stream.latency_samples + engines.0.latency_samples
                + adapter.latency_samples;
            &&& state.apply(model).apply(os).apply(cabsim).chain.cached_effective_latency == sum
            &&& state.apply(os).apply(cabsim).apply(model).chain.cached_effective_latency == sum
            &&& state.apply(cabsim).apply(model).apply(os).chain.cached_effective_latency == sum
            &&& state.apply(model).apply(os).apply(none).chain.cached_effective_latency
                == new_stream.latency_samples + engines.0.latency_samples
        }),
{
    reveal(RtState::load_model);
    reveal(RtState::load_cabsim);
    reveal(RtState::load_os);
}

/// A parameter command brings every one of its values into force and swaps nothing. The thresholds
/// of the noise gate are computed anew where they have changed. Another oversampling factor is
/// asked for: with a restart while the plug-in is active, from the main thread before.
pub proof fn law_parameter_command_sets_the_parameters(state: RtState, params: RtProcessingParams)
    ensures
        ({
            let after = state.apply(ClapParamPayload::Params(params));
            let asked = params.oversample != state.params.oversample;
            let code: u32 = match params.oversample {
                OversampleFactor::Off => 0,
                OversampleFactor::X2 => 1,
                OversampleFactor::X4 => 2,
            };
            &&& after.params.input_gain_db == params.input_gain_db
            &&& after.params.output_gain_db == params.output_gain_db
            &&& after.params.gate_threshold_db == params.gate_threshold_db
            &&& after.params.bypass == params.bypass
            &&& after.params.adaptive_compute == params.adaptive_compute
            &&& after.params.slim_override == params.slim_override
            &&& after.params.oversample == params.oversample
            &&& after.params.activation_precision == params.activation_precision
            &&& after.adaptive_mode == params.adaptive_compute
            &&& after.gate_dirty == (state.gate_dirty || params.gate_threshold_db
                != state.params.gate_threshold_db)
            &&& after.chain == state.chain
            &&& after.active == state.active
            &&& after.effects == state.effects.push(RtEffect::ApplyParams(params))
            &&& !asked ==> after.cells == state.cells
            &&& asked && state.active ==> after.cells == (RtCells {
                pending_restart_os_factor: (code + 1) as u32,
                ..state.cells
            })
            &&& asked && !state.active ==> after.cells == (RtCells {
                rt_status: RtStatusFlags {
                    requested_os_factor: code,
                    flags: state.cells.rt_status.flags | 0x1_0000,
                    flags_seen: state.cells.rt_status.flags_seen | 0x1_0000,
                    ..state.cells.rt_status
                },
                ..state.cells
            })
        }),
{
    reveal(RtState::apply_params);
    reveal(RtState::request_oversample);
}

/// A restore does what its components would do one after the other, model, cab-sim and parameters,
/// and then records its generation. A component that it does not have changes nothing.
pub proof fn law_restore_is_the_sum_of_its_components(state: RtState, txn: RestoreTxn)
    ensures
        ({
            let modeled = match txn.model {
                Some(m) => state.apply(
                    ClapParamPayload::LoadModel {
                        generation: m.generation,
                        model_l: m.model_l,
                        new_resampler: m.new_resampler,
                        new_stream: m.new_stream,
                        input_mult_adj: m.input_mult_adj,
                        output_mult_adj: m.output_mult_adj,
                    },
                ),
                None => state,
            };
            let convolved = match txn.ir {
                Some(adapter) => modeled.apply(ClapParamPayload::LoadCabIr { adapter }),
                None => modeled,
            };
            let set = convolved.apply(ClapParamPayload::Params(txn.params));
            state.apply(ClapParamPayload::RestoreTxn(txn)) == (RtState {
                cells: RtCells { last_applied_generation: txn.generation, ..set.cells },
                ..set
            })
        }),
{
    reveal(RtState::generation_applied);
}

/// Commands come into force one after the other, in the order in which they were taken.
pub proof fn law_commands_apply_in_order(
    state: RtState,
    cmds: Seq<ClapParamPayload>,
    cmd: ClapParamPayload,
)
    ensures
        state.apply_all(Seq::empty()) == state,
        state.apply_all(cmds.push(cmd)) == state.apply_all(cmds).apply(cmd),
        structural_count(Seq::empty()) == 0,
        structural_count(cmds.push(cmd)) == structural_count(cmds) + (match cmd {
            ClapParamPayload::Params(_) => 0nat,
            _ => 1nat,
        }),
{
    assert(cmds.push(cmd).drop_last() =~= cmds);
}

/// What a drain takes is what the ring holds, from the next position on.
pub proof fn law_drain_takes_what_comes_next(
    consumer: &CommandConsumer,
    rx: rtrb::Consumer<SlimmableRebuild>,
    n: nat,
    i: int,
)
    requires
        0 <= i < n,
    ensures
        upcoming(consumer, n).len() == n,
        upcoming(consumer, n)[i] == command_at(
            consumer.end().ring,
            (consumer.end().popped + i) as nat,
        ),
        consumer.head() == command_at(consumer.end().ring, consumer.end().popped),
        upcoming_rebuilds(rx, n).len() == n,
        upcoming_rebuilds(rx, n)[i] == rebuild_at(
            rebuild_read_end(rx).ring,
            (rebuild_read_end(rx).popped + i) as nat,
        ),
{
}

/// A deferred command gives way only to one that replaces the same thing, and a restore to none.
/// Parameters are never deferred.
pub proof fn law_only_the_same_kind_supersedes(deferred: ClapParamPayload, head: ClapParamPayload)
    ensures
        yields(deferred, head) == {
            ||| deferred is LoadModel && head is LoadModel
            ||| deferred is LoadCabIr && head is LoadCabIr
            ||| deferred is SetOversample && head is SetOversample
        },
        deferred.kind() is None <==> deferred is Params,
{
}

/// A callback takes at most 64 commands and applies at most one that swaps resources. It stops
/// before the ring was found empty only at one of these limits, and only then is that flagged.
pub proof fn law_drain_stops_only_at_a_limit(
    report: DrainReport,
    deferred: Option<ClapParamPayload>,
    consumer: &CommandConsumer,
    deferred_after: Option<ClapParamPayload>,
    consumer_after: &CommandConsumer,
)
    requires
        report.fits(deferred, consumer, deferred_after, consumer_after),
    ensures
        report.drained <= 64,
        structural_count(report.applied(deferred, consumer)) <= 1,
        report.truncated <==> report.drained == 64 && deferred_after is None,
        consumer_after.end().popped == consumer.end().popped + report.drained,
        consumer_after.end().ring == consumer.end().ring,
        deferred_after is None && report.drained < 64 ==> consumer_after.end().misses
            == consumer.end().misses + 1,
        deferred_after is Some || report.drained == 64 ==> consumer_after.end().misses
            == consumer.end().misses,
        deferred_after is Some ==> structural_count(report.applied(deferred, consumer)) == 1,
        deferred is Some && !report.superseded ==> report.applied(deferred, consumer)[0]
            == deferred->Some_0,
        report.superseded ==> deferred is Some && yields(deferred->Some_0, consumer.head()),
{
}

/// A drain that defers nothing applies all that it takes, the deferred command first, one after the
/// other; the acknowledgment is the number of the last one. Where nothing was there nothing
/// changes.
pub proof fn law_drain_applies_what_it_takes(
    state: RtState,
    deferred: Option<ClapParamPayload>,
    consumer: &CommandConsumer,
    report: DrainReport,
    deferred_after: Option<ClapParamPayload>,
    consumer_after: &CommandConsumer,
)
    requires
        report.fits(deferred, consumer, deferred_after, consumer_after),
        !report.superseded,
    ensures
        ({
            let after = state.drained(deferred, consumer, report);
            let taken = upcoming(consumer, report.drained as nat);
            let found = match deferred {
                Some(cmd) => seq![cmd] + taken,
                None => taken,
            };
            let applied = state.apply_all(
                match deferred_after {
                    Some(_) => found.drop_last(),
                    None => found,
                },
            );
            &&& deferred_after is Some ==> deferred_after->Some_0 == found.last()
            &&& after.chain == applied.chain
            &&& after.params == applied.params
            &&& after.adaptive_mode == applied.adaptive_mode
            &&& after.gate_dirty == applied.gate_dirty
            &&& after.effects == applied.effects
            &&& after.active == applied.active
            &&& after.cells == (RtCells {
                cmd_last_ack: if found.len() > 0 {
                    consumer_after.processed()
                } else {
                    state.cells.cmd_last_ack
                },
                rt_status: after.cells.rt_status,
                ..applied.cells
            })
            &&& found.len() == 0 ==> after.cells.rt_status == state.cells.rt_status
            &&& after.cells.rt_status == (if deferred_after is Some {
                RtStatusFlags {
                    flags: applied.cells.rt_status.flags | 0x800,
                    flags_seen: applied.cells.rt_status.flags_seen | 0x800,
                    structural_deferred_total: ((applied.cells.rt_status.structural_deferred_total
                        + 1) % 0x1_0000_0000) as u32,
                    ..applied.cells.rt_status
                }
            } else if report.drained == 64 {
                RtStatusFlags {
                    flags: applied.cells.rt_status.flags | 0x200,
                    flags_seen: applied.cells.rt_status.flags_seen | 0x200,
                    ..applied.cells.rt_status
                }
            } else {
                applied.cells.rt_status
            })
        }),
{
    reveal(RtState::park);
    reveal(RtState::truncate);
    reveal(RtState::acknowledge);
    let taken = upcoming(consumer, report.drained as nat);
    let found = match deferred {
        Some(cmd) => seq![cmd] + taken,
        None => taken,
    };
    match deferred_after {
        Some(_) => {
            assert(found.drop_last() =~= report.applied(deferred, consumer));
        },
        None => {
            assert(found =~= report.applied(deferred, consumer));
        },
    }
}

/// A command that gives way is never applied: its resources are handed over, each once and in
/// order, and the replacement is flagged and counted.
pub proof fn law_superseded_command_is_handed_over(state: RtState, cmd: ClapParamPayload)
    ensures
        ({
            let after = state.supersede(cmd);
            &&& after.chain == state.chain
            &&& after.params == state.params
            &&& after.adaptive_mode == state.adaptive_mode
            &&& after.gate_dirty == state.gate_dirty
            &&& after.active == state.active
            &&& after.effects.len() == state.effects.len() + cmd.resources().len()
            &&& forall|i: int|
                0 <= i < state.effects.len() ==> #[trigger] after.effects[i] == state.effects[i]
            &&& forall|i: int|
                0 <= i < cmd.resources().len() ==> after.effects[state.effects.len() + i]
                    == RtEffect::Retire(#[trigger] cmd.resources()[i])
            &&& after.cells == (RtCells {
                rt_status: RtStatusFlags {
                    flags: state.cells.rt_status.flags | 0x1000,
                    flags_seen: state.cells.rt_status.flags_seen | 0x1000,
                    structural_superseded_total: ((state.cells.rt_status.structural_superseded_total
                        + 1) % 0x1_0000_0000) as u32,
                    ..state.cells.rt_status
                },
                ..state.cells
            })
        }),
{
    reveal(RtState::supersede);
}

/// Where a deferred command gives way, what is applied is what the ring held, and the acknowledgment
/// covers the command that gave way, too.
pub proof fn law_supersession_skips_one_command(
    state: RtState,
    deferred: ClapParamPayload,
    consumer: &CommandConsumer,
    report: DrainReport,
    consumer_after: &CommandConsumer,
)
    requires
        report.fits(Some(deferred), consumer, None, consumer_after),
        report.superseded,
        report.drained > 0,
    ensures
        ({
            let after = state.drained(Some(deferred), consumer, report);
            let applied = state.supersede(deferred).apply_all(
                upcoming(consumer, report.drained as nat),
            );
            &&& after.chain == applied.chain
            &&& after.params == applied.params
            &&& after.effects == applied.effects
            &&& after.cells.cmd_last_ack == consumer_after.processed()
            &&& after.cells.cmd_last_ack == seq_after(consumer.processed(), report.drained + 1)
        }),
{
    reveal(RtState::truncate);
    reveal(RtState::acknowledge);
    assert(Seq::<ClapParamPayload>::empty() + upcoming(consumer, report.drained as nat)
        =~= upcoming(consumer, report.drained as nat));
}

/// The resources of a command are those that it names, each once.
pub proof fn law_resources_are_those_named(
    model_l: Option<ModelHandle>,
    new_resampler: ResamplerHandle,
    new_stream: StreamHandle,
    adapter: Option<CabSimHandle>,
    os_l: OversampleHandle,
    os_r: OversampleHandle,
    params: RtProcessingParams,
    txn: RestoreTxn,
)
    requires
        txn.model is Some,
        txn.model->Some_0.model_l == model_l,
        txn.model->Some_0.new_resampler == new_resampler,
        txn.model->Some_0.new_stream == new_stream,
        txn.ir == Some(adapter),
    ensures
        ({
            let model = ClapParamPayload::LoadModel {
                generation: 0,
                model_l,
                new_resampler,
                new_stream,
                input_mult_adj: 0,
                output_mult_adj: 0,
            };
            let swapped = (match model_l {
                Some(m) => seq![GcItem::Model(m)],
                None => Seq::empty(),
            }) + seq![GcItem::Resampler(new_resampler), GcItem::Streaming(new_stream)];
            let convolver = match adapter {
                Some(a) => seq![GcItem::CabConvAdapter(a)],
                None => Seq::empty(),
            };
            &&& model.resources() =~= swapped
            &&& ClapParamPayload::LoadCabIr { adapter }.resources() =~= convolver
            &&& ClapParamPayload::SetOversample { os_l, os_r }.resources() =~= seq![
                GcItem::Oversample(os_l),
                GcItem::Oversample(os_r),
            ]
            &&& ClapParamPayload::Params(params).resources().len() == 0
            &&& ClapParamPayload::RestoreTxn(txn).resources() =~= swapped + convolver
            &&& ClapParamPayload::RestoreTxn(
                RestoreTxn { ir: None, ..txn },
            ).resources() =~= swapped
            &&& ClapParamPayload::RestoreTxn(
                RestoreTxn { model: None, ..txn },
            ).resources() =~= convolver
        }),
{
}

/// Every value that the GUI has stored is read from its own cell. Any bypass value but zero means
/// bypassed.
pub proof fn law_gui_values_are_read_from_their_cells(ui: UiToRt)
    ensures
        gui_params(ui).input_gain_db == ui.param_input_gain,
        gui_params(ui).output_gain_db == ui.param_output_gain,
        gui_params(ui).gate_threshold_db == ui.param_gate_thresh,
        gui_params(ui).bypass <==> ui.param_bypass != 0,
        gui_params(ui).adaptive_compute == (if ui.param_adaptive_compute == 0 {
            AdaptiveComputeMode::Off
        } else if ui.param_adaptive_compute == 2 {
            AdaptiveComputeMode::Aggressive
        } else {
            AdaptiveComputeMode::Conservative
        }),
        gui_params(ui).slim_override.code_spec() == (if ui.param_slim_override <= 2 {
            ui.param_slim_override
        } else {
            0
        }),
        gui_params(ui).oversample == (if ui.param_oversample == 1 {
            OversampleFactor::X2
        } else if ui.param_oversample == 2 {
            OversampleFactor::X4
        } else {
            OversampleFactor::Off
        }),
        gui_params(ui).activation_precision == (if ui.param_activation == 0 {
            ActivationPrecision::Fast
        } else {
            ActivationPrecision::Standard
        }),
{
}

/// A change of the GUI is taken over once: as a whole, like a parameter command with the stored
/// values, where it is new, and not at all where it has been seen.
pub proof fn law_gui_change_is_taken_over_once(state: CallbackState, ui: UiToRt)
    ensures
        ui.gui_param_generation == state.last_seen_generation ==> state.sync_gui(ui) == state,
        ui.gui_param_generation != state.last_seen_generation ==> state.sync_gui(ui)
            == (CallbackState {
            last_seen_generation: ui.gui_param_generation,
            rt: state.rt.apply(ClapParamPayload::Params(gui_params(ui))),
            ..state
        }),
        state.sync_gui(ui).sync_gui(ui) == state.sync_gui(ui),
{
    reveal(CallbackState::sync_gui);
}

/// The latency that is published is the one that the processor keeps, and publishing changes
/// nothing else.
pub proof fn law_published_latency_is_the_cached_one(state: CallbackState)
    ensures
        state.publish_latency().current_latency == state.rt.chain.cached_effective_latency,
        state.publish_latency().rt == state.rt,
        state.publish_latency() == (CallbackState {
            current_latency: state.publish_latency().current_latency,
            ..state
        }),
{
    reveal(CallbackState::publish_latency);
}

/// Where the render mode has not changed in real time, nothing happens. A turn to offline rendering
/// keeps the precision that was set, to come back to it, and a turn back asks for it and for the
/// mode that the GUI shows.
pub proof fn law_render_mode_is_followed(state: CallbackState, ui: UiToRt, render_mode: u32)
    ensures
        ({
            let after = state.follow_render_mode(ui, render_mode);
            let turned = render_mode != state.last_render_mode;
            &&& after.last_render_mode == render_mode
            &&& after.rt.chain == state.rt.chain
            &&& after.rt.cells == state.rt.cells
            &&& after.rt.gate_dirty == state.rt.gate_dirty
            &&& after.rt.params == (RtProcessingParams {
                activation_precision: after.rt.params.activation_precision,
                ..state.rt.params
            })
            &&& after.current_latency == state.current_latency
            &&& after.last_seen_generation == state.last_seen_generation
            &&& !turned && render_mode != 1 ==> after == state
            &&& turned && render_mode == 1 ==> {
                &&& after.realtime_activation == state.rt.params.activation_precision
                &&& after.rt.params.activation_precision == ActivationPrecision::Standard
                &&& after.rt.adaptive_mode == AdaptiveComputeMode::Off
                &&& after.rt.effects == state.rt.effects + seq![
                    RtEffect::SetAdaptiveMode(AdaptiveComputeMode::Off),
                    RtEffect::SetActivation(ActivationPrecision::Standard),
                ]
            }
            &&& turned && render_mode != 1 ==> {
                &&& after.realtime_activation == state.realtime_activation
                &&& after.rt.params.activation_precision == state.realtime_activation
                &&& after.rt.adaptive_mode == gui_params(ui).adaptive_compute
                &&& after.rt.effects == state.rt.effects + seq![
                    RtEffect::SetAdaptiveMode(gui_params(ui).adaptive_compute),
                    RtEffect::SetActivation(state.realtime_activation),
                ]
            }
            &&& render_mode == 1 ==> after.rt.adaptive_mode == AdaptiveComputeMode::Off
            &&& !turned && render_mode == 1 ==> after.rt.params == state.rt.params
        }),
{
    reveal(CallbackState::turn_to);
    reveal(CallbackState::set_mode);
    reveal(CallbackState::set_precision);
    reveal(CallbackState::follow_render_mode);
    let (mode, precision) = if render_mode == 1 {
        (AdaptiveComputeMode::Off, ActivationPrecision::Standard)
    } else {
        (gui_params(ui).adaptive_compute, state.realtime_activation)
    };
    assert(state.rt.effects.push(RtEffect::SetAdaptiveMode(mode)).push(
        RtEffect::SetActivation(precision),
    ) =~= state.rt.effects + seq![
        RtEffect::SetAdaptiveMode(mode),
        RtEffect::SetActivation(precision),
    ]);
}

/// A wish for another number of channels is passed on with the generation of the model that is
/// running; without a wish nothing happens.
pub proof fn law_rebuild_is_asked_for_the_running_model(state: CallbackState, target: Option<u32>)
    ensures
        target is None ==> state.signal_rebuild(target) == state,
        target is Some ==> state.signal_rebuild(target) == (CallbackState {
            requested_slimmable_generation: state.rt.chain.model_generation,
            rt: RtState {
                cells: RtCells {
                    rt_status: RtStatusFlags {
                        requested_slimmable_ch: target->Some_0,
                        flags: state.rt.cells.rt_status.flags | 0x8000,
                        flags_seen: state.rt.cells.rt_status.flags_seen | 0x8000,
                        ..state.rt.cells.rt_status
                    },
                    ..state.rt.cells
                },
                ..state.rt
            },
            ..state
        }),
{
    reveal(CallbackState::signal_rebuild);
}

/// Rebuilt models are dealt with one after the other. One that was made from the running model takes
/// its place, and the old one is handed over; any other one is handed over itself, and counted.
pub proof fn law_rebuilt_models_are_installed_in_order(
    state: CallbackState,
    rebuilds: Seq<SlimmableRebuild>,
    rebuild: SlimmableRebuild,
)
    ensures
        state.install_all(Seq::empty()) == state,
        state.install_all(rebuilds.push(rebuild)) == state.install_all(rebuilds).install_rebuild(
            rebuild,
        ),
        rebuild.generation == state.rt.chain.model_generation ==> {
            let after = state.install_rebuild(rebuild);
            &&& after.rt.chain.model_l == Some(rebuild.model)
            &&& after.rt.chain.model_generation == state.rt.chain.model_generation
            &&& after.slimmable_stale_discarded_total == state.slimmable_stale_discarded_total
            &&& state.rt.chain.model_l is Some ==> after.rt.effects == state.rt.effects.push(
                RtEffect::Retire(GcItem::Model(state.rt.chain.model_l->Some_0)),
            )
            &&& state.rt.chain.model_l is None ==> after.rt.effects == state.rt.effects
        },
        rebuild.generation != state.rt.chain.model_generation ==> {
            let after = state.install_rebuild(rebuild);
            &&& after.rt.chain == state.rt.chain
            &&& after.rt.effects == state.rt.effects.push(
                RtEffect::Retire(GcItem::Model(rebuild.model)),
            )
            &&& after.slimmable_stale_discarded_total == ((state.slimmable_stale_discarded_total
                + 1) % 0x1_0000_0000) as u32
        },
        state.install_rebuild(rebuild).rt.params == state.rt.params,
        state.install_rebuild(rebuild).rt.cells == state.rt.cells,
        state.install_rebuild(rebuild).current_latency == state.current_latency,
        state.install_rebuild(rebuild).last_seen_generation == state.last_seen_generation,
{
    assert(rebuilds.push(rebuild).drop_last() =~= rebuilds);
}

/// A shortage of room in the host's queue is flagged, and nothing else happens.
pub proof fn law_shortage_of_room_is_flagged(state: CallbackState)
    ensures
        state.flag_backpressure(false) == state,
        state.flag_backpressure(true) == (CallbackState {
            rt: RtState {
                cells: RtCells {
                    rt_status: RtStatusFlags {
                        flags: state.rt.cells.rt_status.flags | 0x400,
                        flags_seen: state.rt.cells.rt_status.flags_seen | 0x400,
                        ..state.rt.cells.rt_status
                    },
                    ..state.rt.cells
                },
                ..state.rt
            },
            ..state
        }),
{
    reveal(CallbackState::flag_backpressure);
}

/// A drain in the middle of a callback changes what the commands change, and none of the other
/// things that a callback looks after.
pub proof fn law_drain_is_part_of_the_callback(
    state: CallbackState,
    deferred: Option<ClapParamPayload>,
    consumer: &CommandConsumer,
    report: DrainReport,
)
    ensures
        ({
            let after = state.drain(deferred, consumer, report);
            &&& after.rt == state.rt.drained(deferred, consumer, report)
            &&& after == (CallbackState { rt: after.rt, ..state })
        }),
{
}

/// Applying a command, and draining several, leaves alone whatever else the processor keeps, and the
/// past of the dry signal.
pub proof fn law_commands_leave_the_rest_alone<T: Copy>(
    before: &NamClapProcessor<T>,
    applied: &NamClapProcessor<T>,
    drained: &NamClapProcessor<T>,
)
    requires
        applied.same_rest(before),
        drained.same_beyond_commands(before),
    ensures
        drained.process_mono == before.process_mono,
        drained.scheduled_events == before.scheduled_events,
        drained.bypass_xfade == before.bypass_xfade,
        drained.slimmable_rx == before.slimmable_rx,
        drained.gc_tx == before.gc_tx,
        drained.mod_input_gain == before.mod_input_gain,
        drained.mod_output_gain == before.mod_output_gain,
        drained.mod_gate_thresh == before.mod_gate_thresh,
        drained.cycles_since_telemetry == before.cycles_since_telemetry,
        drained.prio_checked == before.prio_checked,
        drained.last_seen_generation == before.last_seen_generation,
        drained.max_frames_count == before.max_frames_count,
        drained.last_render_mode == before.last_render_mode,
        drained.realtime_activation == before.realtime_activation,
        drained.dry_delay.history_l() == before.dry_delay.history_l(),
        drained.dry_delay.history_r() == before.dry_delay.history_r(),
        drained.dry_delay.capacity() == before.dry_delay.capacity(),
        drained.dry_delay.silence() == before.dry_delay.silence(),
        applied.cmd_consumer == before.cmd_consumer,
        applied.deferred_structural == before.deferred_structural,
        applied.process_mono == before.process_mono,
        applied.scheduled_events == before.scheduled_events,
        applied.bypass_xfade == before.bypass_xfade,
        applied.slimmable_rx == before.slimmable_rx,
        applied.gc_tx == before.gc_tx,
        applied.mod_input_gain == before.mod_input_gain,
        applied.mod_output_gain == before.mod_output_gain,
        applied.mod_gate_thresh == before.mod_gate_thresh,
        applied.last_seen_generation == before.last_seen_generation,
        applied.max_frames_count == before.max_frames_count,
        applied.last_render_mode == before.last_render_mode,
        applied.realtime_activation == before.realtime_activation,
        applied.dry_delay.history_l() == before.dry_delay.history_l(),
        applied.dry_delay.history_r() == before.dry_delay.history_r(),
        applied.dry_delay.capacity() == before.dry_delay.capacity(),
{
    reveal(NamClapProcessor::same_rest);
    reveal(NamClapProcessor::same_beyond_commands);
}

/// The start of a callback, and the host's events, leave alone whatever else the processor keeps.
pub proof fn law_callbacks_leave_the_rest_alone<T: Copy>(
    before: &NamClapProcessor<T>,
    started: &NamClapProcessor<T>,
    changed: &NamClapProcessor<T>,
)
    requires
        started.same_beyond_callback(before),
        changed.same_beyond_events(before),
    ensures
        started.process_mono == before.process_mono,
        started.scheduled_events == before.scheduled_events,
        started.bypass_xfade == before.bypass_xfade,
        started.gc_tx == before.gc_tx,
        started.mod_input_gain == before.mod_input_gain,
        started.mod_output_gain == before.mod_output_gain,
        started.mod_gate_thresh == before.mod_gate_thresh,
        started.cycles_since_telemetry == before.cycles_since_telemetry,
        started.prio_checked == before.prio_checked,
        started.max_frames_count == before.max_frames_count,
        started.dry_delay.history_l() == before.dry_delay.history_l(),
        started.dry_delay.history_r() == before.dry_delay.history_r(),
        started.dry_delay.capacity() == before.dry_delay.capacity(),
        started.dry_delay.silence() == before.dry_delay.silence(),
        changed.chain == before.chain,
        changed.dry_delay == before.dry_delay,
        changed.process_mono == before.process_mono,
        changed.scheduled_events == before.scheduled_events,
        changed.bypass_xfade == before.bypass_xfade,
        changed.cmd_consumer == before.cmd_consumer,
        changed.deferred_structural == before.deferred_structural,
        changed.slimmable_rx == before.slimmable_rx,
        changed.gc_tx == before.gc_tx,
        changed.last_seen_generation == before.last_seen_generation,
        changed.max_frames_count == before.max_frames_count,
        changed.last_render_mode == before.last_render_mode,
        changed.realtime_activation == before.realtime_activation,
{
    reveal(NamClapProcessor::same_beyond_callback);
    reveal(NamClapProcessor::same_beyond_events);
}

/// Of the shared state, commands write only the cells that are theirs; a callback writes the latency,
/// the gesture flags and what it asks of the main thread besides, and an event of the host what the
/// GUI shows.
pub proof fn law_audio_thread_writes_only_its_cells(
    before: &GuiSharedState,
    drained: &GuiSharedState,
    started: &GuiSharedState,
    changed: &GuiSharedState,
)
    requires
        same_shared(before, drained),
        same_callback_shared(before, started),
        same_event_shared(before, changed),
    ensures
        drained.ui_to_rt == before.ui_to_rt,
        drained.rt_to_ui == (RtToUi {
            cabsim_tail_samples: drained.rt_to_ui.cabsim_tail_samples,
            ..before.rt_to_ui
        }),
        drained.cold == with_cells(*before, cells_of(*drained)).cold,
        started.ui_to_rt == (UiToRt {
            gesture_flags: started.ui_to_rt.gesture_flags,
            ..before.ui_to_rt
        }),
        started.rt_to_ui == (RtToUi {
            cabsim_tail_samples: started.rt_to_ui.cabsim_tail_samples,
            current_latency: started.rt_to_ui.current_latency,
            ..before.rt_to_ui
        }),
        started.cold == (ColdShared {
            requested_slimmable_generation: started.cold.requested_slimmable_generation,
            slimmable_stale_discarded_total: started.cold.slimmable_stale_discarded_total,
            ..with_cells(*before, cells_of(*started)).cold
        }),
        changed.rt_to_ui == (RtToUi {
            cabsim_tail_samples: changed.rt_to_ui.cabsim_tail_samples,
            ..before.rt_to_ui
        }),
        changed.cold == with_cells(*before, cells_of(*changed)).cold,
{
    reveal(same_shared);
    reveal(same_callback_shared);
    reveal(same_event_shared);
}

/// Numbers follow one another, and start again behind the largest.
pub proof fn law_numbers_follow_one_another(seq: u64, n: nat)
    ensures
        seq_after(seq, 0) == seq,
        seq < u64::MAX ==> seq_after(seq, 1) == seq + 1,
        seq_after(u64::MAX, 1) == 0,
        seq + n <= u64::MAX ==> seq_after(seq, n as int) == seq + n,
        seq > 0 ==> seq_after(seq, -1) == seq - 1,
{
}

/// A command goes into the ring alone, or right behind the parameters that were waiting: never before
/// them.
pub proof fn law_parameters_go_before_the_command(
    before: &CommandProducer,
    after: &CommandProducer,
    cmd: ClapParamPayload,
    next_seq: u64,
)
    requires
        after.sent(before, with_params_first(before.pending(), cmd)),
    ensures
        ({
            let (start, end) = (before.end(), after.end());
            &&& end.ring == start.ring
            &&& end.capacity == start.capacity
            &&& end.refusals == start.refusals
            &&& command_at(end.ring, (end.pushed - 1) as nat) == cmd
            &&& before.pending() is None ==> end.pushed == start.pushed + 1
            &&& before.pending() is Some ==> end.pushed == start.pushed + 2 && command_at(
                end.ring,
                start.pushed,
            ) == ClapParamPayload::Params(before.pending()->Some_0)
            &&& before.pending() is None && next_seq < u64::MAX ==> after.numbered(before, next_seq)
                == next_seq + 1
            &&& before.pending() is Some && next_seq < u64::MAX - 1 ==> after.numbered(
                before,
                next_seq,
            ) == next_seq + 2
        }),
{
    let items = with_params_first(before.pending(), cmd);
    assert(items[items.len() - 1] == cmd);
    assert(items[0] == items[0]);
    assert((before.end().pushed + 0) as nat == before.end().pushed);
}

/// A command that is refused is not in the ring: at most the parameters that were waiting are. The
/// ring was found full, and no number was given for the command.
pub proof fn law_refused_command_is_not_sent(
    before: &CommandProducer,
    after: &CommandProducer,
    next_seq: u64,
)
    requires
        after.refused(before),
        next_seq < u64::MAX,
    ensures
        after.end().refusals == before.end().refusals + 1,
        after.end().ring == before.end().ring,
        after.end().pushed == before.end().pushed || {
            &&& after.end().pushed == before.end().pushed + 1
            &&& before.pending() is Some
            &&& after.pending() is None
            &&& command_at(before.end().ring, before.end().pushed) == ClapParamPayload::Params(
                before.pending()->Some_0,
            )
            &&& after.numbered(before, next_seq) == next_seq + 1
        },
        after.end().pushed == before.end().pushed ==> after.pending() == before.pending()
            && after.numbered(before, next_seq) == next_seq,
{
    assert((before.end().pushed + 0) as nat == before.end().pushed);
    if after.end().pushed != before.end().pushed {
        let items = seq![ClapParamPayload::Params(before.pending()->Some_0)];
        assert(items[0] == ClapParamPayload::Params(before.pending()->Some_0));
    }
}

/// A flush sends what was stored last, in every value, under the next number; where nothing was
/// stored it sends nothing, and where the ring is full what was stored stays.
pub proof fn law_flush_sends_what_was_stored(
    before: &CommandProducer,
    stored: &CommandProducer,
    params: RtProcessingParams,
    after: &CommandProducer,
    next_seq: u64,
    flushed: Result<u64, PushError>,
)
    requires
        stored.stored(before, params),
        after.flushed_from(stored, next_seq, flushed),
        next_seq < u64::MAX,
    ensures
        stored.end() == before.end(),
        flushed is Ok ==> {
            &&& flushed->Ok_0 == next_seq + 1
            &&& after.pending() is None
            &&& after.end().pushed == before.end().pushed + 1
            &&& command_at(before.end().ring, before.end().pushed) == ClapParamPayload::Params(
                params,
            )
        },
        flushed is Err ==> {
            &&& after.pending() == Some(params)
            &&& after.end().pushed == before.end().pushed
            &&& after.end().refusals == before.end().refusals + 1
        },
{
    if flushed is Ok {
        let items = seq![ClapParamPayload::Params(params)];
        assert(items[0] == ClapParamPayload::Params(params));
        assert((before.end().pushed + 0) as nat == before.end().pushed);
    }
}

/// Taking commands moves the reading end and the count of what was dealt with by as many.
pub proof fn law_taking_counts_each_command(
    before: &CommandConsumer,
    after: &CommandConsumer,
    n: nat,
    misses: nat,
)
    requires
        after.took(before, n, misses),
    ensures
        after.end().ring == before.end().ring,
        after.end().popped == before.end().popped + n,
        after.end().misses == before.end().misses + misses,
        after.end().blind == before.end().blind,
        before.processed() + n <= u64::MAX ==> after.processed() == before.processed() + n,
{
}

/// The ring is sure to have room for a command where it has a slot for it and for the parameters
/// before it that were never used.
pub proof fn law_unused_slots_are_room(producer: &CommandProducer, cmd: ClapParamPayload)
    ensures
        producer.pending() is None ==> (producer.has_room_for(cmd) <==> producer.end().pushed
            < producer.end().capacity),
        producer.pending() is Some ==> (producer.has_room_for(cmd) <==> producer.end().pushed + 1
            < producer.end().capacity),
{
}

/// Rebuilt models are taken until the ring is found empty, once, or the count is at its end.
pub proof fn law_rebuilds_are_taken_until_none_is_left(count: u64)
    ensures
        count < u64::MAX ==> rebuild_misses(count) == 1,
        count == u64::MAX ==> rebuild_misses(count) == 0,
{
}

} // verus!
