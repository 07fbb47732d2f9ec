//! What is saved with a session, what a restore brings back, and what the main thread looks after in
//! between.

use vstd::prelude::*;
use crate::activation_laws::shows;
use crate::callback::gui_params;
use crate::chores::{sendable, Chore, Report};
use crate::command_scheduler::with_params_first;
use crate::housekeeping::{
    drain_recorded, ends_wait, ir_choice_closed, ir_choice_taken, is_choice, model_choice_taken,
    oversample_request, oversample_settled, reset_failure_noted, slice_request, slice_settled,
    Choice, Rebuild,
};
use crate::main_thread::{
    searched, Delivery, HostRequest, IrLoad, LoadFailure, ModelLoad, NamClapMainThread,
};
use crate::params::{
    ActivationPrecision, AdaptiveComputeMode, OversampleFactor, ProcessingParams,
    RtProcessingParams, SlimOverride,
};
use crate::payload::{ClapParamPayload, ModelHandle, OversampleHandle, RestoreTxn};
use crate::restore::{
    changes_factor, changes_latency, overtaken, shown_saved, snapshot, RestoreStep,
};
use crate::ring::{command_at, rebuild_at, rebuild_write_end};
use crate::shared::{
    next_gui_generation, ColdShared, GuiSharedState, RestorePublish, StagedSwap, UiToRt,
};
use crate::status::RtStatusFlags;

verus! {

/// Each level, switch and choice that is saved is the one that the GUI has stored for it; path and
/// digest of the impulse response are those that are active, and a digest is saved only beside a
/// path.
pub proof fn law_saved_values_are_those_stored(params: ProcessingParams, shared: GuiSharedState)
    ensures
        ({
            let saved = snapshot(params, shared);
            let ui = shared.ui_to_rt;
            &&& saved.input_gain_db == ui.param_input_gain
            &&& saved.output_gain_db == ui.param_output_gain
            &&& saved.gate_threshold_db == ui.param_gate_thresh
            &&& saved.bypass <==> ui.param_bypass != 0
            &&& saved.adaptive_compute == (if ui.param_adaptive_compute == 0 {
                AdaptiveComputeMode::Off
            } else if ui.param_adaptive_compute == 2 {
                AdaptiveComputeMode::Aggressive
            } else {
                AdaptiveComputeMode::Conservative
            })
            &&& saved.slim_override == (if ui.param_slim_override == 1 {
                SlimOverride::ForceFull
            } else if ui.param_slim_override == 2 {
                SlimOverride::ForceLite
            } else {
                SlimOverride::Auto
            })
            &&& saved.oversample == (if ui.param_oversample == 1 {
                OversampleFactor::X2
            } else if ui.param_oversample == 2 {
                OversampleFactor::X4
            } else {
                OversampleFactor::Off
            })
            &&& saved.activation_precision == (if ui.param_activation == 0 {
                ActivationPrecision::Fast
            } else {
                ActivationPrecision::Standard
            })
            &&& saved.ir_path == shared.cold.ir_path
            &&& shared.cold.ir_path is Some ==> saved.ir_hash == shared.cold.ir_hash
            &&& shared.cold.ir_path is None ==> saved.ir_hash is None
            &&& saved.model_path == params.model_path
            &&& saved.model_basename == params.model_basename
            &&& saved.model_hash == params.model_hash
            &&& saved.model_search_paths == params.model_search_paths
        }),
{
}

/// What is saved and what the audio thread takes over are the same, read from the same cells.
pub proof fn law_saved_values_are_those_in_force(params: ProcessingParams, shared: GuiSharedState)
    ensures
        ({
            let saved = snapshot(params, shared);
            let heard = gui_params(shared.ui_to_rt);
            &&& saved.input_gain_db == heard.input_gain_db
            &&& saved.output_gain_db == heard.output_gain_db
            &&& saved.gate_threshold_db == heard.gate_threshold_db
            &&& saved.bypass == heard.bypass
            &&& saved.adaptive_compute == heard.adaptive_compute
            &&& saved.slim_override == heard.slim_override
            &&& saved.oversample == heard.oversample
            &&& saved.activation_precision == heard.activation_precision
        }),
{
}

/// Saving and showing undo each other: a session that is saved and shown again has every control
/// where it was, and what is shown of a saved session is saved again unchanged.
pub proof fn law_saved_session_comes_back(
    params: ProcessingParams,
    shared: GuiSharedState,
    other: UiToRt,
)
    requires
        shared.ui_to_rt.param_bypass <= 1,
        shared.ui_to_rt.param_adaptive_compute <= 2,
        shared.ui_to_rt.param_slim_override <= 2,
        shared.ui_to_rt.param_oversample <= 2,
        shared.ui_to_rt.param_activation <= 1,
    ensures
        ({
            let ui = shared.ui_to_rt;
            let back = shown_saved(other, snapshot(params, shared));
            &&& back.param_input_gain == ui.param_input_gain
            &&& back.param_output_gain == ui.param_output_gain
            &&& back.param_gate_thresh == ui.param_gate_thresh
            &&& back.param_bypass == ui.param_bypass
            &&& back.param_adaptive_compute == ui.param_adaptive_compute
            &&& back.param_slim_override == ui.param_slim_override
            &&& back.param_oversample == ui.param_oversample
            &&& back.param_activation == ui.param_activation
            &&& back.gesture_flags == other.gesture_flags
            &&& back.gui_param_generation == other.gui_param_generation
            &&& back.host_r_deactivated == other.host_r_deactivated
        }),
{
}

/// What the GUI is shown of a session: each control stands where the session has it.
pub proof fn law_controls_stand_where_the_session_has_them(
    ui: UiToRt,
    params: ProcessingParams,
    same: RtProcessingParams,
)
    requires
        same.input_gain_db == params.input_gain_db,
        same.output_gain_db == params.output_gain_db,
        same.gate_threshold_db == params.gate_threshold_db,
        same.bypass == params.bypass,
        same.adaptive_compute == params.adaptive_compute,
        same.slim_override == params.slim_override,
        same.oversample == params.oversample,
        same.activation_precision == params.activation_precision,
    ensures
        shows(shown_saved(ui, params), same),
        gui_params(shown_saved(ui, params)) == same,
        shown_saved(ui, params).gesture_flags == ui.gesture_flags,
        shown_saved(ui, params).gui_param_generation == ui.gui_param_generation,
        shown_saved(ui, params).host_r_deactivated == ui.host_r_deactivated,
{
}

/// A restore that becomes visible is shown and saved as it was packed: its parameters, the identity
/// of its model and its impulse response. A full one clears what it does not have; any other leaves
/// it.
pub proof fn law_restore_brings_back_the_session(
    before: &NamClapMainThread,
    shared: &GuiSharedState,
    visible: RestorePublish,
    after: &NamClapMainThread,
    shared_after: &GuiSharedState,
)
    requires
        NamClapMainThread::restore_published(before, shared, visible, after, shared_after),
    ensures
        after.params.input_gain_db == visible.params.input_gain_db,
        after.params.output_gain_db == visible.params.output_gain_db,
        after.params.gate_threshold_db == visible.params.gate_threshold_db,
        after.params.bypass == visible.params.bypass,
        after.params.adaptive_compute == visible.params.adaptive_compute,
        after.params.slim_override == visible.params.slim_override,
        after.params.oversample == visible.params.oversample,
        after.params.activation_precision == visible.params.activation_precision,
        after.params.ir_path == visible.params.ir_path,
        after.params.ir_hash == visible.params.ir_hash,
        shared_after.ui_to_rt.param_input_gain == visible.params.input_gain_db,
        shared_after.ui_to_rt.param_output_gain == visible.params.output_gain_db,
        shared_after.ui_to_rt.param_gate_thresh == visible.params.gate_threshold_db,
        shared_after.ui_to_rt.param_bypass == (if visible.params.bypass {
            1u32
        } else {
            0u32
        }),
        gui_params(shared_after.ui_to_rt).adaptive_compute == visible.params.adaptive_compute,
        gui_params(shared_after.ui_to_rt).slim_override == visible.params.slim_override,
        gui_params(shared_after.ui_to_rt).oversample == visible.params.oversample,
        gui_params(shared_after.ui_to_rt).activation_precision
            == visible.params.activation_precision,
        shared_after.rt_to_ui == shared.rt_to_ui,
        after.cmd_producer == before.cmd_producer,
        after.requests == before.requests,
{
}

/// The model of a restore that becomes visible: where the package has one, its identity is saved and
/// shown; a full restore without one leaves none; any other leaves the one that was there.
pub proof fn law_restore_brings_back_the_model(
    before: &NamClapMainThread,
    shared: &GuiSharedState,
    visible: RestorePublish,
    after: &NamClapMainThread,
    shared_after: &GuiSharedState,
)
    requires
        NamClapMainThread::restore_published(before, shared, visible, after, shared_after),
    ensures
        visible.model is Some ==> {
            let model = visible.model->Some_0;
            &&& after.params.model_path == visible.model_path_on_disk
            &&& after.params.model_basename == visible.model_basename
            &&& after.params.model_hash == visible.model_hash
            &&& shared_after.cold.model_sample_rate == model.model_rate
            &&& shared_after.cold.ui_model_metadata == Some(model.metadata)
            &&& shared_after.cold.ui_model_info == Some(model.info)
            &&& shared_after.cold.full_wavenet_model == model.full_wavenet
            &&& visible.model_basename is Some ==> shared_after.cold.ui_model_name@
                == visible.model_basename->Some_0@
        },
        visible.model is None && visible.mode_full ==> {
            &&& after.params.model_path is None
            &&& after.params.model_basename is None
            &&& after.params.model_hash is None
            &&& shared_after.cold.model_sample_rate == 0
            &&& shared_after.cold.ui_model_metadata is None
            &&& shared_after.cold.ui_model_info is None
            &&& shared_after.cold.full_wavenet_model is None
            &&& shared_after.cold.ui_model_name@.len() == 0
        },
        visible.model is None && !visible.mode_full ==> {
            &&& after.params.model_path == visible.params.model_path
            &&& after.params.model_basename == visible.params.model_basename
            &&& after.params.model_hash == visible.params.model_hash
            &&& shared_after.cold.model_sample_rate == shared.cold.model_sample_rate
            &&& shared_after.cold.ui_model_metadata == shared.cold.ui_model_metadata
            &&& shared_after.cold.ui_model_info == shared.cold.ui_model_info
            &&& shared_after.cold.full_wavenet_model == shared.cold.full_wavenet_model
            &&& shared_after.cold.ui_model_name@ == shared.cold.ui_model_name@
        },
        visible.model_search_path_to_add is None ==> after.params.model_search_paths@
            == visible.params.model_search_paths@,
        visible.model_search_path_to_add is Some ==> searched(
            visible.params.model_search_paths@,
            after.params.model_search_paths@,
            visible.model_search_path_to_add,
        ),
        shared_after.cold.model_generation == shared.cold.model_generation,
        shared_after.cold.pending_model == shared.cold.pending_model,
        shared_after.cold.buffer_size == shared.cold.buffer_size,
        shared_after.cold.sample_rate == shared.cold.sample_rate,
{
}

/// The impulse response of a restore that becomes visible: where the package has one, path, digest,
/// samples and rate are its own; a full restore without one leaves none; any other leaves the one
/// that was there.
pub proof fn law_restore_brings_back_the_response(
    before: &NamClapMainThread,
    shared: &GuiSharedState,
    visible: RestorePublish,
    after: &NamClapMainThread,
    shared_after: &GuiSharedState,
)
    requires
        NamClapMainThread::restore_published(before, shared, visible, after, shared_after),
    ensures
        visible.ir_path_on_disk is Some ==> {
            &&& shared_after.cold.ir_path == visible.ir_path_on_disk
            &&& shared_after.cold.ir_hash == visible.ir_hash
            &&& shared_after.cold.ir_raw_samples == visible.ir_raw_samples
            &&& shared_after.cold.ir_raw_sample_rate == visible.ir_raw_sample_rate
        },
        visible.ir_path_on_disk is None && visible.mode_full ==> {
            &&& shared_after.cold.ir_path is None
            &&& shared_after.cold.ir_hash is None
            &&& shared_after.cold.ir_raw_samples is None
            &&& shared_after.cold.ir_raw_sample_rate == 0
        },
        visible.ir_path_on_disk is None && !visible.mode_full ==> {
            &&& shared_after.cold.ir_path == shared.cold.ir_path
            &&& shared_after.cold.ir_hash == shared.cold.ir_hash
            &&& shared_after.cold.ir_raw_samples == shared.cold.ir_raw_samples
            &&& shared_after.cold.ir_raw_sample_rate == shared.cold.ir_raw_sample_rate
        },
{
}

/// A restore waits for a restart exactly where one of its components changes the latency that is
/// installed, or where it asks for another factor than the GUI shows.
pub proof fn law_restore_waits_where_the_latency_changes(txn: RestoreTxn, shared: GuiSharedState)
    ensures
        ({
            let stream = txn.model is Some && txn.model->Some_0.new_stream.latency_samples
                != shared.cold.current_stream_latency;
            let cabsim = txn.ir is Some && (match txn.ir->Some_0 {
                Some(a) => a.latency_samples != shared.cold.current_cabsim_latency,
                None => shared.cold.current_cabsim_latency != 0,
            });
            let factor = shared.ui_to_rt.param_oversample != (match txn.params.oversample {
                OversampleFactor::Off => 0u32,
                OversampleFactor::X2 => 1u32,
                OversampleFactor::X4 => 2u32,
            });
            &&& changes_factor(txn, shared) <==> factor
            &&& changes_latency(txn, shared) <==> stream || cabsim || factor
        }),
{
}

/// A restore overtakes what was staged of the components that it has, and leaves the others staged.
pub proof fn law_restore_overtakes_its_components(staged: StagedSwap, txn: RestoreTxn)
    ensures
        ({
            let left = overtaken(Some(staged), txn);
            let model = if txn.model is Some {
                None
            } else {
                staged.model
            };
            let ir = if txn.ir is Some {
                None
            } else {
                staged.ir
            };
            &&& left is Some ==> left->Some_0.model == model && left->Some_0.ir == ir
            &&& left is None ==> model is None && ir is None || txn.model is None && txn.ir is None
            &&& txn.model is None && txn.ir is None ==> left == Some(staged)
            &&& (model is Some || ir is Some) ==> left is Some
        }),
        overtaken(None, txn) is None,
{
}

/// A restart installs what waited for it: the components of a restore, and what was staged of those
/// that the restore does not have. The parameters of a restore come with its generation.
pub proof fn law_restart_finds_all_that_was_staged(main: &NamClapMainThread)
    ensures
        ({
            let staged = main.staged_spec();
            let swap_model = if main.staged_swap is Some {
                main.staged_swap->Some_0.model
            } else {
                None
            };
            let swap_ir = if main.staged_swap is Some {
                main.staged_swap->Some_0.ir
            } else {
                None
            };
            &&& main.staged_restore is None ==> {
                &&& staged.model == swap_model
                &&& staged.ir == swap_ir
                &&& staged.restore is None
            }
            &&& main.staged_restore is Some ==> {
                let txn = main.staged_restore->Some_0.txn;
                &&& txn.model is Some ==> staged.model == txn.model
                &&& txn.model is None ==> staged.model == swap_model
                &&& txn.ir is Some ==> staged.ir == txn.ir
                &&& txn.ir is None ==> staged.ir == swap_ir
                &&& staged.restore == Some((txn.generation, txn.params))
            }
        }),
{
}

/// A restore that is sent is the last command in the ring, whole, and the number that it took is the
/// one that is waited for.
pub proof fn law_restore_is_sent_whole(
    before: &NamClapMainThread,
    cold: &ColdShared,
    after: &NamClapMainThread,
    cold_after: &ColdShared,
    txn: RestoreTxn,
)
    requires
        NamClapMainThread::restore_flushed(before, cold, after, cold_after, RestoreStep::Sent),
        before.pending_restore is Some,
        before.pending_restore->Some_0.txn == Some(txn),
    ensures
        ({
            let end = after.cmd_producer.end();
            &&& end.ring == before.cmd_producer.end().ring
            &&& end.pushed > before.cmd_producer.end().pushed
            &&& command_at(end.ring, (end.pushed - 1) as nat) == ClapParamPayload::RestoreTxn(txn)
            &&& after.pending_restore is Some
            &&& after.pending_restore->Some_0.txn is None
            &&& after.pending_restore->Some_0.seq == cold_after.cmd_next_seq
            &&& after.pending_restore->Some_0.publish == before.pending_restore->Some_0.publish
            &&& after.pending_restore->Some_0.generation
                == before.pending_restore->Some_0.generation
            &&& after.requests == before.requests
        }),
{
    let cmd = ClapParamPayload::RestoreTxn(txn);
    let items = with_params_first(before.cmd_producer.pending(), cmd);
    assert(items[items.len() - 1] == cmd);
}

/// A restore that found the ring full is kept whole and tried again; one that is on its way is
/// neither lost nor sent twice.
pub proof fn law_restore_on_its_way_is_kept(
    before: &NamClapMainThread,
    cold: &ColdShared,
    after: &NamClapMainThread,
    cold_after: &ColdShared,
    step: RestoreStep,
)
    requires
        NamClapMainThread::restore_flushed(before, cold, after, cold_after, step),
    ensures
        step is Idle <==> before.pending_restore is None,
        step is Retained ==> after.pending_restore == before.pending_restore && after.requests@
            == before.requests@.push(HostRequest::Callback),
        step is Waiting ==> *after == *before && cold_after.cmd_next_seq == cold.cmd_next_seq,
        step is Publish ==> after.pending_restore is None && after.cmd_producer
            == before.cmd_producer && before.pending_restore->Some_0.seq <= cold.cmd_last_ack,
        step is Waiting ==> before.pending_restore->Some_0.seq > cold.cmd_last_ack,
        step is Sent || step is Retained <==> before.pending_restore is Some
            && before.pending_restore->Some_0.txn is Some,
        cold_after.cmd_last_ack == cold.cmd_last_ack,
        cold_after.pending_model == cold.pending_model,
{
    crate::command_scheduler::lemma_seq_after_adds(cold.cmd_next_seq, 0, 0);
}

/// Parameters that had found the ring full are sent as they were, and then no longer wait; where it
/// is still full they go on waiting, and the audio thread is made to read the stored values.
pub proof fn law_waiting_parameters_are_sent_as_they_were(
    before: &NamClapMainThread,
    shared: &GuiSharedState,
    after: &NamClapMainThread,
    shared_after: &GuiSharedState,
)
    requires
        NamClapMainThread::params_flushed(before, shared, after, shared_after),
    ensures
        shared.cold.in_flight_params is None ==> *after == *before && *shared_after == *shared,
        shared.cold.in_flight_params is Some && shared_after.cold.in_flight_params is None ==> {
            let end = after.cmd_producer.end();
            &&& end.pushed == before.cmd_producer.end().pushed + 1
            &&& command_at(end.ring, before.cmd_producer.end().pushed) == ClapParamPayload::Params(
                shared.cold.in_flight_params->Some_0,
            )
            &&& shared_after.ui_to_rt == shared.ui_to_rt
        },
        shared_after.cold.in_flight_params is Some ==> {
            &&& shared_after.cold.in_flight_params == shared.cold.in_flight_params
            &&& shared_after.ui_to_rt.gui_param_generation != shared.ui_to_rt.gui_param_generation
            &&& after.cmd_producer.end().pushed == before.cmd_producer.end().pushed
        },
        shared_after.ui_to_rt.param_input_gain == shared.ui_to_rt.param_input_gain,
        shared_after.ui_to_rt.param_output_gain == shared.ui_to_rt.param_output_gain,
{
    if shared.cold.in_flight_params is Some && shared_after.cold.in_flight_params is None {
        let items = seq![ClapParamPayload::Params(shared.cold.in_flight_params->Some_0)];
        assert(items[0] == ClapParamPayload::Params(shared.cold.in_flight_params->Some_0));
        assert((before.cmd_producer.end().pushed + 0) as nat == before.cmd_producer.end().pushed);
    }
}

/// The generation of the GUI's changes is never the same twice in a row.
pub proof fn law_every_change_has_a_new_generation(ui: UiToRt, cold: ColdShared)
    ensures
        next_gui_generation(ui) != ui.gui_param_generation,
        ui.gui_param_generation < u32::MAX ==> next_gui_generation(ui) == ui.gui_param_generation
            + 1,
        cold.next_model_generation() != cold.model_generation,
        cold.model_generation < u64::MAX ==> cold.next_model_generation() == cold.model_generation
            + 1,
{
}

/// A slice is cut exactly where the audio thread has asked for one of at least four channels and the
/// full weights of a WaveNet are there: of that model, with as many channels as were asked for, for
/// the generation that was running and the block size of the host.
pub proof fn law_slice_is_the_one_asked_for(cold: ColdShared)
    ensures
        slice_request(cold) is Some <==> {
            &&& cold.rt_status.flags & 0x8000 != 0
            &&& cold.rt_status.requested_slimmable_ch >= 4
            &&& cold.full_wavenet_model is Some
            &&& cold.full_wavenet_model->Some_0.wavenet is Some
        },
        slice_request(cold) is Some ==> {
            let slice = slice_request(cold)->Some_0;
            &&& Some(slice.model) == cold.full_wavenet_model
            &&& slice.target_ch == cold.rt_status.requested_slimmable_ch
            &&& slice.generation == cold.requested_slimmable_generation
            &&& slice.buffer_size == cold.buffer_size
        },
{
}

/// A slice that is sent carries the generation that it was asked for, so that one of another model
/// can be told. The wish is then settled; where the ring is full it stands.
pub proof fn law_slice_carries_its_generation(
    before: &NamClapMainThread,
    cold: &ColdShared,
    sliced: Option<ModelHandle>,
    after: &NamClapMainThread,
    cold_after: &ColdShared,
    rebuild: Rebuild,
)
    requires
        NamClapMainThread::slimmable_finished(before, cold, sliced, after, cold_after, rebuild),
    ensures
        rebuild is Sent ==> {
            let end = rebuild_write_end(before.slimmable_tx);
            &&& rebuild_write_end(after.slimmable_tx).pushed == end.pushed + 1
            &&& rebuild_at(end.ring, end.pushed).generation == cold.requested_slimmable_generation
            &&& Some(rebuild_at(end.ring, end.pushed).model) == sliced
            &&& slice_request(*cold) is Some
        },
        rebuild is Retry ==> *cold_after == *cold && after.requests@ == before.requests@.push(
            HostRequest::Callback,
        ),
        rebuild is Nothing <==> cold.rt_status.flags & 0x8000 == 0,
        rebuild is Sent || rebuild is Settled ==> cold_after.rt_status.flags & 0x8000 == 0,
        slice_request(*cold) is Some && sliced is None ==> rebuild is Settled
            && cold_after.rt_status.flags & 0x100 != 0,
        after.cmd_producer == before.cmd_producer,
        after.params == before.params,
        cold_after.full_wavenet_model == cold.full_wavenet_model,
        cold_after.cmd_next_seq == cold.cmd_next_seq,
{
    let flags = cold.rt_status.flags;
    assert((flags & !0x8000u64) & 0x8000 == 0) by (bit_vector);
    assert(((flags | 0x100u64) & !0x8000u64) & 0x100 != 0 && ((flags | 0x100u64) & !0x8000u64)
        & 0x8000 == 0) by (bit_vector);
}

/// Engines are built exactly where they were asked for, at the factor that was asked for, and those
/// that were built are sent, each on its side. The wish is then settled; where the ring is full it
/// stands.
pub proof fn law_engines_are_those_asked_for(
    before: &NamClapMainThread,
    cold: &ColdShared,
    engines: Option<(OversampleHandle, OversampleHandle)>,
    after: &NamClapMainThread,
    cold_after: &ColdShared,
    rebuild: Rebuild,
)
    requires
        NamClapMainThread::oversample_finished(before, cold, engines, after, cold_after, rebuild),
    ensures
        oversample_request(*cold) is Some <==> cold.rt_status.flags & 0x1_0000 != 0,
        oversample_request(*cold) is Some ==> oversample_request(*cold)->Some_0 == (
        if cold.rt_status.requested_os_factor == 1 {
            OversampleFactor::X2
        } else if cold.rt_status.requested_os_factor == 2 {
            OversampleFactor::X4
        } else {
            OversampleFactor::Off
        }),
        rebuild is Nothing <==> oversample_request(*cold) is None,
        rebuild is Settled <==> oversample_request(*cold) is Some && engines is None,
        rebuild is Sent ==> {
            let end = after.cmd_producer.end();
            &&& end.pushed > before.cmd_producer.end().pushed
            &&& command_at(end.ring, (end.pushed - 1) as nat) == (ClapParamPayload::SetOversample {
                os_l: engines->Some_0.0,
                os_r: engines->Some_0.1,
            })
        },
        rebuild is Sent || rebuild is Settled ==> cold_after.rt_status.flags & 0x1_0000 == 0,
        rebuild is Retry ==> cold_after.rt_status == cold.rt_status && after.requests@
            == before.requests@.push(HostRequest::Callback),
        after.params == before.params,
{
    let flags = cold.rt_status.flags;
    assert((flags & !0x1_0000u64) & 0x1_0000 == 0) by (bit_vector);
    if rebuild is Sent {
        let cmd = ClapParamPayload::SetOversample {
            os_l: engines->Some_0.0,
            os_r: engines->Some_0.1,
        };
        let items = with_params_first(before.cmd_producer.pending(), cmd);
        assert(items[items.len() - 1] == cmd);
    }
}

/// A path that was chosen is loaded as it is. A dialog that ended without a choice loads nothing,
/// and ends the wait of the GUI; nothing else does.
pub proof fn law_chosen_path_is_loaded(
    choice: Choice,
    path: String,
    cancelled: Seq<char>,
    timed_out: Seq<char>,
    cold: ColdShared,
)
    requires
        is_choice(choice, Some(path), cancelled, timed_out),
    ensures
        path@ != cancelled && path@ != timed_out <==> choice == Choice::Load(path),
        path@ == cancelled ==> choice is Cancelled,
        path@ == timed_out && path@ != cancelled ==> choice is TimedOut,
        ends_wait(choice) <==> path@ == cancelled || path@ == timed_out,
        ends_wait(choice) ==> !model_choice_taken(cold, choice).ui_loading && !ir_choice_taken(
            cold,
            choice,
        ).ui_ir_loading,
        !ends_wait(choice) ==> model_choice_taken(cold, choice).ui_loading == cold.ui_loading
            && ir_choice_taken(cold, choice).ui_ir_loading == cold.ui_ir_loading,
{
}

/// Without a wish nothing is loaded. A wish that was taken is gone, and taking it changes nothing
/// but the wait of the GUI.
pub proof fn law_taken_wish_is_gone(
    choice: Choice,
    cancelled: Seq<char>,
    timed_out: Seq<char>,
    cold: ColdShared,
)
    ensures
        is_choice(choice, None, cancelled, timed_out) <==> choice is Nothing,
        !ends_wait(Choice::Nothing),
        model_choice_taken(cold, choice).ui_pending_model is None,
        ir_choice_taken(cold, choice).ui_pending_ir is None,
        model_choice_taken(cold, choice) == (ColdShared {
            ui_pending_model: None,
            ui_loading: model_choice_taken(cold, choice).ui_loading,
            ..cold
        }),
        ir_choice_taken(cold, choice) == (ColdShared {
            ui_pending_ir: None,
            ui_ir_loading: ir_choice_taken(cold, choice).ui_ir_loading,
            ..cold
        }),
{
}

/// A load that has ended ends the wait of the GUI. A failure is shown with its message and stays
/// shown; a success leaves the message alone. The host hears about the preset load that came first,
/// and about no other.
pub proof fn law_end_of_a_load_is_told(
    before: &NamClapMainThread,
    cold: &ColdShared,
    loaded: Result<Delivery, LoadFailure>,
    message: String,
    after: &NamClapMainThread,
    cold_after: &ColdShared,
)
    requires
        NamClapMainThread::model_choice_finished(before, cold, loaded, message, after, cold_after),
    ensures
        !cold_after.ui_loading,
        loaded is Err ==> cold_after.ui_load_error && cold_after.ui_load_error_msg == message,
        loaded is Ok ==> cold_after.ui_load_error == cold.ui_load_error
            && cold_after.ui_load_error_msg == cold.ui_load_error_msg,
        cold.pending_preset_load@.len() == 0 ==> after.requests@ == before.requests@
            && cold_after.pending_preset_load@.len() == 0,
        cold.pending_preset_load@.len() > 0 ==> {
            let preset = cold.pending_preset_load@[0];
            &&& after.requests@.len() == before.requests@.len() + 1
            &&& after.requests@.drop_last() == before.requests@
            &&& loaded is Ok ==> after.requests@.last() == HostRequest::PresetLoaded(preset)
            &&& loaded is Err ==> after.requests@.last() == HostRequest::PresetFailed(
                preset,
                loaded->Err_0,
            )
            &&& cold_after.pending_preset_load@.len() == cold.pending_preset_load@.len() - 1
            &&& forall|i: int|
                0 <= i < cold_after.pending_preset_load@.len() ==> #[trigger]
                    cold_after.pending_preset_load@[i] == cold.pending_preset_load@[i + 1]
        },
        *after == (NamClapMainThread { requests: after.requests, ..*before }),
        cold_after.model_generation == cold.model_generation,
        cold_after.ui_model_name == cold.ui_model_name,
{
    if cold.pending_preset_load@.len() > 0 {
        assert(after.requests@.drop_last() =~= before.requests@);
    }
}

/// The same of an impulse response: the wait ends, and a failure is shown with its message.
pub proof fn law_end_of_a_response_is_told(
    cold: ColdShared,
    loaded: Result<Delivery, LoadFailure>,
    message: String,
)
    ensures
        ({
            let after = ir_choice_closed(cold, loaded, message);
            &&& !after.ui_ir_loading
            &&& loaded is Err ==> after.ui_ir_load_error && after.ui_ir_load_error_msg == message
            &&& loaded is Ok ==> after.ui_ir_load_error == cold.ui_ir_load_error
                && after.ui_ir_load_error_msg == cold.ui_ir_load_error_msg
            &&& after == (ColdShared {
                ui_ir_loading: after.ui_ir_loading,
                ui_ir_load_error: after.ui_ir_load_error,
                ui_ir_load_error_msg: after.ui_ir_load_error_msg,
                ..cold
            })
        }),
{
}

/// A response that is installed is cleared with a restart, and forgotten at once; without one there
/// is nothing to do. Either way the wish is settled.
pub proof fn law_cleared_response_waits_for_a_restart(
    before: &NamClapMainThread,
    cold: &ColdShared,
    after: &NamClapMainThread,
    cold_after: &ColdShared,
    staged: bool,
)
    requires
        NamClapMainThread::ir_cleared(before, cold, after, cold_after, staged),
    ensures
        staged <==> cold.ui_clear_ir && cold.current_cabsim_latency != 0,
        !cold_after.ui_clear_ir,
        staged ==> {
            &&& after.staged_swap is Some
            &&& after.staged_swap->Some_0.ir is Some
            &&& after.staged_swap->Some_0.ir->Some_0 is None
            &&& before.staged_swap is Some ==> after.staged_swap->Some_0.model
                == before.staged_swap->Some_0.model
            &&& after.requests@ == before.requests@.push(HostRequest::Restart)
            &&& cold_after.ir_path is None
            &&& cold_after.ir_hash is None
            &&& cold_after.ir_raw_samples is None
            &&& cold_after.ir_raw_sample_rate == 0
        },
        !staged ==> *after == *before && cold_after.ir_path == cold.ir_path && cold_after.ir_hash
            == cold.ir_hash && cold_after.ir_raw_samples == cold.ir_raw_samples,
        after.params == before.params,
        after.cmd_producer == before.cmd_producer,
        cold_after.model_generation == cold.model_generation,
{
}

/// The host is told about another latency exactly where it has changed since it was told last.
pub proof fn law_host_hears_of_another_latency(
    before: &NamClapMainThread,
    shared: &GuiSharedState,
    after: &NamClapMainThread,
    log_stale: bool,
)
    requires
        NamClapMainThread::changes_reported(before, shared, after, log_stale),
    ensures
        shared.rt_to_ui.current_latency != before.last_reported_latency ==> after.requests@
            == before.requests@.push(HostRequest::LatencyChanged),
        shared.rt_to_ui.current_latency == before.last_reported_latency ==> after.requests@
            == before.requests@,
        after.last_reported_latency == shared.rt_to_ui.current_latency,
        after.last_reported_cabsim_tail == shared.rt_to_ui.cabsim_tail_samples,
        after.last_seen_slimmable_stale == shared.cold.slimmable_stale_discarded_total,
        log_stale <==> shared.cold.slimmable_stale_discarded_total
            != before.last_seen_slimmable_stale,
        after.params == before.params,
        after.staged_swap == before.staged_swap,
        after.cmd_producer == before.cmd_producer,
{
}

/// Bookkeeping leaves everything alone but what it keeps: what was disposed of is counted, the
/// flags that are raised are remembered, and a wish that was dealt with is settled.
pub proof fn law_bookkeeping_keeps_to_itself(cold: ColdShared, drained: u32)
    ensures
        cold.rt_status.drains + drained <= u32::MAX ==> drain_recorded(
            cold,
            drained,
        ).rt_status.drains == cold.rt_status.drains + drained,
        drain_recorded(cold, drained).rt_status.flags == cold.rt_status.flags,
        drain_recorded(cold, drained).rt_status.flags_seen & cold.rt_status.flags
            == cold.rt_status.flags,
        drain_recorded(cold, drained).rt_status.flags_seen & cold.rt_status.flags_seen
            == cold.rt_status.flags_seen,
        drain_recorded(cold, drained) == (ColdShared {
            rt_status: RtStatusFlags {
                drains: drain_recorded(cold, drained).rt_status.drains,
                flags_seen: drain_recorded(cold, drained).rt_status.flags_seen,
                ..cold.rt_status
            },
            ..cold
        }),
        reset_failure_noted(cold) == (ColdShared {
            rt_status: RtStatusFlags {
                flags: cold.rt_status.flags & !0x2_0000u64,
                ..cold.rt_status
            },
            ..cold
        }),
        slice_settled(cold) == (ColdShared {
            rt_status: RtStatusFlags {
                flags: cold.rt_status.flags & !0x8000u64,
                ..cold.rt_status
            },
            ..cold
        }),
        oversample_settled(cold) == (ColdShared {
            rt_status: RtStatusFlags {
                flags: cold.rt_status.flags & !0x1_0000u64,
                ..cold.rt_status
            },
            ..cold
        }),
{
    let (flags, seen) = (cold.rt_status.flags, cold.rt_status.flags_seen);
    assert((seen | flags) & flags == flags && (seen | flags) & seen == seen) by (bit_vector);
}

/// A kept model can be sent exactly where the block size is known.
pub proof fn law_kept_model_waits_for_the_block_size(cold: ColdShared)
    ensures
        cold.buffer_size > 0 ==> sendable(cold) == cold.pending_model,
        cold.buffer_size == 0 ==> sendable(cold) is None,
{
}

/// Each report leads to the chore that comes next, and the round goes through all of them: what is
/// pending, disposal, upkeep, engines, the model, the impulse response.
pub proof fn law_round_takes_every_chore(chore: Chore, report: Report)
    requires
        chore.stage() == report.stage() + 1,
    ensures
        report is Begin <==> chore is Prepare,
        report is Prepared <==> chore is DrainGarbage,
        report is Drained <==> chore is Upkeep,
        report is Upkept <==> chore is BuildEngines,
        report is EnginesBuilt <==> chore is AskModelDialog,
        report is ModelDialog <==> chore is LoadModel,
        report is ModelLoaded <==> chore is AskIrDialog,
        report is IrDialog <==> chore is LoadIr,
        report is IrLoaded <==> chore is Done,
{
}

/// A round begins with what waits. Where nothing does, nothing changes; a restore is announced as
/// visible or as sent only where one was on its way.
pub proof fn law_round_begins_with_what_waits(
    before: &NamClapMainThread,
    shared: &GuiSharedState,
    after: &NamClapMainThread,
    shared_after: &GuiSharedState,
    chore: Chore,
)
    requires
        NamClapMainThread::round_begun(before, shared, after, shared_after, chore),
    ensures
        chore is Prepare,
        chore->kept == sendable(shared_after.cold),
        chore->published ==> before.pending_restore is Some && after.pending_restore is None,
        chore->restore_sent ==> before.pending_restore is Some && after.pending_restore is Some
            && after.pending_restore->Some_0.txn is None,
        !(chore->published && chore->restore_sent),
        before.pending_restore is None && shared.cold.in_flight_params is None ==> *after == *before
            && *shared_after == *shared,
        before.pending_restore is None ==> after.params == before.params,
        after.staged_swap == before.staged_swap,
        shared_after.cold.pending_model == shared.cold.pending_model,
        shared_after.cold.cmd_last_ack == shared.cold.cmd_last_ack,
{
    crate::command_scheduler::lemma_seq_after_adds(shared.cold.cmd_next_seq, 0, 0);
}

/// A chosen model that was loaded is the one that is saved, and its wait is over; a failure is shown
/// with its message.
pub proof fn law_chosen_model_is_loaded_and_told(
    before: &NamClapMainThread,
    cold: &ColdShared,
    load: ModelLoad,
    message: String,
    after: &NamClapMainThread,
    cold_after: &ColdShared,
    loaded: Result<Delivery, LoadFailure>,
)
    requires
        NamClapMainThread::chosen_model_loaded(
            before,
            cold,
            load,
            message,
            after,
            cold_after,
            loaded,
        ),
    ensures
        !cold_after.ui_loading,
        loaded is Ok ==> after.params.model_path == Some(load.path) && after.params.model_hash
            == load.hash,
        loaded is Err ==> cold_after.ui_load_error && cold_after.ui_load_error_msg == message,
        loaded is Ok && cold_after.pending_model != cold.pending_model ==> cold_after.pending_model
            is Some && cold_after.pending_model->Some_0.model == load.build->Some_0.model,
        load.build is None ==> loaded == Err::<Delivery, LoadFailure>(LoadFailure::ModelBuild)
            && after.params == before.params,
{
}

/// The end of a round: the response that was chosen is loaded and told, a wish to clear it is
/// settled, and the host has heard of the latency.
pub proof fn law_round_ends_with_everything_told(
    before: &NamClapMainThread,
    shared: &GuiSharedState,
    report: Option<(IrLoad, String)>,
    after: &NamClapMainThread,
    shared_after: &GuiSharedState,
    loaded: Option<Result<Delivery, LoadFailure>>,
    ir_cleared: bool,
    log_stale: bool,
)
    requires
        NamClapMainThread::round_ended(
            before,
            shared,
            report,
            after,
            shared_after,
            loaded,
            ir_cleared,
            log_stale,
        ),
    ensures
        report is Some <==> loaded is Some,
        !shared_after.cold.ui_clear_ir,
        report is Some ==> !shared_after.cold.ui_ir_loading,
        report is Some && loaded->Some_0 is Err ==> shared_after.cold.ui_ir_load_error,
        report is Some && loaded->Some_0 is Ok && !(loaded->Some_0->Ok_0 is Retained)
            && !ir_cleared ==> shared_after.cold.ir_path == Some(report->Some_0.0.path)
            && after.params.ir_path == Some(report->Some_0.0.path),
        ir_cleared ==> shared_after.cold.ir_path is None && shared_after.cold.ir_raw_samples is None,
        ir_cleared <==> shared.cold.ui_clear_ir && shared.cold.current_cabsim_latency != 0,
        after.last_reported_latency == shared_after.rt_to_ui.current_latency,
        report is None && !ir_cleared ==> after.params == before.params
            && shared_after.cold.ir_path == shared.cold.ir_path,
{
}

} // verus!
