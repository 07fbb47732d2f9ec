//! What loading and clearing of models and impulse responses amounts to: what is sent, staged or
//! kept, what is shown, and what is saved.

use vstd::prelude::*;
use crate::command_scheduler::with_params_first;
use crate::main_thread::{
    cleared_payload, host_rate_spec, listed, load_command, next_counter, retained, searched,
    with_ir, with_model, without_ir, without_model, Delivery, HostRequest, IrLoad, LoadFailure,
    ModelLoad, NamClapMainThread,
};
use crate::params::ProcessingParams;
use crate::payload::{
    CabSimHandle, ClapParamPayload, LoadModelPayload, ResamplerHandle, StreamHandle,
};
use crate::restore::{kept_command, Flush};
use crate::ring::command_at;
use crate::shared::{ColdShared, StagedSwap};

verus! {

/// A model that is sent is the last command in the ring, as it was built: with its own resampler and
/// stream, its own input and output calibration, and the next generation. Parameters that were
/// waiting go before it.
pub proof fn law_sent_model_is_the_one_built(
    before: &NamClapMainThread,
    cold: &ColdShared,
    load: ModelLoad,
    after: &NamClapMainThread,
    cold_after: &ColdShared,
)
    requires
        NamClapMainThread::model_loaded(
            before,
            cold,
            load,
            after,
            cold_after,
            Ok::<Delivery, LoadFailure>(Delivery::Sent),
        ),
    ensures
        ({
            let start = before.cmd_producer.end();
            let end = after.cmd_producer.end();
            let built = load.build->Some_0;
            let model = ClapParamPayload::LoadModel {
                generation: cold_after.model_generation,
                model_l: built.model,
                new_resampler: load.resampler->Some_0,
                new_stream: load.stream->Some_0,
                input_mult_adj: built.input_mult_adj,
                output_mult_adj: built.output_mult_adj,
            };
            &&& end.ring == start.ring
            &&& command_at(end.ring, (end.pushed - 1) as nat) == model
            &&& before.cmd_producer.pending() is None ==> end.pushed == start.pushed + 1
            &&& before.cmd_producer.pending() is Some ==> {
                &&& end.pushed == start.pushed + 2
                &&& command_at(end.ring, start.pushed) == ClapParamPayload::Params(
                    before.cmd_producer.pending()->Some_0,
                )
            }
            &&& after.cmd_producer.pending() is None
            &&& after.staged_swap is Some ==> after.staged_swap->Some_0.model is None
        }),
{
    let p = load.payload(cold.next_model_generation());
    let items = with_params_first(before.cmd_producer.pending(), load_command(p));
    assert(items[items.len() - 1] == load_command(p));
    assert(items[0] == items[0]);
    assert((before.cmd_producer.end().pushed + 0) as nat == before.cmd_producer.end().pushed);
}

/// A model that waits for a restart is staged as it was built, and the host is asked for the
/// restart; a cab-sim that was staged before stays staged.
pub proof fn law_staged_model_is_the_one_built(
    before: &NamClapMainThread,
    cold: &ColdShared,
    load: ModelLoad,
    after: &NamClapMainThread,
    cold_after: &ColdShared,
)
    requires
        NamClapMainThread::model_loaded(
            before,
            cold,
            load,
            after,
            cold_after,
            Ok::<Delivery, LoadFailure>(Delivery::Staged),
        ),
    ensures
        after.staged_swap is Some,
        after.staged_swap->Some_0.model is Some,
        ({
            let swap = after.staged_swap->Some_0.model->Some_0;
            let built = load.build->Some_0;
            &&& swap.generation == cold_after.model_generation
            &&& swap.model_l == built.model
            &&& Some(swap.new_resampler) == load.resampler
            &&& Some(swap.new_stream) == load.stream
            &&& swap.input_mult_adj == built.input_mult_adj
            &&& swap.output_mult_adj == built.output_mult_adj
        }),
        before.staged_swap is Some ==> after.staged_swap->Some_0.ir == before.staged_swap->Some_0.ir,
        before.staged_swap is None ==> after.staged_swap->Some_0.ir is None,
        after.requests@.contains(HostRequest::Restart),
        after.cmd_producer == before.cmd_producer,
        cold_after.pending_model == cold.pending_model,
{
    let n = before.requests@.len() as int;
    assert(after.requests@[n] == HostRequest::Restart);
}

/// A model that cannot be sent yet is kept as it was built, with its rate and its calibration.
pub proof fn law_kept_model_is_the_one_built(
    before: &NamClapMainThread,
    cold: &ColdShared,
    load: ModelLoad,
    after: &NamClapMainThread,
    cold_after: &ColdShared,
    loaded: Result<Delivery, LoadFailure>,
)
    requires
        NamClapMainThread::model_loaded(before, cold, load, after, cold_after, loaded),
        loaded == Ok::<Delivery, LoadFailure>(Delivery::Retained) || loaded == Ok::<
            Delivery,
            LoadFailure,
        >(Delivery::Deferred),
    ensures
        cold_after.pending_model is Some,
        ({
            let kept = cold_after.pending_model->Some_0;
            let built = load.build->Some_0;
            &&& kept.generation == cold_after.model_generation
            &&& kept.model == built.model
            &&& kept.model_rate == built.sample_rate
            &&& kept.input_mult_adj == built.input_mult_adj
            &&& kept.output_mult_adj == built.output_mult_adj
        }),
        loaded->Ok_0 is Retained ==> after.requests@ == before.requests@.push(
            HostRequest::Callback,
        ),
        loaded->Ok_0 is Deferred ==> after.cmd_producer == before.cmd_producer,
{
    assert(before.requests@ + seq![HostRequest::Callback] =~= before.requests@.push(
        HostRequest::Callback,
    ));
}

/// Where a model goes: before the first activation it is kept; in an active plug-in it waits for a
/// restart exactly where its stream changes the latency, and goes to the audio thread otherwise.
pub proof fn law_latency_decides_where_a_model_goes(
    before: &NamClapMainThread,
    cold: &ColdShared,
    load: ModelLoad,
    after: &NamClapMainThread,
    cold_after: &ColdShared,
    delivery: Delivery,
)
    requires
        NamClapMainThread::model_loaded(
            before,
            cold,
            load,
            after,
            cold_after,
            Ok::<Delivery, LoadFailure>(delivery),
        ),
    ensures
        cold.buffer_size == 0 <==> delivery is Deferred,
        delivery is Staged <==> cold.buffer_size > 0 && load.stream->Some_0.latency_samples
            != cold.current_stream_latency,
        delivery is Sent || delivery is Retained <==> cold.buffer_size > 0
            && load.stream->Some_0.latency_samples == cold.current_stream_latency,
        delivery is Retained ==> after.cmd_producer.end().refusals
            == before.cmd_producer.end().refusals + 1,
        delivery is Sent ==> after.cmd_producer.end().refusals
            == before.cmd_producer.end().refusals,
{
}

/// A model that was adopted is the one that is saved and shown, with its path, its name, its digest
/// and its rate. The directory is among the search paths. A generation of its own tells it from the
/// one before.
pub proof fn law_adopted_model_is_saved_and_shown(
    before: &NamClapMainThread,
    cold: &ColdShared,
    load: ModelLoad,
    after: &NamClapMainThread,
    cold_after: &ColdShared,
    delivery: Delivery,
)
    requires
        NamClapMainThread::model_loaded(
            before,
            cold,
            load,
            after,
            cold_after,
            Ok::<Delivery, LoadFailure>(delivery),
        ),
    ensures
        after.params.model_path == Some(load.path),
        after.params.model_basename == load.basename,
        after.params.model_hash == load.hash,
        load.hash is Some,
        after.params == (ProcessingParams {
            model_path: after.params.model_path,
            model_basename: after.params.model_basename,
            model_hash: after.params.model_hash,
            model_search_paths: after.params.model_search_paths,
            ..before.params
        }),
        cold_after.model_sample_rate == load.build->Some_0.sample_rate,
        cold_after.ui_model_info == Some(load.build->Some_0.info),
        cold_after.model_generation != cold.model_generation,
        cold.model_generation < u64::MAX ==> cold_after.model_generation == cold.model_generation
            + 1,
        cold_after.ui_model_metadata is Some,
        cold_after.ui_model_metadata->Some_0.architecture@ == load.build->Some_0.architecture@,
        cold_after.ui_model_metadata->Some_0.topology@ == load.build->Some_0.topology@,
        cold_after.ui_model_metadata->Some_0.sample_rate == load.build->Some_0.sample_rate,
        !(delivery is Retained) ==> cold_after.model_load_counter != cold.model_load_counter,
        !(delivery is Retained) && cold.model_load_counter < u32::MAX
            ==> cold_after.model_load_counter == cold.model_load_counter + 1,
        !(delivery is Retained) && load.basename is Some ==> cold_after.ui_model_name@
            == load.basename->Some_0@,
        delivery is Retained ==> cold_after.model_load_counter == cold.model_load_counter
            && cold_after.ui_model_name == cold.ui_model_name,
        load.build->Some_0.model->Some_0.wavenet is Some ==> cold_after.full_wavenet_model
            == load.build->Some_0.full_wavenet,
        load.build->Some_0.model->Some_0.wavenet is None ==> cold_after.full_wavenet_model is None,
        cold_after.sample_rate == cold.sample_rate,
        cold_after.buffer_size == cold.buffer_size,
        cold_after.ir_path == cold.ir_path,
        cold_after.ir_hash == cold.ir_hash,
        cold_after.rt_status == cold.rt_status,
        cold_after.cmd_last_ack == cold.cmd_last_ack,
{
}

/// A load fails with the first step that failed, and succeeds where none did; building a stream and
/// a resampler counts only for an active plug-in. A model without a digest is not adopted: nothing
/// changes at all.
pub proof fn law_first_failure_decides(
    before: &NamClapMainThread,
    cold: &ColdShared,
    load: ModelLoad,
    after: &NamClapMainThread,
    cold_after: &ColdShared,
    loaded: Result<Delivery, LoadFailure>,
)
    requires
        NamClapMainThread::model_loaded(before, cold, load, after, cold_after, loaded),
    ensures
        ({
            let read = load.build is Some;
            let holds = read && load.build->Some_0.model is Some;
            let converts = holds && load.probe_ok;
            let known = converts && load.hash is Some;
            let active = cold.buffer_size > 0;
            &&& loaded == Err::<Delivery, LoadFailure>(LoadFailure::ModelBuild) <==> !read
            &&& loaded == Err::<Delivery, LoadFailure>(LoadFailure::ModelMissing) <==> read
                && !holds
            &&& loaded == Err::<Delivery, LoadFailure>(LoadFailure::ResamplerProbe) <==> holds
                && !converts
            &&& loaded == Err::<Delivery, LoadFailure>(LoadFailure::ModelHash) <==> converts
                && !known
            &&& loaded == Err::<Delivery, LoadFailure>(LoadFailure::Resampler) <==> known && active
                && load.resampler is None
            &&& loaded == Err::<Delivery, LoadFailure>(LoadFailure::ModelResize) <==> known
                && active && load.resampler is Some && !load.resized
            &&& loaded == Err::<Delivery, LoadFailure>(LoadFailure::Stream) <==> known && active
                && load.resampler is Some && load.resized && load.stream is None
            &&& loaded is Ok <==> known && (active ==> load.resampler is Some && load.resized
                && load.stream is Some)
            &&& !known ==> *after == *before && *cold_after == *cold
            &&& loaded is Err ==> after.cmd_producer == before.cmd_producer && after.requests
                == before.requests && after.staged_swap == before.staged_swap
        }),
{
}

/// A directory is added to the search paths once, at the end, and no other one is added or lost.
pub proof fn law_search_paths_grow_by_the_directory(
    before: Seq<String>,
    after: Seq<String>,
    parent: String,
    k: int,
)
    requires
        searched(before, after, Some(parent)),
    ensures
        searched(before, before, None),
        0 <= k < before.len() ==> after[k] == before[k],
        exists|i: int| 0 <= i < after.len() && (#[trigger] after[i])@ == parent@,
        after.len() == before.len() || after.len() == before.len() + 1 && after.last() == parent,
        listed(before, parent) ==> after.len() == before.len(),
        0 <= k < before.len() && before[k]@ == parent@ ==> listed(before, parent) && after.len()
            == before.len(),
{
    if after.len() == before.len() + 1 {
        assert(after[before.len() as int]@ == parent@);
    } else {
        let i = choose|i: int| 0 <= i < before.len() && (#[trigger] before[i])@ == parent@;
        assert(after[i]@ == parent@);
    }
}

/// An impulse response that is sent is the last command in the ring, with the adapter that was built
/// for it.
pub proof fn law_sent_response_is_the_one_built(
    before: &NamClapMainThread,
    cold: &ColdShared,
    load: IrLoad,
    after: &NamClapMainThread,
    cold_after: &ColdShared,
)
    requires
        NamClapMainThread::ir_loaded(
            before,
            cold,
            load,
            after,
            cold_after,
            Ok::<Delivery, LoadFailure>(Delivery::Sent),
        ),
    ensures
        ({
            let end = after.cmd_producer.end();
            &&& end.pushed > before.cmd_producer.end().pushed
            &&& end.ring == before.cmd_producer.end().ring
            &&& command_at(end.ring, (end.pushed - 1) as nat) == (ClapParamPayload::LoadCabIr {
                adapter: load.adapter,
            })
            &&& after.cmd_producer.pending() is None
        }),
{
    let cmd = ClapParamPayload::LoadCabIr { adapter: load.adapter };
    let items = with_params_first(before.cmd_producer.pending(), cmd);
    assert(items[items.len() - 1] == cmd);
}

/// Where an impulse response goes: before the first activation it is only remembered; in an active
/// plug-in it goes to the audio thread exactly where it replaces one of the same latency, and waits
/// for a restart otherwise, with the adapter that was built for it.
pub proof fn law_latency_decides_where_a_response_goes(
    before: &NamClapMainThread,
    cold: &ColdShared,
    load: IrLoad,
    after: &NamClapMainThread,
    cold_after: &ColdShared,
    delivery: Delivery,
)
    requires
        NamClapMainThread::ir_loaded(
            before,
            cold,
            load,
            after,
            cold_after,
            Ok::<Delivery, LoadFailure>(delivery),
        ),
    ensures
        cold.buffer_size == 0 <==> delivery is Deferred,
        delivery is Staged <==> cold.buffer_size > 0 && cold.buffer_size
            != cold.current_cabsim_latency,
        delivery is Sent || delivery is Retained <==> cold.buffer_size > 0 && cold.buffer_size
            == cold.current_cabsim_latency,
        delivery is Staged ==> {
            &&& after.staged_swap is Some
            &&& after.staged_swap->Some_0.ir == Some(load.adapter)
            &&& before.staged_swap is Some ==> after.staged_swap->Some_0.model
                == before.staged_swap->Some_0.model
            &&& before.staged_swap is None ==> after.staged_swap->Some_0.model is None
            &&& after.requests@ == before.requests@.push(HostRequest::Restart)
        },
        delivery is Retained ==> {
            &&& after.requests@ == before.requests@.push(HostRequest::Callback)
            &&& cold_after.ui_pending_ir == Some(load.path)
        },
        delivery is Sent || delivery is Deferred ==> after.requests@ == before.requests@,
{
}

/// An impulse response that was adopted is the one that is saved, shown and stored: path, digest,
/// samples and rate. Nothing of the model changes.
pub proof fn law_adopted_response_is_saved_and_stored(
    before: &NamClapMainThread,
    cold: &ColdShared,
    load: IrLoad,
    after: &NamClapMainThread,
    cold_after: &ColdShared,
    delivery: Delivery,
)
    requires
        NamClapMainThread::ir_loaded(
            before,
            cold,
            load,
            after,
            cold_after,
            Ok::<Delivery, LoadFailure>(delivery),
        ),
    ensures
        !(delivery is Retained) ==> {
            &&& after.params.ir_path == Some(load.path)
            &&& after.params.ir_hash == load.hash
            &&& load.hash is Some
            &&& cold_after.ir_path == Some(load.path)
            &&& cold_after.ir_hash == load.hash
            &&& cold_after.ir_raw_samples == Some(load.read->Some_0.samples)
            &&& cold_after.ir_raw_sample_rate == load.read->Some_0.sample_rate
            &&& cold_after.ui_pending_ir == cold.ui_pending_ir
        },
        delivery is Retained ==> {
            &&& after.params == before.params
            &&& cold_after.ir_path == cold.ir_path
            &&& cold_after.ir_hash == cold.ir_hash
            &&& cold_after.ir_raw_samples == cold.ir_raw_samples
            &&& cold_after.ir_raw_sample_rate == cold.ir_raw_sample_rate
        },
        after.params.model_path == before.params.model_path,
        after.params.model_hash == before.params.model_hash,
        after.params.input_gain_db == before.params.input_gain_db,
        after.params.output_gain_db == before.params.output_gain_db,
        cold_after.model_generation == cold.model_generation,
        cold_after.pending_model == cold.pending_model,
        cold_after.model_sample_rate == cold.model_sample_rate,
        cold_after.buffer_size == cold.buffer_size,
{
}

/// Loading an impulse response fails with the first step that failed, and succeeds where none did;
/// the adapter counts only for an active plug-in. Then nothing is saved, shown, sent or staged.
pub proof fn law_first_failure_of_a_response_decides(
    before: &NamClapMainThread,
    cold: &ColdShared,
    load: IrLoad,
    after: &NamClapMainThread,
    cold_after: &ColdShared,
    loaded: Result<Delivery, LoadFailure>,
)
    requires
        NamClapMainThread::ir_loaded(before, cold, load, after, cold_after, loaded),
    ensures
        ({
            let read = load.read is Some;
            let known = read && load.hash is Some;
            let built = known && load.engine_ok;
            let active = cold.buffer_size > 0;
            &&& loaded == Err::<Delivery, LoadFailure>(LoadFailure::IrRead) <==> !read
            &&& loaded == Err::<Delivery, LoadFailure>(LoadFailure::IrHash) <==> read && !known
            &&& loaded == Err::<Delivery, LoadFailure>(LoadFailure::IrEngine) <==> known && !built
            &&& loaded == Err::<Delivery, LoadFailure>(LoadFailure::IrAdapter) <==> built && active
                && load.adapter is None
            &&& loaded is Ok <==> built && (active ==> load.adapter is Some)
            &&& loaded is Err ==> {
                &&& *cold_after == *cold
                &&& after.params == before.params
                &&& after.cmd_producer == before.cmd_producer
                &&& after.staged_swap == before.staged_swap
                &&& after.requests == before.requests
            }
        }),
{
}

/// A kept model that is sent goes as it was kept, with its generation and its calibration, and with
/// the resampler and the stream that were made for it. It is then no longer kept; where the ring is
/// full it stays.
pub proof fn law_kept_model_is_sent_as_it_was_kept(
    before: &NamClapMainThread,
    cold: &ColdShared,
    resampler: ResamplerHandle,
    stream: StreamHandle,
    resized: bool,
    after: &NamClapMainThread,
    cold_after: &ColdShared,
    flushed: Result<Flush, LoadFailure>,
)
    requires
        NamClapMainThread::model_flushed(
            before,
            cold,
            Some(resampler),
            Some(stream),
            resized,
            after,
            cold_after,
            flushed,
        ),
    ensures
        cold.pending_model is None ==> flushed == Ok::<Flush, LoadFailure>(Flush::Nothing),
        cold.pending_model is Some && cold.buffer_size == 0 ==> flushed == Ok::<Flush, LoadFailure>(
            Flush::NotYet,
        ),
        cold.pending_model is None || cold.buffer_size == 0 ==> *after == *before && *cold_after
            == *cold,
        flushed == Ok::<Flush, LoadFailure>(Flush::Sent) ==> {
            let kept = cold.pending_model->Some_0;
            let end = after.cmd_producer.end();
            &&& cold.pending_model is Some
            &&& cold.buffer_size > 0
            &&& cold_after.pending_model is None
            &&& end.ring == before.cmd_producer.end().ring
            &&& end.pushed > before.cmd_producer.end().pushed
            &&& command_at(end.ring, (end.pushed - 1) as nat) == (ClapParamPayload::LoadModel {
                generation: kept.generation,
                model_l: kept.model,
                new_resampler: resampler,
                new_stream: stream,
                input_mult_adj: kept.input_mult_adj,
                output_mult_adj: kept.output_mult_adj,
            })
        },
        flushed == Ok::<Flush, LoadFailure>(Flush::Retained) ==> {
            &&& cold_after.pending_model == cold.pending_model
            &&& after.requests@ == before.requests@.push(HostRequest::Callback)
            &&& after.cmd_producer.end().refusals == before.cmd_producer.end().refusals + 1
        },
        flushed is Err <==> cold.pending_model is Some && cold.buffer_size > 0
            && cold.pending_model->Some_0.model is Some && !resized,
        flushed is Err ==> flushed == Err::<Flush, LoadFailure>(LoadFailure::ModelResize)
            && cold_after.pending_model is None && cold_after.rt_status.flags
            == cold.rt_status.flags | 0x10,
{
    if flushed == Ok::<Flush, LoadFailure>(Flush::Sent) {
        let cmd = kept_command(cold.pending_model->Some_0, resampler, stream);
        let items = with_params_first(before.cmd_producer.pending(), cmd);
        assert(items[items.len() - 1] == cmd);
    }
}

/// The command of a swap, and the model that is kept of it, hold each of its values under its own
/// name.
pub proof fn law_swap_travels_unchanged(p: LoadModelPayload, model_rate: u32)
    ensures
        load_command(p) == (ClapParamPayload::LoadModel {
            generation: p.generation,
            model_l: p.model_l,
            new_resampler: p.new_resampler,
            new_stream: p.new_stream,
            input_mult_adj: p.input_mult_adj,
            output_mult_adj: p.output_mult_adj,
        }),
        retained(p, model_rate).generation == p.generation,
        retained(p, model_rate).model == p.model_l,
        retained(p, model_rate).model_rate == model_rate,
        retained(p, model_rate).input_mult_adj == p.input_mult_adj,
        retained(p, model_rate).output_mult_adj == p.output_mult_adj,
        kept_command(retained(p, model_rate), p.new_resampler, p.new_stream) == load_command(p),
{
}

/// To clear the model is to swap in none, at unit gain, with the resampler and the stream for
/// running without one.
pub proof fn law_cleared_model_is_none_at_unit_gain(
    generation: u64,
    resampler: ResamplerHandle,
    stream: StreamHandle,
)
    ensures
        cleared_payload(generation, resampler, stream).generation == generation,
        cleared_payload(generation, resampler, stream).model_l is None,
        cleared_payload(generation, resampler, stream).new_resampler == resampler,
        cleared_payload(generation, resampler, stream).new_stream == stream,
        cleared_payload(generation, resampler, stream).input_mult_adj == 0x3f80_0000,
        cleared_payload(generation, resampler, stream).output_mult_adj == 0x3f80_0000,
{
}

/// What is staged can be replaced or given up component by component, and nothing is left where
/// nothing is staged any more.
pub proof fn law_staged_components_are_independent(
    staged: Option<StagedSwap>,
    p: LoadModelPayload,
    ir: Option<CabSimHandle>,
)
    ensures
        with_model(staged, p)->Some_0.model == Some(p),
        with_ir(staged, ir)->Some_0.ir == Some(ir),
        with_model(staged, p) is Some && with_ir(staged, ir) is Some,
        staged is Some ==> with_model(staged, p)->Some_0.ir == staged->Some_0.ir,
        staged is Some ==> with_ir(staged, ir)->Some_0.model == staged->Some_0.model,
        staged is None ==> with_model(staged, p)->Some_0.ir is None,
        staged is None ==> with_ir(staged, ir)->Some_0.model is None,
        without_model(staged) is Some <==> staged is Some && staged->Some_0.ir is Some,
        without_model(staged) is Some ==> without_model(staged)->Some_0.model is None
            && without_model(staged)->Some_0.ir == staged->Some_0.ir,
        without_ir(staged) is Some <==> staged is Some && staged->Some_0.model is Some,
        without_ir(staged) is Some ==> without_ir(staged)->Some_0.ir is None && without_ir(
            staged,
        )->Some_0.model == staged->Some_0.model,
{
}

/// The rate of the host is taken as it is known, and 48 kHz stands in until it is. A counter moves
/// by one.
pub proof fn law_known_rate_counts(cold: ColdShared, n: u32)
    ensures
        cold.sample_rate != 0 ==> host_rate_spec(cold) == cold.sample_rate,
        cold.sample_rate == 0 ==> host_rate_spec(cold) == 48000,
        next_counter(n) != n,
        n < u32::MAX ==> next_counter(n) == n + 1,
{
}

/// Loading leaves alone what was reported to the host, a restore that is on its way and the ring of
/// rebuilt models, whatever comes of it.
pub proof fn law_load_leaves_reports_alone(
    before: &NamClapMainThread,
    cold: &ColdShared,
    load: ModelLoad,
    after: &NamClapMainThread,
    cold_after: &ColdShared,
    loaded: Result<Delivery, LoadFailure>,
    ir: IrLoad,
    ir_after: &NamClapMainThread,
    ir_cold_after: &ColdShared,
    ir_loaded: Result<Delivery, LoadFailure>,
)
    requires
        NamClapMainThread::model_loaded(before, cold, load, after, cold_after, loaded),
        NamClapMainThread::ir_loaded(before, cold, ir, ir_after, ir_cold_after, ir_loaded),
    ensures
        after.slimmable_tx == before.slimmable_tx,
        after.last_reported_latency == before.last_reported_latency,
        after.last_reported_cabsim_tail == before.last_reported_cabsim_tail,
        after.last_seen_slimmable_stale == before.last_seen_slimmable_stale,
        after.hugepage_synced == before.hugepage_synced,
        after.pending_restore == before.pending_restore,
        ir_after.slimmable_tx == before.slimmable_tx,
        ir_after.last_reported_latency == before.last_reported_latency,
        ir_after.pending_restore == before.pending_restore,
{
}

/// A kept model that cannot be made ready is given up, and the failure names what was missing first.
pub proof fn law_kept_model_needs_its_resources(
    before: &NamClapMainThread,
    cold: &ColdShared,
    resampler: Option<ResamplerHandle>,
    stream: Option<StreamHandle>,
    resized: bool,
    after: &NamClapMainThread,
    cold_after: &ColdShared,
    flushed: Result<Flush, LoadFailure>,
)
    requires
        NamClapMainThread::model_flushed(
            before,
            cold,
            resampler,
            stream,
            resized,
            after,
            cold_after,
            flushed,
        ),
        cold.pending_model is Some,
        cold.buffer_size > 0,
    ensures
        resampler is None ==> flushed == Err::<Flush, LoadFailure>(LoadFailure::Resampler),
        resampler is Some && stream is None ==> flushed == Err::<Flush, LoadFailure>(
            LoadFailure::Stream,
        ),
        flushed is Err ==> cold_after.pending_model is None && after.cmd_producer
            == before.cmd_producer && after.requests == before.requests,
        flushed is Ok ==> resampler is Some && stream is Some,
        after.params == before.params,
        after.staged_swap == before.staged_swap,
        after.staged_restore == before.staged_restore,
{
}

} // verus!
