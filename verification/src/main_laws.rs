//! What holds of the main thread as a whole.

use vstd::prelude::*;
use crate::command_scheduler::with_params_first;
use crate::main_thread::{
    load_command, retained, with_ir, with_model, without_ir, without_model, Delivery, IrLoad,
    LoadFailure, ModelLoad, NamClapMainThread,
};
use crate::payload::{CabSimHandle, LoadModelPayload, ResamplerHandle, StreamHandle};
use crate::restore::{kept_command, Flush, RestoreStep};
use crate::ring::command_at;
use crate::shared::{ColdShared, GuiSharedState, StagedSwap};

verus! {

/// A model that was kept and made ready is not lost: it is the last command in the ring, or it
/// is still kept.
pub proof fn law_kept_model_is_not_lost(
    before: &NamClapMainThread,
    cold: &ColdShared,
    resampler: ResamplerHandle,
    stream: StreamHandle,
    after: &NamClapMainThread,
    cold_after: &ColdShared,
    flushed: Result<Flush, LoadFailure>,
)
    requires
        NamClapMainThread::model_flushed(
            before,
            cold,
            Some(resampler),
            Some(stream),
            true,
            after,
            cold_after,
            flushed,
        ),
        cold.pending_model is Some,
    ensures
        cold_after.pending_model == cold.pending_model || {
            let end = after.cmd_producer.end();
            &&& cold_after.pending_model is None
            &&& end.pushed > before.cmd_producer.end().pushed
            &&& command_at(end.ring, (end.pushed - 1) as nat) == kept_command(
                cold.pending_model->Some_0,
                resampler,
                stream,
            )
        },
{
    let kept = cold.pending_model->Some_0;
    let items = with_params_first(
        before.cmd_producer.pending(),
        kept_command(kept, resampler, stream),
    );
    if flushed == Ok::<Flush, LoadFailure>(Flush::Sent) {
        assert(items.last() == kept_command(kept, resampler, stream));
        assert(items[items.len() - 1] == items.last());
    }
}

/// A model that was loaded into an active plug-in is not lost: it is the last command in the
/// ring, it is kept, or it waits for the restart that the host was asked for.
pub proof fn law_loaded_model_is_not_lost(
    before: &NamClapMainThread,
    cold: &ColdShared,
    load: ModelLoad,
    after: &NamClapMainThread,
    cold_after: &ColdShared,
    loaded: Result<Delivery, LoadFailure>,
)
    requires
        NamClapMainThread::model_loaded(before, cold, load, after, cold_after, loaded),
        cold.buffer_size > 0,
        loaded is Ok,
    ensures
        ({
            let p = load.payload(cold.next_model_generation());
            let end = after.cmd_producer.end();
            match loaded->Ok_0 {
                Delivery::Sent => {
                    &&& end.pushed > before.cmd_producer.end().pushed
                    &&& command_at(end.ring, (end.pushed - 1) as nat) == load_command(p)
                },
                Delivery::Retained => cold_after.pending_model == Some(
                    retained(p, load.build->Some_0.sample_rate),
                ),
                Delivery::Staged => after.staged_swap is Some
                    && after.staged_swap->Some_0.model == Some(p),
                Delivery::Deferred => false,
            }
        }),
{
    let p = load.payload(cold.next_model_generation());
    let items = with_params_first(before.cmd_producer.pending(), load_command(p));
    if loaded->Ok_0 is Sent {
        assert(items.last() == load_command(p));
        assert(items[items.len() - 1] == items.last());
    }
}

/// A model that the user loads into an active plug-in overtakes a restore that waits for a
/// restart, and a model that does.
pub proof fn law_latest_model_wins(
    before: &NamClapMainThread,
    cold: &ColdShared,
    load: ModelLoad,
    after: &NamClapMainThread,
    cold_after: &ColdShared,
    loaded: Result<Delivery, LoadFailure>,
)
    requires
        NamClapMainThread::model_loaded(before, cold, load, after, cold_after, loaded),
        cold.buffer_size > 0,
        loaded is Ok,
    ensures
        after.staged_restore is None,
        after.staged_spec().model == (if loaded->Ok_0 is Staged {
            Some(load.payload(cold.next_model_generation()))
        } else {
            None
        }),
        before.staged_restore is None ==> after.staged_spec().ir == before.staged_spec().ir,
{
}

/// An impulse response that the user loads into an active plug-in overtakes a restore that
/// waits for a restart, and a response that does.
pub proof fn law_latest_ir_wins(
    before: &NamClapMainThread,
    cold: &ColdShared,
    load: IrLoad,
    after: &NamClapMainThread,
    cold_after: &ColdShared,
    loaded: Result<Delivery, LoadFailure>,
)
    requires
        NamClapMainThread::ir_loaded(before, cold, load, after, cold_after, loaded),
        cold.buffer_size > 0,
        loaded is Ok,
    ensures
        after.staged_restore is None,
        after.staged_spec().ir == (if loaded->Ok_0 is Staged {
            Some(load.adapter)
        } else {
            None
        }),
        before.staged_restore is None ==> after.staged_spec().model == before.staged_spec().model,
{
}

/// Of swaps that wait for a restart the latest wins, for the model and for the impulse response
/// each, and neither disturbs the other.
pub proof fn law_staged_swaps_coalesce(
    staged: Option<StagedSwap>,
    first: LoadModelPayload,
    second: LoadModelPayload,
    ir: Option<CabSimHandle>,
)
    ensures
        with_model(with_model(staged, first), second) == with_model(staged, second),
        with_ir(with_model(staged, second), ir) == with_model(with_ir(staged, ir), second),
        without_model(with_model(None, second)) is None,
        without_model(with_model(with_ir(None, ir), second)) == with_ir(None, ir),
        without_ir(with_ir(with_model(None, second), ir)) == with_model(None, second),
{
}

/// The user sees an impulse response only once it is on its way or sure to be installed: where
/// the ring was full nothing but the request remains.
pub proof fn law_ir_is_shown_only_once_sent(
    before: &NamClapMainThread,
    cold: &ColdShared,
    load: IrLoad,
    after: &NamClapMainThread,
    cold_after: &ColdShared,
    loaded: Result<Delivery, LoadFailure>,
)
    requires
        NamClapMainThread::ir_loaded(before, cold, load, after, cold_after, loaded),
    ensures
        loaded is Err || loaded->Ok_0 is Retained ==> {
            &&& cold_after.ir_path == cold.ir_path
            &&& cold_after.ir_hash == cold.ir_hash
            &&& cold_after.ir_raw_samples == cold.ir_raw_samples
            &&& after.params.ir_path == before.params.ir_path
            &&& after.params.ir_hash == before.params.ir_hash
        },
        loaded is Ok && loaded->Ok_0 is Retained ==> cold_after.ui_pending_ir == Some(load.path),
        loaded is Ok && !(loaded->Ok_0 is Retained) ==> {
            &&& cold_after.ir_path is Some
            &&& cold_after.ir_hash is Some
        },
{
}

/// A restore becomes visible exactly when the acknowledgment of the audio thread covers the
/// number that its command was sent under, and then only once.
pub proof fn law_restore_is_visible_once_acknowledged(
    before: &NamClapMainThread,
    cold: &ColdShared,
    sent: &NamClapMainThread,
    cold_sent: &ColdShared,
    later: &ColdShared,
    after: &NamClapMainThread,
    cold_after: &ColdShared,
    step: RestoreStep,
    last: &NamClapMainThread,
    cold_last: &ColdShared,
    last_step: RestoreStep,
)
    requires
        NamClapMainThread::restore_flushed(before, cold, sent, cold_sent, RestoreStep::Sent),
        NamClapMainThread::restore_flushed(sent, later, after, cold_after, step),
        NamClapMainThread::restore_flushed(after, cold_after, last, cold_last, last_step),
    ensures
        before.pending_restore is Some,
        step is Publish <==> cold_sent.cmd_next_seq <= later.cmd_last_ack,
        step is Publish ==> step == RestoreStep::Publish(before.pending_restore->Some_0.publish),
        step is Publish ==> last_step is Idle,
        !(step is Publish) ==> step is Waiting,
{
}

/// A change is reported to the host, and a discarded rebuild to the log, exactly once.
pub proof fn law_changes_are_reported_once(
    before: &NamClapMainThread,
    shared: &GuiSharedState,
    after: &NamClapMainThread,
    log_stale: bool,
    last: &NamClapMainThread,
    log_again: bool,
)
    requires
        NamClapMainThread::changes_reported(before, shared, after, log_stale),
        NamClapMainThread::changes_reported(after, shared, last, log_again),
    ensures
        !log_again,
        last.requests@ == after.requests@,
        after.last_reported_latency == shared.rt_to_ui.current_latency,
{
}

} // verus!
