//! What the main thread looks after whenever the host calls it: work that the audio thread has
//! asked for, wishes of the GUI, and news for the host.

use vstd::prelude::*;
use crate::command_scheduler::{lemma_seq_after_adds, with_params_first};
use crate::main_thread::{
    with_ir, Delivery, HostRequest, LoadFailure, NamClapMainThread,
};
use crate::params::OversampleFactor;
use crate::payload::{ClapParamPayload, ModelHandle, OversampleHandle, SlimmableRebuild};
use crate::ring::{push_rebuild, rebuild_at, rebuild_write_end, WriteEnd};
use crate::shared::{ColdShared, GuiSharedState, PendingPresetLoad};
use crate::status::{
    raised, RtStatusFlags, RT_STATUS_NEEDS_OS_REBUILD, RT_STATUS_NEEDS_SLIMMABLE_REBUILD,
    RT_STATUS_SLIMMABLE_RESET_FAILED, RT_STATUS_SLIMMABLE_SLICE_FAILED,
};

verus! {

/// Fewest channels that a WaveNet is sliced down to.
pub const MIN_SLIM_CHANNELS: u32 = 4;

/// `cold` once `drained` resources were disposed of.
pub open spec fn drain_recorded(cold: ColdShared, drained: u32) -> ColdShared {
    ColdShared {
        rt_status: RtStatusFlags {
            drains: ((cold.rt_status.drains + drained) % 0x1_0000_0000) as u32,
            flags_seen: cold.rt_status.flags_seen | cold.rt_status.flags,
            ..cold.rt_status
        },
        ..cold
    }
}

/// Records how many resources were disposed of, and which flags have ever been raised.
pub fn record_drain(cold: &mut ColdShared, drained: u32)
    ensures
        *final(cold) == drain_recorded(*old(cold), drained),
{
    cold.rt_status.drains = cold.rt_status.drains.wrapping_add(drained);
    cold.rt_status.flags_seen = cold.rt_status.flags_seen | cold.rt_status.flags;
}

/// `cold` once the failure to reset a submodel is noted.
pub open spec fn reset_failure_noted(cold: ColdShared) -> ColdShared {
    ColdShared {
        rt_status: cold.rt_status.without_flag(RT_STATUS_SLIMMABLE_RESET_FAILED),
        ..cold
    }
}

/// Whether a submodel could not be reset, which is to be logged once.
pub fn take_reset_failure(cold: &mut ColdShared) -> (failed: bool)
    ensures
        failed == raised(old(cold).rt_status.flags, RT_STATUS_SLIMMABLE_RESET_FAILED),
        *final(cold) == reset_failure_noted(*old(cold)),
{
    cold.rt_status.check_and_clear_flag(RT_STATUS_SLIMMABLE_RESET_FAILED)
}

/// A model that is to be sliced.
#[derive(Clone, Copy, Debug, PartialEq, Eq, Structural)]
pub struct SliceRequest {
    pub model: ModelHandle,
    pub target_ch: u32,
    /// Generation of the model that the audio thread was running when it asked.
    pub generation: u64,
    /// Block size to size the slice for; 0 while it is unknown.
    pub buffer_size: u32,
}

/// The slice that the audio thread has asked for, where it can be made at all.
pub open spec fn slice_request(cold: ColdShared) -> Option<SliceRequest> {
    if raised(cold.rt_status.flags, RT_STATUS_NEEDS_SLIMMABLE_REBUILD)
        && cold.rt_status.requested_slimmable_ch >= MIN_SLIM_CHANNELS
        && cold.full_wavenet_model is Some && cold.full_wavenet_model->Some_0.wavenet is Some {
        Some(
            SliceRequest {
                model: cold.full_wavenet_model->Some_0,
                target_ch: cold.rt_status.requested_slimmable_ch,
                generation: cold.requested_slimmable_generation,
                buffer_size: cold.buffer_size,
            },
        )
    } else {
        None
    }
}

/// Tells which model is to be sliced, if one is.
pub fn slimmable_work(cold: &ColdShared) -> (work: Option<SliceRequest>)
    ensures
        work == slice_request(*cold),
{
    if !cold.rt_status.check_flag(RT_STATUS_NEEDS_SLIMMABLE_REBUILD) {
        return None;
    }
    if cold.rt_status.requested_slimmable_ch < MIN_SLIM_CHANNELS {
        return None;
    }
    match cold.full_wavenet_model {
        Some(model) => if model.wavenet.is_some() {
            Some(
                SliceRequest {
                    model,
                    target_ch: cold.rt_status.requested_slimmable_ch,
                    generation: cold.requested_slimmable_generation,
                    buffer_size: cold.buffer_size,
                },
            )
        } else {
            None
        },
        None => None,
    }
}

/// What became of the wish for a slice.
#[derive(Clone, Copy, Debug, PartialEq, Eq, Structural)]
pub enum Rebuild {
    /// Nothing was asked for.
    Nothing,
    /// There was nothing to do, or it could not be done; the wish is settled.
    Settled,
    Sent,
    /// The ring was full; the wish stands and is tried again.
    Retry,
}

/// `cold` with the wish for a slice settled.
pub open spec fn slice_settled(cold: ColdShared) -> ColdShared {
    ColdShared {
        rt_status: cold.rt_status.without_flag(RT_STATUS_NEEDS_SLIMMABLE_REBUILD),
        ..cold
    }
}

impl NamClapMainThread {
    /// What dealing with a wish for a slice amounts to.
    pub open spec fn slimmable_finished(
        before: &Self,
        cold: &ColdShared,
        sliced: Option<ModelHandle>,
        after: &Self,
        cold_after: &ColdShared,
        rebuild: Rebuild,
    ) -> bool {
        &&& *after == (NamClapMainThread {
            slimmable_tx: after.slimmable_tx,
            requests: after.requests,
            ..*before
        })
        &&& rebuild is Nothing <==> !raised(
            cold.rt_status.flags,
            RT_STATUS_NEEDS_SLIMMABLE_REBUILD,
        )
        &&& rebuild is Settled <==> raised(
            cold.rt_status.flags,
            RT_STATUS_NEEDS_SLIMMABLE_REBUILD,
        ) && (slice_request(*cold) is None || sliced is None)
        &&& rebuild is Sent || rebuild is Retry ==> slice_request(*cold) is Some && sliced is Some
        &&& match rebuild {
            Rebuild::Nothing => *after == *before && *cold_after == *cold,
            Rebuild::Settled => {
                &&& *after == *before
                &&& *cold_after == (if slice_request(*cold) is None {
                    slice_settled(*cold)
                } else {
                    slice_settled(
                        ColdShared {
                            rt_status: cold.rt_status.with_flag(
                                RT_STATUS_SLIMMABLE_SLICE_FAILED,
                            ),
                            ..*cold
                        },
                    )
                })
            },
            Rebuild::Sent => {
                let end = rebuild_write_end(before.slimmable_tx);
                &&& rebuild_write_end(after.slimmable_tx) == (WriteEnd {
                    pushed: end.pushed + 1,
                    ..end
                })
                &&& rebuild_at(end.ring, end.pushed) == (SlimmableRebuild {
                    generation: cold.requested_slimmable_generation,
                    model: sliced->Some_0,
                })
                &&& after.requests == before.requests
                &&& *cold_after == slice_settled(*cold)
            },
            Rebuild::Retry => {
                let end = rebuild_write_end(before.slimmable_tx);
                &&& rebuild_write_end(after.slimmable_tx) == (WriteEnd {
                    refusals: end.refusals + 1,
                    ..end
                })
                &&& end.pushed >= end.capacity
                &&& after.requests@ == before.requests@.push(HostRequest::Callback)
                &&& *cold_after == *cold
            },
        }
    }

    /// Deals with a wish for a slice. `sliced` is the slice of [`slimmable_work`], `None` where
    /// it could not be made.
    pub fn finish_slimmable(&mut self, cold: &mut ColdShared, sliced: Option<ModelHandle>) -> (rebuild:
        Rebuild)
        ensures
            Self::slimmable_finished(old(self), old(cold), sliced, final(self), final(cold), rebuild),
    {
        if !cold.rt_status.check_flag(RT_STATUS_NEEDS_SLIMMABLE_REBUILD) {
            return Rebuild::Nothing;
        }
        match slimmable_work(cold) {
            None => {
                cold.rt_status.clear_flag(RT_STATUS_NEEDS_SLIMMABLE_REBUILD);
                Rebuild::Settled
            },
            Some(work) => match sliced {
                None => {
                    cold.rt_status.set_flag(RT_STATUS_SLIMMABLE_SLICE_FAILED);
                    cold.rt_status.clear_flag(RT_STATUS_NEEDS_SLIMMABLE_REBUILD);
                    Rebuild::Settled
                },
                Some(model) => {
                    let rebuild = SlimmableRebuild { generation: work.generation, model };
                    match push_rebuild(&mut self.slimmable_tx, rebuild) {
                        Ok(()) => {
                            cold.rt_status.clear_flag(RT_STATUS_NEEDS_SLIMMABLE_REBUILD);
                            Rebuild::Sent
                        },
                        Err(_) => {
                            self.requests.push(HostRequest::Callback);
                            Rebuild::Retry
                        },
                    }
                },
            },
        }
    }
}

/// The factor that engines are to be built for, if they are.
pub open spec fn oversample_request(cold: ColdShared) -> Option<OversampleFactor> {
    if raised(cold.rt_status.flags, RT_STATUS_NEEDS_OS_REBUILD) {
        Some(OversampleFactor::of_code(cold.rt_status.requested_os_factor))
    } else {
        None
    }
}

/// Tells which factor engines are to be built for, if they are.
pub fn oversample_work(cold: &ColdShared) -> (work: Option<OversampleFactor>)
    ensures
        work == oversample_request(*cold),
{
    if cold.rt_status.check_flag(RT_STATUS_NEEDS_OS_REBUILD) {
        Some(OversampleFactor::decode(cold.rt_status.requested_os_factor))
    } else {
        None
    }
}

/// `cold` with the wish for engines settled.
pub open spec fn oversample_settled(cold: ColdShared) -> ColdShared {
    ColdShared {
        rt_status: cold.rt_status.without_flag(RT_STATUS_NEEDS_OS_REBUILD),
        ..cold
    }
}

impl NamClapMainThread {
    /// What dealing with a wish for engines amounts to.
    pub open spec fn oversample_finished(
        before: &Self,
        cold: &ColdShared,
        engines: Option<(OversampleHandle, OversampleHandle)>,
        after: &Self,
        cold_after: &ColdShared,
        rebuild: Rebuild,
    ) -> bool {
        &&& *after == (NamClapMainThread {
            cmd_producer: after.cmd_producer,
            requests: after.requests,
            ..*before
        })
        &&& rebuild is Nothing <==> oversample_request(*cold) is None
        &&& rebuild is Settled <==> oversample_request(*cold) is Some && engines is None
        &&& oversample_request(*cold) is Some && engines is Some
            && before.cmd_producer.has_room_for(
            ClapParamPayload::SetOversample { os_l: engines->Some_0.0, os_r: engines->Some_0.1 },
        ) ==> rebuild is Sent
        &&& match rebuild {
            Rebuild::Nothing => *after == *before && *cold_after == *cold,
            Rebuild::Settled => *after == *before && *cold_after
                == oversample_settled(*cold),
            Rebuild::Sent => {
                &&& after.cmd_producer.pending() is None
                &&& after.cmd_producer.sent(
                    &before.cmd_producer,
                    with_params_first(
                        before.cmd_producer.pending(),
                        ClapParamPayload::SetOversample {
                            os_l: engines->Some_0.0,
                            os_r: engines->Some_0.1,
                        },
                    ),
                )
                &&& after.requests == before.requests
                &&& *cold_after == (ColdShared {
                    cmd_next_seq: after.numbered(before, cold),
                    ..oversample_settled(*cold)
                })
            },
            Rebuild::Retry => {
                &&& after.cmd_producer.refused(&before.cmd_producer)
                &&& after.requests@ == before.requests@.push(HostRequest::Callback)
                &&& *cold_after == (ColdShared {
                    cmd_next_seq: after.numbered(before, cold),
                    ..*cold
                })
            },
        }
    }

    /// Deals with a wish for engines. `engines` are those of [`oversample_work`], for the left
    /// and the right channel, `None` where they could not be built.
    pub fn finish_oversample(
        &mut self,
        cold: &mut ColdShared,
        engines: Option<(OversampleHandle, OversampleHandle)>,
    ) -> (rebuild: Rebuild)
        requires
            old(self).cmd_producer.wf(),
        ensures
            final(self).cmd_producer.wf(),
            Self::oversample_finished(old(self), old(cold), engines, final(self), final(cold), rebuild),
    {
        if !cold.rt_status.check_flag(RT_STATUS_NEEDS_OS_REBUILD) {
            return Rebuild::Nothing;
        }
        match engines {
            None => {
                cold.rt_status.clear_flag(RT_STATUS_NEEDS_OS_REBUILD);
                Rebuild::Settled
            },
            Some((os_l, os_r)) => {
                match self.cmd_producer.try_push_command(
                    ClapParamPayload::SetOversample { os_l, os_r },
                    &mut cold.cmd_next_seq,
                ) {
                    Ok(_) => {
                        cold.rt_status.clear_flag(RT_STATUS_NEEDS_OS_REBUILD);
                        Rebuild::Sent
                    },
                    Err(_) => {
                        self.requests.push(HostRequest::Callback);
                        Rebuild::Retry
                    },
                }
            },
        }
    }
}

/// What the GUI wants to have loaded.
#[derive(Debug)]
pub enum Choice {
    Nothing,
    /// The file dialog was cancelled.
    Cancelled,
    /// The file dialog has timed out.
    TimedOut,
    Load(String),
}

/// The choice that a pending path stands for. The dialogs report that they were cancelled or
/// have timed out by paths of their own.
pub open spec fn is_choice(
    choice: Choice,
    pending: Option<String>,
    cancelled: Seq<char>,
    timed_out: Seq<char>,
) -> bool {
    match pending {
        None => choice is Nothing,
        Some(path) => if path@ == cancelled {
            choice is Cancelled
        } else if path@ == timed_out {
            choice is TimedOut
        } else {
            choice == Choice::Load(path)
        },
    }
}

fn choice_of(pending: Option<String>, cancelled: &String, timed_out: &String) -> (choice: Choice)
    ensures
        is_choice(choice, pending, cancelled@, timed_out@),
{
    match pending {
        None => Choice::Nothing,
        Some(path) => {
            if path == *cancelled {
                Choice::Cancelled
            } else if path == *timed_out {
                Choice::TimedOut
            } else {
                Choice::Load(path)
            }
        },
    }
}

/// Whether the dialog ended without a choice.
pub open spec fn ends_wait(choice: Choice) -> bool {
    choice is Cancelled || choice is TimedOut
}

/// `cold` once the wish for a model is taken.
pub open spec fn model_choice_taken(cold: ColdShared, choice: Choice) -> ColdShared {
    ColdShared {
        ui_pending_model: None,
        ui_loading: cold.ui_loading && !ends_wait(choice),
        ..cold
    }
}

/// `cold` once the wish for an impulse response is taken.
pub open spec fn ir_choice_taken(cold: ColdShared, choice: Choice) -> ColdShared {
    ColdShared {
        ui_pending_ir: None,
        ui_ir_loading: cold.ui_ir_loading && !ends_wait(choice),
        ..cold
    }
}

/// Takes the model that the GUI wants: what the dialog has left comes before an earlier wish.
/// A dialog that ended without a choice ends the wait of the GUI.
pub fn take_model_choice(
    cold: &mut ColdShared,
    dialog: Option<String>,
    cancelled: &String,
    timed_out: &String,
) -> (choice: Choice)
    ensures
        is_choice(
            choice,
            if dialog is Some {
                dialog
            } else {
                old(cold).ui_pending_model
            },
            cancelled@,
            timed_out@,
        ),
        *final(cold) == model_choice_taken(*old(cold), choice),
{
    let waiting = cold.ui_pending_model.take();
    let pending = if dialog.is_some() { dialog } else { waiting };
    let choice = choice_of(pending, cancelled, timed_out);
    match &choice {
        Choice::Cancelled => {
            cold.ui_loading = false;
        },
        Choice::TimedOut => {
            cold.ui_loading = false;
        },
        _ => {},
    }
    choice
}

/// Takes the impulse response that the GUI wants, as [`take_model_choice`] takes a model.
pub fn take_ir_choice(
    cold: &mut ColdShared,
    dialog: Option<String>,
    cancelled: &String,
    timed_out: &String,
) -> (choice: Choice)
    ensures
        is_choice(
            choice,
            if dialog is Some {
                dialog
            } else {
                old(cold).ui_pending_ir
            },
            cancelled@,
            timed_out@,
        ),
        *final(cold) == ir_choice_taken(*old(cold), choice),
{
    let waiting = cold.ui_pending_ir.take();
    let pending = if dialog.is_some() { dialog } else { waiting };
    let choice = choice_of(pending, cancelled, timed_out);
    match &choice {
        Choice::Cancelled => {
            cold.ui_ir_loading = false;
        },
        Choice::TimedOut => {
            cold.ui_ir_loading = false;
        },
        _ => {},
    }
    choice
}

impl NamClapMainThread {
    /// What closing the loading of a model amounts to.
    pub open spec fn model_choice_finished(
        before: &Self,
        cold: &ColdShared,
        loaded: Result<Delivery, LoadFailure>,
        message: String,
        after: &Self,
        cold_after: &ColdShared,
    ) -> bool {
        &&& *after == (NamClapMainThread { requests: after.requests, ..*before })
        &&& after.requests@ == (if cold.pending_preset_load@.len() == 0 {
            before.requests@
        } else {
            before.requests@.push(
                match loaded {
                    Ok(_) => HostRequest::PresetLoaded(cold.pending_preset_load@[0]),
                    Err(failure) => HostRequest::PresetFailed(
                        cold.pending_preset_load@[0],
                        failure,
                    ),
                },
            )
        })
        &&& cold_after.pending_preset_load@ == (if cold.pending_preset_load@.len() == 0 {
            cold.pending_preset_load@
        } else {
            cold.pending_preset_load@.skip(1)
        })
        &&& *cold_after == (ColdShared {
            ui_loading: false,
            pending_preset_load: cold_after.pending_preset_load,
            ui_load_error: cold.ui_load_error || loaded is Err,
            ui_load_error_msg: if loaded is Err {
                message
            } else {
                cold.ui_load_error_msg
            },
            ..*cold
        })
    }

    /// Closes the loading of a model that the GUI or the host had asked for. `message` says
    /// what went wrong, where something did. The host hears about the preset load that came
    /// first.
    pub fn finish_model_choice(
        &mut self,
        cold: &mut ColdShared,
        loaded: Result<Delivery, LoadFailure>,
        message: String,
    )
        ensures
            Self::model_choice_finished(old(self), old(cold), loaded, message, final(self), final(cold)),
    {
        cold.ui_loading = false;
        let preset: Option<PendingPresetLoad> = if cold.pending_preset_load.len() == 0 {
            None
        } else {
            Some(cold.pending_preset_load.remove(0))
        };
        assert(old(cold).pending_preset_load@.len() > 0 ==> cold.pending_preset_load@
            =~= old(cold).pending_preset_load@.skip(1));
        match loaded {
            Ok(_) => {
                if let Some(preset) = preset {
                    self.requests.push(HostRequest::PresetLoaded(preset));
                }
            },
            Err(failure) => {
                cold.ui_load_error_msg = message;
                cold.ui_load_error = true;
                if let Some(preset) = preset {
                    self.requests.push(HostRequest::PresetFailed(preset, failure));
                }
            },
        }
    }

    /// What clearing the impulse response amounts to.
    pub open spec fn ir_cleared(
        before: &Self,
        cold: &ColdShared,
        after: &Self,
        cold_after: &ColdShared,
        staged: bool,
    ) -> bool {
        &&& staged == (cold.ui_clear_ir && cold.current_cabsim_latency != 0)
        &&& *after == (NamClapMainThread {
            staged_swap: after.staged_swap,
            requests: after.requests,
            ..*before
        })
        &&& if staged {
            &&& after.staged_swap == with_ir(before.staged_swap, None)
            &&& after.requests@ == before.requests@.push(HostRequest::Restart)
            &&& *cold_after == (ColdShared {
                ui_clear_ir: false,
                ir_path: None,
                ir_hash: None,
                ir_raw_samples: None,
                ir_raw_sample_rate: 0,
                ..*cold
            })
        } else {
            &&& *after == *before
            &&& *cold_after == (ColdShared { ui_clear_ir: false, ..*cold })
        }
    }

    /// Clears the impulse response where the GUI has asked for it. That changes the latency, so
    /// that it waits for a restart; path, digest and samples are forgotten at once. Without an
    /// installed response there is nothing to do. Returns whether a restart is needed.
    pub fn clear_ir(&mut self, cold: &mut ColdShared) -> (staged: bool)
        ensures
            Self::ir_cleared(old(self), old(cold), final(self), final(cold), staged),
    {
        if !cold.ui_clear_ir {
            return false;
        }
        cold.ui_clear_ir = false;
        if cold.current_cabsim_latency == 0 {
            return false;
        }
        self.stage_ir(None);
        cold.ir_path = None;
        cold.ir_hash = None;
        cold.ir_raw_samples = None;
        cold.ir_raw_sample_rate = 0;
        true
    }

    /// Whether the state of the huge pages is still to be read; asking settles it.
    pub fn take_hugepage_sync(&mut self) -> (due: bool)
        ensures
            due == !old(self).hugepage_synced,
            *final(self) == (NamClapMainThread { hugepage_synced: true, ..*old(self) }),
    {
        let due: bool = !self.hugepage_synced;
        self.hugepage_synced = true;
        due
    }

    /// What telling the host about changes amounts to.
    pub open spec fn changes_reported(
        before: &Self,
        shared: &GuiSharedState,
        after: &Self,
        log_stale: bool,
    ) -> bool {
        &&& log_stale == (shared.cold.slimmable_stale_discarded_total
            != before.last_seen_slimmable_stale)
        &&& after.requests@ == (if shared.rt_to_ui.current_latency
            != before.last_reported_latency {
            before.requests@.push(HostRequest::LatencyChanged)
        } else {
            before.requests@
        })
        &&& *after == (NamClapMainThread {
            requests: after.requests,
            last_reported_latency: shared.rt_to_ui.current_latency,
            last_reported_cabsim_tail: shared.rt_to_ui.cabsim_tail_samples,
            last_seen_slimmable_stale: shared.cold.slimmable_stale_discarded_total,
            ..*before
        })
    }

    /// Tells the host that the latency has changed, where it has, and takes note of the tail
    /// and of discarded rebuilds. Returns whether new discards are to be logged.
    pub fn report_changes(&mut self, shared: &GuiSharedState) -> (log_stale: bool)
        ensures
            Self::changes_reported(old(self), shared, final(self), log_stale),
    {
        let latency: u32 = shared.rt_to_ui.current_latency;
        if latency != self.last_reported_latency {
            self.last_reported_latency = latency;
            self.requests.push(HostRequest::LatencyChanged);
        }
        let tail: u32 = shared.rt_to_ui.cabsim_tail_samples;
        if tail != self.last_reported_cabsim_tail {
            self.last_reported_cabsim_tail = tail;
        }
        let stale: u32 = shared.cold.slimmable_stale_discarded_total;
        let log_stale: bool = stale != self.last_seen_slimmable_stale;
        if log_stale {
            self.last_seen_slimmable_stale = stale;
        }
        log_stale
    }
}

/// `cold` once the loading of an impulse response is closed.
pub open spec fn ir_choice_closed(
    cold: ColdShared,
    loaded: Result<Delivery, LoadFailure>,
    message: String,
) -> ColdShared {
    ColdShared {
        ui_ir_loading: false,
        ui_ir_load_error: cold.ui_ir_load_error || loaded is Err,
        ui_ir_load_error_msg: if loaded is Err {
            message
        } else {
            cold.ui_ir_load_error_msg
        },
        ..cold
    }
}

/// Closes the loading of an impulse response that the GUI had asked for.
pub fn finish_ir_choice(
    cold: &mut ColdShared,
    loaded: Result<Delivery, LoadFailure>,
    message: String,
)
    ensures
        *final(cold) == ir_choice_closed(*old(cold), loaded, message),
{
    cold.ui_ir_loading = false;
    if loaded.is_err() {
        cold.ui_ir_load_error_msg = message;
        cold.ui_ir_load_error = true;
    }
}

} // verus!
