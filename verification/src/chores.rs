//! A round of housekeeping on the main thread: what is to be done outside, and what is decided
//! on each outcome.
//!
//! A round begins with [`Report::Begin`]. Each call of [`NamClapMainThread::housekeeping`] takes
//! the outcome of a chore and hands out the next one, until the round is done.

use vstd::prelude::*;
use crate::housekeeping::{
    drain_recorded, finish_ir_choice, ir_choice_closed, ir_choice_taken, is_choice,
    model_choice_taken, oversample_request, oversample_work, record_drain, reset_failure_noted,
    slice_request, slimmable_work, take_ir_choice, take_model_choice, take_reset_failure, Choice,
    Rebuild, SliceRequest,
};
use crate::main_thread::{Delivery, IrLoad, LoadFailure, ModelLoad, NamClapMainThread};
use crate::params::OversampleFactor;
use crate::payload::{ModelHandle, OversampleHandle, ResamplerHandle, StreamHandle};
use crate::restore::{Flush, RestoreStep};
use crate::shared::{ColdShared, GuiSharedState, PendingModel};
use crate::status::{raised, RT_STATUS_SLIMMABLE_RESET_FAILED};

verus! {

/// Something to be done outside.
#[derive(Debug)]
pub enum Chore {
    /// Make a kept model ready to be sent: its resampler, its stream and its buffers.
    /// `published` tells whether a restore has become visible, `restore_sent` whether one has
    /// just been sent.
    Prepare { published: bool, restore_sent: bool, kept: Option<PendingModel> },
    /// Dispose of the resources that the audio thread has retired. `flushed` tells what became of
    /// the kept model.
    DrainGarbage { flushed: Result<Flush, LoadFailure> },
    /// Read the state of the huge pages, log a failed reset, cut a slice; each where it is due.
    Upkeep { sync_huge_pages: bool, reset_failed: bool, slice: Option<SliceRequest> },
    /// Build oversampling engines, where they are wanted. `sliced` tells what became of the slice.
    BuildEngines { sliced: Rebuild, factor: Option<OversampleFactor> },
    /// See what the dialog for models has left. `engines` tells what became of the engines.
    AskModelDialog { engines: Rebuild },
    /// Load a model, where one is wanted.
    LoadModel(Choice),
    /// See what the dialog for impulse responses has left. `loaded` tells what became of the
    /// model, if one was loaded.
    AskIrDialog { loaded: Option<Result<Delivery, LoadFailure>> },
    /// Load an impulse response, where one is wanted.
    LoadIr(Choice),
    /// The round is done: log that the impulse response was cleared or that rebuilds were
    /// discarded, where it is so. `loaded` tells what became of the impulse response, if one was
    /// loaded.
    Done {
        loaded: Option<Result<Delivery, LoadFailure>>,
        ir_cleared: bool,
        log_stale: bool,
    },
}

/// The outcome of a chore.
#[derive(Debug)]
pub enum Report {
    /// A round begins.
    Begin,
    /// What came of making a kept model ready.
    Prepared {
        resampler: Option<ResamplerHandle>,
        stream: Option<StreamHandle>,
        resized: bool,
    },
    /// How many resources were disposed of.
    Drained(u32),
    /// The slice, if one was cut.
    Upkept { sliced: Option<ModelHandle> },
    /// The engines, if they were built.
    EnginesBuilt(Option<(OversampleHandle, OversampleHandle)>),
    /// What the dialog for models had left, if anything.
    ModelDialog(Option<String>),
    /// What came of loading a model, with the message for the case that it failed.
    ModelLoaded(Option<(ModelLoad, String)>),
    /// What the dialog for impulse responses had left, if anything.
    IrDialog(Option<String>),
    /// What came of loading an impulse response, with the message for the case that it failed.
    IrLoaded(Option<(IrLoad, String)>),
}

impl Chore {
    /// How far the round has come.
    pub open spec fn stage(self) -> nat {
        match self {
            Chore::Prepare { .. } => 1,
            Chore::DrainGarbage { .. } => 2,
            Chore::Upkeep { .. } => 3,
            Chore::BuildEngines { .. } => 4,
            Chore::AskModelDialog { .. } => 5,
            Chore::LoadModel(_) => 6,
            Chore::AskIrDialog { .. } => 7,
            Chore::LoadIr(_) => 8,
            Chore::Done { .. } => 9,
        }
    }
}

impl Report {
    /// The stage of the chore that it reports on.
    pub open spec fn stage(self) -> nat {
        match self {
            Report::Begin { .. } => 0,
            Report::Prepared { .. } => 1,
            Report::Drained(_) => 2,
            Report::Upkept { .. } => 3,
            Report::EnginesBuilt(_) => 4,
            Report::ModelDialog(_) => 5,
            Report::ModelLoaded(_) => 6,
            Report::IrDialog(_) => 7,
            Report::IrLoaded(_) => 8,
        }
    }
}

/// The model that can be sent now that the block size is known.
pub open spec fn sendable(cold: ColdShared) -> Option<PendingModel> {
    if cold.buffer_size > 0 {
        cold.pending_model
    } else {
        None
    }
}

impl NamClapMainThread {
    /// Outcome of the start of a round: parameters that wait go first, then the restore that is
    /// under way, which becomes visible once it has been acknowledged.
    pub open spec fn round_begun(
        before: &Self,
        shared: &GuiSharedState,
        after: &Self,
        shared_after: &GuiSharedState,
        chore: Chore,
    ) -> bool {
        exists|
            mid: Self,
            shared_mid: GuiSharedState,
            moved: Self,
            cold_moved: ColdShared,
            step: RestoreStep,
        |
            {
                let shared_moved = GuiSharedState { cold: cold_moved, ..shared_mid };
                &&& #[trigger] Self::params_flushed(before, shared, &mid, &shared_mid)
                &&& #[trigger] Self::restore_flushed(
                    &mid,
                    &shared_mid.cold,
                    &moved,
                    &cold_moved,
                    step,
                )
                &&& match step {
                    RestoreStep::Publish(visible) => Self::restore_published(
                        &moved,
                        &shared_moved,
                        visible,
                        after,
                        shared_after,
                    ),
                    _ => *after == moved && *shared_after == shared_moved,
                }
                &&& chore == Chore::Prepare {
                    published: step is Publish,
                    restore_sent: step is Sent,
                    kept: sendable(shared_after.cold),
                }
            }
    }

    /// Outcome of loading the model that the GUI or the host has asked for.
    pub open spec fn chosen_model_loaded(
        before: &Self,
        cold: &ColdShared,
        load: ModelLoad,
        message: String,
        after: &Self,
        cold_after: &ColdShared,
        loaded: Result<Delivery, LoadFailure>,
    ) -> bool {
        exists|mid: Self, cold_mid: ColdShared|
            {
                &&& #[trigger] Self::model_loaded(before, cold, load, &mid, &cold_mid, loaded)
                &&& Self::model_choice_finished(&mid, &cold_mid, loaded, message, after, cold_after)
            }
    }

    /// Outcome of loading the impulse response that the GUI has asked for, if it has.
    pub open spec fn chosen_ir_loaded(
        before: &Self,
        cold: &ColdShared,
        report: Option<(IrLoad, String)>,
        after: &Self,
        cold_after: &ColdShared,
        loaded: Option<Result<Delivery, LoadFailure>>,
    ) -> bool {
        match report {
            None => loaded is None && *after == *before && *cold_after == *cold,
            Some((load, message)) => loaded is Some && exists|cold_mid: ColdShared|
                {
                    &&& #[trigger] Self::ir_loaded(
                        before,
                        cold,
                        load,
                        after,
                        &cold_mid,
                        loaded->Some_0,
                    )
                    &&& *cold_after == ir_choice_closed(cold_mid, loaded->Some_0, message)
                },
        }
    }

    /// Outcome of the end of a round: an impulse response is loaded where one was chosen, then
    /// cleared where that was asked for, and the host hears of a changed latency.
    pub open spec fn round_ended(
        before: &Self,
        shared: &GuiSharedState,
        report: Option<(IrLoad, String)>,
        after: &Self,
        shared_after: &GuiSharedState,
        loaded: Option<Result<Delivery, LoadFailure>>,
        ir_cleared: bool,
        log_stale: bool,
    ) -> bool {
        exists|mid: Self, cold_loaded: ColdShared, cleared: Self|
            {
                &&& #[trigger] Self::chosen_ir_loaded(
                    before,
                    &shared.cold,
                    report,
                    &mid,
                    &cold_loaded,
                    loaded,
                )
                &&& #[trigger] Self::ir_cleared(
                    &mid,
                    &cold_loaded,
                    &cleared,
                    &shared_after.cold,
                    ir_cleared,
                )
                &&& Self::changes_reported(&cleared, shared_after, after, log_stale)
            }
    }

    fn begin_round(&mut self, shared: &mut GuiSharedState) -> (chore: Chore)
        requires
            old(self).cmd_producer.wf(),
        ensures
            final(self).cmd_producer.wf(),
            Self::round_begun(old(self), old(shared), final(self), final(shared), chore),
    {
        self.flush_in_flight_params(shared);
        let ghost mid = *self;
        let ghost shared_mid = *shared;
        let step = self.flush_pending_restore(&mut shared.cold);
        let ghost moved = *self;
        let ghost cold_moved = shared.cold;
        assert(Self::params_flushed(old(self), old(shared), &mid, &shared_mid));
        assert(Self::restore_flushed(&mid, &shared_mid.cold, &moved, &cold_moved, step));
        assert(*shared == (GuiSharedState { cold: cold_moved, ..shared_mid }));
        let (published, restore_sent) = match step {
            RestoreStep::Publish(visible) => {
                self.publish_restore(shared, visible);
                (true, false)
            },
            RestoreStep::Sent => (false, true),
            _ => (false, false),
        };
        Chore::Prepare {
            published,
            restore_sent,
            kept: if shared.cold.buffer_size > 0 { shared.cold.pending_model } else { None },
        }
    }

    fn load_chosen_model(
        &mut self,
        cold: &mut ColdShared,
        load: ModelLoad,
        message: String,
    ) -> (loaded: Result<Delivery, LoadFailure>)
        requires
            old(self).cmd_producer.wf(),
        ensures
            final(self).cmd_producer.wf(),
            Self::chosen_model_loaded(
                old(self),
                old(cold),
                load,
                message,
                final(self),
                final(cold),
                loaded,
            ),
    {
        let loaded = self.load_model(cold, load);
        let ghost mid = *self;
        let ghost cold_mid = *cold;
        self.finish_model_choice(cold, loaded, message);
        assert(Self::model_loaded(old(self), old(cold), load, &mid, &cold_mid, loaded));
        loaded
    }

    fn load_chosen_ir(&mut self, cold: &mut ColdShared, report: Option<(IrLoad, String)>) -> (done:
        Option<Result<Delivery, LoadFailure>>)
        requires
            old(self).cmd_producer.wf(),
        ensures
            final(self).cmd_producer.wf(),
            Self::chosen_ir_loaded(old(self), old(cold), report, final(self), final(cold), done),
    {
        if let Some((load, message)) = report {
            let loaded = self.load_cabsim(cold, load);
            let ghost cold_mid = *cold;
            finish_ir_choice(cold, loaded, message);
            assert(Self::ir_loaded(old(self), old(cold), load, self, &cold_mid, loaded));
            Some(loaded)
        } else {
            None
        }
    }

    fn end_round(&mut self, shared: &mut GuiSharedState, report: Option<(IrLoad, String)>) -> (chore:
        Chore)
        requires
            old(self).cmd_producer.wf(),
        ensures
            final(self).cmd_producer.wf(),
            *final(shared) == (GuiSharedState { cold: final(shared).cold, ..*old(shared) }),
            chore is Done,
            Self::round_ended(
                old(self),
                old(shared),
                report,
                final(self),
                final(shared),
                chore->Done_loaded,
                chore->ir_cleared,
                chore->log_stale,
            ),
    {
        let loaded = self.load_chosen_ir(&mut shared.cold, report);
        let ghost mid = *self;
        let ghost cold_loaded = shared.cold;
        let ir_cleared: bool = self.clear_ir(&mut shared.cold);
        let ghost cleared = *self;
        let log_stale: bool = self.report_changes(shared);
        assert(Self::chosen_ir_loaded(
            old(self),
            &old(shared).cold,
            report,
            &mid,
            &cold_loaded,
            loaded,
        ));
        assert(Self::ir_cleared(&mid, &cold_loaded, &cleared, &shared.cold, ir_cleared));
        Chore::Done { loaded, ir_cleared, log_stale }
    }

    /// Takes the outcome of a chore and hands out the next one. `cancelled` and `timed_out` are
    /// the paths by which dialogs report that they have ended without a choice.
    pub fn housekeeping(
        &mut self,
        shared: &mut GuiSharedState,
        report: Report,
        cancelled: &String,
        timed_out: &String,
    ) -> (chore: Chore)
        requires
            old(self).cmd_producer.wf(),
        ensures
            final(self).cmd_producer.wf(),
            chore.stage() == report.stage() + 1,
            !(report is Begin) ==> *final(shared) == (GuiSharedState {
                cold: final(shared).cold,
                ..*old(shared)
            }),
            match report {
                Report::Begin => Self::round_begun(
                    old(self),
                    old(shared),
                    final(self),
                    final(shared),
                    chore,
                ),
                Report::Prepared { resampler, stream, resized } => Self::model_flushed(
                    old(self),
                    &old(shared).cold,
                    resampler,
                    stream,
                    resized,
                    final(self),
                    &final(shared).cold,
                    chore->flushed,
                ),
                Report::Drained(drained) => {
                    let seen = drain_recorded(old(shared).cold, drained);
                    &&& chore == Chore::Upkeep {
                        sync_huge_pages: !old(self).hugepage_synced,
                        reset_failed: raised(
                            seen.rt_status.flags,
                            RT_STATUS_SLIMMABLE_RESET_FAILED,
                        ),
                        slice: slice_request(reset_failure_noted(seen)),
                    }
                    &&& *final(self) == (NamClapMainThread { hugepage_synced: true, ..*old(self) })
                    &&& final(shared).cold == reset_failure_noted(seen)
                },
                Report::Upkept { sliced } => {
                    &&& Self::slimmable_finished(
                        old(self),
                        &old(shared).cold,
                        sliced,
                        final(self),
                        &final(shared).cold,
                        chore->sliced,
                    )
                    &&& chore->factor == oversample_request(final(shared).cold)
                },
                Report::EnginesBuilt(engines) => Self::oversample_finished(
                    old(self),
                    &old(shared).cold,
                    engines,
                    final(self),
                    &final(shared).cold,
                    chore->engines,
                ),
                Report::ModelDialog(dialog) => {
                    &&& is_choice(
                        chore->LoadModel_0,
                        if dialog is Some {
                            dialog
                        } else {
                            old(shared).cold.ui_pending_model
                        },
                        cancelled@,
                        timed_out@,
                    )
                    &&& *final(self) == *old(self)
                    &&& final(shared).cold == model_choice_taken(
                        old(shared).cold,
                        chore->LoadModel_0,
                    )
                },
                Report::ModelLoaded(None) => {
                    &&& chore->AskIrDialog_loaded is None
                    &&& *final(self) == *old(self)
                    &&& *final(shared) == *old(shared)
                },
                Report::ModelLoaded(Some((load, message))) => {
                    &&& chore->AskIrDialog_loaded is Some
                    &&& Self::chosen_model_loaded(
                        old(self),
                        &old(shared).cold,
                        load,
                        message,
                        final(self),
                        &final(shared).cold,
                        chore->AskIrDialog_loaded->Some_0,
                    )
                },
                Report::IrDialog(dialog) => {
                    &&& is_choice(
                        chore->LoadIr_0,
                        if dialog is Some {
                            dialog
                        } else {
                            old(shared).cold.ui_pending_ir
                        },
                        cancelled@,
                        timed_out@,
                    )
                    &&& *final(self) == *old(self)
                    &&& final(shared).cold == ir_choice_taken(old(shared).cold, chore->LoadIr_0)
                },
                Report::IrLoaded(ir) => Self::round_ended(
                    old(self),
                    old(shared),
                    ir,
                    final(self),
                    final(shared),
                    chore->Done_loaded,
                    chore->ir_cleared,
                    chore->log_stale,
                ),
            },
    {
        match report {
            Report::Begin => self.begin_round(shared),
            Report::Prepared { resampler, stream, resized } => Chore::DrainGarbage {
                flushed: self.flush_pending_model(&mut shared.cold, resampler, stream, resized),
            },
            Report::Drained(drained) => {
                record_drain(&mut shared.cold, drained);
                let sync_huge_pages: bool = self.take_hugepage_sync();
                let reset_failed: bool = take_reset_failure(&mut shared.cold);
                Chore::Upkeep {
                    sync_huge_pages,
                    reset_failed,
                    slice: slimmable_work(&shared.cold),
                }
            },
            Report::Upkept { sliced } => {
                let sliced = self.finish_slimmable(&mut shared.cold, sliced);
                Chore::BuildEngines { sliced, factor: oversample_work(&shared.cold) }
            },
            Report::EnginesBuilt(engines) => Chore::AskModelDialog {
                engines: self.finish_oversample(&mut shared.cold, engines),
            },
            Report::ModelDialog(dialog) => Chore::LoadModel(
                take_model_choice(&mut shared.cold, dialog, cancelled, timed_out),
            ),
            Report::ModelLoaded(None) => Chore::AskIrDialog { loaded: None },
            Report::ModelLoaded(Some((load, message))) => Chore::AskIrDialog {
                loaded: Some(self.load_chosen_model(&mut shared.cold, load, message)),
            },
            Report::IrDialog(dialog) => Chore::LoadIr(
                take_ir_choice(&mut shared.cold, dialog, cancelled, timed_out),
            ),
            Report::IrLoaded(ir) => self.end_round(shared, ir),
        }
    }
}

} // verus!
