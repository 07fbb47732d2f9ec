//! State restores: a whole package of model, impulse response and parameters.
//!
//! A package that keeps the latency goes to the audio thread as one command, and becomes
//! visible only once that command has been acknowledged. A package that changes the latency
//! waits, whole, for the host to restart the plug-in. Before the first activation it is
//! committed at once.

use vstd::prelude::*;
use crate::activation::Staged;
use crate::command_scheduler::{lemma_seq_after_adds, with_params_first};
use crate::main_thread::{
    add_search_path, searched, without_ir, without_model, HostRequest, LoadFailure,
    NamClapMainThread,
};
use crate::params::{
    ActivationPrecision, AdaptiveComputeMode, OversampleFactor, ProcessingParams, SlimOverride,
};
use crate::payload::{
    CabSimHandle, ClapParamPayload, ResamplerHandle, RestoreTxn, StreamHandle,
};
use crate::processor::cabsim_latency;
use crate::shared::{
    next_gui_generation, ColdShared, GuiSharedState, PendingModel, PendingRestartOs,
    PendingRestore, RestoreModelPublish, RestorePublish, StagedRestore, StagedSwap, UiToRt,
};
use crate::status::RT_STATUS_MODEL_LOAD_FAILED;

verus! {

/// What became of a model that had been kept.
#[derive(Clone, Copy, Debug, PartialEq, Eq, Structural)]
pub enum Flush {
    /// None was kept.
    Nothing,
    /// The plug-in has not been active yet.
    NotYet,
    Sent,
    /// The ring was full; it is kept and tried again.
    Retained,
}

/// Length that the buffers of a resampler for a kept model are made for.
pub fn deferred_capacity(buffer_size: u32, max_resamp_buf: usize) -> (capacity: usize)
    requires
        max_resamp_buf * 2 <= usize::MAX,
        buffer_size * 2 <= usize::MAX,
    ensures
        capacity == 2 * crate::activation::max3(buffer_size as int, max_resamp_buf as int, 1024),
{
    let block: usize = buffer_size as usize;
    let mut longest: usize = if block >= max_resamp_buf { block } else { max_resamp_buf };
    if longest < 1024 {
        longest = 1024;
    }
    longest * 2
}

/// The command that installs a kept model.
pub open spec fn kept_command(
    kept: PendingModel,
    resampler: ResamplerHandle,
    stream: StreamHandle,
) -> ClapParamPayload {
    ClapParamPayload::LoadModel {
        generation: kept.generation,
        model_l: kept.model,
        new_resampler: resampler,
        new_stream: stream,
        input_mult_adj: kept.input_mult_adj,
        output_mult_adj: kept.output_mult_adj,
    }
}

impl NamClapMainThread {
    /// What sending a kept model amounts to.
    pub open spec fn model_flushed(
        before: &Self,
        cold: &ColdShared,
        resampler: Option<ResamplerHandle>,
        stream: Option<StreamHandle>,
        resized: bool,
        after: &Self,
        cold_after: &ColdShared,
        flushed: Result<Flush, LoadFailure>,
    ) -> bool {
        &&& *after == (NamClapMainThread {
            cmd_producer: after.cmd_producer,
            requests: after.requests,
            ..*before
        })
        &&& match cold.pending_model {
            None => {
                &&& flushed == Ok::<Flush, LoadFailure>(Flush::Nothing)
                &&& *after == *before
                &&& *cold_after == *cold
            },
            Some(kept) => if cold.buffer_size == 0 {
                &&& flushed == Ok::<Flush, LoadFailure>(Flush::NotYet)
                &&& *after == *before
                &&& *cold_after == *cold
            } else if resampler is None || stream is None {
                &&& flushed == Err::<Flush, LoadFailure>(
                    if resampler is None {
                        LoadFailure::Resampler
                    } else {
                        LoadFailure::Stream
                    },
                )
                &&& *after == *before
                &&& *cold_after == (ColdShared { pending_model: None, ..*cold })
            } else if kept.model is Some && !resized {
                &&& flushed == Err::<Flush, LoadFailure>(LoadFailure::ModelResize)
                &&& *after == *before
                &&& *cold_after == (ColdShared {
                    pending_model: None,
                    rt_status: cold.rt_status.with_flag(RT_STATUS_MODEL_LOAD_FAILED),
                    ..*cold
                })
            } else {
                let cmd = kept_command(kept, resampler->Some_0, stream->Some_0);
                &&& flushed is Ok
                &&& flushed->Ok_0 is Sent || flushed->Ok_0 is Retained
                &&& before.cmd_producer.has_room_for(cmd) ==> flushed->Ok_0 is Sent
                &&& if flushed->Ok_0 is Sent {
                    &&& after.cmd_producer.pending() is None
                    &&& after.cmd_producer.sent(
                        &before.cmd_producer,
                        with_params_first(before.cmd_producer.pending(), cmd),
                    )
                    &&& after.requests == before.requests
                    &&& *cold_after == (ColdShared {
                        pending_model: None,
                        cmd_next_seq: after.numbered(before, cold),
                        ..*cold
                    })
                } else {
                    &&& after.cmd_producer.refused(&before.cmd_producer)
                    &&& after.requests@ == before.requests@.push(
                        HostRequest::Callback,
                    )
                    &&& *cold_after == (ColdShared {
                        cmd_next_seq: after.numbered(before, cold),
                        ..*cold
                    })
                }
            },
        }
    }

    /// Sends a model that was kept, once the plug-in is active. `resampler` and `stream` were
    /// built for it and `resized` tells whether its buffers fit the block size; a model that
    /// cannot be made ready is given up.
    pub fn flush_pending_model(
        &mut self,
        cold: &mut ColdShared,
        resampler: Option<ResamplerHandle>,
        stream: Option<StreamHandle>,
        resized: bool,
    ) -> (flushed: Result<Flush, LoadFailure>)
        requires
            old(self).cmd_producer.wf(),
        ensures
            final(self).cmd_producer.wf(),
            Self::model_flushed(
                old(self),
                old(cold),
                resampler,
                stream,
                resized,
                final(self),
                final(cold),
                flushed,
            ),
    {
        let kept = match cold.pending_model {
            Some(kept) => kept,
            None => {
                return Ok(Flush::Nothing);
            },
        };
        if cold.buffer_size == 0 {
            return Ok(Flush::NotYet);
        }
        cold.pending_model = None;
        let new_resampler = match resampler {
            Some(resampler) => resampler,
            None => {
                return Err(LoadFailure::Resampler);
            },
        };
        let new_stream = match stream {
            Some(stream) => stream,
            None => {
                return Err(LoadFailure::Stream);
            },
        };
        if kept.model.is_some() && !resized {
            cold.rt_status.set_flag(RT_STATUS_MODEL_LOAD_FAILED);
            return Err(LoadFailure::ModelResize);
        }
        match self.cmd_producer.try_push_command(
            ClapParamPayload::LoadModel {
                generation: kept.generation,
                model_l: kept.model,
                new_resampler,
                new_stream,
                input_mult_adj: kept.input_mult_adj,
                output_mult_adj: kept.output_mult_adj,
            },
            &mut cold.cmd_next_seq,
        ) {
            Ok(_) => Ok(Flush::Sent),
            Err(_) => {
                cold.pending_model = Some(kept);
                self.requests.push(HostRequest::Callback);
                Ok(Flush::Retained)
            },
        }
    }

    /// Brings the parameters that are saved up to date: values from what the GUI shows, path
    /// and digest of the impulse response from what is active. A digest is kept only beside a
    /// path.
    pub fn snapshot_params(&mut self, shared: &GuiSharedState)
        ensures
            *final(self) == (NamClapMainThread { params: final(self).params, ..*old(self) }),
            final(self).params == snapshot(old(self).params, *shared),
    {
        let ui = &shared.ui_to_rt;
        self.params.input_gain_db = ui.param_input_gain;
        self.params.output_gain_db = ui.param_output_gain;
        self.params.gate_threshold_db = ui.param_gate_thresh;
        self.params.bypass = ui.param_bypass != 0;
        self.params.adaptive_compute = AdaptiveComputeMode::decode(ui.param_adaptive_compute);
        self.params.slim_override = SlimOverride::decode(ui.param_slim_override);
        self.params.oversample = OversampleFactor::decode(ui.param_oversample);
        self.params.activation_precision = ActivationPrecision::decode(ui.param_activation);
        self.params.ir_path = match &shared.cold.ir_path {
            Some(path) => Some(path.clone()),
            None => None,
        };
        self.params.ir_hash = match &shared.cold.ir_hash {
            Some(hash) => Some(hash.clone()),
            None => None,
        };
        if self.params.ir_path.is_none() {
            self.params.ir_hash = None;
        }
    }

    /// What sending parameters that had found the ring full amounts to.
    pub open spec fn params_flushed(
        before: &Self,
        shared: &GuiSharedState,
        after: &Self,
        shared_after: &GuiSharedState,
    ) -> bool {
        &&& *after == (NamClapMainThread {
            cmd_producer: after.cmd_producer,
            ..*before
        })
        &&& match shared.cold.in_flight_params {
            None => {
                &&& after.cmd_producer == before.cmd_producer
                &&& *shared_after == *shared
            },
            Some(params) => {
                ||| {
                    &&& after.cmd_producer.pending() is None
                    &&& after.cmd_producer.sent(
                        &before.cmd_producer,
                        seq![ClapParamPayload::Params(params)],
                    )
                    &&& *shared_after == (GuiSharedState {
                        cold: ColdShared {
                            in_flight_params: None,
                            cmd_next_seq: after.numbered(before, &shared.cold),
                            ..shared.cold
                        },
                        ..*shared
                    })
                }
                ||| {
                    &&& before.cmd_producer.end().pushed
                        >= before.cmd_producer.end().capacity
                    &&& after.cmd_producer.pending() == Some(params)
                    &&& after.cmd_producer.turned_away(&before.cmd_producer, Seq::empty())
                    &&& *shared_after == (GuiSharedState {
                        ui_to_rt: UiToRt {
                            gui_param_generation: next_gui_generation(shared.ui_to_rt),
                            ..shared.ui_to_rt
                        },
                        ..*shared
                    })
                }
            },
        }
    }

    /// Sends parameters that had found the ring full. Where it is still full they are kept,
    /// and the audio thread is made to read the shared values.
    pub fn flush_in_flight_params(&mut self, shared: &mut GuiSharedState)
        requires
            old(self).cmd_producer.wf(),
        ensures
            final(self).cmd_producer.wf(),
            Self::params_flushed(old(self), old(shared), final(self), final(shared)),
    {
        if let Some(params) = shared.cold.in_flight_params {
            proof {
                lemma_seq_after_adds(shared.cold.cmd_next_seq, 0, 0);
            }
            shared.cold.in_flight_params = None;
            let _ = self.cmd_producer.push_params(params);
            match self.cmd_producer.force_flush(&mut shared.cold.cmd_next_seq) {
                Ok(_) => {},
                Err(_) => {
                    shared.cold.in_flight_params = Some(params);
                    shared.bump_generation();
                },
            }
        }
    }
}

/// The parameters that are saved.
pub open spec fn snapshot(params: ProcessingParams, shared: GuiSharedState) -> ProcessingParams {
    let ui = shared.ui_to_rt;
    ProcessingParams {
        input_gain_db: ui.param_input_gain,
        output_gain_db: ui.param_output_gain,
        gate_threshold_db: ui.param_gate_thresh,
        bypass: ui.param_bypass != 0,
        adaptive_compute: AdaptiveComputeMode::of_code(ui.param_adaptive_compute),
        slim_override: SlimOverride::of_code(ui.param_slim_override),
        oversample: OversampleFactor::of_code(ui.param_oversample),
        activation_precision: ActivationPrecision::of_code(ui.param_activation),
        ir_path: shared.cold.ir_path,
        ir_hash: if shared.cold.ir_path is Some {
            shared.cold.ir_hash
        } else {
            None
        },
        ..params
    }
}

/// What is saved is a matter of the shared state: the four levels and switches and the four
/// choices are those that the GUI has stored, whatever was saved before. The identity of the
/// model stays, and bringing the parameters up to date again changes nothing.
pub proof fn law_snapshot_follows_the_shared_state(
    params: ProcessingParams,
    other: ProcessingParams,
    shared: GuiSharedState,
)
    ensures
        ({
            let saved = snapshot(params, shared);
            &&& snapshot(saved, shared) == saved
            &&& snapshot(other, shared) == (ProcessingParams {
                model_path: other.model_path,
                model_basename: other.model_basename,
                model_search_paths: other.model_search_paths,
                model_hash: other.model_hash,
                ..saved
            })
            &&& saved.model_path == params.model_path
            &&& saved.model_basename == params.model_basename
            &&& saved.model_search_paths == params.model_search_paths
            &&& saved.model_hash == params.model_hash
        }),
{
}

/// What is saved never holds a digest without a path.
pub proof fn law_no_digest_without_path(params: ProcessingParams, shared: GuiSharedState)
    ensures
        snapshot(params, shared).ir_hash is Some ==> snapshot(params, shared).ir_path is Some,
{
}

/// What the GUI shows of saved parameters.
pub open spec fn shown_saved(ui: UiToRt, params: ProcessingParams) -> UiToRt {
    UiToRt {
        param_input_gain: params.input_gain_db,
        param_output_gain: params.output_gain_db,
        param_gate_thresh: params.gate_threshold_db,
        param_bypass: if params.bypass {
            1
        } else {
            0
        },
        param_adaptive_compute: params.adaptive_compute.code_spec(),
        param_slim_override: params.slim_override.code_spec(),
        param_oversample: params.oversample.code_spec(),
        param_activation: params.activation_precision.code_spec(),
        ..ui
    }
}

impl RestorePublish {
    /// `after` is what is saved once the restore is visible: the parameters of the package with
    /// the identity of its model. A full restore without a model clears the identity.
    pub open spec fn saved(self, after: ProcessingParams) -> bool {
        let loads = self.model is Some;
        &&& after == (ProcessingParams {
            model_path: if loads {
                self.model_path_on_disk
            } else if self.mode_full {
                None
            } else {
                self.params.model_path
            },
            model_basename: if loads {
                self.model_basename
            } else if self.mode_full {
                None
            } else {
                self.params.model_basename
            },
            model_hash: if loads {
                self.model_hash
            } else if self.mode_full {
                None
            } else {
                self.params.model_hash
            },
            model_search_paths: after.model_search_paths,
            ..self.params
        })
        &&& searched(
            self.params.model_search_paths@,
            after.model_search_paths@,
            self.model_search_path_to_add,
        )
    }

    /// `after` is `before` with the model and the impulse response of the package, where it has
    /// them. A full restore clears what it does not have.
    pub open spec fn installed(self, before: ColdShared, after: ColdShared) -> bool {
        let touches_model = self.model is Some || self.mode_full;
        let touches_ir = self.ir_path_on_disk is Some || self.mode_full;
        let loads_ir = self.ir_path_on_disk is Some;
        &&& after == (ColdShared {
            model_sample_rate: match self.model {
                Some(m) => m.model_rate,
                None => if self.mode_full {
                    0
                } else {
                    before.model_sample_rate
                },
            },
            ui_model_metadata: match self.model {
                Some(m) => Some(m.metadata),
                None => if self.mode_full {
                    None
                } else {
                    before.ui_model_metadata
                },
            },
            ui_model_info: match self.model {
                Some(m) => Some(m.info),
                None => if self.mode_full {
                    None
                } else {
                    before.ui_model_info
                },
            },
            full_wavenet_model: match self.model {
                Some(m) => m.full_wavenet,
                None => if self.mode_full {
                    None
                } else {
                    before.full_wavenet_model
                },
            },
            ui_model_name: after.ui_model_name,
            ir_path: if touches_ir {
                self.ir_path_on_disk
            } else {
                before.ir_path
            },
            ir_hash: if loads_ir {
                self.ir_hash
            } else if self.mode_full {
                None
            } else {
                before.ir_hash
            },
            ir_raw_samples: if loads_ir {
                self.ir_raw_samples
            } else if self.mode_full {
                None
            } else {
                before.ir_raw_samples
            },
            ir_raw_sample_rate: if loads_ir {
                self.ir_raw_sample_rate
            } else if self.mode_full {
                0
            } else {
                before.ir_raw_sample_rate
            },
            ..before
        })
        &&& after.ui_model_name@ == (if self.model is Some && self.model_basename is Some {
            self.model_basename->Some_0@
        } else if touches_model {
            Seq::empty()
        } else {
            before.ui_model_name@
        })
    }
}

/// Shows the model of a restore, or its absence.
fn show_model(
    cold: &mut ColdShared,
    model: Option<RestoreModelPublish>,
    name: Option<String>,
    full: bool,
)
    ensures
        *final(cold) == (ColdShared {
            model_sample_rate: match model {
                Some(m) => m.model_rate,
                None => if full {
                    0
                } else {
                    old(cold).model_sample_rate
                },
            },
            ui_model_metadata: match model {
                Some(m) => Some(m.metadata),
                None => if full {
                    None
                } else {
                    old(cold).ui_model_metadata
                },
            },
            ui_model_info: match model {
                Some(m) => Some(m.info),
                None => if full {
                    None
                } else {
                    old(cold).ui_model_info
                },
            },
            full_wavenet_model: match model {
                Some(m) => m.full_wavenet,
                None => if full {
                    None
                } else {
                    old(cold).full_wavenet_model
                },
            },
            ui_model_name: final(cold).ui_model_name,
            ..*old(cold)
        }),
        final(cold).ui_model_name@ == (if model is Some && name is Some {
            name->Some_0@
        } else if model is Some || full {
            Seq::empty()
        } else {
            old(cold).ui_model_name@
        }),
{
    match model {
        Some(m) => {
            cold.model_sample_rate = m.model_rate;
            cold.ui_model_metadata = Some(m.metadata);
            cold.ui_model_info = Some(m.info);
            cold.full_wavenet_model = m.full_wavenet;
            cold.ui_model_name = match name {
                Some(name) => name,
                None => String::new(),
            };
        },
        None => {
            if full {
                cold.model_sample_rate = 0;
                cold.ui_model_metadata = None;
                cold.ui_model_info = None;
                cold.full_wavenet_model = None;
                cold.ui_model_name = String::new();
            }
        },
    }
}

fn show_saved(ui: &mut UiToRt, params: &ProcessingParams)
    ensures
        *final(ui) == shown_saved(*old(ui), *params),
{
    ui.param_input_gain = params.input_gain_db;
    ui.param_output_gain = params.output_gain_db;
    ui.param_gate_thresh = params.gate_threshold_db;
    ui.param_bypass = if params.bypass { 1 } else { 0 };
    ui.param_adaptive_compute = params.adaptive_compute.code();
    ui.param_slim_override = params.slim_override.code();
    ui.param_oversample = params.oversample.code();
    ui.param_activation = params.activation_precision.code();
}

impl NamClapMainThread {
    /// What making a restore visible amounts to.
    pub open spec fn restore_published(
        before: &Self,
        shared: &GuiSharedState,
        visible: RestorePublish,
        after: &Self,
        shared_after: &GuiSharedState,
    ) -> bool {
        &&& *after == (NamClapMainThread { params: after.params, ..*before })
        &&& visible.saved(after.params)
        &&& *shared_after == (GuiSharedState {
            ui_to_rt: shown_saved(shared.ui_to_rt, visible.params),
            cold: shared_after.cold,
            ..*shared
        })
        &&& visible.installed(shared.cold, shared_after.cold)
    }

    /// Makes a restore visible: parameters, model, impulse response, and what is saved of them.
    pub fn publish_restore(&mut self, shared: &mut GuiSharedState, visible: RestorePublish)
        ensures
            Self::restore_published(old(self), old(shared), visible, final(self), final(shared)),
    {
        let full: bool = visible.mode_full;
        show_saved(&mut shared.ui_to_rt, &visible.params);
        let name = match &visible.model_basename {
            Some(name) => Some(name.clone()),
            None => None,
        };
        let loads: bool = visible.model.is_some();
        show_model(&mut shared.cold, visible.model, name, full);
        if visible.ir_path_on_disk.is_some() {
            shared.cold.ir_path = visible.ir_path_on_disk;
            shared.cold.ir_hash = visible.ir_hash;
            shared.cold.ir_raw_samples = visible.ir_raw_samples;
            shared.cold.ir_raw_sample_rate = visible.ir_raw_sample_rate;
        } else if full {
            shared.cold.ir_path = None;
            shared.cold.ir_hash = None;
            shared.cold.ir_raw_samples = None;
            shared.cold.ir_raw_sample_rate = 0;
        }
        self.params = visible.params;
        if loads {
            self.params.model_path = visible.model_path_on_disk;
            self.params.model_basename = visible.model_basename;
            self.params.model_hash = visible.model_hash;
        } else if full {
            self.params.model_path = None;
            self.params.model_basename = None;
            self.params.model_hash = None;
        }
        add_search_path(&mut self.params.model_search_paths, visible.model_search_path_to_add);
    }
}

/// What became of a restore.
#[derive(Debug)]
pub enum RestoreCommit {
    /// The plug-in has not been active yet: the package is visible at once.
    Local,
    /// It is to be sent to the audio thread.
    Queued,
    /// It waits for a restart.
    Staged,
}

/// What became of a restore on its way to the audio thread.
#[derive(Debug)]
pub enum RestoreStep {
    /// None is on its way.
    Idle,
    /// It has just been sent.
    Sent,
    /// The ring was full; it is kept and tried again.
    Retained,
    /// It has been sent and is not acknowledged yet.
    Waiting,
    /// It has been acknowledged and becomes visible.
    Publish(RestorePublish),
}

/// Whether a package changes the latency of what is installed, or the oversampling factor.
pub open spec fn changes_latency(txn: RestoreTxn, shared: GuiSharedState) -> bool {
    ||| txn.model is Some && txn.model->Some_0.new_stream.latency_samples
        != shared.cold.current_stream_latency
    ||| txn.ir is Some && cabsim_latency(txn.ir->Some_0) != shared.cold.current_cabsim_latency
    ||| changes_factor(txn, shared)
}

/// Whether a package asks for another oversampling factor than the GUI shows.
pub open spec fn changes_factor(txn: RestoreTxn, shared: GuiSharedState) -> bool {
    txn.params.oversample.code_spec() != shared.ui_to_rt.param_oversample
}

/// What stays staged of earlier swaps: the components that the package does not have.
pub open spec fn overtaken(staged: Option<StagedSwap>, txn: RestoreTxn) -> Option<StagedSwap> {
    let staged = if txn.model is Some {
        without_model(staged)
    } else {
        staged
    };
    if txn.ir is Some {
        without_ir(staged)
    } else {
        staged
    }
}

impl NamClapMainThread {
    /// Commits a restore: at once before the first activation, with a restart where it changes
    /// the latency or the oversampling factor, through the ring otherwise. In the last two
    /// cases it takes the place of a restore that was staged, and of staged swaps of the
    /// components that it has. One restart serves all components.
    pub fn commit_restore(
        &mut self,
        shared: &mut GuiSharedState,
        txn: RestoreTxn,
        publish: RestorePublish,
    ) -> (commit: RestoreCommit)
        requires
            txn.model is Some ==> publish.model is Some,
        ensures
            old(shared).cold.buffer_size > 0 ==> *final(self) == (NamClapMainThread {
                pending_restore: final(self).pending_restore,
                staged_restore: final(self).staged_restore,
                staged_swap: final(self).staged_swap,
                requests: final(self).requests,
                ..*old(self)
            }),
            if old(shared).cold.buffer_size == 0 {
                let kept = GuiSharedState {
                    cold: ColdShared {
                        pending_model: match txn.model {
                            Some(m) => Some(
                                PendingModel {
                                    generation: m.generation,
                                    model: m.model_l,
                                    model_rate: publish.model->Some_0.model_rate,
                                    input_mult_adj: m.input_mult_adj,
                                    output_mult_adj: m.output_mult_adj,
                                },
                            ),
                            None => old(shared).cold.pending_model,
                        },
                        ..old(shared).cold
                    },
                    ..*old(shared)
                };
                &&& commit is Local
                &&& Self::restore_published(old(self), &kept, publish, final(self), final(shared))
            } else if changes_latency(txn, *old(shared)) {
                &&& commit is Staged
                &&& final(self).staged_restore == Some(StagedRestore { txn, publish })
                &&& final(self).pending_restore is None
                &&& final(self).staged_swap == overtaken(old(self).staged_swap, txn)
                &&& final(self).requests@ == old(self).requests@.push(HostRequest::Restart)
                &&& *final(shared) == (GuiSharedState {
                    cold: ColdShared {
                        pending_restart_os_factor: if changes_factor(txn, *old(shared)) {
                            PendingRestartOs::Pending(txn.params.oversample).encoded()
                        } else {
                            old(shared).cold.pending_restart_os_factor
                        },
                        ..old(shared).cold
                    },
                    ..*old(shared)
                })
            } else {
                &&& commit is Queued
                &&& final(self).staged_restore is None
                &&& final(self).pending_restore == Some(
                    PendingRestore {
                        generation: txn.generation,
                        txn: Some(txn),
                        publish,
                        seq: 0,
                    },
                )
                &&& final(self).staged_swap == overtaken(old(self).staged_swap, txn)
                &&& final(self).requests == old(self).requests
                &&& *final(shared) == *old(shared)
            },
    {
        if shared.cold.buffer_size == 0 {
            if let Some(m) = txn.model {
                let model_rate: u32 = match &publish.model {
                    Some(model) => model.model_rate,
                    None => 0,
                };
                shared.cold.pending_model = Some(
                    PendingModel {
                        generation: m.generation,
                        model: m.model_l,
                        model_rate,
                        input_mult_adj: m.input_mult_adj,
                        output_mult_adj: m.output_mult_adj,
                    },
                );
            }
            self.publish_restore(shared, publish);
            return RestoreCommit::Local;
        }
        if txn.model.is_some() {
            self.drop_staged_model();
        }
        if txn.ir.is_some() {
            self.drop_staged_ir();
        }
        let stream_changes: bool = match txn.model {
            Some(m) => m.new_stream.latency_samples != shared.cold.current_stream_latency,
            None => false,
        };
        let cabsim_changes: bool = match txn.ir {
            Some(ir) => {
                let latency: u32 = match ir {
                    Some(a) => a.latency_samples,
                    None => 0,
                };
                latency != shared.cold.current_cabsim_latency
            },
            None => false,
        };
        let factor_changes: bool = txn.params.oversample.code() != shared.ui_to_rt.param_oversample;
        if stream_changes || cabsim_changes || factor_changes {
            if factor_changes {
                PendingRestartOs::Pending(txn.params.oversample).store(
                    &mut shared.cold.pending_restart_os_factor,
                );
            }
            self.staged_restore = Some(StagedRestore { txn, publish });
            self.pending_restore = None;
            self.requests.push(HostRequest::Restart);
            RestoreCommit::Staged
        } else {
            self.staged_restore = None;
            self.pending_restore = Some(
                PendingRestore { generation: txn.generation, txn: Some(txn), publish, seq: 0 },
            );
            RestoreCommit::Queued
        }
    }

    /// What moving a restore on amounts to.
    pub open spec fn restore_flushed(
        before: &Self,
        cold: &ColdShared,
        after: &Self,
        cold_after: &ColdShared,
        step: RestoreStep,
    ) -> bool {
        &&& *cold_after == (ColdShared { cmd_next_seq: after.numbered(before, cold), ..*cold })
        &&& *after == (NamClapMainThread {
            cmd_producer: after.cmd_producer,
            pending_restore: after.pending_restore,
            requests: after.requests,
            ..*before
        })
        &&& match before.pending_restore {
            None => step is Idle && *after == *before,
            Some(pending) => match pending.txn {
                Some(txn) => {
                    &&& step is Sent || step is Retained
                    &&& before.cmd_producer.has_room_for(ClapParamPayload::RestoreTxn(txn))
                        ==> step is Sent
                    &&& step is Sent ==> {
                        &&& after.cmd_producer.pending() is None
                        &&& after.cmd_producer.sent(
                            &before.cmd_producer,
                            with_params_first(
                                before.cmd_producer.pending(),
                                ClapParamPayload::RestoreTxn(txn),
                            ),
                        )
                        &&& after.pending_restore == Some(
                            PendingRestore {
                                txn: None,
                                seq: cold_after.cmd_next_seq,
                                ..pending
                            },
                        )
                        &&& after.requests == before.requests
                    }
                    &&& step is Retained ==> {
                        &&& after.cmd_producer.refused(&before.cmd_producer)
                        &&& after.pending_restore == Some(pending)
                        &&& after.requests@ == before.requests@.push(
                            HostRequest::Callback,
                        )
                    }
                },
                None => if pending.seq <= cold.cmd_last_ack {
                    &&& step == RestoreStep::Publish(pending.publish)
                    &&& *after == (NamClapMainThread {
                        pending_restore: None,
                        ..*before
                    })
                } else {
                    &&& step is Waiting
                    &&& *after == *before
                },
            },
        }
    }

    /// Moves a restore on: it is sent when the ring has room, and becomes visible when the last
    /// acknowledgment of the audio thread covers it.
    pub fn flush_pending_restore(&mut self, cold: &mut ColdShared) -> (step: RestoreStep)
        requires
            old(self).cmd_producer.wf(),
        ensures
            final(self).cmd_producer.wf(),
            Self::restore_flushed(old(self), old(cold), final(self), final(cold), step),
    {
        proof {
            lemma_seq_after_adds(cold.cmd_next_seq, 0, 0);
        }
        match self.pending_restore.take() {
            None => RestoreStep::Idle,
            Some(pending) => match pending.txn {
                Some(txn) => {
                    match self.cmd_producer.try_push_command(
                        ClapParamPayload::RestoreTxn(txn),
                        &mut cold.cmd_next_seq,
                    ) {
                        Ok(seq) => {
                            self.pending_restore = Some(
                                PendingRestore {
                                    generation: pending.generation,
                                    txn: None,
                                    publish: pending.publish,
                                    seq,
                                },
                            );
                            RestoreStep::Sent
                        },
                        Err(_) => {
                            self.pending_restore = Some(pending);
                            self.requests.push(HostRequest::Callback);
                            RestoreStep::Retained
                        },
                    }
                },
                None => {
                    if self.cmd_producer.is_acked(pending.seq, &cold.cmd_last_ack) {
                        RestoreStep::Publish(pending.publish)
                    } else {
                        self.pending_restore = Some(pending);
                        RestoreStep::Waiting
                    }
                },
            },
        }
    }

    /// What waits for a restart: a restore comes before swaps that were staged earlier.
    pub open spec fn staged_spec(&self) -> Staged {
        let swap = match self.staged_swap {
            Some(swap) => swap,
            None => StagedSwap { model: None, ir: None },
        };
        match self.staged_restore {
            Some(restore) => Staged {
                model: if restore.txn.model is Some {
                    restore.txn.model
                } else {
                    swap.model
                },
                ir: if restore.txn.ir is Some {
                    restore.txn.ir
                } else {
                    swap.ir
                },
                restore: Some((restore.txn.generation, restore.txn.params)),
            },
            None => Staged { model: swap.model, ir: swap.ir, restore: None },
        }
    }

    /// What an activation has to install.
    pub fn staged(&self) -> (staged: Staged)
        ensures
            staged == self.staged_spec(),
    {
        let swap = match self.staged_swap {
            Some(swap) => swap,
            None => StagedSwap::default(),
        };
        match &self.staged_restore {
            Some(restore) => Staged {
                model: if restore.txn.model.is_some() { restore.txn.model } else { swap.model },
                ir: if restore.txn.ir.is_some() { restore.txn.ir } else { swap.ir },
                restore: Some((restore.txn.generation, restore.txn.params)),
            },
            None => Staged { model: swap.model, ir: swap.ir, restore: None },
        }
    }

    /// Forgets what was staged, once an activation has installed it. Returns what becomes
    /// visible with it.
    pub fn take_staged(&mut self) -> (publish: Option<RestorePublish>)
        ensures
            publish == (match old(self).staged_restore {
                Some(restore) => Some(restore.publish),
                None => None,
            }),
            *final(self) == (NamClapMainThread {
                staged_swap: None,
                staged_restore: None,
                ..*old(self)
            }),
    {
        self.staged_swap = None;
        match self.staged_restore.take() {
            Some(restore) => Some(restore.publish),
            None => None,
        }
    }
}

/// A package that asks for nothing new in latency is never held back; any other one is.
pub proof fn law_restore_policy(txn: RestoreTxn, shared: GuiSharedState)
    ensures
        txn.model is None && txn.ir is None && txn.params.oversample.code_spec()
            == shared.ui_to_rt.param_oversample ==> !changes_latency(txn, shared),
        txn.ir == Some(None::<CabSimHandle>) && shared.cold.current_cabsim_latency != 0
            ==> changes_latency(txn, shared),
{
}

} // verus!
