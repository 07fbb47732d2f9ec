//! The main thread: loading and clearing of models and impulse responses.
//!
//! A swap that keeps the latency is sent to the audio thread at once. One that changes it
//! waits, complete, for the host to restart the plug-in; until then the audio thread goes on
//! with the latency that the host knows. The latest wish of the user wins, for the model and
//! for the impulse response each.

use vstd::prelude::*;
use crate::command_scheduler::{lemma_seq_after_adds, with_params_first, CommandProducer};
use crate::metadata::{describe, describes, ModelMetadata};
use crate::params::{ProcessingParams, F32_ONE_BITS};
use crate::payload::{
    CabSimHandle, ClapParamPayload, LoadModelPayload, ModelHandle, ResamplerHandle,
    SlimmableRebuild, StreamHandle,
};
use crate::shared::{
    ColdShared, ModelInfo, PendingModel, PendingPresetLoad, PendingRestore, StagedRestore,
    StagedSwap,
};

verus! {

/// Partition of a cab-sim that is built before the block size of the host is known.
pub const FALLBACK_PARTITION: u32 = 256;

/// Host sample rate in Hz while it is unknown.
pub const FALLBACK_RATE: u32 = 48000;

/// Something that the host is to be told or asked.
#[derive(Debug)]
pub enum HostRequest {
    /// Call the main thread back.
    Callback,
    /// Restart the plug-in.
    Restart,
    /// Read the parameter values again.
    RescanParams,
    /// The session has unsaved changes.
    MarkDirty,
    LatencyChanged,
    PresetLoaded(PendingPresetLoad),
    PresetFailed(PendingPresetLoad, LoadFailure),
}

/// Where loading failed.
#[derive(Clone, Copy, Debug, PartialEq, Eq, Structural)]
pub enum LoadFailure {
    /// The model file could not be read or built.
    ModelBuild,
    /// The file holds no model.
    ModelMissing,
    /// No resampler for the rates of model and host.
    ResamplerProbe,
    /// The digest of the model file could not be computed.
    ModelHash,
    /// The resampler could not be built.
    Resampler,
    /// The buffers of the model could not be sized.
    ModelResize,
    /// The stream adapter could not be built.
    Stream,
    /// The impulse response could not be read.
    IrRead,
    /// The digest of the impulse response could not be computed.
    IrHash,
    /// The convolution engine could not be built.
    IrEngine,
    /// The cab-sim adapter could not be built.
    IrAdapter,
}

/// What became of a swap.
#[derive(Clone, Copy, Debug, PartialEq, Eq, Structural)]
pub enum Delivery {
    /// It is on its way to the audio thread.
    Sent,
    /// The ring was full; it is kept and tried again.
    Retained,
    /// It waits for a restart.
    Staged,
    /// It waits for the first activation.
    Deferred,
}

/// State of the main thread.
pub struct NamClapMainThread {
    /// Parameters as they are saved.
    pub params: ProcessingParams,
    pub cmd_producer: CommandProducer,
    pub slimmable_tx: rtrb::Producer<SlimmableRebuild>,
    /// What the host is to be told or asked, in order.
    pub requests: Vec<HostRequest>,
    pub last_reported_latency: u32,
    pub last_reported_cabsim_tail: u32,
    pub last_seen_slimmable_stale: u32,
    pub hugepage_synced: bool,
    /// A restore on its way to the audio thread.
    pub pending_restore: Option<PendingRestore>,
    /// A restore that waits for a restart.
    pub staged_restore: Option<StagedRestore>,
    /// Swaps that wait for a restart.
    pub staged_swap: Option<StagedSwap>,
}

/// What is staged once the model is no longer.
pub open spec fn without_model(staged: Option<StagedSwap>) -> Option<StagedSwap> {
    match staged {
        Some(s) => if s.ir is None {
            None
        } else {
            Some(StagedSwap { model: None, ..s })
        },
        None => None,
    }
}

/// What is staged once the cab-sim is no longer.
pub open spec fn without_ir(staged: Option<StagedSwap>) -> Option<StagedSwap> {
    match staged {
        Some(s) => if s.model is None {
            None
        } else {
            Some(StagedSwap { ir: None, ..s })
        },
        None => None,
    }
}

/// What is staged once a model is.
pub open spec fn with_model(staged: Option<StagedSwap>, p: LoadModelPayload) -> Option<StagedSwap> {
    Some(
        StagedSwap {
            model: Some(p),
            ir: match staged {
                Some(s) => s.ir,
                None => None,
            },
        },
    )
}

/// What is staged once a cab-sim or its removal is.
pub open spec fn with_ir(staged: Option<StagedSwap>, ir: Option<CabSimHandle>) -> Option<StagedSwap> {
    Some(
        StagedSwap {
            model: match staged {
                Some(s) => s.model,
                None => None,
            },
            ir: Some(ir),
        },
    )
}

/// The command that installs a model.
pub open spec fn load_command(p: LoadModelPayload) -> ClapParamPayload {
    ClapParamPayload::LoadModel {
        generation: p.generation,
        model_l: p.model_l,
        new_resampler: p.new_resampler,
        new_stream: p.new_stream,
        input_mult_adj: p.input_mult_adj,
        output_mult_adj: p.output_mult_adj,
    }
}

/// A model that is kept to be tried again.
pub open spec fn retained(p: LoadModelPayload, model_rate: u32) -> PendingModel {
    PendingModel {
        generation: p.generation,
        model: p.model_l,
        model_rate,
        input_mult_adj: p.input_mult_adj,
        output_mult_adj: p.output_mult_adj,
    }
}

/// The counter after `n`.
pub open spec fn next_counter(n: u32) -> u32 {
    ((n + 1) % 0x1_0000_0000) as u32
}

impl NamClapMainThread {
    /// What loading leaves alone.
    pub open spec fn same_reports(&self, before: &Self) -> bool {
        &&& self.slimmable_tx == before.slimmable_tx
        &&& self.last_reported_latency == before.last_reported_latency
        &&& self.last_reported_cabsim_tail == before.last_reported_cabsim_tail
        &&& self.last_seen_slimmable_stale == before.last_seen_slimmable_stale
        &&& self.hugepage_synced == before.hugepage_synced
        &&& self.pending_restore == before.pending_restore
    }

    /// Gives up a staged model.
    pub(crate) fn drop_staged_model(&mut self)
        ensures
            *final(self) == (NamClapMainThread {
                staged_swap: without_model(old(self).staged_swap),
                ..*old(self)
            }),
    {
        if let Some(mut staged) = self.staged_swap {
            staged.clear_model();
            self.staged_swap = if staged.is_empty() { None } else { Some(staged) };
        }
    }

    /// Gives up a staged cab-sim.
    pub(crate) fn drop_staged_ir(&mut self)
        ensures
            *final(self) == (NamClapMainThread {
                staged_swap: without_ir(old(self).staged_swap),
                ..*old(self)
            }),
    {
        if let Some(mut staged) = self.staged_swap {
            staged.clear_ir();
            self.staged_swap = if staged.is_empty() { None } else { Some(staged) };
        }
    }

    /// The number of the last command sent, where `self` has come out of `before` and `cold` was
    /// the shared state then.
    pub open spec fn numbered(&self, before: &Self, cold: &ColdShared) -> u64 {
        self.cmd_producer.numbered(&before.cmd_producer, cold.cmd_next_seq)
    }

    /// Sends a model to an active plug-in, or holds it back for a restart where its stream
    /// changes the latency. A restore that waits for a restart is overtaken by it.
    fn deliver_model(&mut self, cold: &mut ColdShared, p: LoadModelPayload, model_rate: u32) -> (delivery:
        Delivery)
        requires
            old(self).cmd_producer.wf(),
        ensures
            final(self).cmd_producer.wf(),
            final(self).same_reports(old(self)),
            final(self).params == old(self).params,
            final(self).staged_restore is None,
            delivery is Staged <==> p.new_stream.latency_samples
                != old(cold).current_stream_latency,
            match delivery {
                Delivery::Sent => {
                    &&& final(self).staged_swap == without_model(old(self).staged_swap)
                    &&& final(self).cmd_producer.pending() is None
                    &&& final(self).cmd_producer.sent(
                        &old(self).cmd_producer,
                        with_params_first(old(self).cmd_producer.pending(), load_command(p)),
                    )
                    &&& final(self).requests == old(self).requests
                    &&& *final(cold) == (ColdShared {
                        cmd_next_seq: final(self).numbered(old(self), old(cold)),
                        ..*old(cold)
                    })
                },
                Delivery::Retained => {
                    &&& final(self).staged_swap == without_model(old(self).staged_swap)
                    &&& final(self).cmd_producer.refused(&old(self).cmd_producer)
                    &&& final(self).requests == old(self).requests
                    &&& *final(cold) == (ColdShared {
                        pending_model: Some(retained(p, model_rate)),
                        cmd_next_seq: final(self).numbered(old(self), old(cold)),
                        ..*old(cold)
                    })
                },
                Delivery::Staged => {
                    &&& final(self).staged_swap == with_model(old(self).staged_swap, p)
                    &&& final(self).cmd_producer == old(self).cmd_producer
                    &&& final(self).requests@ == old(self).requests@.push(HostRequest::Restart)
                    &&& *final(cold) == *old(cold)
                },
                Delivery::Deferred => false,
            },
            p.new_stream.latency_samples == old(cold).current_stream_latency
                && old(self).cmd_producer.has_room_for(load_command(p)) ==> delivery is Sent,
    {
        proof {
            lemma_seq_after_adds(cold.cmd_next_seq, 0, 0);
        }
        self.staged_restore = None;
        if p.new_stream.latency_samples == cold.current_stream_latency {
            self.drop_staged_model();
            let cmd = ClapParamPayload::LoadModel {
                generation: p.generation,
                model_l: p.model_l,
                new_resampler: p.new_resampler,
                new_stream: p.new_stream,
                input_mult_adj: p.input_mult_adj,
                output_mult_adj: p.output_mult_adj,
            };
            match self.cmd_producer.try_push_command(cmd, &mut cold.cmd_next_seq) {
                Ok(_) => Delivery::Sent,
                Err(_) => {
                    cold.pending_model = Some(
                        PendingModel {
                            generation: p.generation,
                            model: p.model_l,
                            model_rate,
                            input_mult_adj: p.input_mult_adj,
                            output_mult_adj: p.output_mult_adj,
                        },
                    );
                    Delivery::Retained
                },
            }
        } else {
            let mut staged = match self.staged_swap {
                Some(staged) => staged,
                None => StagedSwap::default(),
            };
            staged.model = Some(p);
            self.staged_swap = Some(staged);
            self.requests.push(HostRequest::Restart);
            Delivery::Staged
        }
    }
}

/// A model as it was read from its file.
#[derive(Debug)]
pub struct BuiltModel {
    /// `None` where the file holds no model.
    pub model: Option<ModelHandle>,
    /// Native sample rate in Hz.
    pub sample_rate: u32,
    /// Input calibration multiplier (bit pattern).
    pub input_mult_adj: u32,
    /// Output calibration multiplier (bit pattern).
    pub output_mult_adj: u32,
    pub architecture: String,
    pub topology: String,
    pub metadata: Option<ModelMetadata>,
    pub info: ModelInfo,
    /// A copy of the full weights of a WaveNet, if one could be made.
    pub full_wavenet: Option<ModelHandle>,
}

/// What came of the steps of loading a model, each `None` or `false` where it failed. The last
/// three count only for an active plug-in.
#[derive(Debug)]
pub struct ModelLoad {
    pub path: String,
    /// Last component of the path.
    pub basename: Option<String>,
    /// Directory of the file.
    pub parent: Option<String>,
    pub build: Option<BuiltModel>,
    /// Whether the rates of model and host can be converted.
    pub probe_ok: bool,
    /// SHA-256 of the file, in hex.
    pub hash: Option<String>,
    pub resampler: Option<ResamplerHandle>,
    /// Whether the buffers of the model fit the block size.
    pub resized: bool,
    pub stream: Option<StreamHandle>,
}

impl ModelLoad {
    /// The first step that failed.
    pub open spec fn failure(self, active: bool) -> Option<LoadFailure> {
        if self.build is None {
            Some(LoadFailure::ModelBuild)
        } else if self.build->Some_0.model is None {
            Some(LoadFailure::ModelMissing)
        } else if !self.probe_ok {
            Some(LoadFailure::ResamplerProbe)
        } else if self.hash is None {
            Some(LoadFailure::ModelHash)
        } else if active && self.resampler is None {
            Some(LoadFailure::Resampler)
        } else if active && !self.resized {
            Some(LoadFailure::ModelResize)
        } else if active && self.stream is None {
            Some(LoadFailure::Stream)
        } else {
            None
        }
    }

    /// The model is adopted only with a digest, so that no path is ever saved without one.
    pub open spec fn reaches_identity(self) -> bool {
        &&& self.build is Some && self.build->Some_0.model is Some
        &&& self.probe_ok
        &&& self.hash is Some
    }

    /// The model and everything that is swapped with it, under the next generation.
    pub open spec fn payload(self, generation: u64) -> LoadModelPayload {
        LoadModelPayload {
            generation,
            model_l: self.build->Some_0.model,
            new_resampler: self.resampler->Some_0,
            new_stream: self.stream->Some_0,
            input_mult_adj: self.build->Some_0.input_mult_adj,
            output_mult_adj: self.build->Some_0.output_mult_adj,
        }
    }

    /// The model as it is kept until it can be sent.
    pub open spec fn kept(self, generation: u64) -> PendingModel {
        PendingModel {
            generation,
            model: self.build->Some_0.model,
            model_rate: self.build->Some_0.sample_rate,
            input_mult_adj: self.build->Some_0.input_mult_adj,
            output_mult_adj: self.build->Some_0.output_mult_adj,
        }
    }

    /// `after` is `before` with the path of the model and its digest, once the model is adopted.
    pub open spec fn adopted(self, before: ProcessingParams, after: ProcessingParams) -> bool {
        if self.reaches_identity() {
            &&& after == (ProcessingParams {
                model_path: Some(self.path),
                model_basename: self.basename,
                model_search_paths: after.model_search_paths,
                model_hash: self.hash,
                ..before
            })
            &&& searched(before.model_search_paths@, after.model_search_paths@, self.parent)
        } else {
            after == before
        }
    }

    /// `after` is `before` with the identity of the model, once that is adopted.
    pub open spec fn identified(self, before: ColdShared, after: ColdShared) -> bool {
        if self.reaches_identity() {
            let built = self.build->Some_0;
            &&& after == (ColdShared {
                ui_model_metadata: after.ui_model_metadata,
                ui_model_info: Some(built.info),
                model_sample_rate: built.sample_rate,
                model_generation: before.next_model_generation(),
                full_wavenet_model: if built.model->Some_0.wavenet is Some {
                    built.full_wavenet
                } else {
                    None
                },
                ..before
            })
            &&& after.ui_model_metadata is Some
            &&& describes(
                after.ui_model_metadata->Some_0,
                built.architecture@,
                built.topology@,
                built.sample_rate,
                built.metadata,
            )
        } else {
            after == before
        }
    }
}

/// Gives a model its identity: what the GUI shows of it, its rate, its generation, and the copy
/// that slices are made from.
fn identify(cold: &mut ColdShared, built: BuiltModel, model: ModelHandle) -> (generation: u64)
    ensures
        generation == old(cold).next_model_generation(),
        *final(cold) == (ColdShared {
            ui_model_metadata: final(cold).ui_model_metadata,
            ui_model_info: Some(built.info),
            model_sample_rate: built.sample_rate,
            model_generation: generation,
            full_wavenet_model: if model.wavenet is Some {
                built.full_wavenet
            } else {
                None
            },
            ..*old(cold)
        }),
        final(cold).ui_model_metadata is Some,
        describes(
            final(cold).ui_model_metadata->Some_0,
            built.architecture@,
            built.topology@,
            built.sample_rate,
            built.metadata,
        ),
{
    cold.ui_model_metadata = Some(
        describe(built.architecture, built.topology, built.sample_rate, built.metadata),
    );
    cold.ui_model_info = Some(built.info);
    cold.model_sample_rate = built.sample_rate;
    let generation: u64 = cold.allocate_model_generation();
    cold.full_wavenet_model = if model.wavenet.is_some() { built.full_wavenet } else { None };
    generation
}

/// Whether a path is among `paths`.
pub open spec fn listed(paths: Seq<String>, path: String) -> bool {
    exists|i: int| 0 <= i < paths.len() && (#[trigger] paths[i])@ == path@
}

/// `after` is `before` with the directory added, unless it was there.
pub open spec fn searched(before: Seq<String>, after: Seq<String>, parent: Option<String>) -> bool {
    match parent {
        Some(p) => if listed(before, p) {
            after == before
        } else {
            after == before.push(p)
        },
        None => after == before,
    }
}

/// Adds a directory to the search paths, unless it is there.
pub(crate) fn add_search_path(paths: &mut Vec<String>, parent: Option<String>)
    ensures
        searched(old(paths)@, final(paths)@, parent),
{
    match parent {
        None => {},
        Some(p) => {
            let mut i: usize = 0;
            while i < paths.len()
                invariant
                    i <= paths@.len(),
                    paths@ == old(paths)@,
                    parent == Some(p),
                    forall|k: int| 0 <= k < i ==> (#[trigger] paths@[k])@ != p@,
                decreases paths@.len() - i,
            {
                if paths[i] == p {
                    assert(old(paths)@[i as int]@ == p@);
                    return;
                }
                i = i + 1;
            }
            paths.push(p);
        },
    }
}

impl NamClapMainThread {
    /// Records that a model has been loaded or is sure to be.
    fn finish_load(&mut self, cold: &mut ColdShared, name: String)
        ensures
            final(cold).ui_model_name == name,
            *final(cold) == (ColdShared {
                model_load_counter: next_counter(old(cold).model_load_counter),
                ui_model_name: name,
                ..*old(cold)
            }),
            final(self).requests@ == old(self).requests@.push(HostRequest::RescanParams).push(
                HostRequest::MarkDirty,
            ),
            *final(self) == (NamClapMainThread { requests: final(self).requests, ..*old(self) }),
    {
        cold.model_load_counter = cold.model_load_counter.wrapping_add(1);
        cold.ui_model_name = name;
        self.requests.push(HostRequest::RescanParams);
        self.requests.push(HostRequest::MarkDirty);
    }
}

impl NamClapMainThread {
    /// Takes over the path of a model and its digest.
    fn adopt_path(
        &mut self,
        path: String,
        basename: Option<String>,
        parent: Option<String>,
        hash: String,
    )
        ensures
            final(self).params == (ProcessingParams {
                model_path: Some(path),
                model_basename: basename,
                model_search_paths: final(self).params.model_search_paths,
                model_hash: Some(hash),
                ..old(self).params
            }),
            searched(
                old(self).params.model_search_paths@,
                final(self).params.model_search_paths@,
                parent,
            ),
            *final(self) == (NamClapMainThread { params: final(self).params, ..*old(self) }),
    {
        self.params.model_path = Some(path);
        self.params.model_basename = basename;
        add_search_path(&mut self.params.model_search_paths, parent);
        self.params.model_hash = Some(hash);
    }

    /// Hands a model to an active plug-in. It counts as loaded, and its name is shown, unless
    /// the ring was full.
    fn hand_over(
        &mut self,
        cold: &mut ColdShared,
        p: LoadModelPayload,
        model_rate: u32,
        name: String,
    ) -> (delivery: Delivery)
        requires
            old(self).cmd_producer.wf(),
        ensures
            final(self).cmd_producer.wf(),
            final(self).same_reports(old(self)),
            final(self).params == old(self).params,
            final(self).staged_restore is None,
            !(delivery is Deferred),
            delivery is Staged <==> p.new_stream.latency_samples
                != old(cold).current_stream_latency,
            p.new_stream.latency_samples == old(cold).current_stream_latency
                && old(self).cmd_producer.has_room_for(load_command(p)) ==> delivery is Sent,
            final(self).staged_swap == (match delivery {
                Delivery::Staged => with_model(old(self).staged_swap, p),
                _ => without_model(old(self).staged_swap),
            }),
            match delivery {
                Delivery::Sent => {
                    &&& final(self).cmd_producer.pending() is None
                    &&& final(self).cmd_producer.sent(
                        &old(self).cmd_producer,
                        with_params_first(old(self).cmd_producer.pending(), load_command(p)),
                    )
                },
                Delivery::Retained => final(self).cmd_producer.refused(&old(self).cmd_producer),
                _ => final(self).cmd_producer == old(self).cmd_producer,
            },
            final(self).requests@ == old(self).requests@ + (match delivery {
                Delivery::Retained => seq![HostRequest::Callback],
                Delivery::Staged => seq![
                    HostRequest::Restart,
                    HostRequest::RescanParams,
                    HostRequest::MarkDirty,
                ],
                _ => seq![HostRequest::RescanParams, HostRequest::MarkDirty],
            }),
            *final(cold) == (if delivery is Retained {
                ColdShared {
                    pending_model: Some(retained(p, model_rate)),
                    cmd_next_seq: final(self).numbered(old(self), old(cold)),
                    ..*old(cold)
                }
            } else {
                ColdShared {
                    model_load_counter: next_counter(old(cold).model_load_counter),
                    ui_model_name: name,
                    cmd_next_seq: final(self).numbered(old(self), old(cold)),
                    ..*old(cold)
                }
            }),
    {
        let delivery = self.deliver_model(cold, p, model_rate);
        if let Delivery::Retained = delivery {
            self.requests.push(HostRequest::Callback);
            assert(self.requests@ =~= old(self).requests@ + seq![HostRequest::Callback]);
        } else {
            self.finish_load(cold, name);
            assert(delivery is Staged ==> self.requests@ =~= old(self).requests@ + seq![
                HostRequest::Restart,
                HostRequest::RescanParams,
                HostRequest::MarkDirty,
            ]);
            assert(delivery is Sent ==> self.requests@ =~= old(self).requests@ + seq![
                HostRequest::RescanParams,
                HostRequest::MarkDirty,
            ]);
        }
        delivery
    }

    /// What loading a model amounts to.
    pub open spec fn model_loaded(
        before: &Self,
        cold: &ColdShared,
        load: ModelLoad,
        after: &Self,
        cold_after: &ColdShared,
        loaded: Result<Delivery, LoadFailure>,
    ) -> bool {
        &&& after.same_reports(before)
        &&& load.adopted(before.params, after.params)
        &&& match load.failure(cold.buffer_size > 0) {
            Some(failure) => {
                &&& loaded == Err::<Delivery, LoadFailure>(failure)
                &&& load.identified(*cold, *cold_after)
                &&& *after == (NamClapMainThread {
                    params: after.params,
                    ..*before
                })
            },
            None => {
                let generation = cold.next_model_generation();
                let p = load.payload(generation);
                let identified = ColdShared {
                    pending_model: cold.pending_model,
                    model_load_counter: cold.model_load_counter,
                    ui_model_name: cold.ui_model_name,
                    cmd_next_seq: cold.cmd_next_seq,
                    ..*cold_after
                };
                &&& loaded is Ok
                &&& cold_after.cmd_next_seq == after.numbered(before, cold)
                &&& load.identified(*cold, identified)
                &&& cold_after.pending_model == (match loaded->Ok_0 {
                    Delivery::Retained | Delivery::Deferred => Some(load.kept(generation)),
                    _ => cold.pending_model,
                })
                &&& loaded->Ok_0 is Retained ==> {
                    &&& cold_after.model_load_counter == cold.model_load_counter
                    &&& cold_after.ui_model_name == cold.ui_model_name
                }
                &&& !(loaded->Ok_0 is Retained) ==> {
                    &&& cold_after.model_load_counter == next_counter(
                        cold.model_load_counter,
                    )
                    &&& cold_after.ui_model_name@ == (match load.basename {
                        Some(name) => name@,
                        None => Seq::empty(),
                    })
                }
                &&& after.requests@ == before.requests@ + (match loaded->Ok_0 {
                    Delivery::Retained => seq![HostRequest::Callback],
                    Delivery::Staged => seq![
                        HostRequest::Restart,
                        HostRequest::RescanParams,
                        HostRequest::MarkDirty,
                    ],
                    _ => seq![HostRequest::RescanParams, HostRequest::MarkDirty],
                })
                &&& loaded->Ok_0 is Deferred <==> cold.buffer_size == 0
                &&& cold.buffer_size > 0 && p.new_stream.latency_samples
                    == cold.current_stream_latency && before.cmd_producer.has_room_for(
                    load_command(p),
                ) ==> loaded->Ok_0 is Sent
                &&& loaded->Ok_0 is Staged <==> cold.buffer_size > 0
                    && p.new_stream.latency_samples != cold.current_stream_latency
                &&& after.staged_restore == (if cold.buffer_size > 0 {
                    None
                } else {
                    before.staged_restore
                })
                &&& after.staged_swap == (match loaded->Ok_0 {
                    Delivery::Sent | Delivery::Retained => without_model(
                        before.staged_swap,
                    ),
                    Delivery::Staged => with_model(before.staged_swap, p),
                    Delivery::Deferred => before.staged_swap,
                })
                &&& match loaded->Ok_0 {
                    Delivery::Sent => {
                        &&& after.cmd_producer.pending() is None
                        &&& after.cmd_producer.sent(
                            &before.cmd_producer,
                            with_params_first(
                                before.cmd_producer.pending(),
                                load_command(p),
                            ),
                        )
                    },
                    Delivery::Retained => after.cmd_producer.refused(
                        &before.cmd_producer,
                    ),
                    _ => after.cmd_producer == before.cmd_producer,
                }
            },
        }
    }

    /// Loads a model.
    ///
    /// Nothing changes before the digest of the file is known. Then the path is adopted, and the
    /// model has its identity and its generation. An active plug-in gets it at once, or with the next
    /// restart where its stream changes the latency; it waits for the first activation
    /// otherwise. The load counts, and the name is shown, unless the ring was full.
    pub fn load_model(&mut self, cold: &mut ColdShared, load: ModelLoad) -> (loaded: Result<
        Delivery,
        LoadFailure,
    >)
        requires
            old(self).cmd_producer.wf(),
        ensures
            final(self).cmd_producer.wf(),
            Self::model_loaded(old(self), old(cold), load, final(self), final(cold), loaded),
    {
        let built = match load.build {
            Some(built) => built,
            None => {
                return Err(LoadFailure::ModelBuild);
            },
        };
        let model = match built.model {
            Some(model) => model,
            None => {
                return Err(LoadFailure::ModelMissing);
            },
        };
        if !load.probe_ok {
            return Err(LoadFailure::ResamplerProbe);
        }
        let name = match &load.basename {
            Some(name) => name.clone(),
            None => String::new(),
        };
        let hash = match load.hash {
            Some(hash) => hash,
            None => {
                return Err(LoadFailure::ModelHash);
            },
        };
        self.adopt_path(load.path, load.basename, load.parent, hash);
        let model_rate: u32 = built.sample_rate;
        let (input_mult_adj, output_mult_adj) = (built.input_mult_adj, built.output_mult_adj);
        let generation: u64 = identify(cold, built, model);
        let ghost named = *cold;
        proof {
            lemma_seq_after_adds(cold.cmd_next_seq, 0, 0);
        }
        assert(load.identified(*old(cold), named));
        if cold.buffer_size > 0 {
            let new_resampler = match load.resampler {
                Some(resampler) => resampler,
                None => {
                    return Err(LoadFailure::Resampler);
                },
            };
            if !load.resized {
                return Err(LoadFailure::ModelResize);
            }
            let new_stream = match load.stream {
                Some(stream) => stream,
                None => {
                    return Err(LoadFailure::Stream);
                },
            };
            let p = LoadModelPayload {
                generation,
                model_l: Some(model),
                new_resampler,
                new_stream,
                input_mult_adj,
                output_mult_adj,
            };
            assert(p == load.payload(generation));
            let delivery = self.hand_over(cold, p, model_rate, name);
            assert(named == (ColdShared {
                pending_model: old(cold).pending_model,
                model_load_counter: old(cold).model_load_counter,
                ui_model_name: old(cold).ui_model_name,
                cmd_next_seq: old(cold).cmd_next_seq,
                ..*cold
            }));
            Ok(delivery)
        } else {
            cold.pending_model = Some(
                PendingModel {
                    generation,
                    model: Some(model),
                    model_rate,
                    input_mult_adj,
                    output_mult_adj,
                },
            );
            self.finish_load(cold, name);
            assert(self.requests@ =~= old(self).requests@ + seq![
                HostRequest::RescanParams,
                HostRequest::MarkDirty,
            ]);
            assert(named == (ColdShared {
                pending_model: old(cold).pending_model,
                model_load_counter: old(cold).model_load_counter,
                ui_model_name: old(cold).ui_model_name,
                cmd_next_seq: old(cold).cmd_next_seq,
                ..*cold
            }));
            Ok(Delivery::Deferred)
        }
    }
}

/// The sample rate of the host, or a common one while it is unknown.
pub fn host_rate(cold: &ColdShared) -> (rate: u32)
    ensures
        rate == host_rate_spec(*cold),
{
    if cold.sample_rate == 0 {
        FALLBACK_RATE
    } else {
        cold.sample_rate
    }
}

pub open spec fn host_rate_spec(cold: ColdShared) -> u32 {
    if cold.sample_rate == 0 {
        FALLBACK_RATE
    } else {
        cold.sample_rate
    }
}

/// The partition size that a cab-sim is built with.
pub fn cabsim_partition(cold: &ColdShared) -> (partition: u32)
    ensures
        partition == (if cold.buffer_size > 0 {
            cold.buffer_size
        } else {
            FALLBACK_PARTITION
        }),
{
    if cold.buffer_size > 0 {
        cold.buffer_size
    } else {
        FALLBACK_PARTITION
    }
}

/// Samples of an impulse response at the rate of the host.
#[derive(Debug)]
pub struct IrSamples {
    /// Bit patterns.
    pub samples: Vec<u32>,
    /// Sample rate in Hz.
    pub sample_rate: u32,
}

/// What came of the steps of loading an impulse response, each `None` or `false` where it
/// failed. The adapter counts only for an active plug-in.
#[derive(Debug)]
pub struct IrLoad {
    pub path: String,
    pub read: Option<IrSamples>,
    /// SHA-256 of the file, in hex.
    pub hash: Option<String>,
    pub engine_ok: bool,
    pub adapter: Option<CabSimHandle>,
}

impl IrLoad {
    /// The first step that failed.
    pub open spec fn failure(self, active: bool) -> Option<LoadFailure> {
        if self.read is None {
            Some(LoadFailure::IrRead)
        } else if self.hash is None {
            Some(LoadFailure::IrHash)
        } else if !self.engine_ok {
            Some(LoadFailure::IrEngine)
        } else if active && self.adapter is None {
            Some(LoadFailure::IrAdapter)
        } else {
            None
        }
    }
}

impl NamClapMainThread {
    /// What loading an impulse response amounts to.
    pub open spec fn ir_loaded(
        before: &Self,
        cold: &ColdShared,
        load: IrLoad,
        after: &Self,
        cold_after: &ColdShared,
        loaded: Result<Delivery, LoadFailure>,
    ) -> bool {
        &&& after.same_reports(before)
        &&& match load.failure(cold.buffer_size > 0) {
            Some(failure) => {
                &&& loaded == Err::<Delivery, LoadFailure>(failure)
                &&& *cold_after == *cold
                &&& *after == (NamClapMainThread {
                    staged_restore: if failure is IrAdapter {
                        None
                    } else {
                        before.staged_restore
                    },
                    ..*before
                })
            },
            None => {
                &&& loaded is Ok
                &&& loaded->Ok_0 is Deferred <==> cold.buffer_size == 0
                &&& loaded->Ok_0 is Staged <==> cold.buffer_size > 0
                    && cold.buffer_size != cold.current_cabsim_latency
                &&& cold.buffer_size > 0 && cold.buffer_size
                    == cold.current_cabsim_latency && before.cmd_producer.has_room_for(
                    ClapParamPayload::LoadCabIr { adapter: load.adapter },
                ) ==> loaded->Ok_0 is Sent
                &&& after.staged_restore == (if cold.buffer_size > 0 {
                    None
                } else {
                    before.staged_restore
                })
                &&& after.staged_swap == (match loaded->Ok_0 {
                    Delivery::Sent | Delivery::Retained => without_ir(before.staged_swap),
                    Delivery::Staged => with_ir(before.staged_swap, load.adapter),
                    Delivery::Deferred => before.staged_swap,
                })
                &&& match loaded->Ok_0 {
                    Delivery::Sent => {
                        &&& after.cmd_producer.pending() is None
                        &&& after.cmd_producer.sent(
                            &before.cmd_producer,
                            with_params_first(
                                before.cmd_producer.pending(),
                                ClapParamPayload::LoadCabIr { adapter: load.adapter },
                            ),
                        )
                    },
                    Delivery::Retained => after.cmd_producer.refused(
                        &before.cmd_producer,
                    ),
                    _ => after.cmd_producer == before.cmd_producer,
                }
                &&& after.requests@ == (match loaded->Ok_0 {
                    Delivery::Retained => before.requests@.push(HostRequest::Callback),
                    Delivery::Staged => before.requests@.push(HostRequest::Restart),
                    _ => before.requests@,
                })
                &&& if loaded->Ok_0 is Retained {
                    &&& after.params == before.params
                    &&& *cold_after == (ColdShared {
                        ui_pending_ir: Some(load.path),
                        cmd_next_seq: after.numbered(before, cold),
                        ..*cold
                    })
                } else {
                    &&& after.params == (ProcessingParams {
                        ir_path: Some(load.path),
                        ir_hash: load.hash,
                        ..before.params
                    })
                    &&& *cold_after == (ColdShared {
                        ir_path: Some(load.path),
                        ir_hash: load.hash,
                        ir_raw_samples: Some(load.read->Some_0.samples),
                        ir_raw_sample_rate: load.read->Some_0.sample_rate,
                        cmd_next_seq: after.numbered(before, cold),
                        ..*cold
                    })
                }
            },
        }
    }

    /// Loads an impulse response.
    ///
    /// The latency of a cab-sim is one partition. An active plug-in gets the response at once
    /// where that is the latency of the one it has; the first response waits for a restart.
    /// Path, digest and samples are adopted unless the ring was full: then the request is
    /// made again.
    pub fn load_cabsim(&mut self, cold: &mut ColdShared, load: IrLoad) -> (loaded: Result<
        Delivery,
        LoadFailure,
    >)
        requires
            old(self).cmd_producer.wf(),
        ensures
            final(self).cmd_producer.wf(),
            Self::ir_loaded(old(self), old(cold), load, final(self), final(cold), loaded),
    {
        let ir = match load.read {
            Some(ir) => ir,
            None => {
                return Err(LoadFailure::IrRead);
            },
        };
        let hash = match load.hash {
            Some(hash) => hash,
            None => {
                return Err(LoadFailure::IrHash);
            },
        };
        if !load.engine_ok {
            return Err(LoadFailure::IrEngine);
        }
        proof {
            lemma_seq_after_adds(cold.cmd_next_seq, 0, 0);
        }
        let delivery = if cold.buffer_size > 0 {
            self.staged_restore = None;
            if load.adapter.is_none() {
                return Err(LoadFailure::IrAdapter);
            }
            if cold.buffer_size == cold.current_cabsim_latency {
                self.drop_staged_ir();
                match self.cmd_producer.try_push_command(
                    ClapParamPayload::LoadCabIr { adapter: load.adapter },
                    &mut cold.cmd_next_seq,
                ) {
                    Ok(_) => Delivery::Sent,
                    Err(_) => {
                        cold.ui_pending_ir = Some(load.path);
                        self.requests.push(HostRequest::Callback);
                        return Ok(Delivery::Retained);
                    },
                }
            } else {
                self.stage_ir(load.adapter);
                Delivery::Staged
            }
        } else {
            Delivery::Deferred
        };
        cold.ir_path = Some(load.path.clone());
        cold.ir_hash = Some(hash.clone());
        cold.ir_raw_samples = Some(ir.samples);
        cold.ir_raw_sample_rate = ir.sample_rate;
        self.params.ir_path = Some(load.path);
        self.params.ir_hash = Some(hash);
        Ok(delivery)
    }

    /// Holds a cab-sim, or its removal, back for a restart.
    pub(crate) fn stage_ir(&mut self, ir: Option<CabSimHandle>)
        ensures
            final(self).staged_swap == with_ir(old(self).staged_swap, ir),
            final(self).requests@ == old(self).requests@.push(HostRequest::Restart),
            *final(self) == (NamClapMainThread {
                staged_swap: final(self).staged_swap,
                requests: final(self).requests,
                ..*old(self)
            }),
    {
        let mut staged = match self.staged_swap {
            Some(staged) => staged,
            None => StagedSwap::default(),
        };
        staged.ir = Some(ir);
        self.staged_swap = Some(staged);
        self.requests.push(HostRequest::Restart);
    }

    /// Clears the model. `resampler` and `stream` are those for running without one; they
    /// count only for an active plug-in.
    pub fn clear_model(
        &mut self,
        cold: &mut ColdShared,
        resampler: Option<ResamplerHandle>,
        stream: Option<StreamHandle>,
    ) -> (cleared: Result<Delivery, LoadFailure>)
        requires
            old(self).cmd_producer.wf(),
        ensures
            final(self).cmd_producer.wf(),
            final(self).same_reports(old(self)),
            final(self).params == (ProcessingParams {
                model_path: None,
                model_basename: None,
                model_hash: None,
                ..old(self).params
            }),
            *final(cold) == (ColdShared {
                model_generation: old(cold).next_model_generation(),
                full_wavenet_model: None,
                ui_model_metadata: None,
                ui_model_info: None,
                ui_model_name: final(cold).ui_model_name,
                model_sample_rate: 0,
                pending_model: final(cold).pending_model,
                model_load_counter: final(cold).model_load_counter,
                cmd_next_seq: final(self).numbered(old(self), old(cold)),
                ..*old(cold)
            }),
            final(cold).ui_model_name@.len() == 0,
            ({
                let active = old(cold).buffer_size > 0;
                let p = cleared_payload(
                    old(cold).next_model_generation(),
                    resampler->Some_0,
                    stream->Some_0,
                );
                let kept = retained(p, host_rate_spec(*old(cold)));
                if active && resampler is None {
                    &&& cleared == Err::<Delivery, LoadFailure>(LoadFailure::Resampler)
                    &&& final(cold).pending_model == old(cold).pending_model
                    &&& final(cold).model_load_counter == old(cold).model_load_counter
                    &&& *final(self) == (NamClapMainThread {
                        params: final(self).params,
                        ..*old(self)
                    })
                } else if active && stream is None {
                    &&& cleared == Err::<Delivery, LoadFailure>(LoadFailure::Stream)
                    &&& final(cold).pending_model == old(cold).pending_model
                    &&& final(cold).model_load_counter == old(cold).model_load_counter
                    &&& *final(self) == (NamClapMainThread {
                        params: final(self).params,
                        ..*old(self)
                    })
                } else {
                    &&& cleared is Ok
                    &&& cleared->Ok_0 is Deferred <==> !active
                    &&& cleared->Ok_0 is Staged <==> active && p.new_stream.latency_samples
                        != old(cold).current_stream_latency
                    &&& active && p.new_stream.latency_samples == old(cold).current_stream_latency
                        && old(self).cmd_producer.has_room_for(load_command(p))
                        ==> cleared->Ok_0 is Sent
                    &&& final(cold).model_load_counter == next_counter(
                        old(cold).model_load_counter,
                    )
                    &&& final(self).staged_restore == (if active {
                        None
                    } else {
                        old(self).staged_restore
                    })
                    &&& match cleared->Ok_0 {
                        Delivery::Sent => {
                            &&& final(cold).pending_model == old(cold).pending_model
                            &&& final(self).staged_swap == without_model(old(self).staged_swap)
                            &&& final(self).requests == old(self).requests
                            &&& final(self).cmd_producer.pending() is None
                            &&& final(self).cmd_producer.sent(
                                &old(self).cmd_producer,
                                with_params_first(
                                    old(self).cmd_producer.pending(),
                                    load_command(p),
                                ),
                            )
                        },
                        Delivery::Retained => {
                            &&& final(cold).pending_model == Some(kept)
                            &&& final(self).staged_swap == without_model(old(self).staged_swap)
                            &&& final(self).requests == old(self).requests
                            &&& final(self).cmd_producer.refused(&old(self).cmd_producer)
                        },
                        Delivery::Staged => {
                            &&& final(cold).pending_model == old(cold).pending_model
                            &&& final(self).staged_swap == with_model(old(self).staged_swap, p)
                            &&& final(self).requests@ == old(self).requests@.push(
                                HostRequest::Restart,
                            )
                            &&& final(self).cmd_producer == old(self).cmd_producer
                        },
                        Delivery::Deferred => {
                            &&& final(cold).pending_model == Some(
                                PendingModel {
                                    generation: old(cold).next_model_generation(),
                                    model: None,
                                    model_rate: host_rate_spec(*old(cold)),
                                    input_mult_adj: F32_ONE_BITS,
                                    output_mult_adj: F32_ONE_BITS,
                                },
                            )
                            &&& final(self).staged_swap == old(self).staged_swap
                            &&& final(self).requests == old(self).requests
                            &&& final(self).cmd_producer == old(self).cmd_producer
                        },
                    }
                }
            }),
    {
        proof {
            lemma_seq_after_adds(cold.cmd_next_seq, 0, 0);
        }
        let rate: u32 = host_rate(cold);
        let generation: u64 = cold.allocate_model_generation();
        cold.full_wavenet_model = None;
        self.params.model_path = None;
        self.params.model_basename = None;
        self.params.model_hash = None;
        cold.ui_model_metadata = None;
        cold.ui_model_info = None;
        cold.ui_model_name = String::new();
        cold.model_sample_rate = 0;
        let delivery = if cold.buffer_size > 0 {
            let new_resampler = match resampler {
                Some(resampler) => resampler,
                None => {
                    return Err(LoadFailure::Resampler);
                },
            };
            let new_stream = match stream {
                Some(stream) => stream,
                None => {
                    return Err(LoadFailure::Stream);
                },
            };
            let p = LoadModelPayload {
                generation,
                model_l: None,
                new_resampler,
                new_stream,
                input_mult_adj: F32_ONE_BITS,
                output_mult_adj: F32_ONE_BITS,
            };
            self.deliver_model(cold, p, rate)
        } else {
            cold.pending_model = Some(
                PendingModel {
                    generation,
                    model: None,
                    model_rate: rate,
                    input_mult_adj: F32_ONE_BITS,
                    output_mult_adj: F32_ONE_BITS,
                },
            );
            Delivery::Deferred
        };
        cold.model_load_counter = cold.model_load_counter.wrapping_add(1);
        Ok(delivery)
    }
}

/// The swap that clears the model.
pub open spec fn cleared_payload(
    generation: u64,
    resampler: ResamplerHandle,
    stream: StreamHandle,
) -> LoadModelPayload {
    LoadModelPayload {
        generation,
        model_l: None,
        new_resampler: resampler,
        new_stream: stream,
        input_mult_adj: F32_ONE_BITS,
        output_mult_adj: F32_ONE_BITS,
    }
}

} // verus!
