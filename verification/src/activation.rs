//! Activation and deactivation: which resources are taken over, which are built anew, and how
//! everything is put back where an activation fails.

use vstd::multiset::Multiset;
use vstd::prelude::*;
use crate::command_scheduler::{
    in_step, law_numbering_survives_reactivation, seq_after, CommandConsumer, CommandProducer,
};
use crate::crossfade::BypassCrossfader;
use crate::dry_delay::{DryDelayLine, DRY_DELAY_MAX_EXTRA};
use crate::errors::activation::{
    CABSIM_UNAVAILABLE_FRESH, CABSIM_UNAVAILABLE_STAGED, GC_TX_ALREADY_EXTRACTED,
    OVERSAMPLER_UNAVAILABLE_FRESH, OVERSAMPLER_UNAVAILABLE_STAGED, PARAM_RX_ALREADY_EXTRACTED,
    RESAMPLER_UNAVAILABLE_FRESH, RESAMPLER_UNAVAILABLE_STAGED, SLIMMABLE_RX_ALREADY_EXTRACTED,
    STREAM_UNAVAILABLE_FRESH, STREAM_UNAVAILABLE_STAGED,
};
use crate::params::{
    default_params, AdaptiveComputeMode, OversampleFactor, RtProcessingParams, F32_ONE_BITS,
};
use crate::payload::{
    CabSimHandle, ClapParamPayload, GcItem, LoadModelPayload, ModelHandle, OversampleHandle,
    ResamplerHandle, SlimmableRebuild, StreamHandle,
};
use crate::processor::{
    cabsim_latency, cabsim_tail, effective_latency, with_latency, DspChain, NamClapProcessor,
    RtEffect,
};
use crate::ring::command_read_end;
use crate::rt_laws::{cabsim_item, model_item, one};
use crate::shared::{
    ColdShared, DeactivatedDspState, GuiSharedState, PendingRestartOs, RtToUi, UiToRt,
};

verus! {

pub const PARAM_RX_MISSING: &'static str = "param_rx must be set before defuse";

pub const GC_TX_MISSING: &'static str = "gc_tx must be set before defuse";

pub const SLIMMABLE_RX_MISSING: &'static str = "slimmable_rx must be set before defuse";

/// Holds what an activation has taken out of the shared state until it is certain that the
/// activation succeeds.
pub struct ActivateRollbackGuard {
    pub param_rx: Option<rtrb::Consumer<ClapParamPayload>>,
    pub gc_tx: Option<rtrb::Producer<GcItem>>,
    pub slimmable_rx: Option<rtrb::Consumer<SlimmableRebuild>>,
    pub deactivated: Option<DeactivatedDspState>,
    pub pending_restart_os_factor: Option<PendingRestartOs>,
}

/// The ends of the rings that a processor owns.
pub struct ActivatedResources {
    pub param_rx: rtrb::Consumer<ClapParamPayload>,
    pub gc_tx: rtrb::Producer<GcItem>,
    pub slimmable_rx: rtrb::Consumer<SlimmableRebuild>,
}

/// `value` where there is one, `or` elsewhere.
pub open spec fn or_else<A>(value: Option<A>, or: Option<A>) -> Option<A> {
    if value is Some {
        value
    } else {
        or
    }
}

impl ActivateRollbackGuard {
    /// `cold` with everything that the guard holds put back.
    pub open spec fn put_back(self, cold: ColdShared) -> ColdShared {
        ColdShared {
            param_rx: or_else(self.param_rx, cold.param_rx),
            gc_tx: or_else(self.gc_tx, cold.gc_tx),
            slimmable_rx: or_else(self.slimmable_rx, cold.slimmable_rx),
            deactivated_dsp: or_else(self.deactivated, cold.deactivated_dsp),
            pending_restart_os_factor: match self.pending_restart_os_factor {
                Some(pending) => pending.encoded(),
                None => cold.pending_restart_os_factor,
            },
            ..cold
        }
    }

    /// How the first missing end of a ring is named.
    pub open spec fn missing_end(self) -> Seq<char> {
        if self.param_rx is None {
            PARAM_RX_MISSING@
        } else if self.gc_tx is None {
            GC_TX_MISSING@
        } else {
            SLIMMABLE_RX_MISSING@
        }
    }

    /// Holds nothing yet.
    pub fn new() -> (guard: Self)
        ensures
            guard == (ActivateRollbackGuard {
                param_rx: None,
                gc_tx: None,
                slimmable_rx: None,
                deactivated: None,
                pending_restart_os_factor: None,
            }),
    {
        ActivateRollbackGuard {
            param_rx: None,
            gc_tx: None,
            slimmable_rx: None,
            deactivated: None,
            pending_restart_os_factor: None,
        }
    }

    /// Gives up the activation: everything goes back to where it was taken from.
    pub fn rollback(self, cold: &mut ColdShared)
        ensures
            *final(cold) == self.put_back(*old(cold)),
    {
        if let Some(pending) = self.pending_restart_os_factor {
            pending.store(&mut cold.pending_restart_os_factor);
        }
        if self.slimmable_rx.is_some() {
            cold.slimmable_rx = self.slimmable_rx;
        }
        if self.gc_tx.is_some() {
            cold.gc_tx = self.gc_tx;
        }
        if self.param_rx.is_some() {
            cold.param_rx = self.param_rx;
        }
        if self.deactivated.is_some() {
            cold.deactivated_dsp = self.deactivated;
        }
    }

    /// Completes the activation: the ends of the rings go to the processor, the rest has been
    /// used up. Where an end is missing everything goes back instead.
    pub fn defuse(self, cold: &mut ColdShared) -> (resources: Result<
        ActivatedResources,
        &'static str,
    >)
        ensures
            match resources {
                Ok(r) => {
                    &&& Some(r.param_rx) == self.param_rx
                    &&& Some(r.gc_tx) == self.gc_tx
                    &&& Some(r.slimmable_rx) == self.slimmable_rx
                    &&& *final(cold) == *old(cold)
                },
                Err(e) => {
                    &&& *final(cold) == self.put_back(*old(cold))
                    &&& e@ == self.missing_end()
                },
            },
            resources is Ok <==> self.param_rx is Some && self.gc_tx is Some
                && self.slimmable_rx is Some,
    {
        if self.param_rx.is_none() {
            self.rollback(cold);
            return Err(PARAM_RX_MISSING);
        }
        if self.gc_tx.is_none() {
            self.rollback(cold);
            return Err(GC_TX_MISSING);
        }
        if self.slimmable_rx.is_none() {
            self.rollback(cold);
            return Err(SLIMMABLE_RX_MISSING);
        }
        Ok(
            ActivatedResources {
                param_rx: self.param_rx.unwrap(),
                gc_tx: self.gc_tx.unwrap(),
                slimmable_rx: self.slimmable_rx.unwrap(),
            },
        )
    }

    /// Takes the ends of the rings, the kept resources and the pending oversampling request
    /// out of the shared state. Where an end is missing nothing changes.
    pub fn extract(cold: &mut ColdShared) -> (guard: Result<Self, &'static str>)
        ensures
            match guard {
                Ok(g) => {
                    &&& g.param_rx == old(cold).param_rx && g.param_rx is Some
                    &&& g.gc_tx == old(cold).gc_tx && g.gc_tx is Some
                    &&& g.slimmable_rx == old(cold).slimmable_rx && g.slimmable_rx is Some
                    &&& g.deactivated == old(cold).deactivated_dsp
                    &&& g.pending_restart_os_factor == Some(
                        PendingRestartOs::decoded(old(cold).pending_restart_os_factor),
                    )
                    &&& *final(cold) == (ColdShared {
                        param_rx: None,
                        gc_tx: None,
                        slimmable_rx: None,
                        deactivated_dsp: None,
                        pending_restart_os_factor: 0,
                        ..*old(cold)
                    })
                },
                Err(e) => {
                    &&& *final(cold) == *old(cold)
                    &&& e@ == (if old(cold).param_rx is None {
                        PARAM_RX_ALREADY_EXTRACTED@
                    } else if old(cold).gc_tx is None {
                        GC_TX_ALREADY_EXTRACTED@
                    } else {
                        SLIMMABLE_RX_ALREADY_EXTRACTED@
                    })
                },
            },
            guard is Ok <==> old(cold).param_rx is Some && old(cold).gc_tx is Some && old(
                cold).slimmable_rx is Some,
    {
        let mut guard = Self::new();
        guard.param_rx = cold.param_rx.take();
        if guard.param_rx.is_none() {
            return Err(PARAM_RX_ALREADY_EXTRACTED);
        }
        guard.gc_tx = cold.gc_tx.take();
        if guard.gc_tx.is_none() {
            guard.rollback(cold);
            return Err(GC_TX_ALREADY_EXTRACTED);
        }
        guard.slimmable_rx = cold.slimmable_rx.take();
        if guard.slimmable_rx.is_none() {
            guard.rollback(cold);
            return Err(SLIMMABLE_RX_ALREADY_EXTRACTED);
        }
        guard.deactivated = cold.deactivated_dsp.take();
        guard.pending_restart_os_factor = Some(
            PendingRestartOs::take(&mut cold.pending_restart_os_factor),
        );
        Ok(guard)
    }
}

/// An activation that fails after it has taken everything leaves the shared state as it was.
pub proof fn law_failed_activation_restores_all(
    before: ColdShared,
    guard: ActivateRollbackGuard,
    taken: ColdShared,
)
    requires
        guard.param_rx == before.param_rx,
        guard.gc_tx == before.gc_tx,
        guard.slimmable_rx == before.slimmable_rx,
        guard.deactivated == before.deactivated_dsp,
        guard.pending_restart_os_factor == Some(
            PendingRestartOs::decoded(before.pending_restart_os_factor),
        ),
        before.pending_restart_os_factor <= 3,
        taken == (ColdShared {
            param_rx: None,
            gc_tx: None,
            slimmable_rx: None,
            deactivated_dsp: None,
            pending_restart_os_factor: 0,
            ..before
        }),
    ensures
        guard.put_back(taken) == before,
{
}

/// What the host announces when it activates the plug-in.
#[derive(Clone, Copy, Debug, PartialEq, Eq, Structural)]
pub struct AudioConfig {
    /// Sample rate in Hz.
    pub sample_rate: u32,
    /// Longest block.
    pub max_frames_count: u32,
}

/// What an activation is to allocate, to take over and to build.
#[derive(Clone, Copy, Debug, PartialEq, Eq, Structural)]
pub struct ActivationPlan {
    /// Length of the working buffers.
    pub buf_capacity: usize,
    /// Length of the oversampled buffers.
    pub os_capacity: usize,
    /// Length of the buffers for the dry signal.
    pub xfade_capacity: usize,
    /// Longest delay of the dry signal.
    pub dry_capacity: usize,
    /// Rate of the model in Hz.
    pub model_rate: u32,
    pub os_factor: OversampleFactor,
    pub reuse_resampler: bool,
    pub reuse_stream: bool,
    pub reuse_cabsim: bool,
    pub reuse_os: bool,
}

pub open spec fn max3(a: int, b: int, c: int) -> int {
    if a >= b && a >= c {
        a
    } else if b >= c {
        b
    } else {
        c
    }
}

/// The factor for an activation: a pending request comes before what the GUI shows.
pub open spec fn resolve_factor(pending: Option<PendingRestartOs>, ui: UiToRt) -> OversampleFactor {
    match pending {
        Some(PendingRestartOs::Pending(factor)) => factor,
        _ => OversampleFactor::of_code(ui.param_oversample),
    }
}

/// The plan of an activation.
pub open spec fn activation_plan(
    deactivated: Option<DeactivatedDspState>,
    pending: Option<PendingRestartOs>,
    model_sample_rate: u32,
    ui: UiToRt,
    config: AudioConfig,
    max_resamp_buf: usize,
) -> ActivationPlan {
    let os_factor = resolve_factor(pending, ui);
    let rate = deactivated is Some && deactivated->Some_0.sample_rate == config.sample_rate;
    let block = deactivated is Some && deactivated->Some_0.buffer_size == config.max_frames_count;
    ActivationPlan {
        buf_capacity: (max3(config.max_frames_count as int, max_resamp_buf as int, 1024)
            * 2) as usize,
        os_capacity: (max_resamp_buf * 4) as usize,
        xfade_capacity: config.max_frames_count as usize,
        dry_capacity: (config.max_frames_count + DRY_DELAY_MAX_EXTRA) as usize,
        model_rate: if model_sample_rate == 0 {
            48000
        } else {
            model_sample_rate
        },
        os_factor,
        reuse_resampler: rate,
        reuse_stream: rate && block,
        reuse_cabsim: rate && block && deactivated->Some_0.cabsim_adapter is Some,
        reuse_os: deactivated is Some && deactivated->Some_0.os_factor == os_factor,
    }
}

/// Decides what an activation allocates, takes over and builds. A model is always taken over.
/// The resampler depends on the sample rate, the stream and the cab-sim on the block size,
/// too; the engines on the factor that they run at.
pub fn plan_activation(
    guard: &ActivateRollbackGuard,
    model_sample_rate: u32,
    ui: &UiToRt,
    config: AudioConfig,
    max_resamp_buf: usize,
) -> (plan: ActivationPlan)
    requires
        max_resamp_buf * 4 <= usize::MAX,
        config.max_frames_count * 2 + 2 * DRY_DELAY_MAX_EXTRA + 2 <= usize::MAX,
    ensures
        plan == activation_plan(
            guard.deactivated,
            guard.pending_restart_os_factor,
            model_sample_rate,
            *ui,
            config,
            max_resamp_buf,
        ),
        plan.dry_capacity < usize::MAX / 2,
{
    let frames: usize = config.max_frames_count as usize;
    let mut longest: usize = if frames >= max_resamp_buf { frames } else { max_resamp_buf };
    if longest < 1024 {
        longest = 1024;
    }
    let os_factor = match guard.pending_restart_os_factor {
        Some(PendingRestartOs::Pending(factor)) => factor,
        _ => OversampleFactor::decode(ui.param_oversample),
    };
    let (rate, block, has_cabsim, same_factor) = match guard.deactivated {
        Some(kept) => (
            kept.sample_rate == config.sample_rate,
            kept.buffer_size == config.max_frames_count,
            kept.cabsim_adapter.is_some(),
            kept.os_factor == os_factor,
        ),
        None => (false, false, false, false),
    };
    ActivationPlan {
        buf_capacity: longest * 2,
        os_capacity: max_resamp_buf * 4,
        xfade_capacity: frames,
        dry_capacity: frames + DRY_DELAY_MAX_EXTRA,
        model_rate: if model_sample_rate == 0 { 48000 } else { model_sample_rate },
        os_factor,
        reuse_resampler: rate,
        reuse_stream: rate && block,
        reuse_cabsim: rate && block && has_cabsim,
        reuse_os: same_factor,
    }
}

/// How the cab-sim of an activation comes about where the old one cannot be taken over.
#[derive(Clone, Copy, Debug, PartialEq, Eq, Structural)]
pub enum CabSimBuild {
    /// There is no IR.
    Nothing,
    Build {
        /// The rate in Hz that the samples have, where it is not that of the host.
        resample_from: Option<u32>,
        /// Whether there is a block size to build for.
        convolve: bool,
    },
}

/// Decides how a cab-sim is built from the stored samples of an IR.
pub fn build_cab_sim_from_raw_samples(
    cold: &ColdShared,
    partition_size: usize,
    host_rate: u32,
) -> (build: CabSimBuild)
    ensures
        build == (if cold.ir_raw_samples is None {
            CabSimBuild::Nothing
        } else {
            CabSimBuild::Build {
                resample_from: if cold.ir_raw_sample_rate > 0 && cold.ir_raw_sample_rate
                    != host_rate {
                    Some(cold.ir_raw_sample_rate)
                } else {
                    None
                },
                convolve: partition_size != 0,
            }
        }),
{
    if cold.ir_raw_samples.is_none() {
        return CabSimBuild::Nothing;
    }
    let stored_rate: u32 = cold.ir_raw_sample_rate;
    CabSimBuild::Build {
        resample_from: if stored_rate > 0 && stored_rate != host_rate {
            Some(stored_rate)
        } else {
            None
        },
        convolve: partition_size != 0,
    }
}

/// Resources that were built for an activation.
#[derive(Clone, Copy, Debug)]
pub struct BuiltResources {
    pub resampler: Option<ResamplerHandle>,
    pub stream: Option<StreamHandle>,
    /// `None` without an IR.
    pub cabsim: Option<CabSimHandle>,
    pub os: Option<(OversampleHandle, OversampleHandle)>,
}

/// What had to wait for a restart.
#[derive(Clone, Copy, Debug)]
pub struct Staged {
    pub model: Option<LoadModelPayload>,
    pub ir: Option<Option<CabSimHandle>>,
    /// Generation and parameters of a restore.
    pub restore: Option<(u64, RtProcessingParams)>,
}

impl ActivationPlan {
    /// Everything that cannot be taken over has been built; the engines run at the factor of
    /// the plan.
    pub open spec fn covered(self, kept: Option<DeactivatedDspState>, built: BuiltResources) -> bool {
        &&& self.reuse_resampler ==> kept is Some
        &&& self.reuse_stream ==> kept is Some
        &&& self.reuse_cabsim ==> kept is Some
        &&& self.reuse_os ==> kept is Some && kept->Some_0.os_l.factor == self.os_factor
        &&& !self.reuse_resampler ==> built.resampler is Some
        &&& !self.reuse_stream ==> built.stream is Some
        &&& !self.reuse_os ==> built.os is Some && built.os->Some_0.0.factor == self.os_factor
    }
}

/// The first thing that is missing for an activation, as the host is told.
pub open spec fn missing(
    plan: ActivationPlan,
    kept: Option<DeactivatedDspState>,
    built: BuiltResources,
    cabsim_expected: bool,
    restoring: bool,
) -> Option<Seq<char>> {
    let resampler = if plan.reuse_resampler {
        kept is Some
    } else {
        built.resampler is Some
    };
    let stream = if plan.reuse_stream {
        kept is Some
    } else {
        built.stream is Some
    };
    let cabsim = if plan.reuse_cabsim {
        kept is Some
    } else {
        cabsim_expected ==> built.cabsim is Some
    };
    let os = if plan.reuse_os {
        kept is Some && kept->Some_0.os_l.factor == plan.os_factor
    } else {
        built.os is Some && built.os->Some_0.0.factor == plan.os_factor
    };
    if !resampler {
        Some(
            if restoring {
                RESAMPLER_UNAVAILABLE_STAGED@
            } else {
                RESAMPLER_UNAVAILABLE_FRESH@
            },
        )
    } else if !stream {
        Some(
            if restoring {
                STREAM_UNAVAILABLE_STAGED@
            } else {
                STREAM_UNAVAILABLE_FRESH@
            },
        )
    } else if !cabsim {
        Some(
            if restoring {
                CABSIM_UNAVAILABLE_STAGED@
            } else {
                CABSIM_UNAVAILABLE_FRESH@
            },
        )
    } else if !os {
        Some(
            if restoring {
                OVERSAMPLER_UNAVAILABLE_STAGED@
            } else {
                OVERSAMPLER_UNAVAILABLE_FRESH@
            },
        )
    } else {
        None
    }
}

/// Checks that an activation has everything that it needs. `cabsim_expected` tells whether
/// there is an IR to build a cab-sim from, `restoring` whether a staged restore is installed.
pub fn check_built(
    plan: ActivationPlan,
    kept: Option<DeactivatedDspState>,
    built: BuiltResources,
    cabsim_expected: bool,
    restoring: bool,
) -> (check: Result<(), &'static str>)
    ensures
        match missing(plan, kept, built, cabsim_expected, restoring) {
            Some(message) => check is Err && check->Err_0@ == message,
            None => check is Ok && plan.covered(kept, built),
        },
{
    let resampler: bool = if plan.reuse_resampler { kept.is_some() } else {
        built.resampler.is_some()
    };
    let stream: bool = if plan.reuse_stream { kept.is_some() } else { built.stream.is_some() };
    let cabsim: bool = if plan.reuse_cabsim { kept.is_some() } else {
        !cabsim_expected || built.cabsim.is_some()
    };
    let os: bool = if plan.reuse_os {
        match kept {
            Some(k) => k.os_l.factor == plan.os_factor,
            None => false,
        }
    } else {
        match built.os {
            Some((os_l, _)) => os_l.factor == plan.os_factor,
            None => false,
        }
    };
    if !resampler {
        return Err(
            if restoring { RESAMPLER_UNAVAILABLE_STAGED } else { RESAMPLER_UNAVAILABLE_FRESH },
        );
    }
    if !stream {
        return Err(if restoring { STREAM_UNAVAILABLE_STAGED } else { STREAM_UNAVAILABLE_FRESH });
    }
    if !cabsim {
        return Err(if restoring { CABSIM_UNAVAILABLE_STAGED } else { CABSIM_UNAVAILABLE_FRESH });
    }
    if !os {
        return Err(
            if restoring { OVERSAMPLER_UNAVAILABLE_STAGED } else { OVERSAMPLER_UNAVAILABLE_FRESH },
        );
    }
    Ok(())
}

/// Block size that a stream adapter is built for: at least one sample.
pub fn stream_block(max_block: usize) -> (block: usize)
    ensures
        block == (if max_block == 0 {
            1
        } else {
            max_block
        }),
{
    if max_block == 0 {
        1
    } else {
        max_block
    }
}

/// The chain of an activation: what is taken over and what was built, over which come the
/// resources that waited for the restart.
#[verifier::opaque]
pub open spec fn assembled(
    plan: ActivationPlan,
    kept: Option<DeactivatedDspState>,
    built: BuiltResources,
    staged: Staged,
) -> DspChain {
    let cabsim_adapter = match staged.ir {
        Some(ir) => ir,
        None => if plan.reuse_cabsim {
            kept->Some_0.cabsim_adapter
        } else {
            built.cabsim
        },
    };
    let os = if plan.reuse_os {
        (kept->Some_0.os_l, kept->Some_0.os_r)
    } else {
        built.os->Some_0
    };
    let model = match staged.model {
        Some(p) => p,
        None => LoadModelPayload {
            generation: match kept {
                Some(k) => k.model_generation,
                None => 0,
            },
            model_l: match kept {
                Some(k) => k.model_l,
                None => None,
            },
            new_resampler: if plan.reuse_resampler {
                kept->Some_0.resampler
            } else {
                built.resampler->Some_0
            },
            new_stream: if plan.reuse_stream {
                kept->Some_0.stream
            } else {
                built.stream->Some_0
            },
            input_mult_adj: match kept {
                Some(k) => k.model_input_mult_adj,
                None => F32_ONE_BITS,
            },
            output_mult_adj: match kept {
                Some(k) => k.model_output_mult_adj,
                None => F32_ONE_BITS,
            },
        },
    };
    with_latency(
        DspChain {
            model_l: model.model_l,
            model_generation: model.generation,
            cabsim_adapter,
            resampler: model.new_resampler,
            stream: model.new_stream,
            os_l: os.0,
            os_r: os.1,
            applied_os_factor: plan.os_factor,
            model_input_mult_adj: model.input_mult_adj,
            model_output_mult_adj: model.output_mult_adj,
            cabsim_tail_remaining: match cabsim_adapter {
                Some(a) => a.tail_samples,
                None => 0,
            },
            cached_effective_latency: 0,
        },
    )
}

/// Puts the chain of an activation together.
pub fn assemble_chain(
    plan: ActivationPlan,
    kept: Option<DeactivatedDspState>,
    built: BuiltResources,
    staged: Staged,
) -> (chain: DspChain)
    requires
        plan.covered(kept, built),
    ensures
        chain == assembled(plan, kept, built, staged),
        chain.cached_effective_latency == effective_latency(chain),
{
    proof {
        reveal(assembled);
    }
    let cabsim_adapter = match staged.ir {
        Some(ir) => ir,
        None => if plan.reuse_cabsim { kept.unwrap().cabsim_adapter } else { built.cabsim },
    };
    let (os_l, os_r) = if plan.reuse_os { (kept.unwrap().os_l, kept.unwrap().os_r) } else {
        built.os.unwrap()
    };
    let model = match staged.model {
        Some(p) => p,
        None => {
            let (generation, model_l, input_mult_adj, output_mult_adj) = match kept {
                Some(k) => (
                    k.model_generation,
                    k.model_l,
                    k.model_input_mult_adj,
                    k.model_output_mult_adj,
                ),
                None => (0, None, F32_ONE_BITS, F32_ONE_BITS),
            };
            LoadModelPayload {
                generation,
                model_l,
                new_resampler: if plan.reuse_resampler { kept.unwrap().resampler } else {
                    built.resampler.unwrap()
                },
                new_stream: if plan.reuse_stream { kept.unwrap().stream } else {
                    built.stream.unwrap()
                },
                input_mult_adj,
                output_mult_adj,
            }
        },
    };
    let mut latency: u32 = model.new_stream.latency_samples.saturating_add(os_l.latency_samples);
    let mut tail: u32 = 0;
    if let Some(adapter) = cabsim_adapter {
        latency = latency.saturating_add(adapter.latency_samples);
        tail = adapter.tail_samples;
    }
    DspChain {
        model_l: model.model_l,
        model_generation: model.generation,
        cabsim_adapter,
        resampler: model.new_resampler,
        stream: model.new_stream,
        os_l,
        os_r,
        applied_os_factor: plan.os_factor,
        model_input_mult_adj: model.input_mult_adj,
        model_output_mult_adj: model.output_mult_adj,
        cabsim_tail_remaining: tail,
        cached_effective_latency: latency,
    }
}

/// The resources of a chain, or of a part of one, each in its place.
#[derive(Clone, Copy, Debug)]
pub struct Parts {
    pub model: Option<GcItem>,
    pub resampler: Option<GcItem>,
    pub stream: Option<GcItem>,
    pub cabsim: Option<GcItem>,
    pub os_l: Option<GcItem>,
    pub os_r: Option<GcItem>,
}

impl Parts {
    /// All of them.
    pub open spec fn set(self) -> Multiset<GcItem> {
        one(self.model).add(one(self.resampler)).add(one(self.stream)).add(one(self.cabsim)).add(
            one(self.os_l),
        ).add(one(self.os_r))
    }

    /// The resources that are installed in a chain.
    pub open spec fn of_chain(chain: DspChain) -> Parts {
        Parts {
            model: model_item(chain.model_l),
            resampler: Some(GcItem::Resampler(chain.resampler)),
            stream: Some(GcItem::Streaming(chain.stream)),
            cabsim: cabsim_item(chain.cabsim_adapter),
            os_l: Some(GcItem::Oversample(chain.os_l)),
            os_r: Some(GcItem::Oversample(chain.os_r)),
        }
    }

    /// The resources that a deactivation has kept.
    pub open spec fn of_kept(kept: Option<DeactivatedDspState>) -> Parts {
        match kept {
            Some(k) => Parts {
                model: model_item(k.model_l),
                resampler: Some(GcItem::Resampler(k.resampler)),
                stream: Some(GcItem::Streaming(k.stream)),
                cabsim: cabsim_item(k.cabsim_adapter),
                os_l: Some(GcItem::Oversample(k.os_l)),
                os_r: Some(GcItem::Oversample(k.os_r)),
            },
            None => Parts {
                model: None,
                resampler: None,
                stream: None,
                cabsim: None,
                os_l: None,
                os_r: None,
            },
        }
    }

    /// The resources that were built.
    pub open spec fn of_built(built: BuiltResources) -> Parts {
        Parts {
            model: None,
            resampler: match built.resampler {
                Some(r) => Some(GcItem::Resampler(r)),
                None => None,
            },
            stream: match built.stream {
                Some(s) => Some(GcItem::Streaming(s)),
                None => None,
            },
            cabsim: cabsim_item(built.cabsim),
            os_l: match built.os {
                Some((l, _)) => Some(GcItem::Oversample(l)),
                None => None,
            },
            os_r: match built.os {
                Some((_, r)) => Some(GcItem::Oversample(r)),
                None => None,
            },
        }
    }

    /// The resources that waited for a restart.
    pub open spec fn of_staged(staged: Staged) -> Parts {
        Parts {
            model: match staged.model {
                Some(p) => model_item(p.model_l),
                None => None,
            },
            resampler: match staged.model {
                Some(p) => Some(GcItem::Resampler(p.new_resampler)),
                None => None,
            },
            stream: match staged.model {
                Some(p) => Some(GcItem::Streaming(p.new_stream)),
                None => None,
            },
            cabsim: match staged.ir {
                Some(ir) => cabsim_item(ir),
                None => None,
            },
            os_l: None,
            os_r: None,
        }
    }

    fn from_kept(kept: Option<DeactivatedDspState>) -> (parts: Parts)
        ensures
            parts == Parts::of_kept(kept),
    {
        match kept {
            Some(k) => Parts {
                model: as_model(k.model_l),
                resampler: Some(GcItem::Resampler(k.resampler)),
                stream: Some(GcItem::Streaming(k.stream)),
                cabsim: as_cabsim(k.cabsim_adapter),
                os_l: Some(GcItem::Oversample(k.os_l)),
                os_r: Some(GcItem::Oversample(k.os_r)),
            },
            None => Parts {
                model: None,
                resampler: None,
                stream: None,
                cabsim: None,
                os_l: None,
                os_r: None,
            },
        }
    }

    fn from_built(built: BuiltResources) -> (parts: Parts)
        ensures
            parts == Parts::of_built(built),
    {
        let (os_l, os_r) = match built.os {
            Some((l, r)) => (Some(GcItem::Oversample(l)), Some(GcItem::Oversample(r))),
            None => (None, None),
        };
        Parts {
            model: None,
            resampler: match built.resampler {
                Some(r) => Some(GcItem::Resampler(r)),
                None => None,
            },
            stream: match built.stream {
                Some(s) => Some(GcItem::Streaming(s)),
                None => None,
            },
            cabsim: as_cabsim(built.cabsim),
            os_l,
            os_r,
        }
    }

    fn from_staged(staged: Staged) -> (parts: Parts)
        ensures
            parts == Parts::of_staged(staged),
    {
        let (model, resampler, stream) = match staged.model {
            Some(p) => (
                as_model(p.model_l),
                Some(GcItem::Resampler(p.new_resampler)),
                Some(GcItem::Streaming(p.new_stream)),
            ),
            None => (None, None, None),
        };
        Parts {
            model,
            resampler,
            stream,
            cabsim: match staged.ir {
                Some(ir) => as_cabsim(ir),
                None => None,
            },
            os_l: None,
            os_r: None,
        }
    }
}

fn as_model(model: Option<ModelHandle>) -> (item: Option<GcItem>)
    ensures
        item == model_item(model),
{
    match model {
        Some(m) => Some(GcItem::Model(m)),
        None => None,
    }
}

fn as_cabsim(adapter: Option<CabSimHandle>) -> (item: Option<GcItem>)
    ensures
        item == cabsim_item(adapter),
{
    match adapter {
        Some(a) => Some(GcItem::CabConvAdapter(a)),
        None => None,
    }
}

/// Where an activation takes a resource from.
#[derive(Clone, Copy, Debug, PartialEq, Eq, Structural)]
enum Source {
    Kept,
    Built,
    Staged,
}

/// What was staged comes first, then what can be taken over.
spec fn source_spec(staged: bool, reuse: bool) -> Source {
    if staged {
        Source::Staged
    } else if reuse {
        Source::Kept
    } else {
        Source::Built
    }
}

fn source_of(staged: bool, reuse: bool) -> (source: Source)
    ensures
        source == source_spec(staged, reuse),
{
    if staged {
        Source::Staged
    } else if reuse {
        Source::Kept
    } else {
        Source::Built
    }
}

/// The resource from a source.
spec fn chosen(
    source: Source,
    kept: Option<GcItem>,
    built: Option<GcItem>,
    staged: Option<GcItem>,
) -> Option<GcItem> {
    match source {
        Source::Kept => kept,
        Source::Built => built,
        Source::Staged => staged,
    }
}

/// `after` is `before` with what was offered and not chosen.
spec fn others_listed(
    before: Multiset<GcItem>,
    after: Multiset<GcItem>,
    installed: Option<GcItem>,
    kept: Option<GcItem>,
    built: Option<GcItem>,
    staged: Option<GcItem>,
) -> bool {
    after.add(one(installed)) == before.add(one(kept)).add(one(built)).add(one(staged))
}

fn push_some(items: &mut Vec<GcItem>, item: Option<GcItem>)
    ensures
        final(items)@.to_multiset() == old(items)@.to_multiset().add(one(item)),
{
    broadcast use vstd::seq_lib::group_to_multiset_ensures;

    if let Some(i) = item {
        items.push(i);
    }
    assert(items@.to_multiset() =~= old(items)@.to_multiset().add(one(item)));
}

/// Lists the resources that were not chosen.
fn push_others(
    items: &mut Vec<GcItem>,
    source: Source,
    kept: Option<GcItem>,
    built: Option<GcItem>,
    staged: Option<GcItem>,
)
    ensures
        others_listed(
            old(items)@.to_multiset(),
            final(items)@.to_multiset(),
            chosen(source, kept, built, staged),
            kept,
            built,
            staged,
        ),
{
    match source {
        Source::Kept => {
            push_some(items, built);
            push_some(items, staged);
        },
        Source::Built => {
            push_some(items, kept);
            push_some(items, staged);
        },
        Source::Staged => {
            push_some(items, kept);
            push_some(items, built);
        },
    }
    assert(items@.to_multiset().add(one(chosen(source, kept, built, staged)))
        =~= old(items)@.to_multiset().add(one(kept)).add(one(built)).add(one(staged)));
}

/// Where each resource of the chain comes from.
proof fn lemma_installed(
    plan: ActivationPlan,
    kept: Option<DeactivatedDspState>,
    built: BuiltResources,
    staged: Staged,
)
    requires
        plan.covered(kept, built),
    ensures
        ({
            let chain = Parts::of_chain(assembled(plan, kept, built, staged));
            let (k, b, s) = (Parts::of_kept(kept), Parts::of_built(built), Parts::of_staged(staged));
            let swap = staged.model is Some;
            let os = source_spec(false, plan.reuse_os);
            &&& chain.model == chosen(source_spec(swap, true), k.model, b.model, s.model)
            &&& chain.resampler == chosen(
                source_spec(swap, plan.reuse_resampler),
                k.resampler,
                b.resampler,
                s.resampler,
            )
            &&& chain.stream == chosen(
                source_spec(swap, plan.reuse_stream),
                k.stream,
                b.stream,
                s.stream,
            )
            &&& chain.cabsim == chosen(
                source_spec(staged.ir is Some, plan.reuse_cabsim),
                k.cabsim,
                b.cabsim,
                s.cabsim,
            )
            &&& chain.os_l == chosen(os, k.os_l, b.os_l, s.os_l)
            &&& chain.os_r == chosen(os, k.os_r, b.os_r, s.os_r)
        }),
{
    reveal(assembled);
}

/// Six steps of listing what is not chosen add up.
proof fn lemma_sum(m: Seq<Multiset<GcItem>>, i: Parts, k: Parts, b: Parts, s: Parts)
    requires
        m.len() == 7,
        m[0] == Multiset::<GcItem>::empty(),
        others_listed(m[0], m[1], i.model, k.model, b.model, s.model),
        others_listed(m[1], m[2], i.resampler, k.resampler, b.resampler, s.resampler),
        others_listed(m[2], m[3], i.stream, k.stream, b.stream, s.stream),
        others_listed(m[3], m[4], i.cabsim, k.cabsim, b.cabsim, s.cabsim),
        others_listed(m[4], m[5], i.os_l, k.os_l, b.os_l, s.os_l),
        others_listed(m[5], m[6], i.os_r, k.os_r, b.os_r, s.os_r),
    ensures
        i.set().add(m[6]) == k.set().add(b.set()).add(s.set()),
{
    assert forall|x: GcItem| #[trigger]
        i.set().add(m[6]).count(x) == k.set().add(b.set()).add(s.set()).count(x) by {
        lemma_step_counts(m[0], m[1], i.model, k.model, b.model, s.model, x);
        lemma_step_counts(m[1], m[2], i.resampler, k.resampler, b.resampler, s.resampler, x);
        lemma_step_counts(m[2], m[3], i.stream, k.stream, b.stream, s.stream, x);
        lemma_step_counts(m[3], m[4], i.cabsim, k.cabsim, b.cabsim, s.cabsim, x);
        lemma_step_counts(m[4], m[5], i.os_l, k.os_l, b.os_l, s.os_l, x);
        lemma_step_counts(m[5], m[6], i.os_r, k.os_r, b.os_r, s.os_r, x);
        lemma_set_counts(i, x);
        lemma_set_counts(k, x);
        lemma_set_counts(b, x);
        lemma_set_counts(s, x);
    }
    assert(i.set().add(m[6]) =~= k.set().add(b.set()).add(s.set()));
}

proof fn lemma_step_counts(
    before: Multiset<GcItem>,
    after: Multiset<GcItem>,
    installed: Option<GcItem>,
    kept: Option<GcItem>,
    built: Option<GcItem>,
    staged: Option<GcItem>,
    x: GcItem,
)
    requires
        others_listed(before, after, installed, kept, built, staged),
    ensures
        after.count(x) + one(installed).count(x) == before.count(x) + one(kept).count(x) + one(
            built,
        ).count(x) + one(staged).count(x),
{
    assert(after.add(one(installed)).count(x) == before.add(one(kept)).add(one(built)).add(
        one(staged),
    ).count(x));
}

proof fn lemma_set_counts(parts: Parts, x: GcItem)
    ensures
        parts.set().count(x) == one(parts.model).count(x) + one(parts.resampler).count(x) + one(
            parts.stream,
        ).count(x) + one(parts.cabsim).count(x) + one(parts.os_l).count(x) + one(parts.os_r).count(
            x,
        ),
{
}

/// Lists the resources that an activation finds but does not install. What it finds, it installs
/// or lists: nothing is lost, and nothing is in two places.
pub fn left_over(
    plan: ActivationPlan,
    kept: Option<DeactivatedDspState>,
    built: BuiltResources,
    staged: Staged,
) -> (items: Vec<GcItem>)
    requires
        plan.covered(kept, built),
    ensures
        Parts::of_chain(assembled(plan, kept, built, staged)).set().add(items@.to_multiset())
            == Parts::of_kept(kept).set().add(Parts::of_built(built).set()).add(
            Parts::of_staged(staged).set(),
        ),
{
    let mut items: Vec<GcItem> = Vec::new();
    let k = Parts::from_kept(kept);
    let b = Parts::from_built(built);
    let s = Parts::from_staged(staged);
    let swap: bool = staged.model.is_some();
    let from_os = source_of(false, plan.reuse_os);
    let from_cabsim = source_of(staged.ir.is_some(), plan.reuse_cabsim);
    let ghost m0 = items@.to_multiset();
    push_others(&mut items, source_of(swap, true), k.model, b.model, s.model);
    let ghost m1 = items@.to_multiset();
    push_others(
        &mut items,
        source_of(swap, plan.reuse_resampler),
        k.resampler,
        b.resampler,
        s.resampler,
    );
    let ghost m2 = items@.to_multiset();
    push_others(&mut items, source_of(swap, plan.reuse_stream), k.stream, b.stream, s.stream);
    let ghost m3 = items@.to_multiset();
    push_others(&mut items, from_cabsim, k.cabsim, b.cabsim, s.cabsim);
    let ghost m4 = items@.to_multiset();
    push_others(&mut items, from_os, k.os_l, b.os_l, s.os_l);
    let ghost m5 = items@.to_multiset();
    push_others(&mut items, from_os, k.os_r, b.os_r, s.os_r);
    proof {
        let i = Parts::of_chain(assembled(plan, kept, built, staged));
        assert(m0 =~= Multiset::<GcItem>::empty()) by {
            broadcast use vstd::seq_lib::group_to_multiset_ensures;
        }
        lemma_installed(plan, kept, built, staged);
        lemma_sum(seq![m0, m1, m2, m3, m4, m5, items@.to_multiset()], i, k, b, s);
    }
    items
}

/// What the GUI is shown once a restore has landed.
pub open spec fn shown(ui: UiToRt, params: RtProcessingParams) -> UiToRt {
    UiToRt {
        param_input_gain: params.input_gain_db,
        param_output_gain: params.output_gain_db,
        param_gate_thresh: params.gate_threshold_db,
        param_bypass: if params.bypass {
            1
        } else {
            0
        },
        param_adaptive_compute: params.adaptive_compute.code_spec(),
        param_slim_override: params.slim_override.code_spec(),
        param_oversample: params.oversample.code_spec(),
        param_activation: params.activation_precision.code_spec(),
        ..ui
    }
}

/// Shows the GUI the parameters of a restore that has landed.
pub fn show_params(ui: &mut UiToRt, params: &RtProcessingParams)
    ensures
        *final(ui) == shown(*old(ui), *params),
{
    ui.param_input_gain = params.input_gain_db;
    ui.param_output_gain = params.output_gain_db;
    ui.param_gate_thresh = params.gate_threshold_db;
    ui.param_bypass = if params.bypass { 1 } else { 0 };
    ui.param_adaptive_compute = params.adaptive_compute.code();
    ui.param_slim_override = params.slim_override.code();
    ui.param_oversample = params.oversample.code();
    ui.param_activation = params.activation_precision.code();
}

/// The parameters that a processor starts with: those of a restore that has waited, or the
/// levels that the GUI shows; the factor is that of the engines.
pub open spec fn initial_params(plan: ActivationPlan, ui: UiToRt, staged: Staged) -> RtProcessingParams {
    match staged.restore {
        Some((_, params)) => RtProcessingParams { oversample: plan.os_factor, ..params },
        None => RtProcessingParams {
            input_gain_db: ui.param_input_gain,
            output_gain_db: ui.param_output_gain,
            oversample: plan.os_factor,
            ..default_params()
        },
    }
}

/// The mode that the adaptive compute unit starts in.
pub open spec fn initial_mode(staged: Staged) -> AdaptiveComputeMode {
    match staged.restore {
        Some((_, params)) => params.adaptive_compute,
        None => AdaptiveComputeMode::Conservative,
    }
}

/// What is to be done outside after an activation: the parameters of a restore come into force
/// together with its resources.
pub open spec fn initial_effects(params: RtProcessingParams, staged: Staged) -> Seq<RtEffect> {
    match staged.restore {
        Some(_) => seq![RtEffect::ApplyParams(params)],
        None => Seq::empty(),
    }
}

/// The shared state after an activation.
pub open spec fn activated_shared(
    shared: GuiSharedState,
    chain: DspChain,
    config: AudioConfig,
    staged: Staged,
) -> GuiSharedState {
    GuiSharedState {
        rt_to_ui: RtToUi {
            current_latency: chain.cached_effective_latency,
            cabsim_tail_samples: cabsim_tail(chain.cabsim_adapter),
            ..shared.rt_to_ui
        },
        ui_to_rt: match staged.restore {
            Some((_, params)) => shown(shared.ui_to_rt, params),
            None => shared.ui_to_rt,
        },
        cold: ColdShared {
            sample_rate: config.sample_rate,
            buffer_size: config.max_frames_count,
            current_stream_latency: chain.stream.latency_samples,
            current_cabsim_latency: cabsim_latency(chain.cabsim_adapter),
            last_applied_generation: match staged.restore {
                Some((generation, _)) => generation,
                None => shared.cold.last_applied_generation,
            },
            ..shared.cold
        },
    }
}

fn start_params(ui: &UiToRt, plan: ActivationPlan, staged: Staged) -> (params: RtProcessingParams)
    ensures
        params == initial_params(plan, *ui, staged),
{
    match staged.restore {
        Some((_, params)) => RtProcessingParams { oversample: plan.os_factor, ..params },
        None => {
            let mut params = RtProcessingParams::default();
            params.input_gain_db = ui.param_input_gain;
            params.output_gain_db = ui.param_output_gain;
            params.oversample = plan.os_factor;
            params
        },
    }
}

fn publish_activation(
    shared: &mut GuiSharedState,
    chain: DspChain,
    config: AudioConfig,
    staged: Staged,
)
    ensures
        *final(shared) == activated_shared(*old(shared), chain, config, staged),
{
    let (latency, tail): (u32, u32) = match chain.cabsim_adapter {
        Some(a) => (a.latency_samples, a.num_partitions.wrapping_mul(a.latency_samples)),
        None => (0, 0),
    };
    let generation: u64 = match staged.restore {
        Some((generation, params)) => {
            show_params(&mut shared.ui_to_rt, &params);
            generation
        },
        None => shared.cold.last_applied_generation,
    };
    shared.rt_to_ui.current_latency = chain.cached_effective_latency;
    shared.rt_to_ui.cabsim_tail_samples = tail;
    shared.cold.sample_rate = config.sample_rate;
    shared.cold.buffer_size = config.max_frames_count;
    shared.cold.current_stream_latency = chain.stream.latency_samples;
    shared.cold.current_cabsim_latency = latency;
    shared.cold.last_applied_generation = generation;
}

impl<T: Copy> NamClapProcessor<T> {
    /// What an activation gives, and what it leaves in the shared state.
    pub open spec fn activated(
        shared: &GuiSharedState,
        guard: ActivateRollbackGuard,
        plan: ActivationPlan,
        built: BuiltResources,
        staged: Staged,
        config: AudioConfig,
        silence: T,
        shared_after: &GuiSharedState,
        processor: Result<Self, &'static str>,
    ) -> bool {
        &&& processor is Ok <==> guard.param_rx is Some && guard.gc_tx is Some
            && guard.slimmable_rx is Some
        &&& match processor {
            Ok(p) => {
                &&& p.wf()
                &&& p.chain == assembled(plan, guard.deactivated, built, staged)
                &&& p.params == initial_params(plan, shared.ui_to_rt, staged)
                &&& p.adaptive_mode == initial_mode(staged)
                &&& p.process_mono
                &&& p.scheduled_events@.len() == 0
                &&& p.bypass_xfade == (BypassCrossfader {
                    target: p.params.bypass,
                    active: false,
                    mix: crate::crossfade::end_mix(p.params.bypass),
                    step: 0,
                    remaining: 0,
                })
                &&& p.dry_delay.capacity() == plan.dry_capacity
                &&& p.dry_delay.history_l() == Seq::<T>::empty()
                &&& p.dry_delay.history_r() == Seq::<T>::empty()
                &&& p.dry_delay.silence() == silence
                &&& p.cmd_consumer.end() == command_read_end(guard.param_rx->Some_0)
                &&& p.cmd_consumer.processed() == shared.cold.cmd_last_ack
                &&& p.deferred_structural is None
                &&& Some(p.slimmable_rx) == guard.slimmable_rx
                &&& Some(p.gc_tx) == guard.gc_tx
                &&& p.mod_input_gain == 0 && p.mod_output_gain == 0 && p.mod_gate_thresh == 0
                &&& p.gate_dirty
                &&& p.cycles_since_telemetry == 0
                &&& !p.prio_checked
                &&& p.last_seen_generation == 0
                &&& p.max_frames_count == config.max_frames_count
                &&& p.last_render_mode == 0
                &&& p.realtime_activation == p.params.activation_precision
                &&& p.effects@ == initial_effects(p.params, staged)
                &&& *shared_after == activated_shared(*shared, p.chain, config, staged)
            },
            Err(e) => {
                &&& e@ == guard.missing_end()
                &&& *shared_after == (GuiSharedState {
                    cold: guard.put_back(shared.cold),
                    ..*shared
                })
            },
        }
    }

    /// Makes the processor of an activation and publishes what it starts with. The numbering of
    /// the commands goes on from the last acknowledgment. Where an end of a ring is missing,
    /// everything that the guard holds goes back instead.
    pub fn activate(
        shared: &mut GuiSharedState,
        guard: ActivateRollbackGuard,
        plan: ActivationPlan,
        built: BuiltResources,
        staged: Staged,
        config: AudioConfig,
        silence: T,
    ) -> (processor: Result<Self, &'static str>)
        requires
            plan.covered(guard.deactivated, built),
            plan.dry_capacity < usize::MAX / 2,
        ensures
            Self::activated(
                old(shared),
                guard,
                plan,
                built,
                staged,
                config,
                silence,
                final(shared),
                processor,
            ),
    {
        let kept = guard.deactivated;
        match guard.defuse(&mut shared.cold) {
            Err(e) => Err(e),
            Ok(ends) => {
                let chain = assemble_chain(plan, kept, built, staged);
                let params = start_params(&shared.ui_to_rt, plan, staged);
                publish_activation(shared, chain, config, staged);
                let latency: u32 = chain.cached_effective_latency;
                let mut effects: Vec<RtEffect> = Vec::new();
                let mut adaptive_mode = AdaptiveComputeMode::Conservative;
                if staged.restore.is_some() {
                    adaptive_mode = params.adaptive_compute;
                    effects.push(RtEffect::ApplyParams(params));
                }
                assert(effects@ =~= initial_effects(params, staged));
                Ok(
                    NamClapProcessor {
                        chain,
                        params,
                        adaptive_mode,
                        process_mono: true,
                        scheduled_events: Vec::new(),
                        bypass_xfade: BypassCrossfader::new(params.bypass),
                        dry_delay: DryDelayLine::new(plan.dry_capacity, latency as usize, silence),
                        cmd_consumer: CommandConsumer::new(ends.param_rx, &shared.cold.cmd_last_ack),
                        deferred_structural: None,
                        slimmable_rx: ends.slimmable_rx,
                        gc_tx: ends.gc_tx,
                        mod_input_gain: 0,
                        mod_output_gain: 0,
                        mod_gate_thresh: 0,
                        gate_dirty: true,
                        cycles_since_telemetry: 0,
                        prio_checked: false,
                        last_seen_generation: 0,
                        max_frames_count: config.max_frames_count as usize,
                        last_render_mode: 0,
                        realtime_activation: params.activation_precision,
                        effects,
                    },
                )
            },
        }
    }
}

/// The resources that are kept of a chain.
pub open spec fn kept_of(chain: DspChain, sample_rate: u32, buffer_size: u32) -> DeactivatedDspState {
    DeactivatedDspState {
        model_l: chain.model_l,
        model_generation: chain.model_generation,
        cabsim_adapter: chain.cabsim_adapter,
        resampler: chain.resampler,
        stream: chain.stream,
        os_l: chain.os_l,
        os_r: chain.os_r,
        os_factor: chain.applied_os_factor,
        sample_rate,
        buffer_size,
        model_input_mult_adj: chain.model_input_mult_adj,
        model_output_mult_adj: chain.model_output_mult_adj,
    }
}

fn push_model_resources(
    items: &mut Vec<GcItem>,
    model: Option<ModelHandle>,
    resampler: ResamplerHandle,
    stream: StreamHandle,
)
    ensures
        final(items)@ == old(items)@ + crate::payload::model_resources(model, resampler, stream),
{
    if let Some(m) = model {
        items.push(GcItem::Model(m));
    }
    items.push(GcItem::Resampler(resampler));
    items.push(GcItem::Streaming(stream));
    assert(items@ =~= old(items)@ + crate::payload::model_resources(model, resampler, stream));
}

fn push_cabsim_resources(items: &mut Vec<GcItem>, adapter: Option<CabSimHandle>)
    ensures
        final(items)@ == old(items)@ + crate::payload::cabsim_resources(adapter),
{
    if let Some(a) = adapter {
        items.push(GcItem::CabConvAdapter(a));
    }
    assert(items@ =~= old(items)@ + crate::payload::cabsim_resources(adapter));
}

/// The resources that a command carries.
pub fn command_resources(cmd: &ClapParamPayload) -> (items: Vec<GcItem>)
    ensures
        items@ == cmd.resources(),
{
    let mut items: Vec<GcItem> = Vec::new();
    match *cmd {
        ClapParamPayload::Params(_) => {},
        ClapParamPayload::LoadModel { model_l, new_resampler, new_stream, .. } => {
            push_model_resources(&mut items, model_l, new_resampler, new_stream);
        },
        ClapParamPayload::LoadCabIr { adapter } => {
            push_cabsim_resources(&mut items, adapter);
        },
        ClapParamPayload::SetOversample { os_l, os_r } => {
            items.push(GcItem::Oversample(os_l));
            items.push(GcItem::Oversample(os_r));
        },
        ClapParamPayload::RestoreTxn(txn) => {
            if let Some(m) = txn.model {
                push_model_resources(&mut items, m.model_l, m.new_resampler, m.new_stream);
            }
            if let Some(ir) = txn.ir {
                push_cabsim_resources(&mut items, ir);
            }
        },
    }
    assert(items@ =~= cmd.resources());
    items
}

impl<T: Copy> NamClapProcessor<T> {
    /// How many commands are parked.
    pub open spec fn parked(self) -> int {
        if self.deferred_structural is Some {
            1
        } else {
            0
        }
    }

    /// What the end of an activation leaves in the shared state, and the resources that it leaves
    /// over.
    pub open spec fn deactivated(
        self,
        shared: &GuiSharedState,
        shared_after: &GuiSharedState,
        dropped: Vec<GcItem>,
    ) -> bool {
        &&& dropped@ == (match self.deferred_structural {
            Some(cmd) => cmd.resources(),
            None => Seq::empty(),
        })
        &&& shared_after.cold.param_rx is Some
        &&& command_read_end(shared_after.cold.param_rx->Some_0) == self.cmd_consumer.end()
        &&& *shared_after == (GuiSharedState {
            cold: ColdShared {
                param_rx: shared_after.cold.param_rx,
                gc_tx: Some(self.gc_tx),
                slimmable_rx: Some(self.slimmable_rx),
                deactivated_dsp: Some(
                    kept_of(self.chain, shared.cold.sample_rate, shared.cold.buffer_size),
                ),
                cmd_last_ack: seq_after(self.cmd_consumer.processed(), self.parked()),
                ..shared.cold
            },
            ..*shared
        })
    }

    /// Ends an activation: the ends of the rings and the resources go back to the shared
    /// state. A command that is still deferred is given up, counted and acknowledged, so that the
    /// numbering has no gap in the next activation. Returns the resources of that command; they
    /// are dropped on the main thread.
    pub fn deactivate(self, shared: &mut GuiSharedState) -> (dropped: Vec<GcItem>)
        ensures
            self.deactivated(old(shared), final(shared), dropped),
    {
        let mut consumer = self.cmd_consumer;
        let mut dropped: Vec<GcItem> = Vec::new();
        proof {
            crate::command_scheduler::lemma_seq_after_adds(consumer.processed(), 0, 0);
        }
        if let Some(cmd) = self.deferred_structural {
            dropped = command_resources(&cmd);
            consumer.advance_pending();
        }
        consumer.ack_processed(&mut shared.cold.cmd_last_ack);
        shared.cold.param_rx = Some(consumer.into_inner());
        shared.cold.gc_tx = Some(self.gc_tx);
        shared.cold.slimmable_rx = Some(self.slimmable_rx);
        shared.cold.deactivated_dsp = Some(
            DeactivatedDspState {
                model_l: self.chain.model_l,
                model_generation: self.chain.model_generation,
                cabsim_adapter: self.chain.cabsim_adapter,
                resampler: self.chain.resampler,
                stream: self.chain.stream,
                os_l: self.chain.os_l,
                os_r: self.chain.os_r,
                os_factor: self.chain.applied_os_factor,
                sample_rate: shared.cold.sample_rate,
                buffer_size: shared.cold.buffer_size,
                model_input_mult_adj: self.chain.model_input_mult_adj,
                model_output_mult_adj: self.chain.model_output_mult_adj,
            },
        );
        dropped
    }
}

/// The numbering of the commands has no gap between two activations: a processor that is made of
/// what an earlier one has left is in step with the producer, and no command is parked.
pub proof fn law_reactivation_keeps_step<T: Copy>(
    producer: &CommandProducer,
    next_seq: u64,
    last: NamClapProcessor<T>,
    dropped: Vec<GcItem>,
    next: NamClapProcessor<T>,
    before: &GuiSharedState,
    between: &GuiSharedState,
    extracted: &GuiSharedState,
    after: &GuiSharedState,
    guard: ActivateRollbackGuard,
    plan: ActivationPlan,
    built: BuiltResources,
    staged: Staged,
    config: AudioConfig,
    silence: T,
)
    requires
        in_step(producer, next_seq, &last.cmd_consumer, last.parked()),
        last.deactivated(before, between, dropped),
        guard.param_rx == between.cold.param_rx,
        extracted.cold.cmd_last_ack == between.cold.cmd_last_ack,
        NamClapProcessor::activated(
            extracted,
            guard,
            plan,
            built,
            staged,
            config,
            silence,
            after,
            Ok::<NamClapProcessor<T>, &'static str>(next),
        ),
    ensures
        in_step(producer, next_seq, &next.cmd_consumer, next.parked()),
        next.parked() == 0,
        next.cmd_consumer.end() == last.cmd_consumer.end(),
{
    law_numbering_survives_reactivation(
        producer,
        next_seq,
        &last.cmd_consumer,
        last.parked(),
        &next.cmd_consumer,
        between.cold.cmd_last_ack,
    );
}

/// Where nothing has changed in between, a reactivation reinstalls exactly the chain of
/// before, with its latency and a full tail.
pub proof fn law_reactivation_keeps_the_chain(
    chain: DspChain,
    ui: UiToRt,
    config: AudioConfig,
    model_sample_rate: u32,
    max_resamp_buf: usize,
    built: BuiltResources,
    staged: Staged,
)
    requires
        chain.cached_effective_latency == effective_latency(chain),
        resolve_factor(Some(PendingRestartOs::NotPending), ui) == chain.applied_os_factor,
        staged.model is None,
        staged.ir is None,
        chain.cabsim_adapter is Some || built.cabsim is None,
    ensures
        ({
            let kept = Some(kept_of(chain, config.sample_rate, config.max_frames_count));
            let plan = activation_plan(
                kept,
                Some(PendingRestartOs::NotPending),
                model_sample_rate,
                ui,
                config,
                max_resamp_buf,
            );
            assembled(plan, kept, built, staged) == (DspChain {
                cabsim_tail_remaining: match chain.cabsim_adapter {
                    Some(a) => a.tail_samples,
                    None => 0,
                },
                ..chain
            })
        }),
{
    reveal(assembled);
}

/// A restart installs what waited for it: a staged model comes with its stream and so with its
/// latency, a staged cab-sim or its removal likewise. A model that was not staged stays.
pub proof fn law_restart_installs_what_was_staged(
    plan: ActivationPlan,
    kept: Option<DeactivatedDspState>,
    built: BuiltResources,
    staged: Staged,
)
    ensures
        ({
            let chain = assembled(plan, kept, built, staged);
            &&& staged.model is Some ==> {
                &&& chain.model_l == staged.model->Some_0.model_l
                &&& chain.model_generation == staged.model->Some_0.generation
                &&& chain.stream == staged.model->Some_0.new_stream
                &&& chain.resampler == staged.model->Some_0.new_resampler
            }
            &&& staged.model is None && kept is Some ==> {
                &&& chain.model_l == kept->Some_0.model_l
                &&& chain.model_generation == kept->Some_0.model_generation
            }
            &&& staged.ir is Some ==> chain.cabsim_adapter == staged.ir->Some_0
            &&& chain.applied_os_factor == plan.os_factor
            &&& chain.cached_effective_latency == effective_latency(chain)
        }),
{
    reveal(assembled);
}

/// The factor that a reactivation compares with is the one that the engines ran at. A request
/// that was made in between leads to new engines at the requested factor.
pub proof fn law_requested_factor_is_applied_by_restart(
    chain: DspChain,
    requested: OversampleFactor,
    ui: UiToRt,
    config: AudioConfig,
    model_sample_rate: u32,
    max_resamp_buf: usize,
)
    ensures
        ({
            let kept = kept_of(chain, config.sample_rate, config.max_frames_count);
            let plan = activation_plan(
                Some(kept),
                Some(PendingRestartOs::Pending(requested)),
                model_sample_rate,
                ui,
                config,
                max_resamp_buf,
            );
            &&& kept.os_factor == chain.applied_os_factor
            &&& plan.os_factor == requested
            &&& plan.reuse_os == (requested == chain.applied_os_factor)
        }),
{
}

} // verus!
