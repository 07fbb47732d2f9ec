//! Commands from the main thread to the audio thread and the resources they carry.
//!
//! Models, resamplers, stream adapters, cab-sim adapters and oversampling engines are built
//! and owned elsewhere. Here each is known by a handle together with the figures that the
//! control logic reads from it.

use vstd::prelude::*;
use crate::params::{OversampleFactor, RtProcessingParams};

verus! {

/// Channel layout of a dynamic WaveNet model.
#[derive(Clone, Copy, Debug, PartialEq, Eq, Structural)]
pub struct WaveNetShape {
    pub channels: u32,
    /// Whether channels can be sliced off at run time.
    pub slimmable: bool,
}

/// A neural model, ready for inference.
#[derive(Clone, Copy, Debug, PartialEq, Eq, Structural)]
pub struct ModelHandle {
    pub id: u64,
    /// Present for a dynamic WaveNet.
    pub wavenet: Option<WaveNetShape>,
}

/// A polyphase resampler.
#[derive(Clone, Copy, Debug, PartialEq, Eq, Structural)]
pub struct ResamplerHandle {
    pub id: u64,
}

/// A streaming resample adapter.
#[derive(Clone, Copy, Debug, PartialEq, Eq, Structural)]
pub struct StreamHandle {
    pub id: u64,
    /// Delay that the adapter adds, in host samples.
    pub latency_samples: u32,
}

/// A cab-sim convolution adapter.
#[derive(Clone, Copy, Debug, PartialEq, Eq, Structural)]
pub struct CabSimHandle {
    pub id: u64,
    /// Delay that the adapter adds, in host samples (its partition size).
    pub latency_samples: u32,
    pub num_partitions: u32,
    /// Samples that ring out once the input has gone silent.
    pub tail_samples: u32,
}

/// An oversampling engine for one channel.
#[derive(Clone, Copy, Debug, PartialEq, Eq, Structural)]
pub struct OversampleHandle {
    pub id: u64,
    pub factor: OversampleFactor,
    /// Delay that the engine adds, in host samples.
    pub latency_samples: u32,
}

/// A resource that the audio thread has let go of; it is dropped on the main thread.
#[derive(Clone, Copy, Debug, PartialEq, Eq, Structural)]
pub enum GcItem {
    Model(ModelHandle),
    Resampler(ResamplerHandle),
    Streaming(StreamHandle),
    CabConvAdapter(CabSimHandle),
    Oversample(OversampleHandle),
}

/// A model together with everything that is swapped with it.
#[derive(Clone, Copy, Debug, PartialEq, Eq, Structural)]
pub struct LoadModelPayload {
    /// Generation that the model was adopted with.
    pub generation: u64,
    /// `None` clears the active model.
    pub model_l: Option<ModelHandle>,
    pub new_resampler: ResamplerHandle,
    pub new_stream: StreamHandle,
    /// Input calibration multiplier (bit pattern).
    pub input_mult_adj: u32,
    /// Output calibration multiplier (bit pattern).
    pub output_mult_adj: u32,
}

/// A complete state restore, applied as one package.
#[derive(Clone, Copy, Debug, PartialEq, Eq, Structural)]
pub struct RestoreTxn {
    pub generation: u64,
    /// `None` leaves the active model untouched.
    pub model: Option<LoadModelPayload>,
    /// `None` leaves the active IR untouched, `Some(None)` clears it.
    pub ir: Option<Option<CabSimHandle>>,
    pub params: RtProcessingParams,
}

/// A command from the main thread to the audio thread.
#[derive(Clone, Copy, Debug, PartialEq, Eq, Structural)]
pub enum ClapParamPayload {
    Params(RtProcessingParams),
    LoadModel {
        generation: u64,
        model_l: Option<ModelHandle>,
        new_resampler: ResamplerHandle,
        new_stream: StreamHandle,
        input_mult_adj: u32,
        output_mult_adj: u32,
    },
    /// `None` clears the cab-sim.
    LoadCabIr { adapter: Option<CabSimHandle> },
    SetOversample { os_l: OversampleHandle, os_r: OversampleHandle },
    RestoreTxn(RestoreTxn),
}

/// What a structural command replaces.
#[derive(Clone, Copy, Debug, PartialEq, Eq, Structural)]
pub enum StructuralKind {
    Model,
    CabIr,
    Oversample,
    Restore,
}

impl StructuralKind {
    pub open spec fn coalescible(self) -> bool {
        self != StructuralKind::Restore
    }

    /// Whether a deferred command of this kind may be dropped in favour of a newer one of
    /// the same kind. A restore is acknowledged as a whole and is never dropped.
    pub fn is_coalescible(self) -> (yes: bool)
        ensures
            yes == self.coalescible(),
    {
        !matches!(self, StructuralKind::Restore)
    }
}

impl ClapParamPayload {
    pub open spec fn kind(self) -> Option<StructuralKind> {
        match self {
            ClapParamPayload::Params(_) => None,
            ClapParamPayload::LoadModel { .. } => Some(StructuralKind::Model),
            ClapParamPayload::LoadCabIr { .. } => Some(StructuralKind::CabIr),
            ClapParamPayload::SetOversample { .. } => Some(StructuralKind::Oversample),
            ClapParamPayload::RestoreTxn(_) => Some(StructuralKind::Restore),
        }
    }

    /// The kind of a structural command; `None` for a plain parameter update.
    pub fn structural_kind(&self) -> (kind: Option<StructuralKind>)
        ensures
            kind == self.kind(),
    {
        match self {
            ClapParamPayload::Params(_) => None,
            ClapParamPayload::LoadModel { .. } => Some(StructuralKind::Model),
            ClapParamPayload::LoadCabIr { .. } => Some(StructuralKind::CabIr),
            ClapParamPayload::SetOversample { .. } => Some(StructuralKind::Oversample),
            ClapParamPayload::RestoreTxn(_) => Some(StructuralKind::Restore),
        }
    }

    /// Whether the command swaps resources, as opposed to updating parameters.
    pub fn is_structural(&self) -> (yes: bool)
        ensures
            yes == self.kind() is Some,
    {
        !matches!(self, ClapParamPayload::Params(_))
    }

    /// The resources that the command carries, in the order in which they are retired when
    /// the command is dropped without having been applied.
    pub open spec fn resources(self) -> Seq<GcItem> {
        match self {
            ClapParamPayload::Params(_) => Seq::empty(),
            ClapParamPayload::LoadModel { model_l, new_resampler, new_stream, .. } =>
                model_resources(model_l, new_resampler, new_stream),
            ClapParamPayload::LoadCabIr { adapter } => cabsim_resources(adapter),
            ClapParamPayload::SetOversample { os_l, os_r } =>
                seq![GcItem::Oversample(os_l), GcItem::Oversample(os_r)],
            ClapParamPayload::RestoreTxn(txn) => {
                (match txn.model {
                    Some(m) => model_resources(m.model_l, m.new_resampler, m.new_stream),
                    None => Seq::empty(),
                }) + (match txn.ir {
                    Some(ir) => cabsim_resources(ir),
                    None => Seq::empty(),
                })
            },
        }
    }
}

/// The resources of a model swap.
pub open spec fn model_resources(
    model: Option<ModelHandle>,
    resampler: ResamplerHandle,
    stream: StreamHandle,
) -> Seq<GcItem> {
    match model {
        Some(m) => seq![GcItem::Model(m), GcItem::Resampler(resampler), GcItem::Streaming(stream)],
        None => seq![GcItem::Resampler(resampler), GcItem::Streaming(stream)],
    }
}

/// The resource of a cab-sim swap.
pub open spec fn cabsim_resources(adapter: Option<CabSimHandle>) -> Seq<GcItem> {
    match adapter {
        Some(a) => seq![GcItem::CabConvAdapter(a)],
        None => Seq::empty(),
    }
}

/// A slimmed model, tagged with the generation of the model that it was sliced from.
#[derive(Clone, Copy, Debug, PartialEq, Eq, Structural)]
pub struct SlimmableRebuild {
    pub generation: u64,
    pub model: ModelHandle,
}

} // verus!
