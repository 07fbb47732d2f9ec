//! State that the audio thread, the main thread and the GUI have in common.

use vstd::prelude::*;
use crate::params::{OversampleFactor, ProcessingParams, RtProcessingParams};
use crate::payload::{
    CabSimHandle, ClapParamPayload, GcItem, LoadModelPayload, ModelHandle, OversampleHandle,
    ResamplerHandle, RestoreTxn, SlimmableRebuild, StreamHandle,
};
use crate::ring::{
    command_read_end, command_ring, command_write_end, gc_ring, rebuild_read_end, rebuild_ring,
    rebuild_write_end,
};
use crate::status::RtStatusFlags;

verus! {

/// Render mode: real time.
pub const RENDER_MODE_REALTIME: u32 = 0;

/// Render mode: offline, for export.
pub const RENDER_MODE_OFFLINE: u32 = 1;

/// A request that the host restart the plug-in with another oversampling factor.
///
/// In the shared cell 0 means that none is pending and a factor is stored as its code plus
/// one, so that a pending change to `Off` can be told from none.
#[derive(Clone, Copy, Debug, PartialEq, Eq, Structural)]
pub enum PendingRestartOs {
    NotPending,
    Pending(OversampleFactor),
}

impl PendingRestartOs {
    pub open spec fn encoded(self) -> u32 {
        match self {
            PendingRestartOs::NotPending => 0,
            PendingRestartOs::Pending(OversampleFactor::Off) => 1,
            PendingRestartOs::Pending(OversampleFactor::X2) => 2,
            PendingRestartOs::Pending(OversampleFactor::X4) => 3,
        }
    }

    pub open spec fn decoded(raw: u32) -> Self {
        match raw {
            1 => PendingRestartOs::Pending(OversampleFactor::Off),
            2 => PendingRestartOs::Pending(OversampleFactor::X2),
            3 => PendingRestartOs::Pending(OversampleFactor::X4),
            _ => PendingRestartOs::NotPending,
        }
    }

    pub fn encode(self) -> (raw: u32)
        ensures
            raw == self.encoded(),
    {
        match self {
            PendingRestartOs::NotPending => 0,
            PendingRestartOs::Pending(factor) => factor.code() + 1,
        }
    }

    /// Values that nothing encodes to are read as no request.
    pub fn decode(raw: u32) -> (pending: Self)
        ensures
            pending == Self::decoded(raw),
    {
        match raw {
            1 => PendingRestartOs::Pending(OversampleFactor::Off),
            2 => PendingRestartOs::Pending(OversampleFactor::X2),
            3 => PendingRestartOs::Pending(OversampleFactor::X4),
            _ => PendingRestartOs::NotPending,
        }
    }

    /// Reads the cell.
    pub fn load(cell: &u32) -> (pending: Self)
        ensures
            pending == Self::decoded(*cell),
    {
        Self::decode(*cell)
    }

    /// Writes the cell.
    pub fn store(self, cell: &mut u32)
        ensures
            *final(cell) == self.encoded(),
    {
        *cell = self.encode();
    }

    /// Takes the request out of the cell.
    pub fn take(cell: &mut u32) -> (pending: Self)
        ensures
            pending == Self::decoded(*old(cell)),
            *final(cell) == PendingRestartOs::NotPending.encoded(),
    {
        let pending = Self::decode(*cell);
        *cell = 0;
        pending
    }
}

/// What was stored is what is read, and a pending change to any factor differs from none.
pub proof fn law_pending_restart_round_trip(pending: PendingRestartOs, factor: OversampleFactor)
    ensures
        PendingRestartOs::decoded(pending.encoded()) == pending,
        PendingRestartOs::Pending(factor).encoded() != PendingRestartOs::NotPending.encoded(),
{
}

/// Resources that a change of latency holds back until the host restarts the plug-in.
#[derive(Clone, Copy, Debug, PartialEq, Eq, Structural)]
pub struct StagedSwap {
    pub model: Option<LoadModelPayload>,
    /// `Some(None)` clears the IR.
    pub ir: Option<Option<CabSimHandle>>,
}

impl Default for StagedSwap {
    fn default() -> (staged: Self)
        ensures
            staged == (StagedSwap { model: None, ir: None }),
    {
        StagedSwap { model: None, ir: None }
    }
}

impl StagedSwap {
    pub open spec fn empty(self) -> bool {
        self.model is None && self.ir is None
    }

    /// Whether nothing is staged.
    pub fn is_empty(&self) -> (yes: bool)
        ensures
            yes == self.empty(),
    {
        self.model.is_none() && self.ir.is_none()
    }

    /// Gives up the staged model.
    pub fn clear_model(&mut self)
        ensures
            *final(self) == (StagedSwap { model: None, ..*old(self) }),
    {
        self.model = None;
    }

    /// Gives up the staged cab-sim.
    pub fn clear_ir(&mut self)
        ensures
            *final(self) == (StagedSwap { ir: None, ..*old(self) }),
    {
        self.ir = None;
    }
}

/// Description of a model for the GUI.
#[derive(Debug)]
pub struct NamModelMetadata {
    pub architecture: String,
    pub topology: String,
    /// Native sample rate in Hz.
    pub sample_rate: u32,
    pub modeled_by: Option<String>,
    pub gear_make: Option<String>,
    pub gear_model: Option<String>,
    pub gear_type: Option<String>,
    pub tone_type: Option<String>,
    /// Year, year and month, or full date.
    pub date: Option<String>,
}

/// Description of a model for diagnostics.
#[derive(Debug)]
pub struct ModelInfo {
    pub arch_label: String,
    pub topology: String,
    pub channels: u32,
    pub receptive_field: u32,
    pub model_sample_rate: u32,
    pub weights_layout: String,
    pub path_basename: String,
}

/// What becomes visible of a model once its restore has been acknowledged.
#[derive(Debug)]
pub struct RestoreModelPublish {
    pub metadata: NamModelMetadata,
    pub info: ModelInfo,
    /// Full weights for later slimming.
    pub full_wavenet: Option<ModelHandle>,
    pub model_rate: u32,
}

/// What becomes visible of a restore once it has been acknowledged.
#[derive(Debug)]
pub struct RestorePublish {
    /// Whether absent components are cleared.
    pub mode_full: bool,
    pub params: ProcessingParams,
    pub model: Option<RestoreModelPublish>,
    pub model_path_on_disk: Option<String>,
    pub model_basename: Option<String>,
    pub model_hash: Option<String>,
    pub model_search_path_to_add: Option<String>,
    pub ir_path_on_disk: Option<String>,
    pub ir_hash: Option<String>,
    /// Samples of the IR (bit patterns).
    pub ir_raw_samples: Option<Vec<u32>>,
    pub ir_raw_sample_rate: u32,
}

/// A restore on its way to the audio thread.
#[derive(Debug)]
pub struct PendingRestore {
    pub generation: u64,
    /// Present until the transaction has entered the ring.
    pub txn: Option<RestoreTxn>,
    pub publish: RestorePublish,
    /// Number of the transaction, once it has entered the ring.
    pub seq: u64,
}

/// A restore that waits for the host to restart the plug-in.
#[derive(Debug)]
pub struct StagedRestore {
    pub txn: RestoreTxn,
    pub publish: RestorePublish,
}

/// A model that could not be sent yet.
#[derive(Clone, Copy, Debug, PartialEq, Eq, Structural)]
pub struct PendingModel {
    /// Generation that the model was adopted with.
    pub generation: u64,
    pub model: Option<ModelHandle>,
    /// Native sample rate in Hz.
    pub model_rate: u32,
    /// Input calibration multiplier (bit pattern).
    pub input_mult_adj: u32,
    /// Output calibration multiplier (bit pattern).
    pub output_mult_adj: u32,
}

/// A preset load that the host is waiting to hear about.
#[derive(Debug)]
pub struct PendingPresetLoad {
    pub location_path: String,
    pub load_key: Option<String>,
}

/// Resources kept from one activation to the next.
#[derive(Clone, Copy, Debug, PartialEq, Eq, Structural)]
pub struct DeactivatedDspState {
    pub model_l: Option<ModelHandle>,
    pub model_generation: u64,
    pub cabsim_adapter: Option<CabSimHandle>,
    pub resampler: ResamplerHandle,
    pub stream: StreamHandle,
    pub os_l: OversampleHandle,
    pub os_r: OversampleHandle,
    /// Factor that the engines run at, not the one that was asked for.
    pub os_factor: OversampleFactor,
    pub sample_rate: u32,
    pub buffer_size: u32,
    pub model_input_mult_adj: u32,
    pub model_output_mult_adj: u32,
}

/// Written by the audio thread on every block, read by the GUI.
#[derive(Clone, Copy, Debug, PartialEq, Eq, Structural)]
pub struct RtToUi {
    /// Peak of the left channel (bit pattern).
    pub ui_peak_l: u32,
    /// Peak of the right channel (bit pattern).
    pub ui_peak_r: u32,
    pub ui_clipped: bool,
    pub ui_clip_indicator: bool,
    pub ui_gate_active: bool,
    /// Latency in samples, as the host is told.
    pub current_latency: u32,
    /// Length of the cab-sim tail in samples.
    pub cabsim_tail_samples: u32,
    /// 1 for mono, 2 for stereo.
    pub active_channel_count: u32,
}

/// Written by the GUI and the main thread, read by the audio thread on every block.
#[derive(Clone, Copy, Debug, PartialEq, Eq, Structural)]
pub struct UiToRt {
    /// Input gain in dB (bit pattern).
    pub param_input_gain: u32,
    /// Output gain in dB (bit pattern).
    pub param_output_gain: u32,
    /// Gate threshold in dB (bit pattern).
    pub param_gate_thresh: u32,
    /// 0 or 1.
    pub param_bypass: u32,
    pub param_adaptive_compute: u32,
    pub param_slim_override: u32,
    pub param_oversample: u32,
    pub param_activation: u32,
    /// Three bits for each parameter: changed, gesture begun, gesture ended.
    pub gesture_flags: u32,
    /// Grows with every change that the GUI makes.
    pub gui_param_generation: u32,
    /// The host has switched the right channel off.
    pub host_r_deactivated: bool,
}

/// Read and written rarely, by either thread.
pub struct ColdShared {
    pub instance_id: u64,
    pub param_tx: Option<rtrb::Producer<ClapParamPayload>>,
    pub param_rx: Option<rtrb::Consumer<ClapParamPayload>>,
    pub gc_tx: Option<rtrb::Producer<GcItem>>,
    pub gc_rx: Option<rtrb::Consumer<GcItem>>,
    pub slimmable_tx: Option<rtrb::Producer<SlimmableRebuild>>,
    pub slimmable_rx: Option<rtrb::Consumer<SlimmableRebuild>>,
    pub rt_status: RtStatusFlags,
    /// Native sample rate of the model in Hz; 0 without a model.
    pub model_sample_rate: u32,
    /// Sample rate of the host in Hz; 0 while it is unknown.
    pub sample_rate: u32,
    /// Block size of the host; 0 while the plug-in has never been active.
    pub buffer_size: u32,
    /// Latency of the stream adapter that is installed on the audio thread.
    pub current_stream_latency: u32,
    /// Latency of the cab-sim adapter that is installed on the audio thread.
    pub current_cabsim_latency: u32,
    pub model_load_counter: u32,
    /// Generation of the model adopted last; 0 before the first.
    pub model_generation: u64,
    pub ui_model_name: String,
    pub ui_model_metadata: Option<NamModelMetadata>,
    pub ui_model_info: Option<ModelInfo>,
    /// Model that the GUI asks for.
    pub ui_pending_model: Option<String>,
    pub ui_loading: bool,
    pub ui_load_error: bool,
    pub ui_load_error_msg: String,
    pub ui_clear_model: bool,
    /// Lowered when the instance goes away.
    pub alive_fence: bool,
    /// The user has closed the window.
    pub gui_user_closed: bool,
    pub render_mode: u32,
    pub ir_path: Option<String>,
    pub ir_hash: Option<String>,
    /// IR that the GUI asks for.
    pub ui_pending_ir: Option<String>,
    pub ui_ir_loading: bool,
    pub ui_ir_load_error: bool,
    pub ui_ir_load_error_msg: String,
    pub ui_clear_ir: bool,
    /// Samples of the active IR (bit patterns).
    pub ir_raw_samples: Option<Vec<u32>>,
    pub ir_raw_sample_rate: u32,
    /// Generation of the model that a slimmable rebuild was asked for.
    pub requested_slimmable_generation: u64,
    pub slimmable_stale_discarded_total: u32,
    /// Full weights of the active WaveNet.
    pub full_wavenet_model: Option<ModelHandle>,
    /// Number of the last command sent to the audio thread.
    pub cmd_next_seq: u64,
    /// Number of the last command that the audio thread has dealt with.
    pub cmd_last_ack: u64,
    /// Generation of the restore applied last.
    pub last_applied_generation: u64,
    /// Encoded as [`PendingRestartOs`].
    pub pending_restart_os_factor: u32,
    /// Parameters that found the ring full.
    pub in_flight_params: Option<RtProcessingParams>,
    /// First come, first served.
    pub pending_preset_load: Vec<PendingPresetLoad>,
    pub pending_model: Option<PendingModel>,
    pub deactivated_dsp: Option<DeactivatedDspState>,
    /// Whether the model file dialog is open; `None` without a dialog.
    pub dialog_active: Option<bool>,
}

impl ColdShared {
    pub open spec fn next_model_generation(self) -> u64 {
        ((self.model_generation + 1) % 0x1_0000_0000_0000_0000) as u64
    }

    /// Gives the next model its generation. Generations count from 1.
    pub fn allocate_model_generation(&mut self) -> (generation: u64)
        ensures
            generation == old(self).next_model_generation(),
            *final(self) == (ColdShared { model_generation: generation, ..*old(self) }),
    {
        self.model_generation = self.model_generation.wrapping_add(1);
        self.model_generation
    }
}

/// Slots of the ring that carries retired resources to the main thread.
pub const GC_SLOTS: usize = 32;

/// Slots of the ring that carries rebuilt models to the audio thread.
pub const REBUILD_SLOTS: usize = 4;

/// Everything that the threads share.
pub struct GuiSharedState {
    pub rt_to_ui: RtToUi,
    pub ui_to_rt: UiToRt,
    pub cold: ColdShared,
}

/// The shared state of one plug-in instance.
pub struct NamClapShared {
    pub gui: GuiSharedState,
}

/// Initial values of what the audio thread writes.
pub open spec fn initial_rt_to_ui() -> RtToUi {
    RtToUi {
        ui_peak_l: 0,
        ui_peak_r: 0,
        ui_clipped: false,
        ui_clip_indicator: false,
        ui_gate_active: false,
        current_latency: 0,
        cabsim_tail_samples: 0,
        active_channel_count: 1,
    }
}

/// Initial values of what the GUI writes.
pub open spec fn initial_ui_to_rt() -> UiToRt {
    UiToRt {
        param_input_gain: 0,
        param_output_gain: 0,
        param_gate_thresh: 0xc2b4_0000,
        param_bypass: 0,
        param_adaptive_compute: 1,
        param_slim_override: 0,
        param_oversample: 0,
        param_activation: 1,
        gesture_flags: 0,
        gui_param_generation: 0,
        host_r_deactivated: false,
    }
}

impl GuiSharedState {
    /// Whether a state is that of a new instance: nothing has been loaded, and the rings, of which
    /// the one for commands has so many slots, are empty.
    pub open spec fn is_fresh(self, instance_id: u64, command_slots: usize) -> bool {
        &&& self.rt_to_ui == initial_rt_to_ui()
        &&& self.ui_to_rt == initial_ui_to_rt()
        &&& self.cold.instance_id == instance_id
        &&& self.cold.param_tx is Some
        &&& self.cold.param_rx is Some
        &&& command_write_end(self.cold.param_tx->Some_0).ring == command_read_end(
            self.cold.param_rx->Some_0,
        ).ring
        &&& command_write_end(self.cold.param_tx->Some_0).capacity == command_slots
        &&& command_write_end(self.cold.param_tx->Some_0).pushed == 0
        &&& command_write_end(self.cold.param_tx->Some_0).refusals == 0
        &&& command_read_end(self.cold.param_rx->Some_0).popped == 0
        &&& command_read_end(self.cold.param_rx->Some_0).misses == 0
        &&& command_read_end(self.cold.param_rx->Some_0).blind == 0
        &&& self.cold.gc_tx is Some && self.cold.gc_rx is Some
        &&& self.cold.slimmable_tx is Some
        &&& self.cold.slimmable_rx is Some
        &&& rebuild_write_end(self.cold.slimmable_tx->Some_0).ring == rebuild_read_end(
            self.cold.slimmable_rx->Some_0,
        ).ring
        &&& rebuild_write_end(self.cold.slimmable_tx->Some_0).capacity == REBUILD_SLOTS
        &&& rebuild_write_end(self.cold.slimmable_tx->Some_0).pushed == 0
        &&& rebuild_write_end(self.cold.slimmable_tx->Some_0).refusals == 0
        &&& rebuild_read_end(self.cold.slimmable_rx->Some_0).popped == 0
        &&& rebuild_read_end(self.cold.slimmable_rx->Some_0).misses == 0
        &&& rebuild_read_end(self.cold.slimmable_rx->Some_0).blind == 0
        &&& self.cold.rt_status == (RtStatusFlags {
            flags: 0,
            flags_seen: 0,
            structural_deferred_total: 0,
            structural_superseded_total: 0,
            drains: 0,
            requested_slimmable_ch: 0,
            requested_os_factor: 0,
            last_n_samples: 0,
        })
        &&& self.cold.model_sample_rate == 48000
        &&& self.cold.buffer_size == 0
        &&& self.cold.current_stream_latency == 0
        &&& self.cold.current_cabsim_latency == 0
        &&& self.cold.model_load_counter == 0
        &&& self.cold.model_generation == 0
        &&& self.cold.ui_model_name@.len() == 0
        &&& self.cold.ui_model_metadata is None
        &&& self.cold.ui_model_info is None
        &&& self.cold.ui_pending_model is None
        &&& !self.cold.ui_loading && !self.cold.ui_load_error && !self.cold.ui_clear_model
        &&& self.cold.ui_load_error_msg@.len() == 0
        &&& self.cold.alive_fence && !self.cold.gui_user_closed
        &&& self.cold.render_mode == RENDER_MODE_REALTIME
        &&& self.cold.ir_path is None && self.cold.ir_hash is None
        &&& self.cold.ui_pending_ir is None
        &&& !self.cold.ui_ir_loading && !self.cold.ui_ir_load_error && !self.cold.ui_clear_ir
        &&& self.cold.ui_ir_load_error_msg@.len() == 0
        &&& self.cold.ir_raw_samples is None && self.cold.ir_raw_sample_rate == 0
        &&& self.cold.requested_slimmable_generation == 0
        &&& self.cold.slimmable_stale_discarded_total == 0
        &&& self.cold.full_wavenet_model is None
        &&& self.cold.cmd_next_seq == 0
        &&& self.cold.cmd_last_ack == 0
        &&& self.cold.last_applied_generation == 0
        &&& self.cold.pending_restart_os_factor == 0
        &&& self.cold.in_flight_params is None
        &&& self.cold.pending_preset_load@.len() == 0
        &&& self.cold.pending_model is None
        &&& self.cold.deactivated_dsp is None
        &&& self.cold.dialog_active == Some(false)
    }

    /// The state of a new instance, before the host has told its rate.
    pub fn new(instance_id: u64, command_slots: usize) -> (state: Self)
        requires
            command_slots * 1024 <= isize::MAX,
        ensures
            state.is_fresh(instance_id, command_slots),
            state.cold.sample_rate == 0,
    {
        let (param_tx, param_rx) = command_ring(command_slots);
        let (gc_tx, gc_rx) = gc_ring(GC_SLOTS);
        let (slimmable_tx, slimmable_rx) = rebuild_ring(REBUILD_SLOTS);
        GuiSharedState {
            rt_to_ui: RtToUi {
                ui_peak_l: 0,
                ui_peak_r: 0,
                ui_clipped: false,
                ui_clip_indicator: false,
                ui_gate_active: false,
                current_latency: 0,
                cabsim_tail_samples: 0,
                active_channel_count: 1,
            },
            ui_to_rt: UiToRt {
                param_input_gain: 0,
                param_output_gain: 0,
                param_gate_thresh: 0xc2b4_0000,
                param_bypass: 0,
                param_adaptive_compute: 1,
                param_slim_override: 0,
                param_oversample: 0,
                param_activation: 1,
                gesture_flags: 0,
                gui_param_generation: 0,
                host_r_deactivated: false,
            },
            cold: ColdShared {
                instance_id,
                param_tx: Some(param_tx),
                param_rx: Some(param_rx),
                gc_tx: Some(gc_tx),
                gc_rx: Some(gc_rx),
                slimmable_tx: Some(slimmable_tx),
                slimmable_rx: Some(slimmable_rx),
                rt_status: RtStatusFlags::new(),
                model_sample_rate: 48000,
                sample_rate: 0,
                buffer_size: 0,
                current_stream_latency: 0,
                current_cabsim_latency: 0,
                model_load_counter: 0,
                model_generation: 0,
                ui_model_name: String::new(),
                ui_model_metadata: None,
                ui_model_info: None,
                ui_pending_model: None,
                ui_loading: false,
                ui_load_error: false,
                ui_load_error_msg: String::new(),
                ui_clear_model: false,
                alive_fence: true,
                gui_user_closed: false,
                render_mode: RENDER_MODE_REALTIME,
                ir_path: None,
                ir_hash: None,
                ui_pending_ir: None,
                ui_ir_loading: false,
                ui_ir_load_error: false,
                ui_ir_load_error_msg: String::new(),
                ui_clear_ir: false,
                ir_raw_samples: None,
                ir_raw_sample_rate: 0,
                requested_slimmable_generation: 0,
                slimmable_stale_discarded_total: 0,
                full_wavenet_model: None,
                cmd_next_seq: 0,
                cmd_last_ack: 0,
                last_applied_generation: 0,
                pending_restart_os_factor: 0,
                in_flight_params: None,
                pending_preset_load: Vec::new(),
                pending_model: None,
                deactivated_dsp: None,
                dialog_active: Some(false),
            },
        }
    }

    /// A state as a test starts from: a small ring, nothing loaded, host rate 44.1 kHz, model rate
    /// 48 kHz.
    pub fn new_test() -> (state: Self)
        ensures
            state.is_fresh(1, 8),
            state.cold.sample_rate == 44100,
    {
        let mut state = GuiSharedState::new(1, 8);
        state.cold.sample_rate = 44100;
        state
    }

    /// Tells the audio thread that the GUI has changed a parameter.
    pub fn bump_generation(&mut self)
        ensures
            *final(self) == (GuiSharedState {
                ui_to_rt: UiToRt {
                    gui_param_generation: next_gui_generation(old(self).ui_to_rt),
                    ..old(self).ui_to_rt
                },
                ..*old(self)
            }),
    {
        self.ui_to_rt.gui_param_generation = self.ui_to_rt.gui_param_generation.wrapping_add(1);
    }

    /// Whether the model file dialog is open.
    pub fn is_model_dialog_active(&self) -> (active: bool)
        ensures
            active == (self.cold.dialog_active == Some(true)),
    {
        match self.cold.dialog_active {
            Some(active) => active,
            None => false,
        }
    }

    /// Records whether the model file dialog is open, where there is one.
    pub fn set_model_dialog_active(&mut self, active: bool)
        ensures
            *final(self) == (GuiSharedState {
                cold: ColdShared {
                    dialog_active: if old(self).cold.dialog_active is Some {
                        Some(active)
                    } else {
                        None
                    },
                    ..old(self).cold
                },
                ..*old(self)
            }),
    {
        if self.cold.dialog_active.is_some() {
            self.cold.dialog_active = Some(active);
        }
    }
}

/// The generation after the current one.
pub open spec fn next_gui_generation(ui: UiToRt) -> u32 {
    ((ui.gui_param_generation + 1) % 0x1_0000_0000) as u32
}

} // verus!
