//! Parameter values as the audio thread sees them.
//!
//! Gains and thresholds are kept as the bit pattern of an IEEE-754 single, the form in
//! which the shared cells carry them. Nothing in this crate computes with them.

use vstd::prelude::*;

verus! {

/// CLAP identifier of the input gain.
pub const PARAM_INPUT_GAIN: u32 = 0;

/// CLAP identifier of the output gain.
pub const PARAM_OUTPUT_GAIN: u32 = 1;

/// CLAP identifier of the noise gate threshold.
pub const PARAM_GATE_THRESH: u32 = 2;

/// CLAP identifier of the bypass switch.
pub const PARAM_BYPASS: u32 = 3;

/// CLAP identifier of the read-only active-model parameter.
pub const PARAM_ACTIVE_MODEL: u32 = 4;

/// CLAP identifier of the adaptive compute mode.
pub const PARAM_ADAPTIVE_COMPUTE: u32 = 5;

/// CLAP identifier of the slim override.
pub const PARAM_SLIM_OVERRIDE: u32 = 6;

/// CLAP identifier of the oversampling factor.
pub const PARAM_OVERSAMPLE: u32 = 7;

/// CLAP identifier of the activation precision.
pub const PARAM_ACTIVATION: u32 = 8;

/// Bit pattern of `0.0`.
pub const F32_ZERO_BITS: u32 = 0;

/// Bit pattern of `1.0`.
pub const F32_ONE_BITS: u32 = 0x3f80_0000;

/// Bit pattern of `-90.0`, the noise gate threshold of a new instance.
pub const GATE_DEFAULT_BITS: u32 = 0xc2b4_0000;

/// How far the engine may trade quality for CPU time.
#[derive(Clone, Copy, Debug, PartialEq, Eq, Structural)]
pub enum AdaptiveComputeMode {
    Off,
    Conservative,
    Aggressive,
}

/// Manual choice between the full and the slimmed model.
#[derive(Clone, Copy, Debug, PartialEq, Eq, Structural)]
pub enum SlimOverride {
    Auto,
    ForceFull,
    ForceLite,
}

/// Oversampling factor around the model.
#[derive(Clone, Copy, Debug, PartialEq, Eq, Structural)]
pub enum OversampleFactor {
    Off,
    X2,
    X4,
}

/// Accuracy of the activation functions.
#[derive(Clone, Copy, Debug, PartialEq, Eq, Structural)]
pub enum ActivationPrecision {
    Fast,
    Standard,
}

impl AdaptiveComputeMode {
    /// The parameter value of the mode.
    pub open spec fn code_spec(self) -> u32 {
        match self {
            AdaptiveComputeMode::Off => 0,
            AdaptiveComputeMode::Conservative => 1,
            AdaptiveComputeMode::Aggressive => 2,
        }
    }

    pub fn code(self) -> (code: u32)
        ensures
            code == self.code_spec(),
    {
        match self {
            AdaptiveComputeMode::Off => 0,
            AdaptiveComputeMode::Conservative => 1,
            AdaptiveComputeMode::Aggressive => 2,
        }
    }

    /// What a stored value stands for. A value without a meaning stands for the choice of a new
    /// instance.
    pub open spec fn of_code(code: u32) -> Self {
        match code {
            0 => AdaptiveComputeMode::Off,
            2 => AdaptiveComputeMode::Aggressive,
            _ => AdaptiveComputeMode::Conservative,
        }
    }

    /// Reads a stored value.
    pub fn decode(code: u32) -> (choice: Self)
        ensures
            choice == Self::of_code(code),
    {
        match code {
            0 => AdaptiveComputeMode::Off,
            2 => AdaptiveComputeMode::Aggressive,
            _ => AdaptiveComputeMode::Conservative,
        }
    }

    /// The mode with the given parameter value, or `None` where there is none.
    pub fn from_code(code: u32) -> (mode: Option<Self>)
        ensures
            mode is Some <==> code <= 2,
            mode is Some ==> mode->Some_0 == Self::of_code(code) && mode->Some_0.code_spec() == code,
    {
        match code {
            0 => Some(AdaptiveComputeMode::Off),
            1 => Some(AdaptiveComputeMode::Conservative),
            2 => Some(AdaptiveComputeMode::Aggressive),
            _ => None,
        }
    }
}

impl SlimOverride {
    /// The parameter value of the override.
    pub open spec fn code_spec(self) -> u32 {
        match self {
            SlimOverride::Auto => 0,
            SlimOverride::ForceFull => 1,
            SlimOverride::ForceLite => 2,
        }
    }

    pub fn code(self) -> (code: u32)
        ensures
            code == self.code_spec(),
    {
        match self {
            SlimOverride::Auto => 0,
            SlimOverride::ForceFull => 1,
            SlimOverride::ForceLite => 2,
        }
    }

    /// What a stored value stands for. A value without a meaning stands for the choice of a new
    /// instance.
    pub open spec fn of_code(code: u32) -> Self {
        match code {
            1 => SlimOverride::ForceFull,
            2 => SlimOverride::ForceLite,
            _ => SlimOverride::Auto,
        }
    }

    /// Reads a stored value.
    pub fn decode(code: u32) -> (choice: Self)
        ensures
            choice == Self::of_code(code),
    {
        match code {
            1 => SlimOverride::ForceFull,
            2 => SlimOverride::ForceLite,
            _ => SlimOverride::Auto,
        }
    }

    /// The override with the given parameter value, or `None` where there is none.
    pub fn from_code(code: u32) -> (slim: Option<Self>)
        ensures
            slim is Some <==> code <= 2,
            slim is Some ==> slim->Some_0 == Self::of_code(code) && slim->Some_0.code_spec() == code,
    {
        match code {
            0 => Some(SlimOverride::Auto),
            1 => Some(SlimOverride::ForceFull),
            2 => Some(SlimOverride::ForceLite),
            _ => None,
        }
    }
}

impl OversampleFactor {
    /// The parameter value of the factor.
    pub open spec fn code_spec(self) -> u32 {
        match self {
            OversampleFactor::Off => 0,
            OversampleFactor::X2 => 1,
            OversampleFactor::X4 => 2,
        }
    }

    pub fn code(self) -> (code: u32)
        ensures
            code == self.code_spec(),
    {
        match self {
            OversampleFactor::Off => 0,
            OversampleFactor::X2 => 1,
            OversampleFactor::X4 => 2,
        }
    }

    /// What a stored value stands for. A value without a meaning stands for the choice of a new
    /// instance.
    pub open spec fn of_code(code: u32) -> Self {
        match code {
            1 => OversampleFactor::X2,
            2 => OversampleFactor::X4,
            _ => OversampleFactor::Off,
        }
    }

    /// Reads a stored value.
    pub fn decode(code: u32) -> (choice: Self)
        ensures
            choice == Self::of_code(code),
    {
        match code {
            1 => OversampleFactor::X2,
            2 => OversampleFactor::X4,
            _ => OversampleFactor::Off,
        }
    }

    /// The factor with the given parameter value, or `None` where there is none.
    pub fn from_code(code: u32) -> (factor: Option<Self>)
        ensures
            factor is Some <==> code <= 2,
            factor is Some ==> factor->Some_0 == Self::of_code(code) && factor->Some_0.code_spec() == code,
    {
        match code {
            0 => Some(OversampleFactor::Off),
            1 => Some(OversampleFactor::X2),
            2 => Some(OversampleFactor::X4),
            _ => None,
        }
    }
}

impl ActivationPrecision {
    /// The parameter value of the precision.
    pub open spec fn code_spec(self) -> u32 {
        match self {
            ActivationPrecision::Fast => 0,
            ActivationPrecision::Standard => 1,
        }
    }

    pub fn code(self) -> (code: u32)
        ensures
            code == self.code_spec(),
    {
        match self {
            ActivationPrecision::Fast => 0,
            ActivationPrecision::Standard => 1,
        }
    }

    /// What a stored value stands for. A value without a meaning stands for the choice of a new
    /// instance.
    pub open spec fn of_code(code: u32) -> Self {
        match code {
            0 => ActivationPrecision::Fast,
            _ => ActivationPrecision::Standard,
        }
    }

    /// Reads a stored value.
    pub fn decode(code: u32) -> (choice: Self)
        ensures
            choice == Self::of_code(code),
    {
        match code {
            0 => ActivationPrecision::Fast,
            _ => ActivationPrecision::Standard,
        }
    }

    /// The precision with the given parameter value, or `None` where there is none.
    pub fn from_code(code: u32) -> (precision: Option<Self>)
        ensures
            precision is Some <==> code <= 1,
            precision is Some ==> precision->Some_0 == Self::of_code(code) && precision->Some_0.code_spec() == code,
    {
        match code {
            0 => Some(ActivationPrecision::Fast),
            1 => Some(ActivationPrecision::Standard),
            _ => None,
        }
    }
}

/// The parameter snapshot that travels to the audio thread.
#[derive(Clone, Copy, Debug, PartialEq, Eq, Structural)]
pub struct RtProcessingParams {
    /// Input gain in dB (bit pattern).
    pub input_gain_db: u32,
    /// Output gain in dB (bit pattern).
    pub output_gain_db: u32,
    /// Gate threshold in dB (bit pattern).
    pub gate_threshold_db: u32,
    pub bypass: bool,
    pub adaptive_compute: AdaptiveComputeMode,
    pub slim_override: SlimOverride,
    /// The requested oversampling factor; the applied one may lag behind it.
    pub oversample: OversampleFactor,
    pub activation_precision: ActivationPrecision,
}

/// The parameters of a new instance.
pub open spec fn default_params() -> RtProcessingParams {
    RtProcessingParams {
        input_gain_db: F32_ZERO_BITS,
        output_gain_db: F32_ZERO_BITS,
        gate_threshold_db: GATE_DEFAULT_BITS,
        bypass: false,
        adaptive_compute: AdaptiveComputeMode::Conservative,
        slim_override: SlimOverride::Auto,
        oversample: OversampleFactor::Off,
        activation_precision: ActivationPrecision::Standard,
    }
}

impl Default for RtProcessingParams {
    fn default() -> (params: Self)
        ensures
            params == default_params(),
    {
        RtProcessingParams {
            input_gain_db: F32_ZERO_BITS,
            output_gain_db: F32_ZERO_BITS,
            gate_threshold_db: GATE_DEFAULT_BITS,
            bypass: false,
            adaptive_compute: AdaptiveComputeMode::Conservative,
            slim_override: SlimOverride::Auto,
            oversample: OversampleFactor::Off,
            activation_precision: ActivationPrecision::Standard,
        }
    }
}

/// The parameters as they are saved with a session.
#[derive(Debug)]
pub struct ProcessingParams {
    /// Input gain in dB (bit pattern).
    pub input_gain_db: u32,
    /// Output gain in dB (bit pattern).
    pub output_gain_db: u32,
    /// Gate threshold in dB (bit pattern).
    pub gate_threshold_db: u32,
    pub bypass: bool,
    pub adaptive_compute: AdaptiveComputeMode,
    pub slim_override: SlimOverride,
    pub oversample: OversampleFactor,
    pub activation_precision: ActivationPrecision,
    pub model_path: Option<String>,
    pub model_basename: Option<String>,
    pub model_search_paths: Vec<String>,
    /// SHA-256 of the model file, in hex.
    pub model_hash: Option<String>,
    pub ir_path: Option<String>,
    /// SHA-256 of the IR file, in hex.
    pub ir_hash: Option<String>,
}

} // verus!
