//! Messages for audio resources that could not be built.

use vstd::prelude::*;

verus! {

pub const RESAMPLER_BUILD_FAILED: &'static str = "Failed to build the sample-rate resampler";

pub const STREAM_BUILD_FAILED: &'static str = "Failed to build the streaming resample adapter";

pub const OVERSAMPLER_BUILD_FAILED: &'static str = "Failed to build the oversampling engine";

pub const CABSIM_BUILD_FAILED: &'static str = "Failed to build the cab-sim convolution engine";

pub const CABSIM_IR_RESAMPLE_FAILED: &'static str =
    "Failed to resample the stored cab-sim IR to the host sample rate";

pub const CABSIM_STORAGE_LOCK_POISONED: &'static str =
    "Cab-sim IR sample storage lock unavailable during plugin activation";

pub const CLEAR_MODEL_RESAMPLER_FAILED: &'static str = "Failed to build the clear-model resampler";

pub const CLEAR_MODEL_STREAM_FAILED: &'static str =
    "Failed to build the clear-model streaming adapter";

} // verus!
