//! Messages for failures of an activation.

use vstd::prelude::*;

verus! {

pub const PARAM_RX_ALREADY_EXTRACTED: &'static str = "param_rx consumer has already been extracted";

pub const GC_TX_ALREADY_EXTRACTED: &'static str = "gc_tx producer has already been extracted";

pub const SLIMMABLE_RX_ALREADY_EXTRACTED: &'static str =
    "slimmable_rx consumer has already been extracted";

pub const BUFFER_PREALLOC_FAILED: &'static str =
    "Failed to pre-allocate DSP processing buffers during plugin activation";

pub const RESAMPLER_UNAVAILABLE_STAGED: &'static str =
    "Fresh resampler unavailable during activate (staged restore)";

pub const STREAM_UNAVAILABLE_STAGED: &'static str =
    "Fresh streaming buffer unavailable during activate (staged restore)";

pub const CABSIM_UNAVAILABLE_STAGED: &'static str =
    "Fresh CabSim adapter unavailable during activate (staged restore)";

pub const OVERSAMPLER_UNAVAILABLE_STAGED: &'static str =
    "Fresh oversamplers unavailable during activate (staged restore)";

pub const RESAMPLER_UNAVAILABLE_FRESH: &'static str =
    "Fresh resampler unavailable during activate (fresh path)";

pub const STREAM_UNAVAILABLE_FRESH: &'static str =
    "Fresh streaming buffer unavailable during activate (fresh path)";

pub const CABSIM_UNAVAILABLE_FRESH: &'static str =
    "Fresh CabSim adapter unavailable during activate (fresh path)";

pub const OVERSAMPLER_UNAVAILABLE_FRESH: &'static str =
    "Fresh oversamplers unavailable during activate (fresh path)";

} // verus!
