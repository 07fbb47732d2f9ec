//! Messages for saved state that cannot be restored.

use vstd::prelude::*;

verus! {

pub const EMPTY_BUFFER: &'static str = "Empty state buffer";

pub const MODEL_NOT_FOUND_OR_INVALID: &'static str = "Saved model not found or invalid";

pub const MODEL_BASENAME_INVALID: &'static str = "Invalid model basename";

pub const MODEL_HASH_MISSING: &'static str =
    "Model has no saved hash (re-load it explicitly via the GUI to migrate)";

pub const MODEL_HASH_MALFORMED: &'static str = "Saved model hash is malformed";

pub const MODEL_NOT_FOUND_PORTABLE: &'static str =
    "Preset/state model not found (searched canonical dirs)";

pub const IR_NOT_FOUND: &'static str = "Saved IR not found";

pub const IR_HASH_MISSING: &'static str =
    "Saved IR has no SHA-256 hash (re-load it explicitly via the GUI to migrate)";

pub const IR_HASH_MALFORMED: &'static str = "Saved IR hash is malformed";

pub const IR_HASH_MISMATCH: &'static str = "Saved IR file hash mismatch";

pub const IR_HASH_FAILED: &'static str = "Failed to hash saved IR file";

} // verus!
