//! Messages for model and IR files that cannot be identified.

use vstd::prelude::*;

verus! {

pub const HASH_METADATA_FAILED: &'static str =
    "Failed to read file metadata while computing the asset SHA-256";

pub const HASH_TARGET_NOT_REGULAR_FILE: &'static str = "Asset is not a regular file";

pub const HASH_FILE_TOO_LARGE: &'static str =
    "Asset file exceeds the maximum size allowed for SHA-256 hashing";

pub const HASH_OPEN_FAILED: &'static str = "Failed to open asset file for SHA-256 hashing";

pub const HASH_READ_FAILED: &'static str = "Failed to read asset file while computing the SHA-256";

pub const HASH_STREAM_TOO_LARGE: &'static str =
    "Asset stream exceeded the maximum size allowed for SHA-256 hashing";

} // verus!
