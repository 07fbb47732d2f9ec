//! Status flags and counters that the audio thread leaves for the main thread.

use vstd::prelude::*;

verus! {

pub const RT_STATUS_HAS_CLIPPED: u64 = 0x1;

pub const RT_STATUS_GC_OVERFLOW: u64 = 0x2;

pub const RT_STATUS_GC_TIER3: u64 = 0x4;

pub const RT_STATUS_GC_CORRUPTED: u64 = 0x8;

pub const RT_STATUS_MODEL_LOAD_FAILED: u64 = 0x10;

pub const RT_STATUS_HEAP_ALLOC: u64 = 0x20;

pub const RT_STATUS_HUGEPAGE_OK: u64 = 0x40;

pub const RT_STATUS_THP_ACTIVE: u64 = 0x80;

pub const RT_STATUS_SLIMMABLE_SLICE_FAILED: u64 = 0x100;

pub const RT_STATUS_SPSC_DRAIN_TRUNCATED: u64 = 0x200;

pub const RT_STATUS_GUI_EVENT_BACKPRESSURE: u64 = 0x400;

pub const RT_STATUS_STRUCTURAL_DEFERRED: u64 = 0x800;

pub const RT_STATUS_STRUCTURAL_SUPERSEDED: u64 = 0x1000;

pub const RT_STATUS_HOST_CONTRACT_VIOLATION: u64 = 0x2000;

pub const RT_STATUS_NON_FINITE_INPUT_DETECTED: u64 = 0x4000;

pub const RT_STATUS_NEEDS_SLIMMABLE_REBUILD: u64 = 0x8000;

pub const RT_STATUS_NEEDS_OS_REBUILD: u64 = 0x1_0000;

pub const RT_STATUS_SLIMMABLE_RESET_FAILED: u64 = 0x2_0000;

pub const RT_STATUS_RT_IS_FIFO: u64 = 0x4_0000;

/// Flags and counters of one plug-in instance.
#[derive(Clone, Copy, Debug, PartialEq, Eq, Structural)]
pub struct RtStatusFlags {
    /// Flags that are raised now.
    pub flags: u64,
    /// Flags that have ever been raised.
    pub flags_seen: u64,
    /// Structural commands that had to wait for a later callback.
    pub structural_deferred_total: u32,
    /// Deferred structural commands that a newer one replaced.
    pub structural_superseded_total: u32,
    /// Resources disposed of on the main thread.
    pub drains: u32,
    /// Channel count that a slimmable rebuild is asked for.
    pub requested_slimmable_ch: u32,
    /// Oversampling factor (as its code) that a rebuild is asked for.
    pub requested_os_factor: u32,
    /// Length of the last block.
    pub last_n_samples: u32,
}

/// Whether any bit of `flag` is raised in `flags`.
pub open spec fn raised(flags: u64, flag: u64) -> bool {
    flags & flag != 0
}

impl RtStatusFlags {
    /// Status with `flag` raised.
    pub open spec fn with_flag(self, flag: u64) -> RtStatusFlags {
        RtStatusFlags {
            flags: self.flags | flag,
            flags_seen: self.flags_seen | flag,
            ..self
        }
    }

    /// Status with `flag` lowered.
    pub open spec fn without_flag(self, flag: u64) -> RtStatusFlags {
        RtStatusFlags { flags: self.flags & !flag, ..self }
    }

    pub fn new() -> (status: Self)
        ensures
            status == (RtStatusFlags {
                flags: 0,
                flags_seen: 0,
                structural_deferred_total: 0,
                structural_superseded_total: 0,
                drains: 0,
                requested_slimmable_ch: 0,
                requested_os_factor: 0,
                last_n_samples: 0,
            }),
    {
        RtStatusFlags {
            flags: 0,
            flags_seen: 0,
            structural_deferred_total: 0,
            structural_superseded_total: 0,
            drains: 0,
            requested_slimmable_ch: 0,
            requested_os_factor: 0,
            last_n_samples: 0,
        }
    }

    /// Raises a flag.
    pub fn set_flag(&mut self, flag: u64)
        ensures
            *final(self) == old(self).with_flag(flag),
    {
        self.flags = self.flags | flag;
        self.flags_seen = self.flags_seen | flag;
    }

    /// Lowers a flag.
    pub fn clear_flag(&mut self, flag: u64)
        ensures
            *final(self) == old(self).without_flag(flag),
    {
        self.flags = self.flags & !flag;
    }

    /// Whether a flag is raised.
    pub fn check_flag(&self, flag: u64) -> (yes: bool)
        ensures
            yes == raised(self.flags, flag),
    {
        self.flags & flag != 0
    }

    /// Lowers a flag and tells whether it was raised.
    pub fn check_and_clear_flag(&mut self, flag: u64) -> (was: bool)
        ensures
            was == raised(old(self).flags, flag),
            *final(self) == old(self).without_flag(flag),
    {
        let was: bool = self.check_flag(flag);
        self.clear_flag(flag);
        was
    }
}

/// A flag is raised right after it was set and lowered right after it was cleared; the record
/// of flags ever raised keeps it.
pub proof fn law_flag_set_and_clear(status: RtStatusFlags, flag: u64)
    requires
        flag != 0,
    ensures
        raised(status.with_flag(flag).flags, flag),
        !raised(status.without_flag(flag).flags, flag),
        raised(status.with_flag(flag).without_flag(flag).flags_seen, flag),
{
    let flags = status.flags;
    let seen = status.flags_seen;
    assert((flags | flag) & flag == flag) by (bit_vector);
    assert((flags & !flag) & flag == 0) by (bit_vector);
    assert((seen | flag) & flag == flag) by (bit_vector);
}

/// Setting or clearing one flag leaves the flags that share no bit with it as they were.
pub proof fn law_flags_are_independent(status: RtStatusFlags, flag: u64, other: u64)
    requires
        flag & other == 0,
    ensures
        raised(status.with_flag(flag).flags, other) == raised(status.flags, other),
        raised(status.without_flag(flag).flags, other) == raised(status.flags, other),
{
    let flags = status.flags;
    assert((flags | flag) & other == flags & other) by (bit_vector)
        requires
            flag & other == 0,
    ;
    assert((flags & !flag) & other == flags & other) by (bit_vector)
        requires
            flag & other == 0,
    ;
}

} // verus!
