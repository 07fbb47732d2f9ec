//! Messages for what the audio thread has flagged.

use vstd::prelude::*;
use crate::shared::ColdShared;
use crate::status::{
    raised, RtStatusFlags, RT_STATUS_GC_CORRUPTED, RT_STATUS_GC_OVERFLOW, RT_STATUS_GC_TIER3,
    RT_STATUS_GUI_EVENT_BACKPRESSURE, RT_STATUS_HAS_CLIPPED, RT_STATUS_HEAP_ALLOC,
    RT_STATUS_HUGEPAGE_OK, RT_STATUS_MODEL_LOAD_FAILED, RT_STATUS_SLIMMABLE_SLICE_FAILED,
    RT_STATUS_SPSC_DRAIN_TRUNCATED, RT_STATUS_STRUCTURAL_DEFERRED, RT_STATUS_STRUCTURAL_SUPERSEDED,
    RT_STATUS_THP_ACTIVE,
};

verus! {

#[derive(Clone, Copy, Debug, PartialEq, Eq, Structural)]
pub enum LogSeverity {
    Info,
    Warning,
    Error,
}

/// A message for the log of the host.
#[derive(Debug)]
pub struct LogLine {
    pub severity: LogSeverity,
    pub text: &'static str,
}

/// Number of flags that have a message.
pub const LOG_FLAG_COUNT: u32 = 13;

pub const LOG_HAS_CLIPPED: &'static str = "NAM-Plug: Output clipping detected!";

pub const LOG_GC_OVERFLOW: &'static str = "NAM-Plug: GC channel overflow! Possible memory leak.";

pub const LOG_GC_TIER3: &'static str = "NAM-Plug: GC cascade reached Tier 3 (overflow buffer). Sustained GC pressure.";

pub const LOG_GC_CORRUPTED: &'static str = "NAM-Plug: GC overflow buffer corrupted! Forced leak to avoid UB.";

pub const LOG_MODEL_LOAD_FAILED: &'static str = "NAM-Plug: Critical failure! No active model for processing.";

pub const LOG_HEAP_ALLOC: &'static str = "NAM-Plug: Heap allocation detected in audio thread during process()!";

pub const LOG_HUGEPAGE_OK: &'static str = "NAM-Plug: HugeTLB explicit 2 MB pages active — reduced TLB pressure on DSP thread.";

pub const LOG_THP_ACTIVE: &'static str = "NAM-Plug: Transparent Huge Pages (THP) advice active — kernel may promote to 2 MB.";

pub const LOG_SLIMMABLE_SLICE_FAILED: &'static str = "NAM-Plug: WaveNet slimmable slice_channels rebuild failed.";

pub const LOG_SPSC_DRAIN_TRUNCATED: &'static str = "SPSC command queue drain limit reached (64 events) - pending events deferred";

pub const LOG_GUI_EVENT_BACKPRESSURE: &'static str = "NAM-Plug: GUI event queue backpressure - host output full; gesture events retained for retry";

pub const LOG_STRUCTURAL_DEFERRED: &'static str = "NAM-Plug: Structural command deferred to the next callback (command budget 1/callback) - FIFO order preserved";

pub const LOG_STRUCTURAL_SUPERSEDED: &'static str = "NAM-Plug: Deferred structural command superseded by a newer same-kind command; obsolete resources discarded off-RT (coalescing)";

/// The flags in the order in which their messages are emitted.
pub open spec fn log_flag(i: int) -> u64 {
    if i == 0 {
        RT_STATUS_HAS_CLIPPED
    } else if i == 1 {
        RT_STATUS_GC_OVERFLOW
    } else if i == 2 {
        RT_STATUS_GC_TIER3
    } else if i == 3 {
        RT_STATUS_GC_CORRUPTED
    } else if i == 4 {
        RT_STATUS_MODEL_LOAD_FAILED
    } else if i == 5 {
        RT_STATUS_HEAP_ALLOC
    } else if i == 6 {
        RT_STATUS_HUGEPAGE_OK
    } else if i == 7 {
        RT_STATUS_THP_ACTIVE
    } else if i == 8 {
        RT_STATUS_SLIMMABLE_SLICE_FAILED
    } else if i == 9 {
        RT_STATUS_SPSC_DRAIN_TRUNCATED
    } else if i == 10 {
        RT_STATUS_GUI_EVENT_BACKPRESSURE
    } else if i == 11 {
        RT_STATUS_STRUCTURAL_DEFERRED
    } else {
        RT_STATUS_STRUCTURAL_SUPERSEDED
    }
}

/// Severity and text of the message of a flag.
pub open spec fn log_message(i: int) -> (LogSeverity, Seq<char>) {
    if i == 0 {
        (LogSeverity::Warning, LOG_HAS_CLIPPED@)
    } else if i == 1 {
        (LogSeverity::Error, LOG_GC_OVERFLOW@)
    } else if i == 2 {
        (LogSeverity::Warning, LOG_GC_TIER3@)
    } else if i == 3 {
        (LogSeverity::Error, LOG_GC_CORRUPTED@)
    } else if i == 4 {
        (LogSeverity::Error, LOG_MODEL_LOAD_FAILED@)
    } else if i == 5 {
        (LogSeverity::Error, LOG_HEAP_ALLOC@)
    } else if i == 6 {
        (LogSeverity::Info, LOG_HUGEPAGE_OK@)
    } else if i == 7 {
        (LogSeverity::Info, LOG_THP_ACTIVE@)
    } else if i == 8 {
        (LogSeverity::Error, LOG_SLIMMABLE_SLICE_FAILED@)
    } else if i == 9 {
        (LogSeverity::Warning, LOG_SPSC_DRAIN_TRUNCATED@)
    } else if i == 10 {
        (LogSeverity::Warning, LOG_GUI_EVENT_BACKPRESSURE@)
    } else if i == 11 {
        (LogSeverity::Info, LOG_STRUCTURAL_DEFERRED@)
    } else {
        (LogSeverity::Info, LOG_STRUCTURAL_SUPERSEDED@)
    }
}

/// Severity and text of a line.
pub open spec fn line_view(line: LogLine) -> (LogSeverity, Seq<char>) {
    (line.severity, line.text@)
}

/// The messages for the first `n` flags, as far as they are raised in `flags`.
pub open spec fn messages(flags: u64, n: int) -> Seq<(LogSeverity, Seq<char>)>
    decreases n,
{
    if n <= 0 {
        Seq::empty()
    } else if raised(flags, log_flag(n - 1)) {
        messages(flags, n - 1).push(log_message(n - 1))
    } else {
        messages(flags, n - 1)
    }
}

/// `status` with the first `n` flags lowered.
pub open spec fn lowered(status: RtStatusFlags, n: int) -> RtStatusFlags
    decreases n,
{
    if n <= 0 {
        status
    } else {
        lowered(status, n - 1).without_flag(log_flag(n - 1))
    }
}

/// The flags have bits of their own, so that lowering one does not hide another.
proof fn lemma_lowered(status: RtStatusFlags, n: int, i: int)
    requires
        0 <= n <= i < LOG_FLAG_COUNT,
    ensures
        raised(lowered(status, n).flags, log_flag(i)) == raised(status.flags, log_flag(i)),
    decreases n,
{
    if n > 0 {
        lemma_lowered(status, n - 1, i);
        let before = lowered(status, n - 1);
        lemma_distinct(n - 1, i);
        crate::status::law_flags_are_independent(before, log_flag(n - 1), log_flag(i));
    }
}

proof fn lemma_distinct(a: int, b: int)
    requires
        0 <= a < b < LOG_FLAG_COUNT,
    ensures
        log_flag(a) & log_flag(b) == 0,
{
    let x = a as u64;
    let y = b as u64;
    assert((1u64 << x) & (1u64 << y) == 0) by (bit_vector)
        requires
            x < y,
            y < 64,
    ;
    lemma_flag_is_bit(a);
    lemma_flag_is_bit(b);
}

proof fn lemma_flag_is_bit(i: int)
    requires
        0 <= i < LOG_FLAG_COUNT,
    ensures
        log_flag(i) == 1u64 << (i as u64),
{
    assert(1u64 << 0u64 == 0x1 && 1u64 << 1u64 == 0x2 && 1u64 << 2u64 == 0x4 && 1u64 << 3u64 == 0x8
        && 1u64 << 4u64 == 0x10 && 1u64 << 5u64 == 0x20 && 1u64 << 6u64 == 0x40 && 1u64 << 7u64
        == 0x80 && 1u64 << 8u64 == 0x100 && 1u64 << 9u64 == 0x200 && 1u64 << 10u64 == 0x400 && 1u64
        << 11u64 == 0x800 && 1u64 << 12u64 == 0x1000) by (bit_vector);
}

fn flag_and_line(i: u32) -> (entry: (u64, LogLine))
    requires
        i < LOG_FLAG_COUNT,
    ensures
        entry.0 == log_flag(i as int),
        line_view(entry.1) == log_message(i as int),
{
    match i {
        0 => (
            RT_STATUS_HAS_CLIPPED,
            LogLine { severity: LogSeverity::Warning, text: LOG_HAS_CLIPPED },
        ),
        1 => (
            RT_STATUS_GC_OVERFLOW,
            LogLine { severity: LogSeverity::Error, text: LOG_GC_OVERFLOW },
        ),
        2 => (
            RT_STATUS_GC_TIER3,
            LogLine { severity: LogSeverity::Warning, text: LOG_GC_TIER3 },
        ),
        3 => (
            RT_STATUS_GC_CORRUPTED,
            LogLine { severity: LogSeverity::Error, text: LOG_GC_CORRUPTED },
        ),
        4 => (
            RT_STATUS_MODEL_LOAD_FAILED,
            LogLine { severity: LogSeverity::Error, text: LOG_MODEL_LOAD_FAILED },
        ),
        5 => (
            RT_STATUS_HEAP_ALLOC,
            LogLine { severity: LogSeverity::Error, text: LOG_HEAP_ALLOC },
        ),
        6 => (
            RT_STATUS_HUGEPAGE_OK,
            LogLine { severity: LogSeverity::Info, text: LOG_HUGEPAGE_OK },
        ),
        7 => (
            RT_STATUS_THP_ACTIVE,
            LogLine { severity: LogSeverity::Info, text: LOG_THP_ACTIVE },
        ),
        8 => (
            RT_STATUS_SLIMMABLE_SLICE_FAILED,
            LogLine { severity: LogSeverity::Error, text: LOG_SLIMMABLE_SLICE_FAILED },
        ),
        9 => (
            RT_STATUS_SPSC_DRAIN_TRUNCATED,
            LogLine { severity: LogSeverity::Warning, text: LOG_SPSC_DRAIN_TRUNCATED },
        ),
        10 => (
            RT_STATUS_GUI_EVENT_BACKPRESSURE,
            LogLine { severity: LogSeverity::Warning, text: LOG_GUI_EVENT_BACKPRESSURE },
        ),
        11 => (
            RT_STATUS_STRUCTURAL_DEFERRED,
            LogLine { severity: LogSeverity::Info, text: LOG_STRUCTURAL_DEFERRED },
        ),
        _ => (
            RT_STATUS_STRUCTURAL_SUPERSEDED,
            LogLine { severity: LogSeverity::Info, text: LOG_STRUCTURAL_SUPERSEDED },
        ),
    }
}

/// Emits a message for every flag that is raised, in a fixed order, and lowers those flags.
pub fn emit_pending_logs(cold: &mut ColdShared) -> (lines: Vec<LogLine>)
    ensures
        lines@.map_values(|line: LogLine| line_view(line)) == messages(
            old(cold).rt_status.flags,
            LOG_FLAG_COUNT as int,
        ),
        *final(cold) == (ColdShared {
            rt_status: lowered(old(cold).rt_status, LOG_FLAG_COUNT as int),
            ..*old(cold)
        }),
{
    let mut lines: Vec<LogLine> = Vec::new();
    let mut i: u32 = 0;
    let ghost view = |line: LogLine| line_view(line);
    assert(lines@.map_values(view) =~= messages(old(cold).rt_status.flags, 0));
    while i < LOG_FLAG_COUNT
        invariant
            i <= LOG_FLAG_COUNT,
            view == (|line: LogLine| line_view(line)),
            lines@.map_values(view) == messages(old(cold).rt_status.flags, i as int),
            *cold == (ColdShared {
                rt_status: lowered(old(cold).rt_status, i as int),
                ..*old(cold)
            }),
        decreases LOG_FLAG_COUNT - i,
    {
        let (flag, line) = flag_and_line(i);
        proof {
            lemma_lowered(old(cold).rt_status, i as int, i as int);
        }
        let ghost before = lines@;
        if cold.rt_status.check_and_clear_flag(flag) {
            lines.push(line);
            assert(lines@.map_values(view) =~= before.map_values(view).push(view(line)));
        }
        i = i + 1;
    }
    lines
}

} // verus!
