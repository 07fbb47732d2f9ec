//! What the GUI, the host and the log are told, and how values are stored for them.

use vstd::prelude::*;
use crate::callback::gui_params;
use crate::errors::log_text;
use crate::gestures::{
    event_slot, flag_bit, gesture_bit, gui_events_written, law_every_gesture_waits,
    is_slot_bit, law_gestures_in_order, law_no_event_without_flag, only_bit_changed,
    same_elsewhere, slot_bit, slot_event, waiting, with_gestures, GuiEvent, GuiEventQueue,
    SLOT_COUNT,
};
use crate::logging::{
    line_view, log_flag, log_message, lowered, messages, LogLine, LogSeverity, LOG_FLAG_COUNT,
    LOG_GC_CORRUPTED, LOG_GC_OVERFLOW, LOG_GC_TIER3, LOG_GUI_EVENT_BACKPRESSURE, LOG_HAS_CLIPPED,
    LOG_HEAP_ALLOC, LOG_HUGEPAGE_OK, LOG_MODEL_LOAD_FAILED, LOG_SLIMMABLE_SLICE_FAILED,
    LOG_SPSC_DRAIN_TRUNCATED, LOG_STRUCTURAL_DEFERRED, LOG_STRUCTURAL_SUPERSEDED, LOG_THP_ACTIVE,
};
use crate::metadata::{describes, digit, padded, shown_date, ModelDate, ModelMetadata};
use crate::params::{
    default_params, ActivationPrecision, AdaptiveComputeMode, OversampleFactor, SlimOverride,
};
use crate::shared::{
    initial_rt_to_ui, initial_ui_to_rt, GuiSharedState, NamModelMetadata, PendingRestartOs, UiToRt,
};
use crate::status::{raised, RtStatusFlags};

verus! {

/// Whatever gesture is flagged for a parameter waits for the host: its begin and its end.
pub proof fn law_flagged_gesture_waits_for_the_host(ui: UiToRt, param_id: u32)
    requires
        param_id <= 8,
        param_id != 4,
    ensures
        flag_bit(ui.gesture_flags, (3 * param_id + 1) as u32) ==> waiting(ui).contains(
            GuiEvent::GestureBegin { param_id },
        ),
        flag_bit(ui.gesture_flags, (3 * param_id + 2) as u32) ==> waiting(ui).contains(
            GuiEvent::GestureEnd { param_id },
        ),
{
    let j: int = if param_id < 4 {
        param_id as int
    } else {
        param_id - 1
    };
    assert((3 * j) / 3 == j && (3 * j + 2) / 3 == j);
    assert((3 * j) % 3 == 0 && (3 * j + 2) % 3 == 2);
    if flag_bit(ui.gesture_flags, (3 * param_id + 1) as u32) {
        law_every_gesture_waits(ui, 3 * j);
    }
    if flag_bit(ui.gesture_flags, (3 * param_id + 2) as u32) {
        law_every_gesture_waits(ui, 3 * j + 2);
    }
}

/// A value that has changed waits for the host under the number of its parameter, as it is stored in
/// the cell of that parameter.
pub proof fn law_changed_value_waits_for_the_host(ui: UiToRt)
    ensures
        flag_bit(ui.gesture_flags, 0) ==> waiting(ui).contains(
            GuiEvent::Value { param_id: 0, value: ui.param_input_gain },
        ),
        flag_bit(ui.gesture_flags, 3) ==> waiting(ui).contains(
            GuiEvent::Value { param_id: 1, value: ui.param_output_gain },
        ),
        flag_bit(ui.gesture_flags, 6) ==> waiting(ui).contains(
            GuiEvent::Value { param_id: 2, value: ui.param_gate_thresh },
        ),
        flag_bit(ui.gesture_flags, 9) ==> waiting(ui).contains(
            GuiEvent::Value { param_id: 3, value: ui.param_bypass },
        ),
        flag_bit(ui.gesture_flags, 15) ==> waiting(ui).contains(
            GuiEvent::Value { param_id: 5, value: ui.param_adaptive_compute },
        ),
        flag_bit(ui.gesture_flags, 18) ==> waiting(ui).contains(
            GuiEvent::Value { param_id: 6, value: ui.param_slim_override },
        ),
        flag_bit(ui.gesture_flags, 21) ==> waiting(ui).contains(
            GuiEvent::Value { param_id: 7, value: ui.param_oversample },
        ),
        flag_bit(ui.gesture_flags, 24) ==> waiting(ui).contains(
            GuiEvent::Value { param_id: 8, value: ui.param_activation },
        ),
{
    if flag_bit(ui.gesture_flags, 0) {
        law_every_gesture_waits(ui, 1);
    }
    if flag_bit(ui.gesture_flags, 3) {
        law_every_gesture_waits(ui, 4);
    }
    if flag_bit(ui.gesture_flags, 6) {
        law_every_gesture_waits(ui, 7);
    }
    if flag_bit(ui.gesture_flags, 9) {
        law_every_gesture_waits(ui, 10);
    }
    if flag_bit(ui.gesture_flags, 15) {
        law_every_gesture_waits(ui, 13);
    }
    if flag_bit(ui.gesture_flags, 18) {
        law_every_gesture_waits(ui, 16);
    }
    if flag_bit(ui.gesture_flags, 21) {
        law_every_gesture_waits(ui, 19);
    }
    if flag_bit(ui.gesture_flags, 24) {
        law_every_gesture_waits(ui, 22);
    }
}

/// Nothing waits for the host but what is flagged, and no event is for the parameter that cannot be
/// changed.
pub proof fn law_waiting_event_is_flagged(ui: UiToRt, i: int)
    requires
        0 <= i < waiting(ui).len(),
    ensures
        match waiting(ui)[i] {
            GuiEvent::GestureBegin { param_id } => param_id <= 8 && param_id != 4 && flag_bit(
                ui.gesture_flags,
                (3 * param_id + 1) as u32,
            ),
            GuiEvent::Value { param_id, value } => param_id <= 8 && param_id != 4 && flag_bit(
                ui.gesture_flags,
                (3 * param_id) as u32,
            ) && {
                &&& param_id == 0 ==> value == ui.param_input_gain
                &&& param_id == 1 ==> value == ui.param_output_gain
                &&& param_id == 2 ==> value == ui.param_gate_thresh
                &&& param_id == 3 ==> value == ui.param_bypass
                &&& param_id == 5 ==> value == ui.param_adaptive_compute
                &&& param_id == 6 ==> value == ui.param_slim_override
                &&& param_id == 7 ==> value == ui.param_oversample
                &&& param_id == 8 ==> value == ui.param_activation
            },
            GuiEvent::GestureEnd { param_id } => param_id <= 8 && param_id != 4 && flag_bit(
                ui.gesture_flags,
                (3 * param_id + 2) as u32,
            ),
        },
{
    law_no_event_without_flag(ui, i);
    let k = event_slot(waiting(ui)[i]);
    assert(waiting(ui)[i] == slot_event(ui, k));
    assert(0 <= k / 3 < 8);
}

/// The host hears of one parameter after the other, and of each its begin before its value and its
/// value before its end.
pub proof fn law_host_hears_begin_value_end(ui: UiToRt, i: int, j: int)
    requires
        0 <= i < j < waiting(ui).len(),
    ensures
        match (waiting(ui)[i], waiting(ui)[j]) {
            (GuiEvent::GestureBegin { param_id: p }, GuiEvent::GestureBegin { param_id: q }) => p
                < q,
            (GuiEvent::GestureBegin { param_id: p }, GuiEvent::Value { param_id: q, .. }) => p <= q,
            (GuiEvent::GestureBegin { param_id: p }, GuiEvent::GestureEnd { param_id: q }) => p
                <= q,
            (GuiEvent::Value { param_id: p, .. }, GuiEvent::GestureBegin { param_id: q }) => p < q,
            (GuiEvent::Value { param_id: p, .. }, GuiEvent::Value { param_id: q, .. }) => p < q,
            (GuiEvent::Value { param_id: p, .. }, GuiEvent::GestureEnd { param_id: q }) => p <= q,
            (GuiEvent::GestureEnd { param_id: p }, GuiEvent::GestureBegin { param_id: q }) => p < q,
            (GuiEvent::GestureEnd { param_id: p }, GuiEvent::Value { param_id: q, .. }) => p < q,
            (GuiEvent::GestureEnd { param_id: p }, GuiEvent::GestureEnd { param_id: q }) => p < q,
        },
{
    law_gestures_in_order(ui, i, j);
    law_waiting_event_is_flagged(ui, i);
    law_waiting_event_is_flagged(ui, j);
}

/// The host gets exactly as many of the waiting events as it has room for, the first ones in their
/// order; the rest go on waiting in theirs. No value that is stored changes.
pub proof fn law_room_decides_how_many_go_out(
    queue: GuiEventQueue,
    ui: UiToRt,
    queue_after: GuiEventQueue,
    ui_after: UiToRt,
    i: int,
)
    requires
        gui_events_written(queue, ui, queue_after, ui_after),
    ensures
        ({
            let (old, new) = (queue.events@.len() as int, queue_after.events@.len() as int);
            let all = waiting(ui).len() as int;
            &&& queue_after.capacity == queue.capacity
            &&& old + all <= queue.capacity ==> new == old + all
            &&& old <= queue.capacity < old + all ==> new == queue.capacity
            &&& queue.capacity < old ==> new == old
            &&& waiting(ui_after).len() == all - (new - old)
            &&& 0 <= i < old ==> queue_after.events@[i] == queue.events@[i]
            &&& old <= i < new ==> queue_after.events@[i] == waiting(ui)[i - old]
            &&& 0 <= i < waiting(ui_after).len() ==> waiting(ui_after)[i] == waiting(ui)[new - old
                + i]
        }),
        ui_after == (UiToRt { gesture_flags: ui_after.gesture_flags, ..ui }),
{
}

/// Each gesture flag has a bit of its own: setting or clearing one changes that bit alone, and
/// nothing but the flags.
pub proof fn law_gesture_flag_has_its_own_bit(
    state: GuiSharedState,
    flags: u32,
    before: u32,
    after: u32,
    param: u32,
    shift: u32,
    set: bool,
    other: u32,
)
    requires
        param <= 8,
        shift <= 2,
        other < 32,
        only_bit_changed(before, after, gesture_bit(param as int, shift as int) as u32, set),
    ensures
        gesture_bit(param as int, shift as int) == 3 * param + shift,
        flag_bit(after, (3 * param + shift) as u32) == set,
        other != 3 * param + shift ==> flag_bit(after, other) == flag_bit(before, other),
        with_gestures(state, flags).ui_to_rt == (UiToRt { gesture_flags: flags, ..state.ui_to_rt }),
        with_gestures(state, flags).rt_to_ui == state.rt_to_ui,
        with_gestures(state, flags).cold == state.cold,
        flag_bit(flags, other) == (flags & (1u32 << other) != 0),
{
    assert(flag_bit(after, (3 * param + shift) as u32) == set);
    assert(((flags >> other) & 1u32 == 1u32) == (flags & (1u32 << other) != 0)) by (bit_vector)
        requires
            other < 32,
    ;
}

/// Each choice is stored under a number of its own, and read back from it.
pub proof fn law_choices_are_stored_by_number(
    mode: AdaptiveComputeMode,
    slim: SlimOverride,
    factor: OversampleFactor,
    precision: ActivationPrecision,
)
    ensures
        AdaptiveComputeMode::of_code(mode.code_spec()) == mode,
        SlimOverride::of_code(slim.code_spec()) == slim,
        OversampleFactor::of_code(factor.code_spec()) == factor,
        ActivationPrecision::of_code(precision.code_spec()) == precision,
        mode.code_spec() == 0 <==> mode is Off,
        mode.code_spec() == 1 <==> mode is Conservative,
        mode.code_spec() == 2 <==> mode is Aggressive,
        slim.code_spec() == 0 <==> slim is Auto,
        slim.code_spec() == 1 <==> slim is ForceFull,
        slim.code_spec() == 2 <==> slim is ForceLite,
        factor.code_spec() == 0 <==> factor is Off,
        factor.code_spec() == 1 <==> factor is X2,
        factor.code_spec() == 2 <==> factor is X4,
        precision.code_spec() == 0 <==> precision is Fast,
        precision.code_spec() == 1 <==> precision is Standard,
{
}

/// A number without a meaning reads as the choice of a new instance.
pub proof fn law_unknown_number_reads_as_new(code: u32)
    ensures
        code > 2 ==> AdaptiveComputeMode::of_code(code) == default_params().adaptive_compute,
        code > 2 ==> SlimOverride::of_code(code) == default_params().slim_override,
        code > 2 ==> OversampleFactor::of_code(code) == default_params().oversample,
        code > 1 ==> ActivationPrecision::of_code(code) == default_params().activation_precision,
{
}

/// What a new instance shows is what it starts with: unit gains, the noise gate at -90 dB, not
/// bypassed, no oversampling.
pub proof fn law_new_instance_shows_what_it_starts_with()
    ensures
        gui_params(initial_ui_to_rt()) == default_params(),
        default_params().input_gain_db == 0,
        default_params().output_gain_db == 0,
        default_params().gate_threshold_db == 0xc2b4_0000,
        !default_params().bypass,
        default_params().adaptive_compute is Conservative,
        default_params().slim_override is Auto,
        default_params().oversample is Off,
        default_params().activation_precision is Standard,
        waiting(initial_ui_to_rt()).len() == 0,
        initial_rt_to_ui().current_latency == 0,
        initial_rt_to_ui().active_channel_count == 1,
{
    assert forall|b: u32| b < 32 implies !#[trigger] flag_bit(0, b) by {
        assert((0u32 >> b) & 1u32 == 0) by (bit_vector)
            requires
                b < 32,
        ;
    }
    if waiting(initial_ui_to_rt()).len() > 0 {
        law_waiting_event_is_flagged(initial_ui_to_rt(), 0);
    }
}

/// A request for a factor is stored as its number plus one, so that none can be told from it.
pub proof fn law_request_is_stored_beside_none(factor: OversampleFactor, raw: u32)
    ensures
        PendingRestartOs::NotPending.encoded() == 0,
        PendingRestartOs::Pending(factor).encoded() == factor.code_spec() + 1,
        PendingRestartOs::decoded(raw) is NotPending <==> raw == 0 || raw > 3,
        1 <= raw <= 3 ==> PendingRestartOs::decoded(raw) == PendingRestartOs::Pending(
            OversampleFactor::of_code((raw - 1) as u32),
        ),
{
}

/// Raising or lowering a flag leaves the counters, and what was asked for, alone; lowering one keeps
/// the record that it was raised.
pub proof fn law_flags_leave_the_counters(status: RtStatusFlags, flag: u64)
    ensures
        status.with_flag(flag) == (RtStatusFlags {
            flags: status.flags | flag,
            flags_seen: status.flags_seen | flag,
            ..status
        }),
        status.without_flag(flag) == (RtStatusFlags { flags: status.flags & !flag, ..status }),
        raised(status.flags, flag) <==> status.flags & flag != 0,
{
}

proof fn lemma_messages_hold(flags: u64, n: int, i: int)
    requires
        0 <= i < n,
        raised(flags, log_flag(i)),
    ensures
        messages(flags, n).contains(log_message(i)),
    decreases n,
{
    if i == n - 1 {
        assert(messages(flags, n).last() == log_message(i));
        assert(messages(flags, n)[messages(flags, n).len() - 1] == log_message(i));
    } else {
        lemma_messages_hold(flags, n - 1, i);
        let k = choose|k: int|
            0 <= k < messages(flags, n - 1).len() && #[trigger] messages(flags, n - 1)[k]
                == log_message(i);
        assert(messages(flags, n)[k] == log_message(i));
    }
}

/// Every flag that is raised gets its own message into the log, at its own severity.
pub proof fn law_every_raised_flag_is_logged(flags: u64)
    ensures
        ({
            let lines = messages(flags, LOG_FLAG_COUNT as int);
            &&& flags & 0x1 != 0 ==> lines.contains((LogSeverity::Warning, LOG_HAS_CLIPPED@))
            &&& flags & 0x2 != 0 ==> lines.contains((LogSeverity::Error, LOG_GC_OVERFLOW@))
            &&& flags & 0x4 != 0 ==> lines.contains((LogSeverity::Warning, LOG_GC_TIER3@))
            &&& flags & 0x8 != 0 ==> lines.contains((LogSeverity::Error, LOG_GC_CORRUPTED@))
            &&& flags & 0x10 != 0 ==> lines.contains((LogSeverity::Error, LOG_MODEL_LOAD_FAILED@))
            &&& flags & 0x20 != 0 ==> lines.contains((LogSeverity::Error, LOG_HEAP_ALLOC@))
            &&& flags & 0x40 != 0 ==> lines.contains((LogSeverity::Info, LOG_HUGEPAGE_OK@))
            &&& flags & 0x80 != 0 ==> lines.contains((LogSeverity::Info, LOG_THP_ACTIVE@))
            &&& flags & 0x100 != 0 ==> lines.contains(
                (LogSeverity::Error, LOG_SLIMMABLE_SLICE_FAILED@),
            )
            &&& flags & 0x200 != 0 ==> lines.contains(
                (LogSeverity::Warning, LOG_SPSC_DRAIN_TRUNCATED@),
            )
            &&& flags & 0x400 != 0 ==> lines.contains(
                (LogSeverity::Warning, LOG_GUI_EVENT_BACKPRESSURE@),
            )
            &&& flags & 0x800 != 0 ==> lines.contains(
                (LogSeverity::Info, LOG_STRUCTURAL_DEFERRED@),
            )
            &&& flags & 0x1000 != 0 ==> lines.contains(
                (LogSeverity::Info, LOG_STRUCTURAL_SUPERSEDED@),
            )
        }),
{
    assert forall|i: int| 0 <= i < LOG_FLAG_COUNT && raised(flags, #[trigger] log_flag(i)) implies messages(
        flags,
        LOG_FLAG_COUNT as int,
    ).contains(log_message(i)) by {
        lemma_messages_hold(flags, LOG_FLAG_COUNT as int, i);
    }
    assert(log_flag(0) == 0x1 && log_flag(1) == 0x2 && log_flag(2) == 0x4 && log_flag(3) == 0x8);
    assert(log_flag(4) == 0x10 && log_flag(5) == 0x20 && log_flag(6) == 0x40 && log_flag(7) == 0x80);
    assert(log_flag(8) == 0x100 && log_flag(9) == 0x200 && log_flag(10) == 0x400 && log_flag(11)
        == 0x800 && log_flag(12) == 0x1000);
}

/// Nothing is logged but what is raised, and each flag at most once.
pub proof fn law_only_raised_flags_are_logged(flags: u64, n: int, k: int)
    requires
        0 <= n <= LOG_FLAG_COUNT,
    ensures
        messages(flags, n).len() <= n,
        flags & 0x1fff == 0 ==> messages(flags, n).len() == 0,
        0 <= k < messages(flags, n).len() ==> exists|i: int|
            0 <= i < n && raised(flags, #[trigger] log_flag(i)) && messages(flags, n)[k]
                == log_message(i),
    decreases n,
{
    if n > 0 {
        law_only_raised_flags_are_logged(flags, n - 1, k);
        let f = log_flag(n - 1);
        assert(f & 0x1fff == f) by {
            assert(0x1u64 & 0x1fff == 0x1 && 0x2u64 & 0x1fff == 0x2 && 0x4u64 & 0x1fff == 0x4
                && 0x8u64 & 0x1fff == 0x8 && 0x10u64 & 0x1fff == 0x10 && 0x20u64 & 0x1fff == 0x20
                && 0x40u64 & 0x1fff == 0x40 && 0x80u64 & 0x1fff == 0x80 && 0x100u64 & 0x1fff
                == 0x100 && 0x200u64 & 0x1fff == 0x200 && 0x400u64 & 0x1fff == 0x400 && 0x800u64
                & 0x1fff == 0x800 && 0x1000u64 & 0x1fff == 0x1000) by (bit_vector);
        }
        assert(flags & 0x1fff == 0 && f & 0x1fff == f ==> flags & f == 0) by (bit_vector);
        if 0 <= k < messages(flags, n).len() && k == messages(flags, n - 1).len() {
            assert(raised(flags, log_flag(n - 1)) && messages(flags, n)[k] == log_message(n - 1));
        }
    }
}

/// What was logged is lowered, and only that: no message comes twice, and no other flag is lost.
pub proof fn law_logged_flags_are_lowered(status: RtStatusFlags)
    ensures
        lowered(status, LOG_FLAG_COUNT as int).flags == status.flags & !0x1fffu64,
        lowered(status, LOG_FLAG_COUNT as int) == (RtStatusFlags {
            flags: status.flags & !0x1fffu64,
            ..status
        }),
        messages(lowered(status, LOG_FLAG_COUNT as int).flags, LOG_FLAG_COUNT as int).len() == 0,
{
    reveal_with_fuel(lowered, 14);
    let f = status.flags;
    assert(f & !0x1u64 & !0x2u64 & !0x4u64 & !0x8u64 & !0x10u64 & !0x20u64 & !0x40u64 & !0x80u64
        & !0x100u64 & !0x200u64 & !0x400u64 & !0x800u64 & !0x1000u64 == f & !0x1fffu64)
        by (bit_vector);
    assert((f & !0x1fffu64) & 0x1fff == 0) by (bit_vector);
    law_only_raised_flags_are_logged(f & !0x1fffu64, LOG_FLAG_COUNT as int, 0);
}

/// A line of the log says what it says at the severity that it has.
pub proof fn law_line_is_its_severity_and_text(line: LogLine)
    ensures
        line_view(line).0 == line.severity,
        line_view(line).1 == line.text@,
{
}

/// The number that decimal figures stand for.
pub open spec fn decimal(figures: Seq<char>) -> int
    decreases figures.len(),
{
    if figures.len() == 0 {
        0
    } else {
        decimal(figures.drop_last()) * 10 + (figures.last() as int - '0' as int)
    }
}

/// A number is written in decimal: the figures stand for it, and there are at least as many as asked
/// for.
pub proof fn law_figures_stand_for_the_number(n: nat, width: nat)
    ensures
        decimal(padded(n, width)) == n,
        padded(n, width).len() >= width,
        padded(n, width).len() >= 1,
        n < 10000 ==> padded(n, 4).len() == 4,
        n < 100 ==> padded(n, 2).len() == 2,
        n < 10 ==> digit(n as int) as int == '0' as int + n,
    decreases n, width,
{
    reveal_with_fuel(padded, 5);
    if n < 10 && width <= 1 {
        assert(padded(n, width).drop_last() =~= Seq::<char>::empty());
        assert(decimal(padded(n, width).drop_last()) == 0);
    } else {
        let shorter: nat = if width > 0 {
            (width - 1) as nat
        } else {
            0
        };
        law_figures_stand_for_the_number(n / 10, shorter);
        assert(padded(n, width).drop_last() =~= padded(n / 10, shorter));
        assert(digit((n % 10) as int) as int == '0' as int + n % 10);
    }
}

/// A date is shown as far as it is known from the year on: year, month and day, in this order, with
/// a dash between them, and nothing without a year.
pub proof fn law_date_is_shown_as_far_as_known(date: ModelDate)
    ensures
        shown_date(date) is Some <==> date.year is Some && (date.month is Some || date.day is None),
        date.year is Some && date.month is None && date.day is None && date.year->Some_0 < 10000
            ==> {
            let text = shown_date(date)->Some_0;
            text.len() == 4 && decimal(text) == date.year->Some_0
        },
        date.year is Some && date.month is Some && date.day is None && date.year->Some_0 < 10000
            && date.month->Some_0 < 100 ==> {
            let text = shown_date(date)->Some_0;
            &&& text.len() == 7
            &&& text[4] == '-'
            &&& decimal(text.subrange(0, 4)) == date.year->Some_0
            &&& decimal(text.subrange(5, 7)) == date.month->Some_0
        },
        date.year is Some && date.month is Some && date.day is Some && date.year->Some_0 < 10000
            && date.month->Some_0 < 100 && date.day->Some_0 < 100 ==> {
            let text = shown_date(date)->Some_0;
            &&& text.len() == 10
            &&& text[4] == '-'
            &&& text[7] == '-'
            &&& decimal(text.subrange(0, 4)) == date.year->Some_0
            &&& decimal(text.subrange(5, 7)) == date.month->Some_0
            &&& decimal(text.subrange(8, 10)) == date.day->Some_0
        },
{
    if let Some(y) = date.year {
        law_figures_stand_for_the_number(y as nat, 4);
        if let Some(m) = date.month {
            law_figures_stand_for_the_number(m as nat, 2);
            let text = shown_date(date)->Some_0;
            if y < 10000 && m < 100 {
                assert(text.subrange(0, 4) =~= padded(y as nat, 4));
                assert(text.subrange(5, 7) =~= padded(m as nat, 2));
                if let Some(d) = date.day {
                    law_figures_stand_for_the_number(d as nat, 2);
                    if d < 100 {
                        assert(text.subrange(8, 10) =~= padded(d as nat, 2));
                    }
                }
            }
        }
    }
}

/// The GUI shows of a model what its file says, each entry under its own name; without metadata it
/// shows the architecture, the topology and the rate alone.
pub proof fn law_model_is_shown_as_described(
    shown: NamModelMetadata,
    architecture: Seq<char>,
    topology: Seq<char>,
    sample_rate: u32,
    metadata: Option<ModelMetadata>,
)
    requires
        describes(shown, architecture, topology, sample_rate, metadata),
    ensures
        shown.architecture@ == architecture,
        shown.topology@ == topology,
        shown.sample_rate == sample_rate,
        metadata is Some ==> {
            let m = metadata->Some_0;
            &&& shown.modeled_by == m.modeled_by
            &&& shown.gear_make == m.gear_make
            &&& shown.gear_model == m.gear_model
            &&& shown.gear_type == m.gear_type
            &&& shown.tone_type == m.tone_type
            &&& m.date is None ==> shown.date is None
            &&& m.date is Some && shown_date(m.date->Some_0) is None ==> shown.date is None
            &&& m.date is Some && shown_date(m.date->Some_0) is Some ==> shown.date is Some
                && shown.date->Some_0@ == shown_date(m.date->Some_0)->Some_0
        },
        metadata is None ==> {
            &&& shown.modeled_by is None
            &&& shown.gear_make is None
            &&& shown.gear_model is None
            &&& shown.gear_type is None
            &&& shown.tone_type is None
            &&& shown.date is None
        },
{
}

/// The log names the error first and then tells the detail, both in full.
pub proof fn law_log_names_the_error_and_the_detail(code: Seq<char>, detail: Seq<char>)
    ensures
        ({
            let text = log_text(code, detail);
            &&& text.len() == 10 + code.len() + 3 + detail.len()
            &&& text.subrange(10, 10int + code.len()) == code
            &&& text.subrange(text.len() - detail.len(), text.len() as int) == detail
        }),
{
    reveal_strlit("NAM-Plug [");
    reveal_strlit("]: ");
    let text = log_text(code, detail);
    assert(text.subrange(10, 10int + code.len()) =~= code);
    assert(text.subrange(text.len() - detail.len(), text.len() as int) =~= detail);
}

/// Delivering events never touches a flag of the parameter that cannot be changed, nor a bit that
/// belongs to no parameter.
pub proof fn law_other_bits_stay(before: u32, after: u32, b: u32)
    requires
        same_elsewhere(before, after),
        12 <= b <= 14 || 27 <= b < 32,
    ensures
        flag_bit(after, b) == flag_bit(before, b),
{
    assert(!is_slot_bit(b)) by {
        assert forall|k: int| 0 <= k < SLOT_COUNT implies #[trigger] slot_bit(k) != b by {
            assert(0 <= k / 3 < 8 && 0 <= k % 3 < 3);
        }
    }
}

} // verus!
