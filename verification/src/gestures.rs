//! Gestures of the GUI and their way into the host's event queue.
//!
//! A gesture bit is consumed only when its event has been taken by the host. For every
//! parameter the order is begin, value, end; the first event that finds no room stops the
//! delivery, so that nothing overtakes it.

use vstd::prelude::*;
use crate::params::{
    PARAM_ACTIVATION, PARAM_ADAPTIVE_COMPUTE, PARAM_BYPASS, PARAM_GATE_THRESH, PARAM_INPUT_GAIN,
    PARAM_OUTPUT_GAIN, PARAM_OVERSAMPLE, PARAM_SLIM_OVERRIDE,
};
use crate::shared::{ColdShared, GuiSharedState, UiToRt};
use crate::status::RT_STATUS_GUI_EVENT_BACKPRESSURE;

verus! {

/// Bit of a parameter that says that its value has changed.
pub const GESTURE_CHANGED_SHIFT: u32 = 0;

/// Bit of a parameter that says that a gesture has begun.
pub const GESTURE_BEGIN_SHIFT: u32 = 1;

/// Bit of a parameter that says that a gesture has ended.
pub const GESTURE_END_SHIFT: u32 = 2;

/// Bits for each parameter.
pub const GESTURE_BITS_PER_PARAM: u32 = 3;

/// An event for the host.
#[derive(Clone, Copy, Debug, PartialEq, Eq, Structural)]
pub enum GuiEvent {
    GestureBegin { param_id: u32 },
    /// `value` is the bit pattern that the GUI has stored.
    Value { param_id: u32, value: u32 },
    GestureEnd { param_id: u32 },
}

/// The host's event queue as far as one call can see it: it takes `capacity` events.
#[derive(Debug)]
pub struct GuiEventQueue {
    pub events: Vec<GuiEvent>,
    pub capacity: usize,
}

impl GuiEventQueue {
    pub fn new(capacity: usize) -> (queue: Self)
        ensures
            queue.events@ == Seq::<GuiEvent>::empty(),
            queue.capacity == capacity,
    {
        GuiEventQueue { events: Vec::new(), capacity }
    }

    /// Appends an event if there is room; returns whether there was.
    pub fn try_push(&mut self, event: GuiEvent) -> (taken: bool)
        ensures
            taken == (old(self).events@.len() < old(self).capacity),
            final(self).capacity == old(self).capacity,
            final(self).events@ == (if taken {
                old(self).events@.push(event)
            } else {
                old(self).events@
            }),
    {
        if self.events.len() < self.capacity {
            self.events.push(event);
            true
        } else {
            false
        }
    }
}

/// Whether bit `bit` of `flags` is set.
pub open spec fn flag_bit(flags: u32, bit: u32) -> bool {
    (flags >> bit) & 1u32 == 1u32
}

/// The bit of a gesture flag.
pub open spec fn gesture_bit(param_index: int, flag_shift: int) -> int {
    param_index * 3 + flag_shift
}

/// Position of the `k`-th event in the order of delivery: the parameters by identifier,
/// without the read-only one, and for each begin, value, end.
pub open spec fn slot_param(k: int) -> u32 {
    if k / 3 < 4 {
        (k / 3) as u32
    } else {
        (k / 3 + 1) as u32
    }
}

pub open spec fn slot_shift(k: int) -> u32 {
    if k % 3 == 0 {
        GESTURE_BEGIN_SHIFT
    } else if k % 3 == 1 {
        GESTURE_CHANGED_SHIFT
    } else {
        GESTURE_END_SHIFT
    }
}

pub open spec fn slot_bit(k: int) -> u32 {
    gesture_bit(slot_param(k) as int, slot_shift(k) as int) as u32
}

/// The value that the GUI has stored for a parameter.
pub open spec fn stored_value(ui: UiToRt, param_id: u32) -> u32 {
    match param_id {
        0 => ui.param_input_gain,
        1 => ui.param_output_gain,
        2 => ui.param_gate_thresh,
        3 => ui.param_bypass,
        5 => ui.param_adaptive_compute,
        6 => ui.param_slim_override,
        7 => ui.param_oversample,
        _ => ui.param_activation,
    }
}

/// The event of the `k`-th position.
pub open spec fn slot_event(ui: UiToRt, k: int) -> GuiEvent {
    let param_id = slot_param(k);
    if k % 3 == 0 {
        GuiEvent::GestureBegin { param_id }
    } else if k % 3 == 1 {
        GuiEvent::Value { param_id, value: stored_value(ui, param_id) }
    } else {
        GuiEvent::GestureEnd { param_id }
    }
}

/// Number of positions: eight parameters with three events each.
pub const SLOT_COUNT: u32 = 24;

/// The events that wait to be delivered, from position `k` on.
pub open spec fn waiting_from(ui: UiToRt, k: int) -> Seq<GuiEvent>
    decreases SLOT_COUNT - k,
{
    if k >= SLOT_COUNT {
        Seq::empty()
    } else if flag_bit(ui.gesture_flags, slot_bit(k)) {
        seq![slot_event(ui, k)] + waiting_from(ui, k + 1)
    } else {
        waiting_from(ui, k + 1)
    }
}

/// The events that wait to be delivered.
pub open spec fn waiting(ui: UiToRt) -> Seq<GuiEvent> {
    waiting_from(ui, 0)
}

/// `state` with other gesture flags.
pub open spec fn with_gestures(state: GuiSharedState, flags: u32) -> GuiSharedState {
    GuiSharedState { ui_to_rt: UiToRt { gesture_flags: flags, ..state.ui_to_rt }, ..state }
}

/// `flags` with one bit changed.
pub open spec fn only_bit_changed(before: u32, after: u32, bit: u32, set: bool) -> bool {
    forall|b: u32|
        b < 32 ==> (#[trigger] flag_bit(after, b) <==> (if b == bit {
            set
        } else {
            flag_bit(before, b)
        }))
}

proof fn lemma_set_bit(flags: u32, bit: u32)
    requires
        bit < 32,
    ensures
        only_bit_changed(flags, flags | (1u32 << bit), bit, true),
{
    assert forall|b: u32| b < 32 implies (#[trigger] flag_bit(flags | (1u32 << bit), b) <==> (if b
        == bit {
        true
    } else {
        flag_bit(flags, b)
    })) by {
        assert(((flags | (1u32 << bit)) >> b) & 1u32 == 1u32 <==> (b == bit || (flags >> b) & 1u32
            == 1u32)) by (bit_vector)
            requires
                bit < 32,
                b < 32,
        ;
    }
}

proof fn lemma_clear_bit(flags: u32, bit: u32)
    requires
        bit < 32,
    ensures
        only_bit_changed(flags, flags & !(1u32 << bit), bit, false),
        (flags & (1u32 << bit) != 0) == flag_bit(flags, bit),
{
    assert forall|b: u32| b < 32 implies (#[trigger] flag_bit(flags & !(1u32 << bit), b) <==> (if b
        == bit {
        false
    } else {
        flag_bit(flags, b)
    })) by {
        assert(((flags & !(1u32 << bit)) >> b) & 1u32 == 1u32 <==> (b != bit && (flags >> b) & 1u32
            == 1u32)) by (bit_vector)
            requires
                bit < 32,
                b < 32,
        ;
    }
    assert((flags & (1u32 << bit) != 0) == ((flags >> bit) & 1u32 == 1u32)) by (bit_vector)
        requires
            bit < 32,
    ;
}

impl GuiSharedState {
    /// Index of a parameter in the gesture flags.
    pub fn param_index(param_id: u32) -> (index: usize)
        ensures
            index == param_id,
    {
        param_id as usize
    }

    /// Sets a gesture flag.
    pub fn set_gesture(&mut self, param_index: usize, flag_shift: u32)
        requires
            gesture_bit(param_index as int, flag_shift as int) < 32,
        ensures
            *final(self) == with_gestures(*old(self), final(self).ui_to_rt.gesture_flags),
            only_bit_changed(
                old(self).ui_to_rt.gesture_flags,
                final(self).ui_to_rt.gesture_flags,
                gesture_bit(param_index as int, flag_shift as int) as u32,
                true,
            ),
    {
        let bit: u32 = param_index as u32 * GESTURE_BITS_PER_PARAM + flag_shift;
        proof {
            lemma_set_bit(self.ui_to_rt.gesture_flags, bit);
        }
        self.ui_to_rt.gesture_flags = self.ui_to_rt.gesture_flags | (1u32 << bit);
    }

    /// Clears a gesture flag and tells whether it was set.
    pub fn take_gesture(&mut self, param_index: usize, flag_shift: u32) -> (was: bool)
        requires
            gesture_bit(param_index as int, flag_shift as int) < 32,
        ensures
            was == flag_bit(
                old(self).ui_to_rt.gesture_flags,
                gesture_bit(param_index as int, flag_shift as int) as u32,
            ),
            *final(self) == with_gestures(*old(self), final(self).ui_to_rt.gesture_flags),
            only_bit_changed(
                old(self).ui_to_rt.gesture_flags,
                final(self).ui_to_rt.gesture_flags,
                gesture_bit(param_index as int, flag_shift as int) as u32,
                false,
            ),
    {
        let bit: u32 = param_index as u32 * GESTURE_BITS_PER_PARAM + flag_shift;
        let before: u32 = self.ui_to_rt.gesture_flags;
        proof {
            lemma_clear_bit(before, bit);
        }
        self.ui_to_rt.gesture_flags = before & !(1u32 << bit);
        before & (1u32 << bit) != 0
    }

    /// Records the beginning of a gesture.
    pub fn begin_gesture(&mut self, param_id: u32)
        requires
            gesture_bit(param_id as int, GESTURE_BEGIN_SHIFT as int) < 32,
        ensures
            *final(self) == with_gestures(*old(self), final(self).ui_to_rt.gesture_flags),
            only_bit_changed(
                old(self).ui_to_rt.gesture_flags,
                final(self).ui_to_rt.gesture_flags,
                gesture_bit(param_id as int, GESTURE_BEGIN_SHIFT as int) as u32,
                true,
            ),
    {
        self.set_gesture(Self::param_index(param_id), GESTURE_BEGIN_SHIFT);
    }

    /// Records the end of a gesture.
    pub fn end_gesture(&mut self, param_id: u32)
        requires
            gesture_bit(param_id as int, GESTURE_END_SHIFT as int) < 32,
        ensures
            *final(self) == with_gestures(*old(self), final(self).ui_to_rt.gesture_flags),
            only_bit_changed(
                old(self).ui_to_rt.gesture_flags,
                final(self).ui_to_rt.gesture_flags,
                gesture_bit(param_id as int, GESTURE_END_SHIFT as int) as u32,
                true,
            ),
    {
        self.set_gesture(Self::param_index(param_id), GESTURE_END_SHIFT);
    }

    /// Records a change of a parameter.
    pub fn mark_param_changed(&mut self, param_id: u32)
        requires
            gesture_bit(param_id as int, GESTURE_CHANGED_SHIFT as int) < 32,
        ensures
            *final(self) == with_gestures(*old(self), final(self).ui_to_rt.gesture_flags),
            only_bit_changed(
                old(self).ui_to_rt.gesture_flags,
                final(self).ui_to_rt.gesture_flags,
                gesture_bit(param_id as int, GESTURE_CHANGED_SHIFT as int) as u32,
                true,
            ),
    {
        self.set_gesture(Self::param_index(param_id), GESTURE_CHANGED_SHIFT);
    }

    /// Forgets every gesture.
    pub fn clear_gestures(&mut self)
        ensures
            *final(self) == with_gestures(*old(self), 0),
    {
        self.ui_to_rt.gesture_flags = 0;
    }
}

/// Positions whose bit is clear add nothing.
proof fn lemma_waiting_skip(ui: UiToRt, k: int, m: int)
    requires
        0 <= k <= m <= SLOT_COUNT,
        forall|j: int| k <= j < m ==> !flag_bit(ui.gesture_flags, #[trigger] slot_bit(j)),
    ensures
        waiting_from(ui, k) == waiting_from(ui, m),
    decreases m - k,
{
    if k < m {
        assert(!flag_bit(ui.gesture_flags, slot_bit(k)));
        lemma_waiting_skip(ui, k + 1, m);
    }
}

/// What waits from `k` on depends on the stored values and the bits from `k` on alone.
proof fn lemma_waiting_frame(ui: UiToRt, other: UiToRt, k: int)
    requires
        0 <= k <= SLOT_COUNT,
        other == (UiToRt { gesture_flags: other.gesture_flags, ..ui }),
        forall|j: int|
            k <= j < SLOT_COUNT ==> flag_bit(ui.gesture_flags, #[trigger] slot_bit(j)) == flag_bit(
                other.gesture_flags,
                slot_bit(j),
            ),
    ensures
        waiting_from(ui, k) == waiting_from(other, k),
    decreases SLOT_COUNT - k,
{
    if k < SLOT_COUNT {
        assert(flag_bit(ui.gesture_flags, slot_bit(k)) == flag_bit(
            other.gesture_flags,
            slot_bit(k),
        ));
        lemma_waiting_frame(ui, other, k + 1);
        assert(slot_event(ui, k) == slot_event(other, k));
    }
}

/// Positions have bits of their own.
proof fn lemma_slot_bits_differ(j: int, k: int)
    requires
        0 <= j < SLOT_COUNT,
        0 <= k < SLOT_COUNT,
        j != k,
    ensures
        slot_bit(j) < 32,
        slot_bit(j) != slot_bit(k),
{
}

impl GuiSharedState {
    /// The parameter and the flag of a position in the order of delivery.
    fn slot(k: u32) -> (slot: (u32, u32))
        requires
            k < SLOT_COUNT,
        ensures
            slot.0 == slot_param(k as int),
            slot.1 == slot_shift(k as int),
            gesture_bit(slot.0 as int, slot.1 as int) == slot_bit(k as int),
            slot_bit(k as int) < 27,
    {
        let param_id: u32 = match k / 3 {
            0 => PARAM_INPUT_GAIN,
            1 => PARAM_OUTPUT_GAIN,
            2 => PARAM_GATE_THRESH,
            3 => PARAM_BYPASS,
            4 => PARAM_ADAPTIVE_COMPUTE,
            5 => PARAM_SLIM_OVERRIDE,
            6 => PARAM_OVERSAMPLE,
            _ => PARAM_ACTIVATION,
        };
        let shift: u32 = match k % 3 {
            0 => GESTURE_BEGIN_SHIFT,
            1 => GESTURE_CHANGED_SHIFT,
            _ => GESTURE_END_SHIFT,
        };
        (param_id, shift)
    }

    /// The first position whose bit is set.
    fn next_slot(&self) -> (slot: Option<u32>)
        ensures
            match slot {
                Some(k) => {
                    &&& k < SLOT_COUNT
                    &&& flag_bit(self.ui_to_rt.gesture_flags, slot_bit(k as int))
                    &&& waiting(self.ui_to_rt) == waiting_from(self.ui_to_rt, k as int)
                    &&& forall|j: int|
                        0 <= j < k ==> !flag_bit(
                            self.ui_to_rt.gesture_flags,
                            #[trigger] slot_bit(j),
                        )
                },
                None => waiting(self.ui_to_rt).len() == 0,
            },
    {
        let mut k: u32 = 0;
        while k < SLOT_COUNT
            invariant
                k <= SLOT_COUNT,
                forall|j: int|
                    0 <= j < k ==> !flag_bit(
                        self.ui_to_rt.gesture_flags,
                        #[trigger] slot_bit(j),
                    ),
            decreases SLOT_COUNT - k,
        {
            let (param_id, shift) = Self::slot(k);
            let bit: u32 = param_id * GESTURE_BITS_PER_PARAM + shift;
            if (self.ui_to_rt.gesture_flags >> bit) & 1 == 1 {
                proof {
                    lemma_waiting_skip(self.ui_to_rt, 0, k as int);
                }
                return Some(k);
            }
            k = k + 1;
        }
        proof {
            lemma_waiting_skip(self.ui_to_rt, 0, SLOT_COUNT as int);
        }
        None
    }

    /// The value that the GUI has stored for a parameter.
    fn value_of(&self, param_id: u32) -> (value: u32)
        ensures
            value == stored_value(self.ui_to_rt, param_id),
    {
        match param_id {
            0 => self.ui_to_rt.param_input_gain,
            1 => self.ui_to_rt.param_output_gain,
            2 => self.ui_to_rt.param_gate_thresh,
            3 => self.ui_to_rt.param_bypass,
            5 => self.ui_to_rt.param_adaptive_compute,
            6 => self.ui_to_rt.param_slim_override,
            7 => self.ui_to_rt.param_oversample,
            _ => self.ui_to_rt.param_activation,
        }
    }

    /// The event that is to be delivered next. A value is read at this moment, so that the
    /// latest one wins.
    pub fn next_gui_event(&self) -> (event: Option<GuiEvent>)
        ensures
            match event {
                Some(event) => waiting(self.ui_to_rt).len() > 0 && event == waiting(
                    self.ui_to_rt,
                )[0],
                None => waiting(self.ui_to_rt).len() == 0,
            },
    {
        match self.next_slot() {
            None => None,
            Some(k) => {
                let (param_id, _) = Self::slot(k);
                let event = match k % 3 {
                    0 => GuiEvent::GestureBegin { param_id },
                    1 => GuiEvent::Value { param_id, value: self.value_of(param_id) },
                    _ => GuiEvent::GestureEnd { param_id },
                };
                Some(event)
            },
        }
    }

    /// Consumes the bit of the event that was delivered.
    pub fn gui_event_sent(&mut self)
        ensures
            *final(self) == with_gestures(*old(self), final(self).ui_to_rt.gesture_flags),
            waiting(old(self).ui_to_rt).len() == 0 ==> *final(self) == *old(self),
            waiting(old(self).ui_to_rt).len() > 0 ==> waiting(final(self).ui_to_rt) == waiting(
                old(self).ui_to_rt,
            ).skip(1),
            same_elsewhere(old(self).ui_to_rt.gesture_flags, final(self).ui_to_rt.gesture_flags),
    {
        if let Some(k) = self.next_slot() {
            let ghost before = self.ui_to_rt;
            let (param_id, shift) = Self::slot(k);
            let _ = self.take_gesture(param_id as usize, shift);
            proof {
                let after = self.ui_to_rt;
                let ki = k as int;
                lemma_slot_bits_differ(ki, if ki == 0 { 1 } else { 0 });
                assert forall|j: int| ki + 1 <= j < SLOT_COUNT implies flag_bit(
                    before.gesture_flags,
                    #[trigger] slot_bit(j),
                ) == flag_bit(after.gesture_flags, slot_bit(j)) by {
                    lemma_slot_bits_differ(j, ki);
                }
                lemma_waiting_frame(before, after, ki + 1);
                assert forall|j: int| 0 <= j < ki + 1 implies !flag_bit(
                    after.gesture_flags,
                    #[trigger] slot_bit(j),
                ) by {
                    if j < ki {
                        lemma_slot_bits_differ(j, ki);
                    }
                }
                lemma_waiting_skip(after, 0, ki + 1);
                assert(waiting(before).skip(1) =~= waiting_from(before, ki + 1));
                assert forall|b: u32| b < 32 && !is_slot_bit(b) implies #[trigger] flag_bit(
                    after.gesture_flags,
                    b,
                ) == flag_bit(before.gesture_flags, b) by {
                    assert(is_slot_bit(slot_bit(ki)));
                }
            }
        }
    }
}

/// Whether a bit belongs to a position.
pub open spec fn is_slot_bit(b: u32) -> bool {
    exists|k: int| 0 <= k < SLOT_COUNT && #[trigger] slot_bit(k) == b
}

/// The bits that belong to no position are the same.
pub open spec fn same_elsewhere(before: u32, after: u32) -> bool {
    forall|b: u32|
        b < 32 && !is_slot_bit(b) ==> #[trigger] flag_bit(after, b) == flag_bit(before, b)
}

impl GuiSharedState {
    /// Records that the host had no room for an event.
    fn note_gui_backpressure(&mut self)
        ensures
            *final(self) == (GuiSharedState {
                cold: ColdShared {
                    rt_status: old(self).cold.rt_status.with_flag(RT_STATUS_GUI_EVENT_BACKPRESSURE),
                    ..old(self).cold
                },
                ..*old(self)
            }),
    {
        self.cold.rt_status.set_flag(RT_STATUS_GUI_EVENT_BACKPRESSURE);
    }

    /// Delivers the waiting events to the host, in order, as far as there is room. What finds
    /// no room goes on waiting, and the shortage is flagged.
    pub fn write_gui_events(&mut self, output: &mut GuiEventQueue)
        ensures
            gui_events_written(
                *old(output),
                old(self).ui_to_rt,
                *final(output),
                final(self).ui_to_rt,
            ),
            final(self).rt_to_ui == old(self).rt_to_ui,
            final(self).cold == (if waiting(final(self).ui_to_rt).len() == 0 {
                old(self).cold
            } else {
                ColdShared {
                    rt_status: old(self).cold.rt_status.with_flag(RT_STATUS_GUI_EVENT_BACKPRESSURE),
                    ..old(self).cold
                }
            }),
    {
        loop
            invariant
                output.capacity == old(output).capacity,
                output.events@.len() >= old(output).events@.len(),
                output.events@.len() == old(output).events@.len() || output.events@.len()
                    <= output.capacity,
                output.events@ + waiting(self.ui_to_rt) == old(output).events@ + waiting(
                    old(self).ui_to_rt,
                ),
                same_elsewhere(old(self).ui_to_rt.gesture_flags, self.ui_to_rt.gesture_flags),
                *self == with_gestures(*old(self), self.ui_to_rt.gesture_flags),
            decreases waiting(self.ui_to_rt).len(),
        {
            match self.next_gui_event() {
                None => {
                    proof {
                        lemma_room_is_used_up(*old(output), old(self).ui_to_rt, *output, self.ui_to_rt);
                    }
                    return;
                },
                Some(event) => {
                    if !output.try_push(event) {
                        proof {
                            lemma_room_is_used_up(
                                *old(output),
                                old(self).ui_to_rt,
                                *output,
                                self.ui_to_rt,
                            );
                        }
                        self.note_gui_backpressure();
                        return;
                    }
                    let ghost sent = output.events@;
                    let ghost before = waiting(self.ui_to_rt);
                    self.gui_event_sent();
                    assert(sent + before.skip(1) =~= sent.drop_last() + before);
                },
            }
        }
    }
}

/// How many waiting events the queue has room for.
pub open spec fn deliverable(queue: GuiEventQueue, ui: UiToRt) -> int {
    let room = if queue.events@.len() < queue.capacity {
        queue.capacity - queue.events@.len()
    } else {
        0
    };
    if room < waiting(ui).len() {
        room
    } else {
        waiting(ui).len() as int
    }
}

/// As many of the waiting events as there is room for are in the queue, the first ones first;
/// the others, and nothing else, go on waiting. No parameter value has changed, and no other flag.
pub open spec fn gui_events_written(
    queue: GuiEventQueue,
    ui: UiToRt,
    queue_after: GuiEventQueue,
    ui_after: UiToRt,
) -> bool {
    let k = deliverable(queue, ui);
    &&& queue_after.capacity == queue.capacity
    &&& queue_after.events@ == queue.events@ + waiting(ui).subrange(0, k)
    &&& waiting(ui_after) == waiting(ui).subrange(k, waiting(ui).len() as int)
    &&& ui_after == (UiToRt { gesture_flags: ui_after.gesture_flags, ..ui })
    &&& same_elsewhere(ui.gesture_flags, ui_after.gesture_flags)
}

proof fn lemma_room_is_used_up(
    queue: GuiEventQueue,
    ui: UiToRt,
    queue_after: GuiEventQueue,
    ui_after: UiToRt,
)
    requires
        queue_after.capacity == queue.capacity,
        queue_after.events@.len() >= queue.events@.len(),
        queue_after.events@.len() == queue.events@.len() || queue_after.events@.len()
            <= queue.capacity,
        queue_after.events@ + waiting(ui_after) == queue.events@ + waiting(ui),
        waiting(ui_after).len() > 0 ==> queue_after.events@.len() >= queue.capacity,
    ensures
        queue_after.events@ == queue.events@ + waiting(ui).subrange(0, deliverable(queue, ui)),
        waiting(ui_after) == waiting(ui).subrange(
            deliverable(queue, ui),
            waiting(ui).len() as int,
        ),
{
    let (events, waits) = (queue_after.events@, waiting(ui_after));
    let (before, n) = (queue.events@, waiting(ui).len() as int);
    let k = deliverable(queue, ui);
    let all = before + waiting(ui);
    assert((events + waits).len() == before.len() + n);
    assert(events.len() == before.len() + k);
    assert(events =~= (events + waits).subrange(0, events.len() as int));
    assert(waits =~= (events + waits).subrange(events.len() as int, all.len() as int));
    assert(all.subrange(0, before.len() + k) =~= before + waiting(ui).subrange(0, k));
    assert(all.subrange(before.len() + k, all.len() as int) =~= waiting(ui).subrange(k, n));
}

/// The position of an event in the order of delivery.
pub open spec fn event_slot(event: GuiEvent) -> int {
    let (param_id, phase): (u32, int) = match event {
        GuiEvent::GestureBegin { param_id } => (param_id, 0),
        GuiEvent::Value { param_id, .. } => (param_id, 1),
        GuiEvent::GestureEnd { param_id } => (param_id, 2),
    };
    (if param_id < 4 {
        param_id as int
    } else {
        param_id - 1
    }) * 3 + phase
}

proof fn lemma_waiting_slots(ui: UiToRt, k: int, i: int)
    requires
        0 <= k <= SLOT_COUNT,
        0 <= i < waiting_from(ui, k).len(),
    ensures
        k <= event_slot(waiting_from(ui, k)[i]) < SLOT_COUNT,
        flag_bit(ui.gesture_flags, slot_bit(event_slot(waiting_from(ui, k)[i]))),
        waiting_from(ui, k)[i] == slot_event(ui, event_slot(waiting_from(ui, k)[i])),
    decreases SLOT_COUNT - k,
{
    assert(event_slot(slot_event(ui, k)) == k);
    if flag_bit(ui.gesture_flags, slot_bit(k)) {
        if i > 0 {
            lemma_waiting_slots(ui, k + 1, i - 1);
            assert(waiting_from(ui, k)[i] == waiting_from(ui, k + 1)[i - 1]);
        }
    } else {
        lemma_waiting_slots(ui, k + 1, i);
    }
}

proof fn lemma_waiting_ordered(ui: UiToRt, k: int, i: int, j: int)
    requires
        0 <= k <= SLOT_COUNT,
        0 <= i < j < waiting_from(ui, k).len(),
    ensures
        event_slot(waiting_from(ui, k)[i]) < event_slot(waiting_from(ui, k)[j]),
    decreases SLOT_COUNT - k,
{
    if flag_bit(ui.gesture_flags, slot_bit(k)) {
        assert(waiting_from(ui, k)[j] == waiting_from(ui, k + 1)[j - 1]);
        if i == 0 {
            assert(event_slot(slot_event(ui, k)) == k);
            lemma_waiting_slots(ui, k + 1, j - 1);
        } else {
            assert(waiting_from(ui, k)[i] == waiting_from(ui, k + 1)[i - 1]);
            lemma_waiting_ordered(ui, k + 1, i - 1, j - 1);
        }
    } else {
        lemma_waiting_ordered(ui, k + 1, i, j);
    }
}

proof fn lemma_waiting_complete(ui: UiToRt, from: int, k: int) -> (i: int)
    requires
        0 <= from <= k < SLOT_COUNT,
        flag_bit(ui.gesture_flags, slot_bit(k)),
    ensures
        0 <= i < waiting_from(ui, from).len(),
        waiting_from(ui, from)[i] == slot_event(ui, k),
    decreases k - from,
{
    if from == k {
        0
    } else {
        let i = lemma_waiting_complete(ui, from + 1, k);
        if flag_bit(ui.gesture_flags, slot_bit(from)) {
            assert(waiting_from(ui, from)[i + 1] == waiting_from(ui, from + 1)[i]);
            i + 1
        } else {
            i
        }
    }
}

/// Of two waiting events the one with the earlier position is delivered first: for each
/// parameter a begin comes before its value and its end, and a value before its end.
pub proof fn law_gestures_in_order(ui: UiToRt, i: int, j: int)
    requires
        0 <= i < j < waiting(ui).len(),
    ensures
        event_slot(waiting(ui)[i]) < event_slot(waiting(ui)[j]),
{
    lemma_waiting_ordered(ui, 0, i, j);
}

/// Every flag of a writable parameter is waiting to be delivered, with the value stored now.
pub proof fn law_every_gesture_waits(ui: UiToRt, k: int)
    requires
        0 <= k < SLOT_COUNT,
        flag_bit(ui.gesture_flags, slot_bit(k)),
    ensures
        waiting(ui).contains(slot_event(ui, k)),
{
    let i = lemma_waiting_complete(ui, 0, k);
}

/// Only what is flagged is delivered.
pub proof fn law_no_event_without_flag(ui: UiToRt, i: int)
    requires
        0 <= i < waiting(ui).len(),
    ensures
        0 <= event_slot(waiting(ui)[i]) < SLOT_COUNT,
        flag_bit(ui.gesture_flags, slot_bit(event_slot(waiting(ui)[i]))),
        waiting(ui)[i] == slot_event(ui, event_slot(waiting(ui)[i])),
{
    lemma_waiting_slots(ui, 0, i);
}

} // verus!
