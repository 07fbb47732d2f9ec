//! Sample-accurate parameter changes: which of the host's events are taken, where they cut a
//! block, and what each of them does.

use vstd::prelude::*;
use crate::params::{
    PARAM_ACTIVATION, PARAM_ADAPTIVE_COMPUTE, PARAM_BYPASS, PARAM_GATE_THRESH, PARAM_INPUT_GAIN,
    PARAM_OUTPUT_GAIN, PARAM_OVERSAMPLE, PARAM_SLIM_OVERRIDE, RtProcessingParams,
};
use crate::processor::{
    cells_of, with_cells, EventValue, NamClapProcessor, RtEffect, RtState, ScheduledEvent,
};
use crate::shared::{ColdShared, GuiSharedState, UiToRt};
use crate::status::RT_STATUS_SPSC_DRAIN_TRUNCATED;

verus! {

/// Events of the host that are scheduled within one block at most.
pub const MAX_SCHEDULED_EVENTS: usize = 4096;

/// An event as the host delivers it.
#[derive(Clone, Copy, Debug, PartialEq, Eq, Structural)]
pub enum HostEvent {
    /// A new value of a parameter; `None` where the host names no parameter.
    ParamValue { time: u32, param_id: Option<u32>, value: EventValue },
    /// A modulation of a parameter; `None` where the host names no parameter.
    ParamMod { time: u32, param_id: Option<u32>, value: EventValue },
    /// Anything else.
    Other { time: u32 },
}

impl HostEvent {
    /// The event as it is scheduled, if it is.
    pub open spec fn scheduled_spec(self) -> Option<ScheduledEvent> {
        match self {
            HostEvent::ParamValue { time, param_id: Some(param_id), value } => Some(
                ScheduledEvent { time: time as usize, param_id, value, is_mod: false },
            ),
            HostEvent::ParamMod { time, param_id: Some(param_id), value } => Some(
                ScheduledEvent { time: time as usize, param_id, value, is_mod: true },
            ),
            _ => None,
        }
    }

    fn scheduled(&self) -> (event: Option<ScheduledEvent>)
        ensures
            event == self.scheduled_spec(),
    {
        match *self {
            HostEvent::ParamValue { time, param_id: Some(param_id), value } => Some(
                ScheduledEvent { time: time as usize, param_id, value, is_mod: false },
            ),
            HostEvent::ParamMod { time, param_id: Some(param_id), value } => Some(
                ScheduledEvent { time: time as usize, param_id, value, is_mod: true },
            ),
            _ => None,
        }
    }
}

/// The events scheduled from the first `k` events of the host, without regard to the limit.
pub open spec fn scheduled_from(input: Seq<HostEvent>, k: int) -> Seq<ScheduledEvent>
    decreases k,
{
    if k <= 0 {
        Seq::empty()
    } else {
        match input[k - 1].scheduled_spec() {
            Some(event) => scheduled_from(input, k - 1).push(event),
            None => scheduled_from(input, k - 1),
        }
    }
}

impl<T: Copy> NamClapProcessor<T> {
    /// Schedules the parameter events of a block, in the order of the host. Where the limit
    /// is reached and another event follows, the rest is left out and the flood is flagged.
    /// Returns how many events of the host were looked at.
    pub fn schedule_events(&mut self, shared: &mut GuiSharedState, input: &[HostEvent]) -> (taken:
        usize)
        ensures
            taken <= input@.len(),
            final(self).scheduled_events@ == scheduled_from(input@, taken as int),
            final(self).scheduled_events@.len() <= MAX_SCHEDULED_EVENTS,
            taken < input@.len() ==> final(self).scheduled_events@.len() == MAX_SCHEDULED_EVENTS,
            forall|k: int|
                0 <= k < taken ==> (#[trigger] scheduled_from(input@, k)).len()
                    < MAX_SCHEDULED_EVENTS,
            *final(self) == (NamClapProcessor {
                scheduled_events: final(self).scheduled_events,
                ..*old(self)
            }),
            *final(shared) == (GuiSharedState {
                cold: ColdShared {
                    rt_status: if taken < input@.len() {
                        old(shared).cold.rt_status.with_flag(RT_STATUS_SPSC_DRAIN_TRUNCATED)
                    } else {
                        old(shared).cold.rt_status
                    },
                    ..old(shared).cold
                },
                ..*old(shared)
            }),
    {
        self.scheduled_events.clear();
        let mut k: usize = 0;
        while k < input.len()
            invariant
                k <= input@.len(),
                self.scheduled_events@ == scheduled_from(input@, k as int),
                self.scheduled_events@.len() <= MAX_SCHEDULED_EVENTS,
                forall|j: int|
                    0 <= j < k ==> (#[trigger] scheduled_from(input@, j)).len()
                        < MAX_SCHEDULED_EVENTS,
                *self == (NamClapProcessor {
                    scheduled_events: self.scheduled_events,
                    ..*old(self)
                }),
                *shared == *old(shared),
            decreases input@.len() - k,
        {
            if self.scheduled_events.len() >= MAX_SCHEDULED_EVENTS {
                shared.cold.rt_status.set_flag(RT_STATUS_SPSC_DRAIN_TRUNCATED);
                return k;
            }
            if let Some(event) = input[k].scheduled() {
                self.scheduled_events.push(event);
            }
            k = k + 1;
        }
        k
    }
}

/// One step through a block: the samples from `start` to `end` are rendered, then the events
/// from `first_event` to `end_event` come into force.
#[derive(Clone, Copy, Debug, PartialEq, Eq, Structural)]
pub struct SubBlock {
    pub start: usize,
    pub end: usize,
    pub first_event: usize,
    pub end_event: usize,
}

/// The first event from `idx` on that is not already past at `offset`.
pub open spec fn skip_past(events: Seq<ScheduledEvent>, idx: int, offset: int) -> int
    decreases events.len() - idx,
{
    if 0 <= idx < events.len() && events[idx].time < offset {
        skip_past(events, idx + 1, offset)
    } else {
        idx
    }
}

/// The first event from `idx` on that is not due at `time`.
pub open spec fn skip_due(events: Seq<ScheduledEvent>, idx: int, time: int) -> int
    decreases events.len() - idx,
{
    if 0 <= idx < events.len() && events[idx].time == time {
        skip_due(events, idx + 1, time)
    } else {
        idx
    }
}

/// The step that begins at sample `offset` of a block of `n`, with the events from `idx` on
/// still to come.
pub open spec fn sub_block_at(events: Seq<ScheduledEvent>, idx: int, offset: int, n: int) -> SubBlock {
    let first = skip_past(events, idx, offset);
    let end = if first < events.len() && events[first].time < n {
        events[first].time as int
    } else {
        n
    };
    SubBlock {
        start: offset as usize,
        end: end as usize,
        first_event: first as usize,
        end_event: skip_due(events, first, end) as usize,
    }
}

proof fn lemma_skips(events: Seq<ScheduledEvent>, idx: int, at: int)
    requires
        0 <= idx <= events.len(),
    ensures
        idx <= skip_past(events, idx, at) <= events.len(),
        skip_past(events, idx, at) < events.len() ==> events[skip_past(events, idx, at)].time >= at,
        idx <= skip_due(events, idx, at) <= events.len(),
        idx < events.len() && events[idx].time == at ==> skip_due(events, idx, at) > idx,
        forall|i: int|
            idx <= i < skip_due(events, idx, at) ==> #[trigger] events[i].time == at,
        forall|i: int|
            idx <= i < skip_past(events, idx, at) ==> #[trigger] events[i].time < at,
    decreases events.len() - idx,
{
    if idx < events.len() {
        lemma_skips(events, idx + 1, at);
    }
}

/// Finds the step that begins at sample `block_offset`.
pub fn next_sub_block(
    events: &Vec<ScheduledEvent>,
    event_idx: usize,
    block_offset: usize,
    n_samples: usize,
) -> (step: SubBlock)
    requires
        event_idx <= events@.len(),
        block_offset < n_samples,
    ensures
        step == sub_block_at(events@, event_idx as int, block_offset as int, n_samples as int),
        block_offset <= step.end <= n_samples,
        event_idx <= step.first_event <= step.end_event <= events@.len(),
        step.end == block_offset ==> step.end_event > event_idx,
{
    proof {
        lemma_skips(events@, event_idx as int, block_offset as int);
    }
    let mut idx: usize = event_idx;
    while idx < events.len() && events[idx].time < block_offset
        invariant
            event_idx <= idx <= events@.len(),
            skip_past(events@, event_idx as int, block_offset as int) == skip_past(
                events@,
                idx as int,
                block_offset as int,
            ),
        decreases events@.len() - idx,
    {
        idx = idx + 1;
    }
    let first_event: usize = idx;
    let end: usize = if idx < events.len() && events[idx].time < n_samples {
        events[idx].time
    } else {
        n_samples
    };
    proof {
        lemma_skips(events@, first_event as int, end as int);
    }
    while idx < events.len() && events[idx].time == end
        invariant
            first_event <= idx <= events@.len(),
            skip_due(events@, first_event as int, end as int) == skip_due(
                events@,
                idx as int,
                end as int,
            ),
        decreases events@.len() - idx,
    {
        idx = idx + 1;
    }
    SubBlock { start: block_offset, end, first_event, end_event: idx }
}

/// All steps through a block, from sample `offset` on.
pub open spec fn plan_from(events: Seq<ScheduledEvent>, idx: int, offset: int, n: int) -> Seq<SubBlock>
    decreases n - offset, events.len() - idx,
    when 0 <= idx <= events.len() && 0 <= offset && n <= usize::MAX && events.len() <= usize::MAX
    via plan_decreases
{
    if offset >= n {
        Seq::empty()
    } else {
        let step = sub_block_at(events, idx, offset, n);
        seq![step] + plan_from(events, step.end_event as int, step.end as int, n)
    }
}

#[via_fn]
proof fn plan_decreases(events: Seq<ScheduledEvent>, idx: int, offset: int, n: int) {
    if offset < n {
        lemma_skips(events, idx, offset);
        let first = skip_past(events, idx, offset);
        let end = if first < events.len() && events[first].time < n {
            events[first].time as int
        } else {
            n
        };
        lemma_skips(events, first, end);
    }
}

/// Cuts a block of `n_samples` into steps. Events from `event_idx` on are considered.
pub fn plan_block(
    events: &Vec<ScheduledEvent>,
    event_idx: usize,
    n_samples: usize,
    plan: &mut Vec<SubBlock>,
) -> (next_event: usize)
    requires
        event_idx <= events@.len(),
    ensures
        final(plan)@ == plan_from(events@, event_idx as int, 0, n_samples as int),
        next_event == (if final(plan)@.len() == 0 {
            event_idx
        } else {
            final(plan)@.last().end_event
        }),
        next_event <= events@.len(),
{
    plan.clear();
    let total: usize = events.len();
    let mut offset: usize = 0;
    let mut idx: usize = event_idx;
    while offset < n_samples
        invariant
            offset <= n_samples,
            idx <= events@.len(),
            events@.len() == total,
            event_idx <= events@.len(),
            plan@ + plan_from(events@, idx as int, offset as int, n_samples as int) == plan_from(
                events@,
                event_idx as int,
                0,
                n_samples as int,
            ),
            idx == (if plan@.len() == 0 {
                event_idx
            } else {
                plan@.last().end_event
            }),
        decreases n_samples - offset, events@.len() - idx,
    {
        let step = next_sub_block(events, idx, offset, n_samples);
        let ghost before = plan@;
        plan.push(step);
        proof {
            assert(plan@ + plan_from(
                events@,
                step.end_event as int,
                step.end as int,
                n_samples as int,
            ) =~= before + plan_from(events@, idx as int, offset as int, n_samples as int));
        }
        offset = step.end;
        idx = step.end_event;
    }
    idx
}

proof fn lemma_step(events: Seq<ScheduledEvent>, idx: int, offset: int, n: int)
    requires
        0 <= idx <= events.len() <= usize::MAX,
        0 <= offset < n <= usize::MAX,
    ensures
        ({
            let step = sub_block_at(events, idx, offset, n);
            &&& step.start == offset
            &&& offset <= step.end <= n
            &&& idx <= step.first_event <= step.end_event <= events.len()
            &&& step.end == offset ==> step.end_event > idx
            &&& forall|e: int|
                step.first_event <= e < step.end_event ==> #[trigger] events[e].time == step.end
            &&& forall|e: int|
                idx <= e < step.first_event ==> #[trigger] events[e].time < offset
        }),
{
    lemma_skips(events, idx, offset);
    let first = skip_past(events, idx, offset);
    let end = if first < events.len() && events[first].time < n {
        events[first].time as int
    } else {
        n
    };
    lemma_skips(events, first, end);
}

/// The steps of a block follow one another without gap or overlap from its first sample to
/// its last: every sample is rendered exactly once.
pub proof fn law_steps_cover_block(events: Seq<ScheduledEvent>, idx: int, offset: int, n: int)
    requires
        0 <= idx <= events.len() <= usize::MAX,
        0 <= offset < n <= usize::MAX,
    ensures
        ({
            let plan = plan_from(events, idx, offset, n);
            &&& plan.len() > 0
            &&& plan[0].start == offset
            &&& plan.last().end == n
            &&& forall|i: int| 0 <= i < plan.len() ==> (#[trigger] plan[i]).start <= plan[i].end
            &&& forall|i: int|
                0 <= i < plan.len() - 1 ==> (#[trigger] plan[i]).end == plan[i + 1].start
        }),
    decreases n - offset, events.len() - idx,
{
    let step = sub_block_at(events, idx, offset, n);
    lemma_step(events, idx, offset, n);
    let plan = plan_from(events, idx, offset, n);
    let rest = plan_from(events, step.end_event as int, step.end as int, n);
    if step.end < n {
        law_steps_cover_block(events, step.end_event as int, step.end as int, n);
        assert(plan.last() == rest.last());
        assert forall|i: int| 0 <= i < plan.len() implies (#[trigger] plan[i]).start <= plan[i].end by {
            if i > 0 {
                assert(plan[i] == rest[i - 1]);
            }
        }
        assert forall|i: int| 0 <= i < plan.len() - 1 implies (#[trigger] plan[i]).end == plan[i
            + 1].start by {
            assert(plan[i + 1] == rest[i]);
            if i > 0 {
                assert(plan[i] == rest[i - 1]);
            }
        }
    } else {
        assert(rest.len() == 0);
    }
}

/// Samples of the steps of a plan together.
pub open spec fn plan_len(plan: Seq<SubBlock>) -> int
    decreases plan.len(),
{
    if plan.len() == 0 {
        0
    } else {
        plan[0].end - plan[0].start + plan_len(plan.skip(1))
    }
}

/// Wherever events cut a block, its steps have as many samples together as the block.
pub proof fn law_steps_add_up(events: Seq<ScheduledEvent>, idx: int, offset: int, n: int)
    requires
        0 <= idx <= events.len() <= usize::MAX,
        0 <= offset <= n <= usize::MAX,
    ensures
        plan_len(plan_from(events, idx, offset, n)) == n - offset,
    decreases n - offset, events.len() - idx,
{
    if offset < n {
        let step = sub_block_at(events, idx, offset, n);
        lemma_step(events, idx, offset, n);
        law_steps_add_up(events, step.end_event as int, step.end as int, n);
        assert(plan_from(events, idx, offset, n).skip(1) =~= plan_from(
            events,
            step.end_event as int,
            step.end as int,
            n,
        ));
    }
}

/// An event comes into force exactly at its sample: the events of a step are due where the
/// step ends. No event comes into force twice, and they keep their order.
pub proof fn law_events_are_sample_accurate(
    events: Seq<ScheduledEvent>,
    idx: int,
    offset: int,
    n: int,
)
    requires
        0 <= idx <= events.len() <= usize::MAX,
        0 <= offset <= n <= usize::MAX,
    ensures
        ({
            let plan = plan_from(events, idx, offset, n);
            &&& forall|i: int, e: int|
                0 <= i < plan.len() && (#[trigger] plan[i]).first_event <= e < plan[i].end_event
                    ==> (#[trigger] events[e]).time == plan[i].end
            &&& forall|i: int|
                0 <= i < plan.len() ==> idx <= (#[trigger] plan[i]).first_event
                    <= plan[i].end_event <= events.len()
            &&& forall|i: int|
                0 <= i < plan.len() - 1 ==> (#[trigger] plan[i]).end_event
                    <= plan[i + 1].first_event
        }),
    decreases n - offset, events.len() - idx,
{
    if offset < n {
        let step = sub_block_at(events, idx, offset, n);
        lemma_step(events, idx, offset, n);
        let plan = plan_from(events, idx, offset, n);
        let rest = plan_from(events, step.end_event as int, step.end as int, n);
        law_events_are_sample_accurate(events, step.end_event as int, step.end as int, n);
        assert forall|i: int, e: int|
            0 <= i < plan.len() && (#[trigger] plan[i]).first_event <= e < plan[i].end_event implies (
        #[trigger] events[e]).time == plan[i].end by {
            if i > 0 {
                assert(plan[i] == rest[i - 1]);
            }
        }
        assert forall|i: int| 0 <= i < plan.len() implies idx <= (#[trigger] plan[i]).first_event
            <= plan[i].end_event <= events.len() by {
            if i > 0 {
                assert(plan[i] == rest[i - 1]);
            }
        }
        assert forall|i: int| 0 <= i < plan.len() - 1 implies (#[trigger] plan[i]).end_event
            <= plan[i + 1].first_event by {
            assert(plan[i + 1] == rest[i]);
            if i > 0 {
                assert(plan[i] == rest[i - 1]);
            }
        }
    }
}

/// Whether the events from `idx` on come in the order of their times, none before `offset`.
pub open spec fn in_order(events: Seq<ScheduledEvent>, idx: int, offset: int) -> bool {
    &&& forall|e: int| idx <= e < events.len() ==> (#[trigger] events[e]).time >= offset
    &&& forall|d: int, e: int|
        idx <= d <= e < events.len() ==> (#[trigger] events[d]).time <= (#[trigger] events[e]).time
}

/// Where the host keeps the order of time, no event of the block is passed over: each event
/// due within the block, its end included, belongs to a step.
pub proof fn law_ordered_events_all_apply(
    events: Seq<ScheduledEvent>,
    idx: int,
    offset: int,
    n: int,
    e: int,
)
    requires
        0 <= idx <= e < events.len() <= usize::MAX,
        0 <= offset < n <= usize::MAX,
        in_order(events, idx, offset),
        events[e].time <= n,
    ensures
        exists|i: int|
            0 <= i < plan_from(events, idx, offset, n).len() && (#[trigger] plan_from(
                events,
                idx,
                offset,
                n,
            )[i]).first_event <= e < plan_from(events, idx, offset, n)[i].end_event,
    decreases n - offset, events.len() - idx,
{
    let step = sub_block_at(events, idx, offset, n);
    lemma_step(events, idx, offset, n);
    let plan = plan_from(events, idx, offset, n);
    let rest = plan_from(events, step.end_event as int, step.end as int, n);
    assert(step.first_event == idx) by {
        if step.first_event > idx {
            assert(events[idx].time < offset);
        }
    }
    lemma_skips(events, idx, offset);
    lemma_skips(events, idx, step.end as int);
    if e < step.end_event {
        assert(plan[0] == step);
    } else {
        lemma_not_due_after(events, idx, step.end as int);
        assert(step.end_event < events.len());
        let next = step.end_event as int;
        assert(events[idx].time <= events[next].time);
        assert(events[next].time != step.end);
        assert(events[next].time >= step.end) by {
            if events[idx].time < n {
                assert(step.end == events[idx].time);
            } else {
                assert(step.end == n);
            }
        }
        assert(events[next].time <= events[e].time);
        assert(step.end < n);
        assert forall|f: int| next <= f < events.len() implies (#[trigger] events[f]).time
            >= step.end by {
            assert(events[next].time <= events[f].time);
        }
        law_ordered_events_all_apply(events, next, step.end as int, n, e);
        let i = choose|i: int|
            0 <= i < rest.len() && (#[trigger] rest[i]).first_event <= e < rest[i].end_event;
        assert(plan[i + 1] == rest[i]);
    }
}

/// The event after the due ones is not due.
proof fn lemma_not_due_after(events: Seq<ScheduledEvent>, idx: int, at: int)
    requires
        0 <= idx <= events.len(),
    ensures
        skip_due(events, idx, at) < events.len() ==> events[skip_due(events, idx, at)].time != at,
    decreases events.len() - idx,
{
    if idx < events.len() && events[idx].time == at {
        lemma_not_due_after(events, idx + 1, at);
    }
}

/// Everything that a parameter event changes.
#[verifier::ext_equal]
pub ghost struct EventState {
    pub rt: RtState,
    pub ui: UiToRt,
    pub mod_input_gain: u32,
    pub mod_output_gain: u32,
    pub mod_gate_thresh: u32,
}

impl EventState {
    /// Adds an effect.
    pub open spec fn effect(self, effect: RtEffect) -> EventState {
        EventState { rt: RtState { effects: self.rt.effects.push(effect), ..self.rt }, ..self }
    }

    /// A modulation comes into force. Only levels and the noise gate can be modulated.
    pub open spec fn modulate(self, param_id: u32, amount: u32) -> EventState {
        if param_id == PARAM_INPUT_GAIN {
            EventState { mod_input_gain: amount, ..self }.effect(
                RtEffect::SetInputGain { db: self.rt.params.input_gain_db, modulation: amount },
            )
        } else if param_id == PARAM_OUTPUT_GAIN {
            EventState { mod_output_gain: amount, ..self }.effect(
                RtEffect::SetOutputGain { db: self.rt.params.output_gain_db, modulation: amount },
            )
        } else if param_id == PARAM_GATE_THRESH {
            EventState {
                mod_gate_thresh: amount,
                rt: RtState { gate_dirty: true, ..self.rt },
                ..self
            }
        } else {
            self
        }
    }

    /// A new value comes into force and is shown to the GUI.
    pub open spec fn set_value(self, param_id: u32, value: EventValue) -> EventState {
        let params = self.rt.params;
        if param_id == PARAM_INPUT_GAIN {
            EventState {
                rt: RtState {
                    params: RtProcessingParams { input_gain_db: value.bits, ..params },
                    ..self.rt
                },
                ui: UiToRt { param_input_gain: value.bits, ..self.ui },
                ..self
            }.effect(
                RtEffect::SetInputGain { db: value.bits, modulation: self.mod_input_gain },
            )
        } else if param_id == PARAM_OUTPUT_GAIN {
            EventState {
                rt: RtState {
                    params: RtProcessingParams { output_gain_db: value.bits, ..params },
                    ..self.rt
                },
                ui: UiToRt { param_output_gain: value.bits, ..self.ui },
                ..self
            }.effect(
                RtEffect::SetOutputGain { db: value.bits, modulation: self.mod_output_gain },
            )
        } else if param_id == PARAM_GATE_THRESH {
            EventState {
                rt: RtState {
                    params: RtProcessingParams { gate_threshold_db: value.bits, ..params },
                    gate_dirty: true,
                    ..self.rt
                },
                ui: UiToRt { param_gate_thresh: value.bits, ..self.ui },
                ..self
            }
        } else if param_id == PARAM_BYPASS {
            EventState {
                rt: RtState {
                    params: RtProcessingParams { bypass: value.bypass, ..params },
                    ..self.rt
                },
                ui: UiToRt {
                    param_bypass: if value.bypass {
                        1
                    } else {
                        0
                    },
                    ..self.ui
                },
                ..self
            }
        } else if param_id == PARAM_ADAPTIVE_COMPUTE {
            EventState {
                rt: RtState {
                    params: RtProcessingParams {
                        adaptive_compute: value.adaptive_compute,
                        ..params
                    },
                    adaptive_mode: value.adaptive_compute,
                    ..self.rt
                },
                ui: UiToRt {
                    param_adaptive_compute: value.adaptive_compute.code_spec(),
                    ..self.ui
                },
                ..self
            }.effect(RtEffect::SetAdaptiveMode(value.adaptive_compute))
        } else if param_id == PARAM_SLIM_OVERRIDE {
            EventState {
                rt: RtState {
                    params: RtProcessingParams { slim_override: value.slim_override, ..params },
                    ..self.rt
                },
                ui: UiToRt { param_slim_override: value.slim_override.code_spec(), ..self.ui },
                ..self
            }.effect(RtEffect::SetSlimOverride(value.slim_override))
        } else if param_id == PARAM_OVERSAMPLE {
            EventState {
                rt: self.rt.request_oversample(value.oversample),
                ui: if value.oversample == params.oversample {
                    self.ui
                } else {
                    UiToRt { param_oversample: value.oversample.code_spec(), ..self.ui }
                },
                ..self
            }
        } else if param_id == PARAM_ACTIVATION && value.activation_precision
            != params.activation_precision {
            EventState {
                rt: RtState {
                    params: RtProcessingParams {
                        activation_precision: value.activation_precision,
                        ..params
                    },
                    ..self.rt
                },
                ui: UiToRt { param_activation: value.activation_precision.code_spec(), ..self.ui },
                ..self
            }.effect(RtEffect::SetActivation(value.activation_precision))
        } else {
            self
        }
    }

    /// An event comes into force.
    #[verifier::opaque]
    pub open spec fn apply_event(self, event: ScheduledEvent) -> EventState {
        if event.is_mod {
            self.modulate(event.param_id, event.value.bits)
        } else {
            self.set_value(event.param_id, event.value)
        }
    }

    /// The events from `first` to `end` come into force, in order.
    pub open spec fn apply_events(self, events: Seq<ScheduledEvent>, first: int, end: int) -> EventState
        decreases end - first,
    {
        if end <= first {
            self
        } else {
            self.apply_events(events, first, end - 1).apply_event(events[end - 1])
        }
    }
}

/// `after` differs from `before` only in what parameter events write.
#[verifier::opaque]
pub open spec fn same_event_shared(before: &GuiSharedState, after: &GuiSharedState) -> bool {
    *after == (GuiSharedState {
        ui_to_rt: after.ui_to_rt,
        ..with_cells(*before, cells_of(*after))
    })
}

impl<T: Copy> NamClapProcessor<T> {
    /// What a parameter event changes.
    pub open spec fn event_state(&self, shared: &GuiSharedState) -> EventState {
        EventState {
            rt: self.rt(shared),
            ui: shared.ui_to_rt,
            mod_input_gain: self.mod_input_gain,
            mod_output_gain: self.mod_output_gain,
            mod_gate_thresh: self.mod_gate_thresh,
        }
    }

    /// `self` differs from `before` only in what parameter events change.
    #[verifier::opaque]
    pub open spec fn same_beyond_events(&self, before: &Self) -> bool {
        *self == (NamClapProcessor {
            params: self.params,
            adaptive_mode: self.adaptive_mode,
            gate_dirty: self.gate_dirty,
            effects: self.effects,
            mod_input_gain: self.mod_input_gain,
            mod_output_gain: self.mod_output_gain,
            mod_gate_thresh: self.mod_gate_thresh,
            ..*before
        })
    }

    fn apply_modulation(&mut self, Ghost(shared): Ghost<&GuiSharedState>, param_id: u32, amount: u32)
        ensures
            final(self).same_beyond_events(old(self)),
            final(self).event_state(shared) == old(self).event_state(shared).modulate(
                param_id,
                amount,
            ),
    {
        proof {
            reveal(NamClapProcessor::same_beyond_events);
        }
        if param_id == PARAM_INPUT_GAIN {
            self.mod_input_gain = amount;
            self.effects.push(
                RtEffect::SetInputGain { db: self.params.input_gain_db, modulation: amount },
            );
        } else if param_id == PARAM_OUTPUT_GAIN {
            self.mod_output_gain = amount;
            self.effects.push(
                RtEffect::SetOutputGain { db: self.params.output_gain_db, modulation: amount },
            );
        } else if param_id == PARAM_GATE_THRESH {
            self.mod_gate_thresh = amount;
            self.gate_dirty = true;
        }
    }

    fn apply_level(&mut self, shared: &mut GuiSharedState, param_id: u32, value: EventValue)
        requires
            param_id == PARAM_INPUT_GAIN || param_id == PARAM_OUTPUT_GAIN || param_id
                == PARAM_GATE_THRESH || param_id == PARAM_BYPASS,
        ensures
            final(self).same_beyond_events(old(self)),
            same_event_shared(old(shared), final(shared)),
            final(self).event_state(final(shared)) == old(self).event_state(old(shared)).set_value(
                param_id,
                value,
            ),
    {
        proof {
            reveal(NamClapProcessor::same_beyond_events);
            reveal(same_event_shared);
        }
        if param_id == PARAM_INPUT_GAIN {
            self.params.input_gain_db = value.bits;
            shared.ui_to_rt.param_input_gain = value.bits;
            self.effects.push(
                RtEffect::SetInputGain { db: value.bits, modulation: self.mod_input_gain },
            );
        } else if param_id == PARAM_OUTPUT_GAIN {
            self.params.output_gain_db = value.bits;
            shared.ui_to_rt.param_output_gain = value.bits;
            self.effects.push(
                RtEffect::SetOutputGain { db: value.bits, modulation: self.mod_output_gain },
            );
        } else if param_id == PARAM_GATE_THRESH {
            self.params.gate_threshold_db = value.bits;
            shared.ui_to_rt.param_gate_thresh = value.bits;
            self.gate_dirty = true;
        } else {
            self.params.bypass = value.bypass;
            shared.ui_to_rt.param_bypass = if value.bypass { 1 } else { 0 };
        }
    }

    fn apply_choice(&mut self, shared: &mut GuiSharedState, param_id: u32, value: EventValue)
        requires
            param_id == PARAM_ADAPTIVE_COMPUTE || param_id == PARAM_SLIM_OVERRIDE || param_id
                == PARAM_ACTIVATION,
        ensures
            final(self).same_beyond_events(old(self)),
            same_event_shared(old(shared), final(shared)),
            final(self).event_state(final(shared)) == old(self).event_state(old(shared)).set_value(
                param_id,
                value,
            ),
    {
        proof {
            reveal(NamClapProcessor::same_beyond_events);
            reveal(same_event_shared);
        }
        if param_id == PARAM_ADAPTIVE_COMPUTE {
            self.params.adaptive_compute = value.adaptive_compute;
            shared.ui_to_rt.param_adaptive_compute = value.adaptive_compute.code();
            self.adaptive_mode = value.adaptive_compute;
            self.effects.push(RtEffect::SetAdaptiveMode(value.adaptive_compute));
        } else if param_id == PARAM_SLIM_OVERRIDE {
            self.params.slim_override = value.slim_override;
            shared.ui_to_rt.param_slim_override = value.slim_override.code();
            self.effects.push(RtEffect::SetSlimOverride(value.slim_override));
        } else if value.activation_precision != self.params.activation_precision {
            self.params.activation_precision = value.activation_precision;
            shared.ui_to_rt.param_activation = value.activation_precision.code();
            self.effects.push(RtEffect::SetActivation(value.activation_precision));
        }
    }

    fn apply_oversample(&mut self, shared: &mut GuiSharedState, value: EventValue)
        requires
            old(self).wf(),
        ensures
            final(self).same_beyond_events(old(self)),
            same_event_shared(old(shared), final(shared)),
            final(self).event_state(final(shared)) == old(self).event_state(old(shared)).set_value(
                PARAM_OVERSAMPLE,
                value,
            ),
    {
        let changed: bool = value.oversample != self.params.oversample;
        self.request_oversample(shared, value.oversample);
        proof {
            reveal(NamClapProcessor::same_beyond_events);
            reveal(NamClapProcessor::same_rest);
            reveal(same_event_shared);
            reveal(crate::processor::same_shared);
            reveal(RtState::request_oversample);
        }
        if changed {
            shared.ui_to_rt.param_oversample = value.oversample.code();
        }
    }

    /// Brings a parameter event into force.
    pub fn apply_scheduled_event(&mut self, shared: &mut GuiSharedState, event: ScheduledEvent)
        requires
            old(self).wf(),
        ensures
            final(self).wf(),
            final(self).same_beyond_events(old(self)),
            same_event_shared(old(shared), final(shared)),
            final(self).event_state(final(shared)) == old(self).event_state(
                old(shared),
            ).apply_event(event),
    {
        proof {
            reveal(EventState::apply_event);
            assert(self.same_beyond_events(self)) by {
                reveal(NamClapProcessor::same_beyond_events);
            }
            assert(same_event_shared(shared, shared)) by {
                reveal(same_event_shared);
            }
        }
        let id: u32 = event.param_id;
        if event.is_mod {
            self.apply_modulation(Ghost(shared), id, event.value.bits);
        } else if id == PARAM_INPUT_GAIN || id == PARAM_OUTPUT_GAIN || id == PARAM_GATE_THRESH || id
            == PARAM_BYPASS {
            self.apply_level(shared, id, event.value);
        } else if id == PARAM_ADAPTIVE_COMPUTE || id == PARAM_SLIM_OVERRIDE || id
            == PARAM_ACTIVATION {
            self.apply_choice(shared, id, event.value);
        } else if id == PARAM_OVERSAMPLE {
            self.apply_oversample(shared, event.value);
        }
        proof {
            reveal(NamClapProcessor::same_beyond_events);
        }
    }
}

} // verus!
