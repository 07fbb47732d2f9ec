//! What the host's parameter events do, and when.

use vstd::prelude::*;
use crate::params::{
    ActivationPrecision, AdaptiveComputeMode, OversampleFactor, RtProcessingParams, SlimOverride,
};
use crate::processor::{EventValue, RtEffect, RtState, ScheduledEvent};
use crate::schedule::{
    in_order, law_events_are_sample_accurate, law_ordered_events_all_apply, plan_from,
    scheduled_from, EventState, HostEvent,
};
use crate::shared::UiToRt;

verus! {

/// An event that names a parameter is scheduled at the time that the host gave it, for that
/// parameter and with that value; it counts as a modulation exactly where the host sent one. Any
/// other event is not scheduled.
pub proof fn law_event_keeps_its_time(time: u32, param_id: u32, value: EventValue)
    ensures
        ({
            let set = HostEvent::ParamValue { time, param_id: Some(param_id), value };
            let modulated = HostEvent::ParamMod { time, param_id: Some(param_id), value };
            &&& set.scheduled_spec() is Some
            &&& set.scheduled_spec()->Some_0.time == time
            &&& set.scheduled_spec()->Some_0.param_id == param_id
            &&& set.scheduled_spec()->Some_0.value == value
            &&& !set.scheduled_spec()->Some_0.is_mod
            &&& modulated.scheduled_spec() is Some
            &&& modulated.scheduled_spec()->Some_0.time == time
            &&& modulated.scheduled_spec()->Some_0.param_id == param_id
            &&& modulated.scheduled_spec()->Some_0.value == value
            &&& modulated.scheduled_spec()->Some_0.is_mod
            &&& HostEvent::ParamValue { time, param_id: None, value }.scheduled_spec() is None
            &&& HostEvent::ParamMod { time, param_id: None, value }.scheduled_spec() is None
            &&& HostEvent::Other { time }.scheduled_spec() is None
        }),
{
}

/// The time that the host has given to an event.
pub open spec fn host_time(event: HostEvent) -> u32 {
    match event {
        HostEvent::ParamValue { time, .. } => time,
        HostEvent::ParamMod { time, .. } => time,
        HostEvent::Other { time } => time,
    }
}

/// Whether the host names a parameter.
pub open spec fn names_parameter(event: HostEvent) -> bool {
    match event {
        HostEvent::ParamValue { param_id, .. } => param_id is Some,
        HostEvent::ParamMod { param_id, .. } => param_id is Some,
        HostEvent::Other { .. } => false,
    }
}

/// The events of a block are scheduled in the order of the host, each with its own time; those that
/// name no parameter are passed over.
pub proof fn law_events_are_scheduled_in_order(input: Seq<HostEvent>, k: int)
    requires
        0 <= k < input.len(),
    ensures
        scheduled_from(input, 0).len() == 0,
        !names_parameter(input[k]) ==> scheduled_from(input, k + 1) == scheduled_from(input, k),
        names_parameter(input[k]) ==> {
            let all = scheduled_from(input, k + 1);
            &&& all.len() == scheduled_from(input, k).len() + 1
            &&& all.drop_last() == scheduled_from(input, k)
            &&& all.last().time == host_time(input[k])
            &&& all.last().is_mod == input[k] is ParamMod
        },
{
    if names_parameter(input[k]) {
        assert(scheduled_from(input, k + 1).drop_last() =~= scheduled_from(input, k));
    }
}

/// Where every event names a parameter, the event at each position is the host's at that position.
pub proof fn law_every_parameter_event_is_scheduled(input: Seq<HostEvent>, k: int, i: int)
    requires
        0 <= i < k <= input.len(),
        forall|j: int| 0 <= j < k ==> names_parameter(#[trigger] input[j]),
    ensures
        scheduled_from(input, k).len() == k,
        scheduled_from(input, k)[i].time == host_time(input[i]),
        scheduled_from(input, k)[i].is_mod == input[i] is ParamMod,
    decreases k,
{
    assert(names_parameter(input[k - 1]));
    if k > 1 {
        law_every_parameter_event_is_scheduled(input, k - 1, if i < k - 1 {
            i
        } else {
            0
        });
    }
}

/// The samples before an event are rendered without it and those from its time on with it: the
/// block is cut at the very sample that the host has named, and there the event comes into force.
pub proof fn law_host_event_comes_into_force_at_its_sample(input: Seq<HostEvent>, n: int, e: int)
    requires
        0 <= e < input.len() <= usize::MAX,
        0 < n <= usize::MAX,
        forall|j: int| 0 <= j < input.len() ==> names_parameter(#[trigger] input[j]),
        forall|d: int, f: int|
            0 <= d <= f < input.len() ==> host_time(#[trigger] input[d]) <= host_time(
                #[trigger] input[f],
            ),
        host_time(input[e]) <= n,
    ensures
        ({
            let plan = plan_from(scheduled_from(input, input.len() as int), 0, 0, n);
            exists|i: int|
                {
                    &&& 0 <= i < plan.len()
                    &&& (#[trigger] plan[i]).first_event <= e < plan[i].end_event
                    &&& plan[i].end == host_time(input[e])
                }
        }),
{
    let k = input.len() as int;
    let events = scheduled_from(input, k);
    assert forall|j: int| 0 <= j < k implies (#[trigger] events[j]).time == host_time(input[j]) by {
        law_every_parameter_event_is_scheduled(input, k, j);
    }
    law_every_parameter_event_is_scheduled(input, k, e);
    assert(in_order(events, 0, 0)) by {
        assert forall|d: int, f: int| 0 <= d <= f < events.len() implies (#[trigger] events[d]).time
            <= (#[trigger] events[f]).time by {
            assert(host_time(input[d]) <= host_time(input[f]));
        }
    }
    law_ordered_events_all_apply(events, 0, 0, n, e);
    law_events_are_sample_accurate(events, 0, 0, n);
    let plan = plan_from(events, 0, 0, n);
    let i = choose|i: int|
        0 <= i < plan.len() && (#[trigger] plan[i]).first_event <= e < plan[i].end_event;
    assert(events[e].time == plan[i].end);
}

/// A new gain comes into force: it is set and shown in its own place and nowhere else, and goes to
/// the engine with its modulation.
pub proof fn law_gain_event_sets_its_gain(
    state: EventState,
    time: usize,
    value: EventValue,
)
    ensures
        state.apply_event(ScheduledEvent { time, param_id: 0, value, is_mod: false })
            == (EventState {
            rt: RtState {
                params: RtProcessingParams { input_gain_db: value.bits, ..state.rt.params },
                effects: state.rt.effects.push(
                    RtEffect::SetInputGain { db: value.bits, modulation: state.mod_input_gain },
                ),
                ..state.rt
            },
            ui: UiToRt { param_input_gain: value.bits, ..state.ui },
            ..state
        }),
        state.apply_event(ScheduledEvent { time, param_id: 1, value, is_mod: false })
            == (EventState {
            rt: RtState {
                params: RtProcessingParams { output_gain_db: value.bits, ..state.rt.params },
                effects: state.rt.effects.push(
                    RtEffect::SetOutputGain { db: value.bits, modulation: state.mod_output_gain },
                ),
                ..state.rt
            },
            ui: UiToRt { param_output_gain: value.bits, ..state.ui },
            ..state
        }),
{
    reveal(EventState::apply_event);
}

/// A new threshold of the noise gate, or a new position of the bypass switch, comes into force: it
/// is set and shown in its own place and nowhere else.
pub proof fn law_gate_and_bypass_events_set_their_values(
    state: EventState,
    time: usize,
    value: EventValue,
)
    ensures
        state.apply_event(ScheduledEvent { time, param_id: 2, value, is_mod: false })
            == (EventState {
            rt: RtState {
                params: RtProcessingParams { gate_threshold_db: value.bits, ..state.rt.params },
                gate_dirty: true,
                ..state.rt
            },
            ui: UiToRt { param_gate_thresh: value.bits, ..state.ui },
            ..state
        }),
        state.apply_event(ScheduledEvent { time, param_id: 3, value, is_mod: false })
            == (EventState {
            rt: RtState {
                params: RtProcessingParams { bypass: value.bypass, ..state.rt.params },
                ..state.rt
            },
            ui: UiToRt {
                param_bypass: if value.bypass {
                    1
                } else {
                    0
                },
                ..state.ui
            },
            ..state
        }),
{
    reveal(EventState::apply_event);
}

/// A new choice comes into force: it is set and shown in its own place and nowhere else, and goes
/// to the engine. The activation precision does so only where it is another one.
pub proof fn law_choice_event_sets_its_choice(state: EventState, time: usize, value: EventValue)
    ensures
        ({
            let after = state.apply_event(
                ScheduledEvent { time, param_id: 5, value, is_mod: false },
            );
            &&& after.rt == (RtState {
                params: RtProcessingParams {
                    adaptive_compute: value.adaptive_compute,
                    ..state.rt.params
                },
                adaptive_mode: value.adaptive_compute,
                effects: state.rt.effects.push(RtEffect::SetAdaptiveMode(value.adaptive_compute)),
                ..state.rt
            })
            &&& after.ui == (UiToRt {
                param_adaptive_compute: match value.adaptive_compute {
                    AdaptiveComputeMode::Off => 0,
                    AdaptiveComputeMode::Conservative => 1,
                    AdaptiveComputeMode::Aggressive => 2,
                },
                ..state.ui
            })
            &&& after == (EventState { rt: after.rt, ui: after.ui, ..state })
        }),
        ({
            let after = state.apply_event(
                ScheduledEvent { time, param_id: 6, value, is_mod: false },
            );
            &&& after.rt == (RtState {
                params: RtProcessingParams {
                    slim_override: value.slim_override,
                    ..state.rt.params
                },
                effects: state.rt.effects.push(RtEffect::SetSlimOverride(value.slim_override)),
                ..state.rt
            })
            &&& after.ui == (UiToRt {
                param_slim_override: match value.slim_override {
                    SlimOverride::Auto => 0,
                    SlimOverride::ForceFull => 1,
                    SlimOverride::ForceLite => 2,
                },
                ..state.ui
            })
            &&& after == (EventState { rt: after.rt, ui: after.ui, ..state })
        }),
        ({
            let after = state.apply_event(
                ScheduledEvent { time, param_id: 8, value, is_mod: false },
            );
            &&& value.activation_precision == state.rt.params.activation_precision ==> after
                == state
            &&& value.activation_precision != state.rt.params.activation_precision ==> {
                &&& after.rt == (RtState {
                    params: RtProcessingParams {
                        activation_precision: value.activation_precision,
                        ..state.rt.params
                    },
                    effects: state.rt.effects.push(
                        RtEffect::SetActivation(value.activation_precision),
                    ),
                    ..state.rt
                })
                &&& after.ui == (UiToRt {
                    param_activation: match value.activation_precision {
                        ActivationPrecision::Fast => 0,
                        ActivationPrecision::Standard => 1,
                    },
                    ..state.ui
                })
                &&& after == (EventState { rt: after.rt, ui: after.ui, ..state })
            }
        }),
{
    reveal(EventState::apply_event);
}

/// Another oversampling factor is shown and asked for: with a restart while the plug-in is active,
/// from the main thread before. The engines that are installed stay. The same factor again changes
/// nothing.
pub proof fn law_factor_event_asks_for_its_factor(state: EventState, time: usize, value: EventValue)
    ensures
        ({
            let after = state.apply_event(
                ScheduledEvent { time, param_id: 7, value, is_mod: false },
            );
            let code: u32 = match value.oversample {
                OversampleFactor::Off => 0,
                OversampleFactor::X2 => 1,
                OversampleFactor::X4 => 2,
            };
            &&& value.oversample == state.rt.params.oversample ==> after == state
            &&& value.oversample != state.rt.params.oversample ==> {
                &&& after.ui == (UiToRt { param_oversample: code, ..state.ui })
                &&& after.rt.params == (RtProcessingParams {
                    oversample: value.oversample,
                    ..state.rt.params
                })
                &&& after.rt.chain == state.rt.chain
                &&& after.rt.effects == state.rt.effects
                &&& after.rt.gate_dirty == state.rt.gate_dirty
                &&& after.rt.adaptive_mode == state.rt.adaptive_mode
                &&& state.rt.active ==> after.rt.cells.pending_restart_os_factor == code + 1
                &&& state.rt.active ==> after.rt.cells.rt_status == state.rt.cells.rt_status
                &&& !state.rt.active ==> after.rt.cells.rt_status.requested_os_factor == code
                &&& !state.rt.active ==> after.rt.cells.rt_status.flags
                    == state.rt.cells.rt_status.flags | 0x1_0000
                &&& !state.rt.active ==> after.rt.cells.pending_restart_os_factor
                    == state.rt.cells.pending_restart_os_factor
                &&& after == (EventState { rt: after.rt, ui: after.ui, ..state })
            }
        }),
{
    reveal(EventState::apply_event);
    reveal(RtState::request_oversample);
}

/// A modulation comes into force beside the value that is set: neither the parameters nor what the
/// GUI is shown change. Only the gains and the noise gate can be modulated, each by its own amount.
pub proof fn law_modulation_leaves_the_values(state: EventState, time: usize, value: EventValue, id: u32)
    ensures
        state.apply_event(ScheduledEvent { time, param_id: 0, value, is_mod: true })
            == (EventState {
            mod_input_gain: value.bits,
            rt: RtState {
                effects: state.rt.effects.push(
                    RtEffect::SetInputGain {
                        db: state.rt.params.input_gain_db,
                        modulation: value.bits,
                    },
                ),
                ..state.rt
            },
            ..state
        }),
        state.apply_event(ScheduledEvent { time, param_id: 1, value, is_mod: true })
            == (EventState {
            mod_output_gain: value.bits,
            rt: RtState {
                effects: state.rt.effects.push(
                    RtEffect::SetOutputGain {
                        db: state.rt.params.output_gain_db,
                        modulation: value.bits,
                    },
                ),
                ..state.rt
            },
            ..state
        }),
        state.apply_event(ScheduledEvent { time, param_id: 2, value, is_mod: true })
            == (EventState {
            mod_gate_thresh: value.bits,
            rt: RtState { gate_dirty: true, ..state.rt },
            ..state
        }),
        id > 2 ==> state.apply_event(ScheduledEvent { time, param_id: id, value, is_mod: true })
            == state,
{
    reveal(EventState::apply_event);
}

/// An event for a parameter that cannot be set changes nothing.
pub proof fn law_unknown_parameter_changes_nothing(
    state: EventState,
    time: usize,
    value: EventValue,
    id: u32,
)
    requires
        id == 4 || id > 8,
    ensures
        state.apply_event(ScheduledEvent { time, param_id: id, value, is_mod: false }) == state,
{
    reveal(EventState::apply_event);
}

/// No event of the host swaps a resource, and none but a change of the factor touches a shared cell
/// of the commands.
pub proof fn law_events_swap_nothing(state: EventState, event: ScheduledEvent)
    ensures
        state.apply_event(event).rt.chain == state.rt.chain,
        state.apply_event(event).rt.active == state.rt.active,
        event.is_mod || event.param_id != 7 ==> state.apply_event(event).rt.cells == state.rt.cells,
{
    reveal(EventState::apply_event);
    reveal(RtState::request_oversample);
}

/// Events come into force one after the other, wherever the run of them is cut; each counts, and no
/// other does.
pub proof fn law_events_apply_in_order(
    state: EventState,
    events: Seq<ScheduledEvent>,
    first: int,
    mid: int,
    end: int,
)
    requires
        first <= mid <= end,
    ensures
        state.apply_events(events, first, first) == state,
        state.apply_events(events, first, first + 1) == state.apply_event(events[first]),
        state.apply_events(events, first, end) == state.apply_events(events, first, mid).apply_events(
            events,
            mid,
            end,
        ),
    decreases end - mid,
{
    assert(state.apply_events(events, first, first) == state);
    if mid < end {
        law_events_apply_in_order(state, events, first, mid, end - 1);
    }
}

} // verus!
