//! Gestures of the GUI never get lost on their way to the host.

use nam_plug::gestures::{GuiEvent, GuiEventQueue};
use nam_plug::shared::GuiSharedState;
use nam_plug::status::RT_STATUS_GUI_EVENT_BACKPRESSURE;

const CHANGED_SHIFT: u32 = 0;
const BEGIN_SHIFT: u32 = 1;
const END_SHIFT: u32 = 2;

/// CLAP ids of the 8 writable parameters (4 is read-only and has no gestures).
const WRITABLE_PARAM_IDS: [u32; 8] = [0, 1, 2, 3, 5, 6, 7, 8];

#[derive(Debug, PartialEq, Eq, Clone, Copy)]
enum EvKind {
    Begin,
    Value,
    End,
}

#[derive(Debug, Clone)]
struct EvRec {
    kind: EvKind,
    param: u32,
    value: Option<f64>,
}

fn record_events(queue: &GuiEventQueue) -> Vec<EvRec> {
    let mut out = Vec::new();
    for event in &queue.events {
        out.push(match *event {
            GuiEvent::GestureBegin { param_id } => EvRec {
                kind: EvKind::Begin,
                param: param_id,
                value: None,
            },
            GuiEvent::Value { param_id, value } => EvRec {
                kind: EvKind::Value,
                param: param_id,
                value: Some(f32::from_bits(value) as f64),
            },
            GuiEvent::GestureEnd { param_id } => EvRec {
                kind: EvKind::End,
                param: param_id,
                value: None,
            },
        });
    }
    out
}

/// Validates the gesture protocol per parameter across the whole delivered sequence:
/// begin, value*, end; no orphan end, no nested begin, no unterminated gesture.
fn assert_legal_gesture_order(records: &[EvRec]) {
    let mut state = [0u8; 9];
    for rec in records {
        let p = rec.param as usize;
        assert!(p <= 8, "unexpected param_id {}", rec.param);
        match rec.kind {
            EvKind::Begin => {
                assert_eq!(
                    state[p], 0,
                    "begin for param {p} while a gesture is already active"
                );
                state[p] = 1;
            }
            EvKind::Value => {
                assert_eq!(
                    state[p], 1,
                    "value for param {p} without an active gesture (begin not delivered)"
                );
            }
            EvKind::End => {
                assert_eq!(
                    state[p], 1,
                    "orphan end for param {p}: end delivered without a preceding begin"
                );
                state[p] = 0;
            }
        }
    }
    for (p, s) in state.iter().enumerate() {
        assert_eq!(
            *s, 0,
            "param {p} left an unterminated gesture (end never delivered)"
        );
    }
}

fn arms_gesture(shared: &mut GuiSharedState, param_id: u32, value: f32) {
    shared.set_gesture(param_id as usize, BEGIN_SHIFT);
    shared.set_gesture(param_id as usize, CHANGED_SHIFT);
    shared.set_gesture(param_id as usize, END_SHIFT);
    let cell = match param_id {
        0 => &mut shared.ui_to_rt.param_input_gain,
        1 => &mut shared.ui_to_rt.param_output_gain,
        2 => &mut shared.ui_to_rt.param_gate_thresh,
        3 => &mut shared.ui_to_rt.param_bypass,
        5 => &mut shared.ui_to_rt.param_adaptive_compute,
        6 => &mut shared.ui_to_rt.param_slim_override,
        7 => &mut shared.ui_to_rt.param_oversample,
        8 => &mut shared.ui_to_rt.param_activation,
        _ => unreachable!("unexpected param id {param_id}"),
    };
    *cell = value.to_bits();
}

fn gesture_flags_clear(shared: &GuiSharedState) -> bool {
    shared.ui_to_rt.gesture_flags == 0
}

fn flush_until_drained(
    shared: &mut GuiSharedState,
    queue: &mut GuiEventQueue,
    max_flushes: usize,
) -> Vec<EvRec> {
    let mut all = Vec::new();
    for _ in 0..max_flushes {
        if gesture_flags_clear(shared) {
            break;
        }
        shared.write_gui_events(queue);
        all.extend(record_events(queue));
        queue.events.clear();
    }
    assert!(
        gesture_flags_clear(shared),
        "gesture flags not drained within {max_flushes} flushes"
    );
    all
}

#[test]
fn test_gui_events_capacity_0_retains_every_bit_and_recovers() {
    let mut shared = GuiSharedState::new_test();

    for &pid in &WRITABLE_PARAM_IDS {
        arms_gesture(&mut shared, pid, 1.0 + pid as f32);
    }

    // Capacity 0: every push fails, nothing may be consumed.
    let mut full = GuiEventQueue::new(0);
    let flags = shared.ui_to_rt.gesture_flags;
    shared.write_gui_events(&mut full);
    assert!(
        full.events.is_empty(),
        "capacity-0 buffer must reject every event"
    );
    assert!(
        !gesture_flags_clear(&shared),
        "no gesture bit may be consumed while the host queue is full"
    );
    assert_eq!(shared.ui_to_rt.gesture_flags, flags);
    assert!(
        shared
            .cold
            .rt_status
            .check_flag(RT_STATUS_GUI_EVENT_BACKPRESSURE),
        "backpressure flag must be raised when the host queue is full"
    );

    // Once the host provides room, one flush delivers everything in legal order and clears
    // every bit.
    let mut roomy = GuiEventQueue::new(64);
    let records = flush_until_drained(&mut shared, &mut roomy, 10);
    assert_eq!(
        records.len(),
        24,
        "8 params x (begin, value, end) = 24 events"
    );
    assert_legal_gesture_order(&records);
    for rec in &records {
        if rec.kind == EvKind::Value {
            let expected = 1.0 + rec.param as f32;
            assert_eq!(
                rec.value,
                Some(expected as f64),
                "param {} value",
                rec.param
            );
        }
    }
}

#[test]
fn test_gui_events_capacity_1_delivers_all_in_legal_order() {
    let mut shared = GuiSharedState::new_test();

    // Three sequential full gesture cycles over all 8 writable params, each fully drained
    // before the next cycle is armed (capacity 1).
    let mut queue = GuiEventQueue::new(1);
    let mut all_records = Vec::new();
    for cycle in 0..3 {
        for &pid in &WRITABLE_PARAM_IDS {
            arms_gesture(&mut shared, pid, 10.0 * cycle as f32 + pid as f32);
        }
        let recs = flush_until_drained(&mut shared, &mut queue, 100);
        all_records.extend(recs);
    }

    assert_eq!(all_records.len(), 72, "8 params x 3 gestures x 3 events");
    assert_legal_gesture_order(&all_records);

    // Each cycle must deliver exactly one value per param, equal to the value armed for that
    // cycle (values read at delivery time).
    let values: Vec<f64> = all_records
        .iter()
        .filter(|r| r.kind == EvKind::Value)
        .map(|r| r.value.unwrap())
        .collect();
    assert_eq!(values.len(), 24);
    for cycle in 0..3 {
        for (i, &pid) in WRITABLE_PARAM_IDS.iter().enumerate() {
            let expected = (10.0 * cycle as f32 + pid as f32) as f64;
            assert_eq!(values[cycle * 8 + i], expected, "cycle {cycle} param {pid}");
        }
    }
}

#[test]
fn test_gui_events_value_coalesces_while_host_queue_full() {
    let mut shared = GuiSharedState::new_test();

    arms_gesture(&mut shared, 0, 0.5);

    // Capacity 1: begin goes out, value and end are retained.
    let mut queue = GuiEventQueue::new(1);
    shared.write_gui_events(&mut queue);
    let phase1 = record_events(&queue);
    queue.events.clear();
    assert_eq!(phase1.len(), 1);
    assert_eq!(phase1[0].kind, EvKind::Begin);

    // While the queue is still saturated, the GUI writes several new values.
    for v in [1.0f32, 2.0, 3.0] {
        shared.ui_to_rt.param_input_gain = v.to_bits();
        shared.set_gesture(0, CHANGED_SHIFT);
    }

    shared.write_gui_events(&mut queue);
    let phase2 = record_events(&queue);
    queue.events.clear();
    // Only the latest value may be delivered: earlier writes coalesced.
    assert_eq!(phase2.len(), 1);
    assert_eq!(phase2[0].kind, EvKind::Value);
    assert_eq!(phase2[0].value, Some(3.0));
    assert!(
        shared
            .cold
            .rt_status
            .check_flag(RT_STATUS_GUI_EVENT_BACKPRESSURE),
        "value push failure must raise the backpressure flag"
    );

    let phase3 = flush_until_drained(&mut shared, &mut queue, 10);
    assert_eq!(phase3.len(), 1);
    assert_eq!(phase3[0].kind, EvKind::End);
    assert_legal_gesture_order(&[phase1[0].clone(), phase2[0].clone(), phase3[0].clone()]);
}

#[test]
fn test_gui_events_no_orphan_end_on_retry() {
    let mut shared = GuiSharedState::new_test();

    arms_gesture(&mut shared, 0, 0.25);

    // Capacity 1: begin is delivered; value and end stay pending.
    let mut queue = GuiEventQueue::new(1);
    shared.write_gui_events(&mut queue);
    let phase1 = record_events(&queue);
    queue.events.clear();
    assert_eq!(phase1.len(), 1);
    assert_eq!(phase1[0].kind, EvKind::Begin);

    // A saturated flush must never emit `end` while `value` is still pending.
    let mut saturated = GuiEventQueue::new(0);
    shared.write_gui_events(&mut saturated);
    assert!(
        saturated.events.is_empty(),
        "end must not be emitted while value is undelivered"
    );
    assert!(shared
        .cold
        .rt_status
        .check_flag(RT_STATUS_GUI_EVENT_BACKPRESSURE));

    let rest = flush_until_drained(&mut shared, &mut queue, 10);
    assert_eq!(rest.len(), 2);
    assert_eq!(rest[0].kind, EvKind::Value);
    assert_eq!(rest[1].kind, EvKind::End);
}

#[test]
fn gesture_flags_are_independent() {
    let mut shared = GuiSharedState::new_test();
    shared.begin_gesture(3);
    shared.mark_param_changed(8);
    shared.end_gesture(0);
    assert_eq!(shared.ui_to_rt.gesture_flags, (1 << 10) | (1 << 24) | (1 << 2));
    assert!(!shared.take_gesture(3, CHANGED_SHIFT));
    assert!(shared.take_gesture(3, BEGIN_SHIFT));
    assert!(!shared.take_gesture(3, BEGIN_SHIFT));
    assert!(shared.take_gesture(8, CHANGED_SHIFT));
    assert_eq!(shared.ui_to_rt.gesture_flags, 1 << 2);
    shared.clear_gestures();
    assert_eq!(shared.ui_to_rt.gesture_flags, 0);
    assert_eq!(GuiSharedState::param_index(7), 7);
}

#[test]
fn read_only_parameter_has_no_events() {
    let mut shared = GuiSharedState::new_test();
    arms_gesture(&mut shared, 5, 2.0);
    shared.set_gesture(4, BEGIN_SHIFT);
    let mut queue = GuiEventQueue::new(8);
    assert_eq!(
        shared.next_gui_event(),
        Some(GuiEvent::GestureBegin { param_id: 5 })
    );
    shared.write_gui_events(&mut queue);
    assert_eq!(
        queue.events,
        vec![
            GuiEvent::GestureBegin { param_id: 5 },
            GuiEvent::Value {
                param_id: 5,
                value: 2.0f32.to_bits()
            },
            GuiEvent::GestureEnd { param_id: 5 },
        ]
    );
    assert_eq!(shared.ui_to_rt.gesture_flags, 1 << 13);
    assert_eq!(shared.next_gui_event(), None);
    assert!(!shared
        .cold
        .rt_status
        .check_flag(RT_STATUS_GUI_EVENT_BACKPRESSURE));
}

#[test]
fn generation_and_dialog_state() {
    let mut shared = GuiSharedState::new_test();
    shared.bump_generation();
    shared.bump_generation();
    assert_eq!(shared.ui_to_rt.gui_param_generation, 2);
    shared.ui_to_rt.gui_param_generation = u32::MAX;
    shared.bump_generation();
    assert_eq!(shared.ui_to_rt.gui_param_generation, 0);

    assert!(!shared.is_model_dialog_active());
    shared.set_model_dialog_active(true);
    assert!(shared.is_model_dialog_active());
    shared.cold.dialog_active = None;
    shared.set_model_dialog_active(true);
    assert!(!shared.is_model_dialog_active());
}

#[test]
fn as_many_events_go_out_as_there_is_room_for() {
    for room in 0..10 {
        let mut shared = GuiSharedState::new_test();
        for &pid in &WRITABLE_PARAM_IDS {
            arms_gesture(&mut shared, pid, 1.0 + pid as f32);
        }
        let mut roomy = GuiEventQueue::new(64);
        let mut narrow = GuiEventQueue::new(room);
        shared.write_gui_events(&mut narrow);
        assert_eq!(narrow.events.len(), room);
        shared.write_gui_events(&mut roomy);
        let mut kinds: Vec<EvKind> = Vec::new();
        for queue in [&narrow, &roomy] {
            kinds.extend(record_events(queue).iter().map(|r| r.kind));
        }
        assert_eq!(kinds.len(), 24);
        for gesture in kinds.chunks(3) {
            assert_eq!(gesture, [EvKind::Begin, EvKind::Value, EvKind::End]);
        }
        assert!(gesture_flags_clear(&shared));
    }
}
