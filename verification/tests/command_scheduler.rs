//! Behaviour of the command channel.

use nam_plug::command_scheduler::{
    poll_for_ack, AckWait, CommandConsumer, CommandProducer, CommandScheduler, PushError,
};
use nam_plug::params::{OversampleFactor, RtProcessingParams};
use nam_plug::payload::{
    ClapParamPayload, LoadModelPayload, OversampleHandle, ResamplerHandle, RestoreTxn,
    StreamHandle, StructuralKind,
};

fn make_test_scheduler() -> (CommandScheduler, u64, u64) {
    let sched = CommandScheduler::new();
    let (next_seq, last_ack) = (sched.cmd_next_seq, sched.cmd_last_ack);
    (sched, next_seq, last_ack)
}

/// Builds a complete atomic restore transaction. `mult_adj` differentiates the
/// model component between restores so snapshots can be told apart.
fn make_restore_txn(generation: u64, gain: f32, mult_adj: f32) -> RestoreTxn {
    RestoreTxn {
        generation,
        model: Some(LoadModelPayload {
            generation,
            model_l: None,
            new_resampler: ResamplerHandle { id: 1 },
            new_stream: StreamHandle { id: 2, latency_samples: 0 },
            input_mult_adj: mult_adj.to_bits(),
            output_mult_adj: mult_adj.to_bits(),
        }),
        ir: Some(None),
        params: RtProcessingParams {
            input_gain_db: (gain).to_bits(),
            ..Default::default()
        },
    }
}

#[test]
fn coalesce_single_param_and_flush() {
    let (_sched, mut next_seq, _last_ack) = make_test_scheduler();
    let (tx, _rx) = rtrb::RingBuffer::new(256);
    let mut producer = CommandProducer::new(tx);

    let params = RtProcessingParams {
        input_gain_db: 5.0f32.to_bits(),
        bypass: false,
        ..Default::default()
    };

    let is_new = producer.push_params(params);
    assert!(is_new, "first push should start a new batch");

    let seq = producer.force_flush(&mut next_seq).unwrap();
    assert!(seq > 0, "flush should get a sequence number");
}

#[test]
fn coalesce_merges_consecutive_param_updates() {
    let (_sched, mut next_seq, _last_ack) = make_test_scheduler();
    let (tx, mut rx) = rtrb::RingBuffer::new(256);
    let mut producer = CommandProducer::new(tx);

    for gain in 0..100 {
        let p = RtProcessingParams {
            input_gain_db: (gain as f32).to_bits(),
            ..Default::default()
        };
        let is_new = producer.push_params(p);
        // First is new, rest are coalesced
        if gain == 0 {
            assert!(is_new);
        } else {
            assert!(!is_new);
        }
    }

    let seq = producer.force_flush(&mut next_seq).unwrap();
    assert!(seq > 0, "flush should get a sequence number");

    let mut found = false;
    while let Ok(payload) = rx.pop() {
        if let ClapParamPayload::Params(p) = payload {
            assert_eq!(f32::from_bits(p.input_gain_db), 99.0, "should keep only the latest value");
            found = true;
        }
    }
    assert!(found, "should have received the coalesced params");
}

#[test]
fn coalesce_preserves_multi_param_merging() {
    let (_sched, mut next_seq, _last_ack) = make_test_scheduler();
    let (tx, mut rx) = rtrb::RingBuffer::new(256);
    let mut producer = CommandProducer::new(tx);

    let p1 = RtProcessingParams {
        input_gain_db: 3.0f32.to_bits(),
        bypass: true,
        ..Default::default()
    };
    assert!(producer.push_params(p1));

    let p2 = RtProcessingParams {
        input_gain_db: 3.0f32.to_bits(),
        bypass: true,
        output_gain_db: (-6.0f32).to_bits(),
        gate_threshold_db: (-50.0f32).to_bits(),
        ..Default::default()
    };
    assert!(!producer.push_params(p2));

    producer.force_flush(&mut next_seq).unwrap();

    let mut final_params: Option<RtProcessingParams> = None;
    while let Ok(payload) = rx.pop() {
        if let ClapParamPayload::Params(p) = payload {
            final_params = Some(p);
        }
    }
    let fp = final_params.expect("should receive coalesced params");
    assert_eq!(f32::from_bits(fp.input_gain_db), 3.0);
    assert_eq!(f32::from_bits(fp.output_gain_db), -6.0);
    assert_eq!(f32::from_bits(fp.gate_threshold_db), -50.0);
    assert!(fp.bypass);
}

#[test]
fn non_coalescable_flushes_pending_params_first() {
    let (_sched, mut next_seq, _last_ack) = make_test_scheduler();
    let (tx, mut rx) = rtrb::RingBuffer::new(256);
    let mut producer = CommandProducer::new(tx);

    let p = RtProcessingParams {
        input_gain_db: 12.0f32.to_bits(),
        ..Default::default()
    };
    assert!(producer.push_params(p));

    let seq = producer
        .push_command(ClapParamPayload::LoadCabIr { adapter: None }, &mut next_seq)
        .unwrap();
    assert!(seq > 0, "command should get a sequence number");

    let expected_order = vec!["Params", "LoadCabIr"];
    let mut actual_order = Vec::new();
    while let Ok(payload) = rx.pop() {
        actual_order.push(match payload {
            ClapParamPayload::Params(_) => "Params",
            ClapParamPayload::LoadCabIr { .. } => "LoadCabIr",
            _ => "Other",
        });
    }
    assert_eq!(
        actual_order, expected_order,
        "params must be flushed before the non-coalescable command"
    );
}

#[test]
fn ack_tracking_basic() {
    let mut next_seq: u64 = 0;
    let mut last_ack: u64 = 0;
    let (tx, rx) = rtrb::RingBuffer::new(256);
    let mut producer = CommandProducer::new(tx);

    let mut p = RtProcessingParams {
        input_gain_db: 1.0f32.to_bits(),
        ..Default::default()
    };
    producer.push_params(p);
    let seq1 = producer.force_flush(&mut next_seq).unwrap();

    p.input_gain_db = 2.0f32.to_bits();
    producer.push_params(p);
    let seq2 = producer.force_flush(&mut next_seq).unwrap();

    assert!(seq1 > 0);
    assert!(seq2 > seq1);
    assert!(!producer.is_acked(seq2, &last_ack));

    let mut consumer = CommandConsumer::new(rx, &last_ack);
    consumer.drain_and_process(256, |_| {});
    consumer.ack_up_to(seq2, &mut last_ack);

    assert!(producer.is_acked(seq2, &last_ack));
}

#[test]
fn stress_10k_param_burst_no_loss_no_deadlock() {
    let mut sched = CommandScheduler::new();
    let mut next_seq: u64 = 0;
    let mut last_ack: u64 = 0;

    let channels = sched.extract_producer_consumer().unwrap();
    let mut producer = CommandProducer::new(channels.cmd_tx);
    let mut consumer = CommandConsumer::new(channels.cmd_rx, &last_ack);

    for i in 0..10_000u32 {
        let val = i as f32 * 0.01;
        let p = RtProcessingParams {
            input_gain_db: val.to_bits(),
            output_gain_db: (-val).to_bits(),
            gate_threshold_db: (-70.0 + val * 0.1).to_bits(),
            bypass: i % 100 == 0,
            ..Default::default()
        };
        producer.push_params(p);
    }
    let last_seq = producer.force_flush(&mut next_seq).unwrap();

    let mut total = 0usize;
    loop {
        let drained = consumer.drain_and_process(64, |_| {});
        total += drained;
        if drained > 0 {
            consumer.ack_processed(&mut last_ack);
        }
        let current = next_seq;
        if current > 0 && last_ack >= current {
            break;
        }
    }
    assert!(
        producer.wait_for_ack_timeout(last_seq, std::time::Duration::from_secs(2), || last_ack),
        "ack must arrive within the 2 s safety timeout"
    );

    assert!(last_seq > 0, "producer should have sent at least one batch");
    assert!(
        total > 0,
        "consumer should have drained at least one message"
    );
    assert!(
        total <= 256,
        "with coalescing, 10k pushes should produce few messages, got {total}"
    );
}

#[test]
fn interleaved_commands_preserve_ordering() {
    let mut sched = CommandScheduler::new();
    let mut next_seq: u64 = 0;

    let channels = sched.extract_producer_consumer().unwrap();
    let cmd_tx = channels.cmd_tx;
    let mut consumer_rx = channels.cmd_rx;

    let mut producer = CommandProducer::new(cmd_tx);

    let mut p = RtProcessingParams {
        input_gain_db: 3.0f32.to_bits(),
        ..Default::default()
    };
    producer.push_params(p);

    let _ = producer
        .push_command(ClapParamPayload::LoadCabIr { adapter: None }, &mut next_seq)
        .unwrap();

    p.output_gain_db = (-6.0f32).to_bits();
    producer.push_params(p);

    let _ = producer.force_flush(&mut next_seq);

    let mut order = Vec::new();
    while let Ok(payload) = consumer_rx.pop() {
        order.push(match payload {
            ClapParamPayload::Params(_) => "P",
            ClapParamPayload::LoadCabIr { .. } => "C",
            _ => "?",
        });
    }

    assert_eq!(
        order,
        vec!["P", "C", "P"],
        "ordering: params before command, then params after"
    );
}

#[test]
fn spin_wait_for_ack_does_not_deadlock() {
    let mut next_seq: u64 = 0;
    let mut last_ack: u64 = 0;
    let (tx, rx) = rtrb::RingBuffer::new(256);
    let mut producer = CommandProducer::new(tx);

    let p = RtProcessingParams {
        input_gain_db: 7.0f32.to_bits(),
        ..Default::default()
    };
    producer.push_params(p);
    let seq = producer.force_flush(&mut next_seq).unwrap();

    let mut consumer = CommandConsumer::new(rx, &last_ack);
    consumer.drain_and_process(256, |_| {});
    consumer.ack_up_to(next_seq, &mut last_ack);

    assert!(producer.wait_for_ack(seq, || last_ack));
    producer.wait_for_ack_timeout(seq, std::time::Duration::from_secs(2), || last_ack);
    assert!(producer.is_acked(seq, &last_ack));
}

/// The production ack-wait must time out instead of
/// spin-waiting forever when the audio thread never acknowledges.
///
/// The cell is left untouched at 0 while the producer waits for a
/// never-issued sequence: the method must return `false` shortly after the
/// deadline, bounding the busy-wait and never freezing the caller.
#[test]
fn wait_for_ack_timeout_times_out_when_ack_never_arrives() {
    let last_ack: u64 = 0;
    let (tx, _rx) = rtrb::RingBuffer::new(256);
    let producer = CommandProducer::new(tx);

    // A sequence that can never be acknowledged: nothing was ever pushed and
    // no consumer thread exists to advance `last_ack`.
    let timeout = std::time::Duration::from_millis(50);
    let start = std::time::Instant::now();
    let acked = producer.wait_for_ack_timeout(42, timeout, || last_ack);
    let elapsed = start.elapsed();

    assert!(
        !acked,
        "a never-acknowledged sequence must time out as false"
    );
    assert!(
        elapsed >= timeout,
        "the wait must not return before the deadline (elapsed={elapsed:?})"
    );
    assert!(
        elapsed < std::time::Duration::from_secs(2),
        "the wait must stop at the deadline, not keep spinning (elapsed={elapsed:?})"
    );
    assert!(!producer.is_acked(42, &last_ack));
}

/// Success path — the bounded wait returns `true` as soon as
/// the audio-thread consumer acknowledges the requested sequence.
#[test]
fn wait_for_ack_timeout_returns_true_when_ack_arrives() {
    let mut next_seq: u64 = 0;
    let mut last_ack: u64 = 0;
    let (tx, rx) = rtrb::RingBuffer::new(256);
    let mut producer = CommandProducer::new(tx);

    let p = RtProcessingParams {
        input_gain_db: 1.0f32.to_bits(),
        ..Default::default()
    };
    producer.push_params(p);
    let seq = producer.force_flush(&mut next_seq).unwrap();

    let mut consumer = CommandConsumer::new(rx, &last_ack);
    consumer.drain_and_process(256, |_| {});
    consumer.ack_up_to(seq, &mut last_ack);

    assert!(
        producer.wait_for_ack_timeout(seq, std::time::Duration::from_secs(2), || last_ack),
        "an already-acknowledged sequence must return true immediately"
    );
}

#[test]
fn producer_without_consumer_returns_full_on_overflow() {
    let mut next_seq: u64 = 0;
    let (tx, _rx) = rtrb::RingBuffer::new(4);
    let mut producer = CommandProducer::new(tx);

    for i in 0..8 {
        let p = RtProcessingParams {
            input_gain_db: (i as f32).to_bits(),
            ..Default::default()
        };
        producer.push_params(p);
        let r = producer.force_flush(&mut next_seq);
        if i < 3 {
            assert!(r.is_ok(), "early pushes should succeed");
        }
    }

    let mut full_count = 0;
    for _ in 0..64 {
        let p = RtProcessingParams {
            input_gain_db: 99.0f32.to_bits(),
            ..Default::default()
        };
        producer.push_params(p);
        if producer.force_flush(&mut next_seq).is_err() {
            full_count += 1;
            break;
        }
    }
    assert!(
        full_count > 0,
        "SPSC should have returned Full after saturation"
    );
}

#[test]
fn try_push_command_returns_payload_on_full() {
    let mut next_seq: u64 = 0;
    let (tx, _rx) = rtrb::RingBuffer::new(4);
    let mut producer = CommandProducer::new(tx);

    // Saturate the ring with 4 non-coalescable commands.
    for _ in 0..4 {
        producer
            .push_command(ClapParamPayload::LoadCabIr { adapter: None }, &mut next_seq)
            .expect("first 4 pushes should succeed");
    }

    // The 5th push must fail and return the command back (fail-closed),
    // instead of dropping it.
    let err = producer
        .try_push_command(ClapParamPayload::LoadCabIr { adapter: None }, &mut next_seq)
        .expect_err("5th push must saturate the ring");
    assert!(
        matches!(err, (PushError::Full, ClapParamPayload::LoadCabIr { .. })),
        "try_push_command must return (Full, payload) so the caller can retain it"
    );

    // No sequence gap: only the 4 successful pushes may have consumed
    // sequence numbers, keeping the FIFO item↔sequence mapping gapless.
    assert_eq!(
        next_seq,
        4,
        "sequence counter must equal the number of successfully pushed items"
    );
}

#[test]
fn force_flush_full_retains_snapshot() {
    let mut next_seq: u64 = 0;
    let (tx, mut rx) = rtrb::RingBuffer::new(1);
    let mut producer = CommandProducer::new(tx);

    // First snapshot fills the capacity-1 ring.
    let p1 = RtProcessingParams {
        input_gain_db: 1.0f32.to_bits(),
        ..Default::default()
    };
    assert!(producer.push_params(p1));
    assert!(producer.force_flush(&mut next_seq).is_ok());

    // Second snapshot hits Full — and MUST be retained, not dropped.
    let p2 = RtProcessingParams {
        input_gain_db: 42.0f32.to_bits(),
        ..Default::default()
    };
    assert!(producer.push_params(p2));
    assert!(
        producer.force_flush(&mut next_seq).is_err(),
        "capacity-1 ring must report Full on second flush"
    );

    // Drain the ring, then retry — the retained 42.0 must arrive.
    let mut popped = rx.pop().expect("first snapshot must be present");
    assert!(matches!(popped, ClapParamPayload::Params(_)));

    let seq = producer
        .force_flush(&mut next_seq)
        .expect("retained snapshot must flush after the ring drains");
    assert!(seq > 0, "retained flush must consume a sequence number");

    popped = rx.pop().expect("retained snapshot must be delivered");
    match popped {
        ClapParamPayload::Params(p) => {
            assert_eq!(
                f32::from_bits(p.input_gain_db), 42.0,
                "latest parameter value must survive Full via retention"
            );
        }
        other => {
            let _ = other;
            panic!("expected Params payload, got a non-Params command");
        }
    }
}

#[test]
fn restore_txn_atomic_delivery_capacity_1() {
    let mut sched = CommandScheduler::with_capacity(1);
    let mut next_seq: u64 = 0;
    let mut last_ack: u64 = 0;
    let channels = sched.extract_producer_consumer().unwrap();
    let mut producer = CommandProducer::new(channels.cmd_tx);
    let mut consumer = CommandConsumer::new(channels.cmd_rx, &last_ack);

    // Two restores A→B. A fills the capacity-1 ring; B saturates (fail-closed:
    // the whole package is returned to the caller for retention).
    let txn_a = make_restore_txn(1, 1.0, 1.0);
    let txn_b = make_restore_txn(2, 2.0, 2.0);

    let seq_a = match producer.try_push_command(ClapParamPayload::RestoreTxn(txn_a), &mut next_seq) {
        Ok(seq) => seq,
        Err(_) => panic!("A must fill the empty ring"),
    };
    let retained_b = match producer.try_push_command(ClapParamPayload::RestoreTxn(txn_b), &mut next_seq) {
        Err((PushError::Full, ClapParamPayload::RestoreTxn(t))) => t,
        Ok(_) => panic!("expected Full but B fit the ring"),
        Err(_) => panic!("unexpected error pushing B"),
    };

    // Block 1: the audio thread applies exactly ONE complete package (A).
    let mut applied: Vec<(u64, f32, f32)> = Vec::new();
    let drained = consumer.drain_and_process(1, |p| {
        if let ClapParamPayload::RestoreTxn(t) = p {
            applied.push((
                t.generation,
                f32::from_bits(t.params.input_gain_db),
                t.model
                    .as_ref()
                    .map(|m| f32::from_bits(m.input_mult_adj))
                    .unwrap_or(0.0),
            ));
        }
    });
    assert_eq!(drained, 1, "exactly one command per block");
    consumer.ack_processed(&mut last_ack);
    assert!(producer.is_acked(seq_a, &last_ack), "A must be acked after its block");

    // Ring now has room: B (retained) is delivered whole.
    let seq_b = match producer.try_push_command(ClapParamPayload::RestoreTxn(retained_b), &mut next_seq) {
        Ok(seq) => seq,
        Err(_) => panic!("retained B must push after A drains"),
    };
    assert!(seq_b > seq_a, "B sequence must be strictly after A");

    // Block 2: the audio thread applies exactly ONE complete package (B).
    let drained = consumer.drain_and_process(1, |p| {
        if let ClapParamPayload::RestoreTxn(t) = p {
            applied.push((
                t.generation,
                f32::from_bits(t.params.input_gain_db),
                t.model
                    .as_ref()
                    .map(|m| f32::from_bits(m.input_mult_adj))
                    .unwrap_or(0.0),
            ));
        }
    });
    assert_eq!(drained, 1, "exactly one command per block");
    consumer.ack_processed(&mut last_ack);
    assert!(producer.is_acked(seq_b, &last_ack), "B must be acked after its block");

    // Every per-block snapshot is 100% A then 100% B — never a hybrid: model,
    // params and generation all come from the same transaction.
    assert_eq!(applied, vec![(1, 1.0, 1.0), (2, 2.0, 2.0)]);
}

#[test]
fn restore_txn_atomic_delivery_capacity_2() {
    let mut sched = CommandScheduler::with_capacity(2);
    let mut next_seq: u64 = 0;
    let mut last_ack: u64 = 0;
    let channels = sched.extract_producer_consumer().unwrap();
    let mut producer = CommandProducer::new(channels.cmd_tx);
    let mut consumer = CommandConsumer::new(channels.cmd_rx, &last_ack);

    // Two restores A→B fit the capacity-2 ring; a third C saturates and is
    // retained whole (fail-closed).
    let txn_a = make_restore_txn(1, 1.0, 1.0);
    let txn_b = make_restore_txn(2, 2.0, 2.0);
    let txn_c = make_restore_txn(3, 3.0, 3.0);

    let seq_a = match producer.try_push_command(ClapParamPayload::RestoreTxn(txn_a), &mut next_seq) {
        Ok(seq) => seq,
        Err(_) => panic!("A must fill the empty ring"),
    };
    let seq_b = match producer.try_push_command(ClapParamPayload::RestoreTxn(txn_b), &mut next_seq) {
        Ok(seq) => seq,
        Err(_) => panic!("B must fit the capacity-2 ring"),
    };
    assert!(seq_b > seq_a);

    let retained_c = match producer.try_push_command(ClapParamPayload::RestoreTxn(txn_c), &mut next_seq) {
        Err((PushError::Full, ClapParamPayload::RestoreTxn(t))) => t,
        Ok(_) => panic!("expected Full but C fit the ring"),
        Err(_) => panic!("unexpected error pushing C"),
    };

    // Each block applies exactly one complete package, in FIFO order.
    let mut snapshots: Vec<(u64, f32, f32)> = Vec::new();
    for _ in 0..2 {
        consumer.drain_and_process(1, |p| {
            if let ClapParamPayload::RestoreTxn(t) = p {
                snapshots.push((
                    t.generation,
                    f32::from_bits(t.params.input_gain_db),
                    t.model
                    .as_ref()
                    .map(|m| f32::from_bits(m.input_mult_adj))
                    .unwrap_or(0.0),
                ));
            }
        });
        consumer.ack_processed(&mut last_ack);
    }
    assert_eq!(snapshots, vec![(1, 1.0, 1.0), (2, 2.0, 2.0)]);

    // Retained C is delivered whole on the next block — still a complete package.
    let seq_c = match producer.try_push_command(ClapParamPayload::RestoreTxn(retained_c), &mut next_seq) {
        Ok(seq) => seq,
        Err(_) => panic!("retained C must push after the ring drains"),
    };
    consumer.drain_and_process(1, |p| {
        if let ClapParamPayload::RestoreTxn(t) = p {
            snapshots.push((
                t.generation,
                f32::from_bits(t.params.input_gain_db),
                t.model
                    .as_ref()
                    .map(|m| f32::from_bits(m.input_mult_adj))
                    .unwrap_or(0.0),
            ));
        }
    });
    consumer.ack_processed(&mut last_ack);
    assert!(producer.is_acked(seq_c, &last_ack));
    assert_eq!(snapshots, vec![(1, 1.0, 1.0), (2, 2.0, 2.0), (3, 3.0, 3.0)]);
}

#[test]
fn structural_classification_light_vs_heavy() {
    // Light: atomic parameter updates drain freely (no budget).
    let light = ClapParamPayload::Params(RtProcessingParams::default());
    assert!(!light.is_structural(), "Params is light, not structural");
    assert_eq!(
        light.structural_kind(),
        None,
        "Params has no structural kind"
    );

    // Heavy: every swap/restore payload is structural and budgeted.
    let heavy = [
        ClapParamPayload::LoadModel {
            generation: 0,
            model_l: None,
            new_resampler: ResamplerHandle { id: 1 },
            new_stream: StreamHandle { id: 2, latency_samples: 0 },
            input_mult_adj: 1.0f32.to_bits(),
            output_mult_adj: 1.0f32.to_bits(),
        },
        ClapParamPayload::LoadCabIr { adapter: None },
        ClapParamPayload::SetOversample {
            os_l: OversampleHandle {
                id: 3,
                factor: OversampleFactor::X2,
                latency_samples: 12,
            },
            os_r: OversampleHandle {
                id: 4,
                factor: OversampleFactor::X2,
                latency_samples: 12,
            },
        },
        ClapParamPayload::RestoreTxn(RestoreTxn {
            generation: 1,
            model: None,
            ir: None,
            params: RtProcessingParams::default(),
        }),
    ];
    for payload in &heavy {
        assert!(payload.is_structural(), "payload must be structural");
        assert!(
            payload.structural_kind().is_some(),
            "structural payload must carry a kind"
        );
    }

    // Restore is atomic and ack-gated — never coalescible.
    assert!(
        !StructuralKind::Restore.is_coalescible(),
        "RestoreTxn must always be applied atomically (never superseded)"
    );
    for kind in [
        StructuralKind::Model,
        StructuralKind::CabIr,
        StructuralKind::Oversample,
    ] {
        assert!(kind.is_coalescible(), "{kind:?} must be coalescible");
    }
}

#[test]
fn consumer_rollback_and_advance_pending_keep_ack_gapless() {
    let mut last_ack: u64 = 0;
    let (mut tx, rx) = rtrb::RingBuffer::new(16);
    let mut consumer = CommandConsumer::new(rx, &last_ack);

    for i in 0..3u32 {
        tx.push(ClapParamPayload::Params(RtProcessingParams {
            input_gain_db: (i as f32).to_bits(),
            ..Default::default()
        }))
        .unwrap();
    }

    // Pop two applied commands, then pop a third that will be DEFERRED
    // (structural budget). The deferral must not advance the ack.
    let _ = consumer.pop().unwrap();
    let _ = consumer.pop().unwrap();
    let _ = consumer.pop().unwrap();
    consumer.rollback_last_pop();
    consumer.ack_processed(&mut last_ack);
    assert_eq!(
        last_ack,
        2,
        "ack must cover only applied commands, never the deferred one"
    );

    // The deferred command reoccupies its sequence slot when applied at the
    // start of the next callback (advance_pending), keeping the mapping gapless.
    consumer.advance_pending();
    consumer.ack_processed(&mut last_ack);
    assert_eq!(
        last_ack,
        3,
        "advance_pending must restore the deferred command's sequence slot"
    );
}

#[test]
fn consumer_peek_does_not_consume() {
    let last_ack: u64 = 0;
    let (mut tx, rx) = rtrb::RingBuffer::new(16);
    let mut consumer = CommandConsumer::new(rx, &last_ack);

    tx.push(ClapParamPayload::LoadCabIr { adapter: None })
        .unwrap();

    // Peek returns the head without consuming it.
    let peeked = consumer.peek().expect("ring head must be visible");
    assert!(matches!(peeked, ClapParamPayload::LoadCabIr { .. }));
    assert_eq!(last_ack, 0, "peek must not advance ack");

    // The same command is still popped afterwards.
    let popped = consumer.pop().expect("peek must not consume");
    assert!(matches!(popped, ClapParamPayload::LoadCabIr { .. }));

    // Empty ring: peek returns None, pop returns None.
    assert!(consumer.peek().is_none());
    assert!(consumer.pop().is_none());
}

#[test]
fn scheduler_hands_its_ends_out_and_takes_them_back() {
    let mut sched = CommandScheduler::default();
    let channels = sched.extract_producer_consumer().expect("both ends are here");
    assert!(sched.extract_producer_consumer().is_none());
    let mut producer = CommandProducer::new(channels.cmd_tx);
    let mut consumer = CommandConsumer::new(channels.cmd_rx, &sched.cmd_last_ack);
    let seq = producer
        .push_command(
            ClapParamPayload::LoadCabIr { adapter: None },
            &mut sched.cmd_next_seq,
        )
        .unwrap();
    assert_eq!((seq, sched.cmd_next_seq), (1, 1));
    assert!(!producer.is_acked(seq, &sched.cmd_last_ack));
    assert!(matches!(
        consumer.pop(),
        Some(ClapParamPayload::LoadCabIr { adapter: None })
    ));
    consumer.ack_processed(&mut sched.cmd_last_ack);
    assert_eq!(sched.cmd_last_ack, seq);
    assert!(producer.is_acked(seq, &sched.cmd_last_ack));

    let mut other = CommandScheduler::with_capacity(1);
    assert_eq!((other.cmd_next_seq, other.cmd_last_ack), (0, 0));
    let channels = other.extract_producer_consumer().unwrap();
    other.restore_channels(channels.cmd_tx, channels.cmd_rx);
    assert!(other.extract_producer_consumer().is_some());
    // A lone reading end stays where it is.
    let (_tx, rx) = rtrb::RingBuffer::new(1);
    other.cmd_rx = Some(rx);
    assert!(other.extract_producer_consumer().is_none());
    assert!(other.cmd_rx.is_some());
}

#[test]
fn slots_of_the_rings_are_small() {
    assert!(std::mem::size_of::<ClapParamPayload>() < 1024);
    assert!(std::mem::size_of::<nam_plug::payload::SlimmableRebuild>() < 1024);
    assert!(std::mem::size_of::<nam_plug::payload::GcItem>() < 1024);
}

#[test]
fn numbering_goes_on_where_it_was_left() {
    let (mut next_seq, mut last_ack): (u64, u64) = (40, 40);
    let (tx, rx) = rtrb::RingBuffer::new(8);
    let mut producer = CommandProducer::new(tx);
    let mut consumer = CommandConsumer::new(rx, &last_ack);
    let clear = || ClapParamPayload::LoadCabIr { adapter: None };
    assert_eq!(producer.try_push_command(clear(), &mut next_seq), Ok(41));
    assert_eq!(producer.try_push_command(clear(), &mut next_seq), Ok(42));
    assert!(consumer.pop().is_some());
    assert!(consumer.pop().is_some());
    consumer.rollback_last_pop();
    consumer.ack_processed(&mut last_ack);
    assert_eq!(last_ack, 41);
    // The command that was put off is counted before the end is given back.
    consumer.advance_pending();
    consumer.ack_processed(&mut last_ack);
    let rx = consumer.into_inner();
    let mut next = CommandConsumer::new(rx, &last_ack);
    assert_eq!(producer.try_push_command(clear(), &mut next_seq), Ok(43));
    assert!(next.pop().is_some());
    next.ack_processed(&mut last_ack);
    assert_eq!(last_ack, 43);
    // Publishing again changes nothing.
    next.ack_processed(&mut last_ack);
    assert_eq!(last_ack, 43);
}

#[test]
fn run_of_parameters_takes_one_slot() {
    let mut next_seq: u64 = 0;
    let (tx, mut rx) = rtrb::RingBuffer::new(2);
    let mut producer = CommandProducer::new(tx);
    assert!(producer
        .try_push_command(ClapParamPayload::LoadCabIr { adapter: None }, &mut next_seq)
        .is_ok());
    let gain = |i: u32| RtProcessingParams {
        input_gain_db: i,
        ..Default::default()
    };
    for i in 0..1000 {
        assert_eq!(producer.push_params(gain(i)), i == 0);
    }
    // One slot is free, though as many items as there are slots will have been written.
    assert_eq!(producer.force_flush(&mut next_seq), Ok(2));
    assert!(rx.pop().is_ok());
    assert_eq!(rx.pop().ok(), Some(ClapParamPayload::Params(gain(999))));
    assert!(rx.pop().is_err());
    assert_eq!(producer.force_flush(&mut next_seq), Ok(0));
}

#[test]
fn exactly_what_was_dealt_with_is_acknowledged() {
    let (mut next_seq, mut last_ack): (u64, u64) = (0, 0);
    let (tx, rx) = rtrb::RingBuffer::new(8);
    let mut producer = CommandProducer::new(tx);
    let mut consumer = CommandConsumer::new(rx, &last_ack);
    let clear = || ClapParamPayload::LoadCabIr { adapter: None };
    let numbers: Vec<u64> = (0..6)
        .map(|_| producer.push_command(clear(), &mut next_seq).unwrap())
        .collect();
    assert_eq!(numbers, vec![1, 2, 3, 4, 5, 6]);
    let found = |last_ack: &u64| -> Vec<bool> {
        numbers
            .iter()
            .map(|n| producer.is_acked(*n, last_ack))
            .collect()
    };
    assert_eq!(consumer.drain_and_process(4, |_| {}), 4);
    assert_eq!(found(&last_ack), vec![false; 6]);
    // The last one is parked: it is not acknowledged, nor is what is still in the ring.
    consumer.rollback_last_pop();
    consumer.ack_processed(&mut last_ack);
    assert_eq!(producer.last_acked_seq(&last_ack), 3);
    assert_eq!(found(&last_ack), vec![true, true, true, false, false, false]);
    consumer.advance_pending();
    consumer.ack_processed(&mut last_ack);
    assert_eq!(found(&last_ack), vec![true, true, true, true, false, false]);
}

#[test]
fn producers_of_one_cell_share_its_numbers() {
    let mut next_seq: u64 = 0;
    let (tx, _rx) = rtrb::RingBuffer::new(2);
    let (other_tx, _other_rx) = rtrb::RingBuffer::new(2);
    let mut producer = CommandProducer::new(tx);
    let mut other = CommandProducer::new(other_tx);
    let clear = || ClapParamPayload::LoadCabIr { adapter: None };
    assert_eq!(producer.push_command(clear(), &mut next_seq), Ok(1));
    assert_eq!(other.push_command(clear(), &mut next_seq), Ok(2));
    assert_eq!(next_seq, 2);
    // A refused command takes no number.
    assert_eq!(producer.push_command(clear(), &mut next_seq), Ok(3));
    assert_eq!(
        producer.push_command(clear(), &mut next_seq),
        Err(PushError::Full)
    );
    assert_eq!(next_seq, 3);
}

#[test]
fn waiting_ends_with_the_reading_that_covers_the_number() {
    let (tx, _rx) = rtrb::RingBuffer::new(2);
    let producer = CommandProducer::new(tx);
    let mut readings: u64 = 0;
    assert!(producer.wait_for_ack(5, || {
        readings += 1;
        readings
    }));
    assert_eq!(readings, 5);
    let mut readings: u64 = 0;
    assert!(
        producer.wait_for_ack_timeout(3, std::time::Duration::from_secs(2), || {
            readings += 1;
            readings
        })
    );
    assert_eq!(readings, 3);
    // Number 0 was never given: nothing is waited for.
    assert!(producer.wait_for_ack(0, || 0));
    // An acknowledgment counts even at the deadline.
    let none = std::time::Duration::from_secs(0);
    assert!(producer.wait_for_ack_timeout(3, none, || 3));
    assert!(!producer.wait_for_ack_timeout(3, none, || 2));
}

#[test]
fn polling_stops_at_the_acknowledgment_or_the_deadline() {
    let mut time: u128 = 0;
    let mut clock = || {
        time += 10;
        time
    };
    assert_eq!(poll_for_ack(4, 35, || 3, &mut clock), AckWait::TimedOut);
    assert_eq!(time, 40);
    let mut number: u64 = 0;
    let end = poll_for_ack(
        4,
        1000,
        || {
            number += 2;
            number
        },
        || 999,
    );
    assert_eq!(end, AckWait::Acked);
    assert_eq!(number, 4);
}
