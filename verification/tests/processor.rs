//! The audio thread and the main thread together, block by block.

use nam_plug::activation::{
    build_cab_sim_from_raw_samples, check_built, plan_activation, ActivateRollbackGuard,
    AudioConfig, BuiltResources, CabSimBuild,
};
use nam_plug::command_scheduler::CommandProducer;
use nam_plug::events::{deal_with, gives_way, Dealing};
use nam_plug::gestures::GuiEventQueue;
use nam_plug::housekeeping::{record_drain, Rebuild};
use nam_plug::logging::emit_pending_logs;
use nam_plug::main_thread::{
    cabsim_partition, host_rate, BuiltModel, Delivery, HostRequest, IrLoad, IrSamples,
    LoadFailure, ModelLoad, NamClapMainThread,
};
use nam_plug::params::{
    ActivationPrecision, AdaptiveComputeMode, OversampleFactor, ProcessingParams,
    RtProcessingParams, SlimOverride, PARAM_INPUT_GAIN, PARAM_OVERSAMPLE,
};
use nam_plug::payload::{
    CabSimHandle, ClapParamPayload, GcItem, LoadModelPayload, ModelHandle, OversampleHandle,
    ResamplerHandle, RestoreTxn, SlimmableRebuild, StreamHandle, WaveNetShape,
};
use nam_plug::processor::{EventValue, NamClapProcessor, RtEffect};
use nam_plug::restore::{Flush, RestoreCommit, RestoreStep};
use nam_plug::schedule::{plan_block, HostEvent};
use nam_plug::shared::{
    GuiSharedState, ModelInfo, NamModelMetadata, PendingRestartOs, RestoreModelPublish,
    RestorePublish, RENDER_MODE_OFFLINE, RENDER_MODE_REALTIME,
};
use nam_plug::status::{
    RT_STATUS_NEEDS_OS_REBUILD, RT_STATUS_NEEDS_SLIMMABLE_REBUILD,
    RT_STATUS_SLIMMABLE_SLICE_FAILED, RT_STATUS_SPSC_DRAIN_TRUNCATED,
    RT_STATUS_STRUCTURAL_DEFERRED, RT_STATUS_STRUCTURAL_SUPERSEDED,
};

const N: u32 = 512;
const MAX_RESAMP_BUF: usize = 4096;

const OS_LATENCY_2X: u32 = 12;
const OS_LATENCY_4X: u32 = 24;

/// Latency of a stream between 44.1 and 48 kHz in these tests.
const STREAM_LATENCY_44K: u32 = 37;

fn config(max_frames: u32) -> AudioConfig {
    AudioConfig {
        sample_rate: 48000,
        max_frames_count: max_frames,
    }
}

fn stream_for(host: u32, model: u32) -> StreamHandle {
    StreamHandle {
        id: 100,
        latency_samples: if host == model { 0 } else { STREAM_LATENCY_44K },
    }
}

fn engine(factor: OversampleFactor, id: u64) -> OversampleHandle {
    OversampleHandle {
        id,
        factor,
        latency_samples: match factor {
            OversampleFactor::Off => 0,
            OversampleFactor::X2 => OS_LATENCY_2X,
            OversampleFactor::X4 => OS_LATENCY_4X,
        },
    }
}

/// A cab-sim for an IR of `ir_len` samples: its tail is as long.
fn make_adapter(ir_len: u32, partition: u32) -> CabSimHandle {
    CabSimHandle {
        id: ir_len as u64,
        latency_samples: partition,
        num_partitions: ir_len / partition,
        tail_samples: ir_len,
    }
}

fn blank_params() -> ProcessingParams {
    let p = RtProcessingParams::default();
    ProcessingParams {
        input_gain_db: p.input_gain_db,
        output_gain_db: p.output_gain_db,
        gate_threshold_db: p.gate_threshold_db,
        bypass: p.bypass,
        adaptive_compute: p.adaptive_compute,
        slim_override: p.slim_override,
        oversample: p.oversample,
        activation_precision: p.activation_precision,
        model_path: None,
        model_basename: None,
        model_search_paths: vec![],
        model_hash: None,
        ir_path: None,
        ir_hash: None,
    }
}

fn make_main_thread(
    shared: &mut GuiSharedState,
) -> NamClapMainThread {
    // A roomy ring, as the plug-in makes it.
    let (tx, rx) = rtrb::RingBuffer::new(256);
    shared.cold.param_tx = None;
    shared.cold.param_rx = Some(rx);
    shared.cold.sample_rate = 0;
    NamClapMainThread {
        params: blank_params(),
        cmd_producer: CommandProducer::new(tx),
        slimmable_tx: shared.cold.slimmable_tx.take().unwrap(),
        requests: vec![],
        last_reported_latency: 0,
        last_reported_cabsim_tail: 0,
        last_seen_slimmable_stale: 0,
        hugepage_synced: false,
        pending_restore: None,
        staged_restore: None,
        staged_swap: None,
    }
}

fn activate(
    shared: &mut GuiSharedState,
    mt: &mut NamClapMainThread,
    config: AudioConfig,
) -> NamClapProcessor<f32> {
    let guard = match ActivateRollbackGuard::extract(&mut shared.cold) {
        Ok(guard) => guard,
        Err(e) => panic!("extract: {e}"),
    };
    let plan = plan_activation(
        &guard,
        shared.cold.model_sample_rate,
        &shared.ui_to_rt,
        config,
        MAX_RESAMP_BUF,
    );
    let build = build_cab_sim_from_raw_samples(
        &shared.cold,
        config.max_frames_count as usize,
        config.sample_rate,
    );
    let expected = matches!(build, CabSimBuild::Build { convolve: true, .. });
    let ir_len = shared
        .cold
        .ir_raw_samples
        .as_ref()
        .map_or(0, |s| s.len() as u32);
    let built = BuiltResources {
        resampler: Some(ResamplerHandle { id: 1 }),
        stream: Some(stream_for(config.sample_rate, plan.model_rate)),
        cabsim: if expected {
            Some(make_adapter(ir_len, config.max_frames_count))
        } else {
            None
        },
        os: Some((engine(plan.os_factor, 10), engine(plan.os_factor, 11))),
    };
    let staged = mt.staged();
    assert_eq!(
        check_built(
            plan,
            guard.deactivated,
            built,
            expected,
            staged.restore.is_some()
        ),
        Ok(())
    );
    let processor = match NamClapProcessor::activate(
        shared, guard, plan, built, staged, config, 0.0f32,
    ) {
        Ok(p) => p,
        Err(e) => panic!("activate: {e}"),
    };
    if let Some(visible) = mt.take_staged() {
        mt.publish_restore(shared, visible);
    }
    if let Some(kept) = shared.cold.pending_model {
        let stream = stream_for(config.sample_rate, kept.model_rate);
        assert_eq!(
            mt.flush_pending_model(
                &mut shared.cold,
                Some(ResamplerHandle { id: 2 }),
                Some(stream),
                true
            ),
            Ok(Flush::Sent)
        );
    }
    processor
}

fn value(v: f32) -> EventValue {
    EventValue {
        bits: v.to_bits(),
        bypass: v >= 0.5,
        adaptive_compute: AdaptiveComputeMode::from_code(v as u32)
            .unwrap_or(AdaptiveComputeMode::Off),
        slim_override: SlimOverride::from_code(v as u32).unwrap_or(SlimOverride::Auto),
        oversample: OversampleFactor::from_code(v as u32).unwrap_or(OversampleFactor::Off),
        activation_precision: ActivationPrecision::from_code(v as u32)
            .unwrap_or(ActivationPrecision::Fast),
    }
}

fn process_block_with(
    shared: &mut GuiSharedState,
    processor: &mut NamClapProcessor<f32>,
    events: &[HostEvent],
) -> bool {
    let mut queue = GuiEventQueue::new(64);
    processor.process_events(shared, &mut queue, None);
    let before = PendingRestartOs::load(&shared.cold.pending_restart_os_factor);
    processor.schedule_events(shared, events);
    processor.prepare_block(shared);
    let mut plan = vec![];
    plan_block(
        &processor.scheduled_events,
        0,
        processor.max_frames_count,
        &mut plan,
    );
    for step in plan {
        processor.finish_sub_block(shared, step);
    }
    processor.end_block(shared, before)
}

fn process_block(shared: &mut GuiSharedState, processor: &mut NamClapProcessor<f32>) {
    process_block_with(shared, processor, &[]);
}

fn oversample_event(factor: OversampleFactor) -> HostEvent {
    HostEvent::ParamValue {
        time: 0,
        param_id: Some(PARAM_OVERSAMPLE),
        value: value(factor.code() as f32),
    }
}

fn restore_txn(generation: u64) -> RestoreTxn {
    RestoreTxn {
        generation,
        model: None,
        ir: None,
        params: RtProcessingParams::default(),
    }
}

fn lstm(id: u64) -> ModelHandle {
    ModelHandle { id, wavenet: None }
}

fn wavenet(id: u64) -> ModelHandle {
    ModelHandle {
        id,
        wavenet: Some(WaveNetShape {
            channels: 16,
            slimmable: true,
        }),
    }
}

fn info(name: &str, rate: u32) -> ModelInfo {
    ModelInfo {
        arch_label: "LSTM".to_string(),
        topology: "1x16".to_string(),
        channels: 16,
        receptive_field: 1,
        model_sample_rate: rate,
        weights_layout: "Plain".to_string(),
        path_basename: name.to_string(),
    }
}

fn model_load(cold_rate: u32, name: &str, rate: u32, model: ModelHandle) -> ModelLoad {
    ModelLoad {
        path: format!("/models/{name}"),
        basename: Some(name.to_string()),
        parent: Some("/models".to_string()),
        build: Some(BuiltModel {
            model: Some(model),
            sample_rate: rate,
            input_mult_adj: 1.5f32.to_bits(),
            output_mult_adj: 0.5f32.to_bits(),
            architecture: "LSTM".to_string(),
            topology: "1x16".to_string(),
            metadata: None,
            info: info(name, rate),
            full_wavenet: Some(model),
        }),
        probe_ok: true,
        hash: Some(format!("hash-of-{name}")),
        resampler: Some(ResamplerHandle { id: 20 }),
        resized: true,
        stream: Some(stream_for(cold_rate, rate)),
    }
}

fn load(
    shared: &mut GuiSharedState,
    mt: &mut NamClapMainThread,
    name: &str,
    rate: u32,
    model: ModelHandle,
) -> Delivery {
    let host = host_rate(&shared.cold);
    mt.load_model(&mut shared.cold, model_load(host, name, rate, model))
        .expect("load model")
}

fn ir_load(shared: &GuiSharedState, len: u32, name: &str) -> IrLoad {
    let partition = cabsim_partition(&shared.cold);
    IrLoad {
        path: format!("/irs/{name}.wav"),
        read: Some(IrSamples {
            samples: vec![0; len as usize],
            sample_rate: 48000,
        }),
        hash: Some(format!("hash-of-{name}")),
        engine_ok: true,
        adapter: Some(make_adapter(len, partition)),
    }
}

fn load_ir(
    shared: &mut GuiSharedState,
    mt: &mut NamClapMainThread,
    len: u32,
    name: &str,
) -> Delivery {
    let load = ir_load(shared, len, name);
    mt.load_cabsim(&mut shared.cold, load).expect("load IR")
}

fn restart_requested(mt: &NamClapMainThread) -> bool {
    mt.requests
        .iter()
        .any(|r| matches!(r, HostRequest::Restart))
}

fn latency_changes(mt: &NamClapMainThread) -> usize {
    mt.requests
        .iter()
        .filter(|r| matches!(r, HostRequest::LatencyChanged))
        .count()
}

fn retired(processor: &NamClapProcessor<f32>) -> Vec<GcItem> {
    processor
        .effects
        .iter()
        .filter_map(|e| match e {
            RtEffect::Retire(item) => Some(*item),
            _ => None,
        })
        .collect()
}

// ── Command budget ──────────────────────────────────────────────────────────

#[test]
fn test_deferred_structural_resolved_on_deactivate_ack_gapless() {
    let mut shared = GuiSharedState::new_test();
    let mut mt = make_main_thread(&mut shared);
    let mut processor = activate(&mut shared, &mut mt, config(N));

    // Push two structural commands; the first block applies #1 and defers #2.
    mt.cmd_producer
        .push_command(ClapParamPayload::LoadCabIr { adapter: None }, &mut shared.cold.cmd_next_seq)
        .expect("push #1 must succeed");
    mt.cmd_producer
        .push_command(ClapParamPayload::LoadCabIr { adapter: None }, &mut shared.cold.cmd_next_seq)
        .expect("push #2 must succeed");
    process_block(&mut shared, &mut processor);
    assert!(processor.deferred_structural.is_some());
    assert_eq!(shared.cold.cmd_last_ack, 1);

    // Deactivate with the deferred #2 still parked (never processed).
    processor.deactivate(&mut shared);
    assert_eq!(shared.cold.cmd_last_ack, 2);

    // Reactivate and push an ack-gated restore: it must apply and be acked.
    let mut processor = activate(&mut shared, &mut mt, config(N));
    let seq = mt
        .cmd_producer
        .push_command(ClapParamPayload::RestoreTxn(restore_txn(42)), &mut shared.cold.cmd_next_seq)
        .expect("restore push after reactivation must succeed");

    process_block(&mut shared, &mut processor);
    process_block(&mut shared, &mut processor);
    assert_eq!(
        shared.cold.last_applied_generation, 42,
        "the restore must apply after reactivation (ack gapless across the deferred drop)"
    );
    assert_eq!(seq, 3);
    assert!(mt.cmd_producer.is_acked(seq, &shared.cold.cmd_last_ack));
    assert!(mt.pending_restore.is_none());
}

#[test]
fn test_structural_budget_one_per_callback() {
    let mut shared = GuiSharedState::new_test();
    let mut mt = make_main_thread(&mut shared);
    let mut processor = activate(&mut shared, &mut mt, config(N));

    for generation in 1..=8u64 {
        mt.cmd_producer
            .push_command(ClapParamPayload::RestoreTxn(restore_txn(generation)), &mut shared.cold.cmd_next_seq)
            .expect("restore burst must fit the ring");
    }

    // One block per structural command: each callback applies exactly one generation,
    // strictly in FIFO order (a restore is never coalescible).
    for expected_gen in 1..=8u64 {
        process_block(&mut shared, &mut processor);
        assert_eq!(
            shared.cold.last_applied_generation, expected_gen,
            "exactly one structural command must be applied per callback, in order"
        );
    }

    assert_eq!(
        shared.cold.last_applied_generation, 8,
        "the full burst must be applied (no payload lost)"
    );
    assert_eq!(
        shared.cold.rt_status.structural_deferred_total, 7,
        "all excess structural commands must be deferred, never dropped"
    );
    assert!(
        shared
            .cold
            .rt_status
            .check_flag(RT_STATUS_STRUCTURAL_DEFERRED),
        "the flag must be set during a structural burst"
    );
    assert_eq!(shared.cold.cmd_last_ack, 8);
}

#[test]
fn test_structural_coalescing_supersedes_same_kind() {
    let mut shared = GuiSharedState::new_test();
    let mut mt = make_main_thread(&mut shared);
    let mut processor = activate(&mut shared, &mut mt, config(N));

    // Three distinct IRs: A (tail 512), B (tail 1024), C (tail 2048). A applies; B is
    // deferred; C supersedes B.
    for len in [512, 1024, 2048] {
        mt.cmd_producer
            .push_command(ClapParamPayload::LoadCabIr {
                adapter: Some(make_adapter(len, N)),
            }, &mut shared.cold.cmd_next_seq)
            .expect("IR push must succeed");
    }

    process_block(&mut shared, &mut processor);
    assert_eq!(
        shared.rt_to_ui.cabsim_tail_samples, 512,
        "block 1 must apply IR A"
    );
    assert_eq!(
        shared.cold.rt_status.structural_deferred_total, 1,
        "IR B must be deferred at block 1"
    );

    process_block(&mut shared, &mut processor);
    assert_eq!(
        shared.rt_to_ui.cabsim_tail_samples, 2048,
        "block 2 must apply IR C (latest wins): the intermediate IR B must be skipped"
    );
    assert_eq!(
        shared.cold.rt_status.structural_superseded_total, 1,
        "IR B must be counted as superseded"
    );
    assert!(
        shared
            .cold
            .rt_status
            .check_flag(RT_STATUS_STRUCTURAL_SUPERSEDED),
        "the flag must be set when a deferred command is superseded"
    );
    // The superseded adapter and the replaced one are disposed of off the audio thread.
    assert_eq!(
        retired(&processor),
        vec![
            GcItem::CabConvAdapter(make_adapter(1024, N)),
            GcItem::CabConvAdapter(make_adapter(512, N)),
        ]
    );
    record_drain(&mut shared.cold, 2);
    assert!(
        shared.cold.rt_status.drains >= 1,
        "the superseded adapter must reach the off-RT drain"
    );
    assert_eq!(shared.cold.cmd_last_ack, 3);
}

#[test]
fn test_spsc_drain_truncation_warning_emitted() {
    let mut shared = GuiSharedState::new_test();
    let mut mt = make_main_thread(&mut shared);

    // 70 commands before activation.
    for i in 0..70 {
        mt.cmd_producer
            .push_command(ClapParamPayload::Params(RtProcessingParams {
                input_gain_db: (i as f32 * 0.1).to_bits(),
                ..Default::default()
            }), &mut shared.cold.cmd_next_seq)
            .unwrap();
    }
    let mut processor = activate(&mut shared, &mut mt, config(N));
    process_block(&mut shared, &mut processor);

    assert!(
        shared
            .cold
            .rt_status
            .check_flag(RT_STATUS_SPSC_DRAIN_TRUNCATED),
        "flag should be set when the drain exceeds 64 items"
    );
    assert_eq!(shared.cold.cmd_last_ack, 64);
    assert_eq!(
        f32::from_bits(processor.params.input_gain_db),
        63.0f32 * 0.1
    );

    let lines = emit_pending_logs(&mut shared.cold);
    assert!(lines.iter().any(|l| l
        .text
        .contains("SPSC command queue drain limit reached (64 events) - pending events deferred")));

    process_block(&mut shared, &mut processor);
    assert_eq!(shared.cold.cmd_last_ack, 70);
    assert!(!shared
        .cold
        .rt_status
        .check_flag(RT_STATUS_SPSC_DRAIN_TRUNCATED));
}

// ── Slimmable rebuilds ──────────────────────────────────────────────────────

#[test]
fn test_stale_rebuild_discarded_and_valid_applied() {
    let mut shared = GuiSharedState::new_test();
    let mut mt = make_main_thread(&mut shared);

    // Loaded before the first activation: generation 1.
    assert_eq!(
        load(&mut shared, &mut mt, "wavenet_a1_standard.nam", 48000, wavenet(1)),
        Delivery::Deferred
    );
    let mut processor = activate(&mut shared, &mut mt, config(N));
    for _ in 0..8 {
        process_block(&mut shared, &mut processor);
    }
    let active_gen = shared.cold.model_generation;
    assert!(active_gen > 0, "a model generation must have been allocated");
    assert_eq!(processor.chain.model_generation, active_gen);
    assert_eq!(
        shared.cold.slimmable_stale_discarded_total, 0,
        "no rebuild should have been discarded yet"
    );
    processor.effects.clear();

    // Phase 1: a delivery of an older generation must be discarded.
    let stale_gen = active_gen.wrapping_sub(1);
    mt.slimmable_tx
        .push(SlimmableRebuild {
            generation: stale_gen,
            model: lstm(50),
        })
        .expect("slimmable push must succeed");
    process_block(&mut shared, &mut processor);
    assert_eq!(
        shared.cold.slimmable_stale_discarded_total, 1,
        "the stale rebuild must be counted as discarded"
    );
    assert_eq!(retired(&processor), vec![GcItem::Model(lstm(50))]);
    assert_eq!(processor.chain.model_l, Some(wavenet(1)));
    processor.effects.clear();

    // Phase 2: a matching delivery must install and retire the old model.
    mt.slimmable_tx
        .push(SlimmableRebuild {
            generation: active_gen,
            model: lstm(90),
        })
        .expect("slimmable push must succeed");
    process_block(&mut shared, &mut processor);
    assert_eq!(
        shared.cold.slimmable_stale_discarded_total, 1,
        "a valid rebuild must not be counted as stale"
    );
    assert_eq!(retired(&processor), vec![GcItem::Model(wavenet(1))]);
    assert_eq!(processor.chain.model_l, Some(lstm(90)));
}

#[test]
fn slimmable_rebuild_round_trip() {
    let mut shared = GuiSharedState::new_test();
    let mut mt = make_main_thread(&mut shared);
    load(&mut shared, &mut mt, "wavenet_a1_standard.nam", 48000, wavenet(1));
    let mut processor = activate(&mut shared, &mut mt, config(N));
    process_block(&mut shared, &mut processor);

    // Nothing was asked for.
    assert_eq!(mt.finish_slimmable(&mut shared.cold, None), Rebuild::Nothing);

    let mut queue = GuiEventQueue::new(0);
    processor.process_events(&mut shared, &mut queue, Some(8));
    assert!(shared
        .cold
        .rt_status
        .check_flag(RT_STATUS_NEEDS_SLIMMABLE_REBUILD));
    let work = nam_plug::housekeeping::slimmable_work(&shared.cold).expect("a slice is wanted");
    assert_eq!(
        (work.target_ch, work.generation, work.buffer_size, work.model),
        (8, 1, N, wavenet(1))
    );

    // A slice that fails settles the wish and is flagged.
    assert_eq!(mt.finish_slimmable(&mut shared.cold, None), Rebuild::Settled);
    assert!(shared
        .cold
        .rt_status
        .check_flag(RT_STATUS_SLIMMABLE_SLICE_FAILED));
    assert!(!shared
        .cold
        .rt_status
        .check_flag(RT_STATUS_NEEDS_SLIMMABLE_REBUILD));

    // Too few channels settle it, too.
    processor.process_events(&mut shared, &mut queue, Some(3));
    assert_eq!(nam_plug::housekeeping::slimmable_work(&shared.cold), None);
    assert_eq!(
        mt.finish_slimmable(&mut shared.cold, Some(wavenet(2))),
        Rebuild::Settled
    );

    // Four slices fill the ring; the fifth is tried again.
    for _ in 0..4 {
        processor.process_events(&mut shared, &mut queue, Some(8));
        // The processor drains what has arrived at the start of its next callback only.
        shared.cold.rt_status.set_flag(RT_STATUS_NEEDS_SLIMMABLE_REBUILD);
    }
    for i in 0..4 {
        shared.cold.rt_status.set_flag(RT_STATUS_NEEDS_SLIMMABLE_REBUILD);
        assert_eq!(
            mt.finish_slimmable(&mut shared.cold, Some(wavenet(30 + i))),
            Rebuild::Sent
        );
    }
    shared.cold.rt_status.set_flag(RT_STATUS_NEEDS_SLIMMABLE_REBUILD);
    mt.requests.clear();
    assert_eq!(
        mt.finish_slimmable(&mut shared.cold, Some(wavenet(34))),
        Rebuild::Retry
    );
    assert!(matches!(mt.requests[..], [HostRequest::Callback]));
    assert!(shared
        .cold
        .rt_status
        .check_flag(RT_STATUS_NEEDS_SLIMMABLE_REBUILD));

    processor.process_events(&mut shared, &mut queue, None);
    assert_eq!(processor.chain.model_l, Some(wavenet(33)));
}

// ── Oversampling and restarts ───────────────────────────────────────────────

#[test]
fn test_oversample_change_stores_pending_factor_when_active() {
    let mut shared = GuiSharedState::new_test();
    let mut mt = make_main_thread(&mut shared);
    let mut processor = activate(&mut shared, &mut mt, config(256));

    assert!(
        shared.cold.buffer_size > 0,
        "plugin should be active after start_processing"
    );
    assert_eq!(
        PendingRestartOs::load(&shared.cold.pending_restart_os_factor),
        PendingRestartOs::NotPending
    );

    let restart = process_block_with(
        &mut shared,
        &mut processor,
        &[oversample_event(OversampleFactor::X2)],
    );
    assert_eq!(
        PendingRestartOs::load(&shared.cold.pending_restart_os_factor),
        PendingRestartOs::Pending(OversampleFactor::X2),
        "pending restart factor should be stored for the requested oversampling"
    );
    assert!(restart);
    assert!(processor.effects.contains(&RtEffect::RequestRestart));
    assert!(
        !shared.cold.rt_status.check_flag(RT_STATUS_NEEDS_OS_REBUILD),
        "the rebuild flag should not be set for active oversample changes"
    );
}

#[test]
fn test_activate_clears_pending_restart_factor() {
    let mut shared = GuiSharedState::new_test();
    let mut mt = make_main_thread(&mut shared);

    PendingRestartOs::Pending(OversampleFactor::X2)
        .store(&mut shared.cold.pending_restart_os_factor);
    assert_ne!(
        PendingRestartOs::load(&shared.cold.pending_restart_os_factor),
        PendingRestartOs::NotPending
    );
    let processor = activate(&mut shared, &mut mt, config(256));
    assert_eq!(
        PendingRestartOs::load(&shared.cold.pending_restart_os_factor),
        PendingRestartOs::NotPending,
        "pending restart factor should be cleared after activate() consumes it"
    );
    assert_eq!(processor.chain.applied_os_factor, OversampleFactor::X2);
}

#[test]
fn test_oversample_requested_vs_applied_across_restart_cycle() {
    let mut shared = GuiSharedState::new_test();
    let mut mt = make_main_thread(&mut shared);
    let deactivated_factor =
        |shared: &GuiSharedState| shared.cold.deactivated_dsp.expect("kept state").os_factor;

    let processor = activate(&mut shared, &mut mt, config(256));
    let latency_off = shared.rt_to_ui.current_latency;
    processor.deactivate(&mut shared);

    let mut applied = OversampleFactor::Off;
    let mut applied_latency = latency_off;
    for (requested, latency) in [
        (OversampleFactor::X2, latency_off + OS_LATENCY_2X),
        (OversampleFactor::X4, latency_off + OS_LATENCY_4X),
        (OversampleFactor::Off, latency_off),
    ] {
        let mut processor = activate(&mut shared, &mut mt, config(256));
        assert_eq!(
            PendingRestartOs::load(&shared.cold.pending_restart_os_factor),
            PendingRestartOs::NotPending,
            "activate() must consume the pending restart"
        );
        assert_eq!(shared.rt_to_ui.current_latency, applied_latency);

        // The requested factor updates eagerly; engines and latency do not change yet.
        process_block_with(&mut shared, &mut processor, &[oversample_event(requested)]);
        assert_eq!(
            PendingRestartOs::load(&shared.cold.pending_restart_os_factor),
            PendingRestartOs::Pending(requested),
            "the request must be recorded as pending"
        );
        assert_eq!(
            OversampleFactor::from_code(shared.ui_to_rt.param_oversample),
            Some(requested),
            "requested factor must be visible to the UI/state"
        );
        assert_eq!(
            shared.rt_to_ui.current_latency, applied_latency,
            "latency must not change while the restart is pending"
        );

        processor.deactivate(&mut shared);
        assert_eq!(
            deactivated_factor(&shared),
            applied,
            "the persisted factor must be the applied one"
        );
        applied = requested;
        applied_latency = latency;
    }

    let processor = activate(&mut shared, &mut mt, config(256));
    assert_eq!(
        shared.rt_to_ui.current_latency, latency_off,
        "after restart back to Off the reported latency must drop to baseline"
    );
    processor.deactivate(&mut shared);
    assert_eq!(
        deactivated_factor(&shared),
        OversampleFactor::Off,
        "final cycle: deactivated engines run at Off"
    );
}

#[test]
fn test_oversample_coalescing_latest_wins_before_restart() {
    let mut shared = GuiSharedState::new_test();
    let mut mt = make_main_thread(&mut shared);
    let mut processor = activate(&mut shared, &mut mt, config(256));
    let latency_off = shared.rt_to_ui.current_latency;

    // Burst of clicks before the host restarts: X4 then back to Off.
    process_block_with(
        &mut shared,
        &mut processor,
        &[oversample_event(OversampleFactor::X4)],
    );
    process_block_with(
        &mut shared,
        &mut processor,
        &[oversample_event(OversampleFactor::Off)],
    );
    assert_eq!(
        PendingRestartOs::load(&shared.cold.pending_restart_os_factor),
        PendingRestartOs::Pending(OversampleFactor::Off),
        "last requested factor must prevail while the restart is pending"
    );
    assert_eq!(
        shared.rt_to_ui.current_latency, latency_off,
        "no latency change before the restart lands"
    );

    processor.deactivate(&mut shared);
    assert_eq!(
        shared.cold.deactivated_dsp.expect("kept state").os_factor,
        OversampleFactor::Off
    );

    let processor = activate(&mut shared, &mut mt, config(256));
    assert_eq!(
        PendingRestartOs::load(&shared.cold.pending_restart_os_factor),
        PendingRestartOs::NotPending,
        "activate() must consume the coalesced (Off) pending request"
    );
    assert_eq!(
        shared.rt_to_ui.current_latency, latency_off,
        "coalesced Off, X4, Off must not change the applied latency"
    );
    processor.deactivate(&mut shared);
}

#[test]
fn oversample_before_activation_is_rebuilt_by_the_main_thread() {
    let mut shared = GuiSharedState::new_test();
    let mut mt = make_main_thread(&mut shared);
    let mut processor = activate(&mut shared, &mut mt, config(256));
    shared.cold.buffer_size = 0;
    assert!(!process_block_with(
        &mut shared,
        &mut processor,
        &[oversample_event(OversampleFactor::X4)],
    ));
    assert!(shared.cold.rt_status.check_flag(RT_STATUS_NEEDS_OS_REBUILD));
    assert_eq!(
        nam_plug::housekeeping::oversample_work(&shared.cold),
        Some(OversampleFactor::X4)
    );
    // Engines that cannot be built settle the wish.
    let mut cold_copy = GuiSharedState::new_test();
    cold_copy.cold.rt_status = shared.cold.rt_status;
    assert_eq!(
        mt.finish_oversample(&mut cold_copy.cold, None),
        Rebuild::Settled
    );
    assert_eq!(
        mt.finish_oversample(
            &mut shared.cold,
            Some((engine(OversampleFactor::X4, 5), engine(OversampleFactor::X4, 6)))
        ),
        Rebuild::Sent
    );
    assert!(!shared.cold.rt_status.check_flag(RT_STATUS_NEEDS_OS_REBUILD));
    assert_eq!(mt.finish_oversample(&mut shared.cold, None), Rebuild::Nothing);
    process_block(&mut shared, &mut processor);
    assert_eq!(processor.chain.applied_os_factor, OversampleFactor::X4);
    assert_eq!(shared.rt_to_ui.current_latency, OS_LATENCY_4X);
}

#[test]
fn test_smoother_warm_reset_on_reactivate() {
    let mut shared = GuiSharedState::new_test();
    let mut mt = make_main_thread(&mut shared);
    let mut processor = activate(&mut shared, &mut mt, config(N));
    process_block_with(
        &mut shared,
        &mut processor,
        &[HostEvent::ParamValue {
            time: 0,
            param_id: Some(PARAM_INPUT_GAIN),
            value: value(-12.0),
        }],
    );
    assert!(processor.effects.contains(&RtEffect::SetInputGain {
        db: (-12.0f32).to_bits(),
        modulation: 0
    }));
    processor.deactivate(&mut shared);
    let processor = activate(&mut shared, &mut mt, config(N));
    assert_eq!(f32::from_bits(processor.params.input_gain_db), -12.0);
    assert_eq!(
        f32::from_bits(shared.ui_to_rt.param_input_gain),
        -12.0,
        "shared value should retain -12 dB across deactivate/activate cycle"
    );
}

// ── Latency policy ──────────────────────────────────────────────────────────

#[test]
fn test_model_swap_same_rate_is_continuous_no_restart() {
    let mut shared = GuiSharedState::new_test();
    let mut mt = make_main_thread(&mut shared);
    let mut processor = activate(&mut shared, &mut mt, config(256));

    assert_eq!(
        load(&mut shared, &mut mt, "lstm.nam", 48000, lstm(1)),
        Delivery::Sent
    );
    assert!(
        !restart_requested(&mt),
        "same-latency model swap must not request a host restart"
    );
    assert!(
        mt.staged_swap.is_none(),
        "same-latency model swap must not be staged"
    );
    assert_eq!(
        shared.cold.current_stream_latency, 0,
        "stream latency contribution must be unchanged (48k host == 48k model)"
    );

    process_block(&mut shared, &mut processor);
    processor.deactivate(&mut shared);
    let deact = shared.cold.deactivated_dsp.expect("kept state");
    assert_eq!(
        deact.model_generation, 1,
        "continuously-swapped model must be installed on the audio thread"
    );
    assert_eq!(shared.cold.model_load_counter, 1);
    assert_eq!(shared.cold.ui_model_name, "lstm.nam");
}

#[test]
fn test_model_swap_diff_rate_triggers_restart_and_stages() {
    let mut shared = GuiSharedState::new_test();
    let mut mt = make_main_thread(&mut shared);
    let mut processor = activate(&mut shared, &mut mt, config(256));

    load(&mut shared, &mut mt, "model_44100.nam", 44100, lstm(1));
    assert!(
        restart_requested(&mt),
        "latency-changing model swap must request a host restart"
    );
    assert!(
        mt.staged_swap.and_then(|s| s.model).is_some(),
        "latency-changing model swap must be staged"
    );
    assert_eq!(
        shared.rt_to_ui.current_latency, 0,
        "reported latency must not change while the restart is pending"
    );
    assert_eq!(
        shared.cold.current_stream_latency, 0,
        "the installed stream must be untouched while the restart is pending"
    );

    process_block(&mut shared, &mut processor);
    assert_eq!(
        shared.rt_to_ui.current_latency, 0,
        "processing must not apply the staged swap or change the latency"
    );
    assert_eq!(processor.chain.model_l, None);
}

#[test]
fn test_restart_cycle_applies_staged_model_and_latency() {
    let mut shared = GuiSharedState::new_test();
    let mut mt = make_main_thread(&mut shared);
    let processor = activate(&mut shared, &mut mt, config(256));

    load(&mut shared, &mut mt, "model_44100.nam", 44100, lstm(1));
    assert!(restart_requested(&mt));

    processor.deactivate(&mut shared);
    let mut processor = activate(&mut shared, &mut mt, config(256));
    assert_eq!(
        shared.cold.current_stream_latency, STREAM_LATENCY_44K,
        "activate() must install the staged stream and publish its latency"
    );
    assert_eq!(
        shared.rt_to_ui.current_latency, STREAM_LATENCY_44K,
        "reported latency must match the active filter chain after the restart"
    );
    assert!(
        mt.staged_swap.is_none(),
        "staged swap must be consumed by activate()"
    );

    process_block(&mut shared, &mut processor);
    processor.deactivate(&mut shared);
    assert_eq!(
        shared.cold.deactivated_dsp.expect("kept state").model_generation,
        1,
        "restart must install the staged 44.1k model on the audio thread"
    );
}

#[test]
fn test_ir_load_and_swap_policy() {
    let mut shared = GuiSharedState::new_test();
    let mut mt = make_main_thread(&mut shared);
    let processor = activate(&mut shared, &mut mt, config(256));

    // First IR load: 0 to partition, the latency changes.
    assert_eq!(
        load_ir(&mut shared, &mut mt, 512, "ir1"),
        Delivery::Staged
    );
    assert!(
        restart_requested(&mt),
        "first IR load must request a host restart (0 to partition latency)"
    );
    assert!(
        mt.staged_swap.and_then(|s| s.ir).is_some(),
        "first IR load must be staged"
    );
    assert_eq!(
        shared.cold.current_cabsim_latency, 0,
        "no IR must be installed while the restart is pending"
    );

    processor.deactivate(&mut shared);
    let mut processor = activate(&mut shared, &mut mt, config(256));
    assert_eq!(
        shared.cold.current_cabsim_latency, 256,
        "restart must install the staged IR adapter (partition = 256)"
    );
    assert_eq!(
        shared.rt_to_ui.current_latency, 256,
        "reported latency must include the cabsim partition after the restart"
    );

    // IR-for-IR swap: same partition, continuous.
    mt.requests.clear();
    assert_eq!(load_ir(&mut shared, &mut mt, 1024, "ir2"), Delivery::Sent);
    assert!(
        !restart_requested(&mt),
        "same-partition IR swap must not request a host restart"
    );
    assert!(
        mt.staged_swap.is_none(),
        "same-partition IR swap must not be staged"
    );
    assert_eq!(
        shared.cold.current_cabsim_latency, 256,
        "cabsim latency contribution is unchanged by an IR-for-IR swap"
    );

    for _ in 0..2 {
        process_block(&mut shared, &mut processor);
    }
    assert_eq!(
        shared.rt_to_ui.cabsim_tail_samples,
        4 * 256,
        "the 1024-sample IR must be installed (tail = partitions x partition)"
    );
}

#[test]
fn test_ir_clear_triggers_restart() {
    let mut shared = GuiSharedState::new_test();
    let mut mt = make_main_thread(&mut shared);
    let processor = activate(&mut shared, &mut mt, config(256));

    load_ir(&mut shared, &mut mt, 512, "clear");
    assert!(restart_requested(&mt));
    processor.deactivate(&mut shared);
    let processor = activate(&mut shared, &mut mt, config(256));
    assert_eq!(
        shared.cold.current_cabsim_latency, 256,
        "IR must be installed after the restart"
    );

    mt.requests.clear();
    shared.cold.ui_clear_ir = true;
    assert!(mt.clear_ir(&mut shared.cold));
    assert!(
        restart_requested(&mt),
        "IR clear must request a host restart (partition to 0 latency)"
    );
    assert_eq!(
        mt.staged_swap.and_then(|s| s.ir),
        Some(None),
        "IR clear must be staged as a clear (None)"
    );
    assert_eq!(
        shared.cold.current_cabsim_latency, 256,
        "the DSP must keep the IR while the restart is pending"
    );
    assert!(shared.cold.ir_path.is_none());
    assert!(shared.cold.ir_hash.is_none());

    processor.deactivate(&mut shared);
    let mut processor = activate(&mut shared, &mut mt, config(256));
    assert_eq!(
        shared.cold.current_cabsim_latency, 0,
        "restart must apply the staged IR clear"
    );
    assert_eq!(
        shared.rt_to_ui.current_latency, 0,
        "reported latency must drop to the non-IR baseline after the clear"
    );
    process_block(&mut shared, &mut processor);

    // Clearing without an IR is a no-op.
    mt.requests.clear();
    shared.cold.ui_clear_ir = true;
    assert!(!mt.clear_ir(&mut shared.cold));
    assert!(!shared.cold.ui_clear_ir);
    assert!(mt.requests.is_empty());
}

#[test]
fn test_same_latency_swap_supersedes_staged() {
    let mut shared = GuiSharedState::new_test();
    let mut mt = make_main_thread(&mut shared);
    let processor = activate(&mut shared, &mut mt, config(256));

    load(&mut shared, &mut mt, "model_44100.nam", 44100, lstm(1));
    assert!(restart_requested(&mt));
    assert!(mt.staged_swap.and_then(|s| s.model).is_some());

    load(&mut shared, &mut mt, "wavenet_a1_standard.nam", 48000, wavenet(2));
    assert!(
        mt.staged_swap.is_none(),
        "a same-latency load must supersede the staged latency-changing load"
    );
    assert_eq!(
        shared.cold.current_stream_latency, 0,
        "48k over 48k keeps zero stream latency"
    );

    processor.deactivate(&mut shared);
    let mut processor = activate(&mut shared, &mut mt, config(256));
    assert_eq!(
        shared.cold.current_stream_latency, 0,
        "restart must not apply the superseded 44.1k staged stream"
    );
    process_block(&mut shared, &mut processor);
    processor.deactivate(&mut shared);
    assert_eq!(
        shared.cold.deactivated_dsp.expect("kept state").model_generation,
        2,
        "the 48k model (second generation) must be the installed one"
    );
}

#[test]
fn test_latency_notification_ordering() {
    let mut shared = GuiSharedState::new_test();
    let mut mt = make_main_thread(&mut shared);
    let processor = activate(&mut shared, &mut mt, config(256));
    mt.report_changes(&shared);

    load(&mut shared, &mut mt, "model_44100.nam", 44100, lstm(1));
    mt.report_changes(&shared);
    assert!(
        restart_requested(&mt),
        "a restart must be requested when a latency-changing swap is staged"
    );
    assert_eq!(
        latency_changes(&mt),
        0,
        "no change of latency while the restart is pending"
    );

    processor.deactivate(&mut shared);
    let _processor = activate(&mut shared, &mut mt, config(256));
    assert_eq!(
        shared.rt_to_ui.current_latency, STREAM_LATENCY_44K,
        "activate() must publish the new physical latency"
    );

    mt.report_changes(&shared);
    mt.report_changes(&shared);
    assert_eq!(
        latency_changes(&mt),
        1,
        "exactly one change must be reported after the restart applies the latency"
    );
    let idx_restart = mt
        .requests
        .iter()
        .position(|r| matches!(r, HostRequest::Restart));
    let idx_changed = mt
        .requests
        .iter()
        .position(|r| matches!(r, HostRequest::LatencyChanged));
    assert!(idx_restart.unwrap() < idx_changed.unwrap());
}

// ── Restores ────────────────────────────────────────────────────────────────

/// What becomes visible of a restore with these parameters and a model of this rate. It clears
/// nothing.
fn publish(params: RtProcessingParams, model_rate: Option<u32>) -> RestorePublish {
    RestorePublish {
        mode_full: false,
        params: ProcessingParams {
            input_gain_db: params.input_gain_db,
            output_gain_db: params.output_gain_db,
            gate_threshold_db: params.gate_threshold_db,
            bypass: params.bypass,
            adaptive_compute: params.adaptive_compute,
            slim_override: params.slim_override,
            oversample: params.oversample,
            activation_precision: params.activation_precision,
            ..blank_params()
        },
        model: model_rate.map(|rate| RestoreModelPublish {
            metadata: NamModelMetadata {
                architecture: "LSTM".to_string(),
                topology: "1x16".to_string(),
                sample_rate: rate,
                modeled_by: None,
                gear_make: None,
                gear_model: None,
                gear_type: None,
                tone_type: None,
                date: None,
            },
            info: info("restored.nam", rate),
            full_wavenet: None,
            model_rate: rate,
        }),
        model_path_on_disk: model_rate.map(|_| "/models/restored.nam".to_string()),
        model_basename: model_rate.map(|_| "restored.nam".to_string()),
        model_hash: model_rate.map(|_| "hash-of-restored".to_string()),
        model_search_path_to_add: model_rate.map(|_| "/models".to_string()),
        ir_path_on_disk: None,
        ir_hash: None,
        ir_raw_samples: None,
        ir_raw_sample_rate: 0,
    }
}

fn restore_model(shared: &mut GuiSharedState, rate: u32, id: u64) -> LoadModelPayload {
    LoadModelPayload {
        generation: shared.cold.allocate_model_generation(),
        model_l: Some(lstm(id)),
        new_resampler: ResamplerHandle { id: 40 },
        new_stream: stream_for(host_rate(&shared.cold), rate),
        input_mult_adj: 1.0f32.to_bits(),
        output_mult_adj: 1.0f32.to_bits(),
    }
}

fn params_with_gain(gain: f32) -> RtProcessingParams {
    RtProcessingParams {
        input_gain_db: gain.to_bits(),
        ..Default::default()
    }
}

#[test]
fn test_restore_same_latency_is_continuous_no_restart() {
    let mut shared = GuiSharedState::new_test();
    let mut mt = make_main_thread(&mut shared);
    let mut processor = activate(&mut shared, &mut mt, config(256));

    let initial_gen = shared.cold.last_applied_generation;
    let model = restore_model(&mut shared, 48000, 1);
    let txn = RestoreTxn {
        generation: initial_gen + 1,
        model: Some(model),
        ir: None,
        params: params_with_gain(3.5),
    };
    let commit = mt.commit_restore(&mut shared, txn, publish(txn.params, Some(48000)));
    assert!(matches!(commit, RestoreCommit::Queued));
    assert!(
        !restart_requested(&mt),
        "same-latency restore must not request a host restart"
    );
    assert!(
        mt.staged_restore.is_none(),
        "same-latency restore must not be staged"
    );

    assert!(matches!(
        mt.flush_pending_restore(&mut shared.cold),
        RestoreStep::Sent
    ));
    assert!(matches!(
        mt.flush_pending_restore(&mut shared.cold),
        RestoreStep::Waiting
    ));
    process_block(&mut shared, &mut processor);
    match mt.flush_pending_restore(&mut shared.cold) {
        RestoreStep::Publish(visible) => mt.publish_restore(&mut shared, visible),
        other => panic!("expected the restore to become visible, got {other:?}"),
    }
    assert!(mt.pending_restore.is_none());
    assert!(
        shared.cold.last_applied_generation > initial_gen,
        "restore transaction generation must be applied on the audio thread"
    );
    assert_eq!(f32::from_bits(processor.params.input_gain_db), 3.5);
    assert_eq!(processor.chain.model_l, Some(lstm(1)));
    assert_eq!(
        f32::from_bits(shared.ui_to_rt.param_input_gain),
        3.5,
        "UI params must be published after ack"
    );
    assert_eq!(shared.cold.ui_model_name, "restored.nam");
    assert_eq!(mt.params.model_path.as_deref(), Some("/models/restored.nam"));
    assert!(matches!(
        mt.flush_pending_restore(&mut shared.cold),
        RestoreStep::Idle
    ));
}

#[test]
fn test_restore_diff_rate_stages_and_requests_restart() {
    let mut shared = GuiSharedState::new_test();
    let mut mt = make_main_thread(&mut shared);
    let mut processor = activate(&mut shared, &mut mt, config(256));

    let initial_gen = shared.cold.last_applied_generation;
    let model = restore_model(&mut shared, 44100, 1);
    let txn = RestoreTxn {
        generation: initial_gen + 1,
        model: Some(model),
        ir: None,
        params: params_with_gain(4.5),
    };
    mt.commit_restore(&mut shared, txn, publish(txn.params, Some(44100)));
    assert!(
        restart_requested(&mt),
        "diff-rate restore must request a host restart"
    );
    assert!(
        mt.staged_restore.is_some(),
        "diff-rate restore must be staged"
    );
    assert_eq!(
        shared.rt_to_ui.current_latency, 0,
        "reported latency must remain old while restart is pending"
    );
    assert_eq!(
        shared.cold.current_stream_latency, 0,
        "active stream latency must remain untouched before restart"
    );

    process_block(&mut shared, &mut processor);
    assert_eq!(
        shared.cold.last_applied_generation, initial_gen,
        "audio processing must not apply the staged restore"
    );

    processor.deactivate(&mut shared);
    let _processor = activate(&mut shared, &mut mt, config(256));
    assert_eq!(
        shared.cold.current_stream_latency, STREAM_LATENCY_44K,
        "activate() must install the staged stream and set stream latency"
    );
    assert_eq!(
        shared.rt_to_ui.current_latency, STREAM_LATENCY_44K,
        "reported latency must match new physical latency after restart"
    );
    assert!(
        shared.cold.last_applied_generation > initial_gen,
        "generation must advance after restart installs restore"
    );
    assert_eq!(
        f32::from_bits(shared.ui_to_rt.param_input_gain),
        4.5,
        "parameters from restore must be published after restart"
    );
}

#[test]
fn test_restore_ir_stages_and_requests_restart() {
    let mut shared = GuiSharedState::new_test();
    let mut mt = make_main_thread(&mut shared);
    let processor = activate(&mut shared, &mut mt, config(256));

    let txn = RestoreTxn {
        generation: 1,
        model: None,
        ir: Some(Some(make_adapter(512, 256))),
        params: RtProcessingParams::default(),
    };
    mt.commit_restore(&mut shared, txn, publish(txn.params, None));
    assert!(
        restart_requested(&mt),
        "first IR restore (0 to 256) must request restart"
    );
    assert!(
        mt.staged_restore.is_some(),
        "first IR restore must be staged"
    );

    processor.deactivate(&mut shared);
    let processor = activate(&mut shared, &mut mt, config(256));
    assert_eq!(
        shared.cold.current_cabsim_latency, 256,
        "restart must install the restored IR adapter"
    );
    assert_eq!(
        shared.rt_to_ui.current_latency, 256,
        "reported latency must include cabsim partition after restart"
    );

    // Clear IR via restore.
    mt.requests.clear();
    let txn = RestoreTxn {
        generation: 2,
        model: None,
        ir: Some(None),
        params: RtProcessingParams::default(),
    };
    mt.commit_restore(&mut shared, txn, publish(txn.params, None));
    assert!(
        restart_requested(&mt),
        "IR clear restore (256 to 0) must request restart"
    );
    processor.deactivate(&mut shared);
    let _processor = activate(&mut shared, &mut mt, config(256));
    assert_eq!(
        shared.cold.current_cabsim_latency, 0,
        "restart must clear cabsim latency"
    );
    assert_eq!(
        shared.rt_to_ui.current_latency, 0,
        "reported latency must drop back to 0 after IR clear restore"
    );
}

#[test]
fn test_restore_coalescing_latest_wins() {
    let mut shared = GuiSharedState::new_test();
    let mut mt = make_main_thread(&mut shared);
    let processor = activate(&mut shared, &mut mt, config(256));

    let model = restore_model(&mut shared, 44100, 1);
    let txn = RestoreTxn {
        generation: 1,
        model: Some(model),
        ir: None,
        params: params_with_gain(1.0),
    };
    mt.commit_restore(&mut shared, txn, publish(txn.params, Some(44100)));
    assert!(restart_requested(&mt));
    assert!(mt.staged_restore.is_some());

    let model = restore_model(&mut shared, 48000, 2);
    let txn = RestoreTxn {
        generation: 2,
        model: Some(model),
        ir: None,
        params: params_with_gain(2.0),
    };
    mt.commit_restore(&mut shared, txn, publish(txn.params, Some(48000)));
    assert!(
        mt.staged_restore.is_none(),
        "second same-rate restore must supersede the staged restore"
    );
    mt.flush_pending_restore(&mut shared.cold);

    processor.deactivate(&mut shared);
    let mut processor = activate(&mut shared, &mut mt, config(256));
    assert_eq!(
        shared.cold.current_stream_latency, 0,
        "restart must not install the superseded 44.1k model"
    );
    process_block(&mut shared, &mut processor);
    processor.deactivate(&mut shared);
    assert_eq!(
        shared.cold.deactivated_dsp.expect("kept state").model_generation,
        2,
        "generation 2 must be installed"
    );
}

#[test]
fn test_restore_combined_model_and_oversample_single_restart() {
    let mut shared = GuiSharedState::new_test();
    let mut mt = make_main_thread(&mut shared);
    let processor = activate(&mut shared, &mut mt, config(256));

    let model = restore_model(&mut shared, 44100, 1);
    let txn = RestoreTxn {
        generation: 1,
        model: Some(model),
        ir: None,
        params: RtProcessingParams {
            oversample: OversampleFactor::X2,
            ..Default::default()
        },
    };
    mt.commit_restore(&mut shared, txn, publish(txn.params, Some(44100)));
    assert_eq!(
        mt.requests
            .iter()
            .filter(|r| matches!(r, HostRequest::Restart))
            .count(),
        1,
        "combined model + OS change must request a single restart"
    );
    assert!(mt.staged_restore.is_some());
    assert_eq!(
        PendingRestartOs::load(&shared.cold.pending_restart_os_factor),
        PendingRestartOs::Pending(OversampleFactor::X2)
    );

    processor.deactivate(&mut shared);
    let _processor = activate(&mut shared, &mut mt, config(256));
    assert_eq!(shared.cold.current_stream_latency, STREAM_LATENCY_44K);
    assert_eq!(
        shared.rt_to_ui.current_latency,
        STREAM_LATENCY_44K + OS_LATENCY_2X,
        "combined restore + OS must report sum of stream and OS latency"
    );
}

#[test]
fn test_restore_pre_activate_remains_local_commit() {
    let mut shared = GuiSharedState::new_test();
    let mut mt = make_main_thread(&mut shared);

    let model = restore_model(&mut shared, 44100, 1);
    let txn = RestoreTxn {
        generation: 1,
        model: Some(model),
        ir: None,
        params: params_with_gain(6.0),
    };
    let commit = mt.commit_restore(&mut shared, txn, publish(txn.params, Some(44100)));
    assert!(matches!(commit, RestoreCommit::Local));
    assert_eq!(shared.cold.model_sample_rate, 44100);
    assert_eq!(f32::from_bits(shared.ui_to_rt.param_input_gain), 6.0);
    assert!(
        !restart_requested(&mt),
        "pre-activate restore must not request a restart"
    );
    assert!(
        mt.staged_restore.is_none(),
        "pre-activate restore must not be staged"
    );

    let _processor = activate(&mut shared, &mut mt, config(256));
    assert_eq!(
        shared.cold.current_stream_latency, STREAM_LATENCY_44K,
        "activate must install the restored 44.1k model with resampler"
    );
    assert_eq!(shared.rt_to_ui.current_latency, STREAM_LATENCY_44K);
}

#[test]
fn test_restore_for_preset_without_model_preserves_active_model() {
    let mut shared = GuiSharedState::new_test();
    let mut mt = make_main_thread(&mut shared);
    let mut processor = activate(&mut shared, &mut mt, config(256));

    load(&mut shared, &mut mt, "lstm.nam", 48000, lstm(1));
    process_block(&mut shared, &mut processor);

    let txn = RestoreTxn {
        generation: 1,
        model: None,
        ir: Some(Some(make_adapter(512, 256))),
        params: params_with_gain(7.0),
    };
    mt.commit_restore(&mut shared, txn, publish(txn.params, None));
    assert!(
        restart_requested(&mt),
        "preset restore adding an IR must request a restart"
    );

    processor.deactivate(&mut shared);
    let processor = activate(&mut shared, &mut mt, config(256));
    assert_eq!(
        shared.cold.current_cabsim_latency, 256,
        "restart must install cabsim adapter"
    );
    processor.deactivate(&mut shared);
    assert_eq!(
        shared.cold.deactivated_dsp.expect("kept state").model_generation,
        1,
        "existing model generation 1 must be preserved during a preset restore"
    );
}

// ── Reset and render mode ───────────────────────────────────────────────────

#[test]
fn reset_forgets_the_dry_signal_and_keeps_the_configuration() {
    let mut shared = GuiSharedState::new_test();
    let mut mt = make_main_thread(&mut shared);
    load_ir(&mut shared, &mut mt, 8192, "decay");
    let mut processor = activate(&mut shared, &mut mt, config(256));
    assert_eq!(shared.rt_to_ui.current_latency, 256);
    assert_eq!(shared.rt_to_ui.cabsim_tail_samples, 8192);

    let mut impulse = [0.0f32; 256];
    impulse[0] = 1.0;
    let silence = [0.0f32; 256];
    let mut out_l = [9.0f32; 256];
    let mut out_r = [9.0f32; 256];
    processor
        .dry_delay
        .process_block(&impulse, &impulse, &mut out_l, &mut out_r, 256);
    assert_eq!(out_l, silence);
    // The delayed dry signal is aligned with the declared latency.
    processor
        .dry_delay
        .process_block(&impulse, &silence, &mut out_l, &mut out_r, 256);
    assert_eq!(out_l, impulse);
    assert_eq!(out_r, impulse);

    let chain = processor.chain;
    processor.reset();
    processor
        .dry_delay
        .process_block(&silence, &silence, &mut out_l, &mut out_r, 256);
    assert_eq!(out_l, silence, "no tail may replay after a reset");
    assert_eq!(processor.chain, chain);
    assert_eq!(processor.effects.last(), Some(&RtEffect::ResetDsp));
    assert!(!processor.effects.contains(&RtEffect::RequestRestart));
    assert_eq!(shared.rt_to_ui.current_latency, 256);
}

#[test]
fn offline_rendering_runs_at_full_quality_and_back() {
    let mut shared = GuiSharedState::new_test();
    let mut mt = make_main_thread(&mut shared);
    let mut processor = activate(&mut shared, &mut mt, config(N));
    shared.ui_to_rt.param_activation = 0;
    shared.ui_to_rt.param_adaptive_compute = 2;
    shared.bump_generation();
    process_block(&mut shared, &mut processor);
    assert_eq!(processor.last_seen_generation, 1);
    assert_eq!(
        processor.params.activation_precision,
        ActivationPrecision::Fast
    );
    assert_eq!(processor.adaptive_mode, AdaptiveComputeMode::Aggressive);

    shared.cold.render_mode = RENDER_MODE_OFFLINE;
    process_block(&mut shared, &mut processor);
    assert_eq!(processor.adaptive_mode, AdaptiveComputeMode::Off);
    assert_eq!(
        processor.params.activation_precision,
        ActivationPrecision::Standard
    );
    // A change of the GUI while offline does not bring adaptive compute back.
    shared.bump_generation();
    process_block(&mut shared, &mut processor);
    assert_eq!(processor.adaptive_mode, AdaptiveComputeMode::Off);

    shared.cold.render_mode = RENDER_MODE_REALTIME;
    process_block(&mut shared, &mut processor);
    assert_eq!(processor.adaptive_mode, AdaptiveComputeMode::Aggressive);
    assert_eq!(
        processor.params.activation_precision,
        ActivationPrecision::Fast
    );
}

// ── Loading ─────────────────────────────────────────────────────────────────

#[test]
fn full_ring_retains_the_model_for_retry() {
    let mut shared = GuiSharedState::new_test();
    let mut mt = make_main_thread(&mut shared);
    let mut processor = activate(&mut shared, &mut mt, config(N));
    for _ in 0..256 {
        mt.cmd_producer
            .push_command(ClapParamPayload::Params(RtProcessingParams::default()), &mut shared.cold.cmd_next_seq)
            .unwrap();
    }
    mt.requests.clear();
    assert_eq!(
        load(&mut shared, &mut mt, "lstm.nam", 48000, lstm(7)),
        Delivery::Retained
    );
    assert!(matches!(mt.requests[..], [HostRequest::Callback]));
    assert_eq!(shared.cold.model_load_counter, 0);
    assert_eq!(shared.cold.ui_model_name, "");
    let kept = shared.cold.pending_model.expect("kept for retry");
    assert_eq!((kept.generation, kept.model), (1, Some(lstm(7))));

    // Still full.
    assert_eq!(
        mt.flush_pending_model(
            &mut shared.cold,
            Some(ResamplerHandle { id: 3 }),
            Some(stream_for(48000, 48000)),
            true
        ),
        Ok(Flush::Retained)
    );
    assert_eq!(
        load_ir(&mut shared, &mut mt, 512, "first"),
        Delivery::Staged
    );

    for _ in 0..5 {
        process_block(&mut shared, &mut processor);
    }
    assert_eq!(
        mt.flush_pending_model(
            &mut shared.cold,
            Some(ResamplerHandle { id: 3 }),
            Some(stream_for(48000, 48000)),
            true
        ),
        Ok(Flush::Sent)
    );
    process_block(&mut shared, &mut processor);
    assert_eq!(processor.chain.model_l, Some(lstm(7)));
    assert_eq!(
        mt.flush_pending_model(&mut shared.cold, None, None, false),
        Ok(Flush::Nothing)
    );
}

#[test]
fn every_failure_of_a_load_is_told_apart() {
    let mut shared = GuiSharedState::new_test();
    let mut mt = make_main_thread(&mut shared);
    let _processor = activate(&mut shared, &mut mt, config(N));
    let fresh = || model_load(48000, "lstm.nam", 48000, lstm(1));
    let cold = &mut shared.cold;

    let mut l = fresh();
    l.build = None;
    assert_eq!(mt.load_model(cold, l), Err(LoadFailure::ModelBuild));
    let mut l = fresh();
    l.build.as_mut().unwrap().model = None;
    assert_eq!(mt.load_model(cold, l), Err(LoadFailure::ModelMissing));
    let mut l = fresh();
    l.probe_ok = false;
    assert_eq!(mt.load_model(cold, l), Err(LoadFailure::ResamplerProbe));
    assert_eq!(mt.params.model_path, None);
    assert_eq!(cold.model_generation, 0);

    let mut l = fresh();
    l.hash = None;
    assert_eq!(mt.load_model(cold, l), Err(LoadFailure::ModelHash));
    assert_eq!(mt.params.model_path, None);
    assert_eq!(mt.params.model_basename, None);
    assert!(mt.params.model_search_paths.is_empty());
    assert_eq!(mt.params.model_hash, None);
    assert_eq!(cold.model_generation, 0);

    let mut l = fresh();
    l.resampler = None;
    assert_eq!(mt.load_model(cold, l), Err(LoadFailure::Resampler));
    assert_eq!(mt.params.model_path.as_deref(), Some("/models/lstm.nam"));
    assert_eq!(cold.model_generation, 1);
    let mut l = fresh();
    l.resized = false;
    assert_eq!(mt.load_model(cold, l), Err(LoadFailure::ModelResize));
    let mut l = fresh();
    l.stream = None;
    assert_eq!(mt.load_model(cold, l), Err(LoadFailure::Stream));
    assert_eq!(cold.model_load_counter, 0);
    assert_eq!(mt.params.model_search_paths, vec!["/models".to_string()]);
    assert_eq!(mt.params.model_hash.as_deref(), Some("hash-of-lstm.nam"));

    let ir = || IrLoad {
        path: "/irs/a.wav".to_string(),
        read: Some(IrSamples {
            samples: vec![0; 512],
            sample_rate: 48000,
        }),
        hash: Some("h".to_string()),
        engine_ok: true,
        adapter: Some(make_adapter(512, N)),
    };
    let mut l = ir();
    l.read = None;
    assert_eq!(mt.load_cabsim(cold, l), Err(LoadFailure::IrRead));
    let mut l = ir();
    l.hash = None;
    assert_eq!(mt.load_cabsim(cold, l), Err(LoadFailure::IrHash));
    let mut l = ir();
    l.engine_ok = false;
    assert_eq!(mt.load_cabsim(cold, l), Err(LoadFailure::IrEngine));
    let mut l = ir();
    l.adapter = None;
    assert_eq!(mt.load_cabsim(cold, l), Err(LoadFailure::IrAdapter));
    assert!(cold.ir_path.is_none());

    assert_eq!(
        mt.clear_model(cold, None, None),
        Err(LoadFailure::Resampler)
    );
    assert_eq!(
        mt.clear_model(cold, Some(ResamplerHandle { id: 1 }), None),
        Err(LoadFailure::Stream)
    );
}

#[test]
fn clearing_the_model() {
    let mut shared = GuiSharedState::new_test();
    let mut mt = make_main_thread(&mut shared);
    let mut processor = activate(&mut shared, &mut mt, config(N));
    load(&mut shared, &mut mt, "wavenet.nam", 48000, wavenet(1));
    process_block(&mut shared, &mut processor);
    assert_eq!(shared.cold.full_wavenet_model, Some(wavenet(1)));
    assert_eq!(
        mt.clear_model(
            &mut shared.cold,
            Some(ResamplerHandle { id: 8 }),
            Some(stream_for(48000, 48000))
        ),
        Ok(Delivery::Sent)
    );
    process_block(&mut shared, &mut processor);
    assert_eq!(processor.chain.model_l, None);
    assert_eq!(processor.chain.model_generation, 2);
    assert_eq!(shared.cold.model_sample_rate, 0);
    assert_eq!(shared.cold.ui_model_name, "");
    assert_eq!(shared.cold.full_wavenet_model, None);
    assert_eq!(shared.cold.model_load_counter, 2);
    assert_eq!(mt.params.model_path, None);
    assert!(shared.cold.ui_model_metadata.is_none());
}

#[test]
fn in_flight_params_are_tried_again() {
    let mut shared = GuiSharedState::new_test();
    let (tx, mut rx) = rtrb::RingBuffer::new(1);
    let mut mt = make_main_thread(&mut shared);
    mt.cmd_producer = CommandProducer::new(tx);
    mt.cmd_producer
        .push_command(ClapParamPayload::LoadCabIr { adapter: None }, &mut shared.cold.cmd_next_seq)
        .unwrap();

    shared.cold.in_flight_params = Some(params_with_gain(9.0));
    mt.flush_in_flight_params(&mut shared);
    assert_eq!(shared.cold.in_flight_params, Some(params_with_gain(9.0)));
    assert_eq!(shared.ui_to_rt.gui_param_generation, 1);

    rx.pop().unwrap();
    mt.flush_in_flight_params(&mut shared);
    assert_eq!(shared.cold.in_flight_params, None);
    assert_eq!(
        rx.pop().ok(),
        Some(ClapParamPayload::Params(params_with_gain(9.0)))
    );
    assert_eq!(shared.ui_to_rt.gui_param_generation, 1);
}

#[test]
fn snapshot_keeps_digest_beside_path() {
    let mut shared = GuiSharedState::new_test();
    let mut mt = make_main_thread(&mut shared);
    shared.ui_to_rt.param_input_gain = 2.5f32.to_bits();
    shared.ui_to_rt.param_bypass = 1;
    shared.ui_to_rt.param_oversample = 2;
    shared.cold.ir_path = Some("/irs/a.wav".to_string());
    shared.cold.ir_hash = Some("abc".to_string());
    mt.snapshot_params(&shared);
    assert_eq!(f32::from_bits(mt.params.input_gain_db), 2.5);
    assert!(mt.params.bypass);
    assert_eq!(mt.params.oversample, OversampleFactor::X4);
    assert_eq!(mt.params.ir_hash.as_deref(), Some("abc"));
    shared.cold.ir_path = None;
    mt.snapshot_params(&shared);
    assert_eq!(mt.params.ir_path, None);
    assert_eq!(mt.params.ir_hash, None);
}

#[test]
fn dealing_with_a_command() {
    let ir = ClapParamPayload::LoadCabIr { adapter: None };
    let params = ClapParamPayload::Params(RtProcessingParams::default());
    let restore = ClapParamPayload::RestoreTxn(restore_txn(1));
    assert!(gives_way(&ir, Some(&ir)));
    assert!(!gives_way(&ir, Some(&params)));
    assert!(!gives_way(&ir, Some(&restore)));
    assert!(!gives_way(&ir, None));
    assert!(!gives_way(&restore, Some(&restore)));
    assert!(!gives_way(&params, Some(&params)));

    assert_eq!(deal_with(&ir, 0, 0), Dealing::Apply);
    assert_eq!(deal_with(&ir, 1, 5), Dealing::Defer);
    assert_eq!(deal_with(&params, 1, 5), Dealing::Apply);
    assert_eq!(deal_with(&params, 1, 63), Dealing::ApplyLast);
    assert_eq!(deal_with(&ir, 1, 63), Dealing::Defer);
}

#[test]
fn full_restore_clears_what_it_does_not_have() {
    let mut shared = GuiSharedState::new_test();
    let mut mt = make_main_thread(&mut shared);
    load(&mut shared, &mut mt, "wavenet.nam", 48000, wavenet(1));
    load_ir(&mut shared, &mut mt, 512, "first");
    let before = publish(params_with_gain(1.0), None);
    mt.publish_restore(&mut shared, before);
    assert_eq!(shared.cold.ui_model_name, "wavenet.nam");
    assert_eq!(shared.cold.ir_path.as_deref(), Some("/irs/first.wav"));

    let mut with_ir = publish(params_with_gain(2.0), Some(44100));
    with_ir.ir_path_on_disk = Some("/irs/other.wav".to_string());
    with_ir.ir_hash = Some("digest".to_string());
    with_ir.ir_raw_samples = Some(vec![1, 2, 3]);
    with_ir.ir_raw_sample_rate = 96000;
    mt.publish_restore(&mut shared, with_ir);
    assert_eq!(shared.cold.ui_model_name, "restored.nam");
    assert_eq!(shared.cold.model_sample_rate, 44100);
    assert_eq!(shared.cold.ir_path.as_deref(), Some("/irs/other.wav"));
    assert_eq!(shared.cold.ir_raw_sample_rate, 96000);
    assert_eq!(mt.params.model_hash.as_deref(), Some("hash-of-restored"));
    assert_eq!(mt.params.model_search_paths, vec!["/models".to_string()]);

    let mut clearing = publish(params_with_gain(3.0), None);
    clearing.mode_full = true;
    mt.publish_restore(&mut shared, clearing);
    assert_eq!(shared.cold.ui_model_name, "");
    assert!(shared.cold.ui_model_metadata.is_none());
    assert_eq!(shared.cold.full_wavenet_model, None);
    assert_eq!(shared.cold.model_sample_rate, 0);
    assert_eq!(shared.cold.ir_path, None);
    assert_eq!(shared.cold.ir_hash, None);
    assert!(shared.cold.ir_raw_samples.is_none());
    assert_eq!(mt.params.model_path, None);
    assert_eq!(f32::from_bits(shared.ui_to_rt.param_input_gain), 3.0);
}
