//! A round of housekeeping, chore by chore.

use nam_plug::chores::{Chore, Report};
use nam_plug::command_scheduler::CommandProducer;
use nam_plug::housekeeping::{Choice, Rebuild};
use nam_plug::main_thread::{
    BuiltModel, Delivery, HostRequest, IrLoad, IrSamples, LoadFailure, ModelLoad,
    NamClapMainThread,
};
use nam_plug::params::{
    AdaptiveComputeMode, OversampleFactor, ProcessingParams, RtProcessingParams,
};
use nam_plug::payload::{
    CabSimHandle, ClapParamPayload, ModelHandle, OversampleHandle, ResamplerHandle, StreamHandle,
    WaveNetShape,
};
use nam_plug::restore::Flush;
use nam_plug::shared::{GuiSharedState, ModelInfo, PendingModel, PendingPresetLoad};
use nam_plug::status::{
    RT_STATUS_HAS_CLIPPED, RT_STATUS_NEEDS_OS_REBUILD, RT_STATUS_NEEDS_SLIMMABLE_REBUILD,
    RT_STATUS_SLIMMABLE_RESET_FAILED,
};

const CANCELLED: &str = "\u{1}cancelled";
const TIMED_OUT: &str = "\u{1}timed-out";

fn blank_params() -> ProcessingParams {
    let p = RtProcessingParams::default();
    ProcessingParams {
        input_gain_db: p.input_gain_db,
        output_gain_db: p.output_gain_db,
        gate_threshold_db: p.gate_threshold_db,
        bypass: p.bypass,
        adaptive_compute: p.adaptive_compute,
        slim_override: p.slim_override,
        oversample: p.oversample,
        activation_precision: p.activation_precision,
        model_path: None,
        model_basename: None,
        model_search_paths: vec![],
        model_hash: None,
        ir_path: None,
        ir_hash: None,
    }
}

fn main_thread(
    shared: &mut GuiSharedState,
    tx: rtrb::Producer<ClapParamPayload>,
) -> NamClapMainThread {
    NamClapMainThread {
        params: blank_params(),
        cmd_producer: CommandProducer::new(tx),
        slimmable_tx: shared.cold.slimmable_tx.take().unwrap(),
        requests: vec![],
        last_reported_latency: 0,
        last_reported_cabsim_tail: 0,
        last_seen_slimmable_stale: 0,
        hugepage_synced: false,
        pending_restore: None,
        staged_restore: None,
        staged_swap: None,
    }
}

fn wavenet(id: u64) -> ModelHandle {
    ModelHandle {
        id,
        wavenet: Some(WaveNetShape {
            channels: 16,
            slimmable: true,
        }),
    }
}

fn model_load(path: &str) -> ModelLoad {
    ModelLoad {
        path: path.to_string(),
        basename: Some("m.nam".to_string()),
        parent: None,
        build: Some(BuiltModel {
            model: Some(wavenet(5)),
            sample_rate: 48000,
            input_mult_adj: 1.0f32.to_bits(),
            output_mult_adj: 1.0f32.to_bits(),
            architecture: "WaveNet".to_string(),
            topology: String::new(),
            metadata: None,
            info: ModelInfo {
                arch_label: "WaveNet".to_string(),
                topology: String::new(),
                channels: 16,
                receptive_field: 1,
                model_sample_rate: 48000,
                weights_layout: String::new(),
                path_basename: "m.nam".to_string(),
            },
            full_wavenet: Some(wavenet(6)),
        }),
        probe_ok: true,
        hash: Some("abc".to_string()),
        resampler: Some(ResamplerHandle { id: 1 }),
        resized: true,
        stream: Some(StreamHandle {
            id: 2,
            latency_samples: 0,
        }),
    }
}

fn preset(path: &str) -> PendingPresetLoad {
    PendingPresetLoad {
        location_path: path.to_string(),
        load_key: None,
    }
}

#[test]
fn idle_round() {
    let mut shared = GuiSharedState::new_test();
    let (tx, _rx) = rtrb::RingBuffer::new(8);
    let mut mt = main_thread(&mut shared, tx);
    let (cancelled, timed_out) = (CANCELLED.to_string(), TIMED_OUT.to_string());
    let mut run = |report| mt.housekeeping(&mut shared, report, &cancelled, &timed_out);

    assert!(matches!(
        run(Report::Begin),
        Chore::Prepare {
            published: false,
            restore_sent: false,
            kept: None
        }
    ));
    assert!(matches!(
        run(Report::Prepared {
            resampler: None,
            stream: None,
            resized: true
        }),
        Chore::DrainGarbage {
            flushed: Ok(Flush::Nothing)
        }
    ));
    assert!(matches!(
        run(Report::Drained(0)),
        Chore::Upkeep {
            sync_huge_pages: true,
            reset_failed: false,
            slice: None
        }
    ));
    assert!(matches!(
        run(Report::Upkept { sliced: None }),
        Chore::BuildEngines {
            sliced: Rebuild::Nothing,
            factor: None
        }
    ));
    assert!(matches!(
        run(Report::EnginesBuilt(None)),
        Chore::AskModelDialog {
            engines: Rebuild::Nothing
        }
    ));
    assert!(matches!(
        run(Report::ModelDialog(None)),
        Chore::LoadModel(Choice::Nothing)
    ));
    assert!(matches!(
        run(Report::ModelLoaded(None)),
        Chore::AskIrDialog { loaded: None }
    ));
    assert!(matches!(
        run(Report::IrDialog(None)),
        Chore::LoadIr(Choice::Nothing)
    ));
    assert!(matches!(
        run(Report::IrLoaded(None)),
        Chore::Done {
            loaded: None,
            ir_cleared: false,
            log_stale: false
        }
    ));
    // The huge pages are looked at once per instance.
    assert!(matches!(
        run(Report::Drained(0)),
        Chore::Upkeep {
            sync_huge_pages: false,
            ..
        }
    ));
    assert!(mt.requests.is_empty());
    assert!(mt.hugepage_synced);
}

#[test]
fn busy_round() {
    let mut shared = GuiSharedState::new_test();
    let (tx, mut rx) = rtrb::RingBuffer::new(8);
    let mut mt = main_thread(&mut shared, tx);
    let (cancelled, timed_out) = (CANCELLED.to_string(), TIMED_OUT.to_string());

    shared.cold.sample_rate = 48000;
    shared.cold.buffer_size = 256;
    shared.cold.current_cabsim_latency = 256;
    shared.cold.full_wavenet_model = Some(wavenet(3));
    shared.cold.pending_model = Some(PendingModel {
        generation: 9,
        model: Some(wavenet(4)),
        model_rate: 48000,
        input_mult_adj: 0,
        output_mult_adj: 0,
    });
    let in_flight = RtProcessingParams {
        input_gain_db: 2.0f32.to_bits(),
        ..Default::default()
    };
    shared.cold.in_flight_params = Some(in_flight);
    shared.cold.requested_slimmable_generation = 9;
    shared.cold.rt_status.requested_slimmable_ch = 8;
    shared.cold.rt_status.requested_os_factor = 1;
    for flag in [
        RT_STATUS_NEEDS_SLIMMABLE_REBUILD,
        RT_STATUS_NEEDS_OS_REBUILD,
        RT_STATUS_SLIMMABLE_RESET_FAILED,
    ] {
        shared.cold.rt_status.set_flag(flag);
    }
    shared.cold.rt_status.flags |= RT_STATUS_HAS_CLIPPED;
    shared.cold.pending_preset_load = vec![preset("/presets/a"), preset("/presets/b")];
    shared.cold.ui_pending_model = Some("/models/overtaken.nam".to_string());
    shared.cold.ui_loading = true;
    shared.cold.ui_ir_loading = true;
    shared.cold.ui_clear_ir = true;
    shared.rt_to_ui.current_latency = 256;
    shared.cold.slimmable_stale_discarded_total = 3;

    // Parameters go first; the kept model can be made ready.
    let chore = mt.housekeeping(
        &mut shared,
        Report::Begin,
        &cancelled,
        &timed_out,
    );
    let kept = match chore {
        Chore::Prepare {
            published: false,
            restore_sent: false,
            kept: Some(kept),
        } => kept,
        other => panic!("unexpected chore {other:?}"),
    };
    assert_eq!(kept.generation, 9);
    assert_eq!(rx.pop().ok(), Some(ClapParamPayload::Params(in_flight)));
    assert_eq!(shared.cold.in_flight_params, None);

    let mut run = |shared: &mut GuiSharedState, report| {
        mt.housekeeping(shared, report, &cancelled, &timed_out)
    };
    let chore = run(
        &mut shared,
        Report::Prepared {
            resampler: Some(ResamplerHandle { id: 1 }),
            stream: Some(StreamHandle {
                id: 2,
                latency_samples: 0,
            }),
            resized: true,
        },
    );
    assert!(matches!(
        chore,
        Chore::DrainGarbage {
            flushed: Ok(Flush::Sent)
        }
    ));
    assert!(matches!(
        rx.pop(),
        Ok(ClapParamPayload::LoadModel { generation: 9, .. })
    ));
    assert!(shared.cold.pending_model.is_none());

    let slice = match run(&mut shared, Report::Drained(5)) {
        Chore::Upkeep {
            sync_huge_pages: true,
            reset_failed: true,
            slice: Some(slice),
        } => slice,
        other => panic!("unexpected chore {other:?}"),
    };
    assert_eq!(
        (slice.model, slice.target_ch, slice.generation, slice.buffer_size),
        (wavenet(3), 8, 9, 256)
    );
    assert_eq!(shared.cold.rt_status.drains, 5);
    assert_ne!(shared.cold.rt_status.flags_seen & RT_STATUS_HAS_CLIPPED, 0);
    assert!(!shared
        .cold
        .rt_status
        .check_flag(RT_STATUS_SLIMMABLE_RESET_FAILED));

    assert!(matches!(
        run(
            &mut shared,
            Report::Upkept {
                sliced: Some(wavenet(30))
            }
        ),
        Chore::BuildEngines {
            sliced: Rebuild::Sent,
            factor: Some(OversampleFactor::X2)
        }
    ));
    assert!(!shared
        .cold
        .rt_status
        .check_flag(RT_STATUS_NEEDS_SLIMMABLE_REBUILD));
    let engine = |id| OversampleHandle {
        id,
        factor: OversampleFactor::X2,
        latency_samples: 12,
    };
    assert!(matches!(
        run(
            &mut shared,
            Report::EnginesBuilt(Some((engine(1), engine(2)))),
        ),
        Chore::AskModelDialog {
            engines: Rebuild::Sent
        }
    ));
    assert!(matches!(
        rx.pop(),
        Ok(ClapParamPayload::SetOversample { .. })
    ));

    // What the dialog has left overtakes the earlier wish.
    match run(
        &mut shared,
        Report::ModelDialog(Some("/models/m.nam".to_string())),
    ) {
        Chore::LoadModel(Choice::Load(path)) => assert_eq!(path, "/models/m.nam"),
        other => panic!("unexpected chore {other:?}"),
    }
    assert_eq!(shared.cold.ui_pending_model, None);
    assert!(matches!(
        run(
            &mut shared,
            Report::ModelLoaded(Some((model_load("/models/m.nam"), String::new()))),
        ),
        Chore::AskIrDialog {
            loaded: Some(Ok(Delivery::Sent))
        }
    ));
    assert!(!shared.cold.ui_loading);
    assert!(!shared.cold.ui_load_error);
    assert!(matches!(rx.pop(), Ok(ClapParamPayload::LoadModel { .. })));

    match run(
        &mut shared,
        Report::IrDialog(Some("/irs/x.wav".to_string())),
    ) {
        Chore::LoadIr(Choice::Load(path)) => assert_eq!(path, "/irs/x.wav"),
        other => panic!("unexpected chore {other:?}"),
    }
    let ir = IrLoad {
        path: "/irs/x.wav".to_string(),
        read: Some(IrSamples {
            samples: vec![0; 512],
            sample_rate: 48000,
        }),
        hash: Some("h".to_string()),
        engine_ok: true,
        adapter: Some(CabSimHandle {
            id: 8,
            latency_samples: 256,
            num_partitions: 2,
            tail_samples: 512,
        }),
    };
    assert!(matches!(
        run(&mut shared, Report::IrLoaded(Some((ir, String::new())))),
        Chore::Done {
            loaded: Some(Ok(Delivery::Sent)),
            ir_cleared: true,
            log_stale: true
        }
    ));
    assert!(matches!(rx.pop(), Ok(ClapParamPayload::LoadCabIr { .. })));
    assert!(!shared.cold.ui_ir_loading);
    assert!(!shared.cold.ui_clear_ir);
    assert_eq!(shared.cold.ir_path, None);

    assert!(matches!(
        mt.requests[..],
        [
            HostRequest::RescanParams,
            HostRequest::MarkDirty,
            HostRequest::PresetLoaded(_),
            HostRequest::Restart,
            HostRequest::LatencyChanged,
        ]
    ));
    assert_eq!(mt.last_reported_latency, 256);
    assert_eq!(shared.cold.pending_preset_load.len(), 1);
    assert_eq!(shared.cold.pending_preset_load[0].location_path, "/presets/b");
}

#[test]
fn failed_loads_are_shown() {
    let mut shared = GuiSharedState::new_test();
    let (tx, _rx) = rtrb::RingBuffer::new(8);
    let mut mt = main_thread(&mut shared, tx);
    let (cancelled, timed_out) = (CANCELLED.to_string(), TIMED_OUT.to_string());
    shared.cold.pending_preset_load = vec![preset("/presets/a")];
    shared.cold.ui_loading = true;
    shared.cold.ui_ir_loading = true;
    let mut failed = model_load("/models/m.nam");
    failed.build = None;
    let chore = mt.housekeeping(
        &mut shared,
        Report::ModelLoaded(Some((failed, "model build failed".to_string()))),
        &cancelled,
        &timed_out,
    );
    assert!(matches!(
        chore,
        Chore::AskIrDialog {
            loaded: Some(Err(LoadFailure::ModelBuild))
        }
    ));
    assert!(shared.cold.ui_load_error);
    assert_eq!(shared.cold.ui_load_error_msg, "model build failed");
    assert!(!shared.cold.ui_loading);
    assert!(matches!(
        mt.requests[..],
        [HostRequest::PresetFailed(_, LoadFailure::ModelBuild)]
    ));
    let ir = IrLoad {
        path: "/irs/x.wav".to_string(),
        read: None,
        hash: None,
        engine_ok: false,
        adapter: None,
    };
    let chore = mt.housekeeping(
        &mut shared,
        Report::IrLoaded(Some((ir, "IR load failed".to_string()))),
        &cancelled,
        &timed_out,
    );
    assert!(matches!(
        chore,
        Chore::Done {
            loaded: Some(Err(LoadFailure::IrRead)),
            ..
        }
    ));
    assert!(shared.cold.ui_ir_load_error);
    assert_eq!(shared.cold.ui_ir_load_error_msg, "IR load failed");
    assert!(!shared.cold.ui_ir_loading);
}

#[test]
fn dialogs_that_end_without_a_choice() {
    let mut shared = GuiSharedState::new_test();
    let (tx, _rx) = rtrb::RingBuffer::new(8);
    let mut mt = main_thread(&mut shared, tx);
    let (cancelled, timed_out) = (CANCELLED.to_string(), TIMED_OUT.to_string());
    shared.cold.ui_loading = true;
    shared.cold.ui_ir_loading = true;
    assert!(matches!(
        mt.housekeeping(
            &mut shared,
            Report::ModelDialog(Some(cancelled.clone())),
            &cancelled,
            &timed_out
        ),
        Chore::LoadModel(Choice::Cancelled)
    ));
    assert!(!shared.cold.ui_loading);
    assert!(matches!(
        mt.housekeeping(
            &mut shared,
            Report::IrDialog(Some(timed_out.clone())),
            &cancelled,
            &timed_out
        ),
        Chore::LoadIr(Choice::TimedOut)
    ));
    assert!(!shared.cold.ui_ir_loading);
}

#[test]
fn unknown_codes_are_saved_as_choices_of_a_new_instance() {
    let mut shared = GuiSharedState::new_test();
    let (tx, _rx) = rtrb::RingBuffer::new(8);
    let mut mt = main_thread(&mut shared, tx);
    mt.params.adaptive_compute = AdaptiveComputeMode::Off;
    mt.params.oversample = OversampleFactor::X4;
    shared.ui_to_rt.param_input_gain = 2.0f32.to_bits();
    shared.ui_to_rt.param_adaptive_compute = 9;
    shared.ui_to_rt.param_oversample = 9;
    mt.snapshot_params(&shared);
    assert_eq!(f32::from_bits(mt.params.input_gain_db), 2.0);
    assert_eq!(
        mt.params.adaptive_compute,
        AdaptiveComputeMode::Conservative
    );
    assert_eq!(mt.params.oversample, OversampleFactor::Off);
}

#[test]
fn new_instance_waits_for_the_host() {
    let state = GuiSharedState::new(7, 3);
    assert_eq!(state.cold.instance_id, 7);
    assert_eq!(state.cold.sample_rate, 0);
    let mut tx = state.cold.param_tx.unwrap();
    for _ in 0..3 {
        tx.push(ClapParamPayload::LoadCabIr { adapter: None }).unwrap();
    }
    assert!(tx.push(ClapParamPayload::LoadCabIr { adapter: None }).is_err());
    assert_eq!(GuiSharedState::new_test().cold.sample_rate, 44100);
}
