//! What an activation takes over, builds and leaves.

use nam_plug::activation::{
    build_cab_sim_from_raw_samples, check_built, left_over, plan_activation, stream_block,
    ActivateRollbackGuard, ActivationPlan, AudioConfig, BuiltResources, CabSimBuild, Staged,
};
use nam_plug::orchestrator::peak_span;
use nam_plug::params::{
    ActivationPrecision, AdaptiveComputeMode, OversampleFactor, RtProcessingParams,
};
use nam_plug::payload::{
    CabSimHandle, ClapParamPayload, GcItem, LoadModelPayload, ModelHandle, OversampleHandle,
    ResamplerHandle, StreamHandle,
};
use nam_plug::processor::{NamClapProcessor, RtEffect};
use nam_plug::restore::deferred_capacity;
use nam_plug::shared::{DeactivatedDspState, GuiSharedState, PendingRestartOs};

const CONFIG: AudioConfig = AudioConfig {
    sample_rate: 48000,
    max_frames_count: 512,
};

const NOTHING_STAGED: Staged = Staged {
    model: None,
    ir: None,
    restore: None,
};

fn engine(id: u64, factor: OversampleFactor) -> OversampleHandle {
    OversampleHandle {
        id,
        factor,
        latency_samples: 12 * factor.code(),
    }
}

fn cabsim(id: u64) -> CabSimHandle {
    CabSimHandle {
        id,
        latency_samples: 512,
        num_partitions: 4,
        tail_samples: 2048,
    }
}

fn stream(id: u64) -> StreamHandle {
    StreamHandle {
        id,
        latency_samples: 7,
    }
}

fn kept(sample_rate: u32, buffer_size: u32) -> DeactivatedDspState {
    DeactivatedDspState {
        model_l: Some(ModelHandle {
            id: 1,
            wavenet: None,
        }),
        model_generation: 5,
        cabsim_adapter: Some(cabsim(2)),
        resampler: ResamplerHandle { id: 3 },
        stream: stream(4),
        os_l: engine(5, OversampleFactor::X2),
        os_r: engine(6, OversampleFactor::X2),
        os_factor: OversampleFactor::X2,
        sample_rate,
        buffer_size,
        model_input_mult_adj: 1.5f32.to_bits(),
        model_output_mult_adj: 0.5f32.to_bits(),
    }
}

fn all_built(factor: OversampleFactor) -> BuiltResources {
    BuiltResources {
        resampler: Some(ResamplerHandle { id: 13 }),
        stream: Some(stream(14)),
        cabsim: Some(cabsim(12)),
        os: Some((engine(15, factor), engine(16, factor))),
    }
}

fn nothing_built() -> BuiltResources {
    BuiltResources {
        resampler: None,
        stream: None,
        cabsim: None,
        os: None,
    }
}

fn plan(
    state: &GuiSharedState,
    deactivated: Option<DeactivatedDspState>,
    pending: PendingRestartOs,
) -> ActivationPlan {
    let mut guard = ActivateRollbackGuard::new();
    guard.deactivated = deactivated;
    guard.pending_restart_os_factor = Some(pending);
    plan_activation(&guard, 0, &state.ui_to_rt, CONFIG, 4096)
}

fn staged_model(id: u64) -> LoadModelPayload {
    LoadModelPayload {
        generation: 9,
        model_l: Some(ModelHandle { id, wavenet: None }),
        new_resampler: ResamplerHandle { id: id + 1 },
        new_stream: stream(id + 2),
        input_mult_adj: 1.0f32.to_bits(),
        output_mult_adj: 1.0f32.to_bits(),
    }
}

fn ids(items: &[GcItem]) -> Vec<u64> {
    let mut ids: Vec<u64> = items
        .iter()
        .map(|item| match item {
            GcItem::Model(h) => h.id,
            GcItem::Resampler(h) => h.id,
            GcItem::Streaming(h) => h.id,
            GcItem::CabConvAdapter(h) => h.id,
            GcItem::Oversample(h) => h.id,
        })
        .collect();
    ids.sort();
    ids
}

#[test]
fn sizes_and_rates_of_a_plan() {
    let state = GuiSharedState::new_test();
    let fresh = plan(&state, None, PendingRestartOs::NotPending);
    assert_eq!(fresh.buf_capacity, 8192);
    assert_eq!(fresh.os_capacity, 16384);
    assert_eq!(fresh.xfade_capacity, 512);
    assert_eq!(fresh.dry_capacity, 512 + 3200);
    assert_eq!(fresh.model_rate, 48000);
    assert_eq!(fresh.os_factor, OversampleFactor::Off);
    assert!(!fresh.reuse_resampler && !fresh.reuse_stream);
    assert!(!fresh.reuse_cabsim && !fresh.reuse_os);

    assert_eq!(deferred_capacity(64, 512), 2048);
    assert_eq!(deferred_capacity(8192, 4096), 16384);
    assert_eq!(stream_block(0), 1);
    assert_eq!(stream_block(256), 256);
}

#[test]
fn what_can_be_taken_over() {
    let mut state = GuiSharedState::new_test();
    state.ui_to_rt.param_oversample = OversampleFactor::X2.code();
    let none = PendingRestartOs::NotPending;

    let same = plan(&state, Some(kept(48000, 512)), none);
    assert!(same.reuse_resampler && same.reuse_stream && same.reuse_cabsim && same.reuse_os);

    let block = plan(&state, Some(kept(48000, 256)), none);
    assert!(block.reuse_resampler && !block.reuse_stream && !block.reuse_cabsim && block.reuse_os);

    let rate = plan(&state, Some(kept(44100, 512)), none);
    assert!(!rate.reuse_resampler && !rate.reuse_stream && !rate.reuse_cabsim && rate.reuse_os);

    // A pending request comes before what the GUI shows, even one for no oversampling.
    let off = plan(
        &state,
        Some(kept(48000, 512)),
        PendingRestartOs::Pending(OversampleFactor::Off),
    );
    assert_eq!(off.os_factor, OversampleFactor::Off);
    assert!(!off.reuse_os);
}

#[test]
fn missing_resources_are_named() {
    let state = GuiSharedState::new_test();
    let fresh = plan(&state, None, PendingRestartOs::NotPending);
    let full = all_built(OversampleFactor::Off);
    assert_eq!(check_built(fresh, None, full, true, false), Ok(()));
    let cases = [
        (
            BuiltResources {
                resampler: None,
                ..full
            },
            "Fresh resampler unavailable during activate",
        ),
        (
            BuiltResources {
                stream: None,
                ..full
            },
            "Fresh streaming buffer unavailable during activate",
        ),
        (
            BuiltResources {
                cabsim: None,
                ..full
            },
            "Fresh CabSim adapter unavailable during activate",
        ),
        (
            BuiltResources { os: None, ..full },
            "Fresh oversamplers unavailable during activate",
        ),
        (nothing_built(), "Fresh resampler unavailable during activate"),
    ];
    for (built, message) in cases {
        assert_eq!(
            check_built(fresh, None, built, true, false),
            Err(format!("{message} (fresh path)").as_str())
        );
        assert_eq!(
            check_built(fresh, None, built, true, true),
            Err(format!("{message} (staged restore)").as_str())
        );
    }
    // Without an impulse response no cab-sim is missed.
    let dry = BuiltResources {
        cabsim: None,
        ..full
    };
    assert_eq!(check_built(fresh, None, dry, false, false), Ok(()));
    // Engines for another factor do not do.
    assert!(check_built(fresh, None, all_built(OversampleFactor::X4), true, false).is_err());
}

#[test]
fn cabsim_from_stored_samples() {
    let mut state = GuiSharedState::new_test();
    assert_eq!(
        build_cab_sim_from_raw_samples(&state.cold, 512, 48000),
        CabSimBuild::Nothing
    );
    state.cold.ir_raw_samples = Some(vec![0; 16]);
    for (rate, resample_from) in [(0, None), (48000, None), (44100, Some(44100))] {
        state.cold.ir_raw_sample_rate = rate;
        assert_eq!(
            build_cab_sim_from_raw_samples(&state.cold, 512, 48000),
            CabSimBuild::Build {
                resample_from,
                convolve: true
            }
        );
    }
    assert_eq!(
        build_cab_sim_from_raw_samples(&state.cold, 0, 44100),
        CabSimBuild::Build {
            resample_from: None,
            convolve: false
        }
    );
}

#[test]
fn every_resource_is_installed_or_left_over() {
    let mut state = GuiSharedState::new_test();
    state.ui_to_rt.param_oversample = OversampleFactor::X2.code();
    let none = PendingRestartOs::NotPending;

    let reuse = plan(&state, Some(kept(48000, 512)), none);
    assert!(left_over(reuse, Some(kept(48000, 512)), nothing_built(), NOTHING_STAGED).is_empty());

    // Another rate: resampler, stream and cab-sim are built anew.
    let rate = plan(&state, Some(kept(44100, 512)), none);
    let built = BuiltResources {
        os: None,
        ..all_built(OversampleFactor::X2)
    };
    let items = left_over(rate, Some(kept(44100, 512)), built, NOTHING_STAGED);
    assert_eq!(ids(&items), vec![2, 3, 4]);

    // A staged model and the removal of the cab-sim leave what was kept.
    let staged = Staged {
        model: Some(staged_model(21)),
        ir: Some(None),
        restore: None,
    };
    let items = left_over(reuse, Some(kept(48000, 512)), nothing_built(), staged);
    assert_eq!(ids(&items), vec![1, 2, 3, 4]);

    // A staged model over a fresh activation leaves what was built in its place.
    let fresh = plan(&state, None, none);
    let items = left_over(fresh, None, all_built(OversampleFactor::X2), staged);
    assert_eq!(ids(&items), vec![12, 13, 14]);
}

fn activate(
    state: &mut GuiSharedState,
    built: BuiltResources,
    staged: Staged,
) -> NamClapProcessor<f32> {
    let guard = match ActivateRollbackGuard::extract(&mut state.cold) {
        Ok(guard) => guard,
        Err(e) => panic!("extract: {e}"),
    };
    let plan = plan_activation(&guard, 48000, &state.ui_to_rt, CONFIG, 4096);
    match NamClapProcessor::activate(state, guard, plan, built, staged, CONFIG, 0.0f32) {
        Ok(p) => p,
        Err(e) => panic!("activate: {e}"),
    }
}

#[test]
fn reactivation_installs_the_same_chain() {
    let mut state = GuiSharedState::new_test();
    let first = activate(
        &mut state,
        all_built(OversampleFactor::Off),
        NOTHING_STAGED,
    );
    let chain = first.chain;
    assert_eq!(chain.cached_effective_latency, 7 + 512);
    assert_eq!(state.rt_to_ui.current_latency, 519);
    assert_eq!(state.rt_to_ui.cabsim_tail_samples, 2048);
    assert_eq!(state.cold.current_stream_latency, 7);
    assert!(first.effects.is_empty());
    first.deactivate(&mut state);
    assert!(state.cold.param_rx.is_some() && state.cold.gc_tx.is_some());
    let second = activate(&mut state, nothing_built(), NOTHING_STAGED);
    assert_eq!(second.chain, chain);
}

#[test]
fn staged_restore_comes_into_force_as_a_whole() {
    let mut state = GuiSharedState::new_test();
    let params = RtProcessingParams {
        input_gain_db: 3.0f32.to_bits(),
        bypass: true,
        adaptive_compute: AdaptiveComputeMode::Off,
        activation_precision: ActivationPrecision::Fast,
        ..Default::default()
    };
    let staged = Staged {
        model: Some(staged_model(21)),
        ir: Some(None),
        restore: Some((77, params)),
    };
    let p = activate(
        &mut state,
        all_built(OversampleFactor::Off),
        staged,
    );
    assert_eq!(p.params, params);
    assert_eq!(p.effects, vec![RtEffect::ApplyParams(params)]);
    assert_eq!(p.adaptive_mode, AdaptiveComputeMode::Off);
    assert_eq!(p.realtime_activation, ActivationPrecision::Fast);
    assert_eq!(p.chain.model_generation, 9);
    assert_eq!(p.chain.cabsim_adapter, None);
    assert_eq!(state.cold.last_applied_generation, 77);
    assert_eq!(state.ui_to_rt.param_bypass, 1);
    assert_eq!(f32::from_bits(state.ui_to_rt.param_input_gain), 3.0);
    assert_eq!(state.ui_to_rt.param_adaptive_compute, 0);
}

#[test]
fn peaks_are_measured_where_every_output_reaches() {
    assert_eq!(peak_span(Some(64), Some(48), 16, 40), 32);
    assert_eq!(peak_span(Some(64), None, 16, 40), 40);
    assert_eq!(peak_span(Some(64), Some(64), 64, 40), 0);
    assert_eq!(peak_span(None, Some(64), 0, 40), 0);
}

#[test]
fn missing_end_is_named_and_everything_goes_back() {
    let mut state = GuiSharedState::new_test();
    let mut guard = match ActivateRollbackGuard::extract(&mut state.cold) {
        Ok(guard) => guard,
        Err(e) => panic!("extract: {e}"),
    };
    let plan = plan_activation(&guard, 48000, &state.ui_to_rt, CONFIG, 4096);
    let gc_tx = guard.gc_tx.take();
    let built = all_built(OversampleFactor::Off);
    let refused = NamClapProcessor::activate(
        &mut state,
        guard,
        plan,
        built,
        NOTHING_STAGED,
        CONFIG,
        0.0f32,
    );
    assert!(matches!(refused, Err("gc_tx must be set before defuse")));
    assert!(state.cold.param_rx.is_some() && state.cold.slimmable_rx.is_some());
    assert_eq!(state.rt_to_ui.current_latency, 0);

    state.cold.gc_tx = gc_tx;
    state.cold.cmd_last_ack = 12;
    let guard = match ActivateRollbackGuard::extract(&mut state.cold) {
        Ok(guard) => guard,
        Err(e) => panic!("extract: {e}"),
    };
    let processor = NamClapProcessor::activate(
        &mut state,
        guard,
        plan,
        built,
        NOTHING_STAGED,
        CONFIG,
        0.0f32,
    );
    let mut processor = match processor {
        Ok(p) => p,
        Err(e) => panic!("activate: {e}"),
    };
    // The numbering goes on from the acknowledgment.
    processor.cmd_consumer.advance_pending();
    assert!(processor.deactivate(&mut state).is_empty());
    assert_eq!(state.cold.cmd_last_ack, 13);
}

#[test]
fn latency_is_the_sum_of_what_is_installed() {
    let mut state = GuiSharedState::new_test();
    let mut processor = activate(
        &mut state,
        all_built(OversampleFactor::Off),
        NOTHING_STAGED,
    );
    processor.chain.stream.latency_samples = 30;
    processor.chain.os_l.latency_samples = 12;
    assert_eq!(processor.chain.cached_effective_latency, 7 + 512);
    processor.recompute_effective_latency();
    assert_eq!(processor.chain.cached_effective_latency, 30 + 12 + 512);
    let swap = ClapParamPayload::LoadCabIr { adapter: None };
    processor.apply_structural(&mut state, swap);
    assert_eq!(processor.chain.cached_effective_latency, 30 + 12);
    assert_eq!(state.cold.current_cabsim_latency, 0);
}
