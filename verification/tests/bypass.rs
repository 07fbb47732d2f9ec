//! Whole blocks through the processor, with a stand-in for the audio engine that delays its input
//! by the latency of the chain.

use nam_plug::activation::{
    build_cab_sim_from_raw_samples, plan_activation, ActivateRollbackGuard, AudioConfig,
    BuiltResources, CabSimBuild,
};
use nam_plug::channels::{extract_channels, ChannelPair};
use nam_plug::command_scheduler::CommandProducer;
use nam_plug::gestures::GuiEventQueue;
use nam_plug::main_thread::{
    HostRequest, IrLoad, IrSamples, NamClapMainThread,
};
use nam_plug::orchestrator::{BlockCheck, Route};
use nam_plug::params::{
    ActivationPrecision, AdaptiveComputeMode, OversampleFactor, ProcessingParams,
    RtProcessingParams, SlimOverride, PARAM_BYPASS,
};
use nam_plug::payload::{CabSimHandle, OversampleHandle, ResamplerHandle, StreamHandle};
use nam_plug::processor::{EventValue, NamClapProcessor, RtEffect};
use nam_plug::schedule::{next_sub_block, HostEvent};
use nam_plug::shared::{GuiSharedState, PendingRestartOs};
use nam_plug::sub_block::{finish_bypass, finish_wet};
use std::collections::VecDeque;

struct Rig {
    shared: GuiSharedState,
    mt: NamClapMainThread,
    processor: Option<NamClapProcessor<f32>>,
    frames: u32,
    /// What the stand-in for the engine still has to give back.
    wet: [VecDeque<f32>; 2],
}

impl Rig {
    fn new(frames: u32) -> Self {
        let mut shared = GuiSharedState::new_test();
        let tx = shared.cold.param_tx.take().unwrap();
        let p = RtProcessingParams::default();
        let mt = NamClapMainThread {
            params: ProcessingParams {
                input_gain_db: p.input_gain_db,
                output_gain_db: p.output_gain_db,
                gate_threshold_db: p.gate_threshold_db,
                bypass: p.bypass,
                adaptive_compute: p.adaptive_compute,
                slim_override: p.slim_override,
                oversample: p.oversample,
                activation_precision: p.activation_precision,
                model_path: None,
                model_basename: None,
                model_search_paths: vec![],
                model_hash: None,
                ir_path: None,
                ir_hash: None,
            },
            cmd_producer: CommandProducer::new(tx),
            slimmable_tx: shared.cold.slimmable_tx.take().unwrap(),
            requests: vec![],
            last_reported_latency: 0,
            last_reported_cabsim_tail: 0,
            last_seen_slimmable_stale: 0,
            hugepage_synced: false,
            pending_restore: None,
            staged_restore: None,
            staged_swap: None,
        };
        Rig {
            shared,
            mt,
            processor: None,
            frames,
            wet: [VecDeque::new(), VecDeque::new()],
        }
    }

    fn activate(&mut self) {
        let config = AudioConfig {
            sample_rate: 48000,
            max_frames_count: self.frames,
        };
        let guard = match ActivateRollbackGuard::extract(&mut self.shared.cold) {
            Ok(guard) => guard,
            Err(e) => panic!("extract: {e}"),
        };
        let plan = plan_activation(&guard, 48000, &self.shared.ui_to_rt, config, 4096);
        let build =
            build_cab_sim_from_raw_samples(&self.shared.cold, self.frames as usize, 48000);
        let convolve = matches!(build, CabSimBuild::Build { convolve: true, .. });
        let ir_len = self
            .shared
            .cold
            .ir_raw_samples
            .as_ref()
            .map_or(0, |s| s.len() as u32);
        let engine = |id| OversampleHandle {
            id,
            factor: plan.os_factor,
            latency_samples: match plan.os_factor {
                OversampleFactor::Off => 0,
                OversampleFactor::X2 => 12,
                OversampleFactor::X4 => 24,
            },
        };
        let built = BuiltResources {
            resampler: Some(ResamplerHandle { id: 1 }),
            stream: Some(StreamHandle {
                id: 2,
                latency_samples: 0,
            }),
            cabsim: if convolve {
                Some(adapter(ir_len, self.frames))
            } else {
                None
            },
            os: Some((engine(3), engine(4))),
        };
        let staged = self.mt.staged();
        let processor = match NamClapProcessor::activate(
            &mut self.shared,
            guard,
            plan,
            built,
            staged,
            config,
            0.0f32,
        ) {
            Ok(p) => p,
            Err(e) => panic!("activate: {e}"),
        };
        self.mt.take_staged();
        let latency = processor.chain.cached_effective_latency as usize;
        self.wet = [
            VecDeque::from(vec![0.0; latency]),
            VecDeque::from(vec![0.0; latency]),
        ];
        self.processor = Some(processor);
    }

    fn deactivate(&mut self) {
        self.processor.take().unwrap().deactivate(&mut self.shared);
    }

    fn load_ir(&mut self, len: u32) {
        let load = IrLoad {
            path: "/irs/pre_delay.wav".to_string(),
            read: Some(IrSamples {
                samples: vec![0; len as usize],
                sample_rate: 48000,
            }),
            hash: Some("h".to_string()),
            engine_ok: true,
            adapter: Some(adapter(len, self.frames)),
        };
        self.mt
            .load_cabsim(&mut self.shared.cold, load)
            .expect("load IR");
    }

    fn restart_requested(&self) -> bool {
        self.mt
            .requests
            .iter()
            .any(|r| matches!(r, HostRequest::Restart))
    }

    fn set_bypass(&mut self, on: bool) {
        self.shared.ui_to_rt.param_bypass = on as u32;
        self.shared.bump_generation();
    }

    /// One block, with the stand-in for the engine on the wet way.
    fn process(
        &mut self,
        pair_l: ChannelPair<f32>,
        pair_r: ChannelPair<f32>,
        events: &[HostEvent],
    ) -> (Vec<f32>, Vec<f32>) {
        let n = self.frames as usize;
        let shared = &mut self.shared;
        let p = self.processor.as_mut().unwrap();
        let mut queue = GuiEventQueue::new(64);
        p.process_events(shared, &mut queue, None);
        let before = PendingRestartOs::load(&shared.cold.pending_restart_os_factor);
        p.schedule_events(shared, events);
        assert_eq!(p.begin_block(shared, n), BlockCheck::Run);
        let (mut host_l, mut host_r) = (vec![0.0f32; n], vec![0.0f32; n]);
        let outputs = extract_channels(
            Some(pair_l),
            Some(pair_r),
            &mut host_l,
            &mut host_r,
            &mut shared.rt_to_ui.active_channel_count,
            &mut p.process_mono,
            n,
            0.0,
        );
        assert!(outputs.left && outputs.right);
        let finite = |s: f32| s.is_finite();
        p.contain_non_finite(shared, &mut host_l, &mut host_r, n, finite, 0.0);
        p.prepare_block(shared);
        let (mut out_l, mut out_r) = (vec![9.0f32; n], vec![9.0f32; n]);
        let (mut dry_l, mut dry_r) = (vec![0.0f32; n], vec![0.0f32; n]);
        let (mut buf_l, mut buf_r) = (vec![7.0f32; n], vec![7.0f32; n]);
        let (mut offset, mut event, mut at) = (0, 0, 0);
        while offset < n {
            let step = next_sub_block(&p.scheduled_events, event, offset, n);
            let len = step.end - step.start;
            if len > 0 {
                let mono = p.process_mono;
                let route =
                    p.start_sub_block(&host_l, &host_r, offset, len, &mut dry_l, &mut dry_r);
                if route != Route::Bypass {
                    for i in 0..len {
                        self.wet[0].push_back(host_l[offset + i]);
                        self.wet[1].push_back(host_r[offset + i]);
                        buf_l[i] = self.wet[0].pop_front().unwrap();
                        buf_r[i] = self.wet[1].pop_front().unwrap();
                    }
                }
                at += match route {
                    Route::Bypass => finish_bypass(
                        Some(&mut out_l),
                        Some(&mut out_r),
                        &dry_l,
                        &dry_r,
                        len,
                        at,
                        mono,
                        finite,
                        0.0,
                    ),
                    Route::Wet => {
                        let wet = p.wet_step(false, true, len);
                        finish_wet(
                            wet,
                            Some(&mut out_l),
                            Some(&mut out_r),
                            &mut buf_l,
                            &mut buf_r,
                            len,
                            len,
                            at,
                            mono,
                            finite,
                            0.0,
                        )
                    }
                    Route::Crossfade => {
                        let wet = p.wet_step(false, true, len);
                        p.finish_crossfade(
                            wet,
                            Some(&mut out_l),
                            Some(&mut out_r),
                            &mut buf_l,
                            &mut buf_r,
                            &dry_l,
                            &dry_r,
                            len,
                            len,
                            at,
                            mono,
                            finite,
                            |dry: f32, wet: f32, mix: i32| {
                                dry + (wet - dry) * (mix as f32 / 64.0)
                            },
                            0.0,
                        )
                    }
                };
            }
            p.finish_sub_block(shared, step);
            offset = step.end;
            event = step.end_event;
        }
        assert_eq!(at, n, "every block must be delivered in full");
        p.end_block(shared, before);
        (out_l, out_r)
    }

    fn process_same(&mut self, input: &[f32], events: &[HostEvent]) -> Vec<f32> {
        self.process(
            ChannelPair::InputOutput(input),
            ChannelPair::InputOutput(input),
            events,
        )
        .0
    }
}

fn adapter(ir_len: u32, partition: u32) -> CabSimHandle {
    CabSimHandle {
        id: 9,
        latency_samples: partition,
        num_partitions: ir_len / partition,
        tail_samples: ir_len,
    }
}

fn bypass_event(on: bool) -> HostEvent {
    HostEvent::ParamValue {
        time: 0,
        param_id: Some(PARAM_BYPASS),
        value: EventValue {
            bits: (on as u32 as f32).to_bits(),
            bypass: on,
            adaptive_compute: AdaptiveComputeMode::Off,
            slim_override: SlimOverride::Auto,
            oversample: OversampleFactor::Off,
            activation_precision: ActivationPrecision::Standard,
        },
    }
}

fn run_stereo_block(bypass: bool, in_l: &[f32], in_r: &[f32]) -> (Vec<f32>, Vec<f32>) {
    let mut rig = Rig::new(512);
    rig.activate();
    let events = if bypass {
        vec![bypass_event(true)]
    } else {
        vec![]
    };
    rig.process(
        ChannelPair::InputOutput(in_l),
        ChannelPair::InputOutput(in_r),
        &events,
    )
}

fn max_abs_diff(a: &[f32], b: &[f32]) -> f32 {
    a.iter()
        .zip(b.iter())
        .map(|(x, y)| (x - y).abs())
        .fold(0.0f32, f32::max)
}

fn first_peak_index(buf: &[f32], min: f32) -> usize {
    buf.iter()
        .position(|&s| s.abs() >= min)
        .unwrap_or(usize::MAX)
}

#[test]
fn test_bypass_preserves_independent_stereo_channels() {
    let n = 512;
    let in_l = vec![0.1f32; n];
    let in_r = vec![0.2f32; n];
    let (out_l, out_r) = run_stereo_block(true, &in_l, &in_r);
    assert!(
        max_abs_diff(&out_l, &in_l) < 1e-4,
        "bypass must pass L through untouched"
    );
    assert!(
        max_abs_diff(&out_r, &in_r) < 1e-4,
        "bypass must pass R through untouched (independent of L)"
    );
    assert!(
        max_abs_diff(&out_r, &in_l) > 0.05,
        "bypass must NOT collapse R to a copy of L"
    );
}

#[test]
fn test_bypass_preserves_phase_opposition_cancellation() {
    let n = 512;
    let in_l = vec![1.0f32; n];
    let in_r = vec![-1.0f32; n];
    let (out_l, out_r) = run_stereo_block(true, &in_l, &in_r);
    for i in 0..n {
        assert!(
            (out_l[i] - in_l[i]).abs() < 1e-4,
            "phase-opposition L sample {i}: {} vs {}",
            out_l[i],
            in_l[i]
        );
        assert!(
            (out_r[i] - in_r[i]).abs() < 1e-4,
            "phase-opposition R sample {i}: {} vs {} (L was {})",
            out_r[i],
            in_r[i],
            in_l[i]
        );
    }
}

#[test]
fn test_bypass_r_only_impulse_stays_on_r() {
    let n = 512;
    let in_l = vec![0.0f32; n];
    let mut in_r = vec![0.0f32; n];
    in_r[n / 2] = 1.0;
    let (out_l, out_r) = run_stereo_block(true, &in_l, &in_r);
    assert!(
        max_abs_diff(&out_l, &in_l) < 1e-4,
        "R-only impulse must not leak into L"
    );
    assert!(
        (out_r[n / 2] - 1.0).abs() < 1e-4,
        "R impulse must reach R output"
    );
    assert!(
        max_abs_diff(&out_r, &in_r) < 1e-4,
        "bypass must preserve the R impulse verbatim"
    );
}

#[test]
fn test_wet_path_stereo_independence() {
    let n = 512;
    let in_l = vec![0.1f32; n];
    let in_r = vec![0.2f32; n];
    let (out_l, out_r) = run_stereo_block(false, &in_l, &in_r);
    assert!(
        max_abs_diff(&out_l, &in_l) < 1e-4,
        "wet path L must reflect L input"
    );
    assert!(
        max_abs_diff(&out_r, &in_r) < 1e-4,
        "wet path R must reflect the real R input, not a copy of L"
    );
    assert!(
        max_abs_diff(&out_r, &in_l) > 0.05,
        "wet path must NOT collapse R to a copy of L"
    );
}

#[test]
fn test_wet_path_r_only_impulse_stays_on_r() {
    let n = 512;
    let in_l = vec![0.0f32; n];
    let mut in_r = vec![0.0f32; n];
    in_r[n / 2] = 1.0;
    let (out_l, out_r) = run_stereo_block(false, &in_l, &in_r);
    assert!(
        max_abs_diff(&out_l, &in_l) < 1e-4,
        "R-only impulse must not leak into L in the wet path"
    );
    assert!(
        (out_r[n / 2] - 1.0).abs() < 1e-4,
        "R impulse must reach R output in the wet path"
    );
}

#[test]
fn test_in_place_stereo_no_aliasing_corruption() {
    let n = 512;
    let mut buf_l = vec![0.1f32; n];
    let mut buf_r = vec![0.2f32; n];
    let mut rig = Rig::new(512);
    rig.activate();
    let (out_l, out_r) = rig.process(
        ChannelPair::InPlace(&buf_l),
        ChannelPair::InPlace(&buf_r),
        &[],
    );
    buf_l.copy_from_slice(&out_l);
    buf_r.copy_from_slice(&out_r);
    for i in 0..n {
        assert!(
            (buf_l[i] - 0.1).abs() < 1e-4,
            "InPlace L sample {i} corrupted: {}",
            buf_l[i]
        );
        assert!(
            (buf_r[i] - 0.2).abs() < 1e-4,
            "InPlace R sample {i} corrupted: {}",
            buf_r[i]
        );
    }
}

#[test]
fn test_bypass_dry_aligned_with_wet_cabsim() {
    let mut rig = Rig::new(256);
    rig.activate();
    rig.load_ir(256);
    assert!(
        rig.restart_requested(),
        "first IR load must request a host restart"
    );
    rig.deactivate();
    rig.activate();
    assert_eq!(
        rig.shared.cold.current_cabsim_latency, 256,
        "cabsim partition must be 256 after the restart"
    );
    assert_eq!(
        rig.shared.rt_to_ui.current_latency, 256,
        "declared latency must equal the cabsim partition"
    );

    let silence = [0.0f32; 256];
    let mut impulse = [0.0f32; 256];
    impulse[0] = 1.0;

    rig.process_same(&silence, &[]);
    rig.process_same(&impulse, &[]);
    let wet_out = rig.process_same(&silence, &[]);
    let wet_peak = first_peak_index(&wet_out, 0.5);
    assert_eq!(
        wet_peak, 0,
        "wet impulse peak must land at block 2 index 0 (256 samples after the input impulse)"
    );
    assert!(
        (wet_out[0] - 1.0).abs() < 0.1,
        "wet peak value must be ~1.0, got {}",
        wet_out[0]
    );

    rig.deactivate();
    rig.activate();
    rig.set_bypass(true);
    rig.process_same(&silence, &[]);
    rig.process_same(&impulse, &[]);
    let dry_out = rig.process_same(&silence, &[]);
    let dry_peak = first_peak_index(&dry_out, 0.5);
    assert_eq!(
        dry_peak, 0,
        "bypass (delayed dry) impulse peak must land at block 2 index 0"
    );
    assert!(
        (dry_out[0] - 1.0).abs() < 1e-4,
        "bypass peak value must be exactly 1.0 (pure delay, no filtering), got {}",
        dry_out[0]
    );
    assert_eq!(
        wet_peak, dry_peak,
        "dry and wet impulse peaks must coincide at the same output index"
    );
}

#[test]
fn test_bypass_dry_aligned_with_wet_oversample() {
    let mut rig = Rig::new(256);
    rig.shared.ui_to_rt.param_oversample = OversampleFactor::X2.code();
    rig.shared.bump_generation();
    rig.activate();
    let silence = [0.0f32; 256];
    for _ in 0..4 {
        rig.process_same(&silence, &[]);
    }
    assert_eq!(
        rig.shared.rt_to_ui.current_latency, 12,
        "declared latency must equal the OS X2 half-band delay (12 samples)"
    );
    let mut impulse = [0.0f32; 256];
    impulse[0] = 1.0;
    let wet_out = rig.process_same(&impulse, &[]);
    let wet_peak = first_peak_index(&wet_out, 0.3);
    assert_eq!(
        wet_peak, 12,
        "wet impulse peak must land at index 12 (OS X2 half-band delay)"
    );

    rig.deactivate();
    rig.shared.ui_to_rt.param_oversample = OversampleFactor::X2.code();
    rig.shared.bump_generation();
    rig.activate();
    rig.set_bypass(true);
    for _ in 0..4 {
        rig.process_same(&silence, &[]);
    }
    let dry_out = rig.process_same(&impulse, &[]);
    let dry_peak = first_peak_index(&dry_out, 0.3);
    assert_eq!(
        dry_peak, 12,
        "bypass (delayed dry) impulse peak must land at index 12"
    );
    assert!(
        (dry_out[12] - 1.0).abs() < 1e-4,
        "bypass peak value must be exactly 1.0 (pure delay), got {}",
        dry_out[12]
    );
    assert_eq!(
        wet_peak, dry_peak,
        "dry and wet impulse peaks must coincide"
    );
}

#[test]
fn test_bypass_crossfade_single_peak_alignment() {
    let mut rig = Rig::new(256);
    rig.activate();
    rig.load_ir(256);
    rig.deactivate();
    rig.activate();
    let silence = [0.0f32; 256];
    rig.process_same(&silence, &[]);

    let mut impulse = [0.0f32; 256];
    impulse[0] = 1.0;
    let xfade_out = rig.process_same(&impulse, &[bypass_event(true)]);
    assert_eq!(
        first_peak_index(&xfade_out, 0.5),
        usize::MAX,
        "no peak must appear in the bypass-transition block (the impulse is in flight)"
    );
    let dry_out = rig.process_same(&silence, &[]);
    assert_eq!(
        first_peak_index(&dry_out, 0.5),
        0,
        "the in-flight impulse must land at block 2 index 0 as a single peak"
    );
    assert!(
        (dry_out[0] - 1.0).abs() < 1e-4,
        "single peak value must be ~1.0, got {}",
        dry_out[0]
    );
    assert_eq!(
        dry_out.iter().filter(|&&s| s.abs() >= 0.5).count(),
        1,
        "exactly one impulse peak expected in block 2"
    );
}

#[test]
fn test_bypass_steady_state_gain_preserved() {
    let mut rig = Rig::new(256);
    rig.activate();
    rig.load_ir(256);
    rig.deactivate();
    rig.activate();
    rig.set_bypass(true);
    let constant = [0.25f32; 256];
    for _ in 0..3 {
        rig.process_same(&constant, &[]);
    }
    for block in 0..4 {
        let out = rig.process_same(&constant, &[]);
        for (i, &s) in out.iter().enumerate() {
            assert!(
                (s - 0.25).abs() < 1e-5,
                "block {block} sample {i}: steady-state gain altered ({s}, expected 0.25)"
            );
        }
    }
}

#[test]
fn test_reset_preserves_config_and_allows_steady_time_regression() {
    let mut rig = Rig::new(256);
    rig.activate();
    rig.set_bypass(false);
    rig.load_ir(8192);
    rig.deactivate();
    rig.activate();
    let silence = [0.0f32; 256];
    rig.process_same(&silence, &[]);
    rig.process_same(&silence, &[]);
    rig.mt.requests.clear();

    rig.processor.as_mut().unwrap().reset();
    rig.process_same(&silence, &[]);

    let mut impulse = [0.0f32; 256];
    impulse[0] = 1.0;
    rig.process_same(&impulse, &[]);
    let p = rig.processor.as_ref().unwrap();
    assert!(
        p.chain.cabsim_adapter.is_some(),
        "IR must remain active after the reset"
    );
    assert_eq!(
        rig.shared.rt_to_ui.current_latency, 256,
        "declared latency must be preserved across reset"
    );
    assert!(
        !rig.restart_requested() && !p.effects.contains(&RtEffect::RequestRestart),
        "reset must never request a host restart"
    );
    assert_eq!(
        rig.shared.ui_to_rt.param_bypass, 0,
        "bypass parameter must survive the reset"
    );
}
