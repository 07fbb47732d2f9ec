//! Flags, messages and other bookkeeping of the main thread.

use nam_plug::errors::{activation, assets, dsp_resources, state_txn, static_plugin_error};
use nam_plug::gui::{
    discard_pending_gui_close, main_thread_duty, promote_window_ready,
    reconcile_pending_gui_close, GuiLifecycle, MainThreadDuty,
};
use nam_plug::instances::InstanceRegistry;
use nam_plug::logging::{emit_pending_logs, LogSeverity};
use nam_plug::metadata::{describe, format_date, ModelDate, ModelMetadata};
use nam_plug::params::{
    ActivationPrecision, AdaptiveComputeMode, OversampleFactor, RtProcessingParams, SlimOverride,
};
use nam_plug::shared::{GuiSharedState, PendingRestartOs};
use nam_plug::status::{
    RtStatusFlags, RT_STATUS_GC_CORRUPTED, RT_STATUS_GC_OVERFLOW, RT_STATUS_GC_TIER3,
    RT_STATUS_GUI_EVENT_BACKPRESSURE, RT_STATUS_HAS_CLIPPED, RT_STATUS_HEAP_ALLOC,
    RT_STATUS_HUGEPAGE_OK, RT_STATUS_MODEL_LOAD_FAILED, RT_STATUS_NEEDS_OS_REBUILD,
    RT_STATUS_SLIMMABLE_SLICE_FAILED, RT_STATUS_SPSC_DRAIN_TRUNCATED,
    RT_STATUS_STRUCTURAL_DEFERRED, RT_STATUS_STRUCTURAL_SUPERSEDED, RT_STATUS_THP_ACTIVE,
};

fn flag_set_and_clear() {
    let mut rt_status = RtStatusFlags::new();

    rt_status.set_flag(RT_STATUS_HAS_CLIPPED);
    rt_status.set_flag(RT_STATUS_GC_OVERFLOW);
    rt_status.set_flag(RT_STATUS_HUGEPAGE_OK);

    assert!(rt_status.check_flag(RT_STATUS_HAS_CLIPPED));
    assert!(rt_status.check_flag(RT_STATUS_GC_OVERFLOW));
    assert!(rt_status.check_flag(RT_STATUS_HUGEPAGE_OK));

    assert!(rt_status.check_and_clear_flag(RT_STATUS_HAS_CLIPPED));
    assert!(!rt_status.check_flag(RT_STATUS_HAS_CLIPPED));

    assert!(rt_status.check_and_clear_flag(RT_STATUS_GC_OVERFLOW));
    assert!(!rt_status.check_flag(RT_STATUS_GC_OVERFLOW));

    assert!(rt_status.check_and_clear_flag(RT_STATUS_HUGEPAGE_OK));
    assert!(!rt_status.check_flag(RT_STATUS_HUGEPAGE_OK));

    assert_eq!(
        rt_status.flags_seen,
        RT_STATUS_HAS_CLIPPED | RT_STATUS_GC_OVERFLOW | RT_STATUS_HUGEPAGE_OK,
        "flags_seen should accumulate all flags that were ever set"
    );
}

#[test]
fn mod_test_flag_set_and_clear_mechanism() {
    flag_set_and_clear();
}

#[test]
fn processor_diagnostics_logging_test_test_flag_set_and_clear_mechanism() {
    flag_set_and_clear();
}

fn messages_are_emitted() {
    let mut shared = GuiSharedState::new_test();
    shared.cold.rt_status.set_flag(RT_STATUS_HAS_CLIPPED);
    shared.cold.rt_status.set_flag(RT_STATUS_GC_OVERFLOW);
    shared.cold.rt_status.set_flag(RT_STATUS_MODEL_LOAD_FAILED);
    let lines = emit_pending_logs(&mut shared.cold);
    assert!(lines.len() > 2);
    let contains = |text: &str| lines.iter().any(|line| line.text.contains(text));
    assert!(contains("Output clipping detected"));
    assert!(contains("GC channel overflow"));
    assert!(contains("Critical failure! No active model for processing"));
    assert!(!shared.cold.rt_status.check_flag(RT_STATUS_HAS_CLIPPED));
}

#[test]
fn mod_test_emit_pending_logs_messages_reach_log_buffer() {
    messages_are_emitted();
}

#[test]
fn processor_diagnostics_logging_test_test_emit_pending_logs_messages_reach_log_buffer() {
    messages_are_emitted();
}

#[test]
fn every_message_in_order_and_once() {
    let flags = [
        (RT_STATUS_HAS_CLIPPED, LogSeverity::Warning, "NAM-Plug: Output clipping detected!"),
        (
            RT_STATUS_GC_OVERFLOW,
            LogSeverity::Error,
            "NAM-Plug: GC channel overflow! Possible memory leak.",
        ),
        (
            RT_STATUS_GC_TIER3,
            LogSeverity::Warning,
            "NAM-Plug: GC cascade reached Tier 3 (overflow buffer). Sustained GC pressure.",
        ),
        (
            RT_STATUS_GC_CORRUPTED,
            LogSeverity::Error,
            "NAM-Plug: GC overflow buffer corrupted! Forced leak to avoid UB.",
        ),
        (
            RT_STATUS_MODEL_LOAD_FAILED,
            LogSeverity::Error,
            "NAM-Plug: Critical failure! No active model for processing.",
        ),
        (
            RT_STATUS_HEAP_ALLOC,
            LogSeverity::Error,
            "NAM-Plug: Heap allocation detected in audio thread during process()!",
        ),
        (
            RT_STATUS_HUGEPAGE_OK,
            LogSeverity::Info,
            "NAM-Plug: HugeTLB explicit 2 MB pages active — reduced TLB pressure on DSP thread.",
        ),
        (
            RT_STATUS_THP_ACTIVE,
            LogSeverity::Info,
            "NAM-Plug: Transparent Huge Pages (THP) advice active — kernel may promote to 2 MB.",
        ),
        (
            RT_STATUS_SLIMMABLE_SLICE_FAILED,
            LogSeverity::Error,
            "NAM-Plug: WaveNet slimmable slice_channels rebuild failed.",
        ),
        (
            RT_STATUS_SPSC_DRAIN_TRUNCATED,
            LogSeverity::Warning,
            "SPSC command queue drain limit reached (64 events) - pending events deferred",
        ),
        (
            RT_STATUS_GUI_EVENT_BACKPRESSURE,
            LogSeverity::Warning,
            "NAM-Plug: GUI event queue backpressure - host output full; gesture events retained for retry",
        ),
        (
            RT_STATUS_STRUCTURAL_DEFERRED,
            LogSeverity::Info,
            "NAM-Plug: Structural command deferred to the next callback (command budget 1/callback) - FIFO order preserved",
        ),
        (
            RT_STATUS_STRUCTURAL_SUPERSEDED,
            LogSeverity::Info,
            "NAM-Plug: Deferred structural command superseded by a newer same-kind command; obsolete resources discarded off-RT (coalescing)",
        ),
    ];
    let mut shared = GuiSharedState::new_test();
    for (flag, _, _) in flags.iter().rev() {
        shared.cold.rt_status.set_flag(*flag);
    }
    shared.cold.rt_status.set_flag(RT_STATUS_NEEDS_OS_REBUILD);
    let lines = emit_pending_logs(&mut shared.cold);
    assert_eq!(lines.len(), flags.len());
    for (line, (_, severity, text)) in lines.iter().zip(flags.iter()) {
        assert_eq!(line.severity, *severity);
        assert_eq!(line.text, *text);
    }
    // Flags without a message stay, and no message comes twice.
    assert_eq!(shared.cold.rt_status.flags, RT_STATUS_NEEDS_OS_REBUILD);
    assert!(emit_pending_logs(&mut shared.cold).is_empty());

    // Each flag gives its own message alone.
    for (flag, _, text) in flags.iter() {
        shared.cold.rt_status.set_flag(*flag);
        let lines = emit_pending_logs(&mut shared.cold);
        assert_eq!(lines.len(), 1);
        assert_eq!(lines[0].text, *text);
    }
}

#[test]
fn host_gets_the_fixed_message_and_the_log_the_detail() {
    let report = static_plugin_error(state_txn::EMPTY_BUFFER, "0 bytes");
    assert_eq!(report.message, "Empty state buffer");
    assert_eq!(report.log, "NAM-Plug [Empty state buffer]: 0 bytes");
    assert_eq!(
        activation::PARAM_RX_ALREADY_EXTRACTED,
        "param_rx consumer has already been extracted"
    );
    assert_eq!(
        assets::HASH_TARGET_NOT_REGULAR_FILE,
        "Asset is not a regular file"
    );
    assert_eq!(
        dsp_resources::OVERSAMPLER_BUILD_FAILED,
        "Failed to build the oversampling engine"
    );
}

#[test]
fn dates_are_shown_as_far_as_they_are_known() {
    let date = |year, month, day| format_date(ModelDate { year, month, day });
    assert_eq!(
        date(Some(2024), Some(3), Some(9)).as_deref(),
        Some("2024-03-09")
    );
    assert_eq!(date(Some(987), Some(12), None).as_deref(), Some("0987-12"));
    assert_eq!(date(Some(2024), None, None).as_deref(), Some("2024"));
    assert_eq!(date(Some(12345), None, None).as_deref(), Some("12345"));
    assert_eq!(date(Some(2024), None, Some(5)), None);
    assert_eq!(date(None, Some(3), Some(9)), None);
    assert_eq!(date(None, None, None), None);
}

#[test]
fn models_are_described() {
    let shown = describe(
        "WaveNet".to_string(),
        "standard".to_string(),
        48000,
        Some(ModelMetadata {
            modeled_by: Some("someone".to_string()),
            gear_make: None,
            gear_model: Some("amp".to_string()),
            gear_type: None,
            tone_type: Some("clean".to_string()),
            date: Some(ModelDate {
                year: Some(2023),
                month: None,
                day: None,
            }),
        }),
    );
    assert_eq!(shown.architecture, "WaveNet");
    assert_eq!(shown.topology, "standard");
    assert_eq!(shown.sample_rate, 48000);
    assert_eq!(shown.modeled_by.as_deref(), Some("someone"));
    assert_eq!(shown.gear_make, None);
    assert_eq!(shown.gear_model.as_deref(), Some("amp"));
    assert_eq!(shown.tone_type.as_deref(), Some("clean"));
    assert_eq!(shown.date.as_deref(), Some("2023"));
    let bare = describe("LSTM".to_string(), String::new(), 44100, None);
    assert_eq!(bare.date, None);
    assert_eq!(bare.modeled_by, None);
}

#[test]
fn sixteen_instances_have_identifiers_of_their_own() {
    let mut registry = InstanceRegistry::new();
    let mut ids = vec![];
    for i in 0..16 {
        assert_eq!(registry.bump_active_instances(), i == 0);
        ids.push(registry.next_instance_id());
    }
    let mut unique = ids.clone();
    unique.sort();
    unique.dedup();
    assert_eq!(unique.len(), 16);
    for i in 0..16 {
        assert_eq!(registry.drop_instance(), i == 15);
    }
    // Identifiers are not given twice.
    assert!(registry.bump_active_instances());
    assert!(!ids.contains(&registry.next_instance_id()));
}

#[test]
fn window_life() {
    assert_eq!(
        promote_window_ready(GuiLifecycle::ShowRequested),
        GuiLifecycle::Active
    );
    for other in [
        GuiLifecycle::Hidden,
        GuiLifecycle::Active,
        GuiLifecycle::HideRequested,
        GuiLifecycle::Destroyed,
    ] {
        assert_eq!(promote_window_ready(other), other);
    }
    let mut shared = GuiSharedState::new_test();
    assert!(!reconcile_pending_gui_close(&mut shared.cold));
    shared.cold.gui_user_closed = true;
    assert!(reconcile_pending_gui_close(&mut shared.cold));
    assert!(!reconcile_pending_gui_close(&mut shared.cold));
    shared.cold.gui_user_closed = true;
    discard_pending_gui_close(&mut shared.cold);
    assert!(!reconcile_pending_gui_close(&mut shared.cold));

    shared.cold.alive_fence = true;
    assert_eq!(main_thread_duty(&shared.cold), MainThreadDuty::Housekeeping);
    shared.cold.alive_fence = false;
    assert_eq!(main_thread_duty(&shared.cold), MainThreadDuty::FinalDrain);
}

#[test]
fn pending_restart_tells_off_from_nothing() {
    let mut cell: u32 = 0;
    assert_eq!(PendingRestartOs::load(&cell), PendingRestartOs::NotPending);
    for factor in [
        OversampleFactor::Off,
        OversampleFactor::X2,
        OversampleFactor::X4,
    ] {
        PendingRestartOs::Pending(factor).store(&mut cell);
        assert_ne!(cell, 0);
        assert_eq!(
            PendingRestartOs::load(&cell),
            PendingRestartOs::Pending(factor)
        );
        assert_eq!(
            PendingRestartOs::take(&mut cell),
            PendingRestartOs::Pending(factor)
        );
        assert_eq!(PendingRestartOs::load(&cell), PendingRestartOs::NotPending);
    }
}

#[test]
fn codes_of_choices() {
    assert_eq!(AdaptiveComputeMode::from_code(0), Some(AdaptiveComputeMode::Off));
    assert_eq!(AdaptiveComputeMode::from_code(3), None);
    assert_eq!(SlimOverride::from_code(0), Some(SlimOverride::Auto));
    assert_eq!(SlimOverride::from_code(3), None);
    assert_eq!(OversampleFactor::from_code(2), Some(OversampleFactor::X4));
    assert_eq!(OversampleFactor::from_code(3), None);
    assert_eq!(
        ActivationPrecision::from_code(1),
        Some(ActivationPrecision::Standard)
    );
    assert_eq!(ActivationPrecision::from_code(2), None);
    for code in 0..3 {
        assert_eq!(OversampleFactor::from_code(code).unwrap().code(), code);
    }
    // An unknown code stands for the choice of a new instance.
    assert_eq!(AdaptiveComputeMode::decode(0), AdaptiveComputeMode::Off);
    assert_eq!(
        AdaptiveComputeMode::decode(3),
        AdaptiveComputeMode::Conservative
    );
    assert_eq!(SlimOverride::decode(1), SlimOverride::from_code(1).unwrap());
    assert_eq!(SlimOverride::decode(u32::MAX), SlimOverride::Auto);
    assert_eq!(OversampleFactor::decode(2), OversampleFactor::X4);
    assert_eq!(OversampleFactor::decode(3), OversampleFactor::Off);
    assert_eq!(ActivationPrecision::decode(0), ActivationPrecision::Fast);
    assert_eq!(ActivationPrecision::decode(2), ActivationPrecision::Standard);
    let params = RtProcessingParams::default();
    assert_eq!(f32::from_bits(params.input_gain_db), 0.0);
    assert_eq!(f32::from_bits(params.gate_threshold_db), -90.0);
    assert!(!params.bypass);
    assert_eq!(params.adaptive_compute, AdaptiveComputeMode::Conservative);
    assert_eq!(params.activation_precision, ActivationPrecision::Standard);
}

#[test]
fn model_generations_are_never_zero_twice() {
    let mut shared = GuiSharedState::new_test();
    assert_eq!(shared.cold.allocate_model_generation(), 1);
    assert_eq!(shared.cold.allocate_model_generation(), 2);
    assert!(!shared.is_model_dialog_active());
    shared.set_model_dialog_active(true);
    assert!(shared.is_model_dialog_active());
    shared.set_model_dialog_active(false);
    assert!(!shared.is_model_dialog_active());
}
