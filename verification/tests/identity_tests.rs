use stream_sync_switcher_core::fps::{
    build_two_real_preview_loop_fps_diagnostics, four_view_clean_output_window_loop_frame_cadence,
};
use stream_sync_switcher_core::identity::{
    classify_two_real_preview_loop_materialization_reason,
    four_view_two_real_tick_diagnostics_from_composition_render,
    two_real_preview_loop_changed_visual_slots, two_real_preview_loop_displayed_frame_identity_parts,
    two_real_preview_loop_slot_visual_identity_render_eq, two_real_preview_loop_visual_change_diagnostics,
    two_real_preview_loop_visual_identities, two_real_preview_loop_visual_identities_render_equal,
    two_real_unchanged_frame_reuse_count, two_real_unchanged_frame_reuse_slots,
    update_two_real_decoded_slot_identities, TwoRealCleanOutputRenderOutcome,
    TwoRealPreviewLoopDecodedSlotIdentity, TwoRealPreviewLoopMaterializationReason,
    TwoRealPreviewLoopSlotVisualIdentity, TwoRealQuadRenderSlot, TwoRealSelectedFrame, TwoRealDecodeFailure};
use stream_sync_switcher_core::obs_runtime::{
    passthrough_render_buffer_diagnostics, ObsFriendlyFourViewLoopWindowRenderRuntime,
    TwoRealPreviewLoopRenderBufferTiming,
};
use stream_sync_switcher_core::pixels::BgraRenderBufferDiagnostics;

fn decode_failure(message: &str) -> TwoRealDecodeFailure {
    TwoRealDecodeFailure {
        message: message.to_string(),
        decode_input_payload_len: 12,
        decode_expected_width: 2,
        decode_expected_height: 1,
        decode_expected_pixel_format: "bgra".to_string(),
        decode_expected_rawvideo_len: 8,
        decoded_stdout_len: 0,
        ffmpeg_exit_status: Some(1),
        ffmpeg_stderr_summary: Some("invalid data".to_string()),
    }
}


fn frame(frame_id: u64) -> TwoRealSelectedFrame {
    TwoRealSelectedFrame {
        client_id: "player1".to_string(),
        run_id: "run-a".to_string(),
        frame_id,
    }
}

fn decoded(frame_id: u64, source: Option<&str>) -> TwoRealPreviewLoopDecodedSlotIdentity {
    TwoRealPreviewLoopDecodedSlotIdentity {
        client_id: "player1".to_string(),
        run_id: "run-a".to_string(),
        frame_id,
        decodable_source: source.map(str::to_string),
    }
}

fn source_frame(frame_id: u64, source: Option<&str>) -> TwoRealPreviewLoopSlotVisualIdentity {
    TwoRealPreviewLoopSlotVisualIdentity::SourceFrame {
        client_id: "player1".to_string(),
        run_id: "run-a".to_string(),
        frame_id,
        selected_frame_source: source.map(str::to_string),
    }
}

fn no_display(reason: &str) -> TwoRealPreviewLoopSlotVisualIdentity {
    TwoRealPreviewLoopSlotVisualIdentity::NoDisplayPlaceholder {
        reason: reason.to_string(),
    }
}

#[test]
fn a_changed_payload_source_does_not_change_the_picture() {
    let a = source_frame(7, Some("keyframe"));
    let b = source_frame(7, Some("cached"));
    assert!(two_real_preview_loop_slot_visual_identity_render_eq(&a, &b));
    assert!(!two_real_preview_loop_slot_visual_identity_render_eq(
        &a,
        &source_frame(8, Some("keyframe"))
    ));
    assert!(!two_real_preview_loop_slot_visual_identity_render_eq(
        &a,
        &no_display("NoFrame")
    ));
}

#[test]
fn change_diagnostics_count_frame_source_and_placeholder_changes() {
    let previous = [
        source_frame(1, Some("a")),
        source_frame(2, Some("a")),
        no_display("NoFrame"),
        source_frame(4, None),
    ];
    let current = [
        source_frame(1, Some("a")),
        source_frame(3, Some("b")),
        source_frame(5, None),
        source_frame(4, None),
    ];
    let d = two_real_preview_loop_visual_change_diagnostics(Some(&previous), &current);
    assert_eq!(d.frame_id_changed_counts, [0, 1, 0, 0]);
    assert_eq!(d.selected_source_changed_counts, [0, 1, 0, 0]);
    assert_eq!(d.placeholder_visual_changed_count, 1);
    let none = two_real_preview_loop_visual_change_diagnostics(None, &current);
    assert_eq!(none.placeholder_visual_changed_count, 0);
    assert_eq!(none.frame_id_changed_counts, [0, 0, 0, 0]);
    assert_eq!(
        two_real_preview_loop_changed_visual_slots(Some(&previous), &current),
        [false, true, true, false]
    );
    assert_eq!(
        two_real_preview_loop_changed_visual_slots(None, &current),
        [true, true, true, true]
    );
    assert!(!two_real_preview_loop_visual_identities_render_equal(&previous, &current));
    assert!(two_real_preview_loop_visual_identities_render_equal(&current, &current));
}

#[test]
fn materialization_reason_follows_the_first_render_and_previous_output() {
    assert_eq!(
        classify_two_real_preview_loop_materialization_reason(0, None, true),
        TwoRealPreviewLoopMaterializationReason::FirstRender
    );
    assert_eq!(
        classify_two_real_preview_loop_materialization_reason(3, None, true),
        TwoRealPreviewLoopMaterializationReason::PreviousOutputMissing
    );
    assert_eq!(
        classify_two_real_preview_loop_materialization_reason(3, Some(true), false),
        TwoRealPreviewLoopMaterializationReason::VisualChanged
    );
    assert_eq!(
        classify_two_real_preview_loop_materialization_reason(3, Some(false), true),
        TwoRealPreviewLoopMaterializationReason::ForceRender
    );
    assert_eq!(
        classify_two_real_preview_loop_materialization_reason(3, Some(true), true),
        TwoRealPreviewLoopMaterializationReason::Unknown
    );
}

#[test]
fn slot_pictures_follow_the_render_slots() {
    let identities = [Some(decoded(9, Some("latest"))), None, None, None];
    let slots = [
        TwoRealQuadRenderSlot::UpdatedFrame {
            selected: Some(frame(8)),
            has_decoded: true,
        },
        TwoRealQuadRenderSlot::HeldPreviousFrame {
            selected: None,
            has_decoded: true,
        },
        TwoRealQuadRenderSlot::SourceErrorPlaceholder {
            reason: "HandoffError".to_string(),
        },
        TwoRealQuadRenderSlot::DecodeFailedPlaceholder {
            selected: frame(11),
            failure: decode_failure("bad nal"),
        },
    ];
    let pictures = two_real_preview_loop_visual_identities(&identities, &slots);
    assert_eq!(pictures[0], source_frame(9, Some("latest")));
    assert_eq!(
        pictures[1],
        TwoRealPreviewLoopSlotVisualIdentity::SourceFrame {
            client_id: "unknown-client".to_string(),
            run_id: "unknown-run".to_string(),
            frame_id: 0,
            selected_frame_source: None,
        }
    );
    assert_eq!(
        pictures[2],
        TwoRealPreviewLoopSlotVisualIdentity::SourceErrorPlaceholder {
            reason: "HandoffError".to_string()
        }
    );
    assert_eq!(
        pictures[3],
        TwoRealPreviewLoopSlotVisualIdentity::DecodeFailedPlaceholder {
            client_id: "player1".to_string(),
            run_id: "run-a".to_string(),
            frame_id: 11,
            selected_frame_source: None,
            failure: "bad nal".to_string(),
        }
    );
    assert_eq!(
        two_real_preview_loop_displayed_frame_identity_parts(Some(&frame(4)), None),
        ("player1".to_string(), "run-a".to_string(), 4, None)
    );
}

#[test]
fn decoded_identities_update_only_for_newly_decoded_frames() {
    let current = [Some(decoded(1, None)), Some(decoded(2, None)), None, None];
    let selected = [Some(frame(5)), Some(frame(6)), None, Some(frame(7))];
    let sources = [Some("fresh".to_string()), None, None, None];
    let slots = [
        TwoRealQuadRenderSlot::UpdatedFrame {
            selected: Some(frame(5)),
            has_decoded: true,
        },
        TwoRealQuadRenderSlot::HeldPreviousFrame {
            selected: Some(frame(6)),
            has_decoded: true,
        },
        TwoRealQuadRenderSlot::UpdatedFrame {
            selected: None,
            has_decoded: true,
        },
        TwoRealQuadRenderSlot::UpdatedFrame {
            selected: Some(frame(7)),
            has_decoded: false,
        },
    ];
    let next = update_two_real_decoded_slot_identities(&current, &selected, &sources, &slots);
    assert_eq!(next[0], Some(decoded(5, Some("fresh"))));
    assert_eq!(next[1], Some(decoded(2, None)));
    assert_eq!(next[2], None);
    assert_eq!(next[3], None);

    let reuse = two_real_unchanged_frame_reuse_slots(&next, &next, &slots);
    assert_eq!(reuse, [true, false, false, false]);
    assert_eq!(two_real_unchanged_frame_reuse_count(&reuse), 1);
    assert_eq!(two_real_unchanged_frame_reuse_count(&[true, true, false, true]), 3);
}

#[test]
fn tick_diagnostics_count_results_decodes_and_renders() {
    let kinds = [
        "Selected".to_string(),
        "NoFrameAvailable".to_string(),
        "HandoffError".to_string(),
        "Selected".to_string(),
    ];
    let slots = [
        TwoRealQuadRenderSlot::UpdatedFrame {
            selected: Some(frame(1)),
            has_decoded: true,
        },
        TwoRealQuadRenderSlot::NoDisplayPlaceholder {
            reason: "NoFrame".to_string(),
        },
        TwoRealQuadRenderSlot::DecodeDeferredPlaceholder {
            selected: frame(2),
            reason: "WaitingForKeyframe".to_string(),
        },
        TwoRealQuadRenderSlot::HeldPreviousFrame {
            selected: Some(frame(3)),
            has_decoded: true,
        },
    ];
    let d = four_view_two_real_tick_diagnostics_from_composition_render(
        &kinds,
        &slots,
        TwoRealCleanOutputRenderOutcome::RenderFailed,
    );
    assert_eq!(d.selected_count, 2);
    assert_eq!(d.no_frame_count, 1);
    assert_eq!(d.handoff_error_count, 1);
    assert_eq!(d.decode_attempt_count, 2);
    assert_eq!(d.decode_success_count, 1);
    assert_eq!(d.render_success_count, 0);
    assert_eq!(d.render_failure_count, 1);
}

#[test]
fn fps_counts_follow_the_first_render() {
    assert_eq!(four_view_clean_output_window_loop_frame_cadence(), 33_333_333);
    let d = build_two_real_preview_loop_fps_diagnostics(1_000, 33_333_333, 30, 20, Some(5), Some(200));
    assert_eq!(d.target_fps, 30);
    assert_eq!(d.configured_frame_interval_ms, 33);
    assert_eq!(d.no_render_before_first_render, 4);
    assert_eq!(d.rendered_after_first_render, 20);
    assert_eq!(d.elapsed_after_first_render_ms, 800);
    let none = build_two_real_preview_loop_fps_diagnostics(10, 0, 7, 0, None, None);
    assert_eq!(none.target_fps, 0);
    assert_eq!(none.no_render_before_first_render, 7);
    assert_eq!(none.rendered_after_first_render, 0);
    assert_eq!(none.elapsed_after_first_render_ms, 0);
}

#[test]
fn render_runtime_keeps_totals_and_last_frame() {
    let timing = TwoRealPreviewLoopRenderBufferTiming {
        render_buffer_copy_elapsed_ms: 0,
        render_buffer_scale_prepare_elapsed_ms: 0,
        render_buffer_scale_loop_elapsed_ms: 0,
        render_buffer_output_copy_elapsed_ms: 0,
        render_buffer_resize_elapsed_ms: 0,
        render_buffer_clear_elapsed_ms: 0,
        render_buffer_passthrough_count: 0,
        render_buffer_same_size_copy_count: 0,
        render_buffer_half_scale_count: 0,
        render_buffer_generic_scale_count: 0,
        render_buffer_reuse_count: u32::MAX,
        render_buffer_allocation_count: 0,
        render_buffer_bytes_copied_total: 0,
        window_update_elapsed_ms: 0,
        render_backend_wait_elapsed_ms: 0,
    };
    let mut runtime = ObsFriendlyFourViewLoopWindowRenderRuntime::with_timing(timing);
    let mut d = BgraRenderBufferDiagnostics::default();
    d.same_size_copy_count = 1;
    d.reuse_count = 1;
    d.bytes_copied_total = 64;
    runtime.record_render_buffer_diagnostics(3, d);
    runtime.record_render_buffer_diagnostics(2, passthrough_render_buffer_diagnostics());
    runtime.record_rendered_frame(2560, 1440, 1280, 720, 3_686_400, Some(true), Some(true), 4);
    let totals = runtime.timing_snapshot().expect("totals are kept");
    assert_eq!(totals.render_buffer_copy_elapsed_ms, 5);
    assert_eq!(totals.render_buffer_same_size_copy_count, 1);
    assert_eq!(totals.render_buffer_passthrough_count, 1);
    assert_eq!(totals.render_buffer_reuse_count, u32::MAX);
    assert_eq!(totals.render_buffer_bytes_copied_total, 64);
    assert_eq!(totals.window_update_elapsed_ms, 4);
    assert_eq!(totals.render_backend_wait_elapsed_ms, 4);
    let metadata = runtime.metadata_snapshot();
    assert_eq!(metadata.source_width, Some(2560));
    assert_eq!(metadata.output_height, Some(720));
    assert_eq!(metadata.bgra_payload_len, Some(3_686_400));

    let mut plain = ObsFriendlyFourViewLoopWindowRenderRuntime::new();
    plain.record_render_buffer_diagnostics(3, d);
    assert!(plain.timing_snapshot().is_none());
    assert_eq!(plain.metadata_snapshot().source_width, None);
}
