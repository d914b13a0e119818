use stream_sync_switcher_core::control::{
    SwitcherFourViewControlledPreviewCommandSummary, SwitcherFourViewControlledPreviewViewState,
};
use stream_sync_switcher_core::loop_summaries::{
    format_four_view_clean_output_window_loop_summary,
    format_four_view_controlled_handoff_preview_command_summary,
    format_four_view_controlled_handoff_preview_loop_summary,
    format_four_view_focused_handoff_preview_loop_summary,
    format_four_view_four_real_handoff_preview_loop_summary,
    format_four_view_real_handoff_preview_loop_summary,
    format_four_view_two_real_handoff_preview_loop_summary,
    SwitcherFourViewTwoRealHandoffPreviewLoopSummary,
    SwitcherFourViewCleanOutputWindowLoopSummary, SwitcherFourViewControlledHandoffPreviewLoopSummary,
    SwitcherFourViewFocusedHandoffPreviewLoopSummary, SwitcherFourViewFourRealHandoffPreviewLoopSummary,
    SwitcherFourViewRealHandoffPreviewLoopSummary,
};
use stream_sync_switcher_core::modes::ManualPreviewFixtureMode;

fn four(prefix: &str) -> [String; 4] {
    [0, 1, 2, 3].map(|i| format!("{prefix}{i}"))
}

#[test]
fn real_handoff_preview_loop_summary_is_one_line_of_fields() {
    let summary = SwitcherFourViewRealHandoffPreviewLoopSummary {
        real_slot_index: 2,
        pipe_name: "fixture-pipe".to_string(),
        actual_pipe_path: r"\\.\pipe\fixture-pipe".to_string(),
        client_id: "real-client".to_string(),
        run_id: "real-run".to_string(),
        frames_attempted: 3,
        frames_rendered: 2,
        render_failures: 1,
        scheduler_status: "PartialSelected".to_string(),
        slot_bindings: four("b"),
        slot_result_kinds: four("k"),
        slot_diagnostics: four("d"),
        clean_output_render_result_kind: "Rendered".to_string(),
        window_title: "StreamSync Clean Output".to_string(),
        output_width: Some(1280),
        output_height: None,
    };
    assert_eq!(
        format_four_view_real_handoff_preview_loop_summary(&summary),
        r"switcher four-view real handoff preview loop command_name=--four-view-real-handoff-preview-loop real_handoff=true real_slot_count=1 real_slot_index=2 pipe_name=fixture-pipe actual_pipe_path=\\.\pipe\fixture-pipe client_id=real-client run_id=real-run frames_attempted=3 frames_rendered=2 render_failures=1 scheduler_status=PartialSelected slot_bindings=b0|b1|b2|b3 slot_result_kinds=k0|k1|k2|k3 slot_diagnostics=d0|d1|d2|d3 clean_output_render_result_kind=Rendered window_title=StreamSync Clean Output output_width=1280 output_height=none"
    );
}

#[test]
fn clean_output_window_loop_summary_names_the_fixture_and_window_state() {
    let summary = SwitcherFourViewCleanOutputWindowLoopSummary {
        fixture_mode: ManualPreviewFixtureMode::AllRenderable,
        window_title: "t".to_string(),
        frames_attempted: 2,
        frames_rendered: 2,
        render_failures: 0,
        window_created: true,
        persistent_window: true,
        window_updates: 2,
        window_closed: true,
        source_width: Some(1280),
        source_height: Some(720),
        output_width: Some(1280),
        output_height: Some(720),
        scale_mode: "passthrough".to_string(),
        window_visible: Some(true),
        window_capture_candidate: None,
        bgra_payload_len: Some(3_686_400),
    };
    assert_eq!(
        format_four_view_clean_output_window_loop_summary(&summary),
        "switcher four-view clean output window loop command_name=--four-view-clean-output-window-loop fixture_mode=all-renderable clean_output_window=true actual_window_render=true real_handoff=false window_title=t frames_attempted=2 frames_rendered=2 render_failures=0 window_created=true persistent_window=true window_updates=2 window_closed=true source_width=1280 source_height=720 output_width=1280 output_height=720 scale_mode=passthrough window_visible=true window_capture_candidate=none bgra_payload_len=3686400"
    );
}

#[test]
fn four_real_and_focused_loop_summaries_carry_every_slot() {
    let four_real = SwitcherFourViewFourRealHandoffPreviewLoopSummary {
        pipe_name: "p".to_string(),
        actual_pipe_path: "q".to_string(),
        preview_mode: "preview-latest".to_string(),
        read_mode: "PreviewLatest".to_string(),
        client0_id: "c0".to_string(),
        run0_id: "r0".to_string(),
        client1_id: "c1".to_string(),
        run1_id: "r1".to_string(),
        client2_id: "c2".to_string(),
        run2_id: "r2".to_string(),
        client3_id: "c3".to_string(),
        run3_id: "r3".to_string(),
        frames_attempted: 1,
        frames_rendered: 1,
        render_failures: 0,
        scheduler_status: "AllSelected".to_string(),
        slot_bindings: four("b"),
        slot_result_kinds: four("k"),
        slot_diagnostics: four("d"),
        clean_output_render_result_kind: "Rendered".to_string(),
        window_title: "w".to_string(),
        output_width: None,
        output_height: None,
    };
    let line = format_four_view_four_real_handoff_preview_loop_summary(&four_real);
    assert!(line.starts_with("switcher four-view four-real handoff preview loop command_name=--four-view-four-real-handoff-preview-loop real_handoff=true real_slot_count=4 pipe_name=p actual_pipe_path=q preview_mode=preview-latest read_mode=PreviewLatest client0_id=c0 run0_id=r0 client1_id=c1"));
    assert!(line.contains(" client3_id=c3 run3_id=r3 frames_attempted=1 "));
    assert!(line.contains(" scheduler_status=AllSelected "));
    assert!(line.ends_with(" window_title=w output_width=none output_height=none"));

    let focused = SwitcherFourViewFocusedHandoffPreviewLoopSummary {
        pipe_name: "p".to_string(),
        actual_pipe_path: "q".to_string(),
        focused_slot_index: 1,
        client0_id: "c0".to_string(),
        run0_id: "r0".to_string(),
        client1_id: "c1".to_string(),
        run1_id: "r1".to_string(),
        client2_id: "c2".to_string(),
        run2_id: "r2".to_string(),
        client3_id: "c3".to_string(),
        run3_id: "r3".to_string(),
        focused_client_id: "c1".to_string(),
        focused_run_id: "r1".to_string(),
        focused_result_kind: "NoFrameAvailable".to_string(),
        frames_attempted: 1,
        frames_rendered: 0,
        render_failures: 0,
        scheduler_status: "NoFrames".to_string(),
        slot_bindings: four("b"),
        slot_result_kinds: four("k"),
        slot_diagnostics: four("d"),
        clean_output_render_result_kind: "NoRenderableFocusedView".to_string(),
        window_title: "w".to_string(),
        output_width: None,
        output_height: None,
    };
    let line = format_four_view_focused_handoff_preview_loop_summary(&focused);
    assert!(line.contains(" view_state=Focused focused_slot_index=1 pipe_name=p "));
    assert!(line.contains(" focused_client_id=c1 focused_run_id=r1 focused_result_kind=NoFrameAvailable "));
    assert!(line.contains(" clean_output_render_result_kind=NoRenderableFocusedView "));
}

#[test]
fn controlled_loop_and_command_summaries_name_the_view_state() {
    let command = SwitcherFourViewControlledPreviewCommandSummary {
        command_index: 1,
        control_command_name: "focus".to_string(),
        current_view_state: SwitcherFourViewControlledPreviewViewState::Focused(2),
        view_render_mode: "Focused".to_string(),
        output_layout: "FocusedFullWindow".to_string(),
        requested_transition: "Focused(2)".to_string(),
        transition_result: "Transitioned".to_string(),
        selected_slot_result: "Selected".to_string(),
        rendered_slot_count: 1,
        focused_slot_index: Some(2),
        frames_rendered: 1,
        render_failures: 0,
        scheduler_status: "AllSelected".to_string(),
        clean_output_render_result_kind: "Rendered".to_string(),
        all_view_render_result_kind: "not_applicable".to_string(),
        command_parse_error: "bad input, really".to_string(),
        exit_reason: "none".to_string(),
    };
    let line = format_four_view_controlled_handoff_preview_command_summary(&command);
    assert_eq!(
        line,
        "switcher four-view controlled handoff preview command command_name=--four-view-controlled-handoff-preview-loop command_index=1 control_command_name=focus current_view_state=Focused(2) view_render_mode=Focused output_layout=FocusedFullWindow requested_transition=Focused(2) transition_result=Transitioned selected_slot_result=Selected rendered_slot_count=1 focused_slot_index=2 frames_rendered=1 render_failures=0 scheduler_status=AllSelected clean_output_render_result_kind=Rendered all_view_render_result_kind=not_applicable command_parse_error=bad_input__really exit_reason=none"
    );

    let summary = SwitcherFourViewControlledHandoffPreviewLoopSummary {
        pipe_name: "p".to_string(),
        actual_pipe_path: "q".to_string(),
        client0_id: "c0".to_string(),
        run0_id: "r0".to_string(),
        client1_id: "c1".to_string(),
        run1_id: "r1".to_string(),
        client2_id: "c2".to_string(),
        run2_id: "r2".to_string(),
        client3_id: "c3".to_string(),
        run3_id: "r3".to_string(),
        max_ticks_per_command: 2,
        command_source: "scripted:status;quit".to_string(),
        command_summaries: vec![command],
        final_view_state: SwitcherFourViewControlledPreviewViewState::AllView,
        commands_processed: 2,
        commands_rejected: 0,
        view_render_mode: "AllView".to_string(),
        output_layout: "QuadView".to_string(),
        rendered_slot_count: 4,
        focused_slot_index: None,
        frames_rendered: 2,
        render_failures: 0,
        scheduler_status: "AllSelected".to_string(),
        slot_bindings: four("b"),
        slot_result_kinds: four("k"),
        slot_diagnostics: four("d"),
        clean_output_render_result_kind: "Rendered".to_string(),
        all_view_render_result_kind: "Rendered".to_string(),
        window_title: "w".to_string(),
        output_width: Some(1280),
        output_height: Some(720),
        exit_reason: "QuitRequested".to_string(),
    };
    let line = format_four_view_controlled_handoff_preview_loop_summary(&summary);
    assert!(line.starts_with("switcher four-view controlled handoff preview loop command_name=--four-view-controlled-handoff-preview-loop real_handoff=true real_slot_count=4 pipe_name=p "));
    assert!(line.contains(" command_source=scripted:status;quit max_ticks_per_command=2 commands_processed=2 commands_rejected=0 current_view_state=AllView view_render_mode=AllView output_layout=QuadView rendered_slot_count=4 focused_slot_index=none "));
    assert!(line.ends_with(" output_width=1280 output_height=720 exit_reason=QuitRequested"));
}

#[test]
fn two_real_handoff_preview_loop_summary_writes_every_counter_in_order() {
    let summary = SwitcherFourViewTwoRealHandoffPreviewLoopSummary {
        real_slot0_index: 1,
        real_slot1_index: 2,
        pipe_name: "pipe_name".to_string(),
        actual_pipe_path: "actual_pipe_path".to_string(),
        preview_mode: "preview_mode".to_string(),
        read_mode: "read_mode".to_string(),
        client0_id: "client0_id".to_string(),
        run0_id: "run0_id".to_string(),
        client1_id: "client1_id".to_string(),
        run1_id: "run1_id".to_string(),
        frames_attempted: 11,
        frames_rendered: 12,
        render_failures: 13,
        elapsed_ms: 14,
        target_fps: 15,
        configured_frame_interval_ms: 16,
        effective_attempt_fps: "1.500".to_string(),
        effective_render_fps: "1.500".to_string(),
        first_render_attempt_index: Some(19),
        first_render_elapsed_ms: None,
        rendered_after_first_render: 21,
        effective_render_fps_after_first_render: "1.500".to_string(),
        no_render_before_first_render: 23,
        selected_count: 24,
        no_frame_count: 25,
        handoff_error_count: 26,
        decode_attempt_count: 27,
        decode_success_count: 28,
        render_success_count: 29,
        render_failure_count: 30,
        unchanged_frame_reuse_count: 31,
        skipped_decode_unchanged_frame_count: 32,
        redecoded_same_frame_count: 33,
        decode_elapsed_ms: 34,
        decode_process_spawn_elapsed_ms: 35,
        decode_input_write_elapsed_ms: 36,
        decode_input_payload_bytes_total: 37,
        decode_output_read_elapsed_ms: 38,
        decode_output_read_exact_elapsed_ms: 39,
        decode_output_vec_resize_elapsed_ms: 40,
        decode_process_wait_elapsed_ms: 41,
        decode_pixel_convert_elapsed_ms: 42,
        decode_buffer_allocation_count: 43,
        decode_output_bytes_total: 44,
        decode_stdout_expected_bytes_total: 45,
        decode_cached_frame_reuse_count: 46,
        decode_cache_miss_count: 47,
        decoded_buffer_clone_count: 48,
        decode_cache_hit_clone_count: 49,
        decode_cache_store_clone_count: 50,
        decoded_buffer_clone_elapsed_ms: 51,
        composed_buffer_clone_count: 52,
        decode_output_buffer_reuse_count: 53,
        persistent_decode_enabled: true,
        persistent_decode_attempt_count: 55,
        persistent_decode_success_count: 56,
        persistent_decode_failure_count: 57,
        persistent_decode_fallback_count: 58,
        persistent_decode_process_spawn_count: 59,
        persistent_decode_process_restart_count: 60,
        persistent_decode_stdin_write_elapsed_ms: 61,
        persistent_decode_stdout_read_elapsed_ms: 62,
        persistent_decode_stdout_read_exact_elapsed_ms: 63,
        persistent_decode_output_bytes_total: 64,
        persistent_decode_last_error: "spawn failed, retry".to_string(),
        one_shot_decode_fallback_count: 66,
        handoff_elapsed_ms: 67,
        render_elapsed_ms: 68,
        avg_decode_elapsed_ms: "1.500".to_string(),
        avg_decode_input_write_elapsed_ms: "1.500".to_string(),
        avg_decode_output_read_elapsed_ms: "1.500".to_string(),
        avg_decode_process_spawn_elapsed_ms: "1.500".to_string(),
        avg_handoff_elapsed_ms: "1.500".to_string(),
        avg_render_elapsed_ms: "1.500".to_string(),
        loop_total_elapsed_ms: 75,
        attempt_body_elapsed_ms: 76,
        loop_sleep_elapsed_ms: 77,
        frame_interval_wait_elapsed_ms: 78,
        event_pump_elapsed_ms: 79,
        window_update_elapsed_ms: 80,
        render_prepare_elapsed_ms: 81,
        render_buffer_cpu_scale_copy_elapsed_ms: 82,
        render_buffer_copy_elapsed_ms: 83,
        render_buffer_materialization_elapsed_ms: 84,
        render_buffer_scale_prepare_elapsed_ms: 85,
        render_buffer_scale_loop_elapsed_ms: 86,
        render_buffer_output_copy_elapsed_ms: 87,
        render_buffer_resize_elapsed_ms: 88,
        render_buffer_clear_elapsed_ms: 89,
        render_buffer_passthrough_count: 90,
        render_buffer_same_size_copy_count: 91,
        render_buffer_half_scale_count: 92,
        render_buffer_generic_scale_count: 93,
        render_buffer_reuse_count: 94,
        render_buffer_allocation_count: 95,
        render_buffer_bytes_copied_total: 96,
        render_backend_wait_elapsed_ms: 97,
        gdi_invalidate_elapsed_ms: 98,
        gdi_paint_wait_elapsed_ms: 99,
        gdi_wm_paint_elapsed_ms: 100,
        gdi_stretchdibits_elapsed_ms: 101,
        texture_upload_elapsed_ms: 102,
        window_present_elapsed_ms: 103,
        vsync_or_present_block_elapsed_ms: 104,
        quad_view_compose_elapsed_ms: 105,
        quad_view_compose_attempt_count: 106,
        quad_view_compose_success_count: 107,
        quad_view_compose_skipped_unchanged_count: 108,
        quad_view_composed_frame_reuse_count: 109,
        quad_view_visual_unchanged_count: 110,
        quad_view_visual_changed_count: 111,
        materialization_reason_first_render_count: 112,
        materialization_reason_visual_changed_count: 113,
        materialization_reason_previous_output_missing_count: 114,
        materialization_reason_profile_or_size_mismatch_count: 115,
        materialization_reason_force_render_count: 116,
        materialization_reason_unknown_count: 117,
        slot0_frame_id_changed_count: 118,
        slot1_frame_id_changed_count: 119,
        slot2_frame_id_changed_count: 120,
        slot3_frame_id_changed_count: 121,
        slot0_selected_source_changed_count: 122,
        slot1_selected_source_changed_count: 123,
        slot2_selected_source_changed_count: 124,
        slot3_selected_source_changed_count: 125,
        placeholder_visual_changed_count: 126,
        quad_view_incremental_update_count: 127,
        quad_view_full_compose_count: 128,
        quad_view_changed_slot_update_count: 129,
        quad_view_reused_slot_count: 130,
        quad_view_allocation_count: 131,
        avg_render_buffer_cpu_scale_copy_elapsed_ms: "1.500".to_string(),
        avg_render_buffer_materialization_elapsed_ms: "1.500".to_string(),
        avg_gdi_paint_wait_elapsed_ms: "1.500".to_string(),
        avg_gdi_wm_paint_elapsed_ms: "1.500".to_string(),
        avg_gdi_stretchdibits_elapsed_ms: "1.500".to_string(),
        avg_quad_view_incremental_update_elapsed_ms: "1.500".to_string(),
        avg_quad_view_compose_elapsed_ms: "1.500".to_string(),
        render_call_elapsed_ms: 139,
        render_input_unchanged_count: 140,
        render_reuse_frame_count: 141,
        unaccounted_elapsed_ms: 142,
        avg_attempt_elapsed_ms: "1.500".to_string(),
        max_attempt_elapsed_ms: 144,
        slow_attempt_count: 145,
        slow_attempt_threshold_ms: 146,
        scheduler_status: "AllSelected".to_string(),
        slot_bindings: four("slot"),
        slot_result_kinds: four("slot"),
        slot_diagnostics: four("slot"),
        clean_output_render_result_kind: "clean_output_render_result_kind".to_string(),
        window_title: "window_title".to_string(),
        output_width: Some(153),
        output_height: Some(154),
    };
    let line = format_four_view_two_real_handoff_preview_loop_summary(&summary);
    assert!(line.starts_with("switcher four-view two-real handoff preview loop command_name=--four-view-two-real-handoff-preview-loop real_handoff=true real_slot_count=2 real_slot0_index=1 real_slot1_index=2 pipe_name=pipe_name actual_pipe_path=actual_pipe_path "));
    assert!(line.contains(" effective_attempt_fps=1.500 effective_render_fps=1.500 first_render_attempt_index=19 first_render_elapsed_ms=none "));
    assert!(line.contains(" persistent_decode_enabled=true "));
    assert!(line.contains(" persistent_decode_last_error=spawn_failed__retry "));
    assert!(line.contains(" scheduler_status=AllSelected slot_bindings=slot0|slot1|slot2|slot3 "));
    assert!(line.ends_with(" window_title=window_title output_width=153 output_height=154"));
    let fields: Vec<&str> = line.split(' ').collect();
    let keys: Vec<&str> = fields.iter().filter_map(|field| field.split_once('=').map(|(key, _)| key)).collect();
    assert_eq!(keys.first(), Some(&"command_name"));
    assert_eq!(keys.last(), Some(&"output_height"));
    assert!(keys.contains(&"materialization_reason_unknown_count"));
    assert!(keys.contains(&"slot3_selected_source_changed_count"));
}
