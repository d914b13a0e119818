use stream_sync_switcher_core::identity::{
    TwoRealCleanOutputRenderOutcome, TwoRealPreviewLoopTickDiagnostics,
    TwoRealPreviewLoopVisualChangeDiagnostics,
};
use stream_sync_switcher_core::preview_loops::{
    decide_two_real_render_path, two_real_slow_attempt_threshold_ms, FrameRenderTally,
    TwoRealPreviewLoopAttemptTiming, TwoRealPreviewLoopTally, TwoRealPreviewLoopTickEvent,
    TwoRealRenderPath,
};

fn no_changes() -> TwoRealPreviewLoopVisualChangeDiagnostics {
    TwoRealPreviewLoopVisualChangeDiagnostics {
        frame_id_changed_counts: [0; 4],
        selected_source_changed_counts: [0; 4],
        placeholder_visual_changed_count: 0,
    }
}

fn tick(selected: u32, no_frame: u32, clean_output: TwoRealCleanOutputRenderOutcome) -> TwoRealPreviewLoopTickDiagnostics {
    TwoRealPreviewLoopTickDiagnostics {
        selected_count: selected,
        no_frame_count: no_frame,
        handoff_error_count: 0,
        decode_attempt_count: selected,
        decode_success_count: selected,
        render_success_count: u32::from(clean_output == TwoRealCleanOutputRenderOutcome::Rendered),
        render_failure_count: u32::from(clean_output == TwoRealCleanOutputRenderOutcome::RenderFailed),
    }
}

#[test]
fn render_path_reuses_rendered_output_only_for_an_unchanged_rendered_picture() {
    assert_eq!(
        decide_two_real_render_path(true, Some(true), true),
        TwoRealRenderPath::ReuseRenderedOutput
    );
    assert_eq!(
        decide_two_real_render_path(true, Some(false), true),
        TwoRealRenderPath::ReuseComposition
    );
    assert_eq!(
        decide_two_real_render_path(true, None, false),
        TwoRealRenderPath::Compose
    );
    assert_eq!(
        decide_two_real_render_path(false, Some(true), true),
        TwoRealRenderPath::Compose
    );
}

#[test]
fn tally_counts_a_first_render_then_a_reused_output() {
    let mut tally = TwoRealPreviewLoopTally::new();

    let mut changes = no_changes();
    changes.frame_id_changed_counts[1] = 1;
    tally.record_tick(&TwoRealPreviewLoopTickEvent {
        visual_changes: changes,
        visual_unchanged: false,
        previous_output_rendered: None,
        path: TwoRealRenderPath::Compose,
        reused_composed_frame: false,
        render_ready: true,
        tick: tick(2, 2, TwoRealCleanOutputRenderOutcome::Rendered),
        unchanged_reuse_count: 0,
        clean_output: TwoRealCleanOutputRenderOutcome::Rendered,
        elapsed_ms: 12,
    });
    assert_eq!(tally.frames_attempted, 1);
    assert_eq!(tally.frames_rendered, 1);
    assert_eq!(tally.first_render_attempt_index, Some(1));
    assert_eq!(tally.first_render_elapsed_ms, Some(12));
    assert_eq!(tally.materialization_reason_first_render_count, 1);
    assert_eq!(tally.quad_view_visual_changed_count, 1);
    assert_eq!(tally.slot_frame_id_changed_counts, [0, 1, 0, 0]);
    assert_eq!(tally.selected_count, 2);
    assert_eq!(tally.no_frame_count, 2);

    tally.record_tick(&TwoRealPreviewLoopTickEvent {
        visual_changes: no_changes(),
        visual_unchanged: true,
        previous_output_rendered: Some(true),
        path: TwoRealRenderPath::ReuseRenderedOutput,
        reused_composed_frame: false,
        render_ready: false,
        tick: tick(2, 2, TwoRealCleanOutputRenderOutcome::Rendered),
        unchanged_reuse_count: 2,
        clean_output: TwoRealCleanOutputRenderOutcome::Rendered,
        elapsed_ms: 45,
    });
    assert_eq!(tally.frames_attempted, 2);
    assert_eq!(tally.frames_rendered, 2);
    assert_eq!(tally.first_render_attempt_index, Some(1));
    assert_eq!(tally.first_render_elapsed_ms, Some(12));
    assert_eq!(tally.render_reuse_frame_count, 1);
    assert_eq!(tally.render_input_unchanged_count, 1);
    assert_eq!(tally.quad_view_visual_unchanged_count, 1);
    assert_eq!(tally.unchanged_frame_reuse_count, 2);
    assert_eq!(tally.skipped_decode_unchanged_frame_count, 2);
    assert_eq!(tally.materialization_reason_first_render_count, 1);
    assert_eq!(tally.materialization_reason_force_render_count, 0);
}

#[test]
fn tally_counts_a_reused_composition_and_its_materialization_reason() {
    let mut tally = TwoRealPreviewLoopTally::new();
    tally.record_tick(&TwoRealPreviewLoopTickEvent {
        visual_changes: no_changes(),
        visual_unchanged: false,
        previous_output_rendered: None,
        path: TwoRealRenderPath::Compose,
        reused_composed_frame: false,
        render_ready: false,
        tick: tick(0, 4, TwoRealCleanOutputRenderOutcome::NotRendered),
        unchanged_reuse_count: 0,
        clean_output: TwoRealCleanOutputRenderOutcome::NotRendered,
        elapsed_ms: 5,
    });
    assert_eq!(tally.first_render_attempt_index, None);
    assert_eq!(tally.materialization_reason_first_render_count, 0);

    tally.record_tick(&TwoRealPreviewLoopTickEvent {
        visual_changes: no_changes(),
        visual_unchanged: true,
        previous_output_rendered: Some(false),
        path: TwoRealRenderPath::ReuseComposition,
        reused_composed_frame: true,
        render_ready: true,
        tick: tick(0, 4, TwoRealCleanOutputRenderOutcome::RenderFailed),
        unchanged_reuse_count: 0,
        clean_output: TwoRealCleanOutputRenderOutcome::RenderFailed,
        elapsed_ms: 40,
    });
    assert_eq!(tally.frames_attempted, 2);
    assert_eq!(tally.render_failures, 1);
    assert_eq!(tally.render_failure_count, 1);
    assert_eq!(tally.quad_view_compose_skipped_unchanged_count, 1);
    assert_eq!(tally.quad_view_composed_frame_reuse_count, 1);
    assert_eq!(tally.compose.reused_slot_count, 4);
    assert_eq!(tally.materialization_reason_force_render_count, 1);
    assert_eq!(tally.first_render_attempt_index, None);
}

#[test]
fn frame_render_tally_counts_rendered_frames_and_failures_per_view() {
    let mut quad = FrameRenderTally::new();
    quad.record_clean_output(TwoRealCleanOutputRenderOutcome::Rendered);
    quad.record_clean_output(TwoRealCleanOutputRenderOutcome::NotRendered);
    quad.record_clean_output(TwoRealCleanOutputRenderOutcome::RenderFailed);
    assert_eq!((quad.frames_attempted, quad.frames_rendered, quad.render_failures), (3, 1, 1));

    let mut focused = FrameRenderTally::new();
    focused.record_focused_view("Rendered");
    focused.record_focused_view("InvalidFrame");
    focused.record_focused_view("RenderFailed");
    focused.record_focused_view("NoRenderableFocusedView");
    assert_eq!(
        (focused.frames_attempted, focused.frames_rendered, focused.render_failures),
        (4, 1, 2)
    );
}

#[test]
fn attempt_timing_tracks_slow_attempts_sleeps_and_render_preparation() {
    let threshold = two_real_slow_attempt_threshold_ms(33_333_333);
    assert_eq!(threshold, 66);
    assert_eq!(two_real_slow_attempt_threshold_ms(0), 1);

    let mut timing = TwoRealPreviewLoopAttemptTiming::new();
    timing.record_attempt(40, threshold);
    timing.record_attempt(70, threshold);
    timing.record_sleep(30);
    timing.record_render_call(20, 5, 20);
    timing.record_render_call(20, 5, 3);
    assert_eq!(timing.attempt_body_elapsed_ms, 110);
    assert_eq!(timing.max_attempt_elapsed_ms, 70);
    assert_eq!(timing.slow_attempt_count, 1);
    assert_eq!(timing.loop_sleep_elapsed_ms, 30);
    assert_eq!(timing.frame_interval_wait_elapsed_ms, 30);
    assert_eq!(timing.render_call_count, 2);
    assert_eq!(timing.render_elapsed_ms, 40);
    assert_eq!(timing.render_prepare_elapsed_ms, 12);
    assert_eq!(timing.unaccounted_elapsed_ms(150), 10);
    assert_eq!(timing.unaccounted_elapsed_ms(100), 0);
}
