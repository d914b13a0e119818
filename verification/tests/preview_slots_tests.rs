use stream_sync_switcher_core::handoff_observation::{
    FourViewPreviewSlotHandoffObservation, HandoffResultObservation,
};
use stream_sync_switcher_core::preview_slots::{
    clean_output_window_result_was_rendered, format_focused_window_render_result_kind,
    format_four_view_render_facing_result_kind, RenderFacingResult, WindowRenderResult,
};
use stream_sync_switcher_core::identity::{TwoRealCleanOutputRenderOutcome, TwoRealQuadRenderSlot};
use stream_sync_switcher_core::preview_slots::{
    clean_output_render_outcome, count_renderable_four_view_slots,
    default_four_view_four_real_handoff_preview_slots, default_four_view_real_handoff_preview_slots,
    default_four_view_two_real_handoff_preview_slots, focused_four_view_slot_is_renderable,
    format_four_view_clean_output_window_result_kind, format_four_view_slot_binding,
    CleanOutputWindowResult, PreviewHandoffRouter,
};

#[test]
fn one_real_preview_puts_placeholders_around_the_real_slot() {
    let slots = default_four_view_real_handoff_preview_slots(
        2,
        "real-client".to_string(),
        "real-run".to_string(),
    );
    let bindings: Vec<String> = slots.iter().map(format_four_view_slot_binding).collect();
    assert_eq!(
        bindings,
        vec![
            "0:fixture-placeholder-slot-0/fixture-placeholder-run-0",
            "1:fixture-placeholder-slot-1/fixture-placeholder-run-1",
            "2:real-client/real-run",
            "3:fixture-placeholder-slot-3/fixture-placeholder-run-3",
        ]
    );
}

#[test]
fn two_real_preview_binds_both_real_slots() {
    let slots = default_four_view_two_real_handoff_preview_slots(
        0,
        "real-client-0".to_string(),
        "real-run-0".to_string(),
        3,
        "real-client-1".to_string(),
        "real-run-1".to_string(),
    );
    assert_eq!(slots[0].client_id, "real-client-0");
    assert_eq!(slots[3].run_id, "real-run-1");
    assert_eq!(slots[1].client_id, "fixture-placeholder-slot-1");
    assert_eq!(slots[2].run_id, "fixture-placeholder-run-2");
    assert!(slots.iter().enumerate().all(|(i, slot)| slot.slot_index == i));

    let four = default_four_view_four_real_handoff_preview_slots(
        "c0".to_string(),
        "r0".to_string(),
        "c1".to_string(),
        "r1".to_string(),
        "c2".to_string(),
        "r2".to_string(),
        "c3".to_string(),
        "r3".to_string(),
    );
    assert_eq!(format_four_view_slot_binding(&four[3]), "3:c3/r3");
}

#[test]
fn renderable_slots_are_updated_or_held_frames_with_pixels() {
    let slots = [
        TwoRealQuadRenderSlot::UpdatedFrame { selected: None, has_decoded: true },
        TwoRealQuadRenderSlot::HeldPreviousFrame { selected: None, has_decoded: false },
        TwoRealQuadRenderSlot::HeldPreviousFrameWithoutDecoded { selected: None },
        TwoRealQuadRenderSlot::NoDisplayPlaceholder { reason: "NoFrameAvailable".to_string() },
    ];
    assert!(focused_four_view_slot_is_renderable(&slots[0]));
    assert!(!focused_four_view_slot_is_renderable(&slots[1]));
    assert_eq!(count_renderable_four_view_slots(&slots), 1);
}

#[test]
fn clean_output_results_have_summary_names_and_loop_outcomes() {
    assert_eq!(
        format_four_view_clean_output_window_result_kind(CleanOutputWindowResult::InvalidComposedFrame),
        "InvalidFrame"
    );
    assert_eq!(
        format_four_view_clean_output_window_result_kind(CleanOutputWindowResult::NoRenderableQuadView),
        "NoRenderableQuadView"
    );
    assert_eq!(
        clean_output_render_outcome(CleanOutputWindowResult::Rendered),
        TwoRealCleanOutputRenderOutcome::Rendered
    );
    assert_eq!(
        clean_output_render_outcome(CleanOutputWindowResult::RenderFailed),
        TwoRealCleanOutputRenderOutcome::RenderFailed
    );
    assert_eq!(
        clean_output_render_outcome(CleanOutputWindowResult::InvalidComposedFrame),
        TwoRealCleanOutputRenderOutcome::NotRendered
    );
}

#[test]
fn render_results_have_summary_names() {
    assert!(clean_output_window_result_was_rendered(CleanOutputWindowResult::Rendered));
    assert!(!clean_output_window_result_was_rendered(CleanOutputWindowResult::RenderFailed));
    assert_eq!(
        format_four_view_render_facing_result_kind(RenderFacingResult::InvalidQuadView),
        "InvalidQuadView"
    );
    assert_eq!(
        format_focused_window_render_result_kind(WindowRenderResult::BackendUnavailable),
        "BackendUnavailable"
    );
}

#[test]
fn handoff_router_sends_real_sources_to_the_real_handoff_and_keeps_observations() {
    let slots = default_four_view_real_handoff_preview_slots(
        1,
        "real-client".to_string(),
        "real-run".to_string(),
    );
    let mut router = PreviewHandoffRouter::new(
        slots,
        vec![("real-client".to_string(), "real-run".to_string())],
    );
    assert_eq!(router.route("real-client", "real-run"), (1, true));
    assert_eq!(
        router.route("fixture-placeholder-slot-3", "fixture-placeholder-run-3"),
        (3, false)
    );
    assert_eq!(router.route("someone-else", "real-run"), (0, false));

    router.record_observation(
        3,
        FourViewPreviewSlotHandoffObservation {
            request_output: None,
            result: HandoffResultObservation::NoFrameAvailable,
        },
    );
    assert!(router.last_frame_slot_observations[3].is_some());
    router.begin_frame();
    assert!(router.last_frame_slot_observations.iter().all(Option::is_none));
}
