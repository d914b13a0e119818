use stream_sync_switcher_core::handoff_observation::{
    format_named_pipe_final_result, format_named_pipe_request_status,
    format_named_pipe_response_status, format_named_pipe_retry_classification,
    HandoffFinalResult, HandoffRequestStatus, HandoffResponseStatus, HandoffRetryClassification,
};
use stream_sync_switcher_core::identity::{
    format_switcher_h264_decode_deferred_reason, DecodeDeferredReason,
};
use stream_sync_switcher_core::identity::{
    TwoRealQuadRenderSlot, TwoRealSelectedFrame, TwoRealDecodeFailure,
};
use stream_sync_switcher_core::handoff_observation::{
    format_handoff_decodable_source, format_handoff_no_frame_reason,
    format_four_view_real_handoff_scheduler_slot_kind, format_switcher_payload_nal_kinds,
    FourViewPreviewSlotHandoffObservation, HandoffDecodableSource, HandoffFrameObservation,
    HandoffNoFrameReason, HandoffRequestObservation, HandoffResponseObservation,
    HandoffResultObservation, HandoffRuntimeObservation, PayloadInspection, SchedulerSlotResult,
};
use stream_sync_switcher_core::slot_diagnostics::{
    build_four_view_preview_slot_diagnostic, format_four_view_preview_slot_diagnostic,
    take_last_frame_slot_diagnostics_from_pre_composition, format_four_view_render_input_kind,
    four_view_preview_slot_decode_attempted, four_view_preview_slot_decode_skipped_reason,
    four_view_preview_slot_renderable_frame_available,
    four_view_preview_slot_renderable_frame_missing_reason,
    unobserved_four_view_preview_slot_diagnostic, FourViewPreviewSlotDiagnosticSummary,
};

fn decode_failure(message: &str) -> TwoRealDecodeFailure {
    TwoRealDecodeFailure {
        message: message.to_string(),
        decode_input_payload_len: 12,
        decode_expected_width: 2,
        decode_expected_height: 1,
        decode_expected_pixel_format: "bgra".to_string(),
        decode_expected_rawvideo_len: 8,
        decoded_stdout_len: 0,
        ffmpeg_exit_status: Some(1),
        ffmpeg_stderr_summary: Some("invalid data".to_string()),
    }
}


fn decodable_fields_diagnostic() -> FourViewPreviewSlotDiagnosticSummary {
    FourViewPreviewSlotDiagnosticSummary {
        slot_index: 0,
        client_id: "player1".to_string(),
        run_id: "run-1".to_string(),
        request_id: Some(9),
        actual_pipe_path: Some(r"\\.\pipe\fixture-pipe".to_string()),
        handoff_response_kind: Some("NoFrame".to_string()),
        parse_error: None,
        io_error: None,
        response_payload_len: Some(0),
        frame_id: None,
        frame_payload_len: None,
        frame_is_keyframe: None,
        handoff_no_frame_reason: Some("NoDecodableFrameAvailable".to_string()),
        decodable_source: Some("retained_keyframe".to_string()),
        retained_keyframe_available: Some(true),
        retained_keyframe_frame_id: Some(901),
        decode_attempted: Some(false),
        decode_skipped_reason: Some("NoFrameAvailable".to_string()),
        decode_error: None,
        decode_input_payload_len: None,
        decode_expected_width: None,
        decode_expected_height: None,
        decode_expected_pixel_format: None,
        decode_expected_rawvideo_len: None,
        decoded_stdout_len: None,
        ffmpeg_exit_status: None,
        ffmpeg_stderr_summary: None,
        payload_has_sps: None,
        payload_has_pps: None,
        payload_has_idr: None,
        payload_has_non_idr_vcl: None,
        payload_nal_kinds: None,
        renderable_frame_available: Some(false),
        renderable_frame_missing_reason: Some(
            "NoDisplayPlaceholder:NoFrameAvailable".to_string(),
        ),
        selected_frame_available: Some(false),
        selected_frame_id: None,
        selected_frame_source: None,
        target_selection_result: "NoFrameAvailable".to_string(),
        render_input_kind: "UseNoDisplayPlaceholder".to_string(),
        final_slot_result_kind: "NoFrameAvailable".to_string(),
    }
}

#[test]
fn switcher_four_view_preview_slot_diagnostic_formats_decodable_fields() {
    let formatted = format_four_view_preview_slot_diagnostic(&decodable_fields_diagnostic());

    assert!(formatted.contains("handoff_no_frame_reason=NoDecodableFrameAvailable"));
    assert!(formatted.contains("decodable_source=retained_keyframe"));
    assert!(formatted.contains("retained_keyframe_available=true"));
    assert!(formatted.contains("retained_keyframe_frame_id=901"));
    assert!(formatted.contains("selected_frame_available=false"));
    assert!(formatted.contains("target_selection_result=NoFrameAvailable"));
    assert!(formatted.contains("decode_attempted=false"));
    assert!(formatted.contains("decode_skipped_reason=NoFrameAvailable"));
    assert!(formatted.contains("renderable_frame_available=false"));
    assert!(formatted
        .contains("renderable_frame_missing_reason=NoDisplayPlaceholder:NoFrameAvailable"));
}

#[test]
fn slot_diagnostic_line_starts_with_slot_and_identity_and_ends_with_result_kind() {
    let formatted = format_four_view_preview_slot_diagnostic(&decodable_fields_diagnostic());
    assert!(formatted.starts_with(
        r"0:client_id=player1,run_id=run-1,request_id=9,actual_pipe_path=\\.\pipe\fixture-pipe,handoff_response_kind=NoFrame,parse_error=none,io_error=none,response_payload_len=0,frame_id=none,"
    ));
    assert!(formatted.ends_with(
        ",render_input_kind=UseNoDisplayPlaceholder,final_slot_result_kind=NoFrameAvailable"
    ));
}

#[test]
fn slot_diagnostic_line_sanitizes_text_and_signs_exit_status() {
    let mut diagnostic = decodable_fields_diagnostic();
    diagnostic.decode_error = Some("ffmpeg failed, code 1".to_string());
    diagnostic.ffmpeg_exit_status = Some(-3);
    diagnostic.decode_expected_width = Some(640);
    let formatted = format_four_view_preview_slot_diagnostic(&diagnostic);
    assert!(formatted.contains(",decode_error=ffmpeg_failed__code_1,"));
    assert!(formatted.contains(",ffmpeg_exit_status=-3,"));
    assert!(formatted.contains(",decode_expected_width=640,"));
}

#[test]
fn unobserved_slot_diagnostic_reports_nothing_observed() {
    let diagnostic =
        unobserved_four_view_preview_slot_diagnostic(2, "client-2".to_string(), "run-2".to_string());
    assert_eq!(diagnostic.slot_index, 2);
    assert_eq!(diagnostic.client_id, "client-2");
    assert_eq!(diagnostic.request_id, None);
    assert_eq!(diagnostic.decode_attempted, None);
    assert_eq!(diagnostic.target_selection_result, "Unobserved");
    assert_eq!(diagnostic.render_input_kind, "Unobserved");
    assert_eq!(diagnostic.final_slot_result_kind, "NoFrameAvailable");
    let formatted = format_four_view_preview_slot_diagnostic(&diagnostic);
    assert!(formatted.starts_with("2:client_id=client-2,run_id=run-2,request_id=none,"));
}

fn selected(frame_id: u64) -> TwoRealSelectedFrame {
    TwoRealSelectedFrame {
        client_id: "c".to_string(),
        run_id: "r".to_string(),
        frame_id,
    }
}

#[test]
fn render_slot_kinds_name_their_render_input_and_decode_state() {
    let updated = TwoRealQuadRenderSlot::UpdatedFrame {
        selected: Some(selected(4)),
        has_decoded: true,
    };
    assert_eq!(format_four_view_render_input_kind(&updated), "UseUpdatedFrame");
    assert!(four_view_preview_slot_decode_attempted(&updated));
    assert_eq!(four_view_preview_slot_decode_skipped_reason(&updated), None);
    assert!(four_view_preview_slot_renderable_frame_available(&updated));
    assert_eq!(four_view_preview_slot_renderable_frame_missing_reason(&updated), None);

    let held = TwoRealQuadRenderSlot::HeldPreviousFrame {
        selected: None,
        has_decoded: true,
    };
    assert_eq!(format_four_view_render_input_kind(&held), "UseHeldPreviousFrame");
    assert!(!four_view_preview_slot_decode_attempted(&held));
    assert_eq!(
        four_view_preview_slot_decode_skipped_reason(&held).as_deref(),
        Some("HoldPreviousFrame")
    );
    assert!(four_view_preview_slot_renderable_frame_available(&held));

    let no_display = TwoRealQuadRenderSlot::NoDisplayPlaceholder {
        reason: "NoFrameAvailable".to_string(),
    };
    assert_eq!(format_four_view_render_input_kind(&no_display), "UseNoDisplayPlaceholder");
    assert_eq!(
        four_view_preview_slot_decode_skipped_reason(&no_display).as_deref(),
        Some("NoFrameAvailable")
    );
    assert!(!four_view_preview_slot_renderable_frame_available(&no_display));
    assert_eq!(
        four_view_preview_slot_renderable_frame_missing_reason(&no_display).as_deref(),
        Some("NoDisplayPlaceholder:NoFrameAvailable")
    );

    let deferred = TwoRealQuadRenderSlot::DecodeDeferredPlaceholder {
        selected: selected(7),
        reason: "WaitingForKeyframe".to_string(),
    };
    assert_eq!(
        format_four_view_render_input_kind(&deferred),
        "UseDecodeDeferredPlaceholder"
    );
    assert!(four_view_preview_slot_decode_attempted(&deferred));
    assert_eq!(
        four_view_preview_slot_renderable_frame_missing_reason(&deferred).as_deref(),
        Some("DecodeDeferred:WaitingForKeyframe")
    );

    let failed = TwoRealQuadRenderSlot::DecodeFailedPlaceholder {
        selected: selected(8),
        failure: decode_failure("boom"),
    };
    assert_eq!(format_four_view_render_input_kind(&failed), "UseDecodeFailedPlaceholder");
    assert_eq!(
        four_view_preview_slot_renderable_frame_missing_reason(&failed).as_deref(),
        Some("DecodeFailed")
    );

    let source_error = TwoRealQuadRenderSlot::SourceErrorPlaceholder {
        reason: "pipe closed".to_string(),
    };
    assert_eq!(
        four_view_preview_slot_renderable_frame_missing_reason(&source_error).as_deref(),
        Some("SourceErrorPlaceholder:pipe closed")
    );
    let without_decoded = TwoRealQuadRenderSlot::HeldPreviousFrameWithoutDecoded { selected: None };
    assert_eq!(
        four_view_preview_slot_decode_skipped_reason(&without_decoded).as_deref(),
        Some("HoldPreviousFrameWithoutDecoded")
    );
}

fn inspection(kinds: &[&str]) -> PayloadInspection {
    PayloadInspection {
        has_sps: kinds.contains(&"sps"),
        has_pps: kinds.contains(&"pps"),
        has_idr: kinds.contains(&"idr"),
        has_non_idr_vcl: kinds.contains(&"non_idr"),
        nal_kinds: kinds.iter().map(|kind| kind.to_string()).collect(),
    }
}

fn request(response: Option<HandoffResponseObservation>) -> HandoffRequestObservation {
    HandoffRequestObservation {
        request_id: 9,
        actual_pipe_path: Some(r"\\.\pipe\fixture-pipe".to_string()),
        local_error: None,
        runtime: Some(HandoffRuntimeObservation {
            parse_error: None,
            io_error: None,
            response_payload_len: Some(0),
            response,
        }),
    }
}

#[test]
fn slot_diagnostic_built_from_a_no_frame_reply_reports_the_retained_keyframe() {
    let observation = FourViewPreviewSlotHandoffObservation {
        request_output: Some(request(Some(HandoffResponseObservation::NoFrame {
            no_frame_reason: HandoffNoFrameReason::NoDecodableFrameAvailable,
            decodable_source: HandoffDecodableSource::RetainedKeyframe,
            retained_keyframe_available: true,
            retained_keyframe_frame_id: Some(901),
        }))),
        result: HandoffResultObservation::NoFrameAvailable,
    };
    let diagnostic = build_four_view_preview_slot_diagnostic(
        0,
        "player1".to_string(),
        "run-1".to_string(),
        Some(&observation),
        &SchedulerSlotResult::NoFrameAvailable,
        &TwoRealQuadRenderSlot::NoDisplayPlaceholder {
            reason: "NoFrameAvailable".to_string(),
        },
    );
    let formatted = format_four_view_preview_slot_diagnostic(&diagnostic);

    assert!(formatted.starts_with(
        r"0:client_id=player1,run_id=run-1,request_id=9,actual_pipe_path=\\.\pipe\fixture-pipe,handoff_response_kind=NoFrame,"
    ));
    assert!(formatted.contains("handoff_no_frame_reason=NoDecodableFrameAvailable"));
    assert!(formatted.contains("decodable_source=retained_keyframe"));
    assert!(formatted.contains("retained_keyframe_available=true"));
    assert!(formatted.contains("retained_keyframe_frame_id=901"));
    assert!(formatted.contains("selected_frame_available=false"));
    assert!(formatted.contains("target_selection_result=NoFrameAvailable"));
    assert!(formatted.contains("decode_attempted=false"));
    assert!(formatted.contains("decode_skipped_reason=NoFrameAvailable"));
    assert!(formatted.contains("renderable_frame_available=false"));
    assert!(formatted
        .contains("renderable_frame_missing_reason=NoDisplayPlaceholder:NoFrameAvailable"));
    assert!(formatted.contains(",frame_id=none,"));
    assert!(formatted.ends_with(
        ",render_input_kind=UseNoDisplayPlaceholder,final_slot_result_kind=NoFrameAvailable"
    ));
}

#[test]
fn slot_diagnostic_built_from_a_failed_decode_reports_the_frame_payload_and_failure() {
    let frame = HandoffFrameObservation {
        frame_id: 11,
        encoded_payload_len: 12,
        is_keyframe: true,
        inspection: inspection(&["sps", "pps", "idr"]),
    };
    let observation = FourViewPreviewSlotHandoffObservation {
        request_output: Some(request(Some(HandoffResponseObservation::FrameRead {
            frame: frame.clone(),
            decodable_source: HandoffDecodableSource::Queue,
            retained_keyframe_available: false,
            retained_keyframe_frame_id: None,
        }))),
        result: HandoffResultObservation::FrameRead { frame },
    };
    let diagnostic = build_four_view_preview_slot_diagnostic(
        1,
        "player2".to_string(),
        "run-2".to_string(),
        Some(&observation),
        &SchedulerSlotResult::Selected { frame_id: 11 },
        &TwoRealQuadRenderSlot::DecodeFailedPlaceholder {
            selected: selected(11),
            failure: decode_failure("bad nal"),
        },
    );
    assert_eq!(diagnostic.frame_id, Some(11));
    assert_eq!(diagnostic.frame_payload_len, Some(12));
    assert_eq!(diagnostic.payload_has_sps, Some(true));
    assert_eq!(diagnostic.payload_has_non_idr_vcl, Some(false));
    assert_eq!(diagnostic.payload_nal_kinds.as_deref(), Some("sps+pps+idr"));
    assert_eq!(diagnostic.selected_frame_available, Some(true));
    assert_eq!(diagnostic.selected_frame_id, Some(11));
    assert_eq!(diagnostic.selected_frame_source.as_deref(), Some("queue"));
    assert_eq!(diagnostic.decode_attempted, Some(true));
    assert_eq!(diagnostic.decode_skipped_reason, None);
    assert_eq!(diagnostic.decode_error.as_deref(), Some("bad nal"));
    assert_eq!(diagnostic.decode_expected_pixel_format.as_deref(), Some("bgra"));
    assert_eq!(diagnostic.ffmpeg_exit_status, Some(1));
    assert_eq!(
        diagnostic.renderable_frame_missing_reason.as_deref(),
        Some("DecodeFailed")
    );
    assert_eq!(diagnostic.target_selection_result, "Selected");
    assert_eq!(diagnostic.render_input_kind, "UseDecodeFailedPlaceholder");
}

#[test]
fn slot_diagnostic_without_a_reply_falls_back_to_the_handoff_result_and_local_error() {
    let observation = FourViewPreviewSlotHandoffObservation {
        request_output: Some(HandoffRequestObservation {
            request_id: 3,
            actual_pipe_path: None,
            local_error: Some("pipe busy".to_string()),
            runtime: None,
        }),
        result: HandoffResultObservation::HandoffError,
    };
    let diagnostic = build_four_view_preview_slot_diagnostic(
        2,
        "c".to_string(),
        "r".to_string(),
        Some(&observation),
        &SchedulerSlotResult::HandoffError,
        &TwoRealQuadRenderSlot::SourceErrorPlaceholder {
            reason: "HandoffError".to_string(),
        },
    );
    assert_eq!(diagnostic.handoff_response_kind.as_deref(), Some("HandoffError"));
    assert_eq!(diagnostic.parse_error.as_deref(), Some("pipe busy"));
    assert_eq!(diagnostic.io_error, None);
    assert_eq!(diagnostic.response_payload_len, None);
    assert_eq!(diagnostic.decodable_source, None);
    assert_eq!(diagnostic.selected_frame_available, Some(false));

    let unobserved = build_four_view_preview_slot_diagnostic(
        3,
        "c".to_string(),
        "r".to_string(),
        None,
        &SchedulerSlotResult::WaitingForFrameAtOrBeforeTarget,
        &TwoRealQuadRenderSlot::HeldPreviousFrame { selected: None, has_decoded: true },
    );
    assert_eq!(unobserved.request_id, None);
    assert_eq!(unobserved.handoff_response_kind, None);
    assert_eq!(unobserved.target_selection_result, "WaitingForFrameAtOrBeforeTarget");
    assert_eq!(unobserved.renderable_frame_available, Some(true));
    assert_eq!(unobserved.decode_skipped_reason.as_deref(), Some("HoldPreviousFrame"));
}

#[test]
fn handoff_names_follow_the_diagnostic_vocabulary() {
    assert_eq!(format_handoff_decodable_source(HandoffDecodableSource::NoSource), "none");
    assert_eq!(
        format_handoff_no_frame_reason(HandoffNoFrameReason::NoFramesQueuedForRequestedRun),
        "NoFramesQueuedForRequestedRun"
    );
    assert_eq!(
        format_four_view_real_handoff_scheduler_slot_kind(&SchedulerSlotResult::Selected {
            frame_id: 1
        }),
        "Selected"
    );
    assert_eq!(format_switcher_payload_nal_kinds(&inspection(&[])), "none");
    assert_eq!(format_switcher_payload_nal_kinds(&inspection(&["aud"])), "aud");
}

#[test]
fn tick_slot_diagnostics_mark_reused_unchanged_frames_as_decode_skipped() {
    let client_ids = ["c0".to_string(), "c1".to_string(), "c2".to_string(), "c3".to_string()];
    let run_ids = ["r0".to_string(), "r1".to_string(), "r2".to_string(), "r3".to_string()];
    let observations = [None, None, None, None];
    let scheduler_results = [
        SchedulerSlotResult::Selected { frame_id: 5 },
        SchedulerSlotResult::Selected { frame_id: 6 },
        SchedulerSlotResult::NoFrameAvailable,
        SchedulerSlotResult::NoFrameAvailable,
    ];
    let updated = TwoRealQuadRenderSlot::UpdatedFrame {
        selected: Some(selected(5)),
        has_decoded: true,
    };
    let no_display = TwoRealQuadRenderSlot::NoDisplayPlaceholder {
        reason: "NoFrameAvailable".to_string(),
    };
    let render_slots = [updated.clone(), updated, no_display.clone(), no_display];
    let lines = take_last_frame_slot_diagnostics_from_pre_composition(
        &client_ids,
        &run_ids,
        &observations,
        &scheduler_results,
        &render_slots,
        [true, false, false, false],
    );
    assert!(lines[0].starts_with("0:client_id=c0,run_id=r0,"));
    assert!(lines[0].contains(",decode_attempted=false,decode_skipped_reason=UnchangedFrameReuse,"));
    assert!(lines[1].starts_with("1:client_id=c1,run_id=r1,"));
    assert!(lines[1].contains(",decode_attempted=true,decode_skipped_reason=none,"));
    assert!(lines[1].contains(",selected_frame_available=true,selected_frame_id=6,"));
    assert!(lines[3].starts_with("3:client_id=c3,run_id=r3,"));
    assert!(lines[3].contains(",decode_skipped_reason=NoFrameAvailable,"));
}

#[test]
fn named_pipe_handoff_states_have_summary_names() {
    assert_eq!(format_named_pipe_request_status(HandoffRequestStatus::EncodedOnly), "encoded");
    assert_eq!(format_named_pipe_response_status(HandoffResponseStatus::NotDecoded), "none");
    assert_eq!(format_named_pipe_final_result(HandoffFinalResult::NoFrameAvailable), "NoFrame");
    assert_eq!(format_named_pipe_retry_classification(None), "none");
    assert_eq!(
        format_named_pipe_retry_classification(Some(
            HandoffRetryClassification::RetryableLaterSchedulerTick
        )),
        "RetryableLaterSchedulerTick"
    );
    assert_eq!(
        format_switcher_h264_decode_deferred_reason(DecodeDeferredReason::FfmpegUnavailable),
        "FfmpegUnavailable"
    );
}
