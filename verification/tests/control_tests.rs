use stream_sync_switcher_core::preview_loops::FrameRenderTally;
use stream_sync_switcher_core::control::{
    control_named_pipe_path, decide_four_view_control_command,
    format_four_view_control_pipe_command_response, format_four_view_controlled_preview_view_state,
    finish_four_view_controlled_render, four_view_controlled_command_summary,
    parse_four_view_control_command,
    split_scripted_control_commands, ControlLoopTally, FourViewControlledPreviewRenderOutcome,
    SwitcherFourViewControlledPreviewCommand, SwitcherFourViewControlledPreviewCommandSummary,
    SwitcherFourViewControlledPreviewViewState,
};

fn focus_summary() -> SwitcherFourViewControlledPreviewCommandSummary {
    SwitcherFourViewControlledPreviewCommandSummary {
        command_index: 1,
        control_command_name: "focus".to_string(),
        current_view_state: SwitcherFourViewControlledPreviewViewState::Focused(2),
        view_render_mode: "Focused".to_string(),
        output_layout: "FocusedFullWindow".to_string(),
        requested_transition: "Focused(2)".to_string(),
        transition_result: "Transitioned".to_string(),
        selected_slot_result: "Selected".to_string(),
        rendered_slot_count: 1,
        focused_slot_index: Some(2),
        frames_rendered: 1,
        render_failures: 0,
        scheduler_status: "AllSelected".to_string(),
        clean_output_render_result_kind: "Rendered".to_string(),
        all_view_render_result_kind: "not_applicable".to_string(),
        command_parse_error: "none".to_string(),
        exit_reason: "none".to_string(),
    }
}

#[test]
fn switcher_four_view_control_command_parser_accepts_expected_commands() {
    assert_eq!(
        parse_four_view_control_command("all").expect("all should parse"),
        SwitcherFourViewControlledPreviewCommand::All
    );
    assert_eq!(
        parse_four_view_control_command("status").expect("status should parse"),
        SwitcherFourViewControlledPreviewCommand::Status
    );
    assert_eq!(
        parse_four_view_control_command("focus 3").expect("focus 3 should parse"),
        SwitcherFourViewControlledPreviewCommand::Focus(3)
    );
    assert_eq!(
        parse_four_view_control_command("quit").expect("quit should parse"),
        SwitcherFourViewControlledPreviewCommand::Quit
    );
}

#[test]
fn switcher_four_view_control_command_parser_rejects_invalid_focus_index() {
    let error =
        parse_four_view_control_command("focus 7").expect_err("focus 7 should be rejected");

    assert_eq!(error.command_name, "focus");
    assert_eq!(error.requested_transition, "Focused(7)");
    assert_eq!(error.message, "invalid focus index: expected integer 0..3");
}

#[test]
fn switcher_four_view_control_pipe_response_formats_required_fields() {
    let response = format_four_view_control_pipe_command_response("focus 2", &focus_summary());

    assert!(response.contains("command=focus_2"));
    assert!(response.contains("transition_result=Transitioned"));
    assert!(response.contains("current_view_state=Focused(2)"));
    assert!(response.contains("view_render_mode=Focused"));
    assert!(response.contains("output_layout=FocusedFullWindow"));
    assert!(response.contains("rendered_slot_count=1"));
    assert!(response.contains("focused_slot_index=2"));
    assert!(response.contains("selected_slot_result=Selected"));
    assert!(response.contains("clean_output_render_result_kind=Rendered"));
    assert!(response.contains("all_view_render_result_kind=not_applicable"));
    assert!(response.contains("command_parse_error=none"));
    assert!(response.contains("exit_reason=none"));
}

#[test]
fn control_pipe_response_is_one_exact_line() {
    let response = format_four_view_control_pipe_command_response("focus 2", &focus_summary());
    assert_eq!(
        response,
        "switcher four-view control response command=focus_2 transition_result=Transitioned current_view_state=Focused(2) view_render_mode=Focused output_layout=FocusedFullWindow rendered_slot_count=1 focused_slot_index=2 selected_slot_result=Selected clean_output_render_result_kind=Rendered all_view_render_result_kind=not_applicable command_parse_error=none exit_reason=none"
    );
}

#[test]
fn control_command_parser_trims_and_rejects_unknown_words() {
    assert_eq!(
        parse_four_view_control_command("  focus 0  "),
        Ok(SwitcherFourViewControlledPreviewCommand::Focus(0))
    );
    let empty = parse_four_view_control_command("   ").expect_err("blank is rejected");
    assert_eq!(empty.command_name, "empty");
    assert_eq!(empty.requested_transition, "none");
    assert_eq!(empty.message, "empty command");
    let unknown = parse_four_view_control_command("zoom in").expect_err("unknown is rejected");
    assert_eq!(unknown.command_name, "zoom");
    assert_eq!(unknown.requested_transition, "zoom_in");
    assert_eq!(unknown.message, "unknown command");
    let extra = parse_four_view_control_command("all now").expect_err("all takes no argument");
    assert_eq!(extra.message, "all does not accept arguments");
    let missing = parse_four_view_control_command("focus").expect_err("focus needs an index");
    assert_eq!(missing.requested_transition, "Focused(?)");
}

#[test]
fn view_states_format_as_summaries_show_them() {
    assert_eq!(
        format_four_view_controlled_preview_view_state(
            SwitcherFourViewControlledPreviewViewState::AllView
        ),
        "AllView"
    );
    assert_eq!(
        format_four_view_controlled_preview_view_state(
            SwitcherFourViewControlledPreviewViewState::Focused(3)
        ),
        "Focused(3)"
    );
}

#[test]
fn control_decisions_follow_the_view_state() {
    let all = decide_four_view_control_command(
        "all",
        SwitcherFourViewControlledPreviewViewState::AllView,
    );
    assert_eq!(all.transition_result, "NoChange");
    assert_eq!(all.next_view_state, SwitcherFourViewControlledPreviewViewState::AllView);

    let focus = decide_four_view_control_command(
        "focus 1",
        SwitcherFourViewControlledPreviewViewState::AllView,
    );
    assert_eq!(focus.transition_result, "Transitioned");
    assert_eq!(focus.requested_transition, "Focused(1)");
    assert_eq!(
        focus.next_view_state,
        SwitcherFourViewControlledPreviewViewState::Focused(1)
    );

    let status = decide_four_view_control_command(
        "status",
        SwitcherFourViewControlledPreviewViewState::Focused(1),
    );
    assert_eq!(status.transition_result, "Observed");
    assert_eq!(
        status.next_view_state,
        SwitcherFourViewControlledPreviewViewState::Focused(1)
    );

    let quit = decide_four_view_control_command(
        "quit",
        SwitcherFourViewControlledPreviewViewState::Focused(1),
    );
    assert_eq!(quit.exit_reason, "QuitRequested");
    assert!(!quit.renders);
    assert_eq!(
        quit.next_view_state,
        SwitcherFourViewControlledPreviewViewState::Focused(1)
    );

    let rejected = decide_four_view_control_command(
        "focus 9",
        SwitcherFourViewControlledPreviewViewState::AllView,
    );
    assert_eq!(rejected.transition_result, "Rejected");
    assert_eq!(
        rejected.command_parse_error,
        "invalid focus index: expected integer 0..3"
    );
    assert_eq!(
        rejected.next_view_state,
        SwitcherFourViewControlledPreviewViewState::AllView
    );
}

#[test]
fn scripted_control_commands_split_on_semicolons() {
    assert_eq!(
        split_scripted_control_commands(" status ;; focus 0;quit ;"),
        vec!["status".to_string(), "focus 0".to_string(), "quit".to_string()]
    );
    assert!(split_scripted_control_commands(" ; ").is_empty());
}

#[test]
fn control_loop_tally_counts_rejections_and_stops_on_quit() {
    let mut tally = ControlLoopTally::new();
    let mut summary = focus_summary();
    summary.transition_result = "Rejected".to_string();
    assert!(!tally.record(&summary));
    summary.transition_result = "ExitRequested".to_string();
    summary.exit_reason = "QuitRequested".to_string();
    assert!(tally.record(&summary));
    assert_eq!(tally.commands_processed, 2);
    assert_eq!(tally.commands_rejected, 1);
    assert_eq!(tally.exit_reason, "QuitRequested");
    assert_eq!(tally.frames_rendered_total, 2 * summary.frames_rendered);
    assert_eq!(tally.render_failures_total, 2 * summary.render_failures);

    let mut quiet = ControlLoopTally::new();
    quiet.finish_stdin();
    assert_eq!(quiet.exit_reason, "EndOfInput");
}

#[test]
fn control_pipe_names_map_to_local_pipe_paths() {
    assert_eq!(
        control_named_pipe_path("streamsync-control-dev"),
        Ok(r"\\.\pipe\streamsync-control-dev".to_string())
    );
    assert_eq!(
        control_named_pipe_path("  "),
        Err("control pipe name must not be empty".to_string())
    );
}

#[test]
fn command_summaries_carry_the_decision_and_what_rendering_gave() {
    let decision = decide_four_view_control_command(
        "focus 2",
        SwitcherFourViewControlledPreviewViewState::AllView,
    );
    let outcome = FourViewControlledPreviewRenderOutcome {
        view_render_mode: "Focused".to_string(),
        output_layout: "FocusedFullWindow".to_string(),
        selected_slot_result: "Selected".to_string(),
        rendered_slot_count: 1,
        focused_slot_index: Some(2),
        frames_rendered: 2,
        render_failures: 0,
        scheduler_status: "AllSelected".to_string(),
        slot_result_kinds: ["Selected".to_string(), "Selected".to_string(), "Selected".to_string(), "Selected".to_string()],
        slot_diagnostics: ["a".to_string(), "b".to_string(), "c".to_string(), "d".to_string()],
        clean_output_render_result_kind: "Rendered".to_string(),
        all_view_render_result_kind: "not_applicable".to_string(),
        window_title: "StreamSync 4-view Output".to_string(),
    };
    let summary = four_view_controlled_command_summary(3, &decision, Some(&outcome));
    assert_eq!(summary.command_index, 3);
    assert_eq!(summary.control_command_name, "focus");
    assert_eq!(summary.requested_transition, "Focused(2)");
    assert_eq!(summary.transition_result, "Transitioned");
    assert_eq!(
        summary.current_view_state,
        SwitcherFourViewControlledPreviewViewState::Focused(2)
    );
    assert_eq!(summary.frames_rendered, 2);
    assert_eq!(summary.scheduler_status, "AllSelected");
    assert_eq!(summary.focused_slot_index, Some(2));

    let quit = decide_four_view_control_command(
        "quit",
        SwitcherFourViewControlledPreviewViewState::Focused(2),
    );
    let summary = four_view_controlled_command_summary(4, &quit, None);
    assert_eq!(summary.exit_reason, "QuitRequested");
    assert_eq!(summary.transition_result, "ExitRequested");
    assert_eq!(summary.view_render_mode, "none");
    assert_eq!(summary.selected_slot_result, "NotApplicable");
    assert_eq!(summary.scheduler_status, "NoFrames");
    assert_eq!(summary.all_view_render_result_kind, "not_applicable");
    assert_eq!(
        summary.current_view_state,
        SwitcherFourViewControlledPreviewViewState::Focused(2)
    );
}

#[test]
fn finished_render_reports_the_view_layout_and_the_focused_slot_result() {
    let mut frames = FrameRenderTally::new();
    frames.record_focused_view("RenderFailed");
    frames.record_focused_view("Rendered");
    let kinds = [
        "Selected".to_string(),
        "NoFrameAvailable".to_string(),
        "HandoffError".to_string(),
        "Selected".to_string(),
    ];
    let diagnostics = ["a".to_string(), "b".to_string(), "c".to_string(), "d".to_string()];
    let focused = finish_four_view_controlled_render(
        SwitcherFourViewControlledPreviewViewState::Focused(2),
        &frames,
        1,
        "PartialSelected".to_string(),
        kinds.clone(),
        diagnostics.clone(),
        "Rendered".to_string(),
        "not_applicable".to_string(),
        "StreamSync 4-view Output".to_string(),
    );
    assert_eq!(focused.view_render_mode, "Focused");
    assert_eq!(focused.output_layout, "FocusedFullWindow");
    assert_eq!(focused.focused_slot_index, Some(2));
    assert_eq!(focused.selected_slot_result, "HandoffError");
    assert_eq!((focused.frames_rendered, focused.render_failures), (1, 1));

    let all = finish_four_view_controlled_render(
        SwitcherFourViewControlledPreviewViewState::AllView,
        &FrameRenderTally::new(),
        4,
        "AllSelected".to_string(),
        kinds,
        diagnostics,
        "NoRenderableQuadView".to_string(),
        "NoRenderableQuadView".to_string(),
        "StreamSync 4-view Output".to_string(),
    );
    assert_eq!(all.view_render_mode, "AllView");
    assert_eq!(all.output_layout, "QuadView");
    assert_eq!(all.focused_slot_index, None);
    assert_eq!(all.selected_slot_result, "NotApplicable");
    assert_eq!(all.rendered_slot_count, 4);
}

#[test]
fn control_command_words_ignore_surrounding_white_space() {
    assert_eq!(
        parse_four_view_control_command(" \t focus   2 \n"),
        Ok(SwitcherFourViewControlledPreviewCommand::Focus(2))
    );
    assert_eq!(
        parse_four_view_control_command("  quit  "),
        Ok(SwitcherFourViewControlledPreviewCommand::Quit)
    );
    let error = parse_four_view_control_command("  status now ").unwrap_err();
    assert_eq!(error.command_name, "status");
    assert_eq!(error.requested_transition, "Status");
    assert_eq!(error.message, "status does not accept arguments");
    let error = parse_four_view_control_command(" focus 1 2 ").unwrap_err();
    assert_eq!(error.requested_transition, "Focused(1)");
    assert_eq!(error.message, "focus accepts exactly one slot index");
    let error = parse_four_view_control_command(" focus 4").unwrap_err();
    assert_eq!(error.message, "invalid focus index: expected integer 0..3");
    let error = parse_four_view_control_command("  jump left ").unwrap_err();
    assert_eq!(error.command_name, "jump");
    assert_eq!(error.requested_transition, "jump_left");
    assert_eq!(error.message, "unknown command");
}
