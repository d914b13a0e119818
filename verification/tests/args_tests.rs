use stream_sync_switcher_core::args::{
    parse_four_view_all_renderable_fixture_mode, parse_four_view_control_command_source,
    parse_four_view_manual_preview_fixture_mode, parse_four_view_operator_wrapper_input_source,
    parse_four_view_real_slot_index, parse_handoff_mode, parse_optional_four_view_control_script,
    parse_optional_real_handoff_preview_mode, parse_positive_u32_arg,
    validate_distinct_four_view_real_slot_indices, FourViewControlCommandSource,
    FourViewOperatorWrapperInputSource,
};
use stream_sync_switcher_core::modes::{
    format_four_view_manual_preview_fixture_mode_name, format_handoff_mode,
    format_handoff_read_mode, handoff_read_mode_from_switcher_mode,
    preview_target_time_mode_from_switcher_mode, ManualPreviewFixtureMode, QueueSourceMode,
    QueuedFrameReadMode, TargetTimeSourceMode,
};

#[test]
fn switcher_handoff_parses_mode_names() {
    assert_eq!(
        parse_handoff_mode(Some("preview-oldest".to_string()), "mode"),
        Ok(QueueSourceMode::PreviewOldest)
    );
    assert_eq!(
        parse_handoff_mode(Some("preview-latest".to_string()), "mode"),
        Ok(QueueSourceMode::PreviewLatest)
    );
    assert_eq!(
        parse_handoff_mode(Some("preview-latest-decodable".to_string()), "mode"),
        Ok(QueueSourceMode::PreviewLatestDecodable)
    );
    assert_eq!(
        parse_handoff_mode(Some("consume-oldest".to_string()), "mode"),
        Ok(QueueSourceMode::ConsumeOldest)
    );
}

#[test]
fn switcher_optional_real_handoff_preview_mode_accepts_preview_latest_decodable() {
    assert_eq!(
        parse_optional_real_handoff_preview_mode(Some("preview-latest-decodable".to_string())),
        Ok(QueueSourceMode::PreviewLatestDecodable)
    );
}

#[test]
fn switcher_optional_real_handoff_preview_mode_defaults_to_preview_latest() {
    assert_eq!(
        parse_optional_real_handoff_preview_mode(None),
        Ok(QueueSourceMode::PreviewLatest)
    );
}

#[test]
fn switcher_preview_latest_decodable_maps_to_expected_handoff_and_target_time_modes() {
    assert_eq!(
        handoff_read_mode_from_switcher_mode(QueueSourceMode::PreviewLatestDecodable),
        QueuedFrameReadMode::InspectLatestDecodable
    );
    assert_eq!(
        preview_target_time_mode_from_switcher_mode(QueueSourceMode::PreviewLatestDecodable),
        TargetTimeSourceMode::PreviewLatestDecodableIfAtOrBefore
    );
}

#[test]
fn switcher_handoff_formats_mode_names() {
    assert_eq!(format_handoff_mode(QueueSourceMode::PreviewLatest), "preview-latest");
    assert_eq!(
        format_handoff_mode(QueueSourceMode::PreviewLatestDecodable),
        "preview-latest-decodable"
    );
    assert_eq!(
        format_handoff_read_mode(QueuedFrameReadMode::InspectLatest),
        "inspect-latest"
    );
    assert_eq!(
        format_handoff_read_mode(QueuedFrameReadMode::InspectLatestDecodable),
        "inspect-latest-decodable"
    );
}

#[test]
fn switcher_four_view_manual_proof_fixture_mode_parses_names() {
    assert_eq!(
        parse_four_view_manual_preview_fixture_mode(Some("all-renderable".to_string())),
        Ok(ManualPreviewFixtureMode::AllRenderable)
    );
    assert_eq!(
        parse_four_view_manual_preview_fixture_mode(Some(
            "mixed-placeholder-source-error".to_string()
        )),
        Ok(ManualPreviewFixtureMode::MixedPlaceholderAndSourceError)
    );
    assert_eq!(
        parse_four_view_manual_preview_fixture_mode(Some("placeholder-only".to_string())),
        Ok(ManualPreviewFixtureMode::PlaceholderOnly)
    );
    assert_eq!(
        parse_four_view_manual_preview_fixture_mode(None),
        Ok(ManualPreviewFixtureMode::AllRenderable)
    );
}

#[test]
fn switcher_four_view_actual_window_fixture_mode_parses_only_all_renderable() {
    assert_eq!(
        parse_four_view_all_renderable_fixture_mode(Some("all-renderable".to_string())),
        Ok(ManualPreviewFixtureMode::AllRenderable)
    );
    assert_eq!(
        parse_four_view_all_renderable_fixture_mode(None),
        Ok(ManualPreviewFixtureMode::AllRenderable)
    );
}

#[test]
fn switcher_four_view_all_renderable_fixture_mode_rejects_unsupported_modes() {
    let error = parse_four_view_all_renderable_fixture_mode(Some(
        "mixed-placeholder-source-error".to_string(),
    ))
    .expect_err("unsupported fixture mode should be rejected");

    assert_eq!(error, "invalid fixture-mode: expected all-renderable");
}

#[test]
fn switcher_four_view_real_slot_index_parses_zero_to_three() {
    assert_eq!(parse_four_view_real_slot_index(Some("0".to_string())), Ok(0));
    assert_eq!(parse_four_view_real_slot_index(Some("3".to_string())), Ok(3));
}

#[test]
fn switcher_four_view_real_slot_indices_must_be_distinct() {
    validate_distinct_four_view_real_slot_indices(0, 1)
        .expect("distinct real slot indices should be accepted");

    let error = validate_distinct_four_view_real_slot_indices(2, 2)
        .expect_err("duplicate real slot indices should be rejected");
    assert_eq!(
        error,
        "invalid slot indices: slot0-index and slot1-index must be distinct"
    );
}

#[test]
fn switcher_four_view_control_script_parses_optional_commands_flag() {
    assert_eq!(
        parse_optional_four_view_control_script(vec![
            "--commands".to_string(),
            "status;focus 0;quit".to_string()
        ])
        .expect("script flag should parse"),
        Some("status;focus 0;quit".to_string())
    );
    assert_eq!(
        parse_optional_four_view_control_script(Vec::new())
            .expect("missing script should stay optional"),
        None
    );
}

#[test]
fn switcher_four_view_control_command_source_parses_scripted_and_control_pipe_modes() {
    assert_eq!(
        parse_four_view_control_command_source(vec![
            "--commands".to_string(),
            "status;quit".to_string(),
        ])
        .expect("scripted source should parse"),
        FourViewControlCommandSource::Scripted("status;quit".to_string())
    );
    assert_eq!(
        parse_four_view_control_command_source(vec![
            "--control-pipe".to_string(),
            "streamsync-control-dev".to_string(),
        ])
        .expect("control pipe source should parse"),
        FourViewControlCommandSource::ControlPipe("streamsync-control-dev".to_string())
    );
    assert_eq!(
        parse_four_view_control_command_source(Vec::new())
            .expect("empty control args should default to stdin"),
        FourViewControlCommandSource::Stdin
    );
}

#[test]
fn switcher_four_view_control_command_source_rejects_mixed_optional_modes() {
    let error = parse_four_view_control_command_source(vec![
        "--commands".to_string(),
        "status".to_string(),
        "--control-pipe".to_string(),
        "streamsync-control-dev".to_string(),
    ])
    .expect_err("mixed control sources should be rejected");

    assert!(error.contains("use either --commands"));
}

#[test]
fn switcher_four_view_operator_wrapper_input_source_parses_scripted_keys_mode() {
    assert_eq!(
        parse_four_view_operator_wrapper_input_source(vec![
            "--keys".to_string(),
            "s;1;2;q;q".to_string()
        ])
        .expect("scripted keys should parse"),
        FourViewOperatorWrapperInputSource::ScriptedKeys("s;1;2;q;q".to_string())
    );
    assert_eq!(
        parse_four_view_operator_wrapper_input_source(Vec::new())
            .expect("missing keys should default to stdin"),
        FourViewOperatorWrapperInputSource::Stdin
    );
}

#[test]
fn switcher_four_view_operator_wrapper_input_source_parses_raw_keys_mode() {
    assert_eq!(
        parse_four_view_operator_wrapper_input_source(vec!["--raw-keys".to_string()])
            .expect("raw keys should parse"),
        FourViewOperatorWrapperInputSource::RawKeys
    );
}

#[test]
fn switcher_four_view_clean_output_loop_frames_parse_positive_integer() {
    assert_eq!(
        parse_positive_u32_arg(Some("3".to_string()), "frames")
            .expect("positive frames should parse"),
        3
    );

    let zero_error =
        parse_positive_u32_arg(Some("0".to_string()), "frames").expect_err("zero is invalid");
    assert_eq!(zero_error, "invalid frames: expected positive integer");
}

#[test]
fn positive_u32_arg_reports_missing_and_malformed_values() {
    assert_eq!(
        parse_positive_u32_arg(None, "frames"),
        Err("missing frames".to_string())
    );
    assert_eq!(
        parse_positive_u32_arg(Some("x".to_string()), "frames"),
        Err("invalid frames: invalid digit found in string".to_string())
    );
    assert_eq!(
        parse_positive_u32_arg(Some("4294967296".to_string()), "frames"),
        Err("invalid frames: number too large to fit in target type".to_string())
    );
    assert_eq!(parse_positive_u32_arg(Some("4294967295".to_string()), "frames"), Ok(u32::MAX));
}

#[test]
fn handoff_mode_round_trips_through_its_name() {
    for mode in [
        QueueSourceMode::PreviewOldest,
        QueueSourceMode::PreviewLatest,
        QueueSourceMode::PreviewLatestDecodable,
        QueueSourceMode::ConsumeOldest,
    ] {
        assert_eq!(
            parse_handoff_mode(Some(format_handoff_mode(mode).to_string()), "mode"),
            Ok(mode)
        );
    }
    for mode in [
        ManualPreviewFixtureMode::AllRenderable,
        ManualPreviewFixtureMode::MixedPlaceholderAndSourceError,
        ManualPreviewFixtureMode::PlaceholderOnly,
    ] {
        assert_eq!(
            parse_four_view_manual_preview_fixture_mode(Some(
                format_four_view_manual_preview_fixture_mode_name(mode).to_string()
            )),
            Ok(mode)
        );
    }
}

#[test]
fn handoff_mode_rejects_unknown_names_and_missing_values() {
    assert!(parse_handoff_mode(Some("latest".to_string()), "mode").is_err());
    assert!(parse_handoff_mode(None, "mode").is_err());
    assert!(parse_four_view_manual_preview_fixture_mode(Some("none".to_string())).is_err());
    assert!(parse_four_view_real_slot_index(Some("4".to_string())).is_err());
    assert!(parse_four_view_real_slot_index(None).is_err());
}

#[test]
fn consuming_mode_is_refused_for_previews() {
    assert!(parse_optional_real_handoff_preview_mode(Some("consume-oldest".to_string())).is_err());
    assert_eq!(
        handoff_read_mode_from_switcher_mode(QueueSourceMode::ConsumeOldest),
        QueuedFrameReadMode::DequeueOldest
    );
}

fn strings(values: &[&str]) -> Vec<String> {
    values.iter().map(|value| value.to_string()).collect()
}

#[test]
fn control_command_source_accepts_only_the_three_forms() {
    assert_eq!(
        parse_four_view_control_command_source(Vec::new()),
        Ok(FourViewControlCommandSource::Stdin)
    );
    assert_eq!(
        parse_four_view_control_command_source(strings(&["--commands", "--control-pipe"])),
        Ok(FourViewControlCommandSource::Scripted("--control-pipe".to_string()))
    );
    assert_eq!(
        parse_four_view_control_command_source(strings(&["--control-pipe", "pipe-a"])),
        Ok(FourViewControlCommandSource::ControlPipe("pipe-a".to_string()))
    );
    assert_eq!(
        parse_four_view_control_command_source(strings(&["--control-pipe", "  "])),
        Err("control pipe name must not be empty".to_string())
    );
    assert_eq!(
        parse_four_view_control_command_source(strings(&["--control-pipe", "pipe-a", "extra"])),
        Err("unexpected extra arguments: expected optional --commands \"cmd;cmd;quit\" or --control-pipe pipe-name".to_string())
    );
    assert_eq!(
        parse_four_view_control_command_source(strings(&["--control-pipe"])),
        Err("missing value for --control-pipe".to_string())
    );
    assert!(parse_four_view_control_command_source(strings(&["--commands", "a", "b"])).is_err());
}
