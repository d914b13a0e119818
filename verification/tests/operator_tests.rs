use std::cell::Cell;
use std::collections::VecDeque;

use stream_sync_switcher_core::args::FourViewOperatorWrapperInputSource;
use stream_sync_switcher_core::operator::{
    extract_summary_field, format_four_view_operator_wrapper_guard_state,
    format_four_view_operator_wrapper_key_summary, format_four_view_operator_wrapper_loop_summary,
    normalize_four_view_operator_wrapper_exit_reason, parse_four_view_operator_wrapper_key,
    process_four_view_operator_wrapper_key,
    run_four_view_operator_wrapper_with_runtime_and_clock_and_raw_key_runtime,
    run_send_control_command_with_runtime, split_scripted_operator_wrapper_keys,
    FourViewControlPipeClientRuntime, FourViewOperatorWrapperClock,
    FourViewOperatorWrapperGuardState, FourViewOperatorWrapperRawConsoleRestoreTracker,
    FourViewOperatorWrapperRawKeyReader, FourViewOperatorWrapperRawKeyRuntime,
};

struct FakeControlPipeClientRuntime {
    last_pipe_name: Option<String>,
    last_command: Option<String>,
    response: String,
}

impl FourViewControlPipeClientRuntime for FakeControlPipeClientRuntime {
    fn send_command(
        &mut self,
        pipe_name: &str,
        command: &str,
        _connect_timeout_millis: u32,
    ) -> Result<String, String> {
        self.last_pipe_name = Some(pipe_name.to_string());
        self.last_command = Some(command.to_string());
        Ok(self.response.clone())
    }
}

#[derive(Default)]
struct FakeOperatorWrapperClientRuntime {
    commands: Vec<String>,
    responses: Vec<String>,
    send_error: Option<String>,
}

impl FakeOperatorWrapperClientRuntime {
    fn failing(message: &str) -> Self {
        Self {
            commands: Vec::new(),
            responses: Vec::new(),
            send_error: Some(message.to_string()),
        }
    }
}

impl FourViewControlPipeClientRuntime for FakeOperatorWrapperClientRuntime {
    fn send_command(
        &mut self,
        _pipe_name: &str,
        command: &str,
        _connect_timeout_millis: u32,
    ) -> Result<String, String> {
        self.commands.push(command.to_string());
        if let Some(error) = self.send_error.clone() {
            return Err(error);
        }
        Ok(self.responses.remove(0))
    }
}

struct FakeOperatorWrapperClock {
    now_millis: Cell<u64>,
}

impl FakeOperatorWrapperClock {
    fn new(now_millis: u64) -> Self {
        Self {
            now_millis: Cell::new(now_millis),
        }
    }

    fn set_now_millis(&self, now_millis: u64) {
        self.now_millis.set(now_millis);
    }
}

impl FourViewOperatorWrapperClock for FakeOperatorWrapperClock {
    fn now_millis(&self) -> u64 {
        self.now_millis.get()
    }
}

struct FakeOperatorWrapperRawKeyReader {
    keys: VecDeque<String>,
}

impl FourViewOperatorWrapperRawKeyReader for FakeOperatorWrapperRawKeyReader {
    fn read_next_key(&mut self) -> Result<Option<String>, String> {
        Ok(self.keys.pop_front())
    }
}

struct FakeOperatorWrapperRawKeyRuntime {
    keys: VecDeque<String>,
    open_error: Option<String>,
    restore_error: Option<String>,
}

impl FakeOperatorWrapperRawKeyRuntime {
    fn from_keys(keys: &[&str]) -> Self {
        Self {
            keys: keys.iter().map(|value| value.to_string()).collect(),
            open_error: None,
            restore_error: None,
        }
    }

    fn failing(message: &str) -> Self {
        Self {
            keys: VecDeque::new(),
            open_error: Some(message.to_string()),
            restore_error: None,
        }
    }

    fn from_keys_with_restore_error(keys: &[&str], restore_error: &str) -> Self {
        Self {
            keys: keys.iter().map(|value| value.to_string()).collect(),
            open_error: None,
            restore_error: Some(restore_error.to_string()),
        }
    }
}

impl FourViewOperatorWrapperRawKeyRuntime for FakeOperatorWrapperRawKeyRuntime {
    type Reader = FakeOperatorWrapperRawKeyReader;

    fn open(&mut self) -> Result<Self::Reader, String> {
        if let Some(error) = self.open_error.clone() {
            return Err(error);
        }
        Ok(FakeOperatorWrapperRawKeyReader {
            keys: std::mem::take(&mut self.keys),
        })
    }

    fn close(&mut self, _reader: Self::Reader) -> FourViewOperatorWrapperRawConsoleRestoreTracker {
        let mut tracker = FourViewOperatorWrapperRawConsoleRestoreTracker::default();
        if let Some(error) = self.restore_error.clone() {
            tracker.mark_failed(error);
        } else {
            tracker.mark_restored();
        }
        tracker
    }
}

struct NoStdin;

impl FourViewOperatorWrapperRawKeyReader for NoStdin {
    fn read_next_key(&mut self) -> Result<Option<String>, String> {
        Ok(None)
    }
}

struct StdinLines {
    lines: VecDeque<String>,
}

impl FourViewOperatorWrapperRawKeyReader for StdinLines {
    fn read_next_key(&mut self) -> Result<Option<String>, String> {
        Ok(self.lines.pop_front())
    }
}

fn unarmed() -> FourViewOperatorWrapperGuardState {
    FourViewOperatorWrapperGuardState {
        quit_armed: false,
        armed_until_millis: None,
    }
}

fn response(command: &str, exit_reason: &str) -> String {
    format!(
        "switcher four-view control response command={command} transition_result=Transitioned current_view_state=AllView selected_slot_result=Selected clean_output_render_result_kind=Rendered command_parse_error=none exit_reason={exit_reason}"
    )
}

#[test]
fn switcher_send_control_command_uses_client_runtime_and_returns_response() {
    let mut runtime = FakeControlPipeClientRuntime {
        last_pipe_name: None,
        last_command: None,
        response:
            "switcher four-view control response command=status transition_result=Observed current_view_state=AllView selected_slot_result=Selected clean_output_render_result_kind=Rendered command_parse_error=none exit_reason=none"
                .to_string(),
    };

    let response =
        run_send_control_command_with_runtime("streamsync-control-dev", "status", &mut runtime)
            .expect("send-control-command should succeed");

    assert_eq!(
        runtime.last_pipe_name.as_deref(),
        Some("streamsync-control-dev")
    );
    assert_eq!(runtime.last_command.as_deref(), Some("status"));
    assert!(response.contains("command=status"));
}

#[test]
fn send_control_command_refuses_blank_pipe_name_without_sending() {
    let mut runtime = FakeOperatorWrapperClientRuntime::default();
    assert_eq!(
        run_send_control_command_with_runtime("  ", "status", &mut runtime),
        Err("control pipe name must not be empty".to_string())
    );
    assert!(runtime.commands.is_empty());
}

#[test]
fn switcher_four_view_operator_wrapper_key_mapping_maps_expected_commands() {
    let clock = FakeOperatorWrapperClock::new(0);
    let mut runtime = FakeOperatorWrapperClientRuntime {
        commands: Vec::new(),
        responses: vec![
            "switcher four-view control response command=focus_0 transition_result=Transitioned current_view_state=Focused(0) selected_slot_result=Selected clean_output_render_result_kind=Rendered command_parse_error=none exit_reason=none".to_string(),
            "switcher four-view control response command=all transition_result=Transitioned current_view_state=AllView selected_slot_result=Selected clean_output_render_result_kind=Rendered command_parse_error=none exit_reason=none".to_string(),
            "switcher four-view control response command=status transition_result=Observed current_view_state=AllView selected_slot_result=Selected clean_output_render_result_kind=Rendered command_parse_error=none exit_reason=none".to_string(),
        ],
        send_error: None,
    };
    let mut guard_state = unarmed();

    let focus_summary = process_four_view_operator_wrapper_key(
        0,
        "1",
        &mut guard_state,
        "streamsync-control-dev",
        &mut runtime,
        &clock,
    );
    let all_summary = process_four_view_operator_wrapper_key(
        1,
        "a",
        &mut guard_state,
        "streamsync-control-dev",
        &mut runtime,
        &clock,
    );
    let status_summary = process_four_view_operator_wrapper_key(
        2,
        "S",
        &mut guard_state,
        "streamsync-control-dev",
        &mut runtime,
        &clock,
    );

    assert_eq!(
        runtime.commands,
        vec![
            "focus 0".to_string(),
            "all".to_string(),
            "status".to_string()
        ]
    );
    assert_eq!(focus_summary.mapped_command, "focus_0");
    assert_eq!(all_summary.mapped_command, "all");
    assert_eq!(status_summary.mapped_command, "status");
    assert_eq!(status_summary.send_result, "Sent");
}

#[test]
fn switcher_four_view_operator_wrapper_unknown_key_is_ignored_locally() {
    let clock = FakeOperatorWrapperClock::new(0);
    let mut runtime = FakeOperatorWrapperClientRuntime::default();
    let mut guard_state = unarmed();

    let summary = process_four_view_operator_wrapper_key(
        0,
        "x",
        &mut guard_state,
        "streamsync-control-dev",
        &mut runtime,
        &clock,
    );

    assert!(runtime.commands.is_empty());
    assert_eq!(summary.send_result, "Ignored");
    assert_eq!(summary.wrapper_error, "unknown_key");
    assert_eq!(summary.mapped_command, "none");
}

#[test]
fn switcher_four_view_operator_wrapper_q_once_arms_guard_without_sending_quit() {
    let clock = FakeOperatorWrapperClock::new(100);
    let mut runtime = FakeOperatorWrapperClientRuntime::default();
    let mut guard_state = unarmed();

    let summary = process_four_view_operator_wrapper_key(
        0,
        "q",
        &mut guard_state,
        "streamsync-control-dev",
        &mut runtime,
        &clock,
    );

    assert!(runtime.commands.is_empty());
    assert_eq!(summary.send_result, "GuardArmed");
    assert_eq!(summary.guard_state, "quit_armed=true");
    assert_eq!(guard_state.armed_until_millis, Some(2_100));
}

#[test]
fn switcher_four_view_operator_wrapper_q_twice_within_guard_sends_quit() {
    let clock = FakeOperatorWrapperClock::new(100);
    let mut runtime = FakeOperatorWrapperClientRuntime {
        commands: Vec::new(),
        responses: vec![
            "switcher four-view control response command=quit transition_result=ExitRequested current_view_state=AllView selected_slot_result=NotApplicable clean_output_render_result_kind=Rendered command_parse_error=none exit_reason=QuitRequested".to_string(),
        ],
        send_error: None,
    };
    let mut guard_state = unarmed();

    process_four_view_operator_wrapper_key(
        0,
        "q",
        &mut guard_state,
        "streamsync-control-dev",
        &mut runtime,
        &clock,
    );
    clock.set_now_millis(500);
    let summary = process_four_view_operator_wrapper_key(
        1,
        "Q",
        &mut guard_state,
        "streamsync-control-dev",
        &mut runtime,
        &clock,
    );

    assert_eq!(runtime.commands, vec!["quit".to_string()]);
    assert_eq!(summary.send_result, "Sent");
    assert_eq!(summary.exit_reason, "QuitRequested");
    assert_eq!(summary.guard_state, "quit_armed=false");
}

#[test]
fn switcher_four_view_operator_wrapper_non_q_clears_quit_guard() {
    let clock = FakeOperatorWrapperClock::new(100);
    let mut runtime = FakeOperatorWrapperClientRuntime {
        commands: Vec::new(),
        responses: vec![
            "switcher four-view control response command=status transition_result=Observed current_view_state=AllView selected_slot_result=Selected clean_output_render_result_kind=Rendered command_parse_error=none exit_reason=none".to_string(),
        ],
        send_error: None,
    };
    let mut guard_state = unarmed();

    process_four_view_operator_wrapper_key(
        0,
        "q",
        &mut guard_state,
        "streamsync-control-dev",
        &mut runtime,
        &clock,
    );
    let summary = process_four_view_operator_wrapper_key(
        1,
        "s",
        &mut guard_state,
        "streamsync-control-dev",
        &mut runtime,
        &clock,
    );

    assert_eq!(runtime.commands, vec!["status".to_string()]);
    assert_eq!(summary.guard_state, "quit_armed=false");
    assert!(!guard_state.quit_armed);
}

#[test]
fn switcher_four_view_operator_wrapper_guard_timeout_clears_before_second_q() {
    let clock = FakeOperatorWrapperClock::new(100);
    let mut runtime = FakeOperatorWrapperClientRuntime::default();
    let mut guard_state = unarmed();

    process_four_view_operator_wrapper_key(
        0,
        "q",
        &mut guard_state,
        "streamsync-control-dev",
        &mut runtime,
        &clock,
    );
    clock.set_now_millis(2_101);
    let summary = process_four_view_operator_wrapper_key(
        1,
        "q",
        &mut guard_state,
        "streamsync-control-dev",
        &mut runtime,
        &clock,
    );

    assert!(runtime.commands.is_empty());
    assert_eq!(summary.send_result, "GuardArmed");
    assert_eq!(summary.guard_state, "quit_armed=true");
}

#[test]
fn switcher_four_view_operator_wrapper_scripted_keys_parser_splits_semicolon_tokens() {
    assert_eq!(
        split_scripted_operator_wrapper_keys("s;1;2;3;4;0;q;q"),
        vec![
            "s".to_string(),
            "1".to_string(),
            "2".to_string(),
            "3".to_string(),
            "4".to_string(),
            "0".to_string(),
            "q".to_string(),
            "q".to_string()
        ]
    );
}

#[test]
fn switcher_four_view_operator_wrapper_raw_keys_mode_reuses_existing_mapping() {
    let clock = FakeOperatorWrapperClock::new(0);
    let mut runtime = FakeOperatorWrapperClientRuntime {
        commands: Vec::new(),
        responses: vec![
            "switcher four-view control response command=focus_0 transition_result=Transitioned current_view_state=Focused(0) selected_slot_result=Selected clean_output_render_result_kind=Rendered command_parse_error=none exit_reason=none".to_string(),
            "switcher four-view control response command=all transition_result=Transitioned current_view_state=AllView selected_slot_result=NotApplicable clean_output_render_result_kind=Rendered command_parse_error=none exit_reason=none".to_string(),
            "switcher four-view control response command=status transition_result=Observed current_view_state=AllView selected_slot_result=NotApplicable clean_output_render_result_kind=Rendered command_parse_error=none exit_reason=none".to_string(),
        ],
        send_error: None,
    };
    let mut raw_key_runtime = FakeOperatorWrapperRawKeyRuntime::from_keys(&["1", "A", "s"]);

    let summary = run_four_view_operator_wrapper_with_runtime_and_clock_and_raw_key_runtime(
        "streamsync-control-dev",
        FourViewOperatorWrapperInputSource::RawKeys,
        &mut runtime,
        &clock,
        &mut raw_key_runtime,
        &mut NoStdin,
    )
    .expect("raw keys wrapper run should succeed");

    assert_eq!(
        runtime.commands,
        vec![
            "focus 0".to_string(),
            "all".to_string(),
            "status".to_string()
        ]
    );
    assert_eq!(summary.input_source, "raw_keys");
    assert_eq!(summary.commands_sent, 3);
    assert_eq!(summary.key_summaries[0].mapped_command, "focus_0");
    assert_eq!(summary.key_summaries[1].mapped_command, "all");
    assert_eq!(summary.key_summaries[2].mapped_command, "status");
    assert_eq!(summary.raw_console_restore_result, "restored");
    assert_eq!(summary.raw_console_restore_error, "none");
}

#[test]
fn switcher_four_view_operator_wrapper_raw_keys_q_once_and_q_twice_reuse_guard_logic() {
    let clock = FakeOperatorWrapperClock::new(100);
    let mut runtime = FakeOperatorWrapperClientRuntime {
        commands: Vec::new(),
        responses: vec![
            "switcher four-view control response command=quit transition_result=ExitRequested current_view_state=AllView selected_slot_result=NotApplicable clean_output_render_result_kind=none command_parse_error=none exit_reason=QuitRequested".to_string(),
        ],
        send_error: None,
    };
    let mut raw_key_runtime = FakeOperatorWrapperRawKeyRuntime::from_keys(&["q", "q"]);

    let summary = run_four_view_operator_wrapper_with_runtime_and_clock_and_raw_key_runtime(
        "streamsync-control-dev",
        FourViewOperatorWrapperInputSource::RawKeys,
        &mut runtime,
        &clock,
        &mut raw_key_runtime,
        &mut NoStdin,
    )
    .expect("raw key guarded quit should succeed");

    assert_eq!(runtime.commands, vec!["quit".to_string()]);
    assert_eq!(summary.key_summaries[0].send_result, "GuardArmed");
    assert_eq!(summary.key_summaries[1].send_result, "Sent");
    assert_eq!(summary.exit_reason, "QuitRequested");
    assert_eq!(summary.raw_console_restore_result, "restored");
}

#[test]
fn switcher_four_view_operator_wrapper_raw_keys_unknown_key_is_ignored() {
    let clock = FakeOperatorWrapperClock::new(0);
    let mut runtime = FakeOperatorWrapperClientRuntime::default();
    let mut raw_key_runtime = FakeOperatorWrapperRawKeyRuntime::from_keys(&["x"]);

    let summary = run_four_view_operator_wrapper_with_runtime_and_clock_and_raw_key_runtime(
        "streamsync-control-dev",
        FourViewOperatorWrapperInputSource::RawKeys,
        &mut runtime,
        &clock,
        &mut raw_key_runtime,
        &mut NoStdin,
    )
    .expect("raw key unknown-key run should succeed");

    assert!(runtime.commands.is_empty());
    assert_eq!(summary.ignored_keys, 1);
    assert_eq!(summary.key_summaries[0].send_result, "Ignored");
    assert_eq!(summary.key_summaries[0].wrapper_error, "unknown_key");
    assert_eq!(summary.raw_console_restore_result, "restored");
}

#[test]
fn switcher_four_view_operator_wrapper_raw_keys_setup_failure_is_explicit() {
    let clock = FakeOperatorWrapperClock::new(0);
    let mut runtime = FakeOperatorWrapperClientRuntime::default();
    let mut raw_key_runtime =
        FakeOperatorWrapperRawKeyRuntime::failing("fixture_raw_keys_unavailable");

    let error = run_four_view_operator_wrapper_with_runtime_and_clock_and_raw_key_runtime(
        "streamsync-control-dev",
        FourViewOperatorWrapperInputSource::RawKeys,
        &mut runtime,
        &clock,
        &mut raw_key_runtime,
        &mut NoStdin,
    )
    .expect_err("raw key setup failure should be surfaced");

    assert_eq!(error, "raw key setup failed: fixture_raw_keys_unavailable");
}

#[test]
fn switcher_four_view_operator_wrapper_raw_keys_send_failure_still_restores_console_mode() {
    let clock = FakeOperatorWrapperClock::new(0);
    let mut runtime = FakeOperatorWrapperClientRuntime::failing("fixture_send_failed");
    let mut raw_key_runtime = FakeOperatorWrapperRawKeyRuntime::from_keys(&["s"]);

    let summary = run_four_view_operator_wrapper_with_runtime_and_clock_and_raw_key_runtime(
        "streamsync-control-dev",
        FourViewOperatorWrapperInputSource::RawKeys,
        &mut runtime,
        &clock,
        &mut raw_key_runtime,
        &mut NoStdin,
    )
    .expect("raw key send failure should still return wrapper summary");

    assert_eq!(summary.exit_reason, "WrapperSendFailed");
    assert_eq!(summary.raw_console_restore_result, "restored");
    assert_eq!(summary.raw_console_restore_error, "none");
}

#[test]
fn switcher_four_view_operator_wrapper_raw_keys_restore_failure_is_explicit() {
    let clock = FakeOperatorWrapperClock::new(0);
    let mut runtime = FakeOperatorWrapperClientRuntime::default();
    let mut raw_key_runtime = FakeOperatorWrapperRawKeyRuntime::from_keys_with_restore_error(
        &["x"],
        "fixture_restore_failed",
    );

    let error = run_four_view_operator_wrapper_with_runtime_and_clock_and_raw_key_runtime(
        "streamsync-control-dev",
        FourViewOperatorWrapperInputSource::RawKeys,
        &mut runtime,
        &clock,
        &mut raw_key_runtime,
        &mut NoStdin,
    )
    .expect_err("raw key restore failure should be surfaced");

    assert_eq!(
        error,
        "raw key console mode restore failed: fixture_restore_failed"
    );
}

#[test]
fn scripted_session_stops_at_quit_and_counts_keys() {
    let clock = FakeOperatorWrapperClock::new(100);
    let mut runtime = FakeOperatorWrapperClientRuntime {
        commands: Vec::new(),
        responses: vec![
            response("status", "none"),
            response("quit", "QuitRequested"),
        ],
        send_error: None,
    };
    let mut raw_key_runtime = FakeOperatorWrapperRawKeyRuntime::from_keys(&[]);

    let summary = run_four_view_operator_wrapper_with_runtime_and_clock_and_raw_key_runtime(
        "streamsync-control-dev",
        FourViewOperatorWrapperInputSource::ScriptedKeys("s;x;q;q;1".to_string()),
        &mut runtime,
        &clock,
        &mut raw_key_runtime,
        &mut NoStdin,
    )
    .expect("scripted run succeeds");

    assert_eq!(runtime.commands, vec!["status".to_string(), "quit".to_string()]);
    assert_eq!(summary.keys_processed, 4);
    assert_eq!(summary.commands_sent, 2);
    assert_eq!(summary.ignored_keys, 1);
    assert_eq!(summary.exit_reason, "QuitRequested");
    assert_eq!(summary.input_source, "scripted:s;x;q;q;1");
    assert_eq!(summary.final_guard_state, "quit_armed=false");
    assert_eq!(summary.raw_console_restore_result, "not_applicable");
    assert_eq!(
        format_four_view_operator_wrapper_loop_summary(&summary),
        "switcher four-view operator wrapper loop command_name=--four-view-operator-wrapper control_pipe_name=streamsync-control-dev input_source=scripted:s;x;q;q;1 keys_processed=4 commands_sent=2 ignored_keys=1 final_guard_state=quit_armed=false raw_console_restore_result=not_applicable raw_console_restore_error=none exit_reason=QuitRequested"
    );
}

#[test]
fn scripted_session_that_runs_out_completes() {
    let clock = FakeOperatorWrapperClock::new(0);
    let mut runtime = FakeOperatorWrapperClientRuntime::default();
    let mut raw_key_runtime = FakeOperatorWrapperRawKeyRuntime::from_keys(&[]);
    let summary = run_four_view_operator_wrapper_with_runtime_and_clock_and_raw_key_runtime(
        "pipe",
        FourViewOperatorWrapperInputSource::ScriptedKeys("q".to_string()),
        &mut runtime,
        &clock,
        &mut raw_key_runtime,
        &mut NoStdin,
    )
    .expect("scripted run succeeds");
    assert_eq!(summary.exit_reason, "ScriptedKeysCompleted");
    assert_eq!(summary.final_guard_state, "quit_armed=true");
}

#[test]
fn stdin_session_ends_when_input_closes() {
    let clock = FakeOperatorWrapperClock::new(0);
    let mut runtime = FakeOperatorWrapperClientRuntime {
        commands: Vec::new(),
        responses: vec![response("all", "none")],
        send_error: None,
    };
    let mut raw_key_runtime = FakeOperatorWrapperRawKeyRuntime::from_keys(&[]);
    let mut lines = StdinLines {
        lines: VecDeque::from(vec!["0".to_string(), "  ".to_string()]),
    };
    let summary = run_four_view_operator_wrapper_with_runtime_and_clock_and_raw_key_runtime(
        "pipe",
        FourViewOperatorWrapperInputSource::Stdin,
        &mut runtime,
        &clock,
        &mut raw_key_runtime,
        &mut lines,
    )
    .expect("stdin run succeeds");
    assert_eq!(summary.input_source, "stdin");
    assert_eq!(summary.exit_reason, "InputClosed");
    assert_eq!(summary.key_summaries[1].wrapper_key, "empty");
    assert_eq!(summary.key_summaries[1].send_result, "Ignored");
}

#[test]
fn session_refuses_blank_pipe_name() {
    let clock = FakeOperatorWrapperClock::new(0);
    let mut runtime = FakeOperatorWrapperClientRuntime::default();
    let mut raw_key_runtime = FakeOperatorWrapperRawKeyRuntime::from_keys(&["s"]);
    let error = run_four_view_operator_wrapper_with_runtime_and_clock_and_raw_key_runtime(
        " ",
        FourViewOperatorWrapperInputSource::RawKeys,
        &mut runtime,
        &clock,
        &mut raw_key_runtime,
        &mut NoStdin,
    )
    .expect_err("blank pipe is refused");
    assert_eq!(error, "control pipe name must not be empty");
}

#[test]
fn key_summary_line_lists_every_field() {
    let clock = FakeOperatorWrapperClock::new(0);
    let mut runtime = FakeOperatorWrapperClientRuntime::failing("pipe busy, retry");
    let mut guard_state = unarmed();
    let summary = process_four_view_operator_wrapper_key(
        3,
        " 2 ",
        &mut guard_state,
        "pipe",
        &mut runtime,
        &clock,
    );
    assert_eq!(runtime.commands, vec!["focus 1".to_string()]);
    assert_eq!(
        format_four_view_operator_wrapper_key_summary(&summary),
        "switcher four-view operator wrapper key command_name=--four-view-operator-wrapper key_index=3 wrapper_key=2 mapped_command=focus_1 guard_state=quit_armed=false send_result=SendFailed response_line=none command_parse_error=none wrapper_error=pipe_busy__retry exit_reason=WrapperSendFailed"
    );
}

#[test]
fn summary_fields_and_keys_are_read_as_the_wrapper_reads_them() {
    assert_eq!(
        extract_summary_field("a=1 exit_reason=QuitRequested b=2", "exit_reason"),
        Some("QuitRequested".to_string())
    );
    assert_eq!(extract_summary_field("a=1 b=2", "exit_reason"), None);
    assert_eq!(
        normalize_four_view_operator_wrapper_exit_reason(Some("none")),
        "Continue"
    );
    assert_eq!(normalize_four_view_operator_wrapper_exit_reason(None), "Continue");
    assert_eq!(
        normalize_four_view_operator_wrapper_exit_reason(Some("QuitRequested")),
        "QuitRequested"
    );
    assert_eq!(parse_four_view_operator_wrapper_key("  s \n"), Some('s'));
    assert_eq!(parse_four_view_operator_wrapper_key("ss"), None);
    assert_eq!(parse_four_view_operator_wrapper_key(""), None);
    assert_eq!(
        format_four_view_operator_wrapper_guard_state(&unarmed()),
        "quit_armed=false"
    );
}

#[test]
fn restore_tracker_reports_its_state() {
    let mut tracker = FourViewOperatorWrapperRawConsoleRestoreTracker::default();
    assert_eq!(
        tracker.summary_fields(),
        ("pending".to_string(), "none".to_string())
    );
    tracker.mark_failed("mode lost, twice".to_string());
    assert_eq!(
        tracker.summary_fields(),
        ("restore_failed".to_string(), "mode_lost__twice".to_string())
    );
    tracker.mark_restored();
    assert_eq!(
        tracker.summary_fields(),
        ("restored".to_string(), "none".to_string())
    );
}

struct TimeoutRecordingClientRuntime {
    sent: Vec<(String, String, u32)>,
}

impl FourViewControlPipeClientRuntime for TimeoutRecordingClientRuntime {
    fn send_command(
        &mut self,
        pipe_name: &str,
        command: &str,
        connect_timeout_millis: u32,
    ) -> Result<String, String> {
        self.sent
            .push((pipe_name.to_string(), command.to_string(), connect_timeout_millis));
        Err("fixture_unreachable".to_string())
    }
}

#[test]
fn send_control_command_hands_pipe_command_and_default_timeout_once() {
    let mut runtime = TimeoutRecordingClientRuntime { sent: Vec::new() };
    assert_eq!(
        run_send_control_command_with_runtime("pipe-a", "focus 1", &mut runtime),
        Err("fixture_unreachable".to_string())
    );
    assert_eq!(
        runtime.sent,
        vec![("pipe-a".to_string(), "focus 1".to_string(), 5000)]
    );
}

struct FailingLines {
    lines: VecDeque<String>,
    error: String,
}

impl FourViewOperatorWrapperRawKeyReader for FailingLines {
    fn read_next_key(&mut self) -> Result<Option<String>, String> {
        match self.lines.pop_front() {
            Some(line) => Ok(Some(line)),
            None => Err(self.error.clone()),
        }
    }
}

struct FailingRawKeyRuntime {
    lines: Vec<String>,
    restore_error: Option<String>,
}

impl FourViewOperatorWrapperRawKeyRuntime for FailingRawKeyRuntime {
    type Reader = FailingLines;

    fn open(&mut self) -> Result<Self::Reader, String> {
        Ok(FailingLines {
            lines: self.lines.drain(..).collect(),
            error: "fixture_read_failed".to_string(),
        })
    }

    fn close(&mut self, _reader: Self::Reader) -> FourViewOperatorWrapperRawConsoleRestoreTracker {
        let mut tracker = FourViewOperatorWrapperRawConsoleRestoreTracker::default();
        match self.restore_error.clone() {
            Some(error) => tracker.mark_failed(error),
            None => tracker.mark_restored(),
        }
        tracker
    }
}

#[test]
fn stdin_session_fails_on_read_error_after_sending_earlier_keys() {
    let clock = FakeOperatorWrapperClock::new(0);
    let mut runtime = FakeOperatorWrapperClientRuntime {
        commands: Vec::new(),
        responses: vec![response("status", "none")],
        send_error: None,
    };
    let mut raw_key_runtime = FakeOperatorWrapperRawKeyRuntime::from_keys(&[]);
    let mut stdin = FailingLines {
        lines: VecDeque::from(vec!["s".to_string()]),
        error: "fixture_stdin_broken".to_string(),
    };

    let error = run_four_view_operator_wrapper_with_runtime_and_clock_and_raw_key_runtime(
        "streamsync-control-dev",
        FourViewOperatorWrapperInputSource::Stdin,
        &mut runtime,
        &clock,
        &mut raw_key_runtime,
        &mut stdin,
    )
    .expect_err("a failed stdin read should end the session");

    assert_eq!(error, "stdin read failed: fixture_stdin_broken");
    assert_eq!(runtime.commands, vec!["status".to_string()]);
}

#[test]
fn raw_key_read_error_is_reported_alone_or_with_restore_failure() {
    let clock = FakeOperatorWrapperClock::new(0);
    let mut runtime = FakeOperatorWrapperClientRuntime::default();
    let mut restored = FailingRawKeyRuntime {
        lines: Vec::new(),
        restore_error: None,
    };
    let error = run_four_view_operator_wrapper_with_runtime_and_clock_and_raw_key_runtime(
        "streamsync-control-dev",
        FourViewOperatorWrapperInputSource::RawKeys,
        &mut runtime,
        &clock,
        &mut restored,
        &mut NoStdin,
    )
    .expect_err("a failed raw key read should end the session");
    assert_eq!(error, "raw key read failed: fixture_read_failed");

    let mut not_restored = FailingRawKeyRuntime {
        lines: Vec::new(),
        restore_error: Some("fixture restore|failed".to_string()),
    };
    let error = run_four_view_operator_wrapper_with_runtime_and_clock_and_raw_key_runtime(
        "streamsync-control-dev",
        FourViewOperatorWrapperInputSource::RawKeys,
        &mut runtime,
        &clock,
        &mut not_restored,
        &mut NoStdin,
    )
    .expect_err("a failed restore should end the session");
    assert_eq!(
        error,
        "raw key read failed: fixture_read_failed; raw key console mode restore failed: fixture_restore_failed"
    );
    assert!(runtime.commands.is_empty());
}

#[test]
fn blank_pipe_session_reads_and_sends_nothing() {
    let clock = FakeOperatorWrapperClock::new(0);
    let mut runtime = FakeOperatorWrapperClientRuntime::default();
    let mut raw_key_runtime = FakeOperatorWrapperRawKeyRuntime::from_keys(&["s"]);
    let mut stdin = StdinLines {
        lines: VecDeque::from(vec!["s".to_string()]),
    };
    let error = run_four_view_operator_wrapper_with_runtime_and_clock_and_raw_key_runtime(
        " ",
        FourViewOperatorWrapperInputSource::Stdin,
        &mut runtime,
        &clock,
        &mut raw_key_runtime,
        &mut stdin,
    )
    .expect_err("a blank pipe name is refused");
    assert_eq!(error, "control pipe name must not be empty");
    assert_eq!(stdin.lines.len(), 1);
    assert!(runtime.commands.is_empty());
}
