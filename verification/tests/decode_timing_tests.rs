use stream_sync_switcher_core::decode_timing::{
    add_decode_runtime_diagnostics, DecodeRuntimeDiagnostics, TwoRealPreviewLoopDecodeTiming,
};

fn report(spawn_ms: u128, bytes: usize, last_error: Option<&str>) -> DecodeRuntimeDiagnostics {
    DecodeRuntimeDiagnostics {
        process_spawn_elapsed_ms: spawn_ms,
        input_write_elapsed_ms: 1,
        input_payload_bytes: bytes,
        output_read_elapsed_ms: 2,
        output_read_exact_elapsed_ms: 3,
        output_vec_resize_elapsed_ms: 0,
        process_wait_elapsed_ms: 4,
        pixel_convert_elapsed_ms: 5,
        buffer_allocation_count: 1,
        output_bytes: 8,
        output_expected_bytes: 8,
        output_buffer_reuse_count: 0,
        persistent_decode_enabled: last_error.is_some(),
        persistent_decode_attempt_count: 1,
        persistent_decode_success_count: 0,
        persistent_decode_failure_count: 1,
        persistent_decode_fallback_count: 1,
        persistent_decode_process_spawn_count: 1,
        persistent_decode_process_restart_count: 0,
        persistent_decode_stdin_write_elapsed_ms: 1,
        persistent_decode_stdout_read_elapsed_ms: 1,
        persistent_decode_stdout_read_exact_elapsed_ms: 1,
        persistent_decode_output_bytes: usize::MAX,
        persistent_decode_last_error: last_error.map(str::to_string),
        one_shot_decode_fallback_count: 1,
    }
}

#[test]
fn decode_reports_add_up_and_keep_the_last_error() {
    let mut timing = TwoRealPreviewLoopDecodeTiming::new();
    add_decode_runtime_diagnostics(&mut timing, report(10, 100, Some("pipe closed")));
    add_decode_runtime_diagnostics(&mut timing, report(5, 50, None));
    assert_eq!(timing.decode_process_spawn_elapsed_ms, 15);
    assert_eq!(timing.decode_input_payload_bytes_total, 150);
    assert_eq!(timing.persistent_decode_output_bytes_total, usize::MAX);
    assert!(timing.persistent_decode_enabled);
    assert_eq!(timing.persistent_decode_last_error.as_deref(), Some("pipe closed"));
    assert_eq!(timing.persistent_decode_last_error_text(), "pipe closed");
    assert_eq!(timing.one_shot_decode_fallback_count, 2);
}

#[test]
fn decode_cache_hits_and_misses_are_counted() {
    let mut timing = TwoRealPreviewLoopDecodeTiming::new();
    assert_eq!(timing.persistent_decode_last_error_text(), "none");
    timing.record_decode_cache_miss(20, report(1, 10, None), true, 2);
    timing.record_decode_cache_miss(30, report(1, 10, None), false, 7);
    timing.record_decode_cache_hit(3);
    assert_eq!(timing.decode_cache_miss_count, 2);
    assert_eq!(timing.decode_attempt_count, 2);
    assert_eq!(timing.decode_success_count, 1);
    assert_eq!(timing.decode_elapsed_ms, 50);
    assert_eq!(timing.decode_cache_store_clone_count, 1);
    assert_eq!(timing.decode_cached_frame_reuse_count, 1);
    assert_eq!(timing.decode_cache_hit_clone_count, 1);
    assert_eq!(timing.decoded_buffer_clone_count, 2);
    assert_eq!(timing.decoded_buffer_clone_elapsed_ms, 5);
}
