//! The decode side of a preview loop's running totals: what each decode
//! reported, and how the loop's cache of decoded frames was used.
use vstd::prelude::*;
use crate::args::opt_view;

verus! {

/// What one run of the H.264 decoder reported of its work.
#[derive(Debug, Clone, PartialEq, Eq)]
pub struct DecodeRuntimeDiagnostics {
    pub process_spawn_elapsed_ms: u128,
    pub input_write_elapsed_ms: u128,
    pub input_payload_bytes: usize,
    pub output_read_elapsed_ms: u128,
    pub output_read_exact_elapsed_ms: u128,
    pub output_vec_resize_elapsed_ms: u128,
    pub process_wait_elapsed_ms: u128,
    pub pixel_convert_elapsed_ms: u128,
    pub buffer_allocation_count: u32,
    pub output_bytes: usize,
    pub output_expected_bytes: usize,
    pub output_buffer_reuse_count: u32,
    pub persistent_decode_enabled: bool,
    pub persistent_decode_attempt_count: u32,
    pub persistent_decode_success_count: u32,
    pub persistent_decode_failure_count: u32,
    pub persistent_decode_fallback_count: u32,
    pub persistent_decode_process_spawn_count: u32,
    pub persistent_decode_process_restart_count: u32,
    pub persistent_decode_stdin_write_elapsed_ms: u128,
    pub persistent_decode_stdout_read_elapsed_ms: u128,
    pub persistent_decode_stdout_read_exact_elapsed_ms: u128,
    pub persistent_decode_output_bytes: usize,
    pub persistent_decode_last_error: Option<String>,
    pub one_shot_decode_fallback_count: u32,
}

/// The decode totals of a preview loop.
#[derive(Debug, Clone, PartialEq, Eq)]
pub struct TwoRealPreviewLoopDecodeTiming {
    pub decode_elapsed_ms: u128,
    pub decode_attempt_count: u32,
    pub decode_success_count: u32,
    pub decode_process_spawn_elapsed_ms: u128,
    pub decode_input_write_elapsed_ms: u128,
    pub decode_input_payload_bytes_total: usize,
    pub decode_output_read_elapsed_ms: u128,
    pub decode_output_read_exact_elapsed_ms: u128,
    pub decode_output_vec_resize_elapsed_ms: u128,
    pub decode_process_wait_elapsed_ms: u128,
    pub decode_pixel_convert_elapsed_ms: u128,
    pub decode_buffer_allocation_count: u32,
    pub decode_output_bytes_total: usize,
    pub decode_stdout_expected_bytes_total: usize,
    pub decode_cached_frame_reuse_count: u32,
    pub decode_cache_miss_count: u32,
    pub decoded_buffer_clone_count: u32,
    pub decode_cache_hit_clone_count: u32,
    pub decode_cache_store_clone_count: u32,
    pub decoded_buffer_clone_elapsed_ms: u128,
    pub decode_output_buffer_reuse_count: u32,
    pub persistent_decode_enabled: bool,
    pub persistent_decode_attempt_count: u32,
    pub persistent_decode_success_count: u32,
    pub persistent_decode_failure_count: u32,
    pub persistent_decode_fallback_count: u32,
    pub persistent_decode_process_spawn_count: u32,
    pub persistent_decode_process_restart_count: u32,
    pub persistent_decode_stdin_write_elapsed_ms: u128,
    pub persistent_decode_stdout_read_elapsed_ms: u128,
    pub persistent_decode_stdout_read_exact_elapsed_ms: u128,
    pub persistent_decode_output_bytes_total: usize,
    pub persistent_decode_last_error: Option<String>,
    pub one_shot_decode_fallback_count: u32,
}

/// The elapsed times of a decode run fit on top of the totals.
pub open spec fn elapsed_times_fit(t: TwoRealPreviewLoopDecodeTiming, d: DecodeRuntimeDiagnostics) -> bool {
    &&& t.decode_process_spawn_elapsed_ms + d.process_spawn_elapsed_ms <= u128::MAX
    &&& t.decode_input_write_elapsed_ms + d.input_write_elapsed_ms <= u128::MAX
    &&& t.decode_output_read_elapsed_ms + d.output_read_elapsed_ms <= u128::MAX
    &&& t.decode_output_read_exact_elapsed_ms + d.output_read_exact_elapsed_ms <= u128::MAX
    &&& t.decode_output_vec_resize_elapsed_ms + d.output_vec_resize_elapsed_ms <= u128::MAX
    &&& t.decode_process_wait_elapsed_ms + d.process_wait_elapsed_ms <= u128::MAX
    &&& t.decode_pixel_convert_elapsed_ms + d.pixel_convert_elapsed_ms <= u128::MAX
}

/// The totals after adding a decode run's report: the elapsed times summed,
/// the byte and run counts summed and held at their maximum, the persistent
/// decoder counted as enabled once any run had it, and its last error kept
/// unless a run reports a newer one.
pub open spec fn with_decode_diagnostics(
    t: TwoRealPreviewLoopDecodeTiming,
    d: DecodeRuntimeDiagnostics,
) -> TwoRealPreviewLoopDecodeTiming {
    TwoRealPreviewLoopDecodeTiming {
        decode_process_spawn_elapsed_ms: (t.decode_process_spawn_elapsed_ms
            + d.process_spawn_elapsed_ms) as u128,
        decode_input_write_elapsed_ms: (t.decode_input_write_elapsed_ms
            + d.input_write_elapsed_ms) as u128,
        decode_input_payload_bytes_total: t.decode_input_payload_bytes_total.saturating_add(
            d.input_payload_bytes,
        ),
        decode_output_read_elapsed_ms: (t.decode_output_read_elapsed_ms
            + d.output_read_elapsed_ms) as u128,
        decode_output_read_exact_elapsed_ms: (t.decode_output_read_exact_elapsed_ms
            + d.output_read_exact_elapsed_ms) as u128,
        decode_output_vec_resize_elapsed_ms: (t.decode_output_vec_resize_elapsed_ms
            + d.output_vec_resize_elapsed_ms) as u128,
        decode_process_wait_elapsed_ms: (t.decode_process_wait_elapsed_ms
            + d.process_wait_elapsed_ms) as u128,
        decode_pixel_convert_elapsed_ms: (t.decode_pixel_convert_elapsed_ms
            + d.pixel_convert_elapsed_ms) as u128,
        decode_buffer_allocation_count: t.decode_buffer_allocation_count.saturating_add(
            d.buffer_allocation_count,
        ),
        decode_output_bytes_total: t.decode_output_bytes_total.saturating_add(d.output_bytes),
        decode_stdout_expected_bytes_total: t.decode_stdout_expected_bytes_total.saturating_add(
            d.output_expected_bytes,
        ),
        decode_output_buffer_reuse_count: t.decode_output_buffer_reuse_count.saturating_add(
            d.output_buffer_reuse_count,
        ),
        persistent_decode_enabled: t.persistent_decode_enabled || d.persistent_decode_enabled,
        persistent_decode_attempt_count: t.persistent_decode_attempt_count.saturating_add(
            d.persistent_decode_attempt_count,
        ),
        persistent_decode_success_count: t.persistent_decode_success_count.saturating_add(
            d.persistent_decode_success_count,
        ),
        persistent_decode_failure_count: t.persistent_decode_failure_count.saturating_add(
            d.persistent_decode_failure_count,
        ),
        persistent_decode_fallback_count: t.persistent_decode_fallback_count.saturating_add(
            d.persistent_decode_fallback_count,
        ),
        persistent_decode_process_spawn_count: t.persistent_decode_process_spawn_count.saturating_add(
            d.persistent_decode_process_spawn_count,
        ),
        persistent_decode_process_restart_count:
            t.persistent_decode_process_restart_count.saturating_add(
            d.persistent_decode_process_restart_count,
        ),
        persistent_decode_stdin_write_elapsed_ms:
            t.persistent_decode_stdin_write_elapsed_ms.saturating_add(
            d.persistent_decode_stdin_write_elapsed_ms,
        ),
        persistent_decode_stdout_read_elapsed_ms:
            t.persistent_decode_stdout_read_elapsed_ms.saturating_add(
            d.persistent_decode_stdout_read_elapsed_ms,
        ),
        persistent_decode_stdout_read_exact_elapsed_ms:
            t.persistent_decode_stdout_read_exact_elapsed_ms.saturating_add(
            d.persistent_decode_stdout_read_exact_elapsed_ms,
        ),
        persistent_decode_output_bytes_total: t.persistent_decode_output_bytes_total.saturating_add(
            d.persistent_decode_output_bytes,
        ),
        persistent_decode_last_error: match d.persistent_decode_last_error {
            Some(e) => Some(e),
            None => t.persistent_decode_last_error,
        },
        one_shot_decode_fallback_count: t.one_shot_decode_fallback_count.saturating_add(
            d.one_shot_decode_fallback_count,
        ),
        ..t
    }
}

impl TwoRealPreviewLoopDecodeTiming {
    /// Totals before any decode.
    pub fn new() -> (r: Self)
        ensures
            r.decode_attempt_count == 0,
            r.decode_success_count == 0,
            r.decode_elapsed_ms == 0,
            !r.persistent_decode_enabled,
            r.persistent_decode_last_error is None,
    {
        TwoRealPreviewLoopDecodeTiming {
            decode_elapsed_ms: 0,
            decode_attempt_count: 0,
            decode_success_count: 0,
            decode_process_spawn_elapsed_ms: 0,
            decode_input_write_elapsed_ms: 0,
            decode_input_payload_bytes_total: 0,
            decode_output_read_elapsed_ms: 0,
            decode_output_read_exact_elapsed_ms: 0,
            decode_output_vec_resize_elapsed_ms: 0,
            decode_process_wait_elapsed_ms: 0,
            decode_pixel_convert_elapsed_ms: 0,
            decode_buffer_allocation_count: 0,
            decode_output_bytes_total: 0,
            decode_stdout_expected_bytes_total: 0,
            decode_cached_frame_reuse_count: 0,
            decode_cache_miss_count: 0,
            decoded_buffer_clone_count: 0,
            decode_cache_hit_clone_count: 0,
            decode_cache_store_clone_count: 0,
            decoded_buffer_clone_elapsed_ms: 0,
            decode_output_buffer_reuse_count: 0,
            persistent_decode_enabled: false,
            persistent_decode_attempt_count: 0,
            persistent_decode_success_count: 0,
            persistent_decode_failure_count: 0,
            persistent_decode_fallback_count: 0,
            persistent_decode_process_spawn_count: 0,
            persistent_decode_process_restart_count: 0,
            persistent_decode_stdin_write_elapsed_ms: 0,
            persistent_decode_stdout_read_elapsed_ms: 0,
            persistent_decode_stdout_read_exact_elapsed_ms: 0,
            persistent_decode_output_bytes_total: 0,
            persistent_decode_last_error: None,
            one_shot_decode_fallback_count: 0,
        }
    }
}

/// Adds what a decode run reported to the totals.
pub fn add_decode_runtime_diagnostics(
    timing: &mut TwoRealPreviewLoopDecodeTiming,
    diagnostics: DecodeRuntimeDiagnostics,
)
    requires
        elapsed_times_fit(*old(timing), diagnostics),
    ensures
        *final(timing) == with_decode_diagnostics(*old(timing), diagnostics),
{
    let d = diagnostics;
    timing.decode_process_spawn_elapsed_ms = timing.decode_process_spawn_elapsed_ms
        + d.process_spawn_elapsed_ms;
    timing.decode_input_write_elapsed_ms = timing.decode_input_write_elapsed_ms
        + d.input_write_elapsed_ms;
    timing.decode_input_payload_bytes_total = timing.decode_input_payload_bytes_total.saturating_add(
        d.input_payload_bytes,
    );
    timing.decode_output_read_elapsed_ms = timing.decode_output_read_elapsed_ms
        + d.output_read_elapsed_ms;
    timing.decode_output_read_exact_elapsed_ms = timing.decode_output_read_exact_elapsed_ms
        + d.output_read_exact_elapsed_ms;
    timing.decode_output_vec_resize_elapsed_ms = timing.decode_output_vec_resize_elapsed_ms
        + d.output_vec_resize_elapsed_ms;
    timing.decode_process_wait_elapsed_ms = timing.decode_process_wait_elapsed_ms
        + d.process_wait_elapsed_ms;
    timing.decode_pixel_convert_elapsed_ms = timing.decode_pixel_convert_elapsed_ms
        + d.pixel_convert_elapsed_ms;
    timing.decode_buffer_allocation_count = timing.decode_buffer_allocation_count.saturating_add(
        d.buffer_allocation_count,
    );
    timing.decode_output_bytes_total = timing.decode_output_bytes_total.saturating_add(
        d.output_bytes,
    );
    timing.decode_stdout_expected_bytes_total =
        timing.decode_stdout_expected_bytes_total.saturating_add(d.output_expected_bytes);
    timing.decode_output_buffer_reuse_count = timing.decode_output_buffer_reuse_count.saturating_add(
        d.output_buffer_reuse_count,
    );
    timing.persistent_decode_enabled = timing.persistent_decode_enabled
        || d.persistent_decode_enabled;
    timing.persistent_decode_attempt_count = timing.persistent_decode_attempt_count.saturating_add(
        d.persistent_decode_attempt_count,
    );
    timing.persistent_decode_success_count = timing.persistent_decode_success_count.saturating_add(
        d.persistent_decode_success_count,
    );
    timing.persistent_decode_failure_count = timing.persistent_decode_failure_count.saturating_add(
        d.persistent_decode_failure_count,
    );
    timing.persistent_decode_fallback_count =
        timing.persistent_decode_fallback_count.saturating_add(d.persistent_decode_fallback_count);
    timing.persistent_decode_process_spawn_count =
        timing.persistent_decode_process_spawn_count.saturating_add(
        d.persistent_decode_process_spawn_count,
    );
    timing.persistent_decode_process_restart_count =
        timing.persistent_decode_process_restart_count.saturating_add(
        d.persistent_decode_process_restart_count,
    );
    timing.persistent_decode_stdin_write_elapsed_ms =
        timing.persistent_decode_stdin_write_elapsed_ms.saturating_add(
        d.persistent_decode_stdin_write_elapsed_ms,
    );
    timing.persistent_decode_stdout_read_elapsed_ms =
        timing.persistent_decode_stdout_read_elapsed_ms.saturating_add(
        d.persistent_decode_stdout_read_elapsed_ms,
    );
    timing.persistent_decode_stdout_read_exact_elapsed_ms =
        timing.persistent_decode_stdout_read_exact_elapsed_ms.saturating_add(
        d.persistent_decode_stdout_read_exact_elapsed_ms,
    );
    timing.persistent_decode_output_bytes_total =
        timing.persistent_decode_output_bytes_total.saturating_add(
        d.persistent_decode_output_bytes,
    );
    if let Some(last_error) = d.persistent_decode_last_error {
        timing.persistent_decode_last_error = Some(last_error);
    }
    timing.one_shot_decode_fallback_count = timing.one_shot_decode_fallback_count.saturating_add(
        d.one_shot_decode_fallback_count,
    );
}

impl TwoRealPreviewLoopDecodeTiming {
    /// Counts a frame served from the cache of decoded frames: a reuse, a
    /// clone on a hit, and the time the clone took.
    pub fn record_decode_cache_hit(&mut self, clone_elapsed_ms: u128)
        requires
            old(self).decode_cached_frame_reuse_count < u32::MAX,
            old(self).decode_cache_hit_clone_count < u32::MAX,
            old(self).decoded_buffer_clone_count < u32::MAX,
            old(self).decoded_buffer_clone_elapsed_ms + clone_elapsed_ms <= u128::MAX,
        ensures
            *final(self) == (TwoRealPreviewLoopDecodeTiming {
                decode_cached_frame_reuse_count: (old(self).decode_cached_frame_reuse_count
                    + 1) as u32,
                decode_cache_hit_clone_count: (old(self).decode_cache_hit_clone_count + 1) as u32,
                decoded_buffer_clone_count: (old(self).decoded_buffer_clone_count + 1) as u32,
                decoded_buffer_clone_elapsed_ms: (old(self).decoded_buffer_clone_elapsed_ms
                    + clone_elapsed_ms) as u128,
                ..*old(self)
            }),
    {
        self.decode_cached_frame_reuse_count = self.decode_cached_frame_reuse_count + 1;
        self.decode_cache_hit_clone_count = self.decode_cache_hit_clone_count + 1;
        self.decoded_buffer_clone_count = self.decoded_buffer_clone_count + 1;
        self.decoded_buffer_clone_elapsed_ms = self.decoded_buffer_clone_elapsed_ms
            + clone_elapsed_ms;
    }

    /// Counts a decode run on a cache miss: the miss, the run's time and
    /// report, the attempt, and, when it decoded a frame, the success and
    /// the clone stored in the cache with the time it took.
    pub fn record_decode_cache_miss(
        &mut self,
        decode_elapsed_ms: u128,
        diagnostics: DecodeRuntimeDiagnostics,
        decoded: bool,
        clone_elapsed_ms: u128,
    )
        requires
            old(self).decode_cache_miss_count < u32::MAX,
            old(self).decode_elapsed_ms + decode_elapsed_ms <= u128::MAX,
            elapsed_times_fit(*old(self), diagnostics),
            old(self).decode_attempt_count < u32::MAX,
            decoded ==> old(self).decode_success_count < u32::MAX,
            decoded ==> old(self).decode_cache_store_clone_count < u32::MAX,
            decoded ==> old(self).decoded_buffer_clone_count < u32::MAX,
            decoded ==> old(self).decoded_buffer_clone_elapsed_ms + clone_elapsed_ms <= u128::MAX,
        ensures
            ({
                let added = with_decode_diagnostics(*old(self), diagnostics);
                *final(self) == (TwoRealPreviewLoopDecodeTiming {
                    decode_cache_miss_count: (old(self).decode_cache_miss_count + 1) as u32,
                    decode_elapsed_ms: (old(self).decode_elapsed_ms + decode_elapsed_ms) as u128,
                    decode_attempt_count: (old(self).decode_attempt_count + 1) as u32,
                    decode_success_count: (old(self).decode_success_count + if decoded {
                        1int
                    } else {
                        0int
                    }) as u32,
                    decode_cache_store_clone_count: (old(self).decode_cache_store_clone_count
                        + if decoded {
                        1int
                    } else {
                        0int
                    }) as u32,
                    decoded_buffer_clone_count: (old(self).decoded_buffer_clone_count + if decoded {
                        1int
                    } else {
                        0int
                    }) as u32,
                    decoded_buffer_clone_elapsed_ms: (old(self).decoded_buffer_clone_elapsed_ms
                        + if decoded {
                        clone_elapsed_ms as int
                    } else {
                        0int
                    }) as u128,
                    ..added
                })
            }),
    {
        self.decode_cache_miss_count = self.decode_cache_miss_count + 1;
        self.decode_elapsed_ms = self.decode_elapsed_ms + decode_elapsed_ms;
        add_decode_runtime_diagnostics(self, diagnostics);
        self.decode_attempt_count = self.decode_attempt_count + 1;
        if decoded {
            self.decode_success_count = self.decode_success_count + 1;
            self.decoded_buffer_clone_elapsed_ms = self.decoded_buffer_clone_elapsed_ms
                + clone_elapsed_ms;
            self.decode_cache_store_clone_count = self.decode_cache_store_clone_count + 1;
            self.decoded_buffer_clone_count = self.decoded_buffer_clone_count + 1;
        }
    }

    /// The last error of the persistent decoder, or `none`.
    pub fn persistent_decode_last_error_text(&self) -> (r: String)
        ensures
            r@ == match opt_view(self.persistent_decode_last_error) {
                Some(e) => e,
                None => "none"@,
            },
    {
        match &self.persistent_decode_last_error {
            Some(e) => crate::identity::clone_text(e),
            None => crate::text::owned("none"),
        }
    }
}

} // verus!
