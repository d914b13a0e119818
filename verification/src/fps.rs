//! The frame cadence of the preview loops and the counts their frame-rate
//! report is built from.

use vstd::prelude::*;

verus! {

/// One thirtieth of a second, the cadence of the clean-output window loop,
/// in nanoseconds.
pub const FOUR_VIEW_CLEAN_OUTPUT_WINDOW_LOOP_FRAME_CADENCE_NANOS: u64 = 33_333_333;

/// The frame cadence of the clean-output window loop, thirty frames a
/// second, in whole nanoseconds.
pub fn four_view_clean_output_window_loop_frame_cadence() -> (r: u64)
    ensures
        r == 33_333_333,
{
    FOUR_VIEW_CLEAN_OUTPUT_WINDOW_LOOP_FRAME_CADENCE_NANOS
}

/// The counts a preview loop's frame-rate report is built from.
#[derive(Debug, Clone, Copy, PartialEq, Eq, Structural)]
pub struct TwoRealPreviewLoopFpsDiagnostics {
    pub elapsed_ms: u128,
    pub target_fps: u32,
    pub configured_frame_interval_ms: u128,
    pub frames_attempted: u32,
    pub frames_rendered: u32,
    pub first_render_attempt_index: Option<u32>,
    pub first_render_elapsed_ms: Option<u128>,
    pub rendered_after_first_render: u32,
    pub elapsed_after_first_render_ms: u128,
    pub no_render_before_first_render: u32,
}

/// The frame-rate counts of a loop that ran `elapsed_ms` at a cadence of
/// `cadence_nanos`: the target rate is the whole number of cadences in a
/// second (none for a zero cadence); the frames before the first render
/// are the attempts before it, or all of them when nothing rendered; and
/// the renders and time after the first render count from it.
pub open spec fn fps_diagnostics(
    elapsed_ms: u128,
    cadence_nanos: u128,
    frames_attempted: u32,
    frames_rendered: u32,
    first_render_attempt_index: Option<u32>,
    first_render_elapsed_ms: Option<u128>,
) -> TwoRealPreviewLoopFpsDiagnostics {
    TwoRealPreviewLoopFpsDiagnostics {
        elapsed_ms,
        target_fps: if cadence_nanos == 0 {
            0
        } else {
            (1_000_000_000u128 / cadence_nanos) as u32
        },
        configured_frame_interval_ms: (cadence_nanos / 1_000_000) as u128,
        frames_attempted,
        frames_rendered,
        first_render_attempt_index,
        first_render_elapsed_ms,
        rendered_after_first_render: if first_render_attempt_index is Some {
            frames_rendered
        } else {
            0
        },
        elapsed_after_first_render_ms: match first_render_elapsed_ms {
            Some(first) => if elapsed_ms >= first {
                (elapsed_ms - first) as u128
            } else {
                0
            },
            None => 0,
        },
        no_render_before_first_render: match first_render_attempt_index {
            Some(index) => if index >= 1 {
                (index - 1) as u32
            } else {
                0
            },
            None => frames_attempted,
        },
    }
}

/// Builds the frame-rate counts of a preview loop.
pub fn build_two_real_preview_loop_fps_diagnostics(
    elapsed_ms: u128,
    cadence_nanos: u128,
    frames_attempted: u32,
    frames_rendered: u32,
    first_render_attempt_index: Option<u32>,
    first_render_elapsed_ms: Option<u128>,
) -> (r: TwoRealPreviewLoopFpsDiagnostics)
    ensures
        r == fps_diagnostics(
            elapsed_ms,
            cadence_nanos,
            frames_attempted,
            frames_rendered,
            first_render_attempt_index,
            first_render_elapsed_ms,
        ),
{
    let target_fps: u32 = if cadence_nanos == 0 {
        0
    } else {
        (1_000_000_000u128 / cadence_nanos) as u32
    };
    let no_render_before_first_render = match first_render_attempt_index {
        Some(attempt_index) => attempt_index.saturating_sub(1),
        None => frames_attempted,
    };
    let rendered_after_first_render = if first_render_attempt_index.is_some() {
        frames_rendered
    } else {
        0
    };
    let elapsed_after_first_render_ms = match first_render_elapsed_ms {
        Some(first_elapsed) => elapsed_ms.saturating_sub(first_elapsed),
        None => 0,
    };
    TwoRealPreviewLoopFpsDiagnostics {
        elapsed_ms,
        target_fps,
        configured_frame_interval_ms: cadence_nanos / 1_000_000,
        frames_attempted,
        frames_rendered,
        first_render_attempt_index,
        first_render_elapsed_ms,
        rendered_after_first_render,
        elapsed_after_first_render_ms,
        no_render_before_first_render,
    }
}

} // verus!
