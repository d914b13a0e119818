//! The bookkeeping of the render runtime that scales every frame of the
//! clean-output loop to the 1280 by 720 profile: what the last rendered
//! frame looked like, and the running totals of its buffer work.

use vstd::prelude::*;
use crate::pixels::BgraRenderBufferDiagnostics;

verus! {

/// What the last rendered frame looked like.
#[derive(Debug, Clone, Copy, PartialEq, Eq, Structural)]
pub struct ObsFriendlyFourViewLoopRenderMetadataSnapshot {
    pub source_width: Option<u32>,
    pub source_height: Option<u32>,
    pub output_width: Option<u32>,
    pub output_height: Option<u32>,
    pub bgra_payload_len: Option<usize>,
    pub window_visible: Option<bool>,
    pub window_capture_candidate: Option<bool>,
}

/// A snapshot of a runtime that has rendered nothing yet.
pub open spec fn empty_metadata() -> ObsFriendlyFourViewLoopRenderMetadataSnapshot {
    ObsFriendlyFourViewLoopRenderMetadataSnapshot {
        source_width: None,
        source_height: None,
        output_width: None,
        output_height: None,
        bgra_payload_len: None,
        window_visible: None,
        window_capture_candidate: None,
    }
}

/// The running totals of the render buffer work of a preview loop.
#[derive(Debug, Clone, Copy, PartialEq, Eq, Structural)]
pub struct TwoRealPreviewLoopRenderBufferTiming {
    pub render_buffer_copy_elapsed_ms: u128,
    pub render_buffer_scale_prepare_elapsed_ms: u128,
    pub render_buffer_scale_loop_elapsed_ms: u128,
    pub render_buffer_output_copy_elapsed_ms: u128,
    pub render_buffer_resize_elapsed_ms: u128,
    pub render_buffer_clear_elapsed_ms: u128,
    pub render_buffer_passthrough_count: u32,
    pub render_buffer_same_size_copy_count: u32,
    pub render_buffer_half_scale_count: u32,
    pub render_buffer_generic_scale_count: u32,
    pub render_buffer_reuse_count: u32,
    pub render_buffer_allocation_count: u32,
    pub render_buffer_bytes_copied_total: usize,
    pub window_update_elapsed_ms: u128,
    pub render_backend_wait_elapsed_ms: u128,
}

/// `a + b`, held at `u32::MAX`.
pub open spec fn sat_u32(a: u32, b: u32) -> u32 {
    if a + b > u32::MAX {
        u32::MAX
    } else {
        (a + b) as u32
    }
}

/// `a + b`, held at `usize::MAX`.
pub open spec fn sat_usize(a: usize, b: usize) -> usize {
    if a + b > usize::MAX {
        usize::MAX
    } else {
        (a + b) as usize
    }
}

/// Whether adding one frame's buffer work to `t` keeps every time total
/// within a `u128`.
pub open spec fn timing_has_room(
    t: TwoRealPreviewLoopRenderBufferTiming,
    copy_elapsed_ms: u128,
    d: BgraRenderBufferDiagnostics,
) -> bool {
    &&& t.render_buffer_copy_elapsed_ms + copy_elapsed_ms <= u128::MAX
    &&& t.render_buffer_scale_prepare_elapsed_ms + d.scale_prepare_elapsed_ms <= u128::MAX
    &&& t.render_buffer_scale_loop_elapsed_ms + d.scale_loop_elapsed_ms <= u128::MAX
    &&& t.render_buffer_output_copy_elapsed_ms + d.output_copy_elapsed_ms <= u128::MAX
    &&& t.render_buffer_resize_elapsed_ms + d.resize_elapsed_ms <= u128::MAX
    &&& t.render_buffer_clear_elapsed_ms + d.clear_elapsed_ms <= u128::MAX
}

/// The totals after one frame's buffer work: times add up, counts add up
/// held at their maximum.
pub open spec fn timing_after(
    t: TwoRealPreviewLoopRenderBufferTiming,
    copy_elapsed_ms: u128,
    d: BgraRenderBufferDiagnostics,
) -> TwoRealPreviewLoopRenderBufferTiming {
    TwoRealPreviewLoopRenderBufferTiming {
        render_buffer_copy_elapsed_ms: (t.render_buffer_copy_elapsed_ms + copy_elapsed_ms) as u128,
        render_buffer_scale_prepare_elapsed_ms: (t.render_buffer_scale_prepare_elapsed_ms
            + d.scale_prepare_elapsed_ms) as u128,
        render_buffer_scale_loop_elapsed_ms: (t.render_buffer_scale_loop_elapsed_ms
            + d.scale_loop_elapsed_ms) as u128,
        render_buffer_output_copy_elapsed_ms: (t.render_buffer_output_copy_elapsed_ms
            + d.output_copy_elapsed_ms) as u128,
        render_buffer_resize_elapsed_ms: (t.render_buffer_resize_elapsed_ms + d.resize_elapsed_ms) as u128,
        render_buffer_clear_elapsed_ms: (t.render_buffer_clear_elapsed_ms + d.clear_elapsed_ms) as u128,
        render_buffer_passthrough_count: sat_u32(t.render_buffer_passthrough_count, d.passthrough_count),
        render_buffer_same_size_copy_count: sat_u32(
            t.render_buffer_same_size_copy_count,
            d.same_size_copy_count,
        ),
        render_buffer_half_scale_count: sat_u32(t.render_buffer_half_scale_count, d.half_scale_count),
        render_buffer_generic_scale_count: sat_u32(
            t.render_buffer_generic_scale_count,
            d.generic_scale_count,
        ),
        render_buffer_reuse_count: sat_u32(t.render_buffer_reuse_count, d.reuse_count),
        render_buffer_allocation_count: sat_u32(t.render_buffer_allocation_count, d.allocation_count),
        render_buffer_bytes_copied_total: sat_usize(
            t.render_buffer_bytes_copied_total,
            d.bytes_copied_total,
        ),
        ..t
    }
}

/// What the runtime keeps between frames: the last frame's metadata, and,
/// when the loop asked for them, the running totals.
#[derive(Debug, Clone, Copy, PartialEq, Eq, Structural)]
pub struct ObsFriendlyFourViewLoopWindowRenderRuntime {
    metadata: ObsFriendlyFourViewLoopRenderMetadataSnapshot,
    timing: Option<TwoRealPreviewLoopRenderBufferTiming>,
}

impl ObsFriendlyFourViewLoopWindowRenderRuntime {
    /// The metadata of the last rendered frame.
    pub closed spec fn metadata(&self) -> ObsFriendlyFourViewLoopRenderMetadataSnapshot {
        self.metadata
    }

    /// The running totals, when they are kept.
    pub closed spec fn timing(&self) -> Option<TwoRealPreviewLoopRenderBufferTiming> {
        self.timing
    }

    /// A runtime that keeps no totals.
    pub fn new() -> (r: Self)
        ensures
            r.metadata() == empty_metadata(),
            r.timing() is None,
    {
        ObsFriendlyFourViewLoopWindowRenderRuntime {
            metadata: ObsFriendlyFourViewLoopRenderMetadataSnapshot {
                source_width: None,
                source_height: None,
                output_width: None,
                output_height: None,
                bgra_payload_len: None,
                window_visible: None,
                window_capture_candidate: None,
            },
            timing: None,
        }
    }

    /// A runtime that adds its buffer work to `timing`.
    pub fn with_timing(timing: TwoRealPreviewLoopRenderBufferTiming) -> (r: Self)
        ensures
            r.metadata() == empty_metadata(),
            r.timing() == Some(timing),
    {
        ObsFriendlyFourViewLoopWindowRenderRuntime {
            metadata: ObsFriendlyFourViewLoopRenderMetadataSnapshot {
                source_width: None,
                source_height: None,
                output_width: None,
                output_height: None,
                bgra_payload_len: None,
                window_visible: None,
                window_capture_candidate: None,
            },
            timing: Some(timing),
        }
    }

    /// The metadata of the last rendered frame.
    pub fn metadata_snapshot(&self) -> (r: ObsFriendlyFourViewLoopRenderMetadataSnapshot)
        ensures
            r == self.metadata(),
    {
        self.metadata
    }

    /// The running totals, when they are kept.
    pub fn timing_snapshot(&self) -> (r: Option<TwoRealPreviewLoopRenderBufferTiming>)
        ensures
            r == self.timing(),
    {
        self.timing
    }

    /// Adds one frame's buffer work to the totals, when they are kept.
    pub fn record_render_buffer_diagnostics(
        &mut self,
        render_buffer_copy_elapsed_ms: u128,
        diagnostics: BgraRenderBufferDiagnostics,
    )
        requires
            old(self).timing() matches Some(t) ==> timing_has_room(
                t,
                render_buffer_copy_elapsed_ms,
                diagnostics,
            ),
        ensures
            final(self).metadata() == old(self).metadata(),
            final(self).timing() == match old(self).timing() {
                Some(t) => Some(timing_after(t, render_buffer_copy_elapsed_ms, diagnostics)),
                None => None,
            },
    {
        if let Some(t) = self.timing {
            let mut t = t;
            t.render_buffer_copy_elapsed_ms = t.render_buffer_copy_elapsed_ms
                + render_buffer_copy_elapsed_ms;
            t.render_buffer_scale_prepare_elapsed_ms = t.render_buffer_scale_prepare_elapsed_ms
                + diagnostics.scale_prepare_elapsed_ms;
            t.render_buffer_scale_loop_elapsed_ms = t.render_buffer_scale_loop_elapsed_ms
                + diagnostics.scale_loop_elapsed_ms;
            t.render_buffer_output_copy_elapsed_ms = t.render_buffer_output_copy_elapsed_ms
                + diagnostics.output_copy_elapsed_ms;
            t.render_buffer_resize_elapsed_ms = t.render_buffer_resize_elapsed_ms
                + diagnostics.resize_elapsed_ms;
            t.render_buffer_clear_elapsed_ms = t.render_buffer_clear_elapsed_ms
                + diagnostics.clear_elapsed_ms;
            t.render_buffer_passthrough_count = t.render_buffer_passthrough_count.saturating_add(
                diagnostics.passthrough_count,
            );
            t.render_buffer_same_size_copy_count = t.render_buffer_same_size_copy_count.saturating_add(
                diagnostics.same_size_copy_count,
            );
            t.render_buffer_half_scale_count = t.render_buffer_half_scale_count.saturating_add(
                diagnostics.half_scale_count,
            );
            t.render_buffer_generic_scale_count = t.render_buffer_generic_scale_count.saturating_add(
                diagnostics.generic_scale_count,
            );
            t.render_buffer_reuse_count = t.render_buffer_reuse_count.saturating_add(
                diagnostics.reuse_count,
            );
            t.render_buffer_allocation_count = t.render_buffer_allocation_count.saturating_add(
                diagnostics.allocation_count,
            );
            t.render_buffer_bytes_copied_total = t.render_buffer_bytes_copied_total.saturating_add(
                diagnostics.bytes_copied_total,
            );
            self.timing = Some(t);
        }
    }

    /// Records a frame handed to the window: the window update time, when
    /// totals are kept, and the frame's metadata.
    pub fn record_rendered_frame(
        &mut self,
        source_width: u32,
        source_height: u32,
        output_width: u32,
        output_height: u32,
        bgra_payload_len: usize,
        window_visible: Option<bool>,
        window_capture_candidate: Option<bool>,
        window_update_elapsed_ms: u128,
    )
        requires
            old(self).timing() matches Some(t) ==> t.window_update_elapsed_ms
                + window_update_elapsed_ms <= u128::MAX && t.render_backend_wait_elapsed_ms
                + window_update_elapsed_ms <= u128::MAX,
        ensures
            final(self).metadata() == (ObsFriendlyFourViewLoopRenderMetadataSnapshot {
                source_width: Some(source_width),
                source_height: Some(source_height),
                output_width: Some(output_width),
                output_height: Some(output_height),
                bgra_payload_len: Some(bgra_payload_len),
                window_visible,
                window_capture_candidate,
            }),
            final(self).timing() == match old(self).timing() {
                Some(t) => Some(
                    TwoRealPreviewLoopRenderBufferTiming {
                        window_update_elapsed_ms: (t.window_update_elapsed_ms
                            + window_update_elapsed_ms) as u128,
                        render_backend_wait_elapsed_ms: (t.render_backend_wait_elapsed_ms
                            + window_update_elapsed_ms) as u128,
                        ..t
                    },
                ),
                None => None,
            },
    {
        if let Some(t) = self.timing {
            let mut t = t;
            t.window_update_elapsed_ms = t.window_update_elapsed_ms + window_update_elapsed_ms;
            t.render_backend_wait_elapsed_ms = t.render_backend_wait_elapsed_ms
                + window_update_elapsed_ms;
            self.timing = Some(t);
        }
        self.metadata = ObsFriendlyFourViewLoopRenderMetadataSnapshot {
            source_width: Some(source_width),
            source_height: Some(source_height),
            output_width: Some(output_width),
            output_height: Some(output_height),
            bgra_payload_len: Some(bgra_payload_len),
            window_visible,
            window_capture_candidate,
        };
    }
}

/// The buffer work of a frame that already has the output profile and is
/// passed through unscaled: one passthrough, and the frame's own buffer
/// reused.
pub fn passthrough_render_buffer_diagnostics() -> (r: BgraRenderBufferDiagnostics)
    ensures
        r == (BgraRenderBufferDiagnostics {
            passthrough_count: 1,
            reuse_count: 1,
            ..crate::pixels::no_buffer_diagnostics()
        }),
{
    let mut d = BgraRenderBufferDiagnostics::default();
    d.passthrough_count = 1;
    d.reuse_count = 1;
    d
}

} // verus!
