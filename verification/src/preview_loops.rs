//! The decisions and running counts of the preview loops. Each tick reads
//! the handoff, decodes, composes and renders (outside work that the caller
//! does); what a tick does with its output, and how the loop counts it, is
//! decided here.
use vstd::prelude::*;
use crate::identity::{
    classify_two_real_preview_loop_materialization_reason, materialization_reason,
    TwoRealCleanOutputRenderOutcome, TwoRealPreviewLoopMaterializationReason,
    TwoRealPreviewLoopTickDiagnostics, TwoRealPreviewLoopVisualChangeDiagnostics,
};
use crate::quad::TwoRealQuadViewComposeCounters;

verus! {

/// How a tick of the two-real preview loop gets its output.
#[derive(Debug, Clone, Copy, PartialEq, Eq, Structural)]
pub enum TwoRealRenderPath {
    /// The picture is unchanged and the previous output was rendered: the
    /// previous output is shown again.
    ReuseRenderedOutput,
    /// The picture is unchanged and the previous composition is at hand: it
    /// is rendered again without composing.
    ReuseComposition,
    /// The quad view is composed and rendered.
    Compose,
}

/// The path of a tick: the rendered output is reused when the picture is
/// unchanged and the previous output was rendered; else the previous
/// composition is reused when the picture is unchanged and there is one;
/// else the quad view is composed. `previous_output_rendered` is `None` when
/// there is no previous output.
pub open spec fn render_path(
    visual_unchanged: bool,
    previous_output_rendered: Option<bool>,
    has_previous_composition: bool,
) -> TwoRealRenderPath {
    if visual_unchanged && previous_output_rendered == Some(true) {
        TwoRealRenderPath::ReuseRenderedOutput
    } else if visual_unchanged && has_previous_composition {
        TwoRealRenderPath::ReuseComposition
    } else {
        TwoRealRenderPath::Compose
    }
}

/// Decides how a tick gets its output.
pub fn decide_two_real_render_path(
    visual_unchanged: bool,
    previous_output_rendered: Option<bool>,
    has_previous_composition: bool,
) -> (r: TwoRealRenderPath)
    ensures
        r == render_path(visual_unchanged, previous_output_rendered, has_previous_composition),
{
    let previous_rendered = match previous_output_rendered {
        Some(rendered) => rendered,
        None => false,
    };
    if visual_unchanged && previous_rendered {
        TwoRealRenderPath::ReuseRenderedOutput
    } else if visual_unchanged && has_previous_composition {
        TwoRealRenderPath::ReuseComposition
    } else {
        TwoRealRenderPath::Compose
    }
}

/// A tick whose picture is the previous tick's, after an output that was
/// rendered, shows that output again, and so draws nothing anew: no
/// materialization reason is counted for it.
pub proof fn law_unchanged_picture_reuses_rendered_output(
    frames_attempted_before: u32,
    event: TwoRealPreviewLoopTickEvent,
    has_previous_composition: bool,
)
    requires
        event.visual_unchanged,
        event.previous_output_rendered == Some(true),
        event.path == render_path(
            event.visual_unchanged,
            event.previous_output_rendered,
            has_previous_composition,
        ),
    ensures
        event.path is ReuseRenderedOutput,
        tick_materialization(frames_attempted_before, event) is None,
{
}

/// What one tick did, as the loop counts it.
#[derive(Debug, Clone, Copy)]
pub struct TwoRealPreviewLoopTickEvent {
    /// What changed per slot since the previous tick.
    pub visual_changes: TwoRealPreviewLoopVisualChangeDiagnostics,
    /// Whether the picture is the previous tick's.
    pub visual_unchanged: bool,
    /// `None` when there was no previous output, else whether it rendered.
    pub previous_output_rendered: Option<bool>,
    /// How the tick got its output.
    pub path: TwoRealRenderPath,
    /// On a reused composition: whether it was a composed frame.
    pub reused_composed_frame: bool,
    /// Whether the render-facing output was ready to render (not read when
    /// the rendered output was reused).
    pub render_ready: bool,
    /// The tick's counts.
    pub tick: TwoRealPreviewLoopTickDiagnostics,
    /// How many slots reused an unchanged decoded frame.
    pub unchanged_reuse_count: u32,
    /// How the clean output came out.
    pub clean_output: TwoRealCleanOutputRenderOutcome,
    /// Milliseconds since the loop started, when the tick ended.
    pub elapsed_ms: u128,
}

/// A tick as the loop produces it: a reused output or composition belongs
/// to an unchanged picture, a reused output was rendered, and the tick's
/// render counts are those of its clean output.
pub open spec fn tick_event_wf(event: TwoRealPreviewLoopTickEvent) -> bool {
    &&& !(event.path is Compose) ==> event.visual_unchanged
    &&& event.path is ReuseRenderedOutput ==> event.previous_output_rendered == Some(true)
    &&& event.tick.render_success_count == if event.clean_output is Rendered {
        1u32
    } else {
        0u32
    }
    &&& event.tick.render_failure_count == if event.clean_output is RenderFailed {
        1u32
    } else {
        0u32
    }
}

/// `a + b`, or `u32::MAX` where that does not fit.
pub open spec fn sat_add(a: u32, b: u32) -> u32 {
    if a + b > u32::MAX {
        u32::MAX
    } else {
        (a + b) as u32
    }
}

/// Why a tick drew its output anew, when it did: a tick that did not reuse
/// the rendered output and had a render-ready output, classified with the
/// number of ticks before it.
pub open spec fn tick_materialization(
    frames_attempted_before: u32,
    event: TwoRealPreviewLoopTickEvent,
) -> Option<TwoRealPreviewLoopMaterializationReason> {
    if !(event.path is ReuseRenderedOutput) && event.render_ready {
        Some(
            materialization_reason(
                frames_attempted_before,
                event.previous_output_rendered,
                event.visual_unchanged,
            ),
        )
    } else {
        None
    }
}

/// A count that goes up by one (saturating) when the tick's reason is `reason`.
pub open spec fn counted_reason(
    before: u32,
    after: u32,
    reason: Option<TwoRealPreviewLoopMaterializationReason>,
    counted: TwoRealPreviewLoopMaterializationReason,
) -> bool {
    after == if reason == Some(counted) {
        sat_add(before, 1)
    } else {
        before
    }
}

/// The running counts of the two-real preview loop.
#[derive(Debug, Clone)]
pub struct TwoRealPreviewLoopTally {
    pub frames_attempted: u32,
    pub frames_rendered: u32,
    pub render_failures: u32,
    pub selected_count: u32,
    pub no_frame_count: u32,
    pub handoff_error_count: u32,
    pub render_success_count: u32,
    pub render_failure_count: u32,
    pub first_render_attempt_index: Option<u32>,
    pub first_render_elapsed_ms: Option<u128>,
    pub unchanged_frame_reuse_count: u32,
    pub skipped_decode_unchanged_frame_count: u32,
    pub quad_view_compose_skipped_unchanged_count: u32,
    pub quad_view_composed_frame_reuse_count: u32,
    pub quad_view_visual_unchanged_count: u32,
    pub quad_view_visual_changed_count: u32,
    pub materialization_reason_first_render_count: u32,
    pub materialization_reason_visual_changed_count: u32,
    pub materialization_reason_previous_output_missing_count: u32,
    pub materialization_reason_profile_or_size_mismatch_count: u32,
    pub materialization_reason_force_render_count: u32,
    pub materialization_reason_unknown_count: u32,
    pub slot_frame_id_changed_counts: [u32; 4],
    pub slot_selected_source_changed_counts: [u32; 4],
    pub placeholder_visual_changed_count: u32,
    pub render_input_unchanged_count: u32,
    pub render_reuse_frame_count: u32,
    /// The counts of the quad compositions, which the composing step adds to.
    pub compose: TwoRealQuadViewComposeCounters,
}

impl TwoRealPreviewLoopTally {
    /// What the counts keep: each attempt is counted once as changed or
    /// unchanged; rendered frames and render failures are at most the
    /// attempts and agree with the per-tick render counts; reuse happens
    /// only on unchanged pictures; and the first render is known exactly
    /// when a frame has rendered, at an attempt that was made.
    pub open spec fn wf(&self) -> bool {
        &&& self.quad_view_visual_unchanged_count + self.quad_view_visual_changed_count
            == self.frames_attempted
        &&& self.render_input_unchanged_count == self.quad_view_visual_unchanged_count
        &&& self.frames_rendered + self.render_failures <= self.frames_attempted
        &&& self.render_success_count == self.frames_rendered
        &&& self.render_failure_count == self.render_failures
        &&& self.render_reuse_frame_count + self.quad_view_compose_skipped_unchanged_count
            <= self.quad_view_visual_unchanged_count
        &&& self.quad_view_composed_frame_reuse_count
            <= self.quad_view_compose_skipped_unchanged_count
        &&& (self.first_render_attempt_index is Some <==> self.frames_rendered > 0)
        &&& (self.first_render_attempt_index is Some <==> self.first_render_elapsed_ms is Some)
        &&& (self.first_render_attempt_index matches Some(i) ==> 1 <= i
            <= self.frames_attempted)
    }

    /// A loop before its first tick: every count zero, no render yet.
    pub fn new() -> (r: Self)
        ensures
            r.wf(),
            r.frames_attempted == 0,
            r.frames_rendered == 0,
            r.first_render_attempt_index is None,
    {
        TwoRealPreviewLoopTally {
            frames_attempted: 0,
            frames_rendered: 0,
            render_failures: 0,
            selected_count: 0,
            no_frame_count: 0,
            handoff_error_count: 0,
            render_success_count: 0,
            render_failure_count: 0,
            first_render_attempt_index: None,
            first_render_elapsed_ms: None,
            unchanged_frame_reuse_count: 0,
            skipped_decode_unchanged_frame_count: 0,
            quad_view_compose_skipped_unchanged_count: 0,
            quad_view_composed_frame_reuse_count: 0,
            quad_view_visual_unchanged_count: 0,
            quad_view_visual_changed_count: 0,
            materialization_reason_first_render_count: 0,
            materialization_reason_visual_changed_count: 0,
            materialization_reason_previous_output_missing_count: 0,
            materialization_reason_profile_or_size_mismatch_count: 0,
            materialization_reason_force_render_count: 0,
            materialization_reason_unknown_count: 0,
            slot_frame_id_changed_counts: [0, 0, 0, 0],
            slot_selected_source_changed_counts: [0, 0, 0, 0],
            placeholder_visual_changed_count: 0,
            render_input_unchanged_count: 0,
            render_reuse_frame_count: 0,
            compose: TwoRealQuadViewComposeCounters {
                compose_attempt_count: 0,
                compose_success_count: 0,
                incremental_update_count: 0,
                full_compose_count: 0,
                changed_slot_update_count: 0,
                reused_slot_count: 0,
            },
        }
    }

    /// Counts one tick: the attempt, whether its picture changed, the
    /// per-slot changes (saturating), how its output was had (a reused
    /// output, or a reused composition with its four slots), why it was drawn
    /// anew (saturating), the scheduler and render counts, the unchanged
    /// decoded frames reused, and the frame rendered or failed, the first
    /// rendered one with its attempt number and time.
    pub fn record_tick(&mut self, event: &TwoRealPreviewLoopTickEvent)
        requires
            old(self).wf(),
            tick_event_wf(*event),
            old(self).frames_attempted < u32::MAX,
            old(self).selected_count + event.tick.selected_count <= u32::MAX,
            old(self).no_frame_count + event.tick.no_frame_count <= u32::MAX,
            old(self).handoff_error_count + event.tick.handoff_error_count <= u32::MAX,
            old(self).unchanged_frame_reuse_count + event.unchanged_reuse_count <= u32::MAX,
            old(self).skipped_decode_unchanged_frame_count + event.unchanged_reuse_count
                <= u32::MAX,
            event.path is ReuseComposition ==> old(self).compose.reused_slot_count + 4
                <= u32::MAX,
        ensures
            final(self).wf(),
            final(self).frames_attempted == old(self).frames_attempted + 1,
            final(self).quad_view_visual_unchanged_count == old(
                self,
            ).quad_view_visual_unchanged_count + if event.visual_unchanged {
                1int
            } else {
                0int
            },
            forall|i: int|
                0 <= i < 4 ==> #[trigger] final(self).slot_frame_id_changed_counts@[i] == sat_add(
                    old(self).slot_frame_id_changed_counts@[i],
                    event.visual_changes.frame_id_changed_counts@[i],
                ),
            forall|i: int|
                0 <= i < 4 ==> #[trigger] final(self).slot_selected_source_changed_counts@[i]
                    == sat_add(
                    old(self).slot_selected_source_changed_counts@[i],
                    event.visual_changes.selected_source_changed_counts@[i],
                ),
            final(self).placeholder_visual_changed_count == sat_add(
                old(self).placeholder_visual_changed_count,
                event.visual_changes.placeholder_visual_changed_count,
            ),
            final(self).render_reuse_frame_count == old(self).render_reuse_frame_count + if event.path
                is ReuseRenderedOutput {
                1int
            } else {
                0int
            },
            final(self).quad_view_compose_skipped_unchanged_count == old(
                self,
            ).quad_view_compose_skipped_unchanged_count + if event.path is ReuseComposition {
                1int
            } else {
                0int
            },
            final(self).quad_view_composed_frame_reuse_count == old(
                self,
            ).quad_view_composed_frame_reuse_count + if event.path is ReuseComposition
                && event.reused_composed_frame {
                1int
            } else {
                0int
            },
            final(self).compose == (TwoRealQuadViewComposeCounters {
                reused_slot_count: (old(self).compose.reused_slot_count + if event.path
                    is ReuseComposition {
                    4int
                } else {
                    0int
                }) as u32,
                ..old(self).compose
            }),
            counted_reason(
                old(self).materialization_reason_first_render_count,
                final(self).materialization_reason_first_render_count,
                tick_materialization(old(self).frames_attempted, *event),
                TwoRealPreviewLoopMaterializationReason::FirstRender,
            ),
            counted_reason(
                old(self).materialization_reason_visual_changed_count,
                final(self).materialization_reason_visual_changed_count,
                tick_materialization(old(self).frames_attempted, *event),
                TwoRealPreviewLoopMaterializationReason::VisualChanged,
            ),
            counted_reason(
                old(self).materialization_reason_previous_output_missing_count,
                final(self).materialization_reason_previous_output_missing_count,
                tick_materialization(old(self).frames_attempted, *event),
                TwoRealPreviewLoopMaterializationReason::PreviousOutputMissing,
            ),
            counted_reason(
                old(self).materialization_reason_profile_or_size_mismatch_count,
                final(self).materialization_reason_profile_or_size_mismatch_count,
                tick_materialization(old(self).frames_attempted, *event),
                TwoRealPreviewLoopMaterializationReason::ProfileOrSizeMismatch,
            ),
            counted_reason(
                old(self).materialization_reason_force_render_count,
                final(self).materialization_reason_force_render_count,
                tick_materialization(old(self).frames_attempted, *event),
                TwoRealPreviewLoopMaterializationReason::ForceRender,
            ),
            counted_reason(
                old(self).materialization_reason_unknown_count,
                final(self).materialization_reason_unknown_count,
                tick_materialization(old(self).frames_attempted, *event),
                TwoRealPreviewLoopMaterializationReason::Unknown,
            ),
            final(self).selected_count == old(self).selected_count + event.tick.selected_count,
            final(self).no_frame_count == old(self).no_frame_count + event.tick.no_frame_count,
            final(self).handoff_error_count == old(self).handoff_error_count
                + event.tick.handoff_error_count,
            final(self).unchanged_frame_reuse_count == old(self).unchanged_frame_reuse_count
                + event.unchanged_reuse_count,
            final(self).skipped_decode_unchanged_frame_count == old(
                self,
            ).skipped_decode_unchanged_frame_count + event.unchanged_reuse_count,
            final(self).frames_rendered == old(self).frames_rendered + if event.clean_output
                is Rendered {
                1int
            } else {
                0int
            },
            final(self).render_failures == old(self).render_failures + if event.clean_output
                is RenderFailed {
                1int
            } else {
                0int
            },
            final(self).first_render_attempt_index == if old(
                self,
            ).first_render_attempt_index is None && event.clean_output is Rendered {
                Some(final(self).frames_attempted)
            } else {
                old(self).first_render_attempt_index
            },
            final(self).first_render_elapsed_ms == if old(self).first_render_attempt_index is None
                && event.clean_output is Rendered {
                Some(event.elapsed_ms)
            } else {
                old(self).first_render_elapsed_ms
            },
    {
        let ghost before = *self;
        let mut i: usize = 0;
        while i < 4
            invariant
                0 <= i <= 4,
                forall|j: int|
                    0 <= j < i ==> #[trigger] self.slot_frame_id_changed_counts@[j] == sat_add(
                        before.slot_frame_id_changed_counts@[j],
                        event.visual_changes.frame_id_changed_counts@[j],
                    ),
                forall|j: int|
                    0 <= j < i ==> #[trigger] self.slot_selected_source_changed_counts@[j]
                        == sat_add(
                        before.slot_selected_source_changed_counts@[j],
                        event.visual_changes.selected_source_changed_counts@[j],
                    ),
                forall|j: int|
                    i <= j < 4 ==> #[trigger] self.slot_frame_id_changed_counts@[j]
                        == before.slot_frame_id_changed_counts@[j],
                forall|j: int|
                    i <= j < 4 ==> #[trigger] self.slot_selected_source_changed_counts@[j]
                        == before.slot_selected_source_changed_counts@[j],
                *self == (TwoRealPreviewLoopTally {
                    slot_frame_id_changed_counts: self.slot_frame_id_changed_counts,
                    slot_selected_source_changed_counts: self.slot_selected_source_changed_counts,
                    ..before
                }),
            decreases 4 - i,
        {
            self.slot_frame_id_changed_counts.set(
                i,
                self.slot_frame_id_changed_counts[i].saturating_add(
                    event.visual_changes.frame_id_changed_counts[i],
                ),
            );
            self.slot_selected_source_changed_counts.set(
                i,
                self.slot_selected_source_changed_counts[i].saturating_add(
                    event.visual_changes.selected_source_changed_counts[i],
                ),
            );
            i = i + 1;
        }
        self.placeholder_visual_changed_count = self.placeholder_visual_changed_count.saturating_add(
            event.visual_changes.placeholder_visual_changed_count,
        );
        if event.visual_unchanged {
            self.quad_view_visual_unchanged_count = self.quad_view_visual_unchanged_count + 1;
            self.render_input_unchanged_count = self.render_input_unchanged_count + 1;
        } else {
            self.quad_view_visual_changed_count = self.quad_view_visual_changed_count + 1;
        }
        match event.path {
            TwoRealRenderPath::ReuseRenderedOutput => {
                self.render_reuse_frame_count = self.render_reuse_frame_count + 1;
            },
            TwoRealRenderPath::ReuseComposition => {
                self.quad_view_compose_skipped_unchanged_count =
                    self.quad_view_compose_skipped_unchanged_count + 1;
                self.compose.reused_slot_count = self.compose.reused_slot_count + 4;
                if event.reused_composed_frame {
                    self.quad_view_composed_frame_reuse_count =
                        self.quad_view_composed_frame_reuse_count + 1;
                }
            },
            TwoRealRenderPath::Compose => {},
        }
        if !matches!(event.path, TwoRealRenderPath::ReuseRenderedOutput) && event.render_ready {
            match classify_two_real_preview_loop_materialization_reason(
                self.frames_attempted,
                event.previous_output_rendered,
                event.visual_unchanged,
            ) {
                TwoRealPreviewLoopMaterializationReason::FirstRender => {
                    self.materialization_reason_first_render_count =
                        self.materialization_reason_first_render_count.saturating_add(1);
                },
                TwoRealPreviewLoopMaterializationReason::VisualChanged => {
                    self.materialization_reason_visual_changed_count =
                        self.materialization_reason_visual_changed_count.saturating_add(1);
                },
                TwoRealPreviewLoopMaterializationReason::PreviousOutputMissing => {
                    self.materialization_reason_previous_output_missing_count =
                        self.materialization_reason_previous_output_missing_count.saturating_add(1);
                },
                TwoRealPreviewLoopMaterializationReason::ProfileOrSizeMismatch => {
                    self.materialization_reason_profile_or_size_mismatch_count =
                        self.materialization_reason_profile_or_size_mismatch_count.saturating_add(
                        1,
                    );
                },
                TwoRealPreviewLoopMaterializationReason::ForceRender => {
                    self.materialization_reason_force_render_count =
                        self.materialization_reason_force_render_count.saturating_add(1);
                },
                TwoRealPreviewLoopMaterializationReason::Unknown => {
                    self.materialization_reason_unknown_count =
                        self.materialization_reason_unknown_count.saturating_add(1);
                },
            }
        }
        self.frames_attempted = self.frames_attempted + 1;
        self.selected_count = self.selected_count + event.tick.selected_count;
        self.no_frame_count = self.no_frame_count + event.tick.no_frame_count;
        self.handoff_error_count = self.handoff_error_count + event.tick.handoff_error_count;
        self.render_success_count = self.render_success_count + event.tick.render_success_count;
        self.render_failure_count = self.render_failure_count + event.tick.render_failure_count;
        self.unchanged_frame_reuse_count = self.unchanged_frame_reuse_count
            + event.unchanged_reuse_count;
        self.skipped_decode_unchanged_frame_count = self.skipped_decode_unchanged_frame_count
            + event.unchanged_reuse_count;
        match event.clean_output {
            TwoRealCleanOutputRenderOutcome::Rendered => {
                self.frames_rendered = self.frames_rendered + 1;
                if self.first_render_attempt_index.is_none() {
                    self.first_render_attempt_index = Some(self.frames_attempted);
                    self.first_render_elapsed_ms = Some(event.elapsed_ms);
                }
            },
            TwoRealCleanOutputRenderOutcome::RenderFailed => {
                self.render_failures = self.render_failures + 1;
            },
            TwoRealCleanOutputRenderOutcome::NotRendered => {},
        }
    }
}

/// What a focused slot's render result counts as: `Rendered` is a rendered
/// frame; `RenderFailed` and `InvalidFrame` are failures; anything else is
/// neither.
pub open spec fn focused_render_counts(result_kind: Seq<char>) -> (u32, u32) {
    if result_kind == "Rendered"@ {
        (1, 0)
    } else if result_kind == "RenderFailed"@ || result_kind == "InvalidFrame"@ {
        (0, 1)
    } else {
        (0, 0)
    }
}

/// The frames attempted, rendered and failed of a render loop: the clean
/// output loop, the real handoff preview loop, and the ticks that one command
/// of the controlled loop renders.
pub struct FrameRenderTally {
    pub frames_attempted: u32,
    pub frames_rendered: u32,
    pub render_failures: u32,
}

impl FrameRenderTally {
    /// Each attempt renders a frame, fails, or neither.
    pub open spec fn wf(&self) -> bool {
        self.frames_rendered + self.render_failures <= self.frames_attempted
    }

    /// No attempt yet.
    pub fn new() -> (r: Self)
        ensures
            r.wf(),
            r.frames_attempted == 0,
            r.frames_rendered == 0,
            r.render_failures == 0,
    {
        FrameRenderTally { frames_attempted: 0, frames_rendered: 0, render_failures: 0 }
    }

    /// Counts an attempt of the quad view by how its clean output came out.
    pub fn record_clean_output(&mut self, outcome: TwoRealCleanOutputRenderOutcome)
        requires
            old(self).wf(),
            old(self).frames_attempted < u32::MAX,
        ensures
            final(self).wf(),
            final(self).frames_attempted == old(self).frames_attempted + 1,
            final(self).frames_rendered == old(self).frames_rendered + if outcome is Rendered {
                1int
            } else {
                0int
            },
            final(self).render_failures == old(self).render_failures + if outcome is RenderFailed {
                1int
            } else {
                0int
            },
    {
        self.frames_attempted = self.frames_attempted + 1;
        match outcome {
            TwoRealCleanOutputRenderOutcome::Rendered => {
                self.frames_rendered = self.frames_rendered + 1;
            },
            TwoRealCleanOutputRenderOutcome::RenderFailed => {
                self.render_failures = self.render_failures + 1;
            },
            TwoRealCleanOutputRenderOutcome::NotRendered => {},
        }
    }

    /// Counts an attempt of a focused view by the result kind of its slot
    /// render.
    pub fn record_focused_view(&mut self, result_kind: &str)
        requires
            old(self).wf(),
            old(self).frames_attempted < u32::MAX,
        ensures
            final(self).wf(),
            final(self).frames_attempted == old(self).frames_attempted + 1,
            final(self).frames_rendered == old(self).frames_rendered + focused_render_counts(
                result_kind@,
            ).0,
            final(self).render_failures == old(self).render_failures + focused_render_counts(
                result_kind@,
            ).1,
    {
        self.frames_attempted = self.frames_attempted + 1;
        if crate::text::str_eq(result_kind, "Rendered") {
            self.frames_rendered = self.frames_rendered + 1;
        } else if crate::text::str_eq(result_kind, "RenderFailed") || crate::text::str_eq(result_kind, "InvalidFrame") {
            self.render_failures = self.render_failures + 1;
        }
    }
}


/// The time above which an attempt counts as slow: two frame intervals, in
/// whole milliseconds, and at least one millisecond. (A frame interval of
/// `u64` nanoseconds is far too short for the doubling to saturate.)
pub open spec fn slow_attempt_threshold(cadence_nanos: u64) -> u128 {
    let doubled = (cadence_nanos / 1_000_000) as u128 * 2;
    if doubled < 1 {
        1
    } else {
        doubled as u128
    }
}

/// Computes the slow-attempt threshold for a frame interval of
/// `cadence_nanos` nanoseconds.
pub fn two_real_slow_attempt_threshold_ms(cadence_nanos: u64) -> (r: u128)
    ensures
        r == slow_attempt_threshold(cadence_nanos),
{
    let millis: u128 = (cadence_nanos / 1_000_000) as u128;
    let doubled = millis * 2;
    if doubled < 1 {
        1
    } else {
        doubled
    }
}

/// The attempt and render timings that a preview loop keeps.
#[derive(Debug, Clone, Copy, PartialEq, Eq, Structural)]
pub struct TwoRealPreviewLoopAttemptTiming {
    pub attempt_body_elapsed_ms: u128,
    pub max_attempt_elapsed_ms: u128,
    pub slow_attempt_count: u32,
    pub loop_sleep_elapsed_ms: u128,
    pub frame_interval_wait_elapsed_ms: u128,
    pub render_elapsed_ms: u128,
    pub render_call_elapsed_ms: u128,
    pub render_prepare_elapsed_ms: u128,
    pub render_call_count: u32,
}

impl TwoRealPreviewLoopAttemptTiming {
    /// No attempt yet.
    pub fn new() -> (r: Self)
        ensures
            r == (TwoRealPreviewLoopAttemptTiming {
                attempt_body_elapsed_ms: 0,
                max_attempt_elapsed_ms: 0,
                slow_attempt_count: 0,
                loop_sleep_elapsed_ms: 0,
                frame_interval_wait_elapsed_ms: 0,
                render_elapsed_ms: 0,
                render_call_elapsed_ms: 0,
                render_prepare_elapsed_ms: 0,
                render_call_count: 0,
            }),
    {
        TwoRealPreviewLoopAttemptTiming {
            attempt_body_elapsed_ms: 0,
            max_attempt_elapsed_ms: 0,
            slow_attempt_count: 0,
            loop_sleep_elapsed_ms: 0,
            frame_interval_wait_elapsed_ms: 0,
            render_elapsed_ms: 0,
            render_call_elapsed_ms: 0,
            render_prepare_elapsed_ms: 0,
            render_call_count: 0,
        }
    }

    /// Counts an attempt that took `elapsed_ms`: its time, the longest
    /// attempt so far, and whether it was slower than `threshold_ms`.
    pub fn record_attempt(&mut self, elapsed_ms: u128, threshold_ms: u128)
        requires
            old(self).attempt_body_elapsed_ms + elapsed_ms <= u128::MAX,
            elapsed_ms > threshold_ms ==> old(self).slow_attempt_count < u32::MAX,
        ensures
            *final(self) == (TwoRealPreviewLoopAttemptTiming {
                attempt_body_elapsed_ms: (old(self).attempt_body_elapsed_ms + elapsed_ms) as u128,
                max_attempt_elapsed_ms: if elapsed_ms > old(self).max_attempt_elapsed_ms {
                    elapsed_ms
                } else {
                    old(self).max_attempt_elapsed_ms
                },
                slow_attempt_count: (old(self).slow_attempt_count + if elapsed_ms > threshold_ms {
                    1int
                } else {
                    0int
                }) as u32,
                ..*old(self)
            }),
    {
        self.attempt_body_elapsed_ms = self.attempt_body_elapsed_ms + elapsed_ms;
        if elapsed_ms > self.max_attempt_elapsed_ms {
            self.max_attempt_elapsed_ms = elapsed_ms;
        }
        if elapsed_ms > threshold_ms {
            self.slow_attempt_count = self.slow_attempt_count + 1;
        }
    }

    /// Counts the sleep between two attempts, as loop sleep and as frame
    /// interval wait.
    pub fn record_sleep(&mut self, elapsed_ms: u128)
        requires
            old(self).loop_sleep_elapsed_ms + elapsed_ms <= u128::MAX,
            old(self).frame_interval_wait_elapsed_ms + elapsed_ms <= u128::MAX,
        ensures
            *final(self) == (TwoRealPreviewLoopAttemptTiming {
                loop_sleep_elapsed_ms: (old(self).loop_sleep_elapsed_ms + elapsed_ms) as u128,
                frame_interval_wait_elapsed_ms: (old(self).frame_interval_wait_elapsed_ms
                    + elapsed_ms) as u128,
                ..*old(self)
            }),
    {
        self.loop_sleep_elapsed_ms = self.loop_sleep_elapsed_ms + elapsed_ms;
        self.frame_interval_wait_elapsed_ms = self.frame_interval_wait_elapsed_ms + elapsed_ms;
    }

    /// Counts a render call that took `call_elapsed_ms`, of which
    /// `copy_elapsed_ms` went to copying the render buffer and
    /// `backend_wait_elapsed_ms` to waiting on the backend; the rest (never
    /// below zero) is preparation.
    pub fn record_render_call(
        &mut self,
        call_elapsed_ms: u128,
        copy_elapsed_ms: u128,
        backend_wait_elapsed_ms: u128,
    )
        requires
            old(self).render_elapsed_ms + call_elapsed_ms <= u128::MAX,
            old(self).render_call_elapsed_ms + call_elapsed_ms <= u128::MAX,
            old(self).render_prepare_elapsed_ms + call_elapsed_ms <= u128::MAX,
            old(self).render_call_count < u32::MAX,
        ensures
            *final(self) == (TwoRealPreviewLoopAttemptTiming {
                render_elapsed_ms: (old(self).render_elapsed_ms + call_elapsed_ms) as u128,
                render_call_elapsed_ms: (old(self).render_call_elapsed_ms + call_elapsed_ms) as u128,
                render_prepare_elapsed_ms: (old(self).render_prepare_elapsed_ms
                    + call_elapsed_ms.saturating_sub(copy_elapsed_ms).saturating_sub(
                    backend_wait_elapsed_ms,
                )) as u128,
                render_call_count: (old(self).render_call_count + 1) as u32,
                ..*old(self)
            }),
    {
        self.render_elapsed_ms = self.render_elapsed_ms + call_elapsed_ms;
        self.render_call_elapsed_ms = self.render_call_elapsed_ms + call_elapsed_ms;
        self.render_prepare_elapsed_ms = self.render_prepare_elapsed_ms + call_elapsed_ms.saturating_sub(
            copy_elapsed_ms,
        ).saturating_sub(backend_wait_elapsed_ms);
        self.render_call_count = self.render_call_count + 1;
    }

    /// The part of the loop's `loop_total_elapsed_ms` spent neither in
    /// attempts nor asleep (never below zero).
    pub fn unaccounted_elapsed_ms(&self, loop_total_elapsed_ms: u128) -> (r: u128)
        ensures
            r == loop_total_elapsed_ms.saturating_sub(self.attempt_body_elapsed_ms).saturating_sub(
                self.loop_sleep_elapsed_ms,
            ),
    {
        loop_total_elapsed_ms.saturating_sub(self.attempt_body_elapsed_ms).saturating_sub(
            self.loop_sleep_elapsed_ms,
        )
    }
}

} // verus!
