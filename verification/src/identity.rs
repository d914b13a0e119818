//! What each slot of the two-real preview loop shows, and the decisions
//! that compare one tick's slots with the last: which slots changed on
//! screen, which decoded frames can be reused, and why a tick rendered.

use vstd::prelude::*;
use crate::args::opt_view;
use crate::text::{owned, str_eq};

verus! {

/// A frame chosen by the scheduler: its client, run and frame number.
#[derive(Debug, Clone, PartialEq, Eq)]
pub struct TwoRealSelectedFrame {
    pub client_id: String,
    pub run_id: String,
    pub frame_id: u64,
}

/// The decoded frame behind a slot: the frame and where its decodable
/// payload came from.
#[derive(Debug, Clone, PartialEq, Eq)]
pub struct TwoRealPreviewLoopDecodedSlotIdentity {
    pub client_id: String,
    pub run_id: String,
    pub frame_id: u64,
    pub decodable_source: Option<String>,
}

/// What a slot shows on screen.
#[derive(Debug, Clone, PartialEq, Eq)]
pub enum TwoRealPreviewLoopSlotVisualIdentity {
    SourceFrame {
        client_id: String,
        run_id: String,
        frame_id: u64,
        selected_frame_source: Option<String>,
    },
    NoDisplayPlaceholder { reason: String },
    SourceErrorPlaceholder { reason: String },
    DecodeDeferredPlaceholder {
        client_id: String,
        run_id: String,
        frame_id: u64,
        selected_frame_source: Option<String>,
        reason: String,
    },
    DecodeFailedPlaceholder {
        client_id: String,
        run_id: String,
        frame_id: u64,
        selected_frame_source: Option<String>,
        failure: String,
    },
    MissingDecodedPixels {
        client_id: String,
        run_id: String,
        frame_id: u64,
        selected_frame_source: Option<String>,
    },
}

/// How a slot of the quad composition is to be drawn, with what the
/// identity of its picture depends on.
#[derive(Debug, Clone, PartialEq, Eq)]
pub enum TwoRealQuadRenderSlot {
    /// A newly decoded frame; `selected` is the scheduler's frame, if any.
    UpdatedFrame { selected: Option<TwoRealSelectedFrame>, has_decoded: bool },
    /// The previous frame held on.
    HeldPreviousFrame { selected: Option<TwoRealSelectedFrame>, has_decoded: bool },
    /// A held frame whose decoded pixels are missing.
    HeldPreviousFrameWithoutDecoded { selected: Option<TwoRealSelectedFrame> },
    /// Nothing to display, for the given reason.
    NoDisplayPlaceholder { reason: String },
    /// The source failed, for the given reason.
    SourceErrorPlaceholder { reason: String },
    /// Decoding the selected frame was deferred.
    DecodeDeferredPlaceholder { selected: TwoRealSelectedFrame, reason: String },
    /// Decoding the selected frame failed.
    DecodeFailedPlaceholder { selected: TwoRealSelectedFrame, failure: TwoRealDecodeFailure },
}

/// Why decoding a selected frame was put off.
#[derive(Debug, Clone, Copy, PartialEq, Eq, Structural)]
pub enum DecodeDeferredReason {
    EmptyPayload,
    InvalidDimensions,
    FfmpegUnavailable,
}

/// The diagnostic name of a deferral reason.
pub open spec fn decode_deferred_reason_name(reason: DecodeDeferredReason) -> Seq<char> {
    match reason {
        DecodeDeferredReason::EmptyPayload => "EmptyPayload"@,
        DecodeDeferredReason::InvalidDimensions => "InvalidDimensions"@,
        DecodeDeferredReason::FfmpegUnavailable => "FfmpegUnavailable"@,
    }
}

/// Names why decoding was put off, as a deferred slot records it.
pub fn format_switcher_h264_decode_deferred_reason(reason: DecodeDeferredReason) -> (r:
    &'static str)
    ensures
        r@ == decode_deferred_reason_name(reason),
{
    match reason {
        DecodeDeferredReason::EmptyPayload => "EmptyPayload",
        DecodeDeferredReason::InvalidDimensions => "InvalidDimensions",
        DecodeDeferredReason::FfmpegUnavailable => "FfmpegUnavailable",
    }
}

/// What the decoder reported of a frame it failed to decode.
#[derive(Debug, Clone, PartialEq, Eq)]
pub struct TwoRealDecodeFailure {
    pub message: String,
    pub decode_input_payload_len: usize,
    pub decode_expected_width: u32,
    pub decode_expected_height: u32,
    /// The pixel format, by its configuration name.
    pub decode_expected_pixel_format: String,
    pub decode_expected_rawvideo_len: usize,
    pub decoded_stdout_len: usize,
    pub ffmpeg_exit_status: Option<i32>,
    pub ffmpeg_stderr_summary: Option<String>,
}

/// Whether two optional texts are equal.
pub open spec fn opt_text_eq(a: Option<String>, b: Option<String>) -> bool {
    match (a, b) {
        (Some(x), Some(y)) => x@ == y@,
        (None, None) => true,
        _ => false,
    }
}

fn opt_str_eq(a: &Option<String>, b: &Option<String>) -> (r: bool)
    ensures
        r == opt_text_eq(*a, *b),
{
    match (a, b) {
        (Some(x), Some(y)) => str_eq(x.as_str(), y.as_str()),
        (None, None) => true,
        _ => false,
    }
}

/// Whether two slots show the same picture: the same kind of picture, of the
/// same frame, with the same placeholder reason or failure. Where a frame's
/// payload came from does not change the picture.
pub open spec fn visual_render_eq(
    previous: TwoRealPreviewLoopSlotVisualIdentity,
    current: TwoRealPreviewLoopSlotVisualIdentity,
) -> bool {
    match (previous, current) {
        (
            TwoRealPreviewLoopSlotVisualIdentity::SourceFrame { client_id: pc, run_id: pr, frame_id: pf, .. },
            TwoRealPreviewLoopSlotVisualIdentity::SourceFrame { client_id: cc, run_id: cr, frame_id: cf, .. },
        ) => pc@ == cc@ && pr@ == cr@ && pf == cf,
        (
            TwoRealPreviewLoopSlotVisualIdentity::NoDisplayPlaceholder { reason: p },
            TwoRealPreviewLoopSlotVisualIdentity::NoDisplayPlaceholder { reason: c },
        ) => p@ == c@,
        (
            TwoRealPreviewLoopSlotVisualIdentity::SourceErrorPlaceholder { reason: p },
            TwoRealPreviewLoopSlotVisualIdentity::SourceErrorPlaceholder { reason: c },
        ) => p@ == c@,
        (
            TwoRealPreviewLoopSlotVisualIdentity::DecodeDeferredPlaceholder {
                client_id: pc,
                run_id: pr,
                frame_id: pf,
                reason: p,
                ..
            },
            TwoRealPreviewLoopSlotVisualIdentity::DecodeDeferredPlaceholder {
                client_id: cc,
                run_id: cr,
                frame_id: cf,
                reason: c,
                ..
            },
        ) => pc@ == cc@ && pr@ == cr@ && pf == cf && p@ == c@,
        (
            TwoRealPreviewLoopSlotVisualIdentity::DecodeFailedPlaceholder {
                client_id: pc,
                run_id: pr,
                frame_id: pf,
                failure: p,
                ..
            },
            TwoRealPreviewLoopSlotVisualIdentity::DecodeFailedPlaceholder {
                client_id: cc,
                run_id: cr,
                frame_id: cf,
                failure: c,
                ..
            },
        ) => pc@ == cc@ && pr@ == cr@ && pf == cf && p@ == c@,
        (
            TwoRealPreviewLoopSlotVisualIdentity::MissingDecodedPixels { client_id: pc, run_id: pr, frame_id: pf, .. },
            TwoRealPreviewLoopSlotVisualIdentity::MissingDecodedPixels { client_id: cc, run_id: cr, frame_id: cf, .. },
        ) => pc@ == cc@ && pr@ == cr@ && pf == cf,
        _ => false,
    }
}

/// Whether two slots show the same picture.
pub fn two_real_preview_loop_slot_visual_identity_render_eq(
    previous: &TwoRealPreviewLoopSlotVisualIdentity,
    current: &TwoRealPreviewLoopSlotVisualIdentity,
) -> (r: bool)
    ensures
        r == visual_render_eq(*previous, *current),
{
    match (previous, current) {
        (
            TwoRealPreviewLoopSlotVisualIdentity::SourceFrame { client_id: pc, run_id: pr, frame_id: pf, .. },
            TwoRealPreviewLoopSlotVisualIdentity::SourceFrame { client_id: cc, run_id: cr, frame_id: cf, .. },
        ) => str_eq(pc.as_str(), cc.as_str()) && str_eq(pr.as_str(), cr.as_str()) && *pf == *cf,
        (
            TwoRealPreviewLoopSlotVisualIdentity::NoDisplayPlaceholder { reason: p },
            TwoRealPreviewLoopSlotVisualIdentity::NoDisplayPlaceholder { reason: c },
        ) => str_eq(p.as_str(), c.as_str()),
        (
            TwoRealPreviewLoopSlotVisualIdentity::SourceErrorPlaceholder { reason: p },
            TwoRealPreviewLoopSlotVisualIdentity::SourceErrorPlaceholder { reason: c },
        ) => str_eq(p.as_str(), c.as_str()),
        (
            TwoRealPreviewLoopSlotVisualIdentity::DecodeDeferredPlaceholder {
                client_id: pc,
                run_id: pr,
                frame_id: pf,
                reason: p,
                ..
            },
            TwoRealPreviewLoopSlotVisualIdentity::DecodeDeferredPlaceholder {
                client_id: cc,
                run_id: cr,
                frame_id: cf,
                reason: c,
                ..
            },
        ) => str_eq(pc.as_str(), cc.as_str()) && str_eq(pr.as_str(), cr.as_str()) && *pf == *cf
            && str_eq(p.as_str(), c.as_str()),
        (
            TwoRealPreviewLoopSlotVisualIdentity::DecodeFailedPlaceholder {
                client_id: pc,
                run_id: pr,
                frame_id: pf,
                failure: p,
                ..
            },
            TwoRealPreviewLoopSlotVisualIdentity::DecodeFailedPlaceholder {
                client_id: cc,
                run_id: cr,
                frame_id: cf,
                failure: c,
                ..
            },
        ) => str_eq(pc.as_str(), cc.as_str()) && str_eq(pr.as_str(), cr.as_str()) && *pf == *cf
            && str_eq(p.as_str(), c.as_str()),
        (
            TwoRealPreviewLoopSlotVisualIdentity::MissingDecodedPixels { client_id: pc, run_id: pr, frame_id: pf, .. },
            TwoRealPreviewLoopSlotVisualIdentity::MissingDecodedPixels { client_id: cc, run_id: cr, frame_id: cf, .. },
        ) => str_eq(pc.as_str(), cc.as_str()) && str_eq(pr.as_str(), cr.as_str()) && *pf == *cf,
        _ => false,
    }
}

/// Whether all four slots show the same pictures as before.
pub fn two_real_preview_loop_visual_identities_render_equal(
    previous: &[TwoRealPreviewLoopSlotVisualIdentity; 4],
    current: &[TwoRealPreviewLoopSlotVisualIdentity; 4],
) -> (r: bool)
    ensures
        r == (forall|i: int| 0 <= i < 4 ==> visual_render_eq(#[trigger] previous@[i], current@[i])),
{
    let mut i: usize = 0;
    while i < 4
        invariant
            0 <= i <= 4,
            forall|k: int| 0 <= k < i ==> visual_render_eq(#[trigger] previous@[k], current@[k]),
        decreases 4 - i,
    {
        if !two_real_preview_loop_slot_visual_identity_render_eq(&previous[i], &current[i]) {
            return false;
        }
        i = i + 1;
    }
    true
}

/// Whether two slots hold the very same identity, payload source included.
pub open spec fn visual_identical(
    a: TwoRealPreviewLoopSlotVisualIdentity,
    b: TwoRealPreviewLoopSlotVisualIdentity,
) -> bool {
    match (a, b) {
        (
            TwoRealPreviewLoopSlotVisualIdentity::SourceFrame { client_id: ac, run_id: ar, frame_id: af, selected_frame_source: asrc },
            TwoRealPreviewLoopSlotVisualIdentity::SourceFrame { client_id: bc, run_id: br, frame_id: bf, selected_frame_source: bsrc },
        ) => ac@ == bc@ && ar@ == br@ && af == bf && opt_text_eq(asrc, bsrc),
        (
            TwoRealPreviewLoopSlotVisualIdentity::MissingDecodedPixels { client_id: ac, run_id: ar, frame_id: af, selected_frame_source: asrc },
            TwoRealPreviewLoopSlotVisualIdentity::MissingDecodedPixels { client_id: bc, run_id: br, frame_id: bf, selected_frame_source: bsrc },
        ) => ac@ == bc@ && ar@ == br@ && af == bf && opt_text_eq(asrc, bsrc),
        (
            TwoRealPreviewLoopSlotVisualIdentity::DecodeDeferredPlaceholder {
                client_id: ac,
                run_id: ar,
                frame_id: af,
                selected_frame_source: asrc,
                reason: ax,
            },
            TwoRealPreviewLoopSlotVisualIdentity::DecodeDeferredPlaceholder {
                client_id: bc,
                run_id: br,
                frame_id: bf,
                selected_frame_source: bsrc,
                reason: bx,
            },
        ) => ac@ == bc@ && ar@ == br@ && af == bf && opt_text_eq(asrc, bsrc) && ax@ == bx@,
        (
            TwoRealPreviewLoopSlotVisualIdentity::DecodeFailedPlaceholder {
                client_id: ac,
                run_id: ar,
                frame_id: af,
                selected_frame_source: asrc,
                failure: ax,
            },
            TwoRealPreviewLoopSlotVisualIdentity::DecodeFailedPlaceholder {
                client_id: bc,
                run_id: br,
                frame_id: bf,
                selected_frame_source: bsrc,
                failure: bx,
            },
        ) => ac@ == bc@ && ar@ == br@ && af == bf && opt_text_eq(asrc, bsrc) && ax@ == bx@,
        _ => visual_render_eq(a, b),
    }
}

fn two_real_visual_identical(
    a: &TwoRealPreviewLoopSlotVisualIdentity,
    b: &TwoRealPreviewLoopSlotVisualIdentity,
) -> (r: bool)
    ensures
        r == visual_identical(*a, *b),
{
    match (a, b) {
        (
            TwoRealPreviewLoopSlotVisualIdentity::SourceFrame { client_id: ac, run_id: ar, frame_id: af, selected_frame_source: asrc },
            TwoRealPreviewLoopSlotVisualIdentity::SourceFrame { client_id: bc, run_id: br, frame_id: bf, selected_frame_source: bsrc },
        ) => str_eq(ac.as_str(), bc.as_str()) && str_eq(ar.as_str(), br.as_str()) && *af == *bf
            && opt_str_eq(asrc, bsrc),
        (
            TwoRealPreviewLoopSlotVisualIdentity::MissingDecodedPixels { client_id: ac, run_id: ar, frame_id: af, selected_frame_source: asrc },
            TwoRealPreviewLoopSlotVisualIdentity::MissingDecodedPixels { client_id: bc, run_id: br, frame_id: bf, selected_frame_source: bsrc },
        ) => str_eq(ac.as_str(), bc.as_str()) && str_eq(ar.as_str(), br.as_str()) && *af == *bf
            && opt_str_eq(asrc, bsrc),
        (
            TwoRealPreviewLoopSlotVisualIdentity::DecodeDeferredPlaceholder {
                client_id: ac,
                run_id: ar,
                frame_id: af,
                selected_frame_source: asrc,
                reason: ax,
            },
            TwoRealPreviewLoopSlotVisualIdentity::DecodeDeferredPlaceholder {
                client_id: bc,
                run_id: br,
                frame_id: bf,
                selected_frame_source: bsrc,
                reason: bx,
            },
        ) => str_eq(ac.as_str(), bc.as_str()) && str_eq(ar.as_str(), br.as_str()) && *af == *bf
            && opt_str_eq(asrc, bsrc) && str_eq(ax.as_str(), bx.as_str()),
        (
            TwoRealPreviewLoopSlotVisualIdentity::DecodeFailedPlaceholder {
                client_id: ac,
                run_id: ar,
                frame_id: af,
                selected_frame_source: asrc,
                failure: ax,
            },
            TwoRealPreviewLoopSlotVisualIdentity::DecodeFailedPlaceholder {
                client_id: bc,
                run_id: br,
                frame_id: bf,
                selected_frame_source: bsrc,
                failure: bx,
            },
        ) => str_eq(ac.as_str(), bc.as_str()) && str_eq(ar.as_str(), br.as_str()) && *af == *bf
            && opt_str_eq(asrc, bsrc) && str_eq(ax.as_str(), bx.as_str()),
        _ => two_real_preview_loop_slot_visual_identity_render_eq(a, b),
    }
}

/// The frame number a slot shows, for the kinds that show a frame.
pub open spec fn visual_frame_id(identity: TwoRealPreviewLoopSlotVisualIdentity) -> Option<u64> {
    match identity {
        TwoRealPreviewLoopSlotVisualIdentity::SourceFrame { frame_id, .. } => Some(frame_id),
        TwoRealPreviewLoopSlotVisualIdentity::DecodeDeferredPlaceholder { frame_id, .. } => Some(
            frame_id,
        ),
        TwoRealPreviewLoopSlotVisualIdentity::DecodeFailedPlaceholder { frame_id, .. } => Some(
            frame_id,
        ),
        TwoRealPreviewLoopSlotVisualIdentity::MissingDecodedPixels { frame_id, .. } => Some(
            frame_id,
        ),
        _ => None,
    }
}

/// The frame number a slot shows, if it shows one.
pub fn two_real_preview_loop_visual_identity_frame_id(
    identity: &TwoRealPreviewLoopSlotVisualIdentity,
) -> (r: Option<u64>)
    ensures
        r == visual_frame_id(*identity),
{
    match identity {
        TwoRealPreviewLoopSlotVisualIdentity::SourceFrame { frame_id, .. } => Some(*frame_id),
        TwoRealPreviewLoopSlotVisualIdentity::DecodeDeferredPlaceholder { frame_id, .. } => Some(
            *frame_id,
        ),
        TwoRealPreviewLoopSlotVisualIdentity::DecodeFailedPlaceholder { frame_id, .. } => Some(
            *frame_id,
        ),
        TwoRealPreviewLoopSlotVisualIdentity::MissingDecodedPixels { frame_id, .. } => Some(
            *frame_id,
        ),
        _ => None,
    }
}

/// Where the payload of the frame a slot shows came from, if known.
pub open spec fn visual_selected_source(identity: TwoRealPreviewLoopSlotVisualIdentity) -> Option<
    String,
> {
    match identity {
        TwoRealPreviewLoopSlotVisualIdentity::SourceFrame { selected_frame_source, .. } =>
            selected_frame_source,
        TwoRealPreviewLoopSlotVisualIdentity::DecodeDeferredPlaceholder {
            selected_frame_source,
            ..
        } => selected_frame_source,
        TwoRealPreviewLoopSlotVisualIdentity::DecodeFailedPlaceholder {
            selected_frame_source,
            ..
        } => selected_frame_source,
        TwoRealPreviewLoopSlotVisualIdentity::MissingDecodedPixels { selected_frame_source, .. } =>
            selected_frame_source,
        _ => None,
    }
}

/// Where the payload of the frame a slot shows came from, if known.
pub fn two_real_preview_loop_visual_identity_selected_source(
    identity: &TwoRealPreviewLoopSlotVisualIdentity,
) -> (r: Option<&str>)
    ensures
        match visual_selected_source(*identity) {
            Some(s) => r matches Some(t) && t@ == s@,
            None => r is None,
        },
{
    let source = match identity {
        TwoRealPreviewLoopSlotVisualIdentity::SourceFrame { selected_frame_source, .. } =>
            selected_frame_source,
        TwoRealPreviewLoopSlotVisualIdentity::DecodeDeferredPlaceholder {
            selected_frame_source,
            ..
        } => selected_frame_source,
        TwoRealPreviewLoopSlotVisualIdentity::DecodeFailedPlaceholder {
            selected_frame_source,
            ..
        } => selected_frame_source,
        TwoRealPreviewLoopSlotVisualIdentity::MissingDecodedPixels { selected_frame_source, .. } =>
            selected_frame_source,
        _ => {
            return None;
        },
    };
    match source {
        Some(s) => Some(s.as_str()),
        None => None,
    }
}

/// Whether a slot shows anything but a source frame.
pub open spec fn visual_is_placeholder(identity: TwoRealPreviewLoopSlotVisualIdentity) -> bool {
    !(identity is SourceFrame)
}

/// Whether a slot shows anything but a source frame.
pub fn two_real_preview_loop_visual_identity_is_placeholder(
    identity: &TwoRealPreviewLoopSlotVisualIdentity,
) -> (r: bool)
    ensures
        r == visual_is_placeholder(*identity),
{
    match identity {
        TwoRealPreviewLoopSlotVisualIdentity::SourceFrame { .. } => false,
        _ => true,
    }
}

/// Whether slot `i` must be drawn anew: always on the first tick, and after
/// that when its picture changed.
pub open spec fn slot_changed(
    previous: Option<[TwoRealPreviewLoopSlotVisualIdentity; 4]>,
    current: [TwoRealPreviewLoopSlotVisualIdentity; 4],
    i: int,
) -> bool {
    match previous {
        Some(p) => !visual_render_eq(p@[i], current@[i]),
        None => true,
    }
}

/// Which slots show a different picture than on the previous tick; every
/// slot counts as changed when there was no previous tick.
pub fn two_real_preview_loop_changed_visual_slots(
    previous_visual_identities: Option<&[TwoRealPreviewLoopSlotVisualIdentity; 4]>,
    current_visual_identities: &[TwoRealPreviewLoopSlotVisualIdentity; 4],
) -> (r: [bool; 4])
    ensures
        forall|i: int|
            0 <= i < 4 ==> #[trigger] r@[i] == slot_changed(
                match previous_visual_identities {
                    Some(p) => Some(*p),
                    None => None,
                },
                *current_visual_identities,
                i,
            ),
{
    let mut r = [true, true, true, true];
    match previous_visual_identities {
        None => {},
        Some(previous) => {
            let mut i: usize = 0;
            while i < 4
                invariant
                    0 <= i <= 4,
                    forall|k: int|
                        0 <= k < i ==> #[trigger] r@[k] == !visual_render_eq(
                            previous@[k],
                            current_visual_identities@[k],
                        ),
                decreases 4 - i,
            {
                r[i] = !two_real_preview_loop_slot_visual_identity_render_eq(
                    &previous[i],
                    &current_visual_identities[i],
                );
                i = i + 1;
            }
        },
    }
    r
}

/// Per-slot counts of what changed between two ticks.
#[derive(Debug, Clone, Copy, PartialEq, Eq)]
pub struct TwoRealPreviewLoopVisualChangeDiagnostics {
    pub frame_id_changed_counts: [u32; 4],
    pub selected_source_changed_counts: [u32; 4],
    pub placeholder_visual_changed_count: u32,
}

/// Whether slot `i` changed its frame number: both ticks show a frame and
/// the numbers differ.
pub open spec fn frame_id_changed(
    previous: TwoRealPreviewLoopSlotVisualIdentity,
    current: TwoRealPreviewLoopSlotVisualIdentity,
) -> bool {
    !visual_identical(previous, current) && visual_frame_id(previous) is Some && visual_frame_id(
        current,
    ) is Some && visual_frame_id(previous) != visual_frame_id(current)
}

/// Whether the payload source of a slot's frame changed.
pub open spec fn selected_source_changed(
    previous: TwoRealPreviewLoopSlotVisualIdentity,
    current: TwoRealPreviewLoopSlotVisualIdentity,
) -> bool {
    !visual_identical(previous, current) && !opt_text_eq(
        visual_selected_source(previous),
        visual_selected_source(current),
    )
}

/// Whether a slot's picture changed to, from or between placeholders.
pub open spec fn placeholder_changed(
    previous: TwoRealPreviewLoopSlotVisualIdentity,
    current: TwoRealPreviewLoopSlotVisualIdentity,
) -> bool {
    !visual_identical(previous, current) && !visual_render_eq(previous, current) && (
    visual_is_placeholder(previous) || visual_is_placeholder(current))
}

/// How many of the first `n` slots changed between placeholders.
pub open spec fn placeholder_change_count(
    previous: [TwoRealPreviewLoopSlotVisualIdentity; 4],
    current: [TwoRealPreviewLoopSlotVisualIdentity; 4],
    n: int,
) -> nat
    decreases n,
{
    if n <= 0 {
        0
    } else {
        placeholder_change_count(previous, current, n - 1) + if placeholder_changed(
            previous@[n - 1],
            current@[n - 1],
        ) {
            1nat
        } else {
            0nat
        }
    }
}

/// The change counts between two ticks: for each slot whose identity changed
/// at all, a changed frame number, a changed payload source, and a changed
/// placeholder picture are each counted once. No counts without a previous
/// tick.
pub open spec fn visual_change_diagnostics(
    previous: Option<[TwoRealPreviewLoopSlotVisualIdentity; 4]>,
    current: [TwoRealPreviewLoopSlotVisualIdentity; 4],
    r: TwoRealPreviewLoopVisualChangeDiagnostics,
) -> bool {
    match previous {
        None => r == TwoRealPreviewLoopVisualChangeDiagnostics {
            frame_id_changed_counts: [0, 0, 0, 0],
            selected_source_changed_counts: [0, 0, 0, 0],
            placeholder_visual_changed_count: 0,
        },
        Some(p) => {
            &&& forall|i: int|
                0 <= i < 4 ==> #[trigger] r.frame_id_changed_counts@[i] == if frame_id_changed(
                    p@[i],
                    current@[i],
                ) {
                    1u32
                } else {
                    0u32
                }
            &&& forall|i: int|
                0 <= i < 4 ==> #[trigger] r.selected_source_changed_counts@[i]
                    == if selected_source_changed(p@[i], current@[i]) {
                    1u32
                } else {
                    0u32
                }
            &&& r.placeholder_visual_changed_count == placeholder_change_count(p, current, 4)
        },
    }
}

/// Counts what changed in each slot since the previous tick.
pub fn two_real_preview_loop_visual_change_diagnostics(
    previous_visual_identities: Option<&[TwoRealPreviewLoopSlotVisualIdentity; 4]>,
    current_visual_identities: &[TwoRealPreviewLoopSlotVisualIdentity; 4],
) -> (r: TwoRealPreviewLoopVisualChangeDiagnostics)
    ensures
        visual_change_diagnostics(
            match previous_visual_identities {
                Some(p) => Some(*p),
                None => None,
            },
            *current_visual_identities,
            r,
        ),
{
    let mut diagnostics = TwoRealPreviewLoopVisualChangeDiagnostics {
        frame_id_changed_counts: [0, 0, 0, 0],
        selected_source_changed_counts: [0, 0, 0, 0],
        placeholder_visual_changed_count: 0,
    };
    let previous = match previous_visual_identities {
        None => {
            return diagnostics;
        },
        Some(p) => p,
    };
    let mut i: usize = 0;
    while i < 4
        invariant
            0 <= i <= 4,
            forall|k: int|
                0 <= k < i ==> #[trigger] diagnostics.frame_id_changed_counts@[k]
                    == if frame_id_changed(previous@[k], current_visual_identities@[k]) {
                    1u32
                } else {
                    0u32
                },
            forall|k: int|
                i <= k < 4 ==> #[trigger] diagnostics.frame_id_changed_counts@[k] == 0u32,
            forall|k: int|
                0 <= k < i ==> #[trigger] diagnostics.selected_source_changed_counts@[k]
                    == if selected_source_changed(previous@[k], current_visual_identities@[k]) {
                    1u32
                } else {
                    0u32
                },
            forall|k: int|
                i <= k < 4 ==> #[trigger] diagnostics.selected_source_changed_counts@[k] == 0u32,
            diagnostics.placeholder_visual_changed_count == placeholder_change_count(
                *previous,
                *current_visual_identities,
                i as int,
            ),
            diagnostics.placeholder_visual_changed_count <= i,
        decreases 4 - i,
    {
        let p = &previous[i];
        let c = &current_visual_identities[i];
        if !two_real_visual_identical(p, c) {
            let pf = two_real_preview_loop_visual_identity_frame_id(p);
            let cf = two_real_preview_loop_visual_identity_frame_id(c);
            let frame_changed = match (pf, cf) {
                (Some(a), Some(b)) => a != b,
                _ => false,
            };
            if frame_changed {
                diagnostics.frame_id_changed_counts[i] = 1;
            }
            let ps = two_real_preview_loop_visual_identity_selected_source(p);
            let cs = two_real_preview_loop_visual_identity_selected_source(c);
            let source_same = match (ps, cs) {
                (Some(a), Some(b)) => str_eq(a, b),
                (None, None) => true,
                _ => false,
            };
            if !source_same {
                diagnostics.selected_source_changed_counts[i] = 1;
            }
            if !two_real_preview_loop_slot_visual_identity_render_eq(p, c) && (
            two_real_preview_loop_visual_identity_is_placeholder(p)
                || two_real_preview_loop_visual_identity_is_placeholder(c)) {
                diagnostics.placeholder_visual_changed_count = diagnostics.placeholder_visual_changed_count
                    + 1;
            }
        }
        i = i + 1;
    }
    diagnostics
}

/// Why a tick of the two-real preview loop drew its output anew.
#[derive(Debug, Clone, Copy, PartialEq, Eq, Structural)]
pub enum TwoRealPreviewLoopMaterializationReason {
    FirstRender,
    VisualChanged,
    PreviousOutputMissing,
    ProfileOrSizeMismatch,
    ForceRender,
    Unknown,
}

/// Why a tick drew its output: the first attempt always does; then a missing
/// previous output, a changed picture, and a previous output that was not
/// rendered are the reasons, in that order. `previous_output_rendered` is
/// `None` when there is no previous output, else whether it was rendered.
pub open spec fn materialization_reason(
    frames_attempted_before_increment: u32,
    previous_output_rendered: Option<bool>,
    visual_unchanged: bool,
) -> TwoRealPreviewLoopMaterializationReason {
    if frames_attempted_before_increment == 0 {
        TwoRealPreviewLoopMaterializationReason::FirstRender
    } else if previous_output_rendered is None {
        TwoRealPreviewLoopMaterializationReason::PreviousOutputMissing
    } else if !visual_unchanged {
        TwoRealPreviewLoopMaterializationReason::VisualChanged
    } else if previous_output_rendered == Some(false) {
        TwoRealPreviewLoopMaterializationReason::ForceRender
    } else {
        TwoRealPreviewLoopMaterializationReason::Unknown
    }
}

/// Classifies why a tick drew its output.
pub fn classify_two_real_preview_loop_materialization_reason(
    frames_attempted_before_increment: u32,
    previous_output_rendered: Option<bool>,
    visual_unchanged: bool,
) -> (r: TwoRealPreviewLoopMaterializationReason)
    ensures
        r == materialization_reason(
            frames_attempted_before_increment,
            previous_output_rendered,
            visual_unchanged,
        ),
{
    if frames_attempted_before_increment == 0 {
        return TwoRealPreviewLoopMaterializationReason::FirstRender;
    }
    let rendered = match previous_output_rendered {
        None => {
            return TwoRealPreviewLoopMaterializationReason::PreviousOutputMissing;
        },
        Some(rendered) => rendered,
    };
    if !visual_unchanged {
        return TwoRealPreviewLoopMaterializationReason::VisualChanged;
    }
    if !rendered {
        return TwoRealPreviewLoopMaterializationReason::ForceRender;
    }
    TwoRealPreviewLoopMaterializationReason::Unknown
}

/// Whether two decoded-frame identities name the same frame (their payload
/// sources aside); an absent identity matches nothing.
pub open spec fn decoded_identity_render_eq(
    previous: Option<TwoRealPreviewLoopDecodedSlotIdentity>,
    current: Option<TwoRealPreviewLoopDecodedSlotIdentity>,
) -> bool {
    match (previous, current) {
        (Some(p), Some(c)) => p.client_id@ == c.client_id@ && p.run_id@ == c.run_id@ && p.frame_id
            == c.frame_id,
        _ => false,
    }
}

/// Whether two decoded-frame identities name the same frame.
pub fn two_real_preview_loop_decoded_slot_identity_render_eq(
    previous: Option<&TwoRealPreviewLoopDecodedSlotIdentity>,
    current: Option<&TwoRealPreviewLoopDecodedSlotIdentity>,
) -> (r: bool)
    ensures
        r == decoded_identity_render_eq(
            match previous {
                Some(p) => Some(*p),
                None => None,
            },
            match current {
                Some(c) => Some(*c),
                None => None,
            },
        ),
{
    match (previous, current) {
        (Some(p), Some(c)) => str_eq(p.client_id.as_str(), c.client_id.as_str()) && str_eq(
            p.run_id.as_str(),
            c.run_id.as_str(),
        ) && p.frame_id == c.frame_id,
        _ => false,
    }
}

/// Which slots draw a newly decoded frame that is the frame they drew
/// before, so that its decoding could have been reused.
pub fn two_real_unchanged_frame_reuse_slots(
    previous_identities: &[Option<TwoRealPreviewLoopDecodedSlotIdentity>; 4],
    current_identities: &[Option<TwoRealPreviewLoopDecodedSlotIdentity>; 4],
    slots: &[TwoRealQuadRenderSlot; 4],
) -> (r: [bool; 4])
    ensures
        forall|i: int|
            0 <= i < 4 ==> #[trigger] r@[i] == (decoded_identity_render_eq(
                previous_identities@[i],
                current_identities@[i],
            ) && slots@[i] is UpdatedFrame),
{
    let mut r = [false, false, false, false];
    let mut i: usize = 0;
    while i < 4
        invariant
            0 <= i <= 4,
            forall|k: int|
                0 <= k < i ==> #[trigger] r@[k] == (decoded_identity_render_eq(
                    previous_identities@[k],
                    current_identities@[k],
                ) && slots@[k] is UpdatedFrame),
        decreases 4 - i,
    {
        let same = two_real_preview_loop_decoded_slot_identity_render_eq(
            previous_identities[i].as_ref(),
            current_identities[i].as_ref(),
        );
        let updated = match &slots[i] {
            TwoRealQuadRenderSlot::UpdatedFrame { .. } => true,
            _ => false,
        };
        r[i] = same && updated;
        i = i + 1;
    }
    r
}

/// How many of the first `n` flags are set.
pub open spec fn set_count(flags: [bool; 4], n: int) -> nat
    decreases n,
{
    if n <= 0 {
        0
    } else {
        set_count(flags, n - 1) + if flags@[n - 1] {
            1nat
        } else {
            0nat
        }
    }
}

/// How many slots could reuse their decoded frame.
pub fn two_real_unchanged_frame_reuse_count(unchanged_frame_reuse_slots: &[bool; 4]) -> (r: u32)
    ensures
        r == set_count(*unchanged_frame_reuse_slots, 4),
{
    let mut count: u32 = 0;
    let mut i: usize = 0;
    while i < 4
        invariant
            0 <= i <= 4,
            count == set_count(*unchanged_frame_reuse_slots, i as int),
            count <= i,
        decreases 4 - i,
    {
        if unchanged_frame_reuse_slots[i] {
            count = count + 1;
        }
        i = i + 1;
    }
    count
}

pub(crate) fn clone_text(s: &String) -> (r: String)
    ensures
        r@ == s@,
{
    owned(s.as_str())
}

pub(crate) fn clone_opt_text(s: &Option<String>) -> (r: Option<String>)
    ensures
        opt_view(r) == opt_view(*s),
{
    match s {
        Some(t) => Some(clone_text(t)),
        None => None,
    }
}

/// A decoded-frame identity with its texts as character sequences.
pub struct DecodedIdentityView {
    pub client_id: Seq<char>,
    pub run_id: Seq<char>,
    pub frame_id: u64,
    pub decodable_source: Option<Seq<char>>,
}

impl View for TwoRealPreviewLoopDecodedSlotIdentity {
    type V = DecodedIdentityView;

    open spec fn view(&self) -> DecodedIdentityView {
        DecodedIdentityView {
            client_id: self.client_id@,
            run_id: self.run_id@,
            frame_id: self.frame_id,
            decodable_source: opt_view(self.decodable_source),
        }
    }
}

/// An optional decoded-frame identity by its view.
pub open spec fn opt_identity_view(o: Option<TwoRealPreviewLoopDecodedSlotIdentity>) -> Option<
    DecodedIdentityView,
> {
    match o {
        Some(i) => Some(i@),
        None => None,
    }
}

fn clone_identity(i: &TwoRealPreviewLoopDecodedSlotIdentity) -> (r:
    TwoRealPreviewLoopDecodedSlotIdentity)
    ensures
        r@ == i@,
{
    TwoRealPreviewLoopDecodedSlotIdentity {
        client_id: clone_text(&i.client_id),
        run_id: clone_text(&i.run_id),
        frame_id: i.frame_id,
        decodable_source: clone_opt_text(&i.decodable_source),
    }
}

fn clone_opt_identity(o: &Option<TwoRealPreviewLoopDecodedSlotIdentity>) -> (r: Option<
    TwoRealPreviewLoopDecodedSlotIdentity,
>)
    ensures
        opt_identity_view(r) == opt_identity_view(*o),
{
    match o {
        Some(i) => Some(clone_identity(i)),
        None => None,
    }
}

/// A slot's picture with its texts as character sequences.
pub enum VisualIdentityView {
    SourceFrame {
        client_id: Seq<char>,
        run_id: Seq<char>,
        frame_id: u64,
        selected_frame_source: Option<Seq<char>>,
    },
    NoDisplayPlaceholder { reason: Seq<char> },
    SourceErrorPlaceholder { reason: Seq<char> },
    DecodeDeferredPlaceholder {
        client_id: Seq<char>,
        run_id: Seq<char>,
        frame_id: u64,
        selected_frame_source: Option<Seq<char>>,
        reason: Seq<char>,
    },
    DecodeFailedPlaceholder {
        client_id: Seq<char>,
        run_id: Seq<char>,
        frame_id: u64,
        selected_frame_source: Option<Seq<char>>,
        failure: Seq<char>,
    },
    MissingDecodedPixels {
        client_id: Seq<char>,
        run_id: Seq<char>,
        frame_id: u64,
        selected_frame_source: Option<Seq<char>>,
    },
}

impl View for TwoRealPreviewLoopSlotVisualIdentity {
    type V = VisualIdentityView;

    open spec fn view(&self) -> VisualIdentityView {
        match self {
            TwoRealPreviewLoopSlotVisualIdentity::SourceFrame {
                client_id,
                run_id,
                frame_id,
                selected_frame_source,
            } => VisualIdentityView::SourceFrame {
                client_id: client_id@,
                run_id: run_id@,
                frame_id: *frame_id,
                selected_frame_source: opt_view(*selected_frame_source),
            },
            TwoRealPreviewLoopSlotVisualIdentity::NoDisplayPlaceholder { reason } =>
                VisualIdentityView::NoDisplayPlaceholder { reason: reason@ },
            TwoRealPreviewLoopSlotVisualIdentity::SourceErrorPlaceholder { reason } =>
                VisualIdentityView::SourceErrorPlaceholder { reason: reason@ },
            TwoRealPreviewLoopSlotVisualIdentity::DecodeDeferredPlaceholder {
                client_id,
                run_id,
                frame_id,
                selected_frame_source,
                reason,
            } => VisualIdentityView::DecodeDeferredPlaceholder {
                client_id: client_id@,
                run_id: run_id@,
                frame_id: *frame_id,
                selected_frame_source: opt_view(*selected_frame_source),
                reason: reason@,
            },
            TwoRealPreviewLoopSlotVisualIdentity::DecodeFailedPlaceholder {
                client_id,
                run_id,
                frame_id,
                selected_frame_source,
                failure,
            } => VisualIdentityView::DecodeFailedPlaceholder {
                client_id: client_id@,
                run_id: run_id@,
                frame_id: *frame_id,
                selected_frame_source: opt_view(*selected_frame_source),
                failure: failure@,
            },
            TwoRealPreviewLoopSlotVisualIdentity::MissingDecodedPixels {
                client_id,
                run_id,
                frame_id,
                selected_frame_source,
            } => VisualIdentityView::MissingDecodedPixels {
                client_id: client_id@,
                run_id: run_id@,
                frame_id: *frame_id,
                selected_frame_source: opt_view(*selected_frame_source),
            },
        }
    }
}

/// The frame a displayed slot is said to show: the decoded frame's identity
/// when there is one, else the scheduler's frame with no payload source,
/// else an unknown frame numbered 0.
pub open spec fn identity_parts(
    selected: Option<TwoRealSelectedFrame>,
    decoded_identity: Option<TwoRealPreviewLoopDecodedSlotIdentity>,
) -> (Seq<char>, Seq<char>, u64, Option<Seq<char>>) {
    match decoded_identity {
        Some(i) => (i.client_id@, i.run_id@, i.frame_id, opt_view(i.decodable_source)),
        None => match selected {
            Some(f) => (f.client_id@, f.run_id@, f.frame_id, None),
            None => ("unknown-client"@, "unknown-run"@, 0, None),
        },
    }
}

/// Works out the frame a displayed slot is said to show.
pub fn two_real_preview_loop_displayed_frame_identity_parts(
    selected: Option<&TwoRealSelectedFrame>,
    decoded_identity: Option<&TwoRealPreviewLoopDecodedSlotIdentity>,
) -> (r: (String, String, u64, Option<String>))
    ensures
        (r.0@, r.1@, r.2, opt_view(r.3)) == identity_parts(
            match selected {
                Some(f) => Some(*f),
                None => None,
            },
            match decoded_identity {
                Some(i) => Some(*i),
                None => None,
            },
        ),
{
    if let Some(identity) = decoded_identity {
        return (
            clone_text(&identity.client_id),
            clone_text(&identity.run_id),
            identity.frame_id,
            clone_opt_text(&identity.decodable_source),
        );
    }
    if let Some(frame) = selected {
        return (clone_text(&frame.client_id), clone_text(&frame.run_id), frame.frame_id, None);
    }
    (owned("unknown-client"), owned("unknown-run"), 0, None)
}

/// The payload source of a decoded identity, if any.
pub open spec fn identity_source(
    decoded_identity: Option<TwoRealPreviewLoopDecodedSlotIdentity>,
) -> Option<Seq<char>> {
    match decoded_identity {
        Some(i) => opt_view(i.decodable_source),
        None => None,
    }
}

/// The picture a slot shows, given its decoded-frame identity.
pub open spec fn slot_visual_identity(
    decoded_identity: Option<TwoRealPreviewLoopDecodedSlotIdentity>,
    slot: TwoRealQuadRenderSlot,
) -> VisualIdentityView {
    match slot {
        TwoRealQuadRenderSlot::UpdatedFrame { selected, .. } => {
            let (c, r, f, src) = identity_parts(selected, decoded_identity);
            VisualIdentityView::SourceFrame {
                client_id: c,
                run_id: r,
                frame_id: f,
                selected_frame_source: src,
            }
        },
        TwoRealQuadRenderSlot::HeldPreviousFrame { selected, .. } => {
            let (c, r, f, src) = identity_parts(selected, decoded_identity);
            VisualIdentityView::SourceFrame {
                client_id: c,
                run_id: r,
                frame_id: f,
                selected_frame_source: src,
            }
        },
        TwoRealQuadRenderSlot::HeldPreviousFrameWithoutDecoded { selected } => {
            let (c, r, f, src) = identity_parts(selected, decoded_identity);
            VisualIdentityView::MissingDecodedPixels {
                client_id: c,
                run_id: r,
                frame_id: f,
                selected_frame_source: src,
            }
        },
        TwoRealQuadRenderSlot::NoDisplayPlaceholder { reason } =>
            VisualIdentityView::NoDisplayPlaceholder { reason: reason@ },
        TwoRealQuadRenderSlot::SourceErrorPlaceholder { reason } =>
            VisualIdentityView::SourceErrorPlaceholder { reason: reason@ },
        TwoRealQuadRenderSlot::DecodeDeferredPlaceholder { selected, reason } =>
            VisualIdentityView::DecodeDeferredPlaceholder {
                client_id: selected.client_id@,
                run_id: selected.run_id@,
                frame_id: selected.frame_id,
                selected_frame_source: identity_source(decoded_identity),
                reason: reason@,
            },
        TwoRealQuadRenderSlot::DecodeFailedPlaceholder { selected, failure } =>
            VisualIdentityView::DecodeFailedPlaceholder {
                client_id: selected.client_id@,
                run_id: selected.run_id@,
                frame_id: selected.frame_id,
                selected_frame_source: identity_source(decoded_identity),
                failure: failure.message@,
            },
    }
}

fn identity_source_text(decoded_identity: Option<&TwoRealPreviewLoopDecodedSlotIdentity>) -> (r:
    Option<String>)
    ensures
        opt_view(r) == identity_source(
            match decoded_identity {
                Some(i) => Some(*i),
                None => None,
            },
        ),
{
    match decoded_identity {
        Some(i) => clone_opt_text(&i.decodable_source),
        None => None,
    }
}

/// Works out the picture a slot shows.
pub fn two_real_preview_loop_slot_visual_identity(
    decoded_identity: Option<&TwoRealPreviewLoopDecodedSlotIdentity>,
    slot: &TwoRealQuadRenderSlot,
) -> (r: TwoRealPreviewLoopSlotVisualIdentity)
    ensures
        r@ == slot_visual_identity(
            match decoded_identity {
                Some(i) => Some(*i),
                None => None,
            },
            *slot,
        ),
{
    match slot {
        TwoRealQuadRenderSlot::UpdatedFrame { selected, .. } => {
            let (client_id, run_id, frame_id, selected_frame_source) =
                two_real_preview_loop_displayed_frame_identity_parts(selected.as_ref(), decoded_identity);
            TwoRealPreviewLoopSlotVisualIdentity::SourceFrame {
                client_id,
                run_id,
                frame_id,
                selected_frame_source,
            }
        },
        TwoRealQuadRenderSlot::HeldPreviousFrame { selected, .. } => {
            let (client_id, run_id, frame_id, selected_frame_source) =
                two_real_preview_loop_displayed_frame_identity_parts(selected.as_ref(), decoded_identity);
            TwoRealPreviewLoopSlotVisualIdentity::SourceFrame {
                client_id,
                run_id,
                frame_id,
                selected_frame_source,
            }
        },
        TwoRealQuadRenderSlot::HeldPreviousFrameWithoutDecoded { selected } => {
            let (client_id, run_id, frame_id, selected_frame_source) =
                two_real_preview_loop_displayed_frame_identity_parts(selected.as_ref(), decoded_identity);
            TwoRealPreviewLoopSlotVisualIdentity::MissingDecodedPixels {
                client_id,
                run_id,
                frame_id,
                selected_frame_source,
            }
        },
        TwoRealQuadRenderSlot::NoDisplayPlaceholder { reason } =>
            TwoRealPreviewLoopSlotVisualIdentity::NoDisplayPlaceholder { reason: clone_text(reason) },
        TwoRealQuadRenderSlot::SourceErrorPlaceholder { reason } =>
            TwoRealPreviewLoopSlotVisualIdentity::SourceErrorPlaceholder {
                reason: clone_text(reason),
            },
        TwoRealQuadRenderSlot::DecodeDeferredPlaceholder { selected, reason } =>
            TwoRealPreviewLoopSlotVisualIdentity::DecodeDeferredPlaceholder {
                client_id: clone_text(&selected.client_id),
                run_id: clone_text(&selected.run_id),
                frame_id: selected.frame_id,
                selected_frame_source: identity_source_text(decoded_identity),
                reason: clone_text(reason),
            },
        TwoRealQuadRenderSlot::DecodeFailedPlaceholder { selected, failure } =>
            TwoRealPreviewLoopSlotVisualIdentity::DecodeFailedPlaceholder {
                client_id: clone_text(&selected.client_id),
                run_id: clone_text(&selected.run_id),
                frame_id: selected.frame_id,
                selected_frame_source: identity_source_text(decoded_identity),
                failure: clone_text(&failure.message),
            },
    }
}

/// The pictures of all four slots.
pub fn two_real_preview_loop_visual_identities(
    decoded_identities: &[Option<TwoRealPreviewLoopDecodedSlotIdentity>; 4],
    slots: &[TwoRealQuadRenderSlot; 4],
) -> (r: [TwoRealPreviewLoopSlotVisualIdentity; 4])
    ensures
        forall|i: int|
            0 <= i < 4 ==> #[trigger] r@[i]@ == slot_visual_identity(decoded_identities@[i], slots@[i]),
{
    let a = two_real_preview_loop_slot_visual_identity(decoded_identities[0].as_ref(), &slots[0]);
    let b = two_real_preview_loop_slot_visual_identity(decoded_identities[1].as_ref(), &slots[1]);
    let c = two_real_preview_loop_slot_visual_identity(decoded_identities[2].as_ref(), &slots[2]);
    let d = two_real_preview_loop_slot_visual_identity(decoded_identities[3].as_ref(), &slots[3]);
    let r = [a, b, c, d];
    assert(r@[0] == a && r@[1] == b && r@[2] == c && r@[3] == d);
    r
}

/// The identity of the frame a slot decoded: the scheduler's frame with the
/// source of its payload, when the scheduler selected one.
pub open spec fn decoded_slot_identity(
    selected: Option<TwoRealSelectedFrame>,
    decodable_source: Option<Seq<char>>,
) -> Option<DecodedIdentityView> {
    match selected {
        Some(f) => Some(
            DecodedIdentityView {
                client_id: f.client_id@,
                run_id: f.run_id@,
                frame_id: f.frame_id,
                decodable_source,
            },
        ),
        None => None,
    }
}

/// Names the frame a slot decoded.
pub fn two_real_decoded_slot_identity(
    selected: Option<&TwoRealSelectedFrame>,
    decodable_source: Option<&str>,
) -> (r: Option<TwoRealPreviewLoopDecodedSlotIdentity>)
    ensures
        opt_identity_view(r) == decoded_slot_identity(
            match selected {
                Some(f) => Some(*f),
                None => None,
            },
            match decodable_source {
                Some(s) => Some(s@),
                None => None,
            },
        ),
{
    let frame = match selected {
        Some(f) => f,
        None => {
            return None;
        },
    };
    Some(
        TwoRealPreviewLoopDecodedSlotIdentity {
            client_id: clone_text(&frame.client_id),
            run_id: clone_text(&frame.run_id),
            frame_id: frame.frame_id,
            decodable_source: match decodable_source {
                Some(s) => Some(owned(s)),
                None => None,
            },
        },
    )
}

/// The decoded-frame identity a slot keeps after a tick: a slot that drew a
/// newly decoded frame takes that frame's identity when the scheduler
/// selected one; every other slot keeps the identity it had.
pub open spec fn next_decoded_identity(
    current: Option<TwoRealPreviewLoopDecodedSlotIdentity>,
    selected: Option<TwoRealSelectedFrame>,
    decodable_source: Option<String>,
    slot: TwoRealQuadRenderSlot,
) -> Option<DecodedIdentityView> {
    if (slot matches TwoRealQuadRenderSlot::UpdatedFrame { has_decoded, .. } && has_decoded)
        && selected is Some {
        decoded_slot_identity(selected, opt_view(decodable_source))
    } else {
        opt_identity_view(current)
    }
}

fn next_slot_identity(
    current: &Option<TwoRealPreviewLoopDecodedSlotIdentity>,
    selected: &Option<TwoRealSelectedFrame>,
    decodable_source: &Option<String>,
    slot: &TwoRealQuadRenderSlot,
) -> (r: Option<TwoRealPreviewLoopDecodedSlotIdentity>)
    ensures
        opt_identity_view(r) == next_decoded_identity(*current, *selected, *decodable_source, *slot),
{
    let fresh = match slot {
        TwoRealQuadRenderSlot::UpdatedFrame { has_decoded, .. } => *has_decoded,
        _ => false,
    };
    if fresh {
        let source = match decodable_source {
            Some(s) => Some(s.as_str()),
            None => None,
        };
        match two_real_decoded_slot_identity(selected.as_ref(), source) {
            Some(identity) => Some(identity),
            None => clone_opt_identity(current),
        }
    } else {
        clone_opt_identity(current)
    }
}

/// The decoded-frame identities of the four slots after a tick.
pub fn update_two_real_decoded_slot_identities(
    current_identities: &[Option<TwoRealPreviewLoopDecodedSlotIdentity>; 4],
    scheduler_selected: &[Option<TwoRealSelectedFrame>; 4],
    decodable_sources: &[Option<String>; 4],
    slots: &[TwoRealQuadRenderSlot; 4],
) -> (r: [Option<TwoRealPreviewLoopDecodedSlotIdentity>; 4])
    ensures
        forall|i: int|
            0 <= i < 4 ==> #[trigger] opt_identity_view(r@[i]) == next_decoded_identity(
                current_identities@[i],
                scheduler_selected@[i],
                decodable_sources@[i],
                slots@[i],
            ),
{
    let a = next_slot_identity(&current_identities[0], &scheduler_selected[0], &decodable_sources[0], &slots[0]);
    let b = next_slot_identity(&current_identities[1], &scheduler_selected[1], &decodable_sources[1], &slots[1]);
    let c = next_slot_identity(&current_identities[2], &scheduler_selected[2], &decodable_sources[2], &slots[2]);
    let d = next_slot_identity(&current_identities[3], &scheduler_selected[3], &decodable_sources[3], &slots[3]);
    let r = [a, b, c, d];
    assert(r@[0] == a && r@[1] == b && r@[2] == c && r@[3] == d);
    r
}

/// The counts of one tick of the two-real preview loop.
#[derive(Debug, Clone, Copy, PartialEq, Eq, Structural)]
pub struct TwoRealPreviewLoopTickDiagnostics {
    pub selected_count: u32,
    pub no_frame_count: u32,
    pub handoff_error_count: u32,
    pub decode_attempt_count: u32,
    pub decode_success_count: u32,
    pub render_success_count: u32,
    pub render_failure_count: u32,
}

/// How the clean output of a tick came out: rendered, failed to render, or
/// neither (not ready, or skipped).
#[derive(Debug, Clone, Copy, PartialEq, Eq, Structural)]
pub enum TwoRealCleanOutputRenderOutcome {
    Rendered,
    RenderFailed,
    NotRendered,
}

/// How many of the first `n` slot result kinds are `kind`.
pub open spec fn kind_count(kinds: [String; 4], kind: Seq<char>, n: int) -> nat
    decreases n,
{
    if n <= 0 {
        0
    } else {
        kind_count(kinds, kind, n - 1) + if kinds@[n - 1]@ == kind {
            1nat
        } else {
            0nat
        }
    }
}

/// Whether a slot's frame went through the decoder.
pub open spec fn decode_attempted(slot: TwoRealQuadRenderSlot) -> bool {
    slot is UpdatedFrame || slot is DecodeDeferredPlaceholder || slot is DecodeFailedPlaceholder
}

/// How many of the first `n` slots went through the decoder.
pub open spec fn decode_attempt_count(slots: [TwoRealQuadRenderSlot; 4], n: int) -> nat
    decreases n,
{
    if n <= 0 {
        0
    } else {
        decode_attempt_count(slots, n - 1) + if decode_attempted(slots@[n - 1]) {
            1nat
        } else {
            0nat
        }
    }
}

/// How many of the first `n` slots drew a newly decoded frame.
pub open spec fn decode_success_count(slots: [TwoRealQuadRenderSlot; 4], n: int) -> nat
    decreases n,
{
    if n <= 0 {
        0
    } else {
        decode_success_count(slots, n - 1) + if slots@[n - 1] is UpdatedFrame {
            1nat
        } else {
            0nat
        }
    }
}

/// The counts of a tick: the scheduler's results by kind, the decodes tried
/// and done, and whether the clean output rendered.
pub open spec fn tick_diagnostics(
    slot_result_kinds: [String; 4],
    slots: [TwoRealQuadRenderSlot; 4],
    clean_output: TwoRealCleanOutputRenderOutcome,
) -> TwoRealPreviewLoopTickDiagnostics {
    TwoRealPreviewLoopTickDiagnostics {
        selected_count: kind_count(slot_result_kinds, "Selected"@, 4) as u32,
        no_frame_count: kind_count(slot_result_kinds, "NoFrameAvailable"@, 4) as u32,
        handoff_error_count: kind_count(slot_result_kinds, "HandoffError"@, 4) as u32,
        decode_attempt_count: decode_attempt_count(slots, 4) as u32,
        decode_success_count: decode_success_count(slots, 4) as u32,
        render_success_count: if clean_output == TwoRealCleanOutputRenderOutcome::Rendered {
            1
        } else {
            0
        },
        render_failure_count: if clean_output == TwoRealCleanOutputRenderOutcome::RenderFailed {
            1
        } else {
            0
        },
    }
}

/// Counts what happened in one tick.
pub fn four_view_two_real_tick_diagnostics_from_composition_render(
    slot_result_kinds: &[String; 4],
    slots: &[TwoRealQuadRenderSlot; 4],
    clean_output: TwoRealCleanOutputRenderOutcome,
) -> (r: TwoRealPreviewLoopTickDiagnostics)
    ensures
        r == tick_diagnostics(*slot_result_kinds, *slots, clean_output),
{
    let mut selected: u32 = 0;
    let mut no_frame: u32 = 0;
    let mut handoff_error: u32 = 0;
    let mut i: usize = 0;
    while i < 4
        invariant
            0 <= i <= 4,
            selected == kind_count(*slot_result_kinds, "Selected"@, i as int),
            no_frame == kind_count(*slot_result_kinds, "NoFrameAvailable"@, i as int),
            handoff_error == kind_count(*slot_result_kinds, "HandoffError"@, i as int),
            selected <= i && no_frame <= i && handoff_error <= i,
        decreases 4 - i,
    {
        let kind = slot_result_kinds[i].as_str();
        proof {
            reveal_strlit("Selected");
            reveal_strlit("NoFrameAvailable");
            reveal_strlit("HandoffError");
            assert("NoFrameAvailable"@.len() == 16);
            assert("HandoffError"@.len() == 12);
        }
        if str_eq(kind, "Selected") {
            selected = selected + 1;
        } else if str_eq(kind, "NoFrameAvailable") {
            no_frame = no_frame + 1;
        } else if str_eq(kind, "HandoffError") {
            handoff_error = handoff_error + 1;
        }
        i = i + 1;
    }
    let mut attempts: u32 = 0;
    let mut successes: u32 = 0;
    let mut k: usize = 0;
    while k < 4
        invariant
            0 <= k <= 4,
            attempts == decode_attempt_count(*slots, k as int),
            successes == decode_success_count(*slots, k as int),
            attempts <= k && successes <= k,
        decreases 4 - k,
    {
        match &slots[k] {
            TwoRealQuadRenderSlot::UpdatedFrame { .. } => {
                attempts = attempts + 1;
                successes = successes + 1;
            },
            TwoRealQuadRenderSlot::DecodeDeferredPlaceholder { .. } => {
                attempts = attempts + 1;
            },
            TwoRealQuadRenderSlot::DecodeFailedPlaceholder { .. } => {
                attempts = attempts + 1;
            },
            _ => {},
        }
        k = k + 1;
    }
    TwoRealPreviewLoopTickDiagnostics {
        selected_count: selected,
        no_frame_count: no_frame,
        handoff_error_count: handoff_error,
        decode_attempt_count: attempts,
        decode_success_count: successes,
        render_success_count: match clean_output {
            TwoRealCleanOutputRenderOutcome::Rendered => 1,
            _ => 0,
        },
        render_failure_count: match clean_output {
            TwoRealCleanOutputRenderOutcome::RenderFailed => 1,
            _ => 0,
        },
    }
}

/// Showing the same picture is an equivalence on what slots show: every
/// slot shows the same picture as itself, in either order of comparison,
/// and two slots with the very same identity show the same picture.
pub proof fn law_same_picture_is_an_equivalence(
    a: TwoRealPreviewLoopSlotVisualIdentity,
    b: TwoRealPreviewLoopSlotVisualIdentity,
    c: TwoRealPreviewLoopSlotVisualIdentity,
)
    ensures
        visual_render_eq(a, a),
        visual_render_eq(a, b) ==> visual_render_eq(b, a),
        visual_render_eq(a, b) && visual_render_eq(b, c) ==> visual_render_eq(a, c),
        visual_identical(a, b) ==> visual_render_eq(a, b),
{
}

/// A tick that shows what the previous tick showed changes no slot, and
/// the first tick changes every slot.
pub proof fn law_unchanged_tick_changes_no_slot(
    current: [TwoRealPreviewLoopSlotVisualIdentity; 4],
    i: int,
)
    requires
        0 <= i < 4,
    ensures
        !slot_changed(Some(current), current, i),
        slot_changed(None, current, i),
{
    law_same_picture_is_an_equivalence(current@[i], current@[i], current@[i]);
}

/// The frame a slot's picture was taken from, as client id, run id and
/// frame id, for the identities that name one.
pub open spec fn identity_frame(identity: TwoRealPreviewLoopSlotVisualIdentity) -> Option<
    (Seq<char>, Seq<char>, u64),
> {
    match identity {
        TwoRealPreviewLoopSlotVisualIdentity::SourceFrame { client_id, run_id, frame_id, .. } => Some(
            (client_id@, run_id@, frame_id),
        ),
        TwoRealPreviewLoopSlotVisualIdentity::DecodeDeferredPlaceholder {
            client_id,
            run_id,
            frame_id,
            ..
        } => Some((client_id@, run_id@, frame_id)),
        TwoRealPreviewLoopSlotVisualIdentity::DecodeFailedPlaceholder {
            client_id,
            run_id,
            frame_id,
            ..
        } => Some((client_id@, run_id@, frame_id)),
        TwoRealPreviewLoopSlotVisualIdentity::MissingDecodedPixels {
            client_id,
            run_id,
            frame_id,
            ..
        } => Some((client_id@, run_id@, frame_id)),
        _ => None,
    }
}

/// Two slots show the same picture only when they are of the same kind and
/// name the same frame: the same client, the same run and the same frame
/// id (a frame of a restarted run is another picture). Two source frames
/// with the same client, run and frame id do show the same picture, however
/// they were selected.
pub proof fn law_same_picture_needs_same_frame(
    previous: TwoRealPreviewLoopSlotVisualIdentity,
    current: TwoRealPreviewLoopSlotVisualIdentity,
)
    ensures
        visual_render_eq(previous, current) ==> identity_frame(previous) == identity_frame(current),
        visual_render_eq(previous, current) ==> (previous is SourceFrame <==> current is SourceFrame)
            && (previous is NoDisplayPlaceholder <==> current is NoDisplayPlaceholder)
            && (previous is SourceErrorPlaceholder <==> current is SourceErrorPlaceholder)
            && (previous is DecodeDeferredPlaceholder <==> current is DecodeDeferredPlaceholder)
            && (previous is DecodeFailedPlaceholder <==> current is DecodeFailedPlaceholder)
            && (previous is MissingDecodedPixels <==> current is MissingDecodedPixels),
        previous is SourceFrame && current is SourceFrame && identity_frame(previous)
            == identity_frame(current) ==> visual_render_eq(previous, current),
{
}

} // verus!
