//! The per-slot diagnostic line of the real-handoff preview loops: how a
//! slot's render instruction is classified, and the line that reports it.

use vstd::prelude::*;
use crate::args::opt_view;
use crate::identity::{clone_opt_text, clone_text, TwoRealQuadRenderSlot};
use crate::handoff_observation::{
    decodable_source_name, format_four_view_real_handoff_scheduler_slot_kind,
    format_handoff_decodable_source, format_handoff_no_frame_reason, format_handoff_response_kind,
    format_switcher_payload_nal_kinds, nal_kinds_text, no_frame_reason_name, response_kind_name,
    scheduler_slot_kind_name, FourViewPreviewSlotHandoffObservation, HandoffFrameObservation,
    HandoffRequestObservation, HandoffResponseObservation, HandoffResultObservation,
    HandoffRuntimeObservation, SchedulerSlotResult,
};
use crate::text::{
    bool_text, decimal, opt_u32, opt_u64, opt_usize, optional_bool_text, optional_decimal, owned,
    push_bool, push_decimal, push_str, sanitize_summary_value, sanitized, string_views,
};

verus! {

/// How a render instruction is named in a slot diagnostic.
pub open spec fn render_input_kind(slot: TwoRealQuadRenderSlot) -> Seq<char> {
    match slot {
        TwoRealQuadRenderSlot::UpdatedFrame { .. } => "UseUpdatedFrame"@,
        TwoRealQuadRenderSlot::HeldPreviousFrame { .. } => "UseHeldPreviousFrame"@,
        TwoRealQuadRenderSlot::HeldPreviousFrameWithoutDecoded { .. } =>
            "UseHeldPreviousFrameWithoutDecoded"@,
        TwoRealQuadRenderSlot::NoDisplayPlaceholder { .. } => "UseNoDisplayPlaceholder"@,
        TwoRealQuadRenderSlot::SourceErrorPlaceholder { .. } => "UseSourceErrorPlaceholder"@,
        TwoRealQuadRenderSlot::DecodeDeferredPlaceholder { .. } => "UseDecodeDeferredPlaceholder"@,
        TwoRealQuadRenderSlot::DecodeFailedPlaceholder { .. } => "UseDecodeFailedPlaceholder"@,
    }
}

/// Names a render instruction.
pub fn format_four_view_render_input_kind(slot: &TwoRealQuadRenderSlot) -> (r: &'static str)
    ensures
        r@ == render_input_kind(*slot),
{
    match slot {
        TwoRealQuadRenderSlot::UpdatedFrame { .. } => "UseUpdatedFrame",
        TwoRealQuadRenderSlot::HeldPreviousFrame { .. } => "UseHeldPreviousFrame",
        TwoRealQuadRenderSlot::HeldPreviousFrameWithoutDecoded { .. } =>
            "UseHeldPreviousFrameWithoutDecoded",
        TwoRealQuadRenderSlot::NoDisplayPlaceholder { .. } => "UseNoDisplayPlaceholder",
        TwoRealQuadRenderSlot::SourceErrorPlaceholder { .. } => "UseSourceErrorPlaceholder",
        TwoRealQuadRenderSlot::DecodeDeferredPlaceholder { .. } => "UseDecodeDeferredPlaceholder",
        TwoRealQuadRenderSlot::DecodeFailedPlaceholder { .. } => "UseDecodeFailedPlaceholder",
    }
}

/// Whether the slot's frame went through the decoder.
pub fn four_view_preview_slot_decode_attempted(slot: &TwoRealQuadRenderSlot) -> (r: bool)
    ensures
        r == crate::identity::decode_attempted(*slot),
{
    match slot {
        TwoRealQuadRenderSlot::UpdatedFrame { .. } => true,
        TwoRealQuadRenderSlot::DecodeDeferredPlaceholder { .. } => true,
        TwoRealQuadRenderSlot::DecodeFailedPlaceholder { .. } => true,
        _ => false,
    }
}

/// Why the decoder was not run for the slot, when it was not.
pub open spec fn decode_skipped_reason(slot: TwoRealQuadRenderSlot) -> Option<Seq<char>> {
    match slot {
        TwoRealQuadRenderSlot::HeldPreviousFrame { .. } => Some("HoldPreviousFrame"@),
        TwoRealQuadRenderSlot::HeldPreviousFrameWithoutDecoded { .. } => Some(
            "HoldPreviousFrameWithoutDecoded"@,
        ),
        TwoRealQuadRenderSlot::NoDisplayPlaceholder { reason } => Some(reason@),
        TwoRealQuadRenderSlot::SourceErrorPlaceholder { reason } => Some(reason@),
        _ => None,
    }
}

/// Says why the decoder was not run for the slot, when it was not.
pub fn four_view_preview_slot_decode_skipped_reason(slot: &TwoRealQuadRenderSlot) -> (r: Option<
    String,
>)
    ensures
        opt_view(r) == decode_skipped_reason(*slot),
{
    match slot {
        TwoRealQuadRenderSlot::HeldPreviousFrame { .. } => Some(owned("HoldPreviousFrame")),
        TwoRealQuadRenderSlot::HeldPreviousFrameWithoutDecoded { .. } => Some(
            owned("HoldPreviousFrameWithoutDecoded"),
        ),
        TwoRealQuadRenderSlot::NoDisplayPlaceholder { reason } => Some(owned(reason.as_str())),
        TwoRealQuadRenderSlot::SourceErrorPlaceholder { reason } => Some(owned(reason.as_str())),
        _ => None,
    }
}

/// Whether the slot draws a frame.
pub open spec fn renderable_frame_available(slot: TwoRealQuadRenderSlot) -> bool {
    slot is UpdatedFrame || slot is HeldPreviousFrame
}

/// Whether the slot draws a frame.
pub fn four_view_preview_slot_renderable_frame_available(slot: &TwoRealQuadRenderSlot) -> (r: bool)
    ensures
        r == renderable_frame_available(*slot),
{
    match slot {
        TwoRealQuadRenderSlot::UpdatedFrame { .. } => true,
        TwoRealQuadRenderSlot::HeldPreviousFrame { .. } => true,
        _ => false,
    }
}

/// Why the slot draws no frame, when it draws none.
pub open spec fn renderable_frame_missing_reason(slot: TwoRealQuadRenderSlot) -> Option<Seq<char>> {
    match slot {
        TwoRealQuadRenderSlot::HeldPreviousFrameWithoutDecoded { .. } => Some(
            "HeldPreviousFrameWithoutDecoded"@,
        ),
        TwoRealQuadRenderSlot::NoDisplayPlaceholder { reason } => Some(
            "NoDisplayPlaceholder:"@ + reason@,
        ),
        TwoRealQuadRenderSlot::SourceErrorPlaceholder { reason } => Some(
            "SourceErrorPlaceholder:"@ + reason@,
        ),
        TwoRealQuadRenderSlot::DecodeDeferredPlaceholder { reason, .. } => Some(
            "DecodeDeferred:"@ + reason@,
        ),
        TwoRealQuadRenderSlot::DecodeFailedPlaceholder { .. } => Some("DecodeFailed"@),
        _ => None,
    }
}

fn joined(prefix: &str, text: &str) -> (r: String)
    ensures
        r@ == prefix@ + text@,
{
    let mut s = owned(prefix);
    push_str(&mut s, text);
    s
}

/// Says why the slot draws no frame, when it draws none.
pub fn four_view_preview_slot_renderable_frame_missing_reason(slot: &TwoRealQuadRenderSlot) -> (r:
    Option<String>)
    ensures
        opt_view(r) == renderable_frame_missing_reason(*slot),
{
    match slot {
        TwoRealQuadRenderSlot::HeldPreviousFrameWithoutDecoded { .. } => Some(
            owned("HeldPreviousFrameWithoutDecoded"),
        ),
        TwoRealQuadRenderSlot::NoDisplayPlaceholder { reason } => Some(
            joined("NoDisplayPlaceholder:", reason.as_str()),
        ),
        TwoRealQuadRenderSlot::SourceErrorPlaceholder { reason } => Some(
            joined("SourceErrorPlaceholder:", reason.as_str()),
        ),
        TwoRealQuadRenderSlot::DecodeDeferredPlaceholder { reason, .. } => Some(
            joined("DecodeDeferred:", reason.as_str()),
        ),
        TwoRealQuadRenderSlot::DecodeFailedPlaceholder { .. } => Some(owned("DecodeFailed")),
        _ => None,
    }
}

/// What the diagnostic line of one slot reports.
#[derive(Debug, Clone, PartialEq, Eq)]
pub struct FourViewPreviewSlotDiagnosticSummary {
    pub slot_index: usize,
    pub client_id: String,
    pub run_id: String,
    pub request_id: Option<u64>,
    pub actual_pipe_path: Option<String>,
    pub handoff_response_kind: Option<String>,
    pub parse_error: Option<String>,
    pub io_error: Option<String>,
    pub response_payload_len: Option<usize>,
    pub frame_id: Option<u64>,
    pub frame_payload_len: Option<usize>,
    pub frame_is_keyframe: Option<bool>,
    pub handoff_no_frame_reason: Option<String>,
    pub decodable_source: Option<String>,
    pub retained_keyframe_available: Option<bool>,
    pub retained_keyframe_frame_id: Option<u64>,
    pub decode_attempted: Option<bool>,
    pub decode_skipped_reason: Option<String>,
    pub decode_error: Option<String>,
    pub decode_input_payload_len: Option<usize>,
    pub decode_expected_width: Option<u32>,
    pub decode_expected_height: Option<u32>,
    pub decode_expected_pixel_format: Option<String>,
    pub decode_expected_rawvideo_len: Option<usize>,
    pub decoded_stdout_len: Option<usize>,
    pub ffmpeg_exit_status: Option<i32>,
    pub ffmpeg_stderr_summary: Option<String>,
    pub payload_has_sps: Option<bool>,
    pub payload_has_pps: Option<bool>,
    pub payload_has_idr: Option<bool>,
    pub payload_has_non_idr_vcl: Option<bool>,
    pub payload_nal_kinds: Option<String>,
    pub renderable_frame_available: Option<bool>,
    pub renderable_frame_missing_reason: Option<String>,
    pub selected_frame_available: Option<bool>,
    pub selected_frame_id: Option<u64>,
    pub selected_frame_source: Option<String>,
    pub target_selection_result: String,
    pub render_input_kind: String,
    pub final_slot_result_kind: String,
}

/// The diagnostic of a slot whose handoff was not observed.
pub fn unobserved_four_view_preview_slot_diagnostic(
    slot_index: usize,
    client_id: String,
    run_id: String,
) -> (r: FourViewPreviewSlotDiagnosticSummary)
    ensures
        r.slot_index == slot_index,
        r.client_id@ == client_id@,
        r.run_id@ == run_id@,
        nothing_observed(r),
        r.target_selection_result@ == "Unobserved"@,
        r.render_input_kind@ == "Unobserved"@,
        r.final_slot_result_kind@ == "NoFrameAvailable"@,
{
    FourViewPreviewSlotDiagnosticSummary {
        slot_index,
        client_id,
        run_id,
        request_id: None,
        actual_pipe_path: None,
        handoff_response_kind: None,
        parse_error: None,
        io_error: None,
        response_payload_len: None,
        frame_id: None,
        frame_payload_len: None,
        frame_is_keyframe: None,
        handoff_no_frame_reason: None,
        decodable_source: None,
        retained_keyframe_available: None,
        retained_keyframe_frame_id: None,
        decode_attempted: None,
        decode_skipped_reason: None,
        decode_error: None,
        decode_input_payload_len: None,
        decode_expected_width: None,
        decode_expected_height: None,
        decode_expected_pixel_format: None,
        decode_expected_rawvideo_len: None,
        decoded_stdout_len: None,
        ffmpeg_exit_status: None,
        ffmpeg_stderr_summary: None,
        payload_has_sps: None,
        payload_has_pps: None,
        payload_has_idr: None,
        payload_has_non_idr_vcl: None,
        payload_nal_kinds: None,
        renderable_frame_available: None,
        renderable_frame_missing_reason: None,
        selected_frame_available: None,
        selected_frame_id: None,
        selected_frame_source: None,
        target_selection_result: owned("Unobserved"),
        render_input_kind: owned("Unobserved"),
        final_slot_result_kind: owned("NoFrameAvailable"),
    }
}

/// Whether a diagnostic reports nothing of a handoff, a decode or a render:
/// every optional field is absent.
pub open spec fn nothing_observed(d: FourViewPreviewSlotDiagnosticSummary) -> bool {
    &&& d.request_id is None
    &&& d.actual_pipe_path is None
    &&& d.handoff_response_kind is None
    &&& d.parse_error is None
    &&& d.io_error is None
    &&& d.response_payload_len is None
    &&& d.frame_id is None
    &&& d.frame_payload_len is None
    &&& d.frame_is_keyframe is None
    &&& d.handoff_no_frame_reason is None
    &&& d.decodable_source is None
    &&& d.retained_keyframe_available is None
    &&& d.retained_keyframe_frame_id is None
    &&& d.decode_attempted is None
    &&& d.decode_skipped_reason is None
    &&& d.decode_error is None
    &&& d.decode_input_payload_len is None
    &&& d.decode_expected_width is None
    &&& d.decode_expected_height is None
    &&& d.decode_expected_pixel_format is None
    &&& d.decode_expected_rawvideo_len is None
    &&& d.decoded_stdout_len is None
    &&& d.ffmpeg_exit_status is None
    &&& d.ffmpeg_stderr_summary is None
    &&& d.payload_has_sps is None
    &&& d.payload_has_pps is None
    &&& d.payload_has_idr is None
    &&& d.payload_has_non_idr_vcl is None
    &&& d.payload_nal_kinds is None
    &&& d.renderable_frame_available is None
    &&& d.renderable_frame_missing_reason is None
    &&& d.selected_frame_available is None
    &&& d.selected_frame_id is None
    &&& d.selected_frame_source is None
}

/// The observation behind an optional reference.
pub open spec fn observed(
    observation: Option<&FourViewPreviewSlotHandoffObservation>,
) -> Option<FourViewPreviewSlotHandoffObservation> {
    match observation {
        Some(o) => Some(*o),
        None => None,
    }
}

/// The handoff request of an observation, where one was made.
pub open spec fn observed_request(observation: Option<FourViewPreviewSlotHandoffObservation>) -> Option<
    HandoffRequestObservation,
> {
    match observation {
        Some(o) => o.request_output,
        None => None,
    }
}

/// The named-pipe exchange of an observation, where it took place.
pub open spec fn observed_runtime(observation: Option<FourViewPreviewSlotHandoffObservation>) -> Option<
    HandoffRuntimeObservation,
> {
    match observed_request(observation) {
        Some(q) => q.runtime,
        None => None,
    }
}

/// The reply of an observation, where one was read.
pub open spec fn observed_response(observation: Option<FourViewPreviewSlotHandoffObservation>) -> Option<
    HandoffResponseObservation,
> {
    match observed_runtime(observation) {
        Some(rt) => rt.response,
        None => None,
    }
}

/// The kind of handoff reply a slot saw: the reply's, or else the kind of
/// the handoff's result.
pub open spec fn observed_response_kind(observation: Option<FourViewPreviewSlotHandoffObservation>) -> Option<
    Seq<char>,
> {
    match observed_response(observation) {
        Some(response) => Some(response_kind_name(response)),
        None => match observation {
            Some(o) => Some(
                match o.result {
                    HandoffResultObservation::FrameRead { .. } => "FrameRead"@,
                    HandoffResultObservation::NoFrameAvailable => "NoFrame"@,
                    HandoffResultObservation::HandoffError => "HandoffError"@,
                },
            ),
            None => None,
        },
    }
}

/// The frame a slot was handed: the reply's frame, or else the result's.
pub open spec fn observed_frame(observation: Option<FourViewPreviewSlotHandoffObservation>) -> Option<
    HandoffFrameObservation,
> {
    match observed_response(observation) {
        Some(HandoffResponseObservation::FrameRead { frame, .. }) => Some(frame),
        _ => match observation {
            Some(o) => match o.result {
                HandoffResultObservation::FrameRead { frame } => Some(frame),
                _ => None,
            },
            None => None,
        },
    }
}

/// The reason of a no-frame reply.
pub open spec fn observed_no_frame_reason(observation: Option<FourViewPreviewSlotHandoffObservation>) -> Option<
    Seq<char>,
> {
    match observed_response(observation) {
        Some(HandoffResponseObservation::NoFrame { no_frame_reason, .. }) => Some(
            no_frame_reason_name(no_frame_reason),
        ),
        _ => None,
    }
}

/// The decodable source that a frame or no-frame reply names.
pub open spec fn observed_decodable_source(
    observation: Option<FourViewPreviewSlotHandoffObservation>,
) -> Option<Seq<char>> {
    match observed_response(observation) {
        Some(HandoffResponseObservation::FrameRead { decodable_source, .. }) => Some(
            decodable_source_name(decodable_source),
        ),
        Some(HandoffResponseObservation::NoFrame { decodable_source, .. }) => Some(
            decodable_source_name(decodable_source),
        ),
        _ => None,
    }
}

/// Whether a retained keyframe was available, and its number, as a frame or
/// no-frame reply says.
pub open spec fn observed_retained_keyframe(
    observation: Option<FourViewPreviewSlotHandoffObservation>,
) -> (Option<bool>, Option<u64>) {
    match observed_response(observation) {
        Some(
            HandoffResponseObservation::FrameRead {
                retained_keyframe_available,
                retained_keyframe_frame_id,
                ..
            },
        ) => (Some(retained_keyframe_available), retained_keyframe_frame_id),
        Some(
            HandoffResponseObservation::NoFrame {
                retained_keyframe_available,
                retained_keyframe_frame_id,
                ..
            },
        ) => (Some(retained_keyframe_available), retained_keyframe_frame_id),
        _ => (None, None),
    }
}

/// The parse error of a handoff: the exchange's, or else the error met
/// before sending.
pub open spec fn observed_parse_error(observation: Option<FourViewPreviewSlotHandoffObservation>) -> Option<
    Seq<char>,
> {
    match observed_runtime(observation) {
        Some(rt) if rt.parse_error is Some => opt_view(rt.parse_error),
        _ => match observed_request(observation) {
            Some(q) => opt_view(q.local_error),
            None => None,
        },
    }
}

/// The handoff fields of a diagnostic: the request, the reply and the frame.
pub open spec fn handoff_fields_hold(
    d: FourViewPreviewSlotDiagnosticSummary,
    observation: Option<FourViewPreviewSlotHandoffObservation>,
) -> bool {
    &&& d.request_id == match observed_request(observation) {
        Some(q) => Some(q.request_id),
        None => None,
    }
    &&& opt_view(d.actual_pipe_path) == match observed_request(observation) {
        Some(q) => opt_view(q.actual_pipe_path),
        None => None,
    }
    &&& opt_view(d.handoff_response_kind) == observed_response_kind(observation)
    &&& opt_view(d.parse_error) == observed_parse_error(observation)
    &&& opt_view(d.io_error) == match observed_runtime(observation) {
        Some(rt) => opt_view(rt.io_error),
        None => None,
    }
    &&& d.response_payload_len == match observed_runtime(observation) {
        Some(rt) => rt.response_payload_len,
        None => None,
    }
    &&& opt_view(d.handoff_no_frame_reason) == observed_no_frame_reason(observation)
    &&& opt_view(d.decodable_source) == observed_decodable_source(observation)
    &&& (d.retained_keyframe_available, d.retained_keyframe_frame_id)
        == observed_retained_keyframe(observation)
    &&& match observed_frame(observation) {
        Some(f) => {
            &&& d.frame_id == Some(f.frame_id)
            &&& d.frame_payload_len == Some(f.encoded_payload_len)
            &&& d.frame_is_keyframe == Some(f.is_keyframe)
            &&& d.payload_has_sps == Some(f.inspection.has_sps)
            &&& d.payload_has_pps == Some(f.inspection.has_pps)
            &&& d.payload_has_idr == Some(f.inspection.has_idr)
            &&& d.payload_has_non_idr_vcl == Some(f.inspection.has_non_idr_vcl)
            &&& opt_view(d.payload_nal_kinds) == Some(
                nal_kinds_text(string_views(f.inspection.nal_kinds@)),
            )
        },
        None => {
            &&& d.frame_id is None
            &&& d.frame_payload_len is None
            &&& d.frame_is_keyframe is None
            &&& d.payload_has_sps is None
            &&& d.payload_has_pps is None
            &&& d.payload_has_idr is None
            &&& d.payload_has_non_idr_vcl is None
            &&& d.payload_nal_kinds is None
        },
    }
}

/// The decode fields of a diagnostic: whether the decoder ran, why not, and
/// what it reported when it failed.
pub open spec fn decode_fields_hold(
    d: FourViewPreviewSlotDiagnosticSummary,
    slot: TwoRealQuadRenderSlot,
) -> bool {
    &&& d.decode_attempted == Some(crate::identity::decode_attempted(slot))
    &&& opt_view(d.decode_skipped_reason) == decode_skipped_reason(slot)
    &&& decode_failure_fields_hold(d, slot)
}

/// The decode failure fields of a diagnostic: what the decoder reported
/// when it failed, absent otherwise.
pub open spec fn decode_failure_fields_hold(
    d: FourViewPreviewSlotDiagnosticSummary,
    slot: TwoRealQuadRenderSlot,
) -> bool {
    match slot {
        TwoRealQuadRenderSlot::DecodeFailedPlaceholder { failure, .. } => {
            &&& opt_view(d.decode_error) == Some(failure.message@)
            &&& d.decode_input_payload_len == Some(failure.decode_input_payload_len)
            &&& d.decode_expected_width == Some(failure.decode_expected_width)
            &&& d.decode_expected_height == Some(failure.decode_expected_height)
            &&& opt_view(d.decode_expected_pixel_format) == Some(
                failure.decode_expected_pixel_format@,
            )
            &&& d.decode_expected_rawvideo_len == Some(failure.decode_expected_rawvideo_len)
            &&& d.decoded_stdout_len == Some(failure.decoded_stdout_len)
            &&& d.ffmpeg_exit_status == failure.ffmpeg_exit_status
            &&& opt_view(d.ffmpeg_stderr_summary) == opt_view(failure.ffmpeg_stderr_summary)
        },
        _ => {
            &&& d.decode_error is None
            &&& d.decode_input_payload_len is None
            &&& d.decode_expected_width is None
            &&& d.decode_expected_height is None
            &&& d.decode_expected_pixel_format is None
            &&& d.decode_expected_rawvideo_len is None
            &&& d.decoded_stdout_len is None
            &&& d.ffmpeg_exit_status is None
            &&& d.ffmpeg_stderr_summary is None
        },
    }
}

/// The selection and render fields of a diagnostic: the scheduler's result
/// and frame, the selected frame's source, and how the slot is drawn.
pub open spec fn selection_fields_hold(
    d: FourViewPreviewSlotDiagnosticSummary,
    observation: Option<FourViewPreviewSlotHandoffObservation>,
    scheduler_result: SchedulerSlotResult,
    slot: TwoRealQuadRenderSlot,
) -> bool {
    &&& match scheduler_result {
        SchedulerSlotResult::Selected { frame_id } => {
            &&& d.selected_frame_available == Some(true)
            &&& d.selected_frame_id == Some(frame_id)
            &&& opt_view(d.selected_frame_source) == observed_decodable_source(observation)
        },
        _ => {
            &&& d.selected_frame_available == Some(false)
            &&& d.selected_frame_id is None
            &&& d.selected_frame_source is None
        },
    }
    &&& d.target_selection_result@ == scheduler_slot_kind_name(scheduler_result)
    &&& d.final_slot_result_kind@ == scheduler_slot_kind_name(scheduler_result)
    &&& d.render_input_kind@ == render_input_kind(slot)
    &&& d.renderable_frame_available == Some(renderable_frame_available(slot))
    &&& opt_view(d.renderable_frame_missing_reason) == renderable_frame_missing_reason(slot)
}

fn observed_request_exec(observation: Option<&FourViewPreviewSlotHandoffObservation>) -> (r: Option<
    &HandoffRequestObservation,
>)
    ensures
        match r {
            Some(q) => observed_request(observed(observation)) == Some(*q),
            None => observed_request(observed(observation)) is None,
        },
{
    match observation {
        Some(o) => match &o.request_output {
            Some(q) => Some(q),
            None => None,
        },
        None => None,
    }
}

fn observed_runtime_exec(observation: Option<&FourViewPreviewSlotHandoffObservation>) -> (r: Option<
    &HandoffRuntimeObservation,
>)
    ensures
        match r {
            Some(rt) => observed_runtime(observed(observation)) == Some(*rt),
            None => observed_runtime(observed(observation)) is None,
        },
{
    match observed_request_exec(observation) {
        Some(q) => match &q.runtime {
            Some(rt) => Some(rt),
            None => None,
        },
        None => None,
    }
}

fn observed_response_exec(observation: Option<&FourViewPreviewSlotHandoffObservation>) -> (r: Option<
    &HandoffResponseObservation,
>)
    ensures
        match r {
            Some(x) => observed_response(observed(observation)) == Some(*x),
            None => observed_response(observed(observation)) is None,
        },
{
    match observed_runtime_exec(observation) {
        Some(rt) => match &rt.response {
            Some(x) => Some(x),
            None => None,
        },
        None => None,
    }
}

fn observed_frame_exec(observation: Option<&FourViewPreviewSlotHandoffObservation>) -> (r: Option<
    &HandoffFrameObservation,
>)
    ensures
        match r {
            Some(f) => observed_frame(observed(observation)) == Some(*f),
            None => observed_frame(observed(observation)) is None,
        },
{
    match observed_response_exec(observation) {
        Some(HandoffResponseObservation::FrameRead { frame, .. }) => Some(frame),
        _ => match observation {
            Some(o) => match &o.result {
                HandoffResultObservation::FrameRead { frame } => Some(frame),
                _ => None,
            },
            None => None,
        },
    }
}

fn copy_usize(o: Option<usize>) -> (r: Option<usize>)
    ensures
        r == o,
{
    match o {
        Some(n) => Some(n),
        None => None,
    }
}

/// Builds the diagnostic of one slot from what its handoff was seen to do,
/// the scheduler's result for it, and how it is drawn.
pub fn build_four_view_preview_slot_diagnostic(
    slot_index: usize,
    client_id: String,
    run_id: String,
    observation: Option<&FourViewPreviewSlotHandoffObservation>,
    scheduler_result: &SchedulerSlotResult,
    render_slot: &TwoRealQuadRenderSlot,
) -> (r: FourViewPreviewSlotDiagnosticSummary)
    ensures
        r.slot_index == slot_index,
        r.client_id@ == client_id@,
        r.run_id@ == run_id@,
        handoff_fields_hold(r, observed(observation)),
        decode_fields_hold(r, *render_slot),
        selection_fields_hold(r, observed(observation), *scheduler_result, *render_slot),
{
    let request = observed_request_exec(observation);
    let runtime = observed_runtime_exec(observation);
    let response = observed_response_exec(observation);
    let frame = observed_frame_exec(observation);
    let handoff_response_kind: Option<String> = match response {
        Some(x) => Some(owned(format_handoff_response_kind(x))),
        None => match observation {
            Some(o) => Some(
                owned(
                    match &o.result {
                        HandoffResultObservation::FrameRead { .. } => "FrameRead",
                        HandoffResultObservation::NoFrameAvailable => "NoFrame",
                        HandoffResultObservation::HandoffError => "HandoffError",
                    },
                ),
            ),
            None => None,
        },
    };
    let handoff_no_frame_reason: Option<String> = match response {
        Some(HandoffResponseObservation::NoFrame { no_frame_reason, .. }) => Some(
            owned(format_handoff_no_frame_reason(*no_frame_reason)),
        ),
        _ => None,
    };
    let decodable_source: Option<String> = match response {
        Some(HandoffResponseObservation::FrameRead { decodable_source, .. }) => Some(
            owned(format_handoff_decodable_source(*decodable_source)),
        ),
        Some(HandoffResponseObservation::NoFrame { decodable_source, .. }) => Some(
            owned(format_handoff_decodable_source(*decodable_source)),
        ),
        _ => None,
    };
    let (retained_keyframe_available, retained_keyframe_frame_id): (Option<bool>, Option<u64>) =
        match response {
        Some(
            HandoffResponseObservation::FrameRead {
                retained_keyframe_available,
                retained_keyframe_frame_id,
                ..
            },
        ) => (Some(*retained_keyframe_available), *retained_keyframe_frame_id),
        Some(
            HandoffResponseObservation::NoFrame {
                retained_keyframe_available,
                retained_keyframe_frame_id,
                ..
            },
        ) => (Some(*retained_keyframe_available), *retained_keyframe_frame_id),
        _ => (None, None),
    };
    let parse_error: Option<String> = match runtime {
        Some(rt) if rt.parse_error.is_some() => clone_opt_text(&rt.parse_error),
        _ => match request {
            Some(q) => clone_opt_text(&q.local_error),
            None => None,
        },
    };
    let (selected_frame_available, selected_frame_id, selected_frame_source): (
        Option<bool>,
        Option<u64>,
        Option<String>,
    ) = match scheduler_result {
        SchedulerSlotResult::Selected { frame_id } => (
            Some(true),
            Some(*frame_id),
            clone_opt_text(&decodable_source),
        ),
        _ => (Some(false), None, None),
    };
    let mut d = unobserved_four_view_preview_slot_diagnostic(slot_index, client_id, run_id);
    d.request_id = match request {
        Some(q) => Some(q.request_id),
        None => None,
    };
    d.actual_pipe_path = match request {
        Some(q) => clone_opt_text(&q.actual_pipe_path),
        None => None,
    };
    d.handoff_response_kind = handoff_response_kind;
    d.parse_error = parse_error;
    d.io_error = match runtime {
        Some(rt) => clone_opt_text(&rt.io_error),
        None => None,
    };
    d.response_payload_len = match runtime {
        Some(rt) => copy_usize(rt.response_payload_len),
        None => None,
    };
    match frame {
        Some(f) => {
            d.frame_id = Some(f.frame_id);
            d.frame_payload_len = Some(f.encoded_payload_len);
            d.frame_is_keyframe = Some(f.is_keyframe);
            d.payload_has_sps = Some(f.inspection.has_sps);
            d.payload_has_pps = Some(f.inspection.has_pps);
            d.payload_has_idr = Some(f.inspection.has_idr);
            d.payload_has_non_idr_vcl = Some(f.inspection.has_non_idr_vcl);
            d.payload_nal_kinds = Some(format_switcher_payload_nal_kinds(&f.inspection));
        },
        None => {},
    }
    d.handoff_no_frame_reason = handoff_no_frame_reason;
    d.decodable_source = decodable_source;
    d.retained_keyframe_available = retained_keyframe_available;
    d.retained_keyframe_frame_id = retained_keyframe_frame_id;
    d.decode_attempted = Some(four_view_preview_slot_decode_attempted(render_slot));
    d.decode_skipped_reason = four_view_preview_slot_decode_skipped_reason(render_slot);
    match render_slot {
        TwoRealQuadRenderSlot::DecodeFailedPlaceholder { failure, .. } => {
            d.decode_error = Some(clone_text(&failure.message));
            d.decode_input_payload_len = Some(failure.decode_input_payload_len);
            d.decode_expected_width = Some(failure.decode_expected_width);
            d.decode_expected_height = Some(failure.decode_expected_height);
            d.decode_expected_pixel_format = Some(clone_text(&failure.decode_expected_pixel_format));
            d.decode_expected_rawvideo_len = Some(failure.decode_expected_rawvideo_len);
            d.decoded_stdout_len = Some(failure.decoded_stdout_len);
            d.ffmpeg_exit_status = failure.ffmpeg_exit_status;
            d.ffmpeg_stderr_summary = clone_opt_text(&failure.ffmpeg_stderr_summary);
        },
        _ => {},
    }
    d.renderable_frame_available = Some(four_view_preview_slot_renderable_frame_available(render_slot));
    d.renderable_frame_missing_reason = four_view_preview_slot_renderable_frame_missing_reason(
        render_slot,
    );
    d.selected_frame_available = selected_frame_available;
    d.selected_frame_id = selected_frame_id;
    d.selected_frame_source = selected_frame_source;
    let kind = format_four_view_real_handoff_scheduler_slot_kind(scheduler_result);
    d.target_selection_result = owned(kind);
    d.render_input_kind = owned(format_four_view_render_input_kind(render_slot));
    d.final_slot_result_kind = owned(kind);
    d
}

/// The diagnostic of slot `i` in a tick: built from the slot's handoff,
/// scheduler result and render slot, except that a slot which reused its
/// unchanged decoded frame reports the decoder as skipped for that reason.
pub open spec fn tick_slot_diagnostic_holds(
    d: FourViewPreviewSlotDiagnosticSummary,
    i: int,
    client_id: Seq<char>,
    run_id: Seq<char>,
    observation: Option<FourViewPreviewSlotHandoffObservation>,
    scheduler_result: SchedulerSlotResult,
    slot: TwoRealQuadRenderSlot,
    reused: bool,
) -> bool {
    &&& d.slot_index == i
    &&& d.client_id@ == client_id
    &&& d.run_id@ == run_id
    &&& handoff_fields_hold(d, observation)
    &&& selection_fields_hold(d, observation, scheduler_result, slot)
    &&& decode_failure_fields_hold(d, slot)
    &&& if reused {
        &&& d.decode_attempted == Some(false)
        &&& opt_view(d.decode_skipped_reason) == Some("UnchangedFrameReuse"@)
    } else {
        &&& d.decode_attempted == Some(crate::identity::decode_attempted(slot))
        &&& opt_view(d.decode_skipped_reason) == decode_skipped_reason(slot)
    }
}

/// A tick's diagnostic line of slot `i` is the line of a diagnostic that
/// `tick_slot_diagnostic_holds` describes.
#[verifier::opaque]
pub open spec fn tick_slot_line_holds(
    line: Seq<char>,
    i: int,
    client_id: Seq<char>,
    run_id: Seq<char>,
    observation: Option<FourViewPreviewSlotHandoffObservation>,
    scheduler_result: SchedulerSlotResult,
    slot: TwoRealQuadRenderSlot,
    reused: bool,
) -> bool {
    exists|d: FourViewPreviewSlotDiagnosticSummary|
        #![trigger slot_diagnostic_line(d)]
        line == slot_diagnostic_line(d) && tick_slot_diagnostic_holds(
            d,
            i,
            client_id,
            run_id,
            observation,
            scheduler_result,
            slot,
            reused,
        )
}

fn tick_slot_diagnostic_line(
    slot_index: usize,
    client_id: &String,
    run_id: &String,
    observation: &Option<FourViewPreviewSlotHandoffObservation>,
    scheduler_result: &SchedulerSlotResult,
    render_slot: &TwoRealQuadRenderSlot,
    reused: bool,
) -> (r: String)
    ensures
        tick_slot_line_holds(
            r@,
            slot_index as int,
            client_id@,
            run_id@,
            *observation,
            *scheduler_result,
            *render_slot,
            reused,
        ),
{
    let observed_ref: Option<&FourViewPreviewSlotHandoffObservation> = match observation {
        Some(o) => Some(o),
        None => None,
    };
    let mut d = build_four_view_preview_slot_diagnostic(
        slot_index,
        clone_text(client_id),
        clone_text(run_id),
        observed_ref,
        scheduler_result,
        render_slot,
    );
    if reused {
        d.decode_attempted = Some(false);
        d.decode_skipped_reason = Some(owned("UnchangedFrameReuse"));
    }
    let line = format_four_view_preview_slot_diagnostic(&d);
    proof {
        reveal(tick_slot_line_holds);
    }
    line
}

/// The diagnostic lines of the four slots of a tick, from the slots'
/// clients and runs, what their handoffs were seen to do, the scheduler's
/// results, the render slots, and which slots reused an unchanged decoded
/// frame.
pub fn take_last_frame_slot_diagnostics_from_pre_composition(
    client_ids: &[String; 4],
    run_ids: &[String; 4],
    observations: &[Option<FourViewPreviewSlotHandoffObservation>; 4],
    scheduler_results: &[SchedulerSlotResult; 4],
    render_slots: &[TwoRealQuadRenderSlot; 4],
    unchanged_frame_reuse_slots: [bool; 4],
) -> (r: [String; 4])
    ensures
        forall|i: int|
            0 <= i < 4 ==> #[trigger] tick_slot_line_holds(
                r@[i]@,
                i,
                client_ids@[i]@,
                run_ids@[i]@,
                observations@[i],
                scheduler_results@[i],
                render_slots@[i],
                unchanged_frame_reuse_slots@[i],
            ),
{
    let a = tick_slot_diagnostic_line(
        0,
        &client_ids[0],
        &run_ids[0],
        &observations[0],
        &scheduler_results[0],
        &render_slots[0],
        unchanged_frame_reuse_slots[0],
    );
    let b = tick_slot_diagnostic_line(
        1,
        &client_ids[1],
        &run_ids[1],
        &observations[1],
        &scheduler_results[1],
        &render_slots[1],
        unchanged_frame_reuse_slots[1],
    );
    let c = tick_slot_diagnostic_line(
        2,
        &client_ids[2],
        &run_ids[2],
        &observations[2],
        &scheduler_results[2],
        &render_slots[2],
        unchanged_frame_reuse_slots[2],
    );
    let e = tick_slot_diagnostic_line(
        3,
        &client_ids[3],
        &run_ids[3],
        &observations[3],
        &scheduler_results[3],
        &render_slots[3],
        unchanged_frame_reuse_slots[3],
    );
    let r = [a, b, c, e];
    r
}

/// An optional text as a slot diagnostic writes it: sanitized, or `none`.
pub open spec fn text_or_none(o: Option<String>) -> Seq<char> {
    sanitized(
        match o {
            Some(v) => v@,
            None => "none"@,
        },
    )
}

/// An optional text written as it is, or `none`.
pub open spec fn raw_or_none(o: Option<String>) -> Seq<char> {
    match o {
        Some(v) => v@,
        None => "none"@,
    }
}

/// A signed integer as `Display` writes it.
pub open spec fn signed_decimal(n: int) -> Seq<char> {
    if n < 0 {
        "-"@ + decimal((-n) as nat)
    } else {
        decimal(n as nat)
    }
}

/// An optional exit status, or `none`.
pub open spec fn optional_signed(o: Option<i32>) -> Seq<char> {
    match o {
        Some(n) => signed_decimal(n as int),
        None => "none"@,
    }
}

/// The diagnostic line of one slot: its index, then `key=value` fields
/// separated by commas.
pub open spec fn slot_diagnostic_line(d: FourViewPreviewSlotDiagnosticSummary) -> Seq<char> {
    decimal(d.slot_index as nat) + ":client_id="@ + d.client_id@ + ",run_id="@ + d.run_id@
        + ",request_id="@ + optional_decimal(opt_u64(d.request_id)) + ",actual_pipe_path="@
        + text_or_none(d.actual_pipe_path) + ",handoff_response_kind="@ + raw_or_none(
        d.handoff_response_kind,
    ) + ",parse_error="@ + text_or_none(d.parse_error) + ",io_error="@ + text_or_none(d.io_error)
        + ",response_payload_len="@ + optional_decimal(opt_usize(d.response_payload_len))
        + ",frame_id="@ + optional_decimal(opt_u64(d.frame_id)) + ",frame_payload_len="@
        + optional_decimal(opt_usize(d.frame_payload_len)) + ",frame_is_keyframe="@
        + optional_bool_text(d.frame_is_keyframe) + ",handoff_no_frame_reason="@ + text_or_none(
        d.handoff_no_frame_reason,
    ) + ",decodable_source="@ + text_or_none(d.decodable_source)
        + ",retained_keyframe_available="@ + optional_bool_text(d.retained_keyframe_available)
        + ",retained_keyframe_frame_id="@ + optional_decimal(opt_u64(d.retained_keyframe_frame_id))
        + ",selected_frame_available="@ + optional_bool_text(d.selected_frame_available)
        + ",selected_frame_id="@ + optional_decimal(opt_u64(d.selected_frame_id))
        + ",selected_frame_source="@ + text_or_none(d.selected_frame_source)
        + ",target_selection_result="@ + d.target_selection_result@ + ",decode_attempted="@
        + optional_bool_text(d.decode_attempted) + ",decode_skipped_reason="@ + text_or_none(
        d.decode_skipped_reason,
    ) + ",decode_error="@ + text_or_none(d.decode_error) + ",decode_input_payload_len="@
        + optional_decimal(opt_usize(d.decode_input_payload_len)) + ",decode_expected_width="@
        + optional_decimal(opt_u32(d.decode_expected_width)) + ",decode_expected_height="@
        + optional_decimal(opt_u32(d.decode_expected_height)) + ",decode_expected_pixel_format="@
        + text_or_none(d.decode_expected_pixel_format) + ",decode_expected_rawvideo_len="@
        + optional_decimal(opt_usize(d.decode_expected_rawvideo_len)) + ",decoded_stdout_len="@
        + optional_decimal(opt_usize(d.decoded_stdout_len)) + ",ffmpeg_exit_status="@
        + optional_signed(d.ffmpeg_exit_status) + ",ffmpeg_stderr_summary="@ + text_or_none(
        d.ffmpeg_stderr_summary,
    ) + ",payload_has_sps="@ + optional_bool_text(d.payload_has_sps) + ",payload_has_pps="@
        + optional_bool_text(d.payload_has_pps) + ",payload_has_idr="@ + optional_bool_text(
        d.payload_has_idr,
    ) + ",payload_has_non_idr_vcl="@ + optional_bool_text(d.payload_has_non_idr_vcl)
        + ",payload_nal_kinds="@ + text_or_none(d.payload_nal_kinds)
        + ",renderable_frame_available="@ + optional_bool_text(d.renderable_frame_available)
        + ",renderable_frame_missing_reason="@ + text_or_none(d.renderable_frame_missing_reason)
        + ",render_input_kind="@ + d.render_input_kind@ + ",final_slot_result_kind="@
        + d.final_slot_result_kind@
}

fn push_text_or_none(s: &mut String, o: &Option<String>)
    ensures
        final(s)@ == old(s)@ + text_or_none(*o),
{
    let t = match o {
        Some(v) => sanitize_summary_value(v.as_str()),
        None => sanitize_summary_value("none"),
    };
    push_str(s, t.as_str());
}

fn push_raw_or_none(s: &mut String, o: &Option<String>)
    ensures
        final(s)@ == old(s)@ + raw_or_none(*o),
{
    match o {
        Some(v) => push_str(s, v.as_str()),
        None => push_str(s, "none"),
    }
}

pub(crate) fn push_opt_nat(s: &mut String, o: Option<u64>)
    ensures
        final(s)@ == old(s)@ + optional_decimal(opt_u64(o)),
{
    match o {
        Some(n) => push_decimal(s, n as u128),
        None => push_str(s, "none"),
    }
}

pub(crate) fn push_opt_usize(s: &mut String, o: Option<usize>)
    ensures
        final(s)@ == old(s)@ + optional_decimal(opt_usize(o)),
{
    match o {
        Some(n) => push_decimal(s, n as u128),
        None => push_str(s, "none"),
    }
}

pub(crate) fn push_opt_u32(s: &mut String, o: Option<u32>)
    ensures
        final(s)@ == old(s)@ + optional_decimal(opt_u32(o)),
{
    match o {
        Some(n) => push_decimal(s, n as u128),
        None => push_str(s, "none"),
    }
}

pub(crate) fn push_opt_bool(s: &mut String, o: Option<bool>)
    ensures
        final(s)@ == old(s)@ + optional_bool_text(o),
{
    match o {
        Some(b) => push_bool(s, b),
        None => push_str(s, "none"),
    }
}

fn push_opt_signed(s: &mut String, o: Option<i32>)
    ensures
        final(s)@ == old(s)@ + optional_signed(o),
{
    match o {
        Some(n) => {
            if n < 0 {
                push_str(s, "-");
                let magnitude: i64 = -(n as i64);
                push_decimal(s, magnitude as u128);
            } else {
                push_decimal(s, n as u128);
            }
        },
        None => push_str(s, "none"),
    }
}

/// Formats the diagnostic line of one slot.
pub fn format_four_view_preview_slot_diagnostic(diagnostic: &FourViewPreviewSlotDiagnosticSummary) -> (r:
    String)
    ensures
        r@ == slot_diagnostic_line(*diagnostic),
{
    let d = diagnostic;
    let mut s = String::new();
    push_decimal(&mut s, d.slot_index as u128);
    push_str(&mut s, ":client_id=");
    push_str(&mut s, d.client_id.as_str());
    push_str(&mut s, ",run_id=");
    push_str(&mut s, d.run_id.as_str());
    push_str(&mut s, ",request_id=");
    push_opt_nat(&mut s, d.request_id);
    push_str(&mut s, ",actual_pipe_path=");
    push_text_or_none(&mut s, &d.actual_pipe_path);
    push_str(&mut s, ",handoff_response_kind=");
    push_raw_or_none(&mut s, &d.handoff_response_kind);
    push_str(&mut s, ",parse_error=");
    push_text_or_none(&mut s, &d.parse_error);
    push_str(&mut s, ",io_error=");
    push_text_or_none(&mut s, &d.io_error);
    push_str(&mut s, ",response_payload_len=");
    push_opt_usize(&mut s, d.response_payload_len);
    push_str(&mut s, ",frame_id=");
    push_opt_nat(&mut s, d.frame_id);
    push_str(&mut s, ",frame_payload_len=");
    push_opt_usize(&mut s, d.frame_payload_len);
    push_str(&mut s, ",frame_is_keyframe=");
    push_opt_bool(&mut s, d.frame_is_keyframe);
    push_str(&mut s, ",handoff_no_frame_reason=");
    push_text_or_none(&mut s, &d.handoff_no_frame_reason);
    push_str(&mut s, ",decodable_source=");
    push_text_or_none(&mut s, &d.decodable_source);
    push_str(&mut s, ",retained_keyframe_available=");
    push_opt_bool(&mut s, d.retained_keyframe_available);
    push_str(&mut s, ",retained_keyframe_frame_id=");
    push_opt_nat(&mut s, d.retained_keyframe_frame_id);
    push_str(&mut s, ",selected_frame_available=");
    push_opt_bool(&mut s, d.selected_frame_available);
    push_str(&mut s, ",selected_frame_id=");
    push_opt_nat(&mut s, d.selected_frame_id);
    push_str(&mut s, ",selected_frame_source=");
    push_text_or_none(&mut s, &d.selected_frame_source);
    push_str(&mut s, ",target_selection_result=");
    push_str(&mut s, d.target_selection_result.as_str());
    push_str(&mut s, ",decode_attempted=");
    push_opt_bool(&mut s, d.decode_attempted);
    push_str(&mut s, ",decode_skipped_reason=");
    push_text_or_none(&mut s, &d.decode_skipped_reason);
    push_str(&mut s, ",decode_error=");
    push_text_or_none(&mut s, &d.decode_error);
    push_str(&mut s, ",decode_input_payload_len=");
    push_opt_usize(&mut s, d.decode_input_payload_len);
    push_str(&mut s, ",decode_expected_width=");
    push_opt_u32(&mut s, d.decode_expected_width);
    push_str(&mut s, ",decode_expected_height=");
    push_opt_u32(&mut s, d.decode_expected_height);
    push_str(&mut s, ",decode_expected_pixel_format=");
    push_text_or_none(&mut s, &d.decode_expected_pixel_format);
    push_str(&mut s, ",decode_expected_rawvideo_len=");
    push_opt_usize(&mut s, d.decode_expected_rawvideo_len);
    push_str(&mut s, ",decoded_stdout_len=");
    push_opt_usize(&mut s, d.decoded_stdout_len);
    push_str(&mut s, ",ffmpeg_exit_status=");
    push_opt_signed(&mut s, d.ffmpeg_exit_status);
    push_str(&mut s, ",ffmpeg_stderr_summary=");
    push_text_or_none(&mut s, &d.ffmpeg_stderr_summary);
    push_str(&mut s, ",payload_has_sps=");
    push_opt_bool(&mut s, d.payload_has_sps);
    push_str(&mut s, ",payload_has_pps=");
    push_opt_bool(&mut s, d.payload_has_pps);
    push_str(&mut s, ",payload_has_idr=");
    push_opt_bool(&mut s, d.payload_has_idr);
    push_str(&mut s, ",payload_has_non_idr_vcl=");
    push_opt_bool(&mut s, d.payload_has_non_idr_vcl);
    push_str(&mut s, ",payload_nal_kinds=");
    push_text_or_none(&mut s, &d.payload_nal_kinds);
    push_str(&mut s, ",renderable_frame_available=");
    push_opt_bool(&mut s, d.renderable_frame_available);
    push_str(&mut s, ",renderable_frame_missing_reason=");
    push_text_or_none(&mut s, &d.renderable_frame_missing_reason);
    push_str(&mut s, ",render_input_kind=");
    push_str(&mut s, d.render_input_kind.as_str());
    push_str(&mut s, ",final_slot_result_kind=");
    push_str(&mut s, d.final_slot_result_kind.as_str());
    s
}

} // verus!
