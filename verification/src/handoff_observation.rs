//! What one queued-frame handoff of a preview slot was seen to do, as plain
//! values: the named-pipe request and its reply, the handoff's result, what
//! inspecting the frame's payload found, and the scheduler's result for the
//! slot; with the names the diagnostics give them.
use vstd::prelude::*;
use crate::text::{owned, push_str, string_views};

verus! {

/// Where the decodable payload of a handoff came from.
#[derive(Debug, Clone, Copy, PartialEq, Eq, Structural)]
pub enum HandoffDecodableSource {
    NoSource,
    Queue,
    RetainedKeyframe,
}

/// The diagnostic name of a decodable source.
pub open spec fn decodable_source_name(source: HandoffDecodableSource) -> Seq<char> {
    match source {
        HandoffDecodableSource::NoSource => "none"@,
        HandoffDecodableSource::Queue => "queue"@,
        HandoffDecodableSource::RetainedKeyframe => "retained_keyframe"@,
    }
}

/// Names a decodable source.
pub fn format_handoff_decodable_source(source: HandoffDecodableSource) -> (r: &'static str)
    ensures
        r@ == decodable_source_name(source),
{
    match source {
        HandoffDecodableSource::NoSource => "none",
        HandoffDecodableSource::Queue => "queue",
        HandoffDecodableSource::RetainedKeyframe => "retained_keyframe",
    }
}

/// Why the server had no frame to hand off.
#[derive(Debug, Clone, Copy, PartialEq, Eq, Structural)]
pub enum HandoffNoFrameReason {
    NoFramesQueuedForClient,
    NoFramesQueuedForRequestedRun,
    NoDecodableFrameAvailable,
}

/// The diagnostic name of a no-frame reason.
pub open spec fn no_frame_reason_name(reason: HandoffNoFrameReason) -> Seq<char> {
    match reason {
        HandoffNoFrameReason::NoFramesQueuedForClient => "NoFramesQueuedForClient"@,
        HandoffNoFrameReason::NoFramesQueuedForRequestedRun => "NoFramesQueuedForRequestedRun"@,
        HandoffNoFrameReason::NoDecodableFrameAvailable => "NoDecodableFrameAvailable"@,
    }
}

/// Names a no-frame reason.
pub fn format_handoff_no_frame_reason(reason: HandoffNoFrameReason) -> (r: &'static str)
    ensures
        r@ == no_frame_reason_name(reason),
{
    match reason {
        HandoffNoFrameReason::NoFramesQueuedForClient => "NoFramesQueuedForClient",
        HandoffNoFrameReason::NoFramesQueuedForRequestedRun => "NoFramesQueuedForRequestedRun",
        HandoffNoFrameReason::NoDecodableFrameAvailable => "NoDecodableFrameAvailable",
    }
}

/// What inspecting a frame's Annex B payload found: which parameter sets
/// and slice kinds it holds, and its NAL unit kinds in order, by name.
#[derive(Debug, Clone, PartialEq, Eq)]
pub struct PayloadInspection {
    pub has_sps: bool,
    pub has_pps: bool,
    pub has_idr: bool,
    pub has_non_idr_vcl: bool,
    pub nal_kinds: Vec<String>,
}

/// The names joined by `+`.
pub open spec fn plus_joined(names: Seq<Seq<char>>) -> Seq<char>
    decreases names.len(),
{
    if names.len() == 0 {
        Seq::empty()
    } else if names.len() == 1 {
        names[0]
    } else {
        plus_joined(names.drop_last()) + "+"@ + names.last()
    }
}

/// The NAL unit kinds of a payload as the diagnostics write them: `none`
/// for a payload without any, else their names joined by `+`.
pub open spec fn nal_kinds_text(names: Seq<Seq<char>>) -> Seq<char> {
    if names.len() == 0 {
        "none"@
    } else {
        plus_joined(names)
    }
}

/// Writes the NAL unit kinds of an inspected payload.
pub fn format_switcher_payload_nal_kinds(inspection: &PayloadInspection) -> (r: String)
    ensures
        r@ == nal_kinds_text(string_views(inspection.nal_kinds@)),
{
    let kinds = &inspection.nal_kinds;
    if kinds.len() == 0 {
        return owned("none");
    }
    let mut s = String::new();
    let mut i: usize = 0;
    while i < kinds.len()
        invariant
            0 <= i <= kinds.len(),
            s@ == plus_joined(string_views(kinds@.take(i as int))),
        decreases kinds.len() - i,
    {
        if i > 0 {
            push_str(&mut s, "+");
        }
        push_str(&mut s, kinds[i].as_str());
        assert(string_views(kinds@.take(i + 1)).drop_last() =~= string_views(kinds@.take(i as int)));
        i = i + 1;
    }
    assert(kinds@.take(kinds.len() as int) =~= kinds@);
    s
}

/// A frame handed off: its number, payload length, whether it is a
/// keyframe, and what its payload holds.
#[derive(Debug, Clone, PartialEq, Eq)]
pub struct HandoffFrameObservation {
    pub frame_id: u64,
    pub encoded_payload_len: usize,
    pub is_keyframe: bool,
    pub inspection: PayloadInspection,
}

/// The reply that the server's handoff pipe sent.
#[derive(Debug, Clone, PartialEq, Eq)]
pub enum HandoffResponseObservation {
    FrameRead {
        frame: HandoffFrameObservation,
        decodable_source: HandoffDecodableSource,
        retained_keyframe_available: bool,
        retained_keyframe_frame_id: Option<u64>,
    },
    NoFrame {
        no_frame_reason: HandoffNoFrameReason,
        decodable_source: HandoffDecodableSource,
        retained_keyframe_available: bool,
        retained_keyframe_frame_id: Option<u64>,
    },
    HandoffError,
}

/// The kind of a handoff reply, as the diagnostics name it.
pub open spec fn response_kind_name(response: HandoffResponseObservation) -> Seq<char> {
    match response {
        HandoffResponseObservation::FrameRead { .. } => "FrameRead"@,
        HandoffResponseObservation::NoFrame { .. } => "NoFrame"@,
        HandoffResponseObservation::HandoffError => "HandoffError"@,
    }
}

/// Names the kind of a handoff reply.
pub fn format_handoff_response_kind(response: &HandoffResponseObservation) -> (r: &'static str)
    ensures
        r@ == response_kind_name(*response),
{
    match response {
        HandoffResponseObservation::FrameRead { .. } => "FrameRead",
        HandoffResponseObservation::NoFrame { .. } => "NoFrame",
        HandoffResponseObservation::HandoffError => "HandoffError",
    }
}

/// What the handoff of a slot gave the loop.
#[derive(Debug, Clone, PartialEq, Eq)]
pub enum HandoffResultObservation {
    FrameRead { frame: HandoffFrameObservation },
    NoFrameAvailable,
    HandoffError,
}

/// The named-pipe exchange of a handoff request: errors met, the length of
/// the reply's payload, and the reply, where one was read.
#[derive(Debug, Clone, PartialEq, Eq)]
pub struct HandoffRuntimeObservation {
    pub parse_error: Option<String>,
    pub io_error: Option<String>,
    pub response_payload_len: Option<usize>,
    pub response: Option<HandoffResponseObservation>,
}

/// A handoff request: its number, the pipe it went to, an error met before
/// sending, and the exchange, where it took place.
#[derive(Debug, Clone, PartialEq, Eq)]
pub struct HandoffRequestObservation {
    pub request_id: u64,
    pub actual_pipe_path: Option<String>,
    pub local_error: Option<String>,
    pub runtime: Option<HandoffRuntimeObservation>,
}

/// What was seen of one slot's handoff in a tick: the request, where one was
/// made, and the result.
#[derive(Debug, Clone, PartialEq, Eq)]
pub struct FourViewPreviewSlotHandoffObservation {
    pub request_output: Option<HandoffRequestObservation>,
    pub result: HandoffResultObservation,
}

/// What the target-time scheduler decided for a slot.
#[derive(Debug, Clone, Copy, PartialEq, Eq, Structural)]
pub enum SchedulerSlotResult {
    Selected { frame_id: u64 },
    NoFrameAvailable,
    WaitingForFrameAtOrBeforeTarget,
    HandoffError,
}

/// The diagnostic name of a scheduler result.
pub open spec fn scheduler_slot_kind_name(result: SchedulerSlotResult) -> Seq<char> {
    match result {
        SchedulerSlotResult::Selected { .. } => "Selected"@,
        SchedulerSlotResult::NoFrameAvailable => "NoFrameAvailable"@,
        SchedulerSlotResult::WaitingForFrameAtOrBeforeTarget => "WaitingForFrameAtOrBeforeTarget"@,
        SchedulerSlotResult::HandoffError => "HandoffError"@,
    }
}

/// Names a scheduler result.
pub fn format_four_view_real_handoff_scheduler_slot_kind(result: &SchedulerSlotResult) -> (r:
    &'static str)
    ensures
        r@ == scheduler_slot_kind_name(*result),
{
    match result {
        SchedulerSlotResult::Selected { .. } => "Selected",
        SchedulerSlotResult::NoFrameAvailable => "NoFrameAvailable",
        SchedulerSlotResult::WaitingForFrameAtOrBeforeTarget => "WaitingForFrameAtOrBeforeTarget",
        SchedulerSlotResult::HandoffError => "HandoffError",
    }
}


/// How the handoff request was sent.
#[derive(Debug, Clone, Copy, PartialEq, Eq, Structural)]
pub enum HandoffRequestStatus {
    Sent,
    EncodedOnly,
    EncodeFailed,
}

/// The summary name of a request status.
pub open spec fn request_status_name(status: HandoffRequestStatus) -> Seq<char> {
    match status {
        HandoffRequestStatus::Sent => "sent"@,
        HandoffRequestStatus::EncodedOnly => "encoded"@,
        HandoffRequestStatus::EncodeFailed => "encode_failed"@,
    }
}

/// Names how the handoff request was sent.
pub fn format_named_pipe_request_status(status: HandoffRequestStatus) -> (r: &'static str)
    ensures
        r@ == request_status_name(status),
{
    match status {
        HandoffRequestStatus::Sent => "sent",
        HandoffRequestStatus::EncodedOnly => "encoded",
        HandoffRequestStatus::EncodeFailed => "encode_failed",
    }
}

/// Whether a reply to the handoff request was decoded.
#[derive(Debug, Clone, Copy, PartialEq, Eq, Structural)]
pub enum HandoffResponseStatus {
    Decoded,
    NotDecoded,
}

/// The summary name of a response status.
pub open spec fn response_status_name(status: HandoffResponseStatus) -> Seq<char> {
    match status {
        HandoffResponseStatus::Decoded => "decoded"@,
        HandoffResponseStatus::NotDecoded => "none"@,
    }
}

/// Names whether a reply was decoded.
pub fn format_named_pipe_response_status(status: HandoffResponseStatus) -> (r: &'static str)
    ensures
        r@ == response_status_name(status),
{
    match status {
        HandoffResponseStatus::Decoded => "decoded",
        HandoffResponseStatus::NotDecoded => "none",
    }
}

/// How a named-pipe handoff ended.
#[derive(Debug, Clone, Copy, PartialEq, Eq, Structural)]
pub enum HandoffFinalResult {
    FrameRead,
    NoFrameAvailable,
    HandoffError,
}

/// The summary name of how a handoff ended.
pub open spec fn final_result_name(result: HandoffFinalResult) -> Seq<char> {
    match result {
        HandoffFinalResult::FrameRead => "FrameRead"@,
        HandoffFinalResult::NoFrameAvailable => "NoFrame"@,
        HandoffFinalResult::HandoffError => "HandoffError"@,
    }
}

/// Names how a handoff ended.
pub fn format_named_pipe_final_result(result: HandoffFinalResult) -> (r: &'static str)
    ensures
        r@ == final_result_name(result),
{
    match result {
        HandoffFinalResult::FrameRead => "FrameRead",
        HandoffFinalResult::NoFrameAvailable => "NoFrame",
        HandoffFinalResult::HandoffError => "HandoffError",
    }
}

/// Whether a failed handoff is worth trying again on a later scheduler tick.
#[derive(Debug, Clone, Copy, PartialEq, Eq, Structural)]
pub enum HandoffRetryClassification {
    RetryableLaterSchedulerTick,
    NonRetryable,
}

/// The summary name of a retry classification, `none` where there is none.
pub open spec fn retry_classification_name(classification: Option<HandoffRetryClassification>) -> Seq<
    char,
> {
    match classification {
        Some(HandoffRetryClassification::RetryableLaterSchedulerTick) =>
            "RetryableLaterSchedulerTick"@,
        Some(HandoffRetryClassification::NonRetryable) => "NonRetryable"@,
        None => "none"@,
    }
}

/// Names a retry classification.
pub fn format_named_pipe_retry_classification(
    classification: Option<HandoffRetryClassification>,
) -> (r: &'static str)
    ensures
        r@ == retry_classification_name(classification),
{
    match classification {
        Some(HandoffRetryClassification::RetryableLaterSchedulerTick) =>
            "RetryableLaterSchedulerTick",
        Some(HandoffRetryClassification::NonRetryable) => "NonRetryable",
        None => "none",
    }
}

} // verus!
