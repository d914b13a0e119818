//! The read modes of the queued-frame handoff and the fixture modes of the
//! four-view proofs, with their command-line names.

use vstd::prelude::*;

verus! {

/// How the switcher reads one client's queue.
#[derive(Debug, Clone, Copy, PartialEq, Eq, Structural)]
pub enum QueueSourceMode {
    PreviewOldest,
    PreviewLatest,
    PreviewLatestDecodable,
    ConsumeOldest,
}

/// How the server answers a queued-frame read.
#[derive(Debug, Clone, Copy, PartialEq, Eq, Structural)]
pub enum QueuedFrameReadMode {
    InspectOldest,
    InspectLatest,
    InspectLatestDecodable,
    DequeueOldest,
}

/// How a slot picks its frame against the target time.
#[derive(Debug, Clone, Copy, PartialEq, Eq, Structural)]
pub enum TargetTimeSourceMode {
    PreviewOldestIfAtOrBefore,
    PreviewLatestIfAtOrBefore,
    PreviewLatestDecodableIfAtOrBefore,
    ConsumeOldestAtOrBefore,
}

/// The deterministic fixture that a four-view proof runs on.
#[derive(Debug, Clone, Copy, PartialEq, Eq, Structural)]
pub enum ManualPreviewFixtureMode {
    AllRenderable,
    MixedPlaceholderAndSourceError,
    PlaceholderOnly,
}

/// The command-line name of a queue source mode.
pub open spec fn queue_source_mode_name(mode: QueueSourceMode) -> Seq<char> {
    match mode {
        QueueSourceMode::PreviewOldest => "preview-oldest"@,
        QueueSourceMode::PreviewLatest => "preview-latest"@,
        QueueSourceMode::PreviewLatestDecodable => "preview-latest-decodable"@,
        QueueSourceMode::ConsumeOldest => "consume-oldest"@,
    }
}

/// The command-line name of a queue source mode.
pub fn format_handoff_mode(mode: QueueSourceMode) -> (r: &'static str)
    ensures
        r@ == queue_source_mode_name(mode),
{
    match mode {
        QueueSourceMode::PreviewOldest => "preview-oldest",
        QueueSourceMode::PreviewLatest => "preview-latest",
        QueueSourceMode::PreviewLatestDecodable => "preview-latest-decodable",
        QueueSourceMode::ConsumeOldest => "consume-oldest",
    }
}

/// The server read mode that serves a queue source mode: each preview mode
/// inspects without removing, and consuming dequeues.
pub open spec fn read_mode_of(mode: QueueSourceMode) -> QueuedFrameReadMode {
    match mode {
        QueueSourceMode::PreviewOldest => QueuedFrameReadMode::InspectOldest,
        QueueSourceMode::PreviewLatest => QueuedFrameReadMode::InspectLatest,
        QueueSourceMode::PreviewLatestDecodable => QueuedFrameReadMode::InspectLatestDecodable,
        QueueSourceMode::ConsumeOldest => QueuedFrameReadMode::DequeueOldest,
    }
}

/// The server read mode that serves a queue source mode.
pub fn handoff_read_mode_from_switcher_mode(mode: QueueSourceMode) -> (r: QueuedFrameReadMode)
    ensures
        r == read_mode_of(mode),
{
    match mode {
        QueueSourceMode::PreviewOldest => QueuedFrameReadMode::InspectOldest,
        QueueSourceMode::PreviewLatest => QueuedFrameReadMode::InspectLatest,
        QueueSourceMode::PreviewLatestDecodable => QueuedFrameReadMode::InspectLatestDecodable,
        QueueSourceMode::ConsumeOldest => QueuedFrameReadMode::DequeueOldest,
    }
}

/// The target-time selection that a queue source mode asks for.
pub open spec fn target_time_mode_of(mode: QueueSourceMode) -> TargetTimeSourceMode {
    match mode {
        QueueSourceMode::PreviewOldest => TargetTimeSourceMode::PreviewOldestIfAtOrBefore,
        QueueSourceMode::PreviewLatest => TargetTimeSourceMode::PreviewLatestIfAtOrBefore,
        QueueSourceMode::PreviewLatestDecodable =>
            TargetTimeSourceMode::PreviewLatestDecodableIfAtOrBefore,
        QueueSourceMode::ConsumeOldest => TargetTimeSourceMode::ConsumeOldestAtOrBefore,
    }
}

/// The target-time selection that a queue source mode asks for.
pub fn preview_target_time_mode_from_switcher_mode(mode: QueueSourceMode) -> (r:
    TargetTimeSourceMode)
    ensures
        r == target_time_mode_of(mode),
{
    match mode {
        QueueSourceMode::PreviewOldest => TargetTimeSourceMode::PreviewOldestIfAtOrBefore,
        QueueSourceMode::PreviewLatest => TargetTimeSourceMode::PreviewLatestIfAtOrBefore,
        QueueSourceMode::PreviewLatestDecodable =>
            TargetTimeSourceMode::PreviewLatestDecodableIfAtOrBefore,
        QueueSourceMode::ConsumeOldest => TargetTimeSourceMode::ConsumeOldestAtOrBefore,
    }
}

/// The summary name of a server read mode.
pub open spec fn read_mode_name(mode: QueuedFrameReadMode) -> Seq<char> {
    match mode {
        QueuedFrameReadMode::InspectOldest => "inspect-oldest"@,
        QueuedFrameReadMode::InspectLatest => "inspect-latest"@,
        QueuedFrameReadMode::InspectLatestDecodable => "inspect-latest-decodable"@,
        QueuedFrameReadMode::DequeueOldest => "dequeue-oldest"@,
    }
}

/// The summary name of a server read mode.
pub fn format_handoff_read_mode(mode: QueuedFrameReadMode) -> (r: &'static str)
    ensures
        r@ == read_mode_name(mode),
{
    match mode {
        QueuedFrameReadMode::InspectOldest => "inspect-oldest",
        QueuedFrameReadMode::InspectLatest => "inspect-latest",
        QueuedFrameReadMode::InspectLatestDecodable => "inspect-latest-decodable",
        QueuedFrameReadMode::DequeueOldest => "dequeue-oldest",
    }
}

/// The command-line name of a fixture mode.
pub open spec fn fixture_mode_name(mode: ManualPreviewFixtureMode) -> Seq<char> {
    match mode {
        ManualPreviewFixtureMode::AllRenderable => "all-renderable"@,
        ManualPreviewFixtureMode::MixedPlaceholderAndSourceError =>
            "mixed-placeholder-source-error"@,
        ManualPreviewFixtureMode::PlaceholderOnly => "placeholder-only"@,
    }
}

/// The command-line name of a fixture mode.
pub fn format_four_view_manual_preview_fixture_mode_name(mode: ManualPreviewFixtureMode) -> (r:
    &'static str)
    ensures
        r@ == fixture_mode_name(mode),
{
    match mode {
        ManualPreviewFixtureMode::AllRenderable => "all-renderable",
        ManualPreviewFixtureMode::MixedPlaceholderAndSourceError => "mixed-placeholder-source-error",
        ManualPreviewFixtureMode::PlaceholderOnly => "placeholder-only",
    }
}

} // verus!
