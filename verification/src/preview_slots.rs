//! Which source each of the four preview slots shows, how a slot binding is
//! written, and how the slots of a tick and its clean output are counted.
use vstd::prelude::*;
use crate::handoff_observation::FourViewPreviewSlotHandoffObservation;
use crate::identity::{TwoRealCleanOutputRenderOutcome, TwoRealQuadRenderSlot, TwoRealSelectedFrame};
use crate::text::{decimal, owned, push_decimal, push_str, str_eq};

verus! {

/// The source of one preview slot: its index, client and run.
#[derive(Debug, Clone, PartialEq, Eq)]
pub struct PreviewSlotConfig {
    pub slot_index: usize,
    pub client_id: String,
    pub run_id: String,
}

/// The client of a placeholder slot.
pub open spec fn placeholder_client(slot_index: nat) -> Seq<char> {
    "fixture-placeholder-slot-"@ + decimal(slot_index)
}

/// The run of a placeholder slot.
pub open spec fn placeholder_run(slot_index: nat) -> Seq<char> {
    "fixture-placeholder-run-"@ + decimal(slot_index)
}

/// Slot `i` shows the given client and run.
pub open spec fn slot_shows(slots: [PreviewSlotConfig; 4], i: int, client: Seq<char>, run: Seq<char>) -> bool {
    &&& slots@[i].slot_index == i
    &&& slots@[i].client_id@ == client
    &&& slots@[i].run_id@ == run
}

/// Slot `i` shows its placeholder source.
pub open spec fn slot_is_placeholder(slots: [PreviewSlotConfig; 4], i: int) -> bool {
    slot_shows(slots, i, placeholder_client(i as nat), placeholder_run(i as nat))
}

fn placeholder_slot(slot_index: usize) -> (r: PreviewSlotConfig)
    ensures
        r.slot_index == slot_index,
        r.client_id@ == placeholder_client(slot_index as nat),
        r.run_id@ == placeholder_run(slot_index as nat),
{
    let mut client_id = owned("fixture-placeholder-slot-");
    push_decimal(&mut client_id, slot_index as u128);
    let mut run_id = owned("fixture-placeholder-run-");
    push_decimal(&mut run_id, slot_index as u128);
    PreviewSlotConfig { slot_index, client_id, run_id }
}

fn real_slot(slot_index: usize, client_id: &String, run_id: &String) -> (r: PreviewSlotConfig)
    ensures
        r.slot_index == slot_index,
        r.client_id@ == client_id@,
        r.run_id@ == run_id@,
{
    PreviewSlotConfig {
        slot_index,
        client_id: owned(client_id.as_str()),
        run_id: owned(run_id.as_str()),
    }
}

/// The slots of the one-real preview: the real source at `real_slot_index`,
/// placeholders elsewhere.
pub fn default_four_view_real_handoff_preview_slots(
    real_slot_index: usize,
    real_client_id: String,
    real_run_id: String,
) -> (r: [PreviewSlotConfig; 4])
    ensures
        forall|i: int|
            0 <= i < 4 ==> if i == real_slot_index {
                slot_shows(r, i, real_client_id@, real_run_id@)
            } else {
                slot_is_placeholder(r, i)
            },
{
    let mut slots: [PreviewSlotConfig; 4] = [
        placeholder_slot(0),
        placeholder_slot(1),
        placeholder_slot(2),
        placeholder_slot(3),
    ];
    if real_slot_index < 4 {
        slots.set(real_slot_index, real_slot(real_slot_index, &real_client_id, &real_run_id));
    }
    slots
}

/// The slots of the two-real preview: the first source at `slot0_index`,
/// the second at `slot1_index` (the first wins where they coincide), and
/// placeholders elsewhere.
pub fn default_four_view_two_real_handoff_preview_slots(
    slot0_index: usize,
    client0_id: String,
    run0_id: String,
    slot1_index: usize,
    client1_id: String,
    run1_id: String,
) -> (r: [PreviewSlotConfig; 4])
    ensures
        forall|i: int|
            0 <= i < 4 ==> if i == slot0_index {
                slot_shows(r, i, client0_id@, run0_id@)
            } else if i == slot1_index {
                slot_shows(r, i, client1_id@, run1_id@)
            } else {
                slot_is_placeholder(r, i)
            },
{
    let mut slots: [PreviewSlotConfig; 4] = [
        placeholder_slot(0),
        placeholder_slot(1),
        placeholder_slot(2),
        placeholder_slot(3),
    ];
    if slot1_index < 4 {
        slots.set(slot1_index, real_slot(slot1_index, &client1_id, &run1_id));
    }
    if slot0_index < 4 {
        slots.set(slot0_index, real_slot(slot0_index, &client0_id, &run0_id));
    }
    slots
}

/// The slots of the four-real preview: source `i` in slot `i`.
pub fn default_four_view_four_real_handoff_preview_slots(
    client0_id: String,
    run0_id: String,
    client1_id: String,
    run1_id: String,
    client2_id: String,
    run2_id: String,
    client3_id: String,
    run3_id: String,
) -> (r: [PreviewSlotConfig; 4])
    ensures
        slot_shows(r, 0, client0_id@, run0_id@),
        slot_shows(r, 1, client1_id@, run1_id@),
        slot_shows(r, 2, client2_id@, run2_id@),
        slot_shows(r, 3, client3_id@, run3_id@),
{
    [
        PreviewSlotConfig { slot_index: 0, client_id: client0_id, run_id: run0_id },
        PreviewSlotConfig { slot_index: 1, client_id: client1_id, run_id: run1_id },
        PreviewSlotConfig { slot_index: 2, client_id: client2_id, run_id: run2_id },
        PreviewSlotConfig { slot_index: 3, client_id: client3_id, run_id: run3_id },
    ]
}

/// A slot binding as the loop summaries write it: `index:client/run`.
pub open spec fn slot_binding_text(slot: PreviewSlotConfig) -> Seq<char> {
    decimal(slot.slot_index as nat) + ":"@ + slot.client_id@ + "/"@ + slot.run_id@
}

/// Writes a slot binding.
pub fn format_four_view_slot_binding(slot: &PreviewSlotConfig) -> (r: String)
    ensures
        r@ == slot_binding_text(*slot),
{
    let mut s = String::new();
    push_decimal(&mut s, slot.slot_index as u128);
    push_str(&mut s, ":");
    push_str(&mut s, slot.client_id.as_str());
    push_str(&mut s, "/");
    push_str(&mut s, slot.run_id.as_str());
    assert(s@ =~= slot_binding_text(*slot));
    s
}

/// Whether a slot draws a decoded frame: an updated or held frame whose
/// decoded pixels are at hand.
pub open spec fn slot_is_renderable(slot: TwoRealQuadRenderSlot) -> bool {
    match slot {
        TwoRealQuadRenderSlot::UpdatedFrame { has_decoded, .. } => has_decoded,
        TwoRealQuadRenderSlot::HeldPreviousFrame { has_decoded, .. } => has_decoded,
        _ => false,
    }
}

/// Whether a slot draws a decoded frame.
pub fn focused_four_view_slot_is_renderable(slot: &TwoRealQuadRenderSlot) -> (r: bool)
    ensures
        r == slot_is_renderable(*slot),
{
    match slot {
        TwoRealQuadRenderSlot::UpdatedFrame { has_decoded, .. } => *has_decoded,
        TwoRealQuadRenderSlot::HeldPreviousFrame { has_decoded, .. } => *has_decoded,
        _ => false,
    }
}

/// How many of the first `n` slots draw a decoded frame.
pub open spec fn renderable_count(slots: [TwoRealQuadRenderSlot; 4], n: int) -> nat
    decreases n,
{
    if n <= 0 {
        0
    } else {
        renderable_count(slots, n - 1) + if slot_is_renderable(slots@[n - 1]) {
            1nat
        } else {
            0nat
        }
    }
}

/// How many slots draw a decoded frame.
pub fn count_renderable_four_view_slots(slots: &[TwoRealQuadRenderSlot; 4]) -> (r: u32)
    ensures
        r == renderable_count(*slots, 4),
        r <= 4,
{
    let mut count: u32 = 0;
    let mut i: usize = 0;
    while i < 4
        invariant
            0 <= i <= 4,
            count == renderable_count(*slots, i as int),
            count <= i,
        decreases 4 - i,
    {
        if focused_four_view_slot_is_renderable(&slots[i]) {
            count = count + 1;
        }
        i = i + 1;
    }
    count
}

/// How the clean output window of a tick came out.
#[derive(Debug, Clone, Copy, PartialEq, Eq, Structural)]
pub enum CleanOutputWindowResult {
    Rendered,
    RenderDeferred,
    BackendUnavailable,
    InvalidComposedFrame,
    RenderFailed,
    NoRenderableQuadView,
    InvalidQuadView,
}

/// The result kind that the summaries write for a clean output.
pub open spec fn clean_output_result_kind(result: CleanOutputWindowResult) -> Seq<char> {
    match result {
        CleanOutputWindowResult::Rendered => "Rendered"@,
        CleanOutputWindowResult::RenderDeferred => "RenderDeferred"@,
        CleanOutputWindowResult::BackendUnavailable => "BackendUnavailable"@,
        CleanOutputWindowResult::InvalidComposedFrame => "InvalidFrame"@,
        CleanOutputWindowResult::RenderFailed => "RenderFailed"@,
        CleanOutputWindowResult::NoRenderableQuadView => "NoRenderableQuadView"@,
        CleanOutputWindowResult::InvalidQuadView => "InvalidQuadView"@,
    }
}

/// Names how a clean output came out.
pub fn format_four_view_clean_output_window_result_kind(result: CleanOutputWindowResult) -> (r:
    &'static str)
    ensures
        r@ == clean_output_result_kind(result),
{
    match result {
        CleanOutputWindowResult::Rendered => "Rendered",
        CleanOutputWindowResult::RenderDeferred => "RenderDeferred",
        CleanOutputWindowResult::BackendUnavailable => "BackendUnavailable",
        CleanOutputWindowResult::InvalidComposedFrame => "InvalidFrame",
        CleanOutputWindowResult::RenderFailed => "RenderFailed",
        CleanOutputWindowResult::NoRenderableQuadView => "NoRenderableQuadView",
        CleanOutputWindowResult::InvalidQuadView => "InvalidQuadView",
    }
}

/// What a clean output counts as in a loop: a rendered frame, a render
/// failure, or neither. Only a render of a ready quad view that rendered or
/// failed counts; an invalid composed frame, like a deferred render or a
/// missing backend, counts as neither.
pub fn clean_output_render_outcome(result: CleanOutputWindowResult) -> (r:
    TwoRealCleanOutputRenderOutcome)
    ensures
        r == match result {
            CleanOutputWindowResult::Rendered => TwoRealCleanOutputRenderOutcome::Rendered,
            CleanOutputWindowResult::RenderFailed => TwoRealCleanOutputRenderOutcome::RenderFailed,
            _ => TwoRealCleanOutputRenderOutcome::NotRendered,
        },
{
    match result {
        CleanOutputWindowResult::Rendered => TwoRealCleanOutputRenderOutcome::Rendered,
        CleanOutputWindowResult::RenderFailed => TwoRealCleanOutputRenderOutcome::RenderFailed,
        _ => TwoRealCleanOutputRenderOutcome::NotRendered,
    }
}


/// Whether a clean output was rendered.
pub fn clean_output_window_result_was_rendered(result: CleanOutputWindowResult) -> (r: bool)
    ensures
        r == (result == CleanOutputWindowResult::Rendered),
{
    match result {
        CleanOutputWindowResult::Rendered => true,
        _ => false,
    }
}

/// What the render-facing connection made of a composition.
#[derive(Debug, Clone, Copy, PartialEq, Eq, Structural)]
pub enum RenderFacingResult {
    RenderReady,
    NoRenderableQuadView,
    InvalidQuadView,
}

/// The summary name of a render-facing result.
pub open spec fn render_facing_result_kind(result: RenderFacingResult) -> Seq<char> {
    match result {
        RenderFacingResult::RenderReady => "RenderReady"@,
        RenderFacingResult::NoRenderableQuadView => "NoRenderableQuadView"@,
        RenderFacingResult::InvalidQuadView => "InvalidQuadView"@,
    }
}

/// Names a render-facing result.
pub fn format_four_view_render_facing_result_kind(result: RenderFacingResult) -> (r: &'static str)
    ensures
        r@ == render_facing_result_kind(result),
{
    match result {
        RenderFacingResult::RenderReady => "RenderReady",
        RenderFacingResult::NoRenderableQuadView => "NoRenderableQuadView",
        RenderFacingResult::InvalidQuadView => "InvalidQuadView",
    }
}

/// How the window renderer answered a render request.
#[derive(Debug, Clone, Copy, PartialEq, Eq, Structural)]
pub enum WindowRenderResult {
    Rendered,
    RenderDeferred,
    BackendUnavailable,
    InvalidFrame,
    RenderFailed,
}

/// The summary name of a window render result.
pub open spec fn window_render_result_kind(result: WindowRenderResult) -> Seq<char> {
    match result {
        WindowRenderResult::Rendered => "Rendered"@,
        WindowRenderResult::RenderDeferred => "RenderDeferred"@,
        WindowRenderResult::BackendUnavailable => "BackendUnavailable"@,
        WindowRenderResult::InvalidFrame => "InvalidFrame"@,
        WindowRenderResult::RenderFailed => "RenderFailed"@,
    }
}

/// Names how the window renderer answered.
pub fn format_focused_window_render_result_kind(result: WindowRenderResult) -> (r: &'static str)
    ensures
        r@ == window_render_result_kind(result),
{
    match result {
        WindowRenderResult::Rendered => "Rendered",
        WindowRenderResult::RenderDeferred => "RenderDeferred",
        WindowRenderResult::BackendUnavailable => "BackendUnavailable",
        WindowRenderResult::InvalidFrame => "InvalidFrame",
        WindowRenderResult::RenderFailed => "RenderFailed",
    }
}


/// Whether a slot shows the given client and run.
pub open spec fn slot_has_source(slot: PreviewSlotConfig, client: Seq<char>, run: Seq<char>) -> bool {
    slot.client_id@ == client && slot.run_id@ == run
}

/// The slot a handoff for `client`/`run` belongs to: the first slot showing
/// that source, or slot 0 when none does.
pub open spec fn handoff_slot_index(slots: [PreviewSlotConfig; 4], client: Seq<char>, run: Seq<char>) -> int {
    if slot_has_source(slots@[0], client, run) {
        0
    } else if slot_has_source(slots@[1], client, run) {
        1
    } else if slot_has_source(slots@[2], client, run) {
        2
    } else if slot_has_source(slots@[3], client, run) {
        3
    } else {
        0
    }
}

/// Whether `client`/`run` is one of the real sources.
pub open spec fn is_real_source(real_sources: Seq<(String, String)>, client: Seq<char>, run: Seq<char>) -> bool {
    exists|j: int|
        0 <= j < real_sources.len() && #[trigger] real_sources[j].0@ == client
            && real_sources[j].1@ == run
}

/// Routes the handoffs of the four preview slots: a request for a real
/// source goes to the real handoff, any other is answered in place with no
/// frame; and what each slot's handoff was seen to do in the current tick is
/// kept for its diagnostic.
pub struct PreviewHandoffRouter {
    pub slots: [PreviewSlotConfig; 4],
    pub real_sources: Vec<(String, String)>,
    pub last_frame_slot_observations: [Option<FourViewPreviewSlotHandoffObservation>; 4],
}

impl PreviewHandoffRouter {
    /// A router for `slots` whose real sources are `real_sources`, nothing
    /// seen yet.
    pub fn new(slots: [PreviewSlotConfig; 4], real_sources: Vec<(String, String)>) -> (r: Self)
        ensures
            r.slots == slots,
            r.real_sources@ == real_sources@,
            forall|i: int| 0 <= i < 4 ==> #[trigger] r.last_frame_slot_observations@[i] is None,
    {
        PreviewHandoffRouter {
            slots,
            real_sources,
            last_frame_slot_observations: [None, None, None, None],
        }
    }

    /// Starts a tick: nothing has been seen of any slot yet.
    pub fn begin_frame(&mut self)
        ensures
            final(self).slots == old(self).slots,
            final(self).real_sources@ == old(self).real_sources@,
            forall|i: int| 0 <= i < 4 ==> #[trigger] final(self).last_frame_slot_observations@[i] is None,
    {
        self.last_frame_slot_observations = [None, None, None, None];
    }

    /// Where a handoff for `client_id`/`run_id` goes: its slot, and whether
    /// the real handoff serves it.
    pub fn route(&self, client_id: &str, run_id: &str) -> (r: (usize, bool))
        ensures
            r.0 == handoff_slot_index(self.slots, client_id@, run_id@),
            r.1 == is_real_source(self.real_sources@, client_id@, run_id@),
    {
        let mut slot_index: usize = 0;
        let mut i: usize = 4;
        while i > 0
            invariant
                0 <= i <= 4,
                slot_index < 4,
                (forall|k: int| i <= k < 4 ==> !slot_has_source(#[trigger] self.slots@[k], client_id@, run_id@))
                    ==> slot_index == 0,
                (exists|k: int| i <= k < 4 && slot_has_source(#[trigger] self.slots@[k], client_id@, run_id@))
                    ==> (slot_has_source(self.slots@[slot_index as int], client_id@, run_id@) && i <= slot_index
                    && forall|k: int| i <= k < slot_index ==> !slot_has_source(#[trigger] self.slots@[k], client_id@, run_id@)),
            decreases i,
        {
            i = i - 1;
            let slot = &self.slots[i];
            if str_eq(slot.client_id.as_str(), client_id) && str_eq(slot.run_id.as_str(), run_id) {
                slot_index = i;
            }
        }
        let mut served_by_real = false;
        let mut j: usize = 0;
        while j < self.real_sources.len()
            invariant
                0 <= j <= self.real_sources@.len(),
                served_by_real == exists|k: int|
                    0 <= k < j && #[trigger] self.real_sources@[k].0@ == client_id@
                        && self.real_sources@[k].1@ == run_id@,
            decreases self.real_sources@.len() - j,
        {
            let source = &self.real_sources[j];
            if str_eq(source.0.as_str(), client_id) && str_eq(source.1.as_str(), run_id) {
                served_by_real = true;
            }
            j = j + 1;
        }
        (slot_index, served_by_real)
    }

    /// Keeps what a slot's handoff was seen to do in this tick.
    pub fn record_observation(
        &mut self,
        slot_index: usize,
        observation: FourViewPreviewSlotHandoffObservation,
    )
        requires
            slot_index < 4,
        ensures
            final(self).slots == old(self).slots,
            final(self).real_sources@ == old(self).real_sources@,
            final(self).last_frame_slot_observations@ == old(self).last_frame_slot_observations@.update(
                slot_index as int,
                Some(observation),
            ),
    {
        self.last_frame_slot_observations.set(slot_index, Some(observation));
    }
}

/// Holding a frame over does not change whether it can be drawn: a held
/// frame is renderable exactly when the same frame, freshly updated, would
/// be, which is when its decoded pixels are at hand. A held frame without
/// decoded pixels and every placeholder are never renderable.
pub proof fn law_held_frame_renders_like_updated_frame(
    selected: Option<TwoRealSelectedFrame>,
    has_decoded: bool,
    slot: TwoRealQuadRenderSlot,
)
    ensures
        slot_is_renderable(TwoRealQuadRenderSlot::HeldPreviousFrame { selected, has_decoded })
            == slot_is_renderable(TwoRealQuadRenderSlot::UpdatedFrame { selected, has_decoded }),
        slot_is_renderable(TwoRealQuadRenderSlot::UpdatedFrame { selected, has_decoded: true }),
        !slot_is_renderable(TwoRealQuadRenderSlot::UpdatedFrame { selected, has_decoded: false }),
        !slot_is_renderable(TwoRealQuadRenderSlot::HeldPreviousFrameWithoutDecoded { selected }),
        !(slot is UpdatedFrame || slot is HeldPreviousFrame) ==> !slot_is_renderable(slot),
{
}

/// Counting renderable slots counts a held frame with decoded pixels as it
/// counts an updated one: putting one in place of the other in a slot
/// leaves the count as it was.
pub proof fn law_holding_a_frame_keeps_the_count(
    slots: [TwoRealQuadRenderSlot; 4],
    held: [TwoRealQuadRenderSlot; 4],
    i: int,
    selected: Option<TwoRealSelectedFrame>,
    has_decoded: bool,
)
    requires
        0 <= i < 4,
        slots@[i] == (TwoRealQuadRenderSlot::UpdatedFrame { selected, has_decoded }),
        held@[i] == (TwoRealQuadRenderSlot::HeldPreviousFrame { selected, has_decoded }),
        forall|k: int| 0 <= k < 4 && k != i ==> held@[k] == slots@[k],
    ensures
        renderable_count(held, 4) == renderable_count(slots, 4),
{
    assert forall|k: int| 0 <= k < 4 implies #[trigger] slot_is_renderable(held@[k])
        == slot_is_renderable(slots@[k]) by {
        if k != i {
            assert(held@[k] == slots@[k]);
        }
    }
    assert(renderable_count(held, 0) == renderable_count(slots, 0));
    assert(slot_is_renderable(held@[0]) == slot_is_renderable(slots@[0]));
    assert(slot_is_renderable(held@[1]) == slot_is_renderable(slots@[1]));
    assert(slot_is_renderable(held@[2]) == slot_is_renderable(slots@[2]));
    assert(slot_is_renderable(held@[3]) == slot_is_renderable(slots@[3]));
    assert(renderable_count(held, 1) == renderable_count(slots, 1));
    assert(renderable_count(held, 2) == renderable_count(slots, 2));
    assert(renderable_count(held, 3) == renderable_count(slots, 3));
}

} // verus!
