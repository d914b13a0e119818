//! The quad view of the two-real preview loop: four slots, each a decoded
//! frame or a placeholder, drawn by nearest neighbour into one
//! 1280 by 720 BGRA canvas that is kept from tick to tick.

use vstd::prelude::*;
use crate::pixels::{fill_two_real_bgra, fill_two_real_bgra_rows, lemma_full_rows_filled, pixel_byte, rows_filled};
use crate::identity::{slot_changed, two_real_preview_loop_changed_visual_slots, TwoRealPreviewLoopSlotVisualIdentity};

verus! {

fn bgra_eq(a: [u8; 4], b: [u8; 4]) -> (r: bool)
    ensures
        r == (a@ == b@),
{
    let r = a[0] == b[0] && a[1] == b[1] && a[2] == b[2] && a[3] == b[3];
    if r {
        assert(a@ =~= b@);
    }
    r
}

/// `len` bytes of pixels of one colour.
pub open spec fn bgra_pattern(len: nat, color: [u8; 4]) -> Seq<u8> {
    Seq::new(len, |i: int| color@[i % 4])
}

/// The canvas that the quad composition draws into, kept from one tick to
/// the next so that its bytes and its placeholder row are not allocated
/// again.
#[derive(Debug, Clone)]
pub struct TwoRealPreviewLoopQuadCompositionCache {
    width: u32,
    height: u32,
    placeholder_bgra: [u8; 4],
    pixels: Vec<u8>,
    placeholder_row_width: u32,
    placeholder_row_bgra: [u8; 4],
    placeholder_row: Vec<u8>,
    allocation_count: u32,
}

impl TwoRealPreviewLoopQuadCompositionCache {
    /// The placeholder row is always one colour: the colour it was filled
    /// with.
    pub closed spec fn wf(&self) -> bool {
        self.placeholder_row@ == bgra_pattern(self.placeholder_row@.len(), self.placeholder_row_bgra)
    }

    /// The canvas bytes.
    pub closed spec fn canvas(&self) -> Seq<u8> {
        self.pixels@
    }

    /// The placeholder row.
    pub closed spec fn row(&self) -> Seq<u8> {
        self.placeholder_row@
    }

    /// How many times the canvas had to be allocated.
    pub closed spec fn allocations(&self) -> u32 {
        self.allocation_count
    }

    /// The canvas size and placeholder colour of the last composition.
    pub closed spec fn canvas_format(&self) -> (u32, u32, [u8; 4]) {
        (self.width, self.height, self.placeholder_bgra)
    }

    /// The width in pixels and the colour the placeholder row was last
    /// painted for.
    pub closed spec fn row_format(&self) -> (u32, [u8; 4]) {
        (self.placeholder_row_width, self.placeholder_row_bgra)
    }

    /// An empty cache.
    pub fn new() -> (r: Self)
        ensures
            r.wf(),
            r.canvas_format() == (0u32, 0u32, [0u8, 0u8, 0u8, 0u8]),
            r.row_format() == (0u32, [0u8, 0u8, 0u8, 0u8]),
            r.canvas().len() == 0,
            r.row().len() == 0,
            r.allocations() == 0,
    {
        let r = TwoRealPreviewLoopQuadCompositionCache {
            width: 0,
            height: 0,
            placeholder_bgra: [0, 0, 0, 0],
            pixels: Vec::new(),
            placeholder_row_width: 0,
            placeholder_row_bgra: [0, 0, 0, 0],
            placeholder_row: Vec::new(),
            allocation_count: 0,
        };
        assert(r.placeholder_row@ =~= bgra_pattern(0, r.placeholder_row_bgra));
        r
    }

    /// The canvas bytes, for the composed frame.
    pub fn pixels(&self) -> (r: &Vec<u8>)
        ensures
            r@ == self.canvas(),
    {
        &self.pixels
    }

    /// How many times the canvas had to be allocated.
    pub fn allocation_count(&self) -> (r: u32)
        ensures
            r == self.allocations(),
    {
        self.allocation_count
    }

    /// Makes the canvas `len` bytes long for a `width` by `height` output
    /// drawn on `placeholder_bgra`; returns whether its length had to
    /// change, which is counted as an allocation. Bytes the canvas keeps
    /// keep their values; new bytes are zero.
    pub fn prepare_canvas(&mut self, width: u32, height: u32, len: usize, placeholder_bgra: [u8; 4]) -> (allocated: bool)
        requires
            old(self).wf(),
        ensures
            final(self).wf(),
            allocated == (old(self).canvas().len() != len),
            final(self).canvas().len() == len,
            len <= old(self).canvas().len() ==> final(self).canvas() == old(self).canvas().subrange(
                0,
                len as int,
            ),
            len > old(self).canvas().len() ==> final(self).canvas() == old(self).canvas() + Seq::new(
                (len - old(self).canvas().len()) as nat,
                |i: int| 0u8,
            ),
            final(self).allocations() == if allocated {
                if old(self).allocations() == u32::MAX {
                    u32::MAX
                } else {
                    (old(self).allocations() + 1) as u32
                }
            } else {
                old(self).allocations()
            },
            final(self).row() == old(self).row(),
            final(self).row_format() == old(self).row_format(),
            final(self).canvas_format() == (width, height, placeholder_bgra),
    {
        let needs_allocation = self.pixels.len() != len;
        if needs_allocation {
            let ghost before = self.pixels@;
            self.pixels.resize(len, 0);
            proof {
                if len > before.len() {
                }
            }
            self.allocation_count = self.allocation_count.saturating_add(1);
        }
        self.width = width;
        self.height = height;
        self.placeholder_bgra = placeholder_bgra;
        needs_allocation
    }

    /// Makes the placeholder row `width` pixels of `placeholder_bgra`,
    /// painting it anew only when its width or colour changed.
    pub fn prepare_placeholder_row(&mut self, width: u32, placeholder_bgra: [u8; 4])
        requires
            old(self).wf(),
            width * 4 <= usize::MAX,
        ensures
            final(self).wf(),
            final(self).row() == bgra_pattern((width * 4) as nat, placeholder_bgra),
            final(self).row_format() == (width, placeholder_bgra),
            final(self).canvas() == old(self).canvas(),
            final(self).allocations() == old(self).allocations(),
            final(self).canvas_format() == old(self).canvas_format(),
    {
        let len = width as usize * 4;
        if self.placeholder_row.len() != len || self.placeholder_row_width != width
            || !bgra_eq(self.placeholder_row_bgra, placeholder_bgra) {
            self.placeholder_row.resize(len, 0);
            fill_two_real_bgra(self.placeholder_row.as_mut_slice(), placeholder_bgra);
            self.placeholder_row_width = width;
            self.placeholder_row_bgra = placeholder_bgra;
            assert(self.placeholder_row@ =~= bgra_pattern(len as nat, placeholder_bgra));
        } else {
            assert(self.placeholder_row@ =~= bgra_pattern(len as nat, placeholder_bgra));
        }
    }
}


/// The width of the output canvas of the clean-output loop.
pub const FOUR_VIEW_CLEAN_OUTPUT_LOOP_OBS_OUTPUT_WIDTH: u32 = 1280;

/// The height of the output canvas of the clean-output loop.
pub const FOUR_VIEW_CLEAN_OUTPUT_LOOP_OBS_OUTPUT_HEIGHT: u32 = 720;

/// Where a slot sits in the 2×2 quad.
#[derive(Debug, Clone, Copy, PartialEq, Eq, Structural)]
pub struct TwoRealQuadSlotPlacement {
    pub row: u8,
    pub column: u8,
}

/// A decoded frame: its size, whether it is BGRA, and its bytes.
#[derive(Debug, Clone)]
pub struct TwoRealDecodedBgraFrame {
    pub width: u32,
    pub height: u32,
    pub is_bgra8: bool,
    pub pixels: Vec<u8>,
}

/// What a slot brings to the quad: a decoded frame to draw, a held frame
/// whose decoded pixels are missing, or nothing to draw.
#[derive(Debug, Clone)]
pub enum TwoRealQuadSlotPixels {
    Decoded(TwoRealDecodedBgraFrame),
    MissingDecodedPixels,
    NotRenderable,
}

/// One slot of the quad.
#[derive(Debug, Clone)]
pub struct TwoRealQuadCompositionSlot {
    pub placement: TwoRealQuadSlotPlacement,
    pub pixels: TwoRealQuadSlotPixels,
}

/// Where a slot was drawn on the canvas.
#[derive(Debug, Clone, Copy, PartialEq, Eq, Structural)]
pub struct TwoRealQuadSlotRect {
    pub placement: TwoRealQuadSlotPlacement,
    pub x: u32,
    pub y: u32,
    pub width: u32,
    pub height: u32,
}

/// Why the quad could not be drawn.
#[derive(Debug, Clone, Copy, PartialEq, Eq, Structural)]
pub enum TwoRealQuadCompositionInvalidReason {
    MissingDecodedPixels { placement: TwoRealQuadSlotPlacement },
    UnsupportedPixelFormat { placement: TwoRealQuadSlotPlacement },
    InvalidDimensions { placement: TwoRealQuadSlotPlacement },
    CanvasTooLarge,
    InvalidBufferLength { placement: TwoRealQuadSlotPlacement, expected: usize, actual: usize },
}

/// What composing the quad gave.
#[derive(Debug, Clone)]
pub enum TwoRealQuadComposition {
    ComposedFrame { width: u32, height: u32, pixels: Vec<u8>, rects: [TwoRealQuadSlotRect; 4] },
    InvalidQuadView { reason: TwoRealQuadCompositionInvalidReason },
    NoRenderableQuadView,
}

/// The rectangle of a slot whose cells are `slot_width` by `slot_height`.
pub open spec fn slot_rect(placement: TwoRealQuadSlotPlacement, slot_width: u32, slot_height: u32) -> TwoRealQuadSlotRect {
    TwoRealQuadSlotRect {
        placement,
        x: (placement.column * slot_width) as u32,
        y: (placement.row * slot_height) as u32,
        width: slot_width,
        height: slot_height,
    }
}

/// The rectangle a slot covers on a canvas of `slot_width` by
/// `slot_height` cells.
pub fn two_real_quad_slot_rect(placement: TwoRealQuadSlotPlacement, slot_width: u32, slot_height: u32) -> (r: TwoRealQuadSlotRect)
    requires
        placement.column * slot_width <= u32::MAX,
        placement.row * slot_height <= u32::MAX,
    ensures
        r == slot_rect(placement, slot_width, slot_height),
{
    TwoRealQuadSlotRect {
        placement,
        x: placement.column as u32 * slot_width,
        y: placement.row as u32 * slot_height,
        width: slot_width,
        height: slot_height,
    }
}

/// The placement of a slot whose decoded pixels are missing.
pub fn two_real_missing_decoded_slot_placement(slot: &TwoRealQuadCompositionSlot) -> (r: Option<
    TwoRealQuadSlotPlacement,
>)
    ensures
        r == (if slot.pixels is MissingDecodedPixels {
            Some(slot.placement)
        } else {
            None
        }),
{
    match slot.pixels {
        TwoRealQuadSlotPixels::MissingDecodedPixels => Some(slot.placement),
        _ => None,
    }
}

/// The first slot, from slot `i` on, whose decoded pixels are missing.
pub open spec fn first_missing(slots: [TwoRealQuadCompositionSlot; 4], i: int) -> Option<
    TwoRealQuadSlotPlacement,
>
    decreases 4 - i,
{
    if i < 0 || i >= 4 {
        None
    } else if slots@[i].pixels is MissingDecodedPixels {
        Some(slots@[i].placement)
    } else {
        first_missing(slots, i + 1)
    }
}

/// The larger of an optional size so far and a new one.
pub open spec fn widened(so_far: Option<u32>, d: u32) -> u32 {
    match so_far {
        Some(p) => if p >= d {
            p
        } else {
            d
        },
        None => d,
    }
}

/// The largest width (or, with `heights`, height) of the frames of the
/// first `n` slots, if any slot has one.
pub open spec fn max_dimension(slots: [TwoRealQuadCompositionSlot; 4], n: int, heights: bool) -> Option<u32>
    decreases n,
{
    if n <= 0 {
        None
    } else {
        let prev = max_dimension(slots, n - 1, heights);
        match slots@[n - 1].pixels {
            TwoRealQuadSlotPixels::Decoded(f) => Some(
                widened(
                    prev,
                    if heights {
                        f.height
                    } else {
                        f.width
                    },
                ),
            ),
            _ => prev,
        }
    }
}

/// The cell size of the quad: the largest frame width and height.
pub fn two_real_quad_slot_size(slots: &[TwoRealQuadCompositionSlot; 4]) -> (r: Option<(u32, u32)>)
    ensures
        match (max_dimension(*slots, 4, false), max_dimension(*slots, 4, true)) {
            (Some(w), Some(h)) => r == Some((w, h)),
            _ => r is None,
        },
{
    let mut width: Option<u32> = None;
    let mut height: Option<u32> = None;
    let mut i: usize = 0;
    while i < 4
        invariant
            0 <= i <= 4,
            width == max_dimension(*slots, i as int, false),
            height == max_dimension(*slots, i as int, true),
            width is Some <==> height is Some,
        decreases 4 - i,
    {
        match &slots[i].pixels {
            TwoRealQuadSlotPixels::Decoded(frame) => {
                width = Some(
                    match width {
                        Some(current) => if current >= frame.width {
                            current
                        } else {
                            frame.width
                        },
                        None => frame.width,
                    },
                );
                height = Some(
                    match height {
                        Some(current) => if current >= frame.height {
                            current
                        } else {
                            frame.height
                        },
                        None => frame.height,
                    },
                );
            },
            _ => {},
        }
        i = i + 1;
    }
    match (width, height) {
        (Some(w), Some(h)) => Some((w, h)),
        _ => None,
    }
}

/// Why a slot's frame cannot be drawn, if it cannot: it is not BGRA, it has
/// no area, its size does not fit a `u32` byte count, or its byte count is
/// not its size.
pub open spec fn slot_invalid(slot: TwoRealQuadCompositionSlot) -> Option<
    TwoRealQuadCompositionInvalidReason,
> {
    match slot.pixels {
        TwoRealQuadSlotPixels::Decoded(f) => if !f.is_bgra8 {
            Some(TwoRealQuadCompositionInvalidReason::UnsupportedPixelFormat { placement: slot.placement })
        } else if f.width == 0 || f.height == 0 {
            Some(TwoRealQuadCompositionInvalidReason::InvalidDimensions { placement: slot.placement })
        } else if f.width * f.height * 4 > u32::MAX {
            Some(TwoRealQuadCompositionInvalidReason::CanvasTooLarge)
        } else if f.pixels@.len() != f.width * f.height * 4 {
            Some(
                TwoRealQuadCompositionInvalidReason::InvalidBufferLength {
                    placement: slot.placement,
                    expected: (f.width * f.height * 4) as usize,
                    actual: f.pixels@.len() as usize,
                },
            )
        } else {
            None
        },
        _ => None,
    }
}

/// Checks that a slot's frame, if it has one, can be drawn.
pub fn validate_two_real_quad_renderable_slot(slot: &TwoRealQuadCompositionSlot) -> (r: Result<
    (),
    TwoRealQuadCompositionInvalidReason,
>)
    ensures
        match slot_invalid(*slot) {
            Some(reason) => r == Err::<(), TwoRealQuadCompositionInvalidReason>(reason),
            None => r is Ok,
        },
{
    let frame = match &slot.pixels {
        TwoRealQuadSlotPixels::Decoded(frame) => frame,
        _ => {
            return Ok(());
        },
    };
    if !frame.is_bgra8 {
        return Err(
            TwoRealQuadCompositionInvalidReason::UnsupportedPixelFormat { placement: slot.placement },
        );
    }
    if frame.width == 0 || frame.height == 0 {
        return Err(TwoRealQuadCompositionInvalidReason::InvalidDimensions { placement: slot.placement });
    }
    let area = frame.width.checked_mul(frame.height);
    let bytes = match area {
        Some(a) => a.checked_mul(4),
        None => None,
    };
    proof {
        assert(frame.width * frame.height * 4 > u32::MAX <==> bytes is None) by (nonlinear_arith)
            requires
                area == (if frame.width * frame.height > u32::MAX {
                    None::<u32>
                } else {
                    Some((frame.width * frame.height) as u32)
                }),
                bytes == (match area {
                    Some(a) => if a * 4 > u32::MAX {
                        None::<u32>
                    } else {
                        Some((a * 4) as u32)
                    },
                    None => None::<u32>,
                }),
        ;
    }
    let expected = match bytes {
        Some(len) => len as usize,
        None => {
            return Err(TwoRealQuadCompositionInvalidReason::CanvasTooLarge);
        },
    };
    if frame.pixels.len() != expected {
        return Err(
            TwoRealQuadCompositionInvalidReason::InvalidBufferLength {
                placement: slot.placement,
                expected,
                actual: frame.pixels.len(),
            },
        );
    }
    Ok(())
}

/// The first slot, from slot `i` on, that cannot be drawn, with why.
pub open spec fn first_invalid(slots: [TwoRealQuadCompositionSlot; 4], i: int) -> Option<
    TwoRealQuadCompositionInvalidReason,
>
    decreases 4 - i,
{
    if i < 0 || i >= 4 {
        None
    } else if slot_invalid(slots@[i]) is Some {
        slot_invalid(slots@[i])
    } else {
        first_invalid(slots, i + 1)
    }
}

/// What one composition of the quad did to the canvas.
#[derive(Debug, Clone, Copy, PartialEq, Eq, Structural)]
pub struct TwoRealPreviewLoopQuadCompositionUpdateDiagnostics {
    pub full_compose: bool,
    pub incremental_update: bool,
    pub changed_slot_count: u32,
    pub reused_slot_count: u32,
    pub allocation_count: u32,
}

/// Diagnostics of a composition that drew nothing.
pub open spec fn no_update_diagnostics() -> TwoRealPreviewLoopQuadCompositionUpdateDiagnostics {
    TwoRealPreviewLoopQuadCompositionUpdateDiagnostics {
        full_compose: false,
        incremental_update: false,
        changed_slot_count: 0,
        reused_slot_count: 0,
        allocation_count: 0,
    }
}

/// The coordinate on the virtual canvas, two cells of `cell` wide, that
/// output coordinate `i` of `output_size` is taken from.
pub open spec fn virtual_coordinate(i: int, cell: int, output_size: int) -> int {
    i * (cell * 2) / output_size
}

/// Whether output coordinate `i` samples one of the two cells, at an offset
/// within the cell.
pub open spec fn mapping_in_range(i: int, cell: int, output_size: int) -> bool {
    &&& 0 <= virtual_coordinate(i, cell, output_size) / cell
    &&& virtual_coordinate(i, cell, output_size) / cell < 2
    &&& 0 <= virtual_coordinate(i, cell, output_size) % cell
    &&& virtual_coordinate(i, cell, output_size) % cell < cell
}

/// Byte `c` of output pixel `(y, x)` of the quad: the virtual canvas of 2×2
/// cells of `cell_width` by `cell_height` is sampled by nearest neighbour;
/// the cell's frame gives the pixel when the frame covers the place,
/// otherwise the placeholder colour shows.
pub open spec fn composed_byte(
    slots: [TwoRealQuadCompositionSlot; 4],
    cell_width: u32,
    cell_height: u32,
    placeholder: [u8; 4],
    y: int,
    x: int,
    c: int,
) -> u8 {
    let vx = virtual_coordinate(x, cell_width as int, 1280);
    let vy = virtual_coordinate(y, cell_height as int, 720);
    let slot = slots@[(vy / cell_height as int) * 2 + vx / cell_width as int];
    let lx = vx % cell_width as int;
    let ly = vy % cell_height as int;
    match slot.pixels {
        TwoRealQuadSlotPixels::Decoded(f) => if lx < f.width && ly < f.height {
            f.pixels@[(ly * f.width + lx) * 4 + c]
        } else {
            placeholder@[c]
        },
        _ => placeholder@[c],
    }
}

/// Whether `pixels` is the 1280 by 720 quad of `slots`.
pub open spec fn composed_canvas(
    pixels: Seq<u8>,
    slots: [TwoRealQuadCompositionSlot; 4],
    cell_width: u32,
    cell_height: u32,
    placeholder: [u8; 4],
) -> bool {
    &&& pixels.len() == 1280 * 720 * 4
    &&& forall|y: int, x: int, c: int|
        0 <= y < 720 && 0 <= x < 1280 && 0 <= c < 4 ==> pixels[#[trigger] pixel_byte(1280, y, x, c)]
            == composed_byte(slots, cell_width, cell_height, placeholder, y, x, c)
}

/// What composing the quad of `slots` gives: a slot whose decoded pixels
/// are missing makes it invalid, no frame at all leaves nothing to draw, a
/// frame that cannot be drawn makes it invalid, a cell too large to double
/// makes the canvas too large, and otherwise the 1280 by 720 canvas is
/// drawn, each slot over a 640 by 360 rectangle.
pub open spec fn quad_composition_holds(
    slots: [TwoRealQuadCompositionSlot; 4],
    placeholder: [u8; 4],
    r: TwoRealQuadComposition,
) -> bool {
    match first_missing(slots, 0) {
        Some(placement) => r matches TwoRealQuadComposition::InvalidQuadView { reason }
            && reason == TwoRealQuadCompositionInvalidReason::MissingDecodedPixels { placement },
        None => match (max_dimension(slots, 4, false), max_dimension(slots, 4, true)) {
            (Some(cell_width), Some(cell_height)) => match first_invalid(slots, 0) {
                Some(reason) => r matches TwoRealQuadComposition::InvalidQuadView { reason: found }
                    && found == reason,
                None => if cell_width * 2 > u32::MAX || cell_height * 2 > u32::MAX {
                    r matches TwoRealQuadComposition::InvalidQuadView { reason }
                        && reason == TwoRealQuadCompositionInvalidReason::CanvasTooLarge
                } else {
                    &&& r matches TwoRealQuadComposition::ComposedFrame {
                        width,
                        height,
                        pixels,
                        rects,
                    }
                    &&& width == 1280
                    &&& height == 720
                    &&& composed_canvas(pixels@, slots, cell_width, cell_height, placeholder)
                    &&& forall|i: int|
                        0 <= i < 4 ==> #[trigger] rects@[i] == slot_rect(slots@[i].placement, 640, 360)
                },
            },
            _ => r is NoRenderableQuadView,
        },
    }
}

/// How many of the first `n` slots changed their picture since the
/// previous tick.
pub open spec fn changed_count(
    previous: Option<[TwoRealPreviewLoopSlotVisualIdentity; 4]>,
    current: [TwoRealPreviewLoopSlotVisualIdentity; 4],
    n: int,
) -> nat
    decreases n,
{
    if n <= 0 {
        0
    } else {
        changed_count(previous, current, n - 1) + if slot_changed(previous, current, n - 1) {
            1nat
        } else {
            0nat
        }
    }
}

proof fn lemma_cell_in_frame(row: int, column: int, width: int, height: int)
    requires
        0 <= row < height,
        0 <= column < width,
    ensures
        (row * width + column) * 4 + 4 <= width * height * 4,
        0 <= row * width,
{
    assert(row * width + column + 1 <= width * height) by (nonlinear_arith)
        requires
            0 <= row < height,
            0 <= column < width,
    ;
    assert(0 <= row * width) by (nonlinear_arith)
        requires
            0 <= row,
            0 <= width,
    ;
}

proof fn lemma_cell_size_positive(slots: [TwoRealQuadCompositionSlot; 4])
    requires
        forall|i: int| 0 <= i < 4 ==> #[trigger] slot_invalid(slots@[i]) is None,
    ensures
        forall|n: int|
            0 <= n <= 4 ==> (#[trigger] max_dimension(slots, n, false) matches Some(w) ==> w > 0),
        forall|n: int|
            0 <= n <= 4 ==> (#[trigger] max_dimension(slots, n, true) matches Some(h) ==> h > 0),
{
    assert forall|n: int| 0 <= n <= 4 implies (#[trigger] max_dimension(slots, n, false) matches Some(
        w,
    ) ==> w > 0) by {
        lemma_max_dimension_positive(slots, n, false);
    }
    assert forall|n: int| 0 <= n <= 4 implies (#[trigger] max_dimension(slots, n, true) matches Some(
        h,
    ) ==> h > 0) by {
        lemma_max_dimension_positive(slots, n, true);
    }
}

proof fn lemma_max_dimension_positive(slots: [TwoRealQuadCompositionSlot; 4], n: int, heights: bool)
    requires
        0 <= n <= 4,
        forall|i: int| 0 <= i < 4 ==> #[trigger] slot_invalid(slots@[i]) is None,
    ensures
        max_dimension(slots, n, heights) matches Some(d) ==> d > 0,
    decreases n,
{
    if n > 0 {
        lemma_max_dimension_positive(slots, n - 1, heights);
        assert(slot_invalid(slots@[n - 1]) is None);
    }
}

proof fn lemma_first_invalid_none(slots: [TwoRealQuadCompositionSlot; 4])
    requires
        first_invalid(slots, 0) is None,
    ensures
        forall|i: int| 0 <= i < 4 ==> #[trigger] slot_invalid(slots@[i]) is None,
{
    reveal_with_fuel(first_invalid, 5);
}

proof fn lemma_first_missing_none(slots: [TwoRealQuadCompositionSlot; 4])
    requires
        first_missing(slots, 0) is None,
    ensures
        forall|i: int| 0 <= i < 4 ==> !(#[trigger] slots@[i].pixels is MissingDecodedPixels),
{
    reveal_with_fuel(first_missing, 5);
}

proof fn lemma_cell_of_virtual(i: int, cell: int, output_size: int)
    requires
        0 <= i < output_size,
        0 < cell,
    ensures
        0 <= virtual_coordinate(i, cell, output_size) < cell * 2,
        0 <= virtual_coordinate(i, cell, output_size) / cell < 2,
        0 <= virtual_coordinate(i, cell, output_size) % cell < cell,
{
    let v = virtual_coordinate(i, cell, output_size);
    assert(0 <= i * (cell * 2)) by (nonlinear_arith)
        requires
            0 <= i,
            0 < cell,
    ;
    assert(i * (cell * 2) < output_size * (cell * 2)) by (nonlinear_arith)
        requires
            0 <= i < output_size,
            0 < cell,
    ;
    assert(0 <= v < cell * 2) by (nonlinear_arith)
        requires
            v == i * (cell * 2) / output_size,
            0 <= i * (cell * 2) < output_size * (cell * 2),
            0 < output_size,
    ;
    assert(0 <= v / cell < 2) by (nonlinear_arith)
        requires
            0 <= v < cell * 2,
            0 < cell,
    ;
}

fn copy_bytes(v: &Vec<u8>) -> (r: Vec<u8>)
    ensures
        r@ == v@,
{
    let mut r: Vec<u8> = Vec::new();
    let mut i: usize = 0;
    while i < v.len()
        invariant
            0 <= i <= v.len(),
            r@ == v@.take(i as int),
        decreases v.len() - i,
    {
        r.push(v[i]);
        i = i + 1;
    }
    r
}

/// The cells of the virtual canvas that each output coordinate samples.
fn virtual_mappings(cell: u32, output_size: u32) -> (r: Vec<(usize, u32)>)
    requires
        0 < cell,
        cell * 2 <= u32::MAX,
        0 < output_size,
    ensures
        r@.len() == output_size,
        forall|i: int|
            0 <= i < output_size ==> #[trigger] r@[i] == (
                (virtual_coordinate(i, cell as int, output_size as int) / cell as int) as usize,
                (virtual_coordinate(i, cell as int, output_size as int) % cell as int) as u32,
            ) && r@[i].0 < 2 && r@[i].1 < cell,
        forall|i: int|
            0 <= i < output_size ==> #[trigger] mapping_in_range(i, cell as int, output_size as int),
{
    let doubled: u64 = cell as u64 * 2;
    let mut r: Vec<(usize, u32)> = Vec::new();
    let mut i: u32 = 0;
    while i < output_size
        invariant
            0 <= i <= output_size,
            0 < cell,
            0 < output_size,
            cell * 2 <= u32::MAX,
            doubled == cell * 2,
            r@.len() == i,
            forall|k: int|
                0 <= k < i ==> #[trigger] r@[k] == (
                    (virtual_coordinate(k, cell as int, output_size as int) / cell as int) as usize,
                    (virtual_coordinate(k, cell as int, output_size as int) % cell as int) as u32,
                ) && r@[k].0 < 2 && r@[k].1 < cell,
        decreases output_size - i,
    {
        proof {
            lemma_cell_of_virtual(i as int, cell as int, output_size as int);
            assert(i * doubled <= u64::MAX) by (nonlinear_arith)
                requires
                    i < 0x1_0000_0000int,
                    doubled < 0x1_0000_0000int,
            ;
        }
        let v: u64 = i as u64 * doubled / output_size as u64;
        r.push(((v / cell as u64) as usize, (v % cell as u64) as u32));
        i = i + 1;
    }
    assert forall|i: int|
        0 <= i < output_size implies #[trigger] mapping_in_range(i, cell as int, output_size as int) by {
        lemma_cell_of_virtual(i, cell as int, output_size as int);
    }
    r
}

/// Composes the quad view of four slots into the cache's canvas, and says
/// how many slots changed their picture since the previous tick. Nothing
/// is drawn, and the cache is left as it was, when the quad is invalid or
/// has no frame.
pub fn compose_two_real_preview_quad_view_incremental(
    slots: &[TwoRealQuadCompositionSlot; 4],
    placeholder_bgra: [u8; 4],
    cache: &mut TwoRealPreviewLoopQuadCompositionCache,
    previous_visual_identities: Option<&[TwoRealPreviewLoopSlotVisualIdentity; 4]>,
    current_visual_identities: &[TwoRealPreviewLoopSlotVisualIdentity; 4],
) -> (r: (TwoRealQuadComposition, TwoRealPreviewLoopQuadCompositionUpdateDiagnostics))
    requires
        old(cache).wf(),
    ensures
        final(cache).wf(),
        quad_composition_holds(*slots, placeholder_bgra, r.0),
        !(r.0 is ComposedFrame) ==> r.1 == no_update_diagnostics() && *final(cache) == *old(cache),
        r.0 matches TwoRealQuadComposition::ComposedFrame { pixels, .. } ==> {
            let previous = match previous_visual_identities {
                Some(p) => Some(*p),
                None => None,
            };
            let changed = changed_count(previous, *current_visual_identities, 4);
            let allocated = old(cache).canvas().len() != 1280 * 720 * 4;
            &&& final(cache).canvas() == pixels@
            &&& final(cache).canvas_format() == (1280u32, 720u32, placeholder_bgra)
            &&& final(cache).row() == bgra_pattern(1280 * 4, placeholder_bgra)
            &&& final(cache).row_format() == (1280u32, placeholder_bgra)
            &&& r.1 == TwoRealPreviewLoopQuadCompositionUpdateDiagnostics {
                full_compose: true,
                incremental_update: false,
                changed_slot_count: changed as u32,
                reused_slot_count: (4 - changed) as u32,
                allocation_count: if allocated {
                    1
                } else {
                    0
                },
            }
            &&& final(cache).allocations() == if allocated {
                if old(cache).allocations() == u32::MAX {
                    u32::MAX
                } else {
                    (old(cache).allocations() + 1) as u32
                }
            } else {
                old(cache).allocations()
            }
        },
{
    let none = TwoRealPreviewLoopQuadCompositionUpdateDiagnostics {
        full_compose: false,
        incremental_update: false,
        changed_slot_count: 0,
        reused_slot_count: 0,
        allocation_count: 0,
    };
    let mut i: usize = 0;
    while i < 4
        invariant
            0 <= i <= 4,
            first_missing(*slots, 0) == first_missing(*slots, i as int),
            *cache == *old(cache),
            cache.wf(),
            none == no_update_diagnostics(),
        decreases 4 - i,
    {
        if let Some(placement) = two_real_missing_decoded_slot_placement(&slots[i]) {
            return (
                TwoRealQuadComposition::InvalidQuadView {
                    reason: TwoRealQuadCompositionInvalidReason::MissingDecodedPixels { placement },
                },
                none,
            );
        }
        i = i + 1;
    }
    proof {
        lemma_first_missing_none(*slots);
    }
    let (cell_width, cell_height) = match two_real_quad_slot_size(slots) {
        Some(size) => size,
        None => {
            return (TwoRealQuadComposition::NoRenderableQuadView, none);
        },
    };
    let mut k: usize = 0;
    while k < 4
        invariant
            0 <= k <= 4,
            first_invalid(*slots, 0) == first_invalid(*slots, k as int),
            *cache == *old(cache),
            cache.wf(),
            none == no_update_diagnostics(),
            first_missing(*slots, 0) is None,
            max_dimension(*slots, 4, false) == Some(cell_width),
            max_dimension(*slots, 4, true) == Some(cell_height),
        decreases 4 - k,
    {
        if let Err(reason) = validate_two_real_quad_renderable_slot(&slots[k]) {
            return (TwoRealQuadComposition::InvalidQuadView { reason }, none);
        }
        k = k + 1;
    }
    proof {
        lemma_first_invalid_none(*slots);
    }
    if cell_width > 0x7fff_ffff || cell_height > 0x7fff_ffff {
        return (
            TwoRealQuadComposition::InvalidQuadView {
                reason: TwoRealQuadCompositionInvalidReason::CanvasTooLarge,
            },
            none,
        );
    }
    proof {
        lemma_cell_size_positive(*slots);
    }
    let output_width: u32 = 1280;
    let output_height: u32 = 720;
    let output_len: usize = 1280 * 720 * 4;
    let changed_slots = two_real_preview_loop_changed_visual_slots(
        previous_visual_identities,
        current_visual_identities,
    );
    let allocated = cache.prepare_canvas(output_width, output_height, output_len, placeholder_bgra);
    cache.prepare_placeholder_row(output_width, placeholder_bgra);
    let ghost prepared = cache.pixels@;
    let ghost row = cache.placeholder_row@;
    fill_two_real_bgra_rows(
        cache.pixels.as_mut_slice(),
        output_width,
        0,
        0,
        output_width,
        output_height,
        cache.placeholder_row.as_slice(),
    );
    proof {
        assert(row.subrange(0, 5120) =~= row);
        lemma_full_rows_filled(prepared, 5120, row, 720);
        assert forall|yy: int, xx: int, cc: int|
            0 <= yy < 720 && 0 <= xx < 1280 && 0 <= cc < 4 implies cache.pixels@[
            #[trigger] pixel_byte(1280, yy, xx, cc)] == placeholder_bgra@[cc] by {
            let b = pixel_byte(1280, yy, xx, cc);
            vstd::arithmetic::div_mod::lemma_fundamental_div_mod_converse(b, 5120, yy, xx * 4 + cc);
            vstd::arithmetic::div_mod::lemma_fundamental_div_mod_converse(xx * 4 + cc, 4, xx, cc);
        }
    }
    let ghost allocations_after = cache.allocation_count;
    let x_mappings = virtual_mappings(cell_width, output_width);
    let y_mappings = virtual_mappings(cell_height, output_height);
    let ghost cw = cell_width;
    let ghost ch = cell_height;
    let mut y: usize = 0;
    while y < 720
        invariant
            cache.wf(),
            cache.pixels@.len() == 1280 * 720 * 4,
            0 <= y <= 720,
            0 < cw && 0 < ch,
            cw == cell_width && ch == cell_height,
            x_mappings@.len() == 1280,
            y_mappings@.len() == 720,
            forall|i: int|
                0 <= i < 1280 ==> #[trigger] x_mappings@[i] == (
                    (virtual_coordinate(i, cw as int, 1280) / cw as int) as usize,
                    (virtual_coordinate(i, cw as int, 1280) % cw as int) as u32,
                ) && x_mappings@[i].0 < 2 && x_mappings@[i].1 < cw,
            forall|i: int|
                0 <= i < 720 ==> #[trigger] y_mappings@[i] == (
                    (virtual_coordinate(i, ch as int, 720) / ch as int) as usize,
                    (virtual_coordinate(i, ch as int, 720) % ch as int) as u32,
                ) && y_mappings@[i].0 < 2 && y_mappings@[i].1 < ch,
            forall|i: int| 0 <= i < 1280 ==> #[trigger] mapping_in_range(i, cw as int, 1280),
            forall|i: int| 0 <= i < 720 ==> #[trigger] mapping_in_range(i, ch as int, 720),
            forall|i: int| 0 <= i < 4 ==> #[trigger] slot_invalid(slots@[i]) is None,
            forall|yy: int, xx: int, cc: int|
                0 <= yy < 720 && 0 <= xx < 1280 && 0 <= cc < 4 ==> cache.pixels@[
                #[trigger] pixel_byte(1280, yy, xx, cc)] == if yy < y {
                    composed_byte(*slots, cw, ch, placeholder_bgra, yy, xx, cc)
                } else {
                    placeholder_bgra@[cc]
                },
            cache.placeholder_row@ == row,
            cache.allocation_count == allocations_after,
            cache.canvas_format() == (1280u32, 720u32, placeholder_bgra) && cache.row_format() == (1280u32, placeholder_bgra) && cache.placeholder_row@ == bgra_pattern(1280 * 4, placeholder_bgra),
        decreases 720 - y,
    {
        let (slot_row, local_y) = y_mappings[y];
        proof {
            assert(mapping_in_range(y as int, ch as int, 720));
        }
        let mut x: usize = 0;
        while x < 1280
            invariant
                cache.wf(),
                cache.pixels@.len() == 1280 * 720 * 4,
                0 <= y < 720,
                0 <= x <= 1280,
                0 < cw && 0 < ch,
                cw == cell_width && ch == cell_height,
                x_mappings@.len() == 1280,
                forall|i: int|
                    0 <= i < 1280 ==> #[trigger] x_mappings@[i] == (
                        (virtual_coordinate(i, cw as int, 1280) / cw as int) as usize,
                        (virtual_coordinate(i, cw as int, 1280) % cw as int) as u32,
                    ) && x_mappings@[i].0 < 2 && x_mappings@[i].1 < cw,
                slot_row == virtual_coordinate(y as int, ch as int, 720) / (ch as int),
                local_y == virtual_coordinate(y as int, ch as int, 720) % (ch as int),
                slot_row < 2,
                local_y < ch,
                forall|i: int| 0 <= i < 1280 ==> #[trigger] mapping_in_range(i, cw as int, 1280),
                forall|i: int| 0 <= i < 4 ==> #[trigger] slot_invalid(slots@[i]) is None,
                forall|yy: int, xx: int, cc: int|
                    0 <= yy < 720 && 0 <= xx < 1280 && 0 <= cc < 4 ==> cache.pixels@[
                    #[trigger] pixel_byte(1280, yy, xx, cc)] == if yy < y || (yy == y && xx < x) {
                        composed_byte(*slots, cw, ch, placeholder_bgra, yy, xx, cc)
                    } else {
                        placeholder_bgra@[cc]
                    },
                cache.placeholder_row@ == row,
                cache.allocation_count == allocations_after,
                cache.canvas_format() == (1280u32, 720u32, placeholder_bgra) && cache.row_format() == (1280u32, placeholder_bgra) && cache.placeholder_row@ == bgra_pattern(1280 * 4, placeholder_bgra),
            decreases 1280 - x,
        {
            let (slot_column, local_x) = x_mappings[x];
            let slot_index = slot_row * 2 + slot_column;
            let ghost before = cache.pixels@;
            let ghost vx = virtual_coordinate(x as int, cw as int, 1280);
            let ghost vy = virtual_coordinate(y as int, ch as int, 720);
            proof {
                assert(slot_invalid(slots@[slot_index as int]) is None);
                assert(mapping_in_range(x as int, cw as int, 1280));
            }
            match &slots[slot_index].pixels {
                TwoRealQuadSlotPixels::Decoded(frame) => {
                    if local_x < frame.width && local_y < frame.height {
                        proof {
                            lemma_cell_in_frame(local_y as int, local_x as int, frame.width as int, frame.height as int);
                        }
                        let frame_len = frame.pixels.len();
                        let source_index = (local_y as usize * frame.width as usize + local_x as usize) * 4;
                        let destination_index = (y * 1280 + x) * 4;
                        cache.pixels[destination_index] = frame.pixels[source_index];
                        cache.pixels[destination_index + 1] = frame.pixels[source_index + 1];
                        cache.pixels[destination_index + 2] = frame.pixels[source_index + 2];
                        cache.pixels[destination_index + 3] = frame.pixels[source_index + 3];
                    }
                },
                _ => {},
            }
            proof {
                assert forall|yy: int, xx: int, cc: int|
                    0 <= yy < 720 && 0 <= xx < 1280 && 0 <= cc < 4 implies cache.pixels@[
                    #[trigger] pixel_byte(1280, yy, xx, cc)] == if yy < y || (yy == y && xx < x + 1) {
                        composed_byte(*slots, cw, ch, placeholder_bgra, yy, xx, cc)
                    } else {
                        placeholder_bgra@[cc]
                    } by {
                    assert(before[pixel_byte(1280, yy, xx, cc)] == if yy < y || (yy == y && xx < x) {
                        composed_byte(*slots, cw, ch, placeholder_bgra, yy, xx, cc)
                    } else {
                        placeholder_bgra@[cc]
                    });
                }
            }
            x = x + 1;
        }
        y = y + 1;
    }
    let mut rects = [
        two_real_quad_slot_rect(slots[0].placement, 640, 360),
        two_real_quad_slot_rect(slots[1].placement, 640, 360),
        two_real_quad_slot_rect(slots[2].placement, 640, 360),
        two_real_quad_slot_rect(slots[3].placement, 640, 360),
    ];
    let ghost previous = match previous_visual_identities {
        Some(p) => Some(*p),
        None => None,
    };
    let mut changed: u32 = 0;
    let mut c: usize = 0;
    while c < 4
        invariant
            0 <= c <= 4,
            forall|i: int|
                0 <= i < 4 ==> #[trigger] changed_slots@[i] == slot_changed(
                    previous,
                    *current_visual_identities,
                    i,
                ),
            changed == changed_count(previous, *current_visual_identities, c as int),
            changed <= c,
        decreases 4 - c,
    {
        if changed_slots[c] {
            changed = changed + 1;
        }
        c = c + 1;
    }
    let diagnostics = TwoRealPreviewLoopQuadCompositionUpdateDiagnostics {
        full_compose: true,
        incremental_update: false,
        changed_slot_count: changed,
        reused_slot_count: 4 - changed,
        allocation_count: if allocated {
            1
        } else {
            0
        },
    };
    let pixels = copy_bytes(&cache.pixels);
    (
        TwoRealQuadComposition::ComposedFrame {
            width: output_width,
            height: output_height,
            pixels,
            rects,
        },
        diagnostics,
    )
}

/// The running counts of the quad compositions of a preview loop.
#[derive(Debug, Clone, Copy, PartialEq, Eq, Structural)]
pub struct TwoRealQuadViewComposeCounters {
    pub compose_attempt_count: u32,
    pub compose_success_count: u32,
    pub incremental_update_count: u32,
    pub full_compose_count: u32,
    pub changed_slot_update_count: u32,
    pub reused_slot_count: u32,
}

/// Composes the quad view and counts the attempt: every attempt, each
/// composed frame, each full and each incremental composition, and the
/// slots changed and reused.
pub fn compose_two_real_preview_quad_view(
    slots: &[TwoRealQuadCompositionSlot; 4],
    placeholder_bgra: [u8; 4],
    cache: &mut TwoRealPreviewLoopQuadCompositionCache,
    previous_visual_identities: Option<&[TwoRealPreviewLoopSlotVisualIdentity; 4]>,
    current_visual_identities: &[TwoRealPreviewLoopSlotVisualIdentity; 4],
    counters: &mut TwoRealQuadViewComposeCounters,
) -> (r: (TwoRealQuadComposition, TwoRealPreviewLoopQuadCompositionUpdateDiagnostics))
    requires
        old(cache).wf(),
        old(counters).compose_attempt_count < u32::MAX,
        old(counters).compose_success_count < u32::MAX,
        old(counters).incremental_update_count < u32::MAX,
        old(counters).full_compose_count < u32::MAX,
        old(counters).changed_slot_update_count + 4 <= u32::MAX,
        old(counters).reused_slot_count + 4 <= u32::MAX,
    ensures
        final(cache).wf(),
        quad_composition_holds(*slots, placeholder_bgra, r.0),
        final(counters).compose_attempt_count == old(counters).compose_attempt_count + 1,
        final(counters).compose_success_count == old(counters).compose_success_count + if r.0 is ComposedFrame {
            1int
        } else {
            0int
        },
        final(counters).incremental_update_count == old(counters).incremental_update_count + if r.1.incremental_update {
            1int
        } else {
            0int
        },
        final(counters).full_compose_count == old(counters).full_compose_count + if r.1.full_compose {
            1int
        } else {
            0int
        },
        final(counters).changed_slot_update_count == old(counters).changed_slot_update_count
            + r.1.changed_slot_count,
        final(counters).reused_slot_count == old(counters).reused_slot_count + r.1.reused_slot_count,
        r.1.changed_slot_count + r.1.reused_slot_count <= 4,
{
    counters.compose_attempt_count = counters.compose_attempt_count + 1;
    let (composition, diagnostics) = compose_two_real_preview_quad_view_incremental(
        slots,
        placeholder_bgra,
        cache,
        previous_visual_identities,
        current_visual_identities,
    );
    proof {
        lemma_changed_count_bounded(
            match previous_visual_identities {
                Some(p) => Some(*p),
                None => None,
            },
            *current_visual_identities,
            4,
        );
    }
    if let TwoRealQuadComposition::ComposedFrame { .. } = &composition {
        counters.compose_success_count = counters.compose_success_count + 1;
    }
    if diagnostics.incremental_update {
        counters.incremental_update_count = counters.incremental_update_count + 1;
    }
    if diagnostics.full_compose {
        counters.full_compose_count = counters.full_compose_count + 1;
    }
    counters.changed_slot_update_count = counters.changed_slot_update_count
        + diagnostics.changed_slot_count;
    counters.reused_slot_count = counters.reused_slot_count + diagnostics.reused_slot_count;
    (composition, diagnostics)
}

proof fn lemma_changed_count_bounded(
    previous: Option<[TwoRealPreviewLoopSlotVisualIdentity; 4]>,
    current: [TwoRealPreviewLoopSlotVisualIdentity; 4],
    n: int,
)
    requires
        0 <= n,
    ensures
        changed_count(previous, current, n) <= n,
    decreases n,
{
    if n > 0 {
        lemma_changed_count_bounded(previous, current, n - 1);
    }
}

/// Each slot fills its own quadrant of the output: an output column is
/// drawn from the left cells exactly when it lies in the left half (640
/// pixels), and an output row from the top cells exactly when it lies in
/// the top half (360 pixels), whatever the cell size.
pub proof fn law_quadrant_of_output_pixel(y: int, x: int, cell_width: int, cell_height: int)
    requires
        0 <= y < 720,
        0 <= x < 1280,
        cell_width > 0,
        cell_height > 0,
    ensures
        (virtual_coordinate(x, cell_width, 1280) / cell_width == 0) <==> x < 640,
        (virtual_coordinate(y, cell_height, 720) / cell_height == 0) <==> y < 360,
{
    lemma_half_of_output(x, cell_width, 1280);
    lemma_half_of_output(y, cell_height, 720);
}

proof fn lemma_half_of_output(i: int, cell: int, output_size: int)
    requires
        0 <= i < output_size,
        cell > 0,
        output_size > 0,
        output_size % 2 == 0,
    ensures
        (virtual_coordinate(i, cell, output_size) / cell == 0) <==> i < output_size / 2,
{
    let v = virtual_coordinate(i, cell, output_size);
    lemma_cell_of_virtual(i, cell, output_size);
    if i < output_size / 2 {
        assert(i * (cell * 2) < output_size * cell) by (nonlinear_arith)
            requires
                0 <= i < output_size / 2,
                output_size % 2 == 0,
                cell > 0,
        ;
        assert(v < cell) by (nonlinear_arith)
            requires
                v == i * (cell * 2) / output_size,
                i * (cell * 2) < output_size * cell,
                output_size > 0,
                0 <= i * (cell * 2),
        ;
        assert(v / cell == 0) by (nonlinear_arith)
            requires
                0 <= v < cell,
        ;
    } else {
        assert(i * (cell * 2) >= output_size * cell) by (nonlinear_arith)
            requires
                output_size / 2 <= i,
                output_size % 2 == 0,
                cell > 0,
        ;
        assert(v >= cell) by (nonlinear_arith)
            requires
                v == i * (cell * 2) / output_size,
                i * (cell * 2) >= output_size * cell,
                output_size > 0,
        ;
        assert(v / cell >= 1) by (nonlinear_arith)
            requires
                v >= cell,
                cell > 0,
        ;
    }
}

} // verus!
