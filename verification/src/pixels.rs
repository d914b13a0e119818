//! BGRA pixel buffers: filling with a colour, the reusable canvas of the
//! quad composition, and the retained buffer that scaled output is written
//! into.

use vstd::prelude::*;

verus! {

/// The bytes of `len` bytes filled with `color` pixel by pixel, as far as
/// whole pixels go; a trailing partial pixel keeps its bytes.
pub open spec fn filled_bgra(old_bytes: Seq<u8>, color: [u8; 4]) -> Seq<u8> {
    Seq::new(
        old_bytes.len(),
        |i: int|
            if i < old_bytes.len() - old_bytes.len() % 4 {
                color@[i % 4]
            } else {
                old_bytes[i]
            },
    )
}

/// Paints every whole pixel of `pixels` with `color`.
pub fn fill_two_real_bgra(pixels: &mut [u8], color: [u8; 4])
    ensures
        final(pixels)@ == filled_bgra(old(pixels)@, color),
{
    let n = pixels.len() / 4 * 4;
    let mut i: usize = 0;
    let mut k: usize = 0;
    while i < n
        invariant
            n == old(pixels)@.len() - old(pixels)@.len() % 4,
            pixels@.len() == old(pixels)@.len(),
            0 <= i <= n,
            k == i % 4,
            forall|j: int| 0 <= j < i ==> #[trigger] pixels@[j] == color@[j % 4],
            forall|j: int| i <= j < pixels@.len() ==> #[trigger] pixels@[j] == old(pixels)@[j],
        decreases n - i,
    {
        pixels[i] = color[k];
        i = i + 1;
        k = if k == 3 {
            0
        } else {
            k + 1
        };
    }
}

/// `bytes` with `row` written over it from `start` on.
pub open spec fn write_at(bytes: Seq<u8>, start: int, row: Seq<u8>) -> Seq<u8> {
    Seq::new(
        bytes.len(),
        |i: int|
            if start <= i < start + row.len() {
                row[i - start]
            } else {
                bytes[i]
            },
    )
}

/// The canvas after the first `rows` rows of a rectangle were painted with
/// `row`, one row after the other: row `r` starts `stride` bytes after row
/// `r - 1`, the first at `start`.
pub open spec fn rows_filled(canvas: Seq<u8>, start: int, stride: int, row: Seq<u8>, rows: nat) -> Seq<
    u8,
>
    decreases rows,
{
    if rows == 0 {
        canvas
    } else {
        write_at(
            rows_filled(canvas, start, stride, row, (rows - 1) as nat),
            start + (rows - 1) * stride,
            row,
        )
    }
}

/// Where byte `j` of row `r` of a painted rectangle lands on the canvas.
pub open spec fn row_byte_index(start: int, stride: int, r: int, j: int) -> int {
    start + r * stride + j
}

/// Whether byte `i` of the canvas lies in row `r` of a painted rectangle
/// whose rows are `len` bytes long.
pub open spec fn lies_in_row(i: int, start: int, stride: int, len: int, r: int) -> bool {
    start + r * stride <= i < start + r * stride + len
}

proof fn lemma_earlier_row_before_last(r: int, j: int, rows: int, stride: int, len: int)
    requires
        0 <= r < rows - 1,
        0 <= j < len,
        len <= stride,
    ensures
        r * stride + j < (rows - 1) * stride,
        r * stride + j >= 0,
{
    assert(r * stride + j < (rows - 1) * stride) by (nonlinear_arith)
        requires
            0 <= r < rows - 1,
            0 <= j < len,
            len <= stride,
    ;
    assert(r * stride >= 0) by (nonlinear_arith)
        requires
            0 <= r,
            0 <= len <= stride,
            0 <= j < len,
    ;
}

/// Painting rows that do not overlap (each row no longer than the stride)
/// puts the row at the start of each of them, and leaves every byte that
/// lies in none of them as it was.
pub proof fn law_rows_filled_per_row(canvas: Seq<u8>, start: int, stride: int, row: Seq<u8>, rows: nat)
    requires
        0 <= start,
        row.len() <= stride,
        rows > 0 ==> start + (rows - 1) * stride + row.len() <= canvas.len(),
    ensures
        rows_filled(canvas, start, stride, row, rows).len() == canvas.len(),
        forall|r: int, j: int|
            0 <= r < rows && 0 <= j < row.len() ==> rows_filled(canvas, start, stride, row, rows)[
                #[trigger] row_byte_index(start, stride, r, j)] == row[j],
        forall|i: int|
            0 <= i < canvas.len() && (forall|r: int|
                0 <= r < rows ==> !#[trigger] lies_in_row(i, start, stride, row.len() as int, r))
                ==> #[trigger] rows_filled(canvas, start, stride, row, rows)[i] == canvas[i],
    decreases rows,
{
    if rows > 0 {
        let prev_rows = (rows - 1) as nat;
        let last = start + prev_rows * stride;
        if prev_rows > 0 {
            assert(start + (prev_rows - 1) * stride + row.len() <= canvas.len()) by (nonlinear_arith)
                requires
                    start + (rows - 1) * stride + row.len() <= canvas.len(),
                    prev_rows == rows - 1,
                    prev_rows > 0,
                    row.len() <= stride,
            ;
        }
        law_rows_filled_per_row(canvas, start, stride, row, prev_rows);
        let prev = rows_filled(canvas, start, stride, row, prev_rows);
        let result = rows_filled(canvas, start, stride, row, rows);
        assert(result == write_at(prev, last, row));
        assert forall|r: int, j: int| 0 <= r < rows && 0 <= j < row.len() implies result[
            #[trigger] row_byte_index(start, stride, r, j)] == row[j] by {
            if r < rows - 1 {
                lemma_earlier_row_before_last(r, j, rows as int, stride, row.len() as int);
                assert(row_byte_index(start, stride, r, j) < last);
                assert(prev[row_byte_index(start, stride, r, j)] == row[j]);
            }
        }
        assert forall|i: int|
            0 <= i < canvas.len() && (forall|r: int|
                0 <= r < rows ==> !#[trigger] lies_in_row(i, start, stride, row.len() as int, r))
                implies #[trigger] result[i] == canvas[i] by {
            assert(!lies_in_row(i, start, stride, row.len() as int, rows - 1));
            assert(forall|r: int|
                0 <= r < prev_rows ==> !#[trigger] lies_in_row(i, start, stride, row.len() as int, r));
        }
    }
}

proof fn lemma_row_start_bounded(dst_y: int, r: int, height: int, stride: int)
    requires
        0 <= r < height,
        0 <= dst_y,
        0 <= stride,
    ensures
        (dst_y + r) * stride <= (dst_y + height - 1) * stride,
        (dst_y + r) * stride == dst_y * stride + r * stride,
        (dst_y + r + 1) * stride == (dst_y + r) * stride + stride,
{
    assert((dst_y + r) * stride <= (dst_y + height - 1) * stride) by (nonlinear_arith)
        requires
            0 <= r < height,
            0 <= dst_y,
            0 <= stride,
    ;
    assert((dst_y + r) * stride == dst_y * stride + r * stride) by (nonlinear_arith);
    assert((dst_y + r + 1) * stride == (dst_y + r) * stride + stride) by (nonlinear_arith);
}

/// Paints a `width` by `height` rectangle of a canvas `canvas_width` pixels
/// wide, at pixel `(dst_x, dst_y)`, with the first `width` pixels of
/// `placeholder_row`.
pub fn fill_two_real_bgra_rows(
    canvas: &mut [u8],
    canvas_width: u32,
    dst_x: u32,
    dst_y: u32,
    width: u32,
    height: u32,
    placeholder_row: &[u8],
)
    requires
        canvas_width * 4 <= usize::MAX,
        dst_y + height <= usize::MAX,
        width * 4 <= placeholder_row@.len(),
        height > 0 ==> (dst_y + height - 1) * (canvas_width * 4) + dst_x * 4 + width * 4 <= old(
            canvas,
        )@.len(),
    ensures
        final(canvas)@ == rows_filled(
            old(canvas)@,
            dst_y * (canvas_width * 4) + dst_x * 4,
            canvas_width * 4,
            placeholder_row@.subrange(0, width * 4),
            height as nat,
        ),
{
    let ghost stride: int = canvas_width * 4;
    let ghost start: int = dst_y * stride + dst_x * 4;
    let ghost row = placeholder_row@.subrange(0, width * 4);
    let ghost total = canvas@.len();
    proof {
        if height > 0 {
            lemma_row_start_bounded(dst_y as int, 0, height as int, stride);
        }
    }
    let canvas_len = canvas.len();
    let placeholder_len = placeholder_row.len();
    let canvas_stride = canvas_width as usize * 4;
    let row_len = width as usize * 4;
    let mut r: usize = 0;
    while r < height as usize
        invariant
            stride == canvas_width * 4,
            canvas_stride == stride,
            row_len == width * 4,
            start == dst_y * stride + dst_x * 4,
            row == placeholder_row@.subrange(0, row_len as int),
            row_len <= placeholder_row@.len(),
            total == old(canvas)@.len(),
            total == canvas_len,
            canvas@.len() == total,
            height > 0 ==> (dst_y + height - 1) * stride + dst_x * 4 + row_len <= total,
            dst_y + height <= usize::MAX,
            0 <= r <= height,
            canvas@ == rows_filled(old(canvas)@, start, stride, row, r as nat),
        decreases height - r,
    {
        proof {
            lemma_row_start_bounded(dst_y as int, r as int, height as int, stride);
        }
        let dst_start = (dst_y as usize + r) * canvas_stride + dst_x as usize * 4;
        let ghost before = canvas@;
        let mut k: usize = 0;
        while k < row_len
            invariant
                0 <= k <= row_len,
                row_len == width * 4,
                row_len <= placeholder_row@.len(),
                row == placeholder_row@.subrange(0, row_len as int),
                dst_start + row_len <= total,
                total == canvas_len,
                canvas@.len() == total,
                before.len() == total,
                forall|j: int|
                    0 <= j < total ==> #[trigger] canvas@[j] == if dst_start <= j < dst_start + k {
                        row[j - dst_start]
                    } else {
                        before[j]
                    },
            decreases row_len - k,
        {
            canvas[dst_start + k] = placeholder_row[k];
            k = k + 1;
        }
        r = r + 1;
    }
}

/// Painting whole rows from the start of a canvas, `rows` rows of `stride`
/// bytes, leaves byte `i` of the rectangle equal to the row's byte at `i`'s
/// place within its row, and the bytes after the rectangle untouched.
pub proof fn lemma_full_rows_filled(canvas: Seq<u8>, stride: nat, row: Seq<u8>, rows: nat)
    requires
        row.len() == stride,
        stride > 0,
        canvas.len() >= stride * rows,
    ensures
        rows_filled(canvas, 0, stride as int, row, rows).len() == canvas.len(),
        forall|i: int|
            0 <= i < stride * rows ==> #[trigger] rows_filled(canvas, 0, stride as int, row, rows)[i]
                == row[i % (stride as int)],
        forall|i: int|
            stride * rows <= i < canvas.len() ==> #[trigger] rows_filled(
                canvas,
                0,
                stride as int,
                row,
                rows,
            )[i] == canvas[i],
    decreases rows,
{
    if rows > 0 {
        let h = (rows - 1) as nat;
        assert(stride * h + stride == stride * rows) by (nonlinear_arith)
            requires
                h == rows - 1,
        ;
        assert(stride * h <= stride * rows) by (nonlinear_arith)
            requires
                h == rows - 1,
        ;
        lemma_full_rows_filled(canvas, stride, row, h);
        let prev = rows_filled(canvas, 0, stride as int, row, h);
        let cur = rows_filled(canvas, 0, stride as int, row, rows);
        assert((rows - 1) * stride == stride * h) by (nonlinear_arith)
            requires
                h == rows - 1,
        ;
        assert forall|i: int| 0 <= i < stride * rows implies #[trigger] cur[i] == row[i % (
        stride as int)] by {
            if i >= stride * h {
                vstd::arithmetic::div_mod::lemma_fundamental_div_mod_converse(
                    i,
                    stride as int,
                    h as int,
                    i - stride * h,
                );
            } else {
            }
        }
    } else {
        assert(stride * rows == 0) by (nonlinear_arith)
            requires
                rows == 0,
        ;
    }
}

/// What preparing and filling one render buffer did.
#[derive(Debug, Clone, Copy, PartialEq, Eq)]
pub struct BgraRenderBufferDiagnostics {
    pub allocation_count: u32,
    pub reuse_count: u32,
    pub bytes_copied_total: usize,
    pub scale_prepare_elapsed_ms: u128,
    pub scale_loop_elapsed_ms: u128,
    pub output_copy_elapsed_ms: u128,
    pub resize_elapsed_ms: u128,
    pub clear_elapsed_ms: u128,
    pub passthrough_count: u32,
    pub same_size_copy_count: u32,
    pub half_scale_count: u32,
    pub generic_scale_count: u32,
}

/// Diagnostics with every count and time zero.
pub open spec fn no_buffer_diagnostics() -> BgraRenderBufferDiagnostics {
    BgraRenderBufferDiagnostics {
        allocation_count: 0,
        reuse_count: 0,
        bytes_copied_total: 0,
        scale_prepare_elapsed_ms: 0,
        scale_loop_elapsed_ms: 0,
        output_copy_elapsed_ms: 0,
        resize_elapsed_ms: 0,
        clear_elapsed_ms: 0,
        passthrough_count: 0,
        same_size_copy_count: 0,
        half_scale_count: 0,
        generic_scale_count: 0,
    }
}

impl Default for BgraRenderBufferDiagnostics {
    /// Diagnostics with every count and time zero.
    fn default() -> (r: Self)
        ensures
            r == no_buffer_diagnostics(),
    {
        BgraRenderBufferDiagnostics {
            allocation_count: 0,
            reuse_count: 0,
            bytes_copied_total: 0,
            scale_prepare_elapsed_ms: 0,
            scale_loop_elapsed_ms: 0,
            output_copy_elapsed_ms: 0,
            resize_elapsed_ms: 0,
            clear_elapsed_ms: 0,
            passthrough_count: 0,
            same_size_copy_count: 0,
            half_scale_count: 0,
            generic_scale_count: 0,
        }
    }
}

/// `Vec::capacity`: how many elements the vector can hold before it must
/// reallocate. The standard library documents that it is never less than
/// the length; how much more the allocator gave is left unsaid.
#[verifier::external_body]
fn vec_capacity(v: &Vec<u8>) -> (r: usize)
    ensures
        r >= v@.len(),
{
    v.capacity()
}

/// `bytes` made `len` long: cut, or extended with zeros.
pub open spec fn resized(bytes: Seq<u8>, len: nat) -> Seq<u8> {
    if len <= bytes.len() {
        bytes.subrange(0, len as int)
    } else {
        bytes + Seq::new((len - bytes.len()) as nat, |i: int| 0u8)
    }
}

/// The diagnostics of handing out a kept buffer whose capacity was
/// `capacity`: a reuse when that capacity holds `expected_len` bytes, else an
/// allocation.
pub open spec fn kept_buffer_diagnostics(capacity: nat, expected_len: nat) -> BgraRenderBufferDiagnostics {
    if capacity >= expected_len {
        BgraRenderBufferDiagnostics { reuse_count: 1, ..no_buffer_diagnostics() }
    } else {
        BgraRenderBufferDiagnostics { allocation_count: 1, ..no_buffer_diagnostics() }
    }
}

/// Counts the hand-out of a kept buffer whose capacity was `capacity`, for a
/// frame of `expected_len` bytes: a reuse when the capacity holds the frame,
/// else an allocation.
pub fn kept_render_buffer_diagnostics(capacity: usize, expected_len: usize) -> (r:
    BgraRenderBufferDiagnostics)
    ensures
        r == kept_buffer_diagnostics(capacity as nat, expected_len as nat),
{
    let mut diagnostics = BgraRenderBufferDiagnostics::default();
    if capacity >= expected_len {
        diagnostics.reuse_count = 1;
    } else {
        diagnostics.allocation_count = 1;
    }
    diagnostics
}

/// The one render buffer kept between frames, so that scaling the next
/// frame can write into it instead of allocating.
pub struct ObsRenderBufferPool {
    retained: Option<Vec<u8>>,
}

impl ObsRenderBufferPool {
    /// The bytes of the buffer kept, if one is.
    pub closed spec fn retained(&self) -> Option<Seq<u8>> {
        match self.retained {
            Some(v) => Some(v@),
            None => None,
        }
    }

    /// A pool that keeps no buffer yet.
    pub fn new() -> (r: Self)
        ensures
            r.retained() is None,
    {
        ObsRenderBufferPool { retained: None }
    }

    /// Hands out a buffer of `expected_len` bytes: the kept one, resized,
    /// when there is one, else a new zeroed one. Handing out the kept buffer
    /// is counted as `kept_render_buffer_diagnostics` counts it for the
    /// capacity that buffer had, which is never less than its length; a new
    /// buffer counts as an allocation. The pool keeps nothing afterwards.
    pub fn take_reusable_obs_render_buffer(&mut self, expected_len: usize) -> (r: (
        Vec<u8>,
        BgraRenderBufferDiagnostics,
    ))
        ensures
            final(self).retained() is None,
            r.0@.len() == expected_len,
            match old(self).retained() {
                None => {
                    &&& r.0@ == Seq::new(expected_len as nat, |i: int| 0u8)
                    &&& r.1 == BgraRenderBufferDiagnostics {
                        allocation_count: 1,
                        ..no_buffer_diagnostics()
                    }
                },
                Some(kept) => {
                    &&& r.0@ == resized(kept, expected_len as nat)
                    &&& exists|capacity: nat|
                        capacity >= kept.len() && r.1 == #[trigger] kept_buffer_diagnostics(
                            capacity,
                            expected_len as nat,
                        )
                },
            },
    {
        let taken = self.retained.take();
        match taken {
            Some(mut pixels) => {
                let ghost kept = pixels@;
                let capacity = vec_capacity(&pixels);
                let diagnostics = kept_render_buffer_diagnostics(capacity, expected_len);
                pixels.resize(expected_len, 0);
                proof {
                    if expected_len > kept.len() {
                    }
                    assert(capacity >= kept.len() && diagnostics == kept_buffer_diagnostics(
                        capacity as nat,
                        expected_len as nat,
                    ));
                }
                (pixels, diagnostics)
            },
            None => {
                let mut diagnostics = BgraRenderBufferDiagnostics::default();
                let mut pixels: Vec<u8> = Vec::new();
                pixels.resize(expected_len, 0);
                diagnostics.allocation_count = 1;
                (pixels, diagnostics)
            },
        }
    }

    /// Keeps `pixels` for the next frame, in place of any buffer kept
    /// before; an empty buffer is not kept.
    pub fn recycle_obs_render_buffer(&mut self, pixels: Vec<u8>)
        ensures
            pixels@.len() == 0 ==> final(self).retained() == old(self).retained(),
            pixels@.len() > 0 ==> final(self).retained() == Some(pixels@),
    {
        if pixels.len() == 0 {
            return;
        }
        self.retained = Some(pixels);
    }
}

/// `n` doubled, held at `u32::MAX`.
pub open spec fn doubled(n: u32) -> u32 {
    if n * 2 > u32::MAX {
        u32::MAX
    } else {
        (n * 2) as u32
    }
}

fn doubled_u32(n: u32) -> (r: u32)
    ensures
        r == doubled(n),
{
    if n > 0x7fff_ffff {
        u32::MAX
    } else {
        n * 2
    }
}

/// Whether a `width` by `height` source is scaled to `output_width` by
/// `output_height` by taking the top-left pixel of each 2×2 block: it is
/// not already the output size, and it is twice the output size (held at
/// `u32::MAX`) both ways.
pub open spec fn half_scale(width: u32, height: u32, output_width: u32, output_height: u32) -> bool {
    !(width == output_width && height == output_height) && width == doubled(output_width)
        && height == doubled(output_height)
}

/// The source pixel that output pixel `(y, x)` is taken from, as a pixel
/// offset into the source: `(2y, 2x)` for a half scale, else the nearest
/// neighbour `(y * height / output_height, x * width / output_width)`.
pub open spec fn source_pixel(
    width: u32,
    height: u32,
    output_width: u32,
    output_height: u32,
    y: int,
    x: int,
) -> int {
    if half_scale(width, height, output_width, output_height) {
        (y * 2) * width + x * 2
    } else {
        (y * height / output_height as int) * width + x * width / output_width as int
    }
}

/// The offset of byte `c` of pixel `(y, x)` in rows `width` pixels wide.
pub open spec fn pixel_byte(width: int, y: int, x: int, c: int) -> int {
    (y * width + x) * 4 + c
}

/// Whether `out` is `source` scaled to `output_width` by `output_height`:
/// each byte of each output pixel is that byte of its source pixel.
pub open spec fn scaled_from(
    source: Seq<u8>,
    out: Seq<u8>,
    width: u32,
    height: u32,
    output_width: u32,
    output_height: u32,
) -> bool {
    &&& out.len() == output_width * output_height * 4
    &&& forall|y: int, x: int, c: int|
        0 <= y < output_height && 0 <= x < output_width && 0 <= c < 4 ==> out[#[trigger] pixel_byte(
            output_width as int,
            y,
            x,
            c,
        )] == source[source_pixel(width, height, output_width, output_height, y, x) * 4 + c]
}

proof fn lemma_cell_in_grid(row: int, column: int, columns: int, rows: int)
    requires
        0 <= row < rows,
        0 <= column < columns,
    ensures
        0 <= row * columns + column < columns * rows,
        row * columns + column + 1 <= columns * rows,
{
    assert(row * columns + column < columns * rows) by (nonlinear_arith)
        requires
            0 <= row < rows,
            0 <= column < columns,
    ;
    assert(0 <= row * columns) by (nonlinear_arith)
        requires
            0 <= row,
            0 <= columns,
    ;
}

proof fn lemma_earlier_row(earlier: int, row: int, column: int, columns: int)
    requires
        0 <= earlier < row,
        0 <= column < columns,
    ensures
        earlier * columns + column < row * columns,
{
    assert(earlier * columns + column < row * columns) by (nonlinear_arith)
        requires
            0 <= earlier < row,
            0 <= column < columns,
    ;
}

proof fn lemma_next_row(row: int, columns: int)
    ensures
        row * columns + columns == (row + 1) * columns,
{
    assert(row * columns + columns == (row + 1) * columns) by (nonlinear_arith);
}

proof fn lemma_scaled_coordinate(i: int, source_size: int, output_size: int)
    requires
        0 <= i < output_size,
        0 <= source_size,
    ensures
        0 <= i * source_size / output_size <= source_size,
        source_size > 0 ==> i * source_size / output_size < source_size,
{
    assert(0 <= i * source_size) by (nonlinear_arith)
        requires
            0 <= i,
            0 <= source_size,
    ;
    assert(i * source_size <= output_size * source_size) by (nonlinear_arith)
        requires
            0 <= i < output_size,
            0 <= source_size,
    ;
    assert(i * source_size / output_size <= source_size) by (nonlinear_arith)
        requires
            0 <= i * source_size <= output_size * source_size,
            0 < output_size,
    ;
    if source_size > 0 {
        assert(i * source_size < output_size * source_size) by (nonlinear_arith)
            requires
                0 <= i < output_size,
                0 < source_size,
        ;
        assert(i * source_size / output_size < source_size) by (nonlinear_arith)
            requires
                0 <= i * source_size < output_size * source_size,
                0 < output_size,
        ;
    }
}

proof fn lemma_positive_area(columns: int, rows: int)
    ensures
        columns > 0 && rows > 0 ==> columns * rows > 0,
{
    assert(columns > 0 && rows > 0 ==> columns * rows > 0) by (nonlinear_arith);
}

proof fn lemma_same_size_coordinate(i: int, size: int)
    requires
        0 <= i < size,
    ensures
        i * size / size == i,
{
    assert(i * size / size == i) by (nonlinear_arith)
        requires
            0 <= i < size,
    ;
}

/// A frame scaled to the output profile.
#[derive(Debug, Clone, PartialEq, Eq)]
pub struct ScaledBgraFrame {
    pub width: u32,
    pub height: u32,
    pub pixels: Vec<u8>,
}

/// Scales a BGRA frame to `output_width` by `output_height` into the pool's
/// buffer: a copy when the sizes match, the top-left pixel of each 2×2
/// block when the source is twice the output, and the nearest neighbour
/// otherwise. The diagnostics say which path ran and how the buffer was
/// had.
pub fn scale_four_view_bgra_to_obs_validation_profile_from_slice(
    pool: &mut ObsRenderBufferPool,
    width: u32,
    height: u32,
    pixels_source: &[u8],
    output_width: u32,
    output_height: u32,
) -> (r: (ScaledBgraFrame, BgraRenderBufferDiagnostics))
    requires
        output_width * output_height * 4 <= usize::MAX,
        width == output_width && height == output_height ==> pixels_source@.len()
            == output_width * output_height * 4,
        !(width == output_width && height == output_height) ==> pixels_source@.len() >= width
            * height * 4,
        !(width == output_width && height == output_height) && (width == 0 || height == 0)
            ==> output_width * output_height == 0,
        half_scale(width, height, output_width, output_height) ==> 2 * output_width <= width + 1
            && 2 * output_height <= height + 1,
    ensures
        r.0.width == output_width,
        r.0.height == output_height,
        scaled_from(pixels_source@, r.0.pixels@, width, height, output_width, output_height),
        final(pool).retained() is None,
        r.1.same_size_copy_count == (if width == output_width && height == output_height {
            1u32
        } else {
            0u32
        }),
        r.1.half_scale_count == (if half_scale(width, height, output_width, output_height) {
            1u32
        } else {
            0u32
        }),
        r.1.generic_scale_count == (if !(width == output_width && height == output_height)
            && !half_scale(width, height, output_width, output_height) {
            1u32
        } else {
            0u32
        }),
        r.1.bytes_copied_total == output_width * output_height * 4,
        r.1.reuse_count + r.1.allocation_count == 1,
        r.1.passthrough_count == 0,
{
    let expected_len = output_width as usize * output_height as usize * 4;
    let (mut pixels, mut diagnostics) = pool.take_reusable_obs_render_buffer(expected_len);
    let ghost src = pixels_source@;
    let ghost ow = output_width as int;
    let ghost oh = output_height as int;
    if width == output_width && height == output_height {
        let mut i: usize = 0;
        while i < expected_len
            invariant
                0 <= i <= expected_len,
                pixels@.len() == expected_len,
                src.len() == expected_len,
                pixels_source@ == src,
                forall|k: int| 0 <= k < i ==> #[trigger] pixels@[k] == src[k],
            decreases expected_len - i,
        {
            pixels[i] = pixels_source[i];
            i = i + 1;
        }
        proof {
            assert forall|y: int, x: int, c: int|
                0 <= y < output_height && 0 <= x < output_width && 0 <= c < 4 implies pixels@[
                #[trigger] pixel_byte(ow, y, x, c)] == src[source_pixel(
                width,
                height,
                output_width,
                output_height,
                y,
                x,
            ) * 4 + c] by {
                lemma_same_size_coordinate(y, oh);
                lemma_same_size_coordinate(x, ow);
                lemma_cell_in_grid(y, x, ow, oh);
            }
        }
        diagnostics.bytes_copied_total = diagnostics.bytes_copied_total.saturating_add(pixels.len());
        diagnostics.same_size_copy_count = 1;
        return (ScaledBgraFrame { width: output_width, height: output_height, pixels }, diagnostics);
    }
    let half = width == doubled_u32(output_width) && height == doubled_u32(output_height);
    let w = width as usize;
    let ow_us = output_width as usize;
    let oh_us = output_height as usize;
    let src_len = pixels_source.len();
    let mut j: usize = 0;
    let mut y: usize = 0;
    while y < oh_us
        invariant
            ow == output_width,
            oh == output_height,
            ow_us == ow,
            oh_us == oh,
            w == width,
            src == pixels_source@,
            src_len == src.len(),
            src.len() >= width * height * 4,
            (width == 0 || height == 0) ==> ow * oh == 0,
            half == half_scale(width, height, output_width, output_height),
            half ==> 2 * ow <= width + 1 && 2 * oh <= height + 1,
            expected_len == ow * oh * 4,
            pixels@.len() == expected_len,
            0 <= y <= oh,
            j == y * ow * 4,
            forall|yy: int, xx: int, cc: int|
                0 <= yy < y && 0 <= xx < ow && 0 <= cc < 4 ==> pixels@[#[trigger] pixel_byte(
                    ow,
                    yy,
                    xx,
                    cc,
                )] == src[source_pixel(width, height, output_width, output_height, yy, xx) * 4 + cc],
        decreases oh - y,
    {
        proof {
            if ow > 0 {
                lemma_cell_in_grid(y as int, 0, ow, oh);
            }
        }
        proof {
            lemma_positive_area(ow, oh);
            assert(y * height <= u64::MAX) by (nonlinear_arith)
                requires
                    y < 0x1_0000_0000int,
                    height < 0x1_0000_0000int,
            ;
        }
        let sy: usize = if half {
            y * 2
        } else {
            proof {
                lemma_scaled_coordinate(y as int, height as int, oh);
            }
            (y as u64 * height as u64 / output_height as u64) as usize
        };
        let mut x: usize = 0;
        while x < ow_us
            invariant
                ow == output_width,
                oh == output_height,
                ow_us == ow,
                oh_us == oh,
                w == width,
                src == pixels_source@,
                src_len == src.len(),
                src.len() >= width * height * 4,
                (width == 0 || height == 0) ==> ow * oh == 0,
                half == half_scale(width, height, output_width, output_height),
                half ==> 2 * ow <= width + 1 && 2 * oh <= height + 1,
                expected_len == ow * oh * 4,
                pixels@.len() == expected_len,
                0 <= y < oh,
                0 <= x <= ow,
                j == (y * ow + x) * 4,
                half ==> sy == y * 2,
                !half ==> sy == y * height / oh,
                ow > 0 ==> sy < height,
                forall|yy: int, xx: int, cc: int|
                    0 <= yy < y && 0 <= xx < ow && 0 <= cc < 4 ==> pixels@[#[trigger] pixel_byte(
                        ow,
                        yy,
                        xx,
                        cc,
                    )] == src[source_pixel(width, height, output_width, output_height, yy, xx) * 4
                        + cc],
                forall|xx: int, cc: int|
                    0 <= xx < x && 0 <= cc < 4 ==> pixels@[#[trigger] pixel_byte(ow, y as int, xx, cc)]
                        == src[source_pixel(width, height, output_width, output_height, y as int, xx)
                        * 4 + cc],
            decreases ow - x,
        {
            proof {
                lemma_positive_area(ow, oh);
                assert(x * width <= u64::MAX) by (nonlinear_arith)
                    requires
                        x < 0x1_0000_0000int,
                        width < 0x1_0000_0000int,
                ;
            }
            let sx: usize = if half {
                x * 2
            } else {
                proof {
                    lemma_scaled_coordinate(x as int, width as int, ow);
                }
                (x as u64 * width as u64 / output_width as u64) as usize
            };
            proof {
                lemma_cell_in_grid(sy as int, sx as int, width as int, height as int);
                lemma_cell_in_grid(y as int, x as int, ow, oh);
            }
            let si = (sy * w + sx) * 4;
            let ghost before = pixels@;
            pixels[j] = pixels_source[si];
            pixels[j + 1] = pixels_source[si + 1];
            pixels[j + 2] = pixels_source[si + 2];
            pixels[j + 3] = pixels_source[si + 3];
            proof {
                assert forall|yy: int, xx: int, cc: int|
                    0 <= yy < y && 0 <= xx < ow && 0 <= cc < 4 implies pixels@[
                    #[trigger] pixel_byte(ow, yy, xx, cc)] == src[source_pixel(
                    width,
                    height,
                    output_width,
                    output_height,
                    yy,
                    xx,
                ) * 4 + cc] by {
                    lemma_earlier_row(yy, y as int, xx, ow);
                }
                assert forall|xx: int, cc: int|
                    0 <= xx < x + 1 && 0 <= cc < 4 implies pixels@[#[trigger] pixel_byte(
                    ow,
                    y as int,
                    xx,
                    cc,
                )] == src[source_pixel(width, height, output_width, output_height, y as int, xx)
                    * 4 + cc] by {
                    if xx < x {
                    }
                }
            }
            j = j + 4;
            x = x + 1;
        }
        proof {
            lemma_next_row(y as int, ow);
        }
        y = y + 1;
    }
    diagnostics.bytes_copied_total = diagnostics.bytes_copied_total.saturating_add(pixels.len());
    if half {
        diagnostics.half_scale_count = 1;
    } else {
        diagnostics.generic_scale_count = 1;
    }
    (ScaledBgraFrame { width: output_width, height: output_height, pixels }, diagnostics)
}

/// Scaling a frame to its own size copies it byte for byte.
pub proof fn law_same_size_scale_is_a_copy(source: Seq<u8>, out: Seq<u8>, width: u32, height: u32)
    requires
        source.len() == width * height * 4,
        scaled_from(source, out, width, height, width, height),
    ensures
        out == source,
{
    assert forall|k: int| 0 <= k < out.len() implies out[k] == source[k] by {
        let p = k / 4;
        let c = k % 4;
        let y = p / width as int;
        let x = p % width as int;
        assert(p < width * height) by (nonlinear_arith)
            requires
                p * 4 + c == k,
                0 <= c < 4,
                k < width * height * 4,
        ;
        assert(width > 0) by (nonlinear_arith)
            requires
                0 <= p < width * height,
        ;
        assert(y * width + x == p) by {
            vstd::arithmetic::div_mod::lemma_fundamental_div_mod(p, width as int);
        }
        assert(0 <= y < height) by (nonlinear_arith)
            requires
                y * width + x == p,
                0 <= x < width,
                0 <= p < width * height,
                width > 0,
        ;
        assert(0 <= x < width);
        lemma_same_size_coordinate(y, height as int);
        lemma_same_size_coordinate(x, width as int);
        assert(out[pixel_byte(width as int, y, x, c)] == source[source_pixel(
            width,
            height,
            width,
            height,
            y,
            x,
        ) * 4 + c]);
    }
}

/// Halving a frame keeps the top-left pixel of each 2×2 block of the
/// source: output pixel `(y, x)` is source pixel `(2y, 2x)`.
pub proof fn law_half_scale_keeps_top_left_pixel(
    source: Seq<u8>,
    out: Seq<u8>,
    width: u32,
    height: u32,
    output_width: u32,
    output_height: u32,
    y: int,
    x: int,
    c: int,
)
    requires
        scaled_from(source, out, width, height, output_width, output_height),
        half_scale(width, height, output_width, output_height),
        0 <= y < output_height,
        0 <= x < output_width,
        0 <= c < 4,
    ensures
        out[pixel_byte(output_width as int, y, x, c)] == source[pixel_byte(
            width as int,
            2 * y,
            2 * x,
            c,
        )],
{
}

/// When the source is exactly twice the output both ways, taking the
/// top-left pixel of each 2×2 block is the nearest-neighbour pick.
pub proof fn law_half_scale_is_nearest_neighbour(
    output_width: u32,
    output_height: u32,
    y: int,
    x: int,
)
    requires
        0 <= y < output_height,
        0 <= x < output_width,
        output_width * 2 <= u32::MAX,
        output_height * 2 <= u32::MAX,
    ensures
        ({
            let width = (output_width * 2) as u32;
            let height = (output_height * 2) as u32;
            (y * height / output_height as int) * width + x * width / output_width as int == (y * 2)
                * width + x * 2
        }),
{
    let width = (output_width * 2) as int;
    let height = (output_height * 2) as int;
    assert(y * height / output_height as int == y * 2) by (nonlinear_arith)
        requires
            height == output_height * 2,
            0 <= y < output_height,
    ;
    assert(x * width / output_width as int == x * 2) by (nonlinear_arith)
        requires
            width == output_width * 2,
            0 <= x < output_width,
    ;
}

/// Scaling keeps the picture's orientation: on the nearest-neighbour path
/// (neither a copy nor a half scale), output pixel `(y, x)` is source pixel
/// `(y * height / output_height, x * width / output_width)`, so output row 0
/// comes from source row 0 and later output rows from rows no higher up.
pub proof fn law_nearest_neighbour_scale_keeps_orientation(
    source: Seq<u8>,
    out: Seq<u8>,
    width: u32,
    height: u32,
    output_width: u32,
    output_height: u32,
    y: int,
    x: int,
    c: int,
)
    requires
        scaled_from(source, out, width, height, output_width, output_height),
        !(width == output_width && height == output_height),
        !half_scale(width, height, output_width, output_height),
        0 <= y < output_height,
        0 <= x < output_width,
        0 <= c < 4,
    ensures
        out[pixel_byte(output_width as int, y, x, c)] == source[pixel_byte(
            width as int,
            y * height / output_height as int,
            x * width / output_width as int,
            c,
        )],
        out[pixel_byte(output_width as int, 0, x, c)] == source[pixel_byte(
            width as int,
            0,
            x * width / output_width as int,
            c,
        )],
        forall|y2: int|
            y <= y2 < output_height ==> y * height / output_height as int <= #[trigger] (y2 * height
                / output_height as int),
{
    assert(out[pixel_byte(output_width as int, y, x, c)] == source[source_pixel(
        width,
        height,
        output_width,
        output_height,
        y,
        x,
    ) * 4 + c]);
    assert(out[pixel_byte(output_width as int, 0, x, c)] == source[source_pixel(
        width,
        height,
        output_width,
        output_height,
        0,
        x,
    ) * 4 + c]);
    assert(0 * height / output_height as int == 0);
    assert forall|y2: int|
        y <= y2 < output_height implies y * height / output_height as int <= #[trigger] (y2
        * height / output_height as int) by {
        assert(y * height <= y2 * height) by (nonlinear_arith)
            requires
                0 <= y <= y2,
        ;
        vstd::arithmetic::div_mod::lemma_div_is_ordered(
            y * height,
            y2 * height,
            output_height as int,
        );
    }
}

} // verus!
