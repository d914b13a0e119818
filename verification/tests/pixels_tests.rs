use stream_sync_switcher_core::pixels::{
    fill_two_real_bgra, fill_two_real_bgra_rows,
    kept_render_buffer_diagnostics, scale_four_view_bgra_to_obs_validation_profile_from_slice,
    BgraRenderBufferDiagnostics, ObsRenderBufferPool,
};
use stream_sync_switcher_core::quad::{
    FOUR_VIEW_CLEAN_OUTPUT_LOOP_OBS_OUTPUT_HEIGHT, FOUR_VIEW_CLEAN_OUTPUT_LOOP_OBS_OUTPUT_WIDTH,
};

fn sample_bgra_pixel(pixels: &[u8], width: u32, x: u32, y: u32) -> [u8; 4] {
    let index = ((y * width + x) * 4) as usize;
    [
        pixels[index],
        pixels[index + 1],
        pixels[index + 2],
        pixels[index + 3],
    ]
}

#[test]
fn obs_render_buffer_reuses_single_retained_buffer() {
    let mut pool = ObsRenderBufferPool::new();

    let expected_len = (FOUR_VIEW_CLEAN_OUTPUT_LOOP_OBS_OUTPUT_WIDTH
        * FOUR_VIEW_CLEAN_OUTPUT_LOOP_OBS_OUTPUT_HEIGHT
        * 4) as usize;
    let (first, first_diagnostics) = pool.take_reusable_obs_render_buffer(expected_len);
    let (second, second_diagnostics) = pool.take_reusable_obs_render_buffer(expected_len);

    assert_eq!(first_diagnostics.allocation_count, 1);
    assert_eq!(first_diagnostics.reuse_count, 0);
    assert_eq!(second_diagnostics.allocation_count, 1);
    assert_eq!(second_diagnostics.reuse_count, 0);

    pool.recycle_obs_render_buffer(first);
    pool.recycle_obs_render_buffer(second);

    let (_third, third_diagnostics) = pool.take_reusable_obs_render_buffer(expected_len);
    let (_fourth, fourth_diagnostics) = pool.take_reusable_obs_render_buffer(expected_len);

    assert_eq!(third_diagnostics.allocation_count, 0);
    assert_eq!(third_diagnostics.reuse_count, 1);
    assert_eq!(fourth_diagnostics.allocation_count, 1);
    assert_eq!(fourth_diagnostics.reuse_count, 0);
}

#[test]
fn obs_scale_helper_records_same_size_copy_path() {
    let mut pool = ObsRenderBufferPool::new();

    let expected_len = (FOUR_VIEW_CLEAN_OUTPUT_LOOP_OBS_OUTPUT_WIDTH
        * FOUR_VIEW_CLEAN_OUTPUT_LOOP_OBS_OUTPUT_HEIGHT
        * 4) as usize;
    let source = vec![0x2a; expected_len];
    let (scaled, diagnostics) = scale_four_view_bgra_to_obs_validation_profile_from_slice(
        &mut pool,
        FOUR_VIEW_CLEAN_OUTPUT_LOOP_OBS_OUTPUT_WIDTH,
        FOUR_VIEW_CLEAN_OUTPUT_LOOP_OBS_OUTPUT_HEIGHT,
        &source,
        FOUR_VIEW_CLEAN_OUTPUT_LOOP_OBS_OUTPUT_WIDTH,
        FOUR_VIEW_CLEAN_OUTPUT_LOOP_OBS_OUTPUT_HEIGHT,
    );

    assert_eq!(scaled.width, FOUR_VIEW_CLEAN_OUTPUT_LOOP_OBS_OUTPUT_WIDTH);
    assert_eq!(scaled.height, FOUR_VIEW_CLEAN_OUTPUT_LOOP_OBS_OUTPUT_HEIGHT);
    assert_eq!(scaled.pixels.len(), expected_len);
    assert_eq!(diagnostics.bytes_copied_total, expected_len);
    assert_eq!(diagnostics.same_size_copy_count, 1);
    assert_eq!(diagnostics.half_scale_count, 0);
    assert_eq!(diagnostics.generic_scale_count, 0);
    assert_eq!(diagnostics.passthrough_count, 0);
}

#[test]
fn obs_scale_helper_records_half_scale_path() {
    let mut pool = ObsRenderBufferPool::new();

    let source_width = FOUR_VIEW_CLEAN_OUTPUT_LOOP_OBS_OUTPUT_WIDTH * 2;
    let source_height = FOUR_VIEW_CLEAN_OUTPUT_LOOP_OBS_OUTPUT_HEIGHT * 2;
    let source_len = (source_width * source_height * 4) as usize;
    let source = vec![0x55; source_len];
    let (scaled, diagnostics) = scale_four_view_bgra_to_obs_validation_profile_from_slice(
        &mut pool,
        source_width,
        source_height,
        &source,
        FOUR_VIEW_CLEAN_OUTPUT_LOOP_OBS_OUTPUT_WIDTH,
        FOUR_VIEW_CLEAN_OUTPUT_LOOP_OBS_OUTPUT_HEIGHT,
    );

    assert_eq!(scaled.width, FOUR_VIEW_CLEAN_OUTPUT_LOOP_OBS_OUTPUT_WIDTH);
    assert_eq!(scaled.height, FOUR_VIEW_CLEAN_OUTPUT_LOOP_OBS_OUTPUT_HEIGHT);
    assert_eq!(
        scaled.pixels.len(),
        (FOUR_VIEW_CLEAN_OUTPUT_LOOP_OBS_OUTPUT_WIDTH
            * FOUR_VIEW_CLEAN_OUTPUT_LOOP_OBS_OUTPUT_HEIGHT
            * 4) as usize
    );
    assert_eq!(diagnostics.same_size_copy_count, 0);
    assert_eq!(diagnostics.half_scale_count, 1);
    assert_eq!(diagnostics.generic_scale_count, 0);
    assert_eq!(diagnostics.passthrough_count, 0);
}

#[test]
fn obs_scale_helper_half_scale_keeps_top_left_pixel_of_each_2x2_block() {
    let mut pool = ObsRenderBufferPool::new();

    let source = [
        [1, 2, 3, 255],
        [9, 9, 9, 255],
        [4, 5, 6, 255],
        [8, 8, 8, 255],
        [7, 7, 7, 255],
        [7, 7, 7, 255],
        [6, 6, 6, 255],
        [6, 6, 6, 255],
        [10, 11, 12, 255],
        [5, 5, 5, 255],
        [13, 14, 15, 255],
        [4, 4, 4, 255],
        [3, 3, 3, 255],
        [3, 3, 3, 255],
        [2, 2, 2, 255],
        [2, 2, 2, 255],
    ]
    .into_iter()
    .flatten()
    .collect::<Vec<u8>>();
    let (scaled, diagnostics) =
        scale_four_view_bgra_to_obs_validation_profile_from_slice(&mut pool, 4, 4, &source, 2, 2);

    assert_eq!(diagnostics.half_scale_count, 1);
    assert_eq!(
        sample_bgra_pixel(&scaled.pixels, scaled.width, 0, 0),
        [1, 2, 3, 255]
    );
    assert_eq!(
        sample_bgra_pixel(&scaled.pixels, scaled.width, 1, 0),
        [4, 5, 6, 255]
    );
    assert_eq!(
        sample_bgra_pixel(&scaled.pixels, scaled.width, 0, 1),
        [10, 11, 12, 255]
    );
    assert_eq!(
        sample_bgra_pixel(&scaled.pixels, scaled.width, 1, 1),
        [13, 14, 15, 255]
    );
}

#[test]
fn generic_scale_picks_the_nearest_source_pixel() {
    let mut pool = ObsRenderBufferPool::new();
    let source: Vec<u8> = (0u8..3).flat_map(|i| [i, i, i, 255]).collect();
    let (scaled, diagnostics) =
        scale_four_view_bgra_to_obs_validation_profile_from_slice(&mut pool, 3, 1, &source, 2, 1);
    assert_eq!(diagnostics.generic_scale_count, 1);
    assert_eq!(diagnostics.bytes_copied_total, 8);
    assert_eq!(sample_bgra_pixel(&scaled.pixels, 2, 0, 0), [0, 0, 0, 255]);
    assert_eq!(sample_bgra_pixel(&scaled.pixels, 2, 1, 0), [1, 1, 1, 255]);
}

#[test]
fn scaling_reuses_the_recycled_buffer() {
    let mut pool = ObsRenderBufferPool::new();
    let source = vec![7u8; 16];
    let (first, d1) =
        scale_four_view_bgra_to_obs_validation_profile_from_slice(&mut pool, 2, 2, &source, 2, 2);
    assert_eq!(d1.allocation_count, 1);
    pool.recycle_obs_render_buffer(first.pixels);
    let (second, d2) =
        scale_four_view_bgra_to_obs_validation_profile_from_slice(&mut pool, 2, 2, &source, 2, 2);
    assert_eq!(d2.reuse_count, 1);
    assert_eq!(second.pixels, source);
    pool.recycle_obs_render_buffer(Vec::new());
    let (_third, d3) = pool.take_reusable_obs_render_buffer(4);
    assert_eq!(d3.allocation_count, 1);
}

#[test]
fn fill_paints_whole_pixels_only() {
    let mut pixels = vec![0u8; 10];
    fill_two_real_bgra(&mut pixels, [1, 2, 3, 4]);
    assert_eq!(pixels, vec![1, 2, 3, 4, 1, 2, 3, 4, 0, 0]);
}

#[test]
fn fill_rows_paints_a_rectangle() {
    let mut canvas = vec![0u8; 3 * 2 * 4];
    let row = vec![9u8; 8];
    fill_two_real_bgra_rows(&mut canvas, 3, 1, 1, 2, 1, &row);
    let mut expected = vec![0u8; 24];
    for b in expected.iter_mut().skip(16) {
        *b = 9;
    }
    assert_eq!(canvas, expected);
}

#[test]
fn default_buffer_diagnostics_are_zero() {
    let d = BgraRenderBufferDiagnostics::default();
    assert_eq!(d.allocation_count + d.reuse_count + d.passthrough_count, 0);
    assert_eq!(d.bytes_copied_total, 0);
}

#[test]
fn kept_render_buffer_counts_reuse_only_when_capacity_holds_the_frame() {
    let reused = kept_render_buffer_diagnostics(16, 16);
    assert_eq!(reused.reuse_count, 1);
    assert_eq!(reused.allocation_count, 0);
    let larger = kept_render_buffer_diagnostics(64, 16);
    assert_eq!(larger.reuse_count, 1);
    assert_eq!(larger.allocation_count, 0);
    let grown = kept_render_buffer_diagnostics(15, 16);
    assert_eq!(grown.reuse_count, 0);
    assert_eq!(grown.allocation_count, 1);
}

#[test]
fn fill_rows_paints_each_row_and_leaves_the_gaps() {
    let mut canvas = vec![1u8; 4 * 3 * 4];
    let row = vec![7u8, 8, 9, 10, 11, 12, 13, 14, 99, 99];
    fill_two_real_bgra_rows(&mut canvas, 4, 1, 0, 2, 3, &row);
    for r in 0..3usize {
        let start = r * 16 + 4;
        assert_eq!(&canvas[start..start + 8], &row[..8]);
        assert!(canvas[r * 16..start].iter().all(|&b| b == 1));
        assert!(canvas[start + 8..r * 16 + 16].iter().all(|&b| b == 1));
    }
}
