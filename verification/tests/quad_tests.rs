use stream_sync_switcher_core::identity::TwoRealPreviewLoopSlotVisualIdentity;
use stream_sync_switcher_core::quad::{
    compose_two_real_preview_quad_view, compose_two_real_preview_quad_view_incremental,
    two_real_quad_slot_rect, two_real_quad_slot_size, validate_two_real_quad_renderable_slot,
    TwoRealDecodedBgraFrame, TwoRealPreviewLoopQuadCompositionCache, TwoRealQuadComposition,
    TwoRealQuadCompositionInvalidReason, TwoRealQuadCompositionSlot, TwoRealQuadSlotPixels,
    TwoRealQuadSlotPlacement, TwoRealQuadViewComposeCounters,
};

const PLACEHOLDER: [u8; 4] = [16, 16, 16, 255];

fn placement(index: u8) -> TwoRealQuadSlotPlacement {
    TwoRealQuadSlotPlacement {
        row: index / 2,
        column: index % 2,
    }
}

fn frame_slot(index: u8, width: u32, height: u32, base: u8) -> TwoRealQuadCompositionSlot {
    let pixels = (0..width * height)
        .flat_map(|i| [base.wrapping_add(i as u8), 0, 0, 255])
        .collect();
    TwoRealQuadCompositionSlot {
        placement: placement(index),
        pixels: TwoRealQuadSlotPixels::Decoded(TwoRealDecodedBgraFrame {
            width,
            height,
            is_bgra8: true,
            pixels,
        }),
    }
}

fn empty_slot(index: u8) -> TwoRealQuadCompositionSlot {
    TwoRealQuadCompositionSlot {
        placement: placement(index),
        pixels: TwoRealQuadSlotPixels::NotRenderable,
    }
}

fn pixel(pixels: &[u8], x: usize, y: usize) -> [u8; 4] {
    let i = (y * 1280 + x) * 4;
    [pixels[i], pixels[i + 1], pixels[i + 2], pixels[i + 3]]
}

fn identities(frame_ids: [u64; 4]) -> [TwoRealPreviewLoopSlotVisualIdentity; 4] {
    frame_ids.map(|frame_id| TwoRealPreviewLoopSlotVisualIdentity::SourceFrame {
        client_id: "player1".to_string(),
        run_id: "run-a".to_string(),
        frame_id,
        selected_frame_source: None,
    })
}

#[test]
fn quad_draws_each_slot_in_its_quadrant_and_placeholders_elsewhere() {
    let slots = [
        frame_slot(0, 2, 2, 10),
        empty_slot(1),
        empty_slot(2),
        frame_slot(3, 1, 1, 40),
    ];
    let mut cache = TwoRealPreviewLoopQuadCompositionCache::new();
    let (composition, diagnostics) = compose_two_real_preview_quad_view_incremental(
        &slots,
        PLACEHOLDER,
        &mut cache,
        None,
        &identities([1, 2, 3, 4]),
    );
    let TwoRealQuadComposition::ComposedFrame {
        width,
        height,
        pixels,
        rects,
    } = composition
    else {
        panic!("quad should compose");
    };
    assert_eq!((width, height), (1280, 720));
    assert_eq!(pixels.len(), 1280 * 720 * 4);
    assert_eq!(pixel(&pixels, 0, 0), [10, 0, 0, 255]);
    assert_eq!(pixel(&pixels, 639, 0), [11, 0, 0, 255]);
    assert_eq!(pixel(&pixels, 0, 359), [12, 0, 0, 255]);
    assert_eq!(pixel(&pixels, 640, 0), PLACEHOLDER);
    assert_eq!(pixel(&pixels, 640, 360), [40, 0, 0, 255]);
    assert_eq!(pixel(&pixels, 1279, 719), PLACEHOLDER);
    assert_eq!(rects[3].x, 640);
    assert_eq!(rects[3].y, 360);
    assert_eq!(rects[3].width, 640);
    assert_eq!(rects[3].height, 360);
    assert!(diagnostics.full_compose);
    assert!(!diagnostics.incremental_update);
    assert_eq!(diagnostics.changed_slot_count, 4);
    assert_eq!(diagnostics.reused_slot_count, 0);
    assert_eq!(diagnostics.allocation_count, 1);
    assert_eq!(cache.allocation_count(), 1);
    assert_eq!(cache.pixels(), &pixels);
}

#[test]
fn second_composition_reuses_canvas_and_counts_changed_slots() {
    let slots = [
        frame_slot(0, 2, 2, 10),
        empty_slot(1),
        empty_slot(2),
        empty_slot(3),
    ];
    let mut cache = TwoRealPreviewLoopQuadCompositionCache::new();
    let previous = identities([1, 2, 3, 4]);
    compose_two_real_preview_quad_view_incremental(&slots, PLACEHOLDER, &mut cache, None, &previous);
    let current = identities([1, 2, 9, 4]);
    let (_, diagnostics) = compose_two_real_preview_quad_view_incremental(
        &slots,
        PLACEHOLDER,
        &mut cache,
        Some(&previous),
        &current,
    );
    assert_eq!(diagnostics.changed_slot_count, 1);
    assert_eq!(diagnostics.reused_slot_count, 3);
    assert_eq!(diagnostics.allocation_count, 0);
    assert_eq!(cache.allocation_count(), 1);
}

#[test]
fn quad_with_missing_decoded_pixels_is_invalid() {
    let slots = [
        frame_slot(0, 2, 2, 10),
        TwoRealQuadCompositionSlot {
            placement: placement(1),
            pixels: TwoRealQuadSlotPixels::MissingDecodedPixels,
        },
        empty_slot(2),
        empty_slot(3),
    ];
    let mut cache = TwoRealPreviewLoopQuadCompositionCache::new();
    let (composition, diagnostics) = compose_two_real_preview_quad_view_incremental(
        &slots,
        PLACEHOLDER,
        &mut cache,
        None,
        &identities([1, 2, 3, 4]),
    );
    assert!(matches!(
        composition,
        TwoRealQuadComposition::InvalidQuadView {
            reason: TwoRealQuadCompositionInvalidReason::MissingDecodedPixels { placement: p }
        } if p == placement(1)
    ));
    assert!(!diagnostics.full_compose);
    assert_eq!(cache.allocation_count(), 0);
}

#[test]
fn quad_without_frames_has_nothing_to_render() {
    let slots = [empty_slot(0), empty_slot(1), empty_slot(2), empty_slot(3)];
    let mut cache = TwoRealPreviewLoopQuadCompositionCache::new();
    let (composition, _) = compose_two_real_preview_quad_view_incremental(
        &slots,
        PLACEHOLDER,
        &mut cache,
        None,
        &identities([1, 2, 3, 4]),
    );
    assert!(matches!(composition, TwoRealQuadComposition::NoRenderableQuadView));
    assert_eq!(two_real_quad_slot_size(&slots), None);
}

#[test]
fn invalid_frames_are_reported() {
    let mut short = frame_slot(0, 2, 2, 1);
    if let TwoRealQuadSlotPixels::Decoded(frame) = &mut short.pixels {
        frame.pixels.pop();
    }
    assert_eq!(
        validate_two_real_quad_renderable_slot(&short),
        Err(TwoRealQuadCompositionInvalidReason::InvalidBufferLength {
            placement: placement(0),
            expected: 16,
            actual: 15,
        })
    );
    let mut not_bgra = frame_slot(1, 1, 1, 1);
    if let TwoRealQuadSlotPixels::Decoded(frame) = &mut not_bgra.pixels {
        frame.is_bgra8 = false;
    }
    assert_eq!(
        validate_two_real_quad_renderable_slot(&not_bgra),
        Err(TwoRealQuadCompositionInvalidReason::UnsupportedPixelFormat {
            placement: placement(1)
        })
    );
    let flat = frame_slot(2, 0, 3, 1);
    assert_eq!(
        validate_two_real_quad_renderable_slot(&flat),
        Err(TwoRealQuadCompositionInvalidReason::InvalidDimensions {
            placement: placement(2)
        })
    );
    assert_eq!(validate_two_real_quad_renderable_slot(&empty_slot(3)), Ok(()));
}

#[test]
fn slot_size_is_the_largest_frame() {
    let slots = [
        frame_slot(0, 2, 5, 1),
        empty_slot(1),
        frame_slot(2, 4, 1, 1),
        empty_slot(3),
    ];
    assert_eq!(two_real_quad_slot_size(&slots), Some((4, 5)));
    let rect = two_real_quad_slot_rect(placement(1), 640, 360);
    assert_eq!((rect.x, rect.y, rect.width, rect.height), (640, 0, 640, 360));
}

#[test]
fn composing_counts_attempts_and_successes() {
    let slots = [frame_slot(0, 1, 1, 1), empty_slot(1), empty_slot(2), empty_slot(3)];
    let mut cache = TwoRealPreviewLoopQuadCompositionCache::new();
    let mut counters = TwoRealQuadViewComposeCounters {
        compose_attempt_count: 0,
        compose_success_count: 0,
        incremental_update_count: 0,
        full_compose_count: 0,
        changed_slot_update_count: 0,
        reused_slot_count: 0,
    };
    compose_two_real_preview_quad_view(
        &slots,
        PLACEHOLDER,
        &mut cache,
        None,
        &identities([1, 2, 3, 4]),
        &mut counters,
    );
    let empty = [empty_slot(0), empty_slot(1), empty_slot(2), empty_slot(3)];
    compose_two_real_preview_quad_view(
        &empty,
        PLACEHOLDER,
        &mut cache,
        None,
        &identities([1, 2, 3, 4]),
        &mut counters,
    );
    assert_eq!(counters.compose_attempt_count, 2);
    assert_eq!(counters.compose_success_count, 1);
    assert_eq!(counters.full_compose_count, 1);
    assert_eq!(counters.incremental_update_count, 0);
    assert_eq!(counters.changed_slot_update_count, 4);
    assert_eq!(counters.reused_slot_count, 0);
}
