use stream_sync_switcher_core::fixture_decode::deterministic_fixture_decode;
use stream_sync_switcher_core::identity::DecodeDeferredReason;

#[test]
fn fixture_decode_paints_every_pixel_from_the_first_payload_byte() {
    assert_eq!(
        deterministic_fixture_decode(&[7, 9, 9], 2, 1),
        Ok(vec![7, 8, 9, 255, 7, 8, 9, 255])
    );
    assert_eq!(
        deterministic_fixture_decode(&[255], 1, 1),
        Ok(vec![255, 0, 1, 255])
    );
}

#[test]
fn fixture_decode_defers_empty_payloads_and_empty_frames() {
    assert_eq!(
        deterministic_fixture_decode(&[], 2, 2),
        Err(DecodeDeferredReason::EmptyPayload)
    );
    assert_eq!(
        deterministic_fixture_decode(&[1], 0, 2),
        Err(DecodeDeferredReason::InvalidDimensions)
    );
}
