//! The deterministic decoder of the fixture previews: it stands in for H.264
//! decoding by painting every pixel from the payload's first byte.
use vstd::prelude::*;
use crate::identity::DecodeDeferredReason;

verus! {

/// Byte `k` of a fixture picture painted from `seed`: each BGRA pixel is
/// `seed`, `seed + 1`, `seed + 2` (wrapping) and an opaque alpha.
pub open spec fn fixture_pixel_byte(seed: u8, k: int) -> u8 {
    let c = k % 4;
    if c == 0 {
        seed
    } else if c == 1 {
        ((seed as int + 1) % 256) as u8
    } else if c == 2 {
        ((seed as int + 2) % 256) as u8
    } else {
        255u8
    }
}

/// "Decodes" a fixture payload of a `width` x `height` frame: an empty
/// payload is deferred as `EmptyPayload`, a frame without area as
/// `InvalidDimensions`; otherwise every pixel is painted from the payload's
/// first byte.
pub fn deterministic_fixture_decode(encoded_payload: &[u8], width: u32, height: u32) -> (r: Result<
    Vec<u8>,
    DecodeDeferredReason,
>)
    requires
        width * height * 4 <= usize::MAX,
    ensures
        encoded_payload@.len() == 0 ==> r == Err::<Vec<u8>, DecodeDeferredReason>(
            DecodeDeferredReason::EmptyPayload,
        ),
        encoded_payload@.len() > 0 && (width == 0 || height == 0) ==> r == Err::<
            Vec<u8>,
            DecodeDeferredReason,
        >(DecodeDeferredReason::InvalidDimensions),
        encoded_payload@.len() > 0 && width > 0 && height > 0 ==> (r matches Ok(pixels) && pixels@.len()
            == width * height * 4 && forall|k: int|
            0 <= k < pixels@.len() ==> #[trigger] pixels@[k] == fixture_pixel_byte(
                encoded_payload@[0],
                k,
            )),
{
    if encoded_payload.len() == 0 {
        return Err(DecodeDeferredReason::EmptyPayload);
    }
    if width == 0 || height == 0 {
        return Err(DecodeDeferredReason::InvalidDimensions);
    }
    let seed = encoded_payload[0];
    let count = width as usize * height as usize;
    let mut pixels: Vec<u8> = Vec::new();
    let mut i: usize = 0;
    while i < count
        invariant
            0 <= i <= count,
            count == width * height,
            count * 4 <= usize::MAX,
            pixels@.len() == 4 * i,
            seed == encoded_payload@[0],
            forall|k: int| 0 <= k < pixels@.len() ==> #[trigger] pixels@[k] == fixture_pixel_byte(seed, k),
        decreases count - i,
    {
        let ghost base = pixels@.len() as int;
        assert(base % 4 == 0 && (base + 1) % 4 == 1 && (base + 2) % 4 == 2 && (base + 3) % 4 == 3)
            by (nonlinear_arith)
            requires
                base == 4 * i,
        {
        }
        pixels.push(seed);
        pixels.push(seed.wrapping_add(1));
        pixels.push(seed.wrapping_add(2));
        pixels.push(255);
        i = i + 1;
    }
    Ok(pixels)
}

} // verus!
