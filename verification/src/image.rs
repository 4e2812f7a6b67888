//! Indexed bitmaps: a 16 by 16 grid of 4-bit palette indices, built once from
//! a resource blob (two pixels per byte, high nibble first, row-major) and
//! immutable afterwards.

use vstd::prelude::*;
use crate::{IMAGE_PIXELS, RESOURCE_BYTES};

verus! {

/// Image data usable by any tile or sprite: one palette index per pixel,
/// row-major.
#[derive(Copy, Clone)]
pub struct Image(pub [u8; IMAGE_PIXELS]);

/// The pixels encoded by a resource blob: byte `i` carries pixel `2i` in its
/// high nibble and pixel `2i + 1` in its low nibble.
pub open spec fn spec_decode_resource(blob: Seq<u8>) -> Seq<u8>
    recommends
        blob.len() == RESOURCE_BYTES,
{
    Seq::new(IMAGE_PIXELS as nat, |i: int| if i % 2 == 0 {
        blob[i / 2] >> 4u8
    } else {
        blob[i / 2] & 0x0fu8
    })
}

/// The resource blob encoding the given pixels: byte `i` packs pixels `2i`
/// and `2i + 1` as high and low nibble.
pub open spec fn spec_encode_resource(pixels: Seq<u8>) -> Seq<u8>
    recommends
        pixels.len() == IMAGE_PIXELS,
{
    Seq::new(RESOURCE_BYTES as nat, |i: int| (pixels[2 * i] << 4u8) | pixels[2 * i + 1])
}

impl Image {
    /// Every stored index fits in 4 bits.
    pub open spec fn wf(self) -> bool {
        forall|i: int| 0 <= i < IMAGE_PIXELS ==> self.0@[i] <= 15
    }

    /// The all-zero ("empty") image.
    pub fn empty() -> (img: Image)
        ensures
            forall|i: int| 0 <= i < IMAGE_PIXELS ==> img.0@[i] == 0,
            img.wf(),
    {
        Image([0u8; IMAGE_PIXELS])
    }

    /// Unpacks a resource blob into an image: 4 bits per pixel, two pixels
    /// per byte, high nibble first.
    pub fn from_resource(avk_res: &[u8; RESOURCE_BYTES]) -> (img: Image)
        ensures
            img.0@ == spec_decode_resource(avk_res@),
            img.wf(),
    {
        let mut this = [0u8; IMAGE_PIXELS];
        let mut i: usize = 0;
        while i < RESOURCE_BYTES
            invariant
                i <= RESOURCE_BYTES,
                forall|j: int| 0 <= j < 2 * i ==> this@[j] == spec_decode_resource(avk_res@)[j],
                forall|j: int| 0 <= j < 2 * i ==> this@[j] <= 15,
            decreases RESOURCE_BYTES - i,
        {
            let b = avk_res[i];
            assert(b >> 4u8 <= 15 && b & 0x0fu8 <= 15) by (bit_vector);
            this[i * 2] = b >> 4;
            this[i * 2 + 1] = b & 0x0f;
            i += 1;
        }
        let img = Image(this);
        assert(img.0@ =~= spec_decode_resource(avk_res@));
        img
    }

    /// Packs the image back into a resource blob, two pixels per byte.
    pub fn encode_resource(&self) -> (blob: Vec<u8>)
        requires
            self.wf(),
        ensures
            blob@ == spec_encode_resource(self.0@),
            blob@.len() == RESOURCE_BYTES,
    {
        let mut blob: Vec<u8> = Vec::new();
        let mut i: usize = 0;
        while i < RESOURCE_BYTES
            invariant
                i <= RESOURCE_BYTES,
                self.wf(),
                blob@.len() == i,
                forall|j: int| 0 <= j < i ==> blob@[j] == spec_encode_resource(self.0@)[j],
            decreases RESOURCE_BYTES - i,
        {
            blob.push((self.0[i * 2] << 4) | self.0[i * 2 + 1]);
            i += 1;
        }
        assert(blob@ =~= spec_encode_resource(self.0@));
        blob
    }
}

/// Decoding a resource blob and re-encoding the pixels reproduces the
/// original bytes.
pub proof fn lemma_resource_round_trip(blob: Seq<u8>)
    requires
        blob.len() == RESOURCE_BYTES,
    ensures
        spec_encode_resource(spec_decode_resource(blob)) == blob,
{
    let px = spec_decode_resource(blob);
    assert forall|i: int| 0 <= i < RESOURCE_BYTES implies spec_encode_resource(px)[i] == blob[i] by {
        let b = blob[i];
        assert(((b >> 4u8) << 4u8) | (b & 0x0fu8) == b) by (bit_vector);
    }
    assert(spec_encode_resource(px) =~= blob);
}

/// Encoding pixels that all fit in 4 bits and decoding the blob again
/// reproduces the pixels.
pub proof fn lemma_pixel_round_trip(pixels: Seq<u8>)
    requires
        pixels.len() == IMAGE_PIXELS,
        forall|i: int| 0 <= i < IMAGE_PIXELS ==> pixels[i] <= 15,
    ensures
        spec_decode_resource(spec_encode_resource(pixels)) == pixels,
{
    let blob = spec_encode_resource(pixels);
    assert forall|i: int| 0 <= i < IMAGE_PIXELS implies spec_decode_resource(blob)[i]
        == pixels[i] by {
        let hi = pixels[2 * (i / 2)];
        let lo = pixels[2 * (i / 2) + 1];
        assert(hi <= 15 && lo <= 15);
        if i % 2 == 0 {
            assert(2 * (i / 2) == i);
            assert(((hi << 4u8) | lo) >> 4u8 == hi) by (bit_vector)
                requires
                    hi <= 15 && lo <= 15,
            ;
        } else {
            assert(2 * (i / 2) + 1 == i);
            assert(((hi << 4u8) | lo) & 0x0fu8 == lo) by (bit_vector)
                requires
                    hi <= 15 && lo <= 15,
            ;
        }
    }
    assert(spec_decode_resource(blob) =~= pixels);
}

} // verus!
