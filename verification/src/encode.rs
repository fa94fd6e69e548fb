//! PNG encoding of materialized images.
//!
//! On trigger, every camera's dense image is encoded as an 8-bit RGBA PNG;
//! writing the encoded bytes to disk is left to the caller. The codec is a
//! commodity call into the image crate; its output is a function of the
//! pixel data and dimensions alone, named here rather than restated.

use vstd::prelude::*;
use crate::camera_table::CameraOutputTable;

verus! {

/// The PNG stream that encodes a `width`-by-`height` 8-bit RGBA image with
/// the given pixel bytes.
pub uninterp spec fn png_encoding_of(width: u32, height: u32, pixels: Seq<u8>) -> Seq<u8>;

/// Relies on image's PngEncoder through ImageEncoder::write_image: encodes
/// an 8-bit RGBA buffer of exactly `width * 4 * height` bytes into a PNG
/// stream, which depends on the arguments alone; a buffer of any other
/// length would make the call panic, so it is excluded. Writing goes into
/// an in-memory buffer, and the encoder rejects only an image with a zero
/// dimension, so with both dimensions nonzero the call succeeds.
#[verifier::external_body]
fn encode_rgba_png(width: u32, height: u32, pixels: &Vec<u8>) -> (r: Option<Vec<u8>>)
    requires
        pixels@.len() == width as int * 4 * height as int,
    ensures
        r matches Some(b) ==> b@ == png_encoding_of(width, height, pixels@),
        width >= 1 && height >= 1 ==> r is Some,
{
    let mut out: Vec<u8> = Vec::new();
    let encoder = image::codecs::png::PngEncoder::new(&mut out);
    match image::ImageEncoder::write_image(
        encoder,
        pixels.as_slice(),
        width,
        height,
        image::ExtendedColorType::Rgba8,
    ) {
        Ok(()) => Some(out),
        Err(_) => None,
    }
}

/// Encodes every materialized image of the registry as a PNG, slot by
/// slot. A slot holding a full dense image of nonzero dimensions encodes
/// to its PNG stream; one whose stored bytes do not form a full dense
/// image (a malformed payload was materialized) yields `None`, and that
/// slot's save fails without disturbing the others.
pub fn encode_images(table: &CameraOutputTable) -> (out: Vec<Option<Vec<u8>>>)
    requires
        table.wf(),
    ensures
        out@.len() == table.images@.len(),
        forall|i: int|
            0 <= i < out@.len() ==> match #[trigger] out@[i] {
                Some(b) => {
                    let img = table.images@[i];
                    &&& img.data@.len() == img.row_bytes() * img.height as int
                    &&& b@ == png_encoding_of(img.width, img.height, img.data@)
                },
                None => true,
            },
        forall|i: int|
            0 <= i < out@.len() && (#[trigger] table.images@[i]).data@.len() != table.images@[i].row_bytes()
                * table.images@[i].height as int ==> out@[i] is None,
        forall|i: int|
            0 <= i < out@.len() && (#[trigger] table.images@[i]).data@.len() == table.images@[i].row_bytes()
                * table.images@[i].height as int && table.images@[i].width >= 1
                && table.images@[i].height >= 1 ==> out@[i] is Some,
{
    let mut out: Vec<Option<Vec<u8>>> = Vec::new();
    let mut i: usize = 0;
    while i < table.images.len()
        invariant
            i <= table.images@.len(),
            out@.len() == i,
            table.wf(),
            forall|j: int|
                0 <= j < i ==> match #[trigger] out@[j] {
                    Some(b) => {
                        let img = table.images@[j];
                        &&& img.data@.len() == img.row_bytes() * img.height as int
                        &&& b@ == png_encoding_of(img.width, img.height, img.data@)
                    },
                    None => true,
                },
            forall|j: int|
                0 <= j < i && (#[trigger] table.images@[j]).data@.len() != table.images@[j].row_bytes()
                    * table.images@[j].height as int ==> out@[j] is None,
            forall|j: int|
                0 <= j < i && (#[trigger] table.images@[j]).data@.len() == table.images@[j].row_bytes()
                    * table.images@[j].height as int && table.images@[j].width >= 1
                    && table.images@[j].height >= 1 ==> out@[j] is Some,
        decreases table.images@.len() - i,
    {
        let width = table.images[i].width;
        let height = table.images[i].height;
        let expected64: u64 = width as u64 * 4 * height as u64;
        let len64: u64 = table.images[i].data.len() as u64;
        if len64 == expected64 {
            out.push(encode_rgba_png(width, height, &table.images[i].data));
        } else {
            out.push(None);
        }
        i = i + 1;
    }
    out
}

} // verus!
