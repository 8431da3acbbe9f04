//! Pictures in the form in which a window shows them.
use vstd::prelude::*;

use crate::picture::Picture;

verus! {

/// The image type of the `slint` crate that a window shows.
#[verifier::external_type_specification]
#[verifier::external_body]
pub struct ExImage(slint::Image);

/// What an image made from RGBA bytes holds: its width, its height and the
/// bytes, row by row.
pub uninterp spec fn image_rgba8(image: slint::Image) -> (u32, u32, Seq<u8>);

/// `SharedPixelBuffer::clone_from_slice` and `Image::from_rgba8` of `slint`:
/// an image of the given size over a copy of the bytes, which it hands out
/// again unchanged. The first panics unless there are four bytes for each
/// pixel.
#[verifier::external_body]
fn image_from_rgba8(bytes: &Vec<u8>, width: u32, height: u32) -> (image: slint::Image)
    requires
        bytes@.len() == 4 * width * height,
    ensures
        image_rgba8(image) == (width, height, bytes@),
{
    slint::Image::from_rgba8(slint::SharedPixelBuffer::clone_from_slice(bytes.as_slice(), width, height))
}

/// The picture as an image that a window can show: same size, same bytes.
pub fn rgba_image_to_slint_image(rgba_image: &Picture) -> (image: slint::Image)
    ensures
        image_rgba8(image).0 == rgba_image@.width,
        image_rgba8(image).1 == rgba_image@.height,
        image_rgba8(image).2 == rgba_image@.bytes,
{
    let (width, height) = rgba_image.dimensions();
    image_from_rgba8(rgba_image.as_raw(), width, height)
}

} // verus!
