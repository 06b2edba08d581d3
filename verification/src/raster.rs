use image::ImageBuffer;
use image::Rgb;
use vstd::prelude::*;

verus! {

/// An 8-bit RGB image, held in an `image::ImageBuffer`.
///
/// The buffer is opaque to the verifier: what is known of it is what the
/// functions of this module state over `raster_width`, `raster_height` and
/// `raster_pixels`.
#[verifier::external_body]
pub struct Raster {
    buffer: ImageBuffer<Rgb<u8>, Vec<u8>>,
}

/// The width of the image in pixels, as `ImageBuffer::width` reports it.
pub uninterp spec fn raster_width(raster: Raster) -> u32;

/// The height of the image in pixels, as `ImageBuffer::height` reports it.
pub uninterp spec fn raster_height(raster: Raster) -> u32;

/// The pixels of the image in the order in which `ImageBuffer::pixels` walks
/// them (row by row, each row from left to right), each as its red, green and
/// blue channels.
pub uninterp spec fn raster_pixels(raster: Raster) -> Seq<(u8, u8, u8)>;

/// The pixel that starts at byte `3 * i` of a raw RGB buffer.
pub open spec fn pixel_of_bytes(bytes: Seq<u8>, i: int) -> (u8, u8, u8) {
    (bytes[3 * i], bytes[3 * i + 1], bytes[3 * i + 2])
}

/// The first `count` pixels of a raw RGB buffer.
pub open spec fn pixels_of_bytes(bytes: Seq<u8>, count: nat) -> Seq<(u8, u8, u8)> {
    Seq::new(count, |i: int| pixel_of_bytes(bytes, i))
}

/// Whether a buffer of `len` bytes holds an image of `width` by `height`
/// pixels: three bytes for each pixel, where three times the width is a
/// number that a `usize` holds.
pub open spec fn holds_image(width: u32, height: u32, len: nat) -> bool {
    3 * width <= usize::MAX && 3 * width * height <= len
}

/// Calls `ImageBuffer::from_raw`.
///
/// That function multiplies 3 by the width and then by the height, and
/// accepts the buffer exactly when neither product overflows a `usize` and
/// the buffer holds at least that many bytes (a second product that
/// overflows is more than any buffer holds). The image it makes has the given
/// dimensions and reads its pixels from the front of the buffer.
#[verifier::external_body]
fn buffer_from_raw(width: u32, height: u32, bytes: Vec<u8>) -> (made: Option<Raster>)
    ensures
        made is Some <==> holds_image(width, height, bytes@.len()),
        made matches Some(raster) ==> {
            &&& raster_width(raster) == width
            &&& raster_height(raster) == height
            &&& raster_pixels(raster) == pixels_of_bytes(bytes@, (width * height) as nat)
        },
{
    match ImageBuffer::from_raw(width, height, bytes) {
        Some(buffer) => Some(Raster { buffer }),
        None => None,
    }
}

/// Calls `ImageBuffer::width`.
#[verifier::external_body]
fn buffer_width(raster: &Raster) -> (width: u32)
    ensures
        width == raster_width(*raster),
{
    raster.buffer.width()
}

/// Calls `ImageBuffer::height`.
#[verifier::external_body]
fn buffer_height(raster: &Raster) -> (height: u32)
    ensures
        height == raster_height(*raster),
{
    raster.buffer.height()
}

/// Calls `ImageBuffer::pixels` and hands each pixel out as its three
/// channels.
///
/// The iterator walks the first `3 * width * height` bytes of the buffer in
/// chunks of three, so it yields one pixel for each position of the image.
#[verifier::external_body]
fn buffer_pixels(raster: &Raster) -> (pixels: Vec<(u8, u8, u8)>)
    ensures
        pixels@ == raster_pixels(*raster),
        pixels@.len() == raster_width(*raster) * raster_height(*raster),
{
    raster.buffer.pixels().map(|pixel| (pixel.0[0], pixel.0[1], pixel.0[2])).collect()
}

impl Raster {
    /// Makes an image of `width` by `height` pixels from raw bytes, three for
    /// each pixel, row by row. `None` when the bytes are too few, or when
    /// three times the width is more than a `usize` holds.
    pub fn new(width: u32, height: u32, bytes: Vec<u8>) -> (made: Option<Raster>)
        ensures
            made is Some <==> holds_image(width, height, bytes@.len()),
            made matches Some(raster) ==> {
                &&& raster_width(raster) == width
                &&& raster_height(raster) == height
                &&& raster_pixels(raster) == pixels_of_bytes(bytes@, (width * height) as nat)
            },
    {
        buffer_from_raw(width, height, bytes)
    }

    /// The width of the image in pixels.
    pub fn width(&self) -> (width: u32)
        ensures
            width == raster_width(*self),
    {
        buffer_width(self)
    }

    /// The height of the image in pixels.
    pub fn height(&self) -> (height: u32)
        ensures
            height == raster_height(*self),
    {
        buffer_height(self)
    }

    /// The pixels of the image, row by row.
    pub fn pixels(&self) -> (pixels: Vec<(u8, u8, u8)>)
        ensures
            pixels@ == raster_pixels(*self),
            pixels@.len() == raster_width(*self) * raster_height(*self),
    {
        buffer_pixels(self)
    }
}

} // verus!
