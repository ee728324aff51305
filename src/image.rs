use vstd::prelude::*;

use crate::grid::HeightGrid;

verus! {

#[verifier::external_type_specification]
#[verifier::external_body]
pub struct ExDecodingError(png::DecodingError);

/// The first frame of a PNG file: its size and its pixel bytes, row-major,
/// in the file's own colour type and bit depth.
#[derive(Debug)]
pub struct DecodedImage {
    pub width: u32,
    pub height: u32,
    pub pixels: Vec<u8>,
}

/// Why an image could not be loaded.
#[derive(Debug, Clone, Copy, PartialEq, Eq, Structural)]
pub enum LoadError {
    /// The bytes are not a PNG file that could be decoded.
    Decode,
    /// The decoded pixels hold fewer than one byte per grid cell.
    ShortPixelBuffer,
}

/// The first frame that the PNG decoder yields for `bytes` (its width, height
/// and pixel bytes), or nothing where decoding fails.
pub uninterp spec fn png_frame(bytes: Seq<u8>) -> Option<(u32, u32, Seq<u8>)>;

/// Relies on png's `Decoder::read_info` and `Reader::next_frame`, with the
/// default (identity) transformations: the first frame of the file, trimmed
/// to `OutputInfo::buffer_size`, as the decoder makes it from the bytes alone.
#[verifier::external_body]
fn decode_png(bytes: &[u8]) -> (r: Result<DecodedImage, png::DecodingError>)
    ensures
        r is Ok <==> png_frame(bytes@) is Some,
        r is Ok ==> png_frame(bytes@) == Some(
            (r->Ok_0.width, r->Ok_0.height, r->Ok_0.pixels@),
        ),
{
    let mut reader = png::Decoder::new(bytes).read_info()?;
    let mut pixels = vec![0u8; reader.output_buffer_size()];
    let info = reader.next_frame(&mut pixels)?;
    pixels.truncate(info.buffer_size());
    Ok(DecodedImage { width: info.width, height: info.height, pixels })
}

/// Decodes a PNG file held in `bytes` into its first frame.
pub fn load_png_image(bytes: &[u8]) -> (r: Result<DecodedImage, LoadError>)
    ensures
        r is Ok <==> png_frame(bytes@) is Some,
        r is Ok ==> png_frame(bytes@) == Some(
            (r->Ok_0.width, r->Ok_0.height, r->Ok_0.pixels@),
        ),
        r is Err ==> r->Err_0 == LoadError::Decode,
{
    match decode_png(bytes) {
        Ok(image) => Ok(image),
        Err(_) => Err(LoadError::Decode),
    }
}

/// The height grid of a decoded image: one byte per cell, taken from the
/// start of its pixel bytes; see `HeightGrid::from_image`.
pub fn height_grid_of(image: &DecodedImage) -> (r: Result<HeightGrid, LoadError>)
    ensures
        r is Ok <==> image.width * image.height <= image.pixels@.len(),
        r is Ok ==> r->Ok_0.wf() && r->Ok_0.width == image.width && r->Ok_0.height == image.height
            && r->Ok_0.samples@ == image.pixels@.subrange(0, image.width * image.height),
        r is Err ==> r->Err_0 == LoadError::ShortPixelBuffer,
{
    match HeightGrid::from_image(image.width, image.height, &image.pixels) {
        Ok(grid) => Ok(grid),
        Err(_) => Err(LoadError::ShortPixelBuffer),
    }
}

/// Decodes a PNG heightmap held in `bytes` into a height grid of the image's
/// size, one byte per cell.
pub fn load_height_grid(bytes: &[u8]) -> (r: Result<HeightGrid, LoadError>)
    ensures
        png_frame(bytes@) is None ==> r == Err::<HeightGrid, LoadError>(LoadError::Decode),
        png_frame(bytes@) is Some ==> {
            let (w, h, px) = png_frame(bytes@)->Some_0;
            &&& r is Ok <==> w * h <= px.len()
            &&& r is Ok ==> r->Ok_0.wf() && r->Ok_0.width == w && r->Ok_0.height == h
                && r->Ok_0.samples@ == px.subrange(0, w * h)
            &&& r is Err ==> r->Err_0 == LoadError::ShortPixelBuffer
        },
{
    match load_png_image(bytes) {
        Ok(image) => height_grid_of(&image),
        Err(e) => Err(e),
    }
}

} // verus!
