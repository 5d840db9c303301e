use crate::image::{holds_images, image_pixels, Image, IMAGE_HEIGHT, IMAGE_WIDTH};
use crate::text::{image_text, pgm_header, pgm_header_string, push_image, PixelStyle};
use vstd::prelude::*;

verus! {

/// The ASCII art of `image`, read from `raw_data`, the contents of its
/// images file: one line per row of pixels, `@` for a dark pixel and `.`
/// for any other.
pub fn to_ascii_art<I: Image>(image: I, raw_data: &[u8]) -> (r: String)
    requires
        holds_images(raw_data@, I::spec_count()),
    ensures
        r@ == image_text(
            image_pixels(raw_data@, image.spec_index()),
            IMAGE_WIDTH as nat,
            IMAGE_HEIGHT as nat,
            PixelStyle::Shade,
        ),
{
    to_string(image, raw_data, String::new(), PixelStyle::Shade)
}

/// `image`, read from `raw_data`, the contents of its images file, as a
/// plain PGM file: the header, then each pixel in decimal on a line of its
/// own, with an empty line after each row.
pub fn to_pgm<I: Image>(image: I, raw_data: &[u8]) -> (r: String)
    requires
        holds_images(raw_data@, I::spec_count()),
    ensures
        r@ == pgm_header() + image_text(
            image_pixels(raw_data@, image.spec_index()),
            IMAGE_WIDTH as nat,
            IMAGE_HEIGHT as nat,
            PixelStyle::DecimalLine,
        ),
{
    to_string(image, raw_data, pgm_header_string(), PixelStyle::DecimalLine)
}

fn to_string<I: Image>(image: I, raw_data: &[u8], initial_string: String, style: PixelStyle) -> (r:
    String)
    requires
        holds_images(raw_data@, I::spec_count()),
    ensures
        r@ == initial_string@ + image_text(
            image_pixels(raw_data@, image.spec_index()),
            IMAGE_WIDTH as nat,
            IMAGE_HEIGHT as nat,
            style,
        ),
{
    let ghost pixels = image_pixels(raw_data@, image.spec_index());
    let bytes = image.as_bytes(raw_data);
    let mut output = initial_string;
    push_image(&mut output, bytes, 0, IMAGE_WIDTH, IMAGE_HEIGHT, style);
    assert(bytes@.subrange(0, (IMAGE_WIDTH * IMAGE_HEIGHT) as int) =~= pixels);
    output
}

} // verus!
