use crate::image::{
    holds_images, image_pixels, image_slice, lemma_image_fits, region, IMAGE_HEIGHT, IMAGE_OFFSET,
    IMAGE_WIDTH, TEST_IMAGE_COUNT, TRAINING_IMAGE_COUNT,
};
use crate::label::{holds_labels, label_byte, LABEL_OFFSET};
use crate::text::{
    decimal, image_text, pgm_header, pgm_header_string, push_decimal, push_image,
    push_line_break, PixelStyle,
};
use vstd::prelude::*;

verus! {

/// The pixels of image `image_index` of `training_images`, the contents of
/// the training images file.
pub fn get_training_image<'a>(training_images: &'a [u8], image_index: usize) -> (r: &'a [u8])
    requires
        image_index < TRAINING_IMAGE_COUNT,
        holds_images(training_images@, TRAINING_IMAGE_COUNT as nat),
    ensures
        r@ == image_pixels(training_images@, image_index as nat),
{
    image_slice(training_images, image_index, TRAINING_IMAGE_COUNT)
}

/// The pixels of image `image_index` of `test_images`, the contents of the
/// test images file.
pub fn get_test_image<'a>(test_images: &'a [u8], image_index: usize) -> (r: &'a [u8])
    requires
        image_index < TEST_IMAGE_COUNT,
        holds_images(test_images@, TEST_IMAGE_COUNT as nat),
    ensures
        r@ == image_pixels(test_images@, image_index as nat),
{
    image_slice(test_images, image_index, TEST_IMAGE_COUNT)
}

/// The label byte of image `image_index`, read from `training_labels`, the
/// contents of the training labels file.
pub fn get_training_label(training_labels: &[u8], image_index: usize) -> (r: u8)
    requires
        image_index < TRAINING_IMAGE_COUNT,
        holds_labels(training_labels@, TRAINING_IMAGE_COUNT as nat),
    ensures
        r == label_byte(training_labels@, image_index as nat),
{
    training_labels[image_index + LABEL_OFFSET]
}

/// The label byte of image `image_index`, read from `test_labels`, the
/// contents of the test labels file.
pub fn get_test_label(test_labels: &[u8], image_index: usize) -> (r: u8)
    requires
        image_index < TEST_IMAGE_COUNT,
        holds_labels(test_labels@, TEST_IMAGE_COUNT as nat),
    ensures
        r == label_byte(test_labels@, image_index as nat),
{
    test_labels[image_index + LABEL_OFFSET]
}

/// The ASCII art of training image `image_index`: the index in decimal on
/// a line of its own, then one line per row of pixels, `@` for a dark
/// pixel and `.` for any other.
pub fn training_image_to_ascii_art(training_images: &[u8], image_index: usize) -> (r: String)
    requires
        image_index < TRAINING_IMAGE_COUNT,
        holds_images(training_images@, TRAINING_IMAGE_COUNT as nat),
    ensures
        r@ == decimal(image_index as nat).push('\n') + image_text(
            image_pixels(training_images@, image_index as nat),
            IMAGE_WIDTH as nat,
            IMAGE_HEIGHT as nat,
            PixelStyle::Shade,
        ),
{
    proof {
        lemma_image_fits(training_images@, image_index as nat, TRAINING_IMAGE_COUNT as nat);
    }
    image_to_ascii_art(training_images, IMAGE_WIDTH, IMAGE_HEIGHT, IMAGE_OFFSET, image_index)
}

/// The ASCII art of test image `image_index`, laid out as
/// [training_image_to_ascii_art] lays out a training image.
pub fn test_image_to_ascii_art(test_images: &[u8], image_index: usize) -> (r: String)
    requires
        image_index < TEST_IMAGE_COUNT,
        holds_images(test_images@, TEST_IMAGE_COUNT as nat),
    ensures
        r@ == decimal(image_index as nat).push('\n') + image_text(
            image_pixels(test_images@, image_index as nat),
            IMAGE_WIDTH as nat,
            IMAGE_HEIGHT as nat,
            PixelStyle::Shade,
        ),
{
    proof {
        lemma_image_fits(test_images@, image_index as nat, TEST_IMAGE_COUNT as nat);
    }
    image_to_ascii_art(test_images, IMAGE_WIDTH, IMAGE_HEIGHT, IMAGE_OFFSET, image_index)
}

/// Training image `image_index` as a plain PGM file: the header, then one
/// line per row of pixels, each pixel in decimal followed by a space.
pub fn training_image_to_pgm(training_images: &[u8], image_index: usize) -> (r: String)
    requires
        image_index < TRAINING_IMAGE_COUNT,
        holds_images(training_images@, TRAINING_IMAGE_COUNT as nat),
    ensures
        r@ == pgm_header() + image_text(
            image_pixels(training_images@, image_index as nat),
            IMAGE_WIDTH as nat,
            IMAGE_HEIGHT as nat,
            PixelStyle::DecimalSpaced,
        ),
{
    proof {
        lemma_image_fits(training_images@, image_index as nat, TRAINING_IMAGE_COUNT as nat);
    }
    image_to_pgm(training_images, IMAGE_WIDTH, IMAGE_HEIGHT, IMAGE_OFFSET, image_index)
}

/// Test image `image_index` as a plain PGM file, laid out as
/// [training_image_to_pgm] lays out a training image.
pub fn test_image_to_pgm(test_images: &[u8], image_index: usize) -> (r: String)
    requires
        image_index < TEST_IMAGE_COUNT,
        holds_images(test_images@, TEST_IMAGE_COUNT as nat),
    ensures
        r@ == pgm_header() + image_text(
            image_pixels(test_images@, image_index as nat),
            IMAGE_WIDTH as nat,
            IMAGE_HEIGHT as nat,
            PixelStyle::DecimalSpaced,
        ),
{
    proof {
        lemma_image_fits(test_images@, image_index as nat, TEST_IMAGE_COUNT as nat);
    }
    image_to_pgm(test_images, IMAGE_WIDTH, IMAGE_HEIGHT, IMAGE_OFFSET, image_index)
}

fn image_to_ascii_art(
    image_data: &[u8],
    image_width: usize,
    image_height: usize,
    image_data_offset: usize,
    image_index: usize,
) -> (r: String)
    requires
        image_data_offset + image_index * (image_width * image_height) + image_width * image_height
            <= image_data@.len(),
    ensures
        r@ == decimal(image_index as nat).push('\n') + image_text(
            region(
                image_data@,
                image_data_offset as nat,
                (image_width * image_height) as nat,
                image_index as nat,
            ),
            image_width as nat,
            image_height as nat,
            PixelStyle::Shade,
        ),
{
    let mut initial_string = String::new();
    push_decimal(&mut initial_string, image_index);
    push_line_break(&mut initial_string);
    image_to_string(
        image_data,
        image_width,
        image_height,
        image_data_offset,
        image_index,
        initial_string,
        PixelStyle::Shade,
    )
}

fn image_to_pgm(
    image_data: &[u8],
    image_width: usize,
    image_height: usize,
    image_data_offset: usize,
    image_index: usize,
) -> (r: String)
    requires
        image_data_offset + image_index * (image_width * image_height) + image_width * image_height
            <= image_data@.len(),
    ensures
        r@ == pgm_header() + image_text(
            region(
                image_data@,
                image_data_offset as nat,
                (image_width * image_height) as nat,
                image_index as nat,
            ),
            image_width as nat,
            image_height as nat,
            PixelStyle::DecimalSpaced,
        ),
{
    image_to_string(
        image_data,
        image_width,
        image_height,
        image_data_offset,
        image_index,
        pgm_header_string(),
        PixelStyle::DecimalSpaced,
    )
}

/// `initial_string` followed by the text of image `image_index`, one line
/// per row.
fn image_to_string(
    image_data: &[u8],
    image_width: usize,
    image_height: usize,
    image_data_offset: usize,
    image_index: usize,
    initial_string: String,
    style: PixelStyle,
) -> (r: String)
    requires
        image_data_offset + image_index * (image_width * image_height) + image_width * image_height
            <= image_data@.len(),
    ensures
        r@ == initial_string@ + image_text(
            region(
                image_data@,
                image_data_offset as nat,
                (image_width * image_height) as nat,
                image_index as nat,
            ),
            image_width as nat,
            image_height as nat,
            style,
        ),
{
    proof {
        broadcast use vstd::slice::axiom_spec_len;

        assert(image_data@.len() == vstd::slice::spec_slice_len(image_data));
    }
    let image_size = image_width * image_height;
    let start = image_data_offset + (image_index * image_size);
    let mut output = initial_string;
    push_image(&mut output, image_data, start, image_width, image_height, style);
    output
}

} // verus!
