use mnist::dataset::{
    test_image_to_ascii_art, test_image_to_pgm, training_image_to_ascii_art, training_image_to_pgm,
};
use mnist::visualization::{to_ascii_art, to_pgm};
use mnist::{Image, TestImage, TrainingImage, IMAGE_OFFSET, IMAGE_SIZE, TEST_IMAGE_COUNT};
use mnist::TRAINING_IMAGE_COUNT;

const TEST_IMAGES_HEADER: [u8; 16] = [0, 0, 8, 3, 0, 0, 0x27, 0x10, 0, 0, 0, 28, 0, 0, 0, 28];
const TRAINING_IMAGES_HEADER: [u8; 16] = [0, 0, 8, 3, 0, 0, 0xEA, 0x60, 0, 0, 0, 28, 0, 0, 0, 28];

/// An images file, blank but for image `index`, whose first row starts
/// with the pixels 230, 229, 7 and whose last pixel is 255.
fn images_file(header: &[u8; 16], count: usize, index: usize) -> Vec<u8> {
    let mut data = header.to_vec();
    data.resize(IMAGE_OFFSET + count * IMAGE_SIZE, 0);
    let start = IMAGE_OFFSET + index * IMAGE_SIZE;
    data[start] = 230;
    data[start + 1] = 229;
    data[start + 2] = 7;
    data[start + IMAGE_SIZE - 1] = 255;
    data
}

fn expected_art() -> String {
    let mut art = String::from("@..");
    art.push_str(&".".repeat(25));
    art.push('\n');
    for _ in 0..26 {
        art.push_str(&".".repeat(28));
        art.push('\n');
    }
    art.push_str(&".".repeat(27));
    art.push_str("@\n");
    art
}

fn expected_pgm_body(separator: &str, row_end: &str) -> String {
    let mut body = String::new();
    for row in 0..28 {
        for col in 0..28 {
            let value = match (row, col) {
                (0, 0) => 230,
                (0, 1) => 229,
                (0, 2) => 7,
                (27, 27) => 255,
                _ => 0,
            };
            body.push_str(&format!("{}{}", value, separator));
        }
        body.push_str(row_end);
    }
    body
}

#[test]
fn ascii_art_of_a_test_image() {
    let images = images_file(&TEST_IMAGES_HEADER, TEST_IMAGE_COUNT, 42);
    let image = TestImage::from_index(42).unwrap();
    assert_eq!(to_ascii_art(image, &images), expected_art());
}

#[test]
fn pgm_of_a_training_image() {
    let images = images_file(&TRAINING_IMAGES_HEADER, TRAINING_IMAGE_COUNT, 59999);
    let image = TrainingImage::from_index(59999).unwrap();
    let expected = format!("P2\n28 28\n255\n{}", expected_pgm_body("\n", "\n"));
    assert_eq!(to_pgm(image, &images), expected);
}

#[test]
fn indexed_ascii_art() {
    let images = images_file(&TEST_IMAGES_HEADER, TEST_IMAGE_COUNT, 9999);
    assert_eq!(test_image_to_ascii_art(&images, 9999), format!("9999\n{}", expected_art()));
    let training = images_file(&TRAINING_IMAGES_HEADER, TRAINING_IMAGE_COUNT, 0);
    assert_eq!(training_image_to_ascii_art(&training, 0), format!("0\n{}", expected_art()));
}

#[test]
fn indexed_pgm() {
    let images = images_file(&TEST_IMAGES_HEADER, TEST_IMAGE_COUNT, 10);
    let expected = format!("P2\n28 28\n255\n{}", expected_pgm_body(" ", "\n"));
    assert_eq!(test_image_to_pgm(&images, 10), expected);
    let training = images_file(&TRAINING_IMAGES_HEADER, TRAINING_IMAGE_COUNT, 123);
    assert_eq!(training_image_to_pgm(&training, 123), expected);
}

#[test]
fn blank_image_art_has_no_dark_pixels() {
    let images = images_file(&TEST_IMAGES_HEADER, TEST_IMAGE_COUNT, 0);
    let art = to_ascii_art(TestImage::from_index(1).unwrap(), &images);
    assert_eq!(art, format!("{}\n", ".".repeat(28)).repeat(28));
}
