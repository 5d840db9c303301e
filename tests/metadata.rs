use mnist::idx::u32_from_big_endian_bytes;
use mnist::{
    Image, Label, TestImage, TrainingImage, IMAGE_HEIGHT, IMAGE_MAGIC_NUMBER, IMAGE_WIDTH,
    LABEL_MAGIC_NUMBER,
};

const TRAINING_IMAGES_HEADER: [u8; 16] = [0, 0, 8, 3, 0, 0, 0xEA, 0x60, 0, 0, 0, 28, 0, 0, 0, 28];
const TRAINING_LABELS_HEADER: [u8; 8] = [0, 0, 8, 1, 0, 0, 0xEA, 0x60];
const TEST_IMAGES_HEADER: [u8; 16] = [0, 0, 8, 3, 0, 0, 0x27, 0x10, 0, 0, 0, 28, 0, 0, 0, 28];
const TEST_LABELS_HEADER: [u8; 8] = [0, 0, 8, 1, 0, 0, 0x27, 0x10];

#[test]
fn test_image_metadata() {
    assert_eq!(u32_from_big_endian_bytes(&TEST_IMAGES_HEADER[0..4]), IMAGE_MAGIC_NUMBER);
    assert_eq!(u32_from_big_endian_bytes(&TEST_IMAGES_HEADER[4..8]), TestImage::COUNT as u32);
    assert_eq!(u32_from_big_endian_bytes(&TEST_IMAGES_HEADER[8..12]), IMAGE_HEIGHT as u32);
    assert_eq!(u32_from_big_endian_bytes(&TEST_IMAGES_HEADER[12..16]), IMAGE_WIDTH as u32);
}

#[test]
fn test_label_metadata() {
    assert_eq!(u32_from_big_endian_bytes(&TEST_LABELS_HEADER[0..4]), LABEL_MAGIC_NUMBER);
    assert_eq!(u32_from_big_endian_bytes(&TEST_LABELS_HEADER[4..8]), TestImage::COUNT as u32);
}

#[test]
fn training_image_metadata() {
    assert_eq!(u32_from_big_endian_bytes(&TRAINING_IMAGES_HEADER[0..4]), IMAGE_MAGIC_NUMBER);
    assert_eq!(
        u32_from_big_endian_bytes(&TRAINING_IMAGES_HEADER[4..8]),
        TrainingImage::COUNT as u32
    );
    assert_eq!(u32_from_big_endian_bytes(&TRAINING_IMAGES_HEADER[8..12]), IMAGE_HEIGHT as u32);
    assert_eq!(u32_from_big_endian_bytes(&TRAINING_IMAGES_HEADER[12..16]), IMAGE_WIDTH as u32);
}

#[test]
fn training_label_metadata() {
    assert_eq!(u32_from_big_endian_bytes(&TRAINING_LABELS_HEADER[0..4]), LABEL_MAGIC_NUMBER);
    assert_eq!(
        u32_from_big_endian_bytes(&TRAINING_LABELS_HEADER[4..8]),
        TrainingImage::COUNT as u32
    );
}

#[test]
fn label_counts_match_image_counts() {
    assert_eq!(<mnist::TestLabel as Label>::count(), TestImage::count());
    assert_eq!(<mnist::TrainingLabel as Label>::count(), TrainingImage::count());
    assert_eq!(mnist::TestLabel::COUNT, TestImage::COUNT);
    assert_eq!(mnist::TrainingLabel::COUNT, TrainingImage::COUNT);
}
