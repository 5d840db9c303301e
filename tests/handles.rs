use mnist::{
    calculate_image_bounds, DigitClass, Image, Label, TestImage, TestLabel, TrainingImage,
    TrainingLabel, IMAGE_OFFSET, IMAGE_SIZE, LABEL_OFFSET, TEST_IMAGE_COUNT,
    TRAINING_IMAGE_COUNT,
};

#[test]
fn image_bounds() {
    assert_eq!(calculate_image_bounds(0), (16, 800));
    assert_eq!(calculate_image_bounds(1), (800, 1584));
    assert_eq!(calculate_image_bounds(59999), (16 + 59999 * 784, 16 + 60000 * 784));
}

#[test]
fn digit_class_from_byte() {
    assert_eq!(DigitClass::from_byte(0), Some(DigitClass::Zero));
    assert_eq!(DigitClass::from_byte(5), Some(DigitClass::Five));
    assert_eq!(DigitClass::from_byte(9), Some(DigitClass::Nine));
    assert_eq!(DigitClass::from_byte(10), None);
    assert_eq!(DigitClass::from_byte(255), None);
    for b in 0u8..10 {
        assert_eq!(usize::from(DigitClass::from_byte(b).unwrap()), b as usize);
    }
}

#[test]
fn image_handles_stay_in_range() {
    assert_eq!(TestImage::from_index(9999).map(|i| i.index()), Some(9999));
    assert_eq!(TestImage::from_index(TEST_IMAGE_COUNT), None);
    assert_eq!(TrainingImage::from_index(59999).map(|i| i.index()), Some(59999));
    assert_eq!(TrainingImage::from_index(TRAINING_IMAGE_COUNT), None);
    let all = TestImage::all();
    assert_eq!(all.len(), TEST_IMAGE_COUNT);
    assert_eq!(all[1234].index(), 1234);
}

#[test]
fn label_handles_read_their_class() {
    let mut labels = vec![0, 0, 8, 1, 0, 0, 0x27, 0x10];
    labels.resize(LABEL_OFFSET + TEST_IMAGE_COUNT, 3);
    labels[LABEL_OFFSET + 17] = 9;
    let label = TestLabel::from_index(17).unwrap();
    assert_eq!(label.digit_class(&labels), DigitClass::Nine);
    assert_eq!(TestLabel::from_index(0).unwrap().digit_class(&labels), DigitClass::Three);
    assert_eq!(TestLabel::from_index(TEST_IMAGE_COUNT), None);
    assert_eq!(TrainingLabel::all().len(), TRAINING_IMAGE_COUNT);
    assert_eq!(TrainingLabel::from_index(TRAINING_IMAGE_COUNT), None);
}

#[test]
fn as_bytes_reads_the_handles_image() {
    let mut images = vec![0u8; IMAGE_OFFSET + TEST_IMAGE_COUNT * IMAGE_SIZE];
    images[IMAGE_OFFSET + 5 * IMAGE_SIZE + 1] = 200;
    let bytes = TestImage::from_index(5).unwrap().as_bytes(&images);
    assert_eq!(bytes.len(), IMAGE_SIZE);
    assert_eq!(bytes[1], 200);
    assert_eq!(TestImage::from_index(4).unwrap().as_bytes(&images)[1], 0);
}
