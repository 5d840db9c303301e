use crate::image::{
    holds_images, IMAGE_HEIGHT, IMAGE_MAGIC_NUMBER, IMAGE_OFFSET, IMAGE_SIZE, IMAGE_WIDTH,
};
use crate::label::{holds_labels, label_byte, DIGIT_CLASS_COUNT, LABEL_MAGIC_NUMBER, LABEL_OFFSET};
use vstd::prelude::*;
use vstd::slice::slice_subrange;

verus! {

/// The big-endian number held by the four bytes of `b` from `at` on.
pub open spec fn be_u32(b: Seq<u8>, at: int) -> int {
    b[at] * 0x1000000 + b[at + 1] * 0x10000 + b[at + 2] * 0x100 + b[at + 3]
}

/// The number held by the first four bytes of `bytes`, most significant
/// byte first.
pub fn u32_from_big_endian_bytes(bytes: &[u8]) -> (r: u32)
    requires
        bytes@.len() >= 4,
    ensures
        r == be_u32(bytes@, 0),
{
    (bytes[0] as u32) * 0x1000000 + (bytes[1] as u32) * 0x10000 + (bytes[2] as u32) * 0x100 + (
    bytes[3] as u32)
}

/// `data` is an images file of `count` images: its header holds the magic
/// number, `count` and the image height and width, and the images follow.
pub open spec fn valid_images_file(data: Seq<u8>, count: nat) -> bool {
    &&& holds_images(data, count)
    &&& be_u32(data, 0) == IMAGE_MAGIC_NUMBER
    &&& be_u32(data, 4) == count
    &&& be_u32(data, 8) == IMAGE_HEIGHT
    &&& be_u32(data, 12) == IMAGE_WIDTH
}

/// `data` is a labels file of `count` labels: its header holds the magic
/// number and `count`, and every label that follows is a digit.
pub open spec fn valid_labels_file(data: Seq<u8>, count: nat) -> bool {
    &&& holds_labels(data, count)
    &&& be_u32(data, 0) == LABEL_MAGIC_NUMBER
    &&& be_u32(data, 4) == count
    &&& forall|i: nat| i < count ==> #[trigger] label_byte(data, i) < DIGIT_CLASS_COUNT
}

/// The number held by the four bytes of `data` from `at` on.
fn header_field(data: &[u8], at: usize) -> (r: u32)
    requires
        at + 4 <= data@.len(),
    ensures
        r == be_u32(data@, at as int),
{
    proof {
        broadcast use vstd::slice::axiom_spec_len;

        assert(data@.len() == vstd::slice::spec_slice_len(data));
    }
    let field = slice_subrange(data, at, at + 4);
    u32_from_big_endian_bytes(field)
}

/// Whether `data` is an images file of `count` images.
pub fn check_images_file(data: &[u8], count: usize) -> (r: bool)
    ensures
        r == valid_images_file(data@, count as nat),
{
    if data.len() < IMAGE_OFFSET || (data.len() - IMAGE_OFFSET) / IMAGE_SIZE < count {
        proof {
            if data@.len() >= IMAGE_OFFSET {
                let room = data@.len() - IMAGE_OFFSET;
                assert(room < count * IMAGE_SIZE) by (nonlinear_arith)
                    requires
                        room / (IMAGE_SIZE as int) < count,
                        room >= 0,
                ;
            }
        }
        return false;
    }
    proof {
        let room = data@.len() - IMAGE_OFFSET;
        assert(count * IMAGE_SIZE <= room) by (nonlinear_arith)
            requires
                room / (IMAGE_SIZE as int) >= count,
                room >= 0,
        ;
    }
    header_field(data, 0) == IMAGE_MAGIC_NUMBER && header_field(data, 4) as usize == count
        && header_field(data, 8) as usize == IMAGE_HEIGHT && header_field(data, 12) as usize
        == IMAGE_WIDTH
}

/// Whether `data` is a labels file of `count` labels.
pub fn check_labels_file(data: &[u8], count: usize) -> (r: bool)
    ensures
        r == valid_labels_file(data@, count as nat),
{
    if data.len() < LABEL_OFFSET || data.len() - LABEL_OFFSET < count {
        return false;
    }
    if header_field(data, 0) != LABEL_MAGIC_NUMBER || header_field(data, 4) as usize != count {
        return false;
    }
    proof {
        broadcast use vstd::slice::axiom_spec_len;

        assert(data@.len() == vstd::slice::spec_slice_len(data));
    }
    let mut index: usize = 0;
    while index < count
        invariant
            data@.len() <= usize::MAX,
            holds_labels(data@, count as nat),
            index <= count,
            forall|i: nat| i < index ==> #[trigger] label_byte(data@, i) < DIGIT_CLASS_COUNT,
        decreases count - index,
    {
        if data[LABEL_OFFSET + index] as usize >= DIGIT_CLASS_COUNT {
            assert(label_byte(data@, index as nat) >= DIGIT_CLASS_COUNT);
            return false;
        }
        index = index + 1;
    }
    true
}

} // verus!
