use vstd::prelude::*;
use vstd::slice::slice_subrange;

verus! {

/// The image data starts at byte `16` of an images file.
pub const IMAGE_OFFSET: usize = 16;

/// Each image is `28` pixels wide.
pub const IMAGE_WIDTH: usize = 28;

/// Each image is `28` pixels high.
pub const IMAGE_HEIGHT: usize = 28;

/// Each image has `28 * 28` pixels, one byte each.
pub const IMAGE_SIZE: usize = IMAGE_WIDTH * IMAGE_HEIGHT;

/// Each images file starts with `2051`.
pub const IMAGE_MAGIC_NUMBER: u32 = 2051;

/// The number of test images.
pub const TEST_IMAGE_COUNT: usize = 10000;

/// The number of training images.
pub const TRAINING_IMAGE_COUNT: usize = 60000;

/// The pixels of image `index` in a file with a header of `offset` bytes
/// and images of `size` bytes.
pub open spec fn region(data: Seq<u8>, offset: nat, size: nat, index: nat) -> Seq<u8> {
    let start = offset + index * size;
    data.subrange(start as int, (start + size) as int)
}

/// The pixels of image `index` in the images file `data`.
pub open spec fn image_pixels(data: Seq<u8>, index: nat) -> Seq<u8> {
    region(data, IMAGE_OFFSET as nat, IMAGE_SIZE as nat, index)
}

/// An images file is long enough to hold `count` images.
pub open spec fn holds_images(data: Seq<u8>, count: nat) -> bool {
    IMAGE_OFFSET + count * IMAGE_SIZE <= data.len()
}

/// Returns `(start, end)`, the byte range of image `image_index` in an
/// images file.
pub fn calculate_image_bounds(image_index: usize) -> (r: (usize, usize))
    requires
        IMAGE_OFFSET + image_index * IMAGE_SIZE + IMAGE_SIZE <= usize::MAX,
    ensures
        r.0 == IMAGE_OFFSET + image_index * IMAGE_SIZE,
        r.1 == r.0 + IMAGE_SIZE,
{
    let start = IMAGE_OFFSET + (image_index * IMAGE_SIZE);
    let end = start + IMAGE_SIZE;
    (start, end)
}

/// Image `index` of a file that holds `count` images lies inside it.
pub proof fn lemma_image_fits(data: Seq<u8>, index: nat, count: nat)
    requires
        index < count,
        holds_images(data, count),
    ensures
        IMAGE_OFFSET + index * IMAGE_SIZE + IMAGE_SIZE <= data.len(),
{
    assert(index * IMAGE_SIZE + IMAGE_SIZE <= count * IMAGE_SIZE) by (nonlinear_arith)
        requires
            index < count,
    ;
}

/// The pixels of image `index` of `raw_data`.
pub(crate) fn image_slice<'a>(raw_data: &'a [u8], index: usize, count: usize) -> (r: &'a [u8])
    requires
        index < count,
        holds_images(raw_data@, count as nat),
    ensures
        r@ == image_pixels(raw_data@, index as nat),
        r@.len() == IMAGE_SIZE,
{
    proof {
        broadcast use vstd::slice::axiom_spec_len;

        assert(raw_data@.len() == vstd::slice::spec_slice_len(raw_data));
        lemma_image_fits(raw_data@, index as nat, count as nat);
    }
    let (start, end) = calculate_image_bounds(index);
    slice_subrange(raw_data, start, end)
}

/// A handle to one image of an images file.
pub trait Image: Sized {
    /// The number of images of this kind.
    spec fn spec_count() -> nat;

    /// The position of this image in its file.
    spec fn spec_index(&self) -> nat;

    fn count() -> (r: usize)
        ensures
            r == Self::spec_count(),
    ;

    fn index(&self) -> (r: usize)
        ensures
            r == self.spec_index(),
            r < Self::spec_count(),
    ;

    /// The handle of image `index`, if there is such an image.
    fn from_index(index: usize) -> (r: Option<Self>)
        ensures
            r is Some <==> index < Self::spec_count(),
            r matches Some(image) ==> image.spec_index() == index,
    ;

    /// The pixels of this image, row after row, read from `raw_data`, the
    /// contents of the images file.
    fn as_bytes<'a>(self, raw_data: &'a [u8]) -> (r: &'a [u8])
        requires
            holds_images(raw_data@, Self::spec_count()),
        ensures
            r@ == image_pixels(raw_data@, self.spec_index()),
            r@.len() == IMAGE_SIZE,
    {
        let index = self.index();
        image_slice(raw_data, index, Self::count())
    }

    /// Every image of this kind, in file order.
    fn all() -> (r: Vec<Self>)
        ensures
            r.len() == Self::spec_count(),
            forall|i: int| 0 <= i < r.len() ==> (#[trigger] r[i]).spec_index() == i,
    {
        let count = Self::count();
        let mut images: Vec<Self> = Vec::new();
        let mut index: usize = 0;
        while index < count
            invariant
                count == Self::spec_count(),
                index <= count,
                images.len() == index,
                forall|i: int| 0 <= i < images.len() ==> (#[trigger] images[i]).spec_index() == i,
            decreases count - index,
        {
            match Self::from_index(index) {
                Some(image) => images.push(image),
                None => {},
            }
            index = index + 1;
        }
        images
    }
}

/// A handle to a specific test [Image].
#[derive(Debug, Clone, Copy, PartialEq, Eq)]
pub struct TestImage(usize);

impl TestImage {
    /// The number of handles of this kind.
    pub const COUNT: usize = TEST_IMAGE_COUNT;

    #[verifier::type_invariant]
    spec fn in_range(self) -> bool {
        self.0 < TEST_IMAGE_COUNT
    }
}

impl Image for TestImage {
    open spec fn spec_count() -> nat {
        TEST_IMAGE_COUNT as nat
    }

    closed spec fn spec_index(&self) -> nat {
        self.0 as nat
    }

    fn count() -> (r: usize) {
        TEST_IMAGE_COUNT
    }

    fn index(&self) -> (r: usize) {
        proof {
            use_type_invariant(self);
        }
        self.0
    }

    fn from_index(index: usize) -> (r: Option<Self>) {
        if index < TEST_IMAGE_COUNT {
            Some(TestImage(index))
        } else {
            None
        }
    }
}

/// A handle to a specific training [Image].
#[derive(Debug, Clone, Copy, PartialEq, Eq)]
pub struct TrainingImage(usize);

impl TrainingImage {
    /// The number of handles of this kind.
    pub const COUNT: usize = TRAINING_IMAGE_COUNT;

    #[verifier::type_invariant]
    spec fn in_range(self) -> bool {
        self.0 < TRAINING_IMAGE_COUNT
    }
}

impl Image for TrainingImage {
    open spec fn spec_count() -> nat {
        TRAINING_IMAGE_COUNT as nat
    }

    closed spec fn spec_index(&self) -> nat {
        self.0 as nat
    }

    fn count() -> (r: usize) {
        TRAINING_IMAGE_COUNT
    }

    fn index(&self) -> (r: usize) {
        proof {
            use_type_invariant(self);
        }
        self.0
    }

    fn from_index(index: usize) -> (r: Option<Self>) {
        if index < TRAINING_IMAGE_COUNT {
            Some(TrainingImage(index))
        } else {
            None
        }
    }
}

} // verus!
