use vstd::prelude::*;
use crate::image::{TEST_IMAGE_COUNT, TRAINING_IMAGE_COUNT};

verus! {

/// The label data starts at byte `8` of a labels file.
pub const LABEL_OFFSET: usize = 8;

/// Each labels file starts with `2049`.
pub const LABEL_MAGIC_NUMBER: u32 = 2049;

/// The possible classes of digits.
#[derive(Debug, Clone, Copy, PartialEq, Eq, Structural, PartialOrd, Ord)]
pub enum DigitClass {
    Zero,
    One,
    Two,
    Three,
    Four,
    Five,
    Six,
    Seven,
    Eight,
    Nine,
}

/// The number of classes of digits.
pub const DIGIT_CLASS_COUNT: usize = 10;

impl DigitClass {
    /// The number of classes of digits.
    pub const COUNT: usize = DIGIT_CLASS_COUNT;

    /// The digit this class stands for.
    pub open spec fn value(self) -> nat {
        match self {
            DigitClass::Zero => 0,
            DigitClass::One => 1,
            DigitClass::Two => 2,
            DigitClass::Three => 3,
            DigitClass::Four => 4,
            DigitClass::Five => 5,
            DigitClass::Six => 6,
            DigitClass::Seven => 7,
            DigitClass::Eight => 8,
            DigitClass::Nine => 9,
        }
    }

    /// The class of the digit `b`, if `b` is a digit.
    pub fn from_byte(b: u8) -> (r: Option<Self>)
        ensures
            r is Some <==> b < DIGIT_CLASS_COUNT,
            r matches Some(c) ==> c.value() == b,
    {
        match b {
            0 => Some(DigitClass::Zero),
            1 => Some(DigitClass::One),
            2 => Some(DigitClass::Two),
            3 => Some(DigitClass::Three),
            4 => Some(DigitClass::Four),
            5 => Some(DigitClass::Five),
            6 => Some(DigitClass::Six),
            7 => Some(DigitClass::Seven),
            8 => Some(DigitClass::Eight),
            9 => Some(DigitClass::Nine),
            _ => None,
        }
    }

    /// The digit this class stands for.
    pub fn digit(self) -> (r: usize)
        ensures
            r == self.value(),
    {
        match self {
            DigitClass::Zero => 0,
            DigitClass::One => 1,
            DigitClass::Two => 2,
            DigitClass::Three => 3,
            DigitClass::Four => 4,
            DigitClass::Five => 5,
            DigitClass::Six => 6,
            DigitClass::Seven => 7,
            DigitClass::Eight => 8,
            DigitClass::Nine => 9,
        }
    }
}

impl From<DigitClass> for usize {
    fn from(value: DigitClass) -> (r: usize) {
        value.digit()
    }
}

impl vstd::std_specs::convert::FromSpecImpl<DigitClass> for usize {
    open spec fn obeys_from_spec() -> bool {
        true
    }

    open spec fn from_spec(v: DigitClass) -> usize {
        v.value() as usize
    }
}

/// The label byte of entry `index` in the labels file `data`.
pub open spec fn label_byte(data: Seq<u8>, index: nat) -> u8 {
    data[LABEL_OFFSET + index]
}

/// A labels file is long enough to hold `count` labels.
pub open spec fn holds_labels(data: Seq<u8>, count: nat) -> bool {
    LABEL_OFFSET + count <= data.len()
}

/// A handle to one label of a labels file.
pub trait Label: Sized {
    /// The number of labels of this kind.
    spec fn spec_count() -> nat;

    /// The position of this label in its file.
    spec fn spec_index(&self) -> nat;

    fn count() -> (r: usize)
        ensures
            r == Self::spec_count(),
    ;

    fn index(&self) -> (r: usize)
        ensures
            r == self.spec_index(),
            r < Self::spec_count(),
    ;

    /// The handle of label `index`, if there is such a label.
    fn from_index(index: usize) -> (r: Option<Self>)
        ensures
            r is Some <==> index < Self::spec_count(),
            r matches Some(label) ==> label.spec_index() == index,
    ;

    /// The class of this label, read from `raw_data`, the contents of the
    /// labels file, whose label bytes are digits.
    fn digit_class(&self, raw_data: &[u8]) -> (r: DigitClass)
        requires
            holds_labels(raw_data@, Self::spec_count()),
            label_byte(raw_data@, self.spec_index()) < DIGIT_CLASS_COUNT,
        ensures
            r.value() == label_byte(raw_data@, self.spec_index()),
    {
        let index = self.index() + LABEL_OFFSET;
        match DigitClass::from_byte(raw_data[index]) {
            Some(class) => class,
            // not reached: the byte is a digit
            None => DigitClass::Zero,
        }
    }

    /// Every label of this kind, in file order.
    fn all() -> (r: Vec<Self>)
        ensures
            r.len() == Self::spec_count(),
            forall|i: int| 0 <= i < r.len() ==> (#[trigger] r[i]).spec_index() == i,
    {
        let count = Self::count();
        let mut labels: Vec<Self> = Vec::new();
        let mut index: usize = 0;
        while index < count
            invariant
                count == Self::spec_count(),
                index <= count,
                labels.len() == index,
                forall|i: int| 0 <= i < labels.len() ==> (#[trigger] labels[i]).spec_index() == i,
            decreases count - index,
        {
            match Self::from_index(index) {
                Some(label) => labels.push(label),
                None => {},
            }
            index = index + 1;
        }
        labels
    }
}

/// A handle to a specific test [Label].
#[derive(Debug, Clone, Copy, PartialEq, Eq)]
pub struct TestLabel(usize);

impl TestLabel {
    /// The number of handles of this kind.
    pub const COUNT: usize = TEST_IMAGE_COUNT;

    #[verifier::type_invariant]
    spec fn in_range(self) -> bool {
        self.0 < TEST_IMAGE_COUNT
    }
}

impl Label for TestLabel {
    open spec fn spec_count() -> nat {
        TEST_IMAGE_COUNT as nat
    }

    closed spec fn spec_index(&self) -> nat {
        self.0 as nat
    }

    fn count() -> (r: usize) {
        TEST_IMAGE_COUNT
    }

    fn index(&self) -> (r: usize) {
        proof {
            use_type_invariant(self);
        }
        self.0
    }

    fn from_index(index: usize) -> (r: Option<Self>) {
        if index < TEST_IMAGE_COUNT {
            Some(TestLabel(index))
        } else {
            None
        }
    }
}

/// A handle to a specific training [Label].
#[derive(Debug, Clone, Copy, PartialEq, Eq)]
pub struct TrainingLabel(usize);

impl TrainingLabel {
    /// The number of handles of this kind.
    pub const COUNT: usize = TRAINING_IMAGE_COUNT;

    #[verifier::type_invariant]
    spec fn in_range(self) -> bool {
        self.0 < TRAINING_IMAGE_COUNT
    }
}

impl Label for TrainingLabel {
    open spec fn spec_count() -> nat {
        TRAINING_IMAGE_COUNT as nat
    }

    closed spec fn spec_index(&self) -> nat {
        self.0 as nat
    }

    fn count() -> (r: usize) {
        TRAINING_IMAGE_COUNT
    }

    fn index(&self) -> (r: usize) {
        proof {
            use_type_invariant(self);
        }
        self.0
    }

    fn from_index(index: usize) -> (r: Option<Self>) {
        if index < TRAINING_IMAGE_COUNT {
            Some(TrainingLabel(index))
        } else {
            None
        }
    }
}

} // verus!
