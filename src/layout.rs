//! Where the information block sits in each known image format, and where
//! its fields sit inside the block.
use vstd::prelude::*;

verus! {

/// Length of the marker that precedes the block in marker-scanned images.
pub const MARKER_LEN: usize = 9;

/// Length of the block that follows the marker.
pub const MARKER_BLOCK_LEN: usize = 158;

/// Absolute offset of the block in fixed-offset images.
pub const FIXED_BLOCK_START: usize = 0x10000FA;

/// Length of the block in fixed-offset images.
pub const FIXED_BLOCK_LEN: usize = 0x91;

/// Size of every recent image file of this family, in bytes; unused space is
/// filled with 0xFF.
pub const EXPECTED_FILE_SIZE: u64 = 33558528;

/// The two known image formats.
#[derive(Clone, Copy, Debug, PartialEq, Eq, Structural)]
pub enum Variant {
    /// The block follows the first `$BOOTEFI$` marker that a scan meets.
    MarkerScan,
    /// The block sits at a constant offset; no marker is present.
    FixedOffset,
}

/// A half-open byte range `start..end` inside the block.
#[derive(Clone, Copy, Debug, PartialEq, Eq, Structural)]
pub struct FieldRange {
    pub start: usize,
    pub end: usize,
}

impl FieldRange {
    /// The range is ordered and lies inside a block of `block_len` bytes.
    pub open spec fn fits(self, block_len: nat) -> bool {
        self.start <= self.end && self.end <= block_len
    }

    /// The bytes of `block` that the range covers.
    pub open spec fn slice(self, block: Seq<u8>) -> Seq<u8> {
        block.subrange(self.start as int, self.end as int)
    }
}

/// The offset table of one format: the block's length and each field's range.
#[derive(Clone, Copy, Debug, PartialEq, Eq, Structural)]
pub struct Layout {
    pub block_len: usize,
    pub board_name: FieldRange,
    pub brand: FieldRange,
    pub date: FieldRange,
    pub build_number: FieldRange,
    pub expected_name: FieldRange,
}

impl Layout {
    /// Every field lies inside the block.
    pub open spec fn well_formed(self) -> bool {
        &&& self.board_name.fits(self.block_len as nat)
        &&& self.brand.fits(self.block_len as nat)
        &&& self.date.fits(self.block_len as nat)
        &&& self.build_number.fits(self.block_len as nat)
        &&& self.expected_name.fits(self.block_len as nat)
    }
}

/// The offset table of each format.
pub open spec fn spec_layout(v: Variant) -> Layout {
    match v {
        Variant::MarkerScan => Layout {
            block_len: MARKER_BLOCK_LEN,
            board_name: FieldRange { start: 0x05, end: 0x41 },
            brand: FieldRange { start: 0x41, end: 0x55 },
            date: FieldRange { start: 0x56, end: 0x60 },
            build_number: FieldRange { start: 0x61, end: 0x6F },
            expected_name: FieldRange { start: 0x88, end: 0x94 },
        },
        Variant::FixedOffset => Layout {
            block_len: FIXED_BLOCK_LEN,
            board_name: FieldRange { start: 0x00, end: 0x3B },
            brand: FieldRange { start: 0x3C, end: 0x50 },
            date: FieldRange { start: 0x51, end: 0x5B },
            build_number: FieldRange { start: 0x5C, end: 0x69 },
            expected_name: FieldRange { start: 0x83, end: 0x8F },
        },
    }
}

/// Returns the offset table of the format `v`.
pub fn layout_of(v: Variant) -> (r: Layout)
    ensures
        r == spec_layout(v),
        r.well_formed(),
{
    match v {
        Variant::MarkerScan => Layout {
            block_len: MARKER_BLOCK_LEN,
            board_name: FieldRange { start: 0x05, end: 0x41 },
            brand: FieldRange { start: 0x41, end: 0x55 },
            date: FieldRange { start: 0x56, end: 0x60 },
            build_number: FieldRange { start: 0x61, end: 0x6F },
            expected_name: FieldRange { start: 0x88, end: 0x94 },
        },
        Variant::FixedOffset => Layout {
            block_len: FIXED_BLOCK_LEN,
            board_name: FieldRange { start: 0x00, end: 0x3B },
            brand: FieldRange { start: 0x3C, end: 0x50 },
            date: FieldRange { start: 0x51, end: 0x5B },
            build_number: FieldRange { start: 0x5C, end: 0x69 },
            expected_name: FieldRange { start: 0x83, end: 0x8F },
        },
    }
}

} // verus!
