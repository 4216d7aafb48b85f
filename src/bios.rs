//! The information block of a firmware image, decoded.
use vstd::prelude::*;
use vstd::slice::{slice_subrange, slice_to_vec};
use crate::date::{BuildDate, date_or_default_spec, parse_build_date, parsed_mdy};
use crate::layout::{
    EXPECTED_FILE_SIZE,
    FIXED_BLOCK_START,
    FieldRange,
    Layout,
    Variant,
    layout_of,
    spec_layout,
};
use crate::locate::{block_start, locate_marker};
use crate::text::{bytes_to_string, field_text};

verus! {

/// Why no information could be read from an image.
#[derive(Clone, Copy, Debug, PartialEq, Eq, Structural)]
pub enum DecodeError {
    /// A scan reached the end of the image without meeting the marker.
    BlockNotFound,
    /// The image ends before the whole block.
    TruncatedInput,
}

/// What a `BiosInfo` holds.
pub ghost struct InfoModel {
    pub board_name: Seq<char>,
    pub brand: Seq<char>,
    pub build_date: BuildDate,
    pub build_number: Seq<char>,
    pub expected_name: Seq<char>,
}

/// Information describing a firmware image, as read from its information block.
#[derive(Debug)]
pub struct BiosInfo {
    /// Name of the target motherboard.
    board_name: String,
    /// Brand of the motherboard.
    brand: String,
    /// Build date the image reports.
    build_date: BuildDate,
    /// Build number the image reports.
    build_number: String,
    /// File name the motherboard expects the image to have, such as
    /// `TGX570PW.CAP` or `C8DH.CAP`.
    expected_name: String,
}

impl BiosInfo {
    /// The build date is a day of the calendar.
    #[verifier::type_invariant]
    spec fn inv(&self) -> bool {
        self.build_date.valid()
    }
}

impl View for BiosInfo {
    type V = InfoModel;

    closed spec fn view(&self) -> InfoModel {
        InfoModel {
            board_name: self.board_name@,
            brand: self.brand@,
            build_date: self.build_date,
            build_number: self.build_number@,
            expected_name: self.expected_name@,
        }
    }
}

/// The text of the field `r` of `block`.
pub open spec fn field_of(block: Seq<u8>, r: FieldRange) -> Seq<char> {
    field_text(r.slice(block))
}

/// What the block `block`, laid out as `l` says, each field decoded.
pub open spec fn decoded(block: Seq<u8>, l: Layout) -> InfoModel {
    InfoModel {
        board_name: field_of(block, l.board_name),
        brand: field_of(block, l.brand),
        build_date: date_or_default_spec(parsed_mdy(field_of(block, l.date))),
        build_number: field_of(block, l.build_number),
        expected_name: field_of(block, l.expected_name),
    }
}

/// What decoding the image `b` of format `v` gives.
pub open spec fn decode_image(b: Seq<u8>, v: Variant) -> Result<InfoModel, DecodeError> {
    let len = spec_layout(v).block_len as int;
    match block_start(b, v) {
        None => Err(DecodeError::BlockNotFound),
        Some(s) => if s + len > b.len() {
            Err(DecodeError::TruncatedInput)
        } else {
            Ok(decoded(b.subrange(s, s + len), spec_layout(v)))
        },
    }
}

/// Finds where the block of the image `contents` of format `v` starts.
pub fn locate_block(contents: &[u8], v: Variant) -> (r: Option<usize>)
    ensures
        r is None <==> block_start(contents@, v) is None,
        r matches Some(p) ==> block_start(contents@, v) == Some(p as int),
{
    match v {
        Variant::MarkerScan => locate_marker(contents),
        Variant::FixedOffset => Some(FIXED_BLOCK_START),
    }
}

impl BiosInfo {
    /// Decodes a block laid out as `layout`, which holds exactly its bytes.
    pub fn decode_block(block: &Vec<u8>, layout: &Layout) -> (r: BiosInfo)
        requires
            layout.well_formed(),
            block@.len() == layout.block_len,
        ensures
            r@ == decoded(block@, *layout),
            r@.build_date.valid(),
    {
        let board_name = bytes_to_string(
            block,
            layout.board_name.start,
            layout.board_name.end - layout.board_name.start,
        );
        let brand = bytes_to_string(block, layout.brand.start, layout.brand.end - layout.brand.start);
        let date_text = bytes_to_string(block, layout.date.start, layout.date.end - layout.date.start);
        let build_date = parse_build_date(date_text.as_str());
        let build_number = bytes_to_string(
            block,
            layout.build_number.start,
            layout.build_number.end - layout.build_number.start,
        );
        let expected_name = bytes_to_string(
            block,
            layout.expected_name.start,
            layout.expected_name.end - layout.expected_name.start,
        );
        BiosInfo { board_name, brand, build_date, build_number, expected_name }
    }

    /// Reads the information of the image whose whole contents are `contents`,
    /// in the format `variant`.
    pub fn from_file(contents: &[u8], variant: Variant) -> (r: Result<BiosInfo, DecodeError>)
        ensures
            r matches Ok(info) ==> decode_image(contents@, variant) == Ok::<InfoModel, DecodeError>(info@),
            r matches Err(e) ==> decode_image(contents@, variant) == Err::<InfoModel, DecodeError>(e),
            r matches Ok(info) ==> info@.build_date.valid(),
    {
        let layout = layout_of(variant);
        let n = contents.len();
        let start = match locate_block(contents, variant) {
            Some(p) => p,
            None => return Err(DecodeError::BlockNotFound),
        };
        if start > n || n - start < layout.block_len {
            return Err(DecodeError::TruncatedInput);
        }
        let block = slice_to_vec(slice_subrange(contents, start, start + layout.block_len));
        Ok(BiosInfo::decode_block(&block, &layout))
    }

    /// The file name the motherboard expects the image to have.
    pub fn get_expected_name(&self) -> (r: &String)
        ensures
            r@ == self@.expected_name,
    {
        &self.expected_name
    }

    /// Name of the target motherboard.
    pub fn board_name(&self) -> (r: &String)
        ensures
            r@ == self@.board_name,
    {
        &self.board_name
    }

    /// Brand of the motherboard.
    pub fn brand(&self) -> (r: &String)
        ensures
            r@ == self@.brand,
    {
        &self.brand
    }

    /// Build date the image reports, or the default date where it could not be read.
    pub fn build_date(&self) -> (r: BuildDate)
        ensures
            r == self@.build_date,
            r.valid(),
    {
        proof {
            use_type_invariant(self);
        }
        self.build_date
    }

    /// Build number the image reports.
    pub fn build_number(&self) -> (r: &String)
        ensures
            r@ == self@.build_number,
    {
        &self.build_number
    }
}

/// Whether a file, given whether it is a regular file and its length, can be
/// an image of this family; the length is the only sign the format offers.
pub fn is_file_valid(is_file: bool, len: u64) -> (r: bool)
    ensures
        r == (is_file && len == EXPECTED_FILE_SIZE),
{
    is_file && len == EXPECTED_FILE_SIZE
}

} // verus!
