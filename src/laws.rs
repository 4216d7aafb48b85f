//! Properties that hold of every image and every field.
use vstd::prelude::*;
use crate::bios::{DecodeError, InfoModel, decode_image, decoded};
use crate::date::{default_date, has_ascii_digit};
use crate::layout::{
    FIXED_BLOCK_LEN,
    FIXED_BLOCK_START,
    Layout,
    MARKER_BLOCK_LEN,
    MARKER_LEN,
    Variant,
    spec_layout,
};
use crate::locate::{
    lemma_scan_finds_marker,
    lemma_scan_reaches_marker,
    marker_at,
    scan_from,
    walk_lands_on,
};
use crate::text::{
    ascii_bytes,
    ascii_text,
    field_text,
    lemma_ascii_decodes,
    lemma_decode_around_null,
    lemma_trim_at_null,
    lemma_trim_null_free,
    lemma_trim_null_prefix,
    null_free,
    trim_null,
};
use vstd::utf8::{decode_utf8, valid_utf8};

verus! {

/// In an image that holds the marker once, at a position that the scan's walk
/// lands on, the scan reports the position right after the marker; where a
/// whole block follows, decoding succeeds and each field is the text of its
/// range of that block.
pub proof fn law_marker_located(b: Seq<u8>, p: int)
    requires
        marker_at(b, p),
        forall|q: int| marker_at(b, q) ==> q == p,
        walk_lands_on(b, 0, p),
    ensures
        scan_from(b, 0) == Some(p + MARKER_LEN),
        p + MARKER_LEN + MARKER_BLOCK_LEN <= b.len() ==> decode_image(b, Variant::MarkerScan)
            == Ok::<InfoModel, DecodeError>(
            decoded(
                b.subrange(p + MARKER_LEN, p + MARKER_LEN + MARKER_BLOCK_LEN),
                spec_layout(Variant::MarkerScan),
            ),
        ),
{
    lemma_scan_reaches_marker(b, 0, p);
}

/// An image without the marker has no block to be found, whatever its length.
pub proof fn law_marker_absent(b: Seq<u8>)
    requires
        forall|q: int| !marker_at(b, q),
    ensures
        scan_from(b, 0) is None,
        decode_image(b, Variant::MarkerScan) == Err::<InfoModel, DecodeError>(
            DecodeError::BlockNotFound,
        ),
{
    lemma_scan_finds_marker(b, 0);
}

/// An image shorter than a marker and a block never decodes; where the scan
/// finds a marker in it, the error is that it is truncated.
pub proof fn law_short_image(b: Seq<u8>)
    requires
        b.len() < MARKER_LEN + MARKER_BLOCK_LEN,
    ensures
        decode_image(b, Variant::MarkerScan) is Err,
        scan_from(b, 0) is Some ==> decode_image(b, Variant::MarkerScan)
            == Err::<InfoModel, DecodeError>(DecodeError::TruncatedInput),
{
    lemma_scan_finds_marker(b, 0);
}

/// A fixed-offset image decodes exactly when it reaches the end of the block,
/// and is truncated otherwise.
pub proof fn law_fixed_offset(b: Seq<u8>)
    ensures
        b.len() < FIXED_BLOCK_START + FIXED_BLOCK_LEN ==> decode_image(b, Variant::FixedOffset)
            == Err::<InfoModel, DecodeError>(DecodeError::TruncatedInput),
        b.len() >= FIXED_BLOCK_START + FIXED_BLOCK_LEN ==> decode_image(b, Variant::FixedOffset)
            == Ok::<InfoModel, DecodeError>(
            decoded(
                b.subrange(FIXED_BLOCK_START as int, FIXED_BLOCK_START + FIXED_BLOCK_LEN),
                spec_layout(Variant::FixedOffset),
            ),
        ),
{
}

/// Decoding is a function of the image: two decodings of one image agree in
/// every field.
pub proof fn law_decode_repeatable(
    b: Seq<u8>,
    v: Variant,
    first: Result<InfoModel, DecodeError>,
    second: Result<InfoModel, DecodeError>,
)
    requires
        first == decode_image(b, v),
        second == decode_image(b, v),
    ensures
        first == second,
{
}

/// A field of ASCII bytes reads as those bytes, up to its first NUL.
pub proof fn law_ascii_field(bytes: Seq<u8>)
    requires
        ascii_bytes(bytes),
    ensures
        field_text(bytes) == trim_null(ascii_text(bytes)),
        null_free(ascii_text(bytes)) ==> field_text(bytes) == ascii_text(bytes),
{
    lemma_ascii_decodes(bytes);
    if null_free(ascii_text(bytes)) {
        lemma_trim_null_free(ascii_text(bytes));
    }
}

/// A NUL ends a field: what follows it is dropped, however much of it there
/// is, and the text before it is what its bytes encode.
pub proof fn law_null_ends_field(text: Seq<u8>, rest: Seq<u8>)
    requires
        valid_utf8(text),
        null_free(decode_utf8(text)),
        valid_utf8(rest),
    ensures
        field_text(text + seq![0u8] + rest) == decode_utf8(text),
{
    lemma_decode_around_null(text, rest);
    lemma_trim_at_null(decode_utf8(text), decode_utf8(rest));
}

/// A date field whose bytes are valid UTF-8 without a decimal digit, such as
/// one of NULs only or of letters, gives the default date.
pub proof fn law_date_fallback(block: Seq<u8>, l: Layout)
    requires
        l.well_formed(),
        valid_utf8(l.date.slice(block)),
        !has_ascii_digit(decode_utf8(l.date.slice(block))),
    ensures
        decoded(block, l).build_date == default_date(),
{
    let whole = decode_utf8(l.date.slice(block));
    let cut = trim_null(whole);
    lemma_trim_null_prefix(whole);
    assert forall|i: int| 0 <= i < cut.len() implies !('0' <= #[trigger] cut[i] <= '9') by {
        assert(cut[i] == whole[i]);
    }
}

} // verus!
