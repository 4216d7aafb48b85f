//! Finding where the information block starts.
use vstd::prelude::*;
use crate::layout::{FIXED_BLOCK_START, MARKER_LEN, Variant};

verus! {

/// The marker `$BOOTEFI$` that precedes the block in marker-scanned images.
pub open spec fn marker() -> Seq<u8> {
    seq![0x24u8, 0x42u8, 0x4Fu8, 0x4Fu8, 0x54u8, 0x45u8, 0x46u8, 0x49u8, 0x24u8]
}

/// The marker stands in `b` at position `p`.
pub open spec fn marker_at(b: Seq<u8>, p: int) -> bool {
    0 <= p && p + MARKER_LEN <= b.len() && b.subrange(p, p + MARKER_LEN) == marker()
}

/// What a scan of `b` that has reached position `pos` reports: the position
/// right after the marker, or `None`. A byte other than `$` moves the scan on by
/// one; at a `$` the scan takes a whole marker-long window, and where the
/// window is not the marker it goes on after the window.
pub open spec fn scan_from(b: Seq<u8>, pos: int) -> Option<int>
    decreases b.len() - pos,
{
    if pos < 0 || pos >= b.len() {
        None
    } else if b[pos] != 0x24 {
        scan_from(b, pos + 1)
    } else if pos + MARKER_LEN > b.len() {
        None
    } else if marker_at(b, pos) {
        Some(pos + MARKER_LEN)
    } else {
        scan_from(b, pos + MARKER_LEN)
    }
}

/// Where the block of an image `b` of format `v` starts, or `None` where a
/// scan finds no marker.
pub open spec fn block_start(b: Seq<u8>, v: Variant) -> Option<int> {
    match v {
        Variant::MarkerScan => scan_from(b, 0),
        Variant::FixedOffset => Some(FIXED_BLOCK_START as int),
    }
}

/// Returns the marker's bytes.
fn marker_bytes() -> (r: [u8; 9])
    ensures
        r@ == marker(),
{
    let r: [u8; 9] = [0x24, 0x42, 0x4F, 0x4F, 0x54, 0x45, 0x46, 0x49, 0x24];
    assert(r@ =~= marker());
    r
}

/// Whether the marker stands in `bytes` at `pos`.
fn is_marker_at(bytes: &[u8], pos: usize) -> (r: bool)
    requires
        pos + MARKER_LEN <= bytes@.len(),
    ensures
        r == marker_at(bytes@, pos as int),
{
    let m = marker_bytes();
    let n = bytes.len();
    let mut i: usize = 0;
    while i < MARKER_LEN
        invariant
            i <= MARKER_LEN,
            n == bytes@.len(),
            pos + MARKER_LEN <= bytes@.len(),
            m@ == marker(),
            forall|j: int| 0 <= j < i ==> bytes@[pos + j] == marker()[j],
        decreases MARKER_LEN - i,
    {
        if bytes[pos + i] != m[i] {
            assert(bytes@.subrange(pos as int, pos + MARKER_LEN)[i as int] != marker()[i as int]);
            return false;
        }
        i = i + 1;
    }
    assert(bytes@.subrange(pos as int, pos + MARKER_LEN) =~= marker());
    true
}

/// Scans `bytes` for the marker as described by `scan_from` and returns the
/// position right after it.
pub fn locate_marker(bytes: &[u8]) -> (r: Option<usize>)
    ensures
        r is None <==> scan_from(bytes@, 0) is None,
        r matches Some(p) ==> scan_from(bytes@, 0) == Some(p as int),
{
    let n = bytes.len();
    let mut pos: usize = 0;
    while pos < n
        invariant
            n == bytes@.len(),
            pos <= n,
            scan_from(bytes@, pos as int) == scan_from(bytes@, 0),
        decreases n - pos,
    {
        if bytes[pos] != 0x24 {
            pos = pos + 1;
        } else if n - pos < MARKER_LEN {
            return None;
        } else if is_marker_at(bytes, pos) {
            return Some(pos + MARKER_LEN);
        } else {
            pos = pos + MARKER_LEN;
        }
    }
    None
}

} // verus!

verus! {

/// Walking the way a scan does from `pos` (one byte past anything but `$`, a
/// marker's length past a `$`), the walk meets position `p` exactly.
pub open spec fn walk_lands_on(b: Seq<u8>, pos: int, p: int) -> bool
    decreases p + MARKER_LEN - pos,
{
    if pos < 0 || pos > p || pos >= b.len() {
        false
    } else if pos == p {
        true
    } else if b[pos] != 0x24 {
        walk_lands_on(b, pos + 1, p)
    } else {
        walk_lands_on(b, pos + MARKER_LEN, p)
    }
}

/// A position that a scan reports comes right after a marker.
pub proof fn lemma_scan_finds_marker(b: Seq<u8>, pos: int)
    ensures
        scan_from(b, pos) matches Some(q) ==> marker_at(b, q - MARKER_LEN),
    decreases b.len() - pos,
{
    if 0 <= pos < b.len() {
        if b[pos] != 0x24 {
            lemma_scan_finds_marker(b, pos + 1);
        } else if pos + MARKER_LEN <= b.len() && !marker_at(b, pos) {
            lemma_scan_finds_marker(b, pos + MARKER_LEN);
        }
    }
}

/// A scan whose walk lands on the only marker of `b` reports the position
/// right after it.
pub proof fn lemma_scan_reaches_marker(b: Seq<u8>, pos: int, p: int)
    requires
        marker_at(b, p),
        forall|q: int| marker_at(b, q) ==> q == p,
        walk_lands_on(b, pos, p),
    ensures
        scan_from(b, pos) == Some(p + MARKER_LEN),
    decreases p + MARKER_LEN - pos,
{
    assert(b[p] == b.subrange(p, p + MARKER_LEN)[0]);
    if pos < p {
        if b[pos] != 0x24 {
            lemma_scan_reaches_marker(b, pos + 1, p);
        } else {
            lemma_scan_reaches_marker(b, pos + MARKER_LEN, p);
        }
    }
}

} // verus!
