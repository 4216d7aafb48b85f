//! Text taken out of fixed-width, NUL-padded byte fields.
use vstd::prelude::*;
use vstd::slice::slice_subrange;
use vstd::utf8::{
    decode_utf8,
    decode_utf8_encode_utf8,
    encode_utf8,
    encode_utf8_decode_utf8,
    encode_utf8_valid_utf8,
    is_ascii_chars,
    is_ascii_chars_encode_utf8,
    valid_utf8,
};

verus! {

/// The text that lossy UTF-8 decoding makes of `bytes`, each invalid
/// sequence replaced by U+FFFD.
pub uninterp spec fn lossy_utf8(bytes: Seq<u8>) -> Seq<char>;

/// What lenient decoding makes of `bytes`: the characters they encode where
/// they are valid UTF-8, the lossy text otherwise.
pub open spec fn lenient_utf8(bytes: Seq<u8>) -> Seq<char> {
    if valid_utf8(bytes) {
        decode_utf8(bytes)
    } else {
        lossy_utf8(bytes)
    }
}

/// Position of the first NUL character in `s`, or its length where it holds none.
pub open spec fn first_null(s: Seq<char>) -> nat
    decreases s.len(),
{
    if s.len() == 0 || s[0] == '\0' {
        0
    } else {
        1 + first_null(s.drop_first())
    }
}

/// The characters of `s` before its first NUL; all of `s` where it holds none.
pub open spec fn trim_null(s: Seq<char>) -> Seq<char> {
    s.take(first_null(s) as int)
}

/// `s` holds no NUL character.
pub open spec fn null_free(s: Seq<char>) -> bool {
    forall|i: int| 0 <= i < s.len() ==> s[i] != '\0'
}

/// Every byte of `b` is below 0x80.
pub open spec fn ascii_bytes(b: Seq<u8>) -> bool {
    forall|i: int| 0 <= i < b.len() ==> b[i] < 0x80
}

/// The characters whose codes are the bytes of `b`.
pub open spec fn ascii_text(b: Seq<u8>) -> Seq<char> {
    Seq::new(b.len(), |i: int| b[i] as char)
}

/// The text of a field: its bytes decoded leniently, cut at the first NUL.
pub open spec fn field_text(bytes: Seq<u8>) -> Seq<char> {
    trim_null(lenient_utf8(bytes))
}

/// `k` is the first NUL position of `s` exactly when nothing before `k` is
/// NUL and `k` is the end or a NUL.
pub proof fn lemma_first_null(s: Seq<char>, k: int)
    requires
        0 <= k <= s.len(),
        forall|j: int| 0 <= j < k ==> s[j] != '\0',
        k == s.len() || s[k] == '\0',
    ensures
        first_null(s) == k,
    decreases s.len(),
{
    if s.len() != 0 && s[0] != '\0' {
        let t = s.drop_first();
        assert forall|j: int| 0 <= j < k - 1 implies t[j] != '\0' by {
            assert(t[j] == s[j + 1]);
        }
        if k - 1 < t.len() {
            assert(t[k - 1] == s[k]);
        }
        lemma_first_null(t, k - 1);
    }
}

/// Trimming keeps a prefix of the text.
pub proof fn lemma_trim_null_prefix(s: Seq<char>)
    ensures
        first_null(s) <= s.len(),
        trim_null(s) == s.subrange(0, first_null(s) as int),
    decreases s.len(),
{
    if s.len() != 0 && s[0] != '\0' {
        lemma_trim_null_prefix(s.drop_first());
    }
}

/// A NUL-free text is its own trimmed form.
pub proof fn lemma_trim_null_free(s: Seq<char>)
    requires
        null_free(s),
    ensures
        trim_null(s) == s,
{
    lemma_first_null(s, s.len() as int);
    assert(s.take(s.len() as int) =~= s);
}

/// A text followed by a NUL and anything else trims to the text.
pub proof fn lemma_trim_at_null(s: Seq<char>, rest: Seq<char>)
    requires
        null_free(s),
    ensures
        trim_null(s + seq!['\0'] + rest) == s,
{
    let t = s + seq!['\0'] + rest;
    assert forall|j: int| 0 <= j < s.len() implies t[j] != '\0' by {
        assert(t[j] == s[j]);
    }
    assert(t[s.len() as int] == '\0');
    lemma_first_null(t, s.len() as int);
    assert(t.take(s.len() as int) =~= s);
}

/// Bytes below 0x80 are valid UTF-8 and decode to the characters of those codes.
pub proof fn lemma_ascii_decodes(b: Seq<u8>)
    requires
        ascii_bytes(b),
    ensures
        valid_utf8(b),
        decode_utf8(b) == ascii_text(b),
{
    let c = ascii_text(b);
    assert(is_ascii_chars(c));
    is_ascii_chars_encode_utf8(c);
    assert(encode_utf8(c) =~= b);
    encode_utf8_valid_utf8(c);
    encode_utf8_decode_utf8(c);
}

/// Encoding a concatenation encodes each part in turn.
pub proof fn lemma_encode_concat(a: Seq<char>, b: Seq<char>)
    ensures
        encode_utf8(a + b) == encode_utf8(a) + encode_utf8(b),
    decreases a.len(),
{
    if a.len() == 0 {
        assert(a + b =~= b);
        assert(encode_utf8(a) + encode_utf8(b) =~= encode_utf8(b));
    } else {
        assert((a + b).drop_first() =~= a.drop_first() + b);
        lemma_encode_concat(a.drop_first(), b);
        assert(encode_utf8(a + b) =~= encode_utf8(a) + encode_utf8(b));
    }
}

/// Valid UTF-8, a NUL byte and more valid UTF-8 decode to the two texts with
/// a NUL between them.
pub proof fn lemma_decode_around_null(text: Seq<u8>, rest: Seq<u8>)
    requires
        valid_utf8(text),
        valid_utf8(rest),
    ensures
        valid_utf8(text + seq![0u8] + rest),
        decode_utf8(text + seq![0u8] + rest) == decode_utf8(text) + seq!['\0'] + decode_utf8(rest),
{
    let c1 = decode_utf8(text);
    let c2 = decode_utf8(rest);
    let nul = seq!['\0'];
    decode_utf8_encode_utf8(text);
    decode_utf8_encode_utf8(rest);
    assert(is_ascii_chars(nul));
    is_ascii_chars_encode_utf8(nul);
    assert(encode_utf8(nul) =~= seq![0u8]);
    lemma_encode_concat(c1, nul);
    lemma_encode_concat(c1 + nul, c2);
    let all = c1 + nul + c2;
    encode_utf8_valid_utf8(all);
    encode_utf8_decode_utf8(all);
}

/// Relies on `String::from_utf8_lossy`: bytes that are valid UTF-8 come back
/// as the characters they encode, and the text of other bytes depends on the
/// bytes alone.
#[verifier::external_body]
fn decode_lossy(bytes: &[u8]) -> (r: String)
    ensures
        valid_utf8(bytes@) ==> r@ == decode_utf8(bytes@),
        !valid_utf8(bytes@) ==> r@ == lossy_utf8(bytes@),
{
    String::from_utf8_lossy(bytes).into_owned()
}

/// Returns the characters of `s` before its first NUL, dropping the NUL and
/// everything after it.
pub fn trim_after_null(s: &str) -> (r: String)
    ensures
        r@ == trim_null(s@),
{
    let n = s.unicode_len();
    let mut i: usize = 0;
    while i < n && s.get_char(i) != '\0'
        invariant
            n == s@.len(),
            i <= n,
            forall|j: int| 0 <= j < i ==> s@[j] != '\0',
        decreases n - i,
    {
        i = i + 1;
    }
    proof {
        lemma_first_null(s@, i as int);
    }
    s.substring_char(0, i).to_owned()
}

/// Decodes the `read_len` bytes at `read_pos` leniently as UTF-8 and cuts the
/// text at its first NUL.
pub fn bytes_to_string(bytes: &Vec<u8>, read_pos: usize, read_len: usize) -> (r: String)
    requires
        read_pos + read_len <= bytes@.len(),
    ensures
        r@ == field_text(bytes@.subrange(read_pos as int, read_pos + read_len)),
{
    let all = bytes.as_slice();
    let total = all.len();
    assert(read_pos + read_len <= total);
    let chunk = slice_subrange(all, read_pos, read_pos + read_len);
    let text = decode_lossy(chunk);
    trim_after_null(text.as_str())
}

} // verus!
