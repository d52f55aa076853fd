use vstd::prelude::*;
use vstd::bytes::spec_u32_from_le_bytes;
use vstd::bytes::spec_u32_to_le_bytes;
use vstd::bytes::lemma_auto_spec_u32_to_from_le_bytes;
use vstd::bytes::u32_from_le_bytes;
use vstd::bytes::u32_to_le_bytes;
use vstd::slice::slice_subrange;
use vstd::utf8::decode_utf8;
use vstd::utf8::encode_utf8;
use vstd::utf8::encode_utf8_decode_utf8;
use vstd::utf8::encode_utf8_valid_utf8;
use vstd::utf8::valid_utf8;

verus! {

/// How many bytes of text a padded field can carry.
pub const TEXT_CAPACITY: usize = 30;

/// The wire width of a padded text field: a 4-byte little-endian length
/// prefix followed by the fixed 30-byte capacity.
pub const PADDED_TEXT_LEN: usize = 34;

/// What the lossy text decoding of arbitrary bytes returns: replacement
/// characters stand in for invalid sequences. A fixed function of the bytes
/// alone; on valid UTF-8 it agrees with `decode_utf8`.
pub uninterp spec fn utf8_lossy(b: Seq<u8>) -> Seq<char>;

/// Relies on String::from_utf8_lossy: it decodes valid UTF-8 exactly and
/// substitutes replacement characters for invalid sequences, as a function of
/// the bytes alone.
#[verifier::external_body]
fn from_utf8_lossy(b: &[u8]) -> (r: String)
    ensures
        r@ == utf8_lossy(b@),
        valid_utf8(b@) ==> r@ == decode_utf8(b@),
{
    String::from_utf8_lossy(b).to_string()
}

/// The text that a byte slice decodes to under the lenient policy: exact
/// UTF-8 decoding where the bytes are valid, replacement characters where
/// they are not.
pub open spec fn decoded_text(b: Seq<u8>) -> Seq<char> {
    if valid_utf8(b) {
        decode_utf8(b)
    } else {
        utf8_lossy(b)
    }
}

/// The text that a padded field holds. A slice shorter than the 4-byte
/// length prefix yields the empty text; a declared length that overruns the
/// slice falls back to everything after the prefix; otherwise exactly the
/// declared number of bytes after the prefix is decoded.
pub open spec fn padded_text(b: Seq<u8>) -> Seq<char> {
    if b.len() < 4 {
        Seq::empty()
    } else {
        let len = spec_u32_from_le_bytes(b.subrange(0, 4)) as int;
        if 4 + len > b.len() {
            decoded_text(b.subrange(4, b.len() as int))
        } else {
            decoded_text(b.subrange(4, 4 + len))
        }
    }
}

/// Decodes a padded text field: reads the 4-byte little-endian length
/// prefix and decodes that many bytes after it, tolerating a short slice and
/// an overlong declared length as `padded_text` says.
pub fn decode_padded_text(bytes: &[u8]) -> (r: String)
    ensures
        r@ == padded_text(bytes@),
{
    if bytes.len() < 4 {
        String::new()
    } else {
        let len = u32_from_le_bytes(slice_subrange(bytes, 0, 4)) as usize;
        let data_end = if len <= bytes.len() - 4 {
            4 + len
        } else {
            bytes.len()
        };
        from_utf8_lossy(slice_subrange(bytes, 4, data_end))
    }
}

/// The wire form of a text: its byte length as a 4-byte little-endian
/// prefix, its UTF-8 bytes, and zero padding up to the fixed capacity.
pub open spec fn padded_encoding(s: Seq<char>) -> Seq<u8> {
    spec_u32_to_le_bytes(encode_utf8(s).len() as u32) + encode_utf8(s) + Seq::new(
        (30 - encode_utf8(s).len()) as nat,
        |i: int| 0u8,
    )
}

/// Law: round trip of padded text. Any text of at most 30 encoded bytes,
/// written as a length prefix plus zero-padded bytes, decodes back to
/// exactly itself.
pub proof fn lemma_padded_text_round_trip(s: Seq<char>)
    requires
        encode_utf8(s).len() <= 30,
    ensures
        padded_encoding(s).len() == 34,
        padded_text(padded_encoding(s)) == s,
{
    broadcast use encode_utf8_valid_utf8;
    broadcast use encode_utf8_decode_utf8;

    lemma_auto_spec_u32_to_from_le_bytes();
    let b = padded_encoding(s);
    let n = encode_utf8(s).len() as int;
    assert(b.subrange(0, 4) =~= spec_u32_to_le_bytes(n as u32));
    assert(spec_u32_from_le_bytes(b.subrange(0, 4)) == n);
    assert(b.subrange(4, 4 + n) =~= encode_utf8(s));
}

/// Law: corruption tolerance of a short slice. A padded field shorter than
/// its 4-byte length prefix decodes to the empty text rather than failing.
pub proof fn lemma_short_slice_decodes_empty(b: Seq<u8>)
    requires
        b.len() < 4,
    ensures
        padded_text(b) == Seq::<char>::empty(),
{
}

/// Law: corruption tolerance of an overlong length. When the declared
/// length overruns the slice, decoding falls back to everything after the
/// prefix rather than failing.
pub proof fn lemma_overlong_length_falls_back(b: Seq<u8>)
    requires
        b.len() >= 4,
        4 + spec_u32_from_le_bytes(b.subrange(0, 4)) > b.len(),
    ensures
        padded_text(b) == decoded_text(b.subrange(4, b.len() as int)),
{
}

/// Encodes a text into the 34-byte padded wire form, or returns `None` when
/// its UTF-8 form is longer than the 30-byte capacity. A produced encoding
/// always decodes back to the same text.
pub fn encode_padded_text(s: &str) -> (r: Option<Vec<u8>>)
    ensures
        r is Some <==> encode_utf8(s@).len() <= 30,
        r matches Some(v) ==> v@ == padded_encoding(s@) && v@.len() == 34 && padded_text(v@)
            == s@,
{
    let bytes = s.as_bytes();
    if bytes.len() > TEXT_CAPACITY {
        return None;
    }
    let mut out = u32_to_le_bytes(bytes.len() as u32);
    let mut i: usize = 0;
    while i < bytes.len()
        invariant
            i <= bytes.len() <= 30,
            out@ == spec_u32_to_le_bytes(bytes@.len() as u32) + bytes@.subrange(0, i as int),
        decreases bytes.len() - i,
    {
        out.push(bytes[i]);
        i = i + 1;
    }
    let mut pad: usize = PADDED_TEXT_LEN - bytes.len() - 4;
    while pad > 0
        invariant
            pad <= 30 - bytes@.len(),
            out@ == spec_u32_to_le_bytes(bytes@.len() as u32) + bytes@ + Seq::new(
                (30 - bytes@.len() - pad) as nat,
                |j: int| 0u8,
            ),
        decreases pad,
    {
        out.push(0u8);
        pad = pad - 1;
    }
    proof {
        lemma_padded_text_round_trip(s@);
        assert(out@ =~= padded_encoding(s@));
    }
    Some(out)
}

} // verus!
