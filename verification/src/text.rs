//! Text building blocks: decimal rendering of integers and lossy UTF-8
//! decoding of received bytes.

use vstd::prelude::*;
use vstd::utf8::is_continuation_byte;
use vstd::utf8::is_scalar;

verus! {

/// The Unicode replacement character, emitted for each ill-formed sequence
/// found while decoding bytes as UTF-8.
pub open spec fn replacement_char() -> char {
    '\u{FFFD}'
}

/// Width in bytes of the well-formed UTF-8 encodings that start with the
/// given lead byte, or 0 if no well-formed encoding starts with it.
pub open spec fn lead_width(b0: u8) -> int {
    if b0 <= 0x7f {
        1
    } else if 0xc2 <= b0 <= 0xdf {
        2
    } else if 0xe0 <= b0 <= 0xef {
        3
    } else if 0xf0 <= b0 <= 0xf4 {
        4
    } else {
        0
    }
}

/// True when `b1` may follow the lead byte `b0` in a well-formed UTF-8
/// encoding. The admissible range of the second byte depends on the lead
/// byte: it excludes overlong encodings, surrogate code points, and code
/// points above 0x10FFFF.
pub open spec fn valid_second(b0: u8, b1: u8) -> bool {
    if 0xc2 <= b0 <= 0xdf {
        0x80 <= b1 <= 0xbf
    } else if b0 == 0xe0 {
        0xa0 <= b1 <= 0xbf
    } else if 0xe1 <= b0 <= 0xec {
        0x80 <= b1 <= 0xbf
    } else if b0 == 0xed {
        0x80 <= b1 <= 0x9f
    } else if 0xee <= b0 <= 0xef {
        0x80 <= b1 <= 0xbf
    } else if b0 == 0xf0 {
        0x90 <= b1 <= 0xbf
    } else if 0xf1 <= b0 <= 0xf3 {
        0x80 <= b1 <= 0xbf
    } else if b0 == 0xf4 {
        0x80 <= b1 <= 0x8f
    } else {
        false
    }
}

/// True when `bytes` starts with a well-formed UTF-8 encoding of one
/// Unicode scalar value.
pub open spec fn first_ok(bytes: Seq<u8>) -> bool
    recommends
        bytes.len() > 0,
{
    let w = lead_width(bytes[0]);
    &&& w >= 1
    &&& bytes.len() >= w
    &&& (w >= 2 ==> valid_second(bytes[0], bytes[1]))
    &&& (w >= 3 ==> is_continuation_byte(bytes[2]))
    &&& (w >= 4 ==> is_continuation_byte(bytes[3]))
}

/// Number of bytes one decoding step consumes at the front of `bytes`:
/// the width of the scalar's encoding when `bytes` starts with a
/// well-formed one, and otherwise the length of the maximal prefix of a
/// well-formed encoding (at least 1), as lossy decoding replaces each such
/// maximal prefix by a single replacement character.
pub open spec fn first_len(bytes: Seq<u8>) -> int
    recommends
        bytes.len() > 0,
{
    let w = lead_width(bytes[0]);
    if w <= 1 {
        1
    } else if bytes.len() < 2 || !valid_second(bytes[0], bytes[1]) {
        1
    } else if w == 2 {
        2
    } else if bytes.len() < 3 || !is_continuation_byte(bytes[2]) {
        2
    } else if w == 3 {
        3
    } else if bytes.len() < 4 || !is_continuation_byte(bytes[3]) {
        3
    } else {
        4
    }
}

/// The scalar value encoded at the front of `bytes`, assuming it starts
/// with a well-formed UTF-8 encoding.
pub open spec fn first_scalar(bytes: Seq<u8>) -> u32
    recommends
        bytes.len() > 0,
        first_ok(bytes),
{
    let w = lead_width(bytes[0]);
    if w == 1 {
        bytes[0] as u32
    } else if w == 2 {
        (((bytes[0] & 0x1f) as u32) << 6) | ((bytes[1] & 0x3f) as u32)
    } else if w == 3 {
        (((bytes[0] & 0x0f) as u32) << 12) | (((bytes[1] & 0x3f) as u32) << 6) | ((bytes[2]
            & 0x3f) as u32)
    } else {
        (((bytes[0] & 0x07) as u32) << 18) | (((bytes[1] & 0x3f) as u32) << 12) | (((bytes[2]
            & 0x3f) as u32) << 6) | ((bytes[3] & 0x3f) as u32)
    }
}

/// The character one decoding step emits at the front of `bytes`: the
/// decoded scalar when `bytes` starts with a well-formed encoding, and the
/// replacement character otherwise.
pub open spec fn first_char(bytes: Seq<u8>) -> char
    recommends
        bytes.len() > 0,
{
    if first_ok(bytes) {
        first_scalar(bytes) as char
    } else {
        replacement_char()
    }
}

/// The lossy UTF-8 decoding of `bytes`: well-formed scalar encodings decode
/// to their scalar, and each maximal prefix of a well-formed encoding that
/// cannot be completed is replaced by one replacement character.
pub open spec fn lossy_decode(bytes: Seq<u8>) -> Seq<char>
    decreases bytes.len(),
{
    if bytes.len() == 0 {
        Seq::empty()
    } else {
        seq![first_char(bytes)] + lossy_decode(bytes.skip(first_len(bytes)))
    }
}

/// A byte sequence that starts with a well-formed scalar encoding in the
/// sense of `vstd::utf8` starts with one in the sense of `first_ok`, of the
/// same length and the same scalar value.
proof fn lemma_valid_first_step(bytes: Seq<u8>)
    requires
        bytes.len() > 0,
        vstd::utf8::valid_first_scalar(bytes),
    ensures
        first_ok(bytes),
        first_len(bytes) == vstd::utf8::length_of_first_scalar(bytes),
        first_scalar(bytes) == vstd::utf8::decode_first_scalar(bytes),
{
    let b0 = bytes[0];
    if vstd::utf8::is_leading_byte_width_1(b0) {
        assert(b0 <= 0x7f ==> ((b0 & 0x7f) as u32) == b0 as u32) by (bit_vector);
    } else if vstd::utf8::is_leading_byte_width_2(b0) {
        let b1 = bytes[1];
        assert(0xc0 <= b0 <= 0xdf && 0x80 <= b1 <= 0xbf && ((((b0 & 0x1f) as u32) << 6) | ((b1
            & 0x3f) as u32)) >= 0x80 ==> 0xc2 <= b0) by (bit_vector);
    } else if vstd::utf8::is_leading_byte_width_3(b0) {
        let b1 = bytes[1];
        let b2 = bytes[2];
        assert(b0 == 0xe0 && 0x80 <= b1 <= 0xbf && 0x80 <= b2 <= 0xbf && ((((b0
            & 0x0f) as u32) << 12) | (((b1 & 0x3f) as u32) << 6) | ((b2 & 0x3f) as u32)) >= 0x800
            ==> 0xa0 <= b1) by (bit_vector);
        assert(b0 == 0xed && 0x80 <= b1 <= 0xbf && 0x80 <= b2 <= 0xbf && !(0xd800 <= ((((b0
            & 0x0f) as u32) << 12) | (((b1 & 0x3f) as u32) << 6) | ((b2 & 0x3f) as u32)) <= 0xdfff)
            ==> b1 <= 0x9f) by (bit_vector);
    } else {
        let b1 = bytes[1];
        let b2 = bytes[2];
        let b3 = bytes[3];
        assert(0xf0 <= b0 <= 0xf7 && 0x80 <= b1 <= 0xbf && 0x80 <= b2 <= 0xbf && 0x80 <= b3 <= 0xbf
            && ((((b0 & 0x07) as u32) << 18) | (((b1 & 0x3f) as u32) << 12) | (((b2
            & 0x3f) as u32) << 6) | ((b3 & 0x3f) as u32)) <= 0x10ffff ==> b0 <= 0xf4) by (bit_vector);
        assert(b0 == 0xf0 && 0x80 <= b1 <= 0xbf && 0x80 <= b2 <= 0xbf && 0x80 <= b3 <= 0xbf
            && ((((b0 & 0x07) as u32) << 18) | (((b1 & 0x3f) as u32) << 12) | (((b2
            & 0x3f) as u32) << 6) | ((b3 & 0x3f) as u32)) >= 0x10000 ==> 0x90 <= b1) by (bit_vector);
        assert(b0 == 0xf4 && 0x80 <= b1 <= 0xbf && 0x80 <= b2 <= 0xbf && 0x80 <= b3 <= 0xbf
            && ((((b0 & 0x07) as u32) << 18) | (((b1 & 0x3f) as u32) << 12) | (((b2
            & 0x3f) as u32) << 6) | ((b3 & 0x3f) as u32)) <= 0x10ffff ==> b1 <= 0x8f) by (bit_vector);
    }
}

/// Lossy decoding never alters well-formed input: on a valid UTF-8 byte
/// sequence it yields exactly the standard UTF-8 decoding, for every such
/// sequence including the empty one.
pub proof fn lemma_lossy_decode_valid_utf8(bytes: Seq<u8>)
    requires
        vstd::utf8::valid_utf8(bytes),
    ensures
        lossy_decode(bytes) == vstd::utf8::decode_utf8(bytes),
    decreases bytes.len(),
{
    if bytes.len() == 0 {
        assert(lossy_decode(bytes) =~= vstd::utf8::decode_utf8(bytes));
    } else {
        lemma_valid_first_step(bytes);
        assert(bytes.skip(first_len(bytes)) =~= vstd::utf8::pop_first_scalar(bytes));
        lemma_lossy_decode_valid_utf8(vstd::utf8::pop_first_scalar(bytes));
        assert(lossy_decode(bytes) =~= vstd::utf8::decode_utf8(bytes));
    }
}

/// Round trip: encoding a character sequence as UTF-8 and decoding the
/// bytes lossily yields the original sequence unmodified, for every
/// character sequence.
pub proof fn lemma_lossy_decode_encode_utf8(chars: Seq<char>)
    ensures
        lossy_decode(vstd::utf8::encode_utf8(chars)) == chars,
{
    vstd::utf8::encode_utf8_valid_utf8(chars);
    lemma_lossy_decode_valid_utf8(vstd::utf8::encode_utf8(chars));
    vstd::utf8::encode_utf8_decode_utf8(chars);
}

/// A well-formed first encoding yields a Unicode scalar value.
pub proof fn lemma_first_scalar_is_scalar(bytes: Seq<u8>)
    requires
        bytes.len() > 0,
        first_ok(bytes),
    ensures
        is_scalar(first_scalar(bytes)),
{
    let b0 = bytes[0];
    if lead_width(b0) == 1 {
        assert(b0 <= 0x7f ==> (b0 as u32) <= 0x7f) by (bit_vector);
    } else if lead_width(b0) == 2 {
        let b1 = bytes[1];
        assert(0xc2 <= b0 <= 0xdf && 0x80 <= b1 <= 0xbf ==> 0x80 <= ((((b0 & 0x1f) as u32) << 6)
            | ((b1 & 0x3f) as u32)) <= 0x7ff) by (bit_vector);
    } else if lead_width(b0) == 3 {
        let b1 = bytes[1];
        let b2 = bytes[2];
        let v = (((b0 & 0x0f) as u32) << 12) | (((b1 & 0x3f) as u32) << 6) | ((b2 & 0x3f) as u32);
        assert(b0 == 0xe0 && 0xa0 <= b1 <= 0xbf && 0x80 <= b2 <= 0xbf ==> 0x800 <= ((((b0
            & 0x0f) as u32) << 12) | (((b1 & 0x3f) as u32) << 6) | ((b2 & 0x3f) as u32))
            <= 0xfff) by (bit_vector);
        assert(0xe1 <= b0 <= 0xec && 0x80 <= b1 <= 0xbf && 0x80 <= b2 <= 0xbf ==> 0x1000 <= ((((b0
            & 0x0f) as u32) << 12) | (((b1 & 0x3f) as u32) << 6) | ((b2 & 0x3f) as u32))
            <= 0xcfff) by (bit_vector);
        assert(b0 == 0xed && 0x80 <= b1 <= 0x9f && 0x80 <= b2 <= 0xbf ==> 0xd000 <= ((((b0
            & 0x0f) as u32) << 12) | (((b1 & 0x3f) as u32) << 6) | ((b2 & 0x3f) as u32))
            <= 0xd7ff) by (bit_vector);
        assert(0xee <= b0 <= 0xef && 0x80 <= b1 <= 0xbf && 0x80 <= b2 <= 0xbf ==> 0xe000 <= ((((b0
            & 0x0f) as u32) << 12) | (((b1 & 0x3f) as u32) << 6) | ((b2 & 0x3f) as u32))
            <= 0xffff) by (bit_vector);
        assert(0x800 <= v <= 0xd7ff || 0xe000 <= v <= 0xffff);
    } else {
        let b1 = bytes[1];
        let b2 = bytes[2];
        let b3 = bytes[3];
        let v = (((b0 & 0x07) as u32) << 18) | (((b1 & 0x3f) as u32) << 12) | (((b2
            & 0x3f) as u32) << 6) | ((b3 & 0x3f) as u32);
        assert(b0 == 0xf0 && 0x90 <= b1 <= 0xbf && 0x80 <= b2 <= 0xbf && 0x80 <= b3 <= 0xbf
            ==> 0x10000 <= ((((b0 & 0x07) as u32) << 18) | (((b1 & 0x3f) as u32) << 12) | (((b2
            & 0x3f) as u32) << 6) | ((b3 & 0x3f) as u32)) <= 0x3ffff) by (bit_vector);
        assert(0xf1 <= b0 <= 0xf3 && 0x80 <= b1 <= 0xbf && 0x80 <= b2 <= 0xbf && 0x80 <= b3 <= 0xbf
            ==> 0x40000 <= ((((b0 & 0x07) as u32) << 18) | (((b1 & 0x3f) as u32) << 12) | (((b2
            & 0x3f) as u32) << 6) | ((b3 & 0x3f) as u32)) <= 0xfffff) by (bit_vector);
        assert(b0 == 0xf4 && 0x80 <= b1 <= 0x8f && 0x80 <= b2 <= 0xbf && 0x80 <= b3 <= 0xbf
            ==> 0x100000 <= ((((b0 & 0x07) as u32) << 18) | (((b1 & 0x3f) as u32) << 12) | (((b2
            & 0x3f) as u32) << 6) | ((b3 & 0x3f) as u32)) <= 0x10ffff) by (bit_vector);
        assert(0x10000 <= v <= 0x10ffff);
    }
}

/// The character for a single decimal digit.
pub open spec fn digit_char(d: nat) -> char
    recommends
        d < 10,
{
    ((0x30 + d) as u8) as char
}

/// The decimal rendering of a natural number, most significant digit first,
/// with no leading zeros (except for the number zero itself).
pub open spec fn dec_digits(n: nat) -> Seq<char>
    decreases n,
{
    if n < 10 {
        seq![digit_char(n)]
    } else {
        dec_digits(n / 10).push(digit_char(n % 10))
    }
}

/// One decoding step at position `i` of `bytes`: returns the character
/// emitted and the number of bytes consumed.
fn decode_step(bytes: &[u8], i: usize) -> (r: (char, usize))
    requires
        i < bytes@.len(),
    ensures
        r.0 == first_char(bytes@.skip(i as int)),
        r.1 == first_len(bytes@.skip(i as int)),
        1 <= r.1 && i + r.1 <= bytes@.len(),
{
    let ghost t = bytes@.skip(i as int);
    let n = bytes.len();
    let b0 = bytes[i];
    assert(t.len() == n - i);
    assert(t[0] == b0);
    let w: usize = if b0 <= 0x7f {
        1
    } else if 0xc2 <= b0 && b0 <= 0xdf {
        2
    } else if 0xe0 <= b0 && b0 <= 0xef {
        3
    } else if 0xf0 <= b0 && b0 <= 0xf4 {
        4
    } else {
        0
    };
    assert(w as int == lead_width(b0));
    if w == 1 {
        let c = scalar_to_char(b0 as u32, Ghost(t));
        return (c, 1);
    }
    if w == 0 || i + 1 >= n {
        return (replacement(), 1);
    }
    let b1 = bytes[i + 1];
    assert(t[1] == b1);
    let second_ok: bool = if b0 == 0xe0 {
        0xa0 <= b1 && b1 <= 0xbf
    } else if b0 == 0xed {
        0x80 <= b1 && b1 <= 0x9f
    } else if b0 == 0xf0 {
        0x90 <= b1 && b1 <= 0xbf
    } else if b0 == 0xf4 {
        0x80 <= b1 && b1 <= 0x8f
    } else {
        0x80 <= b1 && b1 <= 0xbf
    };
    assert(second_ok == valid_second(b0, b1));
    if !second_ok {
        return (replacement(), 1);
    }
    if w == 2 {
        let v: u32 = (((b0 & 0x1f) as u32) << 6u32) | ((b1 & 0x3f) as u32);
        let c = scalar_to_char(v, Ghost(t));
        return (c, 2);
    }
    if i + 2 >= n {
        return (replacement(), 2);
    }
    let b2 = bytes[i + 2];
    assert(t[2] == b2);
    if !(0x80 <= b2 && b2 <= 0xbf) {
        return (replacement(), 2);
    }
    if w == 3 {
        let v: u32 = (((b0 & 0x0f) as u32) << 12u32) | (((b1 & 0x3f) as u32) << 6u32) | ((b2
            & 0x3f) as u32);
        let c = scalar_to_char(v, Ghost(t));
        return (c, 3);
    }
    if i + 3 >= n {
        return (replacement(), 3);
    }
    let b3 = bytes[i + 3];
    assert(t[3] == b3);
    if !(0x80 <= b3 && b3 <= 0xbf) {
        return (replacement(), 3);
    }
    let v: u32 = (((b0 & 0x07) as u32) << 18u32) | (((b1 & 0x3f) as u32) << 12u32) | (((b2
        & 0x3f) as u32) << 6u32) | ((b3 & 0x3f) as u32);
    let c = scalar_to_char(v, Ghost(t));
    (c, 4)
}

/// The replacement character as an executable value.
fn replacement() -> (c: char)
    ensures
        c == replacement_char(),
{
    '\u{FFFD}'
}

/// Converts the scalar value decoded at the front of `t` to a `char`.
fn scalar_to_char(v: u32, t: Ghost<Seq<u8>>) -> (c: char)
    requires
        t@.len() > 0,
        first_ok(t@),
        v == first_scalar(t@),
    ensures
        c == first_char(t@),
{
    proof {
        lemma_first_scalar_is_scalar(t@);
    }
    let c = char::from_u32(v).unwrap();
    proof {
        vstd::utf8::char_u32_cast(c, v);
    }
    c
}

/// The lossy UTF-8 decoding of `bytes` as a fresh string.
pub fn decode_lossy(bytes: &[u8]) -> (s: String)
    ensures
        s@ == lossy_decode(bytes@),
{
    let mut out = String::new();
    let n = bytes.len();
    let mut i: usize = 0;
    proof {
        assert(bytes@.skip(0) =~= bytes@);
        assert(out@ + lossy_decode(bytes@) =~= lossy_decode(bytes@));
    }
    while i < n
        invariant
            i <= n,
            n == bytes@.len(),
            out@ + lossy_decode(bytes@.skip(i as int)) == lossy_decode(bytes@),
        decreases n - i,
    {
        let ghost t = bytes@.skip(i as int);
        let (c, k) = decode_step(bytes, i);
        push_char(&mut out, c);
        proof {
            assert(t.len() > 0);
            assert(lossy_decode(t) == seq![first_char(t)] + lossy_decode(t.skip(first_len(t))));
            assert(t.skip(k as int) =~= bytes@.skip(i + k));
        }
        i = i + k;
        assert(out@ + lossy_decode(bytes@.skip(i as int)) =~= lossy_decode(bytes@));
    }
    assert(bytes@.skip(n as int) =~= Seq::<u8>::empty());
    assert(out@ =~= lossy_decode(bytes@));
    out
}

/// Relies on `char::from_u32` of std: it returns `Some` exactly for Unicode
/// scalar values, and the resulting `char` has the given code point.
pub assume_specification[ char::from_u32 ](i: u32) -> (r: Option<char>)
    ensures
        r is Some <==> is_scalar(i),
        r matches Some(c) ==> c as u32 == i,
;

/// What the standard debug formatting of a string yields: the text quoted
/// and escaped. Named only: the exact escaping follows Unicode character
/// tables.
pub uninterp spec fn debug_quoted(s: Seq<char>) -> Seq<char>;

/// Relies on the `Debug` formatting of `str` in std (through `format!`):
/// the quoted and escaped form of the text, a function of the characters
/// alone.
#[verifier::external_body]
pub(crate) fn debug_quote(s: &str) -> (r: String)
    ensures
        r@ == debug_quoted(s@),
{
    format!("{:?}", s)
}

/// Relies on `String::push` of std: it appends the given character to the
/// end of the string.
#[verifier::external_body]
pub(crate) fn push_char(s: &mut String, c: char)
    ensures
        final(s)@ == old(s)@.push(c),
{
    s.push(c)
}

/// Appends the decimal rendering of `n` to `s`.
pub fn push_dec(s: &mut String, n: u64)
    ensures
        final(s)@ == old(s)@ + dec_digits(n as nat),
    decreases n,
{
    if n < 10 {
        push_char(s, (0x30u8 + n as u8) as char);
        assert(s@ =~= old(s)@ + dec_digits(n as nat));
    } else {
        push_dec(s, n / 10);
        push_char(s, (0x30u8 + (n % 10) as u8) as char);
        assert(s@ =~= old(s)@ + dec_digits(n as nat));
    }
}

/// The decimal rendering of `n` as a fresh string.
pub fn dec_string(n: u64) -> (r: String)
    ensures
        r@ == dec_digits(n as nat),
{
    let mut s = String::new();
    push_dec(&mut s, n);
    assert(s@ =~= dec_digits(n as nat));
    s
}

} // verus!
