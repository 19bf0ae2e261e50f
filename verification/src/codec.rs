//! Hex codec for every wire field: keys, digests and envelopes travel as
//! hex text, optionally carrying a `0x` prefix. Decoding accepts both the
//! prefixed and the bare form; encoding always emits the prefixed form in
//! lower case.

use vstd::prelude::*;

use crate::AppError;

verus! {

/// Whether `c` is a hex digit as the wire accepts it: `0-9`, `a-f` or `A-F`.
pub open spec fn is_hex_digit(c: char) -> bool {
    ||| ('0' as u32) <= (c as u32) && (c as u32) <= ('9' as u32)
    ||| ('a' as u32) <= (c as u32) && (c as u32) <= ('f' as u32)
    ||| ('A' as u32) <= (c as u32) && (c as u32) <= ('F' as u32)
}

/// The numeric value of a hex digit, upper and lower case alike.
pub open spec fn hex_digit_value(c: char) -> u8
    recommends
        is_hex_digit(c),
{
    if ('0' as u32) <= (c as u32) && (c as u32) <= ('9' as u32) {
        ((c as u32) - ('0' as u32)) as u8
    } else if ('a' as u32) <= (c as u32) && (c as u32) <= ('f' as u32) {
        ((c as u32) - ('a' as u32) + 10) as u8
    } else {
        ((c as u32) - ('A' as u32) + 10) as u8
    }
}

/// The lower-case hex digit for a value below 16.
pub open spec fn hex_char(n: u8) -> char
    recommends
        n < 16,
{
    if n < 10 {
        (((n + 48) as u8) as char)  // '0' is 48
    } else {
        (((n + 87) as u8) as char)  // 'a' is 97, so 10 maps to 'a'
    }
}

/// Text that decodes as hex: even length, every character a hex digit.
pub open spec fn is_valid_hex(s: Seq<char>) -> bool {
    s.len() % 2 == 0 && forall|i: int| 0 <= i < s.len() ==> is_hex_digit(#[trigger] s[i])
}

/// The lower-case hex rendering of a byte sequence, two digits per byte,
/// high nibble first.
pub open spec fn spec_hex_encode(b: Seq<u8>) -> Seq<char>
    decreases b.len(),
{
    if b.len() == 0 {
        Seq::empty()
    } else {
        seq![hex_char((b[0] / 16) as u8), hex_char((b[0] % 16) as u8)] + spec_hex_encode(
            b.drop_first(),
        )
    }
}

/// The bytes that a hex text denotes, one byte per digit pair.
pub open spec fn spec_hex_decode(s: Seq<char>) -> Seq<u8>
    recommends
        is_valid_hex(s),
    decreases s.len(),
{
    if s.len() < 2 {
        Seq::empty()
    } else {
        seq![(hex_digit_value(s[0]) * 16 + hex_digit_value(s[1])) as u8] + spec_hex_decode(
            s.skip(2),
        )
    }
}

/// The text that is actually decoded: everything after a leading `0x`, when
/// the text is longer than the prefix alone; otherwise the whole text.
pub open spec fn strip_hex_prefix(s: Seq<char>) -> Seq<char> {
    if s.len() > 2 && s[0] == '0' && s[1] == 'x' {
        s.skip(2)
    } else {
        s
    }
}

#[verifier::external_type_specification]
#[verifier::external_body]
pub struct ExFromHexError(hex::FromHexError);

/// Relies on `hex::decode`: it succeeds exactly on even-length text made of
/// hex digits (either case), and then returns one byte per digit pair, high
/// nibble first.
#[verifier::external_body]
fn hex_decode_raw(s: &str) -> (r: Result<Vec<u8>, hex::FromHexError>)
    ensures
        r is Ok <==> is_valid_hex(s@),
        r matches Ok(v) ==> v@ == spec_hex_decode(s@),
{
    hex::decode(s)
}

/// Relies on `hex::encode`: two lower-case hex digits per byte, high nibble
/// first.
#[verifier::external_body]
fn hex_encode_raw(b: &[u8]) -> (r: String)
    ensures
        r@ == spec_hex_encode(b@),
{
    hex::encode(b)
}

/// Decode hex text into bytes. Text longer than two characters that starts
/// with `0x` is decoded from the third character on; anything else is decoded
/// whole. Fails exactly when the remaining text is not valid hex.
pub fn decode_hex(msg: &str) -> (r: Result<Vec<u8>, AppError>)
    ensures
        r is Ok <==> is_valid_hex(strip_hex_prefix(msg@)),
        r matches Ok(v) ==> v@ == spec_hex_decode(strip_hex_prefix(msg@)),
        r matches Err(e) ==> e == AppError::FromHexError,
{
    let n = msg.unicode_len();
    let stripped: &str = if n > 2 && msg.get_char(0) == '0' && msg.get_char(1) == 'x' {
        msg.substring_char(2, n)
    } else {
        msg
    };
    match hex_decode_raw(stripped) {
        Ok(v) => Ok(v),
        Err(_) => Err(AppError::FromHexError),
    }
}

/// A hex digit made from a value below 16 is a digit and reads back as that
/// value.
proof fn lemma_hex_digit_inverse(n: u8)
    requires
        n < 16,
    ensures
        is_hex_digit(hex_char(n)),
        hex_digit_value(hex_char(n)) == n,
{
}

/// Encoding is lossless: the rendering of any byte sequence is twice as
/// long, is made of hex digits throughout, and decodes back to the original
/// bytes.
pub proof fn lemma_hex_encode_decode(b: Seq<u8>)
    ensures
        spec_hex_encode(b).len() == 2 * b.len(),
        forall|i: int| 0 <= i < spec_hex_encode(b).len() ==> is_hex_digit(
            #[trigger] spec_hex_encode(b)[i]),
        spec_hex_decode(spec_hex_encode(b)) == b,
    decreases b.len(),
{
    if b.len() == 0 {
        assert(spec_hex_decode(spec_hex_encode(b)) =~= b);
    } else {
        let rest = b.drop_first();
        lemma_hex_encode_decode(rest);
        let hi = (b[0] / 16) as u8;
        let lo = (b[0] % 16) as u8;
        lemma_hex_digit_inverse(hi);
        lemma_hex_digit_inverse(lo);
        let e = spec_hex_encode(b);
        assert(e.skip(2) =~= spec_hex_encode(rest));
        assert(hi * 16 + lo == b[0]) by {
            vstd::arithmetic::div_mod::lemma_fundamental_div_mod(b[0] as int, 16);
        }
        assert forall|i: int| 0 <= i < e.len() implies is_hex_digit(#[trigger] e[i]) by {
            if i >= 2 {
                assert(e[i] == spec_hex_encode(rest)[i - 2]);
            }
        }
        assert(spec_hex_decode(e) =~= b);
    }
}

/// Round trip: decoding what `encode_hex` renders gives back the original
/// bytes. The sequence must be non-empty: the rendering of no bytes is the
/// bare prefix `0x`, which is too short to carry the prefix convention and
/// is not itself valid hex.
pub proof fn lemma_hex_round_trip(b: Seq<u8>)
    requires
        b.len() > 0,
    ensures
        is_valid_hex(strip_hex_prefix(seq!['0', 'x'] + spec_hex_encode(b))),
        spec_hex_decode(strip_hex_prefix(seq!['0', 'x'] + spec_hex_encode(b))) == b,
{
    lemma_hex_encode_decode(b);
    let full = seq!['0', 'x'] + spec_hex_encode(b);
    assert(full.len() > 2);
    assert(full.skip(2) =~= spec_hex_encode(b));
}

/// The prefix convention changes nothing about what valid hex denotes: text
/// that is already valid hex is decoded whole, and the same text behind a
/// `0x` prefix is decoded to the very same bytes. (Valid hex never begins
/// with `0x` itself, since `x` is no hex digit.)
pub proof fn lemma_prefixed_and_bare_agree(s: Seq<char>)
    requires
        is_valid_hex(s),
        s.len() > 0,
    ensures
        strip_hex_prefix(s) == s,
        strip_hex_prefix(seq!['0', 'x'] + s) == s,
{
    if s.len() > 2 && s[0] == '0' && s[1] == 'x' {
        assert(is_hex_digit(s[1]));
        assert(false);
    }
    let full = seq!['0', 'x'] + s;
    assert(full.len() > 2);
    assert(full.skip(2) =~= s);
}

/// Encode bytes as hex text: the `0x` prefix, then two lower-case digits per
/// byte.
pub fn encode_hex(data: &[u8]) -> (r: String)
    ensures
        r@ == seq!['0', 'x'] + spec_hex_encode(data@),
{
    let mut out = String::from_str("0x");
    proof {
        reveal_strlit("0x");
        assert(out@ =~= seq!['0', 'x']);
    }
    let body = hex_encode_raw(data);
    out.append(body.as_str());
    out
}

} // verus!
