//! Percent-encoding of byte strings for safe embedding in a URL query
//! parameter, together with a mathematical decoder and the proof that
//! decoding undoes encoding.
use vstd::prelude::*;

verus! {

/// A byte that percent-encoding leaves as it is: an ASCII alphanumeric
/// or one of `-`, `.`, `_`, `~`.
pub open spec fn is_unreserved(b: u8) -> bool {
    ||| 0x30 <= b <= 0x39
    ||| 0x41 <= b <= 0x5a
    ||| 0x61 <= b <= 0x7a
    ||| b == 0x2d
    ||| b == 0x2e
    ||| b == 0x5f
    ||| b == 0x7e
}

/// The uppercase hexadecimal digit for a value below sixteen.
pub open spec fn upper_hex_digit(n: u8) -> u8 {
    if n < 10 {
        (0x30 + n) as u8
    } else {
        (0x41 + (n - 10)) as u8
    }
}

/// The bytes that stand for one input byte: the byte itself if it is
/// unreserved, otherwise `%` followed by its two hexadecimal digits.
pub open spec fn encode_byte(b: u8) -> Seq<u8> {
    if is_unreserved(b) {
        seq![b]
    } else {
        seq![0x25u8, upper_hex_digit(b / 16), upper_hex_digit(b % 16)]
    }
}

/// The percent-encoding of a byte string.
pub open spec fn percent_encode(s: Seq<u8>) -> Seq<u8>
    decreases s.len(),
{
    if s.len() == 0 {
        Seq::empty()
    } else {
        encode_byte(s[0]) + percent_encode(s.skip(1))
    }
}

/// The value of a hexadecimal digit byte, accepting both cases.
pub open spec fn hex_value(b: u8) -> Option<u8> {
    if 0x30 <= b <= 0x39 {
        Some((b - 0x30) as u8)
    } else if 0x41 <= b <= 0x46 {
        Some((b - 0x41 + 10) as u8)
    } else if 0x61 <= b <= 0x66 {
        Some((b - 0x61 + 10) as u8)
    } else {
        None
    }
}

/// Percent-decoding of a byte string: each `%` must be followed by two
/// hexadecimal digits, every other byte stands for itself.
pub open spec fn percent_decode(s: Seq<u8>) -> Option<Seq<u8>>
    decreases s.len(),
{
    if s.len() == 0 {
        Some(Seq::empty())
    } else if s[0] == 0x25 {
        if s.len() >= 3 && hex_value(s[1]) is Some && hex_value(s[2]) is Some {
            match percent_decode(s.skip(3)) {
                Some(rest) => Some(
                    seq![((hex_value(s[1]).unwrap() * 16 + hex_value(s[2]).unwrap()) as u8)] + rest,
                ),
                None => None,
            }
        } else {
            None
        }
    } else {
        match percent_decode(s.skip(1)) {
            Some(rest) => Some(seq![s[0]] + rest),
            None => None,
        }
    }
}

/// Decoding undoes encoding: every byte string comes back unchanged.
pub proof fn lemma_decode_encode(s: Seq<u8>)
    ensures
        percent_decode(percent_encode(s)) == Some(s),
    decreases s.len(),
{
    if s.len() == 0 {
        assert(percent_encode(s) =~= Seq::<u8>::empty());
    } else {
        let b = s[0];
        let tail = s.skip(1);
        lemma_decode_encode(tail);
        if is_unreserved(b) {
            let enc = percent_encode(s);
            assert(enc =~= seq![b] + percent_encode(tail));
            assert(enc[0] == b && b != 0x25);
            assert(enc.skip(1) =~= percent_encode(tail));
            assert(percent_decode(enc) == Some(seq![b] + tail));
            assert(seq![b] + tail =~= s);
        } else {
            let hi = b / 16;
            let lo = b % 16;
            let enc = percent_encode(s);
            assert(enc =~= seq![0x25u8, upper_hex_digit(hi), upper_hex_digit(lo)] + percent_encode(
                tail,
            ));
            assert(hex_value(upper_hex_digit(hi)) == Some(hi));
            assert(hex_value(upper_hex_digit(lo)) == Some(lo));
            assert(enc.skip(3) =~= percent_encode(tail));
            assert(hi * 16 + lo == b) by {
                assert(b / 16 * 16 + b % 16 == b) by (nonlinear_arith);
            };
            assert(percent_decode(enc) == Some(seq![b] + tail));
            assert(seq![b] + tail =~= s);
        }
    }
}

/// Every byte of an encoding is ASCII and is neither `&` nor `=` nor
/// `?`, so an encoded value never ends or splits a query parameter.
pub proof fn lemma_encode_param_safe(s: Seq<u8>)
    ensures
        forall|i: int|
            0 <= i < percent_encode(s).len() ==> (#[trigger] percent_encode(s)[i]) < 0x80
                && percent_encode(s)[i] != 0x26 && percent_encode(s)[i] != 0x3d && percent_encode(
                s,
            )[i] != 0x3f,
    decreases s.len(),
{
    if s.len() == 0 {
    } else {
        lemma_encode_param_safe(s.skip(1));
        assert(percent_encode(s) =~= encode_byte(s[0]) + percent_encode(s.skip(1)));
    }
}

} // verus!
