//! Copying a pane to the terminal's clipboard: the OSC 52 escape sequence
//! and the Base64 encoding it carries. Writing it to the terminal belongs to
//! the program around this library.

use vstd::prelude::*;

use crate::kernel::text::{push_char, push_str};
use vstd::string::StringSliceAdditionalSpecFns;

verus! {

broadcast use vstd::string::group_string_axioms;

/// The Base64 digit of a six-bit value.
pub open spec fn spec_b64_digit(v: u8) -> char {
    if v < 26 {
        (65 + v) as char
    } else if v < 52 {
        (97 + v - 26) as char
    } else if v < 62 {
        (48 + v - 52) as char
    } else if v == 62 {
        '+'
    } else {
        '/'
    }
}

/// The Base64 digit of a six-bit value.
fn b64_digit(v: u8) -> (r: char)
    requires
        v < 64,
    ensures
        r == spec_b64_digit(v),
{
    if v < 26 {
        (65 + v) as char
    } else if v < 52 {
        (97 + v - 26) as char
    } else if v < 62 {
        (48 + v - 52) as char
    } else if v == 62 {
        '+'
    } else {
        '/'
    }
}

/// The byte at `i`, or zero past the end.
pub open spec fn spec_byte_or_zero(bytes: Seq<u8>, i: int) -> u8 {
    if 0 <= i < bytes.len() {
        bytes[i]
    } else {
        0
    }
}

/// Character `k` of the padded Base64 encoding of `bytes`: each group of
/// three bytes gives four digits, and a short last group is padded with `=`.
pub open spec fn spec_b64_at(bytes: Seq<u8>, k: int) -> char {
    let i = (k / 4) * 3;
    let b0 = spec_byte_or_zero(bytes, i);
    let b1 = spec_byte_or_zero(bytes, i + 1);
    let b2 = spec_byte_or_zero(bytes, i + 2);
    if k % 4 == 0 {
        spec_b64_digit(b0 >> 2)
    } else if k % 4 == 1 {
        spec_b64_digit(((b0 & 3) << 4) | (b1 >> 4))
    } else if k % 4 == 2 {
        if i + 1 < bytes.len() {
            spec_b64_digit(((b1 & 15) << 2) | (b2 >> 6))
        } else {
            '='
        }
    } else {
        if i + 2 < bytes.len() {
            spec_b64_digit(b2 & 63)
        } else {
            '='
        }
    }
}

/// The padded Base64 encoding of `bytes` (standard alphabet).
pub open spec fn spec_base64(bytes: Seq<u8>) -> Seq<char> {
    Seq::new((4 * ((bytes.len() + 2) / 3)) as nat, |k: int| spec_b64_at(bytes, k))
}

/// Encodes bytes in padded Base64 with the standard alphabet.
pub fn base64_encode(bytes: &[u8]) -> (r: String)
    ensures
        r@ == spec_base64(bytes@),
        r@.len() == 4 * ((bytes@.len() + 2) / 3),
{
    let n = bytes.len();
    let mut out = String::new();
    let mut i: usize = 0;
    let ghost full = spec_base64(bytes@);
    while i < n
        invariant
            i <= n + 2,
            n == bytes@.len(),
            i % 3 == 0,
            full == spec_base64(bytes@),
            i < n ==> 4 * (i / 3) + 4 <= full.len(),
            out@ == full.take(4 * (i / 3)),
            i >= n ==> out@ == full,
        decreases n + 2 - i,
    {
        let b0 = bytes[i];
        let b1: u8 = if i + 1 < n { bytes[i + 1] } else { 0 };
        let b2: u8 = if i + 2 < n { bytes[i + 2] } else { 0 };
        let ghost g = 4 * (i / 3);
        assert((g / 4) * 3 == i) by (nonlinear_arith)
            requires g == 4 * (i / 3), i % 3 == 0;
        assert(((g + 1) / 4) * 3 == i && (g + 1) % 4 == 1) by (nonlinear_arith)
            requires g == 4 * (i / 3), i % 3 == 0;
        assert(((g + 2) / 4) * 3 == i && (g + 2) % 4 == 2) by (nonlinear_arith)
            requires g == 4 * (i / 3), i % 3 == 0;
        assert(((g + 3) / 4) * 3 == i && (g + 3) % 4 == 3) by (nonlinear_arith)
            requires g == 4 * (i / 3), i % 3 == 0;
        assert(g % 4 == 0) by (nonlinear_arith)
            requires g == 4 * (i / 3);
        assert(b0 >> 2 < 64) by (bit_vector);
        assert(((b0 & 3) << 4) | (b1 >> 4) < 64) by (bit_vector);
        assert(((b1 & 15) << 2) | (b2 >> 6) < 64) by (bit_vector);
        assert(b2 & 63 < 64) by (bit_vector);
        push_char(&mut out, b64_digit(b0 >> 2));
        push_char(&mut out, b64_digit(((b0 & 3) << 4) | (b1 >> 4)));
        if i + 1 < n {
            push_char(&mut out, b64_digit(((b1 & 15) << 2) | (b2 >> 6)));
        } else {
            push_char(&mut out, '=');
        }
        if i + 2 < n {
            push_char(&mut out, b64_digit(b2 & 63));
        } else {
            push_char(&mut out, '=');
        }
        proof {
            assert(full[g] == spec_b64_at(bytes@, g));
            assert(full[g + 1] == spec_b64_at(bytes@, g + 1));
            assert(full[g + 2] == spec_b64_at(bytes@, g + 2));
            assert(full[g + 3] == spec_b64_at(bytes@, g + 3));
            assert(out@ =~= full.take(g + 4));
            assert(4 * ((i + 3) / 3) == g + 4) by (nonlinear_arith)
                requires g == 4 * (i / 3), i % 3 == 0;
            if i + 3 >= n {
                assert(full.len() == g + 4) by (nonlinear_arith)
                    requires
                        g == 4 * (i / 3),
                        i % 3 == 0,
                        i < n,
                        i + 3 >= n,
                        full.len() == 4 * ((n + 2) / 3),
                ;
                assert(full.take(g + 4) =~= full);
            } else {
                assert(4 * ((i + 3) / 3) + 4 <= full.len()) by (nonlinear_arith)
                    requires
                        g == 4 * (i / 3),
                        i % 3 == 0,
                        i + 3 < n,
                        full.len() == 4 * ((n + 2) / 3),
                ;
            }
        }
        i = i + 3;
    }
    proof {
        if n == 0 {
            assert(full.len() == 0);
            assert(out@ =~= full);
        }
    }
    out
}

/// The OSC 52 sequence that puts `text` on the terminal's clipboard.
pub open spec fn spec_osc52(text: &str) -> Seq<char> {
    "\x1b]52;c;"@ + spec_base64(text.spec_bytes()) + "\x07"@
}

/// Builds the OSC 52 sequence that copies `text`.
pub fn osc52_sequence(text: &str) -> (r: String)
    ensures
        r@ == spec_osc52(text),
{
    let bytes = text.as_bytes();
    let encoded = base64_encode(bytes);
    let mut s = String::from_str("\x1b]52;c;");
    push_str(&mut s, encoded.as_str());
    push_str(&mut s, "\x07");
    s
}

} // verus!
