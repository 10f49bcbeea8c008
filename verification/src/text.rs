//! Verified construction of ASCII text: decimal representations and the one
//! trusted step that turns verified ASCII bytes into a `String`.

use vstd::prelude::*;

verus! {

/// ASCII code of the decimal digit `d` (with `0 <= d < 10`).
pub open spec fn dec_digit(d: int) -> u8 {
    (48 + d) as u8
}

/// Decimal representation of `n`, most significant digit first, as ASCII
/// bytes.
pub open spec fn dec_bytes(n: nat) -> Seq<u8>
    decreases n,
{
    if n < 10 {
        seq![dec_digit(n as int)]
    } else {
        dec_bytes(n / 10).push(dec_digit((n % 10) as int))
    }
}

/// Decimal representation of `n` as characters.
pub open spec fn dec_chars(n: nat) -> Seq<char> {
    dec_bytes(n).map_values(|b: u8| b as char)
}

/// Decimal representation of a signed value: a leading minus sign when it is
/// negative.
pub open spec fn dec_chars_signed(n: int) -> Seq<char> {
    if n < 0 {
        seq!['-'] + dec_chars((-n) as nat)
    } else {
        dec_chars(n as nat)
    }
}

/// Every byte of a decimal representation is an ASCII digit.
pub proof fn lemma_dec_bytes_ascii(n: nat)
    ensures
        forall|i: int| 0 <= i < dec_bytes(n).len() ==> 48 <= #[trigger] dec_bytes(n)[i] < 58,
    decreases n,
{
    if n >= 10 {
        lemma_dec_bytes_ascii(n / 10);
        assert forall|i: int| 0 <= i < dec_bytes(n).len() implies 48 <= #[trigger] dec_bytes(
            n,
        )[i] < 58 by {
            if i < dec_bytes(n).len() - 1 {
                assert(dec_bytes(n)[i] == dec_bytes(n / 10)[i]);
            }
        }
    }
}

/// Relies on `String::from_utf8`: a sequence of bytes below 128 is valid
/// UTF-8 and decodes one byte to one character of the same code point.
#[verifier::external_body]
pub(crate) fn ascii_string(v: Vec<u8>) -> (r: String)
    requires
        forall|i: int| 0 <= i < v@.len() ==> v@[i] < 128,
    ensures
        r@ == v@.map_values(|b: u8| b as char),
{
    String::from_utf8(v).unwrap()
}

/// The decimal digits of `n` as ASCII bytes.
fn dec_digits_u64(n: u64) -> (v: Vec<u8>)
    ensures
        v@ == dec_bytes(n as nat),
    decreases n,
{
    if n < 10 {
        let mut v: Vec<u8> = Vec::new();
        v.push(48 + n as u8);
        v
    } else {
        let mut v = dec_digits_u64(n / 10);
        v.push(48 + (n % 10) as u8);
        v
    }
}

/// The decimal text of `n`.
pub fn u64_text(n: u64) -> (r: String)
    ensures
        r@ == dec_chars(n as nat),
{
    let v = dec_digits_u64(n);
    proof {
        lemma_dec_bytes_ascii(n as nat);
    }
    ascii_string(v)
}

/// The signed decimal text of `n`.
pub fn i64_text(n: i64) -> (r: String)
    ensures
        r@ == dec_chars_signed(n as int),
{
    if n >= 0 {
        let v = dec_digits_u64(n as u64);
        proof {
            lemma_dec_bytes_ascii(n as nat);
        }
        ascii_string(v)
    } else {
        let mag: u64 = if n == i64::MIN {
            9223372036854775808u64
        } else {
            (-n) as u64
        };
        let mut v: Vec<u8> = Vec::new();
        v.push(45);
        let mut digits = dec_digits_u64(mag);
        v.append(&mut digits);
        proof {
            lemma_dec_bytes_ascii(mag as nat);
            assert(v@.map_values(|b: u8| b as char) =~= seq!['-'] + dec_chars(mag as nat));
        }
        ascii_string(v)
    }
}

} // verus!
