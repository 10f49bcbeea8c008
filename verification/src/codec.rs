//! A lossless text encoding of a ticker record.
//!
//! The five numeric fields are binary64 bit patterns, so the encoding writes
//! each as sixteen fixed-width lowercase hexadecimal digits, and the symbol
//! follows as the rest of the line.  Decoding inverts the encoding exactly:
//! no field loses precision, whatever bit patterns the record holds.

use vstd::prelude::*;
use vstd::string::StrSliceExecFns;
use vstd::string::StringExecFns;

use crate::model::Ticker;
use crate::text::ascii_string;

verus! {

/// ASCII code of the lowercase hexadecimal digit `d` (with `0 <= d < 16`).
pub open spec fn hex_digit(d: int) -> u8 {
    if d < 10 {
        (48 + d) as u8
    } else {
        (87 + d) as u8
    }
}

/// The `w`-digit hexadecimal representation of `n`, most significant digit
/// first.
pub open spec fn hex_seq(n: int, w: nat) -> Seq<char>
    decreases w,
{
    if w == 0 {
        Seq::empty()
    } else {
        hex_seq(n / 16, (w - 1) as nat).push(hex_digit(n % 16) as char)
    }
}

/// Value of a hexadecimal digit character, or 16 for any other character.
pub open spec fn hex_val(c: char) -> int {
    let x = c as int;
    if 48 <= x <= 57 {
        x - 48
    } else if 97 <= x <= 102 {
        x - 87
    } else {
        16
    }
}

/// Whether `c` is a lowercase hexadecimal digit character.
pub open spec fn is_hex_digit(c: char) -> bool {
    hex_val(c) < 16
}

/// The value of a sequence of hexadecimal digit characters.
pub open spec fn hex_parse(s: Seq<char>) -> int
    decreases s.len(),
{
    if s.len() == 0 {
        0
    } else {
        hex_parse(s.drop_last()) * 16 + hex_val(s.last())
    }
}

/// Sixteen to the power `w`.
pub open spec fn pow16(w: nat) -> nat
    decreases w,
{
    if w == 0 {
        1nat
    } else {
        16 * pow16((w - 1) as nat)
    }
}

proof fn lemma_pow16_mono(a: nat, b: nat)
    requires
        a <= b,
    ensures
        1 <= pow16(a) <= pow16(b),
    decreases b,
{
    if a < b {
        lemma_pow16_mono(a, (b - 1) as nat);
    } else if a > 0 {
        lemma_pow16_mono((a - 1) as nat, (a - 1) as nat);
    }
}

/// A `w`-digit hexadecimal representation holds only digit characters and
/// parses back to the value it was made from.
pub proof fn lemma_hex_round(n: int, w: nat)
    requires
        0 <= n < pow16(w),
    ensures
        hex_seq(n, w).len() == w,
        forall|i: int| 0 <= i < w ==> is_hex_digit(#[trigger] hex_seq(n, w)[i]),
        hex_parse(hex_seq(n, w)) == n,
    decreases w,
{
    if w > 0 {
        let p = pow16((w - 1) as nat);
        assert(pow16(w) == 16 * p);
        assert(n / 16 < p) by (nonlinear_arith)
            requires
                0 <= n,
                n < 16 * p,
        ;
        lemma_hex_round(n / 16, (w - 1) as nat);
        let rec = hex_seq(n / 16, (w - 1) as nat);
        let d = n % 16;
        let c = hex_digit(d) as char;
        assert(hex_val(c) == d);
        assert(hex_seq(n, w) == rec.push(c));
        assert(rec.push(c).drop_last() =~= rec);
        assert(rec.push(c).last() == c);
        assert(hex_parse(hex_seq(n, w)) == hex_parse(rec) * 16 + d);
    }
}

/// The encoded form of a record with symbol `sym` and numeric fields `v`
/// (current price), `d` (daily), `w` (weekly), `m` (monthly) and `y`
/// (yearly): five fixed-width hexadecimal fields, then the symbol.
pub open spec fn spec_encode(sym: Seq<char>, v: u64, d: u64, w: u64, m: u64, y: u64) -> Seq<
    char,
> {
    hex_seq(v as int, 16) + hex_seq(d as int, 16) + hex_seq(w as int, 16) + hex_seq(m as int, 16)
        + hex_seq(y as int, 16) + sym
}

/// The fields encoded in `s`, when `s` starts with five fixed-width
/// hexadecimal fields: numeric fields in encoding order, then the symbol.
pub open spec fn spec_decode(s: Seq<char>) -> Option<(u64, u64, u64, u64, u64, Seq<char>)> {
    if s.len() >= 80 && (forall|i: int| 0 <= i < 80 ==> is_hex_digit(#[trigger] s[i])) {
        Some(
            (
                hex_parse(s.subrange(0, 16)) as u64,
                hex_parse(s.subrange(16, 32)) as u64,
                hex_parse(s.subrange(32, 48)) as u64,
                hex_parse(s.subrange(48, 64)) as u64,
                hex_parse(s.subrange(64, 80)) as u64,
                s.skip(80),
            ),
        )
    } else {
        None
    }
}

/// Decoding inverts encoding: every record, whatever its symbol and bit
/// patterns, comes back from its encoded form unchanged.
pub proof fn lemma_codec_round_trip(sym: Seq<char>, v: u64, d: u64, w: u64, m: u64, y: u64)
    ensures
        spec_decode(spec_encode(sym, v, d, w, m, y)) == Some((v, d, w, m, y, sym)),
{
    assert(pow16(16) == 0x1_0000_0000_0000_0000) by {
        reveal_with_fuel(pow16, 17);
    }
    lemma_hex_round(v as int, 16);
    lemma_hex_round(d as int, 16);
    lemma_hex_round(w as int, 16);
    lemma_hex_round(m as int, 16);
    lemma_hex_round(y as int, 16);
    let s = spec_encode(sym, v, d, w, m, y);
    assert(s.subrange(0, 16) =~= hex_seq(v as int, 16));
    assert(s.subrange(16, 32) =~= hex_seq(d as int, 16));
    assert(s.subrange(32, 48) =~= hex_seq(w as int, 16));
    assert(s.subrange(48, 64) =~= hex_seq(m as int, 16));
    assert(s.subrange(64, 80) =~= hex_seq(y as int, 16));
    assert(s.skip(80) =~= sym);
}

/// The `w`-digit hexadecimal representation of `n` as ASCII bytes.
fn hex_digits(n: u64, w: usize) -> (v: Vec<u8>)
    ensures
        v@.len() == w,
        forall|i: int| 0 <= i < v@.len() ==> v@[i] < 128,
        v@.map_values(|b: u8| b as char) == hex_seq(n as int, w as nat),
    decreases w,
{
    if w == 0 {
        let v: Vec<u8> = Vec::new();
        proof {
            assert(v@.map_values(|b: u8| b as char) =~= hex_seq(n as int, 0));
        }
        v
    } else {
        let mut v = hex_digits(n / 16, w - 1);
        let d = (n % 16) as u8;
        let b: u8 = if d < 10 {
            48 + d
        } else {
            87 + d
        };
        v.push(b);
        proof {
            assert(v@.map_values(|b: u8| b as char) =~= hex_seq(n as int, w as nat));
        }
        v
    }
}

/// Value of a hexadecimal digit character, or 16 for any other character.
fn hex_val_of(c: char) -> (r: u8)
    ensures
        r as int == hex_val(c),
{
    let x = c as u32;
    if 48 <= x && x <= 57 {
        (x - 48) as u8
    } else if 97 <= x && x <= 102 {
        (x - 87) as u8
    } else {
        16
    }
}

/// Parses the sixteen hexadecimal digit characters of `s` that start at
/// `start`, or reports the first character that is no such digit.
fn parse_hex16(s: &str, start: usize) -> (r: Option<u64>)
    requires
        start + 16 <= s@.len(),
        start <= usize::MAX - 16,
    ensures
        r is Some <==> (forall|i: int| start <= i < start + 16 ==> is_hex_digit(#[trigger] s@[i])),
        r matches Some(v) ==> v == hex_parse(s@.subrange(start as int, start as int + 16)),
{
    let mut acc: u64 = 0;
    let mut j: usize = 0;
    while j < 16
        invariant
            start + 16 <= s@.len(),
            start <= usize::MAX - 16,
            0 <= j <= 16,
            forall|i: int| start <= i < start + j ==> is_hex_digit(#[trigger] s@[i]),
            acc as int == hex_parse(s@.subrange(start as int, start as int + j)),
            acc < pow16(j as nat),
        decreases 16 - j,
    {
        let c = s.get_char(start + j);
        let d = hex_val_of(c);
        if d >= 16 {
            return None;
        }
        proof {
            lemma_pow16_mono(j as nat, 15);
            assert(pow16(16) == 0x1_0000_0000_0000_0000) by {
                reveal_with_fuel(pow16, 17);
            }
            assert(pow16(15) == pow16(16) / 16);
            let pre = s@.subrange(start as int, start as int + j);
            let post = s@.subrange(start as int, start as int + j + 1);
            assert(post.drop_last() =~= pre);
            assert(post.last() == s@[start + j]);
        }
        acc = acc * 16 + d as u64;
        j = j + 1;
    }
    proof {
        assert(s@.subrange(start as int, start as int + 16) == s@.subrange(
            start as int,
            start as int + j,
        ));
    }
    Some(acc)
}

impl Ticker {
    /// Encodes this record losslessly as one line of text.
    pub fn encode(&self) -> (r: String)
        ensures
            r@ == spec_encode(
                self.symbol@,
                self.value,
                self.daily_change,
                self.wk_change,
                self.mo_change,
                self.yr_change,
            ),
    {
        let mut bytes = hex_digits(self.value, 16);
        let mut part = hex_digits(self.daily_change, 16);
        bytes.append(&mut part);
        let mut part = hex_digits(self.wk_change, 16);
        bytes.append(&mut part);
        let mut part = hex_digits(self.mo_change, 16);
        bytes.append(&mut part);
        let mut part = hex_digits(self.yr_change, 16);
        bytes.append(&mut part);
        proof {
            assert(bytes@.map_values(|b: u8| b as char) =~= hex_seq(self.value as int, 16)
                + hex_seq(self.daily_change as int, 16) + hex_seq(self.wk_change as int, 16)
                + hex_seq(self.mo_change as int, 16) + hex_seq(self.yr_change as int, 16));
        }
        let mut line = ascii_string(bytes);
        line.append(self.symbol.as_str());
        line
    }

    /// Decodes a line produced by `encode` back into the record it encodes;
    /// yields nothing for a line no encoding produces.
    pub fn decode(s: &str) -> (r: Option<Ticker>)
        ensures
            r is Some <==> spec_decode(s@) is Some,
            r matches Some(t) ==> spec_decode(s@) matches Some(f) && t.value == f.0
                && t.daily_change == f.1 && t.wk_change == f.2 && t.mo_change == f.3
                && t.yr_change == f.4 && t.symbol@ == f.5,
    {
        let n = s.unicode_len();
        if n < 80 {
            return None;
        }
        let value = match parse_hex16(s, 0) {
            Some(v) => v,
            None => {
                return None;
            },
        };
        let daily_change = match parse_hex16(s, 16) {
            Some(v) => v,
            None => {
                return None;
            },
        };
        let wk_change = match parse_hex16(s, 32) {
            Some(v) => v,
            None => {
                return None;
            },
        };
        let mo_change = match parse_hex16(s, 48) {
            Some(v) => v,
            None => {
                return None;
            },
        };
        let yr_change = match parse_hex16(s, 64) {
            Some(v) => v,
            None => {
                return None;
            },
        };
        let symbol = s.substring_char(80, n).to_owned();
        Some(Ticker { symbol, value, daily_change, wk_change, mo_change, yr_change })
    }
}

} // verus!
