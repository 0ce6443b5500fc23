//! Fixed-width lowercase hexadecimal rendering of `u64` values, and its
//! inverse. Token fields and password-hash fields are written in this form,
//! so the round trip proved here underlies the token round-trip law.

use vstd::arithmetic::div_mod::{
    lemma_basic_div, lemma_div_denominator, lemma_fundamental_div_mod,
};
use vstd::arithmetic::power2::{lemma2_to64, lemma2_to64_rest, lemma_pow2_adds, pow2};
use vstd::bits::{
    lemma_low_bits_mask_values, lemma_u64_low_bits_mask_is_mod, lemma_u64_shr_is_div,
};
use vstd::prelude::*;

verus! {

/// The lowercase hex digit of a value below sixteen.
pub open spec fn hex_char_of(n: int) -> char {
    if n == 0 {
        '0'
    } else if n == 1 {
        '1'
    } else if n == 2 {
        '2'
    } else if n == 3 {
        '3'
    } else if n == 4 {
        '4'
    } else if n == 5 {
        '5'
    } else if n == 6 {
        '6'
    } else if n == 7 {
        '7'
    } else if n == 8 {
        '8'
    } else if n == 9 {
        '9'
    } else if n == 10 {
        'a'
    } else if n == 11 {
        'b'
    } else if n == 12 {
        'c'
    } else if n == 13 {
        'd'
    } else if n == 14 {
        'e'
    } else {
        'f'
    }
}

/// Whether a character is a lowercase hex digit.
pub open spec fn is_hex_digit(c: char) -> bool {
    (48 <= c as u32 && c as u32 <= 57) || (97 <= c as u32 && c as u32 <= 102)
}

/// The value of a lowercase hex digit character.
pub open spec fn hex_digit_val(c: char) -> int {
    if c as u32 <= 57 {
        c as u32 - 48
    } else {
        c as u32 - 87
    }
}

/// Whether every character of a sequence is a lowercase hex digit.
pub open spec fn all_hex(s: Seq<char>) -> bool {
    forall|i: int| 0 <= i < s.len() ==> is_hex_digit(#[trigger] s[i])
}

/// The value of a big-endian sequence of hex digit characters.
pub open spec fn hex_seq_val(s: Seq<char>) -> int
    decreases s.len(),
{
    if s.len() == 0 {
        0
    } else {
        hex_seq_val(s.drop_last()) * 16 + hex_digit_val(s.last())
    }
}

/// The digit at position `i` (big-endian) of the hex rendering of `x`.
pub open spec fn nibble_of(x: u64, i: int) -> u64 {
    (x >> (((15 - i) * 4) as u64)) & 0xf
}

/// The sixteen-character lowercase hex rendering of `x`, most significant
/// digit first.
pub open spec fn u64_hex(x: u64) -> Seq<char> {
    Seq::new(16, |i: int| hex_char_of(nibble_of(x, i) as int))
}

proof fn lemma_nibble_bound(x: u64, s: u64)
    by (bit_vector)
    ensures
        (x >> s) & 0xf < 16,
{
}

proof fn lemma_hex_char_val(n: int)
    requires
        0 <= n < 16,
    ensures
        is_hex_digit(hex_char_of(n)),
        hex_digit_val(hex_char_of(n)) == n,
{
}

/// Every digit of a hex rendering is a hex digit character.
pub proof fn lemma_u64_hex_all_hex(x: u64)
    ensures
        all_hex(u64_hex(x)),
        u64_hex(x).len() == 16,
{
    assert forall|i: int| 0 <= i < 16 implies is_hex_digit(#[trigger] u64_hex(x)[i]) by {
        lemma_nibble_bound(x, ((15 - i) * 4) as u64);
        lemma_hex_char_val(nibble_of(x, i) as int);
    }
}

proof fn lemma_hex_prefix_val(x: u64, k: int)
    requires
        0 <= k <= 16,
    ensures
        hex_seq_val(u64_hex(x).take(k)) == x as int / pow2((4 * (16 - k)) as nat) as int,
    decreases k,
{
    lemma2_to64();
    lemma2_to64_rest();
    if k == 0 {
        assert(u64_hex(x).take(0).len() == 0);
        lemma_basic_div(x as int, pow2(64) as int);
    } else {
        lemma_hex_prefix_val(x, k - 1);
        let s = (4 * (16 - k)) as nat;
        let shift = s as u64;
        // The digit written at position k - 1 is (x >> s) & 0xf.
        lemma_nibble_bound(x, shift);
        lemma_hex_char_val(nibble_of(x, k - 1) as int);
        // (x >> s) == x / 2^s, and masking the low four bits takes it mod 16.
        lemma_u64_shr_is_div(x, shift);
        lemma_low_bits_mask_values();
        lemma_u64_low_bits_mask_is_mod(x >> shift, 4);
        let y = x as int / pow2(s) as int;
        assert(nibble_of(x, k - 1) == y % 16);
        // The previously accumulated value is x / 2^(s + 4) == y / 16.
        lemma_pow2_adds(s, 4);
        lemma_div_denominator(x as int, pow2(s) as int, 16);
        assert(x as int / pow2((4 * (16 - (k - 1))) as nat) as int == y / 16);
        // Unfold hex_seq_val at the new last digit.
        assert(u64_hex(x).take(k).drop_last() =~= u64_hex(x).take(k - 1));
        assert(u64_hex(x).take(k).last() == hex_char_of(nibble_of(x, k - 1) as int));
        assert(hex_seq_val(u64_hex(x).take(k)) == (y / 16) * 16 + y % 16);
        lemma_fundamental_div_mod(y, 16);
    }
}

/// Reading the hex rendering of `x` back as a number gives `x`.
pub proof fn lemma_hex_round_trip(x: u64)
    ensures
        all_hex(u64_hex(x)),
        u64_hex(x).len() == 16,
        hex_seq_val(u64_hex(x)) == x as int,
{
    lemma_u64_hex_all_hex(x);
    lemma_hex_prefix_val(x, 16);
    lemma2_to64();
    vstd::arithmetic::div_mod::lemma_div_basics(x as int);
    assert(u64_hex(x).take(16) =~= u64_hex(x));
    assert(x as int / pow2(0) as int == x as int);
}

/// The hex digit character of a value below sixteen.
fn hex_char(d: u64) -> (c: char)
    requires
        d < 16,
    ensures
        c == hex_char_of(d as int),
{
    if d == 0 {
        '0'
    } else if d == 1 {
        '1'
    } else if d == 2 {
        '2'
    } else if d == 3 {
        '3'
    } else if d == 4 {
        '4'
    } else if d == 5 {
        '5'
    } else if d == 6 {
        '6'
    } else if d == 7 {
        '7'
    } else if d == 8 {
        '8'
    } else if d == 9 {
        '9'
    } else if d == 10 {
        'a'
    } else if d == 11 {
        'b'
    } else if d == 12 {
        'c'
    } else if d == 13 {
        'd'
    } else if d == 14 {
        'e'
    } else {
        'f'
    }
}

/// The value of a hex digit character, or `None` if it is not one.
fn hex_val(c: char) -> (r: Option<u64>)
    ensures
        match r {
            Some(v) => is_hex_digit(c) && v as int == hex_digit_val(c) && v < 16,
            None => !is_hex_digit(c),
        },
{
    let u = c as u32;
    if 48 <= u && u <= 57 {
        Some((u - 48) as u64)
    } else if 97 <= u && u <= 102 {
        Some((u - 87) as u64)
    } else {
        None
    }
}

/// Appends the sixteen-digit hex rendering of `x`.
pub fn push_u64_hex(out: &mut Vec<char>, x: u64)
    ensures
        final(out)@ == old(out)@ + u64_hex(x),
{
    let mut i: usize = 0;
    while i < 16
        invariant
            i <= 16,
            out@ == old(out)@ + u64_hex(x).take(i as int),
        decreases 16 - i,
    {
        let shift: u64 = ((15 - i) as u64) * 4;
        proof {
            lemma_nibble_bound(x, shift);
        }
        let nib: u64 = (x >> shift) & 0xf;
        assert(nib == nibble_of(x, i as int));
        let c = hex_char(nib);
        out.push(c);
        proof {
            assert(old(out)@ + u64_hex(x).take(i + 1) =~= (old(out)@ + u64_hex(x).take(
                i as int,
            )).push(c));
        }
        i = i + 1;
    }
    proof {
        assert(u64_hex(x).take(16) =~= u64_hex(x));
    }
}

/// Reads the sixteen hex digits of `s` starting at character `off` as a
/// number; `None` exactly when one of them is not a lowercase hex digit.
pub fn parse_u64_hex_at(s: &str, off: usize) -> (r: Option<u64>)
    requires
        off + 16 <= s@.len(),
        off + 16 <= usize::MAX,
    ensures
        ({
            let sub = s@.subrange(off as int, off as int + 16);
            match r {
                Some(v) => all_hex(sub) && v as int == hex_seq_val(sub),
                None => !all_hex(sub),
            }
        }),
{
    let ghost sub = s@.subrange(off as int, off as int + 16);
    let mut acc: u64 = 0;
    let mut j: usize = 0;
    proof {
        lemma2_to64();
    }
    while j < 16
        invariant
            j <= 16,
            off + 16 <= s@.len(),
            off + 16 <= usize::MAX,
            sub == s@.subrange(off as int, off as int + 16),
            all_hex(sub.take(j as int)),
            acc as int == hex_seq_val(sub.take(j as int)),
            (acc as int) < pow2((4 * j) as nat) as int,
        decreases 16 - j,
    {
        let c = s.get_char(off + j);
        assert(c == sub[j as int]);
        match hex_val(c) {
            Some(d) => {
                proof {
                    lemma2_to64();
                    lemma2_to64_rest();
                    lemma_pow2_adds((4 * j) as nat, 4);
                    // The next accumulator value stays below 2^(4j + 4),
                    // which pow2's monotonicity bounds by 2^64.
                    assert((acc as int) * 16 + d < pow2((4 * j + 4) as nat) as int);
                    if 4 * j + 4 < 64 {
                        vstd::arithmetic::power2::lemma_pow2_strictly_increases(
                            (4 * j + 4) as nat,
                            64,
                        );
                    }
                }
                let next: u64 = acc * 16 + d;
                proof {
                    assert(sub.take(j + 1).drop_last() =~= sub.take(j as int));
                    assert(sub.take(j + 1).last() == c);
                }
                acc = next;
                j = j + 1;
            },
            None => {
                assert(!is_hex_digit(sub[j as int]));
                return None;
            },
        }
    }
    proof {
        assert(sub.take(16) =~= sub);
    }
    Some(acc)
}

} // verus!
