//! A keyed rolling digest over character sequences. Token signatures and
//! password-hash tags are digests; a tag is a pure function of the key and
//! the characters, which is what the round-trip laws rest on.

use vstd::prelude::*;

verus! {

/// One character folded into a digest state: the state is multiplied by a
/// fixed odd multiplier and the character's scalar value is added, both
/// wrapping at the width of `u64`.
pub open spec fn digest_step(h: u64, c: char) -> u64 {
    vstd::wrapping::u64_specs::wrapping_add(
        vstd::wrapping::u64_specs::wrapping_mul(h, 31),
        c as u32 as u64,
    )
}

/// The digest of a character sequence, starting from the key.
pub open spec fn digest_of(key: u64, s: Seq<char>) -> u64
    decreases s.len(),
{
    if s.len() == 0 {
        key
    } else {
        digest_step(digest_of(key, s.drop_last()), s.last())
    }
}

/// The digest of the characters of `s` between positions `from` and `to`.
pub fn digest_str_range(key: u64, s: &str, from: usize, to: usize) -> (h: u64)
    requires
        from <= to,
        to <= s@.len(),
    ensures
        h == digest_of(key, s@.subrange(from as int, to as int)),
{
    let mut h: u64 = key;
    let mut j: usize = from;
    proof {
        assert(s@.subrange(from as int, from as int) =~= Seq::<char>::empty());
    }
    while j < to
        invariant
            from <= j <= to,
            to <= s@.len(),
            h == digest_of(key, s@.subrange(from as int, j as int)),
        decreases to - j,
    {
        let c = s.get_char(j);
        h = h.wrapping_mul(31).wrapping_add(c as u32 as u64);
        proof {
            assert(s@.subrange(from as int, j + 1).drop_last() =~= s@.subrange(
                from as int,
                j as int,
            ));
            assert(s@.subrange(from as int, j + 1).last() == c);
        }
        j = j + 1;
    }
    h
}

/// The digest of the characters of a vector.
pub fn digest_chars(key: u64, s: &Vec<char>) -> (h: u64)
    ensures
        h == digest_of(key, s@),
{
    let mut h: u64 = key;
    let mut j: usize = 0;
    proof {
        assert(s@.take(0) =~= Seq::<char>::empty());
    }
    while j < s.len()
        invariant
            j <= s@.len(),
            h == digest_of(key, s@.take(j as int)),
        decreases s@.len() - j,
    {
        let c = s[j];
        h = h.wrapping_mul(31).wrapping_add(c as u32 as u64);
        proof {
            assert(s@.take(j + 1).drop_last() =~= s@.take(j as int));
            assert(s@.take(j + 1).last() == c);
        }
        j = j + 1;
    }
    proof {
        assert(s@.take(s@.len() as int) =~= s@);
    }
    h
}

} // verus!
