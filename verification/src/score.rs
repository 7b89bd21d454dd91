//! Zero-weighted scoring of a 20-byte address.
//!
//! The address is read as 40 hex nibbles, left to right.  A zero nibble
//! before the first non-zero nibble is worth 100 points, a zero nibble
//! after it is worth 1 point, and non-zero nibbles are worth nothing.

use vstd::prelude::*;

verus! {

/// Points for one leading zero nibble.
pub const LEADING_ZERO_SCORE: i32 = 100;

/// Points for one zero nibble after the first non-zero nibble.
pub const INTERIOR_ZERO_SCORE: i32 = 1;

/// What one nibble contributes, given whether a non-zero nibble has
/// already been seen.
pub open spec fn nibble_score(nibble: u8, has_reached_non_zero: bool) -> int {
    if nibble == 0 {
        if has_reached_non_zero {
            1
        } else {
            100
        }
    } else {
        0
    }
}

/// Total score of a nibble sequence, threading the has-reached-non-zero
/// flag from left to right.
pub open spec fn score_from(nibbles: Seq<u8>, has_reached_non_zero: bool) -> int
    decreases nibbles.len(),
{
    if nibbles.len() == 0 {
        0
    } else {
        nibble_score(nibbles[0], has_reached_non_zero) + score_from(
            nibbles.drop_first(),
            has_reached_non_zero || nibbles[0] != 0,
        )
    }
}

/// The nibbles of a byte sequence: each byte contributes its high nibble,
/// then its low nibble.
pub open spec fn nibbles_of(bytes: Seq<u8>) -> Seq<u8> {
    Seq::new(
        bytes.len() * 2,
        |i: int| if i % 2 == 0 { (bytes[i / 2] / 16) as u8 } else { (bytes[i / 2] % 16) as u8 },
    )
}

/// Score of an address given as bytes: its nibbles scored with the flag
/// initially clear.
pub open spec fn vanity_score(address: Seq<u8>) -> int {
    score_from(nibbles_of(address), false)
}

/// The score of a sequence lies between 0 and 100 per nibble.
pub proof fn lemma_score_bounds(nibbles: Seq<u8>, has_reached_non_zero: bool)
    ensures
        0 <= score_from(nibbles, has_reached_non_zero) <= 100 * nibbles.len(),
    decreases nibbles.len(),
{
    if nibbles.len() > 0 {
        lemma_score_bounds(nibbles.drop_first(), has_reached_non_zero || nibbles[0] != 0);
    }
}

/// Unfolding one step of `score_from` at an arbitrary position.
pub proof fn lemma_score_step(nibbles: Seq<u8>, k: int, has_reached_non_zero: bool)
    requires
        0 <= k < nibbles.len(),
    ensures
        score_from(nibbles.skip(k), has_reached_non_zero) == nibble_score(
            nibbles[k],
            has_reached_non_zero,
        ) + score_from(nibbles.skip(k + 1), has_reached_non_zero || nibbles[k] != 0),
{
    assert(nibbles.skip(k)[0] == nibbles[k]);
    assert(nibbles.skip(k).drop_first() =~= nibbles.skip(k + 1));
}

/// Prepending one more leading zero nibble, holding the rest fixed,
/// raises the score by exactly 100: the new nibble earns the leading-zero
/// bonus and leaves the flag clear, so the rest scores as before.
pub proof fn lemma_prepend_zero_nibble(nibbles: Seq<u8>)
    ensures
        score_from(seq![0u8] + nibbles, false) == 100 + score_from(nibbles, false),
{
    assert((seq![0u8] + nibbles)[0] == 0);
    assert((seq![0u8] + nibbles).drop_first() =~= nibbles);
}

/// An all-zero sequence never flips the flag, so every nibble earns the
/// same bonus: 100 apiece while the flag is clear, 1 apiece once set.
/// For the 40 nibbles of an all-zero address that is 40 × 100 = 4000.
pub proof fn lemma_all_zero_score(nibbles: Seq<u8>, has_reached_non_zero: bool)
    requires
        forall|i: int| 0 <= i < nibbles.len() ==> nibbles[i] == 0,
    ensures
        score_from(nibbles, has_reached_non_zero) == if has_reached_non_zero {
            nibbles.len() as int
        } else {
            100 * nibbles.len() as int
        },
    decreases nibbles.len(),
{
    if nibbles.len() > 0 {
        assert(forall|i: int|
            0 <= i < nibbles.drop_first().len() ==> nibbles.drop_first()[i] == nibbles[i + 1]);
        lemma_all_zero_score(nibbles.drop_first(), has_reached_non_zero);
    }
}

/// An all-zero 20-byte address scores exactly 4000: the first nibble
/// contributes 100, and since the flag never flips, so do the other 39.
pub proof fn lemma_all_zero_address(address: Seq<u8>)
    requires
        address.len() == 20,
        forall|i: int| 0 <= i < address.len() ==> address[i] == 0,
    ensures
        vanity_score(address) == 4000,
{
    let ns = nibbles_of(address);
    assert(forall|i: int| 0 <= i < ns.len() ==> ns[i] == 0);
    lemma_all_zero_score(ns, false);
}

/// A sequence whose one non-zero nibble stands at position `k` scores
/// 100 per leading zero before it, nothing for the nibble itself, and 1
/// per interior zero after it: 100·k + (len − 1 − k).
pub proof fn lemma_single_non_zero_score(nibbles: Seq<u8>, k: int)
    requires
        0 <= k < nibbles.len(),
        nibbles[k] != 0,
        forall|i: int| 0 <= i < nibbles.len() && i != k ==> nibbles[i] == 0,
    ensures
        score_from(nibbles, false) == 100 * k + (nibbles.len() - 1 - k),
    decreases nibbles.len(),
{
    assert(forall|i: int|
        0 <= i < nibbles.drop_first().len() ==> nibbles.drop_first()[i] == nibbles[i + 1]);
    if k == 0 {
        lemma_all_zero_score(nibbles.drop_first(), true);
    } else {
        lemma_single_non_zero_score(nibbles.drop_first(), k - 1);
    }
}

/// Scores one nibble and updates the has-reached-non-zero flag, as the
/// scorer does while walking an address.
pub fn score_nibble(nibble: u8, has_reached_non_zero: &mut bool) -> (s: i32)
    ensures
        s == nibble_score(nibble, *old(has_reached_non_zero)),
        *final(has_reached_non_zero) == (*old(has_reached_non_zero) || nibble != 0),
{
    let mut local_score: i32 = 0;

    if nibble == 0 && !*has_reached_non_zero {
        local_score += LEADING_ZERO_SCORE;
    } else if nibble == 0 {
        local_score += INTERIOR_ZERO_SCORE;
    } else {
        *has_reached_non_zero = true;
    }

    local_score
}

/// Scores the last 20 bytes of `address` as 40 hex nibbles.
pub fn calc_score(address: &[u8]) -> (score: i32)
    requires
        address@.len() >= 20,
    ensures
        score == vanity_score(address@.skip(address@.len() - 20)),
        0 <= score <= 4000,
{
    let len = address.len();
    let start = len - 20;
    let ghost tail = address@.skip(address@.len() - 20);
    let ghost ns = nibbles_of(tail);

    let mut score: i32 = 0;
    let mut has_reached_non_zero = false;
    let mut i: usize = 0;

    proof {
        assert(ns.skip(0) =~= ns);
    }

    while i < 20
        invariant
            20 <= address@.len() <= usize::MAX,
            start == address@.len() - 20,
            tail == address@.skip(address@.len() - 20),
            ns == nibbles_of(tail),
            ns.len() == 40,
            i <= 20,
            0 <= score <= 200 * i,
            score + score_from(ns.skip(2 * i), has_reached_non_zero) == score_from(ns, false),
        decreases 20 - i,
    {
        let byte = address[start + i];
        proof {
            lemma_nibble_split(byte);
            assert(tail[i as int] == byte);
            assert(ns[2 * i] == byte >> 4);
            assert(ns[2 * i + 1] == byte & 0x0F);
            lemma_score_step(ns, 2 * i, has_reached_non_zero);
            lemma_score_step(ns, 2 * i + 1, has_reached_non_zero || ns[2 * i] != 0);
            lemma_score_bounds(ns.skip(2 * i + 2), has_reached_non_zero || ns[2 * i] != 0 || ns[
                2 * i + 1
            ] != 0);
        }
        score += score_nibble(byte >> 4, &mut has_reached_non_zero);
        score += score_nibble(byte & 0x0F, &mut has_reached_non_zero);
        i += 1;
    }

    proof {
        assert(ns.skip(40) =~= Seq::<u8>::empty());
    }

    score
}

/// Shift and mask pick out the same nibbles as division and remainder.
proof fn lemma_nibble_split(b: u8)
    ensures
        b >> 4 == b / 16,
        b & 0x0F == b % 16,
{
    assert(b >> 4 == b / 16 && b & 0x0F == b % 16) by (bit_vector);
}

} // verus!
