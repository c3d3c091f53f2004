//! Nibble-pattern vanity scoring of 20-byte addresses.
//!
//! An address is read as 40 hexadecimal nibbles, most significant first. The
//! heuristic rewards a run of leading zero nibbles that is immediately
//! followed by a run of `4` nibbles; an address without such a following `4`
//! run scores exactly 0, whatever else it holds.

use vstd::prelude::*;

verus! {

/// The nibble (half-byte) at position `i` of `addr`, most significant first.
pub open spec fn nibble(addr: Seq<u8>, i: int) -> u8
    recommends
        0 <= i < 2 * addr.len(),
{
    if i % 2 == 0 {
        addr[i / 2] / 16
    } else {
        addr[i / 2] % 16
    }
}

/// Length of the run of consecutive nibbles equal to `v` starting at `start`.
pub open spec fn run_length(addr: Seq<u8>, start: int, v: u8) -> int
    decreases 2 * addr.len() - start,
{
    if start < 0 || start >= 2 * addr.len() {
        0int
    } else if nibble(addr, start) != v {
        0int
    } else {
        1 + run_length(addr, start + 1, v)
    }
}

/// Number of positions `j` in `[0, n)` whose nibble equals `v`.
pub open spec fn count_nibbles(addr: Seq<u8>, n: int, v: u8) -> int
    decreases n,
{
    if n <= 0 {
        0int
    } else {
        count_nibbles(addr, n - 1, v) + if nibble(addr, n - 1) == v {
            1int
        } else {
            0int
        }
    }
}

/// Count of leading zero nibbles.
pub open spec fn leading_zero_run(addr: Seq<u8>) -> int {
    run_length(addr, 0, 0)
}

/// Count of consecutive `4` nibbles starting right after the leading zeros.
pub open spec fn following_four_run(addr: Seq<u8>) -> int {
    run_length(addr, leading_zero_run(addr), 4)
}

/// Bonus awarded for the length of the `4` run after the leading zeros.
pub open spec fn four_run_bonus(f: int) -> int {
    if f == 4 {
        60int
    } else if f > 4 {
        40int
    } else {
        0int
    }
}

/// Flat bonus when the address ends in the two bytes `0x44, 0x44`.
pub open spec fn suffix_bonus(addr: Seq<u8>) -> int {
    if addr[18] == 0x44 && addr[19] == 0x44 {
        20int
    } else {
        0int
    }
}

/// The vanity score of a 20-byte address.
///
/// With `z` leading zero nibbles followed by `f > 0` nibbles equal to `4`,
/// the score is `10 * z`, plus the `4`-run bonus, plus one point per `4`
/// nibble anywhere, plus the trailing-byte bonus. With `f == 0` the score is
/// forced to 0 regardless of everything else.
pub open spec fn vanity_score(addr: Seq<u8>) -> int {
    let z = leading_zero_run(addr);
    let f = following_four_run(addr);
    if f == 0 {
        0int
    } else {
        10 * z + four_run_bonus(f) + count_nibbles(addr, 2 * addr.len() as int, 4) + suffix_bonus(addr)
    }
}

/// Returns the nibble at a given index in an address.
pub fn get_nibble(input: &[u8; 20], nibble_index: usize) -> (r: u8)
    requires
        nibble_index < 40,
    ensures
        r == nibble(input@, nibble_index as int),
{
    let curr_byte = input[nibble_index / 2];
    if nibble_index % 2 == 0 {
        proof {
            assert(curr_byte >> 4 == curr_byte / 16) by (bit_vector);
        }
        curr_byte >> 4
    } else {
        proof {
            assert(curr_byte & 0x0F == curr_byte % 16) by (bit_vector);
        }
        curr_byte & 0x0F
    }
}

proof fn lemma_run_length_value(addr: Seq<u8>, start: int, v: u8, end: int)
    requires
        0 <= start <= end <= 2 * addr.len(),
        forall|j: int| start <= j < end ==> nibble(addr, j) == v,
        end < 2 * addr.len() ==> nibble(addr, end) != v,
    ensures
        run_length(addr, start, v) == end - start,
    decreases end - start,
{
    if start < end {
        lemma_run_length_value(addr, start + 1, v, end);
    }
}

/// A run starting inside the address is no longer than what remains of it.
pub proof fn lemma_run_length_bounds(addr: Seq<u8>, start: int, v: u8)
    requires
        0 <= start <= 2 * addr.len(),
    ensures
        0 <= run_length(addr, start, v) <= 2 * addr.len() - start,
    decreases 2 * addr.len() - start,
{
    if start < 2 * addr.len() && nibble(addr, start) == v {
        lemma_run_length_bounds(addr, start + 1, v);
    }
}

proof fn lemma_count_nibbles_bounds(addr: Seq<u8>, n: int, v: u8)
    requires
        n >= 0,
    ensures
        0 <= count_nibbles(addr, n, v) <= n,
    decreases n,
{
    if n > 0 {
        lemma_count_nibbles_bounds(addr, n - 1, v);
    }
}

/// Returns the number of leading nibbles, from `start_index` on, that match
/// a given value.
pub fn get_leading_nibble_count(input: &[u8; 20], start_index: usize, comparison: u8) -> (r: usize)
    requires
        start_index <= 40,
    ensures
        r == run_length(input@, start_index as int, comparison),
{
    let mut count: usize = 0;
    let mut i: usize = start_index;
    while i < 40
        invariant
            start_index <= i <= 40,
            count == i - start_index,
            forall|j: int| start_index <= j < i ==> nibble(input@, j) == comparison,
        decreases 40 - i,
    {
        let current_nibble = get_nibble(input, i);
        if current_nibble != comparison {
            proof {
                lemma_run_length_value(input@, start_index as int, comparison, i as int);
            }
            return count;
        }
        count = count + 1;
        i = i + 1;
    }
    proof {
        lemma_run_length_value(input@, start_index as int, comparison, 40);
    }
    count
}

/// Scores an address based on its vanity.
pub fn score(input: &[u8; 20]) -> (r: u64)
    ensures
        r as int == vanity_score(input@),
{
    let mut calculated_score: u64 = 0;

    // 10 points per leading zero nibble
    let leading_zero_count = get_leading_nibble_count(input, 0, 0);
    proof {
        lemma_run_length_bounds(input@, 0, 0);
    }
    calculated_score = calculated_score + (leading_zero_count as u64) * 10;

    // Special handling for 4s immediately after leading 0s
    let leading_four_count = get_leading_nibble_count(input, leading_zero_count, 4);

    if leading_four_count == 0 {
        return 0;
    } else if leading_four_count == 4 {
        calculated_score = calculated_score + 60;
    } else if leading_four_count > 4 {
        calculated_score = calculated_score + 40;
    }

    // 1 extra point for any 4 nibbles
    let mut i: usize = 0;
    let mut fours: u64 = 0;
    while i < 40
        invariant
            i <= 40,
            fours == count_nibbles(input@, i as int, 4),
            fours <= i,
        decreases 40 - i,
    {
        if get_nibble(input, i) == 4 {
            fours = fours + 1;
        }
        i = i + 1;
    }
    calculated_score = calculated_score + fours;

    // If the last 4 nibbles are 4s, add 20 points
    if input[18] == 0x44 && input[19] == 0x44 {
        calculated_score = calculated_score + 20;
    }

    calculated_score
}

/// The score of any 20-byte address is a well-defined value in `[0, 520]`.
pub proof fn lemma_score_bounds(addr: Seq<u8>)
    requires
        addr.len() == 20,
    ensures
        0 <= vanity_score(addr) <= 520,
{
    lemma_run_length_bounds(addr, 0, 0);
    lemma_run_length_bounds(addr, leading_zero_run(addr), 4);
    lemma_count_nibbles_bounds(addr, 2 * addr.len() as int, 4);
}

/// Short-circuit law: when the nibble right after the run of leading zero
/// nibbles is not `4` (or the address is zero nibbles throughout), the score
/// is exactly 0, regardless of content elsewhere in the address.
pub proof fn lemma_short_circuit(addr: Seq<u8>)
    requires
        addr.len() == 20,
        leading_zero_run(addr) < 40 ==> nibble(addr, leading_zero_run(addr)) != 4,
    ensures
        vanity_score(addr) == 0,
{
    lemma_run_length_bounds(addr, 0, 0);
}

/// Monotonic zero bonus: between two addresses that agree on the `4` run
/// after the zeros (nonzero), on the total count of `4` nibbles, and on the
/// trailing-byte bonus, the score grows by exactly 10 per additional leading
/// zero nibble, so more leading zeros strictly increase it.
pub proof fn lemma_zero_bonus_monotonic(a: Seq<u8>, b: Seq<u8>)
    requires
        a.len() == 20,
        b.len() == 20,
        following_four_run(a) == following_four_run(b),
        following_four_run(a) > 0,
        count_nibbles(a, 2 * a.len() as int, 4) == count_nibbles(b, 2 * b.len() as int, 4),
        suffix_bonus(a) == suffix_bonus(b),
        leading_zero_run(b) > leading_zero_run(a),
    ensures
        vanity_score(b) - vanity_score(a) == 10 * (leading_zero_run(b) - leading_zero_run(a)),
        vanity_score(b) > vanity_score(a),
{
}

} // verus!
