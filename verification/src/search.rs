//! The salt search loop.
//!
//! A 32-byte salt carries the sender address in its first 20 bytes; the
//! trailing 12 bytes are the search space. Each iteration redraws one of the
//! trailing bytes, cycling through the 12 positions, derives the CREATE2
//! address of the salt and scores it; the search stops at the first result
//! that beats the threshold, or when the iteration budget runs out.

use vstd::prelude::*;
use rand::Rng;
use crate::create2::{compute_address, create2_address, deployer_spec, init_code_hash_spec};
use crate::encoding::{
    decode_sender, hex_encode, hex_encode_spec, sender_bytes, valid_sender, SearchError,
};
use crate::scoring::vanity_score;

verus! {

/// A source of random bytes driving the salt search.
///
/// Nothing is assumed of the values drawn; any implementation (including a
/// deterministic one) is a valid source.
pub trait RandomSource {
    /// Draws the next byte.
    fn next_byte(&mut self) -> u8;
}

/// The thread-local random generator of the rand crate.
#[verifier::external_type_specification]
#[verifier::external_body]
pub struct ExThreadRng(rand::rngs::ThreadRng);

/// Relies on rand::thread_rng: a handle to the thread-local generator.
#[verifier::external_body]
fn fresh_thread_rng() -> rand::rngs::ThreadRng {
    rand::thread_rng()
}

/// Relies on Rng::gen: a freshly drawn byte; nothing is promised of its
/// value.
#[verifier::external_body]
fn thread_rng_byte(rng: &mut rand::rngs::ThreadRng) -> u8 {
    rng.gen()
}

/// The default random source: rand's thread-local generator.
pub struct ThreadRandom {
    rng: rand::rngs::ThreadRng,
}

impl ThreadRandom {
    /// A fresh handle to the thread-local generator.
    pub fn new() -> ThreadRandom {
        ThreadRandom { rng: fresh_thread_rng() }
    }
}

impl RandomSource for ThreadRandom {
    fn next_byte(&mut self) -> u8 {
        thread_rng_byte(&mut self.rng)
    }
}

/// The best result of a salt search: an address, its score, and the salt it
/// was derived from, the address and salt as hex strings (empty when the
/// search found nothing above the threshold).
pub struct AddressScore {
    address: String,
    score: usize,
    salt: String,
}

impl AddressScore {
    /// The address, as the characters of its hex encoding.
    pub closed spec fn spec_address(&self) -> Seq<char> {
        self.address@
    }

    /// The score.
    pub closed spec fn spec_score(&self) -> usize {
        self.score
    }

    /// The salt, as the characters of its hex encoding.
    pub closed spec fn spec_salt(&self) -> Seq<char> {
        self.salt@
    }

    /// Packs an address, a score and a salt into a result.
    pub fn new(address: String, score: usize, salt: String) -> (r: AddressScore)
        ensures
            r.spec_address() == address@,
            r.spec_score() == score,
            r.spec_salt() == salt@,
    {
        AddressScore { address, score, salt }
    }

    /// The hex-encoded address of the best result.
    pub fn address(&self) -> (r: String)
        ensures
            r@ == self.spec_address(),
    {
        self.address.clone()
    }

    /// The score of the best result.
    pub fn score(&self) -> (r: usize)
        ensures
            r == self.spec_score(),
    {
        self.score
    }

    /// The hex-encoded salt of the best result.
    pub fn salt(&self) -> (r: String)
        ensures
            r@ == self.spec_salt(),
    {
        self.salt.clone()
    }
}

/// The salt position redrawn at iteration `i`: the trailing 12 bytes, in a
/// cycle from byte 31 down to byte 20.
pub open spec fn mutation_position_spec(i: int) -> int {
    31 - (i % 12)
}

/// The salt position redrawn at iteration `i`.
pub fn mutation_position(i: usize) -> (r: usize)
    ensures
        r == mutation_position_spec(i as int),
        20 <= r <= 31,
{
    31 - (i % 12)
}

/// The mutated position is a pure function of the iteration index alone: it
/// always lies in the trailing 12 bytes of the salt, and it cycles with
/// period 12.
pub proof fn lemma_mutation_positions_cycle(i: int)
    requires
        i >= 0,
    ensures
        20 <= mutation_position_spec(i) <= 31,
        mutation_position_spec(i + 12) == mutation_position_spec(i),
{
}

/// A search outcome `r` that improved on the threshold: some 32-byte salt
/// carrying `sender` in its leading 20 bytes derives an address whose score
/// is the reported one, and the reported address and salt are its hex
/// encodings.
pub open spec fn reports_improvement(r: AddressScore, sender: Seq<u8>) -> bool {
    exists|salt: Seq<u8>|
        {
            &&& salt.len() == 32
            &&& salt.subrange(0, 20) == sender
            &&& r.spec_salt() == #[trigger] hex_encode_spec(salt)
            &&& r.spec_address() == hex_encode_spec(
                create2_address(deployer_spec(), init_code_hash_spec(), salt),
            )
            &&& r.spec_score() == vanity_score(
                create2_address(deployer_spec(), init_code_hash_spec(), salt),
            )
        }
}

/// What a salt search for `sender` promises of its outcome `r`, relative to
/// the threshold `best_score`: either the threshold comes back unchanged
/// with empty address and salt, or a strictly better, genuinely derived
/// result.
pub open spec fn search_outcome_ok(r: AddressScore, sender: Seq<u8>, best_score: usize) -> bool {
    &&& r.spec_score() >= best_score
    &&& r.spec_score() == best_score ==> r.spec_address() == Seq::<char>::empty()
        && r.spec_salt() == Seq::<char>::empty()
    &&& r.spec_score() > best_score ==> reports_improvement(r, sender)
}

/// Searches for a salt whose derived address scores strictly above
/// `best_score`, drawing bytes from `source`, for at most `times`
/// iterations; stops at the first improvement.
pub fn search_with_source<R: RandomSource>(
    source: &mut R,
    sender: &[u8; 20],
    times: usize,
    best_score: usize,
) -> (r: AddressScore)
    ensures
        search_outcome_ok(r, sender@, best_score),
{
    let mut salt: [u8; 32] = [0u8; 32];

    // first 20 bytes of the salt are the sender address
    let mut i: usize = 0;
    while i < 20
        invariant
            i <= 20,
            forall|j: int| 0 <= j < i ==> salt@[j] == sender@[j],
        decreases 20 - i,
    {
        salt[i] = sender[i];
        i = i + 1;
    }

    // Set the last 12 bytes of the salt to random values
    let mut k: usize = 0;
    while k < 12
        invariant
            k <= 12,
            forall|j: int| 0 <= j < 20 ==> salt@[j] == sender@[j],
        decreases 12 - k,
    {
        salt[31 - k] = source.next_byte();
        k = k + 1;
    }

    let mut iter: usize = 0;
    while iter < times
        invariant
            forall|j: int| 0 <= j < 20 ==> salt@[j] == sender@[j],
        decreases times - iter,
    {
        // Update salt to have a unique value for each iteration
        let pos = mutation_position(iter);
        salt[pos] = source.next_byte();

        let address = compute_address(&salt);
        let current = crate::score(&address);

        if current > best_score {
            let address_hex = hex_encode(address.as_slice());
            let salt_hex = hex_encode(salt.as_slice());
            let r = AddressScore::new(address_hex, current, salt_hex);
            proof {
                assert(salt@.subrange(0, 20) =~= sender@);
                assert({
                    &&& salt@.len() == 32
                    &&& salt@.subrange(0, 20) == sender@
                    &&& r.spec_salt() == hex_encode_spec(salt@)
                    &&& r.spec_address() == hex_encode_spec(
                        create2_address(deployer_spec(), init_code_hash_spec(), salt@),
                    )
                    &&& r.spec_score() == vanity_score(
                        create2_address(deployer_spec(), init_code_hash_spec(), salt@),
                    )
                });
            }
            return r;
        }
        iter = iter + 1;
    }

    AddressScore::new(String::new(), best_score, String::new())
}

/// Runs the salt search against the thread-local random generator.
///
/// The sender address must be well formed: 40 hex digits after an optional
/// `0x` prefix. [`try_loop_hash`] checks that first and rejects anything
/// else.
pub fn loop_hash(sender: String, times: usize, best_score: usize) -> (r: AddressScore)
    requires
        valid_sender(sender@),
    ensures
        search_outcome_ok(r, sender_bytes(sender@), best_score),
{
    let sender_address = match decode_sender(sender.as_str()) {
        Ok(b) => b,
        Err(_) => vstd::pervasive::unreached(),
    };
    let mut source = ThreadRandom::new();
    search_with_source(&mut source, &sender_address, times, best_score)
}

/// Validates the sender address, then runs the salt search against the
/// thread-local random generator; a malformed sender is rejected before any
/// iteration runs.
pub fn try_loop_hash(sender: String, times: usize, best_score: usize) -> (r: Result<
    AddressScore,
    SearchError,
>)
    ensures
        r is Ok <==> valid_sender(sender@),
        r matches Ok(a) ==> search_outcome_ok(a, sender_bytes(sender@), best_score),
        r matches Err(e) ==> e == SearchError::InvalidSender,
{
    match decode_sender(sender.as_str()) {
        Err(e) => Err(e),
        Ok(sender_address) => {
            let mut source = ThreadRandom::new();
            Ok(search_with_source(&mut source, &sender_address, times, best_score))
        },
    }
}

} // verus!
