use vanity_miner::create2::compute_address;
use vanity_miner::search::{mutation_position, search_with_source};
use vanity_miner::{loop_hash, try_loop_hash, RandomSource, SearchError};

const SENDER_HEX: &str = "d8da6bf26964af9d7eed9e03e53415d37aa96045";

fn sender_bytes() -> [u8; 20] {
    let v = hex::decode(SENDER_HEX).unwrap();
    let mut a = [0u8; 20];
    a.copy_from_slice(&v);
    a
}

/// A deterministic byte source: a linear congruential generator.
struct TestSource {
    state: u64,
}

impl TestSource {
    fn new(seed: u64) -> TestSource {
        TestSource { state: seed }
    }
}

impl RandomSource for TestSource {
    fn next_byte(&mut self) -> u8 {
        self.state = self
            .state
            .wrapping_mul(6364136223846793005)
            .wrapping_add(1442695040888963407);
        (self.state >> 56) as u8
    }
}

/// A source that counts how many bytes were drawn from it.
struct CountingSource {
    inner: TestSource,
    drawn: usize,
}

impl RandomSource for CountingSource {
    fn next_byte(&mut self) -> u8 {
        self.drawn += 1;
        self.inner.next_byte()
    }
}

#[test]
fn mutation_positions_cycle_over_the_trailing_bytes() {
    for i in 0..48 {
        let p = mutation_position(i);
        assert!((20..=31).contains(&p));
        assert_eq!(mutation_position(i + 12), p);
    }
    let first_cycle: Vec<usize> = (0..12).map(mutation_position).collect();
    let expected: Vec<usize> = (20..=31).rev().collect();
    assert_eq!(first_cycle, expected);
}

#[test]
fn search_is_deterministic_for_a_fixed_seed() {
    let sender = sender_bytes();
    let mut s1 = TestSource::new(0xDEADBEEF);
    let mut s2 = TestSource::new(0xDEADBEEF);
    let r1 = search_with_source(&mut s1, &sender, 10_000, 0);
    let r2 = search_with_source(&mut s2, &sender, 10_000, 0);
    assert_eq!(r1.address(), r2.address());
    assert_eq!(r1.score(), r2.score());
    assert_eq!(r1.salt(), r2.salt());
}

#[test]
fn found_salt_keeps_the_sender_prefix() {
    let sender = sender_bytes();
    let mut source = TestSource::new(7);
    let r = search_with_source(&mut source, &sender, 10_000, 0);
    assert!(r.score() > 0, "no improvement found within the budget");
    let salt = hex::decode(r.salt()).unwrap();
    assert_eq!(salt.len(), 32);
    assert_eq!(&salt[..20], &sender[..]);
}

#[test]
fn search_returns_on_the_first_improvement() {
    let sender = sender_bytes();
    let seed = 42u64;

    // Replay the search by hand: seed the salt, then redraw one trailing
    // byte per iteration until the score first beats the threshold.
    let mut replay = TestSource::new(seed);
    let mut salt = [0u8; 32];
    salt[..20].copy_from_slice(&sender);
    for i in 0..12 {
        salt[31 - i] = replay.next_byte();
    }
    let mut first_improvement = None;
    for i in 0..10_000usize {
        salt[31 - (i % 12)] = replay.next_byte();
        let address = compute_address(&salt);
        let score = vanity_miner::score(&address);
        if score > 0 {
            first_improvement = Some((i, address, salt, score));
            break;
        }
    }
    let (i, address, salt, score) = first_improvement.expect("no improving iteration");

    // The search must stop at exactly that iteration, having drawn the 12
    // seeding bytes plus one byte per iteration, even with budget to spare.
    let mut counting = CountingSource {
        inner: TestSource::new(seed),
        drawn: 0,
    };
    let r = search_with_source(&mut counting, &sender, 10_000, 0);
    assert_eq!(counting.drawn, 12 + i + 1);
    assert_eq!(r.score(), score);
    assert_eq!(r.address(), hex::encode(address));
    assert_eq!(r.salt(), hex::encode(salt));
}

#[test]
fn exhausted_budget_returns_the_threshold() {
    let sender = sender_bytes();
    let mut source = TestSource::new(1);
    let r = search_with_source(&mut source, &sender, 0, 17);
    assert_eq!(r.score(), 17);
    assert_eq!(r.address(), "");
    assert_eq!(r.salt(), "");
}

#[test]
fn unbeatable_threshold_is_returned_unchanged() {
    // 520 is the highest score any address can reach, so no strictly
    // better result exists.
    let sender = sender_bytes();
    let mut source = TestSource::new(99);
    let r = search_with_source(&mut source, &sender, 500, 520);
    assert_eq!(r.score(), 520);
    assert_eq!(r.address(), "");
    assert_eq!(r.salt(), "");
}

#[test]
fn loop_hash_result_is_consistent() {
    let r = loop_hash(format!("0x{}", SENDER_HEX), 200_000, 0);
    assert!(r.score() > 0, "no improvement found within the budget");
    let salt_vec = hex::decode(r.salt()).unwrap();
    let mut salt = [0u8; 32];
    salt.copy_from_slice(&salt_vec);
    assert_eq!(&salt[..20], &sender_bytes()[..]);
    let address = compute_address(&salt);
    assert_eq!(r.address(), hex::encode(address));
    assert_eq!(r.score(), vanity_miner::score(&address));
}

#[test]
fn try_loop_hash_rejects_a_malformed_sender() {
    assert!(matches!(
        try_loop_hash(String::from("not hex"), 10, 0),
        Err(SearchError::InvalidSender)
    ));
    assert!(matches!(
        try_loop_hash(String::from("0x1234"), 10, 0),
        Err(SearchError::InvalidSender)
    ));
}

#[test]
fn try_loop_hash_accepts_a_valid_sender() {
    let r = try_loop_hash(String::from(SENDER_HEX), 0, 3).unwrap();
    assert_eq!(r.score(), 3);
    assert_eq!(r.address(), "");
}
