use session_gateway::clock::{current_time, seconds_since_epoch};
use session_gateway::identity::{
    decimal_string, identity_of, mint_identity, IDENTITY_MAX, IDENTITY_MIN,
};
use session_gateway::random::random_bytes;

#[test]
fn decimal_string_writes_numerals() {
    assert_eq!(decimal_string(0), "0");
    assert_eq!(decimal_string(1), "1");
    assert_eq!(decimal_string(9), "9");
    assert_eq!(decimal_string(10), "10");
    assert_eq!(decimal_string(4821), "4821");
    assert_eq!(decimal_string(10000), "10000");
    assert_eq!(decimal_string(1_234_567_890), "1234567890");
    assert_eq!(decimal_string(u32::MAX), "4294967295");
}

#[test]
fn decimal_string_agrees_with_the_standard_library() {
    for n in 0..=20_000u32 {
        assert_eq!(decimal_string(n), n.to_string());
    }
}

#[test]
fn identity_bounds_are_one_and_ten_thousand() {
    assert_eq!(IDENTITY_MIN, 1);
    assert_eq!(IDENTITY_MAX, 10000);
    assert_eq!(identity_of(1), "1");
    assert_eq!(identity_of(4821), "4821");
    assert_eq!(identity_of(10000), "10000");
}

#[test]
fn minted_identity_is_a_numeral_in_range() {
    for _ in 0..2000 {
        let id = mint_identity();
        let n: u32 = id.parse().unwrap();
        assert!((1..=10000).contains(&n), "{}", id);
        assert_eq!(id, n.to_string());
    }
}

#[test]
fn minted_identities_vary() {
    let first = mint_identity();
    assert!((0..200).any(|_| mint_identity() != first));
}

#[test]
fn seconds_since_epoch_clamps_negative_readings() {
    assert_eq!(seconds_since_epoch(0), 0);
    assert_eq!(seconds_since_epoch(7), 7);
    assert_eq!(seconds_since_epoch(1_700_000_000), 1_700_000_000);
    assert_eq!(seconds_since_epoch(i64::MAX), i64::MAX as u64);
    assert_eq!(seconds_since_epoch(-1), 0);
    assert_eq!(seconds_since_epoch(i64::MIN), 0);
}

#[test]
fn current_time_is_a_plausible_unix_time() {
    let now = current_time();
    // after 2020-01-01 and far from the end of the range
    assert!(now > 1_577_836_800);
    assert!(now <= i64::MAX as u64);
    let system = std::time::SystemTime::now()
        .duration_since(std::time::UNIX_EPOCH)
        .unwrap()
        .as_secs();
    assert!(system >= now && system - now <= 5);
}

#[test]
fn random_bytes_have_the_length_asked_for() {
    assert_eq!(random_bytes(0).len(), 0);
    assert_eq!(random_bytes(1).len(), 1);
    assert_eq!(random_bytes(1000).len(), 1000);
}

#[test]
fn random_bytes_are_drawn_afresh() {
    assert_ne!(random_bytes(64), random_bytes(64));
    let bytes = random_bytes(4096);
    assert!(bytes.iter().any(|b| *b != bytes[0]));
}
