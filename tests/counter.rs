use anchor_escrow::counter::{create_counter, increment_count, CounterError};
use anchor_escrow::key::Key;

#[test]
fn counter_starts_at_zero() {
    let c = create_counter(&Key::new([3; 32]));
    assert_eq!(c.count, 0);
    assert_eq!(c.authority.bytes, [3; 32]);
}

#[test]
fn authority_increments() {
    let owner = Key::new([3; 32]);
    let mut c = create_counter(&owner);
    assert_eq!(increment_count(&mut c, &owner), Ok(()));
    assert_eq!(increment_count(&mut c, &owner), Ok(()));
    assert_eq!(c.count, 2);
}

#[test]
fn stranger_cannot_increment() {
    let owner = Key::new([3; 32]);
    let mut c = create_counter(&owner);
    assert_eq!(increment_count(&mut c, &Key::new([4; 32])), Err(CounterError::Unauthorized));
    assert_eq!(c.count, 0);
}

#[test]
fn increment_at_limit_is_refused() {
    let owner = Key::new([3; 32]);
    let mut c = create_counter(&owner);
    c.count = u64::MAX;
    assert_eq!(increment_count(&mut c, &owner), Err(CounterError::Overflow));
    assert_eq!(c.count, u64::MAX);
}
