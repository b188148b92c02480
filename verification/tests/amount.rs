use guild_sc::amount::Amount;

#[test]
fn amount_round_trip() {
    assert_eq!(Amount::from_u64(0).to_u64(), Some(0));
    assert_eq!(Amount::from_u64(255).to_u64(), Some(255));
    assert_eq!(Amount::from_u64(256).to_u64(), Some(256));
    assert_eq!(Amount::from_u64(u64::MAX).to_u64(), Some(u64::MAX));
}

#[test]
fn amount_arithmetic() {
    let a = Amount::from_u64(100_000_000);
    let b = Amount::from_u64(2_500);
    assert_eq!(a.plus(&b).to_u64(), Some(100_002_500));
    assert_eq!(a.minus(&b).to_u64(), Some(99_997_500));
    assert_eq!(a.times(&b).to_u64(), Some(250_000_000_000));
    assert_eq!(a.div_floor(&b).to_u64(), Some(40_000));
    assert_eq!(b.checked_minus(&a), None);
    assert!(b.lt(&a));
    assert!(b.le(&a));
    assert!(!a.le(&b));
    assert!(a.same(&Amount::from_u64(100_000_000)));
    assert!(Amount::zero().is_zero());
    assert_eq!(b.saturating_minus(&a).to_u64(), Some(0));
}

#[test]
fn amount_beyond_machine_words() {
    let big = Amount::from_u64(u64::MAX).times(&Amount::from_u64(u64::MAX));
    assert_eq!(big.to_u64(), None);
    assert_eq!(big.div_floor(&Amount::from_u64(u64::MAX)).to_u64(), Some(u64::MAX));
}

#[test]
fn amount_copies_are_equal() {
    let a = Amount::from_u64(123_456_789);
    assert_eq!(a.clone(), a);
    assert_eq!(a.dup().to_u64(), Some(123_456_789));
    assert_eq!(Amount::min(a.clone(), Amount::from_u64(5)).to_u64(), Some(5));
    assert_eq!(a.times_u64(3).to_u64(), Some(370_370_367));
    assert_eq!(a.div_floor_u64(1_000).to_u64(), Some(123_456));
}
