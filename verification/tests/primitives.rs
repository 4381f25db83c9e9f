use casper_node::primitives::{EraId, Gas, Motes, TimeDiff, Timestamp};

#[test]
fn era_successor_saturates() {
    assert_eq!(EraId(4).successor(), EraId(5));
    assert_eq!(EraId(u64::MAX).successor(), EraId(u64::MAX));
}

#[test]
fn motes_from_gas_is_the_product_or_nothing() {
    assert_eq!(Motes::from_gas(Gas(1_000), 3), Some(Motes(3_000)));
    assert_eq!(Motes::from_gas(Gas(u128::MAX), 2), None);
    assert_eq!(Motes::from_gas(Gas(u128::MAX), 1), Some(Motes(u128::MAX)));
}

#[test]
fn motes_saturating_sub_stops_at_zero() {
    assert_eq!(Motes(10).saturating_sub(Motes(3)), Motes(7));
    assert_eq!(Motes(3).saturating_sub(Motes(10)), Motes(0));
}

#[test]
fn timestamps_saturate() {
    assert_eq!(Timestamp(5).saturating_add(TimeDiff(7)), Timestamp(12));
    assert_eq!(Timestamp(u64::MAX).saturating_add(TimeDiff(7)), Timestamp(u64::MAX));
    assert_eq!(Timestamp(5).saturating_diff(Timestamp(7)), TimeDiff(0));
    assert_eq!(Timestamp(9).saturating_diff(Timestamp(7)), TimeDiff(2));
    assert_eq!(TimeDiff::from_seconds(90), TimeDiff(90_000));
}
