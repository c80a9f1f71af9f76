use solana_token_tracker::amount::power_of_ten;
use solana_token_tracker::{amount_to_decimals, Amount};

fn as_float(amount: &Amount) -> f64 {
    let base: f64 = 10.0;
    amount.raw as f64 / base.powf(amount.decimals as f64)
}

#[test]
pub fn test_amount_to_decimals() {
    let amount = 4983184141.0;
    let expected = 4.983184141;

    let converted = amount_to_decimals(amount as u64, 9);
    let actual = as_float(&converted);
    println!("expected {:?} actual {:?}", expected, actual);
    assert_eq!(expected, actual)
}

#[test]
fn amount_keeps_raw_value_and_decimals() {
    let converted = amount_to_decimals(4983184141, 9);
    assert_eq!(converted, Amount { raw: 4983184141, decimals: 9 });
}

#[test]
fn amount_splits_into_whole_and_fraction() {
    let converted = amount_to_decimals(4983184141, 9);
    assert_eq!(converted.whole(), 4);
    assert_eq!(converted.fraction(), 983184141);
}

#[test]
fn amount_parts_rebuild_the_raw_value() {
    for (raw, decimals) in [(0u64, 0u32), (1, 1), (999, 3), (1000, 3), (123456789, 6), (u64::MAX, 7)] {
        let converted = amount_to_decimals(raw, decimals);
        let scale = power_of_ten(decimals).unwrap();
        assert_eq!(converted.whole() * scale + converted.fraction(), raw);
        assert!(converted.fraction() < scale);
    }
}

#[test]
fn amount_without_decimals_is_whole() {
    let converted = amount_to_decimals(42, 0);
    assert_eq!(converted.whole(), 42);
    assert_eq!(converted.fraction(), 0);
    assert_eq!(as_float(&converted), 42.0);
}

#[test]
fn amount_below_one_unit_has_no_whole_part() {
    let converted = amount_to_decimals(5, 3);
    assert_eq!(converted.whole(), 0);
    assert_eq!(converted.fraction(), 5);
    assert_eq!(as_float(&converted), 0.005);
}

#[test]
fn amount_with_largest_scale_that_fits() {
    let converted = amount_to_decimals(u64::MAX, 19);
    assert_eq!(converted.whole(), 1);
    assert_eq!(converted.fraction(), 8446744073709551615);
}

#[test]
fn amount_with_scale_beyond_64_bits() {
    let converted = amount_to_decimals(u64::MAX, 20);
    assert_eq!(converted.whole(), 0);
    assert_eq!(converted.fraction(), u64::MAX);
    let converted = amount_to_decimals(7, u32::MAX);
    assert_eq!(converted.whole(), 0);
    assert_eq!(converted.fraction(), 7);
}

#[test]
fn power_of_ten_where_it_fits() {
    assert_eq!(power_of_ten(0), Some(1));
    assert_eq!(power_of_ten(1), Some(10));
    assert_eq!(power_of_ten(9), Some(1_000_000_000));
    assert_eq!(power_of_ten(19), Some(10_000_000_000_000_000_000));
    assert_eq!(power_of_ten(20), None);
    assert_eq!(power_of_ten(u32::MAX), None);
}
