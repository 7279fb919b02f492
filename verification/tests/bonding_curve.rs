use gravitas::bonding_curve::BondingCurve;

#[test]
fn price_starts_at_base() {
    assert_eq!(BondingCurve::get_price(0), 100);
    assert_eq!(BondingCurve::get_price(1), 100);
}

#[test]
fn price_steps_up_with_supply() {
    // One full step: supply * 10 / 1_000_000 reaches 1 at supply 100_000.
    assert_eq!(BondingCurve::get_price(99_999), 100);
    assert_eq!(BondingCurve::get_price(100_000), 200);
    // Ten steps at a million shares issued.
    assert_eq!(BondingCurve::get_price(1_000_000), 1_100);
}

#[test]
fn price_is_non_decreasing_on_samples() {
    let samples: Vec<u64> = vec![0, 1, 10, 99_999, 100_000, 1_000_000, 10_000_000, u64::MAX];
    for pair in samples.windows(2) {
        assert!(BondingCurve::get_price(pair[0]) <= BondingCurve::get_price(pair[1]));
    }
}

#[test]
fn price_saturates_instead_of_wrapping() {
    // supply * 10 overflows, so the factor clamps to u64::MAX / 1_000_000.
    assert_eq!(BondingCurve::get_price(u64::MAX), 1_844_674_407_371_000);
}

#[test]
fn buy_price_matches_trapezoid() {
    // price(1) = 100 and price(11) = 100, so (100 + 100) * 10 / 2 = 1000.
    assert_eq!(BondingCurve::get_buy_price(1, 10), 1_000);
    // Across a step: price(99_995) = 100, price(100_005) = 200.
    assert_eq!(BondingCurve::get_buy_price(99_995, 10), 1_500);
}

#[test]
fn buy_price_strictly_increases_in_amount() {
    assert!(BondingCurve::get_buy_price(1, 10) < BondingCurve::get_buy_price(1, 11));
    assert!(BondingCurve::get_buy_price(0, 1) < BondingCurve::get_buy_price(0, 2));
}

#[test]
fn buy_price_clamps_at_the_ceiling() {
    assert_eq!(BondingCurve::get_buy_price(u64::MAX, u64::MAX), u64::MAX);
}

#[test]
fn sell_price_matches_trapezoid() {
    // price(1) = 100 and price(11) = 100, so (100 + 100) * 10 / 2 = 1000.
    assert_eq!(BondingCurve::get_sell_price(11, 10), 1_000);
    // Selling everything evaluates the curve down to supply zero.
    assert_eq!(BondingCurve::get_sell_price(11, 11), 1_100);
}

#[test]
fn round_trip_base_values_match() {
    // Selling a block straight back is priced over the same range as the
    // buy, so base proceeds equal base cost.
    let supply: u64 = 42;
    let amount: u64 = 1_000;
    assert_eq!(
        BondingCurve::get_sell_price(supply + amount, amount),
        BondingCurve::get_buy_price(supply, amount)
    );
}
