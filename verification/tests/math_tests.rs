use dex::io::Error;
use dex::math::{
    calculate_in_amount, calculate_out_amount, perform_precalculate_check,
    quote_reserve_unchecked, quote_unchecked,
};

#[test]
fn quote() {
    assert_eq!(quote_unchecked(5000, (10000, 10000)), Ok(5000));
    assert_eq!(quote_unchecked(1234, (54321, 12345)), Ok(280));
}

#[test]
fn calculate_oa() {
    assert_eq!(
        calculate_out_amount(0, (0, 1)),
        Err(Error::InsufficientLiquidity)
    );
    assert_eq!(
        calculate_out_amount(0, (1, 0)),
        Err(Error::InsufficientLiquidity)
    );
    assert_eq!(
        calculate_out_amount(0, (1, 1)),
        Err(Error::InsufficientAmount)
    );

    assert_eq!(
        calculate_out_amount(u128::MAX, (1, u128::MAX)),
        Err(Error::Overflow)
    );

    // (10000 * 997) * 10000 // (10000 * 1000 + (10000 * 997))
    assert_eq!(calculate_out_amount(10000, (10000, 10000)), Ok(4992));
    // (1234 * 997) * 54321 // (12345 * 1000 + (1234 * 997))
    assert_eq!(calculate_out_amount(1234, (12345, 54321)), Ok(4922));
}

#[test]
fn calculate_ia() {
    assert_eq!(
        calculate_in_amount(0, (0, 1)),
        Err(Error::InsufficientLiquidity)
    );
    assert_eq!(
        calculate_in_amount(0, (1, 0)),
        Err(Error::InsufficientLiquidity)
    );
    assert_eq!(
        calculate_in_amount(0, (1, 1)),
        Err(Error::InsufficientAmount)
    );

    assert_eq!(
        calculate_in_amount(u128::MAX, (u128::MAX, 1)),
        Err(Error::Overflow)
    );
    // reserve.1 - out_amount == 0
    assert_eq!(calculate_in_amount(12345, (1, 12345)), Err(Error::Overflow));
    assert_eq!(
        calculate_in_amount(u128::MAX / 100 - 1, (u128::MAX / 100, u128::MAX / 100)),
        Err(Error::Overflow)
    );

    // 5000 * 10000 * 1000 // ((10000 - 5000) * 997) + 1
    assert_eq!(calculate_in_amount(5000, (10000, 10000)), Ok(10031));
    // 1234 * 12345 * 1000 // ((54321 - 1234) * 997) + 1
    assert_eq!(calculate_in_amount(1234, (12345, 54321)), Ok(288));
}

#[test]
fn quote_checks_inputs() {
    assert_eq!(dex::math::quote(0, (10000, 10000)), Err(Error::InsufficientAmount));
    assert_eq!(dex::math::quote(5, (0, 10000)), Err(Error::InsufficientLiquidity));
    assert_eq!(dex::math::quote(5, (10000, 0)), Err(Error::InsufficientLiquidity));
    assert_eq!(dex::math::quote(5000, (10000, 10000)), Ok(5000));
    assert_eq!(dex::math::quote(1234, (54321, 12345)), Ok(280));
    // The proportional amount of the maximal input exceeds 128 bits.
    assert_eq!(dex::math::quote(u128::MAX, (1, 2)), Err(Error::Overflow));
}

#[test]
fn quote_reserve_unchecked_rejects_zero_amount() {
    assert_eq!(
        quote_reserve_unchecked(0, (10000, 10000)),
        Err(Error::InsufficientAmount)
    );
    assert_eq!(quote_reserve_unchecked(5000, (10000, 10000)), Ok(5000));
}

#[test]
fn precalculate_check_order() {
    // Zero reserves win over a zero amount.
    assert_eq!(
        perform_precalculate_check(0, (0, 0)),
        Err(Error::InsufficientLiquidity)
    );
    assert_eq!(
        perform_precalculate_check(0, (1, 1)),
        Err(Error::InsufficientAmount)
    );
    assert_eq!(perform_precalculate_check(1, (1, 1)), Ok(()));
}

#[test]
fn round_trip_exact_out_covers_output() {
    // Paying the quoted input yields at least the desired output.
    let reserve = (10000u128, 10000u128);
    let in_amt = calculate_in_amount(500, reserve).unwrap();
    assert_eq!(in_amt, 528);
    let back = calculate_out_amount(in_amt, reserve).unwrap();
    assert!(back >= 500);
}

#[test]
fn round_trip_exact_in_detects_overpayment() {
    // 10000 overpays for its own output: one token less buys the same 4992,
    // so quoting the input for that output comes back below 10000.
    let reserve = (10000u128, 10000u128);
    assert_eq!(calculate_out_amount(10000, reserve), Ok(4992));
    assert_eq!(calculate_out_amount(9999, reserve), Ok(4992));
    assert_eq!(calculate_in_amount(4992, reserve), Ok(9999));
}
