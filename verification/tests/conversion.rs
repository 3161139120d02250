use psyoracleutils::convert::{convert_price_decimals, convert_switchboard_price};
use psyoracleutils::errors::ErrorCode;
use psyoracleutils::feed::Decimal;

#[test]
fn switchboard_scale_up() {
    let switchboard_decimal = Decimal::new(3_143, 3);
    let new_scale = 5;
    let expected = 314_300;

    let result = convert_switchboard_price(&switchboard_decimal, new_scale, false).unwrap();
    assert_eq!(result, expected);
}

#[test]
fn switchboard_scale_down() {
    let switchboard_decimal = Decimal::new(3_141_592_653_589, 12);
    let new_scale = 1;
    let expected = 31;

    let result = convert_switchboard_price(&switchboard_decimal, new_scale, false).unwrap();
    assert_eq!(result, expected);
}

#[test]
fn convert_price_decimals_down() {
    let starting_price = 3_143;
    let starting_decimals = 3;
    let desired_decimals = 1;
    let expected = 31;

    let result =
        convert_price_decimals(starting_price, starting_decimals, desired_decimals, false)
            .unwrap();
    assert_eq!(result, expected);
}

#[test]
fn convert_price_decimals_up() {
    let starting_price = 3_143;
    let starting_decimals = 3;
    let desired_decimals = 7;
    let expected = 31_430_000;

    let result =
        convert_price_decimals(starting_price, starting_decimals, desired_decimals, false)
            .unwrap();
    assert_eq!(result, expected);
}

#[test]
fn convert_price_decimals_round_down() {
    let starting_price = 3_143_567;
    let starting_decimals = 6;
    let desired_decimals = 3;
    let expected = 3_143;

    let result =
        convert_price_decimals(starting_price, starting_decimals, desired_decimals, false)
            .unwrap();
    assert_eq!(result, expected);
}

#[test]
fn convert_price_decimals_round_up() {
    let starting_price = 3_143_567;
    let starting_decimals = 6;
    let desired_decimals = 3;
    let expected = 3_144;

    let result = convert_price_decimals(starting_price, starting_decimals, desired_decimals, true)
        .unwrap();
    assert_eq!(result, expected);
}

#[test]
fn scale_up_then_down_returns_original() {
    let scaled = convert_price_decimals(3_143, 3, 7, false).unwrap();
    assert_eq!(scaled, 31_430_000);
    let back_down = convert_price_decimals(scaled as i128, 7, 3, false).unwrap();
    assert_eq!(back_down, 3_143);
    let back_up = convert_price_decimals(scaled as i128, 7, 3, true).unwrap();
    assert_eq!(back_up, 3_143);
}

#[test]
fn rounding_directions_differ_by_at_most_one() {
    let down = convert_price_decimals(3_143_567, 6, 3, false).unwrap();
    let up = convert_price_decimals(3_143_567, 6, 3, true).unwrap();
    assert!(down <= up);
    assert_eq!(up - down, 1);

    let exact_down = convert_price_decimals(3_143_000, 6, 3, false).unwrap();
    let exact_up = convert_price_decimals(3_143_000, 6, 3, true).unwrap();
    assert_eq!(exact_down, 3_143);
    assert_eq!(exact_up, 3_143);
}

#[test]
fn result_above_u64_range_is_overflow() {
    let too_big = u64::MAX as i128 + 1;
    assert_eq!(
        convert_price_decimals(too_big, 0, 0, false),
        Err(ErrorCode::OracleNumberOverflow)
    );
    assert_eq!(
        convert_price_decimals(2, 0, 38, false),
        Err(ErrorCode::OracleNumberOverflow)
    );
    assert_eq!(
        convert_price_decimals(1, 0, 39, false),
        Err(ErrorCode::OracleNumberOverflow)
    );
    assert_eq!(
        convert_price_decimals(u64::MAX as i128, 0, 0, false),
        Ok(u64::MAX)
    );
}

#[test]
fn negative_price_cannot_scale_up() {
    assert_eq!(
        convert_price_decimals(-1, 3, 3, false),
        Err(ErrorCode::OracleNumberOverflow)
    );
    assert_eq!(
        convert_price_decimals(-1, 3, 5, true),
        Err(ErrorCode::OracleNumberOverflow)
    );
}

#[test]
fn rounding_up_adds_a_unit_just_above_an_exact_multiple() {
    let down = convert_price_decimals(1_000_001, 6, 0, false).unwrap();
    let up = convert_price_decimals(1_000_001, 6, 0, true).unwrap();
    assert_eq!(down, 1);
    assert_eq!(up, 2);
}
