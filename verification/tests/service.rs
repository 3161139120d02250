use psyoracleutils::errors::ErrorCode;
use psyoracleutils::feed::{
    pyth_owner, resolve_oracle_owner, switchboard_owner, Decimal, FeedContent, FeedHandle,
    OracleProvider, RawPrice, SwitchboardReading, PRICE_DECIMALS,
};
use psyoracleutils::service::{get_oracle_price, validate_and_get_oracle_id, validate_oracle};

const NOW: i64 = 1_700_000_000;

fn pyth_feed(spot: RawPrice, smoothed: RawPrice) -> FeedHandle {
    FeedHandle { owner: pyth_owner(), content: FeedContent::Pyth { spot, smoothed } }
}

fn switchboard_feed(result: Option<SwitchboardReading>) -> FeedHandle {
    FeedHandle { owner: switchboard_owner(), content: FeedContent::Switchboard { result } }
}

fn good_pyth_feed() -> FeedHandle {
    let spot = RawPrice {
        mantissa: 314_300_000_000,
        exponent: -8,
        confidence: 50,
        publish_time: NOW - 5,
    };
    let smoothed = RawPrice {
        mantissa: 314_000_000_000,
        exponent: -8,
        confidence: 40,
        publish_time: NOW - 5,
    };
    pyth_feed(spot, smoothed)
}

fn good_switchboard_feed() -> FeedHandle {
    switchboard_feed(Some(SwitchboardReading {
        value: Decimal::new(3_143, 3),
        std_deviation: Decimal::new(1, 3),
        publish_time: NOW - 5,
    }))
}

#[test]
fn pyth_price_is_validated_and_rescaled() {
    let feed = good_pyth_feed();
    let price = get_oracle_price(&feed, 5, NOW, Some(u32::MAX / 20), None, 30, false);
    assert_eq!(price, Ok(314_300_000));
}

#[test]
fn switchboard_price_is_validated_and_rescaled() {
    let feed = good_switchboard_feed();
    let bound = Decimal::new(5, 1);
    let price = get_oracle_price(&feed, 5, NOW, None, Some(bound), 30, false);
    assert_eq!(price, Ok(314_300));
}

#[test]
fn missing_pyth_bound_is_a_contract_violation() {
    let feed = good_pyth_feed();
    let price = get_oracle_price(&feed, PRICE_DECIMALS, NOW, None, Some(Decimal::new(5, 1)), 30, true);
    assert_eq!(price, Err(ErrorCode::MissingValidationParameter));
}

#[test]
fn missing_switchboard_bound_is_a_contract_violation() {
    let feed = good_switchboard_feed();
    let price = get_oracle_price(&feed, PRICE_DECIMALS, NOW, Some(u32::MAX), None, 30, true);
    assert_eq!(price, Err(ErrorCode::MissingValidationParameter));
}

#[test]
fn unknown_owner_is_rejected() {
    let feed = FeedHandle { owner: [7u8; 32], content: FeedContent::Unreadable };
    let price = get_oracle_price(&feed, PRICE_DECIMALS, NOW, Some(u32::MAX), Some(Decimal::new(5, 1)), 30, false);
    assert_eq!(price, Err(ErrorCode::AccountMustBeOwnedByOracleProgram));
}

#[test]
fn switchboard_without_confirmed_round_counts_as_expired() {
    let feed = switchboard_feed(None);
    let price = get_oracle_price(&feed, PRICE_DECIMALS, NOW, None, Some(Decimal::new(5, 1)), 30, false);
    assert_eq!(price, Err(ErrorCode::OraclePriceExpired));
}

#[test]
fn stale_feed_yields_no_price() {
    let spot = RawPrice { mantissa: 314_300_000_000, exponent: -8, confidence: 0, publish_time: NOW - 31 };
    let smoothed = RawPrice { mantissa: 314_000_000_000, exponent: -8, confidence: 0, publish_time: NOW - 31 };
    let feed = pyth_feed(spot, smoothed);
    let price = get_oracle_price(&feed, PRICE_DECIMALS, NOW, Some(u32::MAX), None, 30, false);
    assert_eq!(price, Err(ErrorCode::OraclePriceExpired));
}

#[test]
fn resolve_recognizes_both_oracle_programs() {
    assert_eq!(resolve_oracle_owner(&pyth_owner(), false), Ok(OracleProvider::PYTH));
    assert_eq!(resolve_oracle_owner(&switchboard_owner(), false), Ok(OracleProvider::SWITCHBOARD));
    assert_eq!(
        resolve_oracle_owner(&[0u8; 32], false),
        Err(ErrorCode::AccountMustBeOwnedByOracleProgram)
    );
}

#[test]
fn forced_local_resolution_bypasses_ownership() {
    assert_eq!(resolve_oracle_owner(&[0u8; 32], true), Ok(OracleProvider::PYTH));
    let feed = FeedHandle { owner: [0u8; 32], content: FeedContent::Unreadable };
    assert_eq!(validate_and_get_oracle_id(&feed, NOW, true), Ok(OracleProvider::PYTH));
    assert_eq!(validate_oracle(&feed, 1, NOW, true), Ok(()));
}

#[test]
fn identification_probes_the_reading() {
    assert_eq!(validate_and_get_oracle_id(&good_pyth_feed(), NOW, false), Ok(OracleProvider::PYTH));
    assert_eq!(
        validate_and_get_oracle_id(&good_switchboard_feed(), NOW, false),
        Ok(OracleProvider::SWITCHBOARD)
    );

    let bad_spot = RawPrice { mantissa: 0, exponent: -8, confidence: 0, publish_time: NOW };
    let smoothed = RawPrice { mantissa: 1, exponent: -8, confidence: 0, publish_time: NOW };
    let feed = pyth_feed(bad_spot, smoothed);
    assert_eq!(
        validate_and_get_oracle_id(&feed, NOW, false),
        Err(ErrorCode::PythPriceWasNoneOrNegative)
    );
}

#[test]
fn claimed_provider_must_own_the_feed() {
    assert_eq!(validate_oracle(&good_pyth_feed(), 0, NOW, false), Ok(()));
    assert_eq!(validate_oracle(&good_switchboard_feed(), 1, NOW, false), Ok(()));
    // An internal feed needs no oracle account at all.
    let internal = FeedHandle { owner: [9u8; 32], content: FeedContent::Unreadable };
    assert_eq!(validate_oracle(&internal, 2, NOW, false), Ok(()));
    // A feed owned by the wrong program fails the claim.
    assert_eq!(
        validate_oracle(&good_switchboard_feed(), 0, NOW, false),
        Err(ErrorCode::AccountMustBeOwnedByOracleProgram)
    );
    // A tag outside the closed provider set is rejected.
    assert_eq!(
        validate_oracle(&good_pyth_feed(), 3, NOW, false),
        Err(ErrorCode::AccountMustBeOwnedByOracleProgram)
    );
}

#[test]
fn provider_tags_round_trip() {
    assert_eq!(OracleProvider::from_u8(0), Ok(OracleProvider::PYTH));
    assert_eq!(OracleProvider::from_u8(1), Ok(OracleProvider::SWITCHBOARD));
    assert_eq!(OracleProvider::from_u8(2), Ok(OracleProvider::INTERNAL));
    assert_eq!(OracleProvider::from_u8(3), Err(ErrorCode::AccountMustBeOwnedByOracleProgram));
    for p in [OracleProvider::PYTH, OracleProvider::SWITCHBOARD, OracleProvider::INTERNAL] {
        assert_eq!(OracleProvider::from_u8(p.to_u8()), Ok(p));
    }
}

#[test]
fn rounding_direction_reaches_the_final_price() {
    // 3.143567 rescaled to three decimal places through the service.
    let feed = switchboard_feed(Some(SwitchboardReading {
        value: Decimal::new(3_143_567, 6),
        std_deviation: Decimal::new(0, 0),
        publish_time: NOW,
    }));
    let bound = Decimal::new(5, 1);
    let down = get_oracle_price(&feed, 3, NOW, None, Some(bound), 30, false);
    let up = get_oracle_price(&feed, 3, NOW, None, Some(bound), 30, true);
    assert_eq!(down, Ok(3_143));
    assert_eq!(up, Ok(3_144));
}
