//! SDK coin-string parsing: the accepted shapes and the rejected ones.
use cw_module_sim::denom::{coin_from_sdk_string_coreum, coin_from_sdk_string_factory};
use cw_module_sim::text::{dec_to_u128, u128_to_dec};

#[test]
fn parses_native_denom() {
    let coin = coin_from_sdk_string_factory("1000uosmo").unwrap();
    assert_eq!(coin.denom, "uosmo");
    assert_eq!(coin.amount, 1000u128);
}

#[test]
fn parses_ibc_denom() {
    let s = "1000IBC/27394FB092D2ECCD56123C74F36E4C1F926001CEADA9CA97EA622B25F41E5EB2";
    let coin = coin_from_sdk_string_factory(s).unwrap();
    assert_eq!(coin.denom, "IBC/27394FB092D2ECCD56123C74F36E4C1F926001CEADA9CA97EA622B25F41E5EB2");
    assert_eq!(coin.amount, 1000u128);
}

#[test]
fn rejects_short_ibc_hash() {
    let s = "1000IBC/27394FB092D2ECCD56123CA622B25F41E5EB2";
    let err = coin_from_sdk_string_factory(s).unwrap_err();
    assert_eq!(err.message(), "Invalid sdk string");
}

#[test]
fn rejects_bad_ibc_tag() {
    let s = "1000IB/27394FB092D2ECCD56123C74F36E4C1F926001CEADA9CA97EA622B25F41E5EB2";
    let err = coin_from_sdk_string_factory(s).unwrap_err();
    assert_eq!(err.message(), "Invalid sdk string");
}

#[test]
fn parses_factory_denom() {
    let coin = coin_from_sdk_string_factory("1000factory/sender/subdenom").unwrap();
    assert_eq!(coin.denom, "factory/sender/subdenom");
    assert_eq!(coin.amount, 1000u128);
}

#[test]
fn parses_factory_denom_with_digits() {
    let coin = coin_from_sdk_string_factory("1000factory/se1298der/subde192MAnom").unwrap();
    assert_eq!(coin.denom, "factory/se1298der/subde192MAnom");
    assert_eq!(coin.amount, 1000u128);
}

#[test]
fn rejects_misspelt_factory_prefix() {
    let err = coin_from_sdk_string_factory("1000factor/sender/subdenom").unwrap_err();
    assert_eq!(err.message(), "Invalid sdk string");
}

#[test]
fn rejects_factory_denom_with_extra_part() {
    let err = coin_from_sdk_string_factory("1000factory/sender/subdenom/extra").unwrap_err();
    assert_eq!(err.message(), "Invalid sdk string");
}

#[test]
fn coreum_variant_parses_pair_denom() {
    let coin = coin_from_sdk_string_coreum("100subdenom-sender").unwrap();
    assert_eq!(coin.denom, "subdenom-sender");
    assert_eq!(coin.amount, 100u128);
}

#[test]
fn factory_variant_rejects_pair_denom() {
    let err = coin_from_sdk_string_factory("100subdenom-sender").unwrap_err();
    assert_eq!(err.message(), "Invalid sdk string");
}

#[test]
fn leading_zeroes_stay_in_the_denom() {
    // The amount keeps only its canonical digits; what is left over from the
    // digit run becomes part of the denom.
    let coin = coin_from_sdk_string_factory("0100abc").unwrap();
    assert_eq!(coin.amount, 100u128);
    assert_eq!(coin.denom, "0abc");
}

#[test]
fn decimal_render_and_parse_round_trip() {
    assert_eq!(u128_to_dec(0), "0");
    assert_eq!(u128_to_dec(12345), "12345");
    assert_eq!(u128_to_dec(u128::MAX), "340282366920938463463374607431768211455");
    assert_eq!(dec_to_u128("0"), Some(0));
    assert_eq!(dec_to_u128("00042"), Some(42));
    assert_eq!(dec_to_u128(""), None);
    assert_eq!(dec_to_u128("12a"), None);
    assert_eq!(dec_to_u128("340282366920938463463374607431768211456"), None);
    assert_eq!(dec_to_u128(&u128_to_dec(987654321)), Some(987654321));
}
