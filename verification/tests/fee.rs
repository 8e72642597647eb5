use starkli::fee::{
    apply_fee_buffer, checked_fee_buffer, fee_buffer_fits, fee_multiplier, ConflictingFeeOptions,
    FeeSetting,
};
use starkli::felt::Felt;

#[test]
fn the_multiplier_goes_by_the_kind_of_provider() {
    assert_eq!(fee_multiplier(true), (Felt::from_u64(5), Felt::from_u64(2)));
    assert_eq!(fee_multiplier(false), (Felt::from_u64(3), Felt::from_u64(2)));
}

#[test]
fn an_estimate_is_raised_to_five_halves_with_a_json_rpc_provider() {
    assert_eq!(apply_fee_buffer(&Felt::from_u64(1000), true), Felt::from_u64(2500));
    assert_eq!(apply_fee_buffer(&Felt::from_u64(1001), true), Felt::from_u64(2502));
    assert_eq!(apply_fee_buffer(&Felt::from_u64(1), true), Felt::from_u64(2));
    assert_eq!(apply_fee_buffer(&Felt::from_u64(0), true), Felt::from_u64(0));
}

#[test]
fn an_estimate_is_raised_to_three_halves_with_another_provider() {
    assert_eq!(apply_fee_buffer(&Felt::from_u64(1000), false), Felt::from_u64(1500));
    assert_eq!(apply_fee_buffer(&Felt::from_u64(1001), false), Felt::from_u64(1501));
    assert_eq!(apply_fee_buffer(&Felt::from_u64(1), false), Felt::from_u64(1));
    assert_eq!(apply_fee_buffer(&Felt::from_u64(0), false), Felt::from_u64(0));
}

#[test]
fn an_estimate_above_a_u64_is_raised_exactly() {
    // 2^64 * 2^8 = 2^72; times 5 / 2 is 5 * 2^71, times 3 / 2 is 3 * 2^71
    let mut bytes = [0u8; 32];
    bytes[22] = 1;
    let estimate = Felt::from_bytes_be(&bytes).unwrap();
    let mut five = [0u8; 32];
    five[22] = 2;
    five[23] = 0x80;
    assert_eq!(apply_fee_buffer(&estimate, true), Felt::from_bytes_be(&five).unwrap());
    let mut three = [0u8; 32];
    three[22] = 1;
    three[23] = 0x80;
    assert_eq!(apply_fee_buffer(&estimate, false), Felt::from_bytes_be(&three).unwrap());
}

fn power_of_two(exponent: usize) -> Felt {
    let mut bytes = [0u8; 32];
    bytes[31 - exponent / 8] = 1 << (exponent % 8);
    Felt::from_bytes_be(&bytes).unwrap()
}

fn hex(text: &str) -> Felt {
    let mut bytes = [0u8; 32];
    for (i, b) in bytes.iter_mut().enumerate() {
        *b = u8::from_str_radix(&text[2 * i..2 * i + 2], 16).unwrap();
    }
    Felt::from_bytes_be(&bytes).unwrap()
}

#[test]
fn the_fee_is_the_quotient_of_the_numbers_not_of_the_field() {
    assert_eq!(apply_fee_buffer(&Felt::from_u64(3), true), Felt::from_u64(7));
    assert_eq!(apply_fee_buffer(&Felt::from_u64(3), false), Felt::from_u64(4));
    // 2^249 * 5 is above the prime, but 2^249 * 5 / 2 = 5 * 2^248 is below it
    let fee = checked_fee_buffer(&power_of_two(249), true).expect("the fee is below the prime");
    assert_eq!(fee, power_of_two(248).mul(&Felt::from_u64(5)));
    assert_eq!(
        fee.to_hex_string(),
        "0x0500000000000000000000000000000000000000000000000000000000000000"
    );
    // 2^250 * 3 is above the prime, but 2^250 * 3 / 2 = 3 * 2^249 is below it
    let fee = checked_fee_buffer(&power_of_two(250), false).expect("the fee is below the prime");
    assert_eq!(
        fee.to_hex_string(),
        "0x0600000000000000000000000000000000000000000000000000000000000000"
    );
}

#[test]
fn a_fee_at_or_above_the_prime_is_refused() {
    // the prime is 0x0800000000000011 00..00 01; the largest estimate whose fee fits is
    // floor((2p - 1) / 5) with the numerator 5 and floor((2p - 1) / 3) with 3
    let largest_5 = hex("033333333333333a000000000000000000000000000000000000000000000000");
    let next_5 = hex("033333333333333a000000000000000000000000000000000000000000000001");
    let largest_3 = hex("0555555555555560aaaaaaaaaaaaaaaaaaaaaaaaaaaaaaaaaaaaaaaaaaaaaaab");
    let next_3 = hex("0555555555555560aaaaaaaaaaaaaaaaaaaaaaaaaaaaaaaaaaaaaaaaaaaaaaac");
    let largest_fee = "0x0800000000000011000000000000000000000000000000000000000000000000";
    assert!(fee_buffer_fits(&largest_5, true));
    assert_eq!(apply_fee_buffer(&largest_5, true).to_hex_string(), largest_fee);
    assert!(!fee_buffer_fits(&next_5, true));
    assert!(checked_fee_buffer(&next_5, true).is_none());
    assert!(fee_buffer_fits(&next_5, false));
    assert!(fee_buffer_fits(&largest_3, false));
    assert_eq!(apply_fee_buffer(&largest_3, false).to_hex_string(), largest_fee);
    assert!(!fee_buffer_fits(&next_3, false));
    assert!(checked_fee_buffer(&next_3, false).is_none());
    let mut top = [0u8; 32];
    top[0] = 0x08;
    top[7] = 0x11;
    let top = Felt::from_bytes_be(&top).unwrap();
    assert!(!fee_buffer_fits(&top, true));
    assert!(!fee_buffer_fits(&top, false));
    assert!(checked_fee_buffer(&top, false).is_none());
    assert!(!fee_buffer_fits(&power_of_two(251), false));
    assert!(fee_buffer_fits(&power_of_two(250), false));
    assert!(!fee_buffer_fits(&power_of_two(250), true));
}

#[test]
fn the_fee_is_never_below_the_estimate() {
    for exponent in [0usize, 1, 7, 8, 63, 64, 128, 200, 249] {
        let estimate = power_of_two(exponent);
        for rpc in [true, false] {
            let fee = checked_fee_buffer(&estimate, rpc).expect("the fee is below the prime");
            assert!(estimate.le(&fee));
        }
    }
}

#[test]
fn only_one_setting_is_an_estimate_only() {
    assert!(FeeSetting::EstimateOnly.is_estimate_only());
    assert!(!FeeSetting::Automatic.is_estimate_only());
    assert!(!FeeSetting::Manual(Felt::from_u64(1)).is_estimate_only());
}

#[test]
fn the_setting_follows_the_options() {
    assert_eq!(
        FeeSetting::from_options(Some(Felt::from_u64(1000)), false),
        Ok(FeeSetting::Manual(Felt::from_u64(1000)))
    );
    assert_eq!(FeeSetting::from_options(None, true), Ok(FeeSetting::EstimateOnly));
    assert_eq!(FeeSetting::from_options(None, false), Ok(FeeSetting::Automatic));
    assert_eq!(
        FeeSetting::from_options(Some(Felt::from_u64(1000)), true),
        Err(ConflictingFeeOptions)
    );
}
