use swap_offer::asset::{
    has_decodable_shape, parse_contract_id, parse_opt_asset, reads_back, same_assets, AssetError,
    ContractId,
};
use swap_offer::decimal::parse_u64;
use swap_offer::fields::{field_bounds, split_six};
use swap_offer::hex::{hex_str_to_vec, parse_payment_hash, PaymentHash};
use swap_offer::text::{chars_of, count_in, find_first, same_text};

const ID: &str = "rgb:pkXwpsb-aemTWhtSg-VDGF25hEi-jtTAnPjzh-B63ZwSehE-WvfhF9";

#[test]
fn numerals() {
    assert_eq!(parse_u64("0"), Some(0));
    assert_eq!(parse_u64("42"), Some(42));
    assert_eq!(parse_u64("0000000000000000000000042"), Some(42));
    assert_eq!(parse_u64("18446744073709551615"), Some(u64::MAX));
    assert_eq!(parse_u64("18446744073709551616"), None);
    assert_eq!(parse_u64("18446744073709551620"), None);
    assert_eq!(parse_u64("184467440737095516150"), None);
    assert_eq!(parse_u64(""), None);
    assert_eq!(parse_u64("+1"), None);
    assert_eq!(parse_u64("-0"), None);
    assert_eq!(parse_u64("1_000"), None);
    assert_eq!(parse_u64("0x10"), None);
    assert_eq!(parse_u64("١٢"), None);
}

#[test]
fn hexadecimal_text() {
    assert_eq!(hex_str_to_vec(""), Some(vec![]));
    assert_eq!(hex_str_to_vec("00"), Some(vec![0]));
    assert_eq!(hex_str_to_vec("0a1B"), Some(vec![0x0a, 0x1b]));
    assert_eq!(hex_str_to_vec("ff10"), Some(vec![0xff, 0x10]));
    assert_eq!(hex_str_to_vec("f"), None);
    assert_eq!(hex_str_to_vec("abc"), None);
    assert_eq!(hex_str_to_vec("0g"), None);
    assert_eq!(hex_str_to_vec("0x"), None);
    assert_eq!(hex_str_to_vec(" 00"), None);
    assert_eq!(hex_str_to_vec("éé"), None);
}

#[test]
fn payment_hashes() {
    let text = "00".repeat(31) + "01";
    let mut bytes = [0u8; 32];
    bytes[31] = 1;
    assert_eq!(parse_payment_hash(&text), Some(PaymentHash(bytes)));
    assert_eq!(parse_payment_hash(&"00".repeat(31)), None);
    assert_eq!(parse_payment_hash(&"00".repeat(33)), None);
    assert_eq!(parse_payment_hash(&("0".repeat(63))), None);
    assert_eq!(parse_payment_hash(&("0".repeat(65))), None);
}

#[test]
fn field_splitting() {
    assert_eq!(field_bounds(""), vec![(0, 0)]);
    assert_eq!(field_bounds("abc"), vec![(0, 3)]);
    assert_eq!(field_bounds("a/bc/"), vec![(0, 1), (2, 4), (5, 5)]);
    assert_eq!(field_bounds("/"), vec![(0, 0), (1, 1)]);
    assert_eq!(field_bounds("é/ü"), vec![(0, 1), (2, 3)]);
    assert_eq!(split_six("a/b/c/d/e"), None);
    assert_eq!(split_six("a/b/c/d/e/f/g"), None);
    assert_eq!(split_six("a/éé//d/e/"), Some(vec!["a", "éé", "", "d", "e", ""]));
}

#[test]
fn text_helpers() {
    assert_eq!(chars_of("aé/"), vec!['a', 'é', '/']);
    assert!(same_text("btc", "btc"));
    assert!(!same_text("btc", "btC"));
    assert!(!same_text("btc", "btcc"));
    assert!(same_text("", ""));
    let chars = chars_of("ab:cd:e");
    assert_eq!(find_first(&chars, 0, 7, ':'), 2);
    assert_eq!(find_first(&chars, 3, 7, ':'), 5);
    assert_eq!(find_first(&chars, 3, 5, ':'), 5);
    assert_eq!(find_first(&chars, 0, 7, '#'), 7);
    assert_eq!(count_in(&chars, 0, 7, ':'), 2);
    assert_eq!(count_in(&chars, 3, 7, ':'), 1);
    assert_eq!(count_in(&chars, 0, 0, ':'), 0);
}

#[test]
fn contract_identifiers_decode_to_their_bytes() {
    assert_eq!(parse_contract_id(ID), Ok(ContractId([0x6c; 32])));
    assert_eq!(
        parse_contract_id("pkXwpsb-aemTWhtSg-VDGF25hEi-jtTAnPjzh-B63ZwSehE-WvfhF9"),
        Ok(ContractId([0x6c; 32]))
    );
    assert_eq!(parse_opt_asset(ID), Ok(Some(ContractId([0x6c; 32]))));
    assert_eq!(parse_opt_asset("btc"), Ok(None));
    assert!(matches!(parse_contract_id("btc"), Err(AssetError::Rejected(_))));
}

#[test]
fn contract_identifiers_written_by_the_codec_decode_back() {
    for seed in [1u8, 0x6c, 0xff] {
        let mut bytes = [seed; 32];
        bytes[31] = seed.wrapping_add(7);
        let text = rgbstd::contract::ContractId::from(bytes).to_string();
        assert!(has_decodable_shape(&text));
        assert_eq!(parse_contract_id(&text), Ok(ContractId(bytes)));
        let with_mnemonic = format!("{:#}", rgbstd::contract::ContractId::from(bytes));
        assert_eq!(parse_contract_id(&with_mnemonic), Ok(ContractId(bytes)));
    }
}

#[test]
fn short_text_of_an_identifier_with_leading_zeros_is_refused_by_the_codec() {
    let mut bytes = [0u8; 32];
    bytes[31] = 7;
    let text = rgbstd::contract::ContractId::from(bytes).to_string();
    assert!(has_decodable_shape(&text));
    assert!(matches!(parse_contract_id(&text), Err(AssetError::Rejected(_))));
}

#[test]
fn refused_identifiers_keep_the_codec_reason() {
    let wrong_chunks = "rgb:pkXwpsb-aemTWhtSg-VDGF25hEi-jtTAnPjzh-B63ZwSeh-EWvfhF9";
    match parse_contract_id(wrong_chunks) {
        Err(AssetError::Rejected(reason)) => {
            assert!(!reason.to_string().is_empty());
        }
        other => panic!("unexpected outcome {:?}", other),
    }
    assert_eq!(
        ContractId::from_decoding(Err(baid58::Baid58ParseError::InvalidChunking)),
        Err(AssetError::Rejected(baid58::Baid58ParseError::InvalidChunking))
    );
    assert_eq!(ContractId::from_decoding(Ok([9; 32])), Ok(ContractId([9; 32])));
}

#[test]
fn texts_the_decoder_cannot_take_are_malformed() {
    let long_run = "rgb:".to_string() + &"1".repeat(200);
    let one_too_many = "1".repeat(133);
    for bad in ["a-b-c-d-e-f", "-----", "rgb:-----", "éé:x", "rgbépkXwpsb", long_run.as_str(), one_too_many.as_str(), "x:-----:"] {
        assert!(!has_decodable_shape(bad));
        assert_eq!(parse_contract_id(bad), Err(AssetError::Malformed));
        assert_eq!(parse_opt_asset(bad), Err(AssetError::Malformed));
    }
}

#[test]
fn runs_of_value_characters_may_be_as_long_as_the_decoder_s_buffer() {
    for run in [0usize, 1, 32, 33, 131, 132] {
        let ones = "1".repeat(run);
        assert!(has_decodable_shape(&ones));
        assert!(matches!(parse_contract_id(&ones), Err(AssetError::Rejected(_))));
        let behind_prefix = "rgb:".to_string() + &ones;
        assert!(has_decodable_shape(&behind_prefix));
        let digits = "z".repeat(run);
        assert!(has_decodable_shape(&digits));
        assert!(matches!(parse_contract_id(&digits), Err(AssetError::Rejected(_))));
    }
    for run in [133usize, 134, 500] {
        assert!(!has_decodable_shape(&"1".repeat(run)));
        assert!(!has_decodable_shape(&("rgb:".to_string() + &"z".repeat(run))));
        assert!(!has_decodable_shape(&("rgb:pkX#".to_string() + &"z".repeat(run))));
    }
    let many_short_runs = "abcdefgh:".repeat(100);
    assert!(has_decodable_shape(&many_short_runs));
    assert!(matches!(parse_contract_id(&many_short_runs), Err(AssetError::Rejected(_))));
    let zero_separates = "1".repeat(100) + "0" + &"1".repeat(100);
    assert!(has_decodable_shape(&zero_separates));
    assert!(matches!(parse_contract_id(&zero_separates), Err(AssetError::Rejected(_))));
}

#[test]
fn long_text_with_repeated_separators_is_read() {
    let plain = "pkXwpsbaemTWhtSgVDGF25hEijtTAnPjzhB63ZwSehEWvfhF9";
    let text = "rgb".to_string() + &":".repeat(126) + plain;
    assert_eq!(text.chars().count(), 178);
    assert!(has_decodable_shape(&text));
    assert_eq!(parse_contract_id(&text), Ok(ContractId([0x6c; 32])));
    assert_eq!(parse_opt_asset(&text), Ok(Some(ContractId([0x6c; 32]))));
    let longer = "rgb".to_string() + &":".repeat(5000) + plain;
    assert_eq!(parse_contract_id(&longer), Ok(ContractId([0x6c; 32])));
}

#[test]
fn runs_are_counted_across_the_dashes_of_a_chunked_text() {
    let chunks = "1234567-123456789-123456789-123456789-123456789-";
    let fits = chunks.to_string() + &"2".repeat(89);
    assert!(has_decodable_shape(&fits));
    assert!(matches!(parse_contract_id(&fits), Err(AssetError::Rejected(_))));
    let too_long = chunks.to_string() + &"2".repeat(90);
    assert!(!has_decodable_shape(&too_long));
    assert_eq!(parse_contract_id(&too_long), Err(AssetError::Malformed));
    let behind_suffix = chunks.to_string() + &"2".repeat(80) + "#" + &"3".repeat(100);
    assert!(has_decodable_shape(&behind_suffix));
    assert!(matches!(parse_contract_id(&behind_suffix), Err(AssetError::Rejected(_))));
    let before_the_colon = "22222222-22222222:".to_string() + chunks + &"2".repeat(80);
    assert!(has_decodable_shape(&before_the_colon));
    assert!(matches!(parse_contract_id(&before_the_colon), Err(AssetError::Rejected(_))));
    let before_the_colon_long = "22222222-22222222:".to_string() + chunks + &"2".repeat(89);
    assert!(has_decodable_shape(&before_the_colon_long));
    let six_dashes = "1234567-123456789-123456789-123456789-123456789-1-".to_string() + &"2".repeat(120);
    assert!(has_decodable_shape(&six_dashes));
    assert!(matches!(parse_contract_id(&six_dashes), Err(AssetError::Rejected(_))));
}

#[test]
fn odd_texts_within_the_decoder_s_reach_are_asked() {
    for text in ["", ":", "-", "----", "------", "a-b-c-d-e-f-g", "#-----", "-----:", "rgb:", "rgb-----pkXwpsbaemTWhtSgVDGF25hEijtTAnPjzhB63ZwSehEWvfhF9"] {
        assert!(has_decodable_shape(text));
        assert!(!matches!(parse_contract_id(text), Err(AssetError::Malformed)));
    }
    let early = "xxxxxxx-x";
    assert!(has_decodable_shape(early));
}

#[test]
fn probes_are_followed_one_by_one() {
    let seven = "1234567-1";
    assert!(has_decodable_shape(seven));
    let five_dashes_short = "1234567-1-1-1-1-1";
    assert!(!has_decodable_shape(five_dashes_short));
    let five_dashes_miss = "123456-8-1-1-1-1";
    assert!(has_decodable_shape(five_dashes_miss));
    let behind_suffix = "1234567-123456789-123456789-123456789-123456789-1#----";
    assert!(has_decodable_shape(behind_suffix));
    assert!(matches!(parse_contract_id(behind_suffix), Err(AssetError::Rejected(_))));
}

#[test]
fn same_assets_compares_by_bytes() {
    let a = Some(ContractId([3; 32]));
    let mut bytes = [3; 32];
    bytes[31] = 4;
    let b = Some(ContractId(bytes));
    assert!(same_assets(&a, &a));
    assert!(!same_assets(&a, &b));
    assert!(!same_assets(&a, &None));
    assert!(same_assets(&None, &None));
    assert!(ContractId([3; 32]).same_as(&ContractId([3; 32])));
    assert!(!ContractId([3; 32]).same_as(&ContractId(bytes)));
}

#[test]
fn assets_that_read_back_and_one_that_does_not() {
    assert!(reads_back(&None));
    assert!(reads_back(&Some(ContractId([0x6c; 32]))));
    assert!(reads_back(&Some(ContractId([0xff; 32]))));
    let mut bytes = [0u8; 32];
    bytes[31] = 7;
    assert!(!reads_back(&Some(ContractId(bytes))));
}
