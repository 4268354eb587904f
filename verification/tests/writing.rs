use swap_offer::asset::{parse_contract_id, write_asset, AssetError, ContractId};
use swap_offer::decimal::{parse_u64, write_u64};
use swap_offer::error::ParseError;
use swap_offer::hex::{hex_str_to_vec, write_hex, PaymentHash};
use swap_offer::offer::{Layout, Offer};
use swap_offer::priced::{Direction, PricedSwapString};
use swap_offer::swap::{Swap, SwapString};

const ID: &str = "rgb:pkXwpsb-aemTWhtSg-VDGF25hEi-jtTAnPjzh-B63ZwSehE-WvfhF9";
const HASH: &str = "aaaaaaaaaaaaaaaaaaaaaaaaaaaaaaaaaaaaaaaaaaaaaaaaaaaaaaaaaaaaaaaa";

#[test]
fn numbers_are_written_as_shortest_numerals() {
    assert_eq!(write_u64(0), "0");
    assert_eq!(write_u64(7), "7");
    assert_eq!(write_u64(10), "10");
    assert_eq!(write_u64(1905), "1905");
    assert_eq!(write_u64(u64::MAX), "18446744073709551615");
    for n in [0u64, 1, 9, 10, 99, 100, 12345678901234567890, u64::MAX] {
        assert_eq!(parse_u64(&write_u64(n)), Some(n));
    }
}

#[test]
fn bytes_are_written_in_lower_case_hexadecimal() {
    assert_eq!(write_hex(&[]), "");
    assert_eq!(write_hex(&[0x0a, 0xff, 0x00, 0x9b]), "0aff009b");
    assert_eq!(PaymentHash([0xaa; 32]).to_hex(), HASH);
    let all: Vec<u8> = (0..=255).collect();
    assert_eq!(hex_str_to_vec(&write_hex(&all)), Some(all));
}

#[test]
fn assets_are_written_as_the_codec_writes_them() {
    assert_eq!(write_asset(&None), "btc");
    assert_eq!(write_asset(&Some(ContractId([0x6c; 32]))), ID);
    assert_eq!(ContractId([0x6c; 32]).to_text(), ID);
    assert_eq!(
        ContractId([0x11; 32]).to_text(),
        rgbstd::contract::ContractId::from([0x11; 32]).to_string()
    );
}

#[test]
fn offer_is_written_field_by_field() {
    let offer = SwapString {
        swap: Swap { qty_from: 100, qty_to: 5000, from_asset: None, to_asset: Some(ContractId([0x6c; 32])) },
        expiry: 600,
        payment_hash: PaymentHash([0xaa; 32]),
    };
    assert_eq!(offer.to_text(), format!("100/btc/5000/{}/600/{}", ID, HASH));
}

#[test]
fn written_offer_reads_back() {
    let mut to = [0x42; 32];
    to[5] = 0;
    for offer in [
        SwapString {
            swap: Swap { qty_from: 1, qty_to: u64::MAX, from_asset: Some(ContractId([0x6c; 32])), to_asset: None },
            expiry: 1,
            payment_hash: PaymentHash([0x00; 32]),
        },
        SwapString {
            swap: Swap {
                qty_from: 1000000,
                qty_to: 3,
                from_asset: Some(ContractId([0xff; 32])),
                to_asset: Some(ContractId(to)),
            },
            expiry: 86400,
            payment_hash: PaymentHash([0x9f; 32]),
        },
    ] {
        assert_eq!(SwapString::from_str(&offer.to_text()), Ok(offer));
        assert!(offer.reads_back());
        assert!(offer.same_as(&offer));
        assert_eq!(offer.to_text().split('/').count(), 6);
    }
}

#[test]
fn offer_whose_identifier_text_the_codec_refuses_does_not_read_back() {
    let mut id = [0u8; 32];
    id[31] = 7;
    let offer = SwapString {
        swap: Swap { qty_from: 1, qty_to: 1, from_asset: Some(ContractId(id)), to_asset: None },
        expiry: 1,
        payment_hash: PaymentHash([0; 32]),
    };
    assert!(matches!(parse_contract_id(&ContractId(id).to_text()), Err(AssetError::Rejected(_))));
    assert_eq!(
        SwapString::from_str(&offer.to_text()),
        Err(ParseError::Unparsable { field: 1 })
    );
    assert!(!offer.reads_back());
    assert_eq!(offer.to_text().split('/').count(), 6);
}

#[test]
fn offers_are_compared_field_by_field() {
    let offer = SwapString {
        swap: Swap { qty_from: 1, qty_to: 2, from_asset: None, to_asset: Some(ContractId([1; 32])) },
        expiry: 3,
        payment_hash: PaymentHash([4; 32]),
    };
    let mut hash = [4; 32];
    hash[31] = 5;
    assert!(offer.same_as(&offer));
    assert!(!offer.same_as(&SwapString { expiry: 4, ..offer }));
    assert!(!offer.same_as(&SwapString { payment_hash: PaymentHash(hash), ..offer }));
    assert!(!offer.same_as(&SwapString { swap: Swap { qty_from: 2, ..offer.swap }, ..offer }));
    assert!(!offer.same_as(&SwapString { swap: Swap { qty_to: 1, ..offer.swap }, ..offer }));
    assert!(!offer.same_as(&SwapString { swap: Swap { to_asset: None, ..offer.swap }, ..offer }));
    assert!(PaymentHash([4; 32]).same_as(&PaymentHash([4; 32])));
    assert!(!PaymentHash([4; 32]).same_as(&PaymentHash(hash)));
}

#[test]
fn zero_offer_written_by_hand_does_not_read_back() {
    let offer = SwapString {
        swap: Swap { qty_from: 0, qty_to: 2, from_asset: None, to_asset: Some(ContractId([0x6c; 32])) },
        expiry: 3,
        payment_hash: PaymentHash([4; 32]),
    };
    assert!(!offer.reads_back());
}

#[test]
fn offers_parse_through_the_standard_trait() {
    let text = format!("100/btc/5000/{}/600/{}", ID, HASH);
    let parsed: SwapString = text.parse().unwrap();
    assert_eq!(Ok(parsed), SwapString::from_str(&text));
    let text = format!("100/{}/sell/5/600/{}", ID, HASH);
    let parsed: PricedSwapString = text.parse().unwrap();
    assert_eq!(Ok(parsed), PricedSwapString::from_str(&text));
    assert_eq!("x".parse::<SwapString>(), Err(ParseError::WrongFieldCount));
    assert_eq!("x".parse::<PricedSwapString>(), Err(ParseError::WrongFieldCount));
}

#[test]
fn one_text_read_in_either_layout() {
    let two_sided = format!("100/btc/5000/{}/600/{}", ID, HASH);
    let priced = format!("100/{}/buy/5/600/{}", ID, HASH);
    let a = Offer::parse(Layout::TwoSided, &two_sided).unwrap();
    assert_eq!(a, Offer::TwoSided(SwapString::from_str(&two_sided).unwrap()));
    assert_eq!(a.layout(), Layout::TwoSided);
    assert_eq!(a.expiry(), 600);
    assert_eq!(a.payment_hash(), PaymentHash([0xaa; 32]));
    let b = Offer::parse(Layout::Priced, &priced).unwrap();
    assert_eq!(b.layout(), Layout::Priced);
    assert_eq!(b.expiry(), 600);
    assert_eq!(b.payment_hash(), PaymentHash([0xaa; 32]));
    match b {
        Offer::Priced(offer) => assert_eq!(
            offer.swap.direction,
            Direction::Buy { asset_amount: 100, amount_in_base_units: 500 }
        ),
        Offer::TwoSided(_) => panic!("wrong layout"),
    }
    assert_eq!(Offer::parse(Layout::Priced, &two_sided), Err(ParseError::Unparsable { field: 1 }));
    assert_eq!(Offer::parse(Layout::TwoSided, &priced), Err(ParseError::Unparsable { field: 2 }));
    assert_eq!(Offer::parse(Layout::TwoSided, ""), Err(ParseError::WrongFieldCount));
}
