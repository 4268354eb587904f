use swap_offer::asset::ContractId;
use swap_offer::error::{ErrorClass, ParseError};
use swap_offer::hex::PaymentHash;
use swap_offer::priced::{parse_side, Direction, PricedSwap, PricedSwapString, SwapType};

const ID: &str = "rgb:pkXwpsb-aemTWhtSg-VDGF25hEi-jtTAnPjzh-B63ZwSehE-WvfhF9";
const HASH: &str = "aaaaaaaaaaaaaaaaaaaaaaaaaaaaaaaaaaaaaaaaaaaaaaaaaaaaaaaaaaaaaaaa";

fn priced(fields: [&str; 6]) -> String {
    fields.join("/")
}

#[test]
fn buy_offer_parses() {
    let parsed = PricedSwapString::from_str(&priced(["100", ID, "buy", "5", "600", HASH])).unwrap();
    assert_eq!(
        parsed,
        PricedSwapString {
            swap: PricedSwap {
                contract_id: ContractId([0x6c; 32]),
                direction: Direction::Buy { asset_amount: 100, amount_in_base_units: 500 },
            },
            expiry: 600,
            payment_hash: PaymentHash([0xaa; 32]),
        }
    );
    assert_eq!(parsed.swap.direction.amount_in_base_units(), 500);
    assert_eq!(parsed.swap.direction.asset_quantity(), 100);
    assert_eq!(parsed.swap.direction.swap_type(), SwapType::Buy);
}

#[test]
fn sell_offer_parses() {
    let parsed = PricedSwapString::from_str(&priced(["3", ID, "sell", "7", "1", HASH])).unwrap();
    assert_eq!(
        parsed.swap.direction,
        Direction::Sell { asset_amount: 3, amount_in_base_units: 21 }
    );
}

#[test]
fn opposite_twice_is_the_direction() {
    for d in [
        Direction::Buy { asset_amount: 100, amount_in_base_units: 500 },
        Direction::Sell { asset_amount: 1, amount_in_base_units: u64::MAX },
        Direction::Buy { asset_amount: 0, amount_in_base_units: 0 },
    ] {
        assert_ne!(d.opposite(), d);
        assert_eq!(d.opposite().opposite(), d);
        assert_eq!(d.opposite().amount_in_base_units(), d.amount_in_base_units());
        assert_eq!(d.opposite().asset_quantity(), d.asset_quantity());
    }
    assert_eq!(
        Direction::Buy { asset_amount: 100, amount_in_base_units: 500 }.opposite(),
        Direction::Sell { asset_amount: 100, amount_in_base_units: 500 }
    );
}

#[test]
fn direction_is_built_from_its_type() {
    assert_eq!(
        Direction::new(SwapType::Sell, 2, 9),
        Direction::Sell { asset_amount: 2, amount_in_base_units: 9 }
    );
    assert_eq!(
        Direction::new(SwapType::Buy, 2, 9),
        Direction::Buy { asset_amount: 2, amount_in_base_units: 9 }
    );
}

#[test]
fn side_is_case_sensitive_and_untrimmed() {
    assert_eq!(parse_side("buy"), Some(SwapType::Buy));
    assert_eq!(parse_side("sell"), Some(SwapType::Sell));
    for bad in ["", "Buy", "BUY", "buy ", " sell", "sel", "sells", "0"] {
        assert_eq!(parse_side(bad), None);
        let err = PricedSwapString::from_str(&priced(["100", ID, bad, "5", "600", HASH])).unwrap_err();
        assert_eq!(err, ParseError::InvalidSwapType);
        assert_eq!(err.class(), ErrorClass::Syntax);
        assert_eq!(err.message(), "Invalid swap type");
    }
}

#[test]
fn side_is_checked_after_the_other_fields() {
    let err = PricedSwapString::from_str(&priced(["100", ID, "hold", "x", "600", HASH])).unwrap_err();
    assert_eq!(err, ParseError::Unparsable { field: 3 });
    let err = PricedSwapString::from_str(&priced(["100", ID, "hold", "5", "600", "aa"])).unwrap_err();
    assert_eq!(err, ParseError::Unparsable { field: 5 });
    let err = PricedSwapString::from_str(&priced(["100", ID, "hold", "0", "600", HASH])).unwrap_err();
    assert_eq!(err, ParseError::InvalidSwapType);
}

#[test]
fn zero_amount_price_or_expiry_is_refused() {
    for fields in [
        ["0", ID, "buy", "5", "600", HASH],
        ["100", ID, "buy", "0", "600", HASH],
        ["100", ID, "sell", "5", "0", HASH],
    ] {
        let err = PricedSwapString::from_str(&priced(fields)).unwrap_err();
        assert_eq!(err, ParseError::ZeroAmount);
    }
}

#[test]
fn native_currency_is_no_contract_identifier() {
    let err = PricedSwapString::from_str(&priced(["100", "btc", "buy", "5", "600", HASH])).unwrap_err();
    assert_eq!(err, ParseError::Unparsable { field: 1 });
    let err = PricedSwapString::from_str(&priced(["100", "btc", "0", "btc", "600", HASH])).unwrap_err();
    assert_eq!(err, ParseError::Unparsable { field: 1 });
}

#[test]
fn product_beyond_64_bits_is_refused() {
    let err = PricedSwapString::from_str(&priced(["4294967296", ID, "buy", "4294967296", "600", HASH]))
        .unwrap_err();
    assert_eq!(err, ParseError::AmountOverflow);
    assert_eq!(err.class(), ErrorClass::Domain);
    assert_eq!(err.message(), "Amount in base units should fit in 64 bits");
    let parsed =
        PricedSwapString::from_str(&priced(["4294967295", ID, "buy", "4294967297", "600", HASH])).unwrap();
    assert_eq!(parsed.swap.direction.amount_in_base_units(), u64::MAX);
}

#[test]
fn wrong_field_count_comes_first() {
    let err = PricedSwapString::from_str("100/buy/5").unwrap_err();
    assert_eq!(err, ParseError::WrongFieldCount);
    let err = PricedSwapString::from_str(&(priced(["100", ID, "buy", "5", "600", HASH]) + "/")).unwrap_err();
    assert_eq!(err, ParseError::WrongFieldCount);
}

#[test]
fn priced_from_decoded_orders_its_checks() {
    let id = Some(ContractId([1; 32]));
    let hash = Some(PaymentHash([0; 32]));
    assert_eq!(
        PricedSwapString::from_decoded(Some(1), id, None, None, Some(1), hash),
        Err(ParseError::Unparsable { field: 3 })
    );
    assert_eq!(
        PricedSwapString::from_decoded(Some(0), id, None, Some(1), Some(1), hash),
        Err(ParseError::InvalidSwapType)
    );
    assert_eq!(
        PricedSwapString::from_decoded(Some(0), id, Some(SwapType::Buy), Some(u64::MAX), Some(1), hash),
        Err(ParseError::ZeroAmount)
    );
    assert_eq!(
        PricedSwapString::from_decoded(Some(2), id, Some(SwapType::Buy), Some(u64::MAX), Some(1), hash),
        Err(ParseError::AmountOverflow)
    );
    assert_eq!(
        PricedSwapString::from_decoded(Some(2), id, Some(SwapType::Sell), Some(3), Some(1), hash),
        Ok(PricedSwapString {
            swap: PricedSwap {
                contract_id: ContractId([1; 32]),
                direction: Direction::Sell { asset_amount: 2, amount_in_base_units: 6 },
            },
            expiry: 1,
            payment_hash: PaymentHash([0; 32]),
        })
    );
}
