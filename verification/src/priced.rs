//! The priced offer: a quantity of one ledger asset, bought or sold at a
//! unit price in base units of the native currency.
//!
//! Its text has six fields:
//! `amount/contract_id/side/price/expiry/payment_hash`, the side being
//! `buy` or `sell`.

use vstd::prelude::*;
use crate::asset::{decode_contract_id, parse_contract_id, ContractId};
use crate::decimal::{decode_u64, parse_u64};
use crate::error::ParseError;
use crate::fields::{fields_of, split_six, FIELD_COUNT};
use crate::hex::{decode_payment_hash, parse_payment_hash, PaymentHash};
use crate::swap::{amount_view, hash_view};
use crate::text::same_text;

verus! {

/// Whether the offering party buys the asset or sells it.
#[derive(Clone, Copy, Debug, PartialEq, Eq, Hash)]
pub enum SwapType {
    /// The offering party acquires the asset and pays the Lightning amount.
    Buy,
    /// The offering party gives up the asset and receives the Lightning
    /// amount.
    Sell,
}

/// A direction with the quantities that go with it: so many units of the
/// asset against so many base units of the native currency.
#[derive(Clone, Copy, Debug, PartialEq, Eq, Hash)]
pub enum Direction {
    Buy { asset_amount: u64, amount_in_base_units: u64 },
    Sell { asset_amount: u64, amount_in_base_units: u64 },
}

/// A priced swap of one ledger asset.
#[derive(Clone, Copy, Debug, PartialEq, Eq)]
pub struct PricedSwap {
    pub contract_id: ContractId,
    pub direction: Direction,
}

/// A priced offer as it is exchanged: the swap, the time bound and the hash
/// of the payment it belongs to.
#[derive(Clone, Copy, Debug, PartialEq, Eq)]
pub struct PricedSwapString {
    pub swap: PricedSwap,
    pub expiry: u64,
    pub payment_hash: PaymentHash,
}

/// What a `Direction` stands for.
pub struct DirectionView {
    pub swap_type: SwapType,
    pub asset_amount: nat,
    pub amount_in_base_units: nat,
}

/// What a `PricedSwapString` stands for.
pub struct PricedSwapStringView {
    pub contract_id: Seq<u8>,
    pub direction: DirectionView,
    pub expiry: nat,
    pub payment_hash: Seq<u8>,
}

impl SwapType {
    /// The other type.
    pub open spec fn flipped(self) -> SwapType {
        match self {
            SwapType::Buy => SwapType::Sell,
            SwapType::Sell => SwapType::Buy,
        }
    }
}

impl DirectionView {
    /// The same quantities seen from the counterparty: buy becomes sell and
    /// sell becomes buy.
    pub open spec fn opposite(self) -> DirectionView {
        DirectionView {
            swap_type: self.swap_type.flipped(),
            asset_amount: self.asset_amount,
            amount_in_base_units: self.amount_in_base_units,
        }
    }
}

impl PricedSwapStringView {
    /// An offer that the parser yields: positive quantities and expiry, and
    /// a hash of 32 bytes.
    pub open spec fn well_formed(self) -> bool {
        &&& self.direction.asset_amount > 0
        &&& self.direction.amount_in_base_units > 0
        &&& self.expiry > 0
        &&& self.contract_id.len() == 32
        &&& self.payment_hash.len() == 32
    }
}

impl View for Direction {
    type V = DirectionView;

    open spec fn view(&self) -> DirectionView {
        match *self {
            Direction::Buy { asset_amount, amount_in_base_units } => DirectionView {
                swap_type: SwapType::Buy,
                asset_amount: asset_amount as nat,
                amount_in_base_units: amount_in_base_units as nat,
            },
            Direction::Sell { asset_amount, amount_in_base_units } => DirectionView {
                swap_type: SwapType::Sell,
                asset_amount: asset_amount as nat,
                amount_in_base_units: amount_in_base_units as nat,
            },
        }
    }
}

impl View for PricedSwapString {
    type V = PricedSwapStringView;

    open spec fn view(&self) -> PricedSwapStringView {
        PricedSwapStringView {
            contract_id: self.swap.contract_id@,
            direction: self.swap.direction@,
            expiry: self.expiry as nat,
            payment_hash: self.payment_hash@,
        }
    }
}

/// The text of the side `buy`.
pub open spec fn buy_token() -> Seq<char> {
    seq!['b', 'u', 'y']
}

/// The text of the side `sell`.
pub open spec fn sell_token() -> Seq<char> {
    seq!['s', 'e', 'l', 'l']
}

/// What the side field decodes to: exactly `buy` and `sell` are sides.
pub open spec fn decode_side(text: Seq<char>) -> Option<SwapType> {
    if text == buy_token() {
        Some(SwapType::Buy)
    } else if text == sell_token() {
        Some(SwapType::Sell)
    } else {
        None
    }
}

/// The view of a contract-identifier field's reading.
pub open spec fn contract_id_view(id: Option<ContractId>) -> Option<Seq<u8>> {
    match id {
        Some(id) => Some(id@),
        None => None,
    }
}

/// The view of a parser's outcome.
pub open spec fn priced_outcome_view(outcome: Result<PricedSwapString, ParseError>) -> Result<
    PricedSwapStringView,
    ParseError,
> {
    match outcome {
        Ok(offer) => Ok(offer@),
        Err(e) => Err(e),
    }
}

/// The offer that six decoded fields make, or the reason why they make none.
/// The leftmost field other than the side that did not decode is reported;
/// then a side that is none; then a zero amount, price or expiry; then an
/// amount in base units, amount times price, beyond 64 bits.
pub open spec fn priced_swap_string_of(
    amount: Option<nat>,
    contract_id: Option<Seq<u8>>,
    side: Option<SwapType>,
    price: Option<nat>,
    expiry: Option<nat>,
    payment_hash: Option<Seq<u8>>,
) -> Result<PricedSwapStringView, ParseError> {
    if amount is None {
        Err(ParseError::Unparsable { field: 0 })
    } else if contract_id is None {
        Err(ParseError::Unparsable { field: 1 })
    } else if price is None {
        Err(ParseError::Unparsable { field: 3 })
    } else if expiry is None {
        Err(ParseError::Unparsable { field: 4 })
    } else if payment_hash is None {
        Err(ParseError::Unparsable { field: 5 })
    } else if side is None {
        Err(ParseError::InvalidSwapType)
    } else if amount->0 == 0 || price->0 == 0 || expiry->0 == 0 {
        Err(ParseError::ZeroAmount)
    } else if amount->0 * price->0 > u64::MAX {
        Err(ParseError::AmountOverflow)
    } else {
        Ok(
            PricedSwapStringView {
                contract_id: contract_id->0,
                direction: DirectionView {
                    swap_type: side->0,
                    asset_amount: amount->0,
                    amount_in_base_units: amount->0 * price->0,
                },
                expiry: expiry->0,
                payment_hash: payment_hash->0,
            },
        )
    }
}

/// What a text in the priced layout means: the offer it writes, or the
/// reason why it writes none.
pub open spec fn parse_priced_swap_string(s: Seq<char>) -> Result<PricedSwapStringView, ParseError> {
    let fields = fields_of(s);
    if fields.len() != FIELD_COUNT {
        Err(ParseError::WrongFieldCount)
    } else {
        priced_swap_string_of(
            decode_u64(fields[0]),
            decode_contract_id(fields[1]),
            decode_side(fields[2]),
            decode_u64(fields[3]),
            decode_u64(fields[4]),
            decode_payment_hash(fields[5]),
        )
    }
}

/// Reads the side field: `buy` or `sell`, letter for letter.
pub fn parse_side(text: &str) -> (r: Option<SwapType>)
    ensures
        r == decode_side(text@),
{
    proof {
        reveal_strlit("buy");
        reveal_strlit("sell");
        assert("buy"@ =~= buy_token());
        assert("sell"@ =~= sell_token());
    }
    if same_text(text, "buy") {
        Some(SwapType::Buy)
    } else if same_text(text, "sell") {
        Some(SwapType::Sell)
    } else {
        None
    }
}

impl Direction {
    /// A direction of the given type with the given quantities.
    pub fn new(swap_type: SwapType, asset_amount: u64, amount_in_base_units: u64) -> (d: Direction)
        ensures
            d@ == (DirectionView {
                swap_type,
                asset_amount: asset_amount as nat,
                amount_in_base_units: amount_in_base_units as nat,
            }),
    {
        match swap_type {
            SwapType::Buy => Direction::Buy { asset_amount, amount_in_base_units },
            SwapType::Sell => Direction::Sell { asset_amount, amount_in_base_units },
        }
    }

    /// The same quantities seen from the counterparty: buy becomes sell and
    /// sell becomes buy. Applied twice it gives the direction back.
    pub fn opposite(&self) -> (d: Direction)
        ensures
            d@ == self@.opposite(),
            d@.opposite() == self@,
    {
        match *self {
            Direction::Buy { asset_amount, amount_in_base_units } => Direction::Sell {
                asset_amount,
                amount_in_base_units,
            },
            Direction::Sell { asset_amount, amount_in_base_units } => Direction::Buy {
                asset_amount,
                amount_in_base_units,
            },
        }
    }

    /// Whether the offering party buys or sells.
    pub fn swap_type(&self) -> (t: SwapType)
        ensures
            t == self@.swap_type,
    {
        match *self {
            Direction::Buy { .. } => SwapType::Buy,
            Direction::Sell { .. } => SwapType::Sell,
        }
    }

    /// The amount in base units of the native currency.
    pub fn amount_in_base_units(&self) -> (n: u64)
        ensures
            n == self@.amount_in_base_units,
    {
        match *self {
            Direction::Buy { amount_in_base_units, .. } => amount_in_base_units,
            Direction::Sell { amount_in_base_units, .. } => amount_in_base_units,
        }
    }

    /// The quantity of the asset.
    pub fn asset_quantity(&self) -> (n: u64)
        ensures
            n == self@.asset_amount,
    {
        match *self {
            Direction::Buy { asset_amount, .. } => asset_amount,
            Direction::Sell { asset_amount, .. } => asset_amount,
        }
    }
}

impl PricedSwapString {
    /// Builds the offer from the readings of the six fields, each `None`
    /// where the field did not decode. The outcome is exactly
    /// `priced_swap_string_of` of the readings.
    pub fn from_decoded(
        amount: Option<u64>,
        contract_id: Option<ContractId>,
        side: Option<SwapType>,
        price: Option<u64>,
        expiry: Option<u64>,
        payment_hash: Option<PaymentHash>,
    ) -> (res: Result<PricedSwapString, ParseError>)
        ensures
            priced_outcome_view(res) == priced_swap_string_of(
                amount_view(amount),
                contract_id_view(contract_id),
                side,
                amount_view(price),
                amount_view(expiry),
                hash_view(payment_hash),
            ),
            res matches Ok(offer) ==> offer@.well_formed(),
    {
        let amount = match amount {
            Some(n) => n,
            None => {
                return Err(ParseError::Unparsable { field: 0 });
            },
        };
        let contract_id = match contract_id {
            Some(id) => id,
            None => {
                return Err(ParseError::Unparsable { field: 1 });
            },
        };
        let price = match price {
            Some(n) => n,
            None => {
                return Err(ParseError::Unparsable { field: 3 });
            },
        };
        let expiry = match expiry {
            Some(n) => n,
            None => {
                return Err(ParseError::Unparsable { field: 4 });
            },
        };
        let payment_hash = match payment_hash {
            Some(h) => h,
            None => {
                return Err(ParseError::Unparsable { field: 5 });
            },
        };
        let side = match side {
            Some(t) => t,
            None => {
                return Err(ParseError::InvalidSwapType);
            },
        };
        if amount == 0 || price == 0 || expiry == 0 {
            return Err(ParseError::ZeroAmount);
        }
        let amount_in_base_units = match amount.checked_mul(price) {
            Some(n) => n,
            None => {
                return Err(ParseError::AmountOverflow);
            },
        };
        assert(amount_in_base_units > 0) by (nonlinear_arith)
            requires
                amount > 0,
                price > 0,
                amount_in_base_units == amount * price,
        ;
        let direction = Direction::new(side, amount, amount_in_base_units);
        Ok(PricedSwapString { swap: PricedSwap { contract_id, direction }, expiry, payment_hash })
    }

    /// Reads an offer in the priced layout. The outcome is exactly what
    /// `parse_priced_swap_string` says of the text: the offer that it
    /// writes, or the first reason for which it writes none. An offer that
    /// comes out is well formed.
    pub fn from_str(s: &str) -> (res: Result<PricedSwapString, ParseError>)
        ensures
            priced_outcome_view(res) == parse_priced_swap_string(s@),
            res matches Ok(offer) ==> offer@.well_formed(),
    {
        let fields = match split_six(s) {
            Some(fields) => fields,
            None => {
                return Err(ParseError::WrongFieldCount);
            },
        };
        let amount = parse_u64(fields[0]);
        let contract_id = match parse_contract_id(fields[1]) {
            Ok(id) => Some(id),
            Err(_) => None,
        };
        let side = parse_side(fields[2]);
        let price = parse_u64(fields[3]);
        let expiry = parse_u64(fields[4]);
        let payment_hash = parse_payment_hash(fields[5]);
        PricedSwapString::from_decoded(amount, contract_id, side, price, expiry, payment_hash)
    }
}

impl std::str::FromStr for PricedSwapString {
    type Err = ParseError;

    /// Reads an offer in the priced layout, as the inherent `from_str` does.
    fn from_str(s: &str) -> (res: Result<PricedSwapString, ParseError>)
        ensures
            priced_outcome_view(res) == parse_priced_swap_string(s@),
    {
        PricedSwapString::from_str(s)
    }
}

} // verus!
