//! The two-sided offer: a quantity of one asset for a quantity of another.
//!
//! Its text has six fields:
//! `qty_from/from_asset/qty_to/to_asset/expiry/payment_hash`.

use vstd::prelude::*;
use vstd::string::*;
use crate::asset::{
    asset_text, asset_view, decode_asset, parse_opt_asset, same_assets, write_asset, ContractId,
};
use crate::decimal::{decode_u64, lemma_numeral_of_round_trip, numeral_of, parse_u64, write_u64};
use crate::error::ParseError;
use crate::fields::{
    fields_of, join_fields, lemma_fields_of_join, lemma_hex_separator_free, lemma_join_six,
    lemma_numeral_separator_free, separator_free, split_six, FIELD_COUNT, SEPARATOR,
};
use crate::hex::{decode_payment_hash, hex_of, parse_payment_hash, PaymentHash};

verus! {

/// One side of a two-sided swap.
#[derive(Clone, Copy, Debug, PartialEq, Eq, Hash)]
pub enum Side {
    /// What the offering party gives.
    From,
    /// What the offering party receives.
    To,
}

/// A swap of `qty_from` of one asset for `qty_to` of another. An asset is a
/// ledger asset, or native currency where it is `None`.
#[derive(Clone, Copy, Debug, PartialEq, Eq)]
pub struct Swap {
    pub qty_from: u64,
    pub qty_to: u64,
    pub from_asset: Option<ContractId>,
    pub to_asset: Option<ContractId>,
}

/// A two-sided offer as it is exchanged: the swap, the time bound and the
/// hash of the payment it belongs to.
#[derive(Clone, Copy, Debug, PartialEq, Eq)]
pub struct SwapString {
    pub swap: Swap,
    pub expiry: u64,
    pub payment_hash: PaymentHash,
}

/// What a `Swap` stands for.
pub struct SwapView {
    pub qty_from: nat,
    pub qty_to: nat,
    pub from_asset: Option<Seq<u8>>,
    pub to_asset: Option<Seq<u8>>,
}

/// What a `SwapString` stands for.
pub struct SwapStringView {
    pub swap: SwapView,
    pub expiry: nat,
    pub payment_hash: Seq<u8>,
}

impl SwapView {
    /// The asset on the given side.
    pub open spec fn asset(self, side: Side) -> Option<Seq<u8>> {
        match side {
            Side::From => self.from_asset,
            Side::To => self.to_asset,
        }
    }

    /// Whether both sides name the same asset.
    pub open spec fn same_asset(self) -> bool {
        self.from_asset == self.to_asset
    }

    /// A swap that the parser yields: both quantities positive, the assets
    /// distinct.
    pub open spec fn well_formed(self) -> bool {
        &&& self.qty_from > 0
        &&& self.qty_to > 0
        &&& !self.same_asset()
    }
}

impl SwapStringView {
    /// An offer that the parser yields: a well-formed swap, a positive
    /// expiry and a hash of 32 bytes.
    pub open spec fn well_formed(self) -> bool {
        &&& self.swap.well_formed()
        &&& self.expiry > 0
        &&& self.payment_hash.len() == 32
    }
}

impl View for Swap {
    type V = SwapView;

    open spec fn view(&self) -> SwapView {
        SwapView {
            qty_from: self.qty_from as nat,
            qty_to: self.qty_to as nat,
            from_asset: asset_view(self.from_asset),
            to_asset: asset_view(self.to_asset),
        }
    }
}

impl View for SwapString {
    type V = SwapStringView;

    open spec fn view(&self) -> SwapStringView {
        SwapStringView { swap: self.swap@, expiry: self.expiry as nat, payment_hash: self.payment_hash@ }
    }
}

/// The view of a numeric field's reading.
pub open spec fn amount_view(amount: Option<u64>) -> Option<nat> {
    match amount {
        Some(n) => Some(n as nat),
        None => None,
    }
}

/// The view of an asset field's reading.
pub open spec fn asset_reading_view(asset: Option<Option<ContractId>>) -> Option<Option<Seq<u8>>> {
    match asset {
        Some(found) => Some(asset_view(found)),
        None => None,
    }
}

/// The view of the payment-hash field's reading.
pub open spec fn hash_view(hash: Option<PaymentHash>) -> Option<Seq<u8>> {
    match hash {
        Some(h) => Some(h@),
        None => None,
    }
}

/// The view of a parser's outcome.
pub open spec fn outcome_view(outcome: Result<SwapString, ParseError>) -> Result<
    SwapStringView,
    ParseError,
> {
    match outcome {
        Ok(offer) => Ok(offer@),
        Err(e) => Err(e),
    }
}

/// The offer that six decoded fields make, or the reason why they make none.
/// A field that did not decode is `None`; the leftmost such field is
/// reported. Then no quantity and no expiry may be zero, and then the two
/// assets must differ.
pub open spec fn swap_string_of(
    qty_from: Option<nat>,
    from_asset: Option<Option<Seq<u8>>>,
    qty_to: Option<nat>,
    to_asset: Option<Option<Seq<u8>>>,
    expiry: Option<nat>,
    payment_hash: Option<Seq<u8>>,
) -> Result<SwapStringView, ParseError> {
    if qty_from is None {
        Err(ParseError::Unparsable { field: 0 })
    } else if from_asset is None {
        Err(ParseError::Unparsable { field: 1 })
    } else if qty_to is None {
        Err(ParseError::Unparsable { field: 2 })
    } else if to_asset is None {
        Err(ParseError::Unparsable { field: 3 })
    } else if expiry is None {
        Err(ParseError::Unparsable { field: 4 })
    } else if payment_hash is None {
        Err(ParseError::Unparsable { field: 5 })
    } else if qty_from->0 == 0 || qty_to->0 == 0 || expiry->0 == 0 {
        Err(ParseError::ZeroAmount)
    } else if from_asset->0 == to_asset->0 {
        Err(ParseError::SameAsset)
    } else {
        Ok(
            SwapStringView {
                swap: SwapView {
                    qty_from: qty_from->0,
                    qty_to: qty_to->0,
                    from_asset: from_asset->0,
                    to_asset: to_asset->0,
                },
                expiry: expiry->0,
                payment_hash: payment_hash->0,
            },
        )
    }
}

/// What a text in the two-sided layout means: the offer it writes, or the
/// reason why it writes none.
pub open spec fn parse_swap_string(s: Seq<char>) -> Result<SwapStringView, ParseError> {
    let fields = fields_of(s);
    if fields.len() != FIELD_COUNT {
        Err(ParseError::WrongFieldCount)
    } else {
        swap_string_of(
            decode_u64(fields[0]),
            decode_asset(fields[1]),
            decode_u64(fields[2]),
            decode_asset(fields[3]),
            decode_u64(fields[4]),
            decode_payment_hash(fields[5]),
        )
    }
}

/// The text of a two-sided offer, given the texts that write its two
/// assets: the six fields joined by separators, numbers as their shortest
/// numerals and the hash in lower-case hexadecimal.
pub open spec fn swap_string_text(
    offer: SwapStringView,
    from_text: Seq<char>,
    to_text: Seq<char>,
) -> Seq<char> {
    join_fields(
        seq![
            numeral_of(offer.swap.qty_from),
            from_text,
            numeral_of(offer.swap.qty_to),
            to_text,
            numeral_of(offer.expiry),
            hex_of(offer.payment_hash),
        ],
    )
}

/// Whether an offer, written with its assets as the RGB libraries write
/// them, reads back as itself.
pub open spec fn offer_reads_back(offer: SwapStringView) -> bool {
    parse_swap_string(
        swap_string_text(offer, asset_text(offer.swap.from_asset), asset_text(offer.swap.to_asset)),
    ) == Ok::<SwapStringView, ParseError>(offer)
}

/// The text of an offer has the six fields it was written from, provided
/// the texts of the two assets hold no separator.
pub proof fn lemma_fields_of_swap_string_text(
    offer: SwapStringView,
    from_text: Seq<char>,
    to_text: Seq<char>,
)
    requires
        separator_free(from_text),
        separator_free(to_text),
    ensures
        fields_of(swap_string_text(offer, from_text, to_text)) == seq![
            numeral_of(offer.swap.qty_from),
            from_text,
            numeral_of(offer.swap.qty_to),
            to_text,
            numeral_of(offer.expiry),
            hex_of(offer.payment_hash),
        ],
        fields_of(swap_string_text(offer, from_text, to_text)).len() == FIELD_COUNT,
{
    let fields = seq![
        numeral_of(offer.swap.qty_from),
        from_text,
        numeral_of(offer.swap.qty_to),
        to_text,
        numeral_of(offer.expiry),
        hex_of(offer.payment_hash),
    ];
    lemma_numeral_of_round_trip(offer.swap.qty_from);
    lemma_numeral_of_round_trip(offer.swap.qty_to);
    lemma_numeral_of_round_trip(offer.expiry);
    lemma_numeral_separator_free(fields[0]);
    lemma_numeral_separator_free(fields[2]);
    lemma_numeral_separator_free(fields[4]);
    lemma_hex_separator_free(offer.payment_hash);
    assert forall|k: int| 0 <= k < fields.len() implies separator_free(#[trigger] fields[k]) by {
        if k == 0 {
        } else if k == 1 {
        } else if k == 2 {
        } else if k == 3 {
        } else if k == 4 {
        } else {
        }
    }
    lemma_fields_of_join(fields);
}

impl Swap {
    /// Whether both sides name the same asset. The parser yields no such
    /// swap; a swap built by hand may be one.
    pub fn same_asset(&self) -> (r: bool)
        ensures
            r == self@.same_asset(),
    {
        same_assets(&self.from_asset, &self.to_asset)
    }

    /// Whether the offering party gives native currency.
    pub fn from_btc(&self) -> (r: bool)
        ensures
            r == (self@.from_asset is None),
            r == self.from_asset.is_none(),
    {
        self.from_asset.is_none()
    }

    /// Whether the offering party receives native currency.
    pub fn to_btc(&self) -> (r: bool)
        ensures
            r == (self@.to_asset is None),
            r == self.to_asset.is_none(),
    {
        self.to_asset.is_none()
    }

    /// Whether the given side is native currency rather than a ledger asset.
    pub fn is_native(&self, side: Side) -> (r: bool)
        ensures
            r == (self@.asset(side) is None),
    {
        match side {
            Side::From => self.from_btc(),
            Side::To => self.to_btc(),
        }
    }
}

impl SwapString {
    /// Builds the offer from the readings of the six fields, each `None`
    /// where the field did not decode. The outcome is exactly
    /// `swap_string_of` of the readings: the leftmost failed field, else a
    /// zero quantity or expiry, else equal assets, else the offer.
    pub fn from_decoded(
        qty_from: Option<u64>,
        from_asset: Option<Option<ContractId>>,
        qty_to: Option<u64>,
        to_asset: Option<Option<ContractId>>,
        expiry: Option<u64>,
        payment_hash: Option<PaymentHash>,
    ) -> (res: Result<SwapString, ParseError>)
        ensures
            outcome_view(res) == swap_string_of(
                amount_view(qty_from),
                asset_reading_view(from_asset),
                amount_view(qty_to),
                asset_reading_view(to_asset),
                amount_view(expiry),
                hash_view(payment_hash),
            ),
            res matches Ok(offer) ==> offer@.well_formed(),
    {
        let qty_from = match qty_from {
            Some(n) => n,
            None => {
                return Err(ParseError::Unparsable { field: 0 });
            },
        };
        let from_asset = match from_asset {
            Some(a) => a,
            None => {
                return Err(ParseError::Unparsable { field: 1 });
            },
        };
        let qty_to = match qty_to {
            Some(n) => n,
            None => {
                return Err(ParseError::Unparsable { field: 2 });
            },
        };
        let to_asset = match to_asset {
            Some(a) => a,
            None => {
                return Err(ParseError::Unparsable { field: 3 });
            },
        };
        let expiry = match expiry {
            Some(n) => n,
            None => {
                return Err(ParseError::Unparsable { field: 4 });
            },
        };
        let payment_hash = match payment_hash {
            Some(h) => h,
            None => {
                return Err(ParseError::Unparsable { field: 5 });
            },
        };
        if qty_from == 0 || qty_to == 0 || expiry == 0 {
            return Err(ParseError::ZeroAmount);
        }
        let swap = Swap { qty_from, qty_to, from_asset, to_asset };
        if swap.same_asset() {
            return Err(ParseError::SameAsset);
        }
        Ok(SwapString { swap, expiry, payment_hash })
    }

    /// Reads an offer in the two-sided layout. The outcome is exactly what
    /// `parse_swap_string` says of the text: the offer that it writes, or
    /// the first reason, in the order structure, decoding, domain, for which
    /// it writes none. An offer that comes out is well formed.
    pub fn from_str(s: &str) -> (res: Result<SwapString, ParseError>)
        ensures
            outcome_view(res) == parse_swap_string(s@),
            res matches Ok(offer) ==> offer@.well_formed(),
    {
        let fields = match split_six(s) {
            Some(fields) => fields,
            None => {
                return Err(ParseError::WrongFieldCount);
            },
        };
        let qty_from = parse_u64(fields[0]);
        let from_asset = match parse_opt_asset(fields[1]) {
            Ok(asset) => Some(asset),
            Err(_) => None,
        };
        let qty_to = parse_u64(fields[2]);
        let to_asset = match parse_opt_asset(fields[3]) {
            Ok(asset) => Some(asset),
            Err(_) => None,
        };
        let expiry = parse_u64(fields[4]);
        let payment_hash = parse_payment_hash(fields[5]);
        SwapString::from_decoded(qty_from, from_asset, qty_to, to_asset, expiry, payment_hash)
    }

    /// Whether two offers are the same.
    pub fn same_as(&self, other: &SwapString) -> (r: bool)
        ensures
            r == (self@ == other@),
    {
        self.swap.qty_from == other.swap.qty_from && self.swap.qty_to == other.swap.qty_to
            && same_assets(&self.swap.from_asset, &other.swap.from_asset) && same_assets(
            &self.swap.to_asset,
            &other.swap.to_asset,
        ) && self.expiry == other.expiry && self.payment_hash.same_as(&other.payment_hash)
    }

    /// Writes the offer in the two-sided layout: numbers as their shortest
    /// numerals, assets as `btc` or as the RGB libraries write the
    /// identifier, the hash in lower-case hexadecimal. The text has the six
    /// fields that were written.
    pub fn to_text(&self) -> (text: String)
        ensures
            text@ == swap_string_text(
                self@,
                asset_text(self@.swap.from_asset),
                asset_text(self@.swap.to_asset),
            ),
            separator_free(asset_text(self@.swap.from_asset)),
            separator_free(asset_text(self@.swap.to_asset)),
            fields_of(text@) == seq![
                numeral_of(self@.swap.qty_from),
                asset_text(self@.swap.from_asset),
                numeral_of(self@.swap.qty_to),
                asset_text(self@.swap.to_asset),
                numeral_of(self@.expiry),
                hex_of(self@.payment_hash),
            ],
    {
        proof {
            reveal_strlit("/");
            assert("/"@ =~= seq![SEPARATOR]);
        }
        let mut text = write_u64(self.swap.qty_from);
        let from_text = write_asset(&self.swap.from_asset);
        let qty_to = write_u64(self.swap.qty_to);
        let to_text = write_asset(&self.swap.to_asset);
        let expiry = write_u64(self.expiry);
        let hash = self.payment_hash.to_hex();
        text.append("/");
        text.append(from_text.as_str());
        text.append("/");
        text.append(qty_to.as_str());
        text.append("/");
        text.append(to_text.as_str());
        text.append("/");
        text.append(expiry.as_str());
        text.append("/");
        text.append(hash.as_str());
        proof {
            lemma_join_six(
                numeral_of(self@.swap.qty_from),
                from_text@,
                numeral_of(self@.swap.qty_to),
                to_text@,
                numeral_of(self@.expiry),
                hex_of(self@.payment_hash),
            );
            lemma_fields_of_swap_string_text(self@, from_text@, to_text@);
        }
        text
    }

    /// Whether this offer, written by `to_text`, reads back as itself:
    /// writes it, reads what was written and compares.
    pub fn reads_back(&self) -> (r: bool)
        ensures
            r == offer_reads_back(self@),
    {
        let text = self.to_text();
        match SwapString::from_str(text.as_str()) {
            Ok(read) => read.same_as(self),
            Err(_) => false,
        }
    }
}

impl std::str::FromStr for SwapString {
    type Err = ParseError;

    /// Reads an offer in the two-sided layout, as the inherent `from_str`
    /// does.
    fn from_str(s: &str) -> (res: Result<SwapString, ParseError>)
        ensures
            outcome_view(res) == parse_swap_string(s@),
    {
        SwapString::from_str(s)
    }
}

} // verus!
