//! Offers of either layout under one type.
//!
//! Both layouts have six fields, so a text does not tell which one it is
//! written in: the reader says so.

use vstd::prelude::*;
use crate::error::ParseError;
use crate::hex::PaymentHash;
use crate::priced::{parse_priced_swap_string, PricedSwapString, PricedSwapStringView};
use crate::swap::{parse_swap_string, SwapString, SwapStringView};

verus! {

/// The layout of an offer's text.
#[derive(Clone, Copy, Debug, PartialEq, Eq, Hash)]
pub enum Layout {
    /// `qty_from/from_asset/qty_to/to_asset/expiry/payment_hash`
    TwoSided,
    /// `amount/contract_id/side/price/expiry/payment_hash`
    Priced,
}

/// An offer in one of the two layouts.
#[derive(Clone, Copy, Debug, PartialEq, Eq)]
pub enum Offer {
    TwoSided(SwapString),
    Priced(PricedSwapString),
}

/// What an `Offer` stands for.
pub enum OfferView {
    TwoSided(SwapStringView),
    Priced(PricedSwapStringView),
}

impl OfferView {
    /// The layout in which the offer is written.
    pub open spec fn layout(self) -> Layout {
        match self {
            OfferView::TwoSided(_) => Layout::TwoSided,
            OfferView::Priced(_) => Layout::Priced,
        }
    }

    /// The time bound of the offer.
    pub open spec fn expiry(self) -> nat {
        match self {
            OfferView::TwoSided(offer) => offer.expiry,
            OfferView::Priced(offer) => offer.expiry,
        }
    }

    /// The hash of the payment that the offer belongs to.
    pub open spec fn payment_hash(self) -> Seq<u8> {
        match self {
            OfferView::TwoSided(offer) => offer.payment_hash,
            OfferView::Priced(offer) => offer.payment_hash,
        }
    }

    /// An offer that the parser yields.
    pub open spec fn well_formed(self) -> bool {
        match self {
            OfferView::TwoSided(offer) => offer.well_formed(),
            OfferView::Priced(offer) => offer.well_formed(),
        }
    }
}

impl View for Offer {
    type V = OfferView;

    open spec fn view(&self) -> OfferView {
        match *self {
            Offer::TwoSided(offer) => OfferView::TwoSided(offer@),
            Offer::Priced(offer) => OfferView::Priced(offer@),
        }
    }
}

/// What a text means when read in the given layout.
pub open spec fn parse_offer(layout: Layout, s: Seq<char>) -> Result<OfferView, ParseError> {
    match layout {
        Layout::TwoSided => match parse_swap_string(s) {
            Ok(offer) => Ok(OfferView::TwoSided(offer)),
            Err(e) => Err(e),
        },
        Layout::Priced => match parse_priced_swap_string(s) {
            Ok(offer) => Ok(OfferView::Priced(offer)),
            Err(e) => Err(e),
        },
    }
}

/// The view of a parser's outcome.
pub open spec fn offer_outcome_view(outcome: Result<Offer, ParseError>) -> Result<
    OfferView,
    ParseError,
> {
    match outcome {
        Ok(offer) => Ok(offer@),
        Err(e) => Err(e),
    }
}

impl Offer {
    /// Reads a text in the given layout. The outcome is exactly what
    /// `parse_offer` says of the text; an offer that comes out is well
    /// formed and of that layout.
    pub fn parse(layout: Layout, s: &str) -> (res: Result<Offer, ParseError>)
        ensures
            offer_outcome_view(res) == parse_offer(layout, s@),
            res matches Ok(offer) ==> offer@.well_formed() && offer@.layout() == layout,
    {
        match layout {
            Layout::TwoSided => match SwapString::from_str(s) {
                Ok(offer) => Ok(Offer::TwoSided(offer)),
                Err(e) => Err(e),
            },
            Layout::Priced => match PricedSwapString::from_str(s) {
                Ok(offer) => Ok(Offer::Priced(offer)),
                Err(e) => Err(e),
            },
        }
    }

    /// The layout in which the offer is written.
    pub fn layout(&self) -> (l: Layout)
        ensures
            l == self@.layout(),
    {
        match self {
            Offer::TwoSided(_) => Layout::TwoSided,
            Offer::Priced(_) => Layout::Priced,
        }
    }

    /// The time bound of the offer.
    pub fn expiry(&self) -> (n: u64)
        ensures
            n == self@.expiry(),
    {
        match self {
            Offer::TwoSided(offer) => offer.expiry,
            Offer::Priced(offer) => offer.expiry,
        }
    }

    /// The hash of the payment that the offer belongs to.
    pub fn payment_hash(&self) -> (h: PaymentHash)
        ensures
            h@ == self@.payment_hash(),
    {
        match self {
            Offer::TwoSided(offer) => offer.payment_hash,
            Offer::Priced(offer) => offer.payment_hash,
        }
    }
}

} // verus!
