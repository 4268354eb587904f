//! Why a text is not an offer.

use vstd::prelude::*;

verus! {

/// The reason for which a text is refused. The checks run in the order of
/// the variants' classes: structure first, then each field's decoding, then
/// what must hold across fields; the first failure is reported.
#[derive(Clone, Copy, Debug, PartialEq, Eq, Hash)]
pub enum ParseError {
    /// Structure: the text has not exactly six fields.
    WrongFieldCount,
    /// Decoding: the field at this position, counted from 0, writes no value
    /// of its kind. Where several fields fail, the leftmost is named.
    Unparsable { field: usize },
    /// Decoding: the side of a priced offer is neither `buy` nor `sell`.
    InvalidSwapType,
    /// Domain: a quantity, the price or the expiry is zero.
    ZeroAmount,
    /// Domain: both sides of a two-sided offer name the same asset.
    SameAsset,
    /// Domain: amount times price does not fit in 64 bits.
    AmountOverflow,
}

/// The three classes of failure, in the order in which they are looked for.
#[derive(Clone, Copy, Debug, PartialEq, Eq, Hash)]
pub enum ErrorClass {
    /// The number of fields is wrong.
    Structure,
    /// A field does not decode.
    Syntax,
    /// The decoded fields break a rule of the offer.
    Domain,
}

impl ParseError {
    /// The class of this error.
    pub open spec fn class_of(self) -> ErrorClass {
        match self {
            ParseError::WrongFieldCount => ErrorClass::Structure,
            ParseError::Unparsable { .. } => ErrorClass::Syntax,
            ParseError::InvalidSwapType => ErrorClass::Syntax,
            ParseError::ZeroAmount => ErrorClass::Domain,
            ParseError::SameAsset => ErrorClass::Domain,
            ParseError::AmountOverflow => ErrorClass::Domain,
        }
    }

    /// The text of the reason.
    pub open spec fn message_text(self) -> Seq<char> {
        match self {
            ParseError::WrongFieldCount => "Wrong number of parts"@,
            ParseError::Unparsable { .. } => "Unable to parse"@,
            ParseError::InvalidSwapType => "Invalid swap type"@,
            ParseError::ZeroAmount => "Parsing swap string: qty_from, qty_to and expiry should be non-zero"@,
            ParseError::SameAsset => "From and to assets should be different"@,
            ParseError::AmountOverflow => "Amount in base units should fit in 64 bits"@,
        }
    }

    /// The class of this error.
    pub fn class(&self) -> (c: ErrorClass)
        ensures
            c == self.class_of(),
    {
        match self {
            ParseError::WrongFieldCount => ErrorClass::Structure,
            ParseError::Unparsable { .. } => ErrorClass::Syntax,
            ParseError::InvalidSwapType => ErrorClass::Syntax,
            ParseError::ZeroAmount => ErrorClass::Domain,
            ParseError::SameAsset => ErrorClass::Domain,
            ParseError::AmountOverflow => ErrorClass::Domain,
        }
    }

    /// A stable, readable reason, one for each variant; it does not say
    /// which field failed.
    pub fn message(&self) -> (m: &'static str)
        ensures
            m@ == self.message_text(),
    {
        match self {
            ParseError::WrongFieldCount => "Wrong number of parts",
            ParseError::Unparsable { .. } => "Unable to parse",
            ParseError::InvalidSwapType => "Invalid swap type",
            ParseError::ZeroAmount => "Parsing swap string: qty_from, qty_to and expiry should be non-zero",
            ParseError::SameAsset => "From and to assets should be different",
            ParseError::AmountOverflow => "Amount in base units should fit in 64 bits",
        }
    }
}

} // verus!
