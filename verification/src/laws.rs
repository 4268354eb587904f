//! What holds of every text and every offer.
//!
//! The parsers are specified by `parse_swap_string` and
//! `parse_priced_swap_string`; the statements below are consequences that
//! callers rely on, each proved from those definitions.

use vstd::prelude::*;
use crate::asset::{asset_reads_back, asset_text, decode_asset, decode_contract_id, native_token};
use crate::decimal::{decode_u64, is_numeral, lemma_decode_numeral_of, numeral_value};
use crate::error::{ErrorClass, ParseError};
use crate::fields::{fields_of, lemma_join_fields_of, separator_free, FIELD_COUNT};
use crate::hex::{decode_payment_hash, lemma_hex_of_round_trip};
use crate::priced::{
    decode_side, parse_priced_swap_string, DirectionView, PricedSwapStringView,
};
use crate::swap::{
    lemma_fields_of_swap_string_text, offer_reads_back, parse_swap_string, swap_string_text,
    SwapStringView, SwapView,
};

verus! {

/// A text that has not exactly six fields is refused for its structure, in
/// either layout and whatever its fields hold.
pub proof fn lemma_wrong_field_count(s: Seq<char>)
    requires
        fields_of(s).len() != FIELD_COUNT,
    ensures
        parse_swap_string(s) == Err::<SwapStringView, ParseError>(ParseError::WrongFieldCount),
        parse_priced_swap_string(s) matches Err(e) && e == ParseError::WrongFieldCount,
        ParseError::WrongFieldCount.class_of() == ErrorClass::Structure,
{
}

/// A field that is no numeral, as one with a sign or any other character
/// that is no digit, or that writes a number beyond 64 bits, decodes to
/// nothing.
pub proof fn lemma_bad_number_decodes_to_nothing(field: Seq<char>)
    requires
        !is_numeral(field) || numeral_value(field) > u64::MAX,
    ensures
        decode_u64(field) is None,
{
}

/// A two-sided text of six fields in which a numeric field decodes to
/// nothing is refused as unparsable: a failure of the syntactic class, which
/// names that field or one to its left.
pub proof fn lemma_bad_number_is_syntactic(s: Seq<char>)
    requires
        fields_of(s).len() == FIELD_COUNT,
        decode_u64(fields_of(s)[0]) is None || decode_u64(fields_of(s)[2]) is None || decode_u64(
            fields_of(s)[4],
        ) is None,
    ensures
        parse_swap_string(s) matches Err(ParseError::Unparsable { field }) && field <= 4,
        parse_swap_string(s) matches Err(e) && e.class_of() == ErrorClass::Syntax,
{
}

/// The same for the priced layout, whose numeric fields are the amount, the
/// price and the expiry.
pub proof fn lemma_priced_bad_number_is_syntactic(s: Seq<char>)
    requires
        fields_of(s).len() == FIELD_COUNT,
        decode_u64(fields_of(s)[0]) is None || decode_u64(fields_of(s)[3]) is None || decode_u64(
            fields_of(s)[4],
        ) is None,
    ensures
        parse_priced_swap_string(s) matches Err(ParseError::Unparsable { field }) && field <= 4,
        parse_priced_swap_string(s) matches Err(e) && e.class_of() == ErrorClass::Syntax,
{
}

/// A two-sided text whose six fields all decode, with a quantity or the
/// expiry zero, is refused for the zero, whatever its assets are.
pub proof fn lemma_zero_is_refused(s: Seq<char>)
    requires
        fields_of(s).len() == FIELD_COUNT,
        decode_u64(fields_of(s)[0]) is Some,
        decode_asset(fields_of(s)[1]) is Some,
        decode_u64(fields_of(s)[2]) is Some,
        decode_asset(fields_of(s)[3]) is Some,
        decode_u64(fields_of(s)[4]) is Some,
        decode_payment_hash(fields_of(s)[5]) is Some,
        decode_u64(fields_of(s)[0]) == Some(0nat) || decode_u64(fields_of(s)[2]) == Some(0nat)
            || decode_u64(fields_of(s)[4]) == Some(0nat),
    ensures
        parse_swap_string(s) == Err::<SwapStringView, ParseError>(ParseError::ZeroAmount),
        ParseError::ZeroAmount.class_of() == ErrorClass::Domain,
{
}

/// A two-sided text whose six fields all decode, with positive quantities
/// and expiry and the same asset on both sides, is refused for the assets.
pub proof fn lemma_same_asset_is_refused(s: Seq<char>)
    requires
        fields_of(s).len() == FIELD_COUNT,
        decode_u64(fields_of(s)[0]) matches Some(n) && n > 0,
        decode_u64(fields_of(s)[2]) matches Some(n) && n > 0,
        decode_u64(fields_of(s)[4]) matches Some(n) && n > 0,
        decode_payment_hash(fields_of(s)[5]) is Some,
        decode_asset(fields_of(s)[1]) is Some,
        decode_asset(fields_of(s)[1]) == decode_asset(fields_of(s)[3]),
    ensures
        parse_swap_string(s) == Err::<SwapStringView, ParseError>(ParseError::SameAsset),
        ParseError::SameAsset.class_of() == ErrorClass::Domain,
{
}

/// Native currency on both sides is the same asset on both sides.
pub proof fn lemma_native_for_native_is_refused(s: Seq<char>)
    requires
        fields_of(s).len() == FIELD_COUNT,
        decode_u64(fields_of(s)[0]) matches Some(n) && n > 0,
        decode_u64(fields_of(s)[2]) matches Some(n) && n > 0,
        decode_u64(fields_of(s)[4]) matches Some(n) && n > 0,
        decode_payment_hash(fields_of(s)[5]) is Some,
        fields_of(s)[1] == native_token(),
        fields_of(s)[3] == native_token(),
    ensures
        parse_swap_string(s) == Err::<SwapStringView, ParseError>(ParseError::SameAsset),
{
    lemma_same_asset_is_refused(s);
}

/// A two-sided text of six fields that all decode, with positive quantities
/// and expiry and distinct assets, is an offer, and the offer holds what the
/// fields write.
pub proof fn lemma_valid_text_is_an_offer(s: Seq<char>)
    requires
        fields_of(s).len() == FIELD_COUNT,
        decode_u64(fields_of(s)[0]) matches Some(n) && n > 0,
        decode_u64(fields_of(s)[2]) matches Some(n) && n > 0,
        decode_u64(fields_of(s)[4]) matches Some(n) && n > 0,
        decode_payment_hash(fields_of(s)[5]) is Some,
        decode_asset(fields_of(s)[1]) is Some,
        decode_asset(fields_of(s)[3]) is Some,
        decode_asset(fields_of(s)[1]) != decode_asset(fields_of(s)[3]),
    ensures
        parse_swap_string(s) == Ok::<SwapStringView, ParseError>(
            SwapStringView {
                swap: SwapView {
                    qty_from: decode_u64(fields_of(s)[0])->0,
                    qty_to: decode_u64(fields_of(s)[2])->0,
                    from_asset: decode_asset(fields_of(s)[1])->0,
                    to_asset: decode_asset(fields_of(s)[3])->0,
                },
                expiry: decode_u64(fields_of(s)[4])->0,
                payment_hash: decode_payment_hash(fields_of(s)[5])->0,
            },
        ),
        parse_swap_string(s)->Ok_0.well_formed(),
{
}

/// Writing a well-formed offer and reading the text gives the offer back:
/// quantities, assets, expiry and hash. The assets may be written by any
/// texts that decode to them and hold no separator.
pub proof fn lemma_round_trip(offer: SwapStringView, from_text: Seq<char>, to_text: Seq<char>)
    requires
        offer.well_formed(),
        offer.swap.qty_from <= u64::MAX,
        offer.swap.qty_to <= u64::MAX,
        offer.expiry <= u64::MAX,
        decode_asset(from_text) == Some(offer.swap.from_asset),
        decode_asset(to_text) == Some(offer.swap.to_asset),
        separator_free(from_text),
        separator_free(to_text),
    ensures
        parse_swap_string(swap_string_text(offer, from_text, to_text)) == Ok::<
            SwapStringView,
            ParseError,
        >(offer),
{
    lemma_fields_of_swap_string_text(offer, from_text, to_text);
    lemma_decode_numeral_of(offer.swap.qty_from);
    lemma_decode_numeral_of(offer.swap.qty_to);
    lemma_decode_numeral_of(offer.expiry);
    lemma_hex_of_round_trip(offer.payment_hash);
}

/// An offer whose assets are written as the RGB libraries write them reads
/// back as itself, provided those texts read back as the assets. Native
/// currency always does.
pub proof fn lemma_written_offer_reads_back(offer: SwapStringView)
    requires
        offer.well_formed(),
        offer.swap.qty_from <= u64::MAX,
        offer.swap.qty_to <= u64::MAX,
        offer.expiry <= u64::MAX,
        asset_reads_back(offer.swap.from_asset),
        asset_reads_back(offer.swap.to_asset),
    ensures
        offer_reads_back(offer),
{
    lemma_round_trip(offer, asset_text(offer.swap.from_asset), asset_text(offer.swap.to_asset));
}

/// Reading a text, writing the offer again with the asset texts that were
/// read, and reading that, gives the same offer.
pub proof fn lemma_reading_is_stable(s: Seq<char>)
    requires
        parse_swap_string(s) is Ok,
    ensures
        parse_swap_string(
            swap_string_text(parse_swap_string(s)->Ok_0, fields_of(s)[1], fields_of(s)[3]),
        ) == parse_swap_string(s),
{
    lemma_join_fields_of(s);
    let offer = parse_swap_string(s)->Ok_0;
    lemma_round_trip(offer, fields_of(s)[1], fields_of(s)[3]);
}

/// A priced text whose six fields all decode, with the amount, the price or
/// the expiry zero, is refused for the zero.
pub proof fn lemma_priced_zero_is_refused(s: Seq<char>)
    requires
        fields_of(s).len() == FIELD_COUNT,
        decode_u64(fields_of(s)[0]) is Some,
        decode_contract_id(fields_of(s)[1]) is Some,
        decode_side(fields_of(s)[2]) is Some,
        decode_u64(fields_of(s)[3]) is Some,
        decode_u64(fields_of(s)[4]) is Some,
        decode_payment_hash(fields_of(s)[5]) is Some,
        decode_u64(fields_of(s)[0]) == Some(0nat) || decode_u64(fields_of(s)[3]) == Some(0nat)
            || decode_u64(fields_of(s)[4]) == Some(0nat),
    ensures
        parse_priced_swap_string(s) == Err::<PricedSwapStringView, ParseError>(ParseError::ZeroAmount),
{
}

/// A priced offer holds as its amount in base units the product of the
/// amount and the price that its text writes.
pub proof fn lemma_priced_amount_is_the_product(s: Seq<char>)
    requires
        parse_priced_swap_string(s) is Ok,
    ensures
        fields_of(s).len() == FIELD_COUNT,
        decode_u64(fields_of(s)[0]) is Some,
        decode_u64(fields_of(s)[3]) is Some,
        parse_priced_swap_string(s)->Ok_0.direction.asset_amount == decode_u64(fields_of(s)[0])->0,
        parse_priced_swap_string(s)->Ok_0.direction.amount_in_base_units == decode_u64(
            fields_of(s)[0],
        )->0 * decode_u64(fields_of(s)[3])->0,
        parse_priced_swap_string(s)->Ok_0.direction.amount_in_base_units <= u64::MAX,
{
}

/// The mirrored direction, mirrored again, is the direction itself.
pub proof fn lemma_opposite_involution(d: DirectionView)
    ensures
        d.opposite().opposite() == d,
{
}

/// A structural failure is found before a syntactic one, and a syntactic
/// one before one of the domain: a text refused for its domain has six
/// fields that all decode, and a text refused for its syntax has six fields.
pub proof fn lemma_earlier_checks_come_first(s: Seq<char>)
    ensures
        parse_swap_string(s) matches Err(e) && e.class_of() != ErrorClass::Structure
            ==> fields_of(s).len() == FIELD_COUNT,
        parse_swap_string(s) matches Err(e) && e.class_of() == ErrorClass::Domain ==> {
            &&& decode_u64(fields_of(s)[0]) is Some
            &&& decode_asset(fields_of(s)[1]) is Some
            &&& decode_u64(fields_of(s)[2]) is Some
            &&& decode_asset(fields_of(s)[3]) is Some
            &&& decode_u64(fields_of(s)[4]) is Some
            &&& decode_payment_hash(fields_of(s)[5]) is Some
        },
        parse_priced_swap_string(s) matches Err(e) && e.class_of() != ErrorClass::Structure
            ==> fields_of(s).len() == FIELD_COUNT,
        parse_priced_swap_string(s) matches Err(e) && e.class_of() == ErrorClass::Domain ==> {
            &&& decode_u64(fields_of(s)[0]) is Some
            &&& decode_contract_id(fields_of(s)[1]) is Some
            &&& decode_side(fields_of(s)[2]) is Some
            &&& decode_u64(fields_of(s)[3]) is Some
            &&& decode_u64(fields_of(s)[4]) is Some
            &&& decode_payment_hash(fields_of(s)[5]) is Some
        },
{
}

} // verus!
