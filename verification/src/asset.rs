//! The assets of a swap: native currency, written `btc`, or a ledger asset
//! named by its contract identifier.
//!
//! Contract identifiers are 32 bytes. Their text form belongs to the RGB
//! libraries, and so does the decoder: this module asks it, after making sure
//! that the text is one the decoder can be asked about.

use vstd::prelude::*;
use vstd::string::*;
use vstd::utf8::is_ascii_chars;
use baid58::Baid58ParseError;
use crate::text::{
    chars_of, count_in, find_first, first_index_of, free_of, occurrences, same_text,
};

verus! {

/// Number of bytes in a contract identifier.
pub const CONTRACT_ID_LEN: usize = 32;

/// Longest run of value characters that is handed to the decoder: its digit
/// decoder works in a buffer of 132 bytes.
pub const MAX_RUN_LEN: usize = 132;

/// Distance from the start of the probed text to the first place where the
/// decoder looks for a chunk separator.
pub const FIRST_PROBE: usize = 7;

/// Distance from one such place to the next.
pub const PROBE_STEP: usize = 10;

/// Number of places at which the decoder looks for a chunk separator.
pub const PROBE_COUNT: usize = 5;

/// The identifier of a ledger asset: the 32 bytes of its contract's genesis
/// commitment.
#[derive(Clone, Copy, Debug, PartialEq, Eq, Hash)]
pub struct ContractId(pub [u8; 32]);

impl View for ContractId {
    type V = Seq<u8>;

    open spec fn view(&self) -> Seq<u8> {
        self.0@
    }
}

/// The error type of the Baid58 codec, carried as an opaque value.
#[verifier::external_type_specification]
#[verifier::external_body]
pub struct ExBaid58ParseError(Baid58ParseError);

/// Why an asset field was not accepted.
#[derive(Debug, PartialEq, Eq)]
pub enum AssetError {
    /// The text has a shape the decoder cannot be asked about.
    Malformed,
    /// The decoder was asked and refused the text, for the reason held.
    Rejected(Baid58ParseError),
}

/// The bytes that the RGB decoder reads from an identifier text, if it reads
/// any: the outcome of `ContractId::from_str` on that text.
pub uninterp spec fn contract_id_decoding(text: Seq<char>) -> Option<Seq<u8>>;

/// The text that the RGB libraries write for the identifier with these
/// bytes: the outcome of `ContractId::to_string`.
pub uninterp spec fn contract_id_text(bytes: Seq<u8>) -> Seq<char>;

/// The text of the native currency.
pub open spec fn native_token() -> Seq<char> {
    seq!['b', 't', 'c']
}

/// The part of `s` in which the decoder looks for chunk separators: what
/// follows the first `:`, or all of `s` if it has none. There is no such part
/// when the first `:` ends the text.
pub open spec fn probed_part(s: Seq<char>) -> Option<Seq<char>> {
    let colon = first_index_of(s, ':');
    if colon >= s.len() {
        Some(s)
    } else if colon + 1 >= s.len() {
        None
    } else {
        Some(s.skip(colon + 1))
    }
}

/// The probed text up to its first `#`.
pub open spec fn probed_head(body: Seq<char>) -> Seq<char> {
    body.take(first_index_of(body, '#'))
}

/// Where in the probed text the decoder starts to count: behind the first
/// `:` of the head, or at the start if the head has none.
pub open spec fn probe_origin(body: Seq<char>) -> int {
    let head = probed_head(body);
    let colon = first_index_of(head, ':');
    if colon < head.len() {
        colon + 1
    } else {
        0
    }
}

/// Whether the decoder's look-ups stay inside `body`, when `left` of them
/// are still to come and the next one is at `at`. A look-up that finds no
/// `-` is the last one.
pub open spec fn probes_stay_inside(body: Seq<char>, at: int, left: nat) -> bool
    decreases left,
{
    if left == 0 {
        true
    } else {
        &&& 0 <= at < body.len()
        &&& body[at] == '-' ==> probes_stay_inside(body, at + PROBE_STEP, (left - 1) as nat)
    }
}

/// Whether the head of the probed part of `s` holds exactly `PROBE_COUNT`
/// characters `-`. Only then does the decoder look for chunk separators,
/// and only then may it take `s` for chunked.
pub open spec fn head_has_chunks(s: Seq<char>) -> bool {
    probed_part(s) matches Some(body) && occurrences(probed_head(body), '-') == PROBE_COUNT
}

/// Whether every place at which the decoder looks for a chunk separator
/// lies inside the text.
pub open spec fn probes_fit(s: Seq<char>) -> bool {
    head_has_chunks(s) ==> probes_stay_inside(
        probed_part(s)->0,
        probe_origin(probed_part(s)->0) + FIRST_PROBE,
        PROBE_COUNT as nat,
    )
}

/// Whether `c` is a character that values and words are made of: an ASCII
/// letter or a digit other than `0`. Every other character separates.
pub open spec fn is_value_char(c: char) -> bool {
    ||| '1' <= c && c <= '9'
    ||| 'a' <= c && c <= 'z'
    ||| 'A' <= c && c <= 'Z'
}

/// Up to where the characters `-` join what stands on their two sides: up
/// to the first `#` of a text that the decoder may take for chunked, where
/// it drops them; nowhere in another text.
pub open spec fn joined_part(s: Seq<char>) -> int {
    if head_has_chunks(s) {
        first_index_of(s, '#')
    } else {
        0
    }
}

/// The length of the run of value characters that ends before position
/// `end`. A `-` before position `joined` is passed over: it neither counts
/// nor ends the run.
pub open spec fn run_length(s: Seq<char>, joined: int, end: int) -> nat
    decreases end,
{
    if end <= 0 {
        0
    } else if is_value_char(s[end - 1]) {
        run_length(s, joined, end - 1) + 1
    } else if s[end - 1] == '-' && end - 1 < joined {
        run_length(s, joined, end - 1)
    } else {
        0
    }
}

/// Whether no run of value characters is longer than `MAX_RUN_LEN`, with
/// the `-` before position `joined` passed over.
pub open spec fn runs_within(s: Seq<char>, joined: int) -> bool {
    forall|end: int| 0 <= end <= s.len() ==> #[trigger] run_length(s, joined, end) <= MAX_RUN_LEN
}

/// Whether no run of value characters that the decoder may hand to its digit
/// decoder is longer than `MAX_RUN_LEN`.
pub open spec fn runs_fit(s: Seq<char>) -> bool {
    runs_within(s, joined_part(s))
}

/// The texts that are handed to the decoder: ASCII, with every place at
/// which the decoder looks for a chunk separator inside the text, and with
/// no run of value characters longer than `MAX_RUN_LEN`. The length of the
/// text is not bounded.
pub open spec fn decodable_shape(s: Seq<char>) -> bool {
    &&& is_ascii_chars(s)
    &&& probes_fit(s)
    &&& runs_fit(s)
}

/// What the text of a contract identifier decodes to: what the decoder reads
/// from it, provided the text has a shape that the decoder is asked about.
pub open spec fn decode_contract_id(text: Seq<char>) -> Option<Seq<u8>> {
    if decodable_shape(text) {
        contract_id_decoding(text)
    } else {
        None
    }
}

/// What an asset field decodes to: native currency (the inner `None`) for
/// `btc`, else the ledger asset whose identifier the field writes; nothing
/// (the outer `None`) where the field writes neither.
pub open spec fn decode_asset(text: Seq<char>) -> Option<Option<Seq<u8>>> {
    if text == native_token() {
        Some(None)
    } else {
        match decode_contract_id(text) {
            Some(bytes) => Some(Some(bytes)),
            None => None,
        }
    }
}

/// The text of an asset: `btc` for native currency, else the text of the
/// identifier.
pub open spec fn asset_text(asset: Option<Seq<u8>>) -> Seq<char> {
    match asset {
        Some(bytes) => contract_id_text(bytes),
        None => native_token(),
    }
}

/// Whether the text of an asset reads back as the asset and holds no `/`.
/// The text of native currency always does; the text of an identifier does
/// where the decoder reads what the RGB libraries wrote.
pub open spec fn asset_reads_back(asset: Option<Seq<u8>>) -> bool {
    &&& decode_asset(asset_text(asset)) == Some(asset)
    &&& free_of(asset_text(asset), '/')
}

/// The view of an asset: its identifier's bytes, or `None` for native
/// currency.
pub open spec fn asset_view(asset: Option<ContractId>) -> Option<Seq<u8>> {
    match asset {
        Some(id) => Some(id@),
        None => None,
    }
}

/// Calls `rgbstd::contract::ContractId::from_str` and hands back the 32 bytes
/// of the identifier it read, or its error. Trusted: the result is the
/// decoder's outcome on `text`, which depends on `text` alone.
///
/// The decoder does not return on every text: it cuts the text at a
/// character count taken as a byte count, it indexes the text at the probed
/// places without looking at its length, and its digit decoder subtracts the
/// number of leading `1` digits from what is left of 132 bytes.
/// `decodable_shape` keeps it away from all three: the text is ASCII, so the
/// counts agree; the probes stay inside; and no run of value characters is
/// longer than 132, also where the decoder has dropped the `-` of a chunked
/// text, which it does up to the first `#`.
#[verifier::external_body]
fn ask_decoder(text: &str) -> (res: Result<[u8; 32], Baid58ParseError>)
    requires
        decodable_shape(text@),
    ensures
        res matches Ok(bytes) ==> contract_id_decoding(text@) == Some(bytes@),
        res is Err ==> contract_id_decoding(text@) is None,
{
    match <rgbstd::contract::ContractId as std::str::FromStr>::from_str(text) {
        Ok(id) => Ok(id.to_byte_array()),
        Err(e) => Err(e),
    }
}

/// Calls `to_string` on the `rgbstd::contract::ContractId` made of these
/// bytes. Trusted: the result is the text that the library writes for them,
/// which depends on the bytes alone; and it holds no `/`, being made of
/// `rgb:`, Base58 digits and the chunk separator `-`. Nothing is claimed of
/// how that text reads back.
#[verifier::external_body]
fn ask_encoder(bytes: &[u8; 32]) -> (text: String)
    ensures
        text@ == contract_id_text(bytes@),
        free_of(text@, '/'),
{
    rgbstd::contract::ContractId::from(*bytes).to_string()
}

/// Whether the decoder's look-ups stay inside the text, and whether it
/// looks at all.
fn chunk_probe(chars: &Vec<char>) -> (r: (bool, bool))
    ensures
        r.0 == probes_fit(chars@),
        r.1 == head_has_chunks(chars@),
{
    let n: usize = chars.len();
    assert(chars@.subrange(0, n as int) =~= chars@);
    let colon = find_first(chars, 0, n, ':');
    let from: usize = if colon >= n {
        0
    } else if n - colon <= 1 {
        return (true, false);
    } else {
        colon + 1
    };
    let ghost body = chars@.subrange(from as int, n as int);
    assert(body =~= chars@.skip(from as int));
    assert(probed_part(chars@) == Some(body));
    let hash = find_first(chars, from, n, '#');
    let ghost head = chars@.subrange(from as int, hash as int);
    assert(head =~= probed_head(body));
    let dashes = count_in(chars, from, hash, '-');
    if dashes != PROBE_COUNT {
        return (true, false);
    }
    let inner = find_first(chars, from, hash, ':');
    let origin: usize = if inner < hash {
        inner - from + 1
    } else {
        0
    };
    assert(origin == probe_origin(body));
    let room: usize = n - from;
    let mut at: usize = origin;
    let mut gap: usize = FIRST_PROBE;
    let mut left: usize = PROBE_COUNT;
    while left > 0
        invariant
            left <= PROBE_COUNT,
            from <= n,
            n == chars@.len(),
            room == n - from,
            at <= room,
            gap == FIRST_PROBE || gap == PROBE_STEP,
            body == chars@.subrange(from as int, n as int),
            head_has_chunks(chars@),
            probes_fit(chars@) == probes_stay_inside(body, at + gap, left as nat),
        decreases left,
    {
        if room - at <= gap {
            return (false, true);
        }
        at = at + gap;
        assert(body[at as int] == chars@[from + at]);
        if chars[from + at] != '-' {
            return (true, true);
        }
        gap = PROBE_STEP;
        left = left - 1;
    }
    (true, true)
}

/// Whether no run of value characters is longer than `MAX_RUN_LEN`, with
/// the `-` before position `joined` passed over.
fn runs_are_within(chars: &Vec<char>, joined: usize) -> (r: bool)
    ensures
        r == runs_within(chars@, joined as int),
{
    let n: usize = chars.len();
    let mut run: usize = 0;
    let mut i: usize = 0;
    while i < n
        invariant
            i <= n,
            n == chars@.len(),
            run == run_length(chars@, joined as int, i as int),
            forall|end: int|
                0 <= end <= i ==> #[trigger] run_length(chars@, joined as int, end) <= MAX_RUN_LEN,
        decreases n - i,
    {
        let c: char = chars[i];
        if (c >= '1' && c <= '9') || (c >= 'a' && c <= 'z') || (c >= 'A' && c <= 'Z') {
            run = run + 1;
        } else if c == '-' && i < joined {
        } else {
            run = 0;
        }
        assert(run == run_length(chars@, joined as int, i + 1));
        if run > MAX_RUN_LEN {
            return false;
        }
        i = i + 1;
    }
    true
}

/// Whether `text` has a shape that the decoder is asked about.
pub fn has_decodable_shape(text: &str) -> (r: bool)
    ensures
        r == decodable_shape(text@),
{
    if !text.is_ascii() {
        return false;
    }
    let chars = chars_of(text);
    let (inside, chunks) = chunk_probe(&chars);
    if !inside {
        return false;
    }
    let joined: usize = if chunks {
        assert(chars@.subrange(0, chars@.len() as int) =~= chars@);
        find_first(&chars, 0, chars.len(), '#')
    } else {
        0
    };
    runs_are_within(&chars, joined)
}

impl ContractId {
    /// Whether two identifiers are the same.
    pub fn same_as(&self, other: &ContractId) -> (r: bool)
        ensures
            r == (self@ == other@),
    {
        let mut i: usize = 0;
        while i < CONTRACT_ID_LEN
            invariant
                i <= CONTRACT_ID_LEN,
                forall|k: int| 0 <= k < i ==> self.0@[k] == other.0@[k],
            decreases CONTRACT_ID_LEN - i,
        {
            if self.0[i] != other.0[i] {
                return false;
            }
            i = i + 1;
        }
        assert(self.0@ =~= other.0@);
        true
    }

    /// The text of this identifier, as the RGB libraries write it.
    pub fn to_text(&self) -> (text: String)
        ensures
            text@ == contract_id_text(self@),
            free_of(text@, '/'),
    {
        ask_encoder(&self.0)
    }

    /// Turns the decoder's outcome into the library's own terms: the bytes
    /// become an identifier, a refusal is kept with its reason.
    pub fn from_decoding(outcome: Result<[u8; 32], Baid58ParseError>) -> (res: Result<
        ContractId,
        AssetError,
    >)
        ensures
            match outcome {
                Ok(bytes) => res == Ok::<ContractId, AssetError>(ContractId(bytes)),
                Err(reason) => res == Err::<ContractId, AssetError>(AssetError::Rejected(reason)),
            },
    {
        match outcome {
            Ok(bytes) => Ok(ContractId(bytes)),
            Err(reason) => Err(AssetError::Rejected(reason)),
        }
    }
}

/// Whether two assets are the same: both native currency, or both the same
/// ledger asset.
pub fn same_assets(a: &Option<ContractId>, b: &Option<ContractId>) -> (r: bool)
    ensures
        r == (asset_view(*a) == asset_view(*b)),
{
    match (a, b) {
        (None, None) => true,
        (Some(x), Some(y)) => x.same_as(y),
        _ => false,
    }
}

/// Writes an asset field: `btc` for native currency, else the text of the
/// identifier.
pub fn write_asset(asset: &Option<ContractId>) -> (text: String)
    ensures
        text@ == asset_text(asset_view(*asset)),
        free_of(text@, '/'),
{
    match asset {
        Some(id) => id.to_text(),
        None => {
            proof {
                reveal_strlit("btc");
                assert("btc"@ =~= native_token());
            }
            String::from_str("btc")
        },
    }
}

/// Whether the text of this asset reads back as the asset: writes it, reads
/// what was written and compares.
pub fn reads_back(asset: &Option<ContractId>) -> (r: bool)
    ensures
        r == asset_reads_back(asset_view(*asset)),
{
    let text = write_asset(asset);
    match parse_opt_asset(text.as_str()) {
        Ok(read) => same_assets(&read, asset),
        Err(_) => false,
    }
}

/// Reads the text of a contract identifier. `Ok` exactly when the text has a
/// decodable shape and the decoder reads an identifier from it;
/// `Malformed` exactly when the shape is not decodable; `Rejected` exactly
/// when the decoder was asked and refused.
pub fn parse_contract_id(text: &str) -> (res: Result<ContractId, AssetError>)
    ensures
        match res {
            Ok(id) => decode_contract_id(text@) == Some(id@),
            Err(AssetError::Malformed) => !decodable_shape(text@),
            Err(AssetError::Rejected(_)) => decodable_shape(text@) && contract_id_decoding(text@)
                is None,
        },
{
    if !has_decodable_shape(text) {
        return Err(AssetError::Malformed);
    }
    ContractId::from_decoding(ask_decoder(text))
}

/// Reads an asset field: `btc` is native currency, `Ok(None)`; any other
/// text must be a contract identifier, `Ok(Some(..))`, and is refused as
/// `parse_contract_id` refuses it.
pub fn parse_opt_asset(asset: &str) -> (res: Result<Option<ContractId>, AssetError>)
    ensures
        match res {
            Ok(found) => decode_asset(asset@) == Some(asset_view(found)),
            Err(_) => decode_asset(asset@) is None,
        },
        asset@ == native_token() ==> res == Ok::<Option<ContractId>, AssetError>(None),
        res matches Err(AssetError::Malformed) ==> !decodable_shape(asset@),
        res matches Err(AssetError::Rejected(_)) ==> decodable_shape(asset@),
{
    proof {
        reveal_strlit("btc");
        assert("btc"@ =~= native_token());
    }
    if same_text(asset, "btc") {
        Ok(None)
    } else {
        match parse_contract_id(asset) {
            Ok(id) => Ok(Some(id)),
            Err(e) => Err(e),
        }
    }
}

} // verus!
