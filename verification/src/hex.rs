//! Hexadecimal text, and the payment hash that an offer carries in it.
//!
//! Two hexadecimal digits write one byte, the high half first. Both letter
//! cases are read; text is written in lower case. Text of odd length, or with
//! any other character in it, writes nothing: it is never cut or padded.

use vstd::prelude::*;
use vstd::string::*;

verus! {

/// Number of bytes in a payment hash.
pub const PAYMENT_HASH_LEN: usize = 32;

/// The handle by which a swap is tied to one Lightning payment: 32 bytes.
#[derive(Clone, Copy, Debug, PartialEq, Eq, Hash)]
pub struct PaymentHash(pub [u8; 32]);

impl View for PaymentHash {
    type V = Seq<u8>;

    open spec fn view(&self) -> Seq<u8> {
        self.0@
    }
}

/// Whether `c` is a hexadecimal digit, in either case.
pub open spec fn is_hex_digit(c: char) -> bool {
    ||| '0' <= c && c <= '9'
    ||| 'a' <= c && c <= 'f'
    ||| 'A' <= c && c <= 'F'
}

/// The number, below 16, that a hexadecimal digit stands for; `0` for any
/// other character.
pub open spec fn hex_digit_value(c: char) -> nat {
    if '0' <= c && c <= '9' {
        (c as u32 - '0' as u32) as nat
    } else if 'a' <= c && c <= 'f' {
        (c as u32 - 'a' as u32 + 10) as nat
    } else if 'A' <= c && c <= 'F' {
        (c as u32 - 'A' as u32 + 10) as nat
    } else {
        0
    }
}

/// The lower-case digit that writes `v`.
pub open spec fn hex_digit_char(v: nat) -> char
    recommends
        v < 16,
{
    if v < 10 {
        ('0' as u32 + v as u32) as char
    } else {
        ('a' as u32 + (v - 10) as u32) as char
    }
}

/// Hexadecimal text: an even number of characters, each a hexadecimal digit.
/// The empty text qualifies and writes no byte.
pub open spec fn is_hex_text(s: Seq<char>) -> bool {
    &&& s.len() % 2 == 0
    &&& forall|i: int| 0 <= i < s.len() ==> is_hex_digit(#[trigger] s[i])
}

/// The byte that the `k`-th pair of digits in `s` writes.
pub open spec fn hex_byte_at(s: Seq<char>, k: int) -> u8 {
    (16 * hex_digit_value(s[2 * k]) + hex_digit_value(s[2 * k + 1])) as u8
}

/// What hexadecimal text decodes to: one byte for each pair of digits, in
/// order; nothing for text that is not hexadecimal.
pub open spec fn hex_decoding(s: Seq<char>) -> Option<Seq<u8>> {
    if is_hex_text(s) {
        Some(Seq::new((s.len() / 2) as nat, |k: int| hex_byte_at(s, k)))
    } else {
        None
    }
}

/// What the payment-hash field decodes to: the bytes its text writes,
/// provided there are exactly 32 of them, that is 64 digits.
pub open spec fn decode_payment_hash(s: Seq<char>) -> Option<Seq<u8>> {
    match hex_decoding(s) {
        Some(bytes) => if bytes.len() == PAYMENT_HASH_LEN {
            Some(bytes)
        } else {
            None
        },
        None => None,
    }
}

/// The lower-case hexadecimal text of `bytes`.
pub open spec fn hex_of(bytes: Seq<u8>) -> Seq<char> {
    Seq::new(
        2 * bytes.len(),
        |i: int|
            if i % 2 == 0 {
                hex_digit_char((bytes[i / 2] / 16) as nat)
            } else {
                hex_digit_char((bytes[i / 2] % 16) as nat)
            },
    )
}

/// A digit written by `hex_digit_char` is a hexadecimal digit with the value
/// it was written for.
pub proof fn lemma_hex_digit_round_trip(v: nat)
    requires
        v < 16,
    ensures
        is_hex_digit(hex_digit_char(v)),
        hex_digit_value(hex_digit_char(v)) == v,
        hex_digit_char(v) != '/',
{
}

/// The text that `hex_of` writes decodes to the bytes it was written from.
pub proof fn lemma_hex_of_round_trip(bytes: Seq<u8>)
    ensures
        is_hex_text(hex_of(bytes)),
        hex_decoding(hex_of(bytes)) == Some(bytes),
{
    let s = hex_of(bytes);
    assert forall|i: int| 0 <= i < s.len() implies is_hex_digit(#[trigger] s[i]) by {
        if i % 2 == 0 {
            lemma_hex_digit_round_trip((bytes[i / 2] / 16) as nat);
        } else {
            lemma_hex_digit_round_trip((bytes[i / 2] % 16) as nat);
        }
    }
    let decoded = hex_decoding(s)->0;
    assert(decoded.len() == bytes.len());
    assert forall|k: int| 0 <= k < bytes.len() implies decoded[k] == bytes[k] by {
        lemma_hex_digit_round_trip((bytes[k] / 16) as nat);
        lemma_hex_digit_round_trip((bytes[k] % 16) as nat);
        assert(s[2 * k] == hex_digit_char((bytes[k] / 16) as nat));
        assert(s[2 * k + 1] == hex_digit_char((bytes[k] % 16) as nat));
    }
    assert(decoded =~= bytes);
}

/// The value of the hexadecimal digit that the ASCII byte `b` writes.
fn hex_digit_of(b: u8) -> (r: Option<u8>)
    requires
        b <= 0x7f,
    ensures
        match r {
            Some(v) => is_hex_digit(b as char) && v == hex_digit_value(b as char),
            None => !is_hex_digit(b as char),
        },
{
    if b >= 48 && b <= 57 {
        Some(b - 48)
    } else if b >= 97 && b <= 102 {
        Some(b - 97 + 10)
    } else if b >= 65 && b <= 70 {
        Some(b - 65 + 10)
    } else {
        None
    }
}

/// Decodes hexadecimal text into bytes. `Some` exactly for text of even
/// length made of hexadecimal digits only, with one byte for each pair.
pub fn hex_str_to_vec(hex: &str) -> (r: Option<Vec<u8>>)
    ensures
        match r {
            Some(bytes) => hex_decoding(hex@) == Some(bytes@),
            None => hex_decoding(hex@) is None,
        },
{
    if !hex.is_ascii() {
        return None;
    }
    let text = hex.as_bytes();
    proof {
        is_ascii_spec_bytes(hex);
    }
    let n: usize = text.len();
    if n % 2 != 0 {
        return None;
    }
    let mut out: Vec<u8> = Vec::new();
    let mut i: usize = 0;
    while i < n
        invariant
            i <= n,
            i % 2 == 0,
            n % 2 == 0,
            n == hex@.len(),
            is_ascii(hex),
            text@ == Seq::new(hex@.len(), |k: int| hex@[k] as u8),
            forall|k: int| 0 <= k < i ==> is_hex_digit(#[trigger] hex@[k]),
            out@.len() == i / 2,
            forall|k: int| 0 <= k < out@.len() ==> out@[k] == hex_byte_at(hex@, k),
        decreases n - i,
    {
        let hi_byte: u8 = text[i];
        let lo_byte: u8 = text[i + 1];
        assert('\0' <= hex@[i as int] <= '\u{7f}');
        assert('\0' <= hex@[i + 1] <= '\u{7f}');
        assert(hi_byte as char == hex@[i as int]);
        assert(lo_byte as char == hex@[i + 1]);
        let hi: u8 = match hex_digit_of(hi_byte) {
            Some(v) => v,
            None => {
                return None;
            },
        };
        let lo: u8 = match hex_digit_of(lo_byte) {
            Some(v) => v,
            None => {
                return None;
            },
        };
        let byte: u8 = hi * 16 + lo;
        assert(byte == hex_byte_at(hex@, i as int / 2));
        out.push(byte);
        i = i + 2;
    }
    assert(out@ =~= hex_decoding(hex@)->0);
    Some(out)
}

/// Reads the payment-hash field: `Some` exactly for 64 hexadecimal digits,
/// holding the 32 bytes they write.
pub fn parse_payment_hash(s: &str) -> (r: Option<PaymentHash>)
    ensures
        match r {
            Some(hash) => decode_payment_hash(s@) == Some(hash@),
            None => decode_payment_hash(s@) is None,
        },
{
    let bytes: Vec<u8> = match hex_str_to_vec(s) {
        Some(bytes) => bytes,
        None => {
            return None;
        },
    };
    if bytes.len() != PAYMENT_HASH_LEN {
        return None;
    }
    let mut hash: [u8; 32] = [0u8; 32];
    let mut i: usize = 0;
    while i < PAYMENT_HASH_LEN
        invariant
            i <= PAYMENT_HASH_LEN,
            bytes@.len() == PAYMENT_HASH_LEN,
            forall|k: int| 0 <= k < i ==> hash@[k] == bytes@[k],
        decreases PAYMENT_HASH_LEN - i,
    {
        hash[i] = bytes[i];
        i = i + 1;
    }
    assert(hash@ =~= bytes@);
    Some(PaymentHash(hash))
}

/// The text of one lower-case hexadecimal digit.
fn hex_digit_text(v: u8) -> (t: &'static str)
    requires
        v < 16,
    ensures
        t@ == seq![hex_digit_char(v as nat)],
{
    proof {
        reveal_strlit("0");
        reveal_strlit("1");
        reveal_strlit("2");
        reveal_strlit("3");
        reveal_strlit("4");
        reveal_strlit("5");
        reveal_strlit("6");
        reveal_strlit("7");
        reveal_strlit("8");
        reveal_strlit("9");
        reveal_strlit("a");
        reveal_strlit("b");
        reveal_strlit("c");
        reveal_strlit("d");
        reveal_strlit("e");
        reveal_strlit("f");
    }
    let t = if v == 0 {
        "0"
    } else if v == 1 {
        "1"
    } else if v == 2 {
        "2"
    } else if v == 3 {
        "3"
    } else if v == 4 {
        "4"
    } else if v == 5 {
        "5"
    } else if v == 6 {
        "6"
    } else if v == 7 {
        "7"
    } else if v == 8 {
        "8"
    } else if v == 9 {
        "9"
    } else if v == 10 {
        "a"
    } else if v == 11 {
        "b"
    } else if v == 12 {
        "c"
    } else if v == 13 {
        "d"
    } else if v == 14 {
        "e"
    } else {
        "f"
    };
    assert(t@ =~= seq![hex_digit_char(v as nat)]);
    t
}

/// Writes bytes as lower-case hexadecimal text, two digits for each byte.
pub fn write_hex(bytes: &[u8]) -> (s: String)
    ensures
        s@ == hex_of(bytes@),
{
    let mut s = String::from_str("");
    proof {
        reveal_strlit("");
        assert(s@ =~= hex_of(bytes@.take(0)));
    }
    let n: usize = bytes.len();
    let mut i: usize = 0;
    while i < n
        invariant
            i <= n,
            n == bytes@.len(),
            s@ == hex_of(bytes@.take(i as int)),
        decreases n - i,
    {
        let b: u8 = bytes[i];
        let ghost before = s@;
        s.append(hex_digit_text(b / 16));
        s.append(hex_digit_text(b % 16));
        proof {
            let next = hex_of(bytes@.take(i + 1));
            assert(s@ == before + seq![hex_digit_char((b / 16) as nat)] + seq![
                hex_digit_char((b % 16) as nat),
            ]);
            assert(next.len() == s@.len());
            assert forall|k: int| 0 <= k < next.len() implies next[k] == s@[k] by {
                if k < 2 * i {
                    assert(bytes@.take(i + 1)[k / 2] == bytes@.take(i as int)[k / 2]);
                    assert(s@[k] == before[k]);
                } else {
                    assert(bytes@.take(i + 1)[k / 2] == b);
                }
            }
            assert(s@ =~= next);
        }
        i = i + 1;
    }
    assert(bytes@.take(n as int) =~= bytes@);
    s
}

impl PaymentHash {
    /// Whether two hashes are the same.
    pub fn same_as(&self, other: &PaymentHash) -> (r: bool)
        ensures
            r == (self@ == other@),
    {
        let mut i: usize = 0;
        while i < PAYMENT_HASH_LEN
            invariant
                i <= PAYMENT_HASH_LEN,
                forall|k: int| 0 <= k < i ==> self.0@[k] == other.0@[k],
            decreases PAYMENT_HASH_LEN - i,
        {
            if self.0[i] != other.0[i] {
                return false;
            }
            i = i + 1;
        }
        assert(self.0@ =~= other.0@);
        true
    }

    /// The hash as 64 lower-case hexadecimal digits.
    pub fn to_hex(&self) -> (s: String)
        ensures
            s@ == hex_of(self@),
    {
        write_hex(self.0.as_slice())
    }
}

} // verus!
