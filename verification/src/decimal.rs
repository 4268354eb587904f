//! Unsigned decimal numerals: the text form of quantities and expiry.
//!
//! A numeral is a non-empty run of the digits `0` to `9`. There is no sign,
//! no blank and no grouping character; leading zeros are harmless.

use vstd::prelude::*;
use vstd::string::*;

verus! {

/// Whether `c` is one of the ten decimal digits.
pub open spec fn is_digit(c: char) -> bool {
    '0' <= c && c <= '9'
}

/// The number a decimal digit stands for; `0` for any other character.
pub open spec fn digit_value(c: char) -> nat {
    if is_digit(c) {
        (c as u32 - '0' as u32) as nat
    } else {
        0
    }
}

/// The character that writes the digit `d`.
pub open spec fn digit_char(d: nat) -> char
    recommends
        d < 10,
{
    ('0' as u32 + d as u32) as char
}

/// A numeral: at least one character, and every character a digit.
pub open spec fn is_numeral(s: Seq<char>) -> bool {
    &&& s.len() > 0
    &&& forall|i: int| 0 <= i < s.len() ==> is_digit(#[trigger] s[i])
}

/// The number that a run of digits writes, most significant digit first.
pub open spec fn numeral_value(s: Seq<char>) -> nat
    decreases s.len(),
{
    if s.len() == 0 {
        0
    } else {
        10 * numeral_value(s.drop_last()) + digit_value(s.last())
    }
}

/// What a numeric field decodes to: the number it writes, provided the field
/// is a numeral and the number fits in 64 bits.
pub open spec fn decode_u64(s: Seq<char>) -> Option<nat> {
    if is_numeral(s) && numeral_value(s) <= u64::MAX {
        Some(numeral_value(s))
    } else {
        None
    }
}

/// The shortest numeral that writes `n`.
pub open spec fn numeral_of(n: nat) -> Seq<char>
    decreases n,
{
    if n < 10 {
        seq![digit_char(n)]
    } else {
        numeral_of(n / 10).push(digit_char(n % 10))
    }
}

/// A prefix of a run of digits never writes a larger number than the whole.
pub proof fn lemma_prefix_value_le(s: Seq<char>, k: int)
    requires
        0 <= k <= s.len(),
    ensures
        numeral_value(s.take(k)) <= numeral_value(s),
    decreases s.len(),
{
    if k == s.len() {
        assert(s.take(k) =~= s);
    } else {
        lemma_prefix_value_le(s.drop_last(), k);
        assert(s.drop_last().take(k) =~= s.take(k));
    }
}

/// Extending a run of digits by one character.
pub proof fn lemma_value_step(s: Seq<char>, i: int)
    requires
        0 <= i < s.len(),
    ensures
        numeral_value(s.take(i + 1)) == 10 * numeral_value(s.take(i)) + digit_value(s[i]),
{
    assert(s.take(i + 1).drop_last() =~= s.take(i));
    assert(s.take(i + 1).last() == s[i]);
}

/// `numeral_of` writes a numeral, and that numeral reads back as the number.
pub proof fn lemma_numeral_of_round_trip(n: nat)
    ensures
        is_numeral(numeral_of(n)),
        numeral_value(numeral_of(n)) == n,
    decreases n,
{
    if n < 10 {
        let s = numeral_of(n);
        assert(s.len() == 1);
        assert(s[0] == digit_char(n));
        assert(is_digit(s[0]));
        assert(s.drop_last() =~= Seq::<char>::empty());
        assert(numeral_value(s.drop_last()) == 0);
        assert(digit_value(s.last()) == n);
    } else {
        let head = numeral_of(n / 10);
        let s = numeral_of(n);
        lemma_numeral_of_round_trip(n / 10);
        assert(s == head.push(digit_char(n % 10)));
        assert(s.drop_last() =~= head);
        assert(s.last() == digit_char(n % 10));
        assert(is_digit(s.last()));
        assert forall|i: int| 0 <= i < s.len() implies is_digit(#[trigger] s[i]) by {
            if i < head.len() {
                assert(s[i] == head[i]);
            }
        }
        assert(digit_value(s.last()) == n % 10);
    }
}

/// Every number below 2^64 is what its own numeral decodes to.
pub proof fn lemma_decode_numeral_of(n: nat)
    requires
        n <= u64::MAX,
    ensures
        decode_u64(numeral_of(n)) == Some(n),
{
    lemma_numeral_of_round_trip(n);
}

/// Reads a numeric field. `Some(n)` exactly when the field is a numeral that
/// writes `n` and `n` fits in 64 bits; `None` for an empty field, for any
/// character that is not a digit (a sign included), and on overflow.
pub fn parse_u64(s: &str) -> (r: Option<u64>)
    ensures
        match r {
            Some(n) => decode_u64(s@) == Some(n as nat),
            None => decode_u64(s@) is None,
        },
{
    if !s.is_ascii() {
        return None;
    }
    let bytes = s.as_bytes();
    proof {
        is_ascii_spec_bytes(s);
    }
    let n: usize = bytes.len();
    if n == 0 {
        return None;
    }
    let mut acc: u64 = 0;
    let mut i: usize = 0;
    while i < n
        invariant
            i <= n,
            n == s@.len(),
            is_ascii(s),
            bytes@ == Seq::new(s@.len(), |k: int| s@[k] as u8),
            forall|k: int| 0 <= k < i ==> is_digit(#[trigger] s@[k]),
            acc == numeral_value(s@.take(i as int)),
        decreases n - i,
    {
        let b: u8 = bytes[i];
        assert(b == s@[i as int] as u8);
        assert('\0' <= s@[i as int] <= '\u{7f}');
        if b < 48 || b > 57 {
            assert(!is_digit(s@[i as int]));
            return None;
        }
        let d: u64 = (b - 48) as u64;
        assert(is_digit(s@[i as int]));
        assert(d == digit_value(s@[i as int]));
        proof {
            lemma_value_step(s@, i as int);
        }
        let next: Option<u64> = match acc.checked_mul(10) {
            Some(m) => m.checked_add(d),
            None => None,
        };
        match next {
            Some(v) => {
                acc = v;
            },
            None => {
                proof {
                    lemma_prefix_value_le(s@, i + 1);
                }
                return None;
            },
        }
        i = i + 1;
    }
    assert(s@.take(n as int) =~= s@);
    Some(acc)
}

/// The text of one digit.
fn digit_text(d: u64) -> (t: &'static str)
    requires
        d < 10,
    ensures
        t@ == seq![digit_char(d as nat)],
{
    proof {
        reveal_strlit("0");
        reveal_strlit("1");
        reveal_strlit("2");
        reveal_strlit("3");
        reveal_strlit("4");
        reveal_strlit("5");
        reveal_strlit("6");
        reveal_strlit("7");
        reveal_strlit("8");
        reveal_strlit("9");
    }
    let t = if d == 0 {
        "0"
    } else if d == 1 {
        "1"
    } else if d == 2 {
        "2"
    } else if d == 3 {
        "3"
    } else if d == 4 {
        "4"
    } else if d == 5 {
        "5"
    } else if d == 6 {
        "6"
    } else if d == 7 {
        "7"
    } else if d == 8 {
        "8"
    } else {
        "9"
    };
    assert(t@ =~= seq![digit_char(d as nat)]);
    t
}

/// Writes a number as its shortest numeral.
pub fn write_u64(n: u64) -> (s: String)
    ensures
        s@ == numeral_of(n as nat),
    decreases n,
{
    if n < 10 {
        let s = String::from_str(digit_text(n));
        s
    } else {
        let mut s = write_u64(n / 10);
        s.append(digit_text(n % 10));
        assert(s@ =~= numeral_of((n / 10) as nat).push(digit_char((n % 10) as nat)));
        s
    }
}

} // verus!
