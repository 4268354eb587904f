//! The fields of an offer: the text between `/` separators.
//!
//! Every `/` separates; nothing escapes it. A text with `k` separators has
//! `k + 1` fields, some of them possibly empty: `"a/"` has the fields `"a"`
//! and `""`, and the empty text has one empty field.

use vstd::prelude::*;
use vstd::string::*;
use crate::decimal::{is_digit, is_numeral};
use crate::hex::{hex_of, lemma_hex_digit_round_trip};
use crate::text::{
    chars_of, first_index_of, free_of, lemma_first_index_of, lemma_first_index_of_bounds,
};

verus! {

/// The character that separates two fields.
pub const SEPARATOR: char = '/';

/// Number of fields in an offer, whatever its layout.
pub const FIELD_COUNT: usize = 6;

/// Whether `s` holds no separator.
pub open spec fn separator_free(s: Seq<char>) -> bool {
    free_of(s, SEPARATOR)
}

/// Where the first separator of `s` stands; the length of `s` if it has none.
pub open spec fn first_separator(s: Seq<char>) -> int {
    first_index_of(s, SEPARATOR)
}

/// The fields of `s`, left to right.
pub open spec fn fields_of(s: Seq<char>) -> Seq<Seq<char>>
    decreases s.len(),
{
    let i = first_separator(s);
    if 0 <= i < s.len() {
        seq![s.take(i)] + fields_of(s.skip(i + 1))
    } else {
        seq![s]
    }
}

/// The text whose fields are `fields`: they are written in order with one
/// separator between neighbours.
pub open spec fn join_fields(fields: Seq<Seq<char>>) -> Seq<char>
    decreases fields.len(),
{
    if fields.len() == 0 {
        Seq::empty()
    } else if fields.len() == 1 {
        fields[0]
    } else {
        fields[0] + seq![SEPARATOR] + join_fields(fields.drop_first())
    }
}

/// A text without separator is its own single field.
pub proof fn lemma_fields_of_separator_free(s: Seq<char>)
    requires
        separator_free(s),
    ensures
        fields_of(s) == seq![s],
{
    assert(s.take(s.len() as int) =~= s);
    lemma_first_index_of(s, SEPARATOR, s.len() as int);
}

/// The fields of a text hold no separator, there is at least one of them,
/// and joined again they give the text back.
pub proof fn lemma_join_fields_of(s: Seq<char>)
    ensures
        fields_of(s).len() >= 1,
        forall|k: int| 0 <= k < fields_of(s).len() ==> separator_free(#[trigger] fields_of(s)[k]),
        join_fields(fields_of(s)) == s,
    decreases s.len(),
{
    let i = first_separator(s);
    lemma_first_index_of_bounds(s, SEPARATOR);
    if 0 <= i < s.len() {
        let rest = s.skip(i + 1);
        lemma_join_fields_of(rest);
        let all = fields_of(s);
        assert(all == seq![s.take(i)] + fields_of(rest));
        assert(all[0] == s.take(i));
        assert(all.drop_first() =~= fields_of(rest));
        assert forall|k: int| 0 <= k < all.len() implies separator_free(#[trigger] all[k]) by {
            if k > 0 {
                assert(all[k] == fields_of(rest)[k - 1]);
            }
        }
        assert(join_fields(all) == s.take(i) + seq![SEPARATOR] + rest);
        assert(s.take(i) + seq![SEPARATOR] + rest =~= s);
    } else {
        assert(s.take(s.len() as int) =~= s);
    }
}

/// Joining separator-free fields and splitting the text again gives the same
/// fields: the two operations are inverse to each other.
pub proof fn lemma_fields_of_join(fields: Seq<Seq<char>>)
    requires
        fields.len() >= 1,
        forall|k: int| 0 <= k < fields.len() ==> separator_free(#[trigger] fields[k]),
    ensures
        fields_of(join_fields(fields)) == fields,
    decreases fields.len(),
{
    if fields.len() == 1 {
        lemma_fields_of_separator_free(fields[0]);
        assert(seq![fields[0]] =~= fields);
    } else {
        let head = fields[0];
        let tail = fields.drop_first();
        let s = join_fields(fields);
        assert(s == head + seq![SEPARATOR] + join_fields(tail));
        assert(s.take(head.len() as int) =~= head);
        lemma_first_index_of(s, SEPARATOR, head.len() as int);
        assert(s.skip(head.len() as int + 1) =~= join_fields(tail));
        assert forall|k: int| 0 <= k < tail.len() implies separator_free(#[trigger] tail[k]) by {
            assert(tail[k] == fields[k + 1]);
        }
        lemma_fields_of_join(tail);
        assert(seq![head] + tail =~= fields);
    }
}

/// Six fields joined are the fields in order with five separators between
/// them.
pub proof fn lemma_join_six(
    a: Seq<char>,
    b: Seq<char>,
    c: Seq<char>,
    d: Seq<char>,
    e: Seq<char>,
    f: Seq<char>,
)
    ensures
        join_fields(seq![a, b, c, d, e, f]) == a + seq![SEPARATOR] + b + seq![SEPARATOR] + c
            + seq![SEPARATOR] + d + seq![SEPARATOR] + e + seq![SEPARATOR] + f,
{
    let sep = seq![SEPARATOR];
    let f6 = seq![a, b, c, d, e, f];
    let f5 = seq![b, c, d, e, f];
    let f4 = seq![c, d, e, f];
    let f3 = seq![d, e, f];
    let f2 = seq![e, f];
    let f1 = seq![f];
    assert(f6.drop_first() =~= f5);
    assert(f5.drop_first() =~= f4);
    assert(f4.drop_first() =~= f3);
    assert(f3.drop_first() =~= f2);
    assert(f2.drop_first() =~= f1);
    assert(join_fields(f1) == f);
    assert(join_fields(f2) == e + sep + join_fields(f1));
    assert(join_fields(f3) == d + sep + join_fields(f2));
    assert(join_fields(f4) == c + sep + join_fields(f3));
    assert(join_fields(f5) == b + sep + join_fields(f4));
    assert(join_fields(f6) == a + sep + join_fields(f5));
    assert(join_fields(f6) =~= a + sep + b + sep + c + sep + d + sep + e + sep + f);
}

/// A numeral holds no separator.
pub proof fn lemma_numeral_separator_free(s: Seq<char>)
    requires
        is_numeral(s),
    ensures
        separator_free(s),
{
    assert forall|i: int| 0 <= i < s.len() implies #[trigger] s[i] != SEPARATOR by {
        assert(is_digit(s[i]));
    }
}

/// Hexadecimal text written by `hex_of` holds no separator.
pub proof fn lemma_hex_separator_free(bytes: Seq<u8>)
    ensures
        separator_free(hex_of(bytes)),
{
    let s = hex_of(bytes);
    assert forall|i: int| 0 <= i < s.len() implies #[trigger] s[i] != SEPARATOR by {
        if i % 2 == 0 {
            lemma_hex_digit_round_trip((bytes[i / 2] / 16) as nat);
        } else {
            lemma_hex_digit_round_trip((bytes[i / 2] % 16) as nat);
        }
    }
}

/// The fields of a text from the start of one field on: the field up to
/// the next separator, then the fields behind that separator.
pub proof fn lemma_fields_of_next(s: Seq<char>, start: int, sep: int)
    requires
        0 <= start <= sep < s.len(),
        separator_free(s.subrange(start, sep)),
        s[sep] == SEPARATOR,
    ensures
        fields_of(s.skip(start)) == seq![s.subrange(start, sep)] + fields_of(s.skip(sep + 1)),
{
    let rest = s.skip(start);
    assert(rest.take(sep - start) =~= s.subrange(start, sep));
    lemma_first_index_of(rest, SEPARATOR, sep - start);
    assert(rest.skip(sep - start + 1) =~= s.skip(sep + 1));
}

/// The fields of a text from the start of its last field on: that field.
pub proof fn lemma_fields_of_last(s: Seq<char>, start: int)
    requires
        0 <= start <= s.len(),
        separator_free(s.subrange(start, s.len() as int)),
    ensures
        fields_of(s.skip(start)) == seq![s.subrange(start, s.len() as int)],
{
    assert(s.skip(start) =~= s.subrange(start, s.len() as int));
    lemma_fields_of_separator_free(s.skip(start));
}

/// The texts between the bounds, in order.
pub open spec fn texts_between(s: Seq<char>, bounds: Seq<(usize, usize)>) -> Seq<Seq<char>> {
    Seq::new(bounds.len(), |k: int| s.subrange(bounds[k].0 as int, bounds[k].1 as int))
}

/// Where each field of `s` starts and ends, counted in characters: one pair
/// for each field, in order, the end exclusive. The first field starts at
/// 0, each next one behind the separator that ends the one before, and the
/// last one ends where the text ends.
pub fn field_bounds(s: &str) -> (bounds: Vec<(usize, usize)>)
    ensures
        bounds@.len() == fields_of(s@).len(),
        forall|k: int|
            0 <= k < bounds@.len() ==> {
                &&& (#[trigger] bounds@[k]).0 <= bounds@[k].1 <= s@.len()
                &&& s@.subrange(bounds@[k].0 as int, bounds@[k].1 as int) == fields_of(s@)[k]
            },
        bounds@[0].0 == 0,
        bounds@[bounds@.len() - 1].1 == s@.len(),
        forall|k: int|
            0 < k < bounds@.len() ==> (#[trigger] bounds@[k]).0 == bounds@[k - 1].1 + 1,
{
    let chars = chars_of(s);
    let n: usize = chars.len();
    let mut bounds: Vec<(usize, usize)> = Vec::new();
    let mut start: usize = 0;
    let mut i: usize = 0;
    proof {
        assert(s@.skip(0) =~= s@);
        assert(texts_between(s@, bounds@) =~= Seq::<Seq<char>>::empty());
        assert(Seq::<Seq<char>>::empty() + fields_of(s@) =~= fields_of(s@));
    }
    while i < n
        invariant
            start <= i <= n,
            n == s@.len(),
            chars@ == s@,
            separator_free(s@.subrange(start as int, i as int)),
            bounds@.len() == 0 ==> start == 0,
            bounds@.len() > 0 ==> bounds@[0].0 == 0 && start == bounds@[bounds@.len() - 1].1 + 1,
            forall|k: int|
                0 < k < bounds@.len() ==> (#[trigger] bounds@[k]).0 == bounds@[k - 1].1 + 1,
            forall|k: int|
                0 <= k < bounds@.len() ==> (#[trigger] bounds@[k]).0 <= bounds@[k].1 <= s@.len(),
            fields_of(s@) == texts_between(s@, bounds@) + fields_of(s@.skip(start as int)),
        decreases n - i,
    {
        if chars[i] == SEPARATOR {
            let ghost before = bounds@;
            proof {
                lemma_fields_of_next(s@, start as int, i as int);
            }
            bounds.push((start, i));
            proof {
                assert(texts_between(s@, bounds@) =~= texts_between(s@, before) + seq![
                    s@.subrange(start as int, i as int),
                ]);
                assert(texts_between(s@, bounds@) + fields_of(s@.skip(i + 1)) =~= texts_between(
                    s@,
                    before,
                ) + (seq![s@.subrange(start as int, i as int)] + fields_of(s@.skip(i + 1))));
            }
            start = i + 1;
            assert(s@.subrange(start as int, start as int) =~= Seq::<char>::empty());
        } else {
            assert forall|k: int| 0 <= k < i + 1 - start implies #[trigger] s@.subrange(
                start as int,
                i + 1,
            )[k] != SEPARATOR by {
                if k < i - start {
                    assert(s@.subrange(start as int, i as int)[k] == s@[start + k]);
                }
            }
        }
        i = i + 1;
    }
    let ghost before = bounds@;
    proof {
        lemma_fields_of_last(s@, start as int);
    }
    bounds.push((start, n));
    proof {
        assert(texts_between(s@, bounds@) =~= texts_between(s@, before) + seq![
            s@.subrange(start as int, n as int),
        ]);
        assert(fields_of(s@) == texts_between(s@, bounds@));
        assert forall|k: int| 0 <= k < bounds@.len() implies s@.subrange(
            (#[trigger] bounds@[k]).0 as int,
            bounds@[k].1 as int,
        ) == fields_of(s@)[k] by {
            assert(texts_between(s@, bounds@)[k] == s@.subrange(
                bounds@[k].0 as int,
                bounds@[k].1 as int,
            ));
        }
    }
    bounds
}

/// The six fields of `s`, in order, if it has exactly six: `None` exactly
/// when the number of fields is another.
pub fn split_six<'a>(s: &'a str) -> (r: Option<Vec<&'a str>>)
    ensures
        r is Some <==> fields_of(s@).len() == FIELD_COUNT,
        r matches Some(fields) ==> {
            &&& fields@.len() == FIELD_COUNT
            &&& forall|k: int| 0 <= k < FIELD_COUNT ==> (#[trigger] fields@[k])@ == fields_of(s@)[k]
        },
{
    let bounds = field_bounds(s);
    if bounds.len() != FIELD_COUNT {
        return None;
    }
    let mut fields: Vec<&'a str> = Vec::new();
    let mut k: usize = 0;
    while k < FIELD_COUNT
        invariant
            k <= FIELD_COUNT,
            bounds@.len() == FIELD_COUNT,
            fields_of(s@).len() == FIELD_COUNT,
            fields@.len() == k,
            forall|j: int|
                0 <= j < bounds@.len() ==> {
                    &&& (#[trigger] bounds@[j]).0 <= bounds@[j].1 <= s@.len()
                    &&& s@.subrange(bounds@[j].0 as int, bounds@[j].1 as int) == fields_of(s@)[j]
                },
            forall|j: int| 0 <= j < k ==> (#[trigger] fields@[j])@ == fields_of(s@)[j],
        decreases FIELD_COUNT - k,
    {
        let (from, to) = bounds[k];
        let field = s.substring_char(from, to);
        fields.push(field);
        k = k + 1;
    }
    Some(fields)
}

} // verus!
