//! Small facts and helpers about text as a sequence of characters.

use vstd::prelude::*;
use vstd::string::*;

verus! {

/// Whether `c` occurs nowhere in `s`.
pub open spec fn free_of(s: Seq<char>, c: char) -> bool {
    forall|i: int| 0 <= i < s.len() ==> #[trigger] s[i] != c
}

/// Where `c` first occurs in `s`; the length of `s` if it never does.
pub open spec fn first_index_of(s: Seq<char>, c: char) -> int
    decreases s.len(),
{
    if s.len() == 0 || s[0] == c {
        0
    } else {
        1 + first_index_of(s.drop_first(), c)
    }
}

/// How often `c` occurs in `s`.
pub open spec fn occurrences(s: Seq<char>, c: char) -> nat
    decreases s.len(),
{
    if s.len() == 0 {
        0
    } else {
        occurrences(s.drop_last(), c) + if s.last() == c {
            1nat
        } else {
            0nat
        }
    }
}

/// `first_index_of` is the one position that holds `c`, or the end, with no
/// `c` before it.
pub proof fn lemma_first_index_of(s: Seq<char>, c: char, k: int)
    requires
        0 <= k <= s.len(),
        free_of(s.take(k), c),
        k == s.len() || s[k] == c,
    ensures
        first_index_of(s, c) == k,
    decreases k,
{
    if k > 0 {
        assert(s.take(k)[0] == s[0]);
        let t = s.drop_first();
        assert forall|i: int| 0 <= i < k - 1 implies #[trigger] t.take(k - 1)[i] != c by {
            assert(s.take(k)[i + 1] == t.take(k - 1)[i]);
        }
        lemma_first_index_of(t, c, k - 1);
    }
}

/// `first_index_of` stays within the text, finds `c` where it stands unless
/// it is the end, and passes no `c` on the way.
pub proof fn lemma_first_index_of_bounds(s: Seq<char>, c: char)
    ensures
        0 <= first_index_of(s, c) <= s.len(),
        free_of(s.take(first_index_of(s, c)), c),
        first_index_of(s, c) < s.len() ==> s[first_index_of(s, c)] == c,
    decreases s.len(),
{
    if s.len() == 0 || s[0] == c {
    } else {
        let t = s.drop_first();
        lemma_first_index_of_bounds(t, c);
        let k = first_index_of(s, c);
        assert forall|i: int| 0 <= i < k implies #[trigger] s.take(k)[i] != c by {
            if i > 0 {
                assert(t.take(k - 1)[i - 1] == s.take(k)[i]);
            }
        }
    }
}

/// Counting one character further.
pub proof fn lemma_occurrences_step(s: Seq<char>, c: char, i: int)
    requires
        0 <= i < s.len(),
    ensures
        occurrences(s.take(i + 1), c) == occurrences(s.take(i), c) + if s[i] == c {
            1nat
        } else {
            0nat
        },
{
    assert(s.take(i + 1).drop_last() =~= s.take(i));
    assert(s.take(i + 1).last() == s[i]);
}

/// The characters of `s`, in order.
pub fn chars_of(s: &str) -> (v: Vec<char>)
    ensures
        v@ == s@,
{
    let mut v: Vec<char> = Vec::new();
    for c in it: s.chars()
        invariant
            it.seq() == s@,
            v@ == s@.take(it.index() as int),
    {
        v.push(c);
    }
    v
}

/// Where `c` first occurs in the part of `chars` between `from` and `to`,
/// as a position in `chars`; `to` if it does not occur there.
pub fn find_first(chars: &Vec<char>, from: usize, to: usize, c: char) -> (k: usize)
    requires
        from <= to <= chars@.len(),
    ensures
        from <= k <= to,
        k - from == first_index_of(chars@.subrange(from as int, to as int), c),
{
    let ghost part = chars@.subrange(from as int, to as int);
    let mut k: usize = from;
    while k < to && chars[k] != c
        invariant
            from <= k <= to,
            to <= chars@.len(),
            part == chars@.subrange(from as int, to as int),
            free_of(part.take(k - from), c),
        decreases to - k,
    {
        assert forall|i: int| 0 <= i < k + 1 - from implies #[trigger] part.take(k + 1 - from)[i]
            != c by {
            if i < k - from {
                assert(part.take(k - from)[i] == part[i]);
            }
        }
        k = k + 1;
    }
    proof {
        lemma_first_index_of(part, c, k - from);
    }
    k
}

/// How often `c` occurs in the part of `chars` between `from` and `to`.
pub fn count_in(chars: &Vec<char>, from: usize, to: usize, c: char) -> (n: usize)
    requires
        from <= to <= chars@.len(),
    ensures
        n == occurrences(chars@.subrange(from as int, to as int), c),
        n <= to - from,
{
    let ghost part = chars@.subrange(from as int, to as int);
    let mut n: usize = 0;
    let mut k: usize = from;
    assert(part.take(0) =~= Seq::<char>::empty());
    while k < to
        invariant
            from <= k <= to,
            to <= chars@.len(),
            part == chars@.subrange(from as int, to as int),
            n == occurrences(part.take(k - from), c),
            n <= k - from,
        decreases to - k,
    {
        proof {
            lemma_occurrences_step(part, c, k - from);
        }
        if chars[k] == c {
            n = n + 1;
        }
        k = k + 1;
    }
    assert(part.take(to - from) =~= part);
    n
}

/// Whether two string slices hold the same text.
pub fn same_text(a: &str, b: &str) -> (r: bool)
    ensures
        r == (a@ == b@),
{
    let x = chars_of(a);
    let y = chars_of(b);
    if x.len() != y.len() {
        return false;
    }
    let n: usize = x.len();
    let mut i: usize = 0;
    while i < n
        invariant
            i <= n,
            n == x@.len(),
            n == y@.len(),
            x@ == a@,
            y@ == b@,
            forall|k: int| 0 <= k < i ==> x@[k] == y@[k],
        decreases n - i,
    {
        if x[i] != y[i] {
            return false;
        }
        i = i + 1;
    }
    assert(a@ =~= b@);
    true
}

} // verus!
