//! Verified helpers for the character-level string work of the engine:
//! locating separator characters, cutting versions and digests apart,
//! replacing characters, and rendering slot numbers in decimal.

use vstd::prelude::*;

verus! {

/// Relies on std's `String::push`: appends exactly one character.
#[verifier::external_body]
pub(crate) fn push_char(s: &mut String, c: char)
    ensures
        final(s)@ == old(s)@ + seq![c],
{
    s.push(c);
}

/// Index of the first occurrence of `c` in `s`, or `s.len()` if `c` does not
/// occur.
pub open spec fn first_index_of(s: Seq<char>, c: char) -> int
    decreases s.len(),
{
    if s.len() == 0 {
        0
    } else if s[0] == c {
        0
    } else {
        1 + first_index_of(s.drop_first(), c)
    }
}

pub proof fn lemma_first_index_of(s: Seq<char>, c: char)
    ensures
        0 <= first_index_of(s, c) <= s.len(),
        first_index_of(s, c) < s.len() ==> s[first_index_of(s, c)] == c,
        forall|j: int| 0 <= j < first_index_of(s, c) ==> s[j] != c,
    decreases s.len(),
{
    if s.len() == 0 {
    } else if s[0] == c {
    } else {
        lemma_first_index_of(s.drop_first(), c);
        assert forall|j: int| 0 <= j < first_index_of(s, c) implies s[j] != c by {
            if j > 0 {
                assert(s.drop_first()[j - 1] == s[j]);
            }
        }
    }
}

/// The characterization of `first_index_of`: a position `i` with no earlier
/// occurrence, holding `c` unless it is the length, is the first index.
pub proof fn lemma_first_index_of_is(s: Seq<char>, c: char, i: int)
    requires
        0 <= i <= s.len(),
        i < s.len() ==> s[i] == c,
        forall|j: int| 0 <= j < i ==> s[j] != c,
    ensures
        first_index_of(s, c) == i,
    decreases s.len(),
{
    if s.len() == 0 {
    } else if s[0] == c {
        assert(i == 0);
    } else {
        assert(i >= 1);
        assert forall|j: int| 0 <= j < i - 1 implies s.drop_first()[j] != c by {
            assert(s.drop_first()[j] == s[j + 1]);
        }
        assert(i - 1 < s.drop_first().len() ==> s.drop_first()[i - 1] == c);
        lemma_first_index_of_is(s.drop_first(), c, i - 1);
    }
}

/// First position of `c` in `s`, or the length of `s` if `c` is absent.
pub fn find_char(s: &str, c: char) -> (r: usize)
    ensures
        r == first_index_of(s@, c),
{
    let n: usize = s.unicode_len();
    let mut i: usize = 0;
    while i < n
        invariant
            0 <= i <= n,
            n == s@.len(),
            forall|j: int| 0 <= j < i ==> s@[j] != c,
        decreases n - i,
    {
        if s.get_char(i) == c {
            proof {
                lemma_first_index_of_is(s@, c, i as int);
            }
            return i;
        }
        i = i + 1;
    }
    proof {
        lemma_first_index_of_is(s@, c, n as int);
    }
    n
}

/// The suffix of `s` after the last occurrence of `c`; `s` itself if `c`
/// does not occur.
pub open spec fn after_last(s: Seq<char>, c: char) -> Seq<char>
    decreases s.len(),
{
    if s.len() == 0 {
        s
    } else if s.last() == c {
        Seq::empty()
    } else {
        after_last(s.drop_last(), c) + seq![s.last()]
    }
}

/// The characterization of `after_last`: if `k` is the last occurrence of
/// `c` (or `-1` when `c` is absent), the suffix starts right after `k`.
pub proof fn lemma_after_last_is(s: Seq<char>, c: char, k: int)
    requires
        -1 <= k < s.len(),
        k >= 0 ==> s[k] == c,
        forall|j: int| k < j < s.len() ==> s[j] != c,
    ensures
        after_last(s, c) == s.subrange(k + 1, s.len() as int),
    decreases s.len(),
{
    if s.len() == 0 {
        assert(after_last(s, c) =~= s.subrange(k + 1, s.len() as int));
    } else if k == s.len() - 1 {
        assert(after_last(s, c) =~= s.subrange(k + 1, s.len() as int));
    } else {
        assert(s.last() != c);
        assert forall|j: int| k < j < s.drop_last().len() implies s.drop_last()[j] != c by {
            assert(s.drop_last()[j] == s[j]);
        }
        assert(k >= 0 ==> s.drop_last()[k] == s[k]);
        lemma_after_last_is(s.drop_last(), c, k);
        assert(after_last(s, c) =~= s.subrange(k + 1, s.len() as int));
    }
}

/// Returns the substring after the last occurrence of `c`, or a copy of the
/// whole string if `c` does not occur.
pub fn suffix_after_last(s: &String, c: char) -> (r: String)
    ensures
        r@ == after_last(s@, c),
{
    let n: usize = s.as_str().unicode_len();
    let mut i: usize = n;
    while i > 0
        invariant
            0 <= i <= n,
            n == s@.len(),
            forall|j: int| i <= j < n ==> s@[j] != c,
        decreases i,
    {
        if s.as_str().get_char(i - 1) == c {
            let sub = s.as_str().substring_char(i, n);
            proof {
                lemma_after_last_is(s@, c, i - 1);
            }
            return sub.to_owned();
        }
        i = i - 1;
    }
    proof {
        lemma_after_last_is(s@, c, -1);
        assert(s@.subrange(0, s@.len() as int) =~= s@);
    }
    s.clone()
}

/// `s` with every occurrence of `from` replaced by `to`.
pub open spec fn replace_char(s: Seq<char>, from: char, to: char) -> Seq<char> {
    Seq::new(s.len(), |i: int| if s[i] == from { to } else { s[i] })
}

/// Returns a copy of `s` in which every occurrence of `from` is replaced by
/// `to`.
pub fn replace_char_in(s: &String, from: char, to: char) -> (r: String)
    ensures
        r@ == replace_char(s@, from, to),
{
    let n: usize = s.as_str().unicode_len();
    let mut r = String::new();
    let mut i: usize = 0;
    while i < n
        invariant
            0 <= i <= n,
            n == s@.len(),
            r@ == replace_char(s@, from, to).subrange(0, i as int),
        decreases n - i,
    {
        let ch = s.as_str().get_char(i);
        if ch == from {
            push_char(&mut r, to);
        } else {
            push_char(&mut r, ch);
        }
        proof {
            assert(r@ =~= replace_char(s@, from, to).subrange(0, i + 1));
        }
        i = i + 1;
    }
    proof {
        assert(replace_char(s@, from, to).subrange(0, n as int) =~= replace_char(s@, from, to));
    }
    r
}

/// The decimal digit `d` as a character; `'9'` covers every digit past 8,
/// which the callers' range conditions rule out.
pub open spec fn digit_char(d: int) -> char {
    if d == 0 {
        '0'
    } else if d == 1 {
        '1'
    } else if d == 2 {
        '2'
    } else if d == 3 {
        '3'
    } else if d == 4 {
        '4'
    } else if d == 5 {
        '5'
    } else if d == 6 {
        '6'
    } else if d == 7 {
        '7'
    } else if d == 8 {
        '8'
    } else {
        '9'
    }
}

/// The usual decimal rendering of `n`, most significant digit first.
pub open spec fn dec_digits(n: nat) -> Seq<char>
    decreases n,
{
    if n < 10 {
        seq![digit_char(n as int)]
    } else {
        dec_digits(n / 10) + seq![digit_char((n % 10) as int)]
    }
}

fn digit_to_char(d: u64) -> (c: char)
    requires
        d < 10,
    ensures
        c == digit_char(d as int),
{
    if d == 0 {
        '0'
    } else if d == 1 {
        '1'
    } else if d == 2 {
        '2'
    } else if d == 3 {
        '3'
    } else if d == 4 {
        '4'
    } else if d == 5 {
        '5'
    } else if d == 6 {
        '6'
    } else if d == 7 {
        '7'
    } else if d == 8 {
        '8'
    } else {
        '9'
    }
}

/// Renders `n` in decimal.
pub fn u64_to_dec(n: u64) -> (r: String)
    ensures
        r@ == dec_digits(n as nat),
    decreases n,
{
    if n < 10 {
        let mut r = String::new();
        push_char(&mut r, digit_to_char(n));
        r
    } else {
        let mut r = u64_to_dec(n / 10);
        push_char(&mut r, digit_to_char(n % 10));
        r
    }
}

} // verus!
