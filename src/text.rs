//! Character-level helpers on strings: substring search and splitting on a
//! delimiter, with their mathematical meaning as spec functions.

use vstd::prelude::*;
use vstd::string::*;

verus! {

/// `pat` occurs in `s` as a contiguous run of characters.
pub open spec fn has_infix(s: Seq<char>, pat: Seq<char>) -> bool {
    exists|i: int|
        0 <= i && i + pat.len() <= s.len() && #[trigger] s.subrange(i, i + pat.len()) == pat
}

/// The pieces of `s` between occurrences of `d`, as `str::split` yields them:
/// always at least one piece, empty pieces kept.
pub open spec fn split_on(s: Seq<char>, d: char) -> Seq<Seq<char>>
    decreases s.len(),
{
    if s.len() == 0 {
        seq![Seq::empty()]
    } else {
        let prev = split_on(s.drop_last(), d);
        if s.last() == d {
            prev.push(Seq::empty())
        } else {
            prev.update(prev.len() - 1, prev.last().push(s.last()))
        }
    }
}

pub proof fn lemma_split_on_nonempty(s: Seq<char>, d: char)
    ensures
        split_on(s, d).len() >= 1,
    decreases s.len(),
{
    if s.len() > 0 {
        lemma_split_on_nonempty(s.drop_last(), d);
    }
}

/// Whether `a` and `b` hold the same characters.
pub fn same_chars(a: &str, b: &str) -> (r: bool)
    ensures
        r == (a@ == b@),
{
    let n = a.unicode_len();
    if n != b.unicode_len() {
        return false;
    }
    let mut i: usize = 0;
    while i < n
        invariant
            n == a@.len(),
            n == b@.len(),
            i <= n,
            forall|k: int| 0 <= k < i ==> a@[k] == b@[k],
        decreases n - i,
    {
        if a.get_char(i) != b.get_char(i) {
            return false;
        }
        i = i + 1;
    }
    assert(a@ =~= b@);
    true
}

/// Whether `pat` occurs in `s` starting at character `i`.
fn occurs_at(s: &str, pat: &str, i: usize) -> (r: bool)
    requires
        i + pat@.len() <= s@.len(),
        s@.len() <= usize::MAX,
    ensures
        r == (s@.subrange(i as int, i + pat@.len()) == pat@),
{
    let m = pat.unicode_len();
    let mut j: usize = 0;
    while j < m
        invariant
            m == pat@.len(),
            i + m <= s@.len(),
            s@.len() <= usize::MAX,
            j <= m,
            forall|k: int| 0 <= k < j ==> s@[i + k] == pat@[k],
        decreases m - j,
    {
        if s.get_char(i + j) != pat.get_char(j) {
            assert(s@.subrange(i as int, i + m)[j as int] != pat@[j as int]);
            return false;
        }
        j = j + 1;
    }
    assert(s@.subrange(i as int, i + m) =~= pat@);
    true
}

/// Whether `pat` occurs anywhere in `s`.
pub fn contains_chars(s: &str, pat: &str) -> (r: bool)
    ensures
        r == has_infix(s@, pat@),
{
    let n = s.unicode_len();
    let m = pat.unicode_len();
    if m > n {
        return false;
    }
    let last = n - m;
    let mut i: usize = 0;
    loop
        invariant
            n == s@.len(),
            m == pat@.len(),
            last == n - m,
            i <= last,
            forall|k: int| 0 <= k < i ==> #[trigger] s@.subrange(k, k + m) != pat@,
        decreases last - i,
    {
        if occurs_at(s, pat, i) {
            return true;
        }
        if i == last {
            return false;
        }
        i = i + 1;
    }
}

/// Character bounds `(start, end)` of each piece of `split_on(s@, d)`.
pub fn piece_bounds(s: &str, d: char) -> (r: Vec<(usize, usize)>)
    ensures
        r@.len() == split_on(s@, d).len(),
        forall|k: int| 0 <= k < r@.len() ==> (#[trigger] r@[k]).0 <= r@[k].1 <= s@.len(),
        forall|k: int|
            0 <= k < r@.len() ==> s@.subrange(r@[k].0 as int, r@[k].1 as int) == #[trigger] split_on(
                s@,
                d,
            )[k],
{
    let n = s.unicode_len();
    let mut done: Vec<(usize, usize)> = Vec::new();
    let mut start: usize = 0;
    let mut i: usize = 0;
    proof {
        assert(s@.subrange(0, 0) =~= Seq::<char>::empty());
    }
    while i < n
        invariant
            n == s@.len(),
            i <= n,
            start <= i,
            split_on(s@.subrange(0, i as int), d).len() == done@.len() + 1,
            s@.subrange(start as int, i as int) == split_on(s@.subrange(0, i as int), d).last(),
            forall|k: int| 0 <= k < done@.len() ==> (#[trigger] done@[k]).0 <= done@[k].1 <= i,
            forall|k: int|
                0 <= k < done@.len() ==> {
                    &&& done@[k].0 <= done@[k].1 <= s@.len()
                    &&& s@.subrange(done@[k].0 as int, done@[k].1 as int) == #[trigger] split_on(
                        s@.subrange(0, i as int),
                        d,
                    )[k]
                },
        decreases n - i,
    {
        let c = s.get_char(i);
        let ghost t = s@.subrange(0, i as int);
        let ghost t2 = s@.subrange(0, i + 1);
        proof {
            assert(t2.drop_last() =~= t);
            assert(t2.last() == c);
            lemma_split_on_nonempty(t, d);
        }
        if c == d {
            proof {
                assert(split_on(t2, d) == split_on(t, d).push(Seq::empty()));
                assert(split_on(t2, d)[done@.len() as int] == split_on(t, d).last());
            }
            done.push((start, i));
            start = i + 1;
            proof {
                assert(s@.subrange(start as int, i + 1) =~= Seq::<char>::empty());
                assert forall|k: int| 0 <= k < done@.len() implies {
                    &&& done@[k].0 <= done@[k].1 <= s@.len()
                    &&& s@.subrange(done@[k].0 as int, done@[k].1 as int) == #[trigger] split_on(
                        t2,
                        d,
                    )[k]
                } by {
                    if k < done@.len() - 1 {
                        assert(split_on(t2, d)[k] == split_on(t, d)[k]);
                    }
                }
            }
        } else {
            proof {
                let prev = split_on(t, d);
                assert(split_on(t2, d) == prev.update(prev.len() - 1, prev.last().push(c)));
                assert(s@.subrange(start as int, i + 1) =~= s@.subrange(start as int, i as int).push(c));
                assert forall|k: int| 0 <= k < done@.len() implies {
                    &&& done@[k].0 <= done@[k].1 <= s@.len()
                    &&& s@.subrange(done@[k].0 as int, done@[k].1 as int) == #[trigger] split_on(
                        t2,
                        d,
                    )[k]
                } by {
                    assert(split_on(t2, d)[k] == split_on(t, d)[k]);
                }
            }
        }
        i = i + 1;
    }
    proof {
        assert(s@.subrange(0, n as int) =~= s@);
    }
    done.push((start, n));
    done
}

} // verus!
