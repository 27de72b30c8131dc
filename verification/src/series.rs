//! Sums and extremes of finite series of unsigned readings.

use vstd::prelude::*;

verus! {

/// The sum of all readings.
pub open spec fn total(s: Seq<u64>) -> nat
    decreases s.len(),
{
    if s.len() == 0 {
        0
    } else {
        (total(s.drop_last()) + s.last()) as nat
    }
}

/// The smallest reading; `u64::MAX` for the empty series.
pub open spec fn least(s: Seq<u64>) -> u64
    decreases s.len(),
{
    if s.len() == 0 {
        u64::MAX
    } else if least(s.drop_last()) <= s.last() {
        least(s.drop_last())
    } else {
        s.last()
    }
}

/// The largest reading; `0` for the empty series.
pub open spec fn greatest(s: Seq<u64>) -> u64
    decreases s.len(),
{
    if s.len() == 0 {
        0
    } else if greatest(s.drop_last()) >= s.last() {
        greatest(s.drop_last())
    } else {
        s.last()
    }
}

/// `m` occurs in `s` and no reading is smaller.
pub open spec fn is_least(s: Seq<u64>, m: u64) -> bool {
    &&& exists|i: int| 0 <= i < s.len() && s[i] == m
    &&& forall|i: int| 0 <= i < s.len() ==> m <= s[i]
}

/// `m` occurs in `s` and no reading is larger.
pub open spec fn is_greatest(s: Seq<u64>, m: u64) -> bool {
    &&& exists|i: int| 0 <= i < s.len() && s[i] == m
    &&& forall|i: int| 0 <= i < s.len() ==> s[i] <= m
}

/// `least` of a non-empty series is a reading of it that bounds all others
/// from below.
pub proof fn lemma_least(s: Seq<u64>)
    requires
        s.len() > 0,
    ensures
        is_least(s, least(s)),
    decreases s.len(),
{
    let front = s.drop_last();
    if front.len() == 0 {
        assert(least(front) == u64::MAX);
        assert(s.last() == s[0]);
    } else {
        lemma_least(front);
        let k = choose|i: int| 0 <= i < front.len() && front[i] == least(front);
        assert(s[k] == least(front));
        assert forall|i: int| 0 <= i < s.len() implies least(s) <= s[i] by {
            if i < front.len() {
                assert(s[i] == front[i]);
            }
        }
    }
}

/// `greatest` of a non-empty series is a reading of it that bounds all
/// others from above.
pub proof fn lemma_greatest(s: Seq<u64>)
    requires
        s.len() > 0,
    ensures
        is_greatest(s, greatest(s)),
    decreases s.len(),
{
    let front = s.drop_last();
    if front.len() == 0 {
        assert(greatest(front) == 0);
        assert(s.last() == s[0]);
    } else {
        lemma_greatest(front);
        let k = choose|i: int| 0 <= i < front.len() && front[i] == greatest(front);
        assert(s[k] == greatest(front));
        assert forall|i: int| 0 <= i < s.len() implies s[i] <= greatest(s) by {
            if i < front.len() {
                assert(s[i] == front[i]);
            }
        }
    }
}

/// If every reading lies between `lo` and `hi`, the sum lies between
/// `lo * len` and `hi * len`.
pub proof fn lemma_total_between(s: Seq<u64>, lo: int, hi: int)
    requires
        forall|i: int| 0 <= i < s.len() ==> lo <= #[trigger] s[i] && s[i] <= hi,
    ensures
        lo * s.len() <= total(s) <= hi * s.len(),
    decreases s.len(),
{
    if s.len() > 0 {
        let front = s.drop_last();
        lemma_total_between(front, lo, hi);
        assert(lo * s.len() == lo * front.len() + lo) by (nonlinear_arith)
            requires
                s.len() == front.len() + 1,
        ;
        assert(hi * s.len() == hi * front.len() + hi) by (nonlinear_arith)
            requires
                s.len() == front.len() + 1,
        ;
    }
}

/// The sum of a non-empty series lies between `len` times its least and
/// `len` times its greatest reading.
pub proof fn lemma_total_within_extremes(s: Seq<u64>)
    requires
        s.len() > 0,
    ensures
        least(s) * s.len() <= total(s) <= greatest(s) * s.len(),
        least(s) <= greatest(s),
{
    lemma_least(s);
    lemma_greatest(s);
    lemma_total_between(s, least(s) as int, greatest(s) as int);
}

/// A sum of 64-bit readings taken from a vector fits 128 bits.
pub proof fn lemma_total_fits(s: Seq<u64>)
    requires
        s.len() <= usize::MAX,
    ensures
        total(s) <= s.len() * u64::MAX,
        total(s) <= 0xffff_ffff_ffff_fffe_0000_0000_0000_0001,
{
    lemma_total_between(s, 0, u64::MAX as int);
    assert(s.len() * u64::MAX <= 0xffff_ffff_ffff_fffe_0000_0000_0000_0001) by (nonlinear_arith)
        requires
            s.len() <= 0xffff_ffff_ffff_ffff,
            u64::MAX == 0xffff_ffff_ffff_ffff,
    ;
}

/// If one series is pointwise at most another of the same length, so are
/// their sums.
pub proof fn lemma_total_monotone(a: Seq<u64>, b: Seq<u64>)
    requires
        a.len() == b.len(),
        forall|i: int| 0 <= i < a.len() ==> a[i] <= b[i],
    ensures
        total(a) <= total(b),
    decreases a.len(),
{
    if a.len() > 0 {
        lemma_total_monotone(a.drop_last(), b.drop_last());
    }
}

/// Taking one reading out lowers the sum by that reading.
pub proof fn lemma_total_remove(s: Seq<u64>, i: int)
    requires
        0 <= i < s.len(),
    ensures
        total(s) == total(s.remove(i)) + s[i],
    decreases s.len(),
{
    if i == s.len() - 1 {
        assert(s.remove(i) =~= s.drop_last());
    } else {
        lemma_total_remove(s.drop_last(), i);
        assert(s.remove(i).drop_last() =~= s.drop_last().remove(i));
    }
}

/// At most one reading is the least of a series, and at most one the
/// greatest.
pub proof fn lemma_extremes_unique(s: Seq<u64>, m: u64)
    requires
        s.len() > 0,
    ensures
        is_least(s, m) ==> m == least(s),
        is_greatest(s, m) ==> m == greatest(s),
{
    lemma_least(s);
    lemma_greatest(s);
}

/// The sum of the readings.
pub fn sum(v: &Vec<u64>) -> (r: u128)
    ensures
        r == total(v@),
{
    let mut acc: u128 = 0;
    let mut i: usize = 0;
    while i < v.len()
        invariant
            i <= v.len(),
            acc == total(v@.take(i as int)),
        decreases v.len() - i,
    {
        proof {
            let next = v@.take(i + 1);
            assert(next.drop_last() =~= v@.take(i as int));
            lemma_total_fits(next);
        }
        acc = acc + v[i] as u128;
        i = i + 1;
    }
    assert(v@.take(v.len() as int) =~= v@);
    acc
}

/// The smallest reading, `u64::MAX` if there is none.
pub fn min(v: &Vec<u64>) -> (r: u64)
    ensures
        r == least(v@),
{
    let mut best: u64 = u64::MAX;
    let mut i: usize = 0;
    while i < v.len()
        invariant
            i <= v.len(),
            best == least(v@.take(i as int)),
        decreases v.len() - i,
    {
        proof {
            let next = v@.take(i + 1);
            assert(next.drop_last() =~= v@.take(i as int));
        }
        if v[i] < best {
            best = v[i];
        }
        i = i + 1;
    }
    assert(v@.take(v.len() as int) =~= v@);
    best
}

/// The largest reading, `0` if there is none.
pub fn max(v: &Vec<u64>) -> (r: u64)
    ensures
        r == greatest(v@),
{
    let mut best: u64 = 0;
    let mut i: usize = 0;
    while i < v.len()
        invariant
            i <= v.len(),
            best == greatest(v@.take(i as int)),
        decreases v.len() - i,
    {
        proof {
            let next = v@.take(i + 1);
            assert(next.drop_last() =~= v@.take(i as int));
        }
        if v[i] > best {
            best = v[i];
        }
        i = i + 1;
    }
    assert(v@.take(v.len() as int) =~= v@);
    best
}

} // verus!
