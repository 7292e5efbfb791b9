//! Sliding-window bucket: a fixed-capacity FIFO window of fixed-point samples
//! with four reducers (latest, peak, trough, average).

use std::collections::VecDeque;
use std::ops::Index;
use vstd::arithmetic::div_mod::{lemma_div_is_ordered, lemma_div_multiples_vanish};
use vstd::prelude::*;

verus! {

/// Default window size: five minutes of samples at 60 Hz.
pub const DEFAULT_CAPACITY: usize = 300;

/// What one push does to a window of capacity `cap`: append the new sample,
/// evicting the oldest one first when the window is already full.
pub open spec fn push_model(s: Seq<i64>, cap: nat, v: i64) -> Seq<i64> {
    if s.len() >= cap {
        s.drop_first().push(v)
    } else {
        s.push(v)
    }
}

/// Largest element of a non-empty sequence.
pub open spec fn seq_max(s: Seq<i64>) -> i64
    recommends
        s.len() > 0,
    decreases s.len(),
{
    if s.len() <= 1 {
        s[0]
    } else if s.last() >= seq_max(s.drop_last()) {
        s.last()
    } else {
        seq_max(s.drop_last())
    }
}

/// Smallest element of a non-empty sequence.
pub open spec fn seq_min(s: Seq<i64>) -> i64
    recommends
        s.len() > 0,
    decreases s.len(),
{
    if s.len() <= 1 {
        s[0]
    } else if s.last() <= seq_min(s.drop_last()) {
        s.last()
    } else {
        seq_min(s.drop_last())
    }
}

/// Sum of a sequence of samples, as an unbounded integer.
pub open spec fn seq_sum(s: Seq<i64>) -> int
    decreases s.len(),
{
    if s.len() == 0 {
        0
    } else {
        seq_sum(s.drop_last()) + s.last()
    }
}

/// Arithmetic mean of a non-empty sequence, rounded toward negative infinity.
pub open spec fn seq_avg(s: Seq<i64>) -> int
    recommends
        s.len() > 0,
{
    seq_sum(s) / (s.len() as int)
}

/// What a whole series of pushes does to a window: the samples of `vs` are
/// pushed one at a time, oldest first.
pub open spec fn push_all_model(s: Seq<i64>, cap: nat, vs: Seq<i64>) -> Seq<i64>
    decreases vs.len(),
{
    if vs.len() == 0 {
        s
    } else {
        push_all_model(push_model(s, cap, vs.first()), cap, vs.drop_first())
    }
}

/// The last `cap` elements of a history, or all of it if it is shorter.
pub open spec fn window_of(total: Seq<i64>, cap: nat) -> Seq<i64> {
    if total.len() <= cap {
        total
    } else {
        total.skip(total.len() - cap)
    }
}

/// A window of capacity `cap` always holds exactly the most recent `cap`
/// samples of its history: after pushing `vs` into a well-formed window
/// holding `s`, the contents are the tail of `s + vs`.
pub proof fn lemma_push_all_window(s: Seq<i64>, cap: nat, vs: Seq<i64>)
    requires
        1 <= cap,
        s.len() <= cap,
    ensures
        push_all_model(s, cap, vs) == window_of(s + vs, cap),
    decreases vs.len(),
{
    if vs.len() == 0 {
        assert(s + vs =~= s);
    } else {
        let s2 = push_model(s, cap, vs.first());
        lemma_push_all_window(s2, cap, vs.drop_first());
        if s.len() < cap {
            assert(s2 + vs.drop_first() =~= s + vs);
        } else {
            assert(s2 + vs.drop_first() =~= (s + vs).drop_first());
            let total = s + vs;
            assert(window_of(total.drop_first(), cap) =~= window_of(total, cap));
        }
    }
}

/// Bucket eviction law: pushing `cap + k` samples (`k >= 0`) into any
/// well-formed window leaves exactly the last `cap` of them, in push order;
/// everything older — the previous contents and the first `k` new samples —
/// is evicted.
pub proof fn lemma_bucket_eviction(s: Seq<i64>, cap: nat, vs: Seq<i64>)
    requires
        1 <= cap,
        s.len() <= cap,
        vs.len() >= cap,
    ensures
        push_all_model(s, cap, vs) == vs.skip(vs.len() - cap),
{
    lemma_push_all_window(s, cap, vs);
    assert(window_of(s + vs, cap) =~= vs.skip(vs.len() - cap));
}

/// Two single pushes are the same as pushing a two-sample history: the
/// window ends up holding its previous contents followed by the two new
/// samples in order, trimmed to the most recent `cap`.
pub proof fn lemma_two_pushes(s: Seq<i64>, cap: nat, v1: i64, v2: i64)
    requires
        1 <= cap,
        s.len() <= cap,
    ensures
        push_model(push_model(s, cap, v1), cap, v2) == window_of(s + seq![v1, v2], cap),
{
    let vs = seq![v1, v2];
    let s1 = push_model(s, cap, v1);
    let s2 = push_model(s1, cap, v2);
    assert(vs.first() == v1);
    assert(vs.drop_first() =~= seq![v2]);
    assert(push_all_model(s, cap, vs) == push_all_model(s1, cap, seq![v2]));
    assert(seq![v2].first() == v2);
    assert(seq![v2].drop_first().len() == 0);
    assert(push_all_model(s1, cap, seq![v2]) == push_all_model(s2, cap, seq![v2].drop_first()));
    assert(push_all_model(s2, cap, seq![v2].drop_first()) == s2);
    lemma_push_all_window(s, cap, vs);
}

/// The sum of any sequence of samples stays between `len * i64::MIN` and
/// `len * i64::MAX`.
pub proof fn lemma_seq_sum_bounds(s: Seq<i64>)
    ensures
        s.len() * (i64::MIN as int) <= seq_sum(s) <= s.len() * (i64::MAX as int),
    decreases s.len(),
{
    if s.len() > 0 {
        lemma_seq_sum_bounds(s.drop_last());
        assert((s.len() - 1) * (i64::MIN as int) + (i64::MIN as int) == s.len() * (
        i64::MIN as int)) by (nonlinear_arith);
        assert((s.len() - 1) * (i64::MAX as int) + (i64::MAX as int) == s.len() * (
        i64::MAX as int)) by (nonlinear_arith);
    }
}

/// The mean of a non-empty sequence of samples stays between the extreme
/// `i64` values, so it can itself be reported as an `i64`.
pub proof fn lemma_seq_avg_bounds(s: Seq<i64>)
    requires
        s.len() > 0,
    ensures
        i64::MIN <= seq_avg(s) <= i64::MAX,
{
    let n = s.len() as int;
    lemma_seq_sum_bounds(s);
    lemma_div_is_ordered(n * (i64::MIN as int), seq_sum(s), n);
    lemma_div_multiples_vanish(i64::MIN as int, n);
    lemma_div_is_ordered(seq_sum(s), n * (i64::MAX as int), n);
    lemma_div_multiples_vanish(i64::MAX as int, n);
}

/// The four reducer outputs of one window, taken together.  Every field is
/// `None` exactly when the window is empty: there are no numeric sentinels.
#[derive(Clone, Copy, PartialEq, Eq, Debug)]
pub struct BucketSnapshot {
    pub latest: Option<i64>,
    pub peak: Option<i64>,
    pub trough: Option<i64>,
    pub average: Option<i64>,
}

/// What the four reducers report for a window holding `s`.
pub open spec fn bucket_stats_model(s: Seq<i64>) -> BucketSnapshot {
    BucketSnapshot {
        latest: if s.len() == 0 {
            Option::None
        } else {
            Option::Some(s.last())
        },
        peak: if s.len() == 0 {
            Option::None
        } else {
            Option::Some(seq_max(s))
        },
        trough: if s.len() == 0 {
            Option::None
        } else {
            Option::Some(seq_min(s))
        },
        average: if s.len() == 0 {
            Option::None
        } else {
            Option::Some(seq_avg(s) as i64)
        },
    }
}

/// Empty-window reducers: a window that has never been pushed to reports
/// no data at all — every reducer is `None`, never a silent zero or a
/// numeric sentinel.
pub proof fn lemma_empty_bucket_reducers(s: Seq<i64>)
    requires
        s.len() == 0,
    ensures
        bucket_stats_model(s).latest is None,
        bucket_stats_model(s).peak is None,
        bucket_stats_model(s).trough is None,
        bucket_stats_model(s).average is None,
{
}

/// A fixed-capacity rolling window of fixed-point samples, oldest first.
///
/// The window never holds more than `capacity` samples; pushing into a full
/// window evicts the oldest sample.  An empty window has no statistics: every
/// reducer reports `None` rather than a numeric sentinel.
pub struct Bucket {
    values: VecDeque<i64>,
    capacity: usize,
}

impl View for Bucket {
    type V = Seq<i64>;

    closed spec fn view(&self) -> Seq<i64> {
        self.values@
    }
}

impl Default for Bucket {
    /// An empty window with the default capacity.
    fn default() -> (r: Bucket)
        ensures
            r.wf(),
            r@ == Seq::<i64>::empty(),
            r.spec_capacity() == DEFAULT_CAPACITY,
    {
        Bucket::new(DEFAULT_CAPACITY)
    }
}

impl Bucket {
    /// The most samples this window will retain.
    pub closed spec fn spec_capacity(&self) -> nat {
        self.capacity as nat
    }

    /// The window is well formed: it has room for at least one sample and
    /// never holds more than its capacity.
    pub open spec fn wf(&self) -> bool {
        1 <= self.spec_capacity() && self@.len() <= self.spec_capacity()
    }

    /// Creates an empty window retaining at most `capacity` samples.
    pub fn new(capacity: usize) -> (r: Bucket)
        requires
            capacity >= 1,
        ensures
            r.wf(),
            r@ == Seq::<i64>::empty(),
            r.spec_capacity() == capacity,
    {
        Bucket { values: VecDeque::with_capacity(capacity), capacity }
    }

    /// The most samples this window will retain.
    pub fn capacity(&self) -> (r: usize)
        ensures
            r == self.spec_capacity(),
    {
        self.capacity
    }

    /// How many samples the window currently holds.
    pub fn len(&self) -> (r: usize)
        ensures
            r == self@.len(),
    {
        self.values.len()
    }

    /// Appends `value`, evicting the oldest sample first if the window is
    /// full.  Always succeeds.
    pub fn push(&mut self, value: i64)
        requires
            old(self).wf(),
        ensures
            final(self).wf(),
            final(self).spec_capacity() == old(self).spec_capacity(),
            final(self)@ == push_model(old(self)@, old(self).spec_capacity(), value),
    {
        if self.values.len() == self.capacity {
            self.values.pop_front();
        }
        self.values.push_back(value);
    }

    /// The most recently pushed sample, or `None` if nothing was ever pushed.
    pub fn latest(&self) -> (r: Option<i64>)
        ensures
            r == (if self@.len() == 0 {
                Option::<i64>::None
            } else {
                Option::Some(self@.last())
            }),
    {
        let n = self.values.len();
        if n == 0 {
            None
        } else {
            Some(*self.values.index(n - 1))
        }
    }

    /// The largest sample in the window, or `None` if the window is empty.
    pub fn peak(&self) -> (r: Option<i64>)
        ensures
            r == (if self@.len() == 0 {
                Option::<i64>::None
            } else {
                Option::Some(seq_max(self@))
            }),
    {
        let n = self.values.len();
        if n == 0 {
            return None;
        }
        let mut acc: i64 = *self.values.index(0);
        let mut i: usize = 1;
        assert(self@.take(1) =~= seq![self@[0]]);
        while i < n
            invariant
                1 <= i <= n,
                n == self@.len(),
                acc == seq_max(self@.take(i as int)),
            decreases n - i,
        {
            let v = *self.values.index(i);
            assert(self@.take(i + 1).drop_last() =~= self@.take(i as int));
            assert(self@.take(i + 1).last() == self@[i as int]);
            if v > acc {
                acc = v;
            }
            i = i + 1;
        }
        assert(self@.take(n as int) =~= self@);
        Some(acc)
    }

    /// The smallest sample in the window, or `None` if the window is empty.
    pub fn trough(&self) -> (r: Option<i64>)
        ensures
            r == (if self@.len() == 0 {
                Option::<i64>::None
            } else {
                Option::Some(seq_min(self@))
            }),
    {
        let n = self.values.len();
        if n == 0 {
            return None;
        }
        let mut acc: i64 = *self.values.index(0);
        let mut i: usize = 1;
        assert(self@.take(1) =~= seq![self@[0]]);
        while i < n
            invariant
                1 <= i <= n,
                n == self@.len(),
                acc == seq_min(self@.take(i as int)),
            decreases n - i,
        {
            let v = *self.values.index(i);
            assert(self@.take(i + 1).drop_last() =~= self@.take(i as int));
            assert(self@.take(i + 1).last() == self@[i as int]);
            if v < acc {
                acc = v;
            }
            i = i + 1;
        }
        assert(self@.take(n as int) =~= self@);
        Some(acc)
    }

    /// The arithmetic mean of the window, rounded toward negative infinity,
    /// or `None` if the window is empty.
    pub fn average(&self) -> (r: Option<i64>)
        ensures
            self@.len() == 0 ==> r is None,
            self@.len() > 0 ==> (r matches Some(a) && a == seq_avg(self@)),
    {
        let n = self.values.len();
        if n == 0 {
            return None;
        }
        let mut sum: i128 = 0;
        let mut i: usize = 0;
        assert(self@.take(0) =~= Seq::<i64>::empty());
        while i < n
            invariant
                0 <= i <= n,
                n == self@.len(),
                sum == seq_sum(self@.take(i as int)),
                (i as int) * (i64::MIN as int) <= sum <= (i as int) * (i64::MAX as int),
            decreases n - i,
        {
            let v = *self.values.index(i);
            proof {
                assert(self@.take(i + 1).drop_last() =~= self@.take(i as int));
                assert(self@.take(i + 1).last() == self@[i as int]);
                assert((i as int) * (i64::MIN as int) + (i64::MIN as int) == (i + 1) * (
                i64::MIN as int)) by (nonlinear_arith);
                assert((i as int) * (i64::MAX as int) + (i64::MAX as int) == (i + 1) * (
                i64::MAX as int)) by (nonlinear_arith);
            }
            sum = sum + (v as i128);
            i = i + 1;
        }
        proof {
            assert(self@.take(n as int) =~= self@);
            lemma_seq_avg_bounds(self@);
        }
        let q = sum.checked_div_euclid(n as i128);
        Some(q.unwrap() as i64)
    }

    /// All four reducers at once.
    pub fn stats(&self) -> (r: BucketSnapshot)
        ensures
            r == bucket_stats_model(self@),
    {
        proof {
            if self@.len() > 0 {
                lemma_seq_avg_bounds(self@);
            }
        }
        BucketSnapshot {
            latest: self.latest(),
            peak: self.peak(),
            trough: self.trough(),
            average: self.average(),
        }
    }
}

} // verus!
