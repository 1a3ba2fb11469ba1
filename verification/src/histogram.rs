//! Hourly activity histogram: one bucket per hour that saw a contribution,
//! kept in ascending order of the hour.

use vstd::prelude::*;

verus! {

/// The activity counted in one hour.
#[derive(Clone, Copy, Debug, PartialEq, Eq, Structural)]
pub struct Bucket {
    pub hour: u64,
    pub count: u128,
}

/// One contribution to the histogram.
#[derive(Clone, Copy, Debug, PartialEq, Eq, Structural)]
pub struct Sample {
    pub hour: u64,
    pub amount: u32,
}

/// Largest sum of counts a histogram may hold: more than any sequence of
/// 32-bit amounts that fits in memory adds up to.
pub const MAX_TOTAL: u128 = 0x1_0000_0000_0000_0000_0000_0000;

pub open spec fn ascending(s: Seq<Bucket>) -> bool {
    forall|i: int, j: int| 0 <= i < j < s.len() ==> (#[trigger] s[i]).hour < (#[trigger] s[j]).hour
}

pub open spec fn has_hour(s: Seq<Bucket>, h: u64) -> bool {
    exists|i: int| 0 <= i < s.len() && (#[trigger] s[i]).hour == h
}

/// The index of a bucket of hour `h`, where there is one.
pub open spec fn index_of(s: Seq<Bucket>, h: u64) -> int {
    choose|i: int| 0 <= i < s.len() && (#[trigger] s[i]).hour == h
}

/// The count recorded for hour `h`, zero where the hour has no bucket.
pub open spec fn count_at(s: Seq<Bucket>, h: u64) -> nat {
    if has_hour(s, h) {
        s[index_of(s, h)].count as nat
    } else {
        0
    }
}

/// Sum of all counts.
pub open spec fn total(s: Seq<Bucket>) -> nat
    decreases s.len(),
{
    if s.len() == 0 {
        0
    } else {
        total(s.drop_last()) + s.last().count as nat
    }
}

/// Number of buckets of `s` whose hour is before `h`.
pub open spec fn rank(s: Seq<Bucket>, h: u64) -> nat
    decreases s.len(),
{
    if s.len() == 0 {
        0
    } else {
        rank(s.drop_last(), h) + if s.last().hour < h {
            1nat
        } else {
            0
        }
    }
}

/// The histogram `s` after `amount` was counted for `hour`: the bucket of
/// that hour grows, or a new bucket takes its place in the order.
pub open spec fn merged(s: Seq<Bucket>, hour: u64, amount: u32) -> Seq<Bucket> {
    let i = rank(s, hour) as int;
    if i < s.len() && s[i].hour == hour {
        s.update(i, Bucket { hour, count: (s[i].count + amount) as u128 })
    } else {
        s.insert(i, Bucket { hour, count: amount as u128 })
    }
}

/// The histogram of a sequence of samples.
pub open spec fn histogram_of(samples: Seq<Sample>) -> Seq<Bucket>
    decreases samples.len(),
{
    if samples.len() == 0 {
        Seq::empty()
    } else {
        merged(histogram_of(samples.drop_last()), samples.last().hour, samples.last().amount)
    }
}

pub open spec fn samples_have_hour(s: Seq<Sample>, h: u64) -> bool {
    exists|i: int| 0 <= i < s.len() && (#[trigger] s[i]).hour == h
}

/// Sum of the amounts that `s` contributes to hour `h`.
pub open spec fn amount_at(s: Seq<Sample>, h: u64) -> nat
    decreases s.len(),
{
    if s.len() == 0 {
        0
    } else {
        amount_at(s.drop_last(), h) + if s.last().hour == h {
            s.last().amount as nat
        } else {
            0
        }
    }
}

/// Sum of all amounts of `s`.
pub open spec fn amount_total(s: Seq<Sample>) -> nat
    decreases s.len(),
{
    if s.len() == 0 {
        0
    } else {
        amount_total(s.drop_last()) + s.last().amount as nat
    }
}

/// In an ascending histogram the bucket at index `i` is the only one of
/// its hour, so its count is the count of that hour.
pub proof fn lemma_count_at_index(s: Seq<Bucket>, i: int)
    requires
        ascending(s),
        0 <= i < s.len(),
    ensures
        has_hour(s, s[i].hour),
        count_at(s, s[i].hour) == s[i].count,
{
    let h = s[i].hour;
    assert(has_hour(s, h));
    let j = index_of(s, h);
    if j < i {
        assert(s[j].hour < s[i].hour);
    } else if i < j {
        assert(s[i].hour < s[j].hour);
    }
}

proof fn lemma_rank(s: Seq<Bucket>, h: u64, i: int)
    requires
        0 <= i <= s.len(),
        forall|j: int| 0 <= j < i ==> (#[trigger] s[j]).hour < h,
        forall|j: int| i <= j < s.len() ==> (#[trigger] s[j]).hour >= h,
    ensures
        rank(s, h) == i,
    decreases s.len(),
{
    if s.len() > 0 {
        let r = s.drop_last();
        if i == s.len() {
            lemma_rank(r, h, i - 1);
        } else {
            lemma_rank(r, h, i);
        }
    }
}

proof fn lemma_total_covers(s: Seq<Bucket>, i: int)
    requires
        0 <= i < s.len(),
    ensures
        s[i].count <= total(s),
    decreases s.len(),
{
    if i < s.len() - 1 {
        lemma_total_covers(s.drop_last(), i);
    }
}

/// A prefix of a histogram holds no more than the whole.
pub proof fn lemma_total_prefix(s: Seq<Bucket>, i: int)
    requires
        0 <= i <= s.len(),
    ensures
        total(s.take(i)) <= total(s),
    decreases s.len(),
{
    if i == s.len() {
        assert(s.take(i) =~= s);
    } else {
        assert(s.take(i) =~= s.drop_last().take(i));
        lemma_total_prefix(s.drop_last(), i);
    }
}

proof fn lemma_total_update(s: Seq<Bucket>, i: int, b: Bucket)
    requires
        0 <= i < s.len(),
    ensures
        total(s.update(i, b)) == total(s) - s[i].count + b.count,
    decreases s.len(),
{
    let t = s.update(i, b);
    if i == s.len() - 1 {
        assert(t.drop_last() =~= s.drop_last());
    } else {
        assert(t.drop_last() =~= s.drop_last().update(i, b));
        lemma_total_update(s.drop_last(), i, b);
    }
}

proof fn lemma_total_insert(s: Seq<Bucket>, i: int, b: Bucket)
    requires
        0 <= i <= s.len(),
    ensures
        total(s.insert(i, b)) == total(s) + b.count,
    decreases s.len(),
{
    let t = s.insert(i, b);
    if i == s.len() {
        assert(t.drop_last() =~= s);
    } else {
        assert(t.drop_last() =~= s.drop_last().insert(i, b));
        lemma_total_insert(s.drop_last(), i, b);
    }
}

/// Growing the bucket at index `i` keeps the order and the hours, and
/// changes the count of that bucket's hour alone.
proof fn lemma_grow(s: Seq<Bucket>, i: int, amount: u32)
    requires
        ascending(s),
        0 <= i < s.len(),
        s[i].count + amount <= u128::MAX,
    ensures
        ({
            let t = s.update(i, Bucket { hour: s[i].hour, count: (s[i].count + amount) as u128 });
            &&& ascending(t)
            &&& forall|h: u64| #[trigger] has_hour(t, h) == has_hour(s, h)
            &&& forall|h: u64| #[trigger]
                count_at(t, h) == count_at(s, h) + (if h == s[i].hour {
                    amount as nat
                } else {
                    0
                })
        }),
{
    let t = s.update(i, Bucket { hour: s[i].hour, count: (s[i].count + amount) as u128 });
    assert(forall|j: int| 0 <= j < t.len() ==> (#[trigger] t[j]).hour == s[j].hour);
    assert forall|h: u64| #[trigger] has_hour(t, h) == has_hour(s, h) by {
        if has_hour(s, h) {
            assert(t[index_of(s, h)].hour == h);
        }
        if has_hour(t, h) {
            assert(s[index_of(t, h)].hour == h);
        }
    }
    assert forall|h: u64| #[trigger]
        count_at(t, h) == count_at(s, h) + (if h == s[i].hour {
            amount as nat
        } else {
            0
        }) by {
        if has_hour(s, h) {
            let j = index_of(s, h);
            assert(t[j].hour == h);
            lemma_count_at_index(s, j);
            lemma_count_at_index(t, j);
        }
    }
}

/// A new bucket put between the earlier hours and the later ones keeps the
/// order, adds its hour, and leaves every other count as it was.
proof fn lemma_place(s: Seq<Bucket>, i: int, hour: u64, amount: u32)
    requires
        ascending(s),
        0 <= i <= s.len(),
        forall|j: int| 0 <= j < i ==> (#[trigger] s[j]).hour < hour,
        forall|j: int| i <= j < s.len() ==> (#[trigger] s[j]).hour > hour,
    ensures
        ({
            let t = s.insert(i, Bucket { hour, count: amount as u128 });
            &&& ascending(t)
            &&& forall|h: u64| #[trigger] has_hour(t, h) == (h == hour || has_hour(s, h))
            &&& forall|h: u64| #[trigger]
                count_at(t, h) == count_at(s, h) + (if h == hour {
                    amount as nat
                } else {
                    0
                })
        }),
{
    let t = s.insert(i, Bucket { hour, count: amount as u128 });
    assert(forall|j: int| 0 <= j < i ==> (#[trigger] t[j]) == s[j]);
    assert(t[i].hour == hour);
    assert(forall|j: int| i < j < t.len() ==> (#[trigger] t[j]) == s[j - 1]);
    assert(!has_hour(s, hour));
    assert forall|a: int, b: int| 0 <= a < b < t.len() implies (#[trigger] t[a]).hour < (
    #[trigger] t[b]).hour by {
        let pa = if a < i { a } else { a - 1 };
        let pb = if b < i { b } else { b - 1 };
        if a != i && b != i {
            assert(s[pa].hour < s[pb].hour);
        } else if a == i {
            assert(s[pb].hour > hour);
        } else {
            assert(s[pa].hour < hour);
        }
    }
    assert forall|h: u64| #[trigger] has_hour(t, h) == (h == hour || has_hour(s, h)) by {
        if h == hour {
            assert(t[i].hour == h);
        }
        if has_hour(s, h) {
            let j = index_of(s, h);
            assert(t[if j < i { j } else { j + 1 }].hour == h);
        }
        if has_hour(t, h) && h != hour {
            let j = index_of(t, h);
            assert(s[if j < i { j } else { j - 1 }].hour == h);
        }
    }
    assert forall|h: u64| #[trigger]
        count_at(t, h) == count_at(s, h) + (if h == hour {
            amount as nat
        } else {
            0
        }) by {
        if h == hour {
            lemma_count_at_index(t, i);
        } else if has_hour(s, h) {
            let j = index_of(s, h);
            let q = if j < i { j } else { j + 1 };
            assert(t[q].hour == h);
            lemma_count_at_index(s, j);
            lemma_count_at_index(t, q);
        }
    }
}

/// Samples carry 32-bit amounts, which bounds their sum by their number.
pub proof fn lemma_amount_bounds(s: Seq<Sample>)
    ensures
        amount_total(s) <= s.len() * 0xffff_ffff,
    decreases s.len(),
{
    if s.len() > 0 {
        lemma_amount_bounds(s.drop_last());
    }
}

/// An hourly histogram. `wf` holds of every histogram that `new`,
/// `add` and `from_samples` produce.
#[derive(Clone, Debug, PartialEq, Eq)]
pub struct Histogram {
    pub buckets: Vec<Bucket>,
}

impl View for Histogram {
    type V = Seq<Bucket>;

    open spec fn view(&self) -> Seq<Bucket> {
        self.buckets@
    }
}

impl Histogram {
    /// Hours strictly ascend, and the counts add up to at most `MAX_TOTAL`.
    pub open spec fn wf(&self) -> bool {
        ascending(self@) && total(self@) <= MAX_TOTAL
    }

    pub open spec fn has_hour(&self, h: u64) -> bool {
        has_hour(self@, h)
    }

    pub open spec fn count_at(&self, h: u64) -> nat {
        count_at(self@, h)
    }

    pub open spec fn total(&self) -> nat {
        total(self@)
    }

    pub fn new() -> (h: Histogram)
        ensures
            h.wf(),
            h@.len() == 0,
    {
        Histogram { buckets: Vec::new() }
    }

    pub fn len(&self) -> (n: usize)
        ensures
            n == self@.len(),
    {
        self.buckets.len()
    }

    /// Adds `amount` to the bucket of `hour`, creating the bucket where
    /// the hour had none.
    pub fn add(&mut self, hour: u64, amount: u32)
        requires
            old(self).wf(),
            old(self).total() + amount <= MAX_TOTAL,
        ensures
            final(self).wf(),
            final(self)@ == merged(old(self)@, hour, amount),
            final(self).total() == old(self).total() + amount,
            forall|h: u64| #[trigger]
                final(self).has_hour(h) == (h == hour || old(self).has_hour(h)),
            forall|h: u64| #[trigger]
                final(self).count_at(h) == old(self).count_at(h) + (if h == hour {
                    amount as nat
                } else {
                    0
                }),
    {
        let ghost before = self@;
        let n: usize = self.buckets.len();
        let mut i: usize = 0;
        while i < n && self.buckets[i].hour < hour
            invariant
                n == self.buckets.len(),
                i <= n,
                self@ == before,
                forall|j: int| 0 <= j < i ==> (#[trigger] before[j]).hour < hour,
            decreases n - i,
        {
            i += 1;
        }
        proof {
            assert forall|j: int| i <= j < before.len() implies (#[trigger] before[j]).hour
                >= hour by {
                if j > i {
                    assert(before[i as int].hour < before[j].hour);
                }
            }
            lemma_rank(before, hour, i as int);
        }
        if i < n && self.buckets[i].hour == hour {
            let b: Bucket = self.buckets[i];
            proof {
                lemma_total_covers(before, i as int);
                lemma_count_at_index(before, i as int);
            }
            let grown = Bucket { hour, count: b.count + amount as u128 };
            proof {
                lemma_total_update(before, i as int, grown);
                lemma_grow(before, i as int, amount);
            }
            self.buckets.set(i, grown);
        } else {
            let placed = Bucket { hour, count: amount as u128 };
            proof {
                lemma_total_insert(before, i as int, placed);
                lemma_place(before, i as int, hour, amount);
            }
            self.buckets.insert(i, placed);
        }
    }

    /// Builds the histogram of a sequence of samples: one bucket for each
    /// hour that occurs, holding the sum of that hour's amounts.
    pub fn from_samples(samples: &Vec<Sample>) -> (hist: Histogram)
        ensures
            hist.wf(),
            hist@ == histogram_of(samples@),
            hist.total() == amount_total(samples@),
            forall|h: u64| #[trigger] hist.has_hour(h) == samples_have_hour(samples@, h),
            forall|h: u64| #[trigger] hist.count_at(h) == amount_at(samples@, h),
    {
        let mut hist = Histogram::new();
        let n: usize = samples.len();
        let mut i: usize = 0;
        proof {
            assert(samples@.take(0) =~= Seq::<Sample>::empty());
        }
        while i < n
            invariant
                n == samples.len(),
                i <= n,
                hist.wf(),
                hist@ == histogram_of(samples@.take(i as int)),
                hist.total() == amount_total(samples@.take(i as int)),
                forall|h: u64| #[trigger]
                    hist.has_hour(h) == samples_have_hour(samples@.take(i as int), h),
                forall|h: u64| #[trigger]
                    hist.count_at(h) == amount_at(samples@.take(i as int), h),
            decreases n - i,
        {
            let s: Sample = samples[i];
            let ghost done = samples@.take(i as int);
            let ghost next = samples@.take(i + 1);
            proof {
                lemma_amount_bounds(done);
                assert(next.drop_last() =~= done);
                assert(next.last() == s);
                assert forall|h: u64| #[trigger]
                    samples_have_hour(next, h) == (h == s.hour || samples_have_hour(done, h)) by {
                    if h == s.hour {
                        assert(next[i as int].hour == h);
                    }
                    if samples_have_hour(done, h) {
                        let j = choose|j: int|
                            0 <= j < done.len() && (#[trigger] done[j]).hour == h;
                        assert(next[j].hour == h);
                    }
                    if samples_have_hour(next, h) && h != s.hour {
                        let j = choose|j: int|
                            0 <= j < next.len() && (#[trigger] next[j]).hour == h;
                        assert(done[j].hour == h);
                    }
                }
            }
            hist.add(s.hour, s.amount);
            i += 1;
        }
        proof {
            assert(samples@.take(n as int) =~= samples@);
        }
        hist
    }
}

} // verus!
