//! The bucket counts of a histogram and the running total beside them.
use vstd::prelude::*;

verus! {

/// The sum of a sequence of counts.
pub open spec fn sum(s: Seq<usize>) -> int
    decreases s.len(),
{
    if s.len() == 0 {
        0
    } else {
        sum(s.drop_last()) + s.last()
    }
}

/// Every count in `s` is zero.
pub open spec fn all_empty(s: Seq<usize>) -> bool {
    forall|j: int| 0 <= j < s.len() ==> s[j] == 0
}

/// `i` is the lowest bucket of `s` with a non-zero count.
pub open spec fn is_lowest(s: Seq<usize>, i: int) -> bool {
    &&& 0 <= i < s.len()
    &&& s[i] > 0
    &&& forall|j: int| 0 <= j < i ==> s[j] == 0
}

/// `i` is the highest bucket of `s` with a non-zero count.
pub open spec fn is_highest(s: Seq<usize>, i: int) -> bool {
    &&& 0 <= i < s.len()
    &&& s[i] > 0
    &&& forall|j: int| i < j < s.len() ==> s[j] == 0
}

/// The bucket that a computed index lands in among `n` buckets: the index
/// itself when it is in bounds, the last bucket when rounding carried it just
/// past the end, and none beyond that.
pub open spec fn landing(index: int, n: int) -> Option<int> {
    if index < n {
        Some(index)
    } else if index == n {
        Some(n - 1)
    } else {
        None
    }
}

/// Why a histogram could not be built.
#[derive(Debug, Clone, Copy, PartialEq, Eq, Structural)]
pub enum BuildError {
    /// A histogram needs at least one bucket.
    NoBins,
    /// The range's start does not lie strictly before its end.
    EmptyRange,
}

/// A fixed number of bucket counts, and their total.
pub struct Bins {
    counts: Vec<usize>,
    total: usize,
}

impl View for Bins {
    type V = Seq<usize>;

    closed spec fn view(&self) -> Seq<usize> {
        self.counts@
    }
}

impl Bins {
    /// The number of samples recorded so far.
    pub closed spec fn total_spec(&self) -> int {
        self.total as int
    }

    /// At least one bucket, and the total is the sum of the counts.
    pub open spec fn wf(&self) -> bool {
        &&& self@.len() >= 1
        &&& self.total_spec() == sum(self@)
    }

    /// `n` empty buckets.
    pub fn new(n: usize) -> (r: Result<Bins, BuildError>)
        ensures
            n == 0 ==> r == Err::<Bins, BuildError>(BuildError::NoBins),
            n >= 1 ==> r is Ok,
            r matches Ok(b) ==> {
                &&& b.wf()
                &&& b@.len() == n
                &&& all_empty(b@)
                &&& b.total_spec() == 0
            },
    {
        if n == 0 {
            return Err(BuildError::NoBins);
        }
        let counts = vec![0usize; n];
        let b = Bins { counts, total: 0 };
        proof {
            lemma_sum_empty(b@);
        }
        Ok(b)
    }

    /// The count of each bucket, in bucket order.
    pub fn counts(&self) -> (r: &[usize])
        ensures
            r@ == self@,
    {
        self.counts.as_slice()
    }

    /// The number of samples recorded so far.
    pub fn total_count(&self) -> (r: usize)
        ensures
            r == self.total_spec(),
    {
        self.total
    }

    /// The lowest bucket with a non-zero count, if any.
    pub fn min(&self) -> (r: Option<usize>)
        ensures
            r matches Some(i) ==> is_lowest(self@, i as int),
            r is None <==> all_empty(self@),
    {
        let n = self.counts.len();
        let mut i: usize = 0;
        while i < n
            invariant
                n == self@.len(),
                i <= n,
                forall|j: int| 0 <= j < i ==> self@[j] == 0,
            decreases n - i,
        {
            if self.counts[i] > 0 {
                return Some(i);
            }
            i = i + 1;
        }
        None
    }

    /// The highest bucket with a non-zero count, if any.
    pub fn max(&self) -> (r: Option<usize>)
        ensures
            r matches Some(i) ==> is_highest(self@, i as int),
            r is None <==> all_empty(self@),
    {
        let n = self.counts.len();
        let mut i: usize = n;
        while i > 0
            invariant
                n == self@.len(),
                i <= n,
                forall|j: int| i <= j < n ==> self@[j] == 0,
            decreases i,
        {
            if self.counts[i - 1] > 0 {
                return Some(i - 1);
            }
            i = i - 1;
        }
        None
    }

    /// Adds one to the bucket that `index` lands in (see `landing`) and to the
    /// total, and returns that bucket; where it lands in none, nothing changes.
    pub fn record(&mut self, index: usize) -> (r: Option<usize>)
        requires
            old(self).wf(),
            old(self).total_spec() < usize::MAX,
        ensures
            final(self).wf(),
            r matches Some(b) ==> Some(b as int) == landing(index as int, old(self)@.len() as int),
            r is None <==> landing(index as int, old(self)@.len() as int) is None,
            r matches Some(b) ==> {
                &&& final(self)@ == old(self)@.update(b as int, (old(self)@[b as int] + 1) as usize)
                &&& final(self).total_spec() == old(self).total_spec() + 1
            },
            r is None ==> *final(self) == *old(self),
    {
        let n = self.counts.len();
        let b: usize = if index < n {
            index
        } else if index == n {
            n - 1
        } else {
            return None;
        };
        proof {
            lemma_count_le_sum(self@, b as int);
            lemma_sum_update(self@, b as int, (self@[b as int] + 1) as usize);
        }
        self.counts.set(b, self.counts[b] + 1);
        self.total = self.total + 1;
        Some(b)
    }
}

/// The lowest non-empty bucket never lies above the highest one, both lie
/// among the buckets, and where one of them exists so does the other.
pub proof fn lemma_min_le_max(s: Seq<usize>, i: int, j: int)
    requires
        is_lowest(s, i) || is_highest(s, j),
    ensures
        !all_empty(s),
        is_lowest(s, i) && is_highest(s, j) ==> 0 <= i <= j < s.len(),
{
    if is_lowest(s, i) {
        assert(s[i] > 0);
    } else {
        assert(s[j] > 0);
    }
}

/// The counts determine the lowest and the highest non-empty bucket: reading
/// them twice with no sample between gives the same answers.
pub proof fn lemma_extremes_unique(s: Seq<usize>, i1: int, i2: int, j1: int, j2: int)
    ensures
        is_lowest(s, i1) && is_lowest(s, i2) ==> i1 == i2,
        is_highest(s, j1) && is_highest(s, j2) ==> j1 == j2,
{
}

/// One count never exceeds the sum of all of them.
pub proof fn lemma_count_le_sum(s: Seq<usize>, i: int)
    requires
        0 <= i < s.len(),
    ensures
        s[i] <= sum(s),
    decreases s.len(),
{
    if i < s.len() - 1 {
        lemma_count_le_sum(s.drop_last(), i);
    } else {
        lemma_sum_nonneg(s.drop_last());
    }
}

/// A sum of counts is never negative.
pub proof fn lemma_sum_nonneg(s: Seq<usize>)
    ensures
        sum(s) >= 0,
    decreases s.len(),
{
    if s.len() > 0 {
        lemma_sum_nonneg(s.drop_last());
    }
}

/// Replacing one count changes the sum by the difference.
pub proof fn lemma_sum_update(s: Seq<usize>, i: int, v: usize)
    requires
        0 <= i < s.len(),
    ensures
        sum(s.update(i, v)) == sum(s) - s[i] + v,
    decreases s.len(),
{
    let t = s.update(i, v);
    if i < s.len() - 1 {
        assert(t.drop_last() =~= s.drop_last().update(i, v));
        lemma_sum_update(s.drop_last(), i, v);
    } else {
        assert(t.drop_last() =~= s.drop_last());
    }
}

/// Counts that are all zero sum to zero.
pub proof fn lemma_sum_empty(s: Seq<usize>)
    requires
        all_empty(s),
    ensures
        sum(s) == 0,
    decreases s.len(),
{
    if s.len() > 0 {
        lemma_sum_empty(s.drop_last());
    }
}

} // verus!
