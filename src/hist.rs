//! A histogram over a range `[start, end)` of sample values.
use crate::bins::{all_empty, is_highest, is_lowest, landing, sum, Bins, BuildError};
use crate::position::Position;
use std::ops::Range;
use vstd::prelude::*;

verus! {

/// `v` lies in the half-open range `[start, end)`.
pub open spec fn in_range(v: int, start: int, end: int) -> bool {
    start <= v < end
}

/// The bucket, among `n` equal-width buckets over `[start, end)`, that holds `v`:
/// `floor(n * (v - start) / (end - start))`.
pub open spec fn bucket_of(v: int, start: int, end: int, n: int) -> int {
    (n * (v - start)) / (end - start)
}

/// Why a sample was not recorded.
#[derive(Debug, PartialEq, Eq)]
pub enum SampleError<T> {
    /// The value lies outside the histogram's range, or has no place in its order.
    OutOfRange { value: T, start: T, end: T },
    /// The computed bucket index fell beyond the buckets.
    IndexFail { index: usize, bins: usize },
}

/// Counts of samples in `n` equal-width buckets over `[start, end)`.
pub struct Hist<T> {
    bins: Bins,
    start: T,
    end: T,
}

impl<T> View for Hist<T> {
    type V = Seq<usize>;

    closed spec fn view(&self) -> Seq<usize> {
        self.bins@
    }
}

impl<T> Hist<T> {
    /// The number of samples recorded so far.
    pub closed spec fn total_spec(&self) -> int {
        self.bins.total_spec()
    }

    /// The first value of the range.
    pub closed spec fn start_spec(&self) -> T {
        self.start
    }

    /// The value just past the range.
    pub closed spec fn end_spec(&self) -> T {
        self.end
    }

    /// The count of each bucket, in bucket order.
    pub fn counts(&self) -> (r: &[usize])
        ensures
            r@ == self@,
    {
        self.bins.counts()
    }

    /// The number of samples recorded so far.
    pub fn total_count(&self) -> (r: usize)
        ensures
            r == self.total_spec(),
    {
        self.bins.total_count()
    }

    /// The lowest bucket with a non-zero count, if any.
    pub fn min(&self) -> (r: Option<usize>)
        ensures
            r matches Some(i) ==> is_lowest(self@, i as int),
            r is None <==> all_empty(self@),
    {
        self.bins.min()
    }

    /// The highest bucket with a non-zero count, if any.
    pub fn max(&self) -> (r: Option<usize>)
        ensures
            r matches Some(i) ==> is_highest(self@, i as int),
            r is None <==> all_empty(self@),
    {
        self.bins.max()
    }
}

impl<T: Position> Hist<T> {
    /// At least one bucket, the total is the sum of the counts, and the range
    /// is not empty.
    pub open spec fn wf(&self) -> bool {
        &&& self@.len() >= 1
        &&& self.total_spec() == sum(self@)
        &&& self.start_spec().pos() < self.end_spec().pos()
    }

    /// A histogram with `n` empty buckets over `range`.
    pub fn new(n: usize, range: Range<T>) -> (r: Result<Hist<T>, BuildError>)
        ensures
            n == 0 ==> r == Err::<Hist<T>, BuildError>(BuildError::NoBins),
            n >= 1 && range.end.pos() <= range.start.pos() ==> r == Err::<Hist<T>, BuildError>(
                BuildError::EmptyRange,
            ),
            n >= 1 && range.start.pos() < range.end.pos() ==> r is Ok,
            r matches Ok(h) ==> {
                &&& h.wf()
                &&& h@.len() == n
                &&& all_empty(h@)
                &&& h.total_spec() == 0
                &&& h.start_spec() == range.start
                &&& h.end_spec() == range.end
            },
    {
        let bins = match Bins::new(n) {
            Ok(b) => b,
            Err(e) => return Err(e),
        };
        if !range.start.precedes(&range.end) {
            return Err(BuildError::EmptyRange);
        }
        Ok(Hist { bins, start: range.start, end: range.end })
    }

    /// Records `value` in the bucket that holds it, or reports it out of range.
    pub fn sample(&mut self, value: T) -> (r: Result<(), SampleError<T>>)
        requires
            old(self).wf(),
            old(self).total_spec() < usize::MAX,
        ensures
            final(self).wf(),
            final(self).start_spec() == old(self).start_spec(),
            final(self).end_spec() == old(self).end_spec(),
            ({
                let n = old(self)@.len() as int;
                let (s, e) = (old(self).start_spec().pos(), old(self).end_spec().pos());
                let b = bucket_of(value.pos(), s, e, n);
                if in_range(value.pos(), s, e) {
                    &&& r is Ok
                    &&& 0 <= b < n
                    &&& final(self)@ == old(self)@.update(b, (old(self)@[b] + 1) as usize)
                    &&& final(self).total_spec() == old(self).total_spec() + 1
                } else {
                    &&& r == Err::<(), SampleError<T>>(
                        SampleError::OutOfRange {
                            value,
                            start: old(self).start_spec(),
                            end: old(self).end_spec(),
                        },
                    )
                    &&& final(self)@ == old(self)@
                    &&& final(self).total_spec() == old(self).total_spec()
                }
            }),
    {
        if value.precedes(&self.start) || !value.precedes(&self.end) {
            return Err(SampleError::OutOfRange { value, start: self.start, end: self.end });
        }
        let d = value.distance_from(&self.start) as u128;
        let w = self.end.distance_from(&self.start) as u128;
        let n = self.bins.counts().len() as u128;
        proof {
            assert(n * d <= 0xffff_ffff_ffff_ffffu128 * 0xffff_ffff_ffff_ffffu128) by (nonlinear_arith)
                requires
                    n <= 0xffff_ffff_ffff_ffffu128,
                    d <= 0xffff_ffff_ffff_ffffu128,
            ;
            assert(n * d < w * n) by (nonlinear_arith)
                requires
                    d < w,
                    n >= 1,
            ;
            vstd::arithmetic::div_mod::lemma_multiply_divide_lt((n * d) as int, w as int, n as int);
        }
        let b = n * d / w;
        match self.bins.record(b as usize) {
            Some(_) => Ok(()),
            None => Err(SampleError::IndexFail { index: b as usize, bins: n as usize }),
        }
    }
}

} // verus!
