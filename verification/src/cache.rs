//! The rate cache: a ring of the eight most recent exchange-rate samples.
use vstd::prelude::*;

use crate::decision::MAX_RATE;
use crate::TreasuryError;

verus! {

/// How many samples the cache keeps, and how many a decision needs.
pub const CACHE_CAPACITY: usize = 8;

/// One oracle reading: when it was taken and the exchange rate then,
/// scaled by `AMOUNT_SCALE`.
#[derive(Clone, Copy, Debug, PartialEq, Eq, Structural)]
pub struct RateSample {
    pub timestamp: u64,
    pub rate: u128,
}

/// Fixed-capacity time series of recent exchange-rate samples, oldest first.
/// Appending to a full cache evicts the oldest sample.
pub struct RateCache {
    samples: Vec<RateSample>,
}

impl View for RateCache {
    type V = Seq<RateSample>;

    closed spec fn view(&self) -> Seq<RateSample> {
        self.samples@
    }
}

impl RateCache {
    /// The cache never holds more than its capacity, and every stored rate
    /// is positive and within the engine's machine bound.
    pub open spec fn well_formed(&self) -> bool {
        &&& self@.len() <= CACHE_CAPACITY
        &&& forall|i: int| 0 <= i < self@.len() ==> 1 <= #[trigger] self@[i].rate <= MAX_RATE
    }

    /// An empty cache: nothing is warmed up yet.
    pub fn new() -> (r: RateCache)
        ensures
            r@ =~= Seq::<RateSample>::empty(),
            r.well_formed(),
    {
        RateCache { samples: Vec::new() }
    }

    /// How many samples are stored.
    pub fn len(&self) -> (n: usize)
        ensures
            n == self@.len(),
    {
        self.samples.len()
    }

    /// Insert one sample; evict the oldest if the cache is full.
    pub fn append(&mut self, timestamp: u64, rate: u128)
        requires
            old(self).well_formed(),
            1 <= rate <= MAX_RATE,
        ensures
            final(self).well_formed(),
            old(self)@.len() < CACHE_CAPACITY ==> final(self)@ =~= old(self)@.push(
                RateSample { timestamp, rate },
            ),
            old(self)@.len() == CACHE_CAPACITY ==> final(self)@ =~= old(self)@.subrange(
                1,
                CACHE_CAPACITY as int,
            ).push(RateSample { timestamp, rate }),
    {
        if self.samples.len() == CACHE_CAPACITY {
            self.samples.remove(0);
        }
        self.samples.push(RateSample { timestamp, rate });
    }

    /// Return the stored series as two equal-length sequences, oldest first:
    /// the sample times relative to `now` and the rates. Fails while fewer
    /// than eight samples are present.
    pub fn collect(&self, now: u64) -> (r: Result<(Vec<i128>, Vec<u128>), TreasuryError>)
        requires
            self.well_formed(),
        ensures
            self@.len() < CACHE_CAPACITY ==> r == Err::<(Vec<i128>, Vec<u128>), TreasuryError>(
                TreasuryError::NotWarmedUp,
            ),
            self@.len() == CACHE_CAPACITY ==> (r matches Ok((times, rates)) && {
                &&& times@.len() == CACHE_CAPACITY
                &&& rates@.len() == CACHE_CAPACITY
                &&& forall|i: int|
                    0 <= i < CACHE_CAPACITY ==> times@[i] == self@[i].timestamp - now
                &&& forall|i: int| 0 <= i < CACHE_CAPACITY ==> rates@[i] == self@[i].rate
            }),
    {
        if self.samples.len() < CACHE_CAPACITY {
            return Err(TreasuryError::NotWarmedUp);
        }
        let mut times: Vec<i128> = Vec::new();
        let mut rates: Vec<u128> = Vec::new();
        let mut i: usize = 0;
        while i < self.samples.len()
            invariant
                i <= self.samples@.len(),
                self.samples@.len() == CACHE_CAPACITY,
                times@.len() == i,
                rates@.len() == i,
                forall|j: int| 0 <= j < i ==> times@[j] == self.samples@[j].timestamp - now,
                forall|j: int| 0 <= j < i ==> rates@[j] == self.samples@[j].rate,
            decreases self.samples@.len() - i,
        {
            let s = self.samples[i];
            times.push(s.timestamp as i128 - now as i128);
            rates.push(s.rate);
            i = i + 1;
        }
        Ok((times, rates))
    }
}

} // verus!
