//! A token bucket that refills all at once at the end of each period.
use vstd::prelude::*;

verus! {

/// A token bucket; times are in milliseconds of a monotonic clock.
#[derive(Clone, Copy, Debug, PartialEq, Eq, Structural)]
pub struct Bucket {
    last_refreshed_at: u64,
    capacity: u64,
    period: u64,
    tokens: u64,
}

/// What a bucket holds: when it was last refilled, its capacity, its period, its tokens.
pub struct BucketView {
    /// When the bucket was last refilled.
    pub last_refreshed_at: u64,
    /// The tokens of a full bucket.
    pub capacity: u64,
    /// How long a refill lasts.
    pub period: u64,
    /// The tokens left.
    pub tokens: u64,
}

impl View for Bucket {
    type V = BucketView;

    closed spec fn view(&self) -> BucketView {
        BucketView {
            last_refreshed_at: self.last_refreshed_at,
            capacity: self.capacity,
            period: self.period,
            tokens: self.tokens,
        }
    }
}

impl Bucket {
    /// A full bucket, refilled at `now`.
    pub fn new(capacity: u64, period: u64, now: u64) -> (r: Bucket)
        ensures
            r@ == (BucketView { last_refreshed_at: now, capacity, period, tokens: capacity }),
    {
        Bucket { last_refreshed_at: now, capacity, period, tokens: capacity }
    }

    /// Refills the bucket if a whole period has passed since its last refill; a `now`
    /// before the last refill changes nothing.
    pub fn refresh(&mut self, now: u64)
        ensures
            if old(self)@.last_refreshed_at <= now && now - old(self)@.last_refreshed_at >= old(self)@.period {
                final(self)@ == BucketView { last_refreshed_at: now, tokens: old(self)@.capacity, ..old(self)@ }
            } else {
                final(self)@ == old(self)@
            },
    {
        if self.last_refreshed_at > now {
            return;
        }
        if now - self.last_refreshed_at >= self.period {
            self.tokens = self.capacity;
            self.last_refreshed_at = now;
        }
    }

    /// Whether a token is left.
    ///
    /// The count of tokens is left as it is: taking one is not kept.
    pub fn get(&mut self) -> (r: bool)
        ensures
            r == (old(self)@.tokens > 0),
            final(self)@ == old(self)@,
    {
        let ok = self.tokens > 0;
        let _ = self.tokens.saturating_sub(1);
        ok
    }
}

} // verus!
