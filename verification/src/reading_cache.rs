//! A cache of the last reading of a measurement, valid for a fixed time:
//! readings younger than the cache's duration are served from it. Times are
//! milliseconds on a monotonic clock that the caller reads.
use vstd::prelude::*;

verus! {

/// The last reading, and when it was taken.
#[derive(Debug)]
pub struct ReadingCache<V> {
    reading: Option<(V, u64)>,
    duration_millis: u64,
}

impl<V: Copy> ReadingCache<V> {
    /// The reading held and when it was taken, if any.
    pub closed spec fn held(&self) -> Option<(V, u64)> {
        self.reading
    }

    /// How long a reading stays valid, in milliseconds.
    pub closed spec fn duration(&self) -> u64 {
        self.duration_millis
    }

    /// How long ago, at `now`, a reading taken at `taken` was taken (zero
    /// when the clock reads earlier than `taken`).
    pub open spec fn age_at(taken: u64, now: u64) -> u64 {
        if now >= taken { (now - taken) as u64 } else { 0 }
    }

    /// The reading that is valid at `now`: one taken less than the cache's
    /// duration ago.
    pub open spec fn valid_at(&self, now: u64) -> Option<V> {
        match self.held() {
            Some((v, t)) => if Self::age_at(t, now) < self.duration() { Some(v) } else { None },
            None => None,
        }
    }

    /// An empty cache whose readings stay valid for `duration_millis`.
    pub fn new(duration_millis: u64) -> (r: Self)
        ensures
            r.held().is_none(),
            r.duration() == duration_millis,
    {
        ReadingCache { reading: None, duration_millis }
    }

    /// The reading valid at `now`, if any.
    pub fn get(&self, now: u64) -> (r: Option<V>)
        ensures
            r == self.valid_at(now),
    {
        match self.reading {
            Some((v, t)) => if self.age(now).unwrap() < self.duration_millis { Some(v) } else { None },
            None => None,
        }
    }

    /// Holds `value`, read at `now`.
    pub fn set(&mut self, value: V, now: u64)
        ensures
            final(self).held() == Some((value, now)),
            final(self).duration() == old(self).duration(),
    {
        self.reading = Some((value, now));
    }

    /// Drops the reading held.
    pub fn invalidate(&mut self)
        ensures
            final(self).held().is_none(),
            final(self).duration() == old(self).duration(),
    {
        self.reading = None;
    }

    /// How old the reading held is at `now`, if there is one.
    pub fn age(&self, now: u64) -> (r: Option<u64>)
        ensures
            match self.held() {
                Some((_, t)) => r == Some(Self::age_at(t, now)),
                None => r.is_none(),
            },
    {
        match self.reading {
            Some((_, t)) => if now >= t { Some(now - t) } else { Some(0) },
            None => None,
        }
    }

    /// Whether a reading is valid at `now`.
    pub fn is_valid(&self, now: u64) -> (r: bool)
        ensures
            r == self.valid_at(now).is_some(),
    {
        self.get(now).is_some()
    }
}

/// A reading taken at `taken` is served at a later `now` exactly while less
/// than the cache's duration has passed since.
pub proof fn law_reading_valid_for_duration<V: Copy>(c: ReadingCache<V>, value: V, taken: u64, now: u64)
    requires
        c.held() == Some((value, taken)),
        now >= taken,
    ensures
        c.valid_at(now) == (if now - taken < c.duration() { Some(value) } else { None::<V> }),
{
}

} // verus!
