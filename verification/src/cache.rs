//! Timestamped value cache: a value together with the time it was last
//! set, as used by the directory caches of the wider client.

use vstd::prelude::*;

verus! {

/// Relies on std's `SystemTime::now` and `duration_since`: whole seconds
/// of the system clock since the Unix epoch, 0 when the clock reads
/// earlier than the epoch. Nothing is promised of the clock's value.
#[verifier::external_body]
fn unix_timestamp_now() -> u64 {
    match std::time::SystemTime::now().duration_since(std::time::UNIX_EPOCH) {
        Ok(elapsed) => elapsed.as_secs(),
        Err(_) => 0,
    }
}

/// A cached value and the Unix timestamp at which it was last set.
pub struct Cache<T> {
    value: T,
    as_at: u64,
}

impl<T> Cache<T> {
    /// The cached value.
    pub closed spec fn spec_value(&self) -> T {
        self.value
    }

    /// The Unix timestamp the value was set at; 0 for a cache nothing was
    /// set into yet.
    pub closed spec fn spec_as_at(&self) -> u64 {
        self.as_at
    }
}

impl<T: Clone> Cache<T> {
    /// Replaces the cached value and stamps it with the clock's current
    /// reading; nothing is known of the clock, so nothing is promised of
    /// the new timestamp.
    pub fn set(&mut self, value: T)
        ensures
            final(self).spec_value() == value,
    {
        self.value = value;
        self.as_at = unix_timestamp_now();
    }

    /// Takes the cached value out.
    pub fn into_inner(self) -> (value: T)
        ensures
            value == self.spec_value(),
    {
        self.value
    }

    /// The timestamp of the last set.
    pub fn as_at(&self) -> (timestamp: u64)
        ensures
            timestamp == self.spec_as_at(),
    {
        self.as_at
    }
}

impl<T: Default> Default for Cache<T> {
    /// An unset cache: the type's default value, with timestamp 0.
    fn default() -> (cache: Self)
        ensures
            cache.spec_as_at() == 0,
    {
        Cache { value: T::default(), as_at: 0 }
    }
}

} // verus!
