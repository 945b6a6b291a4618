use vstd::prelude::*;

verus! {

/// Default pause between two checks of an empty expiration queue: 100ms, in nanoseconds.
pub const DEFAULT_EMPTY_DELAY: u64 = 100_000_000;

/// Default grace delay added after the earliest expiration: 5ms, in nanoseconds.
pub const DEFAULT_DELTA_DELAY: u64 = 5_000_000;

/// Configuration of a cache. Every duration is counted in nanoseconds.
#[derive(Debug, Clone, Copy, PartialEq, Eq, Structural)]
pub struct AsyncTtlConfig {
    /// Time-to-live shared by every entry.
    pub expires_after: u64,
    /// Pause between two checks while the expiration queue is empty.
    pub empty_delay: u64,
    /// Grace delay added after the earliest expiration, so that entries that
    /// expire close together are evicted in one pass.
    pub delta_delay: u64,
}

impl AsyncTtlConfig {
    /// A configuration with the given time-to-live and the default delays.
    pub fn new(expires_after: u64) -> (r: Self)
        ensures
            r.expires_after == expires_after,
            r.empty_delay == DEFAULT_EMPTY_DELAY,
            r.delta_delay == DEFAULT_DELTA_DELAY,
    {
        AsyncTtlConfig {
            expires_after,
            empty_delay: DEFAULT_EMPTY_DELAY,
            delta_delay: DEFAULT_DELTA_DELAY,
        }
    }

    /// A builder with the given time-to-live, whose delays default until set.
    pub fn builder(expires_after: u64) -> (r: AsyncTtlConfigBuilder)
        ensures
            r.spec_expires_after() == expires_after,
            r.spec_empty_delay() == None::<u64>,
            r.spec_delta_delay() == None::<u64>,
    {
        AsyncTtlConfigBuilder::new(expires_after)
    }
}

/// Builder for [`AsyncTtlConfig`]: the delays left unset take their defaults.
pub struct AsyncTtlConfigBuilder {
    expires_after: u64,
    empty_delay: Option<u64>,
    delta_delay: Option<u64>,
}

impl AsyncTtlConfigBuilder {
    /// The time-to-live that the built configuration will carry.
    pub closed spec fn spec_expires_after(&self) -> u64 {
        self.expires_after
    }

    /// The pause for an empty queue, if one was set.
    pub closed spec fn spec_empty_delay(&self) -> Option<u64> {
        self.empty_delay
    }

    /// The grace delay, if one was set.
    pub closed spec fn spec_delta_delay(&self) -> Option<u64> {
        self.delta_delay
    }

    /// A builder with the given time-to-live and no delay set.
    pub fn new(expires_after: u64) -> (r: Self)
        ensures
            r.spec_expires_after() == expires_after,
            r.spec_empty_delay() == None::<u64>,
            r.spec_delta_delay() == None::<u64>,
    {
        AsyncTtlConfigBuilder { expires_after, empty_delay: None, delta_delay: None }
    }

    /// Sets the pause between two checks of an empty queue.
    pub fn empty_delay(self, empty_delay: u64) -> (r: Self)
        ensures
            r.spec_expires_after() == self.spec_expires_after(),
            r.spec_empty_delay() == Some(empty_delay),
            r.spec_delta_delay() == self.spec_delta_delay(),
    {
        let mut b = self;
        b.empty_delay = Some(empty_delay);
        b
    }

    /// Sets the grace delay added after the earliest expiration.
    pub fn delta_delay(self, delta_delay: u64) -> (r: Self)
        ensures
            r.spec_expires_after() == self.spec_expires_after(),
            r.spec_empty_delay() == self.spec_empty_delay(),
            r.spec_delta_delay() == Some(delta_delay),
    {
        let mut b = self;
        b.delta_delay = Some(delta_delay);
        b
    }

    /// The configuration: each delay is the one set, or its default.
    pub fn build(self) -> (r: AsyncTtlConfig)
        ensures
            r.expires_after == self.spec_expires_after(),
            r.empty_delay == match self.spec_empty_delay() {
                Some(d) => d,
                None => DEFAULT_EMPTY_DELAY,
            },
            r.delta_delay == match self.spec_delta_delay() {
                Some(d) => d,
                None => DEFAULT_DELTA_DELAY,
            },
    {
        let empty_delay = match self.empty_delay {
            Some(d) => d,
            None => DEFAULT_EMPTY_DELAY,
        };
        let delta_delay = match self.delta_delay {
            Some(d) => d,
            None => DEFAULT_DELTA_DELAY,
        };
        AsyncTtlConfig { expires_after: self.expires_after, empty_delay, delta_delay }
    }
}

} // verus!
