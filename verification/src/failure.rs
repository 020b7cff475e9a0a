//! The failure tier: for each key, the moment of its most recent failed
//! fetch.
//!
//! A record that is still fresh stops further fetches for its key. Nothing
//! is ever removed: a stale record counts as absent until the next failure
//! overwrites it.

use crate::clock::is_fresh;
use crate::clock::fresh;
use crate::clock::Clock;
use vstd::hash_map::StringHashMap;
use vstd::prelude::*;
use vstd::string::StringExecFns;

verus! {

/// The tier's contents: key text to the moment of the last failure.
pub type Failures = Map<Seq<char>, u128>;

/// Whether `key` failed so recently that it must not be fetched at `now`.
pub open spec fn is_recent(m: Failures, key: Seq<char>, now: u128) -> bool {
    m.contains_key(key) && is_fresh(m[key], now)
}

/// The failure tier.
pub struct FailureTier {
    clock: Clock,
    failed_at: StringHashMap<u128>,
}

impl View for FailureTier {
    type V = Failures;

    closed spec fn view(&self) -> Failures {
        self.failed_at@
    }
}

impl FailureTier {
    /// An empty tier with a clock of its own.
    pub fn new() -> (tier: FailureTier)
        ensures
            tier@ == Failures::empty(),
    {
        FailureTier { clock: Clock::start(), failed_at: StringHashMap::new() }
    }

    /// The present moment on the tier's clock.
    pub fn now(&self) -> u128 {
        self.clock.now()
    }

    /// Records that a fetch for `key` failed at `now`, over any earlier
    /// record.
    pub fn record_failure_at(&mut self, key: &str, now: u128)
        ensures
            final(self)@ == old(self)@.insert(key@, now),
    {
        self.failed_at.insert(String::from_str(key), now);
    }

    /// Records that a fetch for `key` failed at the present moment, and
    /// returns that moment.
    pub fn record_failure(&mut self, key: &str) -> (now: u128)
        ensures
            final(self)@ == old(self)@.insert(key@, now),
    {
        let now = self.clock.now();
        self.record_failure_at(key, now);
        now
    }

    /// Whether a failure is on record for `key` that is fresh at `now`.
    pub fn is_recent_failure_at(&self, key: &str, now: u128) -> (b: bool)
        ensures
            b == is_recent(self@, key@, now),
    {
        match self.failed_at.get(key) {
            Some(at) => fresh(*at, now),
            None => false,
        }
    }

    /// Whether a failure is on record for `key` that is fresh at the present
    /// moment.
    pub fn is_recent_failure(&self, key: &str) -> (b: bool)
        ensures
            exists|now: u128| b == is_recent(self@, key@, now),
            b ==> self@.contains_key(key@),
    {
        let now = self.clock.now();
        self.is_recent_failure_at(key, now)
    }
}

/// A recorded failure blocks its key for the whole expiry window and no
/// longer: after a failure at `failed_at`, the key counts as recently failed
/// at `now` exactly while the record is fresh.
pub proof fn law_failure_blocks_while_fresh(m: Failures, key: Seq<char>, failed_at: u128, now: u128)
    ensures
        is_recent(m.insert(key, failed_at), key, now) == is_fresh(failed_at, now),
{
}

/// A failure recorded for one key says nothing about any other key.
pub proof fn law_failure_is_per_key(
    m: Failures,
    key: Seq<char>,
    failed_at: u128,
    other: Seq<char>,
    now: u128,
)
    requires
        other != key,
    ensures
        is_recent(m.insert(key, failed_at), other, now) == is_recent(m, other, now),
{
}

} // verus!
