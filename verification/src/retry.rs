//! The retry policy for delivering one record to Kafka: exponential
//! back-off, then local storage.

use vstd::prelude::*;
use vstd::arithmetic::power::pow;

verus! {

/// The base of the back-off, in milliseconds: the first retry waits this
/// long, each later one this many times longer.
pub const RETRY_BASE_DELAY_MS: u64 = 500;

/// How many times a failed delivery is retried before the record is
/// stored locally.
pub const MAX_RETRIES: usize = 5;

/// The delay, in milliseconds, before retry number `n` (counting from 0)
/// of an exponential back-off with base `base`: `base` to the power
/// `n + 1`, capped at `u64::MAX`.
pub open spec fn backoff_delay(base: u64, n: nat) -> u64 {
    if pow(base as int, n + 1) <= u64::MAX {
        pow(base as int, n + 1) as u64
    } else {
        u64::MAX
    }
}

/// The delay that tokio-retry's `ExponentialBackoff::from_millis(base_ms)`
/// yields at position `n` (its `n`-th `next`), in milliseconds. Its source
/// starts at `base_ms` and multiplies by `base_ms` after each delay with
/// `saturating_mul`, so the delay is `base_ms` to the power `n + 1`,
/// capped at `u64::MAX`; the iterator never ends.
#[verifier::external_body]
fn exponential_backoff_ms(base_ms: u64, n: usize) -> (r: u64)
    ensures
        r == backoff_delay(base_ms, n as nat),
{
    match tokio_retry::strategy::ExponentialBackoff::from_millis(base_ms).nth(n) {
        Some(d) => d.as_millis() as u64,
        None => u64::MAX,
    }
}

/// Where a record goes first.
#[derive(Clone, Copy, Debug, PartialEq, Eq, Structural)]
pub enum DeliveryRoute {
    /// Send it to Kafka, retrying on failure.
    Kafka,
    /// Keep it in local storage at once.
    LocalStorage,
}

/// Chooses where a record goes first: while the health monitor reports
/// Kafka down, straight to local storage; otherwise to Kafka.
pub fn route_delivery(kafka_available: bool) -> (r: DeliveryRoute)
    ensures
        r == (if kafka_available { DeliveryRoute::Kafka } else { DeliveryRoute::LocalStorage }),
{
    if kafka_available {
        DeliveryRoute::Kafka
    } else {
        DeliveryRoute::LocalStorage
    }
}

/// What to do after an attempt to deliver a record.
#[derive(Clone, Copy, Debug, PartialEq, Eq, Structural)]
pub enum DeliveryStep {
    /// The record reached Kafka.
    Delivered,
    /// Try again after this many milliseconds (before jitter).
    RetryAfterMs(u64),
    /// Every attempt failed: keep the record in local storage.
    SaveLocally,
}

/// The step after an attempt, given how many retries came before it.
pub open spec fn delivery_step(retries_done: nat, delivered: bool) -> DeliveryStep {
    if delivered {
        DeliveryStep::Delivered
    } else if retries_done < MAX_RETRIES {
        DeliveryStep::RetryAfterMs(backoff_delay(RETRY_BASE_DELAY_MS, retries_done))
    } else {
        DeliveryStep::SaveLocally
    }
}

/// The progress of delivering one record: how many retries were made.
pub struct RetryState {
    retries_done: usize,
}

impl View for RetryState {
    type V = nat;

    closed spec fn view(&self) -> nat {
        self.retries_done as nat
    }
}

impl RetryState {
    #[verifier::type_invariant]
    closed spec fn within_budget(self) -> bool {
        self.retries_done <= MAX_RETRIES
    }

    /// No attempt made yet.
    pub fn new() -> (r: Self)
        ensures
            r@ == 0,
    {
        RetryState { retries_done: 0 }
    }

    /// Records the outcome of an attempt and says what comes next. A
    /// failure leads to a retry while fewer than `MAX_RETRIES` retries were
    /// made, and to local storage after that.
    pub fn record_attempt(&mut self, delivered: bool) -> (r: DeliveryStep)
        ensures
            r == delivery_step(old(self)@, delivered),
            final(self)@ == (if r is RetryAfterMs { old(self)@ + 1 } else { old(self)@ }),
            final(self)@ <= MAX_RETRIES,
    {
        proof { use_type_invariant(&*self); }
        if delivered {
            DeliveryStep::Delivered
        } else if self.retries_done < MAX_RETRIES {
            let delay = exponential_backoff_ms(RETRY_BASE_DELAY_MS, self.retries_done);
            self.retries_done = self.retries_done + 1;
            DeliveryStep::RetryAfterMs(delay)
        } else {
            DeliveryStep::SaveLocally
        }
    }
}

/// How delivering a record ends when its attempts have the given outcomes
/// (`true`: delivered), starting after `retries_done` retries; `None` when
/// the outcomes run out before an end.
pub open spec fn delivery_outcome(retries_done: nat, attempts: Seq<bool>) -> Option<DeliveryStep>
    decreases attempts.len(),
{
    if attempts.len() == 0 {
        None
    } else {
        match delivery_step(retries_done, attempts[0]) {
            DeliveryStep::RetryAfterMs(_) => delivery_outcome(retries_done + 1, attempts.drop_first()),
            step => Some(step),
        }
    }
}

} // verus!
