//! The default pacing for callers that poll the replica.

use vstd::prelude::*;

verus! {

/// `garcon::Delay`: a waiter that a polling loop starts and then asks before
/// each attempt. Carried through unread.
#[verifier::external_type_specification]
#[verifier::external_body]
pub struct ExDelay(garcon::Delay);

/// How a polling loop is paced: the least time between two attempts and the
/// most time the whole wait may take, both in milliseconds.
#[derive(Clone, Copy, Debug, PartialEq, Eq, Structural)]
pub struct RetryPolicy {
    pub throttle_ms: u64,
    pub timeout_ms: u64,
}

/// The default pacing: an attempt every 500 ms, for five minutes at most.
pub open spec fn default_policy() -> RetryPolicy {
    RetryPolicy { throttle_ms: 500, timeout_ms: 300_000 }
}

/// The delay that `garcon::Delay::builder` builds from a throttle followed by
/// a timeout, both in milliseconds.
pub uninterp spec fn delay_of(throttle_ms: u64, timeout_ms: u64) -> garcon::Delay;

/// Returns the default pacing. It takes no input and is always the same.
pub fn default_retry_policy() -> (policy: RetryPolicy)
    ensures
        policy == default_policy(),
{
    RetryPolicy { throttle_ms: 500, timeout_ms: 300_000 }
}

/// `garcon::Delay::builder`, `throttle`, `timeout` and `build`: a delay that
/// sleeps `throttle_ms` at each wait and gives up once `timeout_ms` have
/// passed since it was started. Building it reads no clock, so the delay is
/// a function of the two numbers alone, which is all the contract says.
#[verifier::external_body]
fn build_delay(throttle_ms: u64, timeout_ms: u64) -> (delay: garcon::Delay)
    ensures
        delay == delay_of(throttle_ms, timeout_ms),
{
    garcon::Delay::builder()
        .throttle(std::time::Duration::from_millis(throttle_ms))
        .timeout(std::time::Duration::from_millis(timeout_ms))
        .build()
}

/// Builds a waiter with the default pacing.
pub fn get_waiter() -> (waiter: garcon::Delay)
    ensures
        waiter == delay_of(default_policy().throttle_ms, default_policy().timeout_ms),
{
    let policy = default_retry_policy();
    build_delay(policy.throttle_ms, policy.timeout_ms)
}

} // verus!
