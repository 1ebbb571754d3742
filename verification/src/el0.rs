//! Support for tasklets that run at EL0: the future behind `yield_now`, and
//! the decisions of the polling loop that drives a tasklet's future and
//! talks to EL1 by supervisor calls.
use vstd::prelude::*;

verus! {

/// The supervisor call that returns a value to EL1.
pub const SVC_RETURN: u16 = 1;

/// The supervisor call that yields to EL1.
pub const SVC_YIELD: u16 = 2;

/// The supervisor call that wakes a tasklet.
pub const SVC_WAKE: u16 = 3;

/// The outcome of polling a future once.
#[derive(Clone, Copy, Debug, PartialEq, Eq, Structural)]
pub enum PollOutcome {
    /// The future finished.
    Ready,
    /// The future is not done; when `wake` holds it has asked to be polled again.
    Pending { wake: bool },
}

/// One poll of the future behind `yield_now`, from whether it has yielded:
/// the outcome and whether it has yielded afterwards.
pub open spec fn yield_poll(yielded: bool) -> (PollOutcome, bool) {
    if yielded {
        (PollOutcome::Ready, true)
    } else {
        (PollOutcome::Pending { wake: true }, true)
    }
}

/// The future behind `yield_now`: pending once, then ready.
pub struct YieldFuture {
    yielded: bool,
}

impl YieldFuture {
    /// Whether the future has already yielded.
    pub closed spec fn has_yielded(&self) -> bool {
        self.yielded
    }

    /// A future that has not yielded yet.
    pub fn new() -> (r: YieldFuture)
        ensures
            !r.has_yielded(),
    {
        YieldFuture { yielded: false }
    }

    /// Polls the future: the first poll records the yield, asks to be woken
    /// and is pending; every later poll is ready.
    pub fn poll(&mut self) -> (r: PollOutcome)
        ensures
            (r, final(self).has_yielded()) == yield_poll(old(self).has_yielded()),
    {
        if self.yielded {
            PollOutcome::Ready
        } else {
            self.yielded = true;
            PollOutcome::Pending { wake: true }
        }
    }
}

/// The future that yields to the scheduler once before completing.
pub fn yield_now() -> (r: YieldFuture)
    ensures
        !r.has_yielded(),
{
    YieldFuture::new()
}

/// `yield_now` gives way exactly once: a fresh future is pending and asks to
/// be woken on the first poll, and is ready on the second and every later poll.
pub proof fn lemma_yield_once()
    ensures
        yield_poll(false).0 == (PollOutcome::Pending { wake: true }),
        yield_poll(yield_poll(false).1).0 == PollOutcome::Ready,
        forall|y: bool| yield_poll(y).0 == PollOutcome::Ready ==> yield_poll(yield_poll(y).1) == yield_poll(y),
{
}

/// The code that reports a poll: 1 for ready, 0 for pending.
pub open spec fn poll_code_of(outcome: PollOutcome) -> u8 {
    if outcome == PollOutcome::Ready { 1 } else { 0 }
}

/// The entry loop's step after the poll code `result`: yield on 0, return
/// the code otherwise.
pub open spec fn entry_step_of(result: u8) -> El0Step {
    if result == 0 { El0Step::Yield } else { El0Step::Return { value: result as u64 } }
}

/// The code by which the poll wrapper reports a poll: 1 for ready, 0 for pending.
pub fn poll_code(outcome: PollOutcome) -> (r: u8)
    ensures
        r == poll_code_of(outcome),
{
    match outcome {
        PollOutcome::Ready => 1,
        PollOutcome::Pending { .. } => 0,
    }
}

/// What the EL0 entry loop does after a poll.
#[derive(Clone, Copy, Debug, PartialEq, Eq, Structural)]
pub enum El0Step {
    /// Yield to EL1 (`svc #2`) and poll again.
    Yield,
    /// Return `value` to EL1 (`svc #1`); the loop ends.
    Return { value: u64 },
}

/// The step of the EL0 entry loop after the poll function returned `result`.
pub fn el0_entry_step(result: u8) -> (r: El0Step)
    ensures
        r == entry_step_of(result),
{
    if result == 0 {
        El0Step::Yield
    } else {
        El0Step::Return { value: result as u64 }
    }
}

/// A pending poll makes the entry loop yield; a ready one makes it return 1
/// to EL1.
pub proof fn lemma_entry_follows_poll(outcome: PollOutcome)
    ensures
        entry_step_of(poll_code_of(outcome)) == (if outcome == PollOutcome::Ready {
            El0Step::Return { value: 1 }
        } else {
            El0Step::Yield
        }),
{
}

} // verus!
