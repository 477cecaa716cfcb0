//! Waiting for the next email: after each look at the inbox, decide whether the
//! wait is over.
//!
//! The caller counts the emails once before the wait begins, and then in each
//! round counts them again, asks [`Poll::step`], and sleeps where it says so.

use crate::error::{ConfigError, InboxError};
use vstd::prelude::*;

verus! {

/// Nanoseconds in a second.
pub const NANOS_PER_SECOND: u128 = 1_000_000_000;

/// How long to wait for new mail, and how long to pause between two looks.
#[derive(Debug, Clone, Copy, PartialEq, Eq, Structural)]
pub struct PollConfig {
    /// The longest time to wait, in seconds.
    pub timeout: u64,
    /// The pause between two looks at the inbox, in seconds.
    pub interval: u64,
}

/// What to do after a look at the inbox.
#[derive(Debug, Clone, Copy, PartialEq, Eq, Structural)]
pub enum PollStep {
    /// New mail has arrived; the email to present stands at this index of the
    /// list that was just fetched.
    Found(usize),
    /// No new mail has arrived within the time to wait.
    TimedOut,
    /// Sleep for this many seconds, then look again.
    Wait(u64),
}

/// A wait for new mail that has begun.
#[derive(Debug, Clone, Copy, PartialEq, Eq, Structural)]
pub struct Poll {
    /// The settings of the wait.
    pub config: PollConfig,
    /// How many emails the inbox held when the wait began.
    pub start_count: usize,
}

/// The place of the new arrival counted back from the end of a list of `count`
/// emails, of which `start_count` were there before.
pub open spec fn arrival_from_end(start_count: int, count: int) -> int {
    count - start_count - 1
}

/// The index of the new arrival in a list of `count` emails, of which
/// `start_count` were there before.
pub open spec fn arrival_index(start_count: int, count: int) -> int {
    count - 1 - arrival_from_end(start_count, count)
}

impl PollConfig {
    /// Both times are positive.
    pub open spec fn wf(self) -> bool {
        self.timeout > 0 && self.interval > 0
    }

    /// Settings for a wait. Neither time may be zero.
    pub fn new(timeout: u64, interval: u64) -> (r: Result<PollConfig, InboxError>)
        ensures
            r == if timeout == 0 {
                Err::<PollConfig, InboxError>(InboxError::Config(ConfigError::ZeroTimeout))
            } else if interval == 0 {
                Err(InboxError::Config(ConfigError::ZeroInterval))
            } else {
                Ok(PollConfig { timeout, interval })
            },
            r matches Ok(config) ==> config.wf(),
    {
        if timeout == 0 {
            Err(InboxError::Config(ConfigError::ZeroTimeout))
        } else if interval == 0 {
            Err(InboxError::Config(ConfigError::ZeroInterval))
        } else {
            Ok(PollConfig { timeout, interval })
        }
    }
}

impl Poll {
    /// What follows from a look that found `count` emails, `elapsed_nanos`
    /// nanoseconds after the wait began.
    ///
    /// Growth of the inbox ends the wait, whatever the time. Without growth the
    /// wait ends once more than the timeout has passed.
    pub open spec fn outcome(self, count: int, elapsed_nanos: int) -> PollStep {
        if count > self.start_count {
            PollStep::Found(arrival_index(self.start_count as int, count) as usize)
        } else if elapsed_nanos > self.config.timeout * NANOS_PER_SECOND {
            PollStep::TimedOut
        } else {
            PollStep::Wait(self.config.interval)
        }
    }

    /// Begins a wait at an inbox that holds `start_count` emails.
    pub fn begin(config: PollConfig, start_count: usize) -> (poll: Poll)
        ensures
            poll == (Poll { config, start_count }),
    {
        Poll { config, start_count }
    }

    /// Begins a wait with the first look at the inbox. Where that look failed,
    /// no wait begins and its error comes back.
    pub fn start<E>(config: PollConfig, counted: Result<usize, E>) -> (r: Result<Poll, E>)
        ensures
            r == match counted {
                Ok(start_count) => Ok::<Poll, E>(Poll { config, start_count }),
                Err(e) => Err(e),
            },
    {
        match counted {
            Ok(start_count) => Ok(Poll::begin(config, start_count)),
            Err(e) => Err(e),
        }
    }

    /// Decides what to do after a look at the inbox, `elapsed_nanos`
    /// nanoseconds after the wait began. `counted` is the number of emails
    /// that the look found, or the error that it failed with.
    ///
    /// A failed look ends the wait with its error, whatever the time. Any
    /// other look is decided as [`Poll::step`] decides it.
    pub fn look<E>(&self, counted: Result<usize, E>, elapsed_nanos: u128) -> (r: Result<
        PollStep,
        E,
    >)
        ensures
            r == match counted {
                Ok(count) => Ok::<PollStep, E>(self.outcome(count as int, elapsed_nanos as int)),
                Err(e) => Err(e),
            },
    {
        match counted {
            Ok(count) => Ok(self.step(count, elapsed_nanos)),
            Err(e) => Err(e),
        }
    }

    /// Decides what to do after a look that found `count` emails,
    /// `elapsed_nanos` nanoseconds after the wait began.
    pub fn step(&self, count: usize, elapsed_nanos: u128) -> (step: PollStep)
        ensures
            step == self.outcome(count as int, elapsed_nanos as int),
            step matches PollStep::Found(index) ==> index == self.start_count && index < count,
    {
        if count > self.start_count {
            let from_end: usize = count - self.start_count - 1;
            PollStep::Found(count - 1 - from_end)
        } else if elapsed_nanos > self.config.timeout as u128 * NANOS_PER_SECOND {
            PollStep::TimedOut
        } else {
            PollStep::Wait(self.config.interval)
        }
    }
}

/// How many looks at the inbox end in a pause before one ends the wait, when
/// the looks are `interval` seconds apart and no mail arrives.
pub open spec fn pauses_before_timeout(config: PollConfig) -> nat {
    (config.timeout / config.interval + 1) as nat
}

/// A wait at an inbox that never grows, with one look every `interval` seconds
/// from the start on: each look before the timeout has passed ends in a
/// pause, the first look after it ends the wait as timed out, and that look
/// comes later than `timeout` and no later than `timeout + interval` seconds
/// after the start.
pub proof fn idle_wait_times_out(poll: Poll, count: int, look: nat)
    requires
        poll.config.wf(),
        count <= poll.start_count,
    ensures
        look < pauses_before_timeout(poll.config) ==> poll.outcome(
            count,
            look * poll.config.interval * NANOS_PER_SECOND,
        ) == PollStep::Wait(poll.config.interval),
        look >= pauses_before_timeout(poll.config) ==> poll.outcome(
            count,
            look * poll.config.interval * NANOS_PER_SECOND,
        ) == PollStep::TimedOut,
        poll.config.timeout < pauses_before_timeout(poll.config) * poll.config.interval
            <= poll.config.timeout + poll.config.interval,
{
    let timeout = poll.config.timeout as int;
    let interval = poll.config.interval as int;
    let pauses = pauses_before_timeout(poll.config) as int;
    assert(timeout < pauses * interval <= timeout + interval) by (nonlinear_arith)
        requires
            interval > 0,
            timeout >= 0,
            pauses == timeout / interval + 1,
    ;
    if look < pauses {
        assert(look * interval <= timeout) by (nonlinear_arith)
            requires
                0 <= look <= pauses - 1,
                interval > 0,
                pauses * interval <= timeout + interval,
        ;
        assert(look * interval * 1_000_000_000 <= timeout * 1_000_000_000) by (nonlinear_arith)
            requires
                look * interval <= timeout,
        ;
    } else {
        assert(look * interval > timeout) by (nonlinear_arith)
            requires
                look >= pauses,
                interval > 0,
                pauses * interval > timeout,
        ;
        assert(look * interval * 1_000_000_000 > timeout * 1_000_000_000) by (nonlinear_arith)
            requires
                look * interval > timeout,
        ;
    }
}

/// When the inbox has grown by exactly one email since the wait began, the
/// wait ends with the last email of the list, whatever the time.
pub proof fn single_arrival_is_found(poll: Poll, count: int, elapsed_nanos: int)
    requires
        count == poll.start_count + 1,
        count <= usize::MAX,
    ensures
        poll.outcome(count, elapsed_nanos) == PollStep::Found((count - 1) as usize),
{
}

} // verus!
