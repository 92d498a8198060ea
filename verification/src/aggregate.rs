//! The debounced payment aggregator: a burst of receipt amounts becomes one
//! notification. The window is a quiet-period debounce, not a fixed size —
//! every arrival both adds to the running total and pushes the deadline a
//! full debounce further out. The caller owns the clock and the channel; it
//! reports arrivals, deadline passings and closure here and sends whatever
//! total comes back.

use vstd::prelude::*;

verus! {

/// Idle until a first amount arrives (so the aggregator costs nothing while
/// no payments occur), then one open window with the running total and the
/// moment the quiet period ends.
#[derive(Clone, Copy, PartialEq, Eq, Structural, Debug)]
pub enum AggregatorState {
    Idle,
    Active { total: u32, deadline: u64 },
}

/// `a + b`, clamped at the largest 32-bit value: a burst too large to count
/// saturates rather than wraps.
pub open spec fn spec_sat_add_u32(a: u32, b: u32) -> u32 {
    if a + b <= u32::MAX {
        (a + b) as u32
    } else {
        u32::MAX
    }
}

/// `a + b` on timestamps, clamped at the largest value.
pub open spec fn spec_sat_add_u64(a: u64, b: u64) -> u64 {
    if a + b <= u64::MAX {
        (a + b) as u64
    } else {
        u64::MAX
    }
}

/// What an arriving amount does to the state: open a window, or grow the
/// total; either way the deadline restarts to a full debounce from `now`.
pub open spec fn spec_on_amount(st: AggregatorState, amount: u32, now: u64, debounce: u64) -> AggregatorState {
    match st {
        AggregatorState::Idle => AggregatorState::Active {
            total: amount,
            deadline: spec_sat_add_u64(now, debounce),
        },
        AggregatorState::Active { total, deadline } => AggregatorState::Active {
            total: spec_sat_add_u32(total, amount),
            deadline: spec_sat_add_u64(now, debounce),
        },
    }
}

/// One aggregation task's accumulator.
pub struct ZapAggregator {
    pub state: AggregatorState,
    pub debounce: u64,
}

impl ZapAggregator {
    /// An idle aggregator whose quiet period lasts `debounce` seconds.
    pub fn new(debounce: u64) -> (a: Self)
        ensures
            a.state is Idle,
            a.debounce == debounce,
    {
        ZapAggregator { state: AggregatorState::Idle, debounce }
    }

    /// Takes one arriving amount into the window, restarting the debounce
    /// deadline to its full duration.
    pub fn on_amount(&mut self, amount: u32, now: u64)
        ensures
            final(self).debounce == old(self).debounce,
            final(self).state == spec_on_amount(old(self).state, amount, now, old(self).debounce),
    {
        let deadline = if now <= u64::MAX - self.debounce {
            now + self.debounce
        } else {
            u64::MAX
        };
        let total = match self.state {
            AggregatorState::Idle => amount,
            AggregatorState::Active { total, deadline: _ } => {
                if total <= u32::MAX - amount {
                    total + amount
                } else {
                    u32::MAX
                }
            },
        };
        self.state = AggregatorState::Active { total, deadline };
    }

    /// Reacts to the clock reaching `now`: a window whose deadline has passed
    /// closes, hands out its total for one notification, and the aggregator
    /// returns to idle. A stale wake-up (deadline moved on, or no window)
    /// emits nothing and changes nothing.
    pub fn on_deadline(&mut self, now: u64) -> (emit: Option<u32>)
        ensures
            final(self).debounce == old(self).debounce,
            match old(self).state {
                AggregatorState::Active { total, deadline } => if now >= deadline {
                    final(self).state is Idle && emit == Some(total)
                } else {
                    final(self).state == old(self).state && emit is None
                },
                AggregatorState::Idle => final(self).state == old(self).state && emit is None,
            },
    {
        match self.state {
            AggregatorState::Active { total, deadline } => {
                if now >= deadline {
                    self.state = AggregatorState::Idle;
                    Some(total)
                } else {
                    None
                }
            },
            AggregatorState::Idle => None,
        }
    }

    /// Reacts to the input channel closing: an open window still emits its
    /// accumulated total once, then the aggregator terminates idle.
    pub fn on_closed(&mut self) -> (emit: Option<u32>)
        ensures
            final(self).debounce == old(self).debounce,
            final(self).state is Idle,
            emit == match old(self).state {
                AggregatorState::Active { total, deadline } => Some(total),
                AggregatorState::Idle => None::<u32>,
            },
    {
        match self.state {
            AggregatorState::Active { total, deadline: _ } => {
                self.state = AggregatorState::Idle;
                Some(total)
            },
            AggregatorState::Idle => None,
        }
    }

    /// The moment the open window closes, for the caller's timer; `None`
    /// while idle.
    pub fn current_deadline(&self) -> (r: Option<u64>)
        ensures
            r == match self.state {
                AggregatorState::Active { total, deadline } => Some(deadline),
                AggregatorState::Idle => None::<u64>,
            },
    {
        match self.state {
            AggregatorState::Active { total: _, deadline } => Some(deadline),
            AggregatorState::Idle => None,
        }
    }
}

} // verus!
