//! Timer capabilities and the policy for requesting a period.

use vstd::prelude::*;

verus! {

/// The period, in milliseconds, that the tool asks for.
pub const TARGET_PERIOD_MS: u32 = 1;

/// The period, in milliseconds, requested to come back near the default
/// scheduler granularity of about 15.6 ms.
pub const DEFAULT_PERIOD_MS: u32 = 16;

/// The smallest and largest timer period, in milliseconds, that the system
/// supports, as read once from the operating system.
#[derive(Clone, Copy, Debug, PartialEq, Eq, Structural)]
pub struct TimerCaps {
    pub min_period: u32,
    pub max_period: u32,
}

/// Which branch of the policy was taken, with the period that is requested.
#[derive(Clone, Copy, Debug, PartialEq, Eq, Structural)]
pub enum SetOutcome {
    /// The target was below the system minimum: the minimum is requested.
    RaisedToMin(u32),
    /// The target was above the system maximum: the maximum is requested.
    LoweredToMax(u32),
    /// The target lies within the supported range and is requested as is.
    Exact(u32),
}

/// `target` brought into `[min, max]`.
pub open spec fn clamp(target: int, min: int, max: int) -> int {
    if target < min {
        min
    } else if target > max {
        max
    } else {
        target
    }
}

impl SetOutcome {
    pub open spec fn spec_period(self) -> u32 {
        match self {
            SetOutcome::RaisedToMin(p) => p,
            SetOutcome::LoweredToMax(p) => p,
            SetOutcome::Exact(p) => p,
        }
    }

    /// The period that this outcome requests from the system.
    pub fn period(&self) -> (r: u32)
        ensures
            r == self.spec_period(),
    {
        match self {
            SetOutcome::RaisedToMin(p) => *p,
            SetOutcome::LoweredToMax(p) => *p,
            SetOutcome::Exact(p) => *p,
        }
    }
}

/// The outcome that the policy gives for `target` against `caps`: the minimum
/// is checked first, then the maximum.
pub open spec fn plan_of(target: u32, caps: TimerCaps) -> SetOutcome {
    if target < caps.min_period {
        SetOutcome::RaisedToMin(caps.min_period)
    } else if target > caps.max_period {
        SetOutcome::LoweredToMax(caps.max_period)
    } else {
        SetOutcome::Exact(target)
    }
}

/// Decides which period to request for `target`, and why.
pub fn plan_set_period(target: u32, caps: TimerCaps) -> (r: SetOutcome)
    ensures
        r == plan_of(target, caps),
        caps.min_period <= caps.max_period ==> r.spec_period() == clamp(
            target as int,
            caps.min_period as int,
            caps.max_period as int,
        ),
{
    if target < caps.min_period {
        SetOutcome::RaisedToMin(caps.min_period)
    } else if target > caps.max_period {
        SetOutcome::LoweredToMax(caps.max_period)
    } else {
        SetOutcome::Exact(target)
    }
}

/// Whatever the target and the supported range, the policy requests the
/// target brought into that range, and it names the branch truly: a raise
/// only when the target is below the minimum, a lowering only when it is
/// above the maximum, and the target itself otherwise.
pub proof fn lemma_set_period_clamps(target: u32, caps: TimerCaps)
    requires
        caps.min_period <= caps.max_period,
    ensures
        plan_of(target, caps).spec_period() == clamp(
            target as int,
            caps.min_period as int,
            caps.max_period as int,
        ),
        caps.min_period <= plan_of(target, caps).spec_period() <= caps.max_period,
        (plan_of(target, caps) is RaisedToMin) <==> target < caps.min_period,
        (plan_of(target, caps) is LoweredToMax) <==> target > caps.max_period,
        (plan_of(target, caps) is Exact) <==> (caps.min_period <= target
            && target <= caps.max_period),
{
}

} // verus!
