use crate::tracking::{self, Quantity};
use conservation_checker::ConservationChecker;
use vstd::prelude::*;

verus! {

/// One percent of one core, in millionths of a percent.
pub const CPU_PERCENT: u32 = 1_000_000;

/// One MB, in bytes.
pub const MEMORY_MB: u32 = 1_048_576;

/// The default CPU budget: 15 %, in millionths of a percent.
pub const CPU_MAX: u32 = 15_000_000;

/// The default CPU tolerance: 5 %, in millionths of a percent.
pub const CPU_TOLERANCE: u32 = 5_000_000;

/// The default memory budget: 500 MB, in bytes.
pub const MEMORY_MAX: u32 = 524_288_000;

/// The default memory tolerance: 50 MB, in bytes.
pub const MEMORY_TOLERANCE: u32 = 52_428_800;

/// What recording may use. CPU is in millionths of a percent of one core,
/// memory in bytes.
///
/// A resource's headroom starts out as its whole budget, and losing more of it
/// than the tolerance is a violation: with the default budgets, CPU usage above
/// 5 % or memory usage above 50 MB.
///
/// The tolerance also sets how small a change passes for noise: up to a
/// hundredth of the tolerance, where a tolerance of less than one percent, or
/// of less than one MB, counts as one.
#[derive(Debug, Clone, Copy, PartialEq, Eq, Structural)]
pub struct Budgets {
    /// The CPU budget, the baseline of CPU headroom.
    pub cpu_max: u32,
    /// How much CPU headroom may be lost.
    pub cpu_tolerance: u32,
    /// The memory budget, the baseline of memory headroom.
    pub memory_max: u32,
    /// How much memory headroom may be lost.
    pub memory_tolerance: u32,
}

/// The budgets in force unless others are asked for.
pub open spec fn default_budgets() -> Budgets {
    Budgets {
        cpu_max: CPU_MAX,
        cpu_tolerance: CPU_TOLERANCE,
        memory_max: MEMORY_MAX,
        memory_tolerance: MEMORY_TOLERANCE,
    }
}

impl Default for Budgets {
    fn default() -> (budgets: Budgets)
        ensures
            budgets == default_budgets(),
    {
        Budgets {
            cpu_max: CPU_MAX,
            cpu_tolerance: CPU_TOLERANCE,
            memory_max: MEMORY_MAX,
            memory_tolerance: MEMORY_TOLERANCE,
        }
    }
}

/// What a tolerance lacks to one unit; nothing where it is no less.
pub open spec fn shortfall(tolerance: u32, unit: u32) -> u32 {
    if tolerance < unit {
        (unit - tolerance) as u32
    } else {
        0
    }
}

/// Whether a baseline raised by what the tolerance lacks to one unit is still a
/// number that the checker can be given.
pub open spec fn raised_fits(max: u32, tolerance: u32, unit: u32) -> bool {
    max + shortfall(tolerance, unit) <= u32::MAX
}

impl Budgets {
    /// Whether the checker can be given both baselines.
    pub open spec fn fit(self) -> bool {
        &&& raised_fits(self.cpu_max, self.cpu_tolerance, CPU_PERCENT)
        &&& raised_fits(self.memory_max, self.memory_tolerance, MEMORY_MB)
    }

    /// Whether a state can be made with these budgets. All are fine but the
    /// largest budgets with a tolerance of less than one percent or one MB.
    pub fn are_usable(&self) -> (usable: bool)
        ensures
            usable == self.fit(),
    {
        let cpu = self.cpu_tolerance >= CPU_PERCENT || self.cpu_max <= u32::MAX - (CPU_PERCENT
            - self.cpu_tolerance);
        let memory = self.memory_tolerance >= MEMORY_MB || self.memory_max <= u32::MAX - (MEMORY_MB
            - self.memory_tolerance);
        cpu && memory
    }
}

/// Untouched headroom as it is tracked from the start. A tolerance of less than
/// one unit is tracked as one, over a baseline raised by as much: that leaves
/// the limit where it is, and the noise at a hundredth of one unit.
pub open spec fn untouched(max: u32, tolerance: u32, unit: u32) -> Quantity {
    Quantity {
        initial: max + shortfall(tolerance, unit),
        current: max as int,
        tolerance: tolerance + shortfall(tolerance, unit),
        history: seq![max as int],
    }
}

/// Starts tracking the headroom of one budget.
pub(crate) fn start_tracking(
    checker: &mut ConservationChecker,
    name: &str,
    max: u32,
    tolerance: u32,
    unit: u32,
)
    requires
        tracking::whole(*old(checker)),
        raised_fits(max, tolerance, unit),
    ensures
        tracking::whole(*final(checker)),
        tracking::ledger(*final(checker)) == tracking::ledger(*old(checker)).insert(
            name@,
            untouched(max, tolerance, unit),
        ),
{
    if tolerance >= unit {
        tracking::register(checker, name, max, tolerance);
    } else {
        tracking::register(checker, name, max, unit);
        tracking::update(checker, name, max + (unit - tolerance));
        checker.reset_baseline(name);
        tracking::update(checker, name, max);
    }
    assert(tracking::ledger(*checker)[name@] =~= untouched(max, tolerance, unit));
}

/// What a usage leaves of a budget; nothing once the budget is used up. A
/// usage below zero leaves more than the budget, up to the largest number that
/// the checker can be given.
pub open spec fn headroom(max: u32, usage: i64) -> u32 {
    if usage >= max {
        0
    } else if max - usage > u32::MAX {
        u32::MAX
    } else {
        (max - usage) as u32
    }
}

/// What a usage leaves of a budget; nothing once the budget is used up. A
/// usage below zero leaves more than the budget, up to the largest number that
/// the checker can be given.
pub fn headroom_of(max: u32, usage: i64) -> (left: u32)
    ensures
        left == headroom(max, usage),
        0 <= usage <= max ==> left + usage == max,
        usage > max ==> left == 0,
{
    let budget = max as i64;
    if usage >= budget {
        0
    } else if usage < budget - u32::MAX as i64 {
        u32::MAX
    } else {
        (budget - usage) as u32
    }
}

} // verus!
