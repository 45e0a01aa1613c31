use crate::tracking::Phase;
use crate::quality::RecordingQuality;
use vstd::prelude::*;

verus! {

/// How many consecutive recovering ticks it takes to restore one tier.
pub const RESTORE_CHECK_TICKS: u64 = 6;

/// What one tick shows of one resource.
#[derive(Debug, Clone, Copy, PartialEq, Eq, Structural)]
pub struct Reading {
    /// Where the resource's headroom is heading.
    pub phase: Phase,
    /// Whether the headroom has fallen past its tolerance.
    pub violated: bool,
}

impl Reading {
    /// Whether the headroom is on the move towards, or past, a violation.
    pub open spec fn unsettled(self) -> bool {
        self.phase == Phase::Transitioning || self.phase == Phase::PreTransition
    }
}

/// The outcome of one tick.
#[derive(Debug, Clone, Copy, PartialEq, Eq, Structural)]
pub struct Decision {
    /// The tier to record at from now on.
    pub quality: RecordingQuality,
    /// Consecutive recovering ticks since a tier was last restored.
    pub conserved_ticks: u64,
}

/// Both resources are recovering.
pub open spec fn recovering(cpu: Reading, mem: Reading) -> bool {
    cpu.phase == Phase::Resolving && mem.phase == Phase::Resolving
}

/// The tier that the present pressure calls for: minimal with both resources
/// violated, reduced with one violated or either unsettled, and otherwise the
/// tier in force.
pub open spec fn under_pressure(
    current: RecordingQuality,
    cpu: Reading,
    mem: Reading,
) -> RecordingQuality {
    if cpu.violated && mem.violated {
        RecordingQuality::Minimal
    } else if cpu.violated || mem.violated || cpu.unsettled() || mem.unsettled() {
        RecordingQuality::Reduced
    } else {
        current
    }
}

/// The decision of one tick: the tick that completes a run of recovering ticks
/// restores one tier and starts a new run; every other tick answers the
/// pressure.
pub open spec fn decision(
    current: RecordingQuality,
    conserved_ticks: u64,
    cpu: Reading,
    mem: Reading,
) -> Decision {
    if !recovering(cpu, mem) {
        Decision { quality: under_pressure(current, cpu, mem), conserved_ticks: 0 }
    } else if conserved_ticks + 1 < RESTORE_CHECK_TICKS {
        Decision {
            quality: under_pressure(current, cpu, mem),
            conserved_ticks: (conserved_ticks + 1) as u64,
        }
    } else {
        Decision { quality: current.restored(), conserved_ticks: 0 }
    }
}

/// Decides one tick from the tier in force, the length of the present run of
/// recovering ticks, and what the tick shows of the two resources.
pub fn decide(
    current: RecordingQuality,
    conserved_ticks: u64,
    cpu: Reading,
    mem: Reading,
) -> (outcome: Decision)
    requires
        conserved_ticks < u64::MAX,
    ensures
        outcome == decision(current, conserved_ticks, cpu, mem),
{
    let mut ticks: u64 = 0;
    if cpu.phase == Phase::Resolving && mem.phase == Phase::Resolving {
        ticks = conserved_ticks + 1;
        if ticks >= RESTORE_CHECK_TICKS {
            return Decision { quality: current.restored(), conserved_ticks: 0 };
        }
    }
    let unsettled = cpu.phase == Phase::Transitioning || mem.phase == Phase::Transitioning
        || cpu.phase == Phase::PreTransition || mem.phase == Phase::PreTransition;
    let quality = if cpu.violated || mem.violated {
        if cpu.violated && mem.violated {
            RecordingQuality::Minimal
        } else {
            RecordingQuality::Reduced
        }
    } else if unsettled {
        RecordingQuality::Reduced
    } else {
        current
    };
    Decision { quality, conserved_ticks: ticks }
}

} // verus!
