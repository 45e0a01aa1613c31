//! What one report of usage does, in terms of the usage, the budgets and the
//! snapshots.
use crate::quality::RecordingQuality;
use crate::state::StateView;
use crate::tracking::Phase;
use vstd::prelude::*;

verus! {

/// A report appends what the usage leaves of each budget to the snapshots and
/// makes it the current value; it leaves the older snapshots, the limits, the
/// tolerances and the budgets alone.
pub proof fn a_report_appends_what_is_left(
    state: StateView,
    cpu_usage: i64,
    mem_usage: i64,
    now: u64,
)
    requires
        state.wf(),
        0 <= cpu_usage,
        0 <= mem_usage,
    ensures
        ({
            let after = state.updated(cpu_usage, mem_usage, now);
            let cpu_left = if cpu_usage <= state.budgets.cpu_max {
                state.budgets.cpu_max - cpu_usage
            } else {
                0
            };
            let mem_left = if mem_usage <= state.budgets.memory_max {
                state.budgets.memory_max - mem_usage
            } else {
                0
            };
            &&& after.token.cpu.current == cpu_left
            &&& after.token.mem.current == mem_left
            &&& after.token.cpu.history =~= state.token.cpu.history.push(cpu_left)
            &&& after.token.mem.history =~= state.token.mem.history.push(mem_left)
            &&& after.token.cpu.initial == state.token.cpu.initial
            &&& after.token.mem.initial == state.token.mem.initial
            &&& after.token.cpu.tolerance == state.token.cpu.tolerance
            &&& after.token.mem.tolerance == state.token.mem.tolerance
            &&& after.token.others =~= state.token.others
            &&& after.budgets == state.budgets
            &&& state.shown(cpu_usage, mem_usage, now).cpu_headroom == cpu_left
            &&& state.shown(cpu_usage, mem_usage, now).mem_headroom == mem_left
        }),
{
}

/// Usage below zero leaves more than the budget, as far as 32 bits reach.
pub proof fn usage_below_zero_adds_headroom(
    state: StateView,
    cpu_usage: i64,
    mem_usage: i64,
    now: u64,
)
    ensures
        ({
            let after = state.updated(cpu_usage, mem_usage, now);
            let shown = state.shown(cpu_usage, mem_usage, now);
            &&& cpu_usage < 0 && state.budgets.cpu_max - cpu_usage <= 0xffff_ffff ==> {
                &&& after.token.cpu.current == state.budgets.cpu_max - cpu_usage
                &&& after.token.cpu.history.last() == state.budgets.cpu_max - cpu_usage
                &&& shown.cpu_headroom == state.budgets.cpu_max - cpu_usage
            }
            &&& mem_usage < 0 && state.budgets.memory_max - mem_usage <= 0xffff_ffff ==> {
                &&& after.token.mem.current == state.budgets.memory_max - mem_usage
                &&& after.token.mem.history.last() == state.budgets.memory_max - mem_usage
                &&& shown.mem_headroom == state.budgets.memory_max - mem_usage
            }
        }),
{
}

/// Two reports in a row within the budgets: each headroom moves by exactly as
/// much as its usage does, the other way.
pub proof fn headroom_follows_usage(
    state: StateView,
    cpu_first: i64,
    mem_first: i64,
    cpu_second: i64,
    mem_second: i64,
    first: u64,
    second: u64,
)
    requires
        state.wf(),
        0 <= cpu_first <= state.budgets.cpu_max,
        0 <= cpu_second <= state.budgets.cpu_max,
        0 <= mem_first <= state.budgets.memory_max,
        0 <= mem_second <= state.budgets.memory_max,
    ensures
        ({
            let between = state.updated(cpu_first, mem_first, first);
            let after = between.updated(cpu_second, mem_second, second);
            let cpu = after.token.cpu.history;
            let mem = after.token.mem.history;
            &&& cpu.len() == state.token.cpu.history.len() + 2
            &&& mem.len() == state.token.mem.history.len() + 2
            &&& cpu[cpu.len() - 1] - cpu[cpu.len() - 2] == cpu_first - cpu_second
            &&& mem[mem.len() - 1] - mem[mem.len() - 2] == mem_first - mem_second
            &&& between.shown(cpu_second, mem_second, second).cpu_headroom - state.shown(
                cpu_first,
                mem_first,
                first,
            ).cpu_headroom == cpu_first - cpu_second
            &&& between.shown(cpu_second, mem_second, second).mem_headroom - state.shown(
                cpu_first,
                mem_first,
                first,
            ).mem_headroom == mem_first - mem_second
        }),
{
}

/// A resource is flagged exactly where its usage is above its tolerance, with a
/// tolerance below the budget, and the state shows a violation exactly where
/// one of the two is flagged.
pub proof fn usage_above_tolerance_is_flagged(
    state: StateView,
    cpu_usage: i64,
    mem_usage: i64,
    now: u64,
)
    requires
        state.wf(),
    ensures
        ({
            let cpu_over = state.budgets.cpu_tolerance < state.budgets.cpu_max
                && state.budgets.cpu_tolerance < cpu_usage;
            let mem_over = state.budgets.memory_tolerance < state.budgets.memory_max
                && state.budgets.memory_tolerance < mem_usage;
            &&& state.shown(cpu_usage, mem_usage, now).cpu.violated == cpu_over
            &&& state.shown(cpu_usage, mem_usage, now).mem.violated == mem_over
            &&& state.updated(cpu_usage, mem_usage, now).has_violation == (cpu_over || mem_over)
        }),
{
}

/// The report shows the tier of the state before it, the tier of the state
/// after it, and the headroom and phases of the state after it.
pub proof fn a_report_shows_the_state_after_it(
    state: StateView,
    cpu_usage: i64,
    mem_usage: i64,
    now: u64,
)
    requires
        state.wf(),
    ensures
        ({
            let shown = state.shown(cpu_usage, mem_usage, now);
            let after = state.updated(cpu_usage, mem_usage, now);
            &&& shown.previous == state.token.quality
            &&& shown.quality == after.token.quality
            &&& shown.cpu_headroom == after.token.cpu.current
            &&& shown.mem_headroom == after.token.mem.current
            &&& shown.cpu_headroom == after.token.cpu.history.last()
            &&& shown.mem_headroom == after.token.mem.history.last()
            &&& shown.cpu.phase == after.token.cpu.phase()
            &&& shown.mem.phase == after.token.mem.phase()
            &&& after.has_violation == (shown.cpu.violated || shown.mem.violated)
            &&& after.quality == 0 <==> shown.quality == RecordingQuality::Full
            &&& after.quality == 1 <==> shown.quality == RecordingQuality::Reduced
            &&& after.quality == 2 <==> shown.quality == RecordingQuality::Minimal
            &&& after.quality == 3 <==> shown.quality == RecordingQuality::Paused
        }),
{
}

/// What the report shows of CPU, read off the snapshots that it completes: the
/// phase depends on how far the last two lie apart, compared with a hundredth
/// of the tolerance (at least of one percent) and with the two that lie two
/// steps back.
pub proof fn cpu_phase_of_a_report(state: StateView, cpu_usage: i64, mem_usage: i64, now: u64)
    requires
        state.wf(),
    ensures
        ({
            let phase = state.shown(cpu_usage, mem_usage, now).cpu.phase;
            let history = state.updated(cpu_usage, mem_usage, now).token.cpu.history;
            let n = history.len();
            let rise = history[n - 1] - history[n - 2];
            let earlier = if n >= 4 {
                history[n - 3] - history[n - 4]
            } else {
                0
            };
            let over = state.budgets.cpu_tolerance < state.budgets.cpu_max
                && state.budgets.cpu_tolerance < cpu_usage;
            let up = 100 * rise > state.budgets.cpu_tolerance && 100 * rise > 1_000_000;
            let down = -100 * rise > state.budgets.cpu_tolerance && -100 * rise > 1_000_000;
            let faster = (rise > earlier && rise > -earlier) || (-rise > earlier && -rise
                > -earlier);
            &&& phase == Phase::Transitioning <==> n >= 3 && over && down
            &&& phase == Phase::Resolving <==> n >= 3 && over && up
            &&& phase == Phase::PreTransition <==> n >= 3 && !over && (up || down) && faster
        }),
{
}

/// What the report shows of memory, read off the snapshots that it completes:
/// as for CPU, with a hundredth of the tolerance, at least of one MB.
pub proof fn memory_phase_of_a_report(state: StateView, cpu_usage: i64, mem_usage: i64, now: u64)
    requires
        state.wf(),
    ensures
        ({
            let phase = state.shown(cpu_usage, mem_usage, now).mem.phase;
            let history = state.updated(cpu_usage, mem_usage, now).token.mem.history;
            let n = history.len();
            let rise = history[n - 1] - history[n - 2];
            let earlier = if n >= 4 {
                history[n - 3] - history[n - 4]
            } else {
                0
            };
            let over = state.budgets.memory_tolerance < state.budgets.memory_max
                && state.budgets.memory_tolerance < mem_usage;
            let up = 100 * rise > state.budgets.memory_tolerance && 100 * rise > 1_048_576;
            let down = -100 * rise > state.budgets.memory_tolerance && -100 * rise > 1_048_576;
            let faster = (rise > earlier && rise > -earlier) || (-rise > earlier && -rise
                > -earlier);
            &&& phase == Phase::Transitioning <==> n >= 3 && over && down
            &&& phase == Phase::Resolving <==> n >= 3 && over && up
            &&& phase == Phase::PreTransition <==> n >= 3 && !over && (up || down) && faster
        }),
{
}

/// The tier after a report, from the usage and from what the report shows:
/// minimal with both resources over, reduced with one over or with neither over
/// but one on the move, and otherwise the tier before. The one exception is the
/// sixth report in a row at which both resolve, which is reduced. The run of
/// such reports grows by one with each and starts over with any other.
pub proof fn tier_after_a_report(state: StateView, cpu_usage: i64, mem_usage: i64, now: u64)
    requires
        state.wf(),
    ensures
        ({
            let shown = state.shown(cpu_usage, mem_usage, now);
            let after = state.updated(cpu_usage, mem_usage, now).token;
            let cpu_over = state.budgets.cpu_tolerance < state.budgets.cpu_max
                && state.budgets.cpu_tolerance < cpu_usage;
            let mem_over = state.budgets.memory_tolerance < state.budgets.memory_max
                && state.budgets.memory_tolerance < mem_usage;
            let resolve = shown.cpu.phase == Phase::Resolving && shown.mem.phase
                == Phase::Resolving;
            let moving = shown.cpu.phase == Phase::PreTransition || shown.mem.phase
                == Phase::PreTransition;
            let before = state.token.conserved_ticks;
            &&& cpu_over && mem_over && !(resolve && before == 5) ==> after.quality
                == RecordingQuality::Minimal
            &&& cpu_over && mem_over && resolve && before == 5 ==> after.quality
                == RecordingQuality::Reduced
            &&& cpu_over != mem_over ==> after.quality == RecordingQuality::Reduced
            &&& !cpu_over && !mem_over && moving ==> after.quality == RecordingQuality::Reduced
            &&& !cpu_over && !mem_over && !moving ==> after.quality == state.token.quality
            &&& after.conserved_ticks == if resolve && before < 5 {
                before + 1
            } else {
                0
            }
        }),
{
}

/// Early warning: a resource that is not over, but whose last two snapshots lie
/// further apart than the noise and than the two that lie two steps back, has
/// quality reduced, however many snapshots there are.
pub proof fn a_fast_move_reduces(state: StateView, cpu_usage: i64, mem_usage: i64, now: u64)
    requires
        state.wf(),
    ensures
        ({
            let after = state.updated(cpu_usage, mem_usage, now).token;
            let cpu = after.cpu.history;
            let n = cpu.len();
            let step = cpu[n - 1] - cpu[n - 2];
            let older = if n >= 4 {
                cpu[n - 3] - cpu[n - 4]
            } else {
                0
            };
            n >= 3 && cpu_usage <= state.budgets.cpu_tolerance && ((100 * step
                > state.budgets.cpu_tolerance && 100 * step > 1_000_000 && -step < older < step) || (
            -100 * step > state.budgets.cpu_tolerance && -100 * step > 1_000_000 && step < older
                < -step)) ==> after.quality == RecordingQuality::Reduced
        }),
        ({
            let after = state.updated(cpu_usage, mem_usage, now).token;
            let mem = after.mem.history;
            let n = mem.len();
            let step = mem[n - 1] - mem[n - 2];
            let older = if n >= 4 {
                mem[n - 3] - mem[n - 4]
            } else {
                0
            };
            n >= 3 && mem_usage <= state.budgets.memory_tolerance && ((100 * step
                > state.budgets.memory_tolerance && 100 * step > 1_048_576 && -step < older < step)
                || (-100 * step > state.budgets.memory_tolerance && -100 * step > 1_048_576 && step
                < older < -step)) ==> after.quality == RecordingQuality::Reduced
        }),
{
}

/// Recovery: with both resources over, and the last snapshot of each above the
/// one before it by more than the noise, the run of recovering reports goes on;
/// the sixth of a run restores one tier. With a snapshot that is not, the run is
/// over and quality is minimal.
pub proof fn rising_headroom_keeps_the_run_going(
    state: StateView,
    cpu_usage: i64,
    mem_usage: i64,
    now: u64,
)
    requires
        state.wf(),
        state.budgets.cpu_tolerance < state.budgets.cpu_max,
        state.budgets.cpu_tolerance < cpu_usage,
        state.budgets.memory_tolerance < state.budgets.memory_max,
        state.budgets.memory_tolerance < mem_usage,
    ensures
        ({
            let after = state.updated(cpu_usage, mem_usage, now).token;
            let cpu_rise = after.cpu.history.last() - state.token.cpu.history.last();
            let mem_rise = after.mem.history.last() - state.token.mem.history.last();
            let rising = {
                &&& state.token.cpu.history.len() >= 2
                &&& state.token.mem.history.len() >= 2
                &&& 100 * cpu_rise > state.budgets.cpu_tolerance
                &&& 100 * cpu_rise > 1_000_000
                &&& 100 * mem_rise > state.budgets.memory_tolerance
                &&& 100 * mem_rise > 1_048_576
            };
            let before = state.token.conserved_ticks;
            &&& rising && before < 5 ==> after.conserved_ticks == before + 1 && after.quality
                == RecordingQuality::Minimal
            &&& rising && before == 5 ==> after.conserved_ticks == 0 && after.quality
                == RecordingQuality::Reduced
            &&& !rising ==> after.conserved_ticks == 0 && after.quality == RecordingQuality::Minimal
        }),
{
}

/// A summary is due at every report made more than a minute after the last time
/// one was due, or after the start where none was, and at no other; the time of
/// that report is then the last time.
pub proof fn a_summary_is_due_every_minute(
    state: StateView,
    cpu_usage: i64,
    mem_usage: i64,
    now: u64,
)
    ensures
        state.shown(cpu_usage, mem_usage, now).summary_due <==> state.last_log + 60_000 < now,
        state.last_log + 60_000 < now ==> state.updated(cpu_usage, mem_usage, now).last_log == now,
        now <= state.last_log + 60_000 ==> state.updated(cpu_usage, mem_usage, now).last_log
            == state.last_log,
{
}

/// The time of the last degradation becomes that of the report exactly where
/// the tier gets worse, and otherwise stays.
pub proof fn the_time_moves_only_with_a_worse_tier(
    state: StateView,
    cpu_usage: i64,
    mem_usage: i64,
    now: u64,
)
    ensures
        ({
            let old_tier = state.token.quality;
            let after = state.updated(cpu_usage, mem_usage, now).token;
            let worse = match old_tier {
                RecordingQuality::Full => after.quality != RecordingQuality::Full,
                RecordingQuality::Reduced => after.quality == RecordingQuality::Minimal
                    || after.quality == RecordingQuality::Paused,
                RecordingQuality::Minimal => after.quality == RecordingQuality::Paused,
                RecordingQuality::Paused => false,
            };
            after.last_degraded_at == if worse {
                now
            } else {
                state.token.last_degraded_at
            }
        }),
{
}

} // verus!
