use crate::budgets::{self, Budgets, CPU_PERCENT, MEMORY_MB};
use crate::code::QualityCode;
use crate::decision::RESTORE_CHECK_TICKS;
use crate::quality::RecordingQuality;
use crate::state::{self, StateView, SUMMARY_INTERVAL};
use crate::tracking::Phase;
use crate::usage::{self, ProcessSample};
use vstd::prelude::*;

verus! {

/// One report of usage: CPU, memory, and when it was made.
pub struct Report {
    pub cpu_usage: i64,
    pub mem_usage: i64,
    pub now: u64,
}

/// The state after one report.
pub open spec fn after(state: StateView, report: Report) -> StateView {
    state.updated(report.cpu_usage, report.mem_usage, report.now)
}

/// The state after the first `count` reports of a series.
pub open spec fn after_first(state: StateView, reports: Seq<Report>, count: nat) -> StateView
    decreases count,
{
    if count == 0 {
        state
    } else {
        after(after_first(state, reports, (count - 1) as nat), reports[count - 1])
    }
}

/// The checker shows both resources violated but recovering.
pub open spec fn both_recovering(state: StateView) -> bool {
    state.token.cpu.phase() == Phase::Resolving && state.token.mem.phase() == Phase::Resolving
}

/// Every series of reports leads from a well-formed state to a well-formed
/// state.
pub proof fn series_keep_states_well_formed(state: StateView, reports: Seq<Report>, count: nat)
    requires
        state.wf(),
        count <= reports.len(),
    ensures
        after_first(state, reports, count).wf(),
    decreases count,
{
    if count > 0 {
        let before = after_first(state, reports, (count - 1) as nat);
        let last = reports[count - 1];
        series_keep_states_well_formed(state, reports, (count - 1) as nat);
        state::reports_keep_states_well_formed(before, last.cpu_usage, last.mem_usage, last.now);
    }
}

/// Every state that reports can lead to is well formed, and recording is not
/// paused in it.
pub proof fn every_reachable_state(budgets: Budgets, reports: Seq<Report>, count: nat)
    requires
        count <= reports.len(),
    ensures
        after_first(StateView::fresh(budgets), reports, count).wf(),
        after_first(StateView::fresh(budgets), reports, count).token.quality
            != RecordingQuality::Paused,
    decreases count,
{
    state::fresh_state_is_full(budgets);
    series_keep_states_well_formed(StateView::fresh(budgets), reports, count);
    if count > 0 {
        every_reachable_state(budgets, reports, (count - 1) as nat);
        recording_is_never_paused(
            after_first(StateView::fresh(budgets), reports, (count - 1) as nat),
            reports[count - 1],
        );
    }
}

/// A report appends the headroom that the usage leaves to each resource's
/// snapshots, and drops none.
pub proof fn every_report_is_recorded(state: StateView, report: Report)
    ensures
        after(state, report).token.cpu.history == state.token.cpu.history.push(
            budgets::headroom(state.budgets.cpu_max, report.cpu_usage) as int,
        ),
        after(state, report).token.mem.history == state.token.mem.history.push(
            budgets::headroom(state.budgets.memory_max, report.mem_usage) as int,
        ),
{
}

/// A resource is violated exactly where its usage is above its tolerance,
/// provided that the tolerance is below the budget; otherwise it never is.
pub proof fn violated_means_usage_above_tolerance(state: StateView, report: Report)
    requires
        state.wf(),
    ensures
        after(state, report).token.cpu.violated() <==> state.budgets.cpu_tolerance
            < state.budgets.cpu_max && state.budgets.cpu_tolerance < report.cpu_usage,
        after(state, report).token.mem.violated() <==> state.budgets.memory_tolerance
            < state.budgets.memory_max && state.budgets.memory_tolerance < report.mem_usage,
{
}

/// Conservation is one-sided: where a report violates nothing, a report of no
/// more usage violates nothing either, whatever came before it.
pub proof fn more_headroom_never_violates(
    first: StateView,
    second: StateView,
    higher: Report,
    lower: Report,
)
    requires
        first.wf(),
        second.wf(),
        first.budgets == second.budgets,
        lower.cpu_usage <= higher.cpu_usage,
        lower.mem_usage <= higher.mem_usage,
        !after(first, higher).has_violation,
    ensures
        !after(second, lower).has_violation,
{
}

/// A change of headroom stands out exactly where it is more than a hundredth of
/// the tolerance, or of one percent or one MB where that is more.
pub proof fn noise_is_a_hundredth_of_the_tolerance(state: StateView, change: int)
    requires
        state.wf(),
    ensures
        state.token.cpu.stands_out(change) <==> 100 * change > state.budgets.cpu_tolerance && 100
            * change > CPU_PERCENT,
        state.token.mem.stands_out(change) <==> 100 * change > state.budgets.memory_tolerance
            && 100 * change > MEMORY_MB,
{
}

/// A resource is recovering only while it is violated.
pub proof fn recovering_means_violated(state: StateView)
    requires
        both_recovering(state),
    ensures
        state.token.cpu.violated(),
        state.token.mem.violated(),
{
}

/// With both resources violated quality is minimal, except at the report that
/// completes a run of recovering ones: there it is reduced.
pub proof fn both_violated_is_minimal(state: StateView, report: Report)
    requires
        state.wf(),
        after(state, report).token.cpu.violated(),
        after(state, report).token.mem.violated(),
    ensures
        after(state, report).token.quality == if both_recovering(after(state, report))
            && state.token.conserved_ticks == RESTORE_CHECK_TICKS - 1 {
            RecordingQuality::Reduced
        } else {
            RecordingQuality::Minimal
        },
{
}

/// With one resource violated quality is reduced, whatever it was before.
pub proof fn one_violated_is_reduced(state: StateView, report: Report)
    requires
        state.wf(),
        after(state, report).token.cpu.violated() != after(state, report).token.mem.violated(),
    ensures
        after(state, report).token.quality == RecordingQuality::Reduced,
{
}

/// Early warning: a resource that is still conserved but on the move reduces
/// quality before anything is violated.
pub proof fn early_warning_reduces(state: StateView, report: Report)
    requires
        state.wf(),
        !after(state, report).has_violation,
        after(state, report).token.cpu.phase() == Phase::PreTransition || after(
            state,
            report,
        ).token.mem.phase() == Phase::PreTransition,
    ensures
        after(state, report).token.quality == RecordingQuality::Reduced,
{
}

/// With nothing violated and both resources steady, quality stays as it is.
pub proof fn calm_keeps_quality(state: StateView, report: Report)
    requires
        state.wf(),
        !after(state, report).has_violation,
        after(state, report).token.cpu.phase() == Phase::Stable,
        after(state, report).token.mem.phase() == Phase::Stable,
    ensures
        after(state, report).token.quality == state.token.quality,
{
}

/// Using up both budgets is critical at once, in every state: no run of
/// recovering reports outlives it.
pub proof fn spent_budgets_are_critical(state: StateView, report: Report)
    requires
        state.wf(),
        state.budgets.cpu_tolerance < state.budgets.cpu_max,
        state.budgets.memory_tolerance < state.budgets.memory_max,
        report.cpu_usage >= state.budgets.cpu_max,
        report.mem_usage >= state.budgets.memory_max,
    ensures
        after(state, report).token.quality == RecordingQuality::Minimal,
        after(state, report).token.conserved_ticks == 0,
        after(state, report).has_violation,
{
    let cpu = state.token.cpu;
    let next = after(state, report).token.cpu;
    assert(next.history[next.history.len() - 2] == cpu.history[cpu.history.len() - 1]);
}

/// Quality that has been degraded is not full again after another report.
pub proof fn degraded_stays_degraded(state: StateView, report: Report)
    requires
        state.wf(),
        state.token.quality != RecordingQuality::Full,
    ensures
        after(state, report).token.quality != RecordingQuality::Full,
{
}

/// Once a series of reports has degraded quality, the rest of the series never
/// makes it full again.
pub proof fn degraded_for_the_rest_of_a_series(
    state: StateView,
    reports: Seq<Report>,
    first: nat,
    last: nat,
)
    requires
        state.wf(),
        first <= last <= reports.len(),
        after_first(state, reports, first).token.quality != RecordingQuality::Full,
    ensures
        after_first(state, reports, last).token.quality != RecordingQuality::Full,
    decreases last,
{
    if first < last {
        degraded_for_the_rest_of_a_series(state, reports, first, (last - 1) as nat);
        series_keep_states_well_formed(state, reports, (last - 1) as nat);
    }
}

/// No report pauses recording.
pub proof fn recording_is_never_paused(state: StateView, report: Report)
    requires
        state.wf(),
        state.token.quality != RecordingQuality::Paused,
    ensures
        after(state, report).token.quality != RecordingQuality::Paused,
{
}

/// Only a report that makes quality worse moves the time of the last
/// degradation, and it moves it to the time of the report.
pub proof fn only_degradation_moves_its_time(state: StateView, report: Report)
    ensures
        after(state, report).token.last_degraded_at == if after(state, report).token.quality.code()
            > state.token.quality.code() {
            report.now
        } else {
            state.token.last_degraded_at
        },
{
}

/// A report that does not show both resources recovering ends the run.
pub proof fn interrupted_run_starts_over(state: StateView, report: Report)
    requires
        state.wf(),
        !both_recovering(after(state, report)),
    ensures
        after(state, report).token.conserved_ticks == 0,
{
}

/// Restoring takes a full run: where no run is under way and each report of a
/// series shows both resources recovering, quality is minimal until the run is
/// complete, and the report that completes it brings it back one tier.
pub proof fn restoring_takes_a_full_run(state: StateView, reports: Seq<Report>, count: nat)
    requires
        state.wf(),
        state.token.conserved_ticks == 0,
        1 <= count <= reports.len(),
        count <= RESTORE_CHECK_TICKS,
        forall|i: nat| 1 <= i <= count ==> both_recovering(#[trigger] after_first(state, reports, i)),
    ensures
        after_first(state, reports, count).token.quality == if count < RESTORE_CHECK_TICKS {
            RecordingQuality::Minimal
        } else {
            RecordingQuality::Reduced
        },
        after_first(state, reports, count).token.conserved_ticks == if count < RESTORE_CHECK_TICKS {
            count as int
        } else {
            0
        },
    decreases count,
{
    let before = after_first(state, reports, (count - 1) as nat);
    series_keep_states_well_formed(state, reports, (count - 1) as nat);
    if count > 1 {
        restoring_takes_a_full_run(state, reports, (count - 1) as nat);
    } else {
        assert(before == state);
    }
    let now = after_first(state, reports, count);
    assert(now == after(before, reports[count - 1]));
    assert(both_recovering(now));
}

/// The time of the last summary never moves back.
proof fn last_log_never_moves_back(state: StateView, reports: Seq<Report>, first: nat, last: nat)
    requires
        first <= last <= reports.len(),
    ensures
        after_first(state, reports, first).last_log <= after_first(state, reports, last).last_log,
    decreases last - first,
{
    if first < last {
        last_log_never_moves_back(state, reports, first, (last - 1) as nat);
    }
}

/// Summaries are spaced: of any two reports of a series at which a summary is
/// due, the later one comes more than the summary interval after the earlier.
pub proof fn summaries_are_spaced(state: StateView, reports: Seq<Report>, first: nat, second: nat)
    requires
        first < second < reports.len(),
        state::summary_due(
            after_first(state, reports, first).last_log,
            reports[first as int].now,
        ),
        state::summary_due(
            after_first(state, reports, second).last_log,
            reports[second as int].now,
        ),
    ensures
        reports[second as int].now - reports[first as int].now > SUMMARY_INTERVAL,
{
    last_log_never_moves_back(state, reports, first + 1, second);
}

/// The worse the tier, the fewer and the smaller the captures: with each worse
/// tier the interval grows, where skipping captures counts as the longest, and
/// the JPEG factor falls.
pub proof fn worse_tiers_capture_less(better: RecordingQuality, worse: RecordingQuality)
    requires
        better.code() < worse.code(),
    ensures
        (QualityCode { raw: worse.code() }).jpeg() < (QualityCode { raw: better.code() }).jpeg(),
        (QualityCode { raw: better.code() }).interval() is Some,
        (QualityCode { raw: worse.code() }).interval() matches Some(longer) ==> (QualityCode {
            raw: better.code(),
        }).interval()->0 < longer,
{
}

/// Restoring moves one tier up, and full quality stays full.
pub proof fn restoring_moves_one_tier(quality: RecordingQuality)
    ensures
        quality.restored().code() == if quality.code() == 0 {
            0
        } else {
            quality.code() - 1
        },
{
}

/// Taking one sample out of a table takes its usage out of the sums.
proof fn sums_without_one(samples: Seq<ProcessSample>, k: int)
    requires
        0 <= k < samples.len(),
    ensures
        usage::cpu_sum(samples) == usage::cpu_sum(samples.remove(k)) + samples[k].cpu,
        usage::memory_sum(samples) == usage::memory_sum(samples.remove(k)) + samples[k].memory,
    decreases samples.len(),
{
    if k == samples.len() - 1 {
        assert(samples.remove(k) =~= samples.drop_last());
    } else {
        sums_without_one(samples.drop_last(), k);
        assert(samples.remove(k).drop_last() =~= samples.drop_last().remove(k));
        assert(samples.remove(k).last() == samples.last());
    }
}

/// The sums do not depend on the order of the samples.
proof fn sums_of_same_samples(left: Seq<ProcessSample>, right: Seq<ProcessSample>)
    requires
        left.to_multiset() == right.to_multiset(),
    ensures
        usage::cpu_sum(left) == usage::cpu_sum(right),
        usage::memory_sum(left) == usage::memory_sum(right),
    decreases left.len(),
{
    broadcast use vstd::seq_lib::group_to_multiset_ensures;

    assert(left.len() == left.to_multiset().len());
    assert(right.len() == right.to_multiset().len());
    if left.len() > 0 {
        let last = left.last();
        assert(left.contains(last));
        assert(right.contains(last)) by {
            assert(left.to_multiset().count(last) > 0);
        }
        let k = choose|k: int| 0 <= k < right.len() && right[k] == last;
        assert(left.drop_last() =~= left.remove(left.len() - 1));
        assert(left.drop_last().to_multiset() =~= right.remove(k).to_multiset());
        sums_of_same_samples(left.drop_last(), right.remove(k));
        sums_without_one(right, k);
    }
}

/// Only the process itself and its children count, in whatever order they are
/// listed: two tables that agree on the own sample, and on the children up to
/// order, show the same usage.
pub proof fn usage_is_of_own_and_children(
    left: Seq<ProcessSample>,
    right: Seq<ProcessSample>,
    pid: u32,
)
    requires
        usage::own_sample(left, pid) == usage::own_sample(right, pid),
        usage::children(left, pid).to_multiset() == usage::children(right, pid).to_multiset(),
    ensures
        usage::tree_usage(left, pid) == usage::tree_usage(right, pid),
{
    sums_of_same_samples(usage::children(left, pid), usage::children(right, pid));
}

/// A process that is neither the one measured nor a child of it does not
/// count.
pub proof fn unrelated_processes_do_not_count(
    samples: Seq<ProcessSample>,
    other: ProcessSample,
    pid: u32,
)
    requires
        other.pid != pid,
        other.parent != Some(pid),
    ensures
        usage::tree_usage(samples.push(other), pid) == usage::tree_usage(samples, pid),
{
    reveal(Seq::filter);
    assert(samples.push(other).drop_last() =~= samples);
}

} // verus!
