//! What the words of the contracts amount to, spelled out in plain numbers.
use crate::budgets::{self, Budgets};
use crate::code::QualityCode;
use crate::decision::{self, Reading, RESTORE_CHECK_TICKS};
use crate::quality::RecordingQuality;
use crate::state::{self, StateView, SUMMARY_INTERVAL};
use crate::token::{self, TokenView, CPU_HEADROOM, MEM_HEADROOM};
use crate::tracking::{self, Phase, Quantity};
use vstd::prelude::*;

verus! {

/// The fixed limits: six recovering ticks, a minute, one percent and one MB, a
/// CPU budget of 15 % with 5 % tolerance, a memory budget of 500 MB with 50 MB
/// tolerance, and the names of the two headrooms.
pub proof fn fixed_limits()
    ensures
        RESTORE_CHECK_TICKS == 6,
        SUMMARY_INTERVAL == 60_000,
        budgets::CPU_PERCENT == 1_000_000,
        budgets::MEMORY_MB == 1_048_576,
        budgets::default_budgets().cpu_max == 15_000_000,
        budgets::default_budgets().cpu_tolerance == 5_000_000,
        budgets::default_budgets().memory_max == 500 * 1_048_576,
        budgets::default_budgets().memory_tolerance == 50 * 1_048_576,
        CPU_HEADROOM@ == "cpu_headroom"@,
        MEM_HEADROOM@ == "mem_headroom"@,
{
}

/// Of a budget, usage leaves what it does not take: together they make up the
/// budget, for every usage within it, and nothing is left above it. Usage below
/// zero adds to the budget as far as 32 bits reach.
pub proof fn usage_and_headroom_make_up_the_budget(max: u32, usage: i64)
    ensures
        0 <= usage <= max ==> usage + budgets::headroom(max, usage) == max,
        usage > max ==> budgets::headroom(max, usage) == 0,
        usage < 0 && max - usage <= 0xffff_ffff ==> budgets::headroom(max, usage) == max - usage,
        usage < 0 && max - usage > 0xffff_ffff ==> budgets::headroom(max, usage) == 0xffff_ffff,
{
}

/// Between any two usages within the budget, headroom moves by exactly as much
/// as usage does, the other way.
pub proof fn headroom_mirrors_usage(max: u32, first: i64, second: i64)
    requires
        0 <= first <= max,
        0 <= second <= max,
    ensures
        budgets::headroom(max, second) - budgets::headroom(max, first) == first - second,
{
}

/// Untouched headroom is the whole budget, as current value and as the only
/// snapshot. Its limit lies one tolerance below the budget, and the tolerance
/// that sets its noise is at least one unit.
pub proof fn untouched_headroom_is_the_budget(max: u32, tolerance: u32, unit: u32)
    ensures
        budgets::untouched(max, tolerance, unit).current == max,
        budgets::untouched(max, tolerance, unit).history.len() == 1,
        budgets::untouched(max, tolerance, unit).history[0] == max,
        budgets::untouched(max, tolerance, unit).initial - budgets::untouched(
            max,
            tolerance,
            unit,
        ).tolerance == max - tolerance,
        tolerance >= unit ==> budgets::untouched(max, tolerance, unit).tolerance == tolerance,
        tolerance < unit ==> budgets::untouched(max, tolerance, unit).tolerance == unit,
{
}

/// The only budgets that cannot be used are those within one percent, or one
/// MB, of what 32 bits hold, with a tolerance too small to make up for it.
pub proof fn nearly_all_budgets_fit(budgets: Budgets)
    ensures
        budgets.fit() <==> {
            &&& budgets.cpu_tolerance >= 1_000_000 || budgets.cpu_max + 1_000_000
                - budgets.cpu_tolerance <= 0xffff_ffff
            &&& budgets.memory_tolerance >= 1_048_576 || budgets.memory_max + 1_048_576
                - budgets.memory_tolerance <= 0xffff_ffff
        },
{
}

/// What the checker's operations do to one quantity: registering sets every
/// part of it, an update touches the current value alone, a new baseline
/// touches the baseline alone, and a snapshot appends the current value.
pub proof fn operations_touch_one_part(quantity: Quantity, initial: int, tolerance: int, value: int)
    ensures
        Quantity::registered(initial, tolerance).initial == initial,
        Quantity::registered(initial, tolerance).current == initial,
        Quantity::registered(initial, tolerance).tolerance == tolerance,
        Quantity::registered(initial, tolerance).history =~= seq![initial],
        quantity.with_current(value).current == value,
        quantity.with_current(value).initial == quantity.initial,
        quantity.with_current(value).tolerance == quantity.tolerance,
        quantity.with_current(value).history == quantity.history,
        quantity.rebased().initial == quantity.current,
        quantity.rebased().current == quantity.current,
        quantity.rebased().tolerance == quantity.tolerance,
        quantity.rebased().history == quantity.history,
        quantity.recorded().history =~= quantity.history.push(quantity.current),
        quantity.recorded().initial == quantity.initial,
        quantity.recorded().current == quantity.current,
        quantity.recorded().tolerance == quantity.tolerance,
{
}

/// A quantity is violated exactly where its current value is more than the
/// tolerance below its baseline.
pub proof fn violated_is_below_the_limit(quantity: Quantity)
    ensures
        quantity.violated() <==> quantity.current + quantity.tolerance < quantity.initial,
{
}

/// The phase of a quantity, read off its snapshots, however many there are:
/// steady with fewer than three; otherwise by how far the last two lie apart
/// and, where nothing is violated, whether they lie further apart than the two
/// that lie two steps back.
pub proof fn phase_is_read_off_the_snapshots(quantity: Quantity)
    ensures
        quantity.history.len() < 3 ==> quantity.phase() == Phase::Stable,
        quantity.history.len() >= 3 ==> ({
            let n = quantity.history.len();
            let rise = quantity.history[n - 1] - quantity.history[n - 2];
            let earlier = if n >= 4 {
                quantity.history[n - 3] - quantity.history[n - 4]
            } else {
                0
            };
            let noise = if quantity.tolerance > 1 {
                quantity.tolerance
            } else {
                1
            };
            let lost = quantity.current + quantity.tolerance < quantity.initial;
            let speed = if rise < 0 {
                -rise
            } else {
                rise
            };
            &&& quantity.phase() == Phase::Transitioning <==> lost && -100 * rise > noise
            &&& quantity.phase() == Phase::Resolving <==> lost && 100 * rise > noise
            &&& quantity.phase() == Phase::PreTransition <==> !lost && 100 * speed > noise && -speed
                < earlier < speed
        }),
{
}

/// The names in a list are its strings, in their order.
pub proof fn names_are_the_strings(names: Seq<String>)
    ensures
        tracking::names_in(names).len() == names.len(),
        forall|i: int| 0 <= i < names.len() ==> tracking::names_in(names)[i] == (#[trigger] names[i])@,
{
}

/// A name is among the violated ones exactly where it is tracked and its
/// quantity is more than the tolerance below its baseline.
pub proof fn violated_names_are_below_their_limits(
    quantities: Map<Seq<char>, Quantity>,
    name: Seq<char>,
)
    ensures
        tracking::violated_names(quantities).contains(name) <==> quantities.contains_key(name)
            && quantities[name].current + quantities[name].tolerance < quantities[name].initial,
{
}

/// What else is tracked is everything but the two headrooms, unchanged.
pub proof fn others_are_all_but_the_headrooms(
    quantities: Map<Seq<char>, Quantity>,
    name: Seq<char>,
)
    ensures
        token::other_quantities(quantities).contains_key(name) <==> quantities.contains_key(name)
            && name != "cpu_headroom"@ && name != "mem_headroom"@,
        token::other_quantities(quantities).contains_key(name) ==> token::other_quantities(
            quantities,
        )[name] == quantities[name],
        token::has_headrooms(quantities) <==> quantities.contains_key("cpu_headroom"@)
            && quantities.contains_key("mem_headroom"@),
{
}

/// The tiers by number and by name.
pub proof fn tiers_by_number_and_name()
    ensures
        RecordingQuality::Full.code() == 0,
        RecordingQuality::Reduced.code() == 1,
        RecordingQuality::Minimal.code() == 2,
        RecordingQuality::Paused.code() == 3,
        RecordingQuality::Full.name() == "full"@,
        RecordingQuality::Reduced.name() == "reduced"@,
        RecordingQuality::Minimal.name() == "minimal"@,
        RecordingQuality::Paused.name() == "paused"@,
{
}

/// Restoring leads from paused over minimal and reduced to full, one tier at a
/// time.
pub proof fn restoring_leads_to_full()
    ensures
        RecordingQuality::Paused.restored() == RecordingQuality::Minimal,
        RecordingQuality::Minimal.restored() == RecordingQuality::Reduced,
        RecordingQuality::Reduced.restored() == RecordingQuality::Full,
        RecordingQuality::Full.restored() == RecordingQuality::Full,
{
}

/// What each number asks of captures: one, two and five times the interval, and
/// none at all; all, seven tenths, four tenths and nothing of the JPEG quality.
/// A number that is no tier asks for what full quality does.
pub proof fn captures_by_number(code: QualityCode)
    ensures
        code.raw == 1 ==> code.interval() == Some(2u64) && code.jpeg() == 70,
        code.raw == 2 ==> code.interval() == Some(5u64) && code.jpeg() == 40,
        code.raw == 3 ==> code.interval() == None::<u64> && code.jpeg() == 0,
        code.raw == 0 || code.raw > 3 ==> code.interval() == Some(1u64) && code.jpeg() == 100,
{
}

/// One tick decided on plain readings, for every tier and every run. Unless
/// both resources resolve, the run is over and only the pressure counts. Where
/// both do, the sixth tick in a row brings the tier one up and starts a new
/// run, and before that the run goes on under the same pressure.
pub proof fn one_tick_decided(
    current: RecordingQuality,
    conserved_ticks: u64,
    cpu: Reading,
    mem: Reading,
)
    ensures
        ({
            let both_resolve = cpu.phase == Phase::Resolving && mem.phase == Phase::Resolving;
            let sixth = both_resolve && conserved_ticks >= 5;
            let outcome = decision::decision(current, conserved_ticks, cpu, mem);
            let warned = cpu.phase == Phase::PreTransition || cpu.phase == Phase::Transitioning
                || mem.phase == Phase::PreTransition || mem.phase == Phase::Transitioning;
            &&& !both_resolve || sixth ==> outcome.conserved_ticks == 0
            &&& both_resolve && !sixth ==> outcome.conserved_ticks == conserved_ticks + 1
            &&& sixth && current == RecordingQuality::Paused ==> outcome.quality
                == RecordingQuality::Minimal
            &&& sixth && current == RecordingQuality::Minimal ==> outcome.quality
                == RecordingQuality::Reduced
            &&& sixth && (current == RecordingQuality::Reduced || current == RecordingQuality::Full)
                ==> outcome.quality == RecordingQuality::Full
            &&& !sixth && cpu.violated && mem.violated ==> outcome.quality
                == RecordingQuality::Minimal
            &&& !sixth && cpu.violated != mem.violated ==> outcome.quality
                == RecordingQuality::Reduced
            &&& !sixth && !cpu.violated && !mem.violated && warned ==> outcome.quality
                == RecordingQuality::Reduced
            &&& !sixth && !cpu.violated && !mem.violated && !warned ==> outcome.quality == current
        }),
{
}

/// New headroom replaces the two current values and nothing else.
pub proof fn observing_replaces_current_values(token: TokenView, cpu: int, mem: int)
    ensures
        token.observed(cpu, mem).cpu.current == cpu,
        token.observed(cpu, mem).mem.current == mem,
        token.observed(cpu, mem).cpu.history == token.cpu.history,
        token.observed(cpu, mem).mem.history == token.mem.history,
        token.observed(cpu, mem).cpu.initial == token.cpu.initial,
        token.observed(cpu, mem).mem.initial == token.mem.initial,
        token.observed(cpu, mem).cpu.tolerance == token.cpu.tolerance,
        token.observed(cpu, mem).mem.tolerance == token.mem.tolerance,
        token.observed(cpu, mem).others == token.others,
        token.observed(cpu, mem).quality == token.quality,
        token.observed(cpu, mem).conserved_ticks == token.conserved_ticks,
        token.observed(cpu, mem).last_degraded_at == token.last_degraded_at,
{
}

/// A reading shows a quantity's phase, and whether it is more than its
/// tolerance below its baseline.
pub proof fn a_reading_shows_phase_and_violation(quantity: Quantity)
    ensures
        token::reading(quantity).phase == quantity.phase(),
        token::reading(quantity).violated <==> quantity.current + quantity.tolerance
            < quantity.initial,
{
}

/// The time of the last degradation moves to that of the tick exactly where the
/// tick leads to a worse tier.
pub proof fn a_tick_to_a_worse_tier_moves_the_time(token: TokenView, now: u64)
    ensures
        ({
            let after = token.ticked(now);
            let worse = match token.quality {
                RecordingQuality::Full => after.quality != RecordingQuality::Full,
                RecordingQuality::Reduced => after.quality == RecordingQuality::Minimal
                    || after.quality == RecordingQuality::Paused,
                RecordingQuality::Minimal => after.quality == RecordingQuality::Paused,
                RecordingQuality::Paused => false,
            };
            after.last_degraded_at == if worse {
                now
            } else {
                token.last_degraded_at
            }
        }),
{
}

/// A tick appends every current value to its snapshots, leaves baselines,
/// tolerances and current values alone, and decides on what the snapshots then
/// show.
pub proof fn a_tick_records_and_decides(token: TokenView, now: u64)
    ensures
        token.ticked(now).cpu.history =~= token.cpu.history.push(token.cpu.current),
        token.ticked(now).mem.history =~= token.mem.history.push(token.mem.current),
        token.ticked(now).cpu.current == token.cpu.current,
        token.ticked(now).mem.current == token.mem.current,
        token.ticked(now).cpu.initial == token.cpu.initial,
        token.ticked(now).mem.initial == token.mem.initial,
        token.ticked(now).cpu.tolerance == token.cpu.tolerance,
        token.ticked(now).mem.tolerance == token.mem.tolerance,
        token.ticked(now).others.dom() =~= token.others.dom(),
        forall|name: Seq<char>| #[trigger]
            token.others.contains_key(name) ==> {
                &&& token.ticked(now).others[name].history =~= token.others[name].history.push(
                    token.others[name].current,
                )
                &&& token.ticked(now).others[name].current == token.others[name].current
                &&& token.ticked(now).others[name].initial == token.others[name].initial
                &&& token.ticked(now).others[name].tolerance == token.others[name].tolerance
            },
        ({
            let after = token.ticked(now);
            let cpu = Reading {
                phase: after.cpu.phase(),
                violated: after.cpu.current + after.cpu.tolerance < after.cpu.initial,
            };
            let mem = Reading {
                phase: after.mem.phase(),
                violated: after.mem.current + after.mem.tolerance < after.mem.initial,
            };
            let outcome = decision::decision(token.quality, token.conserved_ticks, cpu, mem);
            &&& after.quality == outcome.quality
            &&& after.conserved_ticks == outcome.conserved_ticks
            &&& token::reading(after.cpu) == cpu
            &&& token::reading(after.mem) == mem
        }),
{
}

/// Something is violated exactly where one of the tracked values is more than
/// its tolerance below its baseline.
pub proof fn any_violation_is_of_something_tracked(token: TokenView)
    ensures
        token.any_violated() <==> {
            ||| token.cpu.current + token.cpu.tolerance < token.cpu.initial
            ||| token.mem.current + token.mem.tolerance < token.mem.initial
            ||| exists|name: Seq<char>| #[trigger]
                token.others.contains_key(name) && token.others[name].current
                    + token.others[name].tolerance < token.others[name].initial
        },
{
}

/// A state that has seen no metrics: both budgets untouched, full quality, no
/// violation, and the clock at its start.
pub proof fn fresh_state_has_its_budgets_untouched(budgets: Budgets)
    ensures
        StateView::fresh(budgets).budgets == budgets,
        StateView::fresh(budgets).token.cpu.current == budgets.cpu_max,
        StateView::fresh(budgets).token.mem.current == budgets.memory_max,
        StateView::fresh(budgets).token.cpu.history =~= seq![budgets.cpu_max as int],
        StateView::fresh(budgets).token.mem.history =~= seq![budgets.memory_max as int],
        StateView::fresh(budgets).token.others.dom() =~= Set::<Seq<char>>::empty(),
        StateView::fresh(budgets).token.quality == RecordingQuality::Full,
        StateView::fresh(budgets).token.conserved_ticks == 0,
        StateView::fresh(budgets).token.last_degraded_at == 0,
        StateView::fresh(budgets).quality == 0,
        !StateView::fresh(budgets).has_violation,
        StateView::fresh(budgets).last_log == 0,
{
}

/// In every well-formed state the limit of a headroom lies one tolerance below
/// its budget, its noise is set by the tolerance, but at least by one percent
/// or one MB, and the flags are those of the tier and the current values.
pub proof fn well_formed_states_keep_to_their_budgets(state: StateView)
    requires
        state.wf(),
    ensures
        state.token.cpu.initial - state.token.cpu.tolerance == state.budgets.cpu_max
            - state.budgets.cpu_tolerance,
        state.token.mem.initial - state.token.mem.tolerance == state.budgets.memory_max
            - state.budgets.memory_tolerance,
        state.token.cpu.tolerance == if state.budgets.cpu_tolerance > 1_000_000 {
            state.budgets.cpu_tolerance as int
        } else {
            1_000_000
        },
        state.token.mem.tolerance == if state.budgets.memory_tolerance > 1_048_576 {
            state.budgets.memory_tolerance as int
        } else {
            1_048_576
        },
        state.token.cpu.history.len() >= 1,
        state.token.mem.history.len() >= 1,
        state.token.conserved_ticks < 6,
        state.quality == 0 <==> state.token.quality == RecordingQuality::Full,
        state.quality == 1 <==> state.token.quality == RecordingQuality::Reduced,
        state.quality == 2 <==> state.token.quality == RecordingQuality::Minimal,
        state.quality == 3 <==> state.token.quality == RecordingQuality::Paused,
        state.has_violation <==> {
            ||| state.token.cpu.current < state.budgets.cpu_max - state.budgets.cpu_tolerance
            ||| state.token.mem.current < state.budgets.memory_max - state.budgets.memory_tolerance
        },
{
}

/// A summary is due exactly where more than a minute has passed since the time
/// given, for as long as the clock runs.
pub proof fn summary_is_due_after_a_minute(last_log: u64, now: u64)
    ensures
        state::summary_due(last_log, now) <==> last_log + 60_000 < now,
{
}

} // verus!
