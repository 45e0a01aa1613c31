use crate::budgets::{self, Budgets, CPU_PERCENT, MEMORY_MB};
use crate::code::QualityCode;
use crate::decision::Reading;
use crate::quality::RecordingQuality;
use crate::token::{self, ResourceToken, TokenView, CPU_HEADROOM, MEM_HEADROOM};
use crate::tracking::{self, Quantity};
use conservation_checker::ConservationChecker;
use vstd::prelude::*;

verus! {

/// How long, in milliseconds, a summary holds off the next one.
pub const SUMMARY_INTERVAL: u64 = 60_000;

/// Whether more than the summary interval lies between `last_log` and `now`.
pub open spec fn summary_due(last_log: u64, now: u64) -> bool {
    now - last_log > SUMMARY_INTERVAL
}

/// A quantity that was `untouched` at the start, of which no value is negative.
pub open spec fn is_headroom(quantity: Quantity, untouched: Quantity) -> bool {
    &&& quantity.initial == untouched.initial
    &&& quantity.tolerance == untouched.tolerance
    &&& quantity.current >= 0
    &&& quantity.history.len() >= 1
    &&& forall|i: int| 0 <= i < quantity.history.len() ==> 0 <= #[trigger] quantity.history[i]
}

/// What a state stands for.
#[verifier::ext_equal]
pub struct StateView {
    pub budgets: Budgets,
    pub token: TokenView,
    pub quality: u32,
    pub has_violation: bool,
    pub last_log: u64,
}

impl StateView {
    /// A state that has seen no metrics yet.
    pub open spec fn fresh(budgets: Budgets) -> StateView {
        StateView {
            budgets,
            token: TokenView {
                quality: RecordingQuality::Full,
                conserved_ticks: 0,
                last_degraded_at: 0,
                cpu: budgets::untouched(budgets.cpu_max, budgets.cpu_tolerance, CPU_PERCENT),
                mem: budgets::untouched(budgets.memory_max, budgets.memory_tolerance, MEMORY_MB),
                others: Map::<Seq<char>, Quantity>::empty(),
            },
            quality: 0,
            has_violation: false,
            last_log: 0,
        }
    }

    /// What holds of every state: the token tracks the two headrooms and
    /// nothing else, their baselines and tolerances are those of the budgets,
    /// and the published flags agree with the token.
    pub open spec fn wf(self) -> bool {
        &&& self.token.wf()
        &&& self.token.others == Map::<Seq<char>, Quantity>::empty()
        &&& is_headroom(
            self.token.cpu,
            budgets::untouched(self.budgets.cpu_max, self.budgets.cpu_tolerance, CPU_PERCENT),
        )
        &&& is_headroom(
            self.token.mem,
            budgets::untouched(self.budgets.memory_max, self.budgets.memory_tolerance, MEMORY_MB),
        )
        &&& self.quality == self.token.quality.code()
        &&& self.has_violation == (self.token.cpu.violated() || self.token.mem.violated())
    }

    /// The token once it has taken in the headroom that the given usage
    /// leaves, before it decides.
    pub open spec fn fed(self, cpu_usage: i64, mem_usage: i64) -> TokenView {
        self.token.observed(
            budgets::headroom(self.budgets.cpu_max, cpu_usage) as int,
            budgets::headroom(self.budgets.memory_max, mem_usage) as int,
        )
    }

    /// The state after the given usage was reported at time `now`.
    pub open spec fn updated(self, cpu_usage: i64, mem_usage: i64, now: u64) -> StateView {
        let token = self.fed(cpu_usage, mem_usage).ticked(now);
        StateView {
            budgets: self.budgets,
            token,
            quality: token.quality.code(),
            has_violation: token.cpu.violated() || token.mem.violated(),
            last_log: if summary_due(self.last_log, now) {
                now
            } else {
                self.last_log
            },
        }
    }

    /// What the report of that usage shows.
    pub open spec fn shown(self, cpu_usage: i64, mem_usage: i64, now: u64) -> Tick {
        let token = self.fed(cpu_usage, mem_usage).ticked(now);
        Tick {
            previous: self.token.quality,
            quality: token.quality,
            cpu_headroom: budgets::headroom(self.budgets.cpu_max, cpu_usage),
            mem_headroom: budgets::headroom(self.budgets.memory_max, mem_usage),
            cpu: token::reading(token.cpu),
            mem: token::reading(token.mem),
            summary_due: summary_due(self.last_log, now),
        }
    }
}

/// Every report leads from a well-formed state to a well-formed state.
pub proof fn reports_keep_states_well_formed(
    state: StateView,
    cpu_usage: i64,
    mem_usage: i64,
    now: u64,
)
    requires
        state.wf(),
    ensures
        state.updated(cpu_usage, mem_usage, now).wf(),
{
    assert(state.updated(cpu_usage, mem_usage, now).token.others =~= Map::<
        Seq<char>,
        Quantity,
    >::empty());
}

/// A state that has seen no metrics is well formed, records at full quality
/// and shows no violation.
pub proof fn fresh_state_is_full(budgets: Budgets)
    ensures
        StateView::fresh(budgets).wf(),
        StateView::fresh(budgets).token.quality == RecordingQuality::Full,
        !StateView::fresh(budgets).has_violation,
{
}

/// What one report of usage led to, for log lines.
#[derive(Debug, Clone, Copy, PartialEq, Eq, Structural)]
pub struct Tick {
    /// The tier before the report.
    pub previous: RecordingQuality,
    /// The tier from now on.
    pub quality: RecordingQuality,
    /// The CPU headroom that was taken in.
    pub cpu_headroom: u32,
    /// The memory headroom that was taken in.
    pub mem_headroom: u32,
    /// What the checker shows of CPU headroom.
    pub cpu: Reading,
    /// What the checker shows of memory headroom.
    pub mem: Reading,
    /// Whether a summary line is due.
    pub summary_due: bool,
}

/// Conservation state, fed by the resource monitor and read by the capture
/// pipeline. Times are milliseconds since the state was made.
pub struct ConservationState {
    /// The budgets that headroom is measured against.
    budgets: Budgets,
    /// The token.
    token: ResourceToken,
    /// The tier's code, for fast checks.
    quality: u32,
    /// Whether a resource was violated at the latest report.
    has_violation: bool,
    /// When a summary was last due.
    last_log: u64,
}

impl View for ConservationState {
    type V = StateView;

    closed spec fn view(&self) -> StateView {
        StateView {
            budgets: self.budgets,
            token: self.token@,
            quality: self.quality,
            has_violation: self.has_violation,
            last_log: self.last_log,
        }
    }
}

impl ConservationState {
    /// The token's checker tracks both headrooms and holds whole numbers only.
    pub closed spec fn tracks_headroom(&self) -> bool {
        self.token.tracks_headroom()
    }

    /// The token's checker tracks the headrooms, and the rest is as it is of
    /// every state.
    pub open spec fn wf(&self) -> bool {
        &&& self.tracks_headroom()
        &&& self@.wf()
    }

    /// A state with the default budgets that has seen no metrics yet.
    pub fn new() -> (state: ConservationState)
        ensures
            state.wf(),
            state@ == StateView::fresh(budgets::default_budgets()),
    {
        ConservationState::with_budgets(Budgets::default())
    }

    /// A state with the given budgets that has seen no metrics yet.
    pub fn with_budgets(budgets: Budgets) -> (state: ConservationState)
        requires
            budgets.fit(),
        ensures
            state.wf(),
            state@ == StateView::fresh(budgets),
    {
        proof {
            token::names_differ();
        }
        let mut checker = ConservationChecker::new();
        budgets::start_tracking(
            &mut checker,
            CPU_HEADROOM,
            budgets.cpu_max,
            budgets.cpu_tolerance,
            CPU_PERCENT,
        );
        budgets::start_tracking(
            &mut checker,
            MEM_HEADROOM,
            budgets.memory_max,
            budgets.memory_tolerance,
            MEMORY_MB,
        );
        assert(token::other_quantities(tracking::ledger(checker)) =~= Map::<
            Seq<char>,
            Quantity,
        >::empty());
        ConservationState {
            budgets,
            token: ResourceToken::new(checker),
            quality: 0,
            has_violation: false,
            last_log: 0,
        }
    }

    /// Feeds the latest CPU and memory usage into the conservation checker and
    /// decides the quality.
    ///
    /// Conservation is one-sided: what is tracked is headroom, the gap between
    /// the usage and its budget. When headroom falls, that is a potential
    /// violation; when it grows, all is well.
    pub fn update_metrics(&mut self, cpu_usage: i64, mem_usage: i64, now: u64) -> (tick: Tick)
        requires
            old(self).wf(),
        ensures
            final(self).wf(),
            final(self)@ == old(self)@.updated(cpu_usage, mem_usage, now),
            tick == old(self)@.shown(cpu_usage, mem_usage, now),
            tick.previous == old(self)@.token.quality,
            tick.quality == final(self)@.token.quality,
            tick.summary_due <==> old(self)@.last_log + 60_000 < now,
            final(self)@.last_log == if tick.summary_due {
                now
            } else {
                old(self)@.last_log
            },
    {
        proof {
            reports_keep_states_well_formed(self@, cpu_usage, mem_usage, now);
        }
        let previous = self.token.quality();
        let cpu_headroom = budgets::headroom_of(self.budgets.cpu_max, cpu_usage);
        let mem_headroom = budgets::headroom_of(self.budgets.memory_max, mem_usage);
        self.token.observe(cpu_headroom, mem_headroom);
        let quality = self.token.decide_quality(now);
        self.quality = quality.code();
        let (cpu, mem) = self.token.readings();
        self.has_violation = self.token.any_violated();
        let due = now > self.last_log && now - self.last_log > SUMMARY_INTERVAL;
        if due {
            self.last_log = now;
        }
        Tick {
            previous,
            quality,
            cpu_headroom,
            mem_headroom,
            cpu,
            mem,
            summary_due: due,
        }
    }

    /// The code of the tier in force.
    pub fn raw_quality(&self) -> (code: u32)
        requires
            self.wf(),
        ensures
            code == self@.token.quality.code(),
            code == (match self@.token.quality {
                RecordingQuality::Full => 0u32,
                RecordingQuality::Reduced => 1u32,
                RecordingQuality::Minimal => 2u32,
                RecordingQuality::Paused => 3u32,
            }),
    {
        self.quality
    }

    /// Whether a resource was violated at the latest report.
    pub fn has_violation(&self) -> (violation: bool)
        requires
            self.wf(),
        ensures
            violation == (self@.token.cpu.violated() || self@.token.mem.violated()),
            violation <==> self@.token.cpu.current < self@.budgets.cpu_max
                - self@.budgets.cpu_tolerance || self@.token.mem.current < self@.budgets.memory_max
                - self@.budgets.memory_tolerance,
    {
        self.has_violation
    }

    /// Whether quality has been degraded.
    pub fn is_degraded(&self) -> (degraded: bool)
        requires
            self.wf(),
        ensures
            degraded == (self@.token.quality != RecordingQuality::Full),
    {
        QualityCode { raw: self.quality }.is_degraded()
    }

    /// Whether quality is minimal or recording is paused.
    pub fn is_critical(&self) -> (critical: bool)
        requires
            self.wf(),
        ensures
            critical == (self@.token.quality == RecordingQuality::Minimal || self@.token.quality
                == RecordingQuality::Paused),
    {
        QualityCode { raw: self.quality }.is_critical()
    }

    /// By how much to stretch the capture interval; `None` where captures are
    /// to be skipped.
    pub fn capture_interval_multiplier(&self) -> (multiplier: Option<u64>)
        requires
            self.wf(),
        ensures
            multiplier == (match self@.token.quality {
                RecordingQuality::Full => Some(1u64),
                RecordingQuality::Reduced => Some(2u64),
                RecordingQuality::Minimal => Some(5u64),
                RecordingQuality::Paused => None,
            }),
    {
        QualityCode { raw: self.quality }.capture_interval_multiplier()
    }

    /// Whether to skip HD recording.
    pub fn skip_hd_recording(&self) -> (skip: bool)
        requires
            self.wf(),
        ensures
            skip == (self@.token.quality != RecordingQuality::Full),
    {
        QualityCode { raw: self.quality }.skip_hd_recording()
    }

    /// The JPEG quality factor, in hundredths.
    pub fn jpeg_quality_factor(&self) -> (hundredths: u32)
        requires
            self.wf(),
        ensures
            hundredths == (match self@.token.quality {
                RecordingQuality::Full => 100u32,
                RecordingQuality::Reduced => 70u32,
                RecordingQuality::Minimal => 40u32,
                RecordingQuality::Paused => 0u32,
            }),
    {
        QualityCode { raw: self.quality }.jpeg_quality_factor()
    }

    /// Whether to skip audio transcription.
    pub fn skip_transcription(&self) -> (skip: bool)
        requires
            self.wf(),
        ensures
            skip == (self@.token.quality == RecordingQuality::Minimal || self@.token.quality
                == RecordingQuality::Paused),
    {
        QualityCode { raw: self.quality }.skip_transcription()
    }
}

} // verus!
