use crate::decision::{self, Decision, Reading, RESTORE_CHECK_TICKS};
use crate::quality::RecordingQuality;
use crate::tracking::{self, Quantity};
use conservation_checker::ConservationChecker;
use vstd::prelude::*;

verus! {

/// The name under which the checker tracks CPU headroom.
pub const CPU_HEADROOM: &'static str = "cpu_headroom";

/// The name under which the checker tracks memory headroom.
pub const MEM_HEADROOM: &'static str = "mem_headroom";

/// What a token stands for.
#[verifier::ext_equal]
pub struct TokenView {
    pub quality: RecordingQuality,
    pub conserved_ticks: u64,
    pub last_degraded_at: u64,
    /// CPU headroom.
    pub cpu: Quantity,
    /// Memory headroom.
    pub mem: Quantity,
    /// What else the checker tracks, by name.
    pub others: Map<Seq<char>, Quantity>,
}

/// What is tracked besides the two headrooms.
pub open spec fn other_quantities(quantities: Map<Seq<char>, Quantity>) -> Map<
    Seq<char>,
    Quantity,
> {
    quantities.remove(CPU_HEADROOM@).remove(MEM_HEADROOM@)
}

/// Both headrooms are among what is tracked.
pub open spec fn has_headrooms(quantities: Map<Seq<char>, Quantity>) -> bool {
    quantities.contains_key(CPU_HEADROOM@) && quantities.contains_key(MEM_HEADROOM@)
}

/// What a quantity's current value and snapshots show.
pub open spec fn reading(quantity: Quantity) -> Reading {
    Reading { phase: quantity.phase(), violated: quantity.violated() }
}

impl TokenView {
    /// What holds of every token: a run of recovering ticks is short of the
    /// length that restores a tier, and while one lasts both resources were
    /// violated at the latest tick, so quality is minimal.
    pub open spec fn wf(self) -> bool {
        &&& self.conserved_ticks < RESTORE_CHECK_TICKS
        &&& self.conserved_ticks > 0 ==> self.quality == RecordingQuality::Minimal
    }

    /// Whether anything that is tracked is violated.
    pub open spec fn any_violated(self) -> bool {
        ||| self.cpu.violated()
        ||| self.mem.violated()
        ||| exists|name: Seq<char>| #[trigger]
            self.others.contains_key(name) && self.others[name].violated()
    }

    /// The token once the latest headroom is known.
    pub open spec fn observed(self, cpu_headroom: int, mem_headroom: int) -> TokenView {
        TokenView {
            cpu: self.cpu.with_current(cpu_headroom),
            mem: self.mem.with_current(mem_headroom),
            ..self
        }
    }

    /// The decision of the next tick.
    pub open spec fn next(self) -> Decision {
        decision::decision(
            self.quality,
            self.conserved_ticks,
            reading(self.cpu.recorded()),
            reading(self.mem.recorded()),
        )
    }

    /// Whether the next tick makes quality worse.
    pub open spec fn next_degrades(self) -> bool {
        self.next().quality.code() > self.quality.code()
    }

    /// The token after one tick at time `now`.
    pub open spec fn ticked(self, now: u64) -> TokenView {
        TokenView {
            quality: self.next().quality,
            conserved_ticks: self.next().conserved_ticks,
            last_degraded_at: if self.next_degrades() {
                now
            } else {
                self.last_degraded_at
            },
            cpu: self.cpu.recorded(),
            mem: self.mem.recorded(),
            others: self.others.map_values(|quantity: Quantity| quantity.recorded()),
        }
    }
}

/// Tracks the system's resource pressure and decides the recording quality.
/// Conservation is one-sided: headroom may always grow, and only a loss of
/// headroom past its tolerance is a violation. Times are milliseconds since
/// the token was made.
#[derive(Debug)]
pub struct ResourceToken {
    /// When quality last got worse.
    last_degraded_at: u64,
    /// Current quality level.
    quality: RecordingQuality,
    /// Consecutive recovering ticks.
    conserved_ticks: u64,
    /// The underlying conservation checker.
    checker: ConservationChecker,
}

impl View for ResourceToken {
    type V = TokenView;

    closed spec fn view(&self) -> TokenView {
        TokenView {
            quality: self.quality,
            conserved_ticks: self.conserved_ticks,
            last_degraded_at: self.last_degraded_at,
            cpu: tracking::ledger(self.checker)[CPU_HEADROOM@],
            mem: tracking::ledger(self.checker)[MEM_HEADROOM@],
            others: other_quantities(tracking::ledger(self.checker)),
        }
    }
}

/// The two quantities have different names.
pub(crate) proof fn names_differ()
    ensures
        CPU_HEADROOM@ != MEM_HEADROOM@,
{
    reveal_strlit("cpu_headroom");
    reveal_strlit("mem_headroom");
    assert(CPU_HEADROOM@[0] != MEM_HEADROOM@[0]);
}

impl ResourceToken {
    /// The checker that the token holds.
    pub closed spec fn held(&self) -> ConservationChecker {
        self.checker
    }

    /// The checker tracks both headrooms and holds whole numbers only.
    pub open spec fn tracks_headroom(&self) -> bool {
        tracking::whole(self.held()) && has_headrooms(tracking::ledger(self.held()))
    }

    /// The checker tracks the headrooms, and the rest is as it is of every
    /// token.
    pub open spec fn wf(&self) -> bool {
        &&& self.tracks_headroom()
        &&& self@.wf()
    }

    /// A token at full quality over the given checker. It can decide where the
    /// checker tracks the two headrooms and holds whole numbers only.
    pub fn new(checker: ConservationChecker) -> (token: ResourceToken)
        ensures
            token.held() == checker,
            token@ == (TokenView {
                quality: RecordingQuality::Full,
                conserved_ticks: 0,
                last_degraded_at: 0,
                cpu: tracking::ledger(checker)[CPU_HEADROOM@],
                mem: tracking::ledger(checker)[MEM_HEADROOM@],
                others: other_quantities(tracking::ledger(checker)),
            }),
            token.wf() <==> tracking::whole(checker) && has_headrooms(tracking::ledger(checker)),
    {
        ResourceToken {
            last_degraded_at: 0,
            quality: RecordingQuality::Full,
            conserved_ticks: 0,
            checker,
        }
    }

    /// Takes in the latest headroom.
    pub fn observe(&mut self, cpu_headroom: u32, mem_headroom: u32)
        requires
            old(self).wf(),
        ensures
            final(self).wf(),
            final(self)@ == old(self)@.observed(cpu_headroom as int, mem_headroom as int),
    {
        proof {
            names_differ();
        }
        tracking::update(&mut self.checker, CPU_HEADROOM, cpu_headroom);
        tracking::update(&mut self.checker, MEM_HEADROOM, mem_headroom);
    }

    /// What the checker shows of the two resources.
    pub fn readings(&self) -> (shown: (Reading, Reading))
        requires
            self.wf(),
        ensures
            shown == (reading(self@.cpu), reading(self@.mem)),
    {
        let cpu_phase = tracking::phase(&self.checker, CPU_HEADROOM);
        let mem_phase = tracking::phase(&self.checker, MEM_HEADROOM);
        let violations = self.checker.violations();
        let cpu_violated = tracking::lists(&violations, CPU_HEADROOM);
        let mem_violated = tracking::lists(&violations, MEM_HEADROOM);
        assert(cpu_violated == tracking::names_in(violations@).to_set().contains(CPU_HEADROOM@));
        assert(mem_violated == tracking::names_in(violations@).to_set().contains(MEM_HEADROOM@));
        (
            Reading { phase: cpu_phase, violated: cpu_violated },
            Reading { phase: mem_phase, violated: mem_violated },
        )
    }

    /// Whether the checker reports any violation.
    pub fn any_violated(&self) -> (violated: bool)
        requires
            self.wf(),
        ensures
            violated == self@.any_violated(),
    {
        let violations = self.checker.violations();
        let ghost names = tracking::names_in(violations@);
        let ghost ledger = tracking::ledger(self.checker);
        proof {
            if violations@.len() > 0 {
                assert(names.to_set().contains(names[0]));
                if names[0] != CPU_HEADROOM@ && names[0] != MEM_HEADROOM@ {
                    assert(self@.others.contains_key(names[0]));
                }
            } else {
                assert forall|name: Seq<char>| ledger.contains_key(name) implies !(
                #[trigger] ledger[name]).violated() by {
                    assert(!names.to_set().contains(name));
                }
            }
        }
        violations.len() > 0
    }

    /// Records a snapshot of the headroom and decides which quality level to
    /// use, given the run of recovering ticks and the phases and violations
    /// that the checker reports.
    pub fn decide_quality(&mut self, now: u64) -> (quality: RecordingQuality)
        requires
            old(self).wf(),
        ensures
            final(self).wf(),
            final(self)@ == old(self)@.ticked(now),
            quality == final(self)@.quality,
    {
        self.checker.snapshot();
        assert(self@.others =~= old(self)@.others.map_values(
            |quantity: Quantity| quantity.recorded(),
        ));
        let (cpu, mem) = self.readings();
        let outcome = decision::decide(self.quality, self.conserved_ticks, cpu, mem);
        if outcome.quality.code() > self.quality.code() {
            self.last_degraded_at = now;
        }
        self.conserved_ticks = outcome.conserved_ticks;
        self.quality = outcome.quality;
        self.quality
    }

    /// Whether recording should be paused.
    pub fn is_paused(&self) -> (paused: bool)
        ensures
            paused == (self@.quality == RecordingQuality::Paused),
    {
        self.quality == RecordingQuality::Paused
    }

    /// Current quality level.
    pub fn quality(&self) -> (quality: RecordingQuality)
        ensures
            quality == self@.quality,
    {
        self.quality
    }
}

} // verus!
