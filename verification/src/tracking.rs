use conservation_checker::ConservationChecker;
use vstd::prelude::*;

verus! {

/// Where a tracked quantity is heading, read off its most recent snapshots.
#[derive(Debug, Clone, Copy, PartialEq, Eq, Structural)]
pub enum Phase {
    /// The last step is within the noise, or the quantity is conserved and the
    /// step is no larger than the one two steps before it.
    Stable,
    /// Still conserved, but moving faster than before: an early warning.
    PreTransition,
    /// Violated and still falling.
    Transitioning,
    /// Violated but rising again.
    Resolving,
}

/// What the checker knows of one quantity. All values are integers in the
/// unit the quantity was registered in.
#[verifier::ext_equal]
pub struct Quantity {
    /// The baseline the quantity was registered with.
    pub initial: int,
    /// The latest value.
    pub current: int,
    /// How far below the baseline the quantity may fall.
    pub tolerance: int,
    /// The snapshots, oldest first.
    pub history: Seq<int>,
}

impl Quantity {
    /// A quantity that has just been registered.
    pub open spec fn registered(initial: int, tolerance: int) -> Quantity {
        Quantity { initial, current: initial, tolerance, history: seq![initial] }
    }

    /// The quantity once its current value is `value`.
    pub open spec fn with_current(self, value: int) -> Quantity {
        Quantity { current: value, ..self }
    }

    /// The quantity once its current value has become its baseline.
    pub open spec fn rebased(self) -> Quantity {
        Quantity { initial: self.current, ..self }
    }

    /// The quantity once its current value has been recorded as a snapshot.
    pub open spec fn recorded(self) -> Quantity {
        Quantity { history: self.history.push(self.current), ..self }
    }

    /// One-sided conservation: only a fall past the tolerance is a violation.
    pub open spec fn violated(self) -> bool {
        self.current < self.initial - self.tolerance
    }

    /// Whether a change of this size stands out: it is more than a hundredth
    /// of the tolerance, where a tolerance below one unit counts as one.
    pub open spec fn stands_out(self, change: int) -> bool {
        100 * change > if self.tolerance > 1 { self.tolerance } else { 1 }
    }

    /// The change between the two snapshots that end `back` snapshots before
    /// the latest; zero where the history does not reach that far.
    pub open spec fn step(self, back: int) -> int {
        let last = self.history.len() - 1 - back;
        if last >= 1 {
            self.history[last] - self.history[last - 1]
        } else {
            0
        }
    }

    /// The phase that the snapshots show.
    pub open spec fn phase(self) -> Phase {
        let recent = self.step(0);
        let older = self.step(2);
        if self.history.len() < 3 {
            Phase::Stable
        } else if self.violated() && self.stands_out(-recent) {
            Phase::Transitioning
        } else if self.violated() && self.stands_out(recent) {
            Phase::Resolving
        } else if !self.violated() && self.stands_out(magnitude(recent)) && magnitude(recent)
            > magnitude(older) {
            Phase::PreTransition
        } else {
            Phase::Stable
        }
    }
}

/// The absolute value.
pub open spec fn magnitude(x: int) -> int {
    if x < 0 {
        -x
    } else {
        x
    }
}

/// The names in a list, as character sequences.
pub open spec fn names_in(names: Seq<String>) -> Seq<Seq<char>> {
    names.map_values(|name: String| name@)
}

/// The names of the quantities that are violated.
pub open spec fn violated_names(quantities: Map<Seq<char>, Quantity>) -> Set<Seq<char>> {
    quantities.dom().filter(|name: Seq<char>| quantities[name].violated())
}

#[verifier::external_type_specification]
#[verifier::external_body]
pub struct ExConservationChecker(ConservationChecker);

/// Whether every number that a checker holds is a whole number that fits a
/// `u32`.
pub uninterp spec fn whole(checker: ConservationChecker) -> bool;

/// The quantities that a whole checker tracks, by name. Of any other checker
/// nothing is said.
pub uninterp spec fn ledger(checker: ConservationChecker) -> Map<Seq<char>, Quantity>;

/// `ConservationChecker::new` returns a checker that tracks nothing.
pub assume_specification[ ConservationChecker::new ]() -> (checker: ConservationChecker)
    ensures
        whole(checker),
        ledger(checker).dom() == Set::<Seq<char>>::empty(),
;

/// `ConservationChecker::snapshot` appends the current value of every tracked
/// quantity to that quantity's history and changes nothing else.
pub assume_specification[ ConservationChecker::snapshot ](checker: &mut ConservationChecker)
    requires
        whole(*old(checker)),
    ensures
        whole(*final(checker)),
        ledger(*final(checker)) == ledger(*old(checker)).map_values(
            |quantity: Quantity| quantity.recorded(),
        ),
;

/// `ConservationChecker::reset_baseline` makes the current value of one
/// quantity its baseline and changes nothing else; it panics where the name is
/// not tracked.
pub assume_specification[ ConservationChecker::reset_baseline ](
    checker: &mut ConservationChecker,
    name: &str,
)
    requires
        whole(*old(checker)),
        ledger(*old(checker)).contains_key(name@),
    ensures
        whole(*final(checker)),
        ledger(*final(checker)) == ledger(*old(checker)).insert(
            name@,
            ledger(*old(checker))[name@].rebased(),
        ),
;

/// `ConservationChecker::violations` lists exactly the names of the tracked
/// quantities that are violated, each of them once. The order is left open:
/// the checker walks a hash map.
pub assume_specification[ ConservationChecker::violations ](
    checker: &ConservationChecker,
) -> (names: Vec<String>)
    requires
        whole(*checker),
    ensures
        names_in(names@).no_duplicates(),
        names_in(names@).to_set() == violated_names(ledger(*checker)),
;

/// `ConservationChecker::register` starts tracking `name`, or starts it anew,
/// with the baseline as its current value and its only snapshot. A `u32`
/// becomes the checker's number without loss.
#[verifier::external_body]
pub(crate) fn register(checker: &mut ConservationChecker, name: &str, initial: u32, tolerance: u32)
    requires
        whole(*old(checker)),
    ensures
        whole(*final(checker)),
        ledger(*final(checker)) == ledger(*old(checker)).insert(
            name@,
            Quantity::registered(initial as int, tolerance as int),
        ),
{
    checker.register(name, initial.into(), tolerance.into());
}

/// `ConservationChecker::update` replaces the current value of one quantity;
/// it panics where the name is not tracked. A `u32` becomes the checker's
/// number without loss.
#[verifier::external_body]
pub(crate) fn update(checker: &mut ConservationChecker, name: &str, value: u32)
    requires
        whole(*old(checker)),
        ledger(*old(checker)).contains_key(name@),
    ensures
        whole(*final(checker)),
        ledger(*final(checker)) == ledger(*old(checker)).insert(
            name@,
            ledger(*old(checker))[name@].with_current(value as int),
        ),
{
    checker.update(name, value.into());
}

/// `ConservationChecker::phase` classifies one quantity by its current value
/// and its last four snapshots; it panics where the name is not tracked. The
/// differences of whole numbers are exact in the checker's arithmetic. Its
/// noise floor, the tolerance (at least one) times 0.01, is rounded, but a
/// whole floor comes out exact and any other stays between the same two whole
/// numbers, so comparing a whole change with it is comparing a hundred times
/// the change with the tolerance.
#[verifier::external_body]
pub(crate) fn phase(checker: &ConservationChecker, name: &str) -> (phase: Phase)
    requires
        whole(*checker),
        ledger(*checker).contains_key(name@),
    ensures
        phase == ledger(*checker)[name@].phase(),
{
    match checker.phase(name) {
        conservation_checker::Phase::Stable => Phase::Stable,
        conservation_checker::Phase::PreTransition => Phase::PreTransition,
        conservation_checker::Phase::Transitioning => Phase::Transitioning,
        conservation_checker::Phase::Resolving => Phase::Resolving,
    }
}

/// Whether a list of names holds `name`.
pub(crate) fn lists(names: &Vec<String>, name: &str) -> (found: bool)
    ensures
        found == names_in(names@).contains(name@),
{
    let wanted = name.to_owned();
    let mut i: usize = 0;
    while i < names.len()
        invariant
            i <= names.len(),
            wanted@ == name@,
            forall|j: int| 0 <= j < i ==> names_in(names@)[j] != name@,
        decreases names.len() - i,
    {
        if names[i] == wanted {
            assert(names_in(names@)[i as int] == name@);
            return true;
        }
        i += 1;
    }
    false
}

} // verus!
