//! The trial budget and the tally of decisions.
//!
//! A completed trial is first put to the budget and, if admitted, recorded in
//! the tally. The two are separate objects, so that each can sit behind a
//! lock of its own.

use vstd::prelude::*;
use std::collections::HashMap;

verus! {

broadcast use vstd::std_specs::hash::group_hash_axioms;

/// Number of decision codes, zero included.
pub const CODES: usize = 256;

/// The mathematical state of a budget.
pub struct BudgetState {
    /// Trials admitted so far.
    pub count: u64,
    /// The most trials that may be admitted, if there is a limit.
    pub cap: Option<u64>,
}

impl BudgetState {
    pub open spec fn wf(self) -> bool {
        self.cap matches Some(cap) ==> self.count <= cap
    }

    /// Whether one more trial is within the cap.
    pub open spec fn admits(self) -> bool {
        match self.cap {
            Some(cap) => self.count < cap,
            None => true,
        }
    }

    /// Whether the cap has been reached.
    pub open spec fn exhausted(self) -> bool {
        self.cap == Some(self.count)
    }

    /// The state after one attempt to admit a trial. Without a cap the
    /// counter wraps round at the end of its range.
    pub open spec fn after_attempt(self) -> BudgetState {
        if self.admits() {
            BudgetState {
                count: if self.count == u64::MAX {
                    0
                } else {
                    (self.count + 1) as u64
                },
                ..self
            }
        } else {
            self
        }
    }
}

/// The counter of admitted trials, with its optional cap.
pub struct TrialBudget {
    count: u64,
    cap: Option<u64>,
}

impl View for TrialBudget {
    type V = BudgetState;

    closed spec fn view(&self) -> BudgetState {
        BudgetState { count: self.count, cap: self.cap }
    }
}

impl TrialBudget {
    #[verifier::type_invariant]
    spec fn inv(self) -> bool {
        self.cap matches Some(cap) ==> self.count <= cap
    }

    /// A budget with nothing admitted yet.
    pub fn new(cap: Option<u64>) -> (budget: TrialBudget)
        ensures
            budget@ == (BudgetState { count: 0, cap }),
            budget@.wf(),
    {
        TrialBudget { count: 0, cap }
    }

    /// Counts one more trial if that stays within the cap, and says whether
    /// it did. A refused trial leaves the counter as it was.
    pub fn try_admit(&mut self) -> (admitted: bool)
        ensures
            admitted == old(self)@.admits(),
            final(self)@ == old(self)@.after_attempt(),
            final(self)@.wf(),
    {
        proof {
            use_type_invariant(&*self);
        }
        let within = match self.cap {
            Some(cap) => self.count < cap,
            None => true,
        };
        if within {
            self.count = self.count.wrapping_add(1);
        }
        within
    }

    /// The number of trials admitted so far.
    pub fn admitted(&self) -> (count: u64)
        ensures
            count == self@.count,
            self@.wf(),
    {
        proof {
            use_type_invariant(self);
        }
        self.count
    }

    /// The cap, if one is configured.
    pub fn cap(&self) -> (cap: Option<u64>)
        ensures
            cap == self@.cap,
    {
        self.cap
    }
}

/// How often `code` was recorded.
pub open spec fn count_of(counts: Map<u8, u64>, code: u8) -> nat {
    if counts.contains_key(code) {
        counts[code] as nat
    } else {
        0
    }
}

/// The sum of the counts of the codes below `bound`.
pub open spec fn total_below(counts: Map<u8, u64>, bound: nat) -> nat
    decreases bound,
{
    if bound == 0 {
        0
    } else {
        total_below(counts, (bound - 1) as nat) + count_of(counts, (bound - 1) as u8)
    }
}

/// The number of recorded trials: the sum of all counts.
pub open spec fn total_of(counts: Map<u8, u64>) -> nat {
    total_below(counts, CODES as nat)
}

/// A tally in which every code that is present was recorded at least once.
pub open spec fn tally_wf(counts: Map<u8, u64>) -> bool {
    forall|code: u8| counts.contains_key(code) ==> #[trigger] counts[code] >= 1
}

/// The tally after `code` is recorded once more.
pub open spec fn recorded(counts: Map<u8, u64>, code: u8) -> Map<u8, u64> {
    counts.insert(code, (count_of(counts, code) + 1) as u64)
}

/// The tally of a sequence of decisions, recorded in order.
pub open spec fn tally_of(decisions: Seq<u8>) -> Map<u8, u64>
    decreases decisions.len(),
{
    if decisions.len() == 0 {
        Map::empty()
    } else {
        recorded(tally_of(decisions.drop_last()), decisions.last())
    }
}

/// An empty tally sums to zero.
pub proof fn lemma_total_below_empty(bound: nat)
    ensures
        total_below(Map::<u8, u64>::empty(), bound) == 0,
    decreases bound,
{
    if bound > 0 {
        lemma_total_below_empty((bound - 1) as nat);
    }
}

/// Changing the count of one code changes the sum below a bound by as much,
/// if the code lies below the bound.
pub proof fn lemma_total_below_insert(counts: Map<u8, u64>, code: u8, count: u64, bound: nat)
    requires
        bound <= CODES,
    ensures
        total_below(counts.insert(code, count), bound) == if code < bound {
            total_below(counts, bound) - count_of(counts, code) + count
        } else {
            total_below(counts, bound) as int
        },
    decreases bound,
{
    if bound > 0 {
        lemma_total_below_insert(counts, code, count, (bound - 1) as nat);
    }
}

/// No single count exceeds the sum of the counts below a bound that covers
/// its code.
pub proof fn lemma_count_le_total_below(counts: Map<u8, u64>, code: u8, bound: nat)
    requires
        code < bound <= CODES,
    ensures
        count_of(counts, code) <= total_below(counts, bound),
    decreases bound,
{
    if code < bound - 1 {
        lemma_count_le_total_below(counts, code, (bound - 1) as nat);
    }
}

/// Recording adds one to the total.
pub proof fn lemma_recorded_total(counts: Map<u8, u64>, code: u8)
    requires
        count_of(counts, code) < u64::MAX,
    ensures
        total_of(recorded(counts, code)) == total_of(counts) + 1,
        count_of(recorded(counts, code), code) == count_of(counts, code) + 1,
        forall|other: u8|
            other != code ==> count_of(recorded(counts, code), other) == count_of(counts, other),
        tally_wf(counts) ==> tally_wf(recorded(counts, code)),
{
    lemma_total_below_insert(counts, code, (count_of(counts, code) + 1) as u64, CODES as nat);
}

/// No single count exceeds the total.
pub proof fn lemma_count_le_total(counts: Map<u8, u64>, code: u8)
    ensures
        count_of(counts, code) <= total_of(counts),
{
    lemma_count_le_total_below(counts, code, CODES as nat);
}

/// How often `code` occurs in a sequence of decisions.
pub open spec fn occurrences(decisions: Seq<u8>, code: u8) -> nat
    decreases decisions.len(),
{
    if decisions.len() == 0 {
        0
    } else {
        occurrences(decisions.drop_last(), code) + if decisions.last() == code {
            1nat
        } else {
            0nat
        }
    }
}

/// No code occurs more often than there are decisions.
pub proof fn lemma_occurrences_le_len(decisions: Seq<u8>, code: u8)
    ensures
        occurrences(decisions, code) <= decisions.len(),
    decreases decisions.len(),
{
    if decisions.len() > 0 {
        lemma_occurrences_le_len(decisions.drop_last(), code);
    }
}

/// The tally of a sequence of decisions counts each code as often as it
/// occurs, and holds as many trials as there are decisions.
pub proof fn lemma_tally_of(decisions: Seq<u8>)
    requires
        decisions.len() <= u64::MAX,
    ensures
        forall|code: u8| #[trigger]
            count_of(tally_of(decisions), code) == occurrences(decisions, code),
        total_of(tally_of(decisions)) == decisions.len(),
        tally_wf(tally_of(decisions)),
    decreases decisions.len(),
{
    if decisions.len() == 0 {
        lemma_total_below_empty(CODES as nat);
    } else {
        let before = decisions.drop_last();
        let last = decisions.last();
        lemma_tally_of(before);
        lemma_occurrences_le_len(before, last);
        lemma_recorded_total(tally_of(before), last);
        assert forall|code: u8| #[trigger]
            count_of(tally_of(decisions), code) == occurrences(decisions, code) by {
            assert(count_of(tally_of(before), code) == occurrences(before, code));
        }
    }
}

/// The mapping from decision code to the number of trials that ended in it.
pub struct AggregateResults {
    counts: HashMap<u8, u64>,
}

impl View for AggregateResults {
    type V = Map<u8, u64>;

    closed spec fn view(&self) -> Map<u8, u64> {
        self.counts@
    }
}

impl AggregateResults {
    #[verifier::type_invariant]
    spec fn inv(self) -> bool {
        tally_wf(self.counts@)
    }

    /// An empty tally.
    pub fn new() -> (tally: AggregateResults)
        ensures
            tally@ == Map::<u8, u64>::empty(),
            tally_wf(tally@),
    {
        AggregateResults { counts: HashMap::new() }
    }

    /// How often `code` has been recorded.
    pub fn count(&self, code: u8) -> (count: u64)
        ensures
            count == count_of(self@, code),
    {
        match self.counts.get(&code) {
            Some(count) => *count,
            None => 0,
        }
    }

    /// Records one trial that ended in `code`: a code seen before has its
    /// count raised by one, a new code enters with count one.
    pub fn record(&mut self, code: u8)
        requires
            count_of(old(self)@, code) < u64::MAX,
        ensures
            final(self)@ == recorded(old(self)@, code),
            tally_wf(final(self)@),
    {
        proof {
            use_type_invariant(&*self);
            lemma_recorded_total(self@, code);
        }
        let count = self.count(code);
        let mut counts: HashMap<u8, u64> = HashMap::new();
        std::mem::swap(&mut self.counts, &mut counts);
        counts.insert(code, count + 1);
        self.counts = counts;
    }

    /// A copy of the counts as they stand, independent of this tally.
    pub fn results(&self) -> (counts: HashMap<u8, u64>)
        ensures
            counts@ == self@,
            tally_wf(counts@),
    {
        proof {
            use_type_invariant(self);
        }
        self.counts.clone()
    }

    /// The number of trials recorded.
    pub fn total(&self) -> (total: u128)
        ensures
            total == total_of(self@),
    {
        let mut total: u128 = 0;
        let mut code: usize = 0;
        while code < CODES
            invariant
                code <= CODES,
                total == total_below(self@, code as nat),
                total <= code * u64::MAX,
            decreases CODES - code,
        {
            let count = self.count(code as u8);
            assert(total + count <= (code + 1) * u64::MAX) by (nonlinear_arith)
                requires
                    total <= code * u64::MAX,
                    count <= u64::MAX,
            ;
            assert((code + 1) * u64::MAX <= u128::MAX) by (nonlinear_arith)
                requires
                    code < 256,
            ;
            total = total + count as u128;
            code += 1;
        }
        total
    }
}

/// The mathematical state of an aggregator.
pub struct AggregatorState {
    pub budget: BudgetState,
    pub counts: Map<u8, u64>,
}

impl AggregatorState {
    /// Under a cap every admitted trial is recorded, so the tally holds as
    /// many trials as the budget has counted.
    pub open spec fn wf(self) -> bool {
        &&& self.budget.wf()
        &&& tally_wf(self.counts)
        &&& self.budget.cap is Some ==> total_of(self.counts) == self.budget.count
    }

    pub open spec fn initial(cap: Option<u64>) -> AggregatorState {
        AggregatorState { budget: BudgetState { count: 0, cap }, counts: Map::empty() }
    }

    /// Whether recording `code` once more stays within the range of its
    /// count. Under a cap it always does.
    pub open spec fn has_room(self, code: u8) -> bool {
        self.budget.cap is None ==> count_of(self.counts, code) < u64::MAX
    }

    /// The state after a trial that ended in `code` is put to the budget,
    /// and whether it was recorded.
    pub open spec fn completed(self, code: u8) -> (AggregatorState, bool) {
        if self.budget.admits() {
            (
                AggregatorState {
                    budget: self.budget.after_attempt(),
                    counts: recorded(self.counts, code),
                },
                true,
            )
        } else {
            (self, false)
        }
    }
}

/// Budget and tally together, for a caller that completes one trial at a
/// time: admission and recording then happen in one step.
pub struct Aggregator {
    budget: TrialBudget,
    tally: AggregateResults,
}

impl View for Aggregator {
    type V = AggregatorState;

    closed spec fn view(&self) -> AggregatorState {
        AggregatorState { budget: self.budget@, counts: self.tally@ }
    }
}

impl Aggregator {
    #[verifier::type_invariant]
    spec fn inv(self) -> bool {
        self.budget@.cap is Some ==> total_of(self.tally@) == self.budget@.count
    }

    /// An aggregator with nothing admitted and nothing recorded.
    pub fn new(cap: Option<u64>) -> (aggregator: Aggregator)
        ensures
            aggregator@ == AggregatorState::initial(cap),
            aggregator@.wf(),
    {
        proof {
            lemma_total_below_empty(CODES as nat);
        }
        Aggregator { budget: TrialBudget::new(cap), tally: AggregateResults::new() }
    }

    /// Completes a trial that ended in `code`: records it if the budget
    /// admits it, and discards it otherwise.
    pub fn complete(&mut self, code: u8) -> (was_recorded: bool)
        requires
            old(self)@.has_room(code),
        ensures
            (final(self)@, was_recorded) == old(self)@.completed(code),
            final(self)@.wf(),
    {
        proof {
            use_type_invariant(&*self);
            use_type_invariant(&self.tally);
        }
        let mut budget = TrialBudget::new(None);
        std::mem::swap(&mut self.budget, &mut budget);
        let admitted = budget.try_admit();
        if admitted {
            proof {
                lemma_count_le_total(self.tally@, code);
                lemma_recorded_total(self.tally@, code);
            }
            let mut tally = AggregateResults::new();
            std::mem::swap(&mut self.tally, &mut tally);
            tally.record(code);
            self.tally = tally;
        }
        self.budget = budget;
        admitted
    }

    /// Tests whether a trial that ended in `code` can be completed: whether
    /// the count of the code has room for one more.
    pub fn has_room(&self, code: u8) -> (r: bool)
        ensures
            r == self@.has_room(code),
    {
        self.budget.cap().is_some() || self.tally.count(code) < u64::MAX
    }

    /// A copy of the counts as they stand.
    pub fn results(&self) -> (counts: HashMap<u8, u64>)
        ensures
            counts@ == self@.counts,
            self@.wf(),
    {
        proof {
            use_type_invariant(self);
            use_type_invariant(&self.budget);
        }
        self.tally.results()
    }

    /// The number of trials admitted so far.
    pub fn admitted(&self) -> (count: u64)
        ensures
            count == self@.budget.count,
    {
        self.budget.admitted()
    }

    /// The cap, if one is configured.
    pub fn cap(&self) -> (cap: Option<u64>)
        ensures
            cap == self@.budget.cap,
    {
        self.budget.cap()
    }
}

} // verus!
