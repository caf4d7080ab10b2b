//! The budget accumulator: admits rendered chunks against a token limit.

use vstd::prelude::*;
use crate::tokenizer::{cl100k_token_count, count_tokens};

verus! {

/// Why a chunk was not admitted.
#[derive(Clone, Copy, Debug, PartialEq, Eq, Structural)]
pub enum AdmitError {
    /// Adding the chunk would take the running count above the limit.
    BudgetExceeded,
    /// The tokenizer could not measure the chunk.
    Unmeasurable,
}

/// One admitted chunk, as the accumulator remembers it.
pub struct Admission {
    pub text: Seq<char>,
    pub cost: nat,
}

/// The sum of the costs of a sequence of admissions.
pub open spec fn total_cost(admitted: Seq<Admission>) -> nat
    decreases admitted.len(),
{
    if admitted.len() == 0 {
        0
    } else {
        total_cost(admitted.drop_last()) + admitted.last().cost
    }
}

/// The texts of a sequence of admissions, joined in order.
pub open spec fn joined_text(admitted: Seq<Admission>) -> Seq<char>
    decreases admitted.len(),
{
    if admitted.len() == 0 {
        Seq::empty()
    } else {
        joined_text(admitted.drop_last()) + admitted.last().text
    }
}

/// The mathematical state of a budget.
pub struct BudgetView {
    pub token_limit: nat,
    pub running_token_count: nat,
    pub accumulated_text: Seq<char>,
    /// The chunks admitted so far with a cost above zero, oldest first.
    pub admitted: Seq<Admission>,
}

impl BudgetView {
    /// The running count is the sum of the admitted costs, the text is the admitted
    /// texts in order, and the count is within the limit.
    pub open spec fn wf(self) -> bool {
        &&& self.running_token_count == total_cost(self.admitted)
        &&& self.accumulated_text == joined_text(self.admitted)
        &&& self.running_token_count <= self.token_limit
        &&& forall|i: int| 0 <= i < self.admitted.len() ==> (#[trigger] self.admitted[i]).cost > 0
    }

    /// The empty budget with the given limit.
    pub open spec fn empty(token_limit: nat) -> BudgetView {
        BudgetView {
            token_limit,
            running_token_count: 0,
            accumulated_text: Seq::empty(),
            admitted: Seq::empty(),
        }
    }

    /// Whether a chunk of the given cost still fits.
    pub open spec fn fits(self, cost: nat) -> bool {
        self.running_token_count + cost <= self.token_limit
    }

    /// The state after a chunk of the given cost was offered: unchanged when it does not
    /// fit or costs nothing, else extended by the chunk.
    pub open spec fn after(self, text: Seq<char>, cost: nat) -> BudgetView {
        if self.fits(cost) && cost > 0 {
            BudgetView {
                token_limit: self.token_limit,
                running_token_count: self.running_token_count + cost,
                accumulated_text: self.accumulated_text + text,
                admitted: self.admitted.push(Admission { text, cost }),
            }
        } else {
            self
        }
    }
}

/// What offering a chunk with a measured cost returns.
pub open spec fn admit_outcome(before: BudgetView, cost: Option<usize>) -> Result<
    usize,
    AdmitError,
> {
    match cost {
        None => Err(AdmitError::Unmeasurable),
        Some(c) => if before.fits(c as nat) {
            Ok(c)
        } else {
            Err(AdmitError::BudgetExceeded)
        },
    }
}

/// The state after offering a chunk with a measured cost: the chunk is appended when it
/// was measured, fits and costs something; else nothing changes.
pub open spec fn admit_state(
    before: BudgetView,
    text: Seq<char>,
    cost: Option<usize>,
) -> BudgetView {
    match cost {
        None => before,
        Some(c) => before.after(text, c as nat),
    }
}

/// The running token count and the text accumulated under a token limit.
///
/// Every change goes through `&mut self`, so the test against the limit and the append
/// that follows it cannot be interleaved with another offer: callers that share a
/// budget between threads keep it behind one lock.
pub struct Budget {
    token_limit: usize,
    running_token_count: usize,
    accumulated_text: String,
    admitted: Ghost<Seq<Admission>>,
}

impl View for Budget {
    type V = BudgetView;

    closed spec fn view(&self) -> BudgetView {
        BudgetView {
            token_limit: self.token_limit as nat,
            running_token_count: self.running_token_count as nat,
            accumulated_text: self.accumulated_text@,
            admitted: self.admitted@,
        }
    }
}

impl Budget {
    /// The invariant of a budget: that of its view.
    pub open spec fn wf(&self) -> bool {
        self@.wf()
    }

    /// An empty budget under the given limit.
    pub fn new(token_limit: usize) -> (budget: Budget)
        ensures
            budget.wf(),
            budget@ == BudgetView::empty(token_limit as nat),
    {
        Budget {
            token_limit,
            running_token_count: 0,
            accumulated_text: String::new(),
            admitted: Ghost(Seq::empty()),
        }
    }

    /// The configured limit.
    pub fn token_limit(&self) -> (limit: usize)
        ensures
            limit == self@.token_limit,
    {
        self.token_limit
    }

    /// The tokens admitted so far.
    pub fn running_token_count(&self) -> (count: usize)
        ensures
            count == self@.running_token_count,
    {
        self.running_token_count
    }

    /// The text admitted so far.
    pub fn accumulated_text(&self) -> (text: &str)
        ensures
            text@ == self@.accumulated_text,
    {
        self.accumulated_text.as_str()
    }

    /// Offers a chunk whose cost was measured by the caller. A chunk that fits is
    /// appended, unless it costs nothing; one that does not fit leaves the budget as it
    /// was and is reported as `BudgetExceeded`; a cost of `None` as `Unmeasurable`.
    pub fn add_measured(&mut self, chunk: &str, cost: Option<usize>) -> (outcome: Result<
        usize,
        AdmitError,
    >)
        requires
            old(self).wf(),
        ensures
            final(self).wf(),
            outcome == admit_outcome(old(self)@, cost),
            final(self)@ == admit_state(old(self)@, chunk@, cost),
    {
        match cost {
            None => Err(AdmitError::Unmeasurable),
            Some(c) => {
                if c > self.token_limit - self.running_token_count {
                    return Err(AdmitError::BudgetExceeded);
                }
                if c > 0 {
                    self.accumulated_text.push_str(chunk);
                    self.running_token_count = self.running_token_count + c;
                    proof {
                        let admission = Admission { text: chunk@, cost: c as nat };
                        let grown = old(self)@.admitted.push(admission);
                        assert(grown.drop_last() == old(self)@.admitted);
                        self.admitted@ = grown;
                    }
                }
                Ok(c)
            },
        }
    }

    /// Measures a chunk and offers it.
    pub fn add_content(&mut self, chunk: &str) -> (outcome: Result<usize, AdmitError>)
        requires
            old(self).wf(),
        ensures
            final(self).wf(),
            outcome == admit_outcome(old(self)@, cl100k_token_count(chunk@)),
            final(self)@ == admit_state(old(self)@, chunk@, cl100k_token_count(chunk@)),
    {
        let cost = count_tokens(chunk);
        self.add_measured(chunk, cost)
    }
}

/// The state after a sequence of chunks was offered in order, each at its cost; `None`
/// as soon as one of them does not fit.
pub open spec fn offered(budget: BudgetView, offers: Seq<Admission>) -> Option<BudgetView>
    decreases offers.len(),
{
    if offers.len() == 0 {
        Some(budget)
    } else {
        match offered(budget, offers.drop_last()) {
            Some(before) => if before.fits(offers.last().cost) {
                Some(before.after(offers.last().text, offers.last().cost))
            } else {
                None
            },
            None => None,
        }
    }
}

/// The offers that cost something, in order.
pub open spec fn costly(offers: Seq<Admission>) -> Seq<Admission> {
    offers.filter(|offer: Admission| offer.cost > 0)
}

/// The cost of two sequences of admissions one after the other is the sum of their
/// costs, and their text is the two texts joined.
pub proof fn lemma_chunks_concat(first: Seq<Admission>, second: Seq<Admission>)
    ensures
        total_cost(first + second) == total_cost(first) + total_cost(second),
        joined_text(first + second) == joined_text(first) + joined_text(second),
    decreases second.len(),
{
    if second.len() == 0 {
        assert(first + second == first);
    } else {
        assert((first + second).drop_last() == first + second.drop_last());
        lemma_chunks_concat(first, second.drop_last());
    }
}

/// Offering a chunk keeps the invariant of the budget.
pub proof fn lemma_offer_keeps_invariant(budget: BudgetView, text: Seq<char>, cost: nat)
    requires
        budget.wf(),
    ensures
        budget.after(text, cost).wf(),
{
    if budget.fits(cost) && cost > 0 {
        let grown = budget.admitted.push(Admission { text, cost });
        assert(grown.drop_last() == budget.admitted);
    }
}

/// Chunks whose costs together fit under the limit are all admitted: the running count
/// grows by exactly the sum of their costs, and the text by those that cost something,
/// in the order offered.
pub proof fn lemma_within_budget(budget: BudgetView, offers: Seq<Admission>)
    requires
        budget.wf(),
        budget.running_token_count + total_cost(offers) <= budget.token_limit,
    ensures
        offered(budget, offers) is Some,
        offered(budget, offers)->0.wf(),
        offered(budget, offers)->0.token_limit == budget.token_limit,
        offered(budget, offers)->0.running_token_count == budget.running_token_count + total_cost(
            offers,
        ),
        offered(budget, offers)->0.admitted == budget.admitted + costly(offers),
        offered(budget, offers)->0.accumulated_text == budget.accumulated_text + joined_text(
            costly(offers),
        ),
    decreases offers.len(),
{
    reveal(Seq::filter);
    if offers.len() == 0 {
        assert(budget.admitted + costly(offers) == budget.admitted);
        assert(budget.accumulated_text + joined_text(costly(offers)) == budget.accumulated_text);
    } else {
        let rest = offers.drop_last();
        let last = offers.last();
        lemma_within_budget(budget, rest);
        let before = offered(budget, rest)->0;
        lemma_offer_keeps_invariant(before, last.text, last.cost);
        if last.cost > 0 {
            assert(costly(offers) == costly(rest).push(last));
            assert(budget.admitted + costly(rest).push(last) == (budget.admitted + costly(
                rest,
            )).push(last));
            assert(costly(offers).drop_last() == costly(rest));
            assert(budget.accumulated_text + (joined_text(costly(rest)) + last.text) == (
            budget.accumulated_text + joined_text(costly(rest))) + last.text);
        }
    }
}

/// Chunks whose costs together go over the limit are not all admitted: one of them is
/// refused.
pub proof fn lemma_over_budget(budget: BudgetView, offers: Seq<Admission>)
    requires
        budget.wf(),
        budget.running_token_count + total_cost(offers) > budget.token_limit,
    ensures
        offered(budget, offers) is None,
    decreases offers.len(),
{
    if offers.len() > 0 {
        let rest = offers.drop_last();
        if budget.running_token_count + total_cost(rest) > budget.token_limit {
            lemma_over_budget(budget, rest);
        } else {
            lemma_within_budget(budget, rest);
        }
    }
}

} // verus!
