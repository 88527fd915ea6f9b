use vstd::prelude::*;
use crate::event::{BudgetEvent, BudgetTopic};
use crate::ids::{Amount, BudgetId, UserId};

verus! {

/// State of a budget, as folded from its facts.
pub struct BudgetState {
    pub id: BudgetId,
    pub topic: Option<BudgetTopic>,
    pub remaining_amount: Amount,
    /// Users granted spend authorization, in the order of the grants; a user
    /// granted twice appears twice.
    pub spenders: Seq<UserId>,
}

/// The state of a budget with no facts yet.
pub open spec fn initial_budget() -> BudgetState {
    BudgetState { id: BudgetId { value: 0 }, topic: None, remaining_amount: 0, spenders: seq![] }
}

/// The state after one more fact.
pub open spec fn apply_budget(s: BudgetState, f: BudgetEvent) -> BudgetState {
    match f {
        BudgetEvent::Allocated { id, topic, amount } => BudgetState {
            id,
            topic: Some(topic),
            remaining_amount: amount,
            ..s
        },
        BudgetEvent::SpenderAssigned { id, spender_id } => BudgetState {
            spenders: s.spenders.push(spender_id),
            ..s
        },
    }
}

/// The state that a sequence of budget facts folds to, first fact first.
pub open spec fn fold_budget(s: Seq<BudgetEvent>) -> BudgetState
    decreases s.len(),
{
    if s.len() == 0 {
        initial_budget()
    } else {
        apply_budget(fold_budget(s.drop_last()), s.last())
    }
}

/// The fold depends on nothing but the facts and their order: equal sequences
/// of facts fold to the same state.
pub proof fn lemma_budget_fold_deterministic(a: Seq<BudgetEvent>, b: Seq<BudgetEvent>)
    requires
        a == b,
    ensures
        fold_budget(a) == fold_budget(b),
{
}

/// The budget aggregate, rebuilt from its facts for each use.
#[derive(Debug)]
pub struct Budget {
    pub id: BudgetId,
    pub topic: Option<BudgetTopic>,
    pub remaining_amount: Amount,
    pub spenders: Vec<UserId>,
}

impl View for Budget {
    type V = BudgetState;

    open spec fn view(&self) -> BudgetState {
        BudgetState {
            id: self.id,
            topic: self.topic,
            remaining_amount: self.remaining_amount,
            spenders: self.spenders@,
        }
    }
}

impl Budget {
    /// Applies one fact to this state.
    fn apply(&mut self, event: &BudgetEvent)
        ensures
            final(self)@ == apply_budget(old(self)@, *event),
    {
        match event {
            BudgetEvent::Allocated { id, topic, amount } => {
                self.id = *id;
                self.topic = Some(*topic);
                self.remaining_amount = *amount;
            },
            BudgetEvent::SpenderAssigned { id: _, spender_id } => {
                self.spenders.push(*spender_id);
            },
        }
    }

    /// Rebuilds a budget by folding its facts, first fact first.
    pub fn from_events(events: &Vec<BudgetEvent>) -> (r: Budget)
        ensures
            r@ == fold_budget(events@),
    {
        let mut b = Budget {
            id: BudgetId { value: 0 },
            topic: None,
            remaining_amount: 0,
            spenders: Vec::new(),
        };
        assert(b@ == fold_budget(events@.subrange(0, 0)));
        let mut i: usize = 0;
        while i < events.len()
            invariant
                i <= events@.len(),
                b@ == fold_budget(events@.subrange(0, i as int)),
            decreases events@.len() - i,
        {
            b.apply(&events[i]);
            proof {
                let next = events@.subrange(0, i + 1);
                assert(next.drop_last() =~= events@.subrange(0, i as int));
            }
            i = i + 1;
        }
        assert(events@.subrange(0, events@.len() as int) == events@);
        b
    }

    /// Allocates a budget of `amount` to a topic. An amount of zero is a
    /// valid, empty budget.
    pub fn allocate(id: BudgetId, topic: BudgetTopic, amount: Amount) -> (r: Vec<BudgetEvent>)
        ensures
            r@ == seq![BudgetEvent::Allocated { id, topic, amount }],
    {
        let events = vec![BudgetEvent::Allocated { id, topic, amount }];
        assert(events@ =~= seq![BudgetEvent::Allocated { id, topic, amount }]);
        events
    }

    /// Grants a user the right to spend from this budget. No funds move. Each
    /// call yields its own fact, also for a user who already holds the right.
    pub fn assign_spender(&self, spender_id: &UserId) -> (r: Vec<BudgetEvent>)
        ensures
            r@ == seq![BudgetEvent::SpenderAssigned { id: self.id, spender_id: *spender_id }],
    {
        let events = vec![BudgetEvent::SpenderAssigned { id: self.id, spender_id: *spender_id }];
        assert(events@ =~= seq![
            BudgetEvent::SpenderAssigned { id: self.id, spender_id: *spender_id },
        ]);
        events
    }
}

} // verus!
