//! Trial identifiers and their generator.
use vstd::prelude::*;
use crate::error::ErrorKind;

verus! {

/// Trial identifier.
#[derive(Debug, Clone, Copy, PartialEq, Eq, Structural, PartialOrd, Ord, Hash)]
pub struct TrialId(pub u64);

impl TrialId {
    /// Makes a new trial identifier.
    pub fn new(id: u64) -> (res: Self)
        ensures
            res.0 == id,
    {
        TrialId(id)
    }

    /// Returns the value of this identifier.
    pub fn get(self) -> (res: u64)
        ensures
            res == self.0,
    {
        self.0
    }
}

/// A trial that has a parameter set to be evaluated.
#[derive(Debug)]
pub struct NextTrial<P> {
    /// The identifier of this trial.
    pub id: TrialId,
    /// The parameters to be evaluated.
    pub params: P,
    /// The next evaluation step: the evaluator evaluates the parameters until this step.
    /// `None` means that this trial does not need to be evaluated anymore.
    pub next_step: Option<u64>,
}

/// A trial that has evaluated values.
#[derive(Debug)]
pub struct EvaluatedTrial<V> {
    /// The identifier of this trial.
    pub id: TrialId,
    /// The evaluated objective values; empty when the parameters could not be evaluated.
    pub values: Vec<V>,
    /// The current evaluation step.
    pub current_step: u64,
}

impl<P> NextTrial<P> {
    /// Makes an `EvaluatedTrial` of this trial with the given values and step.
    pub fn evaluated<V>(&self, values: Vec<V>, current_step: u64) -> (res: EvaluatedTrial<V>)
        ensures
            res.id == self.id,
            res.values@ == values@,
            res.current_step == current_step,
    {
        EvaluatedTrial { id: self.id, values, current_step }
    }

    /// Makes an `EvaluatedTrial` that tells that this trial could not be evaluated: no
    /// values, at the next step (or step 0 when there is none).
    pub fn unevaluable<V>(&self) -> (res: EvaluatedTrial<V>)
        ensures
            res.id == self.id,
            res.values@.len() == 0,
            res.current_step == match self.next_step {
                Some(s) => s,
                None => 0,
            },
    {
        let step = match self.next_step {
            Some(s) => s,
            None => 0,
        };
        self.evaluated(Vec::new(), step)
    }
}

/// Trial identifier generator.
///
/// Identifiers are handed out in increasing order, starting from zero.
#[derive(Debug)]
pub struct IdGen {
    next: u64,
}

impl IdGen {
    /// The value of the identifier that the next call of `generate` hands out.
    pub closed spec fn next_value(&self) -> u64 {
        self.next
    }

    /// Makes a new `IdGen` instance.
    pub fn new() -> (res: Self)
        ensures
            res.next_value() == 0,
    {
        IdGen { next: 0 }
    }

    /// Generates a new identifier.
    pub fn generate(&mut self) -> (id: TrialId)
        requires
            old(self).next_value() < u64::MAX,
        ensures
            generate_step(*old(self), id, *final(self)),
    {
        let id = TrialId(self.next);
        self.next = self.next + 1;
        id
    }

    /// Peeks the next identifier without consuming it.
    pub fn peek_id(&self) -> (id: TrialId)
        ensures
            id.0 == self.next_value(),
    {
        TrialId(self.next)
    }

    /// Skips identifiers until the next one to be generated is `next_id`.
    ///
    /// Fails with `InvalidInput`, leaving the generator unchanged, when `next_id`
    /// was already handed out (it is below the next identifier).
    pub fn advance_to(&mut self, next_id: u64) -> (res: Result<(), ErrorKind>)
        ensures
            old(self).next_value() <= next_id ==> res is Ok && final(self).next_value() == next_id,
            next_id < old(self).next_value() ==> res == Err::<(), ErrorKind>(ErrorKind::InvalidInput)
                && final(self).next_value() == old(self).next_value(),
    {
        if next_id < self.peek_id().get() {
            return Err(ErrorKind::InvalidInput);
        }
        while self.peek_id().get() < next_id
            invariant
                self.next_value() <= next_id,
            decreases next_id - self.next_value(),
        {
            self.generate();
        }
        Ok(())
    }
}

/// One call of `generate` on a generator in state `before`, handing out `id` and leaving the
/// generator in state `after`, as `generate`'s contract describes it.
pub open spec fn generate_step(before: IdGen, id: TrialId, after: IdGen) -> bool {
    id.0 == before.next_value() && after.next_value() == before.next_value() + 1
}

proof fn lemma_steps_offset(gens: Seq<IdGen>, ids: Seq<TrialId>, k: int)
    requires
        gens.len() == ids.len() + 1,
        forall|i: int| 0 <= i < ids.len() ==> #[trigger] generate_step(gens[i], ids[i], gens[i + 1]),
        0 <= k < gens.len(),
    ensures
        gens[k].next_value() == gens[0].next_value() + k,
    decreases k,
{
    if k > 0 {
        let j = k - 1;
        lemma_steps_offset(gens, ids, j);
        assert(generate_step(gens[j], ids[j], gens[j + 1]));
    }
}

/// The identifiers that consecutive calls of `generate` hand out strictly increase, so one
/// generator never hands out the same identifier twice: the `i`-th call hands out the
/// next value of the state it is made in (what `peek_id` shows there), which is the
/// first state's next value plus `i`.
pub proof fn lemma_generated_ids_increase(gens: Seq<IdGen>, ids: Seq<TrialId>)
    requires
        gens.len() == ids.len() + 1,
        forall|i: int| 0 <= i < ids.len() ==> #[trigger] generate_step(gens[i], ids[i], gens[i + 1]),
    ensures
        forall|i: int| 0 <= i < ids.len() ==> #[trigger] ids[i].0 == gens[i].next_value(),
        forall|i: int| 0 <= i < ids.len() ==> #[trigger] ids[i].0 == gens[0].next_value() + i,
        forall|i: int, j: int| 0 <= i < j < ids.len() ==> ids[i].0 < ids[j].0,
{
    assert forall|i: int| 0 <= i < ids.len() implies #[trigger] ids[i].0 == gens[i].next_value() by {
        assert(generate_step(gens[i], ids[i], gens[i + 1]));
    }
    assert forall|i: int| 0 <= i < ids.len() implies #[trigger] ids[i].0 == gens[0].next_value() + i by {
        lemma_steps_offset(gens, ids, i);
        assert(generate_step(gens[i], ids[i], gens[i + 1]));
    }
    assert forall|i: int, j: int| 0 <= i < j < ids.len() implies ids[i].0 < ids[j].0 by {
        assert(ids[i].0 == gens[0].next_value() + i);
        assert(ids[j].0 == gens[0].next_value() + j);
    }
}

} // verus!
