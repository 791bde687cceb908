//! The double-signing protection state and its total order.
use vstd::prelude::*;

verus! {

/// The step of a consensus round, in the order a round goes through them.
#[derive(Debug, Clone, Copy, PartialEq, Eq, Structural)]
pub enum Step {
    Propose,
    Prevote,
    Precommit,
    Commit,
}

/// The position of a step within a round.
pub open spec fn step_rank(s: Step) -> nat {
    match s {
        Step::Propose => 0,
        Step::Prevote => 1,
        Step::Precommit => 2,
        Step::Commit => 3,
    }
}

impl Step {
    /// The position of this step within a round.
    pub fn rank(&self) -> (r: u8)
        ensures
            r as nat == step_rank(*self),
    {
        match self {
            Step::Propose => 0,
            Step::Prevote => 1,
            Step::Precommit => 2,
            Step::Commit => 3,
        }
    }
}

/// Where a signer stands: the part of the consensus state that must never go
/// backwards.
#[derive(Debug, Clone, Copy, PartialEq, Eq, Structural)]
pub struct StateKey {
    pub height: u64,
    pub round: u64,
    pub step: Step,
}

/// `a` comes strictly before `b` in the order by height, then round, then step.
pub open spec fn precedes(a: StateKey, b: StateKey) -> bool {
    a.height < b.height || (a.height == b.height && (a.round < b.round || (a.round == b.round
        && step_rank(a.step) < step_rank(b.step))))
}

/// Whether `a` comes strictly before `b`.
pub fn key_precedes(a: &StateKey, b: &StateKey) -> (r: bool)
    ensures
        r == precedes(*a, *b),
{
    if a.height != b.height {
        a.height < b.height
    } else if a.round != b.round {
        a.round < b.round
    } else {
        a.step.rank() < b.step.rank()
    }
}

/// The consensus state that the enclave reports after signing.
#[derive(Debug, Clone)]
pub struct ConsensusState {
    pub height: u64,
    pub round: u64,
    pub step: Step,
    /// The hash of the block last signed, if any.
    pub block_id: Option<Vec<u8>>,
}

impl ConsensusState {
    pub open spec fn spec_key(&self) -> StateKey {
        StateKey { height: self.height, round: self.round, step: self.step }
    }

    /// Height, round and step of this state.
    pub fn key(&self) -> (r: StateKey)
        ensures
            r == self.spec_key(),
    {
        StateKey { height: self.height, round: self.round, step: self.step }
    }
}

/// The order is a strict total order: irreflexive, transitive, and any two
/// different keys are ordered one way or the other.
pub proof fn lemma_precedes_total_order(a: StateKey, b: StateKey, c: StateKey)
    ensures
        !precedes(a, a),
        precedes(a, b) && precedes(b, c) ==> precedes(a, c),
        a != b ==> precedes(a, b) || precedes(b, a),
        !(precedes(a, b) && precedes(b, a)),
{
    if a != b && !precedes(a, b) && !precedes(b, a) {
        assert(step_rank(a.step) == step_rank(b.step));
        assert(a.step == b.step);
    }
}

} // verus!
