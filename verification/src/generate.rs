//! Constraining the search space: which instructions a search may propose.
use crate::instruction::Instruction;
use vstd::prelude::*;

verus! {

/// A constraint on the instructions of a search, such as excluding branches, or instructions
/// touching this or that register.
pub trait Constraint<I> {
    /// Whether the constraint admits the instruction.
    spec fn spec_allows(&self, insn: &I) -> bool;

    /// Returns whether the constraint admits the instruction.
    fn allows(&self, insn: &I) -> (r: bool)
        ensures
            r == self.spec_allows(insn),
    ;
}

/// In case there's something or other you want to exclude from a search, such as branches, or
/// instructions touching this or that register, etc. etc., you can add them to this struct.
/// This has the effect of constraining the search space to programs you want to permit.
pub struct Constraints<I: Instruction, C: Constraint<I>> {
    constraints: Vec<C>,
    marker: core::marker::PhantomData<I>,
}

impl<I: Instruction, C: Constraint<I>> Constraints<I, C> {
    /// The constraints, in order.
    pub closed spec fn spec_constraints(&self) -> Seq<C> {
        self.constraints@
    }

    /// Whether every constraint admits the instruction.
    pub open spec fn spec_allow(&self, insn: &I) -> bool {
        forall|i: int|
            0 <= i < self.spec_constraints().len() ==> #[trigger] self.spec_constraints()[i].spec_allows(insn)
    }

    /// Constraints excluding whatever the given constraints do not admit.
    pub fn new(exclude: Vec<C>) -> (r: Self)
        ensures
            r.spec_constraints() == exclude@,
    {
        Self { constraints: exclude, marker: core::marker::PhantomData }
    }

    /// No constraint at all.
    pub fn none() -> (r: Self)
        ensures
            r.spec_constraints() == Seq::<C>::empty(),
    {
        Self { constraints: Vec::new(), marker: core::marker::PhantomData }
    }

    /// Returns true if every constraint admits the instruction.
    pub fn allow(&self, insn: &I) -> (r: bool)
        ensures
            r == self.spec_allow(insn),
    {
        let mut i: usize = 0;
        while i < self.constraints.len()
            invariant
                i <= self.constraints@.len(),
                forall|j: int| 0 <= j < i ==> #[trigger] self.constraints@[j].spec_allows(insn),
            decreases self.constraints.len() - i,
        {
            if !self.constraints[i].allows(insn) {
                assert(!self.spec_constraints()[i as int].spec_allows(insn));
                return false;
            }
            i = i + 1;
        }
        true
    }

    /// The position of the first of the candidates, from position `k` on, that every constraint
    /// admits.
    pub open spec fn first_from(&self, c: Seq<I>, k: int) -> Option<int>
        decreases c.len() - k,
    {
        if k < 0 || k >= c.len() {
            None
        } else if self.spec_allow(&c[k]) {
            Some(k)
        } else {
            self.first_from(c, k + 1)
        }
    }

    /// The position found is that of an admitted candidate.
    proof fn lemma_first_from_allowed(&self, c: Seq<I>, k: int)
        requires
            self.first_from(c, k) is Some,
        ensures
            0 <= self.first_from(c, k)->0 < c.len(),
            self.spec_allow(&c[self.first_from(c, k)->0]),
        decreases c.len() - k,
    {
        if 0 <= k < c.len() && !self.spec_allow(&c[k]) {
            self.lemma_first_from_allowed(c, k + 1);
        }
    }

    /// The position of the first candidate that every constraint admits; `None` exactly when
    /// the constraints reject them all.
    pub fn first_allowed(&self, candidates: &[I]) -> (r: Option<usize>)
        ensures
            match r {
                Some(k) => self.first_from(candidates@, 0) == Some(k as int),
                None => self.first_from(candidates@, 0) is None,
            },
    {
        let mut k: usize = 0;
        while k < candidates.len()
            invariant
                k <= candidates@.len(),
                self.first_from(candidates@, 0) == self.first_from(candidates@, k as int),
            decreases candidates.len() - k,
        {
            if self.allow(&candidates[k]) {
                return Some(k);
            }
            k = k + 1;
        }
        None
    }

    /// Proposes up to five random instructions, one at a time, returning the first that every
    /// constraint admits (or `None` if none of them was). Which one comes back is what
    /// `first_allowed` picks from the instructions drawn so far.
    pub fn new_instruction(&self) -> (r: Option<I>)
        ensures
            r matches Some(insn) ==> self.spec_allow(&insn),
            self.spec_constraints().len() == 0 ==> r is Some,
    {
        let mut drawn: Vec<I> = Vec::new();
        while drawn.len() < 5
            invariant
                drawn@.len() <= 5,
                self.first_from(drawn@, 0) is None,
                self.spec_constraints().len() == 0 ==> drawn@.len() == 0,
            decreases 5 - drawn@.len(),
        {
            drawn.push(I::new());
            if let Some(k) = self.first_allowed(drawn.as_slice()) {
                proof {
                    self.lemma_first_from_allowed(drawn@, 0);
                }
                return Some(drawn.remove(k));
            }
        }
        None
    }
}

} // verus!
