use vstd::prelude::*;

verus! {

/// Identity of a project aggregate.
#[derive(Clone, Copy, Debug, PartialEq, Eq, Structural, Hash)]
pub struct ProjectId {
    pub value: u64,
}

/// Identity of a budget aggregate.
#[derive(Clone, Copy, Debug, PartialEq, Eq, Structural, Hash)]
pub struct BudgetId {
    pub value: u64,
}

/// Identity of a user of the platform.
#[derive(Clone, Copy, Debug, PartialEq, Eq, Structural, Hash)]
pub struct UserId {
    pub value: u64,
}

/// Identity of a repository on the code-hosting platform.
#[derive(Clone, Copy, Debug, PartialEq, Eq, Structural, Hash)]
pub struct GithubRepositoryId {
    pub value: u64,
}

/// Amount of funds held by a budget, in the smallest unit.
pub type Amount = u64;

/// Hands out aggregate identities, none of them twice.
///
/// Every identity it has handed out lies below `next`, so the next one is
/// always fresh.
pub struct IdSource {
    next: u64,
    issued: Ghost<Set<u64>>,
}

impl IdSource {
    /// The identities handed out so far.
    pub closed spec fn issued(&self) -> Set<u64> {
        self.issued@
    }

    /// The identity that `next_id` hands out next.
    pub closed spec fn upcoming(&self) -> u64 {
        self.next
    }

    pub closed spec fn wf(&self) -> bool {
        forall|v: u64| #[trigger] self.issued@.contains(v) ==> v < self.next
    }

    /// A source whose first identity is `first`, having handed out none.
    pub fn new(first: u64) -> (r: IdSource)
        ensures
            r.wf(),
            r.issued() == Set::<u64>::empty(),
            r.upcoming() == first,
    {
        IdSource { next: first, issued: Ghost(Set::empty()) }
    }

    /// Whether another identity can be handed out.
    pub fn has_next(&self) -> (r: bool)
        ensures
            r == (self.upcoming() < u64::MAX),
    {
        self.next < u64::MAX
    }

    /// Whether the identity handed out next is below `bound`.
    pub fn upcoming_is_below(&self, bound: u64) -> (r: bool)
        ensures
            r == (self.upcoming() < bound),
    {
        self.next < bound
    }

    /// Hands out an identity never handed out before by this source.
    pub fn next_id(&mut self) -> (r: u64)
        requires
            old(self).wf(),
            old(self).upcoming() < u64::MAX,
        ensures
            final(self).wf(),
            r == old(self).upcoming(),
            !old(self).issued().contains(r),
            final(self).issued() == old(self).issued().insert(r),
            final(self).upcoming() == r + 1,
    {
        let r = self.next;
        self.next = self.next + 1;
        self.issued = Ghost(self.issued@.insert(r));
        r
    }
}

} // verus!
