//! The life of a contract instance and the three kinds of entry point
//! through which a host reaches it.

use vstd::prelude::*;

verus! {

/// The kind of an entry point. It decides how the entry point may touch the
/// state: a constructor has none to look at and produces the first one, a
/// query reads it, a mutation may read and change it.
#[derive(Clone, Copy, PartialEq, Eq, Debug, Structural)]
pub enum Category {
    Constructor,
    Query,
    Mutate,
}

/// Where a contract instance stands in its life.
#[derive(Clone, Copy, PartialEq, Eq, Debug, Structural)]
pub enum Phase {
    /// No constructor has run yet.
    Uninitialized,
    /// The constructor has succeeded; the instance answers queries and
    /// mutations.
    Ready,
    /// The constructor has failed; the instance stays unusable.
    Failed,
}

impl Phase {
    /// A call of `category` may be made in this phase: the constructor on
    /// an instance that has none behind it, queries and mutations on a
    /// ready one, nothing on a failed one.
    pub open spec fn admits(self, category: Category) -> bool {
        match category {
            Category::Constructor => self == Phase::Uninitialized,
            Category::Query | Category::Mutate => self == Phase::Ready,
        }
    }

    /// The phase after an admitted call of `category`. `constructed` says
    /// whether a constructor succeeded; after a query or a mutation it
    /// plays no part.
    pub open spec fn after(self, category: Category, constructed: bool) -> Phase {
        match category {
            Category::Constructor => if constructed {
                Phase::Ready
            } else {
                Phase::Failed
            },
            Category::Query | Category::Mutate => self,
        }
    }

    /// Decides whether a call of `category` may be made in this phase.
    pub fn admits_call(self, category: Category) -> (r: bool)
        ensures
            r == self.admits(category),
    {
        match category {
            Category::Constructor => self == Phase::Uninitialized,
            Category::Query => self == Phase::Ready,
            Category::Mutate => self == Phase::Ready,
        }
    }
}

/// Construction happens at most once: after any admitted call the
/// constructor is no longer admitted, so no instance returns to the
/// uninitialized phase.
pub proof fn lemma_constructed_once(phase: Phase, category: Category, constructed: bool)
    requires
        phase.admits(category),
    ensures
        phase.after(category, constructed) != Phase::Uninitialized,
        !phase.after(category, constructed).admits(Category::Constructor),
{
}

/// Queries and mutations leave a ready instance ready.
pub proof fn lemma_ready_stays_ready(category: Category, constructed: bool)
    requires
        category != Category::Constructor,
    ensures
        Phase::Ready.admits(category),
        Phase::Ready.after(category, constructed) == Phase::Ready,
{
}

/// A failed instance admits no call at all.
pub proof fn lemma_failed_is_terminal(category: Category)
    ensures
        !Phase::Failed.admits(category),
{
}

} // verus!
