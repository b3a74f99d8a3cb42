//! The one entity type of the graph and its resolution by identifier.

use async_graphql::ID;
use vstd::prelude::*;

verus! {

/// `async_graphql::ID`, the opaque identifier scalar.  The library hands such
/// a value on and never looks inside it.
#[verifier::external_type_specification]
#[verifier::external_body]
pub struct ExID(ID);

/// The entity that the graph exposes.  Its only field is its identifier.
#[derive(Debug, PartialEq, Eq)]
pub struct Obj {
    pub id: ID,
}

/// The root of all queries.  It holds no state: every request reads the same
/// value and none can change it.
#[derive(Clone, Copy, Debug)]
pub struct Query;

impl Query {
    /// What resolving `id` yields.
    pub open spec fn resolved(id: ID) -> Option<Obj> {
        Some(Obj { id })
    }

    /// Resolves the entity that a calling router refers to by `id`.
    ///
    /// Every identifier resolves: the result is always present and carries
    /// the identifier exactly as it was given.  Nothing is looked up.
    pub fn find_obj_id(&self, id: ID) -> (found: Option<Obj>)
        ensures
            found == Self::resolved(id),
    {
        Some(Obj { id })
    }
}

/// Resolution echoes the identifier: an object is always found, and the
/// identifier it carries is the one that was asked for.
pub proof fn lemma_resolution_echoes(id: ID)
    ensures
        Query::resolved(id) is Some,
        Query::resolved(id)->0.id == id,
{
}

/// Two resolutions agree exactly when they were asked for the same
/// identifier: no request can change what another one is answered.
pub proof fn lemma_resolution_repeatable(first: ID, second: ID)
    ensures
        first == second <==> Query::resolved(first) == Query::resolved(second),
{
}

} // verus!
