//! The ownership gate: authorizes an operation on a specific resource
//! instance. Existence is checked first — a missing resource is reported as
//! not found regardless of who asks — and a resource that exists may only be
//! acted on by the identity recorded as its owner, by strict equality.

use vstd::prelude::*;

use crate::errors::AuthError;
use crate::model::Identity;
use crate::model::IdentityV;
use crate::model::Todo;
use crate::model::TodoV;

verus! {

/// Whether `identity` may act on a resource owned by `owner_id`:
/// strict equality of identifiers, no partial matches, no hierarchy.
pub open spec fn owner_allows(identity: IdentityV, owner_id: Seq<char>) -> bool {
    identity.id == owner_id
}

/// The authorization decision for `identity` and an optionally loaded resource:
/// not found when the resource does not exist, forbidden when it exists but
/// is owned by someone else, and the resource itself when the caller owns it.
pub open spec fn spec_authorize(identity: IdentityV, loaded: Option<TodoV>) -> Result<TodoV, AuthError> {
    match loaded {
        None => Err(AuthError::NotFound),
        Some(t) => {
            if owner_allows(identity, t.user_id) {
                Ok(t)
            } else {
                Err(AuthError::Forbidden)
            }
        },
    }
}

/// For every resource, its owner is authorized and every other identity is
/// denied.
pub proof fn lemma_ownership_invariant(t: TodoV, i1: IdentityV, i2: IdentityV)
    requires
        t.user_id == i1.id,
        i1.id != i2.id,
    ensures
        spec_authorize(i1, Some(t)) == Ok::<TodoV, AuthError>(t),
        spec_authorize(i2, Some(t)) == Err::<TodoV, AuthError>(AuthError::Forbidden),
{
}

/// For a resource that does not exist, the outcome is not found for every
/// caller: existence is decided before ownership, and no identity can tell
/// more than that.
pub proof fn lemma_not_found_uniform(i1: IdentityV, i2: IdentityV)
    ensures
        spec_authorize(i1, None) == Err::<TodoV, AuthError>(AuthError::NotFound),
        spec_authorize(i1, None) == spec_authorize(i2, None),
{
}

/// Checks that `identity` owns `todo`; allow on equality, forbidden
/// otherwise.
pub fn check_ownership(identity: &Identity, todo: &Todo) -> (r: Result<(), AuthError>)
    ensures
        r is Ok <==> owner_allows(identity@, todo@.user_id),
        r matches Err(e) ==> e == AuthError::Forbidden,
{
    if identity.id == todo.user_id {
        Ok(())
    } else {
        Err(AuthError::Forbidden)
    }
}

/// The ownership check over an optionally loaded resource: decides exactly as
/// [`spec_authorize`] prescribes, after the load and before any effect.
pub fn authorize(identity: &Identity, loaded: Option<Todo>) -> (r: Result<Todo, AuthError>)
    ensures
        r matches Ok(t) ==> spec_authorize(identity@, view_loaded(loaded)) == Ok::<TodoV, AuthError>(t@),
        r matches Err(e) ==> spec_authorize(identity@, view_loaded(loaded)) == Err::<TodoV, AuthError>(e),
{
    match loaded {
        None => Err(AuthError::NotFound),
        Some(todo) => match check_ownership(identity, &todo) {
            Ok(()) => Ok(todo),
            Err(e) => Err(e),
        },
    }
}

/// The view of an optionally loaded resource.
pub open spec fn view_loaded(loaded: Option<Todo>) -> Option<TodoV> {
    match loaded {
        None => None,
        Some(t) => Some(t@),
    }
}

} // verus!
