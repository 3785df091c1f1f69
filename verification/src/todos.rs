//! Operations on todo items, fused with the ownership gate: building a fresh
//! item for its creator, merging an update form into a loaded item, toggling
//! completion, and keeping only the items a caller owns. Every mutating
//! operation demands a caller that passed the ownership check.

use vstd::prelude::*;

use crate::errors::AuthError;
use crate::gate::authorize;
use crate::gate::owner_allows;
use crate::gate::spec_authorize;
use crate::gate::view_loaded;
use crate::ids::is_uuid_str;
use crate::ids::new_id;
use crate::model::CreateTodoForm;
use crate::model::Identity;
use crate::model::Todo;
use crate::model::TodoV;
use crate::model::UpdateTodoForm;

verus! {

/// The description a creation form carries, with a missing one defaulting to
/// the empty string.
pub open spec fn spec_description_of(desc: Option<String>) -> Seq<char> {
    match desc {
        Some(d) => d@,
        None => Seq::empty(),
    }
}

/// The item that merging `form` into `t` at time `now` yields: a submitted
/// field replaces the stored value, a missing one keeps it; identifier,
/// owner, completion state and creation time never change.
pub open spec fn spec_update(t: TodoV, form: UpdateTodoForm, now: i64) -> TodoV {
    TodoV {
        id: t.id,
        title: match form.title {
            Some(x) => x@,
            None => t.title,
        },
        description: match form.description {
            Some(x) => x@,
            None => t.description,
        },
        done: t.done,
        user_id: t.user_id,
        created_at: t.created_at,
        updated_at: Some(now),
    }
}

/// The item that toggling `t` at time `now` yields: only the completion flag
/// flips, and the update time is set.
pub open spec fn spec_toggle(t: TodoV, now: i64) -> TodoV {
    TodoV {
        id: t.id,
        title: t.title,
        description: t.description,
        done: !t.done,
        user_id: t.user_id,
        created_at: t.created_at,
        updated_at: Some(now),
    }
}

/// The values of a sequence of items.
pub open spec fn todos_view(todos: Seq<Todo>) -> Seq<TodoV> {
    todos.map_values(|t: Todo| t@)
}

/// The items of `all` owned by `id`, in their original order.
pub open spec fn spec_owned(all: Seq<TodoV>, id: Seq<char>) -> Seq<TodoV>
    decreases all.len(),
{
    if all.len() == 0 {
        Seq::empty()
    } else if all[0].user_id == id {
        seq![all[0]] + spec_owned(all.drop_first(), id)
    } else {
        spec_owned(all.drop_first(), id)
    }
}

/// Every item of the listing is owned by the caller, and every owned item of
/// the input appears in the listing.
pub proof fn lemma_owned_exact(all: Seq<TodoV>, id: Seq<char>)
    ensures
        forall|j: int| 0 <= j < spec_owned(all, id).len() ==> #[trigger] spec_owned(all, id)[j].user_id
            == id,
        forall|j: int| 0 <= j < all.len() && #[trigger] all[j].user_id == id ==> spec_owned(
            all,
            id,
        ).contains(all[j]),
    decreases all.len(),
{
    if all.len() > 0 {
        lemma_owned_exact(all.drop_first(), id);
        let rest = spec_owned(all.drop_first(), id);
        if all[0].user_id == id {
            assert(spec_owned(all, id) == seq![all[0]] + rest);
            assert(spec_owned(all, id)[0] == all[0]);
            assert(forall|j: int| 0 <= j < rest.len() ==> #[trigger] (seq![all[0]] + rest)[j + 1]
                == rest[j]);
            assert forall|j: int| 0 <= j < all.len() && #[trigger] all[j].user_id == id implies
                spec_owned(all, id).contains(all[j]) by {
                if j == 0 {
                    assert(spec_owned(all, id)[0] == all[j]);
                } else {
                    assert(all.drop_first()[j - 1] == all[j]);
                    let k = choose|k: int| 0 <= k < rest.len() && rest[k] == all[j];
                    assert((seq![all[0]] + rest)[k + 1] == all[j]);
                }
            }
        } else {
            assert(spec_owned(all, id) == rest);
            assert forall|j: int| 0 <= j < all.len() && #[trigger] all[j].user_id == id implies
                spec_owned(all, id).contains(all[j]) by {
                assert(all.drop_first()[j - 1] == all[j]);
            }
        }
    }
}

impl Todo {
    /// Builds a fresh item from a creation form, owned by `user`: a fresh
    /// identifier, the submitted title, the submitted or empty description,
    /// not done, created at `now`. A form without a title is rejected; the
    /// caller persists the result.
    pub fn create(user: &Identity, form: CreateTodoForm, now: i64) -> (r: Result<Todo, AuthError>)
        ensures
            r is Ok <==> form.title is Some,
            r matches Err(e) ==> e == AuthError::ValidationError,
            r matches Ok(t) ==> ({
                &&& form.title matches Some(ti) && t@.title == ti@
                &&& t@.description == spec_description_of(form.description)
                &&& t@.done == false
                &&& t@.user_id == user@.id
                &&& t@.created_at == now
                &&& t@.updated_at is None
                &&& is_uuid_str(t@.id)
            }),
    {
        let title = match form.title {
            Some(t) => t,
            None => return Err(AuthError::ValidationError),
        };
        let description = match form.description {
            Some(d) => d,
            None => String::new(),
        };
        Ok(
            Todo {
                id: new_id(),
                title,
                description,
                done: false,
                user_id: user.id.clone(),
                created_at: now,
                updated_at: None,
            },
        )
    }

    /// Keeps exactly the items of `all` that `user` owns, in order — the
    /// listing a caller may see.
    pub fn todos(user: &Identity, all: Vec<Todo>) -> (r: Vec<Todo>)
        ensures
            todos_view(r@) == spec_owned(todos_view(all@), user@.id),
    {
        let ghost full = todos_view(all@);
        let mut rest = all;
        let mut out: Vec<Todo> = Vec::new();
        proof {
            assert(todos_view(out@) + spec_owned(todos_view(rest@), user@.id) =~= spec_owned(
                full,
                user@.id,
            ));
        }
        while rest.len() > 0
            invariant
                todos_view(out@) + spec_owned(todos_view(rest@), user@.id) == spec_owned(
                    full,
                    user@.id,
                ),
            decreases rest@.len(),
        {
            let ghost before = todos_view(rest@);
            let t = rest.remove(0);
            proof {
                assert(todos_view(rest@) =~= before.drop_first());
                assert(before[0] == t@);
            }
            if t.user_id == user.id {
                let ghost outs = todos_view(out@);
                out.push(t);
                proof {
                    assert(todos_view(out@) =~= outs.push(t@));
                    assert(outs.push(t@) + spec_owned(before.drop_first(), user@.id) =~= outs + (
                    seq![before[0]] + spec_owned(before.drop_first(), user@.id)));
                }
            }
        }
        proof {
            assert(todos_view(rest@) =~= Seq::<TodoV>::empty());
            assert(todos_view(out@) + Seq::<TodoV>::empty() =~= todos_view(out@));
        }
        out
    }

    /// Merges an update form into an item the caller owns, exactly as
    /// [`spec_update`] prescribes. The caller must have passed the ownership
    /// check before any change is applied.
    pub fn update(user: &Identity, todo: Todo, form: &UpdateTodoForm, now: i64) -> (r: Todo)
        requires
            owner_allows(user@, todo@.user_id),
        ensures
            r@ == spec_update(todo@, *form, now),
    {
        let title = match &form.title {
            Some(t) => t.clone(),
            None => todo.title,
        };
        let description = match &form.description {
            Some(d) => d.clone(),
            None => todo.description,
        };
        Todo {
            id: todo.id,
            title,
            description,
            done: todo.done,
            user_id: todo.user_id,
            created_at: todo.created_at,
            updated_at: Some(now),
        }
    }

    /// Flips the completion flag of an item the caller owns, exactly as
    /// [`spec_toggle`] prescribes.
    pub fn toggle_completion(user: &Identity, todo: Todo, now: i64) -> (r: Todo)
        requires
            owner_allows(user@, todo@.user_id),
        ensures
            r@ == spec_toggle(todo@, now),
    {
        Todo {
            id: todo.id,
            title: todo.title,
            description: todo.description,
            done: !todo.done,
            user_id: todo.user_id,
            created_at: todo.created_at,
            updated_at: Some(now),
        }
    }

    /// Hands an item to a new owner; every other field is kept. Ownership is
    /// otherwise set once at creation and never reassigned.
    pub fn set_user(self, user: &Identity) -> (r: Todo)
        ensures
            r@ == (TodoV { user_id: user@.id, ..self@ }),
    {
        Todo { user_id: user.id.clone(), ..self }
    }
}

/// The update endpoint's decision: gate first, merge only when admitted. A
/// missing item is not found, a foreign one forbidden, and an owned one is
/// returned merged with the form.
pub fn update_todo(user: &Identity, loaded: Option<Todo>, form: &UpdateTodoForm, now: i64) -> (r:
    Result<Todo, AuthError>)
    ensures
        r matches Err(e) ==> spec_authorize(user@, view_loaded(loaded)) == Err::<TodoV, AuthError>(
            e,
        ),
        r matches Ok(t) ==> (spec_authorize(user@, view_loaded(loaded)) matches Ok(t0) && t@
            == spec_update(t0, *form, now)),
{
    let todo = authorize(user, loaded)?;
    Ok(Todo::update(user, todo, form, now))
}

/// The completion endpoint's decision: gate first, toggle only when admitted.
pub fn toggle_todo(user: &Identity, loaded: Option<Todo>, now: i64) -> (r: Result<Todo, AuthError>)
    ensures
        r matches Err(e) ==> spec_authorize(user@, view_loaded(loaded)) == Err::<TodoV, AuthError>(
            e,
        ),
        r matches Ok(t) ==> (spec_authorize(user@, view_loaded(loaded)) matches Ok(t0) && t@
            == spec_toggle(t0, now)),
{
    let todo = authorize(user, loaded)?;
    Ok(Todo::toggle_completion(user, todo, now))
}

} // verus!
