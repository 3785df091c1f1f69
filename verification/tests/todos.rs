//! Tests of the todo operations behind the ownership gate: creation,
//! updating, toggling, listing, and the cross-user denial scenario.

use todo_auth::{
    authorize, toggle_todo, update_todo, AuthError, CreateTodoForm, Identity, Todo, UpdateTodoForm,
};

const NOW: i64 = 1_700_000_000;
const LATER: i64 = 1_700_000_600;

fn identity(id: &str, name: &str) -> Identity {
    Identity {
        id: String::from(id),
        name: String::from(name),
        email: format!("{}@example.com", name),
    }
}

fn ana() -> Identity {
    identity("aaaaaaaa-bbbb-4ccc-8ddd-eeeeeeeeeeee", "ana")
}

fn bob() -> Identity {
    identity("99999999-8888-4777-8666-555555555555", "bob")
}

#[test]
fn create_fills_every_field() {
    let form = CreateTodoForm {
        title: Some(String::from("water the plants")),
        description: None,
    };
    let todo = Todo::create(&ana(), form, NOW).unwrap();
    assert_eq!(todo.title, "water the plants");
    assert_eq!(todo.description, "");
    assert!(!todo.done);
    assert_eq!(todo.user_id, ana().id);
    assert_eq!(todo.created_at, NOW);
    assert!(todo.updated_at.is_none());
    assert!(todo_auth::check_id_shape(&todo.id));
}

#[test]
fn create_without_title_is_rejected() {
    let form = CreateTodoForm { title: None, description: Some(String::from("desc")) };
    assert_eq!(
        Todo::create(&ana(), form, NOW).unwrap_err(),
        AuthError::ValidationError
    );
}

#[test]
fn update_merges_only_submitted_fields() {
    let form = CreateTodoForm {
        title: Some(String::from("original title")),
        description: Some(String::from("original description")),
    };
    let todo = Todo::create(&ana(), form, NOW).unwrap();
    let id = todo.id.clone();

    let partial = UpdateTodoForm { title: Some(String::from("new title")), description: None };
    let updated = Todo::update(&ana(), todo, &partial, LATER);
    assert_eq!(updated.title, "new title");
    assert_eq!(updated.description, "original description");
    assert_eq!(updated.id, id);
    assert_eq!(updated.user_id, ana().id);
    assert_eq!(updated.created_at, NOW);
    assert_eq!(updated.updated_at, Some(LATER));
    assert!(!updated.done);
}

#[test]
fn toggle_flips_only_completion() {
    let form = CreateTodoForm { title: Some(String::from("t")), description: None };
    let todo = Todo::create(&ana(), form, NOW).unwrap();
    let once = Todo::toggle_completion(&ana(), todo, LATER);
    assert!(once.done);
    assert_eq!(once.updated_at, Some(LATER));
    let twice = Todo::toggle_completion(&ana(), once, LATER);
    assert!(!twice.done);
}

#[test]
fn update_through_the_gate_checks_owner_first() {
    let form = CreateTodoForm { title: Some(String::from("t")), description: None };
    let todo = Todo::create(&ana(), form, NOW).unwrap();
    let change = UpdateTodoForm { title: Some(String::from("u")), description: None };

    assert_eq!(
        update_todo(&bob(), Some(todo.clone()), &change, LATER).unwrap_err(),
        AuthError::Forbidden
    );
    assert_eq!(
        update_todo(&bob(), None, &change, LATER).unwrap_err(),
        AuthError::NotFound
    );
    let updated = update_todo(&ana(), Some(todo), &change, LATER).unwrap();
    assert_eq!(updated.title, "u");
}

#[test]
fn toggle_through_the_gate_checks_owner_first() {
    let form = CreateTodoForm { title: Some(String::from("t")), description: None };
    let todo = Todo::create(&ana(), form, NOW).unwrap();
    assert_eq!(
        toggle_todo(&bob(), Some(todo.clone()), LATER).unwrap_err(),
        AuthError::Forbidden
    );
    assert!(toggle_todo(&ana(), Some(todo), LATER).unwrap().done);
}

#[test]
fn cross_user_delete_is_forbidden_then_owner_succeeds() {
    // Identity A creates a resource; identity B may not delete it; A may.
    let a = ana();
    let b = bob();
    let form = CreateTodoForm { title: Some(String::from("X")), description: None };
    let x = Todo::create(&a, form, NOW).unwrap();

    assert_eq!(
        authorize(&b, Some(x.clone())).unwrap_err(),
        AuthError::Forbidden
    );
    let to_delete = authorize(&a, Some(x.clone())).unwrap();
    assert_eq!(to_delete.id, x.id);
}

#[test]
fn listing_keeps_exactly_the_callers_items_in_order() {
    let a = ana();
    let b = bob();
    let mut all = Vec::new();
    for (owner, title) in [(&a, "first"), (&b, "theirs"), (&a, "second")] {
        let form = CreateTodoForm { title: Some(String::from(title)), description: None };
        all.push(Todo::create(owner, form, NOW).unwrap());
    }
    let mine = Todo::todos(&a, all);
    assert_eq!(mine.len(), 2);
    assert_eq!(mine[0].title, "first");
    assert_eq!(mine[1].title, "second");
    assert!(mine.iter().all(|t| t.user_id == a.id));

    let none = Todo::todos(&identity("00000000-0000-4000-8000-000000000000", "eve"), Vec::new());
    assert!(none.is_empty());
}

#[test]
fn set_user_reassigns_only_the_owner() {
    let form = CreateTodoForm { title: Some(String::from("t")), description: None };
    let todo = Todo::create(&ana(), form, NOW).unwrap();
    let id = todo.id.clone();
    let handed = todo.set_user(&bob());
    assert_eq!(handed.user_id, bob().id);
    assert_eq!(handed.id, id);
    assert_eq!(handed.title, "t");
}
