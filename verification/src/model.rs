//! The data the core works on: signed claims, the resolved identity, stored
//! accounts, owned todo items, and the plain input forms of the login and
//! registration endpoints.

use vstd::prelude::*;

verus! {

/// The identity facts embedded in a token: the account identifier, the
/// account's display name and its email address. Claims are assembled once per
/// successful login and are immutable once signed.
#[derive(Clone, Debug)]
pub struct Claims {
    pub id: String,
    pub name: String,
    pub email: String,
}

/// The mathematical value of a [`Claims`]: its three fields as character
/// sequences.
pub ghost struct ClaimsV {
    pub id: Seq<char>,
    pub name: Seq<char>,
    pub email: Seq<char>,
}

impl View for Claims {
    type V = ClaimsV;

    open spec fn view(&self) -> ClaimsV {
        ClaimsV { id: self.id@, name: self.name@, email: self.email@ }
    }
}

impl Claims {
    /// The single claims constructor used by the issuance flow, so the field
    /// set can never drift between signing and resolving.
    pub fn new(id: String, name: String, email: String) -> (c: Claims)
        ensures
            c@ == (ClaimsV { id: id@, name: name@, email: email@ }),
    {
        Claims { id, name, email }
    }
}

/// The trusted, request-scoped representation of the authenticated caller,
/// built only from claims that passed signature verification and whose
/// identifier passed the shape check.
#[derive(Clone, Debug)]
pub struct Identity {
    pub id: String,
    pub name: String,
    pub email: String,
}

/// The mathematical value of an [`Identity`].
pub ghost struct IdentityV {
    pub id: Seq<char>,
    pub name: Seq<char>,
    pub email: Seq<char>,
}

impl View for Identity {
    type V = IdentityV;

    open spec fn view(&self) -> IdentityV {
        IdentityV { id: self.id@, name: self.name@, email: self.email@ }
    }
}

/// A stored account, as the credential store hands it to the core: the
/// identifier, profile fields, the bcrypt hash of the password, and creation
/// and update times as seconds.
#[derive(Clone, Debug)]
pub struct User {
    pub id: String,
    pub name: String,
    pub email: String,
    pub password: String,
    pub created_at: i64,
    pub updated_at: Option<i64>,
}

/// The mathematical value of a [`User`].
pub ghost struct UserV {
    pub id: Seq<char>,
    pub name: Seq<char>,
    pub email: Seq<char>,
    pub password: Seq<char>,
    pub created_at: i64,
    pub updated_at: Option<i64>,
}

impl View for User {
    type V = UserV;

    open spec fn view(&self) -> UserV {
        UserV {
            id: self.id@,
            name: self.name@,
            email: self.email@,
            password: self.password@,
            created_at: self.created_at,
            updated_at: self.updated_at,
        }
    }
}

/// A todo item. `user_id` is the owning identity, set at creation time and
/// never reassigned; it is the datum the ownership gate compares against the
/// resolved identity.
#[derive(Clone, Debug)]
pub struct Todo {
    pub id: String,
    pub title: String,
    pub description: String,
    pub done: bool,
    pub user_id: String,
    pub created_at: i64,
    pub updated_at: Option<i64>,
}

/// The mathematical value of a [`Todo`].
pub ghost struct TodoV {
    pub id: Seq<char>,
    pub title: Seq<char>,
    pub description: Seq<char>,
    pub done: bool,
    pub user_id: Seq<char>,
    pub created_at: i64,
    pub updated_at: Option<i64>,
}

impl View for Todo {
    type V = TodoV;

    open spec fn view(&self) -> TodoV {
        TodoV {
            id: self.id@,
            title: self.title@,
            description: self.description@,
            done: self.done,
            user_id: self.user_id@,
            created_at: self.created_at,
            updated_at: self.updated_at,
        }
    }
}

/// The body of a login request. Fields arrive optional and are checked by the
/// issuance flow before any credential is looked up.
#[derive(Clone, Debug)]
pub struct LoginForm {
    pub email: Option<String>,
    pub password: Option<String>,
}

/// The body of a registration request.
#[derive(Clone, Debug)]
pub struct RegisterForm {
    pub name: Option<String>,
    pub email: Option<String>,
    pub password: Option<String>,
}

/// The body returned to the caller on a successful login.
#[derive(Clone, Debug)]
pub struct LoginResponse {
    pub token: String,
}

/// The body of a request that creates a todo item. A missing title is
/// rejected; a missing description defaults to the empty string.
#[derive(Clone, Debug)]
pub struct CreateTodoForm {
    pub title: Option<String>,
    pub description: Option<String>,
}

/// The body of a request that updates a todo item. A missing field keeps the
/// stored value.
#[derive(Clone, Debug)]
pub struct UpdateTodoForm {
    pub title: Option<String>,
    pub description: Option<String>,
}

} // verus!
