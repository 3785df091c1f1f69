//! The session issuance flow and account registration: checks the submitted
//! form, runs the password hasher against the stored hash, and signs the
//! account's claims into the bearer token returned on a successful login. An
//! unknown identifier and a wrong password are rejected identically, so a
//! caller cannot probe which accounts exist.

use vstd::prelude::*;

use crate::codec::sign;
use crate::codec::spec_verify;
use crate::codec::token_of;
use crate::errors::AuthError;
use crate::ids::is_uuid_str;
use crate::ids::new_id;
use crate::model::Claims;
use crate::model::ClaimsV;
use crate::model::LoginForm;
use crate::model::RegisterForm;
use crate::model::User;
use crate::model::UserV;

verus! {

/// The work factor handed to the password hasher.
pub const HASH_COST: u32 = 4;

/// What bcrypt's `verify` makes of a password and a stored hash string: a
/// pure function of the two. Nothing when the hash is not a well-formed
/// bcrypt string; otherwise whether the password matches it.
pub uninterp spec fn bcrypt_verify_of(password: Seq<char>, hash: Seq<char>) -> Option<bool>;

/// Relies on bcrypt's `hash`: on success the result is a 60-character bcrypt
/// hash string that bcrypt's `verify` parses and matches against the hashed
/// password. The salt is drawn fresh on every call, so nothing is assumed
/// about which hash string comes back.
#[verifier::external_body]
fn bcrypt_hash(password: &str, cost: u32) -> (r: Result<String, ()>)
    ensures
        r matches Ok(h) ==> h@.len() == 60,
        r matches Ok(h) ==> bcrypt_verify_of(password@, h@) == Some(true),
{
    bcrypt::hash(password, cost).map_err(|_| ())
}

/// Relies on bcrypt's `verify`: a pure function of the password and the hash
/// string, failing exactly when the hash is not a string it can parse.
#[verifier::external_body]
fn bcrypt_check(password: &str, hash: &str) -> (r: Result<bool, ()>)
    ensures
        r is Ok <==> bcrypt_verify_of(password@, hash@) is Some,
        r matches Ok(b) ==> Some(b) == bcrypt_verify_of(password@, hash@),
{
    bcrypt::verify(password, hash).map_err(|_| ())
}

/// A plausibly shaped email address: some `@` that is neither the first nor
/// the last character. This is the full extent of the format check; real
/// deliverability is no concern of the core.
pub open spec fn is_email(s: Seq<char>) -> bool {
    exists|i: int| 0 < i < s.len() - 1 && s[i] == '@'
}

/// Decides [`is_email`] for a given string.
fn check_email(s: &str) -> (b: bool)
    ensures
        b == is_email(s@),
{
    let n = s.unicode_len();
    if n < 3 {
        return false;
    }
    let mut i: usize = 1;
    while i < n - 1
        invariant
            3 <= n == s@.len(),
            1 <= i <= n - 1,
            forall|j: int| 0 < j < i ==> s@[j] != '@',
        decreases n - i,
    {
        if s.get_char(i) == '@' {
            return true;
        }
        i += 1;
    }
    false
}

/// A login form the issuance flow accepts: an email-shaped identifier and a
/// password of at least eight characters, both present.
pub open spec fn spec_login_form_ok(form: LoginForm) -> bool {
    &&& form.email matches Some(e) && is_email(e@)
    &&& form.password matches Some(p) && p@.len() >= 8
}

/// Checks a login form before any credential is looked up.
pub fn validate_login(form: &LoginForm) -> (r: Result<(), AuthError>)
    ensures
        r is Ok <==> spec_login_form_ok(*form),
        r matches Err(e) ==> e == AuthError::ValidationError,
{
    match &form.email {
        None => Err(AuthError::ValidationError),
        Some(e) => {
            if !check_email(e.as_str()) {
                return Err(AuthError::ValidationError);
            }
            match &form.password {
                None => Err(AuthError::ValidationError),
                Some(p) => {
                    if p.as_str().unicode_len() < 8 {
                        Err(AuthError::ValidationError)
                    } else {
                        Ok(())
                    }
                },
            }
        },
    }
}

/// A registration form the flow accepts: a name, an email-shaped identifier
/// and a password of at least eight characters, all present.
pub open spec fn spec_register_form_ok(form: RegisterForm) -> bool {
    &&& form.name is Some
    &&& form.email matches Some(e) && is_email(e@)
    &&& form.password matches Some(p) && p@.len() >= 8
}

/// Checks a registration form before an account is created from it.
pub fn validate_register(form: &RegisterForm) -> (r: Result<(), AuthError>)
    ensures
        r is Ok <==> spec_register_form_ok(*form),
        r matches Err(e) ==> e == AuthError::ValidationError,
{
    if form.name.is_none() {
        return Err(AuthError::ValidationError);
    }
    match &form.email {
        None => Err(AuthError::ValidationError),
        Some(e) => {
            if !check_email(e.as_str()) {
                return Err(AuthError::ValidationError);
            }
            match &form.password {
                None => Err(AuthError::ValidationError),
                Some(p) => {
                    if p.as_str().unicode_len() < 8 {
                        Err(AuthError::ValidationError)
                    } else {
                        Ok(())
                    }
                },
            }
        },
    }
}

impl User {
    /// Builds the stored account for a registration: a fresh identifier, the
    /// submitted profile fields, and the bcrypt hash of the submitted
    /// password — never the password itself. The caller persists the result.
    pub fn create(form: RegisterForm, now: i64) -> (r: Result<User, AuthError>)
        ensures
            !spec_register_form_ok(form) ==> r == Err::<User, AuthError>(AuthError::ValidationError),
            spec_register_form_ok(form) ==> (r matches Err(e) ==> e == AuthError::InternalError),
            r matches Ok(u) ==> ({
                &&& spec_register_form_ok(form)
                &&& form.name matches Some(n) && u@.name == n@
                &&& form.email matches Some(e) && u@.email == e@
                &&& form.password matches Some(p) && bcrypt_verify_of(p@, u@.password) == Some(
                    true,
                )
                &&& u@.password.len() == 60
                &&& is_uuid_str(u@.id)
                &&& u@.created_at == now
                &&& u@.updated_at is None
            }),
    {
        validate_register(&form)?;
        let name = match form.name {
            Some(n) => n,
            None => return Err(AuthError::ValidationError),
        };
        let email = match form.email {
            Some(e) => e,
            None => return Err(AuthError::ValidationError),
        };
        let password = match form.password {
            Some(p) => p,
            None => return Err(AuthError::ValidationError),
        };
        let hashed = match bcrypt_hash(password.as_str(), HASH_COST) {
            Ok(h) => h,
            Err(()) => return Err(AuthError::InternalError),
        };
        Ok(User {
            id: new_id(),
            name,
            email,
            password: hashed,
            created_at: now,
            updated_at: None,
        })
    }

    /// Runs the password hasher's comparison of `password` against this
    /// account's stored hash. A hash the hasher cannot parse is a server
    /// fault, never a credential failure.
    pub fn verify_password(&self, password: &str) -> (r: Result<bool, AuthError>)
        ensures
            r is Ok <==> bcrypt_verify_of(password@, self@.password) is Some,
            r matches Ok(b) ==> Some(b) == bcrypt_verify_of(password@, self@.password),
            r matches Err(e) ==> e == AuthError::InternalError,
    {
        match bcrypt_check(password, self.password.as_str()) {
            Ok(b) => Ok(b),
            Err(()) => Err(AuthError::InternalError),
        }
    }
}

/// The view of the credential store's answer to a lookup.
pub open spec fn account_view(account: Option<&User>) -> Option<UserV> {
    match account {
        None => None,
        Some(u) => Some(u@),
    }
}

/// Why the issuance flow turns a login away, if it does: an unknown
/// identifier and a failed password comparison are rejected identically, and
/// an unusable stored hash is a server fault.
pub open spec fn spec_login_denial(account: Option<UserV>, password: Seq<char>) -> Option<AuthError> {
    match account {
        None => Some(AuthError::InvalidCredentials),
        Some(u) => match bcrypt_verify_of(password, u.password) {
            Some(true) => None,
            Some(false) => Some(AuthError::InvalidCredentials),
            None => Some(AuthError::InternalError),
        },
    }
}

/// An unknown identifier and a known identifier with a wrong password yield
/// the same outcome — there is no distinguishing signal.
pub proof fn lemma_login_uniformity(u: UserV, wrong: Seq<char>, other: Seq<char>)
    requires
        bcrypt_verify_of(wrong, u.password) == Some(false),
    ensures
        spec_login_denial(Some(u), wrong) == Some(AuthError::InvalidCredentials),
        spec_login_denial(None, other) == Some(AuthError::InvalidCredentials),
        spec_login_denial(Some(u), wrong) == spec_login_denial(None, other),
{
}

/// The session issuance flow, after the credential store has answered the
/// lookup: verifies the password against the stored hash and, on a match,
/// signs the account's claims into the bearer token handed to the caller.
/// Denials follow [`spec_login_denial`] exactly; on verified credentials a
/// token is owed, and issued.
pub fn login(account: Option<&User>, password: &String, secret: &Vec<u8>) -> (r: Result<
    String,
    AuthError,
>)
    ensures
        spec_login_denial(account_view(account), password@) matches Some(e) ==> r == Err::<
            String,
            AuthError,
        >(e),
        spec_login_denial(account_view(account), password@) is None ==> ({
            &&& account matches Some(u)
            &&& r matches Ok(t)
            &&& (r matches Ok(t) ==> t@ == token_of(u@.id, u@.name, u@.email, secret@)
                && spec_verify(t@, secret@) == Some(
                ClaimsV { id: u@.id, name: u@.name, email: u@.email },
            ))
        }),
{
    let u = match account {
        None => return Err(AuthError::InvalidCredentials),
        Some(u) => u,
    };
    let matches_hash = match u.verify_password(password.as_str()) {
        Ok(b) => b,
        Err(e) => return Err(e),
    };
    if !matches_hash {
        return Err(AuthError::InvalidCredentials);
    }
    let claims = Claims::new(u.id.clone(), u.name.clone(), u.email.clone());
    sign(&claims, secret)
}

} // verus!
