//! The identity resolver: turns the value of an `Authorization` header into a
//! trusted [`Identity`] for the current request, or into a well-defined
//! rejection. A failed verification is never swallowed by continuing as
//! anonymous, and a malformed request can never crash request handling.

use vstd::prelude::*;

use crate::codec::spec_verify;
use crate::codec::verify;
use crate::errors::AuthError;
use crate::ids::check_id_shape;
use crate::ids::is_uuid_str;
use crate::model::Identity;
use crate::model::IdentityV;

verus! {

/// Whether a header value starts with the recognized bearer scheme prefix.
pub open spec fn has_bearer_scheme(h: Seq<char>) -> bool {
    h.len() >= 7 && h.subrange(0, 7) == "Bearer "@
}

/// The token carried by a header value: the rest after a recognized scheme
/// prefix, or the raw value when no prefix is present.
pub open spec fn spec_strip_scheme(h: Seq<char>) -> Seq<char> {
    if has_bearer_scheme(h) {
        h.skip(7)
    } else {
        h
    }
}

/// Strips a recognized bearer scheme prefix, accepting a raw token otherwise.
fn strip_scheme(h: &str) -> (t: &str)
    ensures
        t@ == spec_strip_scheme(h@),
{
    let n = h.unicode_len();
    proof {
        reveal_strlit("Bearer ");
    }
    if n >= 7 {
        let is_bearer = h.get_char(0) == 'B' && h.get_char(1) == 'e' && h.get_char(2) == 'a'
            && h.get_char(3) == 'r' && h.get_char(4) == 'e' && h.get_char(5) == 'r'
            && h.get_char(6) == ' ';
        if is_bearer {
            proof {
                assert(h@.subrange(0, 7) =~= "Bearer "@);
            }
            return h.substring_char(7, n);
        }
        proof {
            assert(!has_bearer_scheme(h@)) by {
                if h@.subrange(0, 7) == "Bearer "@ {
                    assert(h@.subrange(0, 7)[0] == h@[0] && h@.subrange(0, 7)[1] == h@[1]
                        && h@.subrange(0, 7)[2] == h@[2] && h@.subrange(0, 7)[3] == h@[3]
                        && h@.subrange(0, 7)[4] == h@[4] && h@.subrange(0, 7)[5] == h@[5]
                        && h@.subrange(0, 7)[6] == h@[6]);
                    assert(h@[0] == 'B' && h@[1] == 'e' && h@[2] == 'a' && h@[3] == 'r'
                        && h@[4] == 'e' && h@[5] == 'r' && h@[6] == ' ');
                }
            }
        }
    }
    h
}

/// The view of an optional header value.
pub open spec fn header_view(header: Option<&String>) -> Option<Seq<char>> {
    match header {
        None => None,
        Some(h) => Some(h@),
    }
}

/// What resolution makes of an optional `Authorization` header under a
/// secret: the identity carried by a token that verifies and whose identifier
/// is well shaped; an absent header, a token that fails verification, a
/// missing required claim and a malformed identifier all resolve to a
/// rejection.
pub open spec fn spec_resolve(header: Option<Seq<char>>, secret: Seq<u8>) -> Result<IdentityV, AuthError> {
    match header {
        None => Err(AuthError::Unauthorized),
        Some(h) => match spec_verify(spec_strip_scheme(h), secret) {
            None => Err(AuthError::Unauthorized),
            Some(c) => {
                if is_uuid_str(c.id) {
                    Ok(IdentityV { id: c.id, name: c.name, email: c.email })
                } else {
                    Err(AuthError::Unauthorized)
                }
            },
        },
    }
}

/// A request with no `Authorization` header never resolves to an identity,
/// and a request whose token fails verification is rejected as well — under
/// every secret.
pub proof fn lemma_resolver_rejection(header: Option<Seq<char>>, secret: Seq<u8>)
    ensures
        header is None ==> spec_resolve(header, secret) == Err::<IdentityV, AuthError>(
            AuthError::Unauthorized,
        ),
        (header matches Some(h) && spec_verify(spec_strip_scheme(h), secret) is None)
            ==> spec_resolve(header, secret) == Err::<IdentityV, AuthError>(AuthError::Unauthorized),
{
}

/// The per-request verifier: holds the process-wide signing secret, loaded
/// once at startup and read-only afterwards, and resolves each request's
/// `Authorization` header.
pub struct JwtVerifier {
    secret: Vec<u8>,
}

impl View for JwtVerifier {
    type V = Seq<u8>;

    closed spec fn view(&self) -> Seq<u8> {
        self.secret@
    }
}

impl JwtVerifier {
    /// Builds a verifier around the process-wide secret.
    pub fn new(secret: Vec<u8>) -> (v: JwtVerifier)
        ensures
            v@ == secret@,
    {
        JwtVerifier { secret }
    }

    /// Resolves the header of a request that requires an identity. Returns
    /// exactly what [`spec_resolve`] prescribes: the identity on success, and
    /// a rejection for an absent header or an unusable token.
    pub fn resolve(&self, header: Option<&String>) -> (r: Result<Identity, AuthError>)
        ensures
            r matches Ok(ident) ==> spec_resolve(header_view(header), self@) == Ok::<IdentityV, AuthError>(ident@),
            r matches Err(e) ==> spec_resolve(header_view(header), self@) == Err::<IdentityV, AuthError>(e),
    {
        match header {
            None => Err(AuthError::Unauthorized),
            Some(h) => {
                let token = strip_scheme(h.as_str());
                match verify(token, &self.secret) {
                    Err(_) => Err(AuthError::Unauthorized),
                    Ok(claims) => {
                        if check_id_shape(claims.id.as_str()) {
                            Ok(Identity { id: claims.id, name: claims.name, email: claims.email })
                        } else {
                            Err(AuthError::Unauthorized)
                        }
                    },
                }
            },
        }
    }

    /// Resolves the header of a request whose endpoint tolerates anonymous
    /// callers: an absent header leaves the request without an identity, but
    /// a header that is present and unusable still rejects the request.
    pub fn resolve_context(&self, header: Option<&String>) -> (r: Result<Option<Identity>, AuthError>)
        ensures
            header is None ==> (r matches Ok(oi) && oi is None),
            header matches Some(h) ==> (r matches Ok(oi) ==> (oi matches Some(ident)
                && spec_resolve(Some(h@), self@) == Ok::<IdentityV, AuthError>(ident@))),
            header matches Some(h) ==> (r matches Err(e)
                ==> spec_resolve(Some(h@), self@) == Err::<IdentityV, AuthError>(e)),
    {
        match header {
            None => Ok(None),
            Some(h) => match self.resolve(Some(h)) {
                Ok(ident) => Ok(Some(ident)),
                Err(e) => Err(e),
            },
        }
    }
}

} // verus!
