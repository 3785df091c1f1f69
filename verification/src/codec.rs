//! The token codec: signs a set of identity claims into an opaque bearer
//! string using the process-wide secret, and verifies a bearer string back
//! into the exact claims that were signed, rejecting tampered or malformed
//! tokens.

use vstd::prelude::*;
use vstd::string::StringExecFns;

use crate::errors::AuthError;
use crate::model::Claims;
use crate::model::ClaimsV;

verus! {

/// The bearer string that signing the claims (`id`, `name`, `email`) under
/// `secret` produces. Signing is a pure computation, so the token is a fixed
/// value for fixed arguments; nothing beyond that is assumed of it.
pub uninterp spec fn token_of(id: Seq<char>, name: Seq<char>, email: Seq<char>, secret: Seq<u8>) -> Seq<char>;

/// What signature verification under `secret` makes of `token`: the claim
/// pairs embedded in it, in ascending key order, or nothing when the token is
/// malformed, carries a different algorithm, or fails the signature check.
pub uninterp spec fn decode_of(token: Seq<char>, secret: Seq<u8>) -> Option<Seq<(Seq<char>, Seq<char>)>>;

/// The values of a sequence of claim pairs.
pub open spec fn pairs_view(pairs: Seq<(String, String)>) -> Seq<(Seq<char>, Seq<char>)> {
    pairs.map_values(|p: (String, String)| (p.0@, p.1@))
}

/// The value bound to `key` in `pairs`, at its first occurrence.
pub open spec fn lookup_pair(pairs: Seq<(Seq<char>, Seq<char>)>, key: Seq<char>) -> Option<Seq<char>>
    decreases pairs.len(),
{
    if pairs.len() == 0 {
        None
    } else if pairs[0].0 == key {
        Some(pairs[0].1)
    } else {
        lookup_pair(pairs.drop_first(), key)
    }
}

/// The claims that verification recovers from `token` under `secret`: the
/// values of the three required claims, when the signature checks out and all
/// three are present; nothing otherwise.
pub open spec fn spec_verify(token: Seq<char>, secret: Seq<u8>) -> Option<ClaimsV> {
    match decode_of(token, secret) {
        None => None,
        Some(pairs) => {
            match (lookup_pair(pairs, "id"@), lookup_pair(pairs, "name"@), lookup_pair(pairs, "email"@)) {
                (Some(id), Some(name), Some(email)) => Some(ClaimsV { id, name, email }),
                _ => None,
            }
        }
    }
}

/// Relies on jwt's `SignWithKey` for a claims map under an HMAC-SHA256 key
/// (hmac, sha2): signing is a pure function of the map and the key, and
/// verifying the produced token with the same key hands the map back, its
/// pairs in ascending key order. The call cannot fail: an HMAC key is built
/// from a secret of any length, a map with string keys and values always
/// serializes, the header carries the key's own algorithm tag, and HMAC
/// signing returns no error.
#[verifier::external_body]
fn sign_with_secret(claims: &Claims, secret: &Vec<u8>) -> (t: String)
    ensures
        t@ == token_of(claims.id@, claims.name@, claims.email@, secret@),
        decode_of(t@, secret@) == Some(
            seq![("email"@, claims.email@), ("id"@, claims.id@), ("name"@, claims.name@)],
        ),
{
    let key: hmac::Hmac<sha2::Sha256> = hmac::Mac::new_from_slice(secret.as_slice())
        .expect("an HMAC key accepts a secret of any length");
    let mut map = std::collections::BTreeMap::new();
    map.insert("id", claims.id.as_str());
    map.insert("name", claims.name.as_str());
    map.insert("email", claims.email.as_str());
    jwt::SignWithKey::sign_with_key(map, &key)
        .expect("a map with string keys and values always signs")
}

/// Relies on jwt's `VerifyWithKey` for a string token under an HMAC-SHA256
/// key (hmac, sha2): verification is a pure function of the token and the
/// key; it succeeds exactly on the tokens the key accepts, handing back their
/// claim pairs in ascending key order. An HMAC key is built from a secret of
/// any length, so building it cannot fail.
#[verifier::external_body]
fn verify_with_secret(token: &str, secret: &Vec<u8>) -> (r: Result<Vec<(String, String)>, ()>)
    ensures
        r is Ok <==> decode_of(token@, secret@) is Some,
        r matches Ok(pairs) ==> Some(pairs_view(pairs@)) == decode_of(token@, secret@),
{
    let key: hmac::Hmac<sha2::Sha256> = match hmac::Mac::new_from_slice(secret.as_slice()) {
        Ok(k) => k,
        Err(_) => return Err(()),
    };
    let map: std::collections::BTreeMap<String, String> =
        match jwt::VerifyWithKey::verify_with_key(token, &key) {
            Ok(m) => m,
            Err(_) => return Err(()),
        };
    Ok(map.into_iter().collect())
}

/// Finds the first pair bound to `key`.
fn lookup(pairs: &Vec<(String, String)>, key: &String) -> (r: Option<String>)
    ensures
        r matches Some(v) ==> lookup_pair(pairs_view(pairs@), key@) == Some(v@),
        r is None ==> lookup_pair(pairs_view(pairs@), key@) is None,
{
    let ghost all = pairs_view(pairs@);
    proof {
        assert(all.skip(0) =~= all);
    }
    let mut i: usize = 0;
    while i < pairs.len()
        invariant
            0 <= i <= pairs@.len(),
            all == pairs_view(pairs@),
            lookup_pair(all, key@) == lookup_pair(all.skip(i as int), key@),
        decreases pairs@.len() - i,
    {
        if pairs[i].0 == *key {
            assert(all.skip(i as int)[0] == all[i as int]);
            return Some(pairs[i].1.clone());
        }
        proof {
            assert(all.skip(i as int)[0] == all[i as int]);
            assert(all.skip(i as int).drop_first() =~= all.skip(i + 1));
        }
        i += 1;
    }
    proof {
        assert(all.skip(pairs@.len() as int) =~= Seq::<(Seq<char>, Seq<char>)>::empty());
    }
    None
}

/// The three claim pairs that signing embeds, looked up by each required key.
proof fn lemma_lookup_signed(id: Seq<char>, name: Seq<char>, email: Seq<char>)
    ensures
        lookup_pair(seq![("email"@, email), ("id"@, id), ("name"@, name)], "id"@) == Some(id),
        lookup_pair(seq![("email"@, email), ("id"@, id), ("name"@, name)], "name"@) == Some(name),
        lookup_pair(seq![("email"@, email), ("id"@, id), ("name"@, name)], "email"@) == Some(email),
{
    reveal_strlit("id");
    reveal_strlit("name");
    reveal_strlit("email");
    let s = seq![("email"@, email), ("id"@, id), ("name"@, name)];
    let s1 = seq![("id"@, id), ("name"@, name)];
    let s2 = seq![("name"@, name)];
    assert(s.drop_first() =~= s1);
    assert(s1.drop_first() =~= s2);
    assert("email"@.len() == 5 && "id"@.len() == 2 && "name"@.len() == 4);
    assert("email"@ != "id"@ && "email"@ != "name"@ && "id"@ != "name"@);
    assert(lookup_pair(s2, "name"@) == Some(name));
    assert(lookup_pair(s1, "id"@) == Some(id));
    assert(lookup_pair(s1, "name"@) == Some(name));
    assert(lookup_pair(s, "id"@) == Some(id));
    assert(lookup_pair(s, "name"@) == Some(name));
    assert(lookup_pair(s, "email"@) == Some(email));
}

/// Signs `claims` into a bearer token under `secret`. Signing always
/// succeeds: the secret is at hand as plain bytes and claims always encode.
///
/// The token is exactly the encoding of these claims under this secret and —
/// the round-trip law — verifying it with the same secret recovers exactly
/// the claims that were signed.
pub fn sign(claims: &Claims, secret: &Vec<u8>) -> (r: Result<String, AuthError>)
    ensures
        r matches Ok(t) && t@ == token_of(claims@.id, claims@.name, claims@.email, secret@),
        r matches Ok(t) && spec_verify(t@, secret@) == Some(claims@),
{
    let t = sign_with_secret(claims, secret);
    proof {
        lemma_lookup_signed(claims@.id, claims@.name, claims@.email);
    }
    Ok(t)
}

/// Verifies a bearer token under `secret` and returns the claims it carries.
///
/// Succeeds exactly when the token passes signature verification and holds
/// all three required claims; the result is then the exact claims mapping
/// that was signed. Every failure is reported as an invalid token.
pub fn verify(token: &str, secret: &Vec<u8>) -> (r: Result<Claims, AuthError>)
    ensures
        r is Ok <==> spec_verify(token@, secret@) is Some,
        r matches Ok(c) ==> spec_verify(token@, secret@) == Some(c@),
        r matches Err(e) ==> e == AuthError::InvalidToken,
{
    let pairs = match verify_with_secret(token, secret) {
        Ok(p) => p,
        Err(()) => return Err(AuthError::InvalidToken),
    };
    let id = match lookup(&pairs, &String::from_str("id")) {
        Some(v) => v,
        None => return Err(AuthError::InvalidToken),
    };
    let name = match lookup(&pairs, &String::from_str("name")) {
        Some(v) => v,
        None => return Err(AuthError::InvalidToken),
    };
    let email = match lookup(&pairs, &String::from_str("email")) {
        Some(v) => v,
        None => return Err(AuthError::InvalidToken),
    };
    Ok(Claims { id, name, email })
}

} // verus!
