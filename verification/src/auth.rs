//! The request guard's rules: a request is authenticated by an
//! `Authorization: Bearer <access token>` header.

use vstd::prelude::*;
use crate::jwt::AuthUser;
use crate::text::{starts_with_chars, strip_prefix, trim, trimmed};

verus! {

/// The authenticated caller of a protected endpoint.
pub struct Auth {
    pub user_id: i64,
    pub phone: String,
}

/// Why a request is not authenticated.
#[derive(Debug, PartialEq, Eq, Structural)]
pub enum AuthError {
    /// No `Authorization` header.
    Missing,
    /// A header that is not a bearer token, or a token that is refused.
    Invalid,
}

/// The token an `Authorization` header carries: the text after `Bearer `,
/// trimmed.
pub open spec fn bearer_verdict(header: Option<Seq<char>>) -> Result<Seq<char>, AuthError> {
    match header {
        None => Err(AuthError::Missing),
        Some(h) => if starts_with_chars(h, "Bearer "@) {
            Ok(trimmed(h.skip(7)))
        } else {
            Err(AuthError::Invalid)
        },
    }
}

/// Takes the access token out of an `Authorization` header value.
pub fn bearer_token(authorization: Option<&str>) -> (r: Result<&str, AuthError>)
    ensures
        bearer_verdict(
            match authorization {
                Some(h) => Some(h@),
                None => None,
            },
        ) == match r {
            Ok(t) => Ok(t@),
            Err(e) => Err(e),
        },
{
    let header = match authorization {
        None => return Err(AuthError::Missing),
        Some(h) => h,
    };
    proof {
        reveal_strlit("Bearer ");
    }
    match strip_prefix(header, "Bearer ") {
        Some(rest) => Ok(trim(rest)),
        None => Err(AuthError::Invalid),
    }
}

/// The guard's answer once the token has been checked: the user it names,
/// or `Invalid` whatever the reason.
pub fn auth_from_verification(verified: Result<AuthUser, String>) -> (r: Result<Auth, AuthError>)
    ensures
        match verified {
            Ok(u) => r matches Ok(a) && a.user_id == u.user_id && a.phone@ == u.phone@,
            Err(_) => r == Err::<Auth, AuthError>(AuthError::Invalid),
        },
{
    match verified {
        Ok(user) => Ok(Auth { user_id: user.user_id, phone: user.phone }),
        Err(_) => Err(AuthError::Invalid),
    }
}

/// A header written as `Bearer ` and a token is read back as that token, trimmed.
pub proof fn lemma_bearer_roundtrip(token: Seq<char>)
    ensures
        bearer_verdict(Some("Bearer "@ + token)) == Ok::<Seq<char>, AuthError>(trimmed(token)),
{
    reveal_strlit("Bearer ");
    let h = "Bearer "@ + token;
    assert(h.subrange(0, 7) =~= "Bearer "@);
    assert(h.skip(7) =~= token);
}

/// A header that does not start with `Bearer ` is refused as invalid.
pub proof fn lemma_non_bearer_refused(header: Seq<char>)
    requires
        !starts_with_chars(header, "Bearer "@),
    ensures
        bearer_verdict(Some(header)) == Err::<Seq<char>, AuthError>(AuthError::Invalid),
{
}

} // verus!
