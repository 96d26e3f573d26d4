use vstd::prelude::*;

use crate::error_handler::AppError;
use crate::models::{CurrentUser, UserRow};
use crate::text::{has_prefix, strip_prefix};
use crate::models::LATEST_INSTANT_SECS;
use crate::utils::jwt::{hs256_jwt_payload, token_accepted_at, verify_token, TokenError};
use vstd::string::StringSliceAdditionalSpecFns;

verus! {

/// The scheme that the `Authorization` header must name.
pub const BEARER_PREFIX: &'static str = "Bearer ";

/// The bearer token that an authenticated request carries.
#[derive(Clone, Debug)]
pub struct AuthContext {
    pub token: String,
}

/// The token of an `Authorization` header of the form `Bearer <token>`; a
/// missing header, or one of another form, is refused as unauthorized.
pub fn bearer_token(header: Option<&str>) -> (r: Result<String, AppError>)
    ensures
        match header {
            None => r == Err::<String, AppError>(AppError::Unauthorized),
            Some(h) => if has_prefix(h@, BEARER_PREFIX@) {
                r matches Ok(t) && t@ == h@.subrange(BEARER_PREFIX@.len() as int, h@.len() as int)
            } else {
                r == Err::<String, AppError>(AppError::Unauthorized)
            },
        },
{
    match header {
        None => Err(AppError::Unauthorized),
        Some(h) => match strip_prefix(h, BEARER_PREFIX) {
            Some(t) => Ok(t),
            None => Err(AppError::Unauthorized),
        },
    }
}

/// The context that the authentication layer attaches to a request with a
/// valid `Authorization` header.
pub fn auth_context(header: Option<&str>) -> (r: Result<AuthContext, AppError>)
    ensures
        match header {
            None => r == Err::<AuthContext, AppError>(AppError::Unauthorized),
            Some(h) => if has_prefix(h@, BEARER_PREFIX@) {
                r matches Ok(c) && c.token@ == h@.subrange(BEARER_PREFIX@.len() as int, h@.len() as int)
            } else {
                r == Err::<AuthContext, AppError>(AppError::Unauthorized)
            },
        },
{
    match bearer_token(header) {
        Ok(token) => Ok(AuthContext { token }),
        Err(e) => Err(e),
    }
}

/// The verified claims (as JSON text) of the token in the request's context,
/// checked against `jwt_secret` at the current time; a request without
/// context, or whose token is malformed, wrongly signed or expired, is
/// unauthorized, and a clock that cannot be read is our failure. An accepted
/// token gives its payload.
pub fn authenticate(ctx: Option<&AuthContext>, jwt_secret: &str) -> (r: Result<String, AppError>)
    ensures
        ctx is None ==> r == Err::<String, AppError>(AppError::Unauthorized),
        ctx matches Some(c) ==> (r matches Ok(p) ==> hs256_jwt_payload(c.token@, jwt_secret.spec_bytes()) == Some(p@)),
        ctx matches Some(c) ==> (hs256_jwt_payload(c.token@, jwt_secret.spec_bytes()) is None ==> r == Err::<String, AppError>(AppError::Unauthorized)),
        ctx matches Some(c) ==> (r is Ok ==> exists|now: int|
            0 <= now <= LATEST_INSTANT_SECS && #[trigger] token_accepted_at(c.token@, jwt_secret.spec_bytes(), now)),
        ctx matches Some(c) ==> (r == Err::<String, AppError>(AppError::Unauthorized) ==> exists|now: int|
            0 <= now <= LATEST_INSTANT_SECS && !#[trigger] token_accepted_at(c.token@, jwt_secret.spec_bytes(), now)),
        r == Err::<String, AppError>(AppError::Internal) ==> (ctx matches Some(c) && hs256_jwt_payload(c.token@, jwt_secret.spec_bytes()) is Some),
        r is Err ==> (r == Err::<String, AppError>(AppError::Unauthorized) || r == Err::<String, AppError>(AppError::Internal)),
{
    match ctx {
        None => Err(AppError::Unauthorized),
        Some(c) => match verify_token(c.token.as_str(), jwt_secret) {
            Ok(claims) => {
                proof {
                    let now = choose|now: int|
                        0 <= now <= LATEST_INSTANT_SECS && #[trigger] token_accepted_at(c.token@, jwt_secret.spec_bytes(), now);
                    assert(token_accepted_at(c.token@, jwt_secret.spec_bytes(), now));
                }
                Ok(claims)
            },
            Err(TokenError::Rejected) => {
                proof {
                    let now = choose|now: int|
                        0 <= now <= LATEST_INSTANT_SECS && !#[trigger] token_accepted_at(c.token@, jwt_secret.spec_bytes(), now);
                    assert(!token_accepted_at(c.token@, jwt_secret.spec_bytes(), now));
                }
                Err(AppError::Unauthorized)
            },
            Err(TokenError::ClockUnavailable) => Err(AppError::Internal),
        },
    }
}

/// The current user from the account that the token names: a missing
/// account is refused as invalid credentials, a deactivated one as such.
pub fn current_user_from_row(row: Option<UserRow>) -> (r: Result<CurrentUser, AppError>)
    ensures
        match row {
            None => r == Err::<CurrentUser, AppError>(AppError::InvalidCredentials),
            Some(u) => if u.deactivated_at is Some {
                r == Err::<CurrentUser, AppError>(AppError::DeactivatedAccount)
            } else {
                r == Ok::<CurrentUser, AppError>(
                    CurrentUser {
                        id: u.id,
                        username: u.username,
                        email: u.email,
                        status: u.status,
                        deactivated_at: u.deactivated_at,
                        created_at: u.created_at,
                        updated_at: u.updated_at,
                    },
                )
            },
        },
{
    match row {
        None => Err(AppError::InvalidCredentials),
        Some(u) => {
            if u.deactivated_at.is_some() {
                return Err(AppError::DeactivatedAccount);
            }
            let UserRow { id, email, username, password_hash: _, status, deactivated_at, created_at, updated_at } = u;
            Ok(CurrentUser { id, username, email, status, deactivated_at, created_at, updated_at })
        },
    }
}

/// A header made of [`BEARER_PREFIX`] and a token is accepted by
/// [`bearer_token`], which gives back exactly that token.
pub proof fn bearer_header_round_trip(token: Seq<char>)
    ensures
        has_prefix(BEARER_PREFIX@ + token, BEARER_PREFIX@),
        (BEARER_PREFIX@ + token).subrange(BEARER_PREFIX@.len() as int, (BEARER_PREFIX@ + token).len() as int)
            == token,
{
    assert((BEARER_PREFIX@ + token).subrange(0, BEARER_PREFIX@.len() as int) =~= BEARER_PREFIX@);
    assert((BEARER_PREFIX@ + token).subrange(
        BEARER_PREFIX@.len() as int,
        (BEARER_PREFIX@ + token).len() as int,
    ) =~= token);
}

} // verus!
