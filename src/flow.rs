use vstd::prelude::*;

use crate::claims::{issued_view, Claims, ClaimsView, Decoded};
use crate::error::AuthError;
use crate::session::{upserted, SessionRecord, SessionService, SessionView};

verus! {

/// The body of the login callback.
#[derive(Debug, Clone)]
pub struct AuthorizedParams {
    pub code: String,
    pub state: String,
}

/// What the identity provider returned for a code or refresh exchange.
#[derive(Debug, Clone)]
pub struct UpstreamTokenSet {
    pub access_token: String,
    /// `None` where the provider sent no new refresh token.
    pub refresh_token: Option<String>,
    /// Lifetime of the access token in seconds, where the provider sent one.
    pub expires_in: Option<u64>,
}

/// What the interceptor does with a request.
#[derive(Debug, Clone)]
pub enum Step {
    /// No token was presented: the handler decides whether it needs one.
    PassThrough,
    /// The token is valid: the handler runs with these claims.
    Proceed(Claims),
    /// The token expired: refresh the session of this user first.
    Refresh(i32),
    /// The request is refused.
    Reject(AuthError),
}

/// A session that was stored and the signed token issued for it.
#[derive(Debug, Clone)]
pub struct Issued {
    pub session: SessionRecord,
    pub claims: Claims,
    pub token: String,
}

/// The expiry of an upstream access token that lives `expires_in` seconds from
/// `now`, where the provider gave a lifetime and the sum fits.
pub open spec fn upstream_expiry(now: i64, expires_in: Option<u64>) -> Option<i64> {
    match expires_in {
        Some(secs) => if now + secs <= i64::MAX {
            Some((now + secs) as i64)
        } else {
            None
        },
        None => None,
    }
}

/// The record that a successful exchange stores for `user_id`.
pub open spec fn stored_session(
    before: Map<i32, SessionView>,
    fresh: i32,
    user_id: i32,
    access_token: Seq<char>,
    refresh_token: Seq<char>,
    expires_at: i64,
) -> SessionView {
    upserted(
        before,
        SessionView { id: 0, user_id, access_token, refresh_token, expires_at },
        fresh,
    )
}

/// `iss` holds the stored record `rec` and the claims issued at `now` for the
/// user and access token, with the token that signs them with `secret`.
pub open spec fn issued_as(
    iss: Issued,
    rec: SessionView,
    access_token: Seq<char>,
    user_id: i32,
    now: i64,
    secret: Seq<char>,
) -> bool {
    &&& iss.session@ == rec
    &&& iss.claims@ == issued_view(access_token, user_id, now)
    &&& iss.token@ == iss.claims@.token(secret)
}

/// `r` is the step for a request whose token decoded as `d` (`None`: no token).
pub open spec fn step_matches(r: Step, d: Option<Decoded>) -> bool {
    match d {
        None => r is PassThrough,
        Some(Decoded::Valid(c)) => r matches Step::Proceed(p) && p@ == c@,
        Some(Decoded::Expired(c)) => r == Step::Refresh(c.user_id),
        Some(Decoded::Invalid) => r == Step::Reject(AuthError::TokenInvalid),
    }
}

/// The step for a request whose token decoded as `decoded` (`None`: no token).
pub fn step_for(decoded: Option<Decoded>) -> (r: Step)
    ensures
        step_matches(r, decoded),
{
    match decoded {
        None => Step::PassThrough,
        Some(Decoded::Valid(c)) => Step::Proceed(c),
        Some(Decoded::Expired(c)) => Step::Refresh(c.user_id),
        Some(Decoded::Invalid) => Step::Reject(AuthError::TokenInvalid),
    }
}

/// Decides, at time `now`, what to do with a request that presents `token`.
/// A token issued for claims `c` with `secret` proceeds with `c` until its
/// expiry and asks for a refresh of `c`'s user after it; a token that does not
/// verify is rejected as invalid and never refreshed.
pub fn route_request(token: Option<&str>, secret: &str, now: i64) -> (r: Step)
    ensures
        token is None <==> r is PassThrough,
        r is Reject ==> r == Step::Reject(AuthError::TokenInvalid),
        token is Some ==> forall|c: ClaimsView| #[trigger]
            c.token(secret@) == token->0@ ==> if c.exp < now {
                r == Step::Refresh(c.user_id)
            } else {
                r matches Step::Proceed(p) && p@ == c
            },
{
    match token {
        None => step_for(None),
        Some(t) => {
            let d = Claims::decode_at(t, secret, now);
            step_for(Some(d))
        },
    }
}

/// The refresh token to exchange for `user_id`: the one of its stored session.
pub fn refresh_source(store: &SessionService, user_id: i32) -> (r: Result<String, AuthError>)
    requires
        store.wf(),
    ensures
        match r {
            Ok(t) => store@.contains_key(user_id) && t@ == store@[user_id].refresh_token,
            Err(e) => e == AuthError::SessionNotFound && !store@.contains_key(user_id),
        },
{
    match store.find_session_by_user_id(user_id) {
        Some(s) => Ok(s.refresh_token),
        None => Err(AuthError::SessionNotFound),
    }
}

/// Stores the new credential pair of `user_id` and issues its token.
fn establish(
    store: &mut SessionService,
    user_id: i32,
    access_token: String,
    refresh_token: String,
    expires_in: Option<u64>,
    now: i64,
    secret: &str,
) -> (r: Result<Issued, AuthError>)
    requires
        old(store).wf(),
    ensures
        final(store).wf(),
        match upstream_expiry(now, expires_in) {
            None => r == Err::<Issued, AuthError>(AuthError::UpstreamExchangeFailure) && *final(store) == *old(store),
            Some(at) => {
                let rec = stored_session(
                    old(store)@,
                    old(store).fresh_id(),
                    user_id,
                    access_token@,
                    refresh_token@,
                    at,
                );
                if !old(store)@.contains_key(user_id) && !old(store).ids_left() {
                    r == Err::<Issued, AuthError>(AuthError::StorageFailure) && *final(store)
                        == *old(store)
                } else {
                    &&& final(store)@ == old(store)@.insert(user_id, rec)
                    &&& final(store).fresh_id() == if old(store)@.contains_key(user_id) {
                        old(store).fresh_id()
                    } else {
                        (old(store).fresh_id() + 1) as i32
                    }
                    &&& r matches Ok(iss) && issued_as(iss, rec, access_token@, user_id, now, secret@)
                }
            },
        },
{
    let secs = match expires_in {
        Some(s) => s,
        None => return Err(AuthError::UpstreamExchangeFailure),
    };
    let total: i128 = now as i128 + secs as i128;
    if total > i64::MAX as i128 {
        return Err(AuthError::UpstreamExchangeFailure);
    }
    let expires_at = total as i64;
    let model = SessionRecord {
        id: 0,
        user_id,
        access_token: access_token.clone(),
        refresh_token,
        expires_at,
    };
    let session = match store.create_or_update_session(model) {
        Ok(s) => s,
        Err(e) => return Err(e),
    };
    let claims = Claims::issued_at(access_token, user_id, now);
    let token = match claims.encode(secret) {
        Ok(t) => t,
        Err(e) => return Err(e),
    };
    Ok(Issued { session, claims, token })
}

/// Checks the `state` of a login callback against the stored CSRF value and,
/// only where they are equal, hands out the code to exchange.
pub fn authorize_step(params: &AuthorizedParams, stored_csrf: Option<&str>) -> (r: Result<
    String,
    AuthError,
>)
    ensures
        match r {
            Ok(code) => stored_csrf matches Some(s) && s@ == params.state@ && code@
                == params.code@,
            Err(e) => e == AuthError::CsrfMismatch && !(stored_csrf matches Some(s) && s@
                == params.state@),
        },
{
    match stored_csrf {
        None => Err(AuthError::CsrfMismatch),
        Some(s) => {
            let expected = s.to_owned();
            if params.state == expected {
                Ok(params.code.clone())
            } else {
                Err(AuthError::CsrfMismatch)
            }
        },
    }
}

/// Completes a login once the code was exchanged for `tokens`: stores the
/// session of `user_id` and issues its first token. A code exchange must yield
/// a refresh token.
pub fn complete_login(
    store: &mut SessionService,
    user_id: i32,
    tokens: UpstreamTokenSet,
    now: i64,
    secret: &str,
) -> (r: Result<Issued, AuthError>)
    requires
        old(store).wf(),
    ensures
        final(store).wf(),
        match (tokens.refresh_token, upstream_expiry(now, tokens.expires_in)) {
            (Some(refresh), Some(at)) => {
                let rec = stored_session(
                    old(store)@,
                    old(store).fresh_id(),
                    user_id,
                    tokens.access_token@,
                    refresh@,
                    at,
                );
                if !old(store)@.contains_key(user_id) && !old(store).ids_left() {
                    r == Err::<Issued, AuthError>(AuthError::StorageFailure) && *final(store)
                        == *old(store)
                } else {
                    &&& final(store)@ == old(store)@.insert(user_id, rec)
                    &&& final(store).fresh_id() == if old(store)@.contains_key(user_id) {
                        old(store).fresh_id()
                    } else {
                        (old(store).fresh_id() + 1) as i32
                    }
                    &&& r matches Ok(iss) && issued_as(iss, rec, tokens.access_token@, user_id, now, secret@)
                }
            },
            _ => r == Err::<Issued, AuthError>(AuthError::UpstreamExchangeFailure) && *final(store)
                == *old(store),
        },
{
    match tokens.refresh_token {
        None => Err(AuthError::UpstreamExchangeFailure),
        Some(refresh) => establish(
            store,
            user_id,
            tokens.access_token,
            refresh,
            tokens.expires_in,
            now,
            secret,
        ),
    }
}

/// Completes the refresh of an expired session once the provider answered
/// (`None`: the exchange failed): stores the new pair, keeping the previous
/// refresh token where the provider sent none, and issues a new token.
pub fn complete_refresh(
    store: &mut SessionService,
    user_id: i32,
    upstream: Option<UpstreamTokenSet>,
    now: i64,
    secret: &str,
) -> (r: Result<Issued, AuthError>)
    requires
        old(store).wf(),
    ensures
        final(store).wf(),
        final(store).fresh_id() == old(store).fresh_id(),
        !old(store)@.contains_key(user_id) ==> r == Err::<Issued, AuthError>(
            AuthError::SessionNotFound,
        ) && *final(store) == *old(store),
        old(store)@.contains_key(user_id) && upstream is None ==> r == Err::<Issued, AuthError>(
            AuthError::UpstreamExchangeFailure,
        ) && *final(store) == *old(store),
        (old(store)@.contains_key(user_id) && upstream is Some) ==> match upstream_expiry(
            now,
            upstream->0.expires_in,
        ) {
            None => r == Err::<Issued, AuthError>(AuthError::UpstreamExchangeFailure) && *final(store) == *old(store),
            Some(at) => {
                let tokens = upstream->0;
                let refresh = match tokens.refresh_token {
                    Some(t) => t@,
                    None => old(store)@[user_id].refresh_token,
                };
                let rec = stored_session(
                    old(store)@,
                    old(store).fresh_id(),
                    user_id,
                    tokens.access_token@,
                    refresh,
                    at,
                );
                &&& final(store)@ == old(store)@.insert(user_id, rec)
                &&& final(store).fresh_id() == if old(store)@.contains_key(user_id) {
                    old(store).fresh_id()
                } else {
                    (old(store).fresh_id() + 1) as i32
                }
                &&& r matches Ok(iss) && issued_as(iss, rec, tokens.access_token@, user_id, now, secret@)
            },
        },
{
    let previous = match refresh_source(store, user_id) {
        Ok(t) => t,
        Err(e) => return Err(e),
    };
    let tokens = match upstream {
        Some(t) => t,
        None => return Err(AuthError::UpstreamExchangeFailure),
    };
    let refresh = match tokens.refresh_token {
        Some(t) => t,
        None => previous,
    };
    establish(store, user_id, tokens.access_token, refresh, tokens.expires_in, now, secret)
}

} // verus!
