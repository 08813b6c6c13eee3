use vstd::prelude::*;

use crate::error::AuthError;

verus! {

/// The error type of `jsonwebtoken`, carried through without being looked into.
#[verifier::external_type_specification]
#[verifier::external_body]
pub struct ExJwtError(jsonwebtoken::errors::Error);

/// Seconds for which a freshly issued session token stays valid (seven hours).
pub const TOKEN_LIFETIME: i64 = 25200;

/// The signed token that `jsonwebtoken::encode` produces, with the default HS256
/// header, for the claims object `{exp, access_token, user_id}` and the secret.
pub uninterp spec fn token_of(exp: i64, access_token: Seq<char>, user_id: i32, secret: Seq<char>) -> Seq<char>;

/// The payload of a signed session token.
#[derive(Debug, Clone)]
pub struct Claims {
    /// Absolute expiry, in seconds since the epoch.
    pub exp: i64,
    /// The upstream bearer credential carried by the token.
    pub access_token: String,
    /// The upstream identity provider's id of the user.
    pub user_id: i32,
}

pub struct ClaimsView {
    pub exp: i64,
    pub access_token: Seq<char>,
    pub user_id: i32,
}

impl View for Claims {
    type V = ClaimsView;

    open spec fn view(&self) -> ClaimsView {
        ClaimsView { exp: self.exp, access_token: self.access_token@, user_id: self.user_id }
    }
}

impl ClaimsView {
    /// The token that signing these claims with `secret` gives.
    pub open spec fn token(self, secret: Seq<char>) -> Seq<char> {
        token_of(self.exp, self.access_token, self.user_id, secret)
    }
}

/// The claim fields as read back from a token whose signature verified; a field
/// is `None` where the payload lacks it or holds a value of another JSON type.
#[derive(Debug, Clone)]
pub struct TokenFields {
    pub exp: Option<i64>,
    pub access_token: Option<String>,
    pub user_id: Option<i64>,
}

pub struct TokenFieldsView {
    pub exp: Option<i64>,
    pub access_token: Option<Seq<char>>,
    pub user_id: Option<i64>,
}

impl View for TokenFields {
    type V = TokenFieldsView;

    open spec fn view(&self) -> TokenFieldsView {
        TokenFieldsView {
            exp: self.exp,
            access_token: match self.access_token {
                Some(s) => Some(s@),
                None => None,
            },
            user_id: self.user_id,
        }
    }
}

/// What decoding a token gives: valid claims, claims whose expiry has passed
/// (their signature verified, so they may drive a refresh), or a rejection.
#[derive(Debug, Clone)]
pub enum Decoded {
    Valid(Claims),
    Expired(Claims),
    Invalid,
}

/// The expiry of claims issued at `now`: `now` plus the lifetime, held at the
/// largest timestamp where that sum would not fit.
pub open spec fn expiry_after_issue(now: i64) -> i64 {
    if now <= i64::MAX - TOKEN_LIFETIME {
        (now + TOKEN_LIFETIME) as i64
    } else {
        i64::MAX
    }
}

/// The claims issued at `now` for a user and an upstream access token.
pub open spec fn issued_view(access_token: Seq<char>, user_id: i32, now: i64) -> ClaimsView {
    ClaimsView { exp: expiry_after_issue(now), access_token, user_id }
}

/// The claims that the fields of a verified token make up, if they are complete
/// and the user id fits its type.
pub open spec fn claims_of_fields(f: TokenFieldsView) -> Option<ClaimsView> {
    match (f.exp, f.access_token, f.user_id) {
        (Some(exp), Some(access_token), Some(uid)) => if i32::MIN <= uid <= i32::MAX {
            Some(ClaimsView { exp, access_token, user_id: uid as i32 })
        } else {
            None
        },
        _ => None,
    }
}

/// `r` is the outcome of decoding, at time `now`, a token that carries `c`:
/// expired exactly when its expiry lies before `now`, with the claims kept.
pub open spec fn decoded_as(r: Decoded, c: ClaimsView, now: i64) -> bool {
    if c.exp < now {
        r matches Decoded::Expired(d) && d@ == c
    } else {
        r matches Decoded::Valid(d) && d@ == c
    }
}

/// The outcome of decoding at `now` a token whose checked fields are `fields`
/// (`None`: its signature or structure did not verify).
pub open spec fn classified_as(r: Decoded, fields: Option<TokenFieldsView>, now: i64) -> bool {
    match fields {
        None => r is Invalid,
        Some(f) => match claims_of_fields(f) {
            None => r is Invalid,
            Some(c) => decoded_as(r, c, now),
        },
    }
}

/// `r` gives back exactly the fields of a token issued for them.
pub open spec fn opened_as(
    r: Result<TokenFields, jsonwebtoken::errors::Error>,
    exp: i64,
    access_token: Seq<char>,
    user_id: i32,
) -> bool {
    r matches Ok(f) && f@ == (TokenFieldsView {
        exp: Some(exp),
        access_token: Some(access_token),
        user_id: Some(user_id as i64),
    })
}

/// `t` is the token `issued` with one character of its signature segment (the
/// text after its last `.`) replaced by another character that is not a `.`.
pub open spec fn signature_altered(t: Seq<char>, issued: Seq<char>) -> bool {
    exists|i: int|
        #![trigger t[i]]
        {
            &&& 0 <= i < issued.len()
            &&& t.len() == issued.len()
            &&& t[i] != issued[i]
            &&& t[i] != '.'
            &&& forall|j: int| 0 <= j < issued.len() && j != i ==> t[j] == issued[j]
            &&& forall|j: int| i <= j < issued.len() ==> issued[j] != '.'
        }
}

/// `r` is a failed check.
pub open spec fn refused(r: Result<TokenFields, jsonwebtoken::errors::Error>) -> bool {
    r is Err
}

/// Relies on `chrono::Utc::now` and `DateTime::timestamp`: the current time in
/// whole seconds since the epoch. Nothing is promised of its value.
#[verifier::external_body]
fn clock_seconds() -> (r: i64) {
    chrono::Utc::now().timestamp()
}

/// Relies on `jsonwebtoken::encode` with `Header::default()` (HS256) and an HMAC
/// key from the secret's bytes: it returns the signed token of the claims
/// object, which depends on its arguments alone. It cannot fail here: the key
/// is an HMAC key as the header's algorithm asks, a map of strings and numbers
/// always serialises, and HMAC signing has no error case.
#[verifier::external_body]
fn sign_claims(exp: i64, access_token: &str, user_id: i32, secret: &str) -> (r: Result<
    String,
    jsonwebtoken::errors::Error,
>)
    ensures
        r is Ok,
        r matches Ok(t) ==> t@ == token_of(exp, access_token@, user_id, secret@),
{
    let mut payload = serde_json::Map::new();
    payload.insert("exp".to_string(), serde_json::Value::from(exp));
    payload.insert("access_token".to_string(), serde_json::Value::from(access_token));
    payload.insert("user_id".to_string(), serde_json::Value::from(user_id));
    let key = jsonwebtoken::EncodingKey::from_secret(secret.as_bytes());
    jsonwebtoken::encode(&jsonwebtoken::Header::default(), &payload, &key)
}

/// Relies on `jsonwebtoken::decode` for HS256 with the expiry check and the
/// required-claims check switched off: it verifies the signature and the
/// structure, and hands back the payload's fields through `serde_json`'s
/// `as_i64` and `as_str`. A token that `jsonwebtoken::encode` made of such a
/// claims object with the same secret comes back with exactly its fields. For
/// HMAC, `jsonwebtoken::crypto::verify` signs the message again and compares
/// the base64 text of the two signatures, so such a token with one character
/// of its signature changed fails.
#[verifier::external_body]
fn open_token(token: &str, secret: &str) -> (r: Result<TokenFields, jsonwebtoken::errors::Error>)
    ensures
        forall|exp: i64, access_token: Seq<char>, user_id: i32|
            token@ == #[trigger] token_of(exp, access_token, user_id, secret@) ==> opened_as(
                r,
                exp,
                access_token,
                user_id,
            ),
        forall|exp: i64, access_token: Seq<char>, user_id: i32|
            signature_altered(token@, #[trigger] token_of(exp, access_token, user_id, secret@))
                ==> refused(r),
{
    let mut validation = jsonwebtoken::Validation::new(jsonwebtoken::Algorithm::HS256);
    validation.validate_exp = false;
    validation.required_spec_claims.clear();
    let key = jsonwebtoken::DecodingKey::from_secret(secret.as_bytes());
    let data = jsonwebtoken::decode::<serde_json::Map<String, serde_json::Value>>(token, &key, &validation)?;
    let m = data.claims;
    Ok(TokenFields {
        exp: m.get("exp").and_then(serde_json::Value::as_i64),
        access_token: m.get("access_token").and_then(serde_json::Value::as_str).map(String::from),
        user_id: m.get("user_id").and_then(serde_json::Value::as_i64),
    })
}

impl Claims {
    /// Claims for `user_id` and `access_token`, issued at time `now`.
    pub fn issued_at(access_token: String, user_id: i32, now: i64) -> (r: Claims)
        ensures
            r@ == issued_view(access_token@, user_id, now),
    {
        let exp = if now <= i64::MAX - TOKEN_LIFETIME {
            now + TOKEN_LIFETIME
        } else {
            i64::MAX
        };
        Claims { exp, access_token, user_id }
    }

    /// Claims for `user_id` and `access_token`, issued now.
    pub fn new(access_token: String, user_id: i32) -> (r: Claims)
        ensures
            r.access_token@ == access_token@,
            r.user_id == user_id,
            exists|now: i64| r@ == #[trigger] issued_view(access_token@, user_id, now),
    {
        let now = clock_seconds();
        Claims::issued_at(access_token, user_id, now)
    }

    /// Signs the claims with `secret`. Signing always succeeds, and equal
    /// claims with equal secrets give equal tokens.
    pub fn encode(&self, secret: &str) -> (r: Result<String, AuthError>)
        ensures
            r matches Ok(t) && t@ == self@.token(secret@),
    {
        match sign_claims(self.exp, self.access_token.as_str(), self.user_id, secret) {
            Ok(t) => Ok(t),
            Err(_) => Err(AuthError::TokenEncoding),
        }
    }

    /// Classifies, at time `now`, a token whose checked fields are `fields`
    /// (`None` where its signature or structure did not verify).
    pub fn classify(fields: Option<TokenFields>, now: i64) -> (r: Decoded)
        ensures
            classified_as(
                r,
                match fields {
                    Some(f) => Some(f@),
                    None => None,
                },
                now,
            ),
    {
        match fields {
            None => Decoded::Invalid,
            Some(f) => match (f.exp, f.access_token, f.user_id) {
                (Some(exp), Some(access_token), Some(uid)) => {
                    if uid < i32::MIN as i64 || uid > i32::MAX as i64 {
                        Decoded::Invalid
                    } else {
                        let c = Claims { exp, access_token, user_id: uid as i32 };
                        if exp < now {
                            Decoded::Expired(c)
                        } else {
                            Decoded::Valid(c)
                        }
                    }
                },
                _ => Decoded::Invalid,
            },
        }
    }

    /// Decodes `token` with `secret` at time `now`. A token issued for claims `c`
    /// with the same secret decodes to `c`: valid while `now` has not passed its
    /// expiry, expired after.
    pub fn decode_at(token: &str, secret: &str, now: i64) -> (r: Decoded)
        ensures
            forall|c: ClaimsView| #[trigger]
                c.token(secret@) == token@ ==> decoded_as(r, c, now),
            forall|c: ClaimsView| #[trigger]
                signature_altered(token@, c.token(secret@)) ==> r is Invalid,
            r matches Decoded::Valid(c) ==> c.exp >= now,
            r matches Decoded::Expired(c) ==> c.exp < now,
    {
        let fields = match open_token(token, secret) {
            Ok(f) => Some(f),
            Err(_) => None,
        };
        Claims::classify(fields, now)
    }

    /// Decodes `token` with `secret` at the current time.
    pub fn decode(token: &str, secret: &str) -> (r: Decoded)
        ensures
            forall|c: ClaimsView| #[trigger]
                c.token(secret@) == token@ ==> exists|now: i64| decoded_as(r, c, now),
            forall|c: ClaimsView| #[trigger]
                signature_altered(token@, c.token(secret@)) ==> r is Invalid,
    {
        let now = clock_seconds();
        Claims::decode_at(token, secret, now)
    }
}

/// A token decoded within its validity window gives back exactly the claims it
/// was issued for.
pub proof fn lemma_valid_round_trip(c: ClaimsView, now: i64, r: Decoded)
    requires
        now <= c.exp,
        decoded_as(r, c, now),
    ensures
        r matches Decoded::Valid(d) && d@ == c,
{
}

/// Claims issued at some time decode as valid, with their user id and access
/// token, at any time up to their expiry.
pub proof fn lemma_issue_then_decode(
    access_token: Seq<char>,
    user_id: i32,
    issued: i64,
    now: i64,
    r: Decoded,
)
    requires
        issued <= now <= expiry_after_issue(issued),
        decoded_as(r, issued_view(access_token, user_id, issued), now),
    ensures
        r matches Decoded::Valid(d) && d.user_id == user_id && d.access_token@ == access_token,
{
}

/// Claims whose expiry has passed decode as expired, never as invalid, and keep
/// the user id they carry.
pub proof fn lemma_expired_keeps_user(c: ClaimsView, now: i64, r: Decoded)
    requires
        c.exp < now,
        decoded_as(r, c, now),
    ensures
        r matches Decoded::Expired(d) && d.user_id == c.user_id,
        !(r is Invalid),
{
}

} // verus!
