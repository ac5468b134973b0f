//! The API's own session tokens: HS256 JWTs with an access and a refresh
//! lifetime, and the check an access token's claims must pass.

use vstd::prelude::*;
use crate::text::{decimal_text, i64_to_text, text_eq, trim, trimmed};

verus! {

/// Lifetime of an access token, in seconds.
pub const ACCESS_TOKEN_TTL_SECONDS: u64 = 15 * 60;

/// Lifetime of a refresh token, in seconds.
pub const REFRESH_TOKEN_TTL_SECONDS: u64 = 30 * 24 * 60 * 60;

/// The claims a session token carries.
pub struct Claims {
    pub sub: String,
    pub token_type: String,
    pub user_id: i64,
    pub phone: String,
    pub iat: u64,
    pub exp: u64,
}

/// The user an accepted access token speaks for.
#[derive(Debug, Clone)]
pub struct AuthUser {
    pub user_id: i64,
    pub phone: String,
}

/// The tokens handed out at login.
pub struct TokenPair {
    pub access_token: String,
    pub refresh_token: String,
    pub token_type: String,
    pub access_expires_in: u64,
    pub refresh_expires_in: u64,
}

/// The signature algorithms the API's tokens use.
#[derive(Debug, Clone, Copy, PartialEq, Eq, Structural)]
pub enum SigningAlgorithm {
    HS256,
    RS256,
}

/// How a token is to be validated when it is decoded: the one algorithm
/// accepted, whether expiry is checked, and the audience and issuer it
/// must name, if any.
#[derive(Debug)]
pub struct TokenValidation {
    pub algorithm: SigningAlgorithm,
    pub validate_exp: bool,
    pub audience: Option<String>,
    pub issuer: Option<String>,
}

/// How the API's access tokens are validated: HS256 only, with expiry
/// checked, and no audience or issuer.
pub fn access_token_validation() -> (r: TokenValidation)
    ensures
        r.algorithm == SigningAlgorithm::HS256,
        r.validate_exp,
        r.audience is None,
        r.issuer is None,
{
    TokenValidation {
        algorithm: SigningAlgorithm::HS256,
        validate_exp: true,
        audience: None,
        issuer: None,
    }
}

/// What reading a required setting gives: the value, or an error naming it.
pub open spec fn required_setting(name: Seq<char>, value: Option<Seq<char>>) -> Result<
    Seq<char>,
    Seq<char>,
> {
    match value {
        None => Err(name + " is not set"@),
        Some(v) => if trimmed(v).len() == 0 {
            Err(name + " is empty"@)
        } else {
            Ok(v)
        },
    }
}

/// The view of a `Result` of strings.
pub open spec fn text_result(r: Result<String, String>) -> Result<Seq<char>, Seq<char>> {
    match r {
        Ok(v) => Ok(v@),
        Err(e) => Err(e@),
    }
}

/// Checks the value of the setting `name`: absent or blank is an error.
pub fn get_required_env(name: &str, value: Option<String>) -> (r: Result<String, String>)
    ensures
        text_result(r) == required_setting(name@, match value {
            Some(v) => Some(v@),
            None => None,
        }),
{
    match value {
        None => Err(String::from_str(name).concat(" is not set")),
        Some(v) => {
            if trim(v.as_str()).unicode_len() == 0 {
                Err(String::from_str(name).concat(" is empty"))
            } else {
                Ok(v)
            }
        },
    }
}

/// `c` holds the claims of a `token_type` token for this user, issued at
/// `now` and valid for `ttl` seconds.
pub open spec fn claims_issued(
    c: Claims,
    user_id: i64,
    phone: Seq<char>,
    token_type: Seq<char>,
    now: u64,
    ttl: u64,
) -> bool {
    &&& c.sub@ == decimal_text(user_id as int)
    &&& c.token_type@ == token_type
    &&& c.user_id == user_id
    &&& c.phone@ == phone
    &&& c.iat == now
    &&& c.exp == now + ttl
}

/// The claims of a `token_type` token for this user, issued at `now`,
/// valid for `ttl` seconds.
pub fn build_claims(user_id: i64, phone: &str, token_type: &str, now: u64, ttl: u64) -> (c: Claims)
    requires
        now + ttl <= u64::MAX,
    ensures
        claims_issued(c, user_id, phone@, token_type@, now, ttl),
{
    Claims {
        sub: i64_to_text(user_id),
        token_type: String::from_str(token_type),
        user_id,
        phone: String::from_str(phone),
        iat: now,
        exp: now + ttl,
    }
}

/// The compact HS256 token that `jsonwebtoken::encode` makes, with the
/// default header, of a JSON object holding these claims in this order,
/// signed with `secret`.
pub uninterp spec fn hs256_token(
    sub: Seq<char>,
    token_type: Seq<char>,
    user_id: i64,
    phone: Seq<char>,
    iat: u64,
    exp: u64,
    secret: Seq<char>,
) -> Seq<char>;

/// The token `jsonwebtoken` makes of `c` with `secret`.
pub open spec fn signed_claims(c: Claims, secret: Seq<char>) -> Seq<char> {
    hs256_token(c.sub@, c.token_type@, c.user_id, c.phone@, c.iat, c.exp, secret)
}

/// Signs the claims with `jsonwebtoken::encode`, under the default (HS256)
/// header and an HMAC key made of the secret's bytes. Claimed: the call
/// succeeds (an HMAC key matches the HS256 header, the claims object always
/// serialises, and HMAC signing cannot fail), and the token is a function
/// of the claims and the secret.
#[verifier::external_body]
fn encode_hs256(claims: &Claims, secret: &str) -> (r: Result<String, String>)
    ensures
        r is Ok,
        r->Ok_0@ == hs256_token(
            claims.sub@,
            claims.token_type@,
            claims.user_id,
            claims.phone@,
            claims.iat,
            claims.exp,
            secret@,
        ),
{
    let mut object = serde_json::Map::new();
    object.insert("sub".to_string(), claims.sub.clone().into());
    object.insert("token_type".to_string(), claims.token_type.clone().into());
    object.insert("user_id".to_string(), claims.user_id.into());
    object.insert("phone".to_string(), claims.phone.clone().into());
    object.insert("iat".to_string(), claims.iat.into());
    object.insert("exp".to_string(), claims.exp.into());
    let key = jsonwebtoken::EncodingKey::from_secret(secret.as_bytes());
    jsonwebtoken::encode(&jsonwebtoken::Header::default(), &object, &key).map_err(|e| e.to_string())
}

/// Signs `claims` with `secret`.
fn encode_token(secret: &str, claims: &Claims) -> (r: Result<String, String>)
    ensures
        r matches Ok(t) && t@ == signed_claims(*claims, secret@),
{
    match encode_hs256(claims, secret) {
        Ok(token) => Ok(token),
        Err(error) => Err(String::from_str("Failed to generate token: ").concat(error.as_str())),
    }
}

/// Seconds since the Unix epoch by the system clock, or `None` when the
/// clock is set before the epoch. Nothing is claimed of the value.
#[verifier::external_body]
fn current_unix_timestamp() -> (r: Option<u64>) {
    std::time::SystemTime::now().duration_since(std::time::UNIX_EPOCH).ok().map(|d| d.as_secs())
}

/// `pair` is the token pair for this user, issued at `now` under these secrets.
pub open spec fn is_token_pair_for(
    pair: TokenPair,
    user_id: i64,
    phone: Seq<char>,
    access_secret: Seq<char>,
    refresh_secret: Seq<char>,
    now: u64,
) -> bool {
    &&& pair.access_token@ == hs256_token(
        decimal_text(user_id as int),
        "access"@,
        user_id,
        phone,
        now,
        (now + ACCESS_TOKEN_TTL_SECONDS) as u64,
        access_secret,
    )
    &&& pair.refresh_token@ == hs256_token(
        decimal_text(user_id as int),
        "refresh"@,
        user_id,
        phone,
        now,
        (now + REFRESH_TOKEN_TTL_SECONDS) as u64,
        refresh_secret,
    )
    &&& pair.token_type@ == "Bearer"@
    &&& pair.access_expires_in == ACCESS_TOKEN_TTL_SECONDS
    &&& pair.refresh_expires_in == REFRESH_TOKEN_TTL_SECONDS
}

/// The access and refresh tokens for this user, issued at `now`.
pub fn issue_token_pair(
    user_id: i64,
    phone: &str,
    access_secret: &str,
    refresh_secret: &str,
    now: u64,
) -> (r: Result<TokenPair, String>)
    requires
        now + REFRESH_TOKEN_TTL_SECONDS <= u64::MAX,
    ensures
        r matches Ok(pair) && is_token_pair_for(
            pair,
            user_id,
            phone@,
            access_secret@,
            refresh_secret@,
            now,
        ),
{
    let access_claims = build_claims(user_id, phone, "access", now, ACCESS_TOKEN_TTL_SECONDS);
    let refresh_claims = build_claims(user_id, phone, "refresh", now, REFRESH_TOKEN_TTL_SECONDS);
    let access_token = encode_token(access_secret, &access_claims)?;
    let refresh_token = encode_token(refresh_secret, &refresh_claims)?;
    Ok(
        TokenPair {
            access_token,
            refresh_token,
            token_type: String::from_str("Bearer"),
            access_expires_in: ACCESS_TOKEN_TTL_SECONDS,
            refresh_expires_in: REFRESH_TOKEN_TTL_SECONDS,
        },
    )
}

/// The view of an optional setting.
pub open spec fn setting_view(value: Option<String>) -> Option<Seq<char>> {
    match value {
        Some(v) => Some(v@),
        None => None,
    }
}

/// What issuing tokens for this user answers, given the two secret settings:
/// a missing or blank secret is reported by name, the access secret first;
/// with both present, the answer is what `tokens_at` gives for some
/// reading of the clock.
pub open spec fn auth_tokens_answer(
    r: Result<TokenPair, String>,
    user_id: i64,
    phone: Seq<char>,
    access_setting: Option<Seq<char>>,
    refresh_setting: Option<Seq<char>>,
) -> bool {
    match required_setting("JWT_ACCESS_SECRET"@, access_setting) {
        Err(e) => r matches Err(m) && m@ == e,
        Ok(a) => match required_setting("JWT_REFRESH_SECRET"@, refresh_setting) {
            Err(e) => r matches Err(m) && m@ == e,
            Ok(b) => exists|clock: Option<u64>| #[trigger]
                tokens_at_answer(r, user_id, phone, a, b, clock),
        },
    }
}

/// Issues the token pair for this user, with the secrets read from the
/// settings `JWT_ACCESS_SECRET` and `JWT_REFRESH_SECRET` and the time from
/// the system clock. A missing or blank secret is reported by name, the
/// access secret first. With both secrets present, the answer is the pair
/// issued at some clock reading, or an error when the clock stands before
/// the epoch or too far ahead to add the refresh lifetime.
pub fn generate_auth_tokens(
    user_id: i64,
    phone: &str,
    access_secret: Option<String>,
    refresh_secret: Option<String>,
) -> (r: Result<TokenPair, String>)
    ensures
        auth_tokens_answer(r, user_id, phone@, setting_view(access_secret), setting_view(refresh_secret)),
{
    let ghost access_setting = setting_view(access_secret);
    let ghost refresh_setting = setting_view(refresh_secret);
    let access_secret = match get_required_env("JWT_ACCESS_SECRET", access_secret) {
        Ok(v) => v,
        Err(e) => return Err(e),
    };
    let refresh_secret = match get_required_env("JWT_REFRESH_SECRET", refresh_secret) {
        Ok(v) => v,
        Err(e) => return Err(e),
    };
    let clock = current_unix_timestamp();
    let r = tokens_at(user_id, phone, access_secret.as_str(), refresh_secret.as_str(), clock);
    proof {
        // The clock reading witnesses the pair.
        let a = required_setting("JWT_ACCESS_SECRET"@, access_setting)->Ok_0;
        let b = required_setting("JWT_REFRESH_SECRET"@, refresh_setting)->Ok_0;
        assert(tokens_at_answer(r, user_id, phone@, a, b, clock));
    }
    r
}

/// What issuing tokens answers for a clock reading: the clock may stand
/// before the epoch, or too far ahead to add the refresh lifetime;
/// otherwise the answer is the pair issued at that second.
pub open spec fn tokens_at_answer(
    r: Result<TokenPair, String>,
    user_id: i64,
    phone: Seq<char>,
    access_secret: Seq<char>,
    refresh_secret: Seq<char>,
    clock: Option<u64>,
) -> bool {
    match clock {
        None => r matches Err(m) && m@ == "system time should be after UNIX_EPOCH"@,
        Some(now) => if now > u64::MAX - REFRESH_TOKEN_TTL_SECONDS {
            r matches Err(m) && m@ == "system time is out of range"@
        } else {
            r matches Ok(pair) && is_token_pair_for(
                pair,
                user_id,
                phone,
                access_secret,
                refresh_secret,
                now,
            )
        },
    }
}

/// The token pair for this user at a reading of the system clock in
/// seconds since the epoch (`None` when the clock stands before it).
pub fn tokens_at(
    user_id: i64,
    phone: &str,
    access_secret: &str,
    refresh_secret: &str,
    clock: Option<u64>,
) -> (r: Result<TokenPair, String>)
    ensures
        tokens_at_answer(r, user_id, phone@, access_secret@, refresh_secret@, clock),
{
    let now = match clock {
        Some(now) => now,
        None => return Err(String::from_str("system time should be after UNIX_EPOCH")),
    };
    if now > u64::MAX - REFRESH_TOKEN_TTL_SECONDS {
        return Err(String::from_str("system time is out of range"));
    }
    issue_token_pair(user_id, phone, access_secret, refresh_secret, now)
}

/// Tokens issued for the same user, secrets and second are the same tokens.
pub proof fn lemma_tokens_deterministic(
    p: TokenPair,
    q: TokenPair,
    user_id: i64,
    phone: Seq<char>,
    access_secret: Seq<char>,
    refresh_secret: Seq<char>,
    now: u64,
)
    requires
        is_token_pair_for(p, user_id, phone, access_secret, refresh_secret, now),
        is_token_pair_for(q, user_id, phone, access_secret, refresh_secret, now),
    ensures
        p.access_token@ == q.access_token@,
        p.refresh_token@ == q.refresh_token@,
        p.token_type@ == q.token_type@,
        p.access_expires_in == q.access_expires_in,
        p.refresh_expires_in == q.refresh_expires_in,
{
}

/// Two calls at the same clock reading, for the same user and secrets,
/// give the same answer.
pub proof fn lemma_tokens_at_deterministic(
    r1: Result<TokenPair, String>,
    r2: Result<TokenPair, String>,
    user_id: i64,
    phone: Seq<char>,
    access_secret: Seq<char>,
    refresh_secret: Seq<char>,
    clock: Option<u64>,
)
    requires
        tokens_at_answer(r1, user_id, phone, access_secret, refresh_secret, clock),
        tokens_at_answer(r2, user_id, phone, access_secret, refresh_secret, clock),
    ensures
        r1 is Ok <==> r2 is Ok,
        r1 matches Ok(p) ==> r2 matches Ok(q) && p.access_token@ == q.access_token@
            && p.refresh_token@ == q.refresh_token@ && p.token_type@ == q.token_type@
            && p.access_expires_in == q.access_expires_in && p.refresh_expires_in
            == q.refresh_expires_in,
        r1 matches Err(m) ==> r2 matches Err(n) && m@ == n@,
{
}

/// What the check of decoded access-token claims answers: the user, or why
/// the token is refused.
pub open spec fn access_verdict(decoded: Result<Claims, String>) -> Result<(i64, Seq<char>), Seq<char>> {
    match decoded {
        Err(e) => Err("Invalid access token: "@ + e@),
        Ok(c) => if c.token_type@ == "access"@ {
            Ok((c.user_id, c.phone@))
        } else {
            Err("Invalid token type"@)
        },
    }
}

/// Judges the outcome of decoding an access token: a decoding error is
/// reported as an invalid token, claims of another token type are refused,
/// and access claims give the user they name.
pub fn access_token_outcome(decoded: Result<Claims, String>) -> (r: Result<AuthUser, String>)
    ensures
        access_verdict(decoded) == match r {
            Ok(u) => Ok((u.user_id, u.phone@)),
            Err(e) => Err(e@),
        },
{
    match decoded {
        Err(error) => Err(String::from_str("Invalid access token: ").concat(error.as_str())),
        Ok(claims) => {
            if !text_eq(claims.token_type.as_str(), "access") {
                return Err(String::from_str("Invalid token type"));
            }
            Ok(AuthUser { user_id: claims.user_id, phone: claims.phone })
        },
    }
}

/// The claims of an issued access token are accepted, as the user they were
/// issued for.
pub proof fn lemma_issued_access_claims_accepted(
    c: Claims,
    user_id: i64,
    phone: Seq<char>,
    now: u64,
)
    requires
        claims_issued(c, user_id, phone, "access"@, now, ACCESS_TOKEN_TTL_SECONDS),
    ensures
        access_verdict(Ok(c)) == Ok::<(i64, Seq<char>), Seq<char>>((user_id, phone)),
{
}

/// The claims of an issued refresh token are never accepted as an access token.
pub proof fn lemma_refresh_claims_refused(c: Claims, user_id: i64, phone: Seq<char>, now: u64)
    requires
        claims_issued(c, user_id, phone, "refresh"@, now, REFRESH_TOKEN_TTL_SECONDS),
    ensures
        access_verdict(Ok(c)) == Err::<(i64, Seq<char>), Seq<char>>("Invalid token type"@),
{
    reveal_strlit("access");
    reveal_strlit("refresh");
    assert("access"@[0] != "refresh"@[0]);
}

/// A refresh token presented as an access token is never accepted: either
/// decoding fails and the failure is reported as an invalid access token,
/// or it yields the refresh claims, which are refused by type.
pub proof fn lemma_refresh_token_never_accepted(
    decoded: Result<Claims, String>,
    user_id: i64,
    phone: Seq<char>,
    now: u64,
)
    requires
        decoded matches Ok(c) ==> claims_issued(
            c,
            user_id,
            phone,
            "refresh"@,
            now,
            REFRESH_TOKEN_TTL_SECONDS,
        ),
    ensures
        access_verdict(decoded) is Err,
        decoded matches Err(e) ==> access_verdict(decoded) == Err::<(i64, Seq<char>), Seq<char>>(
            "Invalid access token: "@ + e@,
        ),
        decoded is Ok ==> access_verdict(decoded) == Err::<(i64, Seq<char>), Seq<char>>(
            "Invalid token type"@,
        ),
{
    if let Ok(c) = decoded {
        lemma_refresh_claims_refused(c, user_id, phone, now);
    }
}

} // verus!
