//! Login as a sequence of steps: each step names the outside work to do
//! next (check the Firebase token, reach the database, find or create the
//! user, issue tokens), and the outcome of that work decides the next step,
//! until a step holds the answer.

use vstd::prelude::*;
use crate::firebase::{FirebaseAuthError, FirebaseFailure, FirebaseUser, claims_verdict, opt_text};
use crate::jwt::{ACCESS_TOKEN_TTL_SECONDS, REFRESH_TOKEN_TTL_SECONDS, TokenPair, hs256_token, is_token_pair_for};
use crate::response::{ApiResponse, is_error_response, is_success_response};
use crate::text::{decimal_text, lemma_trimmed_idempotent, trim, trimmed};
use crate::users::{
    LoginRequest,
    MAX_PHONE_LENGTH,
    UserRecord,
    database_unavailable,
    is_duplicate_phone_error,
    is_duplicate_phone_message,
    resolved_user_name,
    user_name_for,
    utf8_len,
};

verus! {

/// Where a login stands: the work to do next, with what it needs, or the answer.
pub enum LoginStep {
    /// Check the Firebase ID token.
    VerifyToken { token: String },
    /// Get a database connection for the verified user.
    Connect { user: FirebaseUser },
    /// Look the user up by phone.
    FindUser { user: FirebaseUser },
    /// Store a new user with this phone and name.
    CreateUser { user: FirebaseUser, name: String },
    /// Look the user up by phone again, after another request stored it first.
    FindAfterConflict { user: FirebaseUser },
    /// Issue tokens for this stored user.
    IssueTokens { user_id: i64, phone: String },
    /// Answer the request.
    Respond { response: ApiResponse<TokenPair> },
}

/// The outcome of the work a step asked for.
pub enum LoginEvent {
    TokenVerified(Result<FirebaseUser, FirebaseAuthError>),
    Connected(Result<(), String>),
    UserLookedUp(Result<Option<UserRecord>, String>),
    UserInserted(Result<UserRecord, String>),
    TokensIssued(Result<TokenPair, String>),
}

/// The event is the outcome of the work `step` asks for.
pub open spec fn answers(step: LoginStep, event: LoginEvent) -> bool {
    match step {
        LoginStep::VerifyToken { .. } => event is TokenVerified,
        LoginStep::Connect { .. } => event is Connected,
        LoginStep::FindUser { .. } => event is UserLookedUp,
        LoginStep::CreateUser { .. } => event is UserInserted,
        LoginStep::FindAfterConflict { .. } => event is UserLookedUp,
        LoginStep::IssueTokens { .. } => event is TokensIssued,
        LoginStep::Respond { .. } => false,
    }
}

/// The outcome that `answers` expects after `step`, as a check the caller
/// can run before handing the event over.
pub fn event_answers(step: &LoginStep, event: &LoginEvent) -> (r: bool)
    ensures
        r == answers(*step, *event),
{
    match step {
        LoginStep::VerifyToken { .. } => matches!(event, LoginEvent::TokenVerified(_)),
        LoginStep::Connect { .. } => matches!(event, LoginEvent::Connected(_)),
        LoginStep::FindUser { .. } => matches!(event, LoginEvent::UserLookedUp(_)),
        LoginStep::CreateUser { .. } => matches!(event, LoginEvent::UserInserted(_)),
        LoginStep::FindAfterConflict { .. } => matches!(event, LoginEvent::UserLookedUp(_)),
        LoginStep::IssueTokens { .. } => matches!(event, LoginEvent::TokensIssued(_)),
        LoginStep::Respond { .. } => false,
    }
}

/// How far along a step is; every move goes strictly forward.
pub open spec fn progress(step: LoginStep) -> nat {
    match step {
        LoginStep::VerifyToken { .. } => 0,
        LoginStep::Connect { .. } => 1,
        LoginStep::FindUser { .. } => 2,
        LoginStep::CreateUser { .. } => 3,
        LoginStep::FindAfterConflict { .. } => 4,
        LoginStep::IssueTokens { .. } => 5,
        LoginStep::Respond { .. } => 6,
    }
}

/// `step` answers with the 500 response carrying `message`.
pub open spec fn responds_internal(step: LoginStep, message: Seq<char>) -> bool {
    step matches LoginStep::Respond { response } && is_error_response(
        response,
        500,
        message,
        "Internal Server Error"@,
    )
}

/// `step` answers with the 400 response carrying `message`.
pub open spec fn responds_bad_request(step: LoginStep, message: Seq<char>) -> bool {
    step matches LoginStep::Respond { response } && is_error_response(
        response,
        400,
        message,
        "Bad Request"@,
    )
}

/// The first step of a login: a blank token is refused at once; otherwise
/// the trimmed token is checked with Firebase.
pub fn login_start(payload: &LoginRequest) -> (r: LoginStep)
    ensures
        trimmed(payload.token@).len() == 0 ==> responds_bad_request(r, "token is required"@),
        trimmed(payload.token@).len() != 0 ==> (r matches LoginStep::VerifyToken { token }
            && token@ == trimmed(payload.token@)),
{
    let token = trim(payload.token.as_str());
    if token.unicode_len() == 0 {
        return LoginStep::Respond { response: ApiResponse::bad_request("token is required") };
    }
    LoginStep::VerifyToken { token: String::from_str(token) }
}

/// The step after a verified Firebase user: a phone over the length limit
/// is refused, otherwise the database is reached.
fn after_verification(user: FirebaseUser) -> (r: LoginStep)
    ensures
        utf8_len(user.phone@) > MAX_PHONE_LENGTH ==> responds_bad_request(
            r,
            "phone must be at most 15 characters"@,
        ),
        utf8_len(user.phone@) <= MAX_PHONE_LENGTH ==> (r == LoginStep::Connect { user }),
{
    if user.phone.as_str().len() > MAX_PHONE_LENGTH {
        return LoginStep::Respond {
            response: ApiResponse::bad_request("phone must be at most 15 characters"),
        };
    }
    LoginStep::Connect { user }
}

/// The answer to a failure `message` after `prefix`, with status 500.
fn internal(prefix: &str, message: &str) -> (r: LoginStep)
    ensures
        responds_internal(r, prefix@ + message@),
{
    let text = String::from_str(prefix).concat(message);
    LoginStep::Respond { response: ApiResponse::internal_error(text.as_str()) }
}

/// The move from `step` on the outcome `event`, as the login rules lay it out.
pub open spec fn login_move(step: LoginStep, event: LoginEvent, next: LoginStep) -> bool {
    match (step, event) {
        (LoginStep::VerifyToken { .. }, LoginEvent::TokenVerified(verified)) => match verified {
            Err(e) => match e@ {
                FirebaseFailure::InvalidToken(m) => next matches LoginStep::Respond { response }
                    && is_error_response(
                    response,
                    401,
                    "Invalid Firebase token: "@ + m,
                    "Unauthorized"@,
                ),
                FirebaseFailure::Service(m) => responds_internal(
                    next,
                    "Firebase verification failed: "@ + m,
                ),
            },
            Ok(user) => if utf8_len(user.phone@) > MAX_PHONE_LENGTH {
                responds_bad_request(next, "phone must be at most 15 characters"@)
            } else {
                next == LoginStep::Connect { user }
            },
        },
        (LoginStep::Connect { user }, LoginEvent::Connected(connected)) => match connected {
            Err(m) => responds_internal(next, "Database connection error: "@ + m@),
            Ok(_) => next == LoginStep::FindUser { user },
        },
        (LoginStep::FindUser { user }, LoginEvent::UserLookedUp(found)) => match found {
            Err(m) => responds_internal(next, "Failed to login: "@ + m@),
            Ok(Some(u)) => next matches LoginStep::IssueTokens { user_id, phone } && user_id
                == u.id && phone@ == u.phone@,
            Ok(None) => next matches LoginStep::CreateUser { user: same, name } && same == user
                && name@ == user_name_for(opt_text(user.name)),
        },
        (LoginStep::CreateUser { user, .. }, LoginEvent::UserInserted(inserted)) => match inserted {
            Ok(u) => next matches LoginStep::IssueTokens { user_id, phone } && user_id == u.id
                && phone@ == u.phone@,
            Err(m) => if is_duplicate_phone_message(m@) {
                next == LoginStep::FindAfterConflict { user }
            } else {
                responds_internal(next, "Failed to create user during login: "@ + m@)
            },
        },
        (LoginStep::FindAfterConflict { .. }, LoginEvent::UserLookedUp(found)) => match found {
            Ok(Some(u)) => next matches LoginStep::IssueTokens { user_id, phone } && user_id
                == u.id && phone@ == u.phone@,
            Ok(None) => responds_internal(
                next,
                "Failed to resolve user after duplicate phone insert"@,
            ),
            Err(m) => responds_internal(
                next,
                "Failed to fetch user after duplicate phone insert: "@ + m@,
            ),
        },
        (LoginStep::IssueTokens { .. }, LoginEvent::TokensIssued(issued)) => match issued {
            Ok(pair) => next matches LoginStep::Respond { response } && is_success_response(
                response,
                200,
                "Login successful"@,
                pair,
            ),
            Err(m) => responds_internal(next, "Failed to login: "@ + m@),
        },
        _ => false,
    }
}

/// Takes the login one step further on the outcome of the work `step` asked for.
pub fn login_next(step: LoginStep, event: LoginEvent) -> (r: LoginStep)
    requires
        answers(step, event),
    ensures
        login_move(step, event, r),
        progress(r) > progress(step),
{
    match (step, event) {
        (LoginStep::VerifyToken { .. }, LoginEvent::TokenVerified(verified)) => match verified {
            Err(FirebaseAuthError::InvalidToken(m)) => {
                let text = String::from_str("Invalid Firebase token: ").concat(m.as_str());
                LoginStep::Respond { response: ApiResponse::unauthorized(text.as_str()) }
            },
            Err(FirebaseAuthError::Service(m)) => internal(
                "Firebase verification failed: ",
                m.as_str(),
            ),
            Ok(user) => after_verification(user),
        },
        (LoginStep::Connect { user }, LoginEvent::Connected(connected)) => match connected {
            Err(m) => LoginStep::Respond { response: database_unavailable(m.as_str()) },
            Ok(_) => LoginStep::FindUser { user },
        },
        (LoginStep::FindUser { user }, LoginEvent::UserLookedUp(found)) => match found {
            Err(m) => internal("Failed to login: ", m.as_str()),
            Ok(Some(u)) => LoginStep::IssueTokens { user_id: u.id, phone: u.phone },
            Ok(None) => {
                let name = match &user.name {
                    Some(n) => resolved_user_name(Some(n.as_str())),
                    None => resolved_user_name(None),
                };
                LoginStep::CreateUser { user, name }
            },
        },
        (LoginStep::CreateUser { user, .. }, LoginEvent::UserInserted(inserted)) => match inserted {
            Ok(u) => LoginStep::IssueTokens { user_id: u.id, phone: u.phone },
            Err(m) => {
                if is_duplicate_phone_error(m.as_str()) {
                    LoginStep::FindAfterConflict { user }
                } else {
                    internal("Failed to create user during login: ", m.as_str())
                }
            },
        },
        (LoginStep::FindAfterConflict { .. }, LoginEvent::UserLookedUp(found)) => match found {
            Ok(Some(u)) => LoginStep::IssueTokens { user_id: u.id, phone: u.phone },
            Ok(None) => LoginStep::Respond {
                response: ApiResponse::internal_error(
                    "Failed to resolve user after duplicate phone insert",
                ),
            },
            Err(m) => internal("Failed to fetch user after duplicate phone insert: ", m.as_str()),
        },
        (LoginStep::IssueTokens { .. }, LoginEvent::TokensIssued(issued)) => match issued {
            Ok(pair) => LoginStep::Respond {
                response: ApiResponse::success(pair, "Login successful"),
            },
            Err(m) => internal("Failed to login: ", m.as_str()),
        },
        (LoginStep::Respond { response }, _) => LoginStep::Respond { response },
        (step, _) => step,
    }
}

/// A login ends with an answer after at most six pieces of outside work:
/// every move from a step that is not an answer goes strictly forward, and
/// only an answer stands at the end.
pub proof fn lemma_login_progress_bounded(step: LoginStep)
    ensures
        progress(step) <= 6,
        progress(step) == 6 <==> (step is Respond),
{
}

/// Every answer a login gives is a 200 carrying tokens or a failure with
/// status 400, 401 or 500.
pub proof fn lemma_login_answers(step: LoginStep, event: LoginEvent, next: LoginStep)
    requires
        answers(step, event),
        login_move(step, event, next),
        next is Respond,
    ensures
        (next matches LoginStep::Respond { response } && ((response.success && response.status
            == 200 && response.data is Some) || (!response.success && response.data is None && (
        response.status == 400 || response.status == 401 || response.status == 500)))),
{
}

/// A login only reaches the database with a phone that the creation rules
/// accept: accepted Firebase claims give a trimmed, non-empty phone, and a
/// phone over the limit is answered before the database is reached.
pub proof fn lemma_login_phone_meets_user_rules(
    sub: Seq<char>,
    aud: Seq<char>,
    iss: Seq<char>,
    phone_number: Option<Seq<char>>,
    name: Option<Seq<char>>,
    project_id: Seq<char>,
    user: FirebaseUser,
    step: LoginStep,
    next: LoginStep,
)
    requires
        (step is VerifyToken),
        claims_verdict(sub, aud, iss, phone_number, name, project_id) == Ok::<
            (Seq<char>, Option<Seq<char>>),
            FirebaseFailure,
        >((user.phone@, opt_text(user.name))),
        login_move(step, LoginEvent::TokenVerified(Ok(user)), next),
        !(next is Respond),
    ensures
        (next == LoginStep::Connect { user }),
        user.phone@.len() > 0,
        trimmed(user.phone@) == user.phone@,
        utf8_len(user.phone@) <= MAX_PHONE_LENGTH,
{
    if let Some(p) = phone_number {
        lemma_trimmed_idempotent(p);
    }
}

/// Two logins with the same phone end with tokens for the same user: the
/// first stores the row (with the verified phone) and issues tokens for it;
/// when the second login's lookup returns that row, it issues tokens for
/// the same id and phone and stores nothing.
pub proof fn lemma_second_login_reuses_user(
    first: LoginStep,
    user: FirebaseUser,
    stored: UserRecord,
    issued_first: LoginStep,
    second: LoginStep,
    issued_second: LoginStep,
)
    requires
        (first matches LoginStep::CreateUser { user: u, .. } && u == user),
        login_move(first, LoginEvent::UserInserted(Ok(stored)), issued_first),
        (second matches LoginStep::FindUser { user: u } && u.phone@ == user.phone@),
        login_move(second, LoginEvent::UserLookedUp(Ok(Some(stored))), issued_second),
    ensures
        (issued_first matches LoginStep::IssueTokens { user_id, phone } && user_id == stored.id
            && phone@ == stored.phone@),
        (issued_second matches LoginStep::IssueTokens { user_id, phone } && user_id == stored.id
            && phone@ == stored.phone@),
        !(issued_second is CreateUser),
{
}

/// A login whose lookup finds a row issues tokens for that row and stores
/// nothing.
pub proof fn lemma_found_user_is_not_inserted(step: LoginStep, found: UserRecord, next: LoginStep)
    requires
        (step is FindUser || step is FindAfterConflict),
        login_move(step, LoginEvent::UserLookedUp(Ok(Some(found))), next),
    ensures
        (next matches LoginStep::IssueTokens { user_id, phone } && user_id == found.id
            && phone@ == found.phone@),
        !(next is CreateUser),
{
}

/// The row a login stores carries the phone that Firebase verified.
pub proof fn lemma_login_stores_verified_phone(step: LoginStep, next: LoginStep)
    requires
        (step is FindUser),
        login_move(step, LoginEvent::UserLookedUp(Ok(None)), next),
    ensures
        (next matches LoginStep::CreateUser { user, .. } && step matches LoginStep::FindUser {
            user: u,
        } && user == u),
{
}

/// Once tokens are issued, the login answers 200 "Login successful" with
/// exactly the issued pair as its data.
pub proof fn lemma_login_answers_with_issued_pair(step: LoginStep, pair: TokenPair, next: LoginStep)
    requires
        (step is IssueTokens),
        login_move(step, LoginEvent::TokensIssued(Ok(pair)), next),
    ensures
        (next matches LoginStep::Respond { response } && response.success && response.status
            == 200 && response.message@ == "Login successful"@ && response.error is None
            && response.data == Some(pair)),
{
}

/// The access token a login hands out is the one whose claims say
/// "access" and are signed with the access secret, and the refresh token
/// the one whose claims say "refresh", signed with the refresh secret.
pub proof fn lemma_login_hands_out_tokens_in_place(
    step: LoginStep,
    pair: TokenPair,
    next: LoginStep,
    user_id: i64,
    phone: Seq<char>,
    access_secret: Seq<char>,
    refresh_secret: Seq<char>,
    now: u64,
)
    requires
        (step is IssueTokens),
        is_token_pair_for(pair, user_id, phone, access_secret, refresh_secret, now),
        login_move(step, LoginEvent::TokensIssued(Ok(pair)), next),
    ensures
        (next matches LoginStep::Respond { response } && response.data matches Some(d)
            && d.access_token@ == hs256_token(
            decimal_text(user_id as int),
            "access"@,
            user_id,
            phone,
            now,
            (now + ACCESS_TOKEN_TTL_SECONDS) as u64,
            access_secret,
        ) && d.refresh_token@ == hs256_token(
            decimal_text(user_id as int),
            "refresh"@,
            user_id,
            phone,
            now,
            (now + REFRESH_TOKEN_TTL_SECONDS) as u64,
            refresh_secret,
        )),
{
}

/// The Firebase user a login verified is the one it looks up and, on a
/// first login, creates: with that user's phone and the name resolved from
/// that user's Firebase name.
pub proof fn lemma_verified_user_is_created(
    start: LoginStep,
    user: FirebaseUser,
    connect: LoginStep,
    find: LoginStep,
    create: LoginStep,
)
    requires
        (start is VerifyToken),
        login_move(start, LoginEvent::TokenVerified(Ok(user)), connect),
        !(connect is Respond),
        login_move(connect, LoginEvent::Connected(Ok(())), find),
        login_move(find, LoginEvent::UserLookedUp(Ok(None)), create),
    ensures
        (find matches LoginStep::FindUser { user: u } && u == user),
        (create matches LoginStep::CreateUser { user: u, name } && u == user && u.phone@
            == user.phone@ && name@ == user_name_for(opt_text(user.name))),
{
}

/// After the database is reached, the lookup is for the same verified user.
pub proof fn lemma_connect_keeps_user(connect: LoginStep, find: LoginStep)
    requires
        (connect is Connect),
        login_move(connect, LoginEvent::Connected(Ok(())), find),
    ensures
        (connect matches LoginStep::Connect { user: a } && find matches LoginStep::FindUser {
            user: b,
        } && a == b),
{
}

} // verus!
