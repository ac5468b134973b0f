//! The user endpoints' rules: what a request must hold, and how each
//! database outcome is answered.

use vstd::prelude::*;
use vstd::utf8::encode_utf8;
use crate::response::{ApiResponse, is_error_response, is_success_response};
use crate::text::{contains, contains_chars, lemma_trimmed_ends, lemma_trimmed_idempotent, trim, trimmed};

verus! {

/// Longest user name, in bytes of UTF-8.
pub const MAX_USER_NAME_LENGTH: usize = 100;

/// Longest phone number, in bytes of UTF-8.
pub const MAX_PHONE_LENGTH: usize = 15;

/// Body of a request to create a user.
#[derive(Debug)]
pub struct CreateUserRequest {
    pub name: String,
    pub phone: String,
}

/// Body of a request to change a user; absent fields stay as they are.
#[derive(Debug)]
pub struct UpdateUserRequest {
    pub name: Option<String>,
    pub phone: Option<String>,
}

/// Body of a login request: a Firebase ID token.
#[derive(Debug)]
pub struct LoginRequest {
    pub token: String,
}

/// Payload answering a deletion.
#[derive(Debug)]
pub struct DeleteUserResponse {
    pub id: i64,
}

/// A user as the API shows it.
#[derive(Debug)]
pub struct UserResponse {
    pub id: i64,
    pub name: String,
}

/// A stored user row.
#[derive(Debug)]
pub struct UserRecord {
    pub id: i64,
    pub name: String,
    pub phone: String,
}

impl Clone for UserRecord {
    fn clone(&self) -> (r: Self)
        ensures
            r == *self,
    {
        UserRecord { id: self.id, name: self.name.clone(), phone: self.phone.clone() }
    }
}

/// The length `str::len` reports: bytes of UTF-8.
pub open spec fn utf8_len(s: Seq<char>) -> usize {
    encode_utf8(s).len() as usize
}

/// The first rule a new user's (trimmed) name and phone break, if any.
pub open spec fn payload_problem(name: Seq<char>, phone: Seq<char>) -> Option<Seq<char>> {
    if name.len() == 0 {
        Some("name is required"@)
    } else if utf8_len(name) > MAX_USER_NAME_LENGTH {
        Some("name must be at most 100 characters"@)
    } else if phone.len() == 0 {
        Some("phone is required"@)
    } else if utf8_len(phone) > MAX_PHONE_LENGTH {
        Some("phone must be at most 15 characters"@)
    } else {
        None
    }
}

/// The view of an optional text.
pub open spec fn opt_view(t: Option<String>) -> Option<Seq<char>> {
    match t {
        Some(v) => Some(v@),
        None => None,
    }
}

/// The message of the first rule `name` and `phone` break, or `None` when
/// they may be stored.
pub fn validate_user_payload(name: &str, phone: &str) -> (r: Option<String>)
    ensures
        opt_view(r) == payload_problem(name@, phone@),
{
    if name.is_empty() {
        return Some(String::from_str("name is required"));
    }
    if name.len() > MAX_USER_NAME_LENGTH {
        return Some(String::from_str("name must be at most 100 characters"));
    }
    if phone.is_empty() {
        return Some(String::from_str("phone is required"));
    }
    if phone.len() > MAX_PHONE_LENGTH {
        return Some(String::from_str("phone must be at most 15 characters"));
    }
    None
}

/// How a stored user is shown.
pub open spec fn user_response_of(user: UserRecord) -> UserResponse {
    UserResponse { id: user.id, name: user.name }
}

/// The public view of a stored user: its id and name.
pub fn to_user_response(user: UserRecord) -> (r: UserResponse)
    ensures
        r == user_response_of(user),
{
    UserResponse { id: user.id, name: user.name }
}

/// Name given to a user created at login when Firebase has none usable.
pub open spec fn default_user_name() -> Seq<char> {
    "User"@
}

/// The name a user created at login gets: the Firebase name trimmed and
/// cut to its first hundred characters, or the default when absent or blank.
pub open spec fn user_name_for(firebase_name: Option<Seq<char>>) -> Seq<char> {
    match firebase_name {
        None => default_user_name(),
        Some(n) => {
            let t = trimmed(n);
            if t.len() == 0 {
                default_user_name()
            } else if t.len() <= 100 {
                t
            } else {
                t.take(100)
            }
        },
    }
}

/// The name to store for a user created from a Firebase login.
pub fn resolved_user_name(firebase_name: Option<&str>) -> (r: String)
    ensures
        r@ == user_name_for(
            match firebase_name {
                Some(n) => Some(n@),
                None => None,
            },
        ),
{
    let name = match firebase_name {
        None => return String::from_str("User"),
        Some(n) => n,
    };
    let trimmed_name = trim(name);
    let count = trimmed_name.unicode_len();
    if count == 0 {
        return String::from_str("User");
    }
    let keep = if count <= 100 {
        count
    } else {
        100
    };
    let kept = trimmed_name.substring_char(0, keep);
    proof {
        if count <= 100 {
            assert(trimmed_name@.subrange(0, keep as int) =~= trimmed_name@);
        }
    }
    String::from_str(kept)
}

/// A database error text that reports a second user with the same phone.
pub open spec fn is_duplicate_phone_message(message: Seq<char>) -> bool {
    contains_chars(message, "duplicate key value"@) || contains_chars(message, "users_phone_key"@)
}

/// Whether a database error text reports a phone that is already taken.
pub fn is_duplicate_phone_error(message: &str) -> (r: bool)
    ensures
        r == is_duplicate_phone_message(message@),
{
    contains(message, "duplicate key value") || contains(message, "users_phone_key")
}

/// `r` answers a failed write with error text `message`: a taken phone is
/// the client's fault, anything else a server error after `fallback`.
pub open spec fn is_db_error_response<T>(
    r: ApiResponse<T>,
    message: Seq<char>,
    fallback: Seq<char>,
) -> bool {
    if is_duplicate_phone_message(message) {
        is_error_response(r, 400, "Phone already exists"@, "Bad Request"@)
    } else {
        is_error_response(r, 500, fallback + ": "@ + message, "Internal Server Error"@)
    }
}

/// The answer to a failed write.
pub fn map_db_error<T>(message: &str, fallback_message: &str) -> (r: ApiResponse<T>)
    ensures
        is_db_error_response(r, message@, fallback_message@),
{
    if is_duplicate_phone_error(message) {
        return ApiResponse::bad_request("Phone already exists");
    }
    let text = String::from_str(fallback_message).concat(": ").concat(message);
    ApiResponse::internal_error(text.as_str())
}

/// The answer when no database connection can be had.
pub fn database_unavailable<T>(message: &str) -> (r: ApiResponse<T>)
    ensures
        is_error_response(r, 500, "Database connection error: "@ + message@, "Internal Server Error"@),
{
    let text = String::from_str("Database connection error: ").concat(message);
    ApiResponse::internal_error(text.as_str())
}

/// The trimmed name and phone of a creation request, or the 400 answer
/// naming the first rule they break.
pub fn create_user_input(payload: &CreateUserRequest) -> (r: Result<(String, String), ApiResponse<UserResponse>>)
    ensures
        match payload_problem(trimmed(payload.name@), trimmed(payload.phone@)) {
            Some(p) => r matches Err(a) && is_error_response(a, 400, p, "Bad Request"@),
            None => r matches Ok((n, ph)) && n@ == trimmed(payload.name@) && ph@ == trimmed(
                payload.phone@,
            ),
        },
{
    let name = trim(payload.name.as_str());
    let phone = trim(payload.phone.as_str());
    match validate_user_payload(name, phone) {
        Some(problem) => Err(ApiResponse::bad_request(problem.as_str())),
        None => Ok((String::from_str(name), String::from_str(phone))),
    }
}

/// The answer to an insertion of a new user.
pub fn create_user_outcome(inserted: Result<UserRecord, String>) -> (r: ApiResponse<UserResponse>)
    ensures
        match inserted {
            Ok(u) => is_success_response(r, 201, "User created successfully"@, user_response_of(u)),
            Err(m) => is_db_error_response(r, m@, "Failed to create user"@),
        },
{
    match inserted {
        Ok(user) => ApiResponse::created(to_user_response(user), "User created successfully"),
        Err(message) => map_db_error(message.as_str(), "Failed to create user"),
    }
}

/// The answer to a page of users read from the database.
pub fn list_users_outcome(found: Result<Vec<UserRecord>, String>) -> (r: ApiResponse<Vec<UserResponse>>)
    ensures
        match found {
            Ok(users) => {
                &&& r.success
                &&& r.status == 200
                &&& r.message@ == "Users fetched successfully"@
                &&& r.error is None
                &&& r.data matches Some(shown) && shown@ == users@.map_values(
                    |u: UserRecord| user_response_of(u),
                )
            },
            Err(m) => is_error_response(
                r,
                500,
                "Failed to fetch users: "@ + m@,
                "Internal Server Error"@,
            ),
        },
{
    match found {
        Ok(users) => {
            let mut shown: Vec<UserResponse> = Vec::new();
            let mut i: usize = 0;
            while i < users.len()
                invariant
                    i <= users@.len(),
                    shown@ =~= users@.take(i as int).map_values(
                        |u: UserRecord| user_response_of(u),
                    ),
                decreases users@.len() - i,
            {
                let user = users[i].clone();
                shown.push(to_user_response(user));
                assert(users@.take(i + 1) =~= users@.take(i as int).push(users@[i as int]));
                i = i + 1;
            }
            assert(users@.take(users@.len() as int) =~= users@);
            ApiResponse::success(shown, "Users fetched successfully")
        },
        Err(message) => {
            let text = String::from_str("Failed to fetch users: ").concat(message.as_str());
            ApiResponse::internal_error(text.as_str())
        },
    }
}

/// The answer to reading one user by id.
pub fn get_user_outcome(found: Result<Option<UserRecord>, String>) -> (r: ApiResponse<UserResponse>)
    ensures
        match found {
            Ok(Some(u)) => is_success_response(
                r,
                200,
                "User fetched successfully"@,
                user_response_of(u),
            ),
            Ok(None) => is_error_response(r, 404, "User not found"@, "Not Found"@),
            Err(m) => is_error_response(
                r,
                500,
                "Failed to fetch user: "@ + m@,
                "Internal Server Error"@,
            ),
        },
{
    match found {
        Ok(Some(user)) => ApiResponse::success(to_user_response(user), "User fetched successfully"),
        Ok(None) => ApiResponse::not_found("User not found"),
        Err(message) => {
            let text = String::from_str("Failed to fetch user: ").concat(message.as_str());
            ApiResponse::internal_error(text.as_str())
        },
    }
}

/// The user a change or deletion is about, or the answer when it cannot be
/// read (500) or does not exist (404).
pub fn existing_user<T>(found: Result<Option<UserRecord>, String>) -> (r: Result<UserRecord, ApiResponse<T>>)
    ensures
        match found {
            Ok(Some(u)) => r == Ok::<UserRecord, ApiResponse<T>>(u),
            Ok(None) => r matches Err(a) && is_error_response(a, 404, "User not found"@, "Not Found"@),
            Err(m) => r matches Err(a) && is_error_response(
                a,
                500,
                "Failed to fetch user: "@ + m@,
                "Internal Server Error"@,
            ),
        },
{
    match found {
        Ok(Some(user)) => Ok(user),
        Ok(None) => Err(ApiResponse::not_found("User not found")),
        Err(message) => {
            let text = String::from_str("Failed to fetch user: ").concat(message.as_str());
            Err(ApiResponse::internal_error(text.as_str()))
        },
    }
}

/// The fields a change request sets, trimmed; `None` leaves a field alone.
#[derive(Debug)]
pub struct UserChanges {
    pub name: Option<String>,
    pub phone: Option<String>,
}

/// The first rule a change request breaks, if any: it must set some field,
/// and a given name or phone, trimmed, must be non-empty and short enough.
pub open spec fn update_problem(name: Option<Seq<char>>, phone: Option<Seq<char>>) -> Option<Seq<char>> {
    if name is None && phone is None {
        Some("Provide at least one field to update"@)
    } else if name matches Some(n) && trimmed(n).len() == 0 {
        Some("name cannot be empty"@)
    } else if name matches Some(n) && utf8_len(trimmed(n)) > MAX_USER_NAME_LENGTH {
        Some("name must be at most 100 characters"@)
    } else if phone matches Some(p) && trimmed(p).len() == 0 {
        Some("phone cannot be empty"@)
    } else if phone matches Some(p) && utf8_len(trimmed(p)) > MAX_PHONE_LENGTH {
        Some("phone must be at most 15 characters"@)
    } else {
        None
    }
}

/// The trimmed optional field.
pub open spec fn trimmed_opt(t: Option<Seq<char>>) -> Option<Seq<char>> {
    match t {
        Some(v) => Some(trimmed(v)),
        None => None,
    }
}

/// The changes a request asks for, or the 400 answer naming the first rule
/// it breaks.
pub fn plan_user_update(payload: &UpdateUserRequest) -> (r: Result<UserChanges, ApiResponse<UserResponse>>)
    ensures
        match update_problem(opt_view(payload.name), opt_view(payload.phone)) {
            Some(p) => r matches Err(a) && is_error_response(a, 400, p, "Bad Request"@),
            None => r matches Ok(c) && opt_view(c.name) == trimmed_opt(opt_view(payload.name))
                && opt_view(c.phone) == trimmed_opt(opt_view(payload.phone)),
        },
{
    if payload.name.is_none() && payload.phone.is_none() {
        return Err(ApiResponse::bad_request("Provide at least one field to update"));
    }
    let name = match &payload.name {
        Some(n) => {
            let t = trim(n.as_str());
            if t.is_empty() {
                return Err(ApiResponse::bad_request("name cannot be empty"));
            }
            if t.len() > MAX_USER_NAME_LENGTH {
                return Err(ApiResponse::bad_request("name must be at most 100 characters"));
            }
            Some(String::from_str(t))
        },
        None => None,
    };
    let phone = match &payload.phone {
        Some(p) => {
            let t = trim(p.as_str());
            if t.is_empty() {
                return Err(ApiResponse::bad_request("phone cannot be empty"));
            }
            if t.len() > MAX_PHONE_LENGTH {
                return Err(ApiResponse::bad_request("phone must be at most 15 characters"));
            }
            Some(String::from_str(t))
        },
        None => None,
    };
    Ok(UserChanges { name, phone })
}

/// The answer to a write of changed user fields.
pub fn update_user_outcome(updated: Result<UserRecord, String>) -> (r: ApiResponse<UserResponse>)
    ensures
        match updated {
            Ok(u) => is_success_response(r, 200, "User updated successfully"@, user_response_of(u)),
            Err(m) => is_db_error_response(r, m@, "Failed to update user"@),
        },
{
    match updated {
        Ok(user) => ApiResponse::success(to_user_response(user), "User updated successfully"),
        Err(message) => map_db_error(message.as_str(), "Failed to update user"),
    }
}

/// The answer to the deletion of the user `id` that was found.
pub fn delete_user_outcome(id: i64, deleted: Result<(), String>) -> (r: ApiResponse<DeleteUserResponse>)
    ensures
        match deleted {
            Ok(_) => is_success_response(
                r,
                200,
                "User deleted successfully"@,
                DeleteUserResponse { id },
            ),
            Err(m) => is_error_response(
                r,
                500,
                "Failed to delete user: "@ + m@,
                "Internal Server Error"@,
            ),
        },
{
    match deleted {
        Ok(_) => ApiResponse::success(DeleteUserResponse { id }, "User deleted successfully"),
        Err(message) => {
            let text = String::from_str("Failed to delete user: ").concat(message.as_str());
            ApiResponse::internal_error(text.as_str())
        },
    }
}

/// A name and phone a creation request is accepted with are stored trimmed,
/// non-empty and within the limits, and would be accepted again as they are.
pub proof fn lemma_accepted_payload_stays_accepted(name: Seq<char>, phone: Seq<char>)
    requires
        payload_problem(trimmed(name), trimmed(phone)) is None,
    ensures
        payload_problem(trimmed(trimmed(name)), trimmed(trimmed(phone))) is None,
        trimmed(name).len() > 0 && utf8_len(trimmed(name)) <= MAX_USER_NAME_LENGTH,
        trimmed(phone).len() > 0 && utf8_len(trimmed(phone)) <= MAX_PHONE_LENGTH,
{
    lemma_trimmed_idempotent(name);
    lemma_trimmed_idempotent(phone);
}

/// The changes an update is accepted with are trimmed, non-empty and within
/// the limits, and touch at least one field.
pub proof fn lemma_accepted_update_is_valid(name: Option<Seq<char>>, phone: Option<Seq<char>>)
    requires
        update_problem(name, phone) is None,
    ensures
        trimmed_opt(name) is Some || trimmed_opt(phone) is Some,
        trimmed_opt(name) matches Some(n) ==> n.len() > 0 && utf8_len(n) <= MAX_USER_NAME_LENGTH
            && trimmed(n) == n,
        trimmed_opt(phone) matches Some(p) ==> p.len() > 0 && utf8_len(p) <= MAX_PHONE_LENGTH
            && trimmed(p) == p,
{
    if let Some(n) = name {
        lemma_trimmed_idempotent(n);
    }
    if let Some(p) = phone {
        lemma_trimmed_idempotent(p);
    }
}

/// The name a user created at login gets has one to a hundred characters
/// and starts with no white space.
pub proof fn lemma_login_name_bounds(firebase_name: Option<Seq<char>>)
    ensures
        1 <= user_name_for(firebase_name).len() <= 100,
        !crate::text::is_white_space(user_name_for(firebase_name)[0]),
{
    reveal_strlit("User");
    if let Some(n) = firebase_name {
        lemma_trimmed_ends(n);
    }
}

/// A change that sets both fields is accepted exactly when a creation with
/// the same name and phone is.
pub proof fn lemma_update_accepts_what_create_accepts(name: Seq<char>, phone: Seq<char>)
    ensures
        update_problem(Some(name), Some(phone)) is None <==> payload_problem(
            trimmed(name),
            trimmed(phone),
        ) is None,
{
}

/// A change request is accepted exactly when it sets at least one field
/// and every field it sets is, trimmed, non-empty and within its limit.
pub proof fn lemma_update_acceptance(name: Option<Seq<char>>, phone: Option<Seq<char>>)
    ensures
        update_problem(name, phone) is None <==> ((name is Some || phone is Some) && (name is Some
            ==> trimmed(name->Some_0).len() > 0 && utf8_len(trimmed(name->Some_0))
            <= MAX_USER_NAME_LENGTH) && (phone is Some ==> trimmed(phone->Some_0).len() > 0
            && utf8_len(trimmed(phone->Some_0)) <= MAX_PHONE_LENGTH)),
{
}

/// A request that changes only the phone is accepted exactly when the
/// phone, trimmed, is non-empty and at most 15 bytes.
pub proof fn lemma_phone_only_update(phone: Seq<char>)
    ensures
        update_problem(None, Some(phone)) is None <==> (trimmed(phone).len() > 0 && utf8_len(
            trimmed(phone),
        ) <= 15),
{
}

/// A request that changes only the name is accepted exactly when the name,
/// trimmed, is non-empty and at most 100 bytes.
pub proof fn lemma_name_only_update(name: Seq<char>)
    ensures
        update_problem(Some(name), None) is None <==> (trimmed(name).len() > 0 && utf8_len(
            trimmed(name),
        ) <= 100),
{
}

/// A Firebase name that is, trimmed, non-blank and at most a hundred
/// characters is the created user's name as it stands after trimming; a
/// longer one keeps its first hundred characters; none or a blank one
/// gives "User".
pub proof fn lemma_login_name_from_firebase(name: Option<Seq<char>>)
    ensures
        (name is Some && 0 < trimmed(name->Some_0).len() <= 100) ==> user_name_for(name)
            == trimmed(name->Some_0),
        (name is Some && trimmed(name->Some_0).len() > 100) ==> user_name_for(name) == trimmed(
            name->Some_0,
        ).subrange(0, 100),
        (name is None || trimmed(name->Some_0).len() == 0) ==> user_name_for(name) == "User"@,
{
}

} // verus!
