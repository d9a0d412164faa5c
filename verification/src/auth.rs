//! Username/password authentication with server-side sessions.
//!
//! - Passwords are hashed with argon2id.
//! - The session cookie holds a random 256-bit token; only its SHA-256
//!   is stored, so a leaked database does not leak valid sessions.
//! - Roles: `admin` (user management, destructive actions) and
//!   `member` (event publishing and editing).

use vstd::prelude::*;
use vstd::string::*;
use vstd::utf8::encode_utf8;

use argon2::password_hash::{PasswordHasher, PasswordVerifier};
use sha2::Digest;

use crate::config::Secret;
use crate::errors::{is_validation, ApiError};
use crate::ids::{parse_uuid, uuid_value};
use crate::text::{
    ascii_alphanumeric, debug_quoted, debug_text, hex_encode, hex_lower, is_ascii_alphanumeric,
    lemma_hex_lower_len, lemma_utf8_len_bound, starts_with_spec, str_eq, trim, trim_spec,
};
use crate::timestamp::{parse_timestamp, rfc3339_instant, Timestamp, MAX_UTC_SECONDS};

verus! {

broadcast use {vstd::string::group_string_axioms, vstd::array::group_array_axioms};

pub const SESSION_COOKIE: &'static str = "impedanz_session";
pub const SESSION_TTL_DAYS: i64 = 30;
/// The session lifetime in seconds (also the cookie's max-age).
pub const SESSION_TTL_SECONDS: i64 = SESSION_TTL_DAYS * 24 * 60 * 60;
/// Uniform delay on failed logins to blunt brute force and timing probes.
pub const FAILED_LOGIN_DELAY_MILLIS: u64 = 500;
/// The password verified for unknown usernames, so that the response time
/// does not reveal whether an account exists.
pub const DUMMY_PASSWORD: &'static str = "dummy-password-for-timing";

// --- roles ---------------------------------------------------------------

#[derive(Clone, Copy, Debug, PartialEq, Eq, Structural)]
pub enum Role {
    Admin,
    Member,
}

/// The stored (and serialised) name of a role.
pub open spec fn role_name(role: Role) -> Seq<char> {
    match role {
        Role::Admin => "admin"@,
        Role::Member => "member"@,
    }
}

/// The role a stored name denotes.
pub open spec fn role_named(text: Seq<char>) -> Option<Role> {
    if text == "admin"@ {
        Some(Role::Admin)
    } else if text == "member"@ {
        Some(Role::Member)
    } else {
        None
    }
}

/// A role's stored name reads back as the same role, and no two roles share
/// a name.
pub proof fn lemma_role_name_round_trip(role: Role)
    ensures
        role_named(role_name(role)) == Some(role),
{
    reveal_strlit("admin");
    reveal_strlit("member");
    assert("member"@.len() != "admin"@.len());
}

impl Role {
    pub fn as_str(self) -> (r: &'static str)
        ensures
            r@ == role_name(self),
    {
        match self {
            Role::Admin => "admin",
            Role::Member => "member",
        }
    }

    pub fn parse(value: &str) -> (r: Result<Self, ApiError>)
        ensures
            match role_named(value@) {
                Some(role) => r == Ok::<Role, ApiError>(role),
                None => r matches Err(e) && is_validation(e, "unknown role "@ + debug_text(value@)),
            },
    {
        if str_eq(value, "admin") {
            Ok(Role::Admin)
        } else if str_eq(value, "member") {
            Ok(Role::Member)
        } else {
            let quoted = debug_quoted(value);
            Err(ApiError::Validation("unknown role ".to_string().concat(quoted.as_str())))
        }
    }
}

// --- users -----------------------------------------------------------------

/// A user as the API answers with it.
#[derive(Debug, Clone)]
pub struct UserResponse {
    pub id: u128,
    pub username: String,
    pub role: Role,
    pub created_at: Timestamp,
}

/// A row of the `users` table.
pub struct UserRow {
    pub id: String,
    pub username: String,
    pub password_hash: String,
    pub role: String,
    pub created_at: String,
}

/// The response a stored row converts to, when every column is readable.
pub open spec fn user_response_of(row: UserRow) -> Option<UserResponse> {
    match (uuid_value(row.id@), role_named(row.role@), rfc3339_instant(row.created_at@)) {
        (Some(id), Some(role), Some((s, n))) => Some(
            UserResponse {
                id,
                username: row.username,
                role,
                created_at: Timestamp { seconds: s, nanos: n },
            },
        ),
        _ => None,
    }
}

/// The error a row that does not convert is reported with: the first
/// unreadable column, in the order id, role, creation time.
pub open spec fn user_row_error(row: UserRow, e: ApiError) -> bool {
    match uuid_value(row.id@) {
        None => is_validation(e, "corrupt user id "@ + debug_text(row.id@) + " in database"@),
        Some(_) => match role_named(row.role@) {
            None => is_validation(e, "unknown role "@ + debug_text(row.role@)),
            Some(_) => e is CorruptTimestamp,
        },
    }
}

impl UserRow {
    pub fn into_response(self) -> (r: Result<UserResponse, ApiError>)
        ensures
            match user_response_of(self) {
                Some(u) => r == Ok::<UserResponse, ApiError>(u),
                None => r matches Err(e) && user_row_error(self, e),
            },
    {
        let id = match parse_uuid(self.id.as_str()) {
            Some(id) => id,
            None => {
                let quoted = debug_quoted(self.id.as_str());
                return Err(
                    ApiError::Validation(
                        "corrupt user id ".to_string().concat(quoted.as_str()).concat(
                            " in database",
                        ),
                    ),
                );
            },
        };
        let role = match Role::parse(self.role.as_str()) {
            Ok(role) => role,
            Err(e) => return Err(e),
        };
        let created_at = match parse_timestamp(self.created_at.as_str()) {
            Ok(t) => t,
            Err(e) => return Err(e),
        };
        Ok(UserResponse { id, username: self.username, role, created_at })
    }
}

// --- password hashing ------------------------------------------------------

/// Whether argon2 (default instance) accepts `password` for the PHC string
/// `hash`; false when `hash` is not a PHC string.
pub uninterp spec fn phc_accepts(hash: Seq<char>, password: Seq<char>) -> bool;

/// The longest password, in UTF-8 bytes, that argon2 hashes
/// (`argon2::MAX_PWD_LEN`).
pub const MAX_PASSWORD_BYTES: u64 = 0xFFFF_FFFF;

/// How every hash made here begins: the PHC identifier of argon2id and
/// version 19, the defaults of `Argon2::default()`.
pub open spec fn argon2id_prefix() -> Seq<char> {
    "$argon2id$v=19$"@
}

/// `rand::random` for an array of bytes. Nothing is claimed of the bytes.
#[verifier::external_body]
fn random_bytes<const N: usize>() -> (r: [u8; N]) {
    rand::random()
}

/// `Argon2::default().hash_password(password, salt)` serialised with
/// `to_string` as a PHC string, the salt handed over as its B64 encoding
/// (`SaltString::encode_b64`). The contract claims what the argon2 and
/// password-hash sources show:
/// - the B64 form of 16 bytes (22 characters) fits the salt buffer and
///   decodes back to 16 bytes, at least argon2's minimum of 8, so the
///   only input argon2 refuses is a password over `MAX_PWD_LEN` bytes;
/// - the PHC string begins with `$argon2id$v=19$` (the default algorithm
///   and version);
/// - the PHC string is accepted for the same password.
/// What the rest of the string holds is left unsaid.
#[verifier::external_body]
fn argon2_hash(password: &str, salt: &[u8; 16]) -> (r: Result<
    String,
    argon2::password_hash::Error,
>)
    ensures
        encode_utf8(password@).len() <= MAX_PASSWORD_BYTES ==> r is Ok,
        r matches Ok(hash) ==> phc_accepts(hash@, password@) && starts_with_spec(
            hash@,
            argon2id_prefix(),
        ),
{
    let salt = argon2::password_hash::SaltString::encode_b64(salt)?;
    match argon2::Argon2::default().hash_password(password.as_bytes(), &salt) {
        Ok(hash) => Ok(hash.to_string()),
        Err(error) => Err(error),
    }
}

/// `PasswordHash::new(hash)` then `Argon2::default().verify_password`;
/// false when the hash does not parse. The contract claims that the
/// outcome is a function of the two texts, named `phc_accepts`, and what
/// the parser's first check shows: a text that does not begin with `$` is
/// no PHC string, so nothing verifies against it. Which other texts parse,
/// and that no other password matches a hash, is left unsaid.
#[verifier::external_body]
fn argon2_verify(hash: &str, password: &str) -> (r: bool)
    ensures
        r == phc_accepts(hash@, password@),
        !starts_with_spec(hash@, "$"@) ==> !r,
{
    match argon2::password_hash::PasswordHash::new(hash) {
        Ok(parsed) => argon2::Argon2::default().verify_password(password.as_bytes(), &parsed).is_ok(),
        Err(_) => false,
    }
}

/// Hashes a password with argon2id and a fresh random salt. A hash it
/// returns is an argon2id PHC string that [`verify_password`] accepts for
/// the same password; hashing fails only for a password over
/// [`MAX_PASSWORD_BYTES`] bytes.
pub fn hash_password(password: &str) -> (r: Result<String, ApiError>)
    ensures
        encode_utf8(password@).len() <= MAX_PASSWORD_BYTES ==> r is Ok,
        match r {
            Ok(hash) => phc_accepts(hash@, password@) && starts_with_spec(hash@, argon2id_prefix()),
            Err(e) => e is PasswordHash,
        },
{
    let salt: [u8; 16] = random_bytes();
    match argon2_hash(password, &salt) {
        Ok(hash) => Ok(hash),
        Err(error) => Err(ApiError::PasswordHash(error)),
    }
}

/// The hash verified for unknown usernames: a hash of [`DUMMY_PASSWORD`].
/// Callers hash it once and keep it.
pub fn dummy_hash() -> (r: Result<String, ApiError>)
    ensures
        r matches Ok(hash) && phc_accepts(hash@, DUMMY_PASSWORD@),
{
    proof {
        reveal_strlit("dummy-password-for-timing");
        lemma_utf8_len_bound(DUMMY_PASSWORD@);
    }
    hash_password(DUMMY_PASSWORD)
}

/// Whether `password` matches the PHC string `password_hash`; a text that
/// is not a PHC string (it does not even begin with `$`) matches nothing.
pub fn verify_password(password_hash: &str, password: &str) -> (r: bool)
    ensures
        r == phc_accepts(password_hash@, password@),
        !starts_with_spec(password_hash@, "$"@) ==> !r,
{
    argon2_verify(password_hash, password)
}

// --- validation ------------------------------------------------------------

/// Why a new password is refused, if it is.
pub open spec fn password_error(password: Seq<char>) -> Option<Seq<char>> {
    if password.len() < 12 {
        Some("password must be at least 12 characters long"@)
    } else {
        None
    }
}

pub fn validate_password(password: &str) -> (r: Result<(), ApiError>)
    ensures
        match password_error(password@) {
            None => r is Ok,
            Some(m) => r matches Err(e) && is_validation(e, m),
        },
{
    if password.unicode_len() < 12 {
        return Err(ApiError::Validation("password must be at least 12 characters long".to_string()));
    }
    Ok(())
}

pub open spec fn is_username_char(c: char) -> bool {
    is_ascii_alphanumeric(c) || c == '.' || c == '_' || c == '-'
}

/// Why a username is refused, if it is.
pub open spec fn username_error(username: Seq<char>) -> Option<Seq<char>> {
    if !(3 <= username.len() <= 32) {
        Some("username must be between 3 and 32 characters"@)
    } else if !(forall|i: int| 0 <= i < username.len() ==> is_username_char(#[trigger] username[i])) {
        Some("username may only contain a-z, 0-9, '.', '_' and '-'"@)
    } else {
        None
    }
}

pub fn validate_username(username: &str) -> (r: Result<(), ApiError>)
    ensures
        match username_error(username@) {
            None => r is Ok,
            Some(m) => r matches Err(e) && is_validation(e, m),
        },
{
    let length = username.unicode_len();
    if !(3 <= length && length <= 32) {
        return Err(ApiError::Validation("username must be between 3 and 32 characters".to_string()));
    }
    let chars = crate::text::chars_of(username);
    let mut i: usize = 0;
    while i < chars.len()
        invariant
            chars@ == username@,
            3 <= username@.len() <= 32,
            i <= chars.len(),
            forall|j: int| 0 <= j < i ==> is_username_char(#[trigger] username@[j]),
        decreases chars.len() - i,
    {
        let c = chars[i];
        if !(ascii_alphanumeric(c) || c == '.' || c == '_' || c == '-') {
            assert(!is_username_char(username@[i as int]));
            return Err(
                ApiError::Validation(
                    "username may only contain a-z, 0-9, '.', '_' and '-'".to_string(),
                ),
            );
        }
        i = i + 1;
    }
    Ok(())
}

// --- sessions --------------------------------------------------------------

/// The SHA-256 digest of a byte sequence.
pub uninterp spec fn sha256(data: Seq<u8>) -> Seq<u8>;

/// `sha2::Sha256::digest`. The contract claims that the digest is a
/// function of the input, named `sha256`.
#[verifier::external_body]
fn sha256_digest(data: &[u8]) -> (r: [u8; 32])
    ensures
        r@ == sha256(data@),
{
    sha2::Sha256::digest(data).into()
}

/// What is stored for a session token: the hex of its SHA-256.
pub open spec fn token_hash_of(token: Seq<char>) -> Seq<char> {
    hex_lower(sha256(encode_utf8(token)))
}

pub fn token_hash(token: &str) -> (r: String)
    ensures
        r@ == token_hash_of(token@),
{
    let digest = sha256_digest(token.as_bytes());
    hex_encode(digest.as_slice())
}

/// A token is the lower-case hex of 32 bytes.
pub open spec fn is_session_token(token: Seq<char>) -> bool {
    exists|bytes: Seq<u8>| bytes.len() == 32 && token == hex_lower(bytes)
}

/// A fresh random session token: 256 random bits in lower-case hex.
pub fn new_session_token() -> (r: String)
    ensures
        is_session_token(r@),
        r@.len() == 64,
{
    let bytes: [u8; 32] = random_bytes();
    let token = hex_encode(bytes.as_slice());
    proof {
        lemma_hex_lower_len(bytes@);
    }
    token
}

/// When a session started at `now` expires.
pub open spec fn session_expiry(now: Timestamp) -> Timestamp {
    Timestamp { seconds: (now.seconds + SESSION_TTL_SECONDS) as i64, nanos: now.nanos }
}

/// A session about to be stored: the token handed to the client, the hash
/// stored in its place, and its lifetime.
#[derive(Debug)]
pub struct NewSession {
    pub token: String,
    pub token_hash: String,
    pub created_at: Timestamp,
    pub expires_at: Timestamp,
}

/// Starts a session at `now` (far enough from chrono's last instant that
/// the expiry is representable).
pub fn new_session(now: Timestamp) -> (s: NewSession)
    requires
        now.seconds <= MAX_UTC_SECONDS - SESSION_TTL_SECONDS,
    ensures
        is_session_token(s.token@),
        s.token_hash@ == token_hash_of(s.token@),
        s.created_at == now,
        s.expires_at == session_expiry(now),
{
    let token = new_session_token();
    let hash = token_hash(token.as_str());
    NewSession {
        token,
        token_hash: hash,
        created_at: now,
        expires_at: Timestamp { seconds: now.seconds + SESSION_TTL_SECONDS, nanos: now.nanos },
    }
}

/// The attributes of the session cookie.
pub struct SessionCookie {
    pub name: &'static str,
    pub value: String,
    pub http_only: bool,
    pub same_site_strict: bool,
    pub secure: bool,
    pub path: &'static str,
    pub max_age_seconds: i64,
}

/// The cookie is named `impedanz_session`, HttpOnly, SameSite=Strict, and
/// valid for the whole site.
pub open spec fn is_session_cookie(c: SessionCookie, value: Seq<char>, secure: bool, max_age: i64) -> bool {
    &&& c.name@ == SESSION_COOKIE@
    &&& c.value@ == value
    &&& c.http_only
    &&& c.same_site_strict
    &&& c.secure == secure
    &&& c.path@ == "/"@
    &&& c.max_age_seconds == max_age
}

pub fn session_cookie(token: String, secure: bool, max_age_seconds: i64) -> (c: SessionCookie)
    ensures
        is_session_cookie(c, token@, secure, max_age_seconds),
{
    proof {
        reveal_strlit("/");
    }
    let path = "/";
    assert(path@ == "/"@);
    SessionCookie {
        name: SESSION_COOKIE,
        value: token,
        http_only: true,
        same_site_strict: true,
        secure,
        path,
        max_age_seconds,
    }
}

/// The cookie handed out on login: the token, for the session's lifetime.
pub fn login_cookie(token: String, secure: bool) -> (c: SessionCookie)
    ensures
        is_session_cookie(c, token@, secure, SESSION_TTL_SECONDS),
{
    session_cookie(token, secure, SESSION_TTL_SECONDS)
}

/// The cookie that removes the session cookie: empty, with max-age 0.
pub fn removal_cookie(secure: bool) -> (c: SessionCookie)
    ensures
        is_session_cookie(c, Seq::empty(), secure, 0),
{
    session_cookie(String::new(), secure, 0)
}

/// A login finds its session again, for as long as the session lasts: the
/// session cookie handed out on login carries the token whose hash was
/// stored for the session, so hashing the cookie's value gives the stored
/// hash, and the cookie lives exactly as long as the session.
pub proof fn lemma_login_cookie_finds_its_session(
    session: NewSession,
    cookie: SessionCookie,
    secure: bool,
)
    requires
        session.token_hash@ == token_hash_of(session.token@),
        session.created_at.seconds <= MAX_UTC_SECONDS - SESSION_TTL_SECONDS,
        session.expires_at == session_expiry(session.created_at),
        is_session_cookie(cookie, session.token@, secure, SESSION_TTL_SECONDS),
    ensures
        token_hash_of(cookie.value@) == session.token_hash@,
        cookie.max_age_seconds == session.expires_at.seconds - session.created_at.seconds,
{
}

// --- the session of a request ------------------------------------------------

/// The logged-in user of a request.
#[derive(Debug)]
pub struct AuthSession {
    pub user: UserResponse,
    pub token: String,
}

impl AuthSession {
    pub fn require_role(&self, role: Role) -> (r: Result<(), ApiError>)
        ensures
            r is Ok <==> self.user.role == role,
            r matches Err(e) ==> e is Forbidden,
    {
        if self.user.role == role {
            Ok(())
        } else {
            Err(ApiError::Forbidden)
        }
    }
}

/// The session of a request that must be authenticated: `token` is the
/// session cookie's value, `user` the user the database found for it.
/// Missing cookie and unknown or expired session are both 401.
pub fn authenticate(token: Option<String>, user: Option<UserRow>) -> (r: Result<AuthSession, ApiError>)
    ensures
        match (token, user) {
            (Some(t), Some(row)) => match user_response_of(row) {
                Some(u) => r == Ok::<AuthSession, ApiError>(AuthSession { user: u, token: t }),
                None => r matches Err(e) && user_row_error(row, e),
            },
            _ => r matches Err(ApiError::Unauthorized),
        },
{
    let token = match token {
        Some(t) => t,
        None => return Err(ApiError::Unauthorized),
    };
    let row = match user {
        Some(row) => row,
        None => return Err(ApiError::Unauthorized),
    };
    match row.into_response() {
        Ok(user) => Ok(AuthSession { user, token }),
        Err(e) => Err(e),
    }
}

/// The session of a request where logging in is optional: no session for a
/// missing cookie or an unknown or expired session, but unreadable stored
/// data is still an error.
pub fn authenticate_optional(token: Option<String>, user: Option<UserRow>) -> (r: Result<
    Option<AuthSession>,
    ApiError,
>)
    ensures
        match (token, user) {
            (Some(t), Some(row)) => match user_response_of(row) {
                Some(u) => r == Ok::<Option<AuthSession>, ApiError>(
                    Some(AuthSession { user: u, token: t }),
                ),
                None => r matches Err(e) && user_row_error(row, e),
            },
            _ => r == Ok::<Option<AuthSession>, ApiError>(None),
        },
{
    let token = match token {
        Some(t) => t,
        None => return Ok(None),
    };
    let row = match user {
        Some(row) => row,
        None => return Ok(None),
    };
    match row.into_response() {
        Ok(user) => Ok(Some(AuthSession { user, token })),
        Err(e) => Err(e),
    }
}

// --- login and passwords -----------------------------------------------------

pub struct LoginRequest {
    pub username: String,
    pub password: String,
}

impl LoginRequest {
    /// The name the user is looked up by: the username without surrounding
    /// white space.
    pub fn lookup_name(&self) -> (r: &str)
        ensures
            r@ == trim_spec(self.username@),
    {
        trim(self.username.as_str())
    }
}

pub struct ChangePasswordRequest {
    pub current_password: String,
    pub new_password: String,
}

/// Checks a password against the stored hash; a mismatch is 401.
pub fn confirm_password(password_hash: &str, password: &str) -> (r: Result<(), ApiError>)
    ensures
        r is Ok <==> phc_accepts(password_hash@, password@),
        r matches Err(e) ==> e is Unauthorized,
{
    if verify_password(password_hash, password) {
        Ok(())
    } else {
        Err(ApiError::Unauthorized)
    }
}

/// The login decision for the user found under the requested name. An
/// unknown name is refused like a wrong password, after verifying the
/// password against `dummy_hash` so that both take the same time.
pub fn check_login(found: Option<&UserRow>, password: &str, dummy_hash: &str) -> (r: Result<
    (),
    ApiError,
>)
    ensures
        r is Ok <==> (found matches Some(user) && phc_accepts(user.password_hash@, password@)),
        r matches Err(e) ==> e is Unauthorized,
{
    match found {
        None => {
            let _ = verify_password(dummy_hash, password);
            Err(ApiError::Unauthorized)
        },
        Some(user) => confirm_password(user.password_hash.as_str(), password),
    }
}

// --- bootstrap ---------------------------------------------------------------

/// What to do about the initial admin account at start-up.
pub enum InitialAdmin {
    /// The users table is not empty: nothing.
    UsersExist,
    /// No users and no configured credentials: nobody can log in.
    NotConfigured,
    /// Create this admin account.
    Create { username: String, password_hash: String },
}

/// The initial admin is created only when the users table is empty and both
/// the username and the password are configured.
pub fn initial_admin(user_count: i64, username: Option<&str>, password: Option<&Secret>) -> (r: Result<
    InitialAdmin,
    ApiError,
>)
    ensures
        user_count > 0 ==> r matches Ok(InitialAdmin::UsersExist),
        user_count <= 0 && (username is None || password is None) ==> r matches Ok(
            InitialAdmin::NotConfigured,
        ),
        user_count <= 0 && username is Some && password is Some ==> match r {
            Ok(InitialAdmin::Create { username: name, password_hash }) => name@
                == username.unwrap()@ && phc_accepts(password_hash@, password.unwrap().0@)
                && starts_with_spec(password_hash@, argon2id_prefix()),
            Ok(_) => false,
            Err(e) => e is PasswordHash && encode_utf8(password.unwrap().0@).len()
                > MAX_PASSWORD_BYTES,
        },
{
    if user_count > 0 {
        return Ok(InitialAdmin::UsersExist);
    }
    match (username, password) {
        (Some(name), Some(secret)) => match hash_password(secret.0.as_str()) {
            Ok(hash) => Ok(InitialAdmin::Create { username: name.to_string(), password_hash: hash }),
            Err(e) => Err(e),
        },
        _ => Ok(InitialAdmin::NotConfigured),
    }
}


// --- laws of users and validation -----------------------------------------------

/// A stored user converts exactly when its id, role and creation time are
/// readable, and the user it converts to carries what each column
/// denotes: the UUID of the id, the role the name stands for, the instant
/// of the creation time, and the username unchanged.
pub proof fn lemma_user_carries_its_columns(row: UserRow)
    ensures
        user_response_of(row) is Some <==> (uuid_value(row.id@) is Some && (row.role@ == "admin"@
            || row.role@ == "member"@) && rfc3339_instant(row.created_at@) is Some),
        user_response_of(row) matches Some(u) ==> {
            &&& uuid_value(row.id@) == Some(u.id)
            &&& u.username == row.username
            &&& (row.role@ == "admin"@ ==> u.role == Role::Admin)
            &&& (row.role@ == "member"@ ==> u.role == Role::Member)
            &&& rfc3339_instant(row.created_at@) == Some((u.created_at.seconds, u.created_at.nanos))
        },
{
    reveal_strlit("admin");
    reveal_strlit("member");
    assert("admin"@.len() != "member"@.len());
}

/// The two roles are stored as `admin` and `member`, and no other stored
/// name denotes a role.
pub proof fn lemma_role_names(text: Seq<char>)
    ensures
        role_name(Role::Admin) == "admin"@,
        role_name(Role::Member) == "member"@,
        role_named(text) is Some <==> (text == "admin"@ || text == "member"@),
{
}

/// A password is accepted exactly when it has at least twelve characters.
pub proof fn lemma_password_rule(password: Seq<char>)
    ensures
        password_error(password) is None <==> password.len() >= 12,
{
}

/// A username is accepted exactly when it has 3 to 32 characters, each an
/// ASCII letter or digit, `.`, `_` or `-`.
pub proof fn lemma_username_rule(username: Seq<char>)
    ensures
        username_error(username) is None <==> (3 <= username.len() <= 32 && forall|i: int|
            0 <= i < username.len() ==> {
                let c = #[trigger] username[i];
                ('a' <= c <= 'z') || ('A' <= c <= 'Z') || ('0' <= c <= '9') || c == '.' || c == '_'
                    || c == '-'
            }),
{
}

} // verus!
