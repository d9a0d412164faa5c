//! User management, admin only. The guards make sure the system can
//! never end up without an admin.

use vstd::prelude::*;
use vstd::string::*;

use vstd::utf8::encode_utf8;

use crate::auth::{
    argon2id_prefix, hash_password, is_username_char, password_error, phc_accepts, role_name,
    user_response_of, user_row_error, username_error, validate_password, validate_username,
    AuthSession, Role, UserResponse, UserRow, MAX_PASSWORD_BYTES,
};
use crate::errors::{is_conflict, is_validation, ApiError};
use crate::text::{
    debug_quoted, debug_text, first_kept, kept_end, lemma_first_kept, lemma_kept_end,
    starts_with_spec, str_eq, to_lowercase, trim, trim_spec, unicode_lowercase,
};

verus! {

broadcast use vstd::string::group_string_axioms;

pub struct CreateUserRequest {
    pub username: String,
    pub password: String,
    pub role: Role,
}

pub struct UpdateUserRequest {
    /// New role; omit to keep the current one.
    pub role: Option<Role>,
    /// New password; omit to keep the current one. Setting it revokes
    /// all of the user's sessions.
    pub password: Option<String>,
}

/// The username an account is created under: the requested name without
/// surrounding white space, lower-cased.
pub open spec fn normalized_username(requested: Seq<char>) -> Seq<char> {
    unicode_lowercase(trim_spec(requested))
}

/// An account that passed the checks and is about to be created.
#[derive(Debug)]
pub struct NewUser {
    pub username: String,
    pub role: Role,
}

/// The checks before an account is created: the caller must be an admin,
/// and the normalised username and the password must be acceptable.
pub fn prepare_new_user(session: &AuthSession, request: &CreateUserRequest) -> (r: Result<
    NewUser,
    ApiError,
>)
    ensures
        session.user.role != Role::Admin ==> r matches Err(ApiError::Forbidden),
        session.user.role == Role::Admin ==> match username_error(
            normalized_username(request.username@),
        ) {
            Some(m) => r matches Err(e) && is_validation(e, m),
            None => match password_error(request.password@) {
                Some(m) => r matches Err(e) && is_validation(e, m),
                None => r matches Ok(u) && u.username@ == normalized_username(request.username@)
                    && u.role == request.role,
            },
        },
{
    match session.require_role(Role::Admin) {
        Ok(()) => {},
        Err(e) => return Err(e),
    }
    let username = to_lowercase(trim(request.username.as_str()));
    match validate_username(username.as_str()) {
        Ok(()) => {},
        Err(e) => return Err(e),
    }
    match validate_password(request.password.as_str()) {
        Ok(()) => {},
        Err(e) => return Err(e),
    }
    Ok(NewUser { username, role: request.role })
}

/// A username is free when no account holds it yet (`existing` accounts
/// do).
pub fn username_available(existing: i64, username: &str) -> (r: Result<(), ApiError>)
    ensures
        r is Ok <==> existing <= 0,
        r matches Err(e) ==> is_conflict(
            e,
            "username "@ + debug_text(username@) + " is already taken"@,
        ),
{
    if existing > 0 {
        let quoted = debug_quoted(username);
        return Err(
            ApiError::Conflict(
                "username ".to_string().concat(quoted.as_str()).concat(" is already taken"),
            ),
        );
    }
    Ok(())
}

/// Converts the listed rows in order; the first row that does not convert
/// decides the error.
pub fn user_responses(rows: Vec<UserRow>) -> (r: Result<Vec<UserResponse>, ApiError>)
    ensures
        r is Ok <==> forall|i: int| 0 <= i < rows@.len() ==> user_response_of(#[trigger] rows@[i]) is Some,
        r matches Ok(v) ==> v@.len() == rows@.len() && forall|i: int|
            0 <= i < rows@.len() ==> Some(#[trigger] v@[i]) == user_response_of(rows@[i]),
        r matches Err(e) ==> exists|i: int|
            0 <= i < rows@.len() && user_response_of(#[trigger] rows@[i]) is None && user_row_error(
                rows@[i],
                e,
            ) && forall|j: int| 0 <= j < i ==> user_response_of(#[trigger] rows@[j]) is Some,
{
    let ghost all = rows@;
    let mut out: Vec<UserResponse> = Vec::new();
    for row in it: rows
        invariant
            it.seq() == all,
            out@.len() == it.index(),
            forall|j: int| 0 <= j < it.index() ==> Some(#[trigger] out@[j]) == user_response_of(all[j]),
    {
        let ghost k = it.index();
        match row.into_response() {
            Ok(u) => out.push(u),
            Err(e) => {
                assert(user_response_of(all[k]) is None);
                assert(forall|j: int| 0 <= j < k ==> user_response_of(#[trigger] all[j]) is Some) by {
                    assert forall|j: int| 0 <= j < k implies user_response_of(#[trigger] all[j]) is Some by {
                        assert(Some(out@[j]) == user_response_of(all[j]));
                    }
                }
                return Err(e);
            },
        }
    }
    assert forall|i: int| 0 <= i < all.len() implies user_response_of(#[trigger] all[i]) is Some by {
        assert(Some(out@[i]) == user_response_of(all[i]));
    }
    Ok(out)
}

// --- the last-admin guard -----------------------------------------------------

/// A role change turns an admin into a member.
pub open spec fn demotes_admin_spec(target_role: Seq<char>, new_role: Role) -> bool {
    target_role == "admin"@ && new_role == Role::Member
}

/// Deleting the account removes an admin.
pub open spec fn removes_admin_spec(target_role: Seq<char>) -> bool {
    target_role == "admin"@
}

/// With `admin_count` admins, one of them may be demoted or deleted.
pub open spec fn keeps_an_admin(admin_count: int) -> bool {
    admin_count > 1
}

pub fn demotes_admin(target: &UserRow, new_role: Role) -> (r: bool)
    ensures
        r == demotes_admin_spec(target.role@, new_role),
{
    str_eq(target.role.as_str(), "admin") && new_role == Role::Member
}

pub fn removes_admin(target: &UserRow) -> (r: bool)
    ensures
        r == removes_admin_spec(target.role@),
{
    str_eq(target.role.as_str(), "admin")
}

/// What would take an admin away.
#[derive(Clone, Copy, Debug, PartialEq, Eq, Structural)]
pub enum AdminRemoval {
    Demote,
    Delete,
}

/// The message a refused removal of the last admin is answered with.
pub open spec fn last_admin_message(action: AdminRemoval) -> Seq<char> {
    match action {
        AdminRemoval::Demote => "cannot demote the last remaining admin"@,
        AdminRemoval::Delete => "cannot delete the last remaining admin"@,
    }
}

/// Refuses to demote or delete an admin when `admin_count` admins exist
/// and it is the only one.
pub fn guard_last_admin(action: AdminRemoval, admin_count: i64) -> (r: Result<(), ApiError>)
    ensures
        r is Ok <==> keeps_an_admin(admin_count as int),
        r matches Err(e) ==> is_conflict(e, last_admin_message(action)),
{
    if admin_count <= 1 {
        let message = match action {
            AdminRemoval::Demote => "cannot demote the last remaining admin".to_string(),
            AdminRemoval::Delete => "cannot delete the last remaining admin".to_string(),
        };
        return Err(ApiError::Conflict(message));
    }
    Ok(())
}

// --- updating an account --------------------------------------------------------

/// What an update request changes, in the order it is carried out: the
/// role first, then the password.
#[derive(Debug)]
pub struct UserUpdate {
    /// The role to store, if the request names one.
    pub role: Option<Role>,
    /// After the role is stored: the new password hash to store (storing it
    /// revokes the user's sessions), none when the request names no
    /// password, or the error the request then ends with.
    pub password: Result<Option<String>, ApiError>,
}

/// The request demotes the admin `target`.
pub open spec fn update_demotes(target: UserRow, request: UpdateUserRequest) -> bool {
    request.role matches Some(new_role) && demotes_admin_spec(target.role@, new_role)
}

/// Only a demotion of an admin needs the number of admins.
pub fn needs_admin_count(target: &UserRow, request: &UpdateUserRequest) -> (r: bool)
    ensures
        r == update_demotes(*target, *request),
{
    match request.role {
        Some(new_role) => demotes_admin(target, new_role),
        None => false,
    }
}

/// What becomes of a password the request names: none is kept as it is; a
/// refused one ends the request with the refusal; an accepted one is
/// replaced by an argon2id hash that accepts it (hashing fails only for a
/// password over [`MAX_PASSWORD_BYTES`] bytes).
pub open spec fn password_outcome(
    password: Option<String>,
    outcome: Result<Option<String>, ApiError>,
) -> bool {
    match password {
        None => outcome matches Ok(None),
        Some(pw) => match password_error(pw@) {
            Some(m) => outcome matches Err(e) && is_validation(e, m),
            None => match outcome {
                Ok(Some(hash)) => phc_accepts(hash@, pw@) && starts_with_spec(
                    hash@,
                    argon2id_prefix(),
                ),
                Ok(None) => false,
                Err(e) => e is PasswordHash && encode_utf8(pw@).len() > MAX_PASSWORD_BYTES,
            },
        },
    }
}

/// The outcome of an update request on `target`, given the number of admins
/// when the request demotes an admin: a demotion of the last admin is
/// refused before anything is stored; otherwise the role named is stored,
/// then the password is dealt with.
pub open spec fn update_outcome(
    target: UserRow,
    request: UpdateUserRequest,
    admins_now: Option<i64>,
    r: Result<UserUpdate, ApiError>,
) -> bool {
    if update_demotes(target, request) && !keeps_an_admin(admins_now->Some_0 as int) {
        r matches Err(e) && is_conflict(e, last_admin_message(AdminRemoval::Demote))
    } else {
        r matches Ok(u) && u.role == request.role && password_outcome(request.password, u.password)
    }
}

/// Decides an update request on `target`; `admins_now` is the number of
/// admins, which is asked for only when the request demotes an admin.
pub fn plan_user_update(
    target: &UserRow,
    request: &UpdateUserRequest,
    admins_now: Option<i64>,
) -> (r: Result<UserUpdate, ApiError>)
    requires
        update_demotes(*target, *request) ==> admins_now is Some,
    ensures
        update_outcome(*target, *request, admins_now, r),
{
    if needs_admin_count(target, request) {
        match guard_last_admin(AdminRemoval::Demote, admins_now.unwrap()) {
            Ok(()) => {},
            Err(e) => return Err(e),
        }
    }
    let password = match &request.password {
        None => Ok(None),
        Some(pw) => match validate_password(pw.as_str()) {
            Err(e) => Err(e),
            Ok(()) => match hash_password(pw.as_str()) {
                Ok(hash) => Ok(Some(hash)),
                Err(e) => Err(e),
            },
        },
    };
    Ok(UserUpdate { role: request.role, password })
}

// --- the users table as the guard sees it ------------------------------------------

/// The ids of the admins in a users table, which maps each user id to the
/// stored role name.
pub open spec fn admins(users: Map<Seq<char>, Seq<char>>) -> Set<Seq<char>> {
    users.dom().filter(|id: Seq<char>| users[id] == "admin"@)
}

pub open spec fn admin_count(users: Map<Seq<char>, Seq<char>>) -> nat {
    admins(users).len()
}

proof fn lemma_admins_finite(users: Map<Seq<char>, Seq<char>>)
    requires
        users.dom().finite(),
    ensures
        admins(users).finite(),
{
    users.dom().lemma_len_filter(|id: Seq<char>| users[id] == "admin"@);
}

/// A role change that the last-admin guard lets through leaves at least
/// one admin: when the guard is consulted (the change demotes an admin) it
/// was given the number of admins in the table.
pub proof fn lemma_role_change_keeps_an_admin(
    users: Map<Seq<char>, Seq<char>>,
    id: Seq<char>,
    new_role: Role,
)
    requires
        users.dom().finite(),
        users.contains_key(id),
        admin_count(users) >= 1,
        demotes_admin_spec(users[id], new_role) ==> keeps_an_admin(admin_count(users) as int),
    ensures
        admin_count(users.insert(id, role_name(new_role))) >= 1,
{
    reveal_strlit("admin");
    reveal_strlit("member");
    let changed = users.insert(id, role_name(new_role));
    assert(changed.dom() =~= users.dom());
    lemma_admins_finite(users);
    lemma_admins_finite(changed);
    let before = admins(users);
    let after = admins(changed);
    if new_role == Role::Admin {
        assert(after.contains(id));
        assert(after.remove(id).len() == after.len() - 1);
    } else {
        assert(role_name(new_role).len() != "admin"@.len());
        assert(changed[id] != "admin"@);
        if users[id] == "admin"@ {
            assert forall|k: Seq<char>| after.contains(k) <==> before.remove(id).contains(k) by {
                if k != id {
                    assert(changed[k] == users[k]);
                }
            }
            assert(after =~= before.remove(id));
            assert(before.contains(id));
        } else {
            assert forall|k: Seq<char>| after.contains(k) <==> before.contains(k) by {
                if k != id {
                    assert(changed[k] == users[k]);
                }
            }
            assert(after =~= before);
        }
    }
}

/// An update request never leaves the system without an admin: when the
/// request is decided with the table's number of admins, the role it then
/// stores (if any) leaves at least one admin.
pub proof fn lemma_user_update_keeps_an_admin(
    users: Map<Seq<char>, Seq<char>>,
    id: Seq<char>,
    target: UserRow,
    request: UpdateUserRequest,
    admins_now: Option<i64>,
    update: UserUpdate,
)
    requires
        users.dom().finite(),
        users.contains_key(id),
        users[id] == target.role@,
        admin_count(users) >= 1,
        update_demotes(target, request) ==> admins_now is Some,
        admins_now matches Some(c) ==> c == admin_count(users),
        update_outcome(target, request, admins_now, Ok(update)),
    ensures
        match update.role {
            Some(new_role) => admin_count(users.insert(id, role_name(new_role))) >= 1,
            None => admin_count(users) >= 1,
        },
{
    match update.role {
        Some(new_role) => {
            assert(request.role == Some(new_role));
            lemma_role_change_keeps_an_admin(users, id, new_role);
        },
        None => {},
    }
}

/// A deletion that the last-admin guard lets through leaves at least one
/// admin.
pub proof fn lemma_deletion_keeps_an_admin(users: Map<Seq<char>, Seq<char>>, id: Seq<char>)
    requires
        users.dom().finite(),
        users.contains_key(id),
        admin_count(users) >= 1,
        removes_admin_spec(users[id]) ==> keeps_an_admin(admin_count(users) as int),
    ensures
        admin_count(users.remove(id)) >= 1,
{
    let remaining = users.remove(id);
    lemma_admins_finite(users);
    lemma_admins_finite(remaining);
    let before = admins(users);
    let after = admins(remaining);
    if users[id] == "admin"@ {
        assert(after =~= before.remove(id));
        assert(before.contains(id));
    } else {
        assert(after =~= before);
    }
}

/// Creating an account never takes an admin away.
pub proof fn lemma_creation_keeps_admins(users: Map<Seq<char>, Seq<char>>, id: Seq<char>, role: Role)
    requires
        users.dom().finite(),
        !users.contains_key(id),
    ensures
        admin_count(users.insert(id, role_name(role))) >= admin_count(users),
{
    let grown = users.insert(id, role_name(role));
    lemma_admins_finite(users);
    lemma_admins_finite(grown);
    assert(admins(users).subset_of(admins(grown)));
    vstd::set_lib::lemma_len_subset(admins(users), admins(grown));
}

/// The initial admin created at start-up on an empty users table is the
/// one admin of the table.
pub proof fn lemma_initial_admin_is_the_admin(id: Seq<char>)
    ensures
        admin_count(Map::<Seq<char>, Seq<char>>::empty().insert(id, role_name(Role::Admin))) == 1,
{
    let users = Map::<Seq<char>, Seq<char>>::empty().insert(id, role_name(Role::Admin));
    assert(admins(users) =~= Set::empty().insert(id));
}

// --- logging in under the stored name ----------------------------------------------

/// An account is found at login under the name it was created with: the
/// name stored for an accepted request is left as it is by the trimming
/// that login applies to the name it is given.
pub proof fn lemma_stored_username_is_found_at_login(requested: Seq<char>)
    requires
        username_error(normalized_username(requested)) is None,
    ensures
        trim_spec(normalized_username(requested)) == normalized_username(requested),
{
    let name = normalized_username(requested);
    lemma_first_kept(name, 0);
    lemma_kept_end(name, name.len() as int);
    assert(is_username_char(name[0]));
    assert(is_username_char(name[name.len() - 1]));
    assert(first_kept(name, 0) == 0);
    assert(kept_end(name, name.len() as int) == name.len());
    assert(name.subrange(0, name.len() as int) =~= name);
}

} // verus!
