use vstd::prelude::*;

use crate::clock::{clamp_time, format_rfc3339, now_millis, rfc3339_of, valid_time};
use crate::crypto::{bcrypt_hash_format, hash_matches, hash_password, verify_password};
use crate::domain::{parse_role, role_name, role_str, user_row_wf, valid_role_str, User};
use crate::errors::AppError;
use crate::store::{
    email_taken, find_user_by_email, find_user_by_id, lemma_users_push_wf, user_id_taken,
    username_taken, users_wf, Store,
};
use crate::token::fresh_uuid;

verus! {

/// Payload of a registration attempt; `role` names one of the two roles.
pub struct RegisterRequest {
    pub username: String,
    pub email: String,
    pub password: String,
    pub role: String,
}

/// The public fields of a user; the password hash never leaves the store.
pub struct UserResponse {
    pub id: String,
    pub username: String,
    pub email: String,
    pub role: String,
    pub created_at: String,
}

/// Payload of a login attempt.
pub struct LoginRequest {
    pub email: String,
    pub password: String,
}

/// A successful login: the user's public fields. No session token is issued.
pub struct LoginResponse {
    pub user: UserResponse,
    pub message: String,
}

/// The response renders exactly the public fields of the stored user.
pub open spec fn user_response_matches(u: User, r: UserResponse) -> bool {
    &&& r.id@ == u.id@
    &&& r.username@ == u.username@
    &&& r.email@ == u.email@
    &&& r.role@ == role_str(u.role)
    &&& r.created_at@ == rfc3339_of(u.created_at as int)
}

/// Some stored user carries this email and a hash that the password matches.
pub open spec fn credentials_ok(users: Seq<User>, email: Seq<char>, password: Seq<char>) -> bool {
    exists|i: int|
        0 <= i < users.len() && #[trigger] users[i].email@ == email && hash_matches(
            password,
            users[i].password_hash@,
        )
}

/// Every hash stored under this email is one bcrypt accepts — true in
/// particular of every hash that registration wrote.
pub open spec fn stored_hash_wellformed(users: Seq<User>, email: Seq<char>) -> bool {
    forall|i: int|
        0 <= i < users.len() && #[trigger] users[i].email@ == email ==> bcrypt_hash_format(
            users[i].password_hash@,
        )
}

/// Builds the public view of a stored user.
pub fn user_response_of(u: &User) -> (r: UserResponse)
    requires
        user_row_wf(*u),
    ensures
        user_response_matches(*u, r),
{
    UserResponse {
        id: u.id.clone(),
        username: u.username.clone(),
        email: u.email.clone(),
        role: role_name(u.role),
        created_at: format_rfc3339(u.created_at),
    }
}

/// The persistence step of registration, with the fresh id, the password
/// hash and the clock reading as explicit inputs. Rejects a role outside the
/// two known ones before anything else; reports a conflict when the email,
/// the username or the id is already taken; otherwise appends the new user.
pub fn register_with(
    store: &mut Store,
    req: &RegisterRequest,
    id: String,
    password_hash: String,
    now: i64,
) -> (r: Result<UserResponse, AppError>)
    requires
        old(store).wf(),
        valid_time(now),
    ensures
        final(store).wf(),
        final(store).invites@ == old(store).invites@,
        final(store).tasks@ == old(store).tasks@,
        r is Err ==> final(store).users@ == old(store).users@,
        (r == Err::<UserResponse, AppError>(AppError::Validation)) <==> !valid_role_str(
            req.role@,
        ),
        valid_role_str(req.role@) ==> ((r == Err::<UserResponse, AppError>(AppError::Conflict))
            <==> (email_taken(old(store).users@, req.email@) || username_taken(
            old(store).users@,
            req.username@,
        ) || user_id_taken(old(store).users@, id@))),
        r matches Err(e) ==> (e == AppError::Validation || e == AppError::Conflict),
        r matches Ok(resp) ==> ({
            let u = final(store).users@.last();
            &&& valid_role_str(req.role@)
            &&& !email_taken(old(store).users@, req.email@)
            &&& !username_taken(old(store).users@, req.username@)
            &&& !user_id_taken(old(store).users@, id@)
            &&& final(store).users@ == old(store).users@.push(u)
            &&& u.id@ == id@
            &&& u.username@ == req.username@
            &&& u.email@ == req.email@
            &&& u.password_hash@ == password_hash@
            &&& req.role@ == role_str(u.role)
            &&& u.created_at == now
            &&& user_response_matches(u, resp)
        }),
{
    let role = match parse_role(req.role.as_str()) {
        Some(role) => role,
        None => {
            return Err(AppError::Validation);
        },
    };
    if find_user_by_email(&store.users, req.email.as_str()).is_some() {
        return Err(AppError::Conflict);
    }
    if find_user_by_name(&store.users, req.username.as_str()).is_some() {
        return Err(AppError::Conflict);
    }
    if find_user_by_id(&store.users, id.as_str()).is_some() {
        return Err(AppError::Conflict);
    }
    let u = User {
        id,
        username: req.username.clone(),
        email: req.email.clone(),
        password_hash,
        role,
        created_at: now,
    };
    let resp = user_response_of(&u);
    proof {
        lemma_users_push_wf(store.users@, u);
    }
    store.users.push(u);
    Ok(resp)
}

/// Looks a user up by username.
pub fn find_user_by_name(users: &Vec<User>, username: &str) -> (r: Option<usize>)
    ensures
        match r {
            Some(i) => i < users@.len() && users@[i as int].username@ == username@,
            None => !username_taken(users@, username@),
        },
{
    let mut i: usize = 0;
    while i < users.len()
        invariant
            0 <= i <= users@.len(),
            forall|k: int| 0 <= k < i ==> #[trigger] users@[k].username@ != username@,
        decreases users@.len() - i,
    {
        if crate::domain::str_eq(users[i].username.as_str(), username) {
            return Some(i);
        }
        i += 1;
    }
    None
}

/// Registration: rejects an unknown role before any row is written, hashes
/// the password with bcrypt, and stores the new user unless the email or the
/// username is already taken.
pub fn register(store: &mut Store, req: RegisterRequest) -> (r: Result<UserResponse, AppError>)
    requires
        old(store).wf(),
    ensures
        final(store).wf(),
        final(store).invites@ == old(store).invites@,
        final(store).tasks@ == old(store).tasks@,
        r is Err ==> final(store).users@ == old(store).users@,
        (r == Err::<UserResponse, AppError>(AppError::Validation)) <==> !valid_role_str(
            req.role@,
        ),
        r matches Err(e) ==> (e == AppError::Validation || e == AppError::Conflict
            || e == AppError::Internal),
        valid_role_str(req.role@) && (email_taken(old(store).users@, req.email@)
            || username_taken(old(store).users@, req.username@)) ==> (r == Err::<
            UserResponse,
            AppError,
        >(AppError::Conflict) || r == Err::<UserResponse, AppError>(AppError::Internal)),
        r == Err::<UserResponse, AppError>(AppError::Conflict) ==> valid_role_str(req.role@),
        r matches Ok(resp) ==> ({
            let u = final(store).users@.last();
            &&& valid_role_str(req.role@)
            &&& !email_taken(old(store).users@, req.email@)
            &&& !username_taken(old(store).users@, req.username@)
            &&& final(store).users@ == old(store).users@.push(u)
            &&& u.id@.len() == 36
            &&& u.username@ == req.username@
            &&& u.email@ == req.email@
            &&& req.role@ == role_str(u.role)
            &&& valid_time(u.created_at)
            &&& hash_matches(req.password@, u.password_hash@)
            &&& bcrypt_hash_format(u.password_hash@)
            &&& user_response_matches(u, resp)
        }),
{
    if parse_role(req.role.as_str()).is_none() {
        return Err(AppError::Validation);
    }
    let id = fresh_uuid();
    let now = clamp_time(now_millis());
    let password_hash = match hash_password(req.password.as_str()) {
        Ok(h) => h,
        Err(_) => {
            return Err(AppError::Internal);
        },
    };
    register_with(store, &req, id, password_hash, now)
}

/// Login: verifies the password against the stored hash. A missing email and
/// a failed verification yield the same error, so the response does not leak
/// which accounts exist; matching credentials are never turned away.
pub fn login(store: &Store, req: LoginRequest) -> (r: Result<LoginResponse, AppError>)
    requires
        store.wf(),
    ensures
        r matches Err(e) ==> (e == AppError::Auth || e == AppError::Internal),
        !email_taken(store.users@, req.email@) ==> r == Err::<LoginResponse, AppError>(
            AppError::Auth,
        ),
        r == Err::<LoginResponse, AppError>(AppError::Auth) ==> !credentials_ok(
            store.users@,
            req.email@,
            req.password@,
        ),
        credentials_ok(store.users@, req.email@, req.password@) ==> r is Ok,
        stored_hash_wellformed(store.users@, req.email@) && !credentials_ok(
            store.users@,
            req.email@,
            req.password@,
        ) ==> r == Err::<LoginResponse, AppError>(AppError::Auth),
        r matches Ok(resp) ==> credentials_ok(store.users@, req.email@, req.password@) && (
        exists|i: int|
            0 <= i < store.users@.len() && #[trigger] store.users@[i].email@ == req.email@
                && user_response_matches(store.users@[i], resp.user)),
{
    let idx = match find_user_by_email(&store.users, req.email.as_str()) {
        Some(i) => i,
        None => {
            return Err(AppError::Auth);
        },
    };
    let valid = match verify_password(
        req.password.as_str(),
        store.users[idx].password_hash.as_str(),
    ) {
        Ok(b) => b,
        Err(_) => {
            proof {
                assert(store.users@[idx as int].email@ == req.email@);
                assert(!bcrypt_hash_format(store.users@[idx as int].password_hash@));
                assert(!stored_hash_wellformed(store.users@, req.email@));
                assert forall|j: int|
                    0 <= j < store.users@.len() && #[trigger] store.users@[j].email@
                        == req.email@ implies !hash_matches(
                    req.password@,
                    store.users@[j].password_hash@,
                ) by {
                    if j < idx as int {
                        assert(store.users@[j].email@ != store.users@[idx as int].email@);
                    } else if j > idx as int {
                        assert(store.users@[idx as int].email@ != store.users@[j].email@);
                    }
                }
            }
            return Err(AppError::Internal);
        },
    };
    if !valid {
        proof {
            assert forall|j: int|
                0 <= j < store.users@.len() && #[trigger] store.users@[j].email@
                    == req.email@ implies !hash_matches(
                req.password@,
                store.users@[j].password_hash@,
            ) by {
                if j < idx as int {
                    assert(store.users@[j].email@ != store.users@[idx as int].email@);
                } else if j > idx as int {
                    assert(store.users@[idx as int].email@ != store.users@[j].email@);
                }
            }
        }
        return Err(AppError::Auth);
    }
    proof {
        assert(store.users@[idx as int].email@ == req.email@);
        assert(credentials_ok(store.users@, req.email@, req.password@));
    }
    let user = user_response_of(&store.users[idx]);
    Ok(LoginResponse { user, message: "login successful".to_owned() })
}

/// Fetches the public fields of the user with the given id.
pub fn get_user_by_id(store: &Store, user_id: &str) -> (r: Result<UserResponse, AppError>)
    requires
        store.wf(),
    ensures
        (r == Err::<UserResponse, AppError>(AppError::NotFound)) <==> !user_id_taken(
            store.users@,
            user_id@,
        ),
        r matches Err(e) ==> e == AppError::NotFound,
        r matches Ok(resp) ==> exists|i: int|
            0 <= i < store.users@.len() && #[trigger] store.users@[i].id@ == user_id@
                && user_response_matches(store.users@[i], resp),
{
    match find_user_by_id(&store.users, user_id) {
        Some(i) => Ok(user_response_of(&store.users[i])),
        None => Err(AppError::NotFound),
    }
}

/// How many stored users carry this email.
pub open spec fn count_users_with_email(users: Seq<User>, email: Seq<char>) -> nat
    decreases users.len(),
{
    if users.len() == 0 {
        0
    } else {
        count_users_with_email(users.drop_last(), email) + (if users.last().email@ == email {
            1nat
        } else {
            0nat
        })
    }
}

/// How many stored users carry this username.
pub open spec fn count_users_with_name(users: Seq<User>, username: Seq<char>) -> nat
    decreases users.len(),
{
    if users.len() == 0 {
        0
    } else {
        count_users_with_name(users.drop_last(), username) + (
        if users.last().username@ == username {
            1nat
        } else {
            0nat
        })
    }
}

proof fn lemma_count_email_zero(users: Seq<User>, email: Seq<char>)
    requires
        !email_taken(users, email),
    ensures
        count_users_with_email(users, email) == 0,
    decreases users.len(),
{
    if users.len() > 0 {
        assert(forall|i: int|
            0 <= i < users.len() - 1 ==> users.drop_last()[i] == #[trigger] users[i]);
        lemma_count_email_zero(users.drop_last(), email);
        assert(users.last() == users[users.len() - 1]);
    }
}

proof fn lemma_count_name_zero(users: Seq<User>, username: Seq<char>)
    requires
        !username_taken(users, username),
    ensures
        count_users_with_name(users, username) == 0,
    decreases users.len(),
{
    if users.len() > 0 {
        assert(forall|i: int|
            0 <= i < users.len() - 1 ==> users.drop_last()[i] == #[trigger] users[i]);
        lemma_count_name_zero(users.drop_last(), username);
        assert(users.last() == users[users.len() - 1]);
    }
}

/// Law: in a well-formed store an email that occurs at all occurs on exactly
/// one row, so after the first successful registration of an email every
/// later one is turned away and a single row remains.
pub proof fn lemma_email_single_row(users: Seq<User>, email: Seq<char>)
    requires
        users_wf(users),
        email_taken(users, email),
    ensures
        count_users_with_email(users, email) == 1,
    decreases users.len(),
{
    let prefix = users.drop_last();
    assert(forall|i: int| 0 <= i < users.len() - 1 ==> prefix[i] == #[trigger] users[i]);
    assert(users.last() == users[users.len() - 1]);
    if users.last().email@ == email {
        assert forall|i: int| 0 <= i < prefix.len() implies #[trigger] prefix[i].email@
            != email by {
            assert(users[i].email@ != users[users.len() - 1].email@);
        }
        lemma_count_email_zero(prefix, email);
    } else {
        let i = choose|i: int| 0 <= i < users.len() && #[trigger] users[i].email@ == email;
        assert(prefix[i].email@ == email);
        lemma_email_single_row(prefix, email);
    }
}

/// Law: in a well-formed store a username that occurs at all occurs on
/// exactly one row.
pub proof fn lemma_username_single_row(users: Seq<User>, username: Seq<char>)
    requires
        users_wf(users),
        username_taken(users, username),
    ensures
        count_users_with_name(users, username) == 1,
    decreases users.len(),
{
    let prefix = users.drop_last();
    assert(forall|i: int| 0 <= i < users.len() - 1 ==> prefix[i] == #[trigger] users[i]);
    assert(users.last() == users[users.len() - 1]);
    if users.last().username@ == username {
        assert forall|i: int| 0 <= i < prefix.len() implies #[trigger] prefix[i].username@
            != username by {
            assert(users[i].username@ != users[users.len() - 1].username@);
        }
        lemma_count_name_zero(prefix, username);
    } else {
        let i = choose|i: int| 0 <= i < users.len() && #[trigger] users[i].username@ == username;
        assert(prefix[i].username@ == username);
        lemma_username_single_row(prefix, username);
    }
}

/// Law: a hash stored by a successful registration still matches the
/// registered password, so logging in with that email and password meets the
/// credential check that forces login to succeed.
pub proof fn lemma_password_round_trip(users: Seq<User>, i: int, password: Seq<char>)
    requires
        0 <= i < users.len(),
        hash_matches(password, users[i].password_hash@),
    ensures
        credentials_ok(users, users[i].email@, password),
{
}

/// Law: a password that does not match the one hash stored under an email
/// cannot log in under that email — emails are unique, so no other row can
/// supply a matching hash; with a well-formed stored hash, login then
/// answers exactly with the bad-credentials error.
pub proof fn lemma_wrong_password_rejected(users: Seq<User>, i: int, password: Seq<char>)
    requires
        users_wf(users),
        0 <= i < users.len(),
        !hash_matches(password, users[i].password_hash@),
    ensures
        !credentials_ok(users, users[i].email@, password),
{
    assert forall|j: int|
        0 <= j < users.len() && #[trigger] users[j].email@ == users[i].email@ implies
        !hash_matches(password, users[j].password_hash@) by {
        if j < i {
            assert(users[j].email@ != users[i].email@);
        } else if j > i {
            assert(users[i].email@ != users[j].email@);
        }
    }
}

} // verus!
