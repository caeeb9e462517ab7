use vstd::prelude::*;
use vstd::string::StrSliceExecFns;

use crate::clock::valid_time;

verus! {

/// The two fixed user roles: creators originate invites and tasks, executors
/// redeem invites and are assignable to tasks. A role never changes after
/// registration.
#[derive(Clone, Copy, Debug, PartialEq, Eq, Structural)]
pub enum Role {
    Creator,
    Executor,
}

/// Lifecycle of an invite: a one-way latch from `Pending` to `Used`.
#[derive(Clone, Copy, Debug, PartialEq, Eq, Structural)]
pub enum InviteStatus {
    Pending,
    Used,
}

/// Lifecycle of a task: a flat set, every transition is allowed.
#[derive(Clone, Copy, Debug, PartialEq, Eq, Structural)]
pub enum TaskStatus {
    Todo,
    InProgress,
    Done,
}

/// The wire form of each role.
pub open spec fn role_str(r: Role) -> Seq<char> {
    match r {
        Role::Creator => "creator"@,
        Role::Executor => "executor"@,
    }
}

/// Whether a request string names a role.
pub open spec fn valid_role_str(s: Seq<char>) -> bool {
    s == role_str(Role::Creator) || s == role_str(Role::Executor)
}

/// The wire form of each invite status.
pub open spec fn invite_status_str(s: InviteStatus) -> Seq<char> {
    match s {
        InviteStatus::Pending => "pending"@,
        InviteStatus::Used => "used"@,
    }
}

/// The wire form of each task status.
pub open spec fn task_status_str(s: TaskStatus) -> Seq<char> {
    match s {
        TaskStatus::Todo => "todo"@,
        TaskStatus::InProgress => "in_progress"@,
        TaskStatus::Done => "done"@,
    }
}

/// Whether a request string names a task status.
pub open spec fn valid_task_status_str(s: Seq<char>) -> bool {
    s == task_status_str(TaskStatus::Todo) || s == task_status_str(TaskStatus::InProgress)
        || s == task_status_str(TaskStatus::Done)
}

/// The transition table of the invite lifecycle: redemption is the only move.
pub open spec fn invite_transition_allowed(from: InviteStatus, to: InviteStatus) -> bool {
    from == InviteStatus::Pending && to == InviteStatus::Used
}

/// The transition table of the task lifecycle: a full clique, any status may
/// move to any other.
pub open spec fn task_transition_allowed(from: TaskStatus, to: TaskStatus) -> bool {
    true
}

/// A registered user. `username` and `email` are unique store-wide; the
/// password is held only as a one-way hash.
#[derive(Debug)]
pub struct User {
    pub id: String,
    pub username: String,
    pub email: String,
    pub password_hash: String,
    pub role: Role,
    pub created_at: i64,
}

/// A single-use binding token. `executor_id` and `used_at` are set exactly
/// when the invite is redeemed.
#[derive(Debug)]
pub struct Invite {
    pub id: String,
    pub code: String,
    pub creator_id: String,
    pub executor_id: Option<String>,
    pub status: InviteStatus,
    pub created_at: i64,
    pub used_at: Option<i64>,
}

/// A unit of work scoped to one invite binding.
#[derive(Debug)]
pub struct Task {
    pub id: String,
    pub title: String,
    pub description: Option<String>,
    pub status: TaskStatus,
    pub creator_id: String,
    pub executor_id: Option<String>,
    pub invite_id: String,
    pub created_at: i64,
    pub updated_at: i64,
}

/// String equality by characters, usable where the contracts speak of views.
pub fn str_eq(a: &str, b: &str) -> (r: bool)
    ensures
        r == (a@ == b@),
{
    let la = a.unicode_len();
    let lb = b.unicode_len();
    if la != lb {
        return false;
    }
    let mut i: usize = 0;
    while i < la
        invariant
            la == a@.len(),
            la == b@.len(),
            0 <= i <= la,
            forall|j: int| 0 <= j < i ==> a@[j] == b@[j],
        decreases la - i,
    {
        if a.get_char(i) != b.get_char(i) {
            return false;
        }
        i += 1;
    }
    proof {
        assert(a@ =~= b@);
    }
    true
}

/// Parses a role string; rejects everything outside the two roles.
pub fn parse_role(s: &str) -> (r: Option<Role>)
    ensures
        match r {
            Some(role) => s@ == role_str(role),
            None => !valid_role_str(s@),
        },
{
    if str_eq(s, "creator") {
        Some(Role::Creator)
    } else if str_eq(s, "executor") {
        Some(Role::Executor)
    } else {
        None
    }
}

/// The role as it appears in responses.
pub fn role_name(r: Role) -> (s: String)
    ensures
        s@ == role_str(r),
{
    match r {
        Role::Creator => "creator".to_owned(),
        Role::Executor => "executor".to_owned(),
    }
}

/// Parses a task status string; rejects everything outside the three values.
pub fn parse_task_status(s: &str) -> (r: Option<TaskStatus>)
    ensures
        match r {
            Some(st) => s@ == task_status_str(st),
            None => !valid_task_status_str(s@),
        },
{
    if str_eq(s, "todo") {
        Some(TaskStatus::Todo)
    } else if str_eq(s, "in_progress") {
        Some(TaskStatus::InProgress)
    } else if str_eq(s, "done") {
        Some(TaskStatus::Done)
    } else {
        None
    }
}

/// The task status as it appears in responses.
pub fn task_status_name(s: TaskStatus) -> (r: String)
    ensures
        r@ == task_status_str(s),
{
    match s {
        TaskStatus::Todo => "todo".to_owned(),
        TaskStatus::InProgress => "in_progress".to_owned(),
        TaskStatus::Done => "done".to_owned(),
    }
}

/// The invite status as it appears in responses.
pub fn invite_status_name(s: InviteStatus) -> (r: String)
    ensures
        r@ == invite_status_str(s),
{
    match s {
        InviteStatus::Pending => "pending".to_owned(),
        InviteStatus::Used => "used".to_owned(),
    }
}

/// The two optional strings hold the same text, or neither holds any.
pub open spec fn opt_str_matches(v: Option<String>, r: Option<String>) -> bool {
    match (v, r) {
        (Option::Some(a), Option::Some(b)) => a@ == b@,
        (Option::None, Option::None) => true,
        _ => false,
    }
}

/// Copies an optional string.
pub fn clone_opt_string(v: &Option<String>) -> (r: Option<String>)
    ensures
        opt_str_matches(*v, r),
{
    match v {
        Some(s) => Some(s.clone()),
        None => None,
    }
}

/// A user row is well formed when its timestamp is representable.
pub open spec fn user_row_wf(u: User) -> bool {
    valid_time(u.created_at)
}

/// An invite row is well formed when redemption state is consistent:
/// `executor_id` and `used_at` are both absent exactly while the invite is
/// pending, and its timestamps are representable.
pub open spec fn invite_row_wf(inv: Invite) -> bool {
    &&& (inv.status == InviteStatus::Pending <==> inv.executor_id is None)
    &&& (inv.status == InviteStatus::Pending <==> inv.used_at is None)
    &&& valid_time(inv.created_at)
    &&& (inv.used_at matches Some(t) ==> valid_time(t))
}

/// A task row is well formed when its timestamps are representable.
pub open spec fn task_row_wf(t: Task) -> bool {
    valid_time(t.created_at) && valid_time(t.updated_at)
}

} // verus!
