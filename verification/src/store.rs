use vstd::prelude::*;

use crate::domain::{
    invite_row_wf, str_eq, task_row_wf, user_row_wf, Invite, InviteStatus, Role, Task, User,
};

verus! {

/// Some user carries this id.
pub open spec fn user_id_taken(users: Seq<User>, id: Seq<char>) -> bool {
    exists|i: int| 0 <= i < users.len() && #[trigger] users[i].id@ == id
}

/// Some user carries this username.
pub open spec fn username_taken(users: Seq<User>, username: Seq<char>) -> bool {
    exists|i: int| 0 <= i < users.len() && #[trigger] users[i].username@ == username
}

/// Some user carries this email.
pub open spec fn email_taken(users: Seq<User>, email: Seq<char>) -> bool {
    exists|i: int| 0 <= i < users.len() && #[trigger] users[i].email@ == email
}

/// Some user carries this id and this role.
pub open spec fn has_user_with_role(users: Seq<User>, id: Seq<char>, role: Role) -> bool {
    exists|i: int|
        0 <= i < users.len() && #[trigger] users[i].id@ == id && users[i].role == role
}

/// Some invite carries this id.
pub open spec fn invite_id_taken(invites: Seq<Invite>, id: Seq<char>) -> bool {
    exists|i: int| 0 <= i < invites.len() && #[trigger] invites[i].id@ == id
}

/// Some invite carries this code.
pub open spec fn invite_code_taken(invites: Seq<Invite>, code: Seq<char>) -> bool {
    exists|i: int| 0 <= i < invites.len() && #[trigger] invites[i].code@ == code
}

/// Some invite carries this code and still awaits redemption.
pub open spec fn pending_invite_exists(invites: Seq<Invite>, code: Seq<char>) -> bool {
    exists|i: int|
        0 <= i < invites.len() && #[trigger] invites[i].code@ == code && invites[i].status
            == InviteStatus::Pending
}

/// Some invite carries this id and belongs to this creator.
pub open spec fn invite_owned_by(
    invites: Seq<Invite>,
    invite_id: Seq<char>,
    creator_id: Seq<char>,
) -> bool {
    exists|i: int|
        0 <= i < invites.len() && #[trigger] invites[i].id@ == invite_id
            && invites[i].creator_id@ == creator_id
}

/// Some task carries this id.
pub open spec fn task_id_taken(tasks: Seq<Task>, id: Seq<char>) -> bool {
    exists|i: int| 0 <= i < tasks.len() && #[trigger] tasks[i].id@ == id
}

/// The users table: every row well formed; ids, usernames and emails each
/// pairwise distinct.
pub open spec fn users_wf(users: Seq<User>) -> bool {
    &&& forall|i: int| 0 <= i < users.len() ==> user_row_wf(#[trigger] users[i])
    &&& forall|i: int, j: int| #![trigger users[i], users[j]]
        0 <= i < j < users.len() ==> users[i].id@ != users[j].id@ && users[i].username@
            != users[j].username@ && users[i].email@ != users[j].email@
}

/// The invites table: every row well formed; ids and codes each pairwise
/// distinct.
pub open spec fn invites_wf(invites: Seq<Invite>) -> bool {
    &&& forall|i: int| 0 <= i < invites.len() ==> invite_row_wf(#[trigger] invites[i])
    &&& forall|i: int, j: int| #![trigger invites[i], invites[j]]
        0 <= i < j < invites.len() ==> invites[i].id@ != invites[j].id@ && invites[i].code@
            != invites[j].code@
}

/// The tasks table: every row well formed; ids pairwise distinct.
pub open spec fn tasks_wf(tasks: Seq<Task>) -> bool {
    &&& forall|i: int| 0 <= i < tasks.len() ==> task_row_wf(#[trigger] tasks[i])
    &&& forall|i: int, j: int| #![trigger tasks[i], tasks[j]]
        0 <= i < j < tasks.len() ==> tasks[i].id@ != tasks[j].id@
}

/// The whole persisted state: three tables, exclusively owned. Handlers keep
/// no other state between requests.
pub struct Store {
    pub users: Vec<User>,
    pub invites: Vec<Invite>,
    pub tasks: Vec<Task>,
}

impl Store {
    /// The store invariant, established empty and preserved by every handler.
    pub open spec fn wf(self) -> bool {
        users_wf(self.users@) && invites_wf(self.invites@) && tasks_wf(self.tasks@)
    }

    /// An empty store.
    pub fn new() -> (s: Store)
        ensures
            s.wf(),
            s.users@.len() == 0,
            s.invites@.len() == 0,
            s.tasks@.len() == 0,
    {
        Store { users: Vec::new(), invites: Vec::new(), tasks: Vec::new() }
    }
}

/// Appending a fresh, well-formed user keeps the users table well formed.
pub proof fn lemma_users_push_wf(users: Seq<User>, u: User)
    requires
        users_wf(users),
        user_row_wf(u),
        !user_id_taken(users, u.id@),
        !username_taken(users, u.username@),
        !email_taken(users, u.email@),
    ensures
        users_wf(users.push(u)),
{
    let pushed = users.push(u);
    assert forall|i: int, j: int| #![trigger pushed[i], pushed[j]]
        0 <= i < j < pushed.len() implies pushed[i].id@ != pushed[j].id@ && pushed[i].username@
        != pushed[j].username@ && pushed[i].email@ != pushed[j].email@ by {
        if j < users.len() {
            assert(pushed[i] == users[i] && pushed[j] == users[j]);
        } else {
            assert(pushed[i] == users[i] && pushed[j] == u);
        }
    }
}

/// Appending an invite with a fresh id and code keeps the invites table well
/// formed.
pub proof fn lemma_invites_push_wf(invites: Seq<Invite>, inv: Invite)
    requires
        invites_wf(invites),
        invite_row_wf(inv),
        !invite_id_taken(invites, inv.id@),
        !invite_code_taken(invites, inv.code@),
    ensures
        invites_wf(invites.push(inv)),
{
    let pushed = invites.push(inv);
    assert forall|i: int, j: int| #![trigger pushed[i], pushed[j]]
        0 <= i < j < pushed.len() implies pushed[i].id@ != pushed[j].id@ && pushed[i].code@
        != pushed[j].code@ by {
        if j < invites.len() {
            assert(pushed[i] == invites[i] && pushed[j] == invites[j]);
        } else {
            assert(pushed[i] == invites[i] && pushed[j] == inv);
        }
    }
}

/// Appending a task with a fresh id keeps the tasks table well formed.
pub proof fn lemma_tasks_push_wf(tasks: Seq<Task>, t: Task)
    requires
        tasks_wf(tasks),
        task_row_wf(t),
        !task_id_taken(tasks, t.id@),
    ensures
        tasks_wf(tasks.push(t)),
{
    let pushed = tasks.push(t);
    assert forall|i: int, j: int| #![trigger pushed[i], pushed[j]]
        0 <= i < j < pushed.len() implies pushed[i].id@ != pushed[j].id@ by {
        if j < tasks.len() {
            assert(pushed[i] == tasks[i] && pushed[j] == tasks[j]);
        } else {
            assert(pushed[i] == tasks[i] && pushed[j] == t);
        }
    }
}

/// Replacing an invite by one that keeps its id and code keeps the invites
/// table well formed.
pub proof fn lemma_invites_update_wf(invites: Seq<Invite>, i: int, inv: Invite)
    requires
        invites_wf(invites),
        0 <= i < invites.len(),
        invite_row_wf(inv),
        inv.id@ == invites[i].id@,
        inv.code@ == invites[i].code@,
    ensures
        invites_wf(invites.update(i, inv)),
{
    let updated = invites.update(i, inv);
    assert forall|a: int, b: int| #![trigger updated[a], updated[b]]
        0 <= a < b < updated.len() implies updated[a].id@ != updated[b].id@ && updated[a].code@
        != updated[b].code@ by {
        assert(invites[a].id@ != invites[b].id@ && invites[a].code@ != invites[b].code@);
    }
}

/// Replacing a task by one that keeps its id keeps the tasks table well
/// formed.
pub proof fn lemma_tasks_update_wf(tasks: Seq<Task>, i: int, t: Task)
    requires
        tasks_wf(tasks),
        0 <= i < tasks.len(),
        task_row_wf(t),
        t.id@ == tasks[i].id@,
    ensures
        tasks_wf(tasks.update(i, t)),
{
    let updated = tasks.update(i, t);
    assert forall|a: int, b: int| #![trigger updated[a], updated[b]]
        0 <= a < b < updated.len() implies updated[a].id@ != updated[b].id@ by {
        assert(tasks[a].id@ != tasks[b].id@);
    }
}

/// Removing a task keeps the tasks table well formed, and its id is gone if
/// no other row carried it.
pub proof fn lemma_tasks_remove_wf(tasks: Seq<Task>, i: int)
    requires
        tasks_wf(tasks),
        0 <= i < tasks.len(),
    ensures
        tasks_wf(tasks.remove(i)),
        !task_id_taken(tasks.remove(i), tasks[i].id@),
{
    let removed = tasks.remove(i);
    assert forall|a: int, b: int| #![trigger removed[a], removed[b]]
        0 <= a < b < removed.len() implies removed[a].id@ != removed[b].id@ by {
        let a0 = if a < i { a } else { a + 1 };
        let b0 = if b < i { b } else { b + 1 };
        assert(removed[a] == tasks[a0] && removed[b] == tasks[b0]);
        assert(tasks[a0].id@ != tasks[b0].id@);
    }
    assert forall|a: int| 0 <= a < removed.len() implies #[trigger] removed[a].id@
        != tasks[i].id@ by {
        let a0 = if a < i { a } else { a + 1 };
        assert(removed[a] == tasks[a0]);
        if a0 < i {
            assert(tasks[a0].id@ != tasks[i].id@);
        } else {
            assert(tasks[i].id@ != tasks[a0].id@);
        }
    }
}

/// Looks a user up by email; the store guarantees at most one match.
pub fn find_user_by_email(users: &Vec<User>, email: &str) -> (r: Option<usize>)
    ensures
        match r {
            Some(i) => i < users@.len() && users@[i as int].email@ == email@,
            None => !email_taken(users@, email@),
        },
{
    let mut i: usize = 0;
    while i < users.len()
        invariant
            0 <= i <= users@.len(),
            forall|k: int| 0 <= k < i ==> #[trigger] users@[k].email@ != email@,
        decreases users@.len() - i,
    {
        if str_eq(users[i].email.as_str(), email) {
            return Some(i);
        }
        i += 1;
    }
    None
}

/// Looks a user up by id.
pub fn find_user_by_id(users: &Vec<User>, id: &str) -> (r: Option<usize>)
    ensures
        match r {
            Some(i) => i < users@.len() && users@[i as int].id@ == id@,
            None => !user_id_taken(users@, id@),
        },
{
    let mut i: usize = 0;
    while i < users.len()
        invariant
            0 <= i <= users@.len(),
            forall|k: int| 0 <= k < i ==> #[trigger] users@[k].id@ != id@,
        decreases users@.len() - i,
    {
        if str_eq(users[i].id.as_str(), id) {
            return Some(i);
        }
        i += 1;
    }
    None
}

/// Looks a user up by id, accepting only the given role.
pub fn find_user_with_role(users: &Vec<User>, id: &str, role: Role) -> (r: Option<usize>)
    ensures
        match r {
            Some(i) => i < users@.len() && users@[i as int].id@ == id@ && users@[i as int].role
                == role,
            None => !has_user_with_role(users@, id@, role),
        },
{
    let mut i: usize = 0;
    while i < users.len()
        invariant
            0 <= i <= users@.len(),
            forall|k: int| 0 <= k < i ==> !(#[trigger] users@[k].id@ == id@ && users@[k].role
                == role),
        decreases users@.len() - i,
    {
        if str_eq(users[i].id.as_str(), id) && users[i].role == role {
            return Some(i);
        }
        i += 1;
    }
    None
}

/// Looks an invite up by id.
pub fn find_invite_by_id(invites: &Vec<Invite>, id: &str) -> (r: Option<usize>)
    ensures
        match r {
            Some(i) => i < invites@.len() && invites@[i as int].id@ == id@,
            None => !invite_id_taken(invites@, id@),
        },
{
    let mut i: usize = 0;
    while i < invites.len()
        invariant
            0 <= i <= invites@.len(),
            forall|k: int| 0 <= k < i ==> #[trigger] invites@[k].id@ != id@,
        decreases invites@.len() - i,
    {
        if str_eq(invites[i].id.as_str(), id) {
            return Some(i);
        }
        i += 1;
    }
    None
}

/// Looks an invite up by code.
pub fn find_invite_by_code(invites: &Vec<Invite>, code: &str) -> (r: Option<usize>)
    ensures
        match r {
            Some(i) => i < invites@.len() && invites@[i as int].code@ == code@,
            None => !invite_code_taken(invites@, code@),
        },
{
    let mut i: usize = 0;
    while i < invites.len()
        invariant
            0 <= i <= invites@.len(),
            forall|k: int| 0 <= k < i ==> #[trigger] invites@[k].code@ != code@,
        decreases invites@.len() - i,
    {
        if str_eq(invites[i].code.as_str(), code) {
            return Some(i);
        }
        i += 1;
    }
    None
}

/// Looks a pending invite up by code; a used invite no longer matches.
pub fn find_pending_invite(invites: &Vec<Invite>, code: &str) -> (r: Option<usize>)
    ensures
        match r {
            Some(i) => i < invites@.len() && invites@[i as int].code@ == code@
                && invites@[i as int].status == InviteStatus::Pending,
            None => !pending_invite_exists(invites@, code@),
        },
{
    let mut i: usize = 0;
    while i < invites.len()
        invariant
            0 <= i <= invites@.len(),
            forall|k: int| 0 <= k < i ==> !(#[trigger] invites@[k].code@ == code@
                && invites@[k].status == InviteStatus::Pending),
        decreases invites@.len() - i,
    {
        if str_eq(invites[i].code.as_str(), code) && invites[i].status == InviteStatus::Pending {
            return Some(i);
        }
        i += 1;
    }
    None
}

/// Looks an invite up by id, accepting only the given owner.
pub fn find_invite_owned(invites: &Vec<Invite>, invite_id: &str, creator_id: &str) -> (r: Option<
    usize,
>)
    ensures
        match r {
            Some(i) => i < invites@.len() && invites@[i as int].id@ == invite_id@
                && invites@[i as int].creator_id@ == creator_id@,
            None => !invite_owned_by(invites@, invite_id@, creator_id@),
        },
{
    let mut i: usize = 0;
    while i < invites.len()
        invariant
            0 <= i <= invites@.len(),
            forall|k: int| 0 <= k < i ==> !(#[trigger] invites@[k].id@ == invite_id@
                && invites@[k].creator_id@ == creator_id@),
        decreases invites@.len() - i,
    {
        if str_eq(invites[i].id.as_str(), invite_id) && str_eq(
            invites[i].creator_id.as_str(),
            creator_id,
        ) {
            return Some(i);
        }
        i += 1;
    }
    None
}

/// Looks a task up by id.
pub fn find_task_by_id(tasks: &Vec<Task>, id: &str) -> (r: Option<usize>)
    ensures
        match r {
            Some(i) => i < tasks@.len() && tasks@[i as int].id@ == id@,
            None => !task_id_taken(tasks@, id@),
        },
{
    let mut i: usize = 0;
    while i < tasks.len()
        invariant
            0 <= i <= tasks@.len(),
            forall|k: int| 0 <= k < i ==> #[trigger] tasks@[k].id@ != id@,
        decreases tasks@.len() - i,
    {
        if str_eq(tasks[i].id.as_str(), id) {
            return Some(i);
        }
        i += 1;
    }
    None
}

} // verus!
