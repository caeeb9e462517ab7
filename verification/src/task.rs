use vstd::prelude::*;

use crate::clock::{clamp_time, format_rfc3339, now_millis, rfc3339_of, valid_time};
use crate::domain::{
    clone_opt_string, opt_str_matches, parse_task_status, str_eq, task_row_wf, task_status_name,
    task_status_str, task_transition_allowed, valid_task_status_str, Task, TaskStatus,
};
use crate::errors::AppError;
use crate::store::{
    find_invite_owned, find_task_by_id, invite_owned_by, lemma_tasks_push_wf,
    lemma_tasks_remove_wf, lemma_tasks_update_wf, task_id_taken, Store,
};
use crate::token::fresh_uuid;

verus! {

/// Payload of a task creation, scoped to an invite owned by the creator.
pub struct CreateTaskRequest {
    pub title: String,
    pub description: Option<String>,
    pub creator_id: String,
    pub invite_id: String,
}

/// Payload of a partial task update: only supplied fields change.
pub struct UpdateTaskRequest {
    pub title: Option<String>,
    pub description: Option<String>,
    pub status: Option<String>,
    pub executor_id: Option<String>,
}

/// Payload of a status-only task update.
pub struct UpdateTaskStatusRequest {
    pub status: String,
}

/// One task as rendered in responses.
pub struct TaskResponse {
    pub id: String,
    pub title: String,
    pub description: Option<String>,
    pub status: String,
    pub creator_id: String,
    pub executor_id: Option<String>,
    pub invite_id: String,
    pub created_at: String,
    pub updated_at: String,
}

/// All tasks matching a listing query.
pub struct TaskListResponse {
    pub tasks: Vec<TaskResponse>,
}

/// The response renders exactly the fields of the stored task.
pub open spec fn task_response_matches(t: Task, r: TaskResponse) -> bool {
    &&& r.id@ == t.id@
    &&& r.title@ == t.title@
    &&& opt_str_matches(t.description, r.description)
    &&& r.status@ == task_status_str(t.status)
    &&& r.creator_id@ == t.creator_id@
    &&& opt_str_matches(t.executor_id, r.executor_id)
    &&& r.invite_id@ == t.invite_id@
    &&& r.created_at@ == rfc3339_of(t.created_at as int)
    &&& r.updated_at@ == rfc3339_of(t.updated_at as int)
}

/// Builds the response view of a stored task.
pub fn task_response_of(t: &Task) -> (r: TaskResponse)
    requires
        task_row_wf(*t),
    ensures
        task_response_matches(*t, r),
{
    TaskResponse {
        id: t.id.clone(),
        title: t.title.clone(),
        description: clone_opt_string(&t.description),
        status: task_status_name(t.status),
        creator_id: t.creator_id.clone(),
        executor_id: clone_opt_string(&t.executor_id),
        invite_id: t.invite_id.clone(),
        created_at: format_rfc3339(t.created_at),
        updated_at: format_rfc3339(t.updated_at),
    }
}

/// The persistence step of task creation, with the fresh id and the clock
/// reading as explicit inputs. Rejects the request unless the invite exists
/// and is owned by the given creator — a pending invite is deliberately
/// accepted; a collision on the id is an unclassified store failure;
/// otherwise appends a `todo` row with both timestamps equal.
pub fn create_task_with(store: &mut Store, req: &CreateTaskRequest, id: String, now: i64) -> (r:
    Result<TaskResponse, AppError>)
    requires
        old(store).wf(),
        valid_time(now),
    ensures
        final(store).wf(),
        final(store).users@ == old(store).users@,
        final(store).invites@ == old(store).invites@,
        r is Err ==> final(store).tasks@ == old(store).tasks@,
        (r == Err::<TaskResponse, AppError>(AppError::Validation)) <==> !invite_owned_by(
            old(store).invites@,
            req.invite_id@,
            req.creator_id@,
        ),
        invite_owned_by(old(store).invites@, req.invite_id@, req.creator_id@) ==> ((r == Err::<
            TaskResponse,
            AppError,
        >(AppError::Internal)) <==> task_id_taken(old(store).tasks@, id@)),
        r matches Err(e) ==> (e == AppError::Validation || e == AppError::Internal),
        r matches Ok(resp) ==> ({
            let t = final(store).tasks@.last();
            &&& invite_owned_by(old(store).invites@, req.invite_id@, req.creator_id@)
            &&& !task_id_taken(old(store).tasks@, id@)
            &&& final(store).tasks@ == old(store).tasks@.push(t)
            &&& t.id@ == id@
            &&& t.title@ == req.title@
            &&& opt_str_matches(req.description, t.description)
            &&& t.status == TaskStatus::Todo
            &&& t.creator_id@ == req.creator_id@
            &&& t.executor_id is None
            &&& t.invite_id@ == req.invite_id@
            &&& t.created_at == now
            &&& t.updated_at == now
            &&& task_response_matches(t, resp)
        }),
{
    if find_invite_owned(&store.invites, req.invite_id.as_str(), req.creator_id.as_str())
        .is_none() {
        return Err(AppError::Validation);
    }
    if find_task_by_id(&store.tasks, id.as_str()).is_some() {
        return Err(AppError::Internal);
    }
    let t = Task {
        id,
        title: req.title.clone(),
        description: clone_opt_string(&req.description),
        status: TaskStatus::Todo,
        creator_id: req.creator_id.clone(),
        executor_id: None,
        invite_id: req.invite_id.clone(),
        created_at: now,
        updated_at: now,
    };
    let resp = task_response_of(&t);
    proof {
        lemma_tasks_push_wf(store.tasks@, t);
    }
    store.tasks.push(t);
    Ok(resp)
}

/// Task creation: the invite must exist and be owned by the creator; the new
/// task starts as `todo`, unassigned, with equal creation and update times.
pub fn create_task(store: &mut Store, req: CreateTaskRequest) -> (r: Result<TaskResponse, AppError>)
    requires
        old(store).wf(),
    ensures
        final(store).wf(),
        final(store).users@ == old(store).users@,
        final(store).invites@ == old(store).invites@,
        r is Err ==> final(store).tasks@ == old(store).tasks@,
        (r == Err::<TaskResponse, AppError>(AppError::Validation)) <==> !invite_owned_by(
            old(store).invites@,
            req.invite_id@,
            req.creator_id@,
        ),
        r matches Err(e) ==> (e == AppError::Validation || e == AppError::Internal),
        r matches Ok(resp) ==> ({
            let t = final(store).tasks@.last();
            &&& invite_owned_by(old(store).invites@, req.invite_id@, req.creator_id@)
            &&& final(store).tasks@ == old(store).tasks@.push(t)
            &&& t.id@.len() == 36
            &&& t.title@ == req.title@
            &&& opt_str_matches(req.description, t.description)
            &&& t.status == TaskStatus::Todo
            &&& t.creator_id@ == req.creator_id@
            &&& t.executor_id is None
            &&& t.invite_id@ == req.invite_id@
            &&& valid_time(t.created_at)
            &&& t.updated_at == t.created_at
            &&& task_response_matches(t, resp)
        }),
{
    let id = fresh_uuid();
    let now = clamp_time(now_millis());
    create_task_with(store, &req, id, now)
}

/// The tasks scoped to an invite, in store order.
pub open spec fn tasks_of_invite(tasks: Seq<Task>, invite_id: Seq<char>) -> Seq<Task>
    decreases tasks.len(),
{
    if tasks.len() == 0 {
        Seq::empty()
    } else {
        let rest = tasks_of_invite(tasks.drop_last(), invite_id);
        if tasks.last().invite_id@ == invite_id {
            rest.push(tasks.last())
        } else {
            rest
        }
    }
}

/// The responses render exactly the selected tasks, in order.
pub open spec fn task_responses_match(sel: Seq<Task>, rs: Seq<TaskResponse>) -> bool {
    rs.len() == sel.len() && forall|i: int|
        0 <= i < sel.len() ==> task_response_matches(#[trigger] sel[i], rs[i])
}

/// Lists every task scoped to the given invite, in store order.
pub fn get_tasks(store: &Store, invite_id: &str) -> (r: TaskListResponse)
    requires
        store.wf(),
    ensures
        task_responses_match(tasks_of_invite(store.tasks@, invite_id@), r.tasks@),
{
    let mut out: Vec<TaskResponse> = Vec::new();
    let mut i: usize = 0;
    while i < store.tasks.len()
        invariant
            store.wf(),
            0 <= i <= store.tasks@.len(),
            task_responses_match(tasks_of_invite(store.tasks@.take(i as int), invite_id@), out@),
        decreases store.tasks@.len() - i,
    {
        let ghost pre = store.tasks@.take(i as int);
        if str_eq(store.tasks[i].invite_id.as_str(), invite_id) {
            out.push(task_response_of(&store.tasks[i]));
        }
        i += 1;
        proof {
            let post = store.tasks@.take(i as int);
            assert(post.drop_last() =~= pre);
            assert(post.last() == store.tasks@[i - 1]);
        }
    }
    proof {
        assert(store.tasks@.take(store.tasks@.len() as int) =~= store.tasks@);
    }
    TaskListResponse { tasks: out }
}

/// The persistence step of a partial update, with the clock reading as an
/// explicit input. An unknown id is not found; a supplied status outside the
/// three values is rejected and nothing changes; otherwise exactly the
/// supplied fields change and the update time is refreshed.
pub fn update_task_with(store: &mut Store, task_id: &str, req: &UpdateTaskRequest, now: i64) -> (r:
    Result<TaskResponse, AppError>)
    requires
        old(store).wf(),
        valid_time(now),
    ensures
        final(store).wf(),
        final(store).users@ == old(store).users@,
        final(store).invites@ == old(store).invites@,
        r is Err ==> final(store).tasks@ == old(store).tasks@,
        (r == Err::<TaskResponse, AppError>(AppError::NotFound)) <==> !task_id_taken(
            old(store).tasks@,
            task_id@,
        ),
        task_id_taken(old(store).tasks@, task_id@) ==> ((r == Err::<TaskResponse, AppError>(
            AppError::Validation,
        )) <==> (req.status matches Some(s) && !valid_task_status_str(s@))),
        r matches Err(e) ==> (e == AppError::NotFound || e == AppError::Validation),
        r matches Ok(resp) ==> exists|i: int|
            #![trigger old(store).tasks@[i]]
            0 <= i < old(store).tasks@.len() && ({
                let before = old(store).tasks@[i];
                let after = final(store).tasks@[i];
                &&& before.id@ == task_id@
                &&& final(store).tasks@ == old(store).tasks@.update(i, after)
                &&& after.id@ == before.id@
                &&& after.title@ == (match req.title {
                    Some(t) => t@,
                    None => before.title@,
                })
                &&& (match req.description {
                    Some(d) => after.description matches Some(ad) && ad@ == d@,
                    None => opt_str_matches(before.description, after.description),
                })
                &&& (match req.status {
                    Some(s) => task_status_str(after.status) == s@,
                    None => after.status == before.status,
                })
                &&& (match req.executor_id {
                    Some(e) => after.executor_id matches Some(ae) && ae@ == e@,
                    None => opt_str_matches(before.executor_id, after.executor_id),
                })
                &&& task_transition_allowed(before.status, after.status)
                &&& after.creator_id@ == before.creator_id@
                &&& after.invite_id@ == before.invite_id@
                &&& after.created_at == before.created_at
                &&& after.updated_at == now
                &&& task_response_matches(after, resp)
            }),
{
    let idx = match find_task_by_id(&store.tasks, task_id) {
        Some(i) => i,
        None => {
            return Err(AppError::NotFound);
        },
    };
    let new_status = match &req.status {
        Some(s) => match parse_task_status(s.as_str()) {
            Some(st) => st,
            None => {
                return Err(AppError::Validation);
            },
        },
        None => store.tasks[idx].status,
    };
    let upd = Task {
        id: store.tasks[idx].id.clone(),
        title: match &req.title {
            Some(t) => t.clone(),
            None => store.tasks[idx].title.clone(),
        },
        description: match &req.description {
            Some(d) => Some(d.clone()),
            None => clone_opt_string(&store.tasks[idx].description),
        },
        status: new_status,
        creator_id: store.tasks[idx].creator_id.clone(),
        executor_id: match &req.executor_id {
            Some(e) => Some(e.clone()),
            None => clone_opt_string(&store.tasks[idx].executor_id),
        },
        invite_id: store.tasks[idx].invite_id.clone(),
        created_at: store.tasks[idx].created_at,
        updated_at: now,
    };
    let resp = task_response_of(&upd);
    proof {
        lemma_tasks_update_wf(store.tasks@, idx as int, upd);
    }
    store.tasks.set(idx, upd);
    Ok(resp)
}

/// Partial task update: only supplied fields change, the update time is
/// always refreshed, and a supplied status must be one of the three values.
pub fn update_task(store: &mut Store, task_id: &str, req: UpdateTaskRequest) -> (r: Result<
    TaskResponse,
    AppError,
>)
    requires
        old(store).wf(),
    ensures
        final(store).wf(),
        final(store).users@ == old(store).users@,
        final(store).invites@ == old(store).invites@,
        r is Err ==> final(store).tasks@ == old(store).tasks@,
        (r == Err::<TaskResponse, AppError>(AppError::NotFound)) <==> !task_id_taken(
            old(store).tasks@,
            task_id@,
        ),
        task_id_taken(old(store).tasks@, task_id@) ==> ((r == Err::<TaskResponse, AppError>(
            AppError::Validation,
        )) <==> (req.status matches Some(s) && !valid_task_status_str(s@))),
        r matches Err(e) ==> (e == AppError::NotFound || e == AppError::Validation),
        r matches Ok(resp) ==> exists|i: int|
            #![trigger old(store).tasks@[i]]
            0 <= i < old(store).tasks@.len() && ({
                let before = old(store).tasks@[i];
                let after = final(store).tasks@[i];
                &&& before.id@ == task_id@
                &&& final(store).tasks@ == old(store).tasks@.update(i, after)
                &&& after.id@ == before.id@
                &&& after.title@ == (match req.title {
                    Some(t) => t@,
                    None => before.title@,
                })
                &&& (match req.description {
                    Some(d) => after.description matches Some(ad) && ad@ == d@,
                    None => opt_str_matches(before.description, after.description),
                })
                &&& (match req.status {
                    Some(s) => task_status_str(after.status) == s@,
                    None => after.status == before.status,
                })
                &&& (match req.executor_id {
                    Some(e) => after.executor_id matches Some(ae) && ae@ == e@,
                    None => opt_str_matches(before.executor_id, after.executor_id),
                })
                &&& task_transition_allowed(before.status, after.status)
                &&& after.creator_id@ == before.creator_id@
                &&& after.invite_id@ == before.invite_id@
                &&& after.created_at == before.created_at
                &&& valid_time(after.updated_at)
                &&& task_response_matches(after, resp)
            }),
{
    let now = clamp_time(now_millis());
    update_task_with(store, task_id, &req, now)
}

/// The persistence step of a status-only update, with the clock reading as
/// an explicit input. The status is validated before the row is looked up,
/// so an unknown status is rejected even for an unknown id.
pub fn update_task_status_with(
    store: &mut Store,
    task_id: &str,
    req: &UpdateTaskStatusRequest,
    now: i64,
) -> (r: Result<TaskResponse, AppError>)
    requires
        old(store).wf(),
        valid_time(now),
    ensures
        final(store).wf(),
        final(store).users@ == old(store).users@,
        final(store).invites@ == old(store).invites@,
        r is Err ==> final(store).tasks@ == old(store).tasks@,
        (r == Err::<TaskResponse, AppError>(AppError::Validation)) <==> !valid_task_status_str(
            req.status@,
        ),
        valid_task_status_str(req.status@) ==> ((r == Err::<TaskResponse, AppError>(
            AppError::NotFound,
        )) <==> !task_id_taken(old(store).tasks@, task_id@)),
        r matches Err(e) ==> (e == AppError::Validation || e == AppError::NotFound),
        r matches Ok(resp) ==> exists|i: int|
            #![trigger old(store).tasks@[i]]
            0 <= i < old(store).tasks@.len() && ({
                let before = old(store).tasks@[i];
                let after = final(store).tasks@[i];
                &&& before.id@ == task_id@
                &&& final(store).tasks@ == old(store).tasks@.update(i, after)
                &&& after.id@ == before.id@
                &&& after.title@ == before.title@
                &&& opt_str_matches(before.description, after.description)
                &&& task_status_str(after.status) == req.status@
                &&& task_transition_allowed(before.status, after.status)
                &&& opt_str_matches(before.executor_id, after.executor_id)
                &&& after.creator_id@ == before.creator_id@
                &&& after.invite_id@ == before.invite_id@
                &&& after.created_at == before.created_at
                &&& after.updated_at == now
                &&& task_response_matches(after, resp)
            }),
{
    let new_status = match parse_task_status(req.status.as_str()) {
        Some(st) => st,
        None => {
            return Err(AppError::Validation);
        },
    };
    let idx = match find_task_by_id(&store.tasks, task_id) {
        Some(i) => i,
        None => {
            return Err(AppError::NotFound);
        },
    };
    let upd = Task {
        id: store.tasks[idx].id.clone(),
        title: store.tasks[idx].title.clone(),
        description: clone_opt_string(&store.tasks[idx].description),
        status: new_status,
        creator_id: store.tasks[idx].creator_id.clone(),
        executor_id: clone_opt_string(&store.tasks[idx].executor_id),
        invite_id: store.tasks[idx].invite_id.clone(),
        created_at: store.tasks[idx].created_at,
        updated_at: now,
    };
    let resp = task_response_of(&upd);
    proof {
        lemma_tasks_update_wf(store.tasks@, idx as int, upd);
    }
    store.tasks.set(idx, upd);
    Ok(resp)
}

/// Status-only task update: any of the three statuses may replace any other.
pub fn update_task_status(store: &mut Store, task_id: &str, req: UpdateTaskStatusRequest) -> (r:
    Result<TaskResponse, AppError>)
    requires
        old(store).wf(),
    ensures
        final(store).wf(),
        final(store).users@ == old(store).users@,
        final(store).invites@ == old(store).invites@,
        r is Err ==> final(store).tasks@ == old(store).tasks@,
        (r == Err::<TaskResponse, AppError>(AppError::Validation)) <==> !valid_task_status_str(
            req.status@,
        ),
        valid_task_status_str(req.status@) ==> ((r == Err::<TaskResponse, AppError>(
            AppError::NotFound,
        )) <==> !task_id_taken(old(store).tasks@, task_id@)),
        r matches Err(e) ==> (e == AppError::Validation || e == AppError::NotFound),
        r matches Ok(resp) ==> exists|i: int|
            #![trigger old(store).tasks@[i]]
            0 <= i < old(store).tasks@.len() && ({
                let before = old(store).tasks@[i];
                let after = final(store).tasks@[i];
                &&& before.id@ == task_id@
                &&& final(store).tasks@ == old(store).tasks@.update(i, after)
                &&& after.id@ == before.id@
                &&& after.title@ == before.title@
                &&& opt_str_matches(before.description, after.description)
                &&& task_status_str(after.status) == req.status@
                &&& task_transition_allowed(before.status, after.status)
                &&& opt_str_matches(before.executor_id, after.executor_id)
                &&& after.creator_id@ == before.creator_id@
                &&& after.invite_id@ == before.invite_id@
                &&& after.created_at == before.created_at
                &&& valid_time(after.updated_at)
                &&& task_response_matches(after, resp)
            }),
{
    let now = clamp_time(now_millis());
    update_task_status_with(store, task_id, &req, now)
}

/// Task deletion: a hard delete with no cascade; the id is gone afterwards,
/// so deleting it again is not found.
pub fn delete_task(store: &mut Store, task_id: &str) -> (r: Result<(), AppError>)
    requires
        old(store).wf(),
    ensures
        final(store).wf(),
        final(store).users@ == old(store).users@,
        final(store).invites@ == old(store).invites@,
        (r == Err::<(), AppError>(AppError::NotFound)) <==> !task_id_taken(
            old(store).tasks@,
            task_id@,
        ),
        r matches Err(e) ==> e == AppError::NotFound,
        r is Err ==> final(store).tasks@ == old(store).tasks@,
        r is Ok ==> exists|i: int|
            #![trigger old(store).tasks@[i]]
            0 <= i < old(store).tasks@.len() && old(store).tasks@[i].id@ == task_id@
                && final(store).tasks@ == old(store).tasks@.remove(i),
        r is Ok ==> !task_id_taken(final(store).tasks@, task_id@),
{
    let idx = match find_task_by_id(&store.tasks, task_id) {
        Some(i) => i,
        None => {
            return Err(AppError::NotFound);
        },
    };
    proof {
        lemma_tasks_remove_wf(store.tasks@, idx as int);
    }
    store.tasks.remove(idx);
    Ok(())
}

} // verus!
