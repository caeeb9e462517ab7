use vstd::prelude::*;

use crate::clock::{clamp_time, format_rfc3339, now_millis, rfc3339_of, valid_time};
use crate::domain::{
    clone_opt_string, invite_row_wf, invite_status_name, invite_status_str,
    invite_transition_allowed, opt_str_matches, str_eq, Invite, InviteStatus, Role,
};
use crate::errors::AppError;
use crate::store::{
    find_invite_by_code, find_invite_by_id, find_pending_invite, find_user_with_role,
    has_user_with_role, invite_code_taken, invite_id_taken, invites_wf, lemma_invites_push_wf,
    lemma_invites_update_wf, pending_invite_exists, Store,
};
use crate::token::{fresh_uuid, generate_invite_code, is_upper_hex_digit};

verus! {

/// Payload of an invite creation: the creator asking for a code.
pub struct CreateInviteRequest {
    pub creator_id: String,
}

/// One invite as rendered in responses.
pub struct InviteResponse {
    pub id: String,
    pub code: String,
    pub creator_id: String,
    pub executor_id: Option<String>,
    pub status: String,
    pub created_at: String,
    pub used_at: Option<String>,
}

/// Payload of a redemption: the code and the executor redeeming it.
pub struct UseInviteRequest {
    pub code: String,
    pub executor_id: String,
}

/// A successful redemption: the invite after its one transition.
pub struct UseInviteResponse {
    pub message: String,
    pub invite: InviteResponse,
}

/// All invites matching a listing query.
pub struct InviteListResponse {
    pub invites: Vec<InviteResponse>,
}

/// The optional timestamp and its optional rendering agree.
pub open spec fn opt_time_matches(t: Option<i64>, r: Option<String>) -> bool {
    match (t, r) {
        (Option::Some(tt), Option::Some(s)) => s@ == rfc3339_of(tt as int),
        (Option::None, Option::None) => true,
        _ => false,
    }
}

/// The response renders exactly the fields of the stored invite.
pub open spec fn invite_response_matches(inv: Invite, r: InviteResponse) -> bool {
    &&& r.id@ == inv.id@
    &&& r.code@ == inv.code@
    &&& r.creator_id@ == inv.creator_id@
    &&& opt_str_matches(inv.executor_id, r.executor_id)
    &&& r.status@ == invite_status_str(inv.status)
    &&& r.created_at@ == rfc3339_of(inv.created_at as int)
    &&& opt_time_matches(inv.used_at, r.used_at)
}

/// Builds the response view of a stored invite.
pub fn invite_response_of(inv: &Invite) -> (r: InviteResponse)
    requires
        invite_row_wf(*inv),
    ensures
        invite_response_matches(*inv, r),
{
    InviteResponse {
        id: inv.id.clone(),
        code: inv.code.clone(),
        creator_id: inv.creator_id.clone(),
        executor_id: clone_opt_string(&inv.executor_id),
        status: invite_status_name(inv.status),
        created_at: format_rfc3339(inv.created_at),
        used_at: match &inv.used_at {
            Some(t) => Some(format_rfc3339(*t)),
            None => None,
        },
    }
}

/// The persistence step of invite creation, with the fresh id, the fresh
/// code and the clock reading as explicit inputs. Rejects a requester who is
/// not a stored creator; a collision on the id or the code is an unclassified
/// store failure; otherwise appends a pending row.
pub fn create_invite_with(
    store: &mut Store,
    req: &CreateInviteRequest,
    id: String,
    code: String,
    now: i64,
) -> (r: Result<InviteResponse, AppError>)
    requires
        old(store).wf(),
        valid_time(now),
    ensures
        final(store).wf(),
        final(store).users@ == old(store).users@,
        final(store).tasks@ == old(store).tasks@,
        r is Err ==> final(store).invites@ == old(store).invites@,
        (r == Err::<InviteResponse, AppError>(AppError::Validation)) <==> !has_user_with_role(
            old(store).users@,
            req.creator_id@,
            Role::Creator,
        ),
        has_user_with_role(old(store).users@, req.creator_id@, Role::Creator) ==> ((r == Err::<
            InviteResponse,
            AppError,
        >(AppError::Internal)) <==> (invite_id_taken(old(store).invites@, id@)
            || invite_code_taken(old(store).invites@, code@))),
        r matches Err(e) ==> (e == AppError::Validation || e == AppError::Internal),
        r matches Ok(resp) ==> ({
            let inv = final(store).invites@.last();
            &&& has_user_with_role(old(store).users@, req.creator_id@, Role::Creator)
            &&& !invite_id_taken(old(store).invites@, id@)
            &&& !invite_code_taken(old(store).invites@, code@)
            &&& final(store).invites@ == old(store).invites@.push(inv)
            &&& inv.id@ == id@
            &&& inv.code@ == code@
            &&& inv.creator_id@ == req.creator_id@
            &&& inv.executor_id is None
            &&& inv.status == InviteStatus::Pending
            &&& inv.created_at == now
            &&& inv.used_at is None
            &&& invite_response_matches(inv, resp)
        }),
{
    if find_user_with_role(&store.users, req.creator_id.as_str(), Role::Creator).is_none() {
        return Err(AppError::Validation);
    }
    if find_invite_by_id(&store.invites, id.as_str()).is_some() {
        return Err(AppError::Internal);
    }
    if find_invite_by_code(&store.invites, code.as_str()).is_some() {
        return Err(AppError::Internal);
    }
    let inv = Invite {
        id,
        code,
        creator_id: req.creator_id.clone(),
        executor_id: None,
        status: InviteStatus::Pending,
        created_at: now,
        used_at: None,
    };
    let resp = invite_response_of(&inv);
    proof {
        lemma_invites_push_wf(store.invites@, inv);
    }
    store.invites.push(inv);
    Ok(resp)
}

/// Invite creation: only a stored creator may ask; on success a pending row
/// with a fresh id and an eight-character uppercase code is appended.
pub fn create_invite(store: &mut Store, req: CreateInviteRequest) -> (r: Result<
    InviteResponse,
    AppError,
>)
    requires
        old(store).wf(),
    ensures
        final(store).wf(),
        final(store).users@ == old(store).users@,
        final(store).tasks@ == old(store).tasks@,
        r is Err ==> final(store).invites@ == old(store).invites@,
        (r == Err::<InviteResponse, AppError>(AppError::Validation)) <==> !has_user_with_role(
            old(store).users@,
            req.creator_id@,
            Role::Creator,
        ),
        r matches Err(e) ==> (e == AppError::Validation || e == AppError::Internal),
        r matches Ok(resp) ==> ({
            let inv = final(store).invites@.last();
            &&& has_user_with_role(old(store).users@, req.creator_id@, Role::Creator)
            &&& final(store).invites@ == old(store).invites@.push(inv)
            &&& inv.id@.len() == 36
            &&& inv.code@.len() == 8
            &&& (forall|i: int| 0 <= i < 8 ==> is_upper_hex_digit(#[trigger] inv.code@[i]))
            &&& inv.creator_id@ == req.creator_id@
            &&& inv.executor_id is None
            &&& inv.status == InviteStatus::Pending
            &&& valid_time(inv.created_at)
            &&& inv.used_at is None
            &&& invite_response_matches(inv, resp)
        }),
{
    let id = fresh_uuid();
    let code = generate_invite_code();
    let now = clamp_time(now_millis());
    create_invite_with(store, &req, id, code, now)
}

/// The persistence step of redemption, with the clock reading as an explicit
/// input. Rejects a redeemer who is not a stored executor; a code without a
/// pending row — unknown, or already used — is not found; otherwise performs
/// the one transition the invite lifecycle has.
pub fn use_invite_with(store: &mut Store, req: &UseInviteRequest, now: i64) -> (r: Result<
    UseInviteResponse,
    AppError,
>)
    requires
        old(store).wf(),
        valid_time(now),
    ensures
        final(store).wf(),
        final(store).users@ == old(store).users@,
        final(store).tasks@ == old(store).tasks@,
        r is Err ==> final(store).invites@ == old(store).invites@,
        (r == Err::<UseInviteResponse, AppError>(AppError::Validation)) <==> !has_user_with_role(
            old(store).users@,
            req.executor_id@,
            Role::Executor,
        ),
        has_user_with_role(old(store).users@, req.executor_id@, Role::Executor) ==> ((r == Err::<
            UseInviteResponse,
            AppError,
        >(AppError::NotFound)) <==> !pending_invite_exists(old(store).invites@, req.code@)),
        r matches Err(e) ==> (e == AppError::Validation || e == AppError::NotFound),
        r matches Ok(resp) ==> ({
            &&& has_user_with_role(old(store).users@, req.executor_id@, Role::Executor)
            &&& exists|i: int|
                #![trigger old(store).invites@[i]]
                0 <= i < old(store).invites@.len() && ({
                    let before = old(store).invites@[i];
                    let after = final(store).invites@[i];
                    &&& before.code@ == req.code@
                    &&& before.status == InviteStatus::Pending
                    &&& invite_transition_allowed(before.status, after.status)
                    &&& final(store).invites@ == old(store).invites@.update(i, after)
                    &&& after.id@ == before.id@
                    &&& after.code@ == before.code@
                    &&& after.creator_id@ == before.creator_id@
                    &&& after.created_at == before.created_at
                    &&& after.status == InviteStatus::Used
                    &&& (after.executor_id matches Some(e) && e@ == req.executor_id@)
                    &&& after.used_at == Some(now)
                    &&& invite_response_matches(after, resp.invite)
                })
        }),
{
    if find_user_with_role(&store.users, req.executor_id.as_str(), Role::Executor).is_none() {
        return Err(AppError::Validation);
    }
    let idx = match find_pending_invite(&store.invites, req.code.as_str()) {
        Some(i) => i,
        None => {
            return Err(AppError::NotFound);
        },
    };
    let upd = Invite {
        id: store.invites[idx].id.clone(),
        code: store.invites[idx].code.clone(),
        creator_id: store.invites[idx].creator_id.clone(),
        executor_id: Some(req.executor_id.clone()),
        status: InviteStatus::Used,
        created_at: store.invites[idx].created_at,
        used_at: Some(now),
    };
    let invite = invite_response_of(&upd);
    proof {
        lemma_invites_update_wf(store.invites@, idx as int, upd);
    }
    store.invites.set(idx, upd);
    Ok(UseInviteResponse { message: "invite accepted; binding established".to_owned(), invite })
}

/// Redemption: stamps the executor and the redemption time on the pending
/// invite carrying the code.
pub fn use_invite(store: &mut Store, req: UseInviteRequest) -> (r: Result<
    UseInviteResponse,
    AppError,
>)
    requires
        old(store).wf(),
    ensures
        final(store).wf(),
        final(store).users@ == old(store).users@,
        final(store).tasks@ == old(store).tasks@,
        r is Err ==> final(store).invites@ == old(store).invites@,
        (r == Err::<UseInviteResponse, AppError>(AppError::Validation)) <==> !has_user_with_role(
            old(store).users@,
            req.executor_id@,
            Role::Executor,
        ),
        has_user_with_role(old(store).users@, req.executor_id@, Role::Executor) ==> ((r == Err::<
            UseInviteResponse,
            AppError,
        >(AppError::NotFound)) <==> !pending_invite_exists(old(store).invites@, req.code@)),
        r matches Err(e) ==> (e == AppError::Validation || e == AppError::NotFound),
        r matches Ok(resp) ==> ({
            &&& has_user_with_role(old(store).users@, req.executor_id@, Role::Executor)
            &&& exists|i: int|
                #![trigger old(store).invites@[i]]
                0 <= i < old(store).invites@.len() && ({
                    let before = old(store).invites@[i];
                    let after = final(store).invites@[i];
                    &&& before.code@ == req.code@
                    &&& before.status == InviteStatus::Pending
                    &&& invite_transition_allowed(before.status, after.status)
                    &&& final(store).invites@ == old(store).invites@.update(i, after)
                    &&& after.id@ == before.id@
                    &&& after.code@ == before.code@
                    &&& after.creator_id@ == before.creator_id@
                    &&& after.created_at == before.created_at
                    &&& after.status == InviteStatus::Used
                    &&& (after.executor_id matches Some(e) && e@ == req.executor_id@)
                    &&& (after.used_at matches Some(t) && valid_time(t))
                    &&& invite_response_matches(after, resp.invite)
                })
        }),
{
    let now = clamp_time(now_millis());
    use_invite_with(store, &req, now)
}

/// Law: once an invite is used its code no longer has a pending row, so a
/// second redemption of the same code is not found and the stored executor
/// and redemption time stay as the first redemption wrote them.
pub proof fn lemma_used_invite_stays_used(invites: Seq<Invite>, i: int)
    requires
        invites_wf(invites),
        0 <= i < invites.len(),
        invites[i].status == InviteStatus::Used,
    ensures
        !pending_invite_exists(invites, invites[i].code@),
{
    assert forall|j: int|
        0 <= j < invites.len() && #[trigger] invites[j].code@ == invites[i].code@ implies
        invites[j].status != InviteStatus::Pending by {
        if j < i {
            assert(invites[j].code@ != invites[i].code@);
        } else if j > i {
            assert(invites[i].code@ != invites[j].code@);
        }
    }
}

/// The invites owned by a creator, in store order.
pub open spec fn invites_of_creator(invites: Seq<Invite>, creator_id: Seq<char>) -> Seq<Invite>
    decreases invites.len(),
{
    if invites.len() == 0 {
        Seq::empty()
    } else {
        let rest = invites_of_creator(invites.drop_last(), creator_id);
        if invites.last().creator_id@ == creator_id {
            rest.push(invites.last())
        } else {
            rest
        }
    }
}

/// The invites redeemed by an executor, in store order.
pub open spec fn invites_of_executor(invites: Seq<Invite>, executor_id: Seq<char>) -> Seq<Invite>
    decreases invites.len(),
{
    if invites.len() == 0 {
        Seq::empty()
    } else {
        let rest = invites_of_executor(invites.drop_last(), executor_id);
        if invites.last().executor_id matches Some(e) && e@ == executor_id {
            rest.push(invites.last())
        } else {
            rest
        }
    }
}

/// The responses render exactly the selected invites, in order.
pub open spec fn invite_responses_match(sel: Seq<Invite>, rs: Seq<InviteResponse>) -> bool {
    rs.len() == sel.len() && forall|i: int|
        0 <= i < sel.len() ==> invite_response_matches(#[trigger] sel[i], rs[i])
}

/// Lists every invite created by the given user, in store order.
pub fn get_invites(store: &Store, user_id: &str) -> (r: InviteListResponse)
    requires
        store.wf(),
    ensures
        invite_responses_match(invites_of_creator(store.invites@, user_id@), r.invites@),
{
    let mut out: Vec<InviteResponse> = Vec::new();
    let mut i: usize = 0;
    while i < store.invites.len()
        invariant
            store.wf(),
            0 <= i <= store.invites@.len(),
            invite_responses_match(invites_of_creator(store.invites@.take(i as int), user_id@), out@),
        decreases store.invites@.len() - i,
    {
        let ghost pre = store.invites@.take(i as int);
        if str_eq(store.invites[i].creator_id.as_str(), user_id) {
            out.push(invite_response_of(&store.invites[i]));
        }
        i += 1;
        proof {
            let post = store.invites@.take(i as int);
            assert(post.drop_last() =~= pre);
            assert(post.last() == store.invites@[i - 1]);
        }
    }
    proof {
        assert(store.invites@.take(store.invites@.len() as int) =~= store.invites@);
    }
    InviteListResponse { invites: out }
}

/// Lists every invite redeemed by the given executor, in store order.
pub fn get_executor_invites(store: &Store, executor_id: &str) -> (r: InviteListResponse)
    requires
        store.wf(),
    ensures
        invite_responses_match(invites_of_executor(store.invites@, executor_id@), r.invites@),
{
    let mut out: Vec<InviteResponse> = Vec::new();
    let mut i: usize = 0;
    while i < store.invites.len()
        invariant
            store.wf(),
            0 <= i <= store.invites@.len(),
            invite_responses_match(
                invites_of_executor(store.invites@.take(i as int), executor_id@),
                out@,
            ),
        decreases store.invites@.len() - i,
    {
        let ghost pre = store.invites@.take(i as int);
        let selected = match &store.invites[i].executor_id {
            Some(e) => str_eq(e.as_str(), executor_id),
            None => false,
        };
        if selected {
            out.push(invite_response_of(&store.invites[i]));
        }
        i += 1;
        proof {
            let post = store.invites@.take(i as int);
            assert(post.drop_last() =~= pre);
            assert(post.last() == store.invites@[i - 1]);
        }
    }
    proof {
        assert(store.invites@.take(store.invites@.len() as int) =~= store.invites@);
    }
    InviteListResponse { invites: out }
}

/// Fetches the invite with the given id.
pub fn get_invite_details(store: &Store, invite_id: &str) -> (r: Result<InviteResponse, AppError>)
    requires
        store.wf(),
    ensures
        (r == Err::<InviteResponse, AppError>(AppError::NotFound)) <==> !invite_id_taken(
            store.invites@,
            invite_id@,
        ),
        r matches Err(e) ==> e == AppError::NotFound,
        r matches Ok(resp) ==> exists|i: int|
            0 <= i < store.invites@.len() && #[trigger] store.invites@[i].id@ == invite_id@
                && invite_response_matches(store.invites@[i], resp),
{
    match find_invite_by_id(&store.invites, invite_id) {
        Some(i) => Ok(invite_response_of(&store.invites[i])),
        None => Err(AppError::NotFound),
    }
}

} // verus!
