use taskbind::auth::{register_with, RegisterRequest};
use taskbind::domain::{InviteStatus, TaskStatus};
use taskbind::errors::AppError;
use taskbind::invite::{
    create_invite, create_invite_with, get_executor_invites, get_invite_details, get_invites,
    use_invite_with, CreateInviteRequest, UseInviteRequest,
};
use taskbind::store::Store;
use taskbind::task::{
    create_task_with, delete_task, get_tasks, update_task_status_with, update_task_with,
    CreateTaskRequest, UpdateTaskRequest, UpdateTaskStatusRequest,
};

fn reg(username: &str, email: &str, role: &str) -> RegisterRequest {
    RegisterRequest {
        username: username.to_string(),
        email: email.to_string(),
        password: "pw".to_string(),
        role: role.to_string(),
    }
}

fn store_with_pair() -> Store {
    let mut store = Store::new();
    register_with(
        &mut store,
        &reg("carol", "carol@example.com", "creator"),
        "creator-1".to_string(),
        "hash-c".to_string(),
        1_000,
    )
    .ok()
    .unwrap();
    register_with(
        &mut store,
        &reg("eve", "eve@example.com", "executor"),
        "executor-1".to_string(),
        "hash-e".to_string(),
        1_000,
    )
    .ok()
    .unwrap();
    store
}

#[test]
fn creator_invite_executor_task_scenario() {
    let mut store = store_with_pair();

    let invite = create_invite_with(
        &mut store,
        &CreateInviteRequest { creator_id: "creator-1".to_string() },
        "invite-1".to_string(),
        "AB12CD34".to_string(),
        2_000,
    )
    .ok()
    .unwrap();
    assert_eq!(invite.status, "pending");
    assert!(invite.executor_id.is_none());
    assert!(invite.used_at.is_none());

    let used = use_invite_with(
        &mut store,
        &UseInviteRequest { code: "AB12CD34".to_string(), executor_id: "executor-1".to_string() },
        3_000,
    )
    .ok()
    .unwrap();
    assert_eq!(used.invite.status, "used");
    assert_eq!(used.invite.executor_id.as_deref(), Some("executor-1"));
    assert!(used.invite.used_at.is_some());

    let task = create_task_with(
        &mut store,
        &CreateTaskRequest {
            title: "X".to_string(),
            description: None,
            creator_id: "creator-1".to_string(),
            invite_id: "invite-1".to_string(),
        },
        "task-1".to_string(),
        4_000,
    )
    .ok()
    .unwrap();
    assert_eq!(task.status, "todo");
    assert_eq!(task.created_at, task.updated_at);

    let done = update_task_status_with(
        &mut store,
        "task-1",
        &UpdateTaskStatusRequest { status: "done".to_string() },
        5_000,
    )
    .ok()
    .unwrap();
    assert_eq!(done.status, "done");
    assert_ne!(done.updated_at, done.created_at);
    assert_eq!(store.tasks[0].status, TaskStatus::Done);
    assert!(store.tasks[0].updated_at > store.tasks[0].created_at);
}

#[test]
fn create_invite_rejected_for_non_creator() {
    let mut store = store_with_pair();

    let by_executor =
        create_invite(&mut store, CreateInviteRequest { creator_id: "executor-1".to_string() });
    assert_eq!(by_executor.err().unwrap(), AppError::Validation);
    assert_eq!(store.invites.len(), 0);

    let by_nobody =
        create_invite(&mut store, CreateInviteRequest { creator_id: "ghost".to_string() });
    assert_eq!(by_nobody.err().unwrap(), AppError::Validation);
    assert_eq!(store.invites.len(), 0);
}

#[test]
fn invite_code_is_eight_uppercase_hex() {
    let mut store = store_with_pair();
    let invite = create_invite(&mut store, CreateInviteRequest {
        creator_id: "creator-1".to_string(),
    })
    .ok()
    .unwrap();
    assert_eq!(invite.code.chars().count(), 8);
    for c in invite.code.chars() {
        assert!(c.is_ascii_hexdigit() && !c.is_ascii_lowercase());
    }
}

#[test]
fn used_invite_cannot_be_redeemed_again() {
    let mut store = store_with_pair();
    create_invite_with(
        &mut store,
        &CreateInviteRequest { creator_id: "creator-1".to_string() },
        "invite-1".to_string(),
        "AB12CD34".to_string(),
        2_000,
    )
    .ok()
    .unwrap();
    register_with(
        &mut store,
        &reg("eve2", "eve2@example.com", "executor"),
        "executor-2".to_string(),
        "hash-e2".to_string(),
        1_000,
    )
    .ok()
    .unwrap();

    use_invite_with(
        &mut store,
        &UseInviteRequest { code: "AB12CD34".to_string(), executor_id: "executor-1".to_string() },
        3_000,
    )
    .ok()
    .unwrap();

    let again = use_invite_with(
        &mut store,
        &UseInviteRequest { code: "AB12CD34".to_string(), executor_id: "executor-2".to_string() },
        4_000,
    );
    assert_eq!(again.err().unwrap(), AppError::NotFound);
    assert_eq!(store.invites[0].status, InviteStatus::Used);
    assert_eq!(store.invites[0].executor_id.as_deref(), Some("executor-1"));
    assert_eq!(store.invites[0].used_at, Some(3_000));
}

#[test]
fn duplicate_invite_id_reports_internal() {
    let mut store = store_with_pair();
    create_invite_with(
        &mut store,
        &CreateInviteRequest { creator_id: "creator-1".to_string() },
        "invite-1".to_string(),
        "AB12CD34".to_string(),
        2_000,
    )
    .ok()
    .unwrap();

    let clash = create_invite_with(
        &mut store,
        &CreateInviteRequest { creator_id: "creator-1".to_string() },
        "invite-1".to_string(),
        "99AA88BB".to_string(),
        3_000,
    );
    assert_eq!(clash.err().unwrap(), AppError::Internal);
    assert_eq!(store.invites.len(), 1);
}

fn store_with_used_invite() -> Store {
    let mut store = store_with_pair();
    create_invite_with(
        &mut store,
        &CreateInviteRequest { creator_id: "creator-1".to_string() },
        "invite-1".to_string(),
        "AB12CD34".to_string(),
        2_000,
    )
    .ok()
    .unwrap();
    use_invite_with(
        &mut store,
        &UseInviteRequest { code: "AB12CD34".to_string(), executor_id: "executor-1".to_string() },
        3_000,
    )
    .ok()
    .unwrap();
    store
}

fn add_task(store: &mut Store, id: &str, title: &str, now: i64) {
    create_task_with(
        store,
        &CreateTaskRequest {
            title: title.to_string(),
            description: None,
            creator_id: "creator-1".to_string(),
            invite_id: "invite-1".to_string(),
        },
        id.to_string(),
        now,
    )
    .ok()
    .unwrap();
}

#[test]
fn task_creation_allowed_on_pending_invite() {
    let mut store = store_with_pair();
    create_invite_with(
        &mut store,
        &CreateInviteRequest { creator_id: "creator-1".to_string() },
        "invite-1".to_string(),
        "AB12CD34".to_string(),
        2_000,
    )
    .ok()
    .unwrap();

    let task = create_task_with(
        &mut store,
        &CreateTaskRequest {
            title: "early".to_string(),
            description: Some("before redemption".to_string()),
            creator_id: "creator-1".to_string(),
            invite_id: "invite-1".to_string(),
        },
        "task-1".to_string(),
        2_500,
    )
    .ok()
    .unwrap();
    assert_eq!(task.status, "todo");
    assert_eq!(task.description.as_deref(), Some("before redemption"));
}

#[test]
fn create_task_rejected_for_wrong_owner() {
    let mut store = store_with_used_invite();
    let r = create_task_with(
        &mut store,
        &CreateTaskRequest {
            title: "X".to_string(),
            description: None,
            creator_id: "executor-1".to_string(),
            invite_id: "invite-1".to_string(),
        },
        "task-1".to_string(),
        4_000,
    );
    assert_eq!(r.err().unwrap(), AppError::Validation);
    assert_eq!(store.tasks.len(), 0);

    let missing_invite = create_task_with(
        &mut store,
        &CreateTaskRequest {
            title: "X".to_string(),
            description: None,
            creator_id: "creator-1".to_string(),
            invite_id: "invite-9".to_string(),
        },
        "task-1".to_string(),
        4_000,
    );
    assert_eq!(missing_invite.err().unwrap(), AppError::Validation);
    assert_eq!(store.tasks.len(), 0);
}

#[test]
fn invalid_status_update_rejected() {
    let mut store = store_with_used_invite();
    add_task(&mut store, "task-1", "X", 4_000);

    let r = update_task_status_with(
        &mut store,
        "task-1",
        &UpdateTaskStatusRequest { status: "finished".to_string() },
        5_000,
    );
    assert_eq!(r.err().unwrap(), AppError::Validation);
    assert_eq!(store.tasks[0].status, TaskStatus::Todo);
    assert_eq!(store.tasks[0].updated_at, 4_000);

    let unknown_id_bad_status = update_task_status_with(
        &mut store,
        "task-9",
        &UpdateTaskStatusRequest { status: "finished".to_string() },
        5_000,
    );
    assert_eq!(unknown_id_bad_status.err().unwrap(), AppError::Validation);

    let unknown_id_good_status = update_task_status_with(
        &mut store,
        "task-9",
        &UpdateTaskStatusRequest { status: "done".to_string() },
        5_000,
    );
    assert_eq!(unknown_id_good_status.err().unwrap(), AppError::NotFound);
}

#[test]
fn partial_update_with_invalid_status_leaves_task() {
    let mut store = store_with_used_invite();
    add_task(&mut store, "task-1", "X", 4_000);

    let r = update_task_with(
        &mut store,
        "task-1",
        &UpdateTaskRequest {
            title: Some("new title".to_string()),
            description: None,
            status: Some("bogus".to_string()),
            executor_id: None,
        },
        5_000,
    );
    assert_eq!(r.err().unwrap(), AppError::Validation);
    assert_eq!(store.tasks[0].title, "X");
    assert_eq!(store.tasks[0].status, TaskStatus::Todo);
    assert_eq!(store.tasks[0].updated_at, 4_000);
}

#[test]
fn partial_update_changes_only_supplied_fields() {
    let mut store = store_with_used_invite();
    add_task(&mut store, "task-1", "X", 4_000);

    let upd = update_task_with(
        &mut store,
        "task-1",
        &UpdateTaskRequest {
            title: None,
            description: Some("details".to_string()),
            status: Some("in_progress".to_string()),
            executor_id: Some("executor-1".to_string()),
        },
        5_000,
    )
    .ok()
    .unwrap();
    assert_eq!(upd.title, "X");
    assert_eq!(upd.description.as_deref(), Some("details"));
    assert_eq!(upd.status, "in_progress");
    assert_eq!(upd.executor_id.as_deref(), Some("executor-1"));
    assert_eq!(store.tasks[0].status, TaskStatus::InProgress);
    assert_eq!(store.tasks[0].created_at, 4_000);
    assert_eq!(store.tasks[0].updated_at, 5_000);

    let back = update_task_with(
        &mut store,
        "task-1",
        &UpdateTaskRequest {
            title: None,
            description: None,
            status: Some("todo".to_string()),
            executor_id: None,
        },
        6_000,
    )
    .ok()
    .unwrap();
    assert_eq!(back.status, "todo");
    assert_eq!(back.description.as_deref(), Some("details"));
}

#[test]
fn delete_task_twice_not_found() {
    let mut store = store_with_used_invite();
    add_task(&mut store, "task-1", "X", 4_000);

    assert!(delete_task(&mut store, "task-1").is_ok());
    assert_eq!(store.tasks.len(), 0);

    let again = delete_task(&mut store, "task-1");
    assert_eq!(again.err().unwrap(), AppError::NotFound);
}

#[test]
fn listing_invites_by_creator_and_executor() {
    let mut store = store_with_used_invite();
    create_invite_with(
        &mut store,
        &CreateInviteRequest { creator_id: "creator-1".to_string() },
        "invite-2".to_string(),
        "99AA88BB".to_string(),
        5_000,
    )
    .ok()
    .unwrap();

    let mine = get_invites(&store, "creator-1");
    assert_eq!(mine.invites.len(), 2);
    assert_eq!(mine.invites[0].id, "invite-1");
    assert_eq!(mine.invites[0].status, "used");
    assert_eq!(mine.invites[1].id, "invite-2");
    assert_eq!(mine.invites[1].status, "pending");

    let nobody = get_invites(&store, "executor-1");
    assert_eq!(nobody.invites.len(), 0);

    let redeemed = get_executor_invites(&store, "executor-1");
    assert_eq!(redeemed.invites.len(), 1);
    assert_eq!(redeemed.invites[0].id, "invite-1");

    let none = get_executor_invites(&store, "creator-1");
    assert_eq!(none.invites.len(), 0);
}

#[test]
fn listing_tasks_by_invite() {
    let mut store = store_with_used_invite();
    create_invite_with(
        &mut store,
        &CreateInviteRequest { creator_id: "creator-1".to_string() },
        "invite-2".to_string(),
        "99AA88BB".to_string(),
        5_000,
    )
    .ok()
    .unwrap();
    add_task(&mut store, "task-1", "first", 6_000);
    add_task(&mut store, "task-2", "second", 7_000);

    let listed = get_tasks(&store, "invite-1");
    assert_eq!(listed.tasks.len(), 2);
    assert_eq!(listed.tasks[0].title, "first");
    assert_eq!(listed.tasks[1].title, "second");

    let empty = get_tasks(&store, "invite-2");
    assert_eq!(empty.tasks.len(), 0);
}

#[test]
fn get_invite_details_found_and_missing() {
    let store = store_with_used_invite();
    let inv = get_invite_details(&store, "invite-1").ok().unwrap();
    assert_eq!(inv.code, "AB12CD34");
    assert_eq!(inv.creator_id, "creator-1");
    assert_eq!(inv.status, "used");

    let missing = get_invite_details(&store, "invite-9");
    assert_eq!(missing.err().unwrap(), AppError::NotFound);
}
