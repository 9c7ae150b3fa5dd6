use toast_task::arena::Arena;
use toast_task::auth::{email_login, email_registeration, Accounts};
use toast_task::client_info::{ClientInfo, IpAddr, IpNetwork, Platform};
use toast_task::crud::{
    advance, create_begin, create_reply, created_response, delete_outcome,
    delete_query, failure_response, fetch_failed, page_window, patch_begin, patch_reply,
    select_all_query, select_single_query, Ask, DbError, Event, Plan, Reply, Stage, Step,
    OWNED_RECORD, OWNED_RECORDS,
};
use toast_task::arena::Failure;
use toast_task::guard::{Auth, Sessions, UserModel};
use toast_task::ids::id_to_string;
use toast_task::json::Value;
use toast_task::labels::{LabelFields, TaskLabelModel};
use toast_task::lists::ListFields;
use toast_task::patch::Patch;
use toast_task::tasks::{
    attach_begin, attach_reply, detach_reply, LabelPostInput, TaskFields, TaskLabels,
};
use toast_task::tree::{group_rows, group_single, JoinRow};
use toast_task::users::get_me;
use toast_task::validation::{EmailUserLogin, EmailUserRegistration};

fn user(id: u128, name: &str) -> Auth<UserModel> {
    Auth(UserModel { id, username: name.to_string(), created_at: 0, updated_at: 0 })
}

fn list_post(title: &str, color: &str, parent_id: Option<u128>) -> toast_task::lists::PostInput {
    toast_task::lists::PostInput {
        title: title.to_string(),
        description: None,
        color: color.to_string(),
        parent_id,
    }
}

fn list_patch() -> toast_task::lists::PatchInput {
    toast_task::lists::PatchInput {
        title: Patch::Missing,
        description: Patch::Missing,
        color: Patch::Missing,
        parent_id: Patch::Missing,
    }
}

fn label_post(title: &str) -> toast_task::labels::PostInput {
    toast_task::labels::PostInput {
        title: title.to_string(),
        description: Some("a label".to_string()),
        color: "#112233".to_string(),
    }
}

fn task_post(list_id: u128, title: &str, parent_id: Option<u128>) -> toast_task::tasks::PostInput {
    toast_task::tasks::PostInput {
        parent_id,
        list_id,
        due_at: "2030-01-01T00:00:00".to_string(),
        due_text: "new year".to_string(),
        completed: None,
        title: title.to_string(),
        description: None,
    }
}

fn task_patch() -> toast_task::tasks::PatchInput {
    toast_task::tasks::PatchInput {
        parent_id: Patch::Missing,
        list_id: Patch::Missing,
        due_at: Patch::Missing,
        due_text: Patch::Missing,
        completed: Patch::Missing,
        title: Patch::Missing,
        description: Patch::Missing,
    }
}

fn message(response: &toast_task::responses::APIResponse) -> (u16, Value) {
    (response.get_status().code, response.get_data().clone())
}

#[test]
fn scenario_alice_and_her_lists() {
    let salt = "pepper-and-salt";
    let client = ClientInfo {
        ip: IpNetwork::from_addr(IpAddr::V4([127, 0, 0, 1])),
        platform: Platform::Web,
        user_agent: "tests".to_string(),
    };
    let mut accounts = Accounts::new();
    let mut sessions = Sessions::new();
    let mut lists: Arena<ListFields> = Arena::new();

    let registration = EmailUserRegistration {
        email: "alice@x.com".to_string(),
        password: "pw1234".to_string(),
        username: "alice".to_string(),
    };
    assert!(registration.validate().is_ok());
    assert!(email_registeration(&mut accounts, salt, &registration, 1, 0).is_ok());

    let login = EmailUserLogin { email: "alice@x.com".to_string(), password: "pw1234".to_string() };
    assert!(email_login(&accounts, &mut sessions, salt, 1_000, &login, &client, 900, 0).is_ok());
    let header = vec![format!("Bearer {}", id_to_string(900))];
    let alice = sessions.authenticate(&accounts.users, &header, 1).unwrap();
    assert_eq!(alice.deref().username, "alice");

    let l1 = 0x11;
    let l2 = 0x22;
    let input = list_post("Groceries", "#ffaa00", None);
    assert!(input.validate().is_ok());
    let created = toast_task::lists::post(&mut lists, &alice, l1, input).unwrap();
    assert_eq!(message(&created), (201, Value::Object(vec![("id".to_string(), Value::String(id_to_string(l1)))])));
    assert!(toast_task::lists::post(&mut lists, &alice, l2, list_post("Fruit", "#00ff00", Some(l1))).is_ok());

    let fetched = toast_task::lists::get_single(&lists, &alice, l1).unwrap();
    assert_eq!(fetched.child_ids, vec![l2]);
    assert_eq!(fetched.title, "Groceries");
    assert_eq!(fetched.color, "#ffaa00");
    assert_eq!(fetched.user_id, 1);

    let mut own_parent = list_patch();
    own_parent.parent_id = Patch::Value(l2);
    let refused = toast_task::lists::patch(&mut lists, &alice, l2, &own_parent).unwrap_err();
    assert_eq!(message(&refused), (400, Value::message("Cannot make list a parent of itself.")));

    let no_tasks: Arena<TaskFields> = Arena::new();
    assert!(toast_task::lists::delete(&mut lists, &no_tasks, &alice, l1).is_ok());
    let orphan = toast_task::lists::get_single(&lists, &alice, l2).unwrap();
    assert_eq!(orphan.parent_id, None);
    assert_eq!(orphan.title, "Fruit");
    let gone = toast_task::lists::get_single(&lists, &alice, l1).unwrap_err();
    assert_eq!(message(&gone), (404, Value::message("Item not found.")));
}

#[test]
fn lists_of_another_user_are_not_found() {
    let alice = user(1, "alice");
    let bob = user(2, "bob");
    let mut lists: Arena<ListFields> = Arena::new();
    assert!(toast_task::lists::post(&mut lists, &bob, 5, list_post("Bob's", "#000000", None)).is_ok());

    let fetched = toast_task::lists::get_single(&lists, &alice, 5).unwrap_err();
    assert_eq!(message(&fetched), (404, Value::message("Item not found.")));
    let mut rename = list_patch();
    rename.title = Patch::Value("Alice's".to_string());
    let patched = toast_task::lists::patch(&mut lists, &alice, 5, &rename).unwrap_err();
    assert_eq!(patched.get_status().code, 404);
    let no_tasks: Arena<TaskFields> = Arena::new();
    let deleted = toast_task::lists::delete(&mut lists, &no_tasks, &alice, 5).unwrap_err();
    assert_eq!(deleted.get_status().code, 404);
    assert!(toast_task::lists::get_all(&lists, &alice, None, None).items.is_empty());
    assert_eq!(toast_task::lists::get_single(&lists, &bob, 5).unwrap().title, "Bob's");

    let hang = toast_task::lists::post(&mut lists, &alice, 6, list_post("x", "#000000", Some(5))).unwrap_err();
    assert_eq!(message(&hang), (400, Value::message("Invalid parent id.")));
}

#[test]
fn list_patch_changes_fields_and_parent_or_nothing() {
    let alice = user(1, "alice");
    let bob = user(2, "bob");
    let mut lists: Arena<ListFields> = Arena::new();
    assert!(toast_task::lists::post(&mut lists, &alice, 1, list_post("a", "#000000", None)).is_ok());
    assert!(toast_task::lists::post(&mut lists, &alice, 2, list_post("b", "#000000", None)).is_ok());
    assert!(toast_task::lists::post(&mut lists, &bob, 3, list_post("c", "#000000", None)).is_ok());

    let mut both = list_patch();
    both.title = Patch::Value("renamed".to_string());
    both.description = Patch::Value("described".to_string());
    both.parent_id = Patch::Value(3);
    let refused = toast_task::lists::patch(&mut lists, &alice, 2, &both).unwrap_err();
    assert_eq!(message(&refused), (400, Value::message("Invalid parent id.")));
    let unchanged = toast_task::lists::get_single(&lists, &alice, 2).unwrap();
    assert_eq!((unchanged.title.as_str(), unchanged.description, unchanged.parent_id), ("b", None, None));

    both.parent_id = Patch::Value(1);
    let done = toast_task::lists::patch(&mut lists, &alice, 2, &both).unwrap();
    assert_eq!(message(&done), (200, Value::message("Patch successful.")));
    let changed = toast_task::lists::get_single(&lists, &alice, 2).unwrap();
    assert_eq!(changed.title, "renamed");
    assert_eq!(changed.description, Some("described".to_string()));
    assert_eq!(changed.parent_id, Some(1));

    let mut clear = list_patch();
    clear.description = Patch::Null;
    clear.parent_id = Patch::Null;
    assert!(toast_task::lists::patch(&mut lists, &alice, 2, &clear).is_ok());
    let cleared = toast_task::lists::get_single(&lists, &alice, 2).unwrap();
    assert_eq!((cleared.description, cleared.parent_id), (None, None));
    assert_eq!(cleared.title, "renamed");
}

#[test]
fn list_patch_without_changes_is_refused() {
    let alice = user(1, "alice");
    let mut lists: Arena<ListFields> = Arena::new();
    assert!(toast_task::lists::post(&mut lists, &alice, 1, list_post("a", "#000000", None)).is_ok());
    let empty = toast_task::lists::patch(&mut lists, &alice, 1, &list_patch()).unwrap_err();
    assert_eq!(message(&empty), (400, Value::message("Empty patch request.")));
    let missing = toast_task::lists::patch(&mut lists, &alice, 9, &list_patch()).unwrap_err();
    assert_eq!(missing.get_status().code, 400);
    let mut same = list_patch();
    same.title = Patch::Value("a".to_string());
    let done = toast_task::lists::patch(&mut lists, &alice, 1, &same).unwrap();
    assert_eq!(message(&done), (200, Value::message("Patch successful.")));
    let mut detach = list_patch();
    detach.parent_id = Patch::Null;
    assert!(toast_task::lists::patch(&mut lists, &alice, 1, &detach).is_ok());
    assert_eq!(toast_task::lists::patch(&mut lists, &alice, 9, &detach).unwrap_err().get_status().code, 404);
}

fn invalid_color() -> Value {
    Value::Object(vec![
        ("message".to_string(), Value::String("400 Bad Request".to_string())),
        (
            "errors".to_string(),
            Value::Array(vec![Value::Object(vec![
                ("field".to_string(), Value::String("color".to_string())),
                (
                    "code".to_string(),
                    Value::String("Color must follow the 6 digit hex format (#ffffff).".to_string()),
                ),
                ("message".to_string(), Value::Null),
            ])]),
        ),
    ])
}

#[test]
fn list_bodies_are_validated_by_the_handlers() {
    let alice = user(1, "alice");
    let mut lists: Arena<ListFields> = Arena::new();
    let refused = toast_task::lists::post(&mut lists, &alice, 1, list_post("a", "red", None)).unwrap_err();
    assert_eq!(message(&refused), (400, invalid_color()));
    assert_eq!(lists.len(), 0);
    assert!(toast_task::lists::post(&mut lists, &alice, 1, list_post("a", "#000000", None)).is_ok());
    let mut paint = list_patch();
    paint.color = Patch::Value("red".to_string());
    paint.title = Patch::Value("b".to_string());
    let refused = toast_task::lists::patch(&mut lists, &alice, 1, &paint).unwrap_err();
    assert_eq!(message(&refused), (400, invalid_color()));
    let refused = toast_task::lists::patch(&mut lists, &alice, 9, &paint).unwrap_err();
    assert_eq!(refused.get_status().code, 400);
    assert_eq!(toast_task::lists::get_single(&lists, &alice, 1).unwrap().title, "a");
}

#[test]
fn label_bodies_are_validated_by_the_handlers() {
    let alice = user(1, "alice");
    let mut labels: Arena<LabelFields> = Arena::new();
    let mut bad = label_post("x");
    bad.color = "#12345".to_string();
    let refused = toast_task::labels::post(&mut labels, &alice, 1, bad).unwrap_err();
    assert_eq!(message(&refused), (400, invalid_color()));
    assert_eq!(labels.len(), 0);
    assert!(toast_task::labels::post(&mut labels, &alice, 1, label_post("x")).is_ok());
    let paint = toast_task::labels::PatchInput {
        title: Patch::Missing,
        description: Patch::Missing,
        color: Patch::Value("blue".to_string()),
    };
    let refused = toast_task::labels::patch(&mut labels, &alice, 1, &paint).unwrap_err();
    assert_eq!(message(&refused), (400, invalid_color()));
    assert_eq!(toast_task::labels::get_single(&labels, &alice, 1).unwrap().color, "#112233");
}

#[test]
fn list_with_tasks_is_not_deleted() {
    let alice = user(1, "alice");
    let mut lists: Arena<ListFields> = Arena::new();
    let mut tasks: Arena<TaskFields> = Arena::new();
    let mut pairs = TaskLabels::new();
    assert!(toast_task::lists::post(&mut lists, &alice, 10, list_post("a", "#000000", None)).is_ok());
    assert!(toast_task::tasks::post(&mut tasks, &lists, &alice, 1, 0, task_post(10, "t", None)).is_ok());
    let refused = toast_task::lists::delete(&mut lists, &tasks, &alice, 10).unwrap_err();
    assert_eq!(message(&refused), (400, Value::message("Invalid delete request.")));
    assert!(toast_task::lists::get_single(&lists, &alice, 10).is_ok());
    assert!(toast_task::tasks::delete(&mut tasks, &mut pairs, &alice, 1).is_ok());
    assert!(toast_task::lists::delete(&mut lists, &tasks, &alice, 10).is_ok());
}

#[test]
fn list_patch_cannot_empty_title_or_color() {
    let alice = user(1, "alice");
    let mut lists: Arena<ListFields> = Arena::new();
    assert!(toast_task::lists::post(&mut lists, &alice, 1, list_post("a", "#000000", None)).is_ok());
    let mut empty_title = list_patch();
    empty_title.title = Patch::Null;
    let refused = toast_task::lists::patch(&mut lists, &alice, 1, &empty_title).unwrap_err();
    assert_eq!(message(&refused), (400, Value::message("Invalid patch request.")));
    assert_eq!(toast_task::lists::get_single(&lists, &alice, 1).unwrap().title, "a");
}

#[test]
fn list_statements() {
    let input = list_post("Groceries", "#ffaa00", Some(2));
    assert_eq!(
        input.statement(1),
        "INSERT INTO lists (user_id, title, color, parent_id) VALUES (E'00000000-0000-0000-0000-000000000001', E'Groceries', E'#ffaa00', E'00000000-0000-0000-0000-000000000002') RETURNING id"
    );
    let mut patch = list_patch();
    assert_eq!(patch.statement(), None);
    patch.color = Patch::Value("#000000".to_string());
    patch.parent_id = Patch::Null;
    assert_eq!(
        patch.statement(),
        Some("UPDATE lists SET color=E'#000000', parent_id=NULL WHERE id = $1 AND user_id = $2".to_string())
    );
    assert!(patch.validate().is_ok());
    patch.color = Patch::Value("black".to_string());
    assert!(patch.validate().is_err());
    assert!(list_post("x", "black", None).validate().is_err());
}

#[test]
fn lists_are_listed_in_pages() {
    let alice = user(1, "alice");
    let mut lists: Arena<ListFields> = Arena::new();
    for id in 1..=5u128 {
        let parent = if id > 1 { Some(1) } else { None };
        assert!(toast_task::lists::post(&mut lists, &alice, id, list_post("l", "#000000", parent)).is_ok());
    }
    let page = toast_task::lists::get_all(&lists, &alice, Some(2), Some(1));
    assert_eq!((page.limit, page.page), (2, 1));
    let ids: Vec<u128> = page.items.iter().map(|m| m.id).collect();
    assert_eq!(ids, vec![3, 4]);
    let first = toast_task::lists::get_all(&lists, &alice, Some(2), None);
    assert_eq!(first.items[0].child_ids, vec![2, 3, 4, 5]);
    assert_eq!(first.items[1].parent_id, Some(1));
}

#[test]
fn labels_crud() {
    let alice = user(1, "alice");
    let bob = user(2, "bob");
    let mut labels: Arena<LabelFields> = Arena::new();
    let created = toast_task::labels::post(&mut labels, &alice, 7, label_post("urgent")).unwrap();
    assert_eq!(created.get_status().code, 201);
    let taken = toast_task::labels::post(&mut labels, &bob, 7, label_post("urgent")).unwrap_err();
    assert_eq!(message(&taken), (400, Value::message("Invalid create request.")));

    let label = toast_task::labels::get_single(&labels, &alice, 7).unwrap();
    assert_eq!((label.title.as_str(), label.user_id), ("urgent", 1));
    assert_eq!(label.description, Some("a label".to_string()));
    assert_eq!(toast_task::labels::get_single(&labels, &bob, 7).unwrap_err().get_status().code, 404);

    let empty = toast_task::labels::PatchInput {
        title: Patch::Missing,
        description: Patch::Missing,
        color: Patch::Missing,
    };
    let refused = toast_task::labels::patch(&mut labels, &alice, 7, &empty).unwrap_err();
    assert_eq!(message(&refused), (400, Value::message("Empty patch request.")));
    assert_eq!(empty.statement(), None);

    let rename = toast_task::labels::PatchInput {
        title: Patch::Value("later".to_string()),
        description: Patch::Null,
        color: Patch::Missing,
    };
    assert_eq!(
        rename.statement(),
        Some("UPDATE labels SET title=E'later', description=NULL WHERE id = $1 AND user_id = $2".to_string())
    );
    assert_eq!(toast_task::labels::patch(&mut labels, &bob, 7, &rename).unwrap_err().get_status().code, 404);
    assert!(toast_task::labels::patch(&mut labels, &alice, 7, &rename).is_ok());
    let label = toast_task::labels::get_single(&labels, &alice, 7).unwrap();
    assert_eq!((label.title.as_str(), label.description, label.color.as_str()), ("later", None, "#112233"));

    assert_eq!(toast_task::labels::get_all(&labels, &alice, None, None).items.len(), 1);
    let mut pairs = TaskLabels::new();
    assert_eq!(toast_task::labels::delete(&mut labels, &mut pairs, &bob, 7).unwrap_err().get_status().code, 404);
    let deleted = toast_task::labels::delete(&mut labels, &mut pairs, &alice, 7).unwrap();
    assert_eq!(message(&deleted), (200, Value::message("Delete successful.")));
    assert!(toast_task::labels::get_all(&labels, &alice, None, None).items.is_empty());
    assert_eq!(
        label_post("x").statement(1),
        "INSERT INTO labels (user_id, title, description, color) VALUES (E'00000000-0000-0000-0000-000000000001', E'x', E'a label', E'#112233') RETURNING id"
    );
}

#[test]
fn tasks_live_in_the_callers_lists() {
    let alice = user(1, "alice");
    let bob = user(2, "bob");
    let mut lists: Arena<ListFields> = Arena::new();
    let mut tasks: Arena<TaskFields> = Arena::new();
    let labels = TaskLabels::new();
    assert!(toast_task::lists::post(&mut lists, &alice, 10, list_post("a", "#000000", None)).is_ok());
    assert!(toast_task::lists::post(&mut lists, &bob, 20, list_post("b", "#000000", None)).is_ok());

    let foreign = toast_task::tasks::post(&mut tasks, &lists, &alice, 1, 5, task_post(20, "t", None)).unwrap_err();
    assert_eq!(message(&foreign), (400, Value::message("Invalid create request.")));
    assert!(toast_task::tasks::post(&mut tasks, &lists, &alice, 1, 5, task_post(10, "buy milk", None)).is_ok());
    assert!(toast_task::tasks::post(&mut tasks, &lists, &alice, 2, 6, task_post(10, "which milk", Some(1))).is_ok());

    let task = toast_task::tasks::get_single(&tasks, &labels, &alice, 1).unwrap();
    assert_eq!(task.title, "buy milk");
    assert_eq!((task.list_id, task.created_at, task.updated_at), (10, 5, 5));
    assert!(!task.completed);
    assert_eq!(task.child_ids, vec![2]);
    assert_eq!(task.due_text, "new year");
    assert_eq!(toast_task::tasks::get_single(&tasks, &labels, &bob, 1).unwrap_err().get_status().code, 404);

    let mut done = task_patch();
    done.completed = Patch::Value(true);
    done.description = Patch::Value("semi-skimmed".to_string());
    assert!(toast_task::tasks::patch(&mut tasks, &lists, &alice, 1, &done).is_ok());
    let task = toast_task::tasks::get_single(&tasks, &labels, &alice, 1).unwrap();
    assert!(task.completed);
    assert_eq!(task.description, Some("semi-skimmed".to_string()));

    let mut moved = task_patch();
    moved.list_id = Patch::Value(20);
    moved.title = Patch::Value("stolen".to_string());
    let refused = toast_task::tasks::patch(&mut tasks, &lists, &alice, 1, &moved).unwrap_err();
    assert_eq!(refused.get_status().code, 400);
    assert_eq!(toast_task::tasks::get_single(&tasks, &labels, &alice, 1).unwrap().title, "buy milk");

    let mut own = task_patch();
    own.parent_id = Patch::Value(2);
    assert_eq!(toast_task::tasks::patch(&mut tasks, &lists, &alice, 2, &own).unwrap_err().get_status().code, 400);
    let mut empties = task_patch();
    empties.title = Patch::Null;
    assert_eq!(toast_task::tasks::patch(&mut tasks, &lists, &alice, 2, &empties).unwrap_err().get_status().code, 400);
    let empty = toast_task::tasks::patch(&mut tasks, &lists, &alice, 2, &task_patch()).unwrap_err();
    assert_eq!(message(&empty), (400, Value::message("Empty patch request.")));
    assert_eq!(toast_task::tasks::get_all(&tasks, &labels, &alice, None, None).items.len(), 2);
    assert!(toast_task::tasks::get_all(&tasks, &labels, &bob, None, None).items.is_empty());
}

#[test]
fn task_statements() {
    let mut input = task_post(2, "t", None);
    input.completed = Some(true);
    assert_eq!(
        input.statement(),
        "INSERT INTO tasks (list_id, due_at, due_text, completed, title) VALUES (E'00000000-0000-0000-0000-000000000002', E'2030-01-01T00:00:00', E'new year', true, E't') RETURNING id"
    );
    let mut patch = task_patch();
    assert_eq!(patch.statement(), None);
    patch.completed = Patch::Value(false);
    patch.parent_id = Patch::Value(3);
    assert_eq!(
        patch.statement(),
        Some("UPDATE tasks SET parent_id=E'00000000-0000-0000-0000-000000000003', completed=false WHERE id = $1 AND list_id IN (SELECT id FROM lists WHERE user_id = $2)".to_string())
    );
}

#[test]
fn labels_go_on_and_off_tasks() {
    let alice = user(1, "alice");
    let bob = user(2, "bob");
    let mut lists: Arena<ListFields> = Arena::new();
    let mut tasks: Arena<TaskFields> = Arena::new();
    let mut labels: Arena<LabelFields> = Arena::new();
    let mut pairs = TaskLabels::new();
    assert!(toast_task::lists::post(&mut lists, &alice, 10, list_post("a", "#000000", None)).is_ok());
    assert!(toast_task::tasks::post(&mut tasks, &lists, &alice, 1, 0, task_post(10, "t", None)).is_ok());
    assert!(toast_task::labels::post(&mut labels, &alice, 7, label_post("urgent")).is_ok());
    assert!(toast_task::labels::post(&mut labels, &alice, 8, label_post("home")).is_ok());
    assert!(toast_task::labels::post(&mut labels, &bob, 9, label_post("bob's")).is_ok());

    let attached = toast_task::tasks::post_label(&tasks, &labels, &mut pairs, &alice, LabelPostInput { id: 8 }, 1).unwrap();
    assert_eq!(message(&attached), (200, Value::message("Label attached successfully.")));
    assert!(toast_task::tasks::post_label(&tasks, &labels, &mut pairs, &alice, LabelPostInput { id: 7 }, 1).is_ok());
    assert_eq!(toast_task::tasks::get_single(&tasks, &pairs, &alice, 1).unwrap().label_ids, vec![8, 7]);
    assert!(pairs.contains(TaskLabelModel { task_id: 1, label_id: 7 }));

    let twice = toast_task::tasks::post_label(&tasks, &labels, &mut pairs, &alice, LabelPostInput { id: 7 }, 1).unwrap_err();
    assert_eq!(message(&twice), (400, Value::message("Invalid label id.")));
    let foreign_label = toast_task::tasks::post_label(&tasks, &labels, &mut pairs, &alice, LabelPostInput { id: 9 }, 1).unwrap_err();
    assert_eq!(foreign_label.get_status().code, 400);
    let foreign_task = toast_task::tasks::post_label(&tasks, &labels, &mut pairs, &bob, LabelPostInput { id: 9 }, 1).unwrap_err();
    assert_eq!(message(&foreign_task), (404, Value::message("Task not found")));
    assert_eq!(pairs.labels_of(1), vec![8, 7]);

    let by_bob = toast_task::tasks::delete_label(&labels, &mut pairs, &bob, 1, 8).unwrap();
    assert_eq!(message(&by_bob), (200, Value::message("Label detached successfully.")));
    assert_eq!(pairs.labels_of(1), vec![8, 7]);
    assert!(toast_task::tasks::delete_label(&labels, &mut pairs, &alice, 1, 8).is_ok());
    assert_eq!(pairs.labels_of(1), vec![7]);
    assert!(toast_task::tasks::delete_label(&labels, &mut pairs, &alice, 1, 8).is_ok());
    assert_eq!(pairs.labels_of(1), vec![7]);

    assert!(toast_task::labels::delete(&mut labels, &mut pairs, &alice, 7).is_ok());
    assert!(pairs.labels_of(1).is_empty());
    assert!(toast_task::tasks::post_label(&tasks, &labels, &mut pairs, &alice, LabelPostInput { id: 8 }, 1).is_ok());
    assert!(toast_task::tasks::delete(&mut tasks, &mut pairs, &alice, 1).is_ok());
    assert!(pairs.labels_of(1).is_empty());
    assert_eq!(toast_task::tasks::delete(&mut tasks, &mut pairs, &alice, 1).unwrap_err().get_status().code, 404);
}

#[test]
fn sessions_are_a_resource_of_their_user() {
    let alice = user(1, "alice");
    let bob = user(2, "bob");
    let client = ClientInfo {
        ip: IpNetwork::from_addr(IpAddr::V6([1; 16])),
        platform: Platform::Mobile,
        user_agent: "phone".to_string(),
    };
    let config = toast_task::config::AppConfig::default();
    let mut sessions = Sessions::new();
    assert_eq!(toast_task::sessions::create_session(&mut sessions, &config, &client, 1, 100, 50).ok(), Some(100));
    let taken = toast_task::sessions::create_session(&mut sessions, &config, &client, 1, 100, 50).unwrap_err();
    assert_eq!(message(&taken), (500, Value::message("Failed to create session.")));

    let session = toast_task::sessions::get_single(&sessions, &alice, 100).unwrap();
    assert_eq!((session.user_id, session.created_at, session.expire_at), (1, 50, 10_000_050));
    assert_eq!(session.platform, "mobile");
    assert_eq!(session.ip.prefix, 128);
    assert_eq!(toast_task::sessions::get_single(&sessions, &bob, 100).unwrap_err().get_status().code, 404);
    assert_eq!(toast_task::sessions::get_all(&sessions, &alice, None, None).items.len(), 1);
    assert!(toast_task::sessions::get_all(&sessions, &bob, None, None).items.is_empty());
    assert_eq!(toast_task::sessions::delete(&mut sessions, &bob, 100).unwrap_err().get_status().code, 404);
    assert!(toast_task::sessions::delete(&mut sessions, &alice, 100).is_ok());
    assert_eq!(sessions.records().len(), 0);
}

#[test]
fn user_sees_itself() {
    let mut accounts = Accounts::new();
    let registration = EmailUserRegistration {
        email: "alice@x.com".to_string(),
        password: "pw1234".to_string(),
        username: "alice".to_string(),
    };
    assert!(email_registeration(&mut accounts, "pepper-and-salt", &registration, 1, 3).is_ok());
    let client = ClientInfo {
        ip: IpNetwork::from_addr(IpAddr::V4([1, 2, 3, 4])),
        platform: Platform::Desktop,
        user_agent: "app".to_string(),
    };
    let mut sessions = Sessions::new();
    assert_eq!(sessions.create_session(100, 1, &client, 0, 10), Some(100));
    assert_eq!(sessions.create_session(200, 2, &client, 0, 10), Some(200));
    let alice = Auth(accounts.users[0].clone());
    let me = get_me(&alice, &accounts, &sessions);
    assert_eq!((me.id, me.created_at), (1, 3));
    assert_eq!(me.username, "alice");
    assert_eq!(me.email_login.unwrap().email, "alice@x.com");
    assert!(me.discord_login.is_none());
    assert_eq!(me.sessions.len(), 1);
    assert_eq!(me.sessions[0].platform, "desktop");
}

#[test]
fn joined_rows_are_folded_by_resource() {
    let rows = vec![
        JoinRow { id: 1, base: "first", child_id: Some(10), label_id: Some(7) },
        JoinRow { id: 1, base: "again", child_id: Some(10), label_id: Some(8) },
        JoinRow { id: 2, base: "second", child_id: None, label_id: None },
        JoinRow { id: 1, base: "again", child_id: Some(11), label_id: Some(7) },
        JoinRow { id: 1, base: "again", child_id: Some(11), label_id: Some(8) },
    ];
    let groups = group_rows(rows);
    assert_eq!(groups.len(), 2);
    assert_eq!((groups[0].id, groups[0].base), (1, "first"));
    assert_eq!(groups[0].child_ids, vec![10, 11]);
    assert_eq!(groups[0].label_ids, vec![7, 8]);
    assert_eq!((groups[1].id, groups[1].base), (2, "second"));
    assert!(groups[1].child_ids.is_empty());
    assert!(groups[1].label_ids.is_empty());
}

#[test]
fn single_fetch_without_rows_is_nothing() {
    assert!(group_single(Vec::<JoinRow<u8>>::new()).is_none());
    let rows = vec![
        JoinRow { id: 4, base: 1u8, child_id: Some(5), label_id: None },
        JoinRow { id: 4, base: 1u8, child_id: Some(6), label_id: None },
    ];
    let group = group_single(rows).unwrap();
    assert_eq!((group.id, group.child_ids), (4, vec![5, 6]));
}

#[test]
fn storage_answers_become_responses() {
    assert_eq!(message(&fetch_failed(DbError::RowNotFound)), (404, Value::message("Item not found.")));
    assert_eq!(message(&fetch_failed(DbError::Other)), (500, Value::message("Error fetching items")));

    assert_eq!(message(&delete_outcome(Ok(0)).unwrap_err()), (404, Value::message("Item not found.")));
    assert_eq!(message(&delete_outcome(Ok(2)).unwrap()), (200, Value::message("Delete successful.")));
    assert_eq!(
        message(&delete_outcome(Err(DbError::Database)).unwrap_err()),
        (400, Value::message("Invalid delete request."))
    );
    assert_eq!(
        message(&delete_outcome(Err(DbError::Other)).unwrap_err()),
        (500, Value::message("Failed to delete in database."))
    );
    assert_eq!(message(&failure_response(Failure::NotFound)), (404, Value::message("Item not found.")));
    assert_eq!(message(&failure_response(Failure::EmptyPatch)), (400, Value::message("Empty patch request.")));
}

#[test]
fn window_and_statements_of_a_listing() {
    let window = page_window(None, None);
    assert_eq!((window.limit, window.page, window.offset), (1000, 0, 0));
    let window = page_window(Some(25), Some(3));
    assert_eq!((window.limit, window.page, window.offset), (25, 3, 75));
    let window = page_window(Some(u32::MAX), Some(u32::MAX));
    assert_eq!(window.offset, (u32::MAX as u64) * (u32::MAX as u64));
    assert_eq!(
        select_all_query("labels", OWNED_RECORDS),
        "SELECT * FROM labels WHERE user_id = $1 LIMIT $2 OFFSET $3"
    );
    assert_eq!(
        select_single_query("labels", OWNED_RECORD),
        "SELECT * FROM labels WHERE id = $1 AND user_id = $2"
    );
    assert_eq!(
        delete_query("sessions", OWNED_RECORD),
        "DELETE FROM sessions WHERE id = $1 AND user_id = $2"
    );
}

#[test]
fn steps_of_a_patch_against_a_storage() {
    assert_eq!(
        patch_begin(false, 1, &Patch::Missing, false, None),
        Step::Reply(Reply::Refused(Failure::EmptyPatch))
    );
    assert_eq!(
        patch_begin(true, 1, &Patch::Value(1), false, None),
        Step::Reply(Reply::Refused(Failure::OwnParent))
    );
    let plan = Plan { empties: false, reference: Some(7), parent: Some(2) };
    let first = patch_begin(true, 1, &Patch::Value(2), false, Some(7));
    assert_eq!(first, Step::Ask { ask: Ask::Record, stage: Stage::Record(plan) });
    assert_eq!(
        advance(Stage::Record(plan), Event::Owned(Ok(false))),
        Step::Reply(Reply::Refused(Failure::NotFound))
    );
    let second = advance(Stage::Record(plan), Event::Owned(Ok(true)));
    assert_eq!(second, Step::Ask { ask: Ask::Reference(7), stage: Stage::Reference(plan) });
    assert_eq!(
        advance(Stage::Reference(plan), Event::Owned(Ok(false))),
        Step::Reply(Reply::Refused(Failure::Conflict))
    );
    let third = advance(Stage::Reference(plan), Event::Owned(Ok(true)));
    assert_eq!(third, Step::Ask { ask: Ask::Parent(2), stage: Stage::Parent });
    assert_eq!(
        advance(Stage::Parent, Event::Owned(Ok(false))),
        Step::Reply(Reply::Refused(Failure::InvalidParent))
    );
    assert_eq!(
        advance(Stage::Parent, Event::Owned(Ok(true))),
        Step::Ask { ask: Ask::Write, stage: Stage::Write }
    );
    assert_eq!(advance(Stage::Write, Event::Written(Ok(1))), Step::Reply(Reply::Done));
    assert_eq!(
        advance(Stage::Write, Event::Written(Ok(0))),
        Step::Reply(Reply::Refused(Failure::NotFound))
    );
    assert_eq!(
        advance(Stage::Write, Event::Written(Err(DbError::Database))),
        Step::Reply(Reply::Refused(Failure::Conflict))
    );
    assert_eq!(
        advance(Stage::Write, Event::Written(Err(DbError::Other))),
        Step::Reply(Reply::Failed(DbError::Other))
    );
    assert_eq!(
        advance(Stage::Parent, Event::Owned(Err(DbError::Other))),
        Step::Reply(Reply::Failed(DbError::Other))
    );
    assert_eq!(
        advance(Stage::Parent, Event::Written(Ok(1))),
        Step::Reply(Reply::Failed(DbError::Other))
    );
    let emptying = Plan { empties: true, reference: None, parent: None };
    assert_eq!(
        advance(Stage::Record(emptying), Event::Owned(Ok(true))),
        Step::Reply(Reply::Refused(Failure::Conflict))
    );
    assert_eq!(message(&patch_reply(Reply::Done).unwrap()), (200, Value::message("Patch successful.")));
    assert_eq!(
        message(&patch_reply(Reply::Refused(Failure::Conflict)).unwrap_err()),
        (400, Value::message("Invalid patch request."))
    );
    assert_eq!(
        message(&patch_reply(Reply::Refused(Failure::EmptyPatch)).unwrap_err()),
        (400, Value::message("Empty patch request."))
    );
    assert_eq!(
        message(&patch_reply(Reply::Failed(DbError::Other)).unwrap_err()),
        (500, Value::message("Failed to patch in database."))
    );
}

#[test]
fn steps_of_a_create_against_a_storage() {
    assert_eq!(create_begin(None, None), Step::Ask { ask: Ask::Write, stage: Stage::Write });
    assert_eq!(create_begin(None, Some(3)), Step::Ask { ask: Ask::Parent(3), stage: Stage::Parent });
    assert!(matches!(create_begin(Some(4), Some(3)), Step::Ask { ask: Ask::Reference(4), .. }));
    assert_eq!(advance(Stage::Write, Event::Inserted(Ok(9))), Step::Reply(Reply::Created(9)));
    assert_eq!(
        advance(Stage::Write, Event::Inserted(Err(DbError::Database))),
        Step::Reply(Reply::Refused(Failure::Conflict))
    );
    assert_eq!(message(&create_reply(Reply::Created(9), 0).unwrap()), message(&created_response(9)));
    assert_eq!(
        message(&create_reply(Reply::Refused(Failure::InvalidParent), 0).unwrap_err()),
        (400, Value::message("Invalid parent id."))
    );
    assert_eq!(
        message(&create_reply(Reply::Refused(Failure::Conflict), 0).unwrap_err()),
        (400, Value::message("Invalid create request."))
    );
    assert_eq!(
        message(&create_reply(Reply::Failed(DbError::Other), 0).unwrap_err()),
        (500, Value::message("Failed to create in database."))
    );
    let colourless = list_post("a", "red", None);
    assert_eq!(message(&toast_task::lists::post_begin(&colourless).unwrap_err()), (400, invalid_color()));
    assert_eq!(
        toast_task::lists::post_begin(&list_post("a", "#000000", Some(3))).ok(),
        Some(create_begin(None, Some(3)))
    );
    assert_eq!(toast_task::tasks::post_begin(&task_post(4, "t", Some(3))), create_begin(Some(4), Some(3)));
    let mut patch = task_patch();
    patch.list_id = Patch::Value(4);
    assert!(matches!(
        toast_task::tasks::patch_begin(1, &patch),
        Step::Ask { ask: Ask::Record, .. }
    ));
    assert_eq!(
        toast_task::tasks::patch_begin(1, &task_patch()),
        Step::Reply(Reply::Refused(Failure::EmptyPatch))
    );
    assert!(toast_task::lists::patch_begin(1, &list_patch()).is_ok());
    assert!(toast_task::labels::post_begin(&label_post("x")).is_ok());
}

#[test]
fn steps_of_a_label_against_a_storage() {
    assert!(matches!(attach_begin(1, LabelPostInput { id: 7 }), Step::Ask { ask: Ask::Record, .. }));
    assert_eq!(
        message(&attach_reply(Reply::Done).unwrap()),
        (200, Value::message("Label attached successfully."))
    );
    assert_eq!(
        message(&attach_reply(Reply::Refused(Failure::NotFound)).unwrap_err()),
        (404, Value::message("Task not found"))
    );
    assert_eq!(
        message(&attach_reply(Reply::Refused(Failure::Conflict)).unwrap_err()),
        (400, Value::message("Invalid label id."))
    );
    assert_eq!(
        message(&attach_reply(Reply::Failed(DbError::Other)).unwrap_err()),
        (500, Value::message("Failed to attach label in database."))
    );
    assert_eq!(
        message(&detach_reply(Ok(0)).unwrap()),
        (200, Value::message("Label detached successfully."))
    );
    assert_eq!(
        message(&detach_reply(Err(DbError::Other)).unwrap_err()),
        (500, Value::message("Failed to detach label in database."))
    );
}
