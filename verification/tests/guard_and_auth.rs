use toast_task::arena::Failure;
use toast_task::auth::{
    discord_created, discord_found, discord_login_user, discord_reply, email_login,
    email_registeration, login_begin, login_found, login_reply, password_hash,
    registration_begin, registration_found, registration_reply, render_callback_page,
    same_bytes, session_fields, Accounts, AuthFailure, LoginSeen, SessionPayload,
};
use toast_task::crud::DbError;
use toast_task::client_info::{ClientInfo, IpAddr, IpNetwork, Platform};
use toast_task::guard::{
    bearer_token, check_token, find_user, guard_begin, guard_step, new_session, Auth,
    GuardAction, GuardEvent, GuardFailure, GuardState, SessionSeen, Sessions, UserModel,
};
use toast_task::ids::id_to_string;
use toast_task::json::Value;
use toast_task::validation::{EmailUserLogin, EmailUserRegistration};

const SALT: &str = "pepper-and-salt";

fn client() -> ClientInfo {
    ClientInfo {
        ip: IpNetwork::from_addr(IpAddr::V4([127, 0, 0, 1])),
        platform: Platform::Web,
        user_agent: "tests".to_string(),
    }
}

fn user(id: u128, name: &str) -> UserModel {
    UserModel { id, username: name.to_string(), created_at: 0, updated_at: 0 }
}

fn bearer(token: u128) -> Vec<String> {
    vec![format!("Bearer {}", id_to_string(token))]
}

#[test]
fn bearer_token_needs_exactly_one_header() {
    assert_eq!(bearer_token(&Vec::new()), Err(GuardFailure::MissingHeader));
    let two = vec![bearer(1)[0].clone(), bearer(2)[0].clone()];
    assert_eq!(bearer_token(&two), Err(GuardFailure::MissingHeader));
}

#[test]
fn bearer_token_must_be_an_identifier() {
    assert_eq!(bearer_token(&vec!["Bearer nonsense".to_string()]), Err(GuardFailure::MalformedToken));
    assert_eq!(bearer_token(&vec!["".to_string()]), Err(GuardFailure::MalformedToken));
    assert_eq!(check_token(None), Err(GuardFailure::MalformedToken));
    assert_eq!(check_token(Some(5)), Ok(5));
}

#[test]
fn bearer_token_is_read_with_or_without_the_word() {
    assert_eq!(bearer_token(&bearer(0xabc)), Ok(0xabc));
    assert_eq!(bearer_token(&vec![id_to_string(0xabc)]), Ok(0xabc));
}

#[test]
fn guard_failures_have_their_status_and_message() {
    assert_eq!(GuardFailure::MissingHeader.status().code, 401);
    assert_eq!(GuardFailure::MalformedToken.status().code, 401);
    assert_eq!(GuardFailure::InvalidToken.status().code, 401);
    assert_eq!(GuardFailure::Expired.status().code, 401);
    assert_eq!(GuardFailure::DatabaseUnavailable.status().code, 500);
    assert_eq!(GuardFailure::PruneFailed.status().code, 500);
    assert_eq!(GuardFailure::InvalidUser.status().code, 500);
    assert_eq!(GuardFailure::MissingHeader.message(), "Missing authorization header.");
    assert_eq!(GuardFailure::MalformedToken.message(), "Bearer session token must be valid UUID.");
    assert_eq!(GuardFailure::InvalidToken.message(), "Invalid session token.");
    assert_eq!(GuardFailure::InvalidUser.message(), "Session points to invalid user.");
    let response = GuardFailure::PruneFailed.response();
    assert_eq!(response.get_status().code, 500);
    assert_eq!(response.get_data(), &Value::message("Pruning expired sessions failed."));
}

#[test]
fn guard_walks_through_its_states() {
    let first = guard_begin(&bearer(7), true);
    assert!(matches!(first.action, GuardAction::FetchSession { token: 7 }));
    assert_eq!(first.next, Some(GuardState::AwaitSession { token: 7 }));

    let seen = SessionSeen { user_id: 3, expire_at: 100 };
    let second = guard_step(first.next.unwrap(), GuardEvent::Session(Some(seen)), 50);
    assert!(matches!(second.action, GuardAction::Prune { user_id: 3, now: 50 }));
    assert_eq!(second.next, Some(GuardState::AwaitPrune { session: seen }));

    let third = guard_step(second.next.unwrap(), GuardEvent::Pruned(true), 50);
    assert!(matches!(third.action, GuardAction::FetchUser { user_id: 3 }));
    assert_eq!(third.next, Some(GuardState::AwaitUser { user_id: 3 }));

    let fourth = guard_step(third.next.unwrap(), GuardEvent::User(Some(user(3, "alice"))), 50);
    assert_eq!(fourth.next, None);
    match fourth.action {
        GuardAction::Admit(Auth(admitted)) => assert_eq!(admitted.username, "alice"),
        _ => panic!("the guard must admit the user"),
    }
}

#[test]
fn guard_rejects_on_each_failure() {
    assert!(matches!(
        guard_begin(&bearer(7), false).action,
        GuardAction::Reject(GuardFailure::DatabaseUnavailable)
    ));
    assert!(matches!(
        guard_begin(&Vec::new(), true).action,
        GuardAction::Reject(GuardFailure::MissingHeader)
    ));
    let await_session = GuardState::AwaitSession { token: 7 };
    assert!(matches!(
        guard_step(await_session, GuardEvent::Session(None), 0).action,
        GuardAction::Reject(GuardFailure::InvalidToken)
    ));
    let seen = SessionSeen { user_id: 3, expire_at: 100 };
    let await_prune = GuardState::AwaitPrune { session: seen };
    assert!(matches!(
        guard_step(await_prune, GuardEvent::Pruned(false), 0).action,
        GuardAction::Reject(GuardFailure::PruneFailed)
    ));
    assert!(matches!(
        guard_step(await_prune, GuardEvent::Pruned(true), 100).action,
        GuardAction::Reject(GuardFailure::Expired)
    ));
    assert!(matches!(
        guard_step(await_prune, GuardEvent::Pruned(true), 99).action,
        GuardAction::FetchUser { user_id: 3 }
    ));
    assert!(matches!(
        guard_step(GuardState::AwaitUser { user_id: 3 }, GuardEvent::User(None), 0).action,
        GuardAction::Reject(GuardFailure::InvalidUser)
    ));
    assert!(matches!(
        guard_step(GuardState::AwaitUser { user_id: 3 }, GuardEvent::Pruned(true), 0).action,
        GuardAction::Reject(GuardFailure::Unexpected)
    ));
}

#[test]
fn new_session_runs_out_after_the_duration() {
    let fields = new_session(&client(), 1_000, 500).unwrap();
    assert_eq!((fields.created_at, fields.expire_at), (1_000, 1_500));
    assert_eq!(fields.platform, "web");
    assert_eq!(fields.user_agent, "tests");
    assert!(new_session(&client(), i64::MAX, 1).is_none());
}

#[test]
fn authenticate_admits_a_running_session() {
    let users = vec![user(1, "alice"), user(2, "bob")];
    let mut sessions = Sessions::new();
    assert_eq!(sessions.create_session(100, 1, &client(), 0, 1_000), Some(100));
    let admitted = sessions.authenticate(&users, &bearer(100), 999).unwrap();
    assert_eq!(admitted.deref().id, 1);
    assert_eq!(admitted.into_inner().username, "alice");
    assert_eq!(sessions.records().len(), 1);
}

#[test]
fn authenticate_refuses_and_prunes_an_expired_session() {
    let users = vec![user(1, "alice"), user(2, "bob")];
    let mut sessions = Sessions::new();
    assert_eq!(sessions.create_session(100, 1, &client(), 0, 1_000), Some(100));
    assert_eq!(sessions.create_session(101, 1, &client(), 0, 5_000), Some(101));
    assert_eq!(sessions.create_session(200, 2, &client(), 0, 10), Some(200));

    assert_eq!(sessions.authenticate(&users, &bearer(100), 1_000).err(), Some(GuardFailure::Expired));
    assert_eq!(sessions.records().len(), 2);
    assert_eq!(sessions.look_up(100), None);
    assert_eq!(
        sessions.authenticate(&users, &bearer(100), 0).err(),
        Some(GuardFailure::InvalidToken)
    );
    // The other user's expired session is untouched, and the caller's running one stays.
    assert!(sessions.look_up(200).is_some());
    assert!(sessions.authenticate(&users, &bearer(101), 1_000).is_ok());
}

#[test]
fn authenticate_prunes_other_expired_sessions_of_the_same_user() {
    let users = vec![user(1, "alice")];
    let mut sessions = Sessions::new();
    assert_eq!(sessions.create_session(100, 1, &client(), 0, 10), Some(100));
    assert_eq!(sessions.create_session(101, 1, &client(), 0, 5_000), Some(101));
    assert!(sessions.authenticate(&users, &bearer(101), 1_000).is_ok());
    assert_eq!(sessions.look_up(100), None);
    assert_eq!(sessions.records().len(), 1);
}

#[test]
fn authenticate_reports_a_session_without_user() {
    let users = vec![user(2, "bob")];
    let mut sessions = Sessions::new();
    assert_eq!(sessions.create_session(100, 1, &client(), 0, 1_000), Some(100));
    assert_eq!(
        sessions.authenticate(&users, &bearer(100), 1).err(),
        Some(GuardFailure::InvalidUser)
    );
}

#[test]
fn authenticate_refuses_unknown_and_malformed_tokens() {
    let users = vec![user(1, "alice")];
    let mut sessions = Sessions::new();
    assert_eq!(sessions.authenticate(&users, &bearer(5), 0).err(), Some(GuardFailure::InvalidToken));
    assert_eq!(
        sessions.authenticate(&users, &vec!["Bearer x".to_string()], 0).err(),
        Some(GuardFailure::MalformedToken)
    );
    assert_eq!(sessions.authenticate(&users, &Vec::new(), 0).err(), Some(GuardFailure::MissingHeader));
}

#[test]
fn session_token_cannot_be_taken_twice() {
    let mut sessions = Sessions::new();
    assert_eq!(sessions.create_session(100, 1, &client(), 0, 10), Some(100));
    assert_eq!(sessions.create_session(100, 2, &client(), 0, 10), None);
    assert_eq!(sessions.delete(2, 100), Err(Failure::NotFound));
    assert_eq!(sessions.delete(1, 100), Ok(()));
}

#[test]
fn find_user_takes_the_first_match() {
    let users = vec![user(1, "alice"), user(2, "bob"), user(1, "shadow")];
    assert_eq!(find_user(&users, 1).unwrap().username, "alice");
    assert_eq!(find_user(&users, 2).unwrap().username, "bob");
    assert!(find_user(&users, 3).is_none());
}

#[test]
fn password_hash_needs_a_salt_of_eight_bytes() {
    assert!(password_hash("pw1234", "default").is_none());
    assert!(password_hash("pw1234", "").is_none());
    assert_eq!(password_hash("pw1234", "12345678").unwrap().len(), 32);
}

#[test]
fn password_hash_depends_on_password_and_salt() {
    let a = password_hash("pw1234", SALT).unwrap();
    assert_eq!(a, password_hash("pw1234", SALT).unwrap());
    assert_ne!(a, password_hash("pw1235", SALT).unwrap());
    assert_ne!(a, password_hash("pw1234", "another-salt").unwrap());
    assert_ne!(a, "pw1234".as_bytes().to_vec());
    assert_eq!(UserModel::make_password_hash("pw1234", SALT), a);
    assert!(same_bytes(&a, &a.clone()));
    assert!(!same_bytes(&a, &Vec::new()));
}

fn registration(email: &str, password: &str, username: &str) -> EmailUserRegistration {
    EmailUserRegistration {
        email: email.to_string(),
        password: password.to_string(),
        username: username.to_string(),
    }
}

#[test]
fn registration_creates_user_and_login() {
    let mut accounts = Accounts::new();
    let input = registration("alice@x.com", "pw1234", "alice");
    let response = email_registeration(&mut accounts, SALT, &input, 1, 77).unwrap();
    assert_eq!(response.get_status().code, 200);
    assert_eq!(response.get_data(), &Value::message("Email registration worked!"));
    assert_eq!(accounts.users.len(), 1);
    assert_eq!((accounts.users[0].id, accounts.users[0].created_at), (1, 77));
    assert_eq!(accounts.users[0].username, "alice");
    assert_eq!(accounts.email_logins[0].email, "alice@x.com");
    assert_eq!(accounts.email_logins[0].password_hash, password_hash("pw1234", SALT).unwrap());
}

#[test]
fn registration_refuses_a_taken_email() {
    let mut accounts = Accounts::new();
    assert!(email_registeration(&mut accounts, SALT, &registration("alice@x.com", "pw1234", "alice"), 1, 0).is_ok());
    let again = email_registeration(&mut accounts, SALT, &registration("alice@x.com", "other", "eve"), 2, 0)
        .unwrap_err();
    assert_eq!(again.get_status().code, 400);
    assert_eq!(again.get_data(), &Value::message("Email is already taken."));
    assert_eq!(accounts.users.len(), 1);
    assert_eq!(accounts.email_logins.len(), 1);
}

#[test]
fn registration_creates_nothing_when_the_login_fails() {
    let mut accounts = Accounts::new();
    let failed = email_registeration(&mut accounts, "short", &registration("alice@x.com", "pw1234", "alice"), 1, 0)
        .unwrap_err();
    assert_eq!(failed.get_status().code, 500);
    assert_eq!(failed.get_data(), &Value::message("Failed to create email login."));
    assert!(accounts.users.is_empty());
    assert!(accounts.email_logins.is_empty());
}

#[test]
fn login_opens_a_session() {
    let mut accounts = Accounts::new();
    assert!(email_registeration(&mut accounts, SALT, &registration("alice@x.com", "pw1234", "alice"), 1, 0).is_ok());
    let mut sessions = Sessions::new();
    let input = EmailUserLogin { email: "alice@x.com".to_string(), password: "pw1234".to_string() };
    let response = email_login(&accounts, &mut sessions, SALT, 1_000, &input, &client(), 500, 10).unwrap();
    assert_eq!(response.get_status().code, 200);
    assert_eq!(
        response.get_data(),
        &SessionPayload { user_id: 1, session_token: 500 }.to_json()
    );
    assert_eq!(
        sessions.look_up(500),
        Some(SessionSeen { user_id: 1, expire_at: 1_010 })
    );
}

#[test]
fn login_refuses_unknown_email_and_wrong_password() {
    let mut accounts = Accounts::new();
    assert!(email_registeration(&mut accounts, SALT, &registration("alice@x.com", "pw1234", "alice"), 1, 0).is_ok());
    let mut sessions = Sessions::new();
    let unknown = EmailUserLogin { email: "bob@x.com".to_string(), password: "pw1234".to_string() };
    let response = email_login(&accounts, &mut sessions, SALT, 1_000, &unknown, &client(), 500, 10).unwrap_err();
    assert_eq!(response.get_status().code, 401);
    assert_eq!(response.get_data(), &Value::message("Username or password is incorrect."));
    let wrong = EmailUserLogin { email: "alice@x.com".to_string(), password: "pw12345".to_string() };
    let response = email_login(&accounts, &mut sessions, SALT, 1_000, &wrong, &client(), 500, 10).unwrap_err();
    assert_eq!(response.get_status().code, 401);
    assert_eq!(response.get_data(), &Value::message("Username or password is incorrect."));
    assert_eq!(sessions.records().len(), 0);
}

#[test]
fn login_fails_when_the_session_cannot_be_opened() {
    let mut accounts = Accounts::new();
    assert!(email_registeration(&mut accounts, SALT, &registration("alice@x.com", "pw1234", "alice"), 1, 0).is_ok());
    let mut sessions = Sessions::new();
    let input = EmailUserLogin { email: "alice@x.com".to_string(), password: "pw1234".to_string() };
    assert!(email_login(&accounts, &mut sessions, SALT, 1_000, &input, &client(), 500, 10).is_ok());
    let taken = email_login(&accounts, &mut sessions, SALT, 1_000, &input, &client(), 500, 10).unwrap_err();
    assert_eq!(taken.get_status().code, 500);
    assert_eq!(taken.get_data(), &Value::message("Failed to create session."));
    let overflow = email_login(&accounts, &mut sessions, SALT, i64::MAX, &input, &client(), 501, 10).unwrap_err();
    assert_eq!(overflow.get_status().code, 500);
    assert_eq!(sessions.records().len(), 1);
}

#[test]
fn discord_identity_gets_one_user() {
    let mut accounts = Accounts::new();
    assert_eq!(discord_login_user(&mut accounts, "discord-1", "alice", 1, 5).ok(), Some(1));
    assert_eq!(discord_login_user(&mut accounts, "discord-1", "alice", 2, 6).ok(), Some(1));
    assert_eq!(discord_login_user(&mut accounts, "discord-2", "bob", 2, 7).ok(), Some(2));
    assert_eq!(accounts.users.len(), 2);
    let failed = discord_login_user(&mut accounts, "discord-3", "eve", 2, 8).unwrap_err();
    assert_eq!(failed.get_status().code, 500);
    assert_eq!(accounts.discord_logins.len(), 2);
}

#[test]
fn session_payload_is_written_as_json() {
    let payload = SessionPayload { user_id: 1, session_token: 2 };
    assert_eq!(
        payload.to_json_text(),
        "{\"session_token\":\"00000000-0000-0000-0000-000000000002\",\"user_id\":\"00000000-0000-0000-0000-000000000001\"}"
    );
    assert_eq!(
        payload.to_json(),
        Value::Object(vec![
            ("user_id".to_string(), Value::String(id_to_string(1))),
            ("session_token".to_string(), Value::String(id_to_string(2))),
        ])
    );
}

#[test]
fn callback_page_carries_the_payload() {
    assert_eq!(
        render_callback_page("{}"),
        "<html><head><title>Authenticate</title></head><body></body><script>res = {}; window.opener.postMessage(res, \"*\");window.close();</script></html>"
    );
}

#[test]
fn registration_with_a_short_password_creates_nothing() {
    let mut accounts = Accounts::new();
    let input = registration("johnsmith@gmail.com", "m", "jonny");
    let refused = email_registeration(&mut accounts, SALT, &input, 1, 0).unwrap_err();
    assert_eq!(refused.get_status().code, 400);
    assert_eq!(
        refused.get_data(),
        &Value::Object(vec![
            ("message".to_string(), Value::String("400 Bad Request".to_string())),
            (
                "errors".to_string(),
                Value::Array(vec![Value::Object(vec![
                    ("field".to_string(), Value::String("password".to_string())),
                    ("code".to_string(), Value::String("length".to_string())),
                    (
                        "message".to_string(),
                        Value::String("Password must have 4 or more characters.".to_string())
                    ),
                ])]),
            ),
        ])
    );
    assert!(accounts.users.is_empty());
    assert!(accounts.email_logins.is_empty());
    let refused = email_registeration(&mut accounts, "short", &input, 1, 0).unwrap_err();
    assert_eq!(refused.get_status().code, 400);
}

#[test]
fn registration_with_an_invalid_body_is_refused_before_anything_else() {
    let mut accounts = Accounts::new();
    assert!(email_registeration(&mut accounts, SALT, &registration("alice@x.com", "pw1234", "alice"), 1, 0).is_ok());
    for input in [
        registration("alice", "pw1234", "alice"),
        registration("alice@x.com", "pw1", "alice"),
        registration("alice@x.com", "pw1234", ""),
        registration("", "", ""),
    ] {
        let refused = email_registeration(&mut accounts, SALT, &input, 2, 0).unwrap_err();
        assert_eq!(refused.get_status().code, 400);
        assert_ne!(refused.get_data(), &Value::message("Email is already taken."));
    }
    assert_eq!(accounts.users.len(), 1);
    assert_eq!(accounts.email_logins.len(), 1);
}

#[test]
fn login_with_an_invalid_body_is_refused() {
    let accounts = Accounts::new();
    let mut sessions = Sessions::new();
    let input = EmailUserLogin { email: "nobody".to_string(), password: "pw1234".to_string() };
    let refused = email_login(&accounts, &mut sessions, SALT, 1_000, &input, &client(), 500, 10).unwrap_err();
    assert_eq!(refused.get_status().code, 400);
    assert_eq!(sessions.records().len(), 0);
}

#[test]
fn registration_steps_against_a_storage() {
    let good = registration("alice@x.com", "pw1234", "alice");
    let bad = registration("alice@x.com", "m", "alice");
    assert!(registration_begin(&good).is_ok());
    assert_eq!(registration_begin(&bad).unwrap_err().get_status().code, 400);
    assert_eq!(registration_found(&bad, SALT, Ok(false)).unwrap_err().get_status().code, 400);
    assert_eq!(
        registration_found(&good, SALT, Ok(false)).ok(),
        Some(password_hash("pw1234", SALT).unwrap())
    );
    let taken = registration_found(&good, SALT, Ok(true)).unwrap_err();
    assert_eq!(taken.get_data(), &Value::message("Email is already taken."));
    let broken = registration_found(&good, SALT, Err(DbError::Other)).unwrap_err();
    assert_eq!(broken.get_status().code, 500);
    assert_eq!(broken.get_data(), &Value::message("Error accessing database."));
    assert_eq!(registration_found(&good, "short", Ok(false)).unwrap_err().get_status().code, 500);
    assert_eq!(registration_reply(Ok(())).unwrap().get_status().code, 200);
    let failed = registration_reply(Err(AuthFailure::UserNotCreated)).unwrap_err();
    assert_eq!(failed.get_data(), &Value::message("Failed to create new user."));
}

#[test]
fn login_steps_against_a_storage() {
    let input = EmailUserLogin { email: "alice@x.com".to_string(), password: "pw1234".to_string() };
    let seen = || LoginSeen { user_id: 1, password_hash: password_hash("pw1234", SALT).unwrap() };
    assert!(login_begin(&input).is_ok());
    let (user_id, fields) = login_found(&input, SALT, Ok(Some(seen())), &client(), 10, 90).ok().unwrap();
    assert_eq!((user_id, fields.created_at, fields.expire_at), (1, 10, 100));
    assert_eq!(login_found(&input, SALT, Ok(None), &client(), 10, 90).unwrap_err().get_status().code, 401);
    assert_eq!(
        login_found(&input, SALT, Err(DbError::Other), &client(), 10, 90).unwrap_err().get_status().code,
        401
    );
    let other = LoginSeen { user_id: 1, password_hash: vec![0; 32] };
    assert_eq!(login_found(&input, SALT, Ok(Some(other)), &client(), 10, 90).unwrap_err().get_status().code, 401);
    assert_eq!(
        login_found(&input, SALT, Ok(Some(seen())), &client(), i64::MAX, 90).unwrap_err().get_status().code,
        500
    );
    let done = login_reply(1, Ok(500)).unwrap();
    assert_eq!(done.get_data(), &SessionPayload { user_id: 1, session_token: 500 }.to_json());
    assert_eq!(login_reply(1, Err(DbError::Other)).unwrap_err().get_status().code, 500);

    assert_eq!(discord_found(Ok(Some(4))), Some(4));
    assert_eq!(discord_found(Ok(None)), None);
    assert_eq!(discord_found(Err(DbError::Other)), None);
    assert_eq!(discord_created(Ok(4)).ok(), Some(4));
    assert_eq!(discord_created(Err(DbError::Other)).unwrap_err().get_status().code, 500);
    assert_eq!(session_fields(&client(), 1, 2).ok().unwrap().expire_at, 3);
    assert_eq!(session_fields(&client(), i64::MAX, 2).unwrap_err().get_status().code, 500);
    assert_eq!(
        discord_reply(1, Ok(2)).ok().unwrap(),
        render_callback_page(&SessionPayload { user_id: 1, session_token: 2 }.to_json_text())
    );
    assert_eq!(discord_reply(1, Err(DbError::Other)).unwrap_err().get_status().code, 500);
}
