use toast_task::auth::SessionPayload;
use toast_task::config::AppConfig;
use toast_task::crud::{tree_select_all_query, tree_select_single_query};
use toast_task::json::{patch_of, Value};
use toast_task::patch::Patch;
use toast_task::responses::{
    APIResponse, LocalCache, MapAPIResponse, MapReqAPIResponse, Outcome, RequestGuardError,
    Status,
};
use toast_task::validation::{ToGuardOutcome, ValidationError, ValidationErrors};

fn body() -> Value {
    Value::Object(vec![
        ("title".to_string(), Value::String("Groceries".to_string())),
        ("description".to_string(), Value::Null),
        ("completed".to_string(), Value::Bool(false)),
        ("title".to_string(), Value::String("shadowed".to_string())),
    ])
}

#[test]
fn body_field_is_absent_empty_or_a_value() {
    assert_eq!(body().field("color"), None);
    assert_eq!(body().field("description"), Some(None));
    assert_eq!(body().field("title"), Some(Some(Value::String("Groceries".to_string()))));
    assert_eq!(body().field("completed"), Some(Some(Value::Bool(false))));
    assert_eq!(Value::Null.field("title"), None);
    assert_eq!(Value::Array(vec![body()]).field("title"), None);
}

#[test]
fn body_field_becomes_a_patch() {
    assert!(matches!(patch_of(&body(), "color"), Patch::Missing));
    assert!(matches!(patch_of(&body(), "description"), Patch::Null));
    match patch_of(&body(), "title") {
        Patch::Value(value) => assert_eq!(value, Value::String("Groceries".to_string())),
        _ => panic!("the title is given"),
    }
}

#[test]
fn patch_survives_a_request_body() {
    let patches: Vec<Patch<Value>> =
        vec![Patch::Missing, Patch::Null, Patch::Value(Value::Number(3))];
    for patch in patches {
        let mut members = vec![("other".to_string(), Value::Bool(true))];
        let written = match &patch {
            Patch::Missing => None,
            Patch::Null => Some(Value::Null),
            Patch::Value(value) => Some(value.clone()),
        };
        if let Some(value) = written {
            members.push(("field".to_string(), value));
        }
        let read = patch_of(&Value::Object(members), "field");
        match (patch, read) {
            (Patch::Missing, Patch::Missing) => {}
            (Patch::Null, Patch::Null) => {}
            (Patch::Value(a), Patch::Value(b)) => assert_eq!(a, b),
            _ => panic!("the patch changed on the way"),
        }
    }
}

#[test]
fn value_knows_null() {
    assert!(Value::Null.is_null());
    assert!(!Value::Bool(false).is_null());
    assert!(!Value::String(String::new()).is_null());
}

#[test]
fn result_errors_are_replaced_by_responses() {
    let ok: Result<u8, &str> = Ok(1);
    assert_eq!(ok.map_not_found("gone").ok(), Some(1));
    let err: Result<u8, &str> = Err("boom");
    let response = err.map_not_found("gone").unwrap_err();
    assert_eq!(response.get_status().code, 404);
    assert_eq!(response.get_data(), &Value::message("gone"));
    let err: Result<u8, &str> = Err("boom");
    let response = err.map_response(Status::new(418), Value::Bool(true)).unwrap_err();
    assert_eq!((response.get_status().code, response.get_data()), (418, &Value::Bool(true)));
    let codes: Vec<(u16, APIResponse)> = vec![
        (500, Err::<u8, ()>(()).map_internal_server_error("m").unwrap_err()),
        (400, Err::<u8, ()>(()).map_bad_request("m").unwrap_err()),
        (401, Err::<u8, ()>(()).map_unauthorized("m").unwrap_err()),
        (403, Err::<u8, ()>(()).map_forbidden("m").unwrap_err()),
        (422, Err::<u8, ()>(()).map_unprocessable_entity("m").unwrap_err()),
        (200, Err::<u8, ()>(()).map_ok("m").unwrap_err()),
        (201, Err::<u8, ()>(()).map_created("m").unwrap_err()),
        (202, Err::<u8, ()>(()).map_accepted("m").unwrap_err()),
        (502, Err::<u8, ()>(()).map_bad_gateway("m").unwrap_err()),
        (503, Err::<u8, ()>(()).map_service_unavailable("m").unwrap_err()),
        (400, Err::<u8, ()>(()).map_response_message(Status::new(400), "m").unwrap_err()),
    ];
    for (code, response) in codes {
        assert_eq!(response.get_status().code, code);
        assert_eq!(response.get_data(), &Value::message("m"));
    }
}

#[test]
fn outcome_failures_are_replaced_and_remembered() {
    let mut cache = LocalCache::new();
    let success: Outcome<u8, &str, ()> = Outcome::Success(1);
    let mapped: Outcome<u8, RequestGuardError, ()> = success.map_unauthorized(&mut cache, "no");
    assert!(matches!(mapped, Outcome::Success(1)));
    assert!(cache.response().is_none());

    let forward: Outcome<u8, &str, u8> = Outcome::Forward(9);
    let mapped: Outcome<u8, RequestGuardError, u8> = forward.map_unauthorized(&mut cache, "no");
    assert!(matches!(mapped, Outcome::Forward(9)));

    let failure: Outcome<u8, &str, ()> = Outcome::Failure("boom");
    let mapped: Outcome<u8, RequestGuardError, ()> = failure.map_unauthorized(&mut cache, "no");
    match mapped {
        Outcome::Failure(error) => assert_eq!(error, (Status { code: 401 }, Value::message("no"))),
        _ => panic!("the failure must stay a failure"),
    }
    assert_eq!(cache.response().unwrap().get_status().code, 401);

    let failure: Outcome<u8, &str, ()> = Outcome::Failure("boom");
    let mapped: Outcome<u8, RequestGuardError, ()> =
        failure.map_response(&mut cache, Status::new(500), Value::Null);
    assert!(matches!(mapped, Outcome::Failure((Status { code: 500 }, Value::Null))));
    assert_eq!(cache.response().unwrap().get_status().code, 401);
}

#[test]
fn validation_verdict_becomes_a_guard_outcome() {
    let mut cache = LocalCache::new();
    let passed: Result<u8, ValidationErrors> = Ok(4);
    let outcome: Outcome<u8, RequestGuardError, ()> = passed.to_guard_outcome(&mut cache);
    assert!(matches!(outcome, Outcome::Success(4)));

    let mut errors = ValidationErrors::new();
    errors.note("color", Err(ValidationError::new("bad colour")));
    errors.note("email", Err(ValidationError::with_message("email", "Invalid email address.")));
    let expected = Value::Array(vec![
        Value::Object(vec![
            ("field".to_string(), Value::String("color".to_string())),
            ("code".to_string(), Value::String("bad colour".to_string())),
            ("message".to_string(), Value::Null),
        ]),
        Value::Object(vec![
            ("field".to_string(), Value::String("email".to_string())),
            ("code".to_string(), Value::String("email".to_string())),
            ("message".to_string(), Value::String("Invalid email address.".to_string())),
        ]),
    ]);
    assert_eq!(errors.to_json(), expected);
    let failed: Result<u8, ValidationErrors> = Err(errors);
    let outcome: Outcome<u8, RequestGuardError, ()> = failed.to_guard_outcome(&mut cache);
    match outcome {
        Outcome::Failure(error) => assert_eq!(error, (Status { code: 400 }, expected.clone())),
        _ => panic!("the guard must fail"),
    }
    assert_eq!(cache.response().unwrap().get_data(), &expected);

    let failed: Result<u8, ValidationErrors> = Err(ValidationErrors::new());
    let outcome: Outcome<u8, RequestGuardError, ()> =
        failed.to_guard_outcome_status(&mut cache, Status::new(422));
    assert!(matches!(outcome, Outcome::Failure((Status { code: 422 }, _))));
}

#[test]
fn conversions_by_trait() {
    let response: APIResponse = Status::new(204).into();
    assert_eq!((response.get_status().code, response.get_data()), (204, &Value::Null));
    let response = APIResponse::from(Status::new(403));
    assert_eq!(response.get_data(), &Value::message("403 Forbidden"));
    let payload = SessionPayload { user_id: 1, session_token: 2 };
    let value: Value = payload.into();
    assert_eq!(value, payload.to_json());
    let config: AppConfig = Default::default();
    assert_eq!(config.web_port, 8080);
}

#[test]
fn tree_statements() {
    let fields = vec!["id".to_string(), "user_id".to_string(), "title".to_string()];
    assert_eq!(
        tree_select_all_query("lists", &fields),
        "SELECT base_query.id, base_query.user_id, base_query.title, child_query.id AS child_id FROM (SELECT * FROM lists WHERE user_id = $1 LIMIT $2 OFFSET $3) base_query LEFT JOIN lists child_query ON base_query.id = child_query.parent_id"
    );
    assert_eq!(
        tree_select_single_query("lists", &fields),
        "SELECT base_query.id, base_query.user_id, base_query.title, child_query.id AS child_id FROM (SELECT * FROM lists WHERE id = $1 AND user_id = $2) base_query LEFT JOIN lists child_query ON base_query.id = child_query.parent_id"
    );
}

#[test]
fn figment_names_port_log_level_and_storage() {
    let mut config = AppConfig::default();
    config.database_url = "postgres://db".to_string();
    assert_eq!(
        config.to_rocket_figment(),
        Value::Object(vec![
            ("port".to_string(), Value::Number(8000)),
            ("log_level".to_string(), Value::String("normal".to_string())),
            (
                "databases".to_string(),
                Value::Object(vec![(
                    "backend".to_string(),
                    Value::Object(vec![
                        ("url".to_string(), Value::String("postgres://db".to_string())),
                        ("pool_size".to_string(), Value::Number(10)),
                    ]),
                )]),
            ),
        ])
    );
    assert_eq!(toast_task::config::LogLevel::Off.to_string(), "off");
    assert_eq!(toast_task::config::LogLevel::Debug.to_string(), "debug");
}

#[test]
fn test_environment_is_silent() {
    let env = toast_task::config::EnvVars {
        backend_port: 1,
        web_port: 2,
        base_url: "h".to_string(),
        database_url: "d".to_string(),
        password_salt: "s".to_string(),
    };
    let config = toast_task::config::config(&env);
    assert_eq!(config.log_level, toast_task::config::LogLevel::Off);
    assert_eq!((config.backend_port, config.web_port), (1, 2));
    assert_eq!(config.session_duration, 10_000_000);
}

#[test]
fn post_response_is_the_identifier() {
    let response = toast_task::crud::PostResponse { id: 0xff };
    assert_eq!(
        response.to_json(),
        Value::Object(vec![(
            "id".to_string(),
            Value::String("00000000-0000-0000-0000-0000000000ff".to_string())
        )])
    );
}

#[test]
fn task_builder_hands_over_children_and_labels() {
    let task = toast_task::tasks::TaskModel {
        id: 1,
        parent_id: Some(2),
        list_id: 3,
        created_at: 4,
        updated_at: 5,
        due_at: "soon".to_string(),
        due_text: "really soon".to_string(),
        completed: true,
        title: "t".to_string(),
        description: None,
    };
    let group = toast_task::tree::Group { id: 1, base: task, child_ids: vec![7, 8], label_ids: vec![9] };
    let mut builder = toast_task::tasks::GetModelBuilder::from_group(group);
    builder.insert_child(7);
    builder.insert_label(9);
    builder.insert_label(10);
    let model = builder.build();
    assert_eq!(model.label_ids, vec![9, 10]);
    assert_eq!(model.description, None);
    assert_eq!(model.due_at, "soon");
    assert_eq!(model.child_ids, vec![7, 8]);
    assert_eq!((model.id, model.parent_id, model.list_id), (1, Some(2), 3));
    assert_eq!((model.created_at, model.updated_at, model.completed), (4, 5, true));
    assert_eq!(model.due_text, "really soon");
}

#[test]
fn list_model_becomes_a_get_model() {
    let list = toast_task::lists::ListModel {
        id: 1,
        parent_id: None,
        user_id: 2,
        title: "t".to_string(),
        description: Some("d".to_string()),
        color: "#000000".to_string(),
    };
    let model = list.into_get_model(vec![5]);
    assert_eq!((model.id, model.user_id, model.child_ids), (1, 2, vec![5]));
    assert_eq!(model.description, Some("d".to_string()));
}

#[test]
fn user_login_is_validated() {
    let login = toast_task::validation::UserLogin {
        id: None,
        email: "nope".to_string(),
        password: "x".to_string(),
    };
    let errors = login.validate().unwrap_err();
    assert_eq!(errors.errors.len(), 1);
    assert_eq!(errors.errors[0].0, "email");
}
