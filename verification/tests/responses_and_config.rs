use toast_task::client_info::{ClientInfo, IpAddr, IpNetwork, Platform};
use toast_task::config::{get_config, AppConfig, Config, ConfigError, EnvVars, LogLevel};
use toast_task::general::{healthcheck, whoami};
use toast_task::guard::{Auth, UserModel};
use toast_task::handlers::default_handler;
use toast_task::json::Value;
use toast_task::mounting::{Method, Rocket};
use toast_task::responses::{
    accepted, bad_gateway, bad_request, created, forbidden, guard_unauthorized,
    internal_server_error, not_found, ok, result_not_found, service_unavailable, unauthorized,
    unprocessable_entity, APIResponse, LocalCache, Outcome, RequestGuardError, Status,
};
use toast_task::utils::{OkAsError, ResultAsOutcome};
use toast_task::validation::{
    color_verdict, email_verdict, validate_color, validate_email, validate_min_length,
    validate_patch_color, EmailUserLogin, EmailUserRegistration, UserEmailRegistration,
    ValidationError, ValidationErrors,
};
use toast_task::patch::Patch;
use toast_task::wire::{
    deserialized_time, primitive_date_iso_deserialize, primitive_date_iso_serialize,
    serialized_time, string_serialize,
};
use toast_task::{create_rocket, create_rocket_default, MountAuth, MountConfig, RocketBuilderConfig};

fn env() -> EnvVars {
    EnvVars {
        backend_port: 9000,
        web_port: 9001,
        base_url: "example.org".to_string(),
        database_url: "postgres://db".to_string(),
        password_salt: "pepper-and-salt".to_string(),
    }
}

#[test]
fn response_with_message() {
    let response = APIResponse::new_message(Status::new(404), "Item not found.");
    assert_eq!(response.get_status(), Status { code: 404 });
    assert_eq!(
        response.get_data(),
        &Value::Object(vec![("message".to_string(), Value::String("Item not found.".to_string()))])
    );
}

#[test]
fn response_builders_replace_one_part() {
    let response = APIResponse::new(Status::new(200), Value::Bool(true));
    let response = response.status(Status::new(201));
    assert_eq!(response.get_status().code, 201);
    assert_eq!(response.get_data(), &Value::Bool(true));
    let response = response.data(Value::Number(3));
    assert_eq!(response.get_status().code, 201);
    assert_eq!(response.get_data(), &Value::Number(3));
    let response = response.message("hello");
    assert_eq!(response.get_status().code, 201);
    assert_eq!(response.get_data(), &Value::message("hello"));
}

#[test]
fn response_as_guard_error_copies_status_and_data() {
    let nested = Value::Object(vec![
        ("items".to_string(), Value::Array(vec![Value::Number(1), Value::Null])),
        ("name".to_string(), Value::String("x".to_string())),
    ]);
    let response = APIResponse::new(Status::new(400), nested.clone());
    let error: RequestGuardError = response.as_guard_error();
    assert_eq!(error, (Status { code: 400 }, nested));
}

#[test]
fn cache_keeps_the_first_response() {
    let mut cache = LocalCache::new();
    assert!(cache.response().is_none());
    let first = unauthorized("first").as_cache_guard_error(&mut cache);
    assert_eq!(first, (Status { code: 401 }, Value::message("first")));
    let second = not_found("second").as_cache_guard_error(&mut cache);
    assert_eq!(second, (Status { code: 404 }, Value::message("second")));
    let kept = cache.response().unwrap();
    assert_eq!(kept.get_status().code, 401);
    assert_eq!(kept.get_data(), &Value::message("first"));
}

#[test]
fn response_from_status() {
    for code in [200u16, 201, 202, 204] {
        let response = APIResponse::from_status(Status::new(code));
        assert_eq!(response.get_status().code, code);
        assert_eq!(response.get_data(), &Value::Null);
    }
    let response = APIResponse::from_status(Status::new(502));
    assert_eq!(response.get_status().code, 502);
    assert_eq!(response.get_data(), &Value::message("502 Bad Gateway"));
    assert_eq!(
        APIResponse::from_status(Status::new(404)).get_data(),
        &Value::message("404 Not Found")
    );
}

#[test]
fn status_is_written_with_its_reason() {
    assert_eq!(Status::new(400).to_string(), "400 Bad Request");
    assert_eq!(Status::new(422).to_string(), "422 Unprocessable Entity");
    assert_eq!(Status::new(500).to_string(), "500 Internal Server Error");
}

#[test]
fn named_responses_have_their_status() {
    let all = vec![
        (internal_server_error("m"), 500),
        (bad_request("m"), 400),
        (unauthorized("m"), 401),
        (not_found("m"), 404),
        (forbidden("m"), 403),
        (unprocessable_entity("m"), 422),
        (ok("m"), 200),
        (created("m"), 201),
        (accepted("m"), 202),
        (bad_gateway("m"), 502),
        (service_unavailable("m"), 503),
    ];
    for (response, code) in all {
        assert_eq!(response.get_status().code, code);
        assert_eq!(response.get_data(), &Value::message("m"));
    }
}

#[test]
fn result_and_guard_helpers_fail_with_the_response() {
    let result = result_not_found("gone").unwrap_err();
    assert_eq!(result.get_status().code, 404);
    let mut cache = LocalCache::new();
    let outcome: Outcome<u8, RequestGuardError, ()> = guard_unauthorized(&mut cache, "no");
    match outcome {
        Outcome::Failure(error) => assert_eq!(error, (Status { code: 401 }, Value::message("no"))),
        _ => panic!("the guard must fail"),
    }
    assert_eq!(cache.response().unwrap().get_status().code, 401);
}

#[test]
fn default_handler_answers_with_the_bare_status() {
    let cache = LocalCache::new();
    let response = default_handler(Status::new(404), &cache);
    assert_eq!(response.get_status().code, 404);
    assert_eq!(response.get_data(), &Value::message("404 Not Found"));
}

#[test]
fn default_handler_answers_with_the_remembered_response() {
    let mut cache = LocalCache::new();
    cache.remember_response(unauthorized("Invalid session token."));
    let response = default_handler(Status::new(500), &cache);
    assert_eq!(response.get_status().code, 401);
    assert_eq!(response.get_data(), &Value::message("Invalid session token."));
}

#[test]
fn default_handler_answers_validation_errors_with_400() {
    let mut cache = LocalCache::new();
    cache.remember_response(unauthorized("x"));
    cache.remember_errors(Value::Array(vec![Value::String("color".to_string())]));
    let response = default_handler(Status::new(422), &cache);
    assert_eq!(response.get_status().code, 400);
    assert_eq!(
        response.get_data(),
        &Value::Object(vec![
            ("message".to_string(), Value::String("400 Bad Request".to_string())),
            ("errors".to_string(), Value::Array(vec![Value::String("color".to_string())])),
        ])
    );
}

#[test]
fn value_clone_is_deep() {
    let value = Value::Array(vec![
        Value::Object(vec![("a".to_string(), Value::Array(vec![Value::Number(-1)]))]),
        Value::String("s".to_string()),
        Value::Bool(false),
        Value::Null,
    ]);
    assert_eq!(value.clone(), value);
    assert_eq!(Value::text("x"), Value::String("x".to_string()));
}

#[test]
fn platform_is_read_in_any_case() {
    assert_eq!(Platform::from_str("web"), Ok(Platform::Web));
    assert_eq!(Platform::from_str("WEB"), Ok(Platform::Web));
    assert_eq!(Platform::from_str("Desktop"), Ok(Platform::Desktop));
    assert_eq!(Platform::from_str("mObIlE"), Ok(Platform::Mobile));
    assert_eq!(Platform::from_str("toaster"), Ok(Platform::Unknown));
    assert_eq!(Platform::from_str(""), Ok(Platform::Unknown));
    assert_eq!(Platform::from_lowercase("WEB"), Platform::Unknown);
}

#[test]
fn platform_name_round_trip() {
    for platform in [Platform::Web, Platform::Desktop, Platform::Mobile, Platform::Unknown] {
        assert_eq!(Platform::from_str(&platform.to_string()), Ok(platform));
    }
    assert_eq!(Platform::Unknown.to_string(), "unknown");
}

#[test]
fn client_info_takes_the_first_address() {
    let a = IpAddr::V4([10, 0, 0, 1]);
    let b = IpAddr::V6([0; 16]);
    let agents = vec!["Mozilla".to_string(), "curl".to_string()];
    let info = ClientInfo::from_request(Some("Desktop"), Some(a), Some(b), None, &agents).unwrap();
    assert_eq!(info.ip, IpNetwork { addr: a, prefix: 32 });
    assert_eq!(info.platform, Platform::Desktop);
    assert_eq!(info.user_agent, "Mozilla, curl");
    let info = ClientInfo::from_request(None, None, Some(b), Some(a), &Vec::new()).unwrap();
    assert_eq!(info.ip, IpNetwork { addr: b, prefix: 128 });
    assert_eq!(info.platform, Platform::Unknown);
    assert_eq!(info.user_agent, "");
    let info = ClientInfo::from_request(None, None, None, Some(a), &Vec::new()).unwrap();
    assert_eq!(info.ip.addr, a);
}

#[test]
fn client_info_needs_an_address() {
    let refused = ClientInfo::from_request(Some("web"), None, None, None, &Vec::new()).unwrap_err();
    assert_eq!(refused.get_status().code, 400);
    assert_eq!(refused.get_data(), &Value::message("Could not identify ip of client."));
}

#[test]
fn color_must_be_six_hex_digits() {
    assert!(validate_color("#ffaa00").is_ok());
    assert!(validate_color("#FFAA00").is_ok());
    assert!(validate_color("#09afAF").is_ok());
    for bad in ["ffaa00", "#ffaa0", "#ffaa000", "#ggaa00", "", "#ffaa00 ", " #ffaa00", "#ffaa00\n"] {
        let error = validate_color(bad).unwrap_err();
        assert_eq!(error.code, "Color must follow the 6 digit hex format (#ffffff).");
        assert_eq!(error.message, None);
    }
}

#[test]
fn color_verdict_takes_only_a_match() {
    assert!(color_verdict(Some(true)).is_ok());
    assert!(color_verdict(Some(false)).is_err());
    assert!(color_verdict(None).is_err());
}

#[test]
fn patch_color_is_checked_only_when_given() {
    assert!(validate_patch_color(&Patch::Missing).is_ok());
    assert!(validate_patch_color(&Patch::Null).is_ok());
    assert!(validate_patch_color(&Patch::Value("#ffaa00".to_string())).is_ok());
    assert!(validate_patch_color(&Patch::Value("red".to_string())).is_err());
}

#[test]
fn email_is_validated() {
    assert!(validate_email("alice@x.com").is_ok());
    let error = validate_email("alice").unwrap_err();
    assert_eq!(error.code, "email");
    assert_eq!(error.message, Some("Invalid email address.".to_string()));
    assert!(validate_email("").is_err());
    assert!(validate_email("a b@x.com").is_err());
    assert!(email_verdict(true).is_ok());
    assert!(email_verdict(false).is_err());
}

#[test]
fn length_counts_characters() {
    assert!(validate_min_length("pw12", 4, "short").is_ok());
    assert!(validate_min_length("\u{e9}\u{e9}\u{e9}\u{e9}", 4, "short").is_ok());
    let error = validate_min_length("pw1", 4, "short").unwrap_err();
    assert_eq!(error.code, "length");
    assert_eq!(error.message, Some("short".to_string()));
    assert!(validate_min_length("", 0, "short").is_ok());
}

#[test]
fn registration_is_validated_field_by_field() {
    let good = EmailUserRegistration {
        email: "alice@x.com".to_string(),
        password: "pw1234".to_string(),
        username: "alice".to_string(),
    };
    assert!(good.validate().is_ok());
    let bad = EmailUserRegistration {
        email: "alice".to_string(),
        password: "pw".to_string(),
        username: "".to_string(),
    };
    let errors = bad.validate().unwrap_err();
    let fields: Vec<&str> = errors.errors.iter().map(|(field, _)| field.as_str()).collect();
    assert_eq!(fields, vec!["email", "password", "username"]);
    assert_eq!(
        errors.errors[1].1.message,
        Some("Password must have 4 or more characters.".to_string())
    );
    assert_eq!(errors.errors[2].1.message, Some("Username must not be empty.".to_string()));
    let half = UserEmailRegistration { email: "alice@x.com".to_string(), password: "pw".to_string() };
    assert_eq!(half.validate().unwrap_err().errors.len(), 1);
    let login = EmailUserLogin { email: "alice@x.com".to_string(), password: "".to_string() };
    assert!(login.validate().is_ok());
}

#[test]
fn validation_errors_collect_in_order() {
    let mut errors = ValidationErrors::new();
    assert!(errors.is_empty());
    errors.note("a", Ok(()));
    errors.note("b", Err(ValidationError::new("bad")));
    errors.note("c", Err(ValidationError::with_message("worse", "really")));
    assert_eq!(errors.errors.len(), 2);
    assert_eq!(errors.errors[0].0, "b");
    assert_eq!(errors.errors[1].1.code, "worse");
    assert!(errors.into_result().is_err());
    assert!(ValidationErrors::new().into_result().is_ok());
}

#[test]
fn config_urls() {
    let config = Config::new("localhost".to_string(), 8000, 8080);
    assert_eq!(config.backend_url(), "localhost:8000");
    assert_eq!(config.web_url(), "localhost:8080");
    let config = Config::new("h".to_string(), 0, 65535);
    assert_eq!(config.backend_url(), "h:0");
    assert_eq!(config.web_url(), "h:65535");
}

#[test]
fn app_config_defaults() {
    let config = AppConfig::default();
    assert_eq!(config.base_url, "localhost");
    assert_eq!((config.backend_port, config.web_port), (8000, 8080));
    assert_eq!(config.auth_token_timeout_days, 7 * 24 * 3600 * 1_000_000);
    assert_eq!(config.session_duration, 10_000_000);
    assert_eq!(config.cors_allow_origin, "*");
    assert_eq!(config.environment_name, "unconfigured");
    assert_eq!(config.database_pool_size, 10);
    assert_eq!(config.password_salt, "default");
    assert_eq!(config.log_level, LogLevel::Normal);
    assert_eq!(config.backend_url(), "localhost:8000");
    assert_eq!(config.web_url(), "localhost:8080");
}

#[test]
fn app_config_from_env() {
    let config = AppConfig::from_env(&env());
    assert_eq!(config.backend_url(), "example.org:9000");
    assert_eq!(config.database_url, "postgres://db");
    assert_eq!(config.password_salt, "pepper-and-salt");
    assert_eq!(config.database_pool_size, 10);
}

#[test]
fn get_config_knows_three_environments() {
    assert_eq!(get_config("test", &env()).unwrap().log_level, LogLevel::Off);
    assert_eq!(get_config("production", &env()).unwrap().log_level, LogLevel::Normal);
    assert_eq!(get_config("development", &env()).unwrap().web_port, 9001);
    match get_config("staging", &env()) {
        Err(ConfigError::InvalidEnv(message)) => {
            assert_eq!(message, "No valid config chosen: staging")
        }
        _ => panic!("an unknown environment must be refused"),
    }
    assert_eq!(
        get_config("", &env()).unwrap_err().to_string(),
        "No valid config chosen: "
    );
}

#[test]
fn service_has_every_route() {
    let rocket = create_rocket(&AppConfig::default()).unwrap();
    let routes: Vec<(Method, String, String, String)> = (0..rocket.route_count())
        .map(|i| {
            let r = rocket.route_at(i);
            (r.method, r.base.clone(), r.path.clone(), r.name.clone())
        })
        .collect();
    let expected: Vec<(Method, &str, &str, &str)> = vec![
        (Method::Get, "/", "/auth/discord", "discord_callback"),
        (Method::Get, "/", "/login/discord", "discord_login"),
        (Method::Post, "/", "/login/email", "email_login"),
        (Method::Post, "/", "/register/email", "email_registeration"),
        (Method::Get, "/", "/", "index"),
        (Method::Get, "/", "/healthcheck", "healthcheck"),
        (Method::Get, "/lists", "/?<limit>&<page>", "get_all"),
        (Method::Get, "/lists", "/<id>", "get_single"),
        (Method::Post, "/lists", "/", "post"),
        (Method::Patch, "/lists", "/<id>", "patch"),
        (Method::Delete, "/lists", "/<id>", "delete"),
        (Method::Get, "/labels", "/?<limit>&<page>", "get_all"),
        (Method::Get, "/labels", "/<id>", "get_single"),
        (Method::Post, "/labels", "/", "post"),
        (Method::Patch, "/labels", "/<id>", "patch"),
        (Method::Delete, "/labels", "/<id>", "delete"),
        (Method::Get, "/tasks", "/<id>", "get_single"),
        (Method::Get, "/tasks", "/?<limit>&<page>", "get_all"),
        (Method::Post, "/tasks", "/", "post"),
        (Method::Patch, "/tasks", "/<id>", "patch"),
        (Method::Delete, "/tasks", "/<id>", "delete"),
        (Method::Post, "/tasks", "/<id>/labels", "post_label"),
        (Method::Delete, "/tasks", "/<id>/labels/<label_id>", "delete_label"),
        (Method::Get, "/sessions", "/<id>", "get_single"),
        (Method::Get, "/sessions", "/?<limit>&<page>", "get_all"),
        (Method::Delete, "/sessions", "/<id>", "delete"),
        (Method::Get, "/users", "/me", "get_me"),
    ];
    assert_eq!(routes.len(), expected.len());
    for (got, want) in routes.iter().zip(expected.iter()) {
        assert_eq!((got.0, got.1.as_str(), got.2.as_str(), got.3.as_str()), *want);
    }
    assert_eq!(rocket.fairing_names(), &vec!["discord".to_string(), "backend".to_string()]);
    assert_eq!(rocket.catcher_bases(), &vec!["/".to_string()]);
    assert_eq!(rocket.managed_names(), &vec!["config".to_string(), "http_client".to_string()]);
}

#[test]
fn service_for_a_named_environment() {
    assert!(create_rocket_default("test", &env()).is_ok());
    assert_eq!(
        create_rocket_default("nowhere", &env()).unwrap_err(),
        "No valid config chosen: nowhere"
    );
    assert!(RocketBuilderConfig::default().db_conn_options.is_none());
}

#[test]
fn mounting_config_and_auth() {
    let rocket = Rocket::build().mount_config(Config::new("h".to_string(), 1, 2)).mount_auth();
    assert_eq!(rocket.managed_names(), &vec!["config".to_string()]);
    assert_eq!(rocket.fairing_names(), &vec!["discord".to_string()]);
    assert_eq!(rocket.route_count(), 2);
    assert_eq!(rocket.route_at(0).path, "/auth/discord");
}

#[test]
fn mounting_one_resource() {
    let rocket = toast_task::lists::mount_rocket(Rocket::build());
    assert_eq!(rocket.route_count(), 5);
    assert_eq!(rocket.route_at(3).method, Method::Patch);
    assert_eq!(rocket.route_at(3).base, "/lists");
    let rocket = toast_task::sessions::mount_rocket(rocket);
    assert_eq!(rocket.route_count(), 8);
    let rocket = toast_task::database::mount_rocket(rocket);
    let rocket = toast_task::handlers::mount_rocket(rocket);
    assert_eq!(rocket.fairing_names(), &vec!["backend".to_string()]);
    assert_eq!(rocket.catcher_bases(), &vec!["/".to_string()]);
}

#[test]
fn index() {
    assert_eq!(toast_task::general::index(), "Toast API \u{1F35E}");
}

#[test]
fn health_and_whoami() {
    assert_eq!(healthcheck().code, 200);
    let user = Auth(UserModel { id: 1, username: "alice".to_string(), created_at: 0, updated_at: 0 });
    let response = whoami(&user);
    assert_eq!(response.get_status().code, 200);
    assert_eq!(response.get_data(), &Value::String("alice".to_string()));
}

#[test]
fn results_turn_around() {
    let ok: Result<u8, &str> = Ok(1);
    let err: Result<u8, &str> = Err("e");
    assert_eq!(ok.ok_as_err(), Err(1));
    assert_eq!(err.ok_as_err(), Ok("e"));
}

#[test]
fn results_become_outcomes() {
    let ok: Result<u8, &str> = Ok(1);
    let err: Result<u8, &str> = Err("e");
    let outcome: Outcome<u8, &str, ()> = ok.as_outcome();
    assert!(matches!(outcome, Outcome::Success(1)));
    let outcome: Outcome<u8, &str, ()> = err.as_outcome();
    assert!(matches!(outcome, Outcome::Failure("e")));
}

#[test]
fn time_is_written_in_iso_8601() {
    assert_eq!(
        primitive_date_iso_serialize(0).unwrap(),
        "1970-01-01T00:00:00.000000000Z"
    );
    assert_eq!(
        primitive_date_iso_serialize(1_546_300_800_000_000).unwrap(),
        "2019-01-01T00:00:00.000000000Z"
    );
    assert!(primitive_date_iso_serialize(i64::MAX).is_ok() || primitive_date_iso_serialize(i64::MAX).is_err());
    assert_eq!(
        serialized_time(None).unwrap_err().message,
        "Failed to serialize date time into iso."
    );
}

#[test]
fn time_is_read_from_iso_8601() {
    assert_eq!(primitive_date_iso_deserialize("2019-01-01T00:00:00").ok(), Some(1_546_300_800_000_000));
    assert_eq!(
        primitive_date_iso_deserialize("yesterday").unwrap_err().message,
        "Failed to parse into date time."
    );
    assert_eq!(deserialized_time(Some(1_999)).ok(), Some(1));
    assert_eq!(deserialized_time(Some(-1)).ok(), Some(-1));
    assert_eq!(deserialized_time(Some(-1_000)).ok(), Some(-1));
    assert_eq!(deserialized_time(Some(-1_001)).ok(), Some(-2));
    assert!(deserialized_time(Some(i128::MAX)).is_err());
    assert!(deserialized_time(None).is_err());
}

#[test]
fn text_is_written_as_a_json_string() {
    assert_eq!(string_serialize("abc"), Value::String("abc".to_string()));
}
