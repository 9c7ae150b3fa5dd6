//! Configuration of the service.

use vstd::prelude::*;
use vstd::string::StringExecFns;
use crate::json::{lemma_object_view, Value, ValueView};
use crate::text::{decimal, push_char, push_decimal, same_text};

verus! {

/// How much the service logs.
#[derive(Debug, Clone, Copy, PartialEq, Eq, Structural)]
pub enum LogLevel {
    Off,
    Critical,
    Normal,
    Debug,
}

/// An address and a port, written `address:port`.
pub open spec fn url_text(base_url: Seq<char>, port: u16) -> Seq<char> {
    base_url + seq![':'] + decimal(port as nat)
}

fn url(base_url: &str, port: u16) -> (out: String)
    ensures
        out@ == url_text(base_url@, port),
{
    let mut out = String::from_str(base_url);
    push_char(&mut out, ':');
    push_decimal(&mut out, port as u64);
    assert(out@ =~= url_text(base_url@, port));
    out
}

/// Where the service and its web client are reached.
#[derive(Debug)]
pub struct Config {
    base_url: String,
    backend_port: u16,
    web_port: u16,
}

impl Config {
    /// The address that both are reached under.
    pub closed spec fn spec_base_url(&self) -> Seq<char> {
        self.base_url@
    }

    /// The port of the service.
    pub closed spec fn spec_backend_port(&self) -> u16 {
        self.backend_port
    }

    /// The port of the web client.
    pub closed spec fn spec_web_port(&self) -> u16 {
        self.web_port
    }

    /// A configuration from its three values.
    pub fn new(base_url: String, backend_port: u16, web_port: u16) -> (config: Config)
        ensures
            config.spec_base_url() == base_url@,
            config.spec_backend_port() == backend_port,
            config.spec_web_port() == web_port,
    {
        Config { base_url, backend_port, web_port }
    }

    /// Where the service is reached: `address:port`.
    pub fn backend_url(&self) -> (out: String)
        ensures
            out@ == url_text(self.spec_base_url(), self.spec_backend_port()),
    {
        url(self.base_url.as_str(), self.backend_port)
    }

    /// Where the web client is reached: `address:port`.
    pub fn web_url(&self) -> (out: String)
        ensures
            out@ == url_text(self.spec_base_url(), self.spec_web_port()),
    {
        url(self.base_url.as_str(), self.web_port)
    }
}

/// One week, in microseconds.
pub const WEEK: i64 = 604_800_000_000;

/// Ten seconds, in microseconds.
pub const TEN_SECONDS: i64 = 10_000_000;

/// The configuration of the whole service. Durations are counted in
/// microseconds.
#[derive(Debug)]
pub struct AppConfig {
    pub base_url: String,
    pub backend_port: u16,
    pub web_port: u16,
    pub auth_token_timeout_days: i64,
    pub cors_allow_origin: String,
    pub cors_allow_methods: String,
    pub cors_allow_headers: String,
    pub environment_name: String,
    pub database_url: String,
    pub database_pool_size: u32,
    pub password_salt: String,
    pub session_duration: i64,
    pub log_level: LogLevel,
}

/// The values that the service reads from its environment.
#[derive(Debug)]
pub struct EnvVars {
    pub backend_port: u16,
    pub web_port: u16,
    pub base_url: String,
    pub database_url: String,
    pub password_salt: String,
}

impl AppConfig {
    /// Whether every value that the environment does not set has its default.
    pub open spec fn has_defaults(&self) -> bool {
        &&& self.auth_token_timeout_days == WEEK
        &&& self.cors_allow_origin@ == "*"@
        &&& self.cors_allow_methods@ == "*"@
        &&& self.cors_allow_headers@ == "*"@
        &&& self.environment_name@ == "unconfigured"@
        &&& self.database_pool_size == 10
        &&& self.session_duration == TEN_SECONDS
    }

    /// Whether the configuration holds the values of the environment.
    pub open spec fn holds(&self, env: &EnvVars) -> bool {
        &&& self.backend_port == env.backend_port
        &&& self.web_port == env.web_port
        &&& self.base_url@ == env.base_url@
        &&& self.database_url@ == env.database_url@
        &&& self.password_salt@ == env.password_salt@
    }

    /// The configuration of a service that nothing was set for.
    pub fn default() -> (config: AppConfig)
        ensures
            config.has_defaults(),
            config.base_url@ == "localhost"@,
            config.backend_port == 8000,
            config.web_port == 8080,
            config.database_url@ == ""@,
            config.password_salt@ == "default"@,
            config.log_level == LogLevel::Normal,
    {
        AppConfig {
            base_url: "localhost".to_owned(),
            backend_port: 8000,
            web_port: 8080,
            auth_token_timeout_days: WEEK,
            cors_allow_origin: "*".to_owned(),
            cors_allow_methods: "*".to_owned(),
            cors_allow_headers: "*".to_owned(),
            environment_name: "unconfigured".to_owned(),
            database_url: "".to_owned(),
            database_pool_size: 10,
            password_salt: "default".to_owned(),
            session_duration: TEN_SECONDS,
            log_level: LogLevel::Normal,
        }
    }

    /// The configuration for the values of the environment; what the
    /// environment does not set has its default.
    pub fn from_env(env: &EnvVars) -> (config: AppConfig)
        ensures
            config.has_defaults(),
            config.holds(env),
            config.log_level == LogLevel::Normal,
    {
        let mut config = AppConfig::default();
        config.backend_port = env.backend_port;
        config.web_port = env.web_port;
        config.base_url = env.base_url.clone();
        config.database_url = env.database_url.clone();
        config.password_salt = env.password_salt.clone();
        config
    }

    /// Where the service is reached: `address:port`.
    pub fn backend_url(&self) -> (out: String)
        ensures
            out@ == url_text(self.base_url@, self.backend_port),
    {
        url(self.base_url.as_str(), self.backend_port)
    }

    /// Where the web client is reached: `address:port`.
    pub fn web_url(&self) -> (out: String)
        ensures
            out@ == url_text(self.base_url@, self.web_port),
    {
        url(self.base_url.as_str(), self.web_port)
    }
}

/// Why no configuration could be had.
#[derive(Debug)]
pub enum ConfigError {
    /// The name of the environment is not known. Holds the message.
    InvalidEnv(String),
}

impl ConfigError {
    /// The message of the error.
    pub fn to_string(&self) -> (text: String)
        ensures
            text@ == self->InvalidEnv_0@,
    {
        match self {
            ConfigError::InvalidEnv(message) => message.clone(),
        }
    }
}

/// Whether a name is one of the three known environments.
pub open spec fn known_environment(name: Seq<char>) -> bool {
    name == "production"@ || name == "development"@ || name == "test"@
}

/// The log level of an environment: the test environment is silent.
pub open spec fn environment_log_level(name: Seq<char>) -> LogLevel {
    if name == "test"@ {
        LogLevel::Off
    } else {
        LogLevel::Normal
    }
}

/// The configuration for a named environment, `production`, `development` or
/// `test`, from the values of the environment. Any other name is an error that
/// says `No valid config chosen: <name>`.
pub fn get_config(config_env: &str, env: &EnvVars) -> (config: Result<AppConfig, ConfigError>)
    ensures
        config is Ok <==> known_environment(config_env@),
        config is Ok ==> {
            &&& config->Ok_0.has_defaults()
            &&& config->Ok_0.holds(env)
            &&& config->Ok_0.log_level == environment_log_level(config_env@)
        },
        config is Err ==> config->Err_0->InvalidEnv_0@ == "No valid config chosen: "@
            + config_env@,
{
    proof {
        reveal_strlit("production");
        reveal_strlit("development");
        reveal_strlit("test");
        assert("production"@.len() == 10);
        assert("development"@.len() == 11);
        assert("test"@.len() == 4);
    }
    if same_text(config_env, "test") {
        Ok(config(env))
    } else if same_text(config_env, "production") || same_text(config_env, "development") {
        Ok(AppConfig::from_env(env))
    } else {
        let mut message = String::from_str("No valid config chosen: ");
        message.append(config_env);
        Err(ConfigError::InvalidEnv(message))
    }
}

} // verus!

verus! {

impl Default for AppConfig {
    /// The configuration of a service that nothing was set for.
    fn default() -> (config: AppConfig)
        ensures
            config.has_defaults(),
            config.base_url@ == "localhost"@,
            config.backend_port == 8000,
            config.web_port == 8080,
            config.database_url@ == ""@,
            config.password_salt@ == "default"@,
            config.log_level == LogLevel::Normal,
    {
        AppConfig::default()
    }
}

} // verus!

verus! {

/// The configuration of the test environment: the values of the environment,
/// and no logging.
pub fn config(env: &EnvVars) -> (config: AppConfig)
    ensures
        config.has_defaults(),
        config.holds(env),
        config.log_level == LogLevel::Off,
{
    let mut config = AppConfig::from_env(env);
    config.log_level = LogLevel::Off;
    config
}

impl LogLevel {
    /// The name of the level, in lower case.
    pub open spec fn name(self) -> Seq<char> {
        match self {
            LogLevel::Off => "off"@,
            LogLevel::Critical => "critical"@,
            LogLevel::Normal => "normal"@,
            LogLevel::Debug => "debug"@,
        }
    }

    /// The name of the level, in lower case.
    pub fn to_string(&self) -> (text: String)
        ensures
            text@ == self.name(),
    {
        match self {
            LogLevel::Off => "off".to_owned(),
            LogLevel::Critical => "critical".to_owned(),
            LogLevel::Normal => "normal".to_owned(),
            LogLevel::Debug => "debug".to_owned(),
        }
    }
}

/// The settings that the web framework is started with: the port, the log
/// level, and the storage named `backend` with its address and the size of its
/// pool.
pub open spec fn figment(config: &AppConfig) -> ValueView {
    ValueView::Object(
        seq![
            ("port"@, ValueView::Number(config.backend_port as int)),
            ("log_level"@, ValueView::String(config.log_level.name())),
            (
                "databases"@,
                ValueView::Object(
                    seq![
                        (
                            "backend"@,
                            ValueView::Object(
                                seq![
                                    ("url"@, ValueView::String(config.database_url@)),
                                    (
                                        "pool_size"@,
                                        ValueView::Number(config.database_pool_size as int),
                                    ),
                                ],
                            ),
                        ),
                    ],
                ),
            ),
        ],
    )
}

impl AppConfig {
    /// The settings that the web framework is started with.
    pub fn to_rocket_figment(&self) -> (settings: Value)
        ensures
            settings@ == figment(self),
    {
        let mut db: Vec<(String, Value)> = Vec::new();
        db.push(("url".to_owned(), Value::text(self.database_url.as_str())));
        db.push(("pool_size".to_owned(), Value::Number(self.database_pool_size as i64)));
        let db = Value::Object(db);
        let mut databases: Vec<(String, Value)> = Vec::new();
        databases.push(("backend".to_owned(), db));
        let databases = Value::Object(databases);
        let mut settings: Vec<(String, Value)> = Vec::new();
        settings.push(("port".to_owned(), Value::Number(self.backend_port as i64)));
        settings.push(("log_level".to_owned(), Value::String(self.log_level.to_string())));
        settings.push(("databases".to_owned(), databases));
        let settings = Value::Object(settings);
        proof {
            lemma_object_view(db);
            lemma_object_view(databases);
            lemma_object_view(settings);
            assert(db@->Object_0 =~= seq![
                ("url"@, ValueView::String(self.database_url@)),
                ("pool_size"@, ValueView::Number(self.database_pool_size as int)),
            ]);
            assert(databases@->Object_0 =~= seq![("backend"@, db@)]);
            assert(settings@->Object_0 =~= figment(self)->Object_0);
        }
        settings
    }
}

} // verus!
