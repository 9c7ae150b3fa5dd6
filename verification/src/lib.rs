//! Data-access and request-handling core of a personal task and list manager.
//!
//! Users own a tree of lists, lists hold tasks, tasks carry labels, and clients
//! authenticate with bearer session tokens. Every resource is built from the same
//! parts: a tri-state patch value, a statement builder, an owner-scoped record
//! engine with an optional parent/child hierarchy, and a session guard.

pub mod patch;
pub mod text;
pub mod ids;
pub mod sql;
pub mod json;
pub mod responses;
pub mod arena;
pub mod client_info;
pub mod guard;
pub mod validation;
pub mod config;
pub mod mounting;
pub mod crud;
pub mod lists;
pub mod labels;
pub mod tree;
pub mod tasks;
pub mod auth;
pub mod wire;
pub mod utils;
pub mod sessions;
pub mod general;
pub mod handlers;
pub mod database;
pub mod users;
pub mod api;

use vstd::prelude::*;
use crate::config::{get_config, known_environment, AppConfig, Config, EnvVars};
use crate::mounting::{Rocket, RouteView};

verus! {

/// What a service is built with besides its configuration.
#[derive(Debug)]
pub struct RocketBuilderConfig {
    /// Where the storage is reached, where that is not taken from the
    /// configuration.
    pub db_conn_options: Option<String>,
}

impl RocketBuilderConfig {
    /// Nothing besides the configuration.
    pub fn default() -> (config: RocketBuilderConfig)
        ensures
            config.db_conn_options is None,
    {
        RocketBuilderConfig { db_conn_options: None }
    }
}

/// Whether a service is the whole service: every route, the login provider and
/// the storage attached, the configuration and a client for outgoing requests
/// kept, and the default catcher registered.
pub open spec fn complete(rocket: Rocket) -> bool {
    &&& rocket.routes() == crate::api::api_routes()
    &&& rocket.fairings() == seq!["discord"@, "backend"@]
    &&& rocket.managed() == seq!["config"@, "http_client"@]
    &&& rocket.catchers() == seq!["/"@]
}

/// Puts the service together for a configuration: the configuration is kept for
/// the handlers, then the routes are mounted, the storage is attached and the
/// default catcher is registered.
pub fn create_rocket(app_config: &AppConfig) -> (rocket: Result<Rocket, String>)
    ensures
        rocket is Ok,
        complete(rocket->Ok_0),
{
    let rocket = Rocket::build().manage("config");
    let rocket = crate::api::mount_rocket(rocket);
    let rocket = crate::database::mount_rocket(rocket);
    let rocket = crate::handlers::mount_rocket(rocket);
    proof {
        assert(rocket.routes() =~= crate::api::api_routes());
        assert(rocket.fairings() =~= seq!["discord"@, "backend"@]);
        assert(rocket.managed() =~= seq!["config"@, "http_client"@]);
        assert(rocket.catchers() =~= seq!["/"@]);
    }
    Ok(rocket)
}

/// Puts the service together for a named environment. A name that is not known
/// gives the message `No valid config chosen: <name>`.
pub fn create_rocket_default(config_name: &str, env: &EnvVars) -> (rocket: Result<Rocket, String>)
    ensures
        rocket is Ok <==> known_environment(config_name@),
        rocket is Ok ==> complete(rocket->Ok_0),
        rocket is Err ==> rocket->Err_0@ == "No valid config chosen: "@ + config_name@,
{
    match get_config(config_name, env) {
        Ok(app_config) => create_rocket(&app_config),
        Err(error) => Err(error.to_string()),
    }
}

/// A service that the configuration can be mounted on.
pub trait MountConfig: Sized {
    /// The names of the values that the service keeps.
    spec fn kept(&self) -> Seq<Seq<char>>;

    /// The routes of the service.
    spec fn mounted_routes(&self) -> Seq<RouteView>;

    /// Keeps the configuration for the handlers.
    fn mount_config(self, config: Config) -> (mounted: Self)
        ensures
            mounted.kept() == self.kept().push("config"@),
            mounted.mounted_routes() == self.mounted_routes(),
    ;
}

impl MountConfig for Rocket {
    open spec fn kept(&self) -> Seq<Seq<char>> {
        self.managed()
    }

    open spec fn mounted_routes(&self) -> Seq<RouteView> {
        self.routes()
    }

    fn mount_config(self, config: Config) -> (mounted: Self) {
        self.manage("config")
    }
}

/// A service that the login with an outside identity can be mounted on.
pub trait MountAuth: Sized {
    /// The names of what is attached to the service.
    spec fn attached(&self) -> Seq<Seq<char>>;

    /// The routes of the service.
    spec fn auth_routes(&self) -> Seq<RouteView>;

    /// Attaches the login provider and mounts its routes.
    fn mount_auth(self) -> (mounted: Self)
        ensures
            mounted.attached() == self.attached().push("discord"@),
            mounted.auth_routes() == self.auth_routes() + crate::auth::discord_routes(),
    ;
}

impl MountAuth for Rocket {
    open spec fn attached(&self) -> Seq<Seq<char>> {
        self.fairings()
    }

    open spec fn auth_routes(&self) -> Seq<RouteView> {
        self.routes()
    }

    fn mount_auth(self) -> (mounted: Self) {
        crate::auth::mount_auth(self)
    }
}

} // verus!
