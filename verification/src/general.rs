//! The routes that every client may call: the greeting and the health check.

use vstd::prelude::*;
use crate::guard::{Auth, UserModel};
use crate::json::{Value, ValueView};
use crate::mounting::{route, Method, Rocket, RouteView};
use crate::responses::{APIResponse, APIResponseView, Status, OK};

verus! {

/// The greeting of the service.
pub const GREETING: &'static str = "Toast API \u{1F35E}";

/// Greets the client.
pub fn index() -> (greeting: &'static str)
    ensures
        greeting@ == GREETING@,
{
    GREETING
}

/// Says that the service is up: `200`.
pub fn healthcheck() -> (status: Status)
    ensures
        status.code == OK,
{
    Status::new(OK)
}

/// Tells the caller who it is: `200` with the user name.
pub fn whoami(current_user: &Auth<UserModel>) -> (response: APIResponse)
    ensures
        response@ == (APIResponseView {
            status: Status { code: OK },
            data: ValueView::String(current_user.0.username@),
        }),
{
    APIResponse::new(Status::new(OK), Value::text(current_user.0.username.as_str()))
}

/// The routes that every client may call.
pub open spec fn general_routes() -> Seq<RouteView> {
    seq![
        route(Method::Get, "/"@, "/"@, "index"@),
        route(Method::Get, "/"@, "/healthcheck"@, "healthcheck"@),
    ]
}

/// Keeps a client for outgoing requests and mounts the greeting and the health
/// check.
pub fn mount_rocket(rocket: Rocket) -> (mounted: Rocket)
    ensures
        mounted.routes() == rocket.routes() + general_routes(),
        mounted.managed() == rocket.managed().push("http_client"@),
        mounted.catchers() == rocket.catchers(),
        mounted.fairings() == rocket.fairings(),
{
    let mounted = rocket.manage("http_client");
    let mounted = mounted.mount(Method::Get, "/", "/", "index");
    let mounted = mounted.mount(Method::Get, "/", "/healthcheck", "healthcheck");
    assert(mounted.routes() =~= rocket.routes() + general_routes());
    mounted
}

} // verus!
