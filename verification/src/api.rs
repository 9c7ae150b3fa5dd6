//! All routes of the service.

use vstd::prelude::*;
use crate::auth::{discord_routes, email_routes};
use crate::general::general_routes;
use crate::mounting::{crud_routes, Rocket, RouteView};
use crate::sessions::session_routes;
use crate::tasks::task_routes;
use crate::users::user_routes;

verus! {

/// The routes of the service, in the order they are mounted: login and
/// registration, the general routes, lists, labels, tasks, sessions and users.
pub open spec fn api_routes() -> Seq<RouteView> {
    discord_routes() + email_routes() + general_routes() + crud_routes("/lists"@) + crud_routes(
        "/labels"@,
    ) + task_routes() + session_routes() + user_routes()
}

/// Mounts every route of the service.
pub fn mount_rocket(rocket: Rocket) -> (mounted: Rocket)
    ensures
        mounted.routes() == rocket.routes() + api_routes(),
        mounted.fairings() == rocket.fairings().push("discord"@),
        mounted.managed() == rocket.managed().push("http_client"@),
        mounted.catchers() == rocket.catchers(),
{
    let mounted = crate::auth::mount_rocket(rocket);
    let mounted = crate::general::mount_rocket(mounted);
    let mounted = crate::lists::mount_rocket(mounted);
    let mounted = crate::labels::mount_rocket(mounted);
    let mounted = crate::tasks::mount_rocket(mounted);
    let mounted = crate::sessions::mount_rocket(mounted);
    let mounted = crate::users::mount_rocket(mounted);
    assert(mounted.routes() =~= rocket.routes() + api_routes());
    mounted
}

} // verus!
