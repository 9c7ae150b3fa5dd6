//! The storage of the service.

use vstd::prelude::*;
use crate::mounting::Rocket;

verus! {

/// The name that the pool of storage connections is configured under.
pub const DATABASE: &'static str = "backend";

/// Attaches the pool of storage connections.
pub fn mount_rocket(rocket: Rocket) -> (mounted: Rocket)
    ensures
        mounted.fairings() == rocket.fairings().push(DATABASE@),
        mounted.routes() == rocket.routes(),
        mounted.catchers() == rocket.catchers(),
        mounted.managed() == rocket.managed(),
{
    rocket.attach(DATABASE)
}

} // verus!
