//! The default catcher: what a request is answered with when no handler
//! answered it.

use vstd::prelude::*;
use crate::json::{lemma_object_view, Value, ValueView};
use crate::mounting::Rocket;
use crate::validation::validation_body;
use crate::responses::{
    status_line, status_response, APIResponse, APIResponseView, LocalCache, Status,
    BAD_REQUEST,
};

verus! {

/// What the default catcher answers: the response that a guard remembered, or
/// the bare status where none did; but where the validation of the body left
/// errors, `400` with those errors.
pub open spec fn caught(status: Status, cache: &LocalCache) -> APIResponseView {
    match cache.errors_view() {
        Some(errors) => APIResponseView {
            status: Status { code: BAD_REQUEST },
            data: validation_body(errors),
        },
        None => match cache.response_view() {
            Some(response) => response,
            None => status_response(status),
        },
    }
}

/// Answers a request that no handler answered.
pub fn default_handler(status: Status, cache: &LocalCache) -> (response: APIResponse)
    ensures
        response@ == caught(status, cache),
{
    let response = match cache.response() {
        Some(remembered) => remembered,
        None => APIResponse::from_status(status),
    };
    match cache.errors() {
        Some(errors) => {
            let bad = Status::new(BAD_REQUEST);
            let mut members: Vec<(String, Value)> = Vec::new();
            members.push(("message".to_owned(), Value::String(bad.to_string())));
            members.push(("errors".to_owned(), errors));
            let body = Value::Object(members);
            proof {
                lemma_object_view(body);
                assert(members[0].1@ == ValueView::String(status_line(BAD_REQUEST)));
                assert(body@->Object_0 =~= validation_body(errors@)->Object_0);
            }
            response.status(bad).data(body)
        },
        None => response,
    }
}

/// Registers the default catcher for every path.
pub fn mount_rocket(rocket: Rocket) -> (mounted: Rocket)
    ensures
        mounted.catchers() == rocket.catchers().push("/"@),
        mounted.routes() == rocket.routes(),
        mounted.fairings() == rocket.fairings(),
        mounted.managed() == rocket.managed(),
{
    rocket.register("/")
}

} // verus!
