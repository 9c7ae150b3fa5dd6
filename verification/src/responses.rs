//! The uniform response envelope: a status and JSON data.

use vstd::prelude::*;
use crate::json::{message_body, Value, ValueView};

verus! {

/// The code of `500 Internal Server Error`.
pub const INTERNAL_SERVER_ERROR: u16 = 500;

/// The code of `400 Bad Request`.
pub const BAD_REQUEST: u16 = 400;

/// The code of `401 Unauthorized`.
pub const UNAUTHORIZED: u16 = 401;

/// The code of `404 Not Found`.
pub const NOT_FOUND: u16 = 404;

/// The code of `403 Forbidden`.
pub const FORBIDDEN: u16 = 403;

/// The code of `422 Unprocessable Entity`.
pub const UNPROCESSABLE_ENTITY: u16 = 422;

/// The code of `200 OK`.
pub const OK: u16 = 200;

/// The code of `201 Created`.
pub const CREATED: u16 = 201;

/// The code of `202 Accepted`.
pub const ACCEPTED: u16 = 202;

/// The code of `204 No Content`.
pub const NO_CONTENT: u16 = 204;

/// The code of `502 Bad Gateway`.
pub const BAD_GATEWAY: u16 = 502;

/// The code of `503 Service Unavailable`.
pub const SERVICE_UNAVAILABLE: u16 = 503;

/// An HTTP status, known by its code.
#[derive(Debug, Clone, Copy, PartialEq, Eq, Structural)]
pub struct Status {
    pub code: u16,
}

/// The status line of a code: the code, a space and its reason phrase.
pub uninterp spec fn status_line(code: u16) -> Seq<char>;

/// Writes a status as its code and reason phrase.
///
/// Trusted: stands for the `Display` of `rocket::http::Status`, which prints the
/// code, a space, and the canonical reason phrase of the code, or a phrase for
/// the class of the code where it has none. The phrase depends on the code
/// alone, so the contract names the result.
#[verifier::external_body]
fn status_text(code: u16) -> (text: String)
    ensures
        text@ == status_line(code),
{
    ::rocket::http::Status { code }.to_string()
}

impl Status {
    /// The status with the given code.
    pub fn new(code: u16) -> (status: Status)
        ensures
            status.code == code,
    {
        Status { code }
    }

    /// Whether a response with this status carries no message of its own: `200`,
    /// `201`, `202` and `204`.
    pub open spec fn is_plain_success(self) -> bool {
        self.code == OK || self.code == CREATED || self.code == ACCEPTED || self.code
            == NO_CONTENT
    }

    /// The code and the reason phrase, as in `404 Not Found`.
    pub fn to_string(&self) -> (text: String)
        ensures
            text@ == status_line(self.code),
    {
        status_text(self.code)
    }
}

/// What a request guard hands back when it fails: the status and the data.
pub type RequestGuardError = (Status, Value);

/// What a handler returns: a response either way.
pub type APIResult = Result<APIResponse, APIResponse>;

/// Response to an API call: a status code and data in JSON.
#[derive(Debug)]
pub struct APIResponse {
    data: Value,
    status: Status,
}

/// The mathematical content of an [`APIResponse`].
pub struct APIResponseView {
    pub status: Status,
    pub data: ValueView,
}

impl View for APIResponse {
    type V = APIResponseView;

    closed spec fn view(&self) -> APIResponseView {
        APIResponseView { status: self.status, data: self.data@ }
    }
}

impl Clone for APIResponse {
    /// A copy with the same status and data.
    fn clone(&self) -> (copy: APIResponse)
        ensures
            copy@ == self@,
    {
        APIResponse { data: self.data.clone(), status: self.status }
    }
}

/// The content of a response with a message: `{"message": <message>}`.
pub open spec fn message_response(status: Status, message: Seq<char>) -> APIResponseView {
    APIResponseView { status, data: message_body(message) }
}

/// The content of the response that stands for a bare status: no data for the
/// plain successes, the status line as message for every other code.
pub open spec fn status_response(status: Status) -> APIResponseView {
    if status.is_plain_success() {
        APIResponseView { status, data: ValueView::Null }
    } else {
        message_response(status, status_line(status.code))
    }
}

impl APIResponse {
    /// Creates a response from a status and a message. The data is
    /// `{"message": <message>}`.
    pub fn new_message(status: Status, message: &str) -> (response: APIResponse)
        ensures
            response@ == message_response(status, message@),
    {
        APIResponse { data: Value::message(message), status }
    }

    /// Creates a response from a status and JSON data.
    pub fn new(status: Status, data: Value) -> (response: APIResponse)
        ensures
            response@ == (APIResponseView { status, data: data@ }),
    {
        APIResponse { data, status }
    }

    /// Sets the status and keeps the data.
    pub fn status(self, status: Status) -> (response: APIResponse)
        ensures
            response@ == (APIResponseView { status, data: self@.data }),
    {
        let mut response = self;
        response.status = status;
        response
    }

    /// Sets the data and keeps the status.
    pub fn data(self, data: Value) -> (response: APIResponse)
        ensures
            response@ == (APIResponseView { status: self@.status, data: data@ }),
    {
        let mut response = self;
        response.data = data;
        response
    }

    /// Sets the data to `{"message": <message>}` and keeps the status.
    pub fn message(self, message: &str) -> (response: APIResponse)
        ensures
            response@ == message_response(self@.status, message@),
    {
        let mut response = self;
        response.data = Value::message(message);
        response
    }

    /// The status of the response.
    pub fn get_status(&self) -> (status: Status)
        ensures
            status == self@.status,
    {
        self.status
    }

    /// The data of the response.
    pub fn get_data(&self) -> (data: &Value)
        ensures
            data@ == self@.data,
    {
        &self.data
    }

    /// The response as the error of a request guard: its status and a copy of
    /// its data.
    pub fn as_guard_error(&self) -> (error: RequestGuardError)
        ensures
            error.0 == self@.status,
            error.1@ == self@.data,
    {
        (self.status, self.data.clone())
    }

    /// Remembers the response for the request, unless one is remembered
    /// already, and hands it back as the error of a request guard.
    pub fn as_cache_guard_error(self, cache: &mut LocalCache) -> (error: RequestGuardError)
        ensures
            error.0 == self@.status,
            error.1@ == self@.data,
            final(cache).response_view() == match old(cache).response_view() {
                Some(first) => Some(first),
                None => Some(self@),
            },
            final(cache).errors_view() == old(cache).errors_view(),
    {
        cache.remember_response(self.clone());
        self.as_guard_error()
    }

    /// The response that stands for a bare status. `200`, `201`, `202` and `204`
    /// give a response without data; every other status gives its status line
    /// as the message.
    pub fn from_status(status: Status) -> (response: APIResponse)
        ensures
            response@ == status_response(status),
    {
        if status.code == OK || status.code == CREATED || status.code == ACCEPTED || status.code
            == NO_CONTENT {
            return APIResponse::new(status, Value::Null);
        }
        let line = status.to_string();
        APIResponse::new_message(status, line.as_str())
    }
}

/// A response kept for the rest of the request.
#[derive(Debug)]
pub struct CachedAPIResponse(pub APIResponse);

/// What a request remembers while it is handled: the first response that a
/// guard failed with, and the validation errors of the body, if any.
#[derive(Debug)]
pub struct LocalCache {
    response: Option<CachedAPIResponse>,
    validation_errors: Option<Value>,
}

impl LocalCache {
    /// The remembered response, if there is one.
    pub closed spec fn response_view(&self) -> Option<APIResponseView> {
        match self.response {
            Some(cached) => Some(cached.0@),
            None => None,
        }
    }

    /// The remembered validation errors, if there are any.
    pub closed spec fn errors_view(&self) -> Option<ValueView> {
        match self.validation_errors {
            Some(errors) => Some(errors@),
            None => None,
        }
    }

    /// A cache that remembers nothing yet.
    pub fn new() -> (cache: LocalCache)
        ensures
            cache.response_view() is None,
            cache.errors_view() is None,
    {
        LocalCache { response: None, validation_errors: None }
    }

    /// Remembers a response: the first one stays.
    pub fn remember_response(&mut self, response: APIResponse)
        ensures
            final(self).response_view() == match old(self).response_view() {
                Some(first) => Some(first),
                None => Some(response@),
            },
            final(self).errors_view() == old(self).errors_view(),
    {
        if self.response.is_none() {
            self.response = Some(CachedAPIResponse(response));
        }
    }

    /// Remembers the validation errors of the request body: the first ones stay.
    pub fn remember_errors(&mut self, errors: Value)
        ensures
            final(self).errors_view() == match old(self).errors_view() {
                Some(first) => Some(first),
                None => Some(errors@),
            },
            final(self).response_view() == old(self).response_view(),
    {
        if self.validation_errors.is_none() {
            self.validation_errors = Some(errors);
        }
    }

    /// A copy of the remembered response, if there is one.
    pub fn response(&self) -> (response: Option<APIResponse>)
        ensures
            match response {
                Some(r) => self.response_view() == Some(r@),
                None => self.response_view() is None,
            },
    {
        match &self.response {
            Some(cached) => Some(cached.0.clone()),
            None => None,
        }
    }

    /// A copy of the remembered validation errors, if there are any.
    pub fn errors(&self) -> (errors: Option<Value>)
        ensures
            match errors {
                Some(e) => self.errors_view() == Some(e@),
                None => self.errors_view() is None,
            },
    {
        match &self.validation_errors {
            Some(errors) => Some(errors.clone()),
            None => None,
        }
    }
}

/// How a request guard ends: with a value, with an error, or by passing the
/// request on.
#[derive(Debug)]
pub enum Outcome<S, E, F> {
    Success(S),
    Failure(E),
    Forward(F),
}

/// A `500 Internal Server Error` response with a message.
pub fn internal_server_error(message: &str) -> (response: APIResponse)
    ensures
        response@ == message_response(Status { code: INTERNAL_SERVER_ERROR }, message@),
{
    APIResponse::new_message(Status::new(INTERNAL_SERVER_ERROR), message)
}

/// A handler's error result: `500 Internal Server Error` with a message.
pub fn result_internal_server_error(message: &str) -> (result: APIResult)
    ensures
        result is Err,
        result->Err_0@ == message_response(Status { code: INTERNAL_SERVER_ERROR }, message@),
{
    Err(internal_server_error(message))
}

/// A guard's failure: `500 Internal Server Error` with a message, remembered for the
/// request unless a response is remembered already.
pub fn guard_internal_server_error<S, F>(cache: &mut LocalCache, message: &str) -> (outcome: Outcome<
    S,
    RequestGuardError,
    F,
>)
    ensures
        outcome is Failure,
        outcome->Failure_0.0 == (Status { code: INTERNAL_SERVER_ERROR }),
        outcome->Failure_0.1@ == message_body(message@),
        final(cache).response_view() == match old(cache).response_view() {
            Some(first) => Some(first),
            None => Some(message_response(Status { code: INTERNAL_SERVER_ERROR }, message@)),
        },
        final(cache).errors_view() == old(cache).errors_view(),
{
    Outcome::Failure(internal_server_error(message).as_cache_guard_error(cache))
}

/// A `400 Bad Request` response with a message.
pub fn bad_request(message: &str) -> (response: APIResponse)
    ensures
        response@ == message_response(Status { code: BAD_REQUEST }, message@),
{
    APIResponse::new_message(Status::new(BAD_REQUEST), message)
}

/// A handler's error result: `400 Bad Request` with a message.
pub fn result_bad_request(message: &str) -> (result: APIResult)
    ensures
        result is Err,
        result->Err_0@ == message_response(Status { code: BAD_REQUEST }, message@),
{
    Err(bad_request(message))
}

/// A guard's failure: `400 Bad Request` with a message, remembered for the
/// request unless a response is remembered already.
pub fn guard_bad_request<S, F>(cache: &mut LocalCache, message: &str) -> (outcome: Outcome<
    S,
    RequestGuardError,
    F,
>)
    ensures
        outcome is Failure,
        outcome->Failure_0.0 == (Status { code: BAD_REQUEST }),
        outcome->Failure_0.1@ == message_body(message@),
        final(cache).response_view() == match old(cache).response_view() {
            Some(first) => Some(first),
            None => Some(message_response(Status { code: BAD_REQUEST }, message@)),
        },
        final(cache).errors_view() == old(cache).errors_view(),
{
    Outcome::Failure(bad_request(message).as_cache_guard_error(cache))
}

/// A `401 Unauthorized` response with a message.
pub fn unauthorized(message: &str) -> (response: APIResponse)
    ensures
        response@ == message_response(Status { code: UNAUTHORIZED }, message@),
{
    APIResponse::new_message(Status::new(UNAUTHORIZED), message)
}

/// A handler's error result: `401 Unauthorized` with a message.
pub fn result_unauthorized(message: &str) -> (result: APIResult)
    ensures
        result is Err,
        result->Err_0@ == message_response(Status { code: UNAUTHORIZED }, message@),
{
    Err(unauthorized(message))
}

/// A guard's failure: `401 Unauthorized` with a message, remembered for the
/// request unless a response is remembered already.
pub fn guard_unauthorized<S, F>(cache: &mut LocalCache, message: &str) -> (outcome: Outcome<
    S,
    RequestGuardError,
    F,
>)
    ensures
        outcome is Failure,
        outcome->Failure_0.0 == (Status { code: UNAUTHORIZED }),
        outcome->Failure_0.1@ == message_body(message@),
        final(cache).response_view() == match old(cache).response_view() {
            Some(first) => Some(first),
            None => Some(message_response(Status { code: UNAUTHORIZED }, message@)),
        },
        final(cache).errors_view() == old(cache).errors_view(),
{
    Outcome::Failure(unauthorized(message).as_cache_guard_error(cache))
}

/// A `404 Not Found` response with a message.
pub fn not_found(message: &str) -> (response: APIResponse)
    ensures
        response@ == message_response(Status { code: NOT_FOUND }, message@),
{
    APIResponse::new_message(Status::new(NOT_FOUND), message)
}

/// A handler's error result: `404 Not Found` with a message.
pub fn result_not_found(message: &str) -> (result: APIResult)
    ensures
        result is Err,
        result->Err_0@ == message_response(Status { code: NOT_FOUND }, message@),
{
    Err(not_found(message))
}

/// A guard's failure: `404 Not Found` with a message, remembered for the
/// request unless a response is remembered already.
pub fn guard_not_found<S, F>(cache: &mut LocalCache, message: &str) -> (outcome: Outcome<
    S,
    RequestGuardError,
    F,
>)
    ensures
        outcome is Failure,
        outcome->Failure_0.0 == (Status { code: NOT_FOUND }),
        outcome->Failure_0.1@ == message_body(message@),
        final(cache).response_view() == match old(cache).response_view() {
            Some(first) => Some(first),
            None => Some(message_response(Status { code: NOT_FOUND }, message@)),
        },
        final(cache).errors_view() == old(cache).errors_view(),
{
    Outcome::Failure(not_found(message).as_cache_guard_error(cache))
}

/// A `403 Forbidden` response with a message.
pub fn forbidden(message: &str) -> (response: APIResponse)
    ensures
        response@ == message_response(Status { code: FORBIDDEN }, message@),
{
    APIResponse::new_message(Status::new(FORBIDDEN), message)
}

/// A handler's error result: `403 Forbidden` with a message.
pub fn result_forbidden(message: &str) -> (result: APIResult)
    ensures
        result is Err,
        result->Err_0@ == message_response(Status { code: FORBIDDEN }, message@),
{
    Err(forbidden(message))
}

/// A guard's failure: `403 Forbidden` with a message, remembered for the
/// request unless a response is remembered already.
pub fn guard_forbidden<S, F>(cache: &mut LocalCache, message: &str) -> (outcome: Outcome<
    S,
    RequestGuardError,
    F,
>)
    ensures
        outcome is Failure,
        outcome->Failure_0.0 == (Status { code: FORBIDDEN }),
        outcome->Failure_0.1@ == message_body(message@),
        final(cache).response_view() == match old(cache).response_view() {
            Some(first) => Some(first),
            None => Some(message_response(Status { code: FORBIDDEN }, message@)),
        },
        final(cache).errors_view() == old(cache).errors_view(),
{
    Outcome::Failure(forbidden(message).as_cache_guard_error(cache))
}

/// A `422 Unprocessable Entity` response with a message.
pub fn unprocessable_entity(message: &str) -> (response: APIResponse)
    ensures
        response@ == message_response(Status { code: UNPROCESSABLE_ENTITY }, message@),
{
    APIResponse::new_message(Status::new(UNPROCESSABLE_ENTITY), message)
}

/// A handler's error result: `422 Unprocessable Entity` with a message.
pub fn result_unprocessable_entity(message: &str) -> (result: APIResult)
    ensures
        result is Err,
        result->Err_0@ == message_response(Status { code: UNPROCESSABLE_ENTITY }, message@),
{
    Err(unprocessable_entity(message))
}

/// A guard's failure: `422 Unprocessable Entity` with a message, remembered for the
/// request unless a response is remembered already.
pub fn guard_unprocessable_entity<S, F>(cache: &mut LocalCache, message: &str) -> (outcome: Outcome<
    S,
    RequestGuardError,
    F,
>)
    ensures
        outcome is Failure,
        outcome->Failure_0.0 == (Status { code: UNPROCESSABLE_ENTITY }),
        outcome->Failure_0.1@ == message_body(message@),
        final(cache).response_view() == match old(cache).response_view() {
            Some(first) => Some(first),
            None => Some(message_response(Status { code: UNPROCESSABLE_ENTITY }, message@)),
        },
        final(cache).errors_view() == old(cache).errors_view(),
{
    Outcome::Failure(unprocessable_entity(message).as_cache_guard_error(cache))
}

/// A `200 OK` response with a message.
pub fn ok(message: &str) -> (response: APIResponse)
    ensures
        response@ == message_response(Status { code: OK }, message@),
{
    APIResponse::new_message(Status::new(OK), message)
}

/// A handler's error result: `200 OK` with a message.
pub fn result_ok(message: &str) -> (result: APIResult)
    ensures
        result is Err,
        result->Err_0@ == message_response(Status { code: OK }, message@),
{
    Err(ok(message))
}

/// A guard's failure: `200 OK` with a message, remembered for the
/// request unless a response is remembered already.
pub fn guard_ok<S, F>(cache: &mut LocalCache, message: &str) -> (outcome: Outcome<
    S,
    RequestGuardError,
    F,
>)
    ensures
        outcome is Failure,
        outcome->Failure_0.0 == (Status { code: OK }),
        outcome->Failure_0.1@ == message_body(message@),
        final(cache).response_view() == match old(cache).response_view() {
            Some(first) => Some(first),
            None => Some(message_response(Status { code: OK }, message@)),
        },
        final(cache).errors_view() == old(cache).errors_view(),
{
    Outcome::Failure(ok(message).as_cache_guard_error(cache))
}

/// A `201 Created` response with a message.
pub fn created(message: &str) -> (response: APIResponse)
    ensures
        response@ == message_response(Status { code: CREATED }, message@),
{
    APIResponse::new_message(Status::new(CREATED), message)
}

/// A handler's error result: `201 Created` with a message.
pub fn result_created(message: &str) -> (result: APIResult)
    ensures
        result is Err,
        result->Err_0@ == message_response(Status { code: CREATED }, message@),
{
    Err(created(message))
}

/// A guard's failure: `201 Created` with a message, remembered for the
/// request unless a response is remembered already.
pub fn guard_created<S, F>(cache: &mut LocalCache, message: &str) -> (outcome: Outcome<
    S,
    RequestGuardError,
    F,
>)
    ensures
        outcome is Failure,
        outcome->Failure_0.0 == (Status { code: CREATED }),
        outcome->Failure_0.1@ == message_body(message@),
        final(cache).response_view() == match old(cache).response_view() {
            Some(first) => Some(first),
            None => Some(message_response(Status { code: CREATED }, message@)),
        },
        final(cache).errors_view() == old(cache).errors_view(),
{
    Outcome::Failure(created(message).as_cache_guard_error(cache))
}

/// A `202 Accepted` response with a message.
pub fn accepted(message: &str) -> (response: APIResponse)
    ensures
        response@ == message_response(Status { code: ACCEPTED }, message@),
{
    APIResponse::new_message(Status::new(ACCEPTED), message)
}

/// A handler's error result: `202 Accepted` with a message.
pub fn result_accepted(message: &str) -> (result: APIResult)
    ensures
        result is Err,
        result->Err_0@ == message_response(Status { code: ACCEPTED }, message@),
{
    Err(accepted(message))
}

/// A guard's failure: `202 Accepted` with a message, remembered for the
/// request unless a response is remembered already.
pub fn guard_accepted<S, F>(cache: &mut LocalCache, message: &str) -> (outcome: Outcome<
    S,
    RequestGuardError,
    F,
>)
    ensures
        outcome is Failure,
        outcome->Failure_0.0 == (Status { code: ACCEPTED }),
        outcome->Failure_0.1@ == message_body(message@),
        final(cache).response_view() == match old(cache).response_view() {
            Some(first) => Some(first),
            None => Some(message_response(Status { code: ACCEPTED }, message@)),
        },
        final(cache).errors_view() == old(cache).errors_view(),
{
    Outcome::Failure(accepted(message).as_cache_guard_error(cache))
}

/// A `502 Bad Gateway` response with a message.
pub fn bad_gateway(message: &str) -> (response: APIResponse)
    ensures
        response@ == message_response(Status { code: BAD_GATEWAY }, message@),
{
    APIResponse::new_message(Status::new(BAD_GATEWAY), message)
}

/// A handler's error result: `502 Bad Gateway` with a message.
pub fn result_bad_gateway(message: &str) -> (result: APIResult)
    ensures
        result is Err,
        result->Err_0@ == message_response(Status { code: BAD_GATEWAY }, message@),
{
    Err(bad_gateway(message))
}

/// A guard's failure: `502 Bad Gateway` with a message, remembered for the
/// request unless a response is remembered already.
pub fn guard_bad_gateway<S, F>(cache: &mut LocalCache, message: &str) -> (outcome: Outcome<
    S,
    RequestGuardError,
    F,
>)
    ensures
        outcome is Failure,
        outcome->Failure_0.0 == (Status { code: BAD_GATEWAY }),
        outcome->Failure_0.1@ == message_body(message@),
        final(cache).response_view() == match old(cache).response_view() {
            Some(first) => Some(first),
            None => Some(message_response(Status { code: BAD_GATEWAY }, message@)),
        },
        final(cache).errors_view() == old(cache).errors_view(),
{
    Outcome::Failure(bad_gateway(message).as_cache_guard_error(cache))
}

/// A `503 Service Unavailable` response with a message.
pub fn service_unavailable(message: &str) -> (response: APIResponse)
    ensures
        response@ == message_response(Status { code: SERVICE_UNAVAILABLE }, message@),
{
    APIResponse::new_message(Status::new(SERVICE_UNAVAILABLE), message)
}

/// A handler's error result: `503 Service Unavailable` with a message.
pub fn result_service_unavailable(message: &str) -> (result: APIResult)
    ensures
        result is Err,
        result->Err_0@ == message_response(Status { code: SERVICE_UNAVAILABLE }, message@),
{
    Err(service_unavailable(message))
}

/// A guard's failure: `503 Service Unavailable` with a message, remembered for the
/// request unless a response is remembered already.
pub fn guard_service_unavailable<S, F>(cache: &mut LocalCache, message: &str) -> (outcome: Outcome<
    S,
    RequestGuardError,
    F,
>)
    ensures
        outcome is Failure,
        outcome->Failure_0.0 == (Status { code: SERVICE_UNAVAILABLE }),
        outcome->Failure_0.1@ == message_body(message@),
        final(cache).response_view() == match old(cache).response_view() {
            Some(first) => Some(first),
            None => Some(message_response(Status { code: SERVICE_UNAVAILABLE }, message@)),
        },
        final(cache).errors_view() == old(cache).errors_view(),
{
    Outcome::Failure(service_unavailable(message).as_cache_guard_error(cache))
}

/// Results whose error can be replaced by a response.
pub trait MapAPIResponse<R>: Sized {
    /// Whether `mapped` is this result with its error replaced by `response`.
    spec fn maps_to(self, mapped: R, response: APIResponseView) -> bool;

    /// Replaces the error by a response with these data.
    fn map_response(self, status: Status, data: Value) -> (mapped: R)
        ensures
            self.maps_to(mapped, APIResponseView { status, data: data@ }),
    ;

    /// Replaces the error by a response with this message.
    fn map_response_message(self, status: Status, message: &str) -> (mapped: R)
        ensures
            self.maps_to(mapped, message_response(status, message@)),
    ;

    /// Replaces the error by `500 Internal Server Error` with this message.
    fn map_internal_server_error(self, message: &str) -> (mapped: R)
        ensures
            self.maps_to(mapped, message_response(Status { code: INTERNAL_SERVER_ERROR }, message@)),
    {
        self.map_response_message(Status::new(INTERNAL_SERVER_ERROR), message)
    }

    /// Replaces the error by `400 Bad Request` with this message.
    fn map_bad_request(self, message: &str) -> (mapped: R)
        ensures
            self.maps_to(mapped, message_response(Status { code: BAD_REQUEST }, message@)),
    {
        self.map_response_message(Status::new(BAD_REQUEST), message)
    }

    /// Replaces the error by `401 Unauthorized` with this message.
    fn map_unauthorized(self, message: &str) -> (mapped: R)
        ensures
            self.maps_to(mapped, message_response(Status { code: UNAUTHORIZED }, message@)),
    {
        self.map_response_message(Status::new(UNAUTHORIZED), message)
    }

    /// Replaces the error by `404 Not Found` with this message.
    fn map_not_found(self, message: &str) -> (mapped: R)
        ensures
            self.maps_to(mapped, message_response(Status { code: NOT_FOUND }, message@)),
    {
        self.map_response_message(Status::new(NOT_FOUND), message)
    }

    /// Replaces the error by `403 Forbidden` with this message.
    fn map_forbidden(self, message: &str) -> (mapped: R)
        ensures
            self.maps_to(mapped, message_response(Status { code: FORBIDDEN }, message@)),
    {
        self.map_response_message(Status::new(FORBIDDEN), message)
    }

    /// Replaces the error by `422 Unprocessable Entity` with this message.
    fn map_unprocessable_entity(self, message: &str) -> (mapped: R)
        ensures
            self.maps_to(mapped, message_response(Status { code: UNPROCESSABLE_ENTITY }, message@)),
    {
        self.map_response_message(Status::new(UNPROCESSABLE_ENTITY), message)
    }

    /// Replaces the error by `200 OK` with this message.
    fn map_ok(self, message: &str) -> (mapped: R)
        ensures
            self.maps_to(mapped, message_response(Status { code: OK }, message@)),
    {
        self.map_response_message(Status::new(OK), message)
    }

    /// Replaces the error by `201 Created` with this message.
    fn map_created(self, message: &str) -> (mapped: R)
        ensures
            self.maps_to(mapped, message_response(Status { code: CREATED }, message@)),
    {
        self.map_response_message(Status::new(CREATED), message)
    }

    /// Replaces the error by `202 Accepted` with this message.
    fn map_accepted(self, message: &str) -> (mapped: R)
        ensures
            self.maps_to(mapped, message_response(Status { code: ACCEPTED }, message@)),
    {
        self.map_response_message(Status::new(ACCEPTED), message)
    }

    /// Replaces the error by `502 Bad Gateway` with this message.
    fn map_bad_gateway(self, message: &str) -> (mapped: R)
        ensures
            self.maps_to(mapped, message_response(Status { code: BAD_GATEWAY }, message@)),
    {
        self.map_response_message(Status::new(BAD_GATEWAY), message)
    }

    /// Replaces the error by `503 Service Unavailable` with this message.
    fn map_service_unavailable(self, message: &str) -> (mapped: R)
        ensures
            self.maps_to(mapped, message_response(Status { code: SERVICE_UNAVAILABLE }, message@)),
    {
        self.map_response_message(Status::new(SERVICE_UNAVAILABLE), message)
    }
}

impl<T, E> MapAPIResponse<Result<T, APIResponse>> for Result<T, E> {
    open spec fn maps_to(self, mapped: Result<T, APIResponse>, response: APIResponseView) -> bool {
        match self {
            Ok(value) => mapped == Ok::<T, APIResponse>(value),
            Err(_) => mapped is Err && mapped->Err_0@ == response,
        }
    }

    fn map_response(self, status: Status, data: Value) -> (mapped: Result<T, APIResponse>) {
        match self {
            Ok(value) => Ok(value),
            Err(_) => Err(APIResponse::new(status, data)),
        }
    }

    fn map_response_message(self, status: Status, message: &str) -> (mapped: Result<
        T,
        APIResponse,
    >) {
        match self {
            Ok(value) => Ok(value),
            Err(_) => Err(APIResponse::new_message(status, message)),
        }
    }
}

/// What a request remembers after a guard failed with a response: the response,
/// unless one was remembered before.
pub open spec fn remembered(before: Option<APIResponseView>, response: APIResponseView) -> Option<
    APIResponseView,
> {
    match before {
        Some(first) => Some(first),
        None => Some(response),
    }
}

/// Outcomes of guards whose failure can be replaced by a response.
pub trait MapReqAPIResponse<R>: Sized {
    /// Whether `mapped` is this outcome with its failure replaced by
    /// `response`, and `after` is what the request remembers then.
    spec fn maps_to(
        self,
        mapped: R,
        response: APIResponseView,
        before: LocalCache,
        after: LocalCache,
    ) -> bool;

    /// Replaces the failure by a response with these data, remembered for the
    /// request.
    fn map_response(self, cache: &mut LocalCache, status: Status, data: Value) -> (mapped: R)
        ensures
            self.maps_to(
                mapped,
                APIResponseView { status, data: data@ },
                *old(cache),
                *final(cache),
            ),
    ;

    /// Replaces the failure by a response with this message, remembered for
    /// the request.
    fn map_response_message(self, cache: &mut LocalCache, status: Status, message: &str) -> (mapped:
        R)
        ensures
            self.maps_to(mapped, message_response(status, message@), *old(cache), *final(cache)),
    ;

    /// Replaces the failure by `500 Internal Server Error` with this message.
    fn map_internal_server_error(self, cache: &mut LocalCache, message: &str) -> (mapped: R)
        ensures
            self.maps_to(
                mapped,
                message_response(Status { code: INTERNAL_SERVER_ERROR }, message@),
                *old(cache),
                *final(cache),
            ),
    {
        self.map_response_message(cache, Status::new(INTERNAL_SERVER_ERROR), message)
    }

    /// Replaces the failure by `400 Bad Request` with this message.
    fn map_bad_request(self, cache: &mut LocalCache, message: &str) -> (mapped: R)
        ensures
            self.maps_to(
                mapped,
                message_response(Status { code: BAD_REQUEST }, message@),
                *old(cache),
                *final(cache),
            ),
    {
        self.map_response_message(cache, Status::new(BAD_REQUEST), message)
    }

    /// Replaces the failure by `401 Unauthorized` with this message.
    fn map_unauthorized(self, cache: &mut LocalCache, message: &str) -> (mapped: R)
        ensures
            self.maps_to(
                mapped,
                message_response(Status { code: UNAUTHORIZED }, message@),
                *old(cache),
                *final(cache),
            ),
    {
        self.map_response_message(cache, Status::new(UNAUTHORIZED), message)
    }

    /// Replaces the failure by `404 Not Found` with this message.
    fn map_not_found(self, cache: &mut LocalCache, message: &str) -> (mapped: R)
        ensures
            self.maps_to(
                mapped,
                message_response(Status { code: NOT_FOUND }, message@),
                *old(cache),
                *final(cache),
            ),
    {
        self.map_response_message(cache, Status::new(NOT_FOUND), message)
    }

    /// Replaces the failure by `403 Forbidden` with this message.
    fn map_forbidden(self, cache: &mut LocalCache, message: &str) -> (mapped: R)
        ensures
            self.maps_to(
                mapped,
                message_response(Status { code: FORBIDDEN }, message@),
                *old(cache),
                *final(cache),
            ),
    {
        self.map_response_message(cache, Status::new(FORBIDDEN), message)
    }

    /// Replaces the failure by `422 Unprocessable Entity` with this message.
    fn map_unprocessable_entity(self, cache: &mut LocalCache, message: &str) -> (mapped: R)
        ensures
            self.maps_to(
                mapped,
                message_response(Status { code: UNPROCESSABLE_ENTITY }, message@),
                *old(cache),
                *final(cache),
            ),
    {
        self.map_response_message(cache, Status::new(UNPROCESSABLE_ENTITY), message)
    }

    /// Replaces the failure by `200 OK` with this message.
    fn map_ok(self, cache: &mut LocalCache, message: &str) -> (mapped: R)
        ensures
            self.maps_to(
                mapped,
                message_response(Status { code: OK }, message@),
                *old(cache),
                *final(cache),
            ),
    {
        self.map_response_message(cache, Status::new(OK), message)
    }

    /// Replaces the failure by `201 Created` with this message.
    fn map_created(self, cache: &mut LocalCache, message: &str) -> (mapped: R)
        ensures
            self.maps_to(
                mapped,
                message_response(Status { code: CREATED }, message@),
                *old(cache),
                *final(cache),
            ),
    {
        self.map_response_message(cache, Status::new(CREATED), message)
    }

    /// Replaces the failure by `202 Accepted` with this message.
    fn map_accepted(self, cache: &mut LocalCache, message: &str) -> (mapped: R)
        ensures
            self.maps_to(
                mapped,
                message_response(Status { code: ACCEPTED }, message@),
                *old(cache),
                *final(cache),
            ),
    {
        self.map_response_message(cache, Status::new(ACCEPTED), message)
    }

    /// Replaces the failure by `502 Bad Gateway` with this message.
    fn map_bad_gateway(self, cache: &mut LocalCache, message: &str) -> (mapped: R)
        ensures
            self.maps_to(
                mapped,
                message_response(Status { code: BAD_GATEWAY }, message@),
                *old(cache),
                *final(cache),
            ),
    {
        self.map_response_message(cache, Status::new(BAD_GATEWAY), message)
    }

    /// Replaces the failure by `503 Service Unavailable` with this message.
    fn map_service_unavailable(self, cache: &mut LocalCache, message: &str) -> (mapped: R)
        ensures
            self.maps_to(
                mapped,
                message_response(Status { code: SERVICE_UNAVAILABLE }, message@),
                *old(cache),
                *final(cache),
            ),
    {
        self.map_response_message(cache, Status::new(SERVICE_UNAVAILABLE), message)
    }
}

impl<S, E, F> MapReqAPIResponse<Outcome<S, RequestGuardError, F>> for Outcome<S, E, F> {
    open spec fn maps_to(
        self,
        mapped: Outcome<S, RequestGuardError, F>,
        response: APIResponseView,
        before: LocalCache,
        after: LocalCache,
    ) -> bool {
        &&& after.errors_view() == before.errors_view()
        &&& match self {
            Outcome::Success(value) => mapped == Outcome::<S, RequestGuardError, F>::Success(
                value,
            ) && after.response_view() == before.response_view(),
            Outcome::Forward(value) => mapped == Outcome::<S, RequestGuardError, F>::Forward(
                value,
            ) && after.response_view() == before.response_view(),
            Outcome::Failure(_) => {
                &&& mapped is Failure
                &&& mapped->Failure_0.0 == response.status
                &&& mapped->Failure_0.1@ == response.data
                &&& after.response_view() == remembered(before.response_view(), response)
            },
        }
    }

    fn map_response(self, cache: &mut LocalCache, status: Status, data: Value) -> (mapped: Outcome<
        S,
        RequestGuardError,
        F,
    >) {
        match self {
            Outcome::Success(value) => Outcome::Success(value),
            Outcome::Forward(value) => Outcome::Forward(value),
            Outcome::Failure(_) => Outcome::Failure(
                APIResponse::new(status, data).as_cache_guard_error(cache),
            ),
        }
    }

    fn map_response_message(self, cache: &mut LocalCache, status: Status, message: &str) -> (mapped:
        Outcome<S, RequestGuardError, F>) {
        match self {
            Outcome::Success(value) => Outcome::Success(value),
            Outcome::Forward(value) => Outcome::Forward(value),
            Outcome::Failure(_) => Outcome::Failure(
                APIResponse::new_message(status, message).as_cache_guard_error(cache),
            ),
        }
    }
}

} // verus!

verus! {

impl From<Status> for APIResponse {
    /// The response that stands for a bare status: see
    /// [`APIResponse::from_status`].
    fn from(status: Status) -> (response: APIResponse)
        ensures
            response@ == status_response(status),
    {
        APIResponse::from_status(status)
    }
}

impl vstd::std_specs::convert::FromSpecImpl<Status> for APIResponse {
    open spec fn obeys_from_spec() -> bool {
        false
    }

    open spec fn from_spec(status: Status) -> APIResponse {
        arbitrary()
    }
}

} // verus!
