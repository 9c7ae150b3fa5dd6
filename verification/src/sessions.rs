//! Sessions as a resource: the caller's own sessions, listed, fetched and
//! closed.

use vstd::prelude::*;
use crate::arena::{
    delete_result, get_result, limit_or_default, owned, page_of, page_or_first, pointed,
    present, GetAllResponse, Record,
};
use crate::client_info::{ClientInfo, IpNetwork};
use crate::config::AppConfig;
use crate::crud::{answered, failure_response, refusal, refused, result_view};
use crate::guard::{session_expiry, Auth, SessionFields, Sessions, UserModel};
use crate::ids::Id;
use crate::mounting::{route, Method, Rocket, RouteView};
use crate::responses::{
    internal_server_error, message_response, ok, APIResponse, APIResult,
    Status, INTERNAL_SERVER_ERROR, OK,
};

verus! {

/// A session as it is stored and as the caller gets it. The identifier is the
/// bearer token; times are counted in microseconds.
#[derive(Debug)]
pub struct SessionModel {
    pub id: Id,
    pub ip: IpNetwork,
    pub platform: String,
    pub user_agent: String,
    pub user_id: Id,
    pub created_at: i64,
    pub expire_at: i64,
}

/// Whether a model shows a record.
pub open spec fn shows(model: SessionModel, record: Record<SessionFields>) -> bool {
    &&& model.id == record.id
    &&& model.user_id == record.owner
    &&& model.ip == record.payload.ip
    &&& model.platform == record.payload.platform
    &&& model.user_agent == record.payload.user_agent
    &&& model.created_at == record.payload.created_at
    &&& model.expire_at == record.payload.expire_at
}

fn model(record: &Record<SessionFields>) -> (model: SessionModel)
    ensures
        shows(model, *record),
{
    SessionModel {
        id: record.id,
        ip: record.payload.ip,
        platform: record.payload.platform.clone(),
        user_agent: record.payload.user_agent.clone(),
        user_id: record.owner,
        created_at: record.payload.created_at,
        expire_at: record.payload.expire_at,
    }
}

/// Opens a session for a user under the token `new_id`, from `now` for the
/// configured duration, and hands the token back.
pub fn create_session(
    sessions: &mut Sessions,
    config: &AppConfig,
    client_info: &ClientInfo,
    user_id: Id,
    new_id: Id,
    now: i64,
) -> (created: Result<Id, APIResponse>)
    requires
        old(sessions).wf(),
    ensures
        final(sessions).wf(),
        created is Ok <==> session_expiry(now, config.session_duration) is Some && !present(
            old(sessions)@,
            new_id,
        ),
        created is Ok ==> {
            let opened = final(sessions)@.last();
            &&& created->Ok_0 == new_id
            &&& final(sessions)@.len() == old(sessions)@.len() + 1
            &&& final(sessions)@.drop_last() == old(sessions)@
            &&& opened.id == new_id
            &&& opened.owner == user_id
            &&& opened.payload.created_at == now
            &&& Some(opened.payload.expire_at) == session_expiry(now, config.session_duration)
            &&& opened.payload.ip == client_info.ip
            &&& opened.payload.platform@ == client_info.platform.name()
            &&& opened.payload.user_agent@ == client_info.user_agent@
        },
        created is Err ==> {
            &&& final(sessions)@ == old(sessions)@
            &&& created->Err_0@ == message_response(
                Status { code: INTERNAL_SERVER_ERROR },
                "Failed to create session."@,
            )
        },
{
    match sessions.create_session(new_id, user_id, client_info, now, config.session_duration) {
        Some(id) => Ok(id),
        None => Err(internal_server_error("Failed to create session.")),
    }
}

/// Fetches a session of the caller.
pub fn get_single(sessions: &Sessions, auth_user: &Auth<UserModel>, id: Id) -> (result: Result<
    SessionModel,
    APIResponse,
>)
    requires
        sessions.wf(),
    ensures
        match get_result(sessions@, auth_user.0.id, id) {
            Ok(record) => result is Ok && shows(result->Ok_0, record),
            Err(failure) => result is Err && result->Err_0@ == refusal(failure),
        },
{
    match sessions.records().get(auth_user.0.id, id) {
        Ok(record) => Ok(model(record)),
        Err(failure) => Err(failure_response(failure)),
    }
}

/// Lists the caller's sessions, one page of them.
pub fn get_all(
    sessions: &Sessions,
    auth_user: &Auth<UserModel>,
    limit: Option<u32>,
    page: Option<u32>,
) -> (listing: GetAllResponse<SessionModel>)
    ensures
        listing.limit == limit_or_default(limit),
        listing.page == page_or_first(page),
        ({
            let shown = page_of(
                owned(sessions@, auth_user.0.id),
                listing.limit as nat,
                listing.page as nat,
            );
            &&& listing.items@.len() == shown.len()
            &&& forall|k: int| 0 <= k < shown.len() ==> shows(#[trigger] listing.items@[k], shown[k])
        }),
{
    let found = sessions.records().list(auth_user.0.id, limit, page);
    let ghost shown = page_of(
        owned(sessions@, auth_user.0.id),
        found.limit as nat,
        found.page as nat,
    );
    let mut items: Vec<SessionModel> = Vec::new();
    let mut k: usize = 0;
    while k < found.items.len()
        invariant
            k <= found.items.len(),
            pointed(found.items@) == shown,
            items@.len() == k,
            forall|j: int| 0 <= j < k ==> shows(#[trigger] items@[j], shown[j]),
        decreases found.items.len() - k,
    {
        let record = found.items[k];
        assert(*record == pointed(found.items@)[k as int]);
        items.push(model(record));
        k += 1;
    }
    assert(pointed(found.items@).len() == found.items@.len());
    GetAllResponse { items, limit: found.limit, page: found.page }
}

/// Closes a session of the caller.
pub fn delete(sessions: &mut Sessions, auth_user: &Auth<UserModel>, id: Id) -> (result: APIResult)
    requires
        old(sessions).wf(),
    ensures
        final(sessions).wf(),
        match delete_result(old(sessions)@, auth_user.0.id, id) {
            Ok(rows) => final(sessions)@ == rows && result_view(result) == answered(
                message_response(Status { code: OK }, "Delete successful."@),
            ),
            Err(failure) => final(sessions)@ == old(sessions)@ && result_view(result) == refused(
                failure,
            ),
        },
{
    match sessions.delete(auth_user.0.id, id) {
        Ok(_) => Ok(ok("Delete successful.")),
        Err(failure) => Err(failure_response(failure)),
    }
}

/// The routes of the sessions: fetch, list and close.
pub open spec fn session_routes() -> Seq<RouteView> {
    seq![
        route(Method::Get, "/sessions"@, "/<id>"@, "get_single"@),
        route(Method::Get, "/sessions"@, "/?<limit>&<page>"@, "get_all"@),
        route(Method::Delete, "/sessions"@, "/<id>"@, "delete"@),
    ]
}

/// Mounts the routes of the sessions under `/sessions`.
pub fn mount_rocket(rocket: Rocket) -> (mounted: Rocket)
    ensures
        mounted.routes() == rocket.routes() + session_routes(),
        mounted.catchers() == rocket.catchers(),
        mounted.fairings() == rocket.fairings(),
        mounted.managed() == rocket.managed(),
{
    let mounted = rocket.mount(Method::Get, "/sessions", "/<id>", "get_single");
    let mounted = mounted.mount(Method::Get, "/sessions", "/?<limit>&<page>", "get_all");
    let mounted = mounted.mount(Method::Delete, "/sessions", "/<id>", "delete");
    assert(mounted.routes() =~= rocket.routes() + session_routes());
    mounted
}

} // verus!
