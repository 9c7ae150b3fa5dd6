//! Users as a resource: what a user gets to see of itself.

use vstd::prelude::*;
use crate::arena::{owned, page_of, pointed, Record};
use crate::auth::{Accounts, DiscordUserLoginModel, EmailUserLoginModel};
use crate::client_info::IpNetwork;
use crate::guard::{Auth, SessionFields, Sessions, UserModel};
use crate::ids::Id;
use crate::mounting::{route, Method, Rocket, RouteView};

verus! {

/// The login with Discord, as its user gets it.
#[derive(Debug)]
pub struct GetDiscordUserLoginModel {
    pub client_id: String,
}

/// The login with e-mail address, as its user gets it.
#[derive(Debug)]
pub struct GetEmailUserLoginModel {
    pub email: String,
}

/// A session, as its user gets it.
#[derive(Debug)]
pub struct GetSessionModel {
    pub ip: IpNetwork,
    pub platform: String,
    pub user_agent: String,
    pub created_at: i64,
    pub expire_at: i64,
}

/// A user, as it gets itself.
#[derive(Debug)]
pub struct GetModel {
    pub id: Id,
    pub username: String,
    pub created_at: i64,
    pub updated_at: i64,
    pub discord_login: Option<GetDiscordUserLoginModel>,
    pub email_login: Option<GetEmailUserLoginModel>,
    pub sessions: Vec<GetSessionModel>,
}

/// The e-mail address of the first login of a user, if it has one.
pub open spec fn email_of(logins: Seq<EmailUserLoginModel>, user: Id) -> Option<String>
    decreases logins.len(),
{
    if logins.len() == 0 {
        None
    } else if logins[0].user_id == user {
        Some(logins[0].email)
    } else {
        email_of(logins.skip(1), user)
    }
}

/// The identity of the first login with Discord of a user, if it has one.
pub open spec fn discord_of(logins: Seq<DiscordUserLoginModel>, user: Id) -> Option<String>
    decreases logins.len(),
{
    if logins.len() == 0 {
        None
    } else if logins[0].user_id == user {
        Some(logins[0].client_id)
    } else {
        discord_of(logins.skip(1), user)
    }
}

/// Whether a model shows a session.
pub open spec fn shows_session(model: GetSessionModel, record: Record<SessionFields>) -> bool {
    &&& model.ip == record.payload.ip
    &&& model.platform == record.payload.platform
    &&& model.user_agent == record.payload.user_agent
    &&& model.created_at == record.payload.created_at
    &&& model.expire_at == record.payload.expire_at
}

fn find_email(logins: &Vec<EmailUserLoginModel>, user: Id) -> (email: Option<
    GetEmailUserLoginModel,
>)
    ensures
        match email_of(logins@, user) {
            Some(e) => email is Some && email->0.email == e,
            None => email is None,
        },
{
    let mut i: usize = 0;
    proof {
        assert(logins@.skip(0) =~= logins@);
    }
    while i < logins.len()
        invariant
            i <= logins.len(),
            email_of(logins@, user) == email_of(logins@.skip(i as int), user),
        decreases logins.len() - i,
    {
        proof {
            assert(logins@.skip(i as int)[0] == logins@[i as int]);
            assert(logins@.skip(i as int).skip(1) =~= logins@.skip(i + 1));
        }
        if logins[i].user_id == user {
            return Some(GetEmailUserLoginModel { email: logins[i].email.clone() });
        }
        i += 1;
    }
    None
}

fn find_discord(logins: &Vec<DiscordUserLoginModel>, user: Id) -> (login: Option<
    GetDiscordUserLoginModel,
>)
    ensures
        match discord_of(logins@, user) {
            Some(c) => login is Some && login->0.client_id == c,
            None => login is None,
        },
{
    let mut i: usize = 0;
    proof {
        assert(logins@.skip(0) =~= logins@);
    }
    while i < logins.len()
        invariant
            i <= logins.len(),
            discord_of(logins@, user) == discord_of(logins@.skip(i as int), user),
        decreases logins.len() - i,
    {
        proof {
            assert(logins@.skip(i as int)[0] == logins@[i as int]);
            assert(logins@.skip(i as int).skip(1) =~= logins@.skip(i + 1));
        }
        if logins[i].user_id == user {
            return Some(GetDiscordUserLoginModel { client_id: logins[i].client_id.clone() });
        }
        i += 1;
    }
    None
}

/// Shows the caller to itself: its name and times, its logins, and its
/// sessions (the first 4294967295 of them).
pub fn get_me(auth_user: &Auth<UserModel>, accounts: &Accounts, sessions: &Sessions) -> (me:
    GetModel)
    ensures
        me.id == auth_user.0.id,
        me.username == auth_user.0.username,
        me.created_at == auth_user.0.created_at,
        me.updated_at == auth_user.0.updated_at,
        match email_of(accounts.email_logins@, auth_user.0.id) {
            Some(e) => me.email_login is Some && me.email_login->0.email == e,
            None => me.email_login is None,
        },
        match discord_of(accounts.discord_logins@, auth_user.0.id) {
            Some(c) => me.discord_login is Some && me.discord_login->0.client_id == c,
            None => me.discord_login is None,
        },
        ({
            let shown = page_of(owned(sessions@, auth_user.0.id), u32::MAX as nat, 0);
            &&& me.sessions@.len() == shown.len()
            &&& forall|k: int|
                0 <= k < shown.len() ==> shows_session(#[trigger] me.sessions@[k], shown[k])
        }),
{
    let user = &auth_user.0;
    let found = sessions.records().list(user.id, Some(u32::MAX), None);
    let ghost shown = page_of(owned(sessions@, user.id), u32::MAX as nat, 0);
    let mut items: Vec<GetSessionModel> = Vec::new();
    let mut k: usize = 0;
    while k < found.items.len()
        invariant
            k <= found.items.len(),
            pointed(found.items@) == shown,
            items@.len() == k,
            forall|j: int| 0 <= j < k ==> shows_session(#[trigger] items@[j], shown[j]),
        decreases found.items.len() - k,
    {
        let record = found.items[k];
        assert(*record == pointed(found.items@)[k as int]);
        items.push(
            GetSessionModel {
                ip: record.payload.ip,
                platform: record.payload.platform.clone(),
                user_agent: record.payload.user_agent.clone(),
                created_at: record.payload.created_at,
                expire_at: record.payload.expire_at,
            },
        );
        k += 1;
    }
    assert(pointed(found.items@).len() == found.items@.len());
    GetModel {
        id: user.id,
        username: user.username.clone(),
        created_at: user.created_at,
        updated_at: user.updated_at,
        discord_login: find_discord(&accounts.discord_logins, user.id),
        email_login: find_email(&accounts.email_logins, user.id),
        sessions: items,
    }
}

/// The route of the users.
pub open spec fn user_routes() -> Seq<RouteView> {
    seq![route(Method::Get, "/users"@, "/me"@, "get_me"@)]
}

/// Mounts the route of the users under `/users`.
pub fn mount_rocket(rocket: Rocket) -> (mounted: Rocket)
    ensures
        mounted.routes() == rocket.routes() + user_routes(),
        mounted.catchers() == rocket.catchers(),
        mounted.fairings() == rocket.fairings(),
        mounted.managed() == rocket.managed(),
{
    let mounted = rocket.mount(Method::Get, "/users", "/me", "get_me");
    assert(mounted.routes() =~= rocket.routes() + user_routes());
    mounted
}

} // verus!
