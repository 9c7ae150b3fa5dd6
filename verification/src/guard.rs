//! The session guard: from a bearer token to the user behind it.
//!
//! A session is a record owned by its user; its identifier is the bearer token.
//! Each authentication looks the session up, removes the owner's sessions that
//! have run out, and only then decides: a session that has run out is refused
//! even though it was found a moment before.

use vstd::prelude::*;
use crate::arena::{
    flat, index_of, lemma_index_unique, lemma_pruned, present, pruned, stale,
    well_formed, Arena, Expires, Failure, Record,
};
use crate::client_info::{ClientInfo, IpNetwork};
use crate::ids::{parse_id, parsed_id, Id};
use crate::responses::{
    message_response, APIResponse, Status, INTERNAL_SERVER_ERROR,
    UNAUTHORIZED,
};
use crate::text::{remove_pattern, without_pattern};

verus! {

/// A user of the service. Times are counted in microseconds.
#[derive(Debug)]
pub struct UserModel {
    pub id: Id,
    pub username: String,
    pub created_at: i64,
    pub updated_at: i64,
}

impl Clone for UserModel {
    /// A copy with the same fields.
    fn clone(&self) -> (copy: UserModel)
        ensures
            copy == *self,
    {
        UserModel {
            id: self.id,
            username: self.username.clone(),
            created_at: self.created_at,
            updated_at: self.updated_at,
        }
    }
}

/// The caller that a request was authenticated as.
#[derive(Debug)]
pub struct Auth<T>(pub T);

impl<T> Auth<T> {
    /// The authenticated value.
    pub fn deref(&self) -> (inner: &T)
        ensures
            *inner == self.0,
    {
        &self.0
    }

    /// Gives the authenticated value up.
    pub fn into_inner(self) -> (inner: T)
        ensures
            inner == self.0,
    {
        self.0
    }
}

/// What a session holds besides its identifier and its user. Times are counted
/// in microseconds.
#[derive(Debug)]
pub struct SessionFields {
    pub ip: IpNetwork,
    pub platform: String,
    pub user_agent: String,
    pub created_at: i64,
    pub expire_at: i64,
}

impl Expires for SessionFields {
    open spec fn expiry(&self) -> int {
        self.expire_at as int
    }

    fn expires_at(&self) -> (at: i64) {
        self.expire_at
    }
}

/// Why a request was not authenticated.
#[derive(Debug, Clone, Copy, PartialEq, Eq, Structural)]
pub enum GuardFailure {
    /// The request has no authorization header, or more than one.
    MissingHeader,
    /// The bearer token is not an identifier.
    MalformedToken,
    /// No connection to the storage could be had.
    DatabaseUnavailable,
    /// No session has this token.
    InvalidToken,
    /// Removing the sessions that have run out failed.
    PruneFailed,
    /// The session has run out.
    Expired,
    /// The session names a user that does not exist.
    InvalidUser,
    /// The storage answered something that was not asked for.
    Unexpected,
}

impl GuardFailure {
    /// Whether the failure is the client's: those are `401`, the others `500`.
    pub open spec fn is_unauthorized(self) -> bool {
        self is MissingHeader || self is MalformedToken || self is InvalidToken || self is Expired
    }

    /// The status that the failure is answered with.
    pub open spec fn status_code(self) -> u16 {
        if self.is_unauthorized() {
            UNAUTHORIZED
        } else {
            INTERNAL_SERVER_ERROR
        }
    }

    /// The message that the failure is answered with.
    pub open spec fn message_text(self) -> Seq<char> {
        match self {
            GuardFailure::MissingHeader => "Missing authorization header."@,
            GuardFailure::MalformedToken => "Bearer session token must be valid UUID."@,
            GuardFailure::DatabaseUnavailable => "Could not fetch database."@,
            GuardFailure::InvalidToken => "Invalid session token."@,
            GuardFailure::PruneFailed => "Pruning expired sessions failed."@,
            GuardFailure::Expired => "Session has expired."@,
            GuardFailure::InvalidUser => "Session points to invalid user."@,
            GuardFailure::Unexpected => "Unexpected answer from the database."@,
        }
    }

    /// The status that the failure is answered with.
    pub fn status(&self) -> (status: Status)
        ensures
            status.code == self.status_code(),
    {
        match self {
            GuardFailure::MissingHeader
            | GuardFailure::MalformedToken
            | GuardFailure::InvalidToken
            | GuardFailure::Expired => Status::new(UNAUTHORIZED),
            _ => Status::new(INTERNAL_SERVER_ERROR),
        }
    }

    /// The message that the failure is answered with.
    pub fn message(&self) -> (message: &'static str)
        ensures
            message@ == self.message_text(),
    {
        match self {
            GuardFailure::MissingHeader => "Missing authorization header.",
            GuardFailure::MalformedToken => "Bearer session token must be valid UUID.",
            GuardFailure::DatabaseUnavailable => "Could not fetch database.",
            GuardFailure::InvalidToken => "Invalid session token.",
            GuardFailure::PruneFailed => "Pruning expired sessions failed.",
            GuardFailure::Expired => "Session has expired.",
            GuardFailure::InvalidUser => "Session points to invalid user.",
            GuardFailure::Unexpected => "Unexpected answer from the database.",
        }
    }

    /// The response that the failure is answered with.
    pub fn response(&self) -> (response: APIResponse)
        ensures
            response@ == message_response(
                Status { code: self.status_code() },
                self.message_text(),
            ),
    {
        APIResponse::new_message(self.status(), self.message())
    }
}

/// The token that the authorization headers of a request carry. There must be
/// exactly one header; what is left of it when every `Bearer ` is taken out must
/// read as an identifier.
pub open spec fn token_of(headers: Seq<Seq<char>>) -> Result<Id, GuardFailure> {
    if headers.len() != 1 {
        Err(GuardFailure::MissingHeader)
    } else {
        match parsed_id(without_pattern(headers[0], "Bearer "@)) {
            Some(token) => Ok(token),
            None => Err(GuardFailure::MalformedToken),
        }
    }
}

/// What reading a token text as an identifier means for the guard.
pub open spec fn token_verdict(parsed: Option<Id>) -> Result<Id, GuardFailure> {
    match parsed {
        Some(token) => Ok(token),
        None => Err(GuardFailure::MalformedToken),
    }
}

/// Decides on a token text that was read: an identifier is the token, anything
/// else is a malformed token.
pub fn check_token(parsed: Option<Id>) -> (token: Result<Id, GuardFailure>)
    ensures
        token == token_verdict(parsed),
{
    match parsed {
        Some(token) => Ok(token),
        None => Err(GuardFailure::MalformedToken),
    }
}

/// Extracts the bearer token from the authorization headers of a request.
pub fn bearer_token(headers: &Vec<String>) -> (token: Result<Id, GuardFailure>)
    ensures
        token == token_of(crate::text::views(headers@)),
{
    if headers.len() != 1 {
        return Err(GuardFailure::MissingHeader);
    }
    let text = remove_pattern(headers[0].as_str(), "Bearer ");
    check_token(parse_id(text.as_str()))
}

/// What the guard needs to know of a session that was found.
#[derive(Debug, Clone, Copy, PartialEq, Eq, Structural)]
pub struct SessionSeen {
    pub user_id: Id,
    pub expire_at: i64,
}

/// Where the guard stands between two answers of the storage.
#[derive(Debug, Clone, Copy, PartialEq, Eq, Structural)]
pub enum GuardState {
    /// The session with this token was asked for.
    AwaitSession { token: Id },
    /// The sessions of this session's user are being pruned.
    AwaitPrune { session: SessionSeen },
    /// The user with this identifier was asked for.
    AwaitUser { user_id: Id },
}

/// What the storage answered.
#[derive(Debug)]
pub enum GuardEvent {
    /// The session that was asked for, if there is one.
    Session(Option<SessionSeen>),
    /// Whether pruning went through.
    Pruned(bool),
    /// The user that was asked for, if there is one.
    User(Option<UserModel>),
}

/// What the guard wants done next.
#[derive(Debug)]
pub enum GuardAction {
    /// Fetch the session with this token.
    FetchSession { token: Id },
    /// Delete the sessions of this user that have run out at `now`.
    Prune { user_id: Id, now: i64 },
    /// Fetch the user with this identifier.
    FetchUser { user_id: Id },
    /// Let the request through as this user.
    Admit(Auth<UserModel>),
    /// Refuse the request.
    Reject(GuardFailure),
}

/// One move of the guard: what to do, and where it stands afterwards. The guard
/// is done when it stands nowhere.
#[derive(Debug)]
pub struct GuardStep {
    pub next: Option<GuardState>,
    pub action: GuardAction,
}

/// The first move of the guard, from the authorization headers and from whether
/// a connection to the storage could be had.
pub open spec fn guard_start(headers: Seq<Seq<char>>, database_ready: bool) -> GuardStep {
    match token_of(headers) {
        Err(failure) => GuardStep { next: None, action: GuardAction::Reject(failure) },
        Ok(token) => if database_ready {
            GuardStep {
                next: Some(GuardState::AwaitSession { token }),
                action: GuardAction::FetchSession { token },
            }
        } else {
            GuardStep {
                next: None,
                action: GuardAction::Reject(GuardFailure::DatabaseUnavailable),
            }
        },
    }
}

/// The move of the guard on an answer of the storage.
///
/// A session that is found has its user's sessions pruned first. After the
/// pruning the session is looked at again: one that has run out at `now` is
/// refused. Only then is the user fetched.
pub open spec fn guard_move(state: GuardState, event: GuardEvent, now: i64) -> GuardStep {
    match (state, event) {
        (GuardState::AwaitSession { token }, GuardEvent::Session(Some(session))) => GuardStep {
            next: Some(GuardState::AwaitPrune { session }),
            action: GuardAction::Prune { user_id: session.user_id, now },
        },
        (GuardState::AwaitSession { token }, GuardEvent::Session(None)) => GuardStep {
            next: None,
            action: GuardAction::Reject(GuardFailure::InvalidToken),
        },
        (GuardState::AwaitPrune { session }, GuardEvent::Pruned(done)) => if !done {
            GuardStep { next: None, action: GuardAction::Reject(GuardFailure::PruneFailed) }
        } else if session.expire_at <= now {
            GuardStep { next: None, action: GuardAction::Reject(GuardFailure::Expired) }
        } else {
            GuardStep {
                next: Some(GuardState::AwaitUser { user_id: session.user_id }),
                action: GuardAction::FetchUser { user_id: session.user_id },
            }
        },
        (GuardState::AwaitUser { user_id }, GuardEvent::User(Some(user))) => GuardStep {
            next: None,
            action: GuardAction::Admit(Auth(user)),
        },
        (GuardState::AwaitUser { user_id }, GuardEvent::User(None)) => GuardStep {
            next: None,
            action: GuardAction::Reject(GuardFailure::InvalidUser),
        },
        _ => GuardStep { next: None, action: GuardAction::Reject(GuardFailure::Unexpected) },
    }
}

/// Starts the guard on a request.
pub fn guard_begin(headers: &Vec<String>, database_ready: bool) -> (step: GuardStep)
    ensures
        step == guard_start(crate::text::views(headers@), database_ready),
{
    match bearer_token(headers) {
        Err(failure) => GuardStep { next: None, action: GuardAction::Reject(failure) },
        Ok(token) => {
            if database_ready {
                GuardStep {
                    next: Some(GuardState::AwaitSession { token }),
                    action: GuardAction::FetchSession { token },
                }
            } else {
                GuardStep {
                    next: None,
                    action: GuardAction::Reject(GuardFailure::DatabaseUnavailable),
                }
            }
        },
    }
}

/// Moves the guard on an answer of the storage.
pub fn guard_step(state: GuardState, event: GuardEvent, now: i64) -> (step: GuardStep)
    ensures
        step == guard_move(state, event, now),
{
    match state {
        GuardState::AwaitSession { token } => match event {
            GuardEvent::Session(Some(session)) => GuardStep {
                next: Some(GuardState::AwaitPrune { session }),
                action: GuardAction::Prune { user_id: session.user_id, now },
            },
            GuardEvent::Session(None) => GuardStep {
                next: None,
                action: GuardAction::Reject(GuardFailure::InvalidToken),
            },
            _ => GuardStep { next: None, action: GuardAction::Reject(GuardFailure::Unexpected) },
        },
        GuardState::AwaitPrune { session } => match event {
            GuardEvent::Pruned(done) => {
                if !done {
                    GuardStep {
                        next: None,
                        action: GuardAction::Reject(GuardFailure::PruneFailed),
                    }
                } else if session.expire_at <= now {
                    GuardStep { next: None, action: GuardAction::Reject(GuardFailure::Expired) }
                } else {
                    GuardStep {
                        next: Some(GuardState::AwaitUser { user_id: session.user_id }),
                        action: GuardAction::FetchUser { user_id: session.user_id },
                    }
                }
            },
            _ => GuardStep { next: None, action: GuardAction::Reject(GuardFailure::Unexpected) },
        },
        GuardState::AwaitUser { user_id } => match event {
            GuardEvent::User(Some(user)) => GuardStep {
                next: None,
                action: GuardAction::Admit(Auth(user)),
            },
            GuardEvent::User(None) => GuardStep {
                next: None,
                action: GuardAction::Reject(GuardFailure::InvalidUser),
            },
            _ => GuardStep { next: None, action: GuardAction::Reject(GuardFailure::Unexpected) },
        },
    }
}

} // verus!

verus! {

/// The first user with this identifier, if there is one.
pub open spec fn user_with(users: Seq<UserModel>, id: Id) -> Option<UserModel>
    decreases users.len(),
{
    if users.len() == 0 {
        None
    } else if users[0].id == id {
        Some(users[0])
    } else {
        user_with(users.skip(1), id)
    }
}

/// Looks a user up by identifier.
pub fn find_user(users: &Vec<UserModel>, id: Id) -> (user: Option<UserModel>)
    ensures
        user == user_with(users@, id),
{
    let mut i: usize = 0;
    proof {
        assert(users@.skip(0) =~= users@);
    }
    while i < users.len()
        invariant
            i <= users.len(),
            user_with(users@, id) == user_with(users@.skip(i as int), id),
        decreases users.len() - i,
    {
        proof {
            assert(users@.skip(i as int)[0] == users@[i as int]);
            assert(users@.skip(i as int).skip(1) =~= users@.skip(i + 1));
        }
        if users[i].id == id {
            return Some(users[i].clone());
        }
        i += 1;
    }
    None
}

/// What the guard gets to know of the session with this token.
pub open spec fn seen(rows: Seq<Record<SessionFields>>, token: Id) -> Option<SessionSeen> {
    if present(rows, token) {
        let r = rows[index_of(rows, token)];
        Some(SessionSeen { user_id: r.owner, expire_at: r.payload.expire_at })
    } else {
        None
    }
}

/// The sessions after a request was authenticated, or refused: where a session
/// was found for the token, the sessions of its user that have run out at `now`
/// are gone.
pub open spec fn sessions_after(
    rows: Seq<Record<SessionFields>>,
    headers: Seq<Seq<char>>,
    now: int,
) -> Seq<Record<SessionFields>> {
    match token_of(headers) {
        Ok(token) => match seen(rows, token) {
            Some(session) => pruned(rows, session.user_id, now),
            None => rows,
        },
        Err(_) => rows,
    }
}

/// Whom a request is authenticated as, or why it is refused.
pub open spec fn auth_verdict(
    rows: Seq<Record<SessionFields>>,
    users: Seq<UserModel>,
    headers: Seq<Seq<char>>,
    now: int,
) -> Result<UserModel, GuardFailure> {
    match token_of(headers) {
        Err(failure) => Err(failure),
        Ok(token) => match seen(rows, token) {
            None => Err(GuardFailure::InvalidToken),
            Some(session) => if session.expire_at <= now {
                Err(GuardFailure::Expired)
            } else {
                match user_with(users, session.user_id) {
                    Some(user) => Ok(user),
                    None => Err(GuardFailure::InvalidUser),
                }
            },
        },
    }
}

/// When a new session runs out: `duration` after `now`, where that is a time
/// that can be counted.
pub open spec fn session_expiry(now: i64, duration: i64) -> Option<i64> {
    if i64::MIN <= now + duration <= i64::MAX {
        Some((now + duration) as i64)
    } else {
        None
    }
}

/// The fields of a session that is opened at `now` for `duration`.
pub fn new_session(client_info: &ClientInfo, now: i64, duration: i64) -> (fields: Option<
    SessionFields,
>)
    ensures
        match session_expiry(now, duration) {
            Some(expire_at) => {
                &&& fields is Some
                &&& fields->0.ip == client_info.ip
                &&& fields->0.platform@ == client_info.platform.name()
                &&& fields->0.user_agent@ == client_info.user_agent@
                &&& fields->0.created_at == now
                &&& fields->0.expire_at == expire_at
            },
            None => fields is None,
        },
{
    match now.checked_add(duration) {
        Some(expire_at) => Some(
            SessionFields {
                ip: client_info.ip,
                platform: client_info.platform.to_string(),
                user_agent: client_info.user_agent.clone(),
                created_at: now,
                expire_at,
            },
        ),
        None => None,
    }
}

/// The sessions of all users.
#[derive(Debug)]
pub struct Sessions {
    arena: Arena<SessionFields>,
}

impl View for Sessions {
    type V = Seq<Record<SessionFields>>;

    closed spec fn view(&self) -> Seq<Record<SessionFields>> {
        self.arena@
    }
}

impl Sessions {
    /// The invariant: sessions have distinct tokens and none hangs under
    /// another.
    pub open spec fn wf(&self) -> bool {
        well_formed(self@) && flat(self@)
    }

    /// No sessions.
    pub fn new() -> (sessions: Sessions)
        ensures
            sessions@ == Seq::<Record<SessionFields>>::empty(),
            sessions.wf(),
    {
        Sessions { arena: Arena::new() }
    }

    /// The sessions as records, for listing, fetching and counting.
    pub fn records(&self) -> (arena: &Arena<SessionFields>)
        ensures
            arena@ == self@,
    {
        &self.arena
    }

    /// Opens a session with the given fields for a user under the token `id`.
    /// Fails where the token is taken.
    pub fn open(&mut self, id: Id, user_id: Id, fields: SessionFields) -> (opened: Option<Id>)
        requires
            old(self).wf(),
        ensures
            final(self).wf(),
            opened is Some <==> !present(old(self)@, id),
            opened is None ==> final(self)@ == old(self)@,
            opened is Some ==> {
                &&& opened == Some(id)
                &&& final(self)@ == old(self)@.push(
                    Record { id, owner: user_id, parent: None, payload: fields },
                )
            },
    {
        match self.arena.create(id, user_id, None, fields) {
            Ok(id) => Some(id),
            Err(_) => None,
        }
    }

    /// Opens a session for a user under the token `id`, from `now` for
    /// `duration`. Fails where the token is taken or the time cannot be counted.
    pub fn create_session(
        &mut self,
        id: Id,
        user_id: Id,
        client_info: &ClientInfo,
        now: i64,
        duration: i64,
    ) -> (created: Option<Id>)
        requires
            old(self).wf(),
        ensures
            final(self).wf(),
            created is Some <==> session_expiry(now, duration) is Some && !present(
                old(self)@,
                id,
            ),
            created is None ==> final(self)@ == old(self)@,
            created is Some ==> {
                let last = final(self)@.last();
                &&& created == Some(id)
                &&& final(self)@.len() == old(self)@.len() + 1
                &&& final(self)@.drop_last() == old(self)@
                &&& last.id == id
                &&& last.owner == user_id
                &&& last.parent is None
                &&& last.payload.created_at == now
                &&& Some(last.payload.expire_at) == session_expiry(now, duration)
                &&& last.payload.ip == client_info.ip
                &&& last.payload.platform@ == client_info.platform.name()
                &&& last.payload.user_agent@ == client_info.user_agent@
            },
    {
        let fields = match new_session(client_info, now, duration) {
            Some(fields) => fields,
            None => {
                return None;
            },
        };
        let ghost before = self@;
        let opened = self.open(id, user_id, fields);
        proof {
            if opened is Some {
                assert(self@.drop_last() =~= before);
            }
        }
        opened
    }

    /// Closes the caller's session with this token.
    pub fn delete(&mut self, owner: Id, id: Id) -> (deleted: Result<(), Failure>)
        requires
            old(self).wf(),
        ensures
            final(self).wf(),
            match crate::arena::delete_result(old(self)@, owner, id) {
                Ok(rows) => deleted is Ok && final(self)@ == rows,
                Err(failure) => deleted == Err::<(), Failure>(failure) && final(self)@ == old(
                    self,
                )@,
            },
    {
        let ghost before = self@;
        let deleted = self.arena.delete(owner, id);
        proof {
            if deleted is Ok {
                let i = index_of(before, id);
                let after = self@;
                assert forall|k: int| 0 <= k < after.len() implies (#[trigger] after[k]).parent
                    is None by {
                    let back = if k < i { k } else { k + 1 };
                    assert(before.remove(i)[k] == before[back]);
                }
            }
        }
        deleted
    }

    /// What the guard gets to know of the session with this token.
    pub fn look_up(&self, token: Id) -> (session: Option<SessionSeen>)
        requires
            self.wf(),
        ensures
            session == seen(self@, token),
    {
        match self.arena.position(token) {
            Some(i) => {
                proof {
                    lemma_index_unique(self@, i as int);
                }
                match self.arena.at(i) {
                    record => Some(
                        SessionSeen { user_id: record.owner, expire_at: record.payload.expire_at },
                    ),
                }
            },
            None => None,
        }
    }

    /// Authenticates a request at the time `now`: finds the session for the
    /// bearer token, removes the sessions of its user that have run out, refuses
    /// a session that has run out, and resolves the user.
    pub fn authenticate(
        &mut self,
        users: &Vec<UserModel>,
        headers: &Vec<String>,
        now: i64,
    ) -> (admitted: Result<Auth<UserModel>, GuardFailure>)
        requires
            old(self).wf(),
        ensures
            final(self).wf(),
            final(self)@ == sessions_after(old(self)@, crate::text::views(headers@), now as int),
            match auth_verdict(old(self)@, users@, crate::text::views(headers@), now as int) {
                Ok(user) => admitted is Ok && admitted->Ok_0.0 == user,
                Err(failure) => admitted == Err::<Auth<UserModel>, GuardFailure>(failure),
            },
    {
        let first = guard_begin(headers, true);
        let (state, token) = match (first.next, first.action) {
            (Some(state), GuardAction::FetchSession { token }) => (state, token),
            (_, GuardAction::Reject(failure)) => {
                return Err(failure);
            },
            _ => {
                return Err(GuardFailure::Unexpected);
            },
        };
        let found = self.look_up(token);
        let second = guard_step(state, GuardEvent::Session(found), now);
        let (state, user_id) = match (second.next, second.action) {
            (Some(state), GuardAction::Prune { user_id, now }) => (state, user_id),
            (_, GuardAction::Reject(failure)) => {
                return Err(failure);
            },
            _ => {
                return Err(GuardFailure::Unexpected);
            },
        };
        self.arena.prune(user_id, now);
        let third = guard_step(state, GuardEvent::Pruned(true), now);
        let (state, user_id) = match (third.next, third.action) {
            (Some(state), GuardAction::FetchUser { user_id }) => (state, user_id),
            (_, GuardAction::Reject(failure)) => {
                return Err(failure);
            },
            _ => {
                return Err(GuardFailure::Unexpected);
            },
        };
        let user = find_user(users, user_id);
        let fourth = guard_step(state, GuardEvent::User(user), now);
        match fourth.action {
            GuardAction::Admit(auth) => Ok(auth),
            GuardAction::Reject(failure) => Err(failure),
            _ => Err(GuardFailure::Unexpected),
        }
    }
}

/// Session pruning: a request with the token of a session that has run out is
/// refused as unauthorized, and afterwards the session is gone, so that no
/// later request can use its token either, whenever it comes.
pub proof fn lemma_expired_session_is_pruned(
    rows: Seq<Record<SessionFields>>,
    users: Seq<UserModel>,
    headers: Seq<Seq<char>>,
    now: int,
    later_headers: Seq<Seq<char>>,
    later: int,
)
    requires
        well_formed(rows),
        token_of(headers) is Ok,
        present(rows, token_of(headers)->Ok_0),
        rows[index_of(rows, token_of(headers)->Ok_0)].payload.expire_at <= now,
        token_of(later_headers) == token_of(headers),
    ensures
        auth_verdict(rows, users, headers, now) == Err::<UserModel, GuardFailure>(
            GuardFailure::Expired,
        ),
        GuardFailure::Expired.status_code() == UNAUTHORIZED,
        !present(sessions_after(rows, headers, now), token_of(headers)->Ok_0),
        auth_verdict(sessions_after(rows, headers, now), users, later_headers, later) == Err::<
            UserModel,
            GuardFailure,
        >(GuardFailure::InvalidToken),
        GuardFailure::InvalidToken.status_code() == UNAUTHORIZED,
{
    let token = token_of(headers)->Ok_0;
    let session = rows[index_of(rows, token)];
    lemma_pruned(rows, session.owner, now, token);
}

/// Pruning touches nobody else: the sessions of other users, and the caller's
/// sessions that still run, are exactly what is left.
pub proof fn lemma_prune_keeps_the_rest(
    rows: Seq<Record<SessionFields>>,
    headers: Seq<Seq<char>>,
    now: int,
    id: Id,
)
    requires
        well_formed(rows),
        token_of(headers) is Ok,
        present(rows, token_of(headers)->Ok_0),
    ensures
        ({
            let user = rows[index_of(rows, token_of(headers)->Ok_0)].owner;
            present(sessions_after(rows, headers, now), id) <==> present(rows, id) && !stale(
                rows[index_of(rows, id)],
                user,
                now,
            )
        }),
{
    let user = rows[index_of(rows, token_of(headers)->Ok_0)].owner;
    lemma_pruned(rows, user, now, id);
}

} // verus!

verus! {

/// The statement that fetches the session with a token.
pub const SESSION_QUERY: &'static str = "SELECT * FROM sessions WHERE id = $1";

/// The statement that removes the sessions of a user that have run out at the
/// time given as second parameter.
pub const PRUNE_QUERY: &'static str =
    "DELETE FROM sessions WHERE user_id = $1 AND $2 >= expire_at";

/// The statement that fetches the user of a session.
pub const USER_QUERY: &'static str = "SELECT * FROM users WHERE id = $1";

} // verus!

verus! {

/// Something a user did, as it is stored. The time is counted in microseconds.
#[derive(Debug)]
pub struct ActionModel {
    pub id: Id,
    pub user_id: Id,
    pub created_at: i64,
    pub action_type: String,
    pub data: crate::json::Value,
}

} // verus!
