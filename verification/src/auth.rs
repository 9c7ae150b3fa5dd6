//! Registration and login: e-mail address with password, and an outside
//! identity.

use vstd::prelude::*;
use vstd::string::StringExecFns;
use crate::arena::present;
use crate::client_info::ClientInfo;
use crate::crud::{result_view, DbError};
use crate::guard::{new_session, session_expiry, SessionFields, Sessions, UserModel};
use crate::ids::{hyphenated, id_to_string, Id};
use crate::json::{lemma_object_view, Value, ValueView};
use crate::mounting::{route, Method, Rocket, RouteView};
use crate::responses::{
    bad_request, internal_server_error, message_response, ok, unauthorized, APIResponse,
    APIResponseView, APIResult, Status, BAD_REQUEST, INTERNAL_SERVER_ERROR, OK, UNAUTHORIZED,
};
use crate::text::same_text;
use crate::validation::{
    checked, email_error, email_is_valid, invalid_answer, noted, registration_errors,
    registration_ok, EmailUserLogin, EmailUserRegistration,
};

verus! {

/// The digest of a password under a salt.
pub uninterp spec fn argon2i_digest(password: Seq<char>, salt: Seq<char>) -> Seq<u8>;

/// Whether a password and a salt can be hashed: the salt has eight bytes or
/// more, and neither is longer than a 32-bit length can say.
pub open spec fn hashable(password: Seq<char>, salt: Seq<char>) -> bool {
    8 <= byte_length(salt) <= 0xffff_ffff && byte_length(password) <= 0xffff_ffff
}

/// The number of bytes that a text takes, as the machine counts it.
pub open spec fn byte_length(text: Seq<char>) -> usize {
    vstd::utf8::encode_utf8(text).len() as usize
}

/// Hashes a password under a salt.
///
/// Trusted: stands for `argon2i_simple` of the argon2rs crate, which derives 32
/// bytes from the password and the salt with its default parameters. It stops
/// the program on a salt of less than eight bytes, or on lengths beyond 32 bits:
/// those are left out. The digest depends on the two texts alone, so the
/// contract names it.
#[verifier::external_body]
fn argon2i(password: &str, salt: &str) -> (digest: Vec<u8>)
    requires
        hashable(password@, salt@),
    ensures
        digest@ == argon2i_digest(password@, salt@),
        digest@.len() == 32,
{
    argon2rs::argon2i_simple(password, salt).to_vec()
}

impl UserModel {
    /// The digest that is stored in place of a password.
    pub fn make_password_hash(password: &str, salt: &str) -> (digest: Vec<u8>)
        requires
            hashable(password@, salt@),
        ensures
            digest@ == argon2i_digest(password@, salt@),
            digest@.len() == 32,
    {
        argon2i(password, salt)
    }
}

/// The digest that is stored in place of a password, or nothing where the
/// password and the salt cannot be hashed.
pub fn password_hash(password: &str, salt: &str) -> (digest: Option<Vec<u8>>)
    ensures
        digest is Some <==> hashable(password@, salt@),
        digest is Some ==> digest->0@ == argon2i_digest(password@, salt@),
{
    if salt.len() >= 8 && salt.len() <= 0xffff_ffff && password.len() <= 0xffff_ffff {
        Some(UserModel::make_password_hash(password, salt))
    } else {
        None
    }
}

/// Whether two digests are the same bytes.
pub fn same_bytes(a: &Vec<u8>, b: &Vec<u8>) -> (same: bool)
    ensures
        same == (a@ == b@),
{
    if a.len() != b.len() {
        return false;
    }
    let mut i: usize = 0;
    while i < a.len()
        invariant
            i <= a.len(),
            a.len() == b.len(),
            a@.take(i as int) == b@.take(i as int),
        decreases a.len() - i,
    {
        if a[i] != b[i] {
            return false;
        }
        assert(a@.take(i + 1) =~= a@.take(i as int).push(a@[i as int]));
        assert(b@.take(i + 1) =~= b@.take(i as int).push(b@[i as int]));
        i += 1;
    }
    assert(a@.take(a.len() as int) =~= a@);
    assert(b@.take(b.len() as int) =~= b@);
    true
}

/// A login with e-mail address and password.
#[derive(Debug)]
pub struct EmailUserLoginModel {
    pub user_id: Id,
    pub email: String,
    pub password_hash: Vec<u8>,
}

/// A login with an identity of Discord.
#[derive(Debug)]
pub struct DiscordUserLoginModel {
    pub user_id: Id,
    pub client_id: String,
}

/// What a login hands to the client.
#[derive(Debug, Clone, Copy, PartialEq, Eq, Structural)]
pub struct SessionPayload {
    pub user_id: Id,
    pub session_token: Id,
}

/// The body `{"user_id": ..., "session_token": ...}`.
pub open spec fn payload_body(payload: SessionPayload) -> ValueView {
    ValueView::Object(
        seq![
            ("user_id"@, ValueView::String(hyphenated(payload.user_id))),
            ("session_token"@, ValueView::String(hyphenated(payload.session_token))),
        ],
    )
}

/// The payload as one line of JSON, the keys in alphabetical order.
pub open spec fn payload_text(payload: SessionPayload) -> Seq<char> {
    "{\"session_token\":\""@ + hyphenated(payload.session_token) + "\",\"user_id\":\""@
        + hyphenated(payload.user_id) + "\"}"@
}

/// The page that hands a payload to the window that opened the login.
pub open spec fn callback_page(payload: Seq<char>) -> Seq<char> {
    "<html><head><title>Authenticate</title></head><body></body><script>res = "@ + payload
        + "; window.opener.postMessage(res, \"*\");window.close();</script></html>"@
}

impl SessionPayload {
    /// The payload as JSON data.
    pub fn to_json(&self) -> (body: Value)
        ensures
            body@ == payload_body(*self),
    {
        let mut members: Vec<(String, Value)> = Vec::new();
        members.push(("user_id".to_owned(), Value::String(id_to_string(self.user_id))));
        members.push(
            ("session_token".to_owned(), Value::String(id_to_string(self.session_token))),
        );
        let body = Value::Object(members);
        proof {
            lemma_object_view(body);
            assert(members[0].1@ == ValueView::String(hyphenated(self.user_id)));
            assert(members[1].1@ == ValueView::String(hyphenated(self.session_token)));
            assert(body@->Object_0 =~= payload_body(*self)->Object_0);
        }
        body
    }

    /// The payload as one line of JSON.
    pub fn to_json_text(&self) -> (text: String)
        ensures
            text@ == payload_text(*self),
    {
        let mut text = String::from_str("{\"session_token\":\"");
        let token = id_to_string(self.session_token);
        text.append(token.as_str());
        text.append("\",\"user_id\":\"");
        let user = id_to_string(self.user_id);
        text.append(user.as_str());
        text.append("\"}");
        text
    }
}

/// Writes the page that hands a payload to the window that opened the login.
pub fn render_callback_page(payload: &str) -> (page: String)
    ensures
        page@ == callback_page(payload@),
{
    let mut page = String::from_str(
        "<html><head><title>Authenticate</title></head><body></body><script>res = ",
    );
    page.append(payload);
    page.append("; window.opener.postMessage(res, \"*\");window.close();</script></html>");
    page
}

/// The users and their logins.
#[derive(Debug)]
pub struct Accounts {
    pub users: Vec<UserModel>,
    pub email_logins: Vec<EmailUserLoginModel>,
    pub discord_logins: Vec<DiscordUserLoginModel>,
}

/// The place of the first login with this e-mail address, or the number of
/// logins where there is none.
pub open spec fn email_place(logins: Seq<EmailUserLoginModel>, email: Seq<char>) -> int
    decreases logins.len(),
{
    if logins.len() == 0 {
        0
    } else if logins[0].email@ == email {
        0
    } else {
        1 + email_place(logins.skip(1), email)
    }
}

/// Whether a login with this e-mail address exists.
pub open spec fn email_taken(logins: Seq<EmailUserLoginModel>, email: Seq<char>) -> bool {
    email_place(logins, email) < logins.len()
}

/// The place of the first login with this identity, or the number of logins
/// where there is none.
pub open spec fn discord_place(logins: Seq<DiscordUserLoginModel>, client_id: Seq<char>) -> int
    decreases logins.len(),
{
    if logins.len() == 0 {
        0
    } else if logins[0].client_id@ == client_id {
        0
    } else {
        1 + discord_place(logins.skip(1), client_id)
    }
}

/// Whether some user has this identifier.
pub open spec fn user_exists(users: Seq<UserModel>, id: Id) -> bool {
    exists|i: int| 0 <= i < users.len() && (#[trigger] users[i]).id == id
}

/// The place of a login is within the logins, or it is their number.
pub proof fn lemma_discord_place(logins: Seq<DiscordUserLoginModel>, client_id: Seq<char>)
    ensures
        0 <= discord_place(logins, client_id) <= logins.len(),
        discord_place(logins, client_id) < logins.len() ==> logins[discord_place(
            logins,
            client_id,
        )].client_id@ == client_id,
    decreases logins.len(),
{
    if logins.len() > 0 && logins[0].client_id@ != client_id {
        lemma_discord_place(logins.skip(1), client_id);
    }
}

impl Accounts {
    /// No users.
    pub fn new() -> (accounts: Accounts)
        ensures
            accounts.users@.len() == 0,
            accounts.email_logins@.len() == 0,
            accounts.discord_logins@.len() == 0,
    {
        Accounts { users: Vec::new(), email_logins: Vec::new(), discord_logins: Vec::new() }
    }

    /// The place of the login with this e-mail address.
    pub fn find_email(&self, email: &str) -> (place: usize)
        ensures
            place == email_place(self.email_logins@, email@),
            place <= self.email_logins@.len(),
    {
        let ghost all = self.email_logins@;
        let mut i: usize = 0;
        proof {
            assert(all.skip(0) =~= all);
        }
        while i < self.email_logins.len()
            invariant
                i <= self.email_logins.len(),
                all == self.email_logins@,
                email_place(all, email@) == i + email_place(all.skip(i as int), email@),
            decreases self.email_logins.len() - i,
        {
            proof {
                assert(all.skip(i as int)[0] == all[i as int]);
                assert(all.skip(i as int).skip(1) =~= all.skip(i + 1));
            }
            if same_text(self.email_logins[i].email.as_str(), email) {
                return i;
            }
            i += 1;
        }
        proof {
            assert(all.skip(all.len() as int) =~= Seq::<EmailUserLoginModel>::empty());
        }
        i
    }

    /// The place of the login with this identity.
    pub fn find_discord(&self, client_id: &str) -> (place: usize)
        ensures
            place == discord_place(self.discord_logins@, client_id@),
            place <= self.discord_logins@.len(),
    {
        let ghost all = self.discord_logins@;
        let mut i: usize = 0;
        proof {
            assert(all.skip(0) =~= all);
        }
        while i < self.discord_logins.len()
            invariant
                i <= self.discord_logins.len(),
                all == self.discord_logins@,
                discord_place(all, client_id@) == i + discord_place(
                    all.skip(i as int),
                    client_id@,
                ),
            decreases self.discord_logins.len() - i,
        {
            proof {
                assert(all.skip(i as int)[0] == all[i as int]);
                assert(all.skip(i as int).skip(1) =~= all.skip(i + 1));
            }
            if same_text(self.discord_logins[i].client_id.as_str(), client_id) {
                return i;
            }
            i += 1;
        }
        proof {
            assert(all.skip(all.len() as int) =~= Seq::<DiscordUserLoginModel>::empty());
        }
        i
    }

    /// Whether some user has this identifier.
    pub fn has_user(&self, id: Id) -> (found: bool)
        ensures
            found == user_exists(self.users@, id),
    {
        let mut i: usize = 0;
        while i < self.users.len()
            invariant
                i <= self.users.len(),
                forall|k: int| 0 <= k < i ==> (#[trigger] self.users@[k]).id != id,
            decreases self.users.len() - i,
        {
            if self.users[i].id == id {
                return true;
            }
            i += 1;
        }
        false
    }
}

} // verus!

verus! {

/// Why a registration or a login did not go through.
#[derive(Debug, Clone, Copy, PartialEq, Eq, Structural)]
pub enum AuthFailure {
    /// A login with this e-mail address exists.
    EmailTaken,
    /// The user could not be created.
    UserNotCreated,
    /// The login could not be created.
    LoginNotCreated,
    /// No login has this e-mail address.
    UnknownEmail,
    /// The password is not the one of the login.
    WrongPassword,
    /// The session could not be opened.
    SessionNotCreated,
    /// The storage could not be asked.
    Storage,
}

impl AuthFailure {
    /// The status that the failure is answered with.
    pub open spec fn status_code(self) -> u16 {
        match self {
            AuthFailure::EmailTaken => BAD_REQUEST,
            AuthFailure::UserNotCreated => INTERNAL_SERVER_ERROR,
            AuthFailure::LoginNotCreated => INTERNAL_SERVER_ERROR,
            AuthFailure::UnknownEmail => UNAUTHORIZED,
            AuthFailure::WrongPassword => UNAUTHORIZED,
            AuthFailure::SessionNotCreated => INTERNAL_SERVER_ERROR,
            AuthFailure::Storage => INTERNAL_SERVER_ERROR,
        }
    }

    /// The message that the failure is answered with.
    pub open spec fn message_text(self) -> Seq<char> {
        match self {
            AuthFailure::EmailTaken => "Email is already taken."@,
            AuthFailure::UserNotCreated => "Failed to create new user."@,
            AuthFailure::LoginNotCreated => "Failed to create email login."@,
            AuthFailure::UnknownEmail => "Username or password is incorrect."@,
            AuthFailure::WrongPassword => "Username or password is incorrect."@,
            AuthFailure::SessionNotCreated => "Failed to create session."@,
            AuthFailure::Storage => "Error accessing database."@,
        }
    }

    /// The answer to the failure.
    pub open spec fn answer(self) -> APIResponseView {
        message_response(Status { code: self.status_code() }, self.message_text())
    }

    /// The response that the failure is answered with.
    pub fn response(&self) -> (response: APIResponse)
        ensures
            response@ == self.answer(),
    {
        match self {
            AuthFailure::EmailTaken => bad_request("Email is already taken."),
            AuthFailure::UserNotCreated => internal_server_error("Failed to create new user."),
            AuthFailure::LoginNotCreated => internal_server_error(
                "Failed to create email login.",
            ),
            AuthFailure::UnknownEmail => unauthorized("Username or password is incorrect."),
            AuthFailure::WrongPassword => unauthorized("Username or password is incorrect."),
            AuthFailure::SessionNotCreated => internal_server_error("Failed to create session."),
            AuthFailure::Storage => internal_server_error("Error accessing database."),
        }
    }
}

/// Whether a registration with a valid body goes through, or why not. The
/// e-mail address must be free, the password must be hashable under the salt,
/// and the identifier for the user must be free.
pub open spec fn registration_verdict(
    accounts: &Accounts,
    salt: &str,
    input: &EmailUserRegistration,
    new_user_id: Id,
) -> Result<(), AuthFailure> {
    match registration_plan(input, salt@, Ok(email_taken(accounts.email_logins@, input.email@))) {
        Err(failure) => Err(failure),
        Ok(_) => if user_exists(accounts.users@, new_user_id) {
            Err(AuthFailure::UserNotCreated)
        } else {
            Ok(())
        },
    }
}

/// What a registration with a valid body stores as digest, from what the
/// storage said of the e-mail address, or why it is refused.
pub open spec fn registration_plan(
    input: &EmailUserRegistration,
    salt: Seq<char>,
    taken: Result<bool, DbError>,
) -> Result<Seq<u8>, AuthFailure> {
    match taken {
        Err(_) => Err(AuthFailure::Storage),
        Ok(true) => Err(AuthFailure::EmailTaken),
        Ok(false) => if hashable(input.password@, salt) {
            Ok(argon2i_digest(input.password@, salt))
        } else {
            Err(AuthFailure::LoginNotCreated)
        },
    }
}

/// The answer to a registration whose body fails validation: `400` with the
/// errors of the body.
pub open spec fn registration_refused(input: &EmailUserRegistration) -> APIResponseView {
    invalid_answer(registration_errors(input.email@, input.password@, input.username@))
}

/// What a registration does: nothing but an answer of `400` where the body
/// fails validation, and otherwise what [`registration_verdict`] says.
pub open spec fn registration_outcome(
    accounts: &Accounts,
    salt: &str,
    input: &EmailUserRegistration,
    new_user_id: Id,
) -> Result<(), APIResponseView> {
    if !registration_ok(input.email@, input.password@, input.username@) {
        Err(registration_refused(input))
    } else {
        match registration_verdict(accounts, salt, input, new_user_id) {
            Ok(_) => Ok(()),
            Err(failure) => Err(failure.answer()),
        }
    }
}

/// Starts a registration: the body is validated before the storage is asked
/// anything.
pub fn registration_begin(input: &EmailUserRegistration) -> (go: Result<(), APIResponse>)
    ensures
        go is Ok <==> registration_ok(input.email@, input.password@, input.username@),
        go is Err ==> go->Err_0@ == registration_refused(input),
{
    checked(input.validate())
}

/// Goes on with a registration after the storage said whether the e-mail
/// address is taken: the digest to store, or the response that refuses the
/// registration. The body is validated here too, so that no body gets past
/// unvalidated.
pub fn registration_found(
    input: &EmailUserRegistration,
    salt: &str,
    taken: Result<bool, DbError>,
) -> (digest: Result<Vec<u8>, APIResponse>)
    ensures
        match digest {
            Ok(d) => registration_ok(input.email@, input.password@, input.username@)
                && registration_plan(input, salt@, taken) == Ok::<Seq<u8>, AuthFailure>(d@),
            Err(response) => if !registration_ok(
                input.email@,
                input.password@,
                input.username@,
            ) {
                response@ == registration_refused(input)
            } else {
                registration_plan(input, salt@, taken) is Err && response@ == registration_plan(
                    input,
                    salt@,
                    taken,
                )->Err_0.answer()
            },
        },
{
    if let Err(response) = registration_begin(input) {
        return Err(response);
    }
    match taken {
        Err(_) => Err(AuthFailure::Storage.response()),
        Ok(true) => Err(AuthFailure::EmailTaken.response()),
        Ok(false) => match password_hash(input.password.as_str(), salt) {
            Some(digest) => Ok(digest),
            None => Err(AuthFailure::LoginNotCreated.response()),
        },
    }
}

/// The answer to the end of a registration.
pub open spec fn registration_answer(created: Result<(), AuthFailure>) -> Result<
    APIResponseView,
    APIResponseView,
> {
    match created {
        Ok(_) => Ok(message_response(Status { code: OK }, "Email registration worked!"@)),
        Err(failure) => Err(failure.answer()),
    }
}

/// Answers the end of a registration: what creating the user and the login
/// gave.
pub fn registration_reply(created: Result<(), AuthFailure>) -> (result: APIResult)
    ensures
        result_view(result) == registration_answer(created),
{
    match created {
        Ok(_) => Ok(ok("Email registration worked!")),
        Err(failure) => Err(failure.response()),
    }
}

/// Registers a user with e-mail address and password, under the identifier
/// `new_user_id`, at the time `now`. A body that fails validation is refused
/// with `400` before anything is looked at. The user and the login are created
/// together or not at all.
pub fn email_registeration(
    accounts: &mut Accounts,
    salt: &str,
    input: &EmailUserRegistration,
    new_user_id: Id,
    now: i64,
) -> (result: APIResult)
    ensures
        final(accounts).discord_logins == old(accounts).discord_logins,
        match registration_outcome(old(accounts), salt, input, new_user_id) {
            Ok(_) => {
                &&& result_view(result) == Ok::<APIResponseView, APIResponseView>(
                    message_response(Status { code: OK }, "Email registration worked!"@),
                )
                &&& registered(old(accounts), final(accounts), input, salt@, new_user_id, now)
            },
            Err(answer) => {
                &&& result_view(result) == Err::<APIResponseView, APIResponseView>(answer)
                &&& final(accounts).users == old(accounts).users
                &&& final(accounts).email_logins == old(accounts).email_logins
            },
        },
{
    if let Err(response) = registration_begin(input) {
        return Err(response);
    }
    let taken = accounts.find_email(input.email.as_str()) < accounts.email_logins.len();
    let digest = match registration_found(input, salt, Ok(taken)) {
        Ok(digest) => digest,
        Err(response) => {
            return Err(response);
        },
    };
    if accounts.has_user(new_user_id) {
        return registration_reply(Err(AuthFailure::UserNotCreated));
    }
    let ghost users_before = accounts.users@;
    let ghost logins_before = accounts.email_logins@;
    accounts.users.push(
        UserModel {
            id: new_user_id,
            username: input.username.clone(),
            created_at: now,
            updated_at: now,
        },
    );
    accounts.email_logins.push(
        EmailUserLoginModel {
            user_id: new_user_id,
            email: input.email.clone(),
            password_hash: digest,
        },
    );
    proof {
        assert(accounts.users@.drop_last() =~= users_before);
        assert(accounts.email_logins@.drop_last() =~= logins_before);
    }
    registration_reply(Ok(()))
}

/// What the storage holds of a login: its user and the digest of its password.
#[derive(Debug)]
pub struct LoginSeen {
    pub user_id: Id,
    pub password_hash: Vec<u8>,
}

/// The user that a login with a valid body is for, from what the storage holds
/// for the e-mail address, or why the login is refused: the e-mail address must
/// be known, the password must hash to the stored digest, and the time when the
/// session runs out must be one that can be counted.
pub open spec fn login_plan(
    input: &EmailUserLogin,
    salt: Seq<char>,
    found: Result<Option<LoginSeen>, DbError>,
    now: i64,
    duration: i64,
) -> Result<Id, AuthFailure> {
    match found {
        Err(_) => Err(AuthFailure::UnknownEmail),
        Ok(None) => Err(AuthFailure::UnknownEmail),
        Ok(Some(login)) => if !hashable(input.password@, salt) || login.password_hash@
            != argon2i_digest(input.password@, salt) {
            Err(AuthFailure::WrongPassword)
        } else if session_expiry(now, duration) is None {
            Err(AuthFailure::SessionNotCreated)
        } else {
            Ok(login.user_id)
        },
    }
}

/// What the accounts hold for an e-mail address.
pub open spec fn login_seen(accounts: &Accounts, email: Seq<char>) -> Option<LoginSeen> {
    let logins = accounts.email_logins@;
    if email_taken(logins, email) {
        let login = logins[email_place(logins, email)];
        Some(LoginSeen { user_id: login.user_id, password_hash: login.password_hash })
    } else {
        None
    }
}

/// Whether a login with a valid body goes through, or why not: as
/// [`login_plan`] says, and the token for the session must be free.
pub open spec fn login_verdict(
    accounts: &Accounts,
    sessions: Seq<crate::arena::Record<SessionFields>>,
    salt: &str,
    input: &EmailUserLogin,
    new_session_id: Id,
    now: i64,
    duration: i64,
) -> Result<SessionPayload, AuthFailure> {
    match login_plan(input, salt@, Ok(login_seen(accounts, input.email@)), now, duration) {
        Err(failure) => Err(failure),
        Ok(user_id) => if present(sessions, new_session_id) {
            Err(AuthFailure::SessionNotCreated)
        } else {
            Ok(SessionPayload { user_id, session_token: new_session_id })
        },
    }
}

/// The answer to a login whose body fails validation: `400` with the error of
/// the e-mail address.
pub open spec fn login_refused() -> APIResponseView {
    invalid_answer(seq![email_error()])
}

/// What a login does: nothing but an answer of `400` where the body fails
/// validation, and otherwise what [`login_verdict`] says.
pub open spec fn login_outcome(
    accounts: &Accounts,
    sessions: Seq<crate::arena::Record<SessionFields>>,
    salt: &str,
    input: &EmailUserLogin,
    new_session_id: Id,
    now: i64,
    duration: i64,
) -> Result<SessionPayload, APIResponseView> {
    if !email_is_valid(input.email@) {
        Err(login_refused())
    } else {
        match login_verdict(accounts, sessions, salt, input, new_session_id, now, duration) {
            Ok(payload) => Ok(payload),
            Err(failure) => Err(failure.answer()),
        }
    }
}

/// Starts a login: the body is validated before the storage is asked anything.
pub fn login_begin(input: &EmailUserLogin) -> (go: Result<(), APIResponse>)
    ensures
        go is Ok <==> email_is_valid(input.email@),
        go is Err ==> go->Err_0@ == login_refused(),
{
    let go = checked(input.validate());
    proof {
        assert(noted(Seq::empty(), true, email_error()) =~= seq![email_error()]);
    }
    go
}

/// Goes on with a login after the storage said what it holds for the e-mail
/// address: the user and the fields of the session to open, or the response
/// that refuses the login. The body is validated here too.
pub fn login_found(
    input: &EmailUserLogin,
    salt: &str,
    found: Result<Option<LoginSeen>, DbError>,
    client_info: &ClientInfo,
    now: i64,
    duration: i64,
) -> (session: Result<(Id, SessionFields), APIResponse>)
    ensures
        match session {
            Ok((user_id, fields)) => {
                &&& email_is_valid(input.email@)
                &&& login_plan(input, salt@, found, now, duration) == Ok::<Id, AuthFailure>(
                    user_id,
                )
                &&& fields.ip == client_info.ip
                &&& fields.platform@ == client_info.platform.name()
                &&& fields.user_agent@ == client_info.user_agent@
                &&& fields.created_at == now
                &&& Some(fields.expire_at) == session_expiry(now, duration)
            },
            Err(response) => if !email_is_valid(input.email@) {
                response@ == login_refused()
            } else {
                login_plan(input, salt@, found, now, duration) is Err && response@ == login_plan(
                    input,
                    salt@,
                    found,
                    now,
                    duration,
                )->Err_0.answer()
            },
        },
{
    if let Err(response) = login_begin(input) {
        return Err(response);
    }
    let login = match found {
        Ok(Some(login)) => login,
        _ => {
            return Err(AuthFailure::UnknownEmail.response());
        },
    };
    let matches = match password_hash(input.password.as_str(), salt) {
        Some(digest) => same_bytes(&login.password_hash, &digest),
        None => false,
    };
    if !matches {
        return Err(AuthFailure::WrongPassword.response());
    }
    match new_session(client_info, now, duration) {
        Some(fields) => Ok((login.user_id, fields)),
        None => Err(AuthFailure::SessionNotCreated.response()),
    }
}

/// The answer to the end of a login.
pub open spec fn login_answer(user_id: Id, opened: Result<Id, DbError>) -> Result<
    APIResponseView,
    APIResponseView,
> {
    match opened {
        Ok(token) => Ok(
            APIResponseView {
                status: Status { code: OK },
                data: payload_body(SessionPayload { user_id, session_token: token }),
            },
        ),
        Err(_) => Err(AuthFailure::SessionNotCreated.answer()),
    }
}

/// Answers the end of a login: the user and the token of the session that was
/// opened, or `500` where it could not be opened.
pub fn login_reply(user_id: Id, opened: Result<Id, DbError>) -> (result: APIResult)
    ensures
        result_view(result) == login_answer(user_id, opened),
{
    match opened {
        Ok(token) => Ok(
            APIResponse::new(
                Status::new(OK),
                SessionPayload { user_id, session_token: token }.to_json(),
            ),
        ),
        Err(_) => Err(AuthFailure::SessionNotCreated.response()),
    }
}

/// Logs a user in with e-mail address and password, and opens a session under
/// the token `new_session_id` from `now` for `duration`. A body that fails
/// validation is refused with `400` before anything is looked at.
pub fn email_login(
    accounts: &Accounts,
    sessions: &mut Sessions,
    salt: &str,
    duration: i64,
    input: &EmailUserLogin,
    client_info: &ClientInfo,
    new_session_id: Id,
    now: i64,
) -> (result: APIResult)
    requires
        old(sessions).wf(),
    ensures
        final(sessions).wf(),
        match login_outcome(accounts, old(sessions)@, salt, input, new_session_id, now, duration) {
            Ok(payload) => {
                let opened = final(sessions)@.last();
                &&& result_view(result) == Ok::<APIResponseView, APIResponseView>(
                    APIResponseView { status: Status { code: OK }, data: payload_body(payload) },
                )
                &&& final(sessions)@.len() == old(sessions)@.len() + 1
                &&& final(sessions)@.drop_last() == old(sessions)@
                &&& opened.id == new_session_id
                &&& opened.owner == payload.user_id
                &&& opened.parent is None
                &&& opened.payload.created_at == now
                &&& Some(opened.payload.expire_at) == session_expiry(now, duration)
            },
            Err(answer) => {
                &&& result_view(result) == Err::<APIResponseView, APIResponseView>(answer)
                &&& final(sessions)@ == old(sessions)@
            },
        },
{
    if let Err(response) = login_begin(input) {
        return Err(response);
    }
    let place = accounts.find_email(input.email.as_str());
    let found = if place < accounts.email_logins.len() {
        let login = &accounts.email_logins[place];
        Some(LoginSeen { user_id: login.user_id, password_hash: login.password_hash.clone() })
    } else {
        None
    };
    let (user_id, fields) = match login_found(input, salt, Ok(found), client_info, now, duration) {
        Ok(session) => session,
        Err(response) => {
            return Err(response);
        },
    };
    let ghost before = sessions@;
    match sessions.open(new_session_id, user_id, fields) {
        Some(token) => {
            proof {
                assert(sessions@.drop_last() =~= before);
            }
            login_reply(user_id, Ok(token))
        },
        None => login_reply(user_id, Err(DbError::Database)),
    }
}

/// The user behind an identity of Discord: the user of the login with this
/// identity, or a new user under `new_user_id` where there is no such login.
pub open spec fn discord_user(accounts: &Accounts, client_id: Seq<char>, new_user_id: Id) -> Result<
    Id,
    AuthFailure,
> {
    let logins = accounts.discord_logins@;
    let place = discord_place(logins, client_id);
    if place < logins.len() {
        Ok(logins[place].user_id)
    } else if user_exists(accounts.users@, new_user_id) {
        Err(AuthFailure::UserNotCreated)
    } else {
        Ok(new_user_id)
    }
}

/// Exchanges an identity of Discord for a user: the user that has logged in
/// with it before, or a new user with the name that Discord gave. A new user
/// and its login are created together or not at all.
pub fn discord_login_user(
    accounts: &mut Accounts,
    client_id: &str,
    username: &str,
    new_user_id: Id,
    now: i64,
) -> (user: Result<Id, APIResponse>)
    ensures
        final(accounts).email_logins == old(accounts).email_logins,
        match discord_user(old(accounts), client_id@, new_user_id) {
            Ok(id) => {
                let logins = final(accounts).discord_logins@;
                &&& user == Ok::<Id, APIResponse>(id)
                &&& discord_place(logins, client_id@) < logins.len()
                &&& logins[discord_place(logins, client_id@)].user_id == id
                &&& if discord_place(old(accounts).discord_logins@, client_id@) < old(
                    accounts,
                ).discord_logins@.len() {
                    &&& final(accounts).users == old(accounts).users
                    &&& final(accounts).discord_logins == old(accounts).discord_logins
                } else {
                    let created = final(accounts).users@.last();
                    &&& final(accounts).users@.len() == old(accounts).users@.len() + 1
                    &&& final(accounts).users@.drop_last() == old(accounts).users@
                    &&& created.id == new_user_id
                    &&& created.username@ == username@
                    &&& created.created_at == now
                    &&& created.updated_at == now
                    &&& logins.len() == old(accounts).discord_logins@.len() + 1
                    &&& logins.drop_last() == old(accounts).discord_logins@
                    &&& logins.last().client_id@ == client_id@
                }
            },
            Err(failure) => {
                &&& user is Err
                &&& user->Err_0@ == failure.answer()
                &&& final(accounts).users == old(accounts).users
                &&& final(accounts).discord_logins == old(accounts).discord_logins
            },
        },
{
    let place = accounts.find_discord(client_id);
    if place < accounts.discord_logins.len() {
        return Ok(accounts.discord_logins[place].user_id);
    }
    if accounts.has_user(new_user_id) {
        return Err(AuthFailure::UserNotCreated.response());
    }
    let ghost before = accounts.discord_logins@;
    let ghost users_before = accounts.users@;
    accounts.users.push(
        UserModel {
            id: new_user_id,
            username: username.to_owned(),
            created_at: now,
            updated_at: now,
        },
    );
    accounts.discord_logins.push(
        DiscordUserLoginModel { user_id: new_user_id, client_id: client_id.to_owned() },
    );
    proof {
        lemma_discord_place_pushed(before, accounts.discord_logins@.last());
        assert(accounts.discord_logins@ =~= before.push(accounts.discord_logins@.last()));
        assert(accounts.discord_logins@.drop_last() =~= before);
        assert(accounts.users@.drop_last() =~= users_before);
    }
    Ok(new_user_id)
}

/// A login that is added where its identity was not known is found at the end.
pub proof fn lemma_discord_place_pushed(
    logins: Seq<DiscordUserLoginModel>,
    added: DiscordUserLoginModel,
)
    requires
        discord_place(logins, added.client_id@) == logins.len(),
    ensures
        discord_place(logins.push(added), added.client_id@) == logins.len(),
    decreases logins.len(),
{
    let all = logins.push(added);
    if logins.len() == 0 {
        assert(all[0] == added);
    } else {
        lemma_discord_place(logins.skip(1), added.client_id@);
        assert(logins[0].client_id@ != added.client_id@);
        assert(all[0] == logins[0]);
        assert(all.skip(1) =~= logins.skip(1).push(added));
        lemma_discord_place_pushed(logins.skip(1), added);
    }
}

/// The routes of login and registration with e-mail address.
pub open spec fn email_routes() -> Seq<RouteView> {
    seq![
        route(Method::Post, "/"@, "/login/email"@, "email_login"@),
        route(Method::Post, "/"@, "/register/email"@, "email_registeration"@),
    ]
}

/// The routes of the login with Discord.
pub open spec fn discord_routes() -> Seq<RouteView> {
    seq![
        route(Method::Get, "/"@, "/auth/discord"@, "discord_callback"@),
        route(Method::Get, "/"@, "/login/discord"@, "discord_login"@),
    ]
}

/// Attaches the login with Discord and mounts its routes.
pub fn mount_auth(rocket: Rocket) -> (mounted: Rocket)
    ensures
        mounted.routes() == rocket.routes() + discord_routes(),
        mounted.fairings() == rocket.fairings().push("discord"@),
        mounted.catchers() == rocket.catchers(),
        mounted.managed() == rocket.managed(),
{
    let mounted = rocket.attach("discord");
    let mounted = mounted.mount(Method::Get, "/", "/auth/discord", "discord_callback");
    let mounted = mounted.mount(Method::Get, "/", "/login/discord", "discord_login");
    assert(mounted.routes() =~= rocket.routes() + discord_routes());
    mounted
}

/// Mounts the routes of login and registration: Discord first, then e-mail.
pub fn mount_rocket(rocket: Rocket) -> (mounted: Rocket)
    ensures
        mounted.routes() == rocket.routes() + discord_routes() + email_routes(),
        mounted.fairings() == rocket.fairings().push("discord"@),
        mounted.catchers() == rocket.catchers(),
        mounted.managed() == rocket.managed(),
{
    let mounted = mount_auth(rocket);
    let mounted = mounted.mount(Method::Post, "/", "/login/email", "email_login");
    let mounted = mounted.mount(Method::Post, "/", "/register/email", "email_registeration");
    assert(mounted.routes() =~= rocket.routes() + discord_routes() + email_routes());
    mounted
}

} // verus!

verus! {

impl From<SessionPayload> for Value {
    /// The payload as JSON data.
    fn from(value: SessionPayload) -> (body: Value)
        ensures
            body@ == payload_body(value),
    {
        value.to_json()
    }
}

impl vstd::std_specs::convert::FromSpecImpl<SessionPayload> for Value {
    open spec fn obeys_from_spec() -> bool {
        false
    }

    open spec fn from_spec(value: SessionPayload) -> Value {
        arbitrary()
    }
}

} // verus!

verus! {

/// The user that the storage knows for an identity of Discord, if it knows one.
/// A storage that cannot say is taken as not knowing the identity.
pub open spec fn discord_known(found: Result<Option<Id>, DbError>) -> Option<Id> {
    match found {
        Ok(Some(user_id)) => Some(user_id),
        _ => None,
    }
}

/// Goes on with a login with Discord after the storage said whom it knows for
/// the identity: that user, or nothing where a user has to be created.
pub fn discord_found(found: Result<Option<Id>, DbError>) -> (user: Option<Id>)
    ensures
        user == discord_known(found),
{
    match found {
        Ok(Some(user_id)) => Some(user_id),
        _ => None,
    }
}

/// Goes on after a user was created for an identity of Discord: the user, or
/// `500` where it could not be created.
pub fn discord_created(created: Result<Id, DbError>) -> (user: Result<Id, APIResponse>)
    ensures
        match created {
            Ok(user_id) => user == Ok::<Id, APIResponse>(user_id),
            Err(_) => user is Err && user->Err_0@ == AuthFailure::UserNotCreated.answer(),
        },
{
    match created {
        Ok(user_id) => Ok(user_id),
        Err(_) => Err(AuthFailure::UserNotCreated.response()),
    }
}

/// The fields of the session that a login opens at `now` for `duration`, or
/// `500` where the time when it runs out cannot be counted.
pub fn session_fields(client_info: &ClientInfo, now: i64, duration: i64) -> (fields: Result<
    SessionFields,
    APIResponse,
>)
    ensures
        match session_expiry(now, duration) {
            Some(expire_at) => {
                &&& fields is Ok
                &&& fields->Ok_0.ip == client_info.ip
                &&& fields->Ok_0.platform@ == client_info.platform.name()
                &&& fields->Ok_0.user_agent@ == client_info.user_agent@
                &&& fields->Ok_0.created_at == now
                &&& fields->Ok_0.expire_at == expire_at
            },
            None => fields is Err && fields->Err_0@ == AuthFailure::SessionNotCreated.answer(),
        },
{
    match new_session(client_info, now, duration) {
        Some(fields) => Ok(fields),
        None => Err(AuthFailure::SessionNotCreated.response()),
    }
}

/// Answers the end of a login with Discord: the page that hands the user and
/// the token of the session to the window that opened the login, or `500` where
/// the session could not be opened.
pub fn discord_reply(user_id: Id, opened: Result<Id, DbError>) -> (page: Result<
    String,
    APIResponse,
>)
    ensures
        match opened {
            Ok(token) => page is Ok && page->Ok_0@ == callback_page(
                payload_text(SessionPayload { user_id, session_token: token }),
            ),
            Err(_) => page is Err && page->Err_0@ == AuthFailure::SessionNotCreated.answer(),
        },
{
    match opened {
        Ok(token) => {
            let payload = SessionPayload { user_id, session_token: token };
            let text = payload.to_json_text();
            Ok(render_callback_page(text.as_str()))
        },
        Err(_) => Err(AuthFailure::SessionNotCreated.response()),
    }
}

} // verus!

verus! {

/// Whether `after` is `before` with one user and its login with e-mail address
/// added at the end: what a registration that goes through does.
pub open spec fn registered(
    before: &Accounts,
    after: &Accounts,
    input: &EmailUserRegistration,
    salt: Seq<char>,
    user_id: Id,
    now: i64,
) -> bool {
    let user = after.users@.last();
    let login = after.email_logins@.last();
    &&& after.users@.len() == before.users@.len() + 1
    &&& after.users@.drop_last() == before.users@
    &&& user.id == user_id
    &&& user.username@ == input.username@
    &&& user.created_at == now
    &&& user.updated_at == now
    &&& after.email_logins@.len() == before.email_logins@.len() + 1
    &&& after.email_logins@.drop_last() == before.email_logins@
    &&& login.user_id == user_id
    &&& login.email@ == input.email@
    &&& login.password_hash@ == argon2i_digest(input.password@, salt)
}

/// A login that is added where its e-mail address was not known is found at
/// the end.
pub proof fn lemma_email_place_pushed(logins: Seq<EmailUserLoginModel>, added: EmailUserLoginModel)
    requires
        !email_taken(logins, added.email@),
    ensures
        email_place(logins.push(added), added.email@) == logins.len(),
    decreases logins.len(),
{
    let all = logins.push(added);
    if logins.len() == 0 {
        assert(all[0] == added);
    } else {
        lemma_email_place_bounds(logins.skip(1), added.email@);
        assert(logins[0].email@ != added.email@);
        assert(all[0] == logins[0]);
        assert(all.skip(1) =~= logins.skip(1).push(added));
        lemma_email_place_pushed(logins.skip(1), added);
    }
}

/// The place of a login never lies beyond the logins.
pub proof fn lemma_email_place_bounds(logins: Seq<EmailUserLoginModel>, email: Seq<char>)
    ensures
        0 <= email_place(logins, email) <= logins.len(),
    decreases logins.len(),
{
    if logins.len() > 0 && logins[0].email@ != email {
        lemma_email_place_bounds(logins.skip(1), email);
    }
}

/// A user that is added under a new identifier is the user with that
/// identifier.
pub proof fn lemma_user_with_pushed(users: Seq<UserModel>, added: UserModel)
    requires
        !user_exists(users, added.id),
    ensures
        crate::guard::user_with(users.push(added), added.id) == Some(added),
    decreases users.len(),
{
    let all = users.push(added);
    if users.len() == 0 {
        assert(all[0] == added);
    } else {
        assert(users[0].id != added.id);
        assert(all[0] == users[0]);
        assert(all.skip(1) =~= users.skip(1).push(added));
        assert forall|i: int| 0 <= i < users.skip(1).len() implies (#[trigger] users.skip(
            1,
        )[i]).id != added.id by {
            assert(users[i + 1].id != added.id);
        }
        lemma_user_with_pushed(users.skip(1), added);
    }
}

/// Registration, then login, then a request: a user that has registered logs
/// in with the same e-mail address and password and gets its identifier and a
/// session token; the login opens exactly that session; and a request that
/// carries the token before the session runs out is admitted as that user.
///
/// The login needs what every login needs: a token that no session has yet and
/// a time of expiry that can be counted.
pub proof fn lemma_register_then_login(
    before: &Accounts,
    after: &Accounts,
    sessions: Seq<crate::arena::Record<SessionFields>>,
    opened: crate::arena::Record<SessionFields>,
    salt: &str,
    registration: &EmailUserRegistration,
    login: &EmailUserLogin,
    user_id: Id,
    token: Id,
    registered_at: i64,
    now: i64,
    duration: i64,
    headers: Seq<Seq<char>>,
    later: int,
)
    requires
        registration_outcome(before, salt, registration, user_id) is Ok,
        registered(before, after, registration, salt@, user_id, registered_at),
        login.email@ == registration.email@,
        login.password@ == registration.password@,
        crate::arena::well_formed(sessions),
        !present(sessions, token),
        session_expiry(now, duration) is Some,
        opened.id == token,
        opened.owner == user_id,
        opened.parent is None,
        Some(opened.payload.expire_at) == session_expiry(now, duration),
        crate::guard::token_of(headers) == Ok::<Id, crate::guard::GuardFailure>(token),
        later < now + duration,
    ensures
        login_outcome(after, sessions, salt, login, token, now, duration) == Ok::<
            SessionPayload,
            APIResponseView,
        >(SessionPayload { user_id, session_token: token }),
        crate::guard::auth_verdict(sessions.push(opened), after.users@, headers, later) == Ok::<
            UserModel,
            crate::guard::GuardFailure,
        >(after.users@.last()),
        after.users@.last().id == user_id,
        after.users@.last().username@ == registration.username@,
{
    let logins = before.email_logins@;
    let added = after.email_logins@.last();
    assert(after.email_logins@ =~= logins.push(added));
    lemma_email_place_bounds(logins, registration.email@);
    lemma_email_place_pushed(logins, added);
    let user = after.users@.last();
    assert(after.users@ =~= before.users@.push(user));
    lemma_user_with_pushed(before.users@, user);
    let rows = sessions.push(opened);
    let n = sessions.len() as int;
    assert(rows[n] == opened);
    assert forall|i: int, j: int| 0 <= i < j < rows.len() implies (#[trigger] rows[i]).id != (
    #[trigger] rows[j]).id by {
        if j < n {
            assert(sessions[i].id != sessions[j].id);
        } else {
            assert(sessions[i].id != token);
        }
    }
    crate::arena::lemma_index_unique(rows, n);
}

} // verus!
