//! Validation of request bodies: colours, e-mail addresses, lengths.

use vstd::prelude::*;
use crate::json::{lemma_object_view, Value, ValueView};
use crate::patch::Patch;
use crate::responses::{
    remembered, status_line, APIResponse, APIResponseView, LocalCache, Outcome,
    RequestGuardError, Status, BAD_REQUEST,
};

verus! {

/// Why a field of a request body was refused.
#[derive(Debug)]
pub struct ValidationError {
    pub code: String,
    pub message: Option<String>,
}

impl ValidationError {
    /// An error with a code and no message.
    pub fn new(code: &str) -> (error: ValidationError)
        ensures
            error.code@ == code@,
            error.message is None,
    {
        ValidationError { code: code.to_owned(), message: None }
    }

    /// An error with a code and a message.
    pub fn with_message(code: &str, message: &str) -> (error: ValidationError)
        ensures
            error.code@ == code@,
            error.message is Some,
            error.message->0@ == message@,
    {
        ValidationError { code: code.to_owned(), message: Some(message.to_owned()) }
    }
}

/// The pattern of a colour: a hash sign and six hexadecimal digits.
pub const COLOR_PATTERN: &'static str = "^#([A-Fa-f0-9]{6})$";

/// The code of the error for a text that is no colour.
pub const COLOR_ERROR: &'static str = "Color must follow the 6 digit hex format (#ffffff).";

/// Whether a pattern matches somewhere in a text; nothing where the pattern
/// itself is not accepted.
pub uninterp spec fn regex_match(pattern: Seq<char>, text: Seq<char>) -> Option<bool>;

/// Whether a text is an e-mail address.
pub uninterp spec fn email_is_valid(text: Seq<char>) -> bool;

/// Tests a text against a pattern.
///
/// Trusted: stands for `Regex::new` followed by `Regex::is_match` of the regex
/// crate. The first compiles the pattern or refuses it; the second says whether
/// the pattern matches anywhere in the text. Both depend on their arguments
/// alone, so the contract names the result.
#[verifier::external_body]
fn regex_is_match(pattern: &str, text: &str) -> (matched: Option<bool>)
    ensures
        matched == regex_match(pattern@, text@),
{
    match regex::Regex::new(pattern) {
        Ok(re) => Some(re.is_match(text)),
        Err(_) => None,
    }
}

/// Tests whether a text is an e-mail address.
///
/// Trusted: stands for `validate_email` of the validator crate, which checks the
/// text against the address grammar of the HTML5 specification. The result
/// depends on the text alone, so the contract names it.
#[verifier::external_body]
fn is_email(text: &str) -> (valid: bool)
    ensures
        valid == email_is_valid(text@),
{
    validator::validate_email(text)
}

/// What the outcome of the colour pattern means: a match is a colour, anything
/// else is not.
pub open spec fn is_color_match(matched: Option<bool>) -> bool {
    matched == Some(true)
}

/// Decides on the outcome of the colour pattern.
pub fn color_verdict(matched: Option<bool>) -> (verdict: Result<(), ValidationError>)
    ensures
        verdict is Ok <==> is_color_match(matched),
        verdict is Err ==> verdict->Err_0.code@ == COLOR_ERROR@ && verdict->Err_0.message is None,
{
    match matched {
        Some(true) => Ok(()),
        _ => Err(ValidationError::new(COLOR_ERROR)),
    }
}

/// Accepts a colour in the six digit hexadecimal form, as in `#ffaa00`.
pub fn validate_color(color: &str) -> (verdict: Result<(), ValidationError>)
    ensures
        verdict is Ok <==> is_color_match(regex_match(COLOR_PATTERN@, color@)),
        verdict is Err ==> verdict->Err_0.code@ == COLOR_ERROR@ && verdict->Err_0.message is None,
{
    color_verdict(regex_is_match(COLOR_PATTERN, color))
}

/// Accepts a patch of a colour: a missing or emptied field always, a given one
/// where it is a colour.
pub fn validate_patch_color(color: &Patch<String>) -> (verdict: Result<(), ValidationError>)
    ensures
        verdict is Ok <==> (match color {
            Patch::Value(c) => is_color_match(regex_match(COLOR_PATTERN@, c@)),
            _ => true,
        }),
        verdict is Err ==> verdict->Err_0.code@ == COLOR_ERROR@ && verdict->Err_0.message is None,
{
    match color {
        Patch::Missing => Ok(()),
        Patch::Null => Ok(()),
        Patch::Value(color_str) => validate_color(color_str.as_str()),
    }
}

/// Decides on an e-mail address that was tested.
pub fn email_verdict(valid: bool) -> (verdict: Result<(), ValidationError>)
    ensures
        verdict is Ok <==> valid,
        verdict is Err ==> verdict->Err_0.code@ == "email"@ && verdict->Err_0.message is Some
            && verdict->Err_0.message->0@ == "Invalid email address."@,
{
    if valid {
        Ok(())
    } else {
        Err(ValidationError::with_message("email", "Invalid email address."))
    }
}

/// Accepts an e-mail address.
pub fn validate_email(email: &str) -> (verdict: Result<(), ValidationError>)
    ensures
        verdict is Ok <==> email_is_valid(email@),
        verdict is Err ==> verdict->Err_0.code@ == "email"@ && verdict->Err_0.message is Some
            && verdict->Err_0.message->0@ == "Invalid email address."@,
{
    email_verdict(is_email(email))
}

/// Accepts a text of at least `min` characters; refuses a shorter one with the
/// given message.
pub fn validate_min_length(text: &str, min: usize, message: &str) -> (verdict: Result<
    (),
    ValidationError,
>)
    ensures
        verdict is Ok <==> text@.len() >= min,
        verdict is Err ==> verdict->Err_0.code@ == "length"@ && verdict->Err_0.message is Some
            && verdict->Err_0.message->0@ == message@,
{
    if text.unicode_len() >= min {
        Ok(())
    } else {
        Err(ValidationError::with_message("length", message))
    }
}

/// The errors of a request body, each with the field it is about, in the order
/// of the fields.
#[derive(Debug)]
pub struct ValidationErrors {
    pub errors: Vec<(String, ValidationError)>,
}

impl ValidationErrors {
    /// No errors.
    pub fn new() -> (errors: ValidationErrors)
        ensures
            errors.errors@.len() == 0,
    {
        ValidationErrors { errors: Vec::new() }
    }

    /// Whether the body passed.
    pub fn is_empty(&self) -> (empty: bool)
        ensures
            empty == (self.errors@.len() == 0),
    {
        self.errors.len() == 0
    }

    /// Notes the verdict on one field: an error is added at the end.
    pub fn note(&mut self, field: &str, verdict: Result<(), ValidationError>)
        ensures
            match verdict {
                Ok(_) => final(self).errors@ == old(self).errors@,
                Err(error) => {
                    &&& final(self).errors@.len() == old(self).errors@.len() + 1
                    &&& final(self).errors@.drop_last() == old(self).errors@
                    &&& final(self).errors@.last().0@ == field@
                    &&& final(self).errors@.last().1 == error
                },
            },
    {
        match verdict {
            Ok(_) => {},
            Err(error) => {
                let ghost before = self.errors@;
                self.errors.push((field.to_owned(), error));
                assert(self.errors@.drop_last() =~= before);
            },
        }
    }

    /// Ends the validation: `Ok` where no error was noted, the errors otherwise.
    pub fn into_result(self) -> (verdict: Result<(), ValidationErrors>)
        ensures
            verdict is Ok <==> self.errors@.len() == 0,
            verdict is Err ==> verdict->Err_0 == self,
    {
        if self.errors.len() == 0 {
            Ok(())
        } else {
            Err(self)
        }
    }
}

/// The body of a registration with e-mail address and password.
#[derive(Debug)]
pub struct EmailUserRegistration {
    pub email: String,
    pub password: String,
    pub username: String,
}

/// One error of a request body as values: the field, the code and the message.
pub struct ErrorView {
    pub field: Seq<char>,
    pub code: Seq<char>,
    pub message: Option<Seq<char>>,
}

/// One error of a request body as values.
pub open spec fn error_view(field: Seq<char>, error: ValidationError) -> ErrorView {
    ErrorView {
        field,
        code: error.code@,
        message: match error.message {
            Some(m) => Some(m@),
            None => None,
        },
    }
}

/// The errors of a request body as values.
pub open spec fn error_views(errors: Seq<(String, ValidationError)>) -> Seq<ErrorView> {
    Seq::new(errors.len(), |i: int| error_view(errors[i].0@, errors[i].1))
}

/// The error for a colour that is none.
pub open spec fn color_error() -> ErrorView {
    ErrorView { field: "color"@, code: COLOR_ERROR@, message: None }
}

/// The error for an e-mail address that is none.
pub open spec fn email_error() -> ErrorView {
    ErrorView { field: "email"@, code: "email"@, message: Some("Invalid email address."@) }
}

/// The error for a password that is too short.
pub open spec fn password_error() -> ErrorView {
    ErrorView {
        field: "password"@,
        code: "length"@,
        message: Some("Password must have 4 or more characters."@),
    }
}

/// The error for an empty user name.
pub open spec fn username_error() -> ErrorView {
    ErrorView {
        field: "username"@,
        code: "length"@,
        message: Some("Username must not be empty."@),
    }
}

/// The errors `errors` with `error` added where `failed` holds.
pub open spec fn noted(errors: Seq<ErrorView>, failed: bool, error: ErrorView) -> Seq<ErrorView> {
    if failed {
        errors.push(error)
    } else {
        errors
    }
}

/// The errors of a registration, in the order of the fields: the e-mail address
/// must be one, the password must have four characters or more, and the user
/// name must not be empty.
pub open spec fn registration_errors(
    email: Seq<char>,
    password: Seq<char>,
    username: Seq<char>,
) -> Seq<ErrorView> {
    noted(
        noted(
            noted(Seq::empty(), !email_is_valid(email), email_error()),
            password.len() < 4,
            password_error(),
        ),
        username.len() < 1,
        username_error(),
    )
}

/// Whether a registration passes.
pub open spec fn registration_ok(email: Seq<char>, password: Seq<char>, username: Seq<char>) -> bool {
    email_is_valid(email) && password.len() >= 4 && username.len() >= 1
}

/// The view of the verdict on a request body.
pub open spec fn verdict_view(verdict: Result<(), ValidationErrors>) -> Seq<ErrorView> {
    match verdict {
        Ok(_) => Seq::empty(),
        Err(errors) => error_views(errors.errors@),
    }
}

impl EmailUserRegistration {
    /// Validates the body, field by field.
    pub fn validate(&self) -> (verdict: Result<(), ValidationErrors>)
        ensures
            verdict is Ok <==> registration_ok(self.email@, self.password@, self.username@),
            verdict_view(verdict) == registration_errors(
                self.email@,
                self.password@,
                self.username@,
            ),
    {
        let mut errors = ValidationErrors::new();
        assert(error_views(errors.errors@) =~= Seq::<ErrorView>::empty());
        let ghost e0 = error_views(errors.errors@);
        errors.note("email", validate_email(self.email.as_str()));
        let ghost e1 = error_views(errors.errors@);
        assert(e1 =~= noted(e0, !email_is_valid(self.email@), email_error())) by {
            if !email_is_valid(self.email@) {
                lemma_noted(e0, errors.errors@);
            }
        }
        errors.note(
            "password",
            validate_min_length(
                self.password.as_str(),
                4,
                "Password must have 4 or more characters.",
            ),
        );
        let ghost e2 = error_views(errors.errors@);
        assert(e2 =~= noted(e1, self.password@.len() < 4, password_error())) by {
            if self.password@.len() < 4 {
                lemma_noted(e1, errors.errors@);
            }
        }
        errors.note(
            "username",
            validate_min_length(self.username.as_str(), 1, "Username must not be empty."),
        );
        let ghost e3 = error_views(errors.errors@);
        assert(e3 =~= noted(e2, self.username@.len() < 1, username_error())) by {
            if self.username@.len() < 1 {
                lemma_noted(e2, errors.errors@);
            }
        }
        errors.into_result()
    }
}

/// The views of a list of errors that has grown by one are the views of the
/// shorter list and the view of the new error.
pub proof fn lemma_noted(before: Seq<ErrorView>, after: Seq<(String, ValidationError)>)
    requires
        after.len() > 0,
        before == error_views(after.drop_last()),
    ensures
        error_views(after) == before.push(error_view(after.last().0@, after.last().1)),
{
    assert(error_views(after) =~= before.push(error_views(after).last()));
}

/// The body of a registration with e-mail address and password, without a user
/// name.
#[derive(Debug)]
pub struct UserEmailRegistration {
    pub email: String,
    pub password: String,
}

impl UserEmailRegistration {
    /// Validates the body, field by field.
    pub fn validate(&self) -> (verdict: Result<(), ValidationErrors>)
        ensures
            verdict is Ok <==> email_is_valid(self.email@) && self.password@.len() >= 4,
            verdict_view(verdict) == noted(
                noted(Seq::empty(), !email_is_valid(self.email@), email_error()),
                self.password@.len() < 4,
                password_error(),
            ),
    {
        let mut errors = ValidationErrors::new();
        assert(error_views(errors.errors@) =~= Seq::<ErrorView>::empty());
        let ghost e0 = error_views(errors.errors@);
        errors.note("email", validate_email(self.email.as_str()));
        let ghost e1 = error_views(errors.errors@);
        assert(e1 =~= noted(e0, !email_is_valid(self.email@), email_error())) by {
            if !email_is_valid(self.email@) {
                lemma_noted(e0, errors.errors@);
            }
        }
        errors.note(
            "password",
            validate_min_length(
                self.password.as_str(),
                4,
                "Password must have 4 or more characters.",
            ),
        );
        let ghost e2 = error_views(errors.errors@);
        assert(e2 =~= noted(e1, self.password@.len() < 4, password_error())) by {
            if self.password@.len() < 4 {
                lemma_noted(e1, errors.errors@);
            }
        }
        errors.into_result()
    }
}

/// The body of a login with e-mail address and password.
#[derive(Debug)]
pub struct EmailUserLogin {
    pub email: String,
    pub password: String,
}

impl EmailUserLogin {
    /// Validates the body: the e-mail address must be one.
    pub fn validate(&self) -> (verdict: Result<(), ValidationErrors>)
        ensures
            verdict is Ok <==> email_is_valid(self.email@),
            verdict_view(verdict) == noted(
                Seq::empty(),
                !email_is_valid(self.email@),
                email_error(),
            ),
    {
        let mut errors = ValidationErrors::new();
        assert(error_views(errors.errors@) =~= Seq::<ErrorView>::empty());
        let ghost e0 = error_views(errors.errors@);
        errors.note("email", validate_email(self.email.as_str()));
        let ghost e1 = error_views(errors.errors@);
        assert(e1 =~= noted(e0, !email_is_valid(self.email@), email_error())) by {
            if !email_is_valid(self.email@) {
                lemma_noted(e0, errors.errors@);
            }
        }
        errors.into_result()
    }
}

} // verus!

verus! {

/// One error as JSON: the field, the code and the message, `null` where it has
/// none.
pub open spec fn error_json(error: ErrorView) -> ValueView {
    ValueView::Object(
        seq![
            ("field"@, ValueView::String(error.field)),
            ("code"@, ValueView::String(error.code)),
            (
                "message"@,
                match error.message {
                    Some(message) => ValueView::String(message),
                    None => ValueView::Null,
                },
            ),
        ],
    )
}

/// A list of errors as JSON: one object per error, in order.
pub open spec fn list_json(errors: Seq<ErrorView>) -> ValueView {
    ValueView::Array(Seq::new(errors.len(), |i: int| error_json(errors[i])))
}

/// The errors as JSON: a list with one object per error, in order.
pub open spec fn errors_json(errors: Seq<(String, ValidationError)>) -> ValueView {
    list_json(error_views(errors))
}

/// The body of the answer to a request whose body failed validation.
pub open spec fn validation_body(errors: ValueView) -> ValueView {
    ValueView::Object(
        seq![
            ("message"@, ValueView::String(status_line(BAD_REQUEST))),
            ("errors"@, errors),
        ],
    )
}

/// The answer to a request whose body failed validation: `400` with the
/// errors.
pub open spec fn invalid_answer(errors: Seq<ErrorView>) -> APIResponseView {
    APIResponseView { status: Status { code: BAD_REQUEST }, data: validation_body(list_json(errors)) }
}

fn error_to_json(field: &str, error: &ValidationError) -> (json: Value)
    ensures
        json@ == error_json(error_view(field@, *error)),
{
    let mut members: Vec<(String, Value)> = Vec::new();
    members.push(("field".to_owned(), Value::text(field)));
    members.push(("code".to_owned(), Value::text(error.code.as_str())));
    members.push(
        (
            "message".to_owned(),
            match &error.message {
                Some(message) => Value::text(message.as_str()),
                None => Value::Null,
            },
        ),
    );
    let json = Value::Object(members);
    proof {
        lemma_object_view(json);
        assert(json@->Object_0 =~= error_json(error_view(field@, *error))->Object_0);
    }
    json
}

impl ValidationErrors {
    /// The answer to a request whose body failed with these errors: `400`, the
    /// status line as message, and the errors.
    pub fn response(&self) -> (response: APIResponse)
        ensures
            response@ == invalid_answer(error_views(self.errors@)),
    {
        let bad = Status::new(BAD_REQUEST);
        let mut members: Vec<(String, Value)> = Vec::new();
        members.push(("message".to_owned(), Value::String(bad.to_string())));
        members.push(("errors".to_owned(), self.to_json()));
        let body = Value::Object(members);
        proof {
            lemma_object_view(body);
            assert(members[0].1@ == ValueView::String(status_line(BAD_REQUEST)));
            assert(body@->Object_0 =~= validation_body(errors_json(self.errors@))->Object_0);
        }
        APIResponse::new(bad, body)
    }

    /// The errors as JSON data.
    pub fn to_json(&self) -> (json: Value)
        ensures
            json@ == errors_json(self.errors@),
    {
        let mut items: Vec<Value> = Vec::new();
        let mut i: usize = 0;
        while i < self.errors.len()
            invariant
                i <= self.errors.len(),
                items.len() == i,
                forall|k: int|
                    0 <= k < i ==> (#[trigger] items[k])@ == error_json(
                        error_views(self.errors@)[k],
                    ),
            decreases self.errors.len() - i,
        {
            let item = error_to_json(self.errors[i].0.as_str(), &self.errors[i].1);
            items.push(item);
            i += 1;
        }
        let json = Value::Array(items);
        proof {
            crate::json::lemma_array_view(json);
            assert(json@->Array_0 =~= errors_json(self.errors@)->Array_0);
        }
        json
    }
}

} // verus!

verus! {

/// Verdicts of a validation that can become the outcome of a guard.
pub trait ToGuardOutcome<T, F>: Sized {
    /// Whether `outcome` is what this verdict means for a guard that answers
    /// errors with `status`, and `after` is what the request remembers then.
    spec fn guarded(
        self,
        outcome: Outcome<T, RequestGuardError, F>,
        status: Status,
        before: LocalCache,
        after: LocalCache,
    ) -> bool;

    /// The outcome of a guard that answers errors with `400`.
    fn to_guard_outcome(self, cache: &mut LocalCache) -> (outcome: Outcome<
        T,
        RequestGuardError,
        F,
    >)
        ensures
            self.guarded(outcome, Status { code: BAD_REQUEST }, *old(cache), *final(cache)),
    {
        self.to_guard_outcome_status(cache, Status::new(BAD_REQUEST))
    }

    /// The outcome of a guard that answers errors with `status`.
    fn to_guard_outcome_status(self, cache: &mut LocalCache, status: Status) -> (outcome:
        Outcome<T, RequestGuardError, F>)
        ensures
            self.guarded(outcome, status, *old(cache), *final(cache)),
    ;
}

impl<T, F> ToGuardOutcome<T, F> for Result<T, ValidationErrors> {
    open spec fn guarded(
        self,
        outcome: Outcome<T, RequestGuardError, F>,
        status: Status,
        before: LocalCache,
        after: LocalCache,
    ) -> bool {
        &&& after.errors_view() == before.errors_view()
        &&& match self {
            Ok(value) => outcome == Outcome::<T, RequestGuardError, F>::Success(value)
                && after.response_view() == before.response_view(),
            Err(errors) => {
                &&& outcome is Failure
                &&& outcome->Failure_0.0 == status
                &&& outcome->Failure_0.1@ == errors_json(errors.errors@)
                &&& after.response_view() == remembered(
                    before.response_view(),
                    APIResponseView { status, data: errors_json(errors.errors@) },
                )
            },
        }
    }

    fn to_guard_outcome_status(self, cache: &mut LocalCache, status: Status) -> (outcome:
        Outcome<T, RequestGuardError, F>) {
        match self {
            Ok(value) => Outcome::Success(value),
            Err(errors) => Outcome::Failure(
                APIResponse::new(status, errors.to_json()).as_cache_guard_error(cache),
            ),
        }
    }
}

} // verus!

verus! {

/// The body of a login with e-mail address and password, with room for the
/// identifier of the user that is looked up for it.
#[derive(Debug)]
pub struct UserLogin {
    pub id: Option<crate::ids::Id>,
    pub email: String,
    pub password: String,
}

impl UserLogin {
    /// Validates the body: the e-mail address must be one.
    pub fn validate(&self) -> (verdict: Result<(), ValidationErrors>)
        ensures
            verdict is Ok <==> email_is_valid(self.email@),
            verdict_view(verdict) == noted(
                Seq::empty(),
                !email_is_valid(self.email@),
                email_error(),
            ),
    {
        let mut errors = ValidationErrors::new();
        assert(error_views(errors.errors@) =~= Seq::<ErrorView>::empty());
        let ghost none = error_views(errors.errors@);
        errors.note("email", validate_email(self.email.as_str()));
        proof {
            if !email_is_valid(self.email@) {
                lemma_noted(none, errors.errors@);
            }
        }
        errors.into_result()
    }
}

} // verus!

verus! {

/// What the verdict on a body means for its handler: go on, or answer `400`
/// with the errors.
pub fn checked(verdict: Result<(), ValidationErrors>) -> (go: Result<(), APIResponse>)
    ensures
        go is Ok <==> verdict is Ok,
        go is Err ==> go->Err_0@ == invalid_answer(verdict_view(verdict)),
{
    match verdict {
        Ok(_) => Ok(()),
        Err(errors) => Err(errors.response()),
    }
}

} // verus!
