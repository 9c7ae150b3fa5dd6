//! What the record engine's outcomes mean on the wire, and the statements and
//! steps that ask a relational storage for the same.
//!
//! A request against a storage is a walk through a few steps: each step asks
//! the storage one question, and the answer decides the next step or ends the
//! request. Whoever performs the questions decides nothing.

use vstd::prelude::*;
use vstd::string::StringExecFns;
use crate::arena::{Failure, GET_LIMIT, limit_or_default, page_or_first};
use crate::ids::{hyphenated, id_to_string, Id};
use crate::json::{lemma_object_view, Value, ValueView};
use crate::patch::Patch;
use crate::responses::{
    bad_request, internal_server_error, message_response, not_found, ok, APIResponse,
    APIResponseView, APIResult, Status, BAD_REQUEST, CREATED, INTERNAL_SERVER_ERROR,
    NOT_FOUND, OK,
};

verus! {

/// The status that a refusal of the engine is answered with: an absent record
/// and a record of someone else are both `404`, a request that cannot be applied
/// is `400`.
pub open spec fn failure_status(failure: Failure) -> u16 {
    match failure {
        Failure::NotFound => NOT_FOUND,
        _ => BAD_REQUEST,
    }
}

/// The message that a refusal of the engine is answered with.
pub open spec fn failure_message(failure: Failure) -> Seq<char> {
    match failure {
        Failure::NotFound => "Item not found."@,
        Failure::InvalidParent => "Invalid parent id."@,
        Failure::OwnParent => "Cannot make list a parent of itself."@,
        Failure::Conflict => "Invalid request."@,
        Failure::EmptyPatch => "Empty patch request."@,
    }
}

/// The response for a refusal of the engine.
pub fn failure_response(failure: Failure) -> (response: APIResponse)
    ensures
        response@ == message_response(
            Status { code: failure_status(failure) },
            failure_message(failure),
        ),
{
    match failure {
        Failure::NotFound => not_found("Item not found."),
        Failure::InvalidParent => bad_request("Invalid parent id."),
        Failure::OwnParent => bad_request("Cannot make list a parent of itself."),
        Failure::Conflict => bad_request("Invalid request."),
        Failure::EmptyPatch => bad_request("Empty patch request."),
    }
}

/// The answer to a refusal of the engine.
pub open spec fn refusal(failure: Failure) -> APIResponseView {
    message_response(Status { code: failure_status(failure) }, failure_message(failure))
}

/// The view of a handler's success.
pub open spec fn answered(response: APIResponseView) -> Result<APIResponseView, APIResponseView> {
    Ok(response)
}

/// The view of a handler's refusal.
pub open spec fn refused(failure: Failure) -> Result<APIResponseView, APIResponseView> {
    Err(refusal(failure))
}

/// The body `{"id": "<id>"}` of the answer to a create.
pub open spec fn id_body(id: Id) -> ValueView {
    ValueView::Object(seq![("id"@, ValueView::String(hyphenated(id)))])
}

/// The answer to a create that went through: `201` with the new identifier.
pub fn created_response(id: Id) -> (response: APIResponse)
    ensures
        response@ == (APIResponseView { status: Status { code: CREATED }, data: id_body(id) }),
{
    APIResponse::new(Status::new(CREATED), PostResponse { id }.to_json())
}

/// How a statement failed in the storage.
#[derive(Debug, Clone, Copy, PartialEq, Eq, Structural)]
pub enum DbError {
    /// A row was asked for and there is none.
    RowNotFound,
    /// The storage refused the statement: a constraint does not hold.
    Database,
    /// Anything else: the connection, the protocol, the pool.
    Other,
}

/// The answer to a fetch that failed in the storage: no row is `404`, anything
/// else is `500`.
pub fn fetch_failed(error: DbError) -> (response: APIResponse)
    ensures
        response@ == (if error == DbError::RowNotFound {
            message_response(Status { code: NOT_FOUND }, "Item not found."@)
        } else {
            message_response(Status { code: INTERNAL_SERVER_ERROR }, "Error fetching items"@)
        }),
{
    match error {
        DbError::RowNotFound => not_found("Item not found."),
        _ => internal_server_error("Error fetching items"),
    }
}

/// The view of a handler's result.
pub open spec fn result_view(result: APIResult) -> Result<APIResponseView, APIResponseView> {
    match result {
        Ok(r) => Ok(r@),
        Err(r) => Err(r@),
    }
}

/// What the answer to a delete is, from what the storage said.
pub open spec fn delete_answer(stored: Result<u64, DbError>) -> Result<
    APIResponseView,
    APIResponseView,
> {
    match stored {
        Err(DbError::Database) => Err(
            message_response(Status { code: BAD_REQUEST }, "Invalid delete request."@),
        ),
        Err(_) => Err(
            message_response(
                Status { code: INTERNAL_SERVER_ERROR },
                "Failed to delete in database."@,
            ),
        ),
        Ok(rows) => if rows == 0 {
            Err(message_response(Status { code: NOT_FOUND }, "Item not found."@))
        } else {
            Ok(message_response(Status { code: OK }, "Delete successful."@))
        },
    }
}

/// Answers a delete: a statement that removed no row found no record of the
/// caller; `400` where a constraint does not hold, `500` for any other failure.
pub fn delete_outcome(stored: Result<u64, DbError>) -> (result: APIResult)
    ensures
        result_view(result) == delete_answer(stored),
{
    match stored {
        Err(DbError::Database) => Err(bad_request("Invalid delete request.")),
        Err(_) => Err(internal_server_error("Failed to delete in database.")),
        Ok(rows) => {
            if rows == 0 {
                Err(not_found("Item not found."))
            } else {
                Ok(ok("Delete successful."))
            }
        },
    }
}

/// The window of a listing: how many rows to take and how many to skip.
#[derive(Debug, Clone, Copy, PartialEq, Eq, Structural)]
pub struct Window {
    pub limit: u32,
    pub page: u32,
    pub offset: u64,
}

/// The window for the limit and page of a request: 1000 rows where no limit is
/// given, the first page where none is given, and `page * limit` rows skipped.
pub fn page_window(limit: Option<u32>, page: Option<u32>) -> (window: Window)
    ensures
        window.limit == limit_or_default(limit),
        window.page == page_or_first(page),
        window.offset == window.page * window.limit,
{
    let limit: u32 = match limit {
        Some(l) => l,
        None => GET_LIMIT,
    };
    let page: u32 = match page {
        Some(p) => p,
        None => 0,
    };
    assert(page * limit <= 0xffff_ffff * 0xffff_ffff) by (nonlinear_arith)
        requires
            0 <= page <= 0xffff_ffff,
            0 <= limit <= 0xffff_ffff,
    ;
    Window { limit, page, offset: (page as u64) * (limit as u64) }
}

/// The clause that scopes a statement to one record of the caller.
pub const OWNED_RECORD: &'static str = "WHERE id = $1 AND user_id = $2";

/// The clause that scopes a statement to the records of the caller.
pub const OWNED_RECORDS: &'static str = "WHERE user_id = $1";

/// `SELECT * FROM <table> <where> LIMIT $2 OFFSET $3`: one page of a table.
pub fn select_all_query(table: &str, query_where: &str) -> (stmt: String)
    ensures
        stmt@ == "SELECT * FROM "@ + table@ + " "@ + query_where@ + " LIMIT $2 OFFSET $3"@,
{
    let mut stmt = String::from_str("SELECT * FROM ");
    stmt.append(table);
    stmt.append(" ");
    stmt.append(query_where);
    stmt.append(" LIMIT $2 OFFSET $3");
    stmt
}

/// `SELECT * FROM <table> <where>`: one record of a table.
pub fn select_single_query(table: &str, query_where: &str) -> (stmt: String)
    ensures
        stmt@ == "SELECT * FROM "@ + table@ + " "@ + query_where@,
{
    let mut stmt = String::from_str("SELECT * FROM ");
    stmt.append(table);
    stmt.append(" ");
    stmt.append(query_where);
    stmt
}

/// `DELETE FROM <table> <where>`.
pub fn delete_query(table: &str, query_where: &str) -> (stmt: String)
    ensures
        stmt@ == "DELETE FROM "@ + table@ + " "@ + query_where@,
{
    let mut stmt = String::from_str("DELETE FROM ");
    stmt.append(table);
    stmt.append(" ");
    stmt.append(query_where);
    stmt
}

} // verus!

verus! {

/// The fields of a resource, each named as a column of the inner query.
pub open spec fn base_fields(fields: Seq<Seq<char>>) -> Seq<Seq<char>> {
    Seq::new(fields.len(), |i: int| "base_query."@ + fields[i])
}

/// The statement that fetches one page of a tree resource: the caller's
/// records, each joined with the records that hang under it.
pub open spec fn tree_page_statement(table: Seq<char>, fields: Seq<Seq<char>>) -> Seq<char> {
    "SELECT "@ + crate::text::joined(base_fields(fields), ", "@)
        + ", child_query.id AS child_id FROM (SELECT * FROM "@ + table
        + " WHERE user_id = $1 LIMIT $2 OFFSET $3) base_query LEFT JOIN "@ + table
        + " child_query ON base_query.id = child_query.parent_id"@
}

/// The statement that fetches one record of a tree resource, joined with the
/// records that hang under it.
pub open spec fn tree_single_statement(table: Seq<char>, fields: Seq<Seq<char>>) -> Seq<char> {
    "SELECT "@ + crate::text::joined(base_fields(fields), ", "@)
        + ", child_query.id AS child_id FROM (SELECT * FROM "@ + table
        + " WHERE id = $1 AND user_id = $2) base_query LEFT JOIN "@ + table
        + " child_query ON base_query.id = child_query.parent_id"@
}

fn prefixed(fields: &Vec<String>) -> (columns: Vec<String>)
    ensures
        crate::text::views(columns@) == base_fields(crate::text::views(fields@)),
{
    let mut columns: Vec<String> = Vec::new();
    let mut i: usize = 0;
    while i < fields.len()
        invariant
            i <= fields.len(),
            columns.len() == i,
            forall|k: int| 0 <= k < i ==> (#[trigger] columns[k])@ == "base_query."@ + fields[k]@,
        decreases fields.len() - i,
    {
        let mut column = String::from_str("base_query.");
        column.append(fields[i].as_str());
        columns.push(column);
        i += 1;
    }
    assert(crate::text::views(columns@) =~= base_fields(crate::text::views(fields@)));
    columns
}

/// Builds the statement that fetches one page of a tree resource. A record
/// comes once for each record that hangs under it, with that record's
/// identifier as `child_id`, and once with an empty `child_id` where nothing
/// hangs under it.
pub fn tree_select_all_query(table: &str, fields: &Vec<String>) -> (stmt: String)
    ensures
        stmt@ == tree_page_statement(table@, crate::text::views(fields@)),
{
    let columns = prefixed(fields);
    let list = crate::text::join(&columns, ", ");
    let mut stmt = String::from_str("SELECT ");
    stmt.append(list.as_str());
    stmt.append(", child_query.id AS child_id FROM (SELECT * FROM ");
    stmt.append(table);
    stmt.append(" WHERE user_id = $1 LIMIT $2 OFFSET $3) base_query LEFT JOIN ");
    stmt.append(table);
    stmt.append(" child_query ON base_query.id = child_query.parent_id");
    stmt
}

/// Builds the statement that fetches one record of a tree resource.
pub fn tree_select_single_query(table: &str, fields: &Vec<String>) -> (stmt: String)
    ensures
        stmt@ == tree_single_statement(table@, crate::text::views(fields@)),
{
    let columns = prefixed(fields);
    let list = crate::text::join(&columns, ", ");
    let mut stmt = String::from_str("SELECT ");
    stmt.append(list.as_str());
    stmt.append(", child_query.id AS child_id FROM (SELECT * FROM ");
    stmt.append(table);
    stmt.append(" WHERE id = $1 AND user_id = $2) base_query LEFT JOIN ");
    stmt.append(table);
    stmt.append(" child_query ON base_query.id = child_query.parent_id");
    stmt
}

} // verus!

verus! {

/// The answer to a create: the new identifier.
#[derive(Debug, Clone, Copy, PartialEq, Eq, Structural)]
pub struct PostResponse {
    pub id: Id,
}

impl PostResponse {
    /// The answer as JSON data: `{"id": "<id>"}`.
    pub fn to_json(&self) -> (body: Value)
        ensures
            body@ == id_body(self.id),
    {
        let mut members: Vec<(String, Value)> = Vec::new();
        members.push(("id".to_owned(), Value::String(id_to_string(self.id))));
        let body = Value::Object(members);
        proof {
            lemma_object_view(body);
            assert(members[0].1@ == ValueView::String(hyphenated(self.id)));
            assert(body@->Object_0 =~= seq![("id"@, ValueView::String(hyphenated(self.id)))]);
        }
        body
    }
}

} // verus!

verus! {

/// What is left to look at before a record is written: whether the request
/// empties a field that must be there, a record of another table that the
/// request refers to, and the parent that the request names.
#[derive(Debug, Clone, Copy, PartialEq, Eq)]
pub struct Plan {
    pub empties: bool,
    pub reference: Option<Id>,
    pub parent: Option<Id>,
}

/// Which answer of the storage a request waits for.
#[derive(Debug, Clone, Copy, PartialEq, Eq)]
pub enum Stage {
    /// Whether the record is the caller's.
    Record(Plan),
    /// Whether the record that the request refers to is the caller's.
    Reference(Plan),
    /// Whether the parent is the caller's.
    Parent,
    /// What the statement did.
    Write,
}

/// What a request asks of the storage.
#[derive(Debug, Clone, Copy, PartialEq, Eq)]
pub enum Ask {
    /// Is the record of the request the caller's?
    Record,
    /// Is this record of another table the caller's?
    Reference(Id),
    /// Is this record of the same table the caller's?
    Parent(Id),
    /// Run the statement.
    Write,
}

/// What the storage answered.
#[derive(Debug, Clone, Copy, PartialEq, Eq)]
pub enum Event {
    /// Whether the record that was asked for is the caller's.
    Owned(Result<bool, DbError>),
    /// How many rows a statement changed.
    Written(Result<u64, DbError>),
    /// The identifier of the record that was created.
    Inserted(Result<Id, DbError>),
}

/// How a request ends.
#[derive(Debug, Clone, Copy, PartialEq, Eq)]
pub enum Reply {
    /// A record was created under this identifier.
    Created(Id),
    /// The request was applied.
    Done,
    /// The request was refused.
    Refused(Failure),
    /// The storage failed.
    Failed(DbError),
}

/// One move of a request: a question to the storage and the stage that waits
/// for its answer, or the end.
#[derive(Debug, Clone, Copy, PartialEq, Eq)]
pub enum Step {
    Ask { ask: Ask, stage: Stage },
    Reply(Reply),
}

/// The move after the record that the request refers to was found.
pub open spec fn after_reference(plan: Plan) -> Step {
    match plan.parent {
        Some(p) => Step::Ask { ask: Ask::Parent(p), stage: Stage::Parent },
        None => Step::Ask { ask: Ask::Write, stage: Stage::Write },
    }
}

/// The move after the record of the request was found.
pub open spec fn after_record(plan: Plan) -> Step {
    if plan.empties {
        Step::Reply(Reply::Refused(Failure::Conflict))
    } else {
        match plan.reference {
            Some(r) => Step::Ask { ask: Ask::Reference(r), stage: Stage::Reference(plan) },
            None => after_reference(plan),
        }
    }
}

/// The parent that a patch hangs the record under, if it names one.
pub open spec fn new_parent(parent: Patch<Id>) -> Option<Id> {
    match parent {
        Patch::Value(p) => Some(p),
        _ => None,
    }
}

/// The first move of a patch. A request that touches nothing is refused as
/// empty, and one that names the record as its own parent as such, before the
/// storage is asked anything; then the record itself is asked for.
pub open spec fn patch_start(
    touched: bool,
    id: Id,
    parent: Patch<Id>,
    empties: bool,
    reference: Option<Id>,
) -> Step {
    if !touched {
        Step::Reply(Reply::Refused(Failure::EmptyPatch))
    } else if parent == Patch::Value(id) {
        Step::Reply(Reply::Refused(Failure::OwnParent))
    } else {
        Step::Ask {
            ask: Ask::Record,
            stage: Stage::Record(Plan { empties, reference, parent: new_parent(parent) }),
        }
    }
}

/// The first move of a create: the record that the request refers to is asked
/// for, then the parent, then the record is written.
pub open spec fn create_start(reference: Option<Id>, parent: Option<Id>) -> Step {
    after_record(Plan { empties: false, reference, parent })
}

/// The move on an answer of the storage.
///
/// A record that is not the caller's is `NotFound`; a record that the request
/// refers to and that is not the caller's is a `Conflict`; a parent that is not
/// the caller's is an `InvalidParent`. A statement that changed no row found no
/// record, and one that the storage refused for a constraint is a `Conflict`.
pub open spec fn advanced(stage: Stage, event: Event) -> Step {
    match (stage, event) {
        (Stage::Record(plan), Event::Owned(Ok(owned))) => if owned {
            after_record(plan)
        } else {
            Step::Reply(Reply::Refused(Failure::NotFound))
        },
        (Stage::Reference(plan), Event::Owned(Ok(owned))) => if owned {
            after_reference(plan)
        } else {
            Step::Reply(Reply::Refused(Failure::Conflict))
        },
        (Stage::Parent, Event::Owned(Ok(owned))) => if owned {
            Step::Ask { ask: Ask::Write, stage: Stage::Write }
        } else {
            Step::Reply(Reply::Refused(Failure::InvalidParent))
        },
        (Stage::Write, Event::Written(Ok(rows))) => if rows == 0 {
            Step::Reply(Reply::Refused(Failure::NotFound))
        } else {
            Step::Reply(Reply::Done)
        },
        (Stage::Write, Event::Inserted(Ok(id))) => Step::Reply(Reply::Created(id)),
        (_, Event::Owned(Err(error))) => Step::Reply(Reply::Failed(error)),
        (Stage::Write, Event::Written(Err(error))) => if error == DbError::Database {
            Step::Reply(Reply::Refused(Failure::Conflict))
        } else {
            Step::Reply(Reply::Failed(error))
        },
        (Stage::Write, Event::Inserted(Err(error))) => if error == DbError::Database {
            Step::Reply(Reply::Refused(Failure::Conflict))
        } else {
            Step::Reply(Reply::Failed(error))
        },
        _ => Step::Reply(Reply::Failed(DbError::Other)),
    }
}

fn next_after_reference(plan: Plan) -> (step: Step)
    ensures
        step == after_reference(plan),
{
    match plan.parent {
        Some(p) => Step::Ask { ask: Ask::Parent(p), stage: Stage::Parent },
        None => Step::Ask { ask: Ask::Write, stage: Stage::Write },
    }
}

fn next_after_record(plan: Plan) -> (step: Step)
    ensures
        step == after_record(plan),
{
    if plan.empties {
        Step::Reply(Reply::Refused(Failure::Conflict))
    } else {
        match plan.reference {
            Some(r) => Step::Ask { ask: Ask::Reference(r), stage: Stage::Reference(plan) },
            None => next_after_reference(plan),
        }
    }
}

/// Starts a patch of the record `id`.
pub fn patch_begin(
    touched: bool,
    id: Id,
    parent: &Patch<Id>,
    empties: bool,
    reference: Option<Id>,
) -> (step: Step)
    ensures
        step == patch_start(touched, id, *parent, empties, reference),
{
    if !touched {
        return Step::Reply(Reply::Refused(Failure::EmptyPatch));
    }
    let new_parent = match parent {
        Patch::Value(p) => {
            if *p == id {
                return Step::Reply(Reply::Refused(Failure::OwnParent));
            }
            Some(*p)
        },
        _ => None,
    };
    Step::Ask {
        ask: Ask::Record,
        stage: Stage::Record(Plan { empties, reference, parent: new_parent }),
    }
}

/// Starts a create.
pub fn create_begin(reference: Option<Id>, parent: Option<Id>) -> (step: Step)
    ensures
        step == create_start(reference, parent),
{
    next_after_record(Plan { empties: false, reference, parent })
}

/// Moves a request on an answer of the storage.
pub fn advance(stage: Stage, event: Event) -> (step: Step)
    ensures
        step == advanced(stage, event),
{
    match event {
        Event::Owned(Err(error)) => Step::Reply(Reply::Failed(error)),
        Event::Owned(Ok(owned)) => match stage {
            Stage::Record(plan) => {
                if owned {
                    next_after_record(plan)
                } else {
                    Step::Reply(Reply::Refused(Failure::NotFound))
                }
            },
            Stage::Reference(plan) => {
                if owned {
                    next_after_reference(plan)
                } else {
                    Step::Reply(Reply::Refused(Failure::Conflict))
                }
            },
            Stage::Parent => {
                if owned {
                    Step::Ask { ask: Ask::Write, stage: Stage::Write }
                } else {
                    Step::Reply(Reply::Refused(Failure::InvalidParent))
                }
            },
            Stage::Write => Step::Reply(Reply::Failed(DbError::Other)),
        },
        Event::Written(written) => match stage {
            Stage::Write => match written {
                Ok(rows) => {
                    if rows == 0 {
                        Step::Reply(Reply::Refused(Failure::NotFound))
                    } else {
                        Step::Reply(Reply::Done)
                    }
                },
                Err(DbError::Database) => Step::Reply(Reply::Refused(Failure::Conflict)),
                Err(error) => Step::Reply(Reply::Failed(error)),
            },
            _ => Step::Reply(Reply::Failed(DbError::Other)),
        },
        Event::Inserted(inserted) => match stage {
            Stage::Write => match inserted {
                Ok(id) => Step::Reply(Reply::Created(id)),
                Err(DbError::Database) => Step::Reply(Reply::Refused(Failure::Conflict)),
                Err(error) => Step::Reply(Reply::Failed(error)),
            },
            _ => Step::Reply(Reply::Failed(DbError::Other)),
        },
    }
}

/// The answer to a refused patch: a conflict reads `Invalid patch request.`
pub open spec fn patch_refusal(failure: Failure) -> APIResponseView {
    if failure == Failure::Conflict {
        message_response(Status { code: BAD_REQUEST }, "Invalid patch request."@)
    } else {
        refusal(failure)
    }
}

/// The answer to a refused create: a conflict reads `Invalid create request.`
pub open spec fn create_refusal(failure: Failure) -> APIResponseView {
    if failure == Failure::Conflict {
        message_response(Status { code: BAD_REQUEST }, "Invalid create request."@)
    } else {
        refusal(failure)
    }
}

/// The answer to the end of a patch.
pub open spec fn patch_reply_answer(reply: Reply) -> Result<APIResponseView, APIResponseView> {
    match reply {
        Reply::Done => Ok(message_response(Status { code: OK }, "Patch successful."@)),
        Reply::Created(_) => Ok(message_response(Status { code: OK }, "Patch successful."@)),
        Reply::Refused(failure) => Err(patch_refusal(failure)),
        Reply::Failed(_) => Err(
            message_response(
                Status { code: INTERNAL_SERVER_ERROR },
                "Failed to patch in database."@,
            ),
        ),
    }
}

/// The answer to the end of a create.
pub open spec fn create_reply_answer(reply: Reply, made: Id) -> Result<
    APIResponseView,
    APIResponseView,
> {
    match reply {
        Reply::Created(id) => Ok(
            APIResponseView { status: Status { code: CREATED }, data: id_body(id) },
        ),
        Reply::Done => Ok(APIResponseView { status: Status { code: CREATED }, data: id_body(made) }),
        Reply::Refused(failure) => Err(create_refusal(failure)),
        Reply::Failed(_) => Err(
            message_response(
                Status { code: INTERNAL_SERVER_ERROR },
                "Failed to create in database."@,
            ),
        ),
    }
}

/// The response to a refused patch.
pub fn patch_refused(failure: Failure) -> (response: APIResponse)
    ensures
        response@ == patch_refusal(failure),
{
    match failure {
        Failure::Conflict => bad_request("Invalid patch request."),
        _ => failure_response(failure),
    }
}

/// The response to a refused create.
pub fn create_refused(failure: Failure) -> (response: APIResponse)
    ensures
        response@ == create_refusal(failure),
{
    match failure {
        Failure::Conflict => bad_request("Invalid create request."),
        _ => failure_response(failure),
    }
}

/// Answers the end of a patch.
pub fn patch_reply(reply: Reply) -> (result: APIResult)
    ensures
        result_view(result) == patch_reply_answer(reply),
{
    match reply {
        Reply::Done => Ok(ok("Patch successful.")),
        Reply::Created(_) => Ok(ok("Patch successful.")),
        Reply::Refused(failure) => Err(patch_refused(failure)),
        Reply::Failed(_) => Err(internal_server_error("Failed to patch in database.")),
    }
}

/// Answers the end of a create. Where the storage does not name the new
/// record, `made` is its identifier.
pub fn create_reply(reply: Reply, made: Id) -> (result: APIResult)
    ensures
        result_view(result) == create_reply_answer(reply, made),
{
    match reply {
        Reply::Created(id) => Ok(created_response(id)),
        Reply::Done => Ok(created_response(made)),
        Reply::Refused(failure) => Err(create_refused(failure)),
        Reply::Failed(_) => Err(internal_server_error("Failed to create in database.")),
    }
}

/// What a step becomes when the storage answers as given: `record`,
/// `reference` and `parent` say whether those records are the caller's, and
/// `written` is what the statement does.
pub open spec fn answered_step(step: Step, record: bool, reference: bool, parent: bool, written: Event) -> Step {
    match step {
        Step::Reply(_) => step,
        Step::Ask { ask, stage } => advanced(
            stage,
            match ask {
                Ask::Record => Event::Owned(Ok(record)),
                Ask::Reference(_) => Event::Owned(Ok(reference)),
                Ask::Parent(_) => Event::Owned(Ok(parent)),
                Ask::Write => written,
            },
        ),
    }
}

/// How a request ends when the storage answers as given.
pub open spec fn run(step: Step, record: bool, reference: bool, parent: bool, written: Event) -> Reply {
    let last = answered_step(
        answered_step(
            answered_step(
                answered_step(step, record, reference, parent, written),
                record,
                reference,
                parent,
                written,
            ),
            record,
            reference,
            parent,
            written,
        ),
        record,
        reference,
        parent,
        written,
    );
    match last {
        Step::Reply(reply) => reply,
        Step::Ask { .. } => Reply::Failed(DbError::Other),
    }
}

/// A request ends after four answers at most.
pub proof fn lemma_run_ends(step: Step, record: bool, reference: bool, parent: bool, written: Event)
    requires
        step is Reply || step->stage is Record || (exists|plan: Plan| step == after_record(plan)),
        written is Written || written is Inserted,
    ensures
        answered_step(
            answered_step(
                answered_step(
                    answered_step(step, record, reference, parent, written),
                    record,
                    reference,
                    parent,
                    written,
                ),
                record,
                reference,
                parent,
                written,
            ),
            record,
            reference,
            parent,
            written,
        ) is Reply,
{
}

} // verus!

verus! {

/// The answer to a refused delete: a conflict reads `Invalid delete request.`
pub open spec fn delete_refusal(failure: Failure) -> APIResponseView {
    if failure == Failure::Conflict {
        message_response(Status { code: BAD_REQUEST }, "Invalid delete request."@)
    } else {
        refusal(failure)
    }
}

/// The response to a refused delete.
pub fn delete_refused(failure: Failure) -> (response: APIResponse)
    ensures
        response@ == delete_refusal(failure),
{
    match failure {
        Failure::Conflict => bad_request("Invalid delete request."),
        _ => failure_response(failure),
    }
}

} // verus!
