//! Lists: the caller's tree of lists.
//!
//! Every body is validated by the handler that takes it. A patch must touch
//! something. Deleting a list detaches the lists that hang under it; a list
//! that still holds tasks is not deleted, so that no task is ever left in a
//! list that is gone.

use vstd::prelude::*;
use crate::arena::{
    child_ids, create_result, delete_result, get_result, index_of, limit_or_default, owned,
    page_of, page_or_first, patch_result, visible, Arena, Failure, GetAllResponse, Record,
};
use crate::crud::{
    answered, create_begin, create_refusal, create_refused, create_start, created_response,
    delete_refusal, delete_refused, failure_response, id_body, patch_refusal, patch_refused,
    patch_start, refusal, result_view, run, Event, Reply, Step, OWNED_RECORD,
};
use crate::tasks::TaskFields;
use crate::guard::{Auth, UserModel};
use crate::ids::Id;
use crate::mounting::{crud_routes, mount_crud, Rocket};
use crate::patch::Patch;
use crate::responses::{
    message_response, ok, APIResponse, APIResponseView, APIResult, Status, CREATED, OK,
};
use crate::sql::{
    assign_id, assign_text, assignment_views, column_id, column_optional_id,
    column_optional_text, column_text, column_views, id_column, id_patch, insert_query,
    insert_statement, option_view, text_column, text_patch, update_query, update_statement,
    Assignment, AssignmentView, Column, ColumnView, SqlValueView,
};
use crate::validation::{
    checked, color_error, error_views, invalid_answer, is_color_match, lemma_noted, noted,
    regex_match, validate_color, validate_patch_color, verdict_view, ErrorView,
    ValidationErrors, COLOR_PATTERN,
};

verus! {

/// The table of the lists.
pub const TABLE: &'static str = "lists";

/// What a list holds besides its identifier, its owner and its parent.
#[derive(Debug)]
pub struct ListFields {
    pub title: String,
    pub description: Option<String>,
    pub color: String,
}

/// The body of a request that creates a list.
#[derive(Debug)]
pub struct PostInput {
    pub title: String,
    pub description: Option<String>,
    pub color: String,
    pub parent_id: Option<Id>,
}

/// The body of a request that patches a list.
#[derive(Debug)]
pub struct PatchInput {
    pub title: Patch<String>,
    pub description: Patch<String>,
    pub color: Patch<String>,
    pub parent_id: Patch<Id>,
}

/// A list as the caller gets it: its fields, and the lists that hang under it.
#[derive(Debug)]
pub struct GetModel {
    pub id: Id,
    pub user_id: Id,
    pub title: String,
    pub description: Option<String>,
    pub color: String,
    pub parent_id: Option<Id>,
    pub child_ids: Vec<Id>,
}

impl PostInput {
    /// The columns of the INSERT for this body: the owner first, then the
    /// fields.
    pub open spec fn column_list(&self, user_id: Id) -> Seq<ColumnView> {
        seq![
            ColumnView { name: "user_id"@, value: Some(SqlValueView::Uuid(user_id)) },
            ColumnView { name: "title"@, value: Some(SqlValueView::Text(self.title@)) },
            ColumnView { name: "description"@, value: text_column(self.description) },
            ColumnView { name: "color"@, value: Some(SqlValueView::Text(self.color@)) },
            ColumnView { name: "parent_id"@, value: id_column(self.parent_id) },
        ]
    }

    /// Whether the colour of the body is one.
    pub open spec fn color_ok(&self) -> bool {
        is_color_match(regex_match(COLOR_PATTERN@, self.color@))
    }

    /// The fields of the list that the body describes.
    pub open spec fn fields(&self) -> ListFields {
        ListFields { title: self.title, description: self.description, color: self.color }
    }

    /// Whether the body passes validation: the colour must be one.
    pub fn validate(&self) -> (verdict: Result<(), ValidationErrors>)
        ensures
            verdict is Ok <==> is_color_match(regex_match(COLOR_PATTERN@, self.color@)),
            verdict_view(verdict) == noted(
                Seq::empty(),
                !is_color_match(regex_match(COLOR_PATTERN@, self.color@)),
                color_error(),
            ),
    {
        let mut errors = ValidationErrors::new();
        assert(error_views(errors.errors@) =~= Seq::<ErrorView>::empty());
        let ghost none = error_views(errors.errors@);
        errors.note("color", validate_color(self.color.as_str()));
        proof {
            if !is_color_match(regex_match(COLOR_PATTERN@, self.color@)) {
                lemma_noted(none, errors.errors@);
            }
        }
        errors.into_result()
    }

    /// The columns of the INSERT for this body, stamped with the owner.
    pub fn columns(&self, user_id: Id) -> (columns: Vec<Column>)
        ensures
            column_views(columns@) == self.column_list(user_id),
    {
        let mut columns: Vec<Column> = Vec::new();
        columns.push(column_id("user_id", user_id));
        columns.push(column_text("title", self.title.as_str()));
        columns.push(column_optional_text("description", &self.description));
        columns.push(column_text("color", self.color.as_str()));
        columns.push(column_optional_id("parent_id", self.parent_id));
        assert(column_views(columns@) =~= self.column_list(user_id));
        columns
    }

    /// The statement that creates the list for its owner and hands back the
    /// new identifier.
    pub fn statement(&self, user_id: Id) -> (stmt: String)
        ensures
            stmt@ == insert_statement(TABLE@, self.column_list(user_id), "RETURNING id"@),
    {
        let columns = self.columns(user_id);
        insert_query(TABLE, &columns, "RETURNING id")
    }
}

impl PatchInput {
    /// The assignments of the UPDATE for this body.
    pub open spec fn assignment_list(&self) -> Seq<AssignmentView> {
        seq![
            AssignmentView { name: "title"@, value: text_patch(self.title) },
            AssignmentView { name: "description"@, value: text_patch(self.description) },
            AssignmentView { name: "color"@, value: text_patch(self.color) },
            AssignmentView { name: "parent_id"@, value: id_patch(self.parent_id) },
        ]
    }

    /// Whether the body touches a field of the list itself.
    pub open spec fn touches_fields(&self) -> bool {
        !(self.title is Missing) || !(self.description is Missing) || !(self.color is Missing)
    }

    /// Whether the body empties a field that a list cannot be without.
    pub open spec fn empties_required(&self) -> bool {
        self.title is Null || self.color is Null
    }

    /// Whether the body touches anything: a field of the list or its parent.
    pub open spec fn touched(&self) -> bool {
        self.touches_fields() || !(self.parent_id is Missing)
    }

    /// Whether the body touches a field of the list itself.
    pub fn is_touching_fields(&self) -> (touches: bool)
        ensures
            touches == self.touches_fields(),
    {
        !self.title.is_missing() || !self.description.is_missing() || !self.color.is_missing()
    }

    /// Whether the body touches anything.
    pub fn is_touched(&self) -> (touched: bool)
        ensures
            touched == self.touched(),
    {
        self.is_touching_fields() || !self.parent_id.is_missing()
    }

    /// Whether the body empties a field that a list cannot be without.
    pub fn is_emptying(&self) -> (empties: bool)
        ensures
            empties == self.empties_required(),
    {
        match (&self.title, &self.color) {
            (Patch::Null, _) => true,
            (_, Patch::Null) => true,
            _ => false,
        }
    }

    /// The fields of a list after the body is applied to them.
    pub open spec fn applied(&self, current: ListFields) -> ListFields {
        ListFields {
            title: match self.title {
                Patch::Value(t) => t,
                _ => current.title,
            },
            description: match self.description {
                Patch::Missing => current.description,
                Patch::Null => None,
                Patch::Value(d) => Some(d),
            },
            color: match self.color {
                Patch::Value(c) => c,
                _ => current.color,
            },
        }
    }

    /// Whether the colour of the body is acceptable: a colour that is given must
    /// be one.
    pub open spec fn color_ok(&self) -> bool {
        match self.color {
            Patch::Value(c) => is_color_match(regex_match(COLOR_PATTERN@, c@)),
            _ => true,
        }
    }

    /// Whether the body passes validation: a colour that is given must be one.
    pub fn validate(&self) -> (verdict: Result<(), ValidationErrors>)
        ensures
            verdict is Ok <==> self.color_ok(),
            verdict_view(verdict) == noted(Seq::empty(), !self.color_ok(), color_error()),
    {
        let mut errors = ValidationErrors::new();
        assert(error_views(errors.errors@) =~= Seq::<ErrorView>::empty());
        let ghost none = error_views(errors.errors@);
        errors.note("color", validate_patch_color(&self.color));
        proof {
            if !self.color_ok() {
                lemma_noted(none, errors.errors@);
            }
        }
        errors.into_result()
    }

    /// The assignments of the UPDATE for this body.
    pub fn assignments(&self) -> (assignments: Vec<Assignment>)
        ensures
            assignment_views(assignments@) == self.assignment_list(),
    {
        let mut assignments: Vec<Assignment> = Vec::new();
        assignments.push(assign_text("title", &self.title));
        assignments.push(assign_text("description", &self.description));
        assignments.push(assign_text("color", &self.color));
        assignments.push(assign_id("parent_id", &self.parent_id));
        assert(assignment_views(assignments@) =~= self.assignment_list());
        assignments
    }

    /// The statement that patches the caller's list, or nothing where the body
    /// touches no field.
    pub fn statement(&self) -> (stmt: Option<String>)
        ensures
            option_view(stmt) == update_statement(TABLE@, self.assignment_list(), OWNED_RECORD@),
    {
        let assignments = self.assignments();
        update_query(TABLE, &assignments, OWNED_RECORD)
    }

    /// Applies the body to the fields of a list.
    pub fn apply(&self, current: &ListFields) -> (fields: ListFields)
        ensures
            fields == self.applied(*current),
    {
        ListFields {
            title: match &self.title {
                Patch::Value(t) => t.clone(),
                _ => current.title.clone(),
            },
            description: match &self.description {
                Patch::Missing => match &current.description {
                    Some(d) => Some(d.clone()),
                    None => None,
                },
                Patch::Null => None,
                Patch::Value(d) => Some(d.clone()),
            },
            color: match &self.color {
                Patch::Value(c) => c.clone(),
                _ => current.color.clone(),
            },
        }
    }
}

/// Whether a model shows a record and its children.
pub open spec fn shows(model: GetModel, record: Record<ListFields>, children: Seq<Id>) -> bool {
    &&& model.id == record.id
    &&& model.user_id == record.owner
    &&& model.title == record.payload.title
    &&& model.description == record.payload.description
    &&& model.color == record.payload.color
    &&& model.parent_id == record.parent
    &&& model.child_ids@ == children
}

fn model(record: &Record<ListFields>, children: Vec<Id>) -> (model: GetModel)
    ensures
        shows(model, *record, children@),
{
    GetModel {
        id: record.id,
        user_id: record.owner,
        title: record.payload.title.clone(),
        description: match &record.payload.description {
            Some(d) => Some(d.clone()),
            None => None,
        },
        color: record.payload.color.clone(),
        parent_id: record.parent,
        child_ids: children,
    }
}

/// What patching a list does to the arena, or why it is refused. A body that
/// touches nothing is refused first; then one that names the list as its own
/// parent; then a list that is not the caller's; then a body that empties the
/// title or the colour; then a parent that is not the caller's.
pub open spec fn list_patch_result(
    rows: Seq<Record<ListFields>>,
    owner: Id,
    id: Id,
    input: PatchInput,
) -> Result<Seq<Record<ListFields>>, Failure> {
    if !input.touched() {
        Err(Failure::EmptyPatch)
    } else if input.parent_id == Patch::Value(id) {
        Err(Failure::OwnParent)
    } else if !visible(rows, owner, id) {
        Err(Failure::NotFound)
    } else if input.empties_required() {
        Err(Failure::Conflict)
    } else {
        patch_result(
            rows,
            owner,
            id,
            if input.touches_fields() {
                Some(input.applied(rows[index_of(rows, id)].payload))
            } else {
                None
            },
            input.parent_id,
        )
    }
}

/// The answer to a body whose colour is none.
pub open spec fn color_refused() -> APIResponseView {
    invalid_answer(seq![color_error()])
}

/// What a request to patch a list does: the arena afterwards, or the answer
/// that refuses it. The body is validated before anything else.
pub open spec fn list_patch_outcome(
    rows: Seq<Record<ListFields>>,
    owner: Id,
    id: Id,
    input: PatchInput,
) -> Result<Seq<Record<ListFields>>, APIResponseView> {
    if !input.color_ok() {
        Err(color_refused())
    } else {
        match list_patch_result(rows, owner, id, input) {
            Ok(after) => Ok(after),
            Err(failure) => Err(patch_refusal(failure)),
        }
    }
}

/// What a request to create a list does: the arena afterwards, or the answer
/// that refuses it. The body is validated before anything else.
pub open spec fn list_create_outcome(
    rows: Seq<Record<ListFields>>,
    new_id: Id,
    owner: Id,
    input: PostInput,
) -> Result<Seq<Record<ListFields>>, APIResponseView> {
    if !input.color_ok() {
        Err(color_refused())
    } else {
        match create_result(rows, new_id, owner, input.parent_id, input.fields()) {
            Ok(after) => Ok(after),
            Err(failure) => Err(create_refusal(failure)),
        }
    }
}

/// Whether a list still holds tasks.
pub open spec fn holds_tasks(tasks: Seq<Record<TaskFields>>, list: Id) -> bool {
    exists|i: int| 0 <= i < tasks.len() && (#[trigger] tasks[i]).payload.list_id == list
}

/// What deleting a list does to the arena, or why it is refused: the list must
/// be the caller's, and it must hold no task any more.
pub open spec fn list_delete_result(
    rows: Seq<Record<ListFields>>,
    tasks: Seq<Record<TaskFields>>,
    owner: Id,
    id: Id,
) -> Result<Seq<Record<ListFields>>, Failure> {
    if !visible(rows, owner, id) {
        Err(Failure::NotFound)
    } else if holds_tasks(tasks, id) {
        Err(Failure::Conflict)
    } else {
        delete_result(rows, owner, id)
    }
}

/// Starts a create against a storage: the body is validated, then the parent
/// is asked for where the body names one.
pub fn post_begin(input: &PostInput) -> (step: Result<Step, APIResponse>)
    ensures
        match step {
            Ok(first) => input.color_ok() && first == create_start(None, input.parent_id),
            Err(response) => !input.color_ok() && response@ == color_refused(),
        },
{
    let go = checked(input.validate());
    proof {
        assert(noted(Seq::empty(), true, color_error()) =~= seq![color_error()]);
    }
    match go {
        Err(response) => Err(response),
        Ok(_) => Ok(create_begin(None, input.parent_id)),
    }
}

/// Starts a patch against a storage: the body is validated, then looked at,
/// then the record is asked for.
pub fn patch_begin(id: Id, input: &PatchInput) -> (step: Result<Step, APIResponse>)
    ensures
        match step {
            Ok(first) => input.color_ok() && first == patch_start(
                input.touched(),
                id,
                input.parent_id,
                input.empties_required(),
                None,
            ),
            Err(response) => !input.color_ok() && response@ == color_refused(),
        },
{
    let go = checked(input.validate());
    proof {
        assert(noted(Seq::empty(), true, color_error()) =~= seq![color_error()]);
    }
    match go {
        Err(response) => Err(response),
        Ok(_) => Ok(
            crate::crud::patch_begin(
                input.is_touched(),
                id,
                &input.parent_id,
                input.is_emptying(),
                None,
            ),
        ),
    }
}

/// Creates a list for the caller under the identifier `new_id`. The colour
/// must be one, and a parent, where the body names one, must be a list of the
/// caller.
pub fn post(
    lists: &mut Arena<ListFields>,
    auth_user: &Auth<UserModel>,
    new_id: Id,
    input: PostInput,
) -> (result: APIResult)
    requires
        old(lists).wf(),
    ensures
        final(lists).wf(),
        match list_create_outcome(old(lists)@, new_id, auth_user.0.id, input) {
            Ok(rows) => final(lists)@ == rows && result_view(result) == answered(
                APIResponseView { status: Status { code: CREATED }, data: id_body(new_id) },
            ),
            Err(answer) => final(lists)@ == old(lists)@ && result_view(result) == Err::<
                APIResponseView,
                APIResponseView,
            >(answer),
        },
{
    if let Err(response) = post_begin(&input) {
        return Err(response);
    }
    let parent = input.parent_id;
    let fields = ListFields {
        title: input.title,
        description: input.description,
        color: input.color,
    };
    match lists.create(new_id, auth_user.0.id, parent, fields) {
        Ok(id) => Ok(created_response(id)),
        Err(failure) => Err(create_refused(failure)),
    }
}

/// Patches a list of the caller: its fields, and its place in the tree, in one
/// step. A colour that is given must be one, and the body must touch
/// something.
pub fn patch(
    lists: &mut Arena<ListFields>,
    auth_user: &Auth<UserModel>,
    id: Id,
    input: &PatchInput,
) -> (result: APIResult)
    requires
        old(lists).wf(),
    ensures
        final(lists).wf(),
        match list_patch_outcome(old(lists)@, auth_user.0.id, id, *input) {
            Ok(rows) => final(lists)@ == rows && result_view(result) == answered(
                message_response(Status { code: OK }, "Patch successful."@),
            ),
            Err(answer) => final(lists)@ == old(lists)@ && result_view(result) == Err::<
                APIResponseView,
                APIResponseView,
            >(answer),
        },
{
    let owner = auth_user.0.id;
    match patch_begin(id, input) {
        Err(response) => {
            return Err(response);
        },
        Ok(Step::Reply(Reply::Refused(failure))) => {
            return Err(patch_refused(failure));
        },
        Ok(_) => {},
    }
    let payload = match lists.get(owner, id) {
        Err(failure) => {
            return Err(patch_refused(failure));
        },
        Ok(record) => {
            if input.is_emptying() {
                return Err(patch_refused(Failure::Conflict));
            }
            if input.is_touching_fields() {
                Some(input.apply(&record.payload))
            } else {
                None
            }
        },
    };
    let parent = match &input.parent_id {
        Patch::Missing => Patch::Missing,
        Patch::Null => Patch::Null,
        Patch::Value(p) => Patch::Value(*p),
    };
    match lists.patch(owner, id, payload, parent) {
        Ok(_) => Ok(ok("Patch successful.")),
        Err(failure) => Err(patch_refused(failure)),
    }
}

fn has_tasks(tasks: &Arena<TaskFields>, list: Id) -> (found: bool)
    ensures
        found == holds_tasks(tasks@, list),
{
    let n = tasks.len();
    let mut i: usize = 0;
    while i < n
        invariant
            i <= n,
            n == tasks@.len(),
            forall|k: int| 0 <= k < i ==> (#[trigger] tasks@[k]).payload.list_id != list,
        decreases n - i,
    {
        if tasks.at(i).payload.list_id == list {
            return true;
        }
        i += 1;
    }
    false
}

/// Deletes a list of the caller. The lists that hang under it are detached. A
/// list that still holds tasks is not deleted: its tasks are moved or deleted
/// first, so that no task is left in a list that is gone.
pub fn delete(
    lists: &mut Arena<ListFields>,
    tasks: &Arena<TaskFields>,
    auth_user: &Auth<UserModel>,
    id: Id,
) -> (result: APIResult)
    requires
        old(lists).wf(),
    ensures
        final(lists).wf(),
        match list_delete_result(old(lists)@, tasks@, auth_user.0.id, id) {
            Ok(rows) => final(lists)@ == rows && result_view(result) == answered(
                message_response(Status { code: OK }, "Delete successful."@),
            ),
            Err(failure) => final(lists)@ == old(lists)@ && result_view(result) == Err::<
                APIResponseView,
                APIResponseView,
            >(delete_refusal(failure)),
        },
{
    if lists.find(auth_user.0.id, id).is_none() {
        return Err(delete_refused(Failure::NotFound));
    }
    if has_tasks(tasks, id) {
        return Err(delete_refused(Failure::Conflict));
    }
    match lists.delete(auth_user.0.id, id) {
        Ok(_) => Ok(ok("Delete successful.")),
        Err(failure) => Err(delete_refused(failure)),
    }
}

/// Fetches a list of the caller, with the identifiers of the lists that hang
/// under it.
pub fn get_single(lists: &Arena<ListFields>, auth_user: &Auth<UserModel>, id: Id) -> (result: Result<
    GetModel,
    APIResponse,
>)
    requires
        lists.wf(),
    ensures
        match get_result(lists@, auth_user.0.id, id) {
            Ok(record) => result is Ok && shows(result->Ok_0, record, child_ids(lists@, id)),
            Err(failure) => result is Err && result->Err_0@ == refusal(failure),
        },
{
    match lists.get(auth_user.0.id, id) {
        Ok(record) => Ok(model(record, lists.children(id))),
        Err(failure) => Err(failure_response(failure)),
    }
}

/// Lists the caller's lists, one page of them, each with the identifiers of the
/// lists that hang under it.
pub fn get_all(
    lists: &Arena<ListFields>,
    auth_user: &Auth<UserModel>,
    limit: Option<u32>,
    page: Option<u32>,
) -> (listing: GetAllResponse<GetModel>)
    ensures
        listing.limit == limit_or_default(limit),
        listing.page == page_or_first(page),
        ({
            let shown = page_of(
                owned(lists@, auth_user.0.id),
                listing.limit as nat,
                listing.page as nat,
            );
            &&& listing.items@.len() == shown.len()
            &&& forall|k: int|
                0 <= k < shown.len() ==> shows(
                    #[trigger] listing.items@[k],
                    shown[k],
                    child_ids(lists@, shown[k].id),
                )
        }),
{
    let found = lists.list(auth_user.0.id, limit, page);
    let ghost shown = page_of(
        owned(lists@, auth_user.0.id),
        found.limit as nat,
        found.page as nat,
    );
    let mut items: Vec<GetModel> = Vec::new();
    let mut k: usize = 0;
    while k < found.items.len()
        invariant
            k <= found.items.len(),
            crate::arena::pointed(found.items@) == shown,
            items@.len() == k,
            forall|j: int|
                0 <= j < k ==> shows(#[trigger] items@[j], shown[j], child_ids(lists@, shown[j].id)),
        decreases found.items.len() - k,
    {
        let record = found.items[k];
        assert(*record == crate::arena::pointed(found.items@)[k as int]);
        let item = model(record, lists.children(record.id));
        items.push(item);
        k += 1;
    }
    assert(crate::arena::pointed(found.items@).len() == found.items@.len());
    GetAllResponse { items, limit: found.limit, page: found.page }
}

/// Mounts the routes of the lists under `/lists`.
pub fn mount_rocket(rocket: Rocket) -> (mounted: Rocket)
    ensures
        mounted.routes() == rocket.routes() + crud_routes("/lists"@),
        mounted.catchers() == rocket.catchers(),
        mounted.fairings() == rocket.fairings(),
        mounted.managed() == rocket.managed(),
{
    mount_crud(rocket, "/lists")
}

} // verus!

verus! {

/// Self-parent rejection for lists: a patch that names the list as its own
/// parent is answered with `400`, whoever asks and whatever else the body says.
pub proof fn lemma_own_parent_is_bad_request(
    rows: Seq<Record<ListFields>>,
    owner: Id,
    id: Id,
    input: PatchInput,
)
    requires
        input.parent_id == Patch::Value(id),
    ensures
        list_patch_outcome(rows, owner, id, input) is Err,
        list_patch_outcome(rows, owner, id, input)->Err_0.status.code == 400,
        input.color_ok() ==> list_patch_outcome(rows, owner, id, input) == Err::<
            Seq<Record<ListFields>>,
            APIResponseView,
        >(refusal(Failure::OwnParent)),
{
}

/// Ownership isolation for lists: a list of one user is not found when another
/// user fetches, patches or deletes it. (A body that fails validation, touches
/// nothing or names the list as its own parent is refused as such, with `400`,
/// before the arena is looked at.)
pub proof fn lemma_foreign_list_not_found(
    rows: Seq<Record<ListFields>>,
    tasks: Seq<Record<TaskFields>>,
    owner: Id,
    caller: Id,
    id: Id,
    input: PatchInput,
)
    requires
        crate::arena::well_formed(rows),
        visible(rows, owner, id),
        caller != owner,
        input.color_ok(),
        input.touched(),
        input.parent_id != Patch::Value(id),
    ensures
        get_result(rows, caller, id) == Err::<Record<ListFields>, Failure>(Failure::NotFound),
        list_patch_outcome(rows, caller, id, input) == Err::<
            Seq<Record<ListFields>>,
            APIResponseView,
        >(refusal(Failure::NotFound)),
        list_delete_result(rows, tasks, caller, id) == Err::<Seq<Record<ListFields>>, Failure>(
            Failure::NotFound,
        ),
        refusal(Failure::NotFound).status.code == 404,
        delete_refusal(Failure::NotFound) == refusal(Failure::NotFound),
{
    crate::arena::lemma_foreign_record_not_found(rows, owner, caller, id, None, input.parent_id);
}

/// The steps against a storage end as the arena does: when the storage answers
/// what the arena holds, a patch ends applied where the arena applies it, and is
/// refused for the same reason where the arena refuses it.
pub proof fn lemma_patch_steps_agree(
    rows: Seq<Record<ListFields>>,
    owner: Id,
    id: Id,
    input: PatchInput,
)
    requires
        crate::arena::well_formed(rows),
    ensures
        run(
            patch_start(input.touched(), id, input.parent_id, input.empties_required(), None),
            visible(rows, owner, id),
            true,
            input.parent_id is Value && visible(rows, owner, input.parent_id->Value_0),
            Event::Written(Ok(1)),
        ) == (match list_patch_result(rows, owner, id, input) {
            Ok(_) => Reply::Done,
            Err(failure) => Reply::Refused(failure),
        }),
{
}

/// The steps against a storage end as the arena does: a create under a new
/// identifier ends created where the arena creates it, and is refused for the
/// same reason where the arena refuses it.
pub proof fn lemma_create_steps_agree(
    rows: Seq<Record<ListFields>>,
    new_id: Id,
    owner: Id,
    input: PostInput,
)
    requires
        !crate::arena::present(rows, new_id),
    ensures
        run(
            create_start(None, input.parent_id),
            true,
            true,
            input.parent_id is Some && visible(rows, owner, input.parent_id->0),
            Event::Inserted(Ok(new_id)),
        ) == (match create_result(rows, new_id, owner, input.parent_id, input.fields()) {
            Ok(_) => Reply::Created(new_id),
            Err(failure) => Reply::Refused(failure),
        }),
{
}

/// A list as it is stored.
#[derive(Debug)]
pub struct ListModel {
    pub id: Id,
    pub parent_id: Option<Id>,
    pub user_id: Id,
    pub title: String,
    pub description: Option<String>,
    pub color: String,
}

impl ListModel {
    /// The list as the caller gets it, with the lists that hang under it.
    pub fn into_get_model(self, child_ids: Vec<Id>) -> (model: GetModel)
        ensures
            model.id == self.id,
            model.user_id == self.user_id,
            model.title == self.title,
            model.description == self.description,
            model.color == self.color,
            model.parent_id == self.parent_id,
            model.child_ids == child_ids,
    {
        GetModel {
            id: self.id,
            user_id: self.user_id,
            title: self.title,
            description: self.description,
            color: self.color,
            parent_id: self.parent_id,
            child_ids,
        }
    }
}

} // verus!
