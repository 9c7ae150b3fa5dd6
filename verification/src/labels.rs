//! Labels: the caller's labels for tasks.
//!
//! Every body is validated by the handler that takes it. A patch must touch
//! something. Deleting a label takes it off every task.

use vstd::prelude::*;
use crate::arena::{
    create_result, delete_result, get_result, index_of, limit_or_default, owned, page_of,
    page_or_first, patch_result, pointed, visible, Arena, Failure, GetAllResponse, Record,
};
use crate::crud::{
    answered, create_begin, create_refusal, create_refused, create_start, created_response,
    failure_response, id_body, patch_refusal, patch_refused, patch_start, refusal, refused,
    result_view, run, Event, Reply, Step, OWNED_RECORD,
};
use crate::guard::{Auth, UserModel};
use crate::ids::Id;
use crate::mounting::{crud_routes, mount_crud, Rocket};
use crate::patch::Patch;
use crate::tasks::{without_label, TaskLabels};
use crate::responses::{
    message_response, ok, APIResponse, APIResponseView, APIResult, Status, CREATED, OK,
};
use crate::sql::{
    assign_text, assignment_views, column_id, column_optional_text, column_text, column_views,
    insert_query, insert_statement, option_view, text_column, text_patch, update_query,
    update_statement, Assignment, AssignmentView, Column, ColumnView, SqlValueView,
};
use crate::validation::{
    checked, color_error, error_views, invalid_answer, is_color_match, lemma_noted, noted,
    regex_match, validate_color, validate_patch_color, verdict_view, ErrorView,
    ValidationErrors, COLOR_PATTERN,
};

verus! {

/// The table of the labels.
pub const TABLE: &'static str = "labels";

/// A label as it is stored and as the caller gets it.
#[derive(Debug)]
pub struct LabelModel {
    pub id: Id,
    pub user_id: Id,
    pub title: String,
    pub description: Option<String>,
    pub color: String,
}

/// A label on a task.
#[derive(Debug, Clone, Copy, PartialEq, Eq, Structural)]
pub struct TaskLabelModel {
    pub task_id: Id,
    pub label_id: Id,
}

/// What a label holds besides its identifier and its owner.
#[derive(Debug)]
pub struct LabelFields {
    pub title: String,
    pub description: Option<String>,
    pub color: String,
}

/// The body of a request that creates a label.
#[derive(Debug)]
pub struct PostInput {
    pub title: String,
    pub description: Option<String>,
    pub color: String,
}

/// The body of a request that patches a label.
#[derive(Debug)]
pub struct PatchInput {
    pub title: Patch<String>,
    pub description: Patch<String>,
    pub color: Patch<String>,
}

impl PostInput {
    /// The columns of the INSERT for this body: the owner first, then the
    /// fields.
    pub open spec fn column_list(&self, user_id: Id) -> Seq<ColumnView> {
        seq![
            ColumnView { name: "user_id"@, value: Some(SqlValueView::Uuid(user_id)) },
            ColumnView { name: "title"@, value: Some(SqlValueView::Text(self.title@)) },
            ColumnView { name: "description"@, value: text_column(self.description) },
            ColumnView { name: "color"@, value: Some(SqlValueView::Text(self.color@)) },
        ]
    }

    /// Whether the colour of the body is one.
    pub open spec fn color_ok(&self) -> bool {
        is_color_match(regex_match(COLOR_PATTERN@, self.color@))
    }

    /// The fields of the label that the body describes.
    pub open spec fn fields(&self) -> LabelFields {
        LabelFields { title: self.title, description: self.description, color: self.color }
    }

    /// Whether the body passes validation: the colour must be one.
    pub fn validate(&self) -> (verdict: Result<(), ValidationErrors>)
        ensures
            verdict is Ok <==> is_color_match(regex_match(COLOR_PATTERN@, self.color@)),
            verdict_view(verdict) == noted(
                Seq::empty(),
                !is_color_match(regex_match(COLOR_PATTERN@, self.color@)),
                color_error(),
            ),
    {
        let mut errors = ValidationErrors::new();
        assert(error_views(errors.errors@) =~= Seq::<ErrorView>::empty());
        let ghost none = error_views(errors.errors@);
        errors.note("color", validate_color(self.color.as_str()));
        proof {
            if !is_color_match(regex_match(COLOR_PATTERN@, self.color@)) {
                lemma_noted(none, errors.errors@);
            }
        }
        errors.into_result()
    }

    /// The columns of the INSERT for this body, stamped with the owner.
    pub fn columns(&self, user_id: Id) -> (columns: Vec<Column>)
        ensures
            column_views(columns@) == self.column_list(user_id),
    {
        let mut columns: Vec<Column> = Vec::new();
        columns.push(column_id("user_id", user_id));
        columns.push(column_text("title", self.title.as_str()));
        columns.push(column_optional_text("description", &self.description));
        columns.push(column_text("color", self.color.as_str()));
        assert(column_views(columns@) =~= self.column_list(user_id));
        columns
    }

    /// The statement that creates the label for its owner and hands back the
    /// new identifier.
    pub fn statement(&self, user_id: Id) -> (stmt: String)
        ensures
            stmt@ == insert_statement(TABLE@, self.column_list(user_id), "RETURNING id"@),
    {
        let columns = self.columns(user_id);
        insert_query(TABLE, &columns, "RETURNING id")
    }
}

impl PatchInput {
    /// The assignments of the UPDATE for this body.
    pub open spec fn assignment_list(&self) -> Seq<AssignmentView> {
        seq![
            AssignmentView { name: "title"@, value: text_patch(self.title) },
            AssignmentView { name: "description"@, value: text_patch(self.description) },
            AssignmentView { name: "color"@, value: text_patch(self.color) },
        ]
    }

    /// Whether the body touches a field.
    pub open spec fn touches_fields(&self) -> bool {
        !(self.title is Missing) || !(self.description is Missing) || !(self.color is Missing)
    }

    /// Whether the body empties a field that a label cannot be without.
    pub open spec fn empties_required(&self) -> bool {
        self.title is Null || self.color is Null
    }

    /// Whether the body touches a field.
    pub fn is_touching_fields(&self) -> (touches: bool)
        ensures
            touches == self.touches_fields(),
    {
        !self.title.is_missing() || !self.description.is_missing() || !self.color.is_missing()
    }

    /// Whether the body empties a field that a label cannot be without.
    pub fn is_emptying(&self) -> (empties: bool)
        ensures
            empties == self.empties_required(),
    {
        match (&self.title, &self.color) {
            (Patch::Null, _) => true,
            (_, Patch::Null) => true,
            _ => false,
        }
    }

    /// The fields of a label after the body is applied to them.
    pub open spec fn applied(&self, current: LabelFields) -> LabelFields {
        LabelFields {
            title: match self.title {
                Patch::Value(t) => t,
                _ => current.title,
            },
            description: match self.description {
                Patch::Missing => current.description,
                Patch::Null => None,
                Patch::Value(d) => Some(d),
            },
            color: match self.color {
                Patch::Value(c) => c,
                _ => current.color,
            },
        }
    }

    /// Whether the colour of the body is acceptable: a colour that is given must
    /// be one.
    pub open spec fn color_ok(&self) -> bool {
        match self.color {
            Patch::Value(c) => is_color_match(regex_match(COLOR_PATTERN@, c@)),
            _ => true,
        }
    }

    /// Whether the body passes validation: a colour that is given must be one.
    pub fn validate(&self) -> (verdict: Result<(), ValidationErrors>)
        ensures
            verdict is Ok <==> self.color_ok(),
            verdict_view(verdict) == noted(Seq::empty(), !self.color_ok(), color_error()),
    {
        let mut errors = ValidationErrors::new();
        assert(error_views(errors.errors@) =~= Seq::<ErrorView>::empty());
        let ghost none = error_views(errors.errors@);
        errors.note("color", validate_patch_color(&self.color));
        proof {
            if !self.color_ok() {
                lemma_noted(none, errors.errors@);
            }
        }
        errors.into_result()
    }

    /// The assignments of the UPDATE for this body.
    pub fn assignments(&self) -> (assignments: Vec<Assignment>)
        ensures
            assignment_views(assignments@) == self.assignment_list(),
    {
        let mut assignments: Vec<Assignment> = Vec::new();
        assignments.push(assign_text("title", &self.title));
        assignments.push(assign_text("description", &self.description));
        assignments.push(assign_text("color", &self.color));
        assert(assignment_views(assignments@) =~= self.assignment_list());
        assignments
    }

    /// The statement that patches the caller's label, or nothing where the body
    /// touches no field.
    pub fn statement(&self) -> (stmt: Option<String>)
        ensures
            option_view(stmt) == update_statement(TABLE@, self.assignment_list(), OWNED_RECORD@),
    {
        let assignments = self.assignments();
        update_query(TABLE, &assignments, OWNED_RECORD)
    }

    /// Applies the body to the fields of a label.
    pub fn apply(&self, current: &LabelFields) -> (fields: LabelFields)
        ensures
            fields == self.applied(*current),
    {
        LabelFields {
            title: match &self.title {
                Patch::Value(t) => t.clone(),
                _ => current.title.clone(),
            },
            description: match &self.description {
                Patch::Missing => match &current.description {
                    Some(d) => Some(d.clone()),
                    None => None,
                },
                Patch::Null => None,
                Patch::Value(d) => Some(d.clone()),
            },
            color: match &self.color {
                Patch::Value(c) => c.clone(),
                _ => current.color.clone(),
            },
        }
    }
}

/// Whether a model shows a record.
pub open spec fn shows(model: LabelModel, record: Record<LabelFields>) -> bool {
    &&& model.id == record.id
    &&& model.user_id == record.owner
    &&& model.title == record.payload.title
    &&& model.description == record.payload.description
    &&& model.color == record.payload.color
}

fn model(record: &Record<LabelFields>) -> (model: LabelModel)
    ensures
        shows(model, *record),
{
    LabelModel {
        id: record.id,
        user_id: record.owner,
        title: record.payload.title.clone(),
        description: match &record.payload.description {
            Some(d) => Some(d.clone()),
            None => None,
        },
        color: record.payload.color.clone(),
    }
}

/// What patching a label does to the arena, or why it is refused. A body that
/// touches nothing is refused first; then a label that is not the caller's; then
/// a body that empties the title or the colour.
pub open spec fn label_patch_result(
    rows: Seq<Record<LabelFields>>,
    owner: Id,
    id: Id,
    input: PatchInput,
) -> Result<Seq<Record<LabelFields>>, Failure> {
    if !input.touches_fields() {
        Err(Failure::EmptyPatch)
    } else if !visible(rows, owner, id) {
        Err(Failure::NotFound)
    } else if input.empties_required() {
        Err(Failure::Conflict)
    } else {
        patch_result(
            rows,
            owner,
            id,
            Some(input.applied(rows[index_of(rows, id)].payload)),
            Patch::Missing,
        )
    }
}

/// The answer to a body whose colour is none.
pub open spec fn color_refused() -> APIResponseView {
    invalid_answer(seq![color_error()])
}

/// What a request to patch a label does: the arena afterwards, or the answer
/// that refuses it. The body is validated before anything else.
pub open spec fn label_patch_outcome(
    rows: Seq<Record<LabelFields>>,
    owner: Id,
    id: Id,
    input: PatchInput,
) -> Result<Seq<Record<LabelFields>>, APIResponseView> {
    if !input.color_ok() {
        Err(color_refused())
    } else {
        match label_patch_result(rows, owner, id, input) {
            Ok(after) => Ok(after),
            Err(failure) => Err(patch_refusal(failure)),
        }
    }
}

/// What a request to create a label does: the arena afterwards, or the answer
/// that refuses it. The body is validated before anything else.
pub open spec fn label_create_outcome(
    rows: Seq<Record<LabelFields>>,
    new_id: Id,
    owner: Id,
    input: PostInput,
) -> Result<Seq<Record<LabelFields>>, APIResponseView> {
    if !input.color_ok() {
        Err(color_refused())
    } else {
        match create_result(rows, new_id, owner, None, input.fields()) {
            Ok(after) => Ok(after),
            Err(failure) => Err(create_refusal(failure)),
        }
    }
}

/// Starts a create against a storage: the body is validated, then the label is
/// written.
pub fn post_begin(input: &PostInput) -> (step: Result<Step, APIResponse>)
    ensures
        match step {
            Ok(first) => input.color_ok() && first == create_start(None, None),
            Err(response) => !input.color_ok() && response@ == color_refused(),
        },
{
    let go = checked(input.validate());
    proof {
        assert(noted(Seq::empty(), true, color_error()) =~= seq![color_error()]);
    }
    match go {
        Err(response) => Err(response),
        Ok(_) => Ok(create_begin(None, None)),
    }
}

/// Starts a patch against a storage: the body is validated, then looked at,
/// then the label is asked for.
pub fn patch_begin(id: Id, input: &PatchInput) -> (step: Result<Step, APIResponse>)
    ensures
        match step {
            Ok(first) => input.color_ok() && first == patch_start(
                input.touches_fields(),
                id,
                Patch::Missing,
                input.empties_required(),
                None,
            ),
            Err(response) => !input.color_ok() && response@ == color_refused(),
        },
{
    let go = checked(input.validate());
    proof {
        assert(noted(Seq::empty(), true, color_error()) =~= seq![color_error()]);
    }
    match go {
        Err(response) => Err(response),
        Ok(_) => Ok(
            crate::crud::patch_begin(
                input.is_touching_fields(),
                id,
                &Patch::Missing,
                input.is_emptying(),
                None,
            ),
        ),
    }
}

/// Creates a label for the caller under the identifier `new_id`. The colour
/// must be one.
pub fn post(
    labels: &mut Arena<LabelFields>,
    auth_user: &Auth<UserModel>,
    new_id: Id,
    input: PostInput,
) -> (result: APIResult)
    requires
        old(labels).wf(),
    ensures
        final(labels).wf(),
        match label_create_outcome(old(labels)@, new_id, auth_user.0.id, input) {
            Ok(rows) => final(labels)@ == rows && result_view(result) == answered(
                APIResponseView { status: Status { code: CREATED }, data: id_body(new_id) },
            ),
            Err(answer) => final(labels)@ == old(labels)@ && result_view(result) == Err::<
                APIResponseView,
                APIResponseView,
            >(answer),
        },
{
    if let Err(response) = post_begin(&input) {
        return Err(response);
    }
    let fields = LabelFields {
        title: input.title,
        description: input.description,
        color: input.color,
    };
    match labels.create(new_id, auth_user.0.id, None, fields) {
        Ok(id) => Ok(created_response(id)),
        Err(failure) => Err(create_refused(failure)),
    }
}

/// Patches a label of the caller. A colour that is given must be one, and the
/// body must touch something.
pub fn patch(
    labels: &mut Arena<LabelFields>,
    auth_user: &Auth<UserModel>,
    id: Id,
    input: &PatchInput,
) -> (result: APIResult)
    requires
        old(labels).wf(),
    ensures
        final(labels).wf(),
        match label_patch_outcome(old(labels)@, auth_user.0.id, id, *input) {
            Ok(rows) => final(labels)@ == rows && result_view(result) == answered(
                message_response(Status { code: OK }, "Patch successful."@),
            ),
            Err(answer) => final(labels)@ == old(labels)@ && result_view(result) == Err::<
                APIResponseView,
                APIResponseView,
            >(answer),
        },
{
    let owner = auth_user.0.id;
    match patch_begin(id, input) {
        Err(response) => {
            return Err(response);
        },
        Ok(Step::Reply(Reply::Refused(failure))) => {
            return Err(patch_refused(failure));
        },
        Ok(_) => {},
    }
    let payload = match labels.get(owner, id) {
        Err(failure) => {
            return Err(patch_refused(failure));
        },
        Ok(record) => {
            if input.is_emptying() {
                return Err(patch_refused(Failure::Conflict));
            }
            input.apply(&record.payload)
        },
    };
    match labels.patch(owner, id, Some(payload), Patch::Missing) {
        Ok(_) => Ok(ok("Patch successful.")),
        Err(failure) => Err(patch_refused(failure)),
    }
}

/// Deletes a label of the caller, and takes it off every task.
pub fn delete(
    labels: &mut Arena<LabelFields>,
    task_labels: &mut TaskLabels,
    auth_user: &Auth<UserModel>,
    id: Id,
) -> (result: APIResult)
    requires
        old(labels).wf(),
    ensures
        final(labels).wf(),
        match delete_result(old(labels)@, auth_user.0.id, id) {
            Ok(rows) => {
                &&& final(labels)@ == rows
                &&& final(task_labels)@ == without_label(old(task_labels)@, id)
                &&& result_view(result) == answered(
                    message_response(Status { code: OK }, "Delete successful."@),
                )
            },
            Err(failure) => {
                &&& final(labels)@ == old(labels)@
                &&& final(task_labels)@ == old(task_labels)@
                &&& result_view(result) == refused(failure)
            },
        },
{
    match labels.delete(auth_user.0.id, id) {
        Ok(_) => {
            task_labels.remove_label(id);
            Ok(ok("Delete successful."))
        },
        Err(failure) => Err(failure_response(failure)),
    }
}

/// Fetches a label of the caller.
pub fn get_single(labels: &Arena<LabelFields>, auth_user: &Auth<UserModel>, id: Id) -> (result:
    Result<LabelModel, APIResponse>)
    requires
        labels.wf(),
    ensures
        match get_result(labels@, auth_user.0.id, id) {
            Ok(record) => result is Ok && shows(result->Ok_0, record),
            Err(failure) => result is Err && result->Err_0@ == refusal(failure),
        },
{
    match labels.get(auth_user.0.id, id) {
        Ok(record) => Ok(model(record)),
        Err(failure) => Err(failure_response(failure)),
    }
}

/// Lists the caller's labels, one page of them.
pub fn get_all(
    labels: &Arena<LabelFields>,
    auth_user: &Auth<UserModel>,
    limit: Option<u32>,
    page: Option<u32>,
) -> (listing: GetAllResponse<LabelModel>)
    ensures
        listing.limit == limit_or_default(limit),
        listing.page == page_or_first(page),
        ({
            let shown = page_of(
                owned(labels@, auth_user.0.id),
                listing.limit as nat,
                listing.page as nat,
            );
            &&& listing.items@.len() == shown.len()
            &&& forall|k: int| 0 <= k < shown.len() ==> shows(#[trigger] listing.items@[k], shown[k])
        }),
{
    let found = labels.list(auth_user.0.id, limit, page);
    let ghost shown = page_of(
        owned(labels@, auth_user.0.id),
        found.limit as nat,
        found.page as nat,
    );
    let mut items: Vec<LabelModel> = Vec::new();
    let mut k: usize = 0;
    while k < found.items.len()
        invariant
            k <= found.items.len(),
            pointed(found.items@) == shown,
            items@.len() == k,
            forall|j: int| 0 <= j < k ==> shows(#[trigger] items@[j], shown[j]),
        decreases found.items.len() - k,
    {
        let record = found.items[k];
        assert(*record == pointed(found.items@)[k as int]);
        items.push(model(record));
        k += 1;
    }
    assert(pointed(found.items@).len() == found.items@.len());
    GetAllResponse { items, limit: found.limit, page: found.page }
}

/// Mounts the routes of the labels under `/labels`.
pub fn mount_rocket(rocket: Rocket) -> (mounted: Rocket)
    ensures
        mounted.routes() == rocket.routes() + crud_routes("/labels"@),
        mounted.catchers() == rocket.catchers(),
        mounted.fairings() == rocket.fairings(),
        mounted.managed() == rocket.managed(),
{
    mount_crud(rocket, "/labels")
}

} // verus!

verus! {

/// Ownership isolation for labels: a label of one user is not found when
/// another user fetches, patches or deletes it. (A body that fails validation
/// or touches nothing is refused as such, with `400`, before the arena is
/// looked at.)
pub proof fn lemma_foreign_label_not_found(
    rows: Seq<Record<LabelFields>>,
    owner: Id,
    caller: Id,
    id: Id,
    input: PatchInput,
)
    requires
        crate::arena::well_formed(rows),
        visible(rows, owner, id),
        caller != owner,
        input.color_ok(),
        input.touches_fields(),
    ensures
        get_result(rows, caller, id) == Err::<Record<LabelFields>, Failure>(Failure::NotFound),
        label_patch_outcome(rows, caller, id, input) == Err::<
            Seq<Record<LabelFields>>,
            APIResponseView,
        >(refusal(Failure::NotFound)),
        delete_result(rows, caller, id) == Err::<Seq<Record<LabelFields>>, Failure>(
            Failure::NotFound,
        ),
        refusal(Failure::NotFound).status.code == 404,
{
    crate::arena::lemma_foreign_record_not_found(rows, owner, caller, id, None, Patch::Missing);
}

/// The steps against a storage end as the arena does: when the storage answers
/// what the arena holds, a patch ends applied where the arena applies it, and is
/// refused for the same reason where the arena refuses it.
pub proof fn lemma_patch_steps_agree(
    rows: Seq<Record<LabelFields>>,
    owner: Id,
    id: Id,
    input: PatchInput,
)
    requires
        crate::arena::well_formed(rows),
    ensures
        run(
            patch_start(
                input.touches_fields(),
                id,
                Patch::Missing,
                input.empties_required(),
                None,
            ),
            visible(rows, owner, id),
            true,
            true,
            Event::Written(Ok(1)),
        ) == (match label_patch_result(rows, owner, id, input) {
            Ok(_) => Reply::Done,
            Err(failure) => Reply::Refused(failure),
        }),
{
}

/// The steps against a storage end as the arena does: a create under a new
/// identifier ends created.
pub proof fn lemma_create_steps_agree(
    rows: Seq<Record<LabelFields>>,
    new_id: Id,
    owner: Id,
    input: PostInput,
)
    requires
        !crate::arena::present(rows, new_id),
    ensures
        run(create_start(None, None), true, true, true, Event::Inserted(Ok(new_id))) == (
        match create_result(rows, new_id, owner, None, input.fields()) {
            Ok(_) => Reply::Created(new_id),
            Err(failure) => Reply::Refused(failure),
        }),
{
}

} // verus!
