//! Tasks: the tasks in the caller's lists, their tree, and their labels.
//!
//! A task is created in, and moved to, a list of the caller only. A patch must
//! touch something. Deleting a task detaches the tasks that hang under it and
//! takes its labels off.

use vstd::prelude::*;
use crate::arena::{
    child_ids, create_result, delete_result, get_result, index_of, limit_or_default, owned,
    page_of, page_or_first, patch_result, pointed, visible, Arena, Failure, GetAllResponse,
    Record,
};
use crate::crud::{
    answered, create_begin, create_refusal, create_refused, create_start, created_response,
    failure_response, id_body, patch_refusal, patch_refused, patch_start, refusal, refused,
    result_view, run, DbError, Event, Reply, Step,
};
use crate::guard::{Auth, UserModel};
use crate::ids::Id;
use crate::labels::{LabelFields, TaskLabelModel};
use crate::lists::ListFields;
use crate::mounting::{route, Method, Rocket, RouteView};
use crate::patch::Patch;
use crate::tree::{lemma_with_once, no_repeats, push_once, with_once, Group};
use crate::responses::{
    bad_request, internal_server_error, message_response, not_found, ok, APIResponse,
    APIResponseView, APIResult, Status, BAD_REQUEST, CREATED, INTERNAL_SERVER_ERROR,
    NOT_FOUND, OK,
};
use crate::sql::{
    assign_bool, assign_id, assign_text, assignment_views, bool_column, bool_patch, column_id,
    column_optional_bool, column_optional_id, column_optional_text, column_text, column_views,
    id_column, id_patch, insert_query, insert_statement, option_view, text_column, text_patch,
    update_query, update_statement, Assignment, AssignmentView, Column, ColumnView,
    SqlValueView,
};

verus! {

/// The table of the tasks.
pub const TABLE: &'static str = "tasks";

/// The clause that scopes a statement to one task in a list of the caller.
pub const OWNED_TASK: &'static str =
    "WHERE id = $1 AND list_id IN (SELECT id FROM lists WHERE user_id = $2)";

/// What a task holds besides its identifier, its owner and its parent. Times
/// of creation and change are counted in microseconds; the due time is kept as
/// the request wrote it.
#[derive(Debug)]
pub struct TaskFields {
    pub list_id: Id,
    pub created_at: i64,
    pub updated_at: i64,
    pub due_at: String,
    pub due_text: String,
    pub completed: bool,
    pub title: String,
    pub description: Option<String>,
}

/// The body of a request that creates a task.
#[derive(Debug)]
pub struct PostInput {
    pub parent_id: Option<Id>,
    pub list_id: Id,
    pub due_at: String,
    pub due_text: String,
    pub completed: Option<bool>,
    pub title: String,
    pub description: Option<String>,
}

/// The body of a request that patches a task.
#[derive(Debug)]
pub struct PatchInput {
    pub parent_id: Patch<Id>,
    pub list_id: Patch<Id>,
    pub due_at: Patch<String>,
    pub due_text: Patch<String>,
    pub completed: Patch<bool>,
    pub title: Patch<String>,
    pub description: Patch<String>,
}

/// The body of a request that puts a label on a task.
#[derive(Debug, Clone, Copy, PartialEq, Eq, Structural)]
pub struct LabelPostInput {
    pub id: Id,
}

/// A task as the caller gets it: its fields, the tasks that hang under it and
/// the labels on it.
#[derive(Debug)]
pub struct GetModel {
    pub id: Id,
    pub parent_id: Option<Id>,
    pub list_id: Id,
    pub created_at: i64,
    pub updated_at: i64,
    pub due_at: String,
    pub due_text: String,
    pub completed: bool,
    pub title: String,
    pub description: Option<String>,
    pub child_ids: Vec<Id>,
    pub label_ids: Vec<Id>,
}

impl PostInput {
    /// The columns of the INSERT for this body.
    pub open spec fn column_list(&self) -> Seq<ColumnView> {
        seq![
            ColumnView { name: "parent_id"@, value: id_column(self.parent_id) },
            ColumnView { name: "list_id"@, value: Some(SqlValueView::Uuid(self.list_id)) },
            ColumnView { name: "due_at"@, value: Some(SqlValueView::Text(self.due_at@)) },
            ColumnView { name: "due_text"@, value: Some(SqlValueView::Text(self.due_text@)) },
            ColumnView { name: "completed"@, value: bool_column(self.completed) },
            ColumnView { name: "title"@, value: Some(SqlValueView::Text(self.title@)) },
            ColumnView { name: "description"@, value: text_column(self.description) },
        ]
    }

    /// The fields of the task that the body describes, created at `now`. A task
    /// that does not say so is not completed.
    pub open spec fn fields(&self, now: i64) -> TaskFields {
        TaskFields {
            list_id: self.list_id,
            created_at: now,
            updated_at: now,
            due_at: self.due_at,
            due_text: self.due_text,
            completed: match self.completed {
                Some(c) => c,
                None => false,
            },
            title: self.title,
            description: self.description,
        }
    }

    /// The columns of the INSERT for this body.
    pub fn columns(&self) -> (columns: Vec<Column>)
        ensures
            column_views(columns@) == self.column_list(),
    {
        let mut columns: Vec<Column> = Vec::new();
        columns.push(column_optional_id("parent_id", self.parent_id));
        columns.push(column_id("list_id", self.list_id));
        columns.push(column_text("due_at", self.due_at.as_str()));
        columns.push(column_text("due_text", self.due_text.as_str()));
        columns.push(column_optional_bool("completed", self.completed));
        columns.push(column_text("title", self.title.as_str()));
        columns.push(column_optional_text("description", &self.description));
        assert(column_views(columns@) =~= self.column_list());
        columns
    }

    /// The statement that creates the task and hands back the new identifier.
    pub fn statement(&self) -> (stmt: String)
        ensures
            stmt@ == insert_statement(TABLE@, self.column_list(), "RETURNING id"@),
    {
        let columns = self.columns();
        insert_query(TABLE, &columns, "RETURNING id")
    }
}

impl PatchInput {
    /// The assignments of the UPDATE for this body.
    pub open spec fn assignment_list(&self) -> Seq<AssignmentView> {
        seq![
            AssignmentView { name: "parent_id"@, value: id_patch(self.parent_id) },
            AssignmentView { name: "list_id"@, value: id_patch(self.list_id) },
            AssignmentView { name: "due_at"@, value: text_patch(self.due_at) },
            AssignmentView { name: "due_text"@, value: text_patch(self.due_text) },
            AssignmentView { name: "completed"@, value: bool_patch(self.completed) },
            AssignmentView { name: "title"@, value: text_patch(self.title) },
            AssignmentView { name: "description"@, value: text_patch(self.description) },
        ]
    }

    /// Whether the body touches a field of the task itself.
    pub open spec fn touches_fields(&self) -> bool {
        !(self.list_id is Missing) || !(self.due_at is Missing) || !(self.due_text is Missing)
            || !(self.completed is Missing) || !(self.title is Missing) || !(self.description
            is Missing)
    }

    /// Whether the body touches anything: a field of the task or its parent.
    pub open spec fn touched(&self) -> bool {
        self.touches_fields() || !(self.parent_id is Missing)
    }

    /// The list that the body moves the task to, if it names one.
    pub open spec fn new_list(&self) -> Option<Id> {
        match self.list_id {
            Patch::Value(l) => Some(l),
            _ => None,
        }
    }

    /// Whether the body touches a field of the task itself.
    pub fn is_touching_fields(&self) -> (touches: bool)
        ensures
            touches == self.touches_fields(),
    {
        !self.list_id.is_missing() || !self.due_at.is_missing() || !self.due_text.is_missing()
            || !self.completed.is_missing() || !self.title.is_missing()
            || !self.description.is_missing()
    }

    /// Whether the body touches anything.
    pub fn is_touched(&self) -> (touched: bool)
        ensures
            touched == self.touched(),
    {
        self.is_touching_fields() || !self.parent_id.is_missing()
    }

    /// Whether the body empties a field that a task cannot be without.
    pub fn is_emptying(&self) -> (empties: bool)
        ensures
            empties == self.empties_required(),
    {
        let list = match &self.list_id {
            Patch::Null => true,
            _ => false,
        };
        let due_at = match &self.due_at {
            Patch::Null => true,
            _ => false,
        };
        let due_text = match &self.due_text {
            Patch::Null => true,
            _ => false,
        };
        let completed = match &self.completed {
            Patch::Null => true,
            _ => false,
        };
        let title = match &self.title {
            Patch::Null => true,
            _ => false,
        };
        list || due_at || due_text || completed || title
    }

    /// The list that the body moves the task to, if it names one.
    pub fn moved_to(&self) -> (list: Option<Id>)
        ensures
            list == self.new_list(),
    {
        match &self.list_id {
            Patch::Value(l) => Some(*l),
            _ => None,
        }
    }

    /// Whether the body empties a field that a task cannot be without.
    pub open spec fn empties_required(&self) -> bool {
        self.list_id is Null || self.due_at is Null || self.due_text is Null || self.completed
            is Null || self.title is Null
    }

    /// The fields of a task after the body is applied to them.
    pub open spec fn applied(&self, current: TaskFields) -> TaskFields {
        TaskFields {
            list_id: match self.list_id {
                Patch::Value(l) => l,
                _ => current.list_id,
            },
            created_at: current.created_at,
            updated_at: current.updated_at,
            due_at: match self.due_at {
                Patch::Value(d) => d,
                _ => current.due_at,
            },
            due_text: match self.due_text {
                Patch::Value(d) => d,
                _ => current.due_text,
            },
            completed: match self.completed {
                Patch::Value(c) => c,
                _ => current.completed,
            },
            title: match self.title {
                Patch::Value(t) => t,
                _ => current.title,
            },
            description: match self.description {
                Patch::Missing => current.description,
                Patch::Null => None,
                Patch::Value(d) => Some(d),
            },
        }
    }

    /// The assignments of the UPDATE for this body.
    pub fn assignments(&self) -> (assignments: Vec<Assignment>)
        ensures
            assignment_views(assignments@) == self.assignment_list(),
    {
        let mut assignments: Vec<Assignment> = Vec::new();
        assignments.push(assign_id("parent_id", &self.parent_id));
        assignments.push(assign_id("list_id", &self.list_id));
        assignments.push(assign_text("due_at", &self.due_at));
        assignments.push(assign_text("due_text", &self.due_text));
        assignments.push(assign_bool("completed", &self.completed));
        assignments.push(assign_text("title", &self.title));
        assignments.push(assign_text("description", &self.description));
        assert(assignment_views(assignments@) =~= self.assignment_list());
        assignments
    }

    /// The statement that patches a task in a list of the caller, or nothing
    /// where the body touches no field.
    pub fn statement(&self) -> (stmt: Option<String>)
        ensures
            option_view(stmt) == update_statement(TABLE@, self.assignment_list(), OWNED_TASK@),
    {
        let assignments = self.assignments();
        update_query(TABLE, &assignments, OWNED_TASK)
    }

    /// Applies the body to the fields of a task.
    pub fn apply(&self, current: &TaskFields) -> (fields: TaskFields)
        ensures
            fields == self.applied(*current),
    {
        TaskFields {
            list_id: match &self.list_id {
                Patch::Value(l) => *l,
                _ => current.list_id,
            },
            created_at: current.created_at,
            updated_at: current.updated_at,
            due_at: match &self.due_at {
                Patch::Value(d) => d.clone(),
                _ => current.due_at.clone(),
            },
            due_text: match &self.due_text {
                Patch::Value(d) => d.clone(),
                _ => current.due_text.clone(),
            },
            completed: match &self.completed {
                Patch::Value(c) => *c,
                _ => current.completed,
            },
            title: match &self.title {
                Patch::Value(t) => t.clone(),
                _ => current.title.clone(),
            },
            description: match &self.description {
                Patch::Missing => match &current.description {
                    Some(d) => Some(d.clone()),
                    None => None,
                },
                Patch::Null => None,
                Patch::Value(d) => Some(d.clone()),
            },
        }
    }
}

/// The labels on a task, in the order they were put on.
pub open spec fn labels_of(pairs: Seq<TaskLabelModel>, task_id: Id) -> Seq<Id> {
    pairs.filter(|p: TaskLabelModel| p.task_id == task_id).map_values(
        |p: TaskLabelModel| p.label_id,
    )
}

/// The pairs without those of a task.
pub open spec fn without_task(pairs: Seq<TaskLabelModel>, task_id: Id) -> Seq<TaskLabelModel> {
    pairs.filter(|p: TaskLabelModel| p.task_id != task_id)
}

/// Whether a pair is another one than `pair`.
pub open spec fn other_than(pair: TaskLabelModel) -> spec_fn(TaskLabelModel) -> bool {
    |p: TaskLabelModel| p != pair
}

/// The pairs without one pair.
pub open spec fn without_pair(pairs: Seq<TaskLabelModel>, pair: TaskLabelModel) -> Seq<
    TaskLabelModel,
> {
    pairs.filter(other_than(pair))
}

/// Whether a model shows a record, its children and its labels.
pub open spec fn shows(
    model: GetModel,
    record: Record<TaskFields>,
    children: Seq<Id>,
    labels: Seq<Id>,
) -> bool {
    &&& model.id == record.id
    &&& model.parent_id == record.parent
    &&& model.list_id == record.payload.list_id
    &&& model.created_at == record.payload.created_at
    &&& model.updated_at == record.payload.updated_at
    &&& model.due_at == record.payload.due_at
    &&& model.due_text == record.payload.due_text
    &&& model.completed == record.payload.completed
    &&& model.title == record.payload.title
    &&& model.description == record.payload.description
    &&& model.child_ids@ == children
    &&& model.label_ids@ == labels
}

fn model(record: &Record<TaskFields>, children: Vec<Id>, labels: Vec<Id>) -> (model: GetModel)
    ensures
        shows(model, *record, children@, labels@),
{
    GetModel {
        id: record.id,
        parent_id: record.parent,
        list_id: record.payload.list_id,
        created_at: record.payload.created_at,
        updated_at: record.payload.updated_at,
        due_at: record.payload.due_at.clone(),
        due_text: record.payload.due_text.clone(),
        completed: record.payload.completed,
        title: record.payload.title.clone(),
        description: match &record.payload.description {
            Some(d) => Some(d.clone()),
            None => None,
        },
        child_ids: children,
        label_ids: labels,
    }
}

/// The labels on the tasks: pairs of a task and a label, no pair twice.
#[derive(Debug)]
pub struct TaskLabels {
    pairs: Vec<TaskLabelModel>,
}

impl View for TaskLabels {
    type V = Seq<TaskLabelModel>;

    closed spec fn view(&self) -> Seq<TaskLabelModel> {
        self.pairs@
    }
}

impl TaskLabels {
    /// No labels on any task.
    pub fn new() -> (labels: TaskLabels)
        ensures
            labels@ == Seq::<TaskLabelModel>::empty(),
    {
        TaskLabels { pairs: Vec::new() }
    }

    /// Whether the pair is there.
    pub fn contains(&self, pair: TaskLabelModel) -> (found: bool)
        ensures
            found == self@.contains(pair),
    {
        let mut i: usize = 0;
        while i < self.pairs.len()
            invariant
                i <= self.pairs.len(),
                forall|k: int| 0 <= k < i ==> self.pairs@[k] != pair,
            decreases self.pairs.len() - i,
        {
            if self.pairs[i].task_id == pair.task_id && self.pairs[i].label_id == pair.label_id {
                assert(self.pairs@[i as int] == pair);
                return true;
            }
            i += 1;
        }
        false
    }

    /// The labels on a task.
    pub fn labels_of(&self, task_id: Id) -> (ids: Vec<Id>)
        ensures
            ids@ == labels_of(self@, task_id),
    {
        let mut ids: Vec<Id> = Vec::new();
        let mut i: usize = 0;
        let ghost on_task = |p: TaskLabelModel| p.task_id == task_id;
        let ghost label = |p: TaskLabelModel| p.label_id;
        while i < self.pairs.len()
            invariant
                i <= self.pairs.len(),
                on_task == |p: TaskLabelModel| p.task_id == task_id,
                label == |p: TaskLabelModel| p.label_id,
                ids@ == self.pairs@.take(i as int).filter(on_task).map_values(label),
            decreases self.pairs.len() - i,
        {
            proof {
                let next = self.pairs@.take(i + 1);
                assert(next.drop_last() =~= self.pairs@.take(i as int));
                assert(next.last() == self.pairs@[i as int]);
                reveal(Seq::filter);
            }
            if self.pairs[i].task_id == task_id {
                ids.push(self.pairs[i].label_id);
            }
            assert(ids@ =~= self.pairs@.take(i + 1).filter(on_task).map_values(label));
            i += 1;
        }
        assert(self.pairs@.take(self.pairs.len() as int) =~= self.pairs@);
        ids
    }

    /// Takes every pair of a task away.
    pub fn remove_task(&mut self, task_id: Id)
        ensures
            final(self)@ == without_task(old(self)@, task_id),
    {
        let mut kept: Vec<TaskLabelModel> = Vec::new();
        let mut i: usize = 0;
        let ghost others = |p: TaskLabelModel| p.task_id != task_id;
        while i < self.pairs.len()
            invariant
                i <= self.pairs.len(),
                self.pairs@ == old(self).pairs@,
                others == |p: TaskLabelModel| p.task_id != task_id,
                kept@ == self.pairs@.take(i as int).filter(others),
            decreases self.pairs.len() - i,
        {
            proof {
                let next = self.pairs@.take(i + 1);
                assert(next.drop_last() =~= self.pairs@.take(i as int));
                assert(next.last() == self.pairs@[i as int]);
                reveal(Seq::filter);
            }
            if self.pairs[i].task_id != task_id {
                kept.push(self.pairs[i]);
            }
            assert(kept@ =~= self.pairs@.take(i + 1).filter(others));
            i += 1;
        }
        assert(self.pairs@.take(self.pairs.len() as int) =~= self.pairs@);
        self.pairs = kept;
    }

    /// Takes one pair away.
    pub fn remove_pair(&mut self, pair: TaskLabelModel)
        ensures
            final(self)@ == without_pair(old(self)@, pair),
    {
        let mut kept: Vec<TaskLabelModel> = Vec::new();
        let mut i: usize = 0;
        let ghost others = other_than(pair);
        while i < self.pairs.len()
            invariant
                i <= self.pairs.len(),
                self.pairs@ == old(self).pairs@,
                others == other_than(pair),
                kept@ == self.pairs@.take(i as int).filter(others),
            decreases self.pairs.len() - i,
        {
            proof {
                let next = self.pairs@.take(i + 1);
                assert(next.drop_last() =~= self.pairs@.take(i as int));
                assert(next.last() == self.pairs@[i as int]);
                reveal(Seq::filter);
            }
            let same = self.pairs[i].task_id == pair.task_id && self.pairs[i].label_id
                == pair.label_id;
            if !same {
                kept.push(self.pairs[i]);
            }
            assert(kept@ =~= self.pairs@.take(i + 1).filter(others));
            i += 1;
        }
        assert(self.pairs@.take(self.pairs.len() as int) =~= self.pairs@);
        self.pairs = kept;
    }

    fn push(&mut self, pair: TaskLabelModel)
        ensures
            final(self)@ == old(self)@.push(pair),
    {
        self.pairs.push(pair);
    }
}

} // verus!

verus! {

/// What creating a task does to the tasks, or why it is refused: the list must
/// be one of the caller's, and so must the parent where the body names one.
pub open spec fn task_create_result(
    tasks: Seq<Record<TaskFields>>,
    lists: Seq<Record<ListFields>>,
    new_id: Id,
    owner: Id,
    now: i64,
    input: PostInput,
) -> Result<Seq<Record<TaskFields>>, Failure> {
    if !visible(lists, owner, input.list_id) {
        Err(Failure::Conflict)
    } else {
        create_result(tasks, new_id, owner, input.parent_id, input.fields(now))
    }
}

/// What patching a task does to the tasks, or why it is refused. A body that
/// touches nothing is refused first; then one that names the task as its own
/// parent; then a task that is not
/// the caller's; then a body that empties a field a task cannot be without, or
/// moves the task to a list that is not the caller's; then a parent that is not
/// the caller's.
pub open spec fn task_patch_result(
    tasks: Seq<Record<TaskFields>>,
    lists: Seq<Record<ListFields>>,
    owner: Id,
    id: Id,
    input: PatchInput,
) -> Result<Seq<Record<TaskFields>>, Failure> {
    if !input.touched() {
        Err(Failure::EmptyPatch)
    } else if input.parent_id == Patch::Value(id) {
        Err(Failure::OwnParent)
    } else if !visible(tasks, owner, id) {
        Err(Failure::NotFound)
    } else if input.empties_required() {
        Err(Failure::Conflict)
    } else if input.list_id is Value && !visible(lists, owner, input.list_id->Value_0) {
        Err(Failure::Conflict)
    } else {
        patch_result(
            tasks,
            owner,
            id,
            if input.touches_fields() {
                Some(input.applied(tasks[index_of(tasks, id)].payload))
            } else {
                None
            },
            input.parent_id,
        )
    }
}

/// What putting a label on a task does to the pairs, or why it is refused: the
/// task must be the caller's, the label too, and the label must not be on the
/// task already.
pub open spec fn attach_result(
    tasks: Seq<Record<TaskFields>>,
    labels: Seq<Record<LabelFields>>,
    pairs: Seq<TaskLabelModel>,
    owner: Id,
    task_id: Id,
    label_id: Id,
) -> Result<Seq<TaskLabelModel>, Failure> {
    let pair = TaskLabelModel { task_id, label_id };
    if !visible(tasks, owner, task_id) {
        Err(Failure::NotFound)
    } else if !visible(labels, owner, label_id) || pairs.contains(pair) {
        Err(Failure::Conflict)
    } else {
        Ok(pairs.push(pair))
    }
}

/// The answer to a refused attach.
pub open spec fn attach_refusal(failure: Failure) -> APIResponseView {
    if failure == Failure::NotFound {
        message_response(Status { code: NOT_FOUND }, "Task not found"@)
    } else {
        message_response(Status { code: BAD_REQUEST }, "Invalid label id."@)
    }
}

/// What taking a label off a task does to the pairs: the pair goes where the
/// label is the caller's, and nothing changes where it is not.
pub open spec fn detach_result(
    labels: Seq<Record<LabelFields>>,
    pairs: Seq<TaskLabelModel>,
    owner: Id,
    task_id: Id,
    label_id: Id,
) -> Seq<TaskLabelModel> {
    if visible(labels, owner, label_id) {
        without_pair(pairs, TaskLabelModel { task_id, label_id })
    } else {
        pairs
    }
}

/// Starts a create against a storage: the list is asked for, then the parent
/// where the body names one, then the task is written.
pub fn post_begin(input: &PostInput) -> (step: Step)
    ensures
        step == create_start(Some(input.list_id), input.parent_id),
{
    create_begin(Some(input.list_id), input.parent_id)
}

/// Starts a patch against a storage: the body is looked at, then the task is
/// asked for, then the list that the body moves it to, then the parent.
pub fn patch_begin(id: Id, input: &PatchInput) -> (step: Step)
    ensures
        step == patch_start(
            input.touched(),
            id,
            input.parent_id,
            input.empties_required(),
            input.new_list(),
        ),
{
    crate::crud::patch_begin(
        input.is_touched(),
        id,
        &input.parent_id,
        input.is_emptying(),
        input.moved_to(),
    )
}

/// The first move of putting a label on a task: the task is asked for, then
/// the label, then the pair is written.
pub open spec fn attach_start(task_id: Id, label_id: Id) -> Step {
    patch_start(true, task_id, Patch::Missing, false, Some(label_id))
}

/// Starts putting a label on a task against a storage.
pub fn attach_begin(task_id: Id, input: LabelPostInput) -> (step: Step)
    ensures
        step == attach_start(task_id, input.id),
{
    crate::crud::patch_begin(true, task_id, &Patch::Missing, false, Some(input.id))
}

/// The answer to the end of putting a label on a task.
pub open spec fn attach_reply_answer(reply: Reply) -> Result<APIResponseView, APIResponseView> {
    match reply {
        Reply::Done => Ok(message_response(Status { code: OK }, "Label attached successfully."@)),
        Reply::Created(_) => Ok(
            message_response(Status { code: OK }, "Label attached successfully."@),
        ),
        Reply::Refused(failure) => Err(attach_refusal(failure)),
        Reply::Failed(_) => Err(
            message_response(
                Status { code: INTERNAL_SERVER_ERROR },
                "Failed to attach label in database."@,
            ),
        ),
    }
}

/// Answers the end of putting a label on a task.
pub fn attach_reply(reply: Reply) -> (result: APIResult)
    ensures
        result_view(result) == attach_reply_answer(reply),
{
    match reply {
        Reply::Done => Ok(ok("Label attached successfully.")),
        Reply::Created(_) => Ok(ok("Label attached successfully.")),
        Reply::Refused(Failure::NotFound) => Err(not_found("Task not found")),
        Reply::Refused(_) => Err(bad_request("Invalid label id.")),
        Reply::Failed(_) => Err(internal_server_error("Failed to attach label in database.")),
    }
}

/// The answer to taking a label off a task, from what the storage said: a
/// success whether or not a pair was removed, `500` where the storage failed.
pub open spec fn detach_answer(removed: Result<u64, DbError>) -> Result<
    APIResponseView,
    APIResponseView,
> {
    match removed {
        Ok(_) => Ok(message_response(Status { code: OK }, "Label detached successfully."@)),
        Err(_) => Err(
            message_response(
                Status { code: INTERNAL_SERVER_ERROR },
                "Failed to detach label in database."@,
            ),
        ),
    }
}

/// Answers taking a label off a task.
pub fn detach_reply(removed: Result<u64, DbError>) -> (result: APIResult)
    ensures
        result_view(result) == detach_answer(removed),
{
    match removed {
        Ok(_) => Ok(ok("Label detached successfully.")),
        Err(_) => Err(internal_server_error("Failed to detach label in database.")),
    }
}

/// Creates a task in a list of the caller under the identifier `new_id`, at the
/// time `now`.
pub fn post(
    tasks: &mut Arena<TaskFields>,
    lists: &Arena<ListFields>,
    auth_user: &Auth<UserModel>,
    new_id: Id,
    now: i64,
    input: PostInput,
) -> (result: APIResult)
    requires
        old(tasks).wf(),
        lists.wf(),
    ensures
        final(tasks).wf(),
        match task_create_result(old(tasks)@, lists@, new_id, auth_user.0.id, now, input) {
            Ok(rows) => final(tasks)@ == rows && result_view(result) == answered(
                APIResponseView { status: Status { code: CREATED }, data: id_body(new_id) },
            ),
            Err(failure) => final(tasks)@ == old(tasks)@ && result_view(result) == Err::<
                APIResponseView,
                APIResponseView,
            >(create_refusal(failure)),
        },
{
    let owner = auth_user.0.id;
    if lists.find(owner, input.list_id).is_none() {
        return Err(create_refused(Failure::Conflict));
    }
    let parent = input.parent_id;
    let fields = TaskFields {
        list_id: input.list_id,
        created_at: now,
        updated_at: now,
        due_at: input.due_at,
        due_text: input.due_text,
        completed: match input.completed {
            Some(c) => c,
            None => false,
        },
        title: input.title,
        description: input.description,
    };
    match tasks.create(new_id, owner, parent, fields) {
        Ok(id) => Ok(created_response(id)),
        Err(failure) => Err(create_refused(failure)),
    }
}

/// Patches a task of the caller: its fields, and its place in the tree, in one
/// step. The body must touch something.
pub fn patch(
    tasks: &mut Arena<TaskFields>,
    lists: &Arena<ListFields>,
    auth_user: &Auth<UserModel>,
    id: Id,
    input: &PatchInput,
) -> (result: APIResult)
    requires
        old(tasks).wf(),
        lists.wf(),
    ensures
        final(tasks).wf(),
        match task_patch_result(old(tasks)@, lists@, auth_user.0.id, id, *input) {
            Ok(rows) => final(tasks)@ == rows && result_view(result) == answered(
                message_response(Status { code: OK }, "Patch successful."@),
            ),
            Err(failure) => final(tasks)@ == old(tasks)@ && result_view(result) == Err::<
                APIResponseView,
                APIResponseView,
            >(patch_refusal(failure)),
        },
{
    let owner = auth_user.0.id;
    if let Step::Reply(Reply::Refused(failure)) = patch_begin(id, input) {
        return Err(patch_refused(failure));
    }
    let payload = match tasks.get(owner, id) {
        Err(failure) => {
            return Err(patch_refused(failure));
        },
        Ok(record) => {
            if input.is_emptying() {
                return Err(patch_refused(Failure::Conflict));
            }
            if let Some(l) = input.moved_to() {
                if lists.find(owner, l).is_none() {
                    return Err(patch_refused(Failure::Conflict));
                }
            }
            if input.is_touching_fields() {
                Some(input.apply(&record.payload))
            } else {
                None
            }
        },
    };
    let parent = match &input.parent_id {
        Patch::Missing => Patch::Missing,
        Patch::Null => Patch::Null,
        Patch::Value(p) => Patch::Value(*p),
    };
    match tasks.patch(owner, id, payload, parent) {
        Ok(_) => Ok(ok("Patch successful.")),
        Err(failure) => Err(patch_refused(failure)),
    }
}

/// Deletes a task of the caller. The tasks that hang under it are detached, and
/// its labels are taken off.
pub fn delete(
    tasks: &mut Arena<TaskFields>,
    task_labels: &mut TaskLabels,
    auth_user: &Auth<UserModel>,
    id: Id,
) -> (result: APIResult)
    requires
        old(tasks).wf(),
    ensures
        final(tasks).wf(),
        match delete_result(old(tasks)@, auth_user.0.id, id) {
            Ok(rows) => {
                &&& final(tasks)@ == rows
                &&& final(task_labels)@ == without_task(old(task_labels)@, id)
                &&& result_view(result) == answered(
                    message_response(Status { code: OK }, "Delete successful."@),
                )
            },
            Err(failure) => {
                &&& final(tasks)@ == old(tasks)@
                &&& final(task_labels)@ == old(task_labels)@
                &&& result_view(result) == refused(failure)
            },
        },
{
    match tasks.delete(auth_user.0.id, id) {
        Ok(_) => {
            task_labels.remove_task(id);
            Ok(ok("Delete successful."))
        },
        Err(failure) => Err(failure_response(failure)),
    }
}

/// Fetches a task of the caller, with the identifiers of the tasks that hang
/// under it and of the labels on it.
pub fn get_single(
    tasks: &Arena<TaskFields>,
    task_labels: &TaskLabels,
    auth_user: &Auth<UserModel>,
    id: Id,
) -> (result: Result<GetModel, APIResponse>)
    requires
        tasks.wf(),
    ensures
        match get_result(tasks@, auth_user.0.id, id) {
            Ok(record) => result is Ok && shows(
                result->Ok_0,
                record,
                child_ids(tasks@, id),
                labels_of(task_labels@, id),
            ),
            Err(failure) => result is Err && result->Err_0@ == refusal(failure),
        },
{
    match tasks.get(auth_user.0.id, id) {
        Ok(record) => Ok(model(record, tasks.children(id), task_labels.labels_of(id))),
        Err(failure) => Err(failure_response(failure)),
    }
}

/// Lists the caller's tasks, one page of them, each with the identifiers of the
/// tasks that hang under it and of the labels on it.
pub fn get_all(
    tasks: &Arena<TaskFields>,
    task_labels: &TaskLabels,
    auth_user: &Auth<UserModel>,
    limit: Option<u32>,
    page: Option<u32>,
) -> (listing: GetAllResponse<GetModel>)
    ensures
        listing.limit == limit_or_default(limit),
        listing.page == page_or_first(page),
        ({
            let shown = page_of(
                owned(tasks@, auth_user.0.id),
                listing.limit as nat,
                listing.page as nat,
            );
            &&& listing.items@.len() == shown.len()
            &&& forall|k: int|
                0 <= k < shown.len() ==> shows(
                    #[trigger] listing.items@[k],
                    shown[k],
                    child_ids(tasks@, shown[k].id),
                    labels_of(task_labels@, shown[k].id),
                )
        }),
{
    let found = tasks.list(auth_user.0.id, limit, page);
    let ghost shown = page_of(
        owned(tasks@, auth_user.0.id),
        found.limit as nat,
        found.page as nat,
    );
    let mut items: Vec<GetModel> = Vec::new();
    let mut k: usize = 0;
    while k < found.items.len()
        invariant
            k <= found.items.len(),
            pointed(found.items@) == shown,
            items@.len() == k,
            forall|j: int|
                0 <= j < k ==> shows(
                    #[trigger] items@[j],
                    shown[j],
                    child_ids(tasks@, shown[j].id),
                    labels_of(task_labels@, shown[j].id),
                ),
        decreases found.items.len() - k,
    {
        let record = found.items[k];
        assert(*record == pointed(found.items@)[k as int]);
        items.push(model(record, tasks.children(record.id), task_labels.labels_of(record.id)));
        k += 1;
    }
    assert(pointed(found.items@).len() == found.items@.len());
    GetAllResponse { items, limit: found.limit, page: found.page }
}

/// Puts a label of the caller on a task of the caller.
pub fn post_label(
    tasks: &Arena<TaskFields>,
    labels: &Arena<LabelFields>,
    task_labels: &mut TaskLabels,
    auth_user: &Auth<UserModel>,
    input: LabelPostInput,
    id: Id,
) -> (result: APIResult)
    requires
        tasks.wf(),
        labels.wf(),
    ensures
        match attach_result(tasks@, labels@, old(task_labels)@, auth_user.0.id, id, input.id) {
            Ok(pairs) => final(task_labels)@ == pairs && result_view(result) == answered(
                message_response(Status { code: OK }, "Label attached successfully."@),
            ),
            Err(failure) => final(task_labels)@ == old(task_labels)@ && result_view(result)
                == Err::<APIResponseView, APIResponseView>(attach_refusal(failure)),
        },
{
    let owner = auth_user.0.id;
    if tasks.find(owner, id).is_none() {
        return attach_reply(Reply::Refused(Failure::NotFound));
    }
    let pair = TaskLabelModel { task_id: id, label_id: input.id };
    if labels.find(owner, input.id).is_none() || task_labels.contains(pair) {
        return attach_reply(Reply::Refused(Failure::Conflict));
    }
    task_labels.push(pair);
    attach_reply(Reply::Done)
}

/// Takes a label of the caller off a task. Succeeds whether or not the label was
/// on the task.
pub fn delete_label(
    labels: &Arena<LabelFields>,
    task_labels: &mut TaskLabels,
    auth_user: &Auth<UserModel>,
    id: Id,
    label_id: Id,
) -> (result: APIResult)
    requires
        labels.wf(),
    ensures
        final(task_labels)@ == detach_result(
            labels@,
            old(task_labels)@,
            auth_user.0.id,
            id,
            label_id,
        ),
        result_view(result) == answered(
            message_response(Status { code: OK }, "Label detached successfully."@),
        ),
{
    if labels.find(auth_user.0.id, label_id).is_some() {
        task_labels.remove_pair(TaskLabelModel { task_id: id, label_id });
    }
    Ok(ok("Label detached successfully."))
}

/// The routes of the tasks: the five of a resource, and the two for labels.
pub open spec fn task_routes() -> Seq<RouteView> {
    seq![
        route(Method::Get, "/tasks"@, "/<id>"@, "get_single"@),
        route(Method::Get, "/tasks"@, "/?<limit>&<page>"@, "get_all"@),
        route(Method::Post, "/tasks"@, "/"@, "post"@),
        route(Method::Patch, "/tasks"@, "/<id>"@, "patch"@),
        route(Method::Delete, "/tasks"@, "/<id>"@, "delete"@),
        route(Method::Post, "/tasks"@, "/<id>/labels"@, "post_label"@),
        route(Method::Delete, "/tasks"@, "/<id>/labels/<label_id>"@, "delete_label"@),
    ]
}

/// Mounts the routes of the tasks under `/tasks`.
pub fn mount_rocket(rocket: Rocket) -> (mounted: Rocket)
    ensures
        mounted.routes() == rocket.routes() + task_routes(),
        mounted.catchers() == rocket.catchers(),
        mounted.fairings() == rocket.fairings(),
        mounted.managed() == rocket.managed(),
{
    let mounted = rocket.mount(Method::Get, "/tasks", "/<id>", "get_single");
    let mounted = mounted.mount(Method::Get, "/tasks", "/?<limit>&<page>", "get_all");
    let mounted = mounted.mount(Method::Post, "/tasks", "/", "post");
    let mounted = mounted.mount(Method::Patch, "/tasks", "/<id>", "patch");
    let mounted = mounted.mount(Method::Delete, "/tasks", "/<id>", "delete");
    let mounted = mounted.mount(Method::Post, "/tasks", "/<id>/labels", "post_label");
    let mounted = mounted.mount(
        Method::Delete,
        "/tasks",
        "/<id>/labels/<label_id>",
        "delete_label",
    );
    assert(mounted.routes() =~= rocket.routes() + task_routes());
    mounted
}

} // verus!

verus! {

/// The statement that fetches one page of the caller's tasks, each joined with
/// the tasks that hang under it and with its labels.
pub const PAGE_QUERY: &'static str =
    "SELECT base_tasks.*, child_tasks.id AS child_id, task_labels.label_id AS label_id FROM (SELECT tasks.* FROM tasks INNER JOIN lists ON lists.id = tasks.list_id WHERE user_id = $1 LIMIT $2 OFFSET $3) base_tasks LEFT JOIN tasks child_tasks ON base_tasks.id = child_tasks.parent_id LEFT JOIN task_labels ON base_tasks.id = task_labels.task_id";

/// The statement that fetches one task of the caller, joined with the tasks
/// that hang under it and with its labels.
pub const SINGLE_QUERY: &'static str =
    "SELECT base_tasks.*, child_tasks.id AS child_id, task_labels.label_id AS label_id FROM (SELECT tasks.* FROM tasks INNER JOIN lists ON lists.id = tasks.list_id WHERE tasks.id = $1 AND user_id = $2) base_tasks LEFT JOIN tasks child_tasks ON base_tasks.id = child_tasks.parent_id LEFT JOIN task_labels ON base_tasks.id = task_labels.task_id";

/// The statement that looks for a task in a list of the caller.
pub const OWNED_TASK_QUERY: &'static str =
    "SELECT tasks.id, lists.user_id FROM tasks INNER JOIN lists ON tasks.list_id = lists.id WHERE tasks.id = $1 AND lists.user_id = $2";

/// The statement that puts a label on a task.
pub const ATTACH_QUERY: &'static str =
    "INSERT INTO task_labels(task_id, label_id) VALUES ($1, $2)";

/// The statement that takes a label of the caller off a task.
pub const DETACH_QUERY: &'static str =
    "DELETE FROM task_labels WHERE label_id = $1 AND task_id = $2 AND label_id IN (SELECT id FROM labels WHERE user_id = $3)";

/// Self-parent rejection for tasks: a patch that names the task as its own
/// parent is answered with `400`, whoever asks and whatever else the body says.
pub proof fn lemma_own_parent_is_bad_request(
    tasks: Seq<Record<TaskFields>>,
    lists: Seq<Record<ListFields>>,
    owner: Id,
    id: Id,
    input: PatchInput,
)
    requires
        input.parent_id == Patch::Value(id),
    ensures
        task_patch_result(tasks, lists, owner, id, input) == Err::<
            Seq<Record<TaskFields>>,
            Failure,
        >(Failure::OwnParent),
        patch_refusal(Failure::OwnParent).status.code == 400,
{
}

/// Ownership isolation for tasks: a task of one user is not found when another
/// user fetches, patches or deletes it, and no other user can put a label on
/// it. (A body that touches nothing or names the task as its own parent is
/// refused as such, with `400`, before the arena is looked at.)
pub proof fn lemma_foreign_task_not_found(
    tasks: Seq<Record<TaskFields>>,
    lists: Seq<Record<ListFields>>,
    labels: Seq<Record<LabelFields>>,
    pairs: Seq<TaskLabelModel>,
    owner: Id,
    caller: Id,
    id: Id,
    input: PatchInput,
    label_id: Id,
)
    requires
        crate::arena::well_formed(tasks),
        visible(tasks, owner, id),
        caller != owner,
        input.touched(),
        input.parent_id != Patch::Value(id),
    ensures
        get_result(tasks, caller, id) == Err::<Record<TaskFields>, Failure>(Failure::NotFound),
        task_patch_result(tasks, lists, caller, id, input) == Err::<
            Seq<Record<TaskFields>>,
            Failure,
        >(Failure::NotFound),
        delete_result(tasks, caller, id) == Err::<Seq<Record<TaskFields>>, Failure>(
            Failure::NotFound,
        ),
        attach_result(tasks, labels, pairs, caller, id, label_id) == Err::<
            Seq<TaskLabelModel>,
            Failure,
        >(Failure::NotFound),
        patch_refusal(Failure::NotFound).status.code == 404,
        attach_refusal(Failure::NotFound).status.code == 404,
{
    crate::arena::lemma_foreign_record_not_found(tasks, owner, caller, id, None, input.parent_id);
}

/// The steps against a storage end as the arena does: when the storage answers
/// what the arenas hold, a patch ends applied where the arena applies it, and is
/// refused for the same reason where the arena refuses it.
pub proof fn lemma_patch_steps_agree(
    tasks: Seq<Record<TaskFields>>,
    lists: Seq<Record<ListFields>>,
    owner: Id,
    id: Id,
    input: PatchInput,
)
    requires
        crate::arena::well_formed(tasks),
    ensures
        run(
            patch_start(
                input.touched(),
                id,
                input.parent_id,
                input.empties_required(),
                input.new_list(),
            ),
            visible(tasks, owner, id),
            input.list_id is Value && visible(lists, owner, input.list_id->Value_0),
            input.parent_id is Value && visible(tasks, owner, input.parent_id->Value_0),
            Event::Written(Ok(1)),
        ) == (match task_patch_result(tasks, lists, owner, id, input) {
            Ok(_) => Reply::Done,
            Err(failure) => Reply::Refused(failure),
        }),
{
}

/// The steps against a storage end as the arena does: a create under a new
/// identifier ends created where the arena creates it, and is refused for the
/// same reason where the arena refuses it.
pub proof fn lemma_create_steps_agree(
    tasks: Seq<Record<TaskFields>>,
    lists: Seq<Record<ListFields>>,
    new_id: Id,
    owner: Id,
    now: i64,
    input: PostInput,
)
    requires
        !crate::arena::present(tasks, new_id),
    ensures
        run(
            create_start(Some(input.list_id), input.parent_id),
            true,
            visible(lists, owner, input.list_id),
            input.parent_id is Some && visible(tasks, owner, input.parent_id->0),
            Event::Inserted(Ok(new_id)),
        ) == (match task_create_result(tasks, lists, new_id, owner, now, input) {
            Ok(_) => Reply::Created(new_id),
            Err(failure) => Reply::Refused(failure),
        }),
{
}

/// The steps against a storage end as the pairs do: putting a label on a task
/// ends done where the pair is added, and is refused for the same reason where
/// it is not. A pair that is there already is what the storage refuses to
/// write twice.
pub proof fn lemma_attach_steps_agree(
    tasks: Seq<Record<TaskFields>>,
    labels: Seq<Record<LabelFields>>,
    pairs: Seq<TaskLabelModel>,
    owner: Id,
    task_id: Id,
    label_id: Id,
)
    ensures
        run(
            attach_start(task_id, label_id),
            visible(tasks, owner, task_id),
            visible(labels, owner, label_id),
            true,
            if pairs.contains(TaskLabelModel { task_id, label_id }) {
                Event::Written(Err(DbError::Database))
            } else {
                Event::Written(Ok(1))
            },
        ) == (match attach_result(tasks, labels, pairs, owner, task_id, label_id) {
            Ok(_) => Reply::Done,
            Err(failure) => Reply::Refused(failure),
        }),
{
}

/// A task as it is stored.
#[derive(Debug)]
pub struct TaskModel {
    pub id: Id,
    pub parent_id: Option<Id>,
    pub list_id: Id,
    pub created_at: i64,
    pub updated_at: i64,
    pub due_at: String,
    pub due_text: String,
    pub completed: bool,
    pub title: String,
    pub description: Option<String>,
}

/// A task on its way to the caller: the task, and the children and labels that
/// were collected for it. The two collections stand for sets: no identifier is
/// in one of them twice.
#[derive(Debug)]
pub struct GetModelBuilder {
    pub get_model: GetModel,
    pub child_ids: Vec<Id>,
    pub label_ids: Vec<Id>,
}

/// Whether a task as the caller gets it is the stored task.
pub open spec fn carries(model: GetModel, task: TaskModel) -> bool {
    &&& model.id == task.id
    &&& model.parent_id == task.parent_id
    &&& model.list_id == task.list_id
    &&& model.created_at == task.created_at
    &&& model.updated_at == task.updated_at
    &&& model.due_at == task.due_at
    &&& model.due_text == task.due_text
    &&& model.completed == task.completed
    &&& model.title == task.title
    &&& model.description == task.description
}

/// Whether two tasks as the caller gets them hold the same task.
pub open spec fn same_task(a: GetModel, b: GetModel) -> bool {
    &&& a.id == b.id
    &&& a.parent_id == b.parent_id
    &&& a.list_id == b.list_id
    &&& a.created_at == b.created_at
    &&& a.updated_at == b.updated_at
    &&& a.due_at == b.due_at
    &&& a.due_text == b.due_text
    &&& a.completed == b.completed
    &&& a.title == b.title
    &&& a.description == b.description
}

impl GetModelBuilder {
    /// The invariant of the builder: no child and no label is collected twice.
    pub open spec fn wf(&self) -> bool {
        no_repeats(self.child_ids@) && no_repeats(self.label_ids@)
    }

    /// Starts a task without children and labels.
    pub fn new(task: TaskModel) -> (builder: GetModelBuilder)
        ensures
            builder.wf(),
            builder.child_ids@ == Seq::<Id>::empty(),
            builder.label_ids@ == Seq::<Id>::empty(),
            carries(builder.get_model, task),
    {
        GetModelBuilder {
            get_model: GetModel {
                id: task.id,
                parent_id: task.parent_id,
                list_id: task.list_id,
                created_at: task.created_at,
                updated_at: task.updated_at,
                due_at: task.due_at,
                due_text: task.due_text,
                completed: task.completed,
                title: task.title,
                description: task.description,
                child_ids: Vec::new(),
                label_ids: Vec::new(),
            },
            child_ids: Vec::new(),
            label_ids: Vec::new(),
        }
    }

    /// Collects a child: it is added unless it is there already.
    pub fn insert_child(&mut self, child_id: Id)
        requires
            old(self).wf(),
        ensures
            final(self).wf(),
            final(self).child_ids@ == with_once(old(self).child_ids@, Some(child_id)),
            final(self).label_ids@ == old(self).label_ids@,
            final(self).get_model == old(self).get_model,
    {
        proof {
            lemma_with_once(self.child_ids@, Some(child_id));
        }
        push_once(&mut self.child_ids, Some(child_id));
    }

    /// Collects a label: it is added unless it is there already.
    pub fn insert_label(&mut self, label_id: Id)
        requires
            old(self).wf(),
        ensures
            final(self).wf(),
            final(self).label_ids@ == with_once(old(self).label_ids@, Some(label_id)),
            final(self).child_ids@ == old(self).child_ids@,
            final(self).get_model == old(self).get_model,
    {
        proof {
            lemma_with_once(self.label_ids@, Some(label_id));
        }
        push_once(&mut self.label_ids, Some(label_id));
    }

    /// The builder for the group that joined rows of a task were folded into.
    pub fn from_group(group: Group<TaskModel>) -> (builder: GetModelBuilder)
        requires
            no_repeats(group.child_ids@),
            no_repeats(group.label_ids@),
        ensures
            builder.wf(),
            builder.child_ids@ == group.child_ids@,
            builder.label_ids@ == group.label_ids@,
            carries(builder.get_model, group.base),
    {
        let mut builder = GetModelBuilder::new(group.base);
        builder.child_ids = group.child_ids;
        builder.label_ids = group.label_ids;
        builder
    }

    /// The task with the collected children and labels, each once.
    pub fn build(self) -> (model: GetModel)
        requires
            self.wf(),
        ensures
            model.child_ids@ == self.child_ids@,
            model.label_ids@ == self.label_ids@,
            no_repeats(model.child_ids@),
            no_repeats(model.label_ids@),
            same_task(model, self.get_model),
    {
        let mut get_model = self.get_model;
        get_model.child_ids = self.child_ids;
        get_model.label_ids = self.label_ids;
        get_model
    }
}

/// The pairs without those of a label.
pub open spec fn without_label(pairs: Seq<TaskLabelModel>, label_id: Id) -> Seq<TaskLabelModel> {
    pairs.filter(|p: TaskLabelModel| p.label_id != label_id)
}

impl TaskLabels {
    /// Takes a label off every task.
    pub fn remove_label(&mut self, label_id: Id)
        ensures
            final(self)@ == without_label(old(self)@, label_id),
    {
        let mut kept: Vec<TaskLabelModel> = Vec::new();
        let mut i: usize = 0;
        let ghost others = |p: TaskLabelModel| p.label_id != label_id;
        while i < self.pairs.len()
            invariant
                i <= self.pairs.len(),
                self.pairs@ == old(self).pairs@,
                others == |p: TaskLabelModel| p.label_id != label_id,
                kept@ == self.pairs@.take(i as int).filter(others),
            decreases self.pairs.len() - i,
        {
            proof {
                let next = self.pairs@.take(i + 1);
                assert(next.drop_last() =~= self.pairs@.take(i as int));
                assert(next.last() == self.pairs@[i as int]);
                reveal(Seq::filter);
            }
            if self.pairs[i].label_id != label_id {
                kept.push(self.pairs[i]);
            }
            assert(kept@ =~= self.pairs@.take(i + 1).filter(others));
            i += 1;
        }
        assert(self.pairs@.take(self.pairs.len() as int) =~= self.pairs@);
        self.pairs = kept;
    }
}

} // verus!
