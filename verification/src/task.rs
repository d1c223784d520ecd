//! The task entity and its row-level form.
//!
//! A `Task` is the caller-facing value: required attributes are plain
//! strings, optional ones are `Option<String>`. A `TaskRow` is the same
//! record as the storage engine sees it: every column nullable, so that
//! the schema's NOT NULL constraints can be stated and exercised.

use vstd::prelude::*;

verus! {

/// One task-board item, constructed entirely by the caller.
#[derive(Debug)]
pub struct Task {
    pub id: String,
    pub title: String,
    pub description: Option<String>,
    pub document_id: Option<String>,
    pub priority: String,
    pub created_at: String,
    pub updated_at: String,
    pub column_id: String,
    pub deadline: Option<String>,
}

/// Mathematical view of a `Task`: each attribute as a character sequence.
pub struct TaskView {
    pub id: Seq<char>,
    pub title: Seq<char>,
    pub description: Option<Seq<char>>,
    pub document_id: Option<Seq<char>>,
    pub priority: Seq<char>,
    pub created_at: Seq<char>,
    pub updated_at: Seq<char>,
    pub column_id: Seq<char>,
    pub deadline: Option<Seq<char>>,
}

/// One row of the `tasks` table, with every column nullable, exactly as
/// the storage engine treats bound parameters.
#[derive(Debug)]
pub struct TaskRow {
    pub id: Option<String>,
    pub title: Option<String>,
    pub description: Option<String>,
    pub document_id: Option<String>,
    pub priority: Option<String>,
    pub created_at: Option<String>,
    pub updated_at: Option<String>,
    pub column_id: Option<String>,
    pub deadline: Option<String>,
}

/// Mathematical view of a `TaskRow`.
pub struct RowView {
    pub id: Option<Seq<char>>,
    pub title: Option<Seq<char>>,
    pub description: Option<Seq<char>>,
    pub document_id: Option<Seq<char>>,
    pub priority: Option<Seq<char>>,
    pub created_at: Option<Seq<char>>,
    pub updated_at: Option<Seq<char>>,
    pub column_id: Option<Seq<char>>,
    pub deadline: Option<Seq<char>>,
}

pub open spec fn opt_str_view(o: Option<String>) -> Option<Seq<char>> {
    match o {
        Some(s) => Some(s@),
        None => None,
    }
}

impl View for Task {
    type V = TaskView;

    open spec fn view(&self) -> TaskView {
        TaskView {
            id: self.id@,
            title: self.title@,
            description: opt_str_view(self.description),
            document_id: opt_str_view(self.document_id),
            priority: self.priority@,
            created_at: self.created_at@,
            updated_at: self.updated_at@,
            column_id: self.column_id@,
            deadline: opt_str_view(self.deadline),
        }
    }
}

impl View for TaskRow {
    type V = RowView;

    open spec fn view(&self) -> RowView {
        RowView {
            id: opt_str_view(self.id),
            title: opt_str_view(self.title),
            description: opt_str_view(self.description),
            document_id: opt_str_view(self.document_id),
            priority: opt_str_view(self.priority),
            created_at: opt_str_view(self.created_at),
            updated_at: opt_str_view(self.updated_at),
            column_id: opt_str_view(self.column_id),
            deadline: opt_str_view(self.deadline),
        }
    }
}

/// A row satisfies the schema's NOT NULL constraints: `id`, `title`,
/// `priority`, `created_at`, `updated_at` and `column_id` are all present.
pub open spec fn row_complete(r: RowView) -> bool {
    &&& r.id is Some
    &&& r.title is Some
    &&& r.priority is Some
    &&& r.created_at is Some
    &&& r.updated_at is Some
    &&& r.column_id is Some
}

/// The row that a task binds, attribute by attribute: required attributes
/// become present columns, optional ones carry over (absent stays null).
pub open spec fn row_of(t: TaskView) -> RowView {
    RowView {
        id: Some(t.id),
        title: Some(t.title),
        description: t.description,
        document_id: t.document_id,
        priority: Some(t.priority),
        created_at: Some(t.created_at),
        updated_at: Some(t.updated_at),
        column_id: Some(t.column_id),
        deadline: t.deadline,
    }
}

/// The task a complete row describes; an incomplete row describes none.
pub open spec fn task_of_row(r: RowView) -> Option<TaskView> {
    if row_complete(r) {
        Some(TaskView {
            id: r.id->0,
            title: r.title->0,
            description: r.description,
            document_id: r.document_id,
            priority: r.priority->0,
            created_at: r.created_at->0,
            updated_at: r.updated_at->0,
            column_id: r.column_id->0,
            deadline: r.deadline,
        })
    } else {
        None
    }
}

fn clone_opt(o: &Option<String>) -> (r: Option<String>)
    ensures
        opt_str_view(r) == opt_str_view(*o),
{
    match o {
        Some(s) => Some(s.clone()),
        None => None,
    }
}

impl Task {
    /// Bind the attributes into a row, one column per attribute.
    pub fn to_row(&self) -> (r: TaskRow)
        ensures
            r@ == row_of(self@),
    {
        TaskRow {
            id: Some(self.id.clone()),
            title: Some(self.title.clone()),
            description: clone_opt(&self.description),
            document_id: clone_opt(&self.document_id),
            priority: Some(self.priority.clone()),
            created_at: Some(self.created_at.clone()),
            updated_at: Some(self.updated_at.clone()),
            column_id: Some(self.column_id.clone()),
            deadline: clone_opt(&self.deadline),
        }
    }
}

impl TaskRow {
    /// Recover the task a complete row describes; `None` when a required
    /// column is null.
    pub fn into_task(self) -> (r: Option<Task>)
        ensures
            r matches Some(t) ==> task_of_row(self@) == Some(t@),
            r is None <==> !row_complete(self@),
    {
        match (self.id, self.title, self.priority, self.created_at, self.updated_at, self.column_id) {
            (Some(id), Some(title), Some(priority), Some(created_at), Some(updated_at), Some(column_id)) => Some(
                Task {
                    id,
                    title,
                    description: self.description,
                    document_id: self.document_id,
                    priority,
                    created_at,
                    updated_at,
                    column_id,
                    deadline: self.deadline,
                },
            ),
            _ => None,
        }
    }
}

/// Round-trip fidelity: the row a task binds is complete, and reading that
/// row back describes the task exactly, absent optional attributes staying
/// absent (null) throughout.
pub proof fn lemma_row_round_trip(t: TaskView)
    ensures
        row_complete(row_of(t)),
        task_of_row(row_of(t)) == Some(t),
{
}

/// Null-safe optional fields: a task whose description, document id and
/// deadline are all absent still binds a complete row — no NOT NULL
/// constraint concerns those columns — and each of the three is bound as
/// null.
pub proof fn lemma_absent_optionals_bind_null(t: TaskView)
    requires
        t.description is None,
        t.document_id is None,
        t.deadline is None,
    ensures
        row_complete(row_of(t)),
        row_of(t).description is None,
        row_of(t).document_id is None,
        row_of(t).deadline is None,
{
}

} // verus!
