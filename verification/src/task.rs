//! The task store: an ordered list of tasks with unique identifiers.

use vstd::prelude::*;
use vstd::string::*;
use crate::text::{is_blank, str_is_blank};

verus! {

/// What a task is, as plain values.
pub struct TaskView {
    pub id: Seq<char>,
    pub text: Seq<char>,
    pub completed: bool,
}

/// One task: an identifier that never changes, its text as it was given,
/// and whether it is done.
#[derive(Debug)]
pub struct TodoItem {
    id: String,
    text: String,
    completed: bool,
}

impl View for TodoItem {
    type V = TaskView;

    closed spec fn view(&self) -> TaskView {
        TaskView { id: self.id@, text: self.text@, completed: self.completed }
    }
}

impl Clone for TodoItem {
    fn clone(&self) -> (r: Self)
        ensures
            r@ == self@,
    {
        TodoItem { id: self.id.clone(), text: self.text.clone(), completed: self.completed }
    }
}

impl PartialEq for TodoItem {
    fn eq(&self, other: &Self) -> (r: bool) {
        self.id == other.id && self.text == other.text && self.completed == other.completed
    }
}

impl vstd::std_specs::cmp::PartialEqSpecImpl for TodoItem {
    open spec fn obeys_eq_spec() -> bool {
        true
    }

    open spec fn eq_spec(&self, other: &Self) -> bool {
        self@ == other@
    }
}

impl TodoItem {
    /// A task made of these parts.
    pub fn new(id: String, text: String, completed: bool) -> (r: Self)
        ensures
            r@ == (TaskView { id: id@, text: text@, completed }),
    {
        TodoItem { id, text, completed }
    }

    /// The task's identifier.
    pub fn id(&self) -> (r: &String)
        ensures
            r@ == self@.id,
    {
        &self.id
    }

    /// The task's text.
    pub fn text(&self) -> (r: &String)
        ensures
            r@ == self@.text,
    {
        &self.text
    }

    /// Whether the task is done.
    pub fn completed(&self) -> (r: bool)
        ensures
            r == self@.completed,
    {
        self.completed
    }
}

/// Why the store refused an operation.
#[derive(Debug)]
pub enum TaskError {
    /// The text was empty once trimmed.
    EmptyText,
    /// No task has the identifier that was asked for.
    NotFound(String),
}

/// An error of the store, as plain values.
pub enum TaskErrorView {
    EmptyText,
    NotFound(Seq<char>),
}

impl View for TaskError {
    type V = TaskErrorView;

    open spec fn view(&self) -> TaskErrorView {
        match self {
            TaskError::EmptyText => TaskErrorView::EmptyText,
            TaskError::NotFound(id) => TaskErrorView::NotFound(id@),
        }
    }
}

/// The words in which an error is reported.
pub open spec fn error_message(e: TaskErrorView) -> Seq<char> {
    match e {
        TaskErrorView::EmptyText => "Task text cannot be empty"@,
        TaskErrorView::NotFound(id) => "Task with id '"@ + id + "' not found"@,
    }
}

impl TaskError {
    /// The error in words.
    pub fn message(&self) -> (r: String)
        ensures
            r@ == error_message(self@),
    {
        match self {
            TaskError::EmptyText => String::from_str("Task text cannot be empty"),
            TaskError::NotFound(id) => String::from_str("Task with id '").concat(
                id.as_str(),
            ).concat("' not found"),
        }
    }
}

/// The tasks of a list, each as plain values, in the list's order.
pub open spec fn task_views(tasks: Seq<TodoItem>) -> Seq<TaskView> {
    Seq::new(tasks.len(), |i: int| tasks[i]@)
}

/// Whether some task of the list has this identifier.
pub open spec fn has_id(tasks: Seq<TaskView>, id: Seq<char>) -> bool {
    exists|i: int| 0 <= i < tasks.len() && (#[trigger] tasks[i]).id == id
}

/// Where the task with this identifier stands, if there is one.
pub open spec fn index_of_id(tasks: Seq<TaskView>, id: Seq<char>) -> int {
    choose|i: int| 0 <= i < tasks.len() && (#[trigger] tasks[i]).id == id
}

/// Whether no identifier occurs twice in the list.
pub open spec fn unique_ids(tasks: Seq<TaskView>) -> bool {
    forall|i: int, j: int|
        0 <= i < j < tasks.len() ==> (#[trigger] tasks[i]).id != (#[trigger] tasks[j]).id
}

/// Whether every task's text has something left once trimmed.
pub open spec fn texts_present(tasks: Seq<TaskView>) -> bool {
    forall|i: int| 0 <= i < tasks.len() ==> !is_blank((#[trigger] tasks[i]).text)
}

/// Whether no channel occurs twice in the list.
pub open spec fn distinct(channels: Seq<u32>) -> bool {
    forall|i: int, j: int|
        0 <= i < j < channels.len() ==> #[trigger] channels[i] != #[trigger] channels[j]
}

/// The task with its completion flag turned over.
pub open spec fn flipped(t: TaskView) -> TaskView {
    TaskView { id: t.id, text: t.text, completed: !t.completed }
}

/// The list after the flag of each task with this identifier is turned over.
pub open spec fn toggled(tasks: Seq<TaskView>, id: Seq<char>) -> Seq<TaskView> {
    Seq::new(tasks.len(), |i: int| if tasks[i].id == id { flipped(tasks[i]) } else { tasks[i] })
}

/// The length of the longest identifier in the list.
pub open spec fn longest_id(tasks: Seq<TaskView>) -> nat
    decreases tasks.len(),
{
    if tasks.len() == 0 {
        0
    } else {
        let rest = longest_id(tasks.drop_last());
        if tasks.last().id.len() > rest {
            tasks.last().id.len()
        } else {
            rest
        }
    }
}

/// A run of `n` hyphens.
pub open spec fn hyphens(n: nat) -> Seq<char> {
    Seq::new(n, |i: int| '-')
}

/// The identifier that a new task gets when `candidate` is proposed for it:
/// the candidate itself unless a task already has it, and then the candidate
/// lengthened by hyphens until it is longer than every identifier in use.
pub open spec fn fresh_id(tasks: Seq<TaskView>, candidate: Seq<char>) -> Seq<char> {
    if has_id(tasks, candidate) {
        candidate + hyphens((longest_id(tasks) + 1 - candidate.len()) as nat)
    } else {
        candidate
    }
}

/// No identifier in the list is longer than `longest_id` says.
pub proof fn lemma_longest_id_bounds(tasks: Seq<TaskView>, i: int)
    requires
        0 <= i < tasks.len(),
    ensures
        tasks[i].id.len() <= longest_id(tasks),
    decreases tasks.len(),
{
    if i < tasks.len() - 1 {
        lemma_longest_id_bounds(tasks.drop_last(), i);
    }
}

/// The identifier chosen for a new task is one that no task has.
pub proof fn lemma_fresh_id_is_unused(tasks: Seq<TaskView>, candidate: Seq<char>)
    ensures
        !has_id(tasks, fresh_id(tasks, candidate)),
{
    if has_id(tasks, candidate) {
        let k = index_of_id(tasks, candidate);
        lemma_longest_id_bounds(tasks, k);
        let id = fresh_id(tasks, candidate);
        assert(id.len() == longest_id(tasks) + 1);
        assert forall|i: int| 0 <= i < tasks.len() implies (#[trigger] tasks[i]).id != id by {
            lemma_longest_id_bounds(tasks, i);
        }
    }
}

} // verus!
