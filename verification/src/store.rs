//! The application state and the three operations of the task store.

use vstd::prelude::*;
use vstd::string::*;
use crate::task::{
    fresh_id, flipped, has_id, hyphens, index_of_id, lemma_fresh_id_is_unused,
    lemma_longest_id_bounds, longest_id, task_views, texts_present, toggled, unique_ids, distinct,
    TaskError, TaskErrorView, TaskView, TodoItem,
};
use crate::text::{is_blank, str_is_blank};

verus! {

/// The state as plain values: the tasks in insertion order and the
/// connected channels in the order in which they connected.
pub struct StateView {
    pub tasks: Seq<TaskView>,
    pub channels: Seq<u32>,
}

impl StateView {
    /// What holds of every state: identifiers are unique, no task has a
    /// blank text, and no channel is listed twice.
    pub open spec fn wf(self) -> bool {
        &&& unique_ids(self.tasks)
        &&& texts_present(self.tasks)
        &&& distinct(self.channels)
    }
}

/// The tasks and the connected WebSocket channels.
#[derive(PartialEq, Debug)]
pub struct TodoState {
    pub(crate) tasks: Vec<TodoItem>,
    pub(crate) ws_channels: Vec<u32>,
}

impl View for TodoState {
    type V = StateView;

    open(crate) spec fn view(&self) -> StateView {
        StateView { tasks: task_views(self.tasks@), channels: self.ws_channels@ }
    }
}

/// Draws a random identifier with `Uuid::new_v4` of the uuid crate and
/// writes it out with `to_string`, which gives the hyphenated form of 36
/// characters. Nothing is claimed of which identifier comes. The call
/// panics where the system has no random bytes to give.
#[verifier::external_body]
pub(crate) fn random_id() -> (r: String)
    ensures
        r@.len() == 36,
{
    uuid::Uuid::new_v4().to_string()
}

/// A copy of a list of tasks.
pub fn copy_tasks(tasks: &Vec<TodoItem>) -> (r: Vec<TodoItem>)
    ensures
        task_views(r@) == task_views(tasks@),
{
    let mut out: Vec<TodoItem> = Vec::new();
    let mut i: usize = 0;
    while i < tasks.len()
        invariant
            i <= tasks.len(),
            out.len() == i,
            forall|j: int| 0 <= j < i ==> out@[j]@ == tasks@[j]@,
        decreases tasks.len() - i,
    {
        out.push(tasks[i].clone());
        i += 1;
    }
    assert(task_views(out@) =~= task_views(tasks@));
    out
}

impl Default for TodoState {
    fn default() -> (r: Self)
        ensures
            r@.tasks.len() == 0,
            r@.channels.len() == 0,
            r@.wf(),
    {
        TodoState { tasks: Vec::new(), ws_channels: Vec::new() }
    }
}

impl Clone for TodoState {
    fn clone(&self) -> (r: Self)
        ensures
            r@ == self@,
    {
        proof {
            use_type_invariant(self);
        }
        TodoState { tasks: copy_tasks(&self.tasks), ws_channels: self.ws_channels.clone() }
    }
}

impl TodoState {
    /// Every state is well formed.
    #[verifier::type_invariant]
    pub(crate) open spec fn valid(self) -> bool {
        self@.wf()
    }

    /// Does nothing, and tells a verified caller that the state is well
    /// formed, as every state is.
    pub fn well_formed(&self)
        ensures
            self@.wf(),
    {
        proof {
            use_type_invariant(self);
        }
    }

    /// An empty state: no task, no channel.
    pub fn new() -> (r: Self)
        ensures
            r@.tasks.len() == 0,
            r@.channels.len() == 0,
            r@.wf(),
    {
        TodoState { tasks: Vec::new(), ws_channels: Vec::new() }
    }

    /// A state that holds these tasks and no channel, if they can stand in
    /// a store together: no identifier twice and no text blank.
    pub fn from_tasks(tasks: Vec<TodoItem>) -> (r: Option<Self>)
        ensures
            r is Some == (unique_ids(task_views(tasks@)) && texts_present(task_views(tasks@))),
            r matches Some(s) ==> s@.tasks == task_views(tasks@) && s@.channels.len() == 0
                && s@.wf(),
    {
        let ghost views = task_views(tasks@);
        let mut i: usize = 0;
        while i < tasks.len()
            invariant
                i <= tasks.len(),
                views == task_views(tasks@),
                forall|a: int, b: int|
                    0 <= a < b < i ==> (#[trigger] views[a]).id != (#[trigger] views[b]).id,
                forall|a: int| 0 <= a < i ==> !is_blank((#[trigger] views[a]).text),
            decreases tasks.len() - i,
        {
            if str_is_blank(tasks[i].text().as_str()) {
                assert(is_blank(views[i as int].text));
                return None;
            }
            let mut j: usize = 0;
            while j < i
                invariant
                    j <= i < tasks.len(),
                    views == task_views(tasks@),
                    forall|a: int| 0 <= a < j ==> (#[trigger] views[a]).id != views[i as int].id,
                decreases i - j,
            {
                if *tasks[j].id() == *tasks[i].id() {
                    assert(views[j as int].id == views[i as int].id);
                    return None;
                }
                j += 1;
            }
            i += 1;
        }
        Some(TodoState { tasks, ws_channels: Vec::new() })
    }

    /// Empties the state.
    pub fn initialize(&mut self)
        ensures
            final(self)@.tasks.len() == 0,
            final(self)@.channels.len() == 0,
            final(self)@.wf(),
    {
        proof {
            use_type_invariant(&*self);
        }
        self.tasks = Vec::new();
        self.ws_channels = Vec::new();
    }

    /// Where the task with this identifier stands, if there is one.
    pub fn find_task(&self, task_id: &String) -> (r: Option<usize>)
        ensures
            r is Some == has_id(self@.tasks, task_id@),
            r matches Some(i) ==> i < self@.tasks.len() && self@.tasks[i as int].id == task_id@,
            r matches Some(i) ==> i == index_of_id(self@.tasks, task_id@),
    {
        proof {
            use_type_invariant(self);
        }
        let mut i: usize = 0;
        while i < self.tasks.len()
            invariant
                i <= self.tasks.len(),
                unique_ids(self@.tasks),
                forall|j: int| 0 <= j < i ==> (#[trigger] self@.tasks[j]).id != task_id@,
            decreases self.tasks.len() - i,
        {
            if *self.tasks[i].id() == *task_id {
                assert(self@.tasks[i as int].id == task_id@);
                return Some(i);
            }
            i += 1;
        }
        None
    }

    /// The length of the longest identifier in use.
    fn longest_id_len(&self) -> (r: usize)
        ensures
            r == longest_id(self@.tasks),
    {
        let mut longest: usize = 0;
        let mut i: usize = 0;
        while i < self.tasks.len()
            invariant
                i <= self.tasks.len(),
                longest == longest_id(self@.tasks.take(i as int)),
            decreases self.tasks.len() - i,
        {
            let n: usize = self.tasks[i].id().as_str().unicode_len();
            proof {
                let next = self@.tasks.take(i + 1);
                assert(next.drop_last() =~= self@.tasks.take(i as int));
                assert(next.last() == self@.tasks[i as int]);
            }
            if n > longest {
                longest = n;
            }
            i += 1;
        }
        assert(self@.tasks.take(i as int) =~= self@.tasks);
        longest
    }

    /// An identifier that no task has: `fresh_id` of the candidate.
    pub fn unused_id(&self, candidate: String) -> (r: String)
        ensures
            r@ == fresh_id(self@.tasks, candidate@),
            !has_id(self@.tasks, r@),
    {
        proof {
            lemma_fresh_id_is_unused(self@.tasks, candidate@);
        }
        if self.find_task(&candidate).is_none() {
            return candidate;
        }
        let longest: usize = self.longest_id_len();
        let ghost start = candidate@;
        let mut id: String = candidate;
        let mut n: usize = id.as_str().unicode_len();
        proof {
            lemma_longest_id_bounds(self@.tasks, index_of_id(self@.tasks, start));
            assert(id@ =~= start + hyphens(0));
            reveal_strlit("-");
        }
        while n < longest
            invariant
                start.len() <= n <= longest,
                n == id@.len(),
                id@ == start + hyphens((n - start.len()) as nat),
                "-"@ == seq!['-'],
            decreases longest - n,
        {
            id.append("-");
            n += 1;
            assert(id@ =~= start + hyphens((n - start.len()) as nat));
        }
        id.append("-");
        assert(id@ =~= start + hyphens((longest + 1 - start.len()) as nat));
        id
    }

    /// Appends a task with the given text under the identifier that
    /// `fresh_id` makes of `candidate`, unless the text is blank.
    pub fn add_task_with_id(&mut self, text: String, candidate: String) -> (r: Result<
        TodoItem,
        TaskError,
    >)
        ensures
            final(self)@.wf(),
            final(self)@.channels == old(self)@.channels,
            is_blank(text@) ==> (r matches Err(e) && e@ == TaskErrorView::EmptyText) && final(self)@
                == old(self)@,
            !is_blank(text@) ==> (r matches Ok(t) && t@ == (TaskView {
                id: fresh_id(old(self)@.tasks, candidate@),
                text: text@,
                completed: false,
            }) && final(self)@.tasks == old(self)@.tasks.push(t@)),
    {
        proof {
            use_type_invariant(&*self);
        }
        if str_is_blank(text.as_str()) {
            return Err(TaskError::EmptyText);
        }
        let id = self.unused_id(candidate);
        let task = TodoItem::new(id, text, false);
        let copy = task.clone();
        let mut tasks: Vec<TodoItem> = Vec::new();
        std::mem::swap(&mut tasks, &mut self.tasks);
        tasks.push(task);
        proof {
            assert(task_views(tasks@) =~= old(self)@.tasks.push(copy@));
            lemma_added_task_listed_once(old(self)@.tasks, copy@);
        }
        self.tasks = tasks;
        Ok(copy)
    }

    /// Appends a task with the given text, unless the text is blank. Its
    /// identifier is `fresh_id` of a random candidate of 36 characters: one
    /// that no task has.
    pub fn add_task(&mut self, text: String) -> (r: Result<TodoItem, TaskError>)
        ensures
            final(self)@.wf(),
            final(self)@.channels == old(self)@.channels,
            is_blank(text@) ==> (r matches Err(e) && e@ == TaskErrorView::EmptyText) && final(self)@
                == old(self)@,
            !is_blank(text@) ==> (r matches Ok(t) && t@.text == text@ && !t@.completed && !has_id(
                old(self)@.tasks,
                t@.id,
            ) && final(self)@.tasks == old(self)@.tasks.push(t@) && exists|candidate: Seq<char>|
                candidate.len() == 36 && t@.id == #[trigger] fresh_id(old(self)@.tasks, candidate)),
    {
        proof {
            use_type_invariant(&*self);
        }
        if str_is_blank(text.as_str()) {
            return Err(TaskError::EmptyText);
        }
        let candidate = random_id();
        proof {
            lemma_fresh_id_is_unused(self@.tasks, candidate@);
        }
        self.add_task_with_id(text, candidate)
    }

    /// A copy of the tasks, in insertion order. The request text is not
    /// looked at.
    pub fn get_tasks(&self, request: String) -> (r: Result<Vec<TodoItem>, TaskError>)
        ensures
            r matches Ok(v) && task_views(v@) == self@.tasks,
    {
        Ok(copy_tasks(&self.tasks))
    }

    /// Turns over the completion flag of the task with this identifier.
    pub fn toggle_task(&mut self, task_id: String) -> (r: Result<TodoItem, TaskError>)
        ensures
            final(self)@.wf(),
            final(self)@.channels == old(self)@.channels,
            final(self)@.tasks == toggled(old(self)@.tasks, task_id@),
            has_id(old(self)@.tasks, task_id@) ==> (r matches Ok(t) && t@ == flipped(
                old(self)@.tasks[index_of_id(old(self)@.tasks, task_id@)],
            )),
            !has_id(old(self)@.tasks, task_id@) ==> (r matches Err(e) && e@
                == TaskErrorView::NotFound(task_id@)) && final(self)@ == old(self)@,
    {
        proof {
            use_type_invariant(&*self);
        }
        match self.find_task(&task_id) {
            Some(i) => {
                let task = TodoItem::new(
                    self.tasks[i].id().clone(),
                    self.tasks[i].text().clone(),
                    !self.tasks[i].completed(),
                );
                let copy = task.clone();
                let mut tasks: Vec<TodoItem> = Vec::new();
                std::mem::swap(&mut tasks, &mut self.tasks);
                tasks.set(i, task);
                proof {
                    assert(task_views(tasks@) =~= toggled(old(self)@.tasks, task_id@));
                    lemma_toggle_keeps_ids(old(self)@.tasks, task_id@);
                }
                self.tasks = tasks;
                Ok(copy)
            },
            None => {
                proof {
                    assert(old(self)@.tasks =~= toggled(old(self)@.tasks, task_id@));
                }
                Err(TaskError::NotFound(task_id))
            },
        }
    }
}

/// A task that is appended under an unused identifier stands last in the
/// list and nowhere else, and the identifiers stay unique.
pub proof fn lemma_added_task_listed_once(tasks: Seq<TaskView>, task: TaskView)
    requires
        unique_ids(tasks),
        !has_id(tasks, task.id),
    ensures
        tasks.push(task).last() == task,
        unique_ids(tasks.push(task)),
        forall|i: int|
            0 <= i < tasks.push(task).len() && (#[trigger] tasks.push(task)[i]).id == task.id ==> i
                == tasks.len(),
{
    let after = tasks.push(task);
    assert forall|i: int, j: int| 0 <= i < j < after.len() implies (#[trigger] after[i]).id != (
    #[trigger] after[j]).id by {
        if j == tasks.len() {
            assert(tasks[i].id != task.id);
        } else {
            assert(tasks[i].id != tasks[j].id);
        }
    }
    assert forall|i: int| 0 <= i < after.len() && (#[trigger] after[i]).id == task.id implies i
        == tasks.len() by {
        if i < tasks.len() {
            assert(tasks[i].id != task.id);
        }
    }
}

/// Turning a task over twice leaves the list as it was.
pub proof fn lemma_toggle_twice(tasks: Seq<TaskView>, id: Seq<char>)
    ensures
        toggled(toggled(tasks, id), id) == tasks,
{
    assert(toggled(toggled(tasks, id), id) =~= tasks);
}

/// Under unique identifiers, turning a task over changes the flag of the
/// task with that identifier and of no other task.
pub proof fn lemma_toggle_flips_one(tasks: Seq<TaskView>, id: Seq<char>, i: int)
    requires
        unique_ids(tasks),
        0 <= i < tasks.len(),
    ensures
        toggled(tasks, id).len() == tasks.len(),
        toggled(tasks, id)[i].id == tasks[i].id,
        toggled(tasks, id)[i].text == tasks[i].text,
        toggled(tasks, id)[i].completed == if i == index_of_id(tasks, id) && has_id(tasks, id) {
            !tasks[i].completed
        } else {
            tasks[i].completed
        },
{
    if has_id(tasks, id) {
        let k = index_of_id(tasks, id);
        if i != k {
            assert(tasks[i].id != tasks[k].id);
        }
    }
}

/// Turning a task over keeps every identifier and every text in its place.
pub proof fn lemma_toggle_keeps_ids(tasks: Seq<TaskView>, id: Seq<char>)
    ensures
        toggled(tasks, id).len() == tasks.len(),
        forall|i: int|
            0 <= i < tasks.len() ==> (#[trigger] toggled(tasks, id)[i]).id == tasks[i].id
                && toggled(tasks, id)[i].text == tasks[i].text,
        unique_ids(tasks) ==> unique_ids(toggled(tasks, id)),
        texts_present(tasks) ==> texts_present(toggled(tasks, id)),
{
    let after = toggled(tasks, id);
    if unique_ids(tasks) {
        assert forall|i: int, j: int| 0 <= i < j < after.len() implies (#[trigger] after[i]).id != (
        #[trigger] after[j]).id by {
            assert(tasks[i].id != tasks[j].id);
        }
    }
    if texts_present(tasks) {
        assert forall|i: int| 0 <= i < after.len() implies !is_blank((#[trigger] after[i]).text) by {
            assert(!is_blank(tasks[i].text));
        }
    }
}

/// Turning over an identifier that no task has changes nothing.
pub proof fn lemma_toggle_unknown(tasks: Seq<TaskView>, id: Seq<char>)
    requires
        !has_id(tasks, id),
    ensures
        toggled(tasks, id) == tasks,
{
    assert(toggled(tasks, id) =~= tasks);
}

} // verus!
