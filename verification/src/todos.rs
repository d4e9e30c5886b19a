//! To-do items and the view fragments built from them.

use vstd::prelude::*;

verus! {

/// One to-do record as the database hands it out.
#[derive(Debug, PartialEq, Eq)]
pub struct Todo {
    pub id: i64,
    pub title: String,
    pub completed: bool,
}

/// Mathematical image of a [`Todo`].
pub struct TodoModel {
    pub id: int,
    pub title: Seq<char>,
    pub completed: bool,
}

impl View for Todo {
    type V = TodoModel;

    open spec fn view(&self) -> TodoModel {
        TodoModel { id: self.id as int, title: self.title@, completed: self.completed }
    }
}

impl Clone for Todo {
    fn clone(&self) -> (r: Self)
        ensures
            r@ == self@,
    {
        Todo { id: self.id, title: self.title.clone(), completed: self.completed }
    }
}

/// The sequence of models of a sequence of records.
pub open spec fn todos_view(s: Seq<Todo>) -> Seq<TodoModel> {
    s.map_values(|t: Todo| t@)
}

/// How many of the models in `s` are completed.
pub open spec fn spec_completed_count(s: Seq<TodoModel>) -> nat
    decreases s.len(),
{
    if s.len() == 0 {
        0
    } else {
        spec_completed_count(s.drop_last()) + (if s.last().completed {
            1nat
        } else {
            0nat
        })
    }
}

/// Counts the completed records of `todos`.
pub fn count_completed(todos: &Vec<Todo>) -> (n: usize)
    ensures
        n == spec_completed_count(todos_view(todos@)),
        n <= todos@.len(),
{
    let mut n: usize = 0;
    let mut i: usize = 0;
    while i < todos.len()
        invariant
            0 <= i <= todos@.len(),
            n <= i,
            n == spec_completed_count(todos_view(todos@).take(i as int)),
        decreases todos@.len() - i,
    {
        proof {
            assert(todos_view(todos@).take(i + 1).drop_last() =~= todos_view(todos@).take(
                i as int,
            ));
            assert(todos_view(todos@).take(i + 1).last() == todos@[i as int]@);
        }
        if todos[i].completed {
            n = n + 1;
        }
        i = i + 1;
    }
    proof {
        assert(todos_view(todos@).take(todos@.len() as int) =~= todos_view(todos@));
    }
    n
}

/// Counts the records of `todos` that are still pending.
pub fn count_pending(todos: &Vec<Todo>) -> (n: usize)
    ensures
        n + spec_completed_count(todos_view(todos@)) == todos@.len(),
{
    proof {
        lemma_completed_count_le(todos_view(todos@));
    }
    let done = count_completed(todos);
    todos.len() - done
}

/// Copies a to-do list, keeping its model.
pub fn clone_todos(ts: &Vec<Todo>) -> (r: Vec<Todo>)
    ensures
        todos_view(r@) == todos_view(ts@),
{
    let mut r: Vec<Todo> = Vec::new();
    let mut i: usize = 0;
    while i < ts.len()
        invariant
            0 <= i <= ts@.len(),
            r@.len() == i,
            forall|j: int| 0 <= j < i ==> r@[j]@ == ts@[j]@,
        decreases ts@.len() - i,
    {
        r.push(ts[i].clone());
        i = i + 1;
    }
    proof {
        assert(todos_view(r@) =~= todos_view(ts@));
    }
    r
}

/// The completed count never exceeds the length.
pub proof fn lemma_completed_count_le(s: Seq<TodoModel>)
    ensures
        spec_completed_count(s) <= s.len(),
    decreases s.len(),
{
    if s.len() > 0 {
        lemma_completed_count_le(s.drop_last());
    }
}

/// View fragment showing a single to-do item.
#[derive(Debug)]
pub struct TodoItemTemplate {
    pub todo: Todo,
}

/// View fragment holding the creation form.
#[derive(Debug)]
pub struct CreateFormTemplate;

/// View fragment with the counters shown beside the list.
#[derive(Debug, PartialEq, Eq)]
pub struct TodoStatsTemplate {
    pub total_count: usize,
    pub completed_count: usize,
    pub pending_count: usize,
}

/// Form payload for creating a to-do.
#[derive(Debug)]
pub struct CreateTodoForm {
    pub title: String,
}

/// Assembles the counter fragment from the aggregate counts the database
/// reports; the pending count is what completion leaves over.
pub fn build_todo_stats(total_count: usize, completed_count: usize) -> (r: TodoStatsTemplate)
    requires
        completed_count <= total_count,
    ensures
        r.total_count == total_count,
        r.completed_count == completed_count,
        r.pending_count == total_count - completed_count,
{
    TodoStatsTemplate {
        total_count,
        completed_count,
        pending_count: total_count - completed_count,
    }
}

} // verus!
