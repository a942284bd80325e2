//! Named background operations, at most one per name.

use vstd::prelude::*;

use crate::table::{lists_exactly, NamedTable};
use crate::text::owned;

verus! {

/// The handles of running background operations, by name. `T` is what
/// cancels one.
pub struct TaskManager<T> {
    tasks: NamedTable<T>,
}

impl<T> View for TaskManager<T> {
    type V = Map<Seq<char>, T>;

    closed spec fn view(&self) -> Map<Seq<char>, T> {
        self.tasks@
    }
}

impl<T> TaskManager<T> {
    pub closed spec fn wf(&self) -> bool {
        self.tasks.wf()
    }

    /// No task running.
    pub fn new() -> (r: Self)
        ensures
            r.wf(),
            r@ == Map::<Seq<char>, T>::empty(),
    {
        TaskManager { tasks: NamedTable::new() }
    }

    /// Whether a task runs under `name`.
    pub fn contains(&self, name: &str) -> (r: bool)
        requires
            self.wf(),
        ensures
            r == self@.contains_key(name@),
    {
        self.tasks.contains(name)
    }

    /// Records `task` under `name`. A task already running under that name
    /// is left as it is, and `task` is handed back for the caller to cancel.
    pub fn add(&mut self, name: &str, task: T) -> (r: Option<T>)
        requires
            old(self).wf(),
        ensures
            final(self).wf(),
            old(self)@.contains_key(name@) ==> r == Some(task) && final(self)@ == old(self)@,
            !old(self)@.contains_key(name@) ==> r.is_none() && final(self)@ == old(self)@.insert(
                name@,
                task,
            ),
    {
        self.tasks.insert_new(owned(name), task)
    }

    /// Removes the task under `name` and returns it for cancelling.
    pub fn dispose(&mut self, name: &str) -> (r: Option<T>)
        requires
            old(self).wf(),
        ensures
            final(self).wf(),
            final(self)@ == old(self)@.remove(name@),
            r.is_some() == old(self)@.contains_key(name@),
            r matches Some(t) ==> t == old(self)@[name@],
    {
        match self.tasks.remove(name) {
            Some(e) => Some(e.1),
            None => None,
        }
    }

    /// Removes every task and returns them, each once, for cancelling.
    pub fn dispose_all(&mut self) -> (r: Vec<(String, T)>)
        requires
            old(self).wf(),
        ensures
            final(self).wf(),
            final(self)@ == Map::<Seq<char>, T>::empty(),
            lists_exactly(r@, old(self)@),
    {
        self.tasks.drain()
    }
}

} // verus!
