use vstd::prelude::*;

use crate::parse::Confirmation;
use crate::task::{filter_matches, Filter, Task};

verus! {

broadcast use vstd::string::to_string_from_display_ensures_for_str;

/// Whether a store holding `len` tasks, made with bound `max`, takes one more.
///
/// The store rejects only once it holds more than `max` tasks, so it can
/// reach `max + 1` tasks.
pub open spec fn accepts_another(len: nat, max: nat) -> bool {
    len <= max
}

/// What listing a store whose tasks are `s` gives: nothing for an empty
/// store, otherwise all tasks in insertion order.
pub open spec fn listing(s: Seq<Task>) -> Option<Seq<Task>> {
    if s.len() == 0 {
        None
    } else {
        Some(s)
    }
}

/// The tasks of `s` kept by `f`, in their original order.
pub open spec fn filtered(s: Seq<Task>, f: Filter) -> Seq<Task> {
    s.filter(|t: Task| filter_matches(f, t))
}

/// The tasks of `s` whose id is not `id`, in their original order.
pub open spec fn without_id(s: Seq<Task>, id: Seq<char>) -> Seq<Task> {
    s.filter(|t: Task| t.id@ != id)
}

/// The tasks of `s` whose id is `id`, in their original order.
pub open spec fn with_id(s: Seq<Task>, id: Seq<char>) -> Seq<Task> {
    s.filter(|t: Task| t.id@ == id)
}

/// The message carried by a rejected insertion.
pub open spec fn capacity_message() -> Seq<char> {
    "Maximum number of tasks reached"@
}

/// The message carried by a deletion on an empty store.
pub open spec fn empty_message() -> Seq<char> {
    "The todolist is empty"@
}

/// An ordered collection of tasks with a capacity bound fixed at construction.
#[derive(Debug)]
pub struct TodoList {
    tasks: Vec<Task>,
    max: usize,
}

impl TodoList {
    /// The tasks held, in insertion order.
    pub closed spec fn task_seq(&self) -> Seq<Task> {
        self.tasks@
    }

    /// The capacity bound the store was made with.
    pub closed spec fn capacity(&self) -> nat {
        self.max as nat
    }

    /// An empty store with capacity bound `max`.
    pub fn new(max: usize) -> (r: TodoList)
        ensures
            r.task_seq() == Seq::<Task>::empty(),
            r.capacity() == max,
    {
        TodoList { tasks: Vec::new(), max }
    }

    /// The number of tasks held.
    pub fn len(&self) -> (r: usize)
        ensures
            r == self.task_seq().len(),
    {
        self.tasks.len()
    }

    /// Whether the store holds no task.
    pub fn is_empty(&self) -> (r: bool)
        ensures
            r == (self.task_seq().len() == 0),
    {
        self.tasks.len() == 0
    }

    /// The capacity bound.
    pub fn max(&self) -> (r: usize)
        ensures
            r == self.capacity(),
    {
        self.max
    }

    /// Appends `task` unless the store already holds more than its bound.
    pub fn add_new_task(&mut self, task: Task) -> (r: Result<(), String>)
        ensures
            final(self).capacity() == old(self).capacity(),
            r is Ok <==> accepts_another(old(self).task_seq().len(), old(self).capacity()),
            r is Ok ==> final(self).task_seq() == old(self).task_seq().push(task),
            r is Err ==> final(self).task_seq() == old(self).task_seq(),
            r matches Err(e) ==> e@ == capacity_message(),
    {
        if self.tasks.len() > self.max {
            return Err("Maximum number of tasks reached".to_string());
        }
        self.tasks.push(task);
        Ok(())
    }

    /// All tasks in insertion order, or `None` when the store is empty.
    pub fn get_all_tasks(&self) -> (r: Option<&[Task]>)
        ensures
            r matches Some(s) ==> listing(self.task_seq()) == Some(s@),
            r is None ==> listing(self.task_seq()) is None,
    {
        if self.tasks.len() == 0 {
            return None;
        }
        Some(self.tasks.as_slice())
    }

    /// The tasks kept by `filter`, in insertion order; `None` when the store is
    /// empty. A non-empty store with no match gives `Some` of an empty vector.
    pub fn get_task_by_filter(&self, filter: Filter) -> (r: Option<Vec<&Task>>)
        ensures
            r is None <==> self.task_seq().len() == 0,
            r matches Some(v) ==> v@.map_values(|t: &Task| *t) == filtered(self.task_seq(), filter),
    {
        if self.tasks.len() == 0 {
            return None;
        }
        let mut out: Vec<&Task> = Vec::new();
        let mut i: usize = 0;
        while i < self.tasks.len()
            invariant
                i <= self.tasks@.len(),
                out@.map_values(|t: &Task| *t) == filtered(self.tasks@.subrange(0, i as int), filter),
            decreases self.tasks@.len() - i,
        {
            let t = &self.tasks[i];
            let keep = t.matches(&filter);
            proof {
                let pre = self.tasks@.subrange(0, i as int);
                let next = self.tasks@.subrange(0, i + 1);
                assert(next.drop_last() == pre);
                assert(next.last() == *t);
                reveal(Seq::filter);
            }
            if keep {
                out.push(t);
            }
            proof {
                assert(out@.map_values(|t: &Task| *t) =~= filtered(self.tasks@.subrange(0, i + 1), filter));
            }
            i += 1;
        }
        assert(self.tasks@.subrange(0, self.tasks@.len() as int) == self.tasks@);
        Some(out)
    }

    /// Removes every task whose id is `id`, keeping the others in order.
    pub fn remove_all_with_id(&mut self, id: &str)
        ensures
            final(self).capacity() == old(self).capacity(),
            final(self).task_seq() == without_id(old(self).task_seq(), id@),
    {
        let ghost orig = self.tasks@;
        let target = id.to_owned();
        let mut rest: Vec<Task> = Vec::new();
        std::mem::swap(&mut self.tasks, &mut rest);
        let ghost k: int = 0;
        while rest.len() > 0
            invariant
                0 <= k <= orig.len(),
                rest@ == orig.subrange(k, orig.len() as int),
                self.tasks@ == without_id(orig.subrange(0, k), id@),
                self.max == old(self).max,
                target@ == id@,
            decreases rest@.len(),
        {
            let t = rest.remove(0);
            proof {
                let next = orig.subrange(0, k + 1);
                assert(next.drop_last() == orig.subrange(0, k));
                assert(next.last() == t);
                reveal(Seq::filter);
            }
            let keep = !(t.id == target);
            if keep {
                self.tasks.push(t);
            }
            proof {
                reveal(Seq::filter);
                assert(self.tasks@ =~= without_id(orig.subrange(0, k + 1), id@));
                k = k + 1;
                assert(rest@ =~= orig.subrange(k, orig.len() as int));
            }
        }
        assert(orig.subrange(0, k) == orig);
    }

    /// Deletes every task whose id is `id` when the caller answered `Yes`.
    /// Any other answer leaves the store as it is and still succeeds; an empty
    /// store is an error.
    pub fn delete_task(&mut self, id: &str, answer: Confirmation) -> (r: Result<(), String>)
        ensures
            final(self).capacity() == old(self).capacity(),
            r is Err <==> old(self).task_seq().len() == 0,
            r matches Err(e) ==> e@ == empty_message(),
            (r is Ok && answer == Confirmation::Yes) ==> final(self).task_seq() == without_id(
                old(self).task_seq(),
                id@,
            ),
            (r is Err || answer != Confirmation::Yes) ==> final(self).task_seq() == old(
                self,
            ).task_seq(),
    {
        if self.tasks.len() == 0 {
            return Err("The todolist is empty".to_string());
        }
        match answer {
            Confirmation::Yes => self.remove_all_with_id(id),
            Confirmation::No => {},
            Confirmation::Invalid => {},
        }
        Ok(())
    }
}

} // verus!
