use vstd::prelude::*;

verus! {

/// Whether a task is still open.
#[derive(Clone, Copy, Debug, PartialEq, Eq, Structural)]
pub enum Status {
    Pending,
    Completed,
}

/// How urgent a task is.
#[derive(Clone, Copy, Debug, PartialEq, Eq, Structural)]
pub enum Priority {
    Low,
    Medium,
    High,
}

/// One unit of work. Immutable once built.
#[derive(Debug)]
pub struct Task {
    pub name: String,
    pub description: String,
    pub status: Status,
    pub priority: Priority,
    pub id: String,
}

/// A selection criterion: the named field must equal the given value exactly.
#[derive(Debug)]
pub enum Filter {
    Name(String),
    Status(Status),
    Priority(Priority),
    Id(String),
}

/// Whether `t` is kept by the criterion `f`.
pub open spec fn filter_matches(f: Filter, t: Task) -> bool {
    match f {
        Filter::Name(n) => t.name@ == n@,
        Filter::Status(s) => t.status == s,
        Filter::Priority(p) => t.priority == p,
        Filter::Id(i) => t.id@ == i@,
    }
}

impl Task {
    /// Builds a task from its fields, with no validation.
    pub fn new(name: String, description: String, status: Status, priority: Priority, id: String)
        -> (r: Task)
        ensures
            r.name == name,
            r.description == description,
            r.status == status,
            r.priority == priority,
            r.id == id,
    {
        Task { name, description, status, priority, id }
    }

    /// Whether `self` satisfies `filter`.
    pub fn matches(&self, filter: &Filter) -> (r: bool)
        ensures
            r == filter_matches(*filter, *self),
    {
        match filter {
            Filter::Name(n) => self.name == *n,
            Filter::Status(s) => self.status == *s,
            Filter::Priority(p) => self.priority == *p,
            Filter::Id(i) => self.id == *i,
        }
    }
}

} // verus!
