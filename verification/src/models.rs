//! Task-board data model: the enumerations and the subtask record that
//! request handlers exchange.  The authentication core never reads these;
//! they are the vocabulary of the protected resources behind it.

use vstd::prelude::*;

verus! {

/// How urgent a task is.
#[derive(Debug, Clone, PartialEq, Eq, Structural)]
pub enum Priority {
    Urgent,
    High,
    Medium,
    Low,
}

/// Which board column a task sits in.
#[derive(Debug, Clone, PartialEq, Eq, Structural)]
pub enum ColumnId {
    Inbox,
    Todo,
    Doing,
    Done,
}

/// How often a recurring task comes back.
#[derive(Debug, Clone, PartialEq, Eq, Structural)]
pub enum Recurrence {
    Daily,
    Weekly,
    Monthly,
    Yearly,
}

/// The fixed tag vocabulary tasks are filed under.
#[derive(Debug, Clone, PartialEq, Eq, Structural)]
pub enum TagId {
    Shopping,
    Work,
    Personal,
    Ideas,
    Others,
}

/// One checklist item of a task.
#[derive(Debug, Clone)]
pub struct Subtask {
    pub id: String,
    pub text: String,
    pub completed: bool,
}

} // verus!
