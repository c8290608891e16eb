//! Workflows: an ordered collection of tasks.

use vstd::prelude::*;
use crate::cid::{derived, derived_format, Cid, CidView};
use crate::codec::{dag_cbor_bytes, encodable, encode};
use crate::error::{Field, LedgerError};
use crate::task::{task_value, Task, TaskView};
use crate::value::{Value, ValueMap, ValueView};

verus! {

/// An ordered collection of tasks.
#[derive(Debug, PartialEq, Eq)]
pub struct Workflow {
    tasks: Vec<Task>,
}

/// What the tasks `tasks` are, in order.
pub open spec fn task_views(tasks: Seq<Task>) -> Seq<TaskView> {
    Seq::new(tasks.len(), |i: int| tasks[i]@)
}

/// A workflow as a value of the data model: a map of one key, which holds
/// the list of the tasks.
pub open spec fn workflow_value(tasks: Seq<TaskView>) -> ValueView {
    ValueView::StringMap(
        Map::<Seq<char>, ValueView>::empty().insert(
            Field::Tasks.key(),
            ValueView::List(Seq::new(tasks.len(), |i: int| task_value(tasks[i]))),
        ),
    )
}

/// The identifier of a workflow: that of its canonical bytes.
pub open spec fn workflow_id(tasks: Seq<TaskView>) -> CidView {
    derived(dag_cbor_bytes(workflow_value(tasks)))
}

impl Workflow {
    /// The tasks, in order.
    pub closed spec fn view(&self) -> Seq<TaskView> {
        task_views(self.tasks@)
    }

    /// The workflow of the given tasks, in their order.
    pub fn new(tasks: Vec<Task>) -> (workflow: Workflow)
        ensures
            workflow@ == task_views(tasks@),
    {
        Workflow { tasks }
    }

    /// The tasks, in order.
    pub fn tasks(&self) -> (tasks: &Vec<Task>)
        ensures
            task_views(tasks@) == self@,
    {
        &self.tasks
    }

    /// The number of tasks, as 32 bits hold it.
    pub fn len(&self) -> (n: u32)
        ensures
            n == self@.len() as u32,
    {
        #[verifier::truncate]
        (self.tasks.len() as u32)
    }

    /// The workflow as a value of the data model.
    pub fn to_value(&self) -> (value: Value)
        ensures
            value@ == workflow_value(self@),
    {
        let mut items: Vec<Value> = Vec::new();
        let mut i: usize = 0;
        while i < self.tasks.len()
            invariant
                i <= self.tasks.len(),
                items@.len() == i,
                forall|j: int| 0 <= j < i ==> (#[trigger] items@[j])@ == task_value(self.tasks@[j]@),
            decreases self.tasks.len() - i,
        {
            items.push(self.tasks[i].to_value());
            i += 1;
        }
        let list = Value::List(items);
        assert(list@->List_0 =~= Seq::new(self@.len(), |i: int| task_value(self@[i])));
        let mut map = ValueMap::new();
        map.insert(Field::Tasks.name().to_owned(), list);
        Value::StringMap(map)
    }

    /// The identifier of the workflow, derived from its canonical bytes; it
    /// is owed unless a task holds what the encoding cannot say.
    pub fn to_cid(&self) -> (cid: Result<Cid, LedgerError>)
        ensures
            match cid {
                Ok(c) => encodable(workflow_value(self@)) && c@ == workflow_id(self@),
                Err(e) => !encodable(workflow_value(self@)) && e == LedgerError::Encoding,
            },
            cid matches Ok(c) ==> derived_format(c@),
    {
        let value = self.to_value();
        match encode(&value) {
            Some(bytes) => Ok(Cid::derive(bytes.as_slice())),
            None => Err(LedgerError::Encoding),
        }
    }
}

impl Clone for Workflow {
    fn clone(&self) -> (copy: Self)
        ensures
            copy@ == self@,
    {
        let mut tasks: Vec<Task> = Vec::new();
        let mut i: usize = 0;
        while i < self.tasks.len()
            invariant
                i <= self.tasks.len(),
                tasks@.len() == i,
                forall|j: int| 0 <= j < i ==> (#[trigger] tasks@[j])@ == self.tasks@[j]@,
            decreases self.tasks.len() - i,
        {
            tasks.push(self.tasks[i].clone());
            i += 1;
        }
        assert(task_views(tasks@) =~= task_views(self.tasks@));
        Workflow { tasks }
    }
}

} // verus!
