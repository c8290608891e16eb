//! Tasks: the smallest unit of work that can be asked for.

use vstd::prelude::*;
use crate::cid::{derived, derived_format, Cid, CidView};
use crate::codec::{dag_cbor_bytes, encodable, encode};
use crate::error::{
    lemma_keys_distinct,
    DecodeError,
    DecodeErrorView,
    Field,
    LedgerError,
};
use crate::instruction::{
    instruction_id,
    instruction_value,
    lemma_run_round_trip,
    run_of_value,
    run_value,
    RunInstruction,
    RunView,
};
use crate::pointer::Pointer;
use crate::prf::{lemma_links_round_trip, prf_of_value, prf_value, UcanPrf};
use crate::value::{Value, ValueMap, ValueView};

verus! {

/// The instruction to run, the receipt that caused the task if one did,
/// open-ended metadata, and a proof chain.
#[derive(Debug, PartialEq, Eq)]
pub struct Task {
    run: RunInstruction,
    cause: Option<Pointer>,
    meta: Value,
    prf: UcanPrf,
}

/// What a task is.
pub struct TaskView {
    pub run: RunView,
    pub cause: Option<CidView>,
    pub meta: ValueView,
    pub prf: Seq<CidView>,
}

/// An optional reference as a value of the data model: its link, or null.
pub open spec fn optional_link(cid: Option<CidView>) -> ValueView {
    match cid {
        Some(c) => ValueView::Link(c),
        None => ValueView::Null,
    }
}

/// The optional reference under the key of `field`: none where the key is
/// absent or holds null, what a link there holds, and nothing else is taken.
pub open spec fn optional_link_field(m: Map<Seq<char>, ValueView>, field: Field) -> Result<
    Option<CidView>,
    DecodeErrorView,
> {
    if m.contains_key(field.key()) {
        match m[field.key()] {
            ValueView::Null => Ok(None),
            ValueView::Link(c) => Ok(Some(c)),
            _ => Err(DecodeErrorView::WrongShape(field)),
        }
    } else {
        Ok(None)
    }
}

/// A task as a value of the data model: a map of its four keys.
pub open spec fn task_value(t: TaskView) -> ValueView {
    ValueView::StringMap(
        Map::<Seq<char>, ValueView>::empty().insert(Field::Run.key(), run_value(t.run)).insert(
            Field::Cause.key(),
            optional_link(t.cause),
        ).insert(Field::Meta.key(), t.meta).insert(Field::Prf.key(), prf_value(t.prf)),
    )
}

/// The task that a value stands for: a map in which the instruction, the
/// cause, the metadata and the proof chain are asked for in that order.
pub open spec fn task_of_value(v: ValueView) -> Result<TaskView, DecodeErrorView> {
    match v {
        ValueView::StringMap(m) => if !m.contains_key(Field::Run.key()) {
            Err(DecodeErrorView::MissingField(Field::Run))
        } else {
            match run_of_value(m[Field::Run.key()]) {
                Err(e) => Err(e),
                Ok(run) => match optional_link_field(m, Field::Cause) {
                    Err(e) => Err(e),
                    Ok(cause) => if !m.contains_key(Field::Meta.key()) {
                        Err(DecodeErrorView::MissingField(Field::Meta))
                    } else if !m.contains_key(Field::Prf.key()) {
                        Err(DecodeErrorView::MissingField(Field::Prf))
                    } else {
                        match prf_of_value(m[Field::Prf.key()]) {
                            Err(e) => Err(e),
                            Ok(prf) => Ok(TaskView { run, cause, meta: m[Field::Meta.key()], prf }),
                        }
                    },
                },
            }
        },
        _ => Err(DecodeErrorView::NotAMap),
    }
}

/// The identifier of a task: that of its canonical bytes.
pub open spec fn task_id(t: TaskView) -> CidView {
    derived(dag_cbor_bytes(task_value(t)))
}

/// The identifier of the instruction of a task, where there is one: a
/// written-out instruction has one unless it cannot be encoded.
pub open spec fn run_id(run: RunView) -> Option<CidView> {
    match run {
        RunView::Expanded(i) => if encodable(instruction_value(i)) {
            Some(instruction_id(i))
        } else {
            None
        },
        RunView::Ptr(cid) => Some(cid),
    }
}

/// The optional reference held under `field` in `map`.
pub fn get_optional_pointer(map: &ValueMap, field: Field) -> (pointer: Result<
    Option<Pointer>,
    DecodeError,
>)
    ensures
        match optional_link_field(map@, field) {
            Ok(Some(c)) => pointer matches Ok(Some(p)) && p@ == c,
            Ok(None) => pointer matches Ok(None),
            Err(e) => pointer matches Err(f) && f@ == e,
        },
{
    match map.get(field.name()) {
        None => Ok(None),
        Some(Value::Null) => Ok(None),
        Some(Value::Link(c)) => Ok(Some(Pointer::new(c.clone()))),
        Some(_) => Err(DecodeError::WrongShape(field)),
    }
}

/// An optional reference as a value of the data model.
pub fn optional_pointer_value(pointer: &Option<Pointer>) -> (value: Value)
    ensures
        value@ == optional_link(
            match pointer {
                Some(p) => Some(p@),
                None => None,
            },
        ),
{
    match pointer {
        Some(p) => p.to_value(),
        None => Value::Null,
    }
}

impl Task {
    /// What the task holds.
    pub closed spec fn view(&self) -> TaskView {
        TaskView {
            run: self.run@,
            cause: match self.cause {
                Some(p) => Some(p@),
                None => None,
            },
            meta: self.meta@,
            prf: self.prf@,
        }
    }

    /// A task to run, with metadata and a proof chain, caused by nothing.
    pub fn new(run: RunInstruction, meta: Value, prf: UcanPrf) -> (task: Task)
        ensures
            task@ == (TaskView { run: run@, cause: None, meta: meta@, prf: prf@ }),
    {
        Task { run, cause: None, meta, prf }
    }

    /// A task to run, with metadata and a proof chain, and what caused it.
    pub fn new_with_cause(
        run: RunInstruction,
        meta: Value,
        prf: UcanPrf,
        cause: Option<Pointer>,
    ) -> (task: Task)
        ensures
            task@ == (TaskView {
                run: run@,
                cause: match cause {
                    Some(p) => Some(p@),
                    None => None,
                },
                meta: meta@,
                prf: prf@,
            }),
    {
        Task { run, cause, meta, prf }
    }

    /// The instruction to run.
    pub fn run(&self) -> (run: &RunInstruction)
        ensures
            run@ == self@.run,
    {
        &self.run
    }

    /// The metadata.
    pub fn meta(&self) -> (meta: &Value)
        ensures
            meta@ == self@.meta,
    {
        &self.meta
    }

    /// What caused the task, if anything.
    pub fn cause(&self) -> (cause: &Option<Pointer>)
        ensures
            match cause {
                Some(p) => self@.cause == Some(p@),
                None => self@.cause is None,
            },
    {
        &self.cause
    }

    /// The proof chain.
    pub fn prf(&self) -> (prf: &UcanPrf)
        ensures
            prf@ == self@.prf,
    {
        &self.prf
    }

    /// Gives up the task for its instruction.
    pub fn into_instruction(self) -> (run: RunInstruction)
        ensures
            run@ == self@.run,
    {
        self.run
    }

    /// The identifier of the task's instruction: derived where the
    /// instruction is written out, taken from the reference where it is not.
    pub fn instruction_cid(&self) -> (cid: Result<Cid, LedgerError>)
        ensures
            match run_id(self@.run) {
                Some(c) => cid matches Ok(d) && d@ == c,
                None => cid matches Err(e) && e == LedgerError::Encoding,
            },
            self@.run is Expanded ==> (cid matches Ok(d) ==> derived_format(d@)),
    {
        match &self.run {
            RunInstruction::Expanded(instruction) => instruction.to_cid(),
            RunInstruction::Ptr(pointer) => Ok(pointer.cid()),
        }
    }

    /// The task as a value of the data model.
    pub fn to_value(&self) -> (value: Value)
        ensures
            value@ == task_value(self@),
    {
        let mut map = ValueMap::new();
        map.insert(Field::Run.name().to_owned(), self.run.to_value());
        map.insert(Field::Cause.name().to_owned(), optional_pointer_value(&self.cause));
        map.insert(Field::Meta.name().to_owned(), self.meta.clone());
        map.insert(Field::Prf.name().to_owned(), self.prf.to_value());
        Value::StringMap(map)
    }

    /// The task that a value stands for.
    pub fn from_value(value: &Value) -> (task: Result<Task, DecodeError>)
        ensures
            match task_of_value(value@) {
                Ok(v) => task matches Ok(t) && t@ == v,
                Err(e) => task matches Err(f) && f@ == e,
            },
    {
        match value {
            Value::StringMap(map) => {
                let run = match map.get(Field::Run.name()) {
                    None => return Err(DecodeError::MissingField(Field::Run)),
                    Some(v) => match RunInstruction::from_value(v) {
                        Ok(run) => run,
                        Err(e) => return Err(e),
                    },
                };
                let cause = match get_optional_pointer(map, Field::Cause) {
                    Ok(cause) => cause,
                    Err(e) => return Err(e),
                };
                let meta = match map.get(Field::Meta.name()) {
                    None => return Err(DecodeError::MissingField(Field::Meta)),
                    Some(v) => v.clone(),
                };
                let prf = match map.get(Field::Prf.name()) {
                    None => return Err(DecodeError::MissingField(Field::Prf)),
                    Some(v) => match UcanPrf::from_value(v) {
                        Ok(prf) => prf,
                        Err(e) => return Err(e),
                    },
                };
                Ok(Task { run, cause, meta, prf })
            },
            _ => Err(DecodeError::NotAMap),
        }
    }

    /// The identifier of the task, derived from its canonical bytes; it is
    /// owed unless the task holds what the encoding cannot say.
    pub fn to_cid(&self) -> (cid: Result<Cid, LedgerError>)
        ensures
            match cid {
                Ok(c) => encodable(task_value(self@)) && c@ == task_id(self@),
                Err(e) => !encodable(task_value(self@)) && e == LedgerError::Encoding,
            },
            cid matches Ok(c) ==> derived_format(c@),
    {
        let value = self.to_value();
        match encode(&value) {
            Some(bytes) => Ok(Cid::derive(bytes.as_slice())),
            None => Err(LedgerError::Encoding),
        }
    }

    /// A reference to the task, by its identifier.
    pub fn to_pointer(&self) -> (pointer: Result<Pointer, LedgerError>)
        ensures
            match pointer {
                Ok(p) => encodable(task_value(self@)) && p@ == task_id(self@),
                Err(e) => !encodable(task_value(self@)) && e == LedgerError::Encoding,
            },
            pointer matches Ok(p) ==> derived_format(p@),
    {
        match self.to_cid() {
            Ok(cid) => Ok(Pointer::new(cid)),
            Err(e) => Err(e),
        }
    }
}

impl Clone for Task {
    fn clone(&self) -> (copy: Self)
        ensures
            copy@ == self@,
    {
        Task {
            run: self.run.clone(),
            cause: match &self.cause {
                Some(p) => Some(p.clone()),
                None => None,
            },
            meta: self.meta.clone(),
            prf: self.prf.clone(),
        }
    }
}

/// Decoding the value of a task gives the task back.
pub proof fn lemma_task_round_trip(t: TaskView)
    ensures
        task_of_value(task_value(t)) == Ok::<TaskView, DecodeErrorView>(t),
{
    lemma_keys_distinct();
    lemma_run_round_trip(t.run);
    lemma_links_round_trip(t.prf);
}

} // verus!
