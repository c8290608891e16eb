//! Instructions, the two ways a task can hold one, and the outcome of
//! running one.

use vstd::prelude::*;
use crate::cid::{derived, derived_format, Cid, CidView};
use crate::codec::{dag_cbor_bytes, encodable, encode};
use crate::error::{
    lemma_keys_distinct,
    DecodeError,
    DecodeErrorView,
    Field,
    LedgerError,
};
use crate::pointer::Pointer;
use crate::value::{Value, ValueMap, ValueView};

verus! {

/// The outcome of running an instruction: a success, an error, or a bare
/// value without an outcome.
#[derive(Debug, PartialEq, Eq)]
pub enum InstructionResult<V> {
    Success(V),
    Error(V),
    Just(V),
}

/// What an outcome over the data model is.
pub type OutcomeView = InstructionResult<ValueView>;

/// A runnable instruction, fully written out: the resource to run, the
/// ability to run it with, the arguments, and a nonce (empty where there is
/// none).
#[derive(Debug, PartialEq, Eq)]
pub struct Instruction {
    rsc: String,
    op: String,
    input: Value,
    nnc: String,
}

/// What an instruction is.
pub struct InstructionView {
    pub rsc: Seq<char>,
    pub op: Seq<char>,
    pub input: ValueView,
    pub nnc: Seq<char>,
}

/// The instruction of a task: written out, or referred to.
#[derive(Debug, PartialEq, Eq)]
pub enum RunInstruction {
    Expanded(Instruction),
    Ptr(Pointer),
}

/// What the instruction of a task is.
pub enum RunView {
    Expanded(InstructionView),
    Ptr(CidView),
}

/// The tag of a success.
pub open spec fn ok_tag() -> Seq<char> {
    "ok"@
}

/// The tag of an error.
pub open spec fn error_tag() -> Seq<char> {
    "error"@
}

/// The tag of a bare value.
pub open spec fn just_tag() -> Seq<char> {
    "just"@
}

/// The three tags differ.
pub proof fn lemma_tags_distinct()
    ensures
        ok_tag() != error_tag(),
        ok_tag() != just_tag(),
        error_tag() != just_tag(),
{
    reveal_strlit("ok");
    reveal_strlit("error");
    reveal_strlit("just");
    assert(ok_tag().len() == 2);
    assert(error_tag().len() == 5);
    assert(just_tag().len() == 4);
}

/// An outcome as a value of the data model: the list of its tag and its
/// value.
pub open spec fn outcome_value(out: OutcomeView) -> ValueView {
    match out {
        InstructionResult::Success(v) => ValueView::List(seq![ValueView::String(ok_tag()), v]),
        InstructionResult::Error(v) => ValueView::List(seq![ValueView::String(error_tag()), v]),
        InstructionResult::Just(v) => ValueView::List(seq![ValueView::String(just_tag()), v]),
    }
}

/// The outcome that a value stands for: a list of one of the three tags and
/// one value. A list of a text and one value whose text is none of the three
/// tags has an unknown tag, which the error names; anything else has the
/// wrong shape.
pub open spec fn outcome_of_value(v: ValueView) -> Result<OutcomeView, DecodeErrorView> {
    match v {
        ValueView::List(items) => if items.len() == 2 && items[0] is String {
            let tag = items[0]->String_0;
            if tag == ok_tag() {
                Ok(InstructionResult::Success(items[1]))
            } else if tag == error_tag() {
                Ok(InstructionResult::Error(items[1]))
            } else if tag == just_tag() {
                Ok(InstructionResult::Just(items[1]))
            } else {
                Err(DecodeErrorView::UnknownTag(tag))
            }
        } else {
            Err(DecodeErrorView::WrongShape(Field::Out))
        },
        _ => Err(DecodeErrorView::WrongShape(Field::Out)),
    }
}

/// An instruction as a value of the data model: a map of its four keys.
pub open spec fn instruction_value(i: InstructionView) -> ValueView {
    ValueView::StringMap(
        Map::<Seq<char>, ValueView>::empty().insert(
            Field::Rsc.key(),
            ValueView::String(i.rsc),
        ).insert(Field::Op.key(), ValueView::String(i.op)).insert(Field::Input.key(), i.input).insert(
            Field::Nnc.key(),
            ValueView::String(i.nnc),
        ),
    )
}

/// The text under the key of `field`, which has to be there and be a string.
pub open spec fn text_field(m: Map<Seq<char>, ValueView>, field: Field) -> Result<
    Seq<char>,
    DecodeErrorView,
> {
    if !m.contains_key(field.key()) {
        Err(DecodeErrorView::MissingField(field))
    } else {
        match m[field.key()] {
            ValueView::String(s) => Ok(s),
            _ => Err(DecodeErrorView::WrongShape(field)),
        }
    }
}

/// The link under the key of `field`, which has to be there and be a link.
pub open spec fn link_field(m: Map<Seq<char>, ValueView>, field: Field) -> Result<
    CidView,
    DecodeErrorView,
> {
    if !m.contains_key(field.key()) {
        Err(DecodeErrorView::MissingField(field))
    } else {
        match m[field.key()] {
            ValueView::Link(cid) => Ok(cid),
            _ => Err(DecodeErrorView::WrongShape(field)),
        }
    }
}

/// The instruction that a value stands for: a map with the four keys, asked
/// for in the order resource, ability, arguments, nonce.
pub open spec fn instruction_of_value(v: ValueView) -> Result<InstructionView, DecodeErrorView> {
    match v {
        ValueView::StringMap(m) => match text_field(m, Field::Rsc) {
            Err(e) => Err(e),
            Ok(rsc) => match text_field(m, Field::Op) {
                Err(e) => Err(e),
                Ok(op) => if !m.contains_key(Field::Input.key()) {
                    Err(DecodeErrorView::MissingField(Field::Input))
                } else {
                    match text_field(m, Field::Nnc) {
                        Err(e) => Err(e),
                        Ok(nnc) => Ok(
                            InstructionView { rsc, op, input: m[Field::Input.key()], nnc },
                        ),
                    }
                },
            },
        },
        _ => Err(DecodeErrorView::NotAMap),
    }
}

/// The instruction of a task as a value of the data model: the map of a
/// written-out instruction, or the link of a reference.
pub open spec fn run_value(run: RunView) -> ValueView {
    match run {
        RunView::Expanded(i) => instruction_value(i),
        RunView::Ptr(cid) => ValueView::Link(cid),
    }
}

/// The instruction of a task that a value stands for: a map is read as a
/// written-out instruction, a link as a reference, and nothing else is taken.
pub open spec fn run_of_value(v: ValueView) -> Result<RunView, DecodeErrorView> {
    match v {
        ValueView::StringMap(_) => match instruction_of_value(v) {
            Ok(i) => Ok(RunView::Expanded(i)),
            Err(e) => Err(e),
        },
        ValueView::Link(cid) => Ok(RunView::Ptr(cid)),
        _ => Err(DecodeErrorView::WrongShape(Field::Run)),
    }
}

/// The identifier of a written-out instruction: that of its canonical bytes.
pub open spec fn instruction_id(i: InstructionView) -> CidView {
    derived(dag_cbor_bytes(instruction_value(i)))
}

/// The text held under `field` in `map`.
pub fn get_text(map: &ValueMap, field: Field) -> (text: Result<String, DecodeError>)
    ensures
        match text_field(map@, field) {
            Ok(s) => text matches Ok(t) && t@ == s,
            Err(e) => text matches Err(f) && f@ == e,
        },
{
    match map.get(field.name()) {
        None => Err(DecodeError::MissingField(field)),
        Some(Value::String(s)) => Ok(s.clone()),
        Some(_) => Err(DecodeError::WrongShape(field)),
    }
}

/// The identifier held as a link under `field` in `map`.
pub fn get_link(map: &ValueMap, field: Field) -> (cid: Result<Cid, DecodeError>)
    ensures
        match link_field(map@, field) {
            Ok(c) => cid matches Ok(d) && d@ == c,
            Err(e) => cid matches Err(f) && f@ == e,
        },
{
    match map.get(field.name()) {
        None => Err(DecodeError::MissingField(field)),
        Some(Value::Link(c)) => Ok(c.clone()),
        Some(_) => Err(DecodeError::WrongShape(field)),
    }
}

impl InstructionResult<Value> {
    /// The outcome over what the value is.
    pub open spec fn view(&self) -> OutcomeView {
        match self {
            InstructionResult::Success(v) => InstructionResult::Success(v@),
            InstructionResult::Error(v) => InstructionResult::Error(v@),
            InstructionResult::Just(v) => InstructionResult::Just(v@),
        }
    }

    /// The outcome as a value of the data model.
    pub fn to_value(&self) -> (value: Value)
        ensures
            value@ == outcome_value(self@),
    {
        let (tag, inner) = match self {
            InstructionResult::Success(v) => ("ok", v),
            InstructionResult::Error(v) => ("error", v),
            InstructionResult::Just(v) => ("just", v),
        };
        let first = Value::String(tag.to_owned());
        let second = inner.clone();
        assert(first@ == ValueView::String(tag@));
        let mut items: Vec<Value> = Vec::new();
        items.push(first);
        items.push(second);
        assert(items@[0]@ == ValueView::String(tag@));
        assert(items@[1]@ == inner@);
        let value = Value::List(items);
        assert(value@->List_0 =~= seq![ValueView::String(tag@), inner@]);
        value
    }

    /// The outcome that a value stands for.
    pub fn from_value(value: &Value) -> (out: Result<InstructionResult<Value>, DecodeError>)
        ensures
            match outcome_of_value(value@) {
                Ok(o) => out matches Ok(r) && r@ == o,
                Err(e) => out matches Err(f) && f@ == e,
            },
    {
        match value {
            Value::List(items) => {
                if items.len() != 2 {
                    return Err(DecodeError::WrongShape(Field::Out));
                }
                assert(value@->List_0[0] == items@[0]@);
                assert(value@->List_0[1] == items@[1]@);
                match &items[0] {
                    Value::String(tag) => {
                        let inner = items[1].clone();
                        if string_is(tag, "ok") {
                            Ok(InstructionResult::Success(inner))
                        } else if string_is(tag, "error") {
                            Ok(InstructionResult::Error(inner))
                        } else if string_is(tag, "just") {
                            Ok(InstructionResult::Just(inner))
                        } else {
                            Err(DecodeError::UnknownTag(tag.clone()))
                        }
                    },
                    _ => Err(DecodeError::WrongShape(Field::Out)),
                }
            },
            _ => Err(DecodeError::WrongShape(Field::Out)),
        }
    }
}

impl Clone for InstructionResult<Value> {
    fn clone(&self) -> (copy: Self)
        ensures
            copy@ == self@,
    {
        match self {
            InstructionResult::Success(v) => InstructionResult::Success(v.clone()),
            InstructionResult::Error(v) => InstructionResult::Error(v.clone()),
            InstructionResult::Just(v) => InstructionResult::Just(v.clone()),
        }
    }
}

/// Whether a string is the given text.
pub fn string_is(s: &String, text: &str) -> (same: bool)
    ensures
        same == (s@ == text@),
{
    let order = crate::order::compare(s.as_str().as_bytes(), text.as_bytes());
    proof {
        if s@ != text@ {
            if vstd::utf8::encode_utf8(s@) == vstd::utf8::encode_utf8(text@) {
                vstd::utf8::encode_utf8_decode_utf8(s@);
                vstd::utf8::encode_utf8_decode_utf8(text@);
            }
        }
    }
    order == crate::order::Order::Equal
}

impl Instruction {
    /// What the instruction holds.
    pub closed spec fn view(&self) -> InstructionView {
        InstructionView { rsc: self.rsc@, op: self.op@, input: self.input@, nnc: self.nnc@ }
    }

    /// An instruction without a nonce.
    pub fn new(rsc: String, op: String, input: Value) -> (i: Instruction)
        ensures
            i@ == (InstructionView { rsc: rsc@, op: op@, input: input@, nnc: Seq::<char>::empty() }),
    {
        Instruction { rsc, op, input, nnc: String::new() }
    }

    /// An instruction with the given nonce.
    pub fn with_nonce(rsc: String, op: String, input: Value, nnc: String) -> (i: Instruction)
        ensures
            i@ == (InstructionView { rsc: rsc@, op: op@, input: input@, nnc: nnc@ }),
    {
        Instruction { rsc, op, input, nnc }
    }

    /// The resource to run.
    pub fn resource(&self) -> (rsc: &String)
        ensures
            rsc@ == self@.rsc,
    {
        &self.rsc
    }

    /// The ability to run the resource with.
    pub fn op(&self) -> (op: &String)
        ensures
            op@ == self@.op,
    {
        &self.op
    }

    /// The arguments.
    pub fn input(&self) -> (input: &Value)
        ensures
            input@ == self@.input,
    {
        &self.input
    }

    /// The nonce, empty where there is none.
    pub fn nonce(&self) -> (nnc: &String)
        ensures
            nnc@ == self@.nnc,
    {
        &self.nnc
    }

    /// The instruction as a value of the data model.
    pub fn to_value(&self) -> (value: Value)
        ensures
            value@ == instruction_value(self@),
    {
        let mut map = ValueMap::new();
        map.insert(Field::Rsc.name().to_owned(), Value::String(self.rsc.clone()));
        map.insert(Field::Op.name().to_owned(), Value::String(self.op.clone()));
        map.insert(Field::Input.name().to_owned(), self.input.clone());
        map.insert(Field::Nnc.name().to_owned(), Value::String(self.nnc.clone()));
        Value::StringMap(map)
    }

    /// The instruction that a value stands for.
    pub fn from_value(value: &Value) -> (i: Result<Instruction, DecodeError>)
        ensures
            match instruction_of_value(value@) {
                Ok(v) => i matches Ok(r) && r@ == v,
                Err(e) => i matches Err(f) && f@ == e,
            },
    {
        match value {
            Value::StringMap(map) => {
                let rsc = match get_text(map, Field::Rsc) {
                    Ok(s) => s,
                    Err(e) => return Err(e),
                };
                let op = match get_text(map, Field::Op) {
                    Ok(s) => s,
                    Err(e) => return Err(e),
                };
                let input = match map.get(Field::Input.name()) {
                    Some(v) => v.clone(),
                    None => return Err(DecodeError::MissingField(Field::Input)),
                };
                let nnc = match get_text(map, Field::Nnc) {
                    Ok(s) => s,
                    Err(e) => return Err(e),
                };
                Ok(Instruction { rsc, op, input, nnc })
            },
            _ => Err(DecodeError::NotAMap),
        }
    }

    /// The identifier of the instruction, derived from its canonical bytes;
    /// it is owed unless the arguments hold what the encoding cannot say.
    pub fn to_cid(&self) -> (cid: Result<Cid, LedgerError>)
        ensures
            match cid {
                Ok(c) => encodable(instruction_value(self@)) && c@ == instruction_id(self@),
                Err(e) => !encodable(instruction_value(self@)) && e == LedgerError::Encoding,
            },
            cid matches Ok(c) ==> derived_format(c@),
    {
        let value = self.to_value();
        match encode(&value) {
            Some(bytes) => Ok(Cid::derive(bytes.as_slice())),
            None => Err(LedgerError::Encoding),
        }
    }
}

impl Clone for Instruction {
    fn clone(&self) -> (copy: Self)
        ensures
            copy@ == self@,
    {
        Instruction {
            rsc: self.rsc.clone(),
            op: self.op.clone(),
            input: self.input.clone(),
            nnc: self.nnc.clone(),
        }
    }
}

impl RunInstruction {
    /// What the instruction of the task is.
    pub open spec fn view(&self) -> RunView {
        match self {
            RunInstruction::Expanded(i) => RunView::Expanded(i@),
            RunInstruction::Ptr(p) => RunView::Ptr(p@),
        }
    }

    /// The instruction of a task as a value of the data model.
    pub fn to_value(&self) -> (value: Value)
        ensures
            value@ == run_value(self@),
    {
        match self {
            RunInstruction::Expanded(i) => i.to_value(),
            RunInstruction::Ptr(p) => p.to_value(),
        }
    }

    /// The instruction of a task that a value stands for.
    pub fn from_value(value: &Value) -> (run: Result<RunInstruction, DecodeError>)
        ensures
            match run_of_value(value@) {
                Ok(v) => run matches Ok(r) && r@ == v,
                Err(e) => run matches Err(f) && f@ == e,
            },
    {
        match value {
            Value::StringMap(_) => match Instruction::from_value(value) {
                Ok(i) => Ok(RunInstruction::Expanded(i)),
                Err(e) => Err(e),
            },
            Value::Link(cid) => Ok(RunInstruction::Ptr(Pointer::new(cid.clone()))),
            _ => Err(DecodeError::WrongShape(Field::Run)),
        }
    }
}

impl Clone for RunInstruction {
    fn clone(&self) -> (copy: Self)
        ensures
            copy@ == self@,
    {
        match self {
            RunInstruction::Expanded(i) => RunInstruction::Expanded(i.clone()),
            RunInstruction::Ptr(p) => RunInstruction::Ptr(p.clone()),
        }
    }
}

/// Decoding the value of an outcome gives the outcome back.
pub proof fn lemma_outcome_round_trip(out: OutcomeView)
    ensures
        outcome_of_value(outcome_value(out)) == Ok::<OutcomeView, DecodeErrorView>(out),
{
    lemma_tags_distinct();
}

/// Decoding the value of an instruction gives the instruction back.
pub proof fn lemma_instruction_round_trip(i: InstructionView)
    ensures
        instruction_of_value(instruction_value(i)) == Ok::<InstructionView, DecodeErrorView>(i),
{
    lemma_keys_distinct();
}

/// Decoding the value of a task's instruction gives it back, in the variant
/// it was in.
pub proof fn lemma_run_round_trip(run: RunView)
    ensures
        run_of_value(run_value(run)) == Ok::<RunView, DecodeErrorView>(run),
{
    match run {
        RunView::Expanded(i) => lemma_instruction_round_trip(i),
        RunView::Ptr(_) => {},
    }
}

} // verus!
