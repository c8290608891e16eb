//! Receipts: the recorded outcome of running an instruction.

use vstd::prelude::*;
use crate::cid::{cid_bytes, cid_text, derived, derived_format, Cid, CidView};
use crate::codec::{
    dag_cbor_bytes,
    decode,
    encodable,
    encode,
    json_text,
    to_json,
    value_of,
};
use crate::error::{
    lemma_keys_distinct,
    DecodeError,
    DecodeErrorView,
    Field,
    LedgerError,
    LedgerErrorView,
};
use crate::instruction::{
    get_link,
    get_text,
    lemma_outcome_round_trip,
    link_field,
    outcome_of_value,
    outcome_value,
    text_field,
    InstructionResult,
    OutcomeView,
};
use crate::pointer::Pointer;
use crate::prf::{lemma_links_round_trip, prf_of_value, prf_value, Issuer, UcanPrf};
use crate::value::{Value, ValueMap, ValueView};
use crate::version::{semver_of, SemVer};

verus! {

/// The schema version that new receipts are tagged with.
pub const INVOCATION_VERSION: &'static str = "0.2.0";

/// The receipt of an invocation as it is issued: what ran, what came out,
/// metadata, who issued it, and a proof chain.
#[derive(Debug, PartialEq, Eq)]
pub struct InvocationReceipt {
    ran: Pointer,
    out: InstructionResult<Value>,
    meta: Value,
    issuer: Option<Issuer>,
    prf: UcanPrf,
}

/// What an issued receipt is.
pub struct InvocationView {
    pub ran: CidView,
    pub out: OutcomeView,
    pub meta: ValueView,
    pub issuer: Option<Seq<char>>,
    pub prf: Seq<CidView>,
}

/// A value of the data model as it is stored: as its canonical bytes.
#[derive(Debug, PartialEq, Eq)]
pub struct LocalIpld(Value);

/// A receipt as the runtime keeps it: an issued receipt together with its
/// own identifier, the instruction that was run, and a schema version.
#[derive(Debug, PartialEq, Eq)]
pub struct Receipt {
    cid: Pointer,
    ran: Pointer,
    instruction: Pointer,
    out: InstructionResult<Value>,
    meta: LocalIpld,
    issuer: Option<Issuer>,
    prf: UcanPrf,
    version: String,
}

/// What a kept receipt is.
pub struct ReceiptView {
    pub cid: CidView,
    pub ran: CidView,
    pub instruction: CidView,
    pub out: OutcomeView,
    pub meta: ValueView,
    pub issuer: Option<Seq<char>>,
    pub prf: Seq<CidView>,
    pub version: Seq<char>,
}

/// An argument as an executor takes it.
#[derive(Debug, PartialEq, Eq)]
pub struct Arg(Value);

/// An optional text as a value of the data model: a string, or null.
pub open spec fn optional_text(text: Option<Seq<char>>) -> ValueView {
    match text {
        Some(s) => ValueView::String(s),
        None => ValueView::Null,
    }
}

/// The optional text under the key of `field`: none where the key is absent
/// or holds null, what a string there holds, and nothing else is taken.
pub open spec fn optional_text_field(m: Map<Seq<char>, ValueView>, field: Field) -> Result<
    Option<Seq<char>>,
    DecodeErrorView,
> {
    if m.contains_key(field.key()) {
        match m[field.key()] {
            ValueView::Null => Ok(None),
            ValueView::String(s) => Ok(Some(s)),
            _ => Err(DecodeErrorView::WrongShape(field)),
        }
    } else {
        Ok(None)
    }
}

/// An issued receipt as a value of the data model: a map of its five keys.
pub open spec fn invocation_value(r: InvocationView) -> ValueView {
    ValueView::StringMap(
        Map::<Seq<char>, ValueView>::empty().insert(Field::Ran.key(), ValueView::Link(r.ran)).insert(
            Field::Out.key(),
            outcome_value(r.out),
        ).insert(Field::Meta.key(), r.meta).insert(Field::Iss.key(), optional_text(r.issuer)).insert(
            Field::Prf.key(),
            prf_value(r.prf),
        ),
    )
}

/// The identifier of an issued receipt: that of its canonical bytes.
pub open spec fn invocation_id(r: InvocationView) -> CidView {
    derived(dag_cbor_bytes(invocation_value(r)))
}

/// A kept receipt as a value of the data model: a map of its eight keys.
pub open spec fn receipt_value(r: ReceiptView) -> ValueView {
    ValueView::StringMap(
        Map::<Seq<char>, ValueView>::empty().insert(Field::Cid.key(), ValueView::Link(r.cid)).insert(
            Field::Ran.key(),
            ValueView::Link(r.ran),
        ).insert(Field::Instruction.key(), ValueView::Link(r.instruction)).insert(
            Field::Out.key(),
            outcome_value(r.out),
        ).insert(Field::Meta.key(), r.meta).insert(Field::Iss.key(), optional_text(r.issuer)).insert(
            Field::Prf.key(),
            prf_value(r.prf),
        ).insert(Field::Version.key(), ValueView::String(r.version)),
    )
}

/// The kept receipt that the map `m` stands for. The keys are asked for in
/// the order: own identifier, what ran, instruction, outcome, metadata,
/// issuer, proof chain, version; only then are the outcome and the proof
/// chain read. The issuer may be absent or null; the others may not.
pub open spec fn receipt_of_map(m: Map<Seq<char>, ValueView>) -> Result<
    ReceiptView,
    DecodeErrorView,
> {
    match link_field(m, Field::Cid) {
        Err(e) => Err(e),
        Ok(cid) => match link_field(m, Field::Ran) {
            Err(e) => Err(e),
            Ok(ran) => match link_field(m, Field::Instruction) {
                Err(e) => Err(e),
                Ok(instruction) => if !m.contains_key(Field::Out.key()) {
                    Err(DecodeErrorView::MissingField(Field::Out))
                } else if !m.contains_key(Field::Meta.key()) {
                    Err(DecodeErrorView::MissingField(Field::Meta))
                } else {
                    match optional_text_field(m, Field::Iss) {
                        Err(e) => Err(e),
                        Ok(issuer) => if !m.contains_key(Field::Prf.key()) {
                            Err(DecodeErrorView::MissingField(Field::Prf))
                        } else {
                            match text_field(m, Field::Version) {
                                Err(e) => Err(e),
                                Ok(version) => match outcome_of_value(m[Field::Out.key()]) {
                                    Err(e) => Err(e),
                                    Ok(out) => match prf_of_value(m[Field::Prf.key()]) {
                                        Err(e) => Err(e),
                                        Ok(prf) => Ok(
                                            ReceiptView {
                                                cid,
                                                ran,
                                                instruction,
                                                out,
                                                meta: m[Field::Meta.key()],
                                                issuer,
                                                prf,
                                                version,
                                            },
                                        ),
                                    },
                                },
                            }
                        },
                    }
                },
            },
        },
    }
}

/// The kept receipt that a value stands for: a map, read as
/// [`receipt_of_map`] says.
pub open spec fn receipt_of_value(v: ValueView) -> Result<ReceiptView, DecodeErrorView> {
    match v {
        ValueView::StringMap(m) => receipt_of_map(m),
        _ => Err(DecodeErrorView::NotAMap),
    }
}

/// The kept receipt that canonical bytes stand for.
pub open spec fn receipt_of_bytes(bytes: Seq<u8>) -> Result<ReceiptView, DecodeErrorView> {
    match value_of(bytes) {
        Some(v) => receipt_of_value(v),
        None => Err(DecodeErrorView::Malformed),
    }
}

/// The issued receipt inside a kept one.
pub open spec fn invocation_of(r: ReceiptView) -> InvocationView {
    InvocationView { ran: r.ran, out: r.out, meta: r.meta, issuer: r.issuer, prf: r.prf }
}

/// The kept receipt of an issued one, under the given identifier and
/// instruction.
pub open spec fn kept(
    cid: CidView,
    instruction: CidView,
    r: InvocationView,
    version: Seq<char>,
) -> ReceiptView {
    ReceiptView {
        cid,
        ran: r.ran,
        instruction,
        out: r.out,
        meta: r.meta,
        issuer: r.issuer,
        prf: r.prf,
        version,
    }
}

impl ReceiptView {
    /// The receipt's own identifier is the one that can be derived anew from
    /// the issued receipt inside it.
    pub open spec fn consistent(self) -> bool {
        self.cid == invocation_id(invocation_of(self))
    }
}

/// What an optional issuer is.
pub open spec fn issuer_view(issuer: Option<Issuer>) -> Option<Seq<char>> {
    match issuer {
        Some(i) => Some(i@),
        None => None,
    }
}

/// Copies an optional issuer.
pub fn copy_issuer(issuer: &Option<Issuer>) -> (copy: Option<Issuer>)
    ensures
        issuer_view(copy) == issuer_view(*issuer),
{
    match issuer {
        Some(i) => Some(i.clone()),
        None => None,
    }
}

/// An optional issuer as a value of the data model.
pub fn issuer_value(issuer: &Option<Issuer>) -> (value: Value)
    ensures
        value@ == optional_text(issuer_view(*issuer)),
{
    match issuer {
        Some(i) => Value::String(i.to_string()),
        None => Value::Null,
    }
}

/// The optional issuer held under `field` in `map`.
pub fn get_optional_issuer(map: &ValueMap, field: Field) -> (issuer: Result<
    Option<Issuer>,
    DecodeError,
>)
    ensures
        match optional_text_field(map@, field) {
            Ok(text) => issuer matches Ok(i) && issuer_view(i) == text,
            Err(e) => issuer matches Err(f) && f@ == e,
        },
{
    match map.get(field.name()) {
        None => Ok(None),
        Some(Value::Null) => Ok(None),
        Some(Value::String(s)) => Ok(Some(Issuer::new(s.clone()))),
        Some(_) => Err(DecodeError::WrongShape(field)),
    }
}

impl Arg {
    /// The value that the argument carries.
    pub closed spec fn view(&self) -> ValueView {
        self.0@
    }

    /// The argument that carries `value`.
    pub fn new(value: Value) -> (arg: Arg)
        ensures
            arg@ == value@,
    {
        Arg(value)
    }

    /// Gives up the argument for the value it carries.
    pub fn into_value(self) -> (value: Value)
        ensures
            value@ == self@,
    {
        self.0
    }
}

impl InstructionResult<Arg> {
    /// The outcome over the value that the argument carries.
    pub open spec fn view(&self) -> OutcomeView {
        match self {
            InstructionResult::Success(v) => InstructionResult::Success(v@),
            InstructionResult::Error(v) => InstructionResult::Error(v@),
            InstructionResult::Just(v) => InstructionResult::Just(v@),
        }
    }
}

impl LocalIpld {
    /// The value that is stored.
    pub closed spec fn view(&self) -> ValueView {
        self.0@
    }

    /// The wrapper of `value`.
    pub fn new(value: Value) -> (local: LocalIpld)
        ensures
            local@ == value@,
    {
        LocalIpld(value)
    }

    /// Gives up the wrapper for the value in it.
    pub fn into_inner(self) -> (value: Value)
        ensures
            value@ == self@,
    {
        self.0
    }

    /// The value in the wrapper.
    pub fn inner(&self) -> (value: &Value)
        ensures
            value@ == self@,
    {
        &self.0
    }

    /// The bytes to store: the canonical encoding of the value.
    pub fn to_sql(&self) -> (bytes: Result<Vec<u8>, LedgerError>)
        ensures
            match bytes {
                Ok(b) => encodable(self@) && b@ == dag_cbor_bytes(self@),
                Err(e) => !encodable(self@) && e == LedgerError::Encoding,
            },
    {
        match encode(&self.0) {
            Some(bytes) => Ok(bytes),
            None => Err(LedgerError::Encoding),
        }
    }

    /// The value that stored bytes stand for.
    pub fn from_sql(bytes: &[u8]) -> (local: Result<LocalIpld, LedgerError>)
        ensures
            match value_of(bytes@) {
                Some(v) => local matches Ok(l) && l@ == v,
                None => local matches Err(e) && e == LedgerError::Decoding(DecodeError::Malformed),
            },
    {
        match decode(bytes) {
            Some(value) => Ok(LocalIpld(value)),
            None => Err(LedgerError::Decoding(DecodeError::Malformed)),
        }
    }
}

impl Clone for LocalIpld {
    fn clone(&self) -> (copy: Self)
        ensures
            copy@ == self@,
    {
        LocalIpld(self.0.clone())
    }
}

impl InvocationReceipt {
    /// What the issued receipt holds.
    pub closed spec fn view(&self) -> InvocationView {
        InvocationView {
            ran: self.ran@,
            out: self.out@,
            meta: self.meta@,
            issuer: issuer_view(self.issuer),
            prf: self.prf@,
        }
    }

    /// The issued receipt of what ran, what came out, metadata, the issuer
    /// if known, and a proof chain.
    pub fn new(
        ran: Pointer,
        out: InstructionResult<Value>,
        meta: Value,
        issuer: Option<Issuer>,
        prf: UcanPrf,
    ) -> (receipt: InvocationReceipt)
        ensures
            receipt@ == (InvocationView {
                ran: ran@,
                out: out@,
                meta: meta@,
                issuer: issuer_view(issuer),
                prf: prf@,
            }),
    {
        InvocationReceipt { ran, out, meta, issuer, prf }
    }

    /// What ran.
    pub fn ran(&self) -> (ran: &Pointer)
        ensures
            ran@ == self@.ran,
    {
        &self.ran
    }

    /// What came out.
    pub fn out(&self) -> (out: &InstructionResult<Value>)
        ensures
            out@ == self@.out,
    {
        &self.out
    }

    /// The metadata.
    pub fn meta(&self) -> (meta: &Value)
        ensures
            meta@ == self@.meta,
    {
        &self.meta
    }

    /// Who issued the receipt, if that is known.
    pub fn issuer(&self) -> (issuer: &Option<Issuer>)
        ensures
            issuer_view(*issuer) == self@.issuer,
    {
        &self.issuer
    }

    /// The proof chain.
    pub fn prf(&self) -> (prf: &UcanPrf)
        ensures
            prf@ == self@.prf,
    {
        &self.prf
    }

    /// The issued receipt as a value of the data model.
    pub fn to_value(&self) -> (value: Value)
        ensures
            value@ == invocation_value(self@),
    {
        let mut map = ValueMap::new();
        map.insert(Field::Ran.name().to_owned(), self.ran.to_value());
        map.insert(Field::Out.name().to_owned(), self.out.to_value());
        map.insert(Field::Meta.name().to_owned(), self.meta.clone());
        map.insert(Field::Iss.name().to_owned(), issuer_value(&self.issuer));
        map.insert(Field::Prf.name().to_owned(), self.prf.to_value());
        Value::StringMap(map)
    }

    /// The identifier of the issued receipt, derived from its canonical
    /// bytes; it is owed unless the receipt holds what the encoding cannot
    /// say.
    pub fn to_cid(&self) -> (cid: Result<Cid, LedgerError>)
        ensures
            match cid {
                Ok(c) => encodable(invocation_value(self@)) && c@ == invocation_id(self@),
                Err(e) => !encodable(invocation_value(self@)) && e == LedgerError::Encoding,
            },
            cid matches Ok(c) ==> derived_format(c@),
    {
        let value = self.to_value();
        match encode(&value) {
            Some(bytes) => Ok(Cid::derive(bytes.as_slice())),
            None => Err(LedgerError::Encoding),
        }
    }

    /// A reference to the issued receipt, by its identifier.
    pub fn to_pointer(&self) -> (pointer: Result<Pointer, LedgerError>)
        ensures
            match pointer {
                Ok(p) => encodable(invocation_value(self@)) && p@ == invocation_id(self@),
                Err(e) => !encodable(invocation_value(self@)) && e == LedgerError::Encoding,
            },
            pointer matches Ok(p) ==> derived_format(p@),
    {
        match self.to_cid() {
            Ok(cid) => Ok(Pointer::new(cid)),
            Err(e) => Err(e),
        }
    }
}

impl Clone for InvocationReceipt {
    fn clone(&self) -> (copy: Self)
        ensures
            copy@ == self@,
    {
        InvocationReceipt {
            ran: self.ran.clone(),
            out: self.out.clone(),
            meta: self.meta.clone(),
            issuer: copy_issuer(&self.issuer),
            prf: self.prf.clone(),
        }
    }
}

impl Receipt {
    /// What the kept receipt holds.
    pub closed spec fn view(&self) -> ReceiptView {
        ReceiptView {
            cid: self.cid@,
            ran: self.ran@,
            instruction: self.instruction@,
            out: self.out@,
            meta: self.meta@,
            issuer: issuer_view(self.issuer),
            prf: self.prf@,
            version: self.version@,
        }
    }

    /// The kept receipt of an issued one, under an identifier that was
    /// computed beforehand, tagged with [`INVOCATION_VERSION`].
    pub fn new(cid: Cid, instruction: Pointer, invocation_receipt: &InvocationReceipt) -> (receipt:
        Receipt)
        ensures
            receipt@ == kept(cid@, instruction@, invocation_receipt@, INVOCATION_VERSION@),
    {
        Receipt {
            cid: Pointer::new(cid),
            ran: invocation_receipt.ran().clone(),
            instruction,
            out: invocation_receipt.out().clone(),
            meta: LocalIpld(invocation_receipt.meta().clone()),
            issuer: copy_issuer(invocation_receipt.issuer()),
            prf: invocation_receipt.prf().clone(),
            version: INVOCATION_VERSION.to_owned(),
        }
    }

    /// The kept receipt of an issued one, under the identifier derived from
    /// the issued receipt; it is owed unless the issued receipt holds what
    /// the encoding cannot say.
    pub fn try_with(instruction: Pointer, invocation_receipt: &InvocationReceipt) -> (receipt:
        Result<Receipt, LedgerError>)
        ensures
            match receipt {
                Ok(r) => encodable(invocation_value(invocation_receipt@)) && r@ == kept(
                    invocation_id(invocation_receipt@),
                    instruction@,
                    invocation_receipt@,
                    INVOCATION_VERSION@,
                ),
                Err(e) => !encodable(invocation_value(invocation_receipt@)) && e == LedgerError::Encoding,
            },
            receipt matches Ok(r) ==> r@.consistent(),
            receipt matches Ok(r) ==> derived_format(r@.cid),
    {
        match invocation_receipt.to_cid() {
            Ok(cid) => Ok(Receipt::new(cid, instruction, invocation_receipt)),
            Err(e) => Err(e),
        }
    }

    /// Derives the identifier anew from the issued receipt inside and says
    /// whether it is the one that the receipt holds; the answer is owed
    /// unless the issued receipt holds what the encoding cannot say.
    pub fn is_consistent(&self) -> (same: Result<bool, LedgerError>)
        ensures
            match same {
                Ok(b) => encodable(invocation_value(invocation_of(self@))) && b
                    == self@.consistent(),
                Err(e) => !encodable(invocation_value(invocation_of(self@))) && e
                    == LedgerError::Encoding,
            },
    {
        match self.to_invocation().to_cid() {
            Ok(cid) => Ok(self.cid.cid().same(&cid)),
            Err(e) => Err(e),
        }
    }

    /// The metadata.
    pub fn meta(&self) -> (meta: &Value)
        ensures
            meta@ == self@.meta,
    {
        self.meta.inner()
    }

    /// Puts other metadata in place of what the receipt had.
    pub fn set_meta(&mut self, meta: Value)
        ensures
            final(self)@ == (ReceiptView { meta: meta@, ..old(self)@ }),
    {
        self.meta = LocalIpld(meta);
    }

    /// The textual form of the receipt's own identifier.
    pub fn cid(&self) -> (text: String)
        ensures
            text@ == cid_text(self@.cid),
    {
        self.cid.to_string()
    }

    /// The binary form of the receipt's own identifier.
    pub fn cid_as_bytes(&self) -> (bytes: Vec<u8>)
        ensures
            bytes@ == cid_bytes(self@.cid),
    {
        self.cid.cid().to_bytes()
    }

    /// The textual form of the identifier of the instruction that was run.
    pub fn instruction(&self) -> (text: String)
        ensures
            text@ == cid_text(self@.instruction),
    {
        self.instruction.to_string()
    }

    /// The binary form of the identifier of the instruction that was run.
    pub fn instruction_cid_as_bytes(&self) -> (bytes: Vec<u8>)
        ensures
            bytes@ == cid_bytes(self@.instruction),
    {
        self.instruction.cid().to_bytes()
    }

    /// The textual form of the identifier of what ran.
    pub fn ran(&self) -> (text: String)
        ensures
            text@ == cid_text(self@.ran),
    {
        self.ran.to_string()
    }

    /// What came out.
    pub fn output(&self) -> (out: &InstructionResult<Value>)
        ensures
            out@ == self@.out,
    {
        &self.out
    }

    /// What came out, as arguments for an executor.
    pub fn output_as_arg(&self) -> (out: InstructionResult<Arg>)
        ensures
            out@ == self@.out,
    {
        match &self.out {
            InstructionResult::Success(v) => InstructionResult::Success(Arg(v.clone())),
            InstructionResult::Error(v) => InstructionResult::Error(Arg(v.clone())),
            InstructionResult::Just(v) => InstructionResult::Just(Arg(v.clone())),
        }
    }

    /// The canonical bytes of what came out; they are owed unless the outcome
    /// holds what the encoding cannot say.
    pub fn output_encoded(&self) -> (bytes: Result<Vec<u8>, LedgerError>)
        ensures
            match bytes {
                Ok(b) => encodable(outcome_value(self@.out)) && b@ == dag_cbor_bytes(
                    outcome_value(self@.out),
                ),
                Err(e) => !encodable(outcome_value(self@.out)) && e == LedgerError::Encoding,
            },
    {
        let value = self.out.to_value();
        match encode(&value) {
            Some(bytes) => Ok(bytes),
            None => Err(LedgerError::Encoding),
        }
    }

    /// Who issued the receipt, if that is known.
    pub fn issuer(&self) -> (issuer: &Option<Issuer>)
        ensures
            issuer_view(*issuer) == self@.issuer,
    {
        &self.issuer
    }

    /// The proof chain.
    pub fn prf(&self) -> (prf: &UcanPrf)
        ensures
            prf@ == self@.prf,
    {
        &self.prf
    }

    /// The schema version as it is written in the receipt.
    pub fn version_text(&self) -> (text: &String)
        ensures
            text@ == self@.version,
    {
        &self.version
    }

    /// The schema version of the receipt, read as a semantic version.
    pub fn version(&self) -> (version: Result<SemVer, LedgerError>)
        ensures
            match semver_of(self@.version) {
                Some(v) => version matches Ok(s) && s@ == v,
                None => version matches Err(e) && e == LedgerError::InvalidVersion,
            },
    {
        match SemVer::parse(self.version.as_str()) {
            Some(v) => Ok(v),
            None => Err(LedgerError::InvalidVersion),
        }
    }

    /// The receipt as a value of the data model.
    pub fn to_value(&self) -> (value: Value)
        ensures
            value@ == receipt_value(self@),
    {
        let mut map = ValueMap::new();
        map.insert(Field::Cid.name().to_owned(), self.cid.to_value());
        map.insert(Field::Ran.name().to_owned(), self.ran.to_value());
        map.insert(Field::Instruction.name().to_owned(), self.instruction.to_value());
        map.insert(Field::Out.name().to_owned(), self.out.to_value());
        map.insert(Field::Meta.name().to_owned(), self.meta.inner().clone());
        map.insert(Field::Iss.name().to_owned(), issuer_value(&self.issuer));
        map.insert(Field::Prf.name().to_owned(), self.prf.to_value());
        map.insert(Field::Version.name().to_owned(), Value::String(self.version.clone()));
        Value::StringMap(map)
    }

    /// The receipt that a value stands for.
    pub fn from_value(value: &Value) -> (receipt: Result<Receipt, DecodeError>)
        ensures
            match receipt_of_value(value@) {
                Ok(v) => receipt matches Ok(r) && r@ == v,
                Err(e) => receipt matches Err(f) && f@ == e,
            },
    {
        match value {
            Value::StringMap(map) => {
                let cid = match get_link(map, Field::Cid) {
                    Ok(c) => c,
                    Err(e) => return Err(e),
                };
                let ran = match get_link(map, Field::Ran) {
                    Ok(c) => c,
                    Err(e) => return Err(e),
                };
                let instruction = match get_link(map, Field::Instruction) {
                    Ok(c) => c,
                    Err(e) => return Err(e),
                };
                let out = match map.get(Field::Out.name()) {
                    Some(v) => v,
                    None => return Err(DecodeError::MissingField(Field::Out)),
                };
                let meta = match map.get(Field::Meta.name()) {
                    Some(v) => v,
                    None => return Err(DecodeError::MissingField(Field::Meta)),
                };
                let issuer = match get_optional_issuer(map, Field::Iss) {
                    Ok(issuer) => issuer,
                    Err(e) => return Err(e),
                };
                let prf = match map.get(Field::Prf.name()) {
                    Some(v) => v,
                    None => return Err(DecodeError::MissingField(Field::Prf)),
                };
                let version = match get_text(map, Field::Version) {
                    Ok(s) => s,
                    Err(e) => return Err(e),
                };
                let out = match InstructionResult::<Value>::from_value(out) {
                    Ok(o) => o,
                    Err(e) => return Err(e),
                };
                let prf = match UcanPrf::from_value(prf) {
                    Ok(p) => p,
                    Err(e) => return Err(e),
                };
                Ok(
                    Receipt {
                        cid: Pointer::new(cid),
                        ran: Pointer::new(ran),
                        instruction: Pointer::new(instruction),
                        out,
                        meta: LocalIpld(meta.clone()),
                        issuer,
                        prf,
                        version,
                    },
                )
            },
            _ => Err(DecodeError::NotAMap),
        }
    }

    /// The canonical bytes of the receipt; they are owed unless the receipt
    /// holds what the encoding cannot say.
    pub fn to_bytes(&self) -> (bytes: Result<Vec<u8>, LedgerError>)
        ensures
            match bytes {
                Ok(b) => encodable(receipt_value(self@)) && b@ == dag_cbor_bytes(
                    receipt_value(self@),
                ),
                Err(e) => !encodable(receipt_value(self@)) && e == LedgerError::Encoding,
            },
    {
        let value = self.to_value();
        match encode(&value) {
            Some(bytes) => Ok(bytes),
            None => Err(LedgerError::Encoding),
        }
    }

    /// The receipt that canonical bytes stand for.
    pub fn from_bytes(bytes: &[u8]) -> (receipt: Result<Receipt, LedgerError>)
        ensures
            match receipt_of_bytes(bytes@) {
                Ok(v) => receipt matches Ok(r) && r@ == v,
                Err(e) => receipt matches Err(f) && f@ == LedgerErrorView::Decoding(e),
            },
    {
        match decode(bytes) {
            Some(value) => match Receipt::from_value(&value) {
                Ok(r) => Ok(r),
                Err(e) => Err(LedgerError::Decoding(e)),
            },
            None => Err(LedgerError::Decoding(DecodeError::Malformed)),
        }
    }

    /// The issued receipt inside the kept one.
    pub fn to_invocation(&self) -> (receipt: InvocationReceipt)
        ensures
            receipt@ == invocation_of(self@),
    {
        InvocationReceipt::new(
            self.ran.clone(),
            self.out.clone(),
            self.meta.inner().clone(),
            copy_issuer(&self.issuer),
            self.prf.clone(),
        )
    }

    /// Gives up the kept receipt for the issued one inside it.
    pub fn into_invocation(self) -> (receipt: InvocationReceipt)
        ensures
            receipt@ == invocation_of(self@),
    {
        InvocationReceipt::new(self.ran, self.out, self.meta.into_inner(), self.issuer, self.prf)
    }

    /// The human-readable rendering of the receipt, in which every
    /// identifier stands as a map of one key, `/`, holding its textual form.
    pub fn to_json(&self) -> (text: Result<String, LedgerError>)
        ensures
            match text {
                Ok(s) => json_text(receipt_value(self@)) == Some(s@),
                Err(e) => json_text(receipt_value(self@)) is None && e == LedgerError::Encoding,
            },
    {
        let value = self.to_value();
        match to_json(&value) {
            Some(s) => Ok(s),
            None => Err(LedgerError::Encoding),
        }
    }
}

impl Clone for Receipt {
    fn clone(&self) -> (copy: Self)
        ensures
            copy@ == self@,
    {
        Receipt {
            cid: self.cid.clone(),
            ran: self.ran.clone(),
            instruction: self.instruction.clone(),
            out: self.out.clone(),
            meta: self.meta.clone(),
            issuer: copy_issuer(&self.issuer),
            prf: self.prf.clone(),
            version: self.version.clone(),
        }
    }
}

/// Decoding the value of a kept receipt gives the receipt back.
pub proof fn lemma_receipt_round_trip(r: ReceiptView)
    ensures
        receipt_of_value(receipt_value(r)) == Ok::<ReceiptView, DecodeErrorView>(r),
{
    lemma_keys_distinct();
    lemma_outcome_round_trip(r.out);
    lemma_links_round_trip(r.prf);
}

} // verus!
