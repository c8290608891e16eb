//! References from one entity to another, by identifier.

use vstd::prelude::*;
use crate::cid::{cid_text, Cid, CidView};
use crate::error::{DecodeError, DecodeErrorView};
use crate::value::{Value, ValueView};

verus! {

/// A reference to another entity: its identifier and nothing else.
#[derive(Debug, PartialEq, Eq, Hash)]
pub struct Pointer(Cid);

/// What a value holds if it is a link.
pub open spec fn as_link(v: ValueView) -> Result<CidView, DecodeErrorView> {
    match v {
        ValueView::Link(cid) => Ok(cid),
        _ => Err(DecodeErrorView::NotALink),
    }
}

impl Pointer {
    /// The identifier that the pointer wraps.
    pub closed spec fn view(&self) -> CidView {
        self.0@
    }

    /// The pointer to what `cid` names.
    pub fn new(cid: Cid) -> (pointer: Pointer)
        ensures
            pointer@ == cid@,
    {
        Pointer(cid)
    }

    /// The identifier that the pointer wraps.
    pub fn cid(&self) -> (cid: Cid)
        ensures
            cid@ == self@,
    {
        self.0.clone()
    }

    /// Whether two pointers are equal, which they are where their
    /// identifiers are.
    pub fn same(&self, other: &Pointer) -> (same: bool)
        ensures
            same == (self@ == other@),
    {
        self.0.same(&other.0)
    }

    /// The textual form of the identifier.
    pub fn to_string(&self) -> (text: String)
        ensures
            text@ == cid_text(self@),
    {
        self.0.to_string()
    }

    /// The pointer as a value of the data model: a link.
    pub fn to_value(&self) -> (value: Value)
        ensures
            value@ == ValueView::Link(self@),
    {
        Value::Link(self.0.clone())
    }

    /// The pointer that a link stands for; any other value is refused.
    pub fn from_value(value: &Value) -> (pointer: Result<Pointer, DecodeError>)
        ensures
            match as_link(value@) {
                Ok(cid) => pointer matches Ok(p) && p@ == cid,
                Err(e) => pointer matches Err(f) && f@ == e,
            },
    {
        match value {
            Value::Link(cid) => Ok(Pointer(cid.clone())),
            _ => Err(DecodeError::NotALink),
        }
    }
}

impl Clone for Pointer {
    fn clone(&self) -> (copy: Self)
        ensures
            copy@ == self@,
    {
        Pointer(self.0.clone())
    }
}

} // verus!
