//! Proof chains and issuers: carried through the data model, never judged.

use vstd::prelude::*;
use crate::cid::{Cid, CidView};
use crate::error::{DecodeError, DecodeErrorView, Field};
use crate::value::{Value, ValueView};

verus! {

/// An ordered chain of references to upstream authorizations.
#[derive(Debug, PartialEq, Eq)]
pub struct UcanPrf(Vec<Cid>);

/// The party that produced a receipt, by its textual identity.
#[derive(Debug, PartialEq, Eq)]
pub struct Issuer(String);

/// The links of `items`, in order.
pub open spec fn links(items: Seq<CidView>) -> Seq<ValueView> {
    Seq::new(items.len(), |i: int| ValueView::Link(items[i]))
}

/// Every value of `items` is a link.
pub open spec fn all_links(items: Seq<ValueView>) -> bool {
    forall|i: int| 0 <= i < items.len() ==> (#[trigger] items[i]) is Link
}

/// The identifiers that the links `items` hold, in order.
pub open spec fn targets(items: Seq<ValueView>) -> Seq<CidView> {
    Seq::new(items.len(), |i: int| items[i]->Link_0)
}

/// A proof chain as a value of the data model: the list of its links.
pub open spec fn prf_value(prf: Seq<CidView>) -> ValueView {
    ValueView::List(links(prf))
}

/// The proof chain that a value stands for: a list of links and nothing
/// else.
pub open spec fn prf_of_value(v: ValueView) -> Result<Seq<CidView>, DecodeErrorView> {
    match v {
        ValueView::List(items) => if all_links(items) {
            Ok(targets(items))
        } else {
            Err(DecodeErrorView::WrongShape(Field::Prf))
        },
        _ => Err(DecodeErrorView::WrongShape(Field::Prf)),
    }
}

/// A list of links gives back the identifiers it was made of.
pub proof fn lemma_links_round_trip(items: Seq<CidView>)
    ensures
        all_links(links(items)),
        targets(links(items)) == items,
{
    assert(targets(links(items)) =~= items);
}

/// Copies identifiers, in order.
pub fn copy_cids(cids: &Vec<Cid>) -> (copy: Vec<Cid>)
    ensures
        cid_views(copy@) == cid_views(cids@),
{
    let mut copy: Vec<Cid> = Vec::new();
    let mut i: usize = 0;
    while i < cids.len()
        invariant
            i <= cids.len(),
            copy@.len() == i,
            forall|j: int| 0 <= j < i ==> (#[trigger] copy@[j])@ == cids@[j]@,
        decreases cids.len() - i,
    {
        copy.push(cids[i].clone());
        i += 1;
    }
    assert(cid_views(copy@) =~= cid_views(cids@));
    copy
}

/// What the identifiers `cids` are, in order.
pub open spec fn cid_views(cids: Seq<Cid>) -> Seq<CidView> {
    Seq::new(cids.len(), |i: int| cids[i]@)
}

/// The list of the links to `cids`, in order.
pub fn link_list(cids: &Vec<Cid>) -> (value: Value)
    ensures
        value@ == ValueView::List(links(cid_views(cids@))),
{
    let mut items: Vec<Value> = Vec::new();
    let mut i: usize = 0;
    while i < cids.len()
        invariant
            i <= cids.len(),
            items@.len() == i,
            forall|j: int| 0 <= j < i ==> (#[trigger] items@[j])@ == ValueView::Link(cids@[j]@),
        decreases cids.len() - i,
    {
        items.push(Value::Link(cids[i].clone()));
        i += 1;
    }
    let value = Value::List(items);
    assert(value@->List_0 =~= links(cid_views(cids@)));
    value
}

/// The identifiers that a list of links holds, in order; `None` where the
/// value is no list or holds anything but links.
pub fn link_targets(value: &Value) -> (cids: Option<Vec<Cid>>)
    ensures
        match value@ {
            ValueView::List(items) => if all_links(items) {
                cids matches Some(c) && cid_views(c@) == targets(items)
            } else {
                cids is None
            },
            _ => cids is None,
        },
{
    match value {
        Value::List(items) => {
            let mut cids: Vec<Cid> = Vec::new();
            let mut i: usize = 0;
            while i < items.len()
                invariant
                    i <= items.len(),
                    cids@.len() == i,
                    value@ == ValueView::List(value@->List_0),
                    value@->List_0.len() == items@.len(),
                    forall|j: int| 0 <= j < items@.len() ==> (#[trigger] value@->List_0[j]) == items@[j]@,
                    forall|j: int|
                        0 <= j < i ==> (#[trigger] items@[j])@ == ValueView::Link(cids@[j]@),
                decreases items.len() - i,
            {
                match &items[i] {
                    Value::Link(cid) => {
                        cids.push(cid.clone());
                    },
                    _ => {
                        assert(!(value@->List_0[i as int] is Link));
                        return None;
                    },
                }
                i += 1;
            }
            proof {
                let views = value@->List_0;
                assert forall|j: int| 0 <= j < views.len() implies (#[trigger] views[j]) is Link by {
                    assert(items@[j]@ == ValueView::Link(cids@[j]@));
                }
                assert(cid_views(cids@) =~= targets(views));
            }
            Some(cids)
        },
        _ => None,
    }
}

impl UcanPrf {
    /// The identifiers of the chain, in order.
    pub closed spec fn view(&self) -> Seq<CidView> {
        cid_views(self.0@)
    }

    /// The chain of the given references, in their order.
    pub fn new(chain: Vec<Cid>) -> (prf: UcanPrf)
        ensures
            prf@ == cid_views(chain@),
    {
        UcanPrf(chain)
    }

    /// The chain as a value of the data model.
    pub fn to_value(&self) -> (value: Value)
        ensures
            value@ == prf_value(self@),
    {
        link_list(&self.0)
    }

    /// The chain that a value stands for.
    pub fn from_value(value: &Value) -> (prf: Result<UcanPrf, DecodeError>)
        ensures
            match prf_of_value(value@) {
                Ok(chain) => prf matches Ok(p) && p@ == chain,
                Err(e) => prf matches Err(f) && f@ == e,
            },
    {
        match link_targets(value) {
            Some(cids) => Ok(UcanPrf(cids)),
            None => Err(DecodeError::WrongShape(Field::Prf)),
        }
    }
}

impl Default for UcanPrf {
    /// The empty chain.
    fn default() -> (prf: UcanPrf)
        ensures
            prf@ == Seq::<CidView>::empty(),
    {
        let prf = UcanPrf(Vec::new());
        assert(prf@ =~= Seq::<CidView>::empty());
        prf
    }
}

impl Clone for UcanPrf {
    fn clone(&self) -> (copy: Self)
        ensures
            copy@ == self@,
    {
        UcanPrf(copy_cids(&self.0))
    }
}

impl Issuer {
    /// The textual identity.
    pub closed spec fn view(&self) -> Seq<char> {
        self.0@
    }

    /// The issuer of the given textual identity.
    pub fn new(identity: String) -> (issuer: Issuer)
        ensures
            issuer@ == identity@,
    {
        Issuer(identity)
    }

    /// The textual identity.
    pub fn to_string(&self) -> (text: String)
        ensures
            text@ == self@,
    {
        self.0.clone()
    }
}

impl Clone for Issuer {
    fn clone(&self) -> (copy: Self)
        ensures
            copy@ == self@,
    {
        Issuer(self.0.clone())
    }
}

} // verus!
