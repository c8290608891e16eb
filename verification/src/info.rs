//! The progress ledger of one workflow run, and what is stored of it.

use vstd::prelude::*;
use crate::cid::{cid_bytes, cid_text, Cid, CidView};
use crate::codec::{dag_cbor_bytes, decode, encodable, encode, value_of};
use crate::error::{
    lemma_keys_distinct,
    DecodeError,
    DecodeErrorView,
    Field,
    LedgerError,
    LedgerErrorView,
};
use crate::instruction::{get_link, link_field};
use crate::pointer::Pointer;
use crate::prf::{
    all_links,
    cid_views,
    copy_cids,
    lemma_links_round_trip,
    link_list,
    link_targets,
    links,
    targets,
};
use crate::value::{Value, ValueMap, ValueView};

verus! {

/// The tag under which workflow progress is wrapped when it is shared with
/// peers.
pub const WORKFLOW_TAG: &'static str = "ipvm/workflow";

/// What is stored of a workflow: its identifier and the number of its tasks.
#[derive(Debug, PartialEq, Eq, Hash)]
pub struct Stored {
    cid: Pointer,
    num_tasks: i32,
}

/// What is stored of a workflow, as plain values.
pub struct StoredView {
    pub cid: CidView,
    pub num_tasks: i32,
}

/// The association of a workflow with one of the receipts it has gathered.
#[derive(Debug, PartialEq, Eq, Hash)]
pub struct StoredReceipt {
    workflow_cid: Pointer,
    receipt_cid: Pointer,
}

/// The progress of one workflow run: the workflow's identifier, the
/// identifiers of the tasks that are complete in the order they were learned,
/// a count of completed steps, and the number of tasks in all.
#[derive(Debug, PartialEq, Eq)]
pub struct Info {
    cid: Cid,
    progress: Vec<Cid>,
    progress_count: u32,
    num_tasks: u32,
}

/// What the progress of a workflow run is.
pub struct InfoView {
    pub cid: CidView,
    pub progress: Seq<CidView>,
    pub progress_count: u32,
    pub num_tasks: u32,
}

impl InfoView {
    /// The count is not below the number of identifiers that back it.
    pub open spec fn wf(self) -> bool {
        self.progress_count >= self.progress.len()
    }
}

/// The progress record made of a workflow's identifier, what is complete and
/// the number of tasks: the count is the number of identifiers, as 32 bits
/// hold it.
pub open spec fn info_of(cid: CidView, progress: Seq<CidView>, num_tasks: u32) -> InfoView {
    InfoView { cid, progress, progress_count: progress.len() as u32, num_tasks }
}

/// The progress record of a workflow of which nothing is known to be
/// complete.
pub open spec fn zero_progress(cid: CidView, num_tasks: u32) -> InfoView {
    InfoView { cid, progress: Seq::<CidView>::empty(), progress_count: 0, num_tasks }
}

/// What is stored of a progress record: the identifier, and the number of
/// tasks as a signed number of 32 bits.
pub open spec fn projection(info: InfoView) -> StoredView {
    StoredView { cid: info.cid, num_tasks: info.num_tasks as i32 }
}

/// The count after one more task is known to be complete: one more than
/// the greater of the count before and the number of identifiers then held,
/// as far as 32 bits can say it.
pub open spec fn next_count(count: u32, held: int) -> u32 {
    let floor = if count >= held {
        count as int
    } else {
        held
    };
    if floor < u32::MAX {
        (floor + 1) as u32
    } else {
        u32::MAX
    }
}

/// The record after one more task is known to be complete: its identifier
/// comes last, and the count has grown as [`next_count`] says.
pub open spec fn incremented(info: InfoView, cid: CidView) -> InfoView {
    InfoView {
        progress: info.progress.push(cid),
        progress_count: next_count(info.progress_count, (info.progress.len() + 1) as int),
        ..info
    }
}

/// A progress record as a value of the data model: a map of its four keys.
pub open spec fn info_value(i: InfoView) -> ValueView {
    ValueView::StringMap(
        Map::<Seq<char>, ValueView>::empty().insert(Field::Cid.key(), ValueView::Link(i.cid)).insert(
            Field::Progress.key(),
            ValueView::List(links(i.progress)),
        ).insert(Field::ProgressCount.key(), ValueView::Integer(i.progress_count as int)).insert(
            Field::NumTasks.key(),
            ValueView::Integer(i.num_tasks as int),
        ),
    )
}

/// The number under the key of `field`, which has to be there and be an
/// integer that 32 bits without a sign can hold.
pub open spec fn u32_field(m: Map<Seq<char>, ValueView>, field: Field) -> Result<u32, DecodeErrorView> {
    if !m.contains_key(field.key()) {
        Err(DecodeErrorView::MissingField(field))
    } else {
        match m[field.key()] {
            ValueView::Integer(i) => if 0 <= i <= u32::MAX {
                Ok(i as u32)
            } else {
                Err(DecodeErrorView::WrongShape(field))
            },
            _ => Err(DecodeErrorView::WrongShape(field)),
        }
    }
}

/// The identifiers under the key of `field`, which has to be there and be a
/// list of links.
pub open spec fn links_field(m: Map<Seq<char>, ValueView>, field: Field) -> Result<
    Seq<CidView>,
    DecodeErrorView,
> {
    if !m.contains_key(field.key()) {
        Err(DecodeErrorView::MissingField(field))
    } else {
        match m[field.key()] {
            ValueView::List(items) => if all_links(items) {
                Ok(targets(items))
            } else {
                Err(DecodeErrorView::WrongShape(field))
            },
            _ => Err(DecodeErrorView::WrongShape(field)),
        }
    }
}

/// The progress record that a value stands for: a map in which the four keys
/// are asked for in the order identifier, progress, count, number of tasks.
pub open spec fn info_of_value(v: ValueView) -> Result<InfoView, DecodeErrorView> {
    match v {
        ValueView::StringMap(m) => match link_field(m, Field::Cid) {
            Err(e) => Err(e),
            Ok(cid) => match links_field(m, Field::Progress) {
                Err(e) => Err(e),
                Ok(progress) => match u32_field(m, Field::ProgressCount) {
                    Err(e) => Err(e),
                    Ok(progress_count) => match u32_field(m, Field::NumTasks) {
                        Err(e) => Err(e),
                        Ok(num_tasks) => Ok(InfoView { cid, progress, progress_count, num_tasks }),
                    },
                },
            },
        },
        _ => Err(DecodeErrorView::NotAMap),
    }
}

/// The progress record that canonical bytes stand for.
pub open spec fn info_of_bytes(bytes: Seq<u8>) -> Result<InfoView, DecodeErrorView> {
    match value_of(bytes) {
        Some(v) => info_of_value(v),
        None => Err(DecodeErrorView::Malformed),
    }
}

/// A progress record as it is shared with peers: its value, one level deeper
/// under [`WORKFLOW_TAG`].
pub open spec fn capsule_value(i: InfoView) -> ValueView {
    ValueView::StringMap(Map::<Seq<char>, ValueView>::empty().insert(WORKFLOW_TAG@, info_value(i)))
}

/// Every progress record can be encoded, bare and in its capsule.
pub proof fn lemma_info_encodable(i: InfoView)
    ensures
        encodable(info_value(i)),
        encodable(capsule_value(i)),
{
    let items = links(i.progress);
    assert forall|j: int| 0 <= j < items.len() implies encodable(#[trigger] items[j]) by {
        assert(items[j] is Link);
    }
    assert(encodable(ValueView::List(items)));
    assert(encodable(ValueView::Integer(i.progress_count as int)));
    assert(encodable(ValueView::Integer(i.num_tasks as int)));
    assert(encodable(ValueView::Link(i.cid)));
    let m = info_value(i)->StringMap_0;
    assert forall|k: Seq<char>| m.contains_key(k) implies encodable(#[trigger] m[k]) by {
        lemma_keys_distinct();
    }
    assert(encodable(info_value(i)));
    let c = capsule_value(i)->StringMap_0;
    assert forall|k: Seq<char>| c.contains_key(k) implies encodable(#[trigger] c[k]) by {
        assert(k == WORKFLOW_TAG@);
    }
}

/// The number held under `field` in `map`.
pub fn get_u32(map: &ValueMap, field: Field) -> (n: Result<u32, DecodeError>)
    ensures
        match u32_field(map@, field) {
            Ok(v) => n matches Ok(w) && w == v,
            Err(e) => n matches Err(f) && f@ == e,
        },
{
    match map.get(field.name()) {
        None => Err(DecodeError::MissingField(field)),
        Some(Value::Integer(i)) => {
            if 0 <= *i && *i <= 0xffff_ffff {
                Ok(*i as u32)
            } else {
                Err(DecodeError::WrongShape(field))
            }
        },
        Some(_) => Err(DecodeError::WrongShape(field)),
    }
}

/// The identifiers held as a list of links under `field` in `map`.
pub fn get_links(map: &ValueMap, field: Field) -> (cids: Result<Vec<Cid>, DecodeError>)
    ensures
        match links_field(map@, field) {
            Ok(c) => cids matches Ok(d) && cid_views(d@) == c,
            Err(e) => cids matches Err(f) && f@ == e,
        },
{
    match map.get(field.name()) {
        None => Err(DecodeError::MissingField(field)),
        Some(v) => match link_targets(v) {
            Some(cids) => Ok(cids),
            None => Err(DecodeError::WrongShape(field)),
        },
    }
}

impl Stored {
    /// The identifier and the number of tasks.
    pub closed spec fn view(&self) -> StoredView {
        StoredView { cid: self.cid@, num_tasks: self.num_tasks }
    }

    /// What is stored of the workflow `cid` with `num_tasks` tasks.
    pub fn new(cid: Pointer, num_tasks: i32) -> (stored: Stored)
        ensures
            stored@ == (StoredView { cid: cid@, num_tasks }),
    {
        Stored { cid, num_tasks }
    }

    /// The workflow's identifier.
    pub fn cid(&self) -> (cid: &Pointer)
        ensures
            cid@ == self@.cid,
    {
        &self.cid
    }

    /// The number of tasks.
    pub fn num_tasks(&self) -> (n: i32)
        ensures
            n == self@.num_tasks,
    {
        self.num_tasks
    }
}

impl Clone for Stored {
    fn clone(&self) -> (copy: Self)
        ensures
            copy@ == self@,
    {
        Stored { cid: self.cid.clone(), num_tasks: self.num_tasks }
    }
}

impl StoredReceipt {
    /// The workflow's identifier.
    pub closed spec fn workflow(&self) -> CidView {
        self.workflow_cid@
    }

    /// The receipt's identifier.
    pub closed spec fn receipt(&self) -> CidView {
        self.receipt_cid@
    }

    /// The association of a workflow with a receipt.
    pub fn new(workflow_cid: Pointer, receipt_cid: Pointer) -> (stored: StoredReceipt)
        ensures
            stored.workflow() == workflow_cid@,
            stored.receipt() == receipt_cid@,
    {
        StoredReceipt { workflow_cid, receipt_cid }
    }

    /// The workflow's identifier.
    pub fn workflow_cid(&self) -> (cid: &Pointer)
        ensures
            cid@ == self.workflow(),
    {
        &self.workflow_cid
    }

    /// The receipt's identifier.
    pub fn receipt_cid(&self) -> (cid: &Pointer)
        ensures
            cid@ == self.receipt(),
    {
        &self.receipt_cid
    }
}

impl Info {
    /// What the record holds.
    pub closed spec fn view(&self) -> InfoView {
        InfoView {
            cid: self.cid@,
            progress: cid_views(self.progress@),
            progress_count: self.progress_count,
            num_tasks: self.num_tasks,
        }
    }

    /// The progress record of a workflow, of what is complete and of the
    /// number of its tasks.
    pub fn new(cid: Cid, progress: Vec<Cid>, num_tasks: u32) -> (info: Info)
        ensures
            info@ == info_of(cid@, cid_views(progress@), num_tasks),
            progress@.len() <= u32::MAX ==> info@.wf(),
    {
        let progress_count = #[verifier::truncate]
        (progress.len() as u32);
        Info { cid, progress, progress_count, num_tasks }
    }

    /// The progress record of a workflow of which nothing is known to be
    /// complete.
    pub fn default(cid: Cid, num_tasks: u32) -> (info: Info)
        ensures
            info@ == zero_progress(cid@, num_tasks),
            info@.wf(),
    {
        let info = Info { cid, progress: Vec::new(), progress_count: 0, num_tasks };
        assert(info@.progress =~= Seq::<CidView>::empty());
        info
    }

    /// The workflow's identifier.
    pub fn cid(&self) -> (cid: Cid)
        ensures
            cid@ == self@.cid,
    {
        self.cid.clone()
    }

    /// The textual form of the workflow's identifier.
    pub fn cid_as_string(&self) -> (text: String)
        ensures
            text@ == cid_text(self@.cid),
    {
        self.cid.to_string()
    }

    /// The binary form of the workflow's identifier.
    pub fn cid_as_bytes(&self) -> (bytes: Vec<u8>)
        ensures
            bytes@ == cid_bytes(self@.cid),
    {
        self.cid.to_bytes()
    }

    /// The identifiers of the tasks that are complete, in the order they were
    /// learned.
    pub fn progress(&self) -> (progress: &Vec<Cid>)
        ensures
            cid_views(progress@) == self@.progress,
    {
        &self.progress
    }

    /// The count of completed steps.
    pub fn progress_count(&self) -> (n: u32)
        ensures
            n == self@.progress_count,
    {
        self.progress_count
    }

    /// The number of tasks in all.
    pub fn num_tasks(&self) -> (n: u32)
        ensures
            n == self@.num_tasks,
    {
        self.num_tasks
    }

    /// Sets the count of completed steps, whatever the identifiers held; the
    /// record stays well-formed where the count is not below their number.
    pub fn set_progress_count(&mut self, progress_count: u32)
        ensures
            final(self)@ == (InfoView { progress_count, ..old(self)@ }),
            progress_count >= old(self)@.progress.len() ==> final(self)@.wf(),
    {
        self.progress_count = progress_count;
    }

    /// Records one more completed task: its identifier comes last, and the
    /// count grows to one more than the greater of the count before and the
    /// number of identifiers then held (to the largest count of 32 bits where
    /// that is all the room left). The record has to leave room in 32 bits
    /// for one more identifier and for a greater count.
    pub fn increment_progress(&mut self, new_cid: Cid)
        requires
            old(self)@.progress.len() < u32::MAX,
            old(self)@.progress_count < u32::MAX,
        ensures
            final(self)@ == incremented(old(self)@, new_cid@),
            final(self)@.progress.last() == new_cid@,
            final(self)@.progress_count > old(self)@.progress_count,
            final(self)@.wf(),
    {
        self.progress.push(new_cid);
        let held = self.progress.len() as u32;
        let floor = if self.progress_count >= held {
            self.progress_count
        } else {
            held
        };
        self.progress_count = if floor < u32::MAX {
            floor + 1
        } else {
            u32::MAX
        };
        assert(self@.progress =~= old(self)@.progress.push(new_cid@));
    }

    /// What is stored of the record.
    pub fn to_stored(&self) -> (stored: Stored)
        ensures
            stored@ == projection(self@),
    {
        Stored::new(
            Pointer::new(self.cid.clone()),
            #[verifier::truncate]
            (self.num_tasks as i32),
        )
    }

    /// The record as a value of the data model.
    pub fn to_value(&self) -> (value: Value)
        ensures
            value@ == info_value(self@),
    {
        let mut map = ValueMap::new();
        map.insert(Field::Cid.name().to_owned(), Value::Link(self.cid.clone()));
        map.insert(Field::Progress.name().to_owned(), link_list(&self.progress));
        map.insert(Field::ProgressCount.name().to_owned(), Value::Integer(self.progress_count as i128));
        map.insert(Field::NumTasks.name().to_owned(), Value::Integer(self.num_tasks as i128));
        Value::StringMap(map)
    }

    /// The record that a value stands for.
    pub fn from_value(value: &Value) -> (info: Result<Info, DecodeError>)
        ensures
            match info_of_value(value@) {
                Ok(v) => info matches Ok(i) && i@ == v,
                Err(e) => info matches Err(f) && f@ == e,
            },
    {
        match value {
            Value::StringMap(map) => {
                let cid = match get_link(map, Field::Cid) {
                    Ok(c) => c,
                    Err(e) => return Err(e),
                };
                let progress = match get_links(map, Field::Progress) {
                    Ok(p) => p,
                    Err(e) => return Err(e),
                };
                let progress_count = match get_u32(map, Field::ProgressCount) {
                    Ok(n) => n,
                    Err(e) => return Err(e),
                };
                let num_tasks = match get_u32(map, Field::NumTasks) {
                    Ok(n) => n,
                    Err(e) => return Err(e),
                };
                Ok(Info { cid, progress, progress_count, num_tasks })
            },
            _ => Err(DecodeError::NotAMap),
        }
    }

    /// The canonical bytes of the record, which every record has.
    pub fn to_bytes(&self) -> (bytes: Result<Vec<u8>, LedgerError>)
        ensures
            bytes matches Ok(b) && b@ == dag_cbor_bytes(info_value(self@)),
    {
        proof {
            lemma_info_encodable(self@);
        }
        let value = self.to_value();
        match encode(&value) {
            Some(bytes) => Ok(bytes),
            None => Err(LedgerError::Encoding),
        }
    }

    /// The record that canonical bytes stand for.
    pub fn from_bytes(bytes: &[u8]) -> (info: Result<Info, LedgerError>)
        ensures
            match info_of_bytes(bytes@) {
                Ok(v) => info matches Ok(i) && i@ == v,
                Err(e) => info matches Err(f) && f@ == LedgerErrorView::Decoding(e),
            },
    {
        match decode(bytes) {
            Some(value) => match Info::from_value(&value) {
                Ok(i) => Ok(i),
                Err(e) => Err(LedgerError::Decoding(e)),
            },
            None => Err(LedgerError::Decoding(DecodeError::Malformed)),
        }
    }

    /// The canonical bytes of the record as it is shared with peers: wrapped
    /// one level deeper under [`WORKFLOW_TAG`]. Every record has them.
    pub fn capsule(&self) -> (bytes: Result<Vec<u8>, LedgerError>)
        ensures
            bytes matches Ok(b) && b@ == dag_cbor_bytes(capsule_value(self@)),
    {
        proof {
            lemma_info_encodable(self@);
        }
        let mut map = ValueMap::new();
        map.insert(WORKFLOW_TAG.to_owned(), self.to_value());
        let capsule = Value::StringMap(map);
        match encode(&capsule) {
            Some(bytes) => Ok(bytes),
            None => Err(LedgerError::Encoding),
        }
    }
}

impl Clone for Info {
    fn clone(&self) -> (copy: Self)
        ensures
            copy@ == self@,
    {
        Info {
            cid: self.cid.clone(),
            progress: copy_cids(&self.progress),
            progress_count: self.progress_count,
            num_tasks: self.num_tasks,
        }
    }
}

/// Decoding the value of a progress record gives the record back.
pub proof fn lemma_info_round_trip(i: InfoView)
    ensures
        info_of_value(info_value(i)) == Ok::<InfoView, DecodeErrorView>(i),
{
    lemma_keys_distinct();
    lemma_links_round_trip(i.progress);
}

/// After one more completed task is recorded, the count has grown, the
/// task's identifier is the last of the progress, the workflow and the
/// number of its tasks are what they were, and the count is not below the
/// number of identifiers.
pub proof fn lemma_monotonic_progress(info: InfoView, cid: CidView)
    requires
        info.progress.len() < u32::MAX,
        info.progress_count < u32::MAX,
    ensures
        incremented(info, cid).progress_count > info.progress_count,
        incremented(info, cid).progress.last() == cid,
        incremented(info, cid).num_tasks == info.num_tasks,
        incremented(info, cid).cid == info.cid,
        incremented(info, cid).wf(),
{
}

/// Where the count was at most one above the number of identifiers, it is
/// one above their number afterwards, as far as 32 bits can say it.
pub proof fn lemma_count_follows_progress(info: InfoView, cid: CidView)
    requires
        info.progress.len() + 2 <= u32::MAX,
        info.progress_count <= info.progress.len() + 1,
    ensures
        incremented(info, cid).progress_count == incremented(info, cid).progress.len() + 1,
{
}

} // verus!
