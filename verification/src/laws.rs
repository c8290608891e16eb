//! What holds of the ledger as a whole.

use vstd::prelude::*;
use crate::cid::CidView;
use crate::codec::{dag_cbor_bytes, value_of};
use crate::error::DecodeErrorView;
use crate::gather::{next, run, start, ActionView, EventView, FoundView, GatherErrorView, GatherView};
use crate::info::{
    info_of,
    info_of_bytes,
    info_value,
    lemma_info_round_trip,
    projection,
    zero_progress,
    InfoView,
    StoredView,
};
use crate::instruction::{instruction_id, InstructionView};
use crate::receipt::{
    invocation_id,
    lemma_receipt_round_trip,
    receipt_of_bytes,
    receipt_value,
    InvocationView,
    ReceiptView,
};
use crate::task::{task_id, TaskView};
use crate::workflow::workflow_id;

verus! {

/// Equal tasks have equal identifiers.
pub proof fn lemma_task_id_deterministic(a: TaskView, b: TaskView)
    requires
        a == b,
    ensures
        task_id(a) == task_id(b),
{
}

/// Equal instructions have equal identifiers.
pub proof fn lemma_instruction_id_deterministic(a: InstructionView, b: InstructionView)
    requires
        a == b,
    ensures
        instruction_id(a) == instruction_id(b),
{
}

/// Equal issued receipts have equal identifiers.
pub proof fn lemma_receipt_id_deterministic(a: InvocationView, b: InvocationView)
    requires
        a == b,
    ensures
        invocation_id(a) == invocation_id(b),
{
}

/// Equal workflows have equal identifiers.
pub proof fn lemma_workflow_id_deterministic(a: Seq<TaskView>, b: Seq<TaskView>)
    requires
        a == b,
    ensures
        workflow_id(a) == workflow_id(b),
{
}

/// Wherever the canonical bytes of a kept receipt's value decode to that
/// value again, decoding the bytes of the receipt gives the receipt back.
pub proof fn lemma_receipt_bytes_round_trip(r: ReceiptView)
    requires
        value_of(dag_cbor_bytes(receipt_value(r))) == Some(receipt_value(r)),
    ensures
        receipt_of_bytes(dag_cbor_bytes(receipt_value(r))) == Ok::<ReceiptView, DecodeErrorView>(r),
{
    lemma_receipt_round_trip(r);
}

/// Wherever the canonical bytes of a progress record's value decode to that
/// value again, decoding the bytes of the record gives the record back.
pub proof fn lemma_info_bytes_round_trip(i: InfoView)
    requires
        value_of(dag_cbor_bytes(info_value(i))) == Some(info_value(i)),
    ensures
        info_of_bytes(dag_cbor_bytes(info_value(i))) == Ok::<InfoView, DecodeErrorView>(i),
{
    lemma_info_round_trip(i);
}

/// Once the protocol is over, no event brings about anything.
pub proof fn lemma_done_is_final(events: Seq<EventView>)
    ensures
        run(GatherView::Done, events).len() == events.len(),
        forall|i: int| 0 <= i < events.len() ==> run(GatherView::Done, events)[i] == ActionView::Ignore,
    decreases events.len(),
{
    if events.len() > 0 {
        lemma_done_is_final(events.drop_first());
        let rest = run(GatherView::Done, events.drop_first());
        assert(run(GatherView::Done, events) == seq![ActionView::Ignore] + rest);
        assert forall|i: int| 0 <= i < events.len() implies run(GatherView::Done, events)[i]
            == ActionView::Ignore by {
            if i > 0 {
                assert(run(GatherView::Done, events)[i] == rest[i - 1]);
            }
        }
    }
}

/// A workflow that persistence holds is resolved from what is stored alone:
/// the record that is returned has the stored receipt identifiers as its
/// progress and the stored number of tasks, and whatever happens afterwards,
/// nothing is ever asked of the network.
pub proof fn lemma_gather_cache_hit(
    cid: CidView,
    num_tasks: u32,
    timeout_secs: u64,
    stored: StoredView,
    receipts: Seq<CidView>,
    later: Seq<EventView>,
)
    ensures
        ({
            let actions = run(
                start(cid, num_tasks, timeout_secs),
                seq![EventView::Hit { stored, receipts }] + later,
            );
            let info = info_of(cid, receipts, stored.num_tasks as u32);
            &&& actions.len() == 1 + later.len()
            &&& actions[0] == ActionView::Return(Ok(info))
            &&& info.progress == receipts
            &&& info.cid == cid
            &&& forall|i: int| 0 <= i < actions.len() ==> !(#[trigger] actions[i] is Query)
        }),
{
    let events = seq![EventView::Hit { stored, receipts }] + later;
    assert(events.drop_first() =~= later);
    lemma_done_is_final(later);
    let actions = run(start(cid, num_tasks, timeout_secs), events);
    let info = info_of(cid, receipts, stored.num_tasks as u32);
    assert(actions == seq![ActionView::Return(Ok(info))] + run(GatherView::Done, later));
    assert forall|i: int| 0 <= i < actions.len() implies !(#[trigger] actions[i] is Query) by {
        if i > 0 {
            assert(actions[i] == run(GatherView::Done, later)[i - 1]);
        }
    }
}

/// After a miss, an answer of the network that is the progress of a workflow
/// is first stored, as its projection, and then returned as it came.
pub proof fn lemma_gather_network_hit(cid: CidView, num_tasks: u32, timeout_secs: u64, info: InfoView)
    ensures
        run(
            start(cid, num_tasks, timeout_secs),
            seq![EventView::Miss, EventView::Reply(FoundView::Workflow(info)), EventView::Stored],
        ) == seq![
            ActionView::Query { cid, timeout_secs },
            ActionView::Store { stored: projection(info) },
            ActionView::Return(Ok(info)),
        ],
{
    let e0 = EventView::Miss;
    let e1 = EventView::Reply(FoundView::Workflow(info));
    let e2 = EventView::Stored;
    lemma_run_three(start(cid, num_tasks, timeout_secs), e0, e1, e2);
}

/// After a miss, where the deadline passes without an answer, the
/// zero-progress record is first stored, as its projection, and then
/// returned: its progress is empty, its count is zero, and its number of
/// tasks is that of the workflow.
pub proof fn lemma_gather_timeout_default(cid: CidView, num_tasks: u32, timeout_secs: u64)
    ensures
        ({
            let info = zero_progress(cid, num_tasks);
            &&& run(
                start(cid, num_tasks, timeout_secs),
                seq![EventView::Miss, EventView::TimedOut, EventView::Stored],
            ) == seq![
                ActionView::Query { cid, timeout_secs },
                ActionView::Store { stored: projection(info) },
                ActionView::Return(Ok(info)),
            ]
            &&& info.progress.len() == 0
            &&& info.progress_count == 0
            &&& info.num_tasks == num_tasks
            &&& projection(info).cid == cid
        }),
{
    lemma_run_three(
        start(cid, num_tasks, timeout_secs),
        EventView::Miss,
        EventView::TimedOut,
        EventView::Stored,
    );
}

/// After a miss, an answer of the network that is not the progress of a
/// workflow ends the protocol with a violation that names the answer and the
/// workflow; nothing is stored.
pub proof fn lemma_gather_unexpected_reply(
    cid: CidView,
    num_tasks: u32,
    timeout_secs: u64,
    reply: FoundView,
)
    requires
        !(reply is Workflow),
    ensures
        run(
            start(cid, num_tasks, timeout_secs),
            seq![EventView::Miss, EventView::Reply(reply)],
        ) == seq![
            ActionView::Query { cid, timeout_secs },
            ActionView::Return(
                Err(GatherErrorView::ProtocolViolation { event: reply, workflow: cid }),
            ),
        ],
{
    let s0 = start(cid, num_tasks, timeout_secs);
    let events = seq![EventView::Miss, EventView::Reply(reply)];
    let (s1, a0) = next(s0, events[0]);
    let rest = events.drop_first();
    assert(rest =~= seq![EventView::Reply(reply)]);
    let (s2, a1) = next(s1, rest[0]);
    assert(rest.drop_first() =~= Seq::<EventView>::empty());
    assert(run(s2, rest.drop_first()) =~= Seq::<ActionView>::empty());
    assert(run(s1, rest) =~= seq![a1]);
    assert(run(s0, events) =~= seq![a0, a1]);
}

/// An answer of the network is taken once only: where no answer is awaited,
/// one that comes changes nothing and brings about nothing.
pub proof fn lemma_unawaited_reply_is_ignored(state: GatherView, reply: FoundView)
    requires
        !(state is Query),
    ensures
        next(state, EventView::Reply(reply)) == (state, ActionView::Ignore),
{
}

/// A run of three events brings about the three actions of its steps.
pub proof fn lemma_run_three(s0: GatherView, e0: EventView, e1: EventView, e2: EventView)
    ensures
        run(s0, seq![e0, e1, e2]) == seq![
            next(s0, e0).1,
            next(next(s0, e0).0, e1).1,
            next(next(next(s0, e0).0, e1).0, e2).1,
        ],
{
    let events = seq![e0, e1, e2];
    let (s1, a0) = next(s0, e0);
    let (s2, a1) = next(s1, e1);
    let (s3, a2) = next(s2, e2);
    let r1 = events.drop_first();
    assert(r1 =~= seq![e1, e2]);
    let r2 = r1.drop_first();
    assert(r2 =~= seq![e2]);
    assert(r2.drop_first() =~= Seq::<EventView>::empty());
    assert(run(s3, r2.drop_first()) =~= Seq::<ActionView>::empty());
    assert(run(s2, r2) =~= seq![a2]);
    assert(run(s1, r1) =~= seq![a1, a2]);
    assert(run(s0, events) =~= seq![a0, a1, a2]);
}

} // verus!
