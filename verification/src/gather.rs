//! The protocol that resolves the progress of a workflow: persistence first,
//! then one query to the network under a deadline, then the zero-progress
//! record. The protocol decides; whoever drives it performs each action and
//! hands back what happened.

use vstd::prelude::*;
use crate::cid::{Cid, CidView};
use crate::codec::encodable;
use crate::info::{info_of, projection, zero_progress, Info, InfoView, Stored, StoredView};
use crate::prf::cid_views;
use crate::receipt::{Receipt, ReceiptView};
use crate::workflow::{workflow_id, workflow_value, Workflow};

verus! {

/// What the network can answer to a query.
#[derive(Debug, PartialEq, Eq)]
pub enum FoundEvent {
    /// A receipt was found.
    Receipt(Receipt),
    /// The progress of a workflow was found.
    Workflow(Info),
}

/// What an answer of the network is.
pub enum FoundView {
    Receipt(ReceiptView),
    Workflow(InfoView),
}

/// Why the progress of a workflow could not be resolved.
#[derive(Debug, PartialEq, Eq)]
pub enum GatherError {
    /// The workflow holds what the canonical encoding cannot say, so it has
    /// no identifier.
    Encoding,
    /// The query could not be handed to the network.
    Send,
    /// The network answered the query for `workflow` with something else
    /// than the progress of a workflow.
    ProtocolViolation { event: FoundEvent, workflow: Cid },
    /// The store failed.
    Persistence,
}

/// What a failure to resolve is.
pub enum GatherErrorView {
    Encoding,
    Send,
    ProtocolViolation { event: FoundView, workflow: CidView },
    Persistence,
}

/// What happened to the action that was asked for last.
#[derive(Debug, PartialEq, Eq)]
pub enum GatherEvent {
    /// Persistence holds the workflow: what is stored of it, and the
    /// identifiers of the receipts associated with it.
    Hit { stored: Stored, receipts: Vec<Cid> },
    /// Persistence does not hold the workflow, or could not say.
    Miss,
    /// The query could not be handed to the network.
    SendFailed,
    /// The network answered before the deadline.
    Reply(FoundEvent),
    /// The deadline passed without an answer.
    TimedOut,
    /// The projection was stored.
    Stored,
    /// The projection could not be stored.
    StoreFailed,
}

/// What an event is.
pub enum EventView {
    Hit { stored: StoredView, receipts: Seq<CidView> },
    Miss,
    SendFailed,
    Reply(FoundView),
    TimedOut,
    Stored,
    StoreFailed,
}

/// What is to be done next.
#[derive(Debug, PartialEq, Eq)]
pub enum GatherAction {
    /// Look the workflow up in persistence, joined with its receipts.
    Lookup { cid: Cid },
    /// Send one query for the workflow to the network, and wait for the
    /// answer for at most the given number of seconds.
    Query { cid: Cid, timeout_secs: u64 },
    /// Store the projection.
    Store { stored: Stored },
    /// Hand the outcome to the caller: the protocol is over.
    Return(Result<Info, GatherError>),
    /// Nothing: the event was not awaited.
    Ignore,
}

/// What an action is.
pub enum ActionView {
    Lookup { cid: CidView },
    Query { cid: CidView, timeout_secs: u64 },
    Store { stored: StoredView },
    Return(Result<InfoView, GatherErrorView>),
    Ignore,
}

/// Where the protocol stands.
#[derive(Debug, PartialEq, Eq)]
pub enum Gather {
    /// The lookup in persistence is awaited.
    Lookup { cid: Cid, num_tasks: u32, timeout_secs: u64 },
    /// The answer of the network, or the deadline, is awaited.
    Query { cid: Cid, num_tasks: u32 },
    /// The storing of the projection of `info` is awaited.
    Store { info: Info },
    /// The protocol is over.
    Done,
}

/// What a state of the protocol is.
pub enum GatherView {
    Lookup { cid: CidView, num_tasks: u32, timeout_secs: u64 },
    Query { cid: CidView, num_tasks: u32 },
    Store { info: InfoView },
    Done,
}

/// The state in which the protocol starts for a workflow.
pub open spec fn start(cid: CidView, num_tasks: u32, timeout_secs: u64) -> GatherView {
    GatherView::Lookup { cid, num_tasks, timeout_secs }
}

/// The state and the action that follow an event.
///
/// A hit ends the protocol with the stored number of tasks and the stored
/// receipt identifiers as progress. A miss asks the network, once. An answer
/// that is the progress of a workflow is stored and then returned; any other
/// answer is a violation of the protocol. When the deadline passes, the
/// zero-progress record is stored and then returned. An event that the state
/// does not await changes nothing.
pub open spec fn next(state: GatherView, event: EventView) -> (GatherView, ActionView) {
    match (state, event) {
        (GatherView::Lookup { cid, num_tasks, timeout_secs }, EventView::Hit { stored, receipts }) => (
            GatherView::Done,
            ActionView::Return(Ok(info_of(cid, receipts, stored.num_tasks as u32))),
        ),
        (GatherView::Lookup { cid, num_tasks, timeout_secs }, EventView::Miss) => (
            GatherView::Query { cid, num_tasks },
            ActionView::Query { cid, timeout_secs },
        ),
        (GatherView::Query { cid, num_tasks }, EventView::SendFailed) => (
            GatherView::Done,
            ActionView::Return(Err(GatherErrorView::Send)),
        ),
        (GatherView::Query { cid, num_tasks }, EventView::Reply(FoundView::Workflow(info))) => (
            GatherView::Store { info },
            ActionView::Store { stored: projection(info) },
        ),
        (GatherView::Query { cid, num_tasks }, EventView::Reply(other)) => (
            GatherView::Done,
            ActionView::Return(
                Err(GatherErrorView::ProtocolViolation { event: other, workflow: cid }),
            ),
        ),
        (GatherView::Query { cid, num_tasks }, EventView::TimedOut) => (
            GatherView::Store { info: zero_progress(cid, num_tasks) },
            ActionView::Store { stored: projection(zero_progress(cid, num_tasks)) },
        ),
        (GatherView::Store { info }, EventView::Stored) => (
            GatherView::Done,
            ActionView::Return(Ok(info)),
        ),
        (GatherView::Store { info }, EventView::StoreFailed) => (
            GatherView::Done,
            ActionView::Return(Err(GatherErrorView::Persistence)),
        ),
        _ => (state, ActionView::Ignore),
    }
}

/// The actions that a run of events brings about from a state, in order.
pub open spec fn run(state: GatherView, events: Seq<EventView>) -> Seq<ActionView>
    decreases events.len(),
{
    if events.len() == 0 {
        Seq::empty()
    } else {
        let (after, action) = next(state, events[0]);
        seq![action] + run(after, events.drop_first())
    }
}

impl FoundEvent {
    /// What the answer is.
    pub open spec fn view(&self) -> FoundView {
        match self {
            FoundEvent::Receipt(r) => FoundView::Receipt(r@),
            FoundEvent::Workflow(i) => FoundView::Workflow(i@),
        }
    }
}

impl GatherError {
    /// What the failure is.
    pub open spec fn view(&self) -> GatherErrorView {
        match self {
            GatherError::Encoding => GatherErrorView::Encoding,
            GatherError::Send => GatherErrorView::Send,
            GatherError::ProtocolViolation { event, workflow } => GatherErrorView::ProtocolViolation {
                event: event@,
                workflow: workflow@,
            },
            GatherError::Persistence => GatherErrorView::Persistence,
        }
    }
}

impl GatherEvent {
    /// What the event is.
    pub open spec fn view(&self) -> EventView {
        match self {
            GatherEvent::Hit { stored, receipts } => EventView::Hit {
                stored: stored@,
                receipts: cid_views(receipts@),
            },
            GatherEvent::Miss => EventView::Miss,
            GatherEvent::SendFailed => EventView::SendFailed,
            GatherEvent::Reply(found) => EventView::Reply(found@),
            GatherEvent::TimedOut => EventView::TimedOut,
            GatherEvent::Stored => EventView::Stored,
            GatherEvent::StoreFailed => EventView::StoreFailed,
        }
    }
}

impl GatherAction {
    /// What the action is.
    pub open spec fn view(&self) -> ActionView {
        match self {
            GatherAction::Lookup { cid } => ActionView::Lookup { cid: cid@ },
            GatherAction::Query { cid, timeout_secs } => ActionView::Query {
                cid: cid@,
                timeout_secs: *timeout_secs,
            },
            GatherAction::Store { stored } => ActionView::Store { stored: stored@ },
            GatherAction::Return(Ok(info)) => ActionView::Return(Ok(info@)),
            GatherAction::Return(Err(e)) => ActionView::Return(Err(e@)),
            GatherAction::Ignore => ActionView::Ignore,
        }
    }
}

impl Gather {
    /// What the state is.
    pub open spec fn view(&self) -> GatherView {
        match self {
            Gather::Lookup { cid, num_tasks, timeout_secs } => GatherView::Lookup {
                cid: cid@,
                num_tasks: *num_tasks,
                timeout_secs: *timeout_secs,
            },
            Gather::Query { cid, num_tasks } => GatherView::Query { cid: cid@, num_tasks: *num_tasks },
            Gather::Store { info } => GatherView::Store { info: info@ },
            Gather::Done => GatherView::Done,
        }
    }

    /// Takes an event and says where the protocol stands then and what is to
    /// be done next.
    pub fn step(self, event: GatherEvent) -> (after: (Gather, GatherAction))
        ensures
            (after.0@, after.1@) == next(self@, event@),
    {
        match self {
            Gather::Lookup { cid, num_tasks, timeout_secs } => match event {
                GatherEvent::Hit { stored, receipts } => {
                    let stored_tasks = #[verifier::truncate]
                    (stored.num_tasks() as u32);
                    let info = Info::new(cid, receipts, stored_tasks);
                    (Gather::Done, GatherAction::Return(Ok(info)))
                },
                GatherEvent::Miss => {
                    let query = GatherAction::Query { cid: cid.clone(), timeout_secs };
                    (Gather::Query { cid, num_tasks }, query)
                },
                _ => (Gather::Lookup { cid, num_tasks, timeout_secs }, GatherAction::Ignore),
            },
            Gather::Query { cid, num_tasks } => match event {
                GatherEvent::SendFailed => (
                    Gather::Done,
                    GatherAction::Return(Err(GatherError::Send)),
                ),
                GatherEvent::Reply(FoundEvent::Workflow(info)) => {
                    let stored = info.to_stored();
                    (Gather::Store { info }, GatherAction::Store { stored })
                },
                GatherEvent::Reply(other) => (
                    Gather::Done,
                    GatherAction::Return(
                        Err(GatherError::ProtocolViolation { event: other, workflow: cid }),
                    ),
                ),
                GatherEvent::TimedOut => {
                    let info = Info::default(cid, num_tasks);
                    let stored = info.to_stored();
                    (Gather::Store { info }, GatherAction::Store { stored })
                },
                _ => (Gather::Query { cid, num_tasks }, GatherAction::Ignore),
            },
            Gather::Store { info } => match event {
                GatherEvent::Stored => (Gather::Done, GatherAction::Return(Ok(info))),
                GatherEvent::StoreFailed => (
                    Gather::Done,
                    GatherAction::Return(Err(GatherError::Persistence)),
                ),
                _ => (Gather::Store { info }, GatherAction::Ignore),
            },
            Gather::Done => (Gather::Done, GatherAction::Ignore),
        }
    }
}

impl Info {
    /// Starts to resolve the progress of a workflow: the protocol awaits the
    /// lookup in persistence, which is the first thing to be done. It starts
    /// unless the workflow holds what the canonical encoding cannot say.
    pub fn gather(workflow: &Workflow, timeout_secs: u64) -> (begun: Result<
        (Gather, GatherAction),
        GatherError,
    >)
        ensures
            match begun {
                Ok((state, action)) => {
                    &&& encodable(workflow_value(workflow@))
                    &&& state@ == start(workflow_id(workflow@), workflow@.len() as u32, timeout_secs)
                    &&& action@ == (ActionView::Lookup { cid: workflow_id(workflow@) })
                },
                Err(e) => !encodable(workflow_value(workflow@)) && e@ == GatherErrorView::Encoding,
            },
    {
        let num_tasks = workflow.len();
        match workflow.to_cid() {
            Ok(cid) => {
                let lookup = GatherAction::Lookup { cid: cid.clone() };
                Ok((Gather::Lookup { cid, num_tasks, timeout_secs }, lookup))
            },
            Err(_) => Err(GatherError::Encoding),
        }
    }
}

} // verus!
