use homestar_ledger::cid::Cid;
use homestar_ledger::gather::{FoundEvent, Gather, GatherAction, GatherError, GatherEvent};
use homestar_ledger::info::{Info, Stored};
use homestar_ledger::instruction::{Instruction, InstructionResult, RunInstruction};
use homestar_ledger::pointer::Pointer;
use homestar_ledger::prf::UcanPrf;
use homestar_ledger::receipt::{InvocationReceipt, Receipt};
use homestar_ledger::task::Task;
use homestar_ledger::value::Value;
use homestar_ledger::workflow::Workflow;

fn workflow() -> Workflow {
    let task = |func: &str| {
        Task::new(
            RunInstruction::Expanded(Instruction::new(
                "ipfs://bafkreidztuwoszw2dfnzufjpsjmzj67x574qcdm2autnhnv43o3t4zmh7i".to_string(),
                "wasm/run".to_string(),
                Value::text(func),
            )),
            Value::Null,
            UcanPrf::default(),
        )
    };
    Workflow::new(vec![task("one"), task("two")])
}

fn a_receipt() -> Receipt {
    let invocation = InvocationReceipt::new(
        Pointer::new(Cid::derive(b"ran")),
        InstructionResult::Success(Value::Bool(true)),
        Value::Null,
        None,
        UcanPrf::default(),
    );
    Receipt::try_with(Pointer::new(Cid::derive(b"instruction")), &invocation).unwrap()
}

fn begin(timeout_secs: u64) -> (Gather, Cid) {
    let workflow = workflow();
    let cid = workflow.to_cid().unwrap();
    let (state, action) = Info::gather(&workflow, timeout_secs).unwrap();
    assert_eq!(action, GatherAction::Lookup { cid: cid.clone() });
    assert_eq!(
        state,
        Gather::Lookup {
            cid: cid.clone(),
            num_tasks: 2,
            timeout_secs
        }
    );
    (state, cid)
}

#[test]
fn gather_cache_hit_returns_the_stored_receipts_without_the_network() {
    let (state, cid) = begin(10);
    let receipts = vec![Cid::derive(b"r1"), Cid::derive(b"r2")];
    let (state, action) = state.step(GatherEvent::Hit {
        stored: Stored::new(Pointer::new(cid.clone()), 2),
        receipts: receipts.clone(),
    });
    assert_eq!(
        action,
        GatherAction::Return(Ok(Info::new(cid, receipts, 2)))
    );
    assert_eq!(state, Gather::Done);
    let (state, action) = state.step(GatherEvent::Reply(FoundEvent::Receipt(a_receipt())));
    assert_eq!(action, GatherAction::Ignore);
    assert_eq!(state, Gather::Done);
}

#[test]
fn gather_network_hit_stores_the_projection_and_returns_what_came() {
    let (state, cid) = begin(10);
    let (state, action) = state.step(GatherEvent::Miss);
    assert_eq!(
        action,
        GatherAction::Query {
            cid: cid.clone(),
            timeout_secs: 10
        }
    );
    let mut found = Info::default(cid.clone(), 2);
    found.increment_progress(Cid::derive(b"done"));
    let (state, action) = state.step(GatherEvent::Reply(FoundEvent::Workflow(found.clone())));
    assert_eq!(
        action,
        GatherAction::Store {
            stored: Stored::new(Pointer::new(cid), 2)
        }
    );
    let (state, action) = state.step(GatherEvent::Stored);
    assert_eq!(action, GatherAction::Return(Ok(found)));
    assert_eq!(state, Gather::Done);
}

#[test]
fn gather_timeout_stores_and_returns_the_zero_progress_record() {
    let (state, cid) = begin(3);
    let (state, _) = state.step(GatherEvent::Miss);
    let (state, action) = state.step(GatherEvent::TimedOut);
    assert_eq!(
        action,
        GatherAction::Store {
            stored: Stored::new(Pointer::new(cid.clone()), 2)
        }
    );
    let (state, action) = state.step(GatherEvent::Stored);
    match action {
        GatherAction::Return(Ok(info)) => {
            assert!(info.progress().is_empty());
            assert_eq!(info.progress_count(), 0);
            assert_eq!(info.num_tasks(), workflow().len());
            assert_eq!(info.cid(), cid);
        }
        other => panic!("unexpected {:?}", other),
    }
    assert_eq!(state, Gather::Done);
}

#[test]
fn gather_unexpected_reply_is_a_protocol_violation_naming_the_workflow() {
    let (state, cid) = begin(10);
    let (state, _) = state.step(GatherEvent::Miss);
    let (state, action) = state.step(GatherEvent::Reply(FoundEvent::Receipt(a_receipt())));
    assert_eq!(
        action,
        GatherAction::Return(Err(GatherError::ProtocolViolation {
            event: FoundEvent::Receipt(a_receipt()),
            workflow: cid
        }))
    );
    assert_eq!(state, Gather::Done);
}

#[test]
fn gather_second_reply_is_ignored() {
    let (state, cid) = begin(10);
    let (state, _) = state.step(GatherEvent::Miss);
    let found = Info::default(cid, 2);
    let (state, _) = state.step(GatherEvent::Reply(FoundEvent::Workflow(found.clone())));
    let (state, action) = state.step(GatherEvent::Reply(FoundEvent::Workflow(found.clone())));
    assert_eq!(action, GatherAction::Ignore);
    assert_eq!(state, Gather::Store { info: found.clone() });
    let (state, action) = state.step(GatherEvent::TimedOut);
    assert_eq!(action, GatherAction::Ignore);
    let (_, action) = state.step(GatherEvent::Stored);
    assert_eq!(action, GatherAction::Return(Ok(found)));
}

#[test]
fn gather_failures_of_the_collaborators_are_returned() {
    let (state, _) = begin(10);
    let (state, _) = state.step(GatherEvent::Miss);
    let (state, action) = state.step(GatherEvent::SendFailed);
    assert_eq!(action, GatherAction::Return(Err(GatherError::Send)));
    assert_eq!(state, Gather::Done);

    let (state, _) = begin(10);
    let (state, _) = state.step(GatherEvent::Miss);
    let (state, _) = state.step(GatherEvent::TimedOut);
    let (state, action) = state.step(GatherEvent::StoreFailed);
    assert_eq!(action, GatherAction::Return(Err(GatherError::Persistence)));
    assert_eq!(state, Gather::Done);
}

#[test]
fn gather_events_that_are_not_awaited_change_nothing() {
    let (state, cid) = begin(10);
    let (state, action) = state.step(GatherEvent::TimedOut);
    assert_eq!(action, GatherAction::Ignore);
    let (state, action) = state.step(GatherEvent::Stored);
    assert_eq!(action, GatherAction::Ignore);
    assert_eq!(
        state,
        Gather::Lookup {
            cid,
            num_tasks: 2,
            timeout_secs: 10
        }
    );
}

#[test]
fn gather_does_not_start_for_a_workflow_without_identifier() {
    let task = Task::new(
        RunInstruction::Ptr(Pointer::new(Cid::derive(b"i"))),
        Value::Integer(i128::MAX),
        UcanPrf::default(),
    );
    assert_eq!(
        Info::gather(&Workflow::new(vec![task]), 10),
        Err(GatherError::Encoding)
    );
}

#[test]
fn gather_hit_takes_the_stored_task_count() {
    let (state, cid) = begin(10);
    let (_, action) = state.step(GatherEvent::Hit {
        stored: Stored::new(Pointer::new(cid.clone()), 9),
        receipts: vec![],
    });
    assert_eq!(action, GatherAction::Return(Ok(Info::new(cid, vec![], 9))));
}
