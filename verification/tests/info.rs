use homestar_ledger::cid::Cid;
use homestar_ledger::codec::{decode, encode};
use homestar_ledger::error::{DecodeError, Field, LedgerError};
use homestar_ledger::info::{Info, Stored, StoredReceipt, WORKFLOW_TAG};
use homestar_ledger::instruction::{Instruction, RunInstruction};
use homestar_ledger::pointer::Pointer;
use homestar_ledger::prf::UcanPrf;
use homestar_ledger::task::Task;
use homestar_ledger::value::{Value, ValueMap};
use homestar_ledger::workflow::Workflow;

fn map(entries: Vec<(&str, Value)>) -> Value {
    let mut m = ValueMap::new();
    for (k, v) in entries {
        m.insert(k.to_string(), v);
    }
    Value::StringMap(m)
}

fn resources() -> Value {
    map(vec![
        ("fuel", Value::Integer(u64::MAX.into())),
        ("time", Value::Integer(100_000)),
    ])
}

fn related_wasm_instructions() -> (Instruction, Instruction) {
    let resource =
        "ipfs://bafkreidztuwoszw2dfnzufjpsjmzj67x574qcdm2autnhnv43o3t4zmh7i".to_string();
    let first = Instruction::new(
        resource.clone(),
        "wasm/run".to_string(),
        map(vec![
            ("func", Value::text("add_one")),
            ("args", Value::List(vec![Value::Integer(1)])),
        ]),
    );
    let awaited = map(vec![(
        "await/ok",
        Value::Link(first.to_cid().unwrap()),
    )]);
    let second = Instruction::new(
        resource,
        "wasm/run".to_string(),
        map(vec![
            ("func", Value::text("add_one")),
            ("args", Value::List(vec![awaited])),
        ]),
    );
    (first, second)
}

fn workflow() -> (Workflow, Task, Task) {
    let config = resources();
    let (instruction1, instruction2) = related_wasm_instructions();
    let task1 = Task::new(
        RunInstruction::Expanded(instruction1),
        config.clone(),
        UcanPrf::default(),
    );
    let task2 = Task::new(
        RunInstruction::Expanded(instruction2),
        config,
        UcanPrf::default(),
    );
    (
        Workflow::new(vec![task1.clone(), task2.clone()]),
        task1,
        task2,
    )
}

#[test]
fn ipld_roundtrip_workflow_info() {
    let (workflow, task1, task2) = workflow();
    let mut workflow_info = Info::default(workflow.clone().to_cid().unwrap(), workflow.len());
    workflow_info.increment_progress(task1.to_cid().unwrap());
    workflow_info.increment_progress(task2.to_cid().unwrap());
    let ipld = workflow_info.clone().to_value();
    assert_eq!(workflow_info, Info::from_value(&ipld).unwrap());
}

#[test]
fn info_bytes_roundtrip() {
    let (workflow, task1, _) = workflow();
    let mut info = Info::default(workflow.to_cid().unwrap(), workflow.len());
    info.increment_progress(task1.to_cid().unwrap());
    let bytes = info.to_bytes().unwrap();
    assert_eq!(Info::from_bytes(&bytes).unwrap(), info);
    assert_eq!(bytes, encode(&info.to_value()).unwrap());
    assert_eq!(
        Info::from_bytes(&[0x80, 0x80]).err(),
        Some(LedgerError::Decoding(DecodeError::NotAMap))
    );
    assert_eq!(
        Info::from_bytes(&[0xa1]).err(),
        Some(LedgerError::Decoding(DecodeError::Malformed))
    );
}

#[test]
fn info_value_has_the_four_keys() {
    let cid = Cid::derive(b"workflow");
    let done = Cid::derive(b"task");
    let info = Info::new(cid.clone(), vec![done.clone()], 3);
    assert_eq!(
        info.to_value(),
        map(vec![
            ("cid", Value::Link(cid)),
            ("progress", Value::List(vec![Value::Link(done)])),
            ("progress_count", Value::Integer(1)),
            ("num_tasks", Value::Integer(3)),
        ])
    );
}

#[test]
fn new_counts_the_progress_and_default_has_none() {
    let cid = Cid::derive(b"workflow");
    let a = Cid::derive(b"a");
    let b = Cid::derive(b"b");
    let info = Info::new(cid.clone(), vec![a.clone(), b.clone(), a.clone()], 7);
    assert_eq!(info.cid(), cid);
    assert_eq!(info.progress(), &vec![a.clone(), b, a]);
    assert_eq!(info.progress_count(), 3);
    assert_eq!(info.num_tasks(), 7);
    let none = Info::default(cid.clone(), 7);
    assert_eq!(none.progress(), &Vec::<Cid>::new());
    assert_eq!(none.progress_count(), 0);
    assert_eq!(none.num_tasks(), 7);
    assert_eq!(none.cid_as_string(), cid.to_string());
    assert_eq!(none.cid_as_bytes(), cid.to_bytes());
}

#[test]
fn increment_progress_appends_and_raises_the_count() {
    let cid = Cid::derive(b"workflow");
    let a = Cid::derive(b"a");
    let b = Cid::derive(b"b");
    let mut info = Info::default(cid, 2);
    let before = info.progress_count();
    info.increment_progress(a.clone());
    assert!(info.progress_count() > before);
    assert_eq!(info.progress().last(), Some(&a));
    assert_eq!(info.progress_count(), 2);
    let before = info.progress_count();
    info.increment_progress(b.clone());
    assert!(info.progress_count() > before);
    assert_eq!(info.progress().last(), Some(&b));
    assert_eq!(info.progress(), &vec![a, b]);
    assert_eq!(info.progress_count(), 3);
    assert_eq!(info.num_tasks(), 2);
    assert!(info.progress_count() as usize >= info.progress().len());
}

#[test]
fn set_progress_count_is_independent_of_the_progress() {
    let cid = Cid::derive(b"workflow");
    let mut info = Info::default(cid.clone(), 5);
    info.set_progress_count(4);
    assert_eq!(info.progress_count(), 4);
    assert_eq!(info.progress(), &Vec::<Cid>::new());
    assert_eq!(info.num_tasks(), 5);
    assert_eq!(info.cid(), cid);
    assert_eq!(Info::from_value(&info.to_value()).unwrap(), info);
    info.increment_progress(Cid::derive(b"late"));
    assert_eq!(info.progress_count(), 5);
    assert_eq!(info.progress(), &vec![Cid::derive(b"late")]);
    assert_eq!(info.num_tasks(), 5);
}

#[test]
fn increment_progress_raises_a_count_that_was_set_above_the_progress() {
    let mut info = Info::default(Cid::derive(b"workflow"), 200);
    info.set_progress_count(100);
    for step in 0..3u32 {
        let before = info.progress_count();
        info.increment_progress(Cid::derive(&[step as u8]));
        assert_eq!(info.progress_count(), before + 1);
        assert!(info.progress_count() as usize >= info.progress().len());
    }
    assert_eq!(info.progress_count(), 103);
    assert_eq!(info.progress().len(), 3);
    let mut near_the_top = Info::default(Cid::derive(b"workflow"), 1);
    near_the_top.set_progress_count(u32::MAX - 1);
    near_the_top.increment_progress(Cid::derive(b"last"));
    assert_eq!(near_the_top.progress_count(), u32::MAX);
    assert_eq!(near_the_top.progress().last(), Some(&Cid::derive(b"last")));
}

#[test]
fn increment_progress_keeps_the_count_one_above_the_progress_where_it_was_not_set() {
    let mut info = Info::new(
        Cid::derive(b"workflow"),
        vec![Cid::derive(b"a"), Cid::derive(b"b")],
        9,
    );
    assert_eq!(info.progress_count(), 2);
    info.increment_progress(Cid::derive(b"c"));
    assert_eq!(info.progress_count(), 4);
    info.increment_progress(Cid::derive(b"d"));
    assert_eq!(info.progress_count(), 5);
    assert_eq!(info.progress().len(), 4);
}

#[test]
fn info_decoding_names_what_is_missing_or_misshapen() {
    let cid = Cid::derive(b"workflow");
    let full = vec![
        ("cid", Value::Link(cid.clone())),
        ("progress", Value::List(vec![])),
        ("progress_count", Value::Integer(0)),
        ("num_tasks", Value::Integer(2)),
    ];
    let cases = [
        ("cid", Field::Cid),
        ("progress", Field::Progress),
        ("progress_count", Field::ProgressCount),
        ("num_tasks", Field::NumTasks),
    ];
    for (key, field) in cases {
        let rest: Vec<(&str, Value)> = full.iter().filter(|(k, _)| *k != key).cloned().collect();
        assert_eq!(
            Info::from_value(&map(rest.clone())),
            Err(DecodeError::MissingField(field))
        );
        let mut odd = rest;
        odd.push((key, Value::Bool(false)));
        assert_eq!(
            Info::from_value(&map(odd)),
            Err(DecodeError::WrongShape(field))
        );
    }
    let mut too_large: Vec<(&str, Value)> = full
        .iter()
        .filter(|(k, _)| *k != "num_tasks")
        .cloned()
        .collect();
    too_large.push(("num_tasks", Value::Integer(u32::MAX as i128 + 1)));
    assert_eq!(
        Info::from_value(&map(too_large)),
        Err(DecodeError::WrongShape(Field::NumTasks))
    );
    let mut negative: Vec<(&str, Value)> = full
        .iter()
        .filter(|(k, _)| *k != "progress_count")
        .cloned()
        .collect();
    negative.push(("progress_count", Value::Integer(-1)));
    assert_eq!(
        Info::from_value(&map(negative)),
        Err(DecodeError::WrongShape(Field::ProgressCount))
    );
    let mut largest: Vec<(&str, Value)> = full
        .iter()
        .filter(|(k, _)| *k != "num_tasks")
        .cloned()
        .collect();
    largest.push(("num_tasks", Value::Integer(u32::MAX as i128)));
    assert_eq!(
        Info::from_value(&map(largest)).unwrap().num_tasks(),
        u32::MAX
    );
    assert_eq!(Info::from_value(&Value::Null), Err(DecodeError::NotAMap));
}

#[test]
fn capsule_wraps_the_record_under_the_workflow_tag() {
    let info = Info::new(Cid::derive(b"workflow"), vec![Cid::derive(b"t")], 2);
    let bytes = info.capsule().unwrap();
    assert_eq!(WORKFLOW_TAG, "ipvm/workflow");
    assert_eq!(
        decode(&bytes).unwrap(),
        map(vec![("ipvm/workflow", info.to_value())])
    );
    assert_ne!(bytes, info.to_bytes().unwrap());
}

#[test]
fn stored_projection_holds_identifier_and_task_count() {
    let cid = Cid::derive(b"workflow");
    let stored = Stored::new(Pointer::new(cid.clone()), 2);
    assert_eq!(stored.cid(), &Pointer::new(cid.clone()));
    assert_eq!(stored.num_tasks(), 2);
    assert_eq!(Info::default(cid.clone(), 2).to_stored(), stored);
    assert_eq!(
        Info::default(cid.clone(), u32::MAX).to_stored().num_tasks(),
        -1
    );
    let link = StoredReceipt::new(
        Pointer::new(cid.clone()),
        Pointer::new(Cid::derive(b"receipt")),
    );
    assert_eq!(link.workflow_cid(), &Pointer::new(cid));
    assert_eq!(
        link.receipt_cid(),
        &Pointer::new(Cid::derive(b"receipt"))
    );
}

#[test]
fn workflow_length_and_identifier() {
    let (workflow, task1, task2) = workflow();
    assert_eq!(workflow.len(), 2);
    assert_eq!(workflow.tasks(), &vec![task1.clone(), task2.clone()]);
    assert_eq!(
        workflow.to_value(),
        map(vec![(
            "tasks",
            Value::List(vec![task1.to_value(), task2.to_value()])
        )])
    );
    let other_order = Workflow::new(vec![task2, task1]);
    assert_ne!(
        workflow.to_cid().unwrap(),
        other_order.to_cid().unwrap()
    );
    assert_eq!(
        workflow.to_cid().unwrap(),
        workflow.clone().to_cid().unwrap()
    );
    assert_eq!(Workflow::new(vec![]).len(), 0);
}
