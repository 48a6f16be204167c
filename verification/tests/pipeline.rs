//! Tests for the load-generation pipeline: the task model, the queue's
//! delivery discipline, the worker state machine, the generator tick, and
//! the pool startup policy.

use loadgen::generator::{generate_task, generator_tick};
use loadgen::pool::{
    default_endpoint, pool_size, review_startup, worker_ids, ConnectionError, Mode,
};
use loadgen::queue::{DequeueResult, EnqueueError, TaskQueue};
use loadgen::task::{Address, Slot, Task, ADDRESS_BYTES};
use loadgen::worker::{worker_step, CallOutcome, WorkerAction, WorkerEvent, WorkerState};

fn sample_address(fill: u8) -> Address {
    Address::new(vec![fill; ADDRESS_BYTES])
}

fn sample_task(fill: u8, limb: u64) -> Task {
    Task::new(sample_address(fill), Slot::from_limbs(limb, 0, 0, 0))
}

#[test]
fn slot_keeps_limbs_in_order() {
    let s = Slot::from_limbs(1, 2, 3, 4);
    assert_eq!(s.limb0, 1);
    assert_eq!(s.limb1, 2);
    assert_eq!(s.limb2, 3);
    assert_eq!(s.limb3, 4);
}

#[test]
fn slot_limb_order_matches_the_wire_type() {
    // The wire type concatenates limbs least significant first; the slot
    // must follow the same convention.
    let s = Slot::from_limbs(1, 2, 3, 4);
    let u = alloy::primitives::U256::from_limbs([s.limb0, s.limb1, s.limb2, s.limb3]);
    assert_eq!(
        format!("{u:#x}"),
        "0x4000000000000000300000000000000020000000000000001"
    );
}

#[test]
fn address_keeps_its_bytes() {
    let a = Address::new((0u8..ADDRESS_BYTES as u8).collect());
    assert_eq!(a.bytes.len(), ADDRESS_BYTES);
    assert_eq!(a.bytes[0], 0);
    assert_eq!(a.bytes[19], 19);
}

#[test]
fn task_pairs_address_and_slot() {
    let t = sample_task(7, 99);
    assert_eq!(t.address.bytes, vec![7u8; ADDRESS_BYTES]);
    assert_eq!(t.slot, Slot::from_limbs(99, 0, 0, 0));
}

#[test]
fn queue_hands_tasks_out_in_order_exactly_once() {
    let mut q = TaskQueue::new();
    assert_eq!(q.len(), 0);
    q.enqueue(sample_task(1, 10)).unwrap();
    q.enqueue(sample_task(2, 20)).unwrap();
    q.enqueue(sample_task(3, 30)).unwrap();
    assert_eq!(q.len(), 3);

    let mut seen: Vec<u64> = Vec::new();
    for _ in 0..3 {
        match q.dequeue() {
            DequeueResult::Item { task } => seen.push(task.slot.limb0),
            _ => panic!("expected a task"),
        }
    }
    assert_eq!(seen, vec![10, 20, 30]);
    assert_eq!(q.len(), 0);
    assert!(matches!(q.dequeue(), DequeueResult::WouldWait));
}

#[test]
fn closed_queue_drains_then_ends() {
    let mut q = TaskQueue::new();
    q.enqueue(sample_task(1, 1)).unwrap();
    q.close();
    match q.dequeue() {
        DequeueResult::Item { task } => assert_eq!(task.slot.limb0, 1),
        _ => panic!("a closed queue still drains its pending tasks"),
    }
    assert!(matches!(q.dequeue(), DequeueResult::EndOfStream));
    assert!(matches!(q.dequeue(), DequeueResult::EndOfStream));
}

#[test]
fn enqueue_after_close_reports_no_consumers() {
    let mut q = TaskQueue::new();
    q.close();
    let r = q.enqueue(sample_task(1, 1));
    assert_eq!(r, Err(EnqueueError::QueueClosedWithNoConsumers));
    assert_eq!(q.len(), 0);
}

#[test]
fn generated_tasks_are_well_formed() {
    for _ in 0..64 {
        let t = generate_task();
        assert_eq!(t.address.bytes.len(), ADDRESS_BYTES);
    }
}

#[test]
fn generated_limbs_show_no_gross_bias() {
    // A light distribution check: over many draws, each limb position and
    // the address bytes must take more than one value, and the four limbs of
    // one slot must not all repeat each other systematically.
    let mut distinct0 = std::collections::HashSet::new();
    let mut distinct3 = std::collections::HashSet::new();
    let mut all_limbs_equal = 0usize;
    let mut distinct_addresses = std::collections::HashSet::new();
    for _ in 0..256 {
        let t = generate_task();
        distinct0.insert(t.slot.limb0);
        distinct3.insert(t.slot.limb3);
        if t.slot.limb0 == t.slot.limb1
            && t.slot.limb1 == t.slot.limb2
            && t.slot.limb2 == t.slot.limb3
        {
            all_limbs_equal += 1;
        }
        distinct_addresses.insert(t.address.bytes.clone());
    }
    assert!(distinct0.len() > 200);
    assert!(distinct3.len() > 200);
    assert!(all_limbs_equal == 0);
    assert!(distinct_addresses.len() > 200);
}

#[test]
fn generator_tick_grows_open_queue_by_one() {
    let mut q = TaskQueue::new();
    assert!(generator_tick(&mut q).is_ok());
    assert!(generator_tick(&mut q).is_ok());
    assert_eq!(q.len(), 2);
    match q.dequeue() {
        DequeueResult::Item { task } => assert_eq!(task.address.bytes.len(), ADDRESS_BYTES),
        _ => panic!("expected the first generated task"),
    }
}

#[test]
fn generator_tick_on_closed_queue_is_fatal() {
    let mut q = TaskQueue::new();
    q.close();
    assert_eq!(
        generator_tick(&mut q),
        Err(EnqueueError::QueueClosedWithNoConsumers)
    );
    assert_eq!(q.len(), 0);
}

#[test]
fn worker_issues_call_then_logs_success() {
    // Scenario: the provider answers instantly for one generated task; the
    // one success line references that task's address, slot, and a
    // non-negative duration.
    let a = sample_address(0xAB);
    let s = Slot::from_limbs(5, 6, 7, 8);
    let t = Task::new(Address::new(a.bytes.clone()), s);

    let (st, act) = worker_step(0, WorkerState::Idle, WorkerEvent::TaskArrived { task: t });
    assert!(matches!(act, WorkerAction::IssueCall));
    match &st {
        WorkerState::Processing { task } => assert_eq!(task.slot, s),
        _ => panic!("the worker should be processing the task"),
    }

    let (st, act) = worker_step(
        0,
        st,
        WorkerEvent::CallReturned { outcome: CallOutcome::Returned { elapsed_micros: 1500 } },
    );
    assert!(matches!(st, WorkerState::Idle));
    match act {
        WorkerAction::LogSuccess { worker, address, slot, elapsed_micros } => {
            assert_eq!(worker, 0);
            assert_eq!(address.bytes, a.bytes);
            assert_eq!(slot, s);
            assert_eq!(elapsed_micros, 1500);
        }
        _ => panic!("expected the success log line"),
    }
}

#[test]
fn worker_survives_a_failed_call() {
    // Scenario: the provider fails call one and answers call two; both
    // outcomes are observed and the worker is never marked failed.
    let (st, act) = worker_step(
        4,
        WorkerState::Idle,
        WorkerEvent::TaskArrived { task: sample_task(1, 1) },
    );
    assert!(matches!(act, WorkerAction::IssueCall));
    match &st {
        WorkerState::Processing { task } => {
            assert_eq!(task.address.bytes, vec![1u8; ADDRESS_BYTES]);
            assert_eq!(task.slot, Slot::from_limbs(1, 0, 0, 0));
        }
        _ => panic!("the worker should be processing the failing task"),
    }
    let (st, act) = worker_step(
        4,
        st,
        WorkerEvent::CallReturned {
            outcome: CallOutcome::Failed { detail: String::from("no such slot") },
        },
    );
    assert!(matches!(st, WorkerState::Idle));
    match act {
        WorkerAction::LogFailure { worker, detail } => {
            assert_eq!(worker, 4);
            assert_eq!(detail, "no such slot");
        }
        _ => panic!("expected the error log line"),
    }

    let (st, act) = worker_step(4, st, WorkerEvent::TaskArrived { task: sample_task(2, 2) });
    assert!(matches!(act, WorkerAction::IssueCall));
    match &st {
        WorkerState::Processing { task } => assert_eq!(task.slot.limb0, 2),
        _ => panic!("the worker must take up the next task after a failure"),
    }
    let (st, act) = worker_step(
        4,
        st,
        WorkerEvent::CallReturned { outcome: CallOutcome::Returned { elapsed_micros: 3 } },
    );
    assert!(matches!(st, WorkerState::Idle));
    assert!(matches!(act, WorkerAction::LogSuccess { .. }));
}

#[test]
fn worker_finishes_exactly_once_on_end_of_stream() {
    let (st, act) = worker_step(2, WorkerState::Idle, WorkerEvent::StreamEnded);
    assert!(matches!(st, WorkerState::Terminated));
    match act {
        WorkerAction::LogFinished { worker } => assert_eq!(worker, 2),
        _ => panic!("expected the finished notice"),
    }

    // A terminated worker is silent: no second finished notice, no further
    // call-result events.
    let (st, act) = worker_step(2, st, WorkerEvent::StreamEnded);
    assert!(matches!(st, WorkerState::Terminated));
    assert!(matches!(act, WorkerAction::Nothing));
    let (st, act) = worker_step(
        2,
        st,
        WorkerEvent::CallReturned { outcome: CallOutcome::Returned { elapsed_micros: 1 } },
    );
    assert!(matches!(st, WorkerState::Terminated));
    assert!(matches!(act, WorkerAction::Nothing));
}

#[test]
fn default_endpoints_per_mode() {
    assert_eq!(default_endpoint(Mode::Direct), "http://localhost:15014");
    assert_eq!(default_endpoint(Mode::Persistent), "ws://localhost:16014");
}

#[test]
fn pool_runs_one_worker_per_unit() {
    let n = pool_size();
    assert!(n >= 1);
    let ids = worker_ids(n);
    assert_eq!(ids.len(), n);
    for (i, id) in ids.iter().enumerate() {
        assert_eq!(*id, i);
    }
}

#[test]
fn startup_approved_when_every_connection_succeeds() {
    let r = review_startup(vec![Ok(()), Ok(()), Ok(())]);
    assert_eq!(r.unwrap(), 3);
}

#[test]
fn startup_refused_on_first_connection_failure() {
    let r = review_startup(vec![
        Ok(()),
        Err(ConnectionError::InvalidEndpoint { detail: String::from("bad url") }),
        Err(ConnectionError::HandshakeFailed { detail: String::from("unreachable") }),
    ]);
    match r {
        Err(ConnectionError::InvalidEndpoint { detail }) => assert_eq!(detail, "bad url"),
        _ => panic!("startup must surface the first construction failure"),
    }
}

#[test]
fn startup_refused_on_failed_handshake() {
    let r = review_startup(vec![
        Err(ConnectionError::HandshakeFailed { detail: String::from("unreachable") }),
        Ok(()),
    ]);
    match r {
        Err(ConnectionError::HandshakeFailed { detail }) => assert_eq!(detail, "unreachable"),
        _ => panic!("startup must surface the handshake failure"),
    }
}
