use kv_workload::client::{Client, ServerMessage};
use kv_workload::executor::Operation;
use kv_workload::kv::{decimal_string, parse_read_consistency, ConsistencyLevel};
use kv_workload::workload::{classify_tick, draw_sample, WorkloadPhase, RATIO_SCALE};

fn phase(ratio: u64, delay: u64, duration: u64) -> WorkloadPhase {
    WorkloadPhase::new(ratio, delay, duration).unwrap()
}

fn started(phases: Vec<WorkloadPhase>, level: ConsistencyLevel) -> Client {
    let mut c = Client::new(phases, level);
    assert_eq!(c.on_start_signal(1_000, 1_000), 0);
    c.release();
    c
}

#[test]
fn decimal_text_of_ids() {
    assert_eq!(decimal_string(0), "0");
    assert_eq!(decimal_string(7), "7");
    assert_eq!(decimal_string(10), "10");
    assert_eq!(decimal_string(1234567), "1234567");
    assert_eq!(decimal_string(u64::MAX), u64::MAX.to_string());
}

#[test]
fn read_consistency_names() {
    assert_eq!(parse_read_consistency("leader"), ConsistencyLevel::Leader);
    assert_eq!(parse_read_consistency("linearizable"), ConsistencyLevel::Linearizable);
    assert_eq!(parse_read_consistency("local"), ConsistencyLevel::Local);
    assert_eq!(parse_read_consistency(""), ConsistencyLevel::Local);
    assert_eq!(parse_read_consistency("Leader"), ConsistencyLevel::Local);
}

#[test]
fn phase_validation() {
    assert!(WorkloadPhase::new(RATIO_SCALE + 1, 10, 100).is_none());
    assert!(WorkloadPhase::new(500_000, 0, 100).is_none());
    assert!(WorkloadPhase::new(500_000, 10, 0).is_none());
    let p = WorkloadPhase::new(RATIO_SCALE, 10, 100).unwrap();
    assert_eq!(p.get_read_ratio(), RATIO_SCALE);
    assert_eq!(p.get_request_delay(), 10);
    assert_eq!(p.get_interval_duration(), 100);
}

#[test]
fn tick_classification_edges() {
    assert!(classify_tick(0, 0));
    assert!(classify_tick(RATIO_SCALE - 1, 0));
    assert!(!classify_tick(RATIO_SCALE - 1, RATIO_SCALE));
    assert!(!classify_tick(249_999, 250_000));
    assert!(classify_tick(250_000, 250_000));
}

#[test]
fn read_share_over_all_samples() {
    let reads = (0..RATIO_SCALE).filter(|s| !classify_tick(*s, 250_000)).count();
    assert_eq!(reads, 250_000);
}

#[test]
fn samples_stay_below_scale() {
    for _ in 0..1000 {
        assert!(draw_sample() < RATIO_SCALE);
    }
}

#[test]
fn write_only_phase_issues_leader_writes() {
    let mut c = started(vec![phase(0, 10, 100)], ConsistencyLevel::Linearizable);
    let mut writes = 0;
    for _ in 0..10 {
        let r = c.on_request_tick(draw_sample()).unwrap();
        assert!(r.is_write);
        assert_eq!(r.command.consistency, ConsistencyLevel::Leader);
        match &r.command.op {
            Operation::Put { key, value } => {
                assert_eq!(*key, r.request_id.to_string());
                assert_eq!(*value, r.request_id.to_string());
            }
            Operation::Get { .. } => panic!("read in a write-only phase"),
        }
        writes += 1;
    }
    assert_eq!(writes, 10);
    assert_eq!(c.on_phase_tick(), None);
    assert_eq!(c.final_request_count(), Some(10));
    assert!(c.on_request_tick(0).is_none());
    assert_eq!(c.request_count(), 10);
}

#[test]
fn read_phase_uses_configured_level() {
    let mut c = started(vec![phase(RATIO_SCALE, 10, 100)], ConsistencyLevel::Linearizable);
    let r = c.on_request_tick(RATIO_SCALE - 1).unwrap();
    assert!(!r.is_write);
    assert_eq!(r.command.consistency, ConsistencyLevel::Linearizable);
    match &r.command.op {
        Operation::Get { key } => assert_eq!(key, "0"),
        Operation::Put { .. } => panic!("write in a read-only phase"),
    }
}

#[test]
fn nothing_issued_before_barrier_release() {
    let mut c = Client::new(vec![phase(0, 10, 100)], ConsistencyLevel::Local);
    let now: i64 = 1_700_000_000_000;
    assert_eq!(c.on_start_signal(now + 2000, now), 2000);
    assert_eq!(c.sync_offset(), Some(2000));
    for _ in 0..5 {
        assert!(c.on_request_tick(0).is_none());
        assert_eq!(c.on_phase_tick(), None);
    }
    assert_eq!(c.request_count(), 0);
    assert_eq!(c.release(), Some(phase(0, 10, 100)));
    assert_eq!(c.on_request_tick(0).unwrap().request_id, 0);
}

#[test]
fn missed_barrier_starts_at_once() {
    let mut c = Client::new(vec![phase(0, 10, 100)], ConsistencyLevel::Local);
    assert_eq!(c.on_start_signal(1_000, 1_500), 0);
    assert_eq!(c.sync_offset(), Some(-500));
    assert_eq!(c.on_start_signal(i64::MAX, i64::MIN), u64::MAX);
}

#[test]
fn request_ids_strictly_increase() {
    let mut c = started(vec![phase(500_000, 1, 100)], ConsistencyLevel::Local);
    let mut last: Option<u64> = None;
    for i in 0..50u64 {
        let r = c.on_request_tick(i * 20_000).unwrap();
        assert_eq!(r.request_id, i);
        if let Some(prev) = last {
            assert!(r.request_id > prev);
        }
        last = Some(r.request_id);
        c.handle_server_message(&ServerMessage::Write(r.request_id));
    }
    assert_eq!(c.request_count(), 50);
}

#[test]
fn phases_advance_in_order() {
    let first = phase(0, 10, 100);
    let second = phase(RATIO_SCALE, 20, 200);
    let mut c = started(vec![first, second], ConsistencyLevel::Local);
    assert_eq!(c.current_phase(), Some(first));
    assert!(c.on_request_tick(5).unwrap().is_write);
    assert_eq!(c.on_phase_tick(), Some(second));
    assert_eq!(c.current_phase(), Some(second));
    assert!(!c.on_request_tick(5).unwrap().is_write);
    assert_eq!(c.final_request_count(), None);
    assert_eq!(c.on_phase_tick(), None);
    assert_eq!(c.final_request_count(), Some(2));
}

#[test]
fn target_is_set_once_and_finishes_on_responses() {
    let mut c = started(vec![phase(0, 10, 100)], ConsistencyLevel::Local);
    for _ in 0..3 {
        c.on_request_tick(0).unwrap();
    }
    assert!(!c.run_finished());
    c.on_phase_tick();
    assert_eq!(c.final_request_count(), Some(3));
    c.on_phase_tick();
    assert_eq!(c.final_request_count(), Some(3));
    c.handle_server_message(&ServerMessage::StartSignal(5));
    assert_eq!(c.response_count(), 0);
    c.handle_server_message(&ServerMessage::Write(0));
    c.handle_server_message(&ServerMessage::Read(1, Some("1".to_string())));
    assert!(!c.run_finished());
    c.handle_server_message(&ServerMessage::Read(2, None));
    assert_eq!(c.response_count(), 3);
    assert!(c.run_finished());
    assert_eq!(c.final_request_count(), Some(3));
}

#[test]
fn empty_schedule_finishes_at_release() {
    let mut c = Client::new(vec![], ConsistencyLevel::Local);
    assert!(!c.run_finished());
    c.on_start_signal(0, 0);
    assert_eq!(c.release(), None);
    assert_eq!(c.final_request_count(), Some(0));
    assert!(c.run_finished());
    assert!(c.on_request_tick(0).is_none());
    assert_eq!(c.release(), None);
}
