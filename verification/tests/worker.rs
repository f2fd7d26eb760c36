use aircontrol::worker::{CYCLE_PAUSE_MS, READ_TIMEOUT_MS};
use aircontrol::{ReadOutcome, Worker, WorkerAction, WorkerEvent, WorkerPhase};

fn report(tag: u8, value: u16) -> WorkerEvent {
    WorkerEvent::Read(ReadOutcome::Report([
        tag,
        (value >> 8) as u8,
        (value & 0xff) as u8,
        0,
        0,
        0,
        0,
        0,
    ]))
}

fn run_cycle(worker: &mut Worker, running: bool) -> WorkerAction {
    assert!(matches!(worker.step(report(0x50, 300), running), WorkerAction::Read));
    assert!(matches!(worker.step(report(0x42, 4881), running), WorkerAction::Read));
    worker.step(report(0x41, 5000), running)
}

#[test]
fn cadence_constants() {
    assert_eq!(READ_TIMEOUT_MS, 10000);
    assert_eq!(CYCLE_PAUSE_MS, 100);
}

#[test]
fn new_worker_waits_at_the_top() {
    let worker = Worker::new();
    assert_eq!(worker.phase(), WorkerPhase::Waiting);
}

#[test]
fn worker_exits_at_once_when_not_running() {
    let mut worker = Worker::new();
    assert!(matches!(worker.step(WorkerEvent::Wake, false), WorkerAction::Exit));
    assert_eq!(worker.phase(), WorkerPhase::Exited);
}

#[test]
fn worker_reads_then_dispatches() {
    let mut worker = Worker::new();
    assert!(matches!(worker.step(WorkerEvent::Wake, true), WorkerAction::Read));
    assert_eq!(worker.phase(), WorkerPhase::Assembling);
    match run_cycle(&mut worker, true) {
        WorkerAction::Dispatch(data) => {
            assert_eq!(data.co2(), 300);
            assert_eq!(data.temperature(), 3191);
            assert_eq!(data.humidity(), 5000);
        }
        other => panic!("{:?}", other),
    }
    assert_eq!(worker.phase(), WorkerPhase::Waiting);
    assert!(matches!(worker.step(WorkerEvent::Wake, true), WorkerAction::Read));
}

#[test]
fn stop_inside_a_cycle_lets_it_finish_once() {
    let mut worker = Worker::new();
    assert!(matches!(worker.step(WorkerEvent::Wake, true), WorkerAction::Read));
    assert!(matches!(worker.step(report(0x50, 300), true), WorkerAction::Read));
    // the flag goes off in the middle of the cycle
    assert!(matches!(worker.step(report(0x42, 4881), false), WorkerAction::Read));
    assert!(matches!(worker.step(WorkerEvent::Read(ReadOutcome::Timeout), false), WorkerAction::Read));
    assert!(matches!(worker.step(report(0x41, 5000), false), WorkerAction::Dispatch(_)));
    assert!(matches!(worker.step(WorkerEvent::Wake, false), WorkerAction::Exit));
    assert_eq!(worker.phase(), WorkerPhase::Exited);
    assert!(matches!(worker.step(report(0x41, 5000), false), WorkerAction::Exit));
}

#[test]
fn exited_worker_stays_exited() {
    let mut worker = Worker::new();
    worker.step(WorkerEvent::Wake, false);
    assert!(matches!(worker.step(WorkerEvent::Wake, true), WorkerAction::Exit));
    assert!(matches!(worker.step(report(0x50, 1), true), WorkerAction::Exit));
    assert_eq!(worker.phase(), WorkerPhase::Exited);
}

#[test]
fn fault_ends_the_worker() {
    let mut worker = Worker::new();
    worker.step(WorkerEvent::Wake, true);
    worker.step(report(0x50, 300), true);
    let fault = WorkerEvent::Read(ReadOutcome::Fault(String::from("no such device")));
    match worker.step(fault, true) {
        WorkerAction::Fail(text) => assert_eq!(text, "no such device"),
        other => panic!("{:?}", other),
    }
    assert_eq!(worker.phase(), WorkerPhase::Exited);
    assert!(matches!(worker.step(WorkerEvent::Wake, true), WorkerAction::Exit));
}

#[test]
fn timeouts_keep_the_worker_reading() {
    let mut worker = Worker::new();
    worker.step(WorkerEvent::Wake, true);
    let mut n: u32 = 0;
    while n < 5 {
        assert!(matches!(
            worker.step(WorkerEvent::Read(ReadOutcome::Timeout), true),
            WorkerAction::Read
        ));
        n += 1;
    }
    assert_eq!(worker.phase(), WorkerPhase::Assembling);
}

#[test]
fn stray_wake_inside_a_cycle_asks_for_a_read() {
    let mut worker = Worker::new();
    worker.step(WorkerEvent::Wake, true);
    worker.step(report(0x50, 300), true);
    assert!(matches!(worker.step(WorkerEvent::Wake, true), WorkerAction::Read));
    worker.step(report(0x42, 4881), true);
    match worker.step(report(0x41, 5000), true) {
        WorkerAction::Dispatch(data) => assert_eq!(data.co2(), 300),
        other => panic!("{:?}", other),
    }
}

#[test]
fn each_cycle_starts_from_nothing() {
    let mut worker = Worker::new();
    worker.step(WorkerEvent::Wake, true);
    assert!(matches!(run_cycle(&mut worker, true), WorkerAction::Dispatch(_)));
    assert!(matches!(worker.step(WorkerEvent::Wake, true), WorkerAction::Read));
    // one report is not enough for the second reading
    assert!(matches!(worker.step(report(0x41, 5000), true), WorkerAction::Read));
    assert!(matches!(worker.step(report(0x50, 301), true), WorkerAction::Read));
    match worker.step(report(0x42, 4882), true) {
        WorkerAction::Dispatch(data) => {
            assert_eq!(data.co2(), 301);
            assert_eq!(data.temperature(), 3198);
        }
        other => panic!("{:?}", other),
    }
}
