use crossbeam::channel::{bounded, TryRecvError};
use std::sync::Mutex;

use tx_generator::dispatch::{
    batch_rate, is_report_point, next_action, report_line, QueueEvent, ThroughputReport,
    ThroughputWindow, WorkerAction, BATCH_SIZE,
};

#[test]
fn worker_acts_on_each_answer() {
    match next_action(QueueEvent::Received("x".to_string())) {
        WorkerAction::Submit(s) => assert_eq!(s, "x"),
        other => panic!("{:?}", other),
    }
    assert!(matches!(next_action(QueueEvent::Empty), WorkerAction::PollAgain));
    assert!(matches!(next_action(QueueEvent::Closed), WorkerAction::Stop));
}

#[test]
fn report_points_are_positive_multiples_of_the_batch() {
    assert!(!is_report_point(0));
    assert!(!is_report_point(1));
    assert!(!is_report_point(BATCH_SIZE - 1));
    assert!(is_report_point(BATCH_SIZE));
    assert!(!is_report_point(BATCH_SIZE + 1));
    assert!(is_report_point(3 * BATCH_SIZE));
}

#[test]
fn rate_of_a_batch() {
    assert_eq!(batch_rate(0), None);
    assert_eq!(batch_rate(1000), Some(10_000));
    assert_eq!(batch_rate(3), Some(3_333_333));
}

#[test]
fn window_reports_at_batch_and_moves() {
    let mut w = ThroughputWindow::new(1_000);
    assert_eq!(w.on_submission(5, 1_200), None);
    let rep = w.on_submission(BATCH_SIZE, 3_000).unwrap();
    assert_eq!(rep, ThroughputReport { transactions: BATCH_SIZE, elapsed_ms: 2_000, rate: Some(5_000) });
    let rep = w.on_submission(2 * BATCH_SIZE, 3_000).unwrap();
    assert_eq!(rep.elapsed_ms, 0);
    assert_eq!(rep.rate, None);
    let rep = w.on_submission(3 * BATCH_SIZE, 2_500).unwrap();
    assert_eq!(rep.elapsed_ms, 0);
    let rep = w.on_submission(4 * BATCH_SIZE, 3_500).unwrap();
    assert_eq!(rep.elapsed_ms, 1_000);
}

#[test]
fn report_line_text() {
    let rep = ThroughputReport { transactions: 10_000, elapsed_ms: 2_000, rate: Some(5_000) };
    assert_eq!(report_line(&rep), "10000 transactions were sent. Time: 2000 ms. RPS: 5000");
    let rep = ThroughputReport { transactions: 10_000, elapsed_ms: 0, rate: None };
    assert_eq!(report_line(&rep), "10000 transactions were sent. Time: 0 ms. RPS: unknown");
}

#[test]
fn two_workers_share_a_queue_of_one() {
    let (tx, rx) = bounded::<String>(1);
    let delivered = Mutex::new(Vec::new());
    crossbeam::scope(|scope| {
        scope.spawn(move |_| {
            for i in 0..10 {
                tx.send(format!("item{}", i)).unwrap();
            }
        });
        for worker in 0..2 {
            let rx = rx.clone();
            let delivered = &delivered;
            scope.spawn(move |_| loop {
                let event = match rx.try_recv() {
                    Ok(e) => QueueEvent::Received(e),
                    Err(TryRecvError::Empty) => QueueEvent::Empty,
                    Err(TryRecvError::Disconnected) => QueueEvent::Closed,
                };
                match next_action(event) {
                    WorkerAction::Submit(e) => delivered.lock().unwrap().push((worker, e)),
                    WorkerAction::PollAgain => std::hint::spin_loop(),
                    WorkerAction::Stop => break,
                }
            });
        }
    })
    .unwrap();
    let mut items = delivered.into_inner().unwrap().into_iter().map(|(_, e)| e).collect::<Vec<_>>();
    items.sort();
    let mut expected = (0..10).map(|i| format!("item{}", i)).collect::<Vec<_>>();
    expected.sort();
    assert_eq!(items, expected);
}
