use sender_stage::event::{Event, Notice, StreamStatus};
use sender_stage::machine::{Action, Input, Output, Phase, SenderLoop};

fn feed(m: &mut SenderLoop, input: Input, log: &mut Vec<Notice>) -> Output {
    assert!(m.accepts(&input));
    let out = m.step(input);
    log.extend(out.notices.iter().copied());
    out
}

/// Feeds one payload; returns the bytes the loop asked to write, if any.
fn deliver(m: &mut SenderLoop, stream: i16, bytes: Vec<u8>, reporter: u8, log: &mut Vec<Notice>) -> Option<Vec<u8>> {
    let out = feed(m, Input::Received(Event::payload(stream, bytes, reporter)), log);
    assert!(out.notices.is_empty());
    match out.action {
        Action::Write(p) => Some(p),
        Action::Receive => None,
        _ => panic!("unexpected action"),
    }
}

fn finish(m: &mut SenderLoop, log: &mut Vec<Notice>) {
    let out = feed(m, Input::QueueEnded, log);
    assert!(matches!(out.action, Action::Shutdown));
    let out = feed(m, Input::ShutDown, log);
    assert!(matches!(out.action, Action::Finish));
    assert_eq!(m.phase(), Phase::Terminated);
}

fn status(reporter_id: u8, status: StreamStatus) -> Notice {
    Notice::Status { reporter_id, status }
}

fn checkpoint(reporter_id: u8, session_id: usize) -> Notice {
    Notice::CheckPoint { reporter_id, session_id }
}

#[test]
fn write_error_on_third_payload() {
    let mut m = SenderLoop::new(9, vec![0, 1]);
    let mut log = Vec::new();
    let mut socket: Vec<Vec<u8>> = Vec::new();
    let reporters = [0u8, 0, 1, 1, 1];
    for (k, r) in reporters.iter().enumerate() {
        let bytes = vec![k as u8 + 1; 2];
        match deliver(&mut m, k as i16 + 1, bytes, *r, &mut log) {
            Some(p) => {
                let ok = socket.len() < 2;
                socket.push(p);
                let out = feed(&mut m, Input::Written(ok), &mut log);
                assert_eq!(out.close_queue, !ok);
                assert!(matches!(out.action, Action::Receive));
            }
            None => assert!(k >= 3),
        }
    }
    assert_eq!(socket, vec![vec![1, 1], vec![2, 2], vec![3, 3]]);
    finish(&mut m, &mut log);
    assert_eq!(
        log,
        vec![
            status(0, StreamStatus::Written(1)),
            status(0, StreamStatus::Written(2)),
            status(1, StreamStatus::Failed(3)),
            checkpoint(0, 9),
            checkpoint(1, 9),
        ]
    );
}

#[test]
fn immediate_close_sends_only_checkpoints() {
    let mut m = SenderLoop::new(4, vec![0, 1]);
    let mut log = Vec::new();
    finish(&mut m, &mut log);
    assert_eq!(log, vec![checkpoint(0, 4), checkpoint(1, 4)]);
}

#[test]
fn immediate_close_with_empty_registry() {
    let mut m = SenderLoop::new(4, vec![]);
    let mut log = Vec::new();
    finish(&mut m, &mut log);
    assert!(log.is_empty());
}

#[test]
fn payloads_written_in_arrival_order() {
    let mut m = SenderLoop::new(1, vec![3]);
    let mut log = Vec::new();
    let mut bytes: Vec<u8> = Vec::new();
    let payloads = vec![vec![1u8, 2, 3], vec![], vec![4u8], vec![5u8, 6]];
    for (k, p) in payloads.iter().enumerate() {
        let w = deliver(&mut m, k as i16, p.clone(), 3, &mut log).unwrap();
        bytes.extend(w);
        feed(&mut m, Input::Written(true), &mut log);
    }
    assert_eq!(bytes, vec![1, 2, 3, 4, 5, 6]);
    finish(&mut m, &mut log);
}

#[test]
fn each_payload_gets_one_status_for_its_stream() {
    let mut m = SenderLoop::new(2, vec![5, 6]);
    let mut log = Vec::new();
    deliver(&mut m, -7, vec![0], 6, &mut log).unwrap();
    feed(&mut m, Input::Written(true), &mut log);
    deliver(&mut m, 12, vec![0], 5, &mut log).unwrap();
    feed(&mut m, Input::Written(true), &mut log);
    deliver(&mut m, 13, vec![0], 6, &mut log).unwrap();
    feed(&mut m, Input::Written(false), &mut log);
    assert_eq!(
        log,
        vec![
            status(6, StreamStatus::Written(-7)),
            status(5, StreamStatus::Written(12)),
            status(6, StreamStatus::Failed(13)),
        ]
    );
}

#[test]
fn checkpoints_follow_all_statuses() {
    let mut m = SenderLoop::new(3, vec![0, 1]);
    let mut log = Vec::new();
    for r in [1u8, 0, 1] {
        deliver(&mut m, 1, vec![9], r, &mut log).unwrap();
        feed(&mut m, Input::Written(true), &mut log);
    }
    finish(&mut m, &mut log);
    let first_cp = log.iter().position(|n| matches!(n, Notice::CheckPoint { .. })).unwrap();
    assert_eq!(first_cp, 3);
    assert!(log[first_cp..].iter().all(|n| matches!(n, Notice::CheckPoint { .. })));
    assert_eq!(log.len(), 5);
}

#[test]
fn nothing_written_after_failure() {
    let mut m = SenderLoop::new(3, vec![0]);
    let mut log = Vec::new();
    deliver(&mut m, 1, vec![1], 0, &mut log).unwrap();
    let out = feed(&mut m, Input::Written(false), &mut log);
    assert!(out.close_queue);
    assert!(deliver(&mut m, 2, vec![2], 0, &mut log).is_none());
    assert!(deliver(&mut m, 3, vec![3], 0, &mut log).is_none());
    assert_eq!(m.phase(), Phase::Receiving);
    finish(&mut m, &mut log);
    assert_eq!(log, vec![status(0, StreamStatus::Failed(1)), checkpoint(0, 3)]);
}

#[test]
fn inputs_out_of_turn_are_not_accepted() {
    let mut m = SenderLoop::new(0, vec![0]);
    assert!(!m.accepts(&Input::Written(true)));
    assert!(!m.accepts(&Input::ShutDown));
    assert!(m.accepts(&Input::QueueEnded));
    let mut log = Vec::new();
    deliver(&mut m, 1, vec![1], 0, &mut log).unwrap();
    assert_eq!(m.phase(), Phase::Writing { stream: 1, reporter_id: 0 });
    assert!(!m.accepts(&Input::QueueEnded));
    assert!(!m.accepts(&Input::Received(Event::payload(2, vec![], 0))));
    assert_eq!(m.session_id(), 0);
}
