use sender_stage::event::{reporter_event, Event, Notice, ReporterEvent, Session, StreamStatus};
use sender_stage::registry::{ReporterTx, Reporters};
use sender_stage::sender::{BuildError, SenderBuilder};
use tokio::sync::mpsc::{unbounded_channel, UnboundedReceiver};

fn reporter() -> (ReporterTx, UnboundedReceiver<ReporterEvent>) {
    unbounded_channel()
}

fn full_builder(reconnect: bool) -> (SenderBuilder<u32, ()>, Vec<UnboundedReceiver<ReporterEvent>>) {
    let (tx, rx) = unbounded_channel::<Event>();
    let (r0, rx0) = reporter();
    let (r1, rx1) = reporter();
    let regs = Reporters::new().insert(0, r0).insert(1, r1);
    let b = SenderBuilder::new()
        .tx(tx)
        .rx(rx)
        .socket_tx(77u32)
        .reporters(regs)
        .session_id(42)
        .reconnect(reconnect);
    (b, vec![rx0, rx1])
}

#[test]
fn reconnect_announces_to_every_reporter() {
    let (b, mut reporter_rxs) = full_builder(true);
    let state = b.build().ok().unwrap();
    let notes = state.announcements();
    assert_eq!(
        notes,
        vec![
            Notice::New { reporter_id: 0, session_id: 42 },
            Notice::New { reporter_id: 1, session_id: 42 },
        ]
    );
    for n in &notes {
        let ev = reporter_event(*n, Some(state.tx())).unwrap();
        state.reporters().get(n.reporter_id()).unwrap().send(ev).ok().unwrap();
    }
    let mut handles = Vec::new();
    for rx in reporter_rxs.iter_mut() {
        match rx.try_recv().unwrap() {
            ReporterEvent::Session(Session::New(sid, handle)) => {
                assert_eq!(sid, 42);
                handles.push(handle);
            }
            _ => panic!("expected an announcement"),
        }
    }
    handles[1].send(Event::payload(5, vec![1, 2], 1)).ok().unwrap();
    let (mut machine, _regs, socket, _tx, mut rx) = state.into_parts();
    assert_eq!(socket, 77);
    assert_eq!(machine.session_id(), 42);
    let ev = rx.try_recv().unwrap();
    let out = machine.step(sender_stage::machine::Input::Received(ev));
    match out.action {
        sender_stage::machine::Action::Write(p) => assert_eq!(p, vec![1, 2]),
        _ => panic!("expected a write"),
    }
}

#[test]
fn first_connection_announces_nothing() {
    let (b, _rxs) = full_builder(false);
    let state = b.build().ok().unwrap();
    assert!(state.announcements().is_empty());
    assert_eq!(state.session_id(), 42);
}

#[test]
fn build_reports_first_missing_collaborator() {
    assert_eq!(SenderBuilder::<u32, ()>::new().build().err(), Some(BuildError::MissingReporters));
    let b = SenderBuilder::<u32, ()>::new().reporters(Reporters::new());
    assert_eq!(b.build().err(), Some(BuildError::MissingSessionId));
    let b = SenderBuilder::<u32, ()>::new().reporters(Reporters::new()).session_id(1);
    assert_eq!(b.build().err(), Some(BuildError::MissingSocket));
    let b = SenderBuilder::<u32, ()>::new().reporters(Reporters::new()).session_id(1).socket_tx(3);
    assert_eq!(b.build().err(), Some(BuildError::MissingTx));
    let (tx, _rx) = unbounded_channel::<Event>();
    let b = SenderBuilder::<u32, ()>::new()
        .reporters(Reporters::new())
        .session_id(1)
        .socket_tx(3)
        .tx(tx)
        .stage_tx(());
    assert_eq!(b.build().err(), Some(BuildError::MissingRx));
}

#[test]
fn registry_replaces_handle_of_known_id() {
    let (a, mut rxa) = reporter();
    let (b, mut rxb) = reporter();
    let (c, _rxc) = reporter();
    let regs = Reporters::new().insert(3, a).insert(8, c).insert(3, b);
    assert_eq!(regs.len(), 2);
    assert_eq!(regs.ids_vec(), vec![3, 8]);
    assert!(regs.get(5).is_none());
    regs.get(3).unwrap().send(ReporterEvent::StreamStatus(StreamStatus::Written(1))).ok().unwrap();
    assert!(rxa.try_recv().is_err());
    assert!(matches!(rxb.try_recv().unwrap(), ReporterEvent::StreamStatus(StreamStatus::Written(1))));
}

#[test]
fn notices_become_reporter_messages() {
    let (tx, _rx) = unbounded_channel::<Event>();
    let st = reporter_event(Notice::Status { reporter_id: 2, status: StreamStatus::Failed(-3) }, None).unwrap();
    assert!(matches!(st, ReporterEvent::StreamStatus(StreamStatus::Failed(-3))));
    let cp = reporter_event(Notice::CheckPoint { reporter_id: 2, session_id: 11 }, Some(&tx)).unwrap();
    assert!(matches!(cp, ReporterEvent::Session(Session::CheckPoint(11))));
    assert!(reporter_event(Notice::New { reporter_id: 2, session_id: 11 }, None).is_none());
    match reporter_event(Notice::New { reporter_id: 2, session_id: 11 }, Some(&tx)) {
        Some(ReporterEvent::Session(Session::New(11, _))) => {}
        _ => panic!("expected an announcement"),
    }
    assert_eq!(Notice::CheckPoint { reporter_id: 2, session_id: 11 }.reporter_id(), 2);
}
