use udp_session::receive::{ReadOutcome, ReceiveAction, ReceiveEvent, ReceiveWorker};
use udp_session::session::{is_past_deadline, Command, Direction};
use udp_session::supervisor::Supervisor;
use udp_session::transmit::{probe_message, TransmitAction, TransmitEvent, TransmitWorker};

#[test]
fn direction_from_flags_covers_all_four() {
    assert_eq!(Direction::from_flags(false, false), Direction::Neither);
    assert_eq!(Direction::from_flags(true, false), Direction::Send);
    assert_eq!(Direction::from_flags(false, true), Direction::Receive);
    assert_eq!(Direction::from_flags(true, true), Direction::SendReceive);
}

#[test]
fn deadline_in_whole_seconds() {
    assert!(!is_past_deadline(0, u64::MAX));
    assert!(!is_past_deadline(3, 2999));
    assert!(is_past_deadline(3, 3000));
    assert!(is_past_deadline(u32::MAX, u32::MAX as u64 * 1000));
}

#[test]
fn probe_text_carries_the_counter() {
    assert_eq!(probe_message(0), b"$SCP,0,1,0".to_vec());
    assert_eq!(probe_message(42), b"$SCP,0,1,42".to_vec());
    assert_eq!(probe_message(u64::MAX), b"$SCP,0,1,18446744073709551615".to_vec());
}

#[test]
fn receiver_quit_gives_one_notice_then_nothing() {
    let mut w = ReceiveWorker::new(0);
    assert_eq!(w.step(ReceiveEvent::Bound(true)), ReceiveAction::PollCommand);
    assert_eq!(w.step(ReceiveEvent::Polled(Some(Command::Quit))), ReceiveAction::Finish);
    assert!(!w.is_running());
    assert_eq!(w.step(ReceiveEvent::Read(ReadOutcome::Data(5))), ReceiveAction::Halt);
    assert_eq!(w.step(ReceiveEvent::Polled(Some(Command::Quit))), ReceiveAction::Halt);
}

#[test]
fn receiver_pause_drains_and_resume_shows() {
    let mut w = ReceiveWorker::new(0);
    w.step(ReceiveEvent::Bound(true));
    assert_eq!(w.step(ReceiveEvent::Polled(Some(Command::Pause))), ReceiveAction::ReadSocket);
    assert_eq!(w.step(ReceiveEvent::Read(ReadOutcome::Data(7))), ReceiveAction::Drain);
    assert_eq!(w.step(ReceiveEvent::Clock(10)), ReceiveAction::PollCommand);
    assert_eq!(w.step(ReceiveEvent::Polled(None)), ReceiveAction::ReadSocket);
    assert_eq!(w.step(ReceiveEvent::Read(ReadOutcome::Data(7))), ReceiveAction::Drain);
    w.step(ReceiveEvent::Clock(20));
    assert_eq!(w.step(ReceiveEvent::Polled(Some(Command::Resume))), ReceiveAction::ReadSocket);
    assert_eq!(w.step(ReceiveEvent::Read(ReadOutcome::Data(7))), ReceiveAction::Show);
    assert_eq!(w.step(ReceiveEvent::Read(ReadOutcome::Data(0))), ReceiveAction::CheckClock);
    assert_eq!(w.step(ReceiveEvent::Read(ReadOutcome::Nothing)), ReceiveAction::CheckClock);
}

#[test]
fn both_workers_stop_at_the_deadline() {
    let mut r = ReceiveWorker::new(2);
    let mut t = TransmitWorker::new(2);
    r.step(ReceiveEvent::Bound(true));
    t.step(TransmitEvent::Bound(true));
    assert_eq!(r.step(ReceiveEvent::Clock(1999)), ReceiveAction::PollCommand);
    assert_eq!(t.step(TransmitEvent::Clock(1999)), TransmitAction::Send(0));
    assert_eq!(r.step(ReceiveEvent::Clock(2000)), ReceiveAction::Finish);
    assert_eq!(t.step(TransmitEvent::Clock(2000)), TransmitAction::Finish);
    let mut s = Supervisor::new(Direction::SendReceive);
    let d = s.on_notice();
    assert!(d.exit);
    assert_eq!(d.to_receiver, Some(Command::Quit));
    assert_eq!(d.to_transmitter, Some(Command::Quit));
}

#[test]
fn bind_failure_notifies_at_once() {
    let mut r = ReceiveWorker::new(0);
    assert_eq!(r.step(ReceiveEvent::Bound(false)), ReceiveAction::Finish);
    assert_eq!(r.step(ReceiveEvent::Read(ReadOutcome::Data(1))), ReceiveAction::Halt);
    let mut t = TransmitWorker::new(0);
    assert_eq!(t.step(TransmitEvent::Bound(false)), TransmitAction::Finish);
    assert_eq!(t.step(TransmitEvent::Clock(0)), TransmitAction::Halt);
}

#[test]
fn transmitter_counts_up_through_failed_sends() {
    let mut t = TransmitWorker::new(0);
    t.step(TransmitEvent::Bound(true));
    let mut seen: Vec<u64> = Vec::new();
    for k in 0..5u64 {
        assert_eq!(t.step(TransmitEvent::Polled(Some(Command::Pause))), TransmitAction::CheckClock);
        match t.step(TransmitEvent::Clock(k * 1000)) {
            TransmitAction::Send(n) => seen.push(n),
            other => panic!("expected a send, got {:?}", other),
        }
        assert_eq!(t.step(TransmitEvent::Sent(k % 2 == 0)), TransmitAction::Sleep);
    }
    assert_eq!(seen, vec![0, 1, 2, 3, 4]);
    assert_eq!(t.step(TransmitEvent::Polled(Some(Command::Quit))), TransmitAction::Finish);
    assert_eq!(t.step(TransmitEvent::Clock(9000)), TransmitAction::Halt);
}

#[test]
fn supervisor_keys_and_joins() {
    let mut s = Supervisor::new(Direction::Send);
    let d = s.on_key('p');
    assert_eq!((d.to_receiver, d.to_transmitter, d.exit), (None, None, false));
    let d = s.on_key('x');
    assert!(!d.exit);
    let d = s.on_key('q');
    assert_eq!((d.to_receiver, d.to_transmitter, d.exit), (None, Some(Command::Quit), true));
    assert!(!s.joins_receiver());
    assert!(s.joins_transmitter());
    let d = s.on_notice();
    assert_eq!((d.to_receiver, d.to_transmitter, d.exit), (None, None, true));

    let mut s = Supervisor::new(Direction::Receive);
    assert_eq!(s.on_key('p').to_receiver, Some(Command::Pause));
    assert_eq!(s.on_key('r').to_receiver, Some(Command::Resume));
    assert!(s.joins_receiver());
    assert!(!s.joins_transmitter());
}

#[test]
fn direction_labels() {
    assert_eq!(Direction::Neither.label(), "No Transmit nor Receive");
    assert_eq!(Direction::Receive.label(), "Receiving....");
    assert_eq!(Direction::Send.label(), "Transmitting....");
    assert_eq!(Direction::SendReceive.label(), "Receiving and Transmitting....");
}
