use dimi::midi::{Event, Note};
use dimi::{ByteSource, Connector, Discovery, FrameError, Instrument, Midi, Poll, ReadOutcome};

fn test_send<T: Send>() {}

#[test]
fn require_send() {
    // Guarantee all exported `Notify`s are `Send`
    test_send::<Connector>();
    test_send::<Instrument>();
}

fn session(conn: &mut Connector, id: u64) -> Instrument {
    match conn.poll_next(Discovery::Found(id)) {
        Some(inst) => inst,
        None => panic!("identity {id} already has a live session"),
    }
}

#[test]
fn stray_bytes_are_discarded_before_one_packet() {
    let mut conn = Connector::new();
    let mut inst = session(&mut conn, 1);
    // three stray data bytes, then one complete three-byte note-on packet
    inst.feed(ReadOutcome::Available(vec![0x10, 0x20, 0x30, 0x90, 0x3C, 0x64]));
    assert_eq!(
        inst.poll_next(),
        Poll::Event(Event::NoteOn { chan: 0, note: Note::C(4), value: 100 }),
    );
    // exactly one event: the strays produced none, and nothing is left
    assert_eq!(inst.poll_next(), Poll::NotReady);
}

#[test]
fn partial_packet_resumes_without_loss() {
    let mut conn = Connector::new();
    let mut inst = session(&mut conn, 1);
    inst.feed(ReadOutcome::Available(vec![0x90]));
    assert_eq!(inst.poll_next(), Poll::NotReady);
    inst.feed(ReadOutcome::Available(vec![0x3C]));
    assert_eq!(inst.poll_next(), Poll::NotReady);
    inst.feed(ReadOutcome::NotReady);
    assert_eq!(inst.poll_next(), Poll::NotReady);
    inst.feed(ReadOutcome::Available(vec![0x64]));
    assert_eq!(
        inst.poll_next(),
        Poll::Event(Event::NoteOn { chan: 0, note: Note::C(4), value: 100 }),
    );
}

#[test]
fn several_packets_in_one_read_arrive_in_order() {
    let mut conn = Connector::new();
    let mut inst = session(&mut conn, 1);
    inst.feed(ReadOutcome::Available(vec![
        0x90, 0x3C, 0x64, // note on
        0xF8, // timing clock, one byte
        0x80, 0x3C, 0x00, // note off
    ]));
    assert!(matches!(inst.poll_next(), Poll::Event(Event::NoteOn { .. })));
    assert!(matches!(inst.poll_next(), Poll::Event(Event::System { .. })));
    assert!(matches!(inst.poll_next(), Poll::Event(Event::NoteOff { .. })));
    assert_eq!(inst.poll_next(), Poll::NotReady);
}

#[test]
fn hard_error_ends_session_terminally() {
    let mut conn = Connector::new();
    let mut inst = session(&mut conn, 1);
    inst.feed(ReadOutcome::Error);
    assert_eq!(inst.poll_next(), Poll::Ended);
    // terminal and idempotent: never another event, however often polled
    assert_eq!(inst.poll_next(), Poll::Ended);
    assert_eq!(inst.poll_next(), Poll::Ended);
    // even if bytes somehow arrive afterwards
    inst.feed(ReadOutcome::Available(vec![0x90, 0x3C, 0x64]));
    assert_eq!(inst.poll_next(), Poll::Ended);
}

#[test]
fn hard_error_discards_buffered_bytes() {
    let mut conn = Connector::new();
    let mut inst = session(&mut conn, 1);
    // a complete packet is buffered, but the device then fails hard:
    // its bytes can no longer be trusted, so no event follows the error
    inst.feed(ReadOutcome::Available(vec![0x90, 0x3C, 0x64]));
    inst.feed(ReadOutcome::Error);
    assert_eq!(inst.poll_next(), Poll::Ended);
    assert_eq!(inst.poll_next(), Poll::Ended);
}

#[test]
fn end_of_stream_ends_session_after_draining() {
    let mut conn = Connector::new();
    let mut inst = session(&mut conn, 1);
    inst.feed(ReadOutcome::Available(vec![0x90, 0x3C, 0x64, 0x80]));
    inst.feed(ReadOutcome::Ended);
    // the complete buffered packet is still delivered ...
    assert_eq!(
        inst.poll_next(),
        Poll::Event(Event::NoteOn { chan: 0, note: Note::C(4), value: 100 }),
    );
    // ... but the trailing partial packet can never complete
    assert_eq!(inst.poll_next(), Poll::Ended);
    assert_eq!(inst.poll_next(), Poll::Ended);
}

#[test]
fn malformed_data_byte_loses_device() {
    let mut conn = Connector::new();
    let mut inst = session(&mut conn, 1);
    // 0x90 opens a three-byte packet, but a status-like byte follows as data
    inst.feed(ReadOutcome::Available(vec![0x90, 0x90, 0x3C, 0x64]));
    assert_eq!(inst.poll_next(), Poll::Ended);
    assert_eq!(inst.poll_next(), Poll::Ended);
}

#[test]
fn session_keeps_its_identity() {
    let mut conn = Connector::new();
    let inst = session(&mut conn, 42);
    assert_eq!(inst.id(), 42);
}

#[test]
fn connector_never_doubles_a_live_session() {
    let mut conn = Connector::new();
    assert!(conn.poll_next(Discovery::NotReady).is_none());
    let first = conn.poll_next(Discovery::Found(5));
    assert!(first.is_some());
    // while the first session lives, the same identity yields nothing
    assert!(conn.poll_next(Discovery::Found(5)).is_none());
    assert!(conn.poll_next(Discovery::Found(5)).is_none());
    // another identity is independent
    assert!(conn.poll_next(Discovery::Found(6)).is_some());
    // once released, the endpoint can be rediscovered
    conn.release(5);
    assert!(conn.poll_next(Discovery::Found(5)).is_some());
    // releasing an unknown identity changes nothing
    conn.release(99);
    assert!(conn.poll_next(Discovery::Found(6)).is_none());
}

#[test]
fn connector_default_knows_nothing() {
    let mut conn = Connector::default();
    assert!(conn.poll_next(Discovery::Found(1)).is_some());
}

#[test]
fn framer_reports_not_ready_on_open_source() {
    let mut source = ByteSource::new();
    assert!(matches!(Midi::new(&mut source), Err(FrameError::NotReady)));
    source.extend(vec![0x90, 0x3C]);
    assert!(matches!(Midi::new(&mut source), Err(FrameError::NotReady)));
}

#[test]
fn framer_reports_device_lost_on_closed_source() {
    let mut source = ByteSource::new();
    source.extend(vec![0x90, 0x3C]);
    source.close();
    assert!(matches!(Midi::new(&mut source), Err(FrameError::DeviceLost)));
}

#[test]
fn framer_frames_program_change_as_three_bytes() {
    // the length table groups 0xC0-0xCF with the three-byte class
    let mut source = ByteSource::new();
    source.extend(vec![0xC2, 0x15]);
    assert!(matches!(Midi::new(&mut source), Err(FrameError::NotReady)));
    source.extend(vec![0x16]);
    let packet = Midi::new(&mut source).unwrap();
    assert_eq!(packet.decode(), Some(Event::Instrument { chan: 2, patch: [0x15, 0x16] }));
}

#[test]
fn framer_frames_pressure_as_two_bytes() {
    let mut source = ByteSource::new();
    source.extend(vec![0xD5, 0x44]);
    let packet = Midi::new(&mut source).unwrap();
    assert_eq!(packet.decode(), Some(Event::Pressure { chan: 5, value: 0x44 }));
}

#[test]
fn framer_frames_system_message_as_one_byte() {
    let mut source = ByteSource::new();
    source.extend(vec![0xF8, 0x90, 0x3C, 0x64]);
    let clock = Midi::new(&mut source).unwrap();
    assert_eq!(clock.decode(), Some(Event::System { message: dimi::midi::Message::TimingClock }));
    // the following bytes still frame their own packet
    let note = Midi::new(&mut source).unwrap();
    assert_eq!(
        note.decode(),
        Some(Event::NoteOn { chan: 0, note: Note::C(4), value: 100 }),
    );
}
