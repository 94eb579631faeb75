//! Per-device sessions: framing and decoding driven by readiness signals.

use vstd::prelude::*;

use crate::midi::Event;
use crate::packet::{frame, lemma_frame_packet_wf, spec_event, FrameError, Framed, Midi};
use crate::stream::{ByteSource, ReadOutcome};

verus! {

/// What one poll of a session produces.
#[derive(Debug, Clone, Copy, PartialEq, Eq)]
pub enum Poll {
    /// No event yet; poll again on the next readiness signal.
    NotReady,
    /// One decoded event.
    Event(Event),
    /// The session is over: the device is gone.  Terminal; every later poll
    /// produces `Ended` again.
    Ended,
}

/// The state of a session, as the contracts see it.
#[verifier::ext_equal]
pub struct SessionModel {
    /// No terminal signal has been delivered yet.
    pub connected: bool,
    /// The device can still produce bytes.
    pub open: bool,
    /// Bytes received from the device and not yet framed.
    pub buf: Seq<u8>,
    /// The identity of the device this session reads.
    pub id: u64,
}

/// How a session absorbs one read from its device: bytes are buffered, and a
/// session that has already delivered its terminal signal ignores
/// everything.  A clean end of stream closes the byte source but keeps the
/// buffered bytes, whose packets are still delivered; a hard failure closes
/// it and discards them, since their integrity is gone with the device.
pub open spec fn session_feed(m: SessionModel, r: ReadOutcome) -> SessionModel {
    if !m.connected {
        m
    } else {
        match r {
            ReadOutcome::Available(bytes) => if m.open {
                SessionModel { connected: m.connected, open: m.open, buf: m.buf + bytes@, id: m.id }
            } else {
                m
            },
            ReadOutcome::NotReady => m,
            ReadOutcome::Ended => SessionModel {
                connected: m.connected,
                open: false,
                buf: m.buf,
                id: m.id,
            },
            ReadOutcome::Error => SessionModel {
                connected: m.connected,
                open: false,
                buf: Seq::<u8>::empty(),
                id: m.id,
            },
        }
    }
}

/// How a session answers one poll: a disconnected session answers `Ended`
/// and stays put; otherwise one packet is framed out of the buffered bytes
/// and decoded, a short buffer on an open device is `NotReady`, and a lost
/// device disconnects the session, which delivers `Ended`.
pub open spec fn session_next(m: SessionModel) -> (SessionModel, Poll) {
    if !m.connected {
        (m, Poll::Ended)
    } else {
        let fr = frame(m.buf, m.open);
        match fr.0 {
            Framed::NotReady => (
                SessionModel { connected: m.connected, open: m.open, buf: fr.1, id: m.id },
                Poll::NotReady,
            ),
            Framed::Packet(p) => (
                SessionModel { connected: m.connected, open: m.open, buf: fr.1, id: m.id },
                Poll::Event(spec_event(p)),
            ),
            Framed::Lost => (
                SessionModel { connected: false, open: m.open, buf: fr.1, id: m.id },
                Poll::Ended,
            ),
        }
    }
}

/// A session with a MIDI instrument: reads bytes from one device, frames and
/// decodes them, and delivers one terminal signal when the device is gone.
#[derive(Debug)]
pub struct Instrument {
    source: ByteSource,
    connected: bool,
    id: u64,
}

impl Instrument {
    /// The session, as the contracts see it.
    pub closed spec fn model(&self) -> SessionModel {
        SessionModel {
            connected: self.connected,
            open: self.source.spec_open(),
            buf: self.source@,
            id: self.id,
        }
    }

    /// A fresh session for the device with the given identity.
    pub(crate) fn new(id: u64) -> (r: Self)
        ensures
            r.model() == (SessionModel {
                connected: true,
                open: true,
                buf: Seq::<u8>::empty(),
                id,
            }),
    {
        Instrument { source: ByteSource::new(), connected: true, id }
    }

    /// The identity of the device this session reads.
    pub fn id(&self) -> (r: u64)
        ensures
            r == self.model().id,
    {
        self.id
    }

    /// Hand the session one read from its device.
    pub fn feed(&mut self, r: ReadOutcome)
        ensures
            final(self).model() == session_feed(old(self).model(), r),
    {
        if !self.connected {
            return;
        }
        match r {
            ReadOutcome::Available(bytes) => {
                if self.source.is_open() {
                    self.source.extend(bytes);
                }
            },
            ReadOutcome::NotReady => {},
            ReadOutcome::Ended => {
                self.source.close();
            },
            ReadOutcome::Error => {
                let n = self.source.available();
                self.source.consume(n);
                self.source.close();
            },
        }
    }

    /// Poll the session: deliver the next decoded event if a complete packet
    /// is buffered, `NotReady` if the device merely has nothing yet, and
    /// `Ended` once the device is gone — and forever after.
    pub fn poll_next(&mut self) -> (r: Poll)
        ensures
            final(self).model() == session_next(old(self).model()).0,
            r == session_next(old(self).model()).1,
    {
        if !self.connected {
            return Poll::Ended;
        }
        proof {
            lemma_frame_packet_wf(self.source@, self.source.spec_open());
        }
        match Midi::new(&mut self.source) {
            Ok(m) => {
                let ev = m.decode().unwrap();
                Poll::Event(ev)
            },
            Err(FrameError::NotReady) => Poll::NotReady,
            Err(FrameError::DeviceLost) => {
                self.connected = false;
                Poll::Ended
            },
        }
    }
}

/// The session state after `n` further polls.
pub open spec fn session_run(m: SessionModel, n: nat) -> SessionModel
    decreases n,
{
    if n == 0 {
        m
    } else {
        session_next(session_run(m, (n - 1) as nat)).0
    }
}

/// Law: a hard read error on a connected session makes the very next poll
/// the terminal `Ended` — no event is ever delivered after the error.
pub proof fn lemma_error_ends_session(m: SessionModel)
    requires
        m.connected,
    ensures
        session_next(session_feed(m, ReadOutcome::Error)).1 == Poll::Ended,
{
}

/// Law: the terminal signal is absorbing.  A poll that answers `Ended`
/// leaves the session in a state whose next poll changes nothing and answers
/// `Ended` again.
pub proof fn lemma_ended_terminal(m: SessionModel)
    requires
        session_next(m).1 == Poll::Ended,
    ensures
        session_next(session_next(m).0).0 == session_next(m).0,
        session_next(session_next(m).0).1 == Poll::Ended,
{
}

/// Law: after a poll answers `Ended`, every later poll — however many come
/// between — leaves the session unchanged and answers `Ended` again, never
/// another event.
pub proof fn lemma_ended_forever(m: SessionModel, n: nat)
    requires
        session_next(m).1 == Poll::Ended,
    ensures
        session_run(session_next(m).0, n) == session_next(m).0,
        session_next(session_run(session_next(m).0, n)).1 == Poll::Ended,
    decreases n,
{
    lemma_ended_terminal(m);
    if n > 0 {
        lemma_ended_forever(m, (n - 1) as nat);
    }
}

} // verus!
