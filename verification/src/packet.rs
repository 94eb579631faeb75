//! Framed MIDI packets and their decoding into typed events.

use vstd::prelude::*;

use crate::midi::{spec_control, spec_note, Control, Event, Message, Note};
use crate::stream::ByteSource;

verus! {

/// Why the framer produced no packet.
#[derive(Debug, Clone, Copy, PartialEq, Eq)]
pub enum FrameError {
    /// Not enough bytes yet; more may come.
    NotReady,
    /// The device ended, failed, or sent bytes that frame no packet:
    /// it is lost and no packet will ever come again.
    DeviceLost,
}

/// An encoded MIDI event: a status byte followed by up to two data bytes,
/// padded with zeroes.  The all-ones value is a sentinel that marks a
/// disconnected device instead of an event.
#[derive(Debug)]
pub struct Midi(pub [u8; 4]);

impl View for Midi {
    type V = Seq<u8>;

    open spec fn view(&self) -> Seq<u8> {
        self.0@
    }
}

/// The sentinel packet that stands for a disconnected device.
pub open spec fn sentinel() -> Seq<u8> {
    seq![0xFFu8, 0xFFu8, 0xFFu8, 0xFFu8]
}

/// A status byte opens a packet: its high bit is set.
pub open spec fn is_status_byte(b: u8) -> bool {
    b >= 0x80
}

/// Total length in bytes of the packet opened by status byte `cmd`,
/// the status byte included.
pub open spec fn packet_len(cmd: u8) -> int
    recommends
        is_status_byte(cmd),
{
    if cmd < 0xD0 {
        3
    } else if cmd < 0xE0 {
        2
    } else if cmd < 0xF0 {
        3
    } else {
        1
    }
}

/// A well-formed packet: either the disconnect sentinel, or a status byte
/// followed by 7-bit data bytes (unused positions are zero, so they are
/// 7-bit as well).
pub open spec fn packet_wf(p: Seq<u8>) -> bool {
    &&& p.len() == 4
    &&& (p == sentinel() || (is_status_byte(p[0]) && p[1] < 0x80 && p[2] < 0x80))
}

/// The system message selected by the low nibble of a system status byte.
pub open spec fn spec_system(status: u8) -> Message {
    let lo = status % 16;
    if lo == 0x0 {
        Message::ExStart
    } else if lo == 0x1 {
        Message::TimeCode
    } else if lo == 0x2 {
        Message::SongPosition
    } else if lo == 0x3 {
        Message::SongSelect
    } else if lo == 0x6 {
        Message::TuneRequest
    } else if lo == 0x7 {
        Message::ExEnd
    } else if lo == 0x8 {
        Message::TimingClock
    } else if lo == 0xA {
        Message::Start
    } else if lo == 0xB {
        Message::Continue
    } else if lo == 0xC {
        Message::Stop
    } else if lo == 0xE {
        Message::ActiveSensing
    } else if lo == 0xF {
        Message::SystemReset
    } else {
        Message::Unknown(status)
    }
}

/// The event encoded by a non-sentinel packet, dispatched on the high nibble
/// of the status byte; the low nibble is the channel.
pub open spec fn spec_event(p: Seq<u8>) -> Event
    recommends
        p.len() == 4,
        is_status_byte(p[0]),
{
    let chan = (p[0] % 16) as u8;
    let note = spec_note(p[1] as int);
    let id = p[1] as i8;
    let value = p[2] as i8;
    if p[0] < 0x90 {
        Event::NoteOff { chan, note, value }
    } else if p[0] < 0xA0 {
        Event::NoteOn { chan, note, value }
    } else if p[0] < 0xB0 {
        Event::NoteTouch { chan, note, value }
    } else if p[0] < 0xC0 {
        Event::Control { chan, message: spec_control(id, value) }
    } else if p[0] < 0xD0 {
        Event::Instrument { chan, patch: [id, value] }
    } else if p[0] < 0xE0 {
        Event::Pressure { chan, value: id }
    } else if p[0] < 0xF0 {
        Event::Bend { chan, lsb: id, msb: value }
    } else {
        Event::System { message: spec_system(p[0]) }
    }
}

/// What a packet decodes to: the sentinel to nothing, every other
/// well-formed packet to its event.
pub open spec fn spec_decode(p: Seq<u8>) -> Option<Event>
    recommends
        packet_wf(p),
{
    if p == sentinel() {
        None
    } else {
        Some(spec_event(p))
    }
}

/// How many bytes at the front of the stream are stray data bytes: bytes
/// with the high bit clear that no status byte precedes.  They belong to no
/// packet and are discarded to regain synchronization.
pub open spec fn stray_count(s: Seq<u8>) -> int
    decreases s.len(),
{
    if s.len() == 0 {
        0
    } else if is_status_byte(s[0]) {
        0
    } else {
        1 + stray_count(s.skip(1))
    }
}

pub proof fn lemma_stray_count(s: Seq<u8>)
    ensures
        0 <= stray_count(s) <= s.len(),
        forall|i: int| 0 <= i < stray_count(s) ==> !is_status_byte(#[trigger] s[i]),
        stray_count(s) < s.len() ==> is_status_byte(s[stray_count(s)]),
    decreases s.len(),
{
    if s.len() == 0 {
    } else if is_status_byte(s[0]) {
    } else {
        let t = s.skip(1);
        lemma_stray_count(t);
        assert forall|i: int| 0 <= i < stray_count(s) implies !is_status_byte(#[trigger] s[i]) by {
            if i > 0 {
                assert(t[i - 1] == s[i]);
            }
        }
        if stray_count(s) < s.len() {
            assert(t[stray_count(t)] == s[stray_count(s)]);
        }
    }
}

/// A packet, padded with zeroes to four bytes.
pub open spec fn pad4(p: Seq<u8>) -> Seq<u8> {
    Seq::new(4, |i: int| if i < p.len() { p[i] } else { 0u8 })
}

/// All bytes after the status byte are 7-bit data bytes.
pub open spec fn data_bytes_clear(p: Seq<u8>) -> bool {
    forall|i: int| 1 <= i < p.len() ==> !is_status_byte(#[trigger] p[i])
}

/// The outcome of framing one packet out of a byte stream.
pub enum Framed {
    /// No complete packet yet; more bytes may still come.
    NotReady,
    /// One complete packet, padded to four bytes.
    Packet(Seq<u8>),
    /// The device is lost: the stream ended, or the bytes frame no packet.
    Lost,
}

/// Frame one packet out of the unconsumed bytes of a stream.  Leading stray
/// data bytes are discarded; the first status byte determines the packet
/// length; the packet is complete once that many bytes are present and its
/// data bytes are 7-bit.  An incomplete packet is `NotReady` while the device
/// is open and `Lost` once it is closed; a packet whose data bytes carry the
/// high bit is `Lost`.  The second component is what remains of the stream.
pub open spec fn frame(s: Seq<u8>, open: bool) -> (Framed, Seq<u8>) {
    let k = stray_count(s);
    let rest = s.skip(k);
    if k == s.len() {
        (if open {
            Framed::NotReady
        } else {
            Framed::Lost
        }, rest)
    } else {
        let n = packet_len(rest[0]);
        if rest.len() < n {
            (if open {
                Framed::NotReady
            } else {
                Framed::Lost
            }, rest)
        } else if !data_bytes_clear(rest.take(n)) {
            (Framed::Lost, rest)
        } else {
            (Framed::Packet(pad4(rest.take(n))), rest.skip(n))
        }
    }
}

/// Every packet the framer produces is well formed and is not the
/// disconnect sentinel, so it decodes to an event.
pub proof fn lemma_frame_packet_wf(s: Seq<u8>, open: bool)
    ensures
        frame(s, open).0 matches Framed::Packet(p) ==> packet_wf(p) && spec_decode(p) is Some,
{
    lemma_stray_count(s);
    match frame(s, open).0 {
        Framed::Packet(p) => {
            let k = stray_count(s);
            let rest = s.skip(k);
            let n = packet_len(rest[0]);
            assert(p[0] == rest[0]);
            assert(p[1] < 0x80 && p[2] < 0x80) by {
                if n >= 2 {
                    assert(rest.take(n)[1] == rest[1]);
                }
                if n >= 3 {
                    assert(rest.take(n)[2] == rest[2]);
                }
            }
            assert(p != sentinel()) by {
                assert(sentinel()[1] == 0xFF);
            }
        },
        _ => {},
    }
}

impl Midi {
    /// Frame the next packet out of the byte source.  Stray data bytes in
    /// front of the first status byte are consumed and discarded; a partial
    /// packet is left in the source untouched so that framing resumes from
    /// the same state once more bytes arrive.
    pub fn new(stream: &mut ByteSource) -> (r: Result<Midi, FrameError>)
        ensures
            ({
                let fr = frame(old(stream)@, old(stream).spec_open());
                &&& final(stream)@ == fr.1
                &&& final(stream).spec_open() == old(stream).spec_open()
                &&& match fr.0 {
                    Framed::NotReady => r == Err::<Midi, FrameError>(FrameError::NotReady),
                    Framed::Packet(p) => r matches Ok(m) && m@ == p,
                    Framed::Lost => r == Err::<Midi, FrameError>(FrameError::DeviceLost),
                }
            }),
    {
        let ghost s0 = stream@;
        let ghost open0 = stream.spec_open();
        let ghost k = stray_count(s0);
        proof {
            lemma_stray_count(s0);
        }
        let ghost mut j: int = 0;
        while stream.available() > 0 && stream.peek(0) < 0x80
            invariant
                0 <= j <= k,
                k == stray_count(s0),
                stream@ == s0.skip(j),
                stream.spec_open() == open0,
            decreases s0.len() - j,
        {
            proof {
                lemma_stray_count(s0);
                assert(s0[j] == stream@[0]);
                if j == k {
                    // impossible: index k is a status byte or the stream is empty
                    assert(k < s0.len());
                    assert(is_status_byte(s0[k]));
                }
            }
            stream.consume(1);
            proof {
                j = j + 1;
                assert(s0.skip(j - 1).skip(1) =~= s0.skip(j));
            }
        }
        proof {
            lemma_stray_count(s0);
            if stream@.len() == 0 {
                assert(j == k && k == s0.len());
            } else {
                assert(is_status_byte(s0[j]));
                assert(j == k);
            }
        }
        let ghost rest = s0.skip(k);

        if stream.available() == 0 {
            return if stream.is_open() {
                Err(FrameError::NotReady)
            } else {
                Err(FrameError::DeviceLost)
            };
        }

        let cmd = stream.peek(0);
        let n: usize = if cmd < 0xD0 {
            3
        } else if cmd < 0xE0 {
            2
        } else if cmd < 0xF0 {
            3
        } else {
            1
        };
        assert(n == packet_len(rest[0]));

        if stream.available() < n {
            return if stream.is_open() {
                Err(FrameError::NotReady)
            } else {
                Err(FrameError::DeviceLost)
            };
        }

        let b0 = cmd;
        let b1 = if n >= 2 {
            stream.peek(1)
        } else {
            0
        };
        let b2 = if n >= 3 {
            stream.peek(2)
        } else {
            0
        };

        if b1 >= 0x80 || b2 >= 0x80 {
            proof {
                assert(!data_bytes_clear(rest.take(n as int))) by {
                    if b1 >= 0x80 {
                        assert(rest.take(n as int)[1] == rest[1]);
                    } else {
                        assert(rest.take(n as int)[2] == rest[2]);
                    }
                }
            }
            return Err(FrameError::DeviceLost);
        }

        proof {
            assert(data_bytes_clear(rest.take(n as int))) by {
                assert forall|i: int| 1 <= i < n implies !is_status_byte(
                    #[trigger] rest.take(n as int)[i],
                ) by {
                    assert(rest.take(n as int)[i] == rest[i]);
                }
            }
        }

        stream.consume(n);
        let m = Midi([b0, b1, b2, 0]);
        proof {
            assert(m@ =~= pad4(rest.take(n as int)));
        }
        Ok(m)
    }

    /// Decode this packet into a typed event, or into nothing if it is the
    /// disconnect sentinel.
    pub fn decode(self) -> (r: Option<Event>)
        requires
            packet_wf(self@),
        ensures
            r == spec_decode(self@),
    {
        if self.0[0] == 0xFF && self.0[1] == 0xFF && self.0[2] == 0xFF && self.0[3] == 0xFF {
            proof {
                assert(self@ =~= sentinel());
            }
            return None;
        }
        assert(self@ != sentinel());

        let status = self.0[0];
        let chan = status & 0x0F;
        let id = self.0[1] as i8;
        let note = Note::try_from(self.0[1]).unwrap();
        let value = self.0[2] as i8;

        let hi = status & 0xF0;
        proof {
            assert(status & 0x0F == status % 16) by (bit_vector);
            assert(status & 0xF0 == (status / 16) * 16) by (bit_vector);
        }
        let event = if hi == 0x80 {
            Event::NoteOff { chan, note, value }
        } else if hi == 0x90 {
            Event::NoteOn { chan, note, value }
        } else if hi == 0xA0 {
            Event::NoteTouch { chan, note, value }
        } else if hi == 0xB0 {
            Event::Control { chan, message: Control::new(id, value) }
        } else if hi == 0xC0 {
            Event::Instrument { chan, patch: [id, value] }
        } else if hi == 0xD0 {
            Event::Pressure { chan, value: id }
        } else if hi == 0xE0 {
            Event::Bend { chan, lsb: id, msb: value }
        } else {
            let lo = self.0[0] & 0x0F;
            let message = if lo == 0x0 {
                Message::ExStart
            } else if lo == 0x1 {
                Message::TimeCode
            } else if lo == 0x2 {
                Message::SongPosition
            } else if lo == 0x3 {
                Message::SongSelect
            } else if lo == 0x6 {
                Message::TuneRequest
            } else if lo == 0x7 {
                Message::ExEnd
            } else if lo == 0x8 {
                Message::TimingClock
            } else if lo == 0xA {
                Message::Start
            } else if lo == 0xB {
                Message::Continue
            } else if lo == 0xC {
                Message::Stop
            } else if lo == 0xE {
                Message::ActiveSensing
            } else if lo == 0xF {
                Message::SystemReset
            } else {
                Message::Unknown(self.0[0])
            };
            Event::System { message }
        };

        Some(event)
    }
}

} // verus!
