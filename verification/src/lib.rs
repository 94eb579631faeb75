//! Asynchronous library for interfacing with MIDI devices.
//!
//! The crate decodes the raw byte stream coming from a hot-pluggable MIDI
//! endpoint into typed events, and manages the lifecycle of discovering such
//! endpoints and reading from them until they disappear.  All decoding and
//! lifecycle logic is verified; the host is expected to perform the actual
//! device I/O and hand the resulting bytes and signals in as plain values.

mod connector;
mod instrument;
pub mod midi;
mod packet;
mod stream;

pub use connector::Connector;
pub use connector::Discovery;
pub use connector::RegistryAction;
pub use connector::lemma_never_two_live;
pub use connector::lemma_registry_run_inv;
pub use connector::lemma_registry_step;
pub use connector::live_next;
pub use connector::registry_inv;
pub use connector::registry_next;
pub use connector::registry_run;
pub use connector::session_created;
pub use instrument::Instrument;
pub use instrument::Poll;
pub use instrument::SessionModel;
pub use instrument::lemma_ended_forever;
pub use instrument::lemma_ended_terminal;
pub use instrument::lemma_error_ends_session;
pub use instrument::session_feed;
pub use instrument::session_next;
pub use instrument::session_run;
pub use packet::FrameError;
pub use packet::Framed;
pub use packet::Midi;
pub use packet::data_bytes_clear;
pub use packet::frame;
pub use packet::is_status_byte;
pub use packet::lemma_frame_packet_wf;
pub use packet::lemma_stray_count;
pub use packet::packet_len;
pub use packet::packet_wf;
pub use packet::pad4;
pub use packet::sentinel;
pub use packet::spec_decode;
pub use packet::spec_event;
pub use packet::spec_system;
pub use packet::stray_count;
pub use stream::ByteSource;
pub use stream::ReadOutcome;
