//! Type-safe MIDI event types.

mod control;
mod event;
mod message;
mod note;

pub use control::Control;
pub use control::spec_control;
pub use event::Event;
pub use message::Message;
pub use note::Note;
pub use note::spec_note;
