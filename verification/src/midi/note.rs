//! Notes of the Western scale, as encoded in MIDI note numbers.

use vstd::prelude::*;

verus! {

/// A note and octave of the Western scale.
///
/// In this library, C4 is middle C and octaves range from -1 to 9.
#[derive(Debug, Copy, Clone, PartialEq, Eq)]
pub enum Note {
    /// The C Note in the Western Scale
    C(i8),
    /// The D-Flat Note in the Western Scale
    Db(i8),
    /// The D Note in the Western Scale
    D(i8),
    /// The E-Flat Note in the Western Scale
    Eb(i8),
    /// The E Note in the Western Scale
    E(i8),
    /// The F Note in the Western Scale
    F(i8),
    /// The G-Flat Note in the Western Scale
    Gb(i8),
    /// The G Note in the Western Scale
    G(i8),
    /// The A-Flat Note in the Western Scale
    Ab(i8),
    /// The A Note in the Western Scale
    A(i8),
    /// The B-Flat Note in the Western Scale
    Bb(i8),
    /// The B Note in the Western Scale
    B(i8),
}

/// The note named by a 7-bit MIDI note number: the pitch class is the note
/// number modulo 12, in the fixed order C, Db, D, Eb, E, F, Gb, G, Ab, A,
/// Bb, B, and the octave is the note number divided by 12, less one.
pub open spec fn spec_note(b: int) -> Note
    recommends
        0 <= b < 128,
{
    let octave = (b / 12 - 1) as i8;
    let class = b % 12;
    if class == 0 {
        Note::C(octave)
    } else if class == 1 {
        Note::Db(octave)
    } else if class == 2 {
        Note::D(octave)
    } else if class == 3 {
        Note::Eb(octave)
    } else if class == 4 {
        Note::E(octave)
    } else if class == 5 {
        Note::F(octave)
    } else if class == 6 {
        Note::Gb(octave)
    } else if class == 7 {
        Note::G(octave)
    } else if class == 8 {
        Note::Ab(octave)
    } else if class == 9 {
        Note::A(octave)
    } else if class == 10 {
        Note::Bb(octave)
    } else {
        Note::B(octave)
    }
}

impl Note {
    /// Decode a MIDI note number.  Note numbers are 7-bit: any byte with the
    /// high bit set names no note.
    pub fn try_from(note: u8) -> (r: Option<Note>)
        ensures
            note < 128 ==> r == Some(spec_note(note as int)),
            note >= 128 ==> r is None,
    {
        if note >= 128 {
            return None;
        }
        let octave = (note / 12) as i8 - 1;
        let r = match note % 12 {
            0 => Note::C(octave),
            1 => Note::Db(octave),
            2 => Note::D(octave),
            3 => Note::Eb(octave),
            4 => Note::E(octave),
            5 => Note::F(octave),
            6 => Note::Gb(octave),
            7 => Note::G(octave),
            8 => Note::Ab(octave),
            9 => Note::A(octave),
            10 => Note::Bb(octave),
            _ => Note::B(octave),
        };
        Some(r)
    }
}

} // verus!
