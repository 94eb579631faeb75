use dimi::midi::{Control, Event, Message, Note};
use dimi::Midi;

fn pitch_class_table(index: u8, octave: i8) -> Note {
    match index {
        0 => Note::C(octave),
        1 => Note::Db(octave),
        2 => Note::D(octave),
        3 => Note::Eb(octave),
        4 => Note::E(octave),
        5 => Note::F(octave),
        6 => Note::Gb(octave),
        7 => Note::G(octave),
        8 => Note::Ab(octave),
        9 => Note::A(octave),
        10 => Note::Bb(octave),
        _ => Note::B(octave),
    }
}

#[test]
fn note_decodes_every_seven_bit_value() {
    for b in 0u8..128 {
        let expected = pitch_class_table(b % 12, (b / 12) as i8 - 1);
        assert_eq!(Note::try_from(b), Some(expected));
    }
}

#[test]
fn note_sixty_is_middle_c() {
    assert_eq!(Note::try_from(60), Some(Note::C(4)));
}

#[test]
fn note_edges() {
    assert_eq!(Note::try_from(0), Some(Note::C(-1)));
    assert_eq!(Note::try_from(127), Some(Note::G(9)));
    assert_eq!(Note::try_from(128), None);
    assert_eq!(Note::try_from(255), None);
}

#[test]
fn control_is_total() {
    for which in 0i8..=127 {
        for value in [0i8, 1, 63, 64, 127] {
            // every pair decodes to some row; none panics
            let _ = Control::new(which, value);
        }
    }
}

#[test]
fn control_value_rows() {
    assert_eq!(Control::new(0, 9), Control::Bank(9));
    assert_eq!(Control::new(1, 10), Control::Wheel(10));
    assert_eq!(Control::new(2, 11), Control::Breath(11));
    assert_eq!(Control::new(4, 12), Control::Pedal(12));
    assert_eq!(Control::new(5, 13), Control::PortamentoTime(13));
    assert_eq!(Control::new(6, 14), Control::DataEntry(14));
    assert_eq!(Control::new(7, 0x50), Control::Volume(0x50));
    assert_eq!(Control::new(8, 15), Control::Balance(15));
    assert_eq!(Control::new(10, 16), Control::Pan(16));
    assert_eq!(Control::new(11, 17), Control::Expression(17));
    assert_eq!(Control::new(12, 18), Control::EffectA(18));
    assert_eq!(Control::new(13, 19), Control::EffectB(19));
    assert_eq!(Control::new(16, 20), Control::UserA(20));
    assert_eq!(Control::new(17, 21), Control::UserB(21));
    assert_eq!(Control::new(18, 22), Control::UserC(22));
    assert_eq!(Control::new(19, 23), Control::UserD(23));
    assert_eq!(Control::new(70, 24), Control::Variation(24));
    assert_eq!(Control::new(71, 25), Control::Resonance(25));
    assert_eq!(Control::new(72, 26), Control::ReleaseTime(26));
    assert_eq!(Control::new(73, 27), Control::AttackTime(27));
    assert_eq!(Control::new(74, 28), Control::CutoffFrequency(28));
    assert_eq!(Control::new(75, 29), Control::ShaperA(29));
    assert_eq!(Control::new(76, 30), Control::ShaperB(30));
    assert_eq!(Control::new(77, 31), Control::ShaperC(31));
    assert_eq!(Control::new(78, 32), Control::ShaperD(32));
    assert_eq!(Control::new(79, 33), Control::ShaperE(33));
    assert_eq!(Control::new(84, 34), Control::Portamento(34));
    assert_eq!(Control::new(88, 35), Control::Velocity(35));
    assert_eq!(Control::new(91, 36), Control::Reverb(36));
    assert_eq!(Control::new(92, 37), Control::Tremelo(37));
    assert_eq!(Control::new(93, 38), Control::Chorus(38));
    assert_eq!(Control::new(94, 39), Control::Detune(39));
    assert_eq!(Control::new(95, 40), Control::Phaser(40));
    assert_eq!(Control::new(98, 41), Control::NrpnLsbSelect(41));
    assert_eq!(Control::new(99, 42), Control::NrpnMsbSelect(42));
    assert_eq!(Control::new(100, 43), Control::RpnLsbSelect(43));
    assert_eq!(Control::new(101, 44), Control::RpnMsbSelect(44));
}

#[test]
fn control_parameterless_rows() {
    assert_eq!(Control::new(96, 0), Control::DataIncrement);
    assert_eq!(Control::new(97, 127), Control::DataDecrement);
    assert_eq!(Control::new(120, 3), Control::Mute);
    assert_eq!(Control::new(121, 4), Control::Reset);
    assert_eq!(Control::new(123, 5), Control::Stop);
    assert_eq!(Control::new(124, 6), Control::OmniOff);
    assert_eq!(Control::new(125, 7), Control::OmniOn);
    assert_eq!(Control::new(127, 8), Control::Polyphonic);
}

#[test]
fn control_switch_rows_threshold_at_64() {
    assert_eq!(Control::new(64, 64), Control::Damper(true));
    assert_eq!(Control::new(64, 63), Control::Damper(false));
    assert_eq!(Control::new(65, 127), Control::Bend(true));
    assert_eq!(Control::new(65, 0), Control::Bend(false));
    assert_eq!(Control::new(66, 64), Control::Sostenuto(true));
    assert_eq!(Control::new(67, 64), Control::Soft(true));
    assert_eq!(Control::new(68, 64), Control::Legato(true));
    assert_eq!(Control::new(69, 64), Control::Hold(true));
    assert_eq!(Control::new(80, 64), Control::Decay(true));
    assert_eq!(Control::new(81, 63), Control::HiPassFilter(false));
    assert_eq!(Control::new(82, 64), Control::SwitchA(true));
    assert_eq!(Control::new(83, 63), Control::SwitchB(false));
    assert_eq!(Control::new(122, 64), Control::Local(true));
    assert_eq!(Control::new(122, 63), Control::Local(false));
}

#[test]
fn control_lsb_rows() {
    for which in 32i8..=63 {
        assert_eq!(
            Control::new(which, 7),
            Control::Lsb { which: which & 0x1F, value: 7 },
        );
    }
}

#[test]
fn control_monophonic_channel_count() {
    assert_eq!(Control::new(126, 0), Control::Monophonic(None));
    assert_eq!(Control::new(126, 3), Control::Monophonic(Some(3)));
}

#[test]
fn control_undefined_rows() {
    assert_eq!(Control::new(3, 1), Control::Undefined { which: 3, value: 1 });
    assert_eq!(Control::new(9, 2), Control::Undefined { which: 9, value: 2 });
    assert_eq!(Control::new(14, 3), Control::Undefined { which: 14, value: 3 });
    assert_eq!(Control::new(20, 4), Control::Undefined { which: 20, value: 4 });
    assert_eq!(Control::new(31, 5), Control::Undefined { which: 31, value: 5 });
    assert_eq!(Control::new(85, 6), Control::Undefined { which: 85, value: 6 });
    assert_eq!(Control::new(90, 7), Control::Undefined { which: 90, value: 7 });
    assert_eq!(Control::new(102, 8), Control::Undefined { which: 102, value: 8 });
    assert_eq!(Control::new(119, 9), Control::Undefined { which: 119, value: 9 });
    assert_eq!(Control::new(-1, 10), Control::Undefined { which: -1, value: 10 });
}

#[test]
fn note_on_packet_decodes() {
    let event = Midi([0x90, 0x3C, 0x64, 0x00]).decode();
    assert_eq!(
        event,
        Some(Event::NoteOn { chan: 0, note: Note::C(4), value: 100 }),
    );
}

#[test]
fn volume_packet_decodes() {
    let event = Midi([0xB0, 0x07, 0x50, 0x00]).decode();
    assert_eq!(
        event,
        Some(Event::Control { chan: 0, message: Control::Volume(0x50) }),
    );
}

#[test]
fn damper_packet_thresholds_at_64() {
    let on = Midi([0xB0, 0x40, 0x7F, 0x00]).decode();
    assert_eq!(
        on,
        Some(Event::Control { chan: 0, message: Control::Damper(true) }),
    );
    let off = Midi([0xB0, 0x40, 0x10, 0x00]).decode();
    assert_eq!(
        off,
        Some(Event::Control { chan: 0, message: Control::Damper(false) }),
    );
    let boundary = Midi([0xB0, 0x40, 0x40, 0x00]).decode();
    assert_eq!(
        boundary,
        Some(Event::Control { chan: 0, message: Control::Damper(true) }),
    );
    let below = Midi([0xB0, 0x40, 0x3F, 0x00]).decode();
    assert_eq!(
        below,
        Some(Event::Control { chan: 0, message: Control::Damper(false) }),
    );
}

#[test]
fn channel_messages_decode() {
    assert_eq!(
        Midi([0x83, 0x3C, 0x40, 0x00]).decode(),
        Some(Event::NoteOff { chan: 3, note: Note::C(4), value: 0x40 }),
    );
    assert_eq!(
        Midi([0xA7, 0x3D, 0x22, 0x00]).decode(),
        Some(Event::NoteTouch { chan: 7, note: Note::Db(4), value: 0x22 }),
    );
    assert_eq!(
        Midi([0xC2, 0x15, 0x16, 0x00]).decode(),
        Some(Event::Instrument { chan: 2, patch: [0x15, 0x16] }),
    );
    assert_eq!(
        Midi([0xD5, 0x44, 0x00, 0x00]).decode(),
        Some(Event::Pressure { chan: 5, value: 0x44 }),
    );
    assert_eq!(
        Midi([0xEF, 0x01, 0x02, 0x00]).decode(),
        Some(Event::Bend { chan: 15, lsb: 0x01, msb: 0x02 }),
    );
}

#[test]
fn system_messages_decode() {
    let table: [(u8, Message); 12] = [
        (0xF0, Message::ExStart),
        (0xF1, Message::TimeCode),
        (0xF2, Message::SongPosition),
        (0xF3, Message::SongSelect),
        (0xF6, Message::TuneRequest),
        (0xF7, Message::ExEnd),
        (0xF8, Message::TimingClock),
        (0xFA, Message::Start),
        (0xFB, Message::Continue),
        (0xFC, Message::Stop),
        (0xFE, Message::ActiveSensing),
        (0xFF, Message::SystemReset),
    ];
    for (status, message) in table {
        assert_eq!(
            Midi([status, 0x00, 0x00, 0x00]).decode(),
            Some(Event::System { message }),
        );
    }
    for status in [0xF4u8, 0xF5, 0xF9, 0xFD] {
        assert_eq!(
            Midi([status, 0x00, 0x00, 0x00]).decode(),
            Some(Event::System { message: Message::Unknown(status) }),
        );
    }
}

#[test]
fn sentinel_packet_decodes_to_nothing() {
    assert_eq!(Midi([0xFF, 0xFF, 0xFF, 0xFF]).decode(), None);
}
