use chart_player::note_util::{ChordType, NoteName, NoteUtil};

#[test]
fn from_midi_names_pitch_classes() {
    assert_eq!(NoteName::from_midi(60), NoteName::C);
    assert_eq!(NoteName::from_midi(61), NoteName::CsDf);
    assert_eq!(NoteName::from_midi(69), NoteName::A);
    assert_eq!(NoteName::from_midi(71), NoteName::B);
    assert_eq!(NoteName::from_midi(0), NoteName::C);
}

#[test]
fn from_midi_negative_numbers_name_c_unless_divisible() {
    assert_eq!(NoteName::from_midi(-1), NoteName::C);
    assert_eq!(NoteName::from_midi(-13), NoteName::C);
    assert_eq!(NoteName::from_midi(-12), NoteName::C);
    assert_eq!(NoteName::from_midi(i32::MIN), NoteName::C);
}

#[test]
fn note_labels() {
    assert_eq!(NoteName::C.to_string(), "C");
    assert_eq!(NoteName::CsDf.to_string(), "Cs/Df");
    assert_eq!(NoteName::FsGf.to_string(), "Fs/Gf");
    assert_eq!(NoteName::AsBf.to_string(), "As/Bf");
    assert_eq!(NoteName::B.to_string(), "B");
}

#[test]
fn scales_for_chord_types() {
    assert_eq!(NoteUtil::scales(ChordType::Maj), &[0, 2, 4, 5, 7, 9, 11]);
    assert_eq!(NoteUtil::scales(ChordType::Min), &[0, 2, 3, 5, 7, 8, 11]);
}

#[test]
fn octaves_truncate_toward_zero() {
    assert_eq!(NoteUtil::note_octave(60), 4);
    assert_eq!(NoteUtil::note_octave(69), 4);
    assert_eq!(NoteUtil::note_octave(0), -1);
    assert_eq!(NoteUtil::note_octave(11), -1);
    assert_eq!(NoteUtil::note_octave(12), 0);
    assert_eq!(NoteUtil::note_octave(-1), -1);
    assert_eq!(NoteUtil::note_octave(-12), -2);
}

#[test]
fn midi_note_numbers() {
    assert_eq!(NoteUtil::midi_note_number(NoteName::A, 4), 69);
    assert_eq!(NoteUtil::midi_note_number(NoteName::C, 4), 60);
    assert_eq!(NoteUtil::midi_note_number(NoteName::C, -1), 0);
    assert_eq!(NoteUtil::midi_note_number(NoteName::B, 9), 131);
    assert_eq!(NoteUtil::note_name(64), NoteName::E);
}

#[test]
fn midi_number_round_trip_law() {
    for midi in 0..256 {
        let n = NoteUtil::note_name(midi);
        let o = NoteUtil::note_octave(midi);
        assert_eq!(NoteUtil::midi_note_number(n, o), midi);
    }
    let m = NoteUtil::midi_note_number(NoteName::GsAf, 3);
    assert_eq!(NoteUtil::note_name(m), NoteName::GsAf);
    assert_eq!(NoteUtil::note_octave(m), 3);
}

#[test]
fn round_trip_fails_below_zero() {
    let n = NoteUtil::note_name(-1);
    let o = NoteUtil::note_octave(-1);
    assert_eq!(NoteUtil::midi_note_number(n, o), 0);
}

#[test]
fn parse_note_reads_letters_and_octave() {
    assert_eq!(NoteUtil::parse_note("A4"), Some((NoteName::A, 4)));
    assert_eq!(NoteUtil::parse_note("c0"), Some((NoteName::C, 0)));
    assert_eq!(NoteUtil::parse_note("bf2"), Some((NoteName::AsBf, 2)));
    assert_eq!(NoteUtil::parse_note("gs9"), Some((NoteName::GsAf, 9)));
}

#[test]
fn parse_note_trims_whitespace() {
    assert_eq!(NoteUtil::parse_note("  e3 \t"), Some((NoteName::E, 3)));
}

#[test]
fn parse_note_ignores_case() {
    assert_eq!(NoteUtil::parse_note("CS3"), Some((NoteName::CsDf, 3)));
    assert_eq!(NoteUtil::parse_note("Ef5"), Some((NoteName::DsEf, 5)));
}

#[test]
fn parse_note_reads_sharp_sign() {
    assert_eq!(NoteUtil::parse_note("C#3"), Some((NoteName::CsDf, 3)));
    assert_eq!(NoteUtil::parse_note("f#1"), Some((NoteName::FsGf, 1)));
}

#[test]
fn parse_note_rejects_bad_input() {
    assert_eq!(NoteUtil::parse_note(""), None);
    assert_eq!(NoteUtil::parse_note("   "), None);
    assert_eq!(NoteUtil::parse_note("a"), None);
    assert_eq!(NoteUtil::parse_note("4"), None);
    assert_eq!(NoteUtil::parse_note("h4"), None);
    assert_eq!(NoteUtil::parse_note("a10"), None);
    assert_eq!(NoteUtil::parse_note("ax"), None);
    assert_eq!(NoteUtil::parse_note("e#4"), None);
}

#[test]
fn parse_normalized_note_needs_no_trimming() {
    assert_eq!(NoteUtil::parse_normalized_note("df4"), Some((NoteName::CsDf, 4)));
    assert_eq!(NoteUtil::parse_normalized_note(" a4"), None);
    assert_eq!(NoteUtil::parse_normalized_note("A4"), None);
}

#[test]
fn octave_periodicity_law() {
    for midi in 0..200 {
        assert_eq!(NoteUtil::note_name(midi + 12), NoteUtil::note_name(midi));
        assert_eq!(NoteUtil::note_octave(midi + 12), NoteUtil::note_octave(midi) + 1);
    }
}

#[test]
fn parse_note_trims_unicode_white_space() {
    assert_eq!(NoteUtil::parse_note("\u{3000}b2\u{2003}\u{85}"), Some((NoteName::B, 2)));
    assert_eq!(NoteUtil::parse_note("\u{200B}b2"), None);
}

#[test]
fn parse_note_checked_refuses_multibyte_last_character() {
    assert_eq!(NoteUtil::parse_note_checked("aé"), None);
    assert_eq!(NoteUtil::parse_note_checked("é"), None);
    assert_eq!(NoteUtil::parse_note_checked(" C#3 "), Some(Some((NoteName::CsDf, 3))));
    assert_eq!(NoteUtil::parse_note_checked("éa4"), Some(None));
    assert_eq!(NoteUtil::parse_note_checked(""), Some(None));
}

#[test]
fn parse_normalized_note_reads_characters() {
    assert_eq!(NoteUtil::parse_normalized_note("aé"), None);
    assert_eq!(NoteUtil::parse_normalized_note("g#0"), Some((NoteName::GsAf, 0)));
}
