use chart_player::midi::{
    DrumArticulation, DrumKitPiece, DrumKitPieceType, DrumNoteMap, DrumVoice, HitDimension,
};

#[test]
fn kit_piece_types() {
    let t = |p| DrumVoice::new(p, DrumArticulation::DrumHead).get_kit_piece_type();
    assert_eq!(t(DrumKitPiece::NoPiece), DrumKitPieceType::NoPieceType);
    assert_eq!(t(DrumKitPiece::Kick), DrumKitPieceType::Kick);
    assert_eq!(t(DrumKitPiece::Crash3), DrumKitPieceType::Crash);
    assert_eq!(t(DrumKitPiece::Ride2), DrumKitPieceType::Ride);
    assert_eq!(t(DrumKitPiece::Tom5), DrumKitPieceType::Tom);
    assert_eq!(t(DrumKitPiece::Flexi4), DrumKitPieceType::Flexi);
    assert_eq!(t(DrumKitPiece::HiHat), DrumKitPieceType::HiHat);
}

#[test]
fn compatibility_follows_piece_type() {
    let crash = DrumVoice::new(DrumKitPiece::Crash, DrumArticulation::CymbalEdge);
    let crash2 = DrumVoice::new(DrumKitPiece::Crash2, DrumArticulation::CymbalBell);
    let crash3 = DrumVoice::new(DrumKitPiece::Crash3, DrumArticulation::CymbalChoke);
    let ride = DrumVoice::new(DrumKitPiece::Ride, DrumArticulation::CymbalEdge);
    assert!(crash.is_compatible(&crash));
    assert!(crash.is_compatible(&crash2));
    assert!(crash2.is_compatible(&crash));
    assert!(crash2.is_compatible(&crash3) && crash.is_compatible(&crash3));
    assert!(!crash.is_compatible(&ride));
}

#[test]
fn default_articulations() {
    let d = |p| DrumVoice::new(p, DrumArticulation::HiHatSplash).get_default_articulation();
    assert_eq!(d(DrumKitPiece::Kick), DrumArticulation::DrumHead);
    assert_eq!(d(DrumKitPiece::Tom2), DrumArticulation::DrumHead);
    assert_eq!(d(DrumKitPiece::Snare), DrumArticulation::DrumHead);
    assert_eq!(d(DrumKitPiece::HiHat), DrumArticulation::CymbalEdge);
    assert_eq!(d(DrumKitPiece::Crash), DrumArticulation::CymbalEdge);
    assert_eq!(d(DrumKitPiece::Ride2), DrumArticulation::CymbalBow);
    assert_eq!(d(DrumKitPiece::Flexi1), DrumArticulation::FlexiA);
    assert_eq!(d(DrumKitPiece::NoPiece), DrumArticulation::NoArticulation);
    assert_eq!(
        DrumVoice::get_default_articulation_for_type(DrumKitPieceType::Ride),
        DrumArticulation::CymbalBow
    );
}

#[test]
fn display_names() {
    assert_eq!(DrumKitPiece::NoPiece.display_name(), "None");
    assert_eq!(DrumKitPiece::Tom3.display_name(), "Tom3");
    assert_eq!(DrumArticulation::NoArticulation.display_name(), "None");
    assert_eq!(DrumArticulation::DrumHead.display_name(), "Head");
    assert_eq!(DrumArticulation::HiHatClosed.display_name(), "Closed");
    assert_eq!(DrumArticulation::CymbalChoke.display_name(), "Choke");
}

#[test]
fn generic_map_lookups() {
    let m = DrumNoteMap::generic();
    assert_eq!(
        m.get_voice_from_midi_note(36),
        DrumVoice::new(DrumKitPiece::Kick, DrumArticulation::DrumHead)
    );
    assert_eq!(
        m.get_voice_from_midi_note(37),
        DrumVoice::new(DrumKitPiece::Snare, DrumArticulation::SideStick)
    );
    assert_eq!(
        m.get_voice_from_midi_note(46),
        DrumVoice::new(DrumKitPiece::HiHat, DrumArticulation::HiHatOpen)
    );
    assert_eq!(
        m.get_voice_from_midi_note(55),
        DrumVoice::new(DrumKitPiece::Crash3, DrumArticulation::CymbalEdge)
    );
    assert_eq!(
        m.get_voice_from_midi_note(39),
        DrumVoice::new(DrumKitPiece::NoPiece, DrumArticulation::NoArticulation)
    );
}

#[test]
fn empty_map_plays_nothing() {
    let m = DrumNoteMap::new();
    assert_eq!(m.note_on_voice(36), None);
    assert_eq!(m.choke_voice(49), None);
}

#[test]
fn set_voice_is_read_back() {
    let mut m = DrumNoteMap::generic();
    let v = DrumVoice::new(DrumKitPiece::Flexi2, DrumArticulation::FlexiB);
    m.set_voice(36, v);
    assert_eq!(m.get_voice_from_midi_note(36), v);
    assert_eq!(
        m.get_voice_from_midi_note(35),
        DrumVoice::new(DrumKitPiece::Kick, DrumArticulation::DrumHead)
    );
    m.set_voice(100, v);
    assert_eq!(m.note_on_voice(100), Some(v));
}

#[test]
fn note_on_voices() {
    let mut m = DrumNoteMap::generic();
    assert_eq!(
        m.note_on_voice(38),
        Some(DrumVoice::new(DrumKitPiece::Snare, DrumArticulation::DrumHead))
    );
    assert_eq!(m.note_on_voice(0), None);
    m.set_voice(60, DrumVoice::new(DrumKitPiece::NoPiece, DrumArticulation::DrumHead));
    assert_eq!(m.note_on_voice(60), None);
}

#[test]
fn choke_voices_only_for_ride_and_crash() {
    let mut m = DrumNoteMap::generic();
    assert_eq!(
        m.choke_voice(51),
        Some(DrumVoice::new(DrumKitPiece::Ride, DrumArticulation::CymbalChoke))
    );
    assert_eq!(
        m.choke_voice(57),
        Some(DrumVoice::new(DrumKitPiece::Crash2, DrumArticulation::CymbalChoke))
    );
    assert_eq!(m.choke_voice(38), None);
    assert_eq!(m.choke_voice(42), None);
    m.set_voice(70, DrumVoice::new(DrumKitPiece::Ride2, DrumArticulation::CymbalBow));
    assert_eq!(m.choke_voice(70), None);
}

#[test]
fn note_on_dimensions() {
    let hat = DrumVoice::new(DrumKitPiece::HiHat, DrumArticulation::HiHatClosed);
    let open_hat = DrumVoice::new(DrumKitPiece::HiHat, DrumArticulation::HiHatOpen);
    let snare = DrumVoice::new(DrumKitPiece::Snare, DrumArticulation::DrumHead);
    let kick = DrumVoice::new(DrumKitPiece::Kick, DrumArticulation::DrumHead);
    assert_eq!(hat.note_on_dimension(true), HitDimension::HiHatPedal);
    assert_eq!(open_hat.note_on_dimension(true), HitDimension::HiHatPedal);
    assert_eq!(snare.note_on_dimension(true), HitDimension::SnareCenter);
    assert_eq!(kick.note_on_dimension(true), HitDimension::Zero);
    assert_eq!(hat.note_on_dimension(false), HitDimension::One);
    assert_eq!(open_hat.note_on_dimension(false), HitDimension::Zero);
    assert_eq!(snare.note_on_dimension(false), HitDimension::Zero);
}
