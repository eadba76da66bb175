use chart_player::song::{
    DrumArticulationSimple, DrumKitPieceSimple, SongChord, SongNoteTechnique, SongStats,
    SongStatsEntry, SongTuning,
};

fn tags(e: &SongStatsEntry) -> Option<Vec<String>> {
    e.tags.clone()
}

#[test]
fn new_stats_entry_is_blank() {
    let e = SongStatsEntry::new("Song A");
    assert_eq!(e.song, "Song A");
    assert_eq!(e.last_played, None);
    assert_eq!(e.num_plays, 0);
    assert_eq!(e.tags, None);
    assert!(SongStats::new().songs.is_empty());
}

#[test]
fn add_tag_appends_once() {
    let mut e = SongStatsEntry::new("x");
    e.add_tag("fav");
    assert_eq!(tags(&e), Some(vec!["fav".to_string()]));
    e.add_tag("fast");
    e.add_tag("fav");
    assert_eq!(tags(&e), Some(vec!["fav".to_string(), "fast".to_string()]));
}

#[test]
fn remove_tag_drops_every_copy_and_empty_list() {
    let mut e = SongStatsEntry::new("x");
    e.tags = Some(vec!["a".to_string(), "b".to_string(), "a".to_string()]);
    e.remove_tag("a");
    assert_eq!(tags(&e), Some(vec!["b".to_string()]));
    e.remove_tag("zzz");
    assert_eq!(tags(&e), Some(vec!["b".to_string()]));
    e.remove_tag("b");
    assert_eq!(tags(&e), None);
    e.remove_tag("b");
    assert_eq!(tags(&e), None);
}

#[test]
fn remove_undoes_add_law() {
    let mut e = SongStatsEntry::new("x");
    e.add_tag("t");
    e.remove_tag("t");
    assert_eq!(tags(&e), None);
    e.tags = Some(vec!["keep".to_string()]);
    e.add_tag("t");
    e.remove_tag("t");
    assert_eq!(tags(&e), Some(vec!["keep".to_string()]));
}

#[test]
fn remove_after_add_on_empty_list_drops_list() {
    let mut e = SongStatsEntry::new("x");
    e.tags = Some(Vec::new());
    e.add_tag("t");
    e.remove_tag("t");
    assert_eq!(tags(&e), None);
}

#[test]
fn any_has_tag_searches_all_entries() {
    let mut a = SongStatsEntry::new("a");
    a.add_tag("one");
    let mut b = SongStatsEntry::new("b");
    b.add_tag("two");
    let stats = vec![None, Some(a), Some(SongStatsEntry::new("c")), Some(b)];
    assert!(SongStatsEntry::any_has_tag(&stats, "one"));
    assert!(SongStatsEntry::any_has_tag(&stats, "two"));
    assert!(!SongStatsEntry::any_has_tag(&stats, "three"));
    assert!(!SongStatsEntry::any_has_tag(&[], "one"));
}

#[test]
fn chord_new_copies_name() {
    let c = SongChord::new(Some("G"), vec![2, 1, 0, 0, 0, 3], vec![3, 2, 0, 0, 0, 3]);
    assert_eq!(c.name.as_deref(), Some("G"));
    assert_eq!(c.fingers, vec![2, 1, 0, 0, 0, 3]);
    assert_eq!(c.frets, vec![3, 2, 0, 0, 0, 3]);
    assert_eq!(SongChord::new(None, vec![], vec![]).name, None);
}

#[test]
fn tuning_offset_looks_at_second_string() {
    assert!(!SongTuning::new().is_offset_from_standard());
    let t = SongTuning { string_semitone_offsets: vec![-2, 0, 0, 0, 0, 0] };
    assert!(!t.is_offset_from_standard());
    let t = SongTuning { string_semitone_offsets: vec![0, -1, 0, 0, 0, 0] };
    assert!(t.is_offset_from_standard());
    let t = SongTuning { string_semitone_offsets: vec![5] };
    assert!(!t.is_offset_from_standard());
}

#[test]
fn drum_pieces_from_numbers() {
    assert_eq!(DrumKitPieceSimple::from_i32(0), DrumKitPieceSimple::Kick);
    assert_eq!(DrumKitPieceSimple::from_i32(2), DrumKitPieceSimple::HiHat);
    assert_eq!(DrumKitPieceSimple::from_i32(7), DrumKitPieceSimple::Tom3);
    assert_eq!(DrumKitPieceSimple::from_i32(8), DrumKitPieceSimple::Kick);
    assert_eq!(DrumKitPieceSimple::from_i32(-1), DrumKitPieceSimple::Kick);
    assert_eq!(DrumArticulationSimple::from_i32(1), DrumArticulationSimple::Rim);
    assert_eq!(DrumArticulationSimple::from_i32(6), DrumArticulationSimple::CymbalBell);
    assert_eq!(DrumArticulationSimple::from_i32(7), DrumArticulationSimple::DrumHead);
}

#[test]
fn technique_flags() {
    let t = SongNoteTechnique::CHORD | SongNoteTechnique::ACCENT;
    assert!(SongNoteTechnique::is_set(t, SongNoteTechnique::ACCENT));
    assert!(SongNoteTechnique::is_set(t, SongNoteTechnique::CHORD));
    assert!(!SongNoteTechnique::is_set(t, SongNoteTechnique::BEND));
    assert_eq!(SongNoteTechnique::BEND, 1 << 12);
    assert_eq!(SongNoteTechnique::SLIDE, 1 << 10);
}
