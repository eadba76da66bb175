use vstd::prelude::*;

verus! {

broadcast use vstd::string::group_string_axioms;

/// Play statistics and user tags of one song.
#[derive(Debug, Clone)]
pub struct SongStatsEntry {
    pub song: String,
    pub last_played: Option<i64>,
    pub num_plays: i32,
    pub tags: Option<Vec<String>>,
}

/// Play statistics of a set of songs.
#[derive(Debug, Clone)]
pub struct SongStats {
    pub songs: Vec<SongStatsEntry>,
}

/// A named fingering of a chord: per string, the finger and the fret.
#[derive(Debug, Clone)]
pub struct SongChord {
    pub name: Option<String>,
    pub fingers: Vec<i32>,
    pub frets: Vec<i32>,
}

/// The instrument a part of a song is written for.
#[derive(Debug, Clone, Copy, PartialEq, Eq, Structural)]
pub enum SongInstrumentType {
    LeadGuitar,
    RhythmGuitar,
    BassGuitar,
    Drums,
    Keys,
    Vocals,
}

/// The tuning of a stringed part: per string, its offset in semitones from
/// standard tuning.
#[derive(Debug, Clone)]
pub struct SongTuning {
    pub string_semitone_offsets: Vec<i32>,
}

/// The bit flags of the playing techniques a note can carry.
pub struct SongNoteTechnique;

impl SongNoteTechnique {
    pub const CHORD: i32 = 1;
    pub const CHORD_NOTE: i32 = 2;
    pub const CONTINUED: i32 = 4;
    pub const ACCENT: i32 = 8;
    pub const HAMMER_ON: i32 = 16;
    pub const PULL_OFF: i32 = 32;
    pub const FRET_HAND_MUTE: i32 = 64;
    pub const PALM_MUTE: i32 = 128;
    pub const HARMONIC: i32 = 256;
    pub const PINCH_HARMONIC: i32 = 512;
    pub const SLIDE: i32 = 1024;
    pub const VIBRATO: i32 = 2048;
    pub const BEND: i32 = 4096;

    /// Whether a set of technique flags shares a bit with `technique`.
    pub fn is_set(techniques: i32, technique: i32) -> (b: bool)
        ensures
            b == (techniques & technique != 0),
    {
        techniques & technique != 0
    }
}

/// The drum pieces a chart note can name.
#[derive(Debug, Clone, Copy, PartialEq, Eq, Structural)]
pub enum DrumKitPieceSimple {
    Kick,
    Snare,
    HiHat,
    Crash,
    Ride,
    Tom1,
    Tom2,
    Tom3,
}

/// The articulations a chart drum note can name.
#[derive(Debug, Clone, Copy, PartialEq, Eq, Structural)]
pub enum DrumArticulationSimple {
    DrumHead,
    Rim,
    HiHatClosed,
    HiHatOpen,
    CymbalEdge,
    CymbalBow,
    CymbalBell,
}

/// The reference a song is retuned to for playback.
#[derive(Debug, Clone, Copy, PartialEq, Eq, Structural)]
pub enum SongTuningMode {
    NoTuning,
    A440,
    EStandard,
    EbStandard,
    DStandard,
    CSharpStandard,
    CStandard,
    BStandard,
}

/// The drum piece with the given number; numbers outside `0..8` name the kick.
pub open spec fn drum_piece_of_index(val: int) -> DrumKitPieceSimple {
    if val == 1 { DrumKitPieceSimple::Snare }
    else if val == 2 { DrumKitPieceSimple::HiHat }
    else if val == 3 { DrumKitPieceSimple::Crash }
    else if val == 4 { DrumKitPieceSimple::Ride }
    else if val == 5 { DrumKitPieceSimple::Tom1 }
    else if val == 6 { DrumKitPieceSimple::Tom2 }
    else if val == 7 { DrumKitPieceSimple::Tom3 }
    else { DrumKitPieceSimple::Kick }
}

/// The articulation with the given number; numbers outside `0..7` name the drum head.
pub open spec fn drum_articulation_of_index(val: int) -> DrumArticulationSimple {
    if val == 1 { DrumArticulationSimple::Rim }
    else if val == 2 { DrumArticulationSimple::HiHatClosed }
    else if val == 3 { DrumArticulationSimple::HiHatOpen }
    else if val == 4 { DrumArticulationSimple::CymbalEdge }
    else if val == 5 { DrumArticulationSimple::CymbalBow }
    else if val == 6 { DrumArticulationSimple::CymbalBell }
    else { DrumArticulationSimple::DrumHead }
}

/// The tags of a list of strings, as character sequences.
pub open spec fn tag_seq(v: Seq<String>) -> Seq<Seq<char>> {
    v.map_values(|t: String| t@)
}

/// The tags of a statistics entry, as character sequences; `None` when it has no tag list.
pub open spec fn tags_of(e: SongStatsEntry) -> Option<Seq<Seq<char>>> {
    match e.tags {
        Some(v) => Some(tag_seq(v@)),
        None => None,
    }
}

/// The tag list after adding a tag: the tag is appended unless it is there already.
pub open spec fn tags_after_add(tags: Option<Seq<Seq<char>>>, tag: Seq<char>) -> Option<Seq<Seq<char>>> {
    let list = match tags {
        Some(l) => l,
        None => Seq::empty(),
    };
    if list.contains(tag) { Some(list) } else { Some(list.push(tag)) }
}

/// Keeps every tag that differs from `tag`.
pub open spec fn other_than(tag: Seq<char>) -> spec_fn(Seq<char>) -> bool {
    |t: Seq<char>| t != tag
}

/// The tag list after removing a tag: every copy of it goes, and a list left
/// empty becomes no list.
pub open spec fn tags_after_remove(tags: Option<Seq<Seq<char>>>, tag: Seq<char>) -> Option<Seq<Seq<char>>> {
    match tags {
        Some(l) => {
            let kept = l.filter(other_than(tag));
            if kept.len() == 0 { None } else { Some(kept) }
        },
        None => None,
    }
}

/// Whether some entry of a statistics list carries a tag.
pub open spec fn entries_have_tag(stats: Seq<Option<SongStatsEntry>>, tag: Seq<char>) -> bool {
    exists|i: int|
        #![trigger stats[i]]
        0 <= i < stats.len() && match stats[i] {
            Some(e) => match tags_of(e) {
                Some(l) => l.contains(tag),
                None => false,
            },
            None => false,
        }
}

/// Whether a list of tags holds `tag`.
fn list_contains(tags: &Vec<String>, tag: &String) -> (b: bool)
    ensures
        b == tag_seq(tags@).contains(tag@),
{
    let mut i: usize = 0;
    while i < tags.len()
        invariant
            i <= tags.len(),
            forall|j: int| 0 <= j < i ==> tags@[j]@ != tag@,
        decreases tags.len() - i,
    {
        if tags[i] == *tag {
            assert(tag_seq(tags@)[i as int] == tag@);
            return true;
        }
        i = i + 1;
    }
    assert forall|j: int| 0 <= j < tag_seq(tags@).len() implies tag_seq(tags@)[j] != tag@ by {
        assert(tags@[j]@ != tag@);
    }
    false
}

impl SongStatsEntry {
    /// Statistics of a song never played, with no tags.
    pub fn new(song: &str) -> (e: SongStatsEntry)
        ensures
            e.song@ == song@,
            e.last_played is None,
            e.num_plays == 0,
            e.tags is None,
    {
        SongStatsEntry { song: song.to_string(), last_played: None, num_plays: 0, tags: None }
    }

    /// Adds a tag, unless the entry carries it already.
    pub fn add_tag(&mut self, tag: &str)
        ensures
            tags_of(*final(self)) == tags_after_add(tags_of(*old(self)), tag@),
            final(self).song == old(self).song,
            final(self).last_played == old(self).last_played,
            final(self).num_plays == old(self).num_plays,
    {
        let mut tags = match self.tags.take() {
            Some(t) => t,
            None => Vec::new(),
        };
        let t = tag.to_string();
        if !list_contains(&tags, &t) {
            let ghost before = tags@;
            tags.push(t);
            assert(tag_seq(tags@) =~= tag_seq(before).push(tag@));
        }
        self.tags = Some(tags);
    }

    /// Removes every copy of a tag; a tag list left empty is dropped.
    pub fn remove_tag(&mut self, tag: &str)
        ensures
            tags_of(*final(self)) == tags_after_remove(tags_of(*old(self)), tag@),
            final(self).song == old(self).song,
            final(self).last_played == old(self).last_played,
            final(self).num_plays == old(self).num_plays,
    {
        match self.tags.take() {
            Some(tags) => {
                let t = tag.to_string();
                let ghost pred = other_than(tag@);
                let ghost all = tag_seq(tags@);
                let mut kept: Vec<String> = Vec::new();
                let mut i: usize = 0;
                while i < tags.len()
                    invariant
                        i <= tags.len(),
                        all == tag_seq(tags@),
                        t@ == tag@,
                        pred == other_than(tag@),
                        tag_seq(kept@) =~= all.take(i as int).filter(pred),
                    decreases tags.len() - i,
                {
                    reveal_with_fuel(Seq::<_>::filter, 1);
                    assert(all.take(i + 1).drop_last() =~= all.take(i as int));
                    if !(tags[i] == t) {
                        let ghost before = kept@;
                        kept.push(tags[i].clone());
                        assert(tag_seq(kept@) =~= tag_seq(before).push(all[i as int]));
                    }
                    i = i + 1;
                }
                assert(all.take(tags.len() as int) =~= all);
                if kept.len() == 0 {
                    self.tags = None;
                } else {
                    self.tags = Some(kept);
                }
            },
            None => {
                self.tags = None;
            },
        }
    }

    /// Whether some entry of a statistics list carries a tag.
    pub fn any_has_tag(stats: &[Option<SongStatsEntry>], tag: &str) -> (b: bool)
        ensures
            b == entries_have_tag(stats@, tag@),
    {
        let t = tag.to_string();
        let mut i: usize = 0;
        while i < stats.len()
            invariant
                i <= stats.len(),
                t@ == tag@,
                forall|j: int|
                    #![trigger stats@[j]]
                    0 <= j < i ==> !(match stats@[j] {
                        Some(e) => match tags_of(e) {
                            Some(l) => l.contains(tag@),
                            None => false,
                        },
                        None => false,
                    }),
            decreases stats.len() - i,
        {
            if let Some(s) = &stats[i] {
                if let Some(tags) = &s.tags {
                    if list_contains(tags, &t) {
                        assert(stats@[i as int] == Some(*s));
                        return true;
                    }
                }
            }
            i = i + 1;
        }
        false
    }
}

impl SongStats {
    /// Statistics of no song.
    pub fn new() -> (s: SongStats)
        ensures
            s.songs@.len() == 0,
    {
        SongStats { songs: Vec::new() }
    }
}

impl SongChord {
    /// A chord with the given name, fingers and frets.
    pub fn new(name: Option<&str>, fingers: Vec<i32>, frets: Vec<i32>) -> (c: SongChord)
        ensures
            match name {
                Some(n) => c.name is Some && c.name->0@ == n@,
                None => c.name is None,
            },
            c.fingers@ == fingers@,
            c.frets@ == frets@,
    {
        let name = match name {
            Some(value) => Some(value.to_string()),
            None => None,
        };
        SongChord { name, fingers, frets }
    }
}

impl SongTuning {
    /// A tuning with no strings listed.
    pub fn new() -> (t: SongTuning)
        ensures
            t.string_semitone_offsets@.len() == 0,
    {
        SongTuning { string_semitone_offsets: Vec::new() }
    }

    /// Whether the second string is tuned away from standard; a tuning that
    /// lists fewer than two strings is not.
    pub fn is_offset_from_standard(&self) -> (b: bool)
        ensures
            b == (self.string_semitone_offsets@.len() > 1 && self.string_semitone_offsets@[1] != 0),
    {
        if self.string_semitone_offsets.len() > 1 {
            self.string_semitone_offsets[1] != 0
        } else {
            false
        }
    }
}

impl DrumKitPieceSimple {
    /// The drum piece with the given number; numbers outside `0..8` name the kick.
    pub fn from_i32(val: i32) -> (p: DrumKitPieceSimple)
        ensures
            p == drum_piece_of_index(val as int),
    {
        match val {
            0 => DrumKitPieceSimple::Kick,
            1 => DrumKitPieceSimple::Snare,
            2 => DrumKitPieceSimple::HiHat,
            3 => DrumKitPieceSimple::Crash,
            4 => DrumKitPieceSimple::Ride,
            5 => DrumKitPieceSimple::Tom1,
            6 => DrumKitPieceSimple::Tom2,
            7 => DrumKitPieceSimple::Tom3,
            _ => DrumKitPieceSimple::Kick,
        }
    }
}

impl DrumArticulationSimple {
    /// The articulation with the given number; numbers outside `0..7` name the drum head.
    pub fn from_i32(val: i32) -> (a: DrumArticulationSimple)
        ensures
            a == drum_articulation_of_index(val as int),
    {
        match val {
            0 => DrumArticulationSimple::DrumHead,
            1 => DrumArticulationSimple::Rim,
            2 => DrumArticulationSimple::HiHatClosed,
            3 => DrumArticulationSimple::HiHatOpen,
            4 => DrumArticulationSimple::CymbalEdge,
            5 => DrumArticulationSimple::CymbalBow,
            6 => DrumArticulationSimple::CymbalBell,
            _ => DrumArticulationSimple::DrumHead,
        }
    }
}

/// Filtering out a tag that a list does not hold leaves the list as it is.
proof fn lemma_filter_absent_tag(l: Seq<Seq<char>>, tag: Seq<char>)
    requires
        !l.contains(tag),
    ensures
        l.filter(other_than(tag)) == l,
    decreases l.len(),
{
    reveal_with_fuel(Seq::<_>::filter, 1);
    if l.len() > 0 {
        let init = l.drop_last();
        assert(!init.contains(tag)) by {
            if init.contains(tag) {
                let j = choose|j: int| 0 <= j < init.len() && init[j] == tag;
                assert(l[j] == tag);
            }
        }
        lemma_filter_absent_tag(init, tag);
        assert(l.last() != tag) by {
            assert(l[l.len() - 1] == l.last());
        }
        assert(init.push(l.last()) =~= l);
    }
}

/// Once a tag is added, the entry carries it.
pub proof fn lemma_added_tag_is_carried(tags: Option<Seq<Seq<char>>>, tag: Seq<char>)
    ensures
        tags_after_add(tags, tag) is Some,
        tags_after_add(tags, tag)->0.contains(tag),
{
    let list = match tags {
        Some(l) => l,
        None => Seq::empty(),
    };
    if !list.contains(tag) {
        assert(list.push(tag)[list.len() as int] == tag);
    }
}

/// Adding a tag twice is adding it once.
pub proof fn lemma_add_tag_idempotent(tags: Option<Seq<Seq<char>>>, tag: Seq<char>)
    ensures
        tags_after_add(tags_after_add(tags, tag), tag) == tags_after_add(tags, tag),
{
    lemma_added_tag_is_carried(tags, tag);
}

/// Adding a tag never makes a tag list hold a tag twice.
pub proof fn lemma_add_tag_keeps_tags_distinct(tags: Option<Seq<Seq<char>>>, tag: Seq<char>)
    requires
        tags matches Some(l) ==> l.no_duplicates(),
    ensures
        tags_after_add(tags, tag)->0.no_duplicates(),
{
    let list = match tags {
        Some(l) => l,
        None => Seq::empty(),
    };
    if !list.contains(tag) {
        let r = list.push(tag);
        assert forall|i: int, j: int| 0 <= i < r.len() && 0 <= j < r.len() && i != j implies r[i]
            != r[j] by {
            if i == list.len() {
                assert(list[j] == r[j]);
            } else if j == list.len() {
                assert(list[i] == r[i]);
            }
        }
    }
}

/// Once a tag is removed, the entry no longer carries it.
pub proof fn lemma_removed_tag_is_gone(tags: Option<Seq<Seq<char>>>, tag: Seq<char>)
    ensures
        tags_after_remove(tags, tag) matches Some(l) ==> !l.contains(tag),
{
    if let Some(l) = tags {
        let kept = l.filter(other_than(tag));
        if kept.contains(tag) {
            let j = choose|j: int| 0 <= j < kept.len() && kept[j] == tag;
            l.lemma_filter_pred(other_than(tag), j);
        }
    }
}

/// Removing a tag just added undoes the addition, when the entry did not carry
/// the tag before and had either no tag list or a non-empty one.
pub proof fn lemma_remove_undoes_add(tags: Option<Seq<Seq<char>>>, tag: Seq<char>)
    requires
        tags matches Some(l) ==> l.len() > 0 && !l.contains(tag),
    ensures
        tags_after_remove(tags_after_add(tags, tag), tag) == tags,
{
    let list = match tags {
        Some(l) => l,
        None => Seq::<Seq<char>>::empty(),
    };
    assert(!list.contains(tag));
    list.lemma_filter_push(tag, other_than(tag));
    lemma_filter_absent_tag(list, tag);
    if tags is None {
        assert(list.filter(other_than(tag)).len() == 0);
    }
}

/// The tag search answers whether some entry of the list, at any index from
/// the first on, is present and has a tag list holding the tag.
pub proof fn lemma_tag_search_finds_any_entry(stats: Seq<Option<SongStatsEntry>>, tag: Seq<char>)
    ensures
        entries_have_tag(stats, tag) <==> exists|i: int|
            0 <= i < stats.len() && (#[trigger] stats[i]) is Some && stats[i].unwrap().tags is Some
                && tag_seq(stats[i].unwrap().tags.unwrap()@).contains(tag),
{
    if entries_have_tag(stats, tag) {
        let i = choose|i: int|
            #![trigger stats[i]]
            0 <= i < stats.len() && match stats[i] {
                Some(e) => match tags_of(e) {
                    Some(l) => l.contains(tag),
                    None => false,
                },
                None => false,
            };
        assert(stats[i] is Some);
    }
    if exists|i: int|
        0 <= i < stats.len() && (#[trigger] stats[i]) is Some && stats[i].unwrap().tags is Some
            && tag_seq(stats[i].unwrap().tags.unwrap()@).contains(tag) {
        let i = choose|i: int|
            0 <= i < stats.len() && (#[trigger] stats[i]) is Some && stats[i].unwrap().tags is Some
                && tag_seq(stats[i].unwrap().tags.unwrap()@).contains(tag);
        assert(stats[i] is Some);
    }
}

/// An entry that has just been given a tag is found by the search, wherever
/// it stands in the list.
pub proof fn lemma_tagged_entry_is_found(
    stats: Seq<Option<SongStatsEntry>>,
    i: int,
    before: SongStatsEntry,
    after: SongStatsEntry,
    tag: Seq<char>,
)
    requires
        0 <= i < stats.len(),
        stats[i] == Some(after),
        tags_of(after) == tags_after_add(tags_of(before), tag),
    ensures
        entries_have_tag(stats, tag),
{
    lemma_added_tag_is_carried(tags_of(before), tag);
    assert(stats[i] == Some(after));
}

/// The numbers 0 to 7 name eight different drum pieces and 0 to 6 seven
/// different articulations; every other number names what 0 names.
pub proof fn lemma_drum_numbering(a: int, b: int)
    ensures
        0 <= a < 8 && 0 <= b < 8 && a != b ==> drum_piece_of_index(a) != drum_piece_of_index(b),
        !(0 <= a < 8) ==> drum_piece_of_index(a) == drum_piece_of_index(0),
        0 <= a < 7 && 0 <= b < 7 && a != b ==> drum_articulation_of_index(a)
            != drum_articulation_of_index(b),
        !(0 <= a < 7) ==> drum_articulation_of_index(a) == drum_articulation_of_index(0),
{
}

} // verus!
