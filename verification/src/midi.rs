use std::collections::HashMap;
use vstd::prelude::*;

verus! {

broadcast use vstd::std_specs::hash::group_hash_axioms;

/// The pieces of a drum kit that a MIDI note can be mapped to.
#[derive(Debug, Clone, Copy, PartialEq, Eq, Hash, Structural)]
pub enum DrumKitPiece {
    NoPiece,
    Kick,
    Snare,
    HiHat,
    Crash,
    Crash2,
    Crash3,
    Ride,
    Ride2,
    Tom1,
    Tom2,
    Tom3,
    Tom4,
    Tom5,
    Flexi1,
    Flexi2,
    Flexi3,
    Flexi4,
}

/// The kinds of kit piece; pieces of one kind are interchangeable.
#[derive(Debug, Clone, Copy, PartialEq, Eq, Hash, Structural)]
pub enum DrumKitPieceType {
    NoPieceType,
    Kick,
    Snare,
    HiHat,
    Crash,
    Ride,
    Tom,
    Flexi,
}

/// The ways a kit piece can be struck.
#[derive(Debug, Clone, Copy, PartialEq, Eq, Hash, Structural)]
pub enum DrumArticulation {
    NoArticulation,
    DrumHead,
    DrumHeadEdge,
    DrumRim,
    SideStick,
    HiHatClosed,
    HiHatOpen,
    HiHatChick,
    HiHatSplash,
    CymbalEdge,
    CymbalBow,
    CymbalBell,
    CymbalChoke,
    FlexiA,
    FlexiB,
    FlexiC,
}

/// A kit piece together with the way it is struck.
#[derive(Debug, Clone, Copy, PartialEq, Eq, Hash, Structural)]
pub struct DrumVoice {
    pub kit_piece: DrumKitPiece,
    pub articulation: DrumArticulation,
}

/// Where the dimension value of a note-on hit comes from: a fixed 0 or 1, the
/// hi-hat pedal position, or the configured snare center position.
#[derive(Debug, Clone, Copy, PartialEq, Eq, Structural)]
pub enum HitDimension {
    Zero,
    One,
    HiHatPedal,
    SnareCenter,
}

/// The kind of a kit piece.
pub open spec fn kit_piece_type_of(p: DrumKitPiece) -> DrumKitPieceType {
    match p {
        DrumKitPiece::NoPiece => DrumKitPieceType::NoPieceType,
        DrumKitPiece::Kick => DrumKitPieceType::Kick,
        DrumKitPiece::Snare => DrumKitPieceType::Snare,
        DrumKitPiece::HiHat => DrumKitPieceType::HiHat,
        DrumKitPiece::Crash | DrumKitPiece::Crash2 | DrumKitPiece::Crash3 => DrumKitPieceType::Crash,
        DrumKitPiece::Ride | DrumKitPiece::Ride2 => DrumKitPieceType::Ride,
        DrumKitPiece::Tom1 | DrumKitPiece::Tom2 | DrumKitPiece::Tom3 | DrumKitPiece::Tom4
        | DrumKitPiece::Tom5 => DrumKitPieceType::Tom,
        DrumKitPiece::Flexi1 | DrumKitPiece::Flexi2 | DrumKitPiece::Flexi3
        | DrumKitPiece::Flexi4 => DrumKitPieceType::Flexi,
    }
}

/// The articulation a piece of the given kind is struck with by default.
pub open spec fn default_articulation_of(t: DrumKitPieceType) -> DrumArticulation {
    match t {
        DrumKitPieceType::Kick | DrumKitPieceType::Tom | DrumKitPieceType::Snare => DrumArticulation::DrumHead,
        DrumKitPieceType::HiHat => DrumArticulation::CymbalEdge,
        DrumKitPieceType::Crash => DrumArticulation::CymbalEdge,
        DrumKitPieceType::Ride => DrumArticulation::CymbalBow,
        DrumKitPieceType::Flexi => DrumArticulation::FlexiA,
        DrumKitPieceType::NoPieceType => DrumArticulation::NoArticulation,
    }
}

/// Two voices are compatible when their pieces are of the same kind.
pub open spec fn voices_compatible(a: DrumVoice, b: DrumVoice) -> bool {
    kit_piece_type_of(a.kit_piece) == kit_piece_type_of(b.kit_piece)
}

/// The label a kit piece is shown with.
pub open spec fn kit_piece_label(p: DrumKitPiece) -> Seq<char> {
    match p {
        DrumKitPiece::NoPiece => "None"@,
        DrumKitPiece::Kick => "Kick"@,
        DrumKitPiece::Snare => "Snare"@,
        DrumKitPiece::HiHat => "HiHat"@,
        DrumKitPiece::Crash => "Crash"@,
        DrumKitPiece::Crash2 => "Crash2"@,
        DrumKitPiece::Crash3 => "Crash3"@,
        DrumKitPiece::Ride => "Ride"@,
        DrumKitPiece::Ride2 => "Ride2"@,
        DrumKitPiece::Tom1 => "Tom1"@,
        DrumKitPiece::Tom2 => "Tom2"@,
        DrumKitPiece::Tom3 => "Tom3"@,
        DrumKitPiece::Tom4 => "Tom4"@,
        DrumKitPiece::Tom5 => "Tom5"@,
        DrumKitPiece::Flexi1 => "Flexi1"@,
        DrumKitPiece::Flexi2 => "Flexi2"@,
        DrumKitPiece::Flexi3 => "Flexi3"@,
        DrumKitPiece::Flexi4 => "Flexi4"@,
    }
}

/// The label an articulation is shown with.
pub open spec fn articulation_label(a: DrumArticulation) -> Seq<char> {
    match a {
        DrumArticulation::NoArticulation => "None"@,
        DrumArticulation::DrumHead => "Head"@,
        DrumArticulation::DrumHeadEdge => "HeadEdge"@,
        DrumArticulation::DrumRim => "Rim"@,
        DrumArticulation::SideStick => "SideStick"@,
        DrumArticulation::HiHatClosed => "Closed"@,
        DrumArticulation::HiHatOpen => "Open"@,
        DrumArticulation::HiHatChick => "Chick"@,
        DrumArticulation::HiHatSplash => "Splash"@,
        DrumArticulation::CymbalEdge => "Edge"@,
        DrumArticulation::CymbalBow => "Bow"@,
        DrumArticulation::CymbalBell => "Bell"@,
        DrumArticulation::CymbalChoke => "Choke"@,
        DrumArticulation::FlexiA => "FlexiA"@,
        DrumArticulation::FlexiB => "FlexiB"@,
        DrumArticulation::FlexiC => "FlexiC"@,
    }
}

/// The voice that stands for "no voice": no piece, no articulation.
pub open spec fn no_voice() -> DrumVoice {
    DrumVoice { kit_piece: DrumKitPiece::NoPiece, articulation: DrumArticulation::NoArticulation }
}

/// Whether a piece is a ride or crash cymbal, the pieces that can be choked.
pub open spec fn is_chokable(p: DrumKitPiece) -> bool {
    p == DrumKitPiece::Ride || p == DrumKitPiece::Crash || p == DrumKitPiece::Crash2
        || p == DrumKitPiece::Crash3
}

/// Where the dimension value of a note-on hit on a voice comes from. A live hit
/// on the hi-hat follows the pedal and one on the snare takes the snare center;
/// a recorded hi-hat hit is open (0) when its articulation is `HiHatOpen` and
/// closed (1) otherwise; every other hit has 0.
pub open spec fn note_on_dimension_of(v: DrumVoice, is_live: bool) -> HitDimension {
    if is_live {
        if v.kit_piece == DrumKitPiece::HiHat {
            HitDimension::HiHatPedal
        } else if v.kit_piece == DrumKitPiece::Snare {
            HitDimension::SnareCenter
        } else {
            HitDimension::Zero
        }
    } else if v.kit_piece == DrumKitPiece::HiHat {
        if v.articulation == DrumArticulation::HiHatOpen {
            HitDimension::Zero
        } else {
            HitDimension::One
        }
    } else {
        HitDimension::Zero
    }
}

impl DrumKitPiece {
    /// The label this piece is shown with, its variant name.
    pub fn display_name(&self) -> (s: &'static str)
        ensures
            s@ == kit_piece_label(*self),
    {
        match self {
            DrumKitPiece::NoPiece => "None",
            DrumKitPiece::Kick => "Kick",
            DrumKitPiece::Snare => "Snare",
            DrumKitPiece::HiHat => "HiHat",
            DrumKitPiece::Crash => "Crash",
            DrumKitPiece::Crash2 => "Crash2",
            DrumKitPiece::Crash3 => "Crash3",
            DrumKitPiece::Ride => "Ride",
            DrumKitPiece::Ride2 => "Ride2",
            DrumKitPiece::Tom1 => "Tom1",
            DrumKitPiece::Tom2 => "Tom2",
            DrumKitPiece::Tom3 => "Tom3",
            DrumKitPiece::Tom4 => "Tom4",
            DrumKitPiece::Tom5 => "Tom5",
            DrumKitPiece::Flexi1 => "Flexi1",
            DrumKitPiece::Flexi2 => "Flexi2",
            DrumKitPiece::Flexi3 => "Flexi3",
            DrumKitPiece::Flexi4 => "Flexi4",
        }
    }
}

impl DrumArticulation {
    /// The short label this articulation is shown with, such as `"Head"`.
    pub fn display_name(&self) -> (s: &'static str)
        ensures
            s@ == articulation_label(*self),
    {
        match self {
            DrumArticulation::NoArticulation => "None",
            DrumArticulation::DrumHead => "Head",
            DrumArticulation::DrumHeadEdge => "HeadEdge",
            DrumArticulation::DrumRim => "Rim",
            DrumArticulation::SideStick => "SideStick",
            DrumArticulation::HiHatClosed => "Closed",
            DrumArticulation::HiHatOpen => "Open",
            DrumArticulation::HiHatChick => "Chick",
            DrumArticulation::HiHatSplash => "Splash",
            DrumArticulation::CymbalEdge => "Edge",
            DrumArticulation::CymbalBow => "Bow",
            DrumArticulation::CymbalBell => "Bell",
            DrumArticulation::CymbalChoke => "Choke",
            DrumArticulation::FlexiA => "FlexiA",
            DrumArticulation::FlexiB => "FlexiB",
            DrumArticulation::FlexiC => "FlexiC",
        }
    }
}

impl DrumVoice {
    /// A voice of the given piece and articulation.
    pub fn new(kit_piece: DrumKitPiece, articulation: DrumArticulation) -> (v: DrumVoice)
        ensures
            v.kit_piece == kit_piece,
            v.articulation == articulation,
    {
        DrumVoice { kit_piece, articulation }
    }

    /// The kind of this voice's piece.
    pub fn get_kit_piece_type(&self) -> (t: DrumKitPieceType)
        ensures
            t == kit_piece_type_of(self.kit_piece),
    {
        match self.kit_piece {
            DrumKitPiece::NoPiece => DrumKitPieceType::NoPieceType,
            DrumKitPiece::Kick => DrumKitPieceType::Kick,
            DrumKitPiece::Snare => DrumKitPieceType::Snare,
            DrumKitPiece::HiHat => DrumKitPieceType::HiHat,
            DrumKitPiece::Crash | DrumKitPiece::Crash2 | DrumKitPiece::Crash3 => {
                DrumKitPieceType::Crash
            },
            DrumKitPiece::Ride | DrumKitPiece::Ride2 => DrumKitPieceType::Ride,
            DrumKitPiece::Tom1
            | DrumKitPiece::Tom2
            | DrumKitPiece::Tom3
            | DrumKitPiece::Tom4
            | DrumKitPiece::Tom5 => DrumKitPieceType::Tom,
            DrumKitPiece::Flexi1
            | DrumKitPiece::Flexi2
            | DrumKitPiece::Flexi3
            | DrumKitPiece::Flexi4 => DrumKitPieceType::Flexi,
        }
    }

    /// Whether the two voices' pieces are of the same kind.
    pub fn is_compatible(&self, other: &DrumVoice) -> (b: bool)
        ensures
            b == voices_compatible(*self, *other),
    {
        self.get_kit_piece_type() == other.get_kit_piece_type()
    }

    /// The articulation this voice's kind of piece is struck with by default.
    pub fn get_default_articulation(&self) -> (a: DrumArticulation)
        ensures
            a == default_articulation_of(kit_piece_type_of(self.kit_piece)),
    {
        Self::get_default_articulation_for_type(self.get_kit_piece_type())
    }

    /// The articulation a piece of the given kind is struck with by default.
    pub fn get_default_articulation_for_type(kit_type: DrumKitPieceType) -> (a: DrumArticulation)
        ensures
            a == default_articulation_of(kit_type),
    {
        match kit_type {
            DrumKitPieceType::Kick | DrumKitPieceType::Tom | DrumKitPieceType::Snare => {
                DrumArticulation::DrumHead
            },
            DrumKitPieceType::HiHat => DrumArticulation::CymbalEdge,
            DrumKitPieceType::Crash => DrumArticulation::CymbalEdge,
            DrumKitPieceType::Ride => DrumArticulation::CymbalBow,
            DrumKitPieceType::Flexi => DrumArticulation::FlexiA,
            DrumKitPieceType::NoPieceType => DrumArticulation::NoArticulation,
        }
    }

    /// Where the dimension value of a note-on hit on this voice comes from.
    pub fn note_on_dimension(&self, is_live: bool) -> (d: HitDimension)
        ensures
            d == note_on_dimension_of(*self, is_live),
    {
        if is_live {
            if self.kit_piece == DrumKitPiece::HiHat {
                HitDimension::HiHatPedal
            } else if self.kit_piece == DrumKitPiece::Snare {
                HitDimension::SnareCenter
            } else {
                HitDimension::Zero
            }
        } else if self.kit_piece == DrumKitPiece::HiHat {
            if self.articulation == DrumArticulation::HiHatOpen {
                HitDimension::Zero
            } else {
                HitDimension::One
            }
        } else {
            HitDimension::Zero
        }
    }
}

/// The voice a MIDI note plays under a note map: the mapped voice, or no voice.
pub open spec fn voice_for(m: Map<i32, DrumVoice>, midi_note: i32) -> DrumVoice {
    if m.contains_key(midi_note) { m[midi_note] } else { no_voice() }
}

/// The note map of a generic General MIDI drum module.
pub open spec fn generic_note_map() -> Map<i32, DrumVoice> {
    map![
        35i32 => DrumVoice { kit_piece: DrumKitPiece::Kick, articulation: DrumArticulation::DrumHead },
        36i32 => DrumVoice { kit_piece: DrumKitPiece::Kick, articulation: DrumArticulation::DrumHead },
        38i32 => DrumVoice { kit_piece: DrumKitPiece::Snare, articulation: DrumArticulation::DrumHead },
        37i32 => DrumVoice { kit_piece: DrumKitPiece::Snare, articulation: DrumArticulation::SideStick },
        40i32 => DrumVoice { kit_piece: DrumKitPiece::Snare, articulation: DrumArticulation::DrumHead },
        48i32 => DrumVoice { kit_piece: DrumKitPiece::Tom1, articulation: DrumArticulation::DrumHead },
        45i32 => DrumVoice { kit_piece: DrumKitPiece::Tom2, articulation: DrumArticulation::DrumHead },
        43i32 => DrumVoice { kit_piece: DrumKitPiece::Tom3, articulation: DrumArticulation::DrumHead },
        47i32 => DrumVoice { kit_piece: DrumKitPiece::Tom4, articulation: DrumArticulation::DrumHead },
        46i32 => DrumVoice { kit_piece: DrumKitPiece::HiHat, articulation: DrumArticulation::HiHatOpen },
        42i32 => DrumVoice { kit_piece: DrumKitPiece::HiHat, articulation: DrumArticulation::HiHatClosed },
        44i32 => DrumVoice { kit_piece: DrumKitPiece::HiHat, articulation: DrumArticulation::HiHatChick },
        51i32 => DrumVoice { kit_piece: DrumKitPiece::Ride, articulation: DrumArticulation::CymbalBow },
        53i32 => DrumVoice { kit_piece: DrumKitPiece::Ride, articulation: DrumArticulation::CymbalBell },
        59i32 => DrumVoice { kit_piece: DrumKitPiece::Ride, articulation: DrumArticulation::CymbalEdge },
        49i32 => DrumVoice { kit_piece: DrumKitPiece::Crash, articulation: DrumArticulation::CymbalEdge },
        57i32 => DrumVoice { kit_piece: DrumKitPiece::Crash2, articulation: DrumArticulation::CymbalEdge },
        55i32 => DrumVoice { kit_piece: DrumKitPiece::Crash3, articulation: DrumArticulation::CymbalEdge }
    ]
}

/// The map from MIDI note numbers to drum voices of a drum MIDI device.
#[derive(Debug, Clone)]
pub struct DrumNoteMap {
    midi_map: HashMap<i32, DrumVoice>,
}

impl View for DrumNoteMap {
    type V = Map<i32, DrumVoice>;

    closed spec fn view(&self) -> Map<i32, DrumVoice> {
        self.midi_map@
    }
}

impl DrumNoteMap {
    /// A map with no note mapped.
    pub fn new() -> (m: DrumNoteMap)
        ensures
            m@ == Map::<i32, DrumVoice>::empty(),
    {
        DrumNoteMap { midi_map: HashMap::new() }
    }

    /// The map of a generic General MIDI drum module: kick, snare, four toms,
    /// hi-hat, ride and three crashes.
    pub fn generic() -> (m: DrumNoteMap)
        ensures
            m@ == generic_note_map(),
    {
        let mut m = HashMap::new();
        m.insert(35, DrumVoice::new(DrumKitPiece::Kick, DrumArticulation::DrumHead));
        m.insert(36, DrumVoice::new(DrumKitPiece::Kick, DrumArticulation::DrumHead));
        m.insert(38, DrumVoice::new(DrumKitPiece::Snare, DrumArticulation::DrumHead));
        m.insert(37, DrumVoice::new(DrumKitPiece::Snare, DrumArticulation::SideStick));
        m.insert(40, DrumVoice::new(DrumKitPiece::Snare, DrumArticulation::DrumHead));
        m.insert(48, DrumVoice::new(DrumKitPiece::Tom1, DrumArticulation::DrumHead));
        m.insert(45, DrumVoice::new(DrumKitPiece::Tom2, DrumArticulation::DrumHead));
        m.insert(43, DrumVoice::new(DrumKitPiece::Tom3, DrumArticulation::DrumHead));
        m.insert(47, DrumVoice::new(DrumKitPiece::Tom4, DrumArticulation::DrumHead));
        m.insert(46, DrumVoice::new(DrumKitPiece::HiHat, DrumArticulation::HiHatOpen));
        m.insert(42, DrumVoice::new(DrumKitPiece::HiHat, DrumArticulation::HiHatClosed));
        m.insert(44, DrumVoice::new(DrumKitPiece::HiHat, DrumArticulation::HiHatChick));
        m.insert(51, DrumVoice::new(DrumKitPiece::Ride, DrumArticulation::CymbalBow));
        m.insert(53, DrumVoice::new(DrumKitPiece::Ride, DrumArticulation::CymbalBell));
        m.insert(59, DrumVoice::new(DrumKitPiece::Ride, DrumArticulation::CymbalEdge));
        m.insert(49, DrumVoice::new(DrumKitPiece::Crash, DrumArticulation::CymbalEdge));
        m.insert(57, DrumVoice::new(DrumKitPiece::Crash2, DrumArticulation::CymbalEdge));
        m.insert(55, DrumVoice::new(DrumKitPiece::Crash3, DrumArticulation::CymbalEdge));
        DrumNoteMap { midi_map: m }
    }

    /// The voice a MIDI note is mapped to, or no voice when it is not mapped.
    pub fn get_voice_from_midi_note(&self, midi_note: i32) -> (v: DrumVoice)
        ensures
            v == voice_for(self@, midi_note),
    {
        match self.midi_map.get(&midi_note) {
            Some(v) => *v,
            None => DrumVoice::new(DrumKitPiece::NoPiece, DrumArticulation::NoArticulation),
        }
    }

    /// Maps a MIDI note to a voice, replacing what it was mapped to.
    pub fn set_voice(&mut self, midi_note: i32, voice: DrumVoice)
        ensures
            final(self)@ == old(self)@.insert(midi_note, voice),
    {
        self.midi_map.insert(midi_note, voice);
    }

    /// The voice a note-on event for a MIDI note hits: the mapped voice, unless
    /// the note plays no piece.
    pub fn note_on_voice(&self, midi_note: i32) -> (v: Option<DrumVoice>)
        ensures
            v == (if voice_for(self@, midi_note).kit_piece != DrumKitPiece::NoPiece {
                Some(voice_for(self@, midi_note))
            } else {
                None
            }),
    {
        let voice = self.get_voice_from_midi_note(midi_note);
        if voice.kit_piece != DrumKitPiece::NoPiece {
            Some(voice)
        } else {
            None
        }
    }

    /// The voice a poly-pressure event for a MIDI note hits: a choke of the
    /// mapped piece when that piece is a ride or crash cymbal, and none otherwise.
    pub fn choke_voice(&self, midi_note: i32) -> (v: Option<DrumVoice>)
        ensures
            v == (if is_chokable(voice_for(self@, midi_note).kit_piece) {
                Some(DrumVoice {
                    kit_piece: voice_for(self@, midi_note).kit_piece,
                    articulation: DrumArticulation::CymbalChoke,
                })
            } else {
                None
            }),
    {
        let voice = self.get_voice_from_midi_note(midi_note);
        if voice.kit_piece != DrumKitPiece::NoPiece {
            let ride_type = voice.kit_piece == DrumKitPiece::Ride
                || voice.kit_piece == DrumKitPiece::Crash
                || voice.kit_piece == DrumKitPiece::Crash2
                || voice.kit_piece == DrumKitPiece::Crash3;
            if ride_type {
                return Some(DrumVoice::new(voice.kit_piece, DrumArticulation::CymbalChoke));
            }
        }
        None
    }
}

/// Compatibility of voices is an equivalence: every voice is compatible with
/// itself, compatibility is symmetric, and it is transitive.
pub proof fn lemma_compatibility_is_equivalence(a: DrumVoice, b: DrumVoice, c: DrumVoice)
    ensures
        voices_compatible(a, a),
        voices_compatible(a, b) == voices_compatible(b, a),
        voices_compatible(a, b) && voices_compatible(b, c) ==> voices_compatible(a, c),
{
}

/// Compatible voices have the same default articulation.
pub proof fn lemma_compatible_voices_share_default(a: DrumVoice, b: DrumVoice)
    requires
        voices_compatible(a, b),
    ensures
        default_articulation_of(kit_piece_type_of(a.kit_piece)) == default_articulation_of(
            kit_piece_type_of(b.kit_piece),
        ),
{
}

/// After a note is mapped to a voice, that note plays the voice and every
/// other note plays what it played before.
pub proof fn lemma_voice_after_set(m: Map<i32, DrumVoice>, note: i32, voice: DrumVoice, other: i32)
    ensures
        voice_for(m.insert(note, voice), note) == voice,
        other != note ==> voice_for(m.insert(note, voice), other) == voice_for(m, other),
{
}

/// A note that no entry maps plays no piece, so a note-on for it hits nothing
/// and a poly-pressure for it chokes nothing.
pub proof fn lemma_unmapped_note_plays_nothing(m: Map<i32, DrumVoice>, note: i32)
    requires
        !m.contains_key(note),
    ensures
        voice_for(m, note).kit_piece == DrumKitPiece::NoPiece,
        !is_chokable(voice_for(m, note).kit_piece),
{
}

/// Exactly the three crash cymbals and the first ride can be choked: for a
/// note mapped to one of them, poly-pressure hits that piece with a choke, and
/// for a note mapped to any other piece (the second ride too) it hits nothing.
pub proof fn lemma_choke_pieces(m: Map<i32, DrumVoice>, note: i32)
    ensures
        ({
            let p = voice_for(m, note).kit_piece;
            let r = if is_chokable(p) {
                Some(DrumVoice { kit_piece: p, articulation: DrumArticulation::CymbalChoke })
            } else {
                None::<DrumVoice>
            };
            &&& (p == DrumKitPiece::Crash || p == DrumKitPiece::Crash2 || p == DrumKitPiece::Crash3
                || p == DrumKitPiece::Ride) ==> r == Some(
                DrumVoice { kit_piece: p, articulation: DrumArticulation::CymbalChoke },
            )
            &&& !(p == DrumKitPiece::Crash || p == DrumKitPiece::Crash2 || p == DrumKitPiece::Crash3
                || p == DrumKitPiece::Ride) ==> r is None
        }),
{
}

/// The generic map follows the General MIDI percussion assignments: 35 and 36
/// bass drums, 37 side stick, 38 and 40 snares, 41-50 toms (48 high, 45 mid,
/// 43 and 47 low ones), 42, 44 and 46 closed, pedal and open hi-hat, 49, 57
/// and 55 crash cymbals, 51 and 59 ride cymbals and 53 the ride bell; every
/// other note is left unmapped.
pub proof fn lemma_generic_map_table(note: i32)
    ensures
        ({
            let v = voice_for(generic_note_map(), note);
            let kick = DrumKitPiece::Kick;
            let head = DrumArticulation::DrumHead;
            if note == 35 || note == 36 {
                v == DrumVoice { kit_piece: kick, articulation: head }
            } else if note == 37 {
                v == DrumVoice { kit_piece: DrumKitPiece::Snare, articulation: DrumArticulation::SideStick }
            } else if note == 38 || note == 40 {
                v == DrumVoice { kit_piece: DrumKitPiece::Snare, articulation: head }
            } else if note == 48 {
                v == DrumVoice { kit_piece: DrumKitPiece::Tom1, articulation: head }
            } else if note == 45 {
                v == DrumVoice { kit_piece: DrumKitPiece::Tom2, articulation: head }
            } else if note == 43 {
                v == DrumVoice { kit_piece: DrumKitPiece::Tom3, articulation: head }
            } else if note == 47 {
                v == DrumVoice { kit_piece: DrumKitPiece::Tom4, articulation: head }
            } else if note == 42 {
                v == DrumVoice { kit_piece: DrumKitPiece::HiHat, articulation: DrumArticulation::HiHatClosed }
            } else if note == 44 {
                v == DrumVoice { kit_piece: DrumKitPiece::HiHat, articulation: DrumArticulation::HiHatChick }
            } else if note == 46 {
                v == DrumVoice { kit_piece: DrumKitPiece::HiHat, articulation: DrumArticulation::HiHatOpen }
            } else if note == 49 {
                v == DrumVoice { kit_piece: DrumKitPiece::Crash, articulation: DrumArticulation::CymbalEdge }
            } else if note == 57 {
                v == DrumVoice { kit_piece: DrumKitPiece::Crash2, articulation: DrumArticulation::CymbalEdge }
            } else if note == 55 {
                v == DrumVoice { kit_piece: DrumKitPiece::Crash3, articulation: DrumArticulation::CymbalEdge }
            } else if note == 51 {
                v == DrumVoice { kit_piece: DrumKitPiece::Ride, articulation: DrumArticulation::CymbalBow }
            } else if note == 53 {
                v == DrumVoice { kit_piece: DrumKitPiece::Ride, articulation: DrumArticulation::CymbalBell }
            } else if note == 59 {
                v == DrumVoice { kit_piece: DrumKitPiece::Ride, articulation: DrumArticulation::CymbalEdge }
            } else {
                v.kit_piece == DrumKitPiece::NoPiece && v.articulation == DrumArticulation::NoArticulation
            }
        }),
{
}

/// A note-on hit's dimension comes from the pedal or the snare center only
/// for live hits on those two pieces; a recorded hit is fixed at 0 or 1, and
/// 1 (closed) only for a hi-hat not struck open.
pub proof fn lemma_note_on_dimension_sources(v: DrumVoice, is_live: bool)
    ensures
        (note_on_dimension_of(v, is_live) == HitDimension::HiHatPedal) <==> (is_live && v.kit_piece
            == DrumKitPiece::HiHat),
        (note_on_dimension_of(v, is_live) == HitDimension::SnareCenter) <==> (is_live && v.kit_piece
            == DrumKitPiece::Snare),
        (note_on_dimension_of(v, is_live) == HitDimension::One) <==> (!is_live && v.kit_piece
            == DrumKitPiece::HiHat && v.articulation != DrumArticulation::HiHatOpen),
{
}

/// Only the missing piece is of no kind, every tom is of the tom kind, and
/// pieces of one kind share a cymbal or drum articulation by default: drums
/// are struck on the head and cymbals on the edge or bow.
pub proof fn lemma_piece_kinds(p: DrumKitPiece)
    ensures
        (kit_piece_type_of(p) == DrumKitPieceType::NoPieceType) <==> (p == DrumKitPiece::NoPiece),
        (kit_piece_type_of(p) == DrumKitPieceType::Tom) <==> (p == DrumKitPiece::Tom1 || p
            == DrumKitPiece::Tom2 || p == DrumKitPiece::Tom3 || p == DrumKitPiece::Tom4 || p
            == DrumKitPiece::Tom5),
        (kit_piece_type_of(p) == DrumKitPieceType::Crash) <==> (p == DrumKitPiece::Crash || p
            == DrumKitPiece::Crash2 || p == DrumKitPiece::Crash3),
        (kit_piece_type_of(p) == DrumKitPieceType::Ride) <==> (p == DrumKitPiece::Ride || p
            == DrumKitPiece::Ride2),
        (p == DrumKitPiece::Kick || p == DrumKitPiece::Snare || kit_piece_type_of(p)
            == DrumKitPieceType::Tom) ==> default_articulation_of(kit_piece_type_of(p))
            == DrumArticulation::DrumHead,
{
}

} // verus!
