//! Chart player core: note naming, drum voice mapping, song metadata and
//! sample buffers.

pub mod audio;
pub mod midi;
pub mod note_util;
pub mod song;

pub use audio::{ResamplerMode, SampleHistory, VorbisMixer};
pub use midi::{DrumArticulation, DrumKitPiece, DrumKitPieceType, DrumNoteMap, DrumVoice, HitDimension};
pub use note_util::{ChordType, NoteName, NoteUtil};
pub use song::{SongChord, SongInstrumentType, SongStats, SongStatsEntry, SongTuning, SongTuningMode};

use vstd::prelude::*;

verus! {

/// The version of the player.
pub const VERSION: &'static str = "0.1.26";

/// The width of the player window when it opens.
pub const DEFAULT_VIEWPORT_WIDTH: i32 = 1024;

/// The height of the player window when it opens.
pub const DEFAULT_VIEWPORT_HEIGHT: i32 = 720;

} // verus!
