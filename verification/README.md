# chart_player

The core of a music-chart player (guitar, bass, drums and keys), written in
Verus so that its logic carries proved contracts.

- `src/` is the verified library:
  - `note_util`: pitch classes, octaves and MIDI note numbers, and reading
    note spellings such as `"C#3"`;
  - `midi`: drum kit pieces, articulations and voices, and the map from MIDI
    notes to drum voices with the decisions a note-on or poly-pressure event
    makes;
  - `song`: song statistics and tags, chords, tunings and chart enums;
  - `audio`: the sample-history ring buffer, stream properties of a Vorbis
    file, open-string notes, and the mode and frame bookkeeping of the
    resampler.
- `app/` is the program around it: the GTK4 window, audio output through cpal,
  the song index on disk (serde), and everything computed in floating point
  (pitch in hertz, rendering, cameras, scenes).
- `tests/` runs the library on concrete values.
