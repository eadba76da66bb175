use vstd::prelude::*;

verus! {

/// The twelve pitch classes of the chromatic scale, starting at C.
#[derive(Debug, Clone, Copy, PartialEq, Eq, Structural)]
pub enum NoteName {
    C,
    CsDf,
    D,
    DsEf,
    E,
    F,
    FsGf,
    G,
    GsAf,
    A,
    AsBf,
    B,
}

/// Chord qualities that select a scale.
#[derive(Debug, Clone, Copy, PartialEq, Eq, Structural)]
pub enum ChordType {
    Maj,
    Min,
}

/// Remainder of a division truncated toward zero, as Rust's `%` computes it.
pub open spec fn trunc_rem(a: int, b: int) -> int {
    if a >= 0 { a % b } else { -((-a) % b) }
}

/// Quotient of a division truncated toward zero, as Rust's `/` computes it.
pub open spec fn trunc_div(a: int, b: int) -> int {
    if a >= 0 { a / b } else { -((-a) / b) }
}

/// The pitch class with the given index in `0..12`; any other index names C.
pub open spec fn note_name_of_index(i: int) -> NoteName {
    if i == 1 { NoteName::CsDf }
    else if i == 2 { NoteName::D }
    else if i == 3 { NoteName::DsEf }
    else if i == 4 { NoteName::E }
    else if i == 5 { NoteName::F }
    else if i == 6 { NoteName::FsGf }
    else if i == 7 { NoteName::G }
    else if i == 8 { NoteName::GsAf }
    else if i == 9 { NoteName::A }
    else if i == 10 { NoteName::AsBf }
    else if i == 11 { NoteName::B }
    else { NoteName::C }
}

/// The position of a pitch class within the octave, C being 0 and B being 11.
pub open spec fn note_index(n: NoteName) -> int {
    match n {
        NoteName::C => 0,
        NoteName::CsDf => 1,
        NoteName::D => 2,
        NoteName::DsEf => 3,
        NoteName::E => 4,
        NoteName::F => 5,
        NoteName::FsGf => 6,
        NoteName::G => 7,
        NoteName::GsAf => 8,
        NoteName::A => 9,
        NoteName::AsBf => 10,
        NoteName::B => 11,
    }
}

/// The label of a pitch class, sharps and flats joined by a slash.
pub open spec fn note_label(n: NoteName) -> Seq<char> {
    match n {
        NoteName::C => "C"@,
        NoteName::CsDf => "Cs/Df"@,
        NoteName::D => "D"@,
        NoteName::DsEf => "Ds/Ef"@,
        NoteName::E => "E"@,
        NoteName::F => "F"@,
        NoteName::FsGf => "Fs/Gf"@,
        NoteName::G => "G"@,
        NoteName::GsAf => "Gs/Af"@,
        NoteName::A => "A"@,
        NoteName::AsBf => "As/Bf"@,
        NoteName::B => "B"@,
    }
}

/// The semitone steps above the root of the scale that goes with a chord type.
pub open spec fn scale_steps(chord_type: ChordType) -> Seq<i32> {
    match chord_type {
        ChordType::Maj => seq![0i32, 2, 4, 5, 7, 9, 11],
        ChordType::Min => seq![0i32, 2, 3, 5, 7, 8, 11],
    }
}

/// The octave of a MIDI note number, octave -1 starting at note 0.
pub open spec fn octave_of(midi: int) -> int {
    trunc_div(midi, 12) - 1
}

/// The MIDI note number of a pitch class in an octave.
pub open spec fn midi_number(note: NoteName, octave: int) -> int {
    (octave + 1) * 12 + note_index(note)
}

/// Whether the MIDI note number of `note` in `octave` fits in an `i32`.
pub open spec fn midi_number_fits(note: NoteName, octave: int) -> bool {
    i32::MIN <= midi_number(note, octave) <= i32::MAX && octave + 1 <= i32::MAX
        && i32::MIN <= (octave + 1) * 12 <= i32::MAX
}

/// The pitch class that a lowercase note spelling names: a letter, optionally
/// followed by `s` or `#` for sharp or by `f` for flat.
pub open spec fn note_of_spelling(p: Seq<char>) -> Option<NoteName> {
    if p.len() == 1 {
        let a = p[0];
        if a == 'c' { Some(NoteName::C) }
        else if a == 'd' { Some(NoteName::D) }
        else if a == 'e' { Some(NoteName::E) }
        else if a == 'f' { Some(NoteName::F) }
        else if a == 'g' { Some(NoteName::G) }
        else if a == 'a' { Some(NoteName::A) }
        else if a == 'b' { Some(NoteName::B) }
        else { None }
    } else if p.len() == 2 {
        let a = p[0];
        let sharp = p[1] == 's' || p[1] == '#';
        let flat = p[1] == 'f';
        if (a == 'c' && sharp) || (a == 'd' && flat) { Some(NoteName::CsDf) }
        else if (a == 'd' && sharp) || (a == 'e' && flat) { Some(NoteName::DsEf) }
        else if (a == 'f' && sharp) || (a == 'g' && flat) { Some(NoteName::FsGf) }
        else if (a == 'g' && sharp) || (a == 'a' && flat) { Some(NoteName::GsAf) }
        else if (a == 'a' && sharp) || (a == 'b' && flat) { Some(NoteName::AsBf) }
        else { None }
    } else {
        None
    }
}

/// Whether a character is a decimal digit.
pub open spec fn is_digit(c: char) -> bool {
    '0' <= c && c <= '9'
}

/// Whether a character is encoded in one byte of UTF-8.
pub open spec fn is_ascii_char(c: char) -> bool {
    (c as u32) < 128
}

/// A normalized note spelling (already trimmed and lowercased): a pitch class
/// spelling followed by one octave digit.
pub open spec fn parse_spelling(s: Seq<char>) -> Option<(NoteName, int)> {
    if s.len() < 2 || !is_digit(s.last()) {
        None
    } else {
        match note_of_spelling(s.drop_last()) {
            Some(n) => Some((n, s.last() as int - '0' as int)),
            None => None,
        }
    }
}

/// Whether a character has the Unicode White_Space property, the set of
/// characters `str::trim` removes.
pub open spec fn is_white_space(c: char) -> bool {
    let u = c as u32;
    ||| 0x09 <= u <= 0x0D
    ||| u == 0x20
    ||| u == 0x85
    ||| u == 0xA0
    ||| u == 0x1680
    ||| 0x2000 <= u <= 0x200A
    ||| u == 0x2028
    ||| u == 0x2029
    ||| u == 0x202F
    ||| u == 0x205F
    ||| u == 0x3000
}

/// A string without its leading whitespace.
pub open spec fn trim_leading(s: Seq<char>) -> Seq<char>
    decreases s.len(),
{
    if s.len() > 0 && is_white_space(s[0]) { trim_leading(s.drop_first()) } else { s }
}

/// A string without its trailing whitespace.
pub open spec fn trim_trailing(s: Seq<char>) -> Seq<char>
    decreases s.len(),
{
    if s.len() > 0 && is_white_space(s.last()) { trim_trailing(s.drop_last()) } else { s }
}

/// What `str::trim` returns for a string: the string without its leading and
/// trailing whitespace.
pub open spec fn trimmed(s: Seq<char>) -> Seq<char> {
    trim_trailing(trim_leading(s))
}

/// What `str::to_lowercase` returns for a string: its Unicode lowercase mapping.
pub uninterp spec fn lowercased(s: Seq<char>) -> Seq<char>;

/// The lowercase form of an ASCII character: `A` to `Z` become `a` to `z`,
/// every other character stays.
pub open spec fn ascii_lower(c: char) -> char {
    if 'A' <= c && c <= 'Z' { ((c as u32) + 32) as char } else { c }
}

/// Whether every character of a string is ASCII.
pub open spec fn all_ascii(s: Seq<char>) -> bool {
    forall|i: int| 0 <= i < s.len() ==> (#[trigger] s[i] as u32) < 128
}

/// The spelling a note string is read as: trimmed, then lowercased.
pub open spec fn normalized_spelling(s: Seq<char>) -> Seq<char> {
    lowercased(trimmed(s))
}

/// Calls `str::trim`; claims that the result is the argument without its
/// leading and trailing White_Space characters.
#[verifier::external_body]
fn trim_str(s: &str) -> (r: &str)
    ensures
        r@ == trimmed(s@),
{
    s.trim()
}

/// Calls `str::to_lowercase`; claims that the result is `lowercased` of the
/// argument, and that on an all-ASCII string it maps `A` to `Z` to `a` to `z`
/// and keeps every other character.
#[verifier::external_body]
fn lowercase_str(s: &str) -> (r: String)
    ensures
        r@ == lowercased(s@),
        all_ascii(s@) ==> r@ == s@.map_values(|c: char| ascii_lower(c)),
{
    s.to_lowercase()
}

/// The characters of a string, in order.
fn chars_of(s: &str) -> (v: Vec<char>)
    ensures
        v@ == s@,
{
    broadcast use vstd::string::group_string_axioms;
    let mut v: Vec<char> = Vec::new();
    for c in it: s.chars()
        invariant
            v@ == it.seq().take(it.index() as int),
            it.seq() == s@,
    {
        v.push(c);
    }
    v
}

impl NoteName {
    /// The pitch class of a MIDI note number. A negative number whose remainder
    /// by 12 is not zero names C, since the truncated remainder is then negative.
    pub fn from_midi(midi: i32) -> (n: NoteName)
        ensures
            n == note_name_of_index(trunc_rem(midi as int, 12)),
    {
        let r: i32 = midi % 12;
        match r {
            0 => NoteName::C,
            1 => NoteName::CsDf,
            2 => NoteName::D,
            3 => NoteName::DsEf,
            4 => NoteName::E,
            5 => NoteName::F,
            6 => NoteName::FsGf,
            7 => NoteName::G,
            8 => NoteName::GsAf,
            9 => NoteName::A,
            10 => NoteName::AsBf,
            11 => NoteName::B,
            _ => NoteName::C,
        }
    }

    /// The label of this pitch class, such as `"Cs/Df"`.
    pub fn to_string(&self) -> (s: &'static str)
        ensures
            s@ == note_label(*self),
    {
        match self {
            NoteName::C => "C",
            NoteName::CsDf => "Cs/Df",
            NoteName::D => "D",
            NoteName::DsEf => "Ds/Ef",
            NoteName::E => "E",
            NoteName::F => "F",
            NoteName::FsGf => "Fs/Gf",
            NoteName::G => "G",
            NoteName::GsAf => "Gs/Af",
            NoteName::A => "A",
            NoteName::AsBf => "As/Bf",
            NoteName::B => "B",
        }
    }

    /// The position of this pitch class within the octave, C being 0.
    pub fn index(&self) -> (i: i32)
        ensures
            i == note_index(*self),
    {
        match self {
            NoteName::C => 0,
            NoteName::CsDf => 1,
            NoteName::D => 2,
            NoteName::DsEf => 3,
            NoteName::E => 4,
            NoteName::F => 5,
            NoteName::FsGf => 6,
            NoteName::G => 7,
            NoteName::GsAf => 8,
            NoteName::A => 9,
            NoteName::AsBf => 10,
            NoteName::B => 11,
        }
    }
}

/// Pitch arithmetic on MIDI note numbers.
pub struct NoteUtil;

impl NoteUtil {
    /// Reads a normalized note spelling such as `"a4"`, `"cs3"` or `"c#3"` into
    /// its pitch class and octave.
    pub fn parse_normalized_note(s: &str) -> (r: Option<(NoteName, i32)>)
        ensures
            match r {
                Some((n, o)) => parse_spelling(s@) == Some((n, o as int)),
                None => parse_spelling(s@) is None,
            },
    {
        let v = chars_of(s);
        let len: usize = v.len();
        if len < 2 {
            return None;
        }
        let d = v[len - 1];
        if !(d >= '0' && d <= '9') {
            return None;
        }
        let octave: i32 = ((d as u32) - ('0' as u32)) as i32;
        let ghost part = v@.drop_last();
        let note = if len == 2 {
            let a = v[0];
            if a == 'c' { Some(NoteName::C) }
            else if a == 'd' { Some(NoteName::D) }
            else if a == 'e' { Some(NoteName::E) }
            else if a == 'f' { Some(NoteName::F) }
            else if a == 'g' { Some(NoteName::G) }
            else if a == 'a' { Some(NoteName::A) }
            else if a == 'b' { Some(NoteName::B) }
            else { None }
        } else if len == 3 {
            let a = v[0];
            let b = v[1];
            if (a == 'c' && (b == 's' || b == '#')) || (a == 'd' && b == 'f') { Some(NoteName::CsDf) }
            else if (a == 'd' && (b == 's' || b == '#')) || (a == 'e' && b == 'f') { Some(NoteName::DsEf) }
            else if (a == 'f' && (b == 's' || b == '#')) || (a == 'g' && b == 'f') { Some(NoteName::FsGf) }
            else if (a == 'g' && (b == 's' || b == '#')) || (a == 'a' && b == 'f') { Some(NoteName::GsAf) }
            else if (a == 'a' && (b == 's' || b == '#')) || (a == 'b' && b == 'f') { Some(NoteName::AsBf) }
            else { None }
        } else {
            assert(part.len() > 2);
            None
        };
        match note {
            Some(n) => Some((n, octave)),
            None => None,
        }
    }

    /// Reads a note string such as `"A4"`, `" cs3 "` or `"C#3"` into its pitch
    /// class and octave, after trimming and lowercasing it. The last character
    /// of the trimmed, lowercased string must take one byte, since the octave
    /// is cut off at the last byte.
    pub fn parse_note(note_str: &str) -> (r: Option<(NoteName, i32)>)
        requires
            normalized_spelling(note_str@).len() > 0 ==> is_ascii_char(
                normalized_spelling(note_str@).last(),
            ),
        ensures
            match r {
                Some((n, o)) => parse_spelling(normalized_spelling(note_str@)) == Some((n, o as int)),
                None => parse_spelling(normalized_spelling(note_str@)) is None,
            },
            all_ascii(trimmed(note_str@)) ==> normalized_spelling(note_str@) == trimmed(
                note_str@,
            ).map_values(|c: char| ascii_lower(c)),
    {
        let t = trim_str(note_str);
        let lower = lowercase_str(t);
        Self::parse_normalized_note(lower.as_str())
    }

    /// Reads a note string as `parse_note` does, first testing what it needs:
    /// `None` when the last character of the trimmed, lowercased string takes
    /// more than one byte, and `Some` of what `parse_note` gives otherwise.
    pub fn parse_note_checked(note_str: &str) -> (r: Option<Option<(NoteName, i32)>>)
        ensures
            ({
                let s = normalized_spelling(note_str@);
                if s.len() > 0 && !is_ascii_char(s.last()) {
                    r is None
                } else {
                    match r {
                        Some(Some((n, o))) => parse_spelling(s) == Some((n, o as int)),
                        Some(None) => parse_spelling(s) is None,
                        None => false,
                    }
                }
            }),
            all_ascii(trimmed(note_str@)) ==> normalized_spelling(note_str@) == trimmed(
                note_str@,
            ).map_values(|c: char| ascii_lower(c)),
    {
        let t = trim_str(note_str);
        let lower = lowercase_str(t);
        let v = chars_of(lower.as_str());
        if v.len() > 0 && (v[v.len() - 1] as u32) >= 128 {
            return None;
        }
        Some(Self::parse_note(note_str))
    }

    /// The semitone steps of the scale that goes with a chord type.
    pub fn scales(chord_type: ChordType) -> (s: &'static [i32])
        ensures
            s@ == scale_steps(chord_type),
    {
        match chord_type {
            ChordType::Maj => {
                let s: &'static [i32] = &[0, 2, 4, 5, 7, 9, 11];
                assert(s@ == scale_steps(chord_type));
                s
            },
            ChordType::Min => &[0, 2, 3, 5, 7, 8, 11],
        }
    }

    /// The pitch class of a MIDI note number.
    pub fn note_name(midi_note: i32) -> (n: NoteName)
        ensures
            n == note_name_of_index(trunc_rem(midi_note as int, 12)),
    {
        NoteName::from_midi(midi_note)
    }

    /// The octave of a MIDI note number.
    pub fn note_octave(midi_note: i32) -> (o: i32)
        ensures
            o == octave_of(midi_note as int),
    {
        (midi_note / 12) - 1
    }

    /// The MIDI note number of a pitch class in an octave.
    pub fn midi_note_number(note: NoteName, octave: i32) -> (m: i32)
        requires
            midi_number_fits(note, octave as int),
        ensures
            m == midi_number(note, octave as int),
    {
        ((octave + 1) * 12) + note.index()
    }
}

/// Naming a MIDI note number and reading the name back gives the number again:
/// for every note number from 0 up, the pitch class and octave that
/// `note_name` and `note_octave` give lead back to it through `midi_note_number`.
pub proof fn lemma_midi_number_round_trip(midi: int)
    requires
        midi >= 0,
    ensures
        midi_number(note_name_of_index(trunc_rem(midi, 12)), octave_of(midi)) == midi,
{
    let r: int = midi % 12;
    assert(0 <= r < 12);
    assert(note_index(note_name_of_index(r)) == r);
}

/// A pitch class and an octave from -1 up are recovered from their MIDI note
/// number by `note_name` and `note_octave`.
pub proof fn lemma_note_and_octave_recovered(note: NoteName, octave: int)
    requires
        octave >= -1,
    ensures
        note_name_of_index(trunc_rem(midi_number(note, octave), 12)) == note,
        octave_of(midi_number(note, octave)) == octave,
{
    let m: int = midi_number(note, octave);
    let i: int = note_index(note);
    assert(0 <= i < 12);
    assert(m == (octave + 1) * 12 + i);
    assert(m >= 0);
    assert(m % 12 == i && m / 12 == octave + 1) by (nonlinear_arith)
        requires
            m == (octave + 1) * 12 + i,
            0 <= i < 12,
            octave + 1 >= 0,
    ;
}

/// Pitch classes repeat every octave: from note 0 up, a note twelve semitones
/// higher has the same pitch class and an octave one higher.
pub proof fn lemma_octave_periodicity(midi: int)
    requires
        midi >= 0,
    ensures
        note_name_of_index(trunc_rem(midi + 12, 12)) == note_name_of_index(trunc_rem(midi, 12)),
        octave_of(midi + 12) == octave_of(midi) + 1,
{
    vstd::arithmetic::div_mod::lemma_mod_add_multiples_vanish(midi, 12);
    vstd::arithmetic::div_mod::lemma_div_plus_one(midi, 12);
}

/// The upper-case form of a lowercase ASCII letter.
pub open spec fn upper(c: char) -> char {
    ((c as u32) - 32) as char
}

/// Whether a character is one of the note letters `a` to `g`.
pub open spec fn is_note_letter(c: char) -> bool {
    c == 'a' || c == 'b' || c == 'c' || c == 'd' || c == 'e' || c == 'f' || c == 'g'
}

/// A natural letter followed by an octave digit names the pitch class whose
/// label is that letter in upper case, in the octave the digit gives: for
/// example `"d4"` reads as D in octave 4.
pub proof fn lemma_natural_spelling(x: char, d: char)
    requires
        is_note_letter(x),
        is_digit(d),
    ensures
        parse_spelling(seq![x, d]) is Some,
        note_label(parse_spelling(seq![x, d]).unwrap().0) == seq![upper(x)],
        parse_spelling(seq![x, d]).unwrap().1 == d as int - '0' as int,
{
    let s = seq![x, d];
    assert(s.drop_last() =~= seq![x]);
    assert(s.last() == d);
    reveal_strlit("C");
    reveal_strlit("D");
    reveal_strlit("E");
    reveal_strlit("F");
    reveal_strlit("G");
    reveal_strlit("A");
    reveal_strlit("B");
    let n = parse_spelling(s).unwrap().0;
    assert(note_label(n) =~= seq![upper(x)]);
}

/// A sharp (`s` or `#`) after a letter names the pitch class one semitone
/// above the letter's natural, and a flat (`f`) the one a semitone below, in
/// the octave the digit gives; the letters whose neighbour is itself a
/// natural (`e#`, `b#`, `cf`, `ff`) read as nothing.
pub proof fn lemma_accidental_spelling(x: char, a: char, d: char)
    requires
        is_note_letter(x),
        a == 's' || a == '#' || a == 'f',
        is_digit(d),
    ensures
        ({
            let natural = parse_spelling(seq![x, d]).unwrap().0;
            let r = parse_spelling(seq![x, a, d]);
            let step = if a == 'f' { -1int } else { 1int };
            if (a != 'f' && (x == 'e' || x == 'b')) || (a == 'f' && (x == 'c' || x == 'f')) {
                r is None
            } else {
                &&& r is Some
                &&& note_index(r.unwrap().0) == note_index(natural) + step
                &&& r.unwrap().1 == d as int - '0' as int
            }
        }),
{
    let s2 = seq![x, d];
    let s3 = seq![x, a, d];
    assert(s2.drop_last() =~= seq![x]);
    assert(s3.drop_last() =~= seq![x, a]);
    assert(s2.last() == d);
    assert(s3.last() == d);
}

/// Reading the label-free spelling of a note back gives its pitch class: the
/// pitch class a MIDI note number names is the one whose index is the number's
/// remainder by 12, for every note number from 0 up.
pub proof fn lemma_note_name_index(midi: int)
    requires
        midi >= 0,
    ensures
        note_index(note_name_of_index(trunc_rem(midi, 12))) == midi % 12,
{
}

/// Both scales start on the root and climb within one octave; the major
/// scale steps whole, whole, half, whole, whole, whole and the minor scale
/// whole, half, whole, whole, half, augmented second.
pub proof fn lemma_scale_steps(chord_type: ChordType)
    ensures
        scale_steps(chord_type).len() == 7,
        scale_steps(chord_type)[0] == 0,
        forall|i: int| 0 <= i < 7 ==> 0 <= #[trigger] scale_steps(chord_type)[i] < 12,
        forall|i: int|
            0 <= i < 6 ==> #[trigger] scale_steps(chord_type)[i + 1] - scale_steps(chord_type)[i] == (
            match chord_type {
                ChordType::Maj => if i == 2 { 1int } else { 2int },
                ChordType::Min => if i == 1 || i == 4 { 1int } else if i == 5 { 3int } else { 2int },
            }),
{
    let s = scale_steps(chord_type);
    assert(s[0] == 0 && s[1] == 2 && s[4] == 7 && s[6] == 11);
}

/// A pitch class is labelled by one letter when it is natural (C, D, E, F, G,
/// A, B at indices 0, 2, 4, 5, 7, 9, 11), and otherwise by its sharp and flat
/// spellings joined by a slash: the letter below with `s`, then the letter
/// above with `f`, both read back as that pitch class.
pub proof fn lemma_note_labels(n: NoteName, d: char)
    requires
        is_digit(d),
    ensures
        ({
            let i = note_index(n);
            let l = note_label(n);
            let natural = i == 0 || i == 2 || i == 4 || i == 5 || i == 7 || i == 9 || i == 11;
            &&& natural ==> l.len() == 1
            &&& !natural ==> l.len() == 5 && l[1] == 's' && l[2] == '/' && l[4] == 'f'
                && parse_spelling(seq![((l[0] as u32) + 32) as char, 's', d]) == Some((n, d as int - '0' as int))
                && parse_spelling(seq![((l[3] as u32) + 32) as char, 'f', d]) == Some((n, d as int - '0' as int))
        }),
{
    reveal_strlit("C");
    reveal_strlit("D");
    reveal_strlit("E");
    reveal_strlit("F");
    reveal_strlit("G");
    reveal_strlit("A");
    reveal_strlit("B");
    reveal_strlit("Cs/Df");
    reveal_strlit("Ds/Ef");
    reveal_strlit("Fs/Gf");
    reveal_strlit("Gs/Af");
    reveal_strlit("As/Bf");
    let l = note_label(n);
    if l.len() == 5 {
        let s1 = seq![((l[0] as u32) + 32) as char, 's', d];
        let s2 = seq![((l[3] as u32) + 32) as char, 'f', d];
        assert(s1.drop_last() =~= seq![s1[0], 's']);
        assert(s2.drop_last() =~= seq![s2[0], 'f']);
    }
}

} // verus!
