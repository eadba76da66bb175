use std::time::Duration;
use vstd::prelude::*;

use crate::song::SongInstrumentType;

verus! {

/// A ring buffer that keeps the most recent samples written to it.
pub struct SampleHistory<T> {
    data: Vec<T>,
    current_offset: usize,
}

/// The buffer after writing `src` sample by sample, the `k`-th sample going
/// to position `(start + k) % data.len()`.
pub open spec fn ring_write<T>(data: Seq<T>, start: int, src: Seq<T>) -> Seq<T>
    decreases src.len(),
{
    if src.len() == 0 {
        data
    } else {
        ring_write(data, start, src.drop_last()).update(
            (start + src.len() - 1) % (data.len() as int),
            src.last(),
        )
    }
}

/// The write position after writing `n` samples from position `start` into a
/// buffer of `len` samples; writing nothing leaves it where it was.
pub open spec fn ring_advance(start: int, n: int, len: int) -> int {
    if n == 0 { start } else { (start + n) % len }
}

impl<T> View for SampleHistory<T> {
    /// The buffered samples and the position the next sample goes to.
    type V = (Seq<T>, nat);

    closed spec fn view(&self) -> (Seq<T>, nat) {
        (self.data@, self.current_offset as nat)
    }
}

proof fn lemma_ring_write_len<T>(data: Seq<T>, start: int, src: Seq<T>)
    requires
        src.len() > 0 ==> data.len() > 0,
    ensures
        ring_write(data, start, src).len() == data.len(),
    decreases src.len(),
{
    if src.len() > 0 {
        lemma_ring_write_len(data, start, src.drop_last());
    }
}

proof fn lemma_mod_succ(a: int, m: int)
    requires
        a >= 0,
        m > 0,
    ensures
        0 <= a % m < m,
        (a + 1) % m == if a % m + 1 == m { 0 } else { a % m + 1 },
{
    vstd::arithmetic::div_mod::lemma_fundamental_div_mod(a, m);
    vstd::arithmetic::div_mod::lemma_fundamental_div_mod(a + 1, m);
    vstd::arithmetic::div_mod::lemma_mod_bound(a, m);
    if a % m + 1 == m {
        vstd::arithmetic::div_mod::lemma_mod_multiples_basic(a / m + 1, m);
        assert(a + 1 == (a / m + 1) * m) by (nonlinear_arith)
            requires a == m * (a / m) + a % m, a % m + 1 == m;
    } else {
        vstd::arithmetic::div_mod::lemma_mod_add_multiples_vanish(a % m + 1, m);
        assert(a + 1 == m * (a / m) + (a % m + 1));
        vstd::arithmetic::div_mod::lemma_mod_multiples_vanish(a / m, a % m + 1, m);
        vstd::arithmetic::div_mod::lemma_small_mod((a % m + 1) as nat, m as nat);
    }
}

proof fn lemma_mod_distinct(a: int, b: int, m: int)
    requires
        a >= 0,
        m > 0,
        0 < b - a < m,
    ensures
        a % m != b % m,
{
    vstd::arithmetic::div_mod::lemma_fundamental_div_mod(a, m);
    vstd::arithmetic::div_mod::lemma_fundamental_div_mod(b, m);
    vstd::arithmetic::div_mod::lemma_mod_bound(a, m);
    vstd::arithmetic::div_mod::lemma_mod_bound(b, m);
    if a % m == b % m {
        assert(b - a == m * (b / m - a / m)) by (nonlinear_arith)
            requires a == m * (a / m) + a % m, b == m * (b / m) + b % m, a % m == b % m;
        if b / m - a / m <= 0 {
            assert(m * (b / m - a / m) <= 0) by (nonlinear_arith)
                requires m > 0, b / m - a / m <= 0;
        } else {
            assert(m * (b / m - a / m) >= m) by (nonlinear_arith)
                requires m > 0, b / m - a / m >= 1;
        }
    }
}

/// After a write into a non-empty ring buffer, the last `min(n, len)` samples
/// written can be read back in order just before the new write position: the
/// `k`-th sample written sits at `(start + k) % len` unless a later sample has
/// overwritten it.
pub proof fn lemma_ring_write_keeps_recent<T>(data: Seq<T>, start: int, src: Seq<T>, k: int)
    requires
        data.len() > 0,
        start >= 0,
        src.len() - data.len() <= k < src.len(),
        0 <= k,
    ensures
        ring_write(data, start, src)[(start + k) % (data.len() as int)] == src[k],
    decreases src.len(),
{
    let m: int = data.len() as int;
    let n: int = src.len() as int;
    let prefix = src.drop_last();
    lemma_ring_write_len(data, start, prefix);
    lemma_mod_succ(start + k, m);
    if k < n - 1 {
        lemma_ring_write_keeps_recent(data, start, prefix, k);
        lemma_mod_distinct(start + k, start + n - 1, m);
    }
}

/// A write of fewer samples than the buffer holds leaves the rest of the
/// buffer alone: the positions from `(start + n) % len` on, up to the start,
/// keep their samples.
pub proof fn lemma_ring_write_keeps_rest<T>(data: Seq<T>, start: int, src: Seq<T>, j: int)
    requires
        data.len() > 0,
        start >= 0,
        src.len() <= j < data.len(),
    ensures
        ring_write(data, start, src)[(start + j) % (data.len() as int)]
            == data[(start + j) % (data.len() as int)],
    decreases src.len(),
{
    let m: int = data.len() as int;
    let n: int = src.len() as int;
    lemma_mod_succ(start + j, m);
    if n > 0 {
        let prefix = src.drop_last();
        lemma_ring_write_len(data, start, prefix);
        lemma_ring_write_keeps_rest(data, start, prefix, j);
        lemma_mod_distinct(start + n - 1, start + j, m);
    }
}

impl<T: Copy + Default> SampleHistory<T> {
    /// An empty history.
    pub fn new() -> (h: SampleHistory<T>)
        ensures
            h@.0.len() == 0,
            h@.1 == 0,
    {
        SampleHistory { data: Vec::new(), current_offset: 0 }
    }

    /// Resizes the buffer to `size` samples, keeping the samples in front and
    /// filling new room with one value that `T::default` gave. The write
    /// position is kept, even where it now lies past the end.
    pub fn set_size(&mut self, size: usize)
        ensures
            final(self)@.0.len() == size,
            final(self)@.1 == old(self)@.1,
            forall|i: int| 0 <= i < size && i < old(self)@.0.len() ==> final(self)@.0[i] == old(self)@.0[i],
            forall|i: int| old(self)@.0.len() <= i < size ==> #[trigger] final(self)@.0[i] == final(self)@.0[old(self)@.0.len() as int],
            old(self)@.0.len() < size ==> call_ensures(T::default, (), final(self)@.0[old(self)@.0.len() as int]),
    {
        if self.data.len() != size {
            if size < self.data.len() {
                self.data.truncate(size);
            } else {
                let d = T::default();
                let ghost old_data = self.data@;
                let ghost offset = self.current_offset;
                while self.data.len() < size
                    invariant
                        old_data.len() <= self.data@.len() <= size,
                        self.current_offset == offset,
                        call_ensures(T::default, (), d),
                        forall|i: int| 0 <= i < old_data.len() ==> self.data@[i] == old_data[i],
                        forall|i: int| old_data.len() <= i < self.data@.len() ==> self.data@[i] == d,
                    decreases size - self.data.len(),
                {
                    self.data.push(d);
                }
            }
        }
    }

    /// Writes the samples of `source` in order at the write position, wrapping
    /// around at the end of the buffer, and leaves the write position after the
    /// last one. A write position at the very end counts as the start.
    pub fn copy_from(&mut self, source: &[T])
        requires
            source@.len() > 0 ==> old(self)@.0.len() > 0,
            source@.len() > 0 ==> old(self)@.1 <= old(self)@.0.len(),
        ensures
            final(self)@.0 == ring_write(old(self)@.0, old(self)@.1 as int, source@),
            final(self)@.0.len() == old(self)@.0.len(),
            final(self)@.1 == ring_advance(
                old(self)@.1 as int,
                source@.len() as int,
                old(self)@.0.len() as int,
            ),
    {
        let n: usize = source.len();
        if n == 0 {
            assert(source@ =~= Seq::<T>::empty());
            return;
        }
        let len: usize = self.data.len();
        let ghost start = self.current_offset as int;
        let ghost old_data = self.data@;
        let mut pos: usize = if self.current_offset == len { 0 } else { self.current_offset };
        proof {
            vstd::arithmetic::div_mod::lemma_mod_self_0(len as int);
            if start < len {
                vstd::arithmetic::div_mod::lemma_small_mod(start as nat, len as nat);
            }
            assert(source@.take(0) =~= Seq::<T>::empty());
        }
        let mut i: usize = 0;
        while i < n
            invariant
                len == self.data@.len(),
                len == old_data.len(),
                len > 0,
                n == source@.len(),
                0 <= start <= len,
                i <= n,
                pos < len,
                pos as int == (start + i) % (len as int),
                self.data@ == ring_write(old_data, start, source@.take(i as int)),
            decreases n - i,
        {
            proof {
                let next = source@.take(i + 1);
                assert(next.drop_last() =~= source@.take(i as int));
                assert(next.last() == source@[i as int]);
                lemma_mod_succ(start + i, len as int);
            }
            self.data.set(pos, source[i]);
            pos = if pos + 1 == len { 0 } else { pos + 1 };
            i = i + 1;
        }
        assert(source@.take(n as int) =~= source@);
        proof {
            lemma_ring_write_len(old_data, start, source@);
        }
        self.current_offset = pos;
    }

    /// The buffered samples, in buffer order (not in the order written).
    pub fn samples(&self) -> (s: &[T])
        ensures
            s@ == self@.0,
    {
        self.data.as_slice()
    }

    /// The number of samples the buffer holds.
    pub fn size(&self) -> (n: usize)
        ensures
            n == self@.0.len(),
    {
        self.data.len()
    }

    /// The position the next sample goes to.
    pub fn current_offset(&self) -> (o: usize)
        ensures
            o == self@.1,
    {
        self.current_offset
    }
}

impl<T: Copy + Default> Default for SampleHistory<T> {
    fn default() -> (h: SampleHistory<T>)
        ensures
            h@.0.len() == 0,
            h@.1 == 0,
    {
        SampleHistory::new()
    }
}

/// What `Duration::from_secs` returns for a number of whole seconds.
pub uninterp spec fn duration_of_secs(secs: u64) -> Duration;

/// Specifies `Duration::from_secs`; claims only that its result is
/// `duration_of_secs` of the argument.
pub assume_specification[ Duration::from_secs ](secs: u64) -> (d: Duration)
    ensures
        d == duration_of_secs(secs),
;

/// The error type of `std::io`, carried through unopened.
#[verifier::external_type_specification]
#[verifier::external_body]
pub struct ExIoError(std::io::Error);

/// The stream properties of a Vorbis audio file.
#[derive(Debug)]
pub struct VorbisMixer {
    sample_rate: i32,
    channels: i32,
    total_samples: u64,
    total_time: Duration,
}

impl Clone for VorbisMixer {
    fn clone(&self) -> (c: VorbisMixer)
        ensures
            c == *self,
    {
        VorbisMixer {
            sample_rate: self.sample_rate,
            channels: self.channels,
            total_samples: self.total_samples,
            total_time: self.total_time,
        }
    }
}

impl VorbisMixer {
    /// Samples per second.
    pub closed spec fn rate(&self) -> i32 {
        self.sample_rate
    }

    /// Number of interleaved channels.
    pub closed spec fn channel_count(&self) -> i32 {
        self.channels
    }

    /// Number of sample frames.
    pub closed spec fn frame_count(&self) -> u64 {
        self.total_samples
    }

    /// Playing time.
    pub closed spec fn duration(&self) -> Duration {
        self.total_time
    }

    /// A mixer for the file at `path`, reporting a 48 kHz stereo stream with no
    /// samples; the file is not read.
    pub fn new(path: &str) -> (r: std::io::Result<VorbisMixer>)
        ensures
            r matches Ok(m) && m.rate() == 48000 && m.channel_count() == 2 && m.frame_count() == 0
                && m.duration() == duration_of_secs(0),
    {
        Ok(VorbisMixer {
            sample_rate: 48000,
            channels: 2,
            total_samples: 0,
            total_time: Duration::from_secs(0),
        })
    }

    /// Samples per second.
    pub fn sample_rate(&self) -> (r: i32)
        ensures
            r == self.rate(),
    {
        self.sample_rate
    }

    /// Number of interleaved channels.
    pub fn channels(&self) -> (r: i32)
        ensures
            r == self.channel_count(),
    {
        self.channels
    }

    /// Number of sample frames in the stream.
    pub fn total_samples(&self) -> (r: u64)
        ensures
            r == self.frame_count(),
    {
        self.total_samples
    }

    /// Playing time of the stream.
    pub fn total_time(&self) -> (r: Duration)
        ensures
            r == self.duration(),
    {
        self.total_time
    }

    /// How many samples a read of `count` samples into a buffer of
    /// `buffer_len` samples, starting at `offset`, fills: as many as asked,
    /// but no more than fit after the offset.
    pub fn samples_to_read(buffer_len: usize, offset: usize, count: usize) -> (n: usize)
        requires
            offset <= buffer_len,
        ensures
            n == if count <= buffer_len - offset { count } else { (buffer_len - offset) as usize },
    {
        let room: usize = buffer_len - offset;
        if count <= room { count } else { room }
    }
}

/// The open-string MIDI notes of standard tuning, low string first.
pub open spec fn standard_strings(instrument_type: SongInstrumentType) -> Seq<i32> {
    if instrument_type == SongInstrumentType::BassGuitar {
        seq![28i32, 33, 38, 43]
    } else {
        seq![40i32, 45, 50, 55, 59, 64]
    }
}

/// The string index clamped to the strings an instrument has.
pub open spec fn clamp_string(string: int, count: int) -> int {
    if string < 0 { 0 } else if string > count - 1 { count - 1 } else { string }
}

/// The MIDI note of an open string in standard tuning; a string number out of
/// range names the nearest string. Bass has four strings, every other
/// instrument six.
pub fn standard_string_midi(string: i32, instrument_type: SongInstrumentType) -> (m: i32)
    ensures
        m == standard_strings(instrument_type)[clamp_string(
            string as int,
            standard_strings(instrument_type).len() as int,
        )],
{
    let guitar_notes: [i32; 6] = [40, 45, 50, 55, 59, 64];
    let bass_notes: [i32; 4] = [28, 33, 38, 43];
    let notes: &[i32] = if instrument_type == SongInstrumentType::BassGuitar {
        assert(bass_notes@ == standard_strings(instrument_type));
        &bass_notes
    } else {
        assert(guitar_notes@ == standard_strings(instrument_type));
        &guitar_notes
    };
    let last: i32 = notes.len() as i32 - 1;
    let index: i32 = if string < 0 { 0 } else if string > last { last } else { string };
    notes[index as usize]
}

/// Standard tuning: the six guitar strings rise from E2 (MIDI 40) by fourths
/// (5 semitones) except a major third (4) from the third to the second
/// string, and the four bass strings sound an octave below the four lowest
/// guitar strings.
pub proof fn lemma_standard_tuning_intervals()
    ensures
        standard_strings(SongInstrumentType::LeadGuitar) == standard_strings(SongInstrumentType::RhythmGuitar),
        standard_strings(SongInstrumentType::LeadGuitar).len() == 6,
        standard_strings(SongInstrumentType::LeadGuitar)[0] == 40,
        forall|i: int| 0 <= i < 5 ==> #[trigger] standard_strings(SongInstrumentType::LeadGuitar)[i + 1]
            - standard_strings(SongInstrumentType::LeadGuitar)[i] == if i == 3 { 4int } else { 5int },
        standard_strings(SongInstrumentType::BassGuitar).len() == 4,
        forall|i: int| 0 <= i < 4 ==> #[trigger] standard_strings(SongInstrumentType::BassGuitar)[i]
            == standard_strings(SongInstrumentType::LeadGuitar)[i] - 12,
{
    let g = standard_strings(SongInstrumentType::LeadGuitar);
    let b = standard_strings(SongInstrumentType::BassGuitar);
    assert(g[1] - g[0] == 5 && g[2] - g[1] == 5 && g[3] - g[2] == 5 && g[4] - g[3] == 4 && g[5] - g[4] == 5);
    assert(b[0] == g[0] - 12 && b[1] == g[1] - 12 && b[2] == g[2] - 12 && b[3] == g[3] - 12);
}

/// A string number below the first names the lowest string, and one past the
/// last names the highest, for every instrument.
pub proof fn lemma_string_clamping(string: int, t: SongInstrumentType)
    ensures
        string <= 0 ==> clamp_string(string, standard_strings(t).len() as int) == 0,
        string >= standard_strings(t).len() - 1 ==> clamp_string(string, standard_strings(t).len() as int)
            == standard_strings(t).len() - 1,
        0 <= string < standard_strings(t).len() ==> clamp_string(string, standard_strings(t).len() as int)
            == string,
{
}

/// The interpolation and filtering mode of a resampler.
#[derive(Debug, Clone, Copy, PartialEq, Eq, Structural)]
pub struct ResamplerMode {
    pub sinc_size: i32,
    pub sinc_over_size: i32,
    pub filter_cnt: i32,
    pub interp: bool,
}

/// A value clamped into `lo..=hi`.
pub open spec fn clamp_int(v: int, lo: int, hi: int) -> int {
    if v < lo { lo } else if v > hi { hi } else { v }
}

/// The mode a resampler is in after `set_mode` with the given arguments. A sinc
/// filter is used only when asked for with at least 4 taps, capped at 8192;
/// it then takes 1 to 4096 interpolation steps and no IIR filter stages.
/// Without it, 0 to 4 filter stages are used, and linear interpolation only if
/// asked for.
pub open spec fn mode_after_set(
    interp: bool,
    filter_cnt: i32,
    sinc: bool,
    sinc_size: i32,
    sinc_interp_size: i32,
) -> ResamplerMode {
    let size: i32 = if sinc && sinc_size >= 4 { if sinc_size > 8192 { 8192i32 } else { sinc_size } } else { 0i32 };
    ResamplerMode {
        sinc_size: size,
        sinc_over_size: if size != 0 { clamp_int(sinc_interp_size as int, 1, 4096) as i32 } else { 1i32 },
        filter_cnt: if size != 0 { 0i32 } else { clamp_int(filter_cnt as int, 0, 4) as i32 },
        interp: interp && size == 0,
    }
}

/// Whether a resampler mode is one `set_mode` can produce or the initial one.
pub open spec fn mode_is_valid(m: ResamplerMode) -> bool {
    &&& m.sinc_size == 0 || 4 <= m.sinc_size <= 8192
    &&& 0 <= m.filter_cnt <= 4
    &&& m.sinc_size != 0 ==> 1 <= m.sinc_over_size <= 4096 && m.filter_cnt == 0 && !m.interp
}

impl ResamplerMode {
    /// The mode of a new resampler: linear interpolation, one filter stage, no sinc.
    pub fn new() -> (m: ResamplerMode)
        ensures
            m == (ResamplerMode { sinc_size: 0, sinc_over_size: 0, filter_cnt: 1, interp: true }),
    {
        ResamplerMode { sinc_size: 0, sinc_over_size: 0, filter_cnt: 1, interp: true }
    }

    /// Selects interpolation, filter stages and sinc filtering.
    pub fn set_mode(
        &mut self,
        interp: bool,
        filter_cnt: i32,
        sinc: bool,
        sinc_size: i32,
        sinc_interp_size: i32,
    )
        ensures
            *final(self) == mode_after_set(interp, filter_cnt, sinc, sinc_size, sinc_interp_size),
    {
        self.sinc_size = if sinc && sinc_size >= 4 {
            if sinc_size > 8192 { 8192 } else { sinc_size }
        } else {
            0
        };
        self.sinc_over_size = if self.sinc_size != 0 {
            if sinc_interp_size < 1 { 1 } else if sinc_interp_size > 4096 { 4096 } else { sinc_interp_size }
        } else {
            1
        };
        self.filter_cnt = if self.sinc_size != 0 {
            0
        } else if filter_cnt < 0 {
            0
        } else if filter_cnt > 4 {
            4
        } else {
            filter_cnt
        };
        self.interp = interp && (self.sinc_size == 0);
    }
}

/// `set_mode` clamps each setting to its range and keeps a setting that is
/// already in range: with the sinc filter selected (at least 4 taps), the tap
/// count is kept up to 8192 and the interpolation size is the one asked for,
/// moved to the nearest of 1 and 4096 when outside them, with no IIR stage and
/// no linear interpolation; without it, the stage count is the one asked for,
/// moved to the nearest of 0 and 4 when outside them, and linear
/// interpolation is on exactly when asked for.
pub proof fn lemma_set_mode_keeps_values_in_range(
    interp: bool,
    filter_cnt: i32,
    sinc: bool,
    sinc_size: i32,
    sinc_interp_size: i32,
)
    ensures
        ({
            let m = mode_after_set(interp, filter_cnt, sinc, sinc_size, sinc_interp_size);
            if sinc && sinc_size >= 4 {
                &&& (sinc_size <= 8192 ==> m.sinc_size == sinc_size)
                &&& (sinc_size > 8192 ==> m.sinc_size == 8192)
                &&& (1 <= sinc_interp_size <= 4096 ==> m.sinc_over_size == sinc_interp_size)
                &&& (sinc_interp_size < 1 ==> m.sinc_over_size == 1)
                &&& (sinc_interp_size > 4096 ==> m.sinc_over_size == 4096)
                &&& m.filter_cnt == 0
                &&& !m.interp
            } else {
                &&& m.sinc_size == 0
                &&& m.sinc_over_size == 1
                &&& (0 <= filter_cnt <= 4 ==> m.filter_cnt == filter_cnt)
                &&& (filter_cnt < 0 ==> m.filter_cnt == 0)
                &&& (filter_cnt > 4 ==> m.filter_cnt == 4)
                &&& m.interp == interp
            }
        }),
{
}

/// Every mode `set_mode` produces is valid, whatever its arguments.
pub proof fn lemma_set_mode_is_valid(
    interp: bool,
    filter_cnt: i32,
    sinc: bool,
    sinc_size: i32,
    sinc_interp_size: i32,
)
    ensures
        mode_is_valid(mode_after_set(interp, filter_cnt, sinc, sinc_size, sinc_interp_size)),
{
}

/// One playback read from a song of `total` frames at frame `current` into a
/// buffer of `buffer_len` frames: the frames it fills (as many as fit, but no
/// more than are left), the frame playback continues from, and whether the
/// song has then finished.
pub fn playback_step(current: i64, total: i64, buffer_len: usize) -> (r: (usize, i64, bool))
    requires
        0 <= current <= total,
    ensures
        r.0 == if buffer_len as int <= total - current { buffer_len as int } else { total - current },
        r.1 == current + r.0,
        r.1 <= total,
        r.2 == (r.1 >= total),
{
    let left: i64 = total - current;
    let n: usize = if (buffer_len as u64) <= (left as u64) { buffer_len } else { left as usize };
    let next: i64 = current + n as i64;
    (n, next, next >= total)
}

/// The input-side frame counts of a resampler: frames buffered, frames last
/// asked for, and frames of filter latency added in front of the input.
#[derive(Debug, Clone, Copy, PartialEq, Eq, Structural)]
pub struct ResamplerBuffer {
    pub samples_in_buf: usize,
    pub last_requested: usize,
    pub filter_latency: usize,
}

/// The taps of the sinc filter a mode uses, or 0 for none.
pub open spec fn filter_taps(sinc_size: i32) -> int {
    if sinc_size > 1 { sinc_size as int } else { 0 }
}

/// The frames a sinc filter of `sinc_size` taps needs buffered in front of the
/// input: half the taps less one, when half the taps is more than one.
pub open spec fn primed_frames(sinc_size: i32) -> int {
    let hfs: int = filter_taps(sinc_size) / 2;
    if hfs > 1 { hfs - 1 } else { 0 }
}

/// The input frames a resampler asks for to produce `out_samples` frames:
/// when it is driven by output, the estimate of input frames plus four and the
/// filter taps, less what is buffered; when driven by input, `out_samples`;
/// never less than zero.
pub open spec fn request_frames(
    estimate: i32,
    out_samples: i32,
    feed_mode: bool,
    sinc_size: i32,
    buffered: int,
) -> int {
    let sreq: int = if !feed_mode {
        estimate + 4 + filter_taps(sinc_size) - buffered
    } else {
        out_samples as int
    };
    if sreq < 0 { 0 } else { sreq }
}

impl ResamplerBuffer {
    /// The taps of the sinc filter of a mode with `sinc_size`, or 0 for none.
    pub fn filter_taps(sinc_size: i32) -> (n: i32)
        ensures
            n == filter_taps(sinc_size),
    {
        if sinc_size > 1 { sinc_size } else { 0 }
    }

    /// The frames a sinc filter of `sinc_size` taps needs in front of the input.
    pub fn frames_to_prime(sinc_size: i32) -> (n: usize)
        ensures
            n == primed_frames(sinc_size),
    {
        let hfs: i32 = Self::filter_taps(sinc_size) / 2;
        if hfs > 1 { (hfs - 1) as usize } else { 0 }
    }

    /// Nothing buffered, requested or delayed.
    pub fn new() -> (b: ResamplerBuffer)
        ensures
            b == (ResamplerBuffer { samples_in_buf: 0, last_requested: 0, filter_latency: 0 }),
    {
        ResamplerBuffer { samples_in_buf: 0, last_requested: 0, filter_latency: 0 }
    }

    /// Forgets what is buffered, requested or delayed.
    pub fn reset(&mut self)
        ensures
            *final(self) == (ResamplerBuffer { samples_in_buf: 0, last_requested: 0, filter_latency: 0 }),
    {
        self.last_requested = 0;
        self.filter_latency = 0;
        self.samples_in_buf = 0;
    }

    /// Fills the input buffer up to what a sinc filter of `sinc_size` taps
    /// needs in front of the input; the frames added count as latency.
    pub fn prime(&mut self, sinc_size: i32)
        requires
            old(self).samples_in_buf < primed_frames(sinc_size) ==> old(self).filter_latency
                + primed_frames(sinc_size) - old(self).samples_in_buf <= usize::MAX,
        ensures
            final(self).last_requested == old(self).last_requested,
            if old(self).samples_in_buf < primed_frames(sinc_size) {
                &&& final(self).samples_in_buf == primed_frames(sinc_size)
                &&& final(self).filter_latency == old(self).filter_latency + primed_frames(sinc_size)
                    - old(self).samples_in_buf
            } else {
                &&& final(self).samples_in_buf == old(self).samples_in_buf
                &&& final(self).filter_latency == old(self).filter_latency
            },
    {
        let primed: usize = Self::frames_to_prime(sinc_size);
        if self.samples_in_buf < primed {
            self.filter_latency = self.filter_latency + (primed - self.samples_in_buf);
            self.samples_in_buf = primed;
        }
    }

    /// The input frames a request asks for, as `request_frames` counts them
    /// from `estimate`, the input frames the output needs.
    pub fn request_size(&self, estimate: i32, out_samples: i32, feed_mode: bool, sinc_size: i32) -> (n: usize)
        requires
            !feed_mode ==> self.samples_in_buf <= i32::MAX,
            !feed_mode ==> estimate + 4 + filter_taps(sinc_size) <= i32::MAX,
            !feed_mode ==> i32::MIN <= estimate + 4 + filter_taps(sinc_size) - self.samples_in_buf,
        ensures
            n == request_frames(estimate, out_samples, feed_mode, sinc_size, self.samples_in_buf as int),
    {
        let fsize: i32 = Self::filter_taps(sinc_size);
        let sreq: i32 = if !feed_mode {
            estimate + 4 + fsize - self.samples_in_buf as i32
        } else {
            out_samples
        };
        if sreq < 0 { 0 } else { sreq as usize }
    }

    /// Records a request for input frames, as `request_frames` counts them from
    /// `estimate`, the input frames the output needs; returns the frames the
    /// input buffer must then hold.
    pub fn request(&mut self, estimate: i32, out_samples: i32, feed_mode: bool, sinc_size: i32) -> (needed: usize)
        requires
            !feed_mode ==> old(self).samples_in_buf <= i32::MAX,
            !feed_mode ==> estimate + 4 + filter_taps(sinc_size) <= i32::MAX,
            !feed_mode ==> i32::MIN <= estimate + 4 + filter_taps(sinc_size) - old(self).samples_in_buf,
            old(self).samples_in_buf + request_frames(
                estimate,
                out_samples,
                feed_mode,
                sinc_size,
                old(self).samples_in_buf as int,
            ) <= usize::MAX,
        ensures
            final(self).last_requested == request_frames(
                estimate,
                out_samples,
                feed_mode,
                sinc_size,
                old(self).samples_in_buf as int,
            ),
            final(self).samples_in_buf == old(self).samples_in_buf,
            final(self).filter_latency == old(self).filter_latency,
            needed == old(self).samples_in_buf + final(self).last_requested,
    {
        let sreq: usize = self.request_size(estimate, out_samples, feed_mode, sinc_size);
        self.last_requested = sreq;
        self.samples_in_buf + sreq
    }

    /// Takes in `nsamples_in` frames of input, no more than were last asked
    /// for; a negative count, read as an unsigned size, takes all of them.
    pub fn accept(&mut self, nsamples_in: i32)
        requires
            old(self).samples_in_buf + old(self).last_requested <= usize::MAX,
        ensures
            final(self).samples_in_buf == old(self).samples_in_buf + if nsamples_in >= 0
                && nsamples_in <= old(self).last_requested {
                nsamples_in as int
            } else {
                old(self).last_requested as int
            },
            final(self).last_requested == old(self).last_requested,
            final(self).filter_latency == old(self).filter_latency,
    {
        let taken: usize = if nsamples_in >= 0 && (nsamples_in as usize) <= self.last_requested {
            nsamples_in as usize
        } else {
            self.last_requested
        };
        self.samples_in_buf = self.samples_in_buf + taken;
    }

    /// Drops `frames` consumed frames from the front of the input, down to none.
    pub fn consume(&mut self, frames: usize)
        ensures
            final(self).samples_in_buf == if frames <= old(self).samples_in_buf {
                old(self).samples_in_buf - frames
            } else {
                0
            },
            final(self).last_requested == old(self).last_requested,
            final(self).filter_latency == old(self).filter_latency,
    {
        self.samples_in_buf = if frames <= self.samples_in_buf { self.samples_in_buf - frames } else { 0 };
    }
}

} // verus!
