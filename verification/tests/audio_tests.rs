use chart_player::audio::{playback_step, standard_string_midi, ResamplerBuffer, ResamplerMode, SampleHistory, VorbisMixer};
use chart_player::song::SongInstrumentType;
use std::time::Duration;

#[test]
fn new_history_is_empty() {
    let h = SampleHistory::<f32>::new();
    assert_eq!(h.size(), 0);
    assert_eq!(h.current_offset(), 0);
    let d: SampleHistory<i32> = Default::default();
    assert_eq!(d.size(), 0);
}

#[test]
fn set_size_keeps_offset() {
    let mut h = SampleHistory::<i32>::new();
    h.set_size(4);
    assert_eq!(h.size(), 4);
    h.copy_from(&[1, 2, 3]);
    assert_eq!(h.current_offset(), 3);
    h.set_size(2);
    assert_eq!(h.size(), 2);
    assert_eq!(h.current_offset(), 3);
    assert_eq!(h.samples(), &[1, 2]);
    h.set_size(5);
    assert_eq!(h.samples(), &[1, 2, 0, 0, 0]);
}

#[test]
fn copy_from_wraps_around() {
    let mut h = SampleHistory::<i32>::new();
    h.set_size(4);
    assert_eq!(h.samples(), &[0, 0, 0, 0]);
    h.copy_from(&[1, 2, 3]);
    assert_eq!(h.current_offset(), 3);
    assert_eq!(h.samples(), &[1, 2, 3, 0]);
    h.copy_from(&[4, 5, 6]);
    assert_eq!(h.current_offset(), 2);
    assert_eq!(h.samples(), &[5, 6, 3, 4]);
    h.copy_from(&[]);
    assert_eq!(h.current_offset(), 2);
    h.copy_from(&[7, 8, 9, 10, 11, 12, 13]);
    assert_eq!(h.current_offset(), 1);
    assert_eq!(h.samples(), &[13, 10, 11, 12]);
}

#[test]
fn copy_from_at_end_position_starts_over() {
    let mut h = SampleHistory::<f32>::new();
    h.set_size(3);
    h.copy_from(&[1.0, 2.0, 3.0]);
    assert_eq!(h.current_offset(), 0);
    h.set_size(5);
    h.copy_from(&[4.0, 5.0]);
    assert_eq!(h.current_offset(), 2);
    assert_eq!(h.samples(), &[4.0, 5.0, 3.0, 0.0, 0.0]);
}

#[test]
fn vorbis_mixer_reports_fixed_stream() {
    let m = VorbisMixer::new("song.ogg").expect("mixer");
    assert_eq!(m.sample_rate(), 48000);
    assert_eq!(m.channels(), 2);
    assert_eq!(m.total_samples(), 0);
    assert_eq!(m.total_time(), Duration::from_secs(0));
    let c = m.clone();
    assert_eq!(c.sample_rate(), 48000);
}

#[test]
fn samples_to_read_fits_buffer() {
    assert_eq!(VorbisMixer::samples_to_read(10, 2, 5), 5);
    assert_eq!(VorbisMixer::samples_to_read(10, 2, 9), 8);
    assert_eq!(VorbisMixer::samples_to_read(10, 10, 9), 0);
}

#[test]
fn standard_strings() {
    assert_eq!(standard_string_midi(0, SongInstrumentType::LeadGuitar), 40);
    assert_eq!(standard_string_midi(5, SongInstrumentType::RhythmGuitar), 64);
    assert_eq!(standard_string_midi(9, SongInstrumentType::LeadGuitar), 64);
    assert_eq!(standard_string_midi(-3, SongInstrumentType::Keys), 40);
    assert_eq!(standard_string_midi(0, SongInstrumentType::BassGuitar), 28);
    assert_eq!(standard_string_midi(3, SongInstrumentType::BassGuitar), 43);
    assert_eq!(standard_string_midi(5, SongInstrumentType::BassGuitar), 43);
}

#[test]
fn resampler_mode_defaults_and_clamps() {
    let mut m = ResamplerMode::new();
    assert_eq!((m.sinc_size, m.sinc_over_size, m.filter_cnt, m.interp), (0, 0, 1, true));
    m.set_mode(true, 9, true, 16000, 0);
    assert_eq!((m.sinc_size, m.sinc_over_size, m.filter_cnt, m.interp), (8192, 1, 0, false));
    m.set_mode(true, -2, true, 3, 50);
    assert_eq!((m.sinc_size, m.sinc_over_size, m.filter_cnt, m.interp), (0, 1, 0, true));
    m.set_mode(false, 3, false, 64, 5000);
    assert_eq!((m.sinc_size, m.sinc_over_size, m.filter_cnt, m.interp), (0, 1, 3, false));
    m.set_mode(true, 2, true, 64, 5000);
    assert_eq!((m.sinc_size, m.sinc_over_size, m.filter_cnt, m.interp), (64, 4096, 0, false));
}

#[test]
fn recent_samples_law() {
    let mut h = SampleHistory::<i32>::new();
    h.set_size(5);
    h.copy_from(&[9, 9]);
    let start = h.current_offset();
    let src: Vec<i32> = (100..112).collect();
    h.copy_from(&src);
    let len = h.size();
    for k in src.len() - len..src.len() {
        assert_eq!(h.samples()[(start + k) % len], src[k]);
    }
    assert_eq!(h.current_offset(), (start + src.len()) % len);
}

#[test]
fn short_write_keeps_rest_law() {
    let mut h = SampleHistory::<i32>::new();
    h.set_size(6);
    h.copy_from(&[1, 2, 3, 4, 5, 6]);
    h.copy_from(&[7, 8, 9, 10]);
    let before: Vec<i32> = h.samples().to_vec();
    let start = h.current_offset();
    h.copy_from(&[20, 21]);
    for j in 2..6 {
        assert_eq!(h.samples()[(start + j) % 6], before[(start + j) % 6]);
    }
}

#[test]
fn playback_step_stops_at_song_end() {
    assert_eq!(playback_step(0, 100, 32), (32, 32, false));
    assert_eq!(playback_step(90, 100, 32), (10, 100, true));
    assert_eq!(playback_step(100, 100, 32), (0, 100, true));
    assert_eq!(playback_step(0, 0, 0), (0, 0, true));
    assert_eq!(playback_step(68, 100, 32), (32, 100, true));
}

#[test]
fn resampler_buffer_primes_for_sinc_filter() {
    let mut b = ResamplerBuffer::new();
    b.prime(0);
    assert_eq!(b, ResamplerBuffer::new());
    b.prime(64);
    assert_eq!((b.samples_in_buf, b.filter_latency), (31, 31));
    b.prime(64);
    assert_eq!((b.samples_in_buf, b.filter_latency), (31, 31));
    b.consume(10);
    b.prime(64);
    assert_eq!((b.samples_in_buf, b.filter_latency), (31, 41));
    b.prime(4);
    assert_eq!((b.samples_in_buf, b.filter_latency), (31, 41));
    assert_eq!(ResamplerBuffer::frames_to_prime(6), 2);
    assert_eq!(ResamplerBuffer::frames_to_prime(4), 1);
    assert_eq!(ResamplerBuffer::frames_to_prime(3), 0);
    assert_eq!(ResamplerBuffer::filter_taps(1), 0);
    assert_eq!(ResamplerBuffer::filter_taps(8), 8);
}

#[test]
fn resampler_buffer_requests_and_consumes() {
    let mut b = ResamplerBuffer::new();
    let needed = b.request(100, 100, false, 0);
    assert_eq!((needed, b.last_requested), (104, 104));
    b.accept(50);
    assert_eq!(b.samples_in_buf, 50);
    b.accept(500);
    assert_eq!(b.samples_in_buf, 154);
    b.accept(-1);
    assert_eq!(b.samples_in_buf, 258);
    let needed = b.request(10, 7, true, 64);
    assert_eq!((needed, b.last_requested), (265, 7));
    let needed = b.request(10, 7, false, 64);
    assert_eq!((needed, b.last_requested), (258, 0));
    b.consume(200);
    assert_eq!(b.samples_in_buf, 58);
    b.consume(1000);
    assert_eq!(b.samples_in_buf, 0);
    b.reset();
    assert_eq!(b, ResamplerBuffer::new());
}

#[test]
fn empty_copy_after_shrink_does_nothing() {
    let mut h = SampleHistory::<i32>::new();
    h.set_size(4);
    h.copy_from(&[1, 2, 3]);
    h.set_size(2);
    h.copy_from(&[]);
    assert_eq!(h.current_offset(), 3);
    assert_eq!(h.samples(), &[1, 2]);
}

#[test]
fn feed_mode_request_takes_output_count() {
    let mut b = ResamplerBuffer::new();
    b.accept(0);
    let needed = b.request(0, 12, true, 0);
    assert_eq!((needed, b.last_requested), (12, 12));
}

#[test]
fn request_size_matches_request() {
    let mut b = ResamplerBuffer::new();
    b.accept(0);
    assert_eq!(b.request_size(10, 3, false, 8), 22);
    assert_eq!(b.request_size(-50, 3, false, 8), 0);
    assert_eq!(b.request_size(-50, 3, true, 8), 3);
    assert_eq!(b.request(10, 3, false, 8), 22);
}
