use rusty_bars::fftw::audio::{sample_of, AudioFft};
use rusty_bars::fftw::multichannel::MultiChannelFft;
use rusty_bars::fftw::types::{bin_count, PlannerFlags};

fn ramp(count: usize) -> Vec<i16> {
    let mut samples = Vec::new();
    for i in 0..count {
        samples.push((i as i16) * 3 - 100);
    }
    samples
}

fn windows(fft: &AudioFft) -> Vec<Vec<i16>> {
    let mut all = Vec::new();
    for c in 0..fft.get_channel_count() {
        all.push(fft.get_channel(c).unwrap().clone());
    }
    all
}

#[test]
fn new_analyzer_is_empty() {
    let fft = AudioFft::new(8, 2);
    assert_eq!(fft.get_fft_size(), 8);
    assert_eq!(fft.get_channel_count(), 2);
    assert_eq!(fft.get_input_cursor(), 0);
    assert!(!fft.is_ready());
    assert_eq!(windows(&fft), vec![vec![0i16; 8], vec![0i16; 8]]);
    assert_eq!(fft.get_output(), &vec![0i32; 4]);
    assert!(fft.get_channel(2).is_none());
}

#[test]
fn feed_places_samples_by_channel() {
    let mut fft = AudioFft::new(4, 2);
    let taken = fft.feed_data(&[10, 20, 30, 40, 50]);
    assert_eq!(taken, 5);
    assert_eq!(fft.get_input_cursor(), 5);
    assert_eq!(windows(&fft), vec![vec![10, 30, 50, 0], vec![20, 40, 0, 0]]);
    assert!(!fft.is_ready());
    assert_eq!(fft.fill_cursor(0), 3);
    assert_eq!(fft.fill_cursor(1), 2);
}

#[test]
fn feed_stops_when_every_window_is_full() {
    let mut fft = AudioFft::new(4, 2);
    let samples = ramp(10);
    let taken = fft.feed_data(&samples);
    assert_eq!(taken, 8);
    assert!(fft.is_ready());
    assert_eq!(fft.fill_cursor(0), 4);
    assert_eq!(fft.fill_cursor(1), 4);
    let before = windows(&fft);
    assert_eq!(fft.feed_data(&samples[8..]), 0);
    assert_eq!(windows(&fft), before);
    assert_eq!(
        before,
        vec![
            vec![samples[0], samples[2], samples[4], samples[6]],
            vec![samples[1], samples[3], samples[5], samples[7]],
        ]
    );
}

#[test]
fn feed_is_chunk_size_independent() {
    let samples = ramp(16);
    let mut at_once = AudioFft::new(8, 2);
    assert_eq!(at_once.feed_data(&samples), 16);

    let mut one_by_one = AudioFft::new(8, 2);
    for i in 0..16 {
        assert_eq!(one_by_one.feed_data(&samples[i..i + 1]), 1);
    }

    let mut in_chunks = AudioFft::new(8, 2);
    assert_eq!(in_chunks.feed_data(&samples[0..5]), 5);
    assert_eq!(in_chunks.feed_data(&samples[5..12]), 7);
    assert_eq!(in_chunks.feed_data(&samples[12..16]), 4);

    assert_eq!(windows(&at_once), windows(&one_by_one));
    assert_eq!(windows(&at_once), windows(&in_chunks));
    assert!(at_once.is_ready() && one_by_one.is_ready() && in_chunks.is_ready());
}

#[test]
fn consumed_counts_add_up_to_the_room_of_the_windows() {
    let samples = ramp(21);
    let mut fft = AudioFft::new(8, 2);
    let a = fft.feed_data(&samples[0..5]);
    let b = fft.feed_data(&samples[5..12]);
    let c = fft.feed_data(&samples[12..21]);
    assert_eq!((a, b, c), (5, 7, 4));
    assert!(a <= 5 && b <= 7 && c <= 9);
    assert_eq!(a + b + c, 16);
    assert!(fft.is_ready());
}

#[test]
fn feeding_nothing_changes_nothing() {
    let mut fft = AudioFft::new(4, 2);
    fft.feed_data(&[7, 8, 9]);
    let before = windows(&fft);
    assert_eq!(fft.feed_data(&[]), 0);
    assert_eq!(fft.feed_u8_data(&[]), 0);
    assert_eq!(fft.get_input_cursor(), 3);
    assert_eq!(windows(&fft), before);
    assert!(!fft.execute());
}

#[test]
fn feed_u8_decodes_little_endian_pairs() {
    let mut fft = AudioFft::new(4, 2);
    let bytes = [0x34u8, 0x12, 0xff, 0xff, 0x00, 0x80, 0x01];
    let taken = fft.feed_u8_data(&bytes);
    assert_eq!(taken, 6);
    assert_eq!(fft.get_input_cursor(), 3);
    assert_eq!(windows(&fft), vec![vec![0x1234, -32768, 0, 0], vec![-1, 0, 0, 0]]);
}

#[test]
fn feed_u8_reports_bytes_not_samples() {
    let mut fft = AudioFft::new(2, 2);
    let bytes = [1u8, 0, 2, 0, 3, 0, 4, 0, 5, 0, 6, 0];
    assert_eq!(fft.feed_u8_data(&bytes), 8);
    assert!(fft.is_ready());
    assert_eq!(windows(&fft), vec![vec![1, 3], vec![2, 4]]);
    assert_eq!(fft.feed_u8_data(&bytes[8..]), 0);
}

#[test]
fn sample_of_joins_low_and_high_byte() {
    assert_eq!(sample_of(0, 0), 0);
    assert_eq!(sample_of(0xff, 0x7f), 32767);
    assert_eq!(sample_of(0x00, 0x80), -32768);
    assert_eq!(sample_of(0xff, 0xff), -1);
    assert_eq!(sample_of(0x01, 0x02), 513);
    assert_eq!(sample_of(0xfe, 0xff), -2);
}

#[test]
fn execute_only_completes_a_full_cycle() {
    let mut fft = AudioFft::new(2, 2);
    fft.feed_data(&[1, 2, 3]);
    assert!(!fft.execute());
    assert_eq!(fft.get_input_cursor(), 3);
    fft.feed_data(&[4]);
    assert!(fft.is_ready());
    assert!(fft.execute());
    assert_eq!(fft.get_input_cursor(), 0);
    assert_eq!(fft.fill_cursor(0), 0);
    assert_eq!(fft.fill_cursor(1), 0);
    assert!(!fft.is_ready());
    assert_eq!(windows(&fft), vec![vec![1, 3], vec![2, 4]]);
    assert_eq!(fft.feed_data(&[9]), 1);
    assert_eq!(windows(&fft), vec![vec![9, 3], vec![2, 4]]);
}

#[test]
fn compute_output_holds_the_maximum_of_each_bin() {
    let mut fft = AudioFft::new(8, 2);
    let left = vec![Some(1000), Some(-500), None, Some(7)];
    let right = vec![Some(900), Some(-400), Some(-2), None];
    assert!(fft.compute_output(&vec![left, right]));
    assert_eq!(fft.get_output(), &vec![1000, -400, 0, 7]);
}

#[test]
fn compute_output_overwrites_what_the_last_cycle_left() {
    let mut fft = AudioFft::new(4, 2);
    assert!(fft.compute_output(&vec![vec![Some(5000), Some(5000)], vec![Some(1), Some(2)]]));
    assert_eq!(fft.get_output(), &vec![5000, 5000]);
    assert!(fft.compute_output(&vec![vec![Some(-10), Some(3)], vec![Some(-20), Some(2)]]));
    assert_eq!(fft.get_output(), &vec![-10, 3]);
}

#[test]
fn silence_counts_as_level_zero() {
    let mut fft = AudioFft::new(2, 2);
    assert!(fft.compute_output(&vec![vec![Some(-3000)], vec![None]]));
    assert_eq!(fft.get_output(), &vec![0]);
    assert!(fft.compute_output(&vec![vec![None], vec![None]]));
    assert_eq!(fft.get_output(), &vec![0]);
}

#[test]
fn compute_output_rejects_another_shape() {
    let mut fft = AudioFft::new(4, 2);
    assert!(fft.compute_output(&vec![vec![Some(11), Some(12)], vec![Some(13), Some(14)]]));
    assert!(!fft.compute_output(&vec![vec![Some(1), Some(2)]]));
    assert!(!fft.compute_output(&vec![vec![Some(1), Some(2)], vec![Some(1)]]));
    assert!(!fft.compute_output(&vec![vec![Some(1)], vec![Some(1), Some(2)]]));
    assert!(!fft.compute_output(&vec![]));
    assert_eq!(fft.get_output(), &vec![13, 14]);
}

#[test]
fn multichannel_windows_start_at_zero() {
    let mut m = MultiChannelFft::new(3, 2);
    assert_eq!(m.get_size(), 3);
    assert_eq!(m.get_channel_count(), 2);
    assert_eq!(m.get_channel(0), Some(&vec![0i16, 0, 0]));
    assert_eq!(m.get_channel(1), Some(&vec![0i16, 0, 0]));
    assert_eq!(m.get_channel(2), None);
    m.set_sample(1, 2, -7);
    assert_eq!(m.get_channel(0), Some(&vec![0i16, 0, 0]));
    assert_eq!(m.get_channel(1), Some(&vec![0i16, 0, -7]));
}

#[test]
fn planner_flags_have_their_bits() {
    assert_eq!(PlannerFlags::Measure.bits(), 0);
    assert_eq!(PlannerFlags::DestroyInput.bits(), 1);
    assert_eq!(PlannerFlags::Unaligned.bits(), 2);
    assert_eq!(PlannerFlags::ConserveMemory.bits(), 4);
    assert_eq!(PlannerFlags::Exhaustive.bits(), 8);
    assert_eq!(PlannerFlags::PreserveInput.bits(), 16);
    assert_eq!(PlannerFlags::Patient.bits(), 32);
    assert_eq!(PlannerFlags::Estimate.bits(), 64);
    assert_eq!(PlannerFlags::WisdomOnly.bits(), 1 << 21);
    assert_eq!(bin_count(1024), 512);
    assert_eq!(bin_count(7), 3);
}

// A stand-in for the transform engine: the taper, a plain discrete Fourier
// transform, and the level of each bin in thousandths of a decibel.
fn levels_of_window(window: &Vec<i16>) -> Vec<Option<i32>> {
    let n = window.len();
    let mut tapered = Vec::new();
    for (i, &sample) in window.iter().enumerate() {
        let inner = 2.0 * std::f64::consts::PI * (i as f64) / ((n - 1) as f64);
        tapered.push(0.5 * (1.0 - inner.cos()) * (sample as f64));
    }
    let mut levels = Vec::new();
    for bin in 0..n / 2 {
        let mut re = 0.0f64;
        let mut im = 0.0f64;
        for (i, &value) in tapered.iter().enumerate() {
            let angle = -2.0 * std::f64::consts::PI * (bin as f64) * (i as f64) / (n as f64);
            re += value * angle.cos();
            im += value * angle.sin();
        }
        let magnitude = (re * re + im * im).sqrt();
        if magnitude == 0.0 {
            levels.push(None);
        } else {
            levels.push(Some((20.0 * magnitude.log10() * 1000.0).round() as i32));
        }
    }
    levels
}

fn tone_bytes(frames: usize, left: bool, right: bool) -> Vec<u8> {
    let mut bytes = Vec::new();
    for frame in 0..frames {
        let phase = 2.0 * std::f64::consts::PI * 440.0 * (frame as f64) / 44100.0;
        let sample = (phase.sin() * 12000.0).round() as i16;
        for on in [left, right] {
            let value: i16 = if on { sample } else { 0 };
            bytes.push((value as u16 & 0xff) as u8);
            bytes.push((value as u16 >> 8) as u8);
        }
    }
    bytes
}

fn peak_bin(levels: &Vec<i32>) -> usize {
    let mut best = 0;
    for (bin, &level) in levels.iter().enumerate() {
        if level > levels[best] {
            best = bin;
        }
    }
    best
}

#[test]
fn end_to_end_tone_peaks_at_its_frequency() {
    let mut fft = AudioFft::new(1024, 2);
    let bytes = tone_bytes(1024, true, true);
    assert_eq!(bytes.len(), 4096);

    assert_eq!(fft.feed_u8_data(&bytes[0..1000]), 1000);
    assert!(!fft.is_ready());
    assert_eq!(fft.feed_u8_data(&bytes[1000..3000]), 2000);
    assert!(!fft.is_ready());
    assert!(!fft.execute());
    assert_eq!(fft.feed_u8_data(&bytes[3000..4096]), 1096);
    assert!(fft.is_ready());

    let left = levels_of_window(fft.get_channel(0).unwrap());
    let right = levels_of_window(fft.get_channel(1).unwrap());
    assert!(fft.compute_output(&vec![left, right]));
    assert!(fft.execute());
    assert!(!fft.is_ready());

    let output = fft.get_output();
    assert_eq!(output.len(), 512);
    let peak = peak_bin(output);
    assert!(peak >= 9 && peak <= 11, "peak at bin {}", peak);
}

#[test]
fn max_hold_takes_the_peak_of_the_channel_that_sounds() {
    let mut fft = AudioFft::new(1024, 2);
    let bytes = tone_bytes(1024, false, true);
    assert_eq!(fft.feed_u8_data(&bytes), 4096);
    assert!(fft.is_ready());
    assert_eq!(fft.get_channel(0).unwrap(), &vec![0i16; 1024]);

    let left = levels_of_window(fft.get_channel(0).unwrap());
    let right = levels_of_window(fft.get_channel(1).unwrap());
    assert!(left.iter().all(|level| level.is_none()));
    let right_peak = right.iter().map(|level| level.unwrap_or(0)).max().unwrap();
    assert!(right_peak > 0);

    assert!(fft.compute_output(&vec![left, right.clone()]));
    let output = fft.get_output();
    let peak = peak_bin(output);
    assert_eq!(output[peak], right_peak);
    assert_eq!(right[peak], Some(right_peak));
    assert!(peak >= 9 && peak <= 11, "peak at bin {}", peak);
}
