use rusty_bars::analyze_spectrum::scale_fft_output;

#[test]
fn short_spectrum_passes_through() {
    let input = vec![1000, -2000, 3000];
    assert_eq!(scale_fft_output(&input, 3), input);
    assert_eq!(scale_fft_output(&input, 4), input);
    assert_eq!(scale_fft_output(&input, 1000), input);
    assert_eq!(scale_fft_output(&vec![], 0), Vec::<i32>::new());
    assert_eq!(scale_fft_output(&vec![], 5), Vec::<i32>::new());
}

#[test]
fn bands_are_averaged() {
    let input = vec![1000, 2000, 3000, 4000, 5000, 6000];
    assert_eq!(scale_fft_output(&input, 3), vec![1500, 3500, 5500]);
    assert_eq!(scale_fft_output(&input, 2), vec![2000, 5000]);
    assert_eq!(scale_fft_output(&input, 1), vec![3500]);
}

#[test]
fn last_band_takes_the_remainder() {
    let input = vec![10, 20, 30, 40, 50, 60, 700];
    assert_eq!(scale_fft_output(&input, 3), vec![15, 35, 270]);
    let input = vec![1, 2, 3, 4, 5];
    assert_eq!(scale_fft_output(&input, 4), vec![1, 2, 3, 4]);
    assert_eq!(scale_fft_output(&input, 2), vec![1, 4]);
}

#[test]
fn rescaling_gives_exactly_the_columns_asked_for() {
    let mut input = Vec::new();
    for i in 0..512 {
        input.push(i * 10);
    }
    for cols in [1usize, 2, 3, 7, 79, 100, 255, 256, 511] {
        assert_eq!(scale_fft_output(&input, cols).len(), cols);
    }
    assert_eq!(scale_fft_output(&input, 512).len(), 512);
    assert_eq!(scale_fft_output(&input, 600).len(), 512);
}

#[test]
fn rescaling_to_no_columns_gives_nothing() {
    assert_eq!(scale_fft_output(&vec![1, 2, 3], 0), Vec::<i32>::new());
}

#[test]
fn means_round_down() {
    assert_eq!(scale_fft_output(&vec![-1, -2], 1), vec![-2]);
    assert_eq!(scale_fft_output(&vec![1, 2], 1), vec![1]);
    assert_eq!(scale_fft_output(&vec![-3, 3, -4, 2], 2), vec![0, -1]);
    assert_eq!(scale_fft_output(&vec![i32::MIN, i32::MIN, i32::MAX, i32::MAX], 2), vec![i32::MIN, i32::MAX]);
    assert_eq!(scale_fft_output(&vec![i32::MIN, i32::MAX], 1), vec![-1]);
}

#[test]
fn rescaling_twice_to_the_same_width_changes_nothing() {
    let mut input = Vec::new();
    for i in 0..100 {
        input.push((i * 37) % 1000 - 300);
    }
    for cols in [1usize, 3, 10, 33, 99, 100, 150] {
        let once = scale_fft_output(&input, cols);
        let twice = scale_fft_output(&once, cols);
        assert_eq!(once, twice);
        assert_eq!(scale_fft_output(&input, cols), once);
    }
}

#[test]
fn flat_spectrum_stays_flat() {
    let input = vec![-4321; 37];
    assert_eq!(scale_fft_output(&input, 5), vec![-4321; 5]);
}
