use fir_design::{
    pair_taps, spectrum_bin_count, tap_position, DesignError, Filter, GainReference, TapLayout,
    TapPosition, Window, DEFAULT_SPECTRUM_LEN,
};

#[test]
fn window_labels() {
    assert_eq!(Window::Rectangular.label(), "Rectangular");
    assert_eq!(Window::Triangular.label(), "Triangular");
    assert_eq!(Window::Welch.label(), "Welch");
    assert_eq!(Window::Sin.label(), "Sin");
    assert_eq!(Window::Hann.label(), "Hann");
    assert_eq!(Window::Hamming.label(), "Hamming");
    assert_eq!(Window::Blackman.label(), "Blackman");
    assert_eq!(Window::Nuttall.label(), "Nutall");
    assert_eq!(Window::BlackmanNuttall.label(), "Blackman Nutall");
    assert_eq!(Window::BlackmanHarris.label(), "Blackman Harris");
    assert_eq!(Window::FlatTop.label(), "Flat Top");
}

#[test]
fn filter_labels() {
    assert_eq!(Filter::LowPass.label(), "Low Pass");
    assert_eq!(Filter::HighPass.label(), "High Pass");
    assert_eq!(Filter::BandPass.label(), "Band Pass");
    assert_eq!(Filter::BandStop.label(), "Band Stop");
}

#[test]
fn defaults_are_rectangular_low_pass() {
    assert_eq!(Window::default(), Window::Rectangular);
    assert_eq!(Filter::default(), Filter::LowPass);
}

#[test]
fn gain_reference_per_class() {
    assert_eq!(Filter::LowPass.gain_reference(), GainReference::Dc);
    assert_eq!(Filter::BandStop.gain_reference(), GainReference::Dc);
    assert_eq!(Filter::HighPass.gain_reference(), GainReference::Nyquist);
    assert_eq!(Filter::BandPass.gain_reference(), GainReference::BandCenter);
}

#[test]
fn cut_offs_read_per_class() {
    assert!(!Filter::LowPass.uses_low_cut());
    assert!(Filter::LowPass.uses_high_cut());
    assert!(Filter::HighPass.uses_low_cut());
    assert!(!Filter::HighPass.uses_high_cut());
    assert!(Filter::BandPass.uses_low_cut());
    assert!(Filter::BandPass.uses_high_cut());
    assert!(Filter::BandStop.uses_low_cut());
    assert!(Filter::BandStop.uses_high_cut());
}

#[test]
fn tap_positions_around_centre() {
    assert_eq!(tap_position(32, 32), TapPosition::Center);
    assert_eq!(tap_position(0, 32), TapPosition::Before(32));
    assert_eq!(tap_position(63, 32), TapPosition::After(31));
    assert_eq!(tap_position(0, 0), TapPosition::Center);
    assert_eq!(tap_position(5, 0), TapPosition::After(5));
}

#[test]
fn zero_taps_refused() {
    assert!(matches!(TapLayout::new(0, 0), Err(DesignError::NoTaps)));
    assert!(matches!(TapLayout::new(0, 32), Err(DesignError::NoTaps)));
}

#[test]
fn window_span_is_one_less_than_tap_count() {
    let l = TapLayout::new(64, 32).unwrap();
    assert_eq!(l.tap_count, 64);
    assert_eq!(l.shift, 32);
    assert_eq!(l.window_span(), 63);
    let single = TapLayout::new(1, 0).unwrap();
    assert_eq!(single.window_span(), 0);
}

#[test]
fn layout_positions_in_order() {
    let l = TapLayout::new(64, 32).unwrap();
    let p = l.positions();
    assert_eq!(p.len(), 64);
    assert_eq!(p[0], TapPosition::Before(32));
    assert_eq!(p[31], TapPosition::Before(1));
    assert_eq!(p[32], TapPosition::Center);
    assert_eq!(p[33], TapPosition::After(1));
    assert_eq!(p[63], TapPosition::After(31));
    let centres = p.iter().filter(|q| **q == TapPosition::Center).count();
    assert_eq!(centres, 1);
}

#[test]
fn layout_with_centre_past_the_end() {
    let l = TapLayout::new(3, 10).unwrap();
    assert_eq!(
        l.positions(),
        vec![TapPosition::Before(10), TapPosition::Before(9), TapPosition::Before(8)]
    );
}

#[test]
fn pairing_mismatched_lengths_fails() {
    let f = vec![1.0f64, 2.0, 3.0, 4.0];
    let w = vec![1.0f64, 1.0, 1.0, 1.0, 1.0];
    assert_eq!(
        pair_taps(&f, &w),
        Err(DesignError::LengthMismatch { filter_len: 4, window_len: 5 })
    );
    assert_eq!(
        pair_taps(&w, &f),
        Err(DesignError::LengthMismatch { filter_len: 5, window_len: 4 })
    );
}

#[test]
fn pairing_equal_lengths_keeps_order() {
    let f = vec![600.0f64, -2.5, 0.0];
    let w = vec![0.0f64, 0.5, 1.0];
    let p = pair_taps(&f, &w).unwrap();
    assert_eq!(p, vec![(600.0, 0.0), (-2.5, 0.5), (0.0, 1.0)]);
    let windowed: Vec<f64> = p.iter().map(|(a, b)| a * b).collect();
    assert_eq!(windowed, vec![0.0, -1.25, 0.0]);
}

#[test]
fn pairing_empty_vectors() {
    let e: Vec<u32> = Vec::new();
    assert_eq!(pair_taps(&e, &e), Ok(Vec::new()));
}

#[test]
fn spectrum_has_half_the_analysis_length() {
    assert_eq!(DEFAULT_SPECTRUM_LEN, 256);
    assert_eq!(spectrum_bin_count(DEFAULT_SPECTRUM_LEN), 128);
    assert_eq!(spectrum_bin_count(255), 127);
    assert_eq!(spectrum_bin_count(1), 0);
    assert_eq!(spectrum_bin_count(0), 0);
}
