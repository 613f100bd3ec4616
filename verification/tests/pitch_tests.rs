use guitar_tab::pitch::{clamp_fret, midi_note_name, nearest_string_fret};

#[test]
fn note_names_of_known_midi_numbers() {
    assert_eq!(midi_note_name(69), "A4");
    assert_eq!(midi_note_name(60), "C4");
    assert_eq!(midi_note_name(40), "E2");
    assert_eq!(midi_note_name(61), "C#4");
    assert_eq!(midi_note_name(0), "C-1");
    assert_eq!(midi_note_name(11), "B-1");
    assert_eq!(midi_note_name(127), "G9");
}

#[test]
fn note_names_of_negative_midi_numbers() {
    // the octave quotient is rounded toward zero, as in integer division
    assert_eq!(midi_note_name(-1), "B-1");
    assert_eq!(midi_note_name(-12), "C-2");
    assert_eq!(midi_note_name(-13), "B-2");
    assert_eq!(midi_note_name(i32::MIN), "E-178956971");
}

#[test]
fn clamping_onto_the_neck() {
    assert_eq!(clamp_fret(-9), 0);
    assert_eq!(clamp_fret(i32::MIN), 0);
    assert_eq!(clamp_fret(0), 0);
    assert_eq!(clamp_fret(13), 13);
    assert_eq!(clamp_fret(24), 24);
    assert_eq!(clamp_fret(25), 24);
    assert_eq!(clamp_fret(i32::MAX), 24);
}

#[test]
fn nearest_clamps_frets_off_the_neck() {
    let c = [(30, 5u64), (3, 9), (4, 9), (2, 7)];
    assert_eq!(nearest_string_fret(&c), Some((0, 24)));
    let off = [(-1, 3u64), (25, 2), (i32::MIN, 1)];
    assert_eq!(nearest_string_fret(&off), Some((2, 0)));
    assert_eq!(nearest_string_fret(&[]), None);
}

#[test]
fn nearest_keeps_the_first_of_equals() {
    let c = [(0, 4u64), (5, 4), (24, 4)];
    assert_eq!(nearest_string_fret(&c), Some((0, 0)));
    let c = [(24, 9u64), (0, 3), (12, 3)];
    assert_eq!(nearest_string_fret(&c), Some((1, 0)));
}

/// The measurements a caller makes of a frequency, one per string of the
/// standard tuning, with the distance taken at the fret clamped onto the neck.
fn candidates(freq: f64) -> Vec<(i32, u64)> {
    let tuning = [329.63, 246.94, 196.00, 146.83, 110.00, 82.41];
    tuning
        .iter()
        .map(|&open: &f64| {
            let fret = (12.0 * (freq / open).log2()).round() as i32;
            let on_neck = clamp_fret(fret);
            let expected = open * 2.0_f64.powf(on_neck as f64 / 12.0);
            (fret, (freq - expected).abs().to_bits())
        })
        .collect()
}

#[test]
fn nearest_on_measured_frequencies() {
    assert_eq!(nearest_string_fret(&candidates(110.0)), Some((4, 0)));
    assert_eq!(nearest_string_fret(&candidates(82.41)), Some((5, 0)));
    assert_eq!(nearest_string_fret(&candidates(329.63)), Some((0, 0)));
    // below the low E string, the nearest is the low E open
    assert_eq!(nearest_string_fret(&candidates(50.0)), Some((5, 0)));
    assert_eq!(nearest_string_fret(&candidates(40.0)), Some((5, 0)));
    assert_eq!(nearest_string_fret(&candidates(0.0)), Some((5, 0)));
}

#[test]
fn an_octave_up_keeps_the_name_and_adds_one() {
    assert_eq!(midi_note_name(57), "A3");
    assert_eq!(midi_note_name(69), "A4");
    assert_eq!(midi_note_name(81), "A5");
    assert_eq!(midi_note_name(0), "C-1");
    assert_eq!(midi_note_name(12), "C0");
}
