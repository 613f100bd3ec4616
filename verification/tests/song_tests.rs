use guitar_tab::song::{wonderful_tonight, Beat, Measure, Song};

#[test]
fn rest_has_no_string_or_fret() {
    let b = Beat::rest();
    assert_eq!(b.string, None);
    assert_eq!(b.fret, None);
    assert_eq!(Beat::default(), b);
}

#[test]
fn note_holds_string_and_fret() {
    let b = Beat::note(3, 7);
    assert_eq!(b.string, Some(3));
    assert_eq!(b.fret, Some(7));
}

#[test]
fn measure_new_keeps_beats_and_label() {
    let beats = [Beat::note(0, 1), Beat::rest(), Beat::note(2, 3), Beat::note(5, 0)];
    let m = Measure::new(beats, Some("Em"));
    assert_eq!(m.beats, beats);
    assert_eq!(m.label, Some("Em"));
}

#[test]
fn beat_at_walks_measures_of_a_window() {
    let s = wonderful_tonight();
    assert_eq!(s.beat_at(0, 0), Some(Beat::note(5, 3)));
    assert_eq!(s.beat_at(0, 3), Some(Beat::note(3, 0)));
    // beat 5 of the first window is beat 1 of measure 1
    assert_eq!(s.beat_at(0, 5), Some(Beat::note(4, 2)));
    // beat 5 of the second window is beat 1 of measure 5
    assert_eq!(s.beat_at(4, 5), Some(Beat::note(3, 0)));
    assert_eq!(s.beat_at(4, 15), Some(Beat::note(2, 0)));
}

#[test]
fn beat_at_past_the_end_is_none() {
    let s = wonderful_tonight();
    assert_eq!(s.beat_at(8, 0), None);
    assert_eq!(s.beat_at(4, 16), None);
    let empty = Song { title: "", measures: vec![] };
    assert_eq!(empty.beat_at(0, 0), None);
}

#[test]
fn wonderful_tonight_arrangement() {
    let s = wonderful_tonight();
    assert_eq!(s.title, "Wonderful Tonight (practice arrangement)");
    assert_eq!(s.measures.len(), 8);
    let labels: Vec<&str> = s.measures.iter().map(|m| m.label.unwrap()).collect();
    assert_eq!(labels, vec!["G", "D/F#", "C", "G/B", "Am", "D7", "G", "G"]);
    assert_eq!(
        s.measures[1].beats,
        [Beat::note(3, 0), Beat::note(4, 2), Beat::note(3, 2), Beat::note(5, 3)]
    );
    assert_eq!(
        s.measures[7].beats,
        [Beat::note(2, 0), Beat::note(5, 3), Beat::note(3, 0), Beat::note(2, 0)]
    );
}
