use guitar_tab::song::{wonderful_tonight, Beat, Measure, Song};
use guitar_tab::tab::{detection_matches, Advance, TabView};

fn short_song(n: usize) -> Song {
    let mut measures = Vec::new();
    for i in 0..n {
        measures.push(Measure::new(
            [Beat::note(i % 6, 1), Beat::rest(), Beat::note(0, 12), Beat::note(5, 255)],
            None,
        ));
    }
    Song { title: "short", measures }
}

#[test]
fn new_view_starts_on_first_beat() {
    let t = TabView::new(wonderful_tonight());
    assert_eq!(t.window_start_measure(), 0);
    assert_eq!(t.beat_in_window(), 0);
    assert!(!t.is_song_complete());
    assert_eq!(t.expected_beat(), Some(Beat::note(5, 3)));
    assert_eq!(t.song().measures.len(), 8);
}

#[test]
fn advance_continues_then_bumps_then_completes() {
    let mut t = TabView::new(wonderful_tonight());
    for i in 1..16 {
        assert_eq!(t.advance(), Advance::Continue);
        assert_eq!(t.beat_in_window(), i);
        assert_eq!(t.window_start_measure(), 0);
    }
    assert_eq!(t.advance(), Advance::Bumped);
    assert_eq!(t.window_start_measure(), 4);
    assert_eq!(t.beat_in_window(), 0);
    assert_eq!(t.expected_beat(), Some(Beat::note(4, 0)));
    for _ in 1..16 {
        assert_eq!(t.advance(), Advance::Continue);
    }
    assert_eq!(t.advance(), Advance::SongComplete);
    assert!(t.is_song_complete());
    assert_eq!(t.expected_beat(), None);
}

#[test]
fn advance_completes_inside_a_window() {
    let mut t = TabView::new(short_song(1));
    assert_eq!(t.advance(), Advance::Continue);
    assert_eq!(t.advance(), Advance::Continue);
    assert_eq!(t.advance(), Advance::Continue);
    assert!(!t.is_song_complete());
    assert_eq!(t.advance(), Advance::SongComplete);
    assert!(t.is_song_complete());
    assert_eq!(t.window_start_measure(), 0);
    assert_eq!(t.beat_in_window(), 4);
    assert_eq!(t.expected_beat(), None);
    // further steps inside the window of a finished song are plain steps
    for _ in 5..16 {
        assert_eq!(t.advance(), Advance::Continue);
    }
    // a step into a window past the end reports the end again
    assert_eq!(t.advance(), Advance::SongComplete);
    assert_eq!(t.window_start_measure(), 4);
}

#[test]
fn advance_over_an_empty_song() {
    let mut t = TabView::new(Song { title: "", measures: vec![] });
    for k in 1..=40 {
        let r = t.advance();
        if k % 16 == 0 {
            assert_eq!(r, Advance::SongComplete);
        } else {
            assert_eq!(r, Advance::Continue);
        }
        assert_eq!(t.window_start_measure(), 4 * (k / 16));
        assert_eq!(t.beat_in_window(), k % 16);
    }
}

#[test]
fn empty_song_is_complete_from_the_start() {
    let t = TabView::new(Song { title: "", measures: vec![] });
    assert!(t.is_song_complete());
    assert_eq!(t.expected_beat(), None);
}

#[test]
fn cells_are_four_wide() {
    assert_eq!(TabView::cell(&Beat::note(5, 3), 5), "3---");
    assert_eq!(TabView::cell(&Beat::note(5, 12), 5), "12--");
    assert_eq!(TabView::cell(&Beat::note(5, 255), 5), "255-");
    assert_eq!(TabView::cell(&Beat::note(5, 3), 4), "----");
    assert_eq!(TabView::cell(&Beat::rest(), 0), "----");
    let string_only = Beat { string: Some(2), fret: None };
    assert_eq!(TabView::cell(&string_only, 2), "----");
}

#[test]
fn string_rows_of_the_first_window() {
    let t = TabView::new(wonderful_tonight());
    let now = t.window_measures(0);
    assert_eq!(
        t.string_row(&now, 5),
        "E ||3---------------|------------3---|------------0---|0-----------0---|"
    );
    assert_eq!(
        t.string_row(&now, 1),
        "B ||----3-----------|----------------|----------------|--------0-------|"
    );
    for s in 0..6 {
        assert_eq!(t.string_row(&now, s).chars().count(), 72);
    }
}

#[test]
fn rows_past_the_end_are_dashes() {
    let t = TabView::new(wonderful_tonight());
    let after = t.window_measures(8);
    assert!(after.iter().all(|m| m.is_none()));
    assert_eq!(
        t.string_row(&after, 0),
        "e ||----------------|----------------|----------------|----------------|"
    );
    let partial = t.window_measures(6);
    assert!(partial[0].is_some() && partial[1].is_some());
    assert!(partial[2].is_none() && partial[3].is_none());
}

#[test]
fn block_headers() {
    let t = TabView::new(wonderful_tonight());
    assert_eq!(t.block_header("NOW PLAYING", &t.window_measures(0)), "== NOW PLAYING == [G | D/F# | C | G/B]");
    assert_eq!(t.block_header("NEXT UP", &t.window_measures(4)), "== NEXT UP == [Am | D7 | G | G]");
    assert_eq!(t.block_header("NEXT UP", &t.window_measures(8)), "== NEXT UP == [ |  |  | ]");
}

#[test]
fn marker_columns() {
    let mut t = TabView::new(wonderful_tonight());
    assert_eq!(t.marker_col(), 5);
    for _ in 0..5 {
        t.advance();
    }
    assert_eq!(t.marker_col(), 26);
    for _ in 0..10 {
        t.advance();
    }
    assert_eq!(t.beat_in_window(), 15);
    assert_eq!(t.marker_col(), 4 + 3 * 17 + 3 * 4 + 1);
}

#[test]
fn annotations() {
    let mut t = TabView::new(wonderful_tonight());
    assert_eq!(t.annotation(), "(beat 1 of measure 1: play E string, fret 3)");
    for _ in 0..6 {
        t.advance();
    }
    assert_eq!(t.annotation(), "(beat 3 of measure 2: play D string, fret 2)");
    let mut r = TabView::new(short_song(1));
    r.advance();
    assert_eq!(r.annotation(), "(beat 2 of measure 1: rest)");
    for _ in 0..15 {
        r.advance();
    }
    assert!(r.is_song_complete());
    assert_eq!(r.annotation(), "(beat 1 of measure 5)");
}

#[test]
fn note_info_lines() {
    assert_eq!(
        TabView::note_info_line(Some((5, 3)), Some(Beat::note(5, 3))),
        "Detected: E string, fret 3   Expected: E string, fret 3   MATCH"
    );
    assert_eq!(
        TabView::note_info_line(Some((4, 3)), Some(Beat::note(5, 3))),
        "Detected: A string, fret 3   Expected: E string, fret 3   "
    );
    assert_eq!(TabView::note_info_line(None, None), "Detected: no clear pitch   Expected: -   ");
    assert_eq!(
        TabView::note_info_line(Some((0, 0)), Some(Beat::rest())),
        "Detected: e string, fret 0   Expected: rest   "
    );
}

#[test]
fn matching_detections() {
    assert!(detection_matches(Some((5, 3)), Some(Beat::note(5, 3))));
    assert!(!detection_matches(Some((5, 2)), Some(Beat::note(5, 3))));
    assert!(!detection_matches(Some((0, 0)), Some(Beat::rest())));
    assert!(!detection_matches(None, Some(Beat::note(5, 3))));
    assert!(!detection_matches(Some((5, 3)), None));
}

#[test]
fn marker_stands_over_the_expected_cell() {
    let mut t = TabView::new(wonderful_tonight());
    for _ in 0..32 {
        let w = t.window_measures(t.window_start_measure());
        let col = t.marker_col();
        for s in 0..6 {
            let row: Vec<char> = t.string_row(&w, s).chars().collect();
            let under: String = row[col - 1..col + 3].iter().collect();
            let expected = t.expected_beat().unwrap();
            assert_eq!(under, TabView::cell(&expected, s));
        }
        t.advance();
    }
}

#[test]
fn at_most_one_string_shows_a_fret() {
    let s = wonderful_tonight();
    for m in &s.measures {
        for b in &m.beats {
            let shown = (0..6).filter(|&st| TabView::cell(b, st) != "----").count();
            assert_eq!(shown, 1);
        }
    }
    assert_eq!((0..6).filter(|&st| TabView::cell(&Beat::rest(), st) != "----").count(), 0);
}

#[test]
fn bump_promotes_the_preview() {
    let mut t = TabView::new(wonderful_tonight());
    let before_next = t.window_measures(4);
    let next_rows: Vec<String> = (0..6).map(|s| t.string_row(&before_next, s)).collect();
    let next_header = t.block_header("X", &before_next);
    for _ in 0..16 {
        t.advance();
    }
    let now = t.window_measures(t.window_start_measure());
    let now_rows: Vec<String> = (0..6).map(|s| t.string_row(&now, s)).collect();
    assert_eq!(now_rows, next_rows);
    assert_eq!(t.block_header("X", &now), next_header);
}
