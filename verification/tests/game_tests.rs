use guitar_tab::game::{Game, StepResult};
use guitar_tab::song::{wonderful_tonight, Beat, Measure, Song};

fn play(b: Beat) -> Option<(usize, u8)> {
    Some((b.string.unwrap(), b.fret.unwrap()))
}

#[test]
fn new_game_expects_the_first_note() {
    let g = Game::new(wonderful_tonight());
    assert!(!g.is_complete());
    assert_eq!(g.expected_beat(), Some(Beat::note(5, 3)));
    assert_eq!(g.tab().beat_in_window(), 0);
}

#[test]
fn wrong_or_missing_pitch_holds_the_marker() {
    let mut g = Game::new(wonderful_tonight());
    assert_eq!(g.on_pitch(None), StepResult::NoMatch);
    assert_eq!(g.on_pitch(Some((5, 2))), StepResult::NoMatch);
    assert_eq!(g.on_pitch(Some((4, 3))), StepResult::NoMatch);
    assert_eq!(g.expected_beat(), Some(Beat::note(5, 3)));
    assert_eq!(g.tab().beat_in_window(), 0);
}

#[test]
fn playing_every_note_walks_the_whole_song() {
    let song = wonderful_tonight();
    let flat: Vec<Beat> = song.measures.iter().flat_map(|m| m.beats.iter().copied()).collect();
    let mut g = Game::new(wonderful_tonight());
    for (k, &b) in flat.iter().enumerate() {
        assert_eq!(g.expected_beat(), Some(b));
        let r = g.on_pitch(play(b));
        if k == 15 {
            assert_eq!(r, StepResult::WindowBumped);
        } else if k == 31 {
            assert_eq!(r, StepResult::SongComplete);
        } else {
            assert_eq!(r, StepResult::Advanced);
        }
    }
    assert!(g.is_complete());
    assert_eq!(g.expected_beat(), None);
    assert_eq!(g.on_pitch(Some((5, 3))), StepResult::SongComplete);
    assert_eq!(g.on_pitch(None), StepResult::SongComplete);
}

#[test]
fn a_rest_cannot_be_matched() {
    let song = Song {
        title: "rest",
        measures: vec![Measure::new([Beat::rest(), Beat::rest(), Beat::rest(), Beat::rest()], None)],
    };
    let mut g = Game::new(song);
    assert_eq!(g.on_pitch(Some((0, 0))), StepResult::NoMatch);
    assert_eq!(g.expected_beat(), Some(Beat::rest()));
}

#[test]
fn a_song_that_ends_inside_a_window_finishes_on_its_last_beat() {
    let m = Measure::new([Beat::note(5, 0); 4], None);
    let song = Song { title: "six", measures: vec![m.clone(), m.clone(), m.clone(), m.clone(), m.clone(), m] };
    let mut g = Game::new(song);
    for k in 0..24 {
        let r = g.on_pitch(Some((5, 0)));
        if k == 15 {
            assert_eq!(r, StepResult::WindowBumped);
        } else if k == 23 {
            assert_eq!(r, StepResult::SongComplete);
        } else {
            assert_eq!(r, StepResult::Advanced);
        }
    }
    assert!(g.is_complete());
    assert_eq!(g.expected_beat(), None);
    assert_eq!(g.on_pitch(Some((5, 0))), StepResult::SongComplete);
}

#[test]
fn a_one_measure_song_finishes_on_its_fourth_beat() {
    let song = Song {
        title: "one",
        measures: vec![Measure::new(
            [Beat::note(5, 3), Beat::note(4, 2), Beat::note(3, 0), Beat::note(2, 0)],
            Some("G"),
        )],
    };
    let mut g = Game::new(song);
    assert_eq!(g.on_pitch(Some((5, 3))), StepResult::Advanced);
    assert_eq!(g.on_pitch(Some((4, 2))), StepResult::Advanced);
    assert_eq!(g.on_pitch(Some((3, 0))), StepResult::Advanced);
    assert!(!g.is_complete());
    assert_eq!(g.expected_beat(), Some(Beat::note(2, 0)));
    assert_eq!(g.on_pitch(Some((2, 0))), StepResult::SongComplete);
    assert!(g.is_complete());
    assert_eq!(g.on_pitch(Some((2, 0))), StepResult::SongComplete);
}

#[test]
fn completion_is_reported_once_and_then_kept() {
    let mut g = Game::new(wonderful_tonight());
    let mut reported = false;
    let inputs = [Some((5, 3)), None, Some((1, 3)), Some((0, 0)), Some((2, 0)), Some((3, 0))];
    for d in inputs.iter().cycle().take(200) {
        let r = g.on_pitch(*d);
        reported |= r == StepResult::SongComplete;
        assert_eq!(g.is_complete(), reported);
    }
}

#[test]
fn the_kth_match_expects_the_kth_beat() {
    let song = wonderful_tonight();
    let flat: Vec<Beat> = song.measures.iter().flat_map(|m| m.beats.iter().copied()).collect();
    let mut g = Game::new(wonderful_tonight());
    let mut k = 0;
    while !g.is_complete() {
        assert_eq!(g.expected_beat(), Some(flat[k]));
        // a miss, then the right note
        assert_eq!(g.on_pitch(Some((0, 23))), StepResult::NoMatch);
        let r = g.on_pitch(play(flat[k]));
        if r != StepResult::SongComplete {
            k += 1;
        }
    }
    assert_eq!(k, 31);
}
