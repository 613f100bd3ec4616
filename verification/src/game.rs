//! The game step: one detected string/fret in, one decision out.

use vstd::prelude::*;
use crate::song::{beat_at_spec, Beat, Song};
use crate::tab::{detection_matches, is_match, Advance, TabModel, TabView};

verus! {

/// What one detected pitch did to the game.
#[derive(Clone, Copy, Debug, PartialEq, Eq, Structural)]
pub enum StepResult {
    /// Detected pitch didn't match the expected beat; marker held in place.
    NoMatch,
    /// Matched; marker advanced within the current window.
    Advanced,
    /// Matched, completed the current 4-measure window; NEXT UP was
    /// promoted to NOW PLAYING and a new preview window was loaded.
    WindowBumped,
    /// Matched the final beat of the song.
    SongComplete,
}

/// What one detected (string, fret) does to a game in state `m`: the new
/// state and the result. A finished game stays as it is; a detection that is
/// not the expected note changes nothing; the expected note moves the cursor
/// one beat, finishing the song when that beat was its last.
pub open spec fn game_step(m: TabModel, detected: Option<(usize, u8)>) -> (TabModel, StepResult) {
    if m.is_complete() {
        (m, StepResult::SongComplete)
    } else if !is_match(detected, m.expected()) {
        (m, StepResult::NoMatch)
    } else {
        let next = m.advanced();
        let r = if next.is_complete() {
            StepResult::SongComplete
        } else if m.beat + 1 >= 16 {
            StepResult::WindowBumped
        } else {
            StepResult::Advanced
        };
        (next, r)
    }
}

/// Owns game state and drives it forward one detected pitch at a time.
/// Showing the state is left to the caller; `Game` decides match or no
/// match and moves the cursor of its `TabView`.
pub struct Game {
    tab: TabView,
}

impl View for Game {
    type V = TabModel;

    closed spec fn view(&self) -> TabModel {
        self.tab@
    }
}

impl Game {
    /// A game of `song`, with the cursor on its first beat.
    pub fn new(song: Song) -> (g: Self)
        ensures
            g@.title == song.title@,
            g@.measures == song.measures@,
            g@.window_start == 0,
            g@.beat == 0,
    {
        let tab = TabView::new(song);
        Game { tab }
    }

    /// The view that shows the game.
    pub fn tab(&self) -> (t: &TabView)
        ensures
            t@ == self@,
    {
        &self.tab
    }

    /// Whether the whole song has been played.
    pub fn is_complete(&self) -> (b: bool)
        ensures
            b == self@.is_complete(),
    {
        self.tab.is_song_complete()
    }

    /// The beat currently expected to be played: the song's beat at the
    /// cursor's position, `None` past the end of the song.
    pub fn expected_beat(&self) -> (b: Option<Beat>)
        ensures
            b == self@.expected(),
            b == beat_at_spec(self@.measures, 0, self@.position() as int),
    {
        self.tab.expected_beat()
    }

    /// Feeds one detected (string, fret), if the pitch was clear enough to
    /// give one, into the game. A finished game stays finished; a detection
    /// that is not the expected note changes nothing; the expected note moves
    /// the cursor one beat on, and finishes the game when it was the song's
    /// last beat.
    pub fn on_pitch(&mut self, detected: Option<(usize, u8)>) -> (r: StepResult)
        requires
            !old(self)@.is_complete() && is_match(detected, old(self)@.expected()) && old(self)@.beat + 1 >= 16
                ==> old(self)@.window_start + 4 <= usize::MAX,
        ensures
            (final(self)@, r) == game_step(old(self)@, detected),
            old(self)@.is_complete() ==> r == StepResult::SongComplete && final(self)@ == old(self)@,
            !old(self)@.is_complete() && !is_match(detected, old(self)@.expected()) ==> {
                &&& r == StepResult::NoMatch
                &&& final(self)@ == old(self)@
            },
            !old(self)@.is_complete() && is_match(detected, old(self)@.expected()) ==> {
                &&& final(self)@.position() == old(self)@.position() + 1
                &&& (r == StepResult::SongComplete <==> final(self)@.is_complete())
            },
    {
        if self.tab.is_song_complete() {
            return StepResult::SongComplete;
        }
        let expected = self.tab.expected_beat();
        if !detection_matches(detected, expected) {
            return StepResult::NoMatch;
        }
        match self.tab.advance() {
            Advance::Continue => StepResult::Advanced,
            Advance::Bumped => StepResult::WindowBumped,
            Advance::SongComplete => StepResult::SongComplete,
        }
    }
}

} // verus!
