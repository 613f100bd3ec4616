//! The song model: beats, 4/4 measures, songs, and the practice arrangement
//! of "Wonderful Tonight".

use vstd::prelude::*;

verus! {

/// Beats in one measure of 4/4 time.
pub const BEATS_PER_MEASURE: usize = 4;

/// A single 4/4 beat: which string/fret should be played, if any.
/// `string` uses the 0..=5 indexing of the standard tuning table
/// (0 = high e ... 5 = low E), so detector output can be compared directly.
#[derive(Clone, Copy, Debug, PartialEq, Eq, Structural)]
pub struct Beat {
    pub string: Option<usize>,
    pub fret: Option<u8>,
}

impl Beat {
    /// A beat on which nothing is played.
    pub fn rest() -> (b: Self)
        ensures
            b.string is None,
            b.fret is None,
    {
        Beat { string: None, fret: None }
    }

    /// A beat on which `fret` is played on `string`.
    pub fn note(string: usize, fret: u8) -> (b: Self)
        ensures
            b.string == Some(string),
            b.fret == Some(fret),
    {
        Beat { string: Some(string), fret: Some(fret) }
    }

    /// The beat on which `fret` is played on `string`.
    pub open spec fn spec_note(string: usize, fret: u8) -> Beat {
        Beat { string: Some(string), fret: Some(fret) }
    }

    /// Whether this beat asks for exactly `fret` on `string`.
    pub open spec fn asks_for(self, string: usize, fret: u8) -> bool {
        self.string == Some(string) && self.fret == Some(fret)
    }
}

impl Default for Beat {
    /// The default beat is a rest.
    fn default() -> (b: Self)
        ensures
            b.string is None,
            b.fret is None,
    {
        Beat::rest()
    }
}

/// One measure of 4/4 time: exactly 4 beats, plus an optional chord label
/// shown in the tab header for context.
#[derive(Clone, Debug)]
pub struct Measure {
    pub beats: [Beat; 4],
    pub label: Option<&'static str>,
}

impl Measure {
    /// A measure made of the given beats and label.
    pub fn new(beats: [Beat; 4], label: Option<&'static str>) -> (m: Self)
        ensures
            m.beats@ == beats@,
            m.label == label,
    {
        Measure { beats, label }
    }
}

/// A song: a title and its measures, in playing order.
pub struct Song {
    pub title: &'static str,
    pub measures: Vec<Measure>,
}

/// The beat found `beat_in_window` beats into the window that starts at
/// measure `window_start`, or `None` where that falls past the last measure.
/// With `window_start == 0` this is the song's beat at an absolute position.
pub open spec fn beat_at_spec(measures: Seq<Measure>, window_start: int, beat_in_window: int) -> Option<Beat> {
    let measure_idx = window_start + beat_in_window / 4;
    if 0 <= measure_idx < measures.len() {
        Some(measures[measure_idx].beats@[beat_in_window % 4])
    } else {
        None
    }
}

impl Song {
    /// The beat `beat_in_window` beats into the window that starts at
    /// measure `window_start_measure`, or `None` past the end of the song.
    pub fn beat_at(&self, window_start_measure: usize, beat_in_window: usize) -> (b: Option<Beat>)
        requires
            window_start_measure + beat_in_window / 4 <= usize::MAX,
        ensures
            b == beat_at_spec(self.measures@, window_start_measure as int, beat_in_window as int),
    {
        let measure_idx = window_start_measure + beat_in_window / 4;
        let beat_idx = beat_in_window % 4;
        if measure_idx < self.measures.len() {
            Some(self.measures[measure_idx].beats[beat_idx])
        } else {
            None
        }
    }
}

/// The notes, as (string, fret) per beat, of each measure of the practice
/// arrangement of "Wonderful Tonight".
pub open spec fn wonderful_tonight_notes() -> Seq<Seq<(usize, u8)>> {
    seq![
        seq![(5usize, 3u8), (1usize, 3u8), (2usize, 0u8), (3usize, 0u8)],
        seq![(3usize, 0u8), (4usize, 2u8), (3usize, 2u8), (5usize, 3u8)],
        seq![(4usize, 3u8), (3usize, 2u8), (2usize, 0u8), (5usize, 0u8)],
        seq![(5usize, 0u8), (2usize, 0u8), (1usize, 0u8), (5usize, 0u8)],
        seq![(4usize, 0u8), (5usize, 0u8), (4usize, 2u8), (5usize, 0u8)],
        seq![(4usize, 0u8), (3usize, 0u8), (4usize, 2u8), (3usize, 1u8)],
        seq![(5usize, 3u8), (1usize, 3u8), (2usize, 0u8), (3usize, 0u8)],
        seq![(2usize, 0u8), (5usize, 3u8), (3usize, 0u8), (2usize, 0u8)],
    ]
}

/// The chord labels of the measures of the practice arrangement.
pub open spec fn wonderful_tonight_labels() -> Seq<Seq<char>> {
    seq!["G"@, "D/F#"@, "C"@, "G/B"@, "Am"@, "D7"@, "G"@, "G"@]
}

/// Whether `measures` holds exactly the given notes and chord labels, one
/// entry of each per measure.
pub open spec fn measures_are(measures: Seq<Measure>, notes: Seq<Seq<(usize, u8)>>, labels: Seq<Seq<char>>) -> bool {
    &&& measures.len() == notes.len()
    &&& measures.len() == labels.len()
    &&& forall|i: int, j: int|
        0 <= i < measures.len() && 0 <= j < 4 ==> #[trigger] measures[i].beats@[j] == Beat::spec_note(notes[i][j].0, notes[i][j].1)
    &&& forall|i: int|
        0 <= i < measures.len() ==> (#[trigger] measures[i].label) is Some && measures[i].label->0@ == labels[i]
}

/// A simplified practice arrangement for "Wonderful Tonight", built from the
/// song's well-known chord tones (key of G: G, D/F#, C, G/B, Am, D7). It is
/// placeholder data for exercising the two-window view and the game loop,
/// not a transcription of a published tab.
pub fn wonderful_tonight() -> (s: Song)
    ensures
        s.title@ == "Wonderful Tonight (practice arrangement)"@,
        measures_are(s.measures@, wonderful_tonight_notes(), wonderful_tonight_labels()),
{
    let measures = vec![
        Measure::new(
            [
                Beat::note(5, 3),
                Beat::note(1, 3),
                Beat::note(2, 0),
                Beat::note(3, 0),
            ],
            Some("G"),
        ),
        Measure::new(
            [
                Beat::note(3, 0),
                Beat::note(4, 2),
                Beat::note(3, 2),
                Beat::note(5, 3),
            ],
            Some("D/F#"),
        ),
        Measure::new(
            [
                Beat::note(4, 3),
                Beat::note(3, 2),
                Beat::note(2, 0),
                Beat::note(5, 0),
            ],
            Some("C"),
        ),
        Measure::new(
            [
                Beat::note(5, 0),
                Beat::note(2, 0),
                Beat::note(1, 0),
                Beat::note(5, 0),
            ],
            Some("G/B"),
        ),
        Measure::new(
            [
                Beat::note(4, 0),
                Beat::note(5, 0),
                Beat::note(4, 2),
                Beat::note(5, 0),
            ],
            Some("Am"),
        ),
        Measure::new(
            [
                Beat::note(4, 0),
                Beat::note(3, 0),
                Beat::note(4, 2),
                Beat::note(3, 1),
            ],
            Some("D7"),
        ),
        Measure::new(
            [
                Beat::note(5, 3),
                Beat::note(1, 3),
                Beat::note(2, 0),
                Beat::note(3, 0),
            ],
            Some("G"),
        ),
        Measure::new(
            [
                Beat::note(2, 0),
                Beat::note(5, 3),
                Beat::note(3, 0),
                Beat::note(2, 0),
            ],
            Some("G"),
        ),
    ];
    proof {
        reveal_strlit("G");
        reveal_strlit("D/F#");
        reveal_strlit("C");
        reveal_strlit("G/B");
        reveal_strlit("Am");
        reveal_strlit("D7");
    }
    assert(measures_are(measures@, wonderful_tonight_notes(), wonderful_tonight_labels()));
    Song { title: "Wonderful Tonight (practice arrangement)", measures }
}

} // verus!
