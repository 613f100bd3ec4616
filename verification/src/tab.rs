//! The two-window tablature view: which 4-measure window is "now playing",
//! where the cursor stands in it, and the text of the rows that show it.

use vstd::prelude::*;
use crate::song::{beat_at_spec, Beat, Measure, Song, BEATS_PER_MEASURE};
use crate::text::{decimal, lemma_decimal_len_small, pad_right, push_decimal, repeat_char};

verus! {

/// Measures shown in one window.
pub const MEASURES_PER_WINDOW: usize = 4;
/// Beats in one window of 4 measures of 4/4.
pub const BEATS_PER_WINDOW: usize = 16;

/// Width, in characters, of one beat's cell in a string row.
pub const COL_W: usize = 4;
/// Width, in columns, of the "e ||" style string-name prefix on each row.
pub const PREFIX_LEN: usize = 4;

/// Screen rows (1-based) of the parts of the view.
pub const ROW_NOW_HEADER: usize = 1;
/// First of the 6 rows of the current window's strings.
pub const ROW_NOW_STRINGS_START: usize = 2;
/// Row of the `x` under the current beat.
pub const ROW_MARKER: usize = 8;
/// Row of the line that says what to play on the current beat.
pub const ROW_ANNOTATION: usize = 9;
/// Row of the preview window's header.
pub const ROW_NEXT_HEADER: usize = 11;
/// First of the 6 rows of the preview window's strings.
pub const ROW_NEXT_STRINGS_START: usize = 12;
/// Row of the detected-frequency line; the detection line follows it.
pub const ROW_NOTE_INFO: usize = 19;

/// The name of string `s` (0 = high e ... 5 = low E), as the rows show it.
pub open spec fn string_name(s: usize) -> Seq<char> {
    if s == 0 {
        seq!['e']
    } else if s == 1 {
        seq!['B']
    } else if s == 2 {
        seq!['G']
    } else if s == 3 {
        seq!['D']
    } else if s == 4 {
        seq!['A']
    } else {
        seq!['E']
    }
}

/// The text of a beat's cell on string `string_idx`: the fret padded with
/// dashes to the cell's width where the beat is played on that string,
/// dashes only otherwise.
pub open spec fn cell_text(beat: Beat, string_idx: usize) -> Seq<char> {
    if beat.string == Some(string_idx) && beat.fret is Some {
        pad_right(decimal(beat.fret->0 as nat), '-', 4)
    } else {
        repeat_char('-', 4)
    }
}

/// The cells of the first `j` beats of measure `m` on string `string_idx`.
pub open spec fn cells_text(m: Measure, string_idx: usize, j: nat) -> Seq<char>
    decreases j,
{
    if j == 0 {
        Seq::empty()
    } else {
        cells_text(m, string_idx, (j - 1) as nat) + cell_text(m.beats@[j - 1], string_idx)
    }
}

/// The text of one measure slot of a window on one string: its 4 cells, or
/// dashes where the window runs past the end of the song.
pub open spec fn measure_text(m: Option<Measure>, string_idx: usize) -> Seq<char> {
    match m {
        Some(m) => cells_text(m, string_idx, 4),
        None => repeat_char('-', 16),
    }
}

/// The first `k` measure slots of a window on one string, each followed by a bar.
pub open spec fn slots_text(window: Seq<Option<Measure>>, string_idx: usize, k: nat) -> Seq<char>
    decreases k,
{
    if k == 0 {
        Seq::empty()
    } else {
        slots_text(window, string_idx, (k - 1) as nat) + measure_text(window[k - 1], string_idx) + seq!['|']
    }
}

/// A whole string row of a window: the string's name padded to 2, two bars,
/// then the 4 measure slots each closed by a bar.
pub open spec fn row_text(window: Seq<Option<Measure>>, string_idx: usize) -> Seq<char> {
    string_name(string_idx) + seq![' ', '|', '|'] + slots_text(window, string_idx, 4)
}

/// The measure at index `idx` of `measures`, if there is one.
pub open spec fn measure_at(measures: Seq<Measure>, idx: int) -> Option<Measure> {
    if 0 <= idx < measures.len() {
        Some(measures[idx])
    } else {
        None
    }
}

/// The 4 measure slots of the window that starts at measure `start`.
pub open spec fn window_at(measures: Seq<Measure>, start: int) -> Seq<Option<Measure>> {
    Seq::new(4, |i: int| measure_at(measures, start + i))
}

/// The measure slots of a window, as values.
pub open spec fn slots(window: [Option<&Measure>; 4]) -> Seq<Option<Measure>> {
    window@.map_values(|o: Option<&Measure>| match o {
        Some(m) => Some(*m),
        None => None,
    })
}

/// The chord label of a measure slot, empty where there is none.
pub open spec fn label_text(m: Option<Measure>) -> Seq<char> {
    match m {
        Some(m) => match m.label {
            Some(l) => l@,
            None => Seq::empty(),
        },
        None => Seq::empty(),
    }
}

/// The header of a window: its title, then the labels of its 4 measure
/// slots joined by " | " in brackets.
pub open spec fn header_text(title: Seq<char>, window: Seq<Option<Measure>>) -> Seq<char> {
    "== "@ + title + " == ["@ + label_text(window[0]) + " | "@ + label_text(window[1]) + " | "@
        + label_text(window[2]) + " | "@ + label_text(window[3]) + "]"@
}

/// "<name> string, fret <fret>".
pub open spec fn position_text(string: usize, fret: u8) -> Seq<char> {
    string_name(string) + " string, fret "@ + decimal(fret as nat)
}

/// Where `beat` is a note, its string is one of the 6 strings of the tuning.
pub open spec fn note_string_in_range(beat: Option<Beat>) -> bool {
    match beat {
        Some(b) => b.string is Some && b.fret is Some ==> b.string->0 < 6,
        None => true,
    }
}

/// Whether a detected (string, fret) is exactly the expected beat's note.
pub open spec fn is_match(detected: Option<(usize, u8)>, expected: Option<Beat>) -> bool {
    match (detected, expected) {
        (Some((s, f)), Some(b)) => b.asks_for(s, f),
        _ => false,
    }
}

/// The line that compares the detected position with the expected one.
pub open spec fn detection_text(detected: Option<(usize, u8)>, expected: Option<Beat>) -> Seq<char> {
    let detected_desc = match detected {
        Some((s, f)) => position_text(s, f),
        None => "no clear pitch"@,
    };
    let expected_desc = match expected {
        Some(b) => if b.string is Some && b.fret is Some {
            position_text(b.string->0, b.fret->0)
        } else {
            "rest"@
        },
        None => "-"@,
    };
    "Detected: "@ + detected_desc + "   Expected: "@ + expected_desc + "   "@
        + if is_match(detected, expected) { "MATCH"@ } else { Seq::empty() }
}

/// The 1-based screen column of the `x` under beat `beat` of a window.
pub open spec fn marker_col_spec(beat: nat) -> nat {
    (PREFIX_LEN + (beat / 4) * (4 * COL_W + 1) + (beat % 4) * COL_W + 1) as nat
}

/// The marker's column unfolded: 5 for the first beat, 17 more per measure
/// and 4 more per beat within the measure.
pub proof fn lemma_marker_col(beat: nat)
    ensures
        marker_col_spec(beat) == 5 + 17 * (beat / 4) + 4 * (beat % 4),
{
    assert(PREFIX_LEN == 4);
    assert(COL_W == 4);
    let q = beat / 4;
    let r = beat % 4;
    let w = COL_W as int;
    assert(q * (4 * w + 1) == 17 * q && r * w == 4 * r) by (nonlinear_arith)
        requires
            w == 4,
    ;
}

/// The line under the marker: which beat of which measure the cursor is on
/// and what to play there.
pub open spec fn annotation_text(m: TabModel) -> Seq<char> {
    let head = "(beat "@ + decimal(m.beat % 4 + 1) + " of measure "@ + decimal(m.window_start + m.beat / 4 + 1);
    match m.expected() {
        Some(b) => if b.string is Some && b.fret is Some {
            head + ": play "@ + position_text(b.string->0, b.fret->0) + ")"@
        } else {
            head + ": rest)"@
        },
        None => head + ")"@,
    }
}

/// What one step of the cursor did.
#[derive(Clone, Copy, Debug, PartialEq, Eq, Structural)]
pub enum Advance {
    /// The cursor moved within the current window.
    Continue,
    /// The window was finished: the preview window became the current one.
    Bumped,
    /// The cursor passed the song's last beat, or moved into a window past
    /// the end of the song.
    SongComplete,
}

/// The state of the view, as the contracts see it.
pub struct TabModel {
    pub title: Seq<char>,
    pub measures: Seq<Measure>,
    /// Index of the first measure of the current window.
    pub window_start: nat,
    /// Beat position within the current window.
    pub beat: nat,
}

impl TabModel {
    /// The cursor's position counted in beats from the start of the song.
    pub open spec fn position(self) -> nat {
        4 * self.window_start + self.beat
    }

    /// Whether the cursor has passed the song's last beat.
    pub open spec fn is_complete(self) -> bool {
        self.position() >= 4 * self.measures.len()
    }

    /// The view one beat further on: the next beat of the window, or the
    /// first beat of the next window once the 16th beat is done.
    pub open spec fn advanced(self) -> TabModel {
        if self.beat + 1 < 16 {
            TabModel {
                title: self.title,
                measures: self.measures,
                window_start: self.window_start,
                beat: self.beat + 1,
            }
        } else {
            TabModel { title: self.title, measures: self.measures, window_start: self.window_start + 4, beat: 0 }
        }
    }

    /// What every view keeps: the cursor inside its window, and windows
    /// starting on a multiple of 4 measures.
    pub open spec fn valid(self) -> bool {
        &&& self.beat < 16
        &&& self.window_start % 4 == 0
    }

    /// The beat under the cursor, `None` past the end of the song.
    pub open spec fn expected(self) -> Option<Beat> {
        beat_at_spec(self.measures, self.window_start as int, self.beat as int)
    }
}

/// The song and the position of the cursor in it.
pub struct TabView {
    song: Song,
    /// Index into `song.measures` where the current 4-measure window begins.
    window_start_measure: usize,
    /// Beat position within the current window, 0..BEATS_PER_WINDOW.
    beat_in_window: usize,
}

impl View for TabView {
    type V = TabModel;

    closed spec fn view(&self) -> TabModel {
        TabModel {
            title: self.song.title@,
            measures: self.song.measures@,
            window_start: self.window_start_measure as nat,
            beat: self.beat_in_window as nat,
        }
    }
}

/// `usize::MAX` is one less than a multiple of 4 on every target.
proof fn lemma_usize_max_mod_4()
    ensures
        usize::MAX % 4 == 3,
{
    assert(usize::MAX == 0xffff_ffff || usize::MAX == 0xffff_ffff_ffff_ffff);
}

impl TabView {
    /// The cursor stays inside its window, and windows start on a multiple
    /// of 4 measures.
    #[verifier::type_invariant]
    pub closed spec fn inv(&self) -> bool {
        &&& self.beat_in_window < 16
        &&& self.window_start_measure % 4 == 0
    }

    /// What the invariant gives of the view.
    pub proof fn lemma_inv(&self)
        requires
            self.inv(),
        ensures
            self@.valid(),
            self@.window_start + 3 <= usize::MAX,
    {
        lemma_usize_max_mod_4();
    }

    /// A view of `song` with the cursor on its first beat.
    pub fn new(song: Song) -> (t: Self)
        ensures
            t@.title == song.title@,
            t@.measures == song.measures@,
            t@.window_start == 0,
            t@.beat == 0,
    {
        TabView { song, window_start_measure: 0, beat_in_window: 0 }
    }

    /// Index of the first measure of the current window.
    pub fn window_start_measure(&self) -> (m: usize)
        ensures
            m == self@.window_start,
    {
        self.window_start_measure
    }

    /// Beat position within the current window.
    pub fn beat_in_window(&self) -> (b: usize)
        ensures
            b == self@.beat,
    {
        self.beat_in_window
    }

    /// The song shown.
    pub fn song(&self) -> (s: &Song)
        ensures
            s.title@ == self@.title,
            s.measures@ == self@.measures,
    {
        &self.song
    }

    /// Whether the cursor has passed the song's last beat.
    pub fn is_song_complete(&self) -> (b: bool)
        ensures
            b == self@.is_complete(),
    {
        proof {
            use_type_invariant(self);
            lemma_usize_max_mod_4();
        }
        self.window_start_measure + self.beat_in_window / BEATS_PER_MEASURE >= self.song.measures.len()
    }

    /// The beat under the cursor, `None` past the end of the song. It is the
    /// song's beat at the cursor's position counted from the start.
    pub fn expected_beat(&self) -> (b: Option<Beat>)
        ensures
            b == self@.expected(),
            b == beat_at_spec(self@.measures, 0, self@.position() as int),
    {
        proof {
            use_type_invariant(self);
            lemma_usize_max_mod_4();
        }
        self.song.beat_at(self.window_start_measure, self.beat_in_window)
    }

    /// Advances one beat: within the current window, or, once its 4 measures
    /// are done, on to the preview window with the cursor on its first beat.
    /// Reports `SongComplete` for the step that passes the song's last beat,
    /// and for any step into a new window past the end; a step within the
    /// window of a song already passed is a `Continue`.
    pub fn advance(&mut self) -> (r: Advance)
        requires
            old(self)@.beat + 1 < 16 || old(self)@.window_start + 4 <= usize::MAX,
        ensures
            final(self)@ == old(self)@.advanced(),
            final(self)@.position() == old(self)@.position() + 1,
            r == (if final(self)@.is_complete() && (!old(self)@.is_complete() || old(self)@.beat + 1 >= 16) {
                Advance::SongComplete
            } else if old(self)@.beat + 1 >= 16 {
                Advance::Bumped
            } else {
                Advance::Continue
            }),
    {
        proof {
            use_type_invariant(&*self);
        }
        let was_complete = self.is_song_complete();
        let bumped = self.beat_in_window + 1 >= BEATS_PER_WINDOW;
        if bumped {
            self.window_start_measure = self.window_start_measure + MEASURES_PER_WINDOW;
            self.beat_in_window = 0;
        } else {
            self.beat_in_window = self.beat_in_window + 1;
        }
        if self.is_song_complete() && (!was_complete || bumped) {
            Advance::SongComplete
        } else if bumped {
            Advance::Bumped
        } else {
            Advance::Continue
        }
    }
}

/// The one-letter name of string `s`.
fn string_name_str(s: usize) -> (t: &'static str)
    requires
        s < 6,
    ensures
        t@ == string_name(s),
{
    match s {
        0 => { proof { reveal_strlit("e"); } "e" },
        1 => { proof { reveal_strlit("B"); } "B" },
        2 => { proof { reveal_strlit("G"); } "G" },
        3 => { proof { reveal_strlit("D"); } "D" },
        4 => { proof { reveal_strlit("A"); } "A" },
        _ => { proof { reveal_strlit("E"); } "E" },
    }
}

/// Appends "<name> string, fret <fret>" to `out`.
fn push_position(out: &mut String, string: usize, fret: u8)
    requires
        string < 6,
    ensures
        final(out)@ == old(out)@ + position_text(string, fret),
{
    out.append(string_name_str(string));
    out.append(" string, fret ");
    push_decimal(out, fret as u64);
    assert(final(out)@ =~= old(out)@ + position_text(string, fret));
}

/// Whether a detected (string, fret) is exactly the expected beat's note.
pub fn detection_matches(detected: Option<(usize, u8)>, expected: Option<Beat>) -> (b: bool)
    ensures
        b == is_match(detected, expected),
{
    match (detected, expected) {
        (Some((s, f)), Some(beat)) => beat.string == Some(s) && beat.fret == Some(f),
        _ => false,
    }
}

impl TabView {
    /// The text of a beat's cell on string `string_idx`.
    pub fn cell(beat: &Beat, string_idx: usize) -> (c: String)
        ensures
            c@ == cell_text(*beat, string_idx),
    {
        if beat.string == Some(string_idx) {
            if let Some(fret) = beat.fret {
                let mut c = String::new();
                push_decimal(&mut c, fret as u64);
                proof {
                    lemma_decimal_len_small(fret as nat);
                    reveal_strlit("---");
                    reveal_strlit("--");
                    reveal_strlit("-");
                }
                if fret < 10 {
                    c.append("---");
                } else if fret < 100 {
                    c.append("--");
                } else {
                    c.append("-");
                }
                assert(c@ =~= cell_text(*beat, string_idx));
                return c;
            }
        }
        let mut c = String::new();
        c.append("----");
        proof {
            reveal_strlit("----");
        }
        assert(c@ =~= cell_text(*beat, string_idx));
        c
    }

    /// The measure at index `idx` of the song, if there is one.
    fn measure_ref(&self, idx: usize) -> (m: Option<&Measure>)
        ensures
            (match m {
                Some(r) => Some(*r),
                None => None,
            }) == measure_at(self@.measures, idx as int),
    {
        if idx < self.song.measures.len() {
            Some(&self.song.measures[idx])
        } else {
            None
        }
    }

    /// The `MEASURES_PER_WINDOW` measure slots of the window that starts at
    /// measure `start`, `None` where the song has run out.
    pub fn window_measures(&self, start: usize) -> (w: [Option<&Measure>; 4])
        requires
            start + 3 <= usize::MAX,
        ensures
            slots(w) == window_at(self@.measures, start as int),
    {
        let w = [
            self.measure_ref(start),
            self.measure_ref(start + 1),
            self.measure_ref(start + 2),
            self.measure_ref(start + 3),
        ];
        assert(slots(w) =~= window_at(self@.measures, start as int));
        w
    }

    /// The cells of measure `m` on string `string_idx`, appended to `out`.
    fn push_measure_cells(out: &mut String, m: &Measure, string_idx: usize)
        ensures
            final(out)@ == old(out)@ + cells_text(*m, string_idx, 4),
    {
        let ghost start = out@;
        let mut j: usize = 0;
        while j < 4
            invariant
                j <= 4,
                out@ == start + cells_text(*m, string_idx, j as nat),
            decreases 4 - j,
        {
            let c = Self::cell(&m.beats[j], string_idx);
            out.append(c.as_str());
            j = j + 1;
            assert(out@ =~= start + cells_text(*m, string_idx, j as nat));
        }
    }

    /// One string's row of a window: the string's name, then the cells of
    /// each measure slot, each slot closed by a bar.
    pub fn string_row(&self, measures: &[Option<&Measure>; 4], string_idx: usize) -> (r: String)
        requires
            string_idx < 6,
        ensures
            r@ == row_text(slots(*measures), string_idx),
    {
        let mut r = String::new();
        r.append(string_name_str(string_idx));
        r.append(" ||");
        proof {
            reveal_strlit(" ||");
        }
        let ghost start = r@;
        assert(start =~= string_name(string_idx) + seq![' ', '|', '|']);
        let mut k: usize = 0;
        while k < 4
            invariant
                k <= 4,
                r@ == start + slots_text(slots(*measures), string_idx, k as nat),
            decreases 4 - k,
        {
            let ghost before = r@;
            match measures[k] {
                Some(measure) => {
                    Self::push_measure_cells(&mut r, measure, string_idx);
                },
                None => {
                    r.append("----");
                    r.append("----");
                    r.append("----");
                    r.append("----");
                    proof {
                        reveal_strlit("----");
                    }
                    assert(r@ =~= before + repeat_char('-', 16));
                },
            }
            r.append("|");
            proof {
                reveal_strlit("|");
            }
            k = k + 1;
            assert(r@ =~= start + slots_text(slots(*measures), string_idx, k as nat));
        }
        r
    }

    /// Appends the chord label of a measure slot, if it has one.
    fn push_label(out: &mut String, m: Option<&Measure>)
        ensures
            final(out)@ == old(out)@ + label_text(match m {
                Some(r) => Some(*r),
                None => None,
            }),
    {
        if let Some(measure) = m {
            if let Some(l) = measure.label {
                out.append(l);
                return;
            }
        }
        assert(final(out)@ =~= old(out)@);
    }

    /// The header line of a window: "== <title> == [<labels joined by | >]".
    pub fn block_header(&self, title: &str, measures: &[Option<&Measure>; 4]) -> (h: String)
        ensures
            h@ == header_text(title@, slots(*measures)),
    {
        let mut h = String::new();
        h.append("== ");
        h.append(title);
        h.append(" == [");
        Self::push_label(&mut h, measures[0]);
        h.append(" | ");
        Self::push_label(&mut h, measures[1]);
        h.append(" | ");
        Self::push_label(&mut h, measures[2]);
        h.append(" | ");
        Self::push_label(&mut h, measures[3]);
        h.append("]");
        assert(h@ =~= header_text(title@, slots(*measures)));
        h
    }

    /// The 1-based screen column of the `x` under the current beat.
    pub fn marker_col(&self) -> (c: usize)
        ensures
            c == marker_col_spec(self@.beat),
    {
        proof {
            use_type_invariant(self);
        }
        let measure_idx = self.beat_in_window / BEATS_PER_MEASURE;
        let beat_in_measure = self.beat_in_window % BEATS_PER_MEASURE;
        assert(measure_idx < 4 && beat_in_measure < 4);
        assert(measure_idx * 17 <= 51) by (nonlinear_arith)
            requires
                measure_idx < 4,
        ;
        let offset = measure_idx * (BEATS_PER_MEASURE * COL_W + 1) + beat_in_measure * COL_W;
        PREFIX_LEN + offset + 1
    }

    /// The line under the marker: "(beat B of measure M: play <position>)",
    /// ": rest)" for a rest, or just ")" past the end of the song.
    pub fn annotation(&self) -> (a: String)
        requires
            self@.window_start + self@.beat / 4 + 1 <= usize::MAX,
            note_string_in_range(self@.expected()),
        ensures
            a@ == annotation_text(self@),
    {
        proof {
            use_type_invariant(self);
        }
        let measure_num = self.window_start_measure + self.beat_in_window / BEATS_PER_MEASURE + 1;
        let beat_num = self.beat_in_window % BEATS_PER_MEASURE + 1;
        let mut a = String::new();
        a.append("(beat ");
        push_decimal(&mut a, beat_num as u64);
        a.append(" of measure ");
        push_decimal(&mut a, measure_num as u64);
        let ghost head = a@;
        match self.expected_beat() {
            Some(b) => match (b.string, b.fret) {
                (Some(s), Some(f)) => {
                    a.append(": play ");
                    push_position(&mut a, s, f);
                    a.append(")");
                },
                _ => {
                    a.append(": rest)");
                },
            },
            None => {
                a.append(")");
            },
        }
        assert(a@ =~= annotation_text(self@));
        a
    }

    /// The line that compares the detected string/fret with the expected
    /// beat, ending in "MATCH" when they agree.
    pub fn note_info_line(detected: Option<(usize, u8)>, expected: Option<Beat>) -> (l: String)
        requires
            detected matches Some((s, f)) ==> s < 6,
            note_string_in_range(expected),
        ensures
            l@ == detection_text(detected, expected),
    {
        let mut l = String::new();
        l.append("Detected: ");
        match detected {
            Some((s, f)) => push_position(&mut l, s, f),
            None => l.append("no clear pitch"),
        }
        l.append("   Expected: ");
        match expected {
            Some(b) => match (b.string, b.fret) {
                (Some(s), Some(f)) => push_position(&mut l, s, f),
                _ => l.append("rest"),
            },
            None => l.append("-"),
        }
        l.append("   ");
        if detection_matches(detected, expected) {
            l.append("MATCH");
        }
        assert(l@ =~= detection_text(detected, expected));
        l
    }
}

} // verus!
