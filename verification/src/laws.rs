//! Properties of the view that span its functions: how the marker, the
//! rows and the windows fit together, and when a song is played through.

use vstd::prelude::*;
use crate::game::{game_step, StepResult};
use crate::song::{beat_at_spec, Beat, Measure};
use crate::tab::{
    annotation_text, is_match, cell_text, cells_text, lemma_marker_col, marker_col_spec, measure_at, measure_text, row_text, slots_text,
    string_name, window_at, TabModel, header_text,
};
use crate::text::{decimal, lemma_decimal_len_small, repeat_char};

verus! {

/// Every cell is exactly 4 characters wide.
proof fn lemma_cell_width(beat: Beat, string_idx: usize)
    ensures
        cell_text(beat, string_idx).len() == 4,
{
    if beat.string == Some(string_idx) && beat.fret is Some {
        lemma_decimal_len_small(beat.fret->0 as nat);
    }
}

/// The first `j` cells of a measure are `4 * j` characters long, and cell
/// `i` stands at `4 * i`.
proof fn lemma_cells_layout(m: Measure, string_idx: usize, j: nat)
    ensures
        cells_text(m, string_idx, j).len() == 4 * j,
        forall|i: int|
            0 <= i < j ==> #[trigger] cells_text(m, string_idx, j).subrange(4 * i, 4 * i + 4)
                == cell_text(m.beats@[i], string_idx),
    decreases j,
{
    if j > 0 {
        let jm = (j - 1) as nat;
        lemma_cells_layout(m, string_idx, jm);
        lemma_cell_width(m.beats@[jm as int], string_idx);
        let prev = cells_text(m, string_idx, jm);
        let all = cells_text(m, string_idx, j);
        assert forall|i: int| 0 <= i < j implies #[trigger] all.subrange(4 * i, 4 * i + 4)
            == cell_text(m.beats@[i], string_idx) by {
            if i < jm {
                assert(all.subrange(4 * i, 4 * i + 4) =~= prev.subrange(4 * i, 4 * i + 4));
            } else {
                assert(all.subrange(4 * i, 4 * i + 4) =~= cell_text(m.beats@[i], string_idx));
            }
        }
    }
}

/// A measure slot is 16 characters wide.
proof fn lemma_measure_width(m: Option<Measure>, string_idx: usize)
    ensures
        measure_text(m, string_idx).len() == 16,
{
    if let Some(measure) = m {
        lemma_cells_layout(measure, string_idx, 4);
    }
}

/// The first `k` slots with their bars are `17 * k` characters long, and
/// slot `i` stands at `17 * i`.
proof fn lemma_slots_layout(window: Seq<Option<Measure>>, string_idx: usize, k: nat)
    ensures
        slots_text(window, string_idx, k).len() == 17 * k,
        forall|i: int|
            0 <= i < k ==> #[trigger] slots_text(window, string_idx, k).subrange(17 * i, 17 * i + 16)
                == measure_text(window[i], string_idx),
    decreases k,
{
    if k > 0 {
        let km = (k - 1) as nat;
        lemma_slots_layout(window, string_idx, km);
        lemma_measure_width(window[km as int], string_idx);
        let prev = slots_text(window, string_idx, km);
        let all = slots_text(window, string_idx, k);
        assert forall|i: int| 0 <= i < k implies #[trigger] all.subrange(17 * i, 17 * i + 16)
            == measure_text(window[i], string_idx) by {
            if i < km {
                assert(all.subrange(17 * i, 17 * i + 16) =~= prev.subrange(17 * i, 17 * i + 16));
            } else {
                assert(all.subrange(17 * i, 17 * i + 16) =~= measure_text(window[i], string_idx));
            }
        }
    }
}

/// The marker stands over the current beat: in each of the 6 string rows of
/// the current window, which are all 72 characters wide, the cell that
/// starts under the marker's column is the cell of the expected beat on
/// that string, and dashes where the song has run out.
pub proof fn law_marker_over_current_cell(m: TabModel, string_idx: usize)
    requires
        m.valid(),
        string_idx < 6,
    ensures
        row_text(window_at(m.measures, m.window_start as int), string_idx).len() == 72,
        row_text(window_at(m.measures, m.window_start as int), string_idx).subrange(
            marker_col_spec(m.beat) - 1,
            marker_col_spec(m.beat) + 3 as int,
        ) == match m.expected() {
            Some(b) => cell_text(b, string_idx),
            None => repeat_char('-', 4),
        },
{
    let w = window_at(m.measures, m.window_start as int);
    let q = (m.beat / 4) as int;
    let r = (m.beat % 4) as int;
    lemma_slots_layout(w, string_idx, 4);
    let slots = slots_text(w, string_idx, 4);
    let row = row_text(w, string_idx);
    assert(string_name(string_idx).len() == 1);
    assert(row =~= string_name(string_idx) + seq![' ', '|', '|'] + slots);
    let start = 17 * q + 4 * r;
    lemma_marker_col(m.beat);
    assert(marker_col_spec(m.beat) - 1 == 4 + start);
    assert(row.subrange(4 + start, 4 + start + 4) =~= slots.subrange(start, start + 4));
    let mt = slots.subrange(17 * q, 17 * q + 16);
    assert(mt == measure_text(w[q], string_idx));
    assert(slots.subrange(start, start + 4) =~= mt.subrange(4 * r, 4 * r + 4));
    match w[q] {
        Some(measure) => {
            lemma_cells_layout(measure, string_idx, 4);
            assert(mt.subrange(4 * r, 4 * r + 4) == cell_text(measure.beats@[r], string_idx));
        },
        None => {
            assert(mt.subrange(4 * r, 4 * r + 4) =~= repeat_char('-', 4));
        },
    }
}

/// On any beat at most one string shows a fret: of two different strings,
/// at least one shows only dashes.
pub proof fn law_one_string_per_beat(beat: Beat, s1: usize, s2: usize)
    requires
        s1 != s2,
    ensures
        cell_text(beat, s1) == repeat_char('-', 4) || cell_text(beat, s2) == repeat_char('-', 4),
{
}

/// When the window is bumped, the preview becomes the current window: the
/// current window after the bump, its rows and its header are those that
/// the preview showed before it.
pub proof fn law_bump_promotes_preview(before: TabModel, after: TabModel, title: Seq<char>)
    requires
        after.measures == before.measures,
        after.window_start == before.window_start + 4 as int,
    ensures
        window_at(after.measures, after.window_start as int) == window_at(
            before.measures,
            before.window_start + 4 as int,
        ),
        forall|s: usize|
            #[trigger] row_text(window_at(after.measures, after.window_start as int), s) == row_text(
                window_at(before.measures, before.window_start + 4 as int),
                s,
            ),
        header_text(title, window_at(after.measures, after.window_start as int)) == header_text(
            title,
            window_at(before.measures, before.window_start + 4 as int),
        ),
{
    assert(window_at(after.measures, after.window_start as int) =~= window_at(
        before.measures,
        before.window_start + 4 as int,
    ));
}

/// A song is complete exactly when the cursor has passed its last beat, and
/// until then there is always a beat to play: the song's beat at the
/// cursor's position.
pub proof fn law_complete_after_last_beat(m: TabModel)
    requires
        m.valid(),
    ensures
        m.is_complete() <==> m.position() >= 4 * m.measures.len(),
        !m.is_complete() ==> m.expected() is Some,
        m.expected() == beat_at_spec(m.measures, 0, m.position() as int),
{
}

/// The states and results of a game in state `m` fed the detections `ds`,
/// one `Game::on_pitch` call each, in order.
pub open spec fn play(m: TabModel, ds: Seq<Option<(usize, u8)>>) -> (TabModel, Seq<StepResult>)
    decreases ds.len(),
{
    if ds.len() == 0 {
        (m, Seq::empty())
    } else {
        let (next, r) = game_step(m, ds[0]);
        let (last, rs) = play(next, ds.drop_first());
        (last, seq![r] + rs)
    }
}

/// How many of `rs` moved the cursor without finishing the song.
pub open spec fn moves(rs: Seq<StepResult>) -> nat
    decreases rs.len(),
{
    if rs.len() == 0 {
        0
    } else {
        (if rs[0] == StepResult::Advanced || rs[0] == StepResult::WindowBumped { 1nat } else { 0nat })
            + moves(rs.drop_first())
    }
}

/// The state in which `Game::new` starts a game of `measures`.
pub open spec fn start(title: Seq<char>, measures: Seq<Measure>) -> TabModel {
    TabModel { title, measures, window_start: 0, beat: 0 }
}

/// A finished game stays finished: every later detection answers
/// `SongComplete` and changes nothing.
pub proof fn law_finished_game_stays_finished(m: TabModel, ds: Seq<Option<(usize, u8)>>)
    requires
        m.is_complete(),
    ensures
        play(m, ds).0 == m,
        forall|i: int| 0 <= i < ds.len() ==> #[trigger] play(m, ds).1[i] == StepResult::SongComplete,
        play(m, ds).1.len() == ds.len(),
    decreases ds.len(),
{
    if ds.len() > 0 {
        law_finished_game_stays_finished(m, ds.drop_first());
        let rs = play(m, ds).1;
        assert forall|i: int| 0 <= i < ds.len() implies #[trigger] rs[i] == StepResult::SongComplete by {
            if i > 0 {
                assert(rs[i] == play(m, ds.drop_first()).1[i - 1]);
            }
        }
    }
}

/// From any state, a game is finished after a run of detections exactly
/// when it was finished before or some call of the run answered
/// `SongComplete`.
proof fn lemma_complete_iff_reported(m: TabModel, ds: Seq<Option<(usize, u8)>>)
    ensures
        play(m, ds).0.is_complete() <==> (m.is_complete() || play(m, ds).1.contains(StepResult::SongComplete)),
    decreases ds.len(),
{
    if ds.len() > 0 {
        let (next, r) = game_step(m, ds[0]);
        lemma_complete_iff_reported(next, ds.drop_first());
        let rs = play(next, ds.drop_first()).1;
        let all = play(m, ds).1;
        assert(all == seq![r] + rs);
        assert(all[0] == r);
        if rs.contains(StepResult::SongComplete) {
            let i = choose|i: int| 0 <= i < rs.len() && rs[i] == StepResult::SongComplete;
            assert(all[i + 1] == rs[i]);
        }
        if all.contains(StepResult::SongComplete) && r != StepResult::SongComplete {
            let i = choose|i: int| 0 <= i < all.len() && all[i] == StepResult::SongComplete;
            assert(rs[i - 1] == all[i]);
        }
        if m.is_complete() {
            law_finished_game_stays_finished(next, ds.drop_first());
        }
    }
}

/// A game of a song with at least one measure is finished after a run of
/// detections exactly when some call of the run answered `SongComplete`.
pub proof fn law_finished_when_reported(title: Seq<char>, measures: Seq<Measure>, ds: Seq<Option<(usize, u8)>>)
    requires
        measures.len() > 0,
    ensures
        play(start(title, measures), ds).0.is_complete() <==> play(start(title, measures), ds).1.contains(
            StepResult::SongComplete,
        ),
{
    lemma_complete_iff_reported(start(title, measures), ds);
}

/// From any valid state, a run that never answers `SongComplete` moves the
/// cursor by exactly as many beats as it had matches.
proof fn lemma_moves_count(m: TabModel, ds: Seq<Option<(usize, u8)>>)
    requires
        m.valid(),
        !play(m, ds).1.contains(StepResult::SongComplete),
    ensures
        play(m, ds).0.valid(),
        play(m, ds).0.position() == m.position() + moves(play(m, ds).1),
        play(m, ds).0.measures == m.measures,
    decreases ds.len(),
{
    if ds.len() > 0 {
        let (next, r) = game_step(m, ds[0]);
        let rs = play(next, ds.drop_first()).1;
        let all = play(m, ds).1;
        assert(all == seq![r] + rs);
        assert(all[0] == r);
        if rs.contains(StepResult::SongComplete) {
            let i = choose|i: int| 0 <= i < rs.len() && rs[i] == StepResult::SongComplete;
            assert(all[i + 1] == rs[i]);
        }
        assert(all.drop_first() =~= rs);
        lemma_moves_count(next, ds.drop_first());
    }
}

/// The song's beats are expected one at a time, in order: after a run from
/// the start of a game that never answered `SongComplete`, with `k` matches
/// in it, the expected beat is the song's beat `k` (beat `k % 4` of measure
/// `k / 4`).
pub proof fn law_expected_after_matches(
    title: Seq<char>,
    measures: Seq<Measure>,
    ds: Seq<Option<(usize, u8)>>,
)
    requires
        !play(start(title, measures), ds).1.contains(StepResult::SongComplete),
    ensures
        play(start(title, measures), ds).0.position() == moves(play(start(title, measures), ds).1),
        play(start(title, measures), ds).0.expected() == beat_at_spec(
            measures,
            0,
            moves(play(start(title, measures), ds).1) as int,
        ),
{
    lemma_moves_count(start(title, measures), ds);
}

/// A detection matches only the exact note the beat asks for: the same
/// string and the same fret. Any other detection, a rest or a missing beat
/// never match, so the game answers `NoMatch` and keeps its state.
pub proof fn law_only_the_exact_note_matches(m: TabModel, detected: Option<(usize, u8)>)
    ensures
        is_match(detected, m.expected()) <==> (m.expected() is Some && m.expected()->0.string is Some
            && m.expected()->0.fret is Some && detected == Some(
            (m.expected()->0.string->0, m.expected()->0.fret->0),
        )),
        forall|s: usize, f: u8, s2: usize, f2: u8|
            #[trigger] is_match(Some((s2, f2)), Some(Beat::spec_note(s, f))) <==> (s2 == s && f2 == f),
        !m.is_complete() && detected != (match m.expected() {
            Some(b) => if b.string is Some && b.fret is Some {
                Some((b.string->0, b.fret->0))
            } else {
                None
            },
            None => None,
        }) ==> game_step(m, detected) == (m, StepResult::NoMatch),
        !m.is_complete() && detected is None ==> game_step(m, detected) == (m, StepResult::NoMatch),
{
}

/// The rows are labelled with the standard-tuning names, high to low:
/// e, B, G, D, A, E, one letter each and all different, and every string row
/// starts with its string's name.
pub proof fn law_string_names(window: Seq<Option<Measure>>)
    ensures
        string_name(0) == seq!['e'],
        string_name(1) == seq!['B'],
        string_name(2) == seq!['G'],
        string_name(3) == seq!['D'],
        string_name(4) == seq!['A'],
        string_name(5) == seq!['E'],
        forall|s1: usize, s2: usize|
            s1 < 6 && s2 < 6 && s1 != s2 ==> #[trigger] string_name(s1) != #[trigger] string_name(s2),
        forall|s: usize| s < 6 ==> (#[trigger] row_text(window, s))[0] == seq!['e', 'B', 'G', 'D', 'A', 'E'][s as int],
{
    assert forall|s1: usize, s2: usize|
        s1 < 6 && s2 < 6 && s1 != s2 implies #[trigger] string_name(s1) != #[trigger] string_name(s2) by {
        assert(string_name(s1)[0] != string_name(s2)[0]);
    }
    assert forall|s: usize| s < 6 implies (#[trigger] row_text(window, s))[0] == seq![
        'e',
        'B',
        'G',
        'D',
        'A',
        'E',
    ][s as int] by {
        assert(row_text(window, s)[0] == string_name(s)[0]);
    }
}

/// The annotation starts with the 1-based beat within its measure (1 to 4)
/// and the 1-based number of the measure that beat is in, counted from the
/// start of the song: "(beat B of measure M".
pub proof fn law_annotation_numbers(m: TabModel)
    requires
        m.valid(),
    ensures
        1 <= m.beat % 4 + 1 <= 4,
        annotation_text(m).subrange(0, 7) == seq!['(', 'b', 'e', 'a', 't', ' ', (49 + m.position() % 4) as char],
        annotation_text(m).subrange(7, 19) == seq![' ', 'o', 'f', ' ', 'm', 'e', 'a', 's', 'u', 'r', 'e', ' '],
        annotation_text(m).subrange(19, 19 + decimal(m.position() / 4 + 1).len() as int)
            == decimal(m.position() / 4 + 1),
{
    reveal_strlit("(beat ");
    reveal_strlit(" of measure ");
    let bn = (m.beat % 4 + 1) as nat;
    assert(m.position() % 4 == m.beat % 4);
    assert(m.position() / 4 == m.window_start + m.beat / 4);
    assert(decimal(bn) == seq![(48 + bn) as char]);
    let head = "(beat "@ + decimal(bn) + " of measure "@ + decimal(m.window_start + m.beat / 4 + 1);
    assert(annotation_text(m).subrange(0, head.len() as int) == head);
    assert(head.subrange(0, 7) =~= seq!['(', 'b', 'e', 'a', 't', ' ', (49 + m.position() % 4) as char]);
    assert(head.subrange(7, 19) =~= seq![' ', 'o', 'f', ' ', 'm', 'e', 'a', 's', 'u', 'r', 'e', ' ']);
    assert(head.subrange(19, head.len() as int) =~= decimal(m.position() / 4 + 1));
    assert(annotation_text(m).subrange(0, 7) =~= head.subrange(0, 7));
    assert(annotation_text(m).subrange(7, 19) =~= head.subrange(7, 19));
    assert(annotation_text(m).subrange(19, head.len() as int) =~= head.subrange(19, head.len() as int));
}

/// A beat played on a string shows its fret's digits at the left of its
/// cell, followed by dashes up to the cell's width of 4; any other cell is
/// 4 dashes.
pub proof fn law_cell_shows_fret(beat: Beat, string_idx: usize)
    ensures
        cell_text(beat, string_idx).len() == 4,
        beat.string == Some(string_idx) && beat.fret is Some ==> {
            let digits = decimal(beat.fret->0 as nat);
            &&& cell_text(beat, string_idx).subrange(0, digits.len() as int) == digits
            &&& forall|i: int| digits.len() <= i < 4 ==> #[trigger] cell_text(beat, string_idx)[i] == '-'
        },
        !(beat.string == Some(string_idx) && beat.fret is Some) ==> forall|i: int|
            0 <= i < 4 ==> #[trigger] cell_text(beat, string_idx)[i] == '-',
{
    lemma_cell_width(beat, string_idx);
    if beat.string == Some(string_idx) && beat.fret is Some {
        let digits = decimal(beat.fret->0 as nat);
        lemma_decimal_len_small(beat.fret->0 as nat);
        assert(cell_text(beat, string_idx).subrange(0, digits.len() as int) =~= digits);
    }
}

} // verus!
