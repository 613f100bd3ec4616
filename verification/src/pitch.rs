//! From a detected pitch to a position on the fretboard and a note name.
//!
//! The floating-point measurements (semitones from each open string, how far
//! the pitch is from the nearest fret) are made by the caller; what is
//! decided from them is here.

use vstd::prelude::*;
use crate::text::{push_decimal, signed_decimal};

verus! {

/// The highest fret of the neck.
pub const MAX_FRET: i32 = 24;

/// `fret` clamped into the frets of the neck, 0 (open) to 24.
pub open spec fn clamped_fret(fret: int) -> int {
    if fret < 0 {
        0
    } else if fret > MAX_FRET {
        MAX_FRET as int
    } else {
        fret
    }
}

/// The fret of the neck nearest to `fret`: 0 below the neck, 24 above it.
pub fn clamp_fret(fret: i32) -> (f: u8)
    ensures
        f as int == clamped_fret(fret as int),
{
    if fret < 0 {
        0
    } else if fret > MAX_FRET {
        24
    } else {
        fret as u8
    }
}

/// Whether candidate `i` is the nearest: no candidate is nearer, and every
/// earlier candidate is strictly farther (the first of equally near ones
/// wins).
pub open spec fn is_nearest(candidates: Seq<(i32, u64)>, i: int) -> bool {
    &&& 0 <= i < candidates.len()
    &&& forall|j: int|
        0 <= j < candidates.len() ==> {
            &&& candidates[i].1 <= #[trigger] candidates[j].1
            &&& j < i ==> candidates[i].1 < candidates[j].1
        }
}

/// Picks the string and fret nearest to a detected pitch.
///
/// `candidates[i]` is what string `i` offers: the fret nearest to the pitch
/// on that string, and how far the pitch is from the exact pitch of that
/// fret once clamped onto the neck (see `clamp_fret`), given as a key whose
/// order is the order of the distances (for a non-negative `f64` distance,
/// its bit pattern). The nearest string wins, with its fret clamped onto the
/// neck; `None` only when there is no candidate at all.
pub fn nearest_string_fret(candidates: &[(i32, u64)]) -> (r: Option<(usize, u8)>)
    ensures
        r is None <==> candidates@.len() == 0,
        r matches Some((s, f)) ==> is_nearest(candidates@, s as int) && f as int == clamped_fret(
            candidates@[s as int].0 as int,
        ),
{
    let mut best: Option<(usize, u8, u64)> = None;
    let mut i: usize = 0;
    while i < candidates.len()
        invariant
            i <= candidates@.len(),
            best is None <==> i == 0,
            best matches Some((b, f, e)) ==> {
                &&& is_nearest(candidates@.take(i as int), b as int)
                &&& f as int == clamped_fret(candidates@[b as int].0 as int)
                &&& e == candidates@[b as int].1
            },
        decreases candidates@.len() - i,
    {
        let (fret, err) = candidates[i];
        let better = match best {
            None => true,
            Some((_, _, b)) => err < b,
        };
        if better {
            best = Some((i, clamp_fret(fret), err));
        }
        proof {
            let pre = candidates@.take(i as int);
            let post = candidates@.take(i + 1);
            assert(post =~= pre.push(candidates@[i as int]));
            if let Some((b, f, e)) = best {
                assert forall|j: int| 0 <= j < post.len() implies {
                    &&& post[b as int].1 <= #[trigger] post[j].1
                    &&& j < b ==> post[b as int].1 < post[j].1
                } by {
                    if j < i {
                        assert(pre[j] == post[j]);
                    }
                }
            }
        }
        i = i + 1;
    }
    proof {
        assert(candidates@.take(i as int) =~= candidates@);
    }
    match best {
        Some((s, f, _)) => Some((s, f)),
        None => None,
    }
}

/// The pitch class (0 = C ... 11 = B) of a MIDI note number.
pub open spec fn pitch_class(midi: int) -> int {
    midi % 12
}

/// The octave of a MIDI note number in scientific pitch notation, with the
/// quotient rounded toward zero as integer division does (MIDI 60 is C4).
pub open spec fn octave(midi: int) -> int {
    (if midi >= 0 { midi / 12 } else { -((-midi) / 12) }) - 1
}

/// The name of pitch class `pc`, with sharps.
pub open spec fn pitch_class_name(pc: int) -> Seq<char> {
    if pc == 0 {
        seq!['C']
    } else if pc == 1 {
        seq!['C', '#']
    } else if pc == 2 {
        seq!['D']
    } else if pc == 3 {
        seq!['D', '#']
    } else if pc == 4 {
        seq!['E']
    } else if pc == 5 {
        seq!['F']
    } else if pc == 6 {
        seq!['F', '#']
    } else if pc == 7 {
        seq!['G']
    } else if pc == 8 {
        seq!['G', '#']
    } else if pc == 9 {
        seq!['A']
    } else if pc == 10 {
        seq!['A', '#']
    } else {
        seq!['B']
    }
}

/// The name of a MIDI note, such as "A4" or "C#-1".
pub open spec fn note_name(midi: int) -> Seq<char> {
    pitch_class_name(pitch_class(midi)) + signed_decimal(octave(midi))
}

/// A note an octave up has the same pitch class and the next octave number,
/// for every MIDI number from 0 on (below 0 the octave quotient rounds toward
/// zero, so MIDI -1 and 11 are both in octave -1).
pub proof fn law_octave_up(midi: int)
    requires
        midi >= 0,
    ensures
        pitch_class(midi + 12) == pitch_class(midi),
        octave(midi + 12) == octave(midi) + 1,
        note_name(midi + 12) == pitch_class_name(pitch_class(midi)) + signed_decimal(octave(midi) + 1),
{
}

/// The pitch classes are named along the chromatic scale from C, with
/// sharps: C, C#, D, D#, E, F, F#, G, G#, A, A#, B, all different.
pub proof fn law_pitch_class_names()
    ensures
        pitch_class_name(0) == seq!['C'],
        pitch_class_name(1) == seq!['C', '#'],
        pitch_class_name(2) == seq!['D'],
        pitch_class_name(3) == seq!['D', '#'],
        pitch_class_name(4) == seq!['E'],
        pitch_class_name(5) == seq!['F'],
        pitch_class_name(6) == seq!['F', '#'],
        pitch_class_name(7) == seq!['G'],
        pitch_class_name(8) == seq!['G', '#'],
        pitch_class_name(9) == seq!['A'],
        pitch_class_name(10) == seq!['A', '#'],
        pitch_class_name(11) == seq!['B'],
        forall|a: int, b: int|
            0 <= a < 12 && 0 <= b < 12 && a != b ==> #[trigger] pitch_class_name(a) != #[trigger] pitch_class_name(b),
{
    assert forall|a: int, b: int|
        0 <= a < 12 && 0 <= b < 12 && a != b implies #[trigger] pitch_class_name(a) != #[trigger] pitch_class_name(b) by {
        if pitch_class_name(a).len() == pitch_class_name(b).len() {
            assert(pitch_class_name(a)[0] != pitch_class_name(b)[0]);
        }
    }
}

/// A note's name starts with the name of its pitch class, the MIDI number
/// modulo 12 counted from C; for MIDI numbers from 0 on, the octave that
/// follows is the number of whole octaves above MIDI 0, minus 1.
pub proof fn law_note_name_parts(midi: int)
    requires
        midi >= 0,
    ensures
        note_name(midi) == pitch_class_name(midi % 12) + signed_decimal(midi / 12 - 1),
        0 <= midi % 12 < 12,
{
}

/// The text of the name of pitch class `pc`.
fn pitch_class_str(pc: i32) -> (t: &'static str)
    requires
        0 <= pc < 12,
    ensures
        t@ == pitch_class_name(pc as int),
{
    match pc {
        0 => { proof { reveal_strlit("C"); } "C" },
        1 => { proof { reveal_strlit("C#"); } "C#" },
        2 => { proof { reveal_strlit("D"); } "D" },
        3 => { proof { reveal_strlit("D#"); } "D#" },
        4 => { proof { reveal_strlit("E"); } "E" },
        5 => { proof { reveal_strlit("F"); } "F" },
        6 => { proof { reveal_strlit("F#"); } "F#" },
        7 => { proof { reveal_strlit("G"); } "G" },
        8 => { proof { reveal_strlit("G#"); } "G#" },
        9 => { proof { reveal_strlit("A"); } "A" },
        10 => { proof { reveal_strlit("A#"); } "A#" },
        _ => { proof { reveal_strlit("B"); } "B" },
    }
}

/// The name of the MIDI note `midi`: its pitch class with sharps, then its
/// octave (MIDI 69 is "A4").
pub fn midi_note_name(midi: i32) -> (name: String)
    ensures
        name@ == note_name(midi as int),
{
    let pc = ((midi % 12) + 12) % 12;
    let oct: i32 = midi / 12 - 1;
    assert(pc == pitch_class(midi as int));
    assert(oct == octave(midi as int));
    let mut name = String::new();
    name.append(pitch_class_str(pc));
    if oct < 0 {
        name.append("-");
        proof {
            reveal_strlit("-");
        }
        let magnitude: i64 = -(oct as i64);
        push_decimal(&mut name, magnitude as u64);
    } else {
        push_decimal(&mut name, oct as u64);
    }
    assert(name@ =~= note_name(midi as int));
    name
}

} // verus!
