//! A practice game for guitar: a song written as 4/4 measures of single
//! notes, a scrolling two-window tablature view, and the step that matches
//! a detected string/fret against the note the player should play next.

pub mod text;
pub mod song;
pub mod tab;
pub mod game;
pub mod pitch;
pub mod laws;
pub mod audio;
