//! The verified core of Conservatory, a music, podcast and audiobook player:
//! play-queue building, the status bar readouts, the stylesheet, the facet
//! and list texts, the track inspector, the podcast triage copy, the
//! smart-playlist fallback order, filter-bar narrowing and the debounce
//! queue.
use vstd::prelude::*;

pub mod accent;
pub mod book_query;
pub mod capture;
pub mod columns;
pub mod coalescing;
pub mod dialogs;
pub mod edits;
pub mod fields;
pub mod media;
pub mod now_playing;
pub mod objects;
pub mod playqueue;
pub mod podcasts;
pub mod query;
pub mod rating;
pub mod smart;
pub mod sound;
pub mod startup;
pub mod statusbar;
pub mod text;
pub mod theme;
pub mod transport;
pub mod waveform;
pub mod window;

verus! {

} // verus!
