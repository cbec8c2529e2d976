# Conservatory core

The verified core of Conservatory, a music, podcast and audiobook player.
Each public function states what it returns, over character
sequences and integers, and Verus proves it.

- `src/` — the library, proved by Verus but for a few wrappers that call
  std and `chrono`:
  play-queue building and drag-and-drop positions (`playqueue`), the status
  bar readouts (`statusbar`), the stylesheet and its token replacement
  (`theme`), list and facet texts (`objects`), the track inspector
  (`fields`), the Now Playing detail (`now_playing`), podcast triage copy and
  show settings (`podcasts`), the smart-playlist fallback order (`smart`),
  filter-bar narrowing (`query`), edit-dialog field state (`edits`), the
  debounce queue (`coalescing`), the waveform envelope slot (`waveform`),
  transport decisions (`transport`) and smaller pieces.
- `tests/` — tests run against the compiled library.
- `app/` — a small command-line driver: argument handling, the clock, and
  the readouts that take floating-point seconds, pixels or colours, which it
  converts to whole units before handing them to the library.

Laws that relate several functions are public proof functions named
`law_*`, next to the functions they speak of.
