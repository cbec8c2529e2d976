//! The waveform seek bar's envelope slot: each load is stamped with a
//! generation, and a decoded envelope is accepted only if it carries the
//! latest one, so a slow decode of an earlier item never paints over the
//! current one.
use vstd::prelude::*;

verus! {

/// The envelope shown by the waveform bar (empty draws a flat seek line)
/// and the generation of the latest load.
#[derive(Debug)]
pub struct Envelope<T> {
    pub peak: Vec<T>,
    pub generation: u64,
}

/// The generation after `g`, wrapping at the top of the range.
pub open spec fn next_generation(g: u64) -> u64 {
    if g == u64::MAX {
        0
    } else {
        (g + 1) as u64
    }
}

/// The envelope after a decoded `result` carrying generation `carried`
/// arrives at a slot holding `peak` at `generation`: the result (empty for a
/// failed decode) when it is current, else the envelope unchanged.
pub open spec fn after_result<T>(
    peak: Seq<T>,
    generation: u64,
    carried: u64,
    result: Option<Seq<T>>,
) -> Seq<T> {
    if carried == generation {
        match result {
            Some(p) => p,
            None => Seq::empty(),
        }
    } else {
        peak
    }
}

/// A decoded envelope's samples, when the decode succeeded.
pub open spec fn result_view<T>(peak: Option<Vec<T>>) -> Option<Seq<T>> {
    match peak {
        Some(p) => Some(p@),
        None => None,
    }
}

impl<T> Envelope<T> {
    /// An empty slot at generation 0.
    pub fn new() -> (r: Self)
        ensures
            r.peak@.len() == 0,
            r.generation == 0,
    {
        Envelope { peak: Vec::new(), generation: 0 }
    }

    /// Begin loading a new envelope: drop the old one (the bar falls back to
    /// the flat line) and return the generation the decoded result must
    /// carry to be accepted.
    pub fn begin_load(&mut self) -> (r: u64)
        ensures
            final(self).peak@.len() == 0,
            final(self).generation == next_generation(old(self).generation),
            r == final(self).generation,
    {
        self.peak = Vec::new();
        self.generation = self.generation.wrapping_add(1);
        self.generation
    }

    /// Apply a decoded envelope if it is still current (its generation is
    /// the latest load's); a late result is dropped. A failed decode leaves
    /// the flat line.
    pub fn apply_envelope(&mut self, generation: u64, peak: Option<Vec<T>>)
        ensures
            final(self).generation == old(self).generation,
            final(self).peak@ == after_result(
                old(self).peak@,
                old(self).generation,
                generation,
                result_view(peak),
            ),
    {
        if self.generation != generation {
            return;
        }
        self.peak = match peak {
            Some(p) => p,
            None => Vec::new(),
        };
    }

    /// Reset to the idle state: no envelope, and any load in flight is
    /// made stale.
    pub fn clear(&mut self)
        ensures
            final(self).peak@.len() == 0,
            final(self).generation == next_generation(old(self).generation),
    {
        self.peak = Vec::new();
        self.generation = self.generation.wrapping_add(1);
    }
}

/// A decode finishing after a newer load (or a reset) never paints: the
/// result of the load that handed out `next_generation(g)` is dropped once
/// the slot has moved on to the following generation, whatever the envelope.
pub proof fn law_stale_result_is_dropped<T>(g: u64, peak: Seq<T>, result: Option<Seq<T>>)
    ensures
        after_result(peak, next_generation(next_generation(g)), next_generation(g), result)
            == peak,
{
}

/// The current load's result is what the bar shows: a decode carrying the
/// generation the latest load handed out replaces the envelope.
pub proof fn law_current_result_is_shown<T>(g: u64, peak: Seq<T>, result: Seq<T>)
    ensures
        after_result(peak, g, g, Some(result)) == result,
{
}

} // verus!
