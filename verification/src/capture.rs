//! The spectrum visualizer's capture guard. The audio tap targets the
//! player's own output node, which only exists while it plays; running it
//! otherwise would capture the microphone. So the tap runs exactly while the
//! drawer is open and playback is on. The guard decides; the caller starts or
//! stops the tap as told.
use vstd::prelude::*;

verus! {

/// What the caller does to the audio tap.
#[derive(Debug, Clone, Copy, PartialEq, Eq, Structural)]
pub enum TapAction {
    Start,
    Stop,
    Nothing,
}

/// The guard's state: whether the drawer is open, whether playback is on,
/// and whether the tap is running.
#[derive(Debug, Clone, Copy, PartialEq, Eq, Structural)]
pub struct CaptureGuard {
    pub mapped: bool,
    pub playing: bool,
    pub running: bool,
}

/// The tap should run: the drawer is open and playback is on.
pub open spec fn wanted(g: CaptureGuard) -> bool {
    g.mapped && g.playing
}

/// The action that brings a tap that is (or is not) `running` in line with
/// whether it is `want`ed.
pub open spec fn action_for(running: bool, want: bool) -> TapAction {
    if want && !running {
        TapAction::Start
    } else if !want && running {
        TapAction::Stop
    } else {
        TapAction::Nothing
    }
}

impl CaptureGuard {
    /// A closed drawer, no playback, no tap.
    pub fn new() -> (r: Self)
        ensures
            !r.mapped && !r.playing && !r.running,
    {
        CaptureGuard { mapped: false, playing: false, running: false }
    }

    /// Start the tap when (and only when) the drawer is open and playback is
    /// on; stop it otherwise. Idempotent.
    pub fn refresh(&mut self) -> (r: TapAction)
        ensures
            r == action_for(old(self).running, wanted(*old(self))),
            final(self).running == wanted(*old(self)),
            final(self).mapped == old(self).mapped,
            final(self).playing == old(self).playing,
    {
        let want = self.mapped && self.playing;
        let act = if want && !self.running {
            TapAction::Start
        } else if !want && self.running {
            TapAction::Stop
        } else {
            TapAction::Nothing
        };
        self.running = want;
        act
    }

    /// The drawer opened (`true`) or closed (`false`).
    pub fn set_mapped(&mut self, mapped: bool) -> (r: TapAction)
        ensures
            final(self).mapped == mapped,
            final(self).playing == old(self).playing,
            final(self).running == (mapped && old(self).playing),
            r == action_for(old(self).running, mapped && old(self).playing),
    {
        self.mapped = mapped;
        self.refresh()
    }

    /// Playback started (`true`) or stopped (`false`); nothing happens when
    /// the play state did not change.
    pub fn set_playing(&mut self, playing: bool) -> (r: TapAction)
        ensures
            final(self).mapped == old(self).mapped,
            final(self).playing == playing,
            playing != old(self).playing ==> {
                &&& final(self).running == (old(self).mapped && playing)
                &&& r == action_for(old(self).running, old(self).mapped && playing)
            },
            playing == old(self).playing ==> final(self).running == old(self).running && r
                == TapAction::Nothing,
    {
        if self.playing != playing {
            self.playing = playing;
            self.refresh()
        } else {
            TapAction::Nothing
        }
    }
}

/// The guard keeps its promise: once refreshed, the tap runs exactly while
/// the drawer is open and playback is on, and a second refresh does nothing.
pub proof fn law_guard_settles(g: CaptureGuard)
    ensures
        ({
            let after = CaptureGuard { running: wanted(g), ..g };
            &&& after.running == (after.mapped && after.playing)
            &&& action_for(after.running, wanted(after)) == TapAction::Nothing
        }),
{
}

} // verus!
