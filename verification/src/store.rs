//! The controller's state store and polling monitor. The store is a single
//! cell holding the last-known pipeline state; it is written only by the
//! state-channel listener and read by a polling layer that raises a change
//! notification only when the observed value differs from the last one.

use vstd::prelude::*;

use crate::protocol::{parse_state, spec_parse_state, PipelineState};

verus! {

/// The controller's last-known pipeline state: a single cell, written only
/// by the state-channel listener. It starts at `Unknown` and thereafter
/// records exactly what the worker announced, never an inferred state.
pub struct StateStore {
    pub state: PipelineState,
}

impl StateStore {
    /// A fresh store, before any worker notification has arrived.
    pub fn new() -> (r: StateStore)
        ensures
            r.state == PipelineState::Unknown,
    {
        StateStore { state: PipelineState::Unknown }
    }

    /// The effect of one state-channel message on the store: a recognized
    /// address overwrites the cell with the announced state, anything else
    /// leaves the store exactly as it was.
    pub open spec fn spec_apply(self, addr: Seq<char>) -> StateStore {
        match spec_parse_state(addr) {
            Some(s) => StateStore { state: s },
            None => self,
        }
    }

    /// Applies one received state-channel message. Returns whether the
    /// address was recognized (and the cell therefore overwritten).
    pub fn apply_message(&mut self, addr: &str) -> (updated: bool)
        ensures
            *final(self) == old(self).spec_apply(addr@),
            updated == (spec_parse_state(addr@) is Some),
    {
        match parse_state(addr) {
            Some(s) => {
                self.state = s;
                true
            },
            None => false,
        }
    }

    /// Reads the cell.
    pub fn current(&self) -> (r: PipelineState)
        ensures
            r == self.state,
    {
        self.state
    }
}

/// Whether a recorded pipeline state counts as playing.
pub fn is_playing(state: &PipelineState) -> (r: bool)
    ensures
        r == (*state == PipelineState::Playing),
{
    *state == PipelineState::Playing
}

/// The polling layer's memory: the playing flag it last exposed. Comparing a
/// fresh read of the store against this flag tells the poller whether to
/// raise a change notification.
pub struct PlayingMonitor {
    pub playing: bool,
}

impl PlayingMonitor {
    /// A fresh monitor; nothing has been observed playing yet.
    pub fn new() -> (r: PlayingMonitor)
        ensures
            !r.playing,
    {
        PlayingMonitor { playing: false }
    }

    /// One polling step: reads the given state, updates the exposed flag, and
    /// reports whether the flag changed (the one case in which the poller
    /// raises a notification).
    pub fn check_playing(&mut self, state: &PipelineState) -> (changed: bool)
        ensures
            final(self).playing == (*state == PipelineState::Playing),
            changed == (old(self).playing != final(self).playing),
    {
        let now_playing = is_playing(state);
        if self.playing != now_playing {
            self.playing = now_playing;
            true
        } else {
            false
        }
    }
}

} // verus!
