//! The worker-side bridge: the decisions the worker makes between its two
//! channels and the media engine. One direction translates received command
//! messages into engine transition requests; the other translates native
//! engine events into outbound state-channel notices. Both directions run on
//! the worker's single event loop and stop together when that loop shuts
//! down, which the bridge triggers on end-of-stream and on error.

use vstd::prelude::*;

use crate::protocol::{parse_command, spec_parse_command, Command, PipelineState};
use crate::supervisor::LaunchArgs;

verus! {

/// What the bridge reads of an engine state: only `Playing` and `Paused` are
/// ever forwarded on the state channel, every other engine state is `Other`.
#[derive(Clone, Copy, PartialEq, Eq, Structural, Debug)]
pub enum EngineState {
    Playing,
    Paused,
    Other,
}

/// What the bridge reads of one native engine event: end of stream, an
/// error, a state change (with whether its source is the top-level pipeline
/// object, and the state entered), or any other event kind.
#[derive(Clone, Copy, PartialEq, Eq, Structural, Debug)]
pub enum EngineEvent {
    Eos,
    Error,
    StateChanged { from_pipeline: bool, current: EngineState },
    Other,
}

/// The notice, if any, that one engine event puts on the state channel:
/// end-of-stream and error events are always announced; a state change is
/// announced only when it comes from the top-level pipeline and enters
/// `Playing` or `Paused`; everything else is ignored.
pub open spec fn spec_event_notice(e: EngineEvent) -> Option<PipelineState> {
    match e {
        EngineEvent::Eos => Some(PipelineState::EndOfStream),
        EngineEvent::Error => Some(PipelineState::Error),
        EngineEvent::StateChanged { from_pipeline, current } => {
            if from_pipeline {
                match current {
                    EngineState::Playing => Some(PipelineState::Playing),
                    EngineState::Paused => Some(PipelineState::Paused),
                    EngineState::Other => None,
                }
            } else {
                None
            }
        },
        EngineEvent::Other => None,
    }
}

/// Whether one engine event shuts the worker's event loop down: exactly the
/// end-of-stream and error events do.
pub open spec fn spec_event_quits(e: EngineEvent) -> bool {
    e == EngineEvent::Eos || e == EngineEvent::Error
}

/// The bridge's own state: whether the worker's event loop is still running.
/// Once the loop has shut down, neither channel is processed any further.
pub struct WorkerBridge {
    pub alive: bool,
}

impl WorkerBridge {
    /// A bridge on a freshly started worker: its event loop is running.
    pub fn new() -> (r: WorkerBridge)
        ensures
            r.alive,
    {
        WorkerBridge { alive: true }
    }

    /// The engine transition that one received command message asks for:
    /// at most the one call that corresponds to the message's address, and
    /// none at all once the event loop has shut down.
    pub open spec fn spec_process_command(self, addr: Seq<char>) -> Option<Command> {
        if self.alive {
            spec_parse_command(addr)
        } else {
            None
        }
    }

    /// Handles one received command message: returns the engine transition
    /// to request, if the address is recognized and the loop still runs.
    /// Unrecognized addresses are ignored and touch nothing.
    pub fn process_command(&self, addr: &str) -> (r: Option<Command>)
        ensures
            r == self.spec_process_command(addr@),
    {
        if self.alive {
            parse_command(addr)
        } else {
            None
        }
    }

    /// The bridge transition for one engine event: the successor bridge
    /// state and the notice, if any, to send on the state channel. A dead
    /// bridge stays dead and emits nothing.
    pub open spec fn spec_handle(self, e: EngineEvent) -> (WorkerBridge, Option<PipelineState>) {
        if self.alive {
            (WorkerBridge { alive: !spec_event_quits(e) }, spec_event_notice(e))
        } else {
            (self, None)
        }
    }

    /// Handles one native engine event: returns the notice to send on the
    /// state channel, if any, and shuts the event loop down on end-of-stream
    /// and on error.
    pub fn handle_event(&mut self, e: &EngineEvent) -> (notice: Option<PipelineState>)
        ensures
            (*final(self), notice) == old(self).spec_handle(*e),
    {
        if !self.alive {
            return None;
        }
        match e {
            EngineEvent::Eos => {
                self.alive = false;
                Some(PipelineState::EndOfStream)
            },
            EngineEvent::Error => {
                self.alive = false;
                Some(PipelineState::Error)
            },
            EngineEvent::StateChanged { from_pipeline, current } => {
                if *from_pipeline {
                    match current {
                        EngineState::Playing => Some(PipelineState::Playing),
                        EngineState::Paused => Some(PipelineState::Paused),
                        EngineState::Other => None,
                    }
                } else {
                    None
                }
            },
            EngineEvent::Other => None,
        }
    }
}

/// Builds the engine's pipeline description from the launch arguments: the
/// fixed playback element with the media source given as a file URI.
pub fn make_pipeline_string(args: &LaunchArgs) -> (r: String)
    ensures
        r@ == "playbin uri=file://"@ + args.video_path@,
{
    let prefix = String::from_str("playbin uri=file://");
    prefix.concat(args.video_path.as_str())
}

} // verus!
