//! The protocol's guarantees, stated across modules and proved once and for
//! all: how commands reach the engine, how engine events reach the state
//! store, and how shutdown and restart behave.

use vstd::prelude::*;

use crate::bridge::{spec_event_quits, EngineEvent, EngineState, WorkerBridge};
use crate::protocol::{
    lemma_command_address_parses, lemma_state_address_parses, spec_command_address,
    spec_parse_command, spec_parse_state, spec_state_address, Command, PipelineState,
};
use crate::store::StateStore;
use crate::supervisor::{StartError, Supervisor, WorkerHandle};

verus! {

/// The engine state a command drives the pipeline toward.
pub open spec fn spec_engine_state_for(c: Command) -> EngineState {
    match c {
        Command::Play => EngineState::Playing,
        Command::Pause => EngineState::Paused,
    }
}

/// The pipeline state the controller should come to observe after a command
/// succeeds.
pub open spec fn spec_observed_state_for(c: Command) -> PipelineState {
    match c {
        Command::Play => PipelineState::Playing,
        Command::Pause => PipelineState::Paused,
    }
}

/// While the worker is alive, each received command message asks for exactly
/// the one engine call that corresponds to it — the decision is a pure
/// function of the address, so a repeated identical command asks for the
/// same call again and is never an error.
pub proof fn lemma_command_invoked_at_most_once(w: WorkerBridge, c: Command)
    requires
        w.alive,
    ensures
        w.spec_process_command(spec_command_address(c)) == Some(c),
{
    lemma_command_address_parses(c);
}

/// A command followed by the matching pipeline transition reaches the state
/// store: the worker parses the command's address back to the command, the
/// bridge announces the transition on the state channel, stays alive, and
/// the announcement drives the store to the corresponding state, whatever
/// it held before.
pub proof fn lemma_command_reaches_store(w: WorkerBridge, store: StateStore, c: Command)
    requires
        w.alive,
    ensures
        ({
            let event = EngineEvent::StateChanged {
                from_pipeline: true,
                current: spec_engine_state_for(c),
            };
            let (w2, notice) = w.spec_handle(event);
            &&& w.spec_process_command(spec_command_address(c)) == Some(c)
            &&& notice == Some(spec_observed_state_for(c))
            &&& w2.alive
            &&& spec_state_address(spec_observed_state_for(c)) matches Some(addr)
                && store.spec_apply(addr).state == spec_observed_state_for(c)
        }),
{
    lemma_command_address_parses(c);
    lemma_state_address_parses(spec_observed_state_for(c));
}

/// An end-of-stream event produces exactly one end-of-stream notice and
/// shuts the bridge down; afterwards no event produces a notice and the
/// bridge stays down.
pub proof fn lemma_eos_terminates_bridge(w: WorkerBridge, later: EngineEvent)
    requires
        w.alive,
    ensures
        ({
            let (w2, notice) = w.spec_handle(EngineEvent::Eos);
            &&& notice == Some(PipelineState::EndOfStream)
            &&& !w2.alive
            &&& w2.spec_handle(later) == (w2, None::<PipelineState>)
        }),
{
}

/// An error event produces exactly one error notice and shuts the bridge
/// down; afterwards no event produces a notice and no command message is
/// processed any further.
pub proof fn lemma_error_terminates_bridge(w: WorkerBridge, later: EngineEvent, addr: Seq<char>)
    requires
        w.alive,
    ensures
        ({
            let (w2, notice) = w.spec_handle(EngineEvent::Error);
            &&& notice == Some(PipelineState::Error)
            &&& !w2.alive
            &&& w2.spec_handle(later) == (w2, None::<PipelineState>)
            &&& w2.spec_process_command(addr) is None
        }),
{
}

/// An unrecognized address pattern is a no-op on either channel: it leaves
/// the state store exactly as it was and asks for no engine call.
pub proof fn lemma_unrecognized_is_noop(w: WorkerBridge, store: StateStore, addr: Seq<char>)
    requires
        spec_parse_state(addr) is None,
        spec_parse_command(addr) is None,
    ensures
        store.spec_apply(addr) == store,
        w.spec_process_command(addr) is None,
{
}

/// A start request with no source path and no fallback asset fails fatally:
/// it chooses no source at all, so nothing is launched and no state is ever
/// announced.
pub proof fn lemma_no_source_is_fatal(sup: Supervisor, fallback: Seq<char>)
    requires
        sup.handle is None,
    ensures
        sup.spec_choose_source(Seq::empty(), fallback, false)
            == Err::<Seq<char>, StartError>(StartError::MissingFallback),
{
}

/// Stopping a started supervisor clears the worker handle, and a subsequent
/// start request with any available source succeeds in choosing one — so a
/// new worker can be launched.
pub proof fn lemma_restart_after_stop(
    sup: Supervisor,
    h: WorkerHandle,
    requested: Seq<char>,
    fallback: Seq<char>,
    fallback_exists: bool,
)
    requires
        sup.spec_start(h).handle is Some,
        requested.len() != 0 || fallback_exists,
    ensures
        sup.spec_start(h).spec_stop().handle is None,
        !sup.spec_start(h).spec_stop().started,
        sup.spec_start(h).spec_stop().spec_choose_source(requested, fallback, fallback_exists)
            is Ok,
{
}

} // verus!
