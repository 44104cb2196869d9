use playerlink::bridge::{make_pipeline_string, EngineEvent, EngineState, WorkerBridge};
use playerlink::protocol::{command_address, state_address, Command, PipelineState};
use playerlink::store::StateStore;
use playerlink::supervisor::LaunchArgs;

#[test]
fn commands_ask_for_the_matching_engine_call() {
    let bridge = WorkerBridge::new();
    assert_eq!(bridge.process_command("/command/play"), Some(Command::Play));
    assert_eq!(bridge.process_command("/command/pause"), Some(Command::Pause));
    // repeating the identical command asks for the same call again, no error
    assert_eq!(bridge.process_command("/command/play"), Some(Command::Play));
}

#[test]
fn unrecognized_commands_touch_nothing() {
    let bridge = WorkerBridge::new();
    assert_eq!(bridge.process_command("/command/rewind"), None);
    assert_eq!(bridge.process_command("/state/playing"), None);
    assert_eq!(bridge.process_command(""), None);
}

#[test]
fn pipeline_state_changes_are_forwarded() {
    let mut bridge = WorkerBridge::new();
    let ev = EngineEvent::StateChanged { from_pipeline: true, current: EngineState::Playing };
    assert_eq!(bridge.handle_event(&ev), Some(PipelineState::Playing));
    assert!(bridge.alive);
    let ev = EngineEvent::StateChanged { from_pipeline: true, current: EngineState::Paused };
    assert_eq!(bridge.handle_event(&ev), Some(PipelineState::Paused));
    assert!(bridge.alive);
}

#[test]
fn inner_element_and_other_state_changes_are_filtered() {
    let mut bridge = WorkerBridge::new();
    let ev = EngineEvent::StateChanged { from_pipeline: false, current: EngineState::Playing };
    assert_eq!(bridge.handle_event(&ev), None);
    let ev = EngineEvent::StateChanged { from_pipeline: true, current: EngineState::Other };
    assert_eq!(bridge.handle_event(&ev), None);
    assert_eq!(bridge.handle_event(&EngineEvent::Other), None);
    assert!(bridge.alive);
}

#[test]
fn eos_sends_one_notice_and_stops_the_bridge() {
    let mut bridge = WorkerBridge::new();
    assert_eq!(bridge.handle_event(&EngineEvent::Eos), Some(PipelineState::EndOfStream));
    assert!(!bridge.alive);
    // no further state-channel messages after shutdown
    assert_eq!(bridge.handle_event(&EngineEvent::Eos), None);
    let ev = EngineEvent::StateChanged { from_pipeline: true, current: EngineState::Playing };
    assert_eq!(bridge.handle_event(&ev), None);
}

#[test]
fn error_sends_one_notice_and_stops_both_channels() {
    let mut bridge = WorkerBridge::new();
    assert_eq!(bridge.handle_event(&EngineEvent::Error), Some(PipelineState::Error));
    assert!(!bridge.alive);
    // no further command processing after shutdown
    assert_eq!(bridge.process_command("/command/play"), None);
    assert_eq!(bridge.handle_event(&EngineEvent::Error), None);
}

#[test]
fn play_command_reaches_the_store_as_playing() {
    // the controller renders the command
    let addr = command_address(Command::Play);
    // the worker parses it and asks the engine for the matching transition
    let mut bridge = WorkerBridge::new();
    let call = bridge.process_command(addr);
    assert_eq!(call, Some(Command::Play));
    // the engine reports the transition; the bridge announces it
    let ev = EngineEvent::StateChanged { from_pipeline: true, current: EngineState::Playing };
    let notice = bridge.handle_event(&ev);
    assert_eq!(notice, Some(PipelineState::Playing));
    // the announcement crosses the state channel and lands in the store
    let wire = state_address(notice.unwrap()).unwrap();
    let mut store = StateStore::new();
    assert!(store.apply_message(wire));
    assert_eq!(store.current(), PipelineState::Playing);
}

#[test]
fn pause_command_reaches_the_store_as_paused() {
    let addr = command_address(Command::Pause);
    let mut bridge = WorkerBridge::new();
    assert_eq!(bridge.process_command(addr), Some(Command::Pause));
    let ev = EngineEvent::StateChanged { from_pipeline: true, current: EngineState::Paused };
    let notice = bridge.handle_event(&ev);
    assert_eq!(notice, Some(PipelineState::Paused));
    let wire = state_address(notice.unwrap()).unwrap();
    let mut store = StateStore::new();
    assert!(store.apply_message(wire));
    assert_eq!(store.current(), PipelineState::Paused);
}

#[test]
fn pipeline_string_embeds_the_source_as_file_uri() {
    let args = LaunchArgs {
        video_path: "/media/clip.mp4".to_string(),
        width: 1920,
        height: 1080,
    };
    assert_eq!(make_pipeline_string(&args), "playbin uri=file:///media/clip.mp4");
}
