use playerlink::protocol::PipelineState;
use playerlink::store::{is_playing, PlayingMonitor, StateStore};

#[test]
fn store_starts_unknown() {
    let store = StateStore::new();
    assert_eq!(store.current(), PipelineState::Unknown);
}

#[test]
fn recognized_messages_update_the_store() {
    let mut store = StateStore::new();
    assert!(store.apply_message("/state/playing"));
    assert_eq!(store.current(), PipelineState::Playing);
    assert!(store.apply_message("/state/paused"));
    assert_eq!(store.current(), PipelineState::Paused);
    assert!(store.apply_message("/state/playing"));
    assert_eq!(store.current(), PipelineState::Playing);
    assert!(store.apply_message("/state/error"));
    assert_eq!(store.current(), PipelineState::Error);
    assert!(store.apply_message("/state/eos"));
    assert_eq!(store.current(), PipelineState::EndOfStream);
}

#[test]
fn unrecognized_messages_leave_the_store_untouched() {
    let mut store = StateStore::new();
    assert!(!store.apply_message("/state/warming-up"));
    assert_eq!(store.current(), PipelineState::Unknown);
    assert!(store.apply_message("/state/playing"));
    assert!(!store.apply_message("/command/pause"));
    assert!(!store.apply_message(""));
    assert_eq!(store.current(), PipelineState::Playing);
}

#[test]
fn is_playing_only_for_playing() {
    assert!(is_playing(&PipelineState::Playing));
    assert!(!is_playing(&PipelineState::Unknown));
    assert!(!is_playing(&PipelineState::Paused));
    assert!(!is_playing(&PipelineState::Error));
    assert!(!is_playing(&PipelineState::EndOfStream));
}

#[test]
fn monitor_raises_change_only_on_difference() {
    let mut monitor = PlayingMonitor::new();
    assert!(!monitor.check_playing(&PipelineState::Unknown));
    assert!(monitor.check_playing(&PipelineState::Playing));
    assert!(monitor.playing);
    assert!(!monitor.check_playing(&PipelineState::Playing));
    assert!(monitor.check_playing(&PipelineState::Paused));
    assert!(!monitor.playing);
    assert!(!monitor.check_playing(&PipelineState::EndOfStream));
}
