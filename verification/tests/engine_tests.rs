use sworkstyle::config::Config;
use sworkstyle::engine::{Engine, EngineAction, EngineEvent, WatchState, WindowChangeKind};
use sworkstyle::util::prettify_option;

#[test]
fn engine_starts_with_defaults_when_nothing_was_read() {
    let engine = Engine::new(None, false, false);
    assert!(engine.watch == WatchState::Unwatched);
    let default = Config::default();
    assert_eq!(engine.config.matchings, default.matchings);
    assert_eq!(engine.config.fallback, default.fallback);
}

#[test]
fn engine_starts_watching_an_existing_path() {
    let content = String::from("[matching]\na = 'b'\n");
    let engine = Engine::new(Some(&content), true, true);
    assert!(engine.watch == WatchState::Watching);
    assert!(engine.deduplicate);
    assert_eq!(engine.config.fetch_icon(&String::from("a"), None), "b");
}

#[test]
fn relevant_window_events_refresh_and_focus_like_ones_do_not() {
    let mut engine = Engine::new(None, true, false);
    for kind in [
        WindowChangeKind::New,
        WindowChangeKind::Close,
        WindowChangeKind::Title,
        WindowChangeKind::Move,
    ] {
        assert!(engine.step(EngineEvent::Window(kind)) == EngineAction::Refresh);
    }
    for kind in [
        WindowChangeKind::Focus,
        WindowChangeKind::FullscreenMode,
        WindowChangeKind::Floating,
        WindowChangeKind::Urgent,
        WindowChangeKind::Mark,
    ] {
        assert!(engine.step(EngineEvent::Window(kind)) == EngineAction::Skip);
    }
}

#[test]
fn config_change_swaps_the_rule_set_and_refreshes() {
    let mut engine = Engine::new(None, true, false);
    let action = engine.step(EngineEvent::ConfigChanged(Some(String::from(
        "[matching]\nxterm = 'X'\n",
    ))));
    assert!(action == EngineAction::Refresh);
    assert_eq!(engine.config.fetch_icon(&String::from("xterm"), None), "X");
}

#[test]
fn failed_reload_keeps_the_previous_rule_set() {
    let content = String::from("fallback = 'p'\n[matching]\nxterm = 'X'\n");
    let mut engine = Engine::new(Some(&content), true, false);
    let action = engine.step(EngineEvent::ConfigChanged(None));
    assert!(action == EngineAction::Refresh);
    assert_eq!(engine.config.fetch_icon(&String::from("xterm"), None), "X");
    assert_eq!(engine.config.fallback.as_deref(), Some("p"));
}

#[test]
fn connection_error_stops_the_loop() {
    let mut engine = Engine::new(None, false, false);
    assert!(engine.step(EngineEvent::ConnectionError) == EngineAction::Stop);
}

#[test]
fn prettify_option_renders_missing_values_as_dash() {
    let title = String::from("a window");
    assert_eq!(prettify_option(Some(&title)), "a window");
    assert_eq!(prettify_option(None), "-");
}
