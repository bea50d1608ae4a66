//! The live-config event engine.
//!
//! One cooperative loop multiplexes two signal sources: window events
//! from the window manager, and change notifications for the watched
//! config file. The decisions the loop makes are a pure function of
//! the current state and the incoming event, stated here; the loop
//! around it only performs I/O and hands the outcomes back.

use vstd::prelude::*;

use crate::config::{spec_from_read_result, spec_from_user_content, spec_opt_view, Config, ConfigView};

verus! {

/// The kind of change a window event reports, mirroring the window
/// manager's event field.
#[derive(Clone, Copy, PartialEq, Eq, Structural, Debug)]
pub enum WindowChangeKind {
    New,
    Close,
    Focus,
    Title,
    FullscreenMode,
    Move,
    Floating,
    Urgent,
    Mark,
}

/// Whether a window change can alter a workspace label. Focus-like
/// changes cannot, and the refresh is skipped for them.
pub open spec fn spec_triggers_update(k: WindowChangeKind) -> bool {
    !(k is Focus || k is FullscreenMode || k is Floating || k is Urgent || k is Mark)
}

impl WindowChangeKind {
    /// Whether an event with this change kind must trigger a
    /// workspace refresh.
    pub fn triggers_update(&self) -> (r: bool)
        ensures
            r == spec_triggers_update(*self),
    {
        !matches!(
            self,
            WindowChangeKind::Focus | WindowChangeKind::FullscreenMode | WindowChangeKind::Floating
                | WindowChangeKind::Urgent | WindowChangeKind::Mark
        )
    }
}

/// Whether a watch is installed on the config file. A source whose
/// path existed at startup watches it for the lifetime of the
/// process; a missing path is never watched, and the rule set is then
/// never hot-reloaded.
#[derive(Clone, Copy, PartialEq, Eq, Structural, Debug)]
pub enum WatchState {
    Watching,
    Unwatched,
}

/// One signal out of the merged event stream.
pub enum EngineEvent {
    /// A window event with its change kind.
    Window(WindowChangeKind),
    /// The watched config file changed; the payload is the content
    /// re-read from it, or nothing where the read failed.
    ConfigChanged(Option<String>),
    /// The window-manager connection reported an error.
    ConnectionError,
}

/// What the loop must do after a step.
#[derive(Clone, Copy, PartialEq, Eq, Structural, Debug)]
pub enum EngineAction {
    /// Recompute all workspace labels.
    Refresh,
    /// The event is irrelevant: do nothing.
    Skip,
    /// The connection is broken: exit the loop with an error.
    Stop,
}

/// The state the event loop carries: the active rule set, the
/// deduplication flag, and whether the config file is watched.
pub struct Engine {
    pub config: Config,
    pub deduplicate: bool,
    pub watch: WatchState,
}

/// The rule set after a reload outcome: the newly loaded one for
/// content that was read, the previous one where the read failed.
pub open spec fn spec_reload(prev: ConfigView, content: Option<Seq<char>>) -> ConfigView {
    match content {
        Some(s) => spec_from_user_content(s),
        None => prev,
    }
}

impl Engine {
    /// Start the engine: the initial rule set comes from the initial
    /// read of the config file (the default rule set where there was
    /// none), and the file is watched exactly when it was there to
    /// watch at startup.
    pub fn new(initial_content: Option<&String>, path_watchable: bool, deduplicate: bool) -> (e:
        Engine)
        ensures
            e.config@ == spec_from_read_result(spec_opt_view(initial_content)),
            e.deduplicate == deduplicate,
            e.watch == (if path_watchable {
                WatchState::Watching
            } else {
                WatchState::Unwatched
            }),
    {
        Engine {
            config: Config::new(initial_content),
            deduplicate,
            watch: if path_watchable {
                WatchState::Watching
            } else {
                WatchState::Unwatched
            },
        }
    }

    /// One step of the event loop: a config change swaps the active
    /// rule set (keeping the previous one where the re-read failed)
    /// and always refreshes; a window event refreshes exactly when
    /// its change kind is relevant; a connection error stops the
    /// loop. Nothing else about the state ever changes.
    pub fn step(&mut self, event: EngineEvent) -> (a: EngineAction)
        ensures
            final(self).deduplicate == old(self).deduplicate,
            final(self).watch == old(self).watch,
            match event {
                EngineEvent::Window(k) => final(self).config == old(self).config && a == (
                if spec_triggers_update(k) {
                    EngineAction::Refresh
                } else {
                    EngineAction::Skip
                }),
                EngineEvent::ConfigChanged(content) => final(self).config@ == spec_reload(
                    old(self).config@,
                    match content {
                        Some(s) => Some(s@),
                        None => None,
                    },
                ) && a == EngineAction::Refresh,
                EngineEvent::ConnectionError => final(self).config == old(self).config && a
                    == EngineAction::Stop,
            },
    {
        match event {
            EngineEvent::Window(k) => {
                if k.triggers_update() {
                    EngineAction::Refresh
                } else {
                    EngineAction::Skip
                }
            },
            EngineEvent::ConfigChanged(content) => {
                match content {
                    Some(content) => {
                        self.config = Config::from_user_content(&content);
                    },
                    None => {},
                }
                EngineAction::Refresh
            },
            EngineEvent::ConnectionError => EngineAction::Stop,
        }
    }
}

} // verus!
