//! The top-level UI facade: the playback engine, the pane markers, and the
//! commit currently on display. The event loop, the terminal setup and the
//! actual drawing live with the terminal front end outside this crate; the
//! facade holds the state they read and the flag that ends the loop.

use vstd::prelude::*;

use crate::commit::CommitMetadata;
use crate::engine::{loaded, PlaybackEngine};
use crate::panes::{EditorPane, FileTreePane, StatusBarPane, TerminalPane};
use crate::speed::SpeedRuleSet;

verus! {

/// The UI state: panes, engine, the displayed commit, and the quit flag.
pub struct UI {
    pub should_quit: bool,
    pub file_tree: FileTreePane,
    pub editor: EditorPane,
    pub terminal: TerminalPane,
    pub status_bar: StatusBarPane,
    pub engine: PlaybackEngine,
    pub metadata: Option<CommitMetadata>,
}

impl UI {
    pub open spec fn wf(&self) -> bool {
        self.engine.wf()
    }

    /// A fresh UI whose engine reveals one character every `speed_ms`
    /// milliseconds (clamped to the accepted maximum), with no speed rules
    /// and no commit loaded.
    pub fn new(speed_ms: u64) -> (ui: Self)
        ensures
            ui.wf(),
            !ui.should_quit,
            ui.metadata is None,
            ui.engine.rules.rules@.len() == 0,
            ui.engine.rules.base_ms == if speed_ms <= crate::speed::MAX_INTERVAL_MS {
                speed_ms
            } else {
                crate::speed::MAX_INTERVAL_MS
            },
            ui.engine.header.units@.len() == 0,
            ui.engine.body.units@.len() == 0,
            ui.engine.line_checkpoints@.len() == 0,
            ui.engine.change_checkpoints@.len() == 0,
            !ui.engine.paused,
            ui.engine.last_tick_ms is None,
            ui.engine.is_finished_spec(),
    {
        UI {
            should_quit: false,
            file_tree: FileTreePane,
            editor: EditorPane,
            terminal: TerminalPane,
            status_bar: StatusBarPane,
            engine: PlaybackEngine::new(SpeedRuleSet::new(speed_ms)),
            metadata: None,
        }
    }

    /// Loads a commit into the engine and keeps it for the panes to read.
    pub fn load_commit(&mut self, metadata: CommitMetadata)
        requires
            old(self).wf(),
        ensures
            final(self).wf(),
            loaded(final(self).engine, old(self).engine, metadata),
            final(self).metadata == Some(metadata),
            final(self).should_quit == old(self).should_quit,
    {
        self.engine.load(&metadata);
        self.metadata = Some(metadata);
    }

    /// Asks the event loop to end after the current iteration.
    pub fn request_quit(&mut self)
        ensures
            *final(self) == (UI { should_quit: true, ..*old(self) }),
    {
        self.should_quit = true;
    }

    /// Whether the event loop should end.
    pub fn should_quit(&self) -> (r: bool)
        ensures
            r == self.should_quit,
    {
        self.should_quit
    }
}

} // verus!
