//! The session controller: a modal state machine around one playback engine
//! and the session history. It interprets input per modal state, drives the
//! engine's tick, moves to an inter-commit wait when the body finishes while
//! a commit source exists, and decides how the next commit is requested from
//! the external source — the source itself is an outside collaborator, so
//! every fetch is expressed as a request the caller performs, whose outcome
//! is handed back through `on_fetch_success` and `on_fetch_failure`.

use vstd::prelude::*;

use crate::commit::CommitMetadata;
use crate::engine::{
    change_restored, line_restored, loaded, manual_stepped, tick_moved, ticked, PlaybackEngine,
    StepGranularity,
};
use crate::history::{history_next, history_prev, History};
use crate::speed::SpeedRuleSet;

verus! {

/// Manual play/pause, orthogonal to the modal state.
#[derive(Clone, Copy, Debug, PartialEq, Eq, Structural)]
pub enum PlaybackState {
    Playing,
    Paused,
}

/// The controller's top-level mode.
#[derive(Clone, Copy, Debug, PartialEq, Eq, Structural)]
pub enum ModalState {
    Playing,
    WaitingForNext { resume_at: u64 },
    Menu,
    KeyBindings,
    About,
    Finished,
}

/// The traversal order the commit source is asked to follow.
#[derive(Clone, Copy, Debug, PartialEq, Eq, Structural)]
pub enum Traversal {
    Random,
    Ascending,
    Descending,
}

/// The recognized configuration surface, as loaded by an external loader.
#[derive(Clone, Copy, Debug, PartialEq, Eq, Structural)]
pub struct SessionConfig {
    /// Whether any commit source is configured at all.
    pub source_present: bool,
    /// Whether a working-tree diff mode is configured; it then takes
    /// precedence over ordered traversal.
    pub working_tree: bool,
    pub order: Traversal,
    /// Whether traversal is restricted to a commit range.
    pub ranged: bool,
    /// Whether an exhausted traversal is rewound and retried once.
    pub loop_on_exhaustion: bool,
}

/// What the caller must ask the commit source for.
#[derive(Clone, Copy, Debug, PartialEq, Eq, Structural)]
pub enum FetchRequest {
    WorkingTree,
    Next { order: Traversal, ranged: bool },
}

/// What to do after the source reported a failed fetch: rewind the source's
/// internal cursor with `reset_index` and retry with the given request, or
/// stop — the session is finished.
#[derive(Clone, Copy, Debug, PartialEq, Eq, Structural)]
pub enum FetchDirective {
    RetryAfterReset { request: FetchRequest },
    Stop,
}

/// One input command, already decoded from the terminal by the caller.
#[derive(Clone, Copy, Debug, PartialEq, Eq, Structural)]
pub enum Key {
    Quit,
    ForceQuit,
    Esc,
    Space,
    StepLineBack,
    StepLineFwd,
    StepChangeBack,
    StepChangeFwd,
    HistPrev,
    HistNext,
    Up,
    Down,
    Enter,
    Other,
}

/// What one tick of the controller produced: whether a redraw is needed and,
/// possibly, a fetch request the caller must perform against the source.
#[derive(Clone, Copy, Debug, PartialEq, Eq)]
pub struct TickOutcome {
    pub redraw: bool,
    pub request: Option<FetchRequest>,
}

/// The number of menu entries: key bindings, about, quit.
pub const MENU_ITEMS: usize = 3;

/// The fixed multiplier applied to the base speed to derive the inter-commit
/// wait.
pub const NEXT_COMMIT_DELAY_FACTOR: u64 = 40;

/// The request the configuration calls for: the working-tree diff when that
/// mode is configured, the next commit in traversal order otherwise.
pub open spec fn request_spec(cfg: SessionConfig) -> FetchRequest {
    if cfg.working_tree {
        FetchRequest::WorkingTree
    } else {
        FetchRequest::Next { order: cfg.order, ranged: cfg.ranged }
    }
}

/// When a wait that starts at `now_ms` ends: the base interval times the
/// fixed delay factor later (saturating).
pub open spec fn wait_deadline(now_ms: u64, base_ms: u64) -> u64 {
    if now_ms + base_ms * NEXT_COMMIT_DELAY_FACTOR <= u64::MAX {
        (now_ms + base_ms * NEXT_COMMIT_DELAY_FACTOR) as u64
    } else {
        u64::MAX
    }
}

/// Whether a modal state is non-modal ("live"): the engine runs or waits, no
/// menu or dialog covers it.
pub open spec fn is_live(m: ModalState) -> bool {
    m is Playing || m is WaitingForNext
}

/// The modal state one tick at `now_ms` leaves a playing session in: when
/// the tick finds both streams fully revealed while autoplay is on, the
/// session moves to the inter-commit wait if a source is configured and
/// finishes outright if none is; otherwise it stays playing.
pub open spec fn modal_after_playing_tick(s: SessionController, now_ms: u64) -> ModalState {
    let e2 = ticked(s.engine, now_ms);
    let done = crate::cursor::pos_terminal(e2.header.script(), e2.header.pos)
        && crate::cursor::pos_terminal(e2.body.script(), e2.body.pos);
    if done && s.playback is Playing {
        if s.config.source_present {
            ModalState::WaitingForNext {
                resume_at: wait_deadline(now_ms, s.engine.rules.base_ms),
            }
        } else {
            ModalState::Finished
        }
    } else {
        ModalState::Playing
    }
}

/// With no commit source configured, a tick that finds the body stream fully
/// revealed (and the header before it, so the reveal is not still mid-
/// flight) while autoplay is on moves a playing session straight to
/// Finished — never through the inter-commit wait.
pub proof fn lemma_finished_without_source(s: SessionController, now_ms: u64)
    requires
        s.modal is Playing,
        s.playback is Playing,
        !s.config.source_present,
        crate::cursor::pos_terminal(s.engine.header.script(), s.engine.header.pos),
        crate::cursor::pos_terminal(s.engine.body.script(), s.engine.body.pos),
    ensures
        modal_after_playing_tick(s, now_ms) is Finished,
{
}

/// The session controller.
pub struct SessionController {
    pub engine: PlaybackEngine,
    pub history: History,
    pub playback: PlaybackState,
    pub modal: ModalState,
    /// The state to return to when the menu is dismissed; at most one entry.
    pub saved_modal: Option<ModalState>,
    pub menu_selected: usize,
    pub config: SessionConfig,
    /// Whether the running advance attempt already failed once.
    pub pending_retry: bool,
}

impl SessionController {
    pub open spec fn wf(&self) -> bool {
        &&& self.engine.wf()
        &&& self.history.wf()
        &&& self.menu_selected < MENU_ITEMS
    }

    /// A fresh controller in the playing state over the given configuration
    /// and speed rules.
    pub fn new(config: SessionConfig, rules: SpeedRuleSet) -> (s: Self)
        requires
            rules.wf(),
        ensures
            s.wf(),
            s.config == config,
            s.engine.rules == rules,
            s.engine.header.units@.len() == 0,
            s.engine.body.units@.len() == 0,
            s.engine.line_checkpoints@.len() == 0,
            s.engine.change_checkpoints@.len() == 0,
            !s.engine.paused,
            s.engine.last_tick_ms is None,
            s.engine.is_finished_spec(),
            s.playback is Playing,
            s.modal is Playing,
            s.saved_modal is None,
            s.menu_selected == 0,
            !s.pending_retry,
            s.history.entries@.len() == 0,
    {
        SessionController {
            engine: PlaybackEngine::new(rules),
            history: History::new(),
            playback: PlaybackState::Playing,
            modal: ModalState::Playing,
            saved_modal: None,
            menu_selected: 0,
            config,
            pending_retry: false,
        }
    }

    /// The request the configuration calls for.
    fn make_request(&self) -> (r: FetchRequest)
        ensures
            r == request_spec(self.config),
    {
        if self.config.working_tree {
            FetchRequest::WorkingTree
        } else {
            FetchRequest::Next { order: self.config.order, ranged: self.config.ranged }
        }
    }

    /// One controller tick. A cancellation request finishes the session at
    /// once. In the playing state the engine is ticked; when that leaves the
    /// whole commit revealed while autoplay is on, the controller moves to
    /// the inter-commit wait if a source is configured and straight to
    /// `Finished` if none is. In the waiting state, once the deadline passes
    /// while autoplay is on, a fetch request is produced for the caller.
    /// Menus, dialogs and the finished state ignore ticks.
    pub fn tick(&mut self, now_ms: u64, cancel: bool) -> (out: TickOutcome)
        requires
            old(self).wf(),
        ensures
            final(self).wf(),
            cancel ==> *final(self) == (SessionController { modal: ModalState::Finished, ..*old(self) })
                && !out.redraw && out.request is None,
            !cancel && !(old(self).modal is Playing) && !(old(self).modal is WaitingForNext)
                ==> *final(self) == *old(self) && !out.redraw && out.request is None,
            !cancel && old(self).modal is Playing ==> final(self).modal
                == modal_after_playing_tick(*old(self), now_ms),
            !cancel && old(self).modal is Playing ==> {
                let e2 = ticked(old(self).engine, now_ms);
                let done = crate::cursor::pos_terminal(e2.header.script(), e2.header.pos)
                    && crate::cursor::pos_terminal(e2.body.script(), e2.body.pos);
                &&& out.redraw == tick_moved(old(self).engine, now_ms)
                &&& out.request is None
                &&& (done && old(self).playback is Playing && old(self).config.source_present
                    ==> *final(self) == (SessionController {
                    engine: e2,
                    modal: ModalState::WaitingForNext {
                        resume_at: wait_deadline(now_ms, old(self).engine.rules.base_ms),
                    },
                    ..*old(self)
                }))
                &&& (done && old(self).playback is Playing && !old(self).config.source_present
                    ==> *final(self) == (SessionController {
                    engine: e2,
                    modal: ModalState::Finished,
                    ..*old(self)
                }))
                &&& (!(done && old(self).playback is Playing) ==> *final(self)
                    == (SessionController { engine: e2, ..*old(self) }))
            },
            !cancel ==> (old(self).modal matches ModalState::WaitingForNext { resume_at } ==> {
                &&& !out.redraw
                &&& (now_ms >= resume_at && old(self).playback is Playing ==> *final(self)
                    == (SessionController { pending_retry: false, ..*old(self) }) && out.request
                    == Some(request_spec(old(self).config)))
                &&& (!(now_ms >= resume_at && old(self).playback is Playing) ==> *final(self)
                    == *old(self) && out.request is None)
            }),
    {
        if cancel {
            self.modal = ModalState::Finished;
            return TickOutcome { redraw: false, request: None };
        }
        match self.modal {
            ModalState::Playing => {
                let redraw = self.engine.tick(now_ms);
                let header_done = self.engine.header.is_finished();
                let body_done = self.engine.is_finished();
                if header_done && body_done && matches!(self.playback, PlaybackState::Playing) {
                    if self.config.source_present {
                        let base = self.engine.rules.base_ms;
                        let resume_at = now_ms.saturating_add(base * NEXT_COMMIT_DELAY_FACTOR);
                        self.modal = ModalState::WaitingForNext { resume_at };
                    } else {
                        self.modal = ModalState::Finished;
                    }
                }
                TickOutcome { redraw, request: None }
            },
            ModalState::WaitingForNext { resume_at } => {
                if now_ms >= resume_at && matches!(self.playback, PlaybackState::Playing) {
                    self.pending_retry = false;
                    TickOutcome { redraw: false, request: Some(self.make_request()) }
                } else {
                    TickOutcome { redraw: false, request: None }
                }
            },
            _ => TickOutcome { redraw: false, request: None },
        }
    }

    /// The caller fetched a commit successfully: it is loaded into the
    /// engine, recorded as a new history entry (truncating stale forward
    /// entries), and playback starts on it.
    pub fn on_fetch_success(&mut self, c: CommitMetadata)
        requires
            old(self).wf(),
        ensures
            final(self).wf(),
            loaded(final(self).engine, old(self).engine, c),
            final(self).history.entries@ == old(self).history.kept_entries().push(c),
            final(self).history.index + 1 == final(self).history.entries@.len(),
            final(self).modal is Playing,
            final(self).playback is Playing,
            !final(self).pending_retry,
            final(self).saved_modal == old(self).saved_modal,
            final(self).menu_selected == old(self).menu_selected,
            final(self).config == old(self).config,
    {
        self.engine.load(&c);
        self.history.record(c);
        self.modal = ModalState::Playing;
        self.playback = PlaybackState::Playing;
        self.pending_retry = false;
    }

    /// The caller's fetch failed (the traversal is exhausted, or the
    /// working-tree diff is empty or unavailable). A working-tree failure
    /// finishes the session. An exhausted traversal is retried exactly once
    /// when looping is enabled: the caller must rewind the source with
    /// `reset_index` and fetch again; a second failure finishes the session
    /// instead of retrying forever.
    pub fn on_fetch_failure(&mut self) -> (d: FetchDirective)
        requires
            old(self).wf(),
        ensures
            final(self).wf(),
            old(self).config.working_tree ==> *final(self) == (SessionController {
                modal: ModalState::Finished,
                ..*old(self)
            }) && d is Stop,
            !old(self).config.working_tree && old(self).config.loop_on_exhaustion && !old(
                self,
            ).pending_retry ==> *final(self) == (SessionController {
                pending_retry: true,
                ..*old(self)
            }) && d == (FetchDirective::RetryAfterReset { request: request_spec(old(self).config) }),
            !old(self).config.working_tree && !(old(self).config.loop_on_exhaustion && !old(
                self,
            ).pending_retry) ==> *final(self) == (SessionController {
                modal: ModalState::Finished,
                ..*old(self)
            }) && d is Stop,
    {
        if self.config.working_tree {
            self.modal = ModalState::Finished;
            FetchDirective::Stop
        } else if self.config.loop_on_exhaustion && !self.pending_retry {
            self.pending_retry = true;
            FetchDirective::RetryAfterReset { request: self.make_request() }
        } else {
            self.modal = ModalState::Finished;
            FetchDirective::Stop
        }
    }

    /// The commit currently displayed, if any.
    pub fn current_commit(&self) -> (r: Option<&CommitMetadata>)
        requires
            self.wf(),
        ensures
            self.history.entries@.len() > 0 ==> r == Some(
                &self.history.entries@[self.history.index as int],
            ),
            self.history.entries@.len() == 0 ==> r is None,
    {
        self.history.current()
    }

    /// Dispatches one input command according to the modal state. The result
    /// is a fetch request only when forward history navigation falls through
    /// to the commit source; history replay itself never produces one.
    #[verifier::rlimit(60)]
    pub fn handle_key(&mut self, key: Key) -> (req: Option<FetchRequest>)
        requires
            old(self).wf(),
        ensures
            final(self).wf(),
            old(self).modal is Finished ==> *final(self) == *old(self) && req is None,
            !(old(self).modal is Finished) && key is ForceQuit ==> *final(self)
                == (SessionController { modal: ModalState::Finished, ..*old(self) }) && req is None,
            is_live(old(self).modal) && key is Quit ==> *final(self) == (SessionController {
                modal: ModalState::Finished,
                ..*old(self)
            }) && req is None,
            is_live(old(self).modal) && key is Esc ==> *final(self) == (SessionController {
                modal: ModalState::Menu,
                saved_modal: Some(old(self).modal),
                menu_selected: 0,
                engine: (PlaybackEngine { paused: true, ..old(self).engine }),
                ..*old(self)
            }) && req is None,
            is_live(old(self).modal) && key is Space && old(self).playback is Playing
                ==> *final(self) == (SessionController {
                playback: PlaybackState::Paused,
                engine: (PlaybackEngine { paused: true, ..old(self).engine }),
                ..*old(self)
            }) && req is None,
            is_live(old(self).modal) && key is Space && old(self).playback is Paused
                ==> *final(self) == (SessionController {
                playback: PlaybackState::Playing,
                engine: (PlaybackEngine { paused: false, last_tick_ms: None, ..old(self).engine }),
                ..*old(self)
            }) && req is None,
            old(self).modal is Playing && key is StepLineFwd ==> *final(self)
                == (SessionController {
                playback: PlaybackState::Paused,
                engine: final(self).engine,
                ..*old(self)
            }) && manual_stepped(
                final(self).engine,
                (PlaybackEngine { paused: true, ..old(self).engine }),
                StepGranularity::Line,
                !crate::cursor::pos_terminal(old(self).engine.body.script(), old(self).engine.body.pos),
            ) && req is None,
            old(self).modal is Playing && key is StepChangeFwd ==> *final(self)
                == (SessionController {
                playback: PlaybackState::Paused,
                engine: final(self).engine,
                ..*old(self)
            }) && manual_stepped(
                final(self).engine,
                (PlaybackEngine { paused: true, ..old(self).engine }),
                StepGranularity::Change,
                !crate::cursor::pos_terminal(old(self).engine.body.script(), old(self).engine.body.pos),
            ) && req is None,
            old(self).modal is Playing && key is StepLineBack ==> *final(self)
                == (SessionController {
                playback: PlaybackState::Paused,
                engine: final(self).engine,
                ..*old(self)
            }) && line_restored(
                final(self).engine,
                (PlaybackEngine { paused: true, ..old(self).engine }),
                old(self).engine.line_checkpoints@.len() > 0,
            ) && req is None,
            old(self).modal is Playing && key is StepChangeBack ==> *final(self)
                == (SessionController {
                playback: PlaybackState::Paused,
                engine: final(self).engine,
                ..*old(self)
            }) && change_restored(
                final(self).engine,
                (PlaybackEngine { paused: true, ..old(self).engine }),
                old(self).engine.change_checkpoints@.len() > 0,
            ) && req is None,
            is_live(old(self).modal) && key is HistPrev ==> req is None && (if old(
                self,
            ).history.entries@.len() > 0 && old(self).history.index > 0 {
                *final(self) == (SessionController {
                    history: history_prev(old(self).history),
                    engine: final(self).engine,
                    playback: PlaybackState::Playing,
                    modal: ModalState::Playing,
                    ..*old(self)
                }) && loaded(
                    final(self).engine,
                    old(self).engine,
                    old(self).history.entries@[old(self).history.index - 1],
                )
            } else {
                *final(self) == *old(self)
            }),
            is_live(old(self).modal) && key is HistNext ==> (if old(self).history.entries@.len() > 0
                && old(self).history.index + 1 < old(self).history.entries@.len() {
                *final(self) == (SessionController {
                    history: history_next(old(self).history),
                    engine: final(self).engine,
                    playback: PlaybackState::Playing,
                    modal: ModalState::Playing,
                    ..*old(self)
                }) && loaded(
                    final(self).engine,
                    old(self).engine,
                    old(self).history.entries@[old(self).history.index + 1],
                ) && req is None
            } else if old(self).config.source_present {
                *final(self) == (SessionController { pending_retry: false, ..*old(self) }) && req
                    == Some(request_spec(old(self).config))
            } else {
                *final(self) == *old(self) && req is None
            }),
            old(self).modal is Menu && key is Esc ==> *final(self) == (SessionController {
                modal: match old(self).saved_modal {
                    Some(m) => m,
                    None => ModalState::Playing,
                },
                saved_modal: None,
                engine: if old(self).playback is Playing {
                    (PlaybackEngine { paused: false, last_tick_ms: None, ..old(self).engine })
                } else {
                    old(self).engine
                },
                ..*old(self)
            }) && req is None,
            old(self).modal is Menu && key is Quit ==> *final(self) == (SessionController {
                modal: ModalState::Finished,
                ..*old(self)
            }) && req is None,
            old(self).modal is Menu && key is Up ==> *final(self) == (SessionController {
                menu_selected: if old(self).menu_selected > 0 {
                    (old(self).menu_selected - 1) as usize
                } else {
                    0
                },
                ..*old(self)
            }) && req is None,
            old(self).modal is Menu && key is Down ==> *final(self) == (SessionController {
                menu_selected: if old(self).menu_selected + 1 < MENU_ITEMS {
                    (old(self).menu_selected + 1) as usize
                } else {
                    old(self).menu_selected
                },
                ..*old(self)
            }) && req is None,
            old(self).modal is Menu && key is Enter ==> *final(self) == (SessionController {
                modal: if old(self).menu_selected == 0 {
                    ModalState::KeyBindings
                } else if old(self).menu_selected == 1 {
                    ModalState::About
                } else {
                    ModalState::Finished
                },
                ..*old(self)
            }) && req is None,
            (old(self).modal is KeyBindings || old(self).modal is About) && (key is Esc || key
                is Enter || key is Quit) ==> *final(self) == (SessionController {
                modal: ModalState::Menu,
                ..*old(self)
            }) && req is None,
            is_live(old(self).modal) && (key is Up || key is Down || key is Enter || key is Other)
                ==> *final(self) == *old(self) && req is None,
            old(self).modal is WaitingForNext && (key is StepLineFwd || key is StepLineBack || key
                is StepChangeFwd || key is StepChangeBack) ==> *final(self) == *old(self) && req
                is None,
            old(self).modal is Menu && (key is Space || key is StepLineFwd || key is StepLineBack
                || key is StepChangeFwd || key is StepChangeBack || key is HistPrev || key
                is HistNext || key is Other) ==> *final(self) == *old(self) && req is None,
            (old(self).modal is KeyBindings || old(self).modal is About) && (key is Space || key
                is StepLineFwd || key is StepLineBack || key is StepChangeFwd || key
                is StepChangeBack || key is HistPrev || key is HistNext || key is Up || key is Down
                || key is Other) ==> *final(self) == *old(self) && req is None,
    {
        match self.modal {
            ModalState::Finished => None,
            ModalState::Playing | ModalState::WaitingForNext { .. } => {
                let live_playing = matches!(self.modal, ModalState::Playing);
                match key {
                    Key::Quit | Key::ForceQuit => {
                        self.modal = ModalState::Finished;
                        None
                    },
                    Key::Esc => {
                        self.saved_modal = Some(self.modal);
                        self.modal = ModalState::Menu;
                        self.menu_selected = 0;
                        self.engine.pause();
                        None
                    },
                    Key::Space => {
                        if matches!(self.playback, PlaybackState::Playing) {
                            self.playback = PlaybackState::Paused;
                            self.engine.pause();
                        } else {
                            self.playback = PlaybackState::Playing;
                            self.engine.resume();
                        }
                        None
                    },
                    Key::StepLineFwd => {
                        if live_playing {
                            self.playback = PlaybackState::Paused;
                            self.engine.pause();
                            self.engine.manual_step(StepGranularity::Line);
                        }
                        None
                    },
                    Key::StepChangeFwd => {
                        if live_playing {
                            self.playback = PlaybackState::Paused;
                            self.engine.pause();
                            self.engine.manual_step(StepGranularity::Change);
                        }
                        None
                    },
                    Key::StepLineBack => {
                        if live_playing {
                            self.playback = PlaybackState::Paused;
                            self.engine.pause();
                            self.engine.restore_line_checkpoint();
                        }
                        None
                    },
                    Key::StepChangeBack => {
                        if live_playing {
                            self.playback = PlaybackState::Paused;
                            self.engine.pause();
                            self.engine.restore_change_checkpoint();
                        }
                        None
                    },
                    Key::HistPrev => {
                        let moved = self.history.go_prev();
                        if moved {
                            let c = &self.history.entries[self.history.index];
                            self.engine.load(c);
                            self.playback = PlaybackState::Playing;
                            self.modal = ModalState::Playing;
                        }
                        None
                    },
                    Key::HistNext => {
                        proof {
                            assert(self.history.entries.len() == self.history.entries@.len());
                        }
                        let moved = self.history.go_next();
                        if moved {
                            let c = &self.history.entries[self.history.index];
                            self.engine.load(c);
                            self.playback = PlaybackState::Playing;
                            self.modal = ModalState::Playing;
                            None
                        } else if self.config.source_present {
                            self.pending_retry = false;
                            Some(self.make_request())
                        } else {
                            None
                        }
                    },
                    _ => None,
                }
            },
            ModalState::Menu => {
                match key {
                    Key::ForceQuit | Key::Quit => {
                        self.modal = ModalState::Finished;
                        None
                    },
                    Key::Esc => {
                        self.modal = match self.saved_modal {
                            Some(m) => m,
                            None => ModalState::Playing,
                        };
                        self.saved_modal = None;
                        if matches!(self.playback, PlaybackState::Playing) {
                            self.engine.resume();
                        }
                        None
                    },
                    Key::Up => {
                        if self.menu_selected > 0 {
                            self.menu_selected = self.menu_selected - 1;
                        }
                        None
                    },
                    Key::Down => {
                        if self.menu_selected + 1 < MENU_ITEMS {
                            self.menu_selected = self.menu_selected + 1;
                        }
                        None
                    },
                    Key::Enter => {
                        self.modal = if self.menu_selected == 0 {
                            ModalState::KeyBindings
                        } else if self.menu_selected == 1 {
                            ModalState::About
                        } else {
                            ModalState::Finished
                        };
                        None
                    },
                    _ => None,
                }
            },
            ModalState::KeyBindings | ModalState::About => {
                match key {
                    Key::ForceQuit => {
                        self.modal = ModalState::Finished;
                        None
                    },
                    Key::Esc | Key::Enter | Key::Quit => {
                        self.modal = ModalState::Menu;
                        None
                    },
                    _ => None,
                }
            },
        }
    }
}

} // verus!
