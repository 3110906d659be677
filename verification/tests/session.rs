//! Controller-level behaviour: the modal state machine, history replay,
//! commit advancement with the retry-once policy, and the UI facade.

use git_logue::commit::{CommitMetadata, DiffLine, FileChange, LineKind};
use git_logue::controller::{
    FetchDirective, FetchRequest, Key, ModalState, PlaybackState, SessionConfig,
    SessionController, Traversal, NEXT_COMMIT_DELAY_FACTOR,
};
use git_logue::history::History;
use git_logue::speed::{SpeedRuleSet, LINE_PAUSE_MS};
use git_logue::ui::UI;

fn commit(id: &str) -> CommitMetadata {
    CommitMetadata {
        id: id.to_string(),
        summary: "s".to_string(),
        files: vec![FileChange {
            path: "f.rs".to_string(),
            lines: vec![DiffLine { kind: LineKind::Added, text: "line".to_string() }],
        }],
    }
}

/// A commit whose body is empty, so playback finishes as soon as the summary
/// has been typed.
fn empty_commit(id: &str) -> CommitMetadata {
    CommitMetadata { id: id.to_string(), summary: "".to_string(), files: vec![] }
}

fn config(source_present: bool, loop_on_exhaustion: bool) -> SessionConfig {
    SessionConfig {
        source_present,
        working_tree: false,
        order: Traversal::Ascending,
        ranged: false,
        loop_on_exhaustion,
    }
}

fn controller(source_present: bool, loop_on_exhaustion: bool) -> SessionController {
    SessionController::new(config(source_present, loop_on_exhaustion), SpeedRuleSet::new(10))
}

/// Ticks until the empty commit's summary line has been typed out.
fn finish_playback(c: &mut SessionController) {
    c.tick(0, false);
    c.tick(LINE_PAUSE_MS, false);
}

#[test]
fn history_replay_returns_to_the_same_commit_without_a_fetch() {
    let mut c = controller(true, false);
    c.on_fetch_success(commit("c1"));
    c.on_fetch_success(commit("c2"));
    assert!(c.handle_key(Key::HistPrev).is_none());
    assert_eq!(c.current_commit().unwrap().id, "c1");
    assert!(c.handle_key(Key::HistNext).is_none());
    assert_eq!(c.current_commit().unwrap().id, "c2");
    // and in the other order
    assert!(c.handle_key(Key::HistPrev).is_none());
    assert!(c.handle_key(Key::HistNext).is_none());
    assert_eq!(c.current_commit().unwrap().id, "c2");
}

#[test]
fn history_exhausted_backward_is_a_no_op() {
    let mut c = controller(true, false);
    c.on_fetch_success(commit("c1"));
    assert!(c.handle_key(Key::HistPrev).is_none());
    assert_eq!(c.current_commit().unwrap().id, "c1");
}

#[test]
fn forward_exhaustion_falls_through_to_the_source() {
    let mut c = controller(true, false);
    c.on_fetch_success(commit("c1"));
    let req = c.handle_key(Key::HistNext);
    assert_eq!(req, Some(FetchRequest::Next { order: Traversal::Ascending, ranged: false }));
}

#[test]
fn forward_exhaustion_without_a_source_is_a_no_op() {
    let mut c = controller(false, false);
    c.on_fetch_success(commit("c1"));
    assert!(c.handle_key(Key::HistNext).is_none());
    assert!(matches!(c.modal, ModalState::Playing));
}

#[test]
fn recording_truncates_stale_forward_history() {
    let mut h = History::new();
    h.record(commit("a"));
    h.record(commit("b"));
    h.record(commit("c"));
    assert!(h.go_prev());
    assert!(h.go_prev());
    assert_eq!(h.current().unwrap().id, "a");
    h.record(commit("d"));
    assert_eq!(h.entries.len(), 2);
    assert_eq!(h.entries[0].id, "a");
    assert_eq!(h.entries[1].id, "d");
    assert_eq!(h.current().unwrap().id, "d");
}

#[test]
fn without_a_source_a_finished_body_goes_straight_to_finished() {
    let mut c = controller(false, false);
    c.on_fetch_success(empty_commit("only"));
    c.tick(0, false);
    assert!(!matches!(c.modal, ModalState::WaitingForNext { .. }));
    c.tick(LINE_PAUSE_MS, false);
    assert!(matches!(c.modal, ModalState::Finished));
}

#[test]
fn with_a_source_a_finished_body_waits_before_fetching() {
    let mut c = controller(true, false);
    c.on_fetch_success(empty_commit("c1"));
    finish_playback(&mut c);
    let deadline = LINE_PAUSE_MS + 10 * NEXT_COMMIT_DELAY_FACTOR;
    assert_eq!(c.modal, ModalState::WaitingForNext { resume_at: deadline });
    let out = c.tick(deadline - 1, false);
    assert!(out.request.is_none());
    let out = c.tick(deadline, false);
    assert_eq!(out.request, Some(FetchRequest::Next { order: Traversal::Ascending, ranged: false }));
}

#[test]
fn exhausted_traversal_with_loop_resets_once_and_recovers() {
    let mut c = controller(true, true);
    c.on_fetch_success(empty_commit("c1"));
    finish_playback(&mut c);
    let out = c.tick(LINE_PAUSE_MS + 10 * NEXT_COMMIT_DELAY_FACTOR, false);
    let request = out.request.expect("the wait deadline has passed");
    // the source reports exhaustion once: rewind it exactly once and retry
    let directive = c.on_fetch_failure();
    assert_eq!(directive, FetchDirective::RetryAfterReset { request });
    // the retry succeeds: playback continues with the new commit
    c.on_fetch_success(commit("c2"));
    assert!(matches!(c.modal, ModalState::Playing));
    assert!(matches!(c.playback, PlaybackState::Playing));
    assert_eq!(c.current_commit().unwrap().id, "c2");
}

#[test]
fn a_second_failure_finishes_instead_of_retrying_forever() {
    let mut c = controller(true, true);
    c.on_fetch_success(empty_commit("c1"));
    finish_playback(&mut c);
    c.tick(LINE_PAUSE_MS + 10 * NEXT_COMMIT_DELAY_FACTOR, false);
    assert!(matches!(c.on_fetch_failure(), FetchDirective::RetryAfterReset { .. }));
    assert_eq!(c.on_fetch_failure(), FetchDirective::Stop);
    assert!(matches!(c.modal, ModalState::Finished));
}

#[test]
fn exhaustion_without_looping_finishes_at_once() {
    let mut c = controller(true, false);
    c.on_fetch_success(empty_commit("c1"));
    assert_eq!(c.on_fetch_failure(), FetchDirective::Stop);
    assert!(matches!(c.modal, ModalState::Finished));
}

#[test]
fn a_working_tree_failure_is_never_retried() {
    let mut cfg = config(true, true);
    cfg.working_tree = true;
    let mut c = SessionController::new(cfg, SpeedRuleSet::new(10));
    c.on_fetch_success(empty_commit("wt"));
    finish_playback(&mut c);
    let out = c.tick(LINE_PAUSE_MS + 10 * NEXT_COMMIT_DELAY_FACTOR, false);
    assert_eq!(out.request, Some(FetchRequest::WorkingTree));
    assert_eq!(c.on_fetch_failure(), FetchDirective::Stop);
    assert!(matches!(c.modal, ModalState::Finished));
}

#[test]
fn cancellation_finishes_from_any_state() {
    let mut c = controller(true, false);
    c.on_fetch_success(commit("c1"));
    let out = c.tick(0, true);
    assert!(out.request.is_none());
    assert!(matches!(c.modal, ModalState::Finished));
}

#[test]
fn quit_key_finishes_the_session() {
    let mut c = controller(true, false);
    c.on_fetch_success(commit("c1"));
    c.handle_key(Key::Quit);
    assert!(matches!(c.modal, ModalState::Finished));
    // input is ignored once finished
    assert!(c.handle_key(Key::HistNext).is_none());
    assert!(matches!(c.modal, ModalState::Finished));
}

#[test]
fn escape_opens_the_menu_and_pauses_the_engine() {
    let mut c = controller(true, false);
    c.on_fetch_success(commit("c1"));
    c.handle_key(Key::Esc);
    assert!(matches!(c.modal, ModalState::Menu));
    assert!(c.engine.paused);
    assert_eq!(c.menu_selected, 0);
    // leaving the menu returns to the prior state and resumes autoplay
    c.handle_key(Key::Esc);
    assert!(matches!(c.modal, ModalState::Playing));
    assert!(!c.engine.paused);
}

#[test]
fn menu_remembers_a_waiting_state() {
    let mut c = controller(true, false);
    c.on_fetch_success(empty_commit("c1"));
    finish_playback(&mut c);
    assert!(matches!(c.modal, ModalState::WaitingForNext { .. }));
    c.handle_key(Key::Esc);
    assert!(matches!(c.modal, ModalState::Menu));
    c.handle_key(Key::Esc);
    assert!(matches!(c.modal, ModalState::WaitingForNext { .. }));
}

#[test]
fn menu_navigation_clamps_and_opens_dialogs() {
    let mut c = controller(true, false);
    c.on_fetch_success(commit("c1"));
    c.handle_key(Key::Esc);
    c.handle_key(Key::Up);
    assert_eq!(c.menu_selected, 0);
    c.handle_key(Key::Down);
    c.handle_key(Key::Down);
    c.handle_key(Key::Down);
    assert_eq!(c.menu_selected, 2);
    c.handle_key(Key::Up);
    assert_eq!(c.menu_selected, 1);
    c.handle_key(Key::Enter);
    assert!(matches!(c.modal, ModalState::About));
    c.handle_key(Key::Esc);
    assert!(matches!(c.modal, ModalState::Menu));
    c.handle_key(Key::Up);
    c.handle_key(Key::Enter);
    assert!(matches!(c.modal, ModalState::KeyBindings));
    c.handle_key(Key::Quit);
    assert!(matches!(c.modal, ModalState::Menu));
}

#[test]
fn the_quit_menu_item_finishes_the_session() {
    let mut c = controller(true, false);
    c.on_fetch_success(commit("c1"));
    c.handle_key(Key::Esc);
    c.handle_key(Key::Down);
    c.handle_key(Key::Down);
    c.handle_key(Key::Enter);
    assert!(matches!(c.modal, ModalState::Finished));
}

#[test]
fn space_toggles_autoplay() {
    let mut c = controller(true, false);
    c.on_fetch_success(commit("c1"));
    c.handle_key(Key::Space);
    assert!(matches!(c.playback, PlaybackState::Paused));
    assert!(c.engine.paused);
    c.handle_key(Key::Space);
    assert!(matches!(c.playback, PlaybackState::Playing));
    assert!(!c.engine.paused);
}

#[test]
fn stepping_forces_pause_before_scrubbing() {
    let mut c = controller(true, false);
    c.on_fetch_success(commit("c1"));
    assert!(matches!(c.playback, PlaybackState::Playing));
    assert!(c.handle_key(Key::StepLineFwd).is_none());
    assert!(matches!(c.playback, PlaybackState::Paused));
    assert!(c.engine.paused);
    assert_eq!(c.engine.line_checkpoints.len(), 1);
    assert!(c.handle_key(Key::StepLineBack).is_none());
    assert_eq!(c.engine.line_checkpoints.len(), 0);
    assert_eq!(c.engine.body.pos.unit, 0);
    assert_eq!(c.engine.body.pos.line, 0);
}

#[test]
fn ticks_are_ignored_inside_menus() {
    let mut c = controller(true, false);
    c.on_fetch_success(commit("c1"));
    c.handle_key(Key::Esc);
    let out = c.tick(1000000, false);
    assert!(!out.redraw);
    assert!(out.request.is_none());
    assert!(matches!(c.modal, ModalState::Menu));
}

#[test]
fn ui_facade_loads_and_quits() {
    let mut ui = UI::new(50);
    assert!(!ui.should_quit());
    assert!(ui.metadata.is_none());
    ui.load_commit(commit("x"));
    assert_eq!(ui.metadata.as_ref().unwrap().id, "x");
    assert!(!ui.engine.is_finished());
    ui.request_quit();
    assert!(ui.should_quit());
}

#[test]
fn ui_clamps_an_oversized_base_speed() {
    let ui = UI::new(u64::MAX);
    assert_eq!(ui.engine.rules.base_ms, 1000000);
}
