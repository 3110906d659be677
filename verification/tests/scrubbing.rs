//! Engine-level behaviour: loading, ticking header then body, pause, manual
//! stepping with checkpoints, and exact restore round-trips.

use git_logue::commit::{CommitMetadata, DiffLine, FileChange, LineKind};
use git_logue::cursor::Position;
use git_logue::engine::{PlaybackEngine, StepGranularity};
use git_logue::speed::{SpeedRuleSet, LINE_PAUSE_MS};

fn diff_line(text: &str) -> DiffLine {
    DiffLine { kind: LineKind::Added, text: text.to_string() }
}

/// A commit with two files of three and two diff lines.
fn two_file_commit() -> CommitMetadata {
    CommitMetadata {
        id: "c0ffee".to_string(),
        summary: "s".to_string(),
        files: vec![
            FileChange {
                path: "first.rs".to_string(),
                lines: vec![diff_line("one"), diff_line("two"), diff_line("three")],
            },
            FileChange {
                path: "second.rs".to_string(),
                lines: vec![diff_line("four"), diff_line("five")],
            },
        ],
    }
}

fn loaded_engine() -> PlaybackEngine {
    let mut e = PlaybackEngine::new(SpeedRuleSet::new(10));
    e.load(&two_file_commit());
    e
}

#[test]
fn five_line_steps_forward_and_back_return_to_the_origin() {
    let mut e = loaded_engine();
    assert!(!e.is_finished());
    for _ in 0..5 {
        assert!(e.manual_step(StepGranularity::Line));
    }
    assert!(e.is_finished());
    for _ in 0..5 {
        assert!(e.restore_line_checkpoint());
    }
    assert_eq!(e.body.pos, Position { unit: 0, line: 0, ch: 0 });
    assert_eq!(e.line_checkpoints.len(), 0);
    assert_eq!(e.change_checkpoints.len(), 0);
}

#[test]
fn line_steps_walk_line_and_file_boundaries() {
    let mut e = loaded_engine();
    e.manual_step(StepGranularity::Line);
    assert_eq!(e.body.pos, Position { unit: 0, line: 1, ch: 0 });
    e.manual_step(StepGranularity::Line);
    assert_eq!(e.body.pos, Position { unit: 0, line: 2, ch: 0 });
    e.manual_step(StepGranularity::Line);
    assert_eq!(e.body.pos, Position { unit: 1, line: 0, ch: 0 });
    assert_eq!(e.current_file_index(), 1);
}

#[test]
fn change_steps_round_trip_across_files() {
    let mut e = loaded_engine();
    assert!(e.manual_step(StepGranularity::Change));
    assert_eq!(e.body.pos, Position { unit: 1, line: 0, ch: 0 });
    assert!(e.manual_step(StepGranularity::Change));
    assert!(e.is_finished());
    assert!(!e.manual_step(StepGranularity::Change));
    assert!(e.restore_change_checkpoint());
    assert!(e.restore_change_checkpoint());
    assert_eq!(e.body.pos, Position { unit: 0, line: 0, ch: 0 });
    assert_eq!(e.change_checkpoints.len(), 0);
}

#[test]
fn step_at_terminal_pushes_no_checkpoint() {
    let mut e = loaded_engine();
    for _ in 0..5 {
        e.manual_step(StepGranularity::Line);
    }
    assert!(e.is_finished());
    assert!(!e.manual_step(StepGranularity::Line));
    assert_eq!(e.line_checkpoints.len(), 5);
}

#[test]
fn restoring_an_empty_stack_is_a_silent_no_op() {
    let mut e = loaded_engine();
    let before = e.body.pos;
    assert!(!e.restore_line_checkpoint());
    assert!(!e.restore_change_checkpoint());
    assert_eq!(e.body.pos, before);
}

#[test]
fn the_two_granularities_keep_separate_stacks() {
    let mut e = loaded_engine();
    e.manual_step(StepGranularity::Line);
    e.manual_step(StepGranularity::Change);
    assert_eq!(e.line_checkpoints.len(), 1);
    assert_eq!(e.change_checkpoints.len(), 1);
    assert!(e.restore_line_checkpoint());
    assert_eq!(e.body.pos, Position { unit: 0, line: 0, ch: 0 });
    assert_eq!(e.change_checkpoints.len(), 1);
}

#[test]
fn paused_ticks_change_nothing_and_report_no_redraw() {
    let mut e = loaded_engine();
    e.tick(0);
    e.pause();
    let header_before = e.header.pos;
    let body_before = e.body.pos;
    assert!(!e.tick(1000000));
    assert!(!e.tick(2000000));
    assert_eq!(e.header.pos, header_before);
    assert_eq!(e.body.pos, body_before);
}

#[test]
fn resuming_does_not_replay_time_skipped_while_paused() {
    let mut e = loaded_engine();
    e.tick(0);
    e.pause();
    e.tick(1000000);
    e.resume();
    // The first tick after resume only restarts the clock.
    assert!(!e.tick(1000000));
    let pos = e.header.pos;
    assert!(e.tick(1000010));
    assert_ne!(e.header.pos, pos);
}

#[test]
fn header_types_before_the_body() {
    let mut e = loaded_engine();
    assert!(!e.tick(0));
    // one 10 ms character of the one-character summary
    assert!(e.tick(10));
    assert_eq!(e.header.pos.ch, 1);
    assert_eq!(e.body.pos, Position { unit: 0, line: 0, ch: 0 });
    // the header's closing line pause
    assert!(e.tick(10 + LINE_PAUSE_MS));
    // only now does the body start revealing
    assert!(e.tick(20 + LINE_PAUSE_MS));
    assert_eq!(e.body.pos.ch, 1);
}

#[test]
fn finished_is_exactly_the_terminal_body_position() {
    let mut e = PlaybackEngine::new(SpeedRuleSet::new(10));
    // no commit loaded: the empty body is fully revealed
    assert!(e.is_finished());
    e.load(&two_file_commit());
    assert!(!e.is_finished());
    for _ in 0..2 {
        e.manual_step(StepGranularity::Change);
    }
    assert_eq!(e.body.pos.unit, 2);
    assert!(e.is_finished());
    e.restore_change_checkpoint();
    assert!(!e.is_finished());
}

#[test]
fn a_commit_of_empty_files_is_finished_at_load() {
    let mut e = PlaybackEngine::new(SpeedRuleSet::new(10));
    let c = CommitMetadata {
        id: "e".to_string(),
        summary: "empty".to_string(),
        files: vec![FileChange { path: "a".to_string(), lines: vec![] }],
    };
    e.load(&c);
    assert!(e.is_finished());
}

#[test]
fn loading_clears_checkpoints_and_pause() {
    let mut e = loaded_engine();
    e.manual_step(StepGranularity::Line);
    e.pause();
    e.load(&two_file_commit());
    assert_eq!(e.line_checkpoints.len(), 0);
    assert_eq!(e.change_checkpoints.len(), 0);
    assert!(!e.paused);
    assert_eq!(e.body.pos, Position { unit: 0, line: 0, ch: 0 });
}

#[test]
fn viewport_setters_only_touch_the_metrics() {
    let mut e = loaded_engine();
    let pos = e.body.pos;
    e.set_viewport_height(42);
    e.set_content_width(120);
    assert_eq!(e.viewport_height, 42);
    assert_eq!(e.content_width, 120);
    assert_eq!(e.body.pos, pos);
}
