//! Speed-rule resolution and timed stream advancement.

use git_logue::commit::LineKind;
use git_logue::cursor::Position;
use git_logue::speed::{RulePace, SpeedRule, SpeedRuleSet, LINE_PAUSE_MS, MAX_INTERVAL_MS};
use git_logue::stream::{StreamLine, StreamUnit, TypingStream};

fn removed_double_speed_rules(base: u64) -> SpeedRuleSet {
    let mut rules = SpeedRuleSet::new(base);
    let factor_hundredths = (2.0_f64 * 100.0) as u64;
    rules.push_rule(SpeedRule::factor(LineKind::Removed, None, factor_hundredths));
    rules
}

#[test]
fn removed_rule_halves_the_interval() {
    let rules = removed_double_speed_rules(50);
    assert_eq!(rules.resolve(LineKind::Removed, 10), 25);
}

#[test]
fn unmatched_kinds_fall_back_to_base() {
    let rules = removed_double_speed_rules(50);
    assert_eq!(rules.resolve(LineKind::Context, 10), 50);
    assert_eq!(rules.resolve(LineKind::Added, 10), 50);
    assert_eq!(rules.resolve(LineKind::Blank, 10), 50);
}

#[test]
fn empty_rule_list_resolves_to_base_for_every_line() {
    let rules = SpeedRuleSet::new(80);
    assert_eq!(rules.resolve(LineKind::Removed, 0), 80);
    assert_eq!(rules.resolve(LineKind::Context, 1000), 80);
}

#[test]
fn first_matching_rule_wins_over_later_ones() {
    let mut rules = SpeedRuleSet::new(50);
    rules.push_rule(SpeedRule::absolute(LineKind::Added, None, 5));
    rules.push_rule(SpeedRule::absolute(LineKind::Added, None, 99));
    assert_eq!(rules.resolve(LineKind::Added, 3), 5);
}

#[test]
fn min_length_predicate_gates_a_rule() {
    let mut rules = SpeedRuleSet::new(50);
    rules.push_rule(SpeedRule::absolute(LineKind::Added, Some(10), 5));
    assert_eq!(rules.resolve(LineKind::Added, 9), 50);
    assert_eq!(rules.resolve(LineKind::Added, 10), 5);
}

#[test]
fn rule_constructors_clamp_out_of_range_values() {
    let r = SpeedRule::absolute(LineKind::Blank, None, u64::MAX);
    assert_eq!(r.pace, RulePace::AbsoluteMs(MAX_INTERVAL_MS));
    let r = SpeedRule::factor(LineKind::Blank, None, 0);
    assert_eq!(r.pace, RulePace::FactorHundredths(1));
    let base = SpeedRuleSet::new(u64::MAX);
    assert_eq!(base.base_ms, MAX_INTERVAL_MS);
}

fn one_removed_line(text: &str) -> TypingStream {
    let lines = vec![StreamLine::new(LineKind::Removed, text.to_string())];
    TypingStream::new(vec![StreamUnit { lines }])
}

#[test]
fn removed_characters_reveal_every_25_ms_under_base_50() {
    let rules = removed_double_speed_rules(50);
    let mut s = one_removed_line("xy");
    assert!(!s.advance(24, &rules));
    assert_eq!(s.pos, Position { unit: 0, line: 0, ch: 0 });
    assert!(s.advance(1, &rules));
    assert_eq!(s.pos, Position { unit: 0, line: 0, ch: 1 });
    assert!(s.advance(25, &rules));
    assert_eq!(s.pos, Position { unit: 0, line: 0, ch: 2 });
    assert!(!s.is_finished());
}

#[test]
fn leftover_time_carries_over_without_drift() {
    let rules = SpeedRuleSet::new(10);
    let mut s = one_removed_line("abc");
    // 25 ms covers two 10 ms characters with 5 ms left over.
    assert!(s.advance(25, &rules));
    assert_eq!(s.pos.ch, 2);
    // 5 ms more completes the third interval out of the leftover.
    assert!(s.advance(5, &rules));
    assert_eq!(s.pos.ch, 3);
}

#[test]
fn line_boundary_costs_the_fixed_pause() {
    let rules = removed_double_speed_rules(50);
    let mut s = one_removed_line("xy");
    s.advance(50, &rules);
    assert_eq!(s.pos.ch, 2);
    assert!(!s.advance(LINE_PAUSE_MS - 1, &rules));
    assert!(s.advance(1, &rules));
    assert!(s.is_finished());
}

#[test]
fn advance_at_terminal_position_is_a_no_op() {
    let rules = SpeedRuleSet::new(10);
    let mut s = one_removed_line("x");
    s.advance(10 + LINE_PAUSE_MS, &rules);
    assert!(s.is_finished());
    let before = s.pos;
    assert!(!s.advance(100000, &rules));
    assert_eq!(s.pos, before);
}

fn two_unit_stream() -> TypingStream {
    let first = StreamUnit {
        lines: vec![
            StreamLine::new(LineKind::Context, "ab".to_string()),
            StreamLine::new(LineKind::Added, "cd".to_string()),
        ],
    };
    let second = StreamUnit { lines: vec![StreamLine::new(LineKind::Added, "e".to_string())] };
    TypingStream::new(vec![first, second])
}

#[test]
fn current_text_is_the_revealed_prefix() {
    let rules = SpeedRuleSet::new(10);
    let mut s = two_unit_stream();
    assert_eq!(s.current_text(), vec!["".to_string()]);
    s.advance(10, &rules);
    assert_eq!(s.current_text(), vec!["a".to_string()]);
    s.advance(10, &rules);
    assert_eq!(s.current_text(), vec!["ab".to_string()]);
    s.advance(LINE_PAUSE_MS, &rules);
    assert_eq!(s.current_text(), vec!["ab".to_string(), "".to_string()]);
    // reveal everything that is left
    s.advance(20 + LINE_PAUSE_MS + 10 + LINE_PAUSE_MS, &rules);
    assert!(s.is_finished());
    assert_eq!(
        s.current_text(),
        vec!["ab".to_string(), "cd".to_string(), "e".to_string()]
    );
}

#[test]
fn zero_elapsed_time_reveals_nothing() {
    let rules = SpeedRuleSet::new(10);
    let mut s = two_unit_stream();
    assert!(!s.advance(0, &rules));
    assert_eq!(s.pos, Position { unit: 0, line: 0, ch: 0 });
}

#[test]
fn empty_units_are_skipped_at_load() {
    let empty = StreamUnit { lines: vec![] };
    let one = StreamUnit { lines: vec![StreamLine::new(LineKind::Context, "x".to_string())] };
    let s = TypingStream::new(vec![empty, one]);
    assert_eq!(s.pos, Position { unit: 1, line: 0, ch: 0 });
    let s = TypingStream::new(vec![StreamUnit { lines: vec![] }]);
    assert!(s.is_finished());
}
