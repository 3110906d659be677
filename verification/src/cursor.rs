//! The reveal cursor and its movement over a script.
//!
//! A script is the mathematical shape of one text source: an ordered sequence
//! of units (one per changed file, or a single unit for a header message),
//! each an ordered sequence of lines with a classification and text. The
//! cursor marks how much of the script has been revealed; it moves one notch
//! at a time, either by one character or across a line boundary, and the
//! position one past the last unit is the terminal "fully revealed" position.

use vstd::prelude::*;

use crate::commit::LineKind;

verus! {

/// The shape of one line of a script: its classification and its text.
pub struct ScriptLine {
    pub kind: LineKind,
    pub text: Seq<char>,
}

/// A reveal cursor: which unit, which line of it, and how many characters of
/// that line are revealed.
#[derive(Clone, Copy, Debug, PartialEq, Eq, Structural)]
pub struct Position {
    pub unit: usize,
    pub line: usize,
    pub ch: usize,
}

/// All lengths of the script fit in `usize`, so that cursors over it can be
/// held in machine words.
pub open spec fn script_bounded(script: Seq<Seq<ScriptLine>>) -> bool {
    &&& script.len() <= usize::MAX
    &&& forall|u: int| 0 <= u < script.len() ==> (#[trigger] script[u]).len() <= usize::MAX
    &&& forall|u: int, l: int|
        0 <= u < script.len() && 0 <= l < script[u].len() ==> (#[trigger] script[u][l]).text.len()
            <= usize::MAX
}

/// The terminal position: every unit revealed.
pub open spec fn pos_terminal(script: Seq<Seq<ScriptLine>>, p: Position) -> bool {
    p.unit >= script.len()
}

/// A position the cursor may occupy: inside some line of some unit (with the
/// character index at most the line length), or exactly the terminal position.
pub open spec fn pos_valid(script: Seq<Seq<ScriptLine>>, p: Position) -> bool {
    if p.unit < script.len() {
        &&& p.line < script[p.unit as int].len()
        &&& p.ch <= script[p.unit as int][p.line as int].text.len()
    } else {
        &&& p.unit == script.len()
        &&& p.line == 0
        &&& p.ch == 0
    }
}

/// The first occupiable position at or after the start of line `l` of unit
/// `u`: empty units and the one-past-the-end line index are skipped, and the
/// terminal position results when nothing follows.
pub open spec fn line_start_from(script: Seq<Seq<ScriptLine>>, u: int, l: int) -> Position
    decreases script.len() - u,
{
    if u < 0 || u >= script.len() {
        Position { unit: script.len() as usize, line: 0, ch: 0 }
    } else if 0 <= l < script[u].len() {
        Position { unit: u as usize, line: l as usize, ch: 0 }
    } else {
        line_start_from(script, u + 1, 0)
    }
}

/// The position the cursor starts from when a script is loaded.
pub open spec fn initial_pos(script: Seq<Seq<ScriptLine>>) -> Position {
    line_start_from(script, 0, 0)
}

/// One notch of timed advancement: one more character of the current line, or
/// — when the line is exhausted — the start of the next line.
pub open spec fn notch(script: Seq<Seq<ScriptLine>>, p: Position) -> Position
    recommends
        pos_valid(script, p),
        !pos_terminal(script, p),
{
    if p.ch < script[p.unit as int][p.line as int].text.len() {
        Position { unit: p.unit, line: p.line, ch: (p.ch + 1) as usize }
    } else {
        line_start_from(script, p.unit as int, p.line + 1)
    }
}

/// A forced line step: the start of the next line, whatever the character
/// index was.
pub open spec fn line_step(script: Seq<Seq<ScriptLine>>, p: Position) -> Position
    recommends
        !pos_terminal(script, p),
{
    line_start_from(script, p.unit as int, p.line + 1)
}

/// A forced change step: the start of the next unit.
pub open spec fn change_step(script: Seq<Seq<ScriptLine>>, p: Position) -> Position
    recommends
        !pos_terminal(script, p),
{
    line_start_from(script, p.unit + 1, 0)
}

/// Notches left in one line from character index `c`: the remaining
/// characters plus the line-exit notch.
pub open spec fn line_rank(line: ScriptLine, c: int) -> nat {
    if 0 <= c <= line.text.len() {
        (line.text.len() - c + 1) as nat
    } else {
        0
    }
}

/// Notches in the lines of one unit from line index `l` on.
pub open spec fn unit_rank_from(lines: Seq<ScriptLine>, l: int) -> nat
    decreases lines.len() - l,
{
    if l < 0 || l >= lines.len() {
        0
    } else {
        line_rank(lines[l], 0) + unit_rank_from(lines, l + 1)
    }
}

/// Notches in the units of a script from unit index `u` on.
pub open spec fn script_rank_from(script: Seq<Seq<ScriptLine>>, u: int) -> nat
    decreases script.len() - u,
{
    if u < 0 || u >= script.len() {
        0
    } else {
        unit_rank_from(script[u], 0) + script_rank_from(script, u + 1)
    }
}

/// Notches between a position and the terminal position; the measure by which
/// every advancement terminates.
pub open spec fn pos_rank(script: Seq<Seq<ScriptLine>>, p: Position) -> nat {
    if p.unit >= script.len() {
        0
    } else if p.line >= script[p.unit as int].len() {
        script_rank_from(script, p.unit + 1)
    } else {
        line_rank(script[p.unit as int][p.line as int], p.ch as int) + unit_rank_from(
            script[p.unit as int],
            p.line + 1,
        ) + script_rank_from(script, p.unit + 1)
    }
}

/// Cursor order: `a` lies at or before `b` in reveal order.
pub open spec fn pos_le(a: Position, b: Position) -> bool {
    ||| a.unit < b.unit
    ||| (a.unit == b.unit && a.line < b.line)
    ||| (a.unit == b.unit && a.line == b.line && a.ch <= b.ch)
}

/// A line start is a valid position with character index zero, and its rank is
/// the notches of the unit's remaining lines plus those of the later units.
pub proof fn lemma_line_start_from(script: Seq<Seq<ScriptLine>>, u: int, l: int)
    requires
        script_bounded(script),
        0 <= u,
        0 <= l,
    ensures
        pos_valid(script, line_start_from(script, u, l)),
        line_start_from(script, u, l).ch == 0,
        u <= script.len() ==> line_start_from(script, u, l).unit >= u,
        u < script.len() && line_start_from(script, u, l).unit == u ==> line_start_from(
            script,
            u,
            l,
        ).line == l,
        pos_rank(script, line_start_from(script, u, l)) == if u < script.len() {
            unit_rank_from(script[u], l) + script_rank_from(script, u + 1)
        } else {
            0
        },
    decreases script.len() - u,
{
    if u >= script.len() {
    } else if l < script[u].len() {
        assert(line_rank(script[u][l], 0) + unit_rank_from(script[u], l + 1) == unit_rank_from(
            script[u],
            l,
        ));
    } else {
        lemma_line_start_from(script, u + 1, 0);
        assert(unit_rank_from(script[u], l) == 0);
        assert(pos_rank(script, line_start_from(script, u + 1, 0)) == script_rank_from(
            script,
            u + 1,
        ));
    }
}

/// One notch from a valid non-terminal position lands on a valid position of
/// strictly smaller rank.
pub proof fn lemma_notch(script: Seq<Seq<ScriptLine>>, p: Position)
    requires
        script_bounded(script),
        pos_valid(script, p),
        !pos_terminal(script, p),
    ensures
        pos_valid(script, notch(script, p)),
        pos_rank(script, notch(script, p)) < pos_rank(script, p),
        pos_le(p, notch(script, p)),
{
    let line = script[p.unit as int][p.line as int];
    if p.ch < line.text.len() {
    } else {
        lemma_line_start_from(script, p.unit as int, p.line + 1);
        assert(line_rank(line, p.ch as int) == 1);
    }
}

/// Forced steps only move the cursor forward in reveal order.
pub proof fn lemma_steps_move_forward(script: Seq<Seq<ScriptLine>>, p: Position)
    requires
        script_bounded(script),
        pos_valid(script, p),
        !pos_terminal(script, p),
    ensures
        pos_le(p, line_step(script, p)),
        pos_le(p, change_step(script, p)),
{
    lemma_line_start_from(script, p.unit as int, p.line + 1);
    lemma_line_start_from(script, p.unit + 1, 0);
}

/// A forced line step from a valid non-terminal position lands on a valid
/// line start.
pub proof fn lemma_line_step(script: Seq<Seq<ScriptLine>>, p: Position)
    requires
        script_bounded(script),
        pos_valid(script, p),
        !pos_terminal(script, p),
    ensures
        pos_valid(script, line_step(script, p)),
        line_step(script, p).ch == 0,
{
    lemma_line_start_from(script, p.unit as int, p.line + 1);
}

/// A forced change step from a valid non-terminal position lands on a valid
/// line start in a later unit.
pub proof fn lemma_change_step(script: Seq<Seq<ScriptLine>>, p: Position)
    requires
        script_bounded(script),
        pos_valid(script, p),
        !pos_terminal(script, p),
    ensures
        pos_valid(script, change_step(script, p)),
        change_step(script, p).ch == 0,
        change_step(script, p).unit > p.unit,
    {
    lemma_line_start_from(script, p.unit + 1, 0);
}

/// The initial position of any bounded script is valid.
pub proof fn lemma_initial_pos(script: Seq<Seq<ScriptLine>>)
    requires
        script_bounded(script),
    ensures
        pos_valid(script, initial_pos(script)),
        initial_pos(script).ch == 0,
{
    lemma_line_start_from(script, 0, 0);
}

} // verus!
