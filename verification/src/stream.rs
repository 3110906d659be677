//! A typing stream: one ordered text source together with a reveal cursor and
//! a wall-clock accumulator. Timed advancement consumes the accumulated time
//! interval by interval, as resolved by the speed rules, revealing one
//! character per interval and inserting a fixed pause at each line boundary;
//! leftover time is preserved for the next call so that pacing does not
//! drift. Forced steps and jumps move the cursor directly, bypassing timing.

use vstd::prelude::*;

use crate::commit::LineKind;
use crate::cursor::{
    change_step, initial_pos, lemma_change_step, lemma_initial_pos, lemma_line_step, lemma_notch,
    line_start_from, line_step, notch, pos_le, pos_rank, pos_terminal, pos_valid, script_bounded,
    Position, ScriptLine,
};
use crate::speed::{resolve_rules, SpeedRule, SpeedRuleSet, LINE_PAUSE_MS};
use vstd::string::{StrSliceExecFns, StringExecFns};

verus! {

/// One line of a stream: its classification, its text, and the cached
/// character count of the text.
pub struct StreamLine {
    pub kind: LineKind,
    pub text: String,
    pub chars: usize,
}

impl StreamLine {
    /// The cached character count is the text's length.
    pub open spec fn wf(&self) -> bool {
        self.chars == self.text@.len()
    }

    /// The line's mathematical shape.
    pub open spec fn model(&self) -> ScriptLine {
        ScriptLine { kind: self.kind, text: self.text@ }
    }

    pub fn new(kind: LineKind, text: String) -> (r: Self)
        ensures
            r.wf(),
            r.kind == kind,
            r.text == text,
    {
        let chars = text.as_str().unicode_len();
        StreamLine { kind, text, chars }
    }
}

/// One unit of a stream: the diff lines of one changed file, or the single
/// line of a header message.
pub struct StreamUnit {
    pub lines: Vec<StreamLine>,
}

impl StreamUnit {
    pub open spec fn wf(&self) -> bool {
        forall|l: int| 0 <= l < self.lines@.len() ==> (#[trigger] self.lines@[l]).wf()
    }

    pub open spec fn model(&self) -> Seq<ScriptLine> {
        self.lines@.map(|l: int, line: StreamLine| line.model())
    }
}

/// The script of a sequence of units.
pub open spec fn script_of(units: Seq<StreamUnit>) -> Seq<Seq<ScriptLine>> {
    units.map(|u: int, unit: StreamUnit| unit.model())
}

/// The interval one notch consumes: the resolved per-character interval
/// while inside a line, and the fixed line pause at a line boundary.
pub open spec fn step_cost(
    script: Seq<Seq<ScriptLine>>,
    rules: Seq<SpeedRule>,
    base_ms: u64,
    p: Position,
) -> int
    recommends
        pos_valid(script, p),
        !pos_terminal(script, p),
{
    let line = script[p.unit as int][p.line as int];
    if p.ch < line.text.len() {
        resolve_rules(rules, base_ms, line.kind, line.text.len())
    } else {
        LINE_PAUSE_MS as int
    }
}

/// Timed advancement: starting from position `p` with `acc` accumulated
/// milliseconds, repeatedly consume the cost of the next notch and move one
/// notch, until the accumulated time no longer covers the next notch or the
/// terminal position is reached. Yields the final position and the leftover
/// time.
pub open spec fn drain(
    script: Seq<Seq<ScriptLine>>,
    rules: Seq<SpeedRule>,
    base_ms: u64,
    p: Position,
    acc: int,
) -> (Position, int)
    decreases pos_rank(script, p),
        when script_bounded(script) && pos_valid(script, p)
{
    if pos_terminal(script, p) {
        (p, acc)
    } else {
        let cost = step_cost(script, rules, base_ms, p);
        if acc >= cost {
            proof {
                lemma_notch(script, p);
            }
            drain(script, rules, base_ms, notch(script, p), acc - cost)
        } else {
            (p, acc)
        }
    }
}

/// The text of every line of one unit, in order.
pub open spec fn unit_text(unit: Seq<ScriptLine>) -> Seq<Seq<char>> {
    unit.map(|i: int, l: ScriptLine| l.text)
}

/// The text of all lines of the units before unit `u`, in order.
pub open spec fn units_text_upto(script: Seq<Seq<ScriptLine>>, u: int) -> Seq<Seq<char>>
    decreases u,
{
    if u <= 0 {
        Seq::empty()
    } else {
        units_text_upto(script, u - 1) + unit_text(script[u - 1])
    }
}

/// The revealed prefix of a script at cursor position `p`, one entry per
/// line: all lines before the cursor in full, and the first `p.ch`
/// characters of the line the cursor sits in.
pub open spec fn revealed_text(script: Seq<Seq<ScriptLine>>, p: Position) -> Seq<Seq<char>>
    recommends
        pos_valid(script, p),
{
    if p.unit >= script.len() {
        units_text_upto(script, script.len() as int)
    } else {
        units_text_upto(script, p.unit as int) + unit_text(script[p.unit as int]).take(
            p.line as int,
        ) + seq![script[p.unit as int][p.line as int].text.take(p.ch as int)]
    }
}

/// The stream state after timed advancement by `elapsed_ms`: at the terminal
/// position nothing changes; otherwise the elapsed time is added to the
/// accumulator (saturating) and as many notches as it covers are revealed.
pub open spec fn advanced(s: TypingStream, elapsed_ms: u64, rules: SpeedRuleSet) -> TypingStream {
    if pos_terminal(s.script(), s.pos) {
        s
    } else {
        let start = s.acc_ms as int + elapsed_ms as int;
        let capped = if start <= u64::MAX {
            start
        } else {
            u64::MAX as int
        };
        let end = drain(s.script(), rules.rules@, rules.base_ms, s.pos, capped);
        TypingStream { units: s.units, pos: end.0, acc_ms: end.1 as u64 }
    }
}

/// Timed advancement never moves the reveal cursor backwards: within one
/// source, the cursor after draining any amount of accumulated time lies at
/// or after the cursor before it. Only an explicit restore or jump can move
/// the cursor back.
pub proof fn lemma_advance_monotonic(
    script: Seq<Seq<ScriptLine>>,
    rules: Seq<SpeedRule>,
    base_ms: u64,
    p: Position,
    acc: int,
)
    requires
        script_bounded(script),
        pos_valid(script, p),
    ensures
        pos_le(p, drain(script, rules, base_ms, p, acc).0),
    decreases pos_rank(script, p),
{
    if !pos_terminal(script, p) {
        let cost = step_cost(script, rules, base_ms, p);
        if acc >= cost {
            lemma_notch(script, p);
            lemma_advance_monotonic(script, rules, base_ms, notch(script, p), acc - cost);
        }
    }
}

/// A sequence of well-formed units taken from a vector yields a bounded
/// script.
pub proof fn lemma_script_bounded(units: &Vec<StreamUnit>)
    requires
        forall|i: int| 0 <= i < units@.len() ==> (#[trigger] units@[i]).wf(),
    ensures
        script_bounded(script_of(units@)),
{
    let script = script_of(units@);
    assert(units.len() == units@.len());
    assert forall|u: int| 0 <= u < script.len() implies (#[trigger] script[u]).len()
        <= usize::MAX by {
        assert(units@[u].lines.len() == units@[u].lines@.len());
        assert(script[u] == units@[u].model());
    }
    assert forall|u: int, l: int|
        0 <= u < script.len() && 0 <= l < script[u].len() implies (#[trigger] script[u][l]).text.len()
        <= usize::MAX by {
        assert(script[u] == units@[u].model());
        assert(script[u][l] == units@[u].lines@[l].model());
        assert(units@[u].lines@[l].wf());
    }
}

/// A reveal cursor over one ordered text source, with the wall-clock
/// accumulator that paces its timed advancement.
pub struct TypingStream {
    pub units: Vec<StreamUnit>,
    pub pos: Position,
    pub acc_ms: u64,
}

impl TypingStream {
    /// The stream's script: the mathematical shape of its text source.
    pub open spec fn script(&self) -> Seq<Seq<ScriptLine>> {
        script_of(self.units@)
    }

    /// Units are well formed and the cursor occupies a valid position.
    pub open spec fn wf(&self) -> bool {
        &&& forall|i: int| 0 <= i < self.units@.len() ==> (#[trigger] self.units@[i]).wf()
        &&& script_bounded(self.script())
        &&& pos_valid(self.script(), self.pos)
    }

    /// A stream over the given units, with the cursor at the initial position
    /// and no accumulated time.
    pub fn new(units: Vec<StreamUnit>) -> (s: Self)
        requires
            forall|i: int| 0 <= i < units@.len() ==> (#[trigger] units@[i]).wf(),
        ensures
            s.wf(),
            s.units == units,
            s.acc_ms == 0,
            s.pos == initial_pos(s.script()),
    {
        proof {
            lemma_script_bounded(&units);
            lemma_initial_pos(script_of(units@));
        }
        let pos = line_start_exec(&units, 0, 0);
        TypingStream { units, pos, acc_ms: 0 }
    }

    /// True exactly when the cursor sits at the terminal position.
    pub fn is_finished(&self) -> (r: bool)
        ensures
            r == pos_terminal(self.script(), self.pos),
    {
        proof {
            assert(self.units.len() == self.units@.len());
        }
        self.pos.unit >= self.units.len()
    }

    /// Timed advancement by `elapsed_ms` milliseconds: accumulates the
    /// elapsed time (saturating) and reveals as many notches as the
    /// accumulated time covers. At the terminal position the call changes
    /// nothing. Returns whether the cursor moved.
    pub fn advance(&mut self, elapsed_ms: u64, rules: &SpeedRuleSet) -> (moved: bool)
        requires
            old(self).wf(),
            rules.wf(),
        ensures
            final(self).wf(),
            *final(self) == advanced(*old(self), elapsed_ms, *rules),
            moved == (final(self).pos != old(self).pos),
    {
        let ghost script = self.script();
        if self.pos.unit >= self.units.len() {
            return false;
        }
        self.acc_ms = self.acc_ms.saturating_add(elapsed_ms);
        let pos0 = self.pos;
        let ghost acc0 = self.acc_ms;
        let ghost target = drain(script, rules.rules@, rules.base_ms, pos0, acc0 as int);
        while self.pos.unit < self.units.len()
            invariant
                self.wf(),
                rules.wf(),
                self.units == old(self).units,
                script == self.script(),
                drain(script, rules.rules@, rules.base_ms, self.pos, self.acc_ms as int)
                    == target,
            ensures
                self.wf(),
                self.units == old(self).units,
                script == self.script(),
                (self.pos, self.acc_ms as int) == target,
            decreases pos_rank(script, self.pos),
        {
            let ghost pos_before = self.pos;
            let ghost acc_before = self.acc_ms;
            let u = self.pos.unit;
            let l = self.pos.line;
            proof {
                assert(script[u as int] == self.units@[u as int].model());
                assert(script[u as int][l as int] == self.units@[u as int].lines@[l as int].model());
                assert(self.units@[u as int].wf());
                assert(self.units@[u as int].lines@[l as int].wf());
                assert(self.units@[u as int].lines.len() == self.units@[u as int].lines@.len());
            }
            let chars = self.units[u].lines[l].chars;
            let kind = self.units[u].lines[l].kind;
            let cost = if self.pos.ch < chars {
                rules.resolve(kind, chars)
            } else {
                LINE_PAUSE_MS
            };
            proof {
                assert(cost == step_cost(script, rules.rules@, rules.base_ms, self.pos));
            }
            if self.acc_ms >= cost {
                self.acc_ms = self.acc_ms - cost;
                if self.pos.ch < chars {
                    self.pos.ch = self.pos.ch + 1;
                } else {
                    self.pos = line_start_exec(&self.units, u, l + 1);
                }
                proof {
                    lemma_notch(script, pos_before);
                    assert(self.pos == notch(script, pos_before));
                    assert(drain(script, rules.rules@, rules.base_ms, pos_before, acc_before as int)
                        == drain(script, rules.rules@, rules.base_ms, self.pos, self.acc_ms as int));
                }
            } else {
                break;
            }
        }
        let moved = !(self.pos == pos0);
        moved
    }

    /// A forced line step: moves the cursor to the start of the next line,
    /// bypassing timing, and discards the accumulated time. At the terminal
    /// position the call changes nothing and returns false.
    pub fn force_line_step(&mut self) -> (moved: bool)
        requires
            old(self).wf(),
        ensures
            final(self).wf(),
            final(self).units == old(self).units,
            pos_terminal(old(self).script(), old(self).pos) ==> *final(self) == *old(self),
            !pos_terminal(old(self).script(), old(self).pos) ==> final(self).pos == line_step(
                old(self).script(),
                old(self).pos,
            ) && final(self).acc_ms == 0,
            moved == !pos_terminal(old(self).script(), old(self).pos),
    {
        proof {
            assert(self.units.len() == self.units@.len());
        }
        if self.pos.unit >= self.units.len() {
            return false;
        }
        proof {
            assert(self.units@[self.pos.unit as int].lines.len() == self.units@[self.pos.unit as int].lines@.len());
            assert(self.script()[self.pos.unit as int] == self.units@[self.pos.unit as int].model());
            lemma_line_step(self.script(), self.pos);
        }
        let p = line_start_exec(&self.units, self.pos.unit, self.pos.line + 1);
        self.pos = p;
        self.acc_ms = 0;
        true
    }

    /// A forced change step: moves the cursor to the start of the next unit,
    /// bypassing timing, and discards the accumulated time. At the terminal
    /// position the call changes nothing and returns false.
    pub fn force_change_step(&mut self) -> (moved: bool)
        requires
            old(self).wf(),
        ensures
            final(self).wf(),
            final(self).units == old(self).units,
            pos_terminal(old(self).script(), old(self).pos) ==> *final(self) == *old(self),
            !pos_terminal(old(self).script(), old(self).pos) ==> final(self).pos == change_step(
                old(self).script(),
                old(self).pos,
            ) && final(self).acc_ms == 0,
            moved == !pos_terminal(old(self).script(), old(self).pos),
    {
        proof {
            assert(self.units.len() == self.units@.len());
        }
        if self.pos.unit >= self.units.len() {
            return false;
        }
        proof {
            lemma_change_step(self.script(), self.pos);
        }
        let p = line_start_exec(&self.units, self.pos.unit + 1, 0);
        self.pos = p;
        self.acc_ms = 0;
        true
    }

    /// The text revealed so far, one entry per line: every line of the units
    /// before the cursor, every earlier line of the cursor's unit, and the
    /// revealed prefix of the line the cursor sits in.
    pub fn current_text(&self) -> (r: Vec<String>)
        requires
            self.wf(),
        ensures
            r.deep_view() == revealed_text(self.script(), self.pos),
    {
        let ghost script = self.script();
        let mut r: Vec<String> = Vec::new();
        proof {
            assert(self.units.len() == self.units@.len());
        }
        let bound = if self.pos.unit < self.units.len() {
            self.pos.unit
        } else {
            self.units.len()
        };
        let mut u: usize = 0;
        while u < bound
            invariant
                u <= bound,
                bound <= self.units@.len(),
                script == self.script(),
                self.wf(),
                r.deep_view() == units_text_upto(script, u as int),
            decreases bound - u,
        {
            proof {
                assert(script[u as int] == self.units@[u as int].model());
                assert(self.units@[u as int].lines.len() == self.units@[u as int].lines@.len());
            }
            let lines = &self.units[u].lines;
            let mut l: usize = 0;
            while l < lines.len()
                invariant
                    l <= lines@.len(),
                    script == self.script(),
                    self.wf(),
                    u < self.units@.len(),
                    lines == &self.units@[u as int].lines,
                    r.deep_view() == units_text_upto(script, u as int) + unit_text(
                        script[u as int],
                    ).take(l as int),
                decreases lines@.len() - l,
            {
                let ghost dv0 = r.deep_view();
                r.push(lines[l].text.clone());
                proof {
                    assert(script[u as int] == self.units@[u as int].model());
                    assert(script[u as int][l as int] == lines@[l as int].model());
                    assert(r.deep_view() =~= dv0.push(lines@[l as int].text@));
                    assert(unit_text(script[u as int]).take(l + 1) =~= unit_text(
                        script[u as int],
                    ).take(l as int).push(script[u as int][l as int].text));
                    assert(r.deep_view() =~= units_text_upto(script, u as int) + unit_text(
                        script[u as int],
                    ).take(l + 1));
                }
                l = l + 1;
            }
            proof {
                assert(unit_text(script[u as int]).take(lines@.len() as int) =~= unit_text(
                    script[u as int],
                ));
                assert(r.deep_view() =~= units_text_upto(script, u + 1));
            }
            u = u + 1;
        }
        if self.pos.unit < self.units.len() {
            proof {
                assert(script[u as int] == self.units@[u as int].model());
                assert(self.units@[u as int].lines.len() == self.units@[u as int].lines@.len());
            }
            let lines = &self.units[self.pos.unit].lines;
            let mut l: usize = 0;
            while l < self.pos.line
                invariant
                    l <= self.pos.line,
                    script == self.script(),
                    self.wf(),
                    self.pos.unit < self.units@.len(),
                    lines == &self.units@[self.pos.unit as int].lines,
                    self.pos.line < lines@.len(),
                    r.deep_view() == units_text_upto(script, self.pos.unit as int) + unit_text(
                        script[self.pos.unit as int],
                    ).take(l as int),
                decreases self.pos.line - l,
            {
                let ghost dv0 = r.deep_view();
                r.push(lines[l].text.clone());
                proof {
                    assert(script[self.pos.unit as int]
                        == self.units@[self.pos.unit as int].model());
                    assert(script[self.pos.unit as int][l as int] == lines@[l as int].model());
                    assert(r.deep_view() =~= dv0.push(lines@[l as int].text@));
                    assert(unit_text(script[self.pos.unit as int]).take(l + 1) =~= unit_text(
                        script[self.pos.unit as int],
                    ).take(l as int).push(script[self.pos.unit as int][l as int].text));
                }
                l = l + 1;
            }
            let line = &lines[self.pos.line];
            proof {
                assert(script[self.pos.unit as int] == self.units@[self.pos.unit as int].model());
                assert(script[self.pos.unit as int][self.pos.line as int]
                    == lines@[self.pos.line as int].model());
                assert(lines@[self.pos.line as int].wf());
            }
            let ghost dv0 = r.deep_view();
            let part = String::from_str(line.text.as_str().substring_char(0, self.pos.ch));
            r.push(part);
            proof {
                assert(r.deep_view() =~= dv0.push(
                    script[self.pos.unit as int][self.pos.line as int].text.take(self.pos.ch as int),
                ));
                assert(r.deep_view() =~= revealed_text(script, self.pos));
            }
        } else {
            proof {
                assert(r.deep_view() =~= revealed_text(script, self.pos));
            }
        }
        r
    }

    /// Checkpoint restore: sets the cursor directly to a saved position and
    /// discards the accumulated time.
    pub fn jump_to(&mut self, p: Position)
        requires
            old(self).wf(),
            pos_valid(old(self).script(), p),
        ensures
            final(self).wf(),
            final(self).units == old(self).units,
            final(self).pos == p,
            final(self).acc_ms == 0,
    {
        self.pos = p;
        self.acc_ms = 0;
    }
}

/// The first occupiable position at or after the start of line `l` of unit
/// `u`, as an executable search.
fn line_start_exec(units: &Vec<StreamUnit>, u: usize, l: usize) -> (p: Position)
    requires
        script_bounded(script_of(units@)),
    ensures
        p == line_start_from(script_of(units@), u as int, l as int),
{
    let ghost script = script_of(units@);
    let mut uu = u;
    let mut ll = l;
    proof {
        assert(units.len() == units@.len());
    }
    while uu < units.len() && ll >= units[uu].lines.len()
        invariant
            script == script_of(units@),
            script_bounded(script),
            units@.len() == script.len(),
            uu >= u,
            line_start_from(script, uu as int, ll as int) == line_start_from(
                script,
                u as int,
                l as int,
            ),
        decreases units@.len() - uu,
    {
        proof {
            assert(script[uu as int] == units@[uu as int].model());
            assert(units@[uu as int].lines.len() == units@[uu as int].lines@.len());
        }
        uu = uu + 1;
        ll = 0;
    }
    if uu < units.len() {
        proof {
            assert(script[uu as int] == units@[uu as int].model());
            assert(units@[uu as int].lines.len() == units@[uu as int].lines@.len());
        }
        Position { unit: uu, line: ll, ch: 0 }
    } else {
        Position { unit: units.len(), line: 0, ch: 0 }
    }
}

} // verus!
