//! The playback engine: two sequential typing streams (a header message,
//! then the body built from the commit's diff), a checkpoint stack per scrub
//! granularity, a manual-pause flag, and viewport metrics. Timed ticking
//! drives the header until it finishes and the body after it; manual steps
//! force the body cursor forward while recording checkpoints, and restores
//! pop them for exact, bounded-memory undo.

use vstd::prelude::*;

use crate::commit::{CommitMetadata, LineKind};
use crate::cursor::{change_step, line_step, pos_terminal, pos_valid, Position, ScriptLine};
use crate::speed::SpeedRuleSet;
use crate::stream::{advanced, StreamLine, StreamUnit, TypingStream};

verus! {

/// The two scrub granularities: one line, or one change unit (file).
#[derive(Clone, Copy, Debug, PartialEq, Eq, Structural)]
pub enum StepGranularity {
    Line,
    Change,
}

/// The scrub state of one granularity: the live body cursor together with
/// that granularity's checkpoint stack.
pub struct ScrubState {
    pub pos: Position,
    pub stack: Seq<Position>,
}

/// One manual forward step: at the terminal position nothing happens;
/// otherwise the pre-step cursor is pushed as a checkpoint and the cursor is
/// forced to the next line or change boundary.
pub open spec fn scrub_step(
    script: Seq<Seq<ScriptLine>>,
    g: StepGranularity,
    m: ScrubState,
) -> ScrubState {
    if pos_terminal(script, m.pos) {
        m
    } else {
        ScrubState {
            pos: match g {
                StepGranularity::Line => line_step(script, m.pos),
                StepGranularity::Change => change_step(script, m.pos),
            },
            stack: m.stack.push(m.pos),
        }
    }
}

/// One restore: popping an empty stack is a no-op; otherwise the most recent
/// checkpoint is popped and overwrites the live cursor.
pub open spec fn scrub_restore(m: ScrubState) -> ScrubState {
    if m.stack.len() == 0 {
        m
    } else {
        ScrubState { pos: m.stack.last(), stack: m.stack.drop_last() }
    }
}

/// `n` manual forward steps in a row.
pub open spec fn scrub_steps(
    script: Seq<Seq<ScriptLine>>,
    g: StepGranularity,
    m: ScrubState,
    n: nat,
) -> ScrubState
    decreases n,
{
    if n == 0 {
        m
    } else {
        scrub_steps(script, g, scrub_step(script, g, m), (n - 1) as nat)
    }
}

/// `n` restores in a row.
pub open spec fn scrub_restores(m: ScrubState, n: nat) -> ScrubState
    decreases n,
{
    if n == 0 {
        m
    } else {
        scrub_restore(scrub_restores(m, (n - 1) as nat))
    }
}

/// All of `n` forward steps from this state are effective: none of them finds
/// the cursor already at the terminal position.
pub open spec fn can_scrub(
    script: Seq<Seq<ScriptLine>>,
    g: StepGranularity,
    m: ScrubState,
    n: nat,
) -> bool
    decreases n,
{
    n == 0 || (!pos_terminal(script, m.pos) && can_scrub(
        script,
        g,
        scrub_step(script, g, m),
        (n - 1) as nat,
    ))
}

/// Exact round-trip of manual scrubbing: any sequence of `n` effective
/// forward steps of one granularity followed by `n` restores of the same
/// granularity returns both the cursor and the checkpoint stack exactly to
/// their pre-step values.
pub proof fn lemma_scrub_round_trip(
    script: Seq<Seq<ScriptLine>>,
    g: StepGranularity,
    m: ScrubState,
    n: nat,
)
    requires
        can_scrub(script, g, m, n),
    ensures
        scrub_restores(scrub_steps(script, g, m, n), n) == m,
    decreases n,
{
    if n > 0 {
        let m1 = scrub_step(script, g, m);
        lemma_scrub_round_trip(script, g, m1, (n - 1) as nat);
        assert(scrub_steps(script, g, m, n) == scrub_steps(script, g, m1, (n - 1) as nat));
        assert(scrub_restores(scrub_steps(script, g, m1, (n - 1) as nat), n) == scrub_restore(
            scrub_restores(scrub_steps(script, g, m1, (n - 1) as nat), (n - 1) as nat),
        ));
        assert(m1.stack == m.stack.push(m.pos));
        assert(m1.stack.len() > 0);
        assert(m1.stack.last() == m.pos);
        assert(m1.stack.drop_last() =~= m.stack);
        assert(scrub_restore(m1) == m);
    }
}

/// The playback engine.
pub struct PlaybackEngine {
    pub header: TypingStream,
    pub body: TypingStream,
    pub rules: SpeedRuleSet,
    pub line_checkpoints: Vec<Position>,
    pub change_checkpoints: Vec<Position>,
    pub paused: bool,
    pub last_tick_ms: Option<u64>,
    pub viewport_height: usize,
    pub content_width: usize,
}

/// The header script of a commit: one unit holding the summary as one line.
pub open spec fn header_script(c: CommitMetadata) -> Seq<Seq<ScriptLine>> {
    seq![seq![ScriptLine { kind: LineKind::Context, text: c.summary@ }]]
}

/// The body script of a commit: one unit per changed file, holding that
/// file's diff lines.
pub open spec fn body_script(c: CommitMetadata) -> Seq<Seq<ScriptLine>> {
    c.files@.map(
        |i: int, f: crate::commit::FileChange|
            f.lines@.map(
                |j: int, l: crate::commit::DiffLine| ScriptLine { kind: l.kind, text: l.text@ },
            ),
    )
}

impl PlaybackEngine {
    /// The scrub state of the line granularity.
    pub open spec fn line_scrub(&self) -> ScrubState {
        ScrubState { pos: self.body.pos, stack: self.line_checkpoints@ }
    }

    /// The scrub state of the change granularity.
    pub open spec fn change_scrub(&self) -> ScrubState {
        ScrubState { pos: self.body.pos, stack: self.change_checkpoints@ }
    }

    /// Streams and rules are well formed and every saved checkpoint is a
    /// valid body position, so that restoring can never leave the script.
    pub open spec fn wf(&self) -> bool {
        &&& self.header.wf()
        &&& self.body.wf()
        &&& self.rules.wf()
        &&& forall|i: int|
            0 <= i < self.line_checkpoints@.len() ==> pos_valid(
                self.body.script(),
                #[trigger] self.line_checkpoints@[i],
            )
        &&& forall|i: int|
            0 <= i < self.change_checkpoints@.len() ==> pos_valid(
                self.body.script(),
                #[trigger] self.change_checkpoints@[i],
            )
    }

    /// A fresh engine over the given speed rules, with empty streams.
    pub fn new(rules: SpeedRuleSet) -> (e: Self)
        requires
            rules.wf(),
        ensures
            e.wf(),
            e.rules == rules,
            e.header.units@.len() == 0,
            e.body.units@.len() == 0,
            e.line_checkpoints@.len() == 0,
            e.change_checkpoints@.len() == 0,
            !e.paused,
            e.last_tick_ms is None,
            e.is_finished_spec(),
    {
        PlaybackEngine {
            header: TypingStream::new(Vec::new()),
            body: TypingStream::new(Vec::new()),
            rules,
            line_checkpoints: Vec::new(),
            change_checkpoints: Vec::new(),
            paused: false,
            last_tick_ms: None,
            viewport_height: 0,
            content_width: 0,
        }
    }

    /// The derived "finished" condition: the body cursor sits at its terminal
    /// position.
    pub open spec fn is_finished_spec(&self) -> bool {
        pos_terminal(self.body.script(), self.body.pos)
    }

    /// True iff the body stream is fully revealed.
    pub fn is_finished(&self) -> (r: bool)
        ensures
            r == self.is_finished_spec(),
    {
        self.body.is_finished()
    }

    /// Loads a commit: the header stream is reset to the commit summary, the
    /// body stream to the commit's diff lines with one change unit per file,
    /// both checkpoint stacks are cleared, and the paused flag and tick clock
    /// are reset.
    pub fn load(&mut self, c: &CommitMetadata)
        requires
            old(self).rules.wf(),
        ensures
            final(self).wf(),
            loaded(*final(self), *old(self), *c),
    {
        let mut header_units: Vec<StreamUnit> = Vec::new();
        let mut header_lines: Vec<StreamLine> = Vec::new();
        header_lines.push(StreamLine::new(LineKind::Context, c.summary.clone()));
        header_units.push(StreamUnit { lines: header_lines });
        let header = TypingStream::new(header_units);
        proof {
            assert(header.script() =~~= header_script(*c));
        }

        let mut body_units: Vec<StreamUnit> = Vec::new();
        let mut i: usize = 0;
        while i < c.files.len()
            invariant
                i <= c.files.len(),
                body_units@.len() == i as int,
                forall|u: int| 0 <= u < i ==> (#[trigger] body_units@[u]).wf(),
                forall|u: int|
                    0 <= u < i ==> (#[trigger] body_units@[u]).model() == body_script(*c)[u],
            decreases c.files.len() - i,
        {
            let file = &c.files[i];
            let mut lines: Vec<StreamLine> = Vec::new();
            let mut j: usize = 0;
            while j < file.lines.len()
                invariant
                    j <= file.lines.len(),
                    lines@.len() == j as int,
                    forall|l: int| 0 <= l < j ==> (#[trigger] lines@[l]).wf(),
                    forall|l: int|
                        0 <= l < j ==> (#[trigger] lines@[l]).model() == (ScriptLine {
                            kind: file.lines@[l].kind,
                            text: file.lines@[l].text@,
                        }),
                decreases file.lines.len() - j,
            {
                let dl = &file.lines[j];
                lines.push(StreamLine::new(dl.kind, dl.text.clone()));
                j = j + 1;
            }
            let unit = StreamUnit { lines };
            proof {
                assert(unit.model() =~= body_script(*c)[i as int]);
            }
            body_units.push(unit);
            i = i + 1;
        }
        let body = TypingStream::new(body_units);
        proof {
            assert(body.script() =~~= body_script(*c));
        }

        self.header = header;
        self.body = body;
        self.line_checkpoints = Vec::new();
        self.change_checkpoints = Vec::new();
        self.paused = false;
        self.last_tick_ms = None;
    }

    /// Sets the manual-pause flag; a paused engine ignores ticks entirely.
    pub fn pause(&mut self)
        ensures
            *final(self) == (PlaybackEngine { paused: true, ..*old(self) }),
    {
        self.paused = true;
    }

    /// Clears the manual-pause flag and forgets the previous tick instant, so
    /// that time skipped while paused is never replayed as a catch-up burst.
    pub fn resume(&mut self)
        ensures
            *final(self) == (PlaybackEngine { paused: false, last_tick_ms: None, ..*old(self) }),
    {
        self.paused = false;
        self.last_tick_ms = None;
    }

    /// Timed advancement. A paused engine, or one whose header and body are
    /// both fully revealed, changes nothing and reports no redraw. Otherwise
    /// the time elapsed since the previous tick drives the header stream
    /// until it finishes, and the body stream after that; the result reports
    /// whether the active cursor moved.
    pub fn tick(&mut self, now_ms: u64) -> (redraw: bool)
        requires
            old(self).wf(),
        ensures
            final(self).wf(),
            *final(self) == ticked(*old(self), now_ms),
            redraw == tick_moved(*old(self), now_ms),
    {
        if self.paused {
            return false;
        }
        let header_done = self.header.is_finished();
        let body_done = self.body.is_finished();
        if header_done && body_done {
            return false;
        }
        let elapsed = match self.last_tick_ms {
            Some(t) => if now_ms >= t {
                now_ms - t
            } else {
                0
            },
            None => 0,
        };
        self.last_tick_ms = Some(now_ms);
        if !header_done {
            self.header.advance(elapsed, &self.rules)
        } else {
            self.body.advance(elapsed, &self.rules)
        }
    }

    /// A manual forward step of the given granularity: if the body is not at
    /// its terminal position, the pre-step cursor is pushed on that
    /// granularity's checkpoint stack and the cursor is forced to the next
    /// line or change boundary, bypassing timing. At the terminal position
    /// nothing is pushed and false is returned.
    pub fn manual_step(&mut self, g: StepGranularity) -> (stepped: bool)
        requires
            old(self).wf(),
        ensures
            final(self).wf(),
            manual_stepped(*final(self), *old(self), g, stepped),
    {
        let pre = self.body.pos;
        let moved = match g {
            StepGranularity::Line => self.body.force_line_step(),
            StepGranularity::Change => self.body.force_change_step(),
        };
        if moved {
            match g {
                StepGranularity::Line => self.line_checkpoints.push(pre),
                StepGranularity::Change => self.change_checkpoints.push(pre),
            }
            true
        } else {
            false
        }
    }

    /// Restores the most recent line checkpoint: pops it and overwrites the
    /// live body cursor with it. Popping an empty stack is a no-op returning
    /// false, never an error.
    pub fn restore_line_checkpoint(&mut self) -> (restored: bool)
        requires
            old(self).wf(),
        ensures
            final(self).wf(),
            line_restored(*final(self), *old(self), restored),
    {
        if self.line_checkpoints.len() == 0 {
            return false;
        }
        let p = self.line_checkpoints.pop().unwrap();
        self.body.jump_to(p);
        true
    }

    /// Restores the most recent change checkpoint; the counterpart of
    /// `restore_line_checkpoint` for the coarse granularity.
    pub fn restore_change_checkpoint(&mut self) -> (restored: bool)
        requires
            old(self).wf(),
        ensures
            final(self).wf(),
            change_restored(*final(self), *old(self), restored),
    {
        if self.change_checkpoints.len() == 0 {
            return false;
        }
        let p = self.change_checkpoints.pop().unwrap();
        self.body.jump_to(p);
        true
    }

    /// The change unit the body cursor currently sits in; one past the last
    /// when everything is revealed.
    pub fn current_file_index(&self) -> (u: usize)
        ensures
            u == self.body.pos.unit,
    {
        self.body.pos.unit
    }

    /// Viewport height, recomputed each frame by the caller; used only by
    /// rendering collaborators, never by the reveal algorithm.
    pub fn set_viewport_height(&mut self, h: usize)
        ensures
            *final(self) == (PlaybackEngine { viewport_height: h, ..*old(self) }),
    {
        self.viewport_height = h;
    }

    /// Content width, recomputed each frame by the caller; used only by
    /// rendering collaborators, never by the reveal algorithm.
    pub fn set_content_width(&mut self, w: usize)
        ensures
            *final(self) == (PlaybackEngine { content_width: w, ..*old(self) }),
    {
        self.content_width = w;
    }
}

/// The time elapsed between the previous tick and `now_ms`: zero before the
/// first tick and when the clock runs backwards.
pub open spec fn elapsed_since(last: Option<u64>, now_ms: u64) -> u64 {
    match last {
        Some(t) => if now_ms >= t {
            (now_ms - t) as u64
        } else {
            0
        },
        None => 0,
    }
}

/// The engine state after one timed tick at `now_ms`: unchanged while paused
/// or fully revealed; otherwise the elapsed time since the previous tick
/// drives the header stream until that finishes, and the body stream after
/// it.
pub open spec fn ticked(e: PlaybackEngine, now_ms: u64) -> PlaybackEngine {
    if e.paused {
        e
    } else if pos_terminal(e.header.script(), e.header.pos) && pos_terminal(
        e.body.script(),
        e.body.pos,
    ) {
        e
    } else if !pos_terminal(e.header.script(), e.header.pos) {
        PlaybackEngine {
            header: advanced(e.header, elapsed_since(e.last_tick_ms, now_ms), e.rules),
            last_tick_ms: Some(now_ms),
            ..e
        }
    } else {
        PlaybackEngine {
            body: advanced(e.body, elapsed_since(e.last_tick_ms, now_ms), e.rules),
            last_tick_ms: Some(now_ms),
            ..e
        }
    }
}

/// Whether one timed tick at `now_ms` moves either reveal cursor.
pub open spec fn tick_moved(e: PlaybackEngine, now_ms: u64) -> bool {
    ticked(e, now_ms).header.pos != e.header.pos || ticked(e, now_ms).body.pos != e.body.pos
}

/// A tick of a manually paused engine changes nothing — in particular it
/// moves no reveal cursor — and reports no redraw.
pub proof fn lemma_paused_tick(e: PlaybackEngine, now_ms: u64)
    requires
        e.paused,
    ensures
        ticked(e, now_ms) == e,
        !tick_moved(e, now_ms),
{
}

/// How a freshly loaded engine relates to the previous engine state and to
/// the commit that was loaded.
pub open spec fn loaded(e_new: PlaybackEngine, e_old: PlaybackEngine, c: CommitMetadata) -> bool {
    &&& e_new.header.script() == header_script(c)
    &&& e_new.body.script() == body_script(c)
    &&& e_new.header.pos == crate::cursor::initial_pos(header_script(c))
    &&& e_new.body.pos == crate::cursor::initial_pos(body_script(c))
    &&& e_new.header.acc_ms == 0
    &&& e_new.body.acc_ms == 0
    &&& e_new.line_checkpoints@.len() == 0
    &&& e_new.change_checkpoints@.len() == 0
    &&& !e_new.paused
    &&& e_new.last_tick_ms is None
    &&& e_new.rules == e_old.rules
    &&& e_new.viewport_height == e_old.viewport_height
    &&& e_new.content_width == e_old.content_width
}

/// How a manual step of granularity `g` relates the engine states before and
/// after: the scrub state of that granularity takes one step, the other
/// stack, the header and every other field stay as they were, and at the
/// terminal position nothing changes at all.
pub open spec fn manual_stepped(
    e_new: PlaybackEngine,
    e_old: PlaybackEngine,
    g: StepGranularity,
    stepped: bool,
) -> bool {
    &&& stepped == !pos_terminal(e_old.body.script(), e_old.body.pos)
    &&& (g is Line ==> e_new.line_scrub() == scrub_step(e_old.body.script(), g, e_old.line_scrub())
        && e_new.change_checkpoints == e_old.change_checkpoints)
    &&& (g is Change ==> e_new.change_scrub() == scrub_step(
        e_old.body.script(),
        g,
        e_old.change_scrub(),
    ) && e_new.line_checkpoints == e_old.line_checkpoints)
    &&& e_new.body.units == e_old.body.units
    &&& (stepped ==> e_new.body.acc_ms == 0)
    &&& (!stepped ==> e_new == e_old)
    &&& e_new.header == e_old.header
    &&& e_new.rules == e_old.rules
    &&& e_new.paused == e_old.paused
    &&& e_new.last_tick_ms == e_old.last_tick_ms
    &&& e_new.viewport_height == e_old.viewport_height
    &&& e_new.content_width == e_old.content_width
}

/// How restoring the most recent line checkpoint relates the engine states
/// before and after.
pub open spec fn line_restored(e_new: PlaybackEngine, e_old: PlaybackEngine, restored: bool) -> bool {
    &&& restored == (e_old.line_checkpoints@.len() > 0)
    &&& e_new.line_scrub() == scrub_restore(e_old.line_scrub())
    &&& e_new.change_checkpoints == e_old.change_checkpoints
    &&& e_new.body.units == e_old.body.units
    &&& (restored ==> e_new.body.acc_ms == 0)
    &&& (!restored ==> e_new == e_old)
    &&& e_new.header == e_old.header
    &&& e_new.rules == e_old.rules
    &&& e_new.paused == e_old.paused
    &&& e_new.last_tick_ms == e_old.last_tick_ms
    &&& e_new.viewport_height == e_old.viewport_height
    &&& e_new.content_width == e_old.content_width
}

/// How restoring the most recent change checkpoint relates the engine states
/// before and after.
pub open spec fn change_restored(
    e_new: PlaybackEngine,
    e_old: PlaybackEngine,
    restored: bool,
) -> bool {
    &&& restored == (e_old.change_checkpoints@.len() > 0)
    &&& e_new.change_scrub() == scrub_restore(e_old.change_scrub())
    &&& e_new.line_checkpoints == e_old.line_checkpoints
    &&& e_new.body.units == e_old.body.units
    &&& (restored ==> e_new.body.acc_ms == 0)
    &&& (!restored ==> e_new == e_old)
    &&& e_new.header == e_old.header
    &&& e_new.rules == e_old.rules
    &&& e_new.paused == e_old.paused
    &&& e_new.last_tick_ms == e_old.last_tick_ms
    &&& e_new.viewport_height == e_old.viewport_height
    &&& e_new.content_width == e_old.content_width
}

} // verus!
