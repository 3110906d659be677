//! Speed rules: an ordered list of predicate-to-interval mappings that decide
//! the per-character reveal interval for each diff line. Rules are tried in
//! declared order and the first match wins; when none matches, the configured
//! base interval applies.
//!
//! A rule's pace is either an absolute interval in milliseconds or a speed
//! factor relative to the base interval, expressed in hundredths so that the
//! library stays on integers: a factor of 200 reveals twice as fast as the
//! base, so a base of 50 ms becomes 25 ms.

use vstd::prelude::*;

use crate::commit::LineKind;

verus! {

/// The largest accepted base or absolute interval, in milliseconds.
pub const MAX_INTERVAL_MS: u64 = 1000000;

/// Fixed pause consumed when the cursor crosses a line boundary, on top of
/// the per-character pacing.
pub const LINE_PAUSE_MS: u64 = 150;

/// The largest accepted speed factor, in hundredths (a hundredfold speed-up).
pub const MAX_FACTOR_HUNDREDTHS: u64 = 10000;

/// How a matching rule paces the reveal: a fixed interval, or the base
/// interval scaled down by a speed factor given in hundredths.
#[derive(Clone, Copy, Debug, PartialEq, Eq, Structural)]
pub enum RulePace {
    AbsoluteMs(u64),
    FactorHundredths(u64),
}

/// One speed rule: matches lines of one classification, optionally only those
/// with at least `min_chars` characters.
#[derive(Clone, Copy, Debug)]
pub struct SpeedRule {
    pub kind: LineKind,
    pub min_chars: Option<usize>,
    pub pace: RulePace,
}

/// The ordered rule list together with the base interval.
#[derive(Debug)]
pub struct SpeedRuleSet {
    pub rules: Vec<SpeedRule>,
    pub base_ms: u64,
}

/// A rule's pace is within the accepted bounds, so that interval arithmetic
/// stays inside `u64`.
pub open spec fn rule_wf(r: SpeedRule) -> bool {
    match r.pace {
        RulePace::AbsoluteMs(ms) => ms <= MAX_INTERVAL_MS,
        RulePace::FactorHundredths(f) => 1 <= f <= MAX_FACTOR_HUNDREDTHS,
    }
}

/// Whether a rule matches a line of the given classification and length.
pub open spec fn rule_matches(r: SpeedRule, kind: LineKind, chars: nat) -> bool {
    &&& r.kind == kind
    &&& match r.min_chars {
        Some(m) => chars >= m,
        None => true,
    }
}

/// The interval a matching rule yields, given the base interval.
pub open spec fn rule_interval(r: SpeedRule, base_ms: u64) -> int {
    match r.pace {
        RulePace::AbsoluteMs(ms) => ms as int,
        RulePace::FactorHundredths(f) => base_ms * 100 / (f as int),
    }
}

/// First-match resolution over an ordered rule list: the interval of the first
/// rule that matches the line, or the base interval if none does.
pub open spec fn resolve_rules(
    rules: Seq<SpeedRule>,
    base_ms: u64,
    kind: LineKind,
    chars: nat,
) -> int
    decreases rules.len(),
{
    if rules.len() == 0 {
        base_ms as int
    } else if rule_matches(rules[0], kind, chars) {
        rule_interval(rules[0], base_ms)
    } else {
        resolve_rules(rules.subrange(1, rules.len() as int), base_ms, kind, chars)
    }
}

impl SpeedRule {
    /// A rule that reveals matching lines at a fixed interval; intervals above
    /// the accepted maximum are clamped to it.
    pub fn absolute(kind: LineKind, min_chars: Option<usize>, ms: u64) -> (r: SpeedRule)
        ensures
            rule_wf(r),
            r.kind == kind,
            r.min_chars == min_chars,
            r.pace == RulePace::AbsoluteMs(if ms <= MAX_INTERVAL_MS { ms } else { MAX_INTERVAL_MS }),
    {
        let clamped = if ms <= MAX_INTERVAL_MS { ms } else { MAX_INTERVAL_MS };
        SpeedRule { kind, min_chars, pace: RulePace::AbsoluteMs(clamped) }
    }

    /// A rule that scales the base interval by a speed factor in hundredths;
    /// factors outside the accepted range are clamped into it.
    pub fn factor(kind: LineKind, min_chars: Option<usize>, hundredths: u64) -> (r: SpeedRule)
        ensures
            rule_wf(r),
            r.kind == kind,
            r.min_chars == min_chars,
            r.pace == RulePace::FactorHundredths(
                if hundredths == 0 {
                    1
                } else if hundredths <= MAX_FACTOR_HUNDREDTHS {
                    hundredths
                } else {
                    MAX_FACTOR_HUNDREDTHS
                },
            ),
    {
        let clamped = if hundredths == 0 {
            1
        } else if hundredths <= MAX_FACTOR_HUNDREDTHS {
            hundredths
        } else {
            MAX_FACTOR_HUNDREDTHS
        };
        SpeedRule { kind, min_chars, pace: RulePace::FactorHundredths(clamped) }
    }
}

impl SpeedRuleSet {
    /// Every rule is within bounds and so is the base interval.
    pub open spec fn wf(&self) -> bool {
        &&& self.base_ms <= MAX_INTERVAL_MS
        &&& forall|i: int| 0 <= i < self.rules@.len() ==> rule_wf(#[trigger] self.rules@[i])
    }

    /// An empty rule list over a base interval; bases above the accepted
    /// maximum are clamped to it.
    pub fn new(base_ms: u64) -> (r: SpeedRuleSet)
        ensures
            r.wf(),
            r.rules@.len() == 0,
            r.base_ms == if base_ms <= MAX_INTERVAL_MS { base_ms } else { MAX_INTERVAL_MS },
    {
        let clamped = if base_ms <= MAX_INTERVAL_MS { base_ms } else { MAX_INTERVAL_MS };
        SpeedRuleSet { rules: Vec::new(), base_ms: clamped }
    }

    /// Appends a rule at the end of the declared order.
    pub fn push_rule(&mut self, r: SpeedRule)
        requires
            old(self).wf(),
            rule_wf(r),
        ensures
            final(self).wf(),
            final(self).base_ms == old(self).base_ms,
            final(self).rules@ == old(self).rules@.push(r),
    {
        self.rules.push(r);
    }

    /// Resolves the per-character interval for a line of the given
    /// classification and character count: the first matching rule wins, and
    /// the base interval applies when none matches.
    pub fn resolve(&self, kind: LineKind, chars: usize) -> (interval: u64)
        requires
            self.wf(),
        ensures
            interval == resolve_rules(self.rules@, self.base_ms, kind, chars as nat),
            interval <= 100 * MAX_INTERVAL_MS,
    {
        let n = self.rules.len();
        proof {
            assert(self.rules@.subrange(0, n as int) =~= self.rules@);
        }
        let mut i: usize = 0;
        while i < n
            invariant
                i <= n,
                n == self.rules@.len(),
                self.wf(),
                resolve_rules(self.rules@, self.base_ms, kind, chars as nat) == resolve_rules(
                    self.rules@.subrange(i as int, n as int),
                    self.base_ms,
                    kind,
                    chars as nat,
                ),
            decreases n - i,
        {
            let r = self.rules[i];
            let matched = r.kind == kind && (match r.min_chars {
                Some(m) => chars >= m,
                None => true,
            });
            proof {
                assert(self.rules@.subrange(i as int, n as int)[0] == self.rules@[i as int]);
            }
            if matched {
                let interval = match r.pace {
                    RulePace::AbsoluteMs(ms) => ms,
                    RulePace::FactorHundredths(f) => self.base_ms * 100 / f,
                };
                return interval;
            }
            proof {
                assert(self.rules@.subrange(i as int, n as int).subrange(
                    1,
                    (n - i) as int,
                ) =~= self.rules@.subrange(i + 1, n as int));
            }
            i = i + 1;
        }
        proof {
            assert(self.rules@.subrange(n as int, n as int).len() == 0);
        }
        self.base_ms
    }
}

} // verus!
