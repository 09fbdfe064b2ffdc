//! Positions in a recorded trace and ranges of them.
use vstd::prelude::*;

use crate::text::{hex_text, hex_value, lemma_hex_text_reads_back, push_char, push_hex};

verus! {

/// A point in a trace: a sequence number and a step count inside that
/// sequence.
#[derive(Clone, Copy, Debug, PartialEq, Eq, Structural, Default, Hash)]
pub struct ReplayPosition {
    pub sequence: u64,
    pub steps: u64,
}

/// The earliest and latest positions of a recorded lifetime.
#[derive(Clone, Copy, Debug, PartialEq, Eq, Structural, Default)]
pub struct PositionRange {
    pub min: ReplayPosition,
    pub max: ReplayPosition,
}

/// The textual form of a position: both components in lower-case
/// hexadecimal, separated by a colon.
pub open spec fn position_text(p: ReplayPosition) -> Seq<char> {
    hex_text(p.sequence as nat) + seq![':'] + hex_text(p.steps as nat)
}

/// The position `k` steps after `p`, in the same sequence.
pub open spec fn steps_after(p: ReplayPosition, k: u64) -> ReplayPosition {
    ReplayPosition { sequence: p.sequence, steps: (p.steps + k) as u64 }
}

/// The position `k` steps before `p`, in the same sequence.
pub open spec fn steps_before(p: ReplayPosition, k: u64) -> ReplayPosition {
    ReplayPosition { sequence: p.sequence, steps: (p.steps - k) as u64 }
}

impl ReplayPosition {
    /// Builds a position from its two components.
    pub fn new(sequence: u64, steps: u64) -> (r: Self)
        ensures
            r.sequence == sequence,
            r.steps == steps,
    {
        ReplayPosition { sequence, steps }
    }

    /// The position `rhs` steps later in the same sequence.
    pub fn add_steps(self, rhs: u64) -> (r: Self)
        requires
            self.steps + rhs <= u64::MAX,
        ensures
            r == steps_after(self, rhs),
    {
        ReplayPosition { sequence: self.sequence, steps: self.steps + rhs }
    }

    /// The position `rhs` steps earlier in the same sequence.
    pub fn sub_steps(self, rhs: u64) -> (r: Self)
        requires
            self.steps >= rhs,
        ensures
            r == steps_before(self, rhs),
    {
        ReplayPosition { sequence: self.sequence, steps: self.steps - rhs }
    }

    /// Renders the position as `sequence:steps` in lower-case hexadecimal.
    pub fn to_string(&self) -> (r: String)
        ensures
            r@ == position_text(*self),
    {
        let mut s = String::new();
        push_hex(&mut s, self.sequence);
        push_char(&mut s, ':');
        push_hex(&mut s, self.steps);
        proof {
            assert(s@ =~= position_text(*self));
        }
        s
    }
}

/// Moving forward by `k` steps and back by `k` steps returns to the start,
/// and so does moving back first and then forward.
pub proof fn lemma_steps_after_before_inverse(p: ReplayPosition, k: u64)
    ensures
        p.steps + k <= u64::MAX ==> steps_before(steps_after(p, k), k) == p,
        p.steps >= k ==> steps_after(steps_before(p, k), k) == p,
{
}

/// The text of a position is the sequence and the step count, each read
/// back in hexadecimal, on either side of a colon.
pub proof fn lemma_position_text_reads_back(p: ReplayPosition)
    ensures
        exists|k: int|
            0 <= k < position_text(p).len() && position_text(p)[k] == ':' && hex_value(
                #[trigger] position_text(p).take(k),
            ) == p.sequence && hex_value(position_text(p).skip(k + 1)) == p.steps,
{
    lemma_hex_text_reads_back(p.sequence as nat);
    lemma_hex_text_reads_back(p.steps as nat);
    let t = position_text(p);
    let k = hex_text(p.sequence as nat).len() as int;
    assert(t.take(k) =~= hex_text(p.sequence as nat));
    assert(t.skip(k + 1) =~= hex_text(p.steps as nat));
    assert(t[k] == ':');
}

} // verus!
