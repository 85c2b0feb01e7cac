use vstd::prelude::*;

verus! {

/// Which side of a pair is shown as the prompt, and which side is expected
/// back as the answer.
#[derive(Clone, Copy, Debug, PartialEq, Eq, Structural)]
pub enum Direction {
    /// Prompt with the source side; expect the target side.
    SourceToTarget,
    /// Prompt with the target side; expect the source side.
    TargetToSource,
}

impl Direction {
    /// The opposite direction.
    pub open spec fn toggle_spec(self) -> Direction {
        match self {
            Direction::SourceToTarget => Direction::TargetToSource,
            Direction::TargetToSource => Direction::SourceToTarget,
        }
    }

    /// Swaps `SourceToTarget` and `TargetToSource`.
    pub fn toggle(self) -> (r: Direction)
        ensures
            r == self.toggle_spec(),
    {
        match self {
            Direction::SourceToTarget => Direction::TargetToSource,
            Direction::TargetToSource => Direction::SourceToTarget,
        }
    }
}

/// Toggling a direction twice yields the direction itself.
pub proof fn lemma_toggle_involutive(d: Direction)
    ensures
        d.toggle_spec().toggle_spec() == d,
{
}

} // verus!
