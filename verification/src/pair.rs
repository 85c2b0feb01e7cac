use vstd::prelude::*;

use crate::direction::Direction;

verus! {

/// The mathematical value of a [`Pair`]: both sides as character sequences.
#[verifier::ext_equal]
pub ghost struct PairView {
    pub source: Seq<char>,
    pub target: Seq<char>,
}

/// One vocabulary item: a source-script form and its target-script form.
/// Immutable once constructed; equality is structural on both sides.
#[derive(Debug)]
pub struct Pair {
    source: String,
    target: String,
}

impl View for Pair {
    type V = PairView;

    closed spec fn view(&self) -> PairView {
        PairView { source: self.source@, target: self.target@ }
    }
}

/// The prompt side of `p` under direction `d`.
pub open spec fn question_spec(p: PairView, d: Direction) -> Seq<char> {
    match d {
        Direction::SourceToTarget => p.source,
        Direction::TargetToSource => p.target,
    }
}

/// The answer side of `p` under direction `d`.
pub open spec fn answer_spec(p: PairView, d: Direction) -> Seq<char> {
    match d {
        Direction::SourceToTarget => p.target,
        Direction::TargetToSource => p.source,
    }
}

impl Pair {
    /// Builds a pair from its two sides.
    pub fn new(source: String, target: String) -> (r: Pair)
        ensures
            r@ == (PairView { source: source@, target: target@ }),
    {
        Pair { source, target }
    }

    /// The text shown as the prompt under `direction`.
    pub fn question(&self, direction: Direction) -> (r: String)
        ensures
            r@ == question_spec(self@, direction),
    {
        match direction {
            Direction::SourceToTarget => self.source.clone(),
            Direction::TargetToSource => self.target.clone(),
        }
    }

    /// The text expected as the answer under `direction`.
    pub fn answer(&self, direction: Direction) -> (r: String)
        ensures
            r@ == answer_spec(self@, direction),
    {
        match direction {
            Direction::SourceToTarget => self.target.clone(),
            Direction::TargetToSource => self.source.clone(),
        }
    }
}

impl Clone for Pair {
    /// A copy with the same two sides.
    fn clone(&self) -> (r: Pair)
        ensures
            r@ == self@,
    {
        Pair { source: self.source.clone(), target: self.target.clone() }
    }
}

/// Exact, case-sensitive equality of two string slices.
pub fn str_eq(a: &str, b: &str) -> (r: bool)
    ensures
        r == (a@ == b@),
{
    let sa: String = a.to_owned();
    let sb: String = b.to_owned();
    sa == sb
}

/// Structural equality of two pairs: both sides must match.
pub fn pairs_equal(a: &Pair, b: &Pair) -> (r: bool)
    ensures
        r == (a@ == b@),
{
    let r = a.source == b.source && a.target == b.target;
    proof {
        if r {
            assert(a@ =~= b@);
        }
    }
    r
}

/// What is asked under one direction is what is answered under the other.
pub proof fn lemma_question_answer_dual(p: PairView, d: Direction)
    ensures
        question_spec(p, d) == answer_spec(p, d.toggle_spec()),
{
}

} // verus!
