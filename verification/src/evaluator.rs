use vstd::prelude::*;

use crate::direction::Direction;
use crate::pair::{Pair, answer_spec};

verus! {

/// Exact comparison of a submitted text against the answer side of `pair`
/// under `direction`: case-sensitive, whitespace-sensitive, with no
/// normalization.
pub fn is_correct(submitted_text: &str, pair: &Pair, direction: Direction) -> (r: bool)
    ensures
        r == (submitted_text@ == answer_spec(pair@, direction)),
{
    let expected = pair.answer(direction);
    let submitted: String = submitted_text.to_owned();
    submitted == expected
}

} // verus!
