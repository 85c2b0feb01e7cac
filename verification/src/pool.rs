use vstd::prelude::*;
use vstd::pervasive::VecAdditionalExecFns;

use crate::errors::QuizError;
use crate::pair::{Pair, PairView, pairs_equal};
use crate::rng::QuizRng;

verus! {

/// The views of the pairs of `s`, in order.
pub open spec fn views_of(s: Seq<Pair>) -> Seq<PairView> {
    s.map_values(|p: Pair| p@)
}

/// No two positions of `s` hold the same pair value.
pub open spec fn all_distinct(s: Seq<PairView>) -> bool {
    forall|i: int, j: int| 0 <= i < j < s.len() ==> s[i] != s[j]
}

/// The working subset of the corpus that one round of quizzing draws from.
/// Its members are distinct pairs taken from the corpus; it is replaced only
/// by an explicit reroll.
#[derive(Debug)]
pub struct QuestionPool {
    pairs: Vec<Pair>,
}

impl View for QuestionPool {
    type V = Seq<PairView>;

    closed spec fn view(&self) -> Seq<PairView> {
        views_of(self.pairs@)
    }
}

impl QuestionPool {
    /// Every member is distinct from every other.
    pub open spec fn wf(self) -> bool {
        all_distinct(self@)
    }

    /// How many pairs the pool holds.
    pub fn len(&self) -> (n: usize)
        ensures
            n == self@.len(),
    {
        self.pairs.len()
    }

    /// The member at position `i`.
    pub fn member(&self, i: usize) -> (r: &Pair)
        requires
            i < self@.len(),
        ensures
            r@ == self@[i as int],
    {
        &self.pairs[i]
    }

    /// Draws `size` distinct positions of `corpus` uniformly at random,
    /// without replacement, and returns the pairs found there; refuses with
    /// `InsufficientCorpus` exactly when `size` exceeds the corpus length.
    pub fn sample(corpus: &Vec<Pair>, size: usize, rng: &mut QuizRng) -> (r: Result<
        QuestionPool,
        QuizError,
    >)
        ensures
            size > corpus@.len() <==> r is Err,
            r is Err ==> r == Err::<QuestionPool, QuizError>(QuizError::InsufficientCorpus),
            r matches Ok(pool) ==> {
                &&& pool@.len() == size
                &&& forall|k: int|
                    0 <= k < size ==> views_of(corpus@).contains(#[trigger] pool@[k])
                &&& all_distinct(views_of(corpus@)) ==> pool.wf()
            },
    {
        let n = corpus.len();
        if size > n {
            return Err(QuizError::InsufficientCorpus);
        }
        let mut idx: Vec<usize> = Vec::new();
        let mut i: usize = 0;
        while i < n
            invariant
                i <= n,
                idx@.len() == i as int,
                forall|t: int| 0 <= t < i ==> idx@[t] == t,
            decreases n - i,
        {
            idx.push(i);
            i += 1;
        }
        // partial shuffle: after step k the first k + 1 positions are a
        // uniform draw of distinct positions of the corpus
        let mut k: usize = 0;
        while k < size
            invariant
                k <= size,
                size <= n,
                idx@.len() == n as int,
                forall|t: int| 0 <= t < n ==> idx@[t] < n,
                forall|t1: int, t2: int| 0 <= t1 < t2 < n ==> idx@[t1] != idx@[t2],
            decreases size - k,
        {
            let extra = rng.below(n - k);
            let j = k + extra;
            let a = idx[k];
            let b = idx[j];
            idx.set(k, b);
            idx.set(j, a);
            k += 1;
        }
        let mut out: Vec<Pair> = Vec::new();
        let mut t: usize = 0;
        while t < size
            invariant
                t <= size,
                size <= n,
                n == corpus@.len(),
                idx@.len() == n as int,
                forall|u: int| 0 <= u < n ==> idx@[u] < n,
                forall|t1: int, t2: int| 0 <= t1 < t2 < n ==> idx@[t1] != idx@[t2],
                out@.len() == t as int,
                forall|u: int| 0 <= u < t ==> (#[trigger] out@[u])@ == corpus@[idx@[u] as int]@,
            decreases size - t,
        {
            out.push(corpus[idx[t]].clone());
            t += 1;
        }
        let pool = QuestionPool { pairs: out };
        proof {
            assert forall|c: int| 0 <= c < size implies views_of(corpus@).contains(
                #[trigger] pool@[c],
            ) by {
                let u = idx@[c];
                assert(views_of(corpus@)[u as int] == pool@[c]);
            }
            if all_distinct(views_of(corpus@)) {
                assert forall|c1: int, c2: int| 0 <= c1 < c2 < pool@.len() implies pool@[c1]
                    != pool@[c2] by {
                    let u1 = idx@[c1] as int;
                    let u2 = idx@[c2] as int;
                    assert(pool@[c1] == views_of(corpus@)[u1]);
                    assert(pool@[c2] == views_of(corpus@)[u2]);
                    if u1 < u2 {
                        assert(views_of(corpus@)[u1] != views_of(corpus@)[u2]);
                    } else {
                        assert(views_of(corpus@)[u2] != views_of(corpus@)[u1]);
                    }
                }
            }
        }
        Ok(pool)
    }

    /// A random member of the pool; with at least two members and a supplied
    /// `current`, a member different from `current`. A pool of exactly one
    /// member yields that member even when it equals `current`.
    pub fn pick_excluding(&self, current: Option<&Pair>, rng: &mut QuizRng) -> (r: Pair)
        requires
            self.wf(),
            self@.len() >= 1,
        ensures
            self@.contains(r@),
            current matches Some(c) ==> self@.len() >= 2 ==> r@ != c@,
            self@.len() == 1 ==> r@ == self@[0],
    {
        match current {
            None => {
                let i = rng.below(self.pairs.len());
                let r = self.pairs[i].clone();
                proof {
                    assert(self@[i as int] == r@);
                }
                r
            },
            Some(c) => {
                let mut cands: Vec<usize> = Vec::new();
                let mut i: usize = 0;
                while i < self.pairs.len()
                    invariant
                        i <= self.pairs@.len(),
                        self@.len() == self.pairs@.len(),
                        forall|t: int|
                            0 <= t < cands@.len() ==> (#[trigger] cands@[t]) < i && self@[cands@[t] as int]
                                != c@,
                        cands@.len() == 0 ==> forall|u: int| 0 <= u < i ==> self@[u] == c@,
                    decreases self.pairs@.len() - i,
                {
                    if !pairs_equal(&self.pairs[i], c) {
                        proof {
                            assert(self@[i as int] == self.pairs@[i as int]@);
                        }
                        cands.push(i);
                    }
                    i += 1;
                }
                if cands.len() == 0 {
                    // every member equals the excluded pair; with distinct
                    // members the pool must be that single pair
                    proof {
                        if self@.len() >= 2 {
                            assert(self@[0] == c@);
                            assert(self@[1] == c@);
                            assert(false);
                        }
                    }
                    let r = self.pairs[0].clone();
                    proof {
                        assert(self@[0] == r@);
                    }
                    r
                } else {
                    let t = rng.below(cands.len());
                    let i = cands[t];
                    let r = self.pairs[i].clone();
                    proof {
                        assert(self@[i as int] == r@);
                    }
                    r
                }
            },
        }
    }

    /// Replaces the pool with a fresh draw from `corpus`, exactly as
    /// [`QuestionPool::sample`] does; on refusal the pool is unchanged.
    pub fn reroll(&mut self, corpus: &Vec<Pair>, size: usize, rng: &mut QuizRng) -> (r: Result<
        (),
        QuizError,
    >)
        ensures
            size > corpus@.len() <==> r is Err,
            r is Err ==> r == Err::<(), QuizError>(QuizError::InsufficientCorpus),
            r is Ok ==> {
                &&& final(self)@.len() == size
                &&& forall|k: int|
                    0 <= k < size ==> views_of(corpus@).contains(#[trigger] final(self)@[k])
                &&& all_distinct(views_of(corpus@)) ==> final(self).wf()
            },
            r is Err ==> *final(self) == *old(self),
    {
        match Self::sample(corpus, size, rng) {
            Ok(p) => {
                *self = p;
                Ok(())
            },
            Err(e) => Err(e),
        }
    }
}

} // verus!
