//! Properties that hold of every outcome the solver can produce.
//!
//! Each proof function here takes outcomes that satisfy the solver's
//! postcondition and derives a property of them, so the properties hold of
//! whatever the executable functions return.

use vstd::prelude::*;
use crate::challenge::Challenge;
use crate::challenge::Solution;
use crate::challenge::has_match;
use crate::challenge::is_first_match;
use crate::challenge::solve_post;
use crate::challenge::within;
use crate::solver::assign_post;
use crate::solver::is_first_true;
use crate::solver::row_has_true;

verus! {

/// For one query there is at most one first match: the index a scan in
/// database order finds is uniquely determined.
pub proof fn lemma_first_match_unique(c: Challenge, qi: int, d1: int, d2: int)
    requires
        is_first_match(c, qi, d1),
        is_first_match(c, qi, d2),
    ensures
        d1 == d2,
{
    if d1 < d2 {
        assert(within(c, qi, d1));
        assert(!within(c, qi, d1));
    }
    if d2 < d1 {
        assert(within(c, qi, d2));
        assert(!within(c, qi, d2));
    }
}

/// Determinism: any two outcomes that satisfy the solver's postcondition
/// for the same challenge are identical, so solving the same challenge
/// twice yields the same outcome.
pub proof fn lemma_solve_deterministic(c: Challenge, r1: Option<Solution>, r2: Option<Solution>)
    requires
        solve_post(c, r1),
        solve_post(c, r2),
    ensures
        r1 is Some <==> r2 is Some,
        r1 is Some ==> r1.unwrap().indexes@ == r2.unwrap().indexes@,
{
    match r1 {
        Some(s1) => {
            assert forall|qi: int| 0 <= qi < c.query_vectors@.len() implies #[trigger] has_match(
                c,
                qi,
            ) by {
                assert(is_first_match(c, qi, s1.indexes@[qi] as int));
                assert(within(c, qi, s1.indexes@[qi] as int));
            }
            match r2 {
                Some(s2) => {
                    assert forall|qi: int|
                        0 <= qi < s1.indexes@.len() implies #[trigger] s1.indexes@[qi]
                        == s2.indexes@[qi] by {
                        lemma_first_match_unique(
                            c,
                            qi,
                            s1.indexes@[qi] as int,
                            s2.indexes@[qi] as int,
                        );
                    }
                    assert(s1.indexes@ =~= s2.indexes@);
                },
                None => {
                    let qi = choose|qi: int|
                        0 <= qi < c.query_vectors@.len() && !#[trigger] has_match(c, qi);
                    assert(has_match(c, qi));
                },
            }
        },
        None => {
            match r2 {
                Some(s2) => {
                    let qi = choose|qi: int|
                        0 <= qi < c.query_vectors@.len() && !#[trigger] has_match(c, qi);
                    assert(is_first_match(c, qi, s2.indexes@[qi] as int));
                    assert(within(c, qi, s2.indexes@[qi] as int));
                },
                None => {
                },
            }
        },
    }
}

/// First-match tie-break: when the database vectors at indices 0 and 1
/// both lie within the threshold of a query, a successful outcome assigns
/// index 0 to that query.
pub proof fn lemma_first_match_tie_break(c: Challenge, r: Option<Solution>, qi: int)
    requires
        solve_post(c, r),
        0 <= qi < c.query_vectors@.len(),
        2 <= c.vector_database@.len(),
        within(c, qi, 0),
        within(c, qi, 1),
    ensures
        r matches Some(s) ==> s.indexes@[qi] == 0,
{
    match r {
        Some(s) => {
            assert(is_first_match(c, qi, s.indexes@[qi] as int));
            if s.indexes@[qi] as int != 0 {
                assert(!within(c, qi, 0));
            }
        },
        None => {
        },
    }
}

/// The match matrix `m` records, row for row and position for position,
/// which database vectors lie within the threshold of which queries of `c`.
pub open spec fn reflects_challenge(m: Vec<Vec<bool>>, c: Challenge) -> bool {
    &&& m@.len() == c.query_vectors@.len()
    &&& forall|qi: int|
        0 <= qi < m@.len() ==> (#[trigger] m@[qi]@.len()) == c.vector_database@.len()
    &&& forall|qi: int, di: int|
        0 <= qi < m@.len() && 0 <= di < c.vector_database@.len() ==> ((#[trigger] m@[qi]@[di])
            == within(c, qi, di))
}

/// Observable equivalence of the two execution paths: when the match
/// matrix reflects the challenge, an outcome of the first-match assignment
/// and an outcome of the solver agree, query for query.
pub proof fn lemma_assign_equals_solve(
    c: Challenge,
    m: Vec<Vec<bool>>,
    r1: Option<Vec<usize>>,
    r2: Option<Solution>,
)
    requires
        reflects_challenge(m, c),
        assign_post(m, r1),
        solve_post(c, r2),
    ensures
        r1 is Some <==> r2 is Some,
        r1 is Some ==> r1.unwrap()@ == r2.unwrap().indexes@,
{
    match (r1, r2) {
        (Some(idxs), Some(s)) => {
            assert forall|qi: int| 0 <= qi < idxs@.len() implies #[trigger] idxs@[qi]
                == s.indexes@[qi] by {
                let d1 = idxs@[qi] as int;
                let d2 = s.indexes@[qi] as int;
                assert(is_first_true(m@[qi]@, d1));
                assert(is_first_match(c, qi, d2));
                if d1 < d2 {
                    assert(m@[qi]@[d1]);
                    assert(within(c, qi, d1));
                    assert(!within(c, qi, d1));
                }
                if d2 < d1 {
                    assert(within(c, qi, d2));
                    assert(m@[qi]@[d2]);
                    assert(!m@[qi]@[d2]);
                }
            }
            assert(idxs@ =~= s.indexes@);
        },
        (Some(idxs), None) => {
            let qi = choose|qi: int|
                0 <= qi < c.query_vectors@.len() && !#[trigger] has_match(c, qi);
            let d1 = idxs@[qi] as int;
            assert(is_first_true(m@[qi]@, d1));
            assert(m@[qi]@[d1]);
            assert(within(c, qi, d1));
        },
        (None, Some(s)) => {
            let qi = choose|qi: int| 0 <= qi < m@.len() && !#[trigger] row_has_true(m@[qi]@);
            let d2 = s.indexes@[qi] as int;
            assert(is_first_match(c, qi, d2));
            assert(within(c, qi, d2));
            assert(m@[qi]@[d2]);
            assert(row_has_true(m@[qi]@));
        },
        (None, None) => {
        },
    }
}

} // verus!
