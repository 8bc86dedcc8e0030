//! The nearest-within-threshold solver.

use vstd::prelude::*;
use crate::challenge::Challenge;
use crate::challenge::Solution;
use crate::challenge::dims_match;
use crate::challenge::has_match;
use crate::challenge::is_first_match;
use crate::challenge::solve_post;
use crate::challenge::valid_solution;
use crate::challenge::within;
use crate::distance::euclidean_sq_distance;

verus! {

/// Assigns to every query, in query order, the first database index whose
/// vector lies within the distance threshold, scanning the database in
/// index order. Returns `None` as soon as some query has no match: the
/// outcome is all-or-nothing, never a partial assignment.
pub fn solve_challenge(challenge: &Challenge) -> (result: Option<Solution>)
    requires
        dims_match(*challenge),
    ensures
        solve_post(*challenge, result),
        result matches Some(s) ==> valid_solution(*challenge, s),
        result is None <==> exists|qi: int|
            0 <= qi < challenge.query_vectors@.len() && !#[trigger] has_match(*challenge, qi),
{
    let mut indexes = Vec::<usize>::new();
    let q_count = challenge.query_vectors.len();
    let d_count = challenge.vector_database.len();
    let mut qi: usize = 0;
    while qi < q_count
        invariant
            dims_match(*challenge),
            q_count == challenge.query_vectors@.len(),
            d_count == challenge.vector_database@.len(),
            qi <= q_count,
            indexes@.len() == qi as int,
            forall|i: int|
                0 <= i < qi as int ==> is_first_match(
                    *challenge,
                    i,
                    #[trigger] indexes@[i] as int,
                ),
        decreases q_count - qi,
    {
        let query = &challenge.query_vectors[qi];
        let mut hit: Option<usize> = None;
        let mut di: usize = 0;
        while hit.is_none() && di < d_count
            invariant
                dims_match(*challenge),
                q_count == challenge.query_vectors@.len(),
                d_count == challenge.vector_database@.len(),
                qi < q_count,
                query == challenge.query_vectors@[qi as int],
                di <= d_count,
                match hit {
                    Some(h) => is_first_match(*challenge, qi as int, h as int),
                    None => forall|k: int|
                        0 <= k < di as int ==> !#[trigger] within(*challenge, qi as int, k),
                },
            decreases d_count - di,
        {
            let candidate = &challenge.vector_database[di];
            let dist = euclidean_sq_distance(query, candidate);
            if dist <= challenge.max_sq_distance {
                hit = Some(di);
            }
            di = di + 1;
        }
        match hit {
            Some(h) => {
                indexes.push(h);
            },
            None => {
                proof {
                    assert(!has_match(*challenge, qi as int));
                }
                return None;
            },
        }
        qi = qi + 1;
    }
    proof {
        assert forall|i: int| 0 <= i < q_count as int implies #[trigger] has_match(
            *challenge,
            i,
        ) by {
            assert(is_first_match(*challenge, i, indexes@[i] as int));
            assert(within(*challenge, i, indexes@[i] as int));
        }
    }
    Some(Solution { indexes })
}

/// Some position in the row is `true`.
pub open spec fn row_has_true(row: Seq<bool>) -> bool {
    exists|k: int| 0 <= k < row.len() && #[trigger] row[k]
}

/// `di` is the smallest position in the row that is `true`.
pub open spec fn is_first_true(row: Seq<bool>, di: int) -> bool {
    &&& 0 <= di < row.len()
    &&& row[di]
    &&& forall|k: int| 0 <= k < di ==> !(#[trigger] row[k])
}

/// Everything the first-match assignment promises of its outcome: on
/// success, the position of the first `true` in every row; on failure, a
/// witness row that holds no `true` at all.
pub open spec fn assign_post(m: Vec<Vec<bool>>, r: Option<Vec<usize>>) -> bool {
    match r {
        Some(idxs) => {
            &&& idxs@.len() == m@.len()
            &&& forall|qi: int|
                0 <= qi < m@.len() ==> is_first_true(m@[qi]@, #[trigger] idxs@[qi] as int)
        },
        None => exists|qi: int| 0 <= qi < m@.len() && !#[trigger] row_has_true(m@[qi]@),
    }
}

/// The first-match assignment with the threshold tests supplied by the
/// caller: row `qi` of `matches` records, for each database index, whether
/// that vector lies within the threshold of query `qi`. An alternate
/// execution path (for instance one that evaluates the distances on an
/// accelerator) can hand its results to this function and the selection
/// rule stays the verified one.
pub fn assign_first_matches(matches: &Vec<Vec<bool>>) -> (result: Option<Vec<usize>>)
    ensures
        assign_post(*matches, result),
        result is None <==> exists|qi: int|
            0 <= qi < matches@.len() && !#[trigger] row_has_true(matches@[qi]@),
{
    let mut indexes = Vec::<usize>::new();
    let q_count = matches.len();
    let mut qi: usize = 0;
    while qi < q_count
        invariant
            q_count == matches@.len(),
            qi <= q_count,
            indexes@.len() == qi as int,
            forall|i: int|
                0 <= i < qi as int ==> is_first_true(matches@[i]@, #[trigger] indexes@[i] as int),
        decreases q_count - qi,
    {
        let row = &matches[qi];
        let d_count = row.len();
        let mut hit: Option<usize> = None;
        let mut di: usize = 0;
        while hit.is_none() && di < d_count
            invariant
                q_count == matches@.len(),
                qi < q_count,
                row == matches@[qi as int],
                d_count == row@.len(),
                di <= d_count,
                match hit {
                    Some(h) => is_first_true(row@, h as int),
                    None => forall|k: int| 0 <= k < di as int ==> !(#[trigger] row@[k]),
                },
            decreases d_count - di,
        {
            if row[di] {
                hit = Some(di);
            }
            di = di + 1;
        }
        match hit {
            Some(h) => {
                indexes.push(h);
            },
            None => {
                proof {
                    assert(!row_has_true(matches@[qi as int]@));
                }
                return None;
            },
        }
        qi = qi + 1;
    }
    proof {
        assert forall|i: int| 0 <= i < q_count as int implies #[trigger] row_has_true(
            matches@[i]@,
        ) by {
            assert(is_first_true(matches@[i]@, indexes@[i] as int));
            assert(matches@[i]@[indexes@[i] as int]);
        }
    }
    Some(indexes)
}

} // verus!
