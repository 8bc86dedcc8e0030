//! The problem instance, the answer, and the predicates that describe a
//! correct answer.

use vstd::prelude::*;
use crate::distance::sq_dist;

verus! {

/// One problem instance: query vectors, a database of candidate vectors,
/// and the squared distance threshold. Coordinates are fixed-point
/// integers; the threshold is compared against exact squared distances,
/// which is equivalent to comparing distances, as both are non-negative.
pub struct Challenge {
    pub query_vectors: Vec<Vec<i32>>,
    pub vector_database: Vec<Vec<i32>>,
    pub max_sq_distance: u128,
}

/// A complete assignment: one database index per query, positionally
/// aligned with the query set.
pub struct Solution {
    pub indexes: Vec<usize>,
}

/// Every query vector has the same dimensionality as every database vector.
/// The harness that constructs challenges guarantees this; the solver
/// assumes it and does not validate it.
pub open spec fn dims_match(c: Challenge) -> bool {
    forall|qi: int, di: int|
        0 <= qi < c.query_vectors@.len() && 0 <= di < c.vector_database@.len()
            ==> (#[trigger] c.query_vectors@[qi]@.len())
            == (#[trigger] c.vector_database@[di]@.len())
}

/// The database vector at `di` lies within the distance threshold of the
/// query at `qi`.
pub open spec fn within(c: Challenge, qi: int, di: int) -> bool {
    sq_dist(c.query_vectors@[qi]@, c.vector_database@[di]@) <= c.max_sq_distance
}

/// Some database vector lies within the threshold of the query at `qi`.
pub open spec fn has_match(c: Challenge, qi: int) -> bool {
    exists|di: int| 0 <= di < c.vector_database@.len() && #[trigger] within(c, qi, di)
}

/// `di` is the smallest database index within the threshold of the query
/// at `qi`: the index a linear scan in database order finds first.
pub open spec fn is_first_match(c: Challenge, qi: int, di: int) -> bool {
    &&& 0 <= di < c.vector_database@.len()
    &&& within(c, qi, di)
    &&& forall|k: int| 0 <= k < di ==> !#[trigger] within(c, qi, k)
}

/// The solution invariant: one valid database index per query, each within
/// the threshold of its query.
pub open spec fn valid_solution(c: Challenge, s: Solution) -> bool {
    &&& s.indexes@.len() == c.query_vectors@.len()
    &&& forall|qi: int|
        0 <= qi < s.indexes@.len() ==> (#[trigger] s.indexes@[qi]) < c.vector_database@.len()
            && within(c, qi, s.indexes@[qi] as int)
}

/// Everything the solver promises of its outcome: on success, the first
/// matching index for every query; on failure, a witness query that no
/// database vector matches.
pub open spec fn solve_post(c: Challenge, r: Option<Solution>) -> bool {
    match r {
        Some(s) => {
            &&& s.indexes@.len() == c.query_vectors@.len()
            &&& forall|qi: int|
                0 <= qi < c.query_vectors@.len() ==> is_first_match(
                    c,
                    qi,
                    #[trigger] s.indexes@[qi] as int,
                )
        },
        None => exists|qi: int|
            0 <= qi < c.query_vectors@.len() && !#[trigger] has_match(c, qi),
    }
}

} // verus!
