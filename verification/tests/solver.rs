use vector_search::challenge::Challenge;
use vector_search::solver::assign_first_matches;
use vector_search::solver::solve_challenge;

fn challenge(
    query_vectors: Vec<Vec<i32>>,
    vector_database: Vec<Vec<i32>>,
    max_sq_distance: u128,
) -> Challenge {
    Challenge { query_vectors, vector_database, max_sq_distance }
}

#[test]
fn trivial_success() {
    // One query identical to the one database vector, threshold 0.
    let c = challenge(vec![vec![0, 0]], vec![vec![0, 0]], 0);
    let r = solve_challenge(&c).expect("query matches database vector 0");
    assert_eq!(r.indexes, vec![0]);
}

#[test]
fn threshold_exclusion() {
    // Distance is sqrt(200); threshold 1 (squared threshold 1) excludes it.
    let c = challenge(vec![vec![0, 0]], vec![vec![10, 10]], 1);
    assert!(solve_challenge(&c).is_none());
}

#[test]
fn multi_query_mixed_is_all_or_nothing() {
    // Coordinates scaled by 10, so a threshold of 0.1 becomes a squared
    // threshold of 1. The first two queries match exactly; the third is far
    // from everything, so the whole outcome is "no solution".
    let c = challenge(
        vec![vec![0, 0], vec![50, 50], vec![1000, 1000]],
        vec![vec![0, 0], vec![50, 50]],
        1,
    );
    assert!(solve_challenge(&c).is_none());
}

#[test]
fn tie_break_picks_index_zero() {
    // Both database vectors are exact matches; the scan picks index 0.
    let c = challenge(vec![vec![1, 1]], vec![vec![1, 1], vec![1, 1]], 0);
    let r = solve_challenge(&c).expect("both database vectors match");
    assert_eq!(r.indexes, vec![0]);
}

#[test]
fn tie_break_within_threshold() {
    // Index 0 and index 1 both lie within the threshold; index 0 wins even
    // though index 1 is the closer vector.
    let c = challenge(vec![vec![0, 0]], vec![vec![2, 0], vec![0, 0]], 9);
    let r = solve_challenge(&c).expect("both database vectors are within range");
    assert_eq!(r.indexes, vec![0]);
}

#[test]
fn repeated_calls_agree() {
    let c = challenge(
        vec![vec![3, 4], vec![-1, 7]],
        vec![vec![100, 100], vec![3, 5], vec![-1, 7]],
        4,
    );
    let r1 = solve_challenge(&c).expect("every query has a match");
    let r2 = solve_challenge(&c).expect("every query has a match");
    assert_eq!(r1.indexes, r2.indexes);
    assert_eq!(r1.indexes, vec![1, 2]);
}

#[test]
fn indexes_align_with_query_order() {
    let c = challenge(
        vec![vec![5, 5], vec![0, 0]],
        vec![vec![0, 0], vec![5, 5]],
        0,
    );
    let r = solve_challenge(&c).expect("each query matches one database vector");
    assert_eq!(r.indexes, vec![1, 0]);
}

#[test]
fn empty_query_set_succeeds_vacuously() {
    let c = challenge(vec![], vec![vec![7, 7]], 1_000_000);
    let r = solve_challenge(&c).expect("nothing to match");
    assert!(r.indexes.is_empty());
}

#[test]
fn empty_database_fails_any_query() {
    let c = challenge(vec![vec![0, 0]], vec![], u128::MAX);
    assert!(solve_challenge(&c).is_none());
}

#[test]
fn negative_coordinates_match_within_threshold() {
    // Distance between (-3, -4) and (0, 0) is 5, squared 25.
    let c = challenge(vec![vec![-3, -4]], vec![vec![0, 0]], 25);
    let r = solve_challenge(&c).expect("squared distance equals the threshold");
    assert_eq!(r.indexes, vec![0]);

    let tighter = challenge(vec![vec![-3, -4]], vec![vec![0, 0]], 24);
    assert!(solve_challenge(&tighter).is_none());
}

#[test]
fn assign_picks_first_true_per_row() {
    let m = vec![vec![false, true, true], vec![true, false, false]];
    let r = assign_first_matches(&m).expect("every row holds a true");
    assert_eq!(r, vec![1, 0]);
}

#[test]
fn assign_fails_on_all_false_row() {
    let m = vec![vec![true, true], vec![false, false]];
    assert!(assign_first_matches(&m).is_none());
}

#[test]
fn assign_fails_on_empty_row() {
    let m = vec![vec![true], vec![]];
    assert!(assign_first_matches(&m).is_none());
}

#[test]
fn assign_empty_matrix_succeeds_vacuously() {
    let m: Vec<Vec<bool>> = vec![];
    let r = assign_first_matches(&m).expect("nothing to match");
    assert!(r.is_empty());
}

#[test]
fn assign_agrees_with_solver() {
    // The same challenge solved directly and through a caller-supplied
    // match matrix, as an accelerated execution path would supply it.
    let c = challenge(
        vec![vec![3, 4], vec![-1, 7]],
        vec![vec![100, 100], vec![3, 5], vec![-1, 7]],
        4,
    );
    let direct = solve_challenge(&c).expect("every query has a match");
    let m: Vec<Vec<bool>> = c
        .query_vectors
        .iter()
        .map(|q| {
            c.vector_database
                .iter()
                .map(|v| {
                    vector_search::distance::euclidean_sq_distance(q, v) <= c.max_sq_distance
                })
                .collect()
        })
        .collect();
    let assigned = assign_first_matches(&m).expect("every row holds a true");
    assert_eq!(assigned, direct.indexes);
}
