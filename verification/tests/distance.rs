use vector_search::distance::euclidean_sq_distance;

#[test]
fn exact_squared_distance() {
    // (4-1)^2 + (6-2)^2 + (3-3)^2 = 9 + 16 + 0 = 25.
    assert_eq!(euclidean_sq_distance(&vec![1, 2, 3], &vec![4, 6, 3]), 25);
}

#[test]
fn zero_distance_for_equal_vectors() {
    assert_eq!(euclidean_sq_distance(&vec![7, -9, 11], &vec![7, -9, 11]), 0);
}

#[test]
fn empty_vectors_have_zero_distance() {
    assert_eq!(euclidean_sq_distance(&vec![], &vec![]), 0);
}

#[test]
fn distance_spans_the_full_coordinate_range() {
    // The largest possible coordinate difference, squared exactly.
    let d = euclidean_sq_distance(&vec![i32::MIN], &vec![i32::MAX]);
    assert_eq!(d, 18_446_744_065_119_617_025);
}

#[test]
fn distance_is_symmetric() {
    let a = vec![3, -1, 4, -1, 5];
    let b = vec![-9, 2, -6, 5, 3];
    assert_eq!(euclidean_sq_distance(&a, &b), euclidean_sq_distance(&b, &a));
}
