use quantframe::knapsack::knapsack;

#[test]
fn knapsack_picks_best_subset() {
    let w = vec![5, 4, 6, 3];
    let v = vec![10, 40, 30, 50];
    let (best, sel, unsel) = knapsack(&w, &v, 10);
    assert_eq!(best, 90);
    assert_eq!(sel, vec![3, 1]);
    assert_eq!(unsel, vec![2, 0]);
}

#[test]
fn knapsack_zero_capacity() {
    let (best, sel, unsel) = knapsack(&vec![1, 2], &vec![3, 4], 0);
    assert_eq!(best, 0);
    assert!(sel.is_empty());
    assert_eq!(unsel, vec![1, 0]);
}

#[test]
fn knapsack_negative_values_left_out() {
    let (best, sel, _) = knapsack(&vec![1, 1], &vec![-5, 7], 2);
    assert_eq!(best, 7);
    assert_eq!(sel, vec![1]);
}

#[test]
fn knapsack_positions_partition_the_items() {
    let w = vec![2, 3, 4, 5, 1, 7];
    let v = vec![3, 4, 5, 6, 1, 9];
    let (_, sel, unsel) = knapsack(&w, &v, 9);
    let mut all: Vec<usize> = sel.iter().chain(unsel.iter()).cloned().collect();
    all.sort();
    assert_eq!(all, vec![0, 1, 2, 3, 4, 5]);
    assert!(sel.windows(2).all(|p| p[0] > p[1]));
    assert!(unsel.windows(2).all(|p| p[0] > p[1]));
}
