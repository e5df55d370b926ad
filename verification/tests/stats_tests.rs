use threadstone::stats::summarize;

#[test]
fn summary_of_known_values_is_exact() {
    let values: Vec<u64> = vec![10, 20, 30];
    let s = summarize(&values).unwrap();
    assert_eq!(s.average, 20);
    assert_eq!(s.min, 10);
    assert_eq!(s.max, 30);
}

#[test]
fn summary_rounds_the_mean_toward_zero() {
    let values: Vec<u64> = vec![1, 2, 2];
    let s = summarize(&values).unwrap();
    // the exact mean is 5/3; the integer mean rounds down
    assert_eq!(s.average, 1);
    assert_eq!(s.min, 1);
    assert_eq!(s.max, 2);
}

#[test]
fn summary_of_empty_values_is_refused() {
    let values: Vec<u64> = vec![];
    assert!(summarize(&values).is_none());
}

#[test]
fn summary_handles_extreme_values_without_overflow() {
    let values: Vec<u64> = vec![u64::MAX, u64::MAX, u64::MAX];
    let s = summarize(&values).unwrap();
    assert_eq!(s.average, u64::MAX);
    assert_eq!(s.min, u64::MAX);
    assert_eq!(s.max, u64::MAX);
}

#[test]
fn average_lies_within_extrema() {
    let cases: Vec<Vec<u64>> = vec![
        vec![7],
        vec![1, 1_000_000],
        vec![5, 5, 5, 5],
        vec![0, u64::MAX],
        vec![3, 9, 27, 81, 243],
    ];
    for values in cases {
        let s = summarize(&values).unwrap();
        assert!(s.min <= s.average && s.average <= s.max);
        for v in &values {
            assert!(s.min <= *v && *v <= s.max);
        }
    }
}
