use vpsdash::scoring::{aggregate, weight_for, PhaseResult, PhaseWeight};

fn result(name: &str, primary: u32, secondary: u32) -> PhaseResult {
    PhaseResult {
        name: name.to_string(),
        primary_score: primary,
        secondary_score: secondary,
        duration_ms: 10,
        details: Vec::new(),
    }
}

#[test]
fn aggregate_single_weighted_phase() {
    let results = vec![result("A", 100, 200)];
    let weights = vec![PhaseWeight::new("A", 1000)];
    assert_eq!(aggregate(&results, &weights), (100, 200));
}

#[test]
fn aggregate_two_equal_weights() {
    let results = vec![result("A", 100, 200), result("B", 200, 400)];
    let weights = vec![PhaseWeight::new("A", 1000), PhaseWeight::new("B", 1000)];
    assert_eq!(aggregate(&results, &weights), (150, 300));
}

#[test]
fn aggregate_empty_is_zero() {
    assert_eq!(aggregate(&Vec::new(), &Vec::new()), (0, 0));
}

#[test]
fn aggregate_ignores_unweighted_names() {
    let results = vec![result("Z", 999, 999)];
    let weights = vec![PhaseWeight::new("A", 1000)];
    assert_eq!(aggregate(&results, &weights), (0, 0));
}

#[test]
fn aggregate_uneven_weights_truncate() {
    // (10*1 + 21*2) / 3 = 17.33.., (1*1 + 2*2) / 3 = 1.66..
    let results = vec![result("A", 10, 1), result("B", 21, 2)];
    let weights = vec![PhaseWeight::new("A", 1), PhaseWeight::new("B", 2)];
    assert_eq!(aggregate(&results, &weights), (17, 1));
}

#[test]
fn aggregate_largest_scores_do_not_overflow() {
    let results = vec![result("A", u32::MAX, u32::MAX), result("B", u32::MAX, 0)];
    let weights = vec![PhaseWeight::new("A", u32::MAX), PhaseWeight::new("B", u32::MAX)];
    assert_eq!(aggregate(&results, &weights), (u32::MAX, u32::MAX / 2));
}

#[test]
fn weight_lookup_is_exact_and_first_wins() {
    let weights = vec![
        PhaseWeight::new("cpu_int", 3),
        PhaseWeight::new("cpu_int", 9),
        PhaseWeight::new("cpu", 5),
    ];
    assert_eq!(weight_for(&weights, &"cpu_int".to_string()), 3);
    assert_eq!(weight_for(&weights, &"cpu".to_string()), 5);
    assert_eq!(weight_for(&weights, &"cpu_in".to_string()), 0);
}

#[test]
fn duplicate_keeps_every_field() {
    let mut r = result("A", 1, 2);
    r.details.push(("k".to_string(), "v".to_string()));
    let c = r.duplicate();
    assert_eq!(c.name, "A");
    assert_eq!((c.primary_score, c.secondary_score, c.duration_ms), (1, 2, 10));
    assert_eq!(c.details, vec![("k".to_string(), "v".to_string())]);
}
