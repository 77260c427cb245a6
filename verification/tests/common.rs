/// Test helper: approximate float equality
fn approx_eq(a: f32, b: f32, epsilon: f32) -> bool {
    (a - b).abs() < epsilon
}

#[test]
fn test_approx_eq() {
    assert!(approx_eq(1.0, 1.0001, 0.001));
    assert!(!approx_eq(1.0, 2.0, 0.5));
}
