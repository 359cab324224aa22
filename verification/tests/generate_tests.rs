use dispatch_bench::generate::Generator;

#[test]
fn same_seed_reproduces_identical_contents() {
    let mut g1 = Generator::new(42);
    let mut g2 = Generator::new(42);
    let a1 = g1.fill(100);
    let b1 = g2.fill(100);
    assert_eq!(a1, b1);
    let a2 = g1.fill(100);
    let b2 = g2.fill(100);
    assert_eq!(a2, b2);
}

#[test]
fn draw_position_matters() {
    // The second hundred values of one generator are the values a fresh
    // generator with the same seed produces after skipping the first hundred.
    let mut g1 = Generator::new(7);
    let _ = g1.fill(100);
    let second = g1.fill(100);
    let mut g2 = Generator::new(7);
    let _ = g2.fill(100);
    assert_eq!(second, g2.fill(100));
}

#[test]
fn different_seeds_give_different_contents() {
    let mut g1 = Generator::new(42);
    let mut g2 = Generator::new(43);
    assert_ne!(g1.fill(100), g2.fill(100));
}

#[test]
fn fill_produces_requested_length() {
    let mut g = Generator::new(1);
    assert_eq!(g.fill(1).len(), 1);
    assert_eq!(g.fill(250).len(), 250);
}

#[test]
fn values_are_within_the_uniform_range() {
    let mut g = Generator::new(99);
    let a = g.fill(1000);
    assert!(a.iter().all(|&v| (0..i64::MAX).contains(&v)));
}
