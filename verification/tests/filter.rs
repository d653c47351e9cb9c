use bloomfilter::BloomFilter;

#[test]
fn new_filter_test() {
    let filter = BloomFilter::new(16);
    assert_eq!(filter.none(), true);
    assert_eq!(filter.nbits(), 16);
}

#[test]
fn check_empty_filter_test() {
    let filter = BloomFilter::new(16);
    assert_eq!(filter.check("test"), false);
}

#[test]
fn set_value_in_filter_test() {
    let mut filter = BloomFilter::new(16);
    filter.set("test");
    assert_eq!(filter.check("test"), true);
}

#[test]
fn clear_filter_test() {
    let mut filter = BloomFilter::new(16);
    filter.set("test");
    assert_eq!(filter.none(), false);
    filter.clear();
    assert_eq!(filter.none(), true);
}

#[test]
fn no_false_negatives_test() {
    let mut filter = BloomFilter::new(32);
    let items = ["a", "b", "c", "longer item", "", "另一个"];
    for item in items {
        filter.set(item);
    }
    for item in items {
        assert_eq!(filter.check(item), true);
    }
}

#[test]
fn set_idempotent_test() {
    let mut once = BloomFilter::new(8);
    once.set("x");
    let mut twice = BloomFilter::new(8);
    twice.set("x");
    twice.set("x");
    // The two filters hold the same bit array, so every observation agrees.
    for item in ["x", "y", "z", "w", "v", "u", "t", "s"] {
        assert_eq!(once.check(item), twice.check(item));
    }
    assert_eq!(once.none(), twice.none());
}

#[test]
fn clear_resets_fully_test() {
    let mut filter = BloomFilter::new(8);
    for item in ["a", "b", "c", "d", "e", "f", "g", "h", "i", "j"] {
        filter.set(item);
    }
    filter.clear();
    assert_eq!(filter.none(), true);
    assert_eq!(filter.nbits(), 8);
    for item in ["a", "b", "c", "d", "e", "f", "g", "h", "i", "j"] {
        assert_eq!(filter.check(item), false);
    }
}

#[test]
fn check_and_set_pre_state_test() {
    let mut filter = BloomFilter::new(16);
    assert_eq!(filter.check_and_set("seen?"), false);
    assert_eq!(filter.check_and_set("seen?"), true);
    assert_eq!(filter.check("seen?"), true);
}

#[test]
fn capacity_one_test() {
    let filter = BloomFilter::new(1);
    assert_eq!(filter.nbits(), 1);
    assert_eq!(filter.none(), true);
    assert_eq!(filter.check("anything"), false);
}

#[test]
fn capacity_one_collision_test() {
    let mut filter = BloomFilter::new(1);
    filter.set("inserted");
    // A single slot means every query collides: 100% false positives.
    assert_eq!(filter.check("inserted"), true);
    assert_eq!(filter.check("another"), true);
    assert_eq!(filter.check(""), true);
}

#[test]
fn scenario_test() {
    let mut f = BloomFilter::new(16);
    assert_eq!(f.check("test"), false);
    f.set("test");
    assert_eq!(f.check("test"), true);
    f.clear();
    assert_eq!(f.check("test"), false);
}

#[test]
fn check_does_not_mutate_test() {
    let mut filter = BloomFilter::new(16);
    filter.check("a");
    filter.check("b");
    filter.check("c");
    assert_eq!(filter.none(), true);
    filter.set("a");
    filter.check("b");
    assert_eq!(filter.check("a"), true);
}

#[test]
fn hash_deterministic_test() {
    // Two equal items always collide with themselves, in either filter.
    let mut f1 = BloomFilter::new(1024);
    let mut f2 = BloomFilter::new(1024);
    f1.set("determinism");
    f2.set("determinism");
    assert_eq!(f1.check("determinism"), true);
    assert_eq!(f2.check("determinism"), true);
    for item in ["other", "items", "here"] {
        assert_eq!(f1.check(item), f2.check(item));
    }
}
