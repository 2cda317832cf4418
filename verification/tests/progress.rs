use levels::progress::level_up_xp;

#[test]
fn level_up_xp_of_level_zero_is_100() {
    assert_eq!(level_up_xp(0), 100);
}

#[test]
fn level_up_xp_follows_the_quadratic_formula() {
    assert_eq!(level_up_xp(1), 153);
    assert_eq!(level_up_xp(10), 900);
    assert_eq!(level_up_xp(100), 35100);
}

#[test]
fn level_up_xp_at_the_ends_of_the_served_levels() {
    assert_eq!(level_up_xp(26746), 2147382948);
    assert_eq!(level_up_xp(-26754), 2145991948);
}

#[test]
fn level_up_xp_of_negative_levels() {
    assert_eq!(level_up_xp(-8), -108);
    assert_eq!(level_up_xp(-1), 53);
}

#[test]
fn level_up_xp_grows_from_level_zero_on() {
    let mut previous = level_up_xp(0);
    for level in 1..200 {
        let current = level_up_xp(level);
        assert!(current > previous);
        assert!(current >= 100);
        previous = current;
    }
}
