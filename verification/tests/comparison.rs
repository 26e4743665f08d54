use guessing_game::comparison::{get_ordering, has_found};
use std::cmp::Ordering;

#[test]
fn twelve_equals_twelve() {
    let result = get_ordering(12, 12);
    assert_eq!(result, Ordering::Equal);
}

#[test]
fn twelve_greater_than_five() {
    // The secret 12 is greater than the guess 5, so the guess compares as less.
    let result = get_ordering(12, 5);
    assert_eq!(result, Ordering::Less);
}

#[test]
fn twelve_lesser_than_twenty() {
    // The secret 12 is less than the guess 20, so the guess compares as greater.
    let result = get_ordering(12, 20);
    assert_eq!(result, Ordering::Greater);
}

#[test]
fn equal_exactly_when_guess_is_secret() {
    for secret in 0..=120u32 {
        for guess in 0..=120u32 {
            assert_eq!(get_ordering(secret, guess) == Ordering::Equal, guess == secret);
        }
    }
}

#[test]
fn greater_exactly_when_guess_is_above() {
    for secret in 0..=120u32 {
        for guess in 0..=120u32 {
            assert_eq!(get_ordering(secret, guess) == Ordering::Greater, guess > secret);
        }
    }
}

#[test]
fn less_exactly_when_guess_is_below() {
    for secret in 0..=120u32 {
        for guess in 0..=120u32 {
            assert_eq!(get_ordering(secret, guess) == Ordering::Less, guess < secret);
        }
    }
}

#[test]
fn ordering_at_the_ends_of_the_range() {
    assert_eq!(get_ordering(0, u32::MAX), Ordering::Greater);
    assert_eq!(get_ordering(u32::MAX, 0), Ordering::Less);
    assert_eq!(get_ordering(u32::MAX, u32::MAX), Ordering::Equal);
    assert_eq!(get_ordering(0, 0), Ordering::Equal);
}

#[test]
fn found_only_on_equal() {
    assert!(has_found(Ordering::Equal));
    assert!(!has_found(Ordering::Less));
    assert!(!has_found(Ordering::Greater));
}

#[test]
fn repeated_calls_agree() {
    for (secret, guess) in [(12u32, 5u32), (12, 20), (12, 12), (1, 100), (100, 1)] {
        let first = get_ordering(secret, guess);
        let second = get_ordering(secret, guess);
        assert_eq!(first, second);
        assert_eq!(has_found(first), has_found(second));
        assert_eq!(has_found(first), has_found(first));
    }
}
