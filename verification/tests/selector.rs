use actuator_core::color::ColorState;
use actuator_core::selector::{ColorSelector, PATTERN_COUNT};

#[test]
fn selector_starts_at_index_zero() {
    assert_eq!(ColorSelector::new().index(), 0);
}

#[test]
fn six_toggles_return_to_index_zero() {
    let mut selector = ColorSelector::new();
    let mut seen = Vec::new();
    for _ in 0..6 {
        selector.toggle();
        seen.push(selector.index());
    }
    assert_eq!(seen, vec![1, 2, 3, 4, 5, 0]);
}

#[test]
fn six_toggles_return_to_any_starting_index() {
    for start in 0..PATTERN_COUNT {
        let mut selector = ColorSelector::with_index(start).unwrap();
        for step in 1..6u8 {
            selector.toggle();
            assert_eq!(selector.index(), (start + step) % 6);
            assert_ne!(selector.index(), start);
        }
        selector.toggle();
        assert_eq!(selector.index(), start);
    }
}

#[test]
fn with_index_accepts_the_six_patterns_only() {
    for index in 0..6u8 {
        assert_eq!(ColorSelector::with_index(index).map(|s| s.index()), Some(index));
    }
    assert!(ColorSelector::with_index(6).is_none());
    assert!(ColorSelector::with_index(7).is_none());
    assert!(ColorSelector::with_index(255).is_none());
}

#[test]
fn apply_follows_the_pattern_table() {
    let i = 321;
    let expected = [
        ColorState { r: i, g: 0, b: 0 },
        ColorState { r: 0, g: i, b: 0 },
        ColorState { r: 0, g: 0, b: i },
        ColorState { r: i, g: i, b: 0 },
        ColorState { r: i, g: 0, b: i },
        ColorState { r: 0, g: i, b: i },
    ];
    for (index, color) in expected.iter().enumerate() {
        let selector = ColorSelector::with_index(index as u8).unwrap();
        assert_eq!(selector.apply(i), *color);
    }
}

#[test]
fn apply_of_zero_is_off_for_every_pattern() {
    for index in 0..6u8 {
        let selector = ColorSelector::with_index(index).unwrap();
        assert_eq!(selector.apply(0), ColorState { r: 0, g: 0, b: 0 });
    }
}

#[test]
fn apply_does_not_move_the_selector() {
    let mut selector = ColorSelector::new();
    selector.toggle();
    selector.toggle();
    let first = selector.apply(u32::MAX);
    let second = selector.apply(u32::MAX);
    assert_eq!(first, ColorState { r: 0, g: 0, b: u32::MAX });
    assert_eq!(first, second);
    assert_eq!(selector.index(), 2);
}
