use companion_bot::delay::{delay_for_hours, icon_delay};
use companion_bot::error::BotError;

#[test]
fn zero_maximum_disables_rotation() {
    for min in [0u64, 1, 5, 1000, u64::MAX] {
        assert_eq!(icon_delay(min, 0), Ok(None));
    }
}

#[test]
fn minimum_above_maximum_is_a_configuration_error() {
    assert_eq!(icon_delay(5, 2), Err(BotError::Configuration));
}

#[test]
fn equal_bounds_give_exactly_that_delay() {
    for _ in 0..20 {
        assert_eq!(icon_delay(3, 3), Ok(Some(10_800)));
    }
}

#[test]
fn drawn_delay_stays_within_bounds() {
    let mut seen = std::collections::HashSet::new();
    for _ in 0..400 {
        let d = icon_delay(1, 4).unwrap().unwrap();
        assert!((3_600..=14_400).contains(&d));
        assert_eq!(d % 3_600, 0);
        seen.insert(d);
    }
    assert!(seen.len() > 1);
}

#[test]
fn zero_drawn_hours_disable_rotation() {
    assert_eq!(icon_delay(0, 0), Ok(None));
    for _ in 0..50 {
        let r = icon_delay(0, 1).unwrap();
        assert!(r == None || r == Some(3_600));
    }
}

#[test]
fn hours_convert_to_seconds() {
    assert_eq!(delay_for_hours(0), Ok(None));
    assert_eq!(delay_for_hours(1), Ok(Some(3_600)));
    assert_eq!(delay_for_hours(24), Ok(Some(86_400)));
}

#[test]
fn oversized_delay_is_a_configuration_error() {
    let limit = u64::MAX / 3_600;
    assert_eq!(delay_for_hours(limit), Ok(Some(limit * 3_600)));
    assert_eq!(delay_for_hours(limit + 1), Err(BotError::Configuration));
    assert_eq!(icon_delay(u64::MAX, u64::MAX), Err(BotError::Configuration));
}
