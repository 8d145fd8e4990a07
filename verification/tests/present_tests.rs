use batstat::classify::BatteryStatus;
use batstat::present::{render, status_line};

const TS: &str = "2024-01-02 03:04";

#[test]
fn charging_line_shows_level_and_plus() {
    let line = render(TS, BatteryStatus::Charging, 42);
    assert_eq!(line, "2024-01-02 03:04 - \u{1f50b}42+");
    assert!(line.ends_with("\u{1f50b}42+"));
}

#[test]
fn discharging_line_shows_level_and_minus() {
    let line = render(TS, BatteryStatus::Discharging, 7);
    assert_eq!(line, "2024-01-02 03:04 - \u{1f50b}7-");
    assert!(line.ends_with("\u{1f50b}7-"));
}

#[test]
fn full_line_ignores_the_level() {
    let a = render(TS, BatteryStatus::Full, 0);
    let b = render(TS, BatteryStatus::Full, 100);
    assert_eq!(a, b);
    assert_eq!(a, "2024-01-02 03:04 - \u{1f50b}\u{2713}");
}

#[test]
fn unknown_line_ignores_the_level() {
    let a = render(TS, BatteryStatus::Unknown, 0);
    let b = render(TS, BatteryStatus::Unknown, 55);
    assert_eq!(a, b);
    assert_eq!(a, "2024-01-02 03:04 - \u{1f50b}?!");
    assert!(a.ends_with("\u{1f50b}?!"));
}

#[test]
fn discharging_level_eighty_three() {
    let line = render(TS, BatteryStatus::Discharging, 83);
    assert_eq!(line, "2024-01-02 03:04 - \u{1f50b}83-");
}

#[test]
fn levels_render_without_leading_zeros() {
    assert!(render(TS, BatteryStatus::Charging, 0).ends_with("\u{1f50b}0+"));
    assert!(render(TS, BatteryStatus::Charging, 9).ends_with("\u{1f50b}9+"));
    assert!(render(TS, BatteryStatus::Charging, 10).ends_with("\u{1f50b}10+"));
    assert!(render(TS, BatteryStatus::Charging, 100).ends_with("\u{1f50b}100+"));
    assert!(render(TS, BatteryStatus::Charging, 255).ends_with("\u{1f50b}255+"));
}

#[test]
fn status_line_is_timestamped_to_the_minute() {
    let line = status_line(BatteryStatus::Discharging, 83);
    assert!(line.ends_with(" - \u{1f50b}83-"));
    let stamp: Vec<char> = line.chars().take(16).collect();
    assert_eq!(stamp.len(), 16);
    for (i, c) in stamp.iter().enumerate() {
        match i {
            4 | 7 => assert_eq!(*c, '-'),
            10 => assert_eq!(*c, ' '),
            13 => assert_eq!(*c, ':'),
            _ => assert!(c.is_ascii_digit(), "timestamp digit expected at {}", i),
        }
    }
    assert_eq!(line.chars().count(), 16 + 3 + 4);
}

#[test]
fn full_status_line_ignores_the_level() {
    let a = status_line(BatteryStatus::Full, 0);
    let b = status_line(BatteryStatus::Full, 100);
    assert!(a.ends_with(" - \u{1f50b}\u{2713}"));
    assert!(b.ends_with(" - \u{1f50b}\u{2713}"));
}
