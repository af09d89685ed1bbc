use oebb_monitor::model::{Destination, Formation, Remark, TrainItem};
use oebb_monitor::time::{calculate_delay, format_time, nonzero_delay};
use oebb_monitor::ui::{delay_color, Color};

fn item(scheduled: &str, expected: Option<&str>) -> TrainItem {
    TrainItem {
        scheduled: scheduled.to_string(),
        expected: expected.map(|s| s.to_string()),
        ..Default::default()
    }
}

#[test]
fn delay_positive() {
    let i = item(
        "2024-01-01T10:00:00+01:00",
        Some("2024-01-01T10:07:00+01:00"),
    );
    assert_eq!(calculate_delay(&i), Some(7));
}

#[test]
fn delay_negative() {
    let i = item(
        "2024-01-01T10:05:00+01:00",
        Some("2024-01-01T10:03:00+01:00"),
    );
    assert_eq!(calculate_delay(&i), Some(-2));
}

#[test]
fn delay_none_when_on_time() {
    let i = item(
        "2024-01-01T10:00:00+01:00",
        Some("2024-01-01T10:00:00+01:00"),
    );
    assert_eq!(calculate_delay(&i), None);
}

#[test]
fn delay_none_without_expected() {
    let i = item("2024-01-01T10:00:00+01:00", None);
    assert_eq!(calculate_delay(&i), None);
}

#[test]
fn format_time_invalid_is_dash() {
    assert_eq!(format_time("not-a-time"), "-");
}

#[test]
fn format_time_valid_is_hh_mm() {
    let formatted = format_time("2024-01-01T10:05:00+00:00");
    assert_eq!(formatted.len(), 5);
    assert_eq!(formatted.as_bytes()[2], b':');
}

#[test]
fn delay_colors() {
    assert_eq!(delay_color(0), Color::Green);
    assert_eq!(delay_color(-3), Color::Green);
    assert_eq!(delay_color(3), Color::Yellow);
    assert_eq!(delay_color(5), Color::Yellow);
    assert_eq!(delay_color(6), Color::Red);
}

#[test]
fn delay_across_offsets_and_seconds() {
    // The same instant written in two offsets is no delay.
    let i = item("2024-01-01T10:00:00+01:00", Some("2024-01-01T09:00:00Z"));
    assert_eq!(calculate_delay(&i), None);
    // Whole minutes, rounded toward zero.
    let i = item("2024-01-01T10:00:00Z", Some("2024-01-01T10:02:59Z"));
    assert_eq!(calculate_delay(&i), Some(2));
    let i = item("2024-01-01T10:00:00Z", Some("2024-01-01T09:58:30Z"));
    assert_eq!(calculate_delay(&i), Some(-1));
    let i = item("2024-01-01T10:00:00Z", Some("2024-01-01T10:00:59Z"));
    assert_eq!(calculate_delay(&i), None);
}

#[test]
fn delay_none_when_unparseable() {
    assert_eq!(calculate_delay(&item("soon", Some("2024-01-01T10:00:00Z"))), None);
    assert_eq!(calculate_delay(&item("2024-01-01T10:00:00Z", Some("later"))), None);
}

#[test]
fn zero_minutes_is_no_delay() {
    assert_eq!(nonzero_delay(0), None);
    assert_eq!(nonzero_delay(-4), Some(-4));
}

#[test]
fn format_time_is_digits_around_colon() {
    let f = format_time("2024-06-30T23:59:59.5+02:00");
    let b = f.as_bytes();
    assert_eq!(b.len(), 5);
    assert!(b[0].is_ascii_digit() && b[1].is_ascii_digit() && b[3].is_ascii_digit() && b[4].is_ascii_digit());
    assert_ne!(f, "2024-");
}

#[test]
fn model_copies_are_equal() {
    let t = TrainItem {
        id: "1".to_string(),
        remarks: Some(vec![Remark { text: Destination { default: "x".to_string() } }]),
        formation: Some(vec![Formation { wagon_number: Some("12".to_string()), ..Default::default() }]),
        ..Default::default()
    };
    let c = t.duplicate();
    assert_eq!(format!("{:?}", c), format!("{:?}", t));
}
