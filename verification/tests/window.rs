use uplink_rows::time::{WallTime, WINDOW_FORMAT};
use uplink_rows::window::{artifact_name, parse_window, Window, WindowError, ARTIFACT_DIR};

#[test]
fn window_between_two_readable_bounds() {
    let window = parse_window("2024-12-13 11:00:00", "2024-12-13 18:00:00").unwrap();
    assert_eq!(window.start(), WallTime { secs: 1734087600, nanos: 0 });
    assert_eq!(window.end(), WallTime { secs: 1734112800, nanos: 0 });
}

#[test]
fn window_rejects_start_not_before_end() {
    let r = parse_window("2024-12-13 18:00:00", "2024-12-13 11:00:00");
    assert!(matches!(r, Err(WindowError::Empty)));
    let r = parse_window("2024-12-13 11:00:00", "2024-12-13 11:00:00");
    assert!(matches!(r, Err(WindowError::Empty)));
    let r = parse_window("2024-12-13 11:00:01", "2024-12-13 11:00:00");
    assert!(matches!(r, Err(WindowError::Empty)));
}

#[test]
fn window_of_one_second() {
    let window = parse_window("2024-12-13 11:00:00", "2024-12-13 11:00:01").unwrap();
    assert_eq!(window.end().secs - window.start().secs, 1);
}

#[test]
fn window_rejects_unreadable_bounds() {
    let r = parse_window("2024-12-13T11:00:00", "2024-12-13 18:00:00");
    assert!(matches!(r, Err(WindowError::UnreadableStart)));
    let r = parse_window("2024-12-13 11:00:00", "18:00:00");
    assert!(matches!(r, Err(WindowError::UnreadableEnd)));
    let r = parse_window("", "");
    assert!(matches!(r, Err(WindowError::UnreadableStart)));
    let r = parse_window("2024-02-30 11:00:00", "2024-12-13 18:00:00");
    assert!(matches!(r, Err(WindowError::UnreadableStart)));
    let r = parse_window("2024-12-13 11:00:00", "2024-12-13 24:00:00");
    assert!(matches!(r, Err(WindowError::UnreadableEnd)));
    let r = parse_window("2024-12-13 11:00:00 UTC", "2024-12-13 18:00:00");
    assert!(matches!(r, Err(WindowError::UnreadableStart)));
}

#[test]
fn unreadable_start_is_reported_before_an_empty_window() {
    let r = parse_window("later", "sooner");
    assert!(matches!(r, Err(WindowError::UnreadableStart)));
    let r = Window::between(None, Some(WallTime { secs: 0, nanos: 0 }));
    assert!(matches!(r, Err(WindowError::UnreadableStart)));
    let r = Window::between(Some(WallTime { secs: 0, nanos: 0 }), None);
    assert!(matches!(r, Err(WindowError::UnreadableEnd)));
}

#[test]
fn window_orders_by_seconds_then_nanoseconds() {
    let a = WallTime { secs: 10, nanos: 999_999_999 };
    let b = WallTime { secs: 11, nanos: 0 };
    let c = WallTime { secs: 11, nanos: 1 };
    let d = WallTime { secs: -5, nanos: 5 };
    assert!(a.is_before(&b));
    assert!(b.is_before(&c));
    assert!(d.is_before(&a));
    assert!(!b.is_before(&a));
    assert!(!b.is_before(&b));
    assert!(Window::new(a, b).is_ok());
    assert!(Window::new(b, c).is_ok());
    assert!(matches!(Window::new(c, b), Err(WindowError::Empty)));
    assert!(matches!(Window::new(b, b), Err(WindowError::Empty)));
    let w = Window::between(Some(d), Some(c)).unwrap();
    assert_eq!((w.start(), w.end()), (d, c));
}

#[test]
fn window_format_is_date_then_time() {
    assert_eq!(WINDOW_FORMAT, "%Y-%m-%d %H:%M:%S");
}

#[test]
fn artifact_name_joins_the_bounds() {
    assert_eq!(
        artifact_name("2024-12-13 11:00:00", "2024-12-13 18:00:00"),
        "2024-12-13 11:00:00__2024-12-13 18:00:00.csv"
    );
    assert_eq!(artifact_name("a", "b"), "a__b.csv");
    assert_eq!(artifact_name("", ""), "__.csv");
    assert_eq!(ARTIFACT_DIR, "datasets");
}
