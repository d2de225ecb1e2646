use phantimer::ui::{format_time, render};

#[test]
fn formats_minutes_and_seconds_below_an_hour() {
    assert_eq!(format_time(0), "00:00");
    assert_eq!(format_time(5), "00:05");
    assert_eq!(format_time(59), "00:59");
    assert_eq!(format_time(60), "01:00");
    assert_eq!(format_time(300), "05:00");
    assert_eq!(format_time(754), "12:34");
    assert_eq!(format_time(3599), "59:59");
}

#[test]
fn formats_hours_from_one_hour_on() {
    assert_eq!(format_time(3600), "01:00:00");
    assert_eq!(format_time(3725), "01:02:05");
    assert_eq!(format_time(36000), "10:00:00");
    assert_eq!(format_time(86399), "23:59:59");
    assert_eq!(format_time(359999), "99:59:59");
}

#[test]
fn hours_take_as_many_digits_as_they_need() {
    assert_eq!(format_time(360000), "100:00:00");
    assert_eq!(format_time(u64::MAX), "5124095576030431:00:15");
}

#[test]
fn format_time_matches_the_standard_formatting() {
    for seconds in (0..200_000u64).step_by(37) {
        let hours = seconds / 3600;
        let minutes = (seconds % 3600) / 60;
        let secs = seconds % 60;
        let expected = if hours > 0 {
            format!("{:02}:{:02}:{:02}", hours, minutes, secs)
        } else {
            format!("{:02}:{:02}", minutes, secs)
        };
        assert_eq!(format_time(seconds), expected);
    }
}

#[test]
fn render_hands_on_text_and_progress() {
    let screen = render(90, 300);
    assert_eq!(screen.time_text, "01:30");
    assert_eq!(screen.remaining_secs, 90);
    assert_eq!(screen.total_secs, 300);

    let screen = render(0, 0);
    assert_eq!(screen.time_text, "00:00");
    assert_eq!(screen.remaining_secs, 0);
    assert_eq!(screen.total_secs, 0);

    let screen = render(7200, 7200);
    assert_eq!(screen.time_text, "02:00:00");
}
