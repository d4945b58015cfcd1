use watch_apps::apps::common::AppResult;
use watch_apps::apps::gyro::GyroApp;

fn show(ax: i16, ay: i16) -> (i32, i32, String) {
    let mut app = GyroApp::new();
    assert_eq!(app.update(ax, ay), AppResult::Continue);
    assert!(app.readings_fit());
    let s = app.screen();
    (s.ball_x, s.ball_y, s.axes)
}

#[test]
fn level_watch_centres_the_ball() {
    let app = GyroApp::new();
    let s = app.screen();
    assert_eq!((s.ball_x, s.ball_y), (205 - 12, 261 - 12));
    assert_eq!(s.axes, "X:0 Y:0");
    assert_eq!(app.name(), "Gyroscope");
}

#[test]
fn ball_follows_the_readings() {
    // one g on x moves the ball down by the full 74 pixels
    assert_eq!(show(100, 0).1, 261 + 74 - 12);
    // half a g on y moves it left by 37
    assert_eq!(show(0, 50).0, 205 - 37 - 12);
    assert_eq!(show(0, -50).0, 205 + 37 - 12);
}

#[test]
fn offsets_round_toward_zero() {
    // -74 / 100 is 0, not -1
    assert_eq!(show(0, 1).0, 205 - 12);
    // -222 / 100 is -2
    assert_eq!(show(0, 3).0, 205 - 2 - 12);
    assert_eq!(show(-3, 0).1, 261 - 2 - 12);
}

#[test]
fn ball_is_held_inside_the_ring() {
    assert_eq!(show(1000, 0).1, 261 + 74 - 12);
    assert_eq!(show(-1000, 0).1, 261 - 74 - 12);
    assert_eq!(show(0, -32768).0, 205 + 74 - 12);
    assert_eq!(show(0, 32767).0, 205 - 74 - 12);
}

#[test]
fn readings_text() {
    assert_eq!(show(-123, 45).2, "X:-123 Y:45");
    assert_eq!(show(7, -9).2, "X:7 Y:-9");
    assert_eq!(show(100, 10).2, "X:100 Y:10");
    // only three digit places: a thousands reading puts ':' in the hundreds place
    assert_eq!(show(1000, 0).2, "X::00 Y:0");
    assert_eq!(show(-32768, 0).2, "X:-w68 Y:0");
}

#[test]
fn readings_text_falls_back_when_not_utf8() {
    // 8000 / 100 = 80, '0' + 80 = 128: not valid UTF-8 on its own
    assert_eq!(show(8000, 0).2, "X:0 Y:0");
    assert_eq!(show(0, -12000).2, "X:0 Y:0");
}

#[test]
fn readings_that_would_overflow_are_reported() {
    let mut app = GyroApp::new();
    app.update(20800, 0);
    assert!(!app.readings_fit());
    app.update(0, -25599);
    assert!(!app.readings_fit());
    app.update(20799, 25600);
    assert!(app.readings_fit());
}

#[test]
fn ball_moves_with_the_reading() {
    let mut last = i32::MIN;
    for ax in (-300i16..=300).step_by(7) {
        let y = show(ax, 0).1;
        assert!(y >= last);
        assert!((261 - 74 - 12..=261 + 74 - 12).contains(&y));
        last = y;
    }
}
