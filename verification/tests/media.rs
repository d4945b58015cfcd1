use watch_apps::apps::common::AppResult;
use watch_apps::apps::media::MediaApp;
use watch_apps::peripherals::touch::SwipeDirection;
use watch_apps::ui::Color;

fn names(n: usize) -> Vec<String> {
    (0..n).map(|i| format!("img{}.bmp", i)).collect()
}

fn visible(app: &MediaApp) -> Vec<(String, bool)> {
    app.screen().rows.into_iter().map(|r| (r.name, r.active)).collect()
}

#[test]
fn empty_app_shows_no_rows() {
    let mut app = MediaApp::new();
    assert_eq!(app.image_count(), 0);
    assert_eq!(app.selected_index(), 0);
    assert!(app.screen().rows.is_empty());
    assert_eq!(app.update(Some(SwipeDirection::Up)), AppResult::Continue);
    assert_eq!(app.selected_index(), 0);
    app.set_selected_index(5);
    assert_eq!(app.selected_index(), 0);
    assert_eq!(app.name(), "Media");
}

#[test]
fn list_shows_at_most_eight_rows() {
    let mut app = MediaApp::new();
    app.set_images(names(10));
    assert_eq!(app.image_count(), 10);
    let rows = app.screen().rows;
    assert_eq!(rows.len(), 8);
    assert_eq!(rows[0].name, "img0.bmp");
    assert!(rows[0].active);
    assert_eq!(rows[0].bg, Color::Rgb(4, 12, 16));
    assert_eq!(rows[7].name, "img7.bmp");
    assert!(!rows[7].active);
    assert_eq!(rows[7].bg, Color::Rgb(2, 4, 6));
}

#[test]
fn selecting_past_the_end_picks_the_last_image_and_scrolls() {
    let mut app = MediaApp::new();
    app.set_images(names(10));
    app.set_selected_index(100);
    assert_eq!(app.selected_index(), 9);
    let rows = visible(&app);
    assert_eq!(rows.len(), 8);
    assert_eq!(rows[0].0, "img2.bmp");
    assert_eq!(rows[7], ("img9.bmp".to_string(), true));
    app.set_selected_index(1);
    assert_eq!(app.selected_index(), 1);
    assert_eq!(visible(&app)[0], ("img1.bmp".to_string(), true));
    app.set_selected_index(4);
    assert_eq!(visible(&app)[0].0, "img1.bmp");
    assert_eq!(visible(&app)[3], ("img4.bmp".to_string(), true));
}

#[test]
fn swipes_move_the_selection() {
    let mut app = MediaApp::new();
    app.set_images(names(10));
    for _ in 0..8 {
        app.update(Some(SwipeDirection::Up));
    }
    assert_eq!(app.selected_index(), 8);
    assert_eq!(visible(&app)[0].0, "img1.bmp");
    app.update(Some(SwipeDirection::Up));
    app.update(Some(SwipeDirection::Up));
    assert_eq!(app.selected_index(), 9);
    app.update(Some(SwipeDirection::Down));
    assert_eq!(app.selected_index(), 8);
    assert_eq!(visible(&app)[0].0, "img2.bmp");
    app.update(Some(SwipeDirection::Left));
    app.update(Some(SwipeDirection::Right));
    app.update(None);
    assert_eq!(app.selected_index(), 8);
    app.set_selected_index(0);
    app.update(Some(SwipeDirection::Down));
    assert_eq!(app.selected_index(), 0);
}

#[test]
fn down_then_up_returns() {
    let mut app = MediaApp::new();
    app.set_images(names(5));
    app.set_selected_index(2);
    app.update(Some(SwipeDirection::Up));
    app.update(Some(SwipeDirection::Down));
    assert_eq!(app.selected_index(), 2);
}

#[test]
fn new_list_keeps_selection_when_it_fits() {
    let mut app = MediaApp::new();
    app.set_images(names(10));
    app.set_selected_index(9);
    app.set_images(names(12));
    assert_eq!(app.selected_index(), 9);
    // the list scrolls so that the selection comes first
    assert_eq!(visible(&app)[0], ("img9.bmp".to_string(), true));
    assert_eq!(visible(&app).len(), 3);
    app.set_images(names(3));
    assert_eq!(app.selected_index(), 0);
    assert_eq!(visible(&app).len(), 3);
    app.set_images(Vec::new());
    assert_eq!(app.selected_index(), 0);
    assert!(app.screen().rows.is_empty());
}
