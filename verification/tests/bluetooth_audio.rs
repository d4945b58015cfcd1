use watch_apps::apps::bluetooth_audio::{BluetoothAudioApp, OutputMode};
use watch_apps::apps::common::AppResult;
use watch_apps::ui::Color;

const CONNECT: (u16, u16) = (100, 170);
const OUTPUT: (u16, u16) = (100, 240);
const HEADPHONES: (u16, u16) = (100, 300);

#[test]
fn new_app_is_idle() {
    let app = BluetoothAudioApp::new();
    assert_eq!(app.output_mode(), OutputMode::Auto);
    assert!(!app.headphones_connected());
    let s = app.screen();
    assert_eq!(s.target, "--:--:--:--:--:--");
    assert_eq!(s.status, "DISCONNECTED");
    assert_eq!(s.status_color, Color::Yellow);
    assert_eq!(s.connect_label, "CONNECT");
    assert_eq!(s.connect_bg, Color::Rgb(2, 12, 20));
    assert_eq!(s.output_label, "OUTPUT: AUTO");
    assert_eq!(s.headphones_label, "HP LINK: OFF");
    assert_eq!(s.headphones_bg, Color::Rgb(6, 6, 6));
    assert_eq!(s.route, "SPEAKER");
    assert_eq!(app.name(), "Bluetooth Audio");
}

#[test]
fn connect_then_disconnect() {
    let mut app = BluetoothAudioApp::new();
    app.handle_tap(CONNECT.0, CONNECT.1);
    assert_eq!(app.screen().status, "CONNECTING...");
    assert_eq!(app.screen().connect_label, "DISCONNECT");
    assert_eq!(app.screen().connect_bg, Color::Rgb(16, 4, 2));
    assert!(app.take_connect_request());
    assert!(!app.take_connect_request());
    assert!(!app.take_disconnect_request());

    app.set_connected(true);
    let s = app.screen();
    assert_eq!(s.status, "CONNECTED");
    assert_eq!(s.status_color, Color::Green);

    app.handle_tap(CONNECT.0, CONNECT.1);
    assert_eq!(app.screen().status, "DISCONNECTED");
    assert!(app.take_disconnect_request());
    assert!(!app.take_disconnect_request());
    assert!(!app.take_connect_request());
}

#[test]
fn two_taps_on_connect_from_idle_raise_both_requests() {
    let mut app = BluetoothAudioApp::new();
    app.handle_tap(CONNECT.0, CONNECT.1);
    app.handle_tap(CONNECT.0, CONNECT.1);
    assert_eq!(app.screen().status, "DISCONNECTED");
    assert!(app.take_connect_request());
    assert!(app.take_disconnect_request());
}

#[test]
fn set_connected_ends_connecting() {
    let mut app = BluetoothAudioApp::new();
    app.handle_tap(CONNECT.0, CONNECT.1);
    app.set_connected(false);
    assert_eq!(app.screen().status, "DISCONNECTED");
    assert_eq!(app.screen().connect_label, "CONNECT");
}

#[test]
fn output_button_cycles_through_three_modes() {
    let mut app = BluetoothAudioApp::new();
    app.handle_tap(OUTPUT.0, OUTPUT.1);
    assert_eq!(app.output_mode(), OutputMode::Speaker);
    assert_eq!(app.screen().output_label, "OUTPUT: SPEAKER");
    assert_eq!(app.active_output_label(), "SPEAKER");
    app.handle_tap(OUTPUT.0, OUTPUT.1);
    assert_eq!(app.output_mode(), OutputMode::Headphones);
    assert_eq!(app.screen().output_label, "OUTPUT: HEADPHONES");
    assert_eq!(app.active_output_label(), "HEADPHONES (AMP)");
    app.handle_tap(OUTPUT.0, OUTPUT.1);
    assert_eq!(app.output_mode(), OutputMode::Auto);
}

#[test]
fn headphone_button_flips_link_and_auto_route() {
    let mut app = BluetoothAudioApp::new();
    app.handle_tap(HEADPHONES.0, HEADPHONES.1);
    assert!(app.headphones_connected());
    let s = app.screen();
    assert_eq!(s.headphones_label, "HP LINK: ON");
    assert_eq!(s.headphones_bg, Color::Rgb(2, 16, 6));
    assert_eq!(s.route, "HEADPHONES (AMP)");
    app.handle_tap(HEADPHONES.0, HEADPHONES.1);
    assert!(!app.headphones_connected());
    assert_eq!(app.active_output_label(), "SPEAKER");
}

#[test]
fn speaker_mode_ignores_headphones() {
    let mut app = BluetoothAudioApp::new();
    app.handle_tap(HEADPHONES.0, HEADPHONES.1);
    app.handle_tap(OUTPUT.0, OUTPUT.1);
    assert_eq!(app.active_output_label(), "SPEAKER");
}

#[test]
fn button_edges_and_gaps() {
    let mut app = BluetoothAudioApp::new();
    // edges belong to the buttons
    app.handle_tap(30, 150);
    assert!(app.take_connect_request());
    app.handle_tap(380, 274);
    assert_eq!(app.output_mode(), OutputMode::Speaker);
    app.handle_tap(30, 342);
    assert!(app.headphones_connected());
    // outside the buttons nothing happens
    let before = app.screen();
    for (x, y) in [(29u16, 170u16), (381, 170), (100, 149), (100, 207), (100, 217), (100, 343), (0, 0)] {
        app.handle_tap(x, y);
    }
    let after = app.screen();
    assert_eq!(after.status, before.status);
    assert_eq!(after.output_label, before.output_label);
    assert_eq!(after.headphones_label, before.headphones_label);
    assert!(!app.take_connect_request());
    assert!(!app.take_disconnect_request());
}

#[test]
fn target_label_is_cut_to_capacity() {
    let mut app = BluetoothAudioApp::new();
    app.set_target_label("AA:BB:CC:DD:EE:FF");
    assert_eq!(app.screen().target, "AA:BB:CC:DD:EE:FF");
    app.set_target_label("0123456789ABCDEFGHIJ");
    assert_eq!(app.screen().target, "0123456789ABCDEFGH");
    app.set_target_label("");
    assert_eq!(app.screen().target, "");
    app.set_target_label("ééééééééé");
    assert_eq!(app.screen().target, "ééééééééé");
}

#[test]
fn target_label_cut_inside_a_character_reads_dashes() {
    let mut app = BluetoothAudioApp::new();
    app.set_target_label("aééééééééé");
    assert_eq!(app.screen().target, "--");
}

#[test]
fn setup_drops_pending_requests() {
    let mut app = BluetoothAudioApp::new();
    app.handle_tap(CONNECT.0, CONNECT.1);
    app.handle_tap(CONNECT.0, CONNECT.1);
    app.setup();
    assert!(!app.take_connect_request());
    assert!(!app.take_disconnect_request());
    assert_eq!(app.update(), AppResult::Continue);
}
