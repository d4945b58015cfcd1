//! Verified core of a smartwatch firmware: the state machines of its apps
//! (Bluetooth audio, gyroscope, media browser, settings), what each app
//! puts on screen, and the HCI command packets used for BLE advertising
//! and connections.
pub mod apps;
pub mod peripherals;
pub mod ui;
