pub mod ble;
pub mod touch;
