pub mod bluetooth_audio;
pub mod common;
pub mod gyro;
pub mod media;
pub mod settings;
