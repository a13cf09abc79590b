//! Desktop controls: audio volume through the sound server's callback
//! protocol, backlight brightness, battery reports, the bluetooth service,
//! the night-shift colour program and a bookmark list.

pub mod bluetooth;
pub mod bookmark;
pub mod brightness;
pub mod bridge;
pub mod command;
pub mod nightshift;
pub mod power;
pub mod session;
pub mod storage;
pub mod sysfs;
pub mod text;
pub mod volume;
