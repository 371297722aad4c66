//! Reading and adjusting a display backlight's brightness.
//!
//! The library holds the logic: decoding and encoding the decimal control
//! files, the brightness arithmetic, the device locator's decisions and the
//! parsing of a requested adjustment. Reading and writing the files is left
//! to the caller, which hands the library plain values.
pub mod brightness;
pub mod cli;
pub mod decimal;
pub mod error;
pub mod locator;

pub use error::{ControlFile, Error};
