//! The failures that brightness operations report.
use vstd::prelude::*;
use vstd::string::StringExecFns;

verus! {

/// Reported when the base directory holds no backlight device.
pub const NO_DEVICE_MESSAGE: &'static str =
    "Failed to get the first dir in /sys/class/backlight this most probably means you have no backlight.";

/// Reported when the `brightness` file holds no number.
pub const BRIGHTNESS_PARSE_MESSAGE: &'static str = "Failed to parse the brightness file.";

/// Reported when the `max_brightness` file holds no number.
pub const MAX_BRIGHTNESS_PARSE_MESSAGE: &'static str = "Failed to parse the max_brightness file.";

/// One of the two control files of a backlight device.
#[derive(Debug, Clone, Copy, PartialEq, Eq, Structural)]
pub enum ControlFile {
    /// `brightness`: the current brightness, readable and writable.
    Brightness,
    /// `max_brightness`: the largest brightness the device accepts.
    MaxBrightness,
}

/// Why a brightness operation failed.
#[derive(Debug, PartialEq, Eq)]
pub enum Error {
    /// Reading or writing a file failed; holds the system's description.
    IoError(String),
    /// The base directory holds no backlight device.
    FailedToGetFirstEntry,
    /// A control file does not hold an unsigned decimal number.
    ParseError(ControlFile),
}

impl Clone for Error {
    fn clone(&self) -> (r: Self)
        ensures
            r == *self,
    {
        match self {
            Error::IoError(s) => Error::IoError(s.clone()),
            Error::FailedToGetFirstEntry => Error::FailedToGetFirstEntry,
            Error::ParseError(f) => Error::ParseError(*f),
        }
    }
}

impl Error {
    /// A one-line description for the user.
    pub fn description(&self) -> (r: String)
        ensures
            r@ == match self {
                Error::IoError(s) => s@,
                Error::FailedToGetFirstEntry => NO_DEVICE_MESSAGE@,
                Error::ParseError(ControlFile::Brightness) => BRIGHTNESS_PARSE_MESSAGE@,
                Error::ParseError(ControlFile::MaxBrightness) => MAX_BRIGHTNESS_PARSE_MESSAGE@,
            },
    {
        match self {
            Error::IoError(s) => s.clone(),
            Error::FailedToGetFirstEntry => String::from_str(NO_DEVICE_MESSAGE),
            Error::ParseError(ControlFile::Brightness) => String::from_str(BRIGHTNESS_PARSE_MESSAGE),
            Error::ParseError(ControlFile::MaxBrightness) => String::from_str(
                MAX_BRIGHTNESS_PARSE_MESSAGE,
            ),
        }
    }
}

} // verus!
