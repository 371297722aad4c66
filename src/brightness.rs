//! Brightness arithmetic and the accessor operations.
//!
//! Each operation takes the text of the control files it needs, as read by
//! the caller (or the failure of that read, which includes a device that could
//! not be found), and returns the value read or the text to write back to the
//! `brightness` file.
use vstd::prelude::*;
use crate::decimal::{control_value, decimal, encode_decimal, parse_control_value, lemma_decimal_round_trip};
use crate::error::{ControlFile, Error};

verus! {

/// `max * pct / 100` computed exactly and then truncated toward zero.
pub open spec fn truncated_percent(max: int, pct: int) -> int {
    let p = max * pct;
    if p >= 0 {
        p / 100
    } else {
        -((-p) / 100)
    }
}

/// `v` brought into `[0, max]`.
pub open spec fn clamp(v: int, max: int) -> int {
    if v < 0 {
        0
    } else if v > max {
        max
    } else {
        v
    }
}

/// The brightness after moving `current` by `value`, or by `value` percent of `max`.
pub open spec fn relative_target(current: u32, max: u32, value: i32, percentage: bool) -> int {
    let delta = if percentage {
        truncated_percent(max as int, value as int)
    } else {
        value as int
    };
    clamp(current + delta, max as int)
}

/// The brightness after setting it to `value`, or to `value` percent of `max`.
pub open spec fn absolute_target(max: u32, value: u32, percentage: bool) -> int {
    let v = if percentage {
        truncated_percent(max as int, value as int)
    } else {
        value as int
    };
    clamp(v, max as int)
}

/// What reading a control file gives, from the outcome of reading its contents.
pub open spec fn reading(contents: Result<String, Error>, file: ControlFile) -> Result<u32, Error> {
    match contents {
        Err(e) => Err(e),
        Ok(b) => match control_value(b@) {
            Some(v) => Ok(v),
            None => Err(Error::ParseError(file)),
        },
    }
}

/// The brightness that setting `value` stores, given the maximum's reading.
pub open spec fn set_outcome(value: u32, max: Result<u32, Error>) -> Result<int, Error> {
    match max {
        Err(e) => Err(e),
        Ok(m) => Ok(clamp(value as int, m as int)),
    }
}

/// The brightness that a relative adjustment stores, given both readings.
pub open spec fn relative_outcome(
    value: i32,
    percentage: bool,
    current: Result<u32, Error>,
    max: Result<u32, Error>,
) -> Result<int, Error> {
    match current {
        Err(e) => Err(e),
        Ok(c) => match max {
            Err(e) => Err(e),
            Ok(m) => Ok(relative_target(c, m, value, percentage)),
        },
    }
}

/// The brightness that an absolute adjustment stores, given the maximum's reading.
pub open spec fn absolute_outcome(value: u32, percentage: bool, max: Result<u32, Error>) -> Result<
    int,
    Error,
> {
    match max {
        Err(e) => Err(e),
        Ok(m) => Ok(absolute_target(m, value, percentage)),
    }
}

/// `r` is the write that stores `outcome`: its decimal text, or the same failure.
pub open spec fn writes(r: Result<String, Error>, outcome: Result<int, Error>) -> bool {
    match outcome {
        Err(e) => r == Err::<String, Error>(e),
        Ok(v) => r is Ok && v >= 0 && r->Ok_0@ == decimal(v as nat),
    }
}

/// The new brightness for a relative adjustment; never below zero nor above `max`.
pub fn relative_brightness(current: u32, max: u32, value: i32, percentage: bool) -> (r: u32)
    ensures
        r as int == relative_target(current, max, value, percentage),
{
    let delta: i64 = if percentage {
        let m: i64 = max as i64;
        let v: i64 = value as i64;
        assert(-0x7fff_ffff_ffff_ffff <= m * v <= 0x7fff_ffff_ffff_ffff) by (nonlinear_arith)
            requires
                0 <= m <= 0xffff_ffff,
                -0x8000_0000 <= v <= 0x7fff_ffff,
        ;
        let p: i64 = m * v;
        if p >= 0 {
            p / 100
        } else {
            -((-p) / 100)
        }
    } else {
        value as i64
    };
    let t: i64 = current as i64 + delta;
    if t < 0 {
        0
    } else if t > max as i64 {
        max
    } else {
        t as u32
    }
}

/// The new brightness for an absolute adjustment; never above `max`.
pub fn absolute_brightness(max: u32, value: u32, percentage: bool) -> (r: u32)
    ensures
        r as int == absolute_target(max, value, percentage),
{
    let t: u64 = if percentage {
        let m: u64 = max as u64;
        let v: u64 = value as u64;
        assert(m * v <= 0xffff_ffff_ffff_ffff) by (nonlinear_arith)
            requires
                m <= 0xffff_ffff,
                v <= 0xffff_ffff,
        ;
        m * v / 100
    } else {
        value as u64
    };
    if t > max as u64 {
        max
    } else {
        t as u32
    }
}

fn read_value(contents: Result<String, Error>, file: ControlFile) -> (r: Result<u32, Error>)
    ensures
        r == reading(contents, file),
{
    match contents {
        Err(e) => Err(e),
        Ok(b) => match parse_control_value(b.as_str()) {
            Some(v) => Ok(v),
            None => Err(Error::ParseError(file)),
        },
    }
}

/// Reads the maximum brightness from the contents of `max_brightness`.
pub fn get_max_brightness(contents: Result<String, Error>) -> (r: Result<u32, Error>)
    ensures
        r == reading(contents, ControlFile::MaxBrightness),
{
    read_value(contents, ControlFile::MaxBrightness)
}

/// Reads the current brightness from the contents of `brightness`.
pub fn get_brightness(contents: Result<String, Error>) -> (r: Result<u32, Error>)
    ensures
        r == reading(contents, ControlFile::Brightness),
{
    read_value(contents, ControlFile::Brightness)
}

/// The text to write to `brightness` to set it to `value`, lowered to the
/// maximum read from the contents of `max_brightness` where it exceeds it.
pub fn set_brightness(value: u32, max_contents: Result<String, Error>) -> (r: Result<String, Error>)
    ensures
        writes(r, set_outcome(value, reading(max_contents, ControlFile::MaxBrightness))),
{
    match get_max_brightness(max_contents) {
        Err(e) => Err(e),
        Ok(m) => {
            let v = if value < m {
                value
            } else {
                m
            };
            Ok(encode_decimal(v))
        },
    }
}

/// The text to write to `brightness` to move it by `value`, or by `value`
/// percent of the maximum, from the current brightness.
pub fn adjust_brightness_relative(
    value: i32,
    percentage: bool,
    current_contents: Result<String, Error>,
    max_contents: Result<String, Error>,
) -> (r: Result<String, Error>)
    ensures
        writes(
            r,
            relative_outcome(
                value,
                percentage,
                reading(current_contents, ControlFile::Brightness),
                reading(max_contents, ControlFile::MaxBrightness),
            ),
        ),
{
    let current = match get_brightness(current_contents) {
        Err(e) => return Err(e),
        Ok(c) => c,
    };
    match get_max_brightness(max_contents) {
        Err(e) => Err(e),
        Ok(m) => Ok(encode_decimal(relative_brightness(current, m, value, percentage))),
    }
}

/// The text to write to `brightness` to set it to `value`, or to `value`
/// percent of the maximum.
pub fn adjust_brightness_absolute(
    value: u32,
    percentage: bool,
    max_contents: Result<String, Error>,
) -> (r: Result<String, Error>)
    ensures
        writes(r, absolute_outcome(value, percentage, reading(max_contents, ControlFile::MaxBrightness))),
{
    match get_max_brightness(max_contents) {
        Err(e) => Err(e),
        Ok(m) => Ok(encode_decimal(absolute_brightness(m, value, percentage))),
    }
}

/// Setting a brightness within the maximum and then reading the brightness
/// file back gives that brightness.
pub proof fn lemma_set_then_get(value: u32, max_contents: Result<String, Error>, written: Result<String, Error>)
    requires
        reading(max_contents, ControlFile::MaxBrightness) is Ok,
        value <= reading(max_contents, ControlFile::MaxBrightness)->Ok_0,
        writes(written, set_outcome(value, reading(max_contents, ControlFile::MaxBrightness))),
    ensures
        reading(written, ControlFile::Brightness) == Ok::<u32, Error>(value),
{
    lemma_decimal_round_trip(value);
}

/// Setting a brightness above the maximum stores the maximum.
pub proof fn lemma_set_clamps_high(value: u32, max_contents: Result<String, Error>, written: Result<String, Error>)
    requires
        reading(max_contents, ControlFile::MaxBrightness) is Ok,
        value > reading(max_contents, ControlFile::MaxBrightness)->Ok_0,
        writes(written, set_outcome(value, reading(max_contents, ControlFile::MaxBrightness))),
    ensures
        reading(written, ControlFile::Brightness) == Ok::<u32, Error>(
            reading(max_contents, ControlFile::MaxBrightness)->Ok_0,
        ),
{
    lemma_decimal_round_trip(reading(max_contents, ControlFile::MaxBrightness)->Ok_0);
}

/// Lowering the brightness by 1000 units from at most 1000 gives zero: the
/// result is held at zero, never negative and never wrapped.
pub proof fn lemma_relative_floor(current: u32, max: u32)
    requires
        current <= 1000,
    ensures
        relative_target(current, max, -1000i32, false) == 0,
{
}

/// Every adjustment stores a brightness between zero and the maximum.
pub proof fn lemma_targets_in_range(current: u32, max: u32, value: i32, unsigned_value: u32, percentage: bool)
    ensures
        0 <= relative_target(current, max, value, percentage) <= max,
        0 <= absolute_target(max, unsigned_value, percentage) <= max,
{
}

/// When a control file cannot be reached (a missing device among the causes),
/// every accessor operation that needs it reports that same failure and
/// yields no number.
pub proof fn lemma_failure_propagates(e: Error, contents: Result<String, Error>, value: i32, unsigned_value: u32, percentage: bool)
    ensures
        reading(Err(e), ControlFile::Brightness) == Err::<u32, Error>(e),
        reading(Err(e), ControlFile::MaxBrightness) == Err::<u32, Error>(e),
        set_outcome(unsigned_value, reading(Err(e), ControlFile::MaxBrightness)) == Err::<int, Error>(e),
        absolute_outcome(unsigned_value, percentage, reading(Err(e), ControlFile::MaxBrightness)) == Err::<int, Error>(e),
        relative_outcome(value, percentage, reading(Err(e), ControlFile::Brightness), reading(contents, ControlFile::MaxBrightness)) == Err::<int, Error>(e),
        relative_outcome(value, percentage, reading(contents, ControlFile::Brightness), reading(Err(e), ControlFile::MaxBrightness)) is Err,
{
}

} // verus!
