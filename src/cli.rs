//! The value given on the command line: a number, with an optional leading
//! sign that asks for a relative adjustment and an optional trailing `%` that
//! asks for a percentage of the maximum.
use vstd::prelude::*;
use vstd::string::{StrSliceExecFns, StringExecFns};
use crate::decimal::{parse_i32, parse_u32, signed_prefix, unsigned_prefix};

verus! {

/// The form a value must have: an optional sign, digits, an optional `%`.
pub const VALUE_PATTERN: &'static str = "^[+-]?[0-9]+%?$";

/// The message for a value that does not have that form.
pub const VALUE_FORM_MESSAGE: &'static str = "Value provided does not match proper form.";

#[verifier::external_type_specification]
#[verifier::external_body]
pub struct ExRegex(regex::Regex);

/// Whether `pattern` compiles to a regular expression.
pub uninterp spec fn regex_compiles(pattern: Seq<char>) -> bool;

/// Whether the regular expression `pattern` matches somewhere in `haystack`.
pub uninterp spec fn regex_finds(pattern: Seq<char>, haystack: Seq<char>) -> bool;

/// A compiled regular expression with the pattern it was compiled from.
pub struct CompiledPattern {
    re: regex::Regex,
    source: String,
}

impl CompiledPattern {
    pub closed spec fn source(&self) -> Seq<char> {
        self.source@
    }
}

/// Relies on `regex::Regex::new`: compiles `pattern`, which fails for an
/// invalid pattern or one that would compile too large.
#[verifier::external_body]
fn compile(pattern: &str) -> (r: Option<CompiledPattern>)
    ensures
        r is Some <==> regex_compiles(pattern@),
        r is Some ==> r->0.source() == pattern@,
{
    match regex::Regex::new(pattern) {
        Ok(re) => Some(CompiledPattern { re, source: pattern.to_string() }),
        Err(_) => None,
    }
}

/// Relies on `regex::Regex::is_match`: whether the compiled pattern matches
/// somewhere in `haystack`.
#[verifier::external_body]
fn is_match(p: &CompiledPattern, haystack: &str) -> (r: bool)
    ensures
        r == regex_finds(p.source(), haystack@),
{
    p.re.is_match(haystack)
}

/// The answer of the value check, once it is known whether `value` has the
/// required form: an empty value passes as empty, a matching one passes
/// unchanged, any other is refused with a message.
pub fn validated(value: &str, matched: bool) -> (r: Result<String, String>)
    ensures
        value@.len() == 0 ==> r is Ok && r->Ok_0@.len() == 0,
        value@.len() > 0 && matched ==> r is Ok && r->Ok_0@ == value@,
        value@.len() > 0 && !matched ==> r is Err && r->Err_0@ == VALUE_FORM_MESSAGE@,
{
    if value.is_empty() {
        Ok(String::new())
    } else if matched {
        Ok(String::from_str(value))
    } else {
        Err(String::from_str(VALUE_FORM_MESSAGE))
    }
}

/// Checks that a command-line value has the form `VALUE_PATTERN` describes.
/// An empty value passes as empty.
pub fn value_validator(value: &str) -> (r: Result<String, String>)
    ensures
        value@.len() == 0 ==> r is Ok && r->Ok_0@.len() == 0,
        value@.len() > 0 && r is Ok ==> r->Ok_0@ == value@ && regex_finds(VALUE_PATTERN@, value@),
        value@.len() > 0 && !regex_finds(VALUE_PATTERN@, value@) ==> r is Err,
        value@.len() > 0 && regex_compiles(VALUE_PATTERN@) && regex_finds(VALUE_PATTERN@, value@)
            ==> r is Ok && r->Ok_0@ == value@,
{
    if value.is_empty() {
        return validated(value, true);
    }
    match compile(VALUE_PATTERN) {
        Some(p) => {
            let matched = is_match(&p, value);
            validated(value, matched)
        },
        None => Err(String::from_str("The value pattern could not be compiled.")),
    }
}

/// A requested brightness change.
#[derive(Debug, Clone, Copy, PartialEq, Eq, Structural)]
pub enum Adjustment {
    /// Move the brightness by `delta`, or by `delta` percent of the maximum.
    Relative { delta: i32, percentage: bool },
    /// Set the brightness to `value`, or to `value` percent of the maximum.
    Absolute { value: u32, percentage: bool },
}

/// The adjustment that a command-line value asks for: a trailing `%` marks a
/// percentage; a leading `+` or `-` a relative change, read as a signed
/// 32-bit number; anything else an absolute one, read as an unsigned 32-bit
/// number.
pub open spec fn adjustment_of(s: Seq<char>) -> Option<Adjustment> {
    let percentage = s.len() > 0 && s.last() == '%';
    let body = if percentage {
        s.drop_last()
    } else {
        s
    };
    if body.len() > 0 && (body[0] == '+' || body[0] == '-') {
        match parse_i32(body) {
            Some(v) => Some(Adjustment::Relative { delta: v, percentage }),
            None => None,
        }
    } else {
        match parse_u32(body) {
            Some(v) => Some(Adjustment::Absolute { value: v, percentage }),
            None => None,
        }
    }
}

/// Reads the adjustment a command-line value asks for; `None` where the
/// value is not a number of the accepted form or does not fit.
pub fn parse_adjustment(value: &str) -> (r: Option<Adjustment>)
    ensures
        r == adjustment_of(value@),
{
    let n = value.unicode_len();
    let percentage = n > 0 && value.get_char(n - 1) == '%';
    let end: usize = if percentage {
        n - 1
    } else {
        n
    };
    assert(value@.subrange(0, end as int) =~= if percentage {
        value@.drop_last()
    } else {
        value@
    });
    if end > 0 && (value.get_char(0) == '+' || value.get_char(0) == '-') {
        match signed_prefix(value, end) {
            Some(v) => Some(Adjustment::Relative { delta: v, percentage }),
            None => None,
        }
    } else {
        match unsigned_prefix(value, end) {
            Some(v) => Some(Adjustment::Absolute { value: v, percentage }),
            None => None,
        }
    }
}

} // verus!
