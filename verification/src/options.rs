//! Typed reading of the members of the JSON options document that a
//! `*_create` binding receives.
//!
//! A member that is missing, has the wrong JSON type or does not fit the
//! integer type asked for is a fatal error of the bindings: they stop with
//! the line that [`OptionError::message`] builds.
use vstd::prelude::*;
use vstd::string::*;
use crate::json::{as_flag, as_text, as_unsigned, field, JsonValue};

verus! {

/// Why a member of the options document could not be read.
#[derive(Clone, Copy, Debug, PartialEq, Eq, Structural)]
pub enum OptionProblem {
    NotAString,
    NotAU64,
    NotABool,
    OutOfUsizeRange,
    OutOfU32Range,
    OutOfU16Range,
    OutOfU8Range,
}

/// A member of the options document that could not be read.
#[derive(Debug)]
pub struct OptionError {
    pub key: String,
    pub problem: OptionProblem,
}

/// The end of the line that reports `problem`. A member that does not fit
/// its integer type fails a `try_from`, whose error the line ends with.
pub open spec fn problem_text(problem: OptionProblem) -> Seq<char> {
    match problem {
        OptionProblem::NotAString => "missing or not a string."@,
        OptionProblem::NotAU64 => "missing or not a u64."@,
        OptionProblem::NotABool => "missing or not a bool."@,
        OptionProblem::OutOfUsizeRange => "out of usize range.: TryFromIntError(())"@,
        OptionProblem::OutOfU32Range => "out of u32 range.: TryFromIntError(())"@,
        OptionProblem::OutOfU16Range => "out of u16 range.: TryFromIntError(())"@,
        OptionProblem::OutOfU8Range => "out of u8 range.: TryFromIntError(())"@,
    }
}

/// `[Arnelify Server]: Rust FFI error: '<key>' <problem>`
pub open spec fn option_error_text(key: Seq<char>, problem: OptionProblem) -> Seq<char> {
    "[Arnelify Server]: Rust FFI error: '"@ + key + "' "@ + problem_text(problem)
}

impl OptionError {
    /// The line with which the bindings stop on this error.
    pub fn message(&self) -> (r: String)
        ensures
            r@ == option_error_text(self.key@, self.problem),
    {
        let mut s = String::from_str("[Arnelify Server]: Rust FFI error: '");
        s.append(self.key.as_str());
        s.append("' ");
        let tail = match self.problem {
            OptionProblem::NotAString => "missing or not a string.",
            OptionProblem::NotAU64 => "missing or not a u64.",
            OptionProblem::NotABool => "missing or not a bool.",
            OptionProblem::OutOfUsizeRange => "out of usize range.: TryFromIntError(())",
            OptionProblem::OutOfU32Range => "out of u32 range.: TryFromIntError(())",
            OptionProblem::OutOfU16Range => "out of u16 range.: TryFromIntError(())",
            OptionProblem::OutOfU8Range => "out of u8 range.: TryFromIntError(())",
        };
        s.append(tail);
        s
    }
}

/// The string member `key`.
pub open spec fn read_text(opts: JsonValue, key: Seq<char>) -> Result<Seq<char>, OptionProblem> {
    match field(opts, key) {
        Some(v) => match as_text(v) {
            Some(s) => Ok(s),
            None => Err(OptionProblem::NotAString),
        },
        None => Err(OptionProblem::NotAString),
    }
}

/// The non-negative integer member `key`.
pub open spec fn read_u64(opts: JsonValue, key: Seq<char>) -> Result<u64, OptionProblem> {
    match field(opts, key) {
        Some(v) => match as_unsigned(v) {
            Some(n) => Ok(n),
            None => Err(OptionProblem::NotAU64),
        },
        None => Err(OptionProblem::NotAU64),
    }
}

/// The boolean member `key`.
pub open spec fn read_flag(opts: JsonValue, key: Seq<char>) -> Result<bool, OptionProblem> {
    match field(opts, key) {
        Some(v) => match as_flag(v) {
            Some(b) => Ok(b),
            None => Err(OptionProblem::NotABool),
        },
        None => Err(OptionProblem::NotABool),
    }
}

/// The integer member `key`, which must be at most `max`; `too_big` is the
/// problem reported when it is larger.
pub open spec fn read_bounded(
    opts: JsonValue,
    key: Seq<char>,
    max: int,
    too_big: OptionProblem,
) -> Result<u64, OptionProblem> {
    match read_u64(opts, key) {
        Ok(n) => if n <= max {
            Ok(n)
        } else {
            Err(too_big)
        },
        Err(p) => Err(p),
    }
}

pub open spec fn read_usize(opts: JsonValue, key: Seq<char>) -> Result<u64, OptionProblem> {
    read_bounded(opts, key, usize::MAX as int, OptionProblem::OutOfUsizeRange)
}

pub open spec fn read_u32(opts: JsonValue, key: Seq<char>) -> Result<u64, OptionProblem> {
    read_bounded(opts, key, u32::MAX as int, OptionProblem::OutOfU32Range)
}

pub open spec fn read_u16(opts: JsonValue, key: Seq<char>) -> Result<u64, OptionProblem> {
    read_bounded(opts, key, u16::MAX as int, OptionProblem::OutOfU16Range)
}

pub open spec fn read_u8(opts: JsonValue, key: Seq<char>) -> Result<u64, OptionProblem> {
    read_bounded(opts, key, u8::MAX as int, OptionProblem::OutOfU8Range)
}

/// The problem, if any, of a reading of member `key`.
pub open spec fn problem_of<T>(key: Seq<char>, r: Result<T, OptionProblem>) -> Option<(Seq<char>, OptionProblem)> {
    match r {
        Ok(_) => None,
        Err(p) => Some((key, p)),
    }
}

/// The first of two problems, in reading order.
pub open spec fn first(a: Option<(Seq<char>, OptionProblem)>, b: Option<(Seq<char>, OptionProblem)>) -> Option<(Seq<char>, OptionProblem)> {
    if a is Some {
        a
    } else {
        b
    }
}

/// Does `e` report problem `p` of member `key`?
pub open spec fn reports(e: OptionError, p: Option<(Seq<char>, OptionProblem)>) -> bool {
    p == Some((e.key@, e.problem))
}

fn option_error(key: &str, problem: OptionProblem) -> (r: OptionError)
    ensures
        r.key@ == key@,
        r.problem == problem,
{
    OptionError { key: key.to_owned(), problem }
}

/// The string member `key`; fails when it is missing or not a string.
pub fn get_str(opts: &JsonValue, key: &str) -> (r: Result<String, OptionError>)
    ensures
        r matches Ok(s) ==> read_text(*opts, key@) == Ok::<Seq<char>, OptionProblem>(s@),
        r matches Err(e) ==> reports(e, problem_of(key@, read_text(*opts, key@))),
        r is Ok <==> read_text(*opts, key@) is Ok,
{
    match opts.get(key) {
        Some(v) => match v.as_str() {
            Some(s) => Ok(s.to_owned()),
            None => Err(option_error(key, OptionProblem::NotAString)),
        },
        None => Err(option_error(key, OptionProblem::NotAString)),
    }
}

/// The non-negative integer member `key`; fails when it is missing or is
/// not a JSON integer in `0..=u64::MAX`.
pub fn get_u64(opts: &JsonValue, key: &str) -> (r: Result<u64, OptionError>)
    ensures
        r matches Ok(n) ==> read_u64(*opts, key@) == Ok::<u64, OptionProblem>(n),
        r matches Err(e) ==> reports(e, problem_of(key@, read_u64(*opts, key@))),
        r is Ok <==> read_u64(*opts, key@) is Ok,
{
    match opts.get(key) {
        Some(v) => match v.as_u64() {
            Some(n) => Ok(n),
            None => Err(option_error(key, OptionProblem::NotAU64)),
        },
        None => Err(option_error(key, OptionProblem::NotAU64)),
    }
}

/// The boolean member `key`; fails when it is missing or not a boolean.
pub fn get_bool(opts: &JsonValue, key: &str) -> (r: Result<bool, OptionError>)
    ensures
        r matches Ok(b) ==> read_flag(*opts, key@) == Ok::<bool, OptionProblem>(b),
        r matches Err(e) ==> reports(e, problem_of(key@, read_flag(*opts, key@))),
        r is Ok <==> read_flag(*opts, key@) is Ok,
{
    match opts.get(key) {
        Some(v) => match v.as_bool() {
            Some(b) => Ok(b),
            None => Err(option_error(key, OptionProblem::NotABool)),
        },
        None => Err(option_error(key, OptionProblem::NotABool)),
    }
}

/// The integer member `key` as a `usize`.
pub fn get_usize(opts: &JsonValue, key: &str) -> (r: Result<usize, OptionError>)
    ensures
        r matches Ok(n) ==> read_usize(*opts, key@) == Ok::<u64, OptionProblem>(n as u64),
        r matches Err(e) ==> reports(e, problem_of(key@, read_usize(*opts, key@))),
        r is Ok <==> read_usize(*opts, key@) is Ok,
{
    let n = get_u64(opts, key)?;
    if n as u128 <= usize::MAX as u128 {
        Ok(n as usize)
    } else {
        Err(option_error(key, OptionProblem::OutOfUsizeRange))
    }
}

/// The integer member `key` as a `u32`.
pub fn get_u32(opts: &JsonValue, key: &str) -> (r: Result<u32, OptionError>)
    ensures
        r matches Ok(n) ==> read_u32(*opts, key@) == Ok::<u64, OptionProblem>(n as u64),
        r matches Err(e) ==> reports(e, problem_of(key@, read_u32(*opts, key@))),
        r is Ok <==> read_u32(*opts, key@) is Ok,
{
    let n = get_u64(opts, key)?;
    if n <= u32::MAX as u64 {
        Ok(n as u32)
    } else {
        Err(option_error(key, OptionProblem::OutOfU32Range))
    }
}

/// The integer member `key` as a `u16`.
pub fn get_u16(opts: &JsonValue, key: &str) -> (r: Result<u16, OptionError>)
    ensures
        r matches Ok(n) ==> read_u16(*opts, key@) == Ok::<u64, OptionProblem>(n as u64),
        r matches Err(e) ==> reports(e, problem_of(key@, read_u16(*opts, key@))),
        r is Ok <==> read_u16(*opts, key@) is Ok,
{
    let n = get_u64(opts, key)?;
    if n <= u16::MAX as u64 {
        Ok(n as u16)
    } else {
        Err(option_error(key, OptionProblem::OutOfU16Range))
    }
}

/// The integer member `key` as a `u8`.
pub fn get_u8(opts: &JsonValue, key: &str) -> (r: Result<u8, OptionError>)
    ensures
        r matches Ok(n) ==> read_u8(*opts, key@) == Ok::<u64, OptionProblem>(n as u64),
        r matches Err(e) ==> reports(e, problem_of(key@, read_u8(*opts, key@))),
        r is Ok <==> read_u8(*opts, key@) is Ok,
{
    let n = get_u64(opts, key)?;
    if n <= u8::MAX as u64 {
        Ok(n as u8)
    } else {
        Err(option_error(key, OptionProblem::OutOfU8Range))
    }
}

} // verus!
