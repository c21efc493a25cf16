//! The status-code interface: each fallible result is reported as an
//! `RlibError`, and a successful quotient is written into a caller's slot.
use crate::arith::{divide, multiply, trunc_div, wrap_i32};
use vstd::prelude::*;

verus! {

/// Status of an adapter call. Each variant has a fixed numeric code,
/// given by `RlibError::code`.
#[derive(Debug, Clone, Copy, PartialEq, Eq, Structural)]
pub enum RlibError {
    /// Success
    Success,
    /// Division by zero error
    DivisionByZero,
    /// Invalid argument (absent output slot)
    InvalidArgument,
}

/// The stable numeric code of each status.
pub open spec fn code_of(e: RlibError) -> i32 {
    match e {
        RlibError::Success => 0,
        RlibError::DivisionByZero => 1,
        RlibError::InvalidArgument => 2,
    }
}

/// The message text of each status.
pub open spec fn message_of(e: RlibError) -> Seq<char> {
    match e {
        RlibError::Success => "Success"@,
        RlibError::DivisionByZero => "Division by zero"@,
        RlibError::InvalidArgument => "Invalid argument"@,
    }
}

impl RlibError {
    /// Returns the stable numeric code of this status.
    pub fn code(&self) -> (r: i32)
        ensures
            r == code_of(*self),
    {
        match self {
            RlibError::Success => 0,
            RlibError::DivisionByZero => 1,
            RlibError::InvalidArgument => 2,
        }
    }

    /// Returns the status with numeric code `c`, if there is one.
    pub fn from_code(c: i32) -> (r: Option<RlibError>)
        ensures
            r matches Some(e) ==> code_of(e) == c,
            r.is_none() <==> !(0 <= c <= 2),
    {
        if c == 0 {
            Some(RlibError::Success)
        } else if c == 1 {
            Some(RlibError::DivisionByZero)
        } else if c == 2 {
            Some(RlibError::InvalidArgument)
        } else {
            None
        }
    }
}

/// Returns `a + b`, wrapped to 32 bits.
pub fn rlib_add(a: i32, b: i32) -> (r: i32)
    ensures
        r == wrap_i32(a + b),
{
    crate::arith::add(a, b)
}

/// Returns `a * b`, wrapped to 32 bits.
pub fn rlib_multiply(a: i32, b: i32) -> (r: i32)
    ensures
        r == wrap_i32(a * b),
{
    multiply(a, b)
}

/// What a division through a present slot reports: on a zero divisor the
/// status `DivisionByZero` with the slot unchanged, else the status `Success`
/// with the quotient (rounded toward zero, wrapped to 32 bits) in the slot.
pub open spec fn slot_division(a: i32, b: i32, before: i32, status: RlibError, after: i32) -> bool {
    if b == 0 {
        status == RlibError::DivisionByZero && after == before
    } else {
        status == RlibError::Success && after == wrap_i32(trunc_div(a as int, b as int))
    }
}

/// Two divisions with the same operands into slots holding the same value
/// report the same status and leave the same value: no state is carried
/// from one call to the next.
pub proof fn lemma_division_repeats(
    a: i32,
    b: i32,
    before: i32,
    status1: RlibError,
    after1: i32,
    status2: RlibError,
    after2: i32,
)
    requires
        slot_division(a, b, before, status1, after1),
        slot_division(a, b, before, status2, after2),
    ensures
        status1 == status2,
        after1 == after2,
{
}

/// Divides `a` by `b`. An absent slot gives `InvalidArgument` and nothing is
/// computed; a zero divisor gives `DivisionByZero` and the slot keeps its value;
/// otherwise the quotient (rounded toward zero, wrapped to 32 bits) is written
/// into the slot and the status is `Success`.
pub fn rlib_divide(a: i32, b: i32, result: Option<&mut i32>) -> (r: RlibError)
    ensures
        match result {
            None => r == RlibError::InvalidArgument,
            Some(slot) => slot_division(a, b, *slot, r, *final(slot)),
        },
{
    match result {
        None => RlibError::InvalidArgument,
        Some(slot) => match divide(a, b) {
            Ok(val) => {
                *slot = val;
                RlibError::Success
            },
            Err(_) => RlibError::DivisionByZero,
        },
    }
}

/// Returns the message text of `error`.
pub fn rlib_error_message(error: RlibError) -> (r: &'static str)
    ensures
        r@ == message_of(error),
{
    match error {
        RlibError::Success => "Success",
        RlibError::DivisionByZero => "Division by zero",
        RlibError::InvalidArgument => "Invalid argument",
    }
}

/// Returns the message text of `error` followed by a NUL character, for
/// callers that read NUL-terminated text.
pub fn error_message_nul_terminated(error: RlibError) -> (r: &'static str)
    ensures
        r@ == message_of(error).push('\0'),
{
    match error {
        RlibError::Success => {
            proof {
                reveal_strlit("Success");
                reveal_strlit("Success\0");
            }
            assert("Success\0"@ =~= "Success"@.push('\0'));
            "Success\0"
        },
        RlibError::DivisionByZero => {
            proof {
                reveal_strlit("Division by zero");
                reveal_strlit("Division by zero\0");
            }
            assert("Division by zero\0"@ =~= "Division by zero"@.push('\0'));
            "Division by zero\0"
        },
        RlibError::InvalidArgument => {
            proof {
                reveal_strlit("Invalid argument");
                reveal_strlit("Invalid argument\0");
            }
            assert("Invalid argument\0"@ =~= "Invalid argument"@.push('\0'));
            "Invalid argument\0"
        },
    }
}

} // verus!
