//! Integer arithmetic over 32-bit signed values, and an adapter that
//! reports the fallible operation through a status code and an output slot.
pub mod adapter;
pub mod arith;

pub use arith::{add, divide, exponent, multiply};
pub use adapter::{
    error_message_nul_terminated, rlib_add, rlib_divide, rlib_error_message, rlib_multiply,
    RlibError,
};
