//! Matrix handles of the native OpenCV library, and the decisions that turn what
//! the native constructor hands back into a `Result`.
//!
//! The calls into the native library itself are foreign-function calls; they live
//! with the program that links the library. This crate holds the values those
//! calls exchange, as plain integers and bytes, and the logic around them.

pub mod mat;
pub mod text;
