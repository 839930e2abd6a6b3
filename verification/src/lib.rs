//! Small string and integer utilities with machine-checked contracts.
//!
//! * [`string_concat`] joins two to five pieces of text into one freshly
//!   allocated `String`, reserving the exact number of bytes up front.
//! * [`string_concat_unsafe`] does the same for callers who have proved that
//!   their pieces fit one allocation, and skips the test of the total length.
//! * [`count_bits`] tells how many bits the value of an integer occupies.

pub mod count_bits;
pub mod string_concat;
pub mod string_concat_unsafe;
