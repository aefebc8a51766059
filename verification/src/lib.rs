//! A byte buffer whose ownership can cross the boundary between managed
//! and foreign memory, released exactly once no matter which side frees it.

pub mod c_byte_array;
