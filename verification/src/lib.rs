//! Arithmetic, string and array utilities together with a small socket
//! client that frames JSON "ping" and "query" messages.

pub mod arrays;
pub mod client;
pub mod digits;
pub mod frame;
pub mod ids;
pub mod math;
pub mod parse;
pub mod strext;
pub mod text;
