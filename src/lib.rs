//! A virtual machine for a 16-bit-word bytecode: fifteen-bit arithmetic,
//! eight registers, a 32768-word memory, an unbounded stack and line-buffered
//! character input.
pub mod lemmas;
pub mod ops;
pub mod util;
pub mod vm;
