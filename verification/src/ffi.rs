//! The interpreter's entry points as data: what is asked of it and what it
//! answers.

pub mod lauxlib;
pub mod lua;
pub mod lualib;
pub mod protocol;
