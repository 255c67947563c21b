//! The verified core of a binding to an embeddable scripting interpreter.
//!
//! Nothing here touches the interpreter. Every operation of a handle is a
//! script: it says which native entry point to call next, given the answers
//! to the calls made so far, and what the operation returns in the end. A
//! host runs a script by performing each call on the interpreter and handing
//! the answer back.

pub mod ffi;
pub mod state;
pub mod types;

pub use ffi::lua::c_int;
pub use ffi::lua::LuaFunction;
pub use state::State;
pub use state::ThreadStatus;
pub use types::LuaObject;
pub use types::LuaValue;
