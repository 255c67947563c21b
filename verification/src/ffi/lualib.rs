//! The names under which the standard libraries are opened.

use vstd::prelude::*;

verus! {

pub const LUA_FILEHANDLE: &'static str = "FILE*";

pub const LUA_COLIBNAME: &'static str = "coroutine";

pub const LUA_MATHLIBNAME: &'static str = "math";

pub const LUA_STRLIBNAME: &'static str = "string";

pub const LUA_TABLIBNAME: &'static str = "table";

pub const LUA_IOLIBNAME: &'static str = "io";

pub const LUA_OSLIBNAME: &'static str = "os";

pub const LUA_LOADLIBNAME: &'static str = "package";

pub const LUA_DBLIBNAME: &'static str = "debug";

pub const LUA_UTF8LIBNAME: &'static str = "utf8";

} // verus!
