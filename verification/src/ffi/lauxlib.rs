//! The auxiliary library: registration tables and load-and-run helpers.
#![allow(non_camel_case_types)]
#![allow(non_snake_case)]

use vstd::prelude::*;
use vstd::slice::slice_subrange;
use super::lua::c_int;
use super::lua::size_t;
use super::lua::lua_CFunction;
use super::lua::cast_keeps_low_bits;
use super::lua::low_int;
use super::lua::lua_Integer;
use super::lua::LUA_ERRERR;
use super::lua::LUA_MULTIRET;
use super::lua::LUA_REGISTRYINDEX;
use super::protocol::ask_text;
use super::protocol::text_script;
use super::protocol::text_view;
use super::protocol::Call;
use super::protocol::CallView;
use super::protocol::Next;
use super::protocol::Reply;
use super::protocol::Request;

verus! {

/// Status of a load whose file could not be opened or read.
pub const LUA_ERRFILE: c_int = LUA_ERRERR + 1;

pub const LUAL_BUFFERSIZE: size_t = 8192;

pub const LUA_NOREF: c_int = -2;

pub const LUA_REFNIL: c_int = -1;

/// One entry of a registration table: a name and the native function to
/// install under it. The entry with neither ends a table.
#[derive(Clone, Copy, Debug, PartialEq, Eq)]
pub struct luaL_Reg {
    pub name: Option<&'static str>,
    pub func: lua_CFunction,
}

impl luaL_Reg {
    /// The entry that ends a registration table.
    pub open spec fn sentinel() -> luaL_Reg {
        luaL_Reg { name: None, func: None }
    }

    /// Whether the interpreter stops reading a table at this entry: it does
    /// at the first entry without a name, whatever its function.
    pub open spec fn ends_table(self) -> bool {
        self.name is None
    }
}

/// The entries that the interpreter installs from a table: those before the
/// first one without a name.
pub open spec fn installed(table: Seq<luaL_Reg>) -> Seq<luaL_Reg>
    decreases table.len(),
{
    if table.len() == 0 || table[0].ends_table() {
        Seq::empty()
    } else {
        seq![table[0]] + installed(table.drop_first())
    }
}

/// Whether reading a table stops inside it.
pub open spec fn terminated(table: Seq<luaL_Reg>) -> bool {
    exists|i: int| 0 <= i < table.len() && (#[trigger] table[i]).ends_table()
}

/// Raises an argument error on argument `numArg` unless `cond` holds.
pub fn luaL_argcheck<'a>(cond: c_int, numArg: c_int, extramsg: &'a str, replies: &[Reply]) -> (next:
    Next<Call<'a>, ()>)
    ensures
        next@ == (if cond == 0 {
            super::protocol::once(Request::ArgError(numArg, extramsg), replies@)
        } else {
            Next::Done(())
        }),
{
    if cond == 0 && replies.len() == 0 {
        Next::Ask(Request::ArgError(numArg, extramsg))
    } else {
        Next::Done(())
    }
}

/// Checks that argument `n` is a string and reads it.
pub fn luaL_checkstring(n: c_int) -> (call: Call<'static>)
    ensures
        call@ == CallView::CheckLString(n),
{
    Request::CheckLString(n)
}

/// Reads argument `n` as a string, or `d` where it is absent.
pub fn luaL_optstring<'a>(n: c_int, d: &'a str) -> (call: Call<'a>)
    ensures
        call@ == CallView::OptLString(n, d),
{
    Request::OptLString(n, d)
}

/// What an integer read through `call` is as a C `int`: its low 32 bits.
pub open spec fn int_script<'a>(call: CallView<'a>, replies: Seq<Reply>) -> Next<CallView<'a>, c_int> {
    if replies.len() == 0 {
        Next::Ask(call)
    } else {
        match replies[0].as_integer() {
            None => Next::Stray,
            Some(value) => Next::Done(low_int(value)),
        }
    }
}

/// Checks that argument `n` is a number and reads it as a C `int`.
pub fn luaL_checkint(n: c_int, replies: &[Reply]) -> (next: Next<Call<'static>, c_int>)
    ensures
        next@ == int_script(Request::CheckInteger(n), replies@),
{
    if replies.len() == 0 {
        Next::Ask(Request::CheckInteger(n))
    } else {
        match replies[0].as_integer() {
            None => Next::Stray,
            Some(value) => {
                proof {
                    cast_keeps_low_bits(value);
                }
                Next::Done(#[verifier::truncate] (value as c_int))
            },
        }
    }
}

/// Reads argument `narg` as a C `int`, or `d` where it is absent.
pub fn luaL_optint(narg: c_int, d: c_int, replies: &[Reply]) -> (next: Next<Call<'static>, c_int>)
    ensures
        next@ == int_script(Request::OptInteger(narg, d as lua_Integer), replies@),
{
    if replies.len() == 0 {
        Next::Ask(Request::OptInteger(narg, d as lua_Integer))
    } else {
        match replies[0].as_integer() {
            None => Next::Stray,
            Some(value) => {
                proof {
                    cast_keeps_low_bits(value);
                }
                Next::Done(#[verifier::truncate] (value as c_int))
            },
        }
    }
}

/// What `luaL_typename` asks and returns: the type tag of the value at `i`,
/// then the name of the type with that tag.
pub open spec fn luaL_typename_script(i: c_int, replies: Seq<Reply>) -> Next<
    CallView<'static>,
    Option<Seq<char>>,
> {
    if replies.len() == 0 {
        Next::Ask(Request::Type(i))
    } else {
        match replies[0].as_int() {
            None => Next::Stray,
            Some(tag) => text_script(
                Request::TypeName(tag),
                replies.subrange(1, replies.len() as int),
            ),
        }
    }
}

/// The name of the type of the value at `i`.
pub fn luaL_typename(i: c_int, replies: &[Reply]) -> (next: Next<Call<'static>, Option<String>>)
    ensures
        next.shown(|name: Option<String>| text_view(name)) == luaL_typename_script(i, replies@),
{
    if replies.len() == 0 {
        Next::Ask(Request::Type(i))
    } else {
        match replies[0].as_int() {
            None => Next::Stray,
            Some(tag) => ask_text(
                Request::TypeName(tag),
                slice_subrange(replies, 1, replies.len()),
            ),
        }
    }
}

/// What a load followed by a run asks and returns. A chunk that loaded with
/// status 0 is called, protected, without arguments and with every result
/// kept, and the status of that call is the result. A chunk that did not
/// load is never called: the status of the load is the result.
pub open spec fn load_and_run<'a>(load: CallView<'a>, replies: Seq<Reply>) -> Next<CallView<'a>, c_int> {
    if replies.len() == 0 {
        Next::Ask(load)
    } else {
        match replies[0].as_int() {
            None => Next::Stray,
            Some(status) => if status != 0 {
                Next::Done(status)
            } else if replies.len() == 1 {
                Next::Ask(Request::PCall(0, LUA_MULTIRET, 0))
            } else {
                match replies[1].as_int() {
                    None => Next::Stray,
                    Some(outcome) => Next::Done(outcome),
                }
            },
        }
    }
}

/// The step of `load_and_run` that follows the load.
fn run_loaded<'a>(replies: &[Reply]) -> (next: Next<Call<'a>, c_int>)
    requires
        replies@.len() > 0,
    ensures
        forall|load: CallView<'a>| next@ == #[trigger] load_and_run(load, replies@),
{
    match replies[0].as_int() {
        None => Next::Stray,
        Some(status) => if status != 0 {
            Next::Done(status)
        } else if replies.len() == 1 {
            Next::Ask(Request::PCall(0, LUA_MULTIRET, 0))
        } else {
            match replies[1].as_int() {
                None => Next::Stray,
                Some(outcome) => Next::Done(outcome),
            }
        },
    }
}

/// Loads the file `filename` and runs it.
pub fn luaL_dofile<'a>(filename: &'a str, replies: &[Reply]) -> (next: Next<Call<'a>, c_int>)
    ensures
        next@ == load_and_run(Request::LoadFile(filename), replies@),
{
    if replies.len() == 0 {
        Next::Ask(Request::LoadFile(filename))
    } else {
        run_loaded(replies)
    }
}

/// Loads the chunk `s` and runs it.
pub fn luaL_dostring<'a>(s: &'a str, replies: &[Reply]) -> (next: Next<Call<'a>, c_int>)
    ensures
        next@ == load_and_run(Request::LoadString(s), replies@),
{
    if replies.len() == 0 {
        Next::Ask(Request::LoadString(s))
    } else {
        run_loaded(replies)
    }
}

/// Pushes the behaviour set that the registry holds under `n`.
pub fn luaL_getmetatable<'a>(n: &'a str) -> (call: Call<'a>)
    ensures
        call@ == CallView::GetField(LUA_REGISTRYINDEX, n),
{
    Request::GetField(LUA_REGISTRYINDEX, n)
}

/// What `lua_ref` asks and returns. With a lock, a reference in the registry
/// to the value on top of the stack. Without one, an error is raised in the
/// interpreter; should that ever return, the result is 0.
pub open spec fn lua_ref_script(lock: c_int, replies: Seq<Reply>) -> Next<CallView<'static>, c_int> {
    if lock != 0 {
        if replies.len() == 0 {
            Next::Ask(Request::Ref(LUA_REGISTRYINDEX))
        } else {
            match replies[0].as_int() {
                None => Next::Stray,
                Some(reference) => Next::Done(reference),
            }
        }
    } else if replies.len() == 0 {
        Next::Ask(Request::PushString("unlocked references are obsolete"))
    } else if replies.len() == 1 {
        Next::Ask(Request::Error)
    } else {
        Next::Done(0)
    }
}

/// Makes a reference to the value on top of the stack.
pub fn lua_ref(lock: c_int, replies: &[Reply]) -> (next: Next<Call<'static>, c_int>)
    ensures
        next@ == lua_ref_script(lock, replies@),
{
    if lock != 0 {
        if replies.len() == 0 {
            Next::Ask(Request::Ref(LUA_REGISTRYINDEX))
        } else {
            match replies[0].as_int() {
                None => Next::Stray,
                Some(reference) => Next::Done(reference),
            }
        }
    } else if replies.len() == 0 {
        Next::Ask(Request::PushString("unlocked references are obsolete"))
    } else if replies.len() == 1 {
        Next::Ask(Request::Error)
    } else {
        Next::Done(0)
    }
}

/// Gives up the reference `r`.
pub fn lua_unref(r: c_int) -> (call: Call<'static>)
    ensures
        call@ == CallView::Unref(LUA_REGISTRYINDEX, r),
{
    Request::Unref(LUA_REGISTRYINDEX, r)
}

/// Pushes the value that the reference `r` stands for.
pub fn lua_getref(r: c_int) -> (call: Call<'static>)
    ensures
        call@ == CallView::RawGetI(LUA_REGISTRYINDEX, r),
{
    Request::RawGetI(LUA_REGISTRYINDEX, r)
}

} // verus!
