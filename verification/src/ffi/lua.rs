//! Constants and index arithmetic of the core interpreter interface.
#![allow(non_camel_case_types)]

use vstd::prelude::*;
use super::protocol::Call;
use super::protocol::CallView;
use super::protocol::Next;
use super::protocol::Reply;
use super::protocol::Request;

verus! {

pub use libc::c_int;
pub use libc::ptrdiff_t;
pub use libc::size_t;

/// The integer type of the interpreter.
pub type lua_Integer = ptrdiff_t;

pub const LUA_VERSION_NUM: c_int = 501;

/// As a result count: keep every value that the callee returns.
pub const LUA_MULTIRET: c_int = -1;

/// Pseudo-index of the registry.
pub const LUA_REGISTRYINDEX: c_int = -10000;

/// Pseudo-index of the environment of the running native function.
pub const LUA_ENVIRONINDEX: c_int = -10001;

/// Pseudo-index of the table of globals.
pub const LUA_GLOBALSINDEX: c_int = -10002;

pub const LUA_OK: c_int = 0;

pub const LUA_YIELD: c_int = 1;

pub const LUA_ERRRUN: c_int = 2;

pub const LUA_ERRSYNTAX: c_int = 3;

pub const LUA_ERRMEM: c_int = 4;

pub const LUA_ERRERR: c_int = 5;

pub const LUA_TNONE: c_int = -1;

pub const LUA_TNIL: c_int = 0;

pub const LUA_TBOOLEAN: c_int = 1;

pub const LUA_TLIGHTUSERDATA: c_int = 2;

pub const LUA_TNUMBER: c_int = 3;

pub const LUA_TSTRING: c_int = 4;

pub const LUA_TTABLE: c_int = 5;

pub const LUA_TFUNCTION: c_int = 6;

pub const LUA_TUSERDATA: c_int = 7;

pub const LUA_TTHREAD: c_int = 8;

/// Free stack slots that a native function may count on.
pub const LUA_MINSTACK: c_int = 20;

pub const LUA_IDSIZE: size_t = 60;

pub const LUA_GCSTOP: c_int = 0;

pub const LUA_GCRESTART: c_int = 1;

pub const LUA_GCCOLLECT: c_int = 2;

pub const LUA_GCCOUNT: c_int = 3;

pub const LUA_GCCOUNTB: c_int = 4;

pub const LUA_GCSTEP: c_int = 5;

pub const LUA_GCSETPAUSE: c_int = 6;

pub const LUA_GCSETSTEPMUL: c_int = 7;

pub const LUA_HOOKCALL: c_int = 0;

pub const LUA_HOOKRET: c_int = 1;

pub const LUA_HOOKLINE: c_int = 2;

pub const LUA_HOOKCOUNT: c_int = 3;

pub const LUA_HOOKTAILRET: c_int = 4;

pub const LUA_MASKCALL: c_int = 1 << LUA_HOOKCALL;

pub const LUA_MASKRET: c_int = 1 << LUA_HOOKRET;

pub const LUA_MASKLINE: c_int = 1 << LUA_HOOKLINE;

pub const LUA_MASKCOUNT: c_int = 1 << LUA_HOOKCOUNT;

/// The address of a native function that follows the interpreter's calling
/// convention: handle in, count of results out.
#[derive(Clone, Copy, Debug, PartialEq, Eq, Structural)]
pub struct LuaFunction {
    pub addr: usize,
}

/// A native function, or none.
pub type lua_CFunction = Option<LuaFunction>;

/// The C `int` made of the low 32 bits of an integer: what is left of the
/// integer when it is cut down to a C `int`.
pub open spec fn low_int(value: lua_Integer) -> c_int {
    let low = value as int % 0x1_0000_0000;
    if low >= 0x8000_0000 {
        (low - 0x1_0000_0000) as c_int
    } else {
        low as c_int
    }
}

/// A cast to a C `int` keeps the low 32 bits of an integer, and so leaves an
/// integer that is a C `int` as it is.
pub proof fn cast_keeps_low_bits(value: lua_Integer)
    ensures
        value as c_int == low_int(value),
        c_int::MIN <= value <= c_int::MAX ==> low_int(value) == value,
{
    let wide = value as i64;
    let low = wide & 0xffff_ffff;
    assert(0 <= low <= 0xffff_ffff) by (bit_vector)
        requires
            low == wide & 0xffff_ffff,
    ;
    assert((wide as i32) as i64 == (if low >= 0x8000_0000i64 {
        (low - 0x1_0000_0000) as i64
    } else {
        low
    })) by (bit_vector)
        requires
            low == wide & 0xffff_ffff,
    ;
    assert(low == wide % 0x1_0000_0000i64) by (bit_vector)
        requires
            low == wide & 0xffff_ffff,
    ;
}

/// The pseudo-index of the `i`-th upvalue of the running native function.
pub fn lua_upvalueindex(i: c_int) -> (idx: c_int)
    requires
        LUA_GLOBALSINDEX - i >= c_int::MIN,
    ensures
        idx == LUA_GLOBALSINDEX - i,
{
    LUA_GLOBALSINDEX - i
}

/// Drops the `n` topmost values: sets the top to index `-n - 1`.
pub fn lua_pop(n: c_int) -> (call: Call<'static>)
    requires
        n > c_int::MIN,
    ensures
        call@ == CallView::SetTop((-n - 1) as c_int),
{
    Request::SetTop(-n - 1)
}

/// Pushes a fresh table with no slots set aside.
pub fn lua_newtable() -> (call: Call<'static>)
    ensures
        call@ == CallView::CreateTable(0, 0),
{
    Request::CreateTable(0, 0)
}

/// Pushes a native function as a closure without upvalues.
pub fn lua_pushcfunction(f: lua_CFunction) -> (call: Call<'static>)
    ensures
        call@ == CallView::PushCClosure(f, 0),
{
    Request::PushCClosure(f, 0)
}

/// Pops a value and stores it in the global `s`.
pub fn lua_setglobal<'a>(s: &'a str) -> (call: Call<'a>)
    ensures
        call@ == CallView::SetField(LUA_GLOBALSINDEX, s),
{
    Request::SetField(LUA_GLOBALSINDEX, s)
}

/// Pushes the value of the global `s`.
pub fn lua_getglobal<'a>(s: &'a str) -> (call: Call<'a>)
    ensures
        call@ == CallView::GetField(LUA_GLOBALSINDEX, s),
{
    Request::GetField(LUA_GLOBALSINDEX, s)
}

/// What `lua_register` asks: push the function, then store it in the global
/// `n`.
pub open spec fn lua_register_script<'a>(n: &'a str, f: lua_CFunction, replies: Seq<Reply>) -> Next<
    CallView<'a>,
    (),
> {
    super::protocol::twice(
        Request::PushCClosure(f, 0),
        Request::SetField(LUA_GLOBALSINDEX, n),
        replies,
    )
}

/// Installs the native function `f` as the global `n`.
pub fn lua_register<'a>(n: &'a str, f: lua_CFunction, replies: &[Reply]) -> (next: Next<Call<'a>, ()>)
    ensures
        next@ == lua_register_script(n, f, replies@),
{
    if replies.len() == 0 {
        Next::Ask(lua_pushcfunction(f))
    } else if replies.len() == 1 {
        Next::Ask(lua_setglobal(n))
    } else {
        Next::Done(())
    }
}

/// The length of the string, or the size of the table or block, at `i`.
pub fn lua_strlen(i: c_int) -> (call: Call<'static>)
    ensures
        call@ == CallView::ObjLen(i),
{
    Request::ObjLen(i)
}

/// What a test of the type at `n` asks and returns: the type tag, held
/// against `holds`.
pub open spec fn type_script(n: c_int, holds: spec_fn(c_int) -> bool, replies: Seq<Reply>) -> Next<
    CallView<'static>,
    bool,
> {
    if replies.len() == 0 {
        Next::Ask(Request::Type(n))
    } else {
        match replies[0].as_int() {
            None => Next::Stray,
            Some(tag) => Next::Done(holds(tag)),
        }
    }
}

/// The type tag of the value at `n`, once it has been asked for.
fn type_tag<'a>(n: c_int, replies: &[Reply]) -> (next: Next<Call<'a>, c_int>)
    ensures
        replies@.len() == 0 ==> next@ == Next::<CallView<'a>, c_int>::Ask(Request::Type(n)),
        replies@.len() > 0 ==> (match replies@[0].as_int() {
            None => next is Stray,
            Some(tag) => next == Next::<Call<'a>, c_int>::Done(tag),
        }),
{
    if replies.len() == 0 {
        Next::Ask(Request::Type(n))
    } else {
        match replies[0].as_int() {
            None => Next::Stray,
            Some(tag) => Next::Done(tag),
        }
    }
}

/// Whether the value at `n` is a function.
pub fn lua_isfunction(n: c_int, replies: &[Reply]) -> (next: Next<Call<'static>, bool>)
    ensures
        next@ == type_script(n, |tag: c_int| tag == LUA_TFUNCTION, replies@),
{
    match type_tag(n, replies) {
        Next::Done(tag) => Next::Done(tag == LUA_TFUNCTION),
        Next::Ask(call) => Next::Ask(call),
        Next::Stray => Next::Stray,
        Next::Fatal(message) => Next::Fatal(message),
    }
}

/// Whether the value at `n` is a table.
pub fn lua_istable(n: c_int, replies: &[Reply]) -> (next: Next<Call<'static>, bool>)
    ensures
        next@ == type_script(n, |tag: c_int| tag == LUA_TTABLE, replies@),
{
    match type_tag(n, replies) {
        Next::Done(tag) => Next::Done(tag == LUA_TTABLE),
        Next::Ask(call) => Next::Ask(call),
        Next::Stray => Next::Stray,
        Next::Fatal(message) => Next::Fatal(message),
    }
}

/// Whether the value at `n` is a bare address.
pub fn lua_islightuserdata(n: c_int, replies: &[Reply]) -> (next: Next<Call<'static>, bool>)
    ensures
        next@ == type_script(n, |tag: c_int| tag == LUA_TLIGHTUSERDATA, replies@),
{
    match type_tag(n, replies) {
        Next::Done(tag) => Next::Done(tag == LUA_TLIGHTUSERDATA),
        Next::Ask(call) => Next::Ask(call),
        Next::Stray => Next::Stray,
        Next::Fatal(message) => Next::Fatal(message),
    }
}

/// Whether the value at `n` is nil.
pub fn lua_isnil(n: c_int, replies: &[Reply]) -> (next: Next<Call<'static>, bool>)
    ensures
        next@ == type_script(n, |tag: c_int| tag == LUA_TNIL, replies@),
{
    match type_tag(n, replies) {
        Next::Done(tag) => Next::Done(tag == LUA_TNIL),
        Next::Ask(call) => Next::Ask(call),
        Next::Stray => Next::Stray,
        Next::Fatal(message) => Next::Fatal(message),
    }
}

/// Whether the value at `n` is a boolean.
pub fn lua_isboolean(n: c_int, replies: &[Reply]) -> (next: Next<Call<'static>, bool>)
    ensures
        next@ == type_script(n, |tag: c_int| tag == LUA_TBOOLEAN, replies@),
{
    match type_tag(n, replies) {
        Next::Done(tag) => Next::Done(tag == LUA_TBOOLEAN),
        Next::Ask(call) => Next::Ask(call),
        Next::Stray => Next::Stray,
        Next::Fatal(message) => Next::Fatal(message),
    }
}

/// Whether the value at `n` is a coroutine.
pub fn lua_isthread(n: c_int, replies: &[Reply]) -> (next: Next<Call<'static>, bool>)
    ensures
        next@ == type_script(n, |tag: c_int| tag == LUA_TTHREAD, replies@),
{
    match type_tag(n, replies) {
        Next::Done(tag) => Next::Done(tag == LUA_TTHREAD),
        Next::Ask(call) => Next::Ask(call),
        Next::Stray => Next::Stray,
        Next::Fatal(message) => Next::Fatal(message),
    }
}

/// Whether `n` is an index with no value behind it.
pub fn lua_isnone(n: c_int, replies: &[Reply]) -> (next: Next<Call<'static>, bool>)
    ensures
        next@ == type_script(n, |tag: c_int| tag == LUA_TNONE, replies@),
{
    match type_tag(n, replies) {
        Next::Done(tag) => Next::Done(tag == LUA_TNONE),
        Next::Ask(call) => Next::Ask(call),
        Next::Stray => Next::Stray,
        Next::Fatal(message) => Next::Fatal(message),
    }
}

/// Whether `n` has no value behind it, or nil.
pub fn lua_isnoneornil(n: c_int, replies: &[Reply]) -> (next: Next<Call<'static>, bool>)
    ensures
        next@ == type_script(n, |tag: c_int| tag <= 0, replies@),
{
    match type_tag(n, replies) {
        Next::Done(tag) => Next::Done(tag <= 0),
        Next::Ask(call) => Next::Ask(call),
        Next::Stray => Next::Stray,
        Next::Fatal(message) => Next::Fatal(message),
    }
}

/// Pushes the text `s`, with its length in bytes handed over beside it.
pub fn lua_pushliteral(s: &'static str) -> (call: Call<'static>)
    ensures
        call@ == CallView::PushLString(s, s.len()),
{
    Request::PushLString(s, s.len())
}

/// Turns the value at `i` into a string in place.
pub fn lua_tostring(i: c_int) -> (call: Call<'static>)
    ensures
        call@ == CallView::ToLString(i),
{
    Request::ToLString(i)
}

/// Creates an interpreter.
pub fn lua_open() -> (call: Call<'static>)
    ensures
        call@ == CallView::NewState,
{
    Request::NewState
}

/// Pushes the registry.
pub fn lua_getregistry() -> (call: Call<'static>)
    ensures
        call@ == CallView::PushValue(LUA_REGISTRYINDEX),
{
    Request::PushValue(LUA_REGISTRYINDEX)
}

/// Asks the collector how many kilobytes are in use.
pub fn lua_getgccount() -> (call: Call<'static>)
    ensures
        call@ == CallView::Gc(LUA_GCCOUNT, 0),
{
    Request::Gc(LUA_GCCOUNT, 0)
}

} // verus!
