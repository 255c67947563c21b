//! The handle to an interpreter and the scripts of its operations.

use vstd::prelude::*;
use crate::ffi::lauxlib::LUA_ERRFILE;
use crate::ffi::lua::c_int;
use crate::ffi::lua::lua_getglobal;
use crate::ffi::lua::lua_newtable;
use crate::ffi::lua::lua_pop;
use crate::ffi::lua::lua_setglobal;
use crate::ffi::lua::LUA_ERRERR;
use crate::ffi::lua::LUA_ERRMEM;
use crate::ffi::lua::LUA_ERRRUN;
use crate::ffi::lua::LUA_ERRSYNTAX;
use crate::ffi::lua::LUA_GLOBALSINDEX;
use crate::ffi::lua::LUA_OK;
use crate::ffi::lua::LUA_YIELD;
use crate::ffi::protocol::ask_once;
use crate::ffi::protocol::ask_test;
use crate::ffi::protocol::ask_twice;
use crate::ffi::protocol::once;
use crate::ffi::protocol::truth;
use crate::ffi::protocol::twice;
use crate::ffi::protocol::Call;
use crate::ffi::protocol::CallView;
use crate::ffi::protocol::Library;
use crate::ffi::protocol::Next;
use crate::ffi::protocol::Reply;
use crate::ffi::protocol::Request;

pub mod read;
pub mod record;
pub mod run;

verus! {

/// How a load or a protected call ended.
#[derive(PartialEq, Eq, Clone, Copy, Debug, Structural)]
pub enum ThreadStatus {
    Success,
    Yield,
    RuntimeError,
    SyntaxError,
    MemoryError,
    MsgHandlerError,
    FileError,
    /// A status code that is none of the others.
    Unknown,
}

impl ThreadStatus {
    /// The status that a native status code stands for.
    pub open spec fn of_code(code: c_int) -> ThreadStatus {
        if code == LUA_OK {
            ThreadStatus::Success
        } else if code == LUA_YIELD {
            ThreadStatus::Yield
        } else if code == LUA_ERRRUN {
            ThreadStatus::RuntimeError
        } else if code == LUA_ERRSYNTAX {
            ThreadStatus::SyntaxError
        } else if code == LUA_ERRMEM {
            ThreadStatus::MemoryError
        } else if code == LUA_ERRERR {
            ThreadStatus::MsgHandlerError
        } else if code == LUA_ERRFILE {
            ThreadStatus::FileError
        } else {
            ThreadStatus::Unknown
        }
    }

    /// The native status code of a status; `Unknown` stands for many codes
    /// and has none.
    pub fn code(self) -> (code: Option<c_int>)
        ensures
            code is None <==> self == ThreadStatus::Unknown,
            code matches Some(c) ==> Self::of_code(c) == self,
    {
        match self {
            ThreadStatus::Success => Some(LUA_OK),
            ThreadStatus::Yield => Some(LUA_YIELD),
            ThreadStatus::RuntimeError => Some(LUA_ERRRUN),
            ThreadStatus::SyntaxError => Some(LUA_ERRSYNTAX),
            ThreadStatus::MemoryError => Some(LUA_ERRMEM),
            ThreadStatus::MsgHandlerError => Some(LUA_ERRERR),
            ThreadStatus::FileError => Some(LUA_ERRFILE),
            ThreadStatus::Unknown => None,
        }
    }
}

impl From<c_int> for ThreadStatus {
    fn from(i: c_int) -> (status: ThreadStatus) {
        if i == LUA_OK {
            ThreadStatus::Success
        } else if i == LUA_YIELD {
            ThreadStatus::Yield
        } else if i == LUA_ERRRUN {
            ThreadStatus::RuntimeError
        } else if i == LUA_ERRSYNTAX {
            ThreadStatus::SyntaxError
        } else if i == LUA_ERRMEM {
            ThreadStatus::MemoryError
        } else if i == LUA_ERRERR {
            ThreadStatus::MsgHandlerError
        } else if i == LUA_ERRFILE {
            ThreadStatus::FileError
        } else {
            ThreadStatus::Unknown
        }
    }
}

impl vstd::std_specs::convert::FromSpecImpl<c_int> for ThreadStatus {
    open spec fn obeys_from_spec() -> bool {
        true
    }

    open spec fn from_spec(i: c_int) -> ThreadStatus {
        ThreadStatus::of_code(i)
    }
}

/// A status is `Unknown` exactly for the codes outside the known range.
pub proof fn unknown_status_codes(code: c_int)
    ensures
        ThreadStatus::of_code(code) == ThreadStatus::Unknown <==> !(LUA_OK <= code <= LUA_ERRFILE),
{
}

/// Distinct known codes stand for distinct statuses.
pub proof fn status_codes_distinct(a: c_int, b: c_int)
    requires
        LUA_OK <= a <= LUA_ERRFILE,
        LUA_OK <= b <= LUA_ERRFILE,
        ThreadStatus::of_code(a) == ThreadStatus::of_code(b),
    ensures
        a == b,
{
}

/// A handle to an interpreter. An owning handle closes its interpreter when
/// it is given up; a borrowing one, made inside a callback from the address
/// that the interpreter passed in, never does.
///
/// The operations of a handle are scripts. Each takes the replies to the
/// requests it has made so far, oldest first, and gives the next step; it
/// looks at no more replies than it asked for.
#[derive(Debug)]
pub struct State {
    state: usize,
    owned: bool,
}

impl State {
    /// The address of the interpreter.
    pub closed spec fn address(&self) -> usize {
        self.state
    }

    /// Whether this handle owns its interpreter.
    pub closed spec fn owns(&self) -> bool {
        self.owned
    }

    #[verifier::when_used_as_spec(address)]
    pub fn as_ptr(&self) -> (address: usize)
        ensures
            address == self.address(),
    {
        self.state
    }

    #[verifier::when_used_as_spec(owns)]
    pub fn is_owned(&self) -> (owned: bool)
        ensures
            owned == self.owns(),
    {
        self.owned
    }

    /// What `new` asks and returns: one request for a fresh interpreter, then
    /// an owning handle to the address that came back.
    pub open spec fn new_script(replies: Seq<Reply>, next: Next<CallView<'static>, State>) -> bool {
        if replies.len() == 0 {
            next == Next::<CallView<'static>, State>::Ask(Request::NewState)
        } else {
            match replies[0].as_pointer() {
                None => next is Stray,
                Some(address) => next matches Next::Done(handle) && handle.address() == address
                    && handle.owns(),
            }
        }
    }

    /// Creates an interpreter and owns it.
    pub fn new(replies: &[Reply]) -> (next: Next<Call<'static>, State>)
        ensures
            Self::new_script(replies@, next@),
    {
        if replies.len() == 0 {
            Next::Ask(Request::NewState)
        } else {
            match replies[0].as_pointer() {
                None => Next::Stray,
                Some(state) => Next::Done(State { state, owned: true }),
            }
        }
    }

    /// Wraps the interpreter at `state` without owning it.
    pub fn from_ptr(state: usize) -> (handle: State)
        ensures
            handle.address() == state,
            !handle.owns(),
    {
        State { state, owned: false }
    }

    /// What giving up a handle asks: to close the interpreter, once, if the
    /// handle owns it, and nothing if it only borrows it.
    pub open spec fn close_script(&self, replies: Seq<Reply>) -> Next<CallView<'static>, ()> {
        if self.owns() {
            once(Request::Close, replies)
        } else {
            Next::Done(())
        }
    }

    /// Gives the handle up.
    pub fn close(&self, replies: &[Reply]) -> (next: Next<Call<'static>, ()>)
        ensures
            next@ == self.close_script(replies@),
    {
        if self.owned {
            ask_once(Request::Close, replies)
        } else {
            Next::Done(())
        }
    }

    /// Opens every standard library.
    pub fn open_libs(&mut self, replies: &[Reply]) -> (next: Next<Call<'static>, ()>)
        ensures
            next@ == once(Request::Open(Library::All), replies@),
            *final(self) == *old(self),
    {
        ask_once(Request::Open(Library::All), replies)
    }

    /// Opens the basic library.
    pub fn open_base(&mut self, replies: &[Reply]) -> (next: Next<Call<'static>, ()>)
        ensures
            next@ == once(Request::Open(Library::Base), replies@),
            *final(self) == *old(self),
    {
        ask_once(Request::Open(Library::Base), replies)
    }

    /// Opens the math library.
    pub fn open_math(&mut self, replies: &[Reply]) -> (next: Next<Call<'static>, ()>)
        ensures
            next@ == once(Request::Open(Library::Math), replies@),
            *final(self) == *old(self),
    {
        ask_once(Request::Open(Library::Math), replies)
    }

    /// Opens the string library.
    pub fn open_string(&mut self, replies: &[Reply]) -> (next: Next<Call<'static>, ()>)
        ensures
            next@ == once(Request::Open(Library::String), replies@),
            *final(self) == *old(self),
    {
        ask_once(Request::Open(Library::String), replies)
    }

    /// Opens the table library.
    pub fn open_table(&mut self, replies: &[Reply]) -> (next: Next<Call<'static>, ()>)
        ensures
            next@ == once(Request::Open(Library::Table), replies@),
            *final(self) == *old(self),
    {
        ask_once(Request::Open(Library::Table), replies)
    }

    /// Opens the io library.
    pub fn open_io(&mut self, replies: &[Reply]) -> (next: Next<Call<'static>, ()>)
        ensures
            next@ == once(Request::Open(Library::Io), replies@),
            *final(self) == *old(self),
    {
        ask_once(Request::Open(Library::Io), replies)
    }

    /// Opens the os library.
    pub fn open_os(&mut self, replies: &[Reply]) -> (next: Next<Call<'static>, ()>)
        ensures
            next@ == once(Request::Open(Library::Os), replies@),
            *final(self) == *old(self),
    {
        ask_once(Request::Open(Library::Os), replies)
    }

    /// Opens the package library.
    pub fn open_package(&mut self, replies: &[Reply]) -> (next: Next<Call<'static>, ()>)
        ensures
            next@ == once(Request::Open(Library::Package), replies@),
            *final(self) == *old(self),
    {
        ask_once(Request::Open(Library::Package), replies)
    }

    /// Opens the debug library.
    pub fn open_debug(&mut self, replies: &[Reply]) -> (next: Next<Call<'static>, ()>)
        ensures
            next@ == once(Request::Open(Library::Debug), replies@),
            *final(self) == *old(self),
    {
        ask_once(Request::Open(Library::Debug), replies)
    }

    /// Opens the bit library.
    pub fn open_bit(&mut self, replies: &[Reply]) -> (next: Next<Call<'static>, ()>)
        ensures
            next@ == once(Request::Open(Library::Bit), replies@),
            *final(self) == *old(self),
    {
        ask_once(Request::Open(Library::Bit), replies)
    }

    /// Opens the library that steers the compiler.
    pub fn open_jit(&mut self, replies: &[Reply]) -> (next: Next<Call<'static>, ()>)
        ensures
            next@ == once(Request::Open(Library::Jit), replies@),
            *final(self) == *old(self),
    {
        ask_once(Request::Open(Library::Jit), replies)
    }

    /// Opens the foreign-function library.
    pub fn open_ffi(&mut self, replies: &[Reply]) -> (next: Next<Call<'static>, ()>)
        ensures
            next@ == once(Request::Open(Library::Ffi), replies@),
            *final(self) == *old(self),
    {
        ask_once(Request::Open(Library::Ffi), replies)
    }

    /// Sets the top of the stack to the index `idx`.
    pub fn settop(&mut self, idx: i32, replies: &[Reply]) -> (next: Next<Call<'static>, ()>)
        ensures
            next@ == once(Request::SetTop(idx), replies@),
            *final(self) == *old(self),
    {
        ask_once(Request::SetTop(idx), replies)
    }

    /// Drops the `n` topmost values of the stack.
    pub fn pop(&mut self, n: i32, replies: &[Reply]) -> (next: Next<Call<'static>, ()>)
        requires
            n > i32::MIN,
        ensures
            next@ == once(Request::SetTop((-n - 1) as c_int), replies@),
            *final(self) == *old(self),
    {
        ask_once(lua_pop(n), replies)
    }

    /// What `checkstack` asks and returns. More slots than a C `int` counts
    /// cannot be had, and nothing is asked; otherwise the interpreter says
    /// whether it made room.
    pub open spec fn checkstack_script(n: usize, replies: Seq<Reply>) -> Next<CallView<'static>, bool> {
        if n > c_int::MAX {
            Next::Done(false)
        } else {
            truth(Request::CheckStack(n as c_int), replies)
        }
    }

    /// Makes sure that the stack has `n` free slots; `false` where it cannot
    /// grow that far.
    pub fn checkstack(&mut self, n: usize, replies: &[Reply]) -> (next: Next<Call<'static>, bool>)
        ensures
            next@ == Self::checkstack_script(n, replies@),
            *final(self) == *old(self),
    {
        if n > c_int::MAX as usize {
            Next::Done(false)
        } else {
            ask_test(Request::CheckStack(n as c_int), replies)
        }
    }

    /// What a push asks: room for one value, then the push itself. Whether
    /// there was room is not looked at.
    pub open spec fn push_script<'a>(push: CallView<'a>, replies: Seq<Reply>) -> Next<CallView<'a>, ()> {
        twice(Request::CheckStack(1), push, replies)
    }

    /// Copies the value at `idx` to the top of the stack.
    pub fn push_value(&mut self, idx: i32, replies: &[Reply]) -> (next: Next<Call<'static>, ()>)
        ensures
            next@ == Self::push_script(Request::PushValue(idx), replies@),
            *final(self) == *old(self),
    {
        ask_twice(Request::CheckStack(1), Request::PushValue(idx), replies)
    }

    /// Pushes nil.
    pub fn push_nil(&mut self, replies: &[Reply]) -> (next: Next<Call<'static>, ()>)
        ensures
            next@ == Self::push_script(Request::PushNil, replies@),
            *final(self) == *old(self),
    {
        ask_twice(Request::CheckStack(1), Request::PushNil, replies)
    }

    /// Pushes the value of the global `name`.
    pub fn get_global<'a>(&mut self, name: &'a str, replies: &[Reply]) -> (next: Next<Call<'a>, ()>)
        ensures
            next@ == Self::push_script(Request::GetField(LUA_GLOBALSINDEX, name), replies@),
            *final(self) == *old(self),
    {
        ask_twice(Request::CheckStack(1), lua_getglobal(name), replies)
    }

    /// Pushes the field `name` of the table at `idx`.
    pub fn get_field<'a>(&mut self, idx: i32, name: &'a str, replies: &[Reply]) -> (next: Next<
        Call<'a>,
        (),
    >)
        ensures
            next@ == Self::push_script(Request::GetField(idx, name), replies@),
            *final(self) == *old(self),
    {
        ask_twice(Request::CheckStack(1), Request::GetField(idx, name), replies)
    }

    /// Pushes a fresh table.
    pub fn new_table(&mut self, replies: &[Reply]) -> (next: Next<Call<'static>, ()>)
        ensures
            next@ == Self::push_script(Request::CreateTable(0, 0), replies@),
            *final(self) == *old(self),
    {
        ask_twice(Request::CheckStack(1), lua_newtable(), replies)
    }

    /// Pops a value and stores it in the global `name`.
    pub fn set_global<'a>(&mut self, name: &'a str, replies: &[Reply]) -> (next: Next<Call<'a>, ()>)
        ensures
            next@ == once(Request::SetField(LUA_GLOBALSINDEX, name), replies@),
            *final(self) == *old(self),
    {
        ask_once(lua_setglobal(name), replies)
    }

    /// Pops a value and stores it in the field `name` of the table at `idx`.
    pub fn set_field<'a>(&mut self, idx: i32, name: &'a str, replies: &[Reply]) -> (next: Next<
        Call<'a>,
        (),
    >)
        ensures
            next@ == once(Request::SetField(idx, name), replies@),
            *final(self) == *old(self),
    {
        ask_once(Request::SetField(idx, name), replies)
    }
}

} // verus!
