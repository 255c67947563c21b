//! What can be put on the interpreter's stack.

use vstd::prelude::*;
use crate::ffi::lauxlib::luaL_Reg;
use vstd::string::StringSliceAdditionalSpecFns;
use vstd::utf8::encode_utf8_decode_utf8;
use vstd::utf8::encode_utf8_valid_utf8;
use crate::ffi::lua::c_int;
use crate::ffi::lua::cast_keeps_low_bits;
use crate::ffi::lua::lua_pushcfunction;
use crate::ffi::lua::LUA_TBOOLEAN;
use crate::ffi::lua::lua_Integer;
use crate::ffi::lua::LuaFunction;
use crate::ffi::protocol::Call;
use crate::ffi::protocol::CallView;
use crate::ffi::protocol::Next;
use crate::ffi::protocol::Reply;
use crate::ffi::protocol::text_script;
use crate::ffi::protocol::Request;
use crate::state::record::new_struct;
use crate::state::record::makes;
use crate::state::State;

verus! {

/// What a finished push has left on top of the stack.
#[derive(Clone, Copy, Debug, PartialEq, Eq, Structural)]
pub enum Pushed {
    /// The value itself.
    Value,
    /// A block of the interpreter's memory, at this address, of the size of
    /// the record and bound to its behaviour set. The record is not in it
    /// yet: the host moves it there before anything else touches the
    /// interpreter, and keeps the address no longer than that.
    Block(usize),
}

/// A value that can be pushed: it takes exactly one slot of the stack. The
/// kinds of value are the primitives below and records; a new kind comes in
/// as a record type, through `LuaObject`.
pub trait LuaValue {
    /// Whether `next` is the step of the push of this value that follows
    /// `replies`.
    spec fn pushes(&self, replies: Seq<Reply>, next: Next<CallView<'_>, Pushed>) -> bool;

    /// The script that pushes the value.
    fn push_val<'a>(&'a self, replies: &[Reply]) -> (next: Next<Call<'a>, Pushed>)
        ensures
            self.pushes(replies@, next@),
    ;
}

/// A record type whose values live in blocks of the interpreter's memory and
/// whose methods scripts can call.
pub trait LuaObject {
    /// The key of the type's behaviour set in the interpreter's registry, and
    /// the global name under which scripts find it.
    fn name() -> &'static str;

    /// The native functions that scripts can call on a value of the type.
    fn lua_fns() -> Vec<luaL_Reg>;
}

/// What the push of a primitive asks and returns: the one request `push`.
pub open spec fn push_script<'a>(push: CallView<'a>, replies: Seq<Reply>) -> Next<CallView<'a>, Pushed> {
    if replies.len() == 0 {
        Next::Ask(push)
    } else {
        Next::Done(Pushed::Value)
    }
}

/// The step of the script that pushes with the one request `push`.
fn push_with<'a>(push: Call<'a>, replies: &[Reply]) -> (next: Next<Call<'a>, Pushed>)
    ensures
        next@ == push_script(push@, replies@),
{
    if replies.len() == 0 {
        Next::Ask(push)
    } else {
        Next::Done(Pushed::Value)
    }
}

impl LuaValue for i32 {
    open spec fn pushes(&self, replies: Seq<Reply>, next: Next<CallView<'_>, Pushed>) -> bool {
        next == push_script(Request::PushInteger(*self as lua_Integer), replies)
    }

    fn push_val<'a>(&'a self, replies: &[Reply]) -> (next: Next<Call<'a>, Pushed>) {
        push_with(Request::PushInteger(*self as lua_Integer), replies)
    }
}

impl LuaValue for i64 {
    open spec fn pushes(&self, replies: Seq<Reply>, next: Next<CallView<'_>, Pushed>) -> bool {
        next == push_script(Request::PushInteger(*self as lua_Integer), replies)
    }

    fn push_val<'a>(&'a self, replies: &[Reply]) -> (next: Next<Call<'a>, Pushed>) {
        push_with(Request::PushInteger(#[verifier::truncate] (*self as lua_Integer)), replies)
    }
}

impl LuaValue for u32 {
    open spec fn pushes(&self, replies: Seq<Reply>, next: Next<CallView<'_>, Pushed>) -> bool {
        next == push_script(Request::PushInteger(*self as lua_Integer), replies)
    }

    fn push_val<'a>(&'a self, replies: &[Reply]) -> (next: Next<Call<'a>, Pushed>) {
        push_with(Request::PushInteger(#[verifier::truncate] (*self as lua_Integer)), replies)
    }
}

impl LuaValue for u64 {
    open spec fn pushes(&self, replies: Seq<Reply>, next: Next<CallView<'_>, Pushed>) -> bool {
        next == push_script(Request::PushInteger(*self as lua_Integer), replies)
    }

    fn push_val<'a>(&'a self, replies: &[Reply]) -> (next: Next<Call<'a>, Pushed>) {
        push_with(Request::PushInteger(#[verifier::truncate] (*self as lua_Integer)), replies)
    }
}

impl<'s> LuaValue for &'s str {
    open spec fn pushes(&self, replies: Seq<Reply>, next: Next<CallView<'_>, Pushed>) -> bool {
        next == push_script(Request::PushString(*self), replies)
    }

    fn push_val<'a>(&'a self, replies: &[Reply]) -> (next: Next<Call<'a>, Pushed>) {
        push_with(Request::PushString(*self), replies)
    }
}

impl LuaValue for String {
    open spec fn pushes(&self, replies: Seq<Reply>, next: Next<CallView<'_>, Pushed>) -> bool {
        if replies.len() == 0 {
            next matches Next::Ask(Request::PushString(text)) && text@ == self@
        } else {
            next == Next::<CallView, Pushed>::Done(Pushed::Value)
        }
    }

    fn push_val<'a>(&'a self, replies: &[Reply]) -> (next: Next<Call<'a>, Pushed>) {
        push_with(Request::PushString(self.as_str()), replies)
    }
}

impl LuaValue for bool {
    open spec fn pushes(&self, replies: Seq<Reply>, next: Next<CallView<'_>, Pushed>) -> bool {
        next == push_script(
            Request::PushBoolean(
                if *self {
                    1
                } else {
                    0
                },
            ),
            replies,
        )
    }

    fn push_val<'a>(&'a self, replies: &[Reply]) -> (next: Next<Call<'a>, Pushed>) {
        if *self {
            push_with(Request::PushBoolean(1), replies)
        } else {
            push_with(Request::PushBoolean(0), replies)
        }
    }
}

impl LuaValue for LuaFunction {
    open spec fn pushes(&self, replies: Seq<Reply>, next: Next<CallView<'_>, Pushed>) -> bool {
        next == push_script(Request::PushCClosure(Some(*self), 0), replies)
    }

    fn push_val<'a>(&'a self, replies: &[Reply]) -> (next: Next<Call<'a>, Pushed>) {
        push_with(lua_pushcfunction(Some(*self)), replies)
    }
}

impl<T> LuaValue for T where T: LuaObject {
    open spec fn pushes(&self, replies: Seq<Reply>, next: Next<CallView<'_>, Pushed>) -> bool {
        exists|made: Next<CallView<'static>, usize>|
            makes::<T>(replies, made) && next == made.map(|address: usize| Pushed::Block(address))
    }

    /// Asks for a block for the record, bound to the behaviour set of `T`.
    fn push_val<'a>(&'a self, replies: &[Reply]) -> (next: Next<Call<'a>, Pushed>) {
        match new_struct::<T>(replies) {
            Next::Ask(call) => Next::Ask(call),
            Next::Stray => Next::Stray,
            Next::Fatal(message) => Next::Fatal(message),
            Next::Done(address) => Next::Done(Pushed::Block(address)),
        }
    }
}

/// An `i32` reads back as it was pushed. Whatever integer its push hands to
/// the interpreter, an interpreter that says the value is a number and
/// hands that integer back makes `to_int` return the `i32`, and `to_long`
/// the same number.
pub proof fn int_reads_back(value: i32, pushed: lua_Integer, idx: c_int, number: c_int)
    requires
        value.pushes(Seq::empty(), Next::Ask(Request::PushInteger(pushed))),
        number != 0,
    ensures
        State::to_int_script(idx, seq![Reply::Int(number), Reply::Integer(pushed)]) == Next::<
            CallView,
            Option<i32>,
        >::Done(Some(value)),
        State::to_long_script(idx, seq![Reply::Int(number), Reply::Integer(pushed)]) == Next::<
            CallView,
            Option<i64>,
        >::Done(Some(value as i64)),
{
    cast_keeps_low_bits(pushed);
}

/// An `i64` reads back through `to_long` as it was pushed, if it is an
/// integer that a `lua_Integer` holds: on a machine with addresses of 64
/// bits, every `i64`.
pub proof fn long_reads_back(value: i64, pushed: lua_Integer, idx: c_int, number: c_int)
    requires
        value.pushes(Seq::empty(), Next::Ask(Request::PushInteger(pushed))),
        number != 0,
        lua_Integer::MIN <= value <= lua_Integer::MAX,
    ensures
        State::to_long_script(idx, seq![Reply::Int(number), Reply::Integer(pushed)]) == Next::<
            CallView,
            Option<i64>,
        >::Done(Some(value)),
{
}

/// A `u32` reads back through `to_long` as it was pushed, if it is an
/// integer that a `lua_Integer` holds: on a machine with addresses of 64
/// bits, every `u32`.
pub proof fn unsigned_reads_back(value: u32, pushed: lua_Integer, idx: c_int, number: c_int)
    requires
        value.pushes(Seq::empty(), Next::Ask(Request::PushInteger(pushed))),
        number != 0,
        value <= lua_Integer::MAX,
    ensures
        State::to_long_script(idx, seq![Reply::Int(number), Reply::Integer(pushed)]) == Next::<
            CallView,
            Option<i64>,
        >::Done(Some(value as i64)),
        value as i64 == value,
{
}

/// A `u64` reads back through `to_long` as it was pushed, if it is an
/// integer that a `lua_Integer` holds. One above the largest `lua_Integer`
/// is pushed as a negative integer and does not read back as itself.
pub proof fn unsigned_long_reads_back(value: u64, pushed: lua_Integer, idx: c_int, number: c_int)
    requires
        value.pushes(Seq::empty(), Next::Ask(Request::PushInteger(pushed))),
        number != 0,
        value <= lua_Integer::MAX,
    ensures
        State::to_long_script(idx, seq![Reply::Int(number), Reply::Integer(pushed)]) == Next::<
            CallView,
            Option<i64>,
        >::Done(Some(value as i64)),
        value as i64 == value,
{
}

/// A boolean reads back through `to_bool` as it was pushed. Whatever truth
/// value its push hands to the interpreter, an interpreter that says the
/// value is a boolean and hands that truth value back makes `to_bool`
/// return the boolean.
pub proof fn bool_reads_back(value: bool, pushed: c_int, idx: c_int)
    requires
        value.pushes(Seq::empty(), Next::Ask(Request::PushBoolean(pushed))),
    ensures
        State::to_bool_script(idx, seq![Reply::Int(LUA_TBOOLEAN), Reply::Int(pushed)]) == Next::<
            CallView,
            Option<bool>,
        >::Done(Some(value)),
{
}

/// A string slice reads back through `to_str` as it was pushed. Whatever
/// text its push hands to the interpreter, an interpreter that hands the
/// bytes of that text back makes `to_str` return the string.
pub proof fn str_reads_back(value: &str, pushed: &str, bytes: Vec<u8>, idx: c_int)
    requires
        value.pushes(Seq::empty(), Next::Ask(Request::PushString(pushed))),
        bytes@ == pushed.spec_bytes(),
    ensures
        text_script(Request::ToLString(idx), seq![Reply::Text(Some(bytes))]) == Next::<
            CallView,
            Option<Seq<char>>,
        >::Done(Some(value@)),
{
    encode_utf8_valid_utf8(pushed@);
    encode_utf8_decode_utf8(pushed@);
}

/// An owned string reads back through `to_str` as it was pushed, in the
/// same way as a string slice.
pub proof fn string_reads_back(value: String, pushed: &str, bytes: Vec<u8>, idx: c_int)
    requires
        value.pushes(Seq::empty(), Next::Ask(Request::PushString(pushed))),
        bytes@ == pushed.spec_bytes(),
    ensures
        text_script(Request::ToLString(idx), seq![Reply::Text(Some(bytes))]) == Next::<
            CallView,
            Option<Seq<char>>,
        >::Done(Some(value@)),
{
    encode_utf8_valid_utf8(pushed@);
    encode_utf8_decode_utf8(pushed@);
}

/// Every primitive is pushed with one request, which takes one slot of the
/// stack: the push is over as soon as that request is answered, whatever
/// the answer.
pub proof fn primitive_takes_one_slot(
    small: i32,
    long: i64,
    unsigned: u32,
    unsigned_long: u64,
    flag: bool,
    text: &str,
    owned: String,
    function: LuaFunction,
    reply: Reply,
)
    ensures
        small.pushes(seq![reply], Next::Done(Pushed::Value)),
        long.pushes(seq![reply], Next::Done(Pushed::Value)),
        unsigned.pushes(seq![reply], Next::Done(Pushed::Value)),
        unsigned_long.pushes(seq![reply], Next::Done(Pushed::Value)),
        flag.pushes(seq![reply], Next::Done(Pushed::Value)),
        text.pushes(seq![reply], Next::Done(Pushed::Value)),
        owned.pushes(seq![reply], Next::Done(Pushed::Value)),
        function.pushes(seq![reply], Next::Done(Pushed::Value)),
        small.pushes(Seq::empty(), Next::Ask(Request::PushInteger(small as lua_Integer))),
        flag.pushes(
            Seq::empty(),
            Next::Ask(
                Request::PushBoolean(
                    if flag {
                        1
                    } else {
                        0
                    },
                ),
            ),
        ),
        text.pushes(Seq::empty(), Next::Ask(Request::PushString(text))),
        function.pushes(Seq::empty(), Next::Ask(Request::PushCClosure(Some(function), 0))),
{
}

} // verus!
