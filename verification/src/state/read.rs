//! Reading values off the stack.

use vstd::prelude::*;
use crate::ffi::lauxlib::luaL_getmetatable;
use crate::ffi::lua::c_int;
use crate::ffi::lua::cast_keeps_low_bits;
use crate::ffi::lua::low_int;
use crate::ffi::lua::lua_pop;
use crate::ffi::lua::LUA_REGISTRYINDEX;
use crate::ffi::lua::lua_isboolean;
use crate::ffi::lua::type_script;
use crate::ffi::lua::LUA_TBOOLEAN;
use crate::ffi::protocol::ask_test;
use crate::ffi::protocol::ask_text;
use crate::ffi::protocol::text_script;
use crate::ffi::protocol::text_view;
use crate::ffi::protocol::truth;
use crate::ffi::protocol::Call;
use crate::ffi::protocol::CallView;
use crate::ffi::protocol::Next;
use crate::ffi::protocol::Reply;
use crate::ffi::protocol::Request;
use crate::state::State;
use crate::types::LuaObject;

verus! {

/// What a guarded accessor asks and returns. `present` is the step of the
/// test, which takes one reply. Where the test fails the result is `None`
/// and nothing is read; where it holds, `read` is asked and its reply
/// decoded.
pub open spec fn guarded<'a, V>(
    present: Next<CallView<'a>, bool>,
    read: CallView<'a>,
    replies: Seq<Reply>,
    decode: spec_fn(Reply) -> Option<V>,
) -> Next<CallView<'a>, Option<V>> {
    match present {
        Next::Ask(call) => Next::Ask(call),
        Next::Stray => Next::Stray,
        Next::Fatal(message) => Next::Fatal(message),
        Next::Done(false) => Next::Done(None),
        Next::Done(true) => if replies.len() <= 1 {
            Next::Ask(read)
        } else {
            match decode(replies[1]) {
                None => Next::Stray,
                Some(value) => Next::Done(Some(value)),
            }
        },
    }
}

/// What `check_userdata_ex` asks and returns, without ever raising an error
/// in the interpreter. The value at `idx` is read as a block; its behaviour
/// set and the one that the registry holds under `ty` are pushed, held
/// against each other and popped again. The result is the address of the
/// block where the two are the same set, and `None` where the value is no
/// block, has no behaviour set, or has another one.
pub open spec fn check_userdata_script<'a>(idx: c_int, ty: &'a str, replies: Seq<Reply>) -> Next<
    CallView<'a>,
    Option<usize>,
> {
    if replies.len() == 0 {
        Next::Ask(Request::ToUserdata(idx))
    } else {
        match replies[0].as_pointer() {
            None => Next::Stray,
            Some(address) => if address == 0 {
                Next::Done(None)
            } else if replies.len() == 1 {
                Next::Ask(Request::GetMetatable(idx))
            } else {
                match replies[1].as_int() {
                    None => Next::Stray,
                    Some(bound) => if bound == 0 {
                        Next::Done(None)
                    } else if replies.len() == 2 {
                        Next::Ask(Request::GetField(LUA_REGISTRYINDEX, ty))
                    } else if replies.len() == 3 {
                        Next::Ask(Request::RawEqual(-1i32, -2i32))
                    } else {
                        match replies[3].as_int() {
                            None => Next::Stray,
                            Some(same) => if replies.len() == 4 {
                                Next::Ask(Request::SetTop(-3i32))
                            } else if same != 0 {
                                Next::Done(Some(address))
                            } else {
                                Next::Done(None)
                            },
                        }
                    },
                }
            },
        }
    }
}

impl State {
    /// Whether the value at `idx` is a number or a string that reads as one.
    pub fn is_number(&mut self, idx: c_int, replies: &[Reply]) -> (next: Next<Call<'static>, bool>)
        ensures
            next@ == truth(Request::IsNumber(idx), replies@),
            *final(self) == *old(self),
    {
        ask_test(Request::IsNumber(idx), replies)
    }

    /// Whether the value at `idx` is a string or a number.
    pub fn is_string(&mut self, idx: c_int, replies: &[Reply]) -> (next: Next<Call<'static>, bool>)
        ensures
            next@ == truth(Request::IsString(idx), replies@),
            *final(self) == *old(self),
    {
        ask_test(Request::IsString(idx), replies)
    }

    /// Whether the value at `idx` is a boolean.
    pub fn is_bool(&mut self, idx: c_int, replies: &[Reply]) -> (next: Next<Call<'static>, bool>)
        ensures
            next@ == type_script(idx, |tag: c_int| tag == LUA_TBOOLEAN, replies@),
            *final(self) == *old(self),
    {
        lua_isboolean(idx, replies)
    }

    /// Whether the value at `idx` is a block of memory or a bare address.
    pub fn is_userdata(&mut self, idx: c_int, replies: &[Reply]) -> (next: Next<Call<'static>, bool>)
        ensures
            next@ == truth(Request::IsUserdata(idx), replies@),
            *final(self) == *old(self),
    {
        ask_test(Request::IsUserdata(idx), replies)
    }

    /// The string at `idx`, copied; `None` where the interpreter has none to
    /// give or its bytes are no text.
    pub fn to_str(&mut self, idx: c_int, replies: &[Reply]) -> (next: Next<
        Call<'static>,
        Option<String>,
    >)
        ensures
            next.shown(|text: Option<String>| text_view(text)) == text_script(
                Request::ToLString(idx),
                replies@,
            ),
            *final(self) == *old(self),
    {
        ask_text(Request::ToLString(idx), replies)
    }

    /// What `to_int` asks and returns: the number at `idx` cut down to its
    /// low 32 bits, and `None`, unread, where the value is no number.
    pub open spec fn to_int_script(idx: c_int, replies: Seq<Reply>) -> Next<
        CallView<'static>,
        Option<i32>,
    > {
        guarded(
            truth(Request::IsNumber(idx), replies),
            Request::ToInteger(idx),
            replies,
            |reply: Reply|
                match reply.as_integer() {
                    None => None,
                    Some(value) => Some(low_int(value)),
                },
        )
    }

    /// The number at `idx` as an `i32`.
    pub fn to_int(&mut self, idx: c_int, replies: &[Reply]) -> (next: Next<Call<'static>, Option<i32>>)
        ensures
            next@ == Self::to_int_script(idx, replies@),
            *final(self) == *old(self),
    {
        match self.is_number(idx, replies) {
            Next::Ask(call) => Next::Ask(call),
            Next::Stray => Next::Stray,
            Next::Fatal(message) => Next::Fatal(message),
            Next::Done(false) => Next::Done(None),
            Next::Done(true) => if replies.len() <= 1 {
                Next::Ask(Request::ToInteger(idx))
            } else {
                match replies[1].as_integer() {
                    None => Next::Stray,
                    Some(value) => {
                        proof {
                            cast_keeps_low_bits(value);
                        }
                        Next::Done(Some(#[verifier::truncate] (value as i32)))
                    },
                }
            },
        }
    }

    /// What `to_long` asks and returns: the number at `idx`, and `None`,
    /// unread, where the value is no number.
    pub open spec fn to_long_script(idx: c_int, replies: Seq<Reply>) -> Next<
        CallView<'static>,
        Option<i64>,
    > {
        guarded(
            truth(Request::IsNumber(idx), replies),
            Request::ToInteger(idx),
            replies,
            |reply: Reply|
                match reply.as_integer() {
                    None => None,
                    Some(value) => Some(value as i64),
                },
        )
    }

    /// The number at `idx` as an `i64`.
    pub fn to_long(&mut self, idx: c_int, replies: &[Reply]) -> (next: Next<Call<'static>, Option<i64>>)
        ensures
            next@ == Self::to_long_script(idx, replies@),
            *final(self) == *old(self),
    {
        match self.is_number(idx, replies) {
            Next::Ask(call) => Next::Ask(call),
            Next::Stray => Next::Stray,
            Next::Fatal(message) => Next::Fatal(message),
            Next::Done(false) => Next::Done(None),
            Next::Done(true) => if replies.len() <= 1 {
                Next::Ask(Request::ToInteger(idx))
            } else {
                match replies[1].as_integer() {
                    None => Next::Stray,
                    Some(value) => Next::Done(Some(value as i64)),
                }
            },
        }
    }

    /// What `to_bool` asks and returns: whether the boolean at `idx` is
    /// true, and `None`, unread, where the value is no boolean.
    pub open spec fn to_bool_script(idx: c_int, replies: Seq<Reply>) -> Next<
        CallView<'static>,
        Option<bool>,
    > {
        guarded(
            type_script(idx, |tag: c_int| tag == LUA_TBOOLEAN, replies),
            Request::ToBoolean(idx),
            replies,
            |reply: Reply|
                match reply.as_int() {
                    None => None,
                    Some(value) => Some(value != 0),
                },
        )
    }

    /// The boolean at `idx`.
    pub fn to_bool(&mut self, idx: c_int, replies: &[Reply]) -> (next: Next<Call<'static>, Option<bool>>)
        ensures
            next@ == Self::to_bool_script(idx, replies@),
            *final(self) == *old(self),
    {
        match self.is_bool(idx, replies) {
            Next::Ask(call) => Next::Ask(call),
            Next::Stray => Next::Stray,
            Next::Fatal(message) => Next::Fatal(message),
            Next::Done(false) => Next::Done(None),
            Next::Done(true) => if replies.len() <= 1 {
                Next::Ask(Request::ToBoolean(idx))
            } else {
                match replies[1].as_int() {
                    None => Next::Stray,
                    Some(value) => Next::Done(Some(value != 0)),
                }
            },
        }
    }

    /// What `to_raw_userdata` asks and returns: the address of the block at
    /// `idx` as the interpreter gives it, and `None`, unread, where the value
    /// is neither a block nor a bare address.
    pub open spec fn to_raw_userdata_script(idx: c_int, replies: Seq<Reply>) -> Next<
        CallView<'static>,
        Option<usize>,
    > {
        guarded(
            truth(Request::IsUserdata(idx), replies),
            Request::ToUserdata(idx),
            replies,
            |reply: Reply| reply.as_pointer(),
        )
    }

    /// The address of the block at `idx`.
    pub fn to_raw_userdata(&mut self, idx: c_int, replies: &[Reply]) -> (next: Next<
        Call<'static>,
        Option<usize>,
    >)
        ensures
            next@ == Self::to_raw_userdata_script(idx, replies@),
            *final(self) == *old(self),
    {
        match self.is_userdata(idx, replies) {
            Next::Ask(call) => Next::Ask(call),
            Next::Stray => Next::Stray,
            Next::Fatal(message) => Next::Fatal(message),
            Next::Done(false) => Next::Done(None),
            Next::Done(true) => if replies.len() <= 1 {
                Next::Ask(Request::ToUserdata(idx))
            } else {
                match replies[1].as_pointer() {
                    None => Next::Stray,
                    Some(address) => Next::Done(Some(address)),
                }
            },
        }
    }

    /// The address of the block at `idx`, for a host that knows what type of
    /// record lies there.
    pub fn to_userdata(&mut self, idx: c_int, replies: &[Reply]) -> (next: Next<
        Call<'static>,
        Option<usize>,
    >)
        ensures
            next@ == Self::to_raw_userdata_script(idx, replies@),
            *final(self) == *old(self),
    {
        self.to_raw_userdata(idx, replies)
    }

    /// The address of the block at `idx` if its behaviour set is the one
    /// that the registry holds under `ty`.
    pub fn check_userdata_ex<'a>(&mut self, idx: c_int, ty: &'a str, replies: &[Reply]) -> (next: Next<
        Call<'a>,
        Option<usize>,
    >)
        ensures
            next@ == check_userdata_script(idx, ty, replies@),
            *final(self) == *old(self),
    {
        if replies.len() == 0 {
            return Next::Ask(Request::ToUserdata(idx));
        }
        let address = match replies[0].as_pointer() {
            None => return Next::Stray,
            Some(address) => address,
        };
        if address == 0 {
            return Next::Done(None);
        }
        if replies.len() == 1 {
            return Next::Ask(Request::GetMetatable(idx));
        }
        let bound = match replies[1].as_int() {
            None => return Next::Stray,
            Some(bound) => bound,
        };
        if bound == 0 {
            Next::Done(None)
        } else if replies.len() == 2 {
            Next::Ask(luaL_getmetatable(ty))
        } else if replies.len() == 3 {
            Next::Ask(Request::RawEqual(-1, -2))
        } else {
            match replies[3].as_int() {
                None => Next::Stray,
                Some(same) => if replies.len() == 4 {
                    Next::Ask(lua_pop(2))
                } else if same != 0 {
                    Next::Done(Some(address))
                } else {
                    Next::Done(None)
                },
            }
        }
    }

    /// The address of the block at `idx` if it holds a record of type `T`.
    /// The name of `T` is asked of the type at every step.
    pub fn check_userdata<T>(&mut self, idx: i32, replies: &[Reply]) -> (next: Next<
        Call<'static>,
        Option<usize>,
    >) where T: LuaObject
        ensures
            exists|name: &'static str|
                call_ensures(T::name, (), name) && next@ == check_userdata_script(
                    idx,
                    name,
                    replies@,
                ),
            *final(self) == *old(self),
    {
        self.check_userdata_ex(idx, T::name(), replies)
    }
}

} // verus!
