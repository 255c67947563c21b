//! Requests to the interpreter, its replies, and the steps of a script.

use vstd::prelude::*;
use vstd::string::StringSliceAdditionalSpecFns;
use vstd::utf8::decode_utf8;
use vstd::utf8::encode_utf8_decode_utf8;
use vstd::utf8::valid_utf8;
use super::lua::c_int;
use super::lua::lua_Integer;
use super::lua::size_t;
use super::lua::LuaFunction;
use super::lauxlib::luaL_Reg;

verus! {

/// A standard library that can be opened on an interpreter.
#[derive(Clone, Copy, Debug, PartialEq, Eq, Structural)]
pub enum Library {
    /// Every standard library at once.
    All,
    Base,
    Math,
    String,
    Table,
    Io,
    Os,
    Package,
    Debug,
    Bit,
    Jit,
    Ffi,
}

/// One call of a native entry point, with its arguments. `R` is the type of a
/// registration table: a `Vec` in a request to perform, a `Seq` in a contract.
///
/// Text goes to the interpreter as a C string, which ends at its first zero
/// byte: a host has no way to hand over text that holds one, and fails on it.
#[derive(Clone, Debug, PartialEq, Eq)]
pub enum Request<'a, R> {
    /// `luaL_newstate`
    NewState,
    /// `lua_close`
    Close,
    /// `luaL_openlibs`, or the `luaopen_` function of one library
    Open(Library),
    /// `lua_settop(idx)`
    SetTop(c_int),
    /// `lua_pushvalue(idx)`
    PushValue(c_int),
    /// `lua_checkstack(extra)`
    CheckStack(c_int),
    /// `lua_isnumber(idx)`
    IsNumber(c_int),
    /// `lua_isstring(idx)`
    IsString(c_int),
    /// `lua_isuserdata(idx)`
    IsUserdata(c_int),
    /// `lua_type(idx)`
    Type(c_int),
    /// `lua_typename(tag)`
    TypeName(c_int),
    /// `lua_tointeger(idx)`
    ToInteger(c_int),
    /// `lua_toboolean(idx)`
    ToBoolean(c_int),
    /// `lua_tolstring(idx, NULL)`
    ToLString(c_int),
    /// `lua_objlen(idx)`
    ObjLen(c_int),
    /// `lua_touserdata(idx)`
    ToUserdata(c_int),
    /// `lua_pushnil`
    PushNil,
    /// `lua_pushinteger(n)`
    PushInteger(lua_Integer),
    /// `lua_pushlstring(s, len)`
    PushLString(&'a str, size_t),
    /// `lua_pushstring(s)`
    PushString(&'a str),
    /// `lua_pushcclosure(f, upvalues)`
    PushCClosure(Option<LuaFunction>, c_int),
    /// `lua_pushboolean(b)`
    PushBoolean(c_int),
    /// `lua_getfield(idx, key)`
    GetField(c_int, &'a str),
    /// `lua_rawgeti(idx, n)`
    RawGetI(c_int, c_int),
    /// `lua_createtable(array_slots, record_slots)`
    CreateTable(c_int, c_int),
    /// `lua_newuserdata(size)`
    NewUserdata(size_t),
    /// `lua_setfield(idx, key)`
    SetField(c_int, &'a str),
    /// `lua_getmetatable(idx)`
    GetMetatable(c_int),
    /// `lua_setmetatable(idx)`
    SetMetatable(c_int),
    /// `lua_rawequal(first, second)`
    RawEqual(c_int, c_int),
    /// `lua_call(args, results)`
    Call(c_int, c_int),
    /// `lua_pcall(args, results, handler)`
    PCall(c_int, c_int, c_int),
    /// `lua_gc(what, data)`
    Gc(c_int, c_int),
    /// `lua_error`
    Error,
    /// `luaL_register(libname, table)`
    Register(Option<&'a str>, R),
    /// `luaL_argerror(arg, message)`
    ArgError(c_int, &'a str),
    /// `luaL_checklstring(arg, NULL)`
    CheckLString(c_int),
    /// `luaL_optlstring(arg, default, NULL)`
    OptLString(c_int, &'a str),
    /// `luaL_checkinteger(arg)`
    CheckInteger(c_int),
    /// `luaL_optinteger(arg, default)`
    OptInteger(c_int, lua_Integer),
    /// `luaL_newmetatable(name)`
    NewMetatable(&'a str),
    /// `luaL_ref(table)`
    Ref(c_int),
    /// `luaL_unref(table, reference)`
    Unref(c_int, c_int),
    /// `luaL_loadfile(path)`
    LoadFile(&'a str),
    /// `luaL_loadstring(chunk)`
    LoadString(&'a str),
}

/// A request as a host performs it.
pub type Call<'a> = Request<'a, Vec<luaL_Reg>>;

/// A request as a contract speaks of it.
pub type CallView<'a> = Request<'a, Seq<luaL_Reg>>;

impl<'a> View for Request<'a, Vec<luaL_Reg>> {
    type V = Request<'a, Seq<luaL_Reg>>;

    open spec fn view(&self) -> Request<'a, Seq<luaL_Reg>> {
        match *self {
            Request::NewState => Request::NewState,
            Request::Close => Request::Close,
            Request::Open(lib) => Request::Open(lib),
            Request::SetTop(idx) => Request::SetTop(idx),
            Request::PushValue(idx) => Request::PushValue(idx),
            Request::CheckStack(extra) => Request::CheckStack(extra),
            Request::IsNumber(idx) => Request::IsNumber(idx),
            Request::IsString(idx) => Request::IsString(idx),
            Request::IsUserdata(idx) => Request::IsUserdata(idx),
            Request::Type(idx) => Request::Type(idx),
            Request::TypeName(tag) => Request::TypeName(tag),
            Request::ToInteger(idx) => Request::ToInteger(idx),
            Request::ToBoolean(idx) => Request::ToBoolean(idx),
            Request::ToLString(idx) => Request::ToLString(idx),
            Request::ObjLen(idx) => Request::ObjLen(idx),
            Request::ToUserdata(idx) => Request::ToUserdata(idx),
            Request::PushNil => Request::PushNil,
            Request::PushInteger(n) => Request::PushInteger(n),
            Request::PushLString(s, len) => Request::PushLString(s, len),
            Request::PushString(s) => Request::PushString(s),
            Request::PushCClosure(f, n) => Request::PushCClosure(f, n),
            Request::PushBoolean(b) => Request::PushBoolean(b),
            Request::GetField(idx, key) => Request::GetField(idx, key),
            Request::RawGetI(idx, n) => Request::RawGetI(idx, n),
            Request::CreateTable(narr, nrec) => Request::CreateTable(narr, nrec),
            Request::NewUserdata(size) => Request::NewUserdata(size),
            Request::SetField(idx, key) => Request::SetField(idx, key),
            Request::GetMetatable(idx) => Request::GetMetatable(idx),
            Request::SetMetatable(idx) => Request::SetMetatable(idx),
            Request::RawEqual(first, second) => Request::RawEqual(first, second),
            Request::Call(nargs, nres) => Request::Call(nargs, nres),
            Request::PCall(nargs, nres, handler) => Request::PCall(nargs, nres, handler),
            Request::Gc(what, data) => Request::Gc(what, data),
            Request::Error => Request::Error,
            Request::Register(libname, table) => Request::Register(libname, table@),
            Request::ArgError(arg, message) => Request::ArgError(arg, message),
            Request::CheckLString(arg) => Request::CheckLString(arg),
            Request::OptLString(arg, default) => Request::OptLString(arg, default),
            Request::CheckInteger(arg) => Request::CheckInteger(arg),
            Request::OptInteger(arg, default) => Request::OptInteger(arg, default),
            Request::NewMetatable(name) => Request::NewMetatable(name),
            Request::Ref(table) => Request::Ref(table),
            Request::Unref(table, reference) => Request::Unref(table, reference),
            Request::LoadFile(path) => Request::LoadFile(path),
            Request::LoadString(chunk) => Request::LoadString(chunk),
        }
    }
}

/// What the interpreter hands back from one call.
#[derive(Clone, Debug, PartialEq, Eq)]
pub enum Reply {
    /// The entry point returns nothing, or what it returns is not looked at.
    Unit,
    /// A C `int`: a status code, a truth value, a type tag, a count.
    Int(c_int),
    /// A `lua_Integer`.
    Integer(lua_Integer),
    /// A size in bytes.
    Size(size_t),
    /// An address; `0` is the null pointer.
    Pointer(usize),
    /// The bytes of a C string without its terminator, or `None` for null.
    Text(Option<Vec<u8>>),
}

/// The next step of a script, given the replies to its requests so far.
#[derive(Clone, Debug, PartialEq, Eq)]
pub enum Next<C, T> {
    /// Perform this request and come back with the reply appended.
    Ask(C),
    /// The operation is over and this is its result.
    Done(T),
    /// A reply is of a kind that the request it answers never returns.
    Stray,
    /// The interpreter cannot go on; the host aborts with this message.
    Fatal(&'static str),
}

impl<'a, T> View for Next<Request<'a, Vec<luaL_Reg>>, T> {
    type V = Next<Request<'a, Seq<luaL_Reg>>, T>;

    open spec fn view(&self) -> Next<Request<'a, Seq<luaL_Reg>>, T> {
        match *self {
            Next::Ask(call) => Next::Ask(call@),
            Next::Done(value) => Next::Done(value),
            Next::Stray => Next::Stray,
            Next::Fatal(message) => Next::Fatal(message),
        }
    }
}

/// `core::str::from_utf8`: the bytes as text where they are well-formed
/// UTF-8, and nothing where they are not.
#[verifier::external_body]
fn from_utf8<'a>(bytes: &'a [u8]) -> (text: Option<&'a str>)
    ensures
        text is Some <==> valid_utf8(bytes@),
        text matches Some(s) ==> s.spec_bytes() == bytes@,
{
    match core::str::from_utf8(bytes) {
        Ok(s) => Some(s),
        Err(_) => None,
    }
}

/// The text that a C string holds, if it is text.
pub open spec fn text_of(bytes: Seq<u8>) -> Option<Seq<char>> {
    if valid_utf8(bytes) {
        Some(decode_utf8(bytes))
    } else {
        None
    }
}

/// A string result as a contract speaks of it.
pub open spec fn text_view(text: Option<String>) -> Option<Seq<char>> {
    match text {
        None => None,
        Some(s) => Some(s@),
    }
}

impl Reply {
    /// The text that the reply carries: `Some(None)` where the interpreter
    /// gave the null pointer or bytes that are no text, and `None` where the
    /// reply is of another kind.
    pub open spec fn text(&self) -> Option<Option<Seq<char>>> {
        match *self {
            Reply::Text(None) => Some(None),
            Reply::Text(Some(bytes)) => Some(text_of(bytes@)),
            _ => None,
        }
    }

    /// The text that the reply carries, copied.
    pub fn as_text(&self) -> (text: Option<Option<String>>)
        ensures
            text is None <==> self.text() is None,
            text matches Some(inner) ==> self.text() == Some(text_view(inner)),
    {
        match self {
            Reply::Text(None) => Some(None),
            Reply::Text(Some(bytes)) => match from_utf8(bytes.as_slice()) {
                None => Some(None),
                Some(text) => {
                    proof {
                        encode_utf8_decode_utf8(text@);
                    }
                    Some(Some(text.to_owned()))
                },
            },
            _ => None,
        }
    }

    /// The C `int` that the reply carries.
    pub open spec fn spec_as_int(&self) -> Option<c_int> {
        match *self {
            Reply::Int(value) => Some(value),
            _ => None,
        }
    }

    #[verifier::when_used_as_spec(spec_as_int)]
    pub fn as_int(&self) -> (value: Option<c_int>)
        ensures
            value == self.spec_as_int(),
    {
        match self {
            Reply::Int(value) => Some(*value),
            _ => None,
        }
    }

    /// The `lua_Integer` that the reply carries.
    pub open spec fn spec_as_integer(&self) -> Option<lua_Integer> {
        match *self {
            Reply::Integer(value) => Some(value),
            _ => None,
        }
    }

    #[verifier::when_used_as_spec(spec_as_integer)]
    pub fn as_integer(&self) -> (value: Option<lua_Integer>)
        ensures
            value == self.spec_as_integer(),
    {
        match self {
            Reply::Integer(value) => Some(*value),
            _ => None,
        }
    }

    /// The address that the reply carries.
    pub open spec fn spec_as_pointer(&self) -> Option<usize> {
        match *self {
            Reply::Pointer(address) => Some(address),
            _ => None,
        }
    }

    #[verifier::when_used_as_spec(spec_as_pointer)]
    pub fn as_pointer(&self) -> (address: Option<usize>)
        ensures
            address == self.spec_as_pointer(),
    {
        match self {
            Reply::Pointer(address) => Some(*address),
            _ => None,
        }
    }
}

/// A script that makes one request and returns nothing.
pub open spec fn once<'a>(call: CallView<'a>, replies: Seq<Reply>) -> Next<CallView<'a>, ()> {
    if replies.len() == 0 {
        Next::Ask(call)
    } else {
        Next::Done(())
    }
}

/// A script that makes two requests, one after the other, and returns
/// nothing.
pub open spec fn twice<'a>(first: CallView<'a>, second: CallView<'a>, replies: Seq<Reply>) -> Next<
    CallView<'a>,
    (),
> {
    if replies.len() == 0 {
        Next::Ask(first)
    } else if replies.len() == 1 {
        Next::Ask(second)
    } else {
        Next::Done(())
    }
}

/// The step of the script that makes the one request `call`.
pub fn ask_once<'a>(call: Call<'a>, replies: &[Reply]) -> (next: Next<Call<'a>, ()>)
    ensures
        next@ == once(call@, replies@),
{
    if replies.len() == 0 {
        Next::Ask(call)
    } else {
        Next::Done(())
    }
}

/// The step of the script that makes the requests `first` and `second`.
pub fn ask_twice<'a>(first: Call<'a>, second: Call<'a>, replies: &[Reply]) -> (next: Next<Call<'a>, ()>)
    ensures
        next@ == twice(first@, second@, replies@),
{
    if replies.len() == 0 {
        Next::Ask(first)
    } else if replies.len() == 1 {
        Next::Ask(second)
    } else {
        Next::Done(())
    }
}

/// The step of the script that asks `call` for a truth value.
pub fn ask_test<'a>(call: Call<'a>, replies: &[Reply]) -> (next: Next<Call<'a>, bool>)
    ensures
        next@ == truth(call@, replies@),
{
    if replies.len() == 0 {
        Next::Ask(call)
    } else {
        match replies[0].as_int() {
            None => Next::Stray,
            Some(answer) => Next::Done(answer != 0),
        }
    }
}

/// What a request for text asks and returns: the text, and `None` where the
/// interpreter has none to give or its bytes are no text.
pub open spec fn text_script<'a>(call: CallView<'a>, replies: Seq<Reply>) -> Next<
    CallView<'a>,
    Option<Seq<char>>,
> {
    if replies.len() == 0 {
        Next::Ask(call)
    } else {
        match replies[0].text() {
            None => Next::Stray,
            Some(text) => Next::Done(text),
        }
    }
}

/// The step of the script that asks `call` for text.
pub fn ask_text<'a>(call: Call<'a>, replies: &[Reply]) -> (next: Next<Call<'a>, Option<String>>)
    ensures
        next.shown(|text: Option<String>| text_view(text)) == text_script(call@, replies@),
{
    if replies.len() == 0 {
        Next::Ask(call)
    } else {
        match replies[0].as_text() {
            None => Next::Stray,
            Some(text) => Next::Done(text),
        }
    }
}

/// The truth value of the C `int` that answers `call`.
pub open spec fn truth<'a>(call: CallView<'a>, replies: Seq<Reply>) -> Next<CallView<'a>, bool> {
    if replies.len() == 0 {
        Next::Ask(call)
    } else {
        match replies[0].as_int() {
            None => Next::Stray,
            Some(answer) => Next::Done(answer != 0),
        }
    }
}

impl<'a, T> Next<Request<'a, Vec<luaL_Reg>>, T> {
    /// The step as a contract speaks of it, its result seen through `show`.
    pub open spec fn shown<V>(self, show: spec_fn(T) -> V) -> Next<CallView<'a>, V> {
        match self {
            Next::Ask(call) => Next::Ask(call@),
            Next::Done(value) => Next::Done(show(value)),
            Next::Stray => Next::Stray,
            Next::Fatal(message) => Next::Fatal(message),
        }
    }
}

impl<C, T> Next<C, T> {
    /// The same step, with `then` applied to the result once there is one.
    pub open spec fn map<V>(self, then: spec_fn(T) -> V) -> Next<C, V> {
        match self {
            Next::Ask(call) => Next::Ask(call),
            Next::Done(value) => Next::Done(then(value)),
            Next::Stray => Next::Stray,
            Next::Fatal(message) => Next::Fatal(message),
        }
    }
}

} // verus!
