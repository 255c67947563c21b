//! Native functions and records: registering them and making room for them.

use vstd::prelude::*;
use vstd::slice::slice_subrange;
use vstd::slice::slice_to_vec;
use crate::ffi::lauxlib::installed;
use crate::ffi::lauxlib::luaL_Reg;
use crate::ffi::lauxlib::terminated;
use crate::ffi::lua::c_int;
use crate::ffi::lua::lua_register;
use crate::ffi::lua::lua_register_script;
use crate::ffi::lua::LuaFunction;
use crate::ffi::lua::LUA_GLOBALSINDEX;
use crate::ffi::protocol::ask_once;
use crate::ffi::protocol::once;
use crate::ffi::protocol::Call;
use crate::ffi::protocol::CallView;
use crate::ffi::protocol::Next;
use crate::ffi::protocol::Reply;
use crate::ffi::protocol::Request;
use crate::state::read::check_userdata_script;
use crate::state::State;
use crate::types::LuaObject;
use crate::types::LuaValue;
use crate::types::Pushed;

verus! {

/// The message with which a host aborts when the interpreter has no memory
/// for a block.
pub const NO_BLOCK: &'static str = "Lua returned null pointer allocating new userdata";

/// The message with which a host aborts when a method is called on a value
/// that is no record of the method's type.
pub const NO_RECEIVER: &'static str = "method called on a value that is no record of its type";

/// The field of a behaviour set through which the methods of a record are
/// found.
pub const INDEX_FIELD: &'static str = "__index";

/// A registration table made from `fns`: the same entries, then the entry
/// that ends a table, whether or not `fns` holds one already.
pub open spec fn table_of(fns: Seq<luaL_Reg>) -> Seq<luaL_Reg> {
    fns.push(luaL_Reg::sentinel())
}

/// What `new_raw_userdata` asks and returns: room for one value, then a
/// block of `sz` bytes, whose address is the result. The null pointer in
/// place of a block is fatal.
pub open spec fn new_raw_userdata_script(sz: usize, replies: Seq<Reply>) -> Next<
    CallView<'static>,
    usize,
> {
    if replies.len() == 0 {
        Next::Ask(Request::CheckStack(1))
    } else if replies.len() == 1 {
        Next::Ask(Request::NewUserdata(sz))
    } else {
        match replies[1].as_pointer() {
            None => Next::Stray,
            Some(address) => if address == 0 {
                Next::Fatal(NO_BLOCK)
            } else {
                Next::Done(address)
            },
        }
    }
}

/// The requests that build the behaviour set of a record type, once the
/// registry has made an empty one under `name`: a fresh table; the methods
/// registered in it; a copy of the table published as the global `name`;
/// the table stored in the set as the field through which methods are found.
pub open spec fn building<'a>(name: &'a str, fns: Seq<luaL_Reg>) -> Seq<CallView<'a>> {
    seq![
        Request::CheckStack(1),
        Request::CreateTable(0, 0),
        Request::Register(None, table_of(fns)),
        Request::CheckStack(1),
        Request::PushValue(-1i32),
        Request::SetField(LUA_GLOBALSINDEX, name),
        Request::SetField(-2i32, INDEX_FIELD),
    ]
}

/// What `register_struct` asks and returns for a type with the name `name`
/// and the methods `fns`. The registry is asked for the behaviour set under
/// `name`. Where it answers 1 it has just made the set, which is then built;
/// on any other answer the set was there before, and nothing more is asked.
/// Either way the set is left on top of the stack.
pub open spec fn register_struct_script<'a>(name: &'a str, fns: Seq<luaL_Reg>, replies: Seq<Reply>) -> Next<
    CallView<'a>,
    (),
> {
    if replies.len() == 0 {
        Next::Ask(Request::NewMetatable(name))
    } else {
        match replies[0].as_int() {
            None => Next::Stray,
            Some(created) => if created == 1 && replies.len() - 1 < building(name, fns).len() {
                Next::Ask(building(name, fns)[replies.len() - 1])
            } else {
                Next::Done(())
            },
        }
    }
}

/// Whether the step of `register_struct` that follows `replies` hands the
/// methods over: it is the only step that needs them.
pub open spec fn hands_table(replies: Seq<Reply>) -> bool {
    replies.len() == 3 && replies[0].as_int() == Some(1i32)
}

/// How many replies a finished `register_struct` has taken.
pub open spec fn register_struct_replies(replies: Seq<Reply>) -> nat {
    if replies.len() > 0 && replies[0].as_int() == Some(1i32) {
        8
    } else {
        1
    }
}

/// What `new_struct` asks and returns for a type with the name `name`, the
/// methods `fns` and values of `size` bytes: a block of that size, then the
/// behaviour set of the type, looked up or built, then the set bound to the
/// block. The result is the address of the block.
pub open spec fn new_struct_script<'a>(
    name: &'a str,
    fns: Seq<luaL_Reg>,
    size: usize,
    replies: Seq<Reply>,
) -> Next<CallView<'a>, usize> {
    match new_raw_userdata_script(size, replies) {
        Next::Ask(call) => Next::Ask(call),
        Next::Stray => Next::Stray,
        Next::Fatal(message) => Next::Fatal(message),
        Next::Done(address) => {
            let rest = replies.subrange(2, replies.len() as int);
            match register_struct_script(name, fns, rest) {
                Next::Ask(call) => Next::Ask(call),
                Next::Stray => Next::Stray,
                Next::Fatal(message) => Next::Fatal(message),
                Next::Done(()) => if rest.len() <= register_struct_replies(rest) {
                    Next::Ask(Request::SetMetatable(-2i32))
                } else {
                    Next::Done(address)
                },
            }
        },
    }
}

/// Whether the step of `new_struct` that follows `replies` hands the methods
/// over.
pub open spec fn new_struct_hands_table(size: usize, replies: Seq<Reply>) -> bool {
    new_raw_userdata_script(size, replies) is Done && hands_table(
        replies.subrange(2, replies.len() as int),
    )
}

/// What `register_struct` asks and returns for the record type `T`: the
/// script for the name that `T` gives and, at the one step that hands the
/// methods over, for the methods that `T` gives then. At no other step is
/// `T` asked for its methods, and no other step depends on them.
pub open spec fn registers<T: LuaObject>(replies: Seq<Reply>, next: Next<CallView<'static>, ()>) -> bool {
    exists|name: &'static str|
        call_ensures(T::name, (), name) && if hands_table(replies) {
            exists|fns: Vec<luaL_Reg>|
                call_ensures(T::lua_fns, (), fns) && next == register_struct_script(
                    name,
                    fns@,
                    replies,
                )
        } else {
            next == register_struct_script(name, Seq::empty(), replies)
        }
}

/// What `new_struct` asks and returns for the record type `T`: the script
/// for the name that `T` gives, the size of a `T` and, at the one step that
/// hands the methods over, the methods that `T` gives then.
pub open spec fn makes<T: LuaObject>(replies: Seq<Reply>, next: Next<CallView<'static>, usize>) -> bool {
    exists|name: &'static str|
        call_ensures(T::name, (), name) && if new_struct_hands_table(
            vstd::layout::size_of::<T>() as usize,
            replies,
        ) {
            exists|fns: Vec<luaL_Reg>|
                call_ensures(T::lua_fns, (), fns) && next == new_struct_script(
                    name,
                    fns@,
                    vstd::layout::size_of::<T>() as usize,
                    replies,
                )
        } else {
            next == new_struct_script(
                name,
                Seq::empty(),
                vstd::layout::size_of::<T>() as usize,
                replies,
            )
        }
}

/// The request that hands over the table made from `fns`, for the global
/// table `name` or, without a name, for the table on top of the stack.
fn table_request<'a>(name: Option<&'a str>, fns: &[luaL_Reg]) -> (call: Call<'a>)
    ensures
        call@ == CallView::Register(name, table_of(fns@)),
{
    let mut table = slice_to_vec(fns);
    table.push(luaL_Reg { name: None, func: None });
    Request::Register(name, table)
}

/// The step of `register_struct` for a type with the name `name`, or `None`
/// where the step is the one that hands the methods over.
fn register_struct_step<'a>(name: &'a str, replies: &[Reply]) -> (next: Option<Next<Call<'a>, ()>>)
    ensures
        next is None <==> hands_table(replies@),
        next matches Some(step) ==> forall|fns: Seq<luaL_Reg>|
            step@ == #[trigger] register_struct_script(name, fns, replies@),
{
    if replies.len() == 0 {
        Some(Next::Ask(Request::NewMetatable(name)))
    } else {
        match replies[0].as_int() {
            None => Some(Next::Stray),
            Some(created) => {
                let built = replies.len() - 1;
                if created != 1 {
                    Some(Next::Done(()))
                } else if built == 0 || built == 3 {
                    Some(Next::Ask(Request::CheckStack(1)))
                } else if built == 1 {
                    Some(Next::Ask(Request::CreateTable(0, 0)))
                } else if built == 2 {
                    None
                } else if built == 4 {
                    Some(Next::Ask(Request::PushValue(-1)))
                } else if built == 5 {
                    Some(Next::Ask(Request::SetField(LUA_GLOBALSINDEX, name)))
                } else if built == 6 {
                    Some(Next::Ask(Request::SetField(-2, INDEX_FIELD)))
                } else {
                    Some(Next::Done(()))
                }
            },
        }
    }
}

/// The step of `register_struct` for a type with the name `name` and the
/// methods `fns`.
pub fn register_struct_as<'a>(name: &'a str, fns: &[luaL_Reg], replies: &[Reply]) -> (next: Next<
    Call<'a>,
    (),
>)
    ensures
        next@ == register_struct_script(name, fns@, replies@),
{
    match register_struct_step(name, replies) {
        Some(step) => step,
        None => Next::Ask(table_request(None, fns)),
    }
}

/// The step of `new_raw_userdata`.
fn new_block<'a>(sz: usize, replies: &[Reply]) -> (next: Next<Call<'a>, usize>)
    ensures
        next@ == new_raw_userdata_script(sz, replies@),
{
    if replies.len() == 0 {
        Next::Ask(Request::CheckStack(1))
    } else if replies.len() == 1 {
        Next::Ask(Request::NewUserdata(sz))
    } else {
        match replies[1].as_pointer() {
            None => Next::Stray,
            Some(address) => if address == 0 {
                Next::Fatal(NO_BLOCK)
            } else {
                Next::Done(address)
            },
        }
    }
}

/// The step of `new_struct` for a type with the name `name` and values of
/// `size` bytes, or `None` where the step is the one that hands the methods
/// over.
fn new_struct_step<'a>(name: &'a str, size: usize, replies: &[Reply]) -> (next: Option<
    Next<Call<'a>, usize>,
>)
    ensures
        next is None <==> new_struct_hands_table(size, replies@),
        next matches Some(step) ==> forall|fns: Seq<luaL_Reg>|
            step@ == #[trigger] new_struct_script(name, fns, size, replies@),
{
    match new_block(size, replies) {
        Next::Ask(call) => Some(Next::Ask(call)),
        Next::Stray => Some(Next::Stray),
        Next::Fatal(message) => Some(Next::Fatal(message)),
        Next::Done(address) => {
            let rest = slice_subrange(replies, 2, replies.len());
            let registering = register_struct_step(name, rest);
            assert(registering matches Some(step) ==> step@ == register_struct_script(
                name,
                Seq::empty(),
                rest@,
            ));
            match registering {
                None => None,
                Some(Next::Ask(call)) => Some(Next::Ask(call)),
                Some(Next::Stray) => Some(Next::Stray),
                Some(Next::Fatal(message)) => Some(Next::Fatal(message)),
                Some(Next::Done(())) => {
                    let taken: usize = match rest[0].as_int() {
                        Some(1) => 8,
                        _ => 1,
                    };
                    if rest.len() <= taken {
                        Some(Next::Ask(Request::SetMetatable(-2)))
                    } else {
                        Some(Next::Done(address))
                    }
                },
            }
        },
    }
}

/// The step of `new_struct` for a type with the name `name`, the methods
/// `fns` and values of `size` bytes.
pub fn new_struct_as<'a>(name: &'a str, fns: &[luaL_Reg], size: usize, replies: &[Reply]) -> (next:
    Next<Call<'a>, usize>)
    ensures
        next@ == new_struct_script(name, fns@, size, replies@),
{
    match new_struct_step(name, size, replies) {
        Some(step) => step,
        None => Next::Ask(table_request(None, fns)),
    }
}

/// The step of `new_struct` for the record type `T`.
pub fn new_struct<T>(replies: &[Reply]) -> (next: Next<Call<'static>, usize>) where T: LuaObject
    ensures
        makes::<T>(replies@, next@),
{
    let name = T::name();
    match new_struct_step(name, core::mem::size_of::<T>(), replies) {
        Some(step) => {
            assert(step@ == new_struct_script(
                name,
                Seq::empty(),
                vstd::layout::size_of::<T>() as usize,
                replies@,
            ));
            step
        },
        None => {
            let fns = T::lua_fns();
            let step = Next::Ask(table_request(None, fns.as_slice()));
            assert(step@ == new_struct_script(
                name,
                fns@,
                vstd::layout::size_of::<T>() as usize,
                replies@,
            ));
            step
        },
    }
}

impl State {
    /// Installs the native function `f` as the global `name`.
    pub fn register<'a>(&mut self, name: &'a str, f: LuaFunction, replies: &[Reply]) -> (next: Next<
        Call<'a>,
        (),
    >)
        ensures
            next@ == lua_register_script(name, Some(f), replies@),
            *final(self) == *old(self),
    {
        lua_register(name, Some(f), replies)
    }

    /// Installs the functions of `fns` in the global table `name`, or, where
    /// `name` is `None`, in the table on top of the stack. The table that is
    /// handed over ends in an entry that ends a table, whatever `fns` holds.
    pub fn register_fns<'a>(&mut self, name: Option<&'a str>, fns: &[luaL_Reg], replies: &[Reply]) -> (next:
        Next<Call<'a>, ()>)
        ensures
            next@ == once(Request::Register(name, table_of(fns@)), replies@),
            *final(self) == *old(self),
    {
        ask_once(table_request(name, fns), replies)
    }

    /// Makes a block of `sz` bytes in the interpreter's memory and pushes it.
    pub fn new_raw_userdata(&mut self, sz: usize, replies: &[Reply]) -> (next: Next<Call<'static>, usize>)
        ensures
            next@ == new_raw_userdata_script(sz, replies@),
            *final(self) == *old(self),
    {
        new_block(sz, replies)
    }

    /// Makes a block of the size of a `T` in the interpreter's memory and
    /// pushes it.
    pub fn new_userdata<T>(&mut self, replies: &[Reply]) -> (next: Next<Call<'static>, usize>)
        ensures
            next@ == new_raw_userdata_script(vstd::layout::size_of::<T>() as usize, replies@),
            *final(self) == *old(self),
    {
        new_block(core::mem::size_of::<T>(), replies)
    }

    /// Leaves the behaviour set of the record type `T` on top of the stack,
    /// building it first if the registry does not hold it yet. `T` is asked
    /// for its methods only at the step that hands them over, so not at all
    /// where the registry holds the set already.
    pub fn register_struct<T>(&mut self, replies: &[Reply]) -> (next: Next<Call<'static>, ()>) where
        T: LuaObject,

        ensures
            registers::<T>(replies@, next@),
            *final(self) == *old(self),
    {
        let name = T::name();
        match register_struct_step(name, replies) {
            Some(step) => {
                assert(step@ == register_struct_script(name, Seq::empty(), replies@));
                step
            },
            None => {
                let fns = T::lua_fns();
                let step = Next::Ask(table_request(None, fns.as_slice()));
                assert(step@ == register_struct_script(name, fns@, replies@));
                step
            },
        }
    }

    /// Makes a block for a record of type `T`, bound to the behaviour set of
    /// `T`, and pushes it.
    pub fn new_struct<T>(&mut self, replies: &[Reply]) -> (next: Next<Call<'static>, usize>) where
        T: LuaObject,

        ensures
            makes::<T>(replies@, next@),
            *final(self) == *old(self),
    {
        new_struct::<T>(replies)
    }

    /// Pushes `val`. What is asked is for the type of `val` to say.
    pub fn push<'a, T>(&mut self, val: &'a T, replies: &[Reply]) -> (next: Next<Call<'a>, Pushed>) where
        T: LuaValue,

        ensures
            val.pushes(replies@, next@),
            *final(self) == *old(self),
    {
        val.push_val(replies)
    }

    /// What a method called from a script asks before it runs: a check of
    /// the first slot, which holds the value on which it was called, for a
    /// record of type `name`. A value there that is no such record is a
    /// fault of the host and fatal.
    pub open spec fn method_self_script<'a>(name: &'a str, replies: Seq<Reply>) -> Next<
        CallView<'a>,
        usize,
    > {
        match check_userdata_script(1, name, replies) {
            Next::Ask(call) => Next::Ask(call),
            Next::Stray => Next::Stray,
            Next::Fatal(message) => Next::Fatal(message),
            Next::Done(None) => Next::Fatal(NO_RECEIVER),
            Next::Done(Some(address)) => Next::Done(address),
        }
    }

    /// The address of the record of type `T` on which a method was called.
    pub fn method_self<T>(&mut self, replies: &[Reply]) -> (next: Next<Call<'static>, usize>) where
        T: LuaObject,

        ensures
            exists|name: &'static str|
                call_ensures(T::name, (), name) && next@ == Self::method_self_script(name, replies@),
            *final(self) == *old(self),
    {
        let name = T::name();
        let next = match self.check_userdata_ex(1, name, replies) {
            Next::Ask(call) => Next::Ask(call),
            Next::Stray => Next::Stray,
            Next::Fatal(message) => Next::Fatal(message),
            Next::Done(None) => Next::Fatal(NO_RECEIVER),
            Next::Done(Some(address)) => Next::Done(address),
        };
        assert(next@ == Self::method_self_script(name, replies@));
        next
    }
}

/// What the interpreter installs from a table with one more entry at its
/// end: nothing more if the table ended before, or if the new entry ends it.
proof fn installed_push(table: Seq<luaL_Reg>, entry: luaL_Reg)
    ensures
        installed(table.push(entry)) == (if terminated(table) || entry.ends_table() {
            installed(table)
        } else {
            table.push(entry)
        }),
        !terminated(table) ==> installed(table) == table,
    decreases table.len(),
{
    if table.len() == 0 {
        assert(installed(table.push(entry).drop_first()) == Seq::<luaL_Reg>::empty());
        assert(installed(table.push(entry)) =~= (if entry.ends_table() {
            Seq::<luaL_Reg>::empty()
        } else {
            table.push(entry)
        }));
        assert(installed(table) =~= table);
    } else if table[0].ends_table() {
        assert(table.push(entry)[0] == table[0]);
    } else {
        let rest = table.drop_first();
        installed_push(rest, entry);
        assert(table.push(entry).drop_first() =~= rest.push(entry));
        assert(table.push(entry)[0] == table[0]);
        assert(terminated(table) <==> terminated(rest)) by {
            if terminated(table) {
                let i = choose|i: int| 0 <= i < table.len() && (#[trigger] table[i]).ends_table();
                assert(rest[i - 1].ends_table());
            }
            if terminated(rest) {
                let i = choose|i: int| 0 <= i < rest.len() && (#[trigger] rest[i]).ends_table();
                assert(table[i + 1].ends_table());
            }
        }
        if !terminated(table) {
            assert(seq![table[0]] + rest =~= table);
            if !entry.ends_table() {
                assert(seq![table[0]] + rest.push(entry) =~= table.push(entry));
            }
        }
    }
}

/// The table that `register_fns` hands over always ends inside itself, in
/// the entry without name and function, and its reader installs from it
/// what it would install from `fns`: the entries before the first one
/// without a name, all of them where there is none.
pub proof fn registration_table_is_terminated(fns: Seq<luaL_Reg>)
    ensures
        terminated(table_of(fns)),
        table_of(fns).last() == luaL_Reg::sentinel(),
        installed(table_of(fns)) == installed(fns),
        !terminated(fns) ==> installed(table_of(fns)) == fns,
{
    installed_push(fns, luaL_Reg::sentinel());
    assert(table_of(fns)[fns.len() as int].ends_table());
}

/// A list that already ends in the entry that ends a table gets a second
/// one behind it, and that changes nothing: the entries in front of the
/// first are installed, each once, and no other.
pub proof fn second_sentinel_is_harmless(entries: Seq<luaL_Reg>)
    requires
        !terminated(entries),
    ensures
        installed(table_of(entries.push(luaL_Reg::sentinel()))) == entries,
        installed(table_of(entries)) == entries,
{
    installed_push(entries, luaL_Reg::sentinel());
    installed_push(entries.push(luaL_Reg::sentinel()), luaL_Reg::sentinel());
}

/// Registering a record type again rebuilds nothing. The first time, the
/// registry answers that it has just made the behaviour set, and the set is
/// built with the seven requests of `building`, the methods registered
/// once. The registry then holds the set and says so from then on: the
/// script is over after the lookup, whatever replies are held against it,
/// and asks for no table, no registration and no global.
pub proof fn registering_twice_builds_once(
    name: &str,
    fns: Seq<luaL_Reg>,
    first: Seq<Reply>,
    created: c_int,
    second: Seq<Reply>,
)
    requires
        first.len() >= 8,
        first[0] == Reply::Int(1),
        second.len() >= 1,
        second[0] == Reply::Int(created),
        created != 1,
    ensures
        register_struct_script(name, fns, first.take(0)) == Next::<CallView, ()>::Ask(
            Request::NewMetatable(name),
        ),
        forall|k: int|
            0 <= k < 7 ==> #[trigger] register_struct_script(name, fns, first.take(k + 1)) == Next::<
                CallView,
                (),
            >::Ask(building(name, fns)[k]),
        register_struct_script(name, fns, first) == Next::<CallView, ()>::Done(()),
        register_struct_script(name, fns, second.take(0)) == Next::<CallView, ()>::Ask(
            Request::NewMetatable(name),
        ),
        register_struct_script(name, fns, second) == Next::<CallView, ()>::Done(()),
{
    assert forall|k: int| 0 <= k < 7 implies #[trigger] register_struct_script(
        name,
        fns,
        first.take(k + 1),
    ) == Next::<CallView, ()>::Ask(building(name, fns)[k]) by {
        assert(first.take(k + 1)[0] == first[0]);
    }
}

/// Checking is the dual of making. The address of a block that `new_struct`
/// made is never null; and a check of that block, answered by an
/// interpreter that finds the block bound to the behaviour set of its type,
/// hands back the address of the block, not `None`.
pub proof fn checked_block_is_the_block_made(
    name: &str,
    fns: Seq<luaL_Reg>,
    size: usize,
    replies: Seq<Reply>,
    address: usize,
    idx: c_int,
    bound: c_int,
    same: c_int,
)
    requires
        new_struct_script(name, fns, size, replies) == Next::<CallView, usize>::Done(address),
        bound != 0,
        same != 0,
    ensures
        address != 0,
        check_userdata_script(
            idx,
            name,
            seq![
                Reply::Pointer(address),
                Reply::Int(bound),
                Reply::Unit,
                Reply::Int(same),
                Reply::Unit,
            ],
        ) == Next::<CallView, Option<usize>>::Done(Some(address)),
{
}

/// A value that is no record of the type is answered with `None`, whatever
/// it is instead: no block at all, a block without a behaviour set, or a
/// block with another set than the one registered under the name.
pub proof fn stranger_is_not_checked_in(
    name: &str,
    idx: c_int,
    address: usize,
    bound: c_int,
    rest: Seq<Reply>,
)
    ensures
        check_userdata_script(idx, name, seq![Reply::Pointer(0)] + rest) == Next::<
            CallView,
            Option<usize>,
        >::Done(None),
        address != 0 ==> check_userdata_script(
            idx,
            name,
            seq![Reply::Pointer(address), Reply::Int(0)] + rest,
        ) == Next::<CallView, Option<usize>>::Done(None),
        address != 0 && bound != 0 ==> check_userdata_script(
            idx,
            name,
            seq![
                Reply::Pointer(address),
                Reply::Int(bound),
                Reply::Unit,
                Reply::Int(0),
                Reply::Unit,
            ] + rest,
        ) == Next::<CallView, Option<usize>>::Done(None),
{
}

} // verus!
