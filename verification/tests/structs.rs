use luajit::ffi::lauxlib::luaL_Reg;
use luajit::ffi::protocol::{Call, Next, Reply, Request};
use luajit::state::record::{new_struct_as, register_struct_as, NO_BLOCK, NO_RECEIVER};
use luajit::types::{LuaObject, Pushed};
use luajit::{c_int, LuaFunction, State, ThreadStatus};

/// Runs a script against an interpreter that gives `answers`, one per
/// request, and hands back the requests made and the result.
fn exec<'a, T>(
    mut script: impl FnMut(&[Reply]) -> Next<Call<'a>, T>,
    answers: &[Reply],
) -> (Vec<Call<'a>>, T) {
    let mut asked = Vec::new();
    let mut seen: Vec<Reply> = Vec::new();
    loop {
        match script(&seen) {
            Next::Ask(call) => {
                asked.push(call);
                seen.push(answers[seen.len()].clone());
            }
            Next::Done(value) => {
                assert_eq!(seen.len(), answers.len());
                return (asked, value);
            }
            Next::Stray => panic!("a reply of the wrong kind"),
            Next::Fatal(message) => panic!("{}", message),
        }
    }
}

/// A request as text, for a list that outlives what the request borrows.
fn show(call: &Call) -> String {
    format!("{:?}", call)
}

fn entry(name: &'static str, addr: usize) -> luaL_Reg {
    luaL_Reg { name: Some(name), func: Some(LuaFunction { addr }) }
}

const SENTINEL: luaL_Reg = luaL_Reg { name: None, func: None };

/// Where the interpreter puts the block in these tests.
const BLOCK: usize = 0x5000;

/// The replies of an interpreter that gives a block and finds no behaviour
/// set under the name yet.
fn first_push() -> Vec<Reply> {
    vec![
        Reply::Int(1),
        Reply::Pointer(BLOCK),
        Reply::Int(1),
        Reply::Int(1),
        Reply::Unit,
        Reply::Unit,
        Reply::Int(1),
        Reply::Unit,
        Reply::Unit,
        Reply::Unit,
        Reply::Int(1),
    ]
}

/// The replies of an interpreter that gives a block and holds the behaviour
/// set already.
fn later_push() -> Vec<Reply> {
    vec![Reply::Int(1), Reply::Pointer(BLOCK), Reply::Int(0), Reply::Int(1)]
}

struct Point2D {
    pub x: i32,
    pub y: i32,
}

impl LuaObject for Point2D {
    fn name() -> &'static str {
        "Point2D"
    }

    fn lua_fns() -> Vec<luaL_Reg> {
        vec![
            entry("new", 0x10),
            entry("add", 0x20),
            entry("sub", 0x30),
            entry("setX", 0x40),
            entry("setY", 0x50),
        ]
    }
}

impl Point2D {
    fn new(state: &mut State, asked: &mut Vec<String>) -> (c_int, Point2D) {
        let point = Point2D { x: 0, y: 0 };
        {
            let (calls, pushed) = exec(|seen| state.push(&point, seen), &later_push());
            assert_eq!(pushed, Pushed::Block(BLOCK));
            asked.extend(calls.iter().map(show));
        }

        (1, point)
    }

    fn add(&mut self, state: &mut State, asked: &mut Vec<String>) -> c_int {
        let sum = self.x + self.y;
        asked.extend(exec(|seen| state.push(&sum, seen), &[Reply::Unit]).0.iter().map(show));

        1
    }

    fn sub(&mut self, state: &mut State, asked: &mut Vec<String>) -> c_int {
        let difference = self.x - self.y;
        asked.extend(exec(|seen| state.push(&difference, seen), &[Reply::Unit]).0.iter().map(show));

        1
    }

    fn set_x(&mut self, state: &mut State, argument: lua_arg) -> c_int {
        let (_, new_x) = exec(|seen| state.to_int(2, seen), &[Reply::Int(1), Reply::Integer(argument)]);
        self.x = new_x.unwrap();

        0
    }

    fn set_y(&mut self, state: &mut State, argument: lua_arg) -> c_int {
        let (_, new_y) = exec(|seen| state.to_int(2, seen), &[Reply::Int(1), Reply::Integer(argument)]);
        self.y = new_y.unwrap();

        0
    }
}

/// The number that a script hands to a method as its argument.
#[allow(non_camel_case_types)]
type lua_arg = isize;

/// The replies of an interpreter that finds a record of the type asked for
/// in the block at `address`.
fn found(address: usize) -> Vec<Reply> {
    vec![Reply::Pointer(address), Reply::Int(1), Reply::Unit, Reply::Int(1), Reply::Unit]
}

/// The requests of a check of the value at `idx` for a record of the type
/// `name`.
fn checking(idx: c_int, name: &str) -> Vec<Call<'_>> {
    vec![
        Request::ToUserdata(idx),
        Request::GetMetatable(idx),
        Request::GetField(-10000, name),
        Request::RawEqual(-1, -2),
        Request::SetTop(-3),
    ]
}

/// What the adapter of a method does before the method runs: it borrows the
/// interpreter and finds the record on which the method was called.
fn receiver<T: LuaObject>(name: &'static str) -> State {
    let mut state = State::from_ptr(0x1000);
    let (asked, address) = exec(|seen| state.method_self::<T>(seen), &found(BLOCK));
    assert_eq!(asked, checking(1, name));
    assert_eq!(address, BLOCK);
    state
}

fn run_chunk(state: &mut State, chunk: &str) -> ThreadStatus {
    exec(|seen| state.do_string(chunk, seen), &[Reply::Int(0), Reply::Int(0)]).1
}

#[test]
pub fn test_new_struct() {
    let (_, mut state) = exec(|seen| State::new(seen), &[Reply::Pointer(0x1000)]);
    exec(|seen| state.open_libs(seen), &[Reply::Unit]);

    let mut test = Point2D { x: 1, y: 4 };
    let (asked, pushed) = exec(|seen| state.push(&test, seen), &first_push());
    assert_eq!(pushed, Pushed::Block(BLOCK));
    let mut table = Point2D::lua_fns();
    table.push(SENTINEL);
    assert_eq!(
        asked,
        vec![
            Request::CheckStack(1),
            Request::NewUserdata(8),
            Request::NewMetatable("Point2D"),
            Request::CheckStack(1),
            Request::CreateTable(0, 0),
            Request::Register(None, table),
            Request::CheckStack(1),
            Request::PushValue(-1),
            Request::SetField(-10002, "Point2D"),
            Request::SetField(-2, "__index"),
            Request::SetMetatable(-2),
        ]
    );

    exec(|seen| state.set_global("test", seen), &[Reply::Unit]);

    let res = run_chunk(&mut state, "test:setX(4)");
    assert_eq!(res, ThreadStatus::Success);
    assert_eq!(test.set_x(&mut receiver::<Point2D>("Point2D"), 4), 0);

    let res = run_chunk(&mut state, "if test:add() ~= 8 then error() end");
    assert_eq!(res, ThreadStatus::Success);
    let mut pushes = Vec::new();
    assert_eq!(test.add(&mut receiver::<Point2D>("Point2D"), &mut pushes), 1);
    assert_eq!(pushes, vec![show(&Request::PushInteger(8))]);

    let res = run_chunk(&mut state, "if test:sub() ~= 0 then error() end");
    assert_eq!(res, ThreadStatus::Success);
    let mut pushes = Vec::new();
    assert_eq!(test.sub(&mut receiver::<Point2D>("Point2D"), &mut pushes), 1);
    assert_eq!(pushes, vec![show(&Request::PushInteger(0))]);

    let res = run_chunk(
        &mut state,
        "foo = Point2D:new()
        foo:setX(2)
        foo:setY(4)
        if foo:add() ~= 6 then error() end",
    );
    assert_eq!(res, ThreadStatus::Success);
    let mut inside = State::from_ptr(0x1000);
    let mut pushes = Vec::new();
    let (results, mut foo) = Point2D::new(&mut inside, &mut pushes);
    assert_eq!(results, 1);
    assert_eq!(
        pushes,
        vec![
            show(&Request::CheckStack(1)),
            show(&Request::NewUserdata(8)),
            show(&Request::NewMetatable("Point2D")),
            show(&Request::SetMetatable(-2)),
        ]
    );
    foo.set_x(&mut receiver::<Point2D>("Point2D"), 2);
    foo.set_y(&mut receiver::<Point2D>("Point2D"), 4);
    let mut pushes = Vec::new();
    foo.add(&mut receiver::<Point2D>("Point2D"), &mut pushes);
    assert_eq!(pushes, vec![show(&Request::PushInteger(6))]);
}

struct B {
    pub val: i32,
}

impl LuaObject for B {
    fn name() -> &'static str {
        "B"
    }

    fn lua_fns() -> Vec<luaL_Reg> {
        vec![entry("add", 0x60), luaL_Reg { name: None, func: None }]
    }
}

impl B {
    fn add(&mut self, state: &mut State, argument: lua_arg, asked: &mut Vec<String>) -> c_int {
        let (_, x) = exec(|seen| state.to_int(2, seen), &[Reply::Int(1), Reply::Integer(argument)]);
        self.val += x.unwrap();
        let val = self.val;
        asked.extend(exec(|seen| state.push(&val, seen), &[Reply::Unit]).0.iter().map(show));

        1
    }
}

#[test]
pub fn test_double_sentinel() {
    let (_, mut state) = exec(|seen| State::new(seen), &[Reply::Pointer(0x1000)]);
    exec(|seen| state.open_libs(seen), &[Reply::Unit]);

    let mut test = B { val: 1 };
    let (asked, pushed) = exec(|seen| state.push(&test, seen), &first_push());
    assert_eq!(pushed, Pushed::Block(BLOCK));
    assert_eq!(asked[1], Request::NewUserdata(4));
    assert_eq!(
        asked[5],
        Request::Register(None, vec![entry("add", 0x60), SENTINEL, SENTINEL])
    );

    exec(|seen| state.set_global("test", seen), &[Reply::Unit]);

    let res = run_chunk(&mut state, "test:add(4)");
    assert_eq!(res, ThreadStatus::Success);
    let mut pushes = Vec::new();
    test.add(&mut receiver::<B>("B"), 4, &mut pushes);
    assert_eq!(pushes, vec![show(&Request::PushInteger(5))]);

    let res = run_chunk(&mut state, "if test:add(4) ~= 9 then error() end");
    assert_eq!(res, ThreadStatus::Success);
    let mut pushes = Vec::new();
    test.add(&mut receiver::<B>("B"), 4, &mut pushes);
    assert_eq!(pushes, vec![show(&Request::PushInteger(9))]);
}

#[test]
fn register_fns_always_adds_the_sentinel() {
    let mut state = State::from_ptr(8);
    let (asked, ()) = exec(|seen| state.register_fns(Some("lib"), &[], seen), &[Reply::Unit]);
    assert_eq!(asked, vec![Request::Register(Some("lib"), vec![SENTINEL])]);
    let (asked, ()) = exec(
        |seen| state.register_fns(None, &[entry("f", 1), entry("g", 2)], seen),
        &[Reply::Unit],
    );
    assert_eq!(
        asked,
        vec![Request::Register(None, vec![entry("f", 1), entry("g", 2), SENTINEL])]
    );
    let (asked, ()) = exec(
        |seen| state.register_fns(None, &[entry("f", 1), SENTINEL], seen),
        &[Reply::Unit],
    );
    assert_eq!(
        asked,
        vec![Request::Register(None, vec![entry("f", 1), SENTINEL, SENTINEL])]
    );
}

#[test]
fn registering_again_rebuilds_nothing() {
    let mut state = State::from_ptr(8);
    let built = vec![
        Reply::Int(1),
        Reply::Int(1),
        Reply::Unit,
        Reply::Unit,
        Reply::Int(1),
        Reply::Unit,
        Reply::Unit,
        Reply::Unit,
    ];
    let (first, ()) = exec(|seen| state.register_struct::<Point2D>(seen), &built);
    assert_eq!(first.len(), 8);
    assert_eq!(
        first.iter().filter(|call| matches!(call, Request::Register(..))).count(),
        1
    );
    let (second, ()) = exec(|seen| state.register_struct::<Point2D>(seen), &[Reply::Int(0)]);
    assert_eq!(second, vec![Request::NewMetatable("Point2D")]);
    // Replies left over from the first time change nothing.
    let mut stale = built.clone();
    stale[0] = Reply::Int(0);
    assert_eq!(state.register_struct::<Point2D>(&stale), Next::Done(()));
}

#[test]
fn registration_by_name_and_by_type_agree() {
    let mut state = State::from_ptr(8);
    let fns = Point2D::lua_fns();
    for answered in 0..9 {
        let mut replies = vec![Reply::Int(1)];
        replies.resize(answered, Reply::Unit);
        assert_eq!(
            state.register_struct::<Point2D>(&replies),
            register_struct_as("Point2D", &fns, &replies)
        );
        assert_eq!(
            state.new_struct::<Point2D>(&replies),
            new_struct_as("Point2D", &fns, 8, &replies)
        );
    }
}

#[test]
fn block_without_memory_is_fatal() {
    let mut state = State::from_ptr(8);
    assert_eq!(
        state.new_raw_userdata(16, &[Reply::Int(1), Reply::Pointer(0)]),
        Next::Fatal(NO_BLOCK)
    );
    assert_eq!(NO_BLOCK, "Lua returned null pointer allocating new userdata");
    assert_eq!(
        state.new_struct::<Point2D>(&[Reply::Int(1), Reply::Pointer(0)]),
        Next::Fatal(NO_BLOCK)
    );
    assert_eq!(
        state.push(&Point2D { x: 0, y: 0 }, &[Reply::Int(1), Reply::Pointer(0)]),
        Next::Fatal(NO_BLOCK)
    );
}

#[test]
fn blocks_have_the_size_asked_for() {
    let mut state = State::from_ptr(8);
    let answers = [Reply::Int(1), Reply::Pointer(BLOCK)];
    assert_eq!(
        exec(|seen| state.new_raw_userdata(24, seen), &answers),
        (vec![Request::CheckStack(1), Request::NewUserdata(24)], BLOCK)
    );
    assert_eq!(
        exec(|seen| state.new_userdata::<u64>(seen), &answers),
        (vec![Request::CheckStack(1), Request::NewUserdata(8)], BLOCK)
    );
    assert_eq!(
        exec(|seen| state.new_userdata::<[u8; 3]>(seen), &answers).0[1],
        Request::NewUserdata(3)
    );
    assert!(matches!(state.new_raw_userdata(8, &[Reply::Int(1), Reply::Unit]), Next::Stray));
}

#[test]
fn method_on_a_stranger_is_fatal() {
    let mut state = State::from_ptr(8);
    assert_eq!(state.method_self::<B>(&[]), Next::Ask(Request::ToUserdata(1)));
    assert_eq!(state.method_self::<B>(&[Reply::Pointer(0)]), Next::Fatal(NO_RECEIVER));
    assert_eq!(
        state.method_self::<B>(&[Reply::Pointer(64), Reply::Int(0)]),
        Next::Fatal(NO_RECEIVER)
    );
    let other = [Reply::Pointer(64), Reply::Int(1), Reply::Unit, Reply::Int(0), Reply::Unit];
    assert_eq!(state.method_self::<B>(&other), Next::Fatal(NO_RECEIVER));
    assert_eq!(state.method_self::<B>(&found(64)), Next::Done(64));
    assert!(matches!(state.method_self::<B>(&[Reply::Int(64)]), Next::Stray));
}

#[test]
fn checked_blocks_are_found_by_name() {
    let mut state = State::from_ptr(8);
    assert_eq!(
        exec(|seen| state.check_userdata_ex(2, "Point2D", seen), &found(BLOCK)),
        (checking(2, "Point2D"), Some(BLOCK))
    );
    assert_eq!(
        exec(|seen| state.check_userdata::<B>(1, seen), &found(BLOCK)),
        (checking(1, "B"), Some(BLOCK))
    );
    assert_eq!(
        exec(|seen| state.check_userdata::<B>(-1, seen), &found(BLOCK)),
        (checking(-1, "B"), Some(BLOCK))
    );
}

#[test]
fn check_gives_nothing_for_what_is_no_block() {
    let mut state = State::from_ptr(8);
    assert_eq!(
        exec(|seen| state.check_userdata_ex(2, "Point2D", seen), &[Reply::Pointer(0)]),
        (vec![Request::ToUserdata(2)], None)
    );
    assert_eq!(exec(|seen| state.check_userdata::<B>(1, seen), &[Reply::Pointer(0)]).1, None);
}

#[test]
fn check_gives_nothing_for_a_block_without_behaviour_set() {
    let mut state = State::from_ptr(8);
    assert_eq!(
        exec(
            |seen| state.check_userdata_ex(2, "Point2D", seen),
            &[Reply::Pointer(BLOCK), Reply::Int(0)]
        ),
        (vec![Request::ToUserdata(2), Request::GetMetatable(2)], None)
    );
}

#[test]
fn check_gives_nothing_for_a_record_of_another_type() {
    let mut state = State::from_ptr(8);
    let other = [Reply::Pointer(BLOCK), Reply::Int(1), Reply::Unit, Reply::Int(0), Reply::Unit];
    // Both sets are popped again before the answer is given.
    assert_eq!(
        exec(|seen| state.check_userdata_ex(2, "Point2D", seen), &other),
        (checking(2, "Point2D"), None)
    );
    assert_eq!(exec(|seen| state.check_userdata::<B>(1, seen), &other), (checking(1, "B"), None));
}

/// A record type that must never be asked for its methods.
struct Held;

impl LuaObject for Held {
    fn name() -> &'static str {
        "Held"
    }

    fn lua_fns() -> Vec<luaL_Reg> {
        panic!("asked for its methods")
    }
}

#[test]
fn registered_type_is_not_asked_for_its_methods() {
    let mut state = State::from_ptr(8);
    assert_eq!(
        exec(|seen| state.register_struct::<Held>(seen), &[Reply::Int(0)]).0,
        vec![Request::NewMetatable("Held")]
    );
    assert_eq!(
        exec(|seen| state.push(&Held, seen), &later_push()),
        (
            vec![
                Request::CheckStack(1),
                Request::NewUserdata(0),
                Request::NewMetatable("Held"),
                Request::SetMetatable(-2),
            ],
            Pushed::Block(BLOCK)
        )
    );
}

#[test]
fn new_type_is_asked_for_its_methods_at_one_step_only() {
    let mut state = State::from_ptr(8);
    // With three replies the table is handed over; at every other step the
    // type is left alone.
    let mut registering = vec![Reply::Int(1)];
    registering.resize(12, Reply::Unit);
    for answered in (0..12).filter(|answered| *answered != 3) {
        assert!(!matches!(
            state.register_struct::<Held>(&registering[..answered]),
            Next::Ask(Request::Register(..))
        ));
    }
    let mut making = vec![Reply::Int(1), Reply::Pointer(BLOCK), Reply::Int(1)];
    making.resize(14, Reply::Unit);
    for answered in (0..14).filter(|answered| *answered != 5) {
        assert!(!matches!(
            state.new_struct::<Held>(&making[..answered]),
            Next::Ask(Request::Register(..))
        ));
    }
    // The step that hands the table over asks the type, and hands over what
    // the type gives.
    let table = vec![entry("add", 0x60), SENTINEL, SENTINEL];
    assert_eq!(
        state.register_struct::<B>(&registering[..3]),
        Next::Ask(Request::Register(None, table.clone()))
    );
    assert_eq!(state.new_struct::<B>(&making[..5]), Next::Ask(Request::Register(None, table)));
}
