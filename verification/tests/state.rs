use luajit::ffi::protocol::{Call, Library, Next, Reply, Request};
use luajit::{State, ThreadStatus};

/// Runs a script against an interpreter that gives `answers`, one per
/// request, and hands back the requests made and the result.
fn run<'a, T>(
    mut script: impl FnMut(&[Reply]) -> Next<Call<'a>, T>,
    answers: &[Reply],
) -> (Vec<Call<'a>>, T) {
    let mut asked = Vec::new();
    let mut seen: Vec<Reply> = Vec::new();
    loop {
        match script(&seen) {
            Next::Ask(call) => {
                asked.push(call);
                seen.push(answers[seen.len()].clone());
            }
            Next::Done(value) => {
                assert_eq!(seen.len(), answers.len());
                return (asked, value);
            }
            Next::Stray => panic!("a reply of the wrong kind"),
            Next::Fatal(message) => panic!("{}", message),
        }
    }
}

fn owned_state() -> State {
    let (asked, state) = run(|seen| State::new(seen), &[Reply::Pointer(0x7f00)]);
    assert_eq!(asked, vec![Request::NewState]);
    state
}

#[test]
fn do_valid_string() {
    let mut state = owned_state();
    let (asked, ()) = run(|seen| state.open_libs(seen), &[Reply::Unit]);
    assert_eq!(asked.len(), 1);

    let (asked, status) = run(
        |seen| state.do_string(r#"print("Hello world!")"#, seen),
        &[Reply::Int(0), Reply::Int(0)],
    );
    assert!(status == ThreadStatus::Success);
    assert_eq!(
        asked,
        vec![
            Request::LoadString(r#"print("Hello world!")"#),
            Request::PCall(0, -1, 0),
        ]
    );
}

#[test]
fn do_invalid_string() {
    let mut state = owned_state();
    run(|seen| state.open_libs(seen), &[Reply::Unit]);

    let (asked, status) = run(|seen| state.do_string("aqdw98hdqw", seen), &[Reply::Int(3)]);
    assert!(status == ThreadStatus::SyntaxError);
    assert_eq!(asked, vec![Request::LoadString("aqdw98hdqw")]);
}

#[test]
fn new_handle_owns_and_closes_once() {
    let state = owned_state();
    assert!(state.is_owned());
    assert_eq!(state.as_ptr(), 0x7f00);
    let (asked, ()) = run(|seen| state.close(seen), &[Reply::Unit]);
    assert_eq!(asked, vec![Request::Close]);
}

#[test]
fn new_handle_needs_an_address() {
    assert!(matches!(State::new(&[]), Next::Ask(Request::NewState)));
    assert!(matches!(State::new(&[Reply::Int(1)]), Next::Stray));
}

#[test]
fn borrowed_handle_never_closes() {
    let state = State::from_ptr(0x7f00);
    assert!(!state.is_owned());
    assert_eq!(state.as_ptr(), 0x7f00);
    let (asked, ()) = run(|seen| state.close(seen), &[]);
    assert!(asked.is_empty());
}

#[test]
fn every_status_code_has_its_status() {
    assert_eq!(ThreadStatus::from(0), ThreadStatus::Success);
    assert_eq!(ThreadStatus::from(1), ThreadStatus::Yield);
    assert_eq!(ThreadStatus::from(2), ThreadStatus::RuntimeError);
    assert_eq!(ThreadStatus::from(3), ThreadStatus::SyntaxError);
    assert_eq!(ThreadStatus::from(4), ThreadStatus::MemoryError);
    assert_eq!(ThreadStatus::from(5), ThreadStatus::MsgHandlerError);
    assert_eq!(ThreadStatus::from(6), ThreadStatus::FileError);
    assert_eq!(ThreadStatus::from(7), ThreadStatus::Unknown);
    assert_eq!(ThreadStatus::from(-1), ThreadStatus::Unknown);
    assert_eq!(ThreadStatus::from(i32::MAX), ThreadStatus::Unknown);
}

#[test]
fn status_codes_go_there_and_back() {
    for code in 0..=6 {
        assert_eq!(ThreadStatus::from(code).code(), Some(code));
    }
    assert_eq!(ThreadStatus::Unknown.code(), None);
}

#[test]
fn libraries_open_with_one_request_each() {
    let mut state = State::from_ptr(8);
    assert_eq!(state.open_libs(&[]), Next::Ask(Request::Open(Library::All)));
    assert_eq!(state.open_base(&[]), Next::Ask(Request::Open(Library::Base)));
    assert_eq!(state.open_math(&[]), Next::Ask(Request::Open(Library::Math)));
    assert_eq!(state.open_string(&[]), Next::Ask(Request::Open(Library::String)));
    assert_eq!(state.open_table(&[]), Next::Ask(Request::Open(Library::Table)));
    assert_eq!(state.open_io(&[]), Next::Ask(Request::Open(Library::Io)));
    assert_eq!(state.open_os(&[]), Next::Ask(Request::Open(Library::Os)));
    assert_eq!(state.open_package(&[]), Next::Ask(Request::Open(Library::Package)));
    assert_eq!(state.open_debug(&[]), Next::Ask(Request::Open(Library::Debug)));
    assert_eq!(state.open_bit(&[]), Next::Ask(Request::Open(Library::Bit)));
    assert_eq!(state.open_jit(&[]), Next::Ask(Request::Open(Library::Jit)));
    assert_eq!(state.open_ffi(&[]), Next::Ask(Request::Open(Library::Ffi)));
    assert_eq!(state.open_ffi(&[Reply::Int(1)]), Next::Done(()));
}

#[test]
fn stack_operations_ask_what_they_name() {
    let mut state = State::from_ptr(8);
    assert_eq!(run(|seen| state.settop(3, seen), &[Reply::Unit]).0, vec![Request::SetTop(3)]);
    assert_eq!(run(|seen| state.pop(1, seen), &[Reply::Unit]).0, vec![Request::SetTop(-2)]);
    assert_eq!(run(|seen| state.pop(0, seen), &[Reply::Unit]).0, vec![Request::SetTop(-1)]);
    assert_eq!(
        run(|seen| state.pop(i32::MAX, seen), &[Reply::Unit]).0,
        vec![Request::SetTop(i32::MIN)]
    );
    assert_eq!(run(|seen| state.call(2, 1, seen), &[Reply::Unit]).0, vec![Request::Call(2, 1)]);
    assert_eq!(
        run(|seen| state.set_global("answer", seen), &[Reply::Unit]).0,
        vec![Request::SetField(-10002, "answer")]
    );
    assert_eq!(
        run(|seen| state.set_field(-2, "x", seen), &[Reply::Unit]).0,
        vec![Request::SetField(-2, "x")]
    );
}

#[test]
fn pushes_ask_for_room_first() {
    let mut state = State::from_ptr(8);
    let room = [Reply::Int(1), Reply::Unit];
    assert_eq!(
        run(|seen| state.push_value(-1, seen), &room).0,
        vec![Request::CheckStack(1), Request::PushValue(-1)]
    );
    assert_eq!(
        run(|seen| state.push_nil(seen), &room).0,
        vec![Request::CheckStack(1), Request::PushNil]
    );
    assert_eq!(
        run(|seen| state.get_global("print", seen), &room).0,
        vec![Request::CheckStack(1), Request::GetField(-10002, "print")]
    );
    assert_eq!(
        run(|seen| state.get_field(1, "x", seen), &room).0,
        vec![Request::CheckStack(1), Request::GetField(1, "x")]
    );
    assert_eq!(
        run(|seen| state.new_table(seen), &room).0,
        vec![Request::CheckStack(1), Request::CreateTable(0, 0)]
    );
    // The push goes ahead even where the interpreter found no room.
    let full = [Reply::Int(0), Reply::Unit];
    assert_eq!(
        run(|seen| state.push_nil(seen), &full).0,
        vec![Request::CheckStack(1), Request::PushNil]
    );
}

#[test]
fn checkstack_reports_the_interpreters_answer() {
    let mut state = State::from_ptr(8);
    assert_eq!(
        run(|seen| state.checkstack(20, seen), &[Reply::Int(1)]),
        (vec![Request::CheckStack(20)], true)
    );
    assert_eq!(
        run(|seen| state.checkstack(1_000_000, seen), &[Reply::Int(0)]),
        (vec![Request::CheckStack(1_000_000)], false)
    );
    assert_eq!(
        run(|seen| state.checkstack(i32::MAX as usize, seen), &[Reply::Int(1)]),
        (vec![Request::CheckStack(i32::MAX)], true)
    );
    assert!(matches!(state.checkstack(1, &[Reply::Unit]), Next::Stray));
}

#[test]
fn checkstack_refuses_more_than_an_int_counts() {
    let mut state = State::from_ptr(8);
    assert_eq!(state.checkstack(i32::MAX as usize + 1, &[]), Next::Done(false));
    assert_eq!(state.checkstack(usize::MAX, &[]), Next::Done(false));
}

#[test]
fn protected_call_succeeds_without_a_message() {
    let mut state = State::from_ptr(8);
    let (asked, result) = run(|seen| state.pcall(0, 0, 0, seen), &[Reply::Int(0)]);
    assert_eq!(result, Ok(()));
    assert_eq!(asked, vec![Request::PCall(0, 0, 0)]);
}

#[test]
fn protected_call_hands_back_status_and_message() {
    let mut state = State::from_ptr(8);
    let (asked, result) = run(
        |seen| state.pcall(1, 2, 3, seen),
        &[Reply::Int(2), Reply::Text(Some(b"attempt to call a nil value".to_vec()))],
    );
    assert_eq!(
        result,
        Err((ThreadStatus::RuntimeError, "attempt to call a nil value".to_owned()))
    );
    assert_eq!(asked, vec![Request::PCall(1, 2, 3), Request::ToLString(-1)]);
}

#[test]
fn protected_call_without_message_gives_empty_text() {
    let mut state = State::from_ptr(8);
    let (_, result) = run(|seen| state.pcall(0, 0, 0, seen), &[Reply::Int(4), Reply::Text(None)]);
    assert_eq!(result, Err((ThreadStatus::MemoryError, String::new())));
    let (_, result) = run(
        |seen| state.pcall(0, 0, 0, seen),
        &[Reply::Int(5), Reply::Text(Some(vec![0xff, 0xfe]))],
    );
    assert_eq!(result, Err((ThreadStatus::MsgHandlerError, String::new())));
    let (_, result) = run(
        |seen| state.pcall(0, 0, 0, seen),
        &[Reply::Int(1), Reply::Text(Some(b"paused".to_vec()))],
    );
    assert_eq!(result, Err((ThreadStatus::Yield, "paused".to_owned())));
    let (_, result) = run(
        |seen| state.pcall(0, 0, 0, seen),
        &[Reply::Int(77), Reply::Text(Some(b"?".to_vec()))],
    );
    assert_eq!(result, Err((ThreadStatus::Unknown, "?".to_owned())));
}

#[test]
fn protected_call_rejects_stray_replies() {
    let mut state = State::from_ptr(8);
    assert!(matches!(state.pcall(0, 0, 0, &[Reply::Unit]), Next::Stray));
    assert!(matches!(state.pcall(0, 0, 0, &[Reply::Int(2), Reply::Int(0)]), Next::Stray));
}

#[test]
fn bare_protected_call_hands_back_the_status() {
    let mut state = State::from_ptr(8);
    assert_eq!(
        run(|seen| state.pcallx(0, -1, 0, seen), &[Reply::Int(2)]),
        (vec![Request::PCall(0, -1, 0)], ThreadStatus::RuntimeError)
    );
    assert_eq!(run(|seen| state.pcallx(0, 0, 0, seen), &[Reply::Int(0)]).1, ThreadStatus::Success);
}

#[test]
fn do_string_reports_the_error_of_the_run() {
    let mut state = State::from_ptr(8);
    let (asked, status) = run(
        |seen| state.do_string("error()", seen),
        &[Reply::Int(0), Reply::Int(2)],
    );
    assert_eq!(status, ThreadStatus::RuntimeError);
    assert_eq!(asked, vec![Request::LoadString("error()"), Request::PCall(0, -1, 0)]);
}
