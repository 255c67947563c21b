//! Loading and running chunks.

use vstd::prelude::*;
use vstd::slice::slice_subrange;
use crate::ffi::lauxlib::load_and_run;
use crate::ffi::lauxlib::luaL_dostring;
use crate::ffi::lua::c_int;
use crate::ffi::lua::LUA_MULTIRET;
use crate::ffi::protocol::ask_once;
use crate::ffi::protocol::once;
use crate::ffi::protocol::text_script;
use crate::ffi::protocol::Call;
use crate::ffi::protocol::CallView;
use crate::ffi::protocol::Next;
use crate::ffi::protocol::Reply;
use crate::ffi::protocol::Request;
use crate::state::State;
use crate::state::ThreadStatus;

verus! {

/// How a protected operation ended, as a contract speaks of it: nothing on
/// success, else the status and the message.
pub type Outcome = Result<(), (ThreadStatus, Seq<char>)>;

/// The result of a protected operation as a contract speaks of it.
pub open spec fn outcome_view(outcome: Result<(), (ThreadStatus, String)>) -> Outcome {
    match outcome {
        Ok(()) => Ok(()),
        Err((status, message)) => Err((status, message@)),
    }
}

/// What a request that returns a status code asks and returns: the status
/// that the code stands for.
pub open spec fn status_script<'a>(call: CallView<'a>, replies: Seq<Reply>) -> Next<
    CallView<'a>,
    ThreadStatus,
> {
    if replies.len() == 0 {
        Next::Ask(call)
    } else {
        match replies[0].as_int() {
            None => Next::Stray,
            Some(code) => Next::Done(ThreadStatus::of_code(code)),
        }
    }
}

/// What a protected operation asks and returns. `first` is the request that
/// loads or calls. Where its status is success, the operation is over and
/// nothing more is asked. On every other status the value on top of the
/// stack is read as a string: it is the message, and where there is none
/// the message is empty.
pub open spec fn protected<'a>(first: CallView<'a>, replies: Seq<Reply>) -> Next<CallView<'a>, Outcome> {
    if replies.len() == 0 {
        Next::Ask(first)
    } else {
        match replies[0].as_int() {
            None => Next::Stray,
            Some(code) => if ThreadStatus::of_code(code) == ThreadStatus::Success {
                Next::Done(Ok(()))
            } else {
                match text_script(
                    Request::ToLString(-1i32),
                    replies.subrange(1, replies.len() as int),
                ) {
                    Next::Ask(call) => Next::Ask(call),
                    Next::Stray => Next::Stray,
                    Next::Fatal(message) => Next::Fatal(message),
                    Next::Done(text) => Next::Done(
                        Err(
                            (
                                ThreadStatus::of_code(code),
                                match text {
                                    Some(message) => message,
                                    None => Seq::empty(),
                                },
                            ),
                        ),
                    ),
                }
            },
        }
    }
}

impl State {
    /// The step of a protected operation that follows its first request.
    fn after_status<'a>(&mut self, replies: &[Reply]) -> (next: Next<
        Call<'a>,
        Result<(), (ThreadStatus, String)>,
    >)
        requires
            replies@.len() > 0,
        ensures
            forall|first: CallView<'a>|
                next.shown(|outcome: Result<(), (ThreadStatus, String)>| outcome_view(outcome))
                    == #[trigger] protected(first, replies@),
            *final(self) == *old(self),
    {
        match replies[0].as_int() {
            None => Next::Stray,
            Some(code) => {
                let res = ThreadStatus::from(code);
                if res != ThreadStatus::Success {
                    match self.to_str(-1, slice_subrange(replies, 1, replies.len())) {
                        Next::Ask(call) => Next::Ask(call),
                        Next::Stray => Next::Stray,
                        Next::Fatal(message) => Next::Fatal(message),
                        Next::Done(text) => {
                            let message = match text {
                                Some(s) => s,
                                None => String::new(),
                            };
                            Next::Done(Err((res, message)))
                        },
                    }
                } else {
                    Next::Done(Ok(()))
                }
            },
        }
    }

    /// Runs the chunk `s`: loads it and, if it loaded, calls it protected.
    /// The result is the status of the call or, for a chunk that did not
    /// load, of the load.
    pub fn do_string<'a>(&mut self, s: &'a str, replies: &[Reply]) -> (next: Next<Call<'a>, ThreadStatus>)
        ensures
            next@ == load_and_run(Request::LoadString(s), replies@).map(
                |code: c_int| ThreadStatus::of_code(code),
            ),
            *final(self) == *old(self),
    {
        match luaL_dostring(s, replies) {
            Next::Ask(call) => Next::Ask(call),
            Next::Stray => Next::Stray,
            Next::Fatal(message) => Next::Fatal(message),
            Next::Done(code) => Next::Done(ThreadStatus::from(code)),
        }
    }

    /// Calls the function below the `nargs` topmost values, unprotected: an
    /// error in it leaves through the interpreter and never comes back here.
    pub fn call(&mut self, nargs: i32, nres: i32, replies: &[Reply]) -> (next: Next<Call<'static>, ()>)
        ensures
            next@ == once(Request::Call(nargs, nres), replies@),
            *final(self) == *old(self),
    {
        ask_once(Request::Call(nargs, nres), replies)
    }

    /// Calls the function below the `nargs` topmost values, protected.
    pub fn pcall(&mut self, nargs: i32, nres: i32, err_func: i32, replies: &[Reply]) -> (next: Next<
        Call<'static>,
        Result<(), (ThreadStatus, String)>,
    >)
        ensures
            next.shown(|outcome: Result<(), (ThreadStatus, String)>| outcome_view(outcome))
                == protected(Request::PCall(nargs, nres, err_func), replies@),
            *final(self) == *old(self),
    {
        if replies.len() == 0 {
            Next::Ask(Request::PCall(nargs, nres, err_func))
        } else {
            self.after_status(replies)
        }
    }

    /// Calls the function below the `nargs` topmost values, protected, and
    /// hands back the status alone.
    pub fn pcallx(&mut self, nargs: i32, nres: i32, err_func: i32, replies: &[Reply]) -> (next: Next<
        Call<'static>,
        ThreadStatus,
    >)
        ensures
            next@ == status_script(Request::PCall(nargs, nres, err_func), replies@),
            *final(self) == *old(self),
    {
        if replies.len() == 0 {
            Next::Ask(Request::PCall(nargs, nres, err_func))
        } else {
            match replies[0].as_int() {
                None => Next::Stray,
                Some(code) => Next::Done(ThreadStatus::from(code)),
            }
        }
    }

    /// What `load_file` asks and returns. `file` is the full path of the
    /// file, or `None` where the path names no regular file that exists.
    /// Without a file the result is `FileError` and the interpreter is asked
    /// nothing; with one, the interpreter loads it.
    pub open spec fn load_file_script<'a>(file: Option<&'a str>, replies: Seq<Reply>) -> Next<
        CallView<'a>,
        Outcome,
    > {
        match file {
            None => Next::Done(Err((ThreadStatus::FileError, "Path does not exist"@))),
            Some(path) => protected(Request::LoadFile(path), replies),
        }
    }

    /// Loads the chunk in a file and leaves it on the stack as a function.
    pub fn load_file<'a>(&mut self, file: Option<&'a str>, replies: &[Reply]) -> (next: Next<
        Call<'a>,
        Result<(), (ThreadStatus, String)>,
    >)
        ensures
            next.shown(|outcome: Result<(), (ThreadStatus, String)>| outcome_view(outcome))
                == Self::load_file_script(file, replies@),
            *final(self) == *old(self),
    {
        match file {
            None => Next::Done(Err((ThreadStatus::FileError, "Path does not exist".to_owned()))),
            Some(path) => if replies.len() == 0 {
                Next::Ask(Request::LoadFile(path))
            } else {
                self.after_status(replies)
            },
        }
    }

    /// What `do_file` asks and returns: the load as in `load_file` and, once
    /// the chunk has loaded, a protected call of it without arguments, every
    /// result kept. A chunk that did not load is never called.
    pub open spec fn do_file_script<'a>(file: Option<&'a str>, replies: Seq<Reply>) -> Next<
        CallView<'a>,
        Outcome,
    > {
        match Self::load_file_script(file, replies) {
            Next::Done(Ok(())) => protected(
                Request::PCall(0, LUA_MULTIRET, 0),
                replies.subrange(1, replies.len() as int),
            ),
            loading => loading,
        }
    }

    /// Loads the chunk in a file and runs it.
    pub fn do_file<'a>(&mut self, file: Option<&'a str>, replies: &[Reply]) -> (next: Next<
        Call<'a>,
        Result<(), (ThreadStatus, String)>,
    >)
        ensures
            next.shown(|outcome: Result<(), (ThreadStatus, String)>| outcome_view(outcome))
                == Self::do_file_script(file, replies@),
            *final(self) == *old(self),
    {
        match self.load_file(file, replies) {
            Next::Done(Ok(())) => self.pcall(
                0,
                LUA_MULTIRET,
                0,
                slice_subrange(replies, 1, replies.len()),
            ),
            loading => loading,
        }
    }
}

/// A path that names no file is answered with `FileError` before anything
/// is asked of the interpreter: whatever replies are held against them,
/// `load_file` and `do_file` are over at once and make no request.
pub proof fn missing_file_is_never_loaded(replies: Seq<Reply>)
    ensures
        State::load_file_script(None, replies) == Next::<CallView, Outcome>::Done(
            Err((ThreadStatus::FileError, "Path does not exist"@)),
        ),
        State::do_file_script(None, replies) == State::load_file_script(None, replies),
{
}

/// A chunk that does not load is never called: `do_string` asks for the
/// load alone and returns its status.
pub proof fn unloaded_chunk_is_never_run(s: &str, code: c_int, rest: Seq<Reply>)
    requires
        code != 0,
    ensures
        load_and_run(Request::LoadString(s), seq![Reply::Int(code)] + rest) == Next::<
            CallView,
            c_int,
        >::Done(code),
{
}

} // verus!
