//! Sessions and readers run against a scripted terminal.
//!
//! A scripted terminal performs nothing: it answers each request with the
//! next reply of a script and keeps a log of what it was asked. With it a
//! whole session can be run, and inspected, without a terminal.

use crate::editor::EditResult;
use crate::reader::{reading_view, LineReader, ReadError, ReaderModel, ReaderStep, ReaderStepModel, Reading};
use crate::session::{
    verdict_view, Request, Response, Session, SessionError, SessionModel, Step, StepModel, Verdict,
};
use std::collections::VecDeque;
use vstd::prelude::*;

verus! {

/// What running a machine against a script amounts to.
pub struct Run<T> {
    /// The requests made after the first one, in order.
    pub requests: Seq<Request>,
    /// How many replies of the script were taken.
    pub consumed: nat,
    /// What the machine reported; `None` where the script ended first.
    pub result: Option<T>,
}

/// The run of a session, from the given state, against the given replies.
pub open spec fn session_run<E>(session: SessionModel<E>, replies: Seq<Response<E>>) -> Run<
    Verdict<E>,
>
    decreases replies.len(),
{
    if replies.len() == 0 {
        Run { requests: Seq::empty(), consumed: 0, result: None }
    } else {
        match session.step(replies[0]) {
            StepModel::Finished(verdict) => Run {
                requests: Seq::empty(),
                consumed: 1,
                result: Some(verdict),
            },
            StepModel::Continue(next, request) => {
                let rest = session_run(next, replies.drop_first());
                Run {
                    requests: seq![request] + rest.requests,
                    consumed: rest.consumed + 1,
                    result: rest.result,
                }
            },
        }
    }
}

/// The run of a reader, from the given state, against the given replies.
pub open spec fn reader_run<E>(reader: ReaderModel<E>, replies: Seq<Response<E>>) -> Run<
    Reading<E>,
>
    decreases replies.len(),
{
    if replies.len() == 0 {
        Run { requests: Seq::empty(), consumed: 0, result: None }
    } else {
        match reader.step(replies[0]) {
            ReaderStepModel::Finished(reading) => Run {
                requests: Seq::empty(),
                consumed: 1,
                result: Some(reading),
            },
            ReaderStepModel::Continue(next, request) => {
                let rest = reader_run(next, replies.drop_first());
                Run {
                    requests: seq![request] + rest.requests,
                    consumed: rest.consumed + 1,
                    result: rest.result,
                }
            },
        }
    }
}

/// The value of what a scripted session hands back.
pub open spec fn scripted_verdict<E>(verdict: Option<Result<EditResult, SessionError<E>>>) -> Option<
    Verdict<E>,
> {
    match verdict {
        Some(v) => Some(verdict_view(v)),
        None => None,
    }
}

/// The value of what a scripted reader hands back.
pub open spec fn scripted_reading<E>(reading: Option<Result<String, ReadError<E>>>) -> Option<
    Reading<E>,
> {
    match reading {
        Some(r) => Some(reading_view(r)),
        None => None,
    }
}

/// A terminal that replays a script.
#[derive(Debug)]
pub struct ScriptedTerminal<E> {
    /// The replies still to be given, in order.
    pub replies: VecDeque<Response<E>>,
    /// The requests made so far, in order.
    pub requests: Vec<Request>,
}

impl<E> ScriptedTerminal<E> {
    /// A terminal that will give the replies of `script`, in order.
    pub fn new(script: Vec<Response<E>>) -> (terminal: ScriptedTerminal<E>)
        ensures
            terminal.replies@ == script@,
            terminal.requests@ == Seq::<Request>::empty(),
    {
        let mut replies: VecDeque<Response<E>> = VecDeque::new();
        for reply in it: script
            invariant
                replies@ == it.seq().subrange(0, it.index() as int),
        {
            replies.push_back(reply);
        }
        ScriptedTerminal { replies, requests: Vec::new() }
    }
}

/// Runs one session on the scripted terminal.
///
/// The result is `None` where the script ends before the session does.
pub fn run_session<E>(prompt: &str, terminal: &mut ScriptedTerminal<E>) -> (verdict: Option<
    Result<EditResult, SessionError<E>>,
>)
    ensures
        ({
            let run = session_run(SessionModel::<E>::start(prompt@), old(terminal).replies@);
            &&& scripted_verdict(verdict) == run.result
            &&& final(terminal).requests@ == old(terminal).requests@.push(Request::EnterRawMode)
                + run.requests
            &&& final(terminal).replies@ == old(terminal).replies@.skip(run.consumed as int)
        }),
{
    let mut session: Session<E> = Session::new(prompt);
    terminal.requests.push(session.pending());
    let ghost start = session@;
    let ghost script = terminal.replies@;
    let ghost asked = terminal.requests@;
    let ghost mut consumed: nat = 0;
    assert(script.skip(0) == script);
    loop
        invariant
            start == SessionModel::<E>::start(prompt@),
            script == old(terminal).replies@,
            asked == old(terminal).requests@.push(Request::EnterRawMode),
            consumed <= script.len(),
            terminal.replies@ == script.skip(consumed as int),
            session_run(start, script).result == session_run(session@, terminal.replies@).result,
            session_run(start, script).consumed == consumed + session_run(
                session@,
                terminal.replies@,
            ).consumed,
            asked + session_run(start, script).requests == terminal.requests@ + session_run(
                session@,
                terminal.replies@,
            ).requests,
        decreases terminal.replies@.len(),
    {
        let ghost before = terminal.replies@;
        let ghost state = session@;
        let ghost log = terminal.requests@;
        match terminal.replies.pop_front() {
            None => {
                assert(script.skip(consumed as int + 0) == script.skip(consumed as int));
                return None;
            },
            Some(reply) => {
                assert(terminal.replies@ == before.drop_first());
                assert(script.skip(consumed as int).skip(1) == script.skip(consumed as int + 1));
                match session.step(reply) {
                    Step::Finished(verdict) => {
                        return Some(verdict);
                    },
                    Step::Continue(next, request) => {
                        terminal.requests.push(request);
                        session = next;
                        proof {
                            let rest = session_run(session@, terminal.replies@);
                            assert(log + (seq![request] + rest.requests) == log.push(request)
                                + rest.requests);
                            consumed = consumed + 1;
                        }
                    },
                }
            },
        }
    }
}

/// Runs a reader on the scripted terminal until it is done or the script
/// ends.
fn run_reader<E>(reader: LineReader<E>, terminal: &mut ScriptedTerminal<E>) -> (reading: Option<
    Result<String, ReadError<E>>,
>)
    ensures
        ({
            let run = reader_run(reader@, old(terminal).replies@);
            &&& scripted_reading(reading) == run.result
            &&& final(terminal).requests@ == old(terminal).requests@.push(reader@.pending())
                + run.requests
            &&& final(terminal).replies@ == old(terminal).replies@.skip(run.consumed as int)
        }),
{
    let ghost start = reader@;
    let mut current = reader;
    terminal.requests.push(current.pending());
    let ghost script = terminal.replies@;
    let ghost asked = terminal.requests@;
    let ghost mut consumed: nat = 0;
    assert(script.skip(0) == script);
    loop
        invariant
            start == reader@,
            script == old(terminal).replies@,
            asked == old(terminal).requests@.push(start.pending()),
            consumed <= script.len(),
            terminal.replies@ == script.skip(consumed as int),
            reader_run(start, script).result == reader_run(current@, terminal.replies@).result,
            reader_run(start, script).consumed == consumed + reader_run(
                current@,
                terminal.replies@,
            ).consumed,
            asked + reader_run(start, script).requests == terminal.requests@ + reader_run(
                current@,
                terminal.replies@,
            ).requests,
        decreases terminal.replies@.len(),
    {
        let ghost before = terminal.replies@;
        let ghost log = terminal.requests@;
        match terminal.replies.pop_front() {
            None => {
                assert(script.skip(consumed as int + 0) == script.skip(consumed as int));
                return None;
            },
            Some(reply) => {
                assert(terminal.replies@ == before.drop_first());
                assert(script.skip(consumed as int).skip(1) == script.skip(consumed as int + 1));
                match current.step(reply) {
                    ReaderStep::Finished(reading) => {
                        return Some(reading);
                    },
                    ReaderStep::Continue(next, request) => {
                        terminal.requests.push(request);
                        current = next;
                        proof {
                            let rest = reader_run(current@, terminal.replies@);
                            assert(log + (seq![request] + rest.requests) == log.push(request)
                                + rest.requests);
                            consumed = consumed + 1;
                        }
                    },
                }
            },
        }
    }
}

/// Reads a line on the scripted terminal: one session, whose submitted
/// line is accepted as it is.
///
/// The result is `None` where the script ends before the session does.
pub fn read_line<E>(prompt: &str, terminal: &mut ScriptedTerminal<E>) -> (reading: Option<
    Result<String, ReadError<E>>,
>)
    ensures
        ({
            let run = reader_run(ReaderModel::<E>::start(prompt@, false), old(terminal).replies@);
            &&& scripted_reading(reading) == run.result
            &&& final(terminal).requests@ == old(terminal).requests@.push(Request::EnterRawMode)
                + run.requests
            &&& final(terminal).replies@ == old(terminal).replies@.skip(run.consumed as int)
        }),
{
    run_reader(LineReader::free_form(prompt), terminal)
}

/// Reads a non-empty line on the scripted terminal: sessions are run, each
/// from an empty buffer, until one is not ended by submitting an empty line.
///
/// The result is `None` where the script ends before the reader is done.
pub fn read_non_empty_line<E>(prompt: &str, terminal: &mut ScriptedTerminal<E>) -> (reading:
    Option<Result<String, ReadError<E>>>)
    ensures
        ({
            let run = reader_run(ReaderModel::<E>::start(prompt@, true), old(terminal).replies@);
            &&& scripted_reading(reading) == run.result
            &&& final(terminal).requests@ == old(terminal).requests@.push(Request::EnterRawMode)
                + run.requests
            &&& final(terminal).replies@ == old(terminal).replies@.skip(run.consumed as int)
        }),
{
    run_reader(LineReader::non_empty(prompt), terminal)
}

} // verus!
