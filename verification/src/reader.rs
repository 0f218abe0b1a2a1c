//! Reading a line: one session, or as many as it takes to get a line that
//! is not empty.
//!
//! Like a session, a reader is a machine that a driver steps. It runs a
//! session, and where it insists on a non-empty line and an empty one was
//! submitted, it asks the driver to notify the user and runs the next
//! session from an empty buffer. Cancellation and failure end it at once.

use crate::editor::{EditResult, Outcome, RedrawInstruction};
use crate::session::{Request, Response, Session, SessionError, SessionModel, Step, StepModel};
use vstd::prelude::*;

verus! {

/// What the user is told when an empty line is turned down.
pub const EMPTY_NOTICE: &'static str = "Input cannot be empty. Please try again.";

/// Why no line was read.
#[derive(Clone, Copy, Debug, PartialEq, Eq)]
pub enum ReadError<E> {
    /// The user interrupted the session.
    Cancelled,
    /// The session failed.
    Failed(SessionError<E>),
}

/// What a reader reports in the end, as a mathematical value.
pub type Reading<E> = Result<Seq<char>, ReadError<E>>;

/// A reader as a mathematical value.
pub struct ReaderModel<E> {
    /// The prompt of every session.
    pub prompt: Seq<char>,
    /// Whether an empty line is turned down.
    pub non_empty: bool,
    /// Whether `Notify` is pending. Otherwise the pending request is that of
    /// the session.
    pub notifying: bool,
    /// The session in progress; while `Notify` is pending, the next one.
    pub session: SessionModel<E>,
}

/// One step of a reader, as a mathematical value.
pub enum ReaderStepModel<E> {
    /// The reader goes on in this state, and this request is pending.
    Continue(ReaderModel<E>, Request),
    /// The reader is done.
    Finished(Reading<E>),
}

impl<E> ReaderModel<E> {
    /// A fresh reader, with the `EnterRawMode` of its first session pending.
    pub open spec fn start(prompt: Seq<char>, non_empty: bool) -> ReaderModel<E> {
        ReaderModel { prompt, non_empty, notifying: false, session: SessionModel::start(prompt) }
    }

    /// The request whose reply the reader waits for.
    pub open spec fn pending(self) -> Request {
        if self.notifying {
            Request::Notify
        } else {
            self.session.pending()
        }
    }

    /// What the reader makes of the verdict of a session.
    pub open spec fn conclude(self, verdict: Result<Outcome, SessionError<E>>) -> ReaderStepModel<E> {
        match verdict {
            Ok(Outcome::Submitted(text)) => if self.non_empty && text.len() == 0 {
                ReaderStepModel::Continue(
                    ReaderModel {
                        notifying: true,
                        session: SessionModel::start(self.prompt),
                        ..self
                    },
                    Request::Notify,
                )
            } else {
                ReaderStepModel::Finished(Ok(text))
            },
            Ok(Outcome::Cancelled) => ReaderStepModel::Finished(Err(ReadError::Cancelled)),
            Err(e) => ReaderStepModel::Finished(Err(ReadError::Failed(e))),
        }
    }

    /// The step that the reader takes on the reply to its pending request.
    pub open spec fn step(self, reply: Response<E>) -> ReaderStepModel<E> {
        if self.notifying {
            match reply {
                Response::Failed(e) => ReaderStepModel::Finished(
                    Err(ReadError::Failed(SessionError::Io(e))),
                ),
                _ => ReaderStepModel::Continue(
                    ReaderModel { notifying: false, ..self },
                    self.session.pending(),
                ),
            }
        } else {
            match self.session.step(reply) {
                StepModel::Continue(session, request) => ReaderStepModel::Continue(
                    ReaderModel { session, ..self },
                    request,
                ),
                StepModel::Finished(verdict) => self.conclude(verdict),
            }
        }
    }
}

/// The value of what a reader reports.
pub open spec fn reading_view<E>(reading: Result<String, ReadError<E>>) -> Reading<E> {
    match reading {
        Ok(text) => Ok(text@),
        Err(e) => Err(e),
    }
}

/// A reader in progress.
#[derive(Debug)]
pub struct LineReader<E> {
    prompt: String,
    non_empty: bool,
    notifying: bool,
    session: Session<E>,
}

impl<E> View for LineReader<E> {
    type V = ReaderModel<E>;

    closed spec fn view(&self) -> ReaderModel<E> {
        ReaderModel {
            prompt: self.prompt@,
            non_empty: self.non_empty,
            notifying: self.notifying,
            session: self.session@,
        }
    }
}

/// One step of a reader: either the reader with its next request, or what
/// it has read.
#[derive(Debug)]
pub enum ReaderStep<E> {
    Continue(LineReader<E>, Request),
    Finished(Result<String, ReadError<E>>),
}

impl<E> View for ReaderStep<E> {
    type V = ReaderStepModel<E>;

    open spec fn view(&self) -> ReaderStepModel<E> {
        match self {
            ReaderStep::Continue(reader, request) => ReaderStepModel::Continue(reader@, *request),
            ReaderStep::Finished(reading) => ReaderStepModel::Finished(reading_view(*reading)),
        }
    }
}

impl<E> LineReader<E> {
    /// A reader that accepts whatever line is submitted.
    pub fn free_form(prompt: &str) -> (reader: LineReader<E>)
        ensures
            reader@ == ReaderModel::<E>::start(prompt@, false),
    {
        LineReader {
            prompt: prompt.to_owned(),
            non_empty: false,
            notifying: false,
            session: Session::new(prompt),
        }
    }

    /// A reader that turns an empty line down and asks again.
    pub fn non_empty(prompt: &str) -> (reader: LineReader<E>)
        ensures
            reader@ == ReaderModel::<E>::start(prompt@, true),
    {
        LineReader {
            prompt: prompt.to_owned(),
            non_empty: true,
            notifying: false,
            session: Session::new(prompt),
        }
    }

    /// The request whose reply the reader waits for.
    pub fn pending(&self) -> (request: Request)
        ensures
            request == self@.pending(),
    {
        if self.notifying {
            Request::Notify
        } else {
            self.session.pending()
        }
    }

    /// The prompt, for a `ShowPrompt` request.
    pub fn prompt(&self) -> (prompt: &str)
        ensures
            prompt@ == self@.prompt,
    {
        self.prompt.as_str()
    }

    /// What to show, for a `Redraw` request.
    pub fn redraw(&self) -> (instruction: RedrawInstruction)
        ensures
            instruction@ == self@.session.line.display(),
    {
        self.session.redraw()
    }

    /// Takes the reply to the pending request and says what comes next.
    pub fn step(self, reply: Response<E>) -> (next: ReaderStep<E>)
        ensures
            next@ == self@.step(reply),
    {
        let LineReader { prompt, non_empty, notifying, session } = self;
        if notifying {
            match reply {
                Response::Failed(e) => ReaderStep::Finished(
                    Err(ReadError::Failed(SessionError::Io(e))),
                ),
                _ => {
                    let request = session.pending();
                    ReaderStep::Continue(
                        LineReader { prompt, non_empty, notifying: false, session },
                        request,
                    )
                },
            }
        } else {
            match session.step(reply) {
                Step::Continue(session, request) => ReaderStep::Continue(
                    LineReader { prompt, non_empty, notifying, session },
                    request,
                ),
                Step::Finished(Ok(EditResult::Submitted(text))) => {
                    if non_empty && text.as_str().is_empty() {
                        let session = Session::new(prompt.as_str());
                        ReaderStep::Continue(
                            LineReader { prompt, non_empty, notifying: true, session },
                            Request::Notify,
                        )
                    } else {
                        ReaderStep::Finished(Ok(text))
                    }
                },
                Step::Finished(Ok(EditResult::Cancelled)) => ReaderStep::Finished(
                    Err(ReadError::Cancelled),
                ),
                Step::Finished(Err(e)) => ReaderStep::Finished(Err(ReadError::Failed(e))),
            }
        }
    }
}

} // verus!
