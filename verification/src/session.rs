//! The raw-mode session: editing bracketed between entering raw mode and
//! restoring cooked mode.
//!
//! The session performs no input or output. It is a machine that a driver
//! steps: the driver performs the pending [`Request`] on the terminal and
//! reports how it went in a [`Response`]; the machine answers with the next
//! request, or with the result of the session. Whatever the replies are,
//! a session that has entered raw mode asks to restore cooked mode before it
//! reports anything.

use crate::editor::{EditResult, EditorState, Line, Outcome, RedrawInstruction};
use crate::key::KeyEvent;
use vstd::prelude::*;

verus! {

/// What the driver is asked to do on the terminal.
#[derive(Clone, Copy, Debug, PartialEq, Eq, Structural)]
pub enum Request {
    /// Switch the terminal to raw mode.
    EnterRawMode,
    /// Write the prompt.
    ShowPrompt,
    /// Block until something is read from the terminal.
    ReadKey,
    /// Clear the display line, write the text of the redraw instruction and
    /// move the cursor to its column.
    Redraw,
    /// Switch the terminal back to cooked mode.
    RestoreMode,
    /// End the display line.
    EndLine,
    /// Tell the user that an empty line is not accepted. A session never asks
    /// for this; a reader that insists on a non-empty line does, between two
    /// sessions.
    Notify,
}

/// How the pending request went.
#[derive(Clone, Copy, Debug, PartialEq, Eq)]
pub enum Response<E> {
    /// It was performed, and no key came of it.
    Done,
    /// It was performed and delivered this key.
    Key(KeyEvent),
    /// It failed.
    Failed(E),
}

/// Why a session reports no outcome.
#[derive(Clone, Copy, Debug, PartialEq, Eq)]
pub enum SessionError<E> {
    /// A request failed, and the terminal is not left in raw mode: cooked
    /// mode has been restored, or raw mode was never entered.
    Io(E),
    /// Restoring cooked mode failed with `cause`. `earlier` is the failure
    /// that ended the editing, if one did.
    Restore { cause: E, earlier: Option<E> },
}

/// Why a session stopped editing.
#[derive(Clone, Copy, Debug, PartialEq, Eq)]
pub enum Closing<E> {
    /// The line was submitted.
    Submit,
    /// The user interrupted.
    Cancel,
    /// A request failed.
    Fail(E),
}

/// Where a session stands: which request is pending.
#[derive(Clone, Copy, Debug, PartialEq, Eq)]
pub enum Phase<E> {
    /// `EnterRawMode` is pending.
    Entering,
    /// `ShowPrompt` is pending.
    Prompting,
    /// `ReadKey` is pending.
    Reading,
    /// `Redraw` is pending.
    Drawing,
    /// `RestoreMode` is pending, for this reason.
    Restoring(Closing<E>),
    /// `EndLine` is pending, after a line was submitted or given up.
    Ending { submitted: bool },
}

/// A session as a mathematical value.
pub struct SessionModel<E> {
    pub line: Line,
    pub phase: Phase<E>,
}

/// What a session reports in the end, as a mathematical value.
pub type Verdict<E> = Result<Outcome, SessionError<E>>;

/// One step of a session, as a mathematical value.
pub enum StepModel<E> {
    /// The session goes on in this state, and this request is pending.
    Continue(SessionModel<E>, Request),
    /// The session is over.
    Finished(Verdict<E>),
}

impl<E> SessionModel<E> {
    /// A fresh session: nothing typed, and `EnterRawMode` pending.
    pub open spec fn start(prompt: Seq<char>) -> SessionModel<E> {
        SessionModel { line: Line::start(prompt), phase: Phase::Entering }
    }

    /// The request whose reply the session waits for.
    pub open spec fn pending(self) -> Request {
        match self.phase {
            Phase::Entering => Request::EnterRawMode,
            Phase::Prompting => Request::ShowPrompt,
            Phase::Reading => Request::ReadKey,
            Phase::Drawing => Request::Redraw,
            Phase::Restoring(_) => Request::RestoreMode,
            Phase::Ending { .. } => Request::EndLine,
        }
    }

    /// Whether the terminal is in raw mode on account of this session.
    pub open spec fn holds_raw_mode(self) -> bool {
        match self.phase {
            Phase::Prompting | Phase::Reading | Phase::Drawing | Phase::Restoring(_) => true,
            Phase::Entering | Phase::Ending { .. } => false,
        }
    }

    /// The session stops editing for the given reason and asks for cooked
    /// mode.
    pub open spec fn close(self, closing: Closing<E>) -> StepModel<E> {
        StepModel::Continue(
            SessionModel { phase: Phase::Restoring(closing), ..self },
            Request::RestoreMode,
        )
    }

    /// The session goes on to read the next key.
    pub open spec fn read_on(self) -> StepModel<E> {
        StepModel::Continue(SessionModel { phase: Phase::Reading, ..self }, Request::ReadKey)
    }

    /// The step that the session takes on the reply to its pending request.
    ///
    /// A reply other than `Failed` says that the request was performed. A key
    /// is consumed only when one was asked for; when one was asked for and
    /// none came, the session asks again.
    pub open spec fn step(self, reply: Response<E>) -> StepModel<E> {
        match self.phase {
            Phase::Entering => match reply {
                Response::Failed(e) => StepModel::Finished(Err(SessionError::Io(e))),
                _ => StepModel::Continue(
                    SessionModel { phase: Phase::Prompting, ..self },
                    Request::ShowPrompt,
                ),
            },
            Phase::Prompting | Phase::Drawing => match reply {
                Response::Failed(e) => self.close(Closing::Fail(e)),
                _ => self.read_on(),
            },
            Phase::Reading => match reply {
                Response::Failed(e) => self.close(Closing::Fail(e)),
                Response::Done => self.read_on(),
                Response::Key(key) => match self.line.outcome(key) {
                    Some(Outcome::Submitted(_)) => self.close(Closing::Submit),
                    Some(Outcome::Cancelled) => self.close(Closing::Cancel),
                    None => StepModel::Continue(
                        SessionModel { line: self.line.after(key), phase: Phase::Drawing },
                        Request::Redraw,
                    ),
                },
            },
            Phase::Restoring(closing) => match reply {
                Response::Failed(cause) => StepModel::Finished(
                    Err(
                        SessionError::Restore {
                            cause,
                            earlier: match closing {
                                Closing::Fail(e) => Some(e),
                                _ => None,
                            },
                        },
                    ),
                ),
                _ => match closing {
                    Closing::Fail(e) => StepModel::Finished(Err(SessionError::Io(e))),
                    Closing::Submit => StepModel::Continue(
                        SessionModel { phase: Phase::Ending { submitted: true }, ..self },
                        Request::EndLine,
                    ),
                    Closing::Cancel => StepModel::Continue(
                        SessionModel { phase: Phase::Ending { submitted: false }, ..self },
                        Request::EndLine,
                    ),
                },
            },
            Phase::Ending { submitted } => match reply {
                Response::Failed(e) => StepModel::Finished(Err(SessionError::Io(e))),
                _ => StepModel::Finished(
                    Ok(
                        if submitted {
                            Outcome::Submitted(self.line.buffer)
                        } else {
                            Outcome::Cancelled
                        },
                    ),
                ),
            },
        }
    }
}

/// The value of what a session reports.
pub open spec fn verdict_view<E>(verdict: Result<EditResult, SessionError<E>>) -> Verdict<E> {
    match verdict {
        Ok(result) => Ok(result@),
        Err(e) => Err(e),
    }
}

/// A session in progress.
#[derive(Debug)]
pub struct Session<E> {
    editor: EditorState,
    phase: Phase<E>,
}

impl<E> View for Session<E> {
    type V = SessionModel<E>;

    closed spec fn view(&self) -> SessionModel<E> {
        SessionModel { line: self.editor@, phase: self.phase }
    }
}

/// One step of a session: either the session with its next request, or its
/// result.
#[derive(Debug)]
pub enum Step<E> {
    Continue(Session<E>, Request),
    Finished(Result<EditResult, SessionError<E>>),
}

impl<E> View for Step<E> {
    type V = StepModel<E>;

    open spec fn view(&self) -> StepModel<E> {
        match self {
            Step::Continue(session, request) => StepModel::Continue(session@, *request),
            Step::Finished(verdict) => StepModel::Finished(verdict_view(*verdict)),
        }
    }
}

impl<E> Session<E> {
    /// A fresh session for the given prompt. Its pending request is
    /// `EnterRawMode`.
    pub fn new(prompt: &str) -> (session: Session<E>)
        ensures
            session@ == SessionModel::<E>::start(prompt@),
    {
        Session { editor: EditorState::new(prompt), phase: Phase::Entering }
    }

    /// The request whose reply the session waits for.
    pub fn pending(&self) -> (request: Request)
        ensures
            request == self@.pending(),
    {
        match self.phase {
            Phase::Entering => Request::EnterRawMode,
            Phase::Prompting => Request::ShowPrompt,
            Phase::Reading => Request::ReadKey,
            Phase::Drawing => Request::Redraw,
            Phase::Restoring(_) => Request::RestoreMode,
            Phase::Ending { .. } => Request::EndLine,
        }
    }

    /// The prompt, for a `ShowPrompt` request.
    pub fn prompt(&self) -> (prompt: &str)
        ensures
            prompt@ == self@.line.prompt,
    {
        self.editor.prompt()
    }

    /// What to show, for a `Redraw` request.
    pub fn redraw(&self) -> (instruction: RedrawInstruction)
        ensures
            instruction@ == self@.line.display(),
    {
        self.editor.redraw()
    }

    /// Takes the reply to the pending request and says what comes next.
    pub fn step(self, reply: Response<E>) -> (next: Step<E>)
        ensures
            next@ == self@.step(reply),
    {
        let Session { editor, phase } = self;
        match phase {
            Phase::Entering => match reply {
                Response::Failed(e) => Step::Finished(Err(SessionError::Io(e))),
                _ => Step::Continue(Session { editor, phase: Phase::Prompting }, Request::ShowPrompt),
            },
            Phase::Prompting | Phase::Drawing => match reply {
                Response::Failed(e) => Self::closing(editor, Closing::Fail(e)),
                _ => Step::Continue(Session { editor, phase: Phase::Reading }, Request::ReadKey),
            },
            Phase::Reading => match reply {
                Response::Failed(e) => Self::closing(editor, Closing::Fail(e)),
                Response::Done => Step::Continue(
                    Session { editor, phase: Phase::Reading },
                    Request::ReadKey,
                ),
                Response::Key(key) => {
                    let (editor, outcome) = editor.apply(key);
                    match outcome {
                        Some(EditResult::Submitted(_)) => Self::closing(editor, Closing::Submit),
                        Some(EditResult::Cancelled) => Self::closing(editor, Closing::Cancel),
                        None => Step::Continue(
                            Session { editor, phase: Phase::Drawing },
                            Request::Redraw,
                        ),
                    }
                },
            },
            Phase::Restoring(closing) => match reply {
                Response::Failed(cause) => {
                    let earlier = match closing {
                        Closing::Fail(e) => Some(e),
                        _ => None,
                    };
                    Step::Finished(Err(SessionError::Restore { cause, earlier }))
                },
                _ => match closing {
                    Closing::Fail(e) => Step::Finished(Err(SessionError::Io(e))),
                    Closing::Submit => Step::Continue(
                        Session { editor, phase: Phase::Ending { submitted: true } },
                        Request::EndLine,
                    ),
                    Closing::Cancel => Step::Continue(
                        Session { editor, phase: Phase::Ending { submitted: false } },
                        Request::EndLine,
                    ),
                },
            },
            Phase::Ending { submitted } => match reply {
                Response::Failed(e) => Step::Finished(Err(SessionError::Io(e))),
                _ => if submitted {
                    Step::Finished(Ok(EditResult::Submitted(editor.buffer())))
                } else {
                    Step::Finished(Ok(EditResult::Cancelled))
                },
            },
        }
    }

    fn closing(editor: EditorState, closing: Closing<E>) -> (next: Step<E>)
        ensures
            next@ == (SessionModel { line: editor@, phase: Phase::Reading }).close(closing),
    {
        Step::Continue(Session { editor, phase: Phase::Restoring(closing) }, Request::RestoreMode)
    }
}

} // verus!
