//! What holds of every line, every session and every reader.

use crate::editor::{Line, Outcome};
use crate::key::KeyEvent;
use crate::reader::{ReadError, ReaderModel, ReaderStepModel, Reading};
use crate::script::{reader_run, session_run};
use crate::session::{Phase, Request, Response, SessionModel, StepModel, Verdict};
use vstd::prelude::*;

verus! {

/// No transition moves the cursor out of the buffer.
pub proof fn cursor_stays_in_buffer(line: Line, key: KeyEvent)
    requires
        line.wf(),
    ensures
        line.after(key).wf(),
{
}

/// Every line that key events can lead to has its cursor in the buffer:
/// the line at the start of a session has, and so has every line reached
/// from a line that has.
pub proof fn reachable_lines_are_well_formed(line: Line, keys: Seq<KeyEvent>)
    requires
        line.wf(),
    ensures
        Line::start(line.prompt).wf(),
        line.after_all(keys).wf(),
    decreases keys.len(),
{
    if keys.len() > 0 && line.outcome(keys[0]) is None {
        cursor_stays_in_buffer(line, keys[0]);
        reachable_lines_are_well_formed(line.after(keys[0]), keys.drop_first());
    }
}

/// `Home` twice is `Home` once, on any line.
pub proof fn home_is_idempotent(line: Line)
    ensures
        line.after(KeyEvent::Home).after(KeyEvent::Home) == line.after(KeyEvent::Home),
        line.outcome(KeyEvent::Home) is None,
{
}

/// `End` twice is `End` once, on any line.
pub proof fn end_is_idempotent(line: Line)
    ensures
        line.after(KeyEvent::End).after(KeyEvent::End) == line.after(KeyEvent::End),
        line.outcome(KeyEvent::End) is None,
{
}

/// `Backspace` with the cursor at the start changes nothing and ends
/// nothing.
pub proof fn backspace_at_start_is_noop(line: Line)
    requires
        line.cursor == 0,
    ensures
        line.after(KeyEvent::Backspace) == line,
        line.outcome(KeyEvent::Backspace) is None,
{
}

/// `Delete` with the cursor behind the last character changes nothing and
/// ends nothing.
pub proof fn delete_at_end_is_noop(line: Line)
    requires
        line.cursor == line.buffer.len(),
    ensures
        line.after(KeyEvent::Delete) == line,
        line.outcome(KeyEvent::Delete) is None,
{
}

/// `Enter` submits the buffer as it stands and `Interrupt` cancels without
/// handing anything on; neither changes the line, and no other key ends
/// the session.
pub proof fn only_enter_and_interrupt_end(line: Line, key: KeyEvent)
    ensures
        line.outcome(KeyEvent::Enter) == Some(Outcome::Submitted(line.buffer)),
        line.outcome(KeyEvent::Interrupt) == Some(Outcome::Cancelled),
        line.outcome(key) is Some ==> line.after(key) == line,
        line.outcome(key) is Some <==> key == KeyEvent::Enter || key == KeyEvent::Interrupt,
{
}

/// Whether `keys` are the key events that type the characters of `text`,
/// in order.
pub open spec fn types(keys: Seq<KeyEvent>, text: Seq<char>) -> bool {
    &&& keys.len() == text.len()
    &&& forall|i: int| 0 <= i < keys.len() ==> keys[i] == KeyEvent::Char(#[trigger] text[i])
}

/// Typing `text` with the cursor at the end of the buffer appends it, and
/// leaves the cursor at the end.
pub proof fn typing_appends(line: Line, keys: Seq<KeyEvent>, text: Seq<char>)
    requires
        line.cursor == line.buffer.len(),
        types(keys, text),
    ensures
        line.after_all(keys) == (Line {
            buffer: line.buffer + text,
            cursor: (line.buffer.len() + text.len()) as int,
            ..line
        }),
        line.outcome_of_all(keys) is None,
    decreases keys.len(),
{
    if keys.len() == 0 {
        assert(line.buffer + text == line.buffer);
    } else {
        let next = line.after(keys[0]);
        assert(keys[0] == KeyEvent::Char(text[0]));
        assert(next.buffer == line.buffer.push(text[0]));
        assert(types(keys.drop_first(), text.drop_first())) by {
            assert forall|i: int| 0 <= i < keys.len() - 1 implies keys.drop_first()[i]
                == KeyEvent::Char(#[trigger] text.drop_first()[i]) by {
                assert(text.drop_first()[i] == text[i + 1]);
            }
        }
        typing_appends(next, keys.drop_first(), text.drop_first());
        assert(next.buffer + text.drop_first() == line.buffer + text);
    }
}

/// Typing `text` into a fresh line and pressing `Enter` submits `text`.
pub proof fn typed_text_is_submitted(prompt: Seq<char>, keys: Seq<KeyEvent>, text: Seq<char>)
    requires
        types(keys, text),
    ensures
        Line::start(prompt).outcome_of_all(keys) is None,
        Line::start(prompt).after_all(keys).outcome(KeyEvent::Enter) == Some(
            Outcome::Submitted(text),
        ),
{
    typing_appends(Line::start(prompt), keys, text);
    assert(Seq::<char>::empty() + text == text);
}

/// How often `wanted` occurs among `requests`.
pub open spec fn occurrences(requests: Seq<Request>, wanted: Request) -> nat
    decreases requests.len(),
{
    if requests.len() == 0 {
        0
    } else {
        let here: nat = if requests[0] == wanted { 1 } else { 0 };
        here + occurrences(requests.drop_first(), wanted)
    }
}

/// How many `RestoreMode` requests a session in the given state still owes
/// before it may report, given the replies that it will get.
pub open spec fn restores_owed<E>(session: SessionModel<E>, replies: Seq<Response<E>>) -> nat {
    match session.phase {
        Phase::Entering => if replies.len() > 0 && replies[0] is Failed { 0 } else { 1 },
        Phase::Prompting | Phase::Reading | Phase::Drawing => 1,
        Phase::Restoring(_) | Phase::Ending { .. } => 0,
    }
}

/// A session that reports has asked for cooked mode as often as it owed:
/// once if raw mode was entered and the request is not yet made, never
/// otherwise.
pub proof fn session_pays_its_restores<E>(session: SessionModel<E>, replies: Seq<Response<E>>)
    ensures
        session_run(session, replies).result is Some ==> occurrences(
            session_run(session, replies).requests,
            Request::RestoreMode,
        ) == restores_owed(session, replies),
    decreases replies.len(),
{
    if replies.len() > 0 {
        match session.step(replies[0]) {
            StepModel::Finished(_) => {},
            StepModel::Continue(next, request) => {
                let rest = session_run(next, replies.drop_first());
                session_pays_its_restores(next, replies.drop_first());
                assert((seq![request] + rest.requests).drop_first() == rest.requests);
            },
        }
    }
}

/// The resource guarantee. Whatever the terminal replies, and wherever a
/// request fails, a session that reports a verdict has asked to restore
/// cooked mode exactly once before, if entering raw mode did not fail, and
/// never if it did.
pub proof fn restore_is_requested_exactly_once<E>(prompt: Seq<char>, replies: Seq<Response<E>>)
    requires
        session_run(SessionModel::<E>::start(prompt), replies).result is Some,
    ensures
        replies.len() > 0,
        occurrences(
            session_run(SessionModel::<E>::start(prompt), replies).requests,
            Request::RestoreMode,
        ) == if replies[0] is Failed { 0nat } else { 1nat },
{
    session_pays_its_restores(SessionModel::<E>::start(prompt), replies);
}

/// Once cooked mode is asked for, a session asks for nothing but the end of
/// the display line.
pub proof fn closing_session_only_ends_line<E>(session: SessionModel<E>, replies: Seq<Response<E>>)
    requires
        session.phase is Restoring || session.phase is Ending,
    ensures
        forall|i: int|
            0 <= i < session_run(session, replies).requests.len() ==> session_run(
                session,
                replies,
            ).requests[i] == Request::EndLine,
    decreases replies.len(),
{
    if replies.len() > 0 {
        match session.step(replies[0]) {
            StepModel::Finished(_) => {},
            StepModel::Continue(next, request) => {
                closing_session_only_ends_line(next, replies.drop_first());
            },
        }
    }
}

/// Nothing that needs raw mode is asked for after `RestoreMode`: in every
/// run of a session, whatever follows that request is `EndLine`. Raw mode
/// is never entered a second time, and the user is never notified.
pub proof fn nothing_edits_after_restore<E>(session: SessionModel<E>, replies: Seq<Response<E>>)
    ensures
        forall|i: int, j: int|
            0 <= i < j < session_run(session, replies).requests.len() && session_run(
                session,
                replies,
            ).requests[i] == Request::RestoreMode ==> session_run(session, replies).requests[j]
                == Request::EndLine,
        forall|i: int|
            0 <= i < session_run(session, replies).requests.len() ==> {
                &&& session_run(session, replies).requests[i] != Request::EnterRawMode
                &&& session_run(session, replies).requests[i] != Request::Notify
            },
    decreases replies.len(),
{
    if replies.len() > 0 {
        match session.step(replies[0]) {
            StepModel::Finished(_) => {},
            StepModel::Continue(next, request) => {
                nothing_edits_after_restore(next, replies.drop_first());
                if request == Request::RestoreMode {
                    closing_session_only_ends_line(next, replies.drop_first());
                }
            },
        }
    }
}

/// The line that a session edits always has its cursor in the buffer.
pub proof fn session_keeps_cursor_in_buffer<E>(session: SessionModel<E>, reply: Response<E>)
    requires
        session.line.wf(),
    ensures
        SessionModel::<E>::start(session.line.prompt).line.wf(),
        session.step(reply) matches StepModel::Continue(next, _) ==> next.line.wf(),
{
}

/// What a reader that takes any line makes of the verdict of its session.
pub open spec fn reading_of<E>(verdict: Verdict<E>) -> Reading<E> {
    match verdict {
        Ok(Outcome::Submitted(text)) => Ok(text),
        Ok(Outcome::Cancelled) => Err(ReadError::Cancelled),
        Err(e) => Err(ReadError::Failed(e)),
    }
}

/// A reader that takes any line is one session: it makes the same requests
/// and takes the same replies, and reports what the session reports.
pub proof fn free_form_reader_is_one_session<E>(reader: ReaderModel<E>, replies: Seq<Response<E>>)
    requires
        !reader.non_empty,
        !reader.notifying,
    ensures
        reader_run(reader, replies).requests == session_run(reader.session, replies).requests,
        reader_run(reader, replies).consumed == session_run(reader.session, replies).consumed,
        reader_run(reader, replies).result == match session_run(reader.session, replies).result {
            Some(verdict) => Some(reading_of(verdict)),
            None => None,
        },
    decreases replies.len(),
{
    if replies.len() > 0 {
        match reader.step(replies[0]) {
            ReaderStepModel::Finished(_) => {},
            ReaderStepModel::Continue(next, _) => {
                free_form_reader_is_one_session(next, replies.drop_first());
            },
        }
    }
}

/// A reader that insists on a non-empty line never reports an empty one.
pub proof fn non_empty_reader_reports_no_empty_line<E>(
    reader: ReaderModel<E>,
    replies: Seq<Response<E>>,
)
    requires
        reader.non_empty,
    ensures
        reader_run(reader, replies).result matches Some(Ok(text)) ==> text.len() > 0,
    decreases replies.len(),
{
    if replies.len() > 0 {
        match reader.step(replies[0]) {
            ReaderStepModel::Finished(_) => {},
            ReaderStepModel::Continue(next, _) => {
                non_empty_reader_reports_no_empty_line(next, replies.drop_first());
            },
        }
    }
}

} // verus!
