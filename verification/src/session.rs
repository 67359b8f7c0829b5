//! The edit, review and retry cycle as a state machine, and the reading of
//! the user's answers.
//!
//! The driver runs the editor, reads the listing back and asks the user; it
//! hands each outcome to [`step`] and is told what to do next.

use crate::action::{Action, ActionView};
use crate::file::action_views;
use crate::text::{chars_of, trim, trimmed};
use vstd::prelude::*;

verus! {

/// The lower-case form of `s` according to Unicode.
pub uninterp spec fn lowercase(s: Seq<char>) -> Seq<char>;

/// `str::to_lowercase` returns the Unicode lower-case equivalent of the
/// string, which [`lowercase`] stands for. It depends on the string alone.
pub assume_specification[ str::to_lowercase ](s: &str) -> (lower: String)
    ensures
        lower@ == lowercase(s@),
;

/// The user's answer to the question whether to go ahead with the actions.
#[derive(Debug, Copy, Clone, PartialEq, Eq, Structural)]
pub enum InputResult {
    Yes,
    No,
    Edit,
}

/// The user's answer to the question whether to edit again after a listing
/// that could not be read back.
#[derive(Debug, Copy, Clone, PartialEq, Eq, Structural)]
pub enum InputErrorResult {
    Yes,
    No,
}

/// The normal form of what the user typed: trimmed, then in lower case.
pub open spec fn normalized(input: Seq<char>) -> Seq<char> {
    lowercase(trim(input))
}

/// Whether `answer` is the one character `c` and nothing else.
pub open spec fn single(answer: Seq<char>, c: char) -> bool {
    answer.len() == 1 && answer[0] == c
}

/// The answer that the normalized input `answer` gives to the confirmation
/// question: `y`, `n` or `e`; anything else is no answer.
pub open spec fn confirmation_of(answer: Seq<char>) -> Option<InputResult> {
    if single(answer, 'n') {
        Some(InputResult::No)
    } else if single(answer, 'y') {
        Some(InputResult::Yes)
    } else if single(answer, 'e') {
        Some(InputResult::Edit)
    } else {
        None
    }
}

/// The answer that the normalized input `answer` gives to the retry
/// question: `y` or `n`; anything else is no answer.
pub open spec fn retry_of(answer: Seq<char>) -> Option<InputErrorResult> {
    if single(answer, 'n') {
        Some(InputErrorResult::No)
    } else if single(answer, 'y') {
        Some(InputErrorResult::Yes)
    } else {
        None
    }
}

/// Brings what the user typed into its normal form: trimmed, then in lower
/// case.
pub fn normalize_input(input: &str) -> (answer: String)
    ensures
        answer@ == normalized(input@),
{
    trimmed(input).as_str().to_lowercase()
}

/// Reads the answer to the confirmation question out of an input that is in
/// normal form already. `None` means that the question is to be asked again.
pub fn confirmation_from_normalized(answer: &str) -> (result: Option<InputResult>)
    ensures
        result == confirmation_of(answer@),
{
    let chars = chars_of(answer);
    if chars.len() != 1 {
        return None;
    }
    let c = chars[0];
    if c == 'n' {
        Some(InputResult::No)
    } else if c == 'y' {
        Some(InputResult::Yes)
    } else if c == 'e' {
        Some(InputResult::Edit)
    } else {
        None
    }
}

/// Reads the answer to the retry question out of an input that is in normal
/// form already. `None` means that the question is to be asked again.
pub fn retry_from_normalized(answer: &str) -> (result: Option<InputErrorResult>)
    ensures
        result == retry_of(answer@),
{
    let chars = chars_of(answer);
    if chars.len() != 1 {
        return None;
    }
    let c = chars[0];
    if c == 'n' {
        Some(InputErrorResult::No)
    } else if c == 'y' {
        Some(InputErrorResult::Yes)
    } else {
        None
    }
}

/// Reads the answer to the confirmation question out of what the user typed.
/// `None` means that the question is to be asked again.
pub fn read_confirmation(input: &str) -> (result: Option<InputResult>)
    ensures
        result == confirmation_of(normalized(input@)),
{
    let answer = normalize_input(input);
    confirmation_from_normalized(answer.as_str())
}

/// Reads the answer to the retry question out of what the user typed. `None`
/// means that the question is to be asked again.
pub fn read_error_confirmation(input: &str) -> (result: Option<InputErrorResult>)
    ensures
        result == retry_of(normalized(input@)),
{
    let answer = normalize_input(input);
    retry_from_normalized(answer.as_str())
}

/// Where a session stands. Every session begins in [`Session::Editing`].
pub enum Session<'a> {
    /// The editor is to be run on the listing, and the listing read back.
    Editing,
    /// The listing was read back and asks for the actions held, at least
    /// one; the user is to accept them, abort, or edit again.
    Reviewing(Vec<Action<'a>>),
    /// The listing could not be reconciled, for the reason held; the user is
    /// to edit again or abort.
    ParseFailed(&'static str),
    /// The session has ended and the actions held are to be carried out.
    Accepted(Vec<Action<'a>>),
    /// The session has ended and nothing is to be done.
    Aborted,
}

/// What a [`Session`] is to the contracts.
pub enum SessionView {
    Editing,
    Reviewing(Seq<ActionView>),
    ParseFailed(Seq<char>),
    Accepted(Seq<ActionView>),
    Aborted,
}

impl<'a> View for Session<'a> {
    type V = SessionView;

    open spec fn view(&self) -> SessionView {
        match self {
            Session::Editing => SessionView::Editing,
            Session::Reviewing(actions) => SessionView::Reviewing(action_views(actions@)),
            Session::ParseFailed(message) => SessionView::ParseFailed(message@),
            Session::Accepted(actions) => SessionView::Accepted(action_views(actions@)),
            Session::Aborted => SessionView::Aborted,
        }
    }
}

/// What the driver reports back to the session.
pub enum Event<'a> {
    /// The editor has returned and the listing was reconciled: with the
    /// actions asked for, or with the reason why it could not be.
    Edited(Result<Vec<Action<'a>>, &'static str>),
    /// The user has answered the confirmation question.
    Confirmed(InputResult),
    /// The user has answered the retry question.
    RetryAnswered(InputErrorResult),
}

/// What an [`Event`] is to the contracts.
pub enum EventView {
    Edited(Result<Seq<ActionView>, Seq<char>>),
    Confirmed(InputResult),
    RetryAnswered(InputErrorResult),
}

impl<'a> View for Event<'a> {
    type V = EventView;

    open spec fn view(&self) -> EventView {
        match self {
            Event::Edited(Ok(actions)) => EventView::Edited(Ok(action_views(actions@))),
            Event::Edited(Err(message)) => EventView::Edited(Err(message@)),
            Event::Confirmed(answer) => EventView::Confirmed(*answer),
            Event::RetryAnswered(answer) => EventView::RetryAnswered(*answer),
        }
    }
}

/// What the driver is to do next.
#[derive(Debug, Copy, Clone, PartialEq, Eq, Structural)]
pub enum Request {
    /// Run the editor on the listing, read it back, and report
    /// [`Event::Edited`].
    RunEditor,
    /// Show the actions under review, ask whether to go ahead, and report
    /// [`Event::Confirmed`].
    AskConfirmation,
    /// Show why the listing could not be read, ask whether to edit again,
    /// and report [`Event::RetryAnswered`].
    AskRetry,
    /// Stop: the session has ended.
    Finish,
}

/// Whether a session has ended.
pub open spec fn terminal(state: SessionView) -> bool {
    state is Accepted || state is Aborted
}

/// Whether a state is one that a session can be in: a review is always of at
/// least one action.
pub open spec fn well_formed(state: SessionView) -> bool {
    state matches SessionView::Reviewing(actions) ==> actions.len() > 0
}

/// What the driver is to do in `state`.
pub open spec fn request_of(state: SessionView) -> Request {
    match state {
        SessionView::Editing => Request::RunEditor,
        SessionView::Reviewing(_) => Request::AskConfirmation,
        SessionView::ParseFailed(_) => Request::AskRetry,
        SessionView::Accepted(_) => Request::Finish,
        SessionView::Aborted => Request::Finish,
    }
}

/// The state that follows `state` on `event`.
///
/// After editing, a listing that asks for nothing ends the session as
/// accepted with no action, one that asks for actions puts them under
/// review, and one that cannot be reconciled fails the parse. Under review,
/// yes accepts the actions, no aborts, and edit goes back to editing. After
/// a failed parse, yes goes back to editing and no aborts. An event that the
/// state does not wait for leaves the state as it is; so does every event
/// once the session has ended.
pub open spec fn next_state(state: SessionView, event: EventView) -> SessionView {
    match (state, event) {
        (SessionView::Editing, EventView::Edited(Ok(actions))) => if actions.len() == 0 {
            SessionView::Accepted(actions)
        } else {
            SessionView::Reviewing(actions)
        },
        (SessionView::Editing, EventView::Edited(Err(message))) => SessionView::ParseFailed(
            message,
        ),
        (SessionView::Reviewing(actions), EventView::Confirmed(InputResult::Yes)) => {
            SessionView::Accepted(actions)
        },
        (SessionView::Reviewing(_), EventView::Confirmed(InputResult::No)) => {
            SessionView::Aborted
        },
        (SessionView::Reviewing(_), EventView::Confirmed(InputResult::Edit)) => {
            SessionView::Editing
        },
        (SessionView::ParseFailed(_), EventView::RetryAnswered(InputErrorResult::Yes)) => {
            SessionView::Editing
        },
        (SessionView::ParseFailed(_), EventView::RetryAnswered(InputErrorResult::No)) => {
            SessionView::Aborted
        },
        (state, _) => state,
    }
}

/// Takes the session from `state` to the state that follows on `event`, and
/// says what the driver is to do there.
pub fn step<'a>(state: Session<'a>, event: Event<'a>) -> (next: (Session<'a>, Request))
    ensures
        next.0@ == next_state(state@, event@),
        next.1 == request_of(next.0@),
        well_formed(state@) ==> well_formed(next.0@),
{
    match state {
        Session::Editing => match event {
            Event::Edited(Ok(actions)) => {
                if actions.len() == 0 {
                    (Session::Accepted(actions), Request::Finish)
                } else {
                    (Session::Reviewing(actions), Request::AskConfirmation)
                }
            },
            Event::Edited(Err(message)) => (Session::ParseFailed(message), Request::AskRetry),
            _ => (Session::Editing, Request::RunEditor),
        },
        Session::Reviewing(actions) => match event {
            Event::Confirmed(InputResult::Yes) => (Session::Accepted(actions), Request::Finish),
            Event::Confirmed(InputResult::No) => (Session::Aborted, Request::Finish),
            Event::Confirmed(InputResult::Edit) => (Session::Editing, Request::RunEditor),
            _ => (Session::Reviewing(actions), Request::AskConfirmation),
        },
        Session::ParseFailed(message) => match event {
            Event::RetryAnswered(InputErrorResult::Yes) => (Session::Editing, Request::RunEditor),
            Event::RetryAnswered(InputErrorResult::No) => (Session::Aborted, Request::Finish),
            _ => (Session::ParseFailed(message), Request::AskRetry),
        },
        Session::Accepted(actions) => (Session::Accepted(actions), Request::Finish),
        Session::Aborted => (Session::Aborted, Request::Finish),
    }
}

/// Once a session has ended, no event changes it.
pub proof fn lemma_terminal_states_absorb(state: SessionView, event: EventView)
    requires
        terminal(state),
    ensures
        next_state(state, event) == state,
{
}

/// A step never leaves the states that a session can be in: actions come
/// under review only when there is at least one.
pub proof fn lemma_step_keeps_well_formed(state: SessionView, event: EventView)
    requires
        well_formed(state),
    ensures
        well_formed(next_state(state, event)),
{
}

/// Actions are accepted only in two ways: none at all, straight after an
/// edit that asks for nothing; or exactly those under review, on the user's
/// yes. An aborted session holds no action.
pub proof fn lemma_accepted_actions_were_reviewed(state: SessionView, event: EventView)
    requires
        !terminal(state),
        next_state(state, event) is Accepted,
    ensures
        ({
            let accepted = next_state(state, event)->Accepted_0;
            ||| state is Editing && accepted.len() == 0
            ||| state == SessionView::Reviewing(accepted) && event == EventView::Confirmed(
                InputResult::Yes,
            )
        }),
{
}

} // verus!
