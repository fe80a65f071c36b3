//! The record that the worker writes and the interface polls.

use crate::errors::WorkerError;
use crate::progress::Progress;
use crate::ticket::{clone_ticket, has_ticket_prefix, render_ticket, ticket_text};
use iroh_base::ticket::BlobTicket;
use vstd::prelude::*;

verus! {

/// Progress of the running operation, the ticket of the last share, and the
/// failures that the user has not acknowledged yet.
#[derive(Debug)]
pub struct SharedState {
    /// Set while a share is running.
    pub sharing_progress: Option<Progress>,
    /// Set once a share has succeeded.
    pub ticket: Option<BlobTicket>,
    /// Set while a fetch is running.
    pub download_progress: Option<Progress>,
    /// Failures in the order in which they came; the last one is shown.
    pub errors: Vec<WorkerError>,
}

/// The shared record as a mathematical value.
pub struct StateView {
    pub sharing_progress: Option<Progress>,
    pub ticket: Option<BlobTicket>,
    pub download_progress: Option<Progress>,
    pub errors: Seq<WorkerError>,
}

impl StateView {
    /// Each progress field, where set, holds a proper reading.
    pub open spec fn wf(self) -> bool {
        &&& self.sharing_progress matches Some(p) ==> p.wf()
        &&& self.download_progress matches Some(p) ==> p.wf()
    }

    /// The record at process start.
    pub open spec fn initial() -> StateView {
        StateView {
            sharing_progress: None,
            ticket: None,
            download_progress: None,
            errors: Seq::empty(),
        }
    }

    /// The record after the user selected another file to share.
    pub open spec fn reset_download(self) -> StateView {
        StateView { sharing_progress: None, ticket: None, ..self }
    }

    /// The record with one more failure.
    pub open spec fn push_error(self, error: WorkerError) -> StateView {
        StateView { errors: self.errors.push(error), ..self }
    }

    /// The failure that the interface shows: the one recorded last.
    pub open spec fn current_error(self) -> Option<WorkerError> {
        if self.errors.len() == 0 {
            None
        } else {
            Some(self.errors.last())
        }
    }

    /// The record after the user acknowledged the failure shown.
    pub open spec fn acknowledge_error(self) -> StateView {
        if self.errors.len() == 0 {
            self
        } else {
            StateView { errors: self.errors.drop_last(), ..self }
        }
    }

    /// The record after several failures, recorded in order.
    pub open spec fn push_errors(self, errors: Seq<WorkerError>) -> StateView
        decreases errors.len(),
    {
        if errors.len() == 0 {
            self
        } else {
            self.push_errors(errors.drop_last()).push_error(errors.last())
        }
    }

    /// The record after `count` acknowledgments.
    pub open spec fn acknowledge_errors(self, count: nat) -> StateView
        decreases count,
    {
        if count == 0 {
            self
        } else {
            self.acknowledge_errors((count - 1) as nat).acknowledge_error()
        }
    }
}

impl View for SharedState {
    type V = StateView;

    open spec fn view(&self) -> StateView {
        StateView {
            sharing_progress: self.sharing_progress,
            ticket: self.ticket,
            download_progress: self.download_progress,
            errors: self.errors@,
        }
    }
}

impl SharedState {
    /// The record at process start: no progress, no ticket, no failure.
    pub fn new() -> (r: SharedState)
        ensures
            r@ == StateView::initial(),
    {
        SharedState {
            sharing_progress: None,
            ticket: None,
            download_progress: None,
            errors: Vec::new(),
        }
    }

    /// A copy of the whole record as it is now, for a reader that does not
    /// want to hold on to the record itself.
    pub fn snapshot(&self) -> (r: SharedState)
        ensures
            r@ == self@,
    {
        let ticket = match &self.ticket {
            Some(ticket) => Some(clone_ticket(ticket)),
            None => None,
        };
        let mut errors: Vec<WorkerError> = Vec::new();
        let mut i: usize = 0;
        while i < self.errors.len()
            invariant
                i <= self.errors.len(),
                errors@ == self.errors@.take(i as int),
            decreases self.errors.len() - i,
        {
            errors.push(self.errors[i].duplicate());
            assert(self.errors@.take(i + 1) == self.errors@.take(i as int).push(self.errors@[i as int]));
            i += 1;
        }
        assert(self.errors@.take(i as int) == self.errors@);
        SharedState {
            sharing_progress: self.sharing_progress,
            ticket,
            download_progress: self.download_progress,
            errors,
        }
    }

    /// Starts a new share cycle: forgets the progress and the ticket of the
    /// last one, whatever they were.
    pub fn reset_download(&mut self)
        ensures
            final(self)@ == old(self)@.reset_download(),
    {
        self.sharing_progress = None;
        self.ticket = None;
    }

    /// Records a failure behind those already there.
    pub fn push_error(&mut self, error: WorkerError)
        ensures
            final(self)@ == old(self)@.push_error(error),
    {
        self.errors.push(error);
    }

    /// The failure to show: the most recent one not yet acknowledged.
    pub fn current_error(&self) -> (r: Option<&WorkerError>)
        ensures
            match r {
                Some(error) => self@.current_error() == Some(*error),
                None => self@.current_error().is_none(),
            },
    {
        let count = self.errors.len();
        if count == 0 {
            None
        } else {
            Some(&self.errors[count - 1])
        }
    }

    /// The line to show for the current failure, if there is one.
    pub fn current_message(&self) -> (r: Option<String>)
        ensures
            match r {
                Some(line) => self@.current_error() matches Some(error) && line@ == error.label()
                    + ": "@ + error.detail(),
                None => self@.current_error().is_none(),
            },
    {
        match self.current_error() {
            Some(error) => Some(error.message()),
            None => None,
        }
    }

    /// The text of the ticket to hand on, if a share has produced one.
    pub fn ticket_text(&self) -> (r: Option<String>)
        ensures
            match r {
                Some(text) => self@.ticket matches Some(ticket) && text@ == ticket_text(ticket)
                    && has_ticket_prefix(text@),
                None => self@.ticket.is_none(),
            },
    {
        match &self.ticket {
            Some(ticket) => Some(render_ticket(ticket)),
            None => None,
        }
    }

    /// Removes the failure shown, and nothing else, and returns it. An older
    /// failure, if there is one, is shown next.
    pub fn acknowledge_error(&mut self) -> (r: Option<WorkerError>)
        ensures
            final(self)@ == old(self)@.acknowledge_error(),
            r == old(self)@.current_error(),
    {
        self.errors.pop()
    }
}

impl Default for SharedState {
    fn default() -> (r: SharedState)
        ensures
            r@ == StateView::initial(),
    {
        SharedState::new()
    }
}

/// Recording failures leaves everything but the list of failures alone, and
/// puts them behind those already there, in order.
pub proof fn lemma_push_errors(state: StateView, errors: Seq<WorkerError>)
    ensures
        state.push_errors(errors) == (StateView { errors: state.errors + errors, ..state }),
    decreases errors.len(),
{
    if errors.len() == 0 {
        assert(state.errors + errors == state.errors);
    } else {
        lemma_push_errors(state, errors.drop_last());
        assert((state.errors + errors.drop_last()).push(errors.last()) == state.errors + errors);
    }
}

/// Acknowledging removes failures from the end, as many as there are at
/// most, and touches nothing else.
pub proof fn lemma_acknowledge_errors(state: StateView, count: nat)
    ensures
        state.acknowledge_errors(count) == (StateView {
            errors: state.errors.take(
                if count <= state.errors.len() {
                    state.errors.len() - count
                } else {
                    0
                },
            ),
            ..state
        }),
    decreases count,
{
    if count == 0 {
        assert(state.errors.take(state.errors.len() as int) == state.errors);
    } else {
        lemma_acknowledge_errors(state, (count - 1) as nat);
        let before = state.acknowledge_errors((count - 1) as nat);
        if before.errors.len() > 0 {
            assert(before.errors.drop_last() == state.errors.take(state.errors.len() - count));
        }
    }
}

/// Stack discipline of the failures: after `pushed` has been recorded and
/// `count` of them acknowledged, the record holds what it held before and
/// the first `pushed.len() - count` of the new ones; the one shown is the
/// last of these; and when all of them are acknowledged the list is what
/// it was, so empty if it was empty.
pub proof fn lemma_push_then_acknowledge(state: StateView, pushed: Seq<WorkerError>, count: nat)
    requires
        count <= pushed.len(),
    ensures
        state.push_errors(pushed).acknowledge_errors(count) == (StateView {
            errors: state.errors + pushed.take(pushed.len() - count),
            ..state
        }),
        count < pushed.len() ==> state.push_errors(pushed).acknowledge_errors(
            count,
        ).current_error() == Some(pushed[pushed.len() - count - 1]),
        count == pushed.len() ==> state.push_errors(pushed).acknowledge_errors(count) == state,
{
    lemma_push_errors(state, pushed);
    let full = state.push_errors(pushed);
    lemma_acknowledge_errors(full, count);
    let kept = pushed.take(pushed.len() - count);
    assert(full.errors.take(full.errors.len() - count) == state.errors + kept);
    if count == pushed.len() {
        assert(state.errors + kept == state.errors);
    }
}

} // verus!
