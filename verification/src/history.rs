//! Whole runs of the worker: what holds after any sequence of steps, and
//! what a sequence of operations, handled one after the other, leaves behind.

use crate::errors::WorkerError;
use crate::progress::ProgressEvent;
use crate::ticket::ticket_decoding;
use crate::worker::{action_for, Action, Outcome, WorkerMessage, WorkerView};
use iroh_base::ticket::BlobTicket;
use std::path::PathBuf;
use vstd::prelude::*;

verus! {

/// One thing that happens to the worker.
pub enum Step {
    /// The worker takes a request.
    Dispatch(WorkerMessage),
    /// The running operation reports progress.
    Progress(ProgressEvent),
    /// The engine's call returns.
    Complete(Outcome),
    /// The user selects a file to share.
    SelectFile,
    /// The user acknowledges the failure shown.
    Acknowledge,
}

/// One request with all that follows from it: the progress events of the
/// engine's call and how the call ended. Where the request starts no call,
/// the events and the outcome play no part.
pub struct Operation {
    pub message: WorkerMessage,
    pub events: Seq<ProgressEvent>,
    pub outcome: Outcome,
}

impl Operation {
    /// The outcome is one that the request's engine call can have.
    pub open spec fn consistent(self) -> bool {
        match action_for(self.message) {
            Action::Provide { .. } => self.outcome is Shared || self.outcome is ShareFailed,
            Action::Fetch { .. } => self.outcome is Fetched || self.outcome is FetchFailed,
            Action::Wait => true,
        }
    }

    /// The failure that the operation leaves in the record, if any.
    pub open spec fn failures(self) -> Seq<WorkerError> {
        match self.message {
            WorkerMessage::Share(_) => match self.outcome {
                Outcome::ShareFailed(cause) => seq![WorkerError::Share { cause }],
                _ => Seq::empty(),
            },
            WorkerMessage::Get(text, _) => match ticket_decoding(text@) {
                Err(error) => seq![WorkerError::TicketParse { text, error }],
                Ok(_) => match self.outcome {
                    Outcome::FetchFailed(cause) => seq![WorkerError::Get { cause }],
                    _ => Seq::empty(),
                },
            },
        }
    }

    /// The ticket that the record holds after the operation, given the one
    /// it held before: that of a successful share, else the same.
    pub open spec fn ticket_after(self, before: Option<BlobTicket>) -> Option<BlobTicket> {
        match (self.message, self.outcome) {
            (WorkerMessage::Share(_), Outcome::Shared(ticket)) => Some(ticket),
            _ => before,
        }
    }
}

/// The failures that a sequence of operations leaves, in order.
pub open spec fn failures_of(operations: Seq<Operation>) -> Seq<WorkerError>
    decreases operations.len(),
{
    if operations.len() == 0 {
        Seq::empty()
    } else {
        failures_of(operations.drop_last()) + operations.last().failures()
    }
}

/// Whether each operation of a sequence is consistent.
pub open spec fn all_consistent(operations: Seq<Operation>) -> bool {
    forall|k: int| 0 <= k < operations.len() ==> (#[trigger] operations[k]).consistent()
}

impl WorkerView {
    /// Whether the step can happen now: a request is taken only by an idle
    /// worker, and an outcome belongs to the operation that runs.
    pub open spec fn admits(self, step: Step) -> bool {
        match step {
            Step::Dispatch(_) => self.phase is Idle,
            Step::Complete(outcome) => self.accepts(outcome),
            _ => true,
        }
    }

    /// The worker after the step.
    pub open spec fn stepped(self, step: Step) -> WorkerView {
        match step {
            Step::Dispatch(message) => self.dispatched(message),
            Step::Progress(event) => self.progressed(event),
            Step::Complete(outcome) => self.completed(outcome),
            Step::SelectFile => self.file_selected(),
            Step::Acknowledge => self.error_acknowledged(),
        }
    }

    /// Whether the steps can happen one after the other, starting now.
    pub open spec fn admits_all(self, steps: Seq<Step>) -> bool
        decreases steps.len(),
    {
        steps.len() > 0 ==> self.admits_all(steps.drop_last()) && self.stepped_all(
            steps.drop_last(),
        ).admits(steps.last())
    }

    /// The worker after the steps, in order.
    pub open spec fn stepped_all(self, steps: Seq<Step>) -> WorkerView
        decreases steps.len(),
    {
        if steps.len() == 0 {
            self
        } else {
            self.stepped_all(steps.drop_last()).stepped(steps.last())
        }
    }

    /// The worker after one whole operation: the request taken, and, where
    /// that started an engine call, its events applied and its outcome
    /// recorded.
    pub open spec fn performed(self, operation: Operation) -> WorkerView {
        let begun = self.dispatched(operation.message);
        if begun.phase is Idle {
            begun
        } else {
            begun.progressed_all(operation.events).completed(operation.outcome)
        }
    }

    /// The worker after a sequence of operations, each handled whole before
    /// the next is taken.
    pub open spec fn performed_all(self, operations: Seq<Operation>) -> WorkerView
        decreases operations.len(),
    {
        if operations.len() == 0 {
            self
        } else {
            self.performed_all(operations.drop_last()).performed(operations.last())
        }
    }
}

/// A step that can happen keeps the record well formed: progress is shown
/// only of the operation that runs.
pub proof fn lemma_step_keeps_wf(worker: WorkerView, step: Step)
    requires
        worker.wf(),
        worker.admits(step),
    ensures
        worker.stepped(step).wf(),
{
}

/// In every state that the worker can reach from its start, progress is
/// shown only of the operation that runs: download progress is set only
/// between the dispatch of a fetch and its outcome, sharing progress only
/// between the dispatch of a share and its outcome.
pub proof fn lemma_every_run_wf(steps: Seq<Step>)
    requires
        WorkerView::initial().admits_all(steps),
    ensures
        WorkerView::initial().stepped_all(steps).wf(),
    decreases steps.len(),
{
    if steps.len() > 0 {
        lemma_every_run_wf(steps.drop_last());
        lemma_step_keeps_wf(WorkerView::initial().stepped_all(steps.drop_last()), steps.last());
    }
}

/// No step but an acknowledgment removes a recorded failure: what was
/// recorded before the step is still there after it, in the same order and
/// in front. An acknowledgment removes the last one and no other.
pub proof fn lemma_failures_kept(worker: WorkerView, step: Step)
    ensures
        !(step is Acknowledge) ==> worker.shared.errors.is_prefix_of(
            worker.stepped(step).shared.errors,
        ),
        step is Acknowledge && worker.shared.errors.len() > 0 ==> worker.stepped(
            step,
        ).shared.errors == worker.shared.errors.drop_last(),
{
}

/// The ticket stays as it is until a share succeeds or the user selects a
/// file.
pub proof fn lemma_ticket_kept(worker: WorkerView, step: Step)
    requires
        !(step is SelectFile),
        !(step matches Step::Complete(Outcome::Shared(_))),
    ensures
        worker.stepped(step).shared.ticket == worker.shared.ticket,
{
}

/// Progress events change the totals and the progress shown of the running
/// operation, and nothing else.
pub proof fn lemma_progress_touches_progress_only(worker: WorkerView, events: Seq<ProgressEvent>)
    requires
        worker.wf(),
    ensures
        worker.progressed_all(events).wf(),
        worker.progressed_all(events).phase == worker.phase,
        worker.progressed_all(events).shared.errors == worker.shared.errors,
        worker.progressed_all(events).shared.ticket == worker.shared.ticket,
        !(worker.phase is Idle) ==> worker.progressed_all(events).totals == worker.totals.after(
            events,
        ),
    decreases events.len(),
{
    if events.len() > 0 {
        lemma_progress_touches_progress_only(worker, events.drop_last());
    }
}

/// Text that does not decode as a ticket gets a fetch request rejected: the
/// worker stays idle, exactly one failure is recorded, a parse error with
/// the text, no download progress is set, and the engine is not called.
pub proof fn lemma_malformed_ticket_rejected(
    worker: WorkerView,
    text: String,
    destination: PathBuf,
)
    requires
        ticket_decoding(text@) is Err,
    ensures
        action_for(WorkerMessage::Get(text, destination)) == Action::Wait,
        worker.dispatched(WorkerMessage::Get(text, destination)) == (WorkerView {
            shared: worker.shared.push_error(
                WorkerError::TicketParse { text, error: ticket_decoding(text@)->Err_0 },
            ),
            ..worker
        }),
        worker.dispatched(WorkerMessage::Get(text, destination)).shared.errors.len()
            == worker.shared.errors.len() + 1,
        worker.dispatched(WorkerMessage::Get(text, destination)).shared.download_progress
            == worker.shared.download_progress,
{
}

/// After a successful share the progress is unset and the ticket is set;
/// selecting a file afterwards, or at any other time, unsets both.
pub proof fn lemma_share_then_select(worker: WorkerView, ticket: BlobTicket)
    ensures
        worker.completed(Outcome::Shared(ticket)).shared.sharing_progress.is_none(),
        worker.completed(Outcome::Shared(ticket)).shared.ticket == Some(ticket),
        worker.completed(Outcome::Shared(ticket)).file_selected().shared.sharing_progress.is_none(),
        worker.completed(Outcome::Shared(ticket)).file_selected().shared.ticket.is_none(),
        worker.file_selected().shared.sharing_progress.is_none(),
        worker.file_selected().shared.ticket.is_none(),
{
}

/// One whole operation, taken by an idle worker, leaves the worker idle
/// again with no progress shown, its failure, if it had one, behind those
/// recorded before, and the ticket replaced only by a successful share.
pub proof fn lemma_operation_settles(worker: WorkerView, operation: Operation)
    requires
        worker.wf(),
        worker.phase is Idle,
        operation.consistent(),
    ensures
        worker.performed(operation).wf(),
        worker.performed(operation).phase is Idle,
        worker.performed(operation).shared.sharing_progress.is_none(),
        worker.performed(operation).shared.download_progress.is_none(),
        worker.performed(operation).shared.errors == worker.shared.errors
            + operation.failures(),
        worker.performed(operation).shared.ticket == operation.ticket_after(worker.shared.ticket),
{
    let begun = worker.dispatched(operation.message);
    if begun.phase is Idle {
        assert(worker.shared.errors.push(operation.failures()[0]) == worker.shared.errors
            + operation.failures());
    } else {
        lemma_progress_touches_progress_only(begun, operation.events);
        if operation.failures().len() == 0 {
            assert(worker.shared.errors + operation.failures() == worker.shared.errors);
        } else {
            assert(worker.shared.errors.push(operation.failures()[0]) == worker.shared.errors
                + operation.failures());
        }
    }
}

/// Operations handled one after the other take effect in the order in
/// which they were sent: the worker ends idle, and the failures recorded
/// are those of the operations, each in its turn, behind those that were
/// there before.
pub proof fn lemma_operations_in_order(worker: WorkerView, operations: Seq<Operation>)
    requires
        worker.wf(),
        worker.phase is Idle,
        all_consistent(operations),
    ensures
        worker.performed_all(operations).wf(),
        worker.performed_all(operations).phase is Idle,
        worker.performed_all(operations).shared.sharing_progress.is_none(),
        worker.performed_all(operations).shared.download_progress.is_none(),
        worker.performed_all(operations).shared.errors == worker.shared.errors + failures_of(
            operations,
        ),
    decreases operations.len(),
{
    if operations.len() == 0 {
        assert(worker.shared.errors + failures_of(operations) == worker.shared.errors);
    } else {
        let earlier = operations.drop_last();
        assert(all_consistent(earlier));
        lemma_operations_in_order(worker, earlier);
        lemma_operation_settles(worker.performed_all(earlier), operations.last());
        assert((worker.shared.errors + failures_of(earlier)) + operations.last().failures()
            == worker.shared.errors + failures_of(operations));
    }
}

/// Handling two sequences of operations one after the other is handling
/// their concatenation: no operation's effects reach into another's.
pub proof fn lemma_operations_compose(
    worker: WorkerView,
    first: Seq<Operation>,
    second: Seq<Operation>,
)
    ensures
        worker.performed_all(first + second) == worker.performed_all(first).performed_all(second),
    decreases second.len(),
{
    if second.len() == 0 {
        assert(first + second == first);
    } else {
        assert((first + second).drop_last() == first + second.drop_last());
        assert((first + second).last() == second.last());
        lemma_operations_compose(worker, first, second.drop_last());
    }
}

} // verus!
