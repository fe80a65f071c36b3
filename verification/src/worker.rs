//! The worker: one operation at a time, from request to outcome.

use crate::errors::WorkerError;
use crate::progress::{Aggregator, Progress, ProgressEvent};
use crate::state::{SharedState, StateView};
use crate::ticket::{has_ticket_prefix, parse_ticket, ticket_decoding, TicketParseError};
use iroh_base::ticket::BlobTicket;
use std::path::PathBuf;
use vstd::prelude::*;

verus! {

/// How many progress events may wait between the engine and the worker
/// before the engine has to wait itself.
pub const PROGRESS_CHANNEL_CAPACITY: usize = 32;

/// A request from the interface to the worker.
#[derive(Debug)]
pub enum WorkerMessage {
    /// Share the file at this path.
    Share(PathBuf),
    /// Fetch what the ticket text names into this directory.
    Get(String, PathBuf),
}

/// What the caller has to run next on the worker's behalf.
#[derive(Debug)]
pub enum Action {
    /// Have the transfer engine provide the file.
    Provide { path: PathBuf },
    /// Have the transfer engine fetch what the ticket names.
    Fetch { ticket: BlobTicket, destination: PathBuf },
    /// Nothing to run: wait for the next request.
    Wait,
}

/// How the transfer engine's call ended.
#[derive(Debug)]
pub enum Outcome {
    /// The file is provided under this ticket.
    Shared(BlobTicket),
    /// Providing failed.
    ShareFailed(String),
    /// Everything was fetched.
    Fetched,
    /// Fetching failed.
    FetchFailed(String),
}

/// What the worker is busy with.
#[derive(Clone, Copy, Debug, PartialEq, Eq, Structural)]
pub enum Phase {
    Idle,
    Sharing,
    Fetching,
}

/// The worker as a mathematical value.
pub struct WorkerView {
    pub phase: Phase,
    pub totals: Aggregator,
    pub shared: StateView,
}

/// What the caller has to run for a request: the engine call it asks for,
/// or nothing where the ticket text does not decode.
pub open spec fn action_for(message: WorkerMessage) -> Action {
    match message {
        WorkerMessage::Share(path) => Action::Provide { path },
        WorkerMessage::Get(text, destination) => match ticket_decoding(text@) {
            Ok(ticket) => Action::Fetch { ticket, destination },
            Err(_) => Action::Wait,
        },
    }
}

impl WorkerView {
    /// Progress is shown only of the operation that is running: sharing
    /// progress only during a share, download progress only during a fetch.
    pub open spec fn wf(self) -> bool {
        &&& self.shared.wf()
        &&& self.shared.sharing_progress is Some ==> self.phase is Sharing
        &&& self.shared.download_progress is Some ==> self.phase is Fetching
    }

    /// The worker at process start.
    pub open spec fn initial() -> WorkerView {
        WorkerView {
            phase: Phase::Idle,
            totals: Aggregator { declared: 0, processed: 0 },
            shared: StateView::initial(),
        }
    }

    /// The worker once a share has begun: fresh totals, nothing shown yet.
    pub open spec fn share_begun(self) -> WorkerView {
        WorkerView {
            phase: Phase::Sharing,
            totals: Aggregator { declared: 0, processed: 0 },
            shared: self.shared,
        }
    }

    /// The worker once the ticket text of a fetch request has been decoded:
    /// fetching from zero if it is a ticket; else still idle, with the
    /// failure recorded.
    pub open spec fn fetch_settled(
        self,
        decoded: Result<BlobTicket, TicketParseError>,
        text: String,
    ) -> WorkerView {
        match decoded {
            Ok(_) => WorkerView {
                phase: Phase::Fetching,
                totals: Aggregator { declared: 0, processed: 0 },
                shared: StateView {
                    download_progress: Some(Progress::zero()),
                    ..self.shared
                },
            },
            Err(error) => WorkerView {
                shared: self.shared.push_error(WorkerError::TicketParse { text, error }),
                ..self
            },
        }
    }

    /// The worker after it has taken a request.
    pub open spec fn dispatched(self, message: WorkerMessage) -> WorkerView {
        match message {
            WorkerMessage::Share(_) => self.share_begun(),
            WorkerMessage::Get(text, _) => self.fetch_settled(ticket_decoding(text@), text),
        }
    }

    /// The worker after one progress event. An event that comes while no
    /// operation runs changes nothing.
    pub open spec fn progressed(self, event: ProgressEvent) -> WorkerView {
        let totals = self.totals.step(event);
        match self.phase {
            Phase::Idle => self,
            Phase::Sharing => WorkerView {
                totals,
                shared: StateView { sharing_progress: Some(totals.reading()), ..self.shared },
                ..self
            },
            Phase::Fetching => WorkerView {
                totals,
                shared: StateView { download_progress: Some(totals.reading()), ..self.shared },
                ..self
            },
        }
    }

    /// The worker after a sequence of progress events, in order.
    pub open spec fn progressed_all(self, events: Seq<ProgressEvent>) -> WorkerView
        decreases events.len(),
    {
        if events.len() == 0 {
            self
        } else {
            self.progressed_all(events.drop_last()).progressed(events.last())
        }
    }

    /// Whether the outcome is one of the operation that is running.
    pub open spec fn accepts(self, outcome: Outcome) -> bool {
        match self.phase {
            Phase::Idle => false,
            Phase::Sharing => outcome is Shared || outcome is ShareFailed,
            Phase::Fetching => outcome is Fetched || outcome is FetchFailed,
        }
    }

    /// The worker after the running operation has ended: idle, the
    /// operation's progress cleared whatever the outcome, the ticket set
    /// after a successful share, the failure recorded after a failed call.
    pub open spec fn completed(self, outcome: Outcome) -> WorkerView {
        let shared = match outcome {
            Outcome::Shared(ticket) => StateView {
                sharing_progress: None,
                ticket: Some(ticket),
                ..self.shared
            },
            Outcome::ShareFailed(cause) => StateView {
                sharing_progress: None,
                ..self.shared
            }.push_error(WorkerError::Share { cause }),
            Outcome::Fetched => StateView { download_progress: None, ..self.shared },
            Outcome::FetchFailed(cause) => StateView {
                download_progress: None,
                ..self.shared
            }.push_error(WorkerError::Get { cause }),
        };
        WorkerView { phase: Phase::Idle, shared, ..self }
    }

    /// The worker after the user selected a file to share.
    pub open spec fn file_selected(self) -> WorkerView {
        WorkerView { shared: self.shared.reset_download(), ..self }
    }

    /// The worker after the user acknowledged the failure shown.
    pub open spec fn error_acknowledged(self) -> WorkerView {
        WorkerView { shared: self.shared.acknowledge_error(), ..self }
    }
}

/// The worker: what it is busy with, the running totals of that operation,
/// and the record that the interface reads.
#[derive(Debug)]
pub struct Worker {
    phase: Phase,
    totals: Aggregator,
    shared: SharedState,
}

impl View for Worker {
    type V = WorkerView;

    closed spec fn view(&self) -> WorkerView {
        WorkerView { phase: self.phase, totals: self.totals, shared: self.shared@ }
    }
}

impl Worker {
    /// An idle worker with an empty record.
    pub fn new() -> (r: Worker)
        ensures
            r@ == WorkerView::initial(),
    {
        Worker { phase: Phase::Idle, totals: Aggregator::new(), shared: SharedState::new() }
    }

    /// What the worker is busy with.
    pub fn phase(&self) -> (r: Phase)
        ensures
            r == self@.phase,
    {
        self.phase
    }

    /// Whether the worker can take a request.
    pub fn is_idle(&self) -> (r: bool)
        ensures
            r == (self@.phase is Idle),
    {
        match self.phase {
            Phase::Idle => true,
            _ => false,
        }
    }

    /// Whether the outcome is one of the operation that is running, so that
    /// the operation can be ended with it.
    pub fn accepts(&self, outcome: &Outcome) -> (r: bool)
        ensures
            r == self@.accepts(*outcome),
    {
        match self.phase {
            Phase::Idle => false,
            Phase::Sharing => match outcome {
                Outcome::Shared(_) => true,
                Outcome::ShareFailed(_) => true,
                _ => false,
            },
            Phase::Fetching => match outcome {
                Outcome::Fetched => true,
                Outcome::FetchFailed(_) => true,
                _ => false,
            },
        }
    }

    /// The record, to read.
    pub fn shared(&self) -> (r: &SharedState)
        ensures
            r@ == self@.shared,
    {
        &self.shared
    }

    /// Begins a share: the caller is to have the engine provide the file.
    pub fn begin_share(&mut self, path: PathBuf) -> (action: Action)
        requires
            old(self)@.phase is Idle,
        ensures
            final(self)@ == old(self)@.share_begun(),
            action == (Action::Provide { path }),
    {
        self.totals = Aggregator::new();
        self.phase = Phase::Sharing;
        Action::Provide { path }
    }

    /// Goes on with a fetch request once its ticket text has been decoded.
    /// A ticket starts the fetch, with download progress at zero. A parse
    /// error is recorded, with the text, and nothing is started.
    pub fn settle_fetch(
        &mut self,
        decoded: Result<BlobTicket, TicketParseError>,
        text: String,
        destination: PathBuf,
    ) -> (action: Action)
        requires
            old(self)@.phase is Idle,
        ensures
            final(self)@ == old(self)@.fetch_settled(decoded, text),
            match decoded {
                Ok(ticket) => action == (Action::Fetch { ticket, destination }),
                Err(_) => action == Action::Wait,
            },
    {
        match decoded {
            Ok(ticket) => {
                self.totals = Aggregator::new();
                self.phase = Phase::Fetching;
                self.shared.download_progress = Some(Progress::started());
                Action::Fetch { ticket, destination }
            },
            Err(error) => {
                self.shared.push_error(WorkerError::TicketParse { text, error });
                Action::Wait
            },
        }
    }

    /// Takes the next request. A share begins at once. A fetch begins if
    /// the text is a ticket; if not, the parse error is recorded and the
    /// engine is not called.
    pub fn dispatch(&mut self, message: WorkerMessage) -> (action: Action)
        requires
            old(self)@.phase is Idle,
        ensures
            final(self)@ == old(self)@.dispatched(message),
            action == action_for(message),
            message matches WorkerMessage::Get(text, _) ==> (!has_ticket_prefix(text@) ==> {
                &&& action == Action::Wait
                &&& final(self)@ == (WorkerView {
                    shared: old(self)@.shared.push_error(
                        WorkerError::TicketParse { text, error: TicketParseError::WrongPrefix },
                    ),
                    ..old(self)@
                })
            }),
    {
        match message {
            WorkerMessage::Share(path) => self.begin_share(path),
            WorkerMessage::Get(text, destination) => {
                let decoded = parse_ticket(text.as_str());
                self.settle_fetch(decoded, text, destination)
            },
        }
    }

    /// Takes one progress event of the running operation into its totals
    /// and shows the new reading. Returns whether anything changed, which
    /// is whether an operation is running.
    pub fn on_progress(&mut self, event: ProgressEvent) -> (changed: bool)
        ensures
            final(self)@ == old(self)@.progressed(event),
            changed == !(old(self)@.phase is Idle),
    {
        match self.phase {
            Phase::Idle => false,
            Phase::Sharing => {
                let reading = self.totals.apply(event);
                self.shared.sharing_progress = Some(reading);
                true
            },
            Phase::Fetching => {
                let reading = self.totals.apply(event);
                self.shared.download_progress = Some(reading);
                true
            },
        }
    }

    /// Ends the running operation with the outcome of the engine's call.
    pub fn complete(&mut self, outcome: Outcome)
        requires
            old(self)@.accepts(outcome),
        ensures
            final(self)@ == old(self)@.completed(outcome),
    {
        match outcome {
            Outcome::Shared(ticket) => {
                self.shared.sharing_progress = None;
                self.shared.ticket = Some(ticket);
            },
            Outcome::ShareFailed(cause) => {
                self.shared.sharing_progress = None;
                self.shared.push_error(WorkerError::Share { cause });
            },
            Outcome::Fetched => {
                self.shared.download_progress = None;
            },
            Outcome::FetchFailed(cause) => {
                self.shared.download_progress = None;
                self.shared.push_error(WorkerError::Get { cause });
            },
        }
        self.phase = Phase::Idle;
    }

    /// The user selected a file to share: a new share cycle starts, and the
    /// progress and ticket of the last one are forgotten.
    pub fn select_file(&mut self)
        ensures
            final(self)@ == old(self)@.file_selected(),
    {
        self.shared.reset_download();
    }

    /// The user acknowledged the failure shown: it is removed and returned.
    pub fn acknowledge_error(&mut self) -> (r: Option<WorkerError>)
        ensures
            final(self)@ == old(self)@.error_acknowledged(),
            r == old(self)@.shared.current_error(),
    {
        self.shared.acknowledge_error()
    }
}

} // verus!
