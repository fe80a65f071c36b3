//! The failures that the worker records for the interface to show.

use crate::ticket::TicketParseError;
use vstd::prelude::*;
use vstd::string::StringExecFns;

verus! {

/// A failure of one request, as it is kept until the user acknowledges it.
#[derive(Clone, Debug, PartialEq, Eq)]
pub enum WorkerError {
    /// The pasted text is not a ticket. Found before any transfer began.
    TicketParse { text: String, error: TicketParseError },
    /// The transfer engine failed while providing a file.
    Share { cause: String },
    /// The transfer engine failed while fetching.
    Get { cause: String },
}

impl TicketParseError {
    /// The description of the fault, as a sequence of characters.
    pub open spec fn description(self) -> Seq<char> {
        match self {
            TicketParseError::WrongPrefix => "wrong prefix, expected blob"@,
            TicketParseError::Undecodable => "decoding failed"@,
            TicketParseError::Malformed => "deserialization failed"@,
            TicketParseError::Unaddressed => "verification failed"@,
        }
    }

    /// A short description of the fault.
    pub fn describe(&self) -> (r: &'static str)
        ensures
            r@ == self.description(),
    {
        match self {
            TicketParseError::WrongPrefix => "wrong prefix, expected blob",
            TicketParseError::Undecodable => "decoding failed",
            TicketParseError::Malformed => "deserialization failed",
            TicketParseError::Unaddressed => "verification failed",
        }
    }
}

impl WorkerError {
    /// The context label of the failure, as a sequence of characters.
    pub open spec fn label(self) -> Seq<char> {
        match self {
            WorkerError::TicketParse { .. } => "parsing ticket"@,
            WorkerError::Share { .. } => "sharing"@,
            WorkerError::Get { .. } => "get"@,
        }
    }

    /// What went wrong, without the context.
    pub open spec fn detail(self) -> Seq<char> {
        match self {
            WorkerError::TicketParse { error, .. } => error.description(),
            WorkerError::Share { cause } => cause@,
            WorkerError::Get { cause } => cause@,
        }
    }

    /// A copy of the failure, equal to it in every part.
    pub fn duplicate(&self) -> (r: WorkerError)
        ensures
            r == *self,
    {
        match self {
            WorkerError::TicketParse { text, error } => WorkerError::TicketParse {
                text: text.clone(),
                error: *error,
            },
            WorkerError::Share { cause } => WorkerError::Share { cause: cause.clone() },
            WorkerError::Get { cause } => WorkerError::Get { cause: cause.clone() },
        }
    }

    /// The label that says during which step the failure came.
    pub fn context_label(&self) -> (r: &'static str)
        ensures
            r@ == self.label(),
    {
        match self {
            WorkerError::TicketParse { .. } => "parsing ticket",
            WorkerError::Share { .. } => "sharing",
            WorkerError::Get { .. } => "get",
        }
    }

    /// The line shown to the user: the context label, a colon and a space,
    /// then what went wrong.
    pub fn message(&self) -> (r: String)
        ensures
            r@ == self.label() + ": "@ + self.detail(),
    {
        let mut line = self.context_label().to_owned();
        line.append(": ");
        match self {
            WorkerError::TicketParse { error, .. } => line.append(error.describe()),
            WorkerError::Share { cause } => line.append(cause.as_str()),
            WorkerError::Get { cause } => line.append(cause.as_str()),
        }
        line
    }
}

} // verus!
