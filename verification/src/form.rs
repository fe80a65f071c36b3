//! What the user has entered, and which request each button sends.

use crate::state::SharedState;
use crate::worker::{Worker, WorkerMessage};
use std::path::PathBuf;
use vstd::prelude::*;

verus! {

/// The user's entries: the file to share, the pasted ticket text, and the
/// directory to fetch into.
#[derive(Debug)]
pub struct Form {
    pub selected_file: Option<PathBuf>,
    pub input_text: String,
    pub download_target: Option<PathBuf>,
}

/// What to show while files hover over the window.
#[derive(Debug)]
pub enum DropPreview {
    /// Nothing hovers.
    Nothing,
    /// One file hovers, and this is its path.
    File(PathBuf),
    /// One item hovers, and it has no path.
    InvalidFile,
    /// More than one item hovers; only one file can be shared.
    TooMany,
}

/// Calls `PathBuf::clone` of the standard library. The contract claims that
/// the copy equals the path it was made from.
#[verifier::external_body]
fn clone_path(path: &PathBuf) -> (r: PathBuf)
    ensures
        r == *path,
{
    path.clone()
}

/// The preview for the items that hover over the window, each given by its
/// path where it has one.
pub open spec fn preview_of(hovered: Seq<Option<PathBuf>>) -> DropPreview {
    if hovered.len() == 0 {
        DropPreview::Nothing
    } else if hovered.len() == 1 {
        match hovered[0] {
            Some(path) => DropPreview::File(path),
            None => DropPreview::InvalidFile,
        }
    } else {
        DropPreview::TooMany
    }
}

/// What to show for the items that hover over the window.
pub fn preview_files_being_dropped(hovered: &Vec<Option<PathBuf>>) -> (r: DropPreview)
    ensures
        r == preview_of(hovered@),
{
    if hovered.len() == 0 {
        DropPreview::Nothing
    } else if hovered.len() == 1 {
        match &hovered[0] {
            Some(path) => DropPreview::File(clone_path(path)),
            None => DropPreview::InvalidFile,
        }
    } else {
        DropPreview::TooMany
    }
}

/// The file that a drop selects: the first of the dropped items, if it has
/// a path.
pub fn dropped_file(dropped: &Vec<Option<PathBuf>>) -> (r: Option<PathBuf>)
    ensures
        r == (if dropped@.len() == 0 {
            None
        } else {
            dropped@[0]
        }),
{
    if dropped.len() == 0 {
        None
    } else {
        match &dropped[0] {
            Some(path) => Some(clone_path(path)),
            None => None,
        }
    }
}

impl Form {
    /// The request of the Share button, which is offered while a file is
    /// selected and the record holds no ticket.
    pub open spec fn share_offer(self, ticket_present: bool) -> Option<WorkerMessage> {
        match self.selected_file {
            Some(path) if !ticket_present => Some(WorkerMessage::Share(path)),
            _ => None,
        }
    }

    /// The request of the Download button, which is offered while a target
    /// directory is chosen and no fetch is running.
    pub open spec fn download_offer(self, fetch_running: bool) -> Option<WorkerMessage> {
        match self.download_target {
            Some(target) if !fetch_running => Some(WorkerMessage::Get(self.input_text, target)),
            _ => None,
        }
    }

    /// A form with nothing entered.
    pub fn new() -> (r: Form)
        ensures
            r.selected_file.is_none(),
            r.input_text@ == Seq::<char>::empty(),
            r.download_target.is_none(),
    {
        Form { selected_file: None, input_text: String::new(), download_target: None }
    }

    /// Whether the ticket text can be edited: not while a fetch is running.
    pub fn can_edit_ticket(state: &SharedState) -> (r: bool)
        ensures
            r == state@.download_progress.is_none(),
    {
        state.download_progress.is_none()
    }

    /// The request that the Share button sends, or `None` while the button
    /// is not offered.
    pub fn share_request(&self, state: &SharedState) -> (r: Option<WorkerMessage>)
        ensures
            r == self.share_offer(state@.ticket.is_some()),
    {
        match &self.selected_file {
            Some(path) => {
                if state.ticket.is_none() {
                    Some(WorkerMessage::Share(clone_path(path)))
                } else {
                    None
                }
            },
            None => None,
        }
    }

    /// The request that the Download button sends, or `None` while the
    /// button is not offered.
    pub fn download_request(&self, state: &SharedState) -> (r: Option<WorkerMessage>)
        ensures
            r == self.download_offer(state@.download_progress.is_some()),
    {
        match &self.download_target {
            Some(target) => {
                if state.download_progress.is_none() {
                    Some(WorkerMessage::Get(self.input_text.clone(), clone_path(target)))
                } else {
                    None
                }
            },
            None => None,
        }
    }

    /// The user picked or dropped a file: it becomes the file to share, and
    /// the worker's record starts a new share cycle.
    pub fn select_file(&mut self, worker: &mut Worker, path: PathBuf)
        ensures
            final(self).selected_file == Some(path),
            final(self).input_text == old(self).input_text,
            final(self).download_target == old(self).download_target,
            final(worker)@ == old(worker)@.file_selected(),
    {
        self.selected_file = Some(path);
        worker.select_file();
    }
}

} // verus!
