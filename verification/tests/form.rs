use iroh_base::hash::BlobFormat;
use iroh_base::key::PublicKey;
use iroh_base::node_addr::NodeAddr;
use iroh_base::ticket::BlobTicket;
use sendme_worker::form::{dropped_file, preview_files_being_dropped, DropPreview, Form};
use sendme_worker::macos_resource_path;
use sendme_worker::progress::Progress;
use sendme_worker::state::SharedState;
use sendme_worker::worker::{Outcome, Worker, WorkerMessage};
use std::path::PathBuf;
use std::str::FromStr;

fn some_ticket() -> BlobTicket {
    let node =
        PublicKey::from_str("ae58ff8833241ac82d6ff7611046ed67b5072d142c588d0063e942d9a75502b6")
            .unwrap();
    let addresses = vec!["127.0.0.1:1234".parse().unwrap()];
    let hash = iroh_base::hash::Hash::new(b"hi there");
    BlobTicket::new(NodeAddr::from_parts(node, None, addresses), hash, BlobFormat::Raw).unwrap()
}

#[test]
fn there_is_no_bundle_to_report() {
    assert_eq!(macos_resource_path(), None);
}

#[test]
fn new_form_is_blank() {
    let form = Form::new();
    assert_eq!(form.selected_file, None);
    assert_eq!(form.input_text, "");
    assert_eq!(form.download_target, None);
    let state = SharedState::new();
    assert!(form.share_request(&state).is_none());
    assert!(form.download_request(&state).is_none());
}

#[test]
fn share_is_offered_for_a_selected_file_without_a_ticket() {
    let mut form = Form::new();
    let mut state = SharedState::new();
    form.selected_file = Some(PathBuf::from("/data/file"));
    match form.share_request(&state) {
        Some(WorkerMessage::Share(path)) => assert_eq!(path, PathBuf::from("/data/file")),
        other => panic!("expected a share request, got {:?}", other),
    }
    state.sharing_progress = Some(Progress::Indeterminate);
    assert!(form.share_request(&state).is_some());
    state.ticket = Some(some_ticket());
    assert!(form.share_request(&state).is_none());
}

#[test]
fn download_is_offered_with_a_target_while_no_fetch_runs() {
    let mut form = Form::new();
    let mut state = SharedState::new();
    form.input_text = "blobsomething".to_string();
    assert!(form.download_request(&state).is_none());
    form.download_target = Some(PathBuf::from("/downloads"));
    match form.download_request(&state) {
        Some(WorkerMessage::Get(text, target)) => {
            assert_eq!(text, "blobsomething");
            assert_eq!(target, PathBuf::from("/downloads"));
        }
        other => panic!("expected a fetch request, got {:?}", other),
    }
    state.download_progress = Some(Progress::started());
    assert!(form.download_request(&state).is_none());
}

#[test]
fn ticket_text_is_locked_while_a_fetch_runs() {
    let mut state = SharedState::new();
    assert!(Form::can_edit_ticket(&state));
    state.download_progress = Some(Progress::Indeterminate);
    assert!(!Form::can_edit_ticket(&state));
    state.download_progress = None;
    state.sharing_progress = Some(Progress::Indeterminate);
    assert!(Form::can_edit_ticket(&state));
}

#[test]
fn selecting_a_file_starts_a_new_share_cycle() {
    let mut form = Form::new();
    form.input_text = "kept".to_string();
    form.download_target = Some(PathBuf::from("/downloads"));
    let mut worker = Worker::new();
    worker.begin_share(PathBuf::from("/data/old"));
    worker.complete(Outcome::Shared(some_ticket()));
    assert!(worker.shared().ticket.is_some());

    form.select_file(&mut worker, PathBuf::from("/data/new"));
    assert_eq!(form.selected_file, Some(PathBuf::from("/data/new")));
    assert_eq!(form.input_text, "kept");
    assert_eq!(form.download_target, Some(PathBuf::from("/downloads")));
    assert_eq!(worker.shared().ticket, None);
    assert_eq!(worker.shared().sharing_progress, None);
    assert!(form.share_request(worker.shared()).is_some());
}

#[test]
fn preview_tells_one_file_from_none_and_many() {
    let file = Some(PathBuf::from("/data/file"));
    assert!(matches!(preview_files_being_dropped(&vec![]), DropPreview::Nothing));
    match preview_files_being_dropped(&vec![file.clone()]) {
        DropPreview::File(path) => assert_eq!(path, PathBuf::from("/data/file")),
        other => panic!("expected a file, got {:?}", other),
    }
    assert!(matches!(preview_files_being_dropped(&vec![None]), DropPreview::InvalidFile));
    assert!(matches!(
        preview_files_being_dropped(&vec![file.clone(), file.clone()]),
        DropPreview::TooMany
    ));
    assert!(matches!(preview_files_being_dropped(&vec![None, None, file]), DropPreview::TooMany));
}

#[test]
fn a_drop_selects_the_first_item_if_it_has_a_path() {
    let one = Some(PathBuf::from("/data/one"));
    let two = Some(PathBuf::from("/data/two"));
    assert_eq!(dropped_file(&vec![]), None);
    assert_eq!(dropped_file(&vec![one.clone()]), one);
    assert_eq!(dropped_file(&vec![one.clone(), two.clone()]), one);
    assert_eq!(dropped_file(&vec![None, two]), None);
}
