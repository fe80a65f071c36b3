use iroh_base::hash::BlobFormat;
use iroh_base::key::PublicKey;
use iroh_base::node_addr::NodeAddr;
use iroh_base::ticket::BlobTicket;
use sendme_worker::errors::WorkerError;
use sendme_worker::progress::Progress;
use sendme_worker::state::SharedState;
use std::str::FromStr;

fn some_ticket() -> BlobTicket {
    let node =
        PublicKey::from_str("ae58ff8833241ac82d6ff7611046ed67b5072d142c588d0063e942d9a75502b6")
            .unwrap();
    let addresses = vec!["127.0.0.1:1234".parse().unwrap()];
    let hash = iroh_base::hash::Hash::new(b"hi there");
    BlobTicket::new(NodeAddr::from_parts(node, None, addresses), hash, BlobFormat::Raw).unwrap()
}

fn failure(n: u32) -> WorkerError {
    WorkerError::Share { cause: format!("failure {}", n) }
}

#[test]
fn new_record_is_empty() {
    for state in [SharedState::new(), SharedState::default()] {
        assert_eq!(state.sharing_progress, None);
        assert_eq!(state.ticket, None);
        assert_eq!(state.download_progress, None);
        assert!(state.errors.is_empty());
        assert_eq!(state.current_error(), None);
        assert_eq!(state.current_message(), None);
        assert_eq!(state.ticket_text(), None);
    }
}

#[test]
fn reset_download_clears_progress_and_ticket_whatever_they_were() {
    let mut state = SharedState::new();
    state.sharing_progress = Some(Progress::Ratio { processed: 1, declared: 2 });
    state.ticket = Some(some_ticket());
    state.download_progress = Some(Progress::Indeterminate);
    state.push_error(failure(1));
    state.reset_download();
    assert_eq!(state.sharing_progress, None);
    assert_eq!(state.ticket, None);
    assert_eq!(state.download_progress, Some(Progress::Indeterminate));
    assert_eq!(state.errors, vec![failure(1)]);

    state.reset_download();
    assert_eq!(state.sharing_progress, None);
    assert_eq!(state.ticket, None);

    state.ticket = Some(some_ticket());
    state.reset_download();
    assert_eq!(state.ticket, None);
}

#[test]
fn the_last_failure_is_the_one_shown() {
    let mut state = SharedState::new();
    state.push_error(failure(1));
    assert_eq!(state.current_error(), Some(&failure(1)));
    state.push_error(failure(2));
    state.push_error(WorkerError::Get { cause: "no route".to_string() });
    assert_eq!(state.errors.len(), 3);
    assert_eq!(state.current_error(), Some(&WorkerError::Get { cause: "no route".to_string() }));
    assert_eq!(state.current_message(), Some("get: no route".to_string()));
}

#[test]
fn acknowledging_uncovers_older_failures_in_turn() {
    let mut state = SharedState::new();
    let count = 5;
    for n in 0..count {
        state.push_error(failure(n));
    }
    for n in (0..count).rev() {
        assert_eq!(state.errors.len() as u32, n + 1);
        assert_eq!(state.current_error(), Some(&failure(n)));
        assert_eq!(state.current_message(), Some(format!("sharing: failure {}", n)));
        assert_eq!(state.acknowledge_error(), Some(failure(n)));
    }
    assert!(state.errors.is_empty());
    assert_eq!(state.current_error(), None);
}

#[test]
fn acknowledging_nothing_changes_nothing() {
    let mut state = SharedState::new();
    state.download_progress = Some(Progress::started());
    assert_eq!(state.acknowledge_error(), None);
    assert!(state.errors.is_empty());
    assert_eq!(state.download_progress, Some(Progress::started()));
}

#[test]
fn acknowledging_touches_only_the_failures() {
    let mut state = SharedState::new();
    state.ticket = Some(some_ticket());
    state.sharing_progress = Some(Progress::Indeterminate);
    state.push_error(failure(1));
    state.push_error(failure(2));
    assert_eq!(state.acknowledge_error(), Some(failure(2)));
    assert_eq!(state.errors, vec![failure(1)]);
    assert_eq!(state.ticket, Some(some_ticket()));
    assert_eq!(state.sharing_progress, Some(Progress::Indeterminate));
}

#[test]
fn ticket_text_is_the_text_form_of_the_ticket() {
    let mut state = SharedState::new();
    state.ticket = Some(some_ticket());
    let text = state.ticket_text().unwrap();
    assert_eq!(text, some_ticket().to_string());
    assert!(text.starts_with("blob"));
}

#[test]
fn snapshot_copies_every_field() {
    let mut state = SharedState::new();
    let empty = state.snapshot();
    assert_eq!(empty.ticket, None);
    assert!(empty.errors.is_empty());

    state.sharing_progress = Some(Progress::Ratio { processed: 3, declared: 4 });
    state.download_progress = Some(Progress::Indeterminate);
    state.ticket = Some(some_ticket());
    for n in 0..3 {
        state.push_error(failure(n));
    }
    let copy = state.snapshot();
    assert_eq!(copy.sharing_progress, Some(Progress::Ratio { processed: 3, declared: 4 }));
    assert_eq!(copy.download_progress, Some(Progress::Indeterminate));
    assert_eq!(copy.ticket, Some(some_ticket()));
    assert_eq!(copy.errors, vec![failure(0), failure(1), failure(2)]);

    state.acknowledge_error();
    state.reset_download();
    assert_eq!(copy.errors.len(), 3);
    assert_eq!(copy.ticket, Some(some_ticket()));
}
