use ren_flow::download::{DownloadAction, DownloadEvent, DownloadFailure, DownloadProgress, DownloadState};

fn run(events: Vec<DownloadEvent>) -> (DownloadState, Vec<DownloadAction>) {
    let mut state = DownloadState::new();
    let mut actions = Vec::new();
    for e in events {
        let (next, a) = state.step(e);
        state = next;
        actions.push(a);
    }
    (state, actions)
}

fn is_progress(a: &DownloadAction) -> bool {
    matches!(a, DownloadAction::EmitProgress { .. })
}

fn is_cancel(a: &DownloadAction) -> bool {
    matches!(a, DownloadAction::EmitCancel)
}

#[test]
fn chunks_summing_to_total_end_at_full_progress() {
    let (state, actions) = run(vec![
        DownloadEvent::FolderChosen { target_exists: false },
        DownloadEvent::ResponseReceived { content_length: Some(10) },
        DownloadEvent::ChunkWritten { len: 3 },
        DownloadEvent::ChunkWritten { len: 4 },
        DownloadEvent::ChunkWritten { len: 3 },
        DownloadEvent::StreamEnded,
    ]);
    assert!(matches!(actions[0], DownloadAction::SendRequest));
    assert!(matches!(actions[1], DownloadAction::CreateFile));
    let loads: Vec<u64> = actions
        .iter()
        .filter_map(|a| match a {
            DownloadAction::EmitProgress { progress } => Some(progress.loaded),
            _ => None,
        })
        .collect();
    assert_eq!(loads, vec![3, 7, 10]);
    match &actions[4] {
        DownloadAction::EmitProgress { progress } => {
            assert_eq!(
                *progress,
                DownloadProgress { length_computable: true, loaded: 10, total: 10 }
            );
            assert_eq!(progress.percent(), 100);
        }
        other => panic!("unexpected {:?}", other),
    }
    assert!(matches!(actions[5], DownloadAction::Complete));
    assert_eq!(state.outcome(), Some(Ok(())));
}

#[test]
fn percent_rounds_down_and_handles_empty_body() {
    let p = DownloadProgress { length_computable: true, loaded: 1, total: 3 };
    assert_eq!(p.percent(), 33);
    let empty = DownloadProgress { length_computable: true, loaded: 0, total: 0 };
    assert_eq!(empty.percent(), 0);
    let huge = DownloadProgress { length_computable: true, loaded: u64::MAX, total: 1 };
    assert_eq!(huge.percent(), (u64::MAX as u128) * 100);
}

#[test]
fn missing_content_length_fails_without_progress() {
    let (state, actions) = run(vec![
        DownloadEvent::FolderChosen { target_exists: false },
        DownloadEvent::ResponseReceived { content_length: None },
        DownloadEvent::ChunkWritten { len: 5 },
        DownloadEvent::StreamEnded,
    ]);
    assert!(!actions.iter().any(is_progress));
    assert!(!actions.iter().any(|a| matches!(a, DownloadAction::CreateFile)));
    assert!(matches!(
        actions[1],
        DownloadAction::EmitError { failure: DownloadFailure::MissingLength }
    ));
    assert_eq!(
        state.outcome(),
        Some(Err("the server did not report the file size".to_string()))
    );
}

#[test]
fn declined_folder_cancels_once() {
    let (state, actions) = run(vec![
        DownloadEvent::FolderDeclined,
        DownloadEvent::ResponseReceived { content_length: Some(4) },
        DownloadEvent::ChunkWritten { len: 4 },
    ]);
    assert_eq!(actions.iter().filter(|a| is_cancel(a)).count(), 1);
    assert!(!actions.iter().any(is_progress));
    assert!(!actions.iter().any(|a| matches!(a, DownloadAction::CreateFile | DownloadAction::SendRequest)));
    assert_eq!(state.outcome(), Some(Ok(())));
}

#[test]
fn declined_overwrite_matches_declined_folder() {
    for _ in 0..2 {
        let (state, actions) = run(vec![
            DownloadEvent::FolderChosen { target_exists: true },
            DownloadEvent::OverwriteAnswered { overwrite: false },
            DownloadEvent::ResponseReceived { content_length: Some(4) },
        ]);
        assert!(matches!(actions[0], DownloadAction::AskOverwrite));
        assert!(matches!(actions[1], DownloadAction::EmitCancel));
        assert!(matches!(actions[2], DownloadAction::Ignore));
        assert_eq!(actions.iter().filter(|a| is_cancel(a)).count(), 1);
        assert_eq!(state.outcome(), Some(Ok(())));
    }
}

#[test]
fn accepted_overwrite_sends_request() {
    let (state, actions) = run(vec![
        DownloadEvent::FolderChosen { target_exists: true },
        DownloadEvent::OverwriteAnswered { overwrite: true },
    ]);
    assert!(matches!(actions[1], DownloadAction::SendRequest));
    assert!(!state.is_finished());
    assert_eq!(state.outcome(), None);
}

#[test]
fn request_failure_is_reported_with_prefix() {
    let (state, actions) = run(vec![
        DownloadEvent::FolderChosen { target_exists: false },
        DownloadEvent::RequestFailed { reason: "timed out".to_string() },
    ]);
    match &actions[1] {
        DownloadAction::EmitError { failure } => {
            assert_eq!(failure.describe(), "request failed: timed out")
        }
        other => panic!("unexpected {:?}", other),
    }
    assert_eq!(state.outcome(), Some(Err("request failed: timed out".to_string())));
}

#[test]
fn transfer_failure_keeps_text_and_stops() {
    let (state, actions) = run(vec![
        DownloadEvent::FolderChosen { target_exists: false },
        DownloadEvent::ResponseReceived { content_length: Some(8) },
        DownloadEvent::ChunkWritten { len: 2 },
        DownloadEvent::TransferFailed { reason: "disk full".to_string() },
        DownloadEvent::ChunkWritten { len: 2 },
    ]);
    assert_eq!(actions.iter().filter(|a| is_progress(a)).count(), 1);
    assert!(matches!(actions[4], DownloadAction::Ignore));
    assert_eq!(state.outcome(), Some(Err("disk full".to_string())));
}

#[test]
fn byte_count_overflow_fails() {
    let (state, _) = run(vec![
        DownloadEvent::FolderChosen { target_exists: false },
        DownloadEvent::ResponseReceived { content_length: Some(1) },
        DownloadEvent::ChunkWritten { len: u64::MAX },
        DownloadEvent::ChunkWritten { len: 1 },
    ]);
    assert_eq!(
        state.outcome(),
        Some(Err("the downloaded size does not fit in 64 bits".to_string()))
    );
}

#[test]
fn empty_body_completes_without_progress() {
    let (state, actions) = run(vec![
        DownloadEvent::FolderChosen { target_exists: false },
        DownloadEvent::ResponseReceived { content_length: Some(0) },
        DownloadEvent::StreamEnded,
    ]);
    assert!(!actions.iter().any(is_progress));
    assert_eq!(state.outcome(), Some(Ok(())));
}

#[test]
fn duplicate_failure_is_equal_in_text() {
    let f = DownloadFailure::Transfer { reason: "x".to_string() };
    assert_eq!(f.duplicate().describe(), f.describe());
}
