use nekotatsu_pipeline::download::{
    is_parser_archive, is_success_status, overwrite_policy, staging_name, step, Clearance,
    DownloadAction, DownloadEvent, DownloadOutcome, DownloadState, STATUS_OK,
};
use nekotatsu_pipeline::error::{NetworkFailure, PipelineError};

fn request(file_name: &str) -> DownloadEvent {
    DownloadEvent::Request { file_name: file_name.to_string(), url: "https://example.org/r".to_string() }
}

fn drive(events: Vec<DownloadEvent>) -> (DownloadState, Vec<DownloadAction>) {
    let mut state = DownloadState::Idle;
    let mut actions = Vec::new();
    for event in events {
        let (next, action) = step(state, event);
        state = next;
        actions.push(action);
    }
    (state, actions)
}

fn failed(error: PipelineError) -> DownloadAction {
    DownloadAction::Finish(DownloadOutcome::Failed(error))
}

fn touches_cache(action: &DownloadAction) -> bool {
    matches!(action, DownloadAction::Receive(_) | DownloadAction::Commit(_) | DownloadAction::Transform)
}

#[test]
fn only_ok_is_success() {
    assert_eq!(STATUS_OK, 200);
    assert!(is_success_status(200));
    assert!(!is_success_status(201));
    assert!(!is_success_status(204));
    assert!(!is_success_status(304));
    assert!(!is_success_status(404));
    assert!(!is_success_status(0));
}

#[test]
fn staging_name_puts_part_behind_the_name() {
    assert_eq!(staging_name("tachi_sources.json"), "tachi_sources.json.part");
    assert_eq!(staging_name(""), ".part");
}

#[test]
fn parser_archive_is_known_by_its_name() {
    assert!(is_parser_archive("kotatsu_parsers.zip"));
    assert!(!is_parser_archive("kotatsu_parsers.json"));
    assert!(!is_parser_archive("tachi_sources.json"));
    assert!(!is_parser_archive("Kotatsu_parsers.zip"));
}

#[test]
fn download_overwrites_without_asking() {
    let (state, actions) = drive(vec![
        request("tachi_sources.json"),
        DownloadEvent::Responded(200),
        DownloadEvent::Succeeded,
        DownloadEvent::Succeeded,
    ]);
    assert_eq!(state, DownloadState::Finished);
    assert_eq!(
        actions,
        vec![
            DownloadAction::Fetch("https://example.org/r".to_string()),
            DownloadAction::Receive("tachi_sources.json".to_string()),
            DownloadAction::Commit("tachi_sources.json".to_string()),
            DownloadAction::Finish(DownloadOutcome::Completed),
        ]
    );
}

#[test]
fn overwrite_is_the_callers_to_settle() {
    assert_eq!(overwrite_policy(false, None), Clearance::Download);
    assert_eq!(overwrite_policy(false, Some(false)), Clearance::Download);
    assert_eq!(overwrite_policy(false, Some(true)), Clearance::Download);
    assert_eq!(overwrite_policy(true, None), Clearance::Ask);
    assert_eq!(overwrite_policy(true, Some(true)), Clearance::Download);
    assert_eq!(overwrite_policy(true, Some(false)), Clearance::Leave);
}

#[test]
fn parser_archive_is_followed_by_the_transform() {
    let (state, actions) = drive(vec![
        request("kotatsu_parsers.zip"),
        DownloadEvent::Responded(200),
        DownloadEvent::Succeeded,
        DownloadEvent::Succeeded,
        DownloadEvent::Succeeded,
    ]);
    assert_eq!(state, DownloadState::Finished);
    assert_eq!(actions[3], DownloadAction::Transform);
    assert_eq!(actions[4], DownloadAction::Finish(DownloadOutcome::Completed));
}

#[test]
fn failed_transform_is_a_derived_transform_error() {
    let (state, action) = step(DownloadState::Transforming, DownloadEvent::Failed("no parsers".to_string()));
    assert_eq!(state, DownloadState::Finished);
    assert_eq!(action, failed(PipelineError::DerivedTransformError("no parsers".to_string())));
}

#[test]
fn non_success_status_is_a_network_error_and_leaves_the_cache() {
    for status in [404u16, 500, 301, 204, 199, 201] {
        let (state, actions) =
            drive(vec![request("tachi_sources.json"), DownloadEvent::Responded(status)]);
        assert_eq!(state, DownloadState::Finished);
        assert_eq!(actions[1], failed(PipelineError::NetworkError(NetworkFailure::Status(status))));
        assert!(!actions.iter().any(touches_cache));
    }
}

#[test]
fn transport_failure_is_a_network_error() {
    let (state, actions) = drive(vec![
        request("tachi_sources.json"),
        DownloadEvent::Failed("dns".to_string()),
    ]);
    assert_eq!(state, DownloadState::Finished);
    assert_eq!(
        actions[1],
        failed(PipelineError::NetworkError(NetworkFailure::Transport("dns".to_string())))
    );
    assert!(!actions.iter().any(touches_cache));
}

#[test]
fn broken_body_is_never_committed() {
    let (state, actions) = drive(vec![
        request("tachi_sources.json"),
        DownloadEvent::Responded(200),
        DownloadEvent::Failed("reset".to_string()),
    ]);
    assert_eq!(state, DownloadState::Finished);
    assert_eq!(
        actions[2],
        failed(PipelineError::NetworkError(NetworkFailure::Transport("reset".to_string())))
    );
    assert!(!actions.iter().any(|a| matches!(a, DownloadAction::Commit(_) | DownloadAction::Transform)));
}

#[test]
fn failed_commit_is_reported() {
    let (state, action) = step(
        DownloadState::Committing { file_name: "correction.luau".to_string() },
        DownloadEvent::Failed("denied".to_string()),
    );
    assert_eq!(state, DownloadState::Finished);
    assert_eq!(
        action,
        failed(PipelineError::NetworkError(NetworkFailure::Transport("denied".to_string())))
    );
}

#[test]
fn download_event_out_of_turn_is_ignored() {
    let (state, action) = step(DownloadState::Idle, DownloadEvent::Responded(200));
    assert_eq!((state, action), (DownloadState::Idle, DownloadAction::Ignore));
    let (state, action) = step(DownloadState::Finished, request("x"));
    assert_eq!((state, action), (DownloadState::Finished, DownloadAction::Ignore));
    let (state, action) = step(DownloadState::Transforming, DownloadEvent::Responded(200));
    assert_eq!((state, action), (DownloadState::Transforming, DownloadAction::Ignore));
}
